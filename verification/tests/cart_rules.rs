use essentia_commerce::errors::CommerceError;
use essentia_commerce::implementation::cart_system::{
    AppliedDiscount, Cart, CartId, CartItem, CartService, CartStatus, CartTotals, CouponCode,
    CustomerId, DiscountType, ShippingAddress, ShippingMethod,
};
use essentia_commerce::types::product_catalog::{
    Currency, Price, Product, ProductId, ProductImage, ProductStatus, Sku,
};

fn product(id: &str, price: u64, stock: i64) -> Product {
    let mut product = Product::new(ProductId::new(id), Sku::new(&format!("SKU-{}", id)), id);
    product.status = ProductStatus::Active;
    product.price = Price::new(price, Currency::usd(), 2);
    product.inventory_quantity = stock;
    product
}

#[test]
fn identifiers_and_codes() {
    assert_eq!(CartId::new("c-1").to_string(), "c-1");
    assert_eq!(CartId::from_static("c-1"), CartId::new("c-1"));
    let generated = CartId::generate();
    assert!(generated.0.starts_with("cart-") && generated.0[5..].chars().all(|c| c.is_ascii_digit()));
    assert_eq!(CustomerId::guest(), CustomerId::from_static("guest"));
    assert_eq!(CouponCode::new("save10").0, "SAVE10");
    assert_eq!(CouponCode::from_static("save10").0, "save10");
    let fixed = AppliedDiscount::fixed_amount(CouponCode::new("x"), 5, "five off");
    assert_eq!((fixed.discount_type, fixed.value, fixed.savings), (DiscountType::FixedAmount, 5, 0));
    assert_eq!(fixed.description, "five off");
    assert_eq!(CartStatus::default(), CartStatus::Active);
}

#[test]
fn items_snapshot_the_product() {
    let mut shown = product("p", 1000, 5);
    shown.sale_price = Some(Price::new(800, Currency::usd(), 2));
    shown.images.push(ProductImage::new("a.png", "a"));
    shown.images.push(ProductImage::new("b.png", "b").as_primary());
    let mut item = CartItem::from_product(&shown, 3);
    assert_eq!(item.product_name, "p");
    assert_eq!(item.product_sku, "SKU-p");
    assert_eq!(item.image_url.as_deref(), Some("b.png"));
    assert_eq!((item.unit_price.amount, item.original_price.amount), (800, 1000));
    assert_eq!(item.added_at, item.updated_at);
    assert!(item.is_on_sale());
    assert_eq!((item.subtotal(), item.sale_savings(), item.total_discount(), item.total()), (2400, 600, 0, 2400));
    let mut off = AppliedDiscount::fixed_amount(CouponCode::new("x"), 5, "");
    off.savings = 400;
    item.discounts.push(off.clone());
    item.discounts.push(off);
    assert_eq!((item.total_discount(), item.total()), (800, 1600));
    item.set_quantity(0);
    assert_eq!((item.subtotal(), item.total()), (0, 0));
    item.set_quantity(u32::MAX);
    item.unit_price.amount = u64::MAX;
    assert_eq!(item.subtotal(), u64::MAX);
    assert!(!item.is_on_sale());
    assert_eq!(item.sale_savings(), 0);
    assert!(CartItem::from_product(&product("q", 1, 1), 1).image_url.is_none());
}

#[test]
fn shipping_methods_and_addresses() {
    let address = ShippingAddress::new("John", "Doe", "1 St", "City", "ST", "123", "US");
    assert_eq!(address.full_name(), "John Doe");
    assert!(address.company.is_none() && address.phone.is_none());
    assert_eq!(ShippingAddress::default().full_name(), " ");
    let method = ShippingMethod::new("x", "Express", Price::new(900, Currency::usd(), 2));
    assert_eq!((method.estimated_days_min, method.estimated_days_max, method.has_tracking), (3, 7, true));
    assert_eq!(method.delivery_estimate(), "3-7 business days");
    let mut same_day = ShippingMethod::from_static("s", "Same", Price::new(0, Currency::usd(), 2));
    same_day.estimated_days_min = 1;
    same_day.estimated_days_max = 1;
    assert_eq!(same_day.delivery_estimate(), "1 business days");
    let free = ShippingMethod::free_shipping();
    assert_eq!((free.id.as_str(), free.name.as_str(), free.cost.amount, free.has_tracking), ("free", "Free Shipping", 0, false));
    assert_eq!(free.description, "Standard free shipping");
}

#[test]
fn adding_items_checks_quantity_status_and_stock() {
    let mut cart = Cart::new(CustomerId::new("c"));
    assert_eq!(cart.currency, Currency::usd());
    assert_eq!(cart.expires_at, Some(cart.created_at + 7 * 24 * 60 * 60));
    assert!(matches!(cart.add_item(&product("p", 1, 5), 0), Err(CommerceError::InvalidQuantity)));
    let mut draft = product("d", 1, 5);
    draft.status = ProductStatus::Draft;
    match cart.add_item(&draft, 1) {
        Err(CommerceError::ProductNotAvailable(id)) => assert_eq!(id, "d"),
        other => panic!("unexpected result: {:?}", other),
    }
    match cart.add_item(&product("p", 1, 5), 6) {
        Err(CommerceError::InsufficientInventory { product_id, available, requested }) => {
            assert_eq!((product_id.as_str(), available, requested), ("p", 5, 6));
        },
        other => panic!("unexpected result: {:?}", other),
    }
    cart.add_item(&product("p", 1, 5), 4).expect("add");
    match cart.add_item(&product("p", 1, 5), 2) {
        Err(CommerceError::InsufficientInventory { available, requested, .. }) => {
            assert_eq!((available, requested), (5, 6));
        },
        other => panic!("unexpected result: {:?}", other),
    }
    assert_eq!(cart.total_quantity(), 4);
    let mut backordered = product("b", 1, 0);
    backordered.backorders_allowed = true;
    cart.add_item(&backordered, u32::MAX).expect("add");
    cart.add_item(&backordered, 7).expect("add");
    assert_eq!(cart.items[1].quantity, u32::MAX);
    assert_eq!(cart.total_quantity(), u32::MAX);
    assert_eq!(cart.unique_item_count(), 2);

    cart.update_item_quantity(&ProductId::new("b"), 3).expect("update");
    assert_eq!(cart.total_quantity(), 7);
    cart.update_item_quantity(&ProductId::new("b"), 0).expect("remove by update");
    assert_eq!(cart.unique_item_count(), 1);
    match cart.update_item_quantity(&ProductId::new("b"), 1) {
        Err(CommerceError::ItemNotInCart(id)) => assert_eq!(id, "b"),
        other => panic!("unexpected result: {:?}", other),
    }
    assert!(matches!(cart.remove_item(&ProductId::new("b")), Err(CommerceError::ItemNotInCart(_))));
    cart.apply_discount(AppliedDiscount::percentage(CouponCode::new("a"), 1, "")).expect("apply");
    cart.clear();
    assert!(cart.is_empty() && cart.discounts.is_empty());
}

#[test]
fn discounts_are_applied_once_and_removed() {
    let mut cart = Cart::guest();
    assert_eq!(cart.customer_id, CustomerId::guest());
    cart.apply_discount(AppliedDiscount::percentage(CouponCode::new("a"), 10, "")).expect("apply");
    cart.apply_discount(AppliedDiscount::fixed_amount(CouponCode::new("b"), 5, "")).expect("apply");
    match cart.apply_discount(AppliedDiscount::fixed_amount(CouponCode::new("a"), 5, "")) {
        Err(CommerceError::DiscountAlreadyApplied(code)) => assert_eq!(code, "A"),
        other => panic!("unexpected result: {:?}", other),
    }
    match cart.remove_discount("a") {
        Err(CommerceError::DiscountNotFound(code)) => assert_eq!(code, "a"),
        other => panic!("unexpected result: {:?}", other),
    }
    cart.remove_discount("A").expect("remove");
    assert_eq!(cart.discounts.len(), 1);
    assert_eq!(cart.discounts[0].code.0, "B");
}

#[test]
fn totals_add_up() {
    let mut cart = Cart::new(CustomerId::new("c"));
    let mut sale = product("s", 1000, 50);
    sale.sale_price = Some(Price::new(900, Currency::usd(), 2));
    cart.add_item(&sale, 2).expect("add");
    cart.add_item(&product("p", 200, 50), 1).expect("add");
    cart.items[1].discounts.push({
        let mut d = AppliedDiscount::fixed_amount(CouponCode::new("i"), 50, "");
        d.savings = 50;
        d
    });
    cart.set_shipping_method(ShippingMethod::new("x", "X", Price::new(300, Currency::usd(), 2)));
    cart.set_billing_address(ShippingAddress::default());
    cart.apply_discount(AppliedDiscount::percentage(CouponCode::new("ten"), 10, "")).expect("apply");
    cart.apply_discount(AppliedDiscount::fixed_amount(CouponCode::new("five"), 5, "")).expect("apply");
    assert_eq!(cart.taxable_amount(), 2000 - (50 + 200 + 5));
    let totals = cart.calculate_totals(17);
    assert_eq!(
        (totals.subtotal, totals.discount_total, totals.shipping_total, totals.tax_total),
        (2000, 255, 300, 17)
    );
    assert_eq!((totals.grand_total, totals.total_savings, totals.item_count), (2062, 455, 3));
    assert_eq!(totals.currency, Currency::usd());

    let mut with_free = AppliedDiscount::fixed_amount(CouponCode::new("ship"), 0, "");
    with_free.discount_type = DiscountType::FreeShipping;
    cart.apply_discount(with_free).expect("apply");
    let totals = cart.calculate_totals(0);
    assert_eq!((totals.shipping_total, totals.grand_total), (0, 1745));

    let huge = AppliedDiscount::fixed_amount(CouponCode::new("huge"), u64::MAX, "");
    let totals = CartTotals::calculate(&cart.items, &vec![huge], None, 9, Currency::ess());
    assert_eq!((totals.discount_total, totals.grand_total, totals.total_savings), (u64::MAX, 9, u64::MAX));
    assert_eq!(CartTotals::taxable_amount(&Vec::new(), &Vec::new()), 0);
    assert_eq!(CartTotals::default().grand_total, 0);
}

#[test]
fn checkout_is_validated_in_order() {
    let mut cart = Cart::new(CustomerId::new("c"));
    let now = cart.created_at;
    assert!(matches!(cart.validate_for_checkout_at(now), Err(CommerceError::CartEmpty)));
    cart.add_item(&product("p", 1, 5), 1).expect("add");
    cart.status = CartStatus::Abandoned;
    assert!(matches!(cart.validate_for_checkout_at(now), Err(CommerceError::CartNotActive)));
    cart.status = CartStatus::Active;
    assert!(matches!(
        cart.validate_for_checkout_at(u64::MAX),
        Err(CommerceError::CartExpired)
    ));
    assert!(matches!(
        cart.validate_for_checkout_at(now),
        Err(CommerceError::ShippingAddressRequired)
    ));
    cart.set_shipping_address(ShippingAddress::default());
    assert!(cart.validate_for_checkout_at(now).is_ok());
    assert!(cart.is_expired_at(u64::MAX) && !cart.is_expired_at(cart.expires_at.expect("expiry")));
    cart.expires_at = None;
    assert!(!cart.is_expired_at(u64::MAX) && !cart.is_expired());
}

#[test]
fn service_finds_the_latest_usable_cart() {
    let mut service = CartService::new();
    let customer = CustomerId::new("c");
    assert!(service.get_customer_cart(&customer).expect("get").is_none());
    let mut first = service.create_cart(customer.clone()).expect("create");
    let mut second = service.create_cart(customer.clone()).expect("create");
    if first.id == second.id {
        return;
    }
    first.last_activity_at = 50;
    second.last_activity_at = 40;
    first.expires_at = Some(100);
    second.expires_at = Some(200);
    service.update_cart(first.clone()).expect("update");
    service.update_cart(second.clone()).expect("update");
    assert_eq!(service.get_customer_cart_at(&customer, 60).expect("get").expect("cart").id, first.id);
    assert_eq!(service.get_customer_cart_at(&customer, 150).expect("get").expect("cart").id, second.id);
    assert!(service.get_customer_cart_at(&customer, 250).expect("get").is_none());
    second.last_activity_at = 50;
    service.update_cart(second.clone()).expect("update");
    assert_eq!(service.get_customer_cart_at(&customer, 60).expect("get").expect("cart").id, second.id);
    service.mark_as_converted(&second.id).expect("convert");
    assert_eq!(service.get_cart(&second.id).expect("get").status, CartStatus::Converted);
    assert_eq!(service.get_customer_cart_at(&customer, 60).expect("get").expect("cart").id, first.id);

    match service.get_cart(&CartId::new("none")) {
        Err(CommerceError::CartNotFound(id)) => assert_eq!(id, "none"),
        other => panic!("unexpected result: {:?}", other),
    }
    assert!(matches!(service.mark_as_converted(&CartId::new("none")), Err(CommerceError::CartNotFound(_))));
    let mut stranger = Cart::new(customer.clone());
    stranger.id = CartId::new("stranger");
    assert!(matches!(service.update_cart(stranger), Err(CommerceError::CartNotFound(_))));

    assert_eq!(service.cleanup_carts_at(1, 50 + 86400).expect("cleanup"), 0);
    assert_eq!(service.cleanup_carts_at(1, 51 + 86400).expect("cleanup"), 1);
    assert!(service.get_cart(&second.id).is_err());
    assert!(service.get_cart(&first.id).is_ok());
    assert_eq!(service.cleanup_carts(0).expect("cleanup"), 0);
}

#[test]
fn guest_carts_are_merged() {
    let mut service = CartService::new();
    let mut guest = service.create_cart(CustomerId::guest()).expect("create");
    guest.add_item(&product("p", 100, 50), 2).expect("add");
    guest.add_item(&product("q", 100, 50), 1).expect("add");
    service.update_cart(guest.clone()).expect("update");
    let customer = CustomerId::new("c");
    let mut own = service.get_or_create_cart(customer.clone()).expect("own");
    if own.id == guest.id {
        return;
    }
    own.add_item(&product("q", 100, 50), 4).expect("add");
    service.update_cart(own.clone()).expect("update");
    assert_eq!(service.get_or_create_cart(customer.clone()).expect("own").id, own.id);

    let merged = service.merge_carts(&guest.id, &customer).expect("merge");
    assert_eq!(merged.id, own.id);
    let quantities: Vec<(String, u32)> =
        merged.items.iter().map(|i| (i.product_id.as_str().to_string(), i.quantity)).collect();
    assert_eq!(quantities, vec![("q".to_string(), 5), ("p".to_string(), 2)]);
    assert_eq!(service.get_cart(&guest.id).expect("guest").status, CartStatus::Merged);
    assert_eq!(service.get_cart(&own.id).expect("own").items.len(), 2);
    assert!(matches!(
        service.merge_carts(&CartId::new("none"), &customer),
        Err(CommerceError::CartNotFound(_))
    ));
}
