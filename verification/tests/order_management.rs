use essentia_commerce::errors::CommerceError;
use essentia_commerce::implementation::cart_system::{
    AppliedDiscount, Cart, CouponCode, CustomerId, ShippingAddress, ShippingMethod,
};
use essentia_commerce::implementation::order_management::{
    FulfillmentStatus, Order, OrderCustomerId, OrderEventType, OrderFilter, OrderId, OrderLineItem,
    OrderNote, OrderService, OrderStatus, OrderTotals, PaymentStatus, PaymentTransaction, Shipment,
    ShipmentItem, ShipmentStatus, TransactionStatus, TransactionType,
};
use essentia_commerce::types::product_catalog::{
    Currency, Price, Product, ProductId, ProductStatus, Sku,
};

fn product(id: &str, price: u64) -> Product {
    let mut product = Product::new(ProductId::new(id), Sku::new(&format!("SKU-{}", id)), id);
    product.status = ProductStatus::Active;
    product.price = Price::new(price, Currency::usd(), 2);
    product.inventory_quantity = 100;
    product
}

fn ready_cart(customer: &str) -> Cart {
    let mut cart = Cart::new(CustomerId::new(customer));
    cart.add_item(&product("p1", 1000), 2).expect("add");
    cart.add_item(&product("p2", 500), 1).expect("add");
    cart.set_shipping_address(ShippingAddress::new("Ann", "Lee", "1 Way", "Town", "ST", "1", "US"));
    cart.set_shipping_method(ShippingMethod::new("std", "Standard", Price::new(300, Currency::usd(), 2)));
    cart
}

fn payment(id: &str, kind: TransactionType, status: TransactionStatus, amount: u64) -> PaymentTransaction {
    PaymentTransaction {
        id: id.to_string(),
        external_id: None,
        transaction_type: kind,
        amount,
        currency: Currency::usd(),
        status,
        gateway: "test".to_string(),
        payment_method: None,
        error_message: None,
        created_at: 1,
    }
}

#[test]
fn order_statuses_tell_what_is_allowed() {
    assert!(OrderStatus::PendingPayment.is_cancellable() && OrderStatus::OnHold.is_cancellable());
    assert!(!OrderStatus::Shipped.is_cancellable());
    assert!(OrderStatus::Shipped.is_refundable() && !OrderStatus::PendingPayment.is_refundable());
    assert!(OrderStatus::Refunded.is_final() && !OrderStatus::PartiallyRefunded.is_final());
    assert_eq!(OrderStatus::PendingPayment.display_name(), "Pending Payment");
    assert_eq!(OrderStatus::PartiallyRefunded.display_name(), "Partially Refunded");
    assert_eq!(TransactionStatus::Cancelled.display_name(), "Cancelled");
    assert_eq!(OrderStatus::default(), OrderStatus::PendingPayment);
    assert_eq!(PaymentStatus::default(), PaymentStatus::Pending);
    assert_eq!(FulfillmentStatus::default(), FulfillmentStatus::Unfulfilled);
    assert_eq!(ShipmentStatus::default(), ShipmentStatus::Pending);
    let id = OrderId::generate();
    assert!(id.0.starts_with("ORD-") && id.0[4..].chars().all(|c| c.is_ascii_digit()));
    assert_eq!(OrderCustomerId::from(CustomerId::new("c")), OrderCustomerId::new("c"));
    assert_eq!(OrderCustomerId::from("d".to_string()), OrderCustomerId::new("d"));
}

#[test]
fn order_is_made_of_a_cart() {
    let mut cart = ready_cart("c1");
    cart.apply_discount(AppliedDiscount::percentage(CouponCode::new("ten"), 10, "10%")).expect("discount");
    assert_eq!(cart.discounts[0].code.0, "TEN");
    assert_eq!(cart.taxable_amount(), 2250);
    let order = Order::from_cart(&cart, "ann@example.com", 225, &vec![180, 45]);
    assert_eq!(order.order_number, format!("#{}", &order.id.0[4..]));
    assert_eq!(order.customer_id, OrderCustomerId::new("c1"));
    assert_eq!(order.customer_email, "ann@example.com");
    assert_eq!(
        (order.status, order.payment_status, order.fulfillment_status),
        (OrderStatus::PendingPayment, PaymentStatus::Pending, FulfillmentStatus::Unfulfilled)
    );
    assert_eq!(
        order.totals,
        OrderTotals {
            subtotal: 2500,
            discount_total: 250,
            shipping_total: 300,
            tax_total: 225,
            grand_total: 2775,
            amount_paid: 0,
            amount_refunded: 0,
            amount_due: 2775,
        }
    );
    assert_eq!(order.line_items.len(), 2);
    let line: &OrderLineItem = &order.line_items[1];
    assert_eq!((line.id.as_str(), line.quantity, line.subtotal, line.tax, line.total), ("line-2", 1, 500, 45, 545));
    assert_eq!(order.line_items[0].total, 2180);
    assert_eq!(line.quantity_remaining(), 1);
    assert!(!line.is_fulfilled());
    assert_eq!(order.shipping_method.id, "std");
    assert_eq!(order.shipping_address.full_name(), "Ann Lee");
    assert_eq!(order.history.len(), 1);
    assert_eq!(order.history[0].event_type, OrderEventType::Created);
    assert_eq!(order.history[0].description, "Order created");
    assert_eq!(order.history[0].id, format!("event-{}", order.history[0].created_at));

    let bare = Order::from_cart(&Cart::guest(), "g@example.com", 0, &Vec::new());
    assert_eq!(bare.shipping_method.id, "free");
    assert_eq!(bare.shipping_method.delivery_estimate(), "5-10 business days");
    assert_eq!(bare.shipping_address.first_name, "");
    assert_eq!(bare.customer_id, OrderCustomerId::new("guest"));
    assert_eq!(bare.totals.grand_total, 0);
}

#[test]
fn payments_move_the_totals() {
    let mut order = Order::from_cart(&ready_cart("c1"), "a@b", 0, &Vec::new());
    assert_eq!(order.totals.grand_total, 2800);
    order.record_payment(payment("t1", TransactionType::Capture, TransactionStatus::Failed, 2800));
    assert_eq!((order.totals.amount_paid, order.payment_status), (0, PaymentStatus::Pending));
    assert_eq!(order.history.last().expect("event").event_type, OrderEventType::PaymentFailed);
    assert_eq!(order.history.last().expect("event").description, "Transaction t1: Failed");
    order.record_payment(payment("t2", TransactionType::Capture, TransactionStatus::Success, 1000));
    assert_eq!((order.totals.amount_paid, order.totals.amount_due), (1000, 1800));
    assert_eq!(order.payment_status, PaymentStatus::Pending);
    order.record_payment(payment("t3", TransactionType::Capture, TransactionStatus::Success, 1800));
    assert_eq!((order.totals.amount_due, order.payment_status), (0, PaymentStatus::Captured));
    assert_eq!(order.history.last().expect("event").event_type, OrderEventType::PaymentReceived);
    assert!(!order.can_refund());
    order.update_status(OrderStatus::Processing, Some("ops".to_string()));
    assert!(order.can_refund());
    assert_eq!(order.max_refund_amount(), 2800);
    let change = order.history.last().expect("event");
    assert_eq!(change.description, "Status changed from Pending Payment to Processing");
    assert_eq!((change.previous_status, change.new_status), (Some(OrderStatus::PendingPayment), Some(OrderStatus::Processing)));
    assert_eq!(change.user.as_deref(), Some("ops"));
    assert_eq!(change.created_at, order.updated_at);
    order.record_payment(payment("t4", TransactionType::Refund, TransactionStatus::Success, 800));
    assert_eq!(
        (order.totals.amount_refunded, order.totals.amount_due, order.payment_status),
        (800, 800, PaymentStatus::PartiallyRefunded)
    );
    assert_eq!(order.history.last().expect("event").event_type, OrderEventType::Refunded);
    assert_eq!(order.max_refund_amount(), 2000);
    order.record_payment(payment("t5", TransactionType::Refund, TransactionStatus::Success, u64::MAX));
    assert_eq!((order.totals.amount_refunded, order.payment_status), (u64::MAX, PaymentStatus::Refunded));
    assert_eq!(order.max_refund_amount(), 0);
    assert_eq!(order.transactions.len(), 5);
}

#[test]
fn shipments_fulfil_lines() {
    let mut order = Order::from_cart(&ready_cart("c1"), "a@b", 0, &Vec::new());
    let shipment = |id: &str, items: Vec<(&str, u32)>| Shipment {
        id: id.to_string(),
        carrier: "post".to_string(),
        tracking_number: None,
        tracking_url: None,
        status: ShipmentStatus::Pending,
        items: items
            .into_iter()
            .map(|(line, quantity)| ShipmentItem { line_item_id: line.to_string(), quantity })
            .collect(),
        shipping_address: ShippingAddress::default(),
        shipped_at: None,
        delivered_at: None,
        created_at: 1,
    };
    order.add_shipment(shipment("s0", vec![("line-9", 4)]));
    assert_eq!(order.fulfillment_status, FulfillmentStatus::Unfulfilled);
    order.add_shipment(shipment("s1", vec![("line-1", 1)]));
    assert_eq!(order.fulfillment_status, FulfillmentStatus::PartiallyFulfilled);
    assert_eq!(order.line_items[0].quantity_fulfilled, 1);
    assert_eq!(order.history.last().expect("event").description, "Shipment s1 created");
    assert_eq!(order.history.last().expect("event").event_type, OrderEventType::Shipped);
    order.add_shipment(shipment("s2", vec![("line-1", 1), ("line-2", 1)]));
    assert_eq!(order.fulfillment_status, FulfillmentStatus::Fulfilled);
    assert!(order.line_items[0].is_fulfilled() && order.line_items[1].is_fulfilled());
    assert_eq!(order.line_items[0].quantity_remaining(), 0);
    assert_eq!(order.shipments.len(), 3);

    order.add_note(OrderNote::customer_note("thanks", "ann"));
    let note = order.notes.last().expect("note");
    assert!(note.customer_visible);
    assert_eq!(note.id, format!("note-{}", note.created_at));
    let event = order.history.last().expect("event");
    assert_eq!((event.event_type, event.description.as_str(), event.user.as_deref()), (OrderEventType::NoteAdded, "Note added", Some("ann")));
    assert!(!OrderNote::internal("x", "y").customer_visible);
}

#[test]
fn order_service_keeps_orders() {
    let mut service = OrderService::new();
    let empty = Cart::new(CustomerId::new("c1"));
    assert!(matches!(
        service.create_order(&empty, "a@b", 0, &Vec::new()),
        Err(CommerceError::CartEmpty)
    ));
    let mut no_address = ready_cart("c1");
    no_address.shipping_address = None;
    assert!(matches!(
        service.create_order(&no_address, "a@b", 0, &Vec::new()),
        Err(CommerceError::ShippingAddressRequired)
    ));
    let mut expired = ready_cart("c1");
    expired.expires_at = Some(0);
    assert!(matches!(
        service.create_order(&expired, "a@b", 0, &Vec::new()),
        Err(CommerceError::CartExpired)
    ));

    let first = service.create_order(&ready_cart("c1"), "a@b", 0, &Vec::new()).expect("create");
    let mut second = service.create_order(&ready_cart("c2"), "c@d", 280, &vec![200, 80]).expect("create");
    assert_eq!(first.order_number, "#1000");
    assert_eq!(second.order_number, "#1001");
    assert_eq!(second.totals.grand_total, 3080);
    assert_eq!(service.get_order(&first.id).expect("get").customer_email, "a@b");
    match service.get_order(&OrderId::new("none")) {
        Err(CommerceError::OrderNotFound(id)) => assert_eq!(id, "none"),
        other => panic!("unexpected result: {:?}", other),
    }
    if first.id != second.id {
        assert_eq!(service.get_customer_orders(&OrderCustomerId::new("c1")).expect("orders").len(), 1);
        assert_eq!(service.get_customer_orders(&OrderCustomerId::new("c2")).expect("orders")[0].id, second.id);
    }
    assert!(service.get_customer_orders(&OrderCustomerId::new("zz")).expect("orders").is_empty());

    second.tags.push("vip".to_string());
    service.update_order(second.clone()).expect("update");
    assert_eq!(service.get_order(&second.id).expect("get").tags, vec!["vip".to_string()]);
    let mut ghost = second.clone();
    ghost.id = OrderId::new("ghost");
    assert!(matches!(service.update_order(ghost), Err(CommerceError::OrderNotFound(_))));

    service.update_order_status(&second.id, OrderStatus::Shipped, None).expect("status");
    assert_eq!(service.get_order(&second.id).expect("get").status, OrderStatus::Shipped);
    match service.cancel_order(&second.id, "late") {
        Err(CommerceError::OrderNotCancellable(id)) => assert_eq!(id, second.id.0),
        other => panic!("unexpected result: {:?}", other),
    }
    assert!(matches!(
        service.cancel_order(&OrderId::new("none"), "x"),
        Err(CommerceError::OrderNotFound(_))
    ));
    if first.id != second.id {
        service.cancel_order(&first.id, "changed my mind").expect("cancel");
        let cancelled = service.get_order(&first.id).expect("get");
        assert_eq!(cancelled.status, OrderStatus::Cancelled);
        let note = cancelled.notes.last().expect("note");
        assert_eq!((note.content.as_str(), note.author.as_str(), note.customer_visible), ("Order cancelled: changed my mind", "System", false));
        assert_eq!(cancelled.history.len(), 3);
        assert_eq!(cancelled.history[1].description, "Status changed from Pending Payment to Cancelled");
        assert_eq!(cancelled.history[2].user.as_deref(), Some("System"));

        let shipped = OrderFilter { status: Some(OrderStatus::Shipped), ..OrderFilter::default() };
        assert_eq!(service.search_orders(&shipped).expect("search").len(), 1);
        let large = OrderFilter { min_total: Some(3000), max_total: Some(3080), ..OrderFilter::default() };
        assert_eq!(service.search_orders(&large).expect("search")[0].id, second.id);
        assert_eq!(service.search_orders(&OrderFilter::default()).expect("search").len(), 2);
        let never = OrderFilter { created_to: Some(0), ..OrderFilter::default() };
        assert!(service.search_orders(&never).expect("search").is_empty());
        assert!(service.matches_filter(&cancelled, &OrderFilter { payment_status: Some(PaymentStatus::Pending), fulfillment_status: Some(FulfillmentStatus::Unfulfilled), created_from: Some(1), ..OrderFilter::default() }));
    }
}
