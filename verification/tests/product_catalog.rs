use essentia_commerce::errors::CommerceError;
use essentia_commerce::implementation::product_catalog::service::ProductCatalog;
use essentia_commerce::types::product_catalog::{
    Category, CategoryId, Currency, PaginatedProducts, Price, Product, ProductFilter, ProductId,
    ProductImage, ProductSortOrder, ProductStatus, Sku,
};

#[test]
fn test_product_creation() {
    let product = Product::new(
        ProductId::new("prod-001"),
        Sku::new("SKU-001"),
        "Test Product",
    );

    assert_eq!(product.id.as_str(), "prod-001");
    assert_eq!(product.name, "Test Product");
    assert_eq!(product.status, ProductStatus::Draft);
}

#[test]
fn test_price_operations() {
    let price1 = Price::new(1000, Currency::usd(), 2);
    let price2 = Price::new(500, Currency::usd(), 2);

    let total = price1.add(&price2).expect("should add prices");
    assert_eq!(total.amount, 1500);
    let display = total.amount as f64 / 10_u64.pow(u32::from(total.decimals)) as f64;
    assert_eq!(display, 15.0);
}

#[test]
fn test_effective_price() {
    let mut product = Product::new(
        ProductId::new("prod-001"),
        Sku::new("SKU-001"),
        "Test Product",
    );
    product.price = Price::new(10000, Currency::usd(), 2);

    assert_eq!(product.effective_price().amount, 10000);
    assert!(!product.is_on_sale());

    product.sale_price = Some(Price::new(7500, Currency::usd(), 2));

    assert_eq!(product.effective_price().amount, 7500);
    assert!(product.is_on_sale());
}

#[test]
fn test_product_status() {
    assert!(ProductStatus::Active.is_visible());
    assert!(ProductStatus::Active.is_purchasable());
    assert!(ProductStatus::OutOfStock.is_visible());
    assert!(!ProductStatus::OutOfStock.is_purchasable());
    assert!(!ProductStatus::Draft.is_visible());
}

#[test]
fn prices_of_different_currencies_do_not_add() {
    let dollars = Price::new(1, Currency::usd(), 2);
    let tokens = Price::ess(1);
    match dollars.add(&tokens) {
        Err(CommerceError::CurrencyMismatch { expected, got }) => {
            assert_eq!(expected, "USD");
            assert_eq!(got, "ESS");
        },
        other => panic!("unexpected result: {:?}", other),
    }
    let top = Price::new(u64::MAX, Currency::usd(), 2);
    assert_eq!(top.add(&dollars).expect("add").amount, u64::MAX);
    assert_eq!(Price::default(), Price::ess(0));
    assert_eq!(tokens.decimals, 18);
}

#[test]
fn slugs_are_lowercase_with_dashes() {
    let product = Product::new(ProductId::new("p"), Sku::new("s"), "Red  Winter Coat");
    assert_eq!(product.slug, "red--winter-coat");
    let category = Category::new(CategoryId::new("c"), "Home Office");
    assert_eq!(category.slug, "home-office");
    assert!(category.parent_id.is_none() && category.is_active);
    let child = category.clone().with_parent(CategoryId::new("root"));
    assert_eq!(child.parent_id, Some(CategoryId::new("root")));
    assert_eq!(child.name, "Home Office");
}

#[test]
fn new_product_is_a_blank_draft() {
    let product = Product::new(ProductId::new("p"), Sku::new("s"), "Thing");
    assert_eq!(product.price, Price::ess(0));
    assert!(product.is_taxable && !product.is_featured && !product.backorders_allowed);
    assert_eq!(product.low_stock_threshold, 10);
    assert_eq!(product.created_at, product.updated_at);
    assert!(!product.is_in_stock() && !product.is_low_stock());
    assert!(product.primary_image().is_none());
}

#[test]
fn stock_and_primary_image_follow_the_fields() {
    let mut product = Product::new(ProductId::new("p"), Sku::new("s"), "Thing");
    product.inventory_quantity = 10;
    assert!(product.is_in_stock() && product.is_low_stock());
    product.inventory_quantity = 11;
    assert!(!product.is_low_stock());
    product.inventory_quantity = 0;
    product.backorders_allowed = true;
    assert!(product.is_in_stock());

    product.images.push(ProductImage::new("a.png", "first"));
    assert_eq!(product.primary_image().expect("image").url, "a.png");
    product.images.push(ProductImage::new("b.png", "second").as_primary());
    product.images.push(ProductImage::new("c.png", "third").as_primary());
    assert_eq!(product.primary_image().expect("image").url, "b.png");
}

#[test]
fn filter_builders_set_their_fields() {
    let filter = ProductFilter::new()
        .with_category(CategoryId::new("a"))
        .with_category(CategoryId::new("b"))
        .with_status(ProductStatus::Active)
        .with_price_range(Some(5), None)
        .in_stock_only();
    assert_eq!(filter.categories, vec![CategoryId::new("a"), CategoryId::new("b")]);
    assert_eq!(filter.status, Some(ProductStatus::Active));
    assert_eq!((filter.min_price, filter.max_price), (Some(5), None));
    assert!(filter.in_stock_only && !filter.featured_only && !filter.on_sale_only);
    assert!(filter.tags.is_empty() && filter.search_query.is_none());
}

#[test]
fn pages_are_counted_upwards() {
    let pages = |total_count: usize, page_size: usize| {
        PaginatedProducts { products: Vec::new(), total_count, page: 0, page_size, has_next: false }
            .total_pages()
    };
    assert_eq!(pages(0, 10), 0);
    assert_eq!(pages(10, 10), 1);
    assert_eq!(pages(11, 10), 2);
    assert_eq!(pages(5, 0), 0);
    assert_eq!(pages(usize::MAX, 1), usize::MAX);
    assert_eq!(pages(usize::MAX, 2), usize::MAX / 2 + 1);
}

#[test]
fn test_catalog_add_product() {
    let mut catalog = ProductCatalog::new();
    let product = Product::new(
        ProductId::new("prod-001"),
        Sku::new("SKU-001"),
        "Test Product",
    );

    catalog.add_product(product).expect("should add product");

    let retrieved =
        catalog.get_product(&ProductId::new("prod-001")).expect("should get product");
    assert_eq!(retrieved.name, "Test Product");
}

#[test]
fn test_catalog_duplicate_sku() {
    let mut catalog = ProductCatalog::new();

    let product1 = Product::new(ProductId::new("prod-001"), Sku::new("SKU-001"), "Product 1");
    let product2 = Product::new(
        ProductId::new("prod-002"),
        Sku::new("SKU-001"), // Same SKU
        "Product 2",
    );

    catalog.add_product(product1).expect("should add first product");
    let result = catalog.add_product(product2);

    assert!(result.is_err());
}

#[test]
fn test_category_hierarchy() {
    let mut catalog = ProductCatalog::new();

    let root = Category::new(CategoryId::new("cat-root"), "Electronics");
    let child = Category::new(CategoryId::new("cat-phones"), "Phones")
        .with_parent(CategoryId::new("cat-root"));

    catalog.add_category(root).expect("should add root");
    catalog.add_category(child).expect("should add child");

    let children = catalog
        .get_child_categories(&CategoryId::new("cat-root"))
        .expect("should get children");

    assert_eq!(children.len(), 1);
    assert_eq!(children[0].name, "Phones");
}

#[test]
fn test_product_search() {
    let mut catalog = ProductCatalog::new();

    let mut product1 =
        Product::new(ProductId::new("prod-001"), Sku::new("SKU-001"), "iPhone 15");
    product1.status = ProductStatus::Active;
    product1.price = Price::new(99900, Currency::usd(), 2);

    let mut product2 = Product::new(
        ProductId::new("prod-002"),
        Sku::new("SKU-002"),
        "Samsung Galaxy",
    );
    product2.status = ProductStatus::Active;
    product2.price = Price::new(79900, Currency::usd(), 2);

    catalog.add_product(product1).expect("add product1");
    catalog.add_product(product2).expect("add product2");

    let filter = ProductFilter::new().with_status(ProductStatus::Active);
    let results = catalog
        .search_products(&filter, ProductSortOrder::PriceAsc, 0, 10)
        .expect("search should succeed");

    assert_eq!(results.total_count, 2);
    assert_eq!(results.products[0].name, "Samsung Galaxy"); // Lower price first
}

fn product(id: &str, name: &str, price: u64, created_at: u64) -> Product {
    let mut product = Product::new(ProductId::new(id), Sku::new(&format!("SKU-{}", id)), name);
    product.status = ProductStatus::Active;
    product.price = Price::new(price, Currency::usd(), 2);
    product.created_at = created_at;
    product
}

fn ids(products: &[Product]) -> Vec<String> {
    products.iter().map(|p| p.id.as_str().to_string()).collect()
}

fn stocked_catalog() -> ProductCatalog {
    let mut catalog = ProductCatalog::new();
    let mut a = product("a", "Pear", 300, 10);
    a.categories.push(CategoryId::new("fruit"));
    a.tags.push("fresh".to_string());
    a.is_featured = true;
    a.related_products = vec![ProductId::new("c"), ProductId::new("zz"), ProductId::new("b")];
    let mut b = product("b", "apple juice", 100, 30);
    b.categories.push(CategoryId::new("drinks"));
    b.sale_price = Some(Price::new(80, Currency::usd(), 2));
    b.vendor_id = Some("v1".to_string());
    b.inventory_quantity = 4;
    let mut c = product("c", "Banana", 300, 20);
    c.categories.push(CategoryId::new("fruit"));
    c.description = "Ripe APPLE-sized bananas".to_string();
    c.status = ProductStatus::Draft;
    c.is_featured = true;
    for p in [a, b, c] {
        catalog.add_product(p).expect("add");
    }
    catalog
}

#[test]
fn catalog_keeps_ids_and_skus_unique() {
    let mut catalog = stocked_catalog();
    match catalog.add_product(product("a", "Other", 1, 1)) {
        Err(CommerceError::ProductAlreadyExists(id)) => assert_eq!(id, "a"),
        other => panic!("unexpected result: {:?}", other),
    }
    let mut same_sku = product("d", "Other", 1, 1);
    same_sku.sku = Sku::new("SKU-b");
    match catalog.add_product(same_sku) {
        Err(CommerceError::SkuAlreadyExists(sku)) => assert_eq!(sku, "SKU-b"),
        other => panic!("unexpected result: {:?}", other),
    }
    assert_eq!(catalog.get_product_by_sku(&Sku::new("SKU-c")).expect("by sku").name, "Banana");
    match catalog.get_product_by_sku(&Sku::new("none")) {
        Err(CommerceError::ProductNotFound(what)) => assert_eq!(what, "none"),
        other => panic!("unexpected result: {:?}", other),
    }
    match catalog.get_product(&ProductId::new("zz")) {
        Err(CommerceError::ProductNotFound(what)) => assert_eq!(what, "zz"),
        other => panic!("unexpected result: {:?}", other),
    }

    let mut renamed = catalog.get_product(&ProductId::new("b")).expect("get");
    renamed.name = "Cider".to_string();
    catalog.update_product(renamed).expect("update");
    assert_eq!(catalog.get_product(&ProductId::new("b")).expect("get").name, "Cider");
    assert!(matches!(
        catalog.update_product(product("zz", "Ghost", 1, 1)),
        Err(CommerceError::ProductNotFound(_))
    ));

    let removed = catalog.remove_product(&ProductId::new("b")).expect("remove");
    assert_eq!(removed.name, "Cider");
    assert!(catalog.get_product(&ProductId::new("b")).is_err());
    assert!(catalog.get_product_by_sku(&Sku::new("SKU-b")).is_err());
    assert!(catalog.remove_product(&ProductId::new("b")).is_err());
    catalog.add_product(product("b", "Again", 1, 1)).expect("add again");
}

#[test]
fn search_sorts_and_pages() {
    let catalog = stocked_catalog();
    let all = ProductFilter::new();
    let listed = |sort: ProductSortOrder| -> Vec<String> {
        ids(&catalog.search_products(&all, sort, 0, 10).expect("search").products)
    };
    assert_eq!(listed(ProductSortOrder::Newest), vec!["b", "c", "a"]);
    assert_eq!(listed(ProductSortOrder::BestSelling), vec!["b", "c", "a"]);
    assert_eq!(listed(ProductSortOrder::PriceAsc), vec!["b", "a", "c"]);
    assert_eq!(listed(ProductSortOrder::PriceDesc), vec!["a", "c", "b"]);
    assert_eq!(listed(ProductSortOrder::NameAsc), vec!["c", "a", "b"]);
    assert_eq!(listed(ProductSortOrder::Featured), vec!["a", "c", "b"]);

    let page = catalog.search_products(&all, ProductSortOrder::Newest, 0, 2).expect("search");
    assert_eq!((ids(&page.products), page.total_count, page.has_next), (vec!["b".to_string(), "c".to_string()], 3, true));
    assert_eq!(page.total_pages(), 2);
    let page = catalog.search_products(&all, ProductSortOrder::Newest, 1, 2).expect("search");
    assert_eq!((ids(&page.products), page.has_next, page.page), (vec!["a".to_string()], false, 1));
    let page = catalog.search_products(&all, ProductSortOrder::Newest, 5, 2).expect("search");
    assert!(page.products.is_empty() && !page.has_next);
    let page = catalog.search_products(&all, ProductSortOrder::Newest, usize::MAX, 2).expect("search");
    assert!(page.products.is_empty() && !page.has_next);
    let page = catalog.search_products(&all, ProductSortOrder::Newest, 0, 0).expect("search");
    assert!(page.products.is_empty() && page.has_next);
}

#[test]
fn filters_select_products() {
    let catalog = stocked_catalog();
    let found = |filter: ProductFilter| -> Vec<String> {
        ids(&catalog
            .search_products(&filter, ProductSortOrder::NameAsc, 0, 10)
            .expect("search")
            .products)
    };
    assert_eq!(found(ProductFilter::new().with_status(ProductStatus::Draft)), vec!["c"]);
    assert_eq!(found(ProductFilter::new().with_category(CategoryId::new("fruit"))), vec!["c", "a"]);
    assert_eq!(
        found(
            ProductFilter::new()
                .with_category(CategoryId::new("none"))
                .with_category(CategoryId::new("drinks"))
        ),
        vec!["b"]
    );
    assert_eq!(found(ProductFilter::new().with_price_range(Some(81), None)), vec!["c", "a"]);
    assert_eq!(found(ProductFilter::new().with_price_range(None, Some(80))), vec!["b"]);
    assert_eq!(found(ProductFilter::new().in_stock_only()), vec!["b"]);
    let mut filter = ProductFilter::new();
    filter.tags.push("fresh".to_string());
    assert_eq!(found(filter), vec!["a"]);
    let mut filter = ProductFilter::new();
    filter.vendor_id = Some("v1".to_string());
    assert_eq!(found(filter), vec!["b"]);
    let mut filter = ProductFilter::new();
    filter.featured_only = true;
    filter.on_sale_only = true;
    assert!(found(filter).is_empty());
    let mut filter = ProductFilter::new();
    filter.search_query = Some("Apple".to_string());
    assert_eq!(found(filter), vec!["c", "b"]);
    let mut filter = ProductFilter::new();
    filter.search_query = Some("sku-A".to_string());
    assert_eq!(found(filter), vec!["a"]);
    assert!(catalog.matches_filter(
        &catalog.get_product(&ProductId::new("a")).expect("a"),
        &ProductFilter::new()
    ));
}

#[test]
fn featured_sale_and_related_products() {
    let catalog = stocked_catalog();
    assert_eq!(ids(&catalog.get_featured_products(5).expect("featured")), vec!["a"]);
    assert!(catalog.get_featured_products(0).expect("featured").is_empty());
    assert_eq!(ids(&catalog.get_sale_products(5).expect("sale")), vec!["b"]);
    assert_eq!(ids(&catalog.get_related_products(&ProductId::new("a")).expect("related")), vec!["c", "b"]);
    assert!(catalog.get_related_products(&ProductId::new("b")).expect("related").is_empty());
    assert!(matches!(
        catalog.get_related_products(&ProductId::new("zz")),
        Err(CommerceError::ProductNotFound(_))
    ));
}

#[test]
fn categories_form_a_hierarchy() {
    let mut catalog = stocked_catalog();
    let add = |catalog: &mut ProductCatalog, id: &str, parent: Option<&str>| {
        let mut category = Category::new(CategoryId::new(id), id);
        if let Some(parent) = parent {
            category = category.with_parent(CategoryId::new(parent));
        }
        catalog.add_category(category)
    };
    add(&mut catalog, "food", None).expect("add");
    add(&mut catalog, "fruit", Some("food")).expect("add");
    add(&mut catalog, "drinks", Some("food")).expect("add");
    add(&mut catalog, "juice", Some("drinks")).expect("add");
    add(&mut catalog, "tools", None).expect("add");
    match add(&mut catalog, "fruit", None) {
        Err(CommerceError::CategoryAlreadyExists(id)) => assert_eq!(id, "fruit"),
        other => panic!("unexpected result: {:?}", other),
    }
    assert_eq!(catalog.get_category(&CategoryId::new("juice")).expect("get").slug, "juice");
    assert!(matches!(
        catalog.get_category(&CategoryId::new("none")),
        Err(CommerceError::CategoryNotFound(_))
    ));
    let names = |categories: Vec<Category>| -> Vec<String> {
        categories.into_iter().map(|c| c.name).collect()
    };
    assert_eq!(names(catalog.get_root_categories().expect("roots")), vec!["food", "tools"]);
    assert_eq!(
        names(catalog.get_child_categories(&CategoryId::new("food")).expect("children")),
        vec!["fruit", "drinks"]
    );
    assert!(catalog.get_child_categories(&CategoryId::new("tools")).expect("children").is_empty());
    let descendants: Vec<String> = catalog
        .get_descendant_categories(&CategoryId::new("food"))
        .expect("descendants")
        .into_iter()
        .map(|c| c.to_string())
        .collect();
    assert_eq!(descendants, vec!["food", "fruit", "drinks", "juice"]);

    assert_eq!(
        ids(&catalog.get_products_by_category(&CategoryId::new("food"), false).expect("direct")),
        Vec::<String>::new()
    );
    assert_eq!(
        ids(&catalog.get_products_by_category(&CategoryId::new("food"), true).expect("all")),
        vec!["a", "b", "c"]
    );
    assert_eq!(
        ids(&catalog.get_products_by_category(&CategoryId::new("fruit"), false).expect("fruit")),
        vec!["a", "c"]
    );
}
