use essentia_commerce::errors::MarketplaceError;
use essentia_commerce::marketplace::delivery::{ContentDeliveryService, ContentHash};
use essentia_commerce::marketplace::escrow::{
    DisputeResolution, EscrowId, EscrowManager, EscrowStatus, ReleaseCondition,
};
use essentia_commerce::marketplace::orders::OrderId;
use essentia_commerce::marketplace::reviews::ReviewId;
use essentia_commerce::marketplace::search::SearchIndex;
use essentia_commerce::marketplace::service::{MarketplaceService, VcsPaymentService};
use essentia_commerce::marketplace::sync::{
    CatalogEntry, Conflict, ConflictResolution, EntryStatus, P2PCatalogSync,
};
use std::sync::Arc;
use essentia_commerce::marketplace::{
    LicenseType, ListingCategory, ListingId, ListingStatus, MarketplaceListing, Pagination,
    PricingModel, SearchFilters,
};

#[test]
fn test_listing_id_from_content_hash() {
    let hash = "test_content_hash";
    let id = ListingId::from_content_hash(hash);
    assert!(id.0.contains(hash));
}

#[test]
fn test_search_index_creation() {
    let search_index = SearchIndex::new();
    assert!(search_index.is_ok());
}

#[test]
fn test_content_delivery_service_creation() {
    let _delivery_service = ContentDeliveryService::new();
    // Test passes if it doesn't panic
}

#[test]
fn test_content_hash_creation() {
    let hash = ContentHash::new("test_hash".to_string());
    assert_eq!(hash.as_str(), "test_hash");
}

fn listing(id: &str, seller: &str, title: &str, pricing: PricingModel) -> MarketplaceListing {
    MarketplaceListing {
        id: ListingId::from_content_hash(id),
        seller: seller.to_string(),
        category: ListingCategory::Plugin,
        title: title.to_string(),
        description: "A tool; for Rust!".to_string(),
        short_description: String::new(),
        pricing,
        tags: vec!["rust".to_string()],
        previews: Vec::new(),
        version: None,
        repo_id: None,
        license: LicenseType::OpenSource { spdx_id: "MIT".to_string() },
        created_at: 1,
        updated_at: 1,
        status: ListingStatus::Active,
        requirements: None,
    }
}

fn names(ids: Vec<ListingId>) -> Vec<String> {
    ids.into_iter().map(|id| id.0).collect()
}

#[test]
fn listing_ids_are_named_after_the_hash() {
    assert_eq!(ListingId::from_content_hash("abc").0, "listing-abc");
    assert_eq!(ListingId::from_content_hash("abc"), ListingId::from_content_hash("abc"));
    assert!(ListingId::from_content_hash("abc") < ListingId::from_content_hash("abd"));
}

#[test]
fn categories_are_digital_service_or_license() {
    assert_eq!(ListingCategory::Plugin.display_name(), "VCS Plugin");
    assert_eq!(ListingCategory::EBook.display_name(), "E-Book");
    assert_eq!(ListingCategory::SaaSAccess.display_name(), "SaaS Access");
    assert!(ListingCategory::Course.is_digital_product() && !ListingCategory::Course.is_service());
    assert!(ListingCategory::Testing.is_service() && !ListingCategory::Testing.is_digital_product());
    assert!(!ListingCategory::ComponentLicense.is_service());
    assert!(!ListingCategory::ComponentLicense.is_digital_product());
    assert_eq!((Pagination::default().offset, Pagination::default().limit), (0, 20));
}

#[test]
fn search_finds_listings_by_their_words() {
    let mut index = SearchIndex::new().expect("index");
    index
        .index_listing(&listing("b", "ann", "Fast JSON Parser", PricingModel::OneTime { price_sats: 500 }))
        .expect("index b");
    index
        .index_listing(&listing("a", "bob", "JSON-Schema checker", PricingModel::Free))
        .expect("index a");
    index
        .index_listing(&listing("c", "ann", "Slow parser", PricingModel::Hourly { rate_sats: 20000, minimum_hours: 1 }))
        .expect("index c");
    let all = SearchFilters::default();

    assert_eq!(names(index.search("parser", &all).expect("search")), vec!["listing-b", "listing-c"]);
    assert_eq!(names(index.search("PARSER  fast", &all).expect("search")), vec!["listing-b"]);
    assert_eq!(names(index.search("json", &all).expect("search")), vec!["listing-b"]);
    assert_eq!(names(index.search("jsonschema", &all).expect("search")), vec!["listing-a"]);
    assert_eq!(
        names(index.search("rust", &all).expect("search")),
        vec!["listing-a", "listing-b", "listing-c"]
    );
    assert!(index.search("missing", &all).expect("search").is_empty());
    assert!(index.search("", &all).expect("search").is_empty());

    let plugins = SearchFilters { category: Some(ListingCategory::Plugin), ..SearchFilters::default() };
    assert_eq!(names(index.search("", &plugins).expect("search")).len(), 3);
    let themes = SearchFilters { category: Some(ListingCategory::Theme), ..SearchFilters::default() };
    assert!(index.search("parser", &themes).expect("search").is_empty() == false);
    assert!(index.search("", &themes).expect("search").is_empty());
    let free = SearchFilters { price_range: Some((0, 0)), ..SearchFilters::default() };
    assert_eq!(names(index.search("", &free).expect("search")), vec!["listing-a"]);
    assert!(index.search("parser", &free).expect("search").is_empty());

    index.remove_listing(&ListingId::from_content_hash("b")).expect("remove");
    assert_eq!(names(index.search("parser", &all).expect("search")), vec!["listing-c"]);
    assert!(index.search("fast", &all).expect("search").is_empty());
}

#[test]
fn delivery_counts_downloads_on_the_token() {
    let mut service = ContentDeliveryService::new();
    let listing = ListingId::from_content_hash("x");
    let hash = ContentHash::new("h1".to_string());
    let token = service
        .grant_access("buyer".to_string(), listing.clone(), hash.clone(), "u-1")
        .expect("grant");
    assert_eq!(token.token, "tok_u-1");
    assert_eq!((token.download_count, token.max_downloads, token.expires_at), (0, Some(5), None));

    assert!(matches!(service.get_download("tok_u-1", "other"), Err(MarketplaceError::InvalidToken)));
    assert!(matches!(service.get_download("tok_zz", "buyer"), Err(MarketplaceError::InvalidToken)));
    assert!(matches!(service.get_download("tok_u-1", "buyer"), Err(MarketplaceError::NoProviders)));

    service.register_provider(hash.clone(), "peer-1".to_string());
    service.register_provider(hash.clone(), "peer-2".to_string());
    for _ in 0..4 {
        let info = service.get_download("tok_u-1", "buyer").expect("download");
        assert_eq!(info.providers, vec!["peer-1".to_string(), "peer-2".to_string()]);
        assert_eq!(info.content_hash, hash);
        assert_eq!(info.token, "tok_u-1");
    }
    assert!(matches!(
        service.get_download("tok_u-1", "buyer"),
        Err(MarketplaceError::DownloadLimitReached)
    ));

    service.revoke_access("buyer", &listing);
    assert!(matches!(service.get_download("tok_u-1", "buyer"), Err(MarketplaceError::InvalidToken)));
    service.revoke_access("buyer", &listing);
    assert_eq!(MarketplaceError::InvalidToken.to_string(), "Invalid access token");
    assert_eq!(MarketplaceError::EscrowError("x".to_string()).to_string(), "Escrow error: x");
}

#[test]
fn test_escrow_manager_creation() {
    let escrow_manager = EscrowManager::new();
    assert!(escrow_manager.is_ok());
}

#[test]
fn test_p2p_sync_creation() {
    let sync_service = P2PCatalogSync::new();
    assert!(sync_service.is_ok());
}

#[test]
fn identifiers_are_named_after_a_unique_text() {
    assert_eq!(OrderId::from_unique("7").0, "order-7");
    assert_eq!(ReviewId::from_unique("7").0, "review-7");
    assert_eq!(EscrowId::from_unique("7").as_str(), "escrow_7");
    assert_ne!(OrderId::from_unique("7"), OrderId::from_unique("8"));
}

fn escrow(conditions: Vec<ReleaseCondition>, amount: u64) -> (EscrowManager, EscrowId) {
    let mut manager = EscrowManager::new().expect("manager");
    let id = manager
        .create_escrow(
            OrderId::from_unique("o1"),
            "buyer".to_string(),
            "seller".to_string(),
            amount,
            conditions,
            "e1",
            None,
        )
        .expect("create");
    (manager, id)
}

#[test]
fn escrow_is_created_once_for_an_order() {
    let (mut manager, id) = escrow(vec![ReleaseCondition::BuyerApproval], 1000);
    assert_eq!(id.as_str(), "escrow_e1");
    let account = manager.get_escrow(&id).expect("escrow");
    assert_eq!((account.total_amount, account.released_amount, account.refunded_amount), (1000, 0, 0));
    assert_eq!(account.status, EscrowStatus::Active);
    assert_eq!(account.created_at, account.updated_at);
    assert!(account.deposit_tx_id.is_none());
    assert_eq!(manager.get_escrow_by_order(&OrderId::from_unique("o1")).expect("by order").id, id);
    assert!(manager.get_escrow_by_order(&OrderId::from_unique("o2")).is_none());
    assert!(manager.get_escrow(&EscrowId::from_unique("zz")).is_none());
    let again = manager.create_escrow(
        OrderId::from_unique("o1"),
        "b".to_string(),
        "s".to_string(),
        1,
        Vec::new(),
        "e2",
        Some([7u8; 32]),
    );
    assert!(matches!(again, Err(MarketplaceError::EscrowExists)));
    assert!(manager.get_escrow(&EscrowId::from_unique("e2")).is_none());
}

#[test]
fn escrow_releases_and_refunds_what_is_held() {
    let (mut manager, id) = escrow(vec![ReleaseCondition::TimeBased { release_at: 0 }], 1000);
    assert!(matches!(
        manager.release_funds(&id, 10, "seller"),
        Err(MarketplaceError::InvalidEscrowState)
    ));
    assert!(matches!(
        manager.release_funds(&EscrowId::from_unique("zz"), 10, "buyer"),
        Err(MarketplaceError::EscrowNotFound)
    ));
    manager.release_funds(&id, 400, "buyer").expect("release");
    let account = manager.get_escrow(&id).expect("escrow");
    assert_eq!((account.released_amount, account.status), (400, EscrowStatus::Active));
    manager.refund_funds(&id, 5000).expect("refund");
    let account = manager.get_escrow(&id).expect("escrow");
    assert_eq!(
        (account.released_amount, account.refunded_amount, account.status),
        (400, 600, EscrowStatus::PartialRelease)
    );
    manager.release_funds(&id, 1, "buyer").expect("release");
    assert_eq!(manager.get_escrow(&id).expect("escrow").released_amount, 400);

    let (mut manager, id) = escrow(Vec::new(), 50);
    manager.release_funds(&id, 50, "buyer").expect("release");
    assert_eq!(manager.get_escrow(&id).expect("escrow").status, EscrowStatus::Released);
    let (mut manager, id) = escrow(Vec::new(), 50);
    manager.refund_funds(&id, 50).expect("refund");
    assert_eq!(manager.get_escrow(&id).expect("escrow").status, EscrowStatus::Refunded);
    assert!(matches!(manager.raise_dispute(&id), Err(MarketplaceError::InvalidEscrowState)));

    let (mut manager, id) = escrow(vec![ReleaseCondition::TimeBased { release_at: u64::MAX }], 50);
    assert!(matches!(
        manager.release_funds(&id, 50, "buyer"),
        Err(MarketplaceError::ReleaseConditionsNotMet)
    ));
    assert_eq!(manager.get_escrow(&id).expect("escrow").released_amount, 0);
    assert_eq!(manager.begin_release_at(&id, 70, "buyer", u64::MAX).expect("begin"), 50);
    manager.finish_release(&id, Some([1u8; 32])).expect("finish");
    let account = manager.get_escrow(&id).expect("escrow");
    assert_eq!((account.status, account.release_tx_id), (EscrowStatus::Released, Some([1u8; 32])));
}

#[test]
fn disputes_are_raised_and_resolved() {
    let (mut manager, id) = escrow(Vec::new(), 100);
    assert!(matches!(
        manager.resolve_dispute(&id, DisputeResolution::RefundToBuyer(1)),
        Err(MarketplaceError::InvalidEscrowState)
    ));
    manager.raise_dispute(&id).expect("raise");
    assert_eq!(manager.get_escrow(&id).expect("escrow").status, EscrowStatus::Disputed);
    assert!(matches!(manager.raise_dispute(&id), Err(MarketplaceError::InvalidEscrowState)));
    assert_eq!(manager.open_resolution(&id).expect("open"), "buyer");
    manager
        .resolve_dispute(&id, DisputeResolution::Split { seller_amount: 30, buyer_amount: 500 })
        .expect("resolve");
    let account = manager.get_escrow(&id).expect("escrow");
    assert_eq!(
        (account.released_amount, account.refunded_amount, account.status),
        (30, 70, EscrowStatus::Resolved)
    );
    assert!(matches!(
        manager.resolve_dispute(&EscrowId::from_unique("zz"), DisputeResolution::ReleaseToSeller(1)),
        Err(MarketplaceError::EscrowNotFound)
    ));

    let (mut manager, id) = escrow(vec![ReleaseCondition::TimeBased { release_at: u64::MAX }], 100);
    manager.raise_dispute(&id).expect("raise");
    assert!(matches!(
        manager.resolve_dispute(&id, DisputeResolution::ReleaseToSeller(10)),
        Err(MarketplaceError::ReleaseConditionsNotMet)
    ));
    assert_eq!(manager.get_escrow(&id).expect("escrow").status, EscrowStatus::Disputed);
    manager.resolve_dispute(&id, DisputeResolution::RefundToBuyer(10)).expect("resolve");
    let account = manager.get_escrow(&id).expect("escrow");
    assert_eq!((account.refunded_amount, account.status), (10, EscrowStatus::Resolved));
}

fn entry(id: &str, version: u64, last_modified: u64) -> CatalogEntry {
    CatalogEntry {
        listing_id: ListingId::from_content_hash(id),
        content_hash: format!("h-{}-{}", id, version),
        last_modified,
        version,
        status: EntryStatus::Active,
    }
}

#[test]
fn catalog_sync_merges_entries_of_peers() {
    let mut sync = P2PCatalogSync::new().expect("sync");
    sync.add_local_entry(entry("a", 1, 10)).expect("add");
    sync.add_local_entry(entry("b", 1, 10)).expect("add");
    sync.add_local_entry(entry("a", 2, 20)).expect("add");
    assert_eq!(sync.get_local_catalog().len(), 2);
    assert_eq!(sync.get_local_catalog()[0].version, 2);

    sync.merge_catalog_from_peer(
        "peer",
        vec![entry("c", 1, 5), entry("b", 1, 30), entry("a", 3, 15), entry("a", 2, 1)],
    )
    .expect("merge");
    let versions = |sync: &P2PCatalogSync| -> Vec<(String, u64, u64)> {
        sync.get_local_catalog()
            .iter()
            .map(|e| (e.listing_id.0.clone(), e.version, e.last_modified))
            .collect()
    };
    assert_eq!(
        versions(&sync),
        vec![
            ("listing-a".to_string(), 2, 20),
            ("listing-b".to_string(), 1, 30),
            ("listing-c".to_string(), 1, 5)
        ]
    );
    assert_eq!(sync.get_sync_stats().listings_synced, 4);
    let results = sync.process_pending_ops().expect("process");
    assert_eq!(results.len(), 1);
    assert!(results.iter().all(|r| r.is_ok()));
    assert_eq!(sync.get_sync_stats().conflicts_resolved, 1);
    assert_eq!(versions(&sync)[0], ("listing-a".to_string(), 2, 20));
    assert!(sync.process_pending_ops().expect("process").is_empty());
}

#[test]
fn catalog_sync_resolves_conflicts_as_told() {
    let mut sync = P2PCatalogSync::new().expect("sync");
    sync.add_local_entry(entry("a", 1, 10)).expect("add");
    let conflict = |resolution: ConflictResolution, id: &str| Conflict {
        listing_id: ListingId::from_content_hash(id),
        local_version: entry(id, 1, 10),
        remote_version: entry(id, 5, 50),
        resolution,
    };
    sync.resolve_conflicts(vec![
        conflict(ConflictResolution::KeepLocal, "a"),
        conflict(ConflictResolution::Manual, "a"),
        conflict(ConflictResolution::UseRemote, "b"),
        conflict(ConflictResolution::Merge, "c"),
    ])
    .expect("resolve");
    let catalog = sync.get_local_catalog();
    assert_eq!(catalog.len(), 3);
    assert_eq!((catalog[0].status, catalog[0].version), (EntryStatus::Conflicted, 1));
    assert_eq!((catalog[1].status, catalog[1].version), (EntryStatus::Active, 5));
    assert_eq!(catalog[2].version, 5);
    assert_eq!(sync.get_sync_stats().conflicts_resolved, 3);

    sync.remove_local_entry(&ListingId::from_content_hash("b")).expect("remove");
    sync.remove_local_entry(&ListingId::from_content_hash("zz")).expect("remove");
    let catalog = sync.get_local_catalog();
    assert_eq!((catalog[1].status, catalog[1].version), (EntryStatus::Deleted, 6));
    assert_eq!(catalog.len(), 3);
}

#[test]
fn discovered_peers_are_fetched_from() {
    let mut sync = P2PCatalogSync::new().expect("sync");
    sync.discover_peer("p1".to_string(), "h1".to_string()).expect("discover");
    sync.discover_peer("p2".to_string(), "h2".to_string()).expect("discover");
    sync.discover_peer("p1".to_string(), "h3".to_string()).expect("discover");
    assert_eq!(sync.get_active_peers().len(), 2);
    assert_eq!(sync.get_active_peers()[0].catalog_hash, "h3");
    assert_eq!(sync.get_sync_stats().peers_discovered, 3);
    let results = sync.process_pending_ops().expect("process");
    assert_eq!(results.len(), 6);
    assert!(sync.get_active_peers().iter().all(|p| p.last_sync > 0));
    assert_eq!(sync.get_sync_stats().listings_synced, 0);
}

#[test]
fn marketplace_needs_a_seller_profile() {
    let mut service = MarketplaceService::new(Arc::new(VcsPaymentService)).expect("service");
    let offered = listing("x", "ann", "Title", PricingModel::Free);
    assert!(matches!(
        service.create_listing("ann".to_string(), offered),
        Err(MarketplaceError::SellerNotFound)
    ));
    assert!(matches!(
        service.get_listing(&ListingId::from_content_hash("x")),
        Err(MarketplaceError::ListingNotFound)
    ));
    assert!(matches!(service.get_seller_profile("ann"), Err(MarketplaceError::SellerNotFound)));
    let found = service
        .search("title", SearchFilters::default(), Pagination::default())
        .expect("search");
    assert!(found.listings.is_empty());
    assert_eq!((found.total_count, found.page, found.has_more), (0, 0, false));
}
