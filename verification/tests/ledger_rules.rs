use essentia_commerce::errors::CommerceError;
use essentia_commerce::types::inventory_sync::{
    AdjustmentType, ExternalInventorySource, ExternalSourceType, InventoryAdjustment,
    InventoryChange, InventoryChangeType, InventoryLevel, InventoryLocation, InventoryService,
    LocationId, LocationType, StockTransfer, SyncStatus, TransferStatus,
};
use essentia_commerce::types::product_catalog::ProductId;

fn stocked(on_hand: i64) -> (InventoryService, ProductId, LocationId) {
    let mut service = InventoryService::new();
    let product = ProductId::new("P");
    let location = LocationId::default_warehouse();
    service.set_inventory(product.clone(), location.clone(), on_hand, "count").expect("set");
    (service, product, location)
}

fn change(product: &str, location: &str, quantity: i64, kind: InventoryChangeType) -> InventoryChange {
    InventoryChange {
        product_id: product.to_string(),
        sku: None,
        location_id: location.to_string(),
        quantity,
        change_type: kind,
        source_timestamp: None,
    }
}

#[test]
fn scenario_set_then_reserve() {
    let (mut service, p, l) = stocked(100);
    service.reserve_stock(&p, &l, 30, "ORD-1").expect("reserve");
    let level = service.get_inventory(&p, &l).expect("get");
    assert_eq!((level.on_hand, level.committed, level.available), (100, 30, 70));
}

#[test]
fn scenario_commit_after_reserve() {
    let (mut service, p, l) = stocked(100);
    service.reserve_stock(&p, &l, 30, "ORD-1").expect("reserve");
    service.commit_stock(&p, &l, 30, "ORD-1").expect("commit");
    let level = service.get_inventory(&p, &l).expect("get");
    assert_eq!((level.on_hand, level.committed, level.available), (70, 0, 70));
}

#[test]
fn scenario_receive_on_fresh_record() {
    let mut service = InventoryService::new();
    let p = ProductId::new("P");
    let l = LocationId::default_warehouse();
    service.receive_stock(&p, &l, 50, "PO-1").expect("receive");
    let level = service.get_inventory(&p, &l).expect("get");
    assert_eq!((level.on_hand, level.available), (50, 50));
    let history = service.get_adjustment_history(&p, None).expect("history");
    assert_eq!(history.len(), 1);
    assert_eq!(history[0].adjustment_type, AdjustmentType::Received);
    assert_eq!(history[0].previous_quantity, 0);
    assert_eq!(history[0].quantity, 50);
    assert_eq!(history[0].new_quantity, 50);
    assert_eq!(history[0].reference.as_deref(), Some("PO-1"));
    assert_eq!(history[0].reason, "Stock received");
}

#[test]
fn scenario_reserve_more_than_available() {
    let (mut service, p, l) = stocked(10);
    let result = service.reserve_stock(&p, &l, 999, "ORD-1");
    match result {
        Err(CommerceError::InsufficientInventory { product_id, available, requested }) => {
            assert_eq!(product_id, "P");
            assert_eq!(available, 10);
            assert_eq!(requested, 999);
        },
        other => panic!("unexpected result: {:?}", other),
    }
    let level = service.get_inventory(&p, &l).expect("get");
    assert_eq!((level.on_hand, level.committed, level.available), (10, 0, 10));
    assert_eq!(service.get_adjustment_history(&p, None).expect("history").len(), 1);
}

#[test]
fn available_is_on_hand_less_committed_less_damaged() {
    let (mut service, p, l) = stocked(40);
    service.reserve_stock(&p, &l, 15, "a").expect("reserve");
    service.receive_stock(&p, &l, 7, "b").expect("receive");
    service.release_stock(&p, &l, 5, "c").expect("release");
    service.commit_stock(&p, &l, 3, "d").expect("commit");
    let level = service.get_inventory(&p, &l).expect("get");
    assert_eq!(level.on_hand, 44);
    assert_eq!(level.committed, 7);
    assert_eq!(level.available, level.on_hand - level.committed - level.damaged);
    assert_eq!(level.available, 37);
}

#[test]
fn reservations_never_exceed_stock() {
    let (mut service, p, l) = stocked(10);
    assert!(service.reserve_stock(&p, &l, 6, "a").is_ok());
    assert!(service.reserve_stock(&p, &l, 5, "b").is_err());
    assert!(service.reserve_stock(&p, &l, 4, "c").is_ok());
    assert!(service.reserve_stock(&p, &l, 1, "d").is_err());
    assert!(service.reserve_stock(&p, &l, 0, "e").is_ok());
    let level = service.get_inventory(&p, &l).expect("get");
    assert_eq!(level.committed, 10);
    assert!(level.committed <= level.on_hand - level.damaged);
}

#[test]
fn reserve_without_record_fails() {
    let mut service = InventoryService::new();
    let p = ProductId::new("ghost");
    let l = LocationId::default_warehouse();
    for result in [
        service.reserve_stock(&p, &l, 1, "r"),
        service.release_stock(&p, &l, 1, "r"),
        service.commit_stock(&p, &l, 1, "r"),
    ] {
        match result {
            Err(CommerceError::InventoryNotFound(id)) => assert_eq!(id, "ghost"),
            other => panic!("unexpected result: {:?}", other),
        }
    }
    assert!(matches!(
        service.get_inventory(&p, &l),
        Err(CommerceError::InventoryNotFound(_))
    ));
    assert!(service.get_adjustment_history(&p, None).expect("history").is_empty());
}

#[test]
fn release_undoes_reserve() {
    let (mut service, p, l) = stocked(25);
    service.reserve_stock(&p, &l, 5, "first").expect("reserve");
    let before = service.get_inventory(&p, &l).expect("get");
    service.reserve_stock(&p, &l, 12, "second").expect("reserve");
    service.release_stock(&p, &l, 12, "second").expect("release");
    let after = service.get_inventory(&p, &l).expect("get");
    assert_eq!(after.committed, before.committed);
    assert_eq!(after.available, before.available);
    assert_eq!((after.committed, after.available), (5, 20));
}

#[test]
fn release_stops_at_zero() {
    let (mut service, p, l) = stocked(25);
    service.reserve_stock(&p, &l, 5, "a").expect("reserve");
    service.release_stock(&p, &l, 9, "a").expect("release");
    let level = service.get_inventory(&p, &l).expect("get");
    assert_eq!((level.on_hand, level.committed, level.available), (25, 0, 25));
    let history = service.get_adjustment_history(&p, None).expect("history");
    let released: Vec<&InventoryAdjustment> =
        history.iter().filter(|a| a.adjustment_type == AdjustmentType::Unreserved).collect();
    assert_eq!(released.len(), 1);
    assert_eq!(released[0].previous_quantity, 5);
    assert_eq!(released[0].quantity, -5);
    assert_eq!(released[0].new_quantity, 0);
}

#[test]
fn commit_stops_at_zero() {
    let (mut service, p, l) = stocked(4);
    service.reserve_stock(&p, &l, 2, "a").expect("reserve");
    service.commit_stock(&p, &l, 10, "a").expect("commit");
    let level = service.get_inventory(&p, &l).expect("get");
    assert_eq!((level.on_hand, level.committed, level.available), (0, 0, 0));
    assert!(level.is_out_of_stock());
}

#[test]
fn commit_leaves_negative_on_hand_alone() {
    let (mut service, p, l) = stocked(-3);
    service.commit_stock(&p, &l, 2, "a").expect("commit");
    let level = service.get_inventory(&p, &l).expect("get");
    assert_eq!((level.on_hand, level.committed, level.available), (-3, 0, -3));
}

#[test]
fn receive_saturates_at_the_top() {
    let (mut service, p, l) = stocked(i64::MAX - 1);
    service.receive_stock(&p, &l, 5, "a").expect("receive");
    let level = service.get_inventory(&p, &l).expect("get");
    assert_eq!(level.on_hand, i64::MAX);
    let history = service.get_adjustment_history(&p, None).expect("history");
    let received: Vec<&InventoryAdjustment> =
        history.iter().filter(|a| a.adjustment_type == AdjustmentType::Received).collect();
    assert_eq!(received[0].previous_quantity, i64::MAX - 1);
    assert_eq!(received[0].quantity, 1);
    assert_eq!(received[0].new_quantity, i64::MAX);
}

#[test]
fn every_operation_logs_one_entry() {
    let (mut service, p, l) = stocked(100);
    let count = |s: &InventoryService| s.get_adjustment_history(&p, None).expect("history").len();
    assert_eq!(count(&service), 1);
    service.reserve_stock(&p, &l, 30, "o").expect("reserve");
    assert_eq!(count(&service), 2);
    service.release_stock(&p, &l, 10, "o").expect("release");
    assert_eq!(count(&service), 3);
    service.commit_stock(&p, &l, 20, "o").expect("commit");
    assert_eq!(count(&service), 4);
    service.receive_stock(&p, &l, 5, "o").expect("receive");
    assert_eq!(count(&service), 5);
    assert!(service.reserve_stock(&p, &l, 1000, "o").is_err());
    assert_eq!(count(&service), 5);
    service.set_inventory(p.clone(), l.clone(), 60, "recount").expect("set");
    assert_eq!(count(&service), 6);

    let history = service.get_adjustment_history(&p, None).expect("history");
    for entry in &history {
        assert_eq!(entry.new_quantity, entry.previous_quantity + entry.quantity);
        assert_eq!(entry.id, format!("adj-{}", entry.created_at));
        assert_eq!(entry.product_id, p);
        assert!(entry.user.is_none());
    }
    let of = |kind: AdjustmentType| -> Vec<&InventoryAdjustment> {
        history.iter().filter(|a| a.adjustment_type == kind).collect()
    };
    let sets = of(AdjustmentType::Adjustment);
    assert_eq!(sets.len(), 2);
    assert!(sets.iter().any(|a| a.previous_quantity == 0 && a.quantity == 100 && a.reason == "count"));
    assert!(sets.iter().any(|a| a.previous_quantity == 85 && a.quantity == -25 && a.reason == "recount"));
    assert!(sets.iter().all(|a| a.reference.is_none()));
    let reserved = of(AdjustmentType::Reserved);
    assert_eq!((reserved[0].previous_quantity, reserved[0].quantity), (0, 30));
    assert_eq!(reserved[0].reason, "Stock reserved for order");
    assert_eq!(reserved[0].reference.as_deref(), Some("o"));
    let released = of(AdjustmentType::Unreserved);
    assert_eq!((released[0].previous_quantity, released[0].quantity), (30, -10));
    assert_eq!(released[0].reason, "Stock released");
    let shipped = of(AdjustmentType::Shipped);
    assert_eq!((shipped[0].previous_quantity, shipped[0].quantity), (100, -20));
    assert_eq!(shipped[0].reason, "Stock shipped");
    let received = of(AdjustmentType::Received);
    assert_eq!((received[0].previous_quantity, received[0].quantity), (80, 5));
}

#[test]
fn history_is_cut_to_the_limit() {
    let (mut service, p, l) = stocked(100);
    service.receive_stock(&p, &l, 1, "a").expect("receive");
    service.receive_stock(&p, &l, 1, "b").expect("receive");
    let other = ProductId::new("Q");
    service.receive_stock(&other, &l, 1, "c").expect("receive");
    assert_eq!(service.get_adjustment_history(&p, Some(2)).expect("history").len(), 2);
    assert_eq!(service.get_adjustment_history(&p, Some(0)).expect("history").len(), 0);
    assert_eq!(service.get_adjustment_history(&p, Some(9)).expect("history").len(), 3);
    let all = service.get_adjustment_history(&p, None).expect("history");
    assert!(all.windows(2).all(|w| w[0].created_at >= w[1].created_at));
    assert_eq!(service.get_adjustment_history(&other, None).expect("history").len(), 1);
}

#[test]
fn locations_are_registered_once() {
    let mut service = InventoryService::new();
    let id = LocationId::new("store-1");
    service.add_location(InventoryLocation::store(id.clone(), "Corner shop")).expect("add");
    match service.add_location(InventoryLocation::warehouse(id.clone(), "Again")) {
        Err(CommerceError::LocationAlreadyExists(name)) => assert_eq!(name, "store-1"),
        other => panic!("unexpected result: {:?}", other),
    }
    let found = service.get_location(&id).expect("get");
    assert_eq!(found.name, "Corner shop");
    assert_eq!(found.location_type, LocationType::Store);
    assert_eq!(found.fulfillment_priority, 10);
    assert!(found.can_ship && found.allows_pickup && found.is_active);
    match service.get_location(&LocationId::new("nowhere")) {
        Err(CommerceError::LocationNotFound(name)) => assert_eq!(name, "nowhere"),
        other => panic!("unexpected result: {:?}", other),
    }
    let main = service.get_location(&LocationId::default_warehouse()).expect("main");
    assert_eq!(main.name, "Main Warehouse");
    assert_eq!(main.location_type, LocationType::Warehouse);
    assert_eq!(main.fulfillment_priority, 1);
    assert!(!main.allows_pickup);
}

#[test]
fn active_locations_leave_out_inactive_ones() {
    let mut service = InventoryService::new();
    let mut closed = InventoryLocation::store(LocationId::new("closed"), "Closed");
    closed.is_active = false;
    service.add_location(closed).expect("add");
    service.add_location(InventoryLocation::store(LocationId::new("open"), "Open")).expect("add");
    let active = service.get_active_locations().expect("active");
    let names: Vec<&str> = active.iter().map(|l| l.id.0.as_str()).collect();
    assert_eq!(names, vec!["warehouse-main", "open"]);
}

#[test]
fn stock_queries_select_by_available_quantity() {
    let mut service = InventoryService::new();
    let l = LocationId::default_warehouse();
    for (name, on_hand) in [("none", 0), ("low", 10), ("mid", 20), ("high", 21), ("debt", -4)] {
        service.set_inventory(ProductId::new(name), l.clone(), on_hand, "count").expect("set");
    }
    let names = |levels: Vec<InventoryLevel>| -> Vec<String> {
        levels.iter().map(|l| l.product_id.as_str().to_string()).collect()
    };
    assert_eq!(names(service.get_low_stock_products().expect("low")), vec!["low"]);
    assert_eq!(names(service.get_out_of_stock().expect("out")), vec!["none", "debt"]);
    assert_eq!(
        names(service.get_reorder_needed().expect("reorder")),
        vec!["none", "low", "mid", "debt"]
    );
}

#[test]
fn inventory_for_product_spans_locations() {
    let mut service = InventoryService::new();
    let p = ProductId::new("P");
    let second = LocationId::new("second");
    service.set_inventory(p.clone(), LocationId::default_warehouse(), 3, "a").expect("set");
    service.set_inventory(ProductId::new("Q"), second.clone(), 9, "b").expect("set");
    service.set_inventory(p.clone(), second.clone(), -1, "c").expect("set");
    let levels = service.get_all_inventory_for_product(&p).expect("levels");
    assert_eq!(levels.len(), 2);
    assert_eq!(levels[0].location_id, LocationId::default_warehouse());
    assert_eq!(levels[1].location_id, second);
    assert_eq!(service.get_total_available(&p).expect("total"), 2);
    assert_eq!(service.get_total_available(&ProductId::new("none")).expect("total"), 0);
}

#[test]
fn transfer_moves_stock_between_locations() {
    let mut service = InventoryService::new();
    let a = LocationId::default_warehouse();
    let b = LocationId::new("b");
    service.add_location(InventoryLocation::warehouse(b.clone(), "B")).expect("add");
    let p = ProductId::new("P");
    service.set_inventory(p.clone(), a.clone(), 40, "count").expect("set");
    service.set_inventory(p.clone(), b.clone(), 2, "count").expect("set");

    let transfer = service.create_transfer(a.clone(), b.clone()).expect("create");
    assert_eq!(transfer.status, TransferStatus::Pending);
    assert!(transfer.items.is_empty());
    assert_eq!(transfer.id, format!("transfer-{}", transfer.created_at));
    assert_eq!(transfer.updated_at, transfer.created_at);
    service.add_transfer_item(&transfer.id, p.clone(), 15).expect("item");
    service.complete_transfer(&transfer.id).expect("complete");

    assert_eq!(service.get_inventory(&p, &a).expect("a").on_hand, 25);
    assert_eq!(service.get_inventory(&p, &b).expect("b").on_hand, 17);
    let stored = service.get_transfer(&transfer.id).expect("transfer");
    assert_eq!(stored.status, TransferStatus::Completed);
    assert!(stored.arrived_at.is_some());
    assert_eq!(stored.items.len(), 1);
    assert_eq!(stored.items[0].quantity, 15);

    let history = service.get_adjustment_history(&p, None).expect("history");
    let moves: Vec<&InventoryAdjustment> = history
        .iter()
        .filter(|h| h.reference == Some(format!("Transfer {}", transfer.id)))
        .collect();
    assert_eq!(moves.len(), 2);
    assert!(moves.iter().any(|m| m.adjustment_type == AdjustmentType::Shipped
        && m.location_id == a
        && m.quantity == -15));
    assert!(moves.iter().any(|m| m.adjustment_type == AdjustmentType::Received
        && m.location_id == b
        && m.quantity == 15));

    assert!(matches!(
        service.complete_transfer(&transfer.id),
        Err(CommerceError::InvalidTransferStatus)
    ));
    assert_eq!(service.get_inventory(&p, &a).expect("a").on_hand, 25);
}

#[test]
fn transfer_needs_known_locations_and_ids() {
    let mut service = InventoryService::new();
    let a = LocationId::default_warehouse();
    match service.create_transfer(a.clone(), LocationId::new("missing")) {
        Err(CommerceError::LocationNotFound(id)) => assert_eq!(id, "missing"),
        other => panic!("unexpected result: {:?}", other),
    }
    match service.create_transfer(LocationId::new("gone"), a.clone()) {
        Err(CommerceError::LocationNotFound(id)) => assert_eq!(id, "gone"),
        other => panic!("unexpected result: {:?}", other),
    }
    match service.complete_transfer("transfer-0") {
        Err(CommerceError::TransferNotFound(id)) => assert_eq!(id, "transfer-0"),
        other => panic!("unexpected result: {:?}", other),
    }
    assert!(matches!(service.get_transfer("x"), Err(CommerceError::TransferNotFound(_))));
    assert!(matches!(
        service.add_transfer_item("x", ProductId::new("P"), 1),
        Err(CommerceError::TransferNotFound(_))
    ));
}

#[test]
fn transfer_without_a_stock_record_moves_nothing() {
    let mut service = InventoryService::new();
    let a = LocationId::default_warehouse();
    let b = LocationId::new("b");
    service.add_location(InventoryLocation::warehouse(b.clone(), "B")).expect("add");
    let p = ProductId::new("P");
    service.set_inventory(p.clone(), a.clone(), 5, "count").expect("set");
    let transfer = service.create_transfer(a.clone(), b.clone()).expect("create");
    service.add_transfer_item(&transfer.id, p.clone(), 2).expect("item");
    service.add_transfer_item(&transfer.id, ProductId::new("unknown"), 1).expect("item");
    service.add_transfer_item(&transfer.id, ProductId::new("missing"), 1).expect("item");
    match service.complete_transfer(&transfer.id) {
        Err(CommerceError::InventoryNotFound(id)) => assert_eq!(id, "unknown"),
        other => panic!("unexpected result: {:?}", other),
    }
    assert_eq!(service.get_inventory(&p, &a).expect("a").on_hand, 5);
    assert!(matches!(service.get_inventory(&p, &b), Err(CommerceError::InventoryNotFound(_))));
    assert_eq!(service.get_adjustment_history(&p, None).expect("history").len(), 1);
    let stored = service.get_transfer(&transfer.id).expect("t");
    assert_eq!(stored.status, TransferStatus::Pending);
    assert!(stored.arrived_at.is_none());

    service.set_inventory(ProductId::new("unknown"), a.clone(), 1, "count").expect("set");
    service.set_inventory(ProductId::new("missing"), a.clone(), 0, "count").expect("set");
    service.complete_transfer(&transfer.id).expect("complete");
    assert_eq!(service.get_inventory(&p, &a).expect("a").on_hand, 3);
    assert_eq!(service.get_inventory(&p, &b).expect("b").on_hand, 2);
    assert_eq!(service.get_inventory(&ProductId::new("missing"), &b).expect("b").on_hand, 1);
}

#[test]
fn transfer_within_one_location_needs_its_records_first() {
    let mut service = InventoryService::new();
    let a = LocationId::default_warehouse();
    let p = ProductId::new("P");
    let transfer = service.create_transfer(a.clone(), a.clone()).expect("create");
    service.add_transfer_item(&transfer.id, p.clone(), 2).expect("item");
    assert!(matches!(
        service.complete_transfer(&transfer.id),
        Err(CommerceError::InventoryNotFound(_))
    ));
    assert!(service.get_inventory(&p, &a).is_err());
    service.set_inventory(p.clone(), a.clone(), 7, "count").expect("set");
    service.complete_transfer(&transfer.id).expect("complete");
    assert_eq!(service.get_inventory(&p, &a).expect("a").on_hand, 7);
}

#[test]
fn transfers_of_one_second_are_all_kept() {
    let mut service = InventoryService::new();
    let a = LocationId::default_warehouse();
    let mut made: Vec<StockTransfer> = Vec::new();
    for _ in 0..4 {
        made.push(service.create_transfer(a.clone(), a.clone()).expect("create"));
    }
    for (i, transfer) in made.iter().enumerate() {
        let base = format!("transfer-{}", transfer.created_at);
        assert!(transfer.id.starts_with(&base));
        assert!(transfer.id[base.len()..].chars().all(|c| c == '+'));
        let earlier = made[..i].iter().filter(|t| t.created_at == transfer.created_at).count();
        assert_eq!(transfer.id.len(), base.len() + earlier);
        for other in &made[..i] {
            assert_ne!(other.id, transfer.id);
        }
        let stored = service.get_transfer(&transfer.id).expect("stored");
        assert_eq!(stored.id, transfer.id);
        assert_eq!(stored.status, TransferStatus::Pending);
    }
    service.add_transfer_item(&made[0].id, ProductId::new("P"), 1).expect("item");
    assert_eq!(service.get_transfer(&made[0].id).expect("first").items.len(), 1);
    assert!(service.get_transfer(&made[1].id).expect("second").items.is_empty());
}

#[test]
fn transfer_items_are_added_in_order() {
    let mut transfer = StockTransfer::new(LocationId::new("a"), LocationId::new("b"));
    transfer.add_item(ProductId::new("P"), 3);
    transfer.add_item(ProductId::new("Q"), 4);
    assert_eq!(transfer.items.len(), 2);
    assert_eq!(transfer.items[0].product_id, ProductId::new("P"));
    assert_eq!(transfer.items[1].quantity, 4);
    assert_eq!(transfer.items[1].quantity_received, 0);
    assert!(transfer.items[1].variant_id.is_none());
    assert_eq!(
        transfer.to_string(),
        format!("StockTransfer {{ id: {}, from: a, to: b, status: Pending, items: 2 }}", transfer.id)
    );
}

#[test]
fn sync_applies_each_kind_of_change() {
    let mut service = InventoryService::new();
    let changes = vec![
        change("P", "w1", 40, InventoryChangeType::Absolute),
        change("P", "w1", 5, InventoryChangeType::Increment),
        change("P", "w1", 12, InventoryChangeType::Decrement),
        change("Q", "w1", 7, InventoryChangeType::Decrement),
    ];
    let result = service.apply_sync_changes("erp", changes).expect("sync");
    assert_eq!(result.source_id, "erp");
    assert_eq!(result.status, SyncStatus::Success);
    assert_eq!((result.items_processed, result.items_updated, result.items_failed), (4, 4, 0));
    assert!(result.errors.is_empty());

    let w1 = LocationId::new("w1");
    let p = service.get_inventory(&ProductId::new("P"), &w1).expect("P");
    assert_eq!((p.on_hand, p.available), (33, 33));
    let q = service.get_inventory(&ProductId::new("Q"), &w1).expect("Q");
    assert_eq!((q.on_hand, q.available), (-7, -7));

    let history = service.get_adjustment_history(&ProductId::new("P"), None).expect("history");
    assert_eq!(history.len(), 3);
    for entry in &history {
        assert_eq!(entry.adjustment_type, AdjustmentType::Adjustment);
        assert_eq!(entry.reason, "Sync from erp");
        assert!(entry.reference.is_none());
        assert_eq!(entry.new_quantity, entry.previous_quantity + entry.quantity);
    }
    assert!(history.iter().any(|h| h.previous_quantity == 0 && h.quantity == 40));
    assert!(history.iter().any(|h| h.previous_quantity == 40 && h.quantity == 5));
    assert!(history.iter().any(|h| h.previous_quantity == 45 && h.quantity == -12));
}

#[test]
fn sync_reports_partial_failure() {
    let mut service = InventoryService::new();
    let changes = vec![
        change("P", "w1", 1, InventoryChangeType::Absolute),
        change("P", "w1", i64::MIN, InventoryChangeType::Absolute),
        change("P", "w1", 2, InventoryChangeType::Increment),
    ];
    let result = service.apply_sync_changes("pos", changes).expect("sync");
    assert_eq!(result.status, SyncStatus::Partial);
    assert_eq!((result.items_processed, result.items_updated, result.items_failed), (3, 2, 1));
    assert_eq!(
        result.errors,
        vec!["Product P: Validation error: Quantity change out of range".to_string()]
    );
    let level = service.get_inventory(&ProductId::new("P"), &LocationId::new("w1")).expect("P");
    assert_eq!(level.on_hand, 3);
    assert_eq!(
        service.get_adjustment_history(&ProductId::new("P"), None).expect("history").len(),
        2
    );
}

#[test]
fn sync_reports_total_failure_and_empty_batches() {
    let (mut service, p, l) = stocked(1);
    let changes = vec![
        change(p.as_str(), &l.to_string(), i64::MIN, InventoryChangeType::Absolute),
        change(p.as_str(), &l.to_string(), i64::MIN, InventoryChangeType::Absolute),
    ];
    let result = service.apply_sync_changes("wms", changes).expect("sync");
    assert_eq!(result.status, SyncStatus::Failed);
    assert_eq!((result.items_processed, result.items_updated, result.items_failed), (2, 0, 2));
    assert_eq!(result.errors.len(), 2);
    assert_eq!(service.get_inventory(&p, &l).expect("get").on_hand, 1);

    let empty = service.apply_sync_changes("wms", Vec::new()).expect("sync");
    assert_eq!(empty.status, SyncStatus::Success);
    assert_eq!((empty.items_processed, empty.items_updated, empty.items_failed), (0, 0, 0));
}

#[test]
fn set_inventory_is_validated() {
    let (mut service, p, l) = stocked(-1);
    match service.set_inventory(p.clone(), l.clone(), i64::MAX, "too far") {
        Err(CommerceError::ValidationError(text)) => assert_eq!(text, "Quantity change out of range"),
        other => panic!("unexpected result: {:?}", other),
    }
    assert_eq!(service.get_inventory(&p, &l).expect("get").on_hand, -1);
    assert_eq!(service.get_adjustment_history(&p, None).expect("history").len(), 1);
    service.set_inventory(p.clone(), l.clone(), i64::MAX - 1, "far").expect("set");
    let history = service.get_adjustment_history(&p, None).expect("history");
    assert!(history.iter().any(|h| h.previous_quantity == -1 && h.quantity == i64::MAX));
    assert!(service.set_inventory(p.clone(), l.clone(), i64::MIN, "back").is_err());
    service.set_inventory(p.clone(), l.clone(), 0, "none").expect("set");
    service.set_inventory(p.clone(), l.clone(), i64::MIN, "back").expect("set");
    assert_eq!(service.get_inventory(&p, &l).expect("get").available, i64::MIN);
}

#[test]
fn total_available_stops_at_the_bounds() {
    let mut service = InventoryService::new();
    let p = ProductId::new("P");
    for name in ["a", "b", "c"] {
        service.set_inventory(p.clone(), LocationId::new(name), i64::MAX, "full").expect("set");
    }
    assert_eq!(service.get_total_available(&p).expect("total"), i64::MAX);
    service.set_inventory(p.clone(), LocationId::new("a"), 0, "recount").expect("set");
    service.set_inventory(p.clone(), LocationId::new("b"), 0, "recount").expect("set");
    service.set_inventory(p.clone(), LocationId::new("b"), -7, "recount").expect("set");
    assert_eq!(service.get_total_available(&p).expect("total"), i64::MAX - 7);
    for name in ["a", "b", "c"] {
        service.set_inventory(p.clone(), LocationId::new(name), -1, "debt").expect("set");
        service.set_inventory(p.clone(), LocationId::new(name), i64::MIN, "debt").expect("set");
    }
    assert_eq!(service.get_total_available(&p).expect("total"), i64::MIN);
}

#[test]
fn single_change_is_validated() {
    let (mut service, p, l) = stocked(-1);
    let bad = change(p.as_str(), &l.to_string(), i64::MIN, InventoryChangeType::Decrement);
    match service.apply_single_change(&bad, "src") {
        Err(CommerceError::ValidationError(text)) => assert_eq!(text, "Quantity change out of range"),
        other => panic!("unexpected result: {:?}", other),
    }
    assert_eq!(service.get_inventory(&p, &l).expect("get").on_hand, -1);
    let good = change(p.as_str(), &l.to_string(), i64::MAX, InventoryChangeType::Increment);
    service.apply_single_change(&good, "src").expect("apply");
    assert_eq!(service.get_inventory(&p, &l).expect("get").on_hand, i64::MAX - 1);
}

#[test]
fn sources_are_registered() {
    let mut service = InventoryService::new();
    let source = ExternalInventorySource {
        id: "erp".to_string(),
        name: "ERP".to_string(),
        source_type: ExternalSourceType::Erp,
        endpoint_url: None,
        sync_enabled: true,
        sync_interval_secs: 60,
        last_sync_at: None,
        last_sync_status: None,
    };
    assert!(service.register_source(source.clone()).is_ok());
    assert!(service.register_source(source).is_ok());
}

#[test]
fn new_level_has_default_thresholds() {
    let mut level = InventoryLevel::new(ProductId::new("P"), LocationId::new("L"));
    assert_eq!((level.on_hand, level.committed, level.available, level.incoming, level.damaged), (0, 0, 0, 0, 0));
    assert_eq!(
        (level.low_stock_threshold, level.reorder_point, level.reorder_quantity, level.safety_stock),
        (10, 20, 50, 5)
    );
    assert!(level.variant_id.is_none() && level.last_count_at.is_none());
    assert!(level.is_out_of_stock() && level.needs_reorder() && !level.is_low_stock());
    level.on_hand = 30;
    level.committed = 8;
    level.damaged = 2;
    level.recalculate_available();
    assert_eq!(level.available, 20);
    assert!(!level.is_low_stock() && level.needs_reorder() && !level.is_out_of_stock());
    level.on_hand = i64::MIN;
    level.recalculate_available();
    assert_eq!(level.available, i64::MIN);
    level.on_hand = -12;
    level.committed = 0;
    level.damaged = 0;
    level.recalculate_available();
    assert_eq!(
        level.to_string(),
        "InventoryLevel { product: P, location: L, available: -12, on_hand: -12, committed: 0 }"
    );
}

#[test]
fn adjustment_builders_fill_reference_and_user() {
    let adjustment = InventoryAdjustment::new(
        ProductId::new("P"),
        LocationId::new("L"),
        AdjustmentType::CycleCount,
        -4,
        10,
        "recount",
    )
    .with_reference("CC-7")
    .with_user("ann");
    assert_eq!(adjustment.new_quantity, 6);
    assert_eq!(adjustment.reference.as_deref(), Some("CC-7"));
    assert_eq!(adjustment.user.as_deref(), Some("ann"));
    assert_eq!(adjustment.reason, "recount");
    assert_eq!(adjustment.id, format!("adj-{}", adjustment.created_at));
    assert!(adjustment.created_at > 1_000_000_000);
}

#[test]
fn insufficient_inventory_message_names_the_numbers() {
    let error = CommerceError::InsufficientInventory {
        product_id: "P".to_string(),
        available: 10,
        requested: 999,
    };
    assert_eq!(error.to_string(), "Insufficient inventory for P: available 10, requested 999");
    assert_eq!(
        CommerceError::InventoryNotFound("P".to_string()).to_string(),
        "Inventory record not found: P"
    );
    assert_eq!(CommerceError::LockError.to_string(), "Failed to acquire lock");
    assert_eq!(
        CommerceError::CurrencyMismatch { expected: "ESS".to_string(), got: "USD".to_string() }
            .to_string(),
        "Currency mismatch: expected ESS, got USD"
    );
}
