//! What holds of the stock ledger whatever is done with it.

use crate::implementation::inventory_sync::ledger::{
    all_wf, commit_step, moved, receive_step, record_or_fresh, recordable, release_step,
    reserve_step, set_step, sync_status, sync_step, sync_target, synced,
};
use crate::keyed::{find, find_after_put, position, position_found, position_is, put, Keyed};
use crate::types::inventory_sync::{
    sellable, stock_key, InventoryChangeView, InventoryLevelView, SyncStatus, TransferItemView,
};
use vstd::prelude::*;

verus! {

/// A table of well-formed records stays one when a well-formed record is
/// put into it.
pub proof fn put_keeps_wf(levels: Seq<InventoryLevelView>, level: InventoryLevelView)
    requires
        all_wf(levels),
        level.wf(),
    ensures
        all_wf(put(levels, level)),
{
    position_found(levels, level.key());
}

/// A record that is found in a table of well-formed records is well formed,
/// and so is a fresh one.
pub proof fn found_is_wf(levels: Seq<InventoryLevelView>, product_id: Seq<char>, location_id: Seq<
    char,
>)
    requires
        all_wf(levels),
    ensures
        record_or_fresh(levels, product_id, location_id).wf(),
        record_or_fresh(levels, product_id, location_id).key() == stock_key(
            product_id,
            location_id,
        ),
{
    position_found(levels, stock_key(product_id, location_id));
}

/// After every stock operation that completes, the available quantity of
/// every record is its on-hand quantity less the committed and the damaged
/// quantity, each subtraction saturating at the bounds of `i64`.
pub proof fn available_stays_derived(
    levels: Seq<InventoryLevelView>,
    product_id: Seq<char>,
    location_id: Seq<char>,
    on_hand: i64,
    quantity: u32,
    text: Seq<char>,
)
    requires
        all_wf(levels),
    ensures
        set_step(levels, product_id, location_id, on_hand, text) matches Ok(step) ==> all_wf(
            step.levels,
        ),
        all_wf(receive_step(levels, product_id, location_id, quantity, text).levels),
        reserve_step(levels, product_id, location_id, quantity, text) matches Ok(step) ==> all_wf(
            step.levels,
        ),
        release_step(levels, product_id, location_id, quantity, text) matches Ok(step) ==> all_wf(
            step.levels,
        ),
        commit_step(levels, product_id, location_id, quantity, text) matches Ok(step) ==> all_wf(
            step.levels,
        ),
        forall|i: int|
            0 <= i < levels.len() ==> (#[trigger] levels[i]).available == sellable(
                levels[i].on_hand,
                levels[i].committed,
                levels[i].damaged,
            ),
{
    found_is_wf(levels, product_id, location_id);
    let before = record_or_fresh(levels, product_id, location_id);
    put_keeps_wf(levels, before.counted(on_hand));
    put_keeps_wf(levels, before.received(quantity));
    put_keeps_wf(levels, before.reserved(quantity));
    put_keeps_wf(levels, before.released(quantity));
    put_keeps_wf(levels, before.shipped(quantity));
}

/// After a change of an external source that is applied, the available
/// quantity of every record is still the one that follows from its other
/// quantities.
pub proof fn sync_keeps_available_derived(
    levels: Seq<InventoryLevelView>,
    change: InventoryChangeView,
    source_id: Seq<char>,
)
    requires
        all_wf(levels),
    ensures
        sync_step(levels, change, source_id) matches Ok(step) ==> all_wf(step.levels),
{
    found_is_wf(levels, change.product_id, change.location_id);
    let before = record_or_fresh(levels, change.product_id, change.location_id);
    put_keeps_wf(levels, before.counted(sync_target(before.on_hand, change)));
}

/// A reservation is refused exactly when the record is missing or fewer
/// units are available than asked for; one that is made raises the committed
/// quantity by exactly the quantity asked for, and the committed quantity
/// then does not exceed the on-hand quantity less the damaged one.
pub proof fn reservation_within_stock(
    levels: Seq<InventoryLevelView>,
    product_id: Seq<char>,
    location_id: Seq<char>,
    quantity: u32,
    reference: Seq<char>,
)
    requires
        all_wf(levels),
    ensures
        match reserve_step(levels, product_id, location_id, quantity, reference) {
            Ok(step) => {
                let before = find(levels, stock_key(product_id, location_id));
                let after = find(step.levels, stock_key(product_id, location_id));
                &&& before is Some
                &&& after is Some
                &&& before->Some_0.available >= quantity
                &&& after->Some_0.committed == before->Some_0.committed + quantity
                &&& after->Some_0.on_hand == before->Some_0.on_hand
                &&& after->Some_0.damaged == before->Some_0.damaged
                &&& after->Some_0.committed <= after->Some_0.on_hand - after->Some_0.damaged
            },
            Err(_) => {
                let before = find(levels, stock_key(product_id, location_id));
                before is None || before->Some_0.available < quantity
            },
        },
{
    let key = stock_key(product_id, location_id);
    position_found(levels, key);
    if let Ok(step) = reserve_step(levels, product_id, location_id, quantity, reference) {
        let before = find(levels, key)->Some_0;
        find_after_put(levels, before.reserved(quantity), key);
    }
}

/// A record after the first `n` of a series of reservations were asked for,
/// each made if enough units are available and refused otherwise.
pub open spec fn after_reservations(level: InventoryLevelView, quantities: Seq<u32>, n: nat)
    -> InventoryLevelView
    decreases n,
{
    if n == 0 {
        level
    } else {
        let before = after_reservations(level, quantities, (n - 1) as nat);
        if before.available >= quantities[n - 1] {
            before.reserved(quantities[n - 1])
        } else {
            before
        }
    }
}

/// However many reservations are asked for against a record, either none
/// was made and the record is as it was, or the committed quantity does not
/// exceed the on-hand quantity less the damaged one.
pub proof fn reservations_within_stock(level: InventoryLevelView, quantities: Seq<u32>, n: nat)
    requires
        level.wf(),
        n <= quantities.len(),
    ensures
        after_reservations(level, quantities, n).wf(),
        after_reservations(level, quantities, n).on_hand == level.on_hand,
        after_reservations(level, quantities, n).damaged == level.damaged,
        after_reservations(level, quantities, n) == level || after_reservations(
            level,
            quantities,
            n,
        ).committed <= level.on_hand - level.damaged,
    decreases n,
{
    if n > 0 {
        reservations_within_stock(level, quantities, (n - 1) as nat);
    }
}

/// Releasing what was just reserved restores the record, and with it the
/// committed and the available quantity.
pub proof fn release_undoes_reserve(
    levels: Seq<InventoryLevelView>,
    product_id: Seq<char>,
    location_id: Seq<char>,
    quantity: u32,
    reserved_for: Seq<char>,
    released_for: Seq<char>,
)
    requires
        all_wf(levels),
        reserve_step(levels, product_id, location_id, quantity, reserved_for) is Ok,
    ensures
        ({
            let reserved = reserve_step(
                levels,
                product_id,
                location_id,
                quantity,
                reserved_for,
            )->Ok_0;
            let released = release_step(
                reserved.levels,
                product_id,
                location_id,
                quantity,
                released_for,
            );
            let key = stock_key(product_id, location_id);
            &&& released is Ok
            &&& released->Ok_0.levels == levels
            &&& find(released->Ok_0.levels, key)->Some_0.committed == find(
                levels,
                key,
            )->Some_0.committed
            &&& find(released->Ok_0.levels, key)->Some_0.available == find(
                levels,
                key,
            )->Some_0.available
        }),
{
    let key = stock_key(product_id, location_id);
    position_found(levels, key);
    let before = find(levels, key)->Some_0;
    let reserved = reserve_step(levels, product_id, location_id, quantity, reserved_for)->Ok_0;
    find_after_put(levels, before.reserved(quantity), key);
    position_found(reserved.levels, key);
    let back = before.reserved(quantity).released(quantity);
    assert(back == before);
    position_is(reserved.levels, key, position(levels, key));
    assert(put(reserved.levels, back) =~= levels);
}

/// When one item of `quantity` units moves between two different locations,
/// the source holding at least that many and the destination having room
/// for them, the on-hand quantity falls by `quantity` at the source and
/// rises by `quantity` at the destination.
pub proof fn transfer_conserves_stock(
    levels: Seq<InventoryLevelView>,
    item: TransferItemView,
    from: Seq<char>,
    to: Seq<char>,
    reference: Seq<char>,
)
    requires
        from != to,
        find(levels, stock_key(item.product_id, from)) is Some,
        find(levels, stock_key(item.product_id, from))->Some_0.on_hand >= item.quantity,
        record_or_fresh(levels, item.product_id, to).on_hand + item.quantity <= i64::MAX,
    ensures
        ({
            let batch = moved(levels, seq![item], from, to, reference, 1);
            let source = stock_key(item.product_id, from);
            let destination = stock_key(item.product_id, to);
            &&& batch.failure is None
            &&& batch.entries.len() == 2
            &&& find(batch.levels, source) is Some
            &&& find(batch.levels, destination) is Some
            &&& find(batch.levels, source)->Some_0.on_hand == find(levels, source)->Some_0.on_hand
                - item.quantity
            &&& find(batch.levels, destination)->Some_0.on_hand == record_or_fresh(
                levels,
                item.product_id,
                to,
            ).on_hand + item.quantity
        }),
{
    let source = stock_key(item.product_id, from);
    let destination = stock_key(item.product_id, to);
    let start = moved(levels, seq![item], from, to, reference, 0);
    assert(start.levels == levels && start.failure is None);
    position_found(levels, source);
    let before = find(levels, source)->Some_0;
    let out = commit_step(levels, item.product_id, from, item.quantity, reference)->Ok_0;
    find_after_put(levels, before.shipped(item.quantity), source);
    find_after_put(levels, before.shipped(item.quantity), destination);
    let arriving = record_or_fresh(out.levels, item.product_id, to);
    assert(arriving == record_or_fresh(levels, item.product_id, to));
    position_found(out.levels, destination);
    position_found(levels, destination);
    let inn = receive_step(out.levels, item.product_id, to, item.quantity, reference);
    find_after_put(out.levels, arriving.received(item.quantity), source);
    find_after_put(out.levels, arriving.received(item.quantity), destination);
    assert(seq![item][0] == item);
}

/// The entry of every stock operation that completes holds the quantity
/// before the change, and the change that leads from it to the quantity
/// after. For setting, receiving and shipping that quantity is the on-hand
/// one; for reserving and releasing, where the on-hand quantity stays, it is
/// the committed one.
pub proof fn entry_reconstructs_change(
    levels: Seq<InventoryLevelView>,
    product_id: Seq<char>,
    location_id: Seq<char>,
    on_hand: i64,
    quantity: u32,
    text: Seq<char>,
)
    requires
        all_wf(levels),
    ensures
        ({
            let key = stock_key(product_id, location_id);
            let before = record_or_fresh(levels, product_id, location_id);
            let received = receive_step(levels, product_id, location_id, quantity, text);
            &&& set_step(levels, product_id, location_id, on_hand, text) matches Ok(set) ==> {
                &&& set.entry.previous_quantity == before.on_hand
                &&& set.entry.previous_quantity + set.entry.quantity == on_hand
                &&& find(set.levels, key)->Some_0.on_hand == on_hand
            }
            &&& received.entry.previous_quantity == before.on_hand
            &&& received.entry.previous_quantity + received.entry.quantity == find(
                received.levels,
                key,
            )->Some_0.on_hand
            &&& commit_step(levels, product_id, location_id, quantity, text) matches Ok(shipped)
                ==> {
                &&& shipped.entry.previous_quantity == before.on_hand
                &&& shipped.entry.previous_quantity + shipped.entry.quantity == find(
                    shipped.levels,
                    key,
                )->Some_0.on_hand
            }
            &&& reserve_step(levels, product_id, location_id, quantity, text) matches Ok(reserved)
                ==> {
                &&& reserved.entry.previous_quantity == before.committed
                &&& reserved.entry.quantity == quantity
                &&& reserved.entry.previous_quantity + reserved.entry.quantity == find(
                    reserved.levels,
                    key,
                )->Some_0.committed
                &&& find(reserved.levels, key)->Some_0.on_hand == before.on_hand
            }
            &&& release_step(levels, product_id, location_id, quantity, text) matches Ok(released)
                ==> {
                &&& released.entry.previous_quantity == before.committed
                &&& released.entry.previous_quantity + released.entry.quantity == find(
                    released.levels,
                    key,
                )->Some_0.committed
                &&& find(released.levels, key)->Some_0.on_hand == before.on_hand
            }
        }),
{
    let key = stock_key(product_id, location_id);
    position_found(levels, key);
    let before = record_or_fresh(levels, product_id, location_id);
    find_after_put(levels, before.counted(on_hand), key);
    find_after_put(levels, before.received(quantity), key);
    find_after_put(levels, before.shipped(quantity), key);
    find_after_put(levels, before.reserved(quantity), key);
    find_after_put(levels, before.released(quantity), key);
}

/// The entry of every change of an external source that is applied holds
/// the on-hand quantity before it, and the change that leads from it to the
/// on-hand quantity after.
pub proof fn sync_entry_reconstructs_change(
    levels: Seq<InventoryLevelView>,
    change: InventoryChangeView,
    source_id: Seq<char>,
)
    ensures
        sync_step(levels, change, source_id) matches Ok(step) ==> {
            let key = stock_key(change.product_id, change.location_id);
            &&& step.entry.previous_quantity == record_or_fresh(
                levels,
                change.product_id,
                change.location_id,
            ).on_hand
            &&& step.entry.previous_quantity + step.entry.quantity == find(
                step.levels,
                key,
            )->Some_0.on_hand
        },
{
    let key = stock_key(change.product_id, change.location_id);
    position_found(levels, key);
    let before = record_or_fresh(levels, change.product_id, change.location_id);
    find_after_put(levels, before.counted(sync_target(before.on_hand, change)), key);
}

/// Every change of a batch is either applied or failed, each failure is
/// reported once and each applied change logged once; and with `k` failures
/// among `n` changes the status is a success if `k` is zero, partial if `k`
/// lies between zero and `n`, and a failure if `k` is `n` and the batch is
/// not empty.
pub proof fn sync_accounts_for_every_change(
    levels: Seq<InventoryLevelView>,
    changes: Seq<InventoryChangeView>,
    source_id: Seq<char>,
    n: nat,
)
    ensures
        ({
            let batch = synced(levels, changes, source_id, n);
            let status = sync_status(batch.updated, batch.failed);
            &&& batch.updated + batch.failed == n
            &&& batch.errors.len() == batch.failed
            &&& batch.entries.len() == batch.updated
            &&& batch.failed == 0 ==> status == SyncStatus::Success
            &&& 0 < batch.failed < n ==> status == SyncStatus::Partial
            &&& batch.failed == n && n > 0 ==> status == SyncStatus::Failed
        }),
    decreases n,
{
    if n > 0 {
        sync_accounts_for_every_change(levels, changes, source_id, (n - 1) as nat);
    }
}

} // verus!
