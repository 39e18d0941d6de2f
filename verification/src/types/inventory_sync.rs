//! Inventory types: locations, stock records, audit entries, transfers and
//! external feeds.

pub use crate::implementation::inventory_sync::service::InventoryService;

use crate::clock::unix_seconds;
use crate::keyed::Keyed;
use crate::quantity::{clamp_i64, lowered, saturating_sub_i64};
use crate::recency::Dated;
use crate::text::{decimal, decimal_string, numbered, signed_decimal, signed_decimal_string};
use crate::types::product_catalog::{ProductId, Sku};
use crate::views::{clone_opt, clone_vec, opt_view, seq_view, seq_view_push};
use vstd::prelude::*;

verus! {

// ============================================================================
// LOCATIONS
// ============================================================================
/// Inventory location identifier.
#[derive(Debug, Hash)]
pub struct LocationId(pub String);

impl View for LocationId {
    type V = Seq<char>;

    open spec fn view(&self) -> Seq<char> {
        self.0@
    }
}

impl Clone for LocationId {
    fn clone(&self) -> (r: Self)
        ensures
            r@ == self@,
    {
        LocationId(self.0.clone())
    }
}

impl PartialEq for LocationId {
    fn eq(&self, other: &Self) -> (r: bool) {
        self.0 == other.0
    }
}

impl Eq for LocationId {}

impl vstd::std_specs::cmp::PartialEqSpecImpl for LocationId {
    open spec fn obeys_eq_spec() -> bool {
        true
    }

    open spec fn eq_spec(&self, other: &Self) -> bool {
        self@ == other@
    }
}

impl LocationId {
    /// Creates a new location ID.
    pub fn new(id: &str) -> (r: Self)
        ensures
            r@ == id@,
    {
        LocationId(id.to_owned())
    }

    /// Default warehouse location.
    pub fn default_warehouse() -> (r: Self)
        ensures
            r@ == "warehouse-main"@,
    {
        LocationId("warehouse-main".to_owned())
    }

    /// The identifier as text.
    pub fn to_string(&self) -> (s: String)
        ensures
            s@ == self@,
    {
        self.0.clone()
    }
}

/// Location type.
#[derive(Debug, Clone, Copy, PartialEq, Eq, Structural)]
pub enum LocationType {
    /// Main warehouse.
    Warehouse,
    /// Distribution center.
    DistributionCenter,
    /// Retail store.
    Store,
    /// Drop-ship supplier.
    Dropship,
    /// Virtual (digital products).
    Virtual,
}

/// Warehouse/location definition.
#[derive(Debug)]
pub struct InventoryLocation {
    /// Location ID.
    pub id: LocationId,
    /// Location name.
    pub name: String,
    /// Location type.
    pub location_type: LocationType,
    /// Street address.
    pub address: String,
    /// City.
    pub city: String,
    /// State/province.
    pub state: String,
    /// Country code.
    pub country_code: String,
    /// Postal code.
    pub postal_code: String,
    /// Whether location is active.
    pub is_active: bool,
    /// Priority for fulfillment (lower = higher priority).
    pub fulfillment_priority: u32,
    /// Whether location can ship orders.
    pub can_ship: bool,
    /// Whether location allows in-store pickup.
    pub allows_pickup: bool,
}

/// The model of an [`InventoryLocation`].
pub ghost struct InventoryLocationView {
    pub id: Seq<char>,
    pub name: Seq<char>,
    pub location_type: LocationType,
    pub address: Seq<char>,
    pub city: Seq<char>,
    pub state: Seq<char>,
    pub country_code: Seq<char>,
    pub postal_code: Seq<char>,
    pub is_active: bool,
    pub fulfillment_priority: u32,
    pub can_ship: bool,
    pub allows_pickup: bool,
}

impl View for InventoryLocation {
    type V = InventoryLocationView;

    open spec fn view(&self) -> InventoryLocationView {
        InventoryLocationView {
            id: self.id@,
            name: self.name@,
            location_type: self.location_type,
            address: self.address@,
            city: self.city@,
            state: self.state@,
            country_code: self.country_code@,
            postal_code: self.postal_code@,
            is_active: self.is_active,
            fulfillment_priority: self.fulfillment_priority,
            can_ship: self.can_ship,
            allows_pickup: self.allows_pickup,
        }
    }
}

impl Clone for InventoryLocation {
    fn clone(&self) -> (r: Self)
        ensures
            r@ == self@,
    {
        InventoryLocation {
            id: self.id.clone(),
            name: self.name.clone(),
            location_type: self.location_type,
            address: self.address.clone(),
            city: self.city.clone(),
            state: self.state.clone(),
            country_code: self.country_code.clone(),
            postal_code: self.postal_code.clone(),
            is_active: self.is_active,
            fulfillment_priority: self.fulfillment_priority,
            can_ship: self.can_ship,
            allows_pickup: self.allows_pickup,
        }
    }
}

impl Keyed for InventoryLocationView {
    type Key = Seq<char>;

    open spec fn key(self) -> Seq<char> {
        self.id
    }
}

impl InventoryLocationView {
    /// A location of the given kind with an empty address: active, able to
    /// ship, with the priority and pickup setting given.
    pub open spec fn plain(
        id: Seq<char>,
        name: Seq<char>,
        location_type: LocationType,
        fulfillment_priority: u32,
        allows_pickup: bool,
    ) -> Self {
        InventoryLocationView {
            id,
            name,
            location_type,
            address: Seq::empty(),
            city: Seq::empty(),
            state: Seq::empty(),
            country_code: Seq::empty(),
            postal_code: Seq::empty(),
            is_active: true,
            fulfillment_priority,
            can_ship: true,
            allows_pickup,
        }
    }
}

impl InventoryLocation {
    /// Creates a new warehouse location.
    pub fn warehouse(id: LocationId, name: &str) -> (r: Self)
        ensures
            r@ == InventoryLocationView::plain(id@, name@, LocationType::Warehouse, 1, false),
    {
        InventoryLocation {
            id,
            name: name.to_owned(),
            location_type: LocationType::Warehouse,
            address: String::new(),
            city: String::new(),
            state: String::new(),
            country_code: String::new(),
            postal_code: String::new(),
            is_active: true,
            fulfillment_priority: 1,
            can_ship: true,
            allows_pickup: false,
        }
    }

    /// Creates a store location.
    pub fn store(id: LocationId, name: &str) -> (r: Self)
        ensures
            r@ == InventoryLocationView::plain(id@, name@, LocationType::Store, 10, true),
    {
        InventoryLocation {
            id,
            name: name.to_owned(),
            location_type: LocationType::Store,
            address: String::new(),
            city: String::new(),
            state: String::new(),
            country_code: String::new(),
            postal_code: String::new(),
            is_active: true,
            fulfillment_priority: 10,
            can_ship: true,
            allows_pickup: true,
        }
    }
}

// ============================================================================
// STOCK RECORDS
// ============================================================================
/// Key for inventory level lookup.
#[derive(Debug, Hash)]
pub struct InventoryKey {
    /// Product ID.
    pub product_id: ProductId,
    /// Variant ID.
    pub variant_id: Option<ProductId>,
    /// Location ID.
    pub location_id: LocationId,
}

/// The model of an [`InventoryKey`].
pub ghost struct InventoryKeyView {
    pub product_id: Seq<char>,
    pub variant_id: Option<Seq<char>>,
    pub location_id: Seq<char>,
}

impl View for InventoryKey {
    type V = InventoryKeyView;

    open spec fn view(&self) -> InventoryKeyView {
        InventoryKeyView {
            product_id: self.product_id@,
            variant_id: opt_view(self.variant_id),
            location_id: self.location_id@,
        }
    }
}

/// The key of the record of a product without variant at a location.
pub open spec fn stock_key(product_id: Seq<char>, location_id: Seq<char>) -> InventoryKeyView {
    InventoryKeyView { product_id, variant_id: None, location_id }
}

/// Whether two optional product identifiers name the same product, or are
/// both absent.
fn same_opt_product(a: &Option<ProductId>, b: &Option<ProductId>) -> (r: bool)
    ensures
        r == (opt_view(*a) == opt_view(*b)),
{
    match a {
        Some(x) => match b {
            Some(y) => *x == *y,
            None => false,
        },
        None => b.is_none(),
    }
}

impl Clone for InventoryKey {
    fn clone(&self) -> (r: Self)
        ensures
            r@ == self@,
    {
        InventoryKey {
            product_id: self.product_id.clone(),
            variant_id: clone_opt(&self.variant_id),
            location_id: self.location_id.clone(),
        }
    }
}

impl PartialEq for InventoryKey {
    fn eq(&self, other: &Self) -> (r: bool) {
        self.product_id == other.product_id && same_opt_product(&self.variant_id, &other.variant_id)
            && self.location_id == other.location_id
    }
}

impl Eq for InventoryKey {}

impl vstd::std_specs::cmp::PartialEqSpecImpl for InventoryKey {
    open spec fn obeys_eq_spec() -> bool {
        true
    }

    open spec fn eq_spec(&self, other: &Self) -> bool {
        self@ == other@
    }
}

/// Inventory level for a product at a location.
#[derive(Debug)]
pub struct InventoryLevel {
    /// Product ID.
    pub product_id: ProductId,
    /// Variant ID (if applicable).
    pub variant_id: Option<ProductId>,
    /// Location ID.
    pub location_id: LocationId,
    /// Available quantity (can be sold).
    pub available: i64,
    /// Committed quantity (reserved for orders).
    pub committed: i64,
    /// On-hand quantity (physically in stock).
    pub on_hand: i64,
    /// Incoming quantity (on order from supplier).
    pub incoming: i64,
    /// Damaged/unsellable quantity.
    pub damaged: i64,
    /// Low stock threshold.
    pub low_stock_threshold: u32,
    /// Reorder point.
    pub reorder_point: u32,
    /// Reorder quantity.
    pub reorder_quantity: u32,
    /// Safety stock level.
    pub safety_stock: u32,
    /// Last stock count date.
    pub last_count_at: Option<u64>,
    /// Last update timestamp.
    pub updated_at: u64,
}

/// The model of an [`InventoryLevel`]: everything but the time of its last
/// change, which is a clock reading.
pub ghost struct InventoryLevelView {
    pub product_id: Seq<char>,
    pub variant_id: Option<Seq<char>>,
    pub location_id: Seq<char>,
    pub available: i64,
    pub committed: i64,
    pub on_hand: i64,
    pub incoming: i64,
    pub damaged: i64,
    pub low_stock_threshold: u32,
    pub reorder_point: u32,
    pub reorder_quantity: u32,
    pub safety_stock: u32,
    pub last_count_at: Option<u64>,
}

impl View for InventoryLevel {
    type V = InventoryLevelView;

    open spec fn view(&self) -> InventoryLevelView {
        InventoryLevelView {
            product_id: self.product_id@,
            variant_id: opt_view(self.variant_id),
            location_id: self.location_id@,
            available: self.available,
            committed: self.committed,
            on_hand: self.on_hand,
            incoming: self.incoming,
            damaged: self.damaged,
            low_stock_threshold: self.low_stock_threshold,
            reorder_point: self.reorder_point,
            reorder_quantity: self.reorder_quantity,
            safety_stock: self.safety_stock,
            last_count_at: self.last_count_at,
        }
    }
}

/// The sellable quantity: on hand less committed less damaged, each
/// subtraction saturating at the bounds of `i64`.
pub open spec fn sellable(on_hand: i64, committed: i64, damaged: i64) -> i64 {
    clamp_i64(clamp_i64(on_hand - committed) - damaged)
}

impl Keyed for InventoryLevelView {
    type Key = InventoryKeyView;

    open spec fn key(self) -> InventoryKeyView {
        InventoryKeyView {
            product_id: self.product_id,
            variant_id: self.variant_id,
            location_id: self.location_id,
        }
    }
}

impl InventoryLevelView {
    /// The record's invariant: committed and damaged units are counts, and
    /// the available quantity is the sellable one.
    pub open spec fn wf(self) -> bool {
        &&& self.committed >= 0
        &&& self.damaged >= 0
        &&& self.available == sellable(self.on_hand, self.committed, self.damaged)
    }

    /// A record that was never written: all quantities zero, the default
    /// thresholds.
    pub open spec fn fresh(product_id: Seq<char>, location_id: Seq<char>) -> Self {
        InventoryLevelView {
            product_id,
            variant_id: None,
            location_id,
            available: 0,
            committed: 0,
            on_hand: 0,
            incoming: 0,
            damaged: 0,
            low_stock_threshold: 10,
            reorder_point: 20,
            reorder_quantity: 50,
            safety_stock: 5,
            last_count_at: None,
        }
    }

    /// The record with new on-hand and committed quantities, and the
    /// available quantity that follows from them.
    pub open spec fn with_stock(self, on_hand: i64, committed: i64) -> Self {
        InventoryLevelView {
            on_hand,
            committed,
            available: sellable(on_hand, committed, self.damaged),
            ..self
        }
    }

    /// The record after its on-hand quantity was set to `on_hand`.
    pub open spec fn counted(self, on_hand: i64) -> Self {
        self.with_stock(on_hand, self.committed)
    }

    /// The record after `quantity` units were reserved.
    pub open spec fn reserved(self, quantity: u32) -> Self {
        self.with_stock(self.on_hand, clamp_i64(self.committed + quantity))
    }

    /// The record after a reservation of `quantity` units was released:
    /// the committed quantity stops at zero.
    pub open spec fn released(self, quantity: u32) -> Self {
        self.with_stock(self.on_hand, lowered(self.committed, quantity))
    }

    /// The record after `quantity` reserved units were shipped: on-hand and
    /// committed quantities both stop at zero.
    pub open spec fn shipped(self, quantity: u32) -> Self {
        self.with_stock(lowered(self.on_hand, quantity), lowered(self.committed, quantity))
    }

    /// The record after `quantity` units were received.
    pub open spec fn received(self, quantity: u32) -> Self {
        self.with_stock(clamp_i64(self.on_hand + quantity), self.committed)
    }

    /// Whether stock is low: some is available, but no more than the
    /// low-stock threshold.
    pub open spec fn is_low_stock(self) -> bool {
        0 < self.available <= self.low_stock_threshold
    }

    /// Whether nothing is available.
    pub open spec fn is_out_of_stock(self) -> bool {
        self.available <= 0
    }

    /// Whether the available quantity has reached the reorder point.
    pub open spec fn needs_reorder(self) -> bool {
        self.available <= self.reorder_point
    }
}

impl Clone for InventoryLevel {
    fn clone(&self) -> (r: Self)
        ensures
            r@ == self@,
            r.updated_at == self.updated_at,
    {
        InventoryLevel {
            product_id: self.product_id.clone(),
            variant_id: clone_opt(&self.variant_id),
            location_id: self.location_id.clone(),
            available: self.available,
            committed: self.committed,
            on_hand: self.on_hand,
            incoming: self.incoming,
            damaged: self.damaged,
            low_stock_threshold: self.low_stock_threshold,
            reorder_point: self.reorder_point,
            reorder_quantity: self.reorder_quantity,
            safety_stock: self.safety_stock,
            last_count_at: self.last_count_at,
            updated_at: self.updated_at,
        }
    }
}

impl InventoryLevel {
    /// Creates a new inventory level.
    pub fn new(product_id: ProductId, location_id: LocationId) -> (r: Self)
        ensures
            r@ == InventoryLevelView::fresh(product_id@, location_id@),
            r@.wf(),
    {
        let now = unix_seconds();
        InventoryLevel {
            product_id,
            variant_id: None,
            location_id,
            available: 0,
            committed: 0,
            on_hand: 0,
            incoming: 0,
            damaged: 0,
            low_stock_threshold: 10,
            reorder_point: 20,
            reorder_quantity: 50,
            safety_stock: 5,
            last_count_at: None,
            updated_at: now,
        }
    }

    /// Whether stock is low.
    pub fn is_low_stock(&self) -> (r: bool)
        ensures
            r == self@.is_low_stock(),
    {
        self.available > 0 && self.available <= self.low_stock_threshold as i64
    }

    /// Whether stock is out.
    pub fn is_out_of_stock(&self) -> (r: bool)
        ensures
            r == self@.is_out_of_stock(),
    {
        self.available <= 0
    }

    /// Whether reorder is needed.
    pub fn needs_reorder(&self) -> (r: bool)
        ensures
            r == self@.needs_reorder(),
    {
        self.available <= self.reorder_point as i64
    }

    /// Recalculates available quantity.
    pub fn recalculate_available(&mut self)
        ensures
            final(self)@ == old(self)@.with_stock(old(self).on_hand, old(self).committed),
    {
        self.available = saturating_sub_i64(
            saturating_sub_i64(self.on_hand, self.committed),
            self.damaged,
        );
        self.touch();
    }

    /// Updates timestamp.
    fn touch(&mut self)
        ensures
            final(self)@ == old(self)@,
    {
        self.updated_at = unix_seconds();
    }

    /// A one-line description of the record.
    pub fn to_string(&self) -> (s: String)
        ensures
            s@ == self@.description(),
    {
        let mut s = "InventoryLevel { product: ".to_owned();
        s.append(self.product_id.as_str());
        s.append(", location: ");
        s.append(self.location_id.0.as_str());
        s.append(", available: ");
        s.append(signed_decimal_string(self.available).as_str());
        s.append(", on_hand: ");
        s.append(signed_decimal_string(self.on_hand).as_str());
        s.append(", committed: ");
        s.append(signed_decimal_string(self.committed).as_str());
        s.append(" }");
        s
    }
}

impl InventoryLevelView {
    /// A one-line description of the record.
    pub open spec fn description(self) -> Seq<char> {
        "InventoryLevel { product: "@ + self.product_id + ", location: "@ + self.location_id
            + ", available: "@ + signed_decimal(self.available as int) + ", on_hand: "@
            + signed_decimal(self.on_hand as int) + ", committed: "@ + signed_decimal(
            self.committed as int,
        ) + " }"@
    }
}

// ============================================================================
// INVENTORY ADJUSTMENT
// ============================================================================
/// Type of inventory adjustment.
#[derive(Debug, Clone, Copy, PartialEq, Eq, Structural)]
pub enum AdjustmentType {
    /// Stock received from supplier.
    Received,
    /// Stock shipped to customer.
    Shipped,
    /// Stock returned by customer.
    Returned,
    /// Stock counted/corrected.
    Adjustment,
    /// Stock transferred between locations.
    Transfer,
    /// Stock reserved for order.
    Reserved,
    /// Stock unreserved (order cancelled).
    Unreserved,
    /// Stock damaged.
    Damaged,
    /// Stock scrapped/disposed.
    Scrapped,
    /// Cycle count adjustment.
    CycleCount,
}

/// Inventory adjustment record.
#[derive(Debug)]
pub struct InventoryAdjustment {
    /// Adjustment ID.
    pub id: String,
    /// Product ID.
    pub product_id: ProductId,
    /// Variant ID.
    pub variant_id: Option<ProductId>,
    /// Location ID.
    pub location_id: LocationId,
    /// Adjustment type.
    pub adjustment_type: AdjustmentType,
    /// Quantity adjusted (positive or negative).
    pub quantity: i64,
    /// Quantity before the adjustment.
    pub previous_quantity: i64,
    /// Quantity after the adjustment.
    pub new_quantity: i64,
    /// Reference (order ID, PO number, etc).
    pub reference: Option<String>,
    /// Reason for adjustment.
    pub reason: String,
    /// User who made adjustment.
    pub user: Option<String>,
    /// Adjustment timestamp.
    pub created_at: u64,
}

/// The model of an [`InventoryAdjustment`].
pub ghost struct InventoryAdjustmentView {
    pub id: Seq<char>,
    pub product_id: Seq<char>,
    pub variant_id: Option<Seq<char>>,
    pub location_id: Seq<char>,
    pub adjustment_type: AdjustmentType,
    pub quantity: i64,
    pub previous_quantity: i64,
    pub new_quantity: i64,
    pub reference: Option<Seq<char>>,
    pub reason: Seq<char>,
    pub user: Option<Seq<char>>,
    pub created_at: u64,
}

/// What one change to a stock record is entered in the audit log as: which
/// record, the kind of change, the quantity before it, the signed change,
/// and why.
pub ghost struct AuditEntry {
    pub product_id: Seq<char>,
    pub location_id: Seq<char>,
    pub adjustment_type: AdjustmentType,
    pub quantity: i64,
    pub previous_quantity: i64,
    pub reason: Seq<char>,
    pub reference: Option<Seq<char>>,
}

impl View for InventoryAdjustment {
    type V = InventoryAdjustmentView;

    open spec fn view(&self) -> InventoryAdjustmentView {
        InventoryAdjustmentView {
            id: self.id@,
            product_id: self.product_id@,
            variant_id: opt_view(self.variant_id),
            location_id: self.location_id@,
            adjustment_type: self.adjustment_type,
            quantity: self.quantity,
            previous_quantity: self.previous_quantity,
            new_quantity: self.new_quantity,
            reference: opt_view(self.reference),
            reason: self.reason@,
            user: opt_view(self.user),
            created_at: self.created_at,
        }
    }
}

impl Dated for InventoryAdjustmentView {
    open spec fn written_at(self) -> u64 {
        self.created_at
    }
}

impl InventoryAdjustmentView {
    /// The entry that the adjustment carries.
    pub open spec fn entry(self) -> AuditEntry {
        AuditEntry {
            product_id: self.product_id,
            location_id: self.location_id,
            adjustment_type: self.adjustment_type,
            quantity: self.quantity,
            previous_quantity: self.previous_quantity,
            reason: self.reason,
            reference: self.reference,
        }
    }

    /// Whether the adjustment is the record of `entry`, as the ledger writes
    /// it: named after the second it was written in, without variant or
    /// user, its resulting quantity the previous one plus the change.
    pub open spec fn records(self, entry: AuditEntry) -> bool {
        &&& self.entry() == entry
        &&& self.id == "adj-"@ + decimal(self.created_at as nat)
        &&& self.variant_id is None
        &&& self.user is None
        &&& self.new_quantity == entry.previous_quantity + entry.quantity
    }
}

impl Clone for InventoryAdjustment {
    fn clone(&self) -> (r: Self)
        ensures
            r@ == self@,
    {
        InventoryAdjustment {
            id: self.id.clone(),
            product_id: self.product_id.clone(),
            variant_id: clone_opt(&self.variant_id),
            location_id: self.location_id.clone(),
            adjustment_type: self.adjustment_type,
            quantity: self.quantity,
            previous_quantity: self.previous_quantity,
            new_quantity: self.new_quantity,
            reference: clone_opt(&self.reference),
            reason: self.reason.clone(),
            user: clone_opt(&self.user),
            created_at: self.created_at,
        }
    }
}

impl InventoryAdjustment {
    /// Creates a new adjustment record.
    pub fn new(
        product_id: ProductId,
        location_id: LocationId,
        adjustment_type: AdjustmentType,
        quantity: i64,
        previous_quantity: i64,
        reason: &str,
    ) -> (r: Self)
        requires
            i64::MIN <= previous_quantity + quantity <= i64::MAX,
        ensures
            r@.records(
                AuditEntry {
                    product_id: product_id@,
                    location_id: location_id@,
                    adjustment_type,
                    quantity,
                    previous_quantity,
                    reason: reason@,
                    reference: None,
                },
            ),
    {
        let now = unix_seconds();
        InventoryAdjustment {
            id: numbered("adj-", now),
            product_id,
            variant_id: None,
            location_id,
            adjustment_type,
            quantity,
            previous_quantity,
            new_quantity: previous_quantity + quantity,
            reference: None,
            reason: reason.to_owned(),
            user: None,
            created_at: now,
        }
    }

    /// Sets reference.
    pub fn with_reference(self, reference: &str) -> (r: Self)
        ensures
            r@ == (InventoryAdjustmentView { reference: Some(reference@), ..self@ }),
    {
        let mut adjustment = self;
        adjustment.reference = Some(reference.to_owned());
        adjustment
    }

    /// Sets user.
    pub fn with_user(self, user: &str) -> (r: Self)
        ensures
            r@ == (InventoryAdjustmentView { user: Some(user@), ..self@ }),
    {
        let mut adjustment = self;
        adjustment.user = Some(user.to_owned());
        adjustment
    }
}

// ============================================================================
// STOCK TRANSFER
// ============================================================================
/// Transfer status.
#[derive(Debug, Clone, Copy, PartialEq, Eq, Structural)]
pub enum TransferStatus {
    /// Transfer pending.
    Pending,
    /// Transfer in progress.
    InProgress,
    /// Transfer completed.
    Completed,
    /// Transfer cancelled.
    Cancelled,
}

impl Default for TransferStatus {
    fn default() -> (r: Self)
        ensures
            r == TransferStatus::Pending,
    {
        TransferStatus::Pending
    }
}

impl TransferStatus {
    /// Whether a transfer in this status may still be completed.
    pub open spec fn is_open(self) -> bool {
        self == TransferStatus::Pending || self == TransferStatus::InProgress
    }

    /// The name of the status.
    pub open spec fn name(self) -> Seq<char> {
        match self {
            TransferStatus::Pending => "Pending"@,
            TransferStatus::InProgress => "InProgress"@,
            TransferStatus::Completed => "Completed"@,
            TransferStatus::Cancelled => "Cancelled"@,
        }
    }
}

/// Item in a transfer.
#[derive(Debug)]
pub struct TransferItem {
    /// Product ID.
    pub product_id: ProductId,
    /// Variant ID.
    pub variant_id: Option<ProductId>,
    /// Quantity to transfer.
    pub quantity: u32,
    /// Quantity received.
    pub quantity_received: u32,
}

/// The model of a [`TransferItem`].
pub ghost struct TransferItemView {
    pub product_id: Seq<char>,
    pub variant_id: Option<Seq<char>>,
    pub quantity: u32,
    pub quantity_received: u32,
}

impl View for TransferItem {
    type V = TransferItemView;

    open spec fn view(&self) -> TransferItemView {
        TransferItemView {
            product_id: self.product_id@,
            variant_id: opt_view(self.variant_id),
            quantity: self.quantity,
            quantity_received: self.quantity_received,
        }
    }
}

impl Clone for TransferItem {
    fn clone(&self) -> (r: Self)
        ensures
            r@ == self@,
    {
        TransferItem {
            product_id: self.product_id.clone(),
            variant_id: clone_opt(&self.variant_id),
            quantity: self.quantity,
            quantity_received: self.quantity_received,
        }
    }
}

/// Stock transfer between locations.
#[derive(Debug)]
pub struct StockTransfer {
    /// Transfer ID.
    pub id: String,
    /// Source location.
    pub from_location: LocationId,
    /// Destination location.
    pub to_location: LocationId,
    /// Transfer status.
    pub status: TransferStatus,
    /// Items being transferred.
    pub items: Vec<TransferItem>,
    /// Expected arrival date.
    pub expected_arrival: Option<u64>,
    /// Actual arrival date.
    pub arrived_at: Option<u64>,
    /// Notes.
    pub notes: Option<String>,
    /// Creation timestamp.
    pub created_at: u64,
    /// Last update timestamp.
    pub updated_at: u64,
}

/// The model of a [`StockTransfer`]: everything but the time of its last
/// change, which is a clock reading.
pub ghost struct StockTransferView {
    pub id: Seq<char>,
    pub from_location: Seq<char>,
    pub to_location: Seq<char>,
    pub status: TransferStatus,
    pub items: Seq<TransferItemView>,
    pub expected_arrival: Option<u64>,
    pub arrived_at: Option<u64>,
    pub notes: Option<Seq<char>>,
    pub created_at: u64,
}

impl View for StockTransfer {
    type V = StockTransferView;

    open spec fn view(&self) -> StockTransferView {
        StockTransferView {
            id: self.id@,
            from_location: self.from_location@,
            to_location: self.to_location@,
            status: self.status,
            items: seq_view(self.items@),
            expected_arrival: self.expected_arrival,
            arrived_at: self.arrived_at,
            notes: opt_view(self.notes),
            created_at: self.created_at,
        }
    }
}

impl Keyed for StockTransferView {
    type Key = Seq<char>;

    open spec fn key(self) -> Seq<char> {
        self.id
    }
}

impl StockTransferView {
    /// A transfer as it is created: pending, without items, named after the
    /// second it was created in.
    pub open spec fn pending(from_location: Seq<char>, to_location: Seq<char>, created_at: u64)
        -> Self {
        StockTransferView {
            id: "transfer-"@ + decimal(created_at as nat),
            from_location,
            to_location,
            status: TransferStatus::Pending,
            items: Seq::empty(),
            expected_arrival: None,
            arrived_at: None,
            notes: None,
            created_at,
        }
    }

    /// The transfer after it was completed at the time `at`.
    pub open spec fn completed(self, at: u64) -> Self {
        StockTransferView { status: TransferStatus::Completed, arrived_at: Some(at), ..self }
    }

    /// A one-line description of the transfer.
    pub open spec fn description(self) -> Seq<char> {
        "StockTransfer { id: "@ + self.id + ", from: "@ + self.from_location + ", to: "@
            + self.to_location + ", status: "@ + self.status.name() + ", items: "@ + decimal(
            self.items.len(),
        ) + " }"@
    }
}

impl Clone for StockTransfer {
    fn clone(&self) -> (r: Self)
        ensures
            r@ == self@,
            r.updated_at == self.updated_at,
    {
        StockTransfer {
            id: self.id.clone(),
            from_location: self.from_location.clone(),
            to_location: self.to_location.clone(),
            status: self.status,
            items: clone_vec(&self.items),
            expected_arrival: self.expected_arrival,
            arrived_at: self.arrived_at,
            notes: clone_opt(&self.notes),
            created_at: self.created_at,
            updated_at: self.updated_at,
        }
    }
}

impl StockTransfer {
    /// Creates a new transfer.
    pub fn new(from_location: LocationId, to_location: LocationId) -> (r: Self)
        ensures
            r@ == StockTransferView::pending(from_location@, to_location@, r.created_at),
            r.updated_at == r.created_at,
    {
        let now = unix_seconds();
        let transfer = StockTransfer {
            id: numbered("transfer-", now),
            from_location,
            to_location,
            status: TransferStatus::Pending,
            items: Vec::new(),
            expected_arrival: None,
            arrived_at: None,
            notes: None,
            created_at: now,
            updated_at: now,
        };
        assert(seq_view(transfer.items@) =~= Seq::empty());
        transfer
    }

    /// Adds an item to the transfer.
    pub fn add_item(&mut self, product_id: ProductId, quantity: u32)
        ensures
            final(self)@ == (StockTransferView {
                items: old(self)@.items.push(
                    TransferItemView {
                        product_id: product_id@,
                        variant_id: None,
                        quantity,
                        quantity_received: 0,
                    },
                ),
                ..old(self)@
            }),
    {
        let item = TransferItem { product_id, variant_id: None, quantity, quantity_received: 0 };
        proof {
            seq_view_push(self.items@, item);
        }
        self.items.push(item);
        self.touch();
    }

    /// Updates timestamp.
    fn touch(&mut self)
        ensures
            final(self)@ == old(self)@,
    {
        self.updated_at = unix_seconds();
    }

    /// The name of the transfer's status.
    fn status_name(&self) -> (s: &'static str)
        ensures
            s@ == self.status.name(),
    {
        match self.status {
            TransferStatus::Pending => "Pending",
            TransferStatus::InProgress => "InProgress",
            TransferStatus::Completed => "Completed",
            TransferStatus::Cancelled => "Cancelled",
        }
    }

    /// A one-line description of the transfer.
    pub fn to_string(&self) -> (s: String)
        ensures
            s@ == self@.description(),
    {
        let mut s = "StockTransfer { id: ".to_owned();
        s.append(self.id.as_str());
        s.append(", from: ");
        s.append(self.from_location.0.as_str());
        s.append(", to: ");
        s.append(self.to_location.0.as_str());
        s.append(", status: ");
        s.append(self.status_name());
        s.append(", items: ");
        s.append(decimal_string(self.items.len() as u64).as_str());
        s.append(" }");
        s
    }
}

// ============================================================================
// SYNC OPERATIONS
// ============================================================================
/// External source type.
#[derive(Debug, Clone, Copy, PartialEq, Eq, Structural)]
pub enum ExternalSourceType {
    /// ERP system.
    Erp,
    /// Warehouse management system.
    Wms,
    /// Point of sale.
    Pos,
    /// Marketplace (Amazon, eBay, etc).
    Marketplace,
    /// Supplier/dropship.
    Supplier,
    /// Manual import.
    Manual,
}

/// Sync status.
#[derive(Debug, Clone, Copy, PartialEq, Eq, Structural)]
pub enum SyncStatus {
    /// Sync successful.
    Success,
    /// Sync failed.
    Failed,
    /// Sync in progress.
    InProgress,
    /// Sync partially successful.
    Partial,
}

/// External inventory source for synchronization.
#[derive(Debug)]
pub struct ExternalInventorySource {
    /// Source ID.
    pub id: String,
    /// Source name.
    pub name: String,
    /// Source type.
    pub source_type: ExternalSourceType,
    /// API endpoint URL.
    pub endpoint_url: Option<String>,
    /// Whether sync is enabled.
    pub sync_enabled: bool,
    /// Sync interval in seconds.
    pub sync_interval_secs: u64,
    /// Last successful sync.
    pub last_sync_at: Option<u64>,
    /// Last sync status.
    pub last_sync_status: Option<SyncStatus>,
}

/// The model of an [`ExternalInventorySource`].
pub ghost struct ExternalInventorySourceView {
    pub id: Seq<char>,
    pub name: Seq<char>,
    pub source_type: ExternalSourceType,
    pub endpoint_url: Option<Seq<char>>,
    pub sync_enabled: bool,
    pub sync_interval_secs: u64,
    pub last_sync_at: Option<u64>,
    pub last_sync_status: Option<SyncStatus>,
}

impl View for ExternalInventorySource {
    type V = ExternalInventorySourceView;

    open spec fn view(&self) -> ExternalInventorySourceView {
        ExternalInventorySourceView {
            id: self.id@,
            name: self.name@,
            source_type: self.source_type,
            endpoint_url: opt_view(self.endpoint_url),
            sync_enabled: self.sync_enabled,
            sync_interval_secs: self.sync_interval_secs,
            last_sync_at: self.last_sync_at,
            last_sync_status: self.last_sync_status,
        }
    }
}

impl Keyed for ExternalInventorySourceView {
    type Key = Seq<char>;

    open spec fn key(self) -> Seq<char> {
        self.id
    }
}

impl Clone for ExternalInventorySource {
    fn clone(&self) -> (r: Self)
        ensures
            r@ == self@,
    {
        ExternalInventorySource {
            id: self.id.clone(),
            name: self.name.clone(),
            source_type: self.source_type,
            endpoint_url: clone_opt(&self.endpoint_url),
            sync_enabled: self.sync_enabled,
            sync_interval_secs: self.sync_interval_secs,
            last_sync_at: self.last_sync_at,
            last_sync_status: self.last_sync_status,
        }
    }
}

/// Type of inventory change.
#[derive(Debug, Clone, Copy, PartialEq, Eq, Structural)]
pub enum InventoryChangeType {
    /// Set absolute quantity.
    Absolute,
    /// Increment quantity.
    Increment,
    /// Decrement quantity.
    Decrement,
}

/// Inventory change for sync.
#[derive(Debug, Clone)]
pub struct InventoryChange {
    /// Product ID (or external ID).
    pub product_id: String,
    /// SKU.
    pub sku: Option<Sku>,
    /// Location ID (or external ID).
    pub location_id: String,
    /// New quantity.
    pub quantity: i64,
    /// Change type.
    pub change_type: InventoryChangeType,
    /// Timestamp of change at source.
    pub source_timestamp: Option<u64>,
}

/// The model of an [`InventoryChange`].
pub ghost struct InventoryChangeView {
    pub product_id: Seq<char>,
    pub sku: Option<Seq<char>>,
    pub location_id: Seq<char>,
    pub quantity: i64,
    pub change_type: InventoryChangeType,
    pub source_timestamp: Option<u64>,
}

impl View for InventoryChange {
    type V = InventoryChangeView;

    open spec fn view(&self) -> InventoryChangeView {
        InventoryChangeView {
            product_id: self.product_id@,
            sku: opt_view(self.sku),
            location_id: self.location_id@,
            quantity: self.quantity,
            change_type: self.change_type,
            source_timestamp: self.source_timestamp,
        }
    }
}

/// Sync result.
#[derive(Debug, Clone)]
pub struct SyncResult {
    /// Source ID.
    pub source_id: String,
    /// Status.
    pub status: SyncStatus,
    /// Items processed.
    pub items_processed: u32,
    /// Items updated.
    pub items_updated: u32,
    /// Items failed.
    pub items_failed: u32,
    /// Error messages.
    pub errors: Vec<String>,
    /// Sync timestamp.
    pub synced_at: u64,
    /// Duration in milliseconds.
    pub duration_ms: u64,
}

} // verus!
