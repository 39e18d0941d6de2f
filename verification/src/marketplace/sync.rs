//! Synchronization of the marketplace catalog between peers.

use crate::clock::unix_seconds;
use crate::errors::MarketplaceError;
use crate::keyed::{find, position, position_found, position_is, put, Keyed};
use crate::marketplace::ListingId;
use crate::quantity::capped;
use crate::views::{clone_vec, seq_view, seq_view_push, seq_view_update};
use vstd::prelude::*;

verus! {

/// Catalog sync service result type.
pub type SyncResult<T> = Result<T, MarketplaceError>;

/// Status of catalog entry.
#[derive(Debug, Clone, Copy, PartialEq, Eq, Structural)]
pub enum EntryStatus {
    /// The entry is active.
    Active,
    /// The entry was deleted.
    Deleted,
    /// The entry awaits a manual resolution.
    Conflicted,
}

/// Conflict resolution strategy.
#[derive(Debug, Clone, Copy, PartialEq, Eq, Structural)]
pub enum ConflictResolution {
    /// Keep the local version.
    KeepLocal,
    /// Use the remote version.
    UseRemote,
    /// Take the version that was modified last.
    Merge,
    /// Leave the conflict to be resolved by hand.
    Manual,
}

/// Catalog entry with metadata.
#[derive(Debug)]
pub struct CatalogEntry {
    /// The listing.
    pub listing_id: ListingId,
    /// The hash of the content.
    pub content_hash: String,
    /// When the entry was modified last.
    pub last_modified: u64,
    /// The version of the entry.
    pub version: u64,
    /// The status of the entry.
    pub status: EntryStatus,
}

/// The model of a [`CatalogEntry`].
pub ghost struct CatalogEntryView {
    pub listing_id: Seq<char>,
    pub content_hash: Seq<char>,
    pub last_modified: u64,
    pub version: u64,
    pub status: EntryStatus,
}

impl View for CatalogEntry {
    type V = CatalogEntryView;

    open spec fn view(&self) -> CatalogEntryView {
        CatalogEntryView {
            listing_id: self.listing_id@,
            content_hash: self.content_hash@,
            last_modified: self.last_modified,
            version: self.version,
            status: self.status,
        }
    }
}

impl Clone for CatalogEntry {
    fn clone(&self) -> (r: Self)
        ensures
            r@ == self@,
    {
        CatalogEntry {
            listing_id: self.listing_id.clone(),
            content_hash: self.content_hash.clone(),
            last_modified: self.last_modified,
            version: self.version,
            status: self.status,
        }
    }
}

/// Peer catalog information. The reputation of the peer is kept apart from it.
#[derive(Debug)]
pub struct PeerCatalog {
    /// The peer.
    pub peer_id: String,
    /// When the catalog was fetched last.
    pub last_sync: u64,
    /// The number of listings of the peer.
    pub listings_count: usize,
    /// The hash of the catalog.
    pub catalog_hash: String,
}

/// The model of a [`PeerCatalog`].
pub ghost struct PeerCatalogView {
    pub peer_id: Seq<char>,
    pub last_sync: u64,
    pub listings_count: usize,
    pub catalog_hash: Seq<char>,
}

impl View for PeerCatalog {
    type V = PeerCatalogView;

    open spec fn view(&self) -> PeerCatalogView {
        PeerCatalogView {
            peer_id: self.peer_id@,
            last_sync: self.last_sync,
            listings_count: self.listings_count,
            catalog_hash: self.catalog_hash@,
        }
    }
}

impl Clone for PeerCatalog {
    fn clone(&self) -> (r: Self)
        ensures
            r@ == self@,
    {
        PeerCatalog {
            peer_id: self.peer_id.clone(),
            last_sync: self.last_sync,
            listings_count: self.listings_count,
            catalog_hash: self.catalog_hash.clone(),
        }
    }
}

/// Sync statistics.
#[derive(Debug, Clone, Copy, PartialEq, Eq, Structural)]
pub struct SyncStats {
    /// The number of listings synchronized.
    pub listings_synced: u64,
    /// The number of conflicts resolved.
    pub conflicts_resolved: u64,
    /// The number of peers discovered.
    pub peers_discovered: u64,
    /// The number of failures.
    pub sync_failures: u64,
}

impl Default for SyncStats {
    fn default() -> (r: Self)
        ensures
            r == (SyncStats {
                listings_synced: 0,
                conflicts_resolved: 0,
                peers_discovered: 0,
                sync_failures: 0,
            }),
    {
        SyncStats { listings_synced: 0, conflicts_resolved: 0, peers_discovered: 0, sync_failures: 0 }
    }
}

/// Current sync state.
#[derive(Debug)]
pub struct SyncState {
    /// When everything was synchronized last.
    pub last_full_sync: u64,
    /// The time up to which changes are known.
    pub sync_watermark: u64,
    /// The peers that are being synchronized with, each once.
    pub active_syncs: Vec<String>,
    /// The statistics.
    pub stats: SyncStats,
}

/// The model of a [`SyncState`].
pub ghost struct SyncStateView {
    pub last_full_sync: u64,
    pub sync_watermark: u64,
    pub active_syncs: Seq<Seq<char>>,
    pub stats: SyncStats,
}

impl View for SyncState {
    type V = SyncStateView;

    open spec fn view(&self) -> SyncStateView {
        SyncStateView {
            last_full_sync: self.last_full_sync,
            sync_watermark: self.sync_watermark,
            active_syncs: seq_view(self.active_syncs@),
            stats: self.stats,
        }
    }
}

impl Clone for SyncState {
    fn clone(&self) -> (r: Self)
        ensures
            r@ == self@,
    {
        SyncState {
            last_full_sync: self.last_full_sync,
            sync_watermark: self.sync_watermark,
            active_syncs: clone_vec(&self.active_syncs),
            stats: self.stats,
        }
    }
}

/// Conflict between local and remote entries.
#[derive(Debug)]
pub struct Conflict {
    /// The listing.
    pub listing_id: ListingId,
    /// The local entry.
    pub local_version: CatalogEntry,
    /// The entry of the peer.
    pub remote_version: CatalogEntry,
    /// How the conflict is resolved.
    pub resolution: ConflictResolution,
}

/// The model of a [`Conflict`].
pub ghost struct ConflictView {
    pub listing_id: Seq<char>,
    pub local_version: CatalogEntryView,
    pub remote_version: CatalogEntryView,
    pub resolution: ConflictResolution,
}

impl View for Conflict {
    type V = ConflictView;

    open spec fn view(&self) -> ConflictView {
        ConflictView {
            listing_id: self.listing_id@,
            local_version: self.local_version@,
            remote_version: self.remote_version@,
            resolution: self.resolution,
        }
    }
}

impl Clone for Conflict {
    fn clone(&self) -> (r: Self)
        ensures
            r@ == self@,
    {
        Conflict {
            listing_id: self.listing_id.clone(),
            local_version: self.local_version.clone(),
            remote_version: self.remote_version.clone(),
            resolution: self.resolution,
        }
    }
}

/// Sync operation types.
#[derive(Debug)]
pub enum SyncOperation {
    /// Fetch catalog from peer.
    FetchCatalog {
        /// The peer.
        peer_id: String,
    },
    /// Push local updates to peer.
    PushUpdates {
        /// The peer.
        peer_id: String,
        /// The updates.
        updates: Vec<CatalogEntry>,
    },
    /// Resolve conflicts.
    ResolveConflicts {
        /// The conflicts.
        conflicts: Vec<Conflict>,
    },
    /// Merge catalogs.
    MergeCatalogs {
        /// The peer that the entries come from.
        source_peer: String,
        /// The entries.
        entries: Vec<CatalogEntry>,
    },
}

/// The model of a [`SyncOperation`].
pub ghost enum SyncOperationView {
    FetchCatalog { peer_id: Seq<char> },
    PushUpdates { peer_id: Seq<char>, updates: Seq<CatalogEntryView> },
    ResolveConflicts { conflicts: Seq<ConflictView> },
    MergeCatalogs { source_peer: Seq<char>, entries: Seq<CatalogEntryView> },
}

impl View for SyncOperation {
    type V = SyncOperationView;

    open spec fn view(&self) -> SyncOperationView {
        match self {
            SyncOperation::FetchCatalog { peer_id } => SyncOperationView::FetchCatalog {
                peer_id: peer_id@,
            },
            SyncOperation::PushUpdates { peer_id, updates } => SyncOperationView::PushUpdates {
                peer_id: peer_id@,
                updates: seq_view(updates@),
            },
            SyncOperation::ResolveConflicts { conflicts } => SyncOperationView::ResolveConflicts {
                conflicts: seq_view(conflicts@),
            },
            SyncOperation::MergeCatalogs { source_peer, entries } => {
                SyncOperationView::MergeCatalogs {
                    source_peer: source_peer@,
                    entries: seq_view(entries@),
                }
            },
        }
    }
}

impl Clone for SyncOperation {
    fn clone(&self) -> (r: Self)
        ensures
            r@ == self@,
    {
        match self {
            SyncOperation::FetchCatalog { peer_id } => SyncOperation::FetchCatalog {
                peer_id: peer_id.clone(),
            },
            SyncOperation::PushUpdates { peer_id, updates } => SyncOperation::PushUpdates {
                peer_id: peer_id.clone(),
                updates: clone_vec(updates),
            },
            SyncOperation::ResolveConflicts { conflicts } => SyncOperation::ResolveConflicts {
                conflicts: clone_vec(conflicts),
            },
            SyncOperation::MergeCatalogs { source_peer, entries } => SyncOperation::MergeCatalogs {
                source_peer: source_peer.clone(),
                entries: clone_vec(entries),
            },
        }
    }
}

impl Keyed for CatalogEntryView {
    type Key = Seq<char>;

    open spec fn key(self) -> Seq<char> {
        self.listing_id
    }
}

impl Keyed for PeerCatalogView {
    type Key = Seq<char>;

    open spec fn key(self) -> Seq<char> {
        self.peer_id
    }
}

// ============================================================================
// THE MODEL
// ============================================================================
/// The model of the sync service.
pub ghost struct CatalogSyncView {
    pub local_catalog: Seq<CatalogEntryView>,
    pub peer_catalogs: Seq<PeerCatalogView>,
    pub sync_state: SyncStateView,
    pub pending_ops: Seq<SyncOperationView>,
}

/// A count raised by `by`, up to the bound of `u64`.
pub open spec fn raised(count: u64, by: int) -> u64 {
    capped(count + by)
}

/// The outcome of merging entries of a peer: the local catalog after it,
/// and the conflicts found.
pub ghost struct Merging {
    pub local_catalog: Seq<CatalogEntryView>,
    pub conflicts: Seq<ConflictView>,
}

/// Merging the first `n` entries of a peer. An entry of a listing that the
/// local catalog lacks is taken. One that differs from the local entry both
/// in version and in modification time is a conflict, to be resolved by
/// taking the later one. Any other is taken if it was modified later.
pub open spec fn merging(local_catalog: Seq<CatalogEntryView>, entries: Seq<CatalogEntryView>, n: nat)
    -> Merging
    decreases n,
{
    if n == 0 {
        Merging { local_catalog, conflicts: Seq::empty() }
    } else {
        let so_far = merging(local_catalog, entries, (n - 1) as nat);
        let entry = entries[n - 1];
        match find(so_far.local_catalog, entry.listing_id) {
            None => Merging { local_catalog: put(so_far.local_catalog, entry), ..so_far },
            Some(local) => if local.version != entry.version && local.last_modified
                != entry.last_modified {
                Merging {
                    conflicts: so_far.conflicts.push(
                        ConflictView {
                            listing_id: entry.listing_id,
                            local_version: local,
                            remote_version: entry,
                            resolution: ConflictResolution::Merge,
                        },
                    ),
                    ..so_far
                }
            } else if entry.last_modified > local.last_modified {
                Merging { local_catalog: put(so_far.local_catalog, entry), ..so_far }
            } else {
                so_far
            },
        }
    }
}

/// The entry that a conflict is resolved to, if the local catalog changes:
/// the remote version, the version modified last, or the local version
/// marked as conflicted. It is stored under the listing of the conflict.
pub open spec fn resolution_of(conflict: ConflictView) -> Option<CatalogEntryView> {
    match conflict.resolution {
        ConflictResolution::KeepLocal => None,
        ConflictResolution::UseRemote => Some(conflict.remote_version),
        ConflictResolution::Merge => Some(
            if conflict.remote_version.last_modified > conflict.local_version.last_modified {
                conflict.remote_version
            } else {
                conflict.local_version
            },
        ),
        ConflictResolution::Manual => Some(
            CatalogEntryView { status: EntryStatus::Conflicted, ..conflict.local_version },
        ),
    }
}

/// The table with an entry stored under a key of its own choosing: in the
/// place of the first entry of that listing, or at the end.
pub open spec fn stored_under(
    local_catalog: Seq<CatalogEntryView>,
    listing_id: Seq<char>,
    entry: CatalogEntryView,
) -> Seq<CatalogEntryView> {
    if position(local_catalog, listing_id) < local_catalog.len() {
        local_catalog.update(position(local_catalog, listing_id), entry)
    } else {
        local_catalog.push(entry)
    }
}

/// The outcome of resolving conflicts: the local catalog after it, and how
/// many conflicts counted as resolved.
pub ghost struct Resolving {
    pub local_catalog: Seq<CatalogEntryView>,
    pub resolved: nat,
}

/// Resolving the first `n` conflicts. A conflict that keeps the local
/// version changes nothing and is not counted.
pub open spec fn resolving(local_catalog: Seq<CatalogEntryView>, conflicts: Seq<ConflictView>, n: nat)
    -> Resolving
    decreases n,
{
    if n == 0 {
        Resolving { local_catalog, resolved: 0 }
    } else {
        let so_far = resolving(local_catalog, conflicts, (n - 1) as nat);
        match resolution_of(conflicts[n - 1]) {
            None => so_far,
            Some(entry) => Resolving {
                local_catalog: stored_under(
                    so_far.local_catalog,
                    conflicts[n - 1].listing_id,
                    entry,
                ),
                resolved: so_far.resolved + 1,
            },
        }
    }
}

impl CatalogSyncView {
    /// The service without entries, peers and operations.
    pub open spec fn empty() -> Self {
        CatalogSyncView {
            local_catalog: Seq::empty(),
            peer_catalogs: Seq::empty(),
            sync_state: SyncStateView {
                last_full_sync: 0,
                sync_watermark: 0,
                active_syncs: Seq::empty(),
                stats: SyncStats {
                    listings_synced: 0,
                    conflicts_resolved: 0,
                    peers_discovered: 0,
                    sync_failures: 0,
                },
            },
            pending_ops: Seq::empty(),
        }
    }

    /// The service with other statistics.
    pub open spec fn with_stats(self, stats: SyncStats) -> Self {
        CatalogSyncView { sync_state: SyncStateView { stats, ..self.sync_state }, ..self }
    }

    /// The service after the catalog of a peer was fetched at the time
    /// `now`: a peer that is known is stamped, and a merge of what was
    /// fetched, which is nothing, is scheduled.
    pub open spec fn fetched(self, peer_id: Seq<char>, now: u64) -> Self {
        match find(self.peer_catalogs, peer_id) {
            None => self,
            Some(peer) => CatalogSyncView {
                peer_catalogs: put(self.peer_catalogs, PeerCatalogView { last_sync: now, ..peer }),
                pending_ops: self.pending_ops.push(
                    SyncOperationView::MergeCatalogs {
                        source_peer: peer_id,
                        entries: Seq::empty(),
                    },
                ),
                ..self
            },
        }
    }

    /// The service after entries of a peer were merged: the conflicts
    /// found, if any, are scheduled to be resolved, and the entries are
    /// counted as synchronized.
    pub open spec fn merged(self, entries: Seq<CatalogEntryView>) -> Self {
        let outcome = merging(self.local_catalog, entries, entries.len());
        (CatalogSyncView {
            local_catalog: outcome.local_catalog,
            pending_ops: if outcome.conflicts.len() > 0 {
                self.pending_ops.push(
                    SyncOperationView::ResolveConflicts { conflicts: outcome.conflicts },
                )
            } else {
                self.pending_ops
            },
            ..self
        }).with_stats(
            SyncStats {
                listings_synced: raised(self.sync_state.stats.listings_synced, entries.len() as int),
                ..self.sync_state.stats
            },
        )
    }

    /// The service after conflicts were resolved.
    pub open spec fn resolved(self, conflicts: Seq<ConflictView>) -> Self {
        let outcome = resolving(self.local_catalog, conflicts, conflicts.len());
        (CatalogSyncView { local_catalog: outcome.local_catalog, ..self }).with_stats(
            SyncStats {
                conflicts_resolved: raised(
                    self.sync_state.stats.conflicts_resolved,
                    outcome.resolved as int,
                ),
                ..self.sync_state.stats
            },
        )
    }

    /// The service after the operation scheduled last was taken up at the
    /// time `now`.
    pub open spec fn stepped(self, now: u64) -> Self {
        let rest = CatalogSyncView { pending_ops: self.pending_ops.drop_last(), ..self };
        match self.pending_ops.last() {
            SyncOperationView::FetchCatalog { peer_id } => rest.fetched(peer_id, now),
            SyncOperationView::PushUpdates { peer_id, updates } => rest,
            SyncOperationView::ResolveConflicts { conflicts } => rest.resolved(conflicts),
            SyncOperationView::MergeCatalogs { source_peer, entries } => rest.merged(entries),
        }
    }

    /// The service after `steps` operations were taken up at the time
    /// `now`, or fewer if none was left.
    pub open spec fn run(self, now: u64, steps: nat) -> Self
        decreases steps,
    {
        if steps == 0 || self.pending_ops.len() == 0 {
            self
        } else {
            self.stepped(now).run(now, (steps - 1) as nat)
        }
    }

    /// The number of operations taken up when up to `steps` are.
    pub open spec fn taken(self, now: u64, steps: nat) -> nat
        decreases steps,
    {
        if steps == 0 || self.pending_ops.len() == 0 {
            0
        } else {
            1 + self.stepped(now).taken(now, (steps - 1) as nat)
        }
    }
}

/// The work that an operation stands for: itself, and what it may schedule.
pub open spec fn work_of(op: SyncOperationView) -> nat {
    match op {
        SyncOperationView::FetchCatalog { peer_id } => 3,
        SyncOperationView::MergeCatalogs { source_peer, entries } => 2,
        SyncOperationView::PushUpdates { peer_id, updates } => 1,
        SyncOperationView::ResolveConflicts { conflicts } => 1,
    }
}

/// The work that the first `n` operations stand for.
pub open spec fn work(ops: Seq<SyncOperationView>, n: nat) -> nat
    decreases n,
{
    if n == 0 {
        0
    } else {
        work(ops, (n - 1) as nat) + work_of(ops[n - 1])
    }
}

/// The work of operations depends on them alone.
pub proof fn work_of_prefix(a: Seq<SyncOperationView>, b: Seq<SyncOperationView>, n: nat)
    requires
        n <= a.len(),
        n <= b.len(),
        forall|i: int| 0 <= i < n ==> a[i] == b[i],
    ensures
        work(a, n) == work(b, n),
    decreases n,
{
    if n > 0 {
        work_of_prefix(a, b, (n - 1) as nat);
    }
}

/// Taking up an operation leaves less work.
pub proof fn step_leaves_less_work(view: CatalogSyncView, now: u64)
    requires
        view.pending_ops.len() > 0,
    ensures
        work(view.stepped(now).pending_ops, view.stepped(now).pending_ops.len()) < work(
            view.pending_ops,
            view.pending_ops.len(),
        ),
{
    let ops = view.pending_ops;
    let rest = ops.drop_last();
    let after = view.stepped(now).pending_ops;
    work_of_prefix(ops, rest, rest.len());
    if after.len() > rest.len() {
        work_of_prefix(after, rest, rest.len());
    } else {
        assert(after =~= rest);
    }
}

// ============================================================================
// THE SERVICE
// ============================================================================
/// P2P catalog synchronization service.
#[derive(Debug)]
pub struct P2PCatalogSync {
    /// Local catalog entries, at most one for a listing.
    local_catalog: Vec<CatalogEntry>,
    /// Remote peer catalogs, at most one for a peer.
    peer_catalogs: Vec<PeerCatalog>,
    /// Sync state tracking.
    sync_state: SyncState,
    /// Pending sync operations; the one scheduled last is taken up first.
    pending_ops: Vec<SyncOperation>,
}

impl View for P2PCatalogSync {
    type V = CatalogSyncView;

    closed spec fn view(&self) -> CatalogSyncView {
        CatalogSyncView {
            local_catalog: seq_view(self.local_catalog@),
            peer_catalogs: seq_view(self.peer_catalogs@),
            sync_state: self.sync_state@,
            pending_ops: seq_view(self.pending_ops@),
        }
    }
}

impl P2PCatalogSync {
    /// Create new P2P catalog sync service.
    pub fn new() -> (r: SyncResult<Self>)
        ensures
            r is Ok,
            r->Ok_0@ == CatalogSyncView::empty(),
    {
        Ok(P2PCatalogSync::default())
    }

    /// The place of the entry of a listing, or the number of entries.
    fn entry_index(&self, listing_id: &ListingId) -> (i: usize)
        ensures
            i == position(self@.local_catalog, listing_id@),
            i <= self.local_catalog.len(),
    {
        let mut i: usize = 0;
        while i < self.local_catalog.len()
            invariant
                i <= self.local_catalog.len(),
                forall|j: int| 0 <= j < i ==> seq_view(self.local_catalog@)[j].key() != listing_id@,
            decreases self.local_catalog.len() - i,
        {
            if self.local_catalog[i].listing_id == *listing_id {
                proof {
                    position_is(self@.local_catalog, listing_id@, i as int);
                }
                return i;
            }
            i += 1;
        }
        proof {
            position_is(self@.local_catalog, listing_id@, i as int);
        }
        i
    }

    /// The place of a peer, or the number of peers.
    fn peer_index(&self, peer_id: &String) -> (i: usize)
        ensures
            i == position(self@.peer_catalogs, peer_id@),
            i <= self.peer_catalogs.len(),
    {
        let mut i: usize = 0;
        while i < self.peer_catalogs.len()
            invariant
                i <= self.peer_catalogs.len(),
                forall|j: int| 0 <= j < i ==> seq_view(self.peer_catalogs@)[j].key() != peer_id@,
            decreases self.peer_catalogs.len() - i,
        {
            if self.peer_catalogs[i].peer_id == *peer_id {
                proof {
                    position_is(self@.peer_catalogs, peer_id@, i as int);
                }
                return i;
            }
            i += 1;
        }
        proof {
            position_is(self@.peer_catalogs, peer_id@, i as int);
        }
        i
    }

    /// Stores an entry under a listing: in the place of the first entry of
    /// that listing, or at the end.
    fn store_under(&mut self, listing_id: &ListingId, entry: CatalogEntry)
        ensures
            final(self)@ == (CatalogSyncView {
                local_catalog: stored_under(old(self)@.local_catalog, listing_id@, entry@),
                ..old(self)@
            }),
    {
        let i = self.entry_index(listing_id);
        if i < self.local_catalog.len() {
            proof {
                seq_view_update(self.local_catalog@, i as int, entry);
            }
            self.local_catalog[i] = entry;
        } else {
            proof {
                seq_view_push(self.local_catalog@, entry);
            }
            self.local_catalog.push(entry);
        }
    }

    /// Add local catalog entry, in the place of the entry of its listing
    /// if there is one.
    pub fn add_local_entry(&mut self, entry: CatalogEntry) -> (r: SyncResult<()>)
        ensures
            r is Ok,
            final(self)@ == (CatalogSyncView {
                local_catalog: put(old(self)@.local_catalog, entry@),
                ..old(self)@
            }),
    {
        let listing_id = entry.listing_id.clone();
        self.store_under(&listing_id, entry);
        Ok(())
    }

    /// Remove local catalog entry at the time `now`: the entry of the
    /// listing, if there is one, is marked as deleted, stamped, and its
    /// version raised, up to the bound of `u64`.
    pub fn remove_local_entry_at(&mut self, listing_id: &ListingId, now: u64) -> (r: SyncResult<()>)
        ensures
            r is Ok,
            final(self)@ == (match find(old(self)@.local_catalog, listing_id@) {
                None => old(self)@,
                Some(entry) => CatalogSyncView {
                    local_catalog: put(
                        old(self)@.local_catalog,
                        CatalogEntryView {
                            status: EntryStatus::Deleted,
                            last_modified: now,
                            version: raised(entry.version, 1),
                            ..entry
                        },
                    ),
                    ..old(self)@
                },
            }),
    {
        proof {
            position_found(self@.local_catalog, listing_id@);
        }
        let i = self.entry_index(listing_id);
        if i < self.local_catalog.len() {
            let mut entry = self.local_catalog[i].clone();
            entry.status = EntryStatus::Deleted;
            entry.last_modified = now;
            entry.version = entry.version.saturating_add(1);
            proof {
                seq_view_update(self.local_catalog@, i as int, entry);
            }
            self.local_catalog[i] = entry;
        }
        Ok(())
    }

    /// Remove local catalog entry by the clock.
    pub fn remove_local_entry(&mut self, listing_id: &ListingId) -> (r: SyncResult<()>)
        ensures
            r is Ok,
            exists|now: u64| final(self)@ == #[trigger] old(self)@.without_entry(listing_id@, now),
    {
        let now = unix_seconds();
        let r = self.remove_local_entry_at(listing_id, now);
        assert(self@ == old(self)@.without_entry(listing_id@, now));
        r
    }

    /// Discover peer catalog: the peer is entered, in the place of what was
    /// known of it, counted, and the fetch of its catalog is scheduled.
    pub fn discover_peer(&mut self, peer_id: String, catalog_hash: String) -> (r: SyncResult<()>)
        ensures
            r is Ok,
            final(self)@ == (CatalogSyncView {
                peer_catalogs: put(
                    old(self)@.peer_catalogs,
                    PeerCatalogView {
                        peer_id: peer_id@,
                        last_sync: 0,
                        listings_count: 0,
                        catalog_hash: catalog_hash@,
                    },
                ),
                pending_ops: old(self)@.pending_ops.push(
                    SyncOperationView::FetchCatalog { peer_id: peer_id@ },
                ),
                ..old(self)@
            }).with_stats(
                SyncStats {
                    peers_discovered: raised(old(self)@.sync_state.stats.peers_discovered, 1),
                    ..old(self)@.sync_state.stats
                },
            ),
    {
        let peer_catalog = PeerCatalog {
            peer_id: peer_id.clone(),
            last_sync: 0,
            listings_count: 0,
            catalog_hash,
        };
        let i = self.peer_index(&peer_id);
        if i < self.peer_catalogs.len() {
            proof {
                seq_view_update(self.peer_catalogs@, i as int, peer_catalog);
            }
            self.peer_catalogs[i] = peer_catalog;
        } else {
            proof {
                seq_view_push(self.peer_catalogs@, peer_catalog);
            }
            self.peer_catalogs.push(peer_catalog);
        }
        self.sync_state.stats.peers_discovered =
            self.sync_state.stats.peers_discovered.saturating_add(1);
        let op = SyncOperation::FetchCatalog { peer_id };
        proof {
            seq_view_push(self.pending_ops@, op);
        }
        self.pending_ops.push(op);
        Ok(())
    }

    /// Process pending sync operations at the time `now`, the one scheduled
    /// last first, until none is left. Returns the outcome of each.
    pub fn process_pending_ops_at(&mut self, now: u64) -> (r: SyncResult<Vec<SyncResult<()>>>)
        ensures
            r is Ok,
            final(self)@.pending_ops.len() == 0,
            ({
                let steps = work(old(self)@.pending_ops, old(self)@.pending_ops.len());
                &&& final(self)@ == old(self)@.run(now, steps)
                &&& r->Ok_0@.len() == old(self)@.taken(now, steps)
                &&& forall|i: int| 0 <= i < r->Ok_0@.len() ==> (#[trigger] r->Ok_0@[i]) is Ok
            }),
    {
        let mut results: Vec<SyncResult<()>> = Vec::new();
        let ghost start = self@;
        let ghost steps = work(start.pending_ops, start.pending_ops.len());
        while self.pending_ops.len() > 0
            invariant
                start == old(self)@,
                steps == work(start.pending_ops, start.pending_ops.len()),
                self@.run(now, work(self@.pending_ops, self@.pending_ops.len())) == start.run(
                    now,
                    steps,
                ),
                results@.len() + self@.taken(
                    now,
                    work(self@.pending_ops, self@.pending_ops.len()),
                ) == start.taken(now, steps),
                forall|i: int| 0 <= i < results@.len() ==> (#[trigger] results@[i]) is Ok,
            decreases work(self@.pending_ops, self@.pending_ops.len()),
        {
            let ghost before = self@;
            proof {
                step_leaves_less_work(before, now);
                enough_steps(
                    before.stepped(now),
                    now,
                    (work(before.pending_ops, before.pending_ops.len()) - 1) as nat,
                );
            }
            let op = match self.pending_ops.pop() {
                Some(op) => op,
                None => {
                    return Ok(results);
                },
            };
            assert(seq_view(self.pending_ops@) =~= before.pending_ops.drop_last());
            assert(op@ == before.pending_ops.last());
            let result = match op {
                SyncOperation::FetchCatalog { peer_id } => self.fetch_catalog_from_peer(
                    peer_id.as_str(),
                    now,
                ),
                SyncOperation::PushUpdates { peer_id, updates } => self.push_updates_to_peer(
                    peer_id.as_str(),
                    updates,
                ),
                SyncOperation::ResolveConflicts { conflicts } => self.resolve_conflicts(conflicts),
                SyncOperation::MergeCatalogs { source_peer, entries } => {
                    self.merge_catalog_from_peer(source_peer.as_str(), entries)
                },
            };
            assert(self@ == before.stepped(now));
            results.push(result);
        }
        Ok(results)
    }

    /// Process pending sync operations by the clock.
    pub fn process_pending_ops(&mut self) -> (r: SyncResult<Vec<SyncResult<()>>>)
        ensures
            r is Ok,
            final(self)@.pending_ops.len() == 0,
            exists|now: u64|
                final(self)@ == #[trigger] old(self)@.run(
                    now,
                    work(old(self)@.pending_ops, old(self)@.pending_ops.len()),
                ),
    {
        let now = unix_seconds();
        self.process_pending_ops_at(now)
    }

    /// Fetch catalog from a specific peer.
    fn fetch_catalog_from_peer(&mut self, peer_id: &str, now: u64) -> (r: SyncResult<()>)
        ensures
            r is Ok,
            final(self)@ == old(self)@.fetched(peer_id@, now),
    {
        proof {
            position_found(self@.peer_catalogs, peer_id@);
        }
        let wanted = peer_id.to_owned();
        let i = self.peer_index(&wanted);
        if i < self.peer_catalogs.len() {
            let mut peer = self.peer_catalogs[i].clone();
            peer.last_sync = now;
            proof {
                seq_view_update(self.peer_catalogs@, i as int, peer);
            }
            self.peer_catalogs[i] = peer;
            let entries: Vec<CatalogEntry> = Vec::new();
            assert(seq_view(entries@) =~= Seq::<CatalogEntryView>::empty());
            let op = SyncOperation::MergeCatalogs { source_peer: wanted, entries };
            proof {
                seq_view_push(self.pending_ops@, op);
            }
            self.pending_ops.push(op);
        }
        Ok(())
    }

    /// Push updates to a peer, which is left to the network.
    fn push_updates_to_peer(&mut self, _peer_id: &str, _updates: Vec<CatalogEntry>) -> (r:
        SyncResult<()>)
        ensures
            r is Ok,
            final(self)@ == old(self)@,
    {
        Ok(())
    }

    /// Resolve conflicts.
    pub fn resolve_conflicts(&mut self, conflicts: Vec<Conflict>) -> (r: SyncResult<()>)
        ensures
            r is Ok,
            final(self)@ == old(self)@.resolved(seq_view(conflicts@)),
    {
        let ghost before = self@;
        let ghost all = seq_view(conflicts@);
        let mut resolved: u64 = 0;
        let mut i: usize = 0;
        while i < conflicts.len()
            invariant
                i <= conflicts.len(),
                all == seq_view(conflicts@),
                resolved == capped(resolving(before.local_catalog, all, i as nat).resolved as int),
                self@ == (CatalogSyncView {
                    local_catalog: resolving(before.local_catalog, all, i as nat).local_catalog,
                    ..before
                }),
            decreases conflicts.len() - i,
        {
            let conflict = &conflicts[i];
            match conflict.resolution {
                ConflictResolution::KeepLocal => {},
                ConflictResolution::UseRemote => {
                    self.store_under(&conflict.listing_id, conflict.remote_version.clone());
                    resolved = resolved.saturating_add(1);
                },
                ConflictResolution::Merge => {
                    let merged = if conflict.remote_version.last_modified
                        > conflict.local_version.last_modified {
                        conflict.remote_version.clone()
                    } else {
                        conflict.local_version.clone()
                    };
                    self.store_under(&conflict.listing_id, merged);
                    resolved = resolved.saturating_add(1);
                },
                ConflictResolution::Manual => {
                    let mut conflicted_entry = conflict.local_version.clone();
                    conflicted_entry.status = EntryStatus::Conflicted;
                    self.store_under(&conflict.listing_id, conflicted_entry);
                    resolved = resolved.saturating_add(1);
                },
            }
            i += 1;
        }
        self.sync_state.stats.conflicts_resolved =
            self.sync_state.stats.conflicts_resolved.saturating_add(resolved);
        Ok(())
    }

    /// Merge catalog from peer.
    pub fn merge_catalog_from_peer(&mut self, _source_peer: &str, entries: Vec<CatalogEntry>) -> (r:
        SyncResult<()>)
        ensures
            r is Ok,
            final(self)@ == old(self)@.merged(seq_view(entries@)),
    {
        let ghost before = self@;
        let ghost all = seq_view(entries@);
        let entries_count = entries.len() as u64;
        let mut conflicts: Vec<Conflict> = Vec::new();
        assert(seq_view(conflicts@) =~= Seq::<ConflictView>::empty());
        let mut i: usize = 0;
        while i < entries.len()
            invariant
                i <= entries.len(),
                all == seq_view(entries@),
                seq_view(conflicts@) == merging(before.local_catalog, all, i as nat).conflicts,
                self@ == (CatalogSyncView {
                    local_catalog: merging(before.local_catalog, all, i as nat).local_catalog,
                    ..before
                }),
            decreases entries.len() - i,
        {
            let entry = entries[i].clone();
            proof {
                position_found(self@.local_catalog, entry@.listing_id);
            }
            let at = self.entry_index(&entry.listing_id);
            if at < self.local_catalog.len() {
                let local_entry = &self.local_catalog[at];
                if local_entry.version != entry.version && local_entry.last_modified
                    != entry.last_modified {
                    let conflict = Conflict {
                        listing_id: entry.listing_id.clone(),
                        local_version: local_entry.clone(),
                        remote_version: entry,
                        resolution: ConflictResolution::Merge,
                    };
                    proof {
                        seq_view_push(conflicts@, conflict);
                    }
                    conflicts.push(conflict);
                } else if entry.last_modified > local_entry.last_modified {
                    let listing_id = entry.listing_id.clone();
                    self.store_under(&listing_id, entry);
                }
            } else {
                let listing_id = entry.listing_id.clone();
                self.store_under(&listing_id, entry);
            }
            i += 1;
        }
        if conflicts.len() > 0 {
            let op = SyncOperation::ResolveConflicts { conflicts };
            proof {
                seq_view_push(self.pending_ops@, op);
            }
            self.pending_ops.push(op);
        }
        self.sync_state.stats.listings_synced =
            self.sync_state.stats.listings_synced.saturating_add(entries_count);
        Ok(())
    }

    /// Get sync statistics.
    pub fn get_sync_stats(&self) -> (r: &SyncStats)
        ensures
            *r == self@.sync_state.stats,
    {
        &self.sync_state.stats
    }

    /// Get local catalog.
    pub fn get_local_catalog(&self) -> (r: &Vec<CatalogEntry>)
        ensures
            seq_view(r@) == self@.local_catalog,
    {
        &self.local_catalog
    }

    /// Get active peers.
    pub fn get_active_peers(&self) -> (r: &Vec<PeerCatalog>)
        ensures
            seq_view(r@) == self@.peer_catalogs,
    {
        &self.peer_catalogs
    }
}

impl CatalogSyncView {
    /// The service after the entry of a listing was removed at the time
    /// `now`.
    pub open spec fn without_entry(self, listing_id: Seq<char>, now: u64) -> Self {
        match find(self.local_catalog, listing_id) {
            None => self,
            Some(entry) => CatalogSyncView {
                local_catalog: put(
                    self.local_catalog,
                    CatalogEntryView {
                        status: EntryStatus::Deleted,
                        last_modified: now,
                        version: raised(entry.version, 1),
                        ..entry
                    },
                ),
                ..self
            },
        }
    }
}

/// With as many steps as there is work, all operations are taken up; more
/// steps change nothing.
pub proof fn enough_steps(view: CatalogSyncView, now: u64, steps: nat)
    requires
        steps >= work(view.pending_ops, view.pending_ops.len()),
    ensures
        view.run(now, steps) == view.run(now, work(view.pending_ops, view.pending_ops.len())),
        view.taken(now, steps) == view.taken(
            now,
            work(view.pending_ops, view.pending_ops.len()),
        ),
        view.run(now, steps).pending_ops.len() == 0,
    decreases steps,
{
    let needed = work(view.pending_ops, view.pending_ops.len());
    if view.pending_ops.len() == 0 {
    } else {
        assert(needed >= 1) by {
            assert(work_of(view.pending_ops[view.pending_ops.len() - 1]) >= 1);
        }
        step_leaves_less_work(view, now);
        enough_steps(view.stepped(now), now, (steps - 1) as nat);
        enough_steps(view.stepped(now), now, (needed - 1) as nat);
    }
}

impl Default for P2PCatalogSync {
    fn default() -> (r: Self)
        ensures
            r@ == CatalogSyncView::empty(),
    {
        let local_catalog: Vec<CatalogEntry> = Vec::new();
        let peer_catalogs: Vec<PeerCatalog> = Vec::new();
        let pending_ops: Vec<SyncOperation> = Vec::new();
        let active_syncs: Vec<String> = Vec::new();
        proof {
            assert(seq_view(local_catalog@) =~= Seq::<CatalogEntryView>::empty());
            assert(seq_view(peer_catalogs@) =~= Seq::<PeerCatalogView>::empty());
            assert(seq_view(pending_ops@) =~= Seq::<SyncOperationView>::empty());
            assert(seq_view(active_syncs@) =~= Seq::<Seq<char>>::empty());
        }
        P2PCatalogSync {
            local_catalog,
            peer_catalogs,
            sync_state: SyncState {
                last_full_sync: 0,
                sync_watermark: 0,
                active_syncs,
                stats: SyncStats::default(),
            },
            pending_ops,
        }
    }
}

} // verus!
