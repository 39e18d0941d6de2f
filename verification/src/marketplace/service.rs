//! The marketplace service: listings, their indices, and the sellers.

use crate::errors::{MarketplaceError, MarketplaceErrorView};
use crate::keyed::{find, found_under, position, position_found, position_is, put, Keyed};
use crate::marketplace::delivery::refused_with;
use crate::marketplace::escrow::EscrowManager;
use crate::marketplace::orders;
use crate::marketplace::reviews::{Review, SellerProfile, SellerProfileView};
use crate::marketplace::search::{
    query_terms, CategoryPosting, PostingView, SearchIndex, SearchIndexView, TextPosting,
};
use crate::marketplace::{
    ListingCategory, ListingId, MarketplaceListing, MarketplaceListingView, MarketplaceResult,
    Pagination, SearchFilters, SearchResults,
};
use crate::quantity::capped_u32;
use crate::text::{chars_of, is_whitespace, whitespace};
use crate::views::{clone_vec, seq_view, seq_view_push, seq_view_update};
use std::sync::Arc;
use vstd::prelude::*;

verus! {

/// The payment service that the marketplace is connected to.
#[derive(Debug)]
pub struct VcsPaymentService;

impl Keyed for MarketplaceListingView {
    type Key = Seq<char>;

    open spec fn key(self) -> Seq<char> {
        self.id
    }
}

impl Keyed for SellerProfileView {
    type Key = Seq<char>;

    open spec fn key(self) -> Seq<char> {
        self.node_id
    }
}

/// The model of the marketplace service.
pub ghost struct MarketView {
    pub listings: Seq<MarketplaceListingView>,
    pub listings_by_seller: Seq<PostingView<Seq<char>>>,
    pub listings_by_category: Seq<PostingView<ListingCategory>>,
    pub sellers: Seq<SellerProfileView>,
    pub search_index: SearchIndexView,
}

/// Whether a text is blank: it has no character that is no whitespace.
pub open spec fn blank(text: Seq<char>) -> bool {
    forall|i: int| 0 <= i < text.len() ==> whitespace(#[trigger] text[i])
}

/// Whether a listing can be published: its title and its description say
/// something.
pub open spec fn publishable(listing: MarketplaceListingView) -> bool {
    !blank(listing.title) && !blank(listing.description)
}

/// The list under a key with one more listing at its end.
pub open spec fn listed<K>(index: Seq<PostingView<K>>, key: K, id: Seq<char>) -> Seq<PostingView<K>> {
    put(
        index,
        PostingView {
            key,
            ids: (match find(index, key) {
                Some(posting) => posting.ids,
                None => Seq::empty(),
            }).push(id),
        },
    )
}

/// The items from `offset` on, no more than `limit` of them.
pub open spec fn window<T>(items: Seq<T>, offset: usize, limit: usize) -> Seq<T> {
    if offset >= items.len() {
        Seq::empty()
    } else if offset + limit >= items.len() {
        items.skip(offset as int)
    } else {
        items.subrange(offset as int, offset + limit)
    }
}

impl MarketView {
    /// The marketplace after a listing of a seller was created: the listing
    /// is entered under its seller and its category and in the search
    /// index, stored, and counted on the profile of the seller.
    pub open spec fn with_listing(self, seller: Seq<char>, listing: MarketplaceListingView) -> Self {
        MarketView {
            listings: put(self.listings, listing),
            listings_by_seller: listed(self.listings_by_seller, seller, listing.id),
            listings_by_category: listed(self.listings_by_category, listing.category, listing.id),
            sellers: match find(self.sellers, seller) {
                Some(profile) => put(
                    self.sellers,
                    SellerProfileView {
                        active_listings: capped_u32(profile.active_listings + 1),
                        ..profile
                    },
                ),
                None => self.sellers,
            },
            search_index: self.search_index.indexed(listing),
        }
    }
}

/// Marketplace service.
#[derive(Debug)]
pub struct MarketplaceService {
    /// All active listings.
    listings: Vec<MarketplaceListing>,
    /// Listings by seller.
    listings_by_seller: Vec<TextPosting>,
    /// Listings by category.
    listings_by_category: Vec<CategoryPosting>,
    /// Orders.
    orders: Vec<orders::Order>,
    /// What buyers wrote of listings.
    reviews: Vec<Review>,
    /// Seller profiles.
    sellers: Vec<SellerProfile>,
    /// Payment service integration.
    payment_service: Arc<VcsPaymentService>,
    /// Search index.
    search_index: SearchIndex,
    /// Escrow manager.
    escrow_manager: EscrowManager,
}

impl View for MarketplaceService {
    type V = MarketView;

    closed spec fn view(&self) -> MarketView {
        MarketView {
            listings: seq_view(self.listings@),
            listings_by_seller: seq_view(self.listings_by_seller@),
            listings_by_category: seq_view(self.listings_by_category@),
            sellers: seq_view(self.sellers@),
            search_index: self.search_index@,
        }
    }
}

/// Whether a text is blank.
fn is_blank(text: &str) -> (r: bool)
    ensures
        r == blank(text@),
{
    let chars = chars_of(text);
    let mut i: usize = 0;
    while i < chars.len()
        invariant
            i <= chars.len(),
            chars@ == text@,
            forall|j: int| 0 <= j < i ==> whitespace(#[trigger] text@[j]),
        decreases chars.len() - i,
    {
        if !is_whitespace(chars[i]) {
            return false;
        }
        i += 1;
    }
    true
}

impl MarketplaceService {
    /// Create new marketplace service.
    pub fn new(payment_service: Arc<VcsPaymentService>) -> (r: MarketplaceResult<Self>)
        ensures
            r is Ok,
            r->Ok_0@ == (MarketView {
                listings: Seq::empty(),
                listings_by_seller: Seq::empty(),
                listings_by_category: Seq::empty(),
                sellers: Seq::empty(),
                search_index: SearchIndexView::empty(),
            }),
    {
        let search_index = match SearchIndex::new() {
            Ok(index) => index,
            Err(e) => {
                return Err(e);
            },
        };
        let escrow_manager = match EscrowManager::new() {
            Ok(manager) => manager,
            Err(e) => {
                return Err(e);
            },
        };
        let listings: Vec<MarketplaceListing> = Vec::new();
        let listings_by_seller: Vec<TextPosting> = Vec::new();
        let listings_by_category: Vec<CategoryPosting> = Vec::new();
        let sellers: Vec<SellerProfile> = Vec::new();
        proof {
            assert(seq_view(listings@) =~= Seq::<MarketplaceListingView>::empty());
            assert(seq_view(listings_by_seller@) =~= Seq::<PostingView<Seq<char>>>::empty());
            assert(seq_view(listings_by_category@) =~= Seq::<
                PostingView<ListingCategory>,
            >::empty());
            assert(seq_view(sellers@) =~= Seq::<SellerProfileView>::empty());
        }
        Ok(
            MarketplaceService {
                listings,
                listings_by_seller,
                listings_by_category,
                orders: Vec::new(),
                reviews: Vec::new(),
                sellers,
                payment_service,
                search_index,
                escrow_manager,
            },
        )
    }

    /// The place of a listing in the table, or the table's length.
    fn listing_index(&self, id: &ListingId) -> (i: usize)
        ensures
            i == position(self@.listings, id@),
            i <= self.listings.len(),
    {
        let mut i: usize = 0;
        while i < self.listings.len()
            invariant
                i <= self.listings.len(),
                forall|j: int| 0 <= j < i ==> seq_view(self.listings@)[j].key() != id@,
            decreases self.listings.len() - i,
        {
            if self.listings[i].id == *id {
                proof {
                    position_is(self@.listings, id@, i as int);
                }
                return i;
            }
            i += 1;
        }
        proof {
            position_is(self@.listings, id@, i as int);
        }
        i
    }

    /// The place of a seller in the table, or the table's length.
    fn seller_index(&self, id: &String) -> (i: usize)
        ensures
            i == position(self@.sellers, id@),
            i <= self.sellers.len(),
    {
        let mut i: usize = 0;
        while i < self.sellers.len()
            invariant
                i <= self.sellers.len(),
                forall|j: int| 0 <= j < i ==> seq_view(self.sellers@)[j].key() != id@,
            decreases self.sellers.len() - i,
        {
            if self.sellers[i].node_id == *id {
                proof {
                    position_is(self@.sellers, id@, i as int);
                }
                return i;
            }
            i += 1;
        }
        proof {
            position_is(self@.sellers, id@, i as int);
        }
        i
    }

    /// Enters a listing at the end of the list of a seller.
    fn list_for_seller(&mut self, seller: &String, id: &ListingId)
        ensures
            final(self)@ == (MarketView {
                listings_by_seller: listed(old(self)@.listings_by_seller, seller@, id@),
                ..old(self)@
            }),
    {
        let mut i: usize = 0;
        while i < self.listings_by_seller.len() && !(self.listings_by_seller[i].key == *seller)
            invariant
                i <= self.listings_by_seller.len(),
                forall|j: int|
                    0 <= j < i ==> seq_view(self.listings_by_seller@)[j].key() != seller@,
            decreases self.listings_by_seller.len() - i,
        {
            i += 1;
        }
        proof {
            position_is(self@.listings_by_seller, seller@, i as int);
        }
        if i < self.listings_by_seller.len() {
            let mut ids = clone_vec(&self.listings_by_seller[i].ids);
            let copy = id.clone();
            proof {
                seq_view_push(ids@, copy);
            }
            ids.push(copy);
            let entry = TextPosting { key: seller.clone(), ids };
            proof {
                seq_view_update(self.listings_by_seller@, i as int, entry);
            }
            self.listings_by_seller[i] = entry;
        } else {
            let mut ids: Vec<ListingId> = Vec::new();
            ids.push(id.clone());
            let entry = TextPosting { key: seller.clone(), ids };
            proof {
                assert(entry@.ids =~= Seq::<Seq<char>>::empty().push(id@));
                seq_view_push(self.listings_by_seller@, entry);
            }
            self.listings_by_seller.push(entry);
        }
    }

    /// Enters a listing at the end of the list of a category.
    fn list_for_category(&mut self, category: ListingCategory, id: &ListingId)
        ensures
            final(self)@ == (MarketView {
                listings_by_category: listed(old(self)@.listings_by_category, category, id@),
                ..old(self)@
            }),
    {
        let mut i: usize = 0;
        while i < self.listings_by_category.len() && self.listings_by_category[i].key != category
            invariant
                i <= self.listings_by_category.len(),
                forall|j: int|
                    0 <= j < i ==> seq_view(self.listings_by_category@)[j].key() != category,
            decreases self.listings_by_category.len() - i,
        {
            i += 1;
        }
        proof {
            position_is(self@.listings_by_category, category, i as int);
        }
        if i < self.listings_by_category.len() {
            let mut ids = clone_vec(&self.listings_by_category[i].ids);
            let copy = id.clone();
            proof {
                seq_view_push(ids@, copy);
            }
            ids.push(copy);
            let entry = CategoryPosting { key: category, ids };
            proof {
                seq_view_update(self.listings_by_category@, i as int, entry);
            }
            self.listings_by_category[i] = entry;
        } else {
            let mut ids: Vec<ListingId> = Vec::new();
            ids.push(id.clone());
            let entry = CategoryPosting { key: category, ids };
            proof {
                assert(entry@.ids =~= Seq::<Seq<char>>::empty().push(id@));
                seq_view_push(self.listings_by_category@, entry);
            }
            self.listings_by_category.push(entry);
        }
    }

    /// Create a new listing.
    ///
    /// Fails without any change when the seller has no profile, or when the
    /// title or the description of the listing is blank.
    pub fn create_listing(&mut self, seller: String, listing: MarketplaceListing) -> (r:
        MarketplaceResult<ListingId>)
        ensures
            if find(old(self)@.sellers, seller@) is None {
                final(self)@ == old(self)@ && refused_with(r, MarketplaceErrorView::SellerNotFound)
            } else if !publishable(listing@) {
                final(self)@ == old(self)@ && refused_with(r, MarketplaceErrorView::InvalidListing)
            } else {
                r is Ok && r->Ok_0@ == listing@.id && final(self)@ == old(self)@.with_listing(
                    seller@,
                    listing@,
                )
            },
    {
        proof {
            position_found(self@.sellers, seller@);
            position_found(self@.listings, listing@.id);
        }
        let s = self.seller_index(&seller);
        if s >= self.sellers.len() {
            return Err(MarketplaceError::SellerNotFound);
        }
        match self.validate_listing(&listing) {
            Ok(()) => {},
            Err(e) => {
                return Err(e);
            },
        }
        let id = listing.id.clone();
        self.list_for_seller(&seller, &id);
        self.list_for_category(listing.category, &id);
        match self.search_index.index_listing(&listing) {
            Ok(()) => {},
            Err(e) => {
                return Err(e);
            },
        }
        let at = self.listing_index(&id);
        if at < self.listings.len() {
            proof {
                seq_view_update(self.listings@, at as int, listing);
            }
            self.listings[at] = listing;
        } else {
            proof {
                seq_view_push(self.listings@, listing);
            }
            self.listings.push(listing);
        }
        let mut profile = self.sellers[s].clone();
        profile.active_listings = profile.active_listings.saturating_add(1);
        proof {
            seq_view_update(self.sellers@, s as int, profile);
        }
        self.sellers[s] = profile;
        Ok(id)
    }

    /// Search listings: of the listings that the search index finds and
    /// the marketplace holds, those from the offset on, no more than the
    /// limit. The page is the offset in units of the limit, which must not
    /// be zero.
    pub fn search(&self, query: &str, filters: SearchFilters, pagination: Pagination) -> (r:
        MarketplaceResult<SearchResults>)
        requires
            pagination.limit > 0,
        ensures
            r is Ok,
            ({
                let ids = self@.search_index.found(query_terms(query@), filters);
                let result = r->Ok_0;
                &&& seq_view(result.listings@) == window(
                    found_under(self@.listings, ids, ids.len()),
                    pagination.offset,
                    pagination.limit,
                )
                &&& result.total_count == ids.len()
                &&& result.page == pagination.offset / pagination.limit
                &&& result.has_more == (pagination.offset + pagination.limit < ids.len())
            }),
    {
        let results = match self.search_index.search(query, &filters) {
            Ok(results) => results,
            Err(e) => {
                return Err(e);
            },
        };
        let ghost ids = seq_view(results@);
        let mut held: Vec<MarketplaceListing> = Vec::new();
        assert(seq_view(held@) =~= Seq::<MarketplaceListingView>::empty());
        let mut i: usize = 0;
        while i < results.len()
            invariant
                i <= results.len(),
                ids == seq_view(results@),
                seq_view(held@) == found_under(self@.listings, ids, i as nat),
            decreases results.len() - i,
        {
            proof {
                position_found(self@.listings, ids[i as int]);
            }
            let at = self.listing_index(&results[i]);
            if at < self.listings.len() {
                let listing = self.listings[at].clone();
                proof {
                    seq_view_push(held@, listing);
                }
                held.push(listing);
            }
            i += 1;
        }
        let ghost all = seq_view(held@);
        let mut listings: Vec<MarketplaceListing> = Vec::new();
        assert(seq_view(listings@) =~= Seq::<MarketplaceListingView>::empty());
        if pagination.offset < held.len() {
            let end = match pagination.offset.checked_add(pagination.limit) {
                Some(end) => if end < held.len() {
                    end
                } else {
                    held.len()
                },
                None => held.len(),
            };
            let mut k: usize = pagination.offset;
            while k < end
                invariant
                    pagination.offset <= k <= end <= held.len(),
                    all == seq_view(held@),
                    seq_view(listings@) == all.subrange(pagination.offset as int, k as int),
                decreases end - k,
            {
                let listing = held[k].clone();
                proof {
                    seq_view_push(listings@, listing);
                    assert(all.subrange(pagination.offset as int, k + 1) =~= all.subrange(
                        pagination.offset as int,
                        k as int,
                    ).push(all[k as int]));
                }
                listings.push(listing);
                k += 1;
            }
            assert(all.subrange(pagination.offset as int, all.len() as int) =~= all.skip(
                pagination.offset as int,
            ));
        }
        let has_more = match pagination.offset.checked_add(pagination.limit) {
            Some(end) => end < results.len(),
            None => false,
        };
        Ok(
            SearchResults {
                listings,
                total_count: results.len(),
                page: pagination.offset / pagination.limit,
                has_more,
            },
        )
    }

    /// Get listing by ID.
    pub fn get_listing(&self, id: &ListingId) -> (r: MarketplaceResult<&MarketplaceListing>)
        ensures
            match find(self@.listings, id@) {
                Some(listing) => r is Ok && r->Ok_0@ == listing,
                None => refused_with(r, MarketplaceErrorView::ListingNotFound),
            },
    {
        let i = self.listing_index(id);
        if i < self.listings.len() {
            Ok(&self.listings[i])
        } else {
            Err(MarketplaceError::ListingNotFound)
        }
    }

    /// Get seller profile.
    pub fn get_seller_profile(&self, seller_id: &str) -> (r: MarketplaceResult<&SellerProfile>)
        ensures
            match find(self@.sellers, seller_id@) {
                Some(profile) => r is Ok && r->Ok_0@ == profile,
                None => refused_with(r, MarketplaceErrorView::SellerNotFound),
            },
    {
        let wanted = seller_id.to_owned();
        let i = self.seller_index(&wanted);
        if i < self.sellers.len() {
            Ok(&self.sellers[i])
        } else {
            Err(MarketplaceError::SellerNotFound)
        }
    }

    /// Validate listing before creation.
    fn validate_listing(&self, listing: &MarketplaceListing) -> (r: MarketplaceResult<()>)
        ensures
            if publishable(listing@) {
                r is Ok
            } else {
                refused_with(r, MarketplaceErrorView::InvalidListing)
            },
    {
        if is_blank(listing.title.as_str()) {
            return Err(MarketplaceError::InvalidListing);
        }
        if is_blank(listing.description.as_str()) {
            return Err(MarketplaceError::InvalidListing);
        }
        Ok(())
    }
}

} // verus!
