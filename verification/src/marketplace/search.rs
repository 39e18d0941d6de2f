//! The search index of the marketplace: listings by the words of their
//! texts, by tag, seller, category and price.

use crate::errors::MarketplaceError;
use crate::keyed::{
    distinct, find, position, position_found, position_is, put, put_keeps_distinct, Keyed,
};
use crate::marketplace::{
    ListingCategory, ListingId, MarketplaceListing, MarketplaceListingView, PricingModel,
    PricingModelView, SearchFilters,
};
use crate::ordering::{slot_by, sorted_by};
use crate::text::{
    in_order, joined, keep_plain, lowercase, plain, split_words, text_in_order, to_lowercase, words,
};
use crate::views::{
    clone_vec, filter_take_next, filter_take_none, seq_view, seq_view_insert, seq_view_push,
    seq_view_update, take_all,
};
use vstd::prelude::*;

verus! {

/// Search result type.
pub type SearchResult<T> = Result<T, MarketplaceError>;

/// The model of one entry of an index: a key and the listings found under
/// it, each once, in the order in which they were entered.
pub ghost struct PostingView<K> {
    pub key: K,
    pub ids: Seq<Seq<char>>,
}

impl<K> Keyed for PostingView<K> {
    type Key = K;

    open spec fn key(self) -> K {
        self.key
    }
}

/// The listings found under a text.
#[derive(Debug)]
pub struct TextPosting {
    /// The text.
    pub key: String,
    /// The listings.
    pub ids: Vec<ListingId>,
}

impl View for TextPosting {
    type V = PostingView<Seq<char>>;

    open spec fn view(&self) -> PostingView<Seq<char>> {
        PostingView { key: self.key@, ids: seq_view(self.ids@) }
    }
}

/// The listings of a category.
#[derive(Debug)]
pub struct CategoryPosting {
    /// The category.
    pub key: ListingCategory,
    /// The listings.
    pub ids: Vec<ListingId>,
}

impl View for CategoryPosting {
    type V = PostingView<ListingCategory>;

    open spec fn view(&self) -> PostingView<ListingCategory> {
        PostingView { key: self.key, ids: seq_view(self.ids@) }
    }
}

/// The listings of a rating.
#[derive(Debug)]
pub struct RatingPosting {
    /// The rating.
    pub key: u8,
    /// The listings.
    pub ids: Vec<ListingId>,
}

impl View for RatingPosting {
    type V = PostingView<u8>;

    open spec fn view(&self) -> PostingView<u8> {
        PostingView { key: self.key, ids: seq_view(self.ids@) }
    }
}

// ============================================================================
// THE MODEL OF AN INDEX
// ============================================================================
/// The listings under a key, if the index has the key.
pub open spec fn posting_of<K>(index: Seq<PostingView<K>>, key: K) -> Option<Seq<Seq<char>>> {
    match find(index, key) {
        Some(posting) => Some(posting.ids),
        None => None,
    }
}

/// The listings with one more, unless it is among them already.
pub open spec fn with_id(ids: Seq<Seq<char>>, id: Seq<char>) -> Seq<Seq<char>> {
    if ids.contains(id) {
        ids
    } else {
        ids.push(id)
    }
}

/// The index with a listing entered under a key.
pub open spec fn posted<K>(index: Seq<PostingView<K>>, key: K, id: Seq<char>) -> Seq<
    PostingView<K>,
> {
    put(
        index,
        PostingView {
            key,
            ids: with_id(
                match posting_of(index, key) {
                    Some(ids) => ids,
                    None => Seq::empty(),
                },
                id,
            ),
        },
    )
}

/// The index with a listing entered under the first `n` of the keys.
pub open spec fn posted_all(
    index: Seq<PostingView<Seq<char>>>,
    keys: Seq<Seq<char>>,
    id: Seq<char>,
    n: nat,
) -> Seq<PostingView<Seq<char>>>
    decreases n,
{
    if n == 0 {
        index
    } else {
        posted(posted_all(index, keys, id, (n - 1) as nat), keys[n - 1], id)
    }
}

/// Selects the listings other than the given one.
pub open spec fn other_id(id: Seq<char>) -> spec_fn(Seq<char>) -> bool {
    |other: Seq<char>| other != id
}

/// The index with a listing taken out from under every key. The keys stay.
pub open spec fn stripped<K>(index: Seq<PostingView<K>>, id: Seq<char>) -> Seq<PostingView<K>> {
    Seq::new(
        index.len(),
        |i: int| PostingView { key: index[i].key, ids: index[i].ids.filter(other_id(id)) },
    )
}

/// The words under which a text is indexed: the words of the text in
/// lowercase, without the characters that are neither letters nor digits
/// nor whitespace.
pub open spec fn tokens(text: Seq<char>) -> Seq<Seq<char>> {
    words(plain(lowercase(text)))
}

/// The bucket of a price in satoshis.
pub open spec fn bucket(price_sats: u64) -> Seq<char> {
    if price_sats == 0 {
        "free"@
    } else if price_sats <= 1000 {
        "micro"@
    } else if price_sats <= 10000 {
        "small"@
    } else if price_sats <= 100000 {
        "medium"@
    } else if price_sats <= 1000000 {
        "large"@
    } else {
        "premium"@
    }
}

/// The bucket under which a listing is indexed by its pricing.
pub open spec fn listing_bucket(pricing: PricingModelView) -> Seq<char> {
    match pricing {
        PricingModelView::OneTime { price_sats } => bucket(price_sats),
        PricingModelView::Subscription { price_sats, interval } => bucket(price_sats),
        PricingModelView::PayWhatYouWant { minimum_sats, suggested_sats } => bucket(minimum_sats),
        PricingModelView::Free => "free"@,
        PricingModelView::Hourly { rate_sats, minimum_hours } => "hourly_"@ + bucket(rate_sats),
        PricingModelView::FixedProject { price_sats, milestones } => "project_"@ + bucket(
            price_sats,
        ),
    }
}

/// The bucket that a range of prices is looked up under.
pub open spec fn range_bucket(min_price: u64, max_price: u64) -> Seq<char> {
    if min_price == 0 && max_price == 0 {
        "free"@
    } else {
        bucket(min_price) + "_"@ + bucket(max_price)
    }
}

/// The model of the search index.
pub ghost struct SearchIndexView {
    pub full_text: Seq<PostingView<Seq<char>>>,
    pub tags: Seq<PostingView<Seq<char>>>,
    pub seller_listings: Seq<PostingView<Seq<char>>>,
    pub category_listings: Seq<PostingView<ListingCategory>>,
    pub price_ranges: Seq<PostingView<Seq<char>>>,
    pub rating_listings: Seq<PostingView<u8>>,
}

/// The candidates of a search, and whether the search has stopped without
/// result.
pub ghost struct Narrowing {
    pub candidates: Seq<Seq<char>>,
    pub stopped: bool,
}

/// Selects the listings that are among the given ones.
pub open spec fn among(ids: Seq<Seq<char>>) -> spec_fn(Seq<char>) -> bool {
    |id: Seq<char>| ids.contains(id)
}

/// One step of a search. Listings found under a key become the candidates
/// if there are none, and else narrow the candidates to those among them. A
/// key that the index lacks stops the search if there are no candidates, and
/// else changes nothing.
pub open spec fn narrowed(state: Narrowing, posting: Option<Seq<Seq<char>>>) -> Narrowing {
    if state.stopped {
        state
    } else {
        match posting {
            Some(ids) => Narrowing {
                candidates: if state.candidates.len() == 0 {
                    ids
                } else {
                    state.candidates.filter(among(ids))
                },
                stopped: false,
            },
            None => if state.candidates.len() == 0 {
                Narrowing { candidates: Seq::empty(), stopped: true }
            } else {
                state
            },
        }
    }
}

/// The search after the first `n` terms were looked up.
pub open spec fn by_terms(full_text: Seq<PostingView<Seq<char>>>, terms: Seq<Seq<char>>, n: nat)
    -> Narrowing
    decreases n,
{
    if n == 0 {
        Narrowing { candidates: Seq::empty(), stopped: false }
    } else {
        narrowed(by_terms(full_text, terms, (n - 1) as nat), posting_of(full_text, terms[n - 1]))
    }
}

/// The terms that a query is looked up under: its words, in lowercase.
pub open spec fn query_terms(query: Seq<char>) -> Seq<Seq<char>> {
    Seq::new(words(query).len(), |i: int| lowercase(words(query)[i]))
}

/// The order of identifiers: character by character by code point.
pub open spec fn by_id() -> spec_fn(Seq<char>, Seq<char>) -> bool {
    |a: Seq<char>, b: Seq<char>| in_order(a, b)
}

impl SearchIndexView {
    /// The invariant of the index: every part has at most one entry under a
    /// key.
    pub open spec fn wf(self) -> bool {
        &&& distinct(self.full_text)
        &&& distinct(self.tags)
        &&& distinct(self.seller_listings)
        &&& distinct(self.category_listings)
        &&& distinct(self.price_ranges)
        &&& distinct(self.rating_listings)
    }

    /// The index without entries.
    pub open spec fn empty() -> Self {
        SearchIndexView {
            full_text: Seq::empty(),
            tags: Seq::empty(),
            seller_listings: Seq::empty(),
            category_listings: Seq::empty(),
            price_ranges: Seq::empty(),
            rating_listings: Seq::empty(),
        }
    }

    /// The index with a listing entered: under the words of its title, its
    /// description and its short description, under its tags, its seller,
    /// its category and the bucket of its price.
    pub open spec fn indexed(self, listing: MarketplaceListingView) -> Self {
        let id = listing.id;
        let titled = posted_all(
            self.full_text,
            tokens(listing.title),
            id,
            tokens(listing.title).len(),
        );
        let described = posted_all(
            titled,
            tokens(listing.description),
            id,
            tokens(listing.description).len(),
        );
        SearchIndexView {
            full_text: posted_all(
                described,
                tokens(listing.short_description),
                id,
                tokens(listing.short_description).len(),
            ),
            tags: posted_all(self.tags, listing.tags, id, listing.tags.len()),
            seller_listings: posted(self.seller_listings, listing.seller, id),
            category_listings: posted(self.category_listings, listing.category, id),
            price_ranges: posted(self.price_ranges, listing_bucket(listing.pricing), id),
            rating_listings: self.rating_listings,
        }
    }

    /// The index with a listing taken out of every part.
    pub open spec fn without(self, id: Seq<char>) -> Self {
        SearchIndexView {
            full_text: stripped(self.full_text, id),
            tags: stripped(self.tags, id),
            seller_listings: stripped(self.seller_listings, id),
            category_listings: stripped(self.category_listings, id),
            price_ranges: stripped(self.price_ranges, id),
            rating_listings: stripped(self.rating_listings, id),
        }
    }

    /// What a search narrows down to: the terms are looked up in turn, then
    /// the category and the price range of the filters, where they are
    /// given.
    pub open spec fn narrowing(self, terms: Seq<Seq<char>>, filters: SearchFilters) -> Narrowing {
        let by_query = by_terms(self.full_text, terms, terms.len());
        let by_category = match filters.category {
            Some(category) => narrowed(by_query, posting_of(self.category_listings, category)),
            None => by_query,
        };
        match filters.price_range {
            Some((min_price, max_price)) => narrowed(
                by_category,
                posting_of(self.price_ranges, range_bucket(min_price, max_price)),
            ),
            None => by_category,
        }
    }

    /// The result of a search for terms: the listings that it narrows down
    /// to, in ascending order of their identifiers; none if it stopped.
    pub open spec fn found(self, terms: Seq<Seq<char>>, filters: SearchFilters) -> Seq<Seq<char>> {
        let outcome = self.narrowing(terms, filters);
        if outcome.stopped {
            Seq::empty()
        } else {
            sorted_by(outcome.candidates, by_id(), outcome.candidates.len())
        }
    }
}

/// Taking a listing out of an index keeps the keys distinct.
pub proof fn stripped_keeps_distinct<K>(index: Seq<PostingView<K>>, id: Seq<char>)
    requires
        distinct(index),
    ensures
        distinct(stripped(index, id)),
{
}

/// Entering a listing under keys keeps the keys distinct.
pub proof fn posted_all_keeps_distinct(
    index: Seq<PostingView<Seq<char>>>,
    keys: Seq<Seq<char>>,
    id: Seq<char>,
    n: nat,
)
    requires
        distinct(index),
    ensures
        distinct(posted_all(index, keys, id, n)),
    decreases n,
{
    if n > 0 {
        posted_all_keeps_distinct(index, keys, id, (n - 1) as nat);
        let before = posted_all(index, keys, id, (n - 1) as nat);
        put_keeps_distinct(
            before,
            PostingView {
                key: keys[n - 1],
                ids: with_id(
                    match posting_of(before, keys[n - 1]) {
                        Some(ids) => ids,
                        None => Seq::empty(),
                    },
                    id,
                ),
            },
        );
    }
}

// ============================================================================
// WORKING ON LISTS OF LISTINGS
// ============================================================================
/// Whether a listing is among the listings.
fn has_id(ids: &Vec<ListingId>, id: &ListingId) -> (r: bool)
    ensures
        r == seq_view(ids@).contains(id@),
{
    let mut i: usize = 0;
    while i < ids.len()
        invariant
            i <= ids.len(),
            forall|j: int| 0 <= j < i ==> seq_view(ids@)[j] != id@,
        decreases ids.len() - i,
    {
        if ids[i] == *id {
            assert(seq_view(ids@)[i as int] == id@);
            return true;
        }
        i += 1;
    }
    false
}

/// The listings with one more, unless it is among them already.
fn add_id(ids: &Vec<ListingId>, id: &ListingId) -> (r: Vec<ListingId>)
    ensures
        seq_view(r@) == with_id(seq_view(ids@), id@),
{
    let mut all = clone_vec(ids);
    if !has_id(ids, id) {
        let copy = id.clone();
        proof {
            seq_view_push(all@, copy);
        }
        all.push(copy);
    }
    all
}

/// The listings other than the given one.
fn drop_id(ids: &Vec<ListingId>, id: &ListingId) -> (r: Vec<ListingId>)
    ensures
        seq_view(r@) == seq_view(ids@).filter(other_id(id@)),
{
    let ghost all = seq_view(ids@);
    let ghost pick = other_id(id@);
    let mut kept: Vec<ListingId> = Vec::new();
    proof {
        filter_take_none(all, pick);
        assert(seq_view(kept@) =~= Seq::<Seq<char>>::empty());
    }
    let mut i: usize = 0;
    while i < ids.len()
        invariant
            i <= ids.len(),
            all == seq_view(ids@),
            pick == other_id(id@),
            seq_view(kept@) == all.take(i as int).filter(pick),
        decreases ids.len() - i,
    {
        proof {
            filter_take_next(all, pick, i as int);
        }
        if ids[i] != *id {
            let copy = ids[i].clone();
            proof {
                seq_view_push(kept@, copy);
            }
            kept.push(copy);
        }
        i += 1;
    }
    proof {
        take_all(all);
    }
    kept
}

/// The candidates that are among the listings.
fn keep_among(candidates: &Vec<ListingId>, ids: &Vec<ListingId>) -> (r: Vec<ListingId>)
    ensures
        seq_view(r@) == seq_view(candidates@).filter(among(seq_view(ids@))),
{
    let ghost all = seq_view(candidates@);
    let ghost pick = among(seq_view(ids@));
    let mut kept: Vec<ListingId> = Vec::new();
    proof {
        filter_take_none(all, pick);
        assert(seq_view(kept@) =~= Seq::<Seq<char>>::empty());
    }
    let mut i: usize = 0;
    while i < candidates.len()
        invariant
            i <= candidates.len(),
            all == seq_view(candidates@),
            pick == among(seq_view(ids@)),
            seq_view(kept@) == all.take(i as int).filter(pick),
        decreases candidates.len() - i,
    {
        proof {
            filter_take_next(all, pick, i as int);
        }
        if has_id(ids, &candidates[i]) {
            let copy = candidates[i].clone();
            proof {
                seq_view_push(kept@, copy);
            }
            kept.push(copy);
        }
        i += 1;
    }
    proof {
        take_all(all);
    }
    kept
}

/// One step of a search.
fn narrow(candidates: Vec<ListingId>, posting: Option<&Vec<ListingId>>) -> (r: Option<
    Vec<ListingId>,
>)
    ensures
        ({
            let after = narrowed(
                Narrowing { candidates: seq_view(candidates@), stopped: false },
                match posting {
                    Some(ids) => Some(seq_view(ids@)),
                    None => None,
                },
            );
            match r {
                Some(kept) => !after.stopped && seq_view(kept@) == after.candidates,
                None => after.stopped,
            }
        }),
{
    match posting {
        Some(ids) => {
            if candidates.len() == 0 {
                Some(clone_vec(ids))
            } else {
                Some(keep_among(&candidates, ids))
            }
        },
        None => {
            if candidates.len() == 0 {
                None
            } else {
                Some(candidates)
            }
        },
    }
}

/// The listings in ascending order of their identifiers.
fn sort_ids(ids: &Vec<ListingId>) -> (r: Vec<ListingId>)
    ensures
        seq_view(r@) == sorted_by(seq_view(ids@), by_id(), ids@.len()),
{
    let mut sorted: Vec<ListingId> = Vec::new();
    assert(seq_view(sorted@) =~= Seq::<Seq<char>>::empty());
    let mut i: usize = 0;
    while i < ids.len()
        invariant
            i <= ids.len(),
            seq_view(sorted@) == sorted_by(seq_view(ids@), by_id(), i as nat),
        decreases ids.len() - i,
    {
        let id = ids[i].clone();
        let mut at: usize = 0;
        while at < sorted.len() && text_in_order(sorted[at].0.as_str(), id.0.as_str())
            invariant
                at <= sorted.len(),
                slot_by(seq_view(sorted@), id@, by_id(), 0) == slot_by(
                    seq_view(sorted@),
                    id@,
                    by_id(),
                    at as int,
                ),
            decreases sorted.len() - at,
        {
            at += 1;
        }
        proof {
            seq_view_insert(sorted@, at as int, id);
        }
        sorted.insert(at, id);
        i += 1;
    }
    sorted
}

/// The place of a text in an index, or the length of the index.
fn text_index(index: &Vec<TextPosting>, key: &String) -> (i: usize)
    ensures
        i == position(seq_view(index@), key@),
        i <= index.len(),
{
    let mut i: usize = 0;
    while i < index.len()
        invariant
            i <= index.len(),
            forall|j: int| 0 <= j < i ==> seq_view(index@)[j].key() != key@,
        decreases index.len() - i,
    {
        if index[i].key == *key {
            proof {
                position_is(seq_view(index@), key@, i as int);
            }
            return i;
        }
        i += 1;
    }
    proof {
        position_is(seq_view(index@), key@, i as int);
    }
    i
}

/// The place of a category in an index, or the length of the index.
fn category_index(index: &Vec<CategoryPosting>, key: ListingCategory) -> (i: usize)
    ensures
        i == position(seq_view(index@), key),
        i <= index.len(),
{
    let mut i: usize = 0;
    while i < index.len()
        invariant
            i <= index.len(),
            forall|j: int| 0 <= j < i ==> seq_view(index@)[j].key() != key,
        decreases index.len() - i,
    {
        if index[i].key == key {
            proof {
                position_is(seq_view(index@), key, i as int);
            }
            return i;
        }
        i += 1;
    }
    proof {
        position_is(seq_view(index@), key, i as int);
    }
    i
}

/// Enters a listing under a text.
fn post(index: &mut Vec<TextPosting>, key: String, id: &ListingId)
    requires
        distinct(seq_view(old(index)@)),
    ensures
        seq_view(final(index)@) == posted(seq_view(old(index)@), key@, id@),
        distinct(seq_view(final(index)@)),
{
    proof {
        position_found(seq_view(index@), key@);
    }
    let i = text_index(index, &key);
    if i < index.len() {
        let entry = TextPosting { key, ids: add_id(&index[i].ids, id) };
        proof {
            put_keeps_distinct(seq_view(index@), entry@);
            seq_view_update(index@, i as int, entry);
        }
        index[i] = entry;
    } else {
        let none: Vec<ListingId> = Vec::new();
        assert(seq_view(none@) =~= Seq::<Seq<char>>::empty());
        let entry = TextPosting { key, ids: add_id(&none, id) };
        proof {
            put_keeps_distinct(seq_view(index@), entry@);
            seq_view_push(index@, entry);
        }
        index.push(entry);
    }
}

/// Enters a listing under texts.
fn post_all(index: &mut Vec<TextPosting>, keys: &Vec<String>, id: &ListingId)
    requires
        distinct(seq_view(old(index)@)),
    ensures
        seq_view(final(index)@) == posted_all(
            seq_view(old(index)@),
            seq_view(keys@),
            id@,
            keys@.len(),
        ),
        distinct(seq_view(final(index)@)),
{
    let mut i: usize = 0;
    while i < keys.len()
        invariant
            i <= keys.len(),
            distinct(seq_view(index@)),
            seq_view(index@) == posted_all(seq_view(old(index)@), seq_view(keys@), id@, i as nat),
        decreases keys.len() - i,
    {
        post(index, keys[i].clone(), id);
        i += 1;
    }
}

/// Enters a listing under a category.
fn post_category(index: &mut Vec<CategoryPosting>, key: ListingCategory, id: &ListingId)
    requires
        distinct(seq_view(old(index)@)),
    ensures
        seq_view(final(index)@) == posted(seq_view(old(index)@), key, id@),
        distinct(seq_view(final(index)@)),
{
    proof {
        position_found(seq_view(index@), key);
    }
    let i = category_index(index, key);
    if i < index.len() {
        let entry = CategoryPosting { key, ids: add_id(&index[i].ids, id) };
        proof {
            put_keeps_distinct(seq_view(index@), entry@);
            seq_view_update(index@, i as int, entry);
        }
        index[i] = entry;
    } else {
        let none: Vec<ListingId> = Vec::new();
        assert(seq_view(none@) =~= Seq::<Seq<char>>::empty());
        let entry = CategoryPosting { key, ids: add_id(&none, id) };
        proof {
            put_keeps_distinct(seq_view(index@), entry@);
            seq_view_push(index@, entry);
        }
        index.push(entry);
    }
}

/// Takes a listing out from under every text.
fn strip(index: &mut Vec<TextPosting>, id: &ListingId)
    ensures
        seq_view(final(index)@) == stripped(seq_view(old(index)@), id@),
{
    let mut i: usize = 0;
    while i < index.len()
        invariant
            i <= index.len(),
            index.len() == old(index).len(),
            forall|j: int|
                0 <= j < i ==> (#[trigger] index@[j])@ == stripped(seq_view(old(index)@), id@)[j],
            forall|j: int| i <= j < index.len() ==> index@[j] == old(index)@[j],
        decreases index.len() - i,
    {
        let entry = TextPosting { key: index[i].key.clone(), ids: drop_id(&index[i].ids, id) };
        index[i] = entry;
        i += 1;
    }
    assert(seq_view(index@) =~= stripped(seq_view(old(index)@), id@));
}

/// Takes a listing out from under every category.
fn strip_categories(index: &mut Vec<CategoryPosting>, id: &ListingId)
    ensures
        seq_view(final(index)@) == stripped(seq_view(old(index)@), id@),
{
    let mut i: usize = 0;
    while i < index.len()
        invariant
            i <= index.len(),
            index.len() == old(index).len(),
            forall|j: int|
                0 <= j < i ==> (#[trigger] index@[j])@ == stripped(seq_view(old(index)@), id@)[j],
            forall|j: int| i <= j < index.len() ==> index@[j] == old(index)@[j],
        decreases index.len() - i,
    {
        let entry = CategoryPosting { key: index[i].key, ids: drop_id(&index[i].ids, id) };
        index[i] = entry;
        i += 1;
    }
    assert(seq_view(index@) =~= stripped(seq_view(old(index)@), id@));
}

/// Takes a listing out from under every rating.
fn strip_ratings(index: &mut Vec<RatingPosting>, id: &ListingId)
    ensures
        seq_view(final(index)@) == stripped(seq_view(old(index)@), id@),
{
    let mut i: usize = 0;
    while i < index.len()
        invariant
            i <= index.len(),
            index.len() == old(index).len(),
            forall|j: int|
                0 <= j < i ==> (#[trigger] index@[j])@ == stripped(seq_view(old(index)@), id@)[j],
            forall|j: int| i <= j < index.len() ==> index@[j] == old(index)@[j],
        decreases index.len() - i,
    {
        let entry = RatingPosting { key: index[i].key, ids: drop_id(&index[i].ids, id) };
        index[i] = entry;
        i += 1;
    }
    assert(seq_view(index@) =~= stripped(seq_view(old(index)@), id@));
}

// ============================================================================
// THE INDEX
// ============================================================================
/// Search index for marketplace listings.
#[derive(Debug)]
pub struct SearchIndex {
    /// Full-text search index.
    full_text: Vec<TextPosting>,
    /// Tag index.
    tags: Vec<TextPosting>,
    /// Seller index.
    seller_listings: Vec<TextPosting>,
    /// Category index.
    category_listings: Vec<CategoryPosting>,
    /// Price range index.
    price_ranges: Vec<TextPosting>,
    /// Rating index.
    rating_listings: Vec<RatingPosting>,
}

impl View for SearchIndex {
    type V = SearchIndexView;

    closed spec fn view(&self) -> SearchIndexView {
        SearchIndexView {
            full_text: seq_view(self.full_text@),
            tags: seq_view(self.tags@),
            seller_listings: seq_view(self.seller_listings@),
            category_listings: seq_view(self.category_listings@),
            price_ranges: seq_view(self.price_ranges@),
            rating_listings: seq_view(self.rating_listings@),
        }
    }
}

impl SearchIndex {
    #[verifier::type_invariant]
    spec fn inv(&self) -> bool {
        self@.wf()
    }

    /// Create new search index.
    pub fn new() -> (r: SearchResult<Self>)
        ensures
            r is Ok,
            r->Ok_0@ == SearchIndexView::empty(),
    {
        let full_text: Vec<TextPosting> = Vec::new();
        let tags: Vec<TextPosting> = Vec::new();
        let seller_listings: Vec<TextPosting> = Vec::new();
        let category_listings: Vec<CategoryPosting> = Vec::new();
        let price_ranges: Vec<TextPosting> = Vec::new();
        let rating_listings: Vec<RatingPosting> = Vec::new();
        proof {
            assert(seq_view(full_text@) =~= Seq::<PostingView<Seq<char>>>::empty());
            assert(seq_view(tags@) =~= Seq::<PostingView<Seq<char>>>::empty());
            assert(seq_view(seller_listings@) =~= Seq::<PostingView<Seq<char>>>::empty());
            assert(seq_view(category_listings@) =~= Seq::<PostingView<ListingCategory>>::empty());
            assert(seq_view(price_ranges@) =~= Seq::<PostingView<Seq<char>>>::empty());
            assert(seq_view(rating_listings@) =~= Seq::<PostingView<u8>>::empty());
        }
        Ok(
            SearchIndex {
                full_text,
                tags,
                seller_listings,
                category_listings,
                price_ranges,
                rating_listings,
            },
        )
    }

    /// Index a listing.
    pub fn index_listing(&mut self, listing: &MarketplaceListing) -> (r: SearchResult<()>)
        ensures
            r is Ok,
            final(self)@ == old(self)@.indexed(listing@),
            final(self)@.wf(),
    {
        proof {
            use_type_invariant(&*self);
        }
        let listing_id = &listing.id;
        self.index_full_text(listing_id, listing.title.as_str());
        self.index_full_text(listing_id, listing.description.as_str());
        self.index_full_text(listing_id, listing.short_description.as_str());
        proof {
            use_type_invariant(&*self);
        }

        let mut tags: Vec<TextPosting> = Vec::new();
        core::mem::swap(&mut self.tags, &mut tags);
        post_all(&mut tags, &listing.tags, listing_id);
        self.tags = tags;

        let mut sellers: Vec<TextPosting> = Vec::new();
        core::mem::swap(&mut self.seller_listings, &mut sellers);
        post(&mut sellers, listing.seller.clone(), listing_id);
        self.seller_listings = sellers;

        let mut categories: Vec<CategoryPosting> = Vec::new();
        core::mem::swap(&mut self.category_listings, &mut categories);
        post_category(&mut categories, listing.category, listing_id);
        self.category_listings = categories;

        let price_bucket = self.get_price_bucket(listing);
        let mut prices: Vec<TextPosting> = Vec::new();
        core::mem::swap(&mut self.price_ranges, &mut prices);
        post(&mut prices, price_bucket, listing_id);
        self.price_ranges = prices;
        Ok(())
    }

    /// Remove a listing from index.
    pub fn remove_listing(&mut self, listing_id: &ListingId) -> (r: SearchResult<()>)
        ensures
            r is Ok,
            final(self)@ == old(self)@.without(listing_id@),
            final(self)@.wf(),
    {
        proof {
            use_type_invariant(&*self);
            stripped_keeps_distinct(self@.full_text, listing_id@);
            stripped_keeps_distinct(self@.tags, listing_id@);
            stripped_keeps_distinct(self@.seller_listings, listing_id@);
            stripped_keeps_distinct(self@.category_listings, listing_id@);
            stripped_keeps_distinct(self@.price_ranges, listing_id@);
            stripped_keeps_distinct(self@.rating_listings, listing_id@);
        }
        let mut full_text: Vec<TextPosting> = Vec::new();
        core::mem::swap(&mut self.full_text, &mut full_text);
        strip(&mut full_text, listing_id);
        self.full_text = full_text;

        let mut tags: Vec<TextPosting> = Vec::new();
        core::mem::swap(&mut self.tags, &mut tags);
        strip(&mut tags, listing_id);
        self.tags = tags;

        let mut sellers: Vec<TextPosting> = Vec::new();
        core::mem::swap(&mut self.seller_listings, &mut sellers);
        strip(&mut sellers, listing_id);
        self.seller_listings = sellers;

        let mut categories: Vec<CategoryPosting> = Vec::new();
        core::mem::swap(&mut self.category_listings, &mut categories);
        strip_categories(&mut categories, listing_id);
        self.category_listings = categories;

        let mut prices: Vec<TextPosting> = Vec::new();
        core::mem::swap(&mut self.price_ranges, &mut prices);
        strip(&mut prices, listing_id);
        self.price_ranges = prices;

        let mut ratings: Vec<RatingPosting> = Vec::new();
        core::mem::swap(&mut self.rating_listings, &mut ratings);
        strip_ratings(&mut ratings, listing_id);
        self.rating_listings = ratings;
        Ok(())
    }

    /// Search listings: the words of the query are looked up in lowercase,
    /// then the category and the price range of the filters; the listings
    /// that remain come in ascending order of their identifiers.
    pub fn search(&self, query: &str, filters: &SearchFilters) -> (r: SearchResult<Vec<ListingId>>)
        ensures
            r is Ok,
            seq_view(r->Ok_0@) == self@.found(query_terms(query@), *filters),
    {
        let mut terms: Vec<String> = Vec::new();
        if !query.is_empty() {
            let query_words = split_words(query);
            let mut i: usize = 0;
            while i < query_words.len()
                invariant
                    i <= query_words.len(),
                    seq_view(query_words@) == words(query@),
                    terms.len() == i,
                    forall|j: int| 0 <= j < i ==> terms@[j]@ == query_terms(query@)[j],
                decreases query_words.len() - i,
            {
                terms.push(to_lowercase(query_words[i].as_str()));
                i += 1;
            }
        } else {
            assert(words(query@).len() == 0);
        }
        assert(seq_view(terms@) =~= query_terms(query@));
        self.search_terms(&terms, filters)
    }

    /// Search listings by terms: the terms are looked up in turn as they
    /// are, then the category and the price range of the filters; the
    /// listings that remain come in ascending order of their identifiers.
    pub fn search_terms(&self, terms: &Vec<String>, filters: &SearchFilters) -> (r: SearchResult<
        Vec<ListingId>,
    >)
        ensures
            r is Ok,
            seq_view(r->Ok_0@) == self@.found(seq_view(terms@), *filters),
    {
        let mut candidates: Vec<ListingId> = Vec::new();
        assert(seq_view(candidates@) =~= Seq::<Seq<char>>::empty());
        let none: Vec<ListingId> = Vec::new();
        assert(seq_view(none@) =~= Seq::<Seq<char>>::empty());
        let ghost all = seq_view(terms@);

        let mut i: usize = 0;
        while i < terms.len()
            invariant
                i <= terms.len(),
                all == seq_view(terms@),
                seq_view(none@) == Seq::<Seq<char>>::empty(),
                by_terms(self@.full_text, all, i as nat) == (Narrowing {
                    candidates: seq_view(candidates@),
                    stopped: false,
                }),
            decreases terms.len() - i,
        {
            proof {
                position_found(self@.full_text, all[i as int]);
            }
            let at = text_index(&self.full_text, &terms[i]);
            let posting = if at < self.full_text.len() {
                Some(&self.full_text[at].ids)
            } else {
                None
            };
            match narrow(candidates, posting) {
                Some(kept) => {
                    candidates = kept;
                },
                None => {
                    proof {
                        stays_stopped(self@.full_text, all, (i + 1) as nat, all.len());
                    }
                    return Ok(none);
                },
            }
            i += 1;
        }
        if let Some(category) = filters.category {
            proof {
                position_found(self@.category_listings, category);
            }
            let at = category_index(&self.category_listings, category);
            let posting = if at < self.category_listings.len() {
                Some(&self.category_listings[at].ids)
            } else {
                None
            };
            match narrow(candidates, posting) {
                Some(kept) => {
                    candidates = kept;
                },
                None => {
                    return Ok(none);
                },
            }
        }
        if let Some((min_price, max_price)) = filters.price_range {
            let price_bucket = self.get_price_bucket_from_range(min_price, max_price);
            proof {
                position_found(self@.price_ranges, price_bucket@);
            }
            let at = text_index(&self.price_ranges, &price_bucket);
            let posting = if at < self.price_ranges.len() {
                Some(&self.price_ranges[at].ids)
            } else {
                None
            };
            match narrow(candidates, posting) {
                Some(kept) => {
                    candidates = kept;
                },
                None => {
                    return Ok(none);
                },
            }
        }
        Ok(sort_ids(&candidates))
    }

    /// Enters a listing in the full-text index under terms, as they are.
    pub fn index_terms(&mut self, listing_id: &ListingId, terms: &Vec<String>)
        ensures
            final(self)@.wf(),
            final(self)@ == (SearchIndexView {
                full_text: posted_all(
                    old(self)@.full_text,
                    seq_view(terms@),
                    listing_id@,
                    terms@.len(),
                ),
                ..old(self)@
            }),
    {
        proof {
            use_type_invariant(&*self);
        }
        let mut full_text: Vec<TextPosting> = Vec::new();
        core::mem::swap(&mut self.full_text, &mut full_text);
        post_all(&mut full_text, terms, listing_id);
        self.full_text = full_text;
    }

    /// Index full-text terms.
    fn index_full_text(&mut self, listing_id: &ListingId, text: &str)
        ensures
            final(self)@ == (SearchIndexView {
                full_text: posted_all(
                    old(self)@.full_text,
                    tokens(text@),
                    listing_id@,
                    tokens(text@).len(),
                ),
                ..old(self)@
            }),
    {
        let terms = self.tokenize(text);
        self.index_terms(listing_id, &terms);
    }

    /// Tokenize text for indexing.
    fn tokenize(&self, text: &str) -> (r: Vec<String>)
        ensures
            seq_view(r@) == tokens(text@),
    {
        let lowered = to_lowercase(text);
        let kept = keep_plain(lowered.as_str());
        split_words(kept.as_str())
    }

    /// Get price bucket for listing.
    fn get_price_bucket(&self, listing: &MarketplaceListing) -> (r: String)
        ensures
            r@ == listing_bucket(listing@.pricing),
    {
        match &listing.pricing {
            PricingModel::OneTime { price_sats } => self.price_bucket(*price_sats),
            PricingModel::Subscription { price_sats, interval } => self.price_bucket(*price_sats),
            PricingModel::PayWhatYouWant { minimum_sats, suggested_sats } => self.price_bucket(
                *minimum_sats,
            ),
            PricingModel::Free => "free".to_owned(),
            PricingModel::Hourly { rate_sats, minimum_hours } => joined(
                "hourly_",
                self.price_bucket(*rate_sats).as_str(),
            ),
            PricingModel::FixedProject { price_sats, milestones } => joined(
                "project_",
                self.price_bucket(*price_sats).as_str(),
            ),
        }
    }

    /// Get price bucket from range.
    fn get_price_bucket_from_range(&self, min_price: u64, max_price: u64) -> (r: String)
        ensures
            r@ == range_bucket(min_price, max_price),
    {
        if min_price == 0 && max_price == 0 {
            "free".to_owned()
        } else {
            let low = joined(self.price_bucket(min_price).as_str(), "_");
            joined(low.as_str(), self.price_bucket(max_price).as_str())
        }
    }

    /// Get price bucket name.
    fn price_bucket(&self, price_sats: u64) -> (r: String)
        ensures
            r@ == bucket(price_sats),
    {
        if price_sats == 0 {
            "free".to_owned()
        } else if price_sats <= 1000 {
            "micro".to_owned()
        } else if price_sats <= 10000 {
            "small".to_owned()
        } else if price_sats <= 100000 {
            "medium".to_owned()
        } else if price_sats <= 1000000 {
            "large".to_owned()
        } else {
            "premium".to_owned()
        }
    }
}

/// A search that has stopped stays stopped when more terms follow.
pub proof fn stays_stopped(
    full_text: Seq<PostingView<Seq<char>>>,
    terms: Seq<Seq<char>>,
    n: nat,
    m: nat,
)
    requires
        n <= m,
        by_terms(full_text, terms, n).stopped,
    ensures
        by_terms(full_text, terms, m) == by_terms(full_text, terms, n),
    decreases m,
{
    if n < m {
        stays_stopped(full_text, terms, n, (m - 1) as nat);
    }
}

} // verus!
