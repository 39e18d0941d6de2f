//! Delivery of purchased content: who may download what, and from whom.

use crate::clock::unix_seconds;
use crate::errors::{MarketplaceError, MarketplaceErrorView};
use crate::keyed::{
    distinct, find, position, position_found, position_is, put, put_keeps_distinct, Keyed,
};
use crate::marketplace::ListingId;
use crate::quantity::capped_u32;
use crate::text::joined;
use crate::views::{clone_vec, seq_view, seq_view_push, seq_view_update};
use vstd::prelude::*;

verus! {

/// Content delivery service result type.
pub type DeliveryResult<T> = Result<T, MarketplaceError>;

/// Whether `r` is the failure `e`.
pub open spec fn refused_with<T>(r: Result<T, MarketplaceError>, e: MarketplaceErrorView) -> bool {
    match r {
        Ok(_) => false,
        Err(err) => err@ == e,
    }
}

/// Unique content hash identifier.
#[derive(Debug, Hash)]
pub struct ContentHash(pub String);

impl View for ContentHash {
    type V = Seq<char>;

    open spec fn view(&self) -> Seq<char> {
        self.0@
    }
}

impl Clone for ContentHash {
    fn clone(&self) -> (r: Self)
        ensures
            r@ == self@,
    {
        ContentHash(self.0.clone())
    }
}

impl PartialEq for ContentHash {
    fn eq(&self, other: &Self) -> (r: bool) {
        self.0 == other.0
    }
}

impl Eq for ContentHash {}

impl vstd::std_specs::cmp::PartialEqSpecImpl for ContentHash {
    open spec fn obeys_eq_spec() -> bool {
        true
    }

    open spec fn eq_spec(&self, other: &Self) -> bool {
        self@ == other@
    }
}

impl ContentHash {
    /// Create from string hash.
    pub fn new(hash: String) -> (r: Self)
        ensures
            r@ == hash@,
    {
        ContentHash(hash)
    }

    /// Get as string.
    pub fn as_str(&self) -> (s: &str)
        ensures
            s@ == self@,
    {
        self.0.as_str()
    }
}

/// Access token for content delivery.
#[derive(Debug)]
pub struct AccessToken {
    /// Token string.
    pub token: String,
    /// Buyer peer ID.
    pub buyer: String,
    /// Listing ID.
    pub listing_id: ListingId,
    /// Content hash.
    pub content_hash: ContentHash,
    /// Granted timestamp.
    pub granted_at: u64,
    /// Expiration timestamp.
    pub expires_at: Option<u64>,
    /// Download count.
    pub download_count: u32,
    /// Maximum downloads allowed.
    pub max_downloads: Option<u32>,
}

/// The model of an [`AccessToken`].
pub ghost struct AccessTokenView {
    pub token: Seq<char>,
    pub buyer: Seq<char>,
    pub listing_id: Seq<char>,
    pub content_hash: Seq<char>,
    pub granted_at: u64,
    pub expires_at: Option<u64>,
    pub download_count: u32,
    pub max_downloads: Option<u32>,
}

impl View for AccessToken {
    type V = AccessTokenView;

    open spec fn view(&self) -> AccessTokenView {
        AccessTokenView {
            token: self.token@,
            buyer: self.buyer@,
            listing_id: self.listing_id@,
            content_hash: self.content_hash@,
            granted_at: self.granted_at,
            expires_at: self.expires_at,
            download_count: self.download_count,
            max_downloads: self.max_downloads,
        }
    }
}

impl Clone for AccessToken {
    fn clone(&self) -> (r: Self)
        ensures
            r@ == self@,
    {
        AccessToken {
            token: self.token.clone(),
            buyer: self.buyer.clone(),
            listing_id: self.listing_id.clone(),
            content_hash: self.content_hash.clone(),
            granted_at: self.granted_at,
            expires_at: self.expires_at,
            download_count: self.download_count,
            max_downloads: self.max_downloads,
        }
    }
}

/// Download information.
#[derive(Debug)]
pub struct DownloadInfo {
    /// Content hash.
    pub content_hash: ContentHash,
    /// Available providers.
    pub providers: Vec<String>,
    /// Access token.
    pub token: String,
}

/// The model of a [`DownloadInfo`].
pub ghost struct DownloadInfoView {
    pub content_hash: Seq<char>,
    pub providers: Seq<Seq<char>>,
    pub token: Seq<char>,
}

impl View for DownloadInfo {
    type V = DownloadInfoView;

    open spec fn view(&self) -> DownloadInfoView {
        DownloadInfoView {
            content_hash: self.content_hash@,
            providers: seq_view(self.providers@),
            token: self.token@,
        }
    }
}

impl Clone for DownloadInfo {
    fn clone(&self) -> (r: Self)
        ensures
            r@ == self@,
    {
        DownloadInfo {
            content_hash: self.content_hash.clone(),
            providers: clone_vec(&self.providers),
            token: self.token.clone(),
        }
    }
}

/// The providers of a content, in the order in which they registered.
#[derive(Debug)]
pub struct ContentProviders {
    /// The content.
    pub content_hash: ContentHash,
    /// The providers.
    pub providers: Vec<String>,
}

/// The model of a [`ContentProviders`].
pub ghost struct ContentProvidersView {
    pub content_hash: Seq<char>,
    pub providers: Seq<Seq<char>>,
}

impl View for ContentProviders {
    type V = ContentProvidersView;

    open spec fn view(&self) -> ContentProvidersView {
        ContentProvidersView {
            content_hash: self.content_hash@,
            providers: seq_view(self.providers@),
        }
    }
}

impl Clone for ContentProviders {
    fn clone(&self) -> (r: Self)
        ensures
            r@ == self@,
    {
        ContentProviders {
            content_hash: self.content_hash.clone(),
            providers: clone_vec(&self.providers),
        }
    }
}

impl Keyed for AccessTokenView {
    type Key = (Seq<char>, Seq<char>);

    open spec fn key(self) -> (Seq<char>, Seq<char>) {
        (self.buyer, self.listing_id)
    }
}

impl Keyed for ContentProvidersView {
    type Key = Seq<char>;

    open spec fn key(self) -> Seq<char> {
        self.content_hash
    }
}

/// The number of downloads that a new access token allows.
pub const DOWNLOADS_GRANTED: u32 = 5;

impl AccessTokenView {
    /// The token granted to a buyer at the time `now`: named after a unique
    /// text, without expiry, good for five downloads.
    pub open spec fn granted(
        buyer: Seq<char>,
        listing_id: Seq<char>,
        content_hash: Seq<char>,
        unique: Seq<char>,
        now: u64,
    ) -> Self {
        AccessTokenView {
            token: "tok_"@ + unique,
            buyer,
            listing_id,
            content_hash,
            granted_at: now,
            expires_at: None,
            download_count: 0,
            max_downloads: Some(DOWNLOADS_GRANTED),
        }
    }

    /// What stands in the way of a download at the time `now`, if anything:
    /// the token has expired, or its downloads are used up.
    pub open spec fn obstacle(self, now: u64) -> Option<MarketplaceErrorView> {
        if self.expires_at is Some && now > self.expires_at->Some_0 {
            Some(MarketplaceErrorView::TokenExpired)
        } else if self.max_downloads is Some && self.download_count >= self.max_downloads->Some_0 {
            Some(MarketplaceErrorView::DownloadLimitReached)
        } else {
            None
        }
    }

    /// The token after one more download, counted up to the bound of `u32`.
    pub open spec fn used(self) -> Self {
        AccessTokenView { download_count: capped_u32(self.download_count + 1), ..self }
    }
}

/// The model of the delivery service: the access tokens, at most one for a
/// buyer and a listing, and the providers of every content.
pub ghost struct DeliveryView {
    pub access_tokens: Seq<AccessTokenView>,
    pub providers: Seq<ContentProvidersView>,
}

/// The index of the first token at or after `from` that carries the text
/// `token` and belongs to `buyer`, or the number of tokens.
pub open spec fn presented(tokens: Seq<AccessTokenView>, token: Seq<char>, buyer: Seq<char>, from: int)
    -> int
    decreases tokens.len() - from,
{
    if from < 0 || from >= tokens.len() {
        tokens.len() as int
    } else if tokens[from].token == token && tokens[from].buyer == buyer {
        from
    } else {
        presented(tokens, token, buyer, from + 1)
    }
}

impl DeliveryView {
    /// The invariant of the service: at most one token for a buyer and a
    /// listing, and at most one list of providers for a content.
    pub open spec fn wf(self) -> bool {
        distinct(self.access_tokens) && distinct(self.providers)
    }

    /// The providers of a content.
    pub open spec fn providers_of(self, content_hash: Seq<char>) -> Seq<Seq<char>> {
        match find(self.providers, content_hash) {
            Some(entry) => entry.providers,
            None => Seq::empty(),
        }
    }

    /// Whether the service `after` and the outcome `r` are what a download
    /// at the time `now` gives. Without a token of that text for the buyer
    /// the token is invalid; a token that has expired or is used up is
    /// refused; nothing changes then. Otherwise the download is counted on
    /// the token, also when the content then turns out to have no providers,
    /// which fails; else the download is described.
    pub open spec fn downloaded(
        self,
        token: Seq<char>,
        buyer: Seq<char>,
        now: u64,
        after: DeliveryView,
        r: Result<DownloadInfo, MarketplaceError>,
    ) -> bool {
        let at = presented(self.access_tokens, token, buyer, 0);
        if at >= self.access_tokens.len() {
            after == self && refused_with(r, MarketplaceErrorView::InvalidToken)
        } else {
            let access = self.access_tokens[at];
            match access.obstacle(now) {
                Some(e) => after == self && refused_with(r, e),
                None => {
                    &&& after == (DeliveryView {
                        access_tokens: self.access_tokens.update(at, access.used()),
                        ..self
                    })
                    &&& match find(self.providers, access.content_hash) {
                        None => refused_with(r, MarketplaceErrorView::NoProviders),
                        Some(entry) => r is Ok && r->Ok_0@ == (DownloadInfoView {
                            content_hash: access.content_hash,
                            providers: entry.providers,
                            token,
                        }),
                    }
                },
            }
        }
    }
}

/// Content delivery service.
#[derive(Debug)]
pub struct ContentDeliveryService {
    /// Access tokens, at most one for a buyer and a listing.
    access_tokens: Vec<AccessToken>,
    /// Content providers, at most one list for a content.
    providers: Vec<ContentProviders>,
}

impl View for ContentDeliveryService {
    type V = DeliveryView;

    closed spec fn view(&self) -> DeliveryView {
        DeliveryView {
            access_tokens: seq_view(self.access_tokens@),
            providers: seq_view(self.providers@),
        }
    }
}

impl ContentDeliveryService {
    #[verifier::type_invariant]
    spec fn inv(&self) -> bool {
        self@.wf()
    }

    /// Create new content delivery service.
    pub fn new() -> (r: Self)
        ensures
            r@ == (DeliveryView { access_tokens: Seq::empty(), providers: Seq::empty() }),
            r@.wf(),
    {
        let access_tokens: Vec<AccessToken> = Vec::new();
        let providers: Vec<ContentProviders> = Vec::new();
        assert(seq_view(access_tokens@) =~= Seq::<AccessTokenView>::empty());
        assert(seq_view(providers@) =~= Seq::<ContentProvidersView>::empty());
        ContentDeliveryService { access_tokens, providers }
    }

    /// The place of the providers of a content, or the number of lists.
    fn providers_index(&self, content_hash: &ContentHash) -> (i: usize)
        ensures
            i == position(self@.providers, content_hash@),
            i <= self.providers.len(),
    {
        let mut i: usize = 0;
        while i < self.providers.len()
            invariant
                i <= self.providers.len(),
                forall|j: int| 0 <= j < i ==> seq_view(self.providers@)[j].key() != content_hash@,
            decreases self.providers.len() - i,
        {
            if self.providers[i].content_hash == *content_hash {
                proof {
                    position_is(self@.providers, content_hash@, i as int);
                }
                return i;
            }
            i += 1;
        }
        proof {
            position_is(self@.providers, content_hash@, i as int);
        }
        i
    }

    /// The place of the token of a buyer for a listing, or the number of
    /// tokens.
    fn grant_index(&self, buyer: &String, listing_id: &ListingId) -> (i: usize)
        ensures
            i == position(self@.access_tokens, (buyer@, listing_id@)),
            i <= self.access_tokens.len(),
    {
        let mut i: usize = 0;
        while i < self.access_tokens.len()
            invariant
                i <= self.access_tokens.len(),
                forall|j: int|
                    0 <= j < i ==> seq_view(self.access_tokens@)[j].key() != (
                        buyer@,
                        listing_id@,
                    ),
            decreases self.access_tokens.len() - i,
        {
            if self.access_tokens[i].buyer == *buyer && self.access_tokens[i].listing_id
                == *listing_id {
                proof {
                    position_is(self@.access_tokens, (buyer@, listing_id@), i as int);
                }
                return i;
            }
            i += 1;
        }
        proof {
            position_is(self@.access_tokens, (buyer@, listing_id@), i as int);
        }
        i
    }

    /// Register content provider: the provider joins the providers of the
    /// content as the last.
    pub fn register_provider(&mut self, content_hash: ContentHash, provider: String)
        ensures
            final(self)@.wf(),
            final(self)@ == (DeliveryView {
                providers: put(
                    old(self)@.providers,
                    ContentProvidersView {
                        content_hash: content_hash@,
                        providers: old(self)@.providers_of(content_hash@).push(provider@),
                    },
                ),
                ..old(self)@
            }),
    {
        proof {
            use_type_invariant(&*self);
            position_found(self@.providers, content_hash@);
        }
        let i = self.providers_index(&content_hash);
        let mut lists: Vec<ContentProviders> = Vec::new();
        core::mem::swap(&mut self.providers, &mut lists);
        if i < lists.len() {
            let mut providers = clone_vec(&lists[i].providers);
            proof {
                seq_view_push(providers@, provider);
            }
            providers.push(provider);
            let entry = ContentProviders { content_hash, providers };
            proof {
                put_keeps_distinct(seq_view(lists@), entry@);
                seq_view_update(lists@, i as int, entry);
            }
            lists[i] = entry;
        } else {
            let mut providers: Vec<String> = Vec::new();
            providers.push(provider);
            let entry = ContentProviders { content_hash, providers };
            proof {
                assert(entry@.providers =~= Seq::<Seq<char>>::empty().push(provider@));
                put_keeps_distinct(seq_view(lists@), entry@);
                seq_view_push(lists@, entry);
            }
            lists.push(entry);
        }
        self.providers = lists;
    }

    /// Grant access after purchase: the buyer gets a token for the listing,
    /// named after the unique text given, in the place of the token they had
    /// for it if any.
    pub fn grant_access(
        &mut self,
        buyer: String,
        listing_id: ListingId,
        content_hash: ContentHash,
        unique: &str,
    ) -> (r: DeliveryResult<AccessToken>)
        ensures
            final(self)@.wf(),
            r is Ok,
            r->Ok_0@ == AccessTokenView::granted(
                buyer@,
                listing_id@,
                content_hash@,
                unique@,
                r->Ok_0.granted_at,
            ),
            final(self)@ == (DeliveryView {
                access_tokens: put(old(self)@.access_tokens, r->Ok_0@),
                ..old(self)@
            }),
    {
        let token = AccessToken {
            token: joined("tok_", unique),
            buyer,
            listing_id,
            content_hash,
            granted_at: unix_seconds(),
            expires_at: None,
            download_count: 0,
            max_downloads: Some(DOWNLOADS_GRANTED),
        };
        proof {
            use_type_invariant(&*self);
            position_found(self@.access_tokens, token@.key());
            put_keeps_distinct(self@.access_tokens, token@);
        }
        let i = self.grant_index(&token.buyer, &token.listing_id);
        let stored = token.clone();
        let mut tokens: Vec<AccessToken> = Vec::new();
        core::mem::swap(&mut self.access_tokens, &mut tokens);
        if i < tokens.len() {
            proof {
                seq_view_update(tokens@, i as int, stored);
            }
            tokens[i] = stored;
        } else {
            proof {
                seq_view_push(tokens@, stored);
            }
            tokens.push(stored);
        }
        self.access_tokens = tokens;
        Ok(token)
    }

    /// The place of the first token of that text for the buyer, or the
    /// number of tokens.
    fn presented_index(&self, token: &String, buyer: &String) -> (i: usize)
        ensures
            i == presented(self@.access_tokens, token@, buyer@, 0),
            i <= self.access_tokens.len(),
    {
        let mut i: usize = 0;
        while i < self.access_tokens.len()
            invariant
                i <= self.access_tokens.len(),
                presented(self@.access_tokens, token@, buyer@, 0) == presented(
                    self@.access_tokens,
                    token@,
                    buyer@,
                    i as int,
                ),
            decreases self.access_tokens.len() - i,
        {
            if self.access_tokens[i].token == *token && self.access_tokens[i].buyer == *buyer {
                return i;
            }
            i += 1;
        }
        i
    }

    /// Verify access and get download information at the time `now`.
    pub fn get_download_at(&mut self, token: &str, buyer: &str, now: u64) -> (r: DeliveryResult<
        DownloadInfo,
    >)
        ensures
            final(self)@.wf(),
            old(self)@.downloaded(token@, buyer@, now, final(self)@, r),
    {
        proof {
            use_type_invariant(&*self);
        }
        let wanted = token.to_owned();
        let by = buyer.to_owned();
        let at = self.presented_index(&wanted, &by);
        if at >= self.access_tokens.len() {
            return Err(MarketplaceError::InvalidToken);
        }
        let mut access = self.access_tokens[at].clone();
        if let Some(expires) = access.expires_at {
            if now > expires {
                return Err(MarketplaceError::TokenExpired);
            }
        }
        if let Some(max) = access.max_downloads {
            if access.download_count >= max {
                return Err(MarketplaceError::DownloadLimitReached);
            }
        }
        access.download_count = access.download_count.saturating_add(1);
        let content_hash = access.content_hash.clone();
        proof {
            position_found(self@.providers, content_hash@);
            assert(access@.key() == self@.access_tokens[at as int].key());
        }
        let mut tokens: Vec<AccessToken> = Vec::new();
        core::mem::swap(&mut self.access_tokens, &mut tokens);
        proof {
            seq_view_update(tokens@, at as int, access);
        }
        tokens[at] = access;
        self.access_tokens = tokens;
        let p = self.providers_index(&content_hash);
        if p >= self.providers.len() {
            return Err(MarketplaceError::NoProviders);
        }
        Ok(
            DownloadInfo {
                content_hash,
                providers: clone_vec(&self.providers[p].providers),
                token: wanted,
            },
        )
    }

    /// Verify access and get download information by the clock.
    pub fn get_download(&mut self, token: &str, buyer: &str) -> (r: DeliveryResult<DownloadInfo>)
        ensures
            final(self)@.wf(),
            exists|now: u64| old(self)@.downloaded(token@, buyer@, now, final(self)@, r),
    {
        let now = unix_seconds();
        self.get_download_at(token, buyer, now)
    }

    /// Revoke access (for refunds/disputes): the token of the buyer for the
    /// listing goes, if there is one.
    pub fn revoke_access(&mut self, buyer: &str, listing_id: &ListingId)
        ensures
            final(self)@.wf(),
            final(self)@ == (DeliveryView {
                access_tokens: match find(old(self)@.access_tokens, (buyer@, listing_id@)) {
                    Some(_) => old(self)@.access_tokens.remove(
                        position(old(self)@.access_tokens, (buyer@, listing_id@)),
                    ),
                    None => old(self)@.access_tokens,
                },
                ..old(self)@
            }),
    {
        proof {
            use_type_invariant(&*self);
            position_found(self@.access_tokens, (buyer@, listing_id@));
        }
        let by = buyer.to_owned();
        let i = self.grant_index(&by, listing_id);
        if i < self.access_tokens.len() {
            let mut tokens: Vec<AccessToken> = Vec::new();
            core::mem::swap(&mut self.access_tokens, &mut tokens);
            let ghost before = seq_view(tokens@);
            let _ = tokens.remove(i);
            assert(seq_view(tokens@) =~= before.remove(i as int));
            self.access_tokens = tokens;
        }
    }
}

impl Default for ContentDeliveryService {
    fn default() -> (r: Self)
        ensures
            r@.wf(),
    {
        ContentDeliveryService::new()
    }
}

} // verus!
