//! The create and redirect paths as state machines. Each step takes what the
//! cache or the durable store answered and says what to do next; the caller
//! performs that work and feeds the answer back.

use vstd::prelude::*;
use crate::error::{AppError, CacheUnavailable, InputProblem, StoreFailure};
use crate::link::{link_active, CreateLinkRequest, CreateLinkResponse, Link};
use crate::primitives::{parse_url_scheme, random_uuid, unix_time_nanos, url_scheme_of};
use crate::shortener::{base62_code, generate_short_code_base62, is_valid_custom_code, valid_custom_code};

verus! {

/// Cache lifetime of the entry written when a link is created.
pub const CREATE_CACHE_TTL_SECS: u64 = 3600;

/// Cache lifetime of the entry written when a redirect misses the cache.
pub const DEFAULT_CACHE_TTL_SECS: u64 = 86400;

const SECS_PER_HOUR: i64 = 3600;

/// A value to put in the cache, awaited before answering; a failure is ignored.
#[derive(Clone, Debug, PartialEq, Eq)]
pub struct CacheEntry {
    pub key: String,
    pub value: String,
    pub ttl_secs: u64,
}

/// Work started without waiting for it; its failure never reaches the caller.
#[derive(Clone, Debug, PartialEq, Eq)]
pub enum Detached {
    /// Increment the cache counter `key`.
    CacheIncrement { key: String },
    /// Increment the durable click count of `code`.
    StoreIncrementClicks { code: String },
}

/// A resolved redirect: where to, whether the cache served it, and its entity tag.
#[derive(Clone, Debug, PartialEq, Eq)]
pub struct Resolution {
    pub destination_url: String,
    pub cache_hit: bool,
    pub etag: String,
}

/// Whether a parsed URL scheme is one the service shortens.
pub open spec fn accepted_scheme(scheme: Option<Seq<char>>) -> bool {
    scheme == Some("http"@) || scheme == Some("https"@)
}

pub open spec fn opt_view(s: Option<String>) -> Option<Seq<char>> {
    match s {
        Some(x) => Some(x@),
        None => None,
    }
}

pub open spec fn opt_int(t: Option<i64>) -> Option<int> {
    match t {
        Some(x) => Some(x as int),
        None => None,
    }
}

/// The expiry `hours` hours after `now`, if hours are given.
pub open spec fn expiry_at(now: i64, hours: Option<i32>) -> Option<int> {
    match hours {
        Some(h) => Some(now + 3600 * h),
        None => None,
    }
}

/// The code a create request stores under: its custom code, else the base-62 code of its URL.
pub open spec fn chosen_code(req: CreateLinkRequest) -> Seq<char> {
    match req.custom_code {
        Some(c) => c@,
        None => base62_code(req.url@),
    }
}

/// Why a create request is refused before any storage access, if it is.
pub open spec fn create_rejection(req: CreateLinkRequest, scheme: Option<Seq<char>>, now: i64) -> Option<
    InputProblem,
> {
    if scheme is None {
        Some(InputProblem::MalformedUrl)
    } else if !accepted_scheme(scheme) {
        Some(InputProblem::UnsupportedScheme)
    } else if req.custom_code is Some && !valid_custom_code(req.custom_code.unwrap()@) {
        Some(InputProblem::MalformedCode)
    } else if expiry_at(now, req.expires_in_hours) is Some && !(i64::MIN <= expiry_at(
        now,
        req.expires_in_hours,
    ).unwrap() <= i64::MAX) {
        Some(InputProblem::ExpiryOutOfRange)
    } else {
        None
    }
}

/// The record that a create request at `now` stores under identifier `id`.
pub open spec fn is_new_link(l: Link, req: CreateLinkRequest, now: i64, id: u128) -> bool {
    &&& l.id == id
    &&& l.short_code@ == chosen_code(req)
    &&& l.original_url@ == req.url@
    &&& l.clicks == 0
    &&& l.created_at == now
    &&& opt_int(l.expires_at) == expiry_at(now, req.expires_in_hours)
}

/// `base/code`.
pub open spec fn short_url_of(base_url: Seq<char>, code: Seq<char>) -> Seq<char> {
    base_url + "/"@ + code
}

/// The entity tag of a code: the code in double quotes.
pub open spec fn etag_of(code: Seq<char>) -> Seq<char> {
    "\""@ + code + "\""@
}

/// The cache counter that accumulates cache-served hits of a code.
pub open spec fn click_key_of(code: Seq<char>) -> Seq<char> {
    "clicks:"@ + code
}

/// Where a create is.
#[derive(Clone, Copy, Debug, PartialEq, Eq)]
pub enum CreatePhase {
    AwaitingLookup,
    AwaitingInsert,
    Finished,
}

/// What the create path asks for next.
#[derive(Debug, PartialEq, Eq)]
pub enum CreateAction {
    /// Fetch the active link stored under `code`, if any.
    LookUp { code: String },
    /// Store `link`.
    Insert { link: Link },
    /// Write `fill` to the cache if given, then answer with `result`.
    Finish { result: Result<CreateLinkResponse, AppError>, fill: Option<CacheEntry> },
}

/// A create in progress: the record it will store and the base of short URLs.
#[derive(Clone, Debug, PartialEq, Eq)]
pub struct CreateFlow {
    pub link: Link,
    pub base_url: String,
    pub phase: CreatePhase,
}

/// The outcome of starting a create of `req` at `now` with identifier `id`,
/// given the scheme that URL parsing found.
pub open spec fn create_begun(
    req: CreateLinkRequest,
    base_url: Seq<char>,
    now: i64,
    id: u128,
    scheme: Option<Seq<char>>,
    flow: CreateFlow,
    action: CreateAction,
) -> bool {
    let rejection = create_rejection(req, scheme, now);
    if rejection is Some {
        &&& action == (CreateAction::Finish {
            result: Err(AppError::InvalidInput(rejection.unwrap())),
            fill: None,
        })
        &&& flow.phase == CreatePhase::Finished
    } else {
        &&& is_new_link(flow.link, req, now, id)
        &&& flow.base_url@ == base_url
        &&& if req.custom_code is Some {
            &&& flow.phase == CreatePhase::AwaitingLookup
            &&& action is LookUp
            &&& action->LookUp_code@ == chosen_code(req)
        } else {
            &&& flow.phase == CreatePhase::AwaitingInsert
            &&& action == (CreateAction::Insert { link: flow.link })
        }
    }
}

fn str_eq(a: &str, b: &str) -> (r: bool)
    ensures
        r == (a@ == b@),
{
    let n = a.unicode_len();
    if n != b.unicode_len() {
        return false;
    }
    let mut i: usize = 0;
    while i < n
        invariant
            n == a@.len(),
            n == b@.len(),
            i <= n,
            forall|j: int| 0 <= j < i ==> a@[j] == b@[j],
        decreases n - i,
    {
        if a.get_char(i) != b.get_char(i) {
            return false;
        }
        i = i + 1;
    }
    proof {
        assert(a@ =~= b@);
    }
    true
}

/// The wall clock in Unix seconds, held within the range of `i64`.
pub fn current_unix_secs() -> (r: i64) {
    let nanos = unix_time_nanos();
    let secs = nanos / 1_000_000_000;
    if secs > i64::MAX as i128 {
        i64::MAX
    } else if secs < i64::MIN as i128 {
        i64::MIN
    } else {
        secs as i64
    }
}

impl CreateFlow {
    /// A create that ended before any storage access, refused for `problem`.
    fn refused(problem: InputProblem) -> (r: (CreateFlow, CreateAction))
        ensures
            r.1 == (CreateAction::Finish { result: Err(AppError::InvalidInput(problem)), fill: None }),
            r.0.phase == CreatePhase::Finished,
    {
        let link = Link {
            id: 0,
            short_code: String::new(),
            original_url: String::new(),
            clicks: 0,
            created_at: 0,
            expires_at: None,
        };
        (
            CreateFlow { link, base_url: String::new(), phase: CreatePhase::Finished },
            CreateAction::Finish { result: Err(AppError::InvalidInput(problem)), fill: None },
        )
    }

    /// Starts a create of `req` at `now` with identifier `id`, given the scheme
    /// that URL parsing found (`None` when the URL did not parse).
    pub fn begin(req: &CreateLinkRequest, base_url: &str, now: i64, id: u128, scheme: Option<String>) -> (r: (
        CreateFlow,
        CreateAction,
    ))
        ensures
            create_begun(*req, base_url@, now, id, opt_view(scheme), r.0, r.1),
    {
        let s = match scheme {
            None => {
                return CreateFlow::refused(InputProblem::MalformedUrl);
            },
            Some(s) => s,
        };
        proof {
            reveal_strlit("http");
            reveal_strlit("https");
        }
        if !(str_eq(s.as_str(), "http") || str_eq(s.as_str(), "https")) {
            return CreateFlow::refused(InputProblem::UnsupportedScheme);
        }
        if let Some(c) = &req.custom_code {
            if !is_valid_custom_code(c.as_str()) {
                return CreateFlow::refused(InputProblem::MalformedCode);
            }
        }
        let expires_at: Option<i64> = match req.expires_in_hours {
            None => None,
            Some(h) => {
                let offset: i64 = (h as i64) * SECS_PER_HOUR;
                match now.checked_add(offset) {
                    Some(t) => Some(t),
                    None => {
                        return CreateFlow::refused(InputProblem::ExpiryOutOfRange);
                    },
                }
            },
        };
        let code = match &req.custom_code {
            Some(c) => c.clone(),
            None => generate_short_code_base62(req.url.as_str()),
        };
        let link = Link {
            id,
            short_code: code.clone(),
            original_url: req.url.clone(),
            clicks: 0,
            created_at: now,
            expires_at,
        };
        let flow_link = link.duplicate();
        if req.custom_code.is_some() {
            (
                CreateFlow { link: flow_link, base_url: base_url.to_owned(), phase: CreatePhase::AwaitingLookup },
                CreateAction::LookUp { code },
            )
        } else {
            (
                CreateFlow { link: flow_link, base_url: base_url.to_owned(), phase: CreatePhase::AwaitingInsert },
                CreateAction::Insert { link },
            )
        }
    }

    /// Starts a create of `req` now, with a fresh random identifier, parsing its
    /// URL to find the scheme.
    pub fn start(req: &CreateLinkRequest, base_url: &str) -> (r: (CreateFlow, CreateAction))
        ensures
            exists|now: i64, id: u128|
                create_begun(*req, base_url@, now, id, url_scheme_of(req.url@), r.0, r.1),
    {
        let scheme = parse_url_scheme(req.url.as_str());
        let now = current_unix_secs();
        let id = random_uuid();
        let r = CreateFlow::begin(req, base_url, now, id, scheme);
        assert(create_begun(*req, base_url@, now, id, url_scheme_of(req.url@), r.0, r.1));
        r
    }

    /// Takes the store's answer to the lookup of a custom code: a failure makes
    /// the create unavailable, an active link under the code is a conflict, and
    /// otherwise the record is to be stored.
    pub fn on_lookup(&mut self, reply: Result<Option<Link>, StoreFailure>) -> (r: CreateAction)
        requires
            old(self).phase == CreatePhase::AwaitingLookup,
        ensures
            final(self).link == old(self).link,
            final(self).base_url == old(self).base_url,
            match reply {
                Err(_) => r == (CreateAction::Finish { result: Err(AppError::Unavailable), fill: None })
                    && final(self).phase == CreatePhase::Finished,
                Ok(Some(l)) if link_active(l.expires_at, old(self).link.created_at) => r == (
                CreateAction::Finish { result: Err(AppError::Conflict), fill: None })
                    && final(self).phase == CreatePhase::Finished,
                Ok(_) => r == (CreateAction::Insert { link: old(self).link })
                    && final(self).phase == CreatePhase::AwaitingInsert,
            },
    {
        match reply {
            Err(_) => {
                self.phase = CreatePhase::Finished;
                CreateAction::Finish { result: Err(AppError::Unavailable), fill: None }
            },
            Ok(found) => {
                let taken = match &found {
                    Some(l) => l.is_active(self.link.created_at),
                    None => false,
                };
                if taken {
                    self.phase = CreatePhase::Finished;
                    CreateAction::Finish { result: Err(AppError::Conflict), fill: None }
                } else {
                    self.phase = CreatePhase::AwaitingInsert;
                    CreateAction::Insert { link: self.link.duplicate() }
                }
            },
        }
    }

    /// Takes the store's answer to the insert: on success, answer with the code
    /// and short URL after caching the link for an hour; a taken code is a
    /// conflict, any other failure makes the create unavailable.
    pub fn on_insert(&mut self, reply: Result<(), StoreFailure>) -> (r: CreateAction)
        requires
            old(self).phase == CreatePhase::AwaitingInsert,
        ensures
            final(self).link == old(self).link,
            final(self).base_url == old(self).base_url,
            final(self).phase == CreatePhase::Finished,
            match reply {
                Ok(()) => match r {
                    CreateAction::Finish { result: Ok(resp), fill: Some(entry) } => {
                        &&& resp.short_code@ == old(self).link.short_code@
                        &&& resp.short_url@ == short_url_of(
                            old(self).base_url@,
                            old(self).link.short_code@,
                        )
                        &&& entry.key@ == old(self).link.short_code@
                        &&& entry.value@ == old(self).link.original_url@
                        &&& entry.ttl_secs == CREATE_CACHE_TTL_SECS
                    },
                    _ => false,
                },
                Err(StoreFailure::UniqueViolation) => r == (CreateAction::Finish {
                    result: Err(AppError::Conflict),
                    fill: None,
                }),
                Err(StoreFailure::Backend) => r == (CreateAction::Finish {
                    result: Err(AppError::Unavailable),
                    fill: None,
                }),
            },
    {
        self.phase = CreatePhase::Finished;
        match reply {
            Ok(()) => {
                let code = self.link.short_code.clone();
                let short_url = self.base_url.clone().concat("/").concat(code.as_str());
                let entry = CacheEntry {
                    key: code.clone(),
                    value: self.link.original_url.clone(),
                    ttl_secs: CREATE_CACHE_TTL_SECS,
                };
                CreateAction::Finish {
                    result: Ok(CreateLinkResponse { short_url, short_code: code }),
                    fill: Some(entry),
                }
            },
            Err(StoreFailure::UniqueViolation) => CreateAction::Finish {
                result: Err(AppError::Conflict),
                fill: None,
            },
            Err(StoreFailure::Backend) => CreateAction::Finish {
                result: Err(AppError::Unavailable),
                fill: None,
            },
        }
    }
}

/// Where a redirect is.
#[derive(Clone, Copy, Debug, PartialEq, Eq)]
pub enum ResolvePhase {
    AwaitingCache,
    AwaitingStore,
    Resolved,
    NotFound,
    Failed,
}

/// What the redirect path asks for next.
#[derive(Debug, PartialEq, Eq)]
pub enum ResolveAction {
    /// Read the cache under `key`.
    CacheGet { key: String },
    /// Fetch the active link stored under `code`.
    StoreGet { code: String },
    /// Write `fill` to the cache if given, answer with `result`, and start
    /// `detached` without waiting for it.
    Respond {
        result: Result<Resolution, AppError>,
        fill: Option<CacheEntry>,
        detached: Option<Detached>,
    },
}

/// A redirect in progress for `code`.
#[derive(Clone, Debug, PartialEq, Eq)]
pub struct ResolveFlow {
    pub code: String,
    pub phase: ResolvePhase,
}

/// A resolution of `code` to `url`, served by the cache or not.
pub open spec fn resolves_to(res: Resolution, code: Seq<char>, url: Seq<char>, hit: bool) -> bool {
    &&& res.destination_url@ == url
    &&& res.cache_hit == hit
    &&& res.etag@ == etag_of(code)
}

fn etag(code: &String) -> (r: String)
    ensures
        r@ == etag_of(code@),
{
    String::from_str("\"").concat(code.as_str()).concat("\"")
}

impl ResolveFlow {
    /// Starts resolving `code`: the cache is read first.
    pub fn begin(code: &str) -> (r: (ResolveFlow, ResolveAction))
        ensures
            r.0.code@ == code@,
            r.0.phase == ResolvePhase::AwaitingCache,
            r.1 is CacheGet,
            r.1->CacheGet_key@ == code@,
    {
        (
            ResolveFlow { code: code.to_owned(), phase: ResolvePhase::AwaitingCache },
            ResolveAction::CacheGet { key: code.to_owned() },
        )
    }

    /// Takes the cache's answer: a hit answers at once and bumps the code's
    /// cache counter in the background; a miss or a cache failure goes on to
    /// the durable store.
    pub fn on_cache_reply(&mut self, reply: Result<Option<String>, CacheUnavailable>) -> (r: ResolveAction)
        requires
            old(self).phase == ResolvePhase::AwaitingCache,
        ensures
            final(self).code == old(self).code,
            match reply {
                Ok(Some(url)) => final(self).phase == ResolvePhase::Resolved && match r {
                    ResolveAction::Respond {
                        result: Ok(res),
                        fill: None,
                        detached: Some(Detached::CacheIncrement { key }),
                    } => resolves_to(res, old(self).code@, url@, true) && key@ == click_key_of(
                        old(self).code@,
                    ),
                    _ => false,
                },
                _ => final(self).phase == ResolvePhase::AwaitingStore && r is StoreGet
                    && r->StoreGet_code@ == old(self).code@,
            },
    {
        match reply {
            Ok(Some(url)) => {
                self.phase = ResolvePhase::Resolved;
                let key = String::from_str("clicks:").concat(self.code.as_str());
                ResolveAction::Respond {
                    result: Ok(Resolution { destination_url: url, cache_hit: true, etag: etag(&self.code) }),
                    fill: None,
                    detached: Some(Detached::CacheIncrement { key }),
                }
            },
            _ => {
                self.phase = ResolvePhase::AwaitingStore;
                ResolveAction::StoreGet { code: self.code.clone() }
            },
        }
    }

    /// Takes the store's answer at time `now`: an active link is cached for a
    /// day, answered, and its durable click count bumped in the background; no
    /// link or an expired one is not found; a store failure is unavailable.
    pub fn on_store_reply(&mut self, reply: Result<Option<Link>, StoreFailure>, now: i64) -> (r: ResolveAction)
        requires
            old(self).phase == ResolvePhase::AwaitingStore,
        ensures
            final(self).code == old(self).code,
            match reply {
                Ok(Some(l)) if link_active(l.expires_at, now) => final(self).phase
                    == ResolvePhase::Resolved && match r {
                    ResolveAction::Respond {
                        result: Ok(res),
                        fill: Some(entry),
                        detached: Some(Detached::StoreIncrementClicks { code }),
                    } => {
                        &&& resolves_to(res, old(self).code@, l.original_url@, false)
                        &&& entry.key@ == old(self).code@
                        &&& entry.value@ == l.original_url@
                        &&& entry.ttl_secs == DEFAULT_CACHE_TTL_SECS
                        &&& code@ == old(self).code@
                    },
                    _ => false,
                },
                Ok(_) => final(self).phase == ResolvePhase::NotFound && r == (ResolveAction::Respond {
                    result: Err(AppError::NotFound),
                    fill: None,
                    detached: None,
                }),
                Err(_) => final(self).phase == ResolvePhase::Failed && r == (ResolveAction::Respond {
                    result: Err(AppError::Unavailable),
                    fill: None,
                    detached: None,
                }),
            },
    {
        match reply {
            Err(_) => {
                self.phase = ResolvePhase::Failed;
                ResolveAction::Respond { result: Err(AppError::Unavailable), fill: None, detached: None }
            },
            Ok(None) => {
                self.phase = ResolvePhase::NotFound;
                ResolveAction::Respond { result: Err(AppError::NotFound), fill: None, detached: None }
            },
            Ok(Some(l)) => {
                if !l.is_active(now) {
                    self.phase = ResolvePhase::NotFound;
                    return ResolveAction::Respond {
                        result: Err(AppError::NotFound),
                        fill: None,
                        detached: None,
                    };
                }
                self.phase = ResolvePhase::Resolved;
                let entry = CacheEntry {
                    key: self.code.clone(),
                    value: l.original_url.clone(),
                    ttl_secs: DEFAULT_CACHE_TTL_SECS,
                };
                ResolveAction::Respond {
                    result: Ok(Resolution {
                        destination_url: l.original_url,
                        cache_hit: false,
                        etag: etag(&self.code),
                    }),
                    fill: Some(entry),
                    detached: Some(Detached::StoreIncrementClicks { code: self.code.clone() }),
                }
            },
        }
    }
}

} // verus!
