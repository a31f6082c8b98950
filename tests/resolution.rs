use std::collections::HashMap;

use link_shortener::error::{AppError, CacheUnavailable, InputProblem, StoreFailure};
use link_shortener::link::{CreateLinkRequest, CreateLinkResponse, Link};
use link_shortener::resolution::{
    CacheEntry, CreateAction, CreateFlow, CreatePhase, Detached, ResolveAction, ResolveFlow,
    ResolvePhase, Resolution, CREATE_CACHE_TTL_SECS, DEFAULT_CACHE_TTL_SECS,
};
use link_shortener::shortener::generate_short_code_base62;

const BASE: &str = "https://sho.rt";

#[derive(Default)]
struct Backends {
    links: Vec<Link>,
    cache: HashMap<String, String>,
    counters: HashMap<String, i64>,
    cache_down: bool,
    store_down: bool,
}

impl Backends {
    fn get_active(&self, code: &str, now: i64) -> Result<Option<Link>, StoreFailure> {
        if self.store_down {
            return Err(StoreFailure::Backend);
        }
        Ok(self.links.iter().find(|l| l.short_code == code && l.is_active(now)).cloned())
    }

    fn insert(&mut self, link: Link, now: i64) -> Result<(), StoreFailure> {
        if self.store_down {
            return Err(StoreFailure::Backend);
        }
        if let Some(pos) = self.links.iter().position(|l| l.short_code == link.short_code) {
            if self.links[pos].is_active(now) {
                return Err(StoreFailure::UniqueViolation);
            }
            self.links[pos] = link;
        } else {
            self.links.push(link);
        }
        Ok(())
    }

    fn cache_get(&self, key: &str) -> Result<Option<String>, CacheUnavailable> {
        if self.cache_down {
            return Err(CacheUnavailable);
        }
        Ok(self.cache.get(key).cloned())
    }

    fn run_detached(&mut self, work: Detached) {
        match work {
            Detached::CacheIncrement { key } => *self.counters.entry(key).or_insert(0) += 1,
            Detached::StoreIncrementClicks { code } => {
                if let Some(l) = self.links.iter_mut().find(|l| l.short_code == code) {
                    l.clicks += 1;
                }
            }
        }
    }

    fn drive_create(&mut self, start: (CreateFlow, CreateAction)) -> Result<CreateLinkResponse, AppError> {
        let (mut flow, mut action) = start;
        let now = flow.link.created_at;
        loop {
            action = match action {
                CreateAction::LookUp { code } => {
                    let found = self.get_active(&code, now);
                    flow.on_lookup(found)
                }
                CreateAction::Insert { link } => {
                    let outcome = self.insert(link, now);
                    flow.on_insert(outcome)
                }
                CreateAction::Finish { result, fill } => {
                    if let Some(CacheEntry { key, value, .. }) = fill {
                        if !self.cache_down {
                            self.cache.insert(key, value);
                        }
                    }
                    return result;
                }
            };
        }
    }

    fn create_at(&mut self, url: &str, custom: Option<&str>, hours: Option<i32>, now: i64) -> Result<CreateLinkResponse, AppError> {
        let req = request(url, custom, hours);
        let start = CreateFlow::begin(&req, BASE, now, 7, Some("https".to_string()));
        self.drive_create(start)
    }

    fn resolve(&mut self, code: &str, now: i64) -> Result<Resolution, AppError> {
        let (mut flow, mut action) = ResolveFlow::begin(code);
        loop {
            action = match action {
                ResolveAction::CacheGet { key } => {
                    let reply = self.cache_get(&key);
                    flow.on_cache_reply(reply)
                }
                ResolveAction::StoreGet { code } => {
                    let reply = self.get_active(&code, now);
                    flow.on_store_reply(reply, now)
                }
                ResolveAction::Respond { result, fill, detached } => {
                    if let Some(CacheEntry { key, value, .. }) = fill {
                        if !self.cache_down {
                            self.cache.insert(key, value);
                        }
                    }
                    if let Some(work) = detached {
                        self.run_detached(work);
                    }
                    return result;
                }
            };
        }
    }
}

fn request(url: &str, custom: Option<&str>, hours: Option<i32>) -> CreateLinkRequest {
    CreateLinkRequest {
        url: url.to_string(),
        custom_code: custom.map(|c| c.to_string()),
        expires_in_hours: hours,
    }
}

#[test]
fn create_then_resolve_hits_cache() {
    let mut b = Backends::default();
    let req = request("https://example.com", None, None);
    let resp = b.drive_create(CreateFlow::start(&req, BASE)).unwrap();
    assert!(!resp.short_code.is_empty());
    assert!(resp.short_code.chars().all(|c| c.is_ascii_alphanumeric()));
    assert_eq!(resp.short_code, "1NIm5dudJe1");
    assert_eq!(resp.short_url, "https://sho.rt/1NIm5dudJe1");

    let res = b.resolve(&resp.short_code, 0).unwrap();
    assert!(res.cache_hit);
    assert_eq!(res.destination_url, "https://example.com");
    assert_eq!(res.etag, "\"1NIm5dudJe1\"");
    assert_eq!(b.counters.get("clicks:1NIm5dudJe1"), Some(&1));
}

#[test]
fn custom_code_conflicts_while_active_and_frees_after_expiry() {
    let mut b = Backends::default();
    let first = b.create_at("https://example.com/a", Some("mycode"), Some(1), 1_000).unwrap();
    assert_eq!(first.short_code, "mycode");
    assert_eq!(b.links[0].expires_at, Some(1_000 + 3600));

    let again = b.create_at("https://example.com/b", Some("mycode"), None, 2_000);
    assert_eq!(again, Err(AppError::Conflict));

    let later = b.create_at("https://example.com/b", Some("mycode"), None, 1_000 + 3600);
    assert_eq!(later.unwrap().short_code, "mycode");
    b.cache.clear();
    assert_eq!(b.resolve("mycode", 10_000).unwrap().destination_url, "https://example.com/b");
}

#[test]
fn resolve_nonexistent_code_is_not_found() {
    let mut b = Backends::default();
    assert_eq!(b.resolve("nonexistent", 0), Err(AppError::NotFound));
}

#[test]
fn cache_miss_falls_back_to_store_and_fills_cache() {
    let mut b = Backends::default();
    b.create_at("https://example.com/x", Some("xcode"), None, 0).unwrap();
    b.cache.clear();
    let res = b.resolve("xcode", 5).unwrap();
    assert!(!res.cache_hit);
    assert_eq!(res.destination_url, "https://example.com/x");
    assert_eq!(b.cache.get("xcode").map(|s| s.as_str()), Some("https://example.com/x"));
    assert_eq!(b.links[0].clicks, 1);
    assert!(b.resolve("xcode", 6).unwrap().cache_hit);
}

#[test]
fn cache_failure_is_treated_as_miss() {
    let mut b = Backends::default();
    b.create_at("https://example.com/y", Some("ycode"), None, 0).unwrap();
    b.cache_down = true;
    let res = b.resolve("ycode", 1).unwrap();
    assert!(!res.cache_hit);
}

#[test]
fn expired_link_is_not_found() {
    let mut b = Backends::default();
    b.links.push(Link {
        id: 1,
        short_code: "old".to_string(),
        original_url: "https://example.com".to_string(),
        clicks: 0,
        created_at: 0,
        expires_at: Some(100),
    });
    assert_eq!(b.resolve("old", 100), Err(AppError::NotFound));
    let (mut flow, _) = ResolveFlow::begin("old");
    flow.on_cache_reply(Ok(None));
    let expired = b.links[0].clone();
    let action = flow.on_store_reply(Ok(Some(expired)), 100);
    assert_eq!(action, ResolveAction::Respond { result: Err(AppError::NotFound), fill: None, detached: None });
    assert_eq!(flow.phase, ResolvePhase::NotFound);
}

#[test]
fn store_failure_is_unavailable() {
    let mut b = Backends::default();
    b.store_down = true;
    assert_eq!(b.resolve("abc", 0), Err(AppError::Unavailable));
    assert_eq!(b.create_at("https://example.com", Some("abcd"), None, 0), Err(AppError::Unavailable));
    assert_eq!(b.create_at("https://example.com", None, None, 0), Err(AppError::Unavailable));
}

#[test]
fn derived_code_collision_is_conflict() {
    let mut b = Backends::default();
    b.create_at("https://example.com", None, None, 0).unwrap();
    assert_eq!(b.create_at("https://example.com", None, None, 0), Err(AppError::Conflict));
}

#[test]
fn invalid_inputs_are_rejected() {
    let req = request("ftp://example.com", None, None);
    let (flow, action) = CreateFlow::start(&req, BASE);
    assert_eq!(action, CreateAction::Finish { result: Err(AppError::InvalidInput(InputProblem::UnsupportedScheme)), fill: None });
    assert_eq!(flow.phase, CreatePhase::Finished);

    let req = request("not a url", None, None);
    let (_, action) = CreateFlow::start(&req, BASE);
    assert_eq!(action, CreateAction::Finish { result: Err(AppError::InvalidInput(InputProblem::MalformedUrl)), fill: None });

    let req = request("https://example.com", Some("bad code"), None);
    let (_, action) = CreateFlow::start(&req, BASE);
    assert_eq!(action, CreateAction::Finish { result: Err(AppError::InvalidInput(InputProblem::MalformedCode)), fill: None });

    let req = request("https://example.com", None, Some(i32::MAX));
    let (_, action) = CreateFlow::begin(&req, BASE, i64::MAX - 10, 1, Some("https".to_string()));
    assert_eq!(action, CreateAction::Finish { result: Err(AppError::InvalidInput(InputProblem::ExpiryOutOfRange)), fill: None });

    let req = request("https://example.com", None, None);
    let (_, action) = CreateFlow::begin(&req, BASE, 0, 1, Some("HTTP".to_string()));
    assert_eq!(action, CreateAction::Finish { result: Err(AppError::InvalidInput(InputProblem::UnsupportedScheme)), fill: None });
}

#[test]
fn http_scheme_is_accepted_and_record_is_built() {
    let req = request("http://example.com/p", None, Some(2));
    let (flow, action) = CreateFlow::begin(&req, BASE, 50, 99, Some("http".to_string()));
    let expected = Link {
        id: 99,
        short_code: generate_short_code_base62("http://example.com/p"),
        original_url: "http://example.com/p".to_string(),
        clicks: 0,
        created_at: 50,
        expires_at: Some(50 + 7200),
    };
    assert_eq!(action, CreateAction::Insert { link: expected.clone() });
    assert_eq!(flow.link, expected);
    assert_eq!(flow.phase, CreatePhase::AwaitingInsert);
}

#[test]
fn successful_insert_answers_and_caches_for_an_hour() {
    let req = request("https://example.com", Some("abc"), None);
    let (mut flow, action) = CreateFlow::begin(&req, BASE, 0, 1, Some("https".to_string()));
    assert_eq!(action, CreateAction::LookUp { code: "abc".to_string() });
    assert_eq!(flow.phase, CreatePhase::AwaitingLookup);
    let action = flow.on_lookup(Ok(None));
    assert!(matches!(action, CreateAction::Insert { .. }));
    let action = flow.on_insert(Ok(()));
    assert_eq!(
        action,
        CreateAction::Finish {
            result: Ok(CreateLinkResponse {
                short_url: "https://sho.rt/abc".to_string(),
                short_code: "abc".to_string(),
            }),
            fill: Some(CacheEntry {
                key: "abc".to_string(),
                value: "https://example.com".to_string(),
                ttl_secs: CREATE_CACHE_TTL_SECS,
            }),
        }
    );
}

#[test]
fn store_hit_fills_cache_for_a_day() {
    let (mut flow, action) = ResolveFlow::begin("abc");
    assert_eq!(action, ResolveAction::CacheGet { key: "abc".to_string() });
    assert_eq!(flow.on_cache_reply(Ok(None)), ResolveAction::StoreGet { code: "abc".to_string() });
    assert_eq!(flow.phase, ResolvePhase::AwaitingStore);
    let link = Link {
        id: 3,
        short_code: "abc".to_string(),
        original_url: "https://example.com/z".to_string(),
        clicks: 4,
        created_at: 0,
        expires_at: Some(1_000),
    };
    let action = flow.on_store_reply(Ok(Some(link)), 999);
    assert_eq!(
        action,
        ResolveAction::Respond {
            result: Ok(Resolution {
                destination_url: "https://example.com/z".to_string(),
                cache_hit: false,
                etag: "\"abc\"".to_string(),
            }),
            fill: Some(CacheEntry {
                key: "abc".to_string(),
                value: "https://example.com/z".to_string(),
                ttl_secs: DEFAULT_CACHE_TTL_SECS,
            }),
            detached: Some(Detached::StoreIncrementClicks { code: "abc".to_string() }),
        }
    );
    assert_eq!(flow.phase, ResolvePhase::Resolved);
}

#[test]
fn lookup_of_expired_custom_code_proceeds_to_insert() {
    let req = request("https://example.com/new", Some("reuse"), None);
    let (mut flow, _) = CreateFlow::begin(&req, BASE, 500, 2, Some("https".to_string()));
    let old = Link {
        id: 1,
        short_code: "reuse".to_string(),
        original_url: "https://example.com/old".to_string(),
        clicks: 9,
        created_at: 0,
        expires_at: Some(500),
    };
    let action = flow.on_lookup(Ok(Some(old.clone())));
    assert_eq!(action, CreateAction::Insert { link: flow.link.clone() });
    assert_eq!(flow.phase, CreatePhase::AwaitingInsert);

    let (mut flow, _) = CreateFlow::begin(&req, BASE, 499, 2, Some("https".to_string()));
    let action = flow.on_lookup(Ok(Some(old)));
    assert_eq!(action, CreateAction::Finish { result: Err(AppError::Conflict), fill: None });
    assert_eq!(flow.phase, CreatePhase::Finished);
}
