//! The link record and the create request and response.

use vstd::prelude::*;

verus! {

/// A shortened link as the durable store keeps it. Times are Unix seconds.
#[derive(Clone, Debug, PartialEq, Eq)]
pub struct Link {
    pub id: u128,
    pub short_code: String,
    pub original_url: String,
    pub clicks: i64,
    pub created_at: i64,
    pub expires_at: Option<i64>,
}

/// A link is active at `now` unless it has an expiry that is not in the future.
pub open spec fn link_active(expires_at: Option<i64>, now: i64) -> bool {
    match expires_at {
        None => true,
        Some(t) => t > now,
    }
}

impl Link {
    /// A field-by-field copy.
    pub fn duplicate(&self) -> (r: Link)
        ensures
            r == *self,
    {
        Link {
            id: self.id,
            short_code: self.short_code.clone(),
            original_url: self.original_url.clone(),
            clicks: self.clicks,
            created_at: self.created_at,
            expires_at: self.expires_at,
        }
    }

    /// Whether the link is still served at time `now`.
    pub fn is_active(&self, now: i64) -> (r: bool)
        ensures
            r == link_active(self.expires_at, now),
    {
        match self.expires_at {
            None => true,
            Some(t) => t > now,
        }
    }
}

/// A request to shorten `url`, optionally under a chosen code and with an
/// expiry that many hours from creation.
#[derive(Clone, Debug, PartialEq, Eq)]
pub struct CreateLinkRequest {
    pub url: String,
    pub custom_code: Option<String>,
    pub expires_in_hours: Option<i32>,
}

/// The answer to a successful create: the code and the full short URL.
#[derive(Clone, Debug, PartialEq, Eq)]
pub struct CreateLinkResponse {
    pub short_url: String,
    pub short_code: String,
}

} // verus!
