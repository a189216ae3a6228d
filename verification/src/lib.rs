//! A typed access layer for the Crossref REST API.
//!
//! The crate builds URL-encoded query routes from strongly typed
//! filter/sort/facet/pagination options, decodes the heterogeneous JSON
//! response envelopes into the shape selected by the `message-type`
//! discriminant, and drives cursor-based deep paging over `/works`
//! result sets.
//!
//! The HTTP exchange itself is left to the caller: every request type
//! renders its full URL through `to_url`, a raw body comes back through
//! `response::decode_response`, and the `WorkListIterator` hands out one
//! route at a time while the caller performs the exchanges.

use vstd::prelude::*;

pub mod cn;
pub mod error;
pub mod json;
pub mod model;
pub mod paging;
pub mod query;
pub mod response;
pub mod strutil;

pub use crate::error::Error;
pub use crate::error::ErrorKind;
pub use crate::model::DateField;
pub use crate::model::DateParts;
pub use crate::model::Work;
pub use crate::paging::WorkListIterator;
pub use crate::query::works::FieldQuery;
pub use crate::query::works::WorkListQuery;
pub use crate::query::works::WorkResultControl;
pub use crate::query::works::Works;
pub use crate::query::works::WorksFilter;
pub use crate::query::works::WorksIdentQuery;
pub use crate::query::works::WorksQuery;
pub use crate::query::funders::Funders;
pub use crate::query::journals::Journals;
pub use crate::query::member::Members;
pub use crate::query::prefixes::Prefixes;
pub use crate::query::types::Type;
pub use crate::query::types::Types;
pub use crate::query::Component;
pub use crate::query::CrossrefQuery;
pub use crate::query::CrossrefRoute;
pub use crate::query::Order;
pub use crate::query::Sort;
pub use crate::response::CrossrefType;
pub use crate::response::Funder;
pub use crate::response::FunderList;
pub use crate::response::Journal;
pub use crate::response::JournalList;
pub use crate::response::Member;
pub use crate::response::MemberList;
pub use crate::response::Message;
pub use crate::response::MessageType;
pub use crate::response::Response;
pub use crate::response::TypeList;
pub use crate::response::WorkAgency;
pub use crate::response::WorkList;

verus! {

/// The default API origin requests go to when no other base URL is
/// configured.
pub fn default_base_url() -> (r: &'static str)
    ensures
        r@ == "https://api.crossref.org"@,
{
    "https://api.crossref.org"
}

/// Collects the configuration of a Crossref client: the user agent (or
/// the polite-pool mail address), the Plus service token, and an
/// alternative base URL.
#[derive(Debug, Clone)]
pub struct CrossrefBuilder {
    /// the `User-Agent` header value to send, when one is set
    pub user_agent: Option<String>,
    /// the Crossref Plus service token, sent as `Authorization` header
    pub plus_token: Option<String>,
    /// a base URL overriding the default API origin
    pub base_url: Option<String>,
}

impl CrossrefBuilder {
    /// An empty configuration.
    pub fn new() -> (r: CrossrefBuilder)
        ensures
            r.user_agent is None,
            r.plus_token is None,
            r.base_url is None,
    {
        CrossrefBuilder { user_agent: None, plus_token: None, base_url: None }
    }

    /// Sets the mail address under which requests join Crossref's
    /// polite pool: the user agent becomes `mailto:` followed by the
    /// address.
    pub fn polite(self, email: &str) -> (r: CrossrefBuilder)
        ensures
            r.user_agent matches Some(ua) && ua@ == "mailto:"@ + email@,
            r.plus_token == self.plus_token,
            r.base_url == self.base_url,
    {
        let mut ua = String::from_str("mailto:");
        ua.append(email);
        let mut b = self;
        b.user_agent = Some(ua);
        b
    }

    /// Sets the user agent directly.
    pub fn user_agent(self, user_agent: &str) -> (r: CrossrefBuilder)
        ensures
            r.user_agent matches Some(ua) && ua@ == user_agent@,
            r.plus_token == self.plus_token,
            r.base_url == self.base_url,
    {
        let mut b = self;
        b.user_agent = Some(String::from_str(user_agent));
        b
    }

    /// Sets a Crossref Plus service API token.
    pub fn token(self, token: &str) -> (r: CrossrefBuilder)
        ensures
            r.plus_token matches Some(t) && t@ == token@,
            r.user_agent == self.user_agent,
            r.base_url == self.base_url,
    {
        let mut b = self;
        b.plus_token = Some(String::from_str(token));
        b
    }

    /// The base URL requests built from this configuration go to: the
    /// configured one, or the default API origin.
    pub fn effective_base_url(&self) -> (r: String)
        ensures
            match self.base_url {
                Some(u) => r@ == u@,
                None => r@ == "https://api.crossref.org"@,
            },
    {
        match &self.base_url {
            Some(u) => u.clone(),
            None => String::from_str(default_base_url()),
        }
    }
}

impl Default for CrossrefBuilder {
    fn default() -> (r: Self)
        ensures
            r.user_agent is None,
            r.plus_token is None,
            r.base_url is None,
    {
        CrossrefBuilder::new()
    }
}

} // verus!
