//! The client that owns the live credential record.
//!
//! At most one record is live at a time; it is replaced wholesale,
//! never mutated field by field. Callers that need an authorization
//! header first ask which step applies: a stale record demands exactly
//! one re-resolution (`Refresh`) before any header is handed out, a
//! current record yields its header immediately. The surrounding
//! application serializes refreshes behind an exclusive guard and runs
//! the resolver chain; the decisions here are pure.

use vstd::prelude::*;

use crate::config::{ConfigView, PlatzClientConfig};
use crate::error::PlatzClientError;
use crate::request::{HttpMethod, PlatzRequest};
use crate::urls::{join_url, url_joined};

verus! {

/// What a caller asking for an authorization header must do next.
#[derive(Debug)]
pub enum AuthStep {
    /// The record is stale: run the resolver chain and install the
    /// replacement before any header is rendered.
    Refresh,
    /// The record is current: this is its header pair.
    Header(String, String),
}

/// The mathematical image of an `AuthStep`.
pub enum AuthStepView {
    Refresh,
    Header(Seq<char>, Seq<char>),
}

impl DeepView for AuthStep {
    type V = AuthStepView;

    open spec fn deep_view(&self) -> AuthStepView {
        match self {
            AuthStep::Refresh => AuthStepView::Refresh,
            AuthStep::Header(n, v) => AuthStepView::Header(n@, v@),
        }
    }
}

/// The step a record demands at the instant `now`: refresh when stale,
/// its header pair otherwise.
pub open spec fn spec_authorization_step(cfg: ConfigView, now: int) -> AuthStepView {
    if cfg.is_expired_at(now) {
        AuthStepView::Refresh
    } else {
        AuthStepView::Header(cfg.authorization_header().0, cfg.authorization_header().1)
    }
}

/// Law: a record whose expiry lies at or before `now` never yields a
/// header; the only step it permits is a re-resolution. Together with
/// `PlatzClient::complete_refresh` — whose header is exactly the
/// replacement record's — no header is ever derived from a stale
/// record, and exactly one re-resolution stands between a stale record
/// and the next header.
pub proof fn lemma_expired_record_forces_refresh(cfg: ConfigView, now: int)
    requires
        cfg.is_expired_at(now),
    ensures
        spec_authorization_step(cfg, now) is Refresh,
        forall|n: Seq<char>, v: Seq<char>|
            spec_authorization_step(cfg, now) != AuthStepView::Header(n, v),
{
}

/// Law: a record with no expiry, or an expiry after `now`, yields its
/// header immediately; no re-resolution — and so no resolver I/O — is
/// ever demanded for it.
pub proof fn lemma_current_record_needs_no_refresh(cfg: ConfigView, now: int)
    requires
        !cfg.is_expired_at(now),
    ensures
        spec_authorization_step(cfg, now) == AuthStepView::Header(
            cfg.authorization_header().0,
            cfg.authorization_header().1,
        ),
        !(spec_authorization_step(cfg, now) is Refresh),
{
}

/// A client bound to one resolved credential record.
#[derive(Debug)]
pub struct PlatzClient {
    /// The live record. Replaced wholesale by `complete_refresh`.
    pub config: PlatzClientConfig,
}

impl PlatzClient {
    /// A client holding the given record.
    pub fn new(config: PlatzClientConfig) -> (r: PlatzClient)
        ensures
            r.config == config,
    {
        PlatzClient { config }
    }

    /// Joins a path against the record's base server address.
    pub fn build_url(&self, path: &str) -> (r: Result<String, PlatzClientError>)
        ensures
            match r {
                Ok(u) => url_joined(self.config.server_url@, path@) == Some(u@),
                Err(e) => {
                    &&& url_joined(self.config.server_url@, path@) is None
                    &&& e == PlatzClientError::UrlJoinError
                },
            },
    {
        match join_url(self.config.server_url.as_str(), path) {
            Some(u) => Ok(u),
            None => Err(PlatzClientError::UrlJoinError),
        }
    }

    /// Which step a caller asking for the authorization header must
    /// take at the instant `now`.
    pub fn authorization_step(&self, now: i64) -> (r: AuthStep)
        ensures
            r.deep_view() == spec_authorization_step(self.config.deep_view(), now as int),
    {
        if self.config.expired_at_seconds(now) {
            AuthStep::Refresh
        } else {
            let h = self.config.authorization_pair();
            AuthStep::Header(h.0, h.1)
        }
    }

    /// Installs the replacement record that a `Refresh` step demanded
    /// and returns its header pair. The header is derived from the
    /// replacement alone, never from the record it displaces.
    pub fn complete_refresh(&mut self, config: PlatzClientConfig) -> (h: (String, String))
        ensures
            final(self).config == config,
            (h.0@, h.1@) == config.deep_view().authorization_header(),
    {
        self.config = config;
        self.config.authorization_pair()
    }

    /// Starts a request against this client's server: the given method
    /// and path, with no query parameters yet.
    pub fn request(&self, method: HttpMethod, path: &str) -> (r: PlatzRequest)
        ensures
            r.method == method,
            r.path@ == path@,
            r.query.deep_view() =~= Seq::<(Seq<char>, Seq<char>)>::empty(),
            r.wf(),
    {
        PlatzRequest::new(method, path)
    }
}

} // verus!
