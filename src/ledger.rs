//! The adapter's policy: how each operation turns the outcome of its one HTTP
//! exchange into a canonical result or an error.

use vstd::prelude::*;
use crate::json::JsonValue;
use crate::decode::DecodeError;
use crate::validation::{ValidationResult, validation_shape, canonical_validation, parse_validation_response};
use crate::publish::{PublishResult, publish_shape, canonical_publish, parse_publish_response};
use crate::stats::{ChainStats, stats_shape, canonical_stats, parse_stats_response, zero_stats};
use crate::transport::{trim_slashes, decimal, push_decimal, base_url_ok, check_base_url, endpoint_url};

verus! {

/// What one HTTP exchange produced.
#[derive(Debug)]
pub enum Exchange {
    /// No response arrived (refused, timed out, TLS or DNS failure); the text
    /// describes the failure.
    Unreachable(String),
    /// A response: its status code, its body text, and the body as JSON when
    /// the text is JSON.
    Reply { status: u16, body: String, json: Option<JsonValue> },
}

/// Why an operation failed.
#[derive(Debug, Clone)]
pub enum LedgerError {
    /// The base URL is empty or malformed; nothing was sent.
    Configuration(String),
    /// No response arrived.
    Transport(String),
    /// The service answered with a non-success status.
    Remote { status: u16, body: String },
    /// The service answered with a body of no known shape.
    Decode(DecodeError),
}

/// A 2xx status.
pub open spec fn success_status(status: u16) -> bool {
    200 <= status <= 299
}

pub fn is_success_status(status: u16) -> (r: bool)
    ensures
        r == success_status(status),
{
    200 <= status && status <= 299
}

/// The error text of a publish that the service refused.
pub open spec fn rejection_text(status: u16, body: Seq<char>) -> Seq<char> {
    "API error ("@ + decimal(status as nat) + "): "@ + body
}

/// The result of a publish that the service refused.
pub open spec fn rejected_publish(status: u16, body: Seq<char>) -> crate::publish::PublishView {
    crate::publish::PublishView {
        success: false,
        entry_id: None,
        block_hash: None,
        error: Some(rejection_text(status, body)),
        transaction_url: None,
    }
}

fn rejection_message(status: u16, body: &str) -> (r: String)
    ensures
        r@ == rejection_text(status, body@),
{
    let mut s = String::from_str("API error (");
    push_decimal(&mut s, status as u64);
    s.append("): ");
    s.append(body);
    s
}

/// The URL of `path` on the service at `base`, or a configuration error when
/// the base URL is not usable.
pub fn ledger_url(base: &str, path: &str) -> (r: Result<String, LedgerError>)
    ensures
        base_url_ok(base@) ==> r is Ok && r->Ok_0@ == trim_slashes(base@) + path@,
        !base_url_ok(base@) ==> r is Err && r->Err_0 is Configuration,
{
    if check_base_url(base) {
        Ok(endpoint_url(base, path))
    } else {
        Err(LedgerError::Configuration(String::from_str("invalid ledger base URL")))
    }
}

/// Validation: a refused request is an error carrying the status and body, and
/// so is a body of no known shape; it is never turned into a result.
pub fn validation_outcome(exchange: Exchange, declared_intent: &str) -> (r: Result<
    ValidationResult,
    LedgerError,
>)
    ensures
        match exchange {
            Exchange::Unreachable(m) => r == Err::<ValidationResult, LedgerError>(
                LedgerError::Transport(m),
            ),
            Exchange::Reply { status, body, json } => if !success_status(status) {
                r == Err::<ValidationResult, LedgerError>(LedgerError::Remote { status, body })
            } else {
                match json {
                    None => r == Err::<ValidationResult, LedgerError>(
                        LedgerError::Decode(DecodeError),
                    ),
                    Some(v) => match validation_shape(v@) {
                        None => r == Err::<ValidationResult, LedgerError>(
                            LedgerError::Decode(DecodeError),
                        ),
                        Some(s) => r is Ok && r->Ok_0@ == canonical_validation(
                            s,
                            declared_intent@,
                        ),
                    },
                }
            },
        },
{
    match exchange {
        Exchange::Unreachable(m) => Err(LedgerError::Transport(m)),
        Exchange::Reply { status, body, json } => {
            if !is_success_status(status) {
                Err(LedgerError::Remote { status, body })
            } else {
                match json {
                    None => Err(LedgerError::Decode(DecodeError)),
                    Some(v) => match parse_validation_response(&v, declared_intent) {
                        Ok(res) => Ok(res),
                        Err(e) => Err(LedgerError::Decode(e)),
                    },
                }
            }
        },
    }
}

/// Publishing: a refused request becomes a failed result with the status and
/// body in its error text; no response, or a body of no known shape, is an
/// error.
pub fn publish_outcome(exchange: Exchange, base: &str, author: &str) -> (r: Result<
    PublishResult,
    LedgerError,
>)
    ensures
        match exchange {
            Exchange::Unreachable(m) => r == Err::<PublishResult, LedgerError>(
                LedgerError::Transport(m),
            ),
            Exchange::Reply { status, body, json } => if !success_status(status) {
                r is Ok && r->Ok_0@ == rejected_publish(status, body@)
            } else {
                match json {
                    None => r == Err::<PublishResult, LedgerError>(
                        LedgerError::Decode(DecodeError),
                    ),
                    Some(v) => match publish_shape(v@) {
                        None => r == Err::<PublishResult, LedgerError>(
                            LedgerError::Decode(DecodeError),
                        ),
                        Some(s) => r is Ok && r->Ok_0@ == canonical_publish(s, base@, author@),
                    },
                }
            },
        },
{
    match exchange {
        Exchange::Unreachable(m) => Err(LedgerError::Transport(m)),
        Exchange::Reply { status, body, json } => {
            if !is_success_status(status) {
                Ok(
                    PublishResult {
                        success: false,
                        entry_id: None,
                        block_hash: None,
                        error: Some(rejection_message(status, body.as_str())),
                        transaction_url: None,
                    },
                )
            } else {
                match json {
                    None => Err(LedgerError::Decode(DecodeError)),
                    Some(v) => match parse_publish_response(&v, base, author) {
                        Ok(res) => Ok(res),
                        Err(e) => Err(LedgerError::Decode(e)),
                    },
                }
            }
        },
    }
}

/// Stats: a refused request yields all-zero statistics; no response, or a
/// body of no known shape, is an error.
pub fn stats_outcome(exchange: Exchange) -> (r: Result<ChainStats, LedgerError>)
    ensures
        match exchange {
            Exchange::Unreachable(m) => r == Err::<ChainStats, LedgerError>(
                LedgerError::Transport(m),
            ),
            Exchange::Reply { status, body, json } => if !success_status(status) {
                r == Ok::<ChainStats, LedgerError>(
                    ChainStats { total_entries: 0, total_earnings: 0, subscribers: 0, views: 0 },
                )
            } else {
                match json {
                    None => r == Err::<ChainStats, LedgerError>(LedgerError::Decode(DecodeError)),
                    Some(v) => match stats_shape(v@) {
                        None => r == Err::<ChainStats, LedgerError>(
                            LedgerError::Decode(DecodeError),
                        ),
                        Some(s) => r is Ok && canonical_stats(s, r->Ok_0),
                    },
                }
            },
        },
{
    match exchange {
        Exchange::Unreachable(m) => Err(LedgerError::Transport(m)),
        Exchange::Reply { status, body, json } => {
            if !is_success_status(status) {
                Ok(zero_stats())
            } else {
                match json {
                    None => Err(LedgerError::Decode(DecodeError)),
                    Some(v) => match parse_stats_response(&v) {
                        Ok(res) => Ok(res),
                        Err(e) => Err(LedgerError::Decode(e)),
                    },
                }
            }
        },
    }
}

/// The connectivity probe: true exactly on a success status.
pub fn connection_outcome(exchange: &Exchange) -> (r: bool)
    ensures
        r == match exchange {
            Exchange::Unreachable(_) => false,
            Exchange::Reply { status, .. } => success_status(*status),
        },
{
    match exchange {
        Exchange::Unreachable(_) => false,
        Exchange::Reply { status, .. } => is_success_status(*status),
    }
}

} // verus!

verus! {

/// The validation endpoint of the service at `base`.
pub fn validate_endpoint(base: &str) -> (r: Result<String, LedgerError>)
    ensures
        base_url_ok(base@) ==> r is Ok && r->Ok_0@ == trim_slashes(base@) + "/entry/validate"@,
        !base_url_ok(base@) ==> r is Err && r->Err_0 is Configuration,
{
    ledger_url(base, "/entry/validate")
}

/// The publish endpoint of the service at `base`.
pub fn publish_endpoint(base: &str) -> (r: Result<String, LedgerError>)
    ensures
        base_url_ok(base@) ==> r is Ok && r->Ok_0@ == trim_slashes(base@) + "/entry"@,
        !base_url_ok(base@) ==> r is Err && r->Err_0 is Configuration,
{
    ledger_url(base, "/entry")
}

/// The endpoint listing an author's entries (the nested generation's stats).
pub fn author_entries_endpoint(base: &str, author_id: &str) -> (r: Result<String, LedgerError>)
    ensures
        base_url_ok(base@) ==> r is Ok && r->Ok_0@ == trim_slashes(base@) + "/entries/author/"@
            + author_id@,
        !base_url_ok(base@) ==> r is Err && r->Err_0 is Configuration,
{
    let u = ledger_url(base, "/entries/author/")?;
    Ok(u.concat(author_id))
}

/// The endpoint of an author's statistics (the flat generation's stats).
pub fn author_stats_endpoint(base: &str, author_id: &str) -> (r: Result<String, LedgerError>)
    ensures
        base_url_ok(base@) ==> r is Ok && r->Ok_0@ == trim_slashes(base@) + "/entries/author/"@
            + author_id@ + "/stats"@,
        !base_url_ok(base@) ==> r is Err && r->Err_0 is Configuration,
{
    let u = author_entries_endpoint(base, author_id)?;
    Ok(u.concat("/stats"))
}

/// The connectivity probe endpoint of the service at `base`.
pub fn probe_endpoint(base: &str) -> (r: Result<String, LedgerError>)
    ensures
        base_url_ok(base@) ==> r is Ok && r->Ok_0@ == trim_slashes(base@) + "/stats"@,
        !base_url_ok(base@) ==> r is Err && r->Err_0 is Configuration,
{
    ledger_url(base, "/stats")
}

} // verus!

verus! {

/// Which service generation a stats request is addressed to.
#[derive(Debug, Clone, Copy, PartialEq, Eq, Structural)]
pub enum StatsGeneration {
    /// The nested generation: the author's entry listing.
    Nested,
    /// The flat generation: the author's stats route.
    Flat,
}

/// The one stats endpoint of the chosen generation.
pub fn stats_endpoint(base: &str, author_id: &str, generation: StatsGeneration) -> (r: Result<
    String,
    LedgerError,
>)
    ensures
        base_url_ok(base@) ==> r is Ok && r->Ok_0@ == match generation {
            StatsGeneration::Nested => trim_slashes(base@) + "/entries/author/"@ + author_id@,
            StatsGeneration::Flat => trim_slashes(base@) + "/entries/author/"@ + author_id@
                + "/stats"@,
        },
        !base_url_ok(base@) ==> r is Err && r->Err_0 is Configuration,
{
    match generation {
        StatsGeneration::Nested => author_entries_endpoint(base, author_id),
        StatsGeneration::Flat => author_stats_endpoint(base, author_id),
    }
}

} // verus!
