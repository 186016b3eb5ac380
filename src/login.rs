//! The QR-code login handshake: reading the ticket and scan-status replies,
//! and the session's lifecycle.

use vstd::prelude::*;
use crate::dispatch::SyncCheck;
use crate::text::str_eq;
use crate::tool::{capture, regex_capture};

verus! {

/// The pattern that picks the login ticket out of its reply.
pub const UUID_PATTERN: &'static str = r#"uuid\s*=\s*"(.*)""#;

/// The pattern that picks the status code out of a scan-status reply.
pub const CODE_PATTERN: &'static str = r#"code\s*=\s*(\d*)"#;

/// The pattern that picks the redirect address out of a scan-status reply.
pub const REDIRECT_PATTERN: &'static str = r#"redirect_uri\s*=\s*"(.*)""#;

/// The captured text, or the empty text when nothing was captured.
pub open spec fn or_empty(c: Option<Seq<char>>) -> Seq<char> {
    match c {
        Some(s) => s,
        None => Seq::empty(),
    }
}

fn capture_or_empty(pattern: &str, text: &str) -> (r: String)
    ensures
        r@ == or_empty(regex_capture(pattern@, text@)),
{
    match capture(pattern, text) {
        Some(s) => s,
        None => String::new(),
    }
}

/// The login ticket in the reply to a ticket request; empty if it has none.
pub fn parse_uuid(text: &str) -> (r: String)
    ensures
        r@ == or_empty(regex_capture(UUID_PATTERN@, text@)),
{
    capture_or_empty(UUID_PATTERN, text)
}

/// A scan-status reply: its status code and redirect address.
#[derive(Debug)]
pub struct CheckResp {
    pub code: String,
    pub redirect_uri: String,
}

impl CheckResp {
    /// A reply with no code and no address.
    pub fn default() -> (r: CheckResp)
        ensures
            r.code@.len() == 0,
            r.redirect_uri@.len() == 0,
    {
        CheckResp { code: String::new(), redirect_uri: String::new() }
    }

    /// The code and address in a scan-status reply's text; each is empty
    /// where the text has none.
    pub fn parse(text: &str) -> (r: CheckResp)
        ensures
            r.code@ == or_empty(regex_capture(CODE_PATTERN@, text@)),
            r.redirect_uri@ == or_empty(regex_capture(REDIRECT_PATTERN@, text@)),
    {
        CheckResp {
            code: capture_or_empty(CODE_PATTERN, text),
            redirect_uri: capture_or_empty(REDIRECT_PATTERN, text),
        }
    }
}

/// Where the scan of a login QR code stands.
#[derive(Debug, Clone, Copy, PartialEq, Eq, Structural)]
pub enum ScanStatus {
    /// Not scanned yet: keep polling.
    Pending,
    /// Scanned, not confirmed yet: keep polling.
    Scanned,
    /// Confirmed: the redirect address leads to the session.
    Confirmed,
    /// Expired or denied: a new QR code is needed.
    Expired,
}

/// The status that a scan-status code stands for.
pub open spec fn scan_status_of(code: Seq<char>) -> ScanStatus {
    if code == "200"@ {
        ScanStatus::Confirmed
    } else if code == "201"@ {
        ScanStatus::Scanned
    } else if code == "408"@ || code.len() == 0 {
        ScanStatus::Pending
    } else {
        ScanStatus::Expired
    }
}

/// The status that a scan-status code stands for: 200 confirmed, 201
/// scanned, 408 or no code pending, any other code expired or denied.
pub fn scan_status(code: &str) -> (r: ScanStatus)
    ensures
        r == scan_status_of(code@),
{
    if str_eq(code, "200") {
        ScanStatus::Confirmed
    } else if str_eq(code, "201") {
        ScanStatus::Scanned
    } else if str_eq(code, "408") || code.unicode_len() == 0 {
        ScanStatus::Pending
    } else {
        ScanStatus::Expired
    }
}

/// The lifecycle of a session.
#[derive(Debug, Clone, Copy, PartialEq, Eq, Structural)]
pub enum SessionState {
    Unauthenticated,
    QrIssued,
    PendingScan,
    Authenticated,
    Invalid,
}

/// What the sync loop does after a check.
#[derive(Debug, Clone, Copy, PartialEq, Eq, Structural)]
pub enum CycleAction {
    /// Fetch the new messages.
    Sync,
    /// Let this cycle pass and check again.
    Wait,
    /// Leave the loop.
    Stop,
}

/// The state after a scan-status reply: only a session with an issued QR
/// code moves; confirmation leads on to establishing the session, expiry
/// ends it.
pub open spec fn after_scan(s: SessionState, st: ScanStatus) -> SessionState {
    if s == SessionState::QrIssued {
        match st {
            ScanStatus::Confirmed => SessionState::PendingScan,
            ScanStatus::Expired => SessionState::Invalid,
            _ => SessionState::QrIssued,
        }
    } else {
        s
    }
}

impl SessionState {
    /// A new login ticket and QR code were issued.
    pub fn issue_qr(self) -> (r: SessionState)
        ensures
            r == SessionState::QrIssued,
    {
        SessionState::QrIssued
    }

    /// The state after a scan-status reply (see `after_scan`).
    pub fn on_scan(self, st: ScanStatus) -> (r: SessionState)
        ensures
            r == after_scan(self, st),
    {
        match self {
            SessionState::QrIssued => match st {
                ScanStatus::Confirmed => SessionState::PendingScan,
                ScanStatus::Expired => SessionState::Invalid,
                _ => SessionState::QrIssued,
            },
            _ => self,
        }
    }

    /// The state after establishing the session was tried: authenticated
    /// when it succeeded, invalid when it failed.
    pub fn on_established(self, ok: bool) -> (r: SessionState)
        ensures
            self == SessionState::PendingScan ==> r == (if ok {
                SessionState::Authenticated
            } else {
                SessionState::Invalid
            }),
            self != SessionState::PendingScan ==> r == self,
    {
        match self {
            SessionState::PendingScan => if ok {
                SessionState::Authenticated
            } else {
                SessionState::Invalid
            },
            _ => self,
        }
    }

    /// The state and the loop's next move after a check: an authenticated
    /// session syncs on `Proceed`, waits on `Skip`, and becomes invalid and
    /// stops on `Invalid`; a session in any other state stops.
    pub fn on_check(self, c: SyncCheck) -> (r: (SessionState, CycleAction))
        ensures
            self != SessionState::Authenticated ==> r == (self, CycleAction::Stop),
            self == SessionState::Authenticated ==> r == (match c {
                SyncCheck::Proceed => (SessionState::Authenticated, CycleAction::Sync),
                SyncCheck::Skip => (SessionState::Authenticated, CycleAction::Wait),
                SyncCheck::Invalid => (SessionState::Invalid, CycleAction::Stop),
            }),
    {
        match self {
            SessionState::Authenticated => match c {
                SyncCheck::Proceed => (SessionState::Authenticated, CycleAction::Sync),
                SyncCheck::Skip => (SessionState::Authenticated, CycleAction::Wait),
                SyncCheck::Invalid => (SessionState::Invalid, CycleAction::Stop),
            },
            _ => (self, CycleAction::Stop),
        }
    }

    /// Logging out discards the session.
    pub fn logout(self) -> (r: SessionState)
        ensures
            r == SessionState::Unauthenticated,
    {
        SessionState::Unauthenticated
    }
}

} // verus!
