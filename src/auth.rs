//! The licence expiry: combining the published configuration with a
//! redeemed token, and the outcome of redeeming one.

use vstd::prelude::*;
use std::collections::HashMap;

verus! {

/// The published licence configuration.
#[derive(Debug)]
pub struct AuthConfig {
    pub expired_time: i64,
    pub expired_html: String,
    pub token_expired_time: HashMap<String, i64>,
}

impl AuthConfig {
    pub fn new() -> (r: AuthConfig)
        ensures
            r.expired_time == 0,
            r.expired_html@.len() == 0,
            r.token_expired_time@ == Map::<String, i64>::empty(),
    {
        AuthConfig { expired_time: 0, expired_html: String::new(), token_expired_time: HashMap::new() }
    }
}

/// A status code and its message.
#[derive(Debug)]
pub struct StatusInfo {
    pub code: i64,
    pub message: String,
}

impl StatusInfo {
    pub fn new(code: i64, message: String) -> (r: StatusInfo)
        ensures
            r.code == code,
            r.message == message,
    {
        StatusInfo { code, message }
    }
}

/// The outcome of redeeming a token.
#[derive(Debug)]
pub struct RedeemResp {
    pub expired_time: i64,
    pub status_info: StatusInfo,
}

/// The licence state: when it expires and what to show once it has.
#[derive(Debug)]
pub struct Auth {
    pub expired_time: i64,
    pub expired_html: String,
}

/// The later of two times.
pub open spec fn later(a: i64, b: i64) -> i64 {
    if a >= b {
        a
    } else {
        b
    }
}

impl Auth {
    /// An expired licence.
    pub fn new() -> (r: Auth)
        ensures
            r.expired_time == 0,
            r.expired_html@.len() == 0,
    {
        Auth { expired_time: 0, expired_html: String::new() }
    }

    /// The licence from the published configuration and the expiry the
    /// configuration gives the stored token (0 without one): it lasts until
    /// the later of the two.
    pub fn init(self, config: AuthConfig, token_expired_time: i64) -> (r: Auth)
        ensures
            r.expired_time == later(config.expired_time, token_expired_time),
            r.expired_html == config.expired_html,
    {
        let expired_time = if config.expired_time >= token_expired_time {
            config.expired_time
        } else {
            token_expired_time
        };
        Auth { expired_time, expired_html: config.expired_html }
    }

    /// The licence is valid at time `now`.
    pub fn authorize(&self, now: i64) -> (r: bool)
        ensures
            r == (self.expired_time > now),
    {
        self.expired_time > now
    }

    pub fn expired_time(&self) -> (r: i64)
        ensures
            r == self.expired_time,
    {
        self.expired_time
    }

    pub fn message(&self) -> (r: String)
        ensures
            r == self.expired_html,
    {
        self.expired_html.clone()
    }

    /// Redeems a token at time `now`, given the expiry that the published
    /// configuration lists for it, if any. An unknown token and an expired
    /// one fail with code -1 and change nothing but the message; a valid one
    /// extends the licence to its expiry, if that is later, with code 0.
    pub fn redeem(&mut self, expired_html: String, token_expired_time: Option<i64>, now: i64) -> (r:
        RedeemResp)
        ensures
            final(self).expired_html == expired_html,
            token_expired_time is None ==> {
                &&& final(self).expired_time == old(self).expired_time
                &&& r.status_info.code == -1
                &&& r.status_info.message@ == "无效的兑换码"@
            },
            token_expired_time is Some && token_expired_time->0 < now ==> {
                &&& final(self).expired_time == old(self).expired_time
                &&& r.status_info.code == -1
                &&& r.status_info.message@ == "兑换码已过期"@
            },
            token_expired_time is Some && token_expired_time->0 >= now ==> {
                &&& final(self).expired_time == later(old(self).expired_time, token_expired_time->0)
                &&& r.status_info.code == 0
                &&& r.status_info.message@ == "兑换成功"@
            },
            r.expired_time == final(self).expired_time,
    {
        self.expired_html = expired_html;
        match token_expired_time {
            Some(t) => {
                if t < now {
                    return RedeemResp {
                        expired_time: self.expired_time,
                        status_info: StatusInfo::new(-1, String::from_str("兑换码已过期")),
                    };
                }
                if t > self.expired_time {
                    self.expired_time = t;
                }
                RedeemResp {
                    expired_time: self.expired_time,
                    status_info: StatusInfo::new(0, String::from_str("兑换成功")),
                }
            },
            None => RedeemResp {
                expired_time: self.expired_time,
                status_info: StatusInfo::new(-1, String::from_str("无效的兑换码")),
            },
        }
    }
}

} // verus!
