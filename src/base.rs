//! The authenticated session: credentials, identity, endpoints and the
//! sync cursor, and the steps that fill them in after login.

use vstd::prelude::*;
use rand::Rng;
use crate::error::WxChatError;
use crate::text::{
    all_digits, digit_char, digits_value, element_text, element_text_of, has_element,
    parse_decimal, signed_decimal, signed_decimal_string, str_eq,
};
use crate::tool::{capture, regex_capture};

verus! {

/// The credentials sent with every call of the session.
#[derive(Debug, Clone)]
pub struct BaseRequest {
    pub skey: String,
    pub sid: String,
    pub uin: i64,
    pub device_id: String,
}

/// A device id: `e` followed by fifteen digits from `0` to `8`.
pub open spec fn is_device_id(s: Seq<char>) -> bool {
    &&& s.len() == 16
    &&& s[0] == 'e'
    &&& forall|i: int| 1 <= i < 16 ==> '0' <= #[trigger] s[i] && s[i] < '9'
}

/// Relies on rand's thread_rng sampled through Uniform::from('0'..'9'): a
/// character from `0` to `8`.
#[verifier::external_body]
fn random_digit() -> (c: char)
    ensures
        '0' <= c && c < '9',
{
    rand::thread_rng().sample(rand::distributions::Uniform::from('0'..'9'))
}

fn digit_text(c: char) -> (r: &'static str)
    requires
        '0' <= c && c <= '9',
    ensures
        r@ == seq![c],
{
    let d = (c as u32 - '0' as u32) as u128;
    let r = crate::text::digit_str(d);
    assert(digit_char(d as int) == c);
    r
}

impl BaseRequest {
    /// Blank credentials with a freshly drawn device id.
    pub fn new() -> (r: BaseRequest)
        ensures
            r.skey@.len() == 0,
            r.sid@.len() == 0,
            r.uin == 0,
            is_device_id(r.device_id@),
    {
        let mut device_id = String::from_str("e");
        proof { reveal_strlit("e"); }
        let mut k: usize = 0;
        while k < 15
            invariant
                k <= 15,
                device_id@.len() == k + 1,
                device_id@[0] == 'e',
                forall|i: int| 1 <= i <= k ==> '0' <= #[trigger] device_id@[i] && device_id@[i]
                    < '9',
            decreases 15 - k,
        {
            let c = random_digit();
            device_id.append(digit_text(c));
            k += 1;
        }
        BaseRequest { skey: String::new(), sid: String::new(), uin: 0, device_id }
    }
}

/// The status part of a server reply.
#[derive(Debug, Clone)]
pub struct BaseResponse {
    pub ret: i64,
    pub err_msg: String,
}

impl BaseResponse {
    pub fn new() -> (r: BaseResponse)
        ensures
            r.ret == 0,
            r.err_msg@.len() == 0,
    {
        BaseResponse { ret: 0, err_msg: String::new() }
    }
}

/// The account that is logged in.
#[derive(Debug, Clone)]
pub struct User {
    pub uin: i64,
    pub user_name: String,
    pub nick_name: String,
    pub head_img_url: String,
    pub remark_name: String,
    pub p_y_initial: String,
    pub p_y_quan_pin: String,
    pub remark_p_y_initial: String,
    pub remark_p_y_quan_pin: String,
    pub hide_input_bar_flag: i64,
    pub star_friend: i64,
    pub sex: i64,
    pub signature: String,
    pub app_account_flag: i64,
    pub verify_flag: i64,
    pub contact_flag: i64,
    pub web_wx_plugin_switch: i64,
    pub head_img_flag: i64,
    pub sns_flag: i64,
}

impl User {
    /// Every text field empty and every number zero.
    pub open spec fn is_blank(self) -> bool {
        &&& self.uin == 0
        &&& self.user_name@.len() == 0
        &&& self.nick_name@.len() == 0
        &&& self.head_img_url@.len() == 0
        &&& self.remark_name@.len() == 0
        &&& self.p_y_initial@.len() == 0
        &&& self.p_y_quan_pin@.len() == 0
        &&& self.remark_p_y_initial@.len() == 0
        &&& self.remark_p_y_quan_pin@.len() == 0
        &&& self.hide_input_bar_flag == 0
        &&& self.star_friend == 0
        &&& self.sex == 0
        &&& self.signature@.len() == 0
        &&& self.app_account_flag == 0
        &&& self.verify_flag == 0
        &&& self.contact_flag == 0
        &&& self.web_wx_plugin_switch == 0
        &&& self.head_img_flag == 0
        &&& self.sns_flag == 0
    }

    pub fn new() -> (r: User)
        ensures
            r.is_blank(),
    {
        User {
            uin: 0,
            user_name: String::new(),
            nick_name: String::new(),
            head_img_url: String::new(),
            remark_name: String::new(),
            p_y_initial: String::new(),
            p_y_quan_pin: String::new(),
            remark_p_y_initial: String::new(),
            remark_p_y_quan_pin: String::new(),
            hide_input_bar_flag: 0,
            star_friend: 0,
            sex: 0,
            signature: String::new(),
            app_account_flag: 0,
            verify_flag: 0,
            contact_flag: 0,
            web_wx_plugin_switch: 0,
            head_img_flag: 0,
            sns_flag: 0,
        }
    }
}

/// One counter of the sync cursor.
#[derive(Debug, Clone, Copy)]
pub struct SyncKeyItem {
    pub key: i64,
    pub val: i64,
}

/// `key_val` in decimal.
pub open spec fn item_text(it: SyncKeyItem) -> Seq<char> {
    signed_decimal(it.key as int) + seq!['_'] + signed_decimal(it.val as int)
}

/// The counters as `key_val`, joined by `|`; empty for no counters.
pub open spec fn cursor_text(items: Seq<SyncKeyItem>) -> Seq<char>
    decreases items.len(),
{
    if items.len() == 0 {
        Seq::empty()
    } else if items.len() == 1 {
        item_text(items[0])
    } else {
        cursor_text(items.drop_last()) + seq!['|'] + item_text(items.last())
    }
}

impl SyncKeyItem {
    pub fn to_string(&self) -> (r: String)
        ensures
            r@ == item_text(*self),
    {
        proof { reveal_strlit("_"); }
        signed_decimal_string(self.key as i128).concat("_").concat(
            signed_decimal_string(self.val as i128).as_str(),
        )
    }
}

/// The sync cursor: the server's counters, replaced as a whole after each sync.
#[derive(Debug, Clone)]
pub struct SyncKey {
    pub count: i64,
    pub list: Vec<SyncKeyItem>,
}

impl SyncKey {
    pub fn new() -> (r: SyncKey)
        ensures
            r.count == 0,
            r.list@.len() == 0,
    {
        SyncKey { count: 0, list: Vec::new() }
    }

    /// The cursor as sent in a check request.
    pub fn to_string(&self) -> (r: String)
        ensures
            r@ == cursor_text(self.list@),
    {
        let mut result = String::new();
        let mut i: usize = 0;
        proof { reveal_strlit("|"); }
        while i < self.list.len()
            invariant
                i <= self.list@.len(),
                result@ == cursor_text(self.list@.subrange(0, i as int)),
            decreases self.list@.len() - i,
        {
            let ghost before = result@;
            if i > 0 {
                result.append("|");
            }
            let part = self.list[i].to_string();
            result.append(part.as_str());
            let ghost pre = self.list@.subrange(0, i + 1);
            assert(pre.drop_last() =~= self.list@.subrange(0, i as int));
            assert(pre.last() == self.list@[i as int]);
            proof { reveal_strlit("|"); }
            assert("|"@ =~= seq!['|']);
            if i == 0 {
                assert(before =~= Seq::<char>::empty());
                assert(pre[0] == self.list@[0]);
            }
            assert(result@ =~= cursor_text(pre));
            i += 1;
        }
        assert(self.list@.subrange(0, i as int) =~= self.list@);
        result
    }
}

/// The reply to the web-init call.
#[derive(Debug)]
pub struct InitResp {
    pub base_response: BaseResponse,
    pub user: User,
    pub sync_key: SyncKey,
}

impl InitResp {
    pub fn new() -> (r: InitResp)
        ensures
            r.base_response.ret == 0,
            r.base_response.err_msg@.len() == 0,
            r.user.is_blank(),
            r.sync_key.count == 0,
            r.sync_key.list@.len() == 0,
    {
        InitResp { base_response: BaseResponse::new(), user: User::new(), sync_key: SyncKey::new() }
    }
}

/// A session: credentials, identity, endpoints and cursor.
#[derive(Debug, Clone)]
pub struct Base {
    pub base_response: BaseResponse,
    pub user: User,
    pub sync_key: SyncKey,
    pub base_request: BaseRequest,
    pub base_uri: String,
    pub sync_uri: String,
    pub file_uri: String,
    pub pass_ticket: String,
}

/// The pattern that picks the host out of a login redirect address.
pub const HOST_PATTERN: &'static str = r#"https?://([\w|\\.]*)/cgi-bin/mmwebwx-bin"#;

/// The file host and the sync host of each known deployment host.
pub open spec fn deployment_hosts(host: Seq<char>) -> Option<(Seq<char>, Seq<char>)> {
    if host == "wx2.qq.com"@ {
        Some(("file.wx2.qq.com"@, "webpush.wx2.qq.com"@))
    } else if host == "wx8.qq.com"@ {
        Some(("file.wx8.qq.com"@, "webpush.wx8.qq.com"@))
    } else if host == "wx.qq.com"@ || host == "qq.com"@ {
        Some(("file.wx.qq.com"@, "webpush.wx.qq.com"@))
    } else if host == "web2.wechat.com"@ {
        Some(("file.web2.wechat.com"@, "webpush.web2.wechat.com"@))
    } else if host == "web.wechat.com"@ || host == "wechat.com"@ {
        Some(("file.web.wechat.com"@, "webpush.web.wechat.com"@))
    } else {
        None
    }
}

/// The base address of the service on `host`.
pub open spec fn endpoint(host: Seq<char>) -> Seq<char> {
    "https://"@ + host + "/cgi-bin/mmwebwx-bin"@
}

/// The file host and sync host of a deployment host.
pub fn resolve_hosts(host: &str) -> (r: Option<(String, String)>)
    ensures
        r is Some <==> deployment_hosts(host@) is Some,
        r matches Some((f, s)) ==> (f@, s@) == deployment_hosts(host@)->0,
{
    if str_eq(host, "wx2.qq.com") {
        Some((String::from_str("file.wx2.qq.com"), String::from_str("webpush.wx2.qq.com")))
    } else if str_eq(host, "wx8.qq.com") {
        Some((String::from_str("file.wx8.qq.com"), String::from_str("webpush.wx8.qq.com")))
    } else if str_eq(host, "wx.qq.com") || str_eq(host, "qq.com") {
        Some((String::from_str("file.wx.qq.com"), String::from_str("webpush.wx.qq.com")))
    } else if str_eq(host, "web2.wechat.com") {
        Some((String::from_str("file.web2.wechat.com"), String::from_str("webpush.web2.wechat.com")))
    } else if str_eq(host, "web.wechat.com") || str_eq(host, "wechat.com") {
        Some((String::from_str("file.web.wechat.com"), String::from_str("webpush.web.wechat.com")))
    } else {
        None
    }
}

fn endpoint_of(host: &str) -> (r: String)
    ensures
        r@ == endpoint(host@),
{
    String::from_str("https://").concat(host).concat("/cgi-bin/mmwebwx-bin")
}

/// The login markup holds the four credential elements, and the uin is a
/// number that fits an `i64`.
pub open spec fn markup_complete(doc: Seq<char>) -> bool {
    &&& has_element(doc, "skey"@)
    &&& has_element(doc, "wxsid"@)
    &&& has_element(doc, "wxuin"@)
    &&& has_element(doc, "pass_ticket"@)
    &&& element_text_of(doc, "wxuin"@).len() > 0
    &&& all_digits(element_text_of(doc, "wxuin"@))
    &&& digits_value(element_text_of(doc, "wxuin"@)) <= i64::MAX
}

impl Base {
    /// An empty session with a fresh device id.
    pub fn new() -> (r: Base)
        ensures
            r.base_response.ret == 0,
            r.base_response.err_msg@.len() == 0,
            r.user.is_blank(),
            r.sync_key.count == 0,
            r.sync_key.list@.len() == 0,
            r.base_request.skey@.len() == 0,
            r.base_request.sid@.len() == 0,
            r.base_request.uin == 0,
            is_device_id(r.base_request.device_id@),
            r.base_uri@.len() == 0,
            r.sync_uri@.len() == 0,
            r.file_uri@.len() == 0,
            r.pass_ticket@.len() == 0,
    {
        Base {
            base_response: BaseResponse::new(),
            user: User::new(),
            sync_key: SyncKey::new(),
            base_request: BaseRequest::new(),
            base_uri: String::new(),
            sync_uri: String::new(),
            file_uri: String::new(),
            pass_ticket: String::new(),
        }
    }

    /// Points the session at the deployment `host`: its base, file and sync
    /// addresses. An unknown host is an error and leaves the session as it
    /// was.
    pub fn set_host(&mut self, host: &str) -> (r: Result<(), WxChatError>)
        ensures
            r is Ok <==> deployment_hosts(host@) is Some,
            r is Ok ==> {
                let (f, s) = deployment_hosts(host@)->0;
                &&& final(self).base_uri@ == endpoint(host@)
                &&& final(self).file_uri@ == endpoint(f)
                &&& final(self).sync_uri@ == endpoint(s)
                &&& final(self).base_response == old(self).base_response
                &&& final(self).user == old(self).user
                &&& final(self).sync_key == old(self).sync_key
                &&& final(self).base_request == old(self).base_request
                &&& final(self).pass_ticket == old(self).pass_ticket
            },
            r is Err ==> *final(self) == *old(self),
    {
        match resolve_hosts(host) {
            Some((file, sync)) => {
                self.file_uri = endpoint_of(file.as_str());
                self.sync_uri = endpoint_of(sync.as_str());
                self.base_uri = endpoint_of(host);
                Ok(())
            },
            None => Err(WxChatError::new("unknown deployment host")),
        }
    }

    /// Points the session at the deployment named in a login redirect
    /// address (see `set_host`); an address without a host is an error.
    pub fn locate(&mut self, redirect_uri: &str) -> (r: Result<(), WxChatError>)
        ensures
            regex_capture(HOST_PATTERN@, redirect_uri@) is None ==> r is Err && *final(self)
                == *old(self),
            regex_capture(HOST_PATTERN@, redirect_uri@) matches Some(h) ==> {
                &&& (r is Ok <==> deployment_hosts(h) is Some)
                &&& r is Ok ==> {
                    let (f, s) = deployment_hosts(h)->0;
                    &&& final(self).base_uri@ == endpoint(h)
                    &&& final(self).file_uri@ == endpoint(f)
                    &&& final(self).sync_uri@ == endpoint(s)
                    &&& final(self).base_response == old(self).base_response
                    &&& final(self).user == old(self).user
                    &&& final(self).sync_key == old(self).sync_key
                    &&& final(self).base_request == old(self).base_request
                    &&& final(self).pass_ticket == old(self).pass_ticket
                }
                &&& r is Err ==> *final(self) == *old(self)
            },
    {
        match capture(HOST_PATTERN, redirect_uri) {
            Some(host) => self.set_host(host.as_str()),
            None => Err(WxChatError::new("redirect address names no host")),
        }
    }

    /// Takes the credentials out of the login markup: the texts of its
    /// `skey`, `wxsid`, `wxuin` and `pass_ticket` elements. Markup that lacks
    /// one, or whose uin is not a number, is an error and changes nothing.
    /// Each value is the text of the element's first occurrence, taken as
    /// written (see `element_text`).
    pub fn apply_login_markup(&mut self, markup: &str) -> (r: Result<(), WxChatError>)
        ensures
            r is Ok <==> markup_complete(markup@),
            r is Ok ==> {
                &&& final(self).base_request.skey@ == element_text_of(markup@, "skey"@)
                &&& final(self).base_request.sid@ == element_text_of(markup@, "wxsid"@)
                &&& final(self).base_request.uin == digits_value(
                    element_text_of(markup@, "wxuin"@),
                )
                &&& final(self).pass_ticket@ == element_text_of(markup@, "pass_ticket"@)
                &&& final(self).base_request.device_id == old(self).base_request.device_id
                &&& final(self).base_response == old(self).base_response
                &&& final(self).user == old(self).user
                &&& final(self).sync_key == old(self).sync_key
                &&& final(self).base_uri == old(self).base_uri
                &&& final(self).sync_uri == old(self).sync_uri
                &&& final(self).file_uri == old(self).file_uri
            },
            r is Err ==> *final(self) == *old(self),
    {
        let skey = element_text(markup, "skey");
        let sid = element_text(markup, "wxsid");
        let uin = element_text(markup, "wxuin");
        let ticket = element_text(markup, "pass_ticket");
        match (skey, sid, uin, ticket) {
            (Some(skey), Some(sid), Some(uin), Some(ticket)) => match parse_decimal(uin.as_str()) {
                Some(value) => {
                    self.base_request.skey = skey;
                    self.base_request.sid = sid;
                    self.base_request.uin = value;
                    self.pass_ticket = ticket;
                    Ok(())
                },
                None => Err(WxChatError::new("login markup holds no numeric uin")),
            },
            _ => Err(WxChatError::new("login markup lacks a credential")),
        }
    }

    /// Takes the identity, status and baseline cursor of the web-init reply.
    pub fn apply_init(&mut self, resp: InitResp)
        ensures
            final(self).base_response == resp.base_response,
            final(self).user == resp.user,
            final(self).sync_key == resp.sync_key,
            final(self).base_request == old(self).base_request,
            final(self).base_uri == old(self).base_uri,
            final(self).sync_uri == old(self).sync_uri,
            final(self).file_uri == old(self).file_uri,
            final(self).pass_ticket == old(self).pass_ticket,
    {
        self.base_response = resp.base_response;
        self.user = resp.user;
        self.sync_key = resp.sync_key;
    }

    /// Replaces the cursor by the one the server returned.
    pub fn replace_cursor(&mut self, cursor: SyncKey)
        ensures
            final(self).sync_key == cursor,
            final(self).base_response == old(self).base_response,
            final(self).user == old(self).user,
            final(self).base_request == old(self).base_request,
            final(self).base_uri == old(self).base_uri,
            final(self).sync_uri == old(self).sync_uri,
            final(self).file_uri == old(self).file_uri,
            final(self).pass_ticket == old(self).pass_ticket,
    {
        self.sync_key = cursor;
    }
}

} // verus!
