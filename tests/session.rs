use wxchat::base::{Base, BaseRequest, InitResp, SyncKey, SyncKeyItem, User, HOST_PATTERN};
use wxchat::dispatch::{apply_sync, check_reply, SyncCheck};
use wxchat::login::{parse_uuid, scan_status, CheckResp, CycleAction, ScanStatus, SessionState};
use wxchat::message::SyncResponse;
use wxchat::tool::capture;

const MARKUP: &str = "<error><ret>0</ret><message></message><skey>@crypt_abc</skey><wxsid>sid42</wxsid><wxuin>2882374</wxuin><pass_ticket>tick%2Bet</pass_ticket><isgrayscale>1</isgrayscale></error>";

fn cursor(pairs: &[(i64, i64)]) -> SyncKey {
    SyncKey {
        count: pairs.len() as i64,
        list: pairs.iter().map(|&(key, val)| SyncKeyItem { key, val }).collect(),
    }
}

#[test]
fn cursor_serialisation() {
    assert_eq!(cursor(&[(1, 650), (2, 651), (1000, 0)]).to_string(), "1_650|2_651|1000_0");
    assert_eq!(SyncKey::new().to_string(), "");
    assert_eq!(SyncKeyItem { key: -1, val: 3 }.to_string(), "-1_3");
    assert_eq!(cursor(&[(1, 654)]).to_string(), "1_654");
    assert_eq!(cursor(&[(1, 654), (2, 7)]).to_string(), "1_654|2_7");
}

#[test]
fn device_id_shape() {
    let r = BaseRequest::new();
    assert_eq!(r.device_id.chars().count(), 16);
    assert!(r.device_id.starts_with('e'));
    assert!(r.device_id.chars().skip(1).all(|c| ('0'..'9').contains(&c)));
    assert!(r.skey.is_empty() && r.sid.is_empty() && r.uin == 0);
}

#[test]
fn new_session_is_empty() {
    let b = Base::new();
    assert!(b.user.user_name.is_empty());
    assert!(b.sync_key.list.is_empty());
    assert!(b.base_uri.is_empty() && b.pass_ticket.is_empty());
}

#[test]
fn locate_known_deployment() {
    let mut b = Base::new();
    let uri = "https://wx2.qq.com/cgi-bin/mmwebwx-bin/webwxnewloginpage?ticket=T&uuid=U&scan=1";
    assert_eq!(capture(HOST_PATTERN, uri), Some("wx2.qq.com".to_string()));
    assert!(b.locate(uri).is_ok());
    assert_eq!(b.base_uri, "https://wx2.qq.com/cgi-bin/mmwebwx-bin");
    assert_eq!(b.file_uri, "https://file.wx2.qq.com/cgi-bin/mmwebwx-bin");
    assert_eq!(b.sync_uri, "https://webpush.wx2.qq.com/cgi-bin/mmwebwx-bin");
}

#[test]
fn set_host_aliases() {
    let mut b = Base::new();
    assert!(b.set_host("wechat.com").is_ok());
    assert_eq!(b.base_uri, "https://wechat.com/cgi-bin/mmwebwx-bin");
    assert_eq!(b.sync_uri, "https://webpush.web.wechat.com/cgi-bin/mmwebwx-bin");
    assert!(b.set_host("qq.com").is_ok());
    assert_eq!(b.file_uri, "https://file.wx.qq.com/cgi-bin/mmwebwx-bin");
}

#[test]
fn locate_unknown_host_fails_without_change() {
    let mut b = Base::new();
    assert!(b.locate("https://example.org/cgi-bin/mmwebwx-bin/x").is_err());
    assert!(b.base_uri.is_empty() && b.file_uri.is_empty() && b.sync_uri.is_empty());
    assert!(b.locate("not an address").is_err());
    assert!(b.base_uri.is_empty());
}

#[test]
fn login_markup_fills_credentials() {
    let mut b = Base::new();
    assert!(b.apply_login_markup(MARKUP).is_ok());
    assert_eq!(b.base_request.skey, "@crypt_abc");
    assert_eq!(b.base_request.sid, "sid42");
    assert_eq!(b.base_request.uin, 2882374);
    assert_eq!(b.pass_ticket, "tick%2Bet");
}

#[test]
fn login_markup_missing_field_fails() {
    let mut b = Base::new();
    let doc = "<error><skey>k</skey><wxuin>1</wxuin><pass_ticket>p</pass_ticket></error>";
    assert!(b.apply_login_markup(doc).is_err());
    assert!(b.base_request.skey.is_empty());
    let doc = "<error><skey>k</skey><wxsid>s</wxsid><wxuin>x1</wxuin><pass_ticket>p</pass_ticket></error>";
    assert!(b.apply_login_markup(doc).is_err());
    assert!(b.pass_ticket.is_empty());
}

#[test]
fn scan_status_codes() {
    assert_eq!(scan_status("200"), ScanStatus::Confirmed);
    assert_eq!(scan_status("201"), ScanStatus::Scanned);
    assert_eq!(scan_status("408"), ScanStatus::Pending);
    assert_eq!(scan_status(""), ScanStatus::Pending);
    assert_eq!(scan_status("400"), ScanStatus::Expired);
}

#[test]
fn parse_login_replies() {
    let text = r#"window.QRLogin.code = 200; window.QRLogin.uuid = "4ZxV_abc==";"#;
    assert_eq!(parse_uuid(text), "4ZxV_abc==");
    assert_eq!(parse_uuid("nothing"), "");
    let text = "window.code=200;\nwindow.redirect_uri=\"https://wx.qq.com/cgi-bin/mmwebwx-bin/webwxnewloginpage?ticket=A&uuid=B\";";
    let resp = CheckResp::parse(text);
    assert_eq!(resp.code, "200");
    assert_eq!(resp.redirect_uri, "https://wx.qq.com/cgi-bin/mmwebwx-bin/webwxnewloginpage?ticket=A&uuid=B");
    let resp = CheckResp::parse("window.code=408;");
    assert_eq!(resp.code, "408");
    assert_eq!(resp.redirect_uri, "");
    let d = CheckResp::default();
    assert!(d.code.is_empty() && d.redirect_uri.is_empty());
}

#[test]
fn confirmed_scan_authenticates_and_init_populates() {
    let text = "window.code=200;\nwindow.redirect_uri=\"https://wx8.qq.com/cgi-bin/mmwebwx-bin/webwxnewloginpage?ticket=A\";";
    let resp = CheckResp::parse(text);
    let state = SessionState::Unauthenticated.issue_qr();
    let state = state.on_scan(scan_status(&resp.code));
    assert_eq!(state, SessionState::PendingScan);
    let mut base = Base::new();
    let ok = base.locate(&resp.redirect_uri).is_ok() && base.apply_login_markup(MARKUP).is_ok();
    let state = state.on_established(ok);
    assert_eq!(state, SessionState::Authenticated);
    let mut init = InitResp::new();
    init.user.user_name = "@me".to_string();
    init.sync_key = cursor(&[(1, 10), (2, 20)]);
    base.apply_init(init);
    assert_eq!(base.user.user_name, "@me");
    assert_eq!(base.sync_key.to_string(), "1_10|2_20");
    assert_eq!(base.base_request.skey, "@crypt_abc");
    assert_eq!(base.base_uri, "https://wx8.qq.com/cgi-bin/mmwebwx-bin");
}

#[test]
fn scan_transitions() {
    let q = SessionState::QrIssued;
    assert_eq!(q.on_scan(ScanStatus::Pending), SessionState::QrIssued);
    assert_eq!(q.on_scan(ScanStatus::Scanned), SessionState::QrIssued);
    assert_eq!(q.on_scan(ScanStatus::Expired), SessionState::Invalid);
    assert_eq!(SessionState::PendingScan.on_established(false), SessionState::Invalid);
    assert_eq!(SessionState::Invalid.on_scan(ScanStatus::Confirmed), SessionState::Invalid);
    assert_eq!(SessionState::Authenticated.logout(), SessionState::Unauthenticated);
}

#[test]
fn check_1102_invalidates_and_stops() {
    let c = check_reply(r#"window.synccheck={retcode:"1102",selector:"0"}"#);
    assert_eq!(c, SyncCheck::Invalid);
    let (state, action) = SessionState::Authenticated.on_check(c);
    assert_eq!(state, SessionState::Invalid);
    assert_eq!(action, CycleAction::Stop);
    let (_, action) = state.on_check(SyncCheck::Proceed);
    assert_eq!(action, CycleAction::Stop);
}

#[test]
fn check_codes() {
    assert_eq!(check_reply(r#"window.synccheck={retcode:"0",selector:"2"}"#), SyncCheck::Proceed);
    assert_eq!(check_reply(r#"window.synccheck={retcode:"1101",selector:"0"}"#), SyncCheck::Skip);
    assert_eq!(check_reply("garbage"), SyncCheck::Skip);
    let a = SessionState::Authenticated;
    assert_eq!(a.on_check(SyncCheck::Proceed), (a, CycleAction::Sync));
    assert_eq!(a.on_check(SyncCheck::Skip), (a, CycleAction::Wait));
}

#[test]
fn sync_replaces_cursor() {
    let mut base = Base::new();
    base.sync_key = cursor(&[(1, 5), (2, 6), (3, 7)]);
    let mut resp = SyncResponse::new_err();
    resp.sync_check_key = cursor(&[(9, 99)]);
    let msgs = apply_sync(&mut base, resp);
    assert!(msgs.is_empty());
    assert_eq!(base.sync_key.to_string(), "9_99");
    let msgs = apply_sync(&mut base, SyncResponse::new_err());
    assert!(msgs.is_empty());
    assert_eq!(base.sync_key.to_string(), "");
}

#[test]
fn failed_sync_reply() {
    let r = SyncResponse::new_err();
    assert_eq!(r.base_response.ret, -1);
    assert_eq!(r.add_msg_count, 0);
    assert!(r.add_msg_list.is_empty() && r.sync_check_key.list.is_empty());
}

#[test]
fn blank_user() {
    let u = User::new();
    assert!(u.user_name.is_empty() && u.uin == 0 && u.sns_flag == 0);
}
