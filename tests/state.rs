use wxchat::auth::{Auth, AuthConfig, StatusInfo};
use wxchat::base::User;
use wxchat::client::{RetryDecision, RetryPolicy, Supervisor, SupervisorAction};
use wxchat::member::{ContactMember, Member};
use wxchat::message::History;
use wxchat::rule::{Group, OpenAi, OpenAiConfig, OpenAiMessage};
use wxchat::rule::AutoReplyRule;
use wxchat::store::{running_plan, GroupService, OpenAiConfigService, OpenAiService};

fn turn(role: &str, content: &str) -> OpenAiMessage {
    OpenAiMessage { role: role.to_string(), content: content.to_string() }
}

fn profile(id: &str, name: &str) -> OpenAi {
    OpenAi {
        id: id.to_string(),
        name: name.to_string(),
        source: "openai".to_string(),
        token: String::new(),
        model: "gpt".to_string(),
        prompt: String::new(),
    }
}

#[test]
fn history_keeps_ten_most_recent() {
    let mut h = History::new(10);
    for i in 0..7 {
        h.push("@a", vec![turn("user", &format!("q{}", i)), turn("assistant", &format!("a{}", i))]);
    }
    let kept = h.get("@a");
    assert_eq!(kept.len(), 10);
    assert_eq!(kept[0].content, "q2");
    assert_eq!(kept[1].content, "a2");
    assert_eq!(kept[9].content, "a6");
    assert!(h.get("@b").is_empty());
}

#[test]
fn history_peers_are_separate() {
    let mut h = History::new(10);
    h.push("@a", vec![turn("user", "x"), turn("assistant", "y")]);
    h.push("@b", vec![turn("user", "z"), turn("assistant", "w")]);
    h.push("@a", vec![turn("user", "x2"), turn("assistant", "y2")]);
    assert_eq!(h.get("@a").len(), 4);
    assert_eq!(h.get("@b").len(), 2);
    assert_eq!(h.get("@b")[0].content, "z");
}

#[test]
fn history_eviction_boundary() {
    let mut h = History::new(4);
    h.push("@a", vec![turn("user", "1"), turn("assistant", "2")]);
    h.push("@a", vec![turn("user", "3"), turn("assistant", "4")]);
    assert_eq!(h.get("@a").len(), 4);
    h.push("@a", vec![turn("user", "5"), turn("assistant", "6")]);
    let kept: Vec<String> = h.get("@a").into_iter().map(|m| m.content).collect();
    assert_eq!(kept, vec!["3", "4", "5", "6"]);
}

#[test]
fn retry_delays_double_then_give_up() {
    let mut p = RetryPolicy::new();
    assert_eq!(p.on_failure(), RetryDecision::Retry { delay: 1 });
    assert_eq!(p.on_failure(), RetryDecision::Retry { delay: 2 });
    assert_eq!(p.on_failure(), RetryDecision::Retry { delay: 4 });
    assert_eq!(p.on_failure(), RetryDecision::GiveUp);
    assert_eq!(p.on_failure(), RetryDecision::GiveUp);
    let mut q = RetryPolicy::with_limits(1, u64::MAX);
    assert_eq!(q.on_failure(), RetryDecision::Retry { delay: u64::MAX });
    assert_eq!(q.delay, u64::MAX);
}

#[test]
fn supervisor_restarts_after_timeout() {
    let mut s = Supervisor::new(100);
    assert_eq!(s.on_tick(159), SupervisorAction::Wait);
    s.on_signal(150);
    assert_eq!(s.on_tick(209), SupervisorAction::Wait);
    assert_eq!(s.on_tick(210), SupervisorAction::Restart);
    assert_eq!(s.generation, 1);
    assert_eq!(s.last_signal, 210);
    assert_eq!(s.on_tick(211), SupervisorAction::Wait);
}

#[test]
fn auth_expiry() {
    let mut config = AuthConfig::new();
    assert!(config.token_expired_time.is_empty());
    config.expired_time = 500;
    config.expired_html = "renew".to_string();
    let auth = Auth::new().init(config, 800);
    assert_eq!(auth.expired_time(), 800);
    assert_eq!(auth.message(), "renew");
    assert!(auth.authorize(799));
    assert!(!auth.authorize(800));
}

#[test]
fn redeem_outcomes() {
    let mut auth = Auth::new();
    let r = auth.redeem("h".to_string(), None, 100);
    assert_eq!(r.status_info.code, -1);
    assert_eq!(r.status_info.message, "无效的兑换码");
    let r = auth.redeem("h".to_string(), Some(50), 100);
    assert_eq!(r.status_info.code, -1);
    assert_eq!(r.status_info.message, "兑换码已过期");
    let r = auth.redeem("h".to_string(), Some(300), 100);
    assert_eq!(r.status_info.code, 0);
    assert_eq!(r.expired_time, 300);
    let s = StatusInfo::new(0, "ok".to_string());
    assert_eq!(s.message, "ok");
}

#[test]
fn contact_of_account() {
    let mut u = User::new();
    u.user_name = "@me".to_string();
    u.nick_name = "Me".to_string();
    u.uin = 9;
    let c = ContactMember::from(&u);
    assert_eq!(c.user_name, "@me");
    assert_eq!(c.p_y_quan_pin, "@me");
    assert_eq!(c.nick_name, "Me");
    assert_eq!(c.uin, 9);
    assert!(c.province.is_empty());
    let m = Member::from_contacts(vec![ContactMember::from(&User::new())], &u);
    assert_eq!(m.member_list.len(), 2);
    assert_eq!(m.get("@me").unwrap().nick_name, "Me");
    assert!(m.get("@nobody").is_none());
    let mut dup = member("@me", "first");
    dup.nick_name = "Old".to_string();
    let m = Member::from_contacts(vec![dup], &u);
    assert_eq!(m.get("@me").unwrap().nick_name, "Me");
    assert!(Member::new().member_list.is_empty());
}

#[test]
fn profile_store_lists() {
    let s = OpenAiService::new("/data");
    assert_eq!(s.data_path, "/data/data/user/openai.json");
    let list = s.create(vec![profile("a", "A")], profile("b", "B"));
    assert_eq!(list.len(), 2);
    let list = s.update(list, profile("b", "B2"));
    assert_eq!(list[1].name, "B2");
    let list = s.update(list, profile("zz", "Z"));
    assert_eq!(list.len(), 2);
    let list = s.del(list, "a");
    assert_eq!(list.len(), 1);
    assert_eq!(list[0].id, "b");
    let list = s.del(list, "missing");
    assert_eq!(list.len(), 1);
    assert_eq!(s.get(vec![profile("a", "A"), profile("a", "A2")], "a").unwrap().unwrap().name, "A");
    assert!(s.get(vec![profile("a", "A")], "").unwrap().is_none());
    assert_eq!(s.get(vec![profile("a", "A")], "q").unwrap_err().message, "OpenAi not found");
}

#[test]
fn group_and_config_stores() {
    let g = GroupService::new("/r");
    let mk = |id: &str, name: &str| Group {
        id: id.to_string(),
        name: name.to_string(),
        members: vec![],
        operator: String::new(),
    };
    let list = g.create(vec![mk("1", "family")], mk("2", "family"));
    assert_eq!(list.len(), 1);
    let list = g.create(list, mk("2", "work"));
    assert_eq!(list.len(), 2);
    assert_eq!(g.get(g.del(list, "1"), "2").unwrap().unwrap().name, "work");
    assert_eq!(g.get(vec![mk("1", "family")], "9").unwrap_err().message, "Group not found");
    let c = OpenAiConfigService::new("/r");
    assert_eq!(c.data_path, "/r/data/system/config.json");
    let list = c.create(vec![OpenAiConfig::new("s", "u", vec![])], OpenAiConfig::new("s", "v", vec![]));
    assert_eq!(list.len(), 1);
    assert_eq!(list[0].url, "u");
}

fn member(user_name: &str, pinyin: &str) -> ContactMember {
    let mut u = User::new();
    u.user_name = user_name.to_string();
    let mut c = ContactMember::from(&u);
    c.p_y_quan_pin = pinyin.to_string();
    c
}

#[test]
fn group_members_take_fetched_names() {
    let g = GroupService::new("/r");
    let stored = vec![Group {
        id: "1".to_string(),
        name: "family".to_string(),
        members: vec![member("@old_mom", "mom"), member("@old_x", "stranger")],
        operator: "or".to_string(),
    }];
    let fetched = vec![member("@mom1", "mom"), member("@dad", "dad"), member("@mom2", "mom")];
    let groups = g.update_by_member(stored, &fetched);
    assert_eq!(groups.len(), 1);
    assert_eq!(groups[0].members[0].user_name, "@mom2");
    assert_eq!(groups[0].members[0].p_y_quan_pin, "mom");
    assert_eq!(groups[0].members[1].user_name, "@old_x");
    assert_eq!(groups[0].operator, "or");
}

#[test]
fn running_plan_skips_disabled_and_unresolved() {
    let mk_group = |id: &str| Group { id: id.to_string(), name: id.to_string(), members: vec![], operator: String::new() };
    let mk_rule = |id: &str, group: &str, status: bool| AutoReplyRule {
        id: id.to_string(),
        name: id.to_string(),
        group: mk_group(group),
        reply: vec![],
        status,
    };
    let rules = vec![
        mk_rule("a", "g2", true),
        mk_rule("b", "g1", false),
        mk_rule("c", "missing", true),
        mk_rule("d", "g1", true),
    ];
    let groups = vec![mk_group("g1"), mk_group("g2"), mk_group("g1")];
    assert_eq!(running_plan(&rules, &groups), vec![(0, 1), (3, 0)]);
    assert!(running_plan(&rules, &vec![]).is_empty());
}
