use wxchat::dispatch::{exchange, on_resolved, reply_input, reply_recipients, start_dispatch, ReplyAction};
use wxchat::message::History;
use wxchat::member::ContactMember;
use wxchat::message::{AddMsg, AppInfo, RecommendInfo};
use wxchat::rule::{
    first_choice, generation_request, generation_url, next_candidate, user_turn, AutoReplyRule,
    Choice, Group, OpenAi, OpenAiConfig, OpenAiMessage, OpenAiRequest, OpenAiResponse, Reply,
    Template,
};

fn contact(user_name: &str) -> ContactMember {
    ContactMember {
        uin: 0,
        user_name: user_name.to_string(),
        nick_name: String::new(),
        head_img_url: String::new(),
        contact_flag: 0,
        member_count: 0,
        member_list: vec![],
        remark_name: String::new(),
        hide_input_bar_flag: 0,
        sex: 0,
        signature: String::new(),
        verify_flag: 0,
        owner_uin: 0,
        p_y_quan_pin: user_name.to_string(),
        remark_p_y_initial: String::new(),
        remark_p_y_quan_pin: String::new(),
        star_friend: 0,
        app_account_flag: 0,
        statues: 0,
        province: String::new(),
        city: String::new(),
        alias: String::new(),
        sns_flag: 0,
        uni_friend: 0,
        display_name: String::new(),
        chat_room_id: 0,
        key_word: String::new(),
        encry_chat_room_id: String::new(),
        is_owner: 0,
    }
}

fn group(id: &str, members: &[&str]) -> Group {
    Group {
        id: id.to_string(),
        name: id.to_string(),
        members: members.iter().map(|m| contact(m)).collect(),
        operator: String::new(),
    }
}

fn profile(prompt: &str) -> OpenAi {
    OpenAi {
        id: "profile-a".to_string(),
        name: "profile".to_string(),
        source: "openai".to_string(),
        token: "SECRET-REDACTED".to_string(),
        model: "gpt".to_string(),
        prompt: prompt.to_string(),
    }
}

fn template(keywords: &[&str], content: &str) -> Reply {
    Reply {
        reply_type: "Template".to_string(),
        template: Template {
            keywords: keywords.iter().map(|k| k.to_string()).collect(),
            content: content.to_string(),
        },
        open_ai: profile(""),
    }
}

fn generated() -> Reply {
    Reply {
        reply_type: "AI".to_string(),
        template: Template { keywords: vec!["never".to_string()], content: String::new() },
        open_ai: profile(""),
    }
}

fn rule(id: &str, status: bool, g: Group, reply: Vec<Reply>) -> AutoReplyRule {
    AutoReplyRule { id: id.to_string(), name: id.to_string(), group: g, reply, status }
}

fn message(from: &str, to: &str, msg_type: i64, content: &str) -> AddMsg {
    AddMsg {
        msg_id: "1".to_string(),
        from_user_name: from.to_string(),
        to_user_name: to.to_string(),
        msg_type,
        content: content.to_string(),
        status: 0,
        img_status: 0,
        create_time: 0,
        voice_length: 0,
        play_length: 0,
        file_name: String::new(),
        file_size: String::new(),
        media_id: String::new(),
        url: String::new(),
        app_msg_type: 0,
        status_notify_code: 0,
        status_notify_user_name: String::new(),
        recommend_info: RecommendInfo {
            user_name: String::new(),
            nick_name: String::new(),
            q_q_num: 0,
            province: String::new(),
            city: String::new(),
            content: String::new(),
            signature: String::new(),
            alias: String::new(),
            scene: 0,
            verify_flag: 0,
            attr_status: 0,
            sex: 0,
            ticket: String::new(),
            op_code: 0,
        },
        forward_flag: 0,
        app_info: AppInfo { app_i_d: String::new(), kind: 0 },
    }
}

#[test]
fn group_reserved_ids() {
    assert!(group("all", &[]).hit("@user"));
    assert!(group("all", &[]).hit("@@room"));
    assert!(group("all_membership", &[]).hit("@user"));
    assert!(!group("all_membership", &[]).hit("@@room"));
    assert!(group("all_account", &[]).hit("@user"));
    assert!(!group("all_account", &[]).hit("@@room"));
    assert!(group("all_classroom", &[]).hit("@@room"));
    assert!(!group("all_classroom", &[]).hit("@user"));
    assert!(!group("friends", &[]).hit("@user"));
}

#[test]
fn group_members_decide_regardless_of_id() {
    let g = group("all", &["@a", "@b"]);
    assert!(g.hit("@b"));
    assert!(!g.hit("@c"));
    let g = group("all_classroom", &["@a"]);
    assert!(g.hit("@a"));
    assert!(!g.hit("@@room"));
}

#[test]
fn reply_matching() {
    assert!(generated().hit("anything at all"));
    assert!(template(&[], "hi").hit("whatever"));
    assert!(template(&["price", "cost"], "x").hit("what does it cost?"));
    assert!(!template(&["price"], "x").hit("Price please"));
    assert!(!template(&["price"], "x").hit(""));
}

#[test]
fn disabled_rule_is_skipped() {
    let rules = vec![
        rule("r1", false, group("all", &[]), vec![template(&[], "off")]),
        rule("r2", true, group("all", &[]), vec![template(&[], "on")]),
    ];
    assert_eq!(next_candidate(&rules, "@u", "hello", 0, 0), Some((1, 0)));
    let only_disabled = vec![rule("r1", false, group("all", &[]), vec![generated()])];
    assert_eq!(next_candidate(&only_disabled, "@u", "hello", 0, 0), None);
}

#[test]
fn candidate_search_order() {
    let rules = vec![
        rule("r1", true, group("friends", &[]), vec![template(&[], "a")]),
        rule("r2", true, group("all", &[]), vec![template(&["bye"], "b"), template(&["hi"], "c")]),
        rule("r3", true, group("all", &[]), vec![generated()]),
    ];
    assert_eq!(next_candidate(&rules, "@u", "hi there", 0, 0), Some((1, 1)));
    assert_eq!(next_candidate(&rules, "@u", "hi there", 1, 2), Some((2, 0)));
    assert_eq!(next_candidate(&rules, "@u", "hi there", 2, 1), None);
    assert_eq!(next_candidate(&rules, "@u", "hi there", 7, 0), None);
}

#[test]
fn message_to_other_identity_is_dropped() {
    let rules = vec![rule("r1", true, group("all", &[]), vec![template(&[], "x")])];
    let m = message("@friend", "@someone_else", 1, "hello");
    assert_eq!(start_dispatch(&rules, "@me", &m), ReplyAction::Finish);
    let m = message("@friend", "@me", 3, "hello");
    assert_eq!(start_dispatch(&rules, "@me", &m), ReplyAction::Finish);
    let m = message("@friend", "@me", 1, "hello");
    assert_eq!(start_dispatch(&rules, "@me", &m), ReplyAction::Resolve { rule: 0, reply: 0 });
}

#[test]
fn empty_generation_continues_scan() {
    let rules = vec![
        rule("r1", true, group("all", &[]), vec![generated(), template(&["zzz"], "no")]),
        rule("r2", true, group("all", &[]), vec![template(&["hel"], "yes")]),
    ];
    let m = message("@friend", "@me", 1, "hello");
    let first = start_dispatch(&rules, "@me", &m);
    assert_eq!(first, ReplyAction::Resolve { rule: 0, reply: 0 });
    let next = on_resolved(&rules, &m, 0, 0, "");
    assert_eq!(next, ReplyAction::Resolve { rule: 1, reply: 0 });
    let out = rules[1].reply[0].template_output().unwrap();
    assert_eq!(out.role, "assistant");
    assert_eq!(out.content, "yes");
    assert_eq!(on_resolved(&rules, &m, 1, 0, &out.content), ReplyAction::Send { rule: 1, reply: 0 });
    assert_eq!(on_resolved(&rules, &m, 1, 0, ""), ReplyAction::Finish);
}

#[test]
fn first_nonempty_match_wins() {
    let rules = vec![
        rule("r1", true, group("all", &[]), vec![template(&[], "first")]),
        rule("r2", true, group("all", &[]), vec![template(&[], "second")]),
    ];
    let m = message("@friend", "@me", 1, "hello");
    let step = start_dispatch(&rules, "@me", &m);
    assert_eq!(step, ReplyAction::Resolve { rule: 0, reply: 0 });
    let out = rules[0].reply[0].template_output().unwrap();
    assert_eq!(on_resolved(&rules, &m, 0, 0, &out.content), ReplyAction::Send { rule: 0, reply: 0 });
}

#[test]
fn generation_reply_has_no_template_output() {
    assert!(generated().template_output().is_none());
}

#[test]
fn request_with_and_without_prompt() {
    let history = vec![
        OpenAiMessage { role: "user".to_string(), content: "hi".to_string() },
        OpenAiMessage { role: "assistant".to_string(), content: "hello".to_string() },
        user_turn("how are you"),
    ];
    let req = generation_request(&profile("be brief"), &history);
    assert_eq!(req.model, "gpt");
    assert_eq!(req.messages.len(), 4);
    assert_eq!(req.messages[0].role, "system");
    assert_eq!(req.messages[0].content, "be brief");
    assert_eq!(req.messages[3].content, "how are you");
    let req = generation_request(&profile(""), &history);
    assert_eq!(req.messages.len(), 3);
    assert_eq!(req.messages[0].content, "hi");
    let empty = OpenAiRequest::new();
    assert!(empty.model.is_empty() && empty.messages.is_empty());
}

#[test]
fn first_choice_or_diagnostic() {
    let resp = OpenAiResponse {
        choices: vec![
            Choice { message: OpenAiMessage { role: "assistant".to_string(), content: "one".to_string() } },
            Choice { message: OpenAiMessage { role: "assistant".to_string(), content: "two".to_string() } },
        ],
    };
    let m = first_choice(Some(resp));
    assert_eq!(m.content, "one");
    let m = first_choice(None);
    assert_eq!(m.role, "user");
    assert_eq!(m.content, "测试异常 , 请检测配置");
    let m = first_choice(Some(OpenAiResponse { choices: vec![] }));
    assert_eq!(m.content, "测试异常 , 请检测配置");
}

#[test]
fn source_url_lookup() {
    let configs = vec![
        OpenAiConfig::new("kimi", "https://kimi.example/v1", vec!["k1"]),
        OpenAiConfig::new("openai", "https://openai.example/v1", vec!["gpt", "gpt-mini"]),
        OpenAiConfig::new("openai", "https://other.example", vec![]),
        OpenAiConfig::new("blank", "", vec![]),
    ];
    assert_eq!(configs[1].model, vec!["gpt".to_string(), "gpt-mini".to_string()]);
    assert_eq!(generation_url(&configs, "openai").unwrap(), "https://openai.example/v1");
    assert_eq!(generation_url(&configs, "missing").unwrap_err().message, "url not found");
    assert_eq!(generation_url(&configs, "blank").unwrap_err().message, "url not found");
}

#[test]
fn reply_routing_and_history_entries() {
    let m = message("@friend", "@me", 1, "hello");
    assert_eq!(reply_recipients(&m), vec!["@friend".to_string(), "filehelper".to_string()]);
    let mut h = History::new(10);
    h.push("@friend", vec![user_turn("earlier"), OpenAiMessage { role: "assistant".to_string(), content: "ok".to_string() }]);
    let input = reply_input(&h, &m);
    assert_eq!(input.len(), 3);
    assert_eq!(input[0].content, "earlier");
    assert_eq!(input[2].role, "user");
    assert_eq!(input[2].content, "hello");
    let pair = exchange(&m, OpenAiMessage { role: "assistant".to_string(), content: "hi!".to_string() });
    assert_eq!(pair.len(), 2);
    assert_eq!(pair[0].content, "hello");
    assert_eq!(pair[1].content, "hi!");
}
