//! Reply rules: contact groups, reply templates and generation profiles,
//! and the first-match search over them.

use vstd::prelude::*;
use crate::error::WxChatError;
use crate::member::ContactMember;
use crate::text::{contains, has_prefix, has_substring, starts_with, str_eq};

verus! {

/// A text-generation profile.
#[derive(Debug, Clone)]
pub struct OpenAi {
    pub id: String,
    pub name: String,
    pub source: String,
    pub token: String,
    pub model: String,
    pub prompt: String,
}

/// Where a generation source is reached, and its models.
#[derive(Debug, Clone)]
pub struct OpenAiConfig {
    pub source: String,
    pub url: String,
    pub model: Vec<String>,
}

/// One turn of a conversation.
#[derive(Debug, Clone)]
pub struct OpenAiMessage {
    pub role: String,
    pub content: String,
}

impl OpenAiMessage {
    /// A turn with the same role and content.
    pub fn duplicate(&self) -> (r: OpenAiMessage)
        ensures
            r == *self,
    {
        OpenAiMessage { role: self.role.clone(), content: self.content.clone() }
    }
}

/// A generation request: a model and the ordered turns.
#[derive(Debug)]
pub struct OpenAiRequest {
    pub model: String,
    pub messages: Vec<OpenAiMessage>,
}

/// A decoded generation reply.
#[derive(Debug)]
pub struct OpenAiResponse {
    pub choices: Vec<Choice>,
}

/// One candidate turn of a generation reply.
#[derive(Debug)]
pub struct Choice {
    pub message: OpenAiMessage,
}

/// A set of peers: the listed members, or, with no members, the peers that
/// a reserved id names.
#[derive(Debug)]
pub struct Group {
    pub id: String,
    pub name: String,
    pub members: Vec<ContactMember>,
    pub operator: String,
}

/// A rule answering incoming messages.
#[derive(Debug)]
pub struct AutoReplyRule {
    pub id: String,
    pub name: String,
    pub group: Group,
    pub reply: Vec<Reply>,
    pub status: bool,
}

/// A rule fired at the times of a cron expression.
#[derive(Debug)]
pub struct ScheduledRule {
    pub id: String,
    pub cron: String,
    pub name: String,
    pub group: Group,
    pub reply: Vec<Reply>,
    pub status: bool,
}

/// A reply: a keyword template, or text from a generation profile.
#[derive(Debug)]
pub struct Reply {
    pub reply_type: String,
    pub template: Template,
    pub open_ai: OpenAi,
}

/// A static answer and the keywords that trigger it.
#[derive(Debug)]
pub struct Template {
    pub keywords: Vec<String>,
    pub content: String,
}

impl OpenAiConfig {
    pub fn new(source: &str, url: &str, model: Vec<&str>) -> (r: OpenAiConfig)
        ensures
            r.source@ == source@,
            r.url@ == url@,
            r.model@.len() == model@.len(),
            forall|i: int| 0 <= i < model@.len() ==> #[trigger] r.model@[i]@ == model@[i]@,
    {
        let mut names: Vec<String> = Vec::new();
        let mut i: usize = 0;
        while i < model.len()
            invariant
                i <= model@.len(),
                names@.len() == i,
                forall|k: int| 0 <= k < i ==> #[trigger] names@[k]@ == model@[k]@,
            decreases model@.len() - i,
        {
            names.push(String::from_str(model[i]));
            i += 1;
        }
        OpenAiConfig { source: String::from_str(source), url: String::from_str(url), model: names }
    }
}

impl OpenAiRequest {
    pub fn new() -> (r: OpenAiRequest)
        ensures
            r.model@.len() == 0,
            r.messages@.len() == 0,
    {
        OpenAiRequest { model: String::new(), messages: Vec::new() }
    }
}

/// A turn with the given role and content.
pub open spec fn is_turn(m: OpenAiMessage, role: Seq<char>, content: Seq<char>) -> bool {
    m.role@ == role && m.content@ == content
}

/// The turn of the user saying `content`.
pub fn user_turn(content: &str) -> (r: OpenAiMessage)
    ensures
        is_turn(r, "user"@, content@),
{
    OpenAiMessage { role: String::from_str("user"), content: String::from_str(content) }
}

/// The turns sent to a generation profile: its prompt as a system turn when
/// it has one, then `messages` in order.
pub fn generation_request(openai: &OpenAi, messages: &Vec<OpenAiMessage>) -> (r: OpenAiRequest)
    ensures
        r.model == openai.model,
        openai.prompt@.len() == 0 ==> r.messages@ == messages@,
        openai.prompt@.len() > 0 ==> {
            &&& r.messages@.len() == messages@.len() + 1
            &&& is_turn(r.messages@[0], "system"@, openai.prompt@)
            &&& r.messages@.skip(1) == messages@
        },
{
    let mut request = OpenAiRequest::new();
    request.model = openai.model.clone();
    let offset: usize = if openai.prompt.as_str().unicode_len() > 0 {
        request.messages.push(
            OpenAiMessage { role: String::from_str("system"), content: openai.prompt.clone() },
        );
        1
    } else {
        0
    };
    let ghost head = request.messages@;
    let mut i: usize = 0;
    while i < messages.len()
        invariant
            i <= messages@.len(),
            head.len() == offset,
            request.messages@ == head + messages@.subrange(0, i as int),
            request.model == openai.model,
        decreases messages@.len() - i,
    {
        request.messages.push(messages[i].duplicate());
        assert(request.messages@ =~= head + messages@.subrange(0, i + 1));
        i += 1;
    }
    assert(messages@.subrange(0, i as int) =~= messages@);
    assert(request.messages@.skip(offset as int) =~= messages@);
    request
}

/// The turn that stands for a generation reply that could not be decoded.
pub open spec fn diagnostic_turn(m: OpenAiMessage) -> bool {
    is_turn(m, "user"@, "测试异常 , 请检测配置"@)
}

/// The generation reply was decoded and holds a choice.
pub open spec fn has_choice(resp: Option<OpenAiResponse>) -> bool {
    resp is Some && resp->0.choices@.len() > 0
}

/// The turn a generation reply yields: its first choice, or the diagnostic
/// turn when the reply could not be decoded or holds no choice.
pub fn first_choice(resp: Option<OpenAiResponse>) -> (r: OpenAiMessage)
    ensures
        has_choice(resp) ==> r == resp->0.choices@[0].message,
        !has_choice(resp) ==> diagnostic_turn(r),
{
    match resp {
        Some(x) => if x.choices.len() > 0 {
            x.choices[0].message.duplicate()
        } else {
            OpenAiMessage {
                role: String::from_str("user"),
                content: String::from_str("测试异常 , 请检测配置"),
            }
        },
        None => OpenAiMessage {
            role: String::from_str("user"),
            content: String::from_str("测试异常 , 请检测配置"),
        },
    }
}

/// `i` is the first configuration of `source`.
pub open spec fn first_of_source(configs: Seq<OpenAiConfig>, source: Seq<char>, i: int) -> bool {
    &&& 0 <= i < configs.len()
    &&& configs[i].source@ == source
    &&& forall|k: int| 0 <= k < i ==> #[trigger] configs[k].source@ != source
}

/// The address of the first configuration of `source`; an error when there
/// is none or its address is empty.
pub fn generation_url(configs: &Vec<OpenAiConfig>, source: &str) -> (r: Result<String, WxChatError>)
    ensures
        forall|i: int| #[trigger]
            first_of_source(configs@, source@, i) ==> (if configs@[i].url@.len() > 0 {
                r == Ok::<String, WxChatError>(configs@[i].url)
            } else {
                r matches Err(e) && e.message@ == "url not found"@
            }),
        (forall|i: int| 0 <= i < configs@.len() ==> #[trigger] configs@[i].source@ != source@)
            ==> (r matches Err(e) && e.message@ == "url not found"@),
{
    let mut i: usize = 0;
    while i < configs.len()
        invariant
            i <= configs@.len(),
            forall|k: int| 0 <= k < i ==> #[trigger] configs@[k].source@ != source@,
        decreases configs@.len() - i,
    {
        if str_eq(configs[i].source.as_str(), source) {
            proof {
                assert forall|j: int| #[trigger] first_of_source(configs@, source@, j) implies j
                    == i by {
                    if j < i {
                        assert(configs@[j].source@ != source@);
                    } else if j > i {
                        assert(configs@[i as int].source@ != source@);
                    }
                }
            }
            if configs[i].url.as_str().unicode_len() == 0 {
                return Err(WxChatError::new("url not found"));
            }
            return Ok(configs[i].url.clone());
        }
        i += 1;
    }
    Err(WxChatError::new("url not found"))
}

impl Reply {
    /// The reply is a static template.
    pub open spec fn is_template(self) -> bool {
        self.reply_type@ == "Template"@
    }

    /// The output of a template reply: its text, as the assistant's turn.
    /// A reply of another kind is answered by its generation profile, so
    /// there is no output here.
    pub fn template_output(&self) -> (r: Option<OpenAiMessage>)
        ensures
            self.is_template() ==> (r matches Some(m) && is_turn(m, "assistant"@, self.template.content@)),
            !self.is_template() ==> r is None,
    {
        if str_eq(self.reply_type.as_str(), "Template") {
            Some(OpenAiMessage { role: String::from_str("assistant"), content: self.template.content.clone() })
        } else {
            None
        }
    }
}

/// The prefix of the ids of group chats.
pub open spec fn group_chat_prefix() -> Seq<char> {
    "@@"@
}

/// Whether the group holds `peer`.
pub open spec fn group_hit(g: Group, peer: Seq<char>) -> bool {
    if g.members@.len() == 0 {
        if g.id@ == "all"@ {
            true
        } else if g.id@ == "all_membership"@ || g.id@ == "all_account"@ {
            !has_prefix(peer, group_chat_prefix())
        } else if g.id@ == "all_classroom"@ {
            has_prefix(peer, group_chat_prefix())
        } else {
            false
        }
    } else {
        exists|i: int| 0 <= i < g.members@.len() && #[trigger] g.members@[i].user_name@ == peer
    }
}

/// The reply is drawn from a generation profile.
pub open spec fn is_generated(r: Reply) -> bool {
    r.reply_type@ == "AI"@
}

/// Whether the reply answers `text`.
pub open spec fn reply_hit(r: Reply, text: Seq<char>) -> bool {
    ||| is_generated(r)
    ||| r.template.keywords@.len() == 0
    ||| exists|k: int|
        0 <= k < r.template.keywords@.len() && has_substring(text, #[trigger] r.template.keywords@[k]@)
}

impl Group {
    /// Whether the group holds the peer `user_name`.
    pub fn hit(&self, user_name: &str) -> (r: bool)
        ensures
            r == group_hit(*self, user_name@),
    {
        if self.members.len() == 0 {
            if str_eq(self.id.as_str(), "all") {
                return true;
            } else if str_eq(self.id.as_str(), "all_membership") || str_eq(
                self.id.as_str(),
                "all_account",
            ) {
                return !starts_with(user_name, "@@");
            } else if str_eq(self.id.as_str(), "all_classroom") {
                return starts_with(user_name, "@@");
            }
            return false;
        }
        let mut i: usize = 0;
        while i < self.members.len()
            invariant
                i <= self.members@.len(),
                forall|k: int| 0 <= k < i ==> #[trigger] self.members@[k].user_name@ != user_name@,
            decreases self.members@.len() - i,
        {
            if str_eq(self.members[i].user_name.as_str(), user_name) {
                return true;
            }
            i += 1;
        }
        false
    }
}

impl Reply {
    /// Whether the reply answers the message text `content`.
    pub fn hit(&self, content: &str) -> (r: bool)
        ensures
            r == reply_hit(*self, content@),
    {
        if str_eq(self.reply_type.as_str(), "AI") {
            return true;
        }
        let n = self.template.keywords.len();
        if n == 0 {
            return true;
        }
        let mut k: usize = 0;
        while k < n
            invariant
                n == self.template.keywords@.len(),
                k <= n,
                forall|t: int|
                    0 <= t < k ==> !has_substring(content@, #[trigger] self.template.keywords@[t]@),
            decreases n - k,
        {
            if contains(content, self.template.keywords[k].as_str()) {
                return true;
            }
            k += 1;
        }
        false
    }
}

/// Reply `j` of rule `i` answers a message from `peer` with `text`: the
/// rule is enabled, its group holds the peer, and the reply answers the text.
pub open spec fn is_candidate(
    rules: Seq<AutoReplyRule>,
    peer: Seq<char>,
    text: Seq<char>,
    i: int,
    j: int,
) -> bool {
    &&& 0 <= i < rules.len()
    &&& rules[i].status
    &&& group_hit(rules[i].group, peer)
    &&& 0 <= j < rules[i].reply@.len()
    &&& reply_hit(rules[i].reply@[j], text)
}

/// Position `(i, j)` comes before `(k, l)` in stored order.
pub open spec fn before(i: int, j: int, k: int, l: int) -> bool {
    i < k || (i == k && j < l)
}

/// No candidate stands from position `(fi, fj)` up to, not including, `(ti, tj)`.
pub open spec fn none_between(
    rules: Seq<AutoReplyRule>,
    peer: Seq<char>,
    text: Seq<char>,
    fi: int,
    fj: int,
    ti: int,
    tj: int,
) -> bool {
    forall|i: int, j: int|
        #[trigger] is_candidate(rules, peer, text, i, j) && !before(i, j, fi, fj) ==> !before(
            i,
            j,
            ti,
            tj,
        )
}

/// The first candidate, in stored order, at or after reply `from_reply` of
/// rule `from_rule`.
pub fn next_candidate(
    rules: &Vec<AutoReplyRule>,
    peer: &str,
    text: &str,
    from_rule: usize,
    from_reply: usize,
) -> (r: Option<(usize, usize)>)
    ensures
        r matches Some((i, j)) ==> {
            &&& is_candidate(rules@, peer@, text@, i as int, j as int)
            &&& !before(i as int, j as int, from_rule as int, from_reply as int)
            &&& none_between(
                rules@,
                peer@,
                text@,
                from_rule as int,
                from_reply as int,
                i as int,
                j as int,
            )
        },
        r is None ==> none_between(
            rules@,
            peer@,
            text@,
            from_rule as int,
            from_reply as int,
            rules@.len() as int,
            0,
        ),
{
    let mut i: usize = from_rule;
    let mut j: usize = from_reply;
    while i < rules.len()
        invariant
            from_rule <= i,
            i == from_rule ==> j == from_reply,
            i > from_rule ==> j == 0,
            none_between(
                rules@,
                peer@,
                text@,
                from_rule as int,
                from_reply as int,
                i as int,
                j as int,
            ),
        decreases rules@.len() - i,
    {
        let rule = &rules[i];
        let live = rule.status && rule.group.hit(peer);
        if live {
            while j < rule.reply.len()
                invariant
                    i < rules@.len(),
                    *rule == rules@[i as int],
                    rules@[i as int].status,
                    group_hit(rules@[i as int].group, peer@),
                    from_rule <= i,
                    i == from_rule ==> j >= from_reply,
                    none_between(
                        rules@,
                        peer@,
                        text@,
                        from_rule as int,
                        from_reply as int,
                        i as int,
                        j as int,
                    ),
                decreases rule.reply@.len() - j,
            {
                if rule.reply[j].hit(text) {
                    assert(is_candidate(rules@, peer@, text@, i as int, j as int));
                    return Some((i, j));
                }
                j += 1;
            }
        }
        assert forall|a: int, b: int|
            #[trigger] is_candidate(rules@, peer@, text@, a, b) && !before(
                a,
                b,
                from_rule as int,
                from_reply as int,
            ) implies !before(a, b, i + 1, 0) by {
            if a == i && !before(a, b, i as int, j as int) {
                assert(live);
            }
        }
        i += 1;
        j = 0;
    }
    proof {
        assert forall|a: int, b: int|
            #[trigger] is_candidate(rules@, peer@, text@, a, b) && !before(
                a,
                b,
                from_rule as int,
                from_reply as int,
            ) implies !before(a, b, rules@.len() as int, 0) by {}
    }
    None
}

} // verus!
