//! The decisions of the sync loop: what a check reply means, what a sync
//! reply changes, and which reply answers each delivered message.

use vstd::prelude::*;
use crate::base::Base;
use crate::message::{AddMsg, History, SyncResponse};
use crate::rule::{
    before, is_candidate, is_turn, next_candidate, none_between, user_turn, AutoReplyRule,
    OpenAiMessage,
};
use crate::text::str_eq;
use crate::tool::{capture, regex_capture};

verus! {

/// The pattern that picks the return code out of a check reply.
pub const RETCODE_PATTERN: &'static str = r#"retcode:"(\d+)""#;

/// What a check reply asks of the loop.
#[derive(Debug, Clone, Copy, PartialEq, Eq, Structural)]
pub enum SyncCheck {
    /// Code 0: fetch the new messages.
    Proceed,
    /// Code 1102: the session is over.
    Invalid,
    /// Any other code, or none: skip this cycle.
    Skip,
}

/// The meaning of a check reply's return code.
pub open spec fn check_outcome(code: Option<Seq<char>>) -> SyncCheck {
    match code {
        Some(c) => if c == "0"@ {
            SyncCheck::Proceed
        } else if c == "1102"@ {
            SyncCheck::Invalid
        } else {
            SyncCheck::Skip
        },
        None => SyncCheck::Skip,
    }
}

/// The meaning of a return code taken from a check reply.
pub fn classify_retcode(code: &Option<String>) -> (r: SyncCheck)
    ensures
        r == check_outcome(
            match code {
                Some(c) => Some(c@),
                None => None,
            },
        ),
{
    match code {
        Some(c) => if str_eq(c.as_str(), "0") {
            SyncCheck::Proceed
        } else if str_eq(c.as_str(), "1102") {
            SyncCheck::Invalid
        } else {
            SyncCheck::Skip
        },
        None => SyncCheck::Skip,
    }
}

/// The meaning of a check reply's text.
pub fn check_reply(text: &str) -> (r: SyncCheck)
    ensures
        r == check_outcome(regex_capture(RETCODE_PATTERN@, text@)),
{
    let code = capture(RETCODE_PATTERN, text);
    classify_retcode(&code)
}

/// Takes a sync reply into the session: the cursor becomes the returned
/// one, whatever it was before, and the delivered messages are handed back.
pub fn apply_sync(base: &mut Base, resp: SyncResponse) -> (r: Vec<AddMsg>)
    ensures
        final(base).sync_key == resp.sync_check_key,
        final(base).base_response == old(base).base_response,
        final(base).user == old(base).user,
        final(base).base_request == old(base).base_request,
        final(base).base_uri == old(base).base_uri,
        final(base).sync_uri == old(base).sync_uri,
        final(base).file_uri == old(base).file_uri,
        final(base).pass_ticket == old(base).pass_ticket,
        r@ == resp.add_msg_list@,
{
    base.replace_cursor(resp.sync_check_key);
    resp.add_msg_list
}

/// The message is a text message sent to the session's own identity.
pub open spec fn is_addressed(msg: AddMsg, identity: Seq<char>) -> bool {
    msg.msg_type == 1 && msg.to_user_name@ == identity
}

/// The next step in answering a message.
#[derive(Debug, Clone, Copy, PartialEq, Eq, Structural)]
pub enum ReplyAction {
    /// Produce the output of reply `reply` of rule `rule`.
    Resolve { rule: usize, reply: usize },
    /// Send the output just produced for reply `reply` of rule `rule`.
    Send { rule: usize, reply: usize },
    /// Nothing more to do for this message.
    Finish,
}

/// `r` is the step that the first candidate from position `(fi, fj)` calls for.
pub open spec fn resolves_first_from(
    rules: Seq<AutoReplyRule>,
    peer: Seq<char>,
    text: Seq<char>,
    fi: int,
    fj: int,
    r: ReplyAction,
) -> bool {
    match r {
        ReplyAction::Resolve { rule, reply } => {
            &&& is_candidate(rules, peer, text, rule as int, reply as int)
            &&& !before(rule as int, reply as int, fi, fj)
            &&& none_between(rules, peer, text, fi, fj, rule as int, reply as int)
        },
        ReplyAction::Finish => none_between(rules, peer, text, fi, fj, rules.len() as int, 0),
        ReplyAction::Send { .. } => false,
    }
}

fn resolve_from(
    rules: &Vec<AutoReplyRule>,
    peer: &str,
    text: &str,
    from_rule: usize,
    from_reply: usize,
) -> (r: ReplyAction)
    ensures
        resolves_first_from(rules@, peer@, text@, from_rule as int, from_reply as int, r),
{
    match next_candidate(rules, peer, text, from_rule, from_reply) {
        Some((i, j)) => ReplyAction::Resolve { rule: i, reply: j },
        None => ReplyAction::Finish,
    }
}

/// The first step for a delivered message: a message that is not text, or
/// is addressed to anyone but `identity`, is dropped before any rule is
/// looked at; otherwise the first candidate of all the rules is resolved.
pub fn start_dispatch(rules: &Vec<AutoReplyRule>, identity: &str, msg: &AddMsg) -> (r: ReplyAction)
    ensures
        !is_addressed(*msg, identity@) ==> r == ReplyAction::Finish,
        is_addressed(*msg, identity@) ==> resolves_first_from(
            rules@,
            msg.from_user_name@,
            msg.content@,
            0,
            0,
            r,
        ),
{
    if msg.msg_type != 1 || !str_eq(msg.to_user_name.as_str(), identity) {
        return ReplyAction::Finish;
    }
    resolve_from(rules, msg.from_user_name.as_str(), msg.content.as_str(), 0, 0)
}

/// The step after reply `reply` of rule `rule` produced `output`: a
/// non-empty output is sent; an empty one counts as no match and the scan
/// goes on from the next reply.
pub fn on_resolved(
    rules: &Vec<AutoReplyRule>,
    msg: &AddMsg,
    rule: usize,
    reply: usize,
    output: &str,
) -> (r: ReplyAction)
    requires
        rule < rules@.len(),
        reply < rules@[rule as int].reply@.len(),
    ensures
        output@.len() > 0 ==> r == (ReplyAction::Send { rule, reply }),
        output@.len() == 0 ==> resolves_first_from(
            rules@,
            msg.from_user_name@,
            msg.content@,
            rule as int,
            reply + 1,
            r,
        ),
{
    if output.unicode_len() > 0 {
        ReplyAction::Send { rule, reply }
    } else {
        let n = rules[rule].reply.len();
        assert(reply < n);
        resolve_from(rules, msg.from_user_name.as_str(), msg.content.as_str(), rule, reply + 1)
    }
}

/// The pseudo-peer that keeps the operator's own notes.
pub const SELF_NOTES: &'static str = "filehelper";

/// Who gets a reply to `msg`: its sender, then the self-notes peer.
pub fn reply_recipients(msg: &AddMsg) -> (r: Vec<String>)
    ensures
        r@.len() == 2,
        r@[0]@ == msg.from_user_name@,
        r@[1]@ == SELF_NOTES@,
{
    let mut r: Vec<String> = Vec::new();
    r.push(msg.from_user_name.clone());
    r.push(String::from_str(SELF_NOTES));
    r
}

/// The turns a reply is produced from: the sender's kept conversation, then
/// the new message as the user's turn.
pub fn reply_input(history: &History, msg: &AddMsg) -> (r: Vec<OpenAiMessage>)
    ensures
        r@.len() == history.messages_of(msg.from_user_name@).len() + 1,
        r@.drop_last() == history.messages_of(msg.from_user_name@),
        is_turn(r@.last(), "user"@, msg.content@),
{
    let mut input = history.get(msg.from_user_name.as_str());
    let ghost kept = input@;
    input.push(user_turn(msg.content.as_str()));
    assert(input@.drop_last() =~= kept);
    input
}

/// What the history keeps of an answered message: the message as the
/// user's turn, then the reply that was sent.
pub fn exchange(msg: &AddMsg, output: OpenAiMessage) -> (r: Vec<OpenAiMessage>)
    ensures
        r@.len() == 2,
        is_turn(r@[0], "user"@, msg.content@),
        r@[1] == output,
{
    let mut r: Vec<OpenAiMessage> = Vec::new();
    r.push(user_turn(msg.content.as_str()));
    r.push(output);
    r
}

/// A disabled rule is never evaluated: none of its replies is a candidate,
/// whatever the message.
pub proof fn lemma_disabled_rule_never_candidate(
    rules: Seq<AutoReplyRule>,
    peer: Seq<char>,
    text: Seq<char>,
    i: int,
    j: int,
)
    requires
        0 <= i < rules.len(),
        !rules[i].status,
    ensures
        !is_candidate(rules, peer, text, i, j),
{
}

/// Where rule `i` stands once the rule at `d` is taken out.
pub open spec fn shifted(i: int, d: int) -> int {
    if i < d {
        i
    } else {
        i - 1
    }
}

/// A disabled rule can be taken out without changing anything: the
/// candidates of the remaining rules are those of the full list, in the
/// same order, so every scan resolves and sends the same replies.
pub proof fn lemma_disabled_rule_removable(
    rules: Seq<AutoReplyRule>,
    peer: Seq<char>,
    text: Seq<char>,
    d: int,
)
    requires
        0 <= d < rules.len(),
        !rules[d].status,
    ensures
        forall|i: int, j: int|
            #[trigger] is_candidate(rules, peer, text, i, j) ==> i != d && is_candidate(
                rules.remove(d),
                peer,
                text,
                shifted(i, d),
                j,
            ),
        forall|i: int, j: int|
            #[trigger] is_candidate(rules.remove(d), peer, text, i, j) ==> is_candidate(
                rules,
                peer,
                text,
                if i < d {
                    i
                } else {
                    i + 1
                },
                j,
            ),
        forall|i: int, j: int, k: int, l: int|
            i != d && k != d ==> (before(i, j, k, l) <==> #[trigger] before(
                shifted(i, d),
                j,
                #[trigger] shifted(k, d),
                l,
            )),
{
    let rest = rules.remove(d);
    assert forall|i: int, j: int| #[trigger] is_candidate(rules, peer, text, i, j) implies i != d
        && is_candidate(rest, peer, text, shifted(i, d), j) by {
        assert(rest[shifted(i, d)] == rules[i]);
    }
    assert forall|i: int, j: int| #[trigger] is_candidate(rest, peer, text, i, j) implies is_candidate(
        rules,
        peer,
        text,
        if i < d {
            i
        } else {
            i + 1
        },
        j,
    ) by {
        if i < d {
            assert(rest[i] == rules[i]);
        } else {
            assert(rest[i] == rules[i + 1]);
        }
    }
}

/// Reply `(i, j)` is the one that gets sent when scanning from `(fi, fj)`:
/// the first candidate there whose output is non-empty.
pub open spec fn is_first_sendable(
    rules: Seq<AutoReplyRule>,
    peer: Seq<char>,
    text: Seq<char>,
    sendable: spec_fn(int, int) -> bool,
    fi: int,
    fj: int,
    i: int,
    j: int,
) -> bool {
    &&& is_candidate(rules, peer, text, i, j)
    &&& sendable(i, j)
    &&& !before(i, j, fi, fj)
    &&& forall|a: int, b: int|
        #[trigger] is_candidate(rules, peer, text, a, b) && !before(a, b, fi, fj) && before(
            a,
            b,
            i,
            j,
        ) ==> !sendable(a, b)
}

/// First match: when the scan from `(fi, fj)` stops at candidate `(ci, cj)`,
/// a non-empty output there makes it the reply that is sent; an empty one
/// does not end the scan, and the reply that is sent is the one the scan
/// from the next position finds. `sendable(i, j)` says that the output of
/// reply `j` of rule `i` is non-empty.
pub proof fn lemma_first_match(
    rules: Seq<AutoReplyRule>,
    peer: Seq<char>,
    text: Seq<char>,
    sendable: spec_fn(int, int) -> bool,
    fi: int,
    fj: int,
    ci: int,
    cj: int,
)
    requires
        is_candidate(rules, peer, text, ci, cj),
        !before(ci, cj, fi, fj),
        none_between(rules, peer, text, fi, fj, ci, cj),
    ensures
        sendable(ci, cj) ==> is_first_sendable(rules, peer, text, sendable, fi, fj, ci, cj),
        !sendable(ci, cj) ==> forall|i: int, j: int|
            #[trigger] is_first_sendable(rules, peer, text, sendable, fi, fj, i, j)
                <==> is_first_sendable(rules, peer, text, sendable, ci, cj + 1, i, j),
{
    if !sendable(ci, cj) {
        assert forall|i: int, j: int|
            #[trigger] is_first_sendable(rules, peer, text, sendable, fi, fj, i, j)
                <==> is_first_sendable(rules, peer, text, sendable, ci, cj + 1, i, j) by {
            if is_first_sendable(rules, peer, text, sendable, fi, fj, i, j) {
                assert(!before(i, j, ci, cj + 1)) by {
                    if before(i, j, ci, cj + 1) {
                        if i == ci && j == cj {
                        } else {
                            assert(before(i, j, ci, cj));
                        }
                    }
                }
            }
            if is_first_sendable(rules, peer, text, sendable, ci, cj + 1, i, j) {
                assert forall|a: int, b: int|
                    #[trigger] is_candidate(rules, peer, text, a, b) && !before(a, b, fi, fj)
                        && before(a, b, i, j) implies !sendable(a, b) by {
                    if before(a, b, ci, cj + 1) {
                        if !(a == ci && b == cj) {
                            assert(before(a, b, ci, cj));
                        }
                    }
                }
            }
        }
    }
}

/// Only one reply is the first sendable one from a position.
pub proof fn lemma_first_sendable_unique(
    rules: Seq<AutoReplyRule>,
    peer: Seq<char>,
    text: Seq<char>,
    sendable: spec_fn(int, int) -> bool,
    fi: int,
    fj: int,
    i: int,
    j: int,
    k: int,
    l: int,
)
    requires
        is_first_sendable(rules, peer, text, sendable, fi, fj, i, j),
        is_first_sendable(rules, peer, text, sendable, fi, fj, k, l),
    ensures
        i == k && j == l,
{
    if before(i, j, k, l) {
        assert(is_candidate(rules, peer, text, i, j));
    } else if before(k, l, i, j) {
        assert(is_candidate(rules, peer, text, k, l));
    }
}

} // verus!
