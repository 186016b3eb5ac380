//! Messages delivered by a sync, the sync reply, and the bounded history of
//! each peer's conversation.

use vstd::prelude::*;
use crate::base::{BaseResponse, SyncKey};
use crate::rule::OpenAiMessage;
use crate::text::str_eq;

verus! {

/// A message delivered by a sync.
#[derive(Debug)]
pub struct AddMsg {
    pub msg_id: String,
    pub from_user_name: String,
    pub to_user_name: String,
    pub msg_type: i64,
    pub content: String,
    pub status: i64,
    pub img_status: i64,
    pub create_time: i64,
    pub voice_length: i64,
    pub play_length: i64,
    pub file_name: String,
    pub file_size: String,
    pub media_id: String,
    pub url: String,
    pub app_msg_type: i64,
    pub status_notify_code: i64,
    pub status_notify_user_name: String,
    pub recommend_info: RecommendInfo,
    pub forward_flag: i64,
    pub app_info: AppInfo,
}

/// The application a message came from.
#[derive(Debug)]
pub struct AppInfo {
    pub app_i_d: String,
    pub kind: i64,
}

/// A contact card carried by a message.
#[derive(Debug)]
pub struct RecommendInfo {
    pub user_name: String,
    pub nick_name: String,
    pub q_q_num: i64,
    pub province: String,
    pub city: String,
    pub content: String,
    pub signature: String,
    pub alias: String,
    pub scene: i64,
    pub verify_flag: i64,
    pub attr_status: i64,
    pub sex: i64,
    pub ticket: String,
    pub op_code: i64,
}

/// The reply to a sync: status, the new cursor and the delivered messages.
#[derive(Debug)]
pub struct SyncResponse {
    pub base_response: BaseResponse,
    pub sync_check_key: SyncKey,
    pub add_msg_count: i64,
    pub add_msg_list: Vec<AddMsg>,
}

impl SyncResponse {
    /// What a sync reply that could not be decoded stands for: status -1,
    /// an empty cursor and no messages.
    pub fn new_err() -> (r: SyncResponse)
        ensures
            r.base_response.ret == -1,
            r.base_response.err_msg@.len() == 0,
            r.sync_check_key.count == 0,
            r.sync_check_key.list@.len() == 0,
            r.add_msg_count == 0,
            r.add_msg_list@.len() == 0,
    {
        SyncResponse {
            base_response: BaseResponse { ret: -1, err_msg: String::new() },
            sync_check_key: SyncKey::new(),
            add_msg_count: 0,
            add_msg_list: Vec::new(),
        }
    }
}

/// The conversation kept for one peer.
#[derive(Debug)]
pub struct Record {
    pub user_name: String,
    pub messages: Vec<OpenAiMessage>,
}

/// The conversations of all peers, each kept to at most `max_num` turns.
#[derive(Debug)]
pub struct History {
    pub max_num: usize,
    pub records: Vec<Record>,
}

/// The index of the first record of `peer`, or -1.
pub open spec fn find_record(rs: Seq<Record>, peer: Seq<char>) -> int
    decreases rs.len(),
{
    if rs.len() == 0 {
        -1
    } else {
        let k = find_record(rs.drop_last(), peer);
        if k >= 0 {
            k
        } else if rs.last().user_name@ == peer {
            rs.len() - 1
        } else {
            -1
        }
    }
}

/// A record's turns after a push of `msgs`: when it already holds `max`
/// turns or more, its oldest two go first.
pub open spec fn pushed(rec: Seq<OpenAiMessage>, msgs: Seq<OpenAiMessage>, max: nat) -> Seq<
    OpenAiMessage,
> {
    let kept = if rec.len() >= max {
        rec.subrange(if rec.len() < 2 { rec.len() as int } else { 2 }, rec.len() as int)
    } else {
        rec
    };
    kept + msgs
}

proof fn lemma_find_record_bounds(rs: Seq<Record>, peer: Seq<char>)
    ensures
        -1 <= find_record(rs, peer) < rs.len(),
        find_record(rs, peer) >= 0 ==> rs[find_record(rs, peer)].user_name@ == peer,
        find_record(rs, peer) == -1 ==> forall|i: int|
            0 <= i < rs.len() ==> #[trigger] rs[i].user_name@ != peer,
    decreases rs.len(),
{
    if rs.len() > 0 {
        let init = rs.drop_last();
        lemma_find_record_bounds(init, peer);
        if find_record(rs, peer) == -1 {
            assert forall|i: int| 0 <= i < rs.len() implies #[trigger] rs[i].user_name@ != peer by {
                assert(find_record(init, peer) == -1);
                if i < rs.len() - 1 {
                    assert(rs[i] == init[i]);
                    assert(init[i].user_name@ != peer);
                } else {
                    assert(rs[i] == rs.last());
                }
            }
        }
    }
}

proof fn lemma_find_record_same_names(a: Seq<Record>, b: Seq<Record>, peer: Seq<char>)
    requires
        a.len() == b.len(),
        forall|i: int| 0 <= i < a.len() ==> #[trigger] a[i].user_name == b[i].user_name,
    ensures
        find_record(a, peer) == find_record(b, peer),
    decreases a.len(),
{
    if a.len() > 0 {
        assert forall|i: int| 0 <= i < a.len() - 1 implies #[trigger] a.drop_last()[i].user_name
            == b.drop_last()[i].user_name by {
            assert(a.drop_last()[i] == a[i]);
            assert(b.drop_last()[i] == b[i]);
        }
        lemma_find_record_same_names(a.drop_last(), b.drop_last(), peer);
        assert(a.last().user_name == b.last().user_name);
    }
}

impl History {
    /// The turns kept for `peer`, oldest first.
    pub open spec fn messages_of(self, peer: Seq<char>) -> Seq<OpenAiMessage> {
        let k = find_record(self.records@, peer);
        if k >= 0 {
            self.records@[k].messages@
        } else {
            Seq::empty()
        }
    }

    /// An empty history keeping at most `max_num` turns a peer.
    pub fn new(max_num: usize) -> (r: History)
        ensures
            r.max_num == max_num,
            forall|p: Seq<char>| #[trigger] r.messages_of(p) == Seq::<OpenAiMessage>::empty(),
    {
        History { max_num, records: Vec::new() }
    }

    fn index_of(&self, user_name: &str) -> (r: Option<usize>)
        ensures
            r matches Some(k) ==> k as int == find_record(self.records@, user_name@),
            r is None ==> find_record(self.records@, user_name@) == -1,
    {
        let mut i: usize = 0;
        while i < self.records.len()
            invariant
                i <= self.records@.len(),
                find_record(self.records@.subrange(0, i as int), user_name@) == -1,
            decreases self.records@.len() - i,
        {
            let ghost pre = self.records@.subrange(0, i + 1);
            assert(pre.drop_last() =~= self.records@.subrange(0, i as int));
            if str_eq(self.records[i].user_name.as_str(), user_name) {
                proof {
                    lemma_prefix_find(self.records@, user_name@, i as int);
                }
                return Some(i);
            }
            i += 1;
        }
        assert(self.records@.subrange(0, i as int) =~= self.records@);
        None
    }

    /// A copy of the turns kept for `user_name`, oldest first.
    pub fn get(&self, user_name: &str) -> (r: Vec<OpenAiMessage>)
        ensures
            r@ == self.messages_of(user_name@),
    {
        let mut out: Vec<OpenAiMessage> = Vec::new();
        match self.index_of(user_name) {
            None => {
                assert(out@ =~= self.messages_of(user_name@));
            },
            Some(k) => {
                proof {
                    lemma_find_record_bounds(self.records@, user_name@);
                }
                let msgs = &self.records[k].messages;
                let mut i: usize = 0;
                while i < msgs.len()
                    invariant
                        i <= msgs@.len(),
                        out@ == msgs@.subrange(0, i as int),
                    decreases msgs@.len() - i,
                {
                    out.push(msgs[i].duplicate());
                    assert(out@ =~= msgs@.subrange(0, i + 1));
                    i += 1;
                }
                assert(out@ =~= msgs@);
            },
        }
        out
    }

    /// Appends `messages` to the conversation of `user_name`, first dropping
    /// its oldest two turns when it already holds `max_num` or more.
    /// Other peers' conversations are unchanged.
    pub fn push(&mut self, user_name: &str, messages: Vec<OpenAiMessage>)
        ensures
            final(self).max_num == old(self).max_num,
            final(self).messages_of(user_name@) == pushed(
                old(self).messages_of(user_name@),
                messages@,
                old(self).max_num as nat,
            ),
            forall|p: Seq<char>|
                p != user_name@ ==> #[trigger] final(self).messages_of(p) == old(self).messages_of(p),
            old(self).max_num >= 2 && old(self).max_num % 2 == 0 && old(self).messages_of(
                user_name@,
            ).len() <= old(self).max_num && old(self).messages_of(user_name@).len() % 2 == 0
                && messages@.len() == 2 ==> {
                &&& final(self).messages_of(user_name@) == latest(
                    old(self).messages_of(user_name@) + messages@,
                    old(self).max_num as nat,
                )
                &&& final(self).messages_of(user_name@).len() <= old(self).max_num
                &&& final(self).messages_of(user_name@).len() % 2 == 0
            },
    {
        proof {
            let rec = self.messages_of(user_name@);
            let max = self.max_num as nat;
            if max >= 2 && max % 2 == 0 && rec.len() <= max && rec.len() % 2 == 0 && messages@.len() == 2 {
                let pairs = seq![messages@];
                assert(pairs.drop_last() =~= Seq::<Seq<OpenAiMessage>>::empty());
                assert(flatten(pairs.drop_last()) =~= Seq::<OpenAiMessage>::empty());
                assert(pairs.last() == messages@);
                assert(flatten(pairs) =~= messages@);
                assert(forall|i: int| 0 <= i < pairs.len() ==> (#[trigger] pairs[i]).len() == 2);
                assert(push_all(rec, pairs.drop_last(), max) == rec);
                lemma_history_keeps_latest(rec, pairs, max);
            }
        }
        let mut messages = messages;
        let k: usize = match self.index_of(user_name) {
            Some(k) => k,
            None => {
                let ghost before = self.records@;
                self.records.push(Record { user_name: String::from_str(user_name), messages: Vec::new() });
                proof {
                    assert(self.records@.drop_last() =~= before);
                    assert forall|p: Seq<char>| p != user_name@ implies find_record(self.records@, p)
                        == find_record(before, p) by {}
                }
                (self.records.len() - 1) as usize
            },
        };
        let ghost mid = self.records@;
        proof {
            lemma_find_record_bounds(mid, user_name@);
        }
        let mut rec = self.records.remove(k);
        if rec.messages.len() >= self.max_num {
            if rec.messages.len() > 0 {
                rec.messages.remove(0);
            }
            if rec.messages.len() > 0 {
                rec.messages.remove(0);
            }
        }
        let ghost kept = rec.messages@;
        rec.messages.append(&mut messages);
        self.records.insert(k, rec);
        proof {
            assert(kept =~= (if mid[k as int].messages@.len() >= self.max_num {
                mid[k as int].messages@.subrange(
                    if mid[k as int].messages@.len() < 2 { mid[k as int].messages@.len() as int } else { 2 },
                    mid[k as int].messages@.len() as int,
                )
            } else {
                mid[k as int].messages@
            }));
            assert forall|i: int| 0 <= i < mid.len() implies #[trigger] self.records@[i].user_name
                == mid[i].user_name by {
                if i != k {
                    assert(self.records@[i] == mid[i]);
                }
            }
            assert forall|p: Seq<char>| true implies #[trigger] find_record(self.records@, p)
                == find_record(mid, p) by {
                lemma_find_record_same_names(self.records@, mid, p);
            }
            assert forall|p: Seq<char>| p != user_name@ implies #[trigger] self.messages_of(p)
                == old(self).messages_of(p) by {
                lemma_find_record_bounds(mid, p);
            }
        }
    }
}

/// The turns of `pairs`, in order.
pub open spec fn flatten(pairs: Seq<Seq<OpenAiMessage>>) -> Seq<OpenAiMessage>
    decreases pairs.len(),
{
    if pairs.len() == 0 {
        Seq::empty()
    } else {
        flatten(pairs.drop_last()) + pairs.last()
    }
}

/// A conversation after each of `pairs` is pushed onto it in turn.
pub open spec fn push_all(rec: Seq<OpenAiMessage>, pairs: Seq<Seq<OpenAiMessage>>, max: nat) -> Seq<
    OpenAiMessage,
>
    decreases pairs.len(),
{
    if pairs.len() == 0 {
        rec
    } else {
        pushed(push_all(rec, pairs.drop_last(), max), pairs.last(), max)
    }
}

/// The last `n` turns of `s`, or all of them when it holds fewer.
pub open spec fn latest(s: Seq<OpenAiMessage>, n: nat) -> Seq<OpenAiMessage> {
    if s.len() <= n {
        s
    } else {
        s.subrange(s.len() - n, s.len() as int)
    }
}

proof fn lemma_flatten_len(pairs: Seq<Seq<OpenAiMessage>>)
    requires
        forall|i: int| 0 <= i < pairs.len() ==> (#[trigger] pairs[i]).len() == 2,
    ensures
        flatten(pairs).len() == 2 * pairs.len(),
    decreases pairs.len(),
{
    if pairs.len() > 0 {
        let init = pairs.drop_last();
        assert forall|i: int| 0 <= i < init.len() implies (#[trigger] init[i]).len() == 2 by {
            assert(init[i] == pairs[i]);
        }
        lemma_flatten_len(init);
    }
}

/// The history cap: when a conversation with an even number of turns, no
/// more than an even cap, gets turns pushed two at a time (a message and
/// its answer), it always holds exactly the most recent turns, as many as
/// the cap allows; the oldest pair is the first to go.
pub proof fn lemma_history_keeps_latest(
    rec: Seq<OpenAiMessage>,
    pairs: Seq<Seq<OpenAiMessage>>,
    max: nat,
)
    requires
        max >= 2,
        max % 2 == 0,
        rec.len() <= max,
        rec.len() % 2 == 0,
        forall|i: int| 0 <= i < pairs.len() ==> (#[trigger] pairs[i]).len() == 2,
    ensures
        push_all(rec, pairs, max) == latest(rec + flatten(pairs), max),
    decreases pairs.len(),
{
    if pairs.len() > 0 {
        let init = pairs.drop_last();
        assert forall|i: int| 0 <= i < init.len() implies (#[trigger] init[i]).len() == 2 by {
            assert(init[i] == pairs[i]);
        }
        lemma_history_keeps_latest(rec, init, max);
        lemma_flatten_len(init);
        let prev = push_all(rec, init, max);
        let all_prev = rec + flatten(init);
        let p = pairs.last();
        assert(p.len() == 2);
        assert(rec + flatten(pairs) =~= all_prev + p);
        assert(all_prev.len() % 2 == 0);
        if prev.len() >= max {
            assert(prev.len() == max);
            assert(pushed(prev, p, max) =~= latest(all_prev + p, max));
        } else {
            assert(prev == all_prev);
            assert(all_prev.len() + 2 <= max);
            assert(pushed(prev, p, max) =~= latest(all_prev + p, max));
        }
    }
}

proof fn lemma_prefix_find(rs: Seq<Record>, peer: Seq<char>, i: int)
    requires
        0 <= i < rs.len(),
        find_record(rs.subrange(0, i), peer) == -1,
        rs[i].user_name@ == peer,
    ensures
        find_record(rs, peer) == i,
    decreases rs.len(),
{
    let pre = rs.subrange(0, i + 1);
    assert(pre.drop_last() =~= rs.subrange(0, i));
    if rs.len() > i + 1 {
        assert(rs.drop_last().subrange(0, i) =~= rs.subrange(0, i));
        lemma_prefix_find(rs.drop_last(), peer, i);
    } else {
        assert(pre =~= rs);
    }
}

} // verus!
