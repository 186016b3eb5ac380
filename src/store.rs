//! What the rule, group and profile stores do to their lists. Reading and
//! writing the files is left to the caller; these functions take the list
//! that was read and give back the one to write.

use vstd::prelude::*;
use crate::error::WxChatError;
use crate::member::ContactMember;
use crate::rule::{AutoReplyRule, Group, OpenAi, OpenAiConfig, ScheduledRule};
use crate::text::str_eq;

verus! {

/// An item stored under a text id.
pub trait Keyed {
    spec fn key_view(&self) -> Seq<char>;

    fn key(&self) -> (r: &str)
        ensures
            r@ == self.key_view(),
    ;
}

impl Keyed for OpenAi {
    open spec fn key_view(&self) -> Seq<char> {
        self.id@
    }

    fn key(&self) -> (r: &str) {
        self.id.as_str()
    }
}

impl Keyed for Group {
    open spec fn key_view(&self) -> Seq<char> {
        self.id@
    }

    fn key(&self) -> (r: &str) {
        self.id.as_str()
    }
}

impl Keyed for AutoReplyRule {
    open spec fn key_view(&self) -> Seq<char> {
        self.id@
    }

    fn key(&self) -> (r: &str) {
        self.id.as_str()
    }
}

impl Keyed for ScheduledRule {
    open spec fn key_view(&self) -> Seq<char> {
        self.id@
    }

    fn key(&self) -> (r: &str) {
        self.id.as_str()
    }
}

/// `i` is the first position of an item with id `key`.
pub open spec fn first_with_key<T: Keyed>(s: Seq<T>, key: Seq<char>, i: int) -> bool {
    &&& 0 <= i < s.len()
    &&& s[i].key_view() == key
    &&& forall|k: int| 0 <= k < i ==> #[trigger] s[k].key_view() != key
}

/// No item has id `key`.
pub open spec fn lacks_key<T: Keyed>(s: Seq<T>, key: Seq<char>) -> bool {
    forall|k: int| 0 <= k < s.len() ==> #[trigger] s[k].key_view() != key
}

proof fn lemma_first_with_key_unique<T: Keyed>(s: Seq<T>, key: Seq<char>, i: int, j: int)
    requires
        first_with_key(s, key, i),
        first_with_key(s, key, j),
    ensures
        i == j,
{
    if i < j {
        assert(s[i].key_view() == key);
    } else if j < i {
        assert(s[j].key_view() == key);
    }
}

fn position_of<T: Keyed>(list: &Vec<T>, key: &str) -> (r: Option<usize>)
    ensures
        r matches Some(i) ==> first_with_key(list@, key@, i as int),
        r is None ==> lacks_key(list@, key@),
{
    let mut i: usize = 0;
    while i < list.len()
        invariant
            i <= list@.len(),
            forall|k: int| 0 <= k < i ==> #[trigger] list@[k].key_view() != key@,
        decreases list@.len() - i,
    {
        if str_eq(list[i].key(), key) {
            return Some(i);
        }
        i += 1;
    }
    None
}

/// The list without its first item of id `key`; unchanged when there is none.
pub fn remove_keyed<T: Keyed>(list: Vec<T>, key: &str) -> (r: Vec<T>)
    ensures
        lacks_key(list@, key@) ==> r@ == list@,
        forall|i: int| #[trigger] first_with_key(list@, key@, i) ==> r@ == list@.remove(i),
{
    let mut list = list;
    let ghost before = list@;
    match position_of(&list, key) {
        Some(i) => {
            list.remove(i);
            proof {
                assert forall|j: int| #[trigger] first_with_key(before, key@, j) implies list@
                    == before.remove(j) by {
                    lemma_first_with_key_unique(before, key@, i as int, j);
                }
            }
            list
        },
        None => list,
    }
}

/// The list with its first item of the same id as `item` replaced by `item`;
/// unchanged when there is none.
pub fn replace_keyed<T: Keyed>(list: Vec<T>, item: T) -> (r: Vec<T>)
    ensures
        lacks_key(list@, item.key_view()) ==> r@ == list@,
        forall|i: int| #[trigger]
            first_with_key(list@, item.key_view(), i) ==> r@ == list@.update(i, item),
{
    let mut list = list;
    let ghost before = list@;
    let ghost key = item.key_view();
    match position_of(&list, item.key()) {
        Some(i) => {
            list.remove(i);
            list.insert(i, item);
            proof {
                assert(list@ =~= before.update(i as int, item));
                assert forall|j: int| #[trigger] first_with_key(before, key, j) implies list@
                    == before.update(j, item) by {
                    lemma_first_with_key_unique(before, key, i as int, j);
                }
            }
            list
        },
        None => list,
    }
}

/// The first item of id `key`: nothing for an empty id, an error when no
/// item has it.
pub fn find_keyed<T: Keyed>(list: Vec<T>, key: &str, missing: &str) -> (r: Result<Option<T>, WxChatError>)
    ensures
        key@.len() == 0 ==> r matches Ok(None),
        key@.len() > 0 && lacks_key(list@, key@) ==> (r matches Err(e) && e.message@ == missing@),
        forall|i: int|
            key@.len() > 0 && #[trigger] first_with_key(list@, key@, i) ==> r == Ok::<
                Option<T>,
                WxChatError,
            >(Some(list@[i])),
{
    if key.unicode_len() == 0 {
        return Ok(None);
    }
    let mut list = list;
    let ghost before = list@;
    match position_of(&list, key) {
        Some(i) => {
            let item = list.remove(i);
            proof {
                assert forall|j: int| key@.len() > 0 && #[trigger] first_with_key(before, key@, j) implies Ok::<
                    Option<T>,
                    WxChatError,
                >(Some(item)) == Ok::<Option<T>, WxChatError>(Some(before[j])) by {
                    lemma_first_with_key_unique(before, key@, i as int, j);
                }
            }
            Ok(Some(item))
        },
        None => Err(WxChatError::new(missing)),
    }
}

/// A rule that runs only when enabled, for the group its id names.
pub trait GroupedRule {
    spec fn enabled_view(&self) -> bool;

    spec fn group_key(&self) -> Seq<char>;

    fn enabled(&self) -> (r: bool)
        ensures
            r == self.enabled_view(),
    ;

    fn group_id(&self) -> (r: &str)
        ensures
            r@ == self.group_key(),
    ;
}

impl GroupedRule for AutoReplyRule {
    open spec fn enabled_view(&self) -> bool {
        self.status
    }

    open spec fn group_key(&self) -> Seq<char> {
        self.group.id@
    }

    fn enabled(&self) -> (r: bool) {
        self.status
    }

    fn group_id(&self) -> (r: &str) {
        self.group.id.as_str()
    }
}

impl GroupedRule for ScheduledRule {
    open spec fn enabled_view(&self) -> bool {
        self.status
    }

    open spec fn group_key(&self) -> Seq<char> {
        self.group.id@
    }

    fn enabled(&self) -> (r: bool) {
        self.status
    }

    fn group_id(&self) -> (r: &str) {
        self.group.id.as_str()
    }
}

/// The position of the first stored group of id `id`, if any.
pub open spec fn group_slot(groups: Seq<Group>, id: Seq<char>) -> Option<int> {
    if exists|j: int| first_with_key(groups, id, j) {
        Some(choose|j: int| first_with_key(groups, id, j))
    } else {
        None
    }
}

/// For each enabled rule whose group id names a stored group, in stored
/// order: the rule's position and its group's. Rules whose group cannot be
/// found are left out.
pub open spec fn running_plan_of<R: GroupedRule>(rules: Seq<R>, groups: Seq<Group>) -> Seq<(usize, usize)>
    decreases rules.len(),
{
    if rules.len() == 0 {
        Seq::empty()
    } else {
        let init = running_plan_of(rules.drop_last(), groups);
        let last = rules.last();
        if last.enabled_view() && group_slot(groups, last.group_key()) is Some {
            init.push(((rules.len() - 1) as usize, group_slot(groups, last.group_key())->0 as usize))
        } else {
            init
        }
    }
}

/// Which rules run, and with which stored group (see `running_plan_of`).
pub fn running_plan<R: GroupedRule>(rules: &Vec<R>, groups: &Vec<Group>) -> (r: Vec<(usize, usize)>)
    ensures
        r@ == running_plan_of(rules@, groups@),
{
    let mut plan: Vec<(usize, usize)> = Vec::new();
    let mut i: usize = 0;
    while i < rules.len()
        invariant
            i <= rules@.len(),
            plan@ == running_plan_of(rules@.subrange(0, i as int), groups@),
        decreases rules@.len() - i,
    {
        let ghost pre = rules@.subrange(0, i + 1);
        assert(pre.drop_last() =~= rules@.subrange(0, i as int));
        assert(pre.last() == rules@[i as int]);
        if rules[i].enabled() {
            match position_of(groups, rules[i].group_id()) {
                Some(j) => {
                    proof {
                        let c = choose|c: int| first_with_key(groups@, rules@[i as int].group_key(), c);
                        lemma_first_with_key_unique(groups@, rules@[i as int].group_key(), j as int, c);
                    }
                    plan.push((i, j));
                },
                None => {
                    assert(!exists|j: int| first_with_key(groups@, rules@[i as int].group_key(), j));
                },
            }
        }
        i += 1;
    }
    assert(rules@.subrange(0, i as int) =~= rules@);
    plan
}

/// `i` is the last fetched contact with pinyin name `p`.
pub open spec fn last_with_pinyin(list: Seq<ContactMember>, p: Seq<char>, i: int) -> bool {
    &&& 0 <= i < list.len()
    &&& list[i].p_y_quan_pin@ == p
    &&& forall|k: int| i < k < list.len() ==> #[trigger] list[k].p_y_quan_pin@ != p
}

/// The user name a stored member gets from the fetched contacts: that of
/// the last contact with its pinyin name, or its own when there is none.
pub open spec fn refreshed_name(list: Seq<ContactMember>, m: ContactMember) -> Seq<char> {
    if exists|i: int| last_with_pinyin(list, m.p_y_quan_pin@, i) {
        list[choose|i: int| last_with_pinyin(list, m.p_y_quan_pin@, i)].user_name@
    } else {
        m.user_name@
    }
}

/// `a` is `b` with at most its user name changed.
pub open spec fn same_but_name(a: ContactMember, b: ContactMember) -> bool {
    &&& a.uin == b.uin
    &&& a.nick_name == b.nick_name
    &&& a.head_img_url == b.head_img_url
    &&& a.contact_flag == b.contact_flag
    &&& a.member_count == b.member_count
    &&& a.member_list == b.member_list
    &&& a.remark_name == b.remark_name
    &&& a.hide_input_bar_flag == b.hide_input_bar_flag
    &&& a.sex == b.sex
    &&& a.signature == b.signature
    &&& a.verify_flag == b.verify_flag
    &&& a.owner_uin == b.owner_uin
    &&& a.p_y_quan_pin == b.p_y_quan_pin
    &&& a.remark_p_y_initial == b.remark_p_y_initial
    &&& a.remark_p_y_quan_pin == b.remark_p_y_quan_pin
    &&& a.star_friend == b.star_friend
    &&& a.app_account_flag == b.app_account_flag
    &&& a.statues == b.statues
    &&& a.province == b.province
    &&& a.city == b.city
    &&& a.alias == b.alias
    &&& a.sns_flag == b.sns_flag
    &&& a.uni_friend == b.uni_friend
    &&& a.display_name == b.display_name
    &&& a.chat_room_id == b.chat_room_id
    &&& a.key_word == b.key_word
    &&& a.encry_chat_room_id == b.encry_chat_room_id
    &&& a.is_owner == b.is_owner
}

/// `a` is the stored member `b` refreshed from the fetched contacts.
pub open spec fn is_refreshed(list: Seq<ContactMember>, a: ContactMember, b: ContactMember) -> bool {
    same_but_name(a, b) && a.user_name@ == refreshed_name(list, b)
}

fn name_for_pinyin(list: &Vec<ContactMember>, pinyin: &str) -> (r: Option<String>)
    ensures
        r matches Some(n) ==> n@ == list@[choose|i: int| last_with_pinyin(list@, pinyin@, i)].user_name@
            && exists|i: int| last_with_pinyin(list@, pinyin@, i),
        r is None ==> !exists|i: int| last_with_pinyin(list@, pinyin@, i),
{
    let mut i: usize = list.len();
    while i > 0
        invariant
            i <= list@.len(),
            forall|k: int| i <= k < list@.len() ==> #[trigger] list@[k].p_y_quan_pin@ != pinyin@,
        decreases i,
    {
        if str_eq(list[i - 1].p_y_quan_pin.as_str(), pinyin) {
            proof {
                let w = (i - 1) as int;
                assert(last_with_pinyin(list@, pinyin@, w));
                let c = choose|c: int| last_with_pinyin(list@, pinyin@, c);
                if c < w {
                    assert(list@[w].p_y_quan_pin@ != pinyin@);
                } else if w < c {
                    assert(list@[c].p_y_quan_pin@ != pinyin@);
                }
            }
            return Some(list[i - 1].user_name.clone());
        }
        i -= 1;
    }
    None
}

fn refresh_member(list: &Vec<ContactMember>, m: ContactMember) -> (r: ContactMember)
    ensures
        is_refreshed(list@, r, m),
{
    let mut m = m;
    let ghost orig = m;
    match name_for_pinyin(list, m.p_y_quan_pin.as_str()) {
        Some(n) => {
            m.user_name = n;
        },
        None => {},
    }
    assert(same_but_name(m, orig));
    m
}

fn refresh_group(list: &Vec<ContactMember>, g: Group) -> (r: Group)
    ensures
        r.id == g.id,
        r.name == g.name,
        r.operator == g.operator,
        r.members@.len() == g.members@.len(),
        forall|j: int| 0 <= j < g.members@.len() ==> is_refreshed(list@, #[trigger] r.members@[j], g.members@[j]),
{
    let Group { id, name, members, operator } = g;
    let ghost orig = members@;
    let mut rest = members;
    let mut done: Vec<ContactMember> = Vec::new();
    while rest.len() > 0
        invariant
            done@.len() + rest@.len() == orig.len(),
            rest@ == orig.subrange(done@.len() as int, orig.len() as int),
            forall|j: int| 0 <= j < done@.len() ==> is_refreshed(list@, #[trigger] done@[j], orig[j]),
        decreases rest@.len(),
    {
        let m = rest.remove(0);
        let ghost k = done@.len();
        assert(m == orig[k as int]);
        done.push(refresh_member(list, m));
        assert(rest@ =~= orig.subrange(done@.len() as int, orig.len() as int));
    }
    Group { id, name, members: done, operator }
}

/// The profile store.
#[derive(Debug)]
pub struct OpenAiService {
    pub data_path: String,
}

/// The generation-source store.
#[derive(Debug)]
pub struct OpenAiConfigService {
    pub data_path: String,
}

/// The group store.
#[derive(Debug)]
pub struct GroupService {
    pub data_path: String,
}

/// The reply-rule store.
#[derive(Debug)]
pub struct AutoReplyRuleService {
    pub data_path: String,
}

/// The scheduled-rule store.
#[derive(Debug)]
pub struct ScheduledRuleService {
    pub data_path: String,
}

fn data_file(root: &str, rel: &str) -> (r: String)
    ensures
        r@ == root@ + "/"@ + rel@,
{
    String::from_str(root).concat("/").concat(rel)
}

impl OpenAiService {
    /// The store under the data directory `root`.
    pub fn new(root: &str) -> (r: OpenAiService)
        ensures
            r.data_path@ == root@ + "/"@ + "data/user/openai.json"@,
    {
        OpenAiService { data_path: data_file(root, "data/user/openai.json") }
    }

    /// The list with `openai` added at the end.
    pub fn create(&self, list: Vec<OpenAi>, openai: OpenAi) -> (r: Vec<OpenAi>)
        ensures
            r@ == list@.push(openai),
    {
        let mut list = list;
        list.push(openai);
        list
    }

    /// The profile of id `id`: nothing for an empty id, an error when none
    /// has it.
    pub fn get(&self, list: Vec<OpenAi>, id: &str) -> (r: Result<Option<OpenAi>, WxChatError>)
        ensures
            id@.len() == 0 ==> r matches Ok(None),
            id@.len() > 0 && lacks_key(list@, id@) ==> (r matches Err(e) && e.message@
                == "OpenAi not found"@),
            forall|i: int|
                id@.len() > 0 && #[trigger] first_with_key(list@, id@, i) ==> r == Ok::<
                    Option<OpenAi>,
                    WxChatError,
                >(Some(list@[i])),
    {
        find_keyed(list, id, "OpenAi not found")
    }

    /// The list without the profile of id `id`.
    pub fn del(&self, list: Vec<OpenAi>, id: &str) -> (r: Vec<OpenAi>)
        ensures
            lacks_key(list@, id@) ==> r@ == list@,
            forall|i: int| #[trigger] first_with_key(list@, id@, i) ==> r@ == list@.remove(i),
    {
        remove_keyed(list, id)
    }

    /// The list with the profile of the same id replaced by `openai`.
    pub fn update(&self, list: Vec<OpenAi>, openai: OpenAi) -> (r: Vec<OpenAi>)
        ensures
            lacks_key(list@, openai.id@) ==> r@ == list@,
            forall|i: int| #[trigger]
                first_with_key(list@, openai.id@, i) ==> r@ == list@.update(i, openai),
    {
        replace_keyed(list, openai)
    }
}

impl OpenAiConfigService {
    /// The store under the data directory `root`.
    pub fn new(root: &str) -> (r: OpenAiConfigService)
        ensures
            r.data_path@ == root@ + "/"@ + "data/system/config.json"@,
    {
        OpenAiConfigService { data_path: data_file(root, "data/system/config.json") }
    }

    /// The list with `config` added at the end, unless a configuration of
    /// its source is there already.
    pub fn create(&self, list: Vec<OpenAiConfig>, config: OpenAiConfig) -> (r: Vec<OpenAiConfig>)
        ensures
            (exists|i: int| 0 <= i < list@.len() && #[trigger] list@[i].source@ == config.source@)
                ==> r@ == list@,
            (forall|i: int| 0 <= i < list@.len() ==> #[trigger] list@[i].source@ != config.source@)
                ==> r@ == list@.push(config),
    {
        let mut i: usize = 0;
        while i < list.len()
            invariant
                i <= list@.len(),
                forall|k: int| 0 <= k < i ==> #[trigger] list@[k].source@ != config.source@,
            decreases list@.len() - i,
        {
            if str_eq(list[i].source.as_str(), config.source.as_str()) {
                return list;
            }
            i += 1;
        }
        let mut list = list;
        list.push(config);
        list
    }
}

impl GroupService {
    /// The store under the data directory `root`.
    pub fn new(root: &str) -> (r: GroupService)
        ensures
            r.data_path@ == root@ + "/"@ + "data/user/groups.json"@,
    {
        GroupService { data_path: data_file(root, "data/user/groups.json") }
    }

    /// The list with `group` added at the end, unless a group of its name is
    /// there already.
    pub fn create(&self, list: Vec<Group>, group: Group) -> (r: Vec<Group>)
        ensures
            (exists|i: int| 0 <= i < list@.len() && #[trigger] list@[i].name@ == group.name@)
                ==> r@ == list@,
            (forall|i: int| 0 <= i < list@.len() ==> #[trigger] list@[i].name@ != group.name@)
                ==> r@ == list@.push(group),
    {
        let mut i: usize = 0;
        while i < list.len()
            invariant
                i <= list@.len(),
                forall|k: int| 0 <= k < i ==> #[trigger] list@[k].name@ != group.name@,
            decreases list@.len() - i,
        {
            if str_eq(list[i].name.as_str(), group.name.as_str()) {
                return list;
            }
            i += 1;
        }
        let mut list = list;
        list.push(group);
        list
    }

    /// The group of id `id`: nothing for an empty id, an error when none
    /// has it.
    pub fn get(&self, list: Vec<Group>, id: &str) -> (r: Result<Option<Group>, WxChatError>)
        ensures
            id@.len() == 0 ==> r matches Ok(None),
            id@.len() > 0 && lacks_key(list@, id@) ==> (r matches Err(e) && e.message@
                == "Group not found"@),
            forall|i: int|
                id@.len() > 0 && #[trigger] first_with_key(list@, id@, i) ==> r == Ok::<
                    Option<Group>,
                    WxChatError,
                >(Some(list@[i])),
    {
        find_keyed(list, id, "Group not found")
    }

    /// The groups with each member's user name refreshed from the fetched
    /// contacts, matched by pinyin name.
    pub fn update_by_member(&self, groups: Vec<Group>, member_list: &Vec<ContactMember>) -> (r: Vec<Group>)
        ensures
            r@.len() == groups@.len(),
            forall|i: int| 0 <= i < groups@.len() ==> {
                &&& (#[trigger] r@[i]).id == groups@[i].id
                &&& r@[i].name == groups@[i].name
                &&& r@[i].operator == groups@[i].operator
                &&& r@[i].members@.len() == groups@[i].members@.len()
                &&& forall|j: int| 0 <= j < groups@[i].members@.len() ==> is_refreshed(
                    member_list@,
                    #[trigger] r@[i].members@[j],
                    groups@[i].members@[j],
                )
            },
    {
        let ghost orig = groups@;
        let mut rest = groups;
        let mut done: Vec<Group> = Vec::new();
        while rest.len() > 0
            invariant
                done@.len() + rest@.len() == orig.len(),
                rest@ == orig.subrange(done@.len() as int, orig.len() as int),
                forall|i: int| 0 <= i < done@.len() ==> {
                    &&& (#[trigger] done@[i]).id == orig[i].id
                    &&& done@[i].name == orig[i].name
                    &&& done@[i].operator == orig[i].operator
                    &&& done@[i].members@.len() == orig[i].members@.len()
                    &&& forall|j: int| 0 <= j < orig[i].members@.len() ==> is_refreshed(
                        member_list@,
                        #[trigger] done@[i].members@[j],
                        orig[i].members@[j],
                    )
                },
            decreases rest@.len(),
        {
            let g = rest.remove(0);
            let ghost k = done@.len();
            assert(g == orig[k as int]);
            done.push(refresh_group(member_list, g));
            assert(rest@ =~= orig.subrange(done@.len() as int, orig.len() as int));
        }
        done
    }

    /// The list without the group of id `id`.
    pub fn del(&self, list: Vec<Group>, id: &str) -> (r: Vec<Group>)
        ensures
            lacks_key(list@, id@) ==> r@ == list@,
            forall|i: int| #[trigger] first_with_key(list@, id@, i) ==> r@ == list@.remove(i),
    {
        remove_keyed(list, id)
    }
}

impl AutoReplyRuleService {
    /// The store under the data directory `root`.
    pub fn new(root: &str) -> (r: AutoReplyRuleService)
        ensures
            r.data_path@ == root@ + "/"@ + "data/user/auto_reply_rules.json"@,
    {
        AutoReplyRuleService { data_path: data_file(root, "data/user/auto_reply_rules.json") }
    }

    /// The list with `rule` added at the end.
    pub fn create(&self, list: Vec<AutoReplyRule>, rule: AutoReplyRule) -> (r: Vec<AutoReplyRule>)
        ensures
            r@ == list@.push(rule),
    {
        let mut list = list;
        list.push(rule);
        list
    }

    /// The list without the rule of id `id`.
    pub fn del(&self, list: Vec<AutoReplyRule>, id: &str) -> (r: Vec<AutoReplyRule>)
        ensures
            lacks_key(list@, id@) ==> r@ == list@,
            forall|i: int| #[trigger] first_with_key(list@, id@, i) ==> r@ == list@.remove(i),
    {
        remove_keyed(list, id)
    }

    /// The list with the rule of the same id replaced by `rule`.
    pub fn update(&self, list: Vec<AutoReplyRule>, rule: AutoReplyRule) -> (r: Vec<AutoReplyRule>)
        ensures
            lacks_key(list@, rule.id@) ==> r@ == list@,
            forall|i: int| #[trigger]
                first_with_key(list@, rule.id@, i) ==> r@ == list@.update(i, rule),
    {
        replace_keyed(list, rule)
    }
}

impl ScheduledRuleService {
    /// The store under the data directory `root`.
    pub fn new(root: &str) -> (r: ScheduledRuleService)
        ensures
            r.data_path@ == root@ + "/"@ + "data/user/scheduled_rules.json"@,
    {
        ScheduledRuleService { data_path: data_file(root, "data/user/scheduled_rules.json") }
    }

    /// The list with `rule` added at the end.
    pub fn create(&self, list: Vec<ScheduledRule>, rule: ScheduledRule) -> (r: Vec<ScheduledRule>)
        ensures
            r@ == list@.push(rule),
    {
        let mut list = list;
        list.push(rule);
        list
    }

    /// The list without the rule of id `id`.
    pub fn del(&self, list: Vec<ScheduledRule>, id: &str) -> (r: Vec<ScheduledRule>)
        ensures
            lacks_key(list@, id@) ==> r@ == list@,
            forall|i: int| #[trigger] first_with_key(list@, id@, i) ==> r@ == list@.remove(i),
    {
        remove_keyed(list, id)
    }

    /// The list with the rule of the same id replaced by `rule`.
    pub fn update(&self, list: Vec<ScheduledRule>, rule: ScheduledRule) -> (r: Vec<ScheduledRule>)
        ensures
            lacks_key(list@, rule.id@) ==> r@ == list@,
            forall|i: int| #[trigger]
                first_with_key(list@, rule.id@, i) ==> r@ == list@.update(i, rule),
    {
        replace_keyed(list, rule)
    }
}

} // verus!
