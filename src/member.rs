//! Contacts of the logged-in account.

use vstd::prelude::*;
use crate::base::User;
use crate::text::str_eq;

verus! {

/// A contact, or a member of a group chat.
#[derive(Debug)]
pub struct ContactMember {
    pub uin: i64,
    pub user_name: String,
    pub nick_name: String,
    pub head_img_url: String,
    pub contact_flag: i64,
    pub member_count: i64,
    pub member_list: Vec<ContactMember>,
    pub remark_name: String,
    pub hide_input_bar_flag: i64,
    pub sex: i64,
    pub signature: String,
    pub verify_flag: i64,
    pub owner_uin: i64,
    pub p_y_quan_pin: String,
    pub remark_p_y_initial: String,
    pub remark_p_y_quan_pin: String,
    pub star_friend: i64,
    pub app_account_flag: i64,
    pub statues: i64,
    pub province: String,
    pub city: String,
    pub alias: String,
    pub sns_flag: i64,
    pub uni_friend: i64,
    pub display_name: String,
    pub chat_room_id: i64,
    pub key_word: String,
    pub encry_chat_room_id: String,
    pub is_owner: i64,
}

/// `c` is the contact entry of the account `u`: the fields they share are
/// copied, the pinyin name is the user name, and the rest are empty or zero.
pub open spec fn is_contact_of(c: ContactMember, u: User) -> bool {
    &&& c.uin == u.uin
    &&& c.user_name == u.user_name
    &&& c.nick_name == u.nick_name
    &&& c.head_img_url == u.head_img_url
    &&& c.contact_flag == u.contact_flag
    &&& c.member_count == 0
    &&& c.member_list@.len() == 0
    &&& c.remark_name == u.remark_name
    &&& c.hide_input_bar_flag == u.hide_input_bar_flag
    &&& c.sex == u.sex
    &&& c.signature == u.signature
    &&& c.verify_flag == u.verify_flag
    &&& c.owner_uin == 0
    &&& c.p_y_quan_pin == u.user_name
    &&& c.remark_p_y_initial == u.remark_p_y_initial
    &&& c.remark_p_y_quan_pin == u.remark_p_y_quan_pin
    &&& c.star_friend == u.star_friend
    &&& c.app_account_flag == u.app_account_flag
    &&& c.statues == 0
    &&& c.province@.len() == 0
    &&& c.city@.len() == 0
    &&& c.alias@.len() == 0
    &&& c.sns_flag == u.sns_flag
    &&& c.uni_friend == 0
    &&& c.display_name@.len() == 0
    &&& c.chat_room_id == 0
    &&& c.key_word@.len() == 0
    &&& c.encry_chat_room_id@.len() == 0
    &&& c.is_owner == 0
}

impl ContactMember {
    /// The contact entry of the account itself.
    pub fn from(user: &User) -> (r: ContactMember)
        ensures
            is_contact_of(r, *user),
    {
        ContactMember {
            uin: user.uin,
            user_name: user.user_name.clone(),
            nick_name: user.nick_name.clone(),
            head_img_url: user.head_img_url.clone(),
            contact_flag: user.contact_flag,
            member_count: 0,
            member_list: Vec::new(),
            remark_name: user.remark_name.clone(),
            hide_input_bar_flag: user.hide_input_bar_flag,
            sex: user.sex,
            signature: user.signature.clone(),
            verify_flag: user.verify_flag,
            owner_uin: 0,
            p_y_quan_pin: user.user_name.clone(),
            remark_p_y_initial: user.remark_p_y_initial.clone(),
            remark_p_y_quan_pin: user.remark_p_y_quan_pin.clone(),
            star_friend: user.star_friend,
            app_account_flag: user.app_account_flag,
            statues: 0,
            province: String::new(),
            city: String::new(),
            alias: String::new(),
            sns_flag: user.sns_flag,
            uni_friend: 0,
            display_name: String::new(),
            chat_room_id: 0,
            key_word: String::new(),
            encry_chat_room_id: String::new(),
            is_owner: 0,
        }
    }
}

/// The contact list of the account.
#[derive(Debug)]
pub struct Member {
    pub member_list: Vec<ContactMember>,
}

impl Member {
    pub fn new() -> (r: Member)
        ensures
            r.member_list@.len() == 0,
    {
        Member { member_list: Vec::new() }
    }

    /// The contact list made of the fetched contacts followed by the entry
    /// of the account itself.
    pub fn from_contacts(contacts: Vec<ContactMember>, user: &User) -> (r: Member)
        ensures
            r.member_list@.len() == contacts@.len() + 1,
            r.member_list@.drop_last() == contacts@,
            is_contact_of(r.member_list@.last(), *user),
    {
        let mut member_list = contacts;
        member_list.push(ContactMember::from(user));
        assert(member_list@.drop_last() =~= contacts@);
        Member { member_list }
    }

    /// The last contact whose user name is `user_name` (a later entry of a
    /// name stands for the earlier ones).
    pub fn get(&self, user_name: &str) -> (r: Option<&ContactMember>)
        ensures
            r matches Some(c) ==> exists|i: int|
                0 <= i < self.member_list@.len() && self.member_list@[i] == *c && c.user_name@
                    == user_name@ && forall|k: int|
                    i < k < self.member_list@.len() ==> #[trigger] self.member_list@[k].user_name@
                        != user_name@,
            r is None ==> forall|i: int|
                0 <= i < self.member_list@.len() ==> #[trigger] self.member_list@[i].user_name@
                    != user_name@,
    {
        let mut i: usize = self.member_list.len();
        while i > 0
            invariant
                i <= self.member_list@.len(),
                forall|k: int|
                    i <= k < self.member_list@.len() ==> #[trigger] self.member_list@[k].user_name@
                        != user_name@,
            decreases i,
        {
            if str_eq(self.member_list[i - 1].user_name.as_str(), user_name) {
                return Some(&self.member_list[i - 1]);
            }
            i -= 1;
        }
        None
    }
}

} // verus!
