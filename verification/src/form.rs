//! The form that adds an account: completing the ban typed in, checking it,
//! and the state of the tracker's window.

use vstd::prelude::*;
use crate::model::{Ban, BanModel, User, UserModel, copy_user, users_view, start_unset};
use crate::outside::{numeric_char, char_is_numeric, local_now_rfc2822, rfc2822_epoch_millis};

verus! {

/// A count as it is stored: an empty entry stands for `"0"`.
pub open spec fn filled(s: Seq<char>) -> Seq<char> {
    if s.len() == 0 {
        seq!['0']
    } else {
        s
    }
}

/// Every character of `s` is numeric in the sense of `char::is_numeric`.
pub open spec fn all_numeric(s: Seq<char>) -> bool {
    forall|i: int| 0 <= i < s.len() ==> numeric_char(#[trigger] s[i])
}

/// A count the form accepts for a new ban: at most three characters, all numeric.
pub open spec fn new_count_ok(s: Seq<char>) -> bool {
    s.len() <= 3 && all_numeric(s)
}

/// The ban that the form makes of the counts typed in and a start date.
pub open spec fn ban_from_form_spec(form: BanModel, start: Seq<char>) -> BanModel {
    BanModel {
        days: filled(form.days),
        hours: filled(form.hours),
        mins: filled(form.mins),
        start: start,
    }
}

/// All three counts of a new ban are accepted.
pub open spec fn new_ban_ok(b: BanModel) -> bool {
    new_count_ok(b.days) && new_count_ok(b.hours) && new_count_ok(b.mins)
}

/// A new account may be saved: it is not banned, or its ban's counts are accepted.
pub open spec fn new_account_ok(u: UserModel) -> bool {
    u.is_banned ==> (u.ban matches Some(b) && new_ban_ok(b))
}

/// The text `"0"`.
pub fn zero_text() -> (r: String)
    ensures
        r@ == seq!['0'],
{
    let r = String::from_str("0");
    proof {
        reveal_strlit("0");
    }
    r
}

/// The count as it is stored: `"0"` for an empty entry, the entry otherwise.
pub fn fill_count(entry: &String) -> (r: String)
    ensures
        r@ == filled(entry@),
        entry@.len() == 0 ==> r@ == seq!['0'],
        entry@.len() > 0 ==> r@ == entry@,
{
    let mut r = if entry.as_str().unicode_len() == 0 {
        zero_text()
    } else {
        String::new()
    };
    r.append(entry.as_str());
    proof {
        assert(r@ =~= filled(entry@));
    }
    r
}

/// Whether every character of `s` is numeric.
pub fn text_all_numeric(s: &String) -> (r: bool)
    ensures
        r == all_numeric(s@),
{
    let n = s.as_str().unicode_len();
    let mut ok = true;
    for i in 0..n
        invariant
            n == s@.len(),
            ok == forall|j: int| 0 <= j < i ==> numeric_char(#[trigger] s@[j]),
    {
        let c = s.as_str().get_char(i);
        if !char_is_numeric(c) {
            ok = false;
        }
    }
    ok
}

/// Whether the form accepts `s` as a count of a new ban: as the form counts
/// the characters, each must be numeric and there may be at most three.
pub fn new_count_accepted(s: &String) -> (r: bool)
    ensures
        r == new_count_ok(s@),
        r <==> (s@.len() <= 3 && forall|j: int| 0 <= j < s@.len() ==> numeric_char(#[trigger] s@[j])),
{
    let n = s.as_str().unicode_len();
    let mut digits: usize = 0;
    let mut proper = true;
    for i in 0..n
        invariant
            n == s@.len(),
            digits == i,
            proper == (i <= 3 && forall|j: int| 0 <= j < i ==> numeric_char(#[trigger] s@[j])),
    {
        let c = s.as_str().get_char(i);
        digits = digits + 1;
        if !char_is_numeric(c) || digits > 3 {
            proper = false;
        }
    }
    proper
}

/// The ban made of the counts typed in the form: an empty count becomes `"0"`,
/// and the ban starts at `start`.
pub fn ban_from_form(form: &Ban, start: String) -> (r: Ban)
    ensures
        r@ == ban_from_form_spec(form@, start@),
        r.days@ == (if form.days@.len() == 0 { seq!['0'] } else { form.days@ }),
        r.hours@ == (if form.hours@.len() == 0 { seq!['0'] } else { form.hours@ }),
        r.mins@ == (if form.mins@.len() == 0 { seq!['0'] } else { form.mins@ }),
        r.start@ == start@,
{
    Ban {
        days: fill_count(&form.days),
        hours: fill_count(&form.hours),
        mins: fill_count(&form.mins),
        start,
    }
}

/// The ban counts of a new account pass the form's check.
pub fn new_ban_accepted(ban: &Ban) -> (r: bool)
    ensures
        r == new_ban_ok(ban@),
        r ==> ban.days@.len() <= 3 && ban.hours@.len() <= 3 && ban.mins@.len() <= 3,
        r <==> (ban.days@.len() <= 3 && ban.hours@.len() <= 3 && ban.mins@.len() <= 3 && (forall|
            j: int,
        | 0 <= j < ban.days@.len() ==> numeric_char(#[trigger] ban.days@[j])) && (forall|j: int|
            0 <= j < ban.hours@.len() ==> numeric_char(#[trigger] ban.hours@[j])) && (forall|j: int|
            0 <= j < ban.mins@.len() ==> numeric_char(#[trigger] ban.mins@[j]))),
{
    let d = new_count_accepted(&ban.days);
    let h = new_count_accepted(&ban.hours);
    let m = new_count_accepted(&ban.mins);
    d && h && m
}


/// The state of the tracker's window: the form of a new account, the list of
/// accounts, and which windows are open.
pub struct TemplateApp {
    pub label: String,
    pub popup: bool,
    pub edit_popup: bool,
    pub confirmation_popup: bool,
    pub confirmation_popup_closer: bool,
    /// The account being added.
    pub user: User,
    /// The ban counts typed in for the account being added.
    pub ban: Ban,
    /// The accounts known to the window.
    pub users: Vec<User>,
    /// The account chosen in the edit window.
    pub selected: usize,
}

impl Default for TemplateApp {
    fn default() -> (r: Self)
        ensures
            r.label@ == "Hello World!"@,
            !r.popup,
            !r.edit_popup,
            !r.confirmation_popup,
            !r.confirmation_popup_closer,
            r.user@ == (UserModel { username: seq![], is_banned: false, ban: None }),
            r.ban@ == (BanModel { days: seq![], hours: seq![], mins: seq![], start: seq![] }),
            r.users@.len() == 0,
            r.selected == 0,
    {
        TemplateApp {
            label: String::from_str("Hello World!"),
            popup: false,
            edit_popup: false,
            confirmation_popup: false,
            confirmation_popup_closer: false,
            user: User { username: String::new(), is_banned: false, ban: None },
            ban: Ban {
                days: String::new(),
                hours: String::new(),
                mins: String::new(),
                start: String::new(),
            },
            users: Vec::new(),
            selected: 0,
        }
    }
}

/// `b` is `a` but for the ban of the account being added.
pub open spec fn same_but_new_ban(a: TemplateApp, b: TemplateApp) -> bool {
    &&& b.label == a.label
    &&& b.popup == a.popup
    &&& b.edit_popup == a.edit_popup
    &&& b.confirmation_popup == a.confirmation_popup
    &&& b.confirmation_popup_closer == a.confirmation_popup_closer
    &&& b.user.username == a.user.username
    &&& b.user.is_banned == a.user.is_banned
    &&& b.ban == a.ban
    &&& b.users == a.users
    &&& b.selected == a.selected
}

impl TemplateApp {
    /// While the account being added is marked banned, its ban is made from
    /// the counts typed in, starting at `start`; otherwise nothing changes.
    pub fn prepare_new_ban(&mut self, start: String)
        ensures
            same_but_new_ban(*old(self), *final(self)),
            old(self).user.is_banned ==> final(self).user@.ban == Some(
                ban_from_form_spec(old(self).ban@, start@),
            ),
            !old(self).user.is_banned ==> final(self).user.ban == old(self).user.ban,
    {
        if self.user.is_banned {
            let ban = ban_from_form(&self.ban, start);
            self.user.ban = Some(ban);
        }
    }

    /// As `prepare_new_ban`, with the ban starting at the present instant,
    /// read from the clock and written as an RFC 2822 date that chrono reads.
    pub fn stamp_new_ban(&mut self)
        ensures
            same_but_new_ban(*old(self), *final(self)),
            old(self).user.is_banned ==> exists|start: Seq<char>|
                !start_unset(start) && rfc2822_epoch_millis(start) is Some && final(self).user@.ban
                    == Some(#[trigger] ban_from_form_spec(old(self).ban@, start)),
            !old(self).user.is_banned ==> final(self).user.ban == old(self).user.ban,
    {
        if self.user.is_banned {
            let start = local_now_rfc2822();
            self.prepare_new_ban(start);
        }
    }

    /// Saves the account being added when the form accepts it: it is not
    /// banned, or each count of its ban has at most three numeric characters.
    /// A copy of it then joins the list of accounts; otherwise nothing changes.
    pub fn save_new_account(&mut self) -> (saved: bool)
        requires
            old(self).user.is_banned ==> old(self).user.ban is Some,
        ensures
            saved == new_account_ok(old(self).user@),
            saved <==> (!old(self).user.is_banned || match old(self).user.ban {
                Some(b) => b.days@.len() <= 3 && b.hours@.len() <= 3 && b.mins@.len() <= 3 && (
                forall|j: int| 0 <= j < b.days@.len() ==> numeric_char(#[trigger] b.days@[j]))
                    && (forall|j: int| 0 <= j < b.hours@.len() ==> numeric_char(#[trigger] b.hours@[j]))
                    && (forall|j: int| 0 <= j < b.mins@.len() ==> numeric_char(#[trigger] b.mins@[j])),
                None => false,
            }),
            saved ==> final(self).users@.len() == old(self).users@.len() + 1,
            saved ==> final(self).users@.last()@ == old(self).user@,
            saved ==> forall|i: int|
                0 <= i < old(self).users@.len() ==> (#[trigger] final(self).users@[i])@
                    == old(self).users@[i]@,
            saved ==> users_view(final(self).users@) == users_view(old(self).users@).push(
                old(self).user@,
            ),
            !saved ==> final(self).users == old(self).users,
            final(self).user == old(self).user,
            final(self).ban == old(self).ban,
            final(self).label == old(self).label,
            final(self).popup == old(self).popup,
            final(self).edit_popup == old(self).edit_popup,
            final(self).confirmation_popup == old(self).confirmation_popup,
            final(self).confirmation_popup_closer == old(self).confirmation_popup_closer,
            final(self).selected == old(self).selected,
    {
        let mut proper = true;
        if self.user.is_banned {
            match &self.user.ban {
                Some(b) => {
                    proper = new_ban_accepted(b);
                },
                None => {},
            }
        }
        if proper {
            let copy = copy_user(&self.user);
            self.users.push(copy);
            proof {
                assert(users_view(self.users@) =~= users_view(old(self).users@).push(
                    old(self).user@,
                ));
            }
        }
        proper
    }
}

} // verus!
