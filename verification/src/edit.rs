//! The edit window: completing and checking the stored bans before the list
//! is saved, deleting an account, and the names the window offers.

use vstd::prelude::*;
use crate::model::{Ban, BanModel, User, UserModel, users_view, start_unset};
use crate::form::{filled, all_numeric, fill_count, text_all_numeric, zero_text, new_account_ok,
    new_ban_ok, ban_from_form_spec};
use crate::outside::{local_now_rfc2822, rfc2822_epoch_millis, numeric_char};

verus! {

/// A stored ban after the edit window saved it: an unset start becomes
/// `stamp`, and an empty count becomes `"0"`.
pub open spec fn tidy_ban(b: BanModel, stamp: Seq<char>) -> BanModel {
    BanModel {
        days: filled(b.days),
        hours: filled(b.hours),
        mins: filled(b.mins),
        start: if start_unset(b.start) {
            stamp
        } else {
            b.start
        },
    }
}

/// An account after the edit window saved it: a banned account's ban is
/// tidied, anything else stays as it was.
pub open spec fn tidy_user(u: UserModel, stamp: Seq<char>) -> UserModel {
    if u.is_banned {
        match u.ban {
            Some(b) => UserModel {
                username: u.username,
                is_banned: u.is_banned,
                ban: Some(tidy_ban(b, stamp)),
            },
            None => u,
        }
    } else {
        u
    }
}

/// The accounts after the edit window saved them, with `stamp` as the start
/// of every ban whose start was unset.
pub open spec fn tidied(us: Seq<UserModel>, stamp: Seq<char>) -> Seq<UserModel> {
    us.map_values(|u: UserModel| tidy_user(u, stamp))
}

/// Every banned account holds a ban.
pub open spec fn bans_present(us: Seq<UserModel>) -> bool {
    forall|i: int| 0 <= i < us.len() ==> (#[trigger] us[i]).is_banned ==> us[i].ban is Some
}

/// The counts of a banned account, once completed, are all numeric.
pub open spec fn counts_numeric(u: UserModel) -> bool {
    u.is_banned ==> match u.ban {
        Some(b) => all_numeric(filled(b.days)) && all_numeric(filled(b.hours)) && all_numeric(
            filled(b.mins),
        ),
        None => true,
    }
}

/// The list is to be written out: it is not empty and every banned
/// account's counts are numeric.
pub open spec fn list_savable(us: Seq<UserModel>) -> bool {
    us.len() > 0 && forall|i: int| 0 <= i < us.len() ==> counts_numeric(#[trigger] us[i])
}

/// Whether a stored start is unset (`"0"`).
pub fn is_start_unset(s: &String) -> (r: bool)
    ensures
        r == start_unset(s@),
{
    let n = s.as_str().unicode_len();
    if n != 1 {
        return false;
    }
    let c = s.as_str().get_char(0);
    proof {
        if c == '0' {
            assert(s@ =~= seq!['0']);
        }
    }
    c == '0'
}

/// Tidies the accounts as the edit window does before saving, with `stamp`
/// as the start of every ban whose start was unset, and tells whether the
/// list is to be written out.
pub fn update_smurfs_with(users: &mut Vec<User>, stamp: &String) -> (write: bool)
    requires
        bans_present(users_view(old(users)@)),
    ensures
        users_view(final(users)@) == tidied(users_view(old(users)@), stamp@),
        write == list_savable(users_view(old(users)@)),
        final(users)@.len() == old(users)@.len(),
        forall|i: int|
            0 <= i < old(users)@.len() ==> {
                let o = #[trigger] users_view(old(users)@)[i];
                let f = users_view(final(users)@)[i];
                &&& f.username == o.username
                &&& f.is_banned == o.is_banned
                &&& !o.is_banned ==> f == o
                &&& o.is_banned ==> match (o.ban, f.ban) {
                    (Some(ob), Some(fb)) => {
                        &&& fb.days == (if ob.days.len() == 0 { seq!['0'] } else { ob.days })
                        &&& fb.hours == (if ob.hours.len() == 0 { seq!['0'] } else { ob.hours })
                        &&& fb.mins == (if ob.mins.len() == 0 { seq!['0'] } else { ob.mins })
                        &&& fb.start == (if ob.start == seq!['0'] { stamp@ } else { ob.start })
                    },
                    _ => false,
                }
            },
        write ==> old(users)@.len() > 0,
        write ==> forall|i: int|
            0 <= i < old(users)@.len() ==> {
                let f = #[trigger] users_view(final(users)@)[i];
                f.is_banned ==> match f.ban {
                    Some(fb) => {
                        &&& forall|j: int| 0 <= j < fb.days.len() ==> numeric_char(#[trigger] fb.days[j])
                        &&& forall|j: int| 0 <= j < fb.hours.len() ==> numeric_char(#[trigger] fb.hours[j])
                        &&& forall|j: int| 0 <= j < fb.mins.len() ==> numeric_char(#[trigger] fb.mins[j])
                    },
                    None => false,
                }
            },
        !write && old(users)@.len() > 0 ==> exists|i: int|
            0 <= i < old(users)@.len() && {
                let f = #[trigger] users_view(final(users)@)[i];
                f.is_banned && match f.ban {
                    Some(fb) => {
                        ||| exists|j: int| 0 <= j < fb.days.len() && !numeric_char(#[trigger] fb.days[j])
                        ||| exists|j: int| 0 <= j < fb.hours.len() && !numeric_char(#[trigger] fb.hours[j])
                        ||| exists|j: int| 0 <= j < fb.mins.len() && !numeric_char(#[trigger] fb.mins[j])
                    },
                    None => false,
                }
            },
{
    let n = users.len();
    let ghost old_users = users_view(users@);
    let mut proper = true;
    for i in 0..n
        invariant
            n == users@.len(),
            old_users.len() == n,
            bans_present(old_users),
            forall|j: int| 0 <= j < i ==> (#[trigger] users@[j])@ == tidy_user(old_users[j], stamp@),
            forall|j: int| i <= j < n ==> (#[trigger] users@[j])@ == old_users[j],
            proper == forall|j: int| 0 <= j < i ==> counts_numeric(#[trigger] old_users[j]),
    {
        assert(users@[i as int]@ == old_users[i as int]);
        if users[i].is_banned {
            let fresh = match &users[i].ban {
                Some(b) => {
                    let start = if is_start_unset(&b.start) {
                        stamp.clone()
                    } else {
                        b.start.clone()
                    };
                    let days = fill_count(&b.days);
                    let hours = fill_count(&b.hours);
                    let mins = fill_count(&b.mins);
                    let ok_d = text_all_numeric(&days);
                    let ok_h = text_all_numeric(&hours);
                    let ok_m = text_all_numeric(&mins);
                    if !(ok_d && ok_h && ok_m) {
                        proper = false;
                    }
                    Ban { days, hours, mins, start }
                },
                None => {
                    assert(false);
                    Ban {
                        days: String::new(),
                        hours: String::new(),
                        mins: String::new(),
                        start: String::new(),
                    }
                },
            };
            let name = users[i].username.clone();
            users.set(i, User { username: name, is_banned: true, ban: Some(fresh) });
        }
    }
    proof {
        assert(users_view(users@) =~= tidied(old_users, stamp@));
        if !proper && n > 0 {
            let k = choose|k: int| 0 <= k < n && !counts_numeric(#[trigger] old_users[k]);
            let f = users_view(users@)[k];
            assert(f == tidy_user(old_users[k], stamp@));
            let b = old_users[k].ban.unwrap();
            let fb = f.ban.unwrap();
            assert(fb.days == filled(b.days) && fb.hours == filled(b.hours) && fb.mins == filled(b.mins));
            if !all_numeric(fb.days) {
                let j = choose|j: int| 0 <= j < fb.days.len() && !numeric_char(#[trigger] fb.days[j]);
            } else if !all_numeric(fb.hours) {
                let j = choose|j: int| 0 <= j < fb.hours.len() && !numeric_char(#[trigger] fb.hours[j]);
            } else {
                let j = choose|j: int| 0 <= j < fb.mins.len() && !numeric_char(#[trigger] fb.mins[j]);
            }
            assert(f.is_banned);
        }
    }
    n > 0 && proper
}

/// A banned account whose ban has its start unset.
pub open spec fn awaits_start(u: UserModel) -> bool {
    u.is_banned && match u.ban {
        Some(b) => start_unset(b.start),
        None => false,
    }
}

/// Some banned account's ban has its start unset.
pub open spec fn some_start_unset(us: Seq<UserModel>) -> bool {
    exists|i: int| 0 <= i < us.len() && awaits_start(#[trigger] us[i])
}

/// A stamp that `update_smurfs` may use on `us`: never the unset start, and
/// a date chrono reads whenever some start is to be set with it.
pub open spec fn fit_stamp(us: Seq<UserModel>, stamp: Seq<char>) -> bool {
    &&& !start_unset(stamp)
    &&& some_start_unset(us) ==> rfc2822_epoch_millis(stamp) is Some
}

/// Tidies the accounts as the edit window does before saving, with the
/// present instant, read from the clock and written as an RFC 2822 date, as
/// the start of every ban whose start was unset, and tells whether the list is
/// to be written out. The clock is read only when some start is unset.
pub fn update_smurfs(users: &mut Vec<User>) -> (write: bool)
    requires
        bans_present(users_view(old(users)@)),
    ensures
        exists|stamp: Seq<char>|
            fit_stamp(users_view(old(users)@), stamp) && users_view(final(users)@)
                == #[trigger] tidied(users_view(old(users)@), stamp),
        write == list_savable(users_view(old(users)@)),
{
    let needed = any_start_unset(users);
    let stamp = if needed {
        local_now_rfc2822()
    } else {
        String::new()
    };
    let ghost old_users = users_view(users@);
    let write = update_smurfs_with(users, &stamp);
    assert(seq!['0'].len() == 1);
    assert(fit_stamp(old_users, stamp@));
    write
}

/// Whether some banned account's ban has its start unset.
fn any_start_unset(users: &Vec<User>) -> (r: bool)
    ensures
        r == some_start_unset(users_view(users@)),
{
    let n = users.len();
    for i in 0..n
        invariant
            n == users@.len(),
            forall|j: int| 0 <= j < i ==> !awaits_start(#[trigger] users_view(users@)[j]),
    {
        if users[i].is_banned {
            if let Some(b) = &users[i].ban {
                if is_start_unset(&b.start) {
                    assert(users_view(users@)[i as int] == users@[i as int]@);
                    return true;
                }
            }
        }
        assert(users_view(users@)[i as int] == users@[i as int]@);
    }
    false
}

/// A banned account chosen in the edit window gets a ban if it has none:
/// zero days, hours and minutes, with the start unset.
pub fn ensure_ban_present(user: &mut User)
    ensures
        final(user).username == old(user).username,
        final(user).is_banned == old(user).is_banned,
        old(user).is_banned && old(user).ban is None ==> final(user)@.ban == Some(
            BanModel { days: seq!['0'], hours: seq!['0'], mins: seq!['0'], start: seq!['0'] },
        ),
        !(old(user).is_banned && old(user).ban is None) ==> final(user).ban == old(user).ban,
{
    if user.is_banned && user.ban.is_none() {
        user.ban = Some(
            Ban { days: zero_text(), hours: zero_text(), mins: zero_text(), start: zero_text() },
        );
    }
}

/// Deletes the account chosen in the edit window: with more than one account
/// the chosen one leaves the list; otherwise the list becomes empty.
pub fn delete_selected(users: &mut Vec<User>, selected: usize)
    requires
        old(users)@.len() > 1 ==> selected < old(users)@.len(),
    ensures
        old(users)@.len() > 1 ==> final(users)@ == old(users)@.remove(selected as int),
        old(users)@.len() <= 1 ==> final(users)@.len() == 0,
{
    if users.len() > 1 {
        users.remove(selected);
    } else {
        *users = Vec::new();
    }
}

/// The list after Yes in the confirmation window: without the chosen account
/// when there are more than one, empty otherwise.
pub open spec fn after_delete(us: Seq<UserModel>, selected: int) -> Seq<UserModel> {
    if us.len() > 1 {
        us.remove(selected)
    } else {
        Seq::empty()
    }
}

/// The edit window opens on a click of its button while there are accounts;
/// once open it stays open until the window itself is closed.
pub fn open_edit_window(clicked: bool, users: &Vec<User>, popup: &mut bool)
    ensures
        *final(popup) == (*old(popup) || (clicked && users@.len() > 0)),
{
    if clicked && users.len() != 0 {
        *popup = true;
    }
}

/// After the edit window is drawn: a click on Delete asks for confirmation,
/// and the confirmation window is to show exactly while that request stands.
pub fn after_edit_window(delete_clicked: bool, closer: &mut bool, confirmation_popup: &mut bool)
    ensures
        *final(closer) == (*old(closer) || delete_clicked),
        *final(confirmation_popup) == *final(closer),
{
    if delete_clicked {
        *closer = true;
    }
    *confirmation_popup = *closer;
}

/// Yes in the confirmation window: deletes the chosen account, tidies the
/// rest as a save does (reading the clock for unset starts), and withdraws
/// the request. Tells whether the list is to be written out.
pub fn confirm_delete(users: &mut Vec<User>, selected: usize, closer: &mut bool) -> (write: bool)
    requires
        old(users)@.len() > 1 ==> selected < old(users)@.len(),
        bans_present(after_delete(users_view(old(users)@), selected as int)),
    ensures
        !*final(closer),
        exists|stamp: Seq<char>|
            fit_stamp(after_delete(users_view(old(users)@), selected as int), stamp) && users_view(
                final(users)@,
            ) == #[trigger] tidied(after_delete(users_view(old(users)@), selected as int), stamp),
        write == list_savable(after_delete(users_view(old(users)@), selected as int)),
        old(users)@.len() <= 1 ==> final(users)@.len() == 0,
        old(users)@.len() > 1 ==> final(users)@.len() == old(users)@.len() - 1,
        old(users)@.len() > 1 ==> forall|j: int|
            0 <= j < selected ==> (#[trigger] users_view(final(users)@)[j]).username
                == old(users)@[j].username@ && users_view(final(users)@)[j].is_banned
                == old(users)@[j].is_banned,
        old(users)@.len() > 1 ==> forall|j: int|
            selected <= j < old(users)@.len() - 1 ==> (#[trigger] users_view(
                final(users)@,
            )[j]).username == old(users)@[j + 1].username@ && users_view(final(users)@)[j].is_banned
                == old(users)@[j + 1].is_banned,
{
    let ghost old_users = users_view(users@);
    let ghost old_seq = users@;
    delete_selected(users, selected);
    proof {
        if old_seq.len() > 1 {
            assert(users_view(users@) =~= old_users.remove(selected as int));
        } else {
            assert(users_view(users@) =~= Seq::<UserModel>::empty());
        }
        assert(users_view(users@) == after_delete(old_users, selected as int));
    }
    let ghost mid = users_view(users@);
    let write = update_smurfs(users);
    proof {
        let stamp = choose|stamp: Seq<char>|
            fit_stamp(mid, stamp) && users_view(users@) == #[trigger] tidied(mid, stamp);
        assert(users_view(users@) == tidied(mid, stamp));
        assert(users_view(users@).len() == mid.len());
        if old_seq.len() > 1 {
            assert forall|j: int| 0 <= j < selected implies (#[trigger] users_view(users@)[j]).username
                == old_seq[j].username@ && users_view(users@)[j].is_banned == old_seq[j].is_banned by {
                assert(users_view(users@)[j] == tidy_user(mid[j], stamp));
                assert(mid[j] == old_users[j]);
                assert(old_users[j] == old_seq[j]@);
            }
            assert forall|j: int| selected <= j < old_seq.len() - 1 implies (#[trigger] users_view(
                users@,
            )[j]).username == old_seq[j + 1].username@ && users_view(users@)[j].is_banned
                == old_seq[j + 1].is_banned by {
                assert(users_view(users@)[j] == tidy_user(mid[j], stamp));
                assert(mid[j] == old_users[j + 1]);
                assert(old_users[j + 1] == old_seq[j + 1]@);
            }
        }
    }
    *closer = false;
    write
}

/// The names of the accounts, in order, as the edit window offers them.
pub fn edit_names(users: &Vec<User>) -> (names: Vec<String>)
    ensures
        names@.len() == users@.len(),
        forall|i: int| 0 <= i < users@.len() ==> (#[trigger] names@[i])@ == users@[i].username@,
{
    let mut names: Vec<String> = Vec::new();
    for i in 0..users.len()
        invariant
            names@.len() == i,
            forall|j: int| 0 <= j < i ==> (#[trigger] names@[j])@ == users@[j].username@,
    {
        names.push(users[i].username.clone());
    }
    names
}


/// Saving again changes nothing: once the bans are tidied with a stamp that
/// is a set start, tidying them again, with any stamp, leaves them as they
/// are, and the list is written out again exactly when it was the first time.
pub proof fn lemma_tidy_is_idempotent(us: Seq<UserModel>, stamp: Seq<char>, later: Seq<char>)
    requires
        !start_unset(stamp),
    ensures
        tidied(tidied(us, stamp), later) == tidied(us, stamp),
        bans_present(us) ==> bans_present(tidied(us, stamp)),
        list_savable(tidied(us, stamp)) == list_savable(us),
{
    let once = tidied(us, stamp);
    assert forall|i: int| 0 <= i < us.len() implies #[trigger] tidied(once, later)[i] == once[i] by {
        let u = us[i];
        if u.is_banned {
            if let Some(b) = u.ban {
                assert(filled(filled(b.days)) == filled(b.days));
                assert(filled(filled(b.hours)) == filled(b.hours));
                assert(filled(filled(b.mins)) == filled(b.mins));
            }
        }
    }
    assert(tidied(once, later) =~= once);
    assert forall|i: int| 0 <= i < us.len() implies counts_numeric(#[trigger] once[i])
        == counts_numeric(us[i]) by {
        let u = us[i];
        if u.is_banned {
            if let Some(b) = u.ban {
                assert(filled(filled(b.days)) == filled(b.days));
                assert(filled(filled(b.hours)) == filled(b.hours));
                assert(filled(filled(b.mins)) == filled(b.mins));
            }
        }
    }
    if list_savable(us) {
        assert forall|i: int| 0 <= i < once.len() implies counts_numeric(#[trigger] once[i]) by {}
    }
    if list_savable(once) {
        assert forall|i: int| 0 <= i < us.len() implies counts_numeric(#[trigger] us[i]) by {
            assert(counts_numeric(once[i]));
        }
    }
}

/// After tidying with a stamp that is a set start, no banned account has an
/// empty count or an unset start.
pub proof fn lemma_tidied_bans_complete(us: Seq<UserModel>, stamp: Seq<char>, i: int)
    requires
        !start_unset(stamp),
        bans_present(us),
        0 <= i < us.len(),
        us[i].is_banned,
    ensures
        tidied(us, stamp)[i].ban matches Some(b) && b.days.len() > 0 && b.hours.len() > 0
            && b.mins.len() > 0 && !start_unset(b.start),
{
}

/// An account that the add form accepted, with the ban the form made, passes
/// the check that the edit window makes before saving the list.
pub proof fn lemma_new_account_passes_save_check(u: UserModel, form: BanModel, start: Seq<char>)
    requires
        u.is_banned ==> u.ban == Some(ban_from_form_spec(form, start)),
        new_account_ok(u),
    ensures
        counts_numeric(u),
{
    if u.is_banned {
        let b = ban_from_form_spec(form, start);
        assert(filled(b.days) == b.days);
        assert(filled(b.hours) == b.hours);
        assert(filled(b.mins) == b.mins);
        assert(new_ban_ok(b));
    }
}

} // verus!
