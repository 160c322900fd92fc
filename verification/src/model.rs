//! The records of the tracker and their mathematical models.

use vstd::prelude::*;

verus! {

/// A ban as it is typed in and stored: its length in days, hours and
/// minutes, and the moment it started as an RFC 2822 date.
#[derive(Debug, Clone, PartialEq, Eq)]
pub struct Ban {
    pub days: String,
    pub hours: String,
    pub mins: String,
    pub start: String,
}

/// An account, whether it is banned, and the ban it carries.
#[derive(Debug, Clone, PartialEq, Eq)]
pub struct User {
    pub username: String,
    pub is_banned: bool,
    pub ban: Option<Ban>,
}

/// What a ban holds, as sequences of characters.
pub struct BanModel {
    pub days: Seq<char>,
    pub hours: Seq<char>,
    pub mins: Seq<char>,
    pub start: Seq<char>,
}

/// What an account holds, as sequences of characters.
pub struct UserModel {
    pub username: Seq<char>,
    pub is_banned: bool,
    pub ban: Option<BanModel>,
}

impl View for Ban {
    type V = BanModel;

    open spec fn view(&self) -> BanModel {
        BanModel {
            days: self.days@,
            hours: self.hours@,
            mins: self.mins@,
            start: self.start@,
        }
    }
}

pub open spec fn ban_option_view(b: Option<Ban>) -> Option<BanModel> {
    match b {
        Some(b) => Some(b@),
        None => None,
    }
}

impl View for User {
    type V = UserModel;

    open spec fn view(&self) -> UserModel {
        UserModel {
            username: self.username@,
            is_banned: self.is_banned,
            ban: ban_option_view(self.ban),
        }
    }
}

/// A start that was never set is stored as `"0"`.
pub open spec fn start_unset(s: Seq<char>) -> bool {
    s == seq!['0']
}

/// The models of a list of accounts.
pub open spec fn users_view(users: Seq<User>) -> Seq<UserModel> {
    users.map_values(|u: User| u@)
}

/// A ban whose fields are copies of those of `ban`.
pub fn copy_ban(ban: &Ban) -> (r: Ban)
    ensures
        r@ == ban@,
{
    Ban {
        days: ban.days.clone(),
        hours: ban.hours.clone(),
        mins: ban.mins.clone(),
        start: ban.start.clone(),
    }
}

/// An account whose fields are copies of those of `user`.
pub fn copy_user(user: &User) -> (r: User)
    ensures
        r@ == user@,
{
    let ban = match &user.ban {
        Some(b) => Some(copy_ban(b)),
        None => None,
    };
    User { username: user.username.clone(), is_banned: user.is_banned, ban }
}

} // verus!
