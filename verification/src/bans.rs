//! How long a ban still runs: the arithmetic of the ban's length, the time
//! left at a given instant, and the review that lifts bans that ran out.

use vstd::prelude::*;
use vstd::arithmetic::div_mod::{lemma_div_denominator, lemma_fundamental_div_mod};
use crate::model::{User, UserModel, BanModel, users_view};
use crate::outside::{
    minutes_in_millis, parse_i32, parse_rfc2822_millis, local_now_millis, parsed_i32,
    rfc2822_epoch_millis, epoch_millis_min, epoch_millis_max,
};

verus! {

/// The time a ban has left, split into whole days, hours, minutes and seconds.
#[derive(Debug, Clone, Copy, PartialEq, Eq)]
pub struct TimeLeft {
    pub days: i64,
    pub hours: i64,
    pub mins: i64,
    pub secs: i64,
}

/// What the list of accounts shows for one account.
#[derive(Debug, Clone, Copy, PartialEq, Eq)]
pub enum BanStatus {
    /// The account carries no ban.
    NotBanned,
    /// The ban still runs, for the time given.
    Active(TimeLeft),
    /// The ban has run out: the account is to be unbanned.
    Expired,
}

/// Why a banned account's record cannot be read.
#[derive(Debug, Clone, Copy, PartialEq, Eq)]
pub enum BanError {
    /// The account is marked banned but holds no ban.
    MissingBan,
    /// A day, hour or minute count is not a number that fits an `i32`.
    BadNumber,
    /// The start of the ban is not an RFC 2822 date.
    BadStart,
    /// The ban's length, or the time it has left, does not fit the
    /// integers it is computed in.
    Overflow,
}

/// The length of a ban of `d` days, `h` hours and `m` minutes, in minutes.
pub open spec fn total_minutes(d: int, h: int, m: int) -> int {
    d * 24 * 60 + h * 60 + m
}

/// Every step of `d * 24 * 60 + h * 60 + m`, computed in `i32`, fits it.
pub open spec fn minutes_fit(d: int, h: int, m: int) -> bool {
    &&& i32::MIN <= d * 24 <= i32::MAX
    &&& i32::MIN <= d * 24 * 60 <= i32::MAX
    &&& i32::MIN <= h * 60 <= i32::MAX
    &&& i32::MIN <= d * 24 * 60 + h * 60 <= i32::MAX
    &&& i32::MIN <= total_minutes(d, h, m) <= i32::MAX
}

/// Each step of computing a ban's length in `i32` fitting is all that the
/// length check asks: it accepts every ban whose steps `d * 24`,
/// `d * 24 * 60`, `h * 60`, `d * 24 * 60 + h * 60` and the total fit an `i32`,
/// however long that ban is in milliseconds.
pub proof fn lemma_minutes_fit_when_steps_fit(d: int, h: int, m: int)
    requires
        -2147483648 <= d * 24 <= 2147483647,
        -2147483648 <= d * 1440 <= 2147483647,
        -2147483648 <= h * 60 <= 2147483647,
        -2147483648 <= d * 1440 + h * 60 <= 2147483647,
        -2147483648 <= d * 1440 + h * 60 + m <= 2147483647,
    ensures
        minutes_fit(d, h, m),
{
}

/// The end of the ban, in milliseconds since the epoch.
pub open spec fn ban_end(d: int, h: int, m: int, start: int) -> int {
    start + total_minutes(d, h, m) * 60_000
}

/// The time the ban has left at the instant `now`, in milliseconds
/// (negative once it has run out).
pub open spec fn remaining_millis(d: int, h: int, m: int, start: int, now: int) -> int {
    ban_end(d, h, m, start) - now
}

/// The end of the ban and the time it has left both fit an `i64`.
pub open spec fn millis_fit(d: int, h: int, m: int, start: int, now: int) -> bool {
    &&& i64::MIN <= ban_end(d, h, m, start) <= i64::MAX
    &&& i64::MIN <= remaining_millis(d, h, m, start, now) <= i64::MAX
}

/// `t` milliseconds, split into whole days, hours, minutes and seconds.
pub open spec fn time_left_of(t: int) -> TimeLeft {
    TimeLeft {
        days: (t / 86_400_000) as i64,
        hours: ((t / 3_600_000) % 24) as i64,
        mins: ((t / 60_000) % 60) as i64,
        secs: ((t / 1000) % 60) as i64,
    }
}

/// The status of a ban of `d` days, `h` hours and `m` minutes that started
/// at `start`, seen at `now`: it runs while time is left.
pub open spec fn status_of(d: int, h: int, m: int, start: int, now: int) -> BanStatus {
    let t = remaining_millis(d, h, m, start, now);
    if t > 0 {
        BanStatus::Active(time_left_of(t))
    } else {
        BanStatus::Expired
    }
}

/// The length of a ban in minutes, computed in `i32` as the counts are typed.
pub fn ban_minutes(days: i32, hours: i32, mins: i32) -> (r: i32)
    requires
        minutes_fit(days as int, hours as int, mins as int),
    ensures
        r == total_minutes(days as int, hours as int, mins as int),
{
    days * 24 * 60 + hours * 60 + mins
}

/// Splits `t` milliseconds into whole days, hours, minutes and seconds.
/// The parts rebuild `t` but for the milliseconds below a second.
pub fn split_time_left(t: i64) -> (r: TimeLeft)
    requires
        t >= 0,
    ensures
        r == time_left_of(t as int),
        0 <= r.hours < 24,
        0 <= r.mins < 60,
        0 <= r.secs < 60,
        r.days >= 0,
        r.days * 86_400_000 + r.hours * 3_600_000 + r.mins * 60_000 + r.secs * 1000 + t % 1000
            == t,
{
    let secs_total: i64 = t / 1000;
    let mut mins_left: i64 = secs_total / 60;
    let secs_left: i64 = secs_total - mins_left * 60;
    let mut hours_left: i64 = mins_left / 60;
    mins_left = mins_left - hours_left * 60;
    let days_left: i64 = hours_left / 24;
    hours_left = hours_left - days_left * 24;
    proof {
        let ti = t as int;
        lemma_div_denominator(ti, 1000, 60);
        lemma_div_denominator(ti, 60_000, 60);
        lemma_div_denominator(ti, 3_600_000, 24);
        lemma_fundamental_div_mod(ti, 1000);
        lemma_fundamental_div_mod(ti / 1000, 60);
        lemma_fundamental_div_mod(ti / 60_000, 60);
        lemma_fundamental_div_mod(ti / 3_600_000, 24);
        assert(secs_total == ti / 1000);
        assert(secs_total / 60 == ti / 60_000);
        assert(ti / 60_000 / 60 == ti / 3_600_000);
        assert(ti / 3_600_000 / 24 == ti / 86_400_000);
    }
    TimeLeft { days: days_left, hours: hours_left, mins: mins_left, secs: secs_left }
}

/// The status of a ban at `now_millis`, from its counts and its start: the
/// time left is the start plus the length minus now.
pub fn ban_status_at(days: i32, hours: i32, mins: i32, start_millis: i64, now_millis: i64) -> (r:
    BanStatus)
    requires
        minutes_fit(days as int, hours as int, mins as int),
        millis_fit(days as int, hours as int, mins as int, start_millis as int, now_millis as int),
    ensures
        r == status_of(days as int, hours as int, mins as int, start_millis as int, now_millis as int),
        !(r is NotBanned),
        r is Expired <==> start_millis + (days * 1440 + hours * 60 + mins) * 60_000 <= now_millis,
        r matches BanStatus::Active(tl) ==> {
            let t = start_millis + (days * 1440 + hours * 60 + mins) * 60_000 - now_millis;
            &&& 0 <= tl.hours < 24
            &&& 0 <= tl.mins < 60
            &&& 0 <= tl.secs < 60
            &&& 0 <= tl.days
            &&& tl.days * 86_400_000 + tl.hours * 3_600_000 + tl.mins * 60_000 + tl.secs * 1000 <= t
            &&& t < tl.days * 86_400_000 + tl.hours * 3_600_000 + tl.mins * 60_000 + tl.secs * 1000
                + 1000
        },
{
    let dur_min = ban_minutes(days, hours, mins);
    let dur_millis = minutes_in_millis(dur_min as i64);
    let time_left = start_millis + dur_millis - now_millis;
    if time_left > 0 {
        let tl = split_time_left(time_left);
        proof {
            assert(0 <= (time_left as int) % 1000 < 1000);
        }
        BanStatus::Active(tl)
    } else {
        BanStatus::Expired
    }
}


/// The status of a ban record at `now`, read as the list of accounts reads it:
/// the three counts must parse as `i32`, the length must fit, the start must
/// be an RFC 2822 date, and the end and the time left must fit an `i64`.
pub open spec fn ban_record_status(b: BanModel, now: int) -> Result<BanStatus, BanError> {
    match (parsed_i32(b.days), parsed_i32(b.hours), parsed_i32(b.mins)) {
        (Some(d), Some(h), Some(m)) => {
            if !minutes_fit(d as int, h as int, m as int) {
                Err(BanError::Overflow)
            } else {
                match rfc2822_epoch_millis(b.start) {
                    None => Err(BanError::BadStart),
                    Some(s) => {
                        if !millis_fit(d as int, h as int, m as int, s as int, now) {
                            Err(BanError::Overflow)
                        } else {
                            Ok(status_of(d as int, h as int, m as int, s as int, now))
                        }
                    },
                }
            }
        },
        _ => Err(BanError::BadNumber),
    }
}

/// The status of an account at `now`: not banned, or the status of its ban.
pub open spec fn user_status(u: UserModel, now: int) -> Result<BanStatus, BanError> {
    if !u.is_banned {
        Ok(BanStatus::NotBanned)
    } else {
        match u.ban {
            None => Err(BanError::MissingBan),
            Some(b) => ban_record_status(b, now),
        }
    }
}

/// The account after the review has seen `s`: a ban that ran out is lifted,
/// anything else stays as it was.
pub open spec fn settle(u: UserModel, s: BanStatus) -> UserModel {
    if s is Expired {
        UserModel { username: u.username, is_banned: false, ban: None }
    } else {
        u
    }
}

/// The start of a banned account's ban, where chrono reads it, lies within
/// the dates chrono can hold.
pub open spec fn start_bounded(u: UserModel) -> bool {
    u.is_banned ==> match u.ban {
        Some(b) => match rfc2822_epoch_millis(b.start) {
            Some(v) => epoch_millis_min() <= v <= epoch_millis_max(),
            None => true,
        },
        None => true,
    }
}

/// An account's record can be read whatever the instant: it is not banned,
/// or it holds a ban whose counts parse as `i32`, whose length fits an `i32`,
/// and whose start is an RFC 2822 date.
pub open spec fn record_readable(u: UserModel) -> bool {
    !u.is_banned || match u.ban {
        None => false,
        Some(b) => match (parsed_i32(b.days), parsed_i32(b.hours), parsed_i32(b.mins)) {
            (Some(d), Some(h), Some(m)) => minutes_fit(d as int, h as int, m as int)
                && rfc2822_epoch_millis(b.start) is Some,
            _ => false,
        },
    }
}

/// Every account's record can be read whatever the instant.
pub open spec fn records_readable(us: Seq<UserModel>) -> bool {
    forall|i: int| 0 <= i < us.len() ==> record_readable(#[trigger] us[i])
}

/// Reads the ban of an account at `now_millis`. Where the record cannot be
/// read (the cases in which the list of accounts gives up) the error says why.
pub fn ban_status(user: &User, now_millis: i64) -> (r: Result<BanStatus, BanError>)
    ensures
        r == user_status(user@, now_millis as int),
        start_bounded(user@),
{
    if !user.is_banned {
        return Ok(BanStatus::NotBanned);
    }
    let ban = match &user.ban {
        Some(b) => b,
        None => {
            return Err(BanError::MissingBan);
        },
    };
    let days = parse_i32(ban.days.as_str());
    let hours = parse_i32(ban.hours.as_str());
    let mins = parse_i32(ban.mins.as_str());
    let start = parse_rfc2822_millis(ban.start.as_str());
    let (d, h, m) = match (days, hours, mins) {
        (Some(d), Some(h), Some(m)) => (d, h, m),
        _ => {
            return Err(BanError::BadNumber);
        },
    };
    if !minutes_in_i32(d, h, m) {
        return Err(BanError::Overflow);
    }
    let start = match start {
        Some(s) => s,
        None => {
            return Err(BanError::BadStart);
        },
    };
    if !millis_in_i64(d, h, m, start, now_millis) {
        return Err(BanError::Overflow);
    }
    Ok(ban_status_at(d, h, m, start, now_millis))
}

/// Whether every step of the length of the ban fits an `i32`.
fn minutes_in_i32(d: i32, h: i32, m: i32) -> (r: bool)
    ensures
        r == minutes_fit(d as int, h as int, m as int),
{
    let d24 = d as i64 * 24;
    let d1440 = d24 * 60;
    let h60 = h as i64 * 60;
    let lo = i32::MIN as i64;
    let hi = i32::MAX as i64;
    lo <= d24 && d24 <= hi && lo <= d1440 && d1440 <= hi && lo <= h60 && h60 <= hi && lo <= d1440
        + h60 && d1440 + h60 <= hi && lo <= d1440 + h60 + m as i64 && d1440 + h60 + m as i64 <= hi
}

/// Whether the end of the ban and the time it has left fit an `i64`.
fn millis_in_i64(d: i32, h: i32, m: i32, start: i64, now: i64) -> (r: bool)
    requires
        minutes_fit(d as int, h as int, m as int),
    ensures
        r == millis_fit(d as int, h as int, m as int, start as int, now as int),
{
    let len = (d as i128 * 24 * 60 + h as i128 * 60 + m as i128) * 60_000;
    let end = start as i128 + len;
    let left = end - now as i128;
    let lo = i64::MIN as i128;
    let hi = i64::MAX as i128;
    lo <= end && end <= hi && lo <= left && left <= hi
}

/// Every account's record can be read at `now`.
pub open spec fn reviewable(us: Seq<UserModel>, now: int) -> bool {
    forall|i: int| 0 <= i < us.len() ==> (#[trigger] user_status(us[i], now)) is Ok
}

/// A review of `old` at `now` that succeeded: every account's status, in
/// order, with the accounts whose ban ran out unbanned and `edited` telling
/// whether any was.
pub open spec fn review_done(
    old: Seq<UserModel>,
    new: Seq<UserModel>,
    now: int,
    edited: bool,
    st: Seq<BanStatus>,
) -> bool {
    &&& st.len() == old.len()
    &&& new.len() == old.len()
    &&& forall|i: int|
        0 <= i < old.len() ==> user_status(#[trigger] old[i], now) == Ok::<BanStatus, BanError>(
            st[i],
        )
    &&& forall|i: int| 0 <= i < old.len() ==> #[trigger] new[i] == settle(old[i], st[i])
    &&& edited == exists|i: int| 0 <= i < old.len() && (#[trigger] st[i]) is Expired
}

/// What a review of `old` at `now` gives when it may meet records that cannot
/// be read: the review itself where every record can be read; otherwise the
/// error of the first account that cannot, with the accounts untouched.
pub open spec fn reviewed(
    old: Seq<UserModel>,
    new: Seq<UserModel>,
    now: int,
    r: Result<(bool, Vec<BanStatus>), BanError>,
) -> bool {
    match r {
        Ok((edited, st)) => review_done(old, new, now, edited, st@),
        Err(e) => {
            &&& new == old
            &&& exists|i: int|
                0 <= i < old.len() && user_status(#[trigger] old[i], now) == Err::<
                    BanStatus,
                    BanError,
                >(e) && forall|j: int| 0 <= j < i ==> (#[trigger] user_status(old[j], now)) is Ok
        },
    }
}

/// Reviews the accounts at `now_millis`: reads every ban, lifts those that
/// ran out, and gives back whether any was lifted and what each account shows.
/// Every record must be readable: the list of accounts gives up otherwise.
pub fn review_users(users: &mut Vec<User>, now_millis: i64) -> (r: (bool, Vec<BanStatus>))
    requires
        reviewable(users_view(old(users)@), now_millis as int),
    ensures
        review_done(
            users_view(old(users)@),
            users_view(final(users)@),
            now_millis as int,
            r.0,
            r.1@,
        ),
        r.1@.len() == old(users)@.len(),
        final(users)@.len() == old(users)@.len(),
        forall|i: int|
            0 <= i < old(users)@.len() ==> ((#[trigger] r.1@[i]) is Expired ==> users_view(
                final(users)@,
            )[i] == (UserModel {
                username: old(users)@[i].username@,
                is_banned: false,
                ban: None,
            })) && (!(r.1@[i] is Expired) ==> users_view(final(users)@)[i] == old(users)@[i]@),
        r.0 <==> exists|i: int| 0 <= i < old(users)@.len() && (#[trigger] r.1@[i]) is Expired,
{
    let n = users.len();
    let ghost old_users = users_view(users@);
    let mut statuses: Vec<BanStatus> = Vec::new();
    for i in 0..n
        invariant
            n == users@.len(),
            old_users == users_view(users@),
            reviewable(old_users, now_millis as int),
            statuses@.len() == i,
            forall|j: int|
                0 <= j < i ==> user_status(#[trigger] old_users[j], now_millis as int) == Ok::<
                    BanStatus,
                    BanError,
                >(statuses@[j]),
    {
        assert(user_status(old_users[i as int], now_millis as int) is Ok);
        match ban_status(&users[i], now_millis) {
            Ok(s) => {
                statuses.push(s);
            },
            Err(_) => {
                assert(false);
                statuses.push(BanStatus::NotBanned);
            },
        }
    }
    let mut edited = false;
    assert forall|j: int| 0 <= j < n implies (#[trigger] users@[j])@ == old_users[j] by {}
    for i in 0..n
        invariant
            n == users@.len(),
            n == statuses@.len(),
            old_users.len() == n,
            forall|j: int|
                0 <= j < n ==> user_status(#[trigger] old_users[j], now_millis as int) == Ok::<
                    BanStatus,
                    BanError,
                >(statuses@[j]),
            forall|j: int| 0 <= j < i ==> (#[trigger] users@[j])@ == settle(old_users[j], statuses@[j]),
            forall|j: int| i <= j < n ==> (#[trigger] users@[j])@ == old_users[j],
            edited == exists|j: int| 0 <= j < i && (#[trigger] statuses@[j]) is Expired,
    {
        if let BanStatus::Expired = statuses[i] {
            let name = users[i].username.clone();
            users.set(i, User { username: name, is_banned: false, ban: None });
            edited = true;
        }
    }
    assert(users_view(users@) =~= Seq::new(n as nat, |j: int| settle(old_users[j], statuses@[j])));
    (edited, statuses)
}

/// Reads every record first, and reviews the accounts at `now_millis` only if
/// all can be read. Where one cannot (where the list of accounts gives up),
/// the error of the first such account stands in for that, and the accounts
/// are left untouched.
pub fn try_review_users(users: &mut Vec<User>, now_millis: i64) -> (r: Result<
    (bool, Vec<BanStatus>),
    BanError,
>)
    ensures
        reviewed(users_view(old(users)@), users_view(final(users)@), now_millis as int, r),
        r is Ok <==> reviewable(users_view(old(users)@), now_millis as int),
        r is Err ==> exists|i: int|
            0 <= i < old(users)@.len() && (#[trigger] user_status(
                users_view(old(users)@)[i],
                now_millis as int,
            )) is Err && start_bounded(users_view(old(users)@)[i]),
{
    let n = users.len();
    let ghost old_users = users_view(users@);
    for i in 0..n
        invariant
            n == users@.len(),
            old_users == users_view(users@),
            forall|j: int| 0 <= j < i ==> (#[trigger] user_status(old_users[j], now_millis as int)) is Ok,
    {
        assert(users@[i as int]@ == old_users[i as int]);
        match ban_status(&users[i], now_millis) {
            Ok(_) => {},
            Err(e) => {
                assert(user_status(old_users[i as int], now_millis as int) == Err::<
                    BanStatus,
                    BanError,
                >(e));
                return Err(e);
            },
        }
    }
    let (edited, statuses) = review_users(users, now_millis);
    Ok((edited, statuses))
}

/// Reviews the accounts at the present instant, read from the clock: the
/// outcome is that of `try_review_users` at some instant at or after the
/// epoch. It succeeds exactly when every record can be read; an error stands
/// where the list of accounts gives up on a record (an account marked banned
/// without a ban, a count that is not an `i32`, a length that overflows an
/// `i32`, or a start that is not an RFC 2822 date), and the window then stops
/// with that error.
pub fn display_users(users: &mut Vec<User>) -> (r: Result<(bool, Vec<BanStatus>), BanError>)
    ensures
        exists|now: i64|
            0 <= now <= epoch_millis_max() && reviewed(
                users_view(old(users)@),
                users_view(final(users)@),
                now as int,
                r,
            ),
        r is Ok <==> records_readable(users_view(old(users)@)),
{
    let ghost old_users = users_view(users@);
    let now = local_now_millis();
    let r = try_review_users(users, now);
    proof {
        if r is Ok {
            assert forall|i: int| 0 <= i < old_users.len() implies record_readable(
                #[trigger] old_users[i],
            ) by {
                assert(user_status(old_users[i], now as int) is Ok);
            }
        } else {
            let i = choose|i: int|
                0 <= i < old_users.len() && (#[trigger] user_status(old_users[i], now as int)) is Err
                    && start_bounded(old_users[i]);
            if records_readable(old_users) {
                assert(record_readable(old_users[i]));
                lemma_readable_status_ok(old_users[i], now as int);
            }
        }
    }
    assert(reviewed(users_view(old(users)@), users_view(users@), now as int, r));
    r
}

/// A record that can be read, with its start within chrono's dates, gives a
/// status at every instant from the epoch to the end of chrono's dates: the
/// end of the ban and the time it has left then fit an `i64`.
pub proof fn lemma_readable_status_ok(u: UserModel, now: int)
    requires
        record_readable(u),
        start_bounded(u),
        0 <= now <= epoch_millis_max(),
    ensures
        user_status(u, now) is Ok,
{
}


/// A second review at the same instant finds nothing left to lift: it
/// succeeds, reports no edit, and leaves the accounts as the first left them.
pub proof fn lemma_review_is_stable(
    old: Seq<UserModel>,
    mid: Seq<UserModel>,
    new: Seq<UserModel>,
    now: int,
    first: Result<(bool, Vec<BanStatus>), BanError>,
    second: Result<(bool, Vec<BanStatus>), BanError>,
)
    requires
        reviewed(old, mid, now, first),
        first is Ok,
        reviewed(mid, new, now, second),
    ensures
        reviewable(mid, now),
        second is Ok,
        !second->Ok_0.0,
        new == mid,
{
    let st = first->Ok_0.1;
    assert forall|i: int| 0 <= i < mid.len() implies (#[trigger] user_status(mid[i], now)) is Ok
        && !(user_status(mid[i], now)->Ok_0 is Expired) by {
        assert(user_status(old[i], now) == Ok::<BanStatus, BanError>(st@[i]));
        assert(mid[i] == settle(old[i], st@[i]));
    }
    if second is Err {
        let e = second->Err_0;
        let i = choose|i: int|
            0 <= i < mid.len() && user_status(#[trigger] mid[i], now) == Err::<BanStatus, BanError>(
                e,
            ) && forall|j: int| 0 <= j < i ==> (#[trigger] user_status(mid[j], now)) is Ok;
        assert(user_status(mid[i], now) is Ok);
    } else {
        let st2 = second->Ok_0.1;
        assert forall|i: int| 0 <= i < mid.len() implies !((#[trigger] st2@[i]) is Expired) by {
            assert(user_status(mid[i], now) == Ok::<BanStatus, BanError>(st2@[i]));
        }
        assert forall|i: int| 0 <= i < mid.len() implies #[trigger] new[i] == mid[i] by {
            assert(user_status(mid[i], now) == Ok::<BanStatus, BanError>(st2@[i]));
            assert(new[i] == settle(mid[i], st2@[i]));
        }
        assert(new =~= mid);
    }
}

/// A ban that has run out stays run out: seen at any later instant at which
/// the record can be read, it is still expired.
pub proof fn lemma_expiry_persists(u: UserModel, earlier: int, later: int)
    requires
        user_status(u, earlier) == Ok::<BanStatus, BanError>(BanStatus::Expired),
        earlier <= later,
        user_status(u, later) is Ok,
    ensures
        user_status(u, later) == Ok::<BanStatus, BanError>(BanStatus::Expired),
{
}

/// A ban that still runs at some instant ran at every earlier instant at which
/// the record can be read.
pub proof fn lemma_active_earlier(u: UserModel, earlier: int, later: int)
    requires
        user_status(u, later) matches Ok(BanStatus::Active(_)),
        earlier <= later,
        user_status(u, earlier) is Ok,
    ensures
        user_status(u, earlier) matches Ok(BanStatus::Active(_)),
{
}

} // verus!
