use bannus_trackus::bans::{
    ban_minutes, ban_status, ban_status_at, display_users, review_users, split_time_left,
    try_review_users, BanError, BanStatus, TimeLeft,
};
use bannus_trackus::edit::{
    after_edit_window, confirm_delete, delete_selected, edit_names, ensure_ban_present,
    open_edit_window, update_smurfs, update_smurfs_with,
};
use bannus_trackus::form::{
    ban_from_form, fill_count, new_ban_accepted, new_count_accepted, text_all_numeric,
    TemplateApp,
};
use bannus_trackus::model::{copy_user, Ban, User};

const EPOCH: &str = "Thu, 01 Jan 1970 00:00:00 +0000";

fn ban(days: &str, hours: &str, mins: &str, start: &str) -> Ban {
    Ban {
        days: days.to_string(),
        hours: hours.to_string(),
        mins: mins.to_string(),
        start: start.to_string(),
    }
}

fn user(name: &str, banned: bool, b: Option<Ban>) -> User {
    User { username: name.to_string(), is_banned: banned, ban: b }
}

fn left(days: i64, hours: i64, mins: i64, secs: i64) -> TimeLeft {
    TimeLeft { days, hours, mins, secs }
}

#[test]
fn ban_minutes_formula() {
    assert_eq!(ban_minutes(1, 2, 3), 1563);
    assert_eq!(ban_minutes(0, 0, 0), 0);
    assert_eq!(ban_minutes(999, 999, 999), 999 * 1440 + 999 * 60 + 999);
}

#[test]
fn split_time_left_parts() {
    assert_eq!(split_time_left(90_061_001), left(1, 1, 1, 1));
    assert_eq!(split_time_left(0), left(0, 0, 0, 0));
    assert_eq!(split_time_left(999), left(0, 0, 0, 0));
    assert_eq!(split_time_left(86_399_999), left(0, 23, 59, 59));
}

#[test]
fn status_at_active_and_expired() {
    assert_eq!(ban_status_at(1, 0, 0, 0, 1000), BanStatus::Active(left(0, 23, 59, 59)));
    assert_eq!(ban_status_at(1, 0, 0, 0, 86_400_000), BanStatus::Expired);
    assert_eq!(ban_status_at(0, 0, 1, 0, 60_001), BanStatus::Expired);
    assert_eq!(ban_status_at(0, 2, 0, 1_000, 1_000), BanStatus::Active(left(0, 2, 0, 0)));
}

#[test]
fn status_of_accounts() {
    assert_eq!(ban_status(&user("a", false, None), 0), Ok(BanStatus::NotBanned));
    let u = user("b", true, Some(ban("1", "0", "0", EPOCH)));
    assert_eq!(ban_status(&u, 1000), Ok(BanStatus::Active(left(0, 23, 59, 59))));
    assert_eq!(ban_status(&u, 86_400_000), Ok(BanStatus::Expired));
    // A sign is accepted by the number parser.
    let neg = user("c", true, Some(ban("-1", "0", "0", EPOCH)));
    assert_eq!(ban_status(&neg, 0), Ok(BanStatus::Expired));
    // The offset of the start date counts.
    let east = user("d", true, Some(ban("0", "1", "0", "Thu, 01 Jan 1970 01:00:00 +0100")));
    assert_eq!(ban_status(&east, 0), Ok(BanStatus::Active(left(0, 1, 0, 0))));
}

#[test]
fn status_errors() {
    assert_eq!(ban_status(&user("a", true, None), 0), Err(BanError::MissingBan));
    let bad_days = user("b", true, Some(ban("x", "0", "0", EPOCH)));
    assert_eq!(ban_status(&bad_days, 0), Err(BanError::BadNumber));
    let empty_mins = user("b", true, Some(ban("1", "0", "", EPOCH)));
    assert_eq!(ban_status(&empty_mins, 0), Err(BanError::BadNumber));
    let fraction = user("b", true, Some(ban("¾", "0", "0", EPOCH)));
    assert_eq!(ban_status(&fraction, 0), Err(BanError::BadNumber));
    let bad_start = user("c", true, Some(ban("1", "0", "0", "0")));
    assert_eq!(ban_status(&bad_start, 0), Err(BanError::BadStart));
    let too_long = user("d", true, Some(ban("99999999", "0", "0", EPOCH)));
    assert_eq!(ban_status(&too_long, 0), Err(BanError::Overflow));
    let far_past = user("e", true, Some(ban("0", "0", "0", EPOCH)));
    assert_eq!(ban_status(&far_past, i64::MIN), Err(BanError::Overflow));
}

#[test]
fn review_lifts_expired_bans() {
    let mut users = vec![
        user("free", false, None),
        user("done", true, Some(ban("0", "0", "1", EPOCH))),
        user("running", true, Some(ban("1", "0", "0", EPOCH))),
    ];
    let r = review_users(&mut users, 120_000);
    assert_eq!(
        r,
        (
            true,
            vec![BanStatus::NotBanned, BanStatus::Expired, BanStatus::Active(left(0, 23, 58, 0))]
        )
    );
    assert_eq!(users[1], user("done", false, None));
    assert_eq!(users[2], user("running", true, Some(ban("1", "0", "0", EPOCH))));
}

#[test]
fn review_twice_changes_nothing() {
    let mut users = vec![
        user("done", true, Some(ban("0", "0", "1", EPOCH))),
        user("running", true, Some(ban("1", "0", "0", EPOCH))),
    ];
    let first = review_users(&mut users, 120_000);
    assert!(first.0);
    let after_first = vec![copy_user(&users[0]), copy_user(&users[1])];
    let second = try_review_users(&mut users, 120_000);
    assert!(matches!(second, Ok((false, _))));
    assert_eq!(users, after_first);
}

#[test]
fn review_error_leaves_list() {
    let mut users = vec![
        user("done", true, Some(ban("0", "0", "1", EPOCH))),
        user("broken", true, Some(ban("1", "0", "0", "not a date"))),
    ];
    let r = try_review_users(&mut users, 120_000);
    assert_eq!(r, Err(BanError::BadStart));
    assert_eq!(users[0], user("done", true, Some(ban("0", "0", "1", EPOCH))));
}

#[test]
fn expiry_persists_later() {
    let u = user("done", true, Some(ban("0", "0", "1", EPOCH)));
    assert_eq!(ban_status(&u, 60_000), Ok(BanStatus::Expired));
    assert_eq!(ban_status(&u, 10_000_000), Ok(BanStatus::Expired));
    assert_eq!(ban_status(&u, 59_999), Ok(BanStatus::Active(left(0, 0, 0, 0))));
}

#[test]
fn display_users_reads_the_clock() {
    let mut users = vec![
        user("old", true, Some(ban("1", "0", "0", EPOCH))),
        user("free", false, None),
    ];
    let r = display_users(&mut users);
    assert_eq!(r, Ok((true, vec![BanStatus::Expired, BanStatus::NotBanned])));
    assert_eq!(users[0], user("old", false, None));
}

#[test]
fn fill_count_entries() {
    assert_eq!(fill_count(&String::new()), "0");
    assert_eq!(fill_count(&"12".to_string()), "12");
}

#[test]
fn numeric_checks() {
    assert!(text_all_numeric(&"0123".to_string()));
    assert!(text_all_numeric(&"٣¾".to_string()));
    assert!(!text_all_numeric(&"1a".to_string()));
    assert!(!text_all_numeric(&"-1".to_string()));
    assert!(text_all_numeric(&String::new()));
}

#[test]
fn new_count_rules() {
    assert!(new_count_accepted(&"123".to_string()));
    assert!(!new_count_accepted(&"1234".to_string()));
    assert!(!new_count_accepted(&"1a".to_string()));
    assert!(new_count_accepted(&String::new()));
    assert!(new_count_accepted(&"٣".to_string()));
    assert!(new_ban_accepted(&ban("1", "2", "3", "x")));
    assert!(!new_ban_accepted(&ban("1", "2", "3333", "x")));
}

#[test]
fn form_ban_fills_empty_counts() {
    let form = ban("", "5", "", "");
    let b = ban_from_form(&form, EPOCH.to_string());
    assert_eq!(b, ban("0", "5", "0", EPOCH));
}

#[test]
fn default_window_state() {
    let app = TemplateApp::default();
    assert_eq!(app.label, "Hello World!");
    assert!(!app.popup && !app.edit_popup && !app.confirmation_popup);
    assert!(!app.confirmation_popup_closer);
    assert_eq!(app.user, user("", false, None));
    assert_eq!(app.ban, ban("", "", "", ""));
    assert!(app.users.is_empty());
    assert_eq!(app.selected, 0);
}

#[test]
fn add_account_flow() {
    let mut app = TemplateApp::default();
    app.user = user("smurf", true, None);
    app.ban = ban("2", "", "30", "");
    app.prepare_new_ban(EPOCH.to_string());
    assert_eq!(app.user.ban, Some(ban("2", "0", "30", EPOCH)));
    assert!(app.save_new_account());
    assert_eq!(app.users, vec![user("smurf", true, Some(ban("2", "0", "30", EPOCH)))]);
}

#[test]
fn add_account_rejected() {
    let mut app = TemplateApp::default();
    app.user = user("smurf", true, None);
    app.ban = ban("1000", "0", "0", "");
    app.prepare_new_ban(EPOCH.to_string());
    assert!(!app.save_new_account());
    assert!(app.users.is_empty());
    app.user = user("plain", false, None);
    assert!(app.save_new_account());
    assert_eq!(app.users.len(), 1);
}

#[test]
fn stamp_new_ban_uses_a_readable_date() {
    let mut app = TemplateApp::default();
    app.user = user("smurf", true, None);
    app.ban = ban("1", "", "", "");
    app.stamp_new_ban();
    let b = app.user.ban.as_ref().unwrap();
    assert_eq!((b.days.as_str(), b.hours.as_str(), b.mins.as_str()), ("1", "0", "0"));
    let status = ban_status(&app.user, 0);
    assert!(matches!(status, Ok(BanStatus::Active(_))));
    let mut free = TemplateApp::default();
    free.stamp_new_ban();
    assert_eq!(free.user.ban, None);
}

#[test]
fn update_smurfs_with_tidies() {
    let mut users = vec![
        user("a", true, Some(ban("", "2", "", "0"))),
        user("b", true, Some(ban("1", "", "", EPOCH))),
        user("c", false, Some(ban("", "", "", "0"))),
    ];
    let stamp = "Fri, 02 Jan 1970 00:00:00 +0000".to_string();
    assert!(update_smurfs_with(&mut users, &stamp));
    assert_eq!(users[0], user("a", true, Some(ban("0", "2", "0", &stamp))));
    assert_eq!(users[1], user("b", true, Some(ban("1", "0", "0", EPOCH))));
    assert_eq!(users[2], user("c", false, Some(ban("", "", "", "0"))));
    let before = vec![copy_user(&users[0]), copy_user(&users[1]), copy_user(&users[2])];
    assert!(update_smurfs_with(&mut users, &"later".to_string()));
    assert_eq!(users, before);
}

#[test]
fn update_smurfs_refuses() {
    let mut bad = vec![user("a", true, Some(ban("1x", "0", "0", EPOCH)))];
    assert!(!update_smurfs_with(&mut bad, &EPOCH.to_string()));
    let mut empty: Vec<User> = Vec::new();
    assert!(!update_smurfs_with(&mut empty, &EPOCH.to_string()));
    let mut long = vec![user("a", true, Some(ban("12345", "0", "0", EPOCH)))];
    assert!(update_smurfs_with(&mut long, &EPOCH.to_string()));
}

#[test]
fn update_smurfs_stamps_from_clock() {
    let mut users = vec![user("a", true, Some(ban("1", "0", "0", "0")))];
    assert!(update_smurfs(&mut users));
    let b = users[0].ban.as_ref().unwrap();
    assert_ne!(b.start, "0");
    assert!(matches!(ban_status(&users[0], 0), Ok(BanStatus::Active(_))));
}

#[test]
fn new_account_passes_save_check() {
    let mut app = TemplateApp::default();
    app.user = user("smurf", true, None);
    app.ban = ban("", "12", "", "");
    app.prepare_new_ban(EPOCH.to_string());
    assert!(app.save_new_account());
    assert!(update_smurfs_with(&mut app.users, &EPOCH.to_string()));
}

#[test]
fn ensure_ban_present_cases() {
    let mut u = user("a", true, None);
    ensure_ban_present(&mut u);
    assert_eq!(u.ban, Some(ban("0", "0", "0", "0")));
    let mut v = user("b", false, None);
    ensure_ban_present(&mut v);
    assert_eq!(v.ban, None);
    let mut w = user("c", true, Some(ban("1", "2", "3", EPOCH)));
    ensure_ban_present(&mut w);
    assert_eq!(w.ban, Some(ban("1", "2", "3", EPOCH)));
}

#[test]
fn delete_selected_cases() {
    let mut users = vec![user("a", false, None), user("b", false, None), user("c", false, None)];
    delete_selected(&mut users, 1);
    assert_eq!(users, vec![user("a", false, None), user("c", false, None)]);
    let mut one = vec![user("a", false, None)];
    delete_selected(&mut one, 5);
    assert!(one.is_empty());
}

#[test]
fn edit_names_in_order() {
    let users = vec![user("x", false, None), user("y", true, None)];
    assert_eq!(edit_names(&users), vec!["x".to_string(), "y".to_string()]);
}

#[test]
fn number_texts_follow_the_i32_grammar() {
    let at = |d: &str| ban_status(&user("a", true, Some(ban(d, "0", "0", EPOCH))), 0);
    assert_eq!(at("+1"), Ok(BanStatus::Active(left(1, 0, 0, 0))));
    assert_eq!(at("001"), Ok(BanStatus::Active(left(1, 0, 0, 0))));
    assert_eq!(at("-0"), Ok(BanStatus::Expired));
    assert_eq!(at("-"), Err(BanError::BadNumber));
    assert_eq!(at("+"), Err(BanError::BadNumber));
    assert_eq!(at(" 1"), Err(BanError::BadNumber));
    assert_eq!(at("٣"), Err(BanError::BadNumber));
    assert_eq!(at("2147483648"), Err(BanError::BadNumber));
    assert_eq!(at("2147483647"), Err(BanError::Overflow));
}

#[test]
fn save_twice_changes_nothing() {
    let mut users = vec![
        user("a", true, Some(ban("", "1", "", "0"))),
        user("b", false, None),
    ];
    assert!(update_smurfs(&mut users));
    let first = vec![copy_user(&users[0]), copy_user(&users[1])];
    assert_ne!(users[0].ban.as_ref().unwrap().start, "0");
    assert!(update_smurfs(&mut users));
    assert_eq!(users, first);
}

#[test]
fn edit_window_flags() {
    let users = vec![user("a", false, None)];
    let empty: Vec<User> = Vec::new();
    let mut popup = false;
    open_edit_window(true, &empty, &mut popup);
    assert!(!popup);
    open_edit_window(false, &users, &mut popup);
    assert!(!popup);
    open_edit_window(true, &users, &mut popup);
    assert!(popup);
    let (mut closer, mut confirmation) = (false, true);
    after_edit_window(false, &mut closer, &mut confirmation);
    assert!(!closer && !confirmation);
    after_edit_window(true, &mut closer, &mut confirmation);
    assert!(closer && confirmation);
    after_edit_window(false, &mut closer, &mut confirmation);
    assert!(closer && confirmation);
}

#[test]
fn confirm_delete_removes_and_tidies() {
    let mut users = vec![
        user("a", true, None),
        user("b", true, Some(ban("", "2", "", EPOCH))),
    ];
    let mut closer = true;
    assert!(confirm_delete(&mut users, 0, &mut closer));
    assert!(!closer);
    assert_eq!(users, vec![user("b", true, Some(ban("0", "2", "0", EPOCH)))]);
    let mut closer = true;
    assert!(!confirm_delete(&mut users, 7, &mut closer));
    assert!(users.is_empty() && !closer);
}

#[test]
fn display_users_errors_only_on_unreadable_records() {
    let mut users = vec![
        user("future", true, Some(ban("1", "0", "0", "Fri, 31 Dec 9999 23:59:59 +0000"))),
        user("free", false, None),
    ];
    let copy = users.clone();
    let r = display_users(&mut users);
    assert!(matches!(r, Ok((false, ref st)) if matches!(st[0], BanStatus::Active(_))));
    assert_eq!(users, copy);
    let mut broken = vec![user("a", true, None)];
    assert_eq!(display_users(&mut broken), Err(BanError::MissingBan));
    let mut bad_count = vec![user("a", true, Some(ban("1x", "0", "0", EPOCH)))];
    assert_eq!(display_users(&mut bad_count), Err(BanError::BadNumber));
}
