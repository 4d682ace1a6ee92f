use cloud_files::db::{first_admin, QueryResult};
use cloud_files::handlers::admin::{
    add_user, blanked, delete_user, get_user_by_id, get_users, may_update_user, update_user,
    user_added, user_deleted, user_updated, with_hash,
};
use cloud_files::handlers::login::{check_login, let_in, login};
use cloud_files::handlers::user::{get_me, me_updated, update_me};
use cloud_files::jwt::Bearer;
use cloud_files::middleware::AccessTier;
use cloud_files::models::{ChangingUser, Claims, User};
use cloud_files::reserr::ResErr;

fn user(id: u32, pass: &str, status: u8) -> User {
    User {
        id,
        name: format!("user{}", id),
        email: format!("user{}@example.com", id),
        pass: pass.to_string(),
        size: 50,
        path: format!("/user{}", id),
        status,
    }
}

// the hash of "correctbatteryhorsestapler", with cost 4
const HASH: &str = "$2b$04$EGdrhbKUv8Oc9vGiXX0HQOxSg445d458Muh7DAHskb6QbtCvdxcie";

#[test]
fn a_query_result_gives_up_what_it_holds() {
    assert_eq!(QueryResult::Many(vec![1, 2, 3]).many(), vec![1, 2, 3]);
    assert_eq!(QueryResult::One("row").one(), "row");
    assert_eq!(QueryResult::<u8>::Nothing(()).none(), ());
}

#[test]
fn a_fresh_store_starts_with_one_administrator() {
    let admin = first_admin("hashed".to_string());
    assert_eq!(admin.name, "admin");
    assert_eq!(admin.email, "admin@admin.com");
    assert_eq!(admin.pass, "hashed");
    assert_eq!(admin.size, u32::MAX);
    assert_eq!(admin.path, "/");
    assert_eq!(admin.status, 1);
    assert_eq!(AccessTier::from_status(admin.status), AccessTier::Admin);
}

#[test]
fn login_takes_the_right_password() {
    let found = Some(user(42, HASH, 3));
    assert_eq!(login(found, "correctbatteryhorsestapler"), Ok(42));
}

#[test]
fn login_refuses_a_wrong_password() {
    let found = Some(user(42, HASH, 3));
    assert_eq!(login(found, "wrong"), Err(ResErr::BadClientData("bad email or password")));
    // the hash itself is no password
    assert_eq!(
        login(Some(user(42, HASH, 3)), HASH),
        Err(ResErr::BadClientData("bad email or password"))
    );
}

#[test]
fn login_refuses_an_unknown_email_and_an_unreadable_hash_alike() {
    assert_eq!(login(None, "any"), Err(ResErr::BadClientData("bad email or password")));
    let found = Some(user(42, "not a hash", 3));
    assert_eq!(login(found, "not a hash"), Err(ResErr::BadClientData("bad email or password")));
}

#[test]
fn let_in_takes_a_checked_password_only() {
    assert_eq!(let_in(5, Some(true)), Ok(5));
    assert_eq!(let_in(5, Some(false)), Err(ResErr::BadClientData("bad email or password")));
    assert_eq!(let_in(5, None), Err(ResErr::BadClientData("bad email or password")));
}

#[test]
fn check_login_hands_the_claims_back() {
    assert_eq!(
        check_login(Bearer::Verified(Claims { id: 9, exp: 77 })),
        Ok(Claims { id: 9, exp: 77 })
    );
    assert_eq!(check_login(Bearer::Absent), Err(ResErr::BadClientData("token not found")));
    assert_eq!(check_login(Bearer::Rejected), Err(ResErr::BadClientData("invalid token")));
}

#[test]
fn accounts_are_shown_without_their_passwords() {
    let shown = blanked(user(3, "secret", 2));
    assert_eq!(shown, user(3, "", 2));
    assert_eq!(get_user_by_id(user(4, "secret", 1)), user(4, "", 1));
    assert_eq!(get_me(user(5, "secret", 0)), user(5, "", 0));
}

#[test]
fn the_list_of_accounts_blanks_every_password_but_the_first() {
    let shown = get_users(vec![user(1, "first", 1), user(2, "second", 2), user(3, "third", 3)]);
    assert_eq!(shown, vec![user(1, "first", 1), user(2, "", 2), user(3, "", 3)]);
    assert_eq!(get_users(vec![user(1, "first", 1)]), vec![user(1, "first", 1)]);
}

#[test]
fn no_administrator_is_added() {
    assert_eq!(add_user(user(0, "Passw0rd", 1), true), Err(ResErr::BadClientData("cant create admin")));
    assert_eq!(add_user(user(0, "Passw0rd", 1), false), Err(ResErr::BadClientData("cant create admin")));
}

#[test]
fn an_account_that_is_not_valid_is_not_added() {
    assert_eq!(add_user(user(0, "short", 3), false), Err(ResErr::BadClientData("no valid input")));
}

#[test]
fn an_added_account_carries_the_hash_of_its_password() {
    let prepared = add_user(user(0, "Passw0rd", 3), true).unwrap();
    assert_ne!(prepared.pass, "Passw0rd");
    assert!(bcrypt::verify("Passw0rd", &prepared.pass).unwrap());
    assert!(!bcrypt::verify("passw0rd", &prepared.pass).unwrap());
    assert_eq!(prepared, User { pass: prepared.pass.clone(), ..user(0, "Passw0rd", 3) });
    // the hash can be logged in with
    assert_eq!(login(Some(prepared), "Passw0rd"), Ok(0));
}

#[test]
fn with_hash_puts_the_hash_in_or_fails() {
    assert_eq!(
        with_hash(user(1, "plain", 2), Some("hashed".to_string()), "bad hash"),
        Ok(user(1, "hashed", 2))
    );
    assert_eq!(
        with_hash(user(1, "plain", 2), None, "bad hash"),
        Err(ResErr::InternalError("bad hash"))
    );
}

#[test]
fn no_administrator_is_deleted() {
    assert_eq!(delete_user(Some(user(1, "p", 1))), Err(ResErr::BadClientData("cant delete admin")));
    assert_eq!(delete_user(Some(user(2, "p", 2))), Ok(()));
    assert_eq!(delete_user(Some(user(2, "p", 0))), Ok(()));
    assert_eq!(delete_user(None), Err(ResErr::BadClientData("cant get user")));
}

#[test]
fn an_update_is_checked_before_the_store_is_asked() {
    assert_eq!(may_update_user(&user(2, "p", 2), true), Ok(()));
    assert_eq!(
        may_update_user(&user(2, "p", 2), false),
        Err(ResErr::BadClientData("no valid input"))
    );
    assert_eq!(
        may_update_user(&user(2, "p", 1), false),
        Err(ResErr::BadClientData("no valid input"))
    );
    assert_eq!(
        may_update_user(&user(2, "p", 1), true),
        Err(ResErr::BadClientData("cant add admin"))
    );
}

#[test]
fn no_administrator_is_updated() {
    assert_eq!(
        update_user(user(1, "Passw0rd", 2), Some(user(1, "old", 1))),
        Err(ResErr::BadClientData("cant update admin"))
    );
    assert_eq!(
        update_user(user(1, "Passw0rd", 2), None),
        Err(ResErr::BadClientData("cant get user"))
    );
}

#[test]
fn an_updated_account_carries_the_hash_of_its_new_password() {
    let prepared = update_user(user(6, "NewPassw0rd", 4), Some(user(6, "old", 3))).unwrap();
    assert!(bcrypt::verify("NewPassw0rd", &prepared.pass).unwrap());
    assert_eq!(prepared, User { pass: prepared.pass.clone(), ..user(6, "NewPassw0rd", 4) });
}

#[test]
fn a_change_that_breaks_a_rule_is_refused_with_the_words_of_the_rule() {
    let change = ChangingUser {
        name: "bob".to_string(),
        email: "bob@example.com".to_string(),
        pass: "Passw0rd".to_string(),
    };
    assert_eq!(
        update_me(change, Some("name min 4 max 20 letters".to_string())),
        Err(ResErr::BadClientDataOwned("name min 4 max 20 letters".to_string()))
    );
}

#[test]
fn a_change_carries_the_hash_of_its_password() {
    let change = ChangingUser {
        name: "robert".to_string(),
        email: "bob@example.com".to_string(),
        pass: "Passw0rd".to_string(),
    };
    let prepared = update_me(change, None).unwrap();
    assert_eq!(prepared.name, "robert");
    assert_eq!(prepared.email, "bob@example.com");
    assert_ne!(prepared.pass, "Passw0rd");
    assert!(bcrypt::verify("Passw0rd", &prepared.pass).unwrap());
}

#[test]
fn the_store_s_answers_are_passed_on_in_words() {
    assert_eq!(user_added(true), Ok("user added"));
    assert_eq!(user_added(false), Err(ResErr::BadClientData("cant add user")));
    assert_eq!(user_deleted(true), Ok("user deleted"));
    assert_eq!(user_deleted(false), Err(ResErr::BadClientData("cant delete user")));
    assert_eq!(user_updated(true), Ok("user updated"));
    assert_eq!(user_updated(false), Err(ResErr::BadClientData("cant update user")));
    assert_eq!(me_updated(true), Ok("updated"));
    assert_eq!(me_updated(false), Err(ResErr::BadClientData("cant update")));
}
