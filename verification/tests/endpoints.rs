//! Tests for the per-endpoint request builders: the local authorization
//! check, the URL, the method and the body of each built request.

use fractal_api::envelope::{Auth, Method};
use fractal_api::error::Error;
use fractal_api::oauth::AccessToken;
use fractal_api::scope::Scope;
use fractal_api::types::{Address, Amount, Date, Relationship, WalletAddress};
use fractal_api::Client;
use fractal_api::{FRACTAL_DEV_SERVER, FRACTAL_SERVER};

fn client() -> Client {
    Client::new_with_url("https://example.org/")
}

fn public_token() -> AccessToken {
    AccessToken::from_data(
        "app".to_string(),
        vec![Scope::Public],
        "pub-tok".to_string(),
        i64::MAX,
    )
}

fn user_token(id: u64) -> AccessToken {
    AccessToken::from_data(
        "app".to_string(),
        vec![Scope::User(id)],
        "user-tok".to_string(),
        i64::MAX,
    )
}

fn admin_token() -> AccessToken {
    AccessToken::from_data(
        "app".to_string(),
        vec![Scope::Admin],
        "admin-tok".to_string(),
        i64::MAX,
    )
}

fn bearer(token: &str) -> Auth {
    Auth::Bearer {
        token: token.to_string(),
    }
}

#[test]
fn the_default_clients_point_at_the_versioned_servers() {
    assert_eq!(FRACTAL_SERVER, "https://api.fractal.global/");
    assert_eq!(FRACTAL_DEV_SERVER, "https://dev.fractal.global/");
    assert_eq!(Client::new().url, "https://api.fractal.global/v1/");
    assert_eq!(Client::new_dev().url, "https://dev.fractal.global/v1/");
    assert_eq!(client().url, "https://example.org/v1/");
}

#[test]
fn register_builds_its_request() {
    let q = client()
        .register(&public_token(), "u", "p", "e@x.com", None)
        .unwrap();
    assert_eq!(q.method, Method::Post);
    assert_eq!(q.url, "https://example.org/v1/register");
    assert_eq!(q.auth, bearer("pub-tok"));
    assert_eq!(
        q.body.unwrap(),
        "{\"email\":\"e@x.com\",\"password\":\"p\",\"referer\":null,\"username\":\"u\"}"
    );
}

#[test]
fn register_without_a_public_scope_is_forbidden() {
    let r = client().register(&user_token(1), "u", "p", "e", None);
    assert_eq!(
        r.unwrap_err(),
        Error::Forbidden("the token must be an unexpired public token".to_string())
    );
}

#[test]
fn login_builds_its_request() {
    let q = client()
        .login(&public_token(), "e@x.com", "pw", true)
        .unwrap();
    assert_eq!(q.method, Method::Post);
    assert_eq!(q.url, "https://example.org/v1/login");
    assert_eq!(
        q.body.unwrap(),
        "{\"password\":\"pw\",\"remember_me\":true,\"user_email\":\"e@x.com\"}"
    );
}

#[test]
fn confirm_email_embeds_its_key_in_the_path() {
    let q = client().confirm_email(&public_token(), "KEY42").unwrap();
    assert_eq!(q.method, Method::Post);
    assert_eq!(q.url, "https://example.org/v1/confirm_email/KEY42");
    assert_eq!(q.body, None);
    let q = client().unconfirm_email(&public_token(), "KEY42").unwrap();
    assert_eq!(q.url, "https://example.org/v1/unconfirm_email/KEY42");
}

#[test]
fn the_password_reset_pair_builds_its_requests() {
    let q = client()
        .start_reset_password(&public_token(), "e@x.com")
        .unwrap();
    assert_eq!(q.url, "https://example.org/v1/start_reset_password");
    assert_eq!(q.body.unwrap(), "{\"email\":\"e@x.com\"}");
    let q = client()
        .reset_password(&public_token(), "PKEY", "newpw")
        .unwrap();
    assert_eq!(q.url, "https://example.org/v1/reset_password/PKEY");
    assert_eq!(q.body.unwrap(), "{\"new_password\":\"newpw\"}");
}

#[test]
fn the_subscription_calls_skip_the_expiry_check() {
    let expired_public = AccessToken::from_data(
        "app".to_string(),
        vec![Scope::Public],
        "pub-tok".to_string(),
        0,
    );
    let q = client()
        .subscribe_email(&expired_public, "e@x.com", "Ann")
        .unwrap();
    assert_eq!(q.url, "https://example.org/v1/subscribe_email");
    assert_eq!(
        q.body.unwrap(),
        "{\"password\":\"Ann\",\"remember_me\":false,\"user_email\":\"e@x.com\"}"
    );
    let q = client()
        .confirm_subscribe_email(&expired_public, "K")
        .unwrap();
    assert_eq!(q.url, "https://example.org/v1/confirm_subscribe_email/K");
}

#[test]
fn get_next_reward_value_embeds_the_user_id() {
    let q = client().get_next_reward_value(&user_token(5), 9).unwrap();
    assert_eq!(q.method, Method::Get);
    assert_eq!(q.url, "https://example.org/v1/get_next_reward/9");
}

#[test]
fn get_user_accepts_the_matching_user_or_an_admin() {
    let q = client().get_user(&user_token(3), 3).unwrap();
    assert_eq!(q.method, Method::Get);
    assert_eq!(q.url, "https://example.org/v1/user/3");
    let q = client().get_user(&admin_token(), 3).unwrap();
    assert_eq!(q.url, "https://example.org/v1/user/3");
    let r = client().get_user(&user_token(4), 3);
    assert_eq!(
        r.unwrap_err(),
        Error::Forbidden(
            "the token must be an unexpired admin or user token, and in the case of a user \
             token, the ID in the token must match the given ID"
                .to_string()
        )
    );
}

#[test]
fn get_me_uses_the_id_carried_by_the_token() {
    let q = client().get_me(&user_token(12345)).unwrap();
    assert_eq!(q.url, "https://example.org/v1/user/12345");
    let r = client().get_me(&admin_token());
    assert_eq!(
        r.unwrap_err(),
        Error::Forbidden("the token must be an unexpired user token".to_string())
    );
}

#[test]
fn the_admin_listings_need_an_admin_token() {
    let q = client().get_all_users(&admin_token()).unwrap();
    assert_eq!(q.url, "https://example.org/v1/all_users");
    let r = client().get_all_users(&user_token(1));
    assert_eq!(
        r.unwrap_err(),
        Error::Forbidden("the token must be an unexpired admin token".to_string())
    );
    let q = client().delete_user(&admin_token(), 8).unwrap();
    assert_eq!(q.method, Method::Delete);
    assert_eq!(q.url, "https://example.org/v1/user/8");
    let q = client().get_all_transactions(&admin_token(), 42).unwrap();
    assert_eq!(q.url, "https://example.org/v1/all_transactions/42");
}

#[test]
fn the_authenticator_calls_build_their_requests() {
    let q = client()
        .generate_authenticator_code(&user_token(1))
        .unwrap();
    assert_eq!(q.url, "https://example.org/v1/generate_authenticator_code");
    let q = client().authenticate(&user_token(1), 123456).unwrap();
    assert_eq!(q.url, "https://example.org/v1/authenticate");
    assert_eq!(q.body.unwrap(), "{\"code\":123456}");
}

#[test]
fn set_username_updates_only_the_username() {
    let q = client()
        .set_username(&user_token(3), 3, "bob")
        .unwrap();
    assert_eq!(q.method, Method::Post);
    assert_eq!(q.url, "https://example.org/v1/update_user/3");
    assert_eq!(
        q.body.unwrap(),
        "{\"new_address\":null,\"new_birthday\":null,\"new_email\":null,\"new_first\":null,\
         \"new_image\":null,\"new_last\":null,\"new_password\":null,\"new_phone\":null,\
         \"new_username\":\"bob\",\"old_password\":null}"
    );
}

#[test]
fn the_other_setters_update_only_their_fields() {
    let q = client().set_phone(&user_token(3), 3, "555").unwrap();
    assert!(q.body.unwrap().contains("\"new_phone\":\"555\""));
    let q = client().set_email(&admin_token(), 3, "e@x.com").unwrap();
    assert!(q.body.unwrap().contains("\"new_email\":\"e@x.com\""));
    let q = client().set_image(&user_token(3), 3, "http://i").unwrap();
    assert!(q.body.unwrap().contains("\"new_image\":\"http://i\""));
    let q = client().set_name(&user_token(3), 3, "Ann", "Lee").unwrap();
    let body = q.body.unwrap();
    assert!(body.contains("\"new_first\":\"Ann\""));
    assert!(body.contains("\"new_last\":\"Lee\""));
}

#[test]
fn set_birthday_writes_the_date_as_iso_text() {
    let q = client()
        .set_birthday(&user_token(3), 3, Date::new(1990, 5, 7).unwrap())
        .unwrap();
    assert!(q.body.unwrap().contains("\"new_birthday\":\"1990-05-07\""));
}

#[test]
fn set_address_writes_the_whole_address_object() {
    let address = Address::new(
        "1 Main St".to_string(),
        None,
        "Springfield".to_string(),
        "IL".to_string(),
        "62701".to_string(),
        "US".to_string(),
    );
    let q = client()
        .set_address(&user_token(3), 3, address)
        .unwrap();
    assert!(q.body.unwrap().contains(
        "\"new_address\":{\"address1\":\"1 Main St\",\"address2\":null,\
         \"city\":\"Springfield\",\"country\":\"US\",\"state\":\"IL\",\"zip\":\"62701\"}"
    ));
}

#[test]
fn set_password_uses_the_id_carried_by_the_token() {
    let q = client()
        .set_password(&user_token(9), "old", "new")
        .unwrap();
    assert_eq!(q.url, "https://example.org/v1/update_user/9");
    let body = q.body.unwrap();
    assert!(body.contains("\"old_password\":\"old\""));
    assert!(body.contains("\"new_password\":\"new\""));
}

#[test]
fn a_setter_refuses_a_mismatched_user_token() {
    let r = client().set_phone(&user_token(4), 3, "555");
    assert!(matches!(r.unwrap_err(), Error::Forbidden(_)));
}

#[test]
fn search_user_random_builds_the_full_criteria_object() {
    let q = client()
        .search_user_random(&user_token(1), "ann", true, false)
        .unwrap();
    assert_eq!(q.url, "https://example.org/v1/search_user");
    assert_eq!(
        q.body.unwrap(),
        "{\"age\":null,\"all\":false,\"city\":null,\"country\":null,\"email\":null,\
         \"first_name\":null,\"include_friends\":false,\"include_me\":true,\"last_name\":null,\
         \"phone\":null,\"random\":\"ann\",\"state\":null,\"username\":null}"
    );
    let q = client()
        .search_user_random(&public_token(), "ann", false, false)
        .unwrap();
    assert_eq!(q.url, "https://example.org/v1/search_user");
}

#[test]
fn the_friend_request_calls_build_their_requests() {
    let q = client()
        .send_friend_request(&user_token(2), 5, Relationship::Friend, Some("hello"))
        .unwrap();
    assert_eq!(q.url, "https://example.org/v1/create_friend_request");
    assert_eq!(
        q.body.unwrap(),
        "{\"destination_id\":5,\"message\":\"hello\",\"origin_id\":2,\
         \"relationship\":\"Friend\"}"
    );
    let q = client()
        .confirm_friend_request(&user_token(2), 77, 5)
        .unwrap();
    assert_eq!(q.url, "https://example.org/v1/confirm_friend_request");
    assert_eq!(
        q.body.unwrap(),
        "{\"destination\":2,\"origin\":5,\"request_id\":77}"
    );
    let q = client().get_friend_requests(&user_token(2), 2).unwrap();
    assert_eq!(q.url, "https://example.org/v1/friend_requests/2");
    let q = client().get_friends(&admin_token(), 2).unwrap();
    assert_eq!(q.url, "https://example.org/v1/friends/2");
    let q = client().reject_friend_request(&user_token(2), 77).unwrap();
    assert_eq!(q.url, "https://example.org/v1/reject_friend_request/77");
    let q = client().unfriend(&user_token(2), 77).unwrap();
    assert_eq!(q.method, Method::Delete);
    assert_eq!(q.url, "https://example.org/v1/friend/77");
}

#[test]
fn get_friends_refuses_a_mismatched_user_token() {
    let r = client().get_friends(&user_token(3), 2);
    assert_eq!(
        r.unwrap_err(),
        Error::Forbidden(
            "the token must be an unexpired user or admin token, and in the case of an user \
             token, the ID in the token must be the same as the given ID"
                .to_string()
        )
    );
}

#[test]
fn the_transaction_calls_build_their_requests() {
    let q = client().get_transaction(&user_token(1), 99).unwrap();
    assert_eq!(q.url, "https://example.org/v1/transaction/99");
    let q = client().get_transaction(&admin_token(), 99).unwrap();
    assert_eq!(q.url, "https://example.org/v1/transaction/99");
    let r = client().get_transaction(&public_token(), 99);
    assert_eq!(
        r.unwrap_err(),
        Error::Forbidden("the token must be an unexpired admin or user token".to_string())
    );

    let q = client()
        .new_transaction(
            &user_token(2),
            WalletAddress::new("fr111111111".to_string()),
            5,
            Amount::from_repr(1654),
        )
        .unwrap();
    assert_eq!(q.url, "https://example.org/v1/new_transaction");
    assert_eq!(
        q.body.unwrap(),
        "{\"amount\":1654,\"destination_address\":\"fr111111111\",\"destination_id\":5,\
         \"origin_id\":2}"
    );

    let q = client()
        .authenticate_transaction(&user_token(2), "TKEY", 654321)
        .unwrap();
    assert_eq!(q.url, "https://example.org/v1/authenticate_transaction/TKEY");
    assert_eq!(q.body.unwrap(), "{\"code\":654321}");

    let q = client()
        .get_user_id_from_wallet_address(&user_token(2), "fr111111111")
        .unwrap();
    assert_eq!(
        q.url,
        "https://example.org/v1/check_wallet_address/fr111111111"
    );
    assert_eq!(q.body, None);
}

#[test]
fn the_clock_instant_variants_decide_expiry_exactly() {
    let t = AccessToken::from_data(
        "app".to_string(),
        vec![Scope::User(3)],
        "tok".to_string(),
        100,
    );
    let q = client().set_username_at(&t, 3, "bob", 99).unwrap();
    assert_eq!(q.url, "https://example.org/v1/update_user/3");
    let r = client().set_username_at(&t, 3, "bob", 100);
    assert!(matches!(r.unwrap_err(), Error::Forbidden(_)));

    let p = AccessToken::from_data(
        "app".to_string(),
        vec![Scope::Public],
        "tok".to_string(),
        100,
    );
    assert!(client().register_at(&p, "u", "p", "e", None, 99).is_ok());
    assert!(client().register_at(&p, "u", "p", "e", None, 100).is_err());
    assert!(client().login_at(&p, "e", "p", false, 99).is_ok());

    let a = AccessToken::from_data(
        "app".to_string(),
        vec![Scope::Admin],
        "tok".to_string(),
        100,
    );
    assert!(client().create_client_at(&a, "c", vec![Scope::Public], None, 99).is_ok());
    assert!(client().create_client_at(&a, "c", vec![Scope::Public], None, 100).is_err());
    assert!(client().get_all_users_at(&a, 99).is_ok());
    assert!(client().delete_user_at(&a, 7, 99).is_ok());
    assert!(client().get_friends_at(&t, 3, 99).is_ok());
    assert!(client().get_friends_at(&t, 3, 101).is_err());
    assert!(client().get_transaction_at(&t, 5, 99).is_ok());
    assert!(client().new_transaction_at(
        &t,
        WalletAddress::new("fr111111111".to_string()),
        5,
        Amount::from_repr(1),
        99
    )
    .is_ok());
    assert!(client().unfriend_at(&t, 5, 99).is_ok());
    assert!(client().get_me_at(&t, 99).is_ok());
    assert!(client().get_me_at(&t, 100).is_err());
    assert!(client().search_user_random_at(&t, "x", true, false, 99).is_ok());
}

#[test]
fn error_descriptions_are_stable() {
    assert_eq!(Error::Hyper("h".to_string()).description(), "h");
    assert_eq!(Error::IO("i".to_string()).description(), "i");
    assert_eq!(Error::JSONDecode("j".to_string()).description(), "j");
    assert_eq!(Error::Forbidden("f".to_string()).description(), "f");
    assert_eq!(
        Error::InvalidSecret.description(),
        "the provided secret is not a valid secret"
    );
    assert_eq!(
        Error::InvalidTokenType.description(),
        "the provided token type is not a valid token type"
    );
    assert_eq!(
        Error::InvalidScope.description(),
        "the provided scope is not a valid scope"
    );
    assert_eq!(Error::Registration.description(), "error registering user");
    assert_eq!(
        Error::Transaction.description(),
        "error generating transaction"
    );
    assert_eq!(
        Error::ConfirmConnection.description(),
        "error trying to confirm connection"
    );
}
