//! Tests for the access-token model: decoding, expiry and the scope checks.

use fractal_api::dto::AccessTokenDTO;
use fractal_api::error::Error;
use fractal_api::envelope::{Auth, Method};
use fractal_api::oauth::{token_response, AccessToken, SECRET_LEN};
use fractal_api::scope::{Scope, TokenType};
use fractal_api::Client;

use rustc_serialize::base64::{ToBase64, STANDARD};

fn dto_with_scopes(scopes: &str) -> AccessTokenDTO {
    AccessTokenDTO {
        app_id: "app".to_string(),
        scopes: scopes.to_string(),
        access_token: "tok".to_string(),
        token_type: TokenType::Bearer,
        expiration: 3600,
    }
}

#[test]
fn decoding_a_token_with_empty_scopes_fails() {
    let r = AccessToken::from_dto(dto_with_scopes("[]"));
    assert!(r.is_err());
    assert_eq!(
        r.unwrap_err().description(),
        "there were no scopes in the access token"
    );
}

#[test]
fn decoding_a_token_with_unreadable_scopes_fails() {
    let r = AccessToken::from_dto(dto_with_scopes("not json"));
    assert!(r.is_err());
    assert_eq!(
        r.unwrap_err().description(),
        "the scopes of the access token could not be decoded"
    );
}

#[test]
fn decoding_a_token_keeps_its_fields() {
    let dto = dto_with_scopes("[\"Admin\",{\"variant\":\"User\",\"fields\":[42]},\"Public\"]");
    let t = AccessToken::from_dto_at(dto, 1000).unwrap();
    assert_eq!(t.get_app_id(), "app");
    assert_eq!(t.get_token(), "tok");
    assert_eq!(
        t.scopes().as_slice(),
        &[Scope::Admin, Scope::User(42), Scope::Public]
    );
    assert_eq!(t.get_expiration(), 1000 + 3600);
}

#[test]
fn decoding_accepts_the_developer_scope() {
    let dto = dto_with_scopes("[\"Developer\"]");
    let t = AccessToken::from_dto_at(dto, 0).unwrap();
    assert_eq!(t.scopes().as_slice(), &[Scope::Developer]);
}

#[test]
fn a_token_expires_exactly_at_its_expiration_instant() {
    let t = AccessToken::from_data("a".to_string(), vec![Scope::Public], "t".to_string(), 100);
    assert!(!t.has_expired_at(99));
    assert!(t.has_expired_at(100));
    assert!(t.has_expired_at(101));
}

#[test]
fn a_token_expiring_one_second_ago_reports_expired() {
    let now = time::get_time().sec;
    let t = AccessToken::from_data(
        "a".to_string(),
        vec![Scope::User(1)],
        "t".to_string(),
        now - 1,
    );
    assert!(t.has_expired());
}

#[test]
fn a_token_expiring_far_ahead_reports_unexpired() {
    let now = time::get_time().sec;
    let t = AccessToken::from_data(
        "a".to_string(),
        vec![Scope::User(1)],
        "t".to_string(),
        now + 100000,
    );
    assert!(!t.has_expired());
}

#[test]
fn a_user_scope_grants_its_own_id_and_not_the_next() {
    let t = AccessToken::from_data("a".to_string(), vec![Scope::User(7)], "t".to_string(), 0);
    assert!(t.is_user(7));
    assert!(!t.is_user(8));
    assert!(!t.is_admin());
    assert!(!t.is_public());
    assert_eq!(t.get_user_id(), Some(7));
}

#[test]
fn scope_checks_look_through_the_whole_list() {
    let t = AccessToken::from_data(
        "a".to_string(),
        vec![Scope::Public, Scope::Admin, Scope::User(3)],
        "t".to_string(),
        0,
    );
    assert!(t.is_admin());
    assert!(t.is_public());
    assert!(t.is_user(3));
    assert_eq!(t.get_user_id(), Some(3));
    let no_user = AccessToken::from_data("a".to_string(), vec![Scope::Admin], "t".to_string(), 0);
    assert_eq!(no_user.get_user_id(), None);
}

#[test]
fn a_secret_of_nineteen_bytes_is_turned_down_locally() {
    let client = Client::new();
    let secret = [0u8; 19].to_base64(STANDARD);
    let r = client.token("app", &secret);
    assert_eq!(r.unwrap_err(), Error::InvalidSecret);
}

#[test]
fn a_secret_of_twenty_one_bytes_is_turned_down_locally() {
    let client = Client::new();
    let secret = [0u8; 21].to_base64(STANDARD);
    let r = client.token("app", &secret);
    assert_eq!(r.unwrap_err(), Error::InvalidSecret);
}

#[test]
fn an_empty_secret_is_turned_down_locally() {
    let client = Client::new();
    let r = client.token("app", "");
    assert_eq!(r.unwrap_err(), Error::InvalidSecret);
}

#[test]
fn the_first_of_several_user_scopes_carries_the_id() {
    let t = AccessToken::from_data(
        "a".to_string(),
        vec![Scope::User(1), Scope::User(2)],
        "t".to_string(),
        0,
    );
    assert_eq!(t.get_user_id(), Some(1));
    assert!(t.is_user(1));
    assert!(t.is_user(2));
    assert!(!t.is_user(3));
}

#[test]
fn a_secret_that_is_no_base64_is_turned_down_locally() {
    let client = Client::new();
    let r = client.token("app", "!!! not base64 !!!");
    assert_eq!(r.unwrap_err(), Error::InvalidSecret);
}

#[test]
fn a_well_formed_secret_builds_the_token_request() {
    let client = Client::new_with_url("https://example.org/");
    let secret = [7u8; SECRET_LEN].to_base64(STANDARD);
    let q = client.token("my-app", &secret).unwrap();
    assert_eq!(q.method, Method::Get);
    assert_eq!(q.url, "https://example.org/v1/token");
    assert_eq!(
        q.auth,
        Auth::Basic {
            username: "my-app".to_string(),
            password: secret,
        }
    );
    assert_eq!(q.body, None);
}

#[test]
fn create_client_needs_an_admin_token() {
    let client = Client::new_with_url("https://example.org/");
    let t = AccessToken::from_data(
        "a".to_string(),
        vec![Scope::Public],
        "t".to_string(),
        i64::MAX,
    );
    let r = client.create_client(&t, "new client", vec![Scope::Public], Some(10));
    assert_eq!(
        r.unwrap_err(),
        Error::Forbidden("the token must be an unexpired admin token".to_string())
    );
}

#[test]
fn create_client_builds_the_request_with_its_json_body() {
    let client = Client::new_with_url("https://example.org/");
    let t = AccessToken::from_data(
        "a".to_string(),
        vec![Scope::Admin],
        "bearer-text".to_string(),
        i64::MAX,
    );
    let q = client
        .create_client(&t, "new client", vec![Scope::Admin, Scope::User(5)], Some(10))
        .unwrap();
    assert_eq!(q.method, Method::Post);
    assert_eq!(q.url, "https://example.org/v1/create_client");
    assert_eq!(
        q.auth,
        Auth::Bearer {
            token: "bearer-text".to_string()
        }
    );
    assert_eq!(
        q.body.unwrap(),
        "{\"name\":\"new client\",\"request_limit\":10,\
         \"scopes\":[\"Admin\",{\"fields\":[5],\"variant\":\"User\"}]}"
    );
}

#[test]
fn a_token_response_body_decodes_into_a_token() {
    let body = "{\"app_id\":\"app\",\
                 \"scopes\":\"[\\\"Admin\\\",{\\\"variant\\\":\\\"User\\\",\\\"fields\\\":[42]}]\",\
                 \"access_token\":\"tok\",\"token_type\":\"Bearer\",\"expiration\":3600}";
    let t = token_response(body).unwrap();
    assert_eq!(t.get_app_id(), "app");
    assert_eq!(t.get_token(), "tok");
    assert_eq!(t.scopes().as_slice(), &[Scope::Admin, Scope::User(42)]);
}

#[test]
fn a_token_response_with_an_empty_scope_list_fails() {
    let body = "{\"app_id\":\"app\",\"scopes\":\"[]\",\"access_token\":\"tok\",\
                 \"token_type\":\"Bearer\",\"expiration\":3600}";
    let r = token_response(body);
    assert!(matches!(r.unwrap_err(), Error::FromDTO(_)));
}

#[test]
fn an_unreadable_token_response_is_a_decode_error() {
    assert!(matches!(
        token_response("not json").unwrap_err(),
        Error::JSONDecode(_)
    ));
    let body = "{\"app_id\":\"app\",\"scopes\":\"[]\",\"access_token\":\"tok\",\
                 \"token_type\":\"Other\",\"expiration\":3600}";
    assert!(matches!(
        token_response(body).unwrap_err(),
        Error::JSONDecode(_)
    ));
}

#[test]
fn an_expired_token_is_forbidden_even_with_the_right_scope() {
    let client = Client::new();
    let t = AccessToken::from_data("a".to_string(), vec![Scope::Admin], "t".to_string(), 0);
    let r = client.create_client(&t, "x", vec![Scope::Public], None);
    assert_eq!(
        r.unwrap_err(),
        Error::Forbidden("the token must be an unexpired admin token".to_string())
    );
}
