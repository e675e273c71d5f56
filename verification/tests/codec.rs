//! Tests for the wire codec: decimal text, the JSON bodies the library
//! writes, and the response bodies it reads.

use fractal_api::digits::{padded_u64, parse_u64, u64_to_string};
use fractal_api::dto::{date_text, decode_scopes, encode_login, encode_register, ResponseDTO};
use fractal_api::error::Error;
use fractal_api::responses::{
    client_info_from_body, message_from_body, pending_requests_from_body, profiles_from_body,
    response_from_body, transaction_code_from_body, transaction_from_body, transactions_from_body,
    user_from_body, user_id_from_body, users_from_body,
};
use fractal_api::scope::Scope;
use fractal_api::types::{
    users_from_dtos, Amount, Date, Transaction, TransactionDTO, UserDTO, WalletAddress,
};

#[test]
fn decimal_text_is_exact() {
    assert_eq!(u64_to_string(0), "0");
    assert_eq!(u64_to_string(7), "7");
    assert_eq!(u64_to_string(10), "10");
    assert_eq!(u64_to_string(12345), "12345");
    assert_eq!(u64_to_string(u64::MAX), "18446744073709551615");
}

#[test]
fn decimal_parsing_is_exact() {
    assert_eq!(parse_u64("0"), Some(0));
    assert_eq!(parse_u64("007"), Some(7));
    assert_eq!(parse_u64("12345"), Some(12345));
    assert_eq!(parse_u64("18446744073709551615"), Some(u64::MAX));
    assert_eq!(parse_u64("18446744073709551616"), None);
    assert_eq!(parse_u64("99999999999999999999999"), None);
    assert_eq!(parse_u64(""), None);
    assert_eq!(parse_u64("12a"), None);
    assert_eq!(parse_u64("-4"), None);
}

#[test]
fn padding_fills_to_the_width() {
    assert_eq!(padded_u64(1, 4), "0001");
    assert_eq!(padded_u64(12, 2), "12");
    assert_eq!(padded_u64(123, 2), "123");
    assert_eq!(padded_u64(0, 2), "00");
}

#[test]
fn a_date_is_written_as_iso_text() {
    assert_eq!(date_text(&Date::new(2016, 3, 1).unwrap()), "2016-03-01");
    assert_eq!(date_text(&Date::new(1, 1, 1).unwrap()), "0001-01-01");
    assert_eq!(date_text(&Date::new(9999, 12, 31).unwrap()), "9999-12-31");
    assert_eq!(Date::new(10000, 1, 1), None);
    assert_eq!(Date::new(2016, 13, 1), None);
    assert_eq!(Date::new(2016, 1, 32), None);
    assert_eq!(Date::new(2016, 0, 1), None);
}

#[test]
fn the_register_body_is_written_exactly() {
    assert_eq!(
        encode_register("u", "p", "e@x.com", None),
        "{\"email\":\"e@x.com\",\"password\":\"p\",\"referer\":null,\"username\":\"u\"}"
    );
    assert_eq!(
        encode_register("u", "p", "e@x.com", Some("friend")),
        "{\"email\":\"e@x.com\",\"password\":\"p\",\"referer\":\"friend\",\"username\":\"u\"}"
    );
}

#[test]
fn the_login_body_escapes_its_strings() {
    assert_eq!(
        encode_login("a\"b", "p\\q", true),
        "{\"password\":\"p\\\\q\",\"remember_me\":true,\"user_email\":\"a\\\"b\"}"
    );
}

#[test]
fn scopes_decode_from_their_wire_form() {
    let v = decode_scopes(
        "[\"Admin\",\"Public\",\"Developer\",{\"variant\":\"User\",\"fields\":[9]}]",
    )
    .unwrap();
    assert_eq!(
        v,
        vec![Scope::Admin, Scope::Public, Scope::Developer, Scope::User(9)]
    );
    assert_eq!(decode_scopes("[]").unwrap(), Vec::<Scope>::new());
    assert_eq!(decode_scopes("[\"Nonsense\"]"), None);
    assert_eq!(decode_scopes("{\"variant\":\"User\"}"), None);
    assert_eq!(decode_scopes("not json"), None);
}

#[test]
fn a_message_envelope_reads_back() {
    let r = response_from_body("{\"message\": \"done\"}").unwrap();
    assert_eq!(r.message, "done");
    assert_eq!(message_from_body("{\"message\": \"done\"}").unwrap(), "done");
    assert!(matches!(
        message_from_body("{}").unwrap_err(),
        Error::JSONDecode(_)
    ));
    let mut d = ResponseDTO::new("a");
    d.set_message("b");
    assert_eq!(d.message, "b");
}

#[test]
fn a_wallet_check_answer_is_parsed_as_a_number() {
    assert_eq!(user_id_from_body("{\"message\": \"123\"}").unwrap(), 123);
    assert_eq!(
        user_id_from_body("{\"message\": \"abc\"}").unwrap_err(),
        Error::BadRequest("could not parse result to correct type".to_string())
    );
    assert!(matches!(
        user_id_from_body("nope").unwrap_err(),
        Error::JSONDecode(_)
    ));
}

#[test]
fn profiles_decode_from_their_wire_form() {
    let body = "[{\"user_id\":4,\"display_name\":\"Ann\",\"first_name\":\"An\",\
                 \"last_name\":null,\"image_url\":null,\"age\":30,\"address\":null,\
                 \"trust_score\":-5}]";
    let v = profiles_from_body(body).unwrap();
    assert_eq!(v.len(), 1);
    assert_eq!(v[0].get_user_id(), 4);
    assert_eq!(v[0].get_display_name(), "Ann");
    assert_eq!(v[0].get_first_name(), Some("An"));
    assert_eq!(v[0].get_last_name(), None);
    assert_eq!(v[0].get_image(), None);
    assert_eq!(v[0].get_age(), Some(30));
    assert_eq!(v[0].get_address(), None);
    assert_eq!(v[0].get_trust_score(), -5);
    assert!(matches!(
        profiles_from_body("{\"not\": \"a list\"}").unwrap_err(),
        Error::JSONDecode(_)
    ));
    assert!(matches!(
        profiles_from_body("[{\"user_id\":\"wrong type\"}]").unwrap_err(),
        Error::JSONDecode(_)
    ));
}

#[test]
fn a_transaction_decodes_from_its_wire_form() {
    let body = "{\"transaction_id\":10,\
                 \"origin_user\":{\"user_id\":1,\"display_name\":\"a\",\"first_name\":null,\
                 \"last_name\":null,\"image_url\":null,\"age\":null,\"address\":null,\
                 \"trust_score\":0},\
                 \"destination_user\":{\"user_id\":2,\"display_name\":\"b\",\"first_name\":null,\
                 \"last_name\":null,\"image_url\":null,\"age\":null,\"address\":null,\
                 \"trust_score\":0},\
                 \"destination_address\":\"fr111111111\",\
                 \"amount\":1654,\
                 \"timestamp\":\"2016-07-08T09:10:48Z\"}";
    let t = transaction_from_body(body).unwrap();
    assert_eq!(t.get_id(), 10);
    assert_eq!(t.get_origin_user(), 1);
    assert_eq!(t.get_destination_user(), 2);
    assert_eq!(t.get_destination_address().as_str(), "fr111111111");
    assert_eq!(t.get_amount(), Amount::from_repr(1654));
    assert_eq!(t.get_timestamp(), "2016-07-08T09:10:48Z");

    let list = transactions_from_body(&format!("[{}]", body)).unwrap();
    assert_eq!(list.len(), 1);
    assert_eq!(list[0].get_id(), 10);
    assert!(matches!(
        transactions_from_body("3").unwrap_err(),
        Error::JSONDecode(_)
    ));
}

#[test]
fn a_transaction_survives_the_round_trip_through_its_wire_value() {
    let t = Transaction {
        id: 10,
        origin_user: 1,
        destination_user: 2,
        destination_address: WalletAddress::new("fr111111111".to_string()),
        amount: Amount::from_repr(1654),
        timestamp: "2016-07-08T09:10:48Z".to_string(),
    };
    let back = Transaction::from_dto(t.clone().to_dto()).unwrap();
    assert_eq!(back, t);
}

#[test]
fn a_transaction_wire_value_survives_the_round_trip_too() {
    let dto = TransactionDTO {
        transaction_id: 3,
        origin_user: 8,
        destination_user: 9,
        destination_address: WalletAddress::new("fr2aBcDeFgH".to_string()),
        amount: Amount::from_repr(30000),
        timestamp: "2017-01-01T00:00:00Z".to_string(),
    };
    let back = Transaction::from_dto(dto.clone()).unwrap().to_dto();
    assert_eq!(back, dto);
}

#[test]
fn pending_requests_decode_from_their_wire_form() {
    let profile = "{\"user_id\":1,\"display_name\":\"a\",\"first_name\":null,\
                   \"last_name\":null,\"image_url\":null,\"age\":null,\"address\":null,\
                   \"trust_score\":0}";
    let body = format!(
        "[{{\"connection_id\":77,\"origin_user\":{p},\"destination_user\":{p},\
         \"message\":\"hi\"}}]",
        p = profile
    );
    let v = pending_requests_from_body(&body).unwrap();
    assert_eq!(v.len(), 1);
    assert_eq!(v[0].get_connection_id(), 77);
    assert_eq!(v[0].get_origin_user().get_user_id(), 1);
    assert_eq!(v[0].get_message(), Some("hi"));
}

#[test]
fn client_info_decodes_from_its_wire_form() {
    let body = "{\"id\":\"cid\",\"name\":\"n\",\"secret\":\"abc\",\
                 \"scopes\":[\"Admin\"],\"request_limit\":50}";
    let c = client_info_from_body(body).unwrap();
    assert_eq!(c.get_id(), "cid");
    assert_eq!(c.get_secret(), "abc");
    assert_eq!(c.scopes().as_slice(), &[Scope::Admin]);
    assert_eq!(c.get_request_limit(), Some(50));

    let body = "{\"id\":\"cid\",\"name\":\"n\",\"secret\":\"s\",\
                 \"scopes\":[],\"request_limit\":null}";
    let c = client_info_from_body(body).unwrap();
    assert_eq!(c.get_request_limit(), None);
}

#[test]
fn a_transaction_code_decodes_from_its_wire_form() {
    assert_eq!(
        transaction_code_from_body("{\"code\": \"abc123\"}").unwrap(),
        "abc123"
    );
    assert!(matches!(
        transaction_code_from_body("{}").unwrap_err(),
        Error::JSONDecode(_)
    ));
}

#[test]
fn a_user_wire_value_pairs_attributes_with_their_flags() {
    let dto = UserDTO {
        user_id: 11,
        username: "ann".to_string(),
        display_name: "Ann".to_string(),
        email: "ann@example.org".to_string(),
        email_confirmed: true,
        first_name: Some("An".to_string()),
        first_name_confirmed: false,
        last_name: None,
        last_name_confirmed: true,
        device_count: 2,
        wallet_addresses: vec![WalletAddress::new("fr111111111".to_string())],
        pending_balance: Amount::from_repr(0),
        checking_balance: Amount::from_repr(1000),
        cold_balance: Amount::from_repr(2000),
        bonds: vec![(1000, 2)],
        birthday: Some(Date::new(1990, 5, 7).unwrap()),
        birthday_confirmed: true,
        phone: None,
        phone_confirmed: false,
        image_url: None,
        address: None,
        address_confirmed: false,
        sybil_score: 1,
        trust_score: 2,
        enabled: true,
        registration_time: 1000,
        last_activity: 2000,
        banned: None,
    };
    let users = users_from_dtos(vec![dto]);
    assert_eq!(users.len(), 1);
    let u = &users[0];
    assert_eq!(u.get_id(), 11);
    assert_eq!(u.get_username(), "ann");
    assert_eq!(u.get_displayname(), "Ann");
    assert_eq!(u.get_email(), "ann@example.org");
    assert!(u.is_email_confirmed());
    assert_eq!(u.get_first_name(), Some("An"));
    assert!(!u.is_first_name_confirmed());
    assert_eq!(u.get_last_name(), None);
    assert!(!u.is_last_name_confirmed());
    assert_eq!(u.get_device_count(), 2);
    assert_eq!(u.get_checking_balance(), Amount::from_repr(1000));
    assert_eq!(u.get_cold_balance(), Amount::from_repr(2000));
    assert_eq!(u.bonds().as_slice(), &[(1000, 2)]);
    assert_eq!(u.get_birthday(), Some(Date::new(1990, 5, 7).unwrap()));
    assert!(u.is_birthday_confirmed());
    assert_eq!(u.get_phone(), None);
    assert!(!u.is_phone_confirmed());
    assert_eq!(u.get_image(), None);
    assert_eq!(u.get_address(), None);
    assert!(!u.is_address_confirmed());
    assert_eq!(u.get_sybil_score(), 1);
    assert_eq!(u.get_trust_score(), 2);
    assert!(u.is_enabled());
    assert_eq!(u.get_registration_time(), 1000);
    assert_eq!(u.get_last_activity(), 2000);
    assert_eq!(u.ban_expiration(), None);
    assert!(u.is_banned_at(0));
    let mut banned = u.clone();
    banned.banned = Some(100);
    assert!(banned.is_banned_at(99));
    assert!(!banned.is_banned_at(100));
}

#[test]
fn a_user_decodes_from_its_wire_form() {
    let body = "{\"user_id\":11,\"username\":\"ann\",\"display_name\":\"Ann\",\
                 \"email\":\"ann@example.org\",\"email_confirmed\":true,\
                 \"first_name\":\"An\",\"first_name_confirmed\":false,\
                 \"last_name\":null,\"last_name_confirmed\":true,\
                 \"device_count\":2,\
                 \"wallet_addresses\":[\"fr111111111\"],\
                 \"pending_balance\":0,\"checking_balance\":1000,\"cold_balance\":2000,\
                 \"bonds\":{\"1970-01-01T00:16:40Z\":2},\
                 \"birthday\":\"1990-05-07\",\"birthday_confirmed\":true,\
                 \"phone\":null,\"phone_confirmed\":false,\
                 \"image_url\":null,\
                 \"address\":{\"address1\":\"1 Main St\",\"address2\":null,\
                 \"city\":\"Springfield\",\"state\":\"IL\",\"zip\":\"62701\",\"country\":\"US\"},\
                 \"address_confirmed\":true,\
                 \"sybil_score\":1,\"trust_score\":2,\"enabled\":true,\
                 \"registration_time\":\"1970-01-01T00:00:10Z\",\
                 \"last_activity\":\"1970-01-02T00:00:00.500Z\",\
                 \"banned\":null}";
    let u = user_from_body(body).unwrap();
    assert_eq!(u.get_id(), 11);
    assert_eq!(u.get_username(), "ann");
    assert_eq!(u.get_email(), "ann@example.org");
    assert!(u.is_email_confirmed());
    assert_eq!(u.get_first_name(), Some("An"));
    assert_eq!(u.get_last_name(), None);
    assert_eq!(u.wallet_addresses().len(), 1);
    assert_eq!(u.wallet_addresses()[0].as_str(), "fr111111111");
    assert_eq!(u.get_checking_balance(), Amount::from_repr(1000));
    assert_eq!(u.bonds().as_slice(), &[(1000, 2)]);
    assert_eq!(u.get_birthday(), Some(Date::new(1990, 5, 7).unwrap()));
    assert!(u.is_birthday_confirmed());
    let address = u.get_address().unwrap();
    assert_eq!(address.get_address1(), "1 Main St");
    assert_eq!(address.get_address2(), None);
    assert_eq!(address.get_city(), "Springfield");
    assert_eq!(u.get_registration_time(), 10);
    assert_eq!(u.get_last_activity(), 86400);
    assert_eq!(u.ban_expiration(), None);
}

#[test]
fn a_user_without_a_bonds_field_reads_as_having_none() {
    let body = "{\"user_id\":1,\"username\":\"u\",\"display_name\":\"U\",\
                 \"email\":\"u@x\",\"email_confirmed\":false,\
                 \"first_name\":null,\"first_name_confirmed\":false,\
                 \"last_name\":null,\"last_name_confirmed\":false,\
                 \"device_count\":0,\"wallet_addresses\":[],\
                 \"pending_balance\":0,\"checking_balance\":0,\"cold_balance\":0,\
                 \"birthday\":null,\"birthday_confirmed\":false,\
                 \"phone\":null,\"phone_confirmed\":false,\"image_url\":null,\
                 \"address\":null,\"address_confirmed\":false,\
                 \"sybil_score\":0,\"trust_score\":0,\"enabled\":true,\
                 \"registration_time\":\"2016-07-08T09:10:48Z\",\
                 \"last_activity\":\"2016-07-08T09:10:48Z\",\
                 \"banned\":\"2016-07-08T09:10:49Z\"}";
    let u = user_from_body(body).unwrap();
    assert_eq!(u.bonds().len(), 0);
    assert_eq!(u.get_registration_time(), 1467969048);
    assert_eq!(u.ban_expiration(), Some(1467969049));
    assert!(u.is_banned_at(1467969048));
    assert!(!u.is_banned_at(1467969049));

    let list = users_from_body(&format!("[{}]", body)).unwrap();
    assert_eq!(list.len(), 1);
    assert_eq!(list[0].get_id(), 1);
}

#[test]
fn an_unreadable_user_record_is_a_decode_error() {
    assert!(matches!(
        user_from_body("{\"user_id\":\"wrong\"}").unwrap_err(),
        Error::JSONDecode(_)
    ));
    assert!(matches!(
        user_from_body("{\"user_id\":1,\"registration_time\":\"yesterday\"}").unwrap_err(),
        Error::JSONDecode(_)
    ));
    assert!(matches!(
        users_from_body("7").unwrap_err(),
        Error::JSONDecode(_)
    ));
}
