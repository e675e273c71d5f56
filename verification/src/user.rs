//! User methods for the client.
//!
//! These are the user getters, setters and search operations.  Each method
//! checks the caller's token locally and builds the request to send; a
//! failed check is terminal and builds none.

use vstd::prelude::*;

use crate::digits::{spec_decimal, u64_to_string};
use crate::dto::{
    encode_auth_code, encode_search_user, encode_update_user, spec_auth_code_json,
    spec_search_user_json, spec_update_user_json,
};
use crate::envelope::{is_bearer, is_forbidden, Auth, Method, RequestSpec};
use crate::error::Error;
use crate::oauth::{spec_first_user_id, AccessToken};
use crate::scope::Scope;
use crate::types::{Address, Date};
use crate::wire;
use crate::Client;

verus! {

/// Whether the token's scopes let it act on the account of `user_id`: the
/// matching user scope, or the admin scope.
pub open spec fn user_or_admin(scopes: Seq<Scope>, user_id: u64) -> bool {
    scopes.contains(Scope::User(user_id)) || scopes.contains(Scope::Admin)
}

impl Client {
    /// Builds the request that resends the email confirmation:
    /// `GET resend_email_confirmation`.  An unexpired user token is
    /// required.
    ///
    /// Expiry is decided against the wall clock; `resend_email_confirmation_at` fixes the
    /// result for each clock instant.
    pub fn resend_email_confirmation(&self, access_token: &AccessToken) -> (r: Result<
        RequestSpec,
        Error,
    >)
        ensures
            spec_first_user_id(access_token.scopes@) is None ==> is_forbidden(
                r,
                "the token must be an unexpired user token"@,
            ),
            r matches Err(e) ==> (e matches Error::Forbidden(m) && m@
                == "the token must be an unexpired user token"@),
            r matches Ok(q) ==> ({
                &&& spec_first_user_id(access_token.scopes@) is Some
                &&& q.method == Method::Get
                &&& q.url@ == self.url@ + "resend_email_confirmation"@
                &&& is_bearer(q.auth, access_token.access_token@)
                &&& q.body is None
            }),
    {
        self.resend_email_confirmation_at(access_token, crate::wire::timestamp_now())
    }

    /// As `resend_email_confirmation`, with the expiry decided against the instant `now`:
    /// the request is built exactly when the token's scopes allow the
    /// call and `now` is before the token's expiration.
    pub fn resend_email_confirmation_at(&self, access_token: &AccessToken, now: i64) -> (r: Result<
        RequestSpec,
        Error,
    >)
        ensures
            (r is Ok <==> (spec_first_user_id(access_token.scopes@) is Some && now < access_token.expiration)),
            spec_first_user_id(access_token.scopes@) is None ==> is_forbidden(
                r,
                "the token must be an unexpired user token"@,
            ),
            r matches Err(e) ==> (e matches Error::Forbidden(m) && m@
                == "the token must be an unexpired user token"@),
            r matches Ok(q) ==> ({
                &&& spec_first_user_id(access_token.scopes@) is Some
                &&& q.method == Method::Get
                &&& q.url@ == self.url@ + "resend_email_confirmation"@
                &&& is_bearer(q.auth, access_token.access_token@)
                &&& q.body is None
            }),
    {
        if access_token.get_user_id().is_some() && !access_token.has_expired_at(now) {
            Ok(
                RequestSpec {
                    method: Method::Get,
                    url: self.url.clone().concat("resend_email_confirmation"),
                    auth: Auth::Bearer { token: access_token.get_token() },
                    body: None,
                },
            )
        } else {
            Err(Error::Forbidden("the token must be an unexpired user token".to_owned()))
        }
    }

    /// Builds the request that resends the unsubscribe email confirmation:
    /// `GET unsubscribe_email_confirmation`.  An unexpired user token is
    /// required.
    ///
    /// Expiry is decided against the wall clock; `unsubscribe_email_confirmation_at` fixes the
    /// result for each clock instant.
    pub fn unsubscribe_email_confirmation(&self, access_token: &AccessToken) -> (r: Result<
        RequestSpec,
        Error,
    >)
        ensures
            spec_first_user_id(access_token.scopes@) is None ==> is_forbidden(
                r,
                "the token must be an unexpired user token"@,
            ),
            r matches Err(e) ==> (e matches Error::Forbidden(m) && m@
                == "the token must be an unexpired user token"@),
            r matches Ok(q) ==> ({
                &&& spec_first_user_id(access_token.scopes@) is Some
                &&& q.method == Method::Get
                &&& q.url@ == self.url@ + "unsubscribe_email_confirmation"@
                &&& is_bearer(q.auth, access_token.access_token@)
                &&& q.body is None
            }),
    {
        self.unsubscribe_email_confirmation_at(access_token, crate::wire::timestamp_now())
    }

    /// As `unsubscribe_email_confirmation`, with the expiry decided against the instant `now`:
    /// the request is built exactly when the token's scopes allow the
    /// call and `now` is before the token's expiration.
    pub fn unsubscribe_email_confirmation_at(&self, access_token: &AccessToken, now: i64) -> (r: Result<
        RequestSpec,
        Error,
    >)
        ensures
            (r is Ok <==> (spec_first_user_id(access_token.scopes@) is Some && now < access_token.expiration)),
            spec_first_user_id(access_token.scopes@) is None ==> is_forbidden(
                r,
                "the token must be an unexpired user token"@,
            ),
            r matches Err(e) ==> (e matches Error::Forbidden(m) && m@
                == "the token must be an unexpired user token"@),
            r matches Ok(q) ==> ({
                &&& spec_first_user_id(access_token.scopes@) is Some
                &&& q.method == Method::Get
                &&& q.url@ == self.url@ + "unsubscribe_email_confirmation"@
                &&& is_bearer(q.auth, access_token.access_token@)
                &&& q.body is None
            }),
    {
        if access_token.get_user_id().is_some() && !access_token.has_expired_at(now) {
            Ok(
                RequestSpec {
                    method: Method::Get,
                    url: self.url.clone().concat("unsubscribe_email_confirmation"),
                    auth: Auth::Bearer { token: access_token.get_token() },
                    body: None,
                },
            )
        } else {
            Err(Error::Forbidden("the token must be an unexpired user token".to_owned()))
        }
    }

    /// Builds the request that gets another user's account as seen from the
    /// logged-in user: `GET get_unlogged_user/{user_id}`.  An unexpired
    /// user token is required.
    ///
    /// Expiry is decided against the wall clock; `get_unlogged_user_at` fixes the
    /// result for each clock instant.
    pub fn get_unlogged_user(&self, access_token: &AccessToken, user_id: u64) -> (r: Result<
        RequestSpec,
        Error,
    >)
        ensures
            spec_first_user_id(access_token.scopes@) is None ==> is_forbidden(
                r,
                "the token must be an unexpired user token"@,
            ),
            r matches Err(e) ==> (e matches Error::Forbidden(m) && m@
                == "the token must be an unexpired user token"@),
            r matches Ok(q) ==> ({
                &&& spec_first_user_id(access_token.scopes@) is Some
                &&& q.method == Method::Get
                &&& q.url@ == self.url@ + "get_unlogged_user/"@ + spec_decimal(user_id as nat)
                &&& is_bearer(q.auth, access_token.access_token@)
                &&& q.body is None
            }),
    {
        self.get_unlogged_user_at(access_token, user_id, crate::wire::timestamp_now())
    }

    /// As `get_unlogged_user`, with the expiry decided against the instant `now`:
    /// the request is built exactly when the token's scopes allow the
    /// call and `now` is before the token's expiration.
    pub fn get_unlogged_user_at(&self, access_token: &AccessToken, user_id: u64, now: i64) -> (r: Result<
        RequestSpec,
        Error,
    >)
        ensures
            (r is Ok <==> (spec_first_user_id(access_token.scopes@) is Some && now < access_token.expiration)),
            spec_first_user_id(access_token.scopes@) is None ==> is_forbidden(
                r,
                "the token must be an unexpired user token"@,
            ),
            r matches Err(e) ==> (e matches Error::Forbidden(m) && m@
                == "the token must be an unexpired user token"@),
            r matches Ok(q) ==> ({
                &&& spec_first_user_id(access_token.scopes@) is Some
                &&& q.method == Method::Get
                &&& q.url@ == self.url@ + "get_unlogged_user/"@ + spec_decimal(user_id as nat)
                &&& is_bearer(q.auth, access_token.access_token@)
                &&& q.body is None
            }),
    {
        if access_token.get_user_id().is_some() && !access_token.has_expired_at(now) {
            Ok(
                RequestSpec {
                    method: Method::Get,
                    url: self.url.clone().concat("get_unlogged_user/").concat(
                        u64_to_string(user_id).as_str(),
                    ),
                    auth: Auth::Bearer { token: access_token.get_token() },
                    body: None,
                },
            )
        } else {
            Err(Error::Forbidden("the token must be an unexpired user token".to_owned()))
        }
    }

    /// Builds the request that gets a user's account: `GET user/{user_id}`.
    /// An unexpired token with the matching user scope or the admin scope
    /// is required.
    ///
    /// Expiry is decided against the wall clock; `get_user_at` fixes the
    /// result for each clock instant.
    pub fn get_user(&self, access_token: &AccessToken, user_id: u64) -> (r: Result<
        RequestSpec,
        Error,
    >)
        ensures
            !user_or_admin(access_token.scopes@, user_id) ==> is_forbidden(
                r,
                "the token must be an unexpired admin or user token, and in the case of a user token, the ID in the token must match the given ID"@,
            ),
            r matches Err(e) ==> (e matches Error::Forbidden(m) && m@
                == "the token must be an unexpired admin or user token, and in the case of a user token, the ID in the token must match the given ID"@),
            r matches Ok(q) ==> ({
                &&& user_or_admin(access_token.scopes@, user_id)
                &&& q.method == Method::Get
                &&& q.url@ == self.url@ + "user/"@ + spec_decimal(user_id as nat)
                &&& is_bearer(q.auth, access_token.access_token@)
                &&& q.body is None
            }),
    {
        self.get_user_at(access_token, user_id, crate::wire::timestamp_now())
    }

    /// As `get_user`, with the expiry decided against the instant `now`:
    /// the request is built exactly when the token's scopes allow the
    /// call and `now` is before the token's expiration.
    pub fn get_user_at(&self, access_token: &AccessToken, user_id: u64, now: i64) -> (r: Result<
        RequestSpec,
        Error,
    >)
        ensures
            (r is Ok <==> (user_or_admin(access_token.scopes@, user_id) && now < access_token.expiration)),
            !user_or_admin(access_token.scopes@, user_id) ==> is_forbidden(
                r,
                "the token must be an unexpired admin or user token, and in the case of a user token, the ID in the token must match the given ID"@,
            ),
            r matches Err(e) ==> (e matches Error::Forbidden(m) && m@
                == "the token must be an unexpired admin or user token, and in the case of a user token, the ID in the token must match the given ID"@),
            r matches Ok(q) ==> ({
                &&& user_or_admin(access_token.scopes@, user_id)
                &&& q.method == Method::Get
                &&& q.url@ == self.url@ + "user/"@ + spec_decimal(user_id as nat)
                &&& is_bearer(q.auth, access_token.access_token@)
                &&& q.body is None
            }),
    {
        if (access_token.is_user(user_id) || access_token.is_admin())
            && !access_token.has_expired_at(now) {
            Ok(
                RequestSpec {
                    method: Method::Get,
                    url: self.url.clone().concat("user/").concat(u64_to_string(user_id).as_str()),
                    auth: Auth::Bearer { token: access_token.get_token() },
                    body: None,
                },
            )
        } else {
            Err(
                Error::Forbidden(
                    "the token must be an unexpired admin or user token, and in the case of a user token, the ID in the token must match the given ID".to_owned(),
                ),
            )
        }
    }

    /// Builds the request that gets the logged-in user's own account:
    /// `GET user/{id}` for the ID carried by the token.  An unexpired user
    /// token is required.
    ///
    /// Expiry is decided against the wall clock; `get_me_at` fixes the
    /// result for each clock instant.
    pub fn get_me(&self, access_token: &AccessToken) -> (r: Result<RequestSpec, Error>)
        ensures
            spec_first_user_id(access_token.scopes@) is None ==> is_forbidden(
                r,
                "the token must be an unexpired user token"@,
            ),
            r matches Err(e) ==> (e matches Error::Forbidden(m) && m@
                == "the token must be an unexpired user token"@),
            r matches Ok(q) ==> ({
                &&& spec_first_user_id(access_token.scopes@) matches Some(uid)
                &&& q.method == Method::Get
                &&& q.url@ == self.url@ + "user/"@ + spec_decimal(uid as nat)
                &&& is_bearer(q.auth, access_token.access_token@)
                &&& q.body is None
            }),
    {
        self.get_me_at(access_token, crate::wire::timestamp_now())
    }

    /// As `get_me`, with the expiry decided against the instant `now`:
    /// the request is built exactly when the token's scopes allow the
    /// call and `now` is before the token's expiration.
    pub fn get_me_at(&self, access_token: &AccessToken, now: i64) -> (r: Result<RequestSpec, Error>)
        ensures
            (r is Ok <==> (spec_first_user_id(access_token.scopes@) is Some && now < access_token.expiration)),
            spec_first_user_id(access_token.scopes@) is None ==> is_forbidden(
                r,
                "the token must be an unexpired user token"@,
            ),
            r matches Err(e) ==> (e matches Error::Forbidden(m) && m@
                == "the token must be an unexpired user token"@),
            r matches Ok(q) ==> ({
                &&& spec_first_user_id(access_token.scopes@) matches Some(uid)
                &&& q.method == Method::Get
                &&& q.url@ == self.url@ + "user/"@ + spec_decimal(uid as nat)
                &&& is_bearer(q.auth, access_token.access_token@)
                &&& q.body is None
            }),
    {
        let user_id = access_token.get_user_id();
        if user_id.is_some() && !access_token.has_expired_at(now) {
            Ok(
                RequestSpec {
                    method: Method::Get,
                    url: self.url.clone().concat("user/").concat(
                        u64_to_string(user_id.unwrap()).as_str(),
                    ),
                    auth: Auth::Bearer { token: access_token.get_token() },
                    body: None,
                },
            )
        } else {
            Err(Error::Forbidden("the token must be an unexpired user token".to_owned()))
        }
    }

    /// Builds the request that gets all users: `GET all_users`.  An
    /// unexpired admin token is required.  The `200` body answers with a
    /// user list; `crate::types::users_from_dtos` turns the decoded wire
    /// values into users.
    ///
    /// Expiry is decided against the wall clock; `get_all_users_at` fixes the
    /// result for each clock instant.
    pub fn get_all_users(&self, access_token: &AccessToken) -> (r: Result<RequestSpec, Error>)
        ensures
            !access_token.scopes@.contains(Scope::Admin) ==> is_forbidden(
                r,
                "the token must be an unexpired admin token"@,
            ),
            r matches Err(e) ==> (e matches Error::Forbidden(m) && m@
                == "the token must be an unexpired admin token"@),
            r matches Ok(q) ==> ({
                &&& access_token.scopes@.contains(Scope::Admin)
                &&& q.method == Method::Get
                &&& q.url@ == self.url@ + "all_users"@
                &&& is_bearer(q.auth, access_token.access_token@)
                &&& q.body is None
            }),
    {
        self.get_all_users_at(access_token, crate::wire::timestamp_now())
    }

    /// As `get_all_users`, with the expiry decided against the instant `now`:
    /// the request is built exactly when the token's scopes allow the
    /// call and `now` is before the token's expiration.
    pub fn get_all_users_at(&self, access_token: &AccessToken, now: i64) -> (r: Result<RequestSpec, Error>)
        ensures
            (r is Ok <==> (access_token.scopes@.contains(Scope::Admin) && now < access_token.expiration)),
            !access_token.scopes@.contains(Scope::Admin) ==> is_forbidden(
                r,
                "the token must be an unexpired admin token"@,
            ),
            r matches Err(e) ==> (e matches Error::Forbidden(m) && m@
                == "the token must be an unexpired admin token"@),
            r matches Ok(q) ==> ({
                &&& access_token.scopes@.contains(Scope::Admin)
                &&& q.method == Method::Get
                &&& q.url@ == self.url@ + "all_users"@
                &&& is_bearer(q.auth, access_token.access_token@)
                &&& q.body is None
            }),
    {
        if access_token.is_admin() && !access_token.has_expired_at(now) {
            Ok(
                RequestSpec {
                    method: Method::Get,
                    url: self.url.clone().concat("all_users"),
                    auth: Auth::Bearer { token: access_token.get_token() },
                    body: None,
                },
            )
        } else {
            Err(Error::Forbidden("the token must be an unexpired admin token".to_owned()))
        }
    }

    /// Builds the request that deletes the given user:
    /// `DELETE user/{user_id}`.  An unexpired admin token is required.
    ///
    /// Expiry is decided against the wall clock; `delete_user_at` fixes the
    /// result for each clock instant.
    pub fn delete_user(&self, access_token: &AccessToken, user_id: u64) -> (r: Result<
        RequestSpec,
        Error,
    >)
        ensures
            !access_token.scopes@.contains(Scope::Admin) ==> is_forbidden(
                r,
                "the token must be an unexpired admin token"@,
            ),
            r matches Err(e) ==> (e matches Error::Forbidden(m) && m@
                == "the token must be an unexpired admin token"@),
            r matches Ok(q) ==> ({
                &&& access_token.scopes@.contains(Scope::Admin)
                &&& q.method == Method::Delete
                &&& q.url@ == self.url@ + "user/"@ + spec_decimal(user_id as nat)
                &&& is_bearer(q.auth, access_token.access_token@)
                &&& q.body is None
            }),
    {
        self.delete_user_at(access_token, user_id, crate::wire::timestamp_now())
    }

    /// As `delete_user`, with the expiry decided against the instant `now`:
    /// the request is built exactly when the token's scopes allow the
    /// call and `now` is before the token's expiration.
    pub fn delete_user_at(&self, access_token: &AccessToken, user_id: u64, now: i64) -> (r: Result<
        RequestSpec,
        Error,
    >)
        ensures
            (r is Ok <==> (access_token.scopes@.contains(Scope::Admin) && now < access_token.expiration)),
            !access_token.scopes@.contains(Scope::Admin) ==> is_forbidden(
                r,
                "the token must be an unexpired admin token"@,
            ),
            r matches Err(e) ==> (e matches Error::Forbidden(m) && m@
                == "the token must be an unexpired admin token"@),
            r matches Ok(q) ==> ({
                &&& access_token.scopes@.contains(Scope::Admin)
                &&& q.method == Method::Delete
                &&& q.url@ == self.url@ + "user/"@ + spec_decimal(user_id as nat)
                &&& is_bearer(q.auth, access_token.access_token@)
                &&& q.body is None
            }),
    {
        if access_token.is_admin() && !access_token.has_expired_at(now) {
            Ok(
                RequestSpec {
                    method: Method::Delete,
                    url: self.url.clone().concat("user/").concat(u64_to_string(user_id).as_str()),
                    auth: Auth::Bearer { token: access_token.get_token() },
                    body: None,
                },
            )
        } else {
            Err(Error::Forbidden("the token must be an unexpired admin token".to_owned()))
        }
    }

    /// Builds the request that generates a new authenticator code:
    /// `GET generate_authenticator_code`.  An unexpired user token is
    /// required.  The `200` body answers with the code's URL in a
    /// `{"message": ...}` envelope, read by
    /// `crate::responses::message_from_body`.
    ///
    /// Expiry is decided against the wall clock; `generate_authenticator_code_at` fixes the
    /// result for each clock instant.
    pub fn generate_authenticator_code(&self, access_token: &AccessToken) -> (r: Result<
        RequestSpec,
        Error,
    >)
        ensures
            spec_first_user_id(access_token.scopes@) is None ==> is_forbidden(
                r,
                "the token must be an unexpired user token"@,
            ),
            r matches Err(e) ==> (e matches Error::Forbidden(m) && m@
                == "the token must be an unexpired user token"@),
            r matches Ok(q) ==> ({
                &&& spec_first_user_id(access_token.scopes@) is Some
                &&& q.method == Method::Get
                &&& q.url@ == self.url@ + "generate_authenticator_code"@
                &&& is_bearer(q.auth, access_token.access_token@)
                &&& q.body is None
            }),
    {
        self.generate_authenticator_code_at(access_token, crate::wire::timestamp_now())
    }

    /// As `generate_authenticator_code`, with the expiry decided against the instant `now`:
    /// the request is built exactly when the token's scopes allow the
    /// call and `now` is before the token's expiration.
    pub fn generate_authenticator_code_at(&self, access_token: &AccessToken, now: i64) -> (r: Result<
        RequestSpec,
        Error,
    >)
        ensures
            (r is Ok <==> (spec_first_user_id(access_token.scopes@) is Some && now < access_token.expiration)),
            spec_first_user_id(access_token.scopes@) is None ==> is_forbidden(
                r,
                "the token must be an unexpired user token"@,
            ),
            r matches Err(e) ==> (e matches Error::Forbidden(m) && m@
                == "the token must be an unexpired user token"@),
            r matches Ok(q) ==> ({
                &&& spec_first_user_id(access_token.scopes@) is Some
                &&& q.method == Method::Get
                &&& q.url@ == self.url@ + "generate_authenticator_code"@
                &&& is_bearer(q.auth, access_token.access_token@)
                &&& q.body is None
            }),
    {
        if access_token.get_user_id().is_some() && !access_token.has_expired_at(now) {
            Ok(
                RequestSpec {
                    method: Method::Get,
                    url: self.url.clone().concat("generate_authenticator_code"),
                    auth: Auth::Bearer { token: access_token.get_token() },
                    body: None,
                },
            )
        } else {
            Err(Error::Forbidden("the token must be an unexpired user token".to_owned()))
        }
    }

    /// Builds the request that authenticates the user with a 6-digit
    /// two-factor code: `POST authenticate`.  An unexpired user token is
    /// required.
    ///
    /// Expiry is decided against the wall clock; `authenticate_at` fixes the
    /// result for each clock instant.
    pub fn authenticate(&self, access_token: &AccessToken, code: u32) -> (r: Result<
        RequestSpec,
        Error,
    >)
        ensures
            spec_first_user_id(access_token.scopes@) is None ==> is_forbidden(
                r,
                "the token must be an unexpired user token"@,
            ),
            r matches Err(e) ==> (e matches Error::Forbidden(m) && m@
                == "the token must be an unexpired user token"@),
            r matches Ok(q) ==> ({
                &&& spec_first_user_id(access_token.scopes@) is Some
                &&& q.method == Method::Post
                &&& q.url@ == self.url@ + "authenticate"@
                &&& is_bearer(q.auth, access_token.access_token@)
                &&& (q.body matches Some(b) && b@ == wire::json_write(spec_auth_code_json(code)))
            }),
    {
        self.authenticate_at(access_token, code, crate::wire::timestamp_now())
    }

    /// As `authenticate`, with the expiry decided against the instant `now`:
    /// the request is built exactly when the token's scopes allow the
    /// call and `now` is before the token's expiration.
    pub fn authenticate_at(&self, access_token: &AccessToken, code: u32, now: i64) -> (r: Result<
        RequestSpec,
        Error,
    >)
        ensures
            (r is Ok <==> (spec_first_user_id(access_token.scopes@) is Some && now < access_token.expiration)),
            spec_first_user_id(access_token.scopes@) is None ==> is_forbidden(
                r,
                "the token must be an unexpired user token"@,
            ),
            r matches Err(e) ==> (e matches Error::Forbidden(m) && m@
                == "the token must be an unexpired user token"@),
            r matches Ok(q) ==> ({
                &&& spec_first_user_id(access_token.scopes@) is Some
                &&& q.method == Method::Post
                &&& q.url@ == self.url@ + "authenticate"@
                &&& is_bearer(q.auth, access_token.access_token@)
                &&& (q.body matches Some(b) && b@ == wire::json_write(spec_auth_code_json(code)))
            }),
    {
        if access_token.get_user_id().is_some() && !access_token.has_expired_at(now) {
            let body = encode_auth_code(code);
            Ok(
                RequestSpec {
                    method: Method::Post,
                    url: self.url.clone().concat("authenticate"),
                    auth: Auth::Bearer { token: access_token.get_token() },
                    body: Some(body),
                },
            )
        } else {
            Err(Error::Forbidden("the token must be an unexpired user token".to_owned()))
        }
    }

    /// Builds the request that sets the user's username:
    /// `POST update_user/{user_id}` with only the username field set.  An
    /// unexpired token with the matching user scope or the admin scope is
    /// required.
    ///
    /// Expiry is decided against the wall clock; `set_username_at` fixes the
    /// result for each clock instant.
    pub fn set_username(&self, access_token: &AccessToken, user_id: u64, username: &str) -> (r:
        Result<RequestSpec, Error>)
        ensures
            !user_or_admin(access_token.scopes@, user_id) ==> is_forbidden(
                r,
                "the token must be an unexpired admin or user token, and in the case of a user token, the ID in the token must match the given ID"@,
            ),
            r matches Err(e) ==> (e matches Error::Forbidden(m) && m@
                == "the token must be an unexpired admin or user token, and in the case of a user token, the ID in the token must match the given ID"@),
            r matches Ok(q) ==> ({
                &&& user_or_admin(access_token.scopes@, user_id)
                &&& q.method == Method::Post
                &&& q.url@ == self.url@ + "update_user/"@ + spec_decimal(user_id as nat)
                &&& is_bearer(q.auth, access_token.access_token@)
                &&& (q.body matches Some(b) && b@ == wire::json_write(
                    spec_update_user_json(
                        Some(username@),
                        None,
                        None,
                        None,
                        None,
                        None,
                        None,
                        None,
                        None,
                        None,
                    ),
                ))
            }),
    {
        self.set_username_at(access_token, user_id, username, crate::wire::timestamp_now())
    }

    /// As `set_username`, with the expiry decided against the instant `now`:
    /// the request is built exactly when the token's scopes allow the
    /// call and `now` is before the token's expiration.
    pub fn set_username_at(&self, access_token: &AccessToken, user_id: u64, username: &str, now: i64) -> (r:
        Result<RequestSpec, Error>)
        ensures
            (r is Ok <==> (user_or_admin(access_token.scopes@, user_id) && now < access_token.expiration)),
            !user_or_admin(access_token.scopes@, user_id) ==> is_forbidden(
                r,
                "the token must be an unexpired admin or user token, and in the case of a user token, the ID in the token must match the given ID"@,
            ),
            r matches Err(e) ==> (e matches Error::Forbidden(m) && m@
                == "the token must be an unexpired admin or user token, and in the case of a user token, the ID in the token must match the given ID"@),
            r matches Ok(q) ==> ({
                &&& user_or_admin(access_token.scopes@, user_id)
                &&& q.method == Method::Post
                &&& q.url@ == self.url@ + "update_user/"@ + spec_decimal(user_id as nat)
                &&& is_bearer(q.auth, access_token.access_token@)
                &&& (q.body matches Some(b) && b@ == wire::json_write(
                    spec_update_user_json(
                        Some(username@),
                        None,
                        None,
                        None,
                        None,
                        None,
                        None,
                        None,
                        None,
                        None,
                    ),
                ))
            }),
    {
        if (access_token.is_user(user_id) || access_token.is_admin())
            && !access_token.has_expired_at(now) {
            let body = encode_update_user(
                Some(username),
                None,
                None,
                None,
                None,
                None,
                None,
                None,
                None,
                None,
            );
            Ok(
                RequestSpec {
                    method: Method::Post,
                    url: self.url.clone().concat("update_user/").concat(
                        u64_to_string(user_id).as_str(),
                    ),
                    auth: Auth::Bearer { token: access_token.get_token() },
                    body: Some(body),
                },
            )
        } else {
            Err(
                Error::Forbidden(
                    "the token must be an unexpired admin or user token, and in the case of a user token, the ID in the token must match the given ID".to_owned(),
                ),
            )
        }
    }

    /// Builds the request that sets the user's phone number:
    /// `POST update_user/{user_id}` with only the phone field set.  An
    /// unexpired token with the matching user scope or the admin scope is
    /// required.
    ///
    /// Expiry is decided against the wall clock; `set_phone_at` fixes the
    /// result for each clock instant.
    pub fn set_phone(&self, access_token: &AccessToken, user_id: u64, phone: &str) -> (r: Result<
        RequestSpec,
        Error,
    >)
        ensures
            !user_or_admin(access_token.scopes@, user_id) ==> is_forbidden(
                r,
                "the token must be an unexpired admin or user token, and in the case of a user token, the ID in the token must match the given ID"@,
            ),
            r matches Err(e) ==> (e matches Error::Forbidden(m) && m@
                == "the token must be an unexpired admin or user token, and in the case of a user token, the ID in the token must match the given ID"@),
            r matches Ok(q) ==> ({
                &&& user_or_admin(access_token.scopes@, user_id)
                &&& q.method == Method::Post
                &&& q.url@ == self.url@ + "update_user/"@ + spec_decimal(user_id as nat)
                &&& is_bearer(q.auth, access_token.access_token@)
                &&& (q.body matches Some(b) && b@ == wire::json_write(
                    spec_update_user_json(
                        None,
                        None,
                        None,
                        None,
                        None,
                        None,
                        None,
                        Some(phone@),
                        None,
                        None,
                    ),
                ))
            }),
    {
        self.set_phone_at(access_token, user_id, phone, crate::wire::timestamp_now())
    }

    /// As `set_phone`, with the expiry decided against the instant `now`:
    /// the request is built exactly when the token's scopes allow the
    /// call and `now` is before the token's expiration.
    pub fn set_phone_at(&self, access_token: &AccessToken, user_id: u64, phone: &str, now: i64) -> (r: Result<
        RequestSpec,
        Error,
    >)
        ensures
            (r is Ok <==> (user_or_admin(access_token.scopes@, user_id) && now < access_token.expiration)),
            !user_or_admin(access_token.scopes@, user_id) ==> is_forbidden(
                r,
                "the token must be an unexpired admin or user token, and in the case of a user token, the ID in the token must match the given ID"@,
            ),
            r matches Err(e) ==> (e matches Error::Forbidden(m) && m@
                == "the token must be an unexpired admin or user token, and in the case of a user token, the ID in the token must match the given ID"@),
            r matches Ok(q) ==> ({
                &&& user_or_admin(access_token.scopes@, user_id)
                &&& q.method == Method::Post
                &&& q.url@ == self.url@ + "update_user/"@ + spec_decimal(user_id as nat)
                &&& is_bearer(q.auth, access_token.access_token@)
                &&& (q.body matches Some(b) && b@ == wire::json_write(
                    spec_update_user_json(
                        None,
                        None,
                        None,
                        None,
                        None,
                        None,
                        None,
                        Some(phone@),
                        None,
                        None,
                    ),
                ))
            }),
    {
        if (access_token.is_user(user_id) || access_token.is_admin())
            && !access_token.has_expired_at(now) {
            let body = encode_update_user(
                None,
                None,
                None,
                None,
                None,
                None,
                None,
                Some(phone),
                None,
                None,
            );
            Ok(
                RequestSpec {
                    method: Method::Post,
                    url: self.url.clone().concat("update_user/").concat(
                        u64_to_string(user_id).as_str(),
                    ),
                    auth: Auth::Bearer { token: access_token.get_token() },
                    body: Some(body),
                },
            )
        } else {
            Err(
                Error::Forbidden(
                    "the token must be an unexpired admin or user token, and in the case of a user token, the ID in the token must match the given ID".to_owned(),
                ),
            )
        }
    }

    /// Builds the request that sets the user's birthday:
    /// `POST update_user/{user_id}` with only the birthday field set.  An
    /// unexpired token with the matching user scope or the admin scope is
    /// required.
    ///
    /// Expiry is decided against the wall clock; `set_birthday_at` fixes the
    /// result for each clock instant.
    pub fn set_birthday(&self, access_token: &AccessToken, user_id: u64, birthday: Date) -> (r:
        Result<RequestSpec, Error>)
        ensures
            !user_or_admin(access_token.scopes@, user_id) ==> is_forbidden(
                r,
                "the token must be an unexpired admin or user token, and in the case of a user token, the ID in the token must match the given ID"@,
            ),
            r matches Err(e) ==> (e matches Error::Forbidden(m) && m@
                == "the token must be an unexpired admin or user token, and in the case of a user token, the ID in the token must match the given ID"@),
            r matches Ok(q) ==> ({
                &&& user_or_admin(access_token.scopes@, user_id)
                &&& q.method == Method::Post
                &&& q.url@ == self.url@ + "update_user/"@ + spec_decimal(user_id as nat)
                &&& is_bearer(q.auth, access_token.access_token@)
                &&& (q.body matches Some(b) && b@ == wire::json_write(
                    spec_update_user_json(
                        None,
                        None,
                        None,
                        None,
                        None,
                        None,
                        Some(birthday),
                        None,
                        None,
                        None,
                    ),
                ))
            }),
    {
        self.set_birthday_at(access_token, user_id, birthday, crate::wire::timestamp_now())
    }

    /// As `set_birthday`, with the expiry decided against the instant `now`:
    /// the request is built exactly when the token's scopes allow the
    /// call and `now` is before the token's expiration.
    pub fn set_birthday_at(&self, access_token: &AccessToken, user_id: u64, birthday: Date, now: i64) -> (r:
        Result<RequestSpec, Error>)
        ensures
            (r is Ok <==> (user_or_admin(access_token.scopes@, user_id) && now < access_token.expiration)),
            !user_or_admin(access_token.scopes@, user_id) ==> is_forbidden(
                r,
                "the token must be an unexpired admin or user token, and in the case of a user token, the ID in the token must match the given ID"@,
            ),
            r matches Err(e) ==> (e matches Error::Forbidden(m) && m@
                == "the token must be an unexpired admin or user token, and in the case of a user token, the ID in the token must match the given ID"@),
            r matches Ok(q) ==> ({
                &&& user_or_admin(access_token.scopes@, user_id)
                &&& q.method == Method::Post
                &&& q.url@ == self.url@ + "update_user/"@ + spec_decimal(user_id as nat)
                &&& is_bearer(q.auth, access_token.access_token@)
                &&& (q.body matches Some(b) && b@ == wire::json_write(
                    spec_update_user_json(
                        None,
                        None,
                        None,
                        None,
                        None,
                        None,
                        Some(birthday),
                        None,
                        None,
                        None,
                    ),
                ))
            }),
    {
        if (access_token.is_user(user_id) || access_token.is_admin())
            && !access_token.has_expired_at(now) {
            let body = encode_update_user(
                None,
                None,
                None,
                None,
                None,
                None,
                Some(&birthday),
                None,
                None,
                None,
            );
            Ok(
                RequestSpec {
                    method: Method::Post,
                    url: self.url.clone().concat("update_user/").concat(
                        u64_to_string(user_id).as_str(),
                    ),
                    auth: Auth::Bearer { token: access_token.get_token() },
                    body: Some(body),
                },
            )
        } else {
            Err(
                Error::Forbidden(
                    "the token must be an unexpired admin or user token, and in the case of a user token, the ID in the token must match the given ID".to_owned(),
                ),
            )
        }
    }

    /// Builds the request that sets the user's first and last name:
    /// `POST update_user/{user_id}` with only the name fields set.  An
    /// unexpired token with the matching user scope or the admin scope is
    /// required.
    ///
    /// Expiry is decided against the wall clock; `set_name_at` fixes the
    /// result for each clock instant.
    pub fn set_name(
        &self,
        access_token: &AccessToken,
        user_id: u64,
        first: &str,
        last: &str,
    ) -> (r: Result<RequestSpec, Error>)
        ensures
            !user_or_admin(access_token.scopes@, user_id) ==> is_forbidden(
                r,
                "the token must be an unexpired admin or user token, and in the case of a user token, the ID in the token must match the given ID"@,
            ),
            r matches Err(e) ==> (e matches Error::Forbidden(m) && m@
                == "the token must be an unexpired admin or user token, and in the case of a user token, the ID in the token must match the given ID"@),
            r matches Ok(q) ==> ({
                &&& user_or_admin(access_token.scopes@, user_id)
                &&& q.method == Method::Post
                &&& q.url@ == self.url@ + "update_user/"@ + spec_decimal(user_id as nat)
                &&& is_bearer(q.auth, access_token.access_token@)
                &&& (q.body matches Some(b) && b@ == wire::json_write(
                    spec_update_user_json(
                        None,
                        None,
                        None,
                        Some(first@),
                        Some(last@),
                        None,
                        None,
                        None,
                        None,
                        None,
                    ),
                ))
            }),
    {
        self.set_name_at(access_token, user_id, first, last, crate::wire::timestamp_now())
    }

    /// As `set_name`, with the expiry decided against the instant `now`:
    /// the request is built exactly when the token's scopes allow the
    /// call and `now` is before the token's expiration.
    pub fn set_name_at(
        &self,
        access_token: &AccessToken,
        user_id: u64,
        first: &str,
        last: &str,
        now: i64,
    ) -> (r: Result<RequestSpec, Error>)
        ensures
            (r is Ok <==> (user_or_admin(access_token.scopes@, user_id) && now < access_token.expiration)),
            !user_or_admin(access_token.scopes@, user_id) ==> is_forbidden(
                r,
                "the token must be an unexpired admin or user token, and in the case of a user token, the ID in the token must match the given ID"@,
            ),
            r matches Err(e) ==> (e matches Error::Forbidden(m) && m@
                == "the token must be an unexpired admin or user token, and in the case of a user token, the ID in the token must match the given ID"@),
            r matches Ok(q) ==> ({
                &&& user_or_admin(access_token.scopes@, user_id)
                &&& q.method == Method::Post
                &&& q.url@ == self.url@ + "update_user/"@ + spec_decimal(user_id as nat)
                &&& is_bearer(q.auth, access_token.access_token@)
                &&& (q.body matches Some(b) && b@ == wire::json_write(
                    spec_update_user_json(
                        None,
                        None,
                        None,
                        Some(first@),
                        Some(last@),
                        None,
                        None,
                        None,
                        None,
                        None,
                    ),
                ))
            }),
    {
        if (access_token.is_user(user_id) || access_token.is_admin())
            && !access_token.has_expired_at(now) {
            let body = encode_update_user(
                None,
                None,
                None,
                Some(first),
                Some(last),
                None,
                None,
                None,
                None,
                None,
            );
            Ok(
                RequestSpec {
                    method: Method::Post,
                    url: self.url.clone().concat("update_user/").concat(
                        u64_to_string(user_id).as_str(),
                    ),
                    auth: Auth::Bearer { token: access_token.get_token() },
                    body: Some(body),
                },
            )
        } else {
            Err(
                Error::Forbidden(
                    "the token must be an unexpired admin or user token, and in the case of a user token, the ID in the token must match the given ID".to_owned(),
                ),
            )
        }
    }

    /// Builds the request that sets the user's email:
    /// `POST update_user/{user_id}` with only the email field set.  An
    /// unexpired token with the matching user scope or the admin scope is
    /// required.
    ///
    /// Expiry is decided against the wall clock; `set_email_at` fixes the
    /// result for each clock instant.
    pub fn set_email(&self, access_token: &AccessToken, user_id: u64, email: &str) -> (r: Result<
        RequestSpec,
        Error,
    >)
        ensures
            !user_or_admin(access_token.scopes@, user_id) ==> is_forbidden(
                r,
                "the token must be an unexpired admin or user token, and in the case of a user token, the ID in the token must match the given ID"@,
            ),
            r matches Err(e) ==> (e matches Error::Forbidden(m) && m@
                == "the token must be an unexpired admin or user token, and in the case of a user token, the ID in the token must match the given ID"@),
            r matches Ok(q) ==> ({
                &&& user_or_admin(access_token.scopes@, user_id)
                &&& q.method == Method::Post
                &&& q.url@ == self.url@ + "update_user/"@ + spec_decimal(user_id as nat)
                &&& is_bearer(q.auth, access_token.access_token@)
                &&& (q.body matches Some(b) && b@ == wire::json_write(
                    spec_update_user_json(
                        None,
                        None,
                        None,
                        None,
                        None,
                        None,
                        None,
                        None,
                        Some(email@),
                        None,
                    ),
                ))
            }),
    {
        self.set_email_at(access_token, user_id, email, crate::wire::timestamp_now())
    }

    /// As `set_email`, with the expiry decided against the instant `now`:
    /// the request is built exactly when the token's scopes allow the
    /// call and `now` is before the token's expiration.
    pub fn set_email_at(&self, access_token: &AccessToken, user_id: u64, email: &str, now: i64) -> (r: Result<
        RequestSpec,
        Error,
    >)
        ensures
            (r is Ok <==> (user_or_admin(access_token.scopes@, user_id) && now < access_token.expiration)),
            !user_or_admin(access_token.scopes@, user_id) ==> is_forbidden(
                r,
                "the token must be an unexpired admin or user token, and in the case of a user token, the ID in the token must match the given ID"@,
            ),
            r matches Err(e) ==> (e matches Error::Forbidden(m) && m@
                == "the token must be an unexpired admin or user token, and in the case of a user token, the ID in the token must match the given ID"@),
            r matches Ok(q) ==> ({
                &&& user_or_admin(access_token.scopes@, user_id)
                &&& q.method == Method::Post
                &&& q.url@ == self.url@ + "update_user/"@ + spec_decimal(user_id as nat)
                &&& is_bearer(q.auth, access_token.access_token@)
                &&& (q.body matches Some(b) && b@ == wire::json_write(
                    spec_update_user_json(
                        None,
                        None,
                        None,
                        None,
                        None,
                        None,
                        None,
                        None,
                        Some(email@),
                        None,
                    ),
                ))
            }),
    {
        if (access_token.is_user(user_id) || access_token.is_admin())
            && !access_token.has_expired_at(now) {
            let body = encode_update_user(
                None,
                None,
                None,
                None,
                None,
                None,
                None,
                None,
                Some(email),
                None,
            );
            Ok(
                RequestSpec {
                    method: Method::Post,
                    url: self.url.clone().concat("update_user/").concat(
                        u64_to_string(user_id).as_str(),
                    ),
                    auth: Auth::Bearer { token: access_token.get_token() },
                    body: Some(body),
                },
            )
        } else {
            Err(
                Error::Forbidden(
                    "the token must be an unexpired admin or user token, and in the case of a user token, the ID in the token must match the given ID".to_owned(),
                ),
            )
        }
    }

    /// Builds the request that sets the user's profile picture to the given
    /// URL: `POST update_user/{user_id}` with only the image field set.  An
    /// unexpired token with the matching user scope or the admin scope is
    /// required.
    ///
    /// Expiry is decided against the wall clock; `set_image_at` fixes the
    /// result for each clock instant.
    pub fn set_image(&self, access_token: &AccessToken, user_id: u64, image_url: &str) -> (r:
        Result<RequestSpec, Error>)
        ensures
            !user_or_admin(access_token.scopes@, user_id) ==> is_forbidden(
                r,
                "the token must be an unexpired admin or user token, and in the case of a user token, the ID in the token must match the given ID"@,
            ),
            r matches Err(e) ==> (e matches Error::Forbidden(m) && m@
                == "the token must be an unexpired admin or user token, and in the case of a user token, the ID in the token must match the given ID"@),
            r matches Ok(q) ==> ({
                &&& user_or_admin(access_token.scopes@, user_id)
                &&& q.method == Method::Post
                &&& q.url@ == self.url@ + "update_user/"@ + spec_decimal(user_id as nat)
                &&& is_bearer(q.auth, access_token.access_token@)
                &&& (q.body matches Some(b) && b@ == wire::json_write(
                    spec_update_user_json(
                        None,
                        None,
                        None,
                        None,
                        None,
                        None,
                        None,
                        None,
                        None,
                        Some(image_url@),
                    ),
                ))
            }),
    {
        self.set_image_at(access_token, user_id, image_url, crate::wire::timestamp_now())
    }

    /// As `set_image`, with the expiry decided against the instant `now`:
    /// the request is built exactly when the token's scopes allow the
    /// call and `now` is before the token's expiration.
    pub fn set_image_at(&self, access_token: &AccessToken, user_id: u64, image_url: &str, now: i64) -> (r:
        Result<RequestSpec, Error>)
        ensures
            (r is Ok <==> (user_or_admin(access_token.scopes@, user_id) && now < access_token.expiration)),
            !user_or_admin(access_token.scopes@, user_id) ==> is_forbidden(
                r,
                "the token must be an unexpired admin or user token, and in the case of a user token, the ID in the token must match the given ID"@,
            ),
            r matches Err(e) ==> (e matches Error::Forbidden(m) && m@
                == "the token must be an unexpired admin or user token, and in the case of a user token, the ID in the token must match the given ID"@),
            r matches Ok(q) ==> ({
                &&& user_or_admin(access_token.scopes@, user_id)
                &&& q.method == Method::Post
                &&& q.url@ == self.url@ + "update_user/"@ + spec_decimal(user_id as nat)
                &&& is_bearer(q.auth, access_token.access_token@)
                &&& (q.body matches Some(b) && b@ == wire::json_write(
                    spec_update_user_json(
                        None,
                        None,
                        None,
                        None,
                        None,
                        None,
                        None,
                        None,
                        None,
                        Some(image_url@),
                    ),
                ))
            }),
    {
        if (access_token.is_user(user_id) || access_token.is_admin())
            && !access_token.has_expired_at(now) {
            let body = encode_update_user(
                None,
                None,
                None,
                None,
                None,
                None,
                None,
                None,
                None,
                Some(image_url),
            );
            Ok(
                RequestSpec {
                    method: Method::Post,
                    url: self.url.clone().concat("update_user/").concat(
                        u64_to_string(user_id).as_str(),
                    ),
                    auth: Auth::Bearer { token: access_token.get_token() },
                    body: Some(body),
                },
            )
        } else {
            Err(
                Error::Forbidden(
                    "the token must be an unexpired admin or user token, and in the case of a user token, the ID in the token must match the given ID".to_owned(),
                ),
            )
        }
    }

    /// Builds the request that sets the user's address:
    /// `POST update_user/{user_id}` with only the address field set.  An
    /// unexpired token with the matching user scope or the admin scope is
    /// required.
    ///
    /// Expiry is decided against the wall clock; `set_address_at` fixes the
    /// result for each clock instant.
    pub fn set_address(&self, access_token: &AccessToken, user_id: u64, address: Address) -> (r:
        Result<RequestSpec, Error>)
        ensures
            !user_or_admin(access_token.scopes@, user_id) ==> is_forbidden(
                r,
                "the token must be an unexpired admin or user token, and in the case of a user token, the ID in the token must match the given ID"@,
            ),
            r matches Err(e) ==> (e matches Error::Forbidden(m) && m@
                == "the token must be an unexpired admin or user token, and in the case of a user token, the ID in the token must match the given ID"@),
            r matches Ok(q) ==> ({
                &&& user_or_admin(access_token.scopes@, user_id)
                &&& q.method == Method::Post
                &&& q.url@ == self.url@ + "update_user/"@ + spec_decimal(user_id as nat)
                &&& is_bearer(q.auth, access_token.access_token@)
                &&& (q.body matches Some(b) && b@ == wire::json_write(
                    spec_update_user_json(
                        None,
                        None,
                        None,
                        None,
                        None,
                        Some(address),
                        None,
                        None,
                        None,
                        None,
                    ),
                ))
            }),
    {
        self.set_address_at(access_token, user_id, address, crate::wire::timestamp_now())
    }

    /// As `set_address`, with the expiry decided against the instant `now`:
    /// the request is built exactly when the token's scopes allow the
    /// call and `now` is before the token's expiration.
    pub fn set_address_at(&self, access_token: &AccessToken, user_id: u64, address: Address, now: i64) -> (r:
        Result<RequestSpec, Error>)
        ensures
            (r is Ok <==> (user_or_admin(access_token.scopes@, user_id) && now < access_token.expiration)),
            !user_or_admin(access_token.scopes@, user_id) ==> is_forbidden(
                r,
                "the token must be an unexpired admin or user token, and in the case of a user token, the ID in the token must match the given ID"@,
            ),
            r matches Err(e) ==> (e matches Error::Forbidden(m) && m@
                == "the token must be an unexpired admin or user token, and in the case of a user token, the ID in the token must match the given ID"@),
            r matches Ok(q) ==> ({
                &&& user_or_admin(access_token.scopes@, user_id)
                &&& q.method == Method::Post
                &&& q.url@ == self.url@ + "update_user/"@ + spec_decimal(user_id as nat)
                &&& is_bearer(q.auth, access_token.access_token@)
                &&& (q.body matches Some(b) && b@ == wire::json_write(
                    spec_update_user_json(
                        None,
                        None,
                        None,
                        None,
                        None,
                        Some(address),
                        None,
                        None,
                        None,
                        None,
                    ),
                ))
            }),
    {
        if (access_token.is_user(user_id) || access_token.is_admin())
            && !access_token.has_expired_at(now) {
            let body = encode_update_user(
                None,
                None,
                None,
                None,
                None,
                Some(&address),
                None,
                None,
                None,
                None,
            );
            Ok(
                RequestSpec {
                    method: Method::Post,
                    url: self.url.clone().concat("update_user/").concat(
                        u64_to_string(user_id).as_str(),
                    ),
                    auth: Auth::Bearer { token: access_token.get_token() },
                    body: Some(body),
                },
            )
        } else {
            Err(
                Error::Forbidden(
                    "the token must be an unexpired admin or user token, and in the case of a user token, the ID in the token must match the given ID".to_owned(),
                ),
            )
        }
    }

    /// Builds the request that changes the logged-in user's password:
    /// `POST update_user/{id}` for the ID carried by the token, with the
    /// old and new password fields set.  An unexpired user token is
    /// required.
    ///
    /// Expiry is decided against the wall clock; `set_password_at` fixes the
    /// result for each clock instant.
    pub fn set_password(
        &self,
        access_token: &AccessToken,
        old_password: &str,
        new_password: &str,
    ) -> (r: Result<RequestSpec, Error>)
        ensures
            spec_first_user_id(access_token.scopes@) is None ==> is_forbidden(
                r,
                "the token must be an unexpired user token"@,
            ),
            r matches Err(e) ==> (e matches Error::Forbidden(m) && m@
                == "the token must be an unexpired user token"@),
            r matches Ok(q) ==> ({
                &&& spec_first_user_id(access_token.scopes@) matches Some(uid)
                &&& q.method == Method::Post
                &&& q.url@ == self.url@ + "update_user/"@ + spec_decimal(uid as nat)
                &&& is_bearer(q.auth, access_token.access_token@)
                &&& (q.body matches Some(b) && b@ == wire::json_write(
                    spec_update_user_json(
                        None,
                        Some(old_password@),
                        Some(new_password@),
                        None,
                        None,
                        None,
                        None,
                        None,
                        None,
                        None,
                    ),
                ))
            }),
    {
        self.set_password_at(access_token, old_password, new_password, crate::wire::timestamp_now())
    }

    /// As `set_password`, with the expiry decided against the instant `now`:
    /// the request is built exactly when the token's scopes allow the
    /// call and `now` is before the token's expiration.
    pub fn set_password_at(
        &self,
        access_token: &AccessToken,
        old_password: &str,
        new_password: &str,
        now: i64,
    ) -> (r: Result<RequestSpec, Error>)
        ensures
            (r is Ok <==> (spec_first_user_id(access_token.scopes@) is Some && now < access_token.expiration)),
            spec_first_user_id(access_token.scopes@) is None ==> is_forbidden(
                r,
                "the token must be an unexpired user token"@,
            ),
            r matches Err(e) ==> (e matches Error::Forbidden(m) && m@
                == "the token must be an unexpired user token"@),
            r matches Ok(q) ==> ({
                &&& spec_first_user_id(access_token.scopes@) matches Some(uid)
                &&& q.method == Method::Post
                &&& q.url@ == self.url@ + "update_user/"@ + spec_decimal(uid as nat)
                &&& is_bearer(q.auth, access_token.access_token@)
                &&& (q.body matches Some(b) && b@ == wire::json_write(
                    spec_update_user_json(
                        None,
                        Some(old_password@),
                        Some(new_password@),
                        None,
                        None,
                        None,
                        None,
                        None,
                        None,
                        None,
                    ),
                ))
            }),
    {
        let user_id = access_token.get_user_id();
        if user_id.is_some() && !access_token.has_expired_at(now) {
            let body = encode_update_user(
                None,
                Some(old_password),
                Some(new_password),
                None,
                None,
                None,
                None,
                None,
                None,
                None,
            );
            Ok(
                RequestSpec {
                    method: Method::Post,
                    url: self.url.clone().concat("update_user/").concat(
                        u64_to_string(user_id.unwrap()).as_str(),
                    ),
                    auth: Auth::Bearer { token: access_token.get_token() },
                    body: Some(body),
                },
            )
        } else {
            Err(Error::Forbidden("the token must be an unexpired user token".to_owned()))
        }
    }

    /// Builds the request that searches users with the given text, matching
    /// it against names, emails and the like: `POST search_user`.  An
    /// unexpired public or user token is required; to include the current
    /// user or their friends the token must carry a user scope, so those
    /// flags are only allowed with one.  The `200` body answers with a
    /// profile list, read by `crate::responses::profiles_from_body`.
    ///
    /// Expiry is decided against the wall clock; `search_user_random_at` fixes the
    /// result for each clock instant.
    pub fn search_user_random(
        &self,
        access_token: &AccessToken,
        random: &str,
        include_me: bool,
        include_friends: bool,
    ) -> (r: Result<RequestSpec, Error>)
        requires
            (include_me || include_friends) ==> spec_first_user_id(access_token.scopes@) is Some,
        ensures
            !(access_token.scopes@.contains(Scope::Public) || spec_first_user_id(
                access_token.scopes@,
            ) is Some) ==> is_forbidden(r, "the token must be an unexpired public or user token"@),
            r matches Err(e) ==> (e matches Error::Forbidden(m) && m@
                == "the token must be an unexpired public or user token"@),
            r matches Ok(q) ==> ({
                &&& (access_token.scopes@.contains(Scope::Public) || spec_first_user_id(
                    access_token.scopes@,
                ) is Some)
                &&& q.method == Method::Post
                &&& q.url@ == self.url@ + "search_user"@
                &&& is_bearer(q.auth, access_token.access_token@)
                &&& (q.body matches Some(b) && b@ == wire::json_write(
                    spec_search_user_json(random@, include_me, include_friends),
                ))
            }),
    {
        self.search_user_random_at(access_token, random, include_me, include_friends, crate::wire::timestamp_now())
    }

    /// As `search_user_random`, with the expiry decided against the instant `now`:
    /// the request is built exactly when the token's scopes allow the
    /// call and `now` is before the token's expiration.
    pub fn search_user_random_at(
        &self,
        access_token: &AccessToken,
        random: &str,
        include_me: bool,
        include_friends: bool,
        now: i64,
    ) -> (r: Result<RequestSpec, Error>)
        requires
            (include_me || include_friends) ==> spec_first_user_id(access_token.scopes@) is Some,
        ensures
            (r is Ok <==> ((access_token.scopes@.contains(Scope::Public) || spec_first_user_id(
                access_token.scopes@,
            ) is Some) && now < access_token.expiration)),
            !(access_token.scopes@.contains(Scope::Public) || spec_first_user_id(
                access_token.scopes@,
            ) is Some) ==> is_forbidden(r, "the token must be an unexpired public or user token"@),
            r matches Err(e) ==> (e matches Error::Forbidden(m) && m@
                == "the token must be an unexpired public or user token"@),
            r matches Ok(q) ==> ({
                &&& (access_token.scopes@.contains(Scope::Public) || spec_first_user_id(
                    access_token.scopes@,
                ) is Some)
                &&& q.method == Method::Post
                &&& q.url@ == self.url@ + "search_user"@
                &&& is_bearer(q.auth, access_token.access_token@)
                &&& (q.body matches Some(b) && b@ == wire::json_write(
                    spec_search_user_json(random@, include_me, include_friends),
                ))
            }),
    {
        let user_id = access_token.get_user_id();
        if (access_token.is_public() || user_id.is_some()) && !access_token.has_expired_at(now) {
            let body = encode_search_user(random, include_me, include_friends);
            Ok(
                RequestSpec {
                    method: Method::Post,
                    url: self.url.clone().concat("search_user"),
                    auth: Auth::Bearer { token: access_token.get_token() },
                    body: Some(body),
                },
            )
        } else {
            Err(Error::Forbidden("the token must be an unexpired public or user token".to_owned()))
        }
    }

    /// Builds the request that sends the address confirmation:
    /// `GET send_address_confirmation`.  An unexpired user token is
    /// required.
    ///
    /// Expiry is decided against the wall clock; `send_address_confirmation_at` fixes the
    /// result for each clock instant.
    pub fn send_address_confirmation(&self, access_token: &AccessToken) -> (r: Result<
        RequestSpec,
        Error,
    >)
        ensures
            spec_first_user_id(access_token.scopes@) is None ==> is_forbidden(
                r,
                "the token must be an unexpired user token"@,
            ),
            r matches Err(e) ==> (e matches Error::Forbidden(m) && m@
                == "the token must be an unexpired user token"@),
            r matches Ok(q) ==> ({
                &&& spec_first_user_id(access_token.scopes@) is Some
                &&& q.method == Method::Get
                &&& q.url@ == self.url@ + "send_address_confirmation"@
                &&& is_bearer(q.auth, access_token.access_token@)
                &&& q.body is None
            }),
    {
        self.send_address_confirmation_at(access_token, crate::wire::timestamp_now())
    }

    /// As `send_address_confirmation`, with the expiry decided against the instant `now`:
    /// the request is built exactly when the token's scopes allow the
    /// call and `now` is before the token's expiration.
    pub fn send_address_confirmation_at(&self, access_token: &AccessToken, now: i64) -> (r: Result<
        RequestSpec,
        Error,
    >)
        ensures
            (r is Ok <==> (spec_first_user_id(access_token.scopes@) is Some && now < access_token.expiration)),
            spec_first_user_id(access_token.scopes@) is None ==> is_forbidden(
                r,
                "the token must be an unexpired user token"@,
            ),
            r matches Err(e) ==> (e matches Error::Forbidden(m) && m@
                == "the token must be an unexpired user token"@),
            r matches Ok(q) ==> ({
                &&& spec_first_user_id(access_token.scopes@) is Some
                &&& q.method == Method::Get
                &&& q.url@ == self.url@ + "send_address_confirmation"@
                &&& is_bearer(q.auth, access_token.access_token@)
                &&& q.body is None
            }),
    {
        if access_token.get_user_id().is_some() && !access_token.has_expired_at(now) {
            Ok(
                RequestSpec {
                    method: Method::Get,
                    url: self.url.clone().concat("send_address_confirmation"),
                    auth: Auth::Bearer { token: access_token.get_token() },
                    body: None,
                },
            )
        } else {
            Err(Error::Forbidden("the token must be an unexpired user token".to_owned()))
        }
    }

    /// Builds the request that initiates the user's verification:
    /// `POST initiate_user_verification`.  An unexpired user token is
    /// required.
    ///
    /// Expiry is decided against the wall clock; `initiate_user_verification_at` fixes the
    /// result for each clock instant.
    pub fn initiate_user_verification(&self, access_token: &AccessToken) -> (r: Result<
        RequestSpec,
        Error,
    >)
        ensures
            spec_first_user_id(access_token.scopes@) is None ==> is_forbidden(
                r,
                "the token must be an unexpired user token"@,
            ),
            r matches Err(e) ==> (e matches Error::Forbidden(m) && m@
                == "the token must be an unexpired user token"@),
            r matches Ok(q) ==> ({
                &&& spec_first_user_id(access_token.scopes@) is Some
                &&& q.method == Method::Post
                &&& q.url@ == self.url@ + "initiate_user_verification"@
                &&& is_bearer(q.auth, access_token.access_token@)
                &&& q.body is None
            }),
    {
        self.initiate_user_verification_at(access_token, crate::wire::timestamp_now())
    }

    /// As `initiate_user_verification`, with the expiry decided against the instant `now`:
    /// the request is built exactly when the token's scopes allow the
    /// call and `now` is before the token's expiration.
    pub fn initiate_user_verification_at(&self, access_token: &AccessToken, now: i64) -> (r: Result<
        RequestSpec,
        Error,
    >)
        ensures
            (r is Ok <==> (spec_first_user_id(access_token.scopes@) is Some && now < access_token.expiration)),
            spec_first_user_id(access_token.scopes@) is None ==> is_forbidden(
                r,
                "the token must be an unexpired user token"@,
            ),
            r matches Err(e) ==> (e matches Error::Forbidden(m) && m@
                == "the token must be an unexpired user token"@),
            r matches Ok(q) ==> ({
                &&& spec_first_user_id(access_token.scopes@) is Some
                &&& q.method == Method::Post
                &&& q.url@ == self.url@ + "initiate_user_verification"@
                &&& is_bearer(q.auth, access_token.access_token@)
                &&& q.body is None
            }),
    {
        if access_token.get_user_id().is_some() && !access_token.has_expired_at(now) {
            Ok(
                RequestSpec {
                    method: Method::Post,
                    url: self.url.clone().concat("initiate_user_verification"),
                    auth: Auth::Bearer { token: access_token.get_token() },
                    body: None,
                },
            )
        } else {
            Err(Error::Forbidden("the token must be an unexpired user token".to_owned()))
        }
    }

    /// Builds the request that asks for the logged-in user's verification
    /// status: `GET get_user_verification_status/{id}` for the ID carried
    /// by the token.  An unexpired user token is required.  The `200` body
    /// answers with a `{"message": ...}` envelope, read by
    /// `crate::responses::message_from_body`.
    ///
    /// Expiry is decided against the wall clock; `get_user_verification_status_at` fixes the
    /// result for each clock instant.
    pub fn get_user_verification_status(&self, access_token: &AccessToken) -> (r: Result<
        RequestSpec,
        Error,
    >)
        ensures
            spec_first_user_id(access_token.scopes@) is None ==> is_forbidden(
                r,
                "the token must be an unexpired user token"@,
            ),
            r matches Err(e) ==> (e matches Error::Forbidden(m) && m@
                == "the token must be an unexpired user token"@),
            r matches Ok(q) ==> ({
                &&& spec_first_user_id(access_token.scopes@) matches Some(uid)
                &&& q.method == Method::Get
                &&& q.url@ == self.url@ + "get_user_verification_status/"@ + spec_decimal(
                    uid as nat,
                )
                &&& is_bearer(q.auth, access_token.access_token@)
                &&& q.body is None
            }),
    {
        self.get_user_verification_status_at(access_token, crate::wire::timestamp_now())
    }

    /// As `get_user_verification_status`, with the expiry decided against the instant `now`:
    /// the request is built exactly when the token's scopes allow the
    /// call and `now` is before the token's expiration.
    pub fn get_user_verification_status_at(&self, access_token: &AccessToken, now: i64) -> (r: Result<
        RequestSpec,
        Error,
    >)
        ensures
            (r is Ok <==> (spec_first_user_id(access_token.scopes@) is Some && now < access_token.expiration)),
            spec_first_user_id(access_token.scopes@) is None ==> is_forbidden(
                r,
                "the token must be an unexpired user token"@,
            ),
            r matches Err(e) ==> (e matches Error::Forbidden(m) && m@
                == "the token must be an unexpired user token"@),
            r matches Ok(q) ==> ({
                &&& spec_first_user_id(access_token.scopes@) matches Some(uid)
                &&& q.method == Method::Get
                &&& q.url@ == self.url@ + "get_user_verification_status/"@ + spec_decimal(
                    uid as nat,
                )
                &&& is_bearer(q.auth, access_token.access_token@)
                &&& q.body is None
            }),
    {
        let user_id = access_token.get_user_id();
        if user_id.is_some() && !access_token.has_expired_at(now) {
            Ok(
                RequestSpec {
                    method: Method::Get,
                    url: self.url.clone().concat("get_user_verification_status/").concat(
                        u64_to_string(user_id.unwrap()).as_str(),
                    ),
                    auth: Auth::Bearer { token: access_token.get_token() },
                    body: None,
                },
            )
        } else {
            Err(Error::Forbidden("the token must be an unexpired user token".to_owned()))
        }
    }
}

} // verus!
