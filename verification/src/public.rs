//! Public methods for the client.
//!
//! These are the operations open to a public-scoped token: registering and
//! logging users in, confirming their information, and the mailing-list
//! subscriptions.  Each method checks the caller's token locally and builds
//! the request to send; a failed check is terminal and builds none.

use vstd::prelude::*;

use crate::digits::spec_decimal;
use crate::dto::{
    encode_login, encode_new_password, encode_register, encode_reset_password, opt_str_view,
    spec_login_json, spec_new_password_json, spec_register_json, spec_reset_password_json,
};
use crate::envelope::{is_bearer, is_forbidden, Auth, Method, RequestSpec};
use crate::error::Error;
use crate::oauth::{spec_first_user_id, AccessToken};
use crate::scope::Scope;
use crate::wire;
use crate::Client;

verus! {

impl Client {
    /// Builds the request that registers a user: `POST register`.  An
    /// unexpired public token is required.
    ///
    /// Expiry is decided against the wall clock; `register_at` fixes the
    /// result for each clock instant.
    pub fn register(
        &self,
        access_token: &AccessToken,
        username: &str,
        password: &str,
        email: &str,
        referer: Option<&str>,
    ) -> (r: Result<RequestSpec, Error>)
        ensures
            !access_token.scopes@.contains(Scope::Public) ==> is_forbidden(
                r,
                "the token must be an unexpired public token"@,
            ),
            r matches Err(e) ==> (e matches Error::Forbidden(m) && m@
                == "the token must be an unexpired public token"@),
            r matches Ok(q) ==> ({
                &&& access_token.scopes@.contains(Scope::Public)
                &&& q.method == Method::Post
                &&& q.url@ == self.url@ + "register"@
                &&& is_bearer(q.auth, access_token.access_token@)
                &&& (q.body matches Some(b) && b@ == wire::json_write(
                    spec_register_json(username@, password@, email@, opt_str_view(referer)),
                ))
            }),
    {
        self.register_at(access_token, username, password, email, referer, crate::wire::timestamp_now())
    }

    /// As `register`, with the expiry decided against the instant `now`:
    /// the request is built exactly when the token's scopes allow the
    /// call and `now` is before the token's expiration.
    pub fn register_at(
        &self,
        access_token: &AccessToken,
        username: &str,
        password: &str,
        email: &str,
        referer: Option<&str>,
        now: i64,
    ) -> (r: Result<RequestSpec, Error>)
        ensures
            (r is Ok <==> (access_token.scopes@.contains(Scope::Public) && now < access_token.expiration)),
            !access_token.scopes@.contains(Scope::Public) ==> is_forbidden(
                r,
                "the token must be an unexpired public token"@,
            ),
            r matches Err(e) ==> (e matches Error::Forbidden(m) && m@
                == "the token must be an unexpired public token"@),
            r matches Ok(q) ==> ({
                &&& access_token.scopes@.contains(Scope::Public)
                &&& q.method == Method::Post
                &&& q.url@ == self.url@ + "register"@
                &&& is_bearer(q.auth, access_token.access_token@)
                &&& (q.body matches Some(b) && b@ == wire::json_write(
                    spec_register_json(username@, password@, email@, opt_str_view(referer)),
                ))
            }),
    {
        if access_token.is_public() && !access_token.has_expired_at(now) {
            let body = encode_register(username, password, email, referer);
            Ok(
                RequestSpec {
                    method: Method::Post,
                    url: self.url.clone().concat("register"),
                    auth: Auth::Bearer { token: access_token.get_token() },
                    body: Some(body),
                },
            )
        } else {
            Err(Error::Forbidden("the token must be an unexpired public token".to_owned()))
        }
    }

    /// Builds the request that logs a user in: `POST login`.  An unexpired
    /// public token is required.  The `200` body answers with an access
    /// token, read by `crate::oauth::token_response`.
    ///
    /// Expiry is decided against the wall clock; `login_at` fixes the
    /// result for each clock instant.
    pub fn login(
        &self,
        access_token: &AccessToken,
        user_email: &str,
        password: &str,
        remember_me: bool,
    ) -> (r: Result<RequestSpec, Error>)
        ensures
            !access_token.scopes@.contains(Scope::Public) ==> is_forbidden(
                r,
                "the token must be an unexpired public token"@,
            ),
            r matches Err(e) ==> (e matches Error::Forbidden(m) && m@
                == "the token must be an unexpired public token"@),
            r matches Ok(q) ==> ({
                &&& access_token.scopes@.contains(Scope::Public)
                &&& q.method == Method::Post
                &&& q.url@ == self.url@ + "login"@
                &&& is_bearer(q.auth, access_token.access_token@)
                &&& (q.body matches Some(b) && b@ == wire::json_write(
                    spec_login_json(user_email@, password@, remember_me),
                ))
            }),
    {
        self.login_at(access_token, user_email, password, remember_me, crate::wire::timestamp_now())
    }

    /// As `login`, with the expiry decided against the instant `now`:
    /// the request is built exactly when the token's scopes allow the
    /// call and `now` is before the token's expiration.
    pub fn login_at(
        &self,
        access_token: &AccessToken,
        user_email: &str,
        password: &str,
        remember_me: bool,
        now: i64,
    ) -> (r: Result<RequestSpec, Error>)
        ensures
            (r is Ok <==> (access_token.scopes@.contains(Scope::Public) && now < access_token.expiration)),
            !access_token.scopes@.contains(Scope::Public) ==> is_forbidden(
                r,
                "the token must be an unexpired public token"@,
            ),
            r matches Err(e) ==> (e matches Error::Forbidden(m) && m@
                == "the token must be an unexpired public token"@),
            r matches Ok(q) ==> ({
                &&& access_token.scopes@.contains(Scope::Public)
                &&& q.method == Method::Post
                &&& q.url@ == self.url@ + "login"@
                &&& is_bearer(q.auth, access_token.access_token@)
                &&& (q.body matches Some(b) && b@ == wire::json_write(
                    spec_login_json(user_email@, password@, remember_me),
                ))
            }),
    {
        if access_token.is_public() && !access_token.has_expired_at(now) {
            let body = encode_login(user_email, password, remember_me);
            Ok(
                RequestSpec {
                    method: Method::Post,
                    url: self.url.clone().concat("login"),
                    auth: Auth::Bearer { token: access_token.get_token() },
                    body: Some(body),
                },
            )
        } else {
            Err(Error::Forbidden("the token must be an unexpired public token".to_owned()))
        }
    }

    /// Builds the request that confirms a user's email:
    /// `POST confirm_email/{email_key}`.  An unexpired public token is
    /// required.
    ///
    /// Expiry is decided against the wall clock; `confirm_email_at` fixes the
    /// result for each clock instant.
    pub fn confirm_email(&self, access_token: &AccessToken, email_key: &str) -> (r: Result<
        RequestSpec,
        Error,
    >)
        ensures
            !access_token.scopes@.contains(Scope::Public) ==> is_forbidden(
                r,
                "the token must be an unexpired public token"@,
            ),
            r matches Err(e) ==> (e matches Error::Forbidden(m) && m@
                == "the token must be an unexpired public token"@),
            r matches Ok(q) ==> ({
                &&& access_token.scopes@.contains(Scope::Public)
                &&& q.method == Method::Post
                &&& q.url@ == self.url@ + "confirm_email/"@ + email_key@
                &&& is_bearer(q.auth, access_token.access_token@)
                &&& q.body is None
            }),
    {
        self.confirm_email_at(access_token, email_key, crate::wire::timestamp_now())
    }

    /// As `confirm_email`, with the expiry decided against the instant `now`:
    /// the request is built exactly when the token's scopes allow the
    /// call and `now` is before the token's expiration.
    pub fn confirm_email_at(&self, access_token: &AccessToken, email_key: &str, now: i64) -> (r: Result<
        RequestSpec,
        Error,
    >)
        ensures
            (r is Ok <==> (access_token.scopes@.contains(Scope::Public) && now < access_token.expiration)),
            !access_token.scopes@.contains(Scope::Public) ==> is_forbidden(
                r,
                "the token must be an unexpired public token"@,
            ),
            r matches Err(e) ==> (e matches Error::Forbidden(m) && m@
                == "the token must be an unexpired public token"@),
            r matches Ok(q) ==> ({
                &&& access_token.scopes@.contains(Scope::Public)
                &&& q.method == Method::Post
                &&& q.url@ == self.url@ + "confirm_email/"@ + email_key@
                &&& is_bearer(q.auth, access_token.access_token@)
                &&& q.body is None
            }),
    {
        if access_token.is_public() && !access_token.has_expired_at(now) {
            Ok(
                RequestSpec {
                    method: Method::Post,
                    url: self.url.clone().concat("confirm_email/").concat(email_key),
                    auth: Auth::Bearer { token: access_token.get_token() },
                    body: None,
                },
            )
        } else {
            Err(Error::Forbidden("the token must be an unexpired public token".to_owned()))
        }
    }

    /// Builds the request that withdraws the confirmation of a user's
    /// email: `POST unconfirm_email/{email_key}`.  An unexpired public
    /// token is required.
    ///
    /// Expiry is decided against the wall clock; `unconfirm_email_at` fixes the
    /// result for each clock instant.
    pub fn unconfirm_email(&self, access_token: &AccessToken, email_key: &str) -> (r: Result<
        RequestSpec,
        Error,
    >)
        ensures
            !access_token.scopes@.contains(Scope::Public) ==> is_forbidden(
                r,
                "the token must be an unexpired public token"@,
            ),
            r matches Err(e) ==> (e matches Error::Forbidden(m) && m@
                == "the token must be an unexpired public token"@),
            r matches Ok(q) ==> ({
                &&& access_token.scopes@.contains(Scope::Public)
                &&& q.method == Method::Post
                &&& q.url@ == self.url@ + "unconfirm_email/"@ + email_key@
                &&& is_bearer(q.auth, access_token.access_token@)
                &&& q.body is None
            }),
    {
        self.unconfirm_email_at(access_token, email_key, crate::wire::timestamp_now())
    }

    /// As `unconfirm_email`, with the expiry decided against the instant `now`:
    /// the request is built exactly when the token's scopes allow the
    /// call and `now` is before the token's expiration.
    pub fn unconfirm_email_at(&self, access_token: &AccessToken, email_key: &str, now: i64) -> (r: Result<
        RequestSpec,
        Error,
    >)
        ensures
            (r is Ok <==> (access_token.scopes@.contains(Scope::Public) && now < access_token.expiration)),
            !access_token.scopes@.contains(Scope::Public) ==> is_forbidden(
                r,
                "the token must be an unexpired public token"@,
            ),
            r matches Err(e) ==> (e matches Error::Forbidden(m) && m@
                == "the token must be an unexpired public token"@),
            r matches Ok(q) ==> ({
                &&& access_token.scopes@.contains(Scope::Public)
                &&& q.method == Method::Post
                &&& q.url@ == self.url@ + "unconfirm_email/"@ + email_key@
                &&& is_bearer(q.auth, access_token.access_token@)
                &&& q.body is None
            }),
    {
        if access_token.is_public() && !access_token.has_expired_at(now) {
            Ok(
                RequestSpec {
                    method: Method::Post,
                    url: self.url.clone().concat("unconfirm_email/").concat(email_key),
                    auth: Auth::Bearer { token: access_token.get_token() },
                    body: None,
                },
            )
        } else {
            Err(Error::Forbidden("the token must be an unexpired public token".to_owned()))
        }
    }

    /// Builds the request that begins the password reset process:
    /// `POST start_reset_password`.  An unexpired public token is required.
    ///
    /// Expiry is decided against the wall clock; `start_reset_password_at` fixes the
    /// result for each clock instant.
    pub fn start_reset_password(&self, access_token: &AccessToken, email: &str) -> (r: Result<
        RequestSpec,
        Error,
    >)
        ensures
            !access_token.scopes@.contains(Scope::Public) ==> is_forbidden(
                r,
                "the token must be an unexpired public token"@,
            ),
            r matches Err(e) ==> (e matches Error::Forbidden(m) && m@
                == "the token must be an unexpired public token"@),
            r matches Ok(q) ==> ({
                &&& access_token.scopes@.contains(Scope::Public)
                &&& q.method == Method::Post
                &&& q.url@ == self.url@ + "start_reset_password"@
                &&& is_bearer(q.auth, access_token.access_token@)
                &&& (q.body matches Some(b) && b@ == wire::json_write(
                    spec_reset_password_json(email@),
                ))
            }),
    {
        self.start_reset_password_at(access_token, email, crate::wire::timestamp_now())
    }

    /// As `start_reset_password`, with the expiry decided against the instant `now`:
    /// the request is built exactly when the token's scopes allow the
    /// call and `now` is before the token's expiration.
    pub fn start_reset_password_at(&self, access_token: &AccessToken, email: &str, now: i64) -> (r: Result<
        RequestSpec,
        Error,
    >)
        ensures
            (r is Ok <==> (access_token.scopes@.contains(Scope::Public) && now < access_token.expiration)),
            !access_token.scopes@.contains(Scope::Public) ==> is_forbidden(
                r,
                "the token must be an unexpired public token"@,
            ),
            r matches Err(e) ==> (e matches Error::Forbidden(m) && m@
                == "the token must be an unexpired public token"@),
            r matches Ok(q) ==> ({
                &&& access_token.scopes@.contains(Scope::Public)
                &&& q.method == Method::Post
                &&& q.url@ == self.url@ + "start_reset_password"@
                &&& is_bearer(q.auth, access_token.access_token@)
                &&& (q.body matches Some(b) && b@ == wire::json_write(
                    spec_reset_password_json(email@),
                ))
            }),
    {
        if access_token.is_public() && !access_token.has_expired_at(now) {
            let body = encode_reset_password(email);
            Ok(
                RequestSpec {
                    method: Method::Post,
                    url: self.url.clone().concat("start_reset_password"),
                    auth: Auth::Bearer { token: access_token.get_token() },
                    body: Some(body),
                },
            )
        } else {
            Err(Error::Forbidden("the token must be an unexpired public token".to_owned()))
        }
    }

    /// Builds the request that sets the new password at the end of the
    /// reset process: `POST reset_password/{pass_key}`.  An unexpired
    /// public token is required.
    ///
    /// Expiry is decided against the wall clock; `reset_password_at` fixes the
    /// result for each clock instant.
    pub fn reset_password(
        &self,
        access_token: &AccessToken,
        pass_key: &str,
        new_password: &str,
    ) -> (r: Result<RequestSpec, Error>)
        ensures
            !access_token.scopes@.contains(Scope::Public) ==> is_forbidden(
                r,
                "the token must be an unexpired public token"@,
            ),
            r matches Err(e) ==> (e matches Error::Forbidden(m) && m@
                == "the token must be an unexpired public token"@),
            r matches Ok(q) ==> ({
                &&& access_token.scopes@.contains(Scope::Public)
                &&& q.method == Method::Post
                &&& q.url@ == self.url@ + "reset_password/"@ + pass_key@
                &&& is_bearer(q.auth, access_token.access_token@)
                &&& (q.body matches Some(b) && b@ == wire::json_write(
                    spec_new_password_json(new_password@),
                ))
            }),
    {
        self.reset_password_at(access_token, pass_key, new_password, crate::wire::timestamp_now())
    }

    /// As `reset_password`, with the expiry decided against the instant `now`:
    /// the request is built exactly when the token's scopes allow the
    /// call and `now` is before the token's expiration.
    pub fn reset_password_at(
        &self,
        access_token: &AccessToken,
        pass_key: &str,
        new_password: &str,
        now: i64,
    ) -> (r: Result<RequestSpec, Error>)
        ensures
            (r is Ok <==> (access_token.scopes@.contains(Scope::Public) && now < access_token.expiration)),
            !access_token.scopes@.contains(Scope::Public) ==> is_forbidden(
                r,
                "the token must be an unexpired public token"@,
            ),
            r matches Err(e) ==> (e matches Error::Forbidden(m) && m@
                == "the token must be an unexpired public token"@),
            r matches Ok(q) ==> ({
                &&& access_token.scopes@.contains(Scope::Public)
                &&& q.method == Method::Post
                &&& q.url@ == self.url@ + "reset_password/"@ + pass_key@
                &&& is_bearer(q.auth, access_token.access_token@)
                &&& (q.body matches Some(b) && b@ == wire::json_write(
                    spec_new_password_json(new_password@),
                ))
            }),
    {
        if access_token.is_public() && !access_token.has_expired_at(now) {
            let body = encode_new_password(new_password);
            Ok(
                RequestSpec {
                    method: Method::Post,
                    url: self.url.clone().concat("reset_password/").concat(pass_key),
                    auth: Auth::Bearer { token: access_token.get_token() },
                    body: Some(body),
                },
            )
        } else {
            Err(Error::Forbidden("the token must be an unexpired public token".to_owned()))
        }
    }

    /// Builds the request that subscribes an email to the mailing list:
    /// `POST subscribe_email`.  A public token is required; its expiry is
    /// not checked for this call.
    pub fn subscribe_email(
        &self,
        access_token: &AccessToken,
        user_email: &str,
        user_name: &str,
    ) -> (r: Result<RequestSpec, Error>)
        ensures
            (r is Ok <==> access_token.scopes@.contains(Scope::Public)),
            r matches Err(e) ==> (e matches Error::Forbidden(m) && m@
                == "the token must be an unexpired public token"@),
            r matches Ok(q) ==> ({
                &&& q.method == Method::Post
                &&& q.url@ == self.url@ + "subscribe_email"@
                &&& is_bearer(q.auth, access_token.access_token@)
                &&& (q.body matches Some(b) && b@ == wire::json_write(
                    spec_login_json(user_email@, user_name@, false),
                ))
            }),
    {
        if access_token.is_public() {
            let body = encode_login(user_email, user_name, false);
            Ok(
                RequestSpec {
                    method: Method::Post,
                    url: self.url.clone().concat("subscribe_email"),
                    auth: Auth::Bearer { token: access_token.get_token() },
                    body: Some(body),
                },
            )
        } else {
            Err(Error::Forbidden("the token must be an unexpired public token".to_owned()))
        }
    }

    /// Builds the request that confirms a mailing-list subscription:
    /// `POST confirm_subscribe_email/{email_key}`.  A public token is
    /// required; its expiry is not checked for this call.
    pub fn confirm_subscribe_email(&self, access_token: &AccessToken, email_key: &str) -> (r:
        Result<RequestSpec, Error>)
        ensures
            (r is Ok <==> access_token.scopes@.contains(Scope::Public)),
            r matches Err(e) ==> (e matches Error::Forbidden(m) && m@
                == "the token must be an unexpired public token"@),
            r matches Ok(q) ==> ({
                &&& q.method == Method::Post
                &&& q.url@ == self.url@ + "confirm_subscribe_email/"@ + email_key@
                &&& is_bearer(q.auth, access_token.access_token@)
                &&& q.body is None
            }),
    {
        if access_token.is_public() {
            Ok(
                RequestSpec {
                    method: Method::Post,
                    url: self.url.clone().concat("confirm_subscribe_email/").concat(email_key),
                    auth: Auth::Bearer { token: access_token.get_token() },
                    body: None,
                },
            )
        } else {
            Err(Error::Forbidden("the token must be an unexpired public token".to_owned()))
        }
    }

    /// Builds the request that asks for the next reward value of a user:
    /// `GET get_next_reward/{user_id}`.  An unexpired user token is
    /// required.  The `200` body answers with a `{"message": ...}`
    /// envelope, read by `crate::responses::response_from_body`.
    ///
    /// Expiry is decided against the wall clock; `get_next_reward_value_at` fixes the
    /// result for each clock instant.
    pub fn get_next_reward_value(&self, access_token: &AccessToken, user_id: u64) -> (r: Result<
        RequestSpec,
        Error,
    >)
        ensures
            spec_first_user_id(access_token.scopes@) is None ==> is_forbidden(
                r,
                "the token must be an unexpired public token"@,
            ),
            r matches Err(e) ==> (e matches Error::Forbidden(m) && m@
                == "the token must be an unexpired public token"@),
            r matches Ok(q) ==> ({
                &&& spec_first_user_id(access_token.scopes@) is Some
                &&& q.method == Method::Get
                &&& q.url@ == self.url@ + "get_next_reward/"@ + spec_decimal(user_id as nat)
                &&& is_bearer(q.auth, access_token.access_token@)
                &&& q.body is None
            }),
    {
        self.get_next_reward_value_at(access_token, user_id, crate::wire::timestamp_now())
    }

    /// As `get_next_reward_value`, with the expiry decided against the instant `now`:
    /// the request is built exactly when the token's scopes allow the
    /// call and `now` is before the token's expiration.
    pub fn get_next_reward_value_at(&self, access_token: &AccessToken, user_id: u64, now: i64) -> (r: Result<
        RequestSpec,
        Error,
    >)
        ensures
            (r is Ok <==> (spec_first_user_id(access_token.scopes@) is Some && now < access_token.expiration)),
            spec_first_user_id(access_token.scopes@) is None ==> is_forbidden(
                r,
                "the token must be an unexpired public token"@,
            ),
            r matches Err(e) ==> (e matches Error::Forbidden(m) && m@
                == "the token must be an unexpired public token"@),
            r matches Ok(q) ==> ({
                &&& spec_first_user_id(access_token.scopes@) is Some
                &&& q.method == Method::Get
                &&& q.url@ == self.url@ + "get_next_reward/"@ + spec_decimal(user_id as nat)
                &&& is_bearer(q.auth, access_token.access_token@)
                &&& q.body is None
            }),
    {
        let id = access_token.get_user_id();
        if id.is_some() && !access_token.has_expired_at(now) {
            Ok(
                RequestSpec {
                    method: Method::Get,
                    url: self.url.clone().concat("get_next_reward/").concat(
                        crate::digits::u64_to_string(user_id).as_str(),
                    ),
                    auth: Auth::Bearer { token: access_token.get_token() },
                    body: None,
                },
            )
        } else {
            Err(Error::Forbidden("the token must be an unexpired public token".to_owned()))
        }
    }
}

} // verus!
