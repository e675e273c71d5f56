//! Methods for working with friend requests.
//!
//! Each method checks the caller's token locally and builds the request to
//! send; a failed check is terminal and builds none.

use vstd::prelude::*;

use crate::digits::{spec_decimal, u64_to_string};
use crate::dto::{
    encode_confirm_friend_request, encode_friend_request, opt_str_view,
    spec_confirm_friend_request_json, spec_friend_request_json,
};
use crate::envelope::{is_bearer, is_forbidden, Auth, Method, RequestSpec};
use crate::error::Error;
use crate::oauth::{spec_first_user_id, AccessToken};
use crate::types::Relationship;
use crate::user::user_or_admin;
use crate::wire;
use crate::Client;

verus! {

impl Client {
    /// Builds the request that creates a pending invitation to connect to
    /// the user `user`: `POST create_friend_request`, originating from the
    /// ID carried by the token.  An unexpired user token is required.
    ///
    /// Expiry is decided against the wall clock; `send_friend_request_at` fixes the
    /// result for each clock instant.
    pub fn send_friend_request(
        &self,
        access_token: &AccessToken,
        user: u64,
        relation: Relationship,
        message: Option<&str>,
    ) -> (r: Result<RequestSpec, Error>)
        ensures
            spec_first_user_id(access_token.scopes@) is None ==> is_forbidden(
                r,
                "the token must be an unexpired user token"@,
            ),
            r matches Err(e) ==> (e matches Error::Forbidden(m) && m@
                == "the token must be an unexpired user token"@),
            r matches Ok(q) ==> ({
                &&& spec_first_user_id(access_token.scopes@) matches Some(uid)
                &&& q.method == Method::Post
                &&& q.url@ == self.url@ + "create_friend_request"@
                &&& is_bearer(q.auth, access_token.access_token@)
                &&& (q.body matches Some(b) && b@ == wire::json_write(
                    spec_friend_request_json(uid, user, opt_str_view(message), relation),
                ))
            }),
    {
        self.send_friend_request_at(access_token, user, relation, message, crate::wire::timestamp_now())
    }

    /// As `send_friend_request`, with the expiry decided against the instant `now`:
    /// the request is built exactly when the token's scopes allow the
    /// call and `now` is before the token's expiration.
    pub fn send_friend_request_at(
        &self,
        access_token: &AccessToken,
        user: u64,
        relation: Relationship,
        message: Option<&str>,
        now: i64,
    ) -> (r: Result<RequestSpec, Error>)
        ensures
            (r is Ok <==> (spec_first_user_id(access_token.scopes@) is Some && now < access_token.expiration)),
            spec_first_user_id(access_token.scopes@) is None ==> is_forbidden(
                r,
                "the token must be an unexpired user token"@,
            ),
            r matches Err(e) ==> (e matches Error::Forbidden(m) && m@
                == "the token must be an unexpired user token"@),
            r matches Ok(q) ==> ({
                &&& spec_first_user_id(access_token.scopes@) matches Some(uid)
                &&& q.method == Method::Post
                &&& q.url@ == self.url@ + "create_friend_request"@
                &&& is_bearer(q.auth, access_token.access_token@)
                &&& (q.body matches Some(b) && b@ == wire::json_write(
                    spec_friend_request_json(uid, user, opt_str_view(message), relation),
                ))
            }),
    {
        let user_id = access_token.get_user_id();
        if user_id.is_some() && !access_token.has_expired_at(now) {
            let body = encode_friend_request(user_id.unwrap(), user, message, relation);
            Ok(
                RequestSpec {
                    method: Method::Post,
                    url: self.url.clone().concat("create_friend_request"),
                    auth: Auth::Bearer { token: access_token.get_token() },
                    body: Some(body),
                },
            )
        } else {
            Err(Error::Forbidden("the token must be an unexpired user token".to_owned()))
        }
    }

    /// Builds the request that confirms a connection:
    /// `POST confirm_friend_request`, destined to the ID carried by the
    /// token.  An unexpired user token is required.
    ///
    /// Expiry is decided against the wall clock; `confirm_friend_request_at` fixes the
    /// result for each clock instant.
    pub fn confirm_friend_request(
        &self,
        access_token: &AccessToken,
        request_id: u64,
        user: u64,
    ) -> (r: Result<RequestSpec, Error>)
        ensures
            spec_first_user_id(access_token.scopes@) is None ==> is_forbidden(
                r,
                "the token must be an unexpired user token"@,
            ),
            r matches Err(e) ==> (e matches Error::Forbidden(m) && m@
                == "the token must be an unexpired user token"@),
            r matches Ok(q) ==> ({
                &&& spec_first_user_id(access_token.scopes@) matches Some(uid)
                &&& q.method == Method::Post
                &&& q.url@ == self.url@ + "confirm_friend_request"@
                &&& is_bearer(q.auth, access_token.access_token@)
                &&& (q.body matches Some(b) && b@ == wire::json_write(
                    spec_confirm_friend_request_json(request_id, user, uid),
                ))
            }),
    {
        self.confirm_friend_request_at(access_token, request_id, user, crate::wire::timestamp_now())
    }

    /// As `confirm_friend_request`, with the expiry decided against the instant `now`:
    /// the request is built exactly when the token's scopes allow the
    /// call and `now` is before the token's expiration.
    pub fn confirm_friend_request_at(
        &self,
        access_token: &AccessToken,
        request_id: u64,
        user: u64,
        now: i64,
    ) -> (r: Result<RequestSpec, Error>)
        ensures
            (r is Ok <==> (spec_first_user_id(access_token.scopes@) is Some && now < access_token.expiration)),
            spec_first_user_id(access_token.scopes@) is None ==> is_forbidden(
                r,
                "the token must be an unexpired user token"@,
            ),
            r matches Err(e) ==> (e matches Error::Forbidden(m) && m@
                == "the token must be an unexpired user token"@),
            r matches Ok(q) ==> ({
                &&& spec_first_user_id(access_token.scopes@) matches Some(uid)
                &&& q.method == Method::Post
                &&& q.url@ == self.url@ + "confirm_friend_request"@
                &&& is_bearer(q.auth, access_token.access_token@)
                &&& (q.body matches Some(b) && b@ == wire::json_write(
                    spec_confirm_friend_request_json(request_id, user, uid),
                ))
            }),
    {
        let user_id = access_token.get_user_id();
        if user_id.is_some() && !access_token.has_expired_at(now) {
            let body = encode_confirm_friend_request(request_id, user, user_id.unwrap());
            Ok(
                RequestSpec {
                    method: Method::Post,
                    url: self.url.clone().concat("confirm_friend_request"),
                    auth: Auth::Bearer { token: access_token.get_token() },
                    body: Some(body),
                },
            )
        } else {
            Err(Error::Forbidden("the token must be an unexpired user token".to_owned()))
        }
    }

    /// Builds the request that gets all the pending friend requests for the
    /// given user: `GET friend_requests/{user_id}`.  An unexpired token
    /// with the matching user scope or the admin scope is required.  The
    /// `200` body answers with a request list, read by
    /// `crate::responses::pending_requests_from_body`.
    ///
    /// Expiry is decided against the wall clock; `get_friend_requests_at` fixes the
    /// result for each clock instant.
    pub fn get_friend_requests(&self, access_token: &AccessToken, user_id: u64) -> (r: Result<
        RequestSpec,
        Error,
    >)
        ensures
            !user_or_admin(access_token.scopes@, user_id) ==> is_forbidden(
                r,
                "the token must be an unexpired user or admin token, and in the case of an user token, the ID in the token must be the same as the given ID"@,
            ),
            r matches Err(e) ==> (e matches Error::Forbidden(m) && m@
                == "the token must be an unexpired user or admin token, and in the case of an user token, the ID in the token must be the same as the given ID"@),
            r matches Ok(q) ==> ({
                &&& user_or_admin(access_token.scopes@, user_id)
                &&& q.method == Method::Get
                &&& q.url@ == self.url@ + "friend_requests/"@ + spec_decimal(user_id as nat)
                &&& is_bearer(q.auth, access_token.access_token@)
                &&& q.body is None
            }),
    {
        self.get_friend_requests_at(access_token, user_id, crate::wire::timestamp_now())
    }

    /// As `get_friend_requests`, with the expiry decided against the instant `now`:
    /// the request is built exactly when the token's scopes allow the
    /// call and `now` is before the token's expiration.
    pub fn get_friend_requests_at(&self, access_token: &AccessToken, user_id: u64, now: i64) -> (r: Result<
        RequestSpec,
        Error,
    >)
        ensures
            (r is Ok <==> (user_or_admin(access_token.scopes@, user_id) && now < access_token.expiration)),
            !user_or_admin(access_token.scopes@, user_id) ==> is_forbidden(
                r,
                "the token must be an unexpired user or admin token, and in the case of an user token, the ID in the token must be the same as the given ID"@,
            ),
            r matches Err(e) ==> (e matches Error::Forbidden(m) && m@
                == "the token must be an unexpired user or admin token, and in the case of an user token, the ID in the token must be the same as the given ID"@),
            r matches Ok(q) ==> ({
                &&& user_or_admin(access_token.scopes@, user_id)
                &&& q.method == Method::Get
                &&& q.url@ == self.url@ + "friend_requests/"@ + spec_decimal(user_id as nat)
                &&& is_bearer(q.auth, access_token.access_token@)
                &&& q.body is None
            }),
    {
        if (access_token.is_admin() || access_token.is_user(user_id))
            && !access_token.has_expired_at(now) {
            Ok(
                RequestSpec {
                    method: Method::Get,
                    url: self.url.clone().concat("friend_requests/").concat(
                        u64_to_string(user_id).as_str(),
                    ),
                    auth: Auth::Bearer { token: access_token.get_token() },
                    body: None,
                },
            )
        } else {
            Err(
                Error::Forbidden(
                    "the token must be an unexpired user or admin token, and in the case of an user token, the ID in the token must be the same as the given ID".to_owned(),
                ),
            )
        }
    }

    /// Builds the request that returns the given user's friends:
    /// `GET friends/{user_id}`.  An unexpired token with the matching user
    /// scope or the admin scope is required.  The `200` body answers with
    /// a profile list, read by `crate::responses::profiles_from_body`.
    ///
    /// Expiry is decided against the wall clock; `get_friends_at` fixes the
    /// result for each clock instant.
    pub fn get_friends(&self, access_token: &AccessToken, user_id: u64) -> (r: Result<
        RequestSpec,
        Error,
    >)
        ensures
            !user_or_admin(access_token.scopes@, user_id) ==> is_forbidden(
                r,
                "the token must be an unexpired user or admin token, and in the case of an user token, the ID in the token must be the same as the given ID"@,
            ),
            r matches Err(e) ==> (e matches Error::Forbidden(m) && m@
                == "the token must be an unexpired user or admin token, and in the case of an user token, the ID in the token must be the same as the given ID"@),
            r matches Ok(q) ==> ({
                &&& user_or_admin(access_token.scopes@, user_id)
                &&& q.method == Method::Get
                &&& q.url@ == self.url@ + "friends/"@ + spec_decimal(user_id as nat)
                &&& is_bearer(q.auth, access_token.access_token@)
                &&& q.body is None
            }),
    {
        self.get_friends_at(access_token, user_id, crate::wire::timestamp_now())
    }

    /// As `get_friends`, with the expiry decided against the instant `now`:
    /// the request is built exactly when the token's scopes allow the
    /// call and `now` is before the token's expiration.
    pub fn get_friends_at(&self, access_token: &AccessToken, user_id: u64, now: i64) -> (r: Result<
        RequestSpec,
        Error,
    >)
        ensures
            (r is Ok <==> (user_or_admin(access_token.scopes@, user_id) && now < access_token.expiration)),
            !user_or_admin(access_token.scopes@, user_id) ==> is_forbidden(
                r,
                "the token must be an unexpired user or admin token, and in the case of an user token, the ID in the token must be the same as the given ID"@,
            ),
            r matches Err(e) ==> (e matches Error::Forbidden(m) && m@
                == "the token must be an unexpired user or admin token, and in the case of an user token, the ID in the token must be the same as the given ID"@),
            r matches Ok(q) ==> ({
                &&& user_or_admin(access_token.scopes@, user_id)
                &&& q.method == Method::Get
                &&& q.url@ == self.url@ + "friends/"@ + spec_decimal(user_id as nat)
                &&& is_bearer(q.auth, access_token.access_token@)
                &&& q.body is None
            }),
    {
        if (access_token.is_admin() || access_token.is_user(user_id))
            && !access_token.has_expired_at(now) {
            Ok(
                RequestSpec {
                    method: Method::Get,
                    url: self.url.clone().concat("friends/").concat(
                        u64_to_string(user_id).as_str(),
                    ),
                    auth: Auth::Bearer { token: access_token.get_token() },
                    body: None,
                },
            )
        } else {
            Err(
                Error::Forbidden(
                    "the token must be an unexpired user or admin token, and in the case of an user token, the ID in the token must be the same as the given ID".to_owned(),
                ),
            )
        }
    }

    /// Builds the request that rejects the friend request with the given
    /// ID: `POST reject_friend_request/{request_id}`.  An unexpired user
    /// token is required.
    ///
    /// Expiry is decided against the wall clock; `reject_friend_request_at` fixes the
    /// result for each clock instant.
    pub fn reject_friend_request(&self, access_token: &AccessToken, request_id: u64) -> (r: Result<
        RequestSpec,
        Error,
    >)
        ensures
            spec_first_user_id(access_token.scopes@) is None ==> is_forbidden(
                r,
                "the token must be an unexpired user or admin token, and in the case of an user token, the ID in the token must be the same as the given ID"@,
            ),
            r matches Err(e) ==> (e matches Error::Forbidden(m) && m@
                == "the token must be an unexpired user or admin token, and in the case of an user token, the ID in the token must be the same as the given ID"@),
            r matches Ok(q) ==> ({
                &&& spec_first_user_id(access_token.scopes@) is Some
                &&& q.method == Method::Post
                &&& q.url@ == self.url@ + "reject_friend_request/"@ + spec_decimal(
                    request_id as nat,
                )
                &&& is_bearer(q.auth, access_token.access_token@)
                &&& q.body is None
            }),
    {
        self.reject_friend_request_at(access_token, request_id, crate::wire::timestamp_now())
    }

    /// As `reject_friend_request`, with the expiry decided against the instant `now`:
    /// the request is built exactly when the token's scopes allow the
    /// call and `now` is before the token's expiration.
    pub fn reject_friend_request_at(&self, access_token: &AccessToken, request_id: u64, now: i64) -> (r: Result<
        RequestSpec,
        Error,
    >)
        ensures
            (r is Ok <==> (spec_first_user_id(access_token.scopes@) is Some && now < access_token.expiration)),
            spec_first_user_id(access_token.scopes@) is None ==> is_forbidden(
                r,
                "the token must be an unexpired user or admin token, and in the case of an user token, the ID in the token must be the same as the given ID"@,
            ),
            r matches Err(e) ==> (e matches Error::Forbidden(m) && m@
                == "the token must be an unexpired user or admin token, and in the case of an user token, the ID in the token must be the same as the given ID"@),
            r matches Ok(q) ==> ({
                &&& spec_first_user_id(access_token.scopes@) is Some
                &&& q.method == Method::Post
                &&& q.url@ == self.url@ + "reject_friend_request/"@ + spec_decimal(
                    request_id as nat,
                )
                &&& is_bearer(q.auth, access_token.access_token@)
                &&& q.body is None
            }),
    {
        if access_token.get_user_id().is_some() && !access_token.has_expired_at(now) {
            Ok(
                RequestSpec {
                    method: Method::Post,
                    url: self.url.clone().concat("reject_friend_request/").concat(
                        u64_to_string(request_id).as_str(),
                    ),
                    auth: Auth::Bearer { token: access_token.get_token() },
                    body: None,
                },
            )
        } else {
            Err(
                Error::Forbidden(
                    "the token must be an unexpired user or admin token, and in the case of an user token, the ID in the token must be the same as the given ID".to_owned(),
                ),
            )
        }
    }

    /// Builds the request that unfriends the connection with the given ID:
    /// `DELETE friend/{request_id}`.  An unexpired user token is required.
    ///
    /// Expiry is decided against the wall clock; `unfriend_at` fixes the
    /// result for each clock instant.
    pub fn unfriend(&self, access_token: &AccessToken, request_id: u64) -> (r: Result<
        RequestSpec,
        Error,
    >)
        ensures
            spec_first_user_id(access_token.scopes@) is None ==> is_forbidden(
                r,
                "the token must be an unexpired user or admin token, and in the case of an user token, the ID in the token must be the same as the given ID"@,
            ),
            r matches Err(e) ==> (e matches Error::Forbidden(m) && m@
                == "the token must be an unexpired user or admin token, and in the case of an user token, the ID in the token must be the same as the given ID"@),
            r matches Ok(q) ==> ({
                &&& spec_first_user_id(access_token.scopes@) is Some
                &&& q.method == Method::Delete
                &&& q.url@ == self.url@ + "friend/"@ + spec_decimal(request_id as nat)
                &&& is_bearer(q.auth, access_token.access_token@)
                &&& q.body is None
            }),
    {
        self.unfriend_at(access_token, request_id, crate::wire::timestamp_now())
    }

    /// As `unfriend`, with the expiry decided against the instant `now`:
    /// the request is built exactly when the token's scopes allow the
    /// call and `now` is before the token's expiration.
    pub fn unfriend_at(&self, access_token: &AccessToken, request_id: u64, now: i64) -> (r: Result<
        RequestSpec,
        Error,
    >)
        ensures
            (r is Ok <==> (spec_first_user_id(access_token.scopes@) is Some && now < access_token.expiration)),
            spec_first_user_id(access_token.scopes@) is None ==> is_forbidden(
                r,
                "the token must be an unexpired user or admin token, and in the case of an user token, the ID in the token must be the same as the given ID"@,
            ),
            r matches Err(e) ==> (e matches Error::Forbidden(m) && m@
                == "the token must be an unexpired user or admin token, and in the case of an user token, the ID in the token must be the same as the given ID"@),
            r matches Ok(q) ==> ({
                &&& spec_first_user_id(access_token.scopes@) is Some
                &&& q.method == Method::Delete
                &&& q.url@ == self.url@ + "friend/"@ + spec_decimal(request_id as nat)
                &&& is_bearer(q.auth, access_token.access_token@)
                &&& q.body is None
            }),
    {
        if access_token.get_user_id().is_some() && !access_token.has_expired_at(now) {
            Ok(
                RequestSpec {
                    method: Method::Delete,
                    url: self.url.clone().concat("friend/").concat(
                        u64_to_string(request_id).as_str(),
                    ),
                    auth: Auth::Bearer { token: access_token.get_token() },
                    body: None,
                },
            )
        } else {
            Err(
                Error::Forbidden(
                    "the token must be an unexpired user or admin token, and in the case of an user token, the ID in the token must be the same as the given ID".to_owned(),
                ),
            )
        }
    }
}

} // verus!
