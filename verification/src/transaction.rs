//! Methods for working with transactions.
//!
//! Each method checks the caller's token locally and builds the request to
//! send; a failed check is terminal and builds none.

use vstd::prelude::*;

use crate::digits::{spec_decimal, u64_to_string};
use crate::dto::{encode_auth_code, encode_generate_transaction, spec_auth_code_json,
    spec_generate_transaction_json};
use crate::envelope::{is_bearer, is_forbidden, Auth, Method, RequestSpec};
use crate::error::Error;
use crate::oauth::{spec_first_user_id, AccessToken};
use crate::scope::Scope;
use crate::types::{Amount, WalletAddress};
use crate::wire;
use crate::Client;

verus! {

impl Client {
    /// Builds the request that gets the given transaction:
    /// `GET transaction/{transaction_id}`.  An unexpired user or admin
    /// token is required.  The `200` body answers with a transaction, read
    /// by `crate::responses::transaction_from_body`.
    ///
    /// Expiry is decided against the wall clock; `get_transaction_at` fixes the
    /// result for each clock instant.
    pub fn get_transaction(&self, access_token: &AccessToken, transaction_id: u64) -> (r: Result<
        RequestSpec,
        Error,
    >)
        ensures
            !(spec_first_user_id(access_token.scopes@) is Some || access_token.scopes@.contains(
                Scope::Admin,
            )) ==> is_forbidden(r, "the token must be an unexpired admin or user token"@),
            r matches Err(e) ==> (e matches Error::Forbidden(m) && m@
                == "the token must be an unexpired admin or user token"@),
            r matches Ok(q) ==> ({
                &&& (spec_first_user_id(access_token.scopes@) is Some
                    || access_token.scopes@.contains(Scope::Admin))
                &&& q.method == Method::Get
                &&& q.url@ == self.url@ + "transaction/"@ + spec_decimal(transaction_id as nat)
                &&& is_bearer(q.auth, access_token.access_token@)
                &&& q.body is None
            }),
    {
        self.get_transaction_at(access_token, transaction_id, crate::wire::timestamp_now())
    }

    /// As `get_transaction`, with the expiry decided against the instant `now`:
    /// the request is built exactly when the token's scopes allow the
    /// call and `now` is before the token's expiration.
    pub fn get_transaction_at(&self, access_token: &AccessToken, transaction_id: u64, now: i64) -> (r: Result<
        RequestSpec,
        Error,
    >)
        ensures
            (r is Ok <==> ((spec_first_user_id(access_token.scopes@) is Some || access_token.scopes@.contains(
                Scope::Admin,
            )) && now < access_token.expiration)),
            !(spec_first_user_id(access_token.scopes@) is Some || access_token.scopes@.contains(
                Scope::Admin,
            )) ==> is_forbidden(r, "the token must be an unexpired admin or user token"@),
            r matches Err(e) ==> (e matches Error::Forbidden(m) && m@
                == "the token must be an unexpired admin or user token"@),
            r matches Ok(q) ==> ({
                &&& (spec_first_user_id(access_token.scopes@) is Some
                    || access_token.scopes@.contains(Scope::Admin))
                &&& q.method == Method::Get
                &&& q.url@ == self.url@ + "transaction/"@ + spec_decimal(transaction_id as nat)
                &&& is_bearer(q.auth, access_token.access_token@)
                &&& q.body is None
            }),
    {
        if (access_token.get_user_id().is_some() || access_token.is_admin())
            && !access_token.has_expired_at(now) {
            Ok(
                RequestSpec {
                    method: Method::Get,
                    url: self.url.clone().concat("transaction/").concat(
                        u64_to_string(transaction_id).as_str(),
                    ),
                    auth: Auth::Bearer { token: access_token.get_token() },
                    body: None,
                },
            )
        } else {
            Err(Error::Forbidden("the token must be an unexpired admin or user token".to_owned()))
        }
    }

    /// Builds the request that generates a new transaction:
    /// `POST new_transaction`, originating from the ID carried by the
    /// token.  An unexpired user token is required.  The `200` body answers
    /// with the code of the pending transaction, read by
    /// `crate::responses::transaction_code_from_body`.
    ///
    /// Expiry is decided against the wall clock; `new_transaction_at` fixes the
    /// result for each clock instant.
    pub fn new_transaction(
        &self,
        access_token: &AccessToken,
        receiver_wallet: WalletAddress,
        receiver_id: u64,
        amount: Amount,
    ) -> (r: Result<RequestSpec, Error>)
        ensures
            spec_first_user_id(access_token.scopes@) is None ==> is_forbidden(
                r,
                "the token must be an unexpired user  token"@,
            ),
            r matches Err(e) ==> (e matches Error::Forbidden(m) && m@
                == "the token must be an unexpired user  token"@),
            r matches Ok(q) ==> ({
                &&& spec_first_user_id(access_token.scopes@) matches Some(uid)
                &&& q.method == Method::Post
                &&& q.url@ == self.url@ + "new_transaction"@
                &&& is_bearer(q.auth, access_token.access_token@)
                &&& (q.body matches Some(b) && b@ == wire::json_write(
                    spec_generate_transaction_json(
                        uid,
                        receiver_wallet.address@,
                        receiver_id,
                        amount.repr,
                    ),
                ))
            }),
    {
        self.new_transaction_at(access_token, receiver_wallet, receiver_id, amount, crate::wire::timestamp_now())
    }

    /// As `new_transaction`, with the expiry decided against the instant `now`:
    /// the request is built exactly when the token's scopes allow the
    /// call and `now` is before the token's expiration.
    pub fn new_transaction_at(
        &self,
        access_token: &AccessToken,
        receiver_wallet: WalletAddress,
        receiver_id: u64,
        amount: Amount,
        now: i64,
    ) -> (r: Result<RequestSpec, Error>)
        ensures
            (r is Ok <==> (spec_first_user_id(access_token.scopes@) is Some && now < access_token.expiration)),
            spec_first_user_id(access_token.scopes@) is None ==> is_forbidden(
                r,
                "the token must be an unexpired user  token"@,
            ),
            r matches Err(e) ==> (e matches Error::Forbidden(m) && m@
                == "the token must be an unexpired user  token"@),
            r matches Ok(q) ==> ({
                &&& spec_first_user_id(access_token.scopes@) matches Some(uid)
                &&& q.method == Method::Post
                &&& q.url@ == self.url@ + "new_transaction"@
                &&& is_bearer(q.auth, access_token.access_token@)
                &&& (q.body matches Some(b) && b@ == wire::json_write(
                    spec_generate_transaction_json(
                        uid,
                        receiver_wallet.address@,
                        receiver_id,
                        amount.repr,
                    ),
                ))
            }),
    {
        let user_id = access_token.get_user_id();
        if user_id.is_some() && !access_token.has_expired_at(now) {
            let body = encode_generate_transaction(
                user_id.unwrap(),
                &receiver_wallet,
                receiver_id,
                amount,
            );
            Ok(
                RequestSpec {
                    method: Method::Post,
                    url: self.url.clone().concat("new_transaction"),
                    auth: Auth::Bearer { token: access_token.get_token() },
                    body: Some(body),
                },
            )
        } else {
            Err(Error::Forbidden("the token must be an unexpired user  token".to_owned()))
        }
    }

    /// Builds the request that gets all the transactions since the given
    /// one: `GET all_transactions/{first_transaction}`.  An unexpired admin
    /// token is required.  The `200` body answers with a transaction list,
    /// read by `crate::responses::transactions_from_body`.
    ///
    /// Expiry is decided against the wall clock; `get_all_transactions_at` fixes the
    /// result for each clock instant.
    pub fn get_all_transactions(&self, access_token: &AccessToken, first_transaction: u64) -> (r:
        Result<RequestSpec, Error>)
        ensures
            !access_token.scopes@.contains(Scope::Admin) ==> is_forbidden(
                r,
                "the token must be an unexpired admin token"@,
            ),
            r matches Err(e) ==> (e matches Error::Forbidden(m) && m@
                == "the token must be an unexpired admin token"@),
            r matches Ok(q) ==> ({
                &&& access_token.scopes@.contains(Scope::Admin)
                &&& q.method == Method::Get
                &&& q.url@ == self.url@ + "all_transactions/"@ + spec_decimal(
                    first_transaction as nat,
                )
                &&& is_bearer(q.auth, access_token.access_token@)
                &&& q.body is None
            }),
    {
        self.get_all_transactions_at(access_token, first_transaction, crate::wire::timestamp_now())
    }

    /// As `get_all_transactions`, with the expiry decided against the instant `now`:
    /// the request is built exactly when the token's scopes allow the
    /// call and `now` is before the token's expiration.
    pub fn get_all_transactions_at(&self, access_token: &AccessToken, first_transaction: u64, now: i64) -> (r:
        Result<RequestSpec, Error>)
        ensures
            (r is Ok <==> (access_token.scopes@.contains(Scope::Admin) && now < access_token.expiration)),
            !access_token.scopes@.contains(Scope::Admin) ==> is_forbidden(
                r,
                "the token must be an unexpired admin token"@,
            ),
            r matches Err(e) ==> (e matches Error::Forbidden(m) && m@
                == "the token must be an unexpired admin token"@),
            r matches Ok(q) ==> ({
                &&& access_token.scopes@.contains(Scope::Admin)
                &&& q.method == Method::Get
                &&& q.url@ == self.url@ + "all_transactions/"@ + spec_decimal(
                    first_transaction as nat,
                )
                &&& is_bearer(q.auth, access_token.access_token@)
                &&& q.body is None
            }),
    {
        if access_token.is_admin() && !access_token.has_expired_at(now) {
            Ok(
                RequestSpec {
                    method: Method::Get,
                    url: self.url.clone().concat("all_transactions/").concat(
                        u64_to_string(first_transaction).as_str(),
                    ),
                    auth: Auth::Bearer { token: access_token.get_token() },
                    body: None,
                },
            )
        } else {
            Err(Error::Forbidden("the token must be an unexpired admin token".to_owned()))
        }
    }

    /// Builds the request that authenticates the pending transaction with
    /// the given key: `POST authenticate_transaction/{transaction_key}`.
    /// An unexpired user token is required.
    ///
    /// Expiry is decided against the wall clock; `authenticate_transaction_at` fixes the
    /// result for each clock instant.
    pub fn authenticate_transaction(
        &self,
        access_token: &AccessToken,
        transaction_key: &str,
        code: u32,
    ) -> (r: Result<RequestSpec, Error>)
        ensures
            spec_first_user_id(access_token.scopes@) is None ==> is_forbidden(
                r,
                "the token must be an unexpired user token"@,
            ),
            r matches Err(e) ==> (e matches Error::Forbidden(m) && m@
                == "the token must be an unexpired user token"@),
            r matches Ok(q) ==> ({
                &&& spec_first_user_id(access_token.scopes@) is Some
                &&& q.method == Method::Post
                &&& q.url@ == self.url@ + "authenticate_transaction/"@ + transaction_key@
                &&& is_bearer(q.auth, access_token.access_token@)
                &&& (q.body matches Some(b) && b@ == wire::json_write(spec_auth_code_json(code)))
            }),
    {
        self.authenticate_transaction_at(access_token, transaction_key, code, crate::wire::timestamp_now())
    }

    /// As `authenticate_transaction`, with the expiry decided against the instant `now`:
    /// the request is built exactly when the token's scopes allow the
    /// call and `now` is before the token's expiration.
    pub fn authenticate_transaction_at(
        &self,
        access_token: &AccessToken,
        transaction_key: &str,
        code: u32,
        now: i64,
    ) -> (r: Result<RequestSpec, Error>)
        ensures
            (r is Ok <==> (spec_first_user_id(access_token.scopes@) is Some && now < access_token.expiration)),
            spec_first_user_id(access_token.scopes@) is None ==> is_forbidden(
                r,
                "the token must be an unexpired user token"@,
            ),
            r matches Err(e) ==> (e matches Error::Forbidden(m) && m@
                == "the token must be an unexpired user token"@),
            r matches Ok(q) ==> ({
                &&& spec_first_user_id(access_token.scopes@) is Some
                &&& q.method == Method::Post
                &&& q.url@ == self.url@ + "authenticate_transaction/"@ + transaction_key@
                &&& is_bearer(q.auth, access_token.access_token@)
                &&& (q.body matches Some(b) && b@ == wire::json_write(spec_auth_code_json(code)))
            }),
    {
        let user_id = access_token.get_user_id();
        if user_id.is_some() && !access_token.has_expired_at(now) {
            let body = encode_auth_code(code);
            Ok(
                RequestSpec {
                    method: Method::Post,
                    url: self.url.clone().concat("authenticate_transaction/").concat(
                        transaction_key,
                    ),
                    auth: Auth::Bearer { token: access_token.get_token() },
                    body: Some(body),
                },
            )
        } else {
            Err(Error::Forbidden("the token must be an unexpired user token".to_owned()))
        }
    }

    /// Builds the request that checks whether the given wallet address is
    /// valid: `POST check_wallet_address/{wallet_address}`.  An unexpired
    /// user token is required.  The `200` body answers with the associated
    /// user ID written in a `{"message": ...}` envelope, read by
    /// `crate::responses::user_id_from_body`.
    ///
    /// Expiry is decided against the wall clock; `get_user_id_from_wallet_address_at` fixes the
    /// result for each clock instant.
    pub fn get_user_id_from_wallet_address(
        &self,
        access_token: &AccessToken,
        wallet_address: &str,
    ) -> (r: Result<RequestSpec, Error>)
        ensures
            spec_first_user_id(access_token.scopes@) is None ==> is_forbidden(
                r,
                "the token must be an unexpired user token"@,
            ),
            r matches Err(e) ==> (e matches Error::Forbidden(m) && m@
                == "the token must be an unexpired user token"@),
            r matches Ok(q) ==> ({
                &&& spec_first_user_id(access_token.scopes@) is Some
                &&& q.method == Method::Post
                &&& q.url@ == self.url@ + "check_wallet_address/"@ + wallet_address@
                &&& is_bearer(q.auth, access_token.access_token@)
                &&& q.body is None
            }),
    {
        self.get_user_id_from_wallet_address_at(access_token, wallet_address, crate::wire::timestamp_now())
    }

    /// As `get_user_id_from_wallet_address`, with the expiry decided against the instant `now`:
    /// the request is built exactly when the token's scopes allow the
    /// call and `now` is before the token's expiration.
    pub fn get_user_id_from_wallet_address_at(
        &self,
        access_token: &AccessToken,
        wallet_address: &str,
        now: i64,
    ) -> (r: Result<RequestSpec, Error>)
        ensures
            (r is Ok <==> (spec_first_user_id(access_token.scopes@) is Some && now < access_token.expiration)),
            spec_first_user_id(access_token.scopes@) is None ==> is_forbidden(
                r,
                "the token must be an unexpired user token"@,
            ),
            r matches Err(e) ==> (e matches Error::Forbidden(m) && m@
                == "the token must be an unexpired user token"@),
            r matches Ok(q) ==> ({
                &&& spec_first_user_id(access_token.scopes@) is Some
                &&& q.method == Method::Post
                &&& q.url@ == self.url@ + "check_wallet_address/"@ + wallet_address@
                &&& is_bearer(q.auth, access_token.access_token@)
                &&& q.body is None
            }),
    {
        let user_id = access_token.get_user_id();
        if user_id.is_some() && !access_token.has_expired_at(now) {
            Ok(
                RequestSpec {
                    method: Method::Post,
                    url: self.url.clone().concat("check_wallet_address/").concat(wallet_address),
                    auth: Auth::Bearer { token: access_token.get_token() },
                    body: None,
                },
            )
        } else {
            Err(Error::Forbidden("the token must be an unexpired user token".to_owned()))
        }
    }
}

} // verus!
