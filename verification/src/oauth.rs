//! OAuth module for the Fractal API.
//!
//! Contains the access-token model: which grants a token carries, when it
//! expires, and how a token is read out of the server's wire value.  Also
//! holds the two client operations of the OAuth surface, token issuance and
//! client creation.

use vstd::prelude::*;

use crate::dto::{
    decode_access_token, decode_scopes, spec_access_token_of_text, spec_scope_json,
    spec_scopes_of_text, AccessTokenDTO, ObjectBuilder,
};
use crate::envelope::{is_bearer, is_forbidden, Auth, Method, RequestSpec};
use crate::error::{Error, FromDTOError};
use crate::scope::{Scope, TokenType};
use crate::wire;
use crate::wire::JsonVal;
use crate::Client;

verus! {

/// Application's secret length: what the base64-encoded client secret must
/// decode to, in bytes.
pub const SECRET_LEN: usize = 20;

/// Addition on `i64` values that stops at the ends of the range instead of
/// wrapping.
pub open spec fn spec_sat_add(a: int, b: int) -> int {
    if a + b > i64::MAX {
        i64::MAX as int
    } else if a + b < i64::MIN {
        i64::MIN as int
    } else {
        a + b
    }
}

/// Saturating addition on `i64`.
fn sat_add(a: i64, b: i64) -> (r: i64)
    ensures
        r as int == spec_sat_add(a as int, b as int),
{
    if b >= 0 {
        if a <= i64::MAX - b {
            a + b
        } else {
            i64::MAX
        }
    } else {
        if a >= i64::MIN - b {
            a + b
        } else {
            i64::MIN
        }
    }
}

/// The ID carried by the first `User` scope of the list, if any.
pub open spec fn spec_first_user_id(s: Seq<Scope>) -> Option<u64>
    decreases s.len(),
{
    if s.len() == 0 {
        None
    } else {
        match s[0] {
            Scope::User(id) => Some(id),
            _ => spec_first_user_id(s.drop_first()),
        }
    }
}

/// A scope list yields a user ID exactly when it holds a `User` scope.
pub proof fn lemma_first_user_id_some(s: Seq<Scope>)
    ensures
        (spec_first_user_id(s) is Some) <==> (exists|i: int| 0 <= i < s.len() && s[i] is User),
    decreases s.len(),
{
    if s.len() == 0 {
    } else {
        match s[0] {
            Scope::User(_) => {
                assert(0 <= 0 < s.len() && s[0] is User);
            },
            _ => {
                lemma_first_user_id_some(s.drop_first());
                if spec_first_user_id(s) is Some {
                    let j = choose|j: int|
                        0 <= j < s.drop_first().len() && s.drop_first()[j] is User;
                    assert(s[j + 1] is User);
                }
                if exists|i: int| 0 <= i < s.len() && s[i] is User {
                    let i = choose|i: int| 0 <= i < s.len() && s[i] is User;
                    assert(i != 0);
                    assert(s.drop_first()[i - 1] is User);
                }
            },
        }
    }
}

/// Whether the scope list `scopes` holds the scope `target`.
fn contains_scope(scopes: &Vec<Scope>, target: Scope) -> (r: bool)
    ensures
        r == scopes@.contains(target),
{
    let mut i: usize = 0;
    while i < scopes.len()
        invariant
            0 <= i <= scopes@.len(),
            forall|k: int| 0 <= k < i ==> scopes@[k] != target,
        decreases scopes@.len() - i,
    {
        if scopes[i] == target {
            return true;
        }
        i = i + 1;
    }
    false
}

/// Struct representing an access token.
#[derive(Clone, Debug, PartialEq)]
pub struct AccessToken {
    /// The application ID the token was issued to.
    pub app_id: String,
    /// The grants the token carries; never empty for a decoded token.
    pub scopes: Vec<Scope>,
    /// The opaque bearer-token string.
    pub access_token: String,
    /// The instant the token expires, in seconds since the epoch.
    pub expiration: i64,
}

impl AccessToken {
    /// A well-formed token carries at least one scope.
    pub open spec fn wf(self) -> bool {
        self.scopes@.len() > 0
    }

    /// Whether the wire value `dto` decodes into a token: its type must be
    /// bearer and its scope list must read as a non-empty JSON scope array.
    pub open spec fn spec_accepted(dto: AccessTokenDTO) -> bool {
        dto.token_type == TokenType::Bearer && (spec_scopes_of_text(dto.scopes@) matches Some(s)
            && s.len() > 0)
    }

    /// Creates an access token from stored data.
    pub fn from_data(app_id: String, scopes: Vec<Scope>, access_token: String, expiration: i64) -> (r:
        AccessToken)
        ensures
            r.app_id@ == app_id@,
            r.scopes@ == scopes@,
            r.access_token@ == access_token@,
            r.expiration == expiration,
    {
        AccessToken { app_id, scopes, access_token, expiration }
    }

    /// Gets the application ID of the token.
    pub fn get_app_id(&self) -> (r: &str)
        ensures
            r@ == self.app_id@,
    {
        self.app_id.as_str()
    }

    /// Gets the scopes of the token.
    pub fn scopes(&self) -> (r: &Vec<Scope>)
        ensures
            r@ == self.scopes@,
    {
        &self.scopes
    }

    /// Returns whether the token carries the admin scope.
    pub fn is_admin(&self) -> (r: bool)
        ensures
            r == self.scopes@.contains(Scope::Admin),
    {
        contains_scope(&self.scopes, Scope::Admin)
    }

    /// Returns whether the token carries the public scope.
    pub fn is_public(&self) -> (r: bool)
        ensures
            r == self.scopes@.contains(Scope::Public),
    {
        contains_scope(&self.scopes, Scope::Public)
    }

    /// Returns whether the token carries the user scope for exactly the
    /// given user ID.
    pub fn is_user(&self, user_id: u64) -> (r: bool)
        ensures
            r == self.scopes@.contains(Scope::User(user_id)),
    {
        contains_scope(&self.scopes, Scope::User(user_id))
    }

    /// Gets the user ID of the first user scope, if the token carries one:
    /// there is one exactly when some scope of the token is a user scope.
    pub fn get_user_id(&self) -> (r: Option<u64>)
        ensures
            r == spec_first_user_id(self.scopes@),
            (r is Some <==> exists|i: int| 0 <= i < self.scopes@.len() && self.scopes@[i] is User),
    {
        proof {
            lemma_first_user_id_some(self.scopes@);
        }
        let mut i: usize = 0;
        proof {
            assert(self.scopes@.skip(0) =~= self.scopes@);
        }
        while i < self.scopes.len()
            invariant
                0 <= i <= self.scopes@.len(),
                spec_first_user_id(self.scopes@) == spec_first_user_id(
                    self.scopes@.skip(i as int),
                ),
                forall|k: int| 0 <= k < i ==> !(self.scopes@[k] is User),
            decreases self.scopes@.len() - i,
        {
            match self.scopes[i] {
                Scope::User(id) => {
                    proof {
                        assert(self.scopes@.skip(i as int)[0] == self.scopes@[i as int]);
                    }
                    return Some(id);
                },
                _ => {
                    proof {
                        assert(self.scopes@.skip(i as int).drop_first() =~= self.scopes@.skip(
                            i + 1,
                        ));
                        assert(self.scopes@.skip(i as int)[0] == self.scopes@[i as int]);
                    }
                },
            }
            i = i + 1;
        }
        proof {
            assert(self.scopes@.skip(self.scopes@.len() as int).len() == 0);
        }
        None
    }

    /// Gets the bearer-token string to be sent in the `Authorization` header.
    pub fn get_token(&self) -> (r: String)
        ensures
            r@ == self.access_token@,
    {
        self.access_token.clone()
    }

    /// Gets the expiration instant of the token, in seconds since the epoch.
    pub fn get_expiration(&self) -> (r: i64)
        ensures
            r == self.expiration,
    {
        self.expiration
    }

    /// Whether the token has expired at the instant `now`: exactly when
    /// `now` has reached the stored expiration instant.
    pub fn has_expired_at(&self, now: i64) -> (r: bool)
        ensures
            r == (now >= self.expiration),
    {
        now >= self.expiration
    }

    /// Returns whether the access token has expired, against the wall clock.
    pub fn has_expired(&self) -> bool {
        let now = wire::timestamp_now();
        self.has_expired_at(now)
    }

    /// Reads a token out of its wire value, expiring `expiration` seconds
    /// after the instant `now`, saturated at the ends of the range.
    ///
    /// A wire value whose scope list is empty, cannot be read, or whose type
    /// is no bearer type never yields a token.
    pub fn from_dto_at(dto: AccessTokenDTO, now: i64) -> (r: Result<AccessToken, FromDTOError>)
        ensures
            (r is Ok <==> Self::spec_accepted(dto)),
            dto.token_type != TokenType::Bearer ==> (r matches Err(e) && e.error@
                == "the token type of the access token is not valid"@),
            (match spec_scopes_of_text(dto.scopes@) {
                Some(s) => dto.token_type == TokenType::Bearer && s.len() == 0 ==> (r matches Err(
                    e,
                ) && e.error@ == "there were no scopes in the access token"@),
                None => dto.token_type == TokenType::Bearer ==> (r matches Err(e) && e.error@
                    == "the scopes of the access token could not be decoded"@),
            }),
            r matches Ok(t) ==> t.app_id@ == dto.app_id@ && t.access_token@ == dto.access_token@
                && Some(t.scopes@) == spec_scopes_of_text(dto.scopes@) && t.wf() && t.expiration
                as int == spec_sat_add(now as int, dto.expiration as int),
    {
        if !matches!(dto.token_type, TokenType::Bearer) {
            return Err(FromDTOError::new("the token type of the access token is not valid"));
        }
        match decode_scopes(dto.scopes.as_str()) {
            None => Err(FromDTOError::new("the scopes of the access token could not be decoded")),
            Some(scopes) => {
                if scopes.len() == 0 {
                    Err(FromDTOError::new("there were no scopes in the access token"))
                } else {
                    Ok(
                        AccessToken {
                            app_id: dto.app_id,
                            scopes,
                            access_token: dto.access_token,
                            expiration: sat_add(now, dto.expiration),
                        },
                    )
                }
            },
        }
    }

    /// Reads a token out of its wire value, expiring `expiration` seconds
    /// from now on the wall clock.
    pub fn from_dto(dto: AccessTokenDTO) -> (r: Result<AccessToken, FromDTOError>)
        ensures
            (r is Ok <==> Self::spec_accepted(dto)),
            dto.token_type != TokenType::Bearer ==> (r matches Err(e) && e.error@
                == "the token type of the access token is not valid"@),
            (match spec_scopes_of_text(dto.scopes@) {
                Some(s) => dto.token_type == TokenType::Bearer && s.len() == 0 ==> (r matches Err(
                    e,
                ) && e.error@ == "there were no scopes in the access token"@),
                None => dto.token_type == TokenType::Bearer ==> (r matches Err(e) && e.error@
                    == "the scopes of the access token could not be decoded"@),
            }),
            r matches Ok(t) ==> t.app_id@ == dto.app_id@ && t.access_token@ == dto.access_token@
                && Some(t.scopes@) == spec_scopes_of_text(dto.scopes@) && t.wf(),
    {
        let now = wire::timestamp_now();
        Self::from_dto_at(dto, now)
    }
}

/// A token whose scope list is exactly `[User(id)]` grants `is_user` for
/// `id`, and for no other ID — in particular not for `id + 1`.
pub proof fn lemma_user_scope_exact(t: AccessToken, id: u64)
    requires
        t.scopes@ == seq![Scope::User(id)],
        id < u64::MAX,
    ensures
        t.scopes@.contains(Scope::User(id)),
        !t.scopes@.contains(Scope::User((id + 1) as u64)),
{
    assert(t.scopes@[0] == Scope::User(id));
    assert forall|i: int| 0 <= i < t.scopes@.len() implies t.scopes@[i] != Scope::User(
        (id + 1) as u64,
    ) by {
        assert(t.scopes@[i] == Scope::User(id));
    }
}

/// How the body of a `create_client` request is laid out.
pub open spec fn spec_create_client_json(
    name: Seq<char>,
    scopes: Seq<Scope>,
    request_limit: Option<usize>,
) -> JsonVal {
    JsonVal::Object(
        map![
            "name"@ => JsonVal::Str(name),
            "scopes"@ => JsonVal::Array(Seq::new(scopes.len(), |i: int| spec_scope_json(scopes[i]))),
            "request_limit"@ => match request_limit {
                Some(n) => JsonVal::U64(n as u64),
                None => JsonVal::Null,
            },
        ],
    )
}

/// Reads the access token out of a `200` response body of the token or
/// login endpoints.
pub fn token_response(body: &str) -> (r: Result<AccessToken, Error>)
    ensures
        spec_access_token_of_text(body@) is None ==> (r matches Err(e) && e is JSONDecode),
        (match spec_access_token_of_text(body@) {
            Some(w) => {
                &&& (r is Ok <==> (spec_scopes_of_text(w.scopes) matches Some(s) && s.len() > 0))
                &&& (r matches Ok(t) ==> t.app_id@ == w.app_id && t.access_token@
                    == w.access_token && Some(t.scopes@) == spec_scopes_of_text(w.scopes)
                    && t.wf())
                &&& (r matches Err(e) ==> e is FromDTO)
            },
            None => true,
        }),
{
    match decode_access_token(body) {
        None => Err(
            Error::JSONDecode("the response body is not a valid access token".to_owned()),
        ),
        Some(dto) => match AccessToken::from_dto(dto) {
            Ok(t) => Ok(t),
            Err(e) => Err(Error::FromDTO(e)),
        },
    }
}

/// OAuth methods for clients.
impl Client {
    /// Builds the request that gets a token from the API: `GET token`,
    /// authorized with the application's ID and its base64-encoded secret.
    ///
    /// A secret that is no base64, or whose decoded form is not exactly
    /// `SECRET_LEN` bytes, is turned down locally with `InvalidSecret`, and
    /// no request is built.
    pub fn token(&self, app_id: &str, secret: &str) -> (r: Result<RequestSpec, Error>)
        ensures
            (r is Ok <==> (wire::base64_of(secret@) matches Some(b) && b.len() == SECRET_LEN)),
            r matches Err(e) ==> e == Error::InvalidSecret,
            r matches Ok(q) ==> q.method == Method::Get && q.url@ == self.url@ + "token"@ && (
            q.auth matches Auth::Basic { username, password } && username@ == app_id@ && password@
                == secret@) && q.body is None,
    {
        match wire::from_base64(secret) {
            Some(b) => {
                if b.len() == SECRET_LEN {
                    Ok(
                        RequestSpec {
                            method: Method::Get,
                            url: self.url.clone().concat("token"),
                            auth: Auth::Basic {
                                username: app_id.to_owned(),
                                password: secret.to_owned(),
                            },
                            body: None,
                        },
                    )
                } else {
                    Err(Error::InvalidSecret)
                }
            },
            None => Err(Error::InvalidSecret),
        }
    }

    /// Builds the request that creates a client with the given name, scopes
    /// and request limit per hour: `POST create_client`.  An unexpired
    /// admin-scoped token is required.
    ///
    /// Expiry is decided against the wall clock; `create_client_at` fixes the
    /// result for each clock instant.
    pub fn create_client(
        &self,
        access_token: &AccessToken,
        name: &str,
        scopes: Vec<Scope>,
        request_limit: Option<usize>,
    ) -> (r: Result<RequestSpec, Error>)
        ensures
            !access_token.scopes@.contains(Scope::Admin) ==> is_forbidden(
                r,
                "the token must be an unexpired admin token"@,
            ),
            r matches Err(e) ==> (e matches Error::Forbidden(m) && m@
                == "the token must be an unexpired admin token"@),
            r matches Ok(q) ==> access_token.scopes@.contains(Scope::Admin) && q.method
                == Method::Post && q.url@ == self.url@ + "create_client"@ && is_bearer(
                q.auth,
                access_token.access_token@,
            ) && (q.body matches Some(b) && b@ == wire::json_write(
                spec_create_client_json(name@, scopes@, request_limit),
            )),
    {
        self.create_client_at(access_token, name, scopes, request_limit, crate::wire::timestamp_now())
    }

    /// As `create_client`, with the expiry decided against the instant `now`:
    /// the request is built exactly when the token's scopes allow the
    /// call and `now` is before the token's expiration.
    pub fn create_client_at(
        &self,
        access_token: &AccessToken,
        name: &str,
        scopes: Vec<Scope>,
        request_limit: Option<usize>,
        now: i64,
    ) -> (r: Result<RequestSpec, Error>)
        ensures
            (r is Ok <==> (access_token.scopes@.contains(Scope::Admin) && now < access_token.expiration)),
            !access_token.scopes@.contains(Scope::Admin) ==> is_forbidden(
                r,
                "the token must be an unexpired admin token"@,
            ),
            r matches Err(e) ==> (e matches Error::Forbidden(m) && m@
                == "the token must be an unexpired admin token"@),
            r matches Ok(q) ==> access_token.scopes@.contains(Scope::Admin) && q.method
                == Method::Post && q.url@ == self.url@ + "create_client"@ && is_bearer(
                q.auth,
                access_token.access_token@,
            ) && (q.body matches Some(b) && b@ == wire::json_write(
                spec_create_client_json(name@, scopes@, request_limit),
            )),
    {
        if access_token.is_admin() && !access_token.has_expired_at(now) {
            let scopes_json = crate::dto::scopes_to_json(&scopes);
            let mut b = ObjectBuilder::new();
            b.put("name", wire::json_string(name));
            b.put("scopes", scopes_json);
            b.put(
                "request_limit",
                match request_limit {
                    Some(n) => wire::json_u64(n as u64),
                    None => wire::json_null(),
                },
            );
            let body_json = b.build();
            proof {
                assert(b@ =~= spec_create_client_json(name@, scopes@, request_limit)->Object_0);
            }
            let body_str = wire::json_to_string(&body_json);
            Ok(
                RequestSpec {
                    method: Method::Post,
                    url: self.url.clone().concat("create_client"),
                    auth: Auth::Bearer { token: access_token.get_token() },
                    body: Some(body_str),
                },
            )
        } else {
            Err(Error::Forbidden("the token must be an unexpired admin token".to_owned()))
        }
    }
}

} // verus!
