//! The wire values of the API: how each value that crosses the HTTP boundary
//! is laid out in JSON, as a specification, and the code that reads and
//! writes that layout.

use vstd::prelude::*;

use rustc_serialize::json::Json;

use crate::digits::padded_u64;
use crate::digits::{parse_u64, spec_padded_decimal, spec_parse_u64};
use crate::scope::{Scope, TokenType};
use crate::types::{
    Address, Amount, ClientInfoDTO, Date, PendingFriendRequestDTO, ProfileDTO, Relationship,
    TransactionDTO, UserDTO, WalletAddress,
};
use crate::wire;
use crate::wire::JsonVal;

verus! {

/// The number a modelled JSON value yields when read as a `u64`: a
/// non-negative integer, whichever signedness it was stored with.
pub open spec fn spec_json_u64(v: JsonVal) -> Option<u64> {
    match v {
        JsonVal::U64(n) => Some(n),
        JsonVal::I64(n) => if n >= 0 {
            Some(n as u64)
        } else {
            None
        },
        _ => None,
    }
}

/// The number a modelled JSON value yields when read as an `i64`; a stored
/// non-negative value of `i64::MAX` or above is refused, as the codec does.
pub open spec fn spec_json_i64(v: JsonVal) -> Option<i64> {
    match v {
        JsonVal::I64(n) => Some(n),
        JsonVal::U64(n) => if n < (i64::MAX as u64) {
            Some(n as i64)
        } else {
            None
        },
        _ => None,
    }
}

/// How a scope is laid out in JSON: a variant without data is its name as a
/// string; `User` carries its ID in a one-element `fields` array.
pub open spec fn spec_scope_json(s: Scope) -> JsonVal {
    match s {
        Scope::Admin => JsonVal::Str("Admin"@),
        Scope::Public => JsonVal::Str("Public"@),
        Scope::Developer => JsonVal::Str("Developer"@),
        Scope::User(id) => JsonVal::Object(
            map![
                "variant"@ => JsonVal::Str("User"@),
                "fields"@ => JsonVal::Array(seq![JsonVal::U64(id)]),
            ],
        ),
    }
}

/// The scope a modelled JSON value reads as, if any.
pub open spec fn spec_scope_of_json(v: JsonVal) -> Option<Scope> {
    match v {
        JsonVal::Str(s) => if s == "Admin"@ {
            Some(Scope::Admin)
        } else if s == "Public"@ {
            Some(Scope::Public)
        } else if s == "Developer"@ {
            Some(Scope::Developer)
        } else {
            None
        },
        JsonVal::Object(m) => if m.dom().contains("variant"@) && m["variant"@] == JsonVal::Str(
            "User"@,
        ) && m.dom().contains("fields"@) {
            match m["fields"@] {
                JsonVal::Array(a) => if a.len() == 1 {
                    match spec_json_u64(a[0]) {
                        Some(id) => Some(Scope::User(id)),
                        None => None,
                    }
                } else {
                    None
                },
                _ => None,
            }
        } else {
            None
        },
        _ => None,
    }
}

/// The scope list a modelled JSON value reads as: an array, every element a
/// scope.
pub open spec fn spec_scopes_of_json(v: JsonVal) -> Option<Seq<Scope>> {
    match v {
        JsonVal::Array(a) => if forall|i: int|
            0 <= i < a.len() ==> spec_scope_of_json(#[trigger] a[i]) is Some {
            Some(Seq::new(a.len(), |i: int| spec_scope_of_json(a[i]).unwrap()))
        } else {
            None
        },
        _ => None,
    }
}

/// The scope list a text reads as: JSON, an array, every element a scope.
pub open spec fn spec_scopes_of_text(s: Seq<char>) -> Option<Seq<Scope>> {
    match wire::json_parse(s) {
        Some(v) => spec_scopes_of_json(v),
        None => None,
    }
}

/// Builds a JSON object value field by field, keeping the model of what has
/// been put so far.
pub struct ObjectBuilder {
    pairs: Vec<(String, Json)>,
}

impl View for ObjectBuilder {
    type V = Map<Seq<char>, JsonVal>;

    closed spec fn view(&self) -> Map<Seq<char>, JsonVal> {
        wire::pairs_view(self.pairs@)
    }
}

impl ObjectBuilder {
    /// Whether no value put so far holds a floating-point number.
    pub open spec fn floats_free(&self) -> bool {
        forall|k: Seq<char>| #[trigger]
            self@.dom().contains(k) ==> !wire::has_float(self@[k])
    }

    /// Starts an empty object.
    pub fn new() -> (r: ObjectBuilder)
        ensures
            r@ == Map::<Seq<char>, JsonVal>::empty(),
            r.floats_free(),
    {
        let r = ObjectBuilder { pairs: Vec::new() };
        proof {
            assert(r@ =~= Map::<Seq<char>, JsonVal>::empty());
        }
        r
    }

    /// Puts one field, overriding an earlier one with the same key.
    pub fn put(&mut self, key: &str, value: Json)
        ensures
            final(self)@ == old(self)@.insert(key@, wire::json_view(value)),
            old(self).floats_free() && !wire::has_float(wire::json_view(value))
                ==> final(self).floats_free(),
    {
        self.pairs.push((key.to_owned(), value));
        proof {
            assert(self.pairs@.drop_last() =~= old(self).pairs@);
            assert(self@ =~= old(self)@.insert(key@, wire::json_view(value)));
        }
    }

    /// Finishes the object.
    pub fn build(self) -> (r: Json)
        ensures
            wire::json_view(r) == JsonVal::Object(self@),
            self.floats_free() ==> !wire::has_float(wire::json_view(r)),
    {
        let ghost m = self@;
        let ghost ff = self.floats_free();
        let r = wire::json_object(self.pairs);
        proof {
            if ff {
                assert(!wire::has_float(JsonVal::Object(m)));
            }
        }
        r
    }
}

/// Reads one scope out of a parsed JSON value.
pub fn scope_of_json(j: &Json) -> (r: Option<Scope>)
    ensures
        r == spec_scope_of_json(wire::json_view(*j)),
{
    if let Some(s) = wire::json_as_string(j) {
        if wire::str_eq(s, "Admin") {
            Some(Scope::Admin)
        } else if wire::str_eq(s, "Public") {
            Some(Scope::Public)
        } else if wire::str_eq(s, "Developer") {
            Some(Scope::Developer)
        } else {
            None
        }
    } else if let Some(variant) = wire::json_find(j, "variant") {
        let is_user = match wire::json_as_string(variant) {
            Some(name) => wire::str_eq(name, "User"),
            None => false,
        };
        if !is_user {
            return None;
        }
        match wire::json_find(j, "fields") {
            Some(fields) => match wire::json_as_array(fields) {
                Some(items) => {
                    if items.len() != 1 {
                        return None;
                    }
                    match wire::json_as_u64(&items[0]) {
                        Some(id) => Some(Scope::User(id)),
                        None => None,
                    }
                },
                None => None,
            },
            None => None,
        }
    } else {
        None
    }
}

/// Writes one scope as a parsed JSON value.
pub fn scope_to_json(s: &Scope) -> (r: Json)
    ensures
        wire::json_view(r) == spec_scope_json(*s),
        !wire::has_float(wire::json_view(r)),
{
    let r = match s {
        Scope::Admin => wire::json_string("Admin"),
        Scope::Public => wire::json_string("Public"),
        Scope::Developer => wire::json_string("Developer"),
        Scope::User(id) => {
            let mut fields: Vec<Json> = Vec::new();
            fields.push(wire::json_u64(*id));
            let fields_json = wire::json_array(fields);
            proof {
                assert(wire::json_view(fields_json)->Array_0 =~= seq![JsonVal::U64(*id)]);
                assert(!wire::has_float(wire::json_view(fields_json))) by {
                    let fa = wire::json_view(fields_json)->Array_0;
                    assert(forall|k: int| 0 <= k < fa.len() ==> !wire::has_float(#[trigger] fa[k]))
                        by {
                        assert(fa[0] == JsonVal::U64(*id));
                    }
                }
            }
            let mut b = ObjectBuilder::new();
            b.put("variant", wire::json_string("User"));
            b.put("fields", fields_json);
            let r = b.build();
            proof {
                assert(b@ =~= spec_scope_json(Scope::User(*id))->Object_0);
            }
            r
        },
    };
    r
}

/// Writes a scope list as a parsed JSON array.
pub fn scopes_to_json(scopes: &Vec<Scope>) -> (r: Json)
    ensures
        wire::json_view(r) == JsonVal::Array(
            Seq::new(scopes@.len(), |i: int| spec_scope_json(scopes@[i])),
        ),
        !wire::has_float(wire::json_view(r)),
{
    let mut items: Vec<Json> = Vec::new();
    let mut i: usize = 0;
    while i < scopes.len()
        invariant
            0 <= i <= scopes@.len(),
            items@.len() == i,
            forall|k: int|
                0 <= k < i ==> wire::json_view(#[trigger] items@[k]) == spec_scope_json(
                    scopes@[k],
                ),
            forall|k: int| 0 <= k < i ==> !wire::has_float(wire::json_view(#[trigger] items@[k])),
        decreases scopes@.len() - i,
    {
        items.push(scope_to_json(&scopes[i]));
        i = i + 1;
    }
    let r = wire::json_array(items);
    proof {
        assert(wire::json_view(r)->Array_0 =~= Seq::new(
            scopes@.len(),
            |i: int| spec_scope_json(scopes@[i]),
        ));
    }
    r
}

/// Reads a scope list out of a parsed JSON value.
pub fn scopes_of_json(j: &Json) -> (r: Option<Vec<Scope>>)
    ensures
        r matches Some(v) ==> spec_scopes_of_json(wire::json_view(*j)) == Some(v@),
        r is Some <==> spec_scopes_of_json(wire::json_view(*j)) is Some,
{
    let items = match wire::json_as_array(j) {
        Some(items) => items,
        None => {
            return None;
        },
    };
    let ghost a = wire::json_view(*j)->Array_0;
    let mut out: Vec<Scope> = Vec::new();
    let mut i: usize = 0;
    while i < items.len()
        invariant
            wire::json_view(*j) matches JsonVal::Array(aa) && aa == a,
            items@.len() == a.len(),
            forall|k: int| 0 <= k < a.len() ==> wire::json_view(#[trigger] items@[k]) == a[k],
            0 <= i <= a.len(),
            out@.len() == i,
            forall|k: int| 0 <= k < i ==> spec_scope_of_json(#[trigger] a[k]) is Some,
            forall|k: int| 0 <= k < i ==> out@[k] == spec_scope_of_json(#[trigger] a[k]).unwrap(),
        decreases items@.len() - i,
    {
        match scope_of_json(&items[i]) {
            Some(s) => {
                out.push(s);
            },
            None => {
                proof {
                    assert(spec_scope_of_json(a[i as int]) is None);
                    assert(spec_scopes_of_json(wire::json_view(*j)) is None);
                }
                return None;
            },
        }
        i = i + 1;
    }
    proof {
        assert(out@ =~= Seq::new(a.len(), |i: int| spec_scope_of_json(a[i]).unwrap()));
    }
    Some(out)
}

/// Reads a scope list out of a text.
pub fn decode_scopes(text: &str) -> (r: Option<Vec<Scope>>)
    ensures
        r matches Some(v) ==> spec_scopes_of_text(text@) == Some(v@),
        r is Some <==> spec_scopes_of_text(text@) is Some,
{
    let j = match wire::json_from_str(text) {
        Some(j) => j,
        None => {
            return None;
        },
    };
    scopes_of_json(&j)
}

/// `AccessToken` data type object: how the server hands a token over.
#[derive(Clone, Debug, PartialEq)]
pub struct AccessTokenDTO {
    /// The app ID.
    pub app_id: String,
    /// The permissions of the access token: a JSON scope list in a string.
    pub scopes: String,
    /// The access token itself.
    pub access_token: String,
    /// The access token type.
    pub token_type: TokenType,
    /// The lifetime of the token, in seconds from its issuance.
    pub expiration: i64,
}

/// The model of an `AccessTokenDTO`.
pub struct TokenWire {
    /// The app ID.
    pub app_id: Seq<char>,
    /// The JSON scope list, still as text.
    pub scopes: Seq<char>,
    /// The access token itself.
    pub access_token: Seq<char>,
    /// The access token type.
    pub token_type: TokenType,
    /// The lifetime in seconds.
    pub expiration: i64,
}

impl AccessTokenDTO {
    /// The model of this wire value.
    pub open spec fn wire(self) -> TokenWire {
        TokenWire {
            app_id: self.app_id@,
            scopes: self.scopes@,
            access_token: self.access_token@,
            token_type: self.token_type,
            expiration: self.expiration,
        }
    }
}

/// The token a modelled JSON value reads as: an object with the five fields
/// of `AccessTokenDTO`, the token type the string `Bearer`.
pub open spec fn spec_access_token_of_json(v: JsonVal) -> Option<TokenWire> {
    match v {
        JsonVal::Object(m) => {
            if m.dom().contains("app_id"@) && m["app_id"@] is Str && m.dom().contains("scopes"@)
                && m["scopes"@] is Str && m.dom().contains("access_token"@)
                && m["access_token"@] is Str && m.dom().contains("token_type"@)
                && m["token_type"@] == JsonVal::Str("Bearer"@)
                && m.dom().contains("expiration"@) && spec_json_i64(m["expiration"@]) is Some {
                Some(TokenWire {
                    app_id: m["app_id"@]->Str_0,
                    scopes: m["scopes"@]->Str_0,
                    access_token: m["access_token"@]->Str_0,
                    token_type: TokenType::Bearer,
                    expiration: spec_json_i64(m["expiration"@]).unwrap(),
                })
            } else {
                None
            }
        },
        _ => None,
    }
}

/// The token a response body reads as.
pub open spec fn spec_access_token_of_text(s: Seq<char>) -> Option<TokenWire> {
    match wire::json_parse(s) {
        Some(v) => spec_access_token_of_json(v),
        None => None,
    }
}

/// Reads an `AccessTokenDTO` out of a response body.
pub fn decode_access_token(body: &str) -> (r: Option<AccessTokenDTO>)
    ensures
        r matches Some(d) ==> spec_access_token_of_text(body@) == Some(d.wire()),
        r is Some <==> spec_access_token_of_text(body@) is Some,
{
    let j = match wire::json_from_str(body) {
        Some(j) => j,
        None => {
            return None;
        },
    };
    let app_id = match wire::json_find(&j, "app_id") {
        Some(v) => match wire::json_as_string(v) {
            Some(s) => s.to_owned(),
            None => {
                return None;
            },
        },
        None => {
            return None;
        },
    };
    let scopes = match wire::json_find(&j, "scopes") {
        Some(v) => match wire::json_as_string(v) {
            Some(s) => s.to_owned(),
            None => {
                return None;
            },
        },
        None => {
            return None;
        },
    };
    let access_token = match wire::json_find(&j, "access_token") {
        Some(v) => match wire::json_as_string(v) {
            Some(s) => s.to_owned(),
            None => {
                return None;
            },
        },
        None => {
            return None;
        },
    };
    let bearer = match wire::json_find(&j, "token_type") {
        Some(v) => match wire::json_as_string(v) {
            Some(s) => wire::str_eq(s, "Bearer"),
            None => false,
        },
        None => false,
    };
    if !bearer {
        return None;
    }
    let expiration = match wire::json_find(&j, "expiration") {
        Some(v) => match wire::json_as_i64(v) {
            Some(n) => n,
            None => {
                return None;
            },
        },
        None => {
            return None;
        },
    };
    Some(
        AccessTokenDTO {
            app_id,
            scopes,
            access_token,
            token_type: TokenType::Bearer,
            expiration,
        },
    )
}

/// The `u64` under `key` of a modelled object.
pub open spec fn spec_field_u64(v: JsonVal, key: Seq<char>) -> Option<u64> {
    match v {
        JsonVal::Object(m) => if m.dom().contains(key) {
            spec_json_u64(m[key])
        } else {
            None
        },
        _ => None,
    }
}

/// The string under `key` of a modelled object.
pub open spec fn spec_field_str(v: JsonVal, key: Seq<char>) -> Option<Seq<char>> {
    match v {
        JsonVal::Object(m) => if m.dom().contains(key) {
            match m[key] {
                JsonVal::Str(s) => Some(s),
                _ => None,
            }
        } else {
            None
        },
        _ => None,
    }
}

/// The boolean under `key` of a modelled object.
pub open spec fn spec_field_bool(v: JsonVal, key: Seq<char>) -> Option<bool> {
    match v {
        JsonVal::Object(m) => if m.dom().contains(key) {
            match m[key] {
                JsonVal::Boolean(b) => Some(b),
                _ => None,
            }
        } else {
            None
        },
        _ => None,
    }
}

/// The optional string under `key` of a modelled object: `null` reads as
/// nothing, a string as itself, anything else refuses the field.
pub open spec fn spec_field_opt_str(v: JsonVal, key: Seq<char>) -> Option<Option<Seq<char>>> {
    match v {
        JsonVal::Object(m) => if m.dom().contains(key) {
            match m[key] {
                JsonVal::Null => Some(None),
                JsonVal::Str(s) => Some(Some(s)),
                _ => None,
            }
        } else {
            None
        },
        _ => None,
    }
}

/// The optional `u8` under `key` of a modelled object.
pub open spec fn spec_field_opt_u8(v: JsonVal, key: Seq<char>) -> Option<Option<u8>> {
    match v {
        JsonVal::Object(m) => if m.dom().contains(key) {
            match m[key] {
                JsonVal::Null => Some(None),
                _ => match spec_json_u64(m[key]) {
                    Some(n) => if n <= u8::MAX {
                        Some(Some(n as u8))
                    } else {
                        None
                    },
                    None => None,
                },
            }
        } else {
            None
        },
        _ => None,
    }
}

/// The `i8` under `key` of a modelled object.
pub open spec fn spec_field_i8(v: JsonVal, key: Seq<char>) -> Option<i8> {
    match v {
        JsonVal::Object(m) => if m.dom().contains(key) {
            match spec_json_i64(m[key]) {
                Some(n) => if i8::MIN <= n <= i8::MAX {
                    Some(n as i8)
                } else {
                    None
                },
                None => None,
            }
        } else {
            None
        },
        _ => None,
    }
}

/// Reads the `u64` field under `key`.
fn field_u64(j: &Json, key: &str) -> (r: Option<u64>)
    ensures
        r == spec_field_u64(wire::json_view(*j), key@),
{
    match wire::json_find(j, key) {
        Some(v) => wire::json_as_u64(v),
        None => None,
    }
}

/// Reads the string field under `key`.
fn field_str<'a>(j: &'a Json, key: &str) -> (r: Option<&'a str>)
    ensures
        (r is Some <==> spec_field_str(wire::json_view(*j), key@) is Some),
        r matches Some(s) ==> spec_field_str(wire::json_view(*j), key@) == Some(s@),
{
    match wire::json_find(j, key) {
        Some(v) => wire::json_as_string(v),
        None => None,
    }
}

/// Reads the boolean field under `key`.
fn field_bool(j: &Json, key: &str) -> (r: Option<bool>)
    ensures
        r == spec_field_bool(wire::json_view(*j), key@),
{
    match wire::json_find(j, key) {
        Some(v) => wire::json_as_boolean(v),
        None => None,
    }
}

/// Reads the optional string field under `key`.
fn field_opt_str(j: &Json, key: &str) -> (r: Option<Option<String>>)
    ensures
        (r is Some <==> spec_field_opt_str(wire::json_view(*j), key@) is Some),
        r matches Some(o) ==> ((o is Some <==> spec_field_opt_str(
            wire::json_view(*j),
            key@,
        ).unwrap() is Some) && (o matches Some(s) ==> spec_field_opt_str(
            wire::json_view(*j),
            key@,
        ).unwrap() == Some(s@))),
{
    match wire::json_find(j, key) {
        Some(v) => {
            if wire::json_is_null(v) {
                Some(None)
            } else {
                match wire::json_as_string(v) {
                    Some(s) => Some(Some(s.to_owned())),
                    None => None,
                }
            }
        },
        None => None,
    }
}

/// Reads the optional `u8` field under `key`.
fn field_opt_u8(j: &Json, key: &str) -> (r: Option<Option<u8>>)
    ensures
        r == spec_field_opt_u8(wire::json_view(*j), key@),
{
    match wire::json_find(j, key) {
        Some(v) => {
            if wire::json_is_null(v) {
                Some(None)
            } else {
                match wire::json_as_u64(v) {
                    Some(n) => if n <= 255 {
                        Some(Some(n as u8))
                    } else {
                        None
                    },
                    None => None,
                }
            }
        },
        None => None,
    }
}

/// Reads the `i8` field under `key`.
fn field_i8(j: &Json, key: &str) -> (r: Option<i8>)
    ensures
        r == spec_field_i8(wire::json_view(*j), key@),
{
    match wire::json_find(j, key) {
        Some(v) => match wire::json_as_i64(v) {
            Some(n) => if -128 <= n && n <= 127 {
                Some(n as i8)
            } else {
                None
            },
            None => None,
        },
        None => None,
    }
}

/// The model of a `ProfileDTO`.
pub struct ProfileWire {
    /// User's ID.
    pub user_id: u64,
    /// Display name of the user.
    pub display_name: Seq<char>,
    /// First name of the user.
    pub first_name: Option<Seq<char>>,
    /// Last name of the user.
    pub last_name: Option<Seq<char>>,
    /// Link to the user's profile image.
    pub image_url: Option<Seq<char>>,
    /// Age of the user.
    pub age: Option<u8>,
    /// Address of the user.
    pub address: Option<Seq<char>>,
    /// Trust score of the user.
    pub trust_score: i8,
}

impl ProfileDTO {
    /// The model of this wire value.
    pub open spec fn wire(self) -> ProfileWire {
        ProfileWire {
            user_id: self.user_id,
            display_name: self.display_name@,
            first_name: self.first_name.deep_view(),
            last_name: self.last_name.deep_view(),
            image_url: self.image_url.deep_view(),
            age: self.age,
            address: self.address.deep_view(),
            trust_score: self.trust_score,
        }
    }
}

/// The profile a modelled JSON value reads as: an object with the eight
/// fields of `ProfileDTO`.
pub open spec fn spec_profile_of_json(v: JsonVal) -> Option<ProfileWire> {
    if spec_field_u64(v, "user_id"@) is Some && spec_field_str(v, "display_name"@) is Some
        && spec_field_opt_str(v, "first_name"@) is Some && spec_field_opt_str(
        v,
        "last_name"@,
    ) is Some && spec_field_opt_str(v, "image_url"@) is Some && spec_field_opt_u8(
        v,
        "age"@,
    ) is Some && spec_field_opt_str(v, "address"@) is Some && spec_field_i8(
        v,
        "trust_score"@,
    ) is Some {
        Some(
            ProfileWire {
                user_id: spec_field_u64(v, "user_id"@).unwrap(),
                display_name: spec_field_str(v, "display_name"@).unwrap(),
                first_name: spec_field_opt_str(v, "first_name"@).unwrap(),
                last_name: spec_field_opt_str(v, "last_name"@).unwrap(),
                image_url: spec_field_opt_str(v, "image_url"@).unwrap(),
                age: spec_field_opt_u8(v, "age"@).unwrap(),
                address: spec_field_opt_str(v, "address"@).unwrap(),
                trust_score: spec_field_i8(v, "trust_score"@).unwrap(),
            },
        )
    } else {
        None
    }
}

/// Reads one profile out of a parsed JSON value.
pub fn profile_of_json(j: &Json) -> (r: Option<ProfileDTO>)
    ensures
        (r is Some <==> spec_profile_of_json(wire::json_view(*j)) is Some),
        r matches Some(d) ==> spec_profile_of_json(wire::json_view(*j)) == Some(d.wire()),
{
    let user_id = match field_u64(j, "user_id") {
        Some(n) => n,
        None => {
            return None;
        },
    };
    let display_name = match field_str(j, "display_name") {
        Some(s) => s.to_owned(),
        None => {
            return None;
        },
    };
    let first_name = match field_opt_str(j, "first_name") {
        Some(o) => o,
        None => {
            return None;
        },
    };
    let last_name = match field_opt_str(j, "last_name") {
        Some(o) => o,
        None => {
            return None;
        },
    };
    let image_url = match field_opt_str(j, "image_url") {
        Some(o) => o,
        None => {
            return None;
        },
    };
    let age = match field_opt_u8(j, "age") {
        Some(o) => o,
        None => {
            return None;
        },
    };
    let address = match field_opt_str(j, "address") {
        Some(o) => o,
        None => {
            return None;
        },
    };
    let trust_score = match field_i8(j, "trust_score") {
        Some(n) => n,
        None => {
            return None;
        },
    };
    Some(
        ProfileDTO {
            user_id,
            display_name,
            first_name,
            last_name,
            image_url,
            age,
            address,
            trust_score,
        },
    )
}

/// The profile list a response body reads as: JSON, an array, every element
/// a profile.
pub open spec fn spec_profiles_of_text(s: Seq<char>) -> Option<Seq<ProfileWire>> {
    match wire::json_parse(s) {
        Some(v) => match v {
            JsonVal::Array(a) => if forall|i: int|
                0 <= i < a.len() ==> spec_profile_of_json(#[trigger] a[i]) is Some {
                Some(Seq::new(a.len(), |i: int| spec_profile_of_json(a[i]).unwrap()))
            } else {
                None
            },
            _ => None,
        },
        None => None,
    }
}

/// Reads a profile list out of a response body.
pub fn decode_profiles(body: &str) -> (r: Option<Vec<ProfileDTO>>)
    ensures
        r matches Some(v) ==> spec_profiles_of_text(body@) == Some(
            v@.map_values(|d: ProfileDTO| d.wire()),
        ),
        r is Some <==> spec_profiles_of_text(body@) is Some,
{
    let j = match wire::json_from_str(body) {
        Some(j) => j,
        None => {
            return None;
        },
    };
    let items = match wire::json_as_array(&j) {
        Some(items) => items,
        None => {
            return None;
        },
    };
    let ghost a = wire::json_view(j)->Array_0;
    let mut out: Vec<ProfileDTO> = Vec::new();
    let mut i: usize = 0;
    while i < items.len()
        invariant
            wire::json_parse(body@) == Some(wire::json_view(j)),
            wire::json_view(j) matches JsonVal::Array(aa) && aa == a,
            items@.len() == a.len(),
            forall|k: int| 0 <= k < a.len() ==> wire::json_view(#[trigger] items@[k]) == a[k],
            0 <= i <= a.len(),
            out@.len() == i,
            forall|k: int| 0 <= k < i ==> spec_profile_of_json(#[trigger] a[k]) is Some,
            forall|k: int|
                0 <= k < i ==> #[trigger] out@[k].wire() == spec_profile_of_json(a[k]).unwrap(),
        decreases items@.len() - i,
    {
        match profile_of_json(&items[i]) {
            Some(d) => {
                out.push(d);
            },
            None => {
                proof {
                    assert(spec_profile_of_json(a[i as int]) is None);
                    assert(spec_profiles_of_text(body@) is None);
                }
                return None;
            },
        }
        i = i + 1;
    }
    proof {
        assert(out@.map_values(|d: ProfileDTO| d.wire()) =~= Seq::new(
            a.len(),
            |i: int| spec_profile_of_json(a[i]).unwrap(),
        ));
    }
    Some(out)
}

/// The user ID under `key` of a modelled object, where that field holds a
/// profile object: the `user_id` of that profile.
pub open spec fn spec_field_user_id(v: JsonVal, key: Seq<char>) -> Option<u64> {
    match v {
        JsonVal::Object(m) => if m.dom().contains(key) {
            spec_field_u64(m[key], "user_id"@)
        } else {
            None
        },
        _ => None,
    }
}

/// Reads the ID of the profile object under `key`.
fn field_user_id(j: &Json, key: &str) -> (r: Option<u64>)
    ensures
        r == spec_field_user_id(wire::json_view(*j), key@),
{
    match wire::json_find(j, key) {
        Some(v) => field_u64(v, "user_id"),
        None => None,
    }
}

/// The model of a `TransactionDTO`.
pub struct TransactionWire {
    /// The ID of the transaction.
    pub transaction_id: u64,
    /// The ID of the user the transaction originates from.
    pub origin_user: u64,
    /// The ID of the user the transaction goes to.
    pub destination_user: u64,
    /// The textual form of the destination address.
    pub destination_address: Seq<char>,
    /// The raw representation of the amount.
    pub amount: u64,
    /// The timestamp, as the server wrote it.
    pub timestamp: Seq<char>,
}

impl TransactionDTO {
    /// The model of this wire value.
    pub open spec fn wire(self) -> TransactionWire {
        TransactionWire {
            transaction_id: self.transaction_id,
            origin_user: self.origin_user,
            destination_user: self.destination_user,
            destination_address: self.destination_address.address@,
            amount: self.amount.repr,
            timestamp: self.timestamp@,
        }
    }
}

/// The transaction a modelled JSON value reads as: the origin and
/// destination come as profile objects, of which the user ID is kept; the
/// amount comes as its raw representation; the address as its textual form.
pub open spec fn spec_transaction_of_json(v: JsonVal) -> Option<TransactionWire> {
    if spec_field_u64(v, "transaction_id"@) is Some && spec_field_user_id(
        v,
        "origin_user"@,
    ) is Some && spec_field_user_id(v, "destination_user"@) is Some && spec_field_str(
        v,
        "destination_address"@,
    ) is Some && spec_field_u64(v, "amount"@) is Some && spec_field_str(v, "timestamp"@) is Some {
        Some(
            TransactionWire {
                transaction_id: spec_field_u64(v, "transaction_id"@).unwrap(),
                origin_user: spec_field_user_id(v, "origin_user"@).unwrap(),
                destination_user: spec_field_user_id(v, "destination_user"@).unwrap(),
                destination_address: spec_field_str(v, "destination_address"@).unwrap(),
                amount: spec_field_u64(v, "amount"@).unwrap(),
                timestamp: spec_field_str(v, "timestamp"@).unwrap(),
            },
        )
    } else {
        None
    }
}

/// The transaction a response body reads as.
pub open spec fn spec_transaction_of_text(s: Seq<char>) -> Option<TransactionWire> {
    match wire::json_parse(s) {
        Some(v) => spec_transaction_of_json(v),
        None => None,
    }
}

/// Reads one transaction out of a parsed JSON value.
pub fn transaction_of_json(j: &Json) -> (r: Option<TransactionDTO>)
    ensures
        (r is Some <==> spec_transaction_of_json(wire::json_view(*j)) is Some),
        r matches Some(d) ==> spec_transaction_of_json(wire::json_view(*j)) == Some(d.wire()),
{
    let transaction_id = match field_u64(j, "transaction_id") {
        Some(n) => n,
        None => {
            return None;
        },
    };
    let origin_user = match field_user_id(j, "origin_user") {
        Some(n) => n,
        None => {
            return None;
        },
    };
    let destination_user = match field_user_id(j, "destination_user") {
        Some(n) => n,
        None => {
            return None;
        },
    };
    let destination_address = match field_str(j, "destination_address") {
        Some(s) => s.to_owned(),
        None => {
            return None;
        },
    };
    let amount = match field_u64(j, "amount") {
        Some(n) => n,
        None => {
            return None;
        },
    };
    let timestamp = match field_str(j, "timestamp") {
        Some(s) => s.to_owned(),
        None => {
            return None;
        },
    };
    Some(
        TransactionDTO {
            transaction_id,
            origin_user,
            destination_user,
            destination_address: WalletAddress { address: destination_address },
            amount: Amount { repr: amount },
            timestamp,
        },
    )
}

/// Reads a transaction out of a response body.
pub fn decode_transaction(body: &str) -> (r: Option<TransactionDTO>)
    ensures
        (r is Some <==> spec_transaction_of_text(body@) is Some),
        r matches Some(d) ==> spec_transaction_of_text(body@) == Some(d.wire()),
{
    let j = match wire::json_from_str(body) {
        Some(j) => j,
        None => {
            return None;
        },
    };
    transaction_of_json(&j)
}

/// The transaction list a response body reads as.
pub open spec fn spec_transactions_of_text(s: Seq<char>) -> Option<Seq<TransactionWire>> {
    match wire::json_parse(s) {
        Some(v) => match v {
            JsonVal::Array(a) => if forall|i: int|
                0 <= i < a.len() ==> spec_transaction_of_json(#[trigger] a[i]) is Some {
                Some(Seq::new(a.len(), |i: int| spec_transaction_of_json(a[i]).unwrap()))
            } else {
                None
            },
            _ => None,
        },
        None => None,
    }
}

/// Reads a transaction list out of a response body.
pub fn decode_transactions(body: &str) -> (r: Option<Vec<TransactionDTO>>)
    ensures
        r matches Some(v) ==> spec_transactions_of_text(body@) == Some(
            v@.map_values(|d: TransactionDTO| d.wire()),
        ),
        r is Some <==> spec_transactions_of_text(body@) is Some,
{
    let j = match wire::json_from_str(body) {
        Some(j) => j,
        None => {
            return None;
        },
    };
    let items = match wire::json_as_array(&j) {
        Some(items) => items,
        None => {
            return None;
        },
    };
    let ghost a = wire::json_view(j)->Array_0;
    let mut out: Vec<TransactionDTO> = Vec::new();
    let mut i: usize = 0;
    while i < items.len()
        invariant
            wire::json_parse(body@) == Some(wire::json_view(j)),
            wire::json_view(j) matches JsonVal::Array(aa) && aa == a,
            items@.len() == a.len(),
            forall|k: int| 0 <= k < a.len() ==> wire::json_view(#[trigger] items@[k]) == a[k],
            0 <= i <= a.len(),
            out@.len() == i,
            forall|k: int| 0 <= k < i ==> spec_transaction_of_json(#[trigger] a[k]) is Some,
            forall|k: int|
                0 <= k < i ==> #[trigger] out@[k].wire() == spec_transaction_of_json(a[k]).unwrap(),
        decreases items@.len() - i,
    {
        match transaction_of_json(&items[i]) {
            Some(d) => {
                out.push(d);
            },
            None => {
                proof {
                    assert(spec_transaction_of_json(a[i as int]) is None);
                    assert(spec_transactions_of_text(body@) is None);
                }
                return None;
            },
        }
        i = i + 1;
    }
    proof {
        assert(out@.map_values(|d: TransactionDTO| d.wire()) =~= Seq::new(
            a.len(),
            |i: int| spec_transaction_of_json(a[i]).unwrap(),
        ));
    }
    Some(out)
}

/// The model of a `PendingFriendRequestDTO`.
pub struct PendingRequestWire {
    /// Connection ID.
    pub connection_id: u64,
    /// Origin user's profile.
    pub origin_user: ProfileWire,
    /// Destination user's profile.
    pub destination_user: ProfileWire,
    /// Request message.
    pub message: Option<Seq<char>>,
}

impl PendingFriendRequestDTO {
    /// The model of this wire value.
    pub open spec fn wire(self) -> PendingRequestWire {
        PendingRequestWire {
            connection_id: self.connection_id,
            origin_user: self.origin_user.wire(),
            destination_user: self.destination_user.wire(),
            message: self.message.deep_view(),
        }
    }
}

/// The profile under `key` of a modelled object.
pub open spec fn spec_field_profile(v: JsonVal, key: Seq<char>) -> Option<ProfileWire> {
    match v {
        JsonVal::Object(m) => if m.dom().contains(key) {
            spec_profile_of_json(m[key])
        } else {
            None
        },
        _ => None,
    }
}

/// Reads the profile object under `key`.
fn field_profile(j: &Json, key: &str) -> (r: Option<ProfileDTO>)
    ensures
        (r is Some <==> spec_field_profile(wire::json_view(*j), key@) is Some),
        r matches Some(d) ==> spec_field_profile(wire::json_view(*j), key@) == Some(d.wire()),
{
    match wire::json_find(j, key) {
        Some(v) => profile_of_json(v),
        None => None,
    }
}

/// The pending friend request a modelled JSON value reads as.
pub open spec fn spec_pending_request_of_json(v: JsonVal) -> Option<PendingRequestWire> {
    if spec_field_u64(v, "connection_id"@) is Some && spec_field_profile(
        v,
        "origin_user"@,
    ) is Some && spec_field_profile(v, "destination_user"@) is Some && spec_field_opt_str(
        v,
        "message"@,
    ) is Some {
        Some(
            PendingRequestWire {
                connection_id: spec_field_u64(v, "connection_id"@).unwrap(),
                origin_user: spec_field_profile(v, "origin_user"@).unwrap(),
                destination_user: spec_field_profile(v, "destination_user"@).unwrap(),
                message: spec_field_opt_str(v, "message"@).unwrap(),
            },
        )
    } else {
        None
    }
}

/// Reads one pending friend request out of a parsed JSON value.
pub fn pending_request_of_json(j: &Json) -> (r: Option<PendingFriendRequestDTO>)
    ensures
        (r is Some <==> spec_pending_request_of_json(wire::json_view(*j)) is Some),
        r matches Some(d) ==> spec_pending_request_of_json(wire::json_view(*j)) == Some(d.wire()),
{
    let connection_id = match field_u64(j, "connection_id") {
        Some(n) => n,
        None => {
            return None;
        },
    };
    let origin_user = match field_profile(j, "origin_user") {
        Some(d) => d,
        None => {
            return None;
        },
    };
    let destination_user = match field_profile(j, "destination_user") {
        Some(d) => d,
        None => {
            return None;
        },
    };
    let message = match field_opt_str(j, "message") {
        Some(o) => o,
        None => {
            return None;
        },
    };
    Some(PendingFriendRequestDTO { connection_id, origin_user, destination_user, message })
}

/// The pending friend request list a response body reads as.
pub open spec fn spec_pending_requests_of_text(s: Seq<char>) -> Option<Seq<PendingRequestWire>> {
    match wire::json_parse(s) {
        Some(v) => match v {
            JsonVal::Array(a) => if forall|i: int|
                0 <= i < a.len() ==> spec_pending_request_of_json(#[trigger] a[i]) is Some {
                Some(Seq::new(a.len(), |i: int| spec_pending_request_of_json(a[i]).unwrap()))
            } else {
                None
            },
            _ => None,
        },
        None => None,
    }
}

/// Reads a pending friend request list out of a response body.
pub fn decode_pending_requests(body: &str) -> (r: Option<Vec<PendingFriendRequestDTO>>)
    ensures
        r matches Some(v) ==> spec_pending_requests_of_text(body@) == Some(
            v@.map_values(|d: PendingFriendRequestDTO| d.wire()),
        ),
        r is Some <==> spec_pending_requests_of_text(body@) is Some,
{
    let j = match wire::json_from_str(body) {
        Some(j) => j,
        None => {
            return None;
        },
    };
    let items = match wire::json_as_array(&j) {
        Some(items) => items,
        None => {
            return None;
        },
    };
    let ghost a = wire::json_view(j)->Array_0;
    let mut out: Vec<PendingFriendRequestDTO> = Vec::new();
    let mut i: usize = 0;
    while i < items.len()
        invariant
            wire::json_parse(body@) == Some(wire::json_view(j)),
            wire::json_view(j) matches JsonVal::Array(aa) && aa == a,
            items@.len() == a.len(),
            forall|k: int| 0 <= k < a.len() ==> wire::json_view(#[trigger] items@[k]) == a[k],
            0 <= i <= a.len(),
            out@.len() == i,
            forall|k: int| 0 <= k < i ==> spec_pending_request_of_json(#[trigger] a[k]) is Some,
            forall|k: int|
                0 <= k < i ==> #[trigger] out@[k].wire() == spec_pending_request_of_json(
                    a[k],
                ).unwrap(),
        decreases items@.len() - i,
    {
        match pending_request_of_json(&items[i]) {
            Some(d) => {
                out.push(d);
            },
            None => {
                proof {
                    assert(spec_pending_request_of_json(a[i as int]) is None);
                    assert(spec_pending_requests_of_text(body@) is None);
                }
                return None;
            },
        }
        i = i + 1;
    }
    proof {
        assert(out@.map_values(|d: PendingFriendRequestDTO| d.wire()) =~= Seq::new(
            a.len(),
            |i: int| spec_pending_request_of_json(a[i]).unwrap(),
        ));
    }
    Some(out)
}

/// The model of a `ClientInfoDTO`.
pub struct ClientInfoWire {
    /// The ID of the client.
    pub id: Seq<char>,
    /// The name of the client.
    pub name: Seq<char>,
    /// The secret of the client.
    pub secret: Seq<char>,
    /// The scopes of the client.
    pub scopes: Seq<Scope>,
    /// The request limit of the client.
    pub request_limit: Option<usize>,
}

impl ClientInfoDTO {
    /// The model of this wire value.
    pub open spec fn wire(self) -> ClientInfoWire {
        ClientInfoWire {
            id: self.id@,
            name: self.name@,
            secret: self.secret@,
            scopes: self.scopes@,
            request_limit: self.request_limit,
        }
    }
}

/// The optional `usize` under `key` of a modelled object.
pub open spec fn spec_field_opt_usize(v: JsonVal, key: Seq<char>) -> Option<Option<usize>> {
    match v {
        JsonVal::Object(m) => if m.dom().contains(key) {
            match m[key] {
                JsonVal::Null => Some(None),
                _ => match spec_json_u64(m[key]) {
                    Some(n) => if n <= usize::MAX {
                        Some(Some(n as usize))
                    } else {
                        None
                    },
                    None => None,
                },
            }
        } else {
            None
        },
        _ => None,
    }
}

/// Reads the optional `usize` field under `key`.
fn field_opt_usize(j: &Json, key: &str) -> (r: Option<Option<usize>>)
    ensures
        r == spec_field_opt_usize(wire::json_view(*j), key@),
{
    match wire::json_find(j, key) {
        Some(v) => {
            if wire::json_is_null(v) {
                Some(None)
            } else {
                match wire::json_as_u64(v) {
                    Some(n) => if n <= usize::MAX as u64 {
                        Some(Some(n as usize))
                    } else {
                        None
                    },
                    None => None,
                }
            }
        },
        None => None,
    }
}

/// The scope list under `key` of a modelled object.
pub open spec fn spec_field_scopes(v: JsonVal, key: Seq<char>) -> Option<Seq<Scope>> {
    match v {
        JsonVal::Object(m) => if m.dom().contains(key) {
            spec_scopes_of_json(m[key])
        } else {
            None
        },
        _ => None,
    }
}

/// The client information a modelled JSON value reads as.
pub open spec fn spec_client_info_of_json(v: JsonVal) -> Option<ClientInfoWire> {
    if spec_field_str(v, "id"@) is Some && spec_field_str(v, "name"@) is Some && spec_field_str(
        v,
        "secret"@,
    ) is Some && spec_field_scopes(v, "scopes"@) is Some && spec_field_opt_usize(
        v,
        "request_limit"@,
    ) is Some {
        Some(
            ClientInfoWire {
                id: spec_field_str(v, "id"@).unwrap(),
                name: spec_field_str(v, "name"@).unwrap(),
                secret: spec_field_str(v, "secret"@).unwrap(),
                scopes: spec_field_scopes(v, "scopes"@).unwrap(),
                request_limit: spec_field_opt_usize(v, "request_limit"@).unwrap(),
            },
        )
    } else {
        None
    }
}

/// The client information a response body reads as.
pub open spec fn spec_client_info_of_text(s: Seq<char>) -> Option<ClientInfoWire> {
    match wire::json_parse(s) {
        Some(v) => spec_client_info_of_json(v),
        None => None,
    }
}

/// Reads the client information out of a response body.
pub fn decode_client_info(body: &str) -> (r: Option<ClientInfoDTO>)
    ensures
        (r is Some <==> spec_client_info_of_text(body@) is Some),
        r matches Some(d) ==> spec_client_info_of_text(body@) == Some(d.wire()),
{
    let j = match wire::json_from_str(body) {
        Some(j) => j,
        None => {
            return None;
        },
    };
    let id = match field_str(&j, "id") {
        Some(s) => s.to_owned(),
        None => {
            return None;
        },
    };
    let name = match field_str(&j, "name") {
        Some(s) => s.to_owned(),
        None => {
            return None;
        },
    };
    let secret = match field_str(&j, "secret") {
        Some(s) => s.to_owned(),
        None => {
            return None;
        },
    };
    let scopes = match wire::json_find(&j, "scopes") {
        Some(v) => match scopes_of_json(v) {
            Some(s) => s,
            None => {
                return None;
            },
        },
        None => {
            return None;
        },
    };
    let request_limit = match field_opt_usize(&j, "request_limit") {
        Some(o) => o,
        None => {
            return None;
        },
    };
    Some(ClientInfoDTO { id, name, secret, scopes, request_limit })
}

/// The calendar date a `YYYY-MM-DD` text reads as: four year digits, two
/// month digits and two day digits, the month 1 to 12 and the day 1 to 31.
pub open spec fn spec_date_of_text(s: Seq<char>) -> Option<Date> {
    if s.len() == 10 && s[4] == '-' && s[7] == '-' {
        match (
            spec_parse_u64(s.subrange(0, 4)),
            spec_parse_u64(s.subrange(5, 7)),
            spec_parse_u64(s.subrange(8, 10)),
        ) {
            (Some(y), Some(m), Some(d)) => if y <= 9999 && 1 <= m <= 12 && 1 <= d <= 31 {
                Some(Date { year: y as u32, month: m as u32, day: d as u32 })
            } else {
                None
            },
            _ => None,
        }
    } else {
        None
    }
}

/// Reads a calendar date written as `YYYY-MM-DD`.
pub fn date_of_text(s: &str) -> (r: Option<Date>)
    ensures
        r == spec_date_of_text(s@),
{
    let len = s.unicode_len();
    if len != 10 {
        return None;
    }
    if !(s.get_char(4) == '-' && s.get_char(7) == '-') {
        return None;
    }
    let y = parse_u64(s.substring_char(0, 4));
    let m = parse_u64(s.substring_char(5, 7));
    let d = parse_u64(s.substring_char(8, 10));
    match (y, m, d) {
        (Some(y), Some(m), Some(d)) => {
            if y <= 9999 && 1 <= m && m <= 12 && 1 <= d && d <= 31 {
                Some(Date { year: y as u32, month: m as u32, day: d as u32 })
            } else {
                None
            }
        },
        _ => None,
    }
}

/// The instant the string field under `key` reads as.
pub open spec fn spec_field_instant(v: JsonVal, key: Seq<char>) -> Option<i64> {
    match spec_field_str(v, key) {
        Some(s) => wire::epoch_of_datetime_text(s),
        None => None,
    }
}

/// Reads the instant field under `key`.
fn field_instant(j: &Json, key: &str) -> (r: Option<i64>)
    ensures
        r == spec_field_instant(wire::json_view(*j), key@),
{
    match wire::json_find(j, key) {
        Some(v) => match wire::json_as_string(v) {
            Some(s) => wire::parse_datetime_epoch(s),
            None => None,
        },
        None => None,
    }
}

/// The optional instant under `key` of a modelled object: `null` reads as
/// nothing, a readable instant text as itself, anything else refuses the
/// field.
pub open spec fn spec_field_opt_instant(v: JsonVal, key: Seq<char>) -> Option<Option<i64>> {
    match v {
        JsonVal::Object(m) => if m.dom().contains(key) {
            match m[key] {
                JsonVal::Null => Some(None),
                JsonVal::Str(s) => match wire::epoch_of_datetime_text(s) {
                    Some(e) => Some(Some(e)),
                    None => None,
                },
                _ => None,
            }
        } else {
            None
        },
        _ => None,
    }
}

/// Reads the optional instant field under `key`.
fn field_opt_instant(j: &Json, key: &str) -> (r: Option<Option<i64>>)
    ensures
        r == spec_field_opt_instant(wire::json_view(*j), key@),
{
    match wire::json_find(j, key) {
        Some(v) => {
            if wire::json_is_null(v) {
                Some(None)
            } else {
                match wire::json_as_string(v) {
                    Some(s) => match wire::parse_datetime_epoch(s) {
                        Some(e) => Some(Some(e)),
                        None => None,
                    },
                    None => None,
                }
            }
        },
        None => None,
    }
}

/// The optional calendar date under `key` of a modelled object.
pub open spec fn spec_field_opt_date(v: JsonVal, key: Seq<char>) -> Option<Option<Date>> {
    match v {
        JsonVal::Object(m) => if m.dom().contains(key) {
            match m[key] {
                JsonVal::Null => Some(None),
                JsonVal::Str(s) => match spec_date_of_text(s) {
                    Some(d) => Some(Some(d)),
                    None => None,
                },
                _ => None,
            }
        } else {
            None
        },
        _ => None,
    }
}

/// Reads the optional calendar date field under `key`.
fn field_opt_date(j: &Json, key: &str) -> (r: Option<Option<Date>>)
    ensures
        r == spec_field_opt_date(wire::json_view(*j), key@),
{
    match wire::json_find(j, key) {
        Some(v) => {
            if wire::json_is_null(v) {
                Some(None)
            } else {
                match wire::json_as_string(v) {
                    Some(s) => match date_of_text(s) {
                        Some(d) => Some(Some(d)),
                        None => None,
                    },
                    None => None,
                }
            }
        },
        None => None,
    }
}

/// The `u8` under `key` of a modelled object.
pub open spec fn spec_field_u8(v: JsonVal, key: Seq<char>) -> Option<u8> {
    match spec_field_u64(v, key) {
        Some(n) => if n <= u8::MAX {
            Some(n as u8)
        } else {
            None
        },
        None => None,
    }
}

/// Reads the `u8` field under `key`.
fn field_u8(j: &Json, key: &str) -> (r: Option<u8>)
    ensures
        r == spec_field_u8(wire::json_view(*j), key@),
{
    match field_u64(j, key) {
        Some(n) => if n <= 255 {
            Some(n as u8)
        } else {
            None
        },
        None => None,
    }
}

/// The wallet address list under `key` of a modelled object: an array whose
/// elements are all strings, each the textual form of an address.
pub open spec fn spec_field_wallets(v: JsonVal, key: Seq<char>) -> Option<Seq<Seq<char>>> {
    match v {
        JsonVal::Object(m) => if m.dom().contains(key) {
            match m[key] {
                JsonVal::Array(a) => if forall|i: int| 0 <= i < a.len() ==> (#[trigger] a[i]) is Str {
                    Some(Seq::new(a.len(), |i: int| a[i]->Str_0))
                } else {
                    None
                },
                _ => None,
            }
        } else {
            None
        },
        _ => None,
    }
}

/// Reads the wallet address list under `key`.
fn field_wallets(j: &Json, key: &str) -> (r: Option<Vec<WalletAddress>>)
    ensures
        (r is Some <==> spec_field_wallets(wire::json_view(*j), key@) is Some),
        r matches Some(v) ==> spec_field_wallets(wire::json_view(*j), key@) == Some(
            v@.map_values(|w: WalletAddress| w.address@),
        ),
{
    let inner = match wire::json_find(j, key) {
        Some(v) => v,
        None => {
            return None;
        },
    };
    let items = match wire::json_as_array(inner) {
        Some(items) => items,
        None => {
            return None;
        },
    };
    let ghost a = wire::json_view(*inner)->Array_0;
    let mut out: Vec<WalletAddress> = Vec::new();
    let mut i: usize = 0;
    while i < items.len()
        invariant
            (wire::json_view(*j) matches JsonVal::Object(m) && m.dom().contains(key@) && m[key@]
                == wire::json_view(*inner)),
            wire::json_view(*inner) matches JsonVal::Array(aa) && aa == a,
            items@.len() == a.len(),
            forall|k: int| 0 <= k < a.len() ==> wire::json_view(#[trigger] items@[k]) == a[k],
            0 <= i <= a.len(),
            out@.len() == i,
            forall|k: int| 0 <= k < i ==> (#[trigger] a[k]) is Str,
            forall|k: int| 0 <= k < i ==> (#[trigger] out@[k]).address@ == a[k]->Str_0,
        decreases items@.len() - i,
    {
        match wire::json_as_string(&items[i]) {
            Some(s) => {
                out.push(WalletAddress { address: s.to_owned() });
            },
            None => {
                return None;
            },
        }
        i = i + 1;
    }
    proof {
        assert(out@.map_values(|w: WalletAddress| w.address@) =~= Seq::new(
            a.len(),
            |i: int| a[i]->Str_0,
        ));
    }
    Some(out)
}

/// The model of a postal address on the wire.
pub struct AddressWire {
    /// First address line.
    pub address1: Seq<char>,
    /// Second address line.
    pub address2: Option<Seq<char>>,
    /// The city.
    pub city: Seq<char>,
    /// The state.
    pub state: Seq<char>,
    /// The zip code.
    pub zip: Seq<char>,
    /// The country.
    pub country: Seq<char>,
}

impl Address {
    /// The model of this address as a wire value.
    pub open spec fn wire(self) -> AddressWire {
        AddressWire {
            address1: self.address1@,
            address2: self.address2.deep_view(),
            city: self.city@,
            state: self.state@,
            zip: self.zip@,
            country: self.country@,
        }
    }
}

/// The postal address a modelled JSON value reads as.
pub open spec fn spec_address_of_json(v: JsonVal) -> Option<AddressWire> {
    if spec_field_str(v, "address1"@) is Some && spec_field_opt_str(v, "address2"@) is Some
        && spec_field_str(v, "city"@) is Some && spec_field_str(v, "state"@) is Some
        && spec_field_str(v, "zip"@) is Some && spec_field_str(v, "country"@) is Some {
        Some(
            AddressWire {
                address1: spec_field_str(v, "address1"@).unwrap(),
                address2: spec_field_opt_str(v, "address2"@).unwrap(),
                city: spec_field_str(v, "city"@).unwrap(),
                state: spec_field_str(v, "state"@).unwrap(),
                zip: spec_field_str(v, "zip"@).unwrap(),
                country: spec_field_str(v, "country"@).unwrap(),
            },
        )
    } else {
        None
    }
}

/// Reads one postal address out of a parsed JSON value.
fn address_of_json(j: &Json) -> (r: Option<Address>)
    ensures
        (r is Some <==> spec_address_of_json(wire::json_view(*j)) is Some),
        r matches Some(a) ==> spec_address_of_json(wire::json_view(*j)) == Some(a.wire()),
{
    let address1 = match field_str(j, "address1") {
        Some(s) => s.to_owned(),
        None => {
            return None;
        },
    };
    let address2 = match field_opt_str(j, "address2") {
        Some(o) => o,
        None => {
            return None;
        },
    };
    let city = match field_str(j, "city") {
        Some(s) => s.to_owned(),
        None => {
            return None;
        },
    };
    let state = match field_str(j, "state") {
        Some(s) => s.to_owned(),
        None => {
            return None;
        },
    };
    let zip = match field_str(j, "zip") {
        Some(s) => s.to_owned(),
        None => {
            return None;
        },
    };
    let country = match field_str(j, "country") {
        Some(s) => s.to_owned(),
        None => {
            return None;
        },
    };
    Some(Address { address1, address2, city, state, zip, country })
}

/// The optional postal address under `key` of a modelled object.
pub open spec fn spec_field_opt_address(v: JsonVal, key: Seq<char>) -> Option<
    Option<AddressWire>,
> {
    match v {
        JsonVal::Object(m) => if m.dom().contains(key) {
            match m[key] {
                JsonVal::Null => Some(None),
                _ => match spec_address_of_json(m[key]) {
                    Some(a) => Some(Some(a)),
                    None => None,
                },
            }
        } else {
            None
        },
        _ => None,
    }
}

/// Reads the optional postal address field under `key`.
fn field_opt_address(j: &Json, key: &str) -> (r: Option<Option<Address>>)
    ensures
        (r is Some <==> spec_field_opt_address(wire::json_view(*j), key@) is Some),
        r matches Some(o) ==> ((o is Some <==> spec_field_opt_address(
            wire::json_view(*j),
            key@,
        ).unwrap() is Some) && (o matches Some(a) ==> spec_field_opt_address(
            wire::json_view(*j),
            key@,
        ).unwrap() == Some(a.wire()))),
{
    match wire::json_find(j, key) {
        Some(v) => {
            if wire::json_is_null(v) {
                Some(None)
            } else {
                match address_of_json(v) {
                    Some(a) => Some(Some(a)),
                    None => None,
                }
            }
        },
        None => None,
    }
}

/// Whether one entry of a bonds object is readable: its key an instant
/// text, its value a count.
pub open spec fn spec_bonds_entry_ok(k: Seq<char>, val: JsonVal) -> bool {
    wire::epoch_of_datetime_text(k) is Some && spec_json_u64(val) is Some
}

/// Whether the bonds object under `key` is readable: absent, or an object
/// every entry of which is readable.
pub open spec fn spec_field_bonds_ok(v: JsonVal, key: Seq<char>) -> bool {
    match v {
        JsonVal::Object(m) => if m.dom().contains(key) {
            match m[key] {
                JsonVal::Object(bm) => forall|k: Seq<char>|
                    #[trigger] bm.dom().contains(k) ==> spec_bonds_entry_ok(k, bm[k]),
                _ => false,
            }
        } else {
            true
        },
        _ => false,
    }
}

/// Whether the pair `p` reads off some entry of the bonds object `bm`.
pub open spec fn bond_pair_from_map(bm: Map<Seq<char>, JsonVal>, p: (i64, u64)) -> bool {
    exists|k: Seq<char>|
        #[trigger] bm.dom().contains(k) && wire::epoch_of_datetime_text(k) == Some(p.0)
            && spec_json_u64(bm[k]) == Some(p.1)
}

/// Whether the entry under `k` of the bonds object `bm` is listed in
/// `bonds`.
pub open spec fn bond_key_listed(
    bm: Map<Seq<char>, JsonVal>,
    bonds: Seq<(i64, u64)>,
    k: Seq<char>,
) -> bool {
    exists|i: int|
        0 <= i < bonds.len() && wire::epoch_of_datetime_text(k) == Some(#[trigger] bonds[i].0)
            && spec_json_u64(bm[k]) == Some(bonds[i].1)
}

/// Whether `bonds` lists exactly the entries of the bonds object `bm`: each
/// listed pair comes from an entry, and each entry is listed.  The order of
/// the list is not pinned here.
pub open spec fn bonds_match_map(bm: Map<Seq<char>, JsonVal>, bonds: Seq<(i64, u64)>) -> bool {
    &&& (forall|i: int| 0 <= i < bonds.len() ==> bond_pair_from_map(bm, #[trigger] bonds[i]))
    &&& (forall|k: Seq<char>| #[trigger] bm.dom().contains(k) ==> bond_key_listed(bm, bonds, k))
}

/// Whether `bonds` lists exactly the entries of the bonds object under
/// `key`.  An absent field reads as the empty list.
pub open spec fn bonds_correspond(v: JsonVal, key: Seq<char>, bonds: Seq<(i64, u64)>) -> bool {
    match v {
        JsonVal::Object(m) => if m.dom().contains(key) {
            match m[key] {
                JsonVal::Object(bm) => bonds_match_map(bm, bonds),
                _ => false,
            }
        } else {
            bonds.len() == 0
        },
        _ => false,
    }
}

/// Reads the bonds object under `key` into a list of instant/count pairs.
fn field_bonds(j: &Json, key: &str) -> (r: Option<Vec<(i64, u64)>>)
    ensures
        wire::json_view(*j) is Object ==> ((r is Some <==> spec_field_bonds_ok(
            wire::json_view(*j),
            key@,
        )) && (r matches Some(b) ==> bonds_correspond(wire::json_view(*j), key@, b@))),
{
    let inner = match wire::json_find(j, key) {
        Some(v) => v,
        None => {
            return Some(Vec::new());
        },
    };
    let entries = match wire::json_object_entries(inner) {
        Some(e) => e,
        None => {
            return None;
        },
    };
    let ghost bm = wire::json_view(*inner)->Object_0;
    let mut out: Vec<(i64, u64)> = Vec::new();
    let mut i: usize = 0;
    while i < entries.len()
        invariant
            (wire::json_view(*j) matches JsonVal::Object(m) && m.dom().contains(key@) && m[key@]
                == wire::json_view(*inner)),
            wire::json_view(*inner) matches JsonVal::Object(mm) && mm == bm,
            forall|k: int|
                0 <= k < entries@.len() ==> bm.dom().contains(#[trigger] entries@[k].0@)
                    && wire::json_view(entries@[k].1) == bm[entries@[k].0@],
            forall|k: Seq<char>|
                #[trigger] bm.dom().contains(k) ==> exists|l: int|
                    0 <= l < entries@.len() && #[trigger] entries@[l].0@ == k,
            0 <= i <= entries@.len(),
            out@.len() == i,
            forall|k: int|
                0 <= k < i ==> spec_bonds_entry_ok(
                    #[trigger] entries@[k].0@,
                    wire::json_view(entries@[k].1),
                ),
            forall|k: int|
                0 <= k < i ==> wire::epoch_of_datetime_text(#[trigger] entries@[k].0@) == Some(
                    out@[k].0,
                ) && spec_json_u64(wire::json_view(entries@[k].1)) == Some(out@[k].1),
        decreases entries@.len() - i,
    {
        let t = match wire::parse_datetime_epoch(entries[i].0.as_str()) {
            Some(t) => t,
            None => {
                proof {
                    let k0 = entries@[i as int].0@;
                    assert(bm.dom().contains(k0));
                    assert(!spec_bonds_entry_ok(k0, bm[k0]));
                }
                return None;
            },
        };
        let n = match wire::json_as_u64(&entries[i].1) {
            Some(n) => n,
            None => {
                proof {
                    let k0 = entries@[i as int].0@;
                    assert(bm.dom().contains(k0));
                    assert(!spec_bonds_entry_ok(k0, bm[k0]));
                }
                return None;
            },
        };
        out.push((t, n));
        i = i + 1;
    }
    proof {
        assert forall|k: Seq<char>| #[trigger] bm.dom().contains(k) implies spec_bonds_entry_ok(
            k,
            bm[k],
        ) by {
            let l = choose|l: int| 0 <= l < entries@.len() && #[trigger] entries@[l].0@ == k;
            assert(spec_bonds_entry_ok(entries@[l].0@, wire::json_view(entries@[l].1)));
        }
        assert forall|i2: int| 0 <= i2 < out@.len() implies bond_pair_from_map(
            bm,
            #[trigger] out@[i2],
        ) by {
            assert(bm.dom().contains(entries@[i2].0@) && wire::epoch_of_datetime_text(
                entries@[i2].0@,
            ) == Some(out@[i2].0) && spec_json_u64(bm[entries@[i2].0@]) == Some(out@[i2].1));
        }
        assert forall|k: Seq<char>| #[trigger] bm.dom().contains(k) implies bond_key_listed(
            bm,
            out@,
            k,
        ) by {
            let l = choose|l: int| 0 <= l < entries@.len() && #[trigger] entries@[l].0@ == k;
            assert(0 <= l < out@.len() && wire::epoch_of_datetime_text(k) == Some(out@[l].0)
                && spec_json_u64(bm[k]) == Some(out@[l].1));
        }
        assert(spec_field_bonds_ok(wire::json_view(*j), key@));
        assert(bonds_match_map(bm, out@));
        assert(bonds_correspond(wire::json_view(*j), key@, out@));
    }
    Some(out)
}

/// The model of a `UserDTO`, apart from its bonds list, whose order the
/// wire does not pin.
pub struct UserWire {
    /// The unique ID of the user.
    pub user_id: u64,
    /// The unique username of the user.
    pub username: Seq<char>,
    /// The display name of the user.
    pub display_name: Seq<char>,
    /// The user's email.
    pub email: Seq<char>,
    /// Whether the email has been confirmed.
    pub email_confirmed: bool,
    /// The user's first name.
    pub first_name: Option<Seq<char>>,
    /// Whether the first name has been confirmed.
    pub first_name_confirmed: bool,
    /// The user's last name.
    pub last_name: Option<Seq<char>>,
    /// Whether the last name has been confirmed.
    pub last_name_confirmed: bool,
    /// The amount of devices the user has.
    pub device_count: u8,
    /// The textual forms of the user's wallet addresses.
    pub wallet_addresses: Seq<Seq<char>>,
    /// The user's pending balance, as its raw representation.
    pub pending_balance: u64,
    /// The user's checking balance.
    pub checking_balance: u64,
    /// The user's cold balance.
    pub cold_balance: u64,
    /// The user's birthday.
    pub birthday: Option<Date>,
    /// Whether the birthday has been confirmed.
    pub birthday_confirmed: bool,
    /// The user's phone number.
    pub phone: Option<Seq<char>>,
    /// Whether the phone number has been confirmed.
    pub phone_confirmed: bool,
    /// The user's profile picture.
    pub image_url: Option<Seq<char>>,
    /// The user's address.
    pub address: Option<AddressWire>,
    /// Whether the address has been confirmed.
    pub address_confirmed: bool,
    /// The user's sybil score.
    pub sybil_score: i8,
    /// The user's trust score.
    pub trust_score: i8,
    /// Whether the user's account is enabled.
    pub enabled: bool,
    /// The instant the user registered.
    pub registration_time: i64,
    /// The user's last activity instant.
    pub last_activity: i64,
    /// Whether the user is banned, and until when.
    pub banned: Option<i64>,
}

impl UserDTO {
    /// The model of this wire value, apart from its bonds list.
    pub open spec fn wire(self) -> UserWire {
        UserWire {
            user_id: self.user_id,
            username: self.username@,
            display_name: self.display_name@,
            email: self.email@,
            email_confirmed: self.email_confirmed,
            first_name: self.first_name.deep_view(),
            first_name_confirmed: self.first_name_confirmed,
            last_name: self.last_name.deep_view(),
            last_name_confirmed: self.last_name_confirmed,
            device_count: self.device_count,
            wallet_addresses: self.wallet_addresses@.map_values(|w: WalletAddress| w.address@),
            pending_balance: self.pending_balance.repr,
            checking_balance: self.checking_balance.repr,
            cold_balance: self.cold_balance.repr,
            birthday: self.birthday,
            birthday_confirmed: self.birthday_confirmed,
            phone: self.phone.deep_view(),
            phone_confirmed: self.phone_confirmed,
            image_url: self.image_url.deep_view(),
            address: (match self.address {
                Some(a) => Some(a.wire()),
                None => None,
            }),
            address_confirmed: self.address_confirmed,
            sybil_score: self.sybil_score,
            trust_score: self.trust_score,
            enabled: self.enabled,
            registration_time: self.registration_time,
            last_activity: self.last_activity,
            banned: self.banned,
        }
    }
}

/// The user a modelled JSON value reads as, apart from its bonds list: an
/// object with the fields of `UserDTO`, the instants as instant texts, the
/// birthday as a date text and the bonds, if present, a readable object.
pub open spec fn spec_user_of_json(v: JsonVal) -> Option<UserWire> {
    if spec_field_u64(v, "user_id"@) is Some && spec_field_str(v, "username"@) is Some
        && spec_field_str(v, "display_name"@) is Some && spec_field_str(v, "email"@) is Some
        && spec_field_bool(v, "email_confirmed"@) is Some && spec_field_opt_str(
        v,
        "first_name"@,
    ) is Some && spec_field_bool(v, "first_name_confirmed"@) is Some && spec_field_opt_str(
        v,
        "last_name"@,
    ) is Some && spec_field_bool(v, "last_name_confirmed"@) is Some && spec_field_u8(
        v,
        "device_count"@,
    ) is Some && spec_field_wallets(v, "wallet_addresses"@) is Some && spec_field_u64(
        v,
        "pending_balance"@,
    ) is Some && spec_field_u64(v, "checking_balance"@) is Some && spec_field_u64(
        v,
        "cold_balance"@,
    ) is Some && spec_field_opt_date(v, "birthday"@) is Some && spec_field_bool(
        v,
        "birthday_confirmed"@,
    ) is Some && spec_field_opt_str(v, "phone"@) is Some && spec_field_bool(
        v,
        "phone_confirmed"@,
    ) is Some && spec_field_opt_str(v, "image_url"@) is Some && spec_field_opt_address(
        v,
        "address"@,
    ) is Some && spec_field_bool(v, "address_confirmed"@) is Some && spec_field_i8(
        v,
        "sybil_score"@,
    ) is Some && spec_field_i8(v, "trust_score"@) is Some && spec_field_bool(
        v,
        "enabled"@,
    ) is Some && spec_field_instant(v, "registration_time"@) is Some && spec_field_instant(
        v,
        "last_activity"@,
    ) is Some && spec_field_opt_instant(v, "banned"@) is Some && spec_field_bonds_ok(
        v,
        "bonds"@,
    ) {
        Some(
            UserWire {
                user_id: spec_field_u64(v, "user_id"@).unwrap(),
                username: spec_field_str(v, "username"@).unwrap(),
                display_name: spec_field_str(v, "display_name"@).unwrap(),
                email: spec_field_str(v, "email"@).unwrap(),
                email_confirmed: spec_field_bool(v, "email_confirmed"@).unwrap(),
                first_name: spec_field_opt_str(v, "first_name"@).unwrap(),
                first_name_confirmed: spec_field_bool(v, "first_name_confirmed"@).unwrap(),
                last_name: spec_field_opt_str(v, "last_name"@).unwrap(),
                last_name_confirmed: spec_field_bool(v, "last_name_confirmed"@).unwrap(),
                device_count: spec_field_u8(v, "device_count"@).unwrap(),
                wallet_addresses: spec_field_wallets(v, "wallet_addresses"@).unwrap(),
                pending_balance: spec_field_u64(v, "pending_balance"@).unwrap(),
                checking_balance: spec_field_u64(v, "checking_balance"@).unwrap(),
                cold_balance: spec_field_u64(v, "cold_balance"@).unwrap(),
                birthday: spec_field_opt_date(v, "birthday"@).unwrap(),
                birthday_confirmed: spec_field_bool(v, "birthday_confirmed"@).unwrap(),
                phone: spec_field_opt_str(v, "phone"@).unwrap(),
                phone_confirmed: spec_field_bool(v, "phone_confirmed"@).unwrap(),
                image_url: spec_field_opt_str(v, "image_url"@).unwrap(),
                address: spec_field_opt_address(v, "address"@).unwrap(),
                address_confirmed: spec_field_bool(v, "address_confirmed"@).unwrap(),
                sybil_score: spec_field_i8(v, "sybil_score"@).unwrap(),
                trust_score: spec_field_i8(v, "trust_score"@).unwrap(),
                enabled: spec_field_bool(v, "enabled"@).unwrap(),
                registration_time: spec_field_instant(v, "registration_time"@).unwrap(),
                last_activity: spec_field_instant(v, "last_activity"@).unwrap(),
                banned: spec_field_opt_instant(v, "banned"@).unwrap(),
            },
        )
    } else {
        None
    }
}

/// Reads one user wire value out of a parsed JSON value.
pub fn user_of_json(j: &Json) -> (r: Option<UserDTO>)
    ensures
        (r is Some <==> spec_user_of_json(wire::json_view(*j)) is Some),
        r matches Some(d) ==> spec_user_of_json(wire::json_view(*j)) == Some(d.wire())
            && bonds_correspond(wire::json_view(*j), "bonds"@, d.bonds@),
{
    let user_id = match field_u64(j, "user_id") {
        Some(n) => n,
        None => {
            return None;
        },
    };
    let username = match field_str(j, "username") {
        Some(s) => s.to_owned(),
        None => {
            return None;
        },
    };
    let display_name = match field_str(j, "display_name") {
        Some(s) => s.to_owned(),
        None => {
            return None;
        },
    };
    let email = match field_str(j, "email") {
        Some(s) => s.to_owned(),
        None => {
            return None;
        },
    };
    let email_confirmed = match field_bool(j, "email_confirmed") {
        Some(b) => b,
        None => {
            return None;
        },
    };
    let first_name = match field_opt_str(j, "first_name") {
        Some(o) => o,
        None => {
            return None;
        },
    };
    let first_name_confirmed = match field_bool(j, "first_name_confirmed") {
        Some(b) => b,
        None => {
            return None;
        },
    };
    let last_name = match field_opt_str(j, "last_name") {
        Some(o) => o,
        None => {
            return None;
        },
    };
    let last_name_confirmed = match field_bool(j, "last_name_confirmed") {
        Some(b) => b,
        None => {
            return None;
        },
    };
    let device_count = match field_u8(j, "device_count") {
        Some(n) => n,
        None => {
            return None;
        },
    };
    let wallet_addresses = match field_wallets(j, "wallet_addresses") {
        Some(v) => v,
        None => {
            return None;
        },
    };
    let pending_balance = match field_u64(j, "pending_balance") {
        Some(n) => Amount { repr: n },
        None => {
            return None;
        },
    };
    let checking_balance = match field_u64(j, "checking_balance") {
        Some(n) => Amount { repr: n },
        None => {
            return None;
        },
    };
    let cold_balance = match field_u64(j, "cold_balance") {
        Some(n) => Amount { repr: n },
        None => {
            return None;
        },
    };
    let bonds = match field_bonds(j, "bonds") {
        Some(b) => b,
        None => {
            return None;
        },
    };
    let birthday = match field_opt_date(j, "birthday") {
        Some(o) => o,
        None => {
            return None;
        },
    };
    let birthday_confirmed = match field_bool(j, "birthday_confirmed") {
        Some(b) => b,
        None => {
            return None;
        },
    };
    let phone = match field_opt_str(j, "phone") {
        Some(o) => o,
        None => {
            return None;
        },
    };
    let phone_confirmed = match field_bool(j, "phone_confirmed") {
        Some(b) => b,
        None => {
            return None;
        },
    };
    let image_url = match field_opt_str(j, "image_url") {
        Some(o) => o,
        None => {
            return None;
        },
    };
    let address = match field_opt_address(j, "address") {
        Some(o) => o,
        None => {
            return None;
        },
    };
    let address_confirmed = match field_bool(j, "address_confirmed") {
        Some(b) => b,
        None => {
            return None;
        },
    };
    let sybil_score = match field_i8(j, "sybil_score") {
        Some(n) => n,
        None => {
            return None;
        },
    };
    let trust_score = match field_i8(j, "trust_score") {
        Some(n) => n,
        None => {
            return None;
        },
    };
    let enabled = match field_bool(j, "enabled") {
        Some(b) => b,
        None => {
            return None;
        },
    };
    let registration_time = match field_instant(j, "registration_time") {
        Some(t) => t,
        None => {
            return None;
        },
    };
    let last_activity = match field_instant(j, "last_activity") {
        Some(t) => t,
        None => {
            return None;
        },
    };
    let banned = match field_opt_instant(j, "banned") {
        Some(o) => o,
        None => {
            return None;
        },
    };
    Some(
        UserDTO {
            user_id,
            username,
            display_name,
            email,
            email_confirmed,
            first_name,
            first_name_confirmed,
            last_name,
            last_name_confirmed,
            device_count,
            wallet_addresses,
            pending_balance,
            checking_balance,
            cold_balance,
            bonds,
            birthday,
            birthday_confirmed,
            phone,
            phone_confirmed,
            image_url,
            address,
            address_confirmed,
            sybil_score,
            trust_score,
            enabled,
            registration_time,
            last_activity,
            banned,
        },
    )
}

/// The user a response body reads as, apart from its bonds list.
pub open spec fn spec_user_of_text(s: Seq<char>) -> Option<UserWire> {
    match wire::json_parse(s) {
        Some(v) => spec_user_of_json(v),
        None => None,
    }
}

/// Reads a user wire value out of a response body.
pub fn decode_user(body: &str) -> (r: Option<UserDTO>)
    ensures
        (r is Some <==> spec_user_of_text(body@) is Some),
        r matches Some(d) ==> spec_user_of_text(body@) == Some(d.wire()) && (match wire::json_parse(
            body@,
        ) {
            Some(v) => bonds_correspond(v, "bonds"@, d.bonds@),
            None => false,
        }),
{
    let j = match wire::json_from_str(body) {
        Some(j) => j,
        None => {
            return None;
        },
    };
    user_of_json(&j)
}

/// The user list a response body reads as, apart from each bonds list.
pub open spec fn spec_users_of_text(s: Seq<char>) -> Option<Seq<UserWire>> {
    match wire::json_parse(s) {
        Some(v) => match v {
            JsonVal::Array(a) => if forall|i: int|
                0 <= i < a.len() ==> spec_user_of_json(#[trigger] a[i]) is Some {
                Some(Seq::new(a.len(), |i: int| spec_user_of_json(a[i]).unwrap()))
            } else {
                None
            },
            _ => None,
        },
        None => None,
    }
}

/// Reads a user list out of a response body.
pub fn decode_users(body: &str) -> (r: Option<Vec<UserDTO>>)
    ensures
        r is Some <==> spec_users_of_text(body@) is Some,
        r matches Some(v) ==> spec_users_of_text(body@) == Some(
            v@.map_values(|d: UserDTO| d.wire()),
        ) && (match wire::json_parse(body@) {
            Some(p) => p matches JsonVal::Array(a) && a.len() == v@.len() && (forall|i: int|
                0 <= i < a.len() ==> bonds_correspond(#[trigger] a[i], "bonds"@, v@[i].bonds@)),
            None => false,
        }),
{
    let j = match wire::json_from_str(body) {
        Some(j) => j,
        None => {
            return None;
        },
    };
    let items = match wire::json_as_array(&j) {
        Some(items) => items,
        None => {
            return None;
        },
    };
    let ghost a = wire::json_view(j)->Array_0;
    let mut out: Vec<UserDTO> = Vec::new();
    let mut i: usize = 0;
    while i < items.len()
        invariant
            wire::json_parse(body@) == Some(wire::json_view(j)),
            wire::json_view(j) matches JsonVal::Array(aa) && aa == a,
            items@.len() == a.len(),
            forall|k: int| 0 <= k < a.len() ==> wire::json_view(#[trigger] items@[k]) == a[k],
            0 <= i <= a.len(),
            out@.len() == i,
            forall|k: int| 0 <= k < i ==> spec_user_of_json(#[trigger] a[k]) is Some,
            forall|k: int|
                0 <= k < i ==> #[trigger] out@[k].wire() == spec_user_of_json(a[k]).unwrap(),
            forall|k: int|
                0 <= k < i ==> bonds_correspond(#[trigger] a[k], "bonds"@, out@[k].bonds@),
        decreases items@.len() - i,
    {
        match user_of_json(&items[i]) {
            Some(d) => {
                out.push(d);
            },
            None => {
                proof {
                    assert(spec_user_of_json(a[i as int]) is None);
                    assert(spec_users_of_text(body@) is None);
                }
                return None;
            },
        }
        i = i + 1;
    }
    proof {
        assert(out@.map_values(|d: UserDTO| d.wire()) =~= Seq::new(
            a.len(),
            |i: int| spec_user_of_json(a[i]).unwrap(),
        ));
    }
    Some(out)
}

/// The pending-transaction code a response body reads as: the `code` field
/// of the object.
pub open spec fn spec_transaction_code_of_text(s: Seq<char>) -> Option<Seq<char>> {
    match wire::json_parse(s) {
        Some(v) => spec_field_str(v, "code"@),
        None => None,
    }
}

/// Reads the code of a pending transaction out of a response body.
pub fn decode_transaction_code(body: &str) -> (r: Option<String>)
    ensures
        (r is Some <==> spec_transaction_code_of_text(body@) is Some),
        r matches Some(s) ==> spec_transaction_code_of_text(body@) == Some(s@),
{
    let j = match wire::json_from_str(body) {
        Some(j) => j,
        None => {
            return None;
        },
    };
    match field_str(&j, "code") {
        Some(s) => Some(s.to_owned()),
        None => None,
    }
}

/// The view of an optional string argument.
pub open spec fn opt_str_view(o: Option<&str>) -> Option<Seq<char>> {
    match o {
        Some(s) => Some(s@),
        None => None,
    }
}

/// How an optional string is laid out in JSON: the string itself, or `null`.
pub open spec fn spec_opt_str_json(o: Option<Seq<char>>) -> JsonVal {
    match o {
        Some(s) => JsonVal::Str(s),
        None => JsonVal::Null,
    }
}

/// Writes an optional string as a parsed JSON value.
fn opt_str_to_json(o: Option<&str>) -> (r: Json)
    ensures
        wire::json_view(r) == spec_opt_str_json(opt_str_view(o)),
        !wire::has_float(wire::json_view(r)),
{
    match o {
        Some(s) => wire::json_string(s),
        None => wire::json_null(),
    }
}

/// How the body of a `register` request is laid out.
pub open spec fn spec_register_json(
    username: Seq<char>,
    password: Seq<char>,
    email: Seq<char>,
    referer: Option<Seq<char>>,
) -> JsonVal {
    JsonVal::Object(
        map![
            "username"@ => JsonVal::Str(username),
            "password"@ => JsonVal::Str(password),
            "email"@ => JsonVal::Str(email),
            "referer"@ => spec_opt_str_json(referer),
        ],
    )
}

/// Writes the body of a `register` request.
pub fn encode_register(username: &str, password: &str, email: &str, referer: Option<&str>) -> (r:
    String)
    ensures
        r@ == wire::json_write(
            spec_register_json(username@, password@, email@, opt_str_view(referer)),
        ),
{
    let mut b = ObjectBuilder::new();
    b.put("username", wire::json_string(username));
    b.put("password", wire::json_string(password));
    b.put("email", wire::json_string(email));
    b.put("referer", opt_str_to_json(referer));
    let j = b.build();
    proof {
        assert(b@ =~= spec_register_json(username@, password@, email@, opt_str_view(referer))
            ->Object_0);
    }
    wire::json_to_string(&j)
}

/// How the body of a `login` or `subscribe_email` request is laid out.
pub open spec fn spec_login_json(
    user_email: Seq<char>,
    password: Seq<char>,
    remember_me: bool,
) -> JsonVal {
    JsonVal::Object(
        map![
            "user_email"@ => JsonVal::Str(user_email),
            "password"@ => JsonVal::Str(password),
            "remember_me"@ => JsonVal::Boolean(remember_me),
        ],
    )
}

/// Writes the body of a `login` request.
pub fn encode_login(user_email: &str, password: &str, remember_me: bool) -> (r: String)
    ensures
        r@ == wire::json_write(spec_login_json(user_email@, password@, remember_me)),
{
    let mut b = ObjectBuilder::new();
    b.put("user_email", wire::json_string(user_email));
    b.put("password", wire::json_string(password));
    b.put("remember_me", wire::json_bool(remember_me));
    let j = b.build();
    proof {
        assert(b@ =~= spec_login_json(user_email@, password@, remember_me)->Object_0);
    }
    wire::json_to_string(&j)
}

/// How the body of a `start_reset_password` request is laid out.
pub open spec fn spec_reset_password_json(email: Seq<char>) -> JsonVal {
    JsonVal::Object(map!["email"@ => JsonVal::Str(email)])
}

/// Writes the body of a `start_reset_password` request.
pub fn encode_reset_password(email: &str) -> (r: String)
    ensures
        r@ == wire::json_write(spec_reset_password_json(email@)),
{
    let mut b = ObjectBuilder::new();
    b.put("email", wire::json_string(email));
    let j = b.build();
    proof {
        assert(b@ =~= spec_reset_password_json(email@)->Object_0);
    }
    wire::json_to_string(&j)
}

/// How the body of a `reset_password` request is laid out.
pub open spec fn spec_new_password_json(new_password: Seq<char>) -> JsonVal {
    JsonVal::Object(map!["new_password"@ => JsonVal::Str(new_password)])
}

/// Writes the body of a `reset_password` request.
pub fn encode_new_password(new_password: &str) -> (r: String)
    ensures
        r@ == wire::json_write(spec_new_password_json(new_password@)),
{
    let mut b = ObjectBuilder::new();
    b.put("new_password", wire::json_string(new_password));
    let j = b.build();
    proof {
        assert(b@ =~= spec_new_password_json(new_password@)->Object_0);
    }
    wire::json_to_string(&j)
}

/// How the body of an authentication request is laid out: the 6-digit
/// authenticator code.
pub open spec fn spec_auth_code_json(code: u32) -> JsonVal {
    JsonVal::Object(map!["code"@ => JsonVal::U64(code as u64)])
}

/// Writes the body of an authentication request.
pub fn encode_auth_code(code: u32) -> (r: String)
    ensures
        r@ == wire::json_write(spec_auth_code_json(code)),
{
    let mut b = ObjectBuilder::new();
    b.put("code", wire::json_u64(code as u64));
    let j = b.build();
    proof {
        assert(b@ =~= spec_auth_code_json(code)->Object_0);
    }
    wire::json_to_string(&j)
}

/// How a relationship is laid out in JSON: its variant name as a string.
pub open spec fn spec_relationship_json(rel: Relationship) -> JsonVal {
    match rel {
        Relationship::Stranger => JsonVal::Str("Stranger"@),
        Relationship::Acquaintance => JsonVal::Str("Acquaintance"@),
        Relationship::CoWorker => JsonVal::Str("CoWorker"@),
        Relationship::Friend => JsonVal::Str("Friend"@),
        Relationship::Family => JsonVal::Str("Family"@),
    }
}

/// How the body of a `create_friend_request` request is laid out.
pub open spec fn spec_friend_request_json(
    origin_id: u64,
    destination_id: u64,
    message: Option<Seq<char>>,
    relationship: Relationship,
) -> JsonVal {
    JsonVal::Object(
        map![
            "origin_id"@ => JsonVal::U64(origin_id),
            "destination_id"@ => JsonVal::U64(destination_id),
            "message"@ => spec_opt_str_json(message),
            "relationship"@ => spec_relationship_json(relationship),
        ],
    )
}

/// Writes the body of a `create_friend_request` request.
pub fn encode_friend_request(
    origin_id: u64,
    destination_id: u64,
    message: Option<&str>,
    relationship: Relationship,
) -> (r: String)
    ensures
        r@ == wire::json_write(
            spec_friend_request_json(
                origin_id,
                destination_id,
                opt_str_view(message),
                relationship,
            ),
        ),
{
    let rel = match relationship {
        Relationship::Stranger => wire::json_string("Stranger"),
        Relationship::Acquaintance => wire::json_string("Acquaintance"),
        Relationship::CoWorker => wire::json_string("CoWorker"),
        Relationship::Friend => wire::json_string("Friend"),
        Relationship::Family => wire::json_string("Family"),
    };
    let mut b = ObjectBuilder::new();
    b.put("origin_id", wire::json_u64(origin_id));
    b.put("destination_id", wire::json_u64(destination_id));
    b.put("message", opt_str_to_json(message));
    b.put("relationship", rel);
    let j = b.build();
    proof {
        assert(b@ =~= spec_friend_request_json(
            origin_id,
            destination_id,
            opt_str_view(message),
            relationship,
        )->Object_0);
    }
    wire::json_to_string(&j)
}

/// How the body of a `confirm_friend_request` request is laid out.
pub open spec fn spec_confirm_friend_request_json(
    request_id: u64,
    origin: u64,
    destination: u64,
) -> JsonVal {
    JsonVal::Object(
        map![
            "request_id"@ => JsonVal::U64(request_id),
            "origin"@ => JsonVal::U64(origin),
            "destination"@ => JsonVal::U64(destination),
        ],
    )
}

/// Writes the body of a `confirm_friend_request` request.
pub fn encode_confirm_friend_request(request_id: u64, origin: u64, destination: u64) -> (r: String)
    ensures
        r@ == wire::json_write(spec_confirm_friend_request_json(request_id, origin, destination)),
{
    let mut b = ObjectBuilder::new();
    b.put("request_id", wire::json_u64(request_id));
    b.put("origin", wire::json_u64(origin));
    b.put("destination", wire::json_u64(destination));
    let j = b.build();
    proof {
        assert(b@ =~= spec_confirm_friend_request_json(request_id, origin, destination)
            ->Object_0);
    }
    wire::json_to_string(&j)
}

/// How the body of a `new_transaction` request is laid out: the amount as
/// its raw representation, the address as its textual form.
pub open spec fn spec_generate_transaction_json(
    origin_id: u64,
    destination_address: Seq<char>,
    destination_id: u64,
    amount: u64,
) -> JsonVal {
    JsonVal::Object(
        map![
            "origin_id"@ => JsonVal::U64(origin_id),
            "destination_address"@ => JsonVal::Str(destination_address),
            "destination_id"@ => JsonVal::U64(destination_id),
            "amount"@ => JsonVal::U64(amount),
        ],
    )
}

/// Writes the body of a `new_transaction` request.
pub fn encode_generate_transaction(
    origin_id: u64,
    destination_address: &WalletAddress,
    destination_id: u64,
    amount: Amount,
) -> (r: String)
    ensures
        r@ == wire::json_write(
            spec_generate_transaction_json(
                origin_id,
                destination_address.address@,
                destination_id,
                amount.repr,
            ),
        ),
{
    let mut b = ObjectBuilder::new();
    b.put("origin_id", wire::json_u64(origin_id));
    b.put("destination_address", wire::json_string(destination_address.as_str()));
    b.put("destination_id", wire::json_u64(destination_id));
    b.put("amount", wire::json_u64(amount.get_repr()));
    let j = b.build();
    proof {
        assert(b@ =~= spec_generate_transaction_json(
            origin_id,
            destination_address.address@,
            destination_id,
            amount.repr,
        )->Object_0);
    }
    wire::json_to_string(&j)
}

/// How a postal address is laid out in JSON.
pub open spec fn spec_address_json(a: Address) -> JsonVal {
    JsonVal::Object(
        map![
            "address1"@ => JsonVal::Str(a.address1@),
            "address2"@ => spec_opt_str_json(a.address2.deep_view()),
            "city"@ => JsonVal::Str(a.city@),
            "state"@ => JsonVal::Str(a.state@),
            "zip"@ => JsonVal::Str(a.zip@),
            "country"@ => JsonVal::Str(a.country@),
        ],
    )
}

/// Writes a postal address as a parsed JSON value.
fn address_to_json(a: &Address) -> (r: Json)
    ensures
        wire::json_view(r) == spec_address_json(*a),
        !wire::has_float(wire::json_view(r)),
{
    let address2 = match a.address2.as_ref() {
        Some(s) => wire::json_string(s.as_str()),
        None => wire::json_null(),
    };
    let mut b = ObjectBuilder::new();
    b.put("address1", wire::json_string(a.address1.as_str()));
    b.put("address2", address2);
    b.put("city", wire::json_string(a.city.as_str()));
    b.put("state", wire::json_string(a.state.as_str()));
    b.put("zip", wire::json_string(a.zip.as_str()));
    b.put("country", wire::json_string(a.country.as_str()));
    let j = b.build();
    proof {
        assert(b@ =~= spec_address_json(*a)->Object_0);
    }
    j
}

/// The text a calendar date is written as: `YYYY-MM-DD`, each part
/// zero-padded.
pub open spec fn spec_date_text(d: Date) -> Seq<char> {
    spec_padded_decimal(d.year as nat, 4) + "-"@ + spec_padded_decimal(d.month as nat, 2) + "-"@
        + spec_padded_decimal(d.day as nat, 2)
}

/// Writes a calendar date as its `YYYY-MM-DD` text.
pub fn date_text(d: &Date) -> (r: String)
    ensures
        r@ == spec_date_text(*d),
{
    padded_u64(d.year as u64, 4).concat("-").concat(padded_u64(d.month as u64, 2).as_str()).concat(
        "-",
    ).concat(padded_u64(d.day as u64, 2).as_str())
}

/// How an optional calendar date is laid out in JSON: its text, or `null`.
pub open spec fn spec_opt_date_json(o: Option<Date>) -> JsonVal {
    match o {
        Some(d) => JsonVal::Str(spec_date_text(d)),
        None => JsonVal::Null,
    }
}

/// How the body of an `update_user` request is laid out: every field that is
/// not being changed is `null`.
pub open spec fn spec_update_user_json(
    new_username: Option<Seq<char>>,
    old_password: Option<Seq<char>>,
    new_password: Option<Seq<char>>,
    new_first: Option<Seq<char>>,
    new_last: Option<Seq<char>>,
    new_address: Option<Address>,
    new_birthday: Option<Date>,
    new_phone: Option<Seq<char>>,
    new_email: Option<Seq<char>>,
    new_image: Option<Seq<char>>,
) -> JsonVal {
    JsonVal::Object(
        map![
            "new_username"@ => spec_opt_str_json(new_username),
            "old_password"@ => spec_opt_str_json(old_password),
            "new_password"@ => spec_opt_str_json(new_password),
            "new_first"@ => spec_opt_str_json(new_first),
            "new_last"@ => spec_opt_str_json(new_last),
            "new_address"@ => match new_address {
                Some(a) => spec_address_json(a),
                None => JsonVal::Null,
            },
            "new_birthday"@ => spec_opt_date_json(new_birthday),
            "new_phone"@ => spec_opt_str_json(new_phone),
            "new_email"@ => spec_opt_str_json(new_email),
            "new_image"@ => spec_opt_str_json(new_image),
        ],
    )
}

/// Writes the body of an `update_user` request.
pub fn encode_update_user(
    new_username: Option<&str>,
    old_password: Option<&str>,
    new_password: Option<&str>,
    new_first: Option<&str>,
    new_last: Option<&str>,
    new_address: Option<&Address>,
    new_birthday: Option<&Date>,
    new_phone: Option<&str>,
    new_email: Option<&str>,
    new_image: Option<&str>,
) -> (r: String)
    ensures
        r@ == wire::json_write(
            spec_update_user_json(
                opt_str_view(new_username),
                opt_str_view(old_password),
                opt_str_view(new_password),
                opt_str_view(new_first),
                opt_str_view(new_last),
                (match new_address {
                    Some(a) => Some(*a),
                    None => None,
                }),
                (match new_birthday {
                    Some(d) => Some(*d),
                    None => None,
                }),
                opt_str_view(new_phone),
                opt_str_view(new_email),
                opt_str_view(new_image),
            ),
        ),
{
    let address_json = match new_address {
        Some(a) => address_to_json(a),
        None => wire::json_null(),
    };
    let birthday_json = match new_birthday {
        Some(d) => wire::json_string(date_text(d).as_str()),
        None => wire::json_null(),
    };
    let mut b = ObjectBuilder::new();
    b.put("new_username", opt_str_to_json(new_username));
    b.put("old_password", opt_str_to_json(old_password));
    b.put("new_password", opt_str_to_json(new_password));
    b.put("new_first", opt_str_to_json(new_first));
    b.put("new_last", opt_str_to_json(new_last));
    b.put("new_address", address_json);
    b.put("new_birthday", birthday_json);
    b.put("new_phone", opt_str_to_json(new_phone));
    b.put("new_email", opt_str_to_json(new_email));
    b.put("new_image", opt_str_to_json(new_image));
    let j = b.build();
    proof {
        assert(b@ =~= spec_update_user_json(
            opt_str_view(new_username),
            opt_str_view(old_password),
            opt_str_view(new_password),
            opt_str_view(new_first),
            opt_str_view(new_last),
            (match new_address {
                Some(a) => Some(*a),
                None => None,
            }),
            (match new_birthday {
                Some(d) => Some(*d),
                None => None,
            }),
            opt_str_view(new_phone),
            opt_str_view(new_email),
            opt_str_view(new_image),
        )->Object_0);
    }
    wire::json_to_string(&j)
}

/// How the body of a `search_user` request is laid out: a random search for
/// the given text, every targeted criterion `null`.
pub open spec fn spec_search_user_json(
    random: Seq<char>,
    include_me: bool,
    include_friends: bool,
) -> JsonVal {
    JsonVal::Object(
        map![
            "random"@ => JsonVal::Str(random),
            "username"@ => JsonVal::Null,
            "email"@ => JsonVal::Null,
            "first_name"@ => JsonVal::Null,
            "last_name"@ => JsonVal::Null,
            "age"@ => JsonVal::Null,
            "country"@ => JsonVal::Null,
            "state"@ => JsonVal::Null,
            "city"@ => JsonVal::Null,
            "phone"@ => JsonVal::Null,
            "all"@ => JsonVal::Boolean(false),
            "include_me"@ => JsonVal::Boolean(include_me),
            "include_friends"@ => JsonVal::Boolean(include_friends),
        ],
    )
}

/// Writes the body of a `search_user` request.
pub fn encode_search_user(random: &str, include_me: bool, include_friends: bool) -> (r: String)
    ensures
        r@ == wire::json_write(spec_search_user_json(random@, include_me, include_friends)),
{
    let mut b = ObjectBuilder::new();
    b.put("random", wire::json_string(random));
    b.put("username", wire::json_null());
    b.put("email", wire::json_null());
    b.put("first_name", wire::json_null());
    b.put("last_name", wire::json_null());
    b.put("age", wire::json_null());
    b.put("country", wire::json_null());
    b.put("state", wire::json_null());
    b.put("city", wire::json_null());
    b.put("phone", wire::json_null());
    b.put("all", wire::json_bool(false));
    b.put("include_me", wire::json_bool(include_me));
    b.put("include_friends", wire::json_bool(include_friends));
    let j = b.build();
    proof {
        assert(b@ =~= spec_search_user_json(random@, include_me, include_friends)->Object_0);
    }
    wire::json_to_string(&j)
}

/// Response data transfer object: the `{"message": ...}` envelope.
#[derive(Clone, Debug, PartialEq)]
pub struct ResponseDTO {
    /// The message.
    pub message: String,
}

impl ResponseDTO {
    /// Creates a new response DTO.
    pub fn new(message: &str) -> (r: ResponseDTO)
        ensures
            r.message@ == message@,
    {
        ResponseDTO { message: message.to_owned() }
    }

    /// Sets the message of the response.
    pub fn set_message(&mut self, message: &str)
        ensures
            final(self).message@ == message@,
    {
        self.message = message.to_owned();
    }
}

} // verus!
