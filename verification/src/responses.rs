//! What the `200` bodies of the API's endpoints decode into.
//!
//! Each function here takes the body that the request envelope handed back
//! for a successful exchange and turns it into the domain value the endpoint
//! promises, or into a decode error; nothing here touches the network.

use vstd::prelude::*;

use crate::digits::{parse_u64, spec_parse_u64};
use crate::dto::{
    bonds_correspond, decode_client_info, decode_pending_requests, decode_profiles,
    decode_transaction, decode_transaction_code, decode_transactions, decode_user, decode_users,
    spec_client_info_of_text, spec_pending_requests_of_text, spec_profiles_of_text,
    spec_transaction_code_of_text, spec_transaction_of_text, spec_transactions_of_text,
    spec_user_of_text, spec_users_of_text, ClientInfoWire, PendingRequestWire, ProfileWire,
    ResponseDTO, TransactionWire, UserWire,
};
use crate::envelope::{decode_message, spec_body_message};
use crate::error::Error;
use crate::types::{
    spec_pending_request_of_dto, spec_profile_of_dto, spec_transaction_of_dto, spec_user_of_dto,
    users_from_dtos, ClientInfo, PendingFriendRequest, Profile, Transaction, User, WalletAddress,
};
use crate::wire;
use crate::wire::JsonVal;

verus! {

/// Whether the domain profile `p` carries exactly the wire value `w`.
pub open spec fn profile_matches_wire(p: Profile, w: ProfileWire) -> bool {
    &&& p.user_id == w.user_id
    &&& p.display_name@ == w.display_name
    &&& p.first_name.deep_view() == w.first_name
    &&& p.last_name.deep_view() == w.last_name
    &&& p.image.deep_view() == w.image_url
    &&& p.age == w.age
    &&& p.address.deep_view() == w.address
    &&& p.trust_score == w.trust_score
}

/// Whether the domain transaction `t` carries exactly the wire value `w`.
pub open spec fn transaction_matches_wire(t: Transaction, w: TransactionWire) -> bool {
    &&& t.id == w.transaction_id
    &&& t.origin_user == w.origin_user
    &&& t.destination_user == w.destination_user
    &&& t.destination_address.address@ == w.destination_address
    &&& t.amount.repr == w.amount
    &&& t.timestamp@ == w.timestamp
}

/// Whether the pending friend request `p` carries exactly the wire value
/// `w`, whose destination profile the domain type does not keep.
pub open spec fn pending_request_matches_wire(p: PendingFriendRequest, w: PendingRequestWire) -> bool {
    &&& p.connection_id == w.connection_id
    &&& profile_matches_wire(p.origin_user, w.origin_user)
    &&& p.message.deep_view() == w.message
}

/// Whether the client information `c` carries exactly the wire value `w`,
/// whose client name the domain type does not keep.
pub open spec fn client_info_matches_wire(c: ClientInfo, w: ClientInfoWire) -> bool {
    &&& c.id@ == w.id
    &&& c.secret@ == w.secret
    &&& c.scopes@ == w.scopes
    &&& c.request_limit == w.request_limit
}

/// Whether the domain user `u` carries exactly the wire value `w`, each
/// confirmable attribute paired with its flag; the bonds list is related
/// separately, since the wire does not pin its order.
pub open spec fn user_matches_wire(u: User, w: UserWire) -> bool {
    &&& u.id == w.user_id
    &&& u.username@ == w.username
    &&& u.displayname@ == w.display_name
    &&& u.email.0@ == w.email
    &&& u.email.1 == w.email_confirmed
    &&& (u.first is Some <==> w.first_name is Some)
    &&& (u.first matches Some(f) ==> (w.first_name matches Some(n) && f.0@ == n && f.1
        == w.first_name_confirmed))
    &&& (u.last is Some <==> w.last_name is Some)
    &&& (u.last matches Some(l) ==> (w.last_name matches Some(n) && l.0@ == n && l.1
        == w.last_name_confirmed))
    &&& u.device_count == w.device_count
    &&& u.wallet_addresses@.map_values(|wa: WalletAddress| wa.address@) == w.wallet_addresses
    &&& u.pending_balance.repr == w.pending_balance
    &&& u.checking_balance.repr == w.checking_balance
    &&& u.cold_balance.repr == w.cold_balance
    &&& (u.birthday is Some <==> w.birthday is Some)
    &&& (u.birthday matches Some(b) ==> (w.birthday == Some(b.0) && b.1 == w.birthday_confirmed))
    &&& (u.phone is Some <==> w.phone is Some)
    &&& (u.phone matches Some(p) ==> (w.phone matches Some(n) && p.0@ == n && p.1
        == w.phone_confirmed))
    &&& u.image.deep_view() == w.image_url
    &&& (u.address is Some <==> w.address is Some)
    &&& (u.address matches Some(a) ==> (w.address matches Some(aw) && a.0.wire() == aw && a.1
        == w.address_confirmed))
    &&& u.sybil_score == w.sybil_score
    &&& u.trust_score == w.trust_score
    &&& u.enabled == w.enabled
    &&& u.registered == w.registration_time
    &&& u.last_activity == w.last_activity
    &&& u.banned == w.banned
}

/// Reads a user out of a `200` body.
pub fn user_from_body(body: &str) -> (r: Result<User, Error>)
    ensures
        (r is Ok <==> spec_user_of_text(body@) is Some),
        r matches Err(e) ==> e is JSONDecode,
        r matches Ok(u) ==> ({
            &&& spec_user_of_text(body@) matches Some(w) && user_matches_wire(u, w)
            &&& (match wire::json_parse(body@) {
                Some(v) => bonds_correspond(v, "bonds"@, u.bonds@),
                None => false,
            })
        }),
{
    let dto = match decode_user(body) {
        Some(d) => d,
        None => {
            return Err(Error::JSONDecode("the response body is not a user".to_owned()));
        },
    };
    match User::from_dto(dto) {
        Ok(u) => Ok(u),
        Err(e) => Err(Error::FromDTO(e)),
    }
}

/// Reads a user list out of a `200` body; every decoded wire value yields
/// its user, in order.
pub fn users_from_body(body: &str) -> (r: Result<Vec<User>, Error>)
    ensures
        (r is Ok <==> spec_users_of_text(body@) is Some),
        r matches Err(e) ==> e is JSONDecode,
        r matches Ok(v) ==> ({
            &&& spec_users_of_text(body@) matches Some(ws) && v@.len() == ws.len() && (forall|
                i: int,
            |
                0 <= i < ws.len() ==> user_matches_wire(#[trigger] v@[i], ws[i]))
            &&& (match wire::json_parse(body@) {
                Some(p) => p matches JsonVal::Array(a) && a.len() == v@.len() && (forall|i: int|
                    0 <= i < a.len() ==> bonds_correspond(#[trigger] a[i], "bonds"@, v@[i].bonds@)),
                None => false,
            })
        }),
{
    let dtos = match decode_users(body) {
        Some(d) => d,
        None => {
            return Err(Error::JSONDecode("the response body is not a user list".to_owned()));
        },
    };
    let ghost all = dtos@;
    let ghost ws = spec_users_of_text(body@).unwrap();
    let out = users_from_dtos(dtos);
    proof {
        assert forall|i: int| 0 <= i < ws.len() implies user_matches_wire(
            #[trigger] out@[i],
            ws[i],
        ) by {
            assert(out@[i] == spec_user_of_dto(all[i]));
            assert(ws[i] == all[i].wire());
        }
        let p = wire::json_parse(body@).unwrap();
        let a = p->Array_0;
        assert forall|i: int| 0 <= i < a.len() implies bonds_correspond(
            #[trigger] a[i],
            "bonds"@,
            out@[i].bonds@,
        ) by {
            assert(out@[i] == spec_user_of_dto(all[i]));
            assert(bonds_correspond(a[i], "bonds"@, all[i].bonds@));
        }
    }
    Ok(out)
}

/// Reads the `{"message": ...}` envelope that unit-returning operations
/// answer with.
pub fn response_from_body(body: &str) -> (r: Result<ResponseDTO, Error>)
    ensures
        (r is Ok <==> spec_body_message(body@) is Some),
        r matches Ok(d) ==> spec_body_message(body@) == Some(d.message@),
        r matches Err(e) ==> e is JSONDecode,
{
    match decode_message(body) {
        Some(m) => Ok(ResponseDTO { message: m }),
        None => Err(Error::JSONDecode("the response body did not carry a message".to_owned())),
    }
}

/// Reads the bare message text out of a `{"message": ...}` response.
pub fn message_from_body(body: &str) -> (r: Result<String, Error>)
    ensures
        (r is Ok <==> spec_body_message(body@) is Some),
        r matches Ok(m) ==> spec_body_message(body@) == Some(m@),
        r matches Err(e) ==> e is JSONDecode,
{
    match decode_message(body) {
        Some(m) => Ok(m),
        None => Err(Error::JSONDecode("the response body did not carry a message".to_owned())),
    }
}

/// Reads a profile list out of a `200` body; every decoded wire value
/// yields its profile, in order.
pub fn profiles_from_body(body: &str) -> (r: Result<Vec<Profile>, Error>)
    ensures
        (r is Ok <==> spec_profiles_of_text(body@) is Some),
        r matches Err(e) ==> e is JSONDecode,
        r matches Ok(v) ==> (spec_profiles_of_text(body@) matches Some(ws) && v@.len()
            == ws.len() && (forall|i: int|
            0 <= i < ws.len() ==> profile_matches_wire(#[trigger] v@[i], ws[i]))),
{
    let dtos = match decode_profiles(body) {
        Some(d) => d,
        None => {
            return Err(Error::JSONDecode("the response body is not a profile list".to_owned()));
        },
    };
    let ghost ws = spec_profiles_of_text(body@).unwrap();
    let ghost all = dtos@;
    let mut out: Vec<Profile> = Vec::new();
    let mut rest = dtos;
    proof {
        assert(rest@ =~= all.skip(0));
    }
    while rest.len() > 0
        invariant
            out@.len() + rest@.len() == all.len(),
            rest@ == all.skip(out@.len() as int),
            ws == all.map_values(|d: crate::types::ProfileDTO| d.wire()),
            forall|k: int|
                0 <= k < out@.len() ==> #[trigger] out@[k] == spec_profile_of_dto(all[k]),
        decreases rest@.len(),
    {
        let ghost n = out@.len() as int;
        let dto = rest.remove(0);
        proof {
            assert(all.skip(n)[0] == all[n]);
            assert(rest@ =~= all.skip(n + 1));
        }
        match Profile::from_dto(dto) {
            Ok(p) => {
                out.push(p);
            },
            Err(_) => {},
        }
    }
    proof {
        assert forall|i: int| 0 <= i < ws.len() implies profile_matches_wire(
            #[trigger] out@[i],
            ws[i],
        ) by {
            assert(out@[i] == spec_profile_of_dto(all[i]));
            assert(ws[i] == all[i].wire());
        }
    }
    Ok(out)
}

/// Reads a transaction out of a `200` body.
pub fn transaction_from_body(body: &str) -> (r: Result<Transaction, Error>)
    ensures
        (r is Ok <==> spec_transaction_of_text(body@) is Some),
        r matches Err(e) ==> e is JSONDecode,
        r matches Ok(t) ==> (spec_transaction_of_text(body@) matches Some(w)
            && transaction_matches_wire(t, w)),
{
    let dto = match decode_transaction(body) {
        Some(d) => d,
        None => {
            return Err(Error::JSONDecode("the response body is not a transaction".to_owned()));
        },
    };
    match Transaction::from_dto(dto) {
        Ok(t) => Ok(t),
        Err(e) => Err(Error::FromDTO(e)),
    }
}

/// Reads a transaction list out of a `200` body; every decoded wire value
/// yields its transaction, in order.
pub fn transactions_from_body(body: &str) -> (r: Result<Vec<Transaction>, Error>)
    ensures
        (r is Ok <==> spec_transactions_of_text(body@) is Some),
        r matches Err(e) ==> e is JSONDecode,
        r matches Ok(v) ==> (spec_transactions_of_text(body@) matches Some(ws) && v@.len()
            == ws.len() && (forall|i: int|
            0 <= i < ws.len() ==> transaction_matches_wire(#[trigger] v@[i], ws[i]))),
{
    let dtos = match decode_transactions(body) {
        Some(d) => d,
        None => {
            return Err(
                Error::JSONDecode("the response body is not a transaction list".to_owned()),
            );
        },
    };
    let ghost ws = spec_transactions_of_text(body@).unwrap();
    let ghost all = dtos@;
    let mut out: Vec<Transaction> = Vec::new();
    let mut rest = dtos;
    proof {
        assert(rest@ =~= all.skip(0));
    }
    while rest.len() > 0
        invariant
            out@.len() + rest@.len() == all.len(),
            rest@ == all.skip(out@.len() as int),
            ws == all.map_values(|d: crate::types::TransactionDTO| d.wire()),
            forall|k: int|
                0 <= k < out@.len() ==> #[trigger] out@[k] == spec_transaction_of_dto(all[k]),
        decreases rest@.len(),
    {
        let ghost n = out@.len() as int;
        let dto = rest.remove(0);
        proof {
            assert(all.skip(n)[0] == all[n]);
            assert(rest@ =~= all.skip(n + 1));
        }
        match Transaction::from_dto(dto) {
            Ok(t) => {
                out.push(t);
            },
            Err(_) => {},
        }
    }
    proof {
        assert forall|i: int| 0 <= i < ws.len() implies transaction_matches_wire(
            #[trigger] out@[i],
            ws[i],
        ) by {
            assert(out@[i] == spec_transaction_of_dto(all[i]));
            assert(ws[i] == all[i].wire());
        }
    }
    Ok(out)
}

/// Reads a pending friend request list out of a `200` body; every decoded
/// wire value yields its request, in order.
pub fn pending_requests_from_body(body: &str) -> (r: Result<Vec<PendingFriendRequest>, Error>)
    ensures
        (r is Ok <==> spec_pending_requests_of_text(body@) is Some),
        r matches Err(e) ==> e is JSONDecode,
        r matches Ok(v) ==> (spec_pending_requests_of_text(body@) matches Some(ws) && v@.len()
            == ws.len() && (forall|i: int|
            0 <= i < ws.len() ==> pending_request_matches_wire(#[trigger] v@[i], ws[i]))),
{
    let dtos = match decode_pending_requests(body) {
        Some(d) => d,
        None => {
            return Err(
                Error::JSONDecode("the response body is not a friend request list".to_owned()),
            );
        },
    };
    let ghost ws = spec_pending_requests_of_text(body@).unwrap();
    let ghost all = dtos@;
    let mut out: Vec<PendingFriendRequest> = Vec::new();
    let mut rest = dtos;
    proof {
        assert(rest@ =~= all.skip(0));
    }
    while rest.len() > 0
        invariant
            out@.len() + rest@.len() == all.len(),
            rest@ == all.skip(out@.len() as int),
            ws == all.map_values(|d: crate::types::PendingFriendRequestDTO| d.wire()),
            forall|k: int|
                0 <= k < out@.len() ==> #[trigger] out@[k] == spec_pending_request_of_dto(all[k]),
        decreases rest@.len(),
    {
        let ghost n = out@.len() as int;
        let dto = rest.remove(0);
        proof {
            assert(all.skip(n)[0] == all[n]);
            assert(rest@ =~= all.skip(n + 1));
        }
        match PendingFriendRequest::from_dto(dto) {
            Ok(p) => {
                out.push(p);
            },
            Err(_) => {},
        }
    }
    proof {
        assert forall|i: int| 0 <= i < ws.len() implies pending_request_matches_wire(
            #[trigger] out@[i],
            ws[i],
        ) by {
            assert(out@[i] == spec_pending_request_of_dto(all[i]));
            assert(ws[i] == all[i].wire());
        }
    }
    Ok(out)
}

/// Reads the client information out of a `200` body.
pub fn client_info_from_body(body: &str) -> (r: Result<ClientInfo, Error>)
    ensures
        (r is Ok <==> spec_client_info_of_text(body@) is Some),
        r matches Err(e) ==> e is JSONDecode,
        r matches Ok(c) ==> (spec_client_info_of_text(body@) matches Some(w)
            && client_info_matches_wire(c, w)),
{
    let dto = match decode_client_info(body) {
        Some(d) => d,
        None => {
            return Err(
                Error::JSONDecode("the response body is not a client description".to_owned()),
            );
        },
    };
    match ClientInfo::from_dto(dto) {
        Ok(c) => Ok(c),
        Err(e) => Err(Error::FromDTO(e)),
    }
}

/// Reads the code of a freshly generated transaction out of a `200` body.
pub fn transaction_code_from_body(body: &str) -> (r: Result<String, Error>)
    ensures
        (r is Ok <==> spec_transaction_code_of_text(body@) is Some),
        r matches Ok(c) ==> spec_transaction_code_of_text(body@) == Some(c@),
        r matches Err(e) ==> e is JSONDecode,
{
    match decode_transaction_code(body) {
        Some(c) => Ok(c),
        None => Err(
            Error::JSONDecode("the response body is not a pending transaction".to_owned()),
        ),
    }
}

/// Reads the user ID that a wallet-address check answers with: the message
/// text of the response, read as a decimal number.
pub fn user_id_from_body(body: &str) -> (r: Result<u64, Error>)
    ensures
        spec_body_message(body@) is None ==> (r matches Err(e) && e is JSONDecode),
        (match spec_body_message(body@) {
            Some(m) => {
                &&& (r is Ok <==> spec_parse_u64(m) is Some)
                &&& (r matches Ok(id) ==> spec_parse_u64(m) == Some(id))
                &&& (r matches Err(e) ==> e matches Error::BadRequest(t) && t@
                    == "could not parse result to correct type"@)
            },
            None => true,
        }),
{
    match decode_message(body) {
        Some(m) => match parse_u64(m.as_str()) {
            Some(id) => Ok(id),
            None => Err(Error::BadRequest("could not parse result to correct type".to_owned())),
        },
        None => Err(Error::JSONDecode("the response body did not carry a message".to_owned())),
    }
}

} // verus!
