//! Types returned by the API.
//!
//! This module contains the domain types the API hands back, the wire values
//! they are decoded from, and the value models for the currency amount, the
//! wallet address, the postal address and the calendar date that run through
//! them.

use vstd::prelude::*;

use crate::error::FromDTOError;
use crate::scope::Scope;

verus! {

/// A Fractal Global Credits amount: a fixed-point number of factor 1/1000,
/// held as its raw 64-bit representation, which is also how it is sent in
/// JSON.
#[derive(Clone, Copy, Debug, PartialEq, Eq, Structural)]
pub struct Amount {
    /// The raw representation: thousandths of a credit.
    pub repr: u64,
}

impl Amount {
    /// Creates a new amount from its internal representation.
    pub fn from_repr(value: u64) -> (r: Amount)
        ensures
            r.repr == value,
    {
        Amount { repr: value }
    }

    /// Gets the internal representation of the amount.
    pub fn get_repr(&self) -> (r: u64)
        ensures
            r == self.repr,
    {
        self.repr
    }
}

/// A wallet address, held in its textual form (`fr` followed by the base-58
/// writing of the address bytes), which is also how it is sent in JSON.
#[derive(Clone, Debug, PartialEq, Eq)]
pub struct WalletAddress {
    /// The textual form of the address.
    pub address: String,
}

impl WalletAddress {
    /// Creates a wallet address from its textual form.
    pub fn new(address: String) -> (r: WalletAddress)
        ensures
            r.address@ == address@,
    {
        WalletAddress { address }
    }

    /// Gets the textual form of the address.
    pub fn as_str(&self) -> (r: &str)
        ensures
            r@ == self.address@,
    {
        self.address.as_str()
    }
}

/// The particulars of the place where an organization or person resides.
#[derive(Clone, Debug, PartialEq)]
pub struct Address {
    /// First address line.
    pub address1: String,
    /// Second address line.
    pub address2: Option<String>,
    /// The city.
    pub city: String,
    /// The state.
    pub state: String,
    /// The zip code.
    pub zip: String,
    /// The country.
    pub country: String,
}

impl Address {
    /// Creates a new address.
    pub fn new(
        address1: String,
        address2: Option<String>,
        city: String,
        state: String,
        zip: String,
        country: String,
    ) -> (r: Address)
        ensures
            r == (Address { address1, address2, city, state, zip, country }),
    {
        Address { address1, address2, city, state, zip, country }
    }

    /// Returns address line 1.
    pub fn get_address1(&self) -> (r: &str)
        ensures
            r@ == self.address1@,
    {
        self.address1.as_str()
    }

    /// Returns address line 2.
    pub fn get_address2(&self) -> (r: Option<&str>)
        ensures
            (r is Some <==> self.address2 is Some),
            r matches Some(s) ==> (self.address2 matches Some(a) && s@ == a@),
    {
        match self.address2.as_ref() {
            Some(a) => Some(a.as_str()),
            None => None,
        }
    }

    /// Returns the city.
    pub fn get_city(&self) -> (r: &str)
        ensures
            r@ == self.city@,
    {
        self.city.as_str()
    }

    /// Returns the state.
    pub fn get_state(&self) -> (r: &str)
        ensures
            r@ == self.state@,
    {
        self.state.as_str()
    }

    /// Returns the zip code.
    pub fn get_zip(&self) -> (r: &str)
        ensures
            r@ == self.zip@,
    {
        self.zip.as_str()
    }

    /// Returns the country.
    pub fn get_country(&self) -> (r: &str)
        ensures
            r@ == self.country@,
    {
        self.country.as_str()
    }
}

/// A calendar date, held as year, month and day; sent in JSON as the string
/// `YYYY-MM-DD`.
#[derive(Clone, Copy, Debug, PartialEq, Eq, Structural)]
pub struct Date {
    /// The year, up to 9999.
    pub year: u32,
    /// The month, 1 to 12.
    pub month: u32,
    /// The day of the month, 1 to 31.
    pub day: u32,
}

impl Date {
    /// A date that fits the wire format: a four-digit year and a plausible
    /// month and day.
    pub open spec fn wf(self) -> bool {
        self.year <= 9999 && 1 <= self.month <= 12 && 1 <= self.day <= 31
    }

    /// Creates the date `year`-`month`-`day`, where the year has at most
    /// four digits and month and day are plausible.
    pub fn new(year: u32, month: u32, day: u32) -> (r: Option<Date>)
        ensures
            (r is Some <==> (year <= 9999 && 1 <= month <= 12 && 1 <= day <= 31)),
            r matches Some(d) ==> d == (Date { year, month, day }) && d.wf(),
    {
        if year <= 9999 && 1 <= month && month <= 12 && 1 <= day && day <= 31 {
            Some(Date { year, month, day })
        } else {
            None
        }
    }
}

/// The relationship between two connected users, named in a friend request.
#[derive(Clone, Copy, Debug, PartialEq, Eq, Structural)]
pub enum Relationship {
    /// A stranger to the user.
    Stranger,
    /// An acquaintance to the user.
    Acquaintance,
    /// A co-worker to the user.
    CoWorker,
    /// A friend to the user.
    Friend,
    /// A family member to the user.
    Family,
}

/// Information about the API client.
#[derive(Clone, Debug, PartialEq)]
pub struct ClientInfo {
    /// The client ID.
    pub id: String,
    /// The client secret.
    pub secret: String,
    /// The scopes valid for the client.
    pub scopes: Vec<Scope>,
    /// The request limit for the client, where one is set.
    pub request_limit: Option<usize>,
}

/// The wire value a client is described with.
#[derive(Clone, Debug, PartialEq)]
pub struct ClientInfoDTO {
    /// The ID of the client.
    pub id: String,
    /// The name of the client.
    pub name: String,
    /// The secret of the client.
    pub secret: String,
    /// The scopes of the client.
    pub scopes: Vec<Scope>,
    /// The request limit of the client.
    pub request_limit: Option<usize>,
}

/// The client information its wire value carries.
pub open spec fn spec_client_info_of_dto(dto: ClientInfoDTO) -> ClientInfo {
    ClientInfo {
        id: dto.id,
        secret: dto.secret,
        scopes: dto.scopes,
        request_limit: dto.request_limit,
    }
}

impl ClientInfo {
    /// Reads the client information out of its wire value; every wire value
    /// yields one.
    pub fn from_dto(dto: ClientInfoDTO) -> (r: Result<ClientInfo, FromDTOError>)
        ensures
            r == Ok::<ClientInfo, FromDTOError>(spec_client_info_of_dto(dto)),
    {
        Ok(
            ClientInfo {
                id: dto.id,
                secret: dto.secret,
                scopes: dto.scopes,
                request_limit: dto.request_limit,
            },
        )
    }

    /// Gets the client ID.
    pub fn get_id(&self) -> (r: &str)
        ensures
            r@ == self.id@,
    {
        self.id.as_str()
    }

    /// Gets the client secret.
    pub fn get_secret(&self) -> (r: &str)
        ensures
            r@ == self.secret@,
    {
        self.secret.as_str()
    }

    /// Gets the scopes valid for the client.
    pub fn scopes(&self) -> (r: &Vec<Scope>)
        ensures
            r@ == self.scopes@,
    {
        &self.scopes
    }

    /// Gets the request limit for the client.
    pub fn get_request_limit(&self) -> (r: Option<usize>)
        ensures
            r == self.request_limit,
    {
        self.request_limit
    }
}

/// Struct that holds all the profile information for the user.
#[derive(Clone, Debug, PartialEq)]
pub struct Profile {
    /// The user's ID.
    pub user_id: u64,
    /// The display name of the user.
    pub display_name: String,
    /// The first name of the user, where public.
    pub first_name: Option<String>,
    /// The last name of the user, where public.
    pub last_name: Option<String>,
    /// A link to the user's profile image, where one is set.
    pub image: Option<String>,
    /// The age of the user, where public.
    pub age: Option<u8>,
    /// The address of the user, where public.
    pub address: Option<String>,
    /// The trust score of the user.
    pub trust_score: i8,
}

/// The wire value a profile is described with.
#[derive(Clone, Debug, PartialEq)]
pub struct ProfileDTO {
    /// User's ID.
    pub user_id: u64,
    /// Display name of the user.
    pub display_name: String,
    /// First name of the user.
    pub first_name: Option<String>,
    /// Last name of the user.
    pub last_name: Option<String>,
    /// Link to the user's profile image.
    pub image_url: Option<String>,
    /// Age of the user.
    pub age: Option<u8>,
    /// Address of the user.
    pub address: Option<String>,
    /// Trust score of the user.
    pub trust_score: i8,
}

/// The profile its wire value carries.
pub open spec fn spec_profile_of_dto(dto: ProfileDTO) -> Profile {
    Profile {
        user_id: dto.user_id,
        display_name: dto.display_name,
        first_name: dto.first_name,
        last_name: dto.last_name,
        image: dto.image_url,
        age: dto.age,
        address: dto.address,
        trust_score: dto.trust_score,
    }
}

impl Profile {
    /// Reads a profile out of its wire value; every wire value yields one.
    pub fn from_dto(dto: ProfileDTO) -> (r: Result<Profile, FromDTOError>)
        ensures
            r == Ok::<Profile, FromDTOError>(spec_profile_of_dto(dto)),
    {
        Ok(
            Profile {
                user_id: dto.user_id,
                display_name: dto.display_name,
                first_name: dto.first_name,
                last_name: dto.last_name,
                image: dto.image_url,
                age: dto.age,
                address: dto.address,
                trust_score: dto.trust_score,
            },
        )
    }

    /// Gets the user's ID.
    pub fn get_user_id(&self) -> (r: u64)
        ensures
            r == self.user_id,
    {
        self.user_id
    }

    /// Gets the display name of the user.
    pub fn get_display_name(&self) -> (r: &str)
        ensures
            r@ == self.display_name@,
    {
        self.display_name.as_str()
    }

    /// Gets the first name of the user.
    pub fn get_first_name(&self) -> (r: Option<&str>)
        ensures
            (r is Some <==> self.first_name is Some),
            r matches Some(s) ==> (self.first_name matches Some(n) && s@ == n@),
    {
        match self.first_name.as_ref() {
            Some(n) => Some(n.as_str()),
            None => None,
        }
    }

    /// Gets the last name of the user.
    pub fn get_last_name(&self) -> (r: Option<&str>)
        ensures
            (r is Some <==> self.last_name is Some),
            r matches Some(s) ==> (self.last_name matches Some(n) && s@ == n@),
    {
        match self.last_name.as_ref() {
            Some(n) => Some(n.as_str()),
            None => None,
        }
    }

    /// Gets the image of the user.
    pub fn get_image(&self) -> (r: Option<&str>)
        ensures
            (r is Some <==> self.image is Some),
            r matches Some(s) ==> (self.image matches Some(n) && s@ == n@),
    {
        match self.image.as_ref() {
            Some(n) => Some(n.as_str()),
            None => None,
        }
    }

    /// Gets the age of the user.
    pub fn get_age(&self) -> (r: Option<u8>)
        ensures
            r == self.age,
    {
        self.age
    }

    /// Gets the address of the user.
    pub fn get_address(&self) -> (r: Option<&str>)
        ensures
            (r is Some <==> self.address is Some),
            r matches Some(s) ==> (self.address matches Some(n) && s@ == n@),
    {
        match self.address.as_ref() {
            Some(n) => Some(n.as_str()),
            None => None,
        }
    }

    /// Gets the trust score of the user.
    pub fn get_trust_score(&self) -> (r: i8)
        ensures
            r == self.trust_score,
    {
        self.trust_score
    }
}

/// Struct that holds all personal information for the user.
///
/// An attribute that requires verification is paired with the flag that says
/// whether it has been confirmed.  Every instant is held in seconds since the
/// epoch.
#[derive(Debug, PartialEq)]
pub struct User {
    /// The unique ID of the user.
    pub id: u64,
    /// The unique username of the user.
    pub username: String,
    /// Display name of the user.
    pub displayname: String,
    /// The user's email, with its confirmation flag.
    pub email: (String, bool),
    /// The user's first name, with its confirmation flag.
    pub first: Option<(String, bool)>,
    /// The user's last name, with its confirmation flag.
    pub last: Option<(String, bool)>,
    /// The amount of devices the user has.
    pub device_count: u8,
    /// The list of the user's wallet addresses.
    pub wallet_addresses: Vec<WalletAddress>,
    /// The user's pending balance.
    pub pending_balance: Amount,
    /// The checking wallet balance.
    pub checking_balance: Amount,
    /// The cold wallet balance.
    pub cold_balance: Amount,
    /// The user's bonds: each purchase instant beside the number of bonds
    /// bought then, in the order the wire value lists them.
    pub bonds: Vec<(i64, u64)>,
    /// The user's date of birth, with its confirmation flag.
    pub birthday: Option<(Date, bool)>,
    /// The user's phone number, with its confirmation flag.
    pub phone: Option<(String, bool)>,
    /// The user's profile image.
    pub image: Option<String>,
    /// The user's address, with its confirmation flag.
    pub address: Option<(Address, bool)>,
    /// The user's sybil score.
    pub sybil_score: i8,
    /// The user's trust score.
    pub trust_score: i8,
    /// Whether the user account is enabled.
    pub enabled: bool,
    /// The instant the user registered.
    pub registered: i64,
    /// The instant the user was last seen doing an activity.
    pub last_activity: i64,
    /// The instant a ban on the user runs out, where one was ever set.
    pub banned: Option<i64>,
}

/// The wire value a user is described with: each confirmable attribute comes
/// beside its confirmation flag.
#[derive(Clone, Debug, PartialEq)]
pub struct UserDTO {
    /// The unique ID of the user.
    pub user_id: u64,
    /// The unique username of the user.
    pub username: String,
    /// The display name of the user.
    pub display_name: String,
    /// The user's email.
    pub email: String,
    /// Whether the email has been confirmed.
    pub email_confirmed: bool,
    /// The user's first name.
    pub first_name: Option<String>,
    /// Whether the first name has been confirmed.
    pub first_name_confirmed: bool,
    /// The user's last name.
    pub last_name: Option<String>,
    /// Whether the last name has been confirmed.
    pub last_name_confirmed: bool,
    /// The amount of devices the user has.
    pub device_count: u8,
    /// The user's wallet addresses.
    pub wallet_addresses: Vec<WalletAddress>,
    /// The user's pending balance.
    pub pending_balance: Amount,
    /// The user's checking balance.
    pub checking_balance: Amount,
    /// The user's cold balance.
    pub cold_balance: Amount,
    /// The user's bonds: each purchase instant beside the number of bonds
    /// bought then.
    pub bonds: Vec<(i64, u64)>,
    /// The user's birthday.
    pub birthday: Option<Date>,
    /// Whether the birthday has been confirmed.
    pub birthday_confirmed: bool,
    /// The user's phone number.
    pub phone: Option<String>,
    /// Whether the phone number has been confirmed.
    pub phone_confirmed: bool,
    /// The user's profile picture.
    pub image_url: Option<String>,
    /// The user's address.
    pub address: Option<Address>,
    /// Whether the address has been confirmed.
    pub address_confirmed: bool,
    /// The user's sybil score.
    pub sybil_score: i8,
    /// The user's trust score.
    pub trust_score: i8,
    /// Whether the user's account is enabled.
    pub enabled: bool,
    /// The instant the user registered.
    pub registration_time: i64,
    /// The user's last activity instant.
    pub last_activity: i64,
    /// Whether the user is banned, and until when.
    pub banned: Option<i64>,
}

/// The user its wire value carries: each confirmable attribute paired with
/// its confirmation flag.
pub open spec fn spec_user_of_dto(dto: UserDTO) -> User {
    User {
        id: dto.user_id,
        username: dto.username,
        displayname: dto.display_name,
        email: (dto.email, dto.email_confirmed),
        first: match dto.first_name {
            Some(first) => Some((first, dto.first_name_confirmed)),
            None => None,
        },
        last: match dto.last_name {
            Some(last) => Some((last, dto.last_name_confirmed)),
            None => None,
        },
        device_count: dto.device_count,
        wallet_addresses: dto.wallet_addresses,
        pending_balance: dto.pending_balance,
        checking_balance: dto.checking_balance,
        cold_balance: dto.cold_balance,
        bonds: dto.bonds,
        birthday: match dto.birthday {
            Some(birthday) => Some((birthday, dto.birthday_confirmed)),
            None => None,
        },
        phone: match dto.phone {
            Some(phone) => Some((phone, dto.phone_confirmed)),
            None => None,
        },
        image: dto.image_url,
        address: match dto.address {
            Some(address) => Some((address, dto.address_confirmed)),
            None => None,
        },
        sybil_score: dto.sybil_score,
        trust_score: dto.trust_score,
        enabled: dto.enabled,
        registered: dto.registration_time,
        last_activity: dto.last_activity,
        banned: dto.banned,
    }
}

impl Clone for User {
    fn clone(&self) -> User {
        User {
            id: self.id,
            username: self.username.clone(),
            displayname: self.displayname.clone(),
            email: (self.email.0.clone(), self.email.1),
            first: match self.first.as_ref() {
                Some(f) => Some((f.0.clone(), f.1)),
                None => None,
            },
            last: match self.last.as_ref() {
                Some(l) => Some((l.0.clone(), l.1)),
                None => None,
            },
            device_count: self.device_count,
            wallet_addresses: self.wallet_addresses.clone(),
            pending_balance: self.pending_balance,
            checking_balance: self.checking_balance,
            cold_balance: self.cold_balance,
            bonds: self.bonds.clone(),
            birthday: match self.birthday {
                Some(b) => Some(b),
                None => None,
            },
            phone: match self.phone.as_ref() {
                Some(p) => Some((p.0.clone(), p.1)),
                None => None,
            },
            image: self.image.clone(),
            address: match self.address.as_ref() {
                Some(a) => Some((a.0.clone(), a.1)),
                None => None,
            },
            sybil_score: self.sybil_score,
            trust_score: self.trust_score,
            enabled: self.enabled,
            registered: self.registered,
            last_activity: self.last_activity,
            banned: self.banned,
        }
    }
}

impl User {
    /// Reads a user out of its wire value, pairing each confirmable
    /// attribute with its confirmation flag; every wire value yields one.
    pub fn from_dto(dto: UserDTO) -> (r: Result<User, FromDTOError>)
        ensures
            r == Ok::<User, FromDTOError>(spec_user_of_dto(dto)),
    {
        let first_opt = match dto.first_name {
            Some(first) => Some((first, dto.first_name_confirmed)),
            None => None,
        };
        let last_opt = match dto.last_name {
            Some(last) => Some((last, dto.last_name_confirmed)),
            None => None,
        };
        let birthday_opt = match dto.birthday {
            Some(birthday) => Some((birthday, dto.birthday_confirmed)),
            None => None,
        };
        let phone_opt = match dto.phone {
            Some(phone) => Some((phone, dto.phone_confirmed)),
            None => None,
        };
        let address_opt = match dto.address {
            Some(address) => Some((address, dto.address_confirmed)),
            None => None,
        };
        Ok(
            User {
                id: dto.user_id,
                username: dto.username,
                displayname: dto.display_name,
                email: (dto.email, dto.email_confirmed),
                first: first_opt,
                last: last_opt,
                device_count: dto.device_count,
                wallet_addresses: dto.wallet_addresses,
                pending_balance: dto.pending_balance,
                checking_balance: dto.checking_balance,
                cold_balance: dto.cold_balance,
                bonds: dto.bonds,
                birthday: birthday_opt,
                phone: phone_opt,
                image: dto.image_url,
                address: address_opt,
                sybil_score: dto.sybil_score,
                trust_score: dto.trust_score,
                enabled: dto.enabled,
                registered: dto.registration_time,
                last_activity: dto.last_activity,
                banned: dto.banned,
            },
        )
    }

    /// Gets the ID of the user.
    pub fn get_id(&self) -> (r: u64)
        ensures
            r == self.id,
    {
        self.id
    }

    /// Gets the username of the user.
    pub fn get_username(&self) -> (r: &str)
        ensures
            r@ == self.username@,
    {
        self.username.as_str()
    }

    /// Gets the display name of the user.
    pub fn get_displayname(&self) -> (r: &str)
        ensures
            r@ == self.displayname@,
    {
        self.displayname.as_str()
    }

    /// Gets the email of the user.
    pub fn get_email(&self) -> (r: &str)
        ensures
            r@ == self.email.0@,
    {
        self.email.0.as_str()
    }

    /// Returns whether the email of the user has been confirmed.
    pub fn is_email_confirmed(&self) -> (r: bool)
        ensures
            r == self.email.1,
    {
        self.email.1
    }

    /// Gets the first name of the user, if it has been set.
    pub fn get_first_name(&self) -> (r: Option<&str>)
        ensures
            (r is Some <==> self.first is Some),
            r matches Some(s) ==> (self.first matches Some(f) && s@ == f.0@),
    {
        match self.first.as_ref() {
            Some(f) => Some(f.0.as_str()),
            None => None,
        }
    }

    /// Returns whether the first name of the user has been confirmed.
    pub fn is_first_name_confirmed(&self) -> (r: bool)
        ensures
            r == (match self.first {
                Some(f) => f.1,
                None => false,
            }),
    {
        match self.first.as_ref() {
            Some(f) => f.1,
            None => false,
        }
    }

    /// Gets the last name of the user, if it has been set.
    pub fn get_last_name(&self) -> (r: Option<&str>)
        ensures
            (r is Some <==> self.last is Some),
            r matches Some(s) ==> (self.last matches Some(l) && s@ == l.0@),
    {
        match self.last.as_ref() {
            Some(l) => Some(l.0.as_str()),
            None => None,
        }
    }

    /// Returns whether the last name of the user has been confirmed.
    pub fn is_last_name_confirmed(&self) -> (r: bool)
        ensures
            r == (match self.last {
                Some(l) => l.1,
                None => false,
            }),
    {
        match self.last.as_ref() {
            Some(l) => l.1,
            None => false,
        }
    }

    /// Gets the device count of the user.
    pub fn get_device_count(&self) -> (r: u8)
        ensures
            r == self.device_count,
    {
        self.device_count
    }

    /// Gets the wallet addresses of the user.
    pub fn wallet_addresses(&self) -> (r: &Vec<WalletAddress>)
        ensures
            r@ == self.wallet_addresses@,
    {
        &self.wallet_addresses
    }

    /// Gets the pending balance of the user.
    pub fn get_pending_balance(&self) -> (r: Amount)
        ensures
            r == self.pending_balance,
    {
        self.pending_balance
    }

    /// Gets the checking balance of the user.
    pub fn get_checking_balance(&self) -> (r: Amount)
        ensures
            r == self.checking_balance,
    {
        self.checking_balance
    }

    /// Gets the cold balance of the user.
    pub fn get_cold_balance(&self) -> (r: Amount)
        ensures
            r == self.cold_balance,
    {
        self.cold_balance
    }

    /// Gets the bonds purchased by the user: each purchase instant beside
    /// the number of bonds bought then.
    pub fn bonds(&self) -> (r: &Vec<(i64, u64)>)
        ensures
            r@ == self.bonds@,
    {
        &self.bonds
    }

    /// Gets the birthday of the user, if it has been set.
    pub fn get_birthday(&self) -> (r: Option<Date>)
        ensures
            r == (match self.birthday {
                Some(b) => Some(b.0),
                None => None::<Date>,
            }),
    {
        match self.birthday {
            Some(b) => Some(b.0),
            None => None,
        }
    }

    /// Returns whether the birthday of the user has been confirmed.
    pub fn is_birthday_confirmed(&self) -> (r: bool)
        ensures
            r == (match self.birthday {
                Some(b) => b.1,
                None => false,
            }),
    {
        match self.birthday {
            Some(b) => b.1,
            None => false,
        }
    }

    /// Gets the phone of the user, if it has been set.
    pub fn get_phone(&self) -> (r: Option<&str>)
        ensures
            (r is Some <==> self.phone is Some),
            r matches Some(s) ==> (self.phone matches Some(p) && s@ == p.0@),
    {
        match self.phone.as_ref() {
            Some(p) => Some(p.0.as_str()),
            None => None,
        }
    }

    /// Returns whether the phone of the user has been confirmed.
    pub fn is_phone_confirmed(&self) -> (r: bool)
        ensures
            r == (match self.phone {
                Some(p) => p.1,
                None => false,
            }),
    {
        match self.phone.as_ref() {
            Some(p) => p.1,
            None => false,
        }
    }

    /// Gets the image of the user, if it has been set.
    pub fn get_image(&self) -> (r: Option<&str>)
        ensures
            (r is Some <==> self.image is Some),
            r matches Some(s) ==> (self.image matches Some(i) && s@ == i@),
    {
        match self.image.as_ref() {
            Some(i) => Some(i.as_str()),
            None => None,
        }
    }

    /// Gets the address of the user, if it has been set.
    pub fn get_address(&self) -> (r: Option<&Address>)
        ensures
            (r is Some <==> self.address is Some),
            r matches Some(a) ==> (self.address matches Some(s) && *a == s.0),
    {
        match self.address.as_ref() {
            Some(a) => Some(&a.0),
            None => None,
        }
    }

    /// Returns whether the address of the user is confirmed.
    pub fn is_address_confirmed(&self) -> (r: bool)
        ensures
            r == (match self.address {
                Some(a) => a.1,
                None => false,
            }),
    {
        match self.address.as_ref() {
            Some(a) => a.1,
            None => false,
        }
    }

    /// Gets the sybil score of the user.
    pub fn get_sybil_score(&self) -> (r: i8)
        ensures
            r == self.sybil_score,
    {
        self.sybil_score
    }

    /// Gets the trust score of the user.
    pub fn get_trust_score(&self) -> (r: i8)
        ensures
            r == self.trust_score,
    {
        self.trust_score
    }

    /// Returns whether the user is enabled.
    pub fn is_enabled(&self) -> (r: bool)
        ensures
            r == self.enabled,
    {
        self.enabled
    }

    /// Gets the registration instant of the user.
    pub fn get_registration_time(&self) -> (r: i64)
        ensures
            r == self.registered,
    {
        self.registered
    }

    /// Gets the last activity instant of the user.
    pub fn get_last_activity(&self) -> (r: i64)
        ensures
            r == self.last_activity,
    {
        self.last_activity
    }

    /// Whether the user reads as banned at the instant `now`: no ban instant
    /// was ever set, or the set instant is still ahead.
    pub fn is_banned_at(&self, now: i64) -> (r: bool)
        ensures
            r == (match self.banned {
                None => true,
                Some(b) => b > now,
            }),
    {
        match self.banned {
            None => true,
            Some(b) => b > now,
        }
    }

    /// Returns whether the user is banned, against the wall clock.
    pub fn is_banned(&self) -> bool {
        let now = crate::wire::timestamp_now();
        self.is_banned_at(now)
    }

    /// Returns the ban's expiration instant, if it has been set.
    pub fn ban_expiration(&self) -> (r: Option<i64>)
        ensures
            r == self.banned,
    {
        self.banned
    }
}

/// Reads a list of users out of their wire values, keeping their order;
/// every wire value yields a user, so none is dropped.
pub fn users_from_dtos(dtos: Vec<UserDTO>) -> (r: Vec<User>)
    ensures
        r@.len() == dtos@.len(),
        forall|i: int| 0 <= i < dtos@.len() ==> r@[i] == spec_user_of_dto(#[trigger] dtos@[i]),
{
    let mut out: Vec<User> = Vec::new();
    let mut rest = dtos;
    let ghost all = rest@;
    proof {
        assert(rest@ =~= all.skip(0));
    }
    while rest.len() > 0
        invariant
            out@.len() + rest@.len() == all.len(),
            rest@ == all.skip(out@.len() as int),
            forall|k: int| 0 <= k < out@.len() ==> out@[k] == spec_user_of_dto(#[trigger] all[k]),
        decreases rest@.len(),
    {
        let ghost n = out@.len() as int;
        let dto = rest.remove(0);
        proof {
            assert(all.skip(n)[0] == all[n]);
            assert(rest@ =~= all.skip(n + 1));
        }
        match User::from_dto(dto) {
            Ok(u) => {
                out.push(u);
            },
            Err(_) => {},
        }
    }
    out
}

/// The representation of a global credit transaction.
#[derive(Clone, Debug, PartialEq)]
pub struct Transaction {
    /// The ID of the transaction.
    pub id: u64,
    /// The ID of the user sending the transaction.
    pub origin_user: u64,
    /// The ID of the user receiving the transaction.
    pub destination_user: u64,
    /// The destination address of the transaction.
    pub destination_address: WalletAddress,
    /// The amount of the transaction.
    pub amount: Amount,
    /// The timestamp of the transaction, as the server wrote it.
    pub timestamp: String,
}

/// The wire value a transaction is described with.
#[derive(Clone, Debug, PartialEq)]
pub struct TransactionDTO {
    /// The ID of the transaction.
    pub transaction_id: u64,
    /// The ID of the user the transaction originates from.
    pub origin_user: u64,
    /// The ID of the user the transaction goes to.
    pub destination_user: u64,
    /// The destination address of the transaction.
    pub destination_address: WalletAddress,
    /// The amount of the transaction.
    pub amount: Amount,
    /// The timestamp of the transaction.
    pub timestamp: String,
}

/// The transaction its wire value carries.
pub open spec fn spec_transaction_of_dto(dto: TransactionDTO) -> Transaction {
    Transaction {
        id: dto.transaction_id,
        origin_user: dto.origin_user,
        destination_user: dto.destination_user,
        destination_address: dto.destination_address,
        amount: dto.amount,
        timestamp: dto.timestamp,
    }
}

/// The wire value that describes a transaction.
pub open spec fn spec_transaction_to_dto(t: Transaction) -> TransactionDTO {
    TransactionDTO {
        transaction_id: t.id,
        origin_user: t.origin_user,
        destination_user: t.destination_user,
        destination_address: t.destination_address,
        amount: t.amount,
        timestamp: t.timestamp,
    }
}

impl Transaction {
    /// Reads a transaction out of its wire value; every wire value yields
    /// one.
    pub fn from_dto(dto: TransactionDTO) -> (r: Result<Transaction, FromDTOError>)
        ensures
            r == Ok::<Transaction, FromDTOError>(spec_transaction_of_dto(dto)),
    {
        Ok(
            Transaction {
                id: dto.transaction_id,
                origin_user: dto.origin_user,
                destination_user: dto.destination_user,
                destination_address: dto.destination_address,
                amount: dto.amount,
                timestamp: dto.timestamp,
            },
        )
    }

    /// Writes a transaction as its wire value.
    pub fn to_dto(self) -> (r: TransactionDTO)
        ensures
            r == spec_transaction_to_dto(self),
    {
        TransactionDTO {
            transaction_id: self.id,
            origin_user: self.origin_user,
            destination_user: self.destination_user,
            destination_address: self.destination_address,
            amount: self.amount,
            timestamp: self.timestamp,
        }
    }

    /// Returns the ID of the transaction.
    pub fn get_id(&self) -> (r: u64)
        ensures
            r == self.id,
    {
        self.id
    }

    /// Returns the ID of the user receiving the transaction.
    pub fn get_destination_user(&self) -> (r: u64)
        ensures
            r == self.destination_user,
    {
        self.destination_user
    }

    /// Returns the wallet address receiving the transaction.
    pub fn get_destination_address(&self) -> (r: &WalletAddress)
        ensures
            *r == self.destination_address,
    {
        &self.destination_address
    }

    /// Returns the ID of the user sending the transaction.
    pub fn get_origin_user(&self) -> (r: u64)
        ensures
            r == self.origin_user,
    {
        self.origin_user
    }

    /// The amount of the transaction in global credits.
    pub fn get_amount(&self) -> (r: Amount)
        ensures
            r == self.amount,
    {
        self.amount
    }

    /// The timestamp of the transaction.
    pub fn get_timestamp(&self) -> (r: &str)
        ensures
            r@ == self.timestamp@,
    {
        self.timestamp.as_str()
    }
}

/// Round trip: writing a transaction as its wire value and reading it back
/// yields the transaction again, field for field.
pub proof fn lemma_transaction_round_trip(t: Transaction)
    ensures
        spec_transaction_of_dto(spec_transaction_to_dto(t)) == t,
{
}

/// Round trip in the other direction: reading a wire value and writing the
/// transaction back yields the wire value again, field for field.
pub proof fn lemma_transaction_dto_round_trip(dto: TransactionDTO)
    ensures
        spec_transaction_to_dto(spec_transaction_of_dto(dto)) == dto,
{
}

/// Pending friend request.
#[derive(Clone, Debug, PartialEq)]
pub struct PendingFriendRequest {
    /// Connection ID.
    pub connection_id: u64,
    /// Origin user's profile.
    pub origin_user: Profile,
    /// Request message.
    pub message: Option<String>,
}

/// The wire value a pending friend request is described with.
#[derive(Clone, Debug, PartialEq)]
pub struct PendingFriendRequestDTO {
    /// Connection ID.
    pub connection_id: u64,
    /// Origin user's profile.
    pub origin_user: ProfileDTO,
    /// Destination user's profile.
    pub destination_user: ProfileDTO,
    /// Request message.
    pub message: Option<String>,
}

/// The pending friend request its wire value carries.
pub open spec fn spec_pending_request_of_dto(dto: PendingFriendRequestDTO) -> PendingFriendRequest {
    PendingFriendRequest {
        connection_id: dto.connection_id,
        origin_user: spec_profile_of_dto(dto.origin_user),
        message: dto.message,
    }
}

impl PendingFriendRequest {
    /// Reads a pending friend request out of its wire value; every wire
    /// value yields one.
    pub fn from_dto(dto: PendingFriendRequestDTO) -> (r: Result<
        PendingFriendRequest,
        FromDTOError,
    >)
        ensures
            r == Ok::<PendingFriendRequest, FromDTOError>(spec_pending_request_of_dto(dto)),
    {
        let origin_user = match Profile::from_dto(dto.origin_user) {
            Ok(p) => p,
            Err(e) => {
                return Err(e);
            },
        };
        Ok(
            PendingFriendRequest {
                connection_id: dto.connection_id,
                origin_user,
                message: dto.message,
            },
        )
    }

    /// Gets the connection ID of the friend request.
    pub fn get_connection_id(&self) -> (r: u64)
        ensures
            r == self.connection_id,
    {
        self.connection_id
    }

    /// Gets the origin user's profile of the friend request.
    pub fn get_origin_user(&self) -> (r: &Profile)
        ensures
            *r == self.origin_user,
    {
        &self.origin_user
    }

    /// Gets the message of the friend request.
    pub fn get_message(&self) -> (r: Option<&str>)
        ensures
            (r is Some <==> self.message is Some),
            r matches Some(s) ==> (self.message matches Some(m) && s@ == m@),
    {
        match self.message.as_ref() {
            Some(m) => Some(m.as_str()),
            None => None,
        }
    }
}

} // verus!
