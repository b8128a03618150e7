//! Name-service types: registered names and the nym addresses they point
//! to.
//!
//! A nym address has the form `client_id.client_enc@gateway_id`: exactly
//! one `@`, exactly one `.` before it and none after it. A registered
//! name is restricted to lowercase letters, digits, hyphen and
//! underscore.

use vstd::prelude::*;

verus! {

/// An address string that does not have the nym address form.
#[derive(Debug)]
pub enum NameServiceError {
    InvalidNymAddress(String),
}

/// A name using a character outside the allowed set.
#[derive(Clone, Copy, PartialEq, Eq, Structural, Debug)]
pub enum NymNameError {
    InvalidName,
}

/// Whether `dot` and `at` split the string into the nym address form:
/// `at` is the single `@` of the whole string, `dot` the single `.` in
/// front of it, and no `.` follows the `@`.
pub open spec fn spec_nym_address_split(address: Seq<char>, dot: int, at: int) -> bool {
    &&& 0 <= dot < at < address.len()
    &&& address[at] == '@'
    &&& address[dot] == '.'
    &&& forall|k: int| 0 <= k < address.len() && k != at ==> address[k] != '@'
    &&& forall|k: int| 0 <= k < at && k != dot ==> address[k] != '.'
    &&& forall|k: int| at < k < address.len() ==> address[k] != '.'
}

/// The three parts of a parsed nym address.
pub struct AddressModel {
    pub client_id: Seq<char>,
    pub client_enc: Seq<char>,
    pub gateway_id: Seq<char>,
}

/// Parsed form of a nym address: `client_id.client_enc@gateway_id`.
pub struct NymAddressInner {
    client_id: String,
    client_enc: String,
    gateway_id: String,
}

impl View for NymAddressInner {
    type V = AddressModel;

    closed spec fn view(&self) -> AddressModel {
        AddressModel {
            client_id: self.client_id@,
            client_enc: self.client_enc@,
            gateway_id: self.gateway_id@,
        }
    }
}

/// String representation of a nym address.
pub enum Address {
    NymAddress(NymAddressInner),
}

impl View for Address {
    type V = AddressModel;

    open spec fn view(&self) -> AddressModel {
        match self {
            Address::NymAddress(inner) => inner@,
        }
    }
}

fn find_char(s: &str, from: usize, to: usize, target: char) -> (position: Option<usize>)
    requires
        from <= to <= s@.len(),
    ensures
        match position {
            Some(found) => {
                &&& from <= found < to
                &&& s@[found as int] == target
                &&& forall|k: int| from <= k < found ==> s@[k] != target
            },
            None => forall|k: int| from <= k < to ==> s@[k] != target,
        },
{
    let mut at: usize = from;
    while at < to
        invariant
            from <= at <= to <= s@.len(),
            forall|k: int| from <= k < at ==> s@[k] != target,
        decreases to - at,
    {
        if s.get_char(at) == target {
            return Some(at);
        }
        at += 1;
    }
    None
}

/// Parses an address of the form `client_id.client_enc@gateway_id`.
///
/// Returns the three parts exactly when the string splits that way —
/// one `@`, one `.` before it, none after it — and `None` for every
/// other string.
pub fn parse_nym_address(address: &str) -> (result: Option<NymAddressInner>)
    ensures
        match result {
            Some(inner) => exists|dot: int, at: int|
                {
                    &&& #[trigger] spec_nym_address_split(address@, dot, at)
                    &&& inner@.client_id == address@.subrange(0, dot)
                    &&& inner@.client_enc == address@.subrange(dot + 1, at)
                    &&& inner@.gateway_id == address@.subrange(at + 1, address@.len() as int)
                },
            None => forall|dot: int, at: int|
                !#[trigger] spec_nym_address_split(address@, dot, at),
        },
{
    let ghost s = address@;
    let len = address.unicode_len();
    let at = match find_char(address, 0, len, '@') {
        Some(at) => at,
        None => {
            proof {
                assert forall|dot: int, a: int| !spec_nym_address_split(s, dot, a) by {
                    if spec_nym_address_split(s, dot, a) {
                        assert(s[a] == '@');
                    }
                }
            }
            return None;
        },
    };
    if let Some(second_at) = find_char(address, at + 1, len, '@') {
        proof {
            assert forall|dot: int, a: int| !spec_nym_address_split(s, dot, a) by {
                if spec_nym_address_split(s, dot, a) {
                    if a == at {
                        assert(s[second_at as int] != '@');
                    } else {
                        assert(s[at as int] != '@');
                    }
                }
            }
        }
        return None;
    }
    let dot = match find_char(address, 0, at, '.') {
        Some(dot) => dot,
        None => {
            proof {
                assert forall|d: int, a: int| !spec_nym_address_split(s, d, a) by {
                    if spec_nym_address_split(s, d, a) {
                        assert(a == at);
                        assert(s[d] == '.');
                    }
                }
            }
            return None;
        },
    };
    if let Some(second_dot) = find_char(address, dot + 1, at, '.') {
        proof {
            assert forall|d: int, a: int| !spec_nym_address_split(s, d, a) by {
                if spec_nym_address_split(s, d, a) {
                    assert(a == at);
                    if d == dot {
                        assert(s[second_dot as int] != '.');
                    } else {
                        assert(s[dot as int] != '.');
                    }
                }
            }
        }
        return None;
    }
    if let Some(late_dot) = find_char(address, at + 1, len, '.') {
        proof {
            assert forall|d: int, a: int| !spec_nym_address_split(s, d, a) by {
                if spec_nym_address_split(s, d, a) {
                    assert(a == at);
                    assert(s[late_dot as int] != '.');
                }
            }
        }
        return None;
    }
    proof {
        assert(spec_nym_address_split(s, dot as int, at as int));
    }
    let client_id = String::from_str(address.substring_char(0, dot));
    let client_enc = String::from_str(address.substring_char(dot + 1, at));
    let gateway_id = String::from_str(address.substring_char(at + 1, len));
    Some(NymAddressInner { client_id, client_enc, gateway_id })
}

impl Address {
    /// Parses a new nym address, rejecting every string that does not
    /// have the `client_id.client_enc@gateway_id` form.
    pub fn new(address: &str) -> (result: Result<Self, NameServiceError>)
        ensures
            match result {
                Ok(parsed) => exists|dot: int, at: int|
                    {
                        &&& #[trigger] spec_nym_address_split(address@, dot, at)
                        &&& parsed@.client_id == address@.subrange(0, dot)
                        &&& parsed@.client_enc == address@.subrange(dot + 1, at)
                        &&& parsed@.gateway_id == address@.subrange(
                            at + 1,
                            address@.len() as int,
                        )
                    },
                Err(NameServiceError::InvalidNymAddress(reported)) => {
                    &&& forall|dot: int, at: int|
                        !#[trigger] spec_nym_address_split(address@, dot, at)
                    &&& reported@ == address@
                },
            },
    {
        match parse_nym_address(address) {
            Some(inner) => Ok(Address::NymAddress(inner)),
            None => Err(NameServiceError::InvalidNymAddress(String::from_str(address))),
        }
    }

    /// The client identity part, in front of the `.`.
    pub fn client_id(&self) -> (part: &str)
        ensures
            part@ == self@.client_id,
    {
        match self {
            Address::NymAddress(inner) => inner.client_id.as_str(),
        }
    }

    /// The client encryption-key part, between the `.` and the `@`.
    pub fn client_enc(&self) -> (part: &str)
        ensures
            part@ == self@.client_enc,
    {
        match self {
            Address::NymAddress(inner) => inner.client_enc.as_str(),
        }
    }

    /// The gateway identity part, after the `@`.
    pub fn gateway_id(&self) -> (part: &str)
        ensures
            part@ == self@.gateway_id,
    {
        match self {
            Address::NymAddress(inner) => inner.gateway_id.as_str(),
        }
    }

    /// The whole address, `client_id.client_enc@gateway_id`.
    pub fn as_str(&self) -> (address: String)
        ensures
            address@ == self@.client_id + seq!['.'] + self@.client_enc + seq!['@']
                + self@.gateway_id,
    {
        match self {
            Address::NymAddress(inner) => {
                let mut address = String::new();
                address.append(inner.client_id.as_str());
                address.append(".");
                address.append(inner.client_enc.as_str());
                address.append("@");
                address.append(inner.gateway_id.as_str());
                proof {
                    reveal_strlit(".");
                    reveal_strlit("@");
                    assert(address@ =~= self@.client_id + seq!['.'] + self@.client_enc + seq![
                        '@',
                    ] + self@.gateway_id);
                }
                address
            },
        }
    }

    /// The event tag this kind of address is logged under.
    pub fn event_tag(&self) -> (tag: &'static str)
        ensures
            tag@ == "nym_address"@,
    {
        match self {
            Address::NymAddress(_) => "nym_address",
        }
    }
}

/// Law: the parts of a parsed address reassemble to exactly the parsed
/// string, so rendering an address returns the very string it was parsed
/// from.
pub proof fn lemma_address_reconstruction(address: Seq<char>, dot: int, at: int)
    requires
        spec_nym_address_split(address, dot, at),
    ensures
        address.subrange(0, dot) + seq!['.'] + address.subrange(dot + 1, at) + seq!['@']
            + address.subrange(at + 1, address.len() as int) == address,
{
    assert(address.subrange(0, dot) + seq!['.'] + address.subrange(dot + 1, at) + seq!['@']
        + address.subrange(at + 1, address.len() as int) =~= address);
}

/// An ASCII code point.
pub open spec fn spec_ascii_char(c: char) -> bool {
    (c as u32) < 128
}

pub open spec fn spec_ascii_lowercase_letter(c: char) -> bool {
    ('a' as u32) <= (c as u32) <= ('z' as u32)
}

pub open spec fn spec_ascii_uppercase_letter(c: char) -> bool {
    ('A' as u32) <= (c as u32) <= ('Z' as u32)
}

pub open spec fn spec_ascii_digit(c: char) -> bool {
    ('0' as u32) <= (c as u32) <= ('9' as u32)
}

/// The ASCII characters a name may use, decidable by code point alone:
/// lowercase letters, digits, hyphen and underscore.
pub open spec fn spec_allowed_ascii_name_char(c: char) -> bool {
    spec_ascii_lowercase_letter(c) || spec_ascii_digit(c) || c == '-' || c == '_'
}

pub uninterp spec fn spec_char_alphabetic(c: char) -> bool;

pub uninterp spec fn spec_char_lowercase(c: char) -> bool;

pub uninterp spec fn spec_char_numeric(c: char) -> bool;

/// Relies on std's `char::is_alphabetic`: whether the character has one
/// of the Unicode letter categories. Every ASCII letter is alphabetic;
/// no other ASCII character is.
#[verifier::external_body]
fn char_is_alphabetic(c: char) -> (alphabetic: bool)
    ensures
        alphabetic == spec_char_alphabetic(c),
        spec_ascii_lowercase_letter(c) || spec_ascii_uppercase_letter(c) ==> alphabetic,
        spec_ascii_char(c) && !(spec_ascii_lowercase_letter(c) || spec_ascii_uppercase_letter(c))
            ==> !alphabetic,
{
    c.is_alphabetic()
}

/// Relies on std's `char::is_lowercase`: whether the character has the
/// Unicode `Lowercase` property. Of the ASCII characters exactly `a`-`z`
/// have it.
#[verifier::external_body]
fn char_is_lowercase(c: char) -> (lowercase: bool)
    ensures
        lowercase == spec_char_lowercase(c),
        spec_ascii_lowercase_letter(c) ==> lowercase,
        spec_ascii_char(c) && !spec_ascii_lowercase_letter(c) ==> !lowercase,
{
    c.is_lowercase()
}

/// Relies on std's `char::is_numeric`: whether the character has one of
/// the Unicode number categories. Of the ASCII characters exactly `0`-`9`
/// have one.
#[verifier::external_body]
fn char_is_numeric(c: char) -> (numeric: bool)
    ensures
        numeric == spec_char_numeric(c),
        spec_ascii_digit(c) ==> numeric,
        spec_ascii_char(c) && !spec_ascii_digit(c) ==> !numeric,
{
    c.is_numeric()
}

/// The characters a registered name may use: lowercase letters, digits,
/// hyphen and underscore.
pub open spec fn spec_valid_name_char(c: char) -> bool {
    (spec_char_alphabetic(c) && spec_char_lowercase(c)) || spec_char_numeric(c) || c == '-' || c
        == '_'
}

/// Defines what names are allowed: normal lowercase letters, numbers,
/// hyphen or underscore.
///
/// On the ASCII range the answer is pinned by code point: the allowed
/// ASCII characters are accepted and every other ASCII character is
/// rejected, so callers can decide concrete characters.
pub fn is_valid_name_char(c: char) -> (valid: bool)
    ensures
        valid == spec_valid_name_char(c),
        spec_allowed_ascii_name_char(c) ==> valid,
        spec_ascii_char(c) && !spec_allowed_ascii_name_char(c) ==> !valid,
{
    (char_is_alphabetic(c) && char_is_lowercase(c)) || char_is_numeric(c) || c == '-' || c == '_'
}

/// Name stored in the directory, pointing to a nym address.
pub struct NymName(String);

impl View for NymName {
    type V = Seq<char>;

    closed spec fn view(&self) -> Seq<char> {
        self.0@
    }
}

impl NymName {
    /// Accepts the name exactly when every character is from the allowed
    /// set; names are kept restrictive to start out with.
    ///
    /// On the ASCII range the outcome is pinned by code points alone: a
    /// name of allowed ASCII characters is always accepted, and any ASCII
    /// character outside the allowed set forces rejection.
    pub fn new(name: &str) -> (result: Result<NymName, NymNameError>)
        ensures
            match result {
                Ok(parsed) => parsed@ == name@ && forall|k: int|
                    0 <= k < name@.len() ==> spec_valid_name_char(#[trigger] name@[k]),
                Err(err) => err == NymNameError::InvalidName && exists|k: int|
                    0 <= k < name@.len() && !spec_valid_name_char(#[trigger] name@[k]),
            },
            (forall|k: int|
                0 <= k < name@.len() ==> spec_allowed_ascii_name_char(#[trigger] name@[k]))
                ==> result is Ok,
            (exists|k: int|
                0 <= k < name@.len() && spec_ascii_char(#[trigger] name@[k])
                    && !spec_allowed_ascii_name_char(name@[k])) ==> result is Err,
    {
        let len = name.unicode_len();
        let mut k: usize = 0;
        while k < len
            invariant
                k <= len,
                len == name@.len(),
                forall|j: int| 0 <= j < k ==> spec_valid_name_char(#[trigger] name@[j]),
                forall|j: int|
                    0 <= j < k ==> !(spec_ascii_char(#[trigger] name@[j])
                        && !spec_allowed_ascii_name_char(name@[j])),
            decreases len - k,
        {
            if !is_valid_name_char(name.get_char(k)) {
                proof {
                    assert(!spec_allowed_ascii_name_char(name@[k as int]));
                }
                return Err(NymNameError::InvalidName);
            }
            k += 1;
        }
        Ok(NymName(String::from_str(name)))
    }

    /// The name as a string slice.
    pub fn as_str(&self) -> (name: &str)
        ensures
            name@ == self@,
    {
        self.0.as_str()
    }
}

/// Unique id a registered name is indexed by.
pub type NameId = u32;

/// The price paid to announce a name.
pub struct DepositValue {
    /// Amount in the chain's base denomination.
    pub amount: u128,
    /// Denomination the amount is counted in.
    pub denom: String,
}

/// The name, address and key under one registered entry.
pub struct NameDetails {
    /// The name pointing to the nym address.
    pub name: NymName,
    /// The address of the name alias.
    pub address: Address,
    /// The identity key of the registered name.
    pub identity_key: String,
}

/// One entry of the name directory.
pub struct RegisteredName {
    /// Unique id assigned to the registered name.
    pub id: NameId,
    /// The registered name details.
    pub name: NameDetails,
    /// Account that owns the name.
    pub owner: String,
    /// Block height at which the name was added.
    pub block_height: u64,
    /// The deposit used to announce the name.
    pub deposit: DepositValue,
}

impl RegisteredName {
    /// Shortcut for getting the actual name.
    pub fn entry(&self) -> (name: &NymName)
        ensures
            name@ == self.name.name@,
    {
        &self.name.name
    }
}

} // verus!
