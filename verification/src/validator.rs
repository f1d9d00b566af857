//! Validators: the record that the chain keeps of each threshold server, and
//! the row that the page shows.

use crate::codec::{read_array32, read_byte_string, spec_byte_string, spec_take, DecodeError};
use crate::display::HexVec;
use crate::identity::AccountId32;
use crate::scan::RawStorageEntry;
use vstd::prelude::*;
use vstd::slice::slice_to_vec;
use vstd::utf8::{decode_utf8, valid_utf8};

verus! {

/// What the chain stores of a validator's threshold server.
#[derive(Clone, Debug, PartialEq, Eq)]
pub struct ServerInfo {
    /// The account under which the server signs.
    pub tss_account: AccountId32,
    /// The server's key for key agreement.
    pub x25519_public_key: [u8; 32],
    /// Where the server is reached, as the bytes of a text.
    pub endpoint: Vec<u8>,
}

/// A `ServerInfo` as plain values.
pub struct ServerInfoView {
    pub tss_account: Seq<u8>,
    pub x25519_public_key: Seq<u8>,
    pub endpoint: Seq<u8>,
}

impl View for ServerInfo {
    type V = ServerInfoView;

    open spec fn view(&self) -> ServerInfoView {
        ServerInfoView {
            tss_account: self.tss_account@,
            x25519_public_key: self.x25519_public_key@,
            endpoint: self.endpoint@,
        }
    }
}

/// The server record that a stored value encodes: the 32 bytes of the
/// server's account, the 32 bytes of its key, and the endpoint as a byte
/// string. Bytes after the last field are ignored.
pub open spec fn spec_server_info(input: Seq<u8>) -> Result<ServerInfoView, DecodeError> {
    match spec_take(input, 32) {
        Err(e) => Err(e),
        Ok((tss_account, after_account)) => match spec_take(after_account, 32) {
            Err(e) => Err(e),
            Ok((x25519_public_key, after_key)) => match spec_byte_string(after_key) {
                Err(e) => Err(e),
                Ok((endpoint, _)) => Ok(
                    ServerInfoView { tss_account, x25519_public_key, endpoint },
                ),
            },
        },
    }
}

/// Decodes the stored value of a validator.
pub fn decode_server_info(input: &[u8]) -> (r: Result<ServerInfo, DecodeError>)
    ensures
        match r {
            Ok(info) => spec_server_info(input@) == Ok::<_, DecodeError>(info@),
            Err(e) => spec_server_info(input@) == Err::<ServerInfoView, _>(e),
        },
{
    let (tss_account, rest) = match read_array32(input) {
        Ok(read) => read,
        Err(e) => {
            return Err(e);
        },
    };
    let (x25519_public_key, rest) = match read_array32(rest) {
        Ok(read) => read,
        Err(e) => {
            return Err(e);
        },
    };
    let (endpoint, _) = match read_byte_string(rest) {
        Ok(read) => read,
        Err(e) => {
            return Err(e);
        },
    };
    Ok(ServerInfo { tss_account: AccountId32(tss_account), x25519_public_key, endpoint })
}

/// `String::from_utf8` of std: the text that the bytes encode, where they
/// are well-formed UTF-8, and nothing where they are not.
#[verifier::external_body]
pub(crate) fn text_from_utf8(bytes: Vec<u8>) -> (text: Option<String>)
    ensures
        text is Some <==> valid_utf8(bytes@),
        text matches Some(s) ==> s@ == decode_utf8(bytes@),
{
    match String::from_utf8(bytes) {
        Ok(text) => Some(text),
        Err(_) => None,
    }
}

/// A validator as the page shows it.
#[derive(Clone, Debug, PartialEq, Eq)]
pub struct Validator {
    pub tss_account: AccountId32,
    pub x25519_public_key: HexVec,
    pub endpoint: String,
}

/// A `Validator` as plain values.
pub struct ValidatorView {
    pub tss_account: Seq<u8>,
    pub x25519_public_key: Seq<u8>,
    pub endpoint: Seq<char>,
}

impl View for Validator {
    type V = ValidatorView;

    open spec fn view(&self) -> ValidatorView {
        ValidatorView {
            tss_account: self.tss_account@,
            x25519_public_key: self.x25519_public_key@,
            endpoint: self.endpoint@,
        }
    }
}

/// The row for a server record: its account and key as they are, and its
/// endpoint as text. A record whose endpoint is not UTF-8 has no row.
pub open spec fn spec_validator(info: ServerInfoView) -> Result<ValidatorView, DecodeError> {
    if valid_utf8(info.endpoint) {
        Ok(
            ValidatorView {
                tss_account: info.tss_account,
                x25519_public_key: info.x25519_public_key,
                endpoint: decode_utf8(info.endpoint),
            },
        )
    } else {
        Err(DecodeError::InvalidUtf8)
    }
}

/// The row that a storage entry of the validator map gives: the one of the
/// record that its value encodes.
pub open spec fn spec_validator_entry(value: Seq<u8>) -> Result<ValidatorView, DecodeError> {
    match spec_server_info(value) {
        Err(e) => Err(e),
        Ok(info) => spec_validator(info),
    }
}

impl Validator {
    /// Makes the row of the validator with the given stash account. The stash
    /// account is not shown.
    pub fn new(_stash_account: AccountId32, server_info: ServerInfo) -> (r: Result<
        Validator,
        DecodeError,
    >)
        ensures
            match r {
                Ok(validator) => spec_validator(server_info@) == Ok::<_, DecodeError>(
                    validator@,
                ),
                Err(e) => spec_validator(server_info@) == Err::<ValidatorView, _>(e),
            },
    {
        let ServerInfo { tss_account, x25519_public_key, endpoint } = server_info;
        let key = slice_to_vec(x25519_public_key.as_slice());
        match text_from_utf8(endpoint) {
            None => Err(DecodeError::InvalidUtf8),
            Some(endpoint) => Ok(
                Validator { tss_account, x25519_public_key: HexVec::new(key), endpoint },
            ),
        }
    }
}

/// Decodes one entry of the validator map into its row.
pub fn decode_validator_entry(entry: &RawStorageEntry) -> (r: Result<Validator, DecodeError>)
    ensures
        match r {
            Ok(validator) => spec_validator_entry(entry@.1) == Ok::<_, DecodeError>(validator@),
            Err(e) => spec_validator_entry(entry@.1) == Err::<ValidatorView, _>(e),
        },
{
    let stash_account = AccountId32(entry.key.identity());
    match decode_server_info(entry.value.as_slice()) {
        Err(e) => Err(e),
        Ok(info) => Validator::new(stash_account, info),
    }
}

/// Decodes the entries of the validator map into rows, in the order of the
/// entries. One entry that cannot be decoded fails the whole list, with the
/// error of the first such entry.
pub fn get_validators(entries: &Vec<RawStorageEntry>) -> (r: Result<Vec<Validator>, DecodeError>)
    ensures
        match r {
            Ok(validators) => validators@.len() == entries@.len() && forall|i: int|
                0 <= i < entries@.len() ==> spec_validator_entry(#[trigger] entries@[i]@.1)
                    == Ok::<_, DecodeError>(validators@[i]@),
            Err(e) => exists|i: int|
                0 <= i < entries@.len() && spec_validator_entry(#[trigger] entries@[i]@.1)
                    == Err::<ValidatorView, _>(e) && forall|j: int|
                    0 <= j < i ==> spec_validator_entry(#[trigger] entries@[j]@.1) is Ok,
        },
{
    let mut validators: Vec<Validator> = Vec::new();
    let mut i: usize = 0;
    while i < entries.len()
        invariant
            i <= entries@.len(),
            validators@.len() == i,
            forall|j: int|
                0 <= j < i ==> spec_validator_entry(#[trigger] entries@[j]@.1) == Ok::<
                    _,
                    DecodeError,
                >(validators@[j]@),
        decreases entries@.len() - i,
    {
        match decode_validator_entry(&entries[i]) {
            Err(e) => {
                return Err(e);
            },
            Ok(validator) => {
                validators.push(validator);
            },
        }
        i += 1;
    }
    Ok(validators)
}

} // verus!
