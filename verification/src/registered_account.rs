//! Registered accounts: the record that the chain keeps of each, the
//! Ethereum address derived from its verifying key, and the row that the
//! page shows.

use crate::codec::{
    read_array32, read_byte_string, read_compact_u32, read_u8, compact_u32, spec_byte_string,
    spec_take, spec_u8, DecodeError,
};
use crate::display::{short_hex, short_hex_text, HexVec};
use crate::identity::{AccountId32, H256};
use crate::scan::RawStorageEntry;
use ethers_core::utils::raw_public_key_to_address;
use synedrion::k256::ecdsa::VerifyingKey;
use synedrion::k256::EncodedPoint;
use vstd::prelude::*;
use vstd::slice::{slice_subrange, slice_to_vec};
use vstd::string::StringExecFns;

verus! {

/// Who may use the key of an account.
#[derive(Clone, Copy, Debug, PartialEq, Eq)]
pub enum KeyVisibility {
    /// Anyone.
    Public,
    /// Those whom the account has admitted.
    Permissioned,
    /// The holder of the given key-agreement key alone.
    Private([u8; 32]),
}

/// A `KeyVisibility` as plain values.
pub enum KeyVisibilityView {
    Public,
    Permissioned,
    Private(Seq<u8>),
}

impl View for KeyVisibility {
    type V = KeyVisibilityView;

    open spec fn view(&self) -> KeyVisibilityView {
        match *self {
            KeyVisibility::Public => KeyVisibilityView::Public,
            KeyVisibility::Permissioned => KeyVisibilityView::Permissioned,
            KeyVisibility::Private(key) => KeyVisibilityView::Private(key@),
        }
    }
}

/// A program that an account runs, with the configuration it runs it under.
#[derive(Clone, Debug, PartialEq, Eq)]
pub struct ProgramInstance {
    /// The hash of the stored program.
    pub program_pointer: H256,
    pub program_config: Vec<u8>,
}

/// A `ProgramInstance` as plain values.
pub struct ProgramInstanceView {
    pub program_pointer: Seq<u8>,
    pub program_config: Seq<u8>,
}

impl View for ProgramInstance {
    type V = ProgramInstanceView;

    open spec fn view(&self) -> ProgramInstanceView {
        ProgramInstanceView {
            program_pointer: self.program_pointer@,
            program_config: self.program_config@,
        }
    }
}

/// What the chain stores of a registered account.
#[derive(Clone, Debug, PartialEq, Eq)]
pub struct RegisteredInfo {
    pub key_visibility: KeyVisibility,
    /// The account's public key as a compressed curve point.
    pub verifying_key: Vec<u8>,
    /// The programs that the account runs, in the order it gave them.
    pub programs_data: Vec<ProgramInstance>,
    /// The account that may change the programs.
    pub program_modification_account: AccountId32,
}

/// A `RegisteredInfo` as plain values.
pub struct RegisteredInfoView {
    pub key_visibility: KeyVisibilityView,
    pub verifying_key: Seq<u8>,
    pub programs_data: Seq<ProgramInstanceView>,
    pub program_modification_account: Seq<u8>,
}

impl View for RegisteredInfo {
    type V = RegisteredInfoView;

    open spec fn view(&self) -> RegisteredInfoView {
        RegisteredInfoView {
            key_visibility: self.key_visibility@,
            verifying_key: self.verifying_key@,
            programs_data: self.programs_data@.map_values(|p: ProgramInstance| p@),
            program_modification_account: self.program_modification_account@,
        }
    }
}

/// A visibility: a tag byte, 0 for public, 1 for permissioned, 2 for
/// private, and after the tag of a private one the 32 bytes of its key.
pub open spec fn spec_key_visibility(input: Seq<u8>) -> Result<
    (KeyVisibilityView, Seq<u8>),
    DecodeError,
> {
    match spec_u8(input) {
        Err(e) => Err(e),
        Ok((tag, rest)) => if tag == 0 {
            Ok((KeyVisibilityView::Public, rest))
        } else if tag == 1 {
            Ok((KeyVisibilityView::Permissioned, rest))
        } else if tag == 2 {
            match spec_take(rest, 32) {
                Err(e) => Err(e),
                Ok((key, after_key)) => Ok((KeyVisibilityView::Private(key), after_key)),
            }
        } else {
            Err(DecodeError::InvalidTag)
        },
    }
}

/// A program instance: the 32 bytes of the program's hash, then the
/// configuration as a byte string.
pub open spec fn spec_program_instance(input: Seq<u8>) -> Result<
    (ProgramInstanceView, Seq<u8>),
    DecodeError,
> {
    match spec_take(input, 32) {
        Err(e) => Err(e),
        Ok((program_pointer, after_pointer)) => match spec_byte_string(after_pointer) {
            Err(e) => Err(e),
            Ok((program_config, rest)) => Ok(
                (ProgramInstanceView { program_pointer, program_config }, rest),
            ),
        },
    }
}

/// `count` program instances, one after the other.
pub open spec fn spec_program_instances(input: Seq<u8>, count: nat) -> Result<
    (Seq<ProgramInstanceView>, Seq<u8>),
    DecodeError,
>
    decreases count,
{
    if count == 0 {
        Ok((Seq::empty(), input))
    } else {
        match spec_program_instance(input) {
            Err(e) => Err(e),
            Ok((first, after_first)) => match spec_program_instances(
                after_first,
                (count - 1) as nat,
            ) {
                Err(e) => Err(e),
                Ok((others, rest)) => Ok((seq![first] + others, rest)),
            },
        }
    }
}

/// A list of program instances: a compact count, then that many instances.
pub open spec fn spec_program_list(input: Seq<u8>) -> Result<
    (Seq<ProgramInstanceView>, Seq<u8>),
    DecodeError,
> {
    match compact_u32(input) {
        None => Err(DecodeError::MalformedLength),
        Some((count, width)) => spec_program_instances(
            input.subrange(width as int, input.len() as int),
            count as nat,
        ),
    }
}

/// The account record that a stored value encodes: the visibility, the
/// verifying key as a byte string, the list of programs, and the 32 bytes of
/// the account that may change them. Bytes after the last field are ignored.
pub open spec fn spec_registered_info(input: Seq<u8>) -> Result<RegisteredInfoView, DecodeError> {
    match spec_key_visibility(input) {
        Err(e) => Err(e),
        Ok((key_visibility, after_visibility)) => match spec_byte_string(after_visibility) {
            Err(e) => Err(e),
            Ok((verifying_key, after_key)) => match spec_program_list(after_key) {
                Err(e) => Err(e),
                Ok((programs_data, after_programs)) => match spec_take(after_programs, 32) {
                    Err(e) => Err(e),
                    Ok((program_modification_account, _)) => Ok(
                        RegisteredInfoView {
                            key_visibility,
                            verifying_key,
                            programs_data,
                            program_modification_account,
                        },
                    ),
                },
            },
        },
    }
}

/// Reads a visibility.
pub fn read_key_visibility<'a>(input: &'a [u8]) -> (r: Result<
    (KeyVisibility, &'a [u8]),
    DecodeError,
>)
    ensures
        match r {
            Ok((visibility, rest)) => spec_key_visibility(input@) == Ok::<_, DecodeError>(
                (visibility@, rest@),
            ),
            Err(e) => spec_key_visibility(input@) == Err::<(KeyVisibilityView, Seq<u8>), _>(e),
        },
{
    let (tag, rest) = match read_u8(input) {
        Ok(read) => read,
        Err(e) => {
            return Err(e);
        },
    };
    if tag == 0 {
        Ok((KeyVisibility::Public, rest))
    } else if tag == 1 {
        Ok((KeyVisibility::Permissioned, rest))
    } else if tag == 2 {
        match read_array32(rest) {
            Err(e) => Err(e),
            Ok((key, after_key)) => Ok((KeyVisibility::Private(key), after_key)),
        }
    } else {
        Err(DecodeError::InvalidTag)
    }
}

/// Reads a program instance.
pub fn read_program_instance<'a>(input: &'a [u8]) -> (r: Result<
    (ProgramInstance, &'a [u8]),
    DecodeError,
>)
    ensures
        match r {
            Ok((instance, rest)) => spec_program_instance(input@) == Ok::<_, DecodeError>(
                (instance@, rest@),
            ),
            Err(e) => spec_program_instance(input@) == Err::<(ProgramInstanceView, Seq<u8>), _>(
                e,
            ),
        },
{
    let (program_pointer, rest) = match read_array32(input) {
        Ok(read) => read,
        Err(e) => {
            return Err(e);
        },
    };
    match read_byte_string(rest) {
        Err(e) => Err(e),
        Ok((program_config, rest)) => Ok(
            (ProgramInstance { program_pointer: H256(program_pointer), program_config }, rest),
        ),
    }
}

/// Instances read so far, followed by what the rest of the input gives, are
/// what the whole input gives.
pub open spec fn continued(
    done: Seq<ProgramInstanceView>,
    rest: Result<(Seq<ProgramInstanceView>, Seq<u8>), DecodeError>,
) -> Result<(Seq<ProgramInstanceView>, Seq<u8>), DecodeError> {
    match rest {
        Err(e) => Err(e),
        Ok((others, end)) => Ok((done + others, end)),
    }
}

/// Reads a list of program instances.
pub fn read_program_list<'a>(input: &'a [u8]) -> (r: Result<
    (Vec<ProgramInstance>, &'a [u8]),
    DecodeError,
>)
    ensures
        match r {
            Ok((instances, rest)) => spec_program_list(input@) == Ok::<_, DecodeError>(
                (instances@.map_values(|p: ProgramInstance| p@), rest@),
            ),
            Err(e) => spec_program_list(input@) == Err::<
                (Seq<ProgramInstanceView>, Seq<u8>),
                _,
            >(e),
        },
{
    let (count, start) = match read_compact_u32(input) {
        Some(read) => read,
        None => {
            return Err(DecodeError::MalformedLength);
        },
    };
    let mut instances: Vec<ProgramInstance> = Vec::new();
    let mut rest: &[u8] = start;
    let mut i: u32 = 0;
    proof {
        assert(instances@.map_values(|p: ProgramInstance| p@) =~= Seq::empty());
        match spec_program_instances(start@, count as nat) {
            Err(_) => {},
            Ok((all, _)) => {
                assert(Seq::<ProgramInstanceView>::empty() + all =~= all);
            },
        }
    }
    while i < count
        invariant
            i <= count,
            spec_program_list(input@) == spec_program_instances(start@, count as nat),
            spec_program_instances(start@, count as nat) == continued(
                instances@.map_values(|p: ProgramInstance| p@),
                spec_program_instances(rest@, (count - i) as nat),
            ),
        decreases count - i,
    {
        let ghost before = instances@.map_values(|p: ProgramInstance| p@);
        let ghost input_before = rest@;
        match read_program_instance(rest) {
            Err(e) => {
                return Err(e);
            },
            Ok((instance, after)) => {
                instances.push(instance);
                rest = after;
            },
        }
        i += 1;
        proof {
            let now = instances@.map_values(|p: ProgramInstance| p@);
            let first = spec_program_instance(input_before)->Ok_0.0;
            assert(now =~= before + seq![first]);
            match spec_program_instances(rest@, (count - i) as nat) {
                Err(_) => {},
                Ok((others, _)) => {
                    assert(before + (seq![first] + others) =~= now + others);
                },
            }
        }
    }
    proof {
        let now = instances@.map_values(|p: ProgramInstance| p@);
        assert(now + Seq::<ProgramInstanceView>::empty() =~= now);
    }
    Ok((instances, rest))
}

/// Decodes the stored value of a registered account.
pub fn decode_registered_info(input: &[u8]) -> (r: Result<RegisteredInfo, DecodeError>)
    ensures
        match r {
            Ok(info) => spec_registered_info(input@) == Ok::<_, DecodeError>(info@),
            Err(e) => spec_registered_info(input@) == Err::<RegisteredInfoView, _>(e),
        },
{
    let (key_visibility, rest) = match read_key_visibility(input) {
        Ok(read) => read,
        Err(e) => {
            return Err(e);
        },
    };
    let (verifying_key, rest) = match read_byte_string(rest) {
        Ok(read) => read,
        Err(e) => {
            return Err(e);
        },
    };
    let (programs_data, rest) = match read_program_list(rest) {
        Ok(read) => read,
        Err(e) => {
            return Err(e);
        },
    };
    let (account, _) = match read_array32(rest) {
        Ok(read) => read,
        Err(e) => {
            return Err(e);
        },
    };
    Ok(
        RegisteredInfo {
            key_visibility,
            verifying_key,
            programs_data,
            program_modification_account: AccountId32(account),
        },
    )
}

/// Why no address could be derived from a key.
#[derive(Clone, Copy, Debug, PartialEq, Eq, Structural)]
pub enum CryptoError {
    /// The bytes do not have the form of an encoded curve point.
    InvalidEncoding,
    /// The bytes have the form of an encoded point, but stand for no public
    /// key on the curve.
    InvalidPoint,
}

/// An Ethereum address.
#[derive(Clone, Copy, Debug, PartialEq, Eq, Hash)]
pub struct H160(pub [u8; 20]);

impl View for H160 {
    type V = Seq<u8>;

    open spec fn view(&self) -> Seq<u8> {
        self.0@
    }
}

/// Whether bytes have the form of a curve point in the SEC1 encoding for a
/// curve with 32-byte coordinates: a tag byte, and after it what the tag
/// announces. Tag 0 stands alone; tags 2, 3 and 5 come before one
/// coordinate; tag 4 comes before two.
pub open spec fn sec1_well_formed(bytes: Seq<u8>) -> bool {
    bytes.len() > 0 && if bytes[0] == 0 {
        bytes.len() == 1
    } else if bytes[0] == 2 || bytes[0] == 3 || bytes[0] == 5 {
        bytes.len() == 33
    } else if bytes[0] == 4 {
        bytes.len() == 65
    } else {
        false
    }
}

/// The uncompressed SEC1 encoding of the secp256k1 public key that an
/// encoded point stands for, where it stands for one.
pub uninterp spec fn secp256k1_uncompressed(point: Seq<u8>) -> Option<Seq<u8>>;

/// The Ethereum address of a public key given by its two coordinates.
pub uninterp spec fn keccak_address(raw_public_key: Seq<u8>) -> Seq<u8>;

/// Parses bytes as an encoded point with `EncodedPoint::from_bytes`, makes a
/// key of it with `VerifyingKey::from_encoded_point`, and encodes the key
/// again, uncompressed, with `VerifyingKey::to_encoded_point`: all three of
/// the k256 crate. The parse refuses bytes that are not well-formed. A key is
/// never the point at infinity, so its uncompressed encoding is the tag 4 and
/// two coordinates of 32 bytes.
#[verifier::external_body]
pub(crate) fn uncompressed_public_key(point: &[u8]) -> (r: Option<Vec<u8>>)
    ensures
        r is Some <==> secp256k1_uncompressed(point@) is Some,
        r matches Some(key) ==> secp256k1_uncompressed(point@) == Some(key@) && key@.len() == 65,
        !sec1_well_formed(point@) ==> r is None,
{
    let encoded_point = EncodedPoint::from_bytes(point).ok()?;
    let verifying_key = VerifyingKey::from_encoded_point(&encoded_point).ok()?;
    Some(verifying_key.to_encoded_point(false).as_bytes().to_vec())
}

/// `raw_public_key_to_address` of ethers_core: the last 20 bytes of the
/// Keccak-256 hash of the key's 64 bytes. It panics on any other length.
#[verifier::external_body]
pub(crate) fn address_of_raw_key(raw_public_key: &[u8]) -> (address: [u8; 20])
    requires
        raw_public_key@.len() == 64,
    ensures
        address@ == keccak_address(raw_public_key@),
{
    raw_public_key_to_address(raw_public_key).0
}

/// Tells whether bytes have the form of an encoded curve point.
pub fn is_sec1_well_formed(bytes: &[u8]) -> (well_formed: bool)
    ensures
        well_formed == sec1_well_formed(bytes@),
{
    if bytes.len() == 0 {
        false
    } else if bytes[0] == 0 {
        bytes.len() == 1
    } else if bytes[0] == 2 || bytes[0] == 3 || bytes[0] == 5 {
        bytes.len() == 33
    } else if bytes[0] == 4 {
        bytes.len() == 65
    } else {
        false
    }
}

/// The Ethereum address of the key that an encoded point stands for: the
/// address of the two coordinates of its uncompressed encoding.
pub open spec fn spec_eth_address(public_key: Seq<u8>) -> Result<Seq<u8>, CryptoError> {
    if !sec1_well_formed(public_key) {
        Err(CryptoError::InvalidEncoding)
    } else {
        match secp256k1_uncompressed(public_key) {
            None => Err(CryptoError::InvalidPoint),
            Some(uncompressed) => Ok(keccak_address(uncompressed.subrange(1, 65))),
        }
    }
}

/// Converts a compressed verifying key to an Ethereum address.
pub fn public_key_to_eth_address(compressed_public_key: Vec<u8>) -> (r: Result<H160, CryptoError>)
    ensures
        match r {
            Ok(address) => spec_eth_address(compressed_public_key@) == Ok::<_, CryptoError>(
                address@,
            ),
            Err(e) => spec_eth_address(compressed_public_key@) == Err::<Seq<u8>, _>(e),
        },
{
    match uncompressed_public_key(compressed_public_key.as_slice()) {
        Some(uncompressed) => {
            let coordinates = slice_subrange(uncompressed.as_slice(), 1, 65);
            Ok(H160(address_of_raw_key(coordinates)))
        },
        None => if is_sec1_well_formed(compressed_public_key.as_slice()) {
            Err(CryptoError::InvalidPoint)
        } else {
            Err(CryptoError::InvalidEncoding)
        },
    }
}

/// The address depends on the key's bytes alone, and there is one exactly
/// for the well-formed encodings of a public key: bytes of a length that no
/// encoding has, and bytes that stand for no key on the curve, give an
/// error.
pub proof fn lemma_eth_address_total(first: Seq<u8>, second: Seq<u8>)
    ensures
        first == second ==> spec_eth_address(first) == spec_eth_address(second),
        spec_eth_address(first) is Ok <==> sec1_well_formed(first) && secp256k1_uncompressed(
            first,
        ) is Some,
        first.len() != 33 && first.len() != 65 && first.len() != 1 ==> spec_eth_address(first)
            == Err::<Seq<u8>, _>(CryptoError::InvalidEncoding),
        sec1_well_formed(first) && secp256k1_uncompressed(first) is None ==> spec_eth_address(
            first,
        ) == Err::<Seq<u8>, _>(CryptoError::InvalidPoint),
{
}

/// The name under which a visibility is shown.
pub open spec fn visibility_label(visibility: KeyVisibilityView) -> Seq<char> {
    match visibility {
        KeyVisibilityView::Public => "Public"@,
        KeyVisibilityView::Permissioned => "Permissioned"@,
        KeyVisibilityView::Private(_) => "Private"@,
    }
}

/// The colour in which a visibility is shown.
pub open spec fn visibility_color(visibility: KeyVisibilityView) -> Seq<char> {
    match visibility {
        KeyVisibilityView::Public => "green"@,
        KeyVisibilityView::Permissioned => "amber"@,
        KeyVisibilityView::Private(_) => "red"@,
    }
}

/// A registered account as the page shows it.
#[derive(Debug)]
pub struct RegisteredAccount {
    pub account_id: AccountId32,
    /// The visibility's name and its colour.
    pub key_visibility: (String, String),
    pub verifying_key: HexVec,
    /// The address derived from the verifying key, where it has one.
    pub ethereum_address: Option<H160>,
    /// The hashes of the account's programs, shortened.
    pub program_pointers: Vec<String>,
    pub program_modification_account: AccountId32,
}

/// Whether `account` is the row of the account `account_id` with the record
/// `info`.
pub open spec fn is_account_row(
    account: RegisteredAccount,
    account_id: Seq<u8>,
    info: RegisteredInfoView,
) -> bool {
    &&& account.account_id@ == account_id
    &&& account.key_visibility.0@ == visibility_label(info.key_visibility)
    &&& account.key_visibility.1@ == visibility_color(info.key_visibility)
    &&& account.verifying_key@ == info.verifying_key
    &&& match spec_eth_address(info.verifying_key) {
        Ok(address) => account.ethereum_address matches Some(a) && a@ == address,
        Err(_) => account.ethereum_address is None,
    }
    &&& account.program_pointers@.len() == info.programs_data.len()
    &&& forall|i: int|
        0 <= i < info.programs_data.len() ==> (#[trigger] account.program_pointers@[i])@
            == short_hex_text(info.programs_data[i].program_pointer)
    &&& account.program_modification_account@ == info.program_modification_account
}

/// Whether `account` is the row that a storage entry of the account map
/// gives.
pub open spec fn is_account_entry_row(account: RegisteredAccount, entry: (Seq<u8>, Seq<u8>)) -> bool {
    spec_registered_info(entry.1) matches Ok(info) && is_account_row(
        account,
        crate::identity::identity_of(entry.0),
        info,
    )
}

impl RegisteredAccount {
    /// Makes the row of an account. A verifying key from which no address
    /// can be derived leaves the address out; it is no error.
    pub fn new(account_id: AccountId32, registered_info: RegisteredInfo) -> (account:
        RegisteredAccount)
        ensures
            is_account_row(account, account_id@, registered_info@),
    {
        let RegisteredInfo {
            key_visibility,
            verifying_key,
            programs_data,
            program_modification_account,
        } = registered_info;
        let labels = match key_visibility {
            KeyVisibility::Public => (String::from_str("Public"), String::from_str("green")),
            KeyVisibility::Permissioned => (
                String::from_str("Permissioned"),
                String::from_str("amber"),
            ),
            KeyVisibility::Private(_) => (String::from_str("Private"), String::from_str("red")),
        };
        let shown_key = HexVec::new(slice_to_vec(verifying_key.as_slice()));
        let ethereum_address = match public_key_to_eth_address(verifying_key) {
            Ok(address) => Some(address),
            Err(_) => None,
        };
        let mut program_pointers: Vec<String> = Vec::new();
        let mut i: usize = 0;
        while i < programs_data.len()
            invariant
                i <= programs_data@.len(),
                program_pointers@.len() == i,
                forall|j: int|
                    0 <= j < i ==> (#[trigger] program_pointers@[j])@ == short_hex_text(
                        programs_data@[j].program_pointer@,
                    ),
            decreases programs_data@.len() - i,
        {
            program_pointers.push(short_hex(programs_data[i].program_pointer.0.as_slice()));
            i += 1;
        }
        RegisteredAccount {
            account_id,
            key_visibility: labels,
            verifying_key: shown_key,
            ethereum_address,
            program_pointers,
            program_modification_account,
        }
    }
}

/// Decodes one entry of the account map into its row.
pub fn decode_account_entry(entry: &RawStorageEntry) -> (r: Result<RegisteredAccount, DecodeError>)
    ensures
        match r {
            Ok(account) => is_account_entry_row(account, entry@),
            Err(e) => spec_registered_info(entry@.1) == Err::<RegisteredInfoView, _>(e),
        },
{
    let account_id = AccountId32(entry.key.identity());
    match decode_registered_info(entry.value.as_slice()) {
        Err(e) => Err(e),
        Ok(info) => Ok(RegisteredAccount::new(account_id, info)),
    }
}

/// Decodes the entries of the account map into rows, in the order of the
/// entries. One entry that cannot be decoded fails the whole list, with the
/// error of the first such entry.
pub fn get_registered_accounts(entries: &Vec<RawStorageEntry>) -> (r: Result<
    Vec<RegisteredAccount>,
    DecodeError,
>)
    ensures
        match r {
            Ok(accounts) => accounts@.len() == entries@.len() && forall|i: int|
                0 <= i < entries@.len() ==> is_account_entry_row(
                    #[trigger] accounts@[i],
                    entries@[i]@,
                ),
            Err(e) => exists|i: int|
                0 <= i < entries@.len() && spec_registered_info(#[trigger] entries@[i]@.1)
                    == Err::<RegisteredInfoView, _>(e) && forall|j: int|
                    0 <= j < i ==> spec_registered_info(#[trigger] entries@[j]@.1) is Ok,
        },
{
    let mut accounts: Vec<RegisteredAccount> = Vec::new();
    let mut i: usize = 0;
    while i < entries.len()
        invariant
            i <= entries@.len(),
            accounts@.len() == i,
            forall|j: int|
                0 <= j < i ==> is_account_entry_row(#[trigger] accounts@[j], entries@[j]@),
            forall|j: int| 0 <= j < i ==> spec_registered_info(#[trigger] entries@[j]@.1) is Ok,
        decreases entries@.len() - i,
    {
        match decode_account_entry(&entries[i]) {
            Err(e) => {
                return Err(e);
            },
            Ok(account) => {
                accounts.push(account);
            },
        }
        i += 1;
    }
    Ok(accounts)
}

} // verus!
