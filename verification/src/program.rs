//! Stored programs: the record that the chain keeps of each, and the row
//! that the page shows.

use crate::codec::{
    read_array32, read_byte_string, read_u128, spec_byte_string, spec_take, spec_u128,
    DecodeError,
};
use crate::display::{hex_encode, hex_text, short_hex, short_hex_text};
use crate::identity::{AccountId32, H256};
use crate::scan::RawStorageEntry;
use vstd::prelude::*;
use vstd::string::StringExecFns;

verus! {

/// What the chain stores of a program.
#[derive(Clone, Debug, PartialEq, Eq)]
pub struct ProgramInfo {
    /// The program's code.
    pub bytecode: Vec<u8>,
    /// A description of the configuration that the program takes; empty
    /// where it takes none.
    pub configuration_interface: Vec<u8>,
    /// The account that stored the program.
    pub deployer: AccountId32,
    /// How many accounts use the program.
    pub ref_counter: u128,
}

/// A `ProgramInfo` as plain values.
pub struct ProgramInfoView {
    pub bytecode: Seq<u8>,
    pub configuration_interface: Seq<u8>,
    pub deployer: Seq<u8>,
    pub ref_counter: u128,
}

impl View for ProgramInfo {
    type V = ProgramInfoView;

    open spec fn view(&self) -> ProgramInfoView {
        ProgramInfoView {
            bytecode: self.bytecode@,
            configuration_interface: self.configuration_interface@,
            deployer: self.deployer@,
            ref_counter: self.ref_counter,
        }
    }
}

/// The program record that a stored value encodes: the code and the
/// configuration interface as byte strings, the deployer's 32 bytes, and the
/// use count as a 128-bit number. Bytes after the last field are ignored.
pub open spec fn spec_program_info(input: Seq<u8>) -> Result<ProgramInfoView, DecodeError> {
    match spec_byte_string(input) {
        Err(e) => Err(e),
        Ok((bytecode, after_code)) => match spec_byte_string(after_code) {
            Err(e) => Err(e),
            Ok((configuration_interface, after_interface)) => match spec_take(
                after_interface,
                32,
            ) {
                Err(e) => Err(e),
                Ok((deployer, after_deployer)) => match spec_u128(after_deployer) {
                    Err(e) => Err(e),
                    Ok((ref_counter, _)) => Ok(
                        ProgramInfoView {
                            bytecode,
                            configuration_interface,
                            deployer,
                            ref_counter,
                        },
                    ),
                },
            },
        },
    }
}

/// Decodes the stored value of a program.
pub fn decode_program_info(input: &[u8]) -> (r: Result<ProgramInfo, DecodeError>)
    ensures
        match r {
            Ok(info) => spec_program_info(input@) == Ok::<_, DecodeError>(info@),
            Err(e) => spec_program_info(input@) == Err::<ProgramInfoView, _>(e),
        },
{
    let (bytecode, rest) = match read_byte_string(input) {
        Ok(read) => read,
        Err(e) => {
            return Err(e);
        },
    };
    let (configuration_interface, rest) = match read_byte_string(rest) {
        Ok(read) => read,
        Err(e) => {
            return Err(e);
        },
    };
    let (deployer, rest) = match read_array32(rest) {
        Ok(read) => read,
        Err(e) => {
            return Err(e);
        },
    };
    let (ref_counter, _) = match read_u128(rest) {
        Ok(read) => read,
        Err(e) => {
            return Err(e);
        },
    };
    Ok(ProgramInfo { bytecode, configuration_interface, deployer: AccountId32(deployer), ref_counter })
}

/// A stored program under its hash.
#[derive(Clone, Debug, PartialEq, Eq)]
pub struct ProgramRecord {
    /// The hash of the program's code, by which it is found.
    pub hash: H256,
    pub info: ProgramInfo,
}

impl View for ProgramRecord {
    type V = (Seq<u8>, ProgramInfoView);

    open spec fn view(&self) -> (Seq<u8>, ProgramInfoView) {
        (self.hash@, self.info@)
    }
}

/// The record that a storage entry of the program map gives: the identity
/// of its key, and the program that its value encodes.
pub open spec fn spec_program_entry(entry: (Seq<u8>, Seq<u8>)) -> Result<
    (Seq<u8>, ProgramInfoView),
    DecodeError,
> {
    match spec_program_info(entry.1) {
        Err(e) => Err(e),
        Ok(info) => Ok((crate::identity::identity_of(entry.0), info)),
    }
}

/// Decodes one entry of the program map.
pub fn decode_program_entry(entry: &RawStorageEntry) -> (r: Result<ProgramRecord, DecodeError>)
    ensures
        match r {
            Ok(record) => spec_program_entry(entry@) == Ok::<_, DecodeError>(record@),
            Err(e) => spec_program_entry(entry@) == Err::<(Seq<u8>, ProgramInfoView), _>(e),
        },
{
    let hash = H256(entry.key.identity());
    match decode_program_info(entry.value.as_slice()) {
        Err(e) => Err(e),
        Ok(info) => Ok(ProgramRecord { hash, info }),
    }
}

/// Decodes the entries of the program map, in the order of the entries. One
/// entry that cannot be decoded fails the whole list, with the error of the
/// first such entry.
pub fn get_programs(entries: &Vec<RawStorageEntry>) -> (r: Result<Vec<ProgramRecord>, DecodeError>)
    ensures
        match r {
            Ok(programs) => programs@.len() == entries@.len() && forall|i: int|
                0 <= i < entries@.len() ==> spec_program_entry(#[trigger] entries@[i]@)
                    == Ok::<_, DecodeError>(programs@[i]@),
            Err(e) => exists|i: int|
                0 <= i < entries@.len() && spec_program_entry(#[trigger] entries@[i]@) == Err::<
                    (Seq<u8>, ProgramInfoView),
                    _,
                >(e) && forall|j: int|
                    0 <= j < i ==> spec_program_entry(#[trigger] entries@[j]@) is Ok,
        },
{
    let mut programs: Vec<ProgramRecord> = Vec::new();
    let mut i: usize = 0;
    while i < entries.len()
        invariant
            i <= entries@.len(),
            programs@.len() == i,
            forall|j: int|
                0 <= j < i ==> spec_program_entry(#[trigger] entries@[j]@) == Ok::<
                    _,
                    DecodeError,
                >(programs@[j]@),
        decreases entries@.len() - i,
    {
        match decode_program_entry(&entries[i]) {
            Err(e) => {
                return Err(e);
            },
            Ok(record) => {
                programs.push(record);
            },
        }
        i += 1;
    }
    Ok(programs)
}

/// Where the metadata service is reached unless the configuration says
/// otherwise.
pub const PROGRAM_METADATA_SERVICE: &'static str = "http://127.0.0.1:3000";

/// The address at which a service at `base` describes the program `hash`.
pub open spec fn spec_metadata_url(base: Seq<char>, hash: Seq<u8>) -> Seq<char> {
    base + "/program/"@ + hex_text(hash)
}

/// The address to ask for the description of a program.
pub fn metadata_url(base: &str, hash: &H256) -> (url: String)
    ensures
        url@ == spec_metadata_url(base@, hash@),
{
    let mut url = String::from_str(base);
    url.append("/program/");
    let key = hex_encode(hash.0.as_slice());
    url.append(key.as_str());
    url
}

/// A JSON value as `serde_json` holds it.
#[verifier::external_type_specification]
#[verifier::external_body]
pub struct ExJsonValue(serde_json::Value);

/// The member that a JSON object has under a key. A value that is no object
/// has no members.
pub uninterp spec fn json_member(value: serde_json::Value, key: Seq<char>) -> Option<
    serde_json::Value,
>;

/// The text of a JSON string. A value that is no string has none.
pub uninterp spec fn json_text(value: serde_json::Value) -> Option<Seq<char>>;

/// `Value::get` of serde_json with a text as the index: the member of an
/// object under that key, and nothing for a missing key or a value that is
/// no object.
#[verifier::external_body]
pub(crate) fn json_get<'a>(value: &'a serde_json::Value, key: &str) -> (member: Option<
    &'a serde_json::Value,
>)
    ensures
        match member {
            Some(found) => json_member(*value, key@) == Some(*found),
            None => json_member(*value, key@) is None,
        },
{
    value.get(key)
}

/// `Value::as_str` of serde_json: the text of a string, and nothing for any
/// other value.
#[verifier::external_body]
pub(crate) fn json_as_str<'a>(value: &'a serde_json::Value) -> (text: Option<&'a str>)
    ensures
        match text {
            Some(found) => json_text(*value) == Some(found@),
            None => json_text(*value) is None,
        },
{
    value.as_str()
}

/// The JSON value that a text holds, where it is well-formed JSON.
pub uninterp spec fn parsed_json(body: Seq<char>) -> Option<serde_json::Value>;

/// `serde_json::from_str` for a `Value`: the value that the text holds, and
/// nothing for a text that is not well-formed JSON.
#[verifier::external_body]
pub(crate) fn parse_json(body: &str) -> (value: Option<serde_json::Value>)
    ensures
        value == parsed_json(body@),
{
    match serde_json::from_str::<serde_json::Value>(body) {
        Ok(value) => Some(value),
        Err(_) => None,
    }
}

/// `Clone::clone` of a `serde_json::Value`: an equal value.
#[verifier::external_body]
pub(crate) fn json_clone(value: &serde_json::Value) -> (copy: serde_json::Value)
    ensures
        copy == *value,
{
    value.clone()
}

/// The text of an optional field.
pub open spec fn opt_text(field: Option<String>) -> Option<Seq<char>> {
    match field {
        Some(text) => Some(text@),
        None => None,
    }
}

/// The text that a JSON object holds under a key. There is none where the
/// value is no object, has no such member, or has one that is no string.
pub open spec fn json_text_member(value: serde_json::Value, key: Seq<char>) -> Option<Seq<char>> {
    match json_member(value, key) {
        Some(member) => json_text(member),
        None => None,
    }
}

/// Reads the text that a JSON object holds under a key.
pub fn json_text_of(value: &serde_json::Value, key: &str) -> (text: Option<String>)
    ensures
        opt_text(text) == json_text_member(*value, key@),
{
    match json_get(value, key) {
        None => None,
        Some(member) => match json_as_str(member) {
            None => None,
            Some(text) => Some(String::from_str(text)),
        },
    }
}

/// What the metadata service says of a package.
#[derive(Debug)]
pub struct PackageDescriptor {
    pub name: String,
    pub version: String,
    pub description: Option<String>,
    pub license: Option<String>,
    pub repository: Option<String>,
    /// What the package's manifest holds under `package.metadata`, if it
    /// holds anything there.
    pub metadata: Option<serde_json::Value>,
}

/// A `PackageDescriptor` as plain values.
pub struct PackageView {
    pub name: Seq<char>,
    pub version: Seq<char>,
    pub description: Option<Seq<char>>,
    pub license: Option<Seq<char>>,
    pub repository: Option<Seq<char>>,
    pub metadata: Option<serde_json::Value>,
}

impl View for PackageDescriptor {
    type V = PackageView;

    open spec fn view(&self) -> PackageView {
        PackageView {
            name: self.name@,
            version: self.version@,
            description: opt_text(self.description),
            license: opt_text(self.license),
            repository: opt_text(self.repository),
            metadata: self.metadata,
        }
    }
}

/// A package that was found or not, as plain values.
pub open spec fn opt_package(package: Option<PackageDescriptor>) -> Option<PackageView> {
    match package {
        Some(package) => Some(package@),
        None => None,
    }
}

/// The package that a JSON value describes. It describes one where it is
/// an object with a text under `name` and a text under `version`. The
/// description, the license and the repository are the texts under those
/// keys, each left out where the object holds no text there, and the
/// metadata is the member under `metadata`.
pub open spec fn spec_package(descriptor: serde_json::Value) -> Option<PackageView> {
    match (json_text_member(descriptor, "name"@), json_text_member(descriptor, "version"@)) {
        (Some(name), Some(version)) => Some(
            PackageView {
                name,
                version,
                description: json_text_member(descriptor, "description"@),
                license: json_text_member(descriptor, "license"@),
                repository: json_text_member(descriptor, "repository"@),
                metadata: json_member(descriptor, "metadata"@),
            },
        ),
        _ => None,
    }
}

impl PackageDescriptor {
    /// Reads a package from the JSON value that describes it.
    pub fn from_json(descriptor: &serde_json::Value) -> (package: Option<PackageDescriptor>)
        ensures
            opt_package(package) == spec_package(*descriptor),
    {
        let name = match json_text_of(descriptor, "name") {
            Some(name) => name,
            None => {
                return None;
            },
        };
        let version = match json_text_of(descriptor, "version") {
            Some(version) => version,
            None => {
                return None;
            },
        };
        let metadata = match json_get(descriptor, "metadata") {
            Some(metadata) => Some(json_clone(metadata)),
            None => None,
        };
        Some(
            PackageDescriptor {
                name,
                version,
                description: json_text_of(descriptor, "description"),
                license: json_text_of(descriptor, "license"),
                repository: json_text_of(descriptor, "repository"),
                metadata,
            },
        )
    }
}

/// What became of one request to the metadata service.
#[derive(Clone, Debug, PartialEq, Eq)]
pub enum LookupResponse {
    /// No answer came.
    Unreachable,
    /// The service answered.
    Answered { status: u16, body: String },
}

/// The package that a lookup found: the one that the body of an answer with
/// a status from 200 to 299 describes. Any other outcome finds nothing.
pub open spec fn spec_lookup_package(response: LookupResponse) -> Option<PackageView> {
    match response {
        LookupResponse::Unreachable => None,
        LookupResponse::Answered { status, body } => if 200 <= status <= 299 {
            match parsed_json(body@) {
                Some(descriptor) => spec_package(descriptor),
                None => None,
            }
        } else {
            None
        },
    }
}

/// Reads the description of a program from what the metadata service
/// answered. If there is any problem, there is none.
pub fn get_program_metadata(response: &LookupResponse) -> (package: Option<PackageDescriptor>)
    ensures
        opt_package(package) == spec_lookup_package(*response),
{
    match response {
        LookupResponse::Unreachable => None,
        LookupResponse::Answered { status, body } => if 200 <= *status && *status <= 299 {
            match parse_json(body.as_str()) {
                Some(descriptor) => PackageDescriptor::from_json(&descriptor),
                None => None,
            }
        } else {
            None
        },
    }
}

/// The container image that a package names: the text under `docker-image`
/// in the object under `entropy-program` of the package's metadata.
pub open spec fn spec_docker_image(metadata: serde_json::Value) -> Option<Seq<char>> {
    match json_member(metadata, "entropy-program"@) {
        Some(program) => json_text_member(program, "docker-image"@),
        None => None,
    }
}

/// Finds the container image in a package's metadata. A manifest gives it
/// as `docker-image` in the table `package.metadata.entropy-program`.
pub fn get_docker_image_name_from_metadata(metadata: &serde_json::Value) -> (image: Option<String>)
    ensures
        opt_text(image) == spec_docker_image(*metadata),
{
    match json_get(metadata, "entropy-program") {
        None => None,
        Some(program) => json_text_of(program, "docker-image"),
    }
}

/// What the page shows of a program's package.
#[derive(Clone, Debug, PartialEq, Eq)]
pub struct ProgramMetadata {
    pub name: String,
    pub version: String,
    pub description: Option<String>,
    pub license: Option<String>,
    pub repository: Option<String>,
    pub docker_image: Option<String>,
}

/// A `ProgramMetadata` as plain values.
pub struct ProgramMetadataView {
    pub name: Seq<char>,
    pub version: Seq<char>,
    pub description: Option<Seq<char>>,
    pub license: Option<Seq<char>>,
    pub repository: Option<Seq<char>>,
    pub docker_image: Option<Seq<char>>,
}

impl View for ProgramMetadata {
    type V = ProgramMetadataView;

    open spec fn view(&self) -> ProgramMetadataView {
        ProgramMetadataView {
            name: self.name@,
            version: self.version@,
            description: opt_text(self.description),
            license: opt_text(self.license),
            repository: opt_text(self.repository),
            docker_image: opt_text(self.docker_image),
        }
    }
}

/// What is shown of a package: its fields as they are, and the container
/// image from its metadata.
pub open spec fn spec_program_metadata(package: PackageView) -> ProgramMetadataView {
    ProgramMetadataView {
        name: package.name,
        version: package.version,
        description: package.description,
        license: package.license,
        repository: package.repository,
        docker_image: match package.metadata {
            Some(metadata) => spec_docker_image(metadata),
            None => None,
        },
    }
}

impl ProgramMetadata {
    /// What is shown of a package.
    pub fn new(package: PackageDescriptor) -> (metadata: ProgramMetadata)
        ensures
            metadata@ == spec_program_metadata(package@),
    {
        let docker_image = match &package.metadata {
            Some(metadata) => get_docker_image_name_from_metadata(metadata),
            None => None,
        };
        ProgramMetadata {
            name: package.name,
            version: package.version,
            description: package.description,
            license: package.license,
            repository: package.repository,
            docker_image,
        }
    }
}

/// A stored program as the page shows it.
#[derive(Clone, Debug, PartialEq, Eq)]
pub struct Program {
    /// The program's hash, shortened.
    pub hash: String,
    pub deployer: AccountId32,
    pub ref_counter: u128,
    /// The length of the program's code in bytes.
    pub size: usize,
    /// Whether the program has a configuration interface.
    pub configurable: bool,
    pub metadata: Option<ProgramMetadata>,
}

/// A `Program` as plain values.
pub struct ProgramView {
    pub hash: Seq<char>,
    pub deployer: Seq<u8>,
    pub ref_counter: u128,
    pub size: nat,
    pub configurable: bool,
    pub metadata: Option<ProgramMetadataView>,
}

impl View for Program {
    type V = ProgramView;

    open spec fn view(&self) -> ProgramView {
        ProgramView {
            hash: self.hash@,
            deployer: self.deployer@,
            ref_counter: self.ref_counter,
            size: self.size as nat,
            configurable: self.configurable,
            metadata: match self.metadata {
                Some(metadata) => Some(metadata@),
                None => None,
            },
        }
    }
}

/// The row of a program: its hash shortened, its deployer and use count as
/// they are, the length of its code, whether its configuration interface
/// holds anything, and what is shown of its package where one was found.
pub open spec fn spec_program(
    hash: Seq<u8>,
    info: ProgramInfoView,
    package: Option<PackageView>,
) -> ProgramView {
    ProgramView {
        hash: short_hex_text(hash),
        deployer: info.deployer,
        ref_counter: info.ref_counter,
        size: info.bytecode.len(),
        configurable: info.configuration_interface.len() > 0,
        metadata: match package {
            Some(package) => Some(spec_program_metadata(package)),
            None => None,
        },
    }
}

impl Program {
    /// Makes the row of a program from its hash, its record, and the package
    /// that was found for it, if one was.
    pub fn new(hash: H256, program_info: ProgramInfo, metadata: Option<PackageDescriptor>) -> (program:
        Program)
        ensures
            program@ == spec_program(hash@, program_info@, opt_package(metadata)),
    {
        let metadata = match metadata {
            Some(package) => Some(ProgramMetadata::new(package)),
            None => None,
        };
        Program {
            hash: short_hex(hash.0.as_slice()),
            deployer: program_info.deployer,
            ref_counter: program_info.ref_counter,
            size: program_info.bytecode.len(),
            configurable: program_info.configuration_interface.len() > 0,
            metadata,
        }
    }
}

} // verus!
