//! Names of locally registered packages.

use sha2::{Digest, Sha256};
use vstd::prelude::*;
use vstd::string::*;

verus! {

/// `at` is the index of the last `@` in `name`.
pub open spec fn is_last_at(name: Seq<char>, at: int) -> bool {
    &&& 0 <= at < name.len()
    &&& name[at] == '@'
    &&& forall|later: int| at < later < name.len() ==> name[later] != '@'
}

/// `name` holds no `@`.
pub open spec fn has_no_at(name: Seq<char>) -> bool {
    forall|i: int| 0 <= i < name.len() ==> name[i] != '@'
}

/// `package` and `version` are the two sides of the last `@` in `name`.
pub open spec fn splits_into(name: Seq<char>, package: Seq<char>, version: Seq<char>) -> bool {
    exists|at: int|
        #![trigger is_last_at(name, at)]
        {
            &&& is_last_at(name, at)
            &&& package == name.subrange(0, at)
            &&& version == name.subrange(at + 1, name.len() as int)
        }
}

/// The address under which a locally registered package is filed.
pub open spec fn local_url_text(name: Seq<char>) -> Seq<char> {
    "file:///local/"@ + name
}

/// The message for a package name without a version.
pub open spec fn missing_version_message(name: Seq<char>) -> Seq<char> {
    "Expected name@version, got: "@ + name
}

/// Splits `name@version` at its last `@`. Fails, with a message that quotes
/// the input, when there is no `@`.
pub fn split_package_name(name: &str) -> (r: Result<(String, String), String>)
    ensures
        match r {
            Ok((package, version)) => splits_into(name@, package@, version@),
            Err(message) => has_no_at(name@) && message@ == missing_version_message(name@),
        },
{
    let len = name.unicode_len();
    let mut i: usize = len;
    while i > 0
        invariant
            len == name@.len(),
            0 <= i <= len,
            forall|k: int| i <= k < len ==> name@[k] != '@',
        decreases i,
    {
        if name.get_char(i - 1) == '@' {
            let package = String::from_str(name.substring_char(0, i - 1));
            let version = String::from_str(name.substring_char(i, len));
            assert(is_last_at(name@, i - 1));
            return Ok((package, version));
        }
        i -= 1;
    }
    let mut message = String::from_str("Expected name@version, got: ");
    message.append(name);
    Err(message)
}

/// The address under which the package `name` is filed locally.
pub fn local_package_url(name: &str) -> (r: String)
    ensures
        r@ == local_url_text(name@),
{
    let mut url = String::from_str("file:///local/");
    url.append(name);
    url
}

/// Whether `bytes` start like a WebAssembly module: a zero byte and `asm`.
pub open spec fn has_wasm_magic(bytes: Seq<u8>) -> bool {
    bytes.len() >= 4 && bytes[0] == 0 && bytes[1] == 0x61 && bytes[2] == 0x73 && bytes[3] == 0x6d
}

/// Tells a bare WebAssembly module from a package file by its first four bytes.
pub fn is_wasm_module(bytes: &[u8]) -> (r: bool)
    ensures
        r == has_wasm_magic(bytes@),
{
    bytes.len() >= 4 && bytes[0] == 0 && bytes[1] == 0x61 && bytes[2] == 0x73 && bytes[3] == 0x6d
}

/// The SHA-256 digest of a sequence of bytes.
pub uninterp spec fn sha256(bytes: Seq<u8>) -> Seq<u8>;

/// `Sha256::digest` of the `sha2` crate: hashes `bytes` in one go with a
/// fresh hasher. The digest depends on the bytes alone; which digest it is,
/// is not stated here, only given the name [`sha256`].
#[verifier::external_body]
fn sha256_digest(bytes: &[u8]) -> (digest: [u8; 32])
    ensures
        digest@ == sha256(bytes@),
{
    Sha256::digest(bytes).into()
}

/// What is filed for a locally registered package.
#[derive(Debug, Clone)]
pub struct LocalPackage {
    /// The package name, without the version.
    pub package: String,
    /// The version.
    pub version: String,
    /// The address the package is filed under.
    pub url: String,
    /// The SHA-256 digest of the package file.
    pub sha256: [u8; 32],
}

/// `entry` is what is filed for the package file with the given `digest`
/// that was registered as `name`.
pub open spec fn files_as(entry: LocalPackage, name: Seq<char>, digest: Seq<u8>) -> bool {
    &&& splits_into(name, entry.package@, entry.version@)
    &&& entry.url@ == local_url_text(name)
    &&& entry.sha256@ == digest
}

/// Files a package under `name`, given the digest of its file. Fails when
/// `name` is not of the form `name@version`.
pub fn local_package_entry(name: &str, digest: [u8; 32]) -> (r: Result<LocalPackage, String>)
    ensures
        match r {
            Ok(entry) => files_as(entry, name@, digest@),
            Err(message) => has_no_at(name@) && message@ == missing_version_message(name@),
        },
{
    match split_package_name(name) {
        Ok((package, version)) => Ok(
            LocalPackage { package, version, url: local_package_url(name), sha256: digest },
        ),
        Err(message) => Err(message),
    }
}

/// Files the package file `bytes` under `name`: splits the name, derives the
/// address, and hashes the file. Fails, without hashing, when `name` is not
/// of the form `name@version`.
pub fn describe_local_package(name: &str, bytes: &[u8]) -> (r: Result<LocalPackage, String>)
    ensures
        match r {
            Ok(entry) => files_as(entry, name@, sha256(bytes@)),
            Err(message) => has_no_at(name@) && message@ == missing_version_message(name@),
        },
{
    let digest = match split_package_name(name) {
        Ok(_) => sha256_digest(bytes),
        Err(message) => {
            return Err(message);
        },
    };
    local_package_entry(name, digest)
}

} // verus!
