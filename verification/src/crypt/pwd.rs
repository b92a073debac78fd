//! Password hashing: a salted digest under the process password key,
//! rendered with a scheme prefix so the scheme can evolve.
use vstd::prelude::*;
use vstd::string::StrSliceExecFns;
use vstd::string::StringExecFns;
use vstd::utf8::encode_utf8;

use crate::crypt::{sha256, sha256_of, Error, Result};
use crate::utils::{hex_encode_lower, spec_hex_lower, str_eq};

verus! {

/// The clear content and salt to hash.
pub struct EncryptContent {
    pub content: String,
    pub salt: String,
}

/// The bytes fed to the digest: key, then salt, then content.
pub open spec fn spec_pwd_material(key: Seq<u8>, salt: Seq<u8>, content: Seq<u8>) -> Seq<u8> {
    key + salt + content
}

/// The stored form of a password under the current scheme.
pub open spec fn spec_encrypted_pwd(key: Seq<u8>, enc_content: &EncryptContent) -> Seq<char> {
    "#01#"@ + spec_hex_lower(
        sha256_of(
            spec_pwd_material(
                key,
                encode_utf8(enc_content.salt@),
                encode_utf8(enc_content.content@),
            ),
        ),
    )
}

/// Hashes the content with the default scheme.
pub fn encrypt_pwd(enc_content: &EncryptContent, key: &[u8]) -> (r: Result<String>)
    ensures
        r matches Ok(s) && s@ == spec_encrypted_pwd(key@, enc_content),
{
    let mut material: Vec<u8> = Vec::new();
    material.extend_from_slice(key);
    let salt_bytes = enc_content.salt.as_str().as_bytes_vec();
    material.extend_from_slice(salt_bytes.as_slice());
    let content_bytes = enc_content.content.as_str().as_bytes_vec();
    material.extend_from_slice(content_bytes.as_slice());
    proof {
        assert(material@ =~= spec_pwd_material(
            key@,
            encode_utf8(enc_content.salt@),
            encode_utf8(enc_content.content@),
        ));
    }
    let digest = sha256(material.as_slice());
    let mut out = "#01#".to_owned();
    let hex = hex_encode_lower(digest.as_slice());
    out.append(hex.as_str());
    Ok(out)
}

/// Validates that the content hashes to the stored reference; the answer is
/// `Ok` exactly when it does, and a mismatch is the typed mismatch error.
pub fn validate_pwd(enc_content: &EncryptContent, pwd_ref: &str, key: &[u8]) -> (r: Result<()>)
    ensures
        (r is Ok) <==> pwd_ref@ == spec_encrypted_pwd(key@, enc_content),
        r is Err ==> r->Err_0 is PwdNotMatching,
{
    let pwd = match encrypt_pwd(enc_content, key) {
        Ok(p) => p,
        Err(e) => {
            return Err(e);
        },
    };
    if str_eq(pwd.as_str(), pwd_ref) {
        Ok(())
    } else {
        Err(Error::PwdNotMatching)
    }
}

} // verus!
