pub mod error;
pub mod hash;

use vstd::prelude::*;

use crate::sign::error::SignError;
use crate::sign::hash::{rows_to_json, FileHash};

verus! {

/// The standard base64 encoding, with padding, of `data`.
pub uninterp spec fn base64_of(data: Seq<u8>) -> Seq<char>;

/// Whether openssl parses `key` as a PEM private key and signs with
/// SHA-512 under it: a property of the key text alone (internal
/// allocation or entropy failures are set aside, as for the digests).
pub uninterp spec fn signing_key_ok(key: Seq<char>) -> bool;

/// Whether `sig` verifies under the key over `data` with SHA-512 — what
/// openssl's verifier decides, a function of the three values alone.
pub uninterp spec fn verifies_with(key: Seq<char>, data: Seq<u8>, sig: Seq<u8>) -> bool;

/// Relies on base64's standard engine: four output characters for every
/// three input bytes, padded.
#[verifier::external_body]
fn base64_encode(data: &Vec<u8>) -> (r: String)
    ensures
        r@ == base64_of(data@),
        r@.len() == 4 * ((data@.len() + 2) / 3),
{
    base64::Engine::encode(&base64::engine::general_purpose::STANDARD, data.as_slice())
}

/// Relies on openssl: PKey::private_key_from_pem, then a Signer over
/// SHA-512 fed `data` once. Success is the key's alone: parsing and
/// signing work exactly for valid signing keys, whatever the data. A
/// produced signature is never empty and verifies under the same key
/// over the same bytes.
#[verifier::external_body]
fn sign_with_key(key_pem: &str, data: &[u8]) -> (r: Result<Vec<u8>, String>)
    ensures
        r is Ok <==> signing_key_ok(key_pem@),
        r matches Ok(sig) ==> sig@.len() > 0 && verifies_with(key_pem@, data@, sig@),
{
    let keypair = openssl::pkey::PKey::private_key_from_pem(key_pem.as_bytes()).map_err(|e|
        format!("{}", e))?;
    let mut signer = openssl::sign::Signer::new(openssl::hash::MessageDigest::sha512(), &keypair)
        .map_err(|e| format!("{}", e))?;
    signer.update(data).map_err(|e| format!("{}", e))?;
    signer.sign_to_vec().map_err(|e| format!("{}", e))
}

/// Signs the package bytes with the private key and returns the signature
/// base64-encoded. Signing succeeds exactly for a valid signing key, and
/// a success encodes a non-empty signature that verifies under that key
/// over exactly these bytes. The signature value itself stays
/// existential: for some key kinds it is randomized.
pub fn sign_package(key_pem: &str, package: &Vec<u8>) -> (r: Result<String, SignError>)
    ensures
        r is Ok <==> signing_key_ok(key_pem@),
        r matches Ok(s) ==> exists|sig: Seq<u8>|
            sig.len() > 0 && verifies_with(key_pem@, package@, sig) && s@ == base64_of(sig),
        r matches Err(e) ==> e matches SignError::Ssl { .. },
{
    match sign_with_key(key_pem, package.as_slice()) {
        Ok(sig) => {
            let encoded = base64_encode(&sig);
            proof {
                assert(sig@.len() > 0 && verifies_with(key_pem@, package@, sig@) && encoded@
                    == base64_of(sig@));
            }
            Ok(encoded)
        },
        Err(message) => Err(SignError::Ssl { message }),
    }
}

/// Signs a string, as the hash-manifest signing mode does. Success is the
/// key's alone; the signature is over the string's bytes, whose byte view
/// a character-level contract cannot name, so only the encoding is fixed.
pub fn sign_string(string: &String, key: &String) -> (r: Result<String, SignError>)
    ensures
        r is Ok <==> signing_key_ok(key@),
        r matches Ok(s) ==> exists|sig: Seq<u8>| sig.len() > 0 && s@ == base64_of(sig),
        r matches Err(e) ==> e matches SignError::Ssl { .. },
{
    match sign_with_key(key.as_str(), string.as_str().as_bytes()) {
        Ok(sig) => Ok(base64_encode(&sig)),
        Err(message) => Err(SignError::Ssl { message }),
    }
}

/// The certificate that accompanies a signature manifest. None is
/// supplied: the field stays empty.
pub fn get_certificate(private_key: &String) -> (r: Result<String, SignError>)
    ensures
        r matches Ok(c) && c@ == Seq::<char>::empty(),
{
    let _ = private_key;
    Ok(String::new())
}

/// A signature manifest for an app: the hashed files, a signature over
/// their JSON form, and the accompanying certificate.
pub struct AppSignature {
    hashes: Vec<FileHash>,
    signature: String,
    certificate: String,
}

impl AppSignature {
    pub closed spec fn hashes_spec(&self) -> Seq<FileHash> {
        self.hashes@
    }

    pub closed spec fn signature_view(&self) -> Seq<char> {
        self.signature@
    }

    pub closed spec fn certificate_view(&self) -> Seq<char> {
        self.certificate@
    }

    pub fn hashes(&self) -> (r: &Vec<FileHash>)
        ensures
            r@ == self.hashes_spec(),
    {
        &self.hashes
    }

    pub fn signature(&self) -> (r: &String)
        ensures
            r@ == self.signature_view(),
    {
        &self.signature
    }

    pub fn certificate(&self) -> (r: &String)
        ensures
            r@ == self.certificate_view(),
    {
        &self.certificate
    }
}

/// Signs the hash manifest: the rows are serialized as the JSON object
/// the app store expects and the signature is taken over that string.
/// Signing succeeds exactly for a valid signing key; the rows are kept as
/// handed in, and the certificate field stays empty, as `get_certificate`
/// supplies it.
pub fn sign_app_manifest(rows: Vec<FileHash>, key: &String) -> (r: Result<AppSignature, SignError>)
    ensures
        r is Ok <==> signing_key_ok(key@),
        r matches Ok(s) ==> s.hashes_spec() == rows@ && s.certificate_view()
            == Seq::<char>::empty() && (exists|sig: Seq<u8>|
            sig.len() > 0 && s.signature_view() == base64_of(sig)),
        r matches Err(e) ==> e matches SignError::Ssl { .. },
{
    let manifest = match rows_to_json(&rows) {
        Ok(m) => m,
        Err(message) => {
            return Err(SignError::Other { message });
        },
    };
    let signature = match sign_string(&manifest, key) {
        Ok(s) => s,
        Err(e) => {
            return Err(e);
        },
    };
    let certificate = match get_certificate(key) {
        Ok(c) => c,
        Err(e) => {
            return Err(e);
        },
    };
    Ok(AppSignature { hashes: rows, signature, certificate })
}

} // verus!
