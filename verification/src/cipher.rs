//! Provider credentials at rest: the local master key's identity, the
//! scope each credential key is derived for, and the checks a decryption
//! makes before any key material is used.

use vstd::prelude::*;
use vstd::string::*;
use crate::digest::{sha256_hex, sha256_hex_of};
use crate::text::{owned, str_eq};

verus! {

/// The algorithm tag of credentials encrypted by this library.
pub const PAYMENT_CREDENTIAL_ALGORITHM: &'static str = "aes256gcm-hkdf-v1";

/// The salt of the key derivation.
pub const HKDF_SALT: &'static str = "sdkwork.payment.provider-credential.v1";

/// What a credential key is derived for.
#[derive(Debug, Clone)]
pub struct CredentialCipherScope<'a> {
    pub tenant_id: &'a str,
    pub provider_account_id: &'a str,
    pub credential_kind: &'a str,
}

/// An encrypted credential as it is stored.
#[derive(Debug, Clone)]
pub struct EncryptedPaymentCredential {
    pub ciphertext: String,
    pub encryption_key_id: String,
    pub encryption_algorithm: String,
    pub fingerprint_sha256: String,
}

/// Encrypts and decrypts provider credentials for a scope.
pub trait PaymentCredentialCipher {
    fn encrypt(&self, scope: CredentialCipherScope<'_>, plaintext: &str) -> Result<EncryptedPaymentCredential, String>;

    fn decrypt(
        &self,
        scope: CredentialCipherScope<'_>,
        ciphertext: &str,
        encryption_key_id: &str,
        encryption_algorithm: &str,
    ) -> Result<String, String>;
}

/// The identity of a master key: `local-` and the first 16 hexadecimal
/// digits of its SHA-256 digest.
pub open spec fn local_key_id(master_key: Seq<u8>) -> Seq<char> {
    "local-"@ + sha256_hex(master_key).take(16)
}

/// The local master key and its identity.
pub struct LocalFilePaymentCredentialCipher {
    master_key: Vec<u8>,
    key_id: String,
}

impl LocalFilePaymentCredentialCipher {
    /// The master key bytes.
    pub closed spec fn master(&self) -> Seq<u8> {
        self.master_key@
    }

    /// The key identity.
    pub closed spec fn id(&self) -> Seq<char> {
        self.key_id@
    }

    /// A cipher over master key material of at least 32 bytes.
    pub fn from_key_material(master_key: Vec<u8>) -> (r: Result<Self, String>)
        ensures
            master_key@.len() < 32 ==> (r matches Err(e) && e@ == "payment credential master key is invalid"@),
            master_key@.len() >= 32 ==> (r matches Ok(c) && c.master() == master_key@ && c.id() == local_key_id(
                master_key@,
            )),
    {
        if master_key.len() < 32 {
            return Err(owned("payment credential master key is invalid"));
        }
        let digest = sha256_hex_of(master_key.as_slice());
        let head = digest.as_str().substring_char(0, 16);
        let mut key_id = owned("local-");
        key_id.append(head);
        Ok(LocalFilePaymentCredentialCipher { master_key, key_id })
    }

    /// The identity of this cipher's master key.
    pub fn key_id(&self) -> (r: &str)
        ensures
            r@ == self.id(),
    {
        self.key_id.as_str()
    }

    /// The master key bytes.
    pub fn master_key(&self) -> (r: &[u8])
        ensures
            r@ == self.master(),
    {
        self.master_key.as_slice()
    }
}

/// The derivation info of a scope's key: `tenant=<t>;account=<a>;kind=<k>`.
pub open spec fn derivation_info_spec(tenant: Seq<char>, account: Seq<char>, kind: Seq<char>) -> Seq<char> {
    "tenant="@ + tenant + ";account="@ + account + ";kind="@ + kind
}

/// The derivation info of the key for a scope.
pub fn derivation_info(scope: &CredentialCipherScope<'_>) -> (r: String)
    ensures
        r@ == derivation_info_spec(scope.tenant_id@, scope.provider_account_id@, scope.credential_kind@),
{
    let mut info = owned("tenant=");
    info.append(scope.tenant_id);
    info.append(";account=");
    info.append(scope.provider_account_id);
    info.append(";kind=");
    info.append(scope.credential_kind);
    info
}

/// Checks that a stored credential was encrypted by this cipher: under its
/// key identity and with this library's algorithm.
pub fn ensure_decryptable(cipher: &LocalFilePaymentCredentialCipher, encryption_key_id: &str, encryption_algorithm: &str) -> (r:
    Result<(), String>)
    ensures
        (encryption_key_id@ == cipher.id() && encryption_algorithm@ == PAYMENT_CREDENTIAL_ALGORITHM@) ==> r is Ok,
        !(encryption_key_id@ == cipher.id() && encryption_algorithm@ == PAYMENT_CREDENTIAL_ALGORITHM@) ==> (r matches Err(
            e,
        ) && e@ == "payment credential encryption key is unavailable"@),
{
    if !str_eq(encryption_key_id, cipher.key_id()) || !str_eq(encryption_algorithm, PAYMENT_CREDENTIAL_ALGORITHM) {
        return Err(owned("payment credential encryption key is unavailable"));
    }
    Ok(())
}

/// The record of an encrypted credential: its ciphertext, the cipher's key
/// identity, the algorithm and the SHA-256 fingerprint of the plaintext.
pub fn encrypted_credential(cipher: &LocalFilePaymentCredentialCipher, ciphertext: String, plaintext: &str) -> (r:
    EncryptedPaymentCredential)
    ensures
        r.ciphertext == ciphertext,
        r.encryption_key_id@ == cipher.id(),
        r.encryption_algorithm@ == PAYMENT_CREDENTIAL_ALGORITHM@,
        r.fingerprint_sha256@ == sha256_hex(plaintext.spec_bytes()),
{
    EncryptedPaymentCredential {
        ciphertext,
        encryption_key_id: owned(cipher.key_id()),
        encryption_algorithm: owned(PAYMENT_CREDENTIAL_ALGORITHM),
        fingerprint_sha256: sha256_hex_of(plaintext.as_bytes()),
    }
}

} // verus!
