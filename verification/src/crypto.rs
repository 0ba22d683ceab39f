//! The signing adapter.
//!
//! The asymmetric-key primitive itself is off the shelf; this module wraps
//! it into the envelope's signature-entry format. Signing is deterministic,
//! so its result is named (`ed25519_sig`) and everything downstream is
//! stated over that name.

use vstd::prelude::*;

verus! {

/// The 64-byte signature that the signing primitive produces for `msg`
/// under the 32-byte secret key `key`. The scheme is deterministic: the
/// bytes are a function of the key and the message alone.
pub uninterp spec fn ed25519_sig(key: Seq<u8>, msg: Seq<u8>) -> Seq<u8>;

/// A private signing key: the 32 secret bytes of the signature scheme.
#[derive(Debug)]
pub struct SecretKey {
    pub bytes: Vec<u8>,
}

/// A secret key holds exactly the 32 secret bytes.
pub open spec fn secret_key_wf(k: SecretKey) -> bool {
    k.bytes@.len() == 32
}

/// A public verification key, as its raw bytes. The library only carries
/// these into the envelope; it never verifies with them itself.
#[derive(Debug)]
pub struct PublicKey {
    pub bytes: Vec<u8>,
}

impl SecretKey {
    /// The key made of exactly 32 secret bytes; any other length is
    /// rejected.
    pub fn from_bytes(bytes: Vec<u8>) -> (r: Result<SecretKey, crate::error::ErrorKind>)
        ensures
            bytes@.len() == 32 ==> (r matches Ok(k) && k.bytes@ == bytes@),
            bytes@.len() != 32 ==> (r matches Err(e) && crate::error::is_parse_error(e)),
    {
        if bytes.len() == 32 {
            Ok(SecretKey { bytes })
        } else {
            Err(crate::error::ErrorKind::Parse("32 secret key bytes"))
        }
    }

    /// A second key with the same secret bytes.
    pub fn duplicate(&self) -> (r: SecretKey)
        ensures
            r.bytes@ == self.bytes@,
    {
        let mut copy: Vec<u8> = Vec::new();
        let mut i: usize = 0;
        while i < self.bytes.len()
            invariant
                i <= self.bytes@.len(),
                copy@ == self.bytes@.take(i as int),
            decreases self.bytes@.len() - i,
        {
            copy.push(self.bytes[i]);
            i = i + 1;
            proof {
                assert(copy@ =~= self.bytes@.take(i as int));
            }
        }
        proof {
            assert(copy@ =~= self.bytes@);
        }
        SecretKey { bytes: copy }
    }
}

/// Relies on `ed25519_dalek::SigningKey::from_bytes`, `Signer::sign` and
/// `Signature::to_vec`: the signature of `msg` under the 32-byte secret
/// key, 64 bytes long. The scheme signs deterministically, so the result
/// depends on the key and the message alone and carries the name
/// `ed25519_sig`.
#[verifier::external_body]
fn ed25519_sign(key: &Vec<u8>, msg: &Vec<u8>) -> (r: Vec<u8>)
    requires
        key@.len() == 32,
    ensures
        r@ == ed25519_sig(key@, msg@),
        r@.len() == 64,
{
    let secret: [u8; 32] = key.as_slice().try_into().unwrap();
    let signer = ed25519_dalek::SigningKey::from_bytes(&secret);
    let signature = ed25519_dalek::Signer::sign(&signer, msg.as_slice());
    signature.to_vec()
}

/// One entry of a transaction's signature list. The wire format
/// distinguishes a simple signature from an owner signature set: for
/// operations that create or mutate a file, each explicitly added signature
/// is nested as a single-element signature list.
#[derive(Debug)]
pub enum SignatureEntry {
    /// A flat signature.
    Single(Vec<u8>),
    /// A signature nested as a single-element signature list.
    Wrapped(Vec<u8>),
}

/// The mathematical shape of a signature entry.
pub enum SigEntryModel {
    Single(Seq<u8>),
    Wrapped(Seq<u8>),
}

impl View for SignatureEntry {
    type V = SigEntryModel;

    open spec fn view(&self) -> SigEntryModel {
        match self {
            SignatureEntry::Single(sig) => SigEntryModel::Single(sig@),
            SignatureEntry::Wrapped(sig) => SigEntryModel::Wrapped(sig@),
        }
    }
}

/// The models of a list of signature entries.
pub open spec fn entries_model(entries: Seq<SignatureEntry>) -> Seq<SigEntryModel> {
    entries.map_values(|e: SignatureEntry| e@)
}

/// The entry that signing the frozen bytes `msg` with `key` produces:
/// wrapped as a nested list when `wrap` holds, flat otherwise.
pub open spec fn spec_sign_envelope(key: Seq<u8>, msg: Seq<u8>, wrap: bool) -> SigEntryModel {
    if wrap {
        SigEntryModel::Wrapped(ed25519_sig(key, msg))
    } else {
        SigEntryModel::Single(ed25519_sig(key, msg))
    }
}

/// Signs the frozen canonical bytes once and shapes the signature for the
/// envelope: nested as a single-element list when `wrap` holds (the file
/// operations), flat otherwise.
pub fn sign_envelope(secret: &SecretKey, body_bytes: &Vec<u8>, wrap: bool) -> (r: SignatureEntry)
    requires
        secret_key_wf(*secret),
    ensures
        r@ == spec_sign_envelope(secret.bytes@, body_bytes@, wrap),
{
    let signature = ed25519_sign(&secret.bytes, body_bytes);
    if wrap {
        SignatureEntry::Wrapped(signature)
    } else {
        SignatureEntry::Single(signature)
    }
}

} // verus!
