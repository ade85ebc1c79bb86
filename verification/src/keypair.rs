//! The signing identity of the host: an Ed25519 key pair, the textual
//! identifier of its public key, and detached signatures over payload bytes.
//!
//! The key pair comes from a versioned bundle. A bundle of version 1 holds
//! the seed itself; one of version 2 holds an encrypted device bundle that
//! has to be unlocked with a password first. This module decides what a
//! bundle calls for and what each outcome means; to read the bundle and to
//! unlock it is the caller's work.
//!
//! The secret stays in the key pair, which wipes it when it is dropped. A
//! seed that a bundle brings is overwritten with zeros as soon as the key
//! pair is made from it.

use crate::error::{ConfigCause, Error, SigningCause};
use ed25519_dalek::{SignatureError, Signer, SigningKey};
use vstd::prelude::*;

verus! {

/// The length of a seed, of a public key and of a secret key, in bytes.
pub const KEY_LENGTH: usize = 32;

/// The length of the text of a signature, in characters.
pub const SIGNATURE_TEXT_LENGTH: usize = 86;

/// `ed25519_dalek::SigningKey`, carried as an opaque value. It wipes its
/// secret when it is dropped.
#[verifier::external_type_specification]
#[verifier::external_body]
pub struct ExSigningKey(SigningKey);

/// `ed25519_dalek::SignatureError`, carried as an opaque value.
#[verifier::external_type_specification]
#[verifier::external_body]
pub struct ExSignatureError(SignatureError);

/// The 32 secret bytes that a signing key holds: what
/// `SigningKey::to_bytes` returns.
pub uninterp spec fn secret_of(key: SigningKey) -> Seq<u8>;

/// The Ed25519 public key that belongs to a 32-byte secret: the bytes of
/// the verifying key of the signing key made from the secret.
pub uninterp spec fn ed25519_public_key(secret: Seq<u8>) -> Seq<u8>;

/// The Ed25519 signature of `message` under a 32-byte secret: the bytes of
/// what the signing key made from the secret signs `message` with.
pub uninterp spec fn ed25519_signature(secret: Seq<u8>, message: Seq<u8>) -> Seq<u8>;

/// The base64 text of `bytes` in the standard alphabet, without padding:
/// what `base64::encode_config` returns for `STANDARD_NO_PAD`.
pub uninterp spec fn base64_no_pad(bytes: Seq<u8>) -> Seq<char>;

/// `ed25519_dalek::SigningKey::from_bytes`: the key made from 32 bytes
/// holds exactly those bytes as its secret.
#[verifier::external_body]
fn signing_key_from_bytes(secret: &[u8; 32]) -> (key: SigningKey)
    ensures
        secret_of(key) == secret@,
{
    SigningKey::from_bytes(secret)
}

/// `ed25519_dalek::SigningKey::verifying_key`, turned into bytes by
/// `VerifyingKey::to_bytes`: the public key of the secret that the signing
/// key holds. The key pair keeps its verifying key in step with its secret.
#[verifier::external_body]
fn verifying_key_bytes(key: &SigningKey) -> (public: [u8; 32])
    ensures
        public@ == ed25519_public_key(secret_of(*key)),
{
    key.verifying_key().to_bytes()
}

/// `ed25519_dalek::SigningKey`'s `Signer::try_sign`, turned into bytes by
/// `Signature::to_bytes`. Ed25519 draws no randomness: the signature is a
/// function of the secret and the message. The implementation returns `Ok`
/// on every input.
#[verifier::external_body]
fn try_sign(key: &SigningKey, message: &[u8]) -> (out: Result<[u8; 64], SignatureError>)
    ensures
        out is Ok,
        out->Ok_0@ == ed25519_signature(secret_of(*key), message@),
{
    match key.try_sign(message) {
        Ok(signature) => Ok(signature.to_bytes()),
        Err(e) => Err(e),
    }
}

/// The number of characters that `bytes` bytes have in base64 without
/// padding: four for every three bytes, and two or three for one or two
/// bytes left over.
pub open spec fn base64_len(bytes: nat) -> nat {
    (bytes / 3) * 4 + if bytes % 3 == 0 {
        0nat
    } else {
        bytes % 3 + 1
    }
}

/// The characters of the standard base64 alphabet: the letters, the
/// digits, `+` and `/`.
pub open spec fn is_base64_char(c: char) -> bool {
    ||| 'A' <= c <= 'Z'
    ||| 'a' <= c <= 'z'
    ||| '0' <= c <= '9'
    ||| c == '+'
    ||| c == '/'
}

/// `base64::encode_config` with `base64::STANDARD_NO_PAD`. The text has the
/// length that the crate computes for input without padding, and every
/// character comes from its table for the standard alphabet. The call
/// panics where the length of the text does not fit in `usize`, so such
/// inputs are left out.
#[verifier::external_body]
fn encode_base64_no_pad(bytes: &[u8]) -> (text: String)
    requires
        (bytes@.len() / 3) * 4 + 3 <= usize::MAX,
    ensures
        text@ == base64_no_pad(bytes@),
        text@.len() == base64_len(bytes@.len()),
        forall|i: int| 0 <= i < text@.len() ==> is_base64_char(#[trigger] text@[i]),
{
    base64::encode_config(bytes, base64::STANDARD_NO_PAD)
}

/// The text of the detached signature of `payload` under `secret`: the
/// Ed25519 signature in base64 without padding.
pub open spec fn signature_text(secret: Seq<u8>, payload: Seq<u8>) -> Seq<char> {
    base64_no_pad(ed25519_signature(secret, payload))
}

/// A key bundle as it was read: its version tag and what it carries.
#[derive(Debug, PartialEq, Eq)]
pub struct Bundle {
    /// The version tag.
    pub version: u32,
    /// The seed, in a bundle of version 1.
    pub seed: Option<Vec<u8>>,
    /// The encrypted device bundle, in a bundle of version 2.
    pub encrypted_device_bundle: Option<Vec<u8>>,
}

/// What a bundle calls for.
#[derive(Debug, PartialEq, Eq)]
pub enum LoadStep {
    /// The bundle held the seed: this is the key pair made from it.
    Derive { keypair: SigningKey },
    /// The bundle holds an encrypted device bundle: unlock it with the
    /// password, then report the outcome to `Keys::unlocked`.
    Unlock { encrypted_device_bundle: Vec<u8> },
}

/// Whether the bytes are a seed: there are 32 of them.
pub open spec fn is_seed(bytes: Seq<u8>) -> bool {
    bytes.len() == KEY_LENGTH
}

/// `n` bytes, each of them zero.
pub open spec fn zeros(n: nat) -> Seq<u8> {
    Seq::new(n, |i: int| 0u8)
}

/// Overwrites every byte of `bytes` with zero.
pub fn wipe(bytes: &mut Vec<u8>)
    ensures
        final(bytes)@ == zeros(old(bytes)@.len()),
{
    let mut i: usize = 0;
    while i < bytes.len()
        invariant
            i <= bytes.len(),
            bytes.len() == old(bytes).len(),
            forall|k: int| 0 <= k < i ==> bytes@[k] == 0,
        decreases bytes.len() - i,
    {
        bytes.set(i, 0);
        i += 1;
    }
    assert(bytes@ =~= zeros(old(bytes)@.len()));
}

/// The key pair whose secret is `bytes`, if these are a seed. Whether or
/// not they are, the bytes are overwritten with zeros, and so is the copy
/// from which the key pair was made.
pub fn derive_keypair(bytes: &mut Vec<u8>) -> (out: Option<SigningKey>)
    ensures
        final(bytes)@ == zeros(old(bytes)@.len()),
        match out {
            Some(keypair) => is_seed(old(bytes)@) && secret_of(keypair) == old(bytes)@,
            None => !is_seed(old(bytes)@),
        },
{
    let out = if bytes.len() == KEY_LENGTH {
        let mut seed: [u8; 32] = [0u8; 32];
        let mut i: usize = 0;
        while i < KEY_LENGTH
            invariant
                i <= KEY_LENGTH,
                bytes.len() == KEY_LENGTH,
                forall|k: int| 0 <= k < i ==> seed@[k] == bytes@[k],
            decreases KEY_LENGTH - i,
        {
            seed[i] = bytes[i];
            i += 1;
        }
        assert(seed@ =~= bytes@);
        let keypair = signing_key_from_bytes(&seed);
        let mut j: usize = 0;
        while j < KEY_LENGTH
            invariant
                j <= KEY_LENGTH,
            decreases KEY_LENGTH - j,
        {
            seed[j] = 0;
            j += 1;
        }
        Some(keypair)
    } else {
        None
    };
    wipe(bytes);
    out
}

/// What is left of a bundle once its step is taken: the same bundle with
/// every byte of its seed overwritten with zero.
pub open spec fn wiped(before: Bundle, after: Bundle) -> bool {
    &&& after.version == before.version
    &&& after.encrypted_device_bundle == before.encrypted_device_bundle
    &&& match before.seed {
        Some(bytes) => after.seed matches Some(left) && left@ == zeros(bytes@.len()),
        None => after.seed is None,
    }
}

/// The signing identity of the host.
pub struct Keys {
    keypair: SigningKey,
    pubkey_base36: String,
}

impl Keys {
    /// The 32 secret bytes of the key pair.
    pub closed spec fn secret(&self) -> Seq<u8> {
        secret_of(self.keypair)
    }

    /// The identifier of the public key in base 36.
    pub closed spec fn id(&self) -> Seq<char> {
        self.pubkey_base36@
    }

    /// The identifier of the public key in base 36.
    pub fn pubkey_base36(&self) -> (out: &str)
        ensures
            out@ == self.id(),
    {
        self.pubkey_base36.as_str()
    }

    /// Takes the step that `source` calls for: the key pair made from its
    /// seed, or the encrypted device bundle to unlock first, or a
    /// configuration error. `None` stands for a bundle that could not be
    /// read or parsed. A bundle of version 1 must hold a seed of 32 bytes,
    /// one of version 2 an encrypted device bundle; a bundle that lacks its
    /// part counts as unparseable. Any other version is not supported.
    ///
    /// Whatever the outcome, the seed that the bundle holds is overwritten
    /// with zeros: the secret lives on in the key pair alone.
    pub fn load_step(source: &mut Option<Bundle>) -> (out: Result<LoadStep, Error>)
        ensures
            match *old(source) {
                None => *final(source) is None && out == Err::<LoadStep, Error>(
                    Error::Config { cause: ConfigCause::Unreadable },
                ),
                Some(bundle) => {
                    &&& *final(source) matches Some(left) && wiped(bundle, left)
                    &&& if bundle.version == 1 {
                        match bundle.seed {
                            Some(bytes) if is_seed(bytes@) => out matches Ok(
                                LoadStep::Derive { keypair },
                            ) && secret_of(keypair) == bytes@,
                            _ => out == Err::<LoadStep, Error>(
                                Error::Config { cause: ConfigCause::Unreadable },
                            ),
                        }
                    } else if bundle.version == 2 {
                        match bundle.encrypted_device_bundle {
                            Some(encrypted) => out matches Ok(
                                LoadStep::Unlock { encrypted_device_bundle },
                            ) && encrypted_device_bundle@ == encrypted@,
                            None => out == Err::<LoadStep, Error>(
                                Error::Config { cause: ConfigCause::Unreadable },
                            ),
                        }
                    } else {
                        out == Err::<LoadStep, Error>(
                            Error::Config {
                                cause: ConfigCause::UnsupportedVersion { version: bundle.version },
                            },
                        )
                    }
                },
            },
    {
        let mut taken: Option<Bundle> = None;
        core::mem::swap(source, &mut taken);
        match taken {
            None => Err(Error::Config { cause: ConfigCause::Unreadable }),
            Some(bundle) => {
                let Bundle { version, seed, encrypted_device_bundle } = bundle;
                let (seed, keypair) = match seed {
                    Some(mut bytes) => {
                        let keypair = if version == 1 {
                            derive_keypair(&mut bytes)
                        } else {
                            wipe(&mut bytes);
                            None
                        };
                        (Some(bytes), keypair)
                    },
                    None => (None, None),
                };
                let out = if version == 1 {
                    match keypair {
                        Some(keypair) => Ok(LoadStep::Derive { keypair }),
                        None => Err(Error::Config { cause: ConfigCause::Unreadable }),
                    }
                } else if version == 2 {
                    match &encrypted_device_bundle {
                        Some(encrypted) => Ok(
                            LoadStep::Unlock { encrypted_device_bundle: encrypted.clone() },
                        ),
                        None => Err(Error::Config { cause: ConfigCause::Unreadable }),
                    }
                } else {
                    Err(Error::Config { cause: ConfigCause::UnsupportedVersion { version } })
                };
                *source = Some(Bundle { version, seed, encrypted_device_bundle });
                out
            },
        }
    }

    /// The key pair that unlocking an encrypted device bundle gave. `None`
    /// stands for a bundle that did not unlock: the password was wrong or
    /// the bundle is corrupt. That is a signing error.
    pub fn unlocked(outcome: Option<SigningKey>) -> (out: Result<SigningKey, Error>)
        ensures
            match outcome {
                Some(keypair) => out == Ok::<SigningKey, Error>(keypair),
                None => out == Err::<SigningKey, Error>(
                    Error::Signing { cause: SigningCause::Unlock },
                ),
            },
    {
        match outcome {
            Some(keypair) => Ok(keypair),
            None => Err(Error::Signing { cause: SigningCause::Unlock }),
        }
    }

    /// The identity of a key pair that is already at hand, with the
    /// identifier of its public key.
    pub fn new(keypair: SigningKey, pubkey_base36: String) -> (out: Keys)
        ensures
            out.secret() == secret_of(keypair),
            out.id() == pubkey_base36@,
    {
        Keys { keypair, pubkey_base36 }
    }

    /// The identity whose secret is `seed`, with the identifier of its
    /// public key.
    pub fn from_seed(seed: &[u8; 32], pubkey_base36: String) -> (out: Keys)
        ensures
            out.secret() == seed@,
            out.id() == pubkey_base36@,
    {
        Keys { keypair: signing_key_from_bytes(seed), pubkey_base36 }
    }

    /// The public key of the identity.
    pub fn public_key(&self) -> (public: [u8; 32])
        ensures
            public@ == ed25519_public_key(self.secret()),
    {
        verifying_key_bytes(&self.keypair)
    }

    /// The detached signature over exactly the bytes of `payload`, as
    /// base64 text without padding: 86 characters of the standard alphabet.
    /// The identity is not changed, and the signature depends on nothing
    /// but its secret and the payload.
    pub fn sign(&self, payload: &[u8]) -> (out: Result<String, Error>)
        ensures
            out matches Ok(text) && text@ == signature_text(self.secret(), payload@),
            out matches Ok(text) && text@.len() == SIGNATURE_TEXT_LENGTH,
            out matches Ok(text) && forall|i: int|
                0 <= i < text@.len() ==> is_base64_char(#[trigger] text@[i]),
    {
        match try_sign(&self.keypair, payload) {
            Ok(signature) => Ok(encode_base64_no_pad(signature.as_slice())),
            Err(_) => Err(Error::Signing { cause: SigningCause::Sign }),
        }
    }
}

/// Signing is deterministic: two identities with the same secret give the
/// same signature for the same payload.
pub proof fn lemma_sign_is_deterministic(a: &Keys, b: &Keys, first: Seq<u8>, second: Seq<u8>)
    requires
        a.secret() == b.secret(),
        first == second,
    ensures
        signature_text(a.secret(), first) == signature_text(b.secret(), second),
{
}

} // verus!
