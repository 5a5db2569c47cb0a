//! Whether chunks are encrypted, and the life of the key that opens them.
//!
//! The secret key of a repository is stored sealed under a passphrase. The
//! sealing and opening themselves are the work of a key-wrapping engine that
//! the caller runs; this module decides what that engine is asked to do, in
//! which order, and what becomes of its answers.

use vstd::prelude::*;
use crate::error::ConfigError;

verus! {

/// A key pair: the public key, and the secret key sealed under a passphrase.
#[derive(Debug, PartialEq, Eq)]
pub struct Curve25519 {
    pub sealed_sec_key: Vec<u8>,
    pub pub_key: Vec<u8>,
}

/// The bytes of a key pair.
pub struct Curve25519View {
    pub sealed_sec_key: Seq<u8>,
    pub pub_key: Seq<u8>,
}

impl View for Curve25519 {
    type V = Curve25519View;

    open spec fn view(&self) -> Curve25519View {
        Curve25519View { sealed_sec_key: self.sealed_sec_key@, pub_key: self.pub_key@ }
    }
}

impl Clone for Curve25519 {
    fn clone(&self) -> (copy: Curve25519)
        ensures
            copy@ == self@,
    {
        Curve25519 { sealed_sec_key: self.sealed_sec_key.clone(), pub_key: self.pub_key.clone() }
    }
}

/// The kinds of encryption a repository can name.
#[derive(Debug, PartialEq, Eq)]
pub enum Encryption {
    /// Chunks are stored in the clear.
    NoEncryption,
    /// Chunks are sealed for the public key of the pair.
    Curve25519(Curve25519),
}

/// What an `Encryption` holds.
pub enum EncryptionView {
    NoEncryption,
    Curve25519(Curve25519View),
}

impl View for Encryption {
    type V = EncryptionView;

    open spec fn view(&self) -> EncryptionView {
        match self {
            Encryption::NoEncryption => EncryptionView::NoEncryption,
            Encryption::Curve25519(keys) => EncryptionView::Curve25519(keys@),
        }
    }
}

impl Clone for Encryption {
    fn clone(&self) -> (copy: Encryption)
        ensures
            copy@ == self@,
    {
        match self {
            Encryption::NoEncryption => Encryption::NoEncryption,
            Encryption::Curve25519(keys) => Encryption::Curve25519(keys.clone()),
        }
    }
}

/// What an encrypting engine is to be built from.
#[derive(Debug, PartialEq, Eq)]
pub enum Encrypter {
    /// Hands every chunk on unchanged.
    Nop,
    /// Seals chunks for this public key.
    Curve25519 { pub_key: Vec<u8> },
}

/// What a decrypting engine is to be built from.
#[derive(PartialEq, Eq)]
pub enum Decrypter {
    /// Hands every chunk on unchanged.
    Nop,
    /// Opens chunks with this secret key.
    Curve25519 { sec_key: Vec<u8>, pub_key: Vec<u8> },
}

/// How far the change of a passphrase has come.
#[derive(Copy, Clone, Debug, PartialEq, Eq, Structural)]
pub enum Rotation {
    /// Nothing has been asked yet.
    Idle,
    /// The engine was asked to open the sealed key with the old passphrase.
    Opening,
    /// The engine was asked to seal the key under the new passphrase.
    Sealing,
    /// The key is stored under the new passphrase.
    Done,
    /// The change was given up; the stored key is as it was.
    Failed(ConfigError),
}

/// What the caller reports to a change of passphrase.
#[derive(PartialEq, Eq)]
pub enum RotationEvent {
    /// The change is to start.
    Begin,
    /// The engine's answer to `Open`: the secret key, or nothing where the
    /// old passphrase did not open it.
    Opened(Option<Vec<u8>>),
    /// The engine's answer to `Seal`: the key sealed under the new
    /// passphrase, or nothing where the engine failed.
    Sealed(Option<Vec<u8>>),
}

/// What the caller is to do next in a change of passphrase.
#[derive(PartialEq, Eq)]
pub enum RotationAction {
    /// Open this sealed key with the old passphrase.
    Open { sealed_sec_key: Vec<u8> },
    /// Seal this secret key under the new passphrase.
    Seal { sec_key: Vec<u8> },
    /// Nothing more: the change has ended so.
    Finish(Result<(), ConfigError>),
}

impl EncryptionView {
    /// The public key, where there is a key pair.
    pub open spec fn pub_key(self) -> Option<Seq<u8>> {
        match self {
            EncryptionView::NoEncryption => None,
            EncryptionView::Curve25519(keys) => Some(keys.pub_key),
        }
    }

    /// The name under which the kind stands in a stored configuration.
    pub open spec fn name(self) -> Seq<char> {
        match self {
            EncryptionView::NoEncryption => "none"@,
            EncryptionView::Curve25519(_) => "curve25519_blake2b_salsa20_poly1305"@,
        }
    }
}

/// What `Encryption::encrypter` returns for an encryption and the engine's
/// answer to the opening of its key.
pub open spec fn encrypter_made(
    encryption: EncryptionView,
    opened: Option<Vec<u8>>,
    made: Result<Encrypter, ConfigError>,
) -> bool {
    match encryption {
        EncryptionView::NoEncryption => made == Ok::<Encrypter, ConfigError>(Encrypter::Nop),
        EncryptionView::Curve25519(keys) => match opened {
            Some(_) => made matches Ok(Encrypter::Curve25519 { pub_key }) && pub_key@
                == keys.pub_key,
            None => made == Err::<Encrypter, ConfigError>(ConfigError::AuthenticationFailure),
        },
    }
}

/// What `Encryption::decrypter` returns for an encryption and the engine's
/// answer to the opening of its key.
pub open spec fn decrypter_made(
    encryption: EncryptionView,
    opened: Option<Vec<u8>>,
    made: Result<Decrypter, ConfigError>,
) -> bool {
    match encryption {
        EncryptionView::NoEncryption => made == Ok::<Decrypter, ConfigError>(Decrypter::Nop),
        EncryptionView::Curve25519(keys) => match opened {
            Some(key) => made matches Ok(Decrypter::Curve25519 { sec_key, pub_key }) && sec_key@
                == key@ && pub_key@ == keys.pub_key,
            None => made == Err::<Decrypter, ConfigError>(ConfigError::AuthenticationFailure),
        },
    }
}

/// One step of a change of passphrase: from the stored encryption, the phase
/// and the caller's report to the stored encryption afterwards, the next
/// phase and what the caller is to do.
///
/// The sealed key is opened first; only the key that came out of that is
/// handed on to be sealed again; and the stored key is replaced only by a
/// key that the engine sealed. A report that does not answer what was asked
/// ends the change with `EngineFault`.
pub open spec fn rotated(
    before: EncryptionView,
    phase: Rotation,
    event: RotationEvent,
    after: EncryptionView,
    next: Rotation,
    action: RotationAction,
) -> bool {
    match (phase, event, before) {
        (Rotation::Idle, RotationEvent::Begin, EncryptionView::NoEncryption) => {
            &&& after == before
            &&& next == Rotation::Done
            &&& action == RotationAction::Finish(Ok(()))
        },
        (Rotation::Idle, RotationEvent::Begin, EncryptionView::Curve25519(keys)) => {
            &&& after == before
            &&& next == Rotation::Opening
            &&& action matches RotationAction::Open { sealed_sec_key }
            &&& sealed_sec_key@ == keys.sealed_sec_key
        },
        (Rotation::Opening, RotationEvent::Opened(Some(key)), EncryptionView::Curve25519(_)) => {
            &&& after == before
            &&& next == Rotation::Sealing
            &&& action matches RotationAction::Seal { sec_key }
            &&& sec_key@ == key@
        },
        (Rotation::Opening, RotationEvent::Opened(None), EncryptionView::Curve25519(_)) => {
            &&& after == before
            &&& next == Rotation::Failed(ConfigError::AuthenticationFailure)
            &&& action == RotationAction::Finish(Err(ConfigError::AuthenticationFailure))
        },
        (Rotation::Sealing, RotationEvent::Sealed(Some(sealed)), EncryptionView::Curve25519(keys)) => {
            &&& after == EncryptionView::Curve25519(
                Curve25519View { sealed_sec_key: sealed@, pub_key: keys.pub_key },
            )
            &&& next == Rotation::Done
            &&& action == RotationAction::Finish(Ok(()))
        },
        (Rotation::Done, _, _) => {
            &&& after == before
            &&& next == Rotation::Done
            &&& action == RotationAction::Finish(Ok(()))
        },
        (Rotation::Failed(e), _, _) => {
            &&& after == before
            &&& next == Rotation::Failed(e)
            &&& action == RotationAction::Finish(Err(e))
        },
        _ => {
            &&& after == before
            &&& next == Rotation::Failed(ConfigError::EngineFault)
            &&& action == RotationAction::Finish(Err(ConfigError::EngineFault))
        },
    }
}

impl Encryption {
    /// The name under which the kind stands in a stored configuration.
    pub fn name(&self) -> (name: &'static str)
        ensures
            name@ == self@.name(),
    {
        match self {
            Encryption::NoEncryption => "none",
            Encryption::Curve25519(_) => "curve25519_blake2b_salsa20_poly1305",
        }
    }

    /// The sealed key that has to be opened before an engine can be built;
    /// nothing where chunks are stored in the clear.
    pub fn sealed_key(&self) -> (sealed: Option<&Vec<u8>>)
        ensures
            match self@ {
                EncryptionView::NoEncryption => sealed is None,
                EncryptionView::Curve25519(keys) => sealed matches Some(bytes) && bytes@
                    == keys.sealed_sec_key,
            },
    {
        match self {
            Encryption::NoEncryption => None,
            Encryption::Curve25519(keys) => Some(&keys.sealed_sec_key),
        }
    }

    /// What the encrypting engine is built from. `opened` is the engine's
    /// answer to the opening of the sealed key with the passphrase: it is not
    /// looked at where chunks are stored in the clear, and where it is
    /// missing the passphrase was wrong.
    pub fn encrypter(&self, opened: Option<Vec<u8>>) -> (made: Result<Encrypter, ConfigError>)
        ensures
            encrypter_made(self@, opened, made),
    {
        match self {
            Encryption::NoEncryption => Ok(Encrypter::Nop),
            Encryption::Curve25519(keys) => match opened {
                Some(_) => Ok(Encrypter::Curve25519 { pub_key: keys.pub_key.clone() }),
                None => Err(ConfigError::AuthenticationFailure),
            },
        }
    }

    /// What the decrypting engine is built from. `opened` is the engine's
    /// answer to the opening of the sealed key with the passphrase: it is not
    /// looked at where chunks are stored in the clear, and where it is
    /// missing the passphrase was wrong.
    pub fn decrypter(&self, opened: Option<Vec<u8>>) -> (made: Result<Decrypter, ConfigError>)
        ensures
            decrypter_made(self@, opened, made),
    {
        match self {
            Encryption::NoEncryption => Ok(Decrypter::Nop),
            Encryption::Curve25519(keys) => match opened {
                Some(key) => Ok(Decrypter::Curve25519 { sec_key: key, pub_key: keys.pub_key.clone() }),
                None => Err(ConfigError::AuthenticationFailure),
            },
        }
    }

    /// One step of the change of the passphrase that seals the secret key.
    /// The caller starts with `Rotation::Idle` and `RotationEvent::Begin`,
    /// does what the returned action says, and reports the engine's answer
    /// with the returned phase, until the action is `Finish`.
    pub fn change_passphrase(&mut self, phase: Rotation, event: RotationEvent) -> (step: (
        Rotation,
        RotationAction,
    ))
        ensures
            rotated(old(self)@, phase, event, final(self)@, step.0, step.1),
    {
        match phase {
            Rotation::Done => (Rotation::Done, RotationAction::Finish(Ok(()))),
            Rotation::Failed(e) => (Rotation::Failed(e), RotationAction::Finish(Err(e))),
            Rotation::Idle => match event {
                RotationEvent::Begin => match self.sealed_key() {
                    None => (Rotation::Done, RotationAction::Finish(Ok(()))),
                    Some(sealed) => (
                        Rotation::Opening,
                        RotationAction::Open { sealed_sec_key: sealed.clone() },
                    ),
                },
                _ => Self::out_of_order(),
            },
            Rotation::Opening => match event {
                RotationEvent::Opened(opened) => match self.sealed_key() {
                    None => Self::out_of_order(),
                    Some(_) => match opened {
                        Some(key) => (Rotation::Sealing, RotationAction::Seal { sec_key: key }),
                        None => (
                            Rotation::Failed(ConfigError::AuthenticationFailure),
                            RotationAction::Finish(Err(ConfigError::AuthenticationFailure)),
                        ),
                    },
                },
                _ => Self::out_of_order(),
            },
            Rotation::Sealing => match event {
                RotationEvent::Sealed(Some(sealed)) => {
                    let pub_key = match &*self {
                        Encryption::NoEncryption => None,
                        Encryption::Curve25519(keys) => Some(keys.pub_key.clone()),
                    };
                    match pub_key {
                        None => Self::out_of_order(),
                        Some(pub_key) => {
                            *self = Encryption::Curve25519(
                                Curve25519 { sealed_sec_key: sealed, pub_key },
                            );
                            (Rotation::Done, RotationAction::Finish(Ok(())))
                        },
                    }
                },
                _ => Self::out_of_order(),
            },
        }
    }

    /// The end of a change in which a report did not answer what was asked.
    fn out_of_order() -> (step: (Rotation, RotationAction))
        ensures
            step.0 == Rotation::Failed(ConfigError::EngineFault),
            step.1 == RotationAction::Finish(Err(ConfigError::EngineFault)),
    {
        (
            Rotation::Failed(ConfigError::EngineFault),
            RotationAction::Finish(Err(ConfigError::EngineFault)),
        )
    }
}

/// What a change of passphrase can and cannot do to the stored encryption.
/// No step changes the public key or turns encryption on or off. The stored
/// key changes in one step only, the last, and then to the very bytes that
/// the engine sealed. The key handed on for sealing is the key that the
/// opening gave. A change that ends in failure leaves everything as it was.
pub proof fn lemma_rotation_keeps_key_pair(
    before: EncryptionView,
    phase: Rotation,
    event: RotationEvent,
    after: EncryptionView,
    next: Rotation,
    action: RotationAction,
)
    requires
        rotated(before, phase, event, after, next, action),
    ensures
        after.pub_key() == before.pub_key(),
        after != before ==> {
            &&& phase == Rotation::Sealing
            &&& next == Rotation::Done
            &&& event matches RotationEvent::Sealed(Some(sealed))
            &&& after matches EncryptionView::Curve25519(keys)
            &&& keys.sealed_sec_key == sealed@
        },
        action matches RotationAction::Seal { sec_key } ==> {
            &&& phase == Rotation::Opening
            &&& event matches RotationEvent::Opened(Some(key))
            &&& sec_key@ == key@
        },
        action matches RotationAction::Finish(Err(_)) ==> after == before,
        next == Rotation::Done ==> action == RotationAction::Finish(Ok(())),
{
}

/// An engine's answer as the bytes it holds.
pub open spec fn answer(opened: Option<Vec<u8>>) -> Option<Seq<u8>> {
    match opened {
        Some(bytes) => Some(bytes@),
        None => None,
    }
}

/// A change of passphrase, carried out with an engine that opens what it
/// sealed with the passphrase it was sealed under and with no other. Where
/// the old passphrase opens the stored key and differs from the new one, the
/// change succeeds; afterwards the new passphrase gives a decrypter with the
/// same secret key and the same public key as before, so that what was
/// encrypted before can still be read, and the old passphrase is refused.
///
/// `open` and `seal` stand for the engine; `begin`, `seal_it` and `end` are
/// the three steps of the change, each report being the engine's answer to
/// the action before it.
pub proof fn lemma_rotation_changes_the_passphrase(
    open: spec_fn(Seq<u8>, Seq<char>) -> Option<Seq<u8>>,
    seal: spec_fn(Seq<u8>, Seq<char>) -> Seq<u8>,
    old_pass: Seq<char>,
    new_pass: Seq<char>,
    keys: Curve25519View,
    begin: (EncryptionView, Rotation, RotationAction),
    opened: Option<Vec<u8>>,
    seal_it: (EncryptionView, Rotation, RotationAction),
    sealed: Vec<u8>,
    end: (EncryptionView, Rotation, RotationAction),
    opened_new: Option<Vec<u8>>,
    made_new: Result<Decrypter, ConfigError>,
    opened_old: Option<Vec<u8>>,
    made_old: Result<Decrypter, ConfigError>,
)
    requires
        forall|key: Seq<u8>, pass: Seq<char>| #[trigger] open(seal(key, pass), pass) == Some(key),
        forall|key: Seq<u8>, pass: Seq<char>, other: Seq<char>|
            pass != other ==> (#[trigger] open(seal(key, pass), other)) is None,
        old_pass != new_pass,
        open(keys.sealed_sec_key, old_pass) is Some,
        rotated(
            EncryptionView::Curve25519(keys),
            Rotation::Idle,
            RotationEvent::Begin,
            begin.0,
            begin.1,
            begin.2,
        ),
        begin.2 matches RotationAction::Open { sealed_sec_key } ==> answer(opened) == open(
            sealed_sec_key@,
            old_pass,
        ),
        rotated(begin.0, begin.1, RotationEvent::Opened(opened), seal_it.0, seal_it.1, seal_it.2),
        seal_it.2 matches RotationAction::Seal { sec_key } ==> sealed@ == seal(
            sec_key@,
            new_pass,
        ),
        rotated(seal_it.0, seal_it.1, RotationEvent::Sealed(Some(sealed)), end.0, end.1, end.2),
        end.0 matches EncryptionView::Curve25519(now) ==> {
            &&& answer(opened_new) == open(now.sealed_sec_key, new_pass)
            &&& answer(opened_old) == open(now.sealed_sec_key, old_pass)
        },
        decrypter_made(end.0, opened_new, made_new),
        decrypter_made(end.0, opened_old, made_old),
    ensures
        end.1 == Rotation::Done,
        end.2 == RotationAction::Finish(Ok(())),
        end.0.pub_key() == Some(keys.pub_key),
        made_new matches Ok(Decrypter::Curve25519 { sec_key, pub_key }) && Some(sec_key@) == open(
            keys.sealed_sec_key,
            old_pass,
        ) && pub_key@ == keys.pub_key,
        made_old == Err::<Decrypter, ConfigError>(ConfigError::AuthenticationFailure),
{
}

} // verus!
