//! The two secrets, checked once when the program starts.

use vstd::prelude::*;
use crate::cipher::KEY_LEN;
use crate::mac::MAX_MAC_INPUT;
use crate::token::{base64url_decoding, from_base64url};

verus! {

/// Why the secrets were refused.
#[derive(Debug, Clone, Copy, PartialEq, Eq)]
pub enum ConfigurationError {
    /// A key is not unpadded URL-safe base64.
    MalformedKey,
    /// The encryption key is not 256 bits long, or the shared key is too long
    /// to be used at all.
    WrongKeyLength,
}

/// The encryption key and the shared signing key.
pub struct Keys {
    encryption_key: Vec<u8>,
    shared_key: Vec<u8>,
}

/// The mathematical content of [`Keys`].
pub struct KeysView {
    pub encryption_key: Seq<u8>,
    pub shared_key: Seq<u8>,
}

/// Whether the two keys have lengths that can be used.
pub open spec fn usable(encryption_key: Seq<u8>, shared_key: Seq<u8>) -> bool {
    encryption_key.len() == KEY_LEN && shared_key.len() <= MAX_MAC_INPUT
}

/// What loading the two base64 texts comes to.
pub open spec fn loaded(encryption_key: Seq<char>, shared_key: Seq<char>) -> Result<
    KeysView,
    ConfigurationError,
> {
    match (base64url_decoding(encryption_key), base64url_decoding(shared_key)) {
        (Some(encryption_key), Some(shared_key)) => if usable(encryption_key, shared_key) {
            Ok(KeysView { encryption_key, shared_key })
        } else {
            Err(ConfigurationError::WrongKeyLength)
        },
        _ => Err(ConfigurationError::MalformedKey),
    }
}

impl View for Keys {
    type V = KeysView;

    closed spec fn view(&self) -> KeysView {
        KeysView { encryption_key: self.encryption_key@, shared_key: self.shared_key@ }
    }
}

impl Keys {
    #[verifier::type_invariant]
    spec fn well_formed(&self) -> bool {
        usable(self.encryption_key@, self.shared_key@)
    }

    /// Takes the two keys as bytes, and refuses them where a length is wrong.
    pub fn new(encryption_key: Vec<u8>, shared_key: Vec<u8>) -> (r: Result<Keys, ConfigurationError>)
        ensures
            match r {
                Ok(keys) => usable(encryption_key@, shared_key@) && keys@ == (KeysView {
                    encryption_key: encryption_key@,
                    shared_key: shared_key@,
                }),
                Err(e) => !usable(encryption_key@, shared_key@) && e
                    == ConfigurationError::WrongKeyLength,
            },
    {
        if encryption_key.len() != KEY_LEN || shared_key.len() as u64 > MAX_MAC_INPUT {
            return Err(ConfigurationError::WrongKeyLength);
        }
        Ok(Keys { encryption_key, shared_key })
    }

    /// Takes the two keys as they stand in the environment, in unpadded
    /// URL-safe base64.
    pub fn from_base64(encryption_key: &str, shared_key: &str) -> (r: Result<
        Keys,
        ConfigurationError,
    >)
        ensures
            match r {
                Ok(keys) => loaded(encryption_key@, shared_key@) == Ok::<
                    KeysView,
                    ConfigurationError,
                >(keys@),
                Err(e) => loaded(encryption_key@, shared_key@) == Err::<
                    KeysView,
                    ConfigurationError,
                >(e),
            },
    {
        let encryption_key = match from_base64url(encryption_key) {
            Some(bytes) => bytes,
            None => { return Err(ConfigurationError::MalformedKey); },
        };
        let shared_key = match from_base64url(shared_key) {
            Some(bytes) => bytes,
            None => { return Err(ConfigurationError::MalformedKey); },
        };
        Keys::new(encryption_key, shared_key)
    }

    /// The key that identifiers are encrypted under: always 256 bits.
    pub fn encryption_key(&self) -> (key: &[u8])
        ensures
            key@ == self@.encryption_key,
            key@.len() == KEY_LEN,
    {
        proof {
            use_type_invariant(self);
        }
        self.encryption_key.as_slice()
    }

    /// The key that tokens are signed under.
    pub fn shared_key(&self) -> (key: &[u8])
        ensures
            key@ == self@.shared_key,
            key@.len() <= MAX_MAC_INPUT,
    {
        proof {
            use_type_invariant(self);
        }
        self.shared_key.as_slice()
    }
}

} // verus!
