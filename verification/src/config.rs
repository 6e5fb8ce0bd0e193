//! Pairing configuration shared with the Chrome extension.
use crate::model::{is_hex_id, new_id};
use vstd::prelude::*;

verus! {

/// The local bridge port used unless another is chosen.
pub const DEFAULT_PORT: u16 = 47831;

/// The pairing secret, the local bridge port, and the extension paired with.
pub struct Config {
    pub token: String,
    pub port: u16,
    pub extension_id: Option<String>,
}

impl Clone for Config {
    fn clone(&self) -> (r: Self)
        ensures
            r == *self,
    {
        Config {
            token: self.token.clone(),
            port: self.port,
            extension_id: match &self.extension_id {
                Some(id) => Some(id.clone()),
                None => None,
            },
        }
    }
}

/// Why a saved configuration was refused.
#[derive(Debug, PartialEq, Eq, Structural)]
pub enum ConfigError {
    /// The saved secret does not have the length of a generated one.
    InvalidPairing,
}

impl ConfigError {
    pub fn message(&self) -> (r: &'static str)
        ensures
            r@ == "Invalid pairing configuration"@,
    {
        "Invalid pairing configuration"
    }
}

impl Config {
    /// A fresh configuration: a new random secret, the default port, and no
    /// paired extension; `None` where the random source fails.
    pub fn fresh() -> (r: Option<Config>)
        ensures
            r matches Some(c) ==> {
                &&& is_hex_id(c.token@)
                &&& c.port == DEFAULT_PORT
                &&& c.extension_id is None
            },
    {
        match new_id() {
            Some(token) => Some(Config { token, port: DEFAULT_PORT, extension_id: None }),
            None => None,
        }
    }

    /// Accepts a configuration read from disk only where its secret is 64
    /// bytes long, as generated secrets are.
    pub fn validate(self) -> (r: Result<Config, ConfigError>)
        ensures
            r matches Ok(c) ==> c == self,
            r is Ok <==> vstd::utf8::encode_utf8(self.token@).len() == 64,
            r is Err ==> r == Err::<Config, ConfigError>(ConfigError::InvalidPairing),
    {
        if self.token.as_str().as_bytes().len() != 64 {
            return Err(ConfigError::InvalidPairing);
        }
        Ok(self)
    }
}

} // verus!
