//! The config accessor: a handle binding a file path, optional key material
//! and a declared format, with encrypt, decrypt-or-passthrough and typed
//! load operations over the file's contents.  The handle never touches the
//! filesystem itself: each operation takes the file's text and the caller
//! performs the reads and writes.

use vstd::prelude::*;

use crate::cipher::b64_decode_of;
use crate::cipher::decrypt_config;
use crate::cipher::decrypt_spec;
use crate::cipher::encrypt_config;
use crate::cipher::encrypt_spec;
use crate::cipher::gcm_plain_limit;
use crate::errors::ConfigError;

verus! {

/// The recognized configuration formats.  Only TOML has a parser; JSON and
/// INI are recognized tags whose parse must fail with
/// `UnsupportedConfigType`.
#[derive(Debug, Clone, Copy, PartialEq, Eq, Structural)]
pub enum ConfigType {
    TOML,
    JSON,
    INI,
}

/// Which format a name denotes: `Ok` exactly for the three recognized
/// names, everything else is unknown.
pub open spec fn config_type_of_name(s: Seq<char>) -> Option<ConfigType> {
    if s == "toml"@ {
        Some(ConfigType::TOML)
    } else if s == "json"@ {
        Some(ConfigType::JSON)
    } else if s == "ini"@ {
        Some(ConfigType::INI)
    } else {
        None
    }
}

/// Whether two strings hold the same characters, decided by comparing
/// their UTF-8 bytes: equal bytes mean equal characters, because UTF-8
/// decoding undoes encoding.
fn str_eq(a: &str, b: &str) -> (r: bool)
    ensures
        r == (a@ == b@),
{
    broadcast use vstd::utf8::encode_utf8_decode_utf8;

    let ab = a.as_bytes();
    let bb = b.as_bytes();
    if ab.len() != bb.len() {
        return false;
    }
    let mut i: usize = 0;
    while i < ab.len()
        invariant
            0 <= i <= ab@.len(),
            ab@.len() == bb@.len(),
            ab@ == vstd::utf8::encode_utf8(a@),
            bb@ == vstd::utf8::encode_utf8(b@),
            forall|j: int| 0 <= j < i ==> ab@[j] == bb@[j],
        decreases ab@.len() - i,
    {
        if ab[i] != bb[i] {
            return false;
        }
        i += 1;
    }
    proof {
        assert(ab@ =~= bb@);
        assert(vstd::utf8::decode_utf8(vstd::utf8::encode_utf8(a@)) == a@);
        assert(vstd::utf8::decode_utf8(vstd::utf8::encode_utf8(b@)) == b@);
    }
    true
}

impl ConfigType {
    /// Reads a format tag from its lower-case name; any other name is
    /// rejected as `UnknownConfigType`, carrying the offending name.
    pub fn from_name(s: &str) -> (r: Result<ConfigType, ConfigError>)
        ensures
            match r {
                Ok(t) => config_type_of_name(s@) == Some(t),
                Err(e) => {
                    &&& config_type_of_name(s@) is None
                    &&& e matches ConfigError::UnknownConfigType(u) && u@ == s@
                },
            },
    {
        if str_eq(s, "toml") {
            Ok(ConfigType::TOML)
        } else if str_eq(s, "json") {
            Ok(ConfigType::JSON)
        } else if str_eq(s, "ini") {
            Ok(ConfigType::INI)
        } else {
            Err(ConfigError::UnknownConfigType(s.to_owned()))
        }
    }
}

impl core::str::FromStr for ConfigType {
    type Err = ConfigError;

    fn from_str(s: &str) -> Result<ConfigType, ConfigError> {
        ConfigType::from_name(s)
    }
}

#[verifier::external_type_specification]
#[verifier::external_body]
pub struct ExFromUtf8Error(std::string::FromUtf8Error);

#[verifier::external_type_specification]
#[verifier::external_body]
pub struct ExTomlDeError(toml::de::Error);

/// Relies on `<[u8]>::copy_from_slice`: copies a 32-byte slice into an
/// array.
#[verifier::external_body]
fn key_from_slice(bytes: &[u8]) -> (r: [u8; 32])
    requires
        bytes@.len() == 32,
    ensures
        r@ == bytes@,
{
    let mut key = [0u8; 32];
    key.copy_from_slice(bytes);
    key
}

/// Relies on `String::from_utf8`: returns the text read from the bytes
/// exactly where they are valid UTF-8.
#[verifier::external_body]
fn string_from_utf8(bytes: Vec<u8>) -> (r: Result<String, std::string::FromUtf8Error>)
    ensures
        r matches Ok(s) ==> vstd::utf8::valid_utf8(bytes@) && s@ == vstd::utf8::decode_utf8(
            bytes@,
        ),
        r matches Err(_) ==> !vstd::utf8::valid_utf8(bytes@),
{
    String::from_utf8(bytes)
}

/// Relies on `toml::from_str`: parses TOML text into any deserializable
/// target.  Which value or parse error comes back is decided by the text
/// and the target type's own deserialization, so nothing is claimed of it.
#[verifier::external_body]
fn toml_from_str<T: serde::de::DeserializeOwned>(text: &str) -> (r: Result<T, toml::de::Error>) {
    toml::from_str(text)
}

/// Folds a finished TOML parse into the library's error kinds: the parsed
/// value passes through, and every parse failure — malformed syntax or a
/// shape that does not match the target — becomes `TomlError`.
pub fn fold_toml_result<T>(parsed: Result<T, toml::de::Error>) -> (r: Result<T, ConfigError>)
    ensures
        parsed matches Ok(t) ==> (r matches Ok(u) && u == t),
        parsed is Err ==> r == Err::<T, ConfigError>(ConfigError::TomlError),
{
    match parsed {
        Ok(t) => Ok(t),
        Err(_) => Err(ConfigError::TomlError),
    }
}

/// What decrypt-or-passthrough returns where key material is bound: the
/// text taken as a base64 envelope, opened under the key, and re-read as
/// UTF-8 text; or the error naming the first step that failed.
pub open spec fn decrypt_text_spec(key: Seq<u8>, contents: Seq<char>) -> Result<
    Seq<char>,
    ConfigError,
> {
    match decrypt_spec(key, contents) {
        Some(p) => if vstd::utf8::valid_utf8(p) {
            Ok(vstd::utf8::decode_utf8(p))
        } else {
            Err(ConfigError::StringFromUtf8Error)
        },
        None => if b64_decode_of(contents) is None {
            Err(ConfigError::Base64Error)
        } else {
            Err(ConfigError::AesError)
        },
    }
}

/// A text result, by the characters it carries.
pub open spec fn text_result_view(r: Result<String, ConfigError>) -> Result<Seq<char>, ConfigError> {
    match r {
        Ok(s) => Ok(s@),
        Err(e) => Err(e),
    }
}

/// A handle on one configuration file: its path, optional key material
/// (the salt) and its declared format.  Immutable once constructed, and
/// constructed only with key material of exactly 32 bytes.
#[derive(Debug)]
pub struct ConfigInfo {
    path: String,
    salt: Option<String>,
    file_type: ConfigType,
}

/// The view of optional key material: the characters of the salt, if any.
pub open spec fn salt_view(salt: Option<String>) -> Option<Seq<char>> {
    match salt {
        Some(s) => Some(s@),
        None => None,
    }
}

impl ConfigInfo {
    /// The handle's file path.
    pub closed spec fn spec_path(&self) -> Seq<char> {
        self.path@
    }

    /// The handle's key material, if any.
    pub closed spec fn spec_salt(&self) -> Option<Seq<char>> {
        salt_view(self.salt)
    }

    /// The handle's declared format.
    pub closed spec fn spec_file_type(&self) -> ConfigType {
        self.file_type
    }

    /// The 32 key bytes: the UTF-8 bytes of the salt.
    pub open spec fn spec_key(&self) -> Seq<u8> {
        vstd::utf8::encode_utf8(self.spec_salt()->0)
    }

    /// Key material, where present, is exactly 32 bytes long.
    #[verifier::type_invariant]
    spec fn well_formed(self) -> bool {
        self.spec_salt() matches Some(s) ==> vstd::utf8::encode_utf8(s).len() == 32
    }

    /// The bound file path, for the caller that performs the file I/O.
    pub fn path(&self) -> (r: &str)
        ensures
            r@ == self.spec_path(),
    {
        self.path.as_str()
    }

    /// Validates the key material and binds the handle.  Fails with
    /// `SaltLenError` exactly when key material is supplied and its byte
    /// length is not 32; touches no file.
    pub fn new(path: String, salt: Option<String>, file_type: ConfigType) -> (r: Result<
        Self,
        ConfigError,
    >)
        ensures
            match r {
                Ok(c) => {
                    &&& c.spec_path() == path@
                    &&& c.spec_salt() == salt_view(salt)
                    &&& c.spec_file_type() == file_type
                },
                Err(e) => e == ConfigError::SaltLenError,
            },
            r is Err <==> (salt_view(salt) matches Some(s) && vstd::utf8::encode_utf8(s).len()
                != 32),
    {
        match salt {
            Some(key) => {
                if key.as_str().as_bytes().len() != 32 {
                    Err(ConfigError::SaltLenError)
                } else {
                    Ok(ConfigInfo { path, salt: Some(key), file_type })
                }
            },
            None => Ok(ConfigInfo { path, salt: None, file_type }),
        }
    }

    /// Encrypts the file's text under the bound key: the base64 envelope of
    /// the sealed UTF-8 bytes, which decrypts back to exactly those bytes
    /// under the same key.  Requires key material: with none bound this is
    /// `SaltLenError`, never a passthrough.
    pub fn try_encrypt_config(&self, config_string: &str) -> (r: Result<String, ConfigError>)
        ensures
            self.spec_salt() is None ==> r == Err::<String, ConfigError>(
                ConfigError::SaltLenError,
            ),
            self.spec_salt() is Some ==> match r {
                Ok(s) => {
                    &&& s@ == encrypt_spec(
                        self.spec_key(),
                        vstd::utf8::encode_utf8(config_string@),
                    )
                    &&& decrypt_spec(self.spec_key(), s@) == Some(
                        vstd::utf8::encode_utf8(config_string@),
                    )
                },
                Err(e) => {
                    &&& e == ConfigError::AesError
                    &&& vstd::utf8::encode_utf8(config_string@).len() > gcm_plain_limit()
                },
            },
    {
        proof {
            use_type_invariant(&*self);
        }
        match &self.salt {
            Some(salt) => {
                let key = key_from_slice(salt.as_str().as_bytes());
                encrypt_config(config_string.as_bytes(), &key)
            },
            None => Err(ConfigError::SaltLenError),
        }
    }

    /// Decrypt-or-passthrough over the file's text: with no key material
    /// bound, the text comes back unchanged; with a key, the text is taken
    /// as a base64 envelope, opened under the key, and re-read as UTF-8
    /// text.
    pub fn try_decrypt_config(&self, config_string: String) -> (r: Result<String, ConfigError>)
        ensures
            self.spec_salt() is None ==> (r matches Ok(t) && t@ == config_string@),
            self.spec_salt() is Some ==> text_result_view(r) == decrypt_text_spec(
                self.spec_key(),
                config_string@,
            ),
    {
        proof {
            use_type_invariant(&*self);
        }
        match &self.salt {
            Some(salt) => {
                let key = key_from_slice(salt.as_str().as_bytes());
                match decrypt_config(config_string, &key) {
                    Ok(plain) => match string_from_utf8(plain) {
                        Ok(text) => Ok(text),
                        Err(_) => Err(ConfigError::StringFromUtf8Error),
                    },
                    Err(e) => Err(e),
                }
            },
            None => Ok(config_string),
        }
    }

    /// Loads the file's text as a typed value: decrypt-or-passthrough, then
    /// parse by the declared format.  Only TOML has a parser; JSON and INI
    /// fail with `UnsupportedConfigType`.  Which `Ok` value a TOML parse
    /// yields is decided by the target type's own deserialization, so on
    /// the TOML path only the error discipline is promised.
    pub fn try_get_config<T: serde::de::DeserializeOwned>(&self, config_string: String) -> (r:
        Result<T, ConfigError>)
        ensures
            self.spec_salt() is Some ==> (decrypt_text_spec(self.spec_key(), config_string@)
                matches Err(e) ==> r == Err::<T, ConfigError>(e)),
            (self.spec_salt() is None || decrypt_text_spec(self.spec_key(), config_string@)
                is Ok) ==> match self.spec_file_type() {
                ConfigType::TOML => r is Ok || r == Err::<T, ConfigError>(ConfigError::TomlError),
                ConfigType::JSON => r == Err::<T, ConfigError>(ConfigError::UnsupportedConfigType),
                ConfigType::INI => r == Err::<T, ConfigError>(ConfigError::UnsupportedConfigType),
            },
    {
        let config_string = match self.try_decrypt_config(config_string) {
            Ok(text) => text,
            Err(e) => {
                return Err(e);
            },
        };
        match self.file_type {
            ConfigType::TOML => fold_toml_result(toml_from_str::<T>(config_string.as_str())),
            ConfigType::JSON => Err(ConfigError::UnsupportedConfigType),
            ConfigType::INI => Err(ConfigError::UnsupportedConfigType),
        }
    }
}

} // verus!

