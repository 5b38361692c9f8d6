//! Loading of application configuration files that may be stored either as
//! plaintext or as authenticated-encrypted blobs.
//!
//! The cipher layer encrypts configuration bytes with AES-256-GCM under a
//! fixed nonce and encodes the result (ciphertext followed by the
//! authentication tag) with standard base64.  The accessor layer binds a file
//! path, optional key material and a declared format, and exposes
//! encrypt / decrypt-or-passthrough / typed-load operations over the file's
//! contents.

mod cipher;
mod config;
mod errors;

pub use cipher::b64_decode_of;
pub use cipher::b64_encode_of;
pub use cipher::decrypt_config;
pub use cipher::decrypt_spec;
pub use cipher::encrypt_config;
pub use cipher::encrypt_spec;
pub use cipher::fixed_nonce_spec;
pub use cipher::gcm_open;
pub use cipher::gcm_plain_limit;
pub use cipher::gcm_seal;
pub use config::config_type_of_name;
pub use config::decrypt_text_spec;
pub use config::fold_toml_result;
pub use config::salt_view;
pub use config::text_result_view;
pub use config::ConfigInfo;
pub use config::ConfigType;
pub use errors::ConfigError;
