use vstd::prelude::*;

verus! {

/// Every failure the library reports.  Each operation's contract says
/// exactly which variant comes back on which inputs.
#[derive(Debug, PartialEq, Eq)]
pub enum ConfigError {
    /// The underlying file could not be read or written (raised by the
    /// caller that performs the I/O, never by the library itself).
    PathError,
    /// The decrypted text is not well-formed for the declared format, or
    /// does not match the shape of the requested value.
    TomlError,
    /// Authenticated decryption failed: wrong key, corrupted, tampered or
    /// truncated ciphertext.  Deliberately one generic kind, so that a
    /// caller cannot tell the reasons apart.
    AesError,
    /// The decrypted bytes are not valid UTF-8 text.
    StringFromUtf8Error,
    /// A format name did not match any recognized configuration format.
    UnknownConfigType(String),
    /// Key material is not exactly 32 bytes, or is missing where an
    /// operation requires it.
    SaltLenError,
    /// The ciphertext envelope is not valid standard base64.
    Base64Error,
    /// The declared format is recognized but has no parser.
    UnsupportedConfigType,
}

} // verus!
