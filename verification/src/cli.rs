//! Option carriers for the command line, the algorithm format tag, and the
//! pure part of the argument checks.
//!
//! The structs here are plain data: the outer binary owns the argument parser
//! and converts into these carriers.  The argument checks that need the file
//! system are split: the caller supplies what it observed (`exists`,
//! `is_dir`) and the decision itself is verified here.

use vstd::prelude::*;

use crate::error::CryptoError;

verus! {

/// The closed set of signing algorithm families.
#[derive(Debug, Clone, Copy, PartialEq, Eq, Structural)]
pub enum TextSignFormat {
    Blake3,
    Ed25519,
}

impl TextSignFormat {
    /// The boundary tag naming this format.
    pub open spec fn name_spec(&self) -> Seq<char> {
        match self {
            TextSignFormat::Blake3 => "blake3"@,
            TextSignFormat::Ed25519 => "ed25519"@,
        }
    }

    /// The boundary tag naming this format, as accepted by
    /// `parse_text_sign_format`.
    pub fn name(&self) -> (r: &'static str)
        ensures
            r@ == self.name_spec(),
    {
        match self {
            TextSignFormat::Blake3 => "blake3",
            TextSignFormat::Ed25519 => "ed25519",
        }
    }
}

/// Relies on `str`'s `PartialEq`: two string slices compare equal exactly
/// when they hold the same characters.
#[verifier::external_body]
fn str_eq(a: &str, b: &str) -> (r: bool)
    ensures
        r == (a@ == b@),
{
    a == b
}

/// Maps a boundary tag to its algorithm family; every tag outside the closed
/// set is rejected.
pub fn parse_text_sign_format(format: &str) -> (r: Result<TextSignFormat, CryptoError>)
    ensures
        format@ == "blake3"@ ==> r == Ok::<TextSignFormat, CryptoError>(TextSignFormat::Blake3),
        format@ == "ed25519"@ ==> r == Ok::<TextSignFormat, CryptoError>(TextSignFormat::Ed25519),
        format@ != "blake3"@ && format@ != "ed25519"@ ==> r == Err::<TextSignFormat, CryptoError>(
            CryptoError::InvalidFormat,
        ),
{
    proof {
        reveal_strlit("blake3");
        reveal_strlit("ed25519");
        assert("blake3"@.len() == 6);
        assert("ed25519"@.len() == 7);
    }
    if str_eq(format, "blake3") {
        Ok(TextSignFormat::Blake3)
    } else if str_eq(format, "ed25519") {
        Ok(TextSignFormat::Ed25519)
    } else {
        Err(CryptoError::InvalidFormat)
    }
}

/// Accepts `-` (standard input) always, and any other name only when the
/// caller observed that the file exists.
pub fn verify_file(filename: &str, exists: bool) -> (r: Result<String, &'static str>)
    ensures
        match r {
            Ok(s) => (filename@ == "-"@ || exists) && s@ == filename@,
            Err(e) => !(filename@ == "-"@ || exists) && e@ == "File does not exist"@,
        },
{
    if str_eq(filename, "-") || exists {
        Ok(filename.to_owned())
    } else {
        Err("File does not exist")
    }
}

/// Accepts a path only when the caller observed an existing directory there.
pub fn verify_path(path: &str, exists: bool, is_dir: bool) -> (r: Result<String, &'static str>)
    ensures
        match r {
            Ok(s) => exists && is_dir && s@ == path@,
            Err(e) => !(exists && is_dir) && e@ == "path does not exist or is not a directory"@,
        },
{
    if exists && is_dir {
        Ok(path.to_owned())
    } else {
        Err("path does not exist or is not a directory")
    }
}

/// Options of the password generator subcommand.
#[derive(Debug)]
pub struct GenPassOpts {
    pub length: u8,
    pub has_uppercase: bool,
    pub has_lowercase: bool,
    pub has_number: bool,
    pub has_symbol: bool,
}

/// Options of the text signing subcommand.
#[derive(Debug)]
pub struct TextSignOpt {
    pub input: String,
    pub key: String,
    pub format: TextSignFormat,
}

/// Options of the text verification subcommand.
#[derive(Debug)]
pub struct TextVerifyOpt {
    pub input: String,
    pub key: String,
    pub sig: String,
    pub format: TextSignFormat,
}

/// Options of the key generation subcommand.
#[derive(Debug)]
pub struct KeyGenerateOpt {
    pub format: TextSignFormat,
    pub output_path: String,
}

/// Options of the encryption subcommand.
#[derive(Debug)]
pub struct TextEncryptOpt {
    pub input: String,
    pub key: String,
    pub nonce: String,
}

/// Options of the decryption subcommand.
#[derive(Debug)]
pub struct TextDecryptOpt {
    pub input: String,
    pub key: String,
    pub nonce: String,
}

/// The text subcommands.
#[derive(Debug)]
pub enum TextSubCommand {
    Sign(TextSignOpt),
    Verify(TextVerifyOpt),
    Generate(KeyGenerateOpt),
    Encrypt(TextEncryptOpt),
    Decrypt(TextDecryptOpt),
}

} // verus!
