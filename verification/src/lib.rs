pub mod cli;
pub mod error;
pub mod genpass;
pub mod rng;
pub mod text;

pub use cli::{
    parse_text_sign_format, verify_file, verify_path, GenPassOpts, KeyGenerateOpt, TextDecryptOpt,
    TextEncryptOpt, TextSignFormat, TextSignOpt, TextSubCommand, TextVerifyOpt,
};
pub use error::CryptoError;
pub use genpass::process_genpass;
pub use text::{
    process_text_decrypt, process_text_encrypt, process_text_key_generate,
    process_text_nonce_generate, process_text_sign, process_text_verify, Blake3, Chacha2,
    Ed25519Signer, Ed25519Verifier, TextDecrypt, TextEncrypt, TextSigner, TextVerifier,
};
