//! Pluggable encryption-at-rest for persisted log entries: the
//! interface, and the identity implementation used when encryption is
//! off. Real encryptors live outside the verified core and implement
//! the same trait.

use vstd::prelude::*;

verus! {

/// Encrypts and decrypts byte payloads before they reach disk.
///
/// Each implementation states, through `encrypt_ok` / `decrypt_ok`,
/// which outputs its operations may produce for a given input; callers
/// learn no more than that relation.
pub trait EncryptData {
    /// Which encrypted outputs `encrypt` may produce for an input.
    spec fn encrypt_ok(&self, input: Seq<u8>, output: Seq<u8>) -> bool;

    /// Which decrypted outputs `decrypt` may produce for an input.
    spec fn decrypt_ok(&self, input: Seq<u8>, output: Seq<u8>) -> bool;

    fn encrypt(&self, data: Vec<u8>) -> (r: Result<Vec<u8>, String>)
        ensures
            r matches Ok(out) ==> self.encrypt_ok(data@, out@),
    ;

    fn decrypt(&self, data: &mut Vec<u8>) -> (r: Result<(), String>)
        ensures
            r is Ok ==> self.decrypt_ok(old(data)@, final(data)@),
    ;
}

/// The identity encryptor: bytes pass through unchanged, both ways.
#[derive(Debug, Clone, Copy)]
pub struct NoEncrypt;

impl EncryptData for NoEncrypt {
    open spec fn encrypt_ok(&self, input: Seq<u8>, output: Seq<u8>) -> bool {
        output == input
    }

    open spec fn decrypt_ok(&self, input: Seq<u8>, output: Seq<u8>) -> bool {
        output == input
    }

    fn encrypt(&self, data: Vec<u8>) -> (r: Result<Vec<u8>, String>) {
        Ok(data)
    }

    fn decrypt(&self, data: &mut Vec<u8>) -> (r: Result<(), String>) {
        Ok(())
    }
}

} // verus!
