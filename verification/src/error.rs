//! What can go wrong while a master key is wrapped or recovered.

use crate::text::push_decimal;
use crate::wrapped_key::FILE_LEN;
use vstd::prelude::*;
use vstd::string::*;

verus! {

/// A failure of the YubiKey scheme. A variant with a text carries the words of
/// the component that failed.
#[derive(Debug)]
pub enum WrapError {
    /// The wrapped key file does not have the one length a key file has.
    WrongLength(usize),
    /// The wrapped key file does not start with the magic bytes.
    BadMagic,
    /// The slot byte of the wrapped key file names no retired slot.
    InvalidSlot,
    /// The key derivation rejected the output length.
    HkdfExpand(String),
    /// The smart card service could not be reached or queried.
    Pcsc(String),
    /// No reader is connected.
    NoYubiKey,
    /// The first reader could not be opened.
    OpenYubiKey(String),
    /// The inserted key is not the one that wrapped the master key.
    SerialMismatch { wrapped: u32, actual: u32 },
    /// The slot holds no readable certificate.
    NoCertificate(String),
    /// The certificate's key is not on P-256.
    NotP256,
    /// The certificate's point is not a P-256 public key.
    InvalidPublicKey(String),
    /// The cipher rejected the key's length.
    AesKey(String),
    /// The cipher could not encrypt the master key.
    AesEncrypt(String),
    /// The cipher could not authenticate the wrapped key.
    AesDecrypt(String),
    /// The compressed card key does not have the length of a compressed point.
    CardKeyLength,
    /// The compressed ephemeral key does not have the length of a compressed point.
    EphemeralKeyLength,
    /// The encrypted master key does not have its one length.
    CiphertextLength,
    /// The ephemeral point of the file is not a P-256 public key.
    InvalidEphemeral(String),
    /// The card could not perform the key agreement.
    Ecdh(String),
    /// The decrypted master key does not have the length of a master key.
    MasterKeyLength,
}

impl WrapError {
    /// The message shown to the user.
    pub open spec fn message_spec(self) -> Seq<char> {
        match self {
            WrapError::WrongLength(n) => "wrapped key file has wrong length "@ + crate::text::decimal(n as nat)
                + " (expected "@ + crate::text::decimal(FILE_LEN as nat) + ")"@,
            WrapError::BadMagic => "wrapped key file has unexpected magic bytes"@,
            WrapError::InvalidSlot => "invalid slot in wrapped key file"@,
            WrapError::HkdfExpand(e) => "hkdf expand failed: "@ + e@,
            WrapError::Pcsc(e) => "pcsc: "@ + e@,
            WrapError::NoYubiKey => "no YubiKey found (is it plugged in?)"@,
            WrapError::OpenYubiKey(e) => "failed to open YubiKey: "@ + e@
                + " (another agent such as scdaemon or yubikey-agent may be holding an exclusive connection)"@,
            WrapError::SerialMismatch { wrapped, actual } =>
                "YubiKey serial mismatch: wrapped key expects serial "@ + crate::text::decimal(wrapped as nat)
                + ", inserted key is serial "@ + crate::text::decimal(actual as nat),
            WrapError::NoCertificate(e) => "no key/certificate in slot 82 (RETIRED1): "@ + e@
                + "\ngenerate one first with:\n  ykman piv keys generate 82 -a ECCP256 --touch-policy=always --pin-policy=never\n  ykman piv certificates generate 82 -s \"oo7\""@,
            WrapError::NotP256 => "key in slot 82 is not P-256"@,
            WrapError::InvalidPublicKey(e) => "invalid public key in cert: "@ + e@,
            WrapError::AesKey(e) => "aes-gcm key: "@ + e@,
            WrapError::AesEncrypt(e) => "aes-gcm encrypt: "@ + e@,
            WrapError::AesDecrypt(e) => "aes-gcm decrypt: "@ + e@ + " (wrong YubiKey key?)"@,
            WrapError::CardKeyLength => "card public key is not 33 bytes"@,
            WrapError::EphemeralKeyLength => "ephemeral public key is not 33 bytes"@,
            WrapError::CiphertextLength => "ciphertext is not 48 bytes"@,
            WrapError::InvalidEphemeral(e) => "invalid stored ephemeral point: "@ + e@,
            WrapError::Ecdh(e) => "yubikey ECDH failed: "@ + e@,
            WrapError::MasterKeyLength => "decrypted master key has wrong length"@,
        }
    }

    /// The message shown to the user.
    pub fn message(&self) -> (r: String)
        ensures
            r@ == self.message_spec(),
    {
        let mut out = String::new();
        match self {
            WrapError::WrongLength(n) => {
                out.append("wrapped key file has wrong length ");
                push_decimal(&mut out, *n as u64);
                out.append(" (expected ");
                push_decimal(&mut out, FILE_LEN as u64);
                out.append(")");
            },
            WrapError::BadMagic => out.append("wrapped key file has unexpected magic bytes"),
            WrapError::InvalidSlot => out.append("invalid slot in wrapped key file"),
            WrapError::HkdfExpand(e) => {
                out.append("hkdf expand failed: ");
                out.append(e.as_str());
            },
            WrapError::Pcsc(e) => {
                out.append("pcsc: ");
                out.append(e.as_str());
            },
            WrapError::NoYubiKey => out.append("no YubiKey found (is it plugged in?)"),
            WrapError::OpenYubiKey(e) => {
                out.append("failed to open YubiKey: ");
                out.append(e.as_str());
                out.append(
                    " (another agent such as scdaemon or yubikey-agent may be holding an exclusive connection)",
                );
            },
            WrapError::SerialMismatch { wrapped, actual } => {
                out.append("YubiKey serial mismatch: wrapped key expects serial ");
                push_decimal(&mut out, *wrapped as u64);
                out.append(", inserted key is serial ");
                push_decimal(&mut out, *actual as u64);
            },
            WrapError::NoCertificate(e) => {
                out.append("no key/certificate in slot 82 (RETIRED1): ");
                out.append(e.as_str());
                out.append(
                    "\ngenerate one first with:\n  ykman piv keys generate 82 -a ECCP256 --touch-policy=always --pin-policy=never\n  ykman piv certificates generate 82 -s \"oo7\"",
                );
            },
            WrapError::NotP256 => out.append("key in slot 82 is not P-256"),
            WrapError::InvalidPublicKey(e) => {
                out.append("invalid public key in cert: ");
                out.append(e.as_str());
            },
            WrapError::AesKey(e) => {
                out.append("aes-gcm key: ");
                out.append(e.as_str());
            },
            WrapError::AesEncrypt(e) => {
                out.append("aes-gcm encrypt: ");
                out.append(e.as_str());
            },
            WrapError::AesDecrypt(e) => {
                out.append("aes-gcm decrypt: ");
                out.append(e.as_str());
                out.append(" (wrong YubiKey key?)");
            },
            WrapError::CardKeyLength => out.append("card public key is not 33 bytes"),
            WrapError::EphemeralKeyLength => out.append("ephemeral public key is not 33 bytes"),
            WrapError::CiphertextLength => out.append("ciphertext is not 48 bytes"),
            WrapError::InvalidEphemeral(e) => {
                out.append("invalid stored ephemeral point: ");
                out.append(e.as_str());
            },
            WrapError::Ecdh(e) => {
                out.append("yubikey ECDH failed: ");
                out.append(e.as_str());
            },
            WrapError::MasterKeyLength => out.append("decrypted master key has wrong length"),
        }
        assert(out@ =~= self.message_spec());
        out
    }
}

/// A failure that another component caused is told in that component's words,
/// whole and in one place, behind what was being done.
pub proof fn message_holds_cause(e: String)
    ensures
        WrapError::HkdfExpand(e).message_spec() == "hkdf expand failed: "@ + e@,
        WrapError::Pcsc(e).message_spec() == "pcsc: "@ + e@,
        WrapError::OpenYubiKey(e).message_spec() == "failed to open YubiKey: "@ + e@
            + " (another agent such as scdaemon or yubikey-agent may be holding an exclusive connection)"@,
        WrapError::NoCertificate(e).message_spec() == "no key/certificate in slot 82 (RETIRED1): "@
            + e@
            + "\ngenerate one first with:\n  ykman piv keys generate 82 -a ECCP256 --touch-policy=always --pin-policy=never\n  ykman piv certificates generate 82 -s \"oo7\""@,
        WrapError::InvalidPublicKey(e).message_spec() == "invalid public key in cert: "@ + e@,
        WrapError::AesKey(e).message_spec() == "aes-gcm key: "@ + e@,
        WrapError::AesEncrypt(e).message_spec() == "aes-gcm encrypt: "@ + e@,
        WrapError::AesDecrypt(e).message_spec() == "aes-gcm decrypt: "@ + e@
            + " (wrong YubiKey key?)"@,
        WrapError::InvalidEphemeral(e).message_spec() == "invalid stored ephemeral point: "@ + e@,
        WrapError::Ecdh(e).message_spec() == "yubikey ECDH failed: "@ + e@,
{
}

/// The message about a wrong length tells the length that was found and the one
/// length a key file has.
pub proof fn message_tells_length(n: usize)
    ensures
        WrapError::WrongLength(n).message_spec() == "wrapped key file has wrong length "@
            + crate::text::decimal(n as nat) + " (expected 137)"@,
{
    reveal_strlit(" (expected ");
    reveal_strlit(")");
    reveal_strlit(" (expected 137)");
    reveal_with_fuel(crate::text::decimal, 3);
    assert(" (expected "@ + crate::text::decimal(137) + ")"@ =~= " (expected 137)"@);
    assert(WrapError::WrongLength(n).message_spec() =~= "wrapped key file has wrong length "@
        + crate::text::decimal(n as nat) + (" (expected "@ + crate::text::decimal(137) + ")"@));
}

/// The message about a wrong card tells both serial numbers, the expected one
/// first.
pub proof fn message_tells_serials(wrapped: u32, actual: u32)
    ensures
        (WrapError::SerialMismatch { wrapped, actual }).message_spec()
            == "YubiKey serial mismatch: wrapped key expects serial "@ + crate::text::decimal(
            wrapped as nat,
        ) + ", inserted key is serial "@ + crate::text::decimal(actual as nat),
{
}

/// The messages of the failures that have no cause to tell.
pub proof fn messages_without_cause()
    ensures
        WrapError::BadMagic.message_spec() == "wrapped key file has unexpected magic bytes"@,
        WrapError::InvalidSlot.message_spec() == "invalid slot in wrapped key file"@,
        WrapError::NoYubiKey.message_spec() == "no YubiKey found (is it plugged in?)"@,
        WrapError::NotP256.message_spec() == "key in slot 82 is not P-256"@,
        WrapError::CardKeyLength.message_spec() == "card public key is not 33 bytes"@,
        WrapError::EphemeralKeyLength.message_spec() == "ephemeral public key is not 33 bytes"@,
        WrapError::CiphertextLength.message_spec() == "ciphertext is not 48 bytes"@,
        WrapError::MasterKeyLength.message_spec() == "decrypted master key has wrong length"@,
{
}

} // verus!
