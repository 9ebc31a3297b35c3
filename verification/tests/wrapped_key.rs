use oo7_daemon::device::check_serial;
use oo7_daemon::error::WrapError;
use oo7_daemon::wrapped_key::{
    to_point, to_sealed, RetiredSlotId, WrappedKey, FILE_LEN, MASTER_KEY_LEN, NONCE_LEN, POINT_LEN,
    SEALED_LEN, SLOT, TAG_LEN,
};

fn sample() -> WrappedKey {
    WrappedKey {
        slot: SLOT,
        serial: 0xDEAD_BEEF,
        card_pub: [0x11; POINT_LEN],
        epk: [0x22; POINT_LEN],
        nonce: [0x33; NONCE_LEN],
        ct: [0x44; MASTER_KEY_LEN + TAG_LEN],
    }
}

#[test]
fn roundtrip() {
    let wk = sample();
    let data = wk.write();
    let read = WrappedKey::read(&data).unwrap();
    assert_eq!(read.slot, wk.slot);
    assert_eq!(read.serial, wk.serial);
    assert_eq!(read.card_pub, wk.card_pub);
    assert_eq!(read.epk, wk.epk);
    assert_eq!(read.nonce, wk.nonce);
    assert_eq!(read.ct, wk.ct);
}

#[test]
fn invalid_length() {
    let err = WrappedKey::read(&[0u8; 10]).unwrap_err();
    assert!(
        err.message().contains("wrong length"),
        "unexpected error: {}",
        err.message()
    );
    assert_eq!(
        err.message(),
        "wrapped key file has wrong length 10 (expected 137)"
    );
}

#[test]
fn invalid_magic() {
    let err = WrappedKey::read(&vec![0u8; FILE_LEN]).unwrap_err();
    assert!(
        err.message().contains("magic"),
        "unexpected error: {}",
        err.message()
    );
    assert_eq!(
        err.message(),
        "wrapped key file has unexpected magic bytes"
    );
}

#[test]
fn serial_mismatch_is_rejected() {
    assert!(check_serial(1, 1).is_ok());
    let err = check_serial(1, 2).unwrap_err();
    assert!(
        err.message().contains("serial mismatch"),
        "unexpected error: {}",
        err.message()
    );
    assert_eq!(
        err.message(),
        "YubiKey serial mismatch: wrapped key expects serial 1, inserted key is serial 2"
    );
}

#[test]
fn file_layout() {
    let data = sample().write();
    assert_eq!(data.len(), 137);
    assert_eq!(&data[..6], b"OO7YK1");
    assert_eq!(data[6], 0x82);
    assert_eq!(&data[7..11], &[0xef, 0xbe, 0xad, 0xde]);
    assert_eq!(&data[11..44], &[0x11; 33]);
    assert_eq!(&data[44..77], &[0x22; 33]);
    assert_eq!(&data[77..89], &[0x33; 12]);
    assert_eq!(&data[89..], &[0x44; 48]);
}

#[test]
fn writing_a_read_file_gives_it_back() {
    let mut data = b"OO7YK1".to_vec();
    data.push(0x95);
    for i in 0..130u8 {
        data.push(i);
    }
    let key = WrappedKey::read(&data).unwrap();
    assert_eq!(key.slot, RetiredSlotId::R20);
    assert_eq!(key.serial, 0x0302_0100);
    assert_eq!(key.write(), data);
}

#[test]
fn invalid_slot() {
    for slot in [0x00u8, 0x81, 0x96, 0x9a, 0xff] {
        let mut data = sample().write();
        data[6] = slot;
        let err = WrappedKey::read(&data).unwrap_err();
        assert_eq!(err.message(), "invalid slot in wrapped key file");
    }
}

#[test]
fn length_is_checked_before_magic() {
    let mut data = sample().write();
    data[0] = 0;
    data.push(0);
    assert!(matches!(
        WrappedKey::read(&data),
        Err(WrapError::WrongLength(138))
    ));
    assert!(matches!(
        WrappedKey::read(&[]),
        Err(WrapError::WrongLength(0))
    ));
}

#[test]
fn slots_map_to_key_references() {
    assert_eq!(SLOT.to_byte(), 0x82);
    let mut known: usize = 0;
    for byte in 0..=255u8 {
        if let Some(slot) = RetiredSlotId::from_byte(byte) {
            assert_eq!(slot.to_byte(), byte);
            known += 1;
        }
    }
    assert_eq!(known, 20);
    assert_eq!(RetiredSlotId::from_byte(0x82), Some(RetiredSlotId::R1));
    assert_eq!(RetiredSlotId::from_byte(0x8a), Some(RetiredSlotId::R9));
}

#[test]
fn parts_need_their_length() {
    assert_eq!(to_point(&[7; 33]), Some([7; 33]));
    assert_eq!(to_point(&[7; 32]), None);
    assert_eq!(to_sealed(&[9; SEALED_LEN]), Some([9; 48]));
    assert_eq!(to_sealed(&[9; 49]), None);
}

#[test]
fn messages() {
    let e = || String::from("E");
    let cases = vec![
        (WrapError::HkdfExpand(e()), "hkdf expand failed: E"),
        (WrapError::Pcsc(e()), "pcsc: E"),
        (WrapError::NoYubiKey, "no YubiKey found (is it plugged in?)"),
        (
            WrapError::OpenYubiKey(e()),
            "failed to open YubiKey: E (another agent such as scdaemon or \
             yubikey-agent may be holding an exclusive connection)",
        ),
        (
            WrapError::NoCertificate(e()),
            "no key/certificate in slot 82 (RETIRED1): E\n\
             generate one first with:\n  \
             ykman piv keys generate 82 -a ECCP256 --touch-policy=always --pin-policy=never\n  \
             ykman piv certificates generate 82 -s \"oo7\"",
        ),
        (WrapError::NotP256, "key in slot 82 is not P-256"),
        (
            WrapError::InvalidPublicKey(e()),
            "invalid public key in cert: E",
        ),
        (WrapError::AesKey(e()), "aes-gcm key: E"),
        (WrapError::AesEncrypt(e()), "aes-gcm encrypt: E"),
        (
            WrapError::AesDecrypt(e()),
            "aes-gcm decrypt: E (wrong YubiKey key?)",
        ),
        (WrapError::CardKeyLength, "card public key is not 33 bytes"),
        (
            WrapError::EphemeralKeyLength,
            "ephemeral public key is not 33 bytes",
        ),
        (WrapError::CiphertextLength, "ciphertext is not 48 bytes"),
        (
            WrapError::InvalidEphemeral(e()),
            "invalid stored ephemeral point: E",
        ),
        (WrapError::Ecdh(e()), "yubikey ECDH failed: E"),
        (
            WrapError::MasterKeyLength,
            "decrypted master key has wrong length",
        ),
        (
            WrapError::SerialMismatch {
                wrapped: 4294967295,
                actual: 0,
            },
            "YubiKey serial mismatch: wrapped key expects serial 4294967295, \
             inserted key is serial 0",
        ),
    ];
    for (error, text) in cases {
        assert_eq!(error.message(), text);
    }
}
