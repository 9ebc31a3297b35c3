use oo7_daemon::device::{open_yubikey, OpenAction, OpenEvent, SlotKey};
use oo7_daemon::error::WrapError;
use oo7_daemon::master_key::{
    assemble, check_master_key, kdf, setup, unlock, unwrap_key, wrap, UnlockAction, UnlockEvent,
};
use oo7_daemon::wrapped_key::{RetiredSlotId, WrappedKey};
use p256::elliptic_curve::sec1::ToEncodedPoint;

const GENERATOR_X: [u8; 32] = [
    0x6b, 0x17, 0xd1, 0xf2, 0xe1, 0x2c, 0x42, 0x47, 0xf8, 0xbc, 0xe6, 0xe5, 0x63, 0xa4, 0x40, 0xf2,
    0x77, 0x03, 0x7d, 0x81, 0x2d, 0xeb, 0x33, 0xa0, 0xf4, 0xa1, 0x39, 0x45, 0xd8, 0x98, 0xc2, 0x96,
];

const GENERATOR_Y: [u8; 32] = [
    0x4f, 0xe3, 0x42, 0xe2, 0xfe, 0x1a, 0x7f, 0x9b, 0x8e, 0xe7, 0xeb, 0x4a, 0x7c, 0x0f, 0x9e, 0x16,
    0x2b, 0xce, 0x33, 0x57, 0x6b, 0x31, 0x5e, 0xce, 0xcb, 0xb6, 0x40, 0x68, 0x37, 0xbf, 0x51, 0xf5,
];

const KEK: [u8; 32] = [
    0xb6, 0x0c, 0x92, 0x30, 0xab, 0x21, 0xea, 0xa5, 0xec, 0x67, 0x52, 0x54, 0xb2, 0x64, 0x66, 0xa7,
    0xa5, 0xff, 0x30, 0x0f, 0x48, 0x8d, 0x49, 0xd5, 0x99, 0xd1, 0x11, 0x4c, 0x51, 0x62, 0x3f, 0xe3,
];

const SEALED: [u8; 48] = [
    0x86, 0x25, 0x66, 0xce, 0xcb, 0x7a, 0xf0, 0xf6, 0xdf, 0xc5, 0x98, 0xae, 0xe8, 0x40, 0xf6, 0xa9,
    0xd0, 0x01, 0xa7, 0x1c, 0xb9, 0x36, 0x07, 0x0b, 0x3b, 0xd3, 0xdf, 0x1b, 0xd9, 0xd6, 0xd7, 0x49,
    0x65, 0xc1, 0x7b, 0x05, 0x9a, 0xf2, 0x42, 0xb7, 0x57, 0xeb, 0x8d, 0xc6, 0xe6, 0x78, 0xa1, 0x0b,
];

/// The public key of the card whose private key is one.
fn uncompressed_generator() -> Vec<u8> {
    let mut point = vec![0x04u8];
    point.extend_from_slice(&GENERATOR_X);
    point.extend_from_slice(&GENERATOR_Y);
    point
}

fn compressed_generator() -> [u8; 33] {
    let mut point = [0x03u8; 33];
    point[1..].copy_from_slice(&GENERATOR_X);
    point
}

fn known() -> WrappedKey {
    let mut master_key = [0x77u8; 32];
    wrap(
        7,
        &[0x11; 33],
        &[0x22; 33],
        &[0x55; 32],
        &[0x33; 12],
        &mut master_key,
    )
    .unwrap()
}

/// Unlocks `file` with a card that answers `reply`, and returns the point that
/// the card was asked about and the result.
fn unlock_with(
    file: Vec<u8>,
    serial: u32,
    reply: Vec<u8>,
) -> (Vec<u8>, Result<UnlockAction, WrapError>) {
    let wrapped = match unlock(UnlockEvent::FileRead(file)) {
        Ok(UnlockAction::OpenCard { wrapped }) => wrapped,
        _ => panic!("the file was not accepted"),
    };
    let (wrapped, point) = match unlock(UnlockEvent::CardOpened { wrapped, serial }) {
        Ok(UnlockAction::Agree {
            wrapped,
            point,
            slot,
        }) => {
            assert_eq!(slot, RetiredSlotId::R1);
            (wrapped, point)
        }
        _ => panic!("the card was not accepted"),
    };
    let reply = Ok(reply);
    (point, unlock(UnlockEvent::Agreed { wrapped, reply }))
}

#[test]
fn kdf_known_answer() {
    let mut salt = vec![0x22u8; 33];
    salt.extend_from_slice(&[0x11; 33]);
    assert_eq!(kdf(&[0x55; 32], &salt).unwrap(), KEK);
    assert_ne!(kdf(&[0x55; 32], &[]).unwrap(), KEK);
    assert_ne!(kdf(&[0x56; 32], &salt).unwrap(), KEK);
}

#[test]
fn wrap_known_answer() {
    let mut master_key = [0x77u8; 32];
    let key = wrap(
        7,
        &[0x11; 33],
        &[0x22; 33],
        &[0x55; 32],
        &[0x33; 12],
        &mut master_key,
    )
    .unwrap();
    assert_eq!(key.slot, RetiredSlotId::R1);
    assert_eq!(key.serial, 7);
    assert_eq!(key.card_pub, [0x11; 33]);
    assert_eq!(key.epk, [0x22; 33]);
    assert_eq!(key.nonce, [0x33; 12]);
    assert_eq!(key.ct, SEALED);
    assert_eq!(master_key, [0; 32]);
}

#[test]
fn wrap_needs_compressed_points() {
    let mut master_key = [0x77u8; 32];
    let short = wrap(7, &[1; 32], &[2; 33], &[5; 32], &[3; 12], &mut master_key);
    assert!(matches!(short, Err(WrapError::CardKeyLength)));
    let long = wrap(7, &[1; 33], &[2; 65], &[5; 32], &[3; 12], &mut master_key);
    assert!(matches!(long, Err(WrapError::EphemeralKeyLength)));
    assert_eq!(master_key, [0x77; 32]);
}

#[test]
fn assemble_needs_every_length() {
    let key = assemble(1, &[1; 33], &[2; 33], &[3; 12], &[4; 48]).unwrap();
    assert_eq!(key.ct, [4; 48]);
    assert_eq!(key.slot, RetiredSlotId::R1);
    assert!(matches!(
        assemble(1, &[1; 34], &[2; 34], &[3; 12], &[4; 47]),
        Err(WrapError::CardKeyLength)
    ));
    assert!(matches!(
        assemble(1, &[1; 33], &[2; 34], &[3; 12], &[4; 47]),
        Err(WrapError::EphemeralKeyLength)
    ));
    assert!(matches!(
        assemble(1, &[1; 33], &[2; 33], &[3; 12], &[4; 47]),
        Err(WrapError::CiphertextLength)
    ));
}

#[test]
fn unwrap_known_answer() {
    let master_key = unwrap_key(&known(), &[0x55; 32]).unwrap();
    assert_eq!(master_key, vec![0x77; 32]);
}

#[test]
fn wrong_secret_is_refused() {
    let err = unwrap_key(&known(), &[0x56; 32]).unwrap_err();
    assert_eq!(
        err.message(),
        "aes-gcm decrypt: aead::Error (wrong YubiKey key?)"
    );
}

#[test]
fn tampered_key_is_refused() {
    let mut key = known();
    key.ct[0] ^= 1;
    assert!(matches!(
        unwrap_key(&key, &[0x55; 32]),
        Err(WrapError::AesDecrypt(_))
    ));
    let mut key = known();
    key.card_pub[5] ^= 1;
    assert!(matches!(
        unwrap_key(&key, &[0x55; 32]),
        Err(WrapError::AesDecrypt(_))
    ));
    let mut key = known();
    key.nonce[11] ^= 1;
    assert!(matches!(
        unwrap_key(&key, &[0x55; 32]),
        Err(WrapError::AesDecrypt(_))
    ));
}

#[test]
fn master_key_length_is_checked() {
    assert_eq!(check_master_key(vec![1; 32]).unwrap(), vec![1; 32]);
    assert!(matches!(
        check_master_key(vec![1; 31]),
        Err(WrapError::MasterKeyLength)
    ));
    assert!(matches!(
        check_master_key(vec![]),
        Err(WrapError::MasterKeyLength)
    ));
}

#[test]
fn setup_compresses_the_card_key() {
    let key = setup(Ok(SlotKey::EcP256(uncompressed_generator())), 42).unwrap();
    assert_eq!(key.slot, RetiredSlotId::R1);
    assert_eq!(key.serial, 42);
    assert_eq!(key.card_pub, compressed_generator());
    let same = setup(Ok(SlotKey::EcP256(compressed_generator().to_vec())), 42).unwrap();
    assert_eq!(same.card_pub, compressed_generator());
}

#[test]
fn setup_is_fresh_each_time() {
    let one = setup(Ok(SlotKey::EcP256(uncompressed_generator())), 42).unwrap();
    let two = setup(Ok(SlotKey::EcP256(uncompressed_generator())), 42).unwrap();
    assert_ne!(one.epk, two.epk);
    assert_ne!(one.nonce, two.nonce);
    assert_ne!(one.ct, two.ct);
    assert_ne!(one.nonce, [0; 12]);
    let secret_of = |key: &WrappedKey| unwrap_key(key, &key.epk[1..]).unwrap();
    assert_ne!(secret_of(&one), secret_of(&two));
    assert_ne!(secret_of(&one), vec![0; 32]);
}

#[test]
fn unlock_recovers_what_setup_wrapped() {
    let key = setup(Ok(SlotKey::EcP256(uncompressed_generator())), 42).unwrap();
    // The card's private key is one, so the shared point is the ephemeral point.
    let shared = key.epk[1..].to_vec();
    let (point, result) = unlock_with(key.write(), 42, shared.clone());
    assert_eq!(point.len(), 65);
    assert_eq!(point[0], 0x04);
    assert_eq!(&point[1..33], &key.epk[1..]);
    match result {
        Ok(UnlockAction::Finish(master_key)) => {
            assert_eq!(master_key.len(), 32);
            assert_eq!(master_key, unwrap_key(&key, &shared).unwrap());
        }
        _ => panic!("the master key was not recovered"),
    }
}

#[test]
fn unlock_recovers_for_a_random_card() {
    let card = p256::SecretKey::random(&mut rand::rngs::OsRng);
    let card_point = card.public_key().to_encoded_point(false);
    let key = setup(Ok(SlotKey::EcP256(card_point.as_bytes().to_vec())), 9).unwrap();
    let epk = p256::PublicKey::from_sec1_bytes(&key.epk).unwrap();
    let shared = p256::ecdh::diffie_hellman(card.to_nonzero_scalar(), epk.as_affine());
    let reply = shared.raw_secret_bytes().to_vec();
    let (point, result) = unlock_with(key.write(), 9, reply);
    assert_eq!(point, epk.to_encoded_point(false).as_bytes().to_vec());
    assert!(matches!(result, Ok(UnlockAction::Finish(_))));
}

#[test]
fn card_is_asked_in_the_slot_of_the_file() {
    let mut wrapped = setup(Ok(SlotKey::EcP256(uncompressed_generator())), 42).unwrap();
    assert!(wrapped.epk[0] == 0x02 || wrapped.epk[0] == 0x03);
    wrapped.slot = RetiredSlotId::R20;
    wrapped.epk = compressed_generator();
    match unlock(UnlockEvent::CardOpened {
        wrapped,
        serial: 42,
    }) {
        Ok(UnlockAction::Agree { point, slot, .. }) => {
            assert_eq!(point, uncompressed_generator());
            assert_eq!(slot, RetiredSlotId::R20);
        }
        _ => panic!("the card is not asked"),
    }
}

#[test]
fn setup_refusals() {
    let none = setup(Err(String::from("empty slot")), 42).unwrap_err();
    assert!(none
        .message()
        .starts_with("no key/certificate in slot 82 (RETIRED1): empty slot\n"));
    let other = setup(Ok(SlotKey::Other), 42).unwrap_err();
    assert_eq!(other.message(), "key in slot 82 is not P-256");
    let mut off_curve = uncompressed_generator();
    off_curve[64] ^= 1;
    for point in [off_curve, vec![], vec![0], vec![0x02; 10]] {
        let err = setup(Ok(SlotKey::EcP256(point)), 42).unwrap_err();
        assert_eq!(err.message(), "invalid public key in cert: crypto error");
    }
}

#[test]
fn unlock_refusals() {
    let file = unlock(UnlockEvent::FileRead(vec![0; 10]));
    assert!(matches!(file, Err(WrapError::WrongLength(10))));

    let key = setup(Ok(SlotKey::EcP256(uncompressed_generator())), 42).unwrap();
    let card = unlock(UnlockEvent::CardOpened {
        wrapped: key,
        serial: 43,
    });
    assert!(matches!(
        card,
        Err(WrapError::SerialMismatch {
            wrapped: 42,
            actual: 43
        })
    ));

    let mut bad = key;
    bad.epk = [0xff; 33];
    match unlock(UnlockEvent::CardOpened {
        wrapped: bad,
        serial: 42,
    }) {
        Err(e) => assert_eq!(
            e.message(),
            "invalid stored ephemeral point: crypto error"
        ),
        Ok(_) => panic!("an invalid point was accepted"),
    }

    match unlock(UnlockEvent::Agreed {
        wrapped: key,
        reply: Err(String::from("no touch")),
    }) {
        Err(e) => assert_eq!(e.message(), "yubikey ECDH failed: no touch"),
        Ok(_) => panic!("a failed agreement was accepted"),
    }

    let (_, wrong) = unlock_with(key.write(), 42, vec![1; 32]);
    assert!(matches!(wrong, Err(WrapError::AesDecrypt(_))));
}

#[test]
fn opening_takes_the_first_reader() {
    assert!(matches!(
        open_yubikey(OpenEvent::Start),
        Ok(OpenAction::OpenContext)
    ));
    assert!(matches!(
        open_yubikey(OpenEvent::Context(Ok(()))),
        Ok(OpenAction::ListReaders)
    ));
    assert!(matches!(
        open_yubikey(OpenEvent::Readers(Ok(3))),
        Ok(OpenAction::OpenReader(0))
    ));
    assert!(matches!(
        open_yubikey(OpenEvent::Reader(Ok(()))),
        Ok(OpenAction::Ready)
    ));
}

#[test]
fn opening_refusals() {
    let text = |event: OpenEvent| match open_yubikey(event) {
        Err(e) => e.message(),
        Ok(_) => panic!("the step was accepted"),
    };
    assert_eq!(
        text(OpenEvent::Context(Err(String::from("down")))),
        "pcsc: down"
    );
    assert_eq!(
        text(OpenEvent::Readers(Err(String::from("gone")))),
        "pcsc: gone"
    );
    assert_eq!(
        text(OpenEvent::Readers(Ok(0))),
        "no YubiKey found (is it plugged in?)"
    );
    assert!(text(OpenEvent::Reader(Err(String::from("busy"))))
        .starts_with("failed to open YubiKey: busy (another agent"));
}
