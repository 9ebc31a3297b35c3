//! Wrapping the master key for a card, and recovering it with the card's help.
//!
//! The wrapping key is derived from the P-256 agreement between a fresh
//! ephemeral key and the card's key. Wrapping computes the agreement in
//! software; recovering has the card compute it, which waits for a touch.

use crate::crypto::{
    aead_error_text, curve_error_text, decrypt, encrypt, ephemeral_agreement, hkdf_error_text,
    hkdf_sha256, key_error_text, random_bytes, reencode, wipe, wipe_bytes, CipherError,
};
use crate::device::{check_serial, SlotKey};
use crate::error::WrapError;
use crate::text::push_ascii;
use crate::wrapped_key::{
    to_point, to_sealed, RetiredSlotId, WrappedKey, WrappedKeyView, MASTER_KEY_LEN, NONCE_LEN,
    POINT_LEN, SEALED_LEN, SLOT,
};
use vstd::prelude::*;

verus! {

/// The context string that binds derived keys to this scheme.
pub open spec fn info() -> Seq<u8> {
    crate::text::ascii("oo7-yubikey-v1"@)
}

/// The salt of the key derivation: the ephemeral key, then the card's key.
pub open spec fn salt(epk: Seq<u8>, card_pub: Seq<u8>) -> Seq<u8> {
    epk + card_pub
}

/// The key that encrypts the master key.
pub open spec fn kek(key: WrappedKeyView, shared: Seq<u8>) -> Seq<u8> {
    crate::crypto::hkdf_sha256_32(salt(key.epk, key.card_pub), shared, info())
}

/// What `key` yields to whoever holds the secret `shared`.
pub open spec fn recovered(
    key: WrappedKeyView,
    shared: Seq<u8>,
) -> Option<Seq<u8>> {
    crate::crypto::aes256_gcm_open(kek(key, shared), key.nonce, key.ct)
}

/// `key` is `master_key` wrapped under the secret `shared`: its ciphertext is the
/// encryption of `master_key`, and decrypts to it.
pub open spec fn wraps(
    key: WrappedKeyView,
    shared: Seq<u8>,
    master_key: Seq<u8>,
) -> bool {
    &&& master_key.len() == MASTER_KEY_LEN
    &&& key.ct == crate::crypto::aes256_gcm_seal(kek(key, shared), key.nonce, master_key)
    &&& recovered(key, shared) == Some(master_key)
}

/// All bytes are zero.
pub open spec fn wiped(key: Seq<u8>) -> bool {
    key == Seq::new(MASTER_KEY_LEN as nat, |i: int| 0u8)
}

/// Derives the wrapping key from a shared secret.
pub fn kdf(shared_secret: &[u8], salt: &[u8]) -> (r: Result<[u8; MASTER_KEY_LEN], WrapError>)
    ensures
        r matches Ok(okm) && okm@ == crate::crypto::hkdf_sha256_32(salt@, shared_secret@, info()),
{
    let mut context: Vec<u8> = Vec::new();
    proof {
        reveal_strlit("oo7-yubikey-v1");
    }
    push_ascii(&mut context, "oo7-yubikey-v1");
    assert(context@ =~= info());
    let mut okm = [0u8; MASTER_KEY_LEN];
    match hkdf_sha256(salt, shared_secret, context.as_slice(), &mut okm) {
        Ok(_) => Ok(okm),
        Err(e) => Err(WrapError::HkdfExpand(hkdf_error_text(&e))),
    }
}

/// The salt of the key derivation.
fn salt_of(epk: &[u8], card_pub: &[u8]) -> (r: Vec<u8>)
    ensures
        r@ == salt(epk@, card_pub@),
{
    let mut out: Vec<u8> = Vec::new();
    out.extend_from_slice(epk);
    out.extend_from_slice(card_pub);
    assert(out@ =~= salt(epk@, card_pub@));
    out
}

/// Puts a wrapped key together from its parts, each of which must have its one
/// length.
pub fn assemble(
    serial: u32,
    card_pub: &[u8],
    epk: &[u8],
    nonce: &[u8; NONCE_LEN],
    ct: &[u8],
) -> (r: Result<WrappedKey, WrapError>)
    ensures
        if card_pub@.len() != POINT_LEN {
            r == Err::<WrappedKey, WrapError>(WrapError::CardKeyLength)
        } else if epk@.len() != POINT_LEN {
            r == Err::<WrappedKey, WrapError>(WrapError::EphemeralKeyLength)
        } else if ct@.len() != SEALED_LEN {
            r == Err::<WrappedKey, WrapError>(WrapError::CiphertextLength)
        } else {
            r matches Ok(key) && key@ == (WrappedKeyView {
                slot: SLOT,
                serial,
                card_pub: card_pub@,
                epk: epk@,
                nonce: nonce@,
                ct: ct@,
            })
        },
{
    let card_pub = match to_point(card_pub) {
        Some(point) => point,
        None => return Err(WrapError::CardKeyLength),
    };
    let epk = match to_point(epk) {
        Some(point) => point,
        None => return Err(WrapError::EphemeralKeyLength),
    };
    let ct = match to_sealed(ct) {
        Some(sealed) => sealed,
        None => return Err(WrapError::CiphertextLength),
    };
    Ok(WrappedKey { slot: SLOT, serial, card_pub, epk, nonce: *nonce, ct })
}

/// Encrypts a master key, and wipes the key once it has served.
fn seal(
    kek: &mut [u8; MASTER_KEY_LEN],
    nonce: &[u8; NONCE_LEN],
    master_key: &[u8; MASTER_KEY_LEN],
) -> (r: Result<Vec<u8>, WrapError>)
    ensures
        r matches Ok(ct) && {
            &&& ct@ == crate::crypto::aes256_gcm_seal(old(kek)@, nonce@, master_key@)
            &&& ct@.len() == SEALED_LEN
            &&& crate::crypto::aes256_gcm_open(old(kek)@, nonce@, ct@) == Some(master_key@)
        },
        wiped(final(kek)@),
{
    let ct = match encrypt(kek.as_slice(), nonce, master_key.as_slice()) {
        Ok(ct) => ct,
        Err(CipherError::Key(e)) => return Err(WrapError::AesKey(key_error_text(&e))),
        Err(CipherError::Aead(e)) => return Err(WrapError::AesEncrypt(aead_error_text(&e))),
    };
    wipe(kek);
    Ok(ct)
}

/// Wraps `master_key` under the secret `shared` that the ephemeral key `epk` and
/// the card's key `card_pub` agree on, and wipes it once it is wrapped.
pub fn wrap(
    serial: u32,
    card_pub: &[u8],
    epk: &[u8],
    shared: &[u8],
    nonce: &[u8; NONCE_LEN],
    master_key: &mut [u8; MASTER_KEY_LEN],
) -> (r: Result<WrappedKey, WrapError>)
    ensures
        if card_pub@.len() != POINT_LEN {
            &&& r == Err::<WrappedKey, WrapError>(WrapError::CardKeyLength)
            &&& final(master_key)@ == old(master_key)@
        } else if epk@.len() != POINT_LEN {
            &&& r == Err::<WrappedKey, WrapError>(WrapError::EphemeralKeyLength)
            &&& final(master_key)@ == old(master_key)@
        } else {
            &&& r matches Ok(key)
            &&& key.slot == SLOT
            &&& key.serial == serial
            &&& key.card_pub@ == card_pub@
            &&& key.epk@ == epk@
            &&& key.nonce@ == nonce@
            &&& wraps(key@, shared@, old(master_key)@)
            &&& wiped(final(master_key)@)
        },
{
    let salt = salt_of(epk, card_pub);
    let mut kek = kdf(shared, salt.as_slice())?;
    let ct = seal(&mut kek, nonce, master_key)?;
    let key = assemble(serial, card_pub, epk, nonce, ct.as_slice())?;
    wipe(master_key);
    Ok(key)
}

/// `key` was wrapped for the card with public key `card_pub` and this serial
/// number: its ephemeral key is a public key in compressed form, and it wraps some
/// master key under the secret that the two keys share.
pub open spec fn wrapped_for(key: WrappedKeyView, card_pub: Seq<u8>, serial: u32) -> bool {
    &&& key.slot == SLOT
    &&& key.serial == serial
    &&& key.card_pub == card_pub
    &&& crate::crypto::has_form(key.card_pub, true)
    &&& crate::crypto::has_form(key.epk, true)
    &&& crate::crypto::p256_sec1(key.epk, true) == Some(key.epk)
    &&& crate::crypto::p256_sec1(key.epk, false) is Some
    &&& exists|master_key: Seq<u8>| #[trigger]
        wraps(key, crate::crypto::p256_shared_secret(key.epk, key.card_pub), master_key)
}

/// What [`setup`] may return.
pub open spec fn setup_returns(
    certificate: Result<SlotKey, String>,
    serial: u32,
    r: Result<WrappedKey, WrapError>,
) -> bool {
    match certificate {
        Err(e) => r == Err::<WrappedKey, WrapError>(WrapError::NoCertificate(e)),
        Ok(SlotKey::Other) => r == Err::<WrappedKey, WrapError>(WrapError::NotP256),
        Ok(SlotKey::EcP256(point)) => match crate::crypto::p256_sec1(point@, true) {
            None => r matches Err(WrapError::InvalidPublicKey(e)) && e@ == "crypto error"@,
            Some(card_pub) => r matches Ok(key) && wrapped_for(key@, card_pub, serial),
        },
    }
}

/// Wraps a fresh random master key for the card.
///
/// `certificate` is the public key of the slot's certificate, or why it could not
/// be read; `serial` is the card's serial number. The PIV key must already exist
/// in the slot. The wrapped key is still to be written to disk.
pub fn setup(certificate: Result<SlotKey, String>, serial: u32) -> (r: Result<
    WrappedKey,
    WrapError,
>)
    ensures
        setup_returns(certificate, serial, r),
        r matches Err(WrapError::NotP256) <==> certificate == Ok::<SlotKey, String>(SlotKey::Other),
        r is Ok <==> (certificate matches Ok(SlotKey::EcP256(point)) && crate::crypto::p256_sec1(
            point@,
            true,
        ) is Some),
        r matches Ok(key) ==> key.slot == RetiredSlotId::R1 && key.serial == serial,
{
    let slot_key = match certificate {
        Ok(slot_key) => slot_key,
        Err(e) => return Err(WrapError::NoCertificate(e)),
    };
    let card_point = match slot_key {
        SlotKey::EcP256(point) => point,
        SlotKey::Other => return Err(WrapError::NotP256),
    };
    let card_pub = match reencode(card_point.as_slice(), true) {
        Ok(point) => point,
        Err(e) => return Err(WrapError::InvalidPublicKey(curve_error_text(&e))),
    };
    assert(crate::crypto::p256_sec1(card_pub@, true) == Some(card_pub@));

    let mut master_key = random_bytes::<MASTER_KEY_LEN>();
    let (epk, mut shared) = match ephemeral_agreement(card_pub.as_slice()) {
        Ok(agreed) => agreed,
        Err(e) => return Err(WrapError::InvalidPublicKey(curve_error_text(&e))),
    };
    let nonce = random_bytes::<NONCE_LEN>();
    let r = wrap(
        serial,
        card_pub.as_slice(),
        epk.as_slice(),
        shared.as_slice(),
        &nonce,
        &mut master_key,
    );
    wipe_bytes(&mut shared);
    r
}

/// A decrypted master key, if it has the length of one.
pub fn check_master_key(master_key: Vec<u8>) -> (r: Result<Vec<u8>, WrapError>)
    ensures
        r == if master_key@.len() == MASTER_KEY_LEN {
            Ok::<Vec<u8>, WrapError>(master_key)
        } else {
            Err::<Vec<u8>, WrapError>(WrapError::MasterKeyLength)
        },
{
    if master_key.len() != MASTER_KEY_LEN {
        return Err(WrapError::MasterKeyLength);
    }
    Ok(master_key)
}

/// Decrypts an encrypted master key, and wipes the key once it has served.
fn open_sealed(
    kek: &mut [u8; MASTER_KEY_LEN],
    nonce: &[u8; NONCE_LEN],
    ct: &[u8; SEALED_LEN],
) -> (r: Result<Vec<u8>, WrapError>)
    ensures
        match crate::crypto::aes256_gcm_open(old(kek)@, nonce@, ct@) {
            Some(m) => {
                &&& r matches Ok(master_key)
                &&& master_key@ == m
                &&& m.len() == MASTER_KEY_LEN
                &&& crate::crypto::aes256_gcm_seal(old(kek)@, nonce@, m) == ct@
                &&& wiped(final(kek)@)
            },
            None => {
                &&& r matches Err(WrapError::AesDecrypt(e))
                &&& e@ == "aead::Error"@
                &&& final(kek)@ == old(kek)@
            },
        },
{
    let master_key = match decrypt(kek.as_slice(), nonce, ct.as_slice()) {
        Ok(master_key) => master_key,
        Err(CipherError::Key(e)) => return Err(WrapError::AesKey(key_error_text(&e))),
        Err(CipherError::Aead(e)) => return Err(WrapError::AesDecrypt(aead_error_text(&e))),
    };
    wipe(kek);
    check_master_key(master_key)
}

/// Recovers the master key from `wrapped` with the secret that the card computed.
pub fn unwrap_key(wrapped: &WrappedKey, shared: &[u8]) -> (r: Result<Vec<u8>, WrapError>)
    ensures
        match recovered(wrapped@, shared@) {
            Some(m) => {
                &&& r matches Ok(master_key)
                &&& master_key@ == m
                &&& wraps(wrapped@, shared@, m)
            },
            None => r matches Err(WrapError::AesDecrypt(e)) && e@ == "aead::Error"@,
        },
{
    let salt = salt_of(wrapped.epk.as_slice(), wrapped.card_pub.as_slice());
    let mut kek = kdf(shared, salt.as_slice())?;
    open_sealed(&mut kek, &wrapped.nonce, &wrapped.ct)
}

/// How far recovering the master key has come, with what the last step found.
pub enum UnlockEvent {
    /// The wrapped key file was read.
    FileRead(Vec<u8>),
    /// A YubiKey with this serial number was opened.
    CardOpened { wrapped: WrappedKey, serial: u32 },
    /// The card was asked for the key agreement.
    Agreed { wrapped: WrappedKey, reply: Result<Vec<u8>, String> },
}

/// What recovering the master key does next.
pub enum UnlockAction {
    /// Open the YubiKey and learn its serial number.
    OpenCard { wrapped: WrappedKey },
    /// Tell the user that the card waits for a touch, and have the card agree on
    /// a secret between its key in `slot` and the uncompressed point `point`.
    Agree { wrapped: WrappedKey, point: Vec<u8>, slot: RetiredSlotId },
    /// The master key.
    Finish(Vec<u8>),
}

/// What [`unlock`] may return.
pub open spec fn unlock_returns(event: UnlockEvent, r: Result<UnlockAction, WrapError>) -> bool {
    match event {
        UnlockEvent::FileRead(data) => if crate::wrapped_key::is_key_file(data@) {
            &&& r matches Ok(UnlockAction::OpenCard { wrapped })
            &&& crate::wrapped_key::holds(data@, wrapped@)
        } else {
            r == Err::<UnlockAction, WrapError>(crate::wrapped_key::read_error(data@))
        },
        UnlockEvent::CardOpened { wrapped, serial } => if wrapped.serial != serial {
            r == Err::<UnlockAction, WrapError>(
                WrapError::SerialMismatch { wrapped: wrapped.serial, actual: serial },
            )
        } else {
            match crate::crypto::p256_sec1(wrapped.epk@, false) {
                Some(uncompressed) => {
                    &&& r matches Ok(UnlockAction::Agree { wrapped: same, point, slot })
                    &&& same == wrapped
                    &&& point@ == uncompressed
                    &&& crate::crypto::has_form(point@, false)
                    &&& slot == wrapped.slot
                },
                None => r matches Err(WrapError::InvalidEphemeral(e)) && e@ == "crypto error"@,
            }
        },
        UnlockEvent::Agreed { wrapped, reply } => match reply {
            Err(e) => r == Err::<UnlockAction, WrapError>(WrapError::Ecdh(e)),
            Ok(shared) => match recovered(wrapped@, shared@) {
                Some(m) => {
                    &&& r matches Ok(UnlockAction::Finish(master_key))
                    &&& master_key@ == m
                    &&& wraps(wrapped@, shared@, m)
                },
                None => r matches Err(WrapError::AesDecrypt(e)) && e@ == "aead::Error"@,
            },
        },
    }
}

/// Recovers the master key, step by step: given what the last step found, the
/// next step, or why the key cannot be recovered.
pub fn unlock(event: UnlockEvent) -> (r: Result<UnlockAction, WrapError>)
    ensures
        unlock_returns(event, r),
{
    match event {
        UnlockEvent::FileRead(data) => {
            let wrapped = WrappedKey::read(data.as_slice())?;
            Ok(UnlockAction::OpenCard { wrapped })
        },
        UnlockEvent::CardOpened { wrapped, serial } => {
            check_serial(wrapped.serial, serial)?;
            // The PIV key agreement takes the uncompressed point.
            match reencode(wrapped.epk.as_slice(), false) {
                Ok(point) => {
                    let slot = wrapped.slot;
                    Ok(UnlockAction::Agree { wrapped, point, slot })
                },
                Err(e) => Err(WrapError::InvalidEphemeral(curve_error_text(&e))),
            }
        },
        UnlockEvent::Agreed { wrapped, reply } => match reply {
            Ok(mut shared) => {
                let r = unwrap_key(&wrapped, shared.as_slice());
                wipe_bytes(&mut shared);
                Ok(UnlockAction::Finish(r?))
            },
            Err(e) => Err(WrapError::Ecdh(e)),
        },
    }
}

/// A wrapped key yields one master key to a given secret.
pub proof fn wraps_one_master_key(
    key: WrappedKeyView,
    shared: Seq<u8>,
    one: Seq<u8>,
    other: Seq<u8>,
)
    requires
        wraps(key, shared, one),
        wraps(key, shared, other),
    ensures
        one == other,
{
}

/// Unlocking undoes setup. Let `setup` wrap a master key for the card whose
/// certificate holds `point`, and let the file hold what it returned. With the
/// same card inserted, which answers with the secret that its key and the file's
/// ephemeral key share, the three steps of unlocking all succeed, and the last
/// returns the master key that was wrapped.
pub proof fn unlock_undoes_setup(
    point: Vec<u8>,
    serial: u32,
    key: WrappedKey,
    file: Vec<u8>,
    shared: Vec<u8>,
    opening: Result<UnlockAction, WrapError>,
    agreeing: Result<UnlockAction, WrapError>,
    finishing: Result<UnlockAction, WrapError>,
)
    requires
        setup_returns(Ok(SlotKey::EcP256(point)), serial, Ok(key)),
        file@ == key@.encode(),
        shared@ == crate::crypto::p256_shared_secret(key.epk@, key.card_pub@),
        unlock_returns(UnlockEvent::FileRead(file), opening),
        opening matches Ok(UnlockAction::OpenCard { wrapped }) ==> unlock_returns(
            UnlockEvent::CardOpened { wrapped, serial },
            agreeing,
        ),
        agreeing matches Ok(UnlockAction::Agree { wrapped, .. }) ==> unlock_returns(
            UnlockEvent::Agreed { wrapped, reply: Ok(shared) },
            finishing,
        ),
    ensures
        opening matches Ok(UnlockAction::OpenCard { wrapped }) && wrapped@ == key@,
        agreeing matches Ok(UnlockAction::Agree { wrapped, .. }) && wrapped@ == key@,
        finishing matches Ok(UnlockAction::Finish(master_key)) && {
            &&& wraps(key@, shared@, master_key@)
            &&& forall|m: Seq<u8>| #[trigger] wraps(key@, shared@, m) ==> m == master_key@
        },
{
    assert(key@.wf());
    crate::wrapped_key::read_gives_back_written(key@);
    match opening {
        Ok(UnlockAction::OpenCard { wrapped }) => {
            crate::wrapped_key::file_holds_one_key(file@, wrapped@, key@);
            assert(wrapped.epk@ == key@.epk);
        },
        _ => {},
    }
}

/// Recovering a master key takes one agreement with the card. Whatever file is
/// read, whichever card is opened and whatever it replies, the steps that succeed
/// are these three in this order: the card is opened; it is asked to agree with
/// the uncompressed ephemeral point of the file, in the file's slot; and the
/// master key is returned, which only a reply of the card allows.
pub proof fn unlock_takes_one_agreement(
    file: Vec<u8>,
    serial: u32,
    reply: Result<Vec<u8>, String>,
    opening: Result<UnlockAction, WrapError>,
    agreeing: Result<UnlockAction, WrapError>,
    finishing: Result<UnlockAction, WrapError>,
)
    requires
        unlock_returns(UnlockEvent::FileRead(file), opening),
        opening matches Ok(UnlockAction::OpenCard { wrapped }) ==> unlock_returns(
            UnlockEvent::CardOpened { wrapped, serial },
            agreeing,
        ),
        agreeing matches Ok(UnlockAction::Agree { wrapped, .. }) ==> unlock_returns(
            UnlockEvent::Agreed { wrapped, reply },
            finishing,
        ),
    ensures
        opening is Ok ==> opening->Ok_0 is OpenCard && crate::wrapped_key::holds(
            file@,
            opening->Ok_0->OpenCard_wrapped@,
        ),
        opening is Ok && agreeing is Ok ==> {
            &&& agreeing matches Ok(UnlockAction::Agree { wrapped, point, slot })
            &&& wrapped == opening->Ok_0->OpenCard_wrapped
            &&& wrapped.serial == serial
            &&& crate::crypto::p256_sec1(wrapped.epk@, false) == Some(point@)
            &&& crate::crypto::has_form(point@, false)
            &&& slot.key_reference() == file@[crate::wrapped_key::OFF_SLOT as int]
        },
        opening is Ok && agreeing is Ok && finishing is Ok ==> {
            &&& finishing matches Ok(UnlockAction::Finish(master_key))
            &&& reply matches Ok(shared)
            &&& wraps(opening->Ok_0->OpenCard_wrapped@, shared@, master_key@)
        },
{
}

/// The card is asked for a touch only once the inserted card is known to be the
/// one that wrapped the key.
pub proof fn touch_needs_matching_serial(event: UnlockEvent, r: Result<UnlockAction, WrapError>)
    requires
        unlock_returns(event, r),
        r matches Ok(UnlockAction::Agree { .. }),
    ensures
        event matches UnlockEvent::CardOpened { wrapped, serial } && wrapped.serial == serial,
{
}

/// Setup succeeds whenever it can. For every serial number, a certificate that
/// holds a P-256 public key gives a key wrapped in the first slot for this serial
/// number and this public key; its ephemeral key is a public key in compressed
/// form, and whoever shares the secret of the two keys recovers 32 bytes from it.
/// Every other certificate is refused, each for its own reason and for no other.
pub proof fn setup_succeeds_on_every_p256_card(
    certificate: Result<SlotKey, String>,
    serial: u32,
    r: Result<WrappedKey, WrapError>,
)
    requires
        setup_returns(certificate, serial, r),
    ensures
        certificate matches Ok(SlotKey::EcP256(point)) ==> {
            crate::crypto::p256_sec1(point@, true) matches Some(card_pub) ==> {
                &&& r matches Ok(key)
                &&& key.slot == RetiredSlotId::R1
                &&& key.serial == serial
                &&& key.card_pub@ == card_pub
                &&& crate::crypto::p256_sec1(key.epk@, true) == Some(key.epk@)
                &&& key.epk@[0] == 0x02 || key.epk@[0] == 0x03
                &&& recovered(
                    key@,
                    crate::crypto::p256_shared_secret(key.epk@, card_pub),
                ) matches Some(master_key)
                &&& master_key.len() == 32
            }
        },
        r is Ok <==> (certificate matches Ok(SlotKey::EcP256(point)) && crate::crypto::p256_sec1(
            point@,
            true,
        ) is Some),
        r matches Err(WrapError::NotP256) <==> certificate == Ok::<SlotKey, String>(SlotKey::Other),
        r matches Err(WrapError::InvalidPublicKey(_)) <==> (certificate matches Ok(
            SlotKey::EcP256(point),
        ) && crate::crypto::p256_sec1(point@, true) is None),
        r matches Err(WrapError::InvalidPublicKey(e)) ==> e@ == "crypto error"@,
        certificate matches Err(e) ==> r == Err::<WrappedKey, WrapError>(
            WrapError::NoCertificate(e),
        ),
        r matches Err(WrapError::NoCertificate(e)) ==> certificate == Err::<SlotKey, String>(e),
{
    match r {
        Ok(key) => {
            let shared = crate::crypto::p256_shared_secret(key.epk@, key.card_pub@);
            let m = choose|m: Seq<u8>| #[trigger] wraps(key@, shared, m);
            assert(recovered(key@, shared) == Some(m));
        },
        _ => {},
    }
}

/// What the serial number of the card changes is the serial number of the wrapped
/// key alone: two cards with one public key are both accepted or both refused, and
/// for the same reason.
pub proof fn setup_accepts_every_serial(
    certificate: Result<SlotKey, String>,
    one_serial: u32,
    other_serial: u32,
    one: Result<WrappedKey, WrapError>,
    other: Result<WrappedKey, WrapError>,
)
    requires
        setup_returns(certificate, one_serial, one),
        setup_returns(certificate, other_serial, other),
    ensures
        one is Ok <==> other is Ok,
        one matches Err(e) ==> other matches Err(f) && e.message_spec() == f.message_spec(),
        one matches Ok(a) ==> other matches Ok(b) && a.card_pub@ == b.card_pub@ && a.slot == b.slot
            && a.serial == one_serial && b.serial == other_serial,
{
}

/// The key that opens a file is derived from the shared secret with the 33 bytes of
/// the ephemeral key, then the 33 bytes of the card's key, as the salt, and with
/// `oo7-yubikey-v1` as the context. The file wraps what AES-256-GCM encrypts under
/// that key and the file's nonce to the file's ciphertext, and yields what it
/// decrypts.
pub proof fn file_key_is_derived_from_both_points(
    key: WrappedKey,
    shared: Seq<u8>,
    salt_bytes: Seq<u8>,
    context: Seq<u8>,
)
    requires
        salt_bytes.len() == 66,
        forall|i: int| 0 <= i < 33 ==> #[trigger] salt_bytes[i] == key.epk@[i],
        forall|i: int| 33 <= i < 66 ==> #[trigger] salt_bytes[i] == key.card_pub@[i - 33],
        crate::text::spells(context, "oo7-yubikey-v1"@),
    ensures
        recovered(key@, shared) == crate::crypto::aes256_gcm_open(
            crate::crypto::hkdf_sha256_32(salt_bytes, shared, context),
            key.nonce@,
            key.ct@,
        ),
        forall|m: Seq<u8>| #[trigger]
            wraps(key@, shared, m) <==> {
                let file_key = crate::crypto::hkdf_sha256_32(salt_bytes, shared, context);
                &&& m.len() == 32
                &&& key.ct@ == crate::crypto::aes256_gcm_seal(file_key, key.nonce@, m)
                &&& crate::crypto::aes256_gcm_open(file_key, key.nonce@, key.ct@) == Some(m)
            },
        kek(key@, shared) == crate::crypto::hkdf_sha256_32(salt_bytes, shared, context),
        info() == context,
{
    reveal_strlit("oo7-yubikey-v1");
    assert(salt(key.epk@, key.card_pub@) =~= salt_bytes);
    assert(info() =~= context);
}

/// A salt is two points end to end, the ephemeral one first.
pub proof fn salt_is_both_points(epk: Seq<u8>, card_pub: Seq<u8>)
    ensures
        salt(epk, card_pub).len() == epk.len() + card_pub.len(),
        forall|i: int| 0 <= i < epk.len() ==> salt(epk, card_pub)[i] == #[trigger] epk[i],
        forall|i: int|
            0 <= i < card_pub.len() ==> salt(epk, card_pub)[epk.len() + i]
                == #[trigger] card_pub[i],
{
}

/// A wiped key is 32 zero bytes.
pub proof fn wiped_key_is_zero(key: Seq<u8>)
    ensures
        wiped(key) <==> key.len() == 32 && forall|i: int| 0 <= i < 32 ==> #[trigger] key[i] == 0,
{
    if key.len() == 32 && forall|i: int| 0 <= i < 32 ==> #[trigger] key[i] == 0 {
        assert(key =~= Seq::new(MASTER_KEY_LEN as nat, |i: int| 0u8));
    }
}

/// Unlocking takes exactly the wrapped key files: one of 137 bytes that starts with
/// `OO7YK1` and names a retired slot leads to the card, with the key that stands in
/// it; any other is refused for what is wrong with it.
pub proof fn unlock_takes_every_key_file(file: Vec<u8>, r: Result<UnlockAction, WrapError>)
    requires
        unlock_returns(UnlockEvent::FileRead(file), r),
    ensures
        r is Ok <==> file@.len() == 137 && crate::text::spells(
            file@.subrange(0, 6),
            "OO7YK1"@,
        ) && 0x82 <= file@[6] <= 0x95,
        r matches Ok(action) ==> {
            &&& action matches UnlockAction::OpenCard { wrapped }
            &&& wrapped@.encode() == file@
        },
        r matches Err(e) ==> match e {
            WrapError::WrongLength(n) => n == file@.len() && n != 137,
            WrapError::BadMagic => file@.len() == 137 && !crate::text::spells(
                file@.subrange(0, 6),
                "OO7YK1"@,
            ),
            WrapError::InvalidSlot => file@.len() == 137 && crate::text::spells(
                file@.subrange(0, 6),
                "OO7YK1"@,
            ) && !(0x82 <= file@[6] <= 0x95),
            _ => false,
        },
{
    crate::wrapped_key::key_files_are_told_apart(file@);
    match r {
        Ok(UnlockAction::OpenCard { wrapped }) => {
            crate::wrapped_key::written_gives_back_read(file@, wrapped@);
        },
        _ => {},
    }
    assert(file@.len() == file.len());
}

/// The card that wrapped the key is always asked, about the ephemeral key in its
/// uncompressed form of 65 bytes and in the key's own slot; any other card is
/// refused with both serial numbers, before its key matters; and a file whose
/// ephemeral key is none is refused as such.
pub proof fn unlock_asks_the_right_card(
    wrapped: WrappedKey,
    serial: u32,
    r: Result<UnlockAction, WrapError>,
)
    requires
        unlock_returns(UnlockEvent::CardOpened { wrapped, serial }, r),
    ensures
        wrapped.serial != serial <==> r == Err::<UnlockAction, WrapError>(
            WrapError::SerialMismatch { wrapped: wrapped.serial, actual: serial },
        ),
        r is Ok <==> wrapped.serial == serial && crate::crypto::p256_sec1(
            wrapped.epk@,
            false,
        ) is Some,
        r matches Ok(action) ==> {
            &&& action matches UnlockAction::Agree { wrapped: same, point, slot }
            &&& same == wrapped
            &&& slot == wrapped.slot
            &&& Some(point@) == crate::crypto::p256_sec1(wrapped.epk@, false)
            &&& point@.len() == 65
            &&& point@[0] == 0x04
        },
        wrapped.serial == serial && r is Err ==> (r matches Err(WrapError::InvalidEphemeral(e))
            && e@ == "crypto error"@),
{
}

/// What the card replied decides the end: a failure is reported in the card's
/// words; a secret that opens the file gives the 32 bytes it holds, all of them and
/// nothing else; and any other secret is refused by the cipher.
pub proof fn unlock_ends_by_the_reply(
    wrapped: WrappedKey,
    reply: Result<Vec<u8>, String>,
    r: Result<UnlockAction, WrapError>,
)
    requires
        unlock_returns(UnlockEvent::Agreed { wrapped, reply }, r),
    ensures
        reply matches Err(e) ==> r == Err::<UnlockAction, WrapError>(WrapError::Ecdh(e)),
        reply matches Ok(shared) ==> {
            &&& r is Ok <==> recovered(wrapped@, shared@) is Some
            &&& r matches Ok(action) ==> {
                &&& action matches UnlockAction::Finish(master_key)
                &&& recovered(wrapped@, shared@) == Some(master_key@)
                &&& master_key@.len() == 32
            }
            &&& r matches Err(e) ==> e matches WrapError::AesDecrypt(text) && text@
                == "aead::Error"@
        },
{
}

} // verus!
