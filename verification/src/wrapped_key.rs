//! The wrapped key and its file layout.
//!
//! ```text
//! magic[6] | slot[1] | serial[4] | card_pub[33] | epk[33] | nonce[12] | ct+tag[48]
//! ```
//!
//! The serial number is little-endian.

use crate::error::WrapError;
use vstd::prelude::*;
use vstd::slice::*;

verus! {

/// Length of a master key.
pub const MASTER_KEY_LEN: usize = 32;

/// Length of a compressed SEC-1 P-256 point.
pub const POINT_LEN: usize = 33;

/// Length of an AES-GCM nonce.
pub const NONCE_LEN: usize = 12;

/// Length of an AES-GCM tag.
pub const TAG_LEN: usize = 16;

/// Length of an encrypted master key with its tag.
pub const SEALED_LEN: usize = MASTER_KEY_LEN + TAG_LEN;

/// Length of the magic bytes.
pub const MAGIC_LEN: usize = 6;

/// Length of a wrapped key file.
pub const FILE_LEN: usize = 6 + 1 + 4 + POINT_LEN + POINT_LEN + NONCE_LEN + MASTER_KEY_LEN
    + TAG_LEN;

pub const OFF_SLOT: usize = 6;

pub const OFF_SERIAL: usize = 7;

pub const OFF_CARD_PUB: usize = 11;

pub const OFF_EPK: usize = OFF_CARD_PUB + POINT_LEN;

pub const OFF_NONCE: usize = OFF_EPK + POINT_LEN;

pub const OFF_CT: usize = OFF_NONCE + NONCE_LEN;

/// The bytes every wrapped key file starts with: `OO7YK1`.
pub open spec fn magic() -> Seq<u8> {
    seq![0x4fu8, 0x4f, 0x37, 0x59, 0x4b, 0x31]
}

/// A retired PIV key management slot.
#[derive(Clone, Copy, Debug, PartialEq, Eq, Structural)]
pub enum RetiredSlotId {
    R1,
    R2,
    R3,
    R4,
    R5,
    R6,
    R7,
    R8,
    R9,
    R10,
    R11,
    R12,
    R13,
    R14,
    R15,
    R16,
    R17,
    R18,
    R19,
    R20,
}

/// The slot that holds the wrapping key.
pub const SLOT: RetiredSlotId = RetiredSlotId::R1;

impl RetiredSlotId {
    /// The slot's number, from 1 to 20.
    pub open spec fn number(self) -> int {
        match self {
            RetiredSlotId::R1 => 1,
            RetiredSlotId::R2 => 2,
            RetiredSlotId::R3 => 3,
            RetiredSlotId::R4 => 4,
            RetiredSlotId::R5 => 5,
            RetiredSlotId::R6 => 6,
            RetiredSlotId::R7 => 7,
            RetiredSlotId::R8 => 8,
            RetiredSlotId::R9 => 9,
            RetiredSlotId::R10 => 10,
            RetiredSlotId::R11 => 11,
            RetiredSlotId::R12 => 12,
            RetiredSlotId::R13 => 13,
            RetiredSlotId::R14 => 14,
            RetiredSlotId::R15 => 15,
            RetiredSlotId::R16 => 16,
            RetiredSlotId::R17 => 17,
            RetiredSlotId::R18 => 18,
            RetiredSlotId::R19 => 19,
            RetiredSlotId::R20 => 20,
        }
    }

    /// The PIV key reference of the slot: the references run on from `0x82`.
    pub open spec fn key_reference(self) -> int {
        0x81 + self.number()
    }

    /// The PIV key reference of the slot.
    pub fn to_byte(self) -> (r: u8)
        ensures
            r == self.key_reference(),
    {
        match self {
            RetiredSlotId::R1 => 0x82,
            RetiredSlotId::R2 => 0x83,
            RetiredSlotId::R3 => 0x84,
            RetiredSlotId::R4 => 0x85,
            RetiredSlotId::R5 => 0x86,
            RetiredSlotId::R6 => 0x87,
            RetiredSlotId::R7 => 0x88,
            RetiredSlotId::R8 => 0x89,
            RetiredSlotId::R9 => 0x8a,
            RetiredSlotId::R10 => 0x8b,
            RetiredSlotId::R11 => 0x8c,
            RetiredSlotId::R12 => 0x8d,
            RetiredSlotId::R13 => 0x8e,
            RetiredSlotId::R14 => 0x8f,
            RetiredSlotId::R15 => 0x90,
            RetiredSlotId::R16 => 0x91,
            RetiredSlotId::R17 => 0x92,
            RetiredSlotId::R18 => 0x93,
            RetiredSlotId::R19 => 0x94,
            RetiredSlotId::R20 => 0x95,
        }
    }

    /// The slot with the PIV key reference `value`, if there is one.
    pub fn from_byte(value: u8) -> (r: Option<RetiredSlotId>)
        ensures
            r is Some <==> 0x82 <= value <= 0x95,
            r matches Some(slot) ==> slot.key_reference() == value,
    {
        match value {
            0x82 => Some(RetiredSlotId::R1),
            0x83 => Some(RetiredSlotId::R2),
            0x84 => Some(RetiredSlotId::R3),
            0x85 => Some(RetiredSlotId::R4),
            0x86 => Some(RetiredSlotId::R5),
            0x87 => Some(RetiredSlotId::R6),
            0x88 => Some(RetiredSlotId::R7),
            0x89 => Some(RetiredSlotId::R8),
            0x8a => Some(RetiredSlotId::R9),
            0x8b => Some(RetiredSlotId::R10),
            0x8c => Some(RetiredSlotId::R11),
            0x8d => Some(RetiredSlotId::R12),
            0x8e => Some(RetiredSlotId::R13),
            0x8f => Some(RetiredSlotId::R14),
            0x90 => Some(RetiredSlotId::R15),
            0x91 => Some(RetiredSlotId::R16),
            0x92 => Some(RetiredSlotId::R17),
            0x93 => Some(RetiredSlotId::R18),
            0x94 => Some(RetiredSlotId::R19),
            0x95 => Some(RetiredSlotId::R20),
            _ => None,
        }
    }
}

/// The number that four little-endian bytes stand for.
pub open spec fn le32(b: Seq<u8>) -> int {
    b[0] + 0x100 * b[1] + 0x1_0000 * b[2] + 0x100_0000 * b[3]
}

/// The four little-endian bytes of `x`.
pub open spec fn le32_bytes(x: u32) -> Seq<u8> {
    seq![
        (x % 0x100) as u8,
        (x / 0x100 % 0x100) as u8,
        (x / 0x1_0000 % 0x100) as u8,
        (x / 0x100_0000) as u8,
    ]
}

/// A wrapped master key: what the card needs to recover it, and the encrypted key.
#[derive(Clone, Copy, Debug)]
pub struct WrappedKey {
    pub slot: RetiredSlotId,
    pub serial: u32,
    pub card_pub: [u8; POINT_LEN],
    pub epk: [u8; POINT_LEN],
    pub nonce: [u8; NONCE_LEN],
    pub ct: [u8; SEALED_LEN],
}

/// The fields of a wrapped key as mathematical values.
#[verifier::ext_equal]
pub struct WrappedKeyView {
    pub slot: RetiredSlotId,
    pub serial: u32,
    pub card_pub: Seq<u8>,
    pub epk: Seq<u8>,
    pub nonce: Seq<u8>,
    pub ct: Seq<u8>,
}

impl View for WrappedKey {
    type V = WrappedKeyView;

    open spec fn view(&self) -> WrappedKeyView {
        WrappedKeyView {
            slot: self.slot,
            serial: self.serial,
            card_pub: self.card_pub@,
            epk: self.epk@,
            nonce: self.nonce@,
            ct: self.ct@,
        }
    }
}

impl WrappedKeyView {
    /// Every field has its one length.
    pub open spec fn wf(self) -> bool {
        &&& self.card_pub.len() == POINT_LEN
        &&& self.epk.len() == POINT_LEN
        &&& self.nonce.len() == NONCE_LEN
        &&& self.ct.len() == SEALED_LEN
    }

    /// The file that holds this key.
    pub open spec fn encode(self) -> Seq<u8> {
        magic() + seq![self.slot.key_reference() as u8] + le32_bytes(self.serial) + self.card_pub
            + self.epk + self.nonce + self.ct
    }
}

/// A file that holds a wrapped key: its length, its magic bytes and its slot are right.
pub open spec fn is_key_file(data: Seq<u8>) -> bool {
    &&& data.len() == FILE_LEN
    &&& data.subrange(0, MAGIC_LEN as int) == magic()
    &&& 0x82 <= data[OFF_SLOT as int] <= 0x95
}

/// `key` is the key that the file `data` holds.
pub open spec fn holds(data: Seq<u8>, key: WrappedKeyView) -> bool {
    &&& key.slot.key_reference() == data[OFF_SLOT as int]
    &&& key.serial == le32(data.subrange(OFF_SERIAL as int, OFF_CARD_PUB as int))
    &&& key.card_pub == data.subrange(OFF_CARD_PUB as int, OFF_EPK as int)
    &&& key.epk == data.subrange(OFF_EPK as int, OFF_NONCE as int)
    &&& key.nonce == data.subrange(OFF_NONCE as int, OFF_CT as int)
    &&& key.ct == data.subrange(OFF_CT as int, FILE_LEN as int)
}

/// Why `data` is no wrapped key file: the first of its three marks that is wrong.
pub open spec fn read_error(data: Seq<u8>) -> WrapError {
    if data.len() != FILE_LEN {
        WrapError::WrongLength(data.len() as usize)
    } else if data.subrange(0, MAGIC_LEN as int) != magic() {
        WrapError::BadMagic
    } else {
        WrapError::InvalidSlot
    }
}

/// Tells whether `data` starts with the magic bytes.
fn has_magic(data: &[u8]) -> (r: bool)
    requires
        data@.len() >= MAGIC_LEN,
    ensures
        r == (data@.subrange(0, MAGIC_LEN as int) == magic()),
{
    let r = data[0] == 0x4f && data[1] == 0x4f && data[2] == 0x37 && data[3] == 0x59 && data[4]
        == 0x4b && data[5] == 0x31;
    proof {
        let head = data@.subrange(0, MAGIC_LEN as int);
        assert(head[0] == data@[0] && head[1] == data@[1] && head[2] == data@[2] && head[3]
            == data@[3] && head[4] == data@[4] && head[5] == data@[5]);
        if r {
            assert(head =~= magic());
        }
    }
    r
}

/// The point that starts at `at`.
fn point_at(data: &[u8], at: usize) -> (r: [u8; POINT_LEN])
    requires
        at + POINT_LEN <= data@.len(),
    ensures
        r@ == data@.subrange(at as int, at + POINT_LEN),
{
    let len: usize = data.len();
    let mut r = [0u8; POINT_LEN];
    for i in 0..POINT_LEN
        invariant
            len == data@.len(),
            at + POINT_LEN <= len,
            forall|j: int| 0 <= j < i ==> r@[j] == data@[at + j],
    {
        r[i] = data[at + i];
    }
    assert(r@ =~= data@.subrange(at as int, at + POINT_LEN));
    r
}

/// The nonce that starts at `at`.
fn nonce_at(data: &[u8], at: usize) -> (r: [u8; NONCE_LEN])
    requires
        at + NONCE_LEN <= data@.len(),
    ensures
        r@ == data@.subrange(at as int, at + NONCE_LEN),
{
    let len: usize = data.len();
    let mut r = [0u8; NONCE_LEN];
    for i in 0..NONCE_LEN
        invariant
            len == data@.len(),
            at + NONCE_LEN <= len,
            forall|j: int| 0 <= j < i ==> r@[j] == data@[at + j],
    {
        r[i] = data[at + i];
    }
    assert(r@ =~= data@.subrange(at as int, at + NONCE_LEN));
    r
}

/// The encrypted master key that starts at `at`.
fn sealed_at(data: &[u8], at: usize) -> (r: [u8; SEALED_LEN])
    requires
        at + SEALED_LEN <= data@.len(),
    ensures
        r@ == data@.subrange(at as int, at + SEALED_LEN),
{
    let len: usize = data.len();
    let mut r = [0u8; SEALED_LEN];
    for i in 0..SEALED_LEN
        invariant
            len == data@.len(),
            at + SEALED_LEN <= len,
            forall|j: int| 0 <= j < i ==> r@[j] == data@[at + j],
    {
        r[i] = data[at + i];
    }
    assert(r@ =~= data@.subrange(at as int, at + SEALED_LEN));
    r
}

/// The compressed point that `bytes` holds, if it has the length of one.
pub fn to_point(bytes: &[u8]) -> (r: Option<[u8; POINT_LEN]>)
    ensures
        r is Some <==> bytes@.len() == POINT_LEN,
        r matches Some(point) ==> point@ == bytes@,
{
    if bytes.len() != POINT_LEN {
        return None;
    }
    let point = point_at(bytes, 0);
    assert(point@ =~= bytes@);
    Some(point)
}

/// The encrypted master key that `bytes` holds, if it has the length of one.
pub fn to_sealed(bytes: &[u8]) -> (r: Option<[u8; SEALED_LEN]>)
    ensures
        r is Some <==> bytes@.len() == SEALED_LEN,
        r matches Some(sealed) ==> sealed@ == bytes@,
{
    if bytes.len() != SEALED_LEN {
        return None;
    }
    let sealed = sealed_at(bytes, 0);
    assert(sealed@ =~= bytes@);
    Some(sealed)
}

impl WrappedKey {
    /// The key that the wrapped key file `data` holds.
    pub fn read(data: &[u8]) -> (r: Result<WrappedKey, WrapError>)
        ensures
            match r {
                Ok(key) => is_key_file(data@) && holds(data@, key@),
                Err(e) => !is_key_file(data@) && e == read_error(data@),
            },
    {
        if data.len() != FILE_LEN {
            return Err(WrapError::WrongLength(data.len()));
        }
        if !has_magic(data) {
            return Err(WrapError::BadMagic);
        }
        let slot = match RetiredSlotId::from_byte(data[OFF_SLOT]) {
            Some(slot) => slot,
            None => return Err(WrapError::InvalidSlot),
        };
        let serial: u32 = data[OFF_SERIAL] as u32 + 0x100 * (data[OFF_SERIAL + 1] as u32)
            + 0x1_0000 * (data[OFF_SERIAL + 2] as u32) + 0x100_0000 * (data[OFF_SERIAL
            + 3] as u32);
        Ok(
            WrappedKey {
                slot,
                serial,
                card_pub: point_at(data, OFF_CARD_PUB),
                epk: point_at(data, OFF_EPK),
                nonce: nonce_at(data, OFF_NONCE),
                ct: sealed_at(data, OFF_CT),
            },
        )
    }

    /// The wrapped key file that holds this key.
    pub fn write(&self) -> (r: Vec<u8>)
        ensures
            r@ == self@.encode(),
    {
        let mut data: Vec<u8> = Vec::with_capacity(FILE_LEN);
        let magic_bytes: [u8; 6] = [0x4f, 0x4f, 0x37, 0x59, 0x4b, 0x31];
        data.extend_from_slice(magic_bytes.as_slice());
        data.push(self.slot.to_byte());
        data.push((self.serial % 0x100) as u8);
        data.push((self.serial / 0x100 % 0x100) as u8);
        data.push((self.serial / 0x1_0000 % 0x100) as u8);
        data.push((self.serial / 0x100_0000) as u8);
        data.extend_from_slice(self.card_pub.as_slice());
        data.extend_from_slice(self.epk.as_slice());
        data.extend_from_slice(self.nonce.as_slice());
        data.extend_from_slice(self.ct.as_slice());
        assert(data@ =~= self@.encode());
        data
    }
}

/// A file holds one key: its bytes fix every field.
pub proof fn file_holds_one_key(data: Seq<u8>, a: WrappedKeyView, b: WrappedKeyView)
    requires
        holds(data, a),
        holds(data, b),
    ensures
        a == b,
{
    assert(a.slot == b.slot);
}

/// Reading gives back what was written: the file written for a key is a wrapped
/// key file, and the key it holds is that key.
pub proof fn read_gives_back_written(key: WrappedKeyView)
    requires
        key.wf(),
    ensures
        key.encode().len() == FILE_LEN,
        is_key_file(key.encode()),
        holds(key.encode(), key),
{
    let data = key.encode();
    assert(data.subrange(0, MAGIC_LEN as int) =~= magic());
    assert(data.subrange(OFF_SERIAL as int, OFF_CARD_PUB as int) =~= le32_bytes(key.serial));
    assert(le32(le32_bytes(key.serial)) == key.serial);
    assert(data.subrange(OFF_CARD_PUB as int, OFF_EPK as int) =~= key.card_pub);
    assert(data.subrange(OFF_EPK as int, OFF_NONCE as int) =~= key.epk);
    assert(data.subrange(OFF_NONCE as int, OFF_CT as int) =~= key.nonce);
    assert(data.subrange(OFF_CT as int, FILE_LEN as int) =~= key.ct);
}

/// Four bytes are the little-endian bytes of the number they stand for.
proof fn le32_bytes_of_le32(b: Seq<u8>, x: u32)
    requires
        b.len() == 4,
        x == le32(b),
    ensures
        le32_bytes(x) == b,
{
    let (b0, b1, b2, b3) = (b[0], b[1], b[2], b[3]);
    assert(x % 0x100 == b0 && x / 0x100 % 0x100 == b1 && x / 0x1_0000 % 0x100 == b2 && x
        / 0x100_0000 == b3);
    assert(le32_bytes(x) =~= b);
}

/// Writing gives back what was read: a key read from a file is written as that
/// very file, so no two files hold the same key.
pub proof fn written_gives_back_read(data: Seq<u8>, key: WrappedKeyView)
    requires
        is_key_file(data),
        holds(data, key),
    ensures
        key.wf(),
        key.encode() == data,
{
    let serial = data.subrange(OFF_SERIAL as int, OFF_CARD_PUB as int);
    le32_bytes_of_le32(serial, key.serial);
    let head = data.subrange(0, OFF_SERIAL as int);
    assert(magic() + seq![key.slot.key_reference() as u8] =~= head) by {
        assert(data.subrange(0, MAGIC_LEN as int) == magic());
        assert forall|i: int| 0 <= i < MAGIC_LEN implies #[trigger] magic()[i] == data[i] by {
            assert(data.subrange(0, MAGIC_LEN as int)[i] == data[i]);
        }
    }
    assert(head + serial + key.card_pub + key.epk + key.nonce + key.ct =~= data);
}

/// The retired slots have the key references `0x82` to `0x95`, in order, and the
/// wrapping key is in the first.
pub proof fn slots_have_references()
    ensures
        RetiredSlotId::R1.key_reference() == 0x82,
        RetiredSlotId::R2.key_reference() == 0x83,
        RetiredSlotId::R3.key_reference() == 0x84,
        RetiredSlotId::R4.key_reference() == 0x85,
        RetiredSlotId::R5.key_reference() == 0x86,
        RetiredSlotId::R6.key_reference() == 0x87,
        RetiredSlotId::R7.key_reference() == 0x88,
        RetiredSlotId::R8.key_reference() == 0x89,
        RetiredSlotId::R9.key_reference() == 0x8a,
        RetiredSlotId::R10.key_reference() == 0x8b,
        RetiredSlotId::R11.key_reference() == 0x8c,
        RetiredSlotId::R12.key_reference() == 0x8d,
        RetiredSlotId::R13.key_reference() == 0x8e,
        RetiredSlotId::R14.key_reference() == 0x8f,
        RetiredSlotId::R15.key_reference() == 0x90,
        RetiredSlotId::R16.key_reference() == 0x91,
        RetiredSlotId::R17.key_reference() == 0x92,
        RetiredSlotId::R18.key_reference() == 0x93,
        RetiredSlotId::R19.key_reference() == 0x94,
        RetiredSlotId::R20.key_reference() == 0x95,
        SLOT == RetiredSlotId::R1,
{
}

/// Where each part of a key stands in its file: the bytes `OO7YK1`, the slot, the
/// serial number with its least significant byte first, the card's key, the
/// ephemeral key, the nonce and the encrypted master key, and nothing else.
pub proof fn written_file_has_layout(key: WrappedKey)
    ensures
        key@.encode().len() == 137,
        crate::text::spells(key@.encode().subrange(0, 6), "OO7YK1"@),
        key@.encode()[6] == key.slot.key_reference(),
        key@.encode()[7] + 0x100 * key@.encode()[8] + 0x1_0000 * key@.encode()[9] + 0x100_0000
            * key@.encode()[10] == key.serial,
        forall|i: int| 0 <= i < 33 ==> key@.encode()[11 + i] == #[trigger] key.card_pub@[i],
        forall|i: int| 0 <= i < 33 ==> key@.encode()[44 + i] == #[trigger] key.epk@[i],
        forall|i: int| 0 <= i < 12 ==> key@.encode()[77 + i] == #[trigger] key.nonce@[i],
        forall|i: int| 0 <= i < 48 ==> key@.encode()[89 + i] == #[trigger] key.ct@[i],
{
    reveal_strlit("OO7YK1");
    slots_have_references();
    let x = key.serial;
    assert(x % 0x100 + 0x100 * (x / 0x100 % 0x100) + 0x1_0000 * (x / 0x1_0000 % 0x100) + 0x100_0000
        * (x / 0x100_0000) == x);
}

/// Which files are wrapped key files, and what is wrong with any other: a file has
/// 137 bytes, starts with `OO7YK1` and names a retired slot; the first of these
/// that fails is the one reported, with the length where that is it.
pub proof fn key_files_are_told_apart(data: Seq<u8>)
    ensures
        is_key_file(data) <==> data.len() == 137 && crate::text::spells(
            data.subrange(0, 6),
            "OO7YK1"@,
        ) && 0x82 <= data[6] <= 0x95,
        data.len() != 137 ==> read_error(data) == WrapError::WrongLength(data.len() as usize),
        data.len() == 137 ==> (read_error(data) is BadMagic <==> !crate::text::spells(
            data.subrange(0, 6),
            "OO7YK1"@,
        )),
        data.len() == 137 && crate::text::spells(data.subrange(0, 6), "OO7YK1"@) ==> read_error(
            data,
        ) is InvalidSlot,
{
    reveal_strlit("OO7YK1");
    if data.len() == 137 {
        let head = data.subrange(0, 6);
        if crate::text::spells(head, "OO7YK1"@) {
            assert(head[0] == 0x4f && head[1] == 0x4f && head[2] == 0x37 && head[3] == 0x59
                && head[4] == 0x4b && head[5] == 0x31);
            assert(head =~= magic());
        }
    }
}

/// Where each part of a key is found in a file.
pub proof fn read_key_has_layout(data: Seq<u8>, key: WrappedKey)
    requires
        data.len() == 137,
        holds(data, key@),
    ensures
        key.slot.key_reference() == data[6],
        key.serial == data[7] + 0x100 * data[8] + 0x1_0000 * data[9] + 0x100_0000 * data[10],
        forall|i: int| 0 <= i < 33 ==> #[trigger] key.card_pub@[i] == data[11 + i],
        forall|i: int| 0 <= i < 33 ==> #[trigger] key.epk@[i] == data[44 + i],
        forall|i: int| 0 <= i < 12 ==> #[trigger] key.nonce@[i] == data[77 + i],
        forall|i: int| 0 <= i < 48 ==> #[trigger] key.ct@[i] == data[89 + i],
{
    let serial = data.subrange(7, 11);
    assert(serial[0] == data[7] && serial[1] == data[8] && serial[2] == data[9] && serial[3]
        == data[10]);
    assert(key.card_pub@ =~= data.subrange(11, 44));
    assert(key.epk@ =~= data.subrange(44, 77));
    assert(key.nonce@ =~= data.subrange(77, 89));
    assert(key.ct@ =~= data.subrange(89, 137));
}

} // verus!
