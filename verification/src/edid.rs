//! Naming a monitor from its identification blob.
//!
//! The blob is untrusted input. Parsing is total: a blob that is too short or
//! lacks the header yields no name, and any other blob yields a name that is
//! not empty.

use vstd::prelude::*;
use crate::text::{hex4, push_hex4};

verus! {

/// Length of the base block of an identification blob.
pub const EDID_LEN: usize = 128;

/// Offset of the first of the four descriptor blocks.
pub const DESCRIPTOR_START: usize = 0x36;

/// Length of one descriptor block.
pub const DESCRIPTOR_LEN: usize = 18;

/// Tag of the descriptor that carries the monitor's name.
pub const NAME_TAG: u8 = 0xfc;

/// What a driver read of a blob, as a sequence of bytes.
pub open spec fn bytes_read(blob: Option<Vec<u8>>) -> Option<Seq<u8>> {
    match blob {
        Some(data) => Some(data@),
        None => None,
    }
}

/// The blob holds a base block that starts with the fixed header.
pub open spec fn has_header(edid: Seq<u8>) -> bool {
    &&& edid.len() >= 128
    &&& edid[0] == 0x00
    &&& edid[1] == 0xff
    &&& edid[2] == 0xff
    &&& edid[3] == 0xff
    &&& edid[4] == 0xff
    &&& edid[5] == 0xff
    &&& edid[6] == 0xff
    &&& edid[7] == 0x00
}

/// A byte less its bias of 64, and 0 where the byte is smaller than that.
pub open spec fn unbiased(b: u8) -> int {
    if b >= 64 {
        b - 64
    } else {
        0
    }
}

/// The manufacturer code that the two bytes at offsets 8 and 9 hold.
pub open spec fn manufacturer_id(high: u8, low: u8) -> int {
    unbiased(high) * 64 + unbiased(low)
}

/// The letter of a five-bit field: 1 is `A` and 26 is `Z`. Other fields
/// stand for no letter.
pub open spec fn letter(field: int) -> Seq<char> {
    if 1 <= field <= 26 {
        seq![(field + 64) as u8 as char]
    } else {
        Seq::empty()
    }
}

/// The letters of a manufacturer code: bits 10 to 14, then 5 to 9, then 0
/// to 4.
pub open spec fn manufacturer(high: u8, low: u8) -> Seq<char> {
    let id = manufacturer_id(high, low);
    letter((id / 1024) % 32) + letter((id / 32) % 32) + letter(id % 32)
}

/// The product code: offsets 10 and 11, high byte first.
pub open spec fn product_code(edid: Seq<u8>) -> int {
    edid[10] * 256 + edid[11]
}

/// The name that stands in when no descriptor names the monitor.
pub open spec fn fallback_name(edid: Seq<u8>) -> Seq<char> {
    manufacturer(edid[8], edid[9]) + seq![' '] + hex4(product_code(edid))
}

/// The block at `offset` is a monitor-name descriptor.
pub open spec fn is_name_descriptor(edid: Seq<u8>, offset: int) -> bool {
    &&& edid[offset] == 0x00
    &&& edid[offset + 1] == 0x00
    &&& edid[offset + 2] == 0x00
    &&& edid[offset + 3] == 0xfc
}

/// Offset of the first monitor-name descriptor among the four blocks.
pub open spec fn name_descriptor(edid: Seq<u8>) -> Option<int> {
    if is_name_descriptor(edid, 0x36) {
        Some(0x36)
    } else if is_name_descriptor(edid, 0x48) {
        Some(0x48)
    } else if is_name_descriptor(edid, 0x5a) {
        Some(0x5a)
    } else if is_name_descriptor(edid, 0x6c) {
        Some(0x6c)
    } else {
        None
    }
}

/// Number of bytes before the first line feed, or all of them.
pub open spec fn line_len(field: Seq<u8>) -> int
    decreases field.len(),
{
    if field.len() == 0 || field[0] == 0x0a {
        0
    } else {
        1 + line_len(field.skip(1))
    }
}

/// The printable ASCII characters among `bytes`, in order.
pub open spec fn printable(bytes: Seq<u8>) -> Seq<char>
    decreases bytes.len(),
{
    if bytes.len() == 0 {
        Seq::empty()
    } else if 0x20 <= bytes.last() < 0x7f {
        printable(bytes.drop_last()).push(bytes.last() as char)
    } else {
        printable(bytes.drop_last())
    }
}

/// The text of a descriptor's 13-byte field: it ends at the first line feed
/// and keeps printable ASCII only.
pub open spec fn descriptor_text(field: Seq<u8>) -> Seq<char> {
    printable(field.take(line_len(field)))
}

/// The name that the first monitor-name descriptor holds; empty without one.
pub open spec fn descriptor_name(edid: Seq<u8>) -> Seq<char> {
    match name_descriptor(edid) {
        Some(offset) => descriptor_text(edid.subrange(offset + 5, offset + 18)),
        None => Seq::empty(),
    }
}

/// The blob as far as it can be used: one that is missing or shorter than a
/// base block counts as none.
pub open spec fn usable_edid(blob: Option<Seq<u8>>) -> Option<Seq<u8>> {
    match blob {
        Some(data) => if data.len() >= 128 {
            Some(data)
        } else {
            None
        },
        None => None,
    }
}

/// The monitor name of a blob: the descriptor's where it is not empty,
/// otherwise manufacturer and product code; none without the header.
pub open spec fn edid_name(edid: Seq<u8>) -> Option<Seq<char>> {
    if !has_header(edid) {
        None
    } else if descriptor_name(edid).len() == 0 {
        Some(fallback_name(edid))
    } else {
        Some(descriptor_name(edid))
    }
}

/// A line ends at `n` when no byte before `n` is a line feed and the field
/// ends there or holds a line feed there.
pub proof fn lemma_line_len(field: Seq<u8>, n: int)
    requires
        0 <= n <= field.len(),
        forall|k: int| 0 <= k < n ==> field[k] != 0x0a,
        n == field.len() || field[n] == 0x0a,
    ensures
        line_len(field) == n,
    decreases n,
{
    if n > 0 {
        let rest = field.skip(1);
        assert forall|k: int| 0 <= k < n - 1 implies rest[k] != 0x0a by {
            assert(rest[k] == field[k + 1]);
        }
        lemma_line_len(rest, n - 1);
    }
}

/// Every name that a blob yields holds at least one character.
pub proof fn lemma_name_not_empty(edid: Seq<u8>)
    ensures
        edid_name(edid) matches Some(name) ==> name.len() > 0,
{
}

/// Appends the letter of a five-bit field, if it stands for one.
fn push_letter(out: &mut String, field: u32)
    requires
        field < 32,
    ensures
        final(out)@ == old(out)@ + letter(field as int),
{
    if 1 <= field && field <= 26 {
        let b: u8 = (field + 64) as u8;
        out.push(b as char);
    }
    assert(out@ =~= old(out)@ + letter(field as int));
}

/// Manufacturer letters, a space, and the product code in hexadecimal.
fn synthesized_name(edid: &[u8]) -> (name: String)
    requires
        edid@.len() >= 128,
    ensures
        name@ == fallback_name(edid@),
{
    let high: u32 = edid[8].saturating_sub(64) as u32;
    let low: u32 = edid[9].saturating_sub(64) as u32;
    let id: u32 = high * 64 + low;
    let code: u16 = (edid[10] as u16) * 256 + edid[11] as u16;
    let mut name = String::new();
    push_letter(&mut name, (id / 1024) % 32);
    push_letter(&mut name, (id / 32) % 32);
    push_letter(&mut name, id % 32);
    name.push(' ');
    push_hex4(&mut name, code);
    assert(name@ =~= fallback_name(edid@));
    name
}

/// Finds the first monitor-name descriptor among the four blocks.
fn find_name_descriptor(edid: &[u8]) -> (found: Option<usize>)
    requires
        edid@.len() >= 128,
    ensures
        match name_descriptor(edid@) {
            Some(offset) => found == Some(offset as usize) && offset + 18 <= 128,
            None => found.is_none(),
        },
{
    let mut block: usize = 0;
    while block < 4
        invariant
            block <= 4,
            edid@.len() >= 128,
            block >= 1 ==> !is_name_descriptor(edid@, 0x36int),
            block >= 2 ==> !is_name_descriptor(edid@, 0x48int),
            block >= 3 ==> !is_name_descriptor(edid@, 0x5aint),
            block >= 4 ==> !is_name_descriptor(edid@, 0x6cint),
        decreases 4 - block,
    {
        let offset: usize = DESCRIPTOR_START + block * DESCRIPTOR_LEN;
        if edid[offset] == 0x00 && edid[offset + 1] == 0x00 && edid[offset + 2] == 0x00
            && edid[offset + 3] == NAME_TAG {
            assert(is_name_descriptor(edid@, offset as int));
            return Some(offset);
        }
        assert(!is_name_descriptor(edid@, offset as int));
        block = block + 1;
    }
    None
}

/// Reads the text of the descriptor block at `offset`.
fn read_descriptor_text(edid: &[u8], offset: usize) -> (name: String)
    requires
        offset + 18 <= edid@.len(),
    ensures
        name@ == descriptor_text(edid@.subrange(offset + 5, offset + 18)),
{
    let ghost field = edid@.subrange(offset + 5, offset + 18);
    let len = edid.len();
    let mut name = String::new();
    let mut j: usize = 0;
    while j < 13 && edid[offset + 5 + j] != 0x0a
        invariant
            j <= 13,
            offset + 18 <= len == edid@.len(),
            field == edid@.subrange(offset + 5, offset + 18),
            forall|k: int| 0 <= k < j ==> field[k] != 0x0a,
            name@ == printable(field.take(j as int)),
        decreases 13 - j,
    {
        let c = edid[offset + 5 + j];
        assert(field[j as int] == c);
        assert(field.take(j + 1).drop_last() =~= field.take(j as int));
        assert(field.take(j + 1).last() == c);
        if c >= 0x20 && c < 0x7f {
            name.push(c as char);
        }
        j = j + 1;
    }
    proof {
        if j < 13 {
            assert(field[j as int] == edid@[offset + 5 + j]);
        }
        lemma_line_len(field, j as int);
    }
    name
}

/// What was read of a connector's identification blob, as far as it can be
/// used: `None` where nothing was read or the blob is shorter than 128
/// bytes.
pub fn read_edid(blob: Option<Vec<u8>>) -> (r: Option<Vec<u8>>)
    ensures
        match usable_edid(bytes_read(blob)) {
            Some(data) => r.is_some() && r.unwrap()@ == data,
            None => r.is_none(),
        },
{
    match blob {
        Some(data) => if data.len() >= EDID_LEN {
            Some(data)
        } else {
            None
        },
        None => None,
    }
}

/// Extracts a monitor's name from its identification blob.
///
/// Returns `None` for a blob shorter than 128 bytes or without the header.
/// Otherwise the name is the text of the first monitor-name descriptor or,
/// where there is none or its text is empty, the manufacturer letters, a
/// space and the product code as four hexadecimal digits.
pub fn parse_edid_name(edid: &[u8]) -> (r: Option<String>)
    ensures
        match edid_name(edid@) {
            Some(name) => r.is_some() && r.unwrap()@ == name && name.len() > 0,
            None => r.is_none(),
        },
{
    if edid.len() < EDID_LEN {
        return None;
    }
    if edid[0] != 0x00 || edid[1] != 0xff || edid[2] != 0xff || edid[3] != 0xff || edid[4] != 0xff
        || edid[5] != 0xff || edid[6] != 0xff || edid[7] != 0x00 {
        return None;
    }
    let name = match find_name_descriptor(edid) {
        Some(offset) => read_descriptor_text(edid, offset),
        None => String::new(),
    };
    if name.as_str().is_empty() {
        Some(synthesized_name(edid))
    } else {
        Some(name)
    }
}

} // verus!
