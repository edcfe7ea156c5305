use vstd::prelude::*;

use crate::file_scraper::FileScraper;
use crate::signature::{has_prefix, starts_with};

verus! {

/// PNG images: an eight-byte signature followed by a sequence of chunks, each
/// laid out as a big-endian length, a four-byte type, the payload and a
/// four-byte checksum. The image ends with its IEND chunk.
#[derive(Clone, Copy, Debug)]
pub struct PngScraper;

pub const PNG_HEADER: [u8; 8] = [0x89, 0x50, 0x4e, 0x47, 0x0d, 0x0a, 0x1a, 0x0a];

/// Bytes that a chunk takes besides its payload: length, type and checksum.
pub const CHUNK_OVERHEAD: usize = 12;

/// The chunk types that a carved image may hold, each read as a big-endian word.
pub const PNG_CHUNK_TYPES: [u32; 19] = [
    0x49484452,  // IHDR
    0x504C5445,  // PLTE
    0x49444154,  // IDAT
    0x49454E44,  // IEND
    0x74524E53,  // tRNS
    0x6348524D,  // cHRM
    0x67414D41,  // gAMA
    0x69434350,  // iCCP
    0x73424954,  // sBIT
    0x73524742,  // sRGB
    0x74455874,  // tEXt
    0x69545874,  // iTXt
    0x7A545874,  // zTXt
    0x624B4744,  // bKGD
    0x68495354,  // hIST
    0x70485973,  // pHYs
    0x73504C54,  // sPLT
    0x74494D45,  // tIME
    0x65584966,  // eXIf
];

/// The type of the chunk that ends an image: "IEND".
pub const IEND: u32 = 0x49454E44;

/// The four bytes of `raw` at `off`, read as a big-endian word.
pub open spec fn be_word(raw: Seq<u8>, off: int) -> nat {
    (raw[off] as nat) * 0x1000000 + (raw[off + 1] as nat) * 0x10000 + (raw[off + 2] as nat)
        * 0x100 + (raw[off + 3] as nat)
}

/// `t` is a chunk type that a carved image may hold.
pub open spec fn is_png_chunk_type(t: nat) -> bool {
    exists|k: int| 0 <= k < PNG_CHUNK_TYPES@.len() && PNG_CHUNK_TYPES@[k] as nat == t
}

/// Where the image ends when a chunk begins at `off`: the end of the first IEND
/// chunk reached by walking the chunks from there, or `None` where the walk
/// meets an unknown chunk type or runs past the end of `raw`.
pub open spec fn png_end_from(raw: Seq<u8>, off: int) -> Option<nat>
    decreases raw.len() - off,
{
    if off < 0 || off + 8 > raw.len() {
        None
    } else if !is_png_chunk_type(be_word(raw, off + 4)) {
        None
    } else {
        let end = off + be_word(raw, off) + CHUNK_OVERHEAD;
        if end > raw.len() {
            None
        } else if be_word(raw, off + 4) == IEND as nat {
            Some(end as nat)
        } else {
            png_end_from(raw, end)
        }
    }
}

/// Reads the big-endian word at `off`.
fn read_be_word(raw: &[u8], off: usize) -> (r: u32)
    requires
        off + 4 <= raw@.len(),
    ensures
        r as nat == be_word(raw@, off as int),
{
    (raw[off] as u32) * 0x1000000 + (raw[off + 1] as u32) * 0x10000 + (raw[off + 2] as u32)
        * 0x100 + (raw[off + 3] as u32)
}

/// Tests whether `t` is a chunk type that a carved image may hold.
fn png_chunk_type_known(t: u32) -> (r: bool)
    ensures
        r == is_png_chunk_type(t as nat),
{
    let mut k: usize = 0;
    while k < PNG_CHUNK_TYPES.len()
        invariant
            0 <= k <= PNG_CHUNK_TYPES@.len(),
            forall|j: int| 0 <= j < k ==> PNG_CHUNK_TYPES@[j] != t,
        decreases PNG_CHUNK_TYPES@.len() - k,
    {
        if PNG_CHUNK_TYPES[k] == t {
            return true;
        }
        k = k + 1;
    }
    false
}

impl FileScraper for PngScraper {
    open spec fn extension_spec(&self) -> Seq<char> {
        "png"@
    }

    open spec fn detects(&self, raw: Seq<u8>) -> bool {
        has_prefix(raw, PNG_HEADER@)
    }

    /// Everything up to the end of the IEND chunk, the chunks starting right
    /// after the signature.
    open spec fn carve(&self, raw: Seq<u8>) -> Option<nat> {
        png_end_from(raw, PNG_HEADER@.len() as int)
    }

    open spec fn needs_validation(&self) -> bool {
        false
    }

    fn extension(&self) -> (r: &'static str) {
        "png"
    }

    fn file_detected(&self, raw: &[u8]) -> (r: bool) {
        starts_with(raw, &PNG_HEADER)
    }

    fn file_bytes<'a>(&self, raw: &'a [u8]) -> (r: Option<&'a [u8]>) {
        let mut offset: usize = PNG_HEADER.len();
        loop
            invariant
                offset <= raw.len() || offset == PNG_HEADER@.len(),
                png_end_from(raw@, PNG_HEADER@.len() as int) == png_end_from(raw@, offset as int),
            decreases raw@.len() - offset,
        {
            if raw.len() < 8 || offset > raw.len() - 8 {
                return None;
            }
            let chunk_type = read_be_word(raw, offset + 4);
            if !png_chunk_type_known(chunk_type) {
                return None;
            }
            let len = read_be_word(raw, offset);
            if raw.len() - offset < CHUNK_OVERHEAD || len as usize > raw.len() - offset
                - CHUNK_OVERHEAD {
                return None;
            }
            let end = offset + len as usize + CHUNK_OVERHEAD;
            if chunk_type == IEND {
                return Some(&raw[0..end]);
            }
            offset = end;
        }
    }

    fn requires_validation(&self) -> (r: bool) {
        false
    }
}

} // verus!

verus! {

/// The chunk walk that starts at `off` arrives at a chunk at `target`.
pub open spec fn walk_visits(raw: Seq<u8>, off: int, target: int) -> bool
    decreases raw.len() - off,
{
    if off == target {
        true
    } else if off < 0 || off + 8 > raw.len() || !is_png_chunk_type(be_word(raw, off + 4)) {
        false
    } else {
        let end = off + be_word(raw, off) + CHUNK_OVERHEAD;
        end <= raw.len() && be_word(raw, off + 4) != IEND as nat && walk_visits(raw, end, target)
    }
}

/// A walk that arrives at a chunk of unknown type ends in `None`, whatever the
/// length fields say.
pub proof fn lemma_walk_unknown_type(raw: Seq<u8>, off: int, target: int)
    requires
        walk_visits(raw, off, target),
        0 <= target,
        target + 8 <= raw.len(),
        !is_png_chunk_type(be_word(raw, target + 4)),
    ensures
        png_end_from(raw, off) is None,
    decreases raw.len() - off,
{
    if off != target {
        let end = off + be_word(raw, off) + CHUNK_OVERHEAD;
        lemma_walk_unknown_type(raw, end, target);
    }
}

/// A PNG whose chunks, walked from the signature, include one of unknown type
/// is not carved, whatever its length field holds.
pub proof fn lemma_unknown_chunk_type_not_carved(raw: Seq<u8>, target: int)
    requires
        walk_visits(raw, PNG_HEADER@.len() as int, target),
        0 <= target,
        target + 8 <= raw.len(),
        !is_png_chunk_type(be_word(raw, target + 4)),
    ensures
        PngScraper.carve(raw) is None,
{
    lemma_walk_unknown_type(raw, PNG_HEADER@.len() as int, target);
}

} // verus!
