use vstd::prelude::*;

use crate::file_scraper::FileScraper;
use crate::signature::{bytes_at, has_prefix, holds_at, starts_with};

verus! {

/// JPEG images: a start-of-image marker followed by one of several segment
/// markers, and an end-of-image marker that closes the stream.
#[derive(Clone, Copy, Debug)]
pub struct JpgScraper;

/// Start of image, then a quantisation table.
pub const JPG_HEADER_1: [u8; 4] = [0xFF, 0xD8, 0xFF, 0xDB];
/// Start of image, then an APP14 segment.
pub const JPG_HEADER_2: [u8; 4] = [0xFF, 0xD8, 0xFF, 0xEE];
/// Start of image, then a JFIF APP0 segment.
pub const JPG_HEADER_3: [u8; 12] = [
    0xFF, 0xD8, 0xFF, 0xE0, 0x00, 0x10, 0x4A, 0x46, 0x49, 0x46, 0x00, 0x01,
];
/// Start of image, then an APP1 segment ...
pub const JPG_EXIF_HEADER: [u8; 4] = [0xFF, 0xD8, 0xFF, 0xE1];
/// ... whose identifier, after the two length bytes, is "Exif\0\0".
pub const JPG_EXIF_TAG: [u8; 6] = [0x45, 0x78, 0x69, 0x66, 0x00, 0x00];
/// Offset of the Exif identifier.
pub const JPG_EXIF_TAG_OFFSET: usize = 6;

/// The first byte of the end-of-image marker.
pub const JPG_EOI_0: u8 = 0xFF;
/// The second byte of the end-of-image marker.
pub const JPG_EOI_1: u8 = 0xD9;

/// `raw` holds the end-of-image marker at offset `i`.
pub open spec fn eoi_at(raw: Seq<u8>, i: int) -> bool {
    0 <= i && i + 1 < raw.len() && raw[i] == JPG_EOI_0 && raw[i + 1] == JPG_EOI_1
}

/// The first offset at or after `i` where `raw` holds the end-of-image marker.
pub open spec fn first_eoi_from(raw: Seq<u8>, i: int) -> Option<nat>
    decreases raw.len() - i,
{
    if i < 0 || i + 1 >= raw.len() {
        None
    } else if eoi_at(raw, i) {
        Some(i as nat)
    } else {
        first_eoi_from(raw, i + 1)
    }
}

/// Where the search finds a marker, it is the first one after `i`.
pub proof fn lemma_first_eoi_from(raw: Seq<u8>, i: int)
    requires
        0 <= i,
    ensures
        first_eoi_from(raw, i) matches Some(e) ==> i <= e && eoi_at(raw, e as int) && forall|
            k: int,
        |
            i <= k < e ==> !eoi_at(raw, k),
        first_eoi_from(raw, i) is None ==> forall|k: int| i <= k ==> !eoi_at(raw, k),
    decreases raw.len() - i,
{
    if i + 1 < raw.len() && !eoi_at(raw, i) {
        lemma_first_eoi_from(raw, i + 1);
    }
}

impl FileScraper for JpgScraper {
    open spec fn extension_spec(&self) -> Seq<char> {
        "jpeg"@
    }

    open spec fn detects(&self, raw: Seq<u8>) -> bool {
        has_prefix(raw, JPG_HEADER_1@) || has_prefix(raw, JPG_HEADER_2@) || has_prefix(
            raw,
            JPG_HEADER_3@,
        ) || (has_prefix(raw, JPG_EXIF_HEADER@) && holds_at(
            raw,
            JPG_EXIF_TAG_OFFSET as int,
            JPG_EXIF_TAG@,
        ))
    }

    /// Everything before the first end-of-image marker.
    open spec fn carve(&self, raw: Seq<u8>) -> Option<nat> {
        first_eoi_from(raw, 0)
    }

    open spec fn needs_validation(&self) -> bool {
        true
    }

    fn extension(&self) -> (r: &'static str) {
        "jpeg"
    }

    fn file_detected(&self, raw: &[u8]) -> (r: bool) {
        starts_with(raw, &JPG_HEADER_1) || starts_with(raw, &JPG_HEADER_2) || starts_with(
            raw,
            &JPG_HEADER_3,
        ) || (starts_with(raw, &JPG_EXIF_HEADER) && bytes_at(
            raw,
            JPG_EXIF_TAG_OFFSET,
            &JPG_EXIF_TAG,
        ))
    }

    fn file_bytes<'a>(&self, raw: &'a [u8]) -> (r: Option<&'a [u8]>) {
        let mut i: usize = 0;
        while raw.len() - i > 1
            invariant
                i <= raw.len(),
                first_eoi_from(raw@, 0) == first_eoi_from(raw@, i as int),
            decreases raw@.len() - i,
        {
            if raw[i] == JPG_EOI_0 && raw[i + 1] == JPG_EOI_1 {
                return Some(&raw[0..i]);
            }
            i = i + 1;
        }
        None
    }

    fn requires_validation(&self) -> (r: bool) {
        true
    }
}

} // verus!

verus! {

/// A window that holds no end-of-image marker is not carved.
pub proof fn lemma_no_marker_not_carved(raw: Seq<u8>)
    requires
        forall|i: int| 0 <= i ==> !eoi_at(raw, i),
    ensures
        JpgScraper.carve(raw) is None,
{
    lemma_first_eoi_from(raw, 0);
}

/// A window that starts with the end-of-image marker is carved to nothing.
pub proof fn lemma_marker_first_carves_empty(raw: Seq<u8>)
    requires
        eoi_at(raw, 0),
    ensures
        JpgScraper.carve(raw) == Some(0nat),
{
}

/// Where the window is carved, the carved bytes are followed by the first
/// end-of-image marker, and hold none themselves.
pub proof fn lemma_carve_stops_at_first_marker(raw: Seq<u8>)
    requires
        JpgScraper.carve(raw) is Some,
    ensures
        eoi_at(raw, JpgScraper.carve(raw)->0 as int),
        forall|k: int| 0 <= k < JpgScraper.carve(raw)->0 ==> !eoi_at(raw, k),
{
    lemma_first_eoi_from(raw, 0);
}

} // verus!
