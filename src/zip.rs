use vstd::prelude::*;

use crate::file_scraper::FileScraper;
use crate::signature::{has_prefix, starts_with};

verus! {

/// ZIP archives, recognised by the signature of a local file header, of an
/// empty archive's end record, or of a spanned archive. No extractor.
#[derive(Clone, Copy, Debug)]
pub struct ZipScraper;

/// "PK\x03\x04": a local file header.
pub const ZIP_LOCAL_MAGIC: [u8; 4] = [0x50, 0x4B, 0x03, 0x04];
/// "PK\x05\x06": the end record of an empty archive.
pub const ZIP_EMPTY_MAGIC: [u8; 4] = [0x50, 0x4B, 0x05, 0x06];
/// "PK\x07\x08": a spanned archive.
pub const ZIP_SPANNED_MAGIC: [u8; 4] = [0x50, 0x4B, 0x07, 0x08];

impl FileScraper for ZipScraper {
    open spec fn extension_spec(&self) -> Seq<char> {
        "zip"@
    }

    open spec fn detects(&self, raw: Seq<u8>) -> bool {
        has_prefix(raw, ZIP_LOCAL_MAGIC@) || has_prefix(raw, ZIP_EMPTY_MAGIC@) || has_prefix(
            raw,
            ZIP_SPANNED_MAGIC@,
        )
    }

    open spec fn carve(&self, raw: Seq<u8>) -> Option<nat> {
        None
    }

    open spec fn needs_validation(&self) -> bool {
        true
    }

    fn extension(&self) -> (r: &'static str) {
        "zip"
    }

    fn file_detected(&self, raw: &[u8]) -> (r: bool) {
        starts_with(raw, &ZIP_LOCAL_MAGIC) || starts_with(raw, &ZIP_EMPTY_MAGIC) || starts_with(
            raw,
            &ZIP_SPANNED_MAGIC,
        )
    }

    fn file_bytes<'a>(&self, raw: &'a [u8]) -> (r: Option<&'a [u8]>) {
        None
    }

    fn requires_validation(&self) -> (r: bool) {
        true
    }
}

} // verus!
