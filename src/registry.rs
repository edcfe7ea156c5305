use vstd::prelude::*;

use crate::file_scraper::{FileScraper, SignatureScraper};
use crate::jpg::JpgScraper;
use crate::png::PngScraper;
use crate::scraper::distinct_extensions;
use crate::zip::ZipScraper;

verus! {

/// A format that a scraper can be registered with.
#[derive(Clone, Copy, Debug)]
pub enum ScraperKind {
    Jpg(JpgScraper),
    Png(PngScraper),
    Zip(ZipScraper),
    Signature(SignatureScraper),
}

impl FileScraper for ScraperKind {
    open spec fn extension_spec(&self) -> Seq<char> {
        match *self {
            ScraperKind::Jpg(s) => s.extension_spec(),
            ScraperKind::Png(s) => s.extension_spec(),
            ScraperKind::Zip(s) => s.extension_spec(),
            ScraperKind::Signature(s) => s.extension_spec(),
        }
    }

    open spec fn detects(&self, raw: Seq<u8>) -> bool {
        match *self {
            ScraperKind::Jpg(s) => s.detects(raw),
            ScraperKind::Png(s) => s.detects(raw),
            ScraperKind::Zip(s) => s.detects(raw),
            ScraperKind::Signature(s) => s.detects(raw),
        }
    }

    open spec fn carve(&self, raw: Seq<u8>) -> Option<nat> {
        match *self {
            ScraperKind::Jpg(s) => s.carve(raw),
            ScraperKind::Png(s) => s.carve(raw),
            ScraperKind::Zip(s) => s.carve(raw),
            ScraperKind::Signature(s) => s.carve(raw),
        }
    }

    open spec fn needs_validation(&self) -> bool {
        match *self {
            ScraperKind::Jpg(s) => s.needs_validation(),
            ScraperKind::Png(s) => s.needs_validation(),
            ScraperKind::Zip(s) => s.needs_validation(),
            ScraperKind::Signature(s) => s.needs_validation(),
        }
    }

    fn extension(&self) -> (r: &'static str) {
        match self {
            ScraperKind::Jpg(s) => s.extension(),
            ScraperKind::Png(s) => s.extension(),
            ScraperKind::Zip(s) => s.extension(),
            ScraperKind::Signature(s) => s.extension(),
        }
    }

    fn file_detected(&self, raw: &[u8]) -> (r: bool) {
        match self {
            ScraperKind::Jpg(s) => s.file_detected(raw),
            ScraperKind::Png(s) => s.file_detected(raw),
            ScraperKind::Zip(s) => s.file_detected(raw),
            ScraperKind::Signature(s) => s.file_detected(raw),
        }
    }

    fn file_bytes<'a>(&self, raw: &'a [u8]) -> (r: Option<&'a [u8]>) {
        match self {
            ScraperKind::Jpg(s) => s.file_bytes(raw),
            ScraperKind::Png(s) => s.file_bytes(raw),
            ScraperKind::Zip(s) => s.file_bytes(raw),
            ScraperKind::Signature(s) => s.file_bytes(raw),
        }
    }

    fn requires_validation(&self) -> (r: bool) {
        match self {
            ScraperKind::Jpg(s) => s.requires_validation(),
            ScraperKind::Png(s) => s.requires_validation(),
            ScraperKind::Zip(s) => s.requires_validation(),
            ScraperKind::Signature(s) => s.requires_validation(),
        }
    }
}

/// The formats that a scraper is registered with by default, in order.
pub open spec fn default_scrapers_spec() -> Seq<ScraperKind> {
    seq![
        ScraperKind::Jpg(JpgScraper),
        ScraperKind::Png(PngScraper),
        ScraperKind::Signature(SignatureScraper::Wav),
        ScraperKind::Signature(SignatureScraper::Aiff),
        ScraperKind::Signature(SignatureScraper::Pdf),
        ScraperKind::Signature(SignatureScraper::Midi),
        ScraperKind::Signature(SignatureScraper::Rtf),
        ScraperKind::Signature(SignatureScraper::Mpeg4),
        ScraperKind::Signature(SignatureScraper::X509Cert),
    ]
}

/// The registered formats of a scraper, in order: JPEG, PNG, then the formats
/// recognised by signature alone.
pub fn default_scrapers() -> (r: Vec<ScraperKind>)
    ensures
        r@ == default_scrapers_spec(),
{
    vec![
        ScraperKind::Jpg(JpgScraper),
        ScraperKind::Png(PngScraper),
        ScraperKind::Signature(SignatureScraper::Wav),
        ScraperKind::Signature(SignatureScraper::Aiff),
        ScraperKind::Signature(SignatureScraper::Pdf),
        ScraperKind::Signature(SignatureScraper::Midi),
        ScraperKind::Signature(SignatureScraper::Rtf),
        ScraperKind::Signature(SignatureScraper::Mpeg4),
        ScraperKind::Signature(SignatureScraper::X509Cert),
    ]
}

} // verus!

verus! {

/// No two of the default formats share an extension.
pub proof fn lemma_default_extensions_distinct()
    ensures
        distinct_extensions(default_scrapers_spec()),
{
    reveal_strlit("jpeg");
    reveal_strlit("png");
    reveal_strlit("wav");
    reveal_strlit("aiff");
    reveal_strlit("pdf");
    reveal_strlit("midi");
    reveal_strlit("rtf");
    reveal_strlit("mp4");
    reveal_strlit("crt");
    let s = default_scrapers_spec();
    assert forall|i: int, j: int|
        0 <= i < s.len() && 0 <= j < s.len() && i != j implies s[i].extension_spec()
        != s[j].extension_spec() by {
        let a = s[i].extension_spec();
        let b = s[j].extension_spec();
        assert(a.len() != b.len() || a[0] != b[0] || a[1] != b[1]);
    }
}

} // verus!
