use vstd::prelude::*;

use crate::signature::{bytes_at, has_prefix, holds_at, starts_with};

verus! {

/// A carving format: recognises where a file of its type starts and, where it
/// can, where that file ends.
pub trait FileScraper {
    /// The format identifier, used as directory name, file extension and report key.
    spec fn extension_spec(&self) -> Seq<char>;

    /// A file of this format begins at the start of `raw`.
    spec fn detects(&self, raw: Seq<u8>) -> bool;

    /// The length of the file that begins at the start of `raw`, or `None` where
    /// the format declines to carve (no end found, a structural anomaly, or no
    /// extractor at all).
    spec fn carve(&self, raw: Seq<u8>) -> Option<nat>;

    /// Carved bytes must be decoded before they are kept.
    spec fn needs_validation(&self) -> bool;

    /// File type extension.
    fn extension(&self) -> (r: &'static str)
        ensures
            r@ == self.extension_spec(),
    ;

    /// Is a file detectable at the beginning of the `raw` slice.
    fn file_detected(&self, raw: &[u8]) -> (r: bool)
        ensures
            r == self.detects(raw@),
    ;

    /// The bytes of the file that begins at the start of `raw`, where they can be
    /// delimited. This does not guarantee that the file is valid: see
    /// `requires_validation`.
    fn file_bytes<'a>(&self, raw: &'a [u8]) -> (r: Option<&'a [u8]>)
        ensures
            match self.carve(raw@) {
                Some(n) => n <= raw@.len() && r is Some && r->0@ == raw@.subrange(0, n as int),
                None => r is None,
            },
    ;

    /// Whether carved bytes must be validated before they are kept.
    fn requires_validation(&self) -> (r: bool)
        ensures
            r == self.needs_validation(),
    ;
}

/// Counts of carved files of one format.
#[derive(Clone, Copy, Debug, PartialEq, Eq, Structural)]
pub struct FileScraperReport {
    pub valid_files: usize,
    pub invalid_files: usize,
}

impl Default for FileScraperReport {
    fn default() -> (r: Self)
        ensures
            r.valid_files == 0,
            r.invalid_files == 0,
    {
        FileScraperReport { valid_files: 0, invalid_files: 0 }
    }
}

/// Formats that are recognised by their signature alone. None of them carves:
/// they are only counted as detected.
#[derive(Clone, Copy, Debug, PartialEq, Eq, Structural)]
pub enum SignatureScraper {
    Wav,
    Aiff,
    Pdf,
    Midi,
    Rtf,
    Mpeg4,
    X509Cert,
}

/// "RIFF"
pub const RIFF_MAGIC: [u8; 4] = [0x52, 0x49, 0x46, 0x46];
/// "WAVE", at offset 8 of a RIFF file
pub const WAVE_TAG: [u8; 4] = [0x57, 0x41, 0x56, 0x45];
/// "FORM"
pub const FORM_MAGIC: [u8; 4] = [0x46, 0x4F, 0x52, 0x4D];
/// "AIFF", at offset 8 of a FORM file
pub const AIFF_TAG: [u8; 4] = [0x41, 0x49, 0x46, 0x46];
/// "%PDF-"
pub const PDF_MAGIC: [u8; 5] = [0x25, 0x50, 0x44, 0x46, 0x2D];
/// "MThd"
pub const MIDI_MAGIC: [u8; 4] = [0x4D, 0x54, 0x68, 0x64];
/// "{\rtf1"
pub const RTF_MAGIC: [u8; 6] = [0x7B, 0x5C, 0x72, 0x74, 0x66, 0x31];
/// "ftypMSNV"
pub const MPEG4_MAGIC: [u8; 8] = [0x66, 0x74, 0x79, 0x70, 0x4D, 0x53, 0x4E, 0x56];
/// "-----BEGIN CERTIFICATE-----"
pub const X509_MAGIC: [u8; 27] = [
    0x2D, 0x2D, 0x2D, 0x2D, 0x2D, 0x42, 0x45, 0x47, 0x49, 0x4E, 0x20, 0x43, 0x45, 0x52, 0x54,
    0x49, 0x46, 0x49, 0x43, 0x41, 0x54, 0x45, 0x2D, 0x2D, 0x2D, 0x2D, 0x2D,
];

/// Offset of the form type inside a RIFF or FORM header.
pub const FORM_TYPE_OFFSET: usize = 8;

impl SignatureScraper {
    /// The signature that a file of this format starts with.
    pub open spec fn magic(self) -> Seq<u8> {
        match self {
            SignatureScraper::Wav => RIFF_MAGIC@,
            SignatureScraper::Aiff => FORM_MAGIC@,
            SignatureScraper::Pdf => PDF_MAGIC@,
            SignatureScraper::Midi => MIDI_MAGIC@,
            SignatureScraper::Rtf => RTF_MAGIC@,
            SignatureScraper::Mpeg4 => MPEG4_MAGIC@,
            SignatureScraper::X509Cert => X509_MAGIC@,
        }
    }

    /// The form type that must follow at offset 8, for the container formats.
    pub open spec fn form_type(self) -> Option<Seq<u8>> {
        match self {
            SignatureScraper::Wav => Some(WAVE_TAG@),
            SignatureScraper::Aiff => Some(AIFF_TAG@),
            _ => None,
        }
    }
}

impl FileScraper for SignatureScraper {
    open spec fn extension_spec(&self) -> Seq<char> {
        match *self {
            SignatureScraper::Wav => "wav"@,
            SignatureScraper::Aiff => "aiff"@,
            SignatureScraper::Pdf => "pdf"@,
            SignatureScraper::Midi => "midi"@,
            SignatureScraper::Rtf => "rtf"@,
            SignatureScraper::Mpeg4 => "mp4"@,
            SignatureScraper::X509Cert => "crt"@,
        }
    }

    open spec fn detects(&self, raw: Seq<u8>) -> bool {
        has_prefix(raw, self.magic()) && match self.form_type() {
            Some(t) => holds_at(raw, FORM_TYPE_OFFSET as int, t),
            None => true,
        }
    }

    open spec fn carve(&self, raw: Seq<u8>) -> Option<nat> {
        None
    }

    open spec fn needs_validation(&self) -> bool {
        false
    }

    fn extension(&self) -> (r: &'static str) {
        match self {
            SignatureScraper::Wav => "wav",
            SignatureScraper::Aiff => "aiff",
            SignatureScraper::Pdf => "pdf",
            SignatureScraper::Midi => "midi",
            SignatureScraper::Rtf => "rtf",
            SignatureScraper::Mpeg4 => "mp4",
            SignatureScraper::X509Cert => "crt",
        }
    }

    fn file_detected(&self, raw: &[u8]) -> (r: bool) {
        match self {
            SignatureScraper::Wav => starts_with(raw, &RIFF_MAGIC) && bytes_at(
                raw,
                FORM_TYPE_OFFSET,
                &WAVE_TAG,
            ),
            SignatureScraper::Aiff => starts_with(raw, &FORM_MAGIC) && bytes_at(
                raw,
                FORM_TYPE_OFFSET,
                &AIFF_TAG,
            ),
            SignatureScraper::Pdf => starts_with(raw, &PDF_MAGIC),
            SignatureScraper::Midi => starts_with(raw, &MIDI_MAGIC),
            SignatureScraper::Rtf => starts_with(raw, &RTF_MAGIC),
            SignatureScraper::Mpeg4 => starts_with(raw, &MPEG4_MAGIC),
            SignatureScraper::X509Cert => starts_with(raw, &X509_MAGIC),
        }
    }

    fn file_bytes<'a>(&self, raw: &'a [u8]) -> (r: Option<&'a [u8]>) {
        None
    }

    fn requires_validation(&self) -> (r: bool) {
        false
    }
}

} // verus!
