use drive_scraper::{FileScraper, JpgScraper, PngScraper, SignatureScraper, ZipScraper};

const PNG_SIGNATURE: [u8; 8] = [0x89, 0x50, 0x4e, 0x47, 0x0d, 0x0a, 0x1a, 0x0a];

fn chunk(tag: &[u8; 4], payload: &[u8], crc: u32) -> Vec<u8> {
    let mut out = (payload.len() as u32).to_be_bytes().to_vec();
    out.extend_from_slice(tag);
    out.extend_from_slice(payload);
    out.extend_from_slice(&crc.to_be_bytes());
    out
}

fn minimal_png() -> Vec<u8> {
    let mut out = PNG_SIGNATURE.to_vec();
    out.extend(chunk(b"IHDR", &[0, 0, 0, 1, 0, 0, 0, 1, 8, 0, 0, 0, 0], 0x3a7e9b55));
    out.extend(chunk(b"IEND", &[], 0xae426082));
    out
}

#[test]
fn png_minimal_is_detected_and_carved_exactly() {
    let png = minimal_png();
    assert_eq!(png.len(), 45);
    assert!(PngScraper.file_detected(&png));
    assert_eq!(PngScraper.file_bytes(&png), Some(&png[..]));
}

#[test]
fn png_carve_ignores_trailing_bytes() {
    let png = minimal_png();
    let mut raw = png.clone();
    raw.extend_from_slice(&[0xAB; 100]);
    assert_eq!(PngScraper.file_bytes(&raw).map(|b| b.len()), Some(45));
}

#[test]
fn png_walks_several_chunks() {
    let mut raw = PNG_SIGNATURE.to_vec();
    raw.extend(chunk(b"IHDR", &[0, 0, 0, 1, 0, 0, 0, 1, 8, 0, 0, 0, 0], 0));
    raw.extend(chunk(b"tEXt", b"Comment\0hello", 0));
    raw.extend(chunk(b"IDAT", &[1, 2, 3, 4, 5], 0));
    raw.extend(chunk(b"IEND", &[], 0));
    let total = raw.len();
    assert_eq!(total, 8 + 25 + 25 + 17 + 12);
    raw.extend_from_slice(&[0; 30]);
    assert_eq!(PngScraper.file_bytes(&raw).map(|b| b.len()), Some(total));
}

#[test]
fn png_unknown_chunk_type_is_not_carved() {
    let mut raw = PNG_SIGNATURE.to_vec();
    raw.extend_from_slice(&[0xFF, 0xFF, 0xFF, 0xFF]);
    raw.extend_from_slice(b"zzzz");
    raw.extend_from_slice(&[0; 64]);
    assert_eq!(PngScraper.file_bytes(&raw), None);
}

#[test]
fn png_unknown_chunk_type_after_known_one_is_not_carved() {
    let mut raw = PNG_SIGNATURE.to_vec();
    raw.extend(chunk(b"IHDR", &[0, 0, 0, 1, 0, 0, 0, 1, 8, 0, 0, 0, 0], 0));
    raw.extend_from_slice(&[0x7F, 0x00, 0x00, 0x00]);
    raw.extend_from_slice(&[0xC3, 0x28, 0xA0, 0xA1]);
    raw.extend(chunk(b"IEND", &[], 0));
    assert_eq!(PngScraper.file_bytes(&raw), None);
}

#[test]
fn png_length_past_the_window_is_not_carved() {
    let mut raw = PNG_SIGNATURE.to_vec();
    raw.extend_from_slice(&[0x00, 0x00, 0x10, 0x00]);
    raw.extend_from_slice(b"IDAT");
    raw.extend_from_slice(&[0; 40]);
    assert_eq!(PngScraper.file_bytes(&raw), None);
}

#[test]
fn png_without_end_chunk_is_not_carved() {
    let mut raw = PNG_SIGNATURE.to_vec();
    raw.extend(chunk(b"IHDR", &[0, 0, 0, 1, 0, 0, 0, 1, 8, 0, 0, 0, 0], 0));
    assert_eq!(PngScraper.file_bytes(&raw), None);
}

#[test]
fn png_end_chunk_cut_short_is_not_carved() {
    let png = minimal_png();
    assert_eq!(PngScraper.file_bytes(&png[..44]), None);
}

#[test]
fn png_detection_needs_the_whole_signature() {
    assert!(!PngScraper.file_detected(&PNG_SIGNATURE[..7]));
    assert!(!PngScraper.file_detected(&[]));
    let mut wrong = PNG_SIGNATURE;
    wrong[7] = 0;
    assert!(!PngScraper.file_detected(&wrong));
    assert!(PngScraper.file_detected(&PNG_SIGNATURE));
}

#[test]
fn png_properties() {
    assert_eq!(PngScraper.extension(), "png");
    assert!(!PngScraper.requires_validation());
}

#[test]
fn jpeg_headers_are_detected() {
    assert!(JpgScraper.file_detected(&[0xFF, 0xD8, 0xFF, 0xDB]));
    assert!(JpgScraper.file_detected(&[0xFF, 0xD8, 0xFF, 0xEE, 0x00]));
    assert!(JpgScraper.file_detected(&[
        0xFF, 0xD8, 0xFF, 0xE0, 0x00, 0x10, 0x4A, 0x46, 0x49, 0x46, 0x00, 0x01
    ]));
    assert!(JpgScraper.file_detected(&[
        0xFF, 0xD8, 0xFF, 0xE1, 0x12, 0x34, 0x45, 0x78, 0x69, 0x66, 0x00, 0x00
    ]));
}

#[test]
fn jpeg_near_misses_are_not_detected() {
    assert!(!JpgScraper.file_detected(&[0xFF, 0xD8, 0xFF]));
    assert!(!JpgScraper.file_detected(&[0xFF, 0xD8, 0xFF, 0xE0, 0x00, 0x10, 0x4A]));
    assert!(!JpgScraper.file_detected(&[
        0xFF, 0xD8, 0xFF, 0xE1, 0x12, 0x34, 0x45, 0x78, 0x69, 0x66, 0x00, 0x01
    ]));
    assert!(!JpgScraper.file_detected(&[0xFF, 0xD8, 0xFF, 0xE1, 0x12, 0x34, 0x45]));
    assert!(!JpgScraper.file_detected(&[0xFF, 0xD8, 0xFF, 0xC0, 0, 0, 0, 0, 0, 0, 0, 0]));
}

#[test]
fn jpeg_is_carved_up_to_end_marker() {
    let raw = [0xFF, 0xD8, 0xFF, 0xDB, 1, 2, 3, 0xFF, 0xD9, 7, 7, 0xFF, 0xD9];
    assert_eq!(JpgScraper.file_bytes(&raw), Some(&raw[..7]));
}

#[test]
fn jpeg_marker_at_the_very_end_is_found() {
    let raw = [0xFF, 0xD8, 0xFF, 0xDB, 1, 2, 0xFF, 0xD9];
    assert_eq!(JpgScraper.file_bytes(&raw).map(|b| b.len()), Some(6));
}

#[test]
fn jpeg_without_end_marker_is_not_carved() {
    let raw = [0xFF, 0xD8, 0xFF, 0xDB, 1, 2, 3, 0xFF, 0xD8, 0xD9, 0xFF];
    assert_eq!(JpgScraper.file_bytes(&raw), None);
    assert_eq!(JpgScraper.file_bytes(&[]), None);
    assert_eq!(JpgScraper.file_bytes(&[0xFF]), None);
}

#[test]
fn jpeg_marker_first_carves_nothing() {
    let raw = [0xFF, 0xD9, 1, 2, 3];
    assert_eq!(JpgScraper.file_bytes(&raw).map(|b| b.len()), Some(0));
}

#[test]
fn jpeg_properties() {
    assert_eq!(JpgScraper.extension(), "jpeg");
    assert!(JpgScraper.requires_validation());
}

#[test]
fn detection_and_carving_repeat_their_answers() {
    let png = minimal_png();
    let raw = [0xFF, 0xD8, 0xFF, 0xDB, 1, 0xFF, 0xD9];
    for _ in 0..2 {
        assert!(PngScraper.file_detected(&png));
        assert_eq!(PngScraper.file_bytes(&png).map(|b| b.len()), Some(45));
        assert!(JpgScraper.file_detected(&raw));
        assert_eq!(JpgScraper.file_bytes(&raw).map(|b| b.len()), Some(5));
    }
}

#[test]
fn wav_needs_riff_and_wave_tag() {
    let wav = b"RIFF\x24\x08\x00\x00WAVEfmt ";
    assert!(SignatureScraper::Wav.file_detected(wav));
    assert!(!SignatureScraper::Wav.file_detected(b"RIFF\x24\x08\x00\x00AVI LIST"));
    assert!(!SignatureScraper::Wav.file_detected(b"RIFF\x24\x08\x00\x00WAV"));
    assert!(!SignatureScraper::Wav.file_detected(b"RIFX\x24\x08\x00\x00WAVE"));
    assert_eq!(SignatureScraper::Wav.file_bytes(wav), None);
}

#[test]
fn aiff_needs_form_and_aiff_tag() {
    assert!(SignatureScraper::Aiff.file_detected(b"FORM\x00\x00\x10\x00AIFFCOMM"));
    assert!(!SignatureScraper::Aiff.file_detected(b"FORM\x00\x00\x10\x00AIFC"));
    assert!(!SignatureScraper::Aiff.file_detected(b"FORM"));
}

#[test]
fn signature_formats_are_detected_by_prefix() {
    assert!(SignatureScraper::Pdf.file_detected(b"%PDF-1.7\n"));
    assert!(!SignatureScraper::Pdf.file_detected(b"%PDF"));
    assert!(SignatureScraper::Midi.file_detected(b"MThd\x00\x00\x00\x06"));
    assert!(SignatureScraper::Rtf.file_detected(b"{\\rtf1\\ansi"));
    assert!(!SignatureScraper::Rtf.file_detected(b"{\\rtf2"));
    assert!(SignatureScraper::Mpeg4.file_detected(b"ftypMSNV\x00\x00"));
    assert!(SignatureScraper::X509Cert.file_detected(b"-----BEGIN CERTIFICATE-----\nMIIB"));
    assert!(!SignatureScraper::X509Cert.file_detected(b"-----BEGIN CERTIFICATE----"));
}

#[test]
fn signature_formats_never_carve_nor_validate() {
    let all = [
        (SignatureScraper::Wav, "wav"),
        (SignatureScraper::Aiff, "aiff"),
        (SignatureScraper::Pdf, "pdf"),
        (SignatureScraper::Midi, "midi"),
        (SignatureScraper::Rtf, "rtf"),
        (SignatureScraper::Mpeg4, "mp4"),
        (SignatureScraper::X509Cert, "crt"),
    ];
    for (s, ext) in all {
        assert_eq!(s.extension(), ext);
        assert!(!s.requires_validation());
        assert_eq!(s.file_bytes(b"%PDF-1.7 MThd RIFF"), None);
    }
}

#[test]
fn zip_signatures() {
    assert!(ZipScraper.file_detected(&[0x50, 0x4B, 0x03, 0x04, 0x14]));
    assert!(ZipScraper.file_detected(&[0x50, 0x4B, 0x05, 0x06]));
    assert!(ZipScraper.file_detected(&[0x50, 0x4B, 0x07, 0x08]));
    assert!(!ZipScraper.file_detected(&[0x50, 0x4B, 0x01, 0x02]));
    assert!(!ZipScraper.file_detected(&[0x50, 0x4B, 0x03]));
    assert_eq!(ZipScraper.file_bytes(&[0x50, 0x4B, 0x03, 0x04]), None);
    assert_eq!(ZipScraper.extension(), "zip");
    assert!(ZipScraper.requires_validation());
}
