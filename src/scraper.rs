use vstd::prelude::*;

use crate::file_scraper::{FileScraper, FileScraperReport};
use crate::registry::{
    default_scrapers, default_scrapers_spec, lemma_default_extensions_distinct, ScraperKind,
};
use crate::validate::{decodes_as_image, image_decodes};

verus! {

/// Bytes that must remain in a chunk after an offset for the offset to be scanned.
/// A detector whose probe is longer than what remains reports no detection.
pub const PROBE_LEN: usize = 12;

/// A file found in a chunk: the registered format that found it, where it
/// starts in the chunk (counted from the chunk's first byte, not the input's),
/// and how many bytes it takes.
#[derive(Clone, Copy, Debug, PartialEq, Eq, Structural)]
pub struct Candidate {
    pub scraper: usize,
    pub offset: usize,
    pub len: usize,
}

/// The state of a scan: the registered formats with one report each, the
/// counters of the run, and the configuration it was given.
pub struct Scraper {
    scrapers: Vec<ScraperKind>,
    reports: Vec<FileScraperReport>,
    chunk: usize,
    chunk_size: usize,
    total_chunks: usize,
    total_invalid_files: usize,
    total_valid_files: usize,
    total_bytes_scraped: usize,
    min_txt_seq_len: usize,
}

/// What a scraper holds, as mathematical values.
pub ghost struct ScraperView {
    pub scrapers: Seq<ScraperKind>,
    pub reports: Seq<FileScraperReport>,
    pub chunk: nat,
    pub chunk_size: nat,
    pub total_chunks: nat,
    pub total_invalid_files: nat,
    pub total_valid_files: nat,
    pub total_bytes_scraped: nat,
    pub min_txt_seq_len: nat,
}

impl View for Scraper {
    type V = ScraperView;

    closed spec fn view(&self) -> ScraperView {
        ScraperView {
            scrapers: self.scrapers@,
            reports: self.reports@,
            chunk: self.chunk as nat,
            chunk_size: self.chunk_size as nat,
            total_chunks: self.total_chunks as nat,
            total_invalid_files: self.total_invalid_files as nat,
            total_valid_files: self.total_valid_files as nat,
            total_bytes_scraped: self.total_bytes_scraped as nat,
            min_txt_seq_len: self.min_txt_seq_len as nat,
        }
    }
}

/// No two of `scrapers` share an extension.
pub open spec fn distinct_extensions(scrapers: Seq<ScraperKind>) -> bool {
    forall|i: int, j: int|
        0 <= i < scrapers.len() && 0 <= j < scrapers.len() && i != j
            ==> scrapers[i].extension_spec() != scrapers[j].extension_spec()
}

/// `n` added to `x`, held at the largest count.
pub open spec fn saturating(x: nat, n: nat) -> nat {
    if x + n > usize::MAX {
        usize::MAX as nat
    } else {
        x + n
    }
}

/// The part of `raw` that starts at offset `i`.
pub open spec fn window(raw: Seq<u8>, i: int) -> Seq<u8> {
    raw.subrange(i, raw.len() as int)
}

/// How many offsets of a chunk of `len` bytes are scanned.
pub open spec fn scanned_offsets(len: nat) -> nat {
    if len > PROBE_LEN {
        (len - PROBE_LEN) as nat
    } else {
        0
    }
}

/// What the format registered at `j` finds at offset `i`: a file where it
/// detects one and carves it.
pub open spec fn hit(
    scrapers: Seq<ScraperKind>,
    raw: Seq<u8>,
    i: int,
    j: int,
) -> Seq<Candidate> {
    let s = scrapers[j];
    let w = window(raw, i);
    if s.detects(w) && s.carve(w) is Some {
        seq![Candidate { scraper: j as usize, offset: i as usize, len: s.carve(w)->0 as usize }]
    } else {
        seq![]
    }
}

/// What the first `j` registered formats find at offset `i`, in order.
pub open spec fn hits_at(scrapers: Seq<ScraperKind>, raw: Seq<u8>, i: int, j: int) -> Seq<
    Candidate,
>
    decreases j,
{
    if j <= 0 {
        seq![]
    } else {
        hits_at(scrapers, raw, i, j - 1) + hit(scrapers, raw, i, j - 1)
    }
}

/// What all registered formats find at the offsets below `i`, offset by offset.
pub open spec fn hits_before(scrapers: Seq<ScraperKind>, raw: Seq<u8>, i: int) -> Seq<Candidate>
    decreases i,
{
    if i <= 0 {
        seq![]
    } else {
        hits_before(scrapers, raw, i - 1) + hits_at(scrapers, raw, i - 1, scrapers.len() as int)
    }
}

/// Every file that the registered formats find in the chunk `raw`, ordered by
/// offset, then by registration.
pub open spec fn candidates(scrapers: Seq<ScraperKind>, raw: Seq<u8>) -> Seq<Candidate> {
    hits_before(scrapers, raw, scanned_offsets(raw.len()) as int)
}

/// The bytes of the chunk `raw` that candidate `c` takes.
pub open spec fn carved(raw: Seq<u8>, c: Candidate) -> Seq<u8> {
    raw.subrange(c.offset as int, c.offset + c.len)
}

/// Whether a file carved by format `s` is kept: formats that need no validation
/// keep every file, the others only those that decode.
pub open spec fn verdict(s: ScraperKind, bytes: Seq<u8>) -> bool {
    !s.needs_validation() || image_decodes(s.extension_spec(), bytes)
}

/// Whether candidate `c` of the chunk `raw` is kept.
pub open spec fn is_kept(scrapers: Seq<ScraperKind>, raw: Seq<u8>, c: Candidate) -> bool {
    verdict(scrapers[c.scraper as int], carved(raw, c))
}

/// The candidates of `cs` that are kept, in order.
pub open spec fn kept(scrapers: Seq<ScraperKind>, raw: Seq<u8>, cs: Seq<Candidate>) -> Seq<
    Candidate,
>
    decreases cs.len(),
{
    if cs.len() == 0 {
        seq![]
    } else {
        kept(scrapers, raw, cs.drop_last()) + if is_kept(scrapers, raw, cs.last()) {
            seq![cs.last()]
        } else {
            seq![]
        }
    }
}

/// How many candidates of `cs` that format `k` found got the verdict `valid`.
pub open spec fn count_for(
    scrapers: Seq<ScraperKind>,
    raw: Seq<u8>,
    cs: Seq<Candidate>,
    k: int,
    valid: bool,
) -> nat
    decreases cs.len(),
{
    if cs.len() == 0 {
        0
    } else {
        count_for(scrapers, raw, cs.drop_last(), k, valid) + if cs.last().scraper == k
            && is_kept(scrapers, raw, cs.last()) == valid {
            1nat
        } else {
            0nat
        }
    }
}

/// How many candidates of `cs` got the verdict `valid`.
pub open spec fn count_all(
    scrapers: Seq<ScraperKind>,
    raw: Seq<u8>,
    cs: Seq<Candidate>,
    valid: bool,
) -> nat
    decreases cs.len(),
{
    if cs.len() == 0 {
        0
    } else {
        count_all(scrapers, raw, cs.drop_last(), valid) + if is_kept(scrapers, raw, cs.last())
            == valid {
            1nat
        } else {
            0nat
        }
    }
}

/// A report after one more file of its format got the verdict `valid`.
pub open spec fn counted(r: FileScraperReport, valid: bool) -> FileScraperReport {
    if valid {
        FileScraperReport { valid_files: saturating(r.valid_files as nat, 1) as usize, ..r }
    } else {
        FileScraperReport { invalid_files: saturating(r.invalid_files as nat, 1) as usize, ..r }
    }
}

/// The chunk that becomes current after the read that followed chunk `chunk`:
/// the next one where the read succeeded, none where it failed.
pub open spec fn after_read(chunk: nat, read_ok: bool) -> Option<nat> {
    if read_ok {
        Some(chunk + 1)
    } else {
        None
    }
}

/// The indices of the chunks scanned from chunk `chunk` on, when the reads made
/// while scanning succeed or fail as `reads` says, one read per scanned chunk.
pub open spec fn scanned_chunks(chunk: nat, reads: Seq<bool>) -> Seq<nat>
    decreases reads.len(),
{
    if reads.len() == 0 {
        seq![chunk]
    } else {
        match after_read(chunk, reads[0]) {
            Some(n) => seq![chunk] + scanned_chunks(n, reads.drop_first()),
            None => seq![chunk],
        }
    }
}

/// The outcome of the reads that follow the first chunk of a stream of `k`
/// chunks: `k - 1` reads succeed, then one fails.
pub open spec fn stream_reads(k: nat) -> Seq<bool> {
    Seq::new((k - 1) as nat, |i: int| true).push(false)
}

/// A stream of `k` chunks is scanned chunk by chunk, each once and in order,
/// starting at `chunk`, and the scan stops at the failed read that follows the
/// last.
pub proof fn lemma_stream_scanned_in_order(chunk: nat, k: nat)
    requires
        k >= 1,
    ensures
        scanned_chunks(chunk, stream_reads(k)) == Seq::new(k, |i: int| (chunk + i) as nat),
    decreases k,
{
    let reads = stream_reads(k);
    if k == 1 {
        assert(reads[0] == false);
        assert(scanned_chunks(chunk, reads) =~= Seq::new(k, |i: int| (chunk + i) as nat));
    } else {
        assert(reads[0] == true);
        assert(reads.drop_first() =~= stream_reads((k - 1) as nat));
        lemma_stream_scanned_in_order(chunk + 1, (k - 1) as nat);
        assert(scanned_chunks(chunk, reads) =~= Seq::new(k, |i: int| (chunk + i) as nat));
    }
}

/// Scanning depends on the registered formats and the chunk's bytes alone: the
/// same formats on the same bytes find the same candidates, keep the same ones
/// and count them alike, however often the scan is run.
pub proof fn lemma_scan_is_deterministic(
    s1: Seq<ScraperKind>,
    s2: Seq<ScraperKind>,
    raw1: Seq<u8>,
    raw2: Seq<u8>,
)
    requires
        s1 == s2,
        raw1 == raw2,
    ensures
        candidates(s1, raw1) == candidates(s2, raw2),
        kept(s1, raw1, candidates(s1, raw1)) == kept(s2, raw2, candidates(s2, raw2)),
        forall|k: int, valid: bool|
            count_for(s1, raw1, candidates(s1, raw1), k, valid) == count_for(
                s2,
                raw2,
                candidates(s2, raw2),
                k,
                valid,
            ),
        forall|f: ScraperKind|
            #[trigger] f.detects(raw1) == f.detects(raw2) && f.carve(raw1) == f.carve(raw2),
{
}

impl ScraperView {
    /// One report for each registered format, and no two formats with one extension.
    pub open spec fn wf(self) -> bool {
        &&& self.reports.len() == self.scrapers.len()
        &&& distinct_extensions(self.scrapers)
    }
}

impl Scraper {
    /// A scraper with no format registered, reading chunks of `chunk_size` bytes
    /// from an input of `total_size` bytes, which makes `total_size / chunk_size`
    /// whole chunks.
    pub fn new(chunk_size: usize, total_size: usize, min_txt_seq_len: usize) -> (r: Self)
        requires
            chunk_size > 0,
        ensures
            r@.wf(),
            r@.scrapers.len() == 0,
            r@.chunk == 0,
            r@.chunk_size == chunk_size,
            r@.total_chunks == total_size / chunk_size,
            r@.total_invalid_files == 0,
            r@.total_valid_files == 0,
            r@.total_bytes_scraped == 0,
            r@.min_txt_seq_len == min_txt_seq_len,
    {
        Scraper {
            scrapers: Vec::new(),
            reports: Vec::new(),
            chunk: 0,
            chunk_size,
            total_chunks: total_size / chunk_size,
            total_invalid_files: 0,
            total_valid_files: 0,
            total_bytes_scraped: 0,
            min_txt_seq_len,
        }
    }

    /// A scraper configured as `new` says, with the default formats registered.
    pub fn with_default_scrapers(
        chunk_size: usize,
        total_size: usize,
        min_txt_seq_len: usize,
    ) -> (r: Self)
        requires
            chunk_size > 0,
        ensures
            r@.wf(),
            r@.scrapers == default_scrapers_spec(),
            r@.reports == Seq::new(
                default_scrapers_spec().len(),
                |i: int| FileScraperReport { valid_files: 0, invalid_files: 0 },
            ),
            r@.chunk == 0,
            r@.chunk_size == chunk_size,
            r@.total_chunks == total_size / chunk_size,
            r@.total_invalid_files == 0,
            r@.total_valid_files == 0,
            r@.total_bytes_scraped == 0,
            r@.min_txt_seq_len == min_txt_seq_len,
    {
        let mut scraper = Scraper::new(chunk_size, total_size, min_txt_seq_len);
        proof {
            lemma_default_extensions_distinct();
            assert(scraper@.scrapers + default_scrapers_spec() =~= default_scrapers_spec());
        }
        scraper.register_scrapers(default_scrapers());
        assert(scraper@.reports =~= Seq::new(
            default_scrapers_spec().len(),
            |i: int| FileScraperReport { valid_files: 0, invalid_files: 0 },
        ));
        scraper
    }

    /// Registers `scrapers` after those already registered, each with an empty report.
    pub fn register_scrapers(&mut self, scrapers: Vec<ScraperKind>) -> (r: &mut Self)
        requires
            old(self)@.wf(),
            distinct_extensions(old(self)@.scrapers + scrapers@),
        ensures
            *final(self) == *final(r),
            (*r)@.wf(),
            (*r)@.scrapers == old(self)@.scrapers + scrapers@,
            (*r)@.reports == old(self)@.reports + Seq::new(
                scrapers@.len(),
                |i: int| FileScraperReport { valid_files: 0, invalid_files: 0 },
            ),
            (*r)@.chunk == old(self)@.chunk,
            (*r)@.chunk_size == old(self)@.chunk_size,
            (*r)@.total_chunks == old(self)@.total_chunks,
            (*r)@.total_invalid_files == old(self)@.total_invalid_files,
            (*r)@.total_valid_files == old(self)@.total_valid_files,
            (*r)@.total_bytes_scraped == old(self)@.total_bytes_scraped,
            (*r)@.min_txt_seq_len == old(self)@.min_txt_seq_len,
    {
        let mut i: usize = 0;
        while i < scrapers.len()
            invariant
                0 <= i <= scrapers@.len(),
                self.scrapers@ == old(self).scrapers@ + scrapers@.take(i as int),
                self.reports@ == old(self).reports@ + Seq::new(
                    i as nat,
                    |k: int| FileScraperReport { valid_files: 0, invalid_files: 0 },
                ),
                self.chunk == old(self).chunk,
                self.chunk_size == old(self).chunk_size,
                self.total_chunks == old(self).total_chunks,
                self.total_invalid_files == old(self).total_invalid_files,
                self.total_valid_files == old(self).total_valid_files,
                self.total_bytes_scraped == old(self).total_bytes_scraped,
                self.min_txt_seq_len == old(self).min_txt_seq_len,
            decreases scrapers@.len() - i,
        {
            self.reports.push(FileScraperReport::default());
            self.scrapers.push(scrapers[i]);
            assert(self.scrapers@ =~= old(self).scrapers@ + scrapers@.take(i + 1));
            assert(self.reports@ =~= old(self).reports@ + Seq::new(
                (i + 1) as nat,
                |k: int| FileScraperReport { valid_files: 0, invalid_files: 0 },
            ));
            i = i + 1;
        }
        assert(scrapers@.take(i as int) =~= scrapers@);
        assert(distinct_extensions(self.scrapers@));
        self
    }

    /// Every file that the registered formats find in `raw`: at each offset with
    /// more than `PROBE_LEN` bytes after it, each format in the order of
    /// registration tests the window that starts there and, on detection, tries
    /// to carve it.
    pub fn scan_chunk(&self, raw: &[u8]) -> (r: Vec<Candidate>)
        ensures
            r@ == candidates(self@.scrapers, raw@),
            forall|k: int|
                0 <= k < r@.len() ==> r@[k].scraper < self@.scrapers.len() && r@[k].offset
                    + r@[k].len <= raw@.len(),
    {
        let mut found: Vec<Candidate> = Vec::new();
        if raw.len() <= PROBE_LEN {
            return found;
        }
        let n = raw.len() - PROBE_LEN;
        let mut i: usize = 0;
        while i < n
            invariant
                n == scanned_offsets(raw@.len()),
                n <= raw@.len(),
                0 <= i <= n,
                found@ == hits_before(self.scrapers@, raw@, i as int),
                forall|k: int|
                    0 <= k < found@.len() ==> found@[k].scraper < self.scrapers@.len()
                        && found@[k].offset + found@[k].len <= raw@.len(),
            decreases n - i,
        {
            let w = &raw[i..raw.len()];
            let mut j: usize = 0;
            while j < self.scrapers.len()
                invariant
                    i < n <= raw@.len(),
                    w@ == window(raw@, i as int),
                    0 <= j <= self.scrapers@.len(),
                    found@ == hits_before(self.scrapers@, raw@, i as int) + hits_at(
                        self.scrapers@,
                        raw@,
                        i as int,
                        j as int,
                    ),
                    forall|k: int|
                        0 <= k < found@.len() ==> found@[k].scraper < self.scrapers@.len()
                            && found@[k].offset + found@[k].len <= raw@.len(),
                decreases self.scrapers@.len() - j,
            {
                let s = self.scrapers[j];
                let ghost before = found@;
                if s.file_detected(w) {
                    match s.file_bytes(w) {
                        Some(bytes) => {
                            found.push(Candidate { scraper: j, offset: i, len: bytes.len() });
                        },
                        None => {},
                    }
                }
                assert(found@ =~= before + hit(self.scrapers@, raw@, i as int, j as int));
                assert(found@ =~= hits_before(self.scrapers@, raw@, i as int) + hits_at(
                    self.scrapers@,
                    raw@,
                    i as int,
                    j + 1,
                ));
                j = j + 1;
            }
            i = i + 1;
        }
        found
    }

    /// Counts one more file of the format registered at `k`, as valid or as
    /// invalid, in its report and in the totals.
    pub fn record(&mut self, k: usize, valid: bool)
        requires
            old(self)@.wf(),
            k < old(self)@.scrapers.len(),
        ensures
            final(self)@ == (ScraperView {
                reports: old(self)@.reports.update(
                    k as int,
                    counted(old(self)@.reports[k as int], valid),
                ),
                total_valid_files: if valid {
                    saturating(old(self)@.total_valid_files, 1)
                } else {
                    old(self)@.total_valid_files
                },
                total_invalid_files: if valid {
                    old(self)@.total_invalid_files
                } else {
                    saturating(old(self)@.total_invalid_files, 1)
                },
                ..old(self)@
            }),
    {
        let mut report = self.reports[k];
        if valid {
            report.valid_files = report.valid_files.saturating_add(1);
            self.total_valid_files = self.total_valid_files.saturating_add(1);
        } else {
            report.invalid_files = report.invalid_files.saturating_add(1);
            self.total_invalid_files = self.total_invalid_files.saturating_add(1);
        }
        self.reports.set(k, report);
    }

    /// Scans the chunk `raw`, validates each candidate whose format asks for it,
    /// counts every candidate in its format's report and in the totals, adds the
    /// chunk's length to the bytes scraped, and returns the candidates that are
    /// kept, in the order they were found.
    pub fn process_chunk(&mut self, raw: &[u8]) -> (r: Vec<Candidate>)
        requires
            old(self)@.wf(),
        ensures
            final(self)@.wf(),
            r@ == kept(old(self)@.scrapers, raw@, candidates(old(self)@.scrapers, raw@)),
            forall|k: int|
                0 <= k < r@.len() ==> r@[k].scraper < old(self)@.scrapers.len() && r@[k].offset
                    + r@[k].len <= raw@.len(),
            final(self)@.scrapers == old(self)@.scrapers,
            forall|k: int|
                0 <= k < old(self)@.scrapers.len() ==> final(self)@.reports[k].valid_files
                    == saturating(
                    old(self)@.reports[k].valid_files as nat,
                    count_for(
                        old(self)@.scrapers,
                        raw@,
                        candidates(old(self)@.scrapers, raw@),
                        k,
                        true,
                    ),
                ) && final(self)@.reports[k].invalid_files == saturating(
                    old(self)@.reports[k].invalid_files as nat,
                    count_for(
                        old(self)@.scrapers,
                        raw@,
                        candidates(old(self)@.scrapers, raw@),
                        k,
                        false,
                    ),
                ),
            final(self)@.total_valid_files == saturating(
                old(self)@.total_valid_files,
                count_all(old(self)@.scrapers, raw@, candidates(old(self)@.scrapers, raw@), true),
            ),
            final(self)@.total_invalid_files == saturating(
                old(self)@.total_invalid_files,
                count_all(old(self)@.scrapers, raw@, candidates(old(self)@.scrapers, raw@), false),
            ),
            final(self)@.total_bytes_scraped == saturating(
                old(self)@.total_bytes_scraped,
                raw@.len(),
            ),
            final(self)@.chunk == old(self)@.chunk,
            final(self)@.chunk_size == old(self)@.chunk_size,
            final(self)@.total_chunks == old(self)@.total_chunks,
            final(self)@.min_txt_seq_len == old(self)@.min_txt_seq_len,
    {
        let found = self.scan_chunk(raw);
        let ghost sc = self.scrapers@;
        let mut kept_files: Vec<Candidate> = Vec::new();
        let mut c: usize = 0;
        while c < found.len()
            invariant
                self@.wf(),
                old(self)@.wf(),
                raw@.len() == raw.len(),
                self.scrapers@ == sc,
                sc == old(self).scrapers@,
                found@ == candidates(sc, raw@),
                forall|k: int|
                    0 <= k < found@.len() ==> found@[k].scraper < sc.len() && found@[k].offset
                        + found@[k].len <= raw@.len(),
                0 <= c <= found@.len(),
                kept_files@ == kept(sc, raw@, found@.take(c as int)),
                forall|k: int|
                    0 <= k < kept_files@.len() ==> kept_files@[k].scraper < sc.len()
                        && kept_files@[k].offset + kept_files@[k].len <= raw@.len(),
                forall|k: int|
                    0 <= k < sc.len() ==> self.reports@[k].valid_files == saturating(
                        old(self).reports@[k].valid_files as nat,
                        count_for(sc, raw@, found@.take(c as int), k, true),
                    ) && self.reports@[k].invalid_files == saturating(
                        old(self).reports@[k].invalid_files as nat,
                        count_for(sc, raw@, found@.take(c as int), k, false),
                    ),
                self.total_valid_files == saturating(
                    old(self).total_valid_files as nat,
                    count_all(sc, raw@, found@.take(c as int), true),
                ),
                self.total_invalid_files == saturating(
                    old(self).total_invalid_files as nat,
                    count_all(sc, raw@, found@.take(c as int), false),
                ),
                self.total_bytes_scraped == old(self).total_bytes_scraped,
                self.chunk == old(self).chunk,
                self.chunk_size == old(self).chunk_size,
                self.total_chunks == old(self).total_chunks,
                self.min_txt_seq_len == old(self).min_txt_seq_len,
            decreases found@.len() - c,
        {
            let cand = found[c];
            assert(cand.scraper < sc.len() && cand.offset + cand.len <= raw@.len()) by {
                assert(found@[c as int] == cand);
            }
            let s = self.scrapers[cand.scraper];
            let valid = if s.requires_validation() {
                decodes_as_image(s.extension(), &raw[cand.offset..cand.offset + cand.len])
            } else {
                true
            };
            assert(valid == is_kept(sc, raw@, cand));
            self.record(cand.scraper, valid);
            if valid {
                kept_files.push(cand);
            }
            assert(found@.take(c + 1).drop_last() =~= found@.take(c as int));
            assert(found@.take(c + 1).last() == cand);
            c = c + 1;
        }
        assert(found@.take(c as int) =~= found@);
        self.total_bytes_scraped = self.total_bytes_scraped.saturating_add(raw.len());
        kept_files
    }

    /// Takes the outcome of the read of the next chunk, made while this one was
    /// scanned: on success the next chunk becomes the current one and the scan
    /// goes on; a failed or short read is the end of the input.
    pub fn advance_chunk(&mut self, read_ok: bool) -> (more: bool)
        requires
            old(self)@.wf(),
            old(self)@.chunk < usize::MAX,
        ensures
            final(self)@.wf(),
            more == after_read(old(self)@.chunk, read_ok) is Some,
            final(self)@ == (ScraperView {
                chunk: match after_read(old(self)@.chunk, read_ok) {
                    Some(n) => n,
                    None => old(self)@.chunk,
                },
                ..old(self)@
            }),
    {
        if read_ok {
            self.chunk = self.chunk + 1;
        }
        read_ok
    }

    /// Where in the whole input the byte at `offset` of the current chunk lies,
    /// every chunk before it having been full.
    pub fn stream_offset(&self, offset: usize) -> (r: u128)
        ensures
            r == self@.chunk * self@.chunk_size + offset,
    {
        let chunk = self.chunk as u128;
        let size = self.chunk_size as u128;
        assert(chunk * size <= 0xFFFF_FFFF_FFFF_FFFF * 0xFFFF_FFFF_FFFF_FFFF) by (nonlinear_arith)
            requires
                chunk <= 0xFFFF_FFFF_FFFF_FFFF,
                size <= 0xFFFF_FFFF_FFFF_FFFF,
        ;
        chunk * size + offset as u128
    }

    /// The formats registered, in order.
    pub fn scrapers(&self) -> (r: &[ScraperKind])
        ensures
            r@ == self@.scrapers,
    {
        self.scrapers.as_slice()
    }

    /// The report of the format registered at `k`.
    pub fn report(&self, k: usize) -> (r: FileScraperReport)
        requires
            self@.wf(),
            k < self@.scrapers.len(),
        ensures
            r == self@.reports[k as int],
    {
        self.reports[k]
    }

    /// The index of the chunk being scanned, from 0.
    pub fn chunk(&self) -> (r: usize)
        ensures
            r == self@.chunk,
    {
        self.chunk
    }

    /// The size of a chunk in bytes.
    pub fn chunk_size(&self) -> (r: usize)
        ensures
            r == self@.chunk_size,
    {
        self.chunk_size
    }

    /// The number of whole chunks in the input, where its size is known.
    pub fn total_chunks(&self) -> (r: usize)
        ensures
            r == self@.total_chunks,
    {
        self.total_chunks
    }

    /// The files kept so far, over all formats.
    pub fn total_valid_files(&self) -> (r: usize)
        ensures
            r == self@.total_valid_files,
    {
        self.total_valid_files
    }

    /// The files discarded so far, over all formats.
    pub fn total_invalid_files(&self) -> (r: usize)
        ensures
            r == self@.total_invalid_files,
    {
        self.total_invalid_files
    }

    /// The bytes scanned so far.
    pub fn total_bytes_scraped(&self) -> (r: usize)
        ensures
            r == self@.total_bytes_scraped,
    {
        self.total_bytes_scraped
    }

    /// The shortest run of printable text that the text pass extracts.
    pub fn min_txt_seq_len(&self) -> (r: usize)
        ensures
            r == self@.min_txt_seq_len,
    {
        self.min_txt_seq_len
    }
}

impl Default for Scraper {
    /// A scraper with no format registered and no configuration.
    fn default() -> (r: Self)
        ensures
            r@.wf(),
            r@.scrapers.len() == 0,
            r@.chunk == 0,
            r@.chunk_size == 0,
            r@.total_chunks == 0,
            r@.total_invalid_files == 0,
            r@.total_valid_files == 0,
            r@.total_bytes_scraped == 0,
            r@.min_txt_seq_len == 0,
    {
        Scraper {
            scrapers: Vec::new(),
            reports: Vec::new(),
            chunk: 0,
            chunk_size: 0,
            total_chunks: 0,
            total_invalid_files: 0,
            total_valid_files: 0,
            total_bytes_scraped: 0,
            min_txt_seq_len: 0,
        }
    }
}

} // verus!
