pub mod file_scraper;
pub mod jpg;
pub mod png;
pub mod registry;
pub mod scraper;
pub mod signature;
pub mod validate;
pub mod zip;

pub use file_scraper::{FileScraper, FileScraperReport, SignatureScraper};
pub use jpg::JpgScraper;
pub use png::PngScraper;
pub use registry::{default_scrapers, ScraperKind};
pub use scraper::{Candidate, Scraper};
pub use zip::ZipScraper;
