//! Parsing of FEC electronic filings: schema lookup, header and cover
//! extraction, the row stream with its free-text blocks, and the alignment and
//! typing of row values for a sink.

pub mod cover;
pub mod dates;
pub mod export;
pub mod feed;
pub mod filing;
pub mod header;
pub mod labels;
pub mod mappings;
pub mod number;
pub mod record;
pub mod rows;
pub mod sourcer;
pub mod stats;
pub mod text;

pub use cover::{FilingCover, FilingCoverError};
pub use dates::try_format_fec_date;
pub use filing::{Filing, FilingReaderError};
pub use header::{FilingHeader, FilingHeaderError};
pub use labels::report_code_label;
pub use record::Record;
pub use rows::{FilingRow, FilingRowReadError};
