//! Reads the metadata records of a ZIP archive from its bytes and renders them,
//! either as a field-by-field dump or as one tab-separated line per entry.

pub mod codec;
pub mod decode;
pub mod dos;
pub mod entries;
pub mod error;
pub mod functions;
pub mod laws;
pub mod magic;
pub mod render;
pub mod text;
pub mod zip;

pub use dos::{mod_date, mod_time};
pub use entries::{
    CentralDirectoryFileHeader, DataDescriptor, EndOfCentralDirectoryRecord, Entries, Entry,
    LocalFile,
};
pub use error::ZipError;
pub use functions::{check_args, process, process_file};
pub use magic::{magic_hex, try_magic_hex};
pub use zip::{Load, Zip};
