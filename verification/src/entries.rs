//! The records of an archive. Each record type carries only its own fields;
//! byte fields of variable length are kept raw.

use vstd::prelude::*;

verus! {

/// The sizes and checksum that follow a file's data when bit 3 of the flags is set.
#[derive(Clone, Copy, Debug, PartialEq, Eq, Structural)]
pub struct DataDescriptor {
    pub crc32: u32,
    pub compressed_size: u32,
    pub uncompressed_size: u32,
}

/// A local file header, the file's data and, where the flags ask for it, the
/// data descriptor.
#[derive(Debug)]
pub struct LocalFile {
    pub version: u16,
    pub flags: u16,
    pub compression: u16,
    pub mod_time: u16,
    pub mod_date: u16,
    pub crc32: u32,
    pub compressed_size: u32,
    pub uncompressed_size: u32,
    pub file_name_length: u16,
    pub extra_field_length: u16,
    pub file_name: Vec<u8>,
    pub extra_field: Vec<u8>,
    pub file_data: Vec<u8>,
    pub data_descriptor: Option<DataDescriptor>,
}

/// The mathematical value of a [`LocalFile`].
pub struct LocalFileView {
    pub version: u16,
    pub flags: u16,
    pub compression: u16,
    pub mod_time: u16,
    pub mod_date: u16,
    pub crc32: u32,
    pub compressed_size: u32,
    pub uncompressed_size: u32,
    pub file_name_length: u16,
    pub extra_field_length: u16,
    pub file_name: Seq<u8>,
    pub extra_field: Seq<u8>,
    pub file_data: Seq<u8>,
    pub data_descriptor: Option<DataDescriptor>,
}

/// A central directory file header.
#[derive(Debug)]
pub struct CentralDirectoryFileHeader {
    pub version: u16,
    pub version_needed: u16,
    pub flags: u16,
    pub compression: u16,
    pub mod_time: u16,
    pub mod_date: u16,
    pub crc32: u32,
    pub compressed_size: u32,
    pub uncompressed_size: u32,
    pub file_name_length: u16,
    pub extra_field_length: u16,
    pub file_comment_length: u16,
    pub disk_number_start: u16,
    pub internal_file_attributes: u16,
    pub external_file_attributes: u32,
    pub lfh_offset: u32,
    pub file_name: Vec<u8>,
    pub extra_field: Vec<u8>,
    pub file_comment: Vec<u8>,
}

/// The mathematical value of a [`CentralDirectoryFileHeader`].
pub struct CentralDirectoryFileHeaderView {
    pub version: u16,
    pub version_needed: u16,
    pub flags: u16,
    pub compression: u16,
    pub mod_time: u16,
    pub mod_date: u16,
    pub crc32: u32,
    pub compressed_size: u32,
    pub uncompressed_size: u32,
    pub file_name_length: u16,
    pub extra_field_length: u16,
    pub file_comment_length: u16,
    pub disk_number_start: u16,
    pub internal_file_attributes: u16,
    pub external_file_attributes: u32,
    pub lfh_offset: u32,
    pub file_name: Seq<u8>,
    pub extra_field: Seq<u8>,
    pub file_comment: Seq<u8>,
}

/// The end of central directory record.
#[derive(Debug)]
pub struct EndOfCentralDirectoryRecord {
    pub disk_number: u16,
    pub disk_number_w_cd: u16,
    pub disk_entries: u16,
    pub total_entries: u16,
    pub cd_size: u32,
    pub cd_offset: u32,
    pub comment_length: u16,
    pub zip_file_comment: Vec<u8>,
}

/// The mathematical value of an [`EndOfCentralDirectoryRecord`].
pub struct EndOfCentralDirectoryRecordView {
    pub disk_number: u16,
    pub disk_number_w_cd: u16,
    pub disk_entries: u16,
    pub total_entries: u16,
    pub cd_size: u32,
    pub cd_offset: u32,
    pub comment_length: u16,
    pub zip_file_comment: Seq<u8>,
}

/// One record of an archive.
#[derive(Debug)]
pub enum Entry {
    LocalFile(LocalFile),
    CentralDirectoryFileHeader(CentralDirectoryFileHeader),
    EndOfCentralDirectoryRecord(EndOfCentralDirectoryRecord),
}

/// The mathematical value of an [`Entry`].
pub enum EntryView {
    LocalFile(LocalFileView),
    CentralDirectoryFileHeader(CentralDirectoryFileHeaderView),
    EndOfCentralDirectoryRecord(EndOfCentralDirectoryRecordView),
}

/// The records of an archive, in the order of their bytes.
#[derive(Debug)]
pub struct Entries {
    pub list: Vec<Entry>,
}

/// Whether the flags announce a data descriptor: bit 3.
pub open spec fn has_descriptor(flags: u16) -> bool {
    flags & 0x0008 != 0
}

impl View for LocalFile {
    type V = LocalFileView;

    open spec fn view(&self) -> LocalFileView {
        LocalFileView {
            version: self.version,
            flags: self.flags,
            compression: self.compression,
            mod_time: self.mod_time,
            mod_date: self.mod_date,
            crc32: self.crc32,
            compressed_size: self.compressed_size,
            uncompressed_size: self.uncompressed_size,
            file_name_length: self.file_name_length,
            extra_field_length: self.extra_field_length,
            file_name: self.file_name@,
            extra_field: self.extra_field@,
            file_data: self.file_data@,
            data_descriptor: self.data_descriptor,
        }
    }
}

impl LocalFileView {
    /// The length fields give the lengths of the byte fields, and the data
    /// descriptor is there exactly when the flags announce it.
    pub open spec fn wf(self) -> bool {
        &&& self.file_name.len() == self.file_name_length
        &&& self.extra_field.len() == self.extra_field_length
        &&& self.file_data.len() == self.compressed_size
        &&& self.data_descriptor is Some <==> has_descriptor(self.flags)
    }
}

impl View for CentralDirectoryFileHeader {
    type V = CentralDirectoryFileHeaderView;

    open spec fn view(&self) -> CentralDirectoryFileHeaderView {
        CentralDirectoryFileHeaderView {
            version: self.version,
            version_needed: self.version_needed,
            flags: self.flags,
            compression: self.compression,
            mod_time: self.mod_time,
            mod_date: self.mod_date,
            crc32: self.crc32,
            compressed_size: self.compressed_size,
            uncompressed_size: self.uncompressed_size,
            file_name_length: self.file_name_length,
            extra_field_length: self.extra_field_length,
            file_comment_length: self.file_comment_length,
            disk_number_start: self.disk_number_start,
            internal_file_attributes: self.internal_file_attributes,
            external_file_attributes: self.external_file_attributes,
            lfh_offset: self.lfh_offset,
            file_name: self.file_name@,
            extra_field: self.extra_field@,
            file_comment: self.file_comment@,
        }
    }
}

impl CentralDirectoryFileHeaderView {
    /// The length fields give the lengths of the byte fields.
    pub open spec fn wf(self) -> bool {
        &&& self.file_name.len() == self.file_name_length
        &&& self.extra_field.len() == self.extra_field_length
        &&& self.file_comment.len() == self.file_comment_length
    }
}

impl View for EndOfCentralDirectoryRecord {
    type V = EndOfCentralDirectoryRecordView;

    open spec fn view(&self) -> EndOfCentralDirectoryRecordView {
        EndOfCentralDirectoryRecordView {
            disk_number: self.disk_number,
            disk_number_w_cd: self.disk_number_w_cd,
            disk_entries: self.disk_entries,
            total_entries: self.total_entries,
            cd_size: self.cd_size,
            cd_offset: self.cd_offset,
            comment_length: self.comment_length,
            zip_file_comment: self.zip_file_comment@,
        }
    }
}

impl EndOfCentralDirectoryRecordView {
    /// The length field gives the length of the comment.
    pub open spec fn wf(self) -> bool {
        self.zip_file_comment.len() == self.comment_length
    }
}

impl View for Entry {
    type V = EntryView;

    open spec fn view(&self) -> EntryView {
        match self {
            Entry::LocalFile(r) => EntryView::LocalFile(r@),
            Entry::CentralDirectoryFileHeader(r) => EntryView::CentralDirectoryFileHeader(r@),
            Entry::EndOfCentralDirectoryRecord(r) => EntryView::EndOfCentralDirectoryRecord(r@),
        }
    }
}

impl EntryView {
    /// The record's own well-formedness.
    pub open spec fn wf(self) -> bool {
        match self {
            EntryView::LocalFile(r) => r.wf(),
            EntryView::CentralDirectoryFileHeader(r) => r.wf(),
            EntryView::EndOfCentralDirectoryRecord(r) => r.wf(),
        }
    }
}

/// The values of a list of records, in the same order.
pub open spec fn entry_views(list: Seq<Entry>) -> Seq<EntryView> {
    Seq::new(list.len(), |i: int| list[i]@)
}

impl Entries {
    /// Every record is well-formed.
    pub open spec fn wf(&self) -> bool {
        forall|i: int| 0 <= i < self@.len() ==> (#[trigger] self@[i]).wf()
    }
}

impl View for Entries {
    type V = Seq<EntryView>;

    open spec fn view(&self) -> Seq<EntryView> {
        entry_views(self.list@)
    }
}

} // verus!
