//! The record decoder: what the bytes of an archive mean, and the functions
//! that read them.

use crate::codec::{be32_at, le16_at, le32_at, Reader};
use crate::entries::{
    entry_views, has_descriptor, CentralDirectoryFileHeader, CentralDirectoryFileHeaderView,
    DataDescriptor, EndOfCentralDirectoryRecord, EndOfCentralDirectoryRecordView, Entries, Entry,
    EntryView, LocalFile, LocalFileView,
};
use crate::error::ZipError;
use vstd::prelude::*;

verus! {

/// The signature of a local file header, read most significant byte first.
pub const LOCAL_FILE_SIGNATURE: u32 = 0x504b0304;

/// The signature of a central directory file header.
pub const CENTRAL_DIRECTORY_SIGNATURE: u32 = 0x504b0102;

/// The signature of the end of central directory record.
pub const END_OF_CENTRAL_DIRECTORY_SIGNATURE: u32 = 0x504b0506;

/// The data descriptor whose twelve bytes begin at `p`.
pub open spec fn data_descriptor_at(s: Seq<u8>, p: int) -> DataDescriptor {
    DataDescriptor {
        crc32: le32_at(s, p),
        compressed_size: le32_at(s, p + 4),
        uncompressed_size: le32_at(s, p + 8),
    }
}

/// The local file record whose fields begin at `p`, just behind its signature,
/// and the position behind the record; `None` where the input ends first.
pub open spec fn local_file_at(s: Seq<u8>, p: int) -> Option<(LocalFileView, int)> {
    if p + 26 > s.len() {
        None
    } else {
        let flags = le16_at(s, p + 2);
        let compressed_size = le32_at(s, p + 14);
        let file_name_length = le16_at(s, p + 22);
        let extra_field_length = le16_at(s, p + 24);
        let name = p + 26;
        let extra = name + file_name_length;
        let data = extra + extra_field_length;
        let descriptor = data + compressed_size;
        let end = if has_descriptor(flags) {
            descriptor + 12
        } else {
            descriptor
        };
        if end > s.len() {
            None
        } else {
            Some(
                (
                    LocalFileView {
                        version: le16_at(s, p),
                        flags,
                        compression: le16_at(s, p + 4),
                        mod_time: le16_at(s, p + 6),
                        mod_date: le16_at(s, p + 8),
                        crc32: le32_at(s, p + 10),
                        compressed_size,
                        uncompressed_size: le32_at(s, p + 18),
                        file_name_length,
                        extra_field_length,
                        file_name: s.subrange(name, extra),
                        extra_field: s.subrange(extra, data),
                        file_data: s.subrange(data, descriptor),
                        data_descriptor: if has_descriptor(flags) {
                            Some(data_descriptor_at(s, descriptor))
                        } else {
                            None
                        },
                    },
                    end,
                ),
            )
        }
    }
}

/// The central directory file header whose fields begin at `p`, just behind its
/// signature, and the position behind the record; `None` where the input ends
/// first.
pub open spec fn central_directory_at(s: Seq<u8>, p: int) -> Option<
    (CentralDirectoryFileHeaderView, int),
> {
    if p + 42 > s.len() {
        None
    } else {
        let file_name_length = le16_at(s, p + 24);
        let extra_field_length = le16_at(s, p + 26);
        let file_comment_length = le16_at(s, p + 28);
        let name = p + 42;
        let extra = name + file_name_length;
        let comment = extra + extra_field_length;
        let end = comment + file_comment_length;
        if end > s.len() {
            None
        } else {
            Some(
                (
                    CentralDirectoryFileHeaderView {
                        version: le16_at(s, p),
                        version_needed: le16_at(s, p + 2),
                        flags: le16_at(s, p + 4),
                        compression: le16_at(s, p + 6),
                        mod_time: le16_at(s, p + 8),
                        mod_date: le16_at(s, p + 10),
                        crc32: le32_at(s, p + 12),
                        compressed_size: le32_at(s, p + 16),
                        uncompressed_size: le32_at(s, p + 20),
                        file_name_length,
                        extra_field_length,
                        file_comment_length,
                        disk_number_start: le16_at(s, p + 30),
                        internal_file_attributes: le16_at(s, p + 32),
                        external_file_attributes: le32_at(s, p + 34),
                        lfh_offset: le32_at(s, p + 38),
                        file_name: s.subrange(name, extra),
                        extra_field: s.subrange(extra, comment),
                        file_comment: s.subrange(comment, end),
                    },
                    end,
                ),
            )
        }
    }
}

/// The end of central directory record whose fields begin at `p`, just behind
/// its signature, and the position behind the record; `None` where the input
/// ends first.
pub open spec fn end_of_central_directory_at(s: Seq<u8>, p: int) -> Option<
    (EndOfCentralDirectoryRecordView, int),
> {
    if p + 18 > s.len() {
        None
    } else {
        let comment_length = le16_at(s, p + 16);
        let comment = p + 18;
        let end = comment + comment_length;
        if end > s.len() {
            None
        } else {
            Some(
                (
                    EndOfCentralDirectoryRecordView {
                        disk_number: le16_at(s, p),
                        disk_number_w_cd: le16_at(s, p + 2),
                        disk_entries: le16_at(s, p + 4),
                        total_entries: le16_at(s, p + 6),
                        cd_size: le32_at(s, p + 8),
                        cd_offset: le32_at(s, p + 12),
                        comment_length,
                        zip_file_comment: s.subrange(comment, end),
                    },
                    end,
                ),
            )
        }
    }
}

/// What stands at a position where a record may begin.
pub enum Step {
    /// Fewer than four bytes are left: the end of the stream.
    End,
    /// A record, and the position behind it.
    Record(EntryView, int),
    /// No record can be read here.
    Failure(ZipError),
}

/// Wraps a record body as a step, or reports the truncation.
pub open spec fn step_of<V>(
    body: Option<(V, int)>,
    wrap: spec_fn(V) -> EntryView,
) -> Step {
    match body {
        Some((v, end)) => Step::Record(wrap(v), end),
        None => Step::Failure(ZipError::TruncatedInput),
    }
}

/// Reads one step at `p`: the signature decides the record type, and an
/// unknown signature fails with its value.
pub open spec fn step_at(s: Seq<u8>, p: int) -> Step {
    if p + 4 > s.len() {
        Step::End
    } else {
        let signature = be32_at(s, p);
        if signature == LOCAL_FILE_SIGNATURE {
            step_of(local_file_at(s, p + 4), |v: LocalFileView| EntryView::LocalFile(v))
        } else if signature == CENTRAL_DIRECTORY_SIGNATURE {
            step_of(
                central_directory_at(s, p + 4),
                |v: CentralDirectoryFileHeaderView| EntryView::CentralDirectoryFileHeader(v),
            )
        } else if signature == END_OF_CENTRAL_DIRECTORY_SIGNATURE {
            step_of(
                end_of_central_directory_at(s, p + 4),
                |v: EndOfCentralDirectoryRecordView| EntryView::EndOfCentralDirectoryRecord(v),
            )
        } else {
            Step::Failure(ZipError::InvalidSignature(signature))
        }
    }
}

/// Puts `front` before the records of a result.
pub open spec fn prepend(front: Seq<EntryView>, r: Result<Seq<EntryView>, ZipError>) -> Result<
    Seq<EntryView>,
    ZipError,
> {
    match r {
        Ok(rest) => Ok(front + rest),
        Err(e) => Err(e),
    }
}

/// The records from `p` to the end of the stream, or the first failure.
pub open spec fn records_from(s: Seq<u8>, p: int) -> Result<Seq<EntryView>, ZipError>
    decreases s.len() - p,
{
    match step_at(s, p) {
        Step::End => Ok(Seq::empty()),
        Step::Failure(e) => Err(e),
        Step::Record(v, end) => prepend(seq![v], records_from(s, end)),
    }
}

/// The archive that the bytes hold: their records, of which there is at least
/// one, or the failure that ends the decoding.
pub open spec fn archive_of(s: Seq<u8>) -> Result<Seq<EntryView>, ZipError> {
    match records_from(s, 0) {
        Ok(list) => if list.len() == 0 {
            Err(ZipError::EmptyOrUnreadable)
        } else {
            Ok(list)
        },
        Err(e) => Err(e),
    }
}

/// Every record that is decoded is well-formed: its length fields give the
/// lengths of its byte fields, and a local file record has a data descriptor
/// exactly when bit 3 of its flags is set.
pub proof fn decoded_records_are_well_formed(s: Seq<u8>, p: int)
    requires
        0 <= p,
        records_from(s, p) is Ok,
    ensures
        forall|i: int|
            0 <= i < records_from(s, p).unwrap().len() ==> (#[trigger] records_from(
                s,
                p,
            ).unwrap()[i]).wf(),
    decreases s.len() - p,
{
    match step_at(s, p) {
        Step::Record(v, end) => {
            decoded_records_are_well_formed(s, end);
            let rest = records_from(s, end).unwrap();
            assert(v.wf());
            assert forall|i: int| 0 <= i < records_from(s, p).unwrap().len() implies (
            #[trigger] records_from(s, p).unwrap()[i]).wf() by {
                if i > 0 {
                    assert(records_from(s, p).unwrap()[i] == rest[i - 1]);
                }
            }
        },
        _ => {},
    }
}

impl DataDescriptor {
    /// Reads a data descriptor at the reader's position.
    pub fn decode(reader: &mut Reader<'_>) -> (r: Result<DataDescriptor, ZipError>)
        requires
            old(reader).wf(),
        ensures
            final(reader).wf(),
            final(reader).bytes == old(reader).bytes,
            old(reader).pos + 12 <= old(reader).bytes@.len() ==> r == Ok::<
                DataDescriptor,
                ZipError,
            >(data_descriptor_at(old(reader).bytes@, old(reader).pos as int)) && final(reader).pos
                == old(reader).pos + 12,
            old(reader).pos + 12 > old(reader).bytes@.len() ==> r == Err::<
                DataDescriptor,
                ZipError,
            >(ZipError::TruncatedInput),
    {
        let crc32 = reader.take_u32_le()?;
        let compressed_size = reader.take_u32_le()?;
        let uncompressed_size = reader.take_u32_le()?;
        Ok(DataDescriptor { crc32, compressed_size, uncompressed_size })
    }
}

impl LocalFile {
    /// Reads a local file record whose signature has just been read.
    pub fn decode(reader: &mut Reader<'_>) -> (r: Result<LocalFile, ZipError>)
        requires
            old(reader).wf(),
        ensures
            final(reader).wf(),
            final(reader).bytes == old(reader).bytes,
            match local_file_at(old(reader).bytes@, old(reader).pos as int) {
                Some((v, end)) => r is Ok && r.unwrap()@ == v && final(reader).pos == end,
                None => r is Err && r.unwrap_err() == ZipError::TruncatedInput,
            },
            r is Ok ==> r.unwrap()@.wf(),
    {
        let version = reader.take_u16_le()?;
        let flags = reader.take_u16_le()?;
        let compression = reader.take_u16_le()?;
        let mod_time = reader.take_u16_le()?;
        let mod_date = reader.take_u16_le()?;
        let crc32 = reader.take_u32_le()?;
        let compressed_size = reader.take_u32_le()?;
        let uncompressed_size = reader.take_u32_le()?;
        let file_name_length = reader.take_u16_le()?;
        let extra_field_length = reader.take_u16_le()?;
        let file_name = reader.take_bytes(file_name_length as usize)?;
        let extra_field = reader.take_bytes(extra_field_length as usize)?;
        let file_data = reader.take_bytes(compressed_size as usize)?;
        let data_descriptor = if flags & 0x0008 != 0 {
            Some(DataDescriptor::decode(reader)?)
        } else {
            None
        };
        Ok(
            LocalFile {
                version,
                flags,
                compression,
                mod_time,
                mod_date,
                crc32,
                compressed_size,
                uncompressed_size,
                file_name_length,
                extra_field_length,
                file_name,
                extra_field,
                file_data,
                data_descriptor,
            },
        )
    }
}

impl CentralDirectoryFileHeader {
    /// Reads a central directory file header whose signature has just been read.
    pub fn decode(reader: &mut Reader<'_>) -> (r: Result<CentralDirectoryFileHeader, ZipError>)
        requires
            old(reader).wf(),
        ensures
            final(reader).wf(),
            final(reader).bytes == old(reader).bytes,
            match central_directory_at(old(reader).bytes@, old(reader).pos as int) {
                Some((v, end)) => r is Ok && r.unwrap()@ == v && final(reader).pos == end,
                None => r is Err && r.unwrap_err() == ZipError::TruncatedInput,
            },
            r is Ok ==> r.unwrap()@.wf(),
    {
        let version = reader.take_u16_le()?;
        let version_needed = reader.take_u16_le()?;
        let flags = reader.take_u16_le()?;
        let compression = reader.take_u16_le()?;
        let mod_time = reader.take_u16_le()?;
        let mod_date = reader.take_u16_le()?;
        let crc32 = reader.take_u32_le()?;
        let compressed_size = reader.take_u32_le()?;
        let uncompressed_size = reader.take_u32_le()?;
        let file_name_length = reader.take_u16_le()?;
        let extra_field_length = reader.take_u16_le()?;
        let file_comment_length = reader.take_u16_le()?;
        let disk_number_start = reader.take_u16_le()?;
        let internal_file_attributes = reader.take_u16_le()?;
        let external_file_attributes = reader.take_u32_le()?;
        let lfh_offset = reader.take_u32_le()?;
        let file_name = reader.take_bytes(file_name_length as usize)?;
        let extra_field = reader.take_bytes(extra_field_length as usize)?;
        let file_comment = reader.take_bytes(file_comment_length as usize)?;
        Ok(
            CentralDirectoryFileHeader {
                version,
                version_needed,
                flags,
                compression,
                mod_time,
                mod_date,
                crc32,
                compressed_size,
                uncompressed_size,
                file_name_length,
                extra_field_length,
                file_comment_length,
                disk_number_start,
                internal_file_attributes,
                external_file_attributes,
                lfh_offset,
                file_name,
                extra_field,
                file_comment,
            },
        )
    }
}

impl EndOfCentralDirectoryRecord {
    /// Reads an end of central directory record whose signature has just been read.
    pub fn decode(reader: &mut Reader<'_>) -> (r: Result<EndOfCentralDirectoryRecord, ZipError>)
        requires
            old(reader).wf(),
        ensures
            final(reader).wf(),
            final(reader).bytes == old(reader).bytes,
            match end_of_central_directory_at(old(reader).bytes@, old(reader).pos as int) {
                Some((v, end)) => r is Ok && r.unwrap()@ == v && final(reader).pos == end,
                None => r is Err && r.unwrap_err() == ZipError::TruncatedInput,
            },
            r is Ok ==> r.unwrap()@.wf(),
    {
        let disk_number = reader.take_u16_le()?;
        let disk_number_w_cd = reader.take_u16_le()?;
        let disk_entries = reader.take_u16_le()?;
        let total_entries = reader.take_u16_le()?;
        let cd_size = reader.take_u32_le()?;
        let cd_offset = reader.take_u32_le()?;
        let comment_length = reader.take_u16_le()?;
        let zip_file_comment = reader.take_bytes(comment_length as usize)?;
        Ok(
            EndOfCentralDirectoryRecord {
                disk_number,
                disk_number_w_cd,
                disk_entries,
                total_entries,
                cd_size,
                cd_offset,
                comment_length,
                zip_file_comment,
            },
        )
    }
}

impl Entry {
    /// Reads the next record, or finds the end of the stream.
    pub fn decode(reader: &mut Reader<'_>) -> (r: Result<Option<Entry>, ZipError>)
        requires
            old(reader).wf(),
        ensures
            final(reader).wf(),
            final(reader).bytes == old(reader).bytes,
            match step_at(old(reader).bytes@, old(reader).pos as int) {
                Step::End => r is Ok && r.unwrap() is None && final(reader).pos == old(
                    reader,
                ).pos,
                Step::Record(v, end) => r is Ok && r.unwrap() is Some && r.unwrap().unwrap()@ == v
                    && final(reader).pos == end,
                Step::Failure(e) => r is Err && r.unwrap_err() == e,
            },
            r is Ok && r.unwrap() is Some ==> r.unwrap().unwrap()@.wf(),
    {
        let signature = match reader.take_u32_be() {
            Ok(signature) => signature,
            Err(_) => {
                return Ok(None);
            },
        };
        if signature == LOCAL_FILE_SIGNATURE {
            let record = LocalFile::decode(reader)?;
            Ok(Some(Entry::LocalFile(record)))
        } else if signature == CENTRAL_DIRECTORY_SIGNATURE {
            let record = CentralDirectoryFileHeader::decode(reader)?;
            Ok(Some(Entry::CentralDirectoryFileHeader(record)))
        } else if signature == END_OF_CENTRAL_DIRECTORY_SIGNATURE {
            let record = EndOfCentralDirectoryRecord::decode(reader)?;
            Ok(Some(Entry::EndOfCentralDirectoryRecord(record)))
        } else {
            Err(ZipError::InvalidSignature(signature))
        }
    }
}

impl Entries {
    /// Reads records from the start of `bytes` until fewer than four bytes are
    /// left. The first failure ends the decoding, and nothing is kept. An input
    /// of fewer than four bytes gives the empty list.
    pub fn decode(bytes: &[u8]) -> (r: Result<Entries, ZipError>)
        ensures
            match records_from(bytes@, 0) {
                Ok(list) => r is Ok && r.unwrap()@ == list,
                Err(e) => r is Err && r.unwrap_err() == e,
            },
            r is Ok ==> r.unwrap().wf(),
    {
        let mut reader = Reader::new(bytes);
        let mut list: Vec<Entry> = Vec::new();
        proof {
            if records_from(bytes@, 0) is Ok {
                assert(entry_views(list@) + records_from(bytes@, 0).unwrap() =~= records_from(
                    bytes@,
                    0,
                ).unwrap());
            }
        }
        loop
            invariant
                reader.wf(),
                reader.bytes == bytes,
                records_from(bytes@, 0) == prepend(
                    entry_views(list@),
                    records_from(bytes@, reader.pos as int),
                ),
            decreases bytes@.len() - reader.pos,
        {
            let ghost before = entry_views(list@);
            let ghost here = reader.pos as int;
            match Entry::decode(&mut reader) {
                Err(e) => {
                    return Err(e);
                },
                Ok(None) => {
                    proof {
                        assert(before + Seq::<EntryView>::empty() =~= before);
                        decoded_records_are_well_formed(bytes@, 0);
                    }
                    return Ok(Entries { list });
                },
                Ok(Some(entry)) => {
                    list.push(entry);
                    proof {
                        let rest = records_from(bytes@, reader.pos as int);
                        assert(entry_views(list@) =~= before + seq![entry@]);
                        if rest is Ok {
                            assert(before + (seq![entry@] + rest.unwrap()) =~= entry_views(list@)
                                + rest.unwrap());
                        }
                    }
                },
            }
        }
    }
}

} // verus!
