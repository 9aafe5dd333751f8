use zp_lib::decode::{
    CENTRAL_DIRECTORY_SIGNATURE, END_OF_CENTRAL_DIRECTORY_SIGNATURE, LOCAL_FILE_SIGNATURE,
};
use zp_lib::{
    process, CentralDirectoryFileHeader, DataDescriptor, EndOfCentralDirectoryRecord, Entries,
    Entry, LocalFile, ZipError, Zip,
};
use zp_lib::codec::Reader;

fn local_file(flags: u16, name: &[u8], extra: &[u8], data: &[u8], tail: &[u8]) -> Vec<u8> {
    let mut b = vec![0x50, 0x4b, 0x03, 0x04];
    b.extend_from_slice(&20u16.to_le_bytes());
    b.extend_from_slice(&flags.to_le_bytes());
    b.extend_from_slice(&8u16.to_le_bytes());
    b.extend_from_slice(&0x48b3u16.to_le_bytes());
    b.extend_from_slice(&0x5119u16.to_le_bytes());
    b.extend_from_slice(&0x11223344u32.to_le_bytes());
    b.extend_from_slice(&(data.len() as u32).to_le_bytes());
    b.extend_from_slice(&77u32.to_le_bytes());
    b.extend_from_slice(&(name.len() as u16).to_le_bytes());
    b.extend_from_slice(&(extra.len() as u16).to_le_bytes());
    b.extend_from_slice(name);
    b.extend_from_slice(extra);
    b.extend_from_slice(data);
    b.extend_from_slice(tail);
    b
}

fn central(name: &[u8], extra: &[u8], comment: &[u8]) -> Vec<u8> {
    let mut b = vec![0x50, 0x4b, 0x01, 0x02];
    b.extend_from_slice(&0x031eu16.to_le_bytes());
    b.extend_from_slice(&20u16.to_le_bytes());
    b.extend_from_slice(&0x0800u16.to_le_bytes());
    b.extend_from_slice(&8u16.to_le_bytes());
    b.extend_from_slice(&0x6893u16.to_le_bytes());
    b.extend_from_slice(&0x5319u16.to_le_bytes());
    b.extend_from_slice(&0xcafef00du32.to_le_bytes());
    b.extend_from_slice(&100u32.to_le_bytes());
    b.extend_from_slice(&2272u32.to_le_bytes());
    b.extend_from_slice(&(name.len() as u16).to_le_bytes());
    b.extend_from_slice(&(extra.len() as u16).to_le_bytes());
    b.extend_from_slice(&(comment.len() as u16).to_le_bytes());
    b.extend_from_slice(&1u16.to_le_bytes());
    b.extend_from_slice(&2u16.to_le_bytes());
    b.extend_from_slice(&0x81a40000u32.to_le_bytes());
    b.extend_from_slice(&0x00010203u32.to_le_bytes());
    b.extend_from_slice(name);
    b.extend_from_slice(extra);
    b.extend_from_slice(comment);
    b
}

fn end_record(comment: &[u8]) -> Vec<u8> {
    let mut b = vec![0x50, 0x4b, 0x05, 0x06];
    b.extend_from_slice(&1u16.to_le_bytes());
    b.extend_from_slice(&2u16.to_le_bytes());
    b.extend_from_slice(&3u16.to_le_bytes());
    b.extend_from_slice(&4u16.to_le_bytes());
    b.extend_from_slice(&0x0000007fu32.to_le_bytes());
    b.extend_from_slice(&0x00000053u32.to_le_bytes());
    b.extend_from_slice(&(comment.len() as u16).to_le_bytes());
    b.extend_from_slice(comment);
    b
}

fn only_local(bytes: &[u8]) -> LocalFile {
    let mut list = Entries::decode(bytes).unwrap().list;
    assert_eq!(list.len(), 1);
    match list.remove(0) {
        Entry::LocalFile(r) => r,
        other => panic!("not a local file record: {:?}", other),
    }
}

#[test]
fn signatures() {
    assert_eq!(LOCAL_FILE_SIGNATURE, 0x504b0304);
    assert_eq!(CENTRAL_DIRECTORY_SIGNATURE, 0x504b0102);
    assert_eq!(END_OF_CENTRAL_DIRECTORY_SIGNATURE, 0x504b0506);
}

#[test]
fn local_file_fields() {
    let r = only_local(&local_file(0, b"a.txt", &[1, 2, 3], b"hello", &[]));
    assert_eq!(r.version, 20);
    assert_eq!(r.flags, 0);
    assert_eq!(r.compression, 8);
    assert_eq!(r.mod_time, 0x48b3);
    assert_eq!(r.mod_date, 0x5119);
    assert_eq!(r.crc32, 0x11223344);
    assert_eq!(r.compressed_size, 5);
    assert_eq!(r.uncompressed_size, 77);
    assert_eq!(r.file_name_length, 5);
    assert_eq!(r.extra_field_length, 3);
    assert_eq!(r.file_name, b"a.txt".to_vec());
    assert_eq!(r.extra_field, vec![1, 2, 3]);
    assert_eq!(r.file_data, b"hello".to_vec());
    assert_eq!(r.data_descriptor, None);
}

#[test]
fn descriptor_is_absent_without_bit_3() {
    let r = only_local(&local_file(0xfff7, b"a", &[], b"xyz", &[]));
    assert_eq!(r.data_descriptor, None);
    assert!(r.verbose().ends_with("file_data = \"78797a\"\ndata_descriptor = None\n"));
    let twelve = [1u8, 0, 0, 0, 2, 0, 0, 0, 3, 0, 0, 0];
    let err = Entries::decode(&local_file(0, b"a", &[], b"xyz", &twelve)).unwrap_err();
    assert_eq!(err, ZipError::InvalidSignature(0x01000000));
}

#[test]
fn descriptor_follows_the_data_with_bit_3() {
    let twelve = [0x0d, 0xf0, 0xfe, 0xca, 3, 0, 0, 0, 0x00, 0x01, 0, 0];
    let r = only_local(&local_file(8, b"a", &[9], b"xyz", &twelve));
    assert_eq!(r.file_data, b"xyz".to_vec());
    assert_eq!(
        r.data_descriptor,
        Some(DataDescriptor { crc32: 0xcafef00d, compressed_size: 3, uncompressed_size: 256 })
    );
    assert!(r.verbose().ends_with(
        "file_data = \"78797a\"\n\
         data_descriptor = {\n\
         \x20   crc32 = 0xcafef00d (3405705229)\n\
         \x20   compressed_size = 0x00000003 (3)\n\
         \x20   uncompressed_size = 0x00000100 (256)\n\
         }\n\n"
    ));
    assert_eq!(
        Entries::decode(&local_file(8, b"a", &[9], b"xyz", &twelve[..11])).unwrap_err(),
        ZipError::TruncatedInput
    );
    assert_eq!(
        Entries::decode(&local_file(0x0008, b"a", &[9], b"xyz", &[])).unwrap_err(),
        ZipError::TruncatedInput
    );
}

#[test]
fn descriptor_dump() {
    let d = DataDescriptor { crc32: 1, compressed_size: 0xffffffff, uncompressed_size: 0 };
    assert_eq!(
        d.verbose(),
        "{\n\
         \x20   crc32 = 0x00000001 (1)\n\
         \x20   compressed_size = 0xffffffff (4294967295)\n\
         \x20   uncompressed_size = 0x00000000 (0)\n\
         }\n"
    );
}

#[test]
fn local_file_dump() {
    let r = only_local(&local_file(0, b"a.txt", &[0, 0xff], b"\x00\x10", &[]));
    let want = "sig = 0x504b0304 (Local file header)\n\
version = 0x0014 (20)\n\
flags = 0x0000 (0)\n\
compression = 0x0008 (8)\n\
mod_time = 0x48b3 ((9, 5, 38))\n\
mod_date = 0x5119 ((2020, 8, 25))\n\
crc32 = 0x11223344 (287454020)\n\
compressed_size = 0x00000002 (2)\n\
uncompressed_size = 0x0000004d (77)\n\
file_name_length = 0x0005 (5)\n\
extra_field_length = 0x0002 (2)\n\
file_name = \"612e747874\" (\"a.txt\")\n\
extra_field = \"00ff\"\n\
file_data = \"0010\"\n\
data_descriptor = None\n";
    assert_eq!(r.verbose(), want);
    assert_eq!(r.verbose_with("\"a.txt\""), want);
    assert!(r.verbose_with("<name>").contains("file_name = \"612e747874\" (<name>)\n"));
}

#[test]
fn central_directory_dump_and_summary() {
    let bytes = central(b"dir/sub/", &[0xab], b"note");
    let mut reader = Reader::new(&bytes);
    assert_eq!(reader.take_u32_be(), Ok(CENTRAL_DIRECTORY_SIGNATURE));
    let r = CentralDirectoryFileHeader::decode(&mut reader).unwrap();
    assert_eq!(reader.pos, bytes.len());
    let want = "sig = 0x504b0102 (Central directory file header)\n\
version = 0x031e (798)\n\
version_needed = 0x0014 (20)\n\
flags = 0x0800 (2048)\n\
compression = 0x0008 (8)\n\
mod_time = 0x6893 ((13, 4, 38))\n\
mod_date = 0x5319 ((2021, 8, 25))\n\
crc32 = 0xcafef00d (3405705229)\n\
compressed_size = 0x00000064 (100)\n\
uncompressed_size = 0x000008e0 (2272)\n\
file_name_length = 0x0008 (8)\n\
extra_field_length = 0x0001 (1)\n\
file_comment_length = 0x0004 (4)\n\
disk_number_start = 0x0001 (1)\n\
internal_file_attributes = 0x0002 (2)\n\
external_file_attributes = 0x81a40000 (2175008768)\n\
lfh_offset = 0x00010203 (66051)\n\
file_name = \"6469722f7375622f\" (\"dir/sub/\")\n\
extra_field = \"ab\"\n\
file_comment = \"6e6f7465\" (\"note\")\n";
    assert_eq!(r.verbose(), want);
    assert_eq!(r.verbose_with("\"dir/sub/\"", "\"note\""), want);
    assert_eq!(r.summary(), "dir/sub/\ttrue\t2272\t2021-08-25T13:04:38\tnote\n");
}

#[test]
fn summary_pads_the_date_and_time() {
    let mut bytes = central(b"/x", &[], b"");
    bytes[12..14].copy_from_slice(&0x0821u16.to_le_bytes());
    bytes[14..16].copy_from_slice(&0x0221u16.to_le_bytes());
    assert_eq!(process(&bytes, false).unwrap(), "/x\tfalse\t2272\t1981-01-01T01:01:02\t\n");
    bytes[12..16].copy_from_slice(&[0, 0, 0, 0]);
    assert_eq!(process(&bytes, false).unwrap(), "/x\tfalse\t2272\t1980-00-00T00:00:00\t\n");
    bytes[12..16].copy_from_slice(&[0xff, 0xff, 0xff, 0xff]);
    assert_eq!(process(&bytes, false).unwrap(), "/x\tfalse\t2272\t2107-15-31T31:63:62\t\n");
}

#[test]
fn directory_is_a_name_that_ends_with_a_slash() {
    for (name, want) in [
        (&b"/"[..], "true"),
        (&b"a/"[..], "true"),
        (&b"a/b"[..], "false"),
        (&b""[..], "false"),
        (&b"a\\"[..], "false"),
    ] {
        let line = process(&central(name, &[], b""), false).unwrap();
        assert_eq!(line.split('\t').nth(1), Some(want));
    }
}

#[test]
fn end_record_dump() {
    let bytes = end_record(b"bye");
    let mut reader = Reader::new(&bytes);
    assert_eq!(reader.take_u32_be(), Ok(END_OF_CENTRAL_DIRECTORY_SIGNATURE));
    let r = EndOfCentralDirectoryRecord::decode(&mut reader).unwrap();
    let want = "sig = 0x504b0506 (End of central directory record)\n\
disk_number = 0x0001 (1)\n\
disk_number_w_cd = 0x0002 (2)\n\
disk_entries = 0x0003 (3)\n\
total_entries = 0x0004 (4)\n\
cd_size = 0x0000007f (127)\n\
cd_offset = 0x00000053 (83)\n\
comment_length = 0x0003 (3)\n\
zip_file_comment = \"627965\" (\"bye\")\n";
    assert_eq!(r.verbose(), want);
    assert_eq!(r.verbose_with("\"bye\""), want);
    assert_eq!(process(&bytes, true).unwrap(), format!("---\n{}---\nEOF\n---\n", want));
    assert_eq!(process(&bytes, false).unwrap(), "");
}

#[test]
fn text_is_quoted_with_escapes() {
    let r = only_local(&local_file(0, b"a\"b\\c\td\n", &[], b"", &[]));
    assert!(r
        .verbose()
        .contains("file_name = \"6122625c6309640a\" (\"a\\\"b\\\\c\\td\\n\")\n"));
    let r = only_local(&local_file(0, "é'".as_bytes(), &[], b"", &[]));
    assert!(r.verbose().contains("file_name = \"c3a927\" (\"é'\")\n"));
    let r = only_local(&local_file(0, b"\x7f", &[], b"", &[]));
    assert!(r.verbose().contains("file_name = \"7f\" (\"\\u{7f}\")\n"));
}

#[test]
fn text_that_is_no_utf8_fails() {
    let bad_local = local_file(0, b"\xff.txt", &[], b"", &[]);
    assert_eq!(process(&bad_local, true).unwrap_err(), "Field is not valid UTF-8 text");
    assert_eq!(process(&bad_local, false).unwrap(), "");
    assert!(!only_local(&bad_local).text_ok());

    let bad_name = central(b"\xc3", &[], b"fine");
    assert_eq!(process(&bad_name, true).unwrap_err(), "Field is not valid UTF-8 text");
    assert_eq!(process(&bad_name, false).unwrap_err(), "Field is not valid UTF-8 text");

    let bad_comment = central(b"fine", &[], b"\xed\xa0\x80");
    assert_eq!(process(&bad_comment, true).unwrap_err(), "Field is not valid UTF-8 text");
    assert_eq!(process(&bad_comment, false).unwrap_err(), "Field is not valid UTF-8 text");

    let bad_end = end_record(b"\x80");
    assert_eq!(process(&bad_end, true).unwrap_err(), "Field is not valid UTF-8 text");
    assert_eq!(process(&bad_end, false).unwrap(), "");

    let bad_extra = central(b"fine", &[0xff, 0xfe], b"");
    assert!(process(&bad_extra, true).is_ok());

    let mut late = central(b"fine", &[], b"");
    late.extend_from_slice(&bad_name);
    let zip = Zip::process(&late).unwrap();
    assert_eq!(zip.verbose().unwrap_err(), "Field is not valid UTF-8 text");
    assert_eq!(zip.summary().unwrap_err(), "Field is not valid UTF-8 text");
    assert_eq!(zip.output(true).unwrap_err(), "Field is not valid UTF-8 text");
}

#[test]
fn one_record_at_a_time() {
    let mut bytes = local_file(0, b"a", &[], b"", &[]);
    let first = bytes.len();
    bytes.extend_from_slice(&end_record(b""));
    bytes.extend_from_slice(&[0x50, 0x4b]);
    let mut reader = Reader::new(&bytes);
    assert!(matches!(Entry::decode(&mut reader), Ok(Some(Entry::LocalFile(_)))));
    assert_eq!(reader.pos, first);
    assert!(matches!(
        Entry::decode(&mut reader),
        Ok(Some(Entry::EndOfCentralDirectoryRecord(_)))
    ));
    assert_eq!(reader.pos, bytes.len() - 2);
    assert!(matches!(Entry::decode(&mut reader), Ok(None)));
    assert_eq!(reader.pos, bytes.len() - 2);
    let mut reader = Reader::new(&[0x50, 0x4b, 0x03, 0x05, 0x00]);
    assert!(matches!(
        Entry::decode(&mut reader),
        Err(ZipError::InvalidSignature(0x504b0305))
    ));
}

#[test]
fn data_are_as_long_as_the_compressed_size() {
    let mut bytes = local_file(0, b"n", &[], &[7u8; 300], &[]);
    bytes.extend_from_slice(&end_record(b""));
    let list = Entries::decode(&bytes).unwrap().list;
    assert_eq!(list.len(), 2);
    match &list[0] {
        Entry::LocalFile(r) => {
            assert_eq!(r.compressed_size, 300);
            assert_eq!(r.file_data, vec![7u8; 300]);
        }
        _ => panic!("a local file record comes first"),
    }
}
