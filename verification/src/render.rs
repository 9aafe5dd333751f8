//! The text of single records: the field-by-field dump of each record type and
//! the summary line of a central directory file header.

use crate::dos::{
    dos_day, dos_hour, dos_minute, dos_month, dos_second, dos_year, mod_date, mod_time,
};
use crate::entries::{
    CentralDirectoryFileHeader, CentralDirectoryFileHeaderView, DataDescriptor,
    EndOfCentralDirectoryRecord, EndOfCentralDirectoryRecordView, Entry, EntryView, LocalFile,
    LocalFileView,
};
use crate::text::{
    debug_quote, debug_text, dec_text, hex_bytes, hex_encode, hex_text, push_dec, push_hex,
    utf8_text,
};
use vstd::prelude::*;
use vstd::string::*;
use vstd::utf8::*;

verus! {

/// A line for a number: the name, the value in hexadecimal with `width` digits
/// and the value in decimal.
pub open spec fn number_field(name: Seq<char>, value: nat, width: nat) -> Seq<char> {
    name + " = 0x"@ + hex_text(value, width) + " ("@ + dec_text(value, 1) + ")\n"@
}

/// Three numbers as a tuple is printed.
pub open spec fn triple_text(a: nat, b: nat, c: nat) -> Seq<char> {
    "("@ + dec_text(a, 1) + ", "@ + dec_text(b, 1) + ", "@ + dec_text(c, 1) + ")"@
}

/// A line for a packed time: the raw value in hexadecimal and the hour, minute
/// and second.
pub open spec fn time_field(name: Seq<char>, raw: u16) -> Seq<char> {
    name + " = 0x"@ + hex_text(raw as nat, 4) + " ("@ + triple_text(
        dos_hour(raw) as nat,
        dos_minute(raw) as nat,
        dos_second(raw) as nat,
    ) + ")\n"@
}

/// A line for a packed date: the raw value in hexadecimal and the year, month
/// and day.
pub open spec fn date_field(name: Seq<char>, raw: u16) -> Seq<char> {
    name + " = 0x"@ + hex_text(raw as nat, 4) + " ("@ + triple_text(
        dos_year(raw) as nat,
        dos_month(raw) as nat,
        dos_day(raw) as nat,
    ) + ")\n"@
}

/// A line for raw bytes: the name and the bytes in hexadecimal between quotes.
pub open spec fn bytes_field(name: Seq<char>, bytes: Seq<u8>) -> Seq<char> {
    name + " = \""@ + hex_bytes(bytes) + "\"\n"@
}

/// A line for bytes that are text: the name, the bytes in hexadecimal between
/// quotes and the quoted text.
pub open spec fn text_field(name: Seq<char>, bytes: Seq<u8>, quoted: Seq<char>) -> Seq<char> {
    name + " = \""@ + hex_bytes(bytes) + "\" ("@ + quoted + ")\n"@
}

/// The date and time of a summary line: `YYYY-MM-DDThh:mm:ss`.
pub open spec fn stamp_text(date: u16, time: u16) -> Seq<char> {
    dec_text(dos_year(date) as nat, 4) + "-"@ + dec_text(dos_month(date) as nat, 2) + "-"@
        + dec_text(dos_day(date) as nat, 2) + "T"@ + dec_text(dos_hour(time) as nat, 2) + ":"@
        + dec_text(dos_minute(time) as nat, 2) + ":"@ + dec_text(dos_second(time) as nat, 2)
}

/// Whether a name is that of a directory: it ends with a slash.
pub open spec fn is_directory(name: Seq<u8>) -> bool {
    name.len() > 0 && name.last() == 0x2f
}

/// `true` or `false`.
pub open spec fn bool_text(b: bool) -> Seq<char> {
    if b {
        "true"@
    } else {
        "false"@
    }
}

impl DataDescriptor {
    /// The dump of a data descriptor: its fields between braces, indented.
    pub open spec fn verbose_text(self) -> Seq<char> {
        "{\n"@ + number_field("    crc32"@, self.crc32 as nat, 8) + number_field(
            "    compressed_size"@,
            self.compressed_size as nat,
            8,
        ) + number_field("    uncompressed_size"@, self.uncompressed_size as nat, 8) + "}\n"@
    }
}

/// What is printed for the data descriptor of a local file record.
pub open spec fn descriptor_text(d: Option<DataDescriptor>) -> Seq<char> {
    match d {
        Some(d) => d.verbose_text(),
        None => "None"@,
    }
}

impl LocalFileView {
    /// The dump of a local file record. `quoted_name` is the file name as quoted
    /// text.
    pub open spec fn verbose_with(self, quoted_name: Seq<char>) -> Seq<char> {
        "sig = 0x504b0304 (Local file header)\n"@ + number_field(
            "version"@,
            self.version as nat,
            4,
        ) + number_field("flags"@, self.flags as nat, 4) + number_field(
            "compression"@,
            self.compression as nat,
            4,
        ) + time_field("mod_time"@, self.mod_time) + date_field("mod_date"@, self.mod_date)
            + number_field("crc32"@, self.crc32 as nat, 8) + number_field(
            "compressed_size"@,
            self.compressed_size as nat,
            8,
        ) + number_field("uncompressed_size"@, self.uncompressed_size as nat, 8) + number_field(
            "file_name_length"@,
            self.file_name_length as nat,
            4,
        ) + number_field("extra_field_length"@, self.extra_field_length as nat, 4) + text_field(
            "file_name"@,
            self.file_name,
            quoted_name,
        ) + bytes_field("extra_field"@, self.extra_field) + bytes_field(
            "file_data"@,
            self.file_data,
        ) + "data_descriptor = "@ + descriptor_text(self.data_descriptor) + "\n"@
    }

    /// The fields that are printed as text hold well-formed UTF-8.
    pub open spec fn text_ok(self) -> bool {
        valid_utf8(self.file_name)
    }

    /// The dump of a local file record.
    pub open spec fn verbose_text(self) -> Seq<char> {
        self.verbose_with(debug_text(decode_utf8(self.file_name)))
    }
}

impl CentralDirectoryFileHeaderView {
    /// The dump of a central directory file header. `quoted_name` and
    /// `quoted_comment` are the file name and the comment as quoted text.
    pub open spec fn verbose_with(
        self,
        quoted_name: Seq<char>,
        quoted_comment: Seq<char>,
    ) -> Seq<char> {
        "sig = 0x504b0102 (Central directory file header)\n"@ + number_field(
            "version"@,
            self.version as nat,
            4,
        ) + number_field("version_needed"@, self.version_needed as nat, 4) + number_field(
            "flags"@,
            self.flags as nat,
            4,
        ) + number_field("compression"@, self.compression as nat, 4) + time_field(
            "mod_time"@,
            self.mod_time,
        ) + date_field("mod_date"@, self.mod_date) + number_field(
            "crc32"@,
            self.crc32 as nat,
            8,
        ) + number_field("compressed_size"@, self.compressed_size as nat, 8) + number_field(
            "uncompressed_size"@,
            self.uncompressed_size as nat,
            8,
        ) + number_field("file_name_length"@, self.file_name_length as nat, 4) + number_field(
            "extra_field_length"@,
            self.extra_field_length as nat,
            4,
        ) + number_field("file_comment_length"@, self.file_comment_length as nat, 4)
            + number_field("disk_number_start"@, self.disk_number_start as nat, 4) + number_field(
            "internal_file_attributes"@,
            self.internal_file_attributes as nat,
            4,
        ) + number_field("external_file_attributes"@, self.external_file_attributes as nat, 8)
            + number_field("lfh_offset"@, self.lfh_offset as nat, 8) + text_field(
            "file_name"@,
            self.file_name,
            quoted_name,
        ) + bytes_field("extra_field"@, self.extra_field) + text_field(
            "file_comment"@,
            self.file_comment,
            quoted_comment,
        )
    }

    /// The fields that are printed as text hold well-formed UTF-8.
    pub open spec fn text_ok(self) -> bool {
        valid_utf8(self.file_name) && valid_utf8(self.file_comment)
    }

    /// The dump of a central directory file header.
    pub open spec fn verbose_text(self) -> Seq<char> {
        self.verbose_with(
            debug_text(decode_utf8(self.file_name)),
            debug_text(decode_utf8(self.file_comment)),
        )
    }

    /// The summary line: name, whether it is a directory, uncompressed size,
    /// date and time, and comment, with tabs between them.
    pub open spec fn summary_text(self) -> Seq<char> {
        decode_utf8(self.file_name) + "\t"@ + bool_text(is_directory(self.file_name)) + "\t"@
            + dec_text(self.uncompressed_size as nat, 1) + "\t"@ + stamp_text(
            self.mod_date,
            self.mod_time,
        ) + "\t"@ + decode_utf8(self.file_comment) + "\n"@
    }
}

impl EndOfCentralDirectoryRecordView {
    /// The dump of an end of central directory record. `quoted_comment` is the
    /// archive's comment as quoted text.
    pub open spec fn verbose_with(self, quoted_comment: Seq<char>) -> Seq<char> {
        "sig = 0x504b0506 (End of central directory record)\n"@ + number_field(
            "disk_number"@,
            self.disk_number as nat,
            4,
        ) + number_field("disk_number_w_cd"@, self.disk_number_w_cd as nat, 4) + number_field(
            "disk_entries"@,
            self.disk_entries as nat,
            4,
        ) + number_field("total_entries"@, self.total_entries as nat, 4) + number_field(
            "cd_size"@,
            self.cd_size as nat,
            8,
        ) + number_field("cd_offset"@, self.cd_offset as nat, 8) + number_field(
            "comment_length"@,
            self.comment_length as nat,
            4,
        ) + text_field("zip_file_comment"@, self.zip_file_comment, quoted_comment)
    }

    /// The field that is printed as text holds well-formed UTF-8.
    pub open spec fn text_ok(self) -> bool {
        valid_utf8(self.zip_file_comment)
    }

    /// The dump of an end of central directory record.
    pub open spec fn verbose_text(self) -> Seq<char> {
        self.verbose_with(debug_text(decode_utf8(self.zip_file_comment)))
    }
}

impl EntryView {
    /// The fields of the record that its dump prints as text hold well-formed
    /// UTF-8.
    pub open spec fn text_ok(self) -> bool {
        match self {
            EntryView::LocalFile(r) => r.text_ok(),
            EntryView::CentralDirectoryFileHeader(r) => r.text_ok(),
            EntryView::EndOfCentralDirectoryRecord(r) => r.text_ok(),
        }
    }

    /// The dump of the record.
    pub open spec fn verbose_text(self) -> Seq<char> {
        match self {
            EntryView::LocalFile(r) => r.verbose_text(),
            EntryView::CentralDirectoryFileHeader(r) => r.verbose_text(),
            EntryView::EndOfCentralDirectoryRecord(r) => r.verbose_text(),
        }
    }
}

/// Appends a number line to `out`.
pub fn push_number_field(out: &mut String, name: &str, value: u32, width: u32)
    ensures
        final(out)@ == old(out)@ + number_field(name@, value as nat, width as nat),
{
    out.append(name);
    out.append(" = 0x");
    push_hex(out, value, width);
    out.append(" (");
    push_dec(out, value, 1);
    out.append(")\n");
    assert(final(out)@ =~= old(out)@ + number_field(name@, value as nat, width as nat));
}

/// Appends three numbers, printed as a tuple, to `out`.
pub fn push_triple(out: &mut String, a: u32, b: u32, c: u32)
    ensures
        final(out)@ == old(out)@ + triple_text(a as nat, b as nat, c as nat),
{
    out.append("(");
    push_dec(out, a, 1);
    out.append(", ");
    push_dec(out, b, 1);
    out.append(", ");
    push_dec(out, c, 1);
    out.append(")");
    assert(final(out)@ =~= old(out)@ + triple_text(a as nat, b as nat, c as nat));
}

/// Appends the line of a packed time to `out`.
pub fn push_time_field(out: &mut String, name: &str, raw: u16)
    ensures
        final(out)@ == old(out)@ + time_field(name@, raw),
{
    let t = mod_time(raw).0;
    out.append(name);
    out.append(" = 0x");
    push_hex(out, raw as u32, 4);
    out.append(" (");
    push_triple(out, t.0 as u32, t.1 as u32, t.2 as u32);
    out.append(")\n");
    assert(final(out)@ =~= old(out)@ + time_field(name@, raw));
}

/// Appends the line of a packed date to `out`.
pub fn push_date_field(out: &mut String, name: &str, raw: u16)
    ensures
        final(out)@ == old(out)@ + date_field(name@, raw),
{
    let d = mod_date(raw).0;
    out.append(name);
    out.append(" = 0x");
    push_hex(out, raw as u32, 4);
    out.append(" (");
    push_triple(out, d.0 as u32, d.1 as u32, d.2 as u32);
    out.append(")\n");
    assert(final(out)@ =~= old(out)@ + date_field(name@, raw));
}

/// Appends the line of a raw byte field to `out`.
pub fn push_bytes_field(out: &mut String, name: &str, bytes: &[u8])
    ensures
        final(out)@ == old(out)@ + bytes_field(name@, bytes@),
{
    let hex = hex_encode(bytes);
    out.append(name);
    out.append(" = \"");
    out.append(hex.as_str());
    out.append("\"\n");
    assert(final(out)@ =~= old(out)@ + bytes_field(name@, bytes@));
}

/// Appends the line of a byte field that is text to `out`.
pub fn push_text_field(out: &mut String, name: &str, bytes: &[u8], quoted: &str)
    ensures
        final(out)@ == old(out)@ + text_field(name@, bytes@, quoted@),
{
    let hex = hex_encode(bytes);
    out.append(name);
    out.append(" = \"");
    out.append(hex.as_str());
    out.append("\" (");
    out.append(quoted);
    out.append(")\n");
    assert(final(out)@ =~= old(out)@ + text_field(name@, bytes@, quoted@));
}

/// Appends the date and time of a summary line to `out`.
pub fn push_stamp(out: &mut String, date: u16, time: u16)
    ensures
        final(out)@ == old(out)@ + stamp_text(date, time),
{
    let d = mod_date(date).0;
    let t = mod_time(time).0;
    push_dec(out, d.0 as u32, 4);
    out.append("-");
    push_dec(out, d.1 as u32, 2);
    out.append("-");
    push_dec(out, d.2 as u32, 2);
    out.append("T");
    push_dec(out, t.0 as u32, 2);
    out.append(":");
    push_dec(out, t.1 as u32, 2);
    out.append(":");
    push_dec(out, t.2 as u32, 2);
    assert(final(out)@ =~= old(out)@ + stamp_text(date, time));
}

/// Whether a name ends with a slash.
pub fn ends_with_slash(name: &[u8]) -> (r: bool)
    ensures
        r == is_directory(name@),
{
    name.len() > 0 && name[name.len() - 1] == 0x2f
}

impl DataDescriptor {
    /// Writes the dump of the data descriptor.
    pub fn verbose(&self) -> (r: String)
        ensures
            r@ == self.verbose_text(),
    {
        let mut out = String::from_str("{\n");
        push_number_field(&mut out, "    crc32", self.crc32, 8);
        push_number_field(&mut out, "    compressed_size", self.compressed_size, 8);
        push_number_field(&mut out, "    uncompressed_size", self.uncompressed_size, 8);
        out.append("}\n");
        out
    }
}

impl LocalFile {
    /// Whether the file name is well-formed UTF-8.
    pub fn text_ok(&self) -> (r: bool)
        ensures
            r == self@.text_ok(),
    {
        utf8_text(self.file_name.as_slice()).is_some()
    }

    /// Writes the dump of the record around the quoted file name that it is given.
    pub fn verbose_with(&self, quoted_name: &str) -> (r: String)
        ensures
            r@ == self@.verbose_with(quoted_name@),
    {
        let mut out = String::from_str("sig = 0x504b0304 (Local file header)\n");
        push_number_field(&mut out, "version", self.version as u32, 4);
        push_number_field(&mut out, "flags", self.flags as u32, 4);
        push_number_field(&mut out, "compression", self.compression as u32, 4);
        push_time_field(&mut out, "mod_time", self.mod_time);
        push_date_field(&mut out, "mod_date", self.mod_date);
        push_number_field(&mut out, "crc32", self.crc32, 8);
        push_number_field(&mut out, "compressed_size", self.compressed_size, 8);
        push_number_field(&mut out, "uncompressed_size", self.uncompressed_size, 8);
        push_number_field(&mut out, "file_name_length", self.file_name_length as u32, 4);
        push_number_field(&mut out, "extra_field_length", self.extra_field_length as u32, 4);
        push_text_field(&mut out, "file_name", self.file_name.as_slice(), quoted_name);
        push_bytes_field(&mut out, "extra_field", self.extra_field.as_slice());
        push_bytes_field(&mut out, "file_data", self.file_data.as_slice());
        out.append("data_descriptor = ");
        match &self.data_descriptor {
            Some(d) => {
                let text = d.verbose();
                out.append(text.as_str());
            },
            None => {
                out.append("None");
            },
        }
        out.append("\n");
        out
    }

    /// Writes the dump of the record. The file name must be well-formed UTF-8.
    pub fn verbose(&self) -> (r: String)
        requires
            self@.text_ok(),
        ensures
            r@ == self@.verbose_text(),
    {
        let name = utf8_text(self.file_name.as_slice()).unwrap();
        let quoted_name = debug_quote(name);
        self.verbose_with(quoted_name.as_str())
    }
}

impl CentralDirectoryFileHeader {
    /// Whether the file name and the comment are well-formed UTF-8.
    pub fn text_ok(&self) -> (r: bool)
        ensures
            r == self@.text_ok(),
    {
        utf8_text(self.file_name.as_slice()).is_some() && utf8_text(
            self.file_comment.as_slice(),
        ).is_some()
    }

    /// Writes the dump of the header around the quoted file name and the quoted
    /// comment that it is given.
    pub fn verbose_with(&self, quoted_name: &str, quoted_comment: &str) -> (r: String)
        ensures
            r@ == self@.verbose_with(quoted_name@, quoted_comment@),
    {
        let mut out = String::from_str("sig = 0x504b0102 (Central directory file header)\n");
        push_number_field(&mut out, "version", self.version as u32, 4);
        push_number_field(&mut out, "version_needed", self.version_needed as u32, 4);
        push_number_field(&mut out, "flags", self.flags as u32, 4);
        push_number_field(&mut out, "compression", self.compression as u32, 4);
        push_time_field(&mut out, "mod_time", self.mod_time);
        push_date_field(&mut out, "mod_date", self.mod_date);
        push_number_field(&mut out, "crc32", self.crc32, 8);
        push_number_field(&mut out, "compressed_size", self.compressed_size, 8);
        push_number_field(&mut out, "uncompressed_size", self.uncompressed_size, 8);
        push_number_field(&mut out, "file_name_length", self.file_name_length as u32, 4);
        push_number_field(&mut out, "extra_field_length", self.extra_field_length as u32, 4);
        push_number_field(&mut out, "file_comment_length", self.file_comment_length as u32, 4);
        push_number_field(&mut out, "disk_number_start", self.disk_number_start as u32, 4);
        push_number_field(
            &mut out,
            "internal_file_attributes",
            self.internal_file_attributes as u32,
            4,
        );
        push_number_field(&mut out, "external_file_attributes", self.external_file_attributes, 8);
        push_number_field(&mut out, "lfh_offset", self.lfh_offset, 8);
        push_text_field(&mut out, "file_name", self.file_name.as_slice(), quoted_name);
        push_bytes_field(&mut out, "extra_field", self.extra_field.as_slice());
        push_text_field(&mut out, "file_comment", self.file_comment.as_slice(), quoted_comment);
        out
    }

    /// Writes the dump of the header. The file name and the comment must be
    /// well-formed UTF-8.
    pub fn verbose(&self) -> (r: String)
        requires
            self@.text_ok(),
        ensures
            r@ == self@.verbose_text(),
    {
        let name = utf8_text(self.file_name.as_slice()).unwrap();
        let comment = utf8_text(self.file_comment.as_slice()).unwrap();
        let quoted_name = debug_quote(name);
        let quoted_comment = debug_quote(comment);
        self.verbose_with(quoted_name.as_str(), quoted_comment.as_str())
    }

    /// Writes the summary line of the header. The file name and the comment
    /// must be well-formed UTF-8.
    pub fn summary(&self) -> (r: String)
        requires
            self@.text_ok(),
        ensures
            r@ == self@.summary_text(),
    {
        let name = utf8_text(self.file_name.as_slice()).unwrap();
        let comment = utf8_text(self.file_comment.as_slice()).unwrap();
        let mut out = String::from_str(name);
        out.append("\t");
        if ends_with_slash(self.file_name.as_slice()) {
            out.append("true");
        } else {
            out.append("false");
        }
        out.append("\t");
        push_dec(&mut out, self.uncompressed_size, 1);
        out.append("\t");
        push_stamp(&mut out, self.mod_date, self.mod_time);
        out.append("\t");
        out.append(comment);
        out.append("\n");
        out
    }
}

impl EndOfCentralDirectoryRecord {
    /// Whether the archive's comment is well-formed UTF-8.
    pub fn text_ok(&self) -> (r: bool)
        ensures
            r == self@.text_ok(),
    {
        utf8_text(self.zip_file_comment.as_slice()).is_some()
    }

    /// Writes the dump of the record around the quoted comment that it is given.
    pub fn verbose_with(&self, quoted_comment: &str) -> (r: String)
        ensures
            r@ == self@.verbose_with(quoted_comment@),
    {
        let mut out = String::from_str("sig = 0x504b0506 (End of central directory record)\n");
        push_number_field(&mut out, "disk_number", self.disk_number as u32, 4);
        push_number_field(&mut out, "disk_number_w_cd", self.disk_number_w_cd as u32, 4);
        push_number_field(&mut out, "disk_entries", self.disk_entries as u32, 4);
        push_number_field(&mut out, "total_entries", self.total_entries as u32, 4);
        push_number_field(&mut out, "cd_size", self.cd_size, 8);
        push_number_field(&mut out, "cd_offset", self.cd_offset, 8);
        push_number_field(&mut out, "comment_length", self.comment_length as u32, 4);
        push_text_field(
            &mut out,
            "zip_file_comment",
            self.zip_file_comment.as_slice(),
            quoted_comment,
        );
        out
    }

    /// Writes the dump of the record. The comment must be well-formed UTF-8.
    pub fn verbose(&self) -> (r: String)
        requires
            self@.text_ok(),
        ensures
            r@ == self@.verbose_text(),
    {
        let comment = utf8_text(self.zip_file_comment.as_slice()).unwrap();
        let quoted_comment = debug_quote(comment);
        self.verbose_with(quoted_comment.as_str())
    }
}

impl Entry {
    /// Whether the fields that the dump prints as text are well-formed UTF-8.
    pub fn text_ok(&self) -> (r: bool)
        ensures
            r == self@.text_ok(),
    {
        match self {
            Entry::LocalFile(i) => i.text_ok(),
            Entry::CentralDirectoryFileHeader(i) => i.text_ok(),
            Entry::EndOfCentralDirectoryRecord(i) => i.text_ok(),
        }
    }

    /// Writes the dump of the record. Its text fields must be well-formed UTF-8.
    pub fn verbose(&self) -> (r: String)
        requires
            self@.text_ok(),
        ensures
            r@ == self@.verbose_text(),
    {
        match self {
            Entry::LocalFile(i) => i.verbose(),
            Entry::CentralDirectoryFileHeader(i) => i.verbose(),
            Entry::EndOfCentralDirectoryRecord(i) => i.verbose(),
        }
    }
}

} // verus!
