//! A decoded archive and its two renderings.

use crate::decode::archive_of;
use crate::entries::{Entries, Entry, EntryView};
use crate::error::ZipError;
use vstd::prelude::*;
use vstd::string::*;

verus! {

/// What came of resolving a path to the bytes of a file.
#[derive(Debug)]
pub enum Load {
    /// Nothing exists at the path.
    PathNotFound,
    /// The path exists and is not a file.
    NotAFile,
    /// The file could not be opened or read; the message says why.
    Failed(String),
    /// The file's bytes.
    Bytes(Vec<u8>),
}

/// A decoded archive: its records in the order of their bytes, of which there
/// is at least one, and the path that it was read from, if any.
#[derive(Debug)]
pub struct Zip {
    path: Option<String>,
    entries: Entries,
}

/// A rendering or a message, as text.
pub open spec fn text_result(r: Result<String, String>) -> Result<Seq<char>, Seq<char>> {
    match r {
        Ok(s) => Ok(s@),
        Err(s) => Err(s@),
    }
}

/// The dumps, each behind a separator line.
pub open spec fn separated(dumps: Seq<Seq<char>>) -> Seq<char>
    decreases dumps.len(),
{
    if dumps.len() == 0 {
        Seq::empty()
    } else {
        separated(dumps.drop_last()) + "---\n"@ + dumps.last()
    }
}

/// The dumps, each behind a separator line, then the end marker.
pub open spec fn framed(dumps: Seq<Seq<char>>) -> Seq<char> {
    separated(dumps) + "---\nEOF\n---\n"@
}

/// The dumps of the records, in their order.
pub open spec fn dumps_of(list: Seq<EntryView>) -> Seq<Seq<char>> {
    Seq::new(list.len(), |i: int| list[i].verbose_text())
}

/// The texts of a list of strings, in their order.
pub open spec fn texts(list: Seq<String>) -> Seq<Seq<char>> {
    Seq::new(list.len(), |i: int| list[i]@)
}

/// The dump of an archive: the dumps of its records, each behind a separator
/// line, then the end marker.
pub open spec fn verbose_of(list: Seq<EntryView>) -> Seq<char> {
    framed(dumps_of(list))
}

/// Every record's text fields hold well-formed UTF-8.
pub open spec fn verbose_ok(list: Seq<EntryView>) -> bool {
    forall|i: int| 0 <= i < list.len() ==> #[trigger] list[i].text_ok()
}

/// What the dump of an archive comes to: the text, or the failure on a field
/// that is no text.
pub open spec fn verbose_result(list: Seq<EntryView>) -> Result<Seq<char>, Seq<char>> {
    if verbose_ok(list) {
        Ok(verbose_of(list))
    } else {
        Err(ZipError::NonTextField.text())
    }
}

/// The summary line of a record: that of a central directory file header, and
/// nothing for the other records.
pub open spec fn summary_line(entry: EntryView) -> Seq<char> {
    match entry {
        EntryView::CentralDirectoryFileHeader(h) => h.summary_text(),
        _ => Seq::empty(),
    }
}

/// The summary of an archive: the lines of its central directory file headers,
/// in their order.
pub open spec fn summary_of(list: Seq<EntryView>) -> Seq<char>
    decreases list.len(),
{
    if list.len() == 0 {
        Seq::empty()
    } else {
        summary_of(list.drop_last()) + summary_line(list.last())
    }
}

/// The text fields of a record that the summary prints hold well-formed UTF-8.
pub open spec fn summary_line_ok(entry: EntryView) -> bool {
    match entry {
        EntryView::CentralDirectoryFileHeader(h) => h.text_ok(),
        _ => true,
    }
}

/// Every central directory file header's text fields hold well-formed UTF-8.
pub open spec fn summary_ok(list: Seq<EntryView>) -> bool {
    forall|i: int| 0 <= i < list.len() ==> #[trigger] summary_line_ok(list[i])
}

/// What the summary of an archive comes to: the text, or the failure on a
/// field that is no text.
pub open spec fn summary_result(list: Seq<EntryView>) -> Result<Seq<char>, Seq<char>> {
    if summary_ok(list) {
        Ok(summary_of(list))
    } else {
        Err(ZipError::NonTextField.text())
    }
}

/// The rendering that `verbose` selects.
pub open spec fn output_result(list: Seq<EntryView>, verbose: bool) -> Result<
    Seq<char>,
    Seq<char>,
> {
    if verbose {
        verbose_result(list)
    } else {
        summary_result(list)
    }
}

/// What processing the bytes of an archive comes to: the selected rendering of
/// its records, or the message of the failure.
pub open spec fn process_result(s: Seq<u8>, verbose: bool) -> Result<Seq<char>, Seq<char>> {
    match archive_of(s) {
        Ok(list) => output_result(list, verbose),
        Err(e) => Err(e.text()),
    }
}

/// The message for a path at which nothing exists.
pub open spec fn path_not_found_text(path: Seq<char>) -> Seq<char> {
    "Path does not exist: `"@ + path + "`"@
}

/// The message for a path that is no file.
pub open spec fn not_a_file_text(path: Seq<char>) -> Seq<char> {
    "Path is not a file: `"@ + path + "`"@
}

/// The message for a file that could not be read.
pub open spec fn load_failed_text(why: Seq<char>, path: Seq<char>) -> Seq<char> {
    why + ": `"@ + path + "`"@
}

/// The archive that a load gives, or the message of the failure.
pub open spec fn load_result(path: Seq<char>, load: Load) -> Result<Seq<EntryView>, Seq<char>> {
    match load {
        Load::PathNotFound => Err(path_not_found_text(path)),
        Load::NotAFile => Err(not_a_file_text(path)),
        Load::Failed(why) => Err(load_failed_text(why@, path)),
        Load::Bytes(bytes) => match archive_of(bytes@) {
            Ok(list) => Ok(list),
            Err(e) => Err(e.text()),
        },
    }
}

/// What processing the file at a path comes to.
pub open spec fn process_file_result(path: Seq<char>, load: Load, verbose: bool) -> Result<
    Seq<char>,
    Seq<char>,
> {
    match load_result(path, load) {
        Ok(list) => output_result(list, verbose),
        Err(message) => Err(message),
    }
}

impl View for Zip {
    type V = Seq<EntryView>;

    closed spec fn view(&self) -> Seq<EntryView> {
        self.entries@
    }
}

/// Joins the dumps of the records of an archive: each behind a separator line,
/// then the end marker.
pub fn frame(dumps: &Vec<String>) -> (r: String)
    ensures
        r@ == framed(texts(dumps@)),
{
    let mut out = String::new();
    let mut i: usize = 0;
    while i < dumps.len()
        invariant
            i <= dumps@.len(),
            out@ == separated(texts(dumps@).take(i as int)),
        decreases dumps@.len() - i,
    {
        out.append("---\n");
        out.append(dumps[i].as_str());
        assert(texts(dumps@).take(i + 1).drop_last() =~= texts(dumps@).take(i as int));
        i = i + 1;
    }
    assert(texts(dumps@).take(i as int) =~= texts(dumps@));
    out.append("---\nEOF\n---\n");
    out
}

impl Entry {
    /// Whether the text fields that the summary prints are well-formed UTF-8.
    pub fn summary_ok(&self) -> (r: bool)
        ensures
            r == summary_line_ok(self@),
    {
        match self {
            Entry::CentralDirectoryFileHeader(header) => header.text_ok(),
            _ => true,
        }
    }

    /// Writes the summary line of a central directory file header, and nothing
    /// for another record.
    pub fn summary(&self) -> (r: String)
        requires
            summary_line_ok(self@),
        ensures
            r@ == summary_line(self@),
    {
        match self {
            Entry::CentralDirectoryFileHeader(header) => header.summary(),
            _ => String::new(),
        }
    }
}

impl Zip {
    /// The path that the archive was read from, if any.
    pub closed spec fn path(&self) -> Option<Seq<char>> {
        match self.path {
            Some(p) => Some(p@),
            None => None,
        }
    }

    /// The archive holds at least one record, and every record is well-formed.
    pub closed spec fn wf(&self) -> bool {
        self@.len() > 0 && self.entries.wf()
    }

    /// `r` is what decoding the bytes `s` comes to: the archive that they hold,
    /// or the message of the failure.
    pub open spec fn decodes(s: Seq<u8>, r: Result<Zip, String>) -> bool {
        match archive_of(s) {
            Ok(list) => r is Ok && r.unwrap()@ == list,
            Err(e) => r is Err && r.unwrap_err()@ == e.text(),
        }
    }

    /// Decodes the archive of a load of the file at `path`, and keeps the path.
    pub fn from(path: &str, load: Load) -> (r: Result<Zip, String>)
        ensures
            match load_result(path@, load) {
                Ok(list) => r is Ok && r.unwrap()@ == list && r.unwrap().path() == Some(path@),
                Err(message) => r is Err && r.unwrap_err()@ == message,
            },
            r is Ok ==> r.unwrap().wf(),
    {
        match load {
            Load::PathNotFound => {
                let mut message = String::from_str("Path does not exist: `");
                message.append(path);
                message.append("`");
                Err(message)
            },
            Load::NotAFile => {
                let mut message = String::from_str("Path is not a file: `");
                message.append(path);
                message.append("`");
                Err(message)
            },
            Load::Failed(why) => {
                let mut message = why;
                message.append(": `");
                message.append(path);
                message.append("`");
                Err(message)
            },
            Load::Bytes(bytes) => {
                let mut zip = Zip::process(bytes.as_slice())?;
                zip.path = Some(String::from_str(path));
                Ok(zip)
            },
        }
    }

    /// Decodes the archive that `bytes` hold. The input must hold at least one
    /// record, and nothing is kept of an input that fails.
    pub fn process(bytes: &[u8]) -> (r: Result<Zip, String>)
        ensures
            Zip::decodes(bytes@, r),
            r is Ok ==> r.unwrap().path() is None && r.unwrap().wf(),
    {
        match Entries::decode(bytes) {
            Ok(entries) => {
                if entries.list.len() == 0 {
                    Err(ZipError::EmptyOrUnreadable.message())
                } else {
                    Ok(Zip { path: None, entries })
                }
            },
            Err(e) => Err(e.message()),
        }
    }

    /// Writes the dump if `verbose` is set, else the summary.
    pub fn output(&self, verbose: bool) -> (r: Result<String, String>)
        ensures
            text_result(r) == output_result(self@, verbose),
    {
        if verbose {
            self.verbose()
        } else {
            self.summary()
        }
    }

    /// Writes the dump of the archive: every field of every record, then the end
    /// marker. Fails where a field that is printed as text is not well-formed
    /// UTF-8.
    pub fn verbose(&self) -> (r: Result<String, String>)
        ensures
            text_result(r) == verbose_result(self@),
    {
        let mut dumps: Vec<String> = Vec::new();
        let n = self.entries.list.len();
        let mut i: usize = 0;
        while i < n
            invariant
                n == self.entries.list@.len(),
                i <= n,
                dumps@.len() == i,
                forall|j: int| 0 <= j < i ==> #[trigger] self@[j].text_ok(),
                forall|j: int| 0 <= j < i ==> (#[trigger] dumps@[j])@ == self@[j].verbose_text(),
            decreases n - i,
        {
            let entry = &self.entries.list[i];
            assert(self@[i as int] == entry@);
            if !entry.text_ok() {
                return Err(ZipError::NonTextField.message());
            }
            dumps.push(entry.verbose());
            i = i + 1;
        }
        assert(texts(dumps@) =~= dumps_of(self@));
        Ok(frame(&dumps))
    }

    /// Writes the summary of the archive: one line for each central directory
    /// file header, in their order. Fails where the name or the comment of one
    /// is not well-formed UTF-8.
    pub fn summary(&self) -> (r: Result<String, String>)
        ensures
            text_result(r) == summary_result(self@),
    {
        let mut out = String::new();
        let n = self.entries.list.len();
        let mut i: usize = 0;
        while i < n
            invariant
                n == self.entries.list@.len(),
                i <= n,
                summary_ok(self@.take(i as int)),
                out@ == summary_of(self@.take(i as int)),
            decreases n - i,
        {
            let entry = &self.entries.list[i];
            assert(self@[i as int] == entry@);
            if !entry.summary_ok() {
                return Err(ZipError::NonTextField.message());
            }
            let line = entry.summary();
            out.append(line.as_str());
            assert(self@.take(i + 1).drop_last() =~= self@.take(i as int));
            i = i + 1;
        }
        assert(self@.take(n as int) =~= self@);
        Ok(out)
    }
}

} // verus!
