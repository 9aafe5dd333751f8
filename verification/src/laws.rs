//! What holds of every input: statements about decoding and rendering, each
//! proved from the definitions that the functions' contracts use.

use crate::decode::{
    archive_of, data_descriptor_at, decoded_records_are_well_formed, local_file_at,
};
use crate::entries::{EntryView, LocalFileView};
use crate::render::descriptor_text;
use crate::zip::{
    framed, output_result, process_result, summary_of, text_result, verbose_of, verbose_result,
    Zip,
};
use vstd::prelude::*;

verus! {

/// The text ends with `tail`.
pub open spec fn ends_with(text: Seq<char>, tail: Seq<char>) -> bool {
    text.len() >= tail.len() && text.subrange(text.len() - tail.len(), text.len() as int) == tail
}

/// Decoding is a function of the bytes. Two decodings of the same bytes both
/// succeed or both fail; where they succeed they hold the same records, which
/// render to the same text in either mode; where they fail they give the same
/// message.
pub proof fn decoding_is_deterministic(
    s: Seq<u8>,
    verbose: bool,
    a: Result<Zip, String>,
    b: Result<Zip, String>,
)
    requires
        Zip::decodes(s, a),
        Zip::decodes(s, b),
    ensures
        a is Ok <==> b is Ok,
        a is Ok ==> a.unwrap()@ == b.unwrap()@ && output_result(a.unwrap()@, verbose)
            == output_result(b.unwrap()@, verbose),
        a is Err ==> a.unwrap_err()@ == b.unwrap_err()@,
{
}

/// Processing is a function of the bytes and the mode: two runs on the same
/// input give the same text or the same message.
pub proof fn processing_is_deterministic(
    s: Seq<u8>,
    verbose: bool,
    a: Result<String, String>,
    b: Result<String, String>,
)
    requires
        text_result(a) == process_result(s, verbose),
        text_result(b) == process_result(s, verbose),
    ensures
        text_result(a) == text_result(b),
{
}

/// A decoded archive holds at least one record, and all of them are
/// well-formed.
pub proof fn archive_is_well_formed(s: Seq<u8>)
    requires
        archive_of(s) is Ok,
    ensures
        archive_of(s).unwrap().len() > 0,
        forall|i: int|
            0 <= i < archive_of(s).unwrap().len() ==> (#[trigger] archive_of(s).unwrap()[i]).wf(),
{
    decoded_records_are_well_formed(s, 0);
}

/// The summary keeps the order of the records: that of one list of records
/// followed by another is the summary of the first followed by that of the
/// second.
pub proof fn summary_keeps_order(a: Seq<EntryView>, b: Seq<EntryView>)
    ensures
        summary_of(a + b) == summary_of(a) + summary_of(b),
    decreases b.len(),
{
    if b.len() == 0 {
        assert(a + b =~= a);
        assert(summary_of(a) + summary_of(b) =~= summary_of(a));
    } else {
        summary_keeps_order(a, b.drop_last());
        assert((a + b).drop_last() =~= a + b.drop_last());
        assert(summary_of(a + b) =~= summary_of(a) + summary_of(b));
    }
}

/// Whatever is framed ends with the end marker, and so does the dump of every
/// archive, whatever its records are.
pub proof fn dump_ends_with_marker(dumps: Seq<Seq<char>>, list: Seq<EntryView>)
    ensures
        ends_with(framed(dumps), "---\nEOF\n---\n"@),
        ends_with(verbose_of(list), "---\nEOF\n---\n"@),
        verbose_result(list) is Ok ==> ends_with(verbose_result(list)->Ok_0, "---\nEOF\n---\n"@),
{
    let marker = "---\nEOF\n---\n"@;
    let text = framed(dumps);
    assert(text.subrange(text.len() - marker.len(), text.len() as int) =~= marker);
    let text = verbose_of(list);
    assert(text.subrange(text.len() - marker.len(), text.len() as int) =~= marker);
}

/// The data descriptor of a local file record goes by bit 3 of the flags.
/// The file data are the bytes behind the extra field, as many as the
/// compressed size says. With the bit unset there is no descriptor, and the
/// record ends where the data end. With the bit set the descriptor's three
/// fields are read from the twelve bytes behind the data, and the record ends
/// behind them.
pub proof fn descriptor_follows_data(s: Seq<u8>, p: int)
    requires
        0 <= p,
        local_file_at(s, p) is Some,
    ensures
        ({
            let (v, end) = local_file_at(s, p).unwrap();
            let data = p + 26 + v.file_name_length + v.extra_field_length;
            let data_end = data + v.compressed_size;
            &&& v.file_data == s.subrange(data, data_end)
            &&& v.file_data.len() == v.compressed_size
            &&& v.flags & 0x0008 == 0 ==> v.data_descriptor is None && end == data_end
            &&& v.flags & 0x0008 != 0 ==> v.data_descriptor == Some(
                data_descriptor_at(s, data_end),
            ) && end == data_end + 12
        }),
{
}

/// The dump of a local file record ends with the line of its data descriptor:
/// the word `None` where there is none, else the descriptor's own dump.
pub proof fn dump_ends_with_descriptor(v: LocalFileView, quoted_name: Seq<char>)
    ensures
        ends_with(
            v.verbose_with(quoted_name),
            "data_descriptor = "@ + descriptor_text(v.data_descriptor) + "\n"@,
        ),
        v.data_descriptor is None ==> descriptor_text(v.data_descriptor) == "None"@,
        v.data_descriptor is Some ==> descriptor_text(v.data_descriptor)
            == v.data_descriptor.unwrap().verbose_text(),
{
    let tail = "data_descriptor = "@ + descriptor_text(v.data_descriptor) + "\n"@;
    let text = v.verbose_with(quoted_name);
    assert(text.subrange(text.len() - tail.len(), text.len() as int) =~= tail);
}

} // verus!
