//! The text of a log line, for the console and for the file.

use vstd::prelude::*;

verus! {

/// The line for one entry: the timestamp, the level tag in square brackets,
/// the message. An empty timestamp leaves the line starting with a space.
pub open spec fn console_line(stamp: Seq<char>, tag: Seq<char>, message: Seq<char>) -> Seq<char> {
    stamp + " ["@ + tag + "] "@ + message
}

/// The record appended to the destination file: the line and a line break.
pub open spec fn file_record(stamp: Seq<char>, tag: Seq<char>, message: Seq<char>) -> Seq<char> {
    console_line(stamp, tag, message).push('\n')
}

/// Whether `record` is exactly one line: it ends with its only line break.
pub open spec fn is_whole_line(record: Seq<char>) -> bool {
    &&& record.len() >= 1
    &&& record.last() == '\n'
    &&& !record.drop_last().contains('\n')
}

/// Whether `contents` is a run of complete lines: empty, or ended by a line
/// break.
pub open spec fn is_complete(contents: Seq<char>) -> bool {
    contents.len() == 0 || contents.last() == '\n'
}

/// Whether `line` is the last line of `contents`: `contents` end with `line`
/// and a line break, `line` holds no line break, and the line before it, if
/// there is one, is complete.
pub open spec fn is_last_line(contents: Seq<char>, line: Seq<char>) -> bool {
    let start = contents.len() - line.len() - 1;
    &&& start >= 0
    &&& contents.skip(start) == line.push('\n')
    &&& !line.contains('\n')
    &&& is_complete(contents.take(start))
}

/// The number of line breaks in `text`.
pub open spec fn line_breaks(text: Seq<char>) -> nat
    decreases text.len(),
{
    if text.len() == 0 {
        0
    } else {
        line_breaks(text.drop_last()) + if text.last() == '\n' {
            1nat
        } else {
            0nat
        }
    }
}

/// `before` with each of `records` appended in turn.
pub open spec fn appended(before: Seq<char>, records: Seq<Seq<char>>) -> Seq<char>
    decreases records.len(),
{
    if records.len() == 0 {
        before
    } else {
        appended(before, records.drop_last()) + records.last()
    }
}

/// Composes the console line of an entry.
pub fn compose_line(stamp: &str, tag: &str, message: &str) -> (r: String)
    ensures
        r@ == console_line(stamp@, tag@, message@),
{
    let mut line = stamp.to_owned();
    line.append(" [");
    line.append(tag);
    line.append("] ");
    line.append(message);
    line
}

/// Composes the file record of an entry.
pub fn compose_record(stamp: &str, tag: &str, message: &str) -> (r: String)
    ensures
        r@ == file_record(stamp@, tag@, message@),
{
    let mut record = compose_line(stamp, tag, message);
    proof {
        reveal_strlit("\n");
        assert("\n"@ =~= seq!['\n']);
    }
    record.append("\n");
    assert(record@ =~= file_record(stamp@, tag@, message@));
    record
}

/// A line is free of line breaks when its three parts are.
pub proof fn lemma_line_is_one_line(stamp: Seq<char>, tag: Seq<char>, message: Seq<char>)
    requires
        !stamp.contains('\n'),
        !tag.contains('\n'),
        !message.contains('\n'),
    ensures
        !console_line(stamp, tag, message).contains('\n'),
        is_whole_line(file_record(stamp, tag, message)),
{
    reveal_strlit(" [");
    reveal_strlit("] ");
    let line = console_line(stamp, tag, message);
    assert forall|i: int| 0 <= i < line.len() implies line[i] != '\n' by {
        let a = stamp.len() as int;
        let b = a + 2;
        let c = b + tag.len();
        let d = c + 2;
        if i < a {
            assert(line[i] == stamp[i]);
        } else if i < b {
            assert(line[i] == " ["@[i - a]);
        } else if i < c {
            assert(line[i] == tag[i - b]);
        } else if i < d {
            assert(line[i] == "] "@[i - c]);
        } else {
            assert(line[i] == message[i - d]);
        }
    }
    assert(file_record(stamp, tag, message).drop_last() =~= line);
}

/// Appending a whole line to complete contents makes it their last line.
pub proof fn lemma_append_whole_line(before: Seq<char>, line: Seq<char>)
    requires
        is_complete(before),
        !line.contains('\n'),
    ensures
        is_last_line(before + line.push('\n'), line),
        is_complete(before + line.push('\n')),
{
    let contents = before + line.push('\n');
    let start = contents.len() - line.len() - 1;
    assert(start == before.len());
    assert(contents.skip(start) =~= line.push('\n'));
    assert(contents.take(start) =~= before);
}

/// The line breaks of a concatenation are those of its two parts.
pub proof fn lemma_line_breaks_add(a: Seq<char>, b: Seq<char>)
    ensures
        line_breaks(a + b) == line_breaks(a) + line_breaks(b),
    decreases b.len(),
{
    if b.len() == 0 {
        assert(a + b =~= a);
    } else {
        assert((a + b).drop_last() =~= a + b.drop_last());
        lemma_line_breaks_add(a, b.drop_last());
    }
}

/// Text without a line break counts none.
pub proof fn lemma_no_line_breaks(text: Seq<char>)
    requires
        !text.contains('\n'),
    ensures
        line_breaks(text) == 0,
    decreases text.len(),
{
    if text.len() > 0 {
        assert(text.last() == text[text.len() - 1]);
        assert forall|i: int| 0 <= i < text.drop_last().len() implies text.drop_last()[i]
            != '\n' by {
            assert(text.drop_last()[i] == text[i]);
        }
        lemma_no_line_breaks(text.drop_last());
    }
}

/// Records that are appended one after the other, each a whole line, add one
/// line each and nothing else: the contents stay complete and grow by as many
/// line breaks as there are records.
pub proof fn law_records_append_as_whole_lines(before: Seq<char>, records: Seq<Seq<char>>)
    requires
        is_complete(before),
        forall|i: int| 0 <= i < records.len() ==> is_whole_line(#[trigger] records[i]),
    ensures
        is_complete(appended(before, records)),
        line_breaks(appended(before, records)) == line_breaks(before) + records.len(),
        records.len() > 0 ==> is_last_line(
            appended(before, records),
            records.last().drop_last(),
        ),
    decreases records.len(),
{
    if records.len() > 0 {
        let earlier = records.drop_last();
        let last = records.last();
        assert forall|i: int| 0 <= i < earlier.len() implies is_whole_line(
            #[trigger] earlier[i],
        ) by {
            assert(earlier[i] == records[i]);
        }
        law_records_append_as_whole_lines(before, earlier);
        let so_far = appended(before, earlier);
        assert(is_whole_line(last));
        assert(last =~= last.drop_last().push('\n'));
        lemma_append_whole_line(so_far, last.drop_last());
        lemma_line_breaks_add(so_far, last);
        lemma_no_line_breaks(last.drop_last());
        assert(line_breaks(last) == 1);
    }
}

} // verus!
