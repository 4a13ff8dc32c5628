//! What the preview shows of a file's content: a notice for a file that is
//! too large, binary or not valid UTF-8, and otherwise its text, cut after
//! the first hundred lines.

use vstd::prelude::*;
use vstd::string::*;
use vstd::utf8::{decode_utf8, valid_utf8};
use crate::model::FileEntry;
use crate::text::{chars_of, decimal, decimal_string};

verus! {

/// The number of lines of a text file that are shown.
pub const MAX_PREVIEW_LINES: usize = 100;

/// The number of entries of a directory that are shown.
pub const MAX_PREVIEW_CHILDREN: usize = 50;

/// Calls `String::from_utf8` on a copy of the bytes. Trusted: there is a
/// text exactly when the bytes are valid UTF-8, and it is the text that the
/// bytes decode to.
#[verifier::external_body]
pub(crate) fn text_of_bytes(bytes: &Vec<u8>) -> (r: Option<String>)
    ensures
        r is Some <==> valid_utf8(bytes@),
        r matches Some(text) ==> text@ == decode_utf8(bytes@),
{
    String::from_utf8(bytes.clone()).ok()
}

/// The end of the line that holds position `from`: the position of the next
/// line feed, or the end of the text.
pub open spec fn line_end(text: Seq<char>, from: int) -> int
    decreases text.len() - from,
{
    if from < 0 || from >= text.len() || text[from] == '\n' {
        from
    } else {
        line_end(text, from + 1)
    }
}

/// A line without the carriage return at its end, if it has one.
pub open spec fn without_carriage_return(line: Seq<char>) -> Seq<char> {
    if line.len() > 0 && line.last() == '\r' {
        line.drop_last()
    } else {
        line
    }
}

/// The lines of a text from position `from` on, where a line starts. A line
/// ends at a line feed, which is left out together with a carriage return
/// before it; what follows the last line feed is a line of its own unless it
/// is empty.
pub open spec fn lines_from(text: Seq<char>, from: int) -> Seq<Seq<char>>
    decreases text.len() - from,
{
    if from < 0 || from >= text.len() {
        Seq::empty()
    } else {
        let end = line_end(text, from);
        if end < from {
            Seq::empty()
        } else if end < text.len() {
            seq![without_carriage_return(text.subrange(from, end))] + lines_from(text, end + 1)
        } else {
            seq![text.subrange(from, end)]
        }
    }
}

/// The lines of a text.
pub open spec fn lines_of(text: Seq<char>) -> Seq<Seq<char>> {
    lines_from(text, 0)
}

/// Lines put together with a line feed between each two.
pub open spec fn joined(lines: Seq<Seq<char>>) -> Seq<char>
    decreases lines.len(),
{
    if lines.len() == 0 {
        Seq::empty()
    } else if lines.len() == 1 {
        lines[0]
    } else {
        joined(lines.drop_last()) + seq!['\n'] + lines.last()
    }
}

/// The lines held by a vector of lines.
pub open spec fn line_views(lines: Seq<Vec<char>>) -> Seq<Seq<char>> {
    Seq::new(lines.len(), |i: int| lines[i]@)
}

/// What is shown of a text: all of it, or its first hundred lines and the
/// number of lines left out.
pub open spec fn text_preview(content: Seq<char>) -> Seq<char> {
    let lines = lines_of(content);
    if lines.len() > MAX_PREVIEW_LINES {
        "\u{1f4dd} Text File Preview (first "@ + decimal(MAX_PREVIEW_LINES as nat) + " lines)\n\n"@
            + joined(lines.take(MAX_PREVIEW_LINES as int)) + "\n\n... ("@ + decimal(
            (lines.len() - MAX_PREVIEW_LINES) as nat,
        ) + " more lines)"@
    } else {
        "\u{1f4dd} Text File Content\n\n"@ + content
    }
}

/// The notice for a file that is too large to be shown.
pub open spec fn too_large_notice(size_text: Seq<char>, path: Seq<char>) -> Seq<char> {
    "\u{1f4c4} File too large to preview\n\nSize: "@ + size_text + "\nPath: "@ + path
        + "\n\nUse external editor to view this file."@
}

/// The notice for a file with binary content of `len` bytes.
pub open spec fn binary_notice(len: nat, path: Seq<char>) -> Seq<char> {
    "\u{1f527} Binary file detected\n\nSize: "@ + decimal(len) + " bytes\nPath: "@ + path
        + "\n\nThis appears to be a binary file and cannot be displayed as text."@
}

/// The notice for a file whose content is not valid UTF-8.
pub open spec fn invalid_notice(path: Seq<char>) -> Seq<char> {
    "\u{26a0}\u{fe0f} Invalid UTF-8 encoding\n\nPath: "@ + path
        + "\n\nFile contains non-UTF-8 data and cannot be displayed."@
}

/// Joining one more line adds a line feed and the line.
proof fn lemma_joined_push(lines: Seq<Seq<char>>, line: Seq<char>)
    ensures
        joined(lines.push(line)) == if lines.len() == 0 {
            line
        } else {
            joined(lines) + seq!['\n'] + line
        },
{
    let longer = lines.push(line);
    assert(longer.drop_last() =~= lines);
    assert(longer.last() == line);
}

/// Splits a text into its lines.
pub fn split_lines(text: &Vec<char>) -> (lines: Vec<Vec<char>>)
    ensures
        line_views(lines@) == lines_of(text@),
{
    let mut lines: Vec<Vec<char>> = Vec::new();
    let mut start: usize = 0;
    assert(line_views(lines@) =~= Seq::<Seq<char>>::empty());
    while start < text.len()
        invariant
            start <= text.len(),
            lines_of(text@) == line_views(lines@) + lines_from(text@, start as int),
        decreases text.len() - start,
    {
        let mut end: usize = start;
        while end < text.len() && text[end] != '\n'
            invariant
                start <= end <= text.len(),
                line_end(text@, start as int) == line_end(text@, end as int),
            decreases text.len() - end,
        {
            end += 1;
        }
        let ghost before = line_views(lines@);
        let mut stop: usize = end;
        if end < text.len() && end > start && text[end - 1] == '\r' {
            stop = end - 1;
        }
        let mut line: Vec<char> = Vec::new();
        let mut k: usize = start;
        while k < stop
            invariant
                start <= k <= stop,
                stop <= text.len(),
                line@ == text@.subrange(start as int, k as int),
            decreases stop - k,
        {
            line.push(text[k]);
            assert(line@ =~= text@.subrange(start as int, k + 1));
            k += 1;
        }
        proof {
            let whole = text@.subrange(start as int, end as int);
            if end < text.len() {
                if end > start && text@[end - 1] == '\r' {
                    assert(whole.last() == '\r');
                    assert(whole.drop_last() =~= text@.subrange(start as int, stop as int));
                } else {
                    assert(whole.len() > 0 ==> whole.last() == text@[end - 1]);
                }
                assert(line@ == without_carriage_return(whole));
            }
        }
        lines.push(line);
        proof {
            assert(line_views(lines@) =~= before.push(line@));
            if end < text.len() {
                assert(before.push(line@) + lines_from(text@, end + 1) =~= before + (seq![line@]
                    + lines_from(text@, end + 1)));
            } else {
                assert(lines_from(text@, end as int) =~= Seq::<Seq<char>>::empty());
                assert(before.push(line@) + lines_from(text@, end as int) =~= before + seq![line@]);
            }
        }
        if end < text.len() {
            start = end + 1;
        } else {
            start = end;
        }
    }
    assert(lines_from(text@, start as int) =~= Seq::<Seq<char>>::empty());
    assert(line_views(lines@) + Seq::<Seq<char>>::empty() =~= line_views(lines@));
    lines
}

/// Appends the characters to the text.
fn append_chars(out: &mut String, chars: &Vec<char>)
    ensures
        final(out)@ == old(out)@ + chars@,
{
    let mut k: usize = 0;
    assert(out@ =~= old(out)@ + chars@.take(0));
    while k < chars.len()
        invariant
            k <= chars.len(),
            out@ == old(out)@ + chars@.take(k as int),
        decreases chars.len() - k,
    {
        out.push(chars[k]);
        assert(out@ =~= old(out)@ + chars@.take(k + 1));
        k += 1;
    }
    assert(chars@.take(chars@.len() as int) =~= chars@);
}

/// What is shown of a text: all of it, or its first hundred lines and the
/// number of lines left out.
pub fn preview_of_text(content: &str) -> (text: String)
    ensures
        text@ == text_preview(content@),
{
    let chars = chars_of(content);
    let lines = split_lines(&chars);
    if lines.len() > MAX_PREVIEW_LINES {
        let mut text = String::from_str("\u{1f4dd} Text File Preview (first ");
        let shown = decimal_string(MAX_PREVIEW_LINES as u64);
        text.append(shown.as_str());
        text.append(" lines)\n\n");
        let ghost head = text@;
        let ghost all = line_views(lines@);
        let mut k: usize = 0;
        assert(all.take(0) =~= Seq::<Seq<char>>::empty());
        assert(text@ =~= head + joined(all.take(0)));
        while k < MAX_PREVIEW_LINES
            invariant
                k <= MAX_PREVIEW_LINES,
                MAX_PREVIEW_LINES < lines@.len(),
                all == line_views(lines@),
                text@ == head + joined(all.take(k as int)),
            decreases MAX_PREVIEW_LINES - k,
        {
            let ghost before = text@;
            if k > 0 {
                text.push('\n');
            }
            append_chars(&mut text, &lines[k]);
            proof {
                assert(all.take(k + 1) =~= all.take(k as int).push(all[k as int]));
                lemma_joined_push(all.take(k as int), all[k as int]);
                assert(all.take(k as int).len() == k);
                if k > 0 {
                    assert(text@ =~= head + (joined(all.take(k as int)) + seq!['\n'] + all[k as int]));
                } else {
                    assert(text@ =~= head + all[k as int]);
                }
            }
            k += 1;
        }
        text.append("\n\n... (");
        let more = decimal_string((lines.len() - MAX_PREVIEW_LINES) as u64);
        text.append(more.as_str());
        text.append(" more lines)");
        text
    } else {
        let mut text = String::from_str("\u{1f4dd} Text File Content\n\n");
        text.append(content);
        text
    }
}

/// The line that the preview of a directory shows for one of its entries:
/// a sign for its kind, its name, and its size where it has one.
pub open spec fn child_line(child: FileEntry, size_text: Seq<char>) -> Seq<char> {
    (if child.is_directory {
        "\u{1f4c1} "@
    } else {
        "\u{1f4c4} "@
    }) + child.name@ + (if child.size is Some {
        " ("@ + size_text + ")"@
    } else {
        Seq::empty()
    }) + "\n"@
}

/// The lines for the first `n` entries.
pub open spec fn child_lines(children: Seq<(FileEntry, String)>, n: int) -> Seq<char>
    decreases n,
{
    if n <= 0 {
        Seq::empty()
    } else {
        child_lines(children, n - 1) + child_line(children[n - 1].0, children[n - 1].1@)
    }
}

/// What the preview shows of a directory: the number of its entries, a line
/// for each of the first fifty, and the number of entries left out.
pub open spec fn directory_preview(children: Seq<(FileEntry, String)>) -> Seq<char> {
    if children.len() == 0 {
        "\u{1f4c1} Directory Contents\n\n(Empty directory)"@
    } else if children.len() > MAX_PREVIEW_CHILDREN {
        "\u{1f4c1} Directory Contents ("@ + decimal(children.len()) + " items)\n\n"@ + child_lines(
            children,
            MAX_PREVIEW_CHILDREN as int,
        ) + "\n... and "@ + decimal((children.len() - MAX_PREVIEW_CHILDREN) as nat)
            + " more items"@
    } else {
        "\u{1f4c1} Directory Contents ("@ + decimal(children.len()) + " items)\n\n"@ + child_lines(
            children,
            children.len() as int,
        )
    }
}

/// What the preview shows of a directory whose entries are `children`, in
/// the order in which they are shown, each with the text of its size.
pub fn preview_of_directory(children: &Vec<(FileEntry, String)>) -> (text: String)
    ensures
        text@ == directory_preview(children@),
{
    if children.len() == 0 {
        return String::from_str("\u{1f4c1} Directory Contents\n\n(Empty directory)");
    }
    let mut text = String::from_str("\u{1f4c1} Directory Contents (");
    let count = decimal_string(children.len() as u64);
    text.append(count.as_str());
    text.append(" items)\n\n");
    let shown: usize = if children.len() > MAX_PREVIEW_CHILDREN {
        MAX_PREVIEW_CHILDREN
    } else {
        children.len()
    };
    let ghost head = text@;
    let mut k: usize = 0;
    assert(text@ =~= head + child_lines(children@, 0));
    while k < shown
        invariant
            k <= shown <= children@.len(),
            text@ == head + child_lines(children@, k as int),
        decreases shown - k,
    {
        let ghost before = text@;
        let child = &children[k].0;
        if child.is_directory {
            text.append("\u{1f4c1} ");
        } else {
            text.append("\u{1f4c4} ");
        }
        text.append(child.name.as_str());
        if child.size.is_some() {
            text.append(" (");
            text.append(children[k].1.as_str());
            text.append(")");
        }
        text.append("\n");
        proof {
            let line = child_line(children@[k as int].0, children@[k as int].1@);
            assert(text@ =~= before + line);
            assert(text@ =~= head + (child_lines(children@, k as int) + line));
        }
        k += 1;
    }
    if children.len() > MAX_PREVIEW_CHILDREN {
        text.append("\n... and ");
        let more = decimal_string((children.len() - MAX_PREVIEW_CHILDREN) as u64);
        text.append(more.as_str());
        text.append(" more items");
    }
    text
}

} // verus!
