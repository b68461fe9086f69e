//! One line of the listing: what is shown of a single directory entry.

use crate::color::{green_foreground, green_text, reset_foreground, reset_text};
use crate::permissions::{parse_permissions, permissions_text, permissions_text_shape};
use crate::size::{size_field, size_text, size_text_of_zero};
use crate::stamp::Timestamp;
use vstd::prelude::*;

verus! {

/// What the file system tells of one entry of a directory.
#[derive(Clone, Debug)]
pub struct DirectoryEntry {
    /// The entry's name, as the file system gives it.
    pub name: String,
    /// The POSIX mode bits.
    pub mode: u16,
    /// The length in bytes.
    pub size: u64,
    /// When the entry was last modified.
    pub modified: Timestamp,
    /// Whether the entry is itself a directory.
    pub is_dir: bool,
}

/// The text of an entry's line: permission string, size field, rendered
/// time and name, with one space between neighbours.
pub open spec fn plain_text(entry: DirectoryEntry, stamp: Seq<char>) -> Seq<char> {
    permissions_text(entry.mode) + seq![' '] + size_text(entry.size) + seq![' '] + stamp + seq![
        ' ',
    ] + entry.name@
}

/// An entry's line as it is written: the text as it is, or, for a
/// directory, the text between the sequence that turns the foreground green
/// and the one that resets it.
pub open spec fn line_text(entry: DirectoryEntry, stamp: Seq<char>) -> Seq<char> {
    if entry.is_dir {
        green_text() + plain_text(entry, stamp) + reset_text()
    } else {
        plain_text(entry, stamp)
    }
}

/// Renders the line of `entry`, given its modification time as text.
pub fn render_line(entry: &DirectoryEntry, stamp: &str) -> (line: String)
    ensures
        line@ == line_text(*entry, stamp@),
{
    let mut line = if entry.is_dir {
        green_foreground()
    } else {
        String::new()
    };
    let permissions = parse_permissions(entry.mode);
    let size = size_field(entry.size);
    proof {
        reveal_strlit(" ");
        assert(" "@ =~= seq![' ']);
    }
    line.append(permissions.as_str());
    line.append(" ");
    line.append(size.as_str());
    line.append(" ");
    line.append(stamp);
    line.append(" ");
    line.append(entry.name.as_str());
    if entry.is_dir {
        let reset = reset_foreground();
        line.append(reset.as_str());
        assert(line@ =~= line_text(*entry, stamp@));
    } else {
        assert(line@ =~= line_text(*entry, stamp@));
    }
    line
}

/// Where each field of an entry's text stands: the nine characters of the
/// permission string, a space, the size field, a space, the rendered time,
/// a space, and the name to the end.
pub proof fn plain_text_layout(entry: DirectoryEntry, stamp: Seq<char>)
    ensures
        ({
            let text = plain_text(entry, stamp);
            let size_end: int = 10 + size_text(entry.size).len() as int;
            let stamp_end: int = size_end + 1 + stamp.len();
            &&& text.len() == stamp_end + 1 + entry.name@.len()
            &&& text.subrange(0, 9) == permissions_text(entry.mode)
            &&& text[9] == ' '
            &&& text.subrange(10, size_end) == size_text(entry.size)
            &&& text[size_end] == ' '
            &&& text.subrange(size_end + 1, stamp_end) == stamp
            &&& text[stamp_end] == ' '
            &&& text.skip(stamp_end + 1) == entry.name@
        }),
{
    let text = plain_text(entry, stamp);
    let size_end: int = 10 + size_text(entry.size).len() as int;
    let stamp_end: int = size_end + 1 + stamp.len();
    permissions_text_shape(entry.mode);
    assert(text.subrange(0, 9) =~= permissions_text(entry.mode));
    assert(text.subrange(10, size_end) =~= size_text(entry.size));
    assert(text.subrange(size_end + 1, stamp_end) =~= stamp);
    assert(text.skip(stamp_end + 1) =~= entry.name@);
}

/// An empty entry shows its size as four spaces and the digit zero, right
/// behind the permission string and its space.
pub proof fn empty_entry_size_field(entry: DirectoryEntry, stamp: Seq<char>)
    requires
        entry.size == 0,
    ensures
        plain_text(entry, stamp).subrange(10, 15) == seq![' ', ' ', ' ', ' ', '0'],
{
    size_text_of_zero();
    plain_text_layout(entry, stamp);
}

/// A directory's line is its text between the green sequence and the reset
/// sequence. Any other entry's line is its text alone, and begins with a
/// character of the permission string, so with no control sequence.
pub proof fn line_text_wrapping(entry: DirectoryEntry, stamp: Seq<char>)
    ensures
        ({
            let line = line_text(entry, stamp);
            let text = plain_text(entry, stamp);
            &&& entry.is_dir ==> {
                &&& line.len() == green_text().len() + text.len() + reset_text().len()
                &&& line.subrange(0, green_text().len() as int) == green_text()
                &&& line.subrange(green_text().len() as int, line.len() - reset_text().len())
                    == text
                &&& line.skip(line.len() - reset_text().len()) == reset_text()
            }
            &&& !entry.is_dir ==> {
                &&& line == text
                &&& line.len() > 0
                &&& line[0] != '\u{1b}'
            }
        }),
{
    let line = line_text(entry, stamp);
    let text = plain_text(entry, stamp);
    plain_text_layout(entry, stamp);
    permissions_text_shape(entry.mode);
    if entry.is_dir {
        assert(line.subrange(0, green_text().len() as int) =~= green_text());
        assert(line.subrange(green_text().len() as int, line.len() - reset_text().len())
            =~= text);
        assert(line.skip(line.len() - reset_text().len()) =~= reset_text());
    } else {
        assert(text[0] == text.subrange(0, 9)[0]);
        assert(crate::permissions::is_permission_char(permissions_text(entry.mode)[0]));
    }
}

} // verus!
