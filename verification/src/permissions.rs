//! The permission string of a POSIX mode: three characters for each of the
//! subject classes user, group and other.

use vstd::prelude::*;

verus! {

/// Whether `mode` has any of the bits of `mask` set.
pub open spec fn grants(mode: u16, mask: u16) -> bool {
    mode & mask != 0
}

/// The three characters that show which of the rights read, write and execute
/// one subject class holds: the right's letter, or `-` where it is absent.
pub open spec fn triplet_text(read: bool, write: bool, execute: bool) -> Seq<char> {
    match (read, write, execute) {
        (false, false, false) => seq!['-', '-', '-'],
        (true, false, false) => seq!['r', '-', '-'],
        (false, true, false) => seq!['-', 'w', '-'],
        (false, false, true) => seq!['-', '-', 'x'],
        (true, false, true) => seq!['r', '-', 'x'],
        (true, true, false) => seq!['r', 'w', '-'],
        (false, true, true) => seq!['-', 'w', 'x'],
        (true, true, true) => seq!['r', 'w', 'x'],
    }
}

/// The owner's read bit.
pub open spec fn user_read() -> u16 {
    0o400
}

/// The owner's write bit.
pub open spec fn user_write() -> u16 {
    0o200
}

/// The owner's execute bit.
pub open spec fn user_execute() -> u16 {
    0o100
}

/// The group's read bit.
pub open spec fn group_read() -> u16 {
    0o040
}

/// The group's write bit.
pub open spec fn group_write() -> u16 {
    0o020
}

/// The group's execute bit.
pub open spec fn group_execute() -> u16 {
    0o010
}

/// The read bit of everyone else.
pub open spec fn other_read() -> u16 {
    0o004
}

/// The write bit of everyone else.
pub open spec fn other_write() -> u16 {
    0o002
}

/// The execute bit of everyone else.
pub open spec fn other_execute() -> u16 {
    0o001
}

/// The triplet of the user class under `mode`.
pub open spec fn user_text(mode: u16) -> Seq<char> {
    triplet_text(
        grants(mode, user_read()),
        grants(mode, user_write()),
        grants(mode, user_execute()),
    )
}

/// The triplet of the group class under `mode`.
pub open spec fn group_text(mode: u16) -> Seq<char> {
    triplet_text(
        grants(mode, group_read()),
        grants(mode, group_write()),
        grants(mode, group_execute()),
    )
}

/// The triplet of the other class under `mode`.
pub open spec fn other_text(mode: u16) -> Seq<char> {
    triplet_text(
        grants(mode, other_read()),
        grants(mode, other_write()),
        grants(mode, other_execute()),
    )
}

/// The nine characters of a mode: the triplets of user, group and other, in
/// that order.
pub open spec fn permissions_text(mode: u16) -> Seq<char> {
    user_text(mode) + group_text(mode) + other_text(mode)
}

/// Whether `c` is one of the four characters a permission string is made of.
pub open spec fn is_permission_char(c: char) -> bool {
    c == 'r' || c == 'w' || c == 'x' || c == '-'
}

/// `libc::S_IRUSR`, which libc defines as octal 400 for every target,
/// narrowed to the sixteen bits a permission mode has.
#[verifier::external_body]
fn user_read_bit() -> (bit: u16)
    ensures
        bit == user_read(),
{
    libc::S_IRUSR as u16
}

/// `libc::S_IWUSR`, which libc defines as octal 200 for every target,
/// narrowed to the sixteen bits a permission mode has.
#[verifier::external_body]
fn user_write_bit() -> (bit: u16)
    ensures
        bit == user_write(),
{
    libc::S_IWUSR as u16
}

/// `libc::S_IXUSR`, which libc defines as octal 100 for every target,
/// narrowed to the sixteen bits a permission mode has.
#[verifier::external_body]
fn user_execute_bit() -> (bit: u16)
    ensures
        bit == user_execute(),
{
    libc::S_IXUSR as u16
}

/// `libc::S_IRGRP`, which libc defines as octal 40 for every target,
/// narrowed to the sixteen bits a permission mode has.
#[verifier::external_body]
fn group_read_bit() -> (bit: u16)
    ensures
        bit == group_read(),
{
    libc::S_IRGRP as u16
}

/// `libc::S_IWGRP`, which libc defines as octal 20 for every target,
/// narrowed to the sixteen bits a permission mode has.
#[verifier::external_body]
fn group_write_bit() -> (bit: u16)
    ensures
        bit == group_write(),
{
    libc::S_IWGRP as u16
}

/// `libc::S_IXGRP`, which libc defines as octal 10 for every target,
/// narrowed to the sixteen bits a permission mode has.
#[verifier::external_body]
fn group_execute_bit() -> (bit: u16)
    ensures
        bit == group_execute(),
{
    libc::S_IXGRP as u16
}

/// `libc::S_IROTH`, which libc defines as 4 for every target, narrowed to
/// the sixteen bits a permission mode has.
#[verifier::external_body]
fn other_read_bit() -> (bit: u16)
    ensures
        bit == other_read(),
{
    libc::S_IROTH as u16
}

/// `libc::S_IWOTH`, which libc defines as 2 for every target, narrowed to
/// the sixteen bits a permission mode has.
#[verifier::external_body]
fn other_write_bit() -> (bit: u16)
    ensures
        bit == other_write(),
{
    libc::S_IWOTH as u16
}

/// `libc::S_IXOTH`, which libc defines as 1 for every target, narrowed to
/// the sixteen bits a permission mode has.
#[verifier::external_body]
fn other_execute_bit() -> (bit: u16)
    ensures
        bit == other_execute(),
{
    libc::S_IXOTH as u16
}

/// Renders the rights that `mode` grants under the three masks `read`,
/// `write` and `execute` as one triplet.
pub fn triplet(mode: u16, read: u16, write: u16, execute: u16) -> (text: String)
    ensures
        text@ == triplet_text(grants(mode, read), grants(mode, write), grants(mode, execute)),
{
    let shown = match (mode & read != 0, mode & write != 0, mode & execute != 0) {
        (false, false, false) => "---",
        (true, false, false) => "r--",
        (false, true, false) => "-w-",
        (false, false, true) => "--x",
        (true, false, true) => "r-x",
        (true, true, false) => "rw-",
        (false, true, true) => "-wx",
        (true, true, true) => "rwx",
    };
    proof {
        reveal_strlit("---");
        reveal_strlit("r--");
        reveal_strlit("-w-");
        reveal_strlit("--x");
        reveal_strlit("r-x");
        reveal_strlit("rw-");
        reveal_strlit("-wx");
        reveal_strlit("rwx");
        assert(shown@ =~= triplet_text(
            grants(mode, read),
            grants(mode, write),
            grants(mode, execute),
        ));
    }
    String::from_str(shown)
}

/// Renders a mode as its nine-character permission string.
pub fn parse_permissions(mode: u16) -> (text: String)
    ensures
        text@ == permissions_text(mode),
{
    let user = triplet(mode, user_read_bit(), user_write_bit(), user_execute_bit());
    let group = triplet(mode, group_read_bit(), group_write_bit(), group_execute_bit());
    let other = triplet(mode, other_read_bit(), other_write_bit(), other_execute_bit());
    let mut text = user;
    text.append(group.as_str());
    text.append(other.as_str());
    text
}

/// A triplet shows each right at its own place: the first character tells
/// of read, the second of write, the third of execute.
pub proof fn triplet_text_by_place(read: bool, write: bool, execute: bool)
    ensures
        triplet_text(read, write, execute) == seq![
            if read { 'r' } else { '-' },
            if write { 'w' } else { '-' },
            if execute { 'x' } else { '-' },
        ],
{
    assert(triplet_text(read, write, execute) =~= seq![
        if read { 'r' } else { '-' },
        if write { 'w' } else { '-' },
        if execute { 'x' } else { '-' },
    ]);
}

/// Two combinations of rights that are shown alike are the same combination:
/// each of the eight triplets stands for exactly one of them.
pub proof fn triplet_text_is_injective(
    read: bool,
    write: bool,
    execute: bool,
    read2: bool,
    write2: bool,
    execute2: bool,
)
    requires
        triplet_text(read, write, execute) == triplet_text(read2, write2, execute2),
    ensures
        read == read2,
        write == write2,
        execute == execute2,
{
    triplet_text_by_place(read, write, execute);
    triplet_text_by_place(read2, write2, execute2);
    let a = triplet_text(read, write, execute);
    let b = triplet_text(read2, write2, execute2);
    assert(a[0] == b[0]);
    assert(a[1] == b[1]);
    assert(a[2] == b[2]);
}

/// Every permission string has nine characters, each of them `r`, `w`, `x`
/// or `-`.
pub proof fn permissions_text_shape(mode: u16)
    ensures
        permissions_text(mode).len() == 9,
        forall|i: int| 0 <= i < 9 ==> is_permission_char(#[trigger] permissions_text(mode)[i]),
{
    let user = user_text(mode);
    let group = group_text(mode);
    let other = other_text(mode);
    triplet_text_by_place(
        grants(mode, user_read()),
        grants(mode, user_write()),
        grants(mode, user_execute()),
    );
    triplet_text_by_place(
        grants(mode, group_read()),
        grants(mode, group_write()),
        grants(mode, group_execute()),
    );
    triplet_text_by_place(
        grants(mode, other_read()),
        grants(mode, other_write()),
        grants(mode, other_execute()),
    );
    assert forall|i: int| 0 <= i < 9 implies is_permission_char(
        #[trigger] permissions_text(mode)[i],
    ) by {
        if i < 3 {
            assert(permissions_text(mode)[i] == user[i]);
        } else if i < 6 {
            assert(permissions_text(mode)[i] == group[i - 3]);
        } else {
            assert(permissions_text(mode)[i] == other[i - 6]);
        }
    }
}

} // verus!
