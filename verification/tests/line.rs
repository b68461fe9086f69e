use dirlist::line::{render_line, DirectoryEntry};
use dirlist::stamp::Timestamp;

fn entry(name: &str, mode: u16, size: u64, is_dir: bool) -> DirectoryEntry {
    DirectoryEntry {
        name: name.to_string(),
        mode,
        size,
        modified: Timestamp { secs: 1431685800, nanos: 0, offset: 0 },
        is_dir,
    }
}

#[test]
fn file_line_has_the_fixed_layout() {
    let line = render_line(&entry("a.txt", 0o644, 42, false), "15 May 10:30");
    assert_eq!(line, "rw-r--r--    42 15 May 10:30 a.txt");
}

#[test]
fn directory_line_is_wrapped_in_green() {
    let line = render_line(&entry("sub", 0o755, 4096, true), "15 May 10:30");
    assert_eq!(line, "\u{1b}[38;5;2mrwxr-xr-x  4096 15 May 10:30 sub\u{1b}[39m");
}

#[test]
fn directory_line_uses_the_terminal_library_sequences() {
    let green = format!("{}", termion::color::Fg(termion::color::Green));
    let reset = format!("{}", termion::color::Fg(termion::color::Reset));
    let plain = render_line(&entry("sub", 0o755, 4096, false), " 1 Jan 00:00");
    let line = render_line(&entry("sub", 0o755, 4096, true), " 1 Jan 00:00");
    assert_eq!(line, format!("{}{}{}", green, plain, reset));
    assert_ne!(green, reset);
    assert!(!green.is_empty());
}

#[test]
fn file_line_has_no_control_sequence() {
    let line = render_line(&entry("a.txt", 0o644, 42, false), "15 May 10:30");
    assert!(!line.contains('\u{1b}'));
    assert!(line.starts_with("rw-r--r-- "));
}

#[test]
fn one_file_and_one_subdirectory() {
    let stamp = " 3 Feb 09:05";
    let file = render_line(&entry("a.txt", 0o644, 42, false), stamp);
    let sub = render_line(&entry("sub", 0o755, 96, true), stamp);
    assert_eq!(file, "rw-r--r--    42  3 Feb 09:05 a.txt");
    assert_eq!(sub, "\u{1b}[38;5;2mrwxr-xr-x    96  3 Feb 09:05 sub\u{1b}[39m");
}

#[test]
fn empty_entry_shows_a_padded_zero() {
    let line = render_line(&entry("empty", 0o600, 0, false), "15 May 10:30");
    assert_eq!(line, "rw-------     0 15 May 10:30 empty");
    assert_eq!(&line[9..16], "     0 ");
}

#[test]
fn large_size_widens_the_line() {
    let line = render_line(&entry("big", 0o444, 1234567, false), "15 May 10:30");
    assert_eq!(line, "r--r--r-- 1234567 15 May 10:30 big");
}

#[test]
fn name_is_written_as_it_is() {
    let line = render_line(&entry("a b\tc\u{e9}", 0o644, 1, false), "15 May 10:30");
    assert_eq!(line, "rw-r--r--     1 15 May 10:30 a b\tc\u{e9}");
    let bare = render_line(&entry("", 0o644, 1, false), "");
    assert_eq!(bare, "rw-r--r--     1  ");
}
