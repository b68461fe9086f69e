use dirlist::permissions::{parse_permissions, triplet};

#[test]
fn triplet_follows_the_table() {
    assert_eq!(triplet(0o0, 4, 2, 1), "---");
    assert_eq!(triplet(0o4, 4, 2, 1), "r--");
    assert_eq!(triplet(0o2, 4, 2, 1), "-w-");
    assert_eq!(triplet(0o1, 4, 2, 1), "--x");
    assert_eq!(triplet(0o5, 4, 2, 1), "r-x");
    assert_eq!(triplet(0o6, 4, 2, 1), "rw-");
    assert_eq!(triplet(0o3, 4, 2, 1), "-wx");
    assert_eq!(triplet(0o7, 4, 2, 1), "rwx");
}

#[test]
fn triplet_reads_only_the_bits_of_its_masks() {
    assert_eq!(triplet(0o070, 0o400, 0o200, 0o100), "---");
    assert_eq!(triplet(0o070, 0o040, 0o020, 0o010), "rwx");
    assert_eq!(triplet(0o070, 0o004, 0o002, 0o001), "---");
    assert_eq!(triplet(0xffff, 0, 0, 0), "---");
}

#[test]
fn group_write_and_other_execute() {
    let mode: u16 = 0o021;
    assert_eq!(triplet(mode, 0o400, 0o200, 0o100), "---");
    assert_eq!(triplet(mode, 0o040, 0o020, 0o010), "-w-");
    assert_eq!(triplet(mode, 0o004, 0o002, 0o001), "--x");
    assert_eq!(parse_permissions(mode), "----w---x");
}

#[test]
fn parse_permissions_of_common_modes() {
    assert_eq!(parse_permissions(0o644), "rw-r--r--");
    assert_eq!(parse_permissions(0o755), "rwxr-xr-x");
    assert_eq!(parse_permissions(0o000), "---------");
    assert_eq!(parse_permissions(0o777), "rwxrwxrwx");
    assert_eq!(parse_permissions(0o600), "rw-------");
    assert_eq!(parse_permissions(0o531), "r-x-wx--x");
}

#[test]
fn parse_permissions_shows_each_bit_at_its_place() {
    assert_eq!(parse_permissions(0o400), "r--------");
    assert_eq!(parse_permissions(0o200), "-w-------");
    assert_eq!(parse_permissions(0o100), "--x------");
    assert_eq!(parse_permissions(0o040), "---r-----");
    assert_eq!(parse_permissions(0o020), "----w----");
    assert_eq!(parse_permissions(0o010), "-----x---");
    assert_eq!(parse_permissions(0o004), "------r--");
    assert_eq!(parse_permissions(0o002), "-------w-");
    assert_eq!(parse_permissions(0o001), "--------x");
}

#[test]
fn parse_permissions_ignores_the_other_bits() {
    assert_eq!(parse_permissions(0o7000), "---------");
    assert_eq!(parse_permissions(0o4755), "rwxr-xr-x");
    assert_eq!(parse_permissions(0x81a4), "rw-r--r--");
    assert_eq!(parse_permissions(0x41ed), "rwxr-xr-x");
}

#[test]
fn every_mode_gives_nine_permission_characters() {
    let mut mode: u16 = 0;
    loop {
        let text = parse_permissions(mode);
        assert_eq!(text.chars().count(), 9);
        assert!(text.chars().all(|c| c == 'r' || c == 'w' || c == 'x' || c == '-'));
        assert_eq!(text, parse_permissions(mode));
        if mode == u16::MAX {
            break;
        }
        mode += 1;
    }
}

#[test]
fn every_triplet_is_one_of_the_eight() {
    let known = ["---", "r--", "-w-", "--x", "r-x", "rw-", "-wx", "rwx"];
    let mut mode: u16 = 0;
    while mode < 0o1000 {
        let text = triplet(mode, 0o040, 0o020, 0o010);
        assert_eq!(known.iter().filter(|k| **k == text).count(), 1);
        let chars: Vec<char> = text.chars().collect();
        assert_eq!(chars[0] == 'r', mode & 0o040 != 0);
        assert_eq!(chars[1] == 'w', mode & 0o020 != 0);
        assert_eq!(chars[2] == 'x', mode & 0o010 != 0);
        mode += 1;
    }
}
