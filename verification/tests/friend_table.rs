use mhf_iel::config::FriendData;
use mhf_iel::friends::{friends_of, inject_blob, make_ext_id, FRIEND_TABLE_SIZE};

fn friend(id: u32, cid: u32, name: &str) -> FriendData {
    FriendData {
        id,
        cid,
        name: name.to_string(),
    }
}

#[test]
fn ext_id_is_least_significant_first() {
    assert_eq!(make_ext_id(0), "111111");
    assert_eq!(make_ext_id(1), "211111");
    assert_eq!(make_ext_id(24), "R11111");
    assert_eq!(make_ext_id(31), "Z11111");
    assert_eq!(make_ext_id(32), "121111");
    assert_eq!(make_ext_id(1 + 2 * 32 + 3 * 1024), "234111");
    assert_eq!(make_ext_id((1 << 30) - 1), "ZZZZZZ");
}

#[test]
fn ext_id_keeps_six_digits() {
    assert_eq!(make_ext_id(1 << 30), "111111");
    assert_eq!(make_ext_id((3 << 30) + 5), "611111");
}

#[test]
fn ext_id_tells_characters_apart() {
    let mut ids: Vec<String> = (0..5000).map(make_ext_id).collect();
    ids.sort();
    ids.dedup();
    assert_eq!(ids.len(), 5000);
}

#[test]
fn only_friends_of_the_character() {
    let all = vec![friend(1, 3, "a"), friend(2, 4, "b"), friend(5, 3, "c")];
    let own = friends_of(&all, 3);
    let names: Vec<&str> = own.iter().map(|f| f.name.as_str()).collect();
    assert_eq!(names, ["a", "c"]);
    assert!(own.iter().all(|f| f.cid == 3));
    assert!(friends_of(&all, 9).is_empty());
}

#[test]
fn two_friends_in_the_table() {
    let mut table = vec![0xaau8; FRIEND_TABLE_SIZE];
    inject_blob(
        &mut table,
        0x18,
        &[friend(24, 3, "Wyxill"), friend(0x01020304, 3, "Poe")],
    );
    assert_eq!(&table[..0x18], b"R11111\0\0Wyxill\0\0\0\0\0\0\0\0\0\0");
    assert_eq!(&table[0x18..0x1c], &[24, 0, 0, 0]);
    assert!(table[0x1c..0x34].iter().all(|b| *b == 0xaa));
    assert_eq!(&table[0x34..0x3a], make_ext_id(0x01020304).as_bytes());
    assert_eq!(&table[0x3a..0x4c], b"\0\0Poe\0\0\0\0\0\0\0\0\0\0\0\0\0");
    assert_eq!(&table[0x4c..0x50], &[4, 3, 2, 1]);
    assert!(table[0x50..].iter().all(|b| *b == 0xaa));
}

#[test]
fn long_names_are_cut_and_end_in_a_nul() {
    let mut table = vec![0u8; FRIEND_TABLE_SIZE];
    inject_blob(&mut table, 0x18, &[friend(0, 0, "abcdefghijklmnopqrst")]);
    assert_eq!(&table[8..0x18], b"abcdefghijklmno\0");
}

#[test]
fn no_more_than_fifty_friends() {
    let friends: Vec<FriendData> = (0..60).map(|i| friend(i, 1, "n")).collect();
    let mut table = vec![0u8; FRIEND_TABLE_SIZE];
    inject_blob(&mut table, 0x18, &friends);
    for i in 0..50 {
        let id = 0x34 * i + 0x18;
        assert_eq!(table[id], i as u8);
        assert_eq!(table[id - 0x10], b'n');
    }
    assert!(table[0x34 * 49 + 0x1c..].iter().all(|b| *b == 0));
}

#[test]
fn small_table_takes_what_it_has_room_for() {
    let mut table = vec![0u8; 0x30];
    inject_blob(&mut table, 0x18, &[friend(1, 0, "a"), friend(2, 0, "b")]);
    assert_eq!(table[0x18], 1);
    let mut none = vec![7u8; 0x2f];
    inject_blob(&mut none, 0x18, &[friend(1, 0, "a")]);
    assert!(none.iter().all(|b| *b == 7));
}

#[test]
fn header_layout_marks_all_but_the_first() {
    let mut table = vec![0u8; FRIEND_TABLE_SIZE];
    inject_blob(&mut table, 0x20, &[friend(1, 0, "a"), friend(2, 0, "b")]);
    assert_eq!(&table[..8], &[0; 8]);
    assert_eq!(&table[8..14], b"211111");
    assert_eq!(table[8 + 0x20], 1);
    assert_eq!(&table[0x30..0x35], &[0, 0, 0, 1, 1]);
    assert_eq!(&table[0x3c..0x42], b"311111");
    assert_eq!(table[0x3c + 0x20], 2);
}

#[test]
fn header_layout_marks_reach_into_entries() {
    let friends: Vec<FriendData> = (0..4).map(|i| friend(i, 0, "")).collect();
    let mut table = vec![0u8; FRIEND_TABLE_SIZE];
    inject_blob(&mut table, 0x20, &friends);
    assert_eq!(&table[0x93..0x95], &[1, 1]);
}

#[test]
fn short_text_zone_cuts_the_external_id() {
    let mut table = vec![9u8; 0x30];
    inject_blob(&mut table, 4, &[friend(32, 0, "name")]);
    assert_eq!(&table[..8], b"1211\x20\0\0\0");
    assert_eq!(table[8], 9);
}

#[test]
fn no_friends_leave_the_table_alone() {
    let mut table = vec![5u8; FRIEND_TABLE_SIZE];
    inject_blob(&mut table, 0x18, &[]);
    assert!(table.iter().all(|b| *b == 5));
}

#[test]
fn friends_beyond_the_fiftieth_do_not_count() {
    let friends: Vec<FriendData> = (0..60).map(|i| friend(i, 1, "n")).collect();
    let mut all = vec![3u8; FRIEND_TABLE_SIZE];
    let mut first = all.clone();
    inject_blob(&mut all, 0x18, &friends);
    inject_blob(&mut first, 0x18, &friends[..50]);
    assert_eq!(all, first);
}

#[test]
fn injecting_again_changes_nothing() {
    let friends: Vec<FriendData> = (0..20).map(|i| friend(i * 37, 1, "name")).collect();
    for id0_off in [0x18, 0x20] {
        let mut once = vec![3u8; FRIEND_TABLE_SIZE];
        inject_blob(&mut once, id0_off, &friends);
        let mut twice = once.clone();
        inject_blob(&mut twice, id0_off, &friends);
        assert_eq!(once, twice);
    }
}
