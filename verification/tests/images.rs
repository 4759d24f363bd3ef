use mhf_iel::game_data::{
    block_size, font_size, init_data, init_data_f5, init_data_zz, Host, Loaded, Settings, MUTEX_MASTER_NAME,
    PROXY_ADDR_SIZE,
};
use mhf_iel::global_data::{global_unlocked, init_global};
use mhf_iel::ini::read_settings;
use mhf_iel::utils::mutex_names;
use mhf_iel::{FriendData, MhfConfig, MhfVersion, Notice};

fn config() -> MhfConfig {
    MhfConfig {
        char_id: 0x01020304,
        char_name: "Hunter".to_string(),
        char_new: true,
        char_hr: 999,
        char_gr: 100,
        char_ids: vec![0x01020304, 7],
        friends: vec![FriendData {
            id: 1,
            cid: 123,
            name: "Friend1".to_string(),
        }],
        user_token_id: 55,
        user_token: "0123456789abcdefXYZ".to_string(),
        user_name: "user".to_string(),
        user_password: "secret".to_string(),
        user_rights: 1292,
        server_host: "example.org".to_string(),
        server_port: 53310,
        entrance_count: 3,
        current_ts: 1234567890,
        expiry_ts: 1234567891,
        notices: vec![],
        mez_event_id: 11,
        mez_start: 12,
        mez_end: 13,
        mez_solo_tickets: 14,
        mez_group_tickets: 15,
        mez_stalls: vec![10, 3, 6],
        version: MhfVersion::ZZ,
        mhf_folder: None,
        mhf_flags: None,
        font_name: None,
    }
}

fn host() -> Host {
    Host {
        main_module: 0x400000,
        mutex_master: 0x11,
        mutex_master_ready: 0x12,
        global_alloc: 0x13,
        keyboard_layout: 0x04110411,
        mock_proc: 0x401000,
        gg_proc: 0x401010,
    }
}

fn loaded() -> Loaded {
    Loaded {
        mhfo_module: 0x10000000,
        mhddl_main: 0x10001234,
        block: 0x00500000,
        data_ptr: 0x0019ff00,
    }
}

fn settings() -> Settings {
    let values: Vec<u32> = (100..126).collect();
    Settings {
        ints: read_settings(&values),
        font: b"MS Gothic".to_vec(),
        proxy_addr: b"proxy".to_vec(),
    }
}

fn word(image: &[u8], at: usize) -> u32 {
    u32::from_le_bytes([image[at], image[at + 1], image[at + 2], image[at + 3]])
}

fn text(image: &[u8], at: usize, len: usize) -> String {
    let field = &image[at..at + len];
    let end = field.iter().position(|b| *b == 0).unwrap_or(len);
    assert!(field[end..].iter().all(|b| *b == 0));
    String::from_utf8(field[..end].to_vec()).unwrap()
}

#[test]
fn zz_block_by_address() {
    let image = init_data_zz(&config(), &host(), &loaded(), b"C:\\MHF", 1, &settings());
    assert_eq!(image.len(), 0x449c28 - 0x447178);
    let at = |address: usize| address - 0x447178;
    for (address, value) in [
        (0x447178, 0x400000),
        (0x447184, 0),
        (0x447188, 0),
        (0x448994, 0),
        (0x44899c, 0x11),
        (0x4489a0, 0x12),
        (0x448a24, 0x401000),
        (0x448a28, 0x401010),
        (0x448a2c, 0x401000),
        (0x448a3c, 0x01020304),
        (0x448a40, 0x01020304),
        (0x448a44, 55),
        (0x448a60, 1234567890),
        (0x448a64, 0),
        (0x448e6c, 3),
        (0x448e70, 1),
        (0x448e74, 1292),
        (0x448e78, 999),
        (0x448e8c, 0x01020304),
        (0x448e90, 7),
        (0x448e94, 0),
        (0x448ecc, 0x13),
        (0x448ed0, 1),
        (0x448ed8, 100),
        (0x448ee4, 100),
        (0x448f08, 109),
        (0x448f0c, 1),
        (0x448f10, 110),
        (0x448f30, 118),
        (0x448f9c, 119),
        (0x448fac, 123),
        (0x448ff0, 124),
        (0x448ff4, 125),
        (0x448ff8, 0x00500000 + 0x4491a8 - 0x447178),
        (0x44917c, 1234567891),
        (0x449184, 1),
        (0x449190, 0x0019ff00),
        (0x449194, 0x04110411),
        (0x4491ac, 0x10),
        (0x4491b0, 0x00500000 + 0x4491d4 - 0x447178),
        (0x4491b8, 0x10),
        (0x4491bc, 0x00500000 + 0x449198 - 0x447178),
        (0x4491c0, 0x401000),
        (0x4491c8, 0x401000),
        (0x4491e8, 0x10000000),
        (0x449c24, 0x10001234),
    ] {
        assert_eq!(word(&image, at(address)), value, "at {address:x}");
    }
    for (address, len, value) in [
        (0x44718c, 0x400, "C:\\MHF"),
        (0x44758c, 0x400, "C:\\MHF"),
        (0x44798c, 0x800, "user"),
        (0x44818c, 0x800, "secret"),
        (0x4489a4, 0x40, "MHF_Master"),
        (0x4489e4, 0x40, "mhf.ini"),
        (0x448a48, 0x10, "0123456789abcdef"),
        (0x448c68, 0x100, "example.org:53310"),
        (0x448d68, 0x100, "example.org"),
        (0x448e7c, 0x10, "Hunter"),
        (0x448f34, 0x68, "MS Gothic"),
        (0x448fb0, 0x40, "proxy"),
        (0x44907c, 0xc0, "example.org:8080"),
        (0x449710, 0x100, "MHF_Master_Ready"),
    ] {
        assert_eq!(text(&image, at(address), len), value, "at {address:x}");
    }
}

#[test]
fn f5_block_by_offset() {
    let image = init_data_f5(
        &config(),
        &host(),
        &loaded(),
        b"C:\\MHF",
        b"C:\\MHF\\mhf.ini\0",
        &settings(),
    );
    assert_eq!(image.len(), 0x2920);
    for (at, value) in [
        (0, 0x400000),
        (0x1824, 0x11),
        (0x1828, 0x12),
        (0x18ac, 0x401000),
        (0x18b0, 0x401010),
        (0x18c4, 0x01020304),
        (0x1d14, 0x13),
        (0x1d18, 1),
        (0x1d20, 100),
        (0x1d2c, 100),
        (0x1d50, 109),
        (0x1d54, 110),
        (0x1d74, 118),
        (0x1dd8, 0),
        (0x1ddc, 119),
        (0x1e34, 125),
        (0x1e38, 0x00500000 + 0x1ea0),
        (0x1e88, 0x0019ff00),
        (0x1e8c, 0x04110411),
        (0x1ea4, 0x10),
        (0x1ea8, 0x00500000 + 0x1ecc),
        (0x1eb4, 0x00500000 + 0x1e90),
        (0x1ee0, 0x10000000),
        (0x291c, 0x10001234),
    ] {
        assert_eq!(word(&image, at), value, "at {at:x}");
    }
    assert_eq!(text(&image, 0x186c, 0x40), "C:\\MHF\\mhf.ini");
    assert_eq!(text(&image, 0x1d78, 0x60), "MS Gothic");
    assert_eq!(text(&image, 0x1df0, 0x40), "proxy");
    assert_eq!(text(&image, 0x2408, 0x100), "MHF_Master_Ready");
}

#[test]
fn font_of_the_configuration_comes_first() {
    let mut c = config();
    c.font_name = Some("Arial".to_string());
    let image = init_data_zz(&c, &host(), &loaded(), b"", 0, &settings());
    assert_eq!(text(&image, 0x448f34 - 0x447178, 0x68), "Arial");
    c.font_name = Some("x".repeat(200));
    let image = init_data_f5(&c, &host(), &loaded(), b"", b"", &settings());
    assert_eq!(text(&image, 0x1d78, 0x60), "x".repeat(0x60));
    assert_eq!(word(&image, 0x1dd8), 0);
}

#[test]
fn field_sizes_of_each_release() {
    assert_eq!(font_size(MhfVersion::F5), 0x60);
    assert_eq!(font_size(MhfVersion::ZZ), 0x68);
    assert_eq!(PROXY_ADDR_SIZE, 0x40);
}

#[test]
fn old_character_and_long_lists() {
    let mut c = config();
    c.char_new = false;
    c.char_ids = (1..=20).collect();
    c.server_port = u32::MAX;
    let image = init_data_zz(&c, &host(), &loaded(), b"", 0, &settings());
    assert_eq!(word(&image, 0x448e70 - 0x447178), 0);
    for i in 0..16 {
        assert_eq!(word(&image, 0x448e8c - 0x447178 + 4 * i), i as u32 + 1);
    }
    assert_eq!(word(&image, 0x448ecc - 0x447178), 0x13);
    assert_eq!(
        text(&image, 0x448c68 - 0x447178, 0x100),
        "example.org:4294967295"
    );
}

#[test]
fn shared_memory_without_notices() {
    let image = init_global(&config());
    assert_eq!(image.len(), 0x8ae0);
    assert!(image[..0x8aac].iter().all(|b| *b == 0));
    let tail: Vec<u32> = (0x8aac..0x8ae0).step_by(4).map(|i| word(&image, i)).collect();
    assert_eq!(tail, [11, 12, 13, 14, 15, 10, 3, 6, 0, 0, 0, 0, 0]);
}

#[test]
fn shared_memory_with_notices() {
    let mut c = config();
    c.notices = vec![
        Notice {
            flags: 0x1234,
            data: "<BODY>狩".to_string(),
        },
        Notice {
            flags: 1,
            data: "y".repeat(0x1001),
        },
    ];
    c.mez_stalls = (1..=9).collect();
    let image = init_global(&c);
    assert_eq!(image.len(), 0x8ae0);
    assert_eq!(word(&image, 0xa0c), 9);
    assert_eq!(word(&image, 0xa10), 0x1001);
    assert_eq!(word(&image, 0xa14), 0);
    assert_eq!(&image[0xa24..0xa2c], &[0x34, 0x12, 1, 0, 0, 0, 0, 0]);
    assert_eq!(text(&image, 0xa2c, 0x1000), "<BODY>狩");
    assert_eq!(text(&image, 0x1a2c, 0x1000), "y".repeat(0x1000));
    assert!(image[0x2a2c..0x8aac].iter().all(|b| *b == 0));
    let stalls: Vec<u32> = (0x8ac0..0x8ae0).step_by(4).map(|i| word(&image, i)).collect();
    assert_eq!(stalls, [1, 2, 3, 4, 5, 6, 7, 8]);
}

#[test]
fn unlocking_may_report_code_zero() {
    assert!(global_unlocked(None));
    assert!(global_unlocked(Some(0)));
    assert!(!global_unlocked(Some(5)));
    assert!(!global_unlocked(Some(-1)));
}

#[test]
fn names_in_the_block_name_the_mutexes() {
    let raw = MUTEX_MASTER_NAME.as_bytes();
    let (a, b) = mutex_names(raw, raw, 9).unwrap();
    assert_eq!(a, b);
    assert_eq!(a, "Monster Hunter Frontier Z MHF_Master 9");
}

#[test]
fn block_of_the_configured_release() {
    let mut c = config();
    let (h, l, s) = (host(), loaded(), settings());
    c.version = MhfVersion::F5;
    let f5 = init_data(&c, &h, &l, b"C:\\MHF", b"C:\\MHF\\mhf.ini\0", 1, &s);
    assert_eq!(f5.len(), 0x2920);
    assert_eq!(block_size(MhfVersion::F5), 0x2920);
    assert_eq!(
        f5,
        init_data_f5(&c, &h, &l, b"C:\\MHF", b"C:\\MHF\\mhf.ini\0", &s)
    );
    c.version = MhfVersion::ZZ;
    let zz = init_data(&c, &h, &l, b"C:\\MHF", b"C:\\MHF\\mhf.ini\0", 1, &s);
    assert_eq!(zz.len(), 0x2ab0);
    assert_eq!(block_size(MhfVersion::ZZ), 0x2ab0);
    assert_eq!(zz, init_data_zz(&c, &h, &l, b"C:\\MHF", 1, &s));
}

#[test]
fn shared_memory_is_zero_where_nothing_lies() {
    let mut c = config();
    c.notices = (0..4)
        .map(|i| Notice {
            flags: 0xffff,
            data: "z".repeat(0x1000 + i),
        })
        .collect();
    let image = init_global(&c);
    for range in [0..0xa0c, 0xa1c..0xa24, 0x4a2c..0x8aac] {
        assert!(image[range].iter().all(|b| *b == 0));
    }
    assert!(image[0xa2c..0x4a2c].iter().all(|b| *b == b'z'));
}
