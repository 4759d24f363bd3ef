use mhf_iel::utils::{
    bufcopy, get_mutex_name, get_or_create_mutex, mutex_names, mutex_step, mutexes_step,
    MutexAction, MutexNext, MutexPhase,
};
use mhf_iel::config::Error;

#[test]
fn bufcopy_leaves_the_rest() {
    let mut buf = [9u8; 5];
    bufcopy(&mut buf, &[1, 2, 3]);
    assert_eq!(buf, [1, 2, 3, 9, 9]);
}

#[test]
fn bufcopy_cuts_what_does_not_fit() {
    let mut buf = [0u32; 2];
    bufcopy(&mut buf, &[7, 8, 9]);
    assert_eq!(buf, [7, 8]);
    bufcopy(&mut buf, &[]);
    assert_eq!(buf, [7, 8]);
}

#[test]
fn bufcopy_twice_is_bufcopy_once() {
    let mut once = *b"abcdef";
    bufcopy(&mut once, b"xyz");
    let mut twice = once;
    bufcopy(&mut twice, b"xyz");
    assert_eq!(once, twice);
    assert_eq!(&once, b"xyzdef");
}

#[test]
fn mutex_name_holds_the_process() {
    assert_eq!(
        get_mutex_name("MHF_Master", 4711),
        "Monster Hunter Frontier Z MHF_Master 4711"
    );
    assert_eq!(get_mutex_name("", 0), "Monster Hunter Frontier Z  0");
    assert_eq!(
        get_mutex_name("x", u32::MAX),
        "Monster Hunter Frontier Z x 4294967295"
    );
}

#[test]
fn mutex_names_drop_trailing_nuls() {
    let (master, ready) = mutex_names(b"MHF_Master\0", b"MHF_Master_Ready\0\0", 12).unwrap();
    assert_eq!(master, "Monster Hunter Frontier Z MHF_Master 12");
    assert_eq!(ready, "Monster Hunter Frontier Z MHF_Master_Ready 12");
    assert_ne!(master, ready);
}

#[test]
fn mutex_names_keep_inner_nuls_and_wide_text() {
    let (a, b) = mutex_names("a\0b\0".as_bytes(), "狩人".as_bytes(), 1).unwrap();
    assert_eq!(a, "Monster Hunter Frontier Z a\0b 1");
    assert_eq!(b, "Monster Hunter Frontier Z 狩人 1");
}

#[test]
fn mutex_names_refuse_what_is_no_text() {
    assert!(matches!(mutex_names(&[0xff], b"x", 1), Err(Error::Mutex)));
    assert!(matches!(mutex_names(b"x", &[0xc3], 1), Err(Error::Mutex)));
}

#[test]
fn an_open_mutex_is_preferred() {
    assert_eq!(get_or_create_mutex(Some(3), None), Ok(3));
    assert_eq!(get_or_create_mutex(Some(3), Some(4)), Ok(3));
    assert_eq!(get_or_create_mutex(None, Some(4)), Ok(4));
    assert_eq!(get_or_create_mutex::<u8>(None, None), Err(Error::Mutex));
}

#[test]
fn mutex_is_created_only_where_it_cannot_be_opened() {
    assert_eq!(mutex_step(MutexAction::Open, true), MutexNext::Use);
    assert_eq!(mutex_step(MutexAction::Open, false), MutexNext::Create);
    assert_eq!(mutex_step(MutexAction::Create, true), MutexNext::Use);
    assert_eq!(mutex_step(MutexAction::Create, false), MutexNext::Fail);
}

#[test]
fn master_mutex_comes_first() {
    assert_eq!(mutexes_step(MutexPhase::Master, true), Ok(MutexPhase::Ready));
    assert_eq!(mutexes_step(MutexPhase::Ready, true), Ok(MutexPhase::Held));
    assert_eq!(mutexes_step(MutexPhase::Master, false), Err(Error::Mutex));
    assert_eq!(mutexes_step(MutexPhase::Ready, false), Err(Error::Mutex));
    assert_eq!(mutexes_step(MutexPhase::Held, false), Ok(MutexPhase::Held));
}

#[test]
fn closing_nuls_do_not_count_however_many() {
    let mut raw = b"MHF_Master".to_vec();
    for _ in 0..4 {
        let (master, _) = mutex_names(&raw, b"x", 7).unwrap();
        assert_eq!(master, "Monster Hunter Frontier Z MHF_Master 7");
        raw.push(0);
    }
}
