use mhf_iel::client::{friend_layout, FriendLayout};
use mhf_iel::config::MhfVersion;
use mhf_iel::injector::{
    injector_step, logged_friends, polled_ms, table_address, table_pending, InjectorAction,
    InjectorEvent, InjectorState,
};

fn hd() -> FriendLayout {
    friend_layout(MhfVersion::ZZ, 1)
}

#[test]
fn layout_of_each_client() {
    let l = friend_layout(MhfVersion::ZZ, 1);
    assert_eq!((l.dll_name, l.base_off, l.id0_off), ("mhfo-hd.dll", 0x0ED7D6C0, 0x18));
    for l in [
        friend_layout(MhfVersion::ZZ, 0),
        friend_layout(MhfVersion::ZZ, 2),
        friend_layout(MhfVersion::F5, 0),
        friend_layout(MhfVersion::F5, 1),
    ] {
        assert_eq!((l.dll_name, l.base_off, l.id0_off), ("mhfo.dll", 0x06142F20, 0x18));
    }
}

#[test]
fn table_lies_behind_the_library() {
    assert_eq!(table_address(&hd(), 0x10000000), 0x1ED7D6C0);
    assert_eq!(
        table_address(&friend_layout(MhfVersion::F5, 0), 0x10000000),
        0x16142F20
    );
}

#[test]
fn a_null_pointer_means_pending() {
    assert!(table_pending(&[0u8; 0x20]));
    assert!(!table_pending(&[1u8; 0x20]));
    for i in 0..8 {
        let mut block = [0xffu8; 0x20];
        block[4 * i..4 * i + 4].copy_from_slice(&[0, 0, 0, 0]);
        assert!(table_pending(&block));
        block[4 * i + 3] = 1;
        assert!(!table_pending(&block));
    }
    let mut across = [1u8; 0x20];
    across[2..6].copy_from_slice(&[0, 0, 0, 0]);
    assert!(!table_pending(&across));
}

#[test]
fn without_friends_nothing_happens() {
    let step = injector_step(&hd(), 0, InjectorState::Idle, &InjectorEvent::Begin);
    assert_eq!(step, (InjectorState::Done, InjectorAction::Stop));
}

#[test]
fn ready_table_is_written_at_once() {
    let l = hd();
    let (s, a) = injector_step(&l, 1, InjectorState::Idle, &InjectorEvent::Begin);
    assert_eq!((s, a), (InjectorState::Locating, InjectorAction::FindModule));
    let (s, a) = injector_step(&l, 1, s, &InjectorEvent::Module(Some(0x10000000)));
    let base = 0x1ED7D6C0;
    assert_eq!(s, InjectorState::Settling { base });
    assert_eq!(a, InjectorAction::Wait(2000));
    let (s, a) = injector_step(&l, 1, s, &InjectorEvent::Waited);
    assert_eq!(s, InjectorState::Reading { base, tries: 0 });
    assert_eq!(a, InjectorAction::Read { at: base, len: 0x20 });
    let (s, a) = injector_step(&l, 1, s, &InjectorEvent::Pointers(vec![1; 0x20]));
    assert_eq!(s, InjectorState::Writing { base });
    assert_eq!(a, InjectorAction::Write { at: base, len: 0x1000 });
    let (s, a) = injector_step(&l, 1, s, &InjectorEvent::Written);
    assert_eq!((s, a), (InjectorState::Done, InjectorAction::Stop));
}

#[test]
fn missing_library_ends_the_injection() {
    let step = injector_step(
        &hd(),
        3,
        InjectorState::Locating,
        &InjectorEvent::Module(None),
    );
    assert_eq!(step, (InjectorState::Done, InjectorAction::Stop));
}

#[test]
fn polling_gives_up_after_eight_hundred_pauses() {
    let l = hd();
    let base = 0x2000;
    let mut state = InjectorState::Reading { base, tries: 0 };
    let mut pauses = 0;
    loop {
        let (s, a) = injector_step(&l, 1, state, &InjectorEvent::Pointers(vec![0; 0x20]));
        if a == (InjectorAction::Write { at: base, len: 0x1000 }) {
            assert_eq!(s, InjectorState::Writing { base });
            break;
        }
        assert_eq!(a, InjectorAction::Wait(10));
        pauses += 1;
        let (s, a) = injector_step(&l, 1, s, &InjectorEvent::Waited);
        assert_eq!(a, InjectorAction::Read { at: base, len: 0x20 });
        state = s;
    }
    assert_eq!(pauses, 800);
}

#[test]
fn header_is_skipped_when_reading() {
    let l = FriendLayout {
        dll_name: "mhfo.dll",
        base_off: 0x100,
        id0_off: 0x20,
    };
    let (s, a) = injector_step(
        &l,
        1,
        InjectorState::Locating,
        &InjectorEvent::Module(Some(0x1000)),
    );
    assert_eq!(s, InjectorState::Settling { base: 0x1100 });
    assert_eq!(a, InjectorAction::Wait(2000));
    let (s, a) = injector_step(&l, 1, s, &InjectorEvent::Waited);
    assert_eq!(s, InjectorState::Reading { base: 0x1100, tries: 0 });
    assert_eq!(a, InjectorAction::Read { at: 0x1108, len: 0x20 });
    let (_, a) = injector_step(&l, 1, s, &InjectorEvent::Pointers(vec![1; 0x20]));
    assert_eq!(a, InjectorAction::Write { at: 0x1100, len: 0x1000 });
}

#[test]
fn unexpected_event_ends_the_injection() {
    for state in [
        InjectorState::Idle,
        InjectorState::Locating,
        InjectorState::Settling { base: 0x2000 },
        InjectorState::Done,
    ] {
        let step = injector_step(&hd(), 1, state, &InjectorEvent::Written);
        assert_eq!(step, (InjectorState::Done, InjectorAction::Stop));
    }
}

#[test]
fn memory_is_not_touched_before_the_wait() {
    let l = hd();
    for state in [
        InjectorState::Idle,
        InjectorState::Locating,
        InjectorState::Settling { base: 0x2000 },
    ] {
        for event in [
            InjectorEvent::Begin,
            InjectorEvent::Module(None),
            InjectorEvent::Module(Some(0x10000000)),
            InjectorEvent::Pointers(vec![1; 0x20]),
            InjectorEvent::Written,
        ] {
            let (_, a) = injector_step(&l, 1, state, &event);
            assert!(!matches!(
                a,
                InjectorAction::Read { .. } | InjectorAction::Write { .. }
            ));
        }
    }
}

#[test]
fn log_shows_the_first_five_friends() {
    assert_eq!(logged_friends(0), 0);
    assert_eq!(logged_friends(4), 4);
    assert_eq!(logged_friends(5), 5);
    assert_eq!(logged_friends(22), 5);
}

#[test]
fn log_shows_how_long_the_table_was_polled() {
    assert_eq!(polled_ms(0, false), 0);
    assert_eq!(polled_ms(3, false), 30);
    assert_eq!(polled_ms(800, false), 8000);
    assert_eq!(polled_ms(800, true), 8010);
    assert_eq!(polled_ms(u32::MAX, true), 42949672960);
}
