//! The friend injector: waits for the client to build its friend table and then has it written.
//!
//! [`injector_step`] decides; whoever runs the injector performs each action and hands back what
//! came of it.
use crate::client::FriendLayout;
use crate::friends;
use crate::friends::FRIEND_TABLE_SIZE;
use vstd::prelude::*;

verus! {

/// How long the client is given to allocate its memory once its library is found, in milliseconds.
pub const SETTLE_MS: u64 = 2000;

/// How long to pause between two looks at the table, in milliseconds.
pub const POLL_MS: u64 = 10;

/// How many pauses are made before the table is written as it is.
pub const MAX_TRIES: u32 = 800;

/// The size of the array of pointers at the start of the table.
pub const POINTERS_SIZE: usize = 0x20;

#[derive(Clone, Copy, Debug, PartialEq, Eq, Structural)]
pub enum InjectorState {
    Idle,
    Locating,
    /// Giving the client time before the first look at the table at `base`.
    Settling { base: usize },
    /// Looking at the table at `base` after `tries` pauses.
    Reading { base: usize, tries: u32 },
    Pausing { base: usize, tries: u32 },
    Writing { base: usize },
    Done,
}

/// What came of the last action.
#[derive(Debug)]
pub enum InjectorEvent {
    Begin,
    Waited,
    /// Where the client's library is loaded, if it is.
    Module(Option<usize>),
    /// The array of pointers at the start of the table.
    Pointers(Vec<u8>),
    Written,
}

#[derive(Clone, Copy, Debug, PartialEq, Eq, Structural)]
pub enum InjectorAction {
    Stop,
    /// Wait for so many milliseconds.
    Wait(u64),
    FindModule,
    /// Read `len` bytes at `at`.
    Read { at: usize, len: usize },
    /// Write the friends into the `len` bytes at `at`.
    Write { at: usize, len: usize },
}

/// Whether one of the eight pointers in `block` is still null.
pub open spec fn pointers_pending(block: Seq<u8>) -> bool {
    exists|i: int| 0 <= i < 8 && #[trigger] null_pointer_at(block, i)
}

/// Whether pointer `i` in `block` is null.
pub open spec fn null_pointer_at(block: Seq<u8>, i: int) -> bool {
    block[4 * i] == 0 && block[4 * i + 1] == 0 && block[4 * i + 2] == 0 && block[4 * i + 3] == 0
}

/// Whether the client is still filling the array of pointers at the start of its friend table.
pub fn table_pending(block: &[u8]) -> (res: bool)
    requires
        block@.len() == POINTERS_SIZE,
    ensures
        res == pointers_pending(block@),
{
    let mut i: usize = 0;
    while i < 8
        invariant
            i <= 8,
            block@.len() == POINTERS_SIZE,
            forall|j: int| 0 <= j < i ==> !#[trigger] null_pointer_at(block@, j),
        decreases 8 - i,
    {
        if block[4 * i] == 0 && block[4 * i + 1] == 0 && block[4 * i + 2] == 0 && block[4 * i + 3]
            == 0 {
            assert(null_pointer_at(block@, i as int));
            return true;
        }
        i = i + 1;
    }
    false
}

/// The header before the pointers, which only one layout has.
pub open spec fn pointers_off(layout: FriendLayout) -> int {
    friends::header_size(layout.id0_off as nat) as int
}

/// The look at the pointers of the table at `base`.
pub open spec fn read_pointers(layout: FriendLayout, base: usize) -> InjectorAction {
    InjectorAction::Read { at: (base + pointers_off(layout)) as usize, len: POINTERS_SIZE }
}

/// Whether an address can be formed for everything that `state` and `event` speak of, and the
/// pointers were read in full.
pub open spec fn step_valid(
    layout: FriendLayout,
    state: InjectorState,
    event: InjectorEvent,
) -> bool {
    &&& match state {
        InjectorState::Settling { base }
        | InjectorState::Reading { base, .. }
        | InjectorState::Pausing { base, .. } => base + pointers_off(layout) <= usize::MAX,
        _ => true,
    }
    &&& match event {
        InjectorEvent::Module(Some(module)) => {
            module + layout.base_off + pointers_off(layout) <= usize::MAX
        },
        InjectorEvent::Pointers(block) => block@.len() == POINTERS_SIZE,
        _ => true,
    }
}

/// What follows `event` in `state`.
pub open spec fn next_step(
    layout: FriendLayout,
    friends: nat,
    state: InjectorState,
    event: InjectorEvent,
) -> (InjectorState, InjectorAction) {
    match (state, event) {
        (InjectorState::Idle, InjectorEvent::Begin) => {
            if friends == 0 {
                (InjectorState::Done, InjectorAction::Stop)
            } else {
                (InjectorState::Locating, InjectorAction::FindModule)
            }
        },
        (InjectorState::Locating, InjectorEvent::Module(Some(module))) => {
            let base = (module + layout.base_off) as usize;
            (InjectorState::Settling { base }, InjectorAction::Wait(SETTLE_MS))
        },
        (InjectorState::Settling { base }, InjectorEvent::Waited) => {
            (InjectorState::Reading { base, tries: 0 }, read_pointers(layout, base))
        },
        (InjectorState::Reading { base, tries }, InjectorEvent::Pointers(block)) => {
            if pointers_pending(block@) && tries < MAX_TRIES {
                (
                    InjectorState::Pausing { base, tries: (tries + 1) as u32 },
                    InjectorAction::Wait(POLL_MS),
                )
            } else {
                (
                    InjectorState::Writing { base },
                    InjectorAction::Write { at: base, len: FRIEND_TABLE_SIZE },
                )
            }
        },
        (InjectorState::Pausing { base, tries }, InjectorEvent::Waited) => {
            (InjectorState::Reading { base, tries }, read_pointers(layout, base))
        },
        _ => (InjectorState::Done, InjectorAction::Stop),
    }
}

/// Where the friend table lies when the client's library is loaded at `module`.
pub fn table_address(layout: &FriendLayout, module: usize) -> (res: usize)
    requires
        module + layout.base_off <= usize::MAX,
    ensures
        res == module + layout.base_off,
{
    module + layout.base_off
}

/// Decides what the injector does next, and in which state it then is. `friends` is the number of
/// friends to write: without any, the client is left alone. The injection also ends where the
/// client's library is not loaded, and with an event that the state does not wait for.
pub fn injector_step(
    layout: &FriendLayout,
    friends: usize,
    state: InjectorState,
    event: &InjectorEvent,
) -> (res: (InjectorState, InjectorAction))
    requires
        step_valid(*layout, state, *event),
    ensures
        res == next_step(*layout, friends as nat, state, *event),
{
    let hdr: usize = if layout.id0_off == 0x20 { 8 } else { 0 };
    match (state, event) {
        (InjectorState::Idle, InjectorEvent::Begin) => {
            if friends == 0 {
                (InjectorState::Done, InjectorAction::Stop)
            } else {
                (InjectorState::Locating, InjectorAction::FindModule)
            }
        },
        (InjectorState::Locating, InjectorEvent::Module(Some(module))) => {
            let base: usize = table_address(layout, *module);
            (InjectorState::Settling { base }, InjectorAction::Wait(SETTLE_MS))
        },
        (InjectorState::Settling { base }, InjectorEvent::Waited) => {
            (
                InjectorState::Reading { base, tries: 0 },
                InjectorAction::Read { at: base + hdr, len: POINTERS_SIZE },
            )
        },
        (InjectorState::Reading { base, tries }, InjectorEvent::Pointers(block)) => {
            if table_pending(block.as_slice()) && tries < MAX_TRIES {
                (InjectorState::Pausing { base, tries: tries + 1 }, InjectorAction::Wait(POLL_MS))
            } else {
                (
                    InjectorState::Writing { base },
                    InjectorAction::Write { at: base, len: FRIEND_TABLE_SIZE },
                )
            }
        },
        (InjectorState::Pausing { base, tries }, InjectorEvent::Waited) => {
            (
                InjectorState::Reading { base, tries },
                InjectorAction::Read { at: base + hdr, len: POINTERS_SIZE },
            )
        },
        _ => (InjectorState::Done, InjectorAction::Stop),
    }
}

/// The state of an injector that has looked at the table once for each of `looks`, and paused
/// after each look that called for it.
pub open spec fn after_looks(
    layout: FriendLayout,
    friends: nat,
    state: InjectorState,
    looks: Seq<Vec<u8>>,
) -> InjectorState
    decreases looks.len(),
{
    if looks.len() == 0 || !(state is Reading) {
        state
    } else {
        let looked = next_step(layout, friends, state, InjectorEvent::Pointers(looks[0])).0;
        let paused = if looked is Pausing {
            next_step(layout, friends, looked, InjectorEvent::Waited).0
        } else {
            looked
        };
        after_looks(layout, friends, paused, looks.drop_first())
    }
}

/// An injector that has found the client's library comes to write the table, whatever it sees
/// there: it looks once more than it may pause, and no more.
pub proof fn law_polling_ends(
    layout: FriendLayout,
    friends: nat,
    base: usize,
    tries: u32,
    looks: Seq<Vec<u8>>,
)
    requires
        tries <= MAX_TRIES,
        looks.len() + tries > MAX_TRIES,
    ensures
        after_looks(layout, friends, InjectorState::Reading { base, tries }, looks)
            == (InjectorState::Writing { base }),
    decreases looks.len(),
{
    let state = InjectorState::Reading { base, tries };
    let looked = next_step(layout, friends, state, InjectorEvent::Pointers(looks[0])).0;
    if looked is Pausing {
        law_polling_ends(layout, friends, base, (tries + 1) as u32, looks.drop_first());
    } else {
        reveal_with_fuel(after_looks, 2);
    }
}

/// The table that an injector is working on, if it has found one.
pub open spec fn table_of(state: InjectorState) -> Option<usize> {
    match state {
        InjectorState::Settling { base } => Some(base),
        InjectorState::Reading { base, .. } => Some(base),
        InjectorState::Pausing { base, .. } => Some(base),
        InjectorState::Writing { base } => Some(base),
        _ => None,
    }
}

/// The table that an injector works on is the friend table of the library that it was told of, and
/// it is the only memory that the injector writes to.
pub proof fn law_injector_writes_the_table(
    layout: FriendLayout,
    friends: nat,
    state: InjectorState,
    event: InjectorEvent,
)
    requires
        step_valid(layout, state, event),
    ensures
        ({
            let (next, action) = next_step(layout, friends, state, event);
            &&& table_of(next) matches Some(base) ==> {
                ||| table_of(state) == Some(base)
                ||| event matches InjectorEvent::Module(Some(module)) && base == module
                    + layout.base_off
            }
            &&& action matches InjectorAction::Write { at, len } ==> {
                &&& table_of(state) == Some(at)
                &&& len == FRIEND_TABLE_SIZE
                &&& next == (InjectorState::Writing { base: at })
            }
        }),
{
}

/// The state of an injector after `events`, from the start on.
pub open spec fn state_after(
    layout: FriendLayout,
    friends: nat,
    events: Seq<InjectorEvent>,
) -> InjectorState
    decreases events.len(),
{
    if events.len() == 0 {
        InjectorState::Idle
    } else {
        next_step(
            layout,
            friends,
            state_after(layout, friends, events.drop_last()),
            events.last(),
        ).0
    }
}

/// What an injector is asked for by the last of `events`, from the start on.
pub open spec fn action_after(
    layout: FriendLayout,
    friends: nat,
    events: Seq<InjectorEvent>,
) -> InjectorAction {
    next_step(layout, friends, state_after(layout, friends, events.drop_last()), events.last()).1
}

/// Whether an action reads or writes the memory of the client.
pub open spec fn touches_memory(action: InjectorAction) -> bool {
    action is Read || action is Write
}

/// Whether `events` begin with the library being found and the client then being given its time.
pub open spec fn settled(layout: FriendLayout, friends: nat, events: Seq<InjectorEvent>) -> bool {
    &&& friends > 0
    &&& events.len() >= 3
    &&& events[0] is Begin
    &&& events[1] matches InjectorEvent::Module(Some(_))
    &&& action_after(layout, friends, events.take(2)) == InjectorAction::Wait(SETTLE_MS)
    &&& events[2] is Waited
}

proof fn lemma_course(layout: FriendLayout, friends: nat, events: Seq<InjectorEvent>)
    ensures
        match state_after(layout, friends, events) {
            InjectorState::Idle => events.len() == 0,
            InjectorState::Locating => {
                &&& friends > 0
                &&& events.len() == 1
                &&& events[0] is Begin
            },
            InjectorState::Settling { .. } => {
                &&& friends > 0
                &&& events.len() == 2
                &&& events[0] is Begin
                &&& events[1] matches InjectorEvent::Module(Some(_))
                &&& action_after(layout, friends, events) == InjectorAction::Wait(SETTLE_MS)
            },
            InjectorState::Done => true,
            _ => settled(layout, friends, events),
        },
    decreases events.len(),
{
    if events.len() > 0 {
        let before = events.drop_last();
        lemma_course(layout, friends, before);
        if events.len() >= 3 {
            assert(before.take(2) =~= events.take(2));
            if events.len() == 3 {
                assert(before =~= events.take(2));
            }
        }
    }
}

/// The memory of the client is not touched before its library has been found and the client has
/// then been given its time: whatever happens, each look at the table, and each write to it, comes
/// after that wait.
pub proof fn law_injector_waits_first(
    layout: FriendLayout,
    friends: nat,
    events: Seq<InjectorEvent>,
)
    requires
        events.len() > 0,
        touches_memory(action_after(layout, friends, events)),
    ensures
        settled(layout, friends, events),
{
    lemma_course(layout, friends, events);
}

/// An injector with friends to write looks for the library, waits once it is found, and then looks
/// at the table.
pub proof fn law_injector_begins(layout: FriendLayout, friends: nat, module: usize)
    requires
        friends > 0,
        module + layout.base_off <= usize::MAX,
    ensures
        ({
            let base = (module + layout.base_off) as usize;
            let found = seq![InjectorEvent::Begin, InjectorEvent::Module(Some(module))];
            let waited = found.push(InjectorEvent::Waited);
            &&& action_after(layout, friends, seq![InjectorEvent::Begin])
                == InjectorAction::FindModule
            &&& state_after(layout, friends, found) == InjectorState::Settling { base }
            &&& action_after(layout, friends, found) == InjectorAction::Wait(SETTLE_MS)
            &&& state_after(layout, friends, waited) == InjectorState::Reading { base, tries: 0 }
            &&& action_after(layout, friends, waited) == read_pointers(layout, base)
        }),
{
    let begun = seq![InjectorEvent::Begin];
    let found = seq![InjectorEvent::Begin, InjectorEvent::Module(Some(module))];
    let waited = found.push(InjectorEvent::Waited);
    reveal_with_fuel(state_after, 2);
    assert(begun.drop_last() =~= seq![]);
    assert(found.drop_last() =~= begun);
    assert(waited.drop_last() =~= found);
}

/// An injector without friends to write leaves the client alone.
pub proof fn law_no_friends_no_injection(layout: FriendLayout)
    ensures
        next_step(layout, 0, InjectorState::Idle, InjectorEvent::Begin) == (
            InjectorState::Done,
            InjectorAction::Stop,
        ),
{
}

/// A valid step leaves an injector whose addresses can still be formed.
pub proof fn law_injector_stays_valid(
    layout: FriendLayout,
    friends: nat,
    state: InjectorState,
    event: InjectorEvent,
)
    requires
        step_valid(layout, state, event),
    ensures
        step_valid(layout, next_step(layout, friends, state, event).0, InjectorEvent::Waited),
{
}

/// How often an injector has paused.
pub open spec fn pauses(state: InjectorState) -> u32 {
    match state {
        InjectorState::Reading { tries, .. } | InjectorState::Pausing { tries, .. } => tries,
        _ => 0,
    }
}

/// Whatever happens, an injector does not pause more often than it may.
pub proof fn law_pauses_are_bounded(
    layout: FriendLayout,
    friends: nat,
    events: Seq<InjectorEvent>,
)
    ensures
        pauses(state_after(layout, friends, events)) <= MAX_TRIES,
    decreases events.len(),
{
    if events.len() > 0 {
        law_pauses_are_bounded(layout, friends, events.drop_last());
    }
}

/// The number of friends that the log shows.
pub const LOGGED_FRIENDS: usize = 5;

/// How many of `friends` friends the log shows: the first few.
pub fn logged_friends(friends: usize) -> (res: usize)
    ensures
        res == (if friends < LOGGED_FRIENDS { friends } else { LOGGED_FRIENDS }),
{
    if friends < LOGGED_FRIENDS {
        friends
    } else {
        LOGGED_FRIENDS
    }
}

/// How long the log says that the table was polled, in milliseconds, after `tries` pauses. The last
/// look counts like a pause where it still found the table `pending`.
pub fn polled_ms(tries: u32, pending: bool) -> (res: u64)
    ensures
        res == (if pending { (tries + 1) * POLL_MS } else { tries * POLL_MS }),
{
    if pending {
        (tries as u64 + 1) * POLL_MS
    } else {
        tries as u64 * POLL_MS
    }
}

/// An injector that looks at the table goes on polling while any of the eight little-endian words
/// that it has read is zero, and writes the table once all of them are set. After eight hundred
/// pauses it writes the table in any case.
pub proof fn law_polling_decides(
    layout: FriendLayout,
    friends: nat,
    base: usize,
    tries: u32,
    block: Vec<u8>,
)
    requires
        block@.len() == 32,
    ensures
        ({
            let word = |i: int|
                block@[4 * i] + 0x100 * block@[4 * i + 1] + 0x1_0000 * block@[4 * i + 2]
                    + 0x100_0000 * block@[4 * i + 3];
            let all_set = word(0) != 0 && word(1) != 0 && word(2) != 0 && word(3) != 0 && word(4)
                != 0 && word(5) != 0 && word(6) != 0 && word(7) != 0;
            let step = next_step(
                layout,
                friends,
                InjectorState::Reading { base, tries },
                InjectorEvent::Pointers(block),
            );
            let write = (
                InjectorState::Writing { base },
                InjectorAction::Write { at: base, len: 0x1000 },
            );
            let pause = (
                InjectorState::Pausing { base, tries: (tries + 1) as u32 },
                InjectorAction::Wait(10),
            );
            &&& tries < 800 && all_set ==> step == write
            &&& tries < 800 && !all_set ==> step == pause
            &&& tries >= 800 ==> step == write
            &&& pointers_pending(block@) <==> !all_set
        }),
{
    let b = block@;
    if pointers_pending(b) {
        let i = choose|i: int| 0 <= i < 8 && #[trigger] null_pointer_at(b, i);
        assert(i == 0 || i == 1 || i == 2 || i == 3 || i == 4 || i == 5 || i == 6 || i == 7);
    } else {
        assert(!null_pointer_at(b, 0) && !null_pointer_at(b, 1) && !null_pointer_at(b, 2)
            && !null_pointer_at(b, 3) && !null_pointer_at(b, 4) && !null_pointer_at(b, 5)
            && !null_pointer_at(b, 6) && !null_pointer_at(b, 7));
    }
}

/// An injector whose looks have all found the table unfinished is still looking, and has paused once
/// for each look.
pub proof fn law_polling_waits_for_the_table(
    layout: FriendLayout,
    friends: nat,
    base: usize,
    tries: u32,
    looks: Seq<Vec<u8>>,
)
    requires
        tries + looks.len() <= 800,
        forall|i: int| 0 <= i < looks.len() ==> pointers_pending((#[trigger] looks[i])@),
    ensures
        after_looks(layout, friends, InjectorState::Reading { base, tries }, looks)
            == (InjectorState::Reading { base, tries: (tries + looks.len()) as u32 }),
    decreases looks.len(),
{
    if looks.len() > 0 {
        assert(pointers_pending(looks[0]@));
        law_polling_waits_for_the_table(
            layout,
            friends,
            base,
            (tries + 1) as u32,
            looks.drop_first(),
        );
    }
}

/// What an injector does outside of its looks at the table. With friends to write it asks for the
/// library, waits two seconds once that is found, and then looks at the eight pointers at the start
/// of the table, behind the header where the layout has one. After a pause it looks again.
pub proof fn law_injector_course(
    layout: FriendLayout,
    friends: nat,
    module: usize,
    base: usize,
    tries: u32,
)
    requires
        module + layout.base_off <= usize::MAX,
        base + 8 <= usize::MAX,
    ensures
        ({
            let look = InjectorAction::Read {
                at: (base + (if layout.id0_off == 0x20 { 8int } else { 0 })) as usize,
                len: 32,
            };
            let table = (module + layout.base_off) as usize;
            &&& friends > 0 ==> next_step(
                layout,
                friends,
                InjectorState::Idle,
                InjectorEvent::Begin,
            ) == (InjectorState::Locating, InjectorAction::FindModule)
            &&& friends == 0 ==> next_step(
                layout,
                friends,
                InjectorState::Idle,
                InjectorEvent::Begin,
            ) == (InjectorState::Done, InjectorAction::Stop)
            &&& next_step(
                layout,
                friends,
                InjectorState::Locating,
                InjectorEvent::Module(Some(module)),
            ) == (InjectorState::Settling { base: table }, InjectorAction::Wait(2000))
            &&& next_step(
                layout,
                friends,
                InjectorState::Locating,
                InjectorEvent::Module(None),
            ) == (InjectorState::Done, InjectorAction::Stop)
            &&& next_step(
                layout,
                friends,
                InjectorState::Settling { base },
                InjectorEvent::Waited,
            ) == (InjectorState::Reading { base, tries: 0 }, look)
            &&& next_step(
                layout,
                friends,
                InjectorState::Pausing { base, tries },
                InjectorEvent::Waited,
            ) == (InjectorState::Reading { base, tries }, look)
            &&& next_step(
                layout,
                friends,
                InjectorState::Writing { base },
                InjectorEvent::Written,
            ) == (InjectorState::Done, InjectorAction::Stop)
        }),
{
}

/// An event that the state does not wait for ends the injection.
pub proof fn law_unexpected_event_ends(
    layout: FriendLayout,
    friends: nat,
    state: InjectorState,
    event: InjectorEvent,
)
    requires
        !(state is Idle && event is Begin),
        !(state is Locating && event is Module),
        !(state is Settling && event is Waited),
        !(state is Reading && event is Pointers),
        !(state is Pausing && event is Waited),
    ensures
        next_step(layout, friends, state, event) == (InjectorState::Done, InjectorAction::Stop),
{
}

/// A step can be made wherever the addresses that it speaks of exist and the pointers were read in
/// full.
pub proof fn law_step_valid(layout: FriendLayout, state: InjectorState, event: InjectorEvent)
    ensures
        step_valid(layout, state, event) <==> {
            let header = if layout.id0_off == 0x20 { 8int } else { 0 };
            &&& state matches InjectorState::Settling { base } ==> base + header <= usize::MAX
            &&& state matches InjectorState::Reading { base, tries } ==> base + header
                <= usize::MAX
            &&& state matches InjectorState::Pausing { base, tries } ==> base + header
                <= usize::MAX
            &&& event matches InjectorEvent::Module(Some(module)) ==> module + layout.base_off
                + header <= usize::MAX
            &&& event matches InjectorEvent::Pointers(block) ==> block@.len() == 32
        },
{
}

/// The client is still filling the pointers exactly where one of the eight little-endian words is
/// zero.
pub proof fn law_table_pending(block: &[u8], res: bool)
    requires
        block@.len() == 32,
        call_ensures(table_pending, (block,), res),
    ensures
        ({
            let word = |i: int|
                block@[4 * i] + 0x100 * block@[4 * i + 1] + 0x1_0000 * block@[4 * i + 2]
                    + 0x100_0000 * block@[4 * i + 3];
            res <==> word(0) == 0 || word(1) == 0 || word(2) == 0 || word(3) == 0 || word(4) == 0
                || word(5) == 0 || word(6) == 0 || word(7) == 0
        }),
{
    let b = block@;
    if pointers_pending(b) {
        let i = choose|i: int| 0 <= i < 8 && #[trigger] null_pointer_at(b, i);
        assert(i == 0 || i == 1 || i == 2 || i == 3 || i == 4 || i == 5 || i == 6 || i == 7);
    } else {
        assert(!null_pointer_at(b, 0) && !null_pointer_at(b, 1) && !null_pointer_at(b, 2)
            && !null_pointer_at(b, 3) && !null_pointer_at(b, 4) && !null_pointer_at(b, 5)
            && !null_pointer_at(b, 6) && !null_pointer_at(b, 7));
    }
}

/// A step of an injector that looks at the table: below eight hundred pauses it has the table written
/// if and only if each of the eight words is set, and else pauses once more.
pub proof fn law_look_step(
    layout: &FriendLayout,
    friends: usize,
    base: usize,
    tries: u32,
    block: Vec<u8>,
    res: (InjectorState, InjectorAction),
)
    requires
        block@.len() == 32,
        call_ensures(
            injector_step,
            (
                layout,
                friends,
                InjectorState::Reading { base, tries },
                &InjectorEvent::Pointers(block),
            ),
            res,
        ),
    ensures
        ({
            let word = |i: int|
                block@[4 * i] + 0x100 * block@[4 * i + 1] + 0x1_0000 * block@[4 * i + 2]
                    + 0x100_0000 * block@[4 * i + 3];
            let all_set = word(0) != 0 && word(1) != 0 && word(2) != 0 && word(3) != 0 && word(4)
                != 0 && word(5) != 0 && word(6) != 0 && word(7) != 0;
            &&& all_set || tries >= 800 ==> res == (
                InjectorState::Writing { base },
                InjectorAction::Write { at: base, len: 0x1000 },
            )
            &&& !all_set && tries < 800 ==> res == (
                InjectorState::Pausing { base, tries: (tries + 1) as u32 },
                InjectorAction::Wait(10),
            )
        }),
{
    law_polling_decides(*layout, friends as nat, base, tries, block);
}

/// What a step of an injector comes to is what the laws on its course say.
pub proof fn law_injector_step(
    layout: &FriendLayout,
    friends: usize,
    state: InjectorState,
    event: &InjectorEvent,
    res: (InjectorState, InjectorAction),
)
    requires
        call_ensures(injector_step, (layout, friends, state, event), res),
    ensures
        res == next_step(*layout, friends as nat, state, *event),
{
}

/// The table lies behind the start of the library, as far as the layout says.
pub proof fn law_table_address(layout: &FriendLayout, module: usize, res: usize)
    requires
        call_ensures(table_address, (layout, module), res),
    ensures
        res - module == layout.base_off,
{
}

/// The log shows every friend of up to five, and five of more.
pub proof fn law_logged_friends(friends: usize, res: usize)
    requires
        call_ensures(logged_friends, (friends,), res),
    ensures
        friends <= 5 ==> res == friends,
        friends > 5 ==> res == 5,
{
}

/// Each pause adds ten milliseconds to what the log shows, from none on, and so does a last look that
/// still found the table unfinished.
pub proof fn law_polled_ms(tries: u32, pending: bool, x: u64, y: u64, z: u64)
    requires
        tries < u32::MAX,
        call_ensures(polled_ms, (tries, pending), x),
        call_ensures(polled_ms, ((tries + 1) as u32, pending), y),
        call_ensures(polled_ms, (tries, false), z),
    ensures
        y == x + 10,
        pending ==> x == z + 10,
        tries == 0 ==> z == 0,
        z == 10 * tries,
{
}

} // verus!
