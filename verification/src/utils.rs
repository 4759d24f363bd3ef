//! Buffers and mutexes of the client.
use crate::bytes;
use crate::config::Error;
use crate::text;
use crate::text::{decimal_string, str_from_utf8, trim_end_nul};
use vstd::prelude::*;
use vstd::string::*;
use vstd::utf8::*;

verus! {

/// The sequence `s` with its leading elements replaced by those of `v`, as far as both reach.
pub open spec fn overlay<T>(s: Seq<T>, v: Seq<T>) -> Seq<T> {
    Seq::new(s.len(), |i: int| if i < v.len() { v[i] } else { s[i] })
}

/// Copies the elements of `v` to the front of `s`. What does not fit in `s` is dropped, and what
/// `v` does not reach is left as it was.
pub fn bufcopy<T: Copy>(s: &mut [T], v: &[T])
    ensures
        final(s)@ == overlay(old(s)@, v@),
        final(s)@.len() == old(s)@.len(),
        forall|i: int|
            0 <= i < old(s)@.len() ==> #[trigger] final(s)@[i] == (if i < v@.len() {
                v@[i]
            } else {
                old(s)@[i]
            }),
{
    let l: usize = if s.len() < v.len() { s.len() } else { v.len() };
    let mut i: usize = 0;
    while i < l
        invariant
            i <= l,
            l <= v@.len(),
            l == old(s)@.len() || l == v@.len(),
            s@.len() == old(s)@.len(),
            l <= s@.len(),
            forall|j: int| 0 <= j < i ==> s@[j] == v@[j],
            forall|j: int| i <= j < s@.len() ==> s@[j] == old(s)@[j],
        decreases l - i,
    {
        s[i] = v[i];
        i = i + 1;
    }
    assert(s@ =~= overlay(old(s)@, v@));
}

/// Copying keeps the length of the buffer, and copying the same again changes nothing.
pub proof fn law_bufcopy_repeats<T>(s: Seq<T>, v: Seq<T>)
    ensures
        overlay(s, v).len() == s.len(),
        overlay(overlay(s, v), v) == overlay(s, v),
{
    assert(overlay(overlay(s, v), v) =~= overlay(s, v));
}

/// The name of one of the client's mutexes in the process `pid`.
pub open spec fn mutex_name(s: Seq<char>, pid: u32) -> Seq<char> {
    "Monster Hunter Frontier Z "@ + s + " "@ + text::decimal(pid as nat)
}

/// The name of the client's mutex `s` in the process `pid`.
pub fn get_mutex_name(s: &str, pid: u32) -> (res: String)
    ensures
        res@ == mutex_name(s@, pid),
{
    let mut name: String = "Monster Hunter Frontier Z ".to_owned();
    name.append(s);
    name.append(" ");
    name.append(decimal_string(pid).as_str());
    name
}

/// Two mutexes of one process share a name only where they are the same.
pub proof fn law_mutex_names_unique(a: Seq<char>, b: Seq<char>, pid: u32)
    requires
        mutex_name(a, pid) == mutex_name(b, pid),
    ensures
        a == b,
{
    let head = "Monster Hunter Frontier Z "@;
    let tail = " "@ + text::decimal(pid as nat);
    let name = mutex_name(a, pid);
    assert(name =~= head + a + tail);
    assert(name =~= head + b + tail);
    assert(name.len() == head.len() + a.len() + tail.len());
    assert(name.len() == head.len() + b.len() + tail.len());
    assert(a =~= name.subrange(head.len() as int, (head.len() + a.len()) as int));
    assert(b =~= name.subrange(head.len() as int, (head.len() + b.len()) as int));
}

/// The name that the raw bytes of a mutex's name stand for, if they are text: NULs at its end do
/// not count.
pub open spec fn raw_mutex_name(raw: Seq<u8>, pid: u32) -> Option<Seq<char>> {
    if valid_utf8(raw) {
        Some(mutex_name(text::trim_nul(decode_utf8(raw)), pid))
    } else {
        None
    }
}

fn full_mutex_name(raw: &[u8], pid: u32) -> (res: Result<String, Error>)
    ensures
        match res {
            Ok(name) => raw_mutex_name(raw@, pid) == Some(name@),
            Err(e) => e == Error::Mutex && raw_mutex_name(raw@, pid) is None,
        },
{
    match str_from_utf8(raw) {
        Some(s) => {
            proof {
                encode_utf8_decode_utf8(s@);
            }
            Ok(get_mutex_name(trim_end_nul(s), pid))
        },
        None => Err(Error::Mutex),
    }
}

/// The full names of the client's two mutexes in the process `pid`, from their raw names.
pub fn mutex_names(master_name: &[u8], ready_name: &[u8], pid: u32) -> (res: Result<
    (String, String),
    Error,
>)
    ensures
        match res {
            Ok((master, ready)) => {
                &&& raw_mutex_name(master_name@, pid) == Some(master@)
                &&& raw_mutex_name(ready_name@, pid) == Some(ready@)
            },
            Err(e) => {
                &&& e == Error::Mutex
                &&& raw_mutex_name(master_name@, pid) is None || raw_mutex_name(
                    ready_name@,
                    pid,
                ) is None
            },
        },
{
    let master: String = match full_mutex_name(master_name, pid) {
        Ok(name) => name,
        Err(e) => {
            return Err(e);
        },
    };
    let ready: String = match full_mutex_name(ready_name, pid) {
        Ok(name) => name,
        Err(e) => {
            return Err(e);
        },
    };
    Ok((master, ready))
}

/// The mutex to use: the one that could be opened, or else the one that was then created.
pub open spec fn chosen_mutex<H>(opened: Option<H>, created: Option<H>) -> Result<H, Error> {
    match (opened, created) {
        (Some(handle), _) => Ok(handle),
        (None, Some(handle)) => Ok(handle),
        (None, None) => Err(Error::Mutex),
    }
}

/// The mutex to use: the one that could be opened, or else the one that was then created.
pub fn get_or_create_mutex<H>(opened: Option<H>, created: Option<H>) -> (res: Result<H, Error>)
    ensures
        res == chosen_mutex(opened, created),
{
    match opened {
        Some(handle) => Ok(handle),
        None => match created {
            Some(handle) => Ok(handle),
            None => Err(Error::Mutex),
        },
    }
}

/// A way to get hold of a mutex.
#[derive(Clone, Copy, Debug, PartialEq, Eq, Structural)]
pub enum MutexAction {
    Open,
    Create,
}

/// What to do about a mutex after an attempt to get hold of it.
#[derive(Clone, Copy, Debug, PartialEq, Eq, Structural)]
pub enum MutexNext {
    /// Use the mutex that was got hold of.
    Use,
    Create,
    Fail,
}

/// What comes after an attempt to get hold of a mutex.
pub open spec fn next_for_mutex(action: MutexAction, succeeded: bool) -> MutexNext {
    match (action, succeeded) {
        (MutexAction::Open, true) => MutexNext::Use,
        (MutexAction::Open, false) => MutexNext::Create,
        (MutexAction::Create, true) => MutexNext::Use,
        (MutexAction::Create, false) => MutexNext::Fail,
    }
}

/// Decides what comes after an attempt to get hold of a mutex: it is created only where it could
/// not be opened.
pub fn mutex_step(action: MutexAction, succeeded: bool) -> (res: MutexNext)
    ensures
        res == next_for_mutex(action, succeeded),
{
    if succeeded {
        MutexNext::Use
    } else {
        match action {
            MutexAction::Open => MutexNext::Create,
            MutexAction::Create => MutexNext::Fail,
        }
    }
}

/// Trying to open a mutex, and then to create it where the steps ask for that, ends with the mutex
/// that is chosen, or fails where none is.
pub proof fn law_mutex_steps<H>(opened: Option<H>, created: Option<H>)
    ensures
        ({
            let first = next_for_mutex(MutexAction::Open, opened is Some);
            let last = if first == MutexNext::Create {
                next_for_mutex(MutexAction::Create, created is Some)
            } else {
                first
            };
            &&& first == MutexNext::Create <==> opened is None
            &&& first == MutexNext::Use ==> chosen_mutex(opened, created) == Ok::<H, Error>(
                opened.unwrap(),
            )
            &&& first == MutexNext::Create && last == MutexNext::Use ==> chosen_mutex(
                opened,
                created,
            ) == Ok::<H, Error>(created.unwrap())
            &&& last == MutexNext::Use <==> chosen_mutex(opened, created) is Ok
            &&& last == MutexNext::Fail <==> chosen_mutex(opened, created) is Err
        }),
{
}

/// Which of the client's two mutexes is to be got hold of.
#[derive(Clone, Copy, Debug, PartialEq, Eq, Structural)]
pub enum MutexPhase {
    Master,
    Ready,
    /// Both are held.
    Held,
}

/// Decides what comes after one of the client's mutexes was got hold of, or was not. The master
/// comes first, and without it the other one is not tried.
pub fn mutexes_step(phase: MutexPhase, succeeded: bool) -> (res: Result<MutexPhase, Error>)
    ensures
        res == (match (phase, succeeded) {
            (MutexPhase::Master, true) => Ok(MutexPhase::Ready),
            (MutexPhase::Ready, true) => Ok(MutexPhase::Held),
            (MutexPhase::Held, _) => Ok(MutexPhase::Held),
            (_, false) => Err(Error::Mutex),
        }),
{
    match phase {
        MutexPhase::Master => {
            if succeeded {
                Ok(MutexPhase::Ready)
            } else {
                Err(Error::Mutex)
            }
        },
        MutexPhase::Ready => {
            if succeeded {
                Ok(MutexPhase::Held)
            } else {
                Err(Error::Mutex)
            }
        },
        MutexPhase::Held => Ok(MutexPhase::Held),
    }
}

/// Copying into a buffer replaces each element that both reach by the one that is copied, and leaves
/// each other element alone.
pub proof fn law_bufcopy_elements<T>(s: Seq<T>, v: Seq<T>, i: int)
    requires
        0 <= i < s.len(),
    ensures
        overlay(s, v).len() == s.len(),
        i < v.len() ==> overlay(s, v)[i] == v[i],
        i >= v.len() ==> overlay(s, v)[i] == s[i],
{
}

/// The name of a mutex is a fixed beginning, the client's own name for it, a space, and the number
/// of the process in decimal digits that spell it.
pub proof fn law_mutex_name_spelled(s: Seq<char>, pid: u32)
    ensures
        ({
            let name = mutex_name(s, pid);
            let digits = name.skip(27 + s.len() as int);
            &&& name.len() > 27 + s.len()
            &&& name.take(26) == "Monster Hunter Frontier Z "@
            &&& name.subrange(26, 26 + s.len() as int) == s
            &&& name[26 + s.len() as int] == ' '
            &&& forall|i: int| 0 <= i < digits.len() ==> '0' <= #[trigger] digits[i] <= '9'
            &&& digits.len() > 1 ==> digits[0] != '0'
            &&& digits.fold_left(0int, |v: int, c: char| 10 * v + (c as int - '0' as int)) == pid
        }),
{
    reveal_strlit("Monster Hunter Frontier Z ");
    reveal_strlit(" ");
    let name = mutex_name(s, pid);
    text::law_decimal_spelled(pid as nat);
    assert(name.skip(27 + s.len() as int) =~= text::decimal(pid as nat));
    assert(name.take(26) =~= "Monster Hunter Frontier Z "@);
    assert(name.subrange(26, 26 + s.len() as int) =~= s);
}

/// The same mutex has another name in another process.
pub proof fn law_mutex_names_tell_processes_apart(s: Seq<char>, p: u32, q: u32)
    requires
        mutex_name(s, p) == mutex_name(s, q),
    ensures
        p == q,
{
    law_mutex_name_spelled(s, p);
    law_mutex_name_spelled(s, q);
}

/// A raw name that is text stands for that text without the NULs at its end, however many there
/// are, and a raw name that is no text stands for nothing.
pub proof fn law_raw_mutex_name(raw: Seq<u8>, s: Seq<char>, n: nat, pid: u32)
    requires
        s.len() > 0 ==> s[s.len() - 1] != '\0',
    ensures
        raw_mutex_name(encode_utf8(s) + Seq::new(n, |i: int| 0u8), pid) == Some(mutex_name(s, pid)),
        raw_mutex_name(raw, pid) is None <==> !valid_utf8(raw),
{
    encode_utf8_valid_utf8(s);
    encode_utf8_decode_utf8(s);
    text::law_trailing_nuls_ignored(encode_utf8(s), n);
    assert(bytes::zeros(n) =~= Seq::new(n, |i: int| 0u8));
    text::law_trim_takes_only_nuls(s);
    assert(text::trim_nul(s) =~= s);
}

/// An opened mutex is always the one to use, a created one is used where none was opened, and it
/// takes the lack of both to fail.
pub proof fn law_mutex_choice<H>(opened: Option<H>, created: Option<H>)
    ensures
        opened is Some ==> chosen_mutex(opened, created) == Ok::<H, Error>(opened.unwrap()),
        opened is None && created is Some ==> chosen_mutex(opened, created) == Ok::<H, Error>(
            created.unwrap(),
        ),
        opened is None && created is None ==> chosen_mutex(opened, created) == Err::<H, Error>(
            Error::Mutex,
        ),
{
}

/// Both raw names have to be text. They are then spelled out in full, each for itself.
pub proof fn law_mutex_names(
    master_name: &[u8],
    ready_name: &[u8],
    pid: u32,
    res: Result<(String, String), Error>,
)
    requires
        call_ensures(mutex_names, (master_name, ready_name, pid), res),
    ensures
        res is Ok <==> valid_utf8(master_name@) && valid_utf8(ready_name@),
        res matches Ok((master, ready)) ==> {
            &&& raw_mutex_name(master_name@, pid) == Some(master@)
            &&& raw_mutex_name(ready_name@, pid) == Some(ready@)
        },
        res matches Err(e) ==> e == Error::Mutex,
{
}

/// The name that is made for a mutex is the one that the laws on names speak of.
pub proof fn law_get_mutex_name(s: &str, pid: u32, res: String)
    requires
        call_ensures(get_mutex_name, (s, pid), res),
    ensures
        res@ == mutex_name(s@, pid),
{
}

/// The mutex that is used is the one that the law on the choice speaks of.
pub proof fn law_get_or_create_mutex<H>(
    opened: Option<H>,
    created: Option<H>,
    res: Result<H, Error>,
)
    requires
        call_ensures(get_or_create_mutex::<H>, (opened, created), res),
    ensures
        res == chosen_mutex(opened, created),
{
}

/// A mutex that was got hold of is used. One that could not be opened is created, and it takes a
/// failure of that too to give it up.
pub proof fn law_mutex_step(action: MutexAction, succeeded: bool, res: MutexNext)
    requires
        call_ensures(mutex_step, (action, succeeded), res),
    ensures
        res == MutexNext::Use <==> succeeded,
        res == MutexNext::Create <==> action == MutexAction::Open && !succeeded,
        res == MutexNext::Fail <==> action == MutexAction::Create && !succeeded,
{
}

/// The other mutex is tried only once the master is held, both are held only once that one is too,
/// and either failure ends the matter.
pub proof fn law_mutexes_step(
    phase: MutexPhase,
    succeeded: bool,
    res: Result<MutexPhase, Error>,
)
    requires
        call_ensures(mutexes_step, (phase, succeeded), res),
    ensures
        res == Ok::<MutexPhase, Error>(MutexPhase::Ready) <==> phase == MutexPhase::Master
            && succeeded,
        res == Ok::<MutexPhase, Error>(MutexPhase::Held) <==> phase == MutexPhase::Held || (phase
            == MutexPhase::Ready && succeeded),
        res == Err::<MutexPhase, Error>(Error::Mutex) <==> phase != MutexPhase::Held && !succeeded,
{
}

} // verus!
