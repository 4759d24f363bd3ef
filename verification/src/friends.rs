//! The friend table of the client, and how friends are written into it.
use crate::bytes;
use crate::bytes::{clear_at, u32_le, write_at};
use crate::config::FriendData;
use crate::text;
use crate::text::ascii_string;
use vstd::arithmetic::div_mod::*;
use vstd::prelude::*;
use vstd::utf8::*;

verus! {

/// The digits of an external ID: no `0`, `I`, `O` or `S`.
pub const BASE32_CHARS: [char; 32] = [
    '1', '2', '3', '4', '5', '6', '7', '8', '9', 'A', 'B', 'C', 'D', 'E', 'F', 'G', 'H', 'J', 'K',
    'L', 'M', 'N', 'P', 'Q', 'R', 'T', 'U', 'V', 'W', 'X', 'Y', 'Z',
];

/// The number of IDs that six base-32 digits can tell apart.
pub const BASE32_CAP: u32 = 0x4000_0000;

/// `id` written with `n` base-32 digits, the least significant first.
pub open spec fn base32(id: nat, n: nat) -> Seq<char>
    decreases n,
{
    if n == 0 {
        seq![]
    } else {
        seq![BASE32_CHARS@[(id % 32) as int]] + base32(id / 32, (n - 1) as nat)
    }
}

/// The external ID of the character `id`: its six low base-32 digits, the least significant first.
pub open spec fn ext_id(id: u32) -> Seq<char> {
    base32(id as nat, 6)
}

proof fn lemma_base32_len(id: nat, n: nat)
    ensures
        base32(id, n).len() == n,
    decreases n,
{
    if n > 0 {
        lemma_base32_len(id / 32, (n - 1) as nat);
    }
}

proof fn lemma_base32_ascii(id: nat, n: nat)
    ensures
        is_ascii_chars(base32(id, n)),
    decreases n,
{
    if n > 0 {
        lemma_base32_ascii(id / 32, (n - 1) as nat);
    }
}

proof fn lemma_base32_zero(n: nat)
    ensures
        base32(0, n) == Seq::new(n, |i: int| '1'),
    decreases n,
{
    if n > 0 {
        lemma_base32_zero((n - 1) as nat);
    }
    assert(base32(0, n) =~= Seq::new(n, |i: int| '1'));
}

/// The external ID of the character `id`, as the client shows it.
pub fn make_ext_id(id: u32) -> (res: String)
    ensures
        res@ == ext_id(id),
{
    let mut out: [u8; 6] = ['1' as u8; 6];
    let mut rest: u32 = id;
    let mut i: usize = 0;
    let ghost full = ext_id(id);
    assert(text::ascii_chars(out@.subrange(0, 0)) + base32(rest as nat, 6) =~= full);
    while i < 6
        invariant_except_break
            i <= 6,
            full == text::ascii_chars(out@.subrange(0, i as int)) + base32(rest as nat, (6 - i) as nat),
        invariant
            forall|j: int| 0 <= j < 6 ==> out@[j] < 0x80,
            forall|j: int| i <= j < 6 ==> out@[j] == 0x31,
        ensures
            full == text::ascii_chars(out@),
        decreases 6 - i,
    {
        let ghost before = out@;
        out[i] = BASE32_CHARS[(rest % 32) as usize] as u8;
        proof {
            assert(text::ascii_chars(out@.subrange(0, i + 1)) =~= text::ascii_chars(
                before.subrange(0, i as int),
            ) + seq![BASE32_CHARS@[(rest % 32) as int]]);
            assert(full =~= text::ascii_chars(out@.subrange(0, i + 1)) + base32(
                (rest / 32) as nat,
                (5 - i) as nat,
            ));
        }
        rest = rest / 32;
        i = i + 1;
        if rest == 0 {
            proof {
                lemma_base32_zero((6 - i) as nat);
                assert(full =~= text::ascii_chars(out@));
            }
            break;
        }
        assert(i == 6 ==> full =~= text::ascii_chars(out@));
    }
    ascii_string(&out)
}

/// The size of the whole friend table.
pub const FRIEND_TABLE_SIZE: usize = 0x1000;

/// The distance from the start of one friend entry to the next.
pub const FRIEND_ENTRY_SIZE: usize = 0x30;

/// The number of friends that the client has room for.
pub const MAX_FRIENDS: usize = 50;

/// How much further each entry's text lies into the entry than in the entry before.
pub const LEAD_STEP: usize = 4;

/// The number of entries that a list of `friends` friends fills in a table of `len` bytes.
pub open spec fn slot_count(friends: nat, len: nat) -> nat {
    let room = len / FRIEND_ENTRY_SIZE as nat;
    let wanted = if friends < MAX_FRIENDS { friends } else { MAX_FRIENDS as nat };
    if wanted < room { wanted } else { room }
}

/// The size of the header before the text of an entry. Only the layout whose numeric IDs start at
/// 0x20 has one.
pub open spec fn header_size(id0_off: nat) -> nat {
    if id0_off == 0x20 { 8 } else { 0 }
}

/// Where the text of entry `i` starts.
pub open spec fn slot_start(id0_off: nat, i: nat) -> nat {
    header_size(id0_off) + 0x30 * i + 4 * i
}

/// Whether every entry that is filled lies inside the table.
pub open spec fn table_fits(id0_off: nat, friends: nat, len: nat) -> bool {
    let slots = slot_count(friends, len);
    slots == 0 || slot_start(id0_off, (slots - 1) as nat) + id0_off + 4 <= len
}

/// What an entry holds: the external ID and the name, both in a zone of `id0_off` bytes that ends
/// in a NUL, and then the numeric ID. Two NULs stand between the external ID and the name.
pub open spec fn slot_bytes(id0_off: nat, f: FriendData) -> Seq<u8> {
    let name = encode_utf8(f.name@);
    Seq::new(
        id0_off,
        |j: int|
            if j < 6 {
                ext_id(f.id)[j] as u8
            } else if 8 <= j < id0_off - 1 && j - 8 < name.len() {
                name[j - 8]
            } else {
                0
            },
    ) + bytes::le32(f.id)
}

/// The table after the friend `f` has been written to entry `i`. An entry with a header, other
/// than the first, also has its two status bytes set.
pub open spec fn write_slot(buf: Seq<u8>, id0_off: nat, i: nat, f: FriendData) -> Seq<u8> {
    let base = 0x30 * i;
    let marked = if header_size(id0_off) != 0 && i != 0 {
        bytes::splice(buf, base as int + 3, seq![1u8, 1u8])
    } else {
        buf
    };
    bytes::splice(marked, slot_start(id0_off, i) as int, slot_bytes(id0_off, f))
}

/// The table after the first `n` friends have been written to the first `n` entries, in order.
pub open spec fn write_slots(buf: Seq<u8>, id0_off: nat, friends: Seq<FriendData>, n: nat) -> Seq<u8>
    decreases n,
{
    if n == 0 {
        buf
    } else {
        write_slot(
            write_slots(buf, id0_off, friends, (n - 1) as nat),
            id0_off,
            (n - 1) as nat,
            friends[n - 1],
        )
    }
}

proof fn lemma_write_slots_len(buf: Seq<u8>, id0_off: nat, friends: Seq<FriendData>, n: nat)
    ensures
        write_slots(buf, id0_off, friends, n).len() == buf.len(),
    decreases n,
{
    if n > 0 {
        lemma_write_slots_len(buf, id0_off, friends, (n - 1) as nat);
    }
}

/// The text zone and the numeric ID of an entry, put together from cleared bytes piece by piece.
proof fn lemma_slot_pieces(id0_off: nat, f: FriendData, ext: Seq<u8>, name: Seq<u8>)
    requires
        ext == encode_utf8(ext_id(f.id)).take(if id0_off < 6 { id0_off as int } else { 6 }),
        name == encode_utf8(f.name@),
    ensures
        encode_utf8(ext_id(f.id)).len() == 6,
        ({
            let start = bytes::splice(bytes::zeros(id0_off + 4), 0, ext);
            let room = id0_off - 9;
            let m = if name.len() < room { name.len() as int } else { room };
            let named = if id0_off > 8 { bytes::splice(start, 8, name.take(m)) } else { start };
            bytes::splice(named, id0_off as int, bytes::le32(f.id)) == slot_bytes(id0_off, f)
        }),
{
    lemma_base32_len(f.id as nat, 6);
    lemma_base32_ascii(f.id as nat, 6);
    is_ascii_chars_encode_utf8(ext_id(f.id));
    let start = bytes::splice(bytes::zeros(id0_off + 4), 0, ext);
    let room = id0_off - 9;
    let m = if name.len() < room { name.len() as int } else { room };
    let named = if id0_off > 8 { bytes::splice(start, 8, name.take(m)) } else { start };
    assert(bytes::splice(named, id0_off as int, bytes::le32(f.id)) =~= slot_bytes(id0_off, f));
}

/// Writes the friend `f` to entry `i` of the table `buf`.
fn inject_slot(buf: &mut [u8], id0_off: usize, i: usize, f: &FriendData)
    requires
        i < MAX_FRIENDS,
        0x30 * (i + 1) <= old(buf)@.len(),
        slot_start(id0_off as nat, i as nat) + id0_off + 4 <= old(buf)@.len(),
    ensures
        final(buf)@ == write_slot(old(buf)@, id0_off as nat, i as nat, *f),
{
    let len: usize = buf.len();  // so that positions in `buf` are known to fit in `usize`
    let header_sz: usize = if id0_off == 0x20 { 0x08 } else { 0x00 };
    let base: usize = i * FRIEND_ENTRY_SIZE;
    let start: usize = base + header_sz + i * LEAD_STEP;
    let ghost g = start as int;

    if header_sz != 0 && i != 0 {
        write_at(buf, base + 3, &[0x01u8, 0x01u8]);
        assert([0x01u8, 0x01u8]@ =~= seq![1u8, 1u8]);
    }
    let ghost marked = buf@;
    clear_at(buf, start, id0_off + 4);

    let ext: String = make_ext_id(f.id);
    let ext_bytes: &[u8] = ext.as_str().as_bytes();
    let name: &[u8] = f.name.as_str().as_bytes();
    let n: usize = if id0_off < 6 { id0_off } else { 6 };
    let ghost short = ext_bytes@.take(n as int);
    proof {
        lemma_slot_pieces(id0_off as nat, *f, short, name@);
    }
    write_at(buf, start, &ext_bytes[0..n]);
    let ghost z1 = bytes::splice(bytes::zeros((id0_off + 4) as nat), 0, short);
    proof {
        bytes::lemma_splice_inside(marked, g, bytes::zeros((id0_off + 4) as nat), 0, short);
    }
    let ghost mut z2 = z1;
    if id0_off > 8 {
        let room: usize = id0_off - 9;
        let m: usize = if name.len() < room { name.len() } else { room };
        write_at(buf, start + 8, &name[0..m]);
        proof {
            bytes::lemma_splice_inside(marked, g, z1, 8, name@.take(m as int));
            z2 = bytes::splice(z1, 8, name@.take(m as int));
        }
    }
    let id_bytes: [u8; 4] = u32_le(f.id);
    write_at(buf, start + id0_off, &id_bytes);
    proof {
        bytes::lemma_splice_inside(marked, g, z2, id0_off as int, bytes::le32(f.id));
    }
}

/// Writes `friends` into the friend table `buf`, one per entry from the first on, as many as the
/// client and the table have room for. `id0_off` is where the numeric ID lies in the first entry.
pub fn inject_blob(buf: &mut [u8], id0_off: usize, friends: &[FriendData])
    requires
        table_fits(id0_off as nat, friends@.len(), old(buf)@.len()),
    ensures
        final(buf)@.len() == old(buf)@.len(),
        final(buf)@ == write_slots(
            old(buf)@,
            id0_off as nat,
            friends@,
            slot_count(friends@.len(), old(buf)@.len()),
        ),
{
    let ghost before = buf@;
    let room: usize = buf.len() / FRIEND_ENTRY_SIZE;
    let wanted: usize = if friends.len() < MAX_FRIENDS { friends.len() } else { MAX_FRIENDS };
    let slots: usize = if wanted < room { wanted } else { room };
    let mut i: usize = 0;
    while i < slots
        invariant
            i <= slots,
            slots == slot_count(friends@.len(), before.len()),
            slots <= friends@.len(),
            slots <= MAX_FRIENDS,
            0x30 * slots <= before.len(),
            table_fits(id0_off as nat, friends@.len(), before.len()),
            buf@.len() == before.len(),
            buf@ == write_slots(before, id0_off as nat, friends@, i as nat),
        decreases slots - i,
    {
        inject_slot(buf, id0_off, i, &friends[i]);
        i = i + 1;
        proof {
            lemma_write_slots_len(before, id0_off as nat, friends@, i as nat);
        }
    }
}

/// The friends in `friends` of the character `char_id`, in their order.
pub open spec fn own_friends(friends: Seq<FriendData>, char_id: u32) -> Seq<FriendData> {
    friends.filter(|f: FriendData| f.cid == char_id)
}

/// The friends in `friends` of the character `char_id`, in their order.
pub fn friends_of(friends: &Vec<FriendData>, char_id: u32) -> (res: Vec<FriendData>)
    ensures
        res@ == friends@.filter(|f: FriendData| f.cid == char_id),
        res@ == own_friends(friends@, char_id),
{
    let mut res: Vec<FriendData> = Vec::new();
    let ghost keep = |f: FriendData| f.cid == char_id;
    let mut i: usize = 0;
    assert(friends@.take(0).filter(keep) =~= seq![]) by {
        reveal(Seq::filter);
    }
    while i < friends.len()
        invariant
            i <= friends@.len(),
            keep == (|f: FriendData| f.cid == char_id),
            res@ == friends@.take(i as int).filter(keep),
        decreases friends@.len() - i,
    {
        proof {
            reveal(Seq::filter);
            assert(friends@.take(i + 1).drop_last() =~= friends@.take(i as int));
        }
        if friends[i].cid == char_id {
            res.push(friends[i].clone());
        }
        i = i + 1;
    }
    assert(friends@.take(i as int) =~= friends@);
    res
}

/// Only friends of the chosen character are kept, and all of them are.
pub proof fn law_only_own_friends(friends: Seq<FriendData>, char_id: u32)
    ensures
        ({
            let own = friends.filter(|f: FriendData| f.cid == char_id);
            &&& forall|i: int| 0 <= i < own.len() ==> (#[trigger] own[i]).cid == char_id
            &&& forall|f: FriendData|
                own.contains(f) <==> friends.contains(f) && f.cid == char_id
        }),
{
    let keep = |f: FriendData| f.cid == char_id;
    let own = friends.filter(keep);
    assert forall|i: int| 0 <= i < own.len() implies (#[trigger] own[i]).cid == char_id by {
        friends.lemma_filter_pred(keep, i);
    }
    assert forall|f: FriendData| own.contains(f) implies friends.contains(f) && f.cid == char_id by {
        lemma_filter_subset(friends, keep, f);
    }
    assert forall|f: FriendData| friends.contains(f) && f.cid == char_id implies own.contains(f) by {
        let i = choose|i: int| 0 <= i < friends.len() && friends[i] == f;
        friends.lemma_filter_contains(keep, i);
    }
}

proof fn lemma_filter_subset(
    friends: Seq<FriendData>,
    keep: spec_fn(FriendData) -> bool,
    f: FriendData,
)
    requires
        friends.filter(keep).contains(f),
    ensures
        friends.contains(f),
        keep(f),
    decreases friends.len(),
{
    reveal(Seq::filter);
    if friends.len() > 0 {
        let rest = friends.drop_last().filter(keep);
        let all = friends.filter(keep);
        let i = choose|i: int| 0 <= i < all.len() && all[i] == f;
        if i < rest.len() {
            assert(rest[i] == f);
            lemma_filter_subset(friends.drop_last(), keep, f);
            let j = choose|j: int| 0 <= j < friends.drop_last().len() && friends.drop_last()[j] == f;
            assert(friends[j] == f);
        } else {
            assert(friends[friends.len() - 1] == f);
        }
    }
}

/// The value of a base-32 digit.
pub open spec fn digit_value(c: char) -> nat {
    let u = c as nat;
    (if c <= '9' {
        u - '1' as nat
    } else if c <= 'H' {
        u - 'A' as nat + 9
    } else if c <= 'N' {
        u - 'J' as nat + 17
    } else if c <= 'R' {
        u - 'P' as nat + 22
    } else {
        u - 'T' as nat + 25
    }) as nat
}

/// The number that base-32 digits spell, the least significant first.
pub open spec fn base32_value(s: Seq<char>) -> nat
    decreases s.len(),
{
    if s.len() == 0 {
        0
    } else {
        digit_value(s[0]) + 32 * base32_value(s.drop_first())
    }
}

/// The number of values that `n` base-32 digits have.
pub open spec fn base32_range(n: nat) -> nat
    decreases n,
{
    if n == 0 {
        1
    } else {
        32 * base32_range((n - 1) as nat)
    }
}

proof fn lemma_digit_value(d: int)
    requires
        0 <= d < 32,
    ensures
        digit_value(BASE32_CHARS@[d]) == d,
{
}

proof fn lemma_base32_range_positive(n: nat)
    ensures
        base32_range(n) > 0,
    decreases n,
{
    if n > 0 {
        lemma_base32_range_positive((n - 1) as nat);
    }
}

proof fn lemma_base32_value(id: nat, n: nat)
    ensures
        base32_value(base32(id, n)) == id % base32_range(n),
    decreases n,
{
    if n > 0 {
        let m = (n - 1) as nat;
        lemma_base32_value(id / 32, m);
        lemma_base32_range_positive(m);
        lemma_digit_value((id % 32) as int);
        assert(base32(id, n).drop_first() =~= base32(id / 32, m));
        lemma_mod_breakdown(id as int, 32, base32_range(m) as int);
    }
}

/// An external ID gives back the ID that it was made from, as far as six digits can tell it.
pub proof fn law_ext_id_reads_back(id: u32)
    ensures
        ext_id(id).len() == 6,
        base32_value(ext_id(id)) == id % BASE32_CAP,
        id < BASE32_CAP ==> base32_value(ext_id(id)) == id,
{
    lemma_base32_len(id as nat, 6);
    lemma_base32_value(id as nat, 6);
    reveal_with_fuel(base32_range, 7);
    assert(base32_range(6) == BASE32_CAP);
}

/// No two characters below the cap share an external ID.
pub proof fn law_ext_id_unique(a: u32, b: u32)
    requires
        a < BASE32_CAP,
        b < BASE32_CAP,
        ext_id(a) == ext_id(b),
    ensures
        a == b,
{
    law_ext_id_reads_back(a);
    law_ext_id_reads_back(b);
}

/// Whatever the number of friends, the entries that are filled lie inside the friend table, and
/// they are at most as many as the client has room for.
pub proof fn law_friend_table_fits(id0_off: nat, friends: nat)
    requires
        id0_off == 0x18 || id0_off == 0x20,
    ensures
        table_fits(id0_off, friends, FRIEND_TABLE_SIZE as nat),
        slot_count(friends, FRIEND_TABLE_SIZE as nat) <= MAX_FRIENDS,
        slot_count(friends, FRIEND_TABLE_SIZE as nat) <= friends,
        friends <= MAX_FRIENDS ==> slot_count(friends, FRIEND_TABLE_SIZE as nat) == friends,
{
}

/// Whether writing entry `j` leaves the byte at `k` alone.
pub open spec fn spares(id0_off: nat, j: nat, k: int) -> bool {
    &&& !(slot_start(id0_off, j) <= k < slot_start(id0_off, j) + id0_off + 4)
    &&& header_size(id0_off) != 0 && j != 0 ==> k != 0x30 * j + 3 && k != 0x30 * j + 4
}

proof fn lemma_write_slots_spares(
    buf: Seq<u8>,
    id0_off: nat,
    friends: Seq<FriendData>,
    from: nat,
    n: nat,
    k: int,
)
    requires
        from <= n,
        0 <= k < buf.len(),
        forall|j: nat| from <= j < n ==> #[trigger] spares(id0_off, j, k),
    ensures
        write_slots(buf, id0_off, friends, n)[k] == write_slots(buf, id0_off, friends, from)[k],
    decreases n,
{
    if from < n {
        let m = (n - 1) as nat;
        lemma_write_slots_spares(buf, id0_off, friends, from, m, k);
        lemma_write_slots_len(buf, id0_off, friends, m);
        assert(spares(id0_off, m, k));
        assert(slot_bytes(id0_off, friends[m as int]).len() == id0_off + 4);
    }
}

/// A byte of the table that no entry covers is left as it was.
pub proof fn law_inject_spares_the_rest(
    buf: Seq<u8>,
    id0_off: nat,
    friends: Seq<FriendData>,
    n: nat,
    k: int,
)
    requires
        0 <= k < buf.len(),
        forall|j: nat| j < n ==> #[trigger] spares(id0_off, j, k),
    ensures
        write_slots(buf, id0_off, friends, n).len() == buf.len(),
        write_slots(buf, id0_off, friends, n)[k] == buf[k],
{
    lemma_write_slots_len(buf, id0_off, friends, n);
    lemma_write_slots_spares(buf, id0_off, friends, 0, n, k);
}

proof fn lemma_write_slots_prefix(
    buf: Seq<u8>,
    id0_off: nat,
    a: Seq<FriendData>,
    b: Seq<FriendData>,
    n: nat,
)
    requires
        forall|i: int| 0 <= i < n ==> a[i] == b[i],
    ensures
        write_slots(buf, id0_off, a, n) == write_slots(buf, id0_off, b, n),
    decreases n,
{
    if n > 0 {
        lemma_write_slots_prefix(buf, id0_off, a, b, (n - 1) as nat);
    }
}

/// Friends beyond those that the client has room for do not count.
pub proof fn law_friends_beyond_the_cap(buf: Seq<u8>, id0_off: nat, friends: Seq<FriendData>)
    requires
        friends.len() >= MAX_FRIENDS,
    ensures
        ({
            let first = friends.take(MAX_FRIENDS as int);
            write_slots(buf, id0_off, friends, slot_count(friends.len(), buf.len()))
                == write_slots(buf, id0_off, first, slot_count(first.len(), buf.len()))
        }),
{
    let first = friends.take(MAX_FRIENDS as int);
    assert(slot_count(friends.len(), buf.len()) == slot_count(first.len(), buf.len()));
    lemma_write_slots_prefix(
        buf,
        id0_off,
        friends,
        first,
        slot_count(friends.len(), buf.len()),
    );
}

/// What an injection makes of a byte does not depend on the table before it, or is what was there.
proof fn lemma_write_slots_forgets(
    a: Seq<u8>,
    b: Seq<u8>,
    id0_off: nat,
    friends: Seq<FriendData>,
    n: nat,
    k: int,
)
    requires
        a.len() == b.len(),
        0 <= k < a.len(),
    ensures
        ({
            let x = write_slots(a, id0_off, friends, n)[k];
            let y = write_slots(b, id0_off, friends, n)[k];
            x == y || (x == a[k] && y == b[k])
        }),
    decreases n,
{
    if n > 0 {
        let m = (n - 1) as nat;
        lemma_write_slots_forgets(a, b, id0_off, friends, m, k);
        lemma_write_slots_len(a, id0_off, friends, m);
        lemma_write_slots_len(b, id0_off, friends, m);
    }
}

/// Injecting the same friends again changes nothing.
pub proof fn law_inject_repeats(buf: Seq<u8>, id0_off: nat, friends: Seq<FriendData>, n: nat)
    ensures
        ({
            let table = write_slots(buf, id0_off, friends, n);
            write_slots(table, id0_off, friends, n) == table
        }),
{
    let table = write_slots(buf, id0_off, friends, n);
    lemma_write_slots_len(buf, id0_off, friends, n);
    lemma_write_slots_len(table, id0_off, friends, n);
    assert forall|k: int| 0 <= k < table.len() implies write_slots(table, id0_off, friends, n)[k]
        == table[k] by {
        lemma_write_slots_forgets(buf, table, id0_off, friends, n, k);
    }
    assert(write_slots(table, id0_off, friends, n) =~= table);
}

/// An entry that no later entry reaches into holds its friend when all have been written.
pub proof fn law_injected_friend_stays(
    buf: Seq<u8>,
    id0_off: nat,
    friends: Seq<FriendData>,
    n: nat,
    i: nat,
)
    requires
        i < n,
        slot_start(id0_off, i) + id0_off + 4 <= buf.len(),
        forall|j: nat, k: int|
            i < j < n && slot_start(id0_off, i) <= k < slot_start(id0_off, i) + id0_off + 4
                ==> #[trigger] spares(id0_off, j, k),
    ensures
        write_slots(buf, id0_off, friends, n).subrange(
            slot_start(id0_off, i) as int,
            slot_start(id0_off, i) as int + id0_off + 4,
        ) == slot_bytes(id0_off, friends[i as int]),
{
    let start = slot_start(id0_off, i) as int;
    let end = start + id0_off + 4;
    let slot = slot_bytes(id0_off, friends[i as int]);
    let all = write_slots(buf, id0_off, friends, n);
    lemma_write_slots_len(buf, id0_off, friends, n);
    lemma_write_slots_len(buf, id0_off, friends, i);
    assert forall|k: int| start <= k < end implies all[k] == slot[k - start] by {
        lemma_write_slots_spares(buf, id0_off, friends, i + 1, n, k);
    }
    assert(all.subrange(start, end) =~= slot);
}

/// With the layout of either client, every friend that is written stands in its entry of the
/// table when the injection is done.
pub proof fn law_friends_read_back(buf: Seq<u8>, friends: Seq<FriendData>, i: nat)
    requires
        buf.len() == FRIEND_TABLE_SIZE,
        i < slot_count(friends.len(), buf.len()),
    ensures
        ({
            let table = write_slots(buf, 0x18, friends, slot_count(friends.len(), buf.len()));
            table.subrange(0x34 * i as int, 0x34 * i as int + 0x1c) == slot_bytes(0x18, friends[i as int])
        }),
{
    law_friend_table_fits(0x18, friends.len());
    law_injected_friend_stays(buf, 0x18, friends, slot_count(friends.len(), buf.len()), i);
}

/// An entry of either client's layout spells the external ID, two NULs, the name as far as fifteen
/// bytes reach, a NUL, and the numeric ID.
pub proof fn law_slot_reads_back(f: FriendData)
    ensures
        ({
            let slot = slot_bytes(0x18, f);
            let name = encode_utf8(f.name@);
            let m = if name.len() < 15 { name.len() as int } else { 15 };
            &&& slot.len() == 0x1c
            &&& text::ascii_chars(slot.subrange(0, 6)) == ext_id(f.id)
            &&& slot[6] == 0 && slot[7] == 0
            &&& slot.subrange(8, 8 + m) == name.take(m)
            &&& slot[8 + m] == 0
            &&& bytes::from_le32(slot.subrange(0x18, 0x1c)) == f.id
        }),
{
    let slot = slot_bytes(0x18, f);
    let name = encode_utf8(f.name@);
    let m = if name.len() < 15 { name.len() as int } else { 15 };
    lemma_base32_len(f.id as nat, 6);
    lemma_base32_ascii(f.id as nat, 6);
    assert forall|j: int| 0 <= j < 6 implies (ext_id(f.id)[j] as u8) as char == ext_id(f.id)[j] by {
        assert('\0' <= ext_id(f.id)[j] <= '\u{7f}');
    }
    assert(text::ascii_chars(slot.subrange(0, 6)) =~= ext_id(f.id));
    assert(slot.subrange(8, 8 + m) =~= name.take(m));
    assert(slot.subrange(0x18, 0x1c) =~= bytes::le32(f.id));
    bytes::law_le32_reads_back(f.id);
}

proof fn lemma_alphabet(d: int)
    requires
        0 <= d < 32,
    ensures
        "123456789ABCDEFGHJKLMNPQRTUVWXYZ"@.len() == 32,
        BASE32_CHARS@[d] == "123456789ABCDEFGHJKLMNPQRTUVWXYZ"@[d],
{
    reveal_strlit("123456789ABCDEFGHJKLMNPQRTUVWXYZ");
    assert(BASE32_CHARS@ =~= "123456789ABCDEFGHJKLMNPQRTUVWXYZ"@);
}

/// An external ID has six characters, all of the alphabet, and each is the alphabet's character for
/// one base-32 digit of the ID: the first for the least significant digit.
pub proof fn law_ext_id_spelled(id: u32)
    ensures
        ({
            let alphabet = "123456789ABCDEFGHJKLMNPQRTUVWXYZ"@;
            let ext = ext_id(id);
            &&& alphabet.len() == 32
            &&& ext.len() == 6
            &&& ext[0] == alphabet[id as int % 32]
            &&& ext[1] == alphabet[id as int / 32 % 32]
            &&& ext[2] == alphabet[id as int / 1024 % 32]
            &&& ext[3] == alphabet[id as int / 32768 % 32]
            &&& ext[4] == alphabet[id as int / 1048576 % 32]
            &&& ext[5] == alphabet[id as int / 33554432 % 32]
            &&& forall|k: int| 0 <= k < 6 ==> alphabet.contains(#[trigger] ext[k])
        }),
{
    reveal_with_fuel(base32, 7);
    let n = id as int;
    lemma_alphabet(n % 32);
    lemma_alphabet(n / 32 % 32);
    lemma_alphabet(n / 1024 % 32);
    lemma_alphabet(n / 32768 % 32);
    lemma_alphabet(n / 1048576 % 32);
    lemma_alphabet(n / 33554432 % 32);
    assert(n / 32 / 32 == n / 1024);
    assert(n / 32 / 32 / 32 == n / 32768);
    assert(n / 32 / 32 / 32 / 32 == n / 1048576);
    assert(n / 32 / 32 / 32 / 32 / 32 == n / 33554432);
}

/// The friends of a character in a list are those in its first part and then those in its second.
/// A friend on their own is one of them exactly where they are that character's.
pub proof fn law_own_friends_by_parts(
    a: Seq<FriendData>,
    b: Seq<FriendData>,
    f: FriendData,
    char_id: u32,
)
    ensures
        own_friends(a + b, char_id) == own_friends(a, char_id) + own_friends(b, char_id),
        f.cid == char_id ==> own_friends(seq![f], char_id) == seq![f],
        f.cid != char_id ==> own_friends(seq![f], char_id) == Seq::<FriendData>::empty(),
        own_friends(Seq::empty(), char_id) == Seq::<FriendData>::empty(),
{
    let keep = |f: FriendData| f.cid == char_id;
    Seq::filter_distributes_over_add(a, b, keep);
    reveal(Seq::filter);
    let one = seq![f];
    assert(one.drop_last() =~= Seq::<FriendData>::empty());
    assert(Seq::<FriendData>::empty().filter(keep) =~= Seq::<FriendData>::empty());
    assert(one.filter(keep) =~= if f.cid == char_id { one } else { Seq::empty() });
}

/// What a byte of an entry holds after an injection, where no later entry reaches it: a character of
/// the external ID, one of two NULs, a byte of the name, a NUL, or a byte of the numeric ID.
///
/// Entries lie 0x34 bytes apart, after a header of eight bytes in the layout whose numeric IDs start
/// at 0x20, and there are as many as there are friends, at most fifty, and at most one for each 0x30
/// bytes of the table.
pub proof fn law_entry_bytes(
    buf: Seq<u8>,
    id0_off: nat,
    friends: Seq<FriendData>,
    i: int,
    k: int,
)
    requires
        0 <= i < friends.len(),
        i < 50,
        i < buf.len() as int / 0x30,
        k < buf.len(),
        ({
            let header = if id0_off == 0x20 { 8int } else { 0 };
            &&& header + 0x34 * i <= k < header + 0x34 * i + id0_off + 4
            &&& forall|j: int|
                #![trigger friends[j]]
                i < j < friends.len() && j < 50 && j < buf.len() as int / 0x30 ==> {
                    &&& !(header + 0x34 * j <= k < header + 0x34 * j + id0_off + 4)
                    &&& header == 8 ==> k != 0x30 * j + 3 && k != 0x30 * j + 4
                }
        }),
    ensures
        ({
            let table = write_slots(buf, id0_off, friends, slot_count(friends.len(), buf.len()));
            let d = k - (if id0_off == 0x20 { 8int } else { 0 }) - 0x34 * i;
            let name = encode_utf8(friends[i].name@);
            &&& table.len() == buf.len()
            &&& d < 6 && d < id0_off ==> table[k] == ext_id(friends[i].id)[d] as u8
            &&& 6 <= d < 8 && d < id0_off ==> table[k] == 0
            &&& 8 <= d < id0_off - 1 && d - 8 < name.len() ==> table[k] == name[d - 8]
            &&& 8 <= d < id0_off - 1 && d - 8 >= name.len() ==> table[k] == 0
            &&& 8 <= d == id0_off - 1 ==> table[k] == 0
            &&& d >= id0_off ==> table[k] == bytes::le32(friends[i].id)[d - id0_off]
        }),
{
    let n = slot_count(friends.len(), buf.len());
    assert(i < n);
    assert forall|j: nat| i + 1 <= j < n implies #[trigger] spares(id0_off, j, k) by {
        let f = friends[j as int];
    }
    lemma_write_slots_spares(buf, id0_off, friends, (i + 1) as nat, n, k);
    lemma_write_slots_len(buf, id0_off, friends, n);
    lemma_write_slots_len(buf, id0_off, friends, i as nat);
    assert(slot_bytes(id0_off, friends[i]).len() == id0_off + 4);
}

/// In the layout with a header, each entry but the first has its two status bytes set, where no
/// later entry reaches them.
pub proof fn law_status_bytes(buf: Seq<u8>, friends: Seq<FriendData>, i: int, k: int)
    requires
        0 < i < friends.len(),
        i < 50,
        i < buf.len() as int / 0x30,
        k == 0x30 * i + 3 || k == 0x30 * i + 4,
        forall|j: int|
            #![trigger friends[j]]
            i < j < friends.len() && j < 50 && j < buf.len() as int / 0x30 ==> !(8 + 0x34 * j <= k
                < 8 + 0x34 * j + 0x24),
    ensures
        write_slots(buf, 0x20, friends, slot_count(friends.len(), buf.len()))[k] == 1,
{
    let n = slot_count(friends.len(), buf.len());
    assert(i < n);
    assert forall|j: nat| i + 1 <= j < n implies #[trigger] spares(0x20, j, k) by {
        let f = friends[j as int];
    }
    lemma_write_slots_spares(buf, 0x20, friends, (i + 1) as nat, n, k);
    lemma_write_slots_len(buf, 0x20, friends, i as nat);
}

/// A byte that lies in no entry, and is no status byte of one, is left as it was.
pub proof fn law_bytes_outside_entries(
    buf: Seq<u8>,
    id0_off: nat,
    friends: Seq<FriendData>,
    k: int,
)
    requires
        0 <= k < buf.len(),
        ({
            let header = if id0_off == 0x20 { 8int } else { 0 };
            forall|j: int|
                #![trigger friends[j]]
                0 <= j < friends.len() && j < 50 && j < buf.len() as int / 0x30 ==> {
                    &&& !(header + 0x34 * j <= k < header + 0x34 * j + id0_off + 4)
                    &&& header == 8 && j > 0 ==> k != 0x30 * j + 3 && k != 0x30 * j + 4
                }
        }),
    ensures
        write_slots(buf, id0_off, friends, slot_count(friends.len(), buf.len()))[k] == buf[k],
{
    let n = slot_count(friends.len(), buf.len());
    assert forall|j: nat| j < n implies #[trigger] spares(id0_off, j, k) by {
        let f = friends[j as int];
    }
    lemma_write_slots_spares(buf, id0_off, friends, 0, n, k);
}

/// The friend table of either client, after an injection: friend `i`, of the first fifty, stands at
/// 0x34 times `i`. Its six characters of external ID come first, then two NULs, then up to fifteen
/// bytes of the name, filled up with zeros to sixteen, and then the numeric ID.
pub proof fn law_friend_entry(buf: Seq<u8>, friends: Seq<FriendData>, i: int)
    requires
        buf.len() == 0x1000,
        0 <= i < friends.len(),
        i < 50,
    ensures
        ({
            let table = write_slots(buf, 0x18, friends, slot_count(friends.len(), buf.len()));
            let entry = table.subrange(0x34 * i, 0x34 * i + 0x1c);
            let name = encode_utf8(friends[i].name@);
            &&& forall|d: int|
                0 <= d < 6 ==> #[trigger] entry[d] == ext_id(friends[i].id)[d] as u8
            &&& entry[6] == 0
            &&& entry[7] == 0
            &&& forall|d: int|
                8 <= d < 23 ==> #[trigger] entry[d] == (if d - 8 < name.len() {
                    name[d - 8]
                } else {
                    0
                })
            &&& entry[23] == 0
            &&& entry[24] + 0x100 * entry[25] + 0x1_0000 * entry[26] + 0x100_0000 * entry[27]
                == friends[i].id
        }),
{
    let table = write_slots(buf, 0x18, friends, slot_count(friends.len(), buf.len()));
    let entry = table.subrange(0x34 * i, 0x34 * i + 0x1c);
    lemma_write_slots_len(buf, 0x18, friends, slot_count(friends.len(), buf.len()));
    assert forall|d: int| 0 <= d < 0x1c implies #[trigger] entry[d] == slot_bytes(
        0x18,
        friends[i],
    )[d] by {
        law_friends_read_back(buf, friends, i as nat);
    }
    bytes::law_number_bytes(friends[i].id, 0);
}

/// Whatever friends are injected, the friend table of either client changes nowhere but in their
/// entries.
pub proof fn law_friend_table_elsewhere(buf: Seq<u8>, friends: Seq<FriendData>, k: int)
    requires
        buf.len() == 0x1000,
        0 <= k < 0x1000,
        k % 0x34 >= 0x1c || k / 0x34 >= friends.len() || k / 0x34 >= 50,
    ensures
        write_slots(buf, 0x18, friends, slot_count(friends.len(), buf.len()))[k] == buf[k],
{
    assert forall|j: int|
        #![trigger friends[j]]
        0 <= j < friends.len() && j < 50 implies !(0x34 * j <= k < 0x34 * j + 0x1c) by {
        if 0x34 * j <= k < 0x34 * j + 0x1c {
            assert(k / 0x34 == j && k % 0x34 == k - 0x34 * j);
        }
    }
    law_bytes_outside_entries(buf, 0x18, friends, k);
}

/// Whether a table has room for its entries is whether its last entry ends inside it.
pub proof fn law_table_fits(id0_off: nat, friends: nat, len: nat)
    ensures
        table_fits(id0_off, friends, len) <==> {
            let header = if id0_off == 0x20 { 8int } else { 0 };
            forall|j: int|
                #![trigger slot_start(id0_off, j as nat)]
                0 <= j < friends && j < 50 && j < len as int / 0x30 ==> header + 0x34 * j + id0_off + 4
                    <= len
        },
{
    let n = slot_count(friends, len);
    if n > 0 {
        let last = slot_start(id0_off, (n - 1) as nat);
        assert(last == slot_start(id0_off, (n - 1) as int as nat));
    }
}

/// The text that is made of an ID has the alphabet's character for each of the ID's six low base-32
/// digits, the least significant first, and IDs with the same text are the same in those digits.
pub proof fn law_make_ext_id(a: u32, b: u32, x: String, y: String)
    requires
        call_ensures(make_ext_id, (a,), x),
        call_ensures(make_ext_id, (b,), y),
    ensures
        ({
            let alphabet = "123456789ABCDEFGHJKLMNPQRTUVWXYZ"@;
            &&& x@.len() == 6
            &&& x@[0] == alphabet[a as int % 32]
            &&& x@[1] == alphabet[a as int / 32 % 32]
            &&& x@[2] == alphabet[a as int / 1024 % 32]
            &&& x@[3] == alphabet[a as int / 32768 % 32]
            &&& x@[4] == alphabet[a as int / 1048576 % 32]
            &&& x@[5] == alphabet[a as int / 33554432 % 32]
        }),
        x@ == y@ ==> a % 0x4000_0000 == b % 0x4000_0000,
{
    law_ext_id_spelled(a);
    law_ext_id_reads_back(a);
    law_ext_id_reads_back(b);
}

/// The friends that are picked for a character are exactly those in the list that are theirs, in the
/// order of the list: those of a shorter list, and then the last one if they are that character's.
pub proof fn law_friends_of(
    friends: Vec<FriendData>,
    more: Vec<FriendData>,
    f: FriendData,
    char_id: u32,
    x: Vec<FriendData>,
    y: Vec<FriendData>,
)
    requires
        more@ == friends@.push(f),
        call_ensures(friends_of, (&friends, char_id), x),
        call_ensures(friends_of, (&more, char_id), y),
    ensures
        friends@.len() == 0 ==> x@.len() == 0,
        f.cid == char_id ==> y@ == x@.push(f),
        f.cid != char_id ==> y@ == x@,
{
    law_own_friends_by_parts(friends@, seq![f], f, char_id);
    assert(friends@ + seq![f] =~= more@);
    if f.cid == char_id {
        assert(x@ + seq![f] =~= x@.push(f));
    } else {
        assert(x@ + Seq::<FriendData>::empty() =~= x@);
    }
    if friends@.len() == 0 {
        assert(friends@ =~= Seq::<FriendData>::empty());
    }
}

} // verus!
