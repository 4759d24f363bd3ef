//! The memory that is shared with the client: notices, and the MezFes event.
use crate::bytes;
use crate::bytes::{push_all_u32, push_padded, push_u16, push_u32, push_zeros};
use crate::config::{MhfConfig, Notice};
use crate::utils;
use crate::utils::bufcopy;
use vstd::prelude::*;
use vstd::string::*;
use vstd::utf8::*;

verus! {

/// The size of the memory that is shared with the client.
pub const GLOBAL_SIZE: usize = 0x8ae0;

/// The number of notices that the client has room for.
pub const MAX_NOTICES: usize = 4;

/// The text of notice `i`, which is empty where there is no such notice.
pub open spec fn notice_text(notices: Seq<Notice>, i: int) -> Seq<u8> {
    if i < notices.len() {
        encode_utf8(notices[i].data@)
    } else {
        seq![]
    }
}

/// The length that the client is told of notice `i`. It is that of the whole text, also where the
/// client has no room for all of it.
pub open spec fn notice_count(notices: Seq<Notice>, i: int) -> u32 {
    notice_text(notices, i).len() as u32
}

/// The flags of notice `i`.
pub open spec fn notice_flags(notices: Seq<Notice>, i: int) -> u16 {
    if i < notices.len() {
        notices[i].flags
    } else {
        0
    }
}

fn push_notice_count(out: &mut Vec<u8>, notices: &Vec<Notice>, i: usize)
    ensures
        final(out)@ == old(out)@ + bytes::le32(notice_count(notices@, i as int)),
{
    if i < notices.len() {
        push_u32(out, notices[i].data.as_str().as_bytes().len() as u32);
    } else {
        push_u32(out, 0);
    }
}

fn push_notice_flags(out: &mut Vec<u8>, notices: &Vec<Notice>, i: usize)
    ensures
        final(out)@ == old(out)@ + bytes::le16(notice_flags(notices@, i as int)),
{
    if i < notices.len() {
        push_u16(out, notices[i].flags);
    } else {
        push_u16(out, 0);
    }
}

fn push_notice_text(out: &mut Vec<u8>, notices: &Vec<Notice>, i: usize)
    ensures
        final(out)@ == old(out)@ + bytes::padded(notice_text(notices@, i as int), 0x1000),
{
    if i < notices.len() {
        push_padded(out, notices[i].data.as_str().as_bytes(), 0x1000);
    } else {
        push_zeros(out, 0x1000);
        assert(bytes::zeros(0x1000) =~= bytes::padded(notice_text(notices@, i as int), 0x1000));
    }
}

/// The stalls, in eight places.
pub open spec fn stall_places(stalls: Seq<u32>) -> Seq<u32> {
    utils::overlay(Seq::new(8, |i: int| 0u32), stalls)
}

fn push_stalls(out: &mut Vec<u8>, stalls: &Vec<u32>)
    ensures
        final(out)@ == old(out)@ + bytes::le32_all(stall_places(stalls@)),
{
    let mut places: [u32; 8] = [0u32; 8];
    assert(places@ =~= Seq::new(8, |i: int| 0u32));
    bufcopy(&mut places, stalls.as_slice());
    push_all_u32(out, &places);
}

/// The part of the memory for the notices.
pub open spec fn notice_bytes(notices: Seq<Notice>) -> Seq<u8> {
    bytes::zeros(0xa0c)
        + bytes::le32(notice_count(notices, 0))
        + bytes::le32(notice_count(notices, 1))
        + bytes::le32(notice_count(notices, 2))
        + bytes::le32(notice_count(notices, 3))
        + bytes::zeros(0x8)
        + bytes::le16(notice_flags(notices, 0))
        + bytes::le16(notice_flags(notices, 1))
        + bytes::le16(notice_flags(notices, 2))
        + bytes::le16(notice_flags(notices, 3))
        + bytes::padded(notice_text(notices, 0), 0x1000)
        + bytes::padded(notice_text(notices, 1), 0x1000)
        + bytes::padded(notice_text(notices, 2), 0x1000)
        + bytes::padded(notice_text(notices, 3), 0x1000)
}

fn notice_block(notices: &Vec<Notice>) -> (res: Vec<u8>)
    ensures
        res@ == notice_bytes(notices@),
{
    let mut out: Vec<u8> = Vec::new();
    push_zeros(&mut out, 0xa0c);
    assert(out@ =~= bytes::zeros(0xa0c));
    push_notice_count(&mut out, notices, 0);
    push_notice_count(&mut out, notices, 1);
    push_notice_count(&mut out, notices, 2);
    push_notice_count(&mut out, notices, 3);
    push_zeros(&mut out, 0x8);
    push_notice_flags(&mut out, notices, 0);
    push_notice_flags(&mut out, notices, 1);
    push_notice_flags(&mut out, notices, 2);
    push_notice_flags(&mut out, notices, 3);
    push_notice_text(&mut out, notices, 0);
    push_notice_text(&mut out, notices, 1);
    push_notice_text(&mut out, notices, 2);
    push_notice_text(&mut out, notices, 3);
    out
}

/// The memory that is shared with the client.
pub open spec fn global_image(config: MhfConfig) -> Seq<u8> {
    notice_bytes(config.notices@)
        + bytes::zeros(0x3000)
        + bytes::zeros(0x1080)
        + bytes::le32(config.mez_event_id)
        + bytes::le32(config.mez_start)
        + bytes::le32(config.mez_end)
        + bytes::le32(config.mez_solo_tickets)
        + bytes::le32(config.mez_group_tickets)
        + bytes::le32_all(stall_places(config.mez_stalls@))
}

/// What the memory that is shared with the client is filled with. Stalls beyond the eighth are
/// dropped.
pub fn init_global(config: &MhfConfig) -> (res: Vec<u8>)
    requires
        config.notices@.len() <= MAX_NOTICES,
    ensures
        res@ == global_image(*config),
        res@.len() == GLOBAL_SIZE,
{
    let mut out: Vec<u8> = notice_block(&config.notices);
    push_zeros(&mut out, 0x3000);
    push_zeros(&mut out, 0x1080);
    push_u32(&mut out, config.mez_event_id);
    push_u32(&mut out, config.mez_start);
    push_u32(&mut out, config.mez_end);
    push_u32(&mut out, config.mez_solo_tickets);
    push_u32(&mut out, config.mez_group_tickets);
    push_stalls(&mut out, &config.mez_stalls);
    proof {
        law_global_fields(*config);
    }
    out
}

/// Whether unlocking the shared memory went well. The call also fails, with the code 0, where
/// nobody holds the memory any more, and that is as it should be.
pub fn global_unlocked(error_code: Option<i32>) -> (res: bool)
    ensures
        res == (error_code is None || error_code == Some(0i32)),
{
    match error_code {
        None => true,
        Some(code) => code == 0,
    }
}

/// Where the notices lie.
pub proof fn law_notice_fields(notices: Seq<Notice>)
    ensures
        ({
            let part = notice_bytes(notices);
            &&& part.len() == 0x4a2c
            &&& bytes::holds_at(part, 0, bytes::zeros(0xa0c))
            &&& bytes::holds_at(part, 0xa1c, bytes::zeros(0x8))
            &&& bytes::holds_at(part, 0xa0c, bytes::le32(notice_count(notices, 0)))
            &&& bytes::holds_at(part, 0xa10, bytes::le32(notice_count(notices, 1)))
            &&& bytes::holds_at(part, 0xa14, bytes::le32(notice_count(notices, 2)))
            &&& bytes::holds_at(part, 0xa18, bytes::le32(notice_count(notices, 3)))
            &&& bytes::holds_at(part, 0xa24, bytes::le16(notice_flags(notices, 0)))
            &&& bytes::holds_at(part, 0xa26, bytes::le16(notice_flags(notices, 1)))
            &&& bytes::holds_at(part, 0xa28, bytes::le16(notice_flags(notices, 2)))
            &&& bytes::holds_at(part, 0xa2a, bytes::le16(notice_flags(notices, 3)))
            &&& bytes::holds_at(part, 0xa2c, bytes::padded(notice_text(notices, 0), 0x1000))
            &&& bytes::holds_at(part, 0x1a2c, bytes::padded(notice_text(notices, 1), 0x1000))
            &&& bytes::holds_at(part, 0x2a2c, bytes::padded(notice_text(notices, 2), 0x1000))
            &&& bytes::holds_at(part, 0x3a2c, bytes::padded(notice_text(notices, 3), 0x1000))
        }),
{
    let p = bytes::zeros(0xa0c);
    bytes::lemma_first(p);
    bytes::lemma_append(p, 0xa0c, bytes::le32(notice_count(notices, 0)));
    let p = p + bytes::le32(notice_count(notices, 0));
    bytes::lemma_append(p, 0xa10, bytes::le32(notice_count(notices, 1)));
    let p = p + bytes::le32(notice_count(notices, 1));
    bytes::lemma_append(p, 0xa14, bytes::le32(notice_count(notices, 2)));
    let p = p + bytes::le32(notice_count(notices, 2));
    bytes::lemma_append(p, 0xa18, bytes::le32(notice_count(notices, 3)));
    let p = p + bytes::le32(notice_count(notices, 3));
    bytes::lemma_append(p, 0xa1c, bytes::zeros(0x8));
    let p = p + bytes::zeros(0x8);
    bytes::lemma_append(p, 0xa24, bytes::le16(notice_flags(notices, 0)));
    let p = p + bytes::le16(notice_flags(notices, 0));
    bytes::lemma_append(p, 0xa26, bytes::le16(notice_flags(notices, 1)));
    let p = p + bytes::le16(notice_flags(notices, 1));
    bytes::lemma_append(p, 0xa28, bytes::le16(notice_flags(notices, 2)));
    let p = p + bytes::le16(notice_flags(notices, 2));
    bytes::lemma_append(p, 0xa2a, bytes::le16(notice_flags(notices, 3)));
    let p = p + bytes::le16(notice_flags(notices, 3));
    bytes::lemma_append(p, 0xa2c, bytes::padded(notice_text(notices, 0), 0x1000));
    let p = p + bytes::padded(notice_text(notices, 0), 0x1000);
    bytes::lemma_append(p, 0x1a2c, bytes::padded(notice_text(notices, 1), 0x1000));
    let p = p + bytes::padded(notice_text(notices, 1), 0x1000);
    bytes::lemma_append(p, 0x2a2c, bytes::padded(notice_text(notices, 2), 0x1000));
    let p = p + bytes::padded(notice_text(notices, 2), 0x1000);
    bytes::lemma_append(p, 0x3a2c, bytes::padded(notice_text(notices, 3), 0x1000));
}

/// Parts of the sizes that the shared memory has, in a row.
proof fn lemma_global_row(
    notices: Seq<u8>,
    event: Seq<u8>,
    start: Seq<u8>,
    end: Seq<u8>,
    solo: Seq<u8>,
    group: Seq<u8>,
    stalls: Seq<u8>,
)
    requires
        notices.len() == 0x4a2c,
        event.len() == 4,
        start.len() == 4,
        end.len() == 4,
        solo.len() == 4,
        group.len() == 4,
        stalls.len() == 0x20,
    ensures
        ({
            let image = notices + bytes::zeros(0x3000) + bytes::zeros(0x1080) + event + start + end
                + solo + group + stalls;
            &&& image.len() == GLOBAL_SIZE
            &&& bytes::holds_at(image, 0, notices)
            &&& bytes::holds_at(image, 0x4a2c, bytes::zeros(0x3000))
            &&& bytes::holds_at(image, 0x7a2c, bytes::zeros(0x1080))
            &&& bytes::holds_at(image, 0x8aac, event)
            &&& bytes::holds_at(image, 0x8ab0, start)
            &&& bytes::holds_at(image, 0x8ab4, end)
            &&& bytes::holds_at(image, 0x8ab8, solo)
            &&& bytes::holds_at(image, 0x8abc, group)
            &&& bytes::holds_at(image, 0x8ac0, stalls)
        }),
{
    let p = notices;
    bytes::lemma_first(p);
    bytes::lemma_append(p, 0x4a2c, bytes::zeros(0x3000));
    let p = p + bytes::zeros(0x3000);
    bytes::lemma_append(p, 0x7a2c, bytes::zeros(0x1080));
    let p = p + bytes::zeros(0x1080);
    bytes::lemma_append(p, 0x8aac, event);
    let p = p + event;
    bytes::lemma_append(p, 0x8ab0, start);
    let p = p + start;
    bytes::lemma_append(p, 0x8ab4, end);
    let p = p + end;
    bytes::lemma_append(p, 0x8ab8, solo);
    let p = p + solo;
    bytes::lemma_append(p, 0x8abc, group);
    let p = p + group;
    bytes::lemma_append(p, 0x8ac0, stalls);
}

/// Where the notices and the event lie in the shared memory, which is as large as the client
/// expects.
pub proof fn law_global_fields(config: MhfConfig)
    ensures
        ({
            let image = global_image(config);
            &&& image.len() == GLOBAL_SIZE
            &&& bytes::holds_at(image, 0, notice_bytes(config.notices@))
            &&& bytes::holds_at(image, 0x4a2c, bytes::zeros(0x3000))
            &&& bytes::holds_at(image, 0x7a2c, bytes::zeros(0x1080))
            &&& bytes::holds_at(image, 0x8aac, bytes::le32(config.mez_event_id))
            &&& bytes::holds_at(image, 0x8ab0, bytes::le32(config.mez_start))
            &&& bytes::holds_at(image, 0x8ab4, bytes::le32(config.mez_end))
            &&& bytes::holds_at(image, 0x8ab8, bytes::le32(config.mez_solo_tickets))
            &&& bytes::holds_at(image, 0x8abc, bytes::le32(config.mez_group_tickets))
            &&& bytes::holds_at(
                image,
                0x8ac0,
                bytes::le32_all(stall_places(config.mez_stalls@)),
            )
        }),
{
    assert(notice_bytes(config.notices@).len() == 0x4a2c) by {
        law_notice_fields(config.notices@);
    }
    bytes::lemma_le32_all_len(stall_places(config.mez_stalls@));
    lemma_global_row(
        notice_bytes(config.notices@),
        bytes::le32(config.mez_event_id),
        bytes::le32(config.mez_start),
        bytes::le32(config.mez_end),
        bytes::le32(config.mez_solo_tickets),
        bytes::le32(config.mez_group_tickets),
        bytes::le32_all(stall_places(config.mez_stalls@)),
    );
}

/// Whether the bytes of `image` from `from` on, before `to`, are zero.
pub open spec fn zero_between(image: Seq<u8>, from: int, to: int) -> bool {
    forall|k: int| from <= k < to ==> #[trigger] image[k] == 0
}

proof fn lemma_zeros_held(image: Seq<u8>, at: int, n: nat)
    requires
        bytes::holds_at(image, at, bytes::zeros(n)),
    ensures
        zero_between(image, at, at + n),
{
    assert forall|k: int| at <= k < at + n implies #[trigger] image[k] == 0 by {
        assert(image.subrange(at, at + n)[k - at] == bytes::zeros(n)[k - at]);
    }
}

/// The shared memory is zero before the notices' lengths, between these and the notices' flags, and
/// from the end of the notices up to the event.
pub proof fn law_global_zeros(config: MhfConfig)
    ensures
        zero_between(global_image(config), 0, 0xa0c),
        zero_between(global_image(config), 0xa1c, 0xa24),
        zero_between(global_image(config), 0x4a2c, 0x8aac),
{
    let image = global_image(config);
    law_global_fields(config);
    assert(bytes::holds_at(image, 0, bytes::zeros(0xa0c)) && bytes::holds_at(
        image,
        0xa1c,
        bytes::zeros(0x8),
    )) by {
        law_notice_fields(config.notices@);
        bytes::lemma_part_at(image, 0, notice_bytes(config.notices@));
    }
    lemma_zeros_held(image, 0, 0xa0c);
    lemma_zeros_held(image, 0xa1c, 0x8);
    lemma_zeros_held(image, 0x4a2c, 0x3000);
    lemma_zeros_held(image, 0x7a2c, 0x1080);
}

/// What the shared memory tells of notice `i`: the length in bytes of its UTF-8 text, as a word at
/// 0xa0c, its flags at 0xa24, and the text itself, as far as 0x1000 bytes reach, at 0xa2c. All three
/// are zero where there is no such notice.
pub proof fn law_notice_stands(config: MhfConfig, i: int)
    requires
        0 <= i < 4,
    ensures
        ({
            let image = global_image(config);
            let at = 0xa0c + 4 * i;
            let count = image[at] + 0x100 * image[at + 1] + 0x1_0000 * image[at + 2] + 0x100_0000
                * image[at + 3];
            let flags = image[0xa24 + 2 * i] + 0x100 * image[0xa25 + 2 * i];
            let text = image.subrange(0xa2c + 0x1000 * i, 0x1a2c + 0x1000 * i);
            &&& image.len() == 0x8ae0
            &&& i < config.notices@.len() ==> {
                let data = encode_utf8(config.notices@[i].data@);
                &&& count == data.len() as u32
                &&& data.len() <= u32::MAX ==> count == data.len()
                &&& flags == config.notices@[i].flags
                &&& forall|k: int|
                    0 <= k < 0x1000 ==> #[trigger] text[k] == (if k < data.len() {
                        data[k]
                    } else {
                        0
                    })
            }
            &&& i >= config.notices@.len() ==> {
                &&& count == 0
                &&& flags == 0
                &&& forall|k: int| 0 <= k < 0x1000 ==> #[trigger] text[k] == 0
            }
        }),
{
    let notices = config.notices@;
    let image = global_image(config);
    let part = notice_bytes(notices);
    law_global_fields(config);
    bytes::law_number_bytes(notice_count(notices, i), notice_flags(notices, i));
    let field = bytes::padded(notice_text(notices, i), 0x1000);
    bytes::law_field_bytes(notice_text(notices, i), 0x1000);
    assert(bytes::holds_at(part, 0xa0c + 4 * i, bytes::le32(notice_count(notices, i)))
        && bytes::holds_at(part, 0xa24 + 2 * i, bytes::le16(notice_flags(notices, i)))
        && bytes::holds_at(part, 0xa2c + 0x1000 * i, field)) by {
        law_notice_fields(notices);
        assert(i == 0 || i == 1 || i == 2 || i == 3);
    }
    lemma_bytes_at(image, 0, part, 0xa0c + 4 * i, bytes::le32(notice_count(notices, i)));
    lemma_bytes_at(image, 0, part, 0xa24 + 2 * i, bytes::le16(notice_flags(notices, i)));
    lemma_bytes_at(image, 0, part, 0xa2c + 0x1000 * i, field);
    let count = bytes::le32(notice_count(notices, i));
    let flags = bytes::le16(notice_flags(notices, i));
    assert(count[0] == image[0xa0c + 4 * i + 0] && count[1] == image[0xa0c + 4 * i + 1] && count[2]
        == image[0xa0c + 4 * i + 2] && count[3] == image[0xa0c + 4 * i + 3]);
    assert(flags[0] == image[0xa24 + 2 * i + 0] && flags[1] == image[0xa24 + 2 * i + 1]);
    let text = image.subrange(0xa2c + 0x1000 * i, 0x1a2c + 0x1000 * i);
    assert forall|k: int| 0 <= k < 0x1000 implies #[trigger] text[k] == field[k] by {
        assert(field[k] == image[0xa2c + 0x1000 * i + k]);
    }
}

proof fn lemma_bytes_at(image: Seq<u8>, at: int, part: Seq<u8>, k: int, v: Seq<u8>)
    requires
        bytes::holds_at(image, at, part),
        bytes::holds_at(part, k, v),
    ensures
        forall|j: int| 0 <= j < v.len() ==> #[trigger] v[j] == image[at + k + j],
{
    bytes::lemma_part_at(image, at, part);
    bytes::law_holds_at(image, at + k, v);
}

/// What the shared memory tells of the event: its numbers from 0x8aac on, and from 0x8ac0 on the
/// first eight stalls, in places that are zero where there are fewer.
pub proof fn law_event_stands(config: MhfConfig, i: int)
    requires
        0 <= i < 8,
    ensures
        ({
            let image = global_image(config);
            let word = |at: int|
                image[at] + 0x100 * image[at + 1] + 0x1_0000 * image[at + 2] + 0x100_0000 * image[at
                    + 3];
            &&& word(0x8aac) == config.mez_event_id
            &&& word(0x8ab0) == config.mez_start
            &&& word(0x8ab4) == config.mez_end
            &&& word(0x8ab8) == config.mez_solo_tickets
            &&& word(0x8abc) == config.mez_group_tickets
            &&& i < config.mez_stalls@.len() ==> word(0x8ac0 + 4 * i) == config.mez_stalls@[i]
            &&& i >= config.mez_stalls@.len() ==> word(0x8ac0 + 4 * i) == 0
        }),
{
    let image = global_image(config);
    law_global_fields(config);
    lemma_word_at(image, 0x8aac, config.mez_event_id);
    lemma_word_at(image, 0x8ab0, config.mez_start);
    lemma_word_at(image, 0x8ab4, config.mez_end);
    lemma_word_at(image, 0x8ab8, config.mez_solo_tickets);
    lemma_word_at(image, 0x8abc, config.mez_group_tickets);
    let places = stall_places(config.mez_stalls@);
    let all = bytes::le32_all(places);
    bytes::law_list_bytes(places, i);
    bytes::law_holds_at(image, 0x8ac0, all);
    assert(all[4 * i] == image[0x8ac0 + (4 * i)] && all[4 * i + 1] == image[0x8ac0 + (4 * i + 1)]
        && all[4 * i + 2] == image[0x8ac0 + (4 * i + 2)] && all[4 * i + 3] == image[0x8ac0 + (4 * i
        + 3)]);
}

proof fn lemma_word_at(image: Seq<u8>, at: int, x: u32)
    requires
        bytes::holds_at(image, at, bytes::le32(x)),
    ensures
        image[at] + 0x100 * image[at + 1] + 0x1_0000 * image[at + 2] + 0x100_0000 * image[at + 3]
            == x,
{
    let v = bytes::le32(x);
    bytes::law_number_bytes(x, 0);
    bytes::law_holds_at(image, at, v);
    assert(v[0] == image[at + 0] && v[1] == image[at + 1] && v[2] == image[at + 2] && v[3]
        == image[at + 3]);
}

/// Bytes are zero from one place to another where each of them is.
pub proof fn law_zero_between(image: Seq<u8>, from: int, to: int)
    ensures
        zero_between(image, from, to) <==> forall|k: int|
            from <= k < to ==> #[trigger] image[k] == 0,
{
}

/// What the shared memory is filled with is what the laws on the notices and the event speak of.
pub proof fn law_init_global(config: &MhfConfig, res: Vec<u8>)
    requires
        call_ensures(init_global, (config,), res),
    ensures
        res@.len() == 0x8ae0,
        res@ == global_image(*config),
{
}

/// Unlocking went well without an error, or with the error code 0, and with no other.
pub proof fn law_global_unlocked(code: i32, none: bool, some: bool)
    requires
        call_ensures(global_unlocked, (None::<i32>,), none),
        call_ensures(global_unlocked, (Some(code),), some),
    ensures
        none,
        some <==> code == 0,
{
}

} // verus!
