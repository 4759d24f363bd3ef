//! The command-line flags, as the client counts them.
use crate::config::CliFlags;
use vstd::prelude::*;

verus! {

/// What the flags of the command line come to.
#[derive(Clone, Copy, Debug, PartialEq, Eq, Structural)]
pub struct CmdData {
    pub cmd_flags_1: u32,
    pub cmd_flags_2: u32,
    pub cmd_dmm: u32,
}

impl Default for CmdData {
    fn default() -> (res: Self)
        ensures
            res == (CmdData { cmd_flags_1: 0, cmd_flags_2: 0, cmd_dmm: 0 }),
    {
        CmdData { cmd_flags_1: 0, cmd_flags_2: 0, cmd_dmm: 0 }
    }
}

/// The way of starting that a flag asks for, if it asks for one.
pub open spec fn start_code(flag: CliFlags) -> Option<u32> {
    match flag {
        CliFlags::Selfup => Some(1),
        CliFlags::Restat => Some(2),
        CliFlags::Autolc => Some(3),
        CliFlags::Hanres => Some(4),
        CliFlags::DmmBoot => Some(5),
        CliFlags::DmmSelfup => Some(6),
        CliFlags::DmmAutolc => Some(7),
        CliFlags::DmmReboot => Some(8),
        CliFlags::Npge => Some(9),
        CliFlags::NpMhfoTest => None,
    }
}

/// The way of starting that the last flag which asks for one asks for, or else 0.
pub open spec fn last_start_code(flags: Seq<CliFlags>) -> u32
    decreases flags.len(),
{
    if flags.len() == 0 {
        0
    } else {
        match start_code(flags.last()) {
            Some(code) => code,
            None => last_start_code(flags.drop_last()),
        }
    }
}

/// Whether a flag comes from the DMM launcher.
pub open spec fn is_dmm(flag: CliFlags) -> bool {
    flag == CliFlags::DmmBoot || flag == CliFlags::DmmSelfup || flag == CliFlags::DmmAutolc || flag
        == CliFlags::DmmReboot
}

/// The bits that the flags set: `Npge` sets the two of 6, of which `NpMhfoTest` sets the higher.
pub open spec fn flag_bits(flags: Seq<CliFlags>) -> u32 {
    if flags.contains(CliFlags::Npge) {
        6
    } else if flags.contains(CliFlags::NpMhfoTest) {
        4
    } else {
        0
    }
}

/// Whether one of the flags comes from the DMM launcher.
pub open spec fn any_dmm(flags: Seq<CliFlags>) -> bool {
    exists|i: int| 0 <= i < flags.len() && #[trigger] is_dmm(flags[i])
}

/// What the flags of the command line come to.
pub open spec fn cmd_data_of(flags: Seq<CliFlags>) -> CmdData {
    CmdData {
        cmd_flags_1: last_start_code(flags),
        cmd_flags_2: flag_bits(flags),
        cmd_dmm: if any_dmm(flags) { 1 } else { 0 },
    }
}

proof fn lemma_one_more_flag(flags: Seq<CliFlags>, flag: CliFlags)
    ensures
        ({
            let before = cmd_data_of(flags);
            let after = cmd_data_of(flags.push(flag));
            &&& after.cmd_flags_1 == (match start_code(flag) {
                Some(code) => code,
                None => before.cmd_flags_1,
            })
            &&& after.cmd_flags_2 == (if flag == CliFlags::Npge {
                before.cmd_flags_2 | 6
            } else if flag == CliFlags::NpMhfoTest {
                before.cmd_flags_2 | 4
            } else {
                before.cmd_flags_2
            })
            &&& after.cmd_dmm == (if is_dmm(flag) { 1 } else { before.cmd_dmm })
        }),
{
    let more = flags.push(flag);
    assert(more.drop_last() =~= flags);
    assert(more[flags.len() as int] == flag);
    assert forall|f: CliFlags| more.contains(f) implies flags.contains(f) || f == flag by {
        let i = choose|i: int| 0 <= i < more.len() && more[i] == f;
        if i < flags.len() {
            assert(flags[i] == f);
        }
    }
    assert forall|f: CliFlags| flags.contains(f) implies more.contains(f) by {
        let i = choose|i: int| 0 <= i < flags.len() && flags[i] == f;
        assert(more[i] == f);
    }
    assert(more.contains(flag));
    if any_dmm(flags) {
        let i = choose|i: int| 0 <= i < flags.len() && #[trigger] is_dmm(flags[i]);
        assert(is_dmm(more[i]));
    }
    if any_dmm(more) && !is_dmm(flag) {
        let i = choose|i: int| 0 <= i < more.len() && #[trigger] is_dmm(more[i]);
        assert(is_dmm(flags[i]));
    }
    assert(0u32 | 6 == 6 && 4u32 | 6 == 6 && 6u32 | 6 == 6 && 0u32 | 4 == 4 && 4u32 | 4 == 4 && 6u32
        | 4 == 6) by (bit_vector);
}

/// What the flags of the command line come to.
pub fn init_cli(mhf_flags: &[CliFlags]) -> (res: CmdData)
    ensures
        res == cmd_data_of(mhf_flags@),
{
    let mut cmd_data: CmdData = CmdData::default();
    let mut i: usize = 0;
    assert(cmd_data == cmd_data_of(mhf_flags@.take(0)));
    while i < mhf_flags.len()
        invariant
            i <= mhf_flags@.len(),
            cmd_data == cmd_data_of(mhf_flags@.take(i as int)),
        decreases mhf_flags@.len() - i,
    {
        proof {
            lemma_one_more_flag(mhf_flags@.take(i as int), mhf_flags@[i as int]);
            assert(mhf_flags@.take(i + 1) =~= mhf_flags@.take(i as int).push(mhf_flags@[i as int]));
        }
        match mhf_flags[i] {
            CliFlags::Selfup => {
                cmd_data.cmd_flags_1 = 1;
            },
            CliFlags::Restat => {
                cmd_data.cmd_flags_1 = 2;
            },
            CliFlags::Autolc => {
                cmd_data.cmd_flags_1 = 3;
            },
            CliFlags::Hanres => {
                cmd_data.cmd_flags_1 = 4;
            },
            CliFlags::DmmBoot => {
                cmd_data.cmd_flags_1 = 5;
                cmd_data.cmd_dmm = 1;
            },
            CliFlags::DmmSelfup => {
                cmd_data.cmd_flags_1 = 6;
                cmd_data.cmd_dmm = 1;
            },
            CliFlags::DmmAutolc => {
                cmd_data.cmd_flags_1 = 7;
                cmd_data.cmd_dmm = 1;
            },
            CliFlags::DmmReboot => {
                cmd_data.cmd_flags_1 = 8;
                cmd_data.cmd_dmm = 1;
            },
            CliFlags::Npge => {
                cmd_data.cmd_flags_1 = 9;
                cmd_data.cmd_flags_2 = cmd_data.cmd_flags_2 | 6;
            },
            CliFlags::NpMhfoTest => {
                cmd_data.cmd_flags_2 = cmd_data.cmd_flags_2 | 4;
            },
        }
        i = i + 1;
    }
    assert(mhf_flags@.take(i as int) =~= mhf_flags@);
    cmd_data
}

/// Without flags all is zero, and each flag changes what those before it came to: it sets the way of
/// starting, or adds to the bits, and a flag of the DMM launcher sets its mark for good.
pub proof fn law_flags_in_turn(flags: Seq<CliFlags>, flag: CliFlags)
    ensures
        cmd_data_of(Seq::empty()) == (CmdData { cmd_flags_1: 0, cmd_flags_2: 0, cmd_dmm: 0 }),
        ({
            let was = cmd_data_of(flags);
            let is = cmd_data_of(flags.push(flag));
            match flag {
                CliFlags::Selfup => is == (CmdData { cmd_flags_1: 1, ..was }),
                CliFlags::Restat => is == (CmdData { cmd_flags_1: 2, ..was }),
                CliFlags::Autolc => is == (CmdData { cmd_flags_1: 3, ..was }),
                CliFlags::Hanres => is == (CmdData { cmd_flags_1: 4, ..was }),
                CliFlags::DmmBoot => is == (CmdData { cmd_flags_1: 5, cmd_dmm: 1, ..was }),
                CliFlags::DmmSelfup => is == (CmdData { cmd_flags_1: 6, cmd_dmm: 1, ..was }),
                CliFlags::DmmAutolc => is == (CmdData { cmd_flags_1: 7, cmd_dmm: 1, ..was }),
                CliFlags::DmmReboot => is == (CmdData { cmd_flags_1: 8, cmd_dmm: 1, ..was }),
                CliFlags::Npge => is == (CmdData {
                    cmd_flags_1: 9,
                    cmd_flags_2: was.cmd_flags_2 | 6,
                    ..was
                }),
                CliFlags::NpMhfoTest => is == (CmdData {
                    cmd_flags_2: was.cmd_flags_2 | 4,
                    ..was
                }),
            }
        }),
{
    lemma_one_more_flag(flags, flag);
}

/// Which bits and marks are set depends on which flags there are, not on their order.
pub proof fn law_flags_present(flags: Seq<CliFlags>)
    ensures
        cmd_data_of(flags).cmd_dmm == 1 <==> flags.contains(CliFlags::DmmBoot) || flags.contains(
            CliFlags::DmmSelfup,
        ) || flags.contains(CliFlags::DmmAutolc) || flags.contains(CliFlags::DmmReboot),
        cmd_data_of(flags).cmd_dmm <= 1,
        cmd_data_of(flags).cmd_flags_2 & 4 == 4 <==> flags.contains(CliFlags::Npge)
            || flags.contains(CliFlags::NpMhfoTest),
        cmd_data_of(flags).cmd_flags_2 & 2 == 2 <==> flags.contains(CliFlags::Npge),
        cmd_data_of(flags).cmd_flags_2 & !6 == 0,
{
    assert(0u32 & 4 == 0 && 4u32 & 4 == 4 && 6u32 & 4 == 4 && 0u32 & 2 == 0 && 4u32 & 2 == 0 && 6u32
        & 2 == 2 && 0u32 & !6 == 0 && 4u32 & !6 == 0 && 6u32 & !6 == 0) by (bit_vector);
    assert forall|f: CliFlags| is_dmm(f) && flags.contains(f) implies any_dmm(flags) by {
        let i = choose|i: int| 0 <= i < flags.len() && flags[i] == f;
        assert(is_dmm(flags[i]));
    }
    assert(is_dmm(CliFlags::DmmBoot) && is_dmm(CliFlags::DmmSelfup) && is_dmm(CliFlags::DmmAutolc)
        && is_dmm(CliFlags::DmmReboot));
    if any_dmm(flags) {
        let i = choose|i: int| 0 <= i < flags.len() && #[trigger] is_dmm(flags[i]);
        assert(flags.contains(flags[i]));
    }
}

/// What a list of flags comes to is what the laws on flags speak of.
pub proof fn law_init_cli(flags: &[CliFlags], res: CmdData)
    requires
        call_ensures(init_cli, (flags,), res),
    ensures
        res == cmd_data_of(flags@),
{
}

} // verus!
