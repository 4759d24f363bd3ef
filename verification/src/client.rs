//! The client's variants: which library holds the game, and where its friend table lies.
use crate::config::MhfVersion;
use vstd::prelude::*;

verus! {

/// Where a client keeps its friend table.
#[derive(Clone, Copy, Debug)]
pub struct FriendLayout {
    /// The library that holds the table.
    pub dll_name: &'static str,
    /// Where the table lies in that library.
    pub base_off: usize,
    /// Where the numeric ID lies in the first entry.
    pub id0_off: usize,
}

/// The name of the library of the HD client.
pub const DLL_HD: &'static str = "mhfo-hd.dll";

/// The name of the library of the SD client.
pub const DLL_SD: &'static str = "mhfo.dll";

/// The friend table of the HD client.
pub open spec fn hd_layout() -> FriendLayout {
    FriendLayout { dll_name: DLL_HD, base_off: 0x0ED7D6C0, id0_off: 0x18 }
}

/// The friend table of the SD client.
pub open spec fn sd_layout() -> FriendLayout {
    FriendLayout { dll_name: DLL_SD, base_off: 0x06142F20, id0_off: 0x18 }
}

/// Whether a client draws in HD. Only the ZZ release can, and does where `VIDEO.GRAPHICS_VER` is
/// 1.
pub open spec fn is_hd(version: MhfVersion, graphics_ver: u32) -> bool {
    version == MhfVersion::ZZ && graphics_ver == 1
}

/// The friend table of a client, which also names the library that holds the game.
pub open spec fn layout_of(version: MhfVersion, graphics_ver: u32) -> FriendLayout {
    if is_hd(version, graphics_ver) {
        hd_layout()
    } else {
        sd_layout()
    }
}

/// The friend table of a client, which also names the library that holds the game.
pub fn friend_layout(version: MhfVersion, graphics_ver: u32) -> (res: FriendLayout)
    ensures
        res == (if is_hd(version, graphics_ver) { hd_layout() } else { sd_layout() }),
        res == layout_of(version, graphics_ver),
{
    match version {
        MhfVersion::F5 => FriendLayout { dll_name: DLL_SD, base_off: 0x06142F20, id0_off: 0x18 },
        MhfVersion::ZZ => {
            if graphics_ver == 1 {
                FriendLayout { dll_name: DLL_HD, base_off: 0x0ED7D6C0, id0_off: 0x18 }
            } else {
                FriendLayout { dll_name: DLL_SD, base_off: 0x06142F20, id0_off: 0x18 }
            }
        },
    }
}

/// The ZZ release with a `VIDEO.GRAPHICS_VER` of 1 plays from the HD library, and every other client
/// from the SD library. Each library has its table in one place, and both lay it out alike.
pub proof fn law_layouts(version: MhfVersion, graphics_ver: u32)
    ensures
        ({
            let l = layout_of(version, graphics_ver);
            &&& version == MhfVersion::ZZ && graphics_ver == 1 ==> l.dll_name@ == "mhfo-hd.dll"@
                && l.base_off == 0x0ED7D6C0
            &&& version == MhfVersion::ZZ && graphics_ver != 1 ==> l.dll_name@ == "mhfo.dll"@
                && l.base_off == 0x06142F20
            &&& version == MhfVersion::F5 ==> l.dll_name@ == "mhfo.dll"@ && l.base_off
                == 0x06142F20
            &&& l.id0_off == 0x18
        }),
{
}

/// The layout that is given for a client is the one that the law on layouts speaks of.
pub proof fn law_friend_layout(version: MhfVersion, graphics_ver: u32, res: FriendLayout)
    requires
        call_ensures(friend_layout, (version, graphics_ver), res),
    ensures
        res == layout_of(version, graphics_ver),
{
}

} // verus!
