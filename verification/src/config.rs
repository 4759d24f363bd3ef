//! What the launcher is told about the player, the server and the client.
use std::path::PathBuf;
use vstd::prelude::*;

verus! {

/// `std::path::PathBuf`, which is only handed on.
#[verifier::external_type_specification]
#[verifier::external_body]
pub struct ExPathBuf(PathBuf);

/// The releases of the client that can be booted.
#[derive(Clone, Copy, Debug, PartialEq, Eq, Structural)]
pub enum MhfVersion {
    F5,
    ZZ,
}

/// The command-line flags that the client knows.
#[derive(Clone, Copy, Debug, PartialEq, Eq, Structural)]
pub enum CliFlags {
    Selfup,
    Restat,
    Autolc,
    Hanres,
    DmmBoot,
    DmmSelfup,
    DmmAutolc,
    DmmReboot,
    Npge,
    NpMhfoTest,
}

/// A friend of one of the player's characters.
#[derive(Debug)]
pub struct FriendData {
    /// The friend's own character.
    pub id: u32,
    /// The player's character whose friend this is.
    pub cid: u32,
    pub name: String,
}

impl Clone for FriendData {
    fn clone(&self) -> (res: Self)
        ensures
            res == *self,
    {
        FriendData { id: self.id, cid: self.cid, name: self.name.clone() }
    }
}

/// An announcement that the client shows.
#[derive(Debug)]
pub struct Notice {
    pub flags: u16,
    pub data: String,
}

/// Everything that a launch is made from.
#[derive(Debug)]
pub struct MhfConfig {
    pub char_id: u32,
    pub char_name: String,
    pub char_new: bool,
    pub char_hr: u32,
    pub char_gr: u32,
    pub char_ids: Vec<u32>,
    pub friends: Vec<FriendData>,
    pub user_token_id: u32,
    pub user_token: String,
    pub user_name: String,
    pub user_password: String,
    pub user_rights: u32,
    pub server_host: String,
    pub server_port: u32,
    pub entrance_count: u32,
    pub current_ts: u32,
    pub expiry_ts: u32,
    pub notices: Vec<Notice>,
    pub mez_event_id: u32,
    pub mez_start: u32,
    pub mez_end: u32,
    pub mez_solo_tickets: u32,
    pub mez_group_tickets: u32,
    /// The client's numbers of the stalls that are open.
    pub mez_stalls: Vec<u32>,
    pub version: MhfVersion,
    /// The folder of the client. Without it, the current folder is taken.
    pub mhf_folder: Option<PathBuf>,
    pub mhf_flags: Option<Vec<CliFlags>>,
    /// The font to use in place of the one in the client's settings.
    pub font_name: Option<String>,
}

/// Why a launch failed.
#[derive(Clone, Copy, Debug, PartialEq, Eq, Structural)]
pub enum Error {
    /// The folder of the client cannot be used.
    GamePath,
    /// The launcher's own module is not known.
    Module,
    /// A mutex of the client cannot be had.
    Mutex,
    /// The memory that is shared with the client cannot be allocated or released.
    GlobalAlloc,
    /// The client's library cannot be loaded or freed.
    Dll,
    /// The client's library has no entry point.
    ProcNotFound,
}

} // verus!
