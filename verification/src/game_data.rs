//! The block of data that the client is started with.
//!
//! The client reads its block by fixed offsets, as a 32-bit process: numbers, handles and
//! addresses take four bytes each, and texts lie in fields of fixed size.
use crate::bytes;
use crate::bytes::{push_all_u32, push_padded, push_slice, push_u32, push_zeros};
use crate::config::{MhfConfig, MhfVersion};
use crate::game_layout;
use crate::ini::IniSettings;
use crate::text;
use crate::text::decimal_string;
use crate::utils;
use crate::utils::bufcopy;
use vstd::prelude::*;
use vstd::string::*;
use vstd::utf8::*;

verus! {

/// The name of the client's mutex, as its block holds it.
pub const MUTEX_MASTER_NAME: &'static str = "MHF_Master\0";

/// The name of the mutex that tells that the client is ready, as its block holds it.
pub const MUTEX_MASTER_READY_NAME: &'static str = "MHF_Master_Ready\0";

/// What the running process contributes to the block.
#[derive(Clone, Copy, Debug)]
pub struct Host {
    pub main_module: u32,
    pub mutex_master: u32,
    pub mutex_master_ready: u32,
    pub global_alloc: u32,
    pub keyboard_layout: u32,
    /// The address of the procedure that answers 0.
    pub mock_proc: u32,
    /// The address of the procedure that answers for GameGuard.
    pub gg_proc: u32,
}

/// What is known once the client's library is loaded.
#[derive(Clone, Copy, Debug)]
pub struct Loaded {
    pub mhfo_module: u32,
    /// The address of the library's entry point.
    pub mhddl_main: u32,
    /// The address of the block.
    pub block: u32,
    /// The address that the block gives for its data.
    pub data_ptr: u32,
}

/// The address of the server.
pub open spec fn server_address(host: Seq<char>, port: u32) -> Seq<char> {
    host + ":"@ + text::decimal(port as nat)
}

fn server_address_string(host: &String, port: u32) -> (res: String)
    ensures
        res@ == server_address(host@, port),
{
    let mut res: String = host.as_str().to_owned();
    res.append(":");
    res.append(decimal_string(port).as_str());
    res
}

/// The address that stands in for the server's.
pub open spec fn alt_address(host: Seq<char>) -> Seq<char> {
    host + ":8080"@
}

fn alt_address_string(host: &String) -> (res: String)
    ensures
        res@ == alt_address(host@),
{
    let mut res: String = host.as_str().to_owned();
    res.append(":8080");
    res
}

/// The size of the font's name in the F5 block.
pub const F5_FONT_SIZE: usize = 0x60;

/// The size of the font's name in the ZZ block.
pub const ZZ_FONT_SIZE: usize = 0x68;

/// The size of the proxy's address in a block.
pub const PROXY_ADDR_SIZE: usize = 0x40;

/// The size of the font's name in the block of a release.
pub fn font_size(version: MhfVersion) -> (res: usize)
    ensures
        res == (match version {
            MhfVersion::F5 => F5_FONT_SIZE,
            MhfVersion::ZZ => ZZ_FONT_SIZE,
        }),
{
    match version {
        MhfVersion::F5 => F5_FONT_SIZE,
        MhfVersion::ZZ => ZZ_FONT_SIZE,
    }
}

/// The name of the font in a field of `n` bytes: the one that is asked for, or else what the
/// settings give.
pub open spec fn font_field(custom: Option<String>, from_ini: Seq<u8>, n: nat) -> Seq<u8> {
    match custom {
        Some(font) => bytes::padded(encode_utf8(font@), n),
        None => bytes::padded(from_ini, n),
    }
}

fn push_font(out: &mut Vec<u8>, custom: &Option<String>, from_ini: &[u8], n: usize)
    ensures
        final(out)@ == old(out)@ + font_field(*custom, from_ini@, n as nat),
{
    match custom {
        Some(font) => push_padded(out, font.as_str().as_bytes(), n),
        None => push_padded(out, from_ini, n),
    }
}

/// The IDs of the player's characters, in sixteen places.
pub open spec fn char_id_places(ids: Seq<u32>) -> Seq<u32> {
    utils::overlay(Seq::new(0x10, |i: int| 0u32), ids)
}

fn push_char_ids(out: &mut Vec<u8>, ids: &Vec<u32>)
    ensures
        final(out)@ == old(out)@ + bytes::le32_all(char_id_places(ids@)),
{
    let mut places: [u32; 0x10] = [0u32; 0x10];
    assert(places@ =~= Seq::new(0x10, |i: int| 0u32));
    bufcopy(&mut places, ids.as_slice());
    push_all_u32(out, &places);
}

/// The status of the chosen character: whether it is new.
pub open spec fn char_status(new: bool) -> u32 {
    if new { 1 } else { 0 }
}

/// The launcher itself, the folder of the client, and the account. The flags of the command line
/// have a place here, which stays zero.
pub open spec fn account_bytes(config: MhfConfig, main_module: u32, folder: Seq<u8>) -> Seq<u8> {
    bytes::le32(main_module)
        + bytes::zeros(0x8)
        + bytes::le32(0)
        + bytes::le32(0)
        + bytes::padded(folder, 0x400)
        + bytes::padded(folder, 0x400)
        + bytes::padded(encode_utf8(config.user_name@), 0x800)
        + bytes::padded(encode_utf8(config.user_password@), 0x800)
}

fn account_block(config: &MhfConfig, main_module: u32, folder: &[u8]) -> (res: Vec<u8>)
    ensures
        res@ == account_bytes(*config, main_module, folder@),
{
    let mut out: Vec<u8> = Vec::new();
    push_u32(&mut out, main_module);
    assert(out@ =~= bytes::le32(main_module));
    push_zeros(&mut out, 0x8);
    push_u32(&mut out, 0);  // cmd_flags_1
    push_u32(&mut out, 0);  // cmd_flags_2
    push_padded(&mut out, folder, 0x400);  // path1
    push_padded(&mut out, folder, 0x400);  // path2
    push_padded(&mut out, config.user_name.as_str().as_bytes(), 0x800);  // user_name
    push_padded(&mut out, config.user_password.as_str().as_bytes(), 0x800);  // user_password
    out
}

/// The mutexes, the path of the settings file, and the procedures that the launcher provides.
pub open spec fn process_bytes(host: Host, ini_file: Seq<u8>) -> Seq<u8> {
    bytes::le32(0)
        + bytes::le32(0)
        + bytes::le32(0)
        + bytes::zeros(0x4)
        + bytes::le32(host.mutex_master)
        + bytes::le32(host.mutex_master_ready)
        + bytes::padded(encode_utf8(MUTEX_MASTER_NAME@), 0x40)
        + bytes::padded(ini_file, 0x40)
        + bytes::le32(host.mock_proc)
        + bytes::le32(host.gg_proc)
        + bytes::le32(host.mock_proc)
        + bytes::zeros(0xc)
}

fn process_block(host: &Host, ini_file: &[u8]) -> (res: Vec<u8>)
    ensures
        res@ == process_bytes(*host, ini_file@),
{
    let mut out: Vec<u8> = Vec::new();
    push_u32(&mut out, 0);  // cmd_number
    assert(out@ =~= bytes::le32(0));
    push_u32(&mut out, 0);  // cmd_netfcup
    push_u32(&mut out, 0);  // cmd_dmm
    push_zeros(&mut out, 0x4);
    push_u32(&mut out, host.mutex_master);
    push_u32(&mut out, host.mutex_master_ready);
    push_padded(&mut out, MUTEX_MASTER_NAME.as_bytes(), 0x40);  // mutex_master_name
    push_padded(&mut out, ini_file, 0x40);  // ini_file
    push_u32(&mut out, host.mock_proc);  // proc_1
    push_u32(&mut out, host.gg_proc);  // proc_2
    push_u32(&mut out, host.mock_proc);  // proc_3
    push_zeros(&mut out, 0xc);
    out
}

/// The chosen character, the session, and the server.
pub open spec fn server_bytes(config: MhfConfig) -> Seq<u8> {
    bytes::le32(config.char_id)
        + bytes::le32(config.char_id)
        + bytes::le32(config.user_token_id)
        + bytes::padded(encode_utf8(config.user_token@), 0x10)
        + bytes::zeros(0x8)
        + bytes::le32(config.current_ts)
        + bytes::le32(0)
        + bytes::zeros(0x200)
        + bytes::padded(encode_utf8(server_address(config.server_host@, config.server_port)), 0x100)
        + bytes::padded(encode_utf8(config.server_host@), 0x100)
        + bytes::le32(0)
        + bytes::le32(config.entrance_count)
        + bytes::le32(char_status(config.char_new))
        + bytes::le32(config.user_rights)
        + bytes::le32(config.char_hr)
        + bytes::padded(encode_utf8(config.char_name@), 0x10)
}

fn server_block(config: &MhfConfig) -> (res: Vec<u8>)
    ensures
        res@ == server_bytes(*config),
{
    let mut out: Vec<u8> = Vec::new();
    push_u32(&mut out, config.char_id);  // selected_char_id_1
    assert(out@ =~= bytes::le32(config.char_id));
    push_u32(&mut out, config.char_id);  // selected_char_id_2
    push_u32(&mut out, config.user_token_id);
    push_padded(&mut out, config.user_token.as_str().as_bytes(), 0x10);  // user_token
    push_zeros(&mut out, 0x8);
    push_u32(&mut out, config.current_ts);  // server_current_ts
    push_u32(&mut out, 0);  // fixed
    push_zeros(&mut out, 0x200);
    let remote_addr: String = server_address_string(&config.server_host, config.server_port);
    push_padded(&mut out, remote_addr.as_str().as_bytes(), 0x100);
    push_padded(&mut out, config.server_host.as_str().as_bytes(), 0x100);  // remote_host
    push_u32(&mut out, 0);  // remote_patch_count
    push_u32(&mut out, config.entrance_count);  // server_entrance_count
    push_u32(&mut out, if config.char_new { 1 } else { 0 });  // selected_char_status
    push_u32(&mut out, config.user_rights);
    push_u32(&mut out, config.char_hr);  // selected_char_hr
    push_padded(&mut out, config.char_name.as_str().as_bytes(), 0x10);  // selected_char_name
    out
}

/// The memory that is shared with the client, and the rank of the chosen character.
pub open spec fn shared_bytes(config: MhfConfig, global_alloc: u32) -> Seq<u8> {
    bytes::le32(global_alloc)
        + bytes::le32(1)
        + bytes::le32(0)
        + bytes::le32(config.char_gr)
        + bytes::zeros(0x8)
}

fn shared_block(config: &MhfConfig, global_alloc: u32) -> (res: Vec<u8>)
    ensures
        res@ == shared_bytes(*config, global_alloc),
{
    let mut out: Vec<u8> = Vec::new();
    push_u32(&mut out, global_alloc);
    assert(out@ =~= bytes::le32(global_alloc));
    push_u32(&mut out, 1);  // fixed
    push_u32(&mut out, 0);  // unknown
    push_u32(&mut out, config.char_gr);  // selected_char_gr
    push_zeros(&mut out, 0x8);
    out
}

/// The settings of the screen.
pub open spec fn video_bytes(settings: IniSettings) -> Seq<u8> {
    bytes::le32(settings.preset_level)
        + bytes::le32(settings.custom)
        + bytes::le32(settings.fullscreen_mode)
        + bytes::le32(settings.window_resolution_w)
        + bytes::le32(settings.window_resolution_h)
        + bytes::le32(settings.fullscreen_resolution_w)
        + bytes::le32(settings.fullscreen_resolution_h)
        + bytes::le32(settings.disp_max_char)
        + bytes::le32(settings.texture_dxt_use)
        + bytes::le32(settings.now_monitor_wh)
}

fn video_block(settings: &IniSettings) -> (res: Vec<u8>)
    ensures
        res@ == video_bytes(*settings),
{
    let mut out: Vec<u8> = Vec::new();
    push_u32(&mut out, settings.preset_level);
    assert(out@ =~= bytes::le32(settings.preset_level));
    push_u32(&mut out, settings.custom);
    push_u32(&mut out, settings.fullscreen_mode);
    push_u32(&mut out, settings.window_resolution_w);
    push_u32(&mut out, settings.window_resolution_h);
    push_u32(&mut out, settings.fullscreen_resolution_w);
    push_u32(&mut out, settings.fullscreen_resolution_h);
    push_u32(&mut out, settings.disp_max_char);
    push_u32(&mut out, settings.texture_dxt_use);
    push_u32(&mut out, settings.now_monitor_wh);
    out
}

/// The settings of sound, language and font.
pub open spec fn sound_bytes(settings: IniSettings) -> Seq<u8> {
    bytes::le32(settings.sound_notuse)
        + bytes::le32(settings.sound_volume)
        + bytes::le32(settings.sound_volume_inactivity)
        + bytes::le32(settings.sound_volume_minimize)
        + bytes::le32(settings.sound_frequency)
        + bytes::le32(settings.sound_buffernum)
        + bytes::le32(settings.language)
        + bytes::le32(settings.font_quality)
        + bytes::le32(settings.font_weight)
}

fn sound_block(settings: &IniSettings) -> (res: Vec<u8>)
    ensures
        res@ == sound_bytes(*settings),
{
    let mut out: Vec<u8> = Vec::new();
    push_u32(&mut out, settings.sound_notuse);
    assert(out@ =~= bytes::le32(settings.sound_notuse));
    push_u32(&mut out, settings.sound_volume);
    push_u32(&mut out, settings.sound_volume_inactivity);
    push_u32(&mut out, settings.sound_volume_minimize);
    push_u32(&mut out, settings.sound_frequency);
    push_u32(&mut out, settings.sound_buffernum);
    push_u32(&mut out, settings.language);
    push_u32(&mut out, settings.font_quality);
    push_u32(&mut out, settings.font_weight);
    out
}

/// The settings of the network.
pub open spec fn net_bytes(settings: IniSettings, proxy_addr: Seq<u8>) -> Seq<u8> {
    bytes::le32(settings.drawskip)
        + bytes::le32(settings.clogdis)
        + bytes::le32(settings.proxy_use)
        + bytes::le32(settings.proxy_ie)
        + bytes::le32(settings.proxy_set)
        + bytes::padded(proxy_addr, PROXY_ADDR_SIZE as nat)
        + bytes::le32(settings.proxy_port)
        + bytes::le32(settings.server_sel)
}

fn net_block(settings: &IniSettings, proxy_addr: &[u8]) -> (res: Vec<u8>)
    ensures
        res@ == net_bytes(*settings, proxy_addr@),
{
    let mut out: Vec<u8> = Vec::new();
    push_u32(&mut out, settings.drawskip);
    assert(out@ =~= bytes::le32(settings.drawskip));
    push_u32(&mut out, settings.clogdis);
    push_u32(&mut out, settings.proxy_use);
    push_u32(&mut out, settings.proxy_ie);
    push_u32(&mut out, settings.proxy_set);
    push_padded(&mut out, proxy_addr, PROXY_ADDR_SIZE);
    push_u32(&mut out, settings.proxy_port);
    push_u32(&mut out, settings.server_sel);
    out
}

/// What only the ZZ release has of the session.
pub open spec fn expiry_bytes(config: MhfConfig) -> Seq<u8> {
    bytes::zeros(0x40)
        + bytes::padded(encode_utf8(alt_address(config.server_host@)), 0xC0)
        + bytes::zeros(0x40)
        + bytes::le32(config.expiry_ts)
        + bytes::le32(0)
        + bytes::le32(1)
        + bytes::zeros(0x8)
}

fn expiry_block(config: &MhfConfig) -> (res: Vec<u8>)
    ensures
        res@ == expiry_bytes(*config),
{
    let mut out: Vec<u8> = Vec::new();
    push_zeros(&mut out, 0x40);
    assert(out@ =~= bytes::zeros(0x40));
    let alt_ip_address: String = alt_address_string(&config.server_host);
    push_padded(&mut out, alt_ip_address.as_str().as_bytes(), 0xC0);
    push_zeros(&mut out, 0x40);
    push_u32(&mut out, config.expiry_ts);  // server_expiry_ts
    push_u32(&mut out, 0);  // remote_16e
    push_u32(&mut out, 1);  // fixed
    push_zeros(&mut out, 0x8);
    out
}

/// Where the first of the block's own pointers leads to, from where the block's last part starts.
pub const INNER_1_OFF: u32 = 0x18;

/// Where the second of the block's own pointers leads to, from where the block's last part starts.
pub const INNER_2_OFF: u32 = 0x44;

/// Where the third of the block's own pointers leads to, from where the block's last part starts.
pub const INNER_3_OFF: u32 = 0x8;

/// The address of a place inside the block.
pub open spec fn inner_address(block: u32, links: u32, off: u32) -> u32 {
    (block + links + off) as u32
}

/// The last part of the block, which starts at the offset `links`: the keyboard, the pointers into
/// the block itself, and the client's library.
pub open spec fn links_bytes(host: Host, loaded: Loaded, links: u32) -> Seq<u8> {
    bytes::le32(loaded.data_ptr)
        + bytes::le32(host.keyboard_layout)
        + bytes::zeros(0x10)
        + bytes::zeros(0x4)
        + bytes::le32(0x10)
        + bytes::le32(inner_address(loaded.block, links, INNER_2_OFF))
        + bytes::zeros(0x4)
        + bytes::le32(0x10)
        + bytes::le32(inner_address(loaded.block, links, INNER_3_OFF))
        + bytes::le32(host.mock_proc)
        + bytes::zeros(0x4)
        + bytes::le32(host.mock_proc)
        + bytes::zeros(0x8)
        + bytes::zeros(0x14)
        + bytes::le32(loaded.mhfo_module)
        + bytes::zeros(0x4)
        + bytes::zeros(0x520)
        + bytes::padded(encode_utf8(MUTEX_MASTER_READY_NAME@), 0x100)
        + bytes::zeros(0x414)
        + bytes::le32(loaded.mhddl_main)
}

fn links_block(host: &Host, loaded: &Loaded, links: u32) -> (res: Vec<u8>)
    requires
        loaded.block + links + INNER_2_OFF <= u32::MAX,
    ensures
        res@ == links_bytes(*host, *loaded, links),
{
    let mut out: Vec<u8> = Vec::new();
    push_u32(&mut out, loaded.data_ptr);
    assert(out@ =~= bytes::le32(loaded.data_ptr));
    push_u32(&mut out, host.keyboard_layout);
    push_zeros(&mut out, 0x10);
    push_zeros(&mut out, 0x4);
    push_u32(&mut out, 0x10);  // fixed
    push_u32(&mut out, loaded.block + links + INNER_2_OFF);  // inner_ptr_2
    push_zeros(&mut out, 0x4);
    push_u32(&mut out, 0x10);  // fixed
    push_u32(&mut out, loaded.block + links + INNER_3_OFF);  // inner_ptr_3
    push_u32(&mut out, host.mock_proc);  // proc_4
    push_zeros(&mut out, 0x4);
    push_u32(&mut out, host.mock_proc);  // proc_5
    push_zeros(&mut out, 0x8);
    push_zeros(&mut out, 0x14);
    push_u32(&mut out, loaded.mhfo_module);
    push_zeros(&mut out, 0x4);
    push_zeros(&mut out, 0x520);
    push_padded(&mut out, MUTEX_MASTER_READY_NAME.as_bytes(), 0x100);  // mutex_master_ready_name
    push_zeros(&mut out, 0x414);
    push_u32(&mut out, loaded.mhddl_main);
    out
}

/// The size of the F5 block.
pub const F5_SIZE: u32 = 0x2920;

/// Where the last part of the F5 block starts.
pub const F5_LINKS: u32 = 0x1e88;

/// The size of the ZZ block.
pub const ZZ_SIZE: u32 = 0x2ab0;

/// Where the last part of the ZZ block starts.
pub const ZZ_LINKS: u32 = 0x2018;

/// The size of the block of a release.
pub open spec fn block_size_of(version: MhfVersion) -> u32 {
    match version {
        MhfVersion::F5 => F5_SIZE,
        MhfVersion::ZZ => ZZ_SIZE,
    }
}

/// The size of the block of a release.
pub fn block_size(version: MhfVersion) -> (res: u32)
    ensures
        res == block_size_of(version),
{
    match version {
        MhfVersion::F5 => F5_SIZE,
        MhfVersion::ZZ => ZZ_SIZE,
    }
}

/// The settings that go into the block.
#[derive(Debug)]
pub struct Settings {
    pub ints: IniSettings,
    /// The name of the font.
    pub font: Vec<u8>,
    /// The address of the proxy.
    pub proxy_addr: Vec<u8>,
}

/// The block of the F5 release.
pub open spec fn f5_block(
    config: MhfConfig,
    host: Host,
    loaded: Loaded,
    folder: Seq<u8>,
    ini_file: Seq<u8>,
    settings: Settings,
) -> Seq<u8> {
    account_bytes(config, host.main_module, folder)
        + process_bytes(host, ini_file)
        + server_bytes(config)
        + shared_bytes(config, host.global_alloc)
        + video_bytes(settings.ints)
        + sound_bytes(settings.ints)
        + font_field(config.font_name, settings.font@, F5_FONT_SIZE as nat)
        + bytes::le32(0)
        + net_bytes(settings.ints, settings.proxy_addr@)
        + bytes::le32(inner_address(loaded.block, F5_LINKS, INNER_1_OFF))
        + bytes::zeros(0x40)
        + bytes::zeros(0xc)
        + links_bytes(host, loaded, F5_LINKS)
}

/// The block that the F5 release is started with. `ini_file` is the path of its settings file.
pub fn init_data_f5(
    config: &MhfConfig,
    host: &Host,
    loaded: &Loaded,
    folder: &[u8],
    ini_file: &[u8],
    settings: &Settings,
) -> (res: Vec<u8>)
    requires
        loaded.block + F5_SIZE <= u32::MAX,
    ensures
        res@ == f5_block(*config, *host, *loaded, folder@, ini_file@, *settings),
        res@.len() == F5_SIZE,
{
    proof {
        game_layout::law_f5_parts(*config, *host, *loaded, folder@, ini_file@, *settings);
    }
    let mut out: Vec<u8> = account_block(config, host.main_module, folder);
    push_slice(&mut out, process_block(host, ini_file).as_slice());
    push_slice(&mut out, server_block(config).as_slice());
    push_slice(&mut out, shared_block(config, host.global_alloc).as_slice());
    push_slice(&mut out, video_block(&settings.ints).as_slice());
    push_slice(&mut out, sound_block(&settings.ints).as_slice());
    push_font(&mut out, &config.font_name, settings.font.as_slice(), F5_FONT_SIZE);
    push_u32(&mut out, 0);
    push_slice(&mut out, net_block(&settings.ints, settings.proxy_addr.as_slice()).as_slice());
    push_u32(&mut out, loaded.block + F5_LINKS + INNER_1_OFF);
    push_zeros(&mut out, 0x40);
    push_zeros(&mut out, 0xc);
    push_slice(&mut out, links_block(host, loaded, F5_LINKS).as_slice());
    out
}

/// The name of the settings file, as the ZZ block holds it.
pub const INI_BASENAME: &'static str = "mhf.ini\0";

/// The block of the ZZ release.
pub open spec fn zz_block(
    config: MhfConfig,
    host: Host,
    loaded: Loaded,
    folder: Seq<u8>,
    graphics_ver: u32,
    settings: Settings,
) -> Seq<u8> {
    account_bytes(config, host.main_module, folder)
        + process_bytes(host, encode_utf8(INI_BASENAME@))
        + server_bytes(config)
        + bytes::le32_all(char_id_places(config.char_ids@))
        + shared_bytes(config, host.global_alloc)
        + video_bytes(settings.ints)
        + bytes::le32(graphics_ver)
        + sound_bytes(settings.ints)
        + font_field(config.font_name, settings.font@, ZZ_FONT_SIZE as nat)
        + net_bytes(settings.ints, settings.proxy_addr@)
        + bytes::le32(inner_address(loaded.block, ZZ_LINKS, INNER_1_OFF))
        + bytes::zeros(0x40)
        + expiry_bytes(config)
        + links_bytes(host, loaded, ZZ_LINKS)
}

/// The block that the ZZ release is started with. It names its settings file without a folder.
pub fn init_data_zz(
    config: &MhfConfig,
    host: &Host,
    loaded: &Loaded,
    folder: &[u8],
    graphics_ver: u32,
    settings: &Settings,
) -> (res: Vec<u8>)
    requires
        loaded.block + ZZ_SIZE <= u32::MAX,
    ensures
        res@ == zz_block(*config, *host, *loaded, folder@, graphics_ver, *settings),
        res@.len() == ZZ_SIZE,
{
    proof {
        game_layout::law_zz_parts(*config, *host, *loaded, folder@, graphics_ver, *settings);
    }
    let mut out: Vec<u8> = account_block(config, host.main_module, folder);
    push_slice(&mut out, process_block(host, INI_BASENAME.as_bytes()).as_slice());
    push_slice(&mut out, server_block(config).as_slice());
    push_char_ids(&mut out, &config.char_ids);
    push_slice(&mut out, shared_block(config, host.global_alloc).as_slice());
    push_slice(&mut out, video_block(&settings.ints).as_slice());
    push_u32(&mut out, graphics_ver);
    push_slice(&mut out, sound_block(&settings.ints).as_slice());
    push_font(&mut out, &config.font_name, settings.font.as_slice(), ZZ_FONT_SIZE);
    push_slice(&mut out, net_block(&settings.ints, settings.proxy_addr.as_slice()).as_slice());
    push_u32(&mut out, loaded.block + ZZ_LINKS + INNER_1_OFF);
    push_zeros(&mut out, 0x40);
    push_slice(&mut out, expiry_block(config).as_slice());
    push_slice(&mut out, links_block(host, loaded, ZZ_LINKS).as_slice());
    out
}

/// The block of the release that is configured.
pub open spec fn client_block(
    config: MhfConfig,
    host: Host,
    loaded: Loaded,
    folder: Seq<u8>,
    ini_file: Seq<u8>,
    graphics_ver: u32,
    settings: Settings,
) -> Seq<u8> {
    match config.version {
        MhfVersion::F5 => f5_block(config, host, loaded, folder, ini_file, settings),
        MhfVersion::ZZ => zz_block(config, host, loaded, folder, graphics_ver, settings),
    }
}

/// The block that the release which is configured is started with. `ini_file` is the path of the
/// settings file, which only F5 is given, and only ZZ is told `graphics_ver`.
pub fn init_data(
    config: &MhfConfig,
    host: &Host,
    loaded: &Loaded,
    folder: &[u8],
    ini_file: &[u8],
    graphics_ver: u32,
    settings: &Settings,
) -> (res: Vec<u8>)
    requires
        loaded.block + block_size_of(config.version) <= u32::MAX,
    ensures
        res@ == client_block(
            *config,
            *host,
            *loaded,
            folder@,
            ini_file@,
            graphics_ver,
            *settings,
        ),
        res@.len() == block_size_of(config.version),
{
    match config.version {
        MhfVersion::F5 => init_data_f5(config, host, loaded, folder, ini_file, settings),
        MhfVersion::ZZ => init_data_zz(config, host, loaded, folder, graphics_ver, settings),
    }
}

/// The address of the server is the host, a colon, and the port in decimal digits that spell it,
/// without leading zeros.
pub proof fn law_server_address_spelled(host: Seq<char>, port: u32)
    ensures
        ({
            let address = server_address(host, port);
            let digits = address.skip(host.len() as int + 1);
            &&& address.len() > host.len() + 1
            &&& address.take(host.len() as int) == host
            &&& address[host.len() as int] == ':'
            &&& forall|i: int| 0 <= i < digits.len() ==> '0' <= #[trigger] digits[i] <= '9'
            &&& digits.len() > 1 ==> digits[0] != '0'
            &&& digits.fold_left(0int, |v: int, c: char| 10 * v + (c as int - '0' as int)) == port
        }),
{
    let address = server_address(host, port);
    reveal_strlit(":");
    text::law_decimal_spelled(port as nat);
    assert(address.skip(host.len() as int + 1) =~= text::decimal(port as nat));
    assert(address.take(host.len() as int) =~= host);
}

/// One host has another address for each port.
pub proof fn law_server_addresses_unique(host: Seq<char>, p: u32, q: u32)
    requires
        server_address(host, p) == server_address(host, q),
    ensures
        p == q,
{
    law_server_address_spelled(host, p);
    law_server_address_spelled(host, q);
}

proof fn lemma_encode_push_digits(s: Seq<char>, digits: Seq<char>)
    requires
        forall|i: int| 0 <= i < digits.len() ==> '0' <= #[trigger] digits[i] <= '9',
    ensures
        encode_utf8(s + digits).len() == encode_utf8(s).len() + digits.len(),
        digits.len() > 0 ==> encode_utf8(s + digits).last() != 0,
    decreases digits.len(),
{
    if digits.len() == 0 {
        assert(s + digits =~= s);
    } else {
        let most = digits.drop_last();
        lemma_encode_push_digits(s, most);
        text::lemma_encode_push_ascii(s + most, digits.last());
        assert((s + most).push(digits.last()) =~= s + digits);
        assert('0' <= digits[digits.len() - 1] <= '9');
    }
}

/// The encoded address of a server is at most eleven bytes longer than its host, and does not end in
/// a NUL.
pub proof fn lemma_address_room(host: Seq<char>, port: u32)
    ensures
        encode_utf8(server_address(host, port)).len() <= encode_utf8(host).len() + 11,
        encode_utf8(server_address(host, port)).len() > 0,
        encode_utf8(server_address(host, port)).last() != 0,
{
    let digits = text::decimal(port as nat);
    reveal_strlit(":");
    assert(server_address(host, port) =~= host.push(':') + digits);
    text::lemma_encode_push_ascii(host, ':');
    text::law_decimal_spelled(port as nat);
    text::law_decimal_of_u32_is_short(port);
    lemma_encode_push_digits(host.push(':'), digits);
}

/// Fields of 0x100 bytes tell the addresses of one host apart, where they have room for them.
pub proof fn lemma_address_fields_unique(host: Seq<char>, p: u32, q: u32)
    requires
        encode_utf8(host).len() + 11 <= 0x100,
        bytes::padded(encode_utf8(server_address(host, p)), 0x100) == bytes::padded(
            encode_utf8(server_address(host, q)),
            0x100,
        ),
    ensures
        p == q,
{
    let x = server_address(host, p);
    let y = server_address(host, q);
    let m = encode_utf8(x);
    let n = encode_utf8(y);
    let field = bytes::padded(m, 0x100);
    lemma_address_room(host, p);
    lemma_address_room(host, q);
    bytes::law_field_bytes(m, 0x100);
    bytes::law_field_bytes(n, 0x100);
    assert(field[m.len() - 1] != 0);
    assert(field[n.len() - 1] != 0);
    assert(m.len() == n.len());
    assert forall|k: int| 0 <= k < m.len() implies m[k] == n[k] by {
        assert(field[k] == m[k]);
    }
    assert(m =~= n);
    encode_utf8_decode_utf8(x);
    encode_utf8_decode_utf8(y);
    law_server_addresses_unique(host, p, q);
}

/// The address that stands in for the server's is the host at port 8080.
pub proof fn law_alt_address_spelled(host: Seq<char>)
    ensures
        alt_address(host) == host + seq![':', '8', '0', '8', '0'],
{
    reveal_strlit(":8080");
    assert(alt_address(host) =~= host + seq![':', '8', '0', '8', '0']);
}

/// The font's name in a block is the one that is configured, whatever the settings say, and else the
/// one in the settings. It is cut where the field ends, and the field is zero after it.
pub proof fn law_font_stands(custom: Option<String>, from_ini: Seq<u8>, n: nat, k: int)
    requires
        0 <= k < n,
    ensures
        ({
            let field = font_field(custom, from_ini, n);
            let name = if custom is Some { encode_utf8(custom.unwrap()@) } else { from_ini };
            &&& field.len() == n
            &&& k < name.len() ==> field[k] == name[k]
            &&& k >= name.len() ==> field[k] == 0
        }),
{
}

/// The IDs of the player's characters stand in sixteen places, which are zero where there are fewer.
pub proof fn law_char_id_places(ids: Seq<u32>, i: int)
    requires
        0 <= i < 16,
    ensures
        char_id_places(ids).len() == 16,
        i < ids.len() ==> char_id_places(ids)[i] == ids[i],
        i >= ids.len() ==> char_id_places(ids)[i] == 0,
{
}

/// A new character has the status 1, and any other the status 0.
pub proof fn law_char_status()
    ensures
        char_status(true) == 1,
        char_status(false) == 0,
{
}

/// A place inside the block lies as far behind its start as its part and its offset say.
pub proof fn law_inner_address(block: u32, links: u32, off: u32)
    requires
        block + links + off <= u32::MAX,
    ensures
        inner_address(block, links, off) == block + links + off,
{
}

/// The texts that are the same in every block.
pub proof fn law_fixed_texts()
    ensures
        MUTEX_MASTER_NAME@ == "MHF_Master\0"@,
        MUTEX_MASTER_READY_NAME@ == "MHF_Master_Ready\0"@,
        INI_BASENAME@ == "mhf.ini\0"@,
{
}

/// The block of the configured release: that of F5, with the path of the settings file, or that of
/// ZZ, with its graphics version. Each has its own size.
pub proof fn law_block_of_release(
    config: MhfConfig,
    host: Host,
    loaded: Loaded,
    folder: Seq<u8>,
    ini_file: Seq<u8>,
    graphics_ver: u32,
    settings: Settings,
)
    ensures
        ({
            let block = client_block(
                config,
                host,
                loaded,
                folder,
                ini_file,
                graphics_ver,
                settings,
            );
            &&& config.version == MhfVersion::F5 ==> {
                &&& block == f5_block(config, host, loaded, folder, ini_file, settings)
                &&& block.len() == 0x2920
                &&& block_size_of(config.version) == 0x2920
            }
            &&& config.version == MhfVersion::ZZ ==> {
                &&& block == zz_block(config, host, loaded, folder, graphics_ver, settings)
                &&& block.len() == 0x2ab0
                &&& block_size_of(config.version) == 0x2ab0
            }
        }),
{
    game_layout::law_f5_parts(config, host, loaded, folder, ini_file, settings);
    game_layout::law_zz_parts(config, host, loaded, folder, graphics_ver, settings);
}

/// The block that is built is the one of the release that is configured, in its size.
pub proof fn law_init_data(
    config: &MhfConfig,
    host: &Host,
    loaded: &Loaded,
    folder: &[u8],
    ini_file: &[u8],
    graphics_ver: u32,
    settings: &Settings,
    res: Vec<u8>,
)
    requires
        call_ensures(
            init_data,
            (config, host, loaded, folder, ini_file, graphics_ver, settings),
            res,
        ),
    ensures
        config.version == MhfVersion::F5 ==> res@.len() == 0x2920 && res@ == f5_block(
            *config,
            *host,
            *loaded,
            folder@,
            ini_file@,
            *settings,
        ),
        config.version == MhfVersion::ZZ ==> res@.len() == 0x2ab0 && res@ == zz_block(
            *config,
            *host,
            *loaded,
            folder@,
            graphics_ver,
            *settings,
        ),
{
    law_block_of_release(
        *config,
        *host,
        *loaded,
        folder@,
        ini_file@,
        graphics_ver,
        *settings,
    );
}

/// The block of each release, built on its own, is the same as the one that is built for a
/// configuration of that release.
pub proof fn law_builders_agree(
    config: &MhfConfig,
    host: &Host,
    loaded: &Loaded,
    folder: &[u8],
    ini_file: &[u8],
    graphics_ver: u32,
    settings: &Settings,
    any: Vec<u8>,
    f5: Vec<u8>,
    zz: Vec<u8>,
)
    requires
        call_ensures(
            init_data,
            (config, host, loaded, folder, ini_file, graphics_ver, settings),
            any,
        ),
        call_ensures(init_data_f5, (config, host, loaded, folder, ini_file, settings), f5),
        call_ensures(init_data_zz, (config, host, loaded, folder, graphics_ver, settings), zz),
    ensures
        config.version == MhfVersion::F5 ==> any@ == f5@,
        config.version == MhfVersion::ZZ ==> any@ == zz@,
        f5@.len() == 0x2920,
        zz@.len() == 0x2ab0,
{
}

/// The sizes that a release asks for: of its block, and of the font's name in it.
pub proof fn law_sizes_of_release(version: MhfVersion, block: u32, font: usize)
    requires
        call_ensures(block_size, (version,), block),
        call_ensures(font_size, (version,), font),
    ensures
        version == MhfVersion::F5 ==> block == 0x2920 && font == 0x60,
        version == MhfVersion::ZZ ==> block == 0x2ab0 && font == 0x68,
        PROXY_ADDR_SIZE == 0x40,
{
}

} // verus!
