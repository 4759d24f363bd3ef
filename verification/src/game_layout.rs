//! Where the parts of the client's block lie.
use crate::bytes;
use crate::config::MhfConfig;
use crate::game_data;
use crate::game_data::{Host, Loaded, Settings};
use crate::ini::IniSettings;
use crate::text;
use vstd::prelude::*;
use vstd::utf8::*;

verus! {

/// Where the fields lie in the part of the block for the launcher and the account.
pub proof fn law_account_fields(config: MhfConfig, main_module: u32, folder: Seq<u8>)
    ensures
        ({
            let part = game_data::account_bytes(config, main_module, folder);
            &&& part.len() == 0x1814
            &&& bytes::holds_at(part, 0x0, bytes::le32(main_module))
            &&& bytes::holds_at(part, 0xc, bytes::le32(0))
            &&& bytes::holds_at(part, 0x10, bytes::le32(0))
            &&& bytes::holds_at(part, 0x14, bytes::padded(folder, 0x400))
            &&& bytes::holds_at(part, 0x414, bytes::padded(folder, 0x400))
            &&& bytes::holds_at(part, 0x814, bytes::padded(encode_utf8(config.user_name@), 0x800))
            &&& bytes::holds_at(part, 0x1014, bytes::padded(encode_utf8(config.user_password@), 0x800))
            &&& bytes::holds_at(part, 0x4, bytes::zeros(0x8))
        }),
{
    let p = bytes::le32(main_module);
    bytes::lemma_first(p);
    bytes::lemma_append(p, 0x4, bytes::zeros(0x8));
    let p = p + bytes::zeros(0x8);
    bytes::lemma_append(p, 0xc, bytes::le32(0));
    let p = p + bytes::le32(0);
    bytes::lemma_append(p, 0x10, bytes::le32(0));
    let p = p + bytes::le32(0);
    bytes::lemma_append(p, 0x14, bytes::padded(folder, 0x400));
    let p = p + bytes::padded(folder, 0x400);
    bytes::lemma_append(p, 0x414, bytes::padded(folder, 0x400));
    let p = p + bytes::padded(folder, 0x400);
    bytes::lemma_append(p, 0x814, bytes::padded(encode_utf8(config.user_name@), 0x800));
    let p = p + bytes::padded(encode_utf8(config.user_name@), 0x800);
    bytes::lemma_append(p, 0x1014, bytes::padded(encode_utf8(config.user_password@), 0x800));
}

/// Where the fields lie in the part of the block for the process.
pub proof fn law_process_fields(host: Host, ini_file: Seq<u8>)
    ensures
        ({
            let part = game_data::process_bytes(host, ini_file);
            &&& part.len() == 0xb0
            &&& bytes::holds_at(part, 0x0, bytes::le32(0))
            &&& bytes::holds_at(part, 0x4, bytes::le32(0))
            &&& bytes::holds_at(part, 0x8, bytes::le32(0))
            &&& bytes::holds_at(part, 0x10, bytes::le32(host.mutex_master))
            &&& bytes::holds_at(part, 0x14, bytes::le32(host.mutex_master_ready))
            &&& bytes::holds_at(part, 0x18, bytes::padded(encode_utf8(game_data::MUTEX_MASTER_NAME@), 0x40))
            &&& bytes::holds_at(part, 0x58, bytes::padded(ini_file, 0x40))
            &&& bytes::holds_at(part, 0x98, bytes::le32(host.mock_proc))
            &&& bytes::holds_at(part, 0x9c, bytes::le32(host.gg_proc))
            &&& bytes::holds_at(part, 0xa0, bytes::le32(host.mock_proc))
            &&& bytes::holds_at(part, 0xc, bytes::zeros(0x4))
            &&& bytes::holds_at(part, 0xa4, bytes::zeros(0xc))
        }),
{
    let p = bytes::le32(0);
    bytes::lemma_first(p);
    bytes::lemma_append(p, 0x4, bytes::le32(0));
    let p = p + bytes::le32(0);
    bytes::lemma_append(p, 0x8, bytes::le32(0));
    let p = p + bytes::le32(0);
    bytes::lemma_append(p, 0xc, bytes::zeros(0x4));
    let p = p + bytes::zeros(0x4);
    bytes::lemma_append(p, 0x10, bytes::le32(host.mutex_master));
    let p = p + bytes::le32(host.mutex_master);
    bytes::lemma_append(p, 0x14, bytes::le32(host.mutex_master_ready));
    let p = p + bytes::le32(host.mutex_master_ready);
    bytes::lemma_append(p, 0x18, bytes::padded(encode_utf8(game_data::MUTEX_MASTER_NAME@), 0x40));
    let p = p + bytes::padded(encode_utf8(game_data::MUTEX_MASTER_NAME@), 0x40);
    bytes::lemma_append(p, 0x58, bytes::padded(ini_file, 0x40));
    let p = p + bytes::padded(ini_file, 0x40);
    bytes::lemma_append(p, 0x98, bytes::le32(host.mock_proc));
    let p = p + bytes::le32(host.mock_proc);
    bytes::lemma_append(p, 0x9c, bytes::le32(host.gg_proc));
    let p = p + bytes::le32(host.gg_proc);
    bytes::lemma_append(p, 0xa0, bytes::le32(host.mock_proc));
    let p = p + bytes::le32(host.mock_proc);
    bytes::lemma_append(p, 0xa4, bytes::zeros(0xc));
}

/// Where the fields lie in the part of the block for the server.
pub proof fn law_server_fields(config: MhfConfig)
    ensures
        ({
            let part = game_data::server_bytes(config);
            &&& part.len() == 0x450
            &&& bytes::holds_at(part, 0x0, bytes::le32(config.char_id))
            &&& bytes::holds_at(part, 0x4, bytes::le32(config.char_id))
            &&& bytes::holds_at(part, 0x8, bytes::le32(config.user_token_id))
            &&& bytes::holds_at(part, 0xc, bytes::padded(encode_utf8(config.user_token@), 0x10))
            &&& bytes::holds_at(part, 0x24, bytes::le32(config.current_ts))
            &&& bytes::holds_at(part, 0x28, bytes::le32(0))
            &&& bytes::holds_at(part, 0x22c, bytes::padded(encode_utf8(game_data::server_address(config.server_host@, config.server_port)), 0x100))
            &&& bytes::holds_at(part, 0x32c, bytes::padded(encode_utf8(config.server_host@), 0x100))
            &&& bytes::holds_at(part, 0x42c, bytes::le32(0))
            &&& bytes::holds_at(part, 0x430, bytes::le32(config.entrance_count))
            &&& bytes::holds_at(part, 0x434, bytes::le32(game_data::char_status(config.char_new)))
            &&& bytes::holds_at(part, 0x438, bytes::le32(config.user_rights))
            &&& bytes::holds_at(part, 0x43c, bytes::le32(config.char_hr))
            &&& bytes::holds_at(part, 0x440, bytes::padded(encode_utf8(config.char_name@), 0x10))
            &&& bytes::holds_at(part, 0x1c, bytes::zeros(0x8))
            &&& bytes::holds_at(part, 0x2c, bytes::zeros(0x200))
        }),
{
    let p = bytes::le32(config.char_id);
    bytes::lemma_first(p);
    bytes::lemma_append(p, 0x4, bytes::le32(config.char_id));
    let p = p + bytes::le32(config.char_id);
    bytes::lemma_append(p, 0x8, bytes::le32(config.user_token_id));
    let p = p + bytes::le32(config.user_token_id);
    bytes::lemma_append(p, 0xc, bytes::padded(encode_utf8(config.user_token@), 0x10));
    let p = p + bytes::padded(encode_utf8(config.user_token@), 0x10);
    bytes::lemma_append(p, 0x1c, bytes::zeros(0x8));
    let p = p + bytes::zeros(0x8);
    bytes::lemma_append(p, 0x24, bytes::le32(config.current_ts));
    let p = p + bytes::le32(config.current_ts);
    bytes::lemma_append(p, 0x28, bytes::le32(0));
    let p = p + bytes::le32(0);
    bytes::lemma_append(p, 0x2c, bytes::zeros(0x200));
    let p = p + bytes::zeros(0x200);
    bytes::lemma_append(p, 0x22c, bytes::padded(encode_utf8(game_data::server_address(config.server_host@, config.server_port)), 0x100));
    let p = p + bytes::padded(encode_utf8(game_data::server_address(config.server_host@, config.server_port)), 0x100);
    bytes::lemma_append(p, 0x32c, bytes::padded(encode_utf8(config.server_host@), 0x100));
    let p = p + bytes::padded(encode_utf8(config.server_host@), 0x100);
    bytes::lemma_append(p, 0x42c, bytes::le32(0));
    let p = p + bytes::le32(0);
    bytes::lemma_append(p, 0x430, bytes::le32(config.entrance_count));
    let p = p + bytes::le32(config.entrance_count);
    bytes::lemma_append(p, 0x434, bytes::le32(game_data::char_status(config.char_new)));
    let p = p + bytes::le32(game_data::char_status(config.char_new));
    bytes::lemma_append(p, 0x438, bytes::le32(config.user_rights));
    let p = p + bytes::le32(config.user_rights);
    bytes::lemma_append(p, 0x43c, bytes::le32(config.char_hr));
    let p = p + bytes::le32(config.char_hr);
    bytes::lemma_append(p, 0x440, bytes::padded(encode_utf8(config.char_name@), 0x10));
}

/// Where the fields lie in the part of the block for the shared memory.
pub proof fn law_shared_fields(config: MhfConfig, global_alloc: u32)
    ensures
        ({
            let part = game_data::shared_bytes(config, global_alloc);
            &&& part.len() == 0x18
            &&& bytes::holds_at(part, 0x0, bytes::le32(global_alloc))
            &&& bytes::holds_at(part, 0x4, bytes::le32(1))
            &&& bytes::holds_at(part, 0x8, bytes::le32(0))
            &&& bytes::holds_at(part, 0xc, bytes::le32(config.char_gr))
            &&& bytes::holds_at(part, 0x10, bytes::zeros(0x8))
        }),
{
    let p = bytes::le32(global_alloc);
    bytes::lemma_first(p);
    bytes::lemma_append(p, 0x4, bytes::le32(1));
    let p = p + bytes::le32(1);
    bytes::lemma_append(p, 0x8, bytes::le32(0));
    let p = p + bytes::le32(0);
    bytes::lemma_append(p, 0xc, bytes::le32(config.char_gr));
    let p = p + bytes::le32(config.char_gr);
    bytes::lemma_append(p, 0x10, bytes::zeros(0x8));
}

/// Where the fields lie in the part of the block for the screen.
pub proof fn law_video_fields(settings: IniSettings)
    ensures
        ({
            let part = game_data::video_bytes(settings);
            &&& part.len() == 0x28
            &&& bytes::holds_at(part, 0x0, bytes::le32(settings.preset_level))
            &&& bytes::holds_at(part, 0x4, bytes::le32(settings.custom))
            &&& bytes::holds_at(part, 0x8, bytes::le32(settings.fullscreen_mode))
            &&& bytes::holds_at(part, 0xc, bytes::le32(settings.window_resolution_w))
            &&& bytes::holds_at(part, 0x10, bytes::le32(settings.window_resolution_h))
            &&& bytes::holds_at(part, 0x14, bytes::le32(settings.fullscreen_resolution_w))
            &&& bytes::holds_at(part, 0x18, bytes::le32(settings.fullscreen_resolution_h))
            &&& bytes::holds_at(part, 0x1c, bytes::le32(settings.disp_max_char))
            &&& bytes::holds_at(part, 0x20, bytes::le32(settings.texture_dxt_use))
            &&& bytes::holds_at(part, 0x24, bytes::le32(settings.now_monitor_wh))
        }),
{
    let p = bytes::le32(settings.preset_level);
    bytes::lemma_first(p);
    bytes::lemma_append(p, 0x4, bytes::le32(settings.custom));
    let p = p + bytes::le32(settings.custom);
    bytes::lemma_append(p, 0x8, bytes::le32(settings.fullscreen_mode));
    let p = p + bytes::le32(settings.fullscreen_mode);
    bytes::lemma_append(p, 0xc, bytes::le32(settings.window_resolution_w));
    let p = p + bytes::le32(settings.window_resolution_w);
    bytes::lemma_append(p, 0x10, bytes::le32(settings.window_resolution_h));
    let p = p + bytes::le32(settings.window_resolution_h);
    bytes::lemma_append(p, 0x14, bytes::le32(settings.fullscreen_resolution_w));
    let p = p + bytes::le32(settings.fullscreen_resolution_w);
    bytes::lemma_append(p, 0x18, bytes::le32(settings.fullscreen_resolution_h));
    let p = p + bytes::le32(settings.fullscreen_resolution_h);
    bytes::lemma_append(p, 0x1c, bytes::le32(settings.disp_max_char));
    let p = p + bytes::le32(settings.disp_max_char);
    bytes::lemma_append(p, 0x20, bytes::le32(settings.texture_dxt_use));
    let p = p + bytes::le32(settings.texture_dxt_use);
    bytes::lemma_append(p, 0x24, bytes::le32(settings.now_monitor_wh));
}

/// Where the fields lie in the part of the block for sound, language and font.
pub proof fn law_sound_fields(settings: IniSettings)
    ensures
        ({
            let part = game_data::sound_bytes(settings);
            &&& part.len() == 0x24
            &&& bytes::holds_at(part, 0x0, bytes::le32(settings.sound_notuse))
            &&& bytes::holds_at(part, 0x4, bytes::le32(settings.sound_volume))
            &&& bytes::holds_at(part, 0x8, bytes::le32(settings.sound_volume_inactivity))
            &&& bytes::holds_at(part, 0xc, bytes::le32(settings.sound_volume_minimize))
            &&& bytes::holds_at(part, 0x10, bytes::le32(settings.sound_frequency))
            &&& bytes::holds_at(part, 0x14, bytes::le32(settings.sound_buffernum))
            &&& bytes::holds_at(part, 0x18, bytes::le32(settings.language))
            &&& bytes::holds_at(part, 0x1c, bytes::le32(settings.font_quality))
            &&& bytes::holds_at(part, 0x20, bytes::le32(settings.font_weight))
        }),
{
    let p = bytes::le32(settings.sound_notuse);
    bytes::lemma_first(p);
    bytes::lemma_append(p, 0x4, bytes::le32(settings.sound_volume));
    let p = p + bytes::le32(settings.sound_volume);
    bytes::lemma_append(p, 0x8, bytes::le32(settings.sound_volume_inactivity));
    let p = p + bytes::le32(settings.sound_volume_inactivity);
    bytes::lemma_append(p, 0xc, bytes::le32(settings.sound_volume_minimize));
    let p = p + bytes::le32(settings.sound_volume_minimize);
    bytes::lemma_append(p, 0x10, bytes::le32(settings.sound_frequency));
    let p = p + bytes::le32(settings.sound_frequency);
    bytes::lemma_append(p, 0x14, bytes::le32(settings.sound_buffernum));
    let p = p + bytes::le32(settings.sound_buffernum);
    bytes::lemma_append(p, 0x18, bytes::le32(settings.language));
    let p = p + bytes::le32(settings.language);
    bytes::lemma_append(p, 0x1c, bytes::le32(settings.font_quality));
    let p = p + bytes::le32(settings.font_quality);
    bytes::lemma_append(p, 0x20, bytes::le32(settings.font_weight));
}

/// Where the fields lie in the part of the block for the network.
pub proof fn law_net_fields(settings: IniSettings, proxy_addr: Seq<u8>)
    ensures
        ({
            let part = game_data::net_bytes(settings, proxy_addr);
            &&& part.len() == 0x5c
            &&& bytes::holds_at(part, 0x0, bytes::le32(settings.drawskip))
            &&& bytes::holds_at(part, 0x4, bytes::le32(settings.clogdis))
            &&& bytes::holds_at(part, 0x8, bytes::le32(settings.proxy_use))
            &&& bytes::holds_at(part, 0xc, bytes::le32(settings.proxy_ie))
            &&& bytes::holds_at(part, 0x10, bytes::le32(settings.proxy_set))
            &&& bytes::holds_at(part, 0x14, bytes::padded(proxy_addr, game_data::PROXY_ADDR_SIZE as nat))
            &&& bytes::holds_at(part, 0x54, bytes::le32(settings.proxy_port))
            &&& bytes::holds_at(part, 0x58, bytes::le32(settings.server_sel))
        }),
{
    let p = bytes::le32(settings.drawskip);
    bytes::lemma_first(p);
    bytes::lemma_append(p, 0x4, bytes::le32(settings.clogdis));
    let p = p + bytes::le32(settings.clogdis);
    bytes::lemma_append(p, 0x8, bytes::le32(settings.proxy_use));
    let p = p + bytes::le32(settings.proxy_use);
    bytes::lemma_append(p, 0xc, bytes::le32(settings.proxy_ie));
    let p = p + bytes::le32(settings.proxy_ie);
    bytes::lemma_append(p, 0x10, bytes::le32(settings.proxy_set));
    let p = p + bytes::le32(settings.proxy_set);
    bytes::lemma_append(p, 0x14, bytes::padded(proxy_addr, game_data::PROXY_ADDR_SIZE as nat));
    let p = p + bytes::padded(proxy_addr, game_data::PROXY_ADDR_SIZE as nat);
    bytes::lemma_append(p, 0x54, bytes::le32(settings.proxy_port));
    let p = p + bytes::le32(settings.proxy_port);
    bytes::lemma_append(p, 0x58, bytes::le32(settings.server_sel));
}

/// Where the fields lie in the part of the block for the session that only the ZZ release has.
pub proof fn law_expiry_fields(config: MhfConfig)
    ensures
        ({
            let part = game_data::expiry_bytes(config);
            &&& part.len() == 0x154
            &&& bytes::holds_at(part, 0x40, bytes::padded(encode_utf8(game_data::alt_address(config.server_host@)), 0xC0))
            &&& bytes::holds_at(part, 0x140, bytes::le32(config.expiry_ts))
            &&& bytes::holds_at(part, 0x144, bytes::le32(0))
            &&& bytes::holds_at(part, 0x148, bytes::le32(1))
            &&& bytes::holds_at(part, 0x0, bytes::zeros(0x40))
            &&& bytes::holds_at(part, 0x100, bytes::zeros(0x40))
            &&& bytes::holds_at(part, 0x14c, bytes::zeros(0x8))
        }),
{
    let p = bytes::zeros(0x40);
    bytes::lemma_first(p);
    bytes::lemma_append(p, 0x40, bytes::padded(encode_utf8(game_data::alt_address(config.server_host@)), 0xC0));
    let p = p + bytes::padded(encode_utf8(game_data::alt_address(config.server_host@)), 0xC0);
    bytes::lemma_append(p, 0x100, bytes::zeros(0x40));
    let p = p + bytes::zeros(0x40);
    bytes::lemma_append(p, 0x140, bytes::le32(config.expiry_ts));
    let p = p + bytes::le32(config.expiry_ts);
    bytes::lemma_append(p, 0x144, bytes::le32(0));
    let p = p + bytes::le32(0);
    bytes::lemma_append(p, 0x148, bytes::le32(1));
    let p = p + bytes::le32(1);
    bytes::lemma_append(p, 0x14c, bytes::zeros(0x8));
}

/// Where the fields lie in the part of the block for the links.
pub proof fn law_links_fields(host: Host, loaded: Loaded, links: u32)
    ensures
        ({
            let part = game_data::links_bytes(host, loaded, links);
            &&& part.len() == 0xa98
            &&& bytes::holds_at(part, 0x0, bytes::le32(loaded.data_ptr))
            &&& bytes::holds_at(part, 0x4, bytes::le32(host.keyboard_layout))
            &&& bytes::holds_at(part, 0x1c, bytes::le32(0x10))
            &&& bytes::holds_at(part, 0x20, bytes::le32(game_data::inner_address(loaded.block, links, game_data::INNER_2_OFF)))
            &&& bytes::holds_at(part, 0x28, bytes::le32(0x10))
            &&& bytes::holds_at(part, 0x2c, bytes::le32(game_data::inner_address(loaded.block, links, game_data::INNER_3_OFF)))
            &&& bytes::holds_at(part, 0x30, bytes::le32(host.mock_proc))
            &&& bytes::holds_at(part, 0x38, bytes::le32(host.mock_proc))
            &&& bytes::holds_at(part, 0x58, bytes::le32(loaded.mhfo_module))
            &&& bytes::holds_at(part, 0x580, bytes::padded(encode_utf8(game_data::MUTEX_MASTER_READY_NAME@), 0x100))
            &&& bytes::holds_at(part, 0xa94, bytes::le32(loaded.mhddl_main))
            &&& bytes::holds_at(part, 0x8, bytes::zeros(0x10))
            &&& bytes::holds_at(part, 0x18, bytes::zeros(0x4))
            &&& bytes::holds_at(part, 0x24, bytes::zeros(0x4))
            &&& bytes::holds_at(part, 0x34, bytes::zeros(0x4))
            &&& bytes::holds_at(part, 0x3c, bytes::zeros(0x8))
            &&& bytes::holds_at(part, 0x44, bytes::zeros(0x14))
            &&& bytes::holds_at(part, 0x5c, bytes::zeros(0x4))
            &&& bytes::holds_at(part, 0x60, bytes::zeros(0x520))
            &&& bytes::holds_at(part, 0x680, bytes::zeros(0x414))
        }),
{
    let p = bytes::le32(loaded.data_ptr);
    bytes::lemma_first(p);
    bytes::lemma_append(p, 0x4, bytes::le32(host.keyboard_layout));
    let p = p + bytes::le32(host.keyboard_layout);
    bytes::lemma_append(p, 0x8, bytes::zeros(0x10));
    let p = p + bytes::zeros(0x10);
    bytes::lemma_append(p, 0x18, bytes::zeros(0x4));
    let p = p + bytes::zeros(0x4);
    bytes::lemma_append(p, 0x1c, bytes::le32(0x10));
    let p = p + bytes::le32(0x10);
    bytes::lemma_append(p, 0x20, bytes::le32(game_data::inner_address(loaded.block, links, game_data::INNER_2_OFF)));
    let p = p + bytes::le32(game_data::inner_address(loaded.block, links, game_data::INNER_2_OFF));
    bytes::lemma_append(p, 0x24, bytes::zeros(0x4));
    let p = p + bytes::zeros(0x4);
    bytes::lemma_append(p, 0x28, bytes::le32(0x10));
    let p = p + bytes::le32(0x10);
    bytes::lemma_append(p, 0x2c, bytes::le32(game_data::inner_address(loaded.block, links, game_data::INNER_3_OFF)));
    let p = p + bytes::le32(game_data::inner_address(loaded.block, links, game_data::INNER_3_OFF));
    bytes::lemma_append(p, 0x30, bytes::le32(host.mock_proc));
    let p = p + bytes::le32(host.mock_proc);
    bytes::lemma_append(p, 0x34, bytes::zeros(0x4));
    let p = p + bytes::zeros(0x4);
    bytes::lemma_append(p, 0x38, bytes::le32(host.mock_proc));
    let p = p + bytes::le32(host.mock_proc);
    bytes::lemma_append(p, 0x3c, bytes::zeros(0x8));
    let p = p + bytes::zeros(0x8);
    bytes::lemma_append(p, 0x44, bytes::zeros(0x14));
    let p = p + bytes::zeros(0x14);
    bytes::lemma_append(p, 0x58, bytes::le32(loaded.mhfo_module));
    let p = p + bytes::le32(loaded.mhfo_module);
    bytes::lemma_append(p, 0x5c, bytes::zeros(0x4));
    let p = p + bytes::zeros(0x4);
    bytes::lemma_append(p, 0x60, bytes::zeros(0x520));
    let p = p + bytes::zeros(0x520);
    bytes::lemma_append(p, 0x580, bytes::padded(encode_utf8(game_data::MUTEX_MASTER_READY_NAME@), 0x100));
    let p = p + bytes::padded(encode_utf8(game_data::MUTEX_MASTER_READY_NAME@), 0x100);
    bytes::lemma_append(p, 0x680, bytes::zeros(0x414));
    let p = p + bytes::zeros(0x414);
    bytes::lemma_append(p, 0xa94, bytes::le32(loaded.mhddl_main));
}

/// The size of every part of a block.
proof fn lemma_part_sizes(
    config: MhfConfig,
    host: Host,
    loaded: Loaded,
    folder: Seq<u8>,
    ini_file: Seq<u8>,
    settings: Settings,
    links: u32,
)
    ensures
        game_data::account_bytes(config, host.main_module, folder).len() == 0x1814,
        game_data::process_bytes(host, ini_file).len() == 0xb0,
        game_data::server_bytes(config).len() == 0x450,
        game_data::shared_bytes(config, host.global_alloc).len() == 0x18,
        game_data::video_bytes(settings.ints).len() == 0x28,
        game_data::sound_bytes(settings.ints).len() == 0x24,
        game_data::net_bytes(settings.ints, settings.proxy_addr@).len() == 0x5c,
        game_data::expiry_bytes(config).len() == 0x154,
        game_data::links_bytes(host, loaded, links).len() == 0xa98,
        bytes::le32_all(game_data::char_id_places(config.char_ids@)).len() == 0x40,
        game_data::font_field(config.font_name, settings.font@, game_data::F5_FONT_SIZE as nat).len() == 0x60,
        game_data::font_field(config.font_name, settings.font@, game_data::ZZ_FONT_SIZE as nat).len() == 0x68,
{
    law_account_fields(config, host.main_module, folder);
    law_process_fields(host, ini_file);
    law_server_fields(config);
    law_shared_fields(config, host.global_alloc);
    law_video_fields(settings.ints);
    law_sound_fields(settings.ints);
    law_net_fields(settings.ints, settings.proxy_addr@);
    law_expiry_fields(config);
    law_links_fields(host, loaded, links);
    bytes::lemma_le32_all_len(game_data::char_id_places(config.char_ids@));
}

/// Parts of the sizes that the F5 block has, in a row.
proof fn lemma_f5_row(
    a: Seq<u8>,
    b: Seq<u8>,
    c: Seq<u8>,
    d: Seq<u8>,
    e: Seq<u8>,
    f: Seq<u8>,
    g: Seq<u8>,
    h: Seq<u8>,
    i: Seq<u8>,
    j: Seq<u8>,
    k: Seq<u8>,
    l: Seq<u8>,
    m: Seq<u8>,
)
    requires
        a.len() == 0x1814,
        b.len() == 0xb0,
        c.len() == 0x450,
        d.len() == 0x18,
        e.len() == 0x28,
        f.len() == 0x24,
        g.len() == 0x60,
        h.len() == 0x4,
        i.len() == 0x5c,
        j.len() == 0x4,
        k.len() == 0x40,
        l.len() == 0xc,
        m.len() == 0xa98,
    ensures
        ({
            let image = a + b + c + d + e + f + g + h + i + j + k + l + m;
            &&& image.len() == game_data::F5_SIZE
            &&& bytes::holds_at(image, 0x0, a)
            &&& bytes::holds_at(image, 0x1814, b)
            &&& bytes::holds_at(image, 0x18c4, c)
            &&& bytes::holds_at(image, 0x1d14, d)
            &&& bytes::holds_at(image, 0x1d2c, e)
            &&& bytes::holds_at(image, 0x1d54, f)
            &&& bytes::holds_at(image, 0x1d78, g)
            &&& bytes::holds_at(image, 0x1dd8, h)
            &&& bytes::holds_at(image, 0x1ddc, i)
            &&& bytes::holds_at(image, 0x1e38, j)
            &&& bytes::holds_at(image, 0x1e3c, k)
            &&& bytes::holds_at(image, 0x1e7c, l)
            &&& bytes::holds_at(image, 0x1e88, m)
        }),
{
    let p = a;
    bytes::lemma_first(p);
    bytes::lemma_append(p, 0x1814, b);
    let p = p + b;
    bytes::lemma_append(p, 0x18c4, c);
    let p = p + c;
    bytes::lemma_append(p, 0x1d14, d);
    let p = p + d;
    bytes::lemma_append(p, 0x1d2c, e);
    let p = p + e;
    bytes::lemma_append(p, 0x1d54, f);
    let p = p + f;
    bytes::lemma_append(p, 0x1d78, g);
    let p = p + g;
    bytes::lemma_append(p, 0x1dd8, h);
    let p = p + h;
    bytes::lemma_append(p, 0x1ddc, i);
    let p = p + i;
    bytes::lemma_append(p, 0x1e38, j);
    let p = p + j;
    bytes::lemma_append(p, 0x1e3c, k);
    let p = p + k;
    bytes::lemma_append(p, 0x1e7c, l);
    let p = p + l;
    bytes::lemma_append(p, 0x1e88, m);
}

/// Where the parts of the F5 block lie, and how long it is.
pub proof fn law_f5_parts(
    config: MhfConfig,
    host: Host,
    loaded: Loaded,
    folder: Seq<u8>,
    ini_file: Seq<u8>,
    settings: Settings,
)
    ensures
        ({
            let image = game_data::f5_block(config, host, loaded, folder, ini_file, settings);
            &&& image.len() == game_data::F5_SIZE
            &&& bytes::holds_at(image, 0x0, game_data::account_bytes(config, host.main_module, folder))
            &&& bytes::holds_at(image, 0x1814, game_data::process_bytes(host, ini_file))
            &&& bytes::holds_at(image, 0x18c4, game_data::server_bytes(config))
            &&& bytes::holds_at(image, 0x1d14, game_data::shared_bytes(config, host.global_alloc))
            &&& bytes::holds_at(image, 0x1d2c, game_data::video_bytes(settings.ints))
            &&& bytes::holds_at(image, 0x1d54, game_data::sound_bytes(settings.ints))
            &&& bytes::holds_at(image, 0x1d78, game_data::font_field(config.font_name, settings.font@, game_data::F5_FONT_SIZE as nat))
            &&& bytes::holds_at(image, 0x1dd8, bytes::le32(0))
            &&& bytes::holds_at(image, 0x1ddc, game_data::net_bytes(settings.ints, settings.proxy_addr@))
            &&& bytes::holds_at(image, 0x1e38, bytes::le32(game_data::inner_address(loaded.block, game_data::F5_LINKS, game_data::INNER_1_OFF)))
            &&& bytes::holds_at(image, 0x1e3c, bytes::zeros(0x40))
            &&& bytes::holds_at(image, 0x1e7c, bytes::zeros(0xc))
            &&& bytes::holds_at(image, 0x1e88, game_data::links_bytes(host, loaded, game_data::F5_LINKS))
        }),
{
    lemma_part_sizes(config, host, loaded, folder, ini_file, settings, game_data::F5_LINKS);
    lemma_f5_row(
        game_data::account_bytes(config, host.main_module, folder),
        game_data::process_bytes(host, ini_file),
        game_data::server_bytes(config),
        game_data::shared_bytes(config, host.global_alloc),
        game_data::video_bytes(settings.ints),
        game_data::sound_bytes(settings.ints),
        game_data::font_field(config.font_name, settings.font@, game_data::F5_FONT_SIZE as nat),
        bytes::le32(0),
        game_data::net_bytes(settings.ints, settings.proxy_addr@),
        bytes::le32(game_data::inner_address(loaded.block, game_data::F5_LINKS, game_data::INNER_1_OFF)),
        bytes::zeros(0x40),
        bytes::zeros(0xc),
        game_data::links_bytes(host, loaded, game_data::F5_LINKS),
    );
}

/// Parts of the sizes that the ZZ block has, in a row.
proof fn lemma_zz_row(
    a: Seq<u8>,
    b: Seq<u8>,
    c: Seq<u8>,
    d: Seq<u8>,
    e: Seq<u8>,
    f: Seq<u8>,
    g: Seq<u8>,
    h: Seq<u8>,
    i: Seq<u8>,
    j: Seq<u8>,
    k: Seq<u8>,
    l: Seq<u8>,
    m: Seq<u8>,
    n: Seq<u8>,
)
    requires
        a.len() == 0x1814,
        b.len() == 0xb0,
        c.len() == 0x450,
        d.len() == 0x40,
        e.len() == 0x18,
        f.len() == 0x28,
        g.len() == 0x4,
        h.len() == 0x24,
        i.len() == 0x68,
        j.len() == 0x5c,
        k.len() == 0x4,
        l.len() == 0x40,
        m.len() == 0x154,
        n.len() == 0xa98,
    ensures
        ({
            let image = a + b + c + d + e + f + g + h + i + j + k + l + m + n;
            &&& image.len() == game_data::ZZ_SIZE
            &&& bytes::holds_at(image, 0x0, a)
            &&& bytes::holds_at(image, 0x1814, b)
            &&& bytes::holds_at(image, 0x18c4, c)
            &&& bytes::holds_at(image, 0x1d14, d)
            &&& bytes::holds_at(image, 0x1d54, e)
            &&& bytes::holds_at(image, 0x1d6c, f)
            &&& bytes::holds_at(image, 0x1d94, g)
            &&& bytes::holds_at(image, 0x1d98, h)
            &&& bytes::holds_at(image, 0x1dbc, i)
            &&& bytes::holds_at(image, 0x1e24, j)
            &&& bytes::holds_at(image, 0x1e80, k)
            &&& bytes::holds_at(image, 0x1e84, l)
            &&& bytes::holds_at(image, 0x1ec4, m)
            &&& bytes::holds_at(image, 0x2018, n)
        }),
{
    let p = a;
    bytes::lemma_first(p);
    bytes::lemma_append(p, 0x1814, b);
    let p = p + b;
    bytes::lemma_append(p, 0x18c4, c);
    let p = p + c;
    bytes::lemma_append(p, 0x1d14, d);
    let p = p + d;
    bytes::lemma_append(p, 0x1d54, e);
    let p = p + e;
    bytes::lemma_append(p, 0x1d6c, f);
    let p = p + f;
    bytes::lemma_append(p, 0x1d94, g);
    let p = p + g;
    bytes::lemma_append(p, 0x1d98, h);
    let p = p + h;
    bytes::lemma_append(p, 0x1dbc, i);
    let p = p + i;
    bytes::lemma_append(p, 0x1e24, j);
    let p = p + j;
    bytes::lemma_append(p, 0x1e80, k);
    let p = p + k;
    bytes::lemma_append(p, 0x1e84, l);
    let p = p + l;
    bytes::lemma_append(p, 0x1ec4, m);
    let p = p + m;
    bytes::lemma_append(p, 0x2018, n);
}

/// Where the parts of the ZZ block lie, and how long it is.
pub proof fn law_zz_parts(
    config: MhfConfig,
    host: Host,
    loaded: Loaded,
    folder: Seq<u8>,
    graphics_ver: u32,
    settings: Settings,
)
    ensures
        ({
            let image = game_data::zz_block(config, host, loaded, folder, graphics_ver, settings);
            &&& image.len() == game_data::ZZ_SIZE
            &&& bytes::holds_at(image, 0x0, game_data::account_bytes(config, host.main_module, folder))
            &&& bytes::holds_at(image, 0x1814, game_data::process_bytes(host, encode_utf8(game_data::INI_BASENAME@)))
            &&& bytes::holds_at(image, 0x18c4, game_data::server_bytes(config))
            &&& bytes::holds_at(image, 0x1d14, bytes::le32_all(game_data::char_id_places(config.char_ids@)))
            &&& bytes::holds_at(image, 0x1d54, game_data::shared_bytes(config, host.global_alloc))
            &&& bytes::holds_at(image, 0x1d6c, game_data::video_bytes(settings.ints))
            &&& bytes::holds_at(image, 0x1d94, bytes::le32(graphics_ver))
            &&& bytes::holds_at(image, 0x1d98, game_data::sound_bytes(settings.ints))
            &&& bytes::holds_at(image, 0x1dbc, game_data::font_field(config.font_name, settings.font@, game_data::ZZ_FONT_SIZE as nat))
            &&& bytes::holds_at(image, 0x1e24, game_data::net_bytes(settings.ints, settings.proxy_addr@))
            &&& bytes::holds_at(image, 0x1e80, bytes::le32(game_data::inner_address(loaded.block, game_data::ZZ_LINKS, game_data::INNER_1_OFF)))
            &&& bytes::holds_at(image, 0x1e84, bytes::zeros(0x40))
            &&& bytes::holds_at(image, 0x1ec4, game_data::expiry_bytes(config))
            &&& bytes::holds_at(image, 0x2018, game_data::links_bytes(host, loaded, game_data::ZZ_LINKS))
        }),
{
    lemma_part_sizes(config, host, loaded, folder, encode_utf8(game_data::INI_BASENAME@), settings, game_data::ZZ_LINKS);
    lemma_zz_row(
        game_data::account_bytes(config, host.main_module, folder),
        game_data::process_bytes(host, encode_utf8(game_data::INI_BASENAME@)),
        game_data::server_bytes(config),
        bytes::le32_all(game_data::char_id_places(config.char_ids@)),
        game_data::shared_bytes(config, host.global_alloc),
        game_data::video_bytes(settings.ints),
        bytes::le32(graphics_ver),
        game_data::sound_bytes(settings.ints),
        game_data::font_field(config.font_name, settings.font@, game_data::ZZ_FONT_SIZE as nat),
        game_data::net_bytes(settings.ints, settings.proxy_addr@),
        bytes::le32(game_data::inner_address(loaded.block, game_data::ZZ_LINKS, game_data::INNER_1_OFF)),
        bytes::zeros(0x40),
        game_data::expiry_bytes(config),
        game_data::links_bytes(host, loaded, game_data::ZZ_LINKS),
    );
}

/// Whether `v` stands in the ZZ block where the client's own launcher has it at `address`.
pub open spec fn zz_holds(image: Seq<u8>, address: int, v: Seq<u8>) -> bool {
    bytes::holds_at(image, address - 0x447178, v)
}

/// Every field of the ZZ block stands where the client's own launcher has it.
pub proof fn law_zz_addresses(
    config: MhfConfig,
    host: Host,
    loaded: Loaded,
    folder: Seq<u8>,
    graphics_ver: u32,
    settings: Settings,
)
    ensures
        ({
            let image = game_data::zz_block(config, host, loaded, folder, graphics_ver, settings);
            &&& zz_holds(image, 0x447178, bytes::le32(host.main_module))  // main_module
            &&& zz_holds(image, 0x447184, bytes::le32(0))  // cmd_flags_1
            &&& zz_holds(image, 0x447188, bytes::le32(0))  // cmd_flags_2
            &&& zz_holds(image, 0x44718c, bytes::padded(folder, 0x400))  // path1
            &&& zz_holds(image, 0x44758c, bytes::padded(folder, 0x400))  // path2
            &&& zz_holds(image, 0x44798c, bytes::padded(encode_utf8(config.user_name@), 0x800))  // user_name
            &&& zz_holds(image, 0x44818c, bytes::padded(encode_utf8(config.user_password@), 0x800))  // user_password
            &&& zz_holds(image, 0x44898c, bytes::le32(0))  // cmd_number
            &&& zz_holds(image, 0x448990, bytes::le32(0))  // cmd_netfcup
            &&& zz_holds(image, 0x448994, bytes::le32(0))  // cmd_dmm
            &&& zz_holds(image, 0x44899c, bytes::le32(host.mutex_master))  // mutex_master
            &&& zz_holds(image, 0x4489a0, bytes::le32(host.mutex_master_ready))  // mutex_master_ready
            &&& zz_holds(image, 0x4489a4, bytes::padded(encode_utf8(game_data::MUTEX_MASTER_NAME@), 0x40))  // mutex_master_name
            &&& zz_holds(image, 0x4489e4, bytes::padded(encode_utf8(game_data::INI_BASENAME@), 0x40))  // ini_file
            &&& zz_holds(image, 0x448a24, bytes::le32(host.mock_proc))  // proc_1
            &&& zz_holds(image, 0x448a28, bytes::le32(host.gg_proc))  // proc_2
            &&& zz_holds(image, 0x448a2c, bytes::le32(host.mock_proc))  // proc_3
            &&& zz_holds(image, 0x448a3c, bytes::le32(config.char_id))  // selected_char_id_1
            &&& zz_holds(image, 0x448a40, bytes::le32(config.char_id))  // selected_char_id_2
            &&& zz_holds(image, 0x448a44, bytes::le32(config.user_token_id))  // user_token_id
            &&& zz_holds(image, 0x448a48, bytes::padded(encode_utf8(config.user_token@), 0x10))  // user_token
            &&& zz_holds(image, 0x448a60, bytes::le32(config.current_ts))  // server_current_ts
            &&& zz_holds(image, 0x448a64, bytes::le32(0))  // fixed
            &&& zz_holds(image, 0x448c68, bytes::padded(encode_utf8(game_data::server_address(config.server_host@, config.server_port)), 0x100))  // remote_addr
            &&& zz_holds(image, 0x448d68, bytes::padded(encode_utf8(config.server_host@), 0x100))  // remote_host
            &&& zz_holds(image, 0x448e68, bytes::le32(0))  // remote_patch_count
            &&& zz_holds(image, 0x448e6c, bytes::le32(config.entrance_count))  // server_entrance_count
            &&& zz_holds(image, 0x448e70, bytes::le32(game_data::char_status(config.char_new)))  // selected_char_status
            &&& zz_holds(image, 0x448e74, bytes::le32(config.user_rights))  // user_rights
            &&& zz_holds(image, 0x448e78, bytes::le32(config.char_hr))  // selected_char_hr
            &&& zz_holds(image, 0x448e7c, bytes::padded(encode_utf8(config.char_name@), 0x10))  // selected_char_name
            &&& zz_holds(image, 0x448e8c, bytes::le32_all(game_data::char_id_places(config.char_ids@)))  // char_ids
            &&& zz_holds(image, 0x448ecc, bytes::le32(host.global_alloc))  // global_alloc
            &&& zz_holds(image, 0x448ed0, bytes::le32(1))  // fixed
            &&& zz_holds(image, 0x448ed4, bytes::le32(0))  // unknown
            &&& zz_holds(image, 0x448ed8, bytes::le32(config.char_gr))  // selected_char_gr
            &&& zz_holds(image, 0x448ee4, bytes::le32(settings.ints.preset_level))  // preset_level
            &&& zz_holds(image, 0x448ee8, bytes::le32(settings.ints.custom))  // custom
            &&& zz_holds(image, 0x448eec, bytes::le32(settings.ints.fullscreen_mode))  // fullscreen_mode
            &&& zz_holds(image, 0x448ef0, bytes::le32(settings.ints.window_resolution_w))  // window_resolution_w
            &&& zz_holds(image, 0x448ef4, bytes::le32(settings.ints.window_resolution_h))  // window_resolution_h
            &&& zz_holds(image, 0x448ef8, bytes::le32(settings.ints.fullscreen_resolution_w))  // fullscreen_resolution_w
            &&& zz_holds(image, 0x448efc, bytes::le32(settings.ints.fullscreen_resolution_h))  // fullscreen_resolution_h
            &&& zz_holds(image, 0x448f00, bytes::le32(settings.ints.disp_max_char))  // disp_max_char
            &&& zz_holds(image, 0x448f04, bytes::le32(settings.ints.texture_dxt_use))  // texture_dxt_use
            &&& zz_holds(image, 0x448f08, bytes::le32(settings.ints.now_monitor_wh))  // now_monitor_wh
            &&& zz_holds(image, 0x448f0c, bytes::le32(graphics_ver))  // graphics_ver
            &&& zz_holds(image, 0x448f10, bytes::le32(settings.ints.sound_notuse))  // sound_notuse
            &&& zz_holds(image, 0x448f14, bytes::le32(settings.ints.sound_volume))  // sound_volume
            &&& zz_holds(image, 0x448f18, bytes::le32(settings.ints.sound_volume_inactivity))  // sound_volume_inactivity
            &&& zz_holds(image, 0x448f1c, bytes::le32(settings.ints.sound_volume_minimize))  // sound_volume_minimize
            &&& zz_holds(image, 0x448f20, bytes::le32(settings.ints.sound_frequency))  // sound_frequency
            &&& zz_holds(image, 0x448f24, bytes::le32(settings.ints.sound_buffernum))  // sound_buffernum
            &&& zz_holds(image, 0x448f28, bytes::le32(settings.ints.language))  // language
            &&& zz_holds(image, 0x448f2c, bytes::le32(settings.ints.font_quality))  // font_quality
            &&& zz_holds(image, 0x448f30, bytes::le32(settings.ints.font_weight))  // font_weight
            &&& zz_holds(image, 0x448f34, game_data::font_field(config.font_name, settings.font@, game_data::ZZ_FONT_SIZE as nat))  // font_name
            &&& zz_holds(image, 0x448f9c, bytes::le32(settings.ints.drawskip))  // drawskip
            &&& zz_holds(image, 0x448fa0, bytes::le32(settings.ints.clogdis))  // clogdis
            &&& zz_holds(image, 0x448fa4, bytes::le32(settings.ints.proxy_use))  // proxy_use
            &&& zz_holds(image, 0x448fa8, bytes::le32(settings.ints.proxy_ie))  // proxy_ie
            &&& zz_holds(image, 0x448fac, bytes::le32(settings.ints.proxy_set))  // proxy_set
            &&& zz_holds(image, 0x448fb0, bytes::padded(settings.proxy_addr@, game_data::PROXY_ADDR_SIZE as nat))  // proxy_addr
            &&& zz_holds(image, 0x448ff0, bytes::le32(settings.ints.proxy_port))  // proxy_port
            &&& zz_holds(image, 0x448ff4, bytes::le32(settings.ints.server_sel))  // server_sel
            &&& zz_holds(image, 0x448ff8, bytes::le32(game_data::inner_address(loaded.block, game_data::ZZ_LINKS, game_data::INNER_1_OFF)))  // inner_ptr_1
            &&& zz_holds(image, 0x44907c, bytes::padded(encode_utf8(game_data::alt_address(config.server_host@)), 0xC0))  // alt_ip_address
            &&& zz_holds(image, 0x44917c, bytes::le32(config.expiry_ts))  // server_expiry_ts
            &&& zz_holds(image, 0x449180, bytes::le32(0))  // remote_16e
            &&& zz_holds(image, 0x449184, bytes::le32(1))  // fixed
            &&& zz_holds(image, 0x449190, bytes::le32(loaded.data_ptr))  // data_ptr
            &&& zz_holds(image, 0x449194, bytes::le32(host.keyboard_layout))  // keyboard_layout
            &&& zz_holds(image, 0x4491ac, bytes::le32(0x10))  // fixed
            &&& zz_holds(image, 0x4491b0, bytes::le32(game_data::inner_address(loaded.block, game_data::ZZ_LINKS, game_data::INNER_2_OFF)))  // inner_ptr_2
            &&& zz_holds(image, 0x4491b8, bytes::le32(0x10))  // fixed
            &&& zz_holds(image, 0x4491bc, bytes::le32(game_data::inner_address(loaded.block, game_data::ZZ_LINKS, game_data::INNER_3_OFF)))  // inner_ptr_3
            &&& zz_holds(image, 0x4491c0, bytes::le32(host.mock_proc))  // proc_4
            &&& zz_holds(image, 0x4491c8, bytes::le32(host.mock_proc))  // proc_5
            &&& zz_holds(image, 0x4491e8, bytes::le32(loaded.mhfo_module))  // mhfo_module
            &&& zz_holds(image, 0x449710, bytes::padded(encode_utf8(game_data::MUTEX_MASTER_READY_NAME@), 0x100))  // mutex_master_ready_name
            &&& zz_holds(image, 0x449c24, bytes::le32(loaded.mhddl_main))  // mhddl_main
        }),
{
    let image = game_data::zz_block(config, host, loaded, folder, graphics_ver, settings);
    law_zz_parts(config, host, loaded, folder, graphics_ver, settings);
    law_account_fields(config, host.main_module, folder);
    bytes::lemma_part_at(image, 0x0, game_data::account_bytes(config, host.main_module, folder));
    law_process_fields(host, encode_utf8(game_data::INI_BASENAME@));
    bytes::lemma_part_at(image, 0x1814, game_data::process_bytes(host, encode_utf8(game_data::INI_BASENAME@)));
    law_server_fields(config);
    bytes::lemma_part_at(image, 0x18c4, game_data::server_bytes(config));
    law_shared_fields(config, host.global_alloc);
    bytes::lemma_part_at(image, 0x1d54, game_data::shared_bytes(config, host.global_alloc));
    law_video_fields(settings.ints);
    bytes::lemma_part_at(image, 0x1d6c, game_data::video_bytes(settings.ints));
    law_sound_fields(settings.ints);
    bytes::lemma_part_at(image, 0x1d98, game_data::sound_bytes(settings.ints));
    law_net_fields(settings.ints, settings.proxy_addr@);
    bytes::lemma_part_at(image, 0x1e24, game_data::net_bytes(settings.ints, settings.proxy_addr@));
    law_expiry_fields(config);
    bytes::lemma_part_at(image, 0x1ec4, game_data::expiry_bytes(config));
    law_links_fields(host, loaded, game_data::ZZ_LINKS);
    bytes::lemma_part_at(image, 0x2018, game_data::links_bytes(host, loaded, game_data::ZZ_LINKS));
}

/// Where every field of the F5 block lies.
pub proof fn law_f5_offsets(
    config: MhfConfig,
    host: Host,
    loaded: Loaded,
    folder: Seq<u8>,
    ini_file: Seq<u8>,
    settings: Settings,
)
    ensures
        ({
            let image = game_data::f5_block(config, host, loaded, folder, ini_file, settings);
            &&& bytes::holds_at(image, 0x0, bytes::le32(host.main_module))  // main_module
            &&& bytes::holds_at(image, 0xc, bytes::le32(0))  // cmd_flags_1
            &&& bytes::holds_at(image, 0x10, bytes::le32(0))  // cmd_flags_2
            &&& bytes::holds_at(image, 0x14, bytes::padded(folder, 0x400))  // path1
            &&& bytes::holds_at(image, 0x414, bytes::padded(folder, 0x400))  // path2
            &&& bytes::holds_at(image, 0x814, bytes::padded(encode_utf8(config.user_name@), 0x800))  // user_name
            &&& bytes::holds_at(image, 0x1014, bytes::padded(encode_utf8(config.user_password@), 0x800))  // user_password
            &&& bytes::holds_at(image, 0x1814, bytes::le32(0))  // cmd_number
            &&& bytes::holds_at(image, 0x1818, bytes::le32(0))  // cmd_netfcup
            &&& bytes::holds_at(image, 0x181c, bytes::le32(0))  // cmd_dmm
            &&& bytes::holds_at(image, 0x1824, bytes::le32(host.mutex_master))  // mutex_master
            &&& bytes::holds_at(image, 0x1828, bytes::le32(host.mutex_master_ready))  // mutex_master_ready
            &&& bytes::holds_at(image, 0x182c, bytes::padded(encode_utf8(game_data::MUTEX_MASTER_NAME@), 0x40))  // mutex_master_name
            &&& bytes::holds_at(image, 0x186c, bytes::padded(ini_file, 0x40))  // ini_file
            &&& bytes::holds_at(image, 0x18ac, bytes::le32(host.mock_proc))  // proc_1
            &&& bytes::holds_at(image, 0x18b0, bytes::le32(host.gg_proc))  // proc_2
            &&& bytes::holds_at(image, 0x18b4, bytes::le32(host.mock_proc))  // proc_3
            &&& bytes::holds_at(image, 0x18c4, bytes::le32(config.char_id))  // selected_char_id_1
            &&& bytes::holds_at(image, 0x18c8, bytes::le32(config.char_id))  // selected_char_id_2
            &&& bytes::holds_at(image, 0x18cc, bytes::le32(config.user_token_id))  // user_token_id
            &&& bytes::holds_at(image, 0x18d0, bytes::padded(encode_utf8(config.user_token@), 0x10))  // user_token
            &&& bytes::holds_at(image, 0x18e8, bytes::le32(config.current_ts))  // server_current_ts
            &&& bytes::holds_at(image, 0x18ec, bytes::le32(0))  // fixed
            &&& bytes::holds_at(image, 0x1af0, bytes::padded(encode_utf8(game_data::server_address(config.server_host@, config.server_port)), 0x100))  // remote_addr
            &&& bytes::holds_at(image, 0x1bf0, bytes::padded(encode_utf8(config.server_host@), 0x100))  // remote_host
            &&& bytes::holds_at(image, 0x1cf0, bytes::le32(0))  // remote_patch_count
            &&& bytes::holds_at(image, 0x1cf4, bytes::le32(config.entrance_count))  // server_entrance_count
            &&& bytes::holds_at(image, 0x1cf8, bytes::le32(game_data::char_status(config.char_new)))  // selected_char_status
            &&& bytes::holds_at(image, 0x1cfc, bytes::le32(config.user_rights))  // user_rights
            &&& bytes::holds_at(image, 0x1d00, bytes::le32(config.char_hr))  // selected_char_hr
            &&& bytes::holds_at(image, 0x1d04, bytes::padded(encode_utf8(config.char_name@), 0x10))  // selected_char_name
            &&& bytes::holds_at(image, 0x1d14, bytes::le32(host.global_alloc))  // global_alloc
            &&& bytes::holds_at(image, 0x1d18, bytes::le32(1))  // fixed
            &&& bytes::holds_at(image, 0x1d1c, bytes::le32(0))  // unknown
            &&& bytes::holds_at(image, 0x1d20, bytes::le32(config.char_gr))  // selected_char_gr
            &&& bytes::holds_at(image, 0x1d2c, bytes::le32(settings.ints.preset_level))  // preset_level
            &&& bytes::holds_at(image, 0x1d30, bytes::le32(settings.ints.custom))  // custom
            &&& bytes::holds_at(image, 0x1d34, bytes::le32(settings.ints.fullscreen_mode))  // fullscreen_mode
            &&& bytes::holds_at(image, 0x1d38, bytes::le32(settings.ints.window_resolution_w))  // window_resolution_w
            &&& bytes::holds_at(image, 0x1d3c, bytes::le32(settings.ints.window_resolution_h))  // window_resolution_h
            &&& bytes::holds_at(image, 0x1d40, bytes::le32(settings.ints.fullscreen_resolution_w))  // fullscreen_resolution_w
            &&& bytes::holds_at(image, 0x1d44, bytes::le32(settings.ints.fullscreen_resolution_h))  // fullscreen_resolution_h
            &&& bytes::holds_at(image, 0x1d48, bytes::le32(settings.ints.disp_max_char))  // disp_max_char
            &&& bytes::holds_at(image, 0x1d4c, bytes::le32(settings.ints.texture_dxt_use))  // texture_dxt_use
            &&& bytes::holds_at(image, 0x1d50, bytes::le32(settings.ints.now_monitor_wh))  // now_monitor_wh
            &&& bytes::holds_at(image, 0x1d54, bytes::le32(settings.ints.sound_notuse))  // sound_notuse
            &&& bytes::holds_at(image, 0x1d58, bytes::le32(settings.ints.sound_volume))  // sound_volume
            &&& bytes::holds_at(image, 0x1d5c, bytes::le32(settings.ints.sound_volume_inactivity))  // sound_volume_inactivity
            &&& bytes::holds_at(image, 0x1d60, bytes::le32(settings.ints.sound_volume_minimize))  // sound_volume_minimize
            &&& bytes::holds_at(image, 0x1d64, bytes::le32(settings.ints.sound_frequency))  // sound_frequency
            &&& bytes::holds_at(image, 0x1d68, bytes::le32(settings.ints.sound_buffernum))  // sound_buffernum
            &&& bytes::holds_at(image, 0x1d6c, bytes::le32(settings.ints.language))  // language
            &&& bytes::holds_at(image, 0x1d70, bytes::le32(settings.ints.font_quality))  // font_quality
            &&& bytes::holds_at(image, 0x1d74, bytes::le32(settings.ints.font_weight))  // font_weight
            &&& bytes::holds_at(image, 0x1d78, game_data::font_field(config.font_name, settings.font@, game_data::F5_FONT_SIZE as nat))  // font_name
            &&& bytes::holds_at(image, 0x1dd8, bytes::le32(0))  // unknown
            &&& bytes::holds_at(image, 0x1ddc, bytes::le32(settings.ints.drawskip))  // drawskip
            &&& bytes::holds_at(image, 0x1de0, bytes::le32(settings.ints.clogdis))  // clogdis
            &&& bytes::holds_at(image, 0x1de4, bytes::le32(settings.ints.proxy_use))  // proxy_use
            &&& bytes::holds_at(image, 0x1de8, bytes::le32(settings.ints.proxy_ie))  // proxy_ie
            &&& bytes::holds_at(image, 0x1dec, bytes::le32(settings.ints.proxy_set))  // proxy_set
            &&& bytes::holds_at(image, 0x1df0, bytes::padded(settings.proxy_addr@, game_data::PROXY_ADDR_SIZE as nat))  // proxy_addr
            &&& bytes::holds_at(image, 0x1e30, bytes::le32(settings.ints.proxy_port))  // proxy_port
            &&& bytes::holds_at(image, 0x1e34, bytes::le32(settings.ints.server_sel))  // server_sel
            &&& bytes::holds_at(image, 0x1e38, bytes::le32(game_data::inner_address(loaded.block, game_data::F5_LINKS, game_data::INNER_1_OFF)))  // inner_ptr_1
            &&& bytes::holds_at(image, 0x1e88, bytes::le32(loaded.data_ptr))  // data_ptr
            &&& bytes::holds_at(image, 0x1e8c, bytes::le32(host.keyboard_layout))  // keyboard_layout
            &&& bytes::holds_at(image, 0x1ea4, bytes::le32(0x10))  // fixed
            &&& bytes::holds_at(image, 0x1ea8, bytes::le32(game_data::inner_address(loaded.block, game_data::F5_LINKS, game_data::INNER_2_OFF)))  // inner_ptr_2
            &&& bytes::holds_at(image, 0x1eb0, bytes::le32(0x10))  // fixed
            &&& bytes::holds_at(image, 0x1eb4, bytes::le32(game_data::inner_address(loaded.block, game_data::F5_LINKS, game_data::INNER_3_OFF)))  // inner_ptr_3
            &&& bytes::holds_at(image, 0x1eb8, bytes::le32(host.mock_proc))  // proc_4
            &&& bytes::holds_at(image, 0x1ec0, bytes::le32(host.mock_proc))  // proc_5
            &&& bytes::holds_at(image, 0x1ee0, bytes::le32(loaded.mhfo_module))  // mhfo_module
            &&& bytes::holds_at(image, 0x2408, bytes::padded(encode_utf8(game_data::MUTEX_MASTER_READY_NAME@), 0x100))  // mutex_master_ready_name
            &&& bytes::holds_at(image, 0x291c, bytes::le32(loaded.mhddl_main))  // mhddl_main
        }),
{
    let image = game_data::f5_block(config, host, loaded, folder, ini_file, settings);
    law_f5_parts(config, host, loaded, folder, ini_file, settings);
    law_account_fields(config, host.main_module, folder);
    bytes::lemma_part_at(image, 0x0, game_data::account_bytes(config, host.main_module, folder));
    law_process_fields(host, ini_file);
    bytes::lemma_part_at(image, 0x1814, game_data::process_bytes(host, ini_file));
    law_server_fields(config);
    bytes::lemma_part_at(image, 0x18c4, game_data::server_bytes(config));
    law_shared_fields(config, host.global_alloc);
    bytes::lemma_part_at(image, 0x1d14, game_data::shared_bytes(config, host.global_alloc));
    law_video_fields(settings.ints);
    bytes::lemma_part_at(image, 0x1d2c, game_data::video_bytes(settings.ints));
    law_sound_fields(settings.ints);
    bytes::lemma_part_at(image, 0x1d54, game_data::sound_bytes(settings.ints));
    law_net_fields(settings.ints, settings.proxy_addr@);
    bytes::lemma_part_at(image, 0x1ddc, game_data::net_bytes(settings.ints, settings.proxy_addr@));
    law_links_fields(host, loaded, game_data::F5_LINKS);
    bytes::lemma_part_at(image, 0x1e88, game_data::links_bytes(host, loaded, game_data::F5_LINKS));
}

/// Every byte of the F5 block that belongs to none of its fields is zero.
pub proof fn law_f5_gaps(
    config: MhfConfig,
    host: Host,
    loaded: Loaded,
    folder: Seq<u8>,
    ini_file: Seq<u8>,
    settings: Settings,
)
    ensures
        ({
            let image = game_data::f5_block(config, host, loaded, folder, ini_file, settings);
            &&& bytes::holds_at(image, 0x4, bytes::zeros(0x8))
            &&& bytes::holds_at(image, 0x1820, bytes::zeros(0x4))
            &&& bytes::holds_at(image, 0x18b8, bytes::zeros(0xc))
            &&& bytes::holds_at(image, 0x18e0, bytes::zeros(0x8))
            &&& bytes::holds_at(image, 0x18f0, bytes::zeros(0x200))
            &&& bytes::holds_at(image, 0x1d24, bytes::zeros(0x8))
            &&& bytes::holds_at(image, 0x1e3c, bytes::zeros(0x40))
            &&& bytes::holds_at(image, 0x1e7c, bytes::zeros(0xc))
            &&& bytes::holds_at(image, 0x1e90, bytes::zeros(0x10))
            &&& bytes::holds_at(image, 0x1ea0, bytes::zeros(0x4))
            &&& bytes::holds_at(image, 0x1eac, bytes::zeros(0x4))
            &&& bytes::holds_at(image, 0x1ebc, bytes::zeros(0x4))
            &&& bytes::holds_at(image, 0x1ec4, bytes::zeros(0x8))
            &&& bytes::holds_at(image, 0x1ecc, bytes::zeros(0x14))
            &&& bytes::holds_at(image, 0x1ee4, bytes::zeros(0x4))
            &&& bytes::holds_at(image, 0x1ee8, bytes::zeros(0x520))
            &&& bytes::holds_at(image, 0x2508, bytes::zeros(0x414))
        }),
{
    let image = game_data::f5_block(config, host, loaded, folder, ini_file, settings);
    law_f5_parts(config, host, loaded, folder, ini_file, settings);
    law_account_fields(config, host.main_module, folder);
    bytes::lemma_part_at(image, 0x0, game_data::account_bytes(config, host.main_module, folder));
    law_process_fields(host, ini_file);
    bytes::lemma_part_at(image, 0x1814, game_data::process_bytes(host, ini_file));
    law_server_fields(config);
    bytes::lemma_part_at(image, 0x18c4, game_data::server_bytes(config));
    law_shared_fields(config, host.global_alloc);
    bytes::lemma_part_at(image, 0x1d14, game_data::shared_bytes(config, host.global_alloc));
    law_links_fields(host, loaded, game_data::F5_LINKS);
    bytes::lemma_part_at(image, 0x1e88, game_data::links_bytes(host, loaded, game_data::F5_LINKS));
}

/// Every byte of the ZZ block that belongs to none of its fields is zero.
pub proof fn law_zz_gaps(
    config: MhfConfig,
    host: Host,
    loaded: Loaded,
    folder: Seq<u8>,
    graphics_ver: u32,
    settings: Settings,
)
    ensures
        ({
            let image = game_data::zz_block(config, host, loaded, folder, graphics_ver, settings);
            &&& bytes::holds_at(image, 0x4, bytes::zeros(0x8))
            &&& bytes::holds_at(image, 0x1820, bytes::zeros(0x4))
            &&& bytes::holds_at(image, 0x18b8, bytes::zeros(0xc))
            &&& bytes::holds_at(image, 0x18e0, bytes::zeros(0x8))
            &&& bytes::holds_at(image, 0x18f0, bytes::zeros(0x200))
            &&& bytes::holds_at(image, 0x1d64, bytes::zeros(0x8))
            &&& bytes::holds_at(image, 0x1e84, bytes::zeros(0x40))
            &&& bytes::holds_at(image, 0x1ec4, bytes::zeros(0x40))
            &&& bytes::holds_at(image, 0x1fc4, bytes::zeros(0x40))
            &&& bytes::holds_at(image, 0x2010, bytes::zeros(0x8))
            &&& bytes::holds_at(image, 0x2020, bytes::zeros(0x10))
            &&& bytes::holds_at(image, 0x2030, bytes::zeros(0x4))
            &&& bytes::holds_at(image, 0x203c, bytes::zeros(0x4))
            &&& bytes::holds_at(image, 0x204c, bytes::zeros(0x4))
            &&& bytes::holds_at(image, 0x2054, bytes::zeros(0x8))
            &&& bytes::holds_at(image, 0x205c, bytes::zeros(0x14))
            &&& bytes::holds_at(image, 0x2074, bytes::zeros(0x4))
            &&& bytes::holds_at(image, 0x2078, bytes::zeros(0x520))
            &&& bytes::holds_at(image, 0x2698, bytes::zeros(0x414))
        }),
{
    let image = game_data::zz_block(config, host, loaded, folder, graphics_ver, settings);
    law_zz_parts(config, host, loaded, folder, graphics_ver, settings);
    law_account_fields(config, host.main_module, folder);
    bytes::lemma_part_at(image, 0x0, game_data::account_bytes(config, host.main_module, folder));
    law_process_fields(host, encode_utf8(game_data::INI_BASENAME@));
    bytes::lemma_part_at(image, 0x1814, game_data::process_bytes(host, encode_utf8(game_data::INI_BASENAME@)));
    law_server_fields(config);
    bytes::lemma_part_at(image, 0x18c4, game_data::server_bytes(config));
    law_shared_fields(config, host.global_alloc);
    bytes::lemma_part_at(image, 0x1d54, game_data::shared_bytes(config, host.global_alloc));
    law_expiry_fields(config);
    bytes::lemma_part_at(image, 0x1ec4, game_data::expiry_bytes(config));
    law_links_fields(host, loaded, game_data::ZZ_LINKS);
    bytes::lemma_part_at(image, 0x2018, game_data::links_bytes(host, loaded, game_data::ZZ_LINKS));
}

/// A field of the ZZ block stands where its address, from the first one on, says.
pub proof fn law_zz_holds(image: Seq<u8>, address: int, v: Seq<u8>)
    ensures
        zz_holds(image, address, v) <==> {
            &&& 0x447178 <= address
            &&& address - 0x447178 + v.len() <= image.len()
            &&& forall|k: int|
                0 <= k < v.len() ==> #[trigger] v[k] == image[address - 0x447178 + k]
        },
{
    bytes::law_holds_at(image, address - 0x447178, v);
}

/// Either release has the address of the server in the same place.
proof fn lemma_remote_address_held(
    config: MhfConfig,
    host: Host,
    loaded: Loaded,
    folder: Seq<u8>,
    ini_file: Seq<u8>,
    graphics_ver: u32,
    settings: Settings,
)
    ensures
        bytes::holds_at(
            game_data::client_block(
                config,
                host,
                loaded,
                folder,
                ini_file,
                graphics_ver,
                settings,
            ),
            0x1af0,
            bytes::padded(
                encode_utf8(game_data::server_address(config.server_host@, config.server_port)),
                0x100,
            ),
        ),
{
    law_f5_offsets(config, host, loaded, folder, ini_file, settings);
    law_zz_addresses(config, host, loaded, folder, graphics_ver, settings);
}

/// The field of either release for the address of the server, which is 0x100 bytes long: the host, a
/// colon, and the port in decimal digits that spell it, as far as the field reaches, and zeros after
/// that.
pub proof fn law_remote_address_stands(
    config: MhfConfig,
    host: Host,
    loaded: Loaded,
    folder: Seq<u8>,
    ini_file: Seq<u8>,
    graphics_ver: u32,
    settings: Settings,
)
    ensures
        ({
            let image = game_data::client_block(
                config,
                host,
                loaded,
                folder,
                ini_file,
                graphics_ver,
                settings,
            );
            let field = image.subrange(0x1af0, 0x1bf0);
            &&& image.len() >= 0x1bf0
            &&& exists|digits: Seq<char>| #[trigger]
                text::writes_decimal(digits, config.server_port as int) && {
                    let address = encode_utf8(config.server_host@ + seq![':'] + digits);
                    forall|k: int|
                        0 <= k < 0x100 ==> #[trigger] field[k] == (if k < address.len() {
                            address[k]
                        } else {
                            0
                        })
                }
        }),
{
    let image = game_data::client_block(
        config,
        host,
        loaded,
        folder,
        ini_file,
        graphics_ver,
        settings,
    );
    let digits = text::decimal(config.server_port as nat);
    let chars = game_data::server_address(config.server_host@, config.server_port);
    let address = encode_utf8(config.server_host@ + seq![':'] + digits);
    let stored = bytes::padded(encode_utf8(chars), 0x100);
    lemma_remote_address_held(config, host, loaded, folder, ini_file, graphics_ver, settings);
    text::law_decimal_spelled(config.server_port as nat);
    reveal_strlit(":");
    assert(chars =~= config.server_host@ + seq![':'] + digits);
    bytes::law_field_bytes(encode_utf8(chars), 0x100);
    bytes::law_holds_at(image, 0x1af0, stored);
    let field = image.subrange(0x1af0, 0x1bf0);
    assert forall|k: int| 0 <= k < 0x100 implies #[trigger] field[k] == (if k < address.len() {
        address[k]
    } else {
        0
    }) by {
        assert(stored[k] == image[0x1af0 + k]);
    }
    assert(text::writes_decimal(digits, config.server_port as int));
}

/// Two configurations with the same server but another port give the client another address, where
/// the field has room for it.
pub proof fn law_ports_told_apart(
    a: MhfConfig,
    b: MhfConfig,
    host: Host,
    loaded: Loaded,
    folder: Seq<u8>,
    ini_file: Seq<u8>,
    graphics_ver: u32,
    settings: Settings,
)
    requires
        a.server_host@ == b.server_host@,
        encode_utf8(a.server_host@).len() + 11 <= 0x100,
        game_data::client_block(
            a,
            host,
            loaded,
            folder,
            ini_file,
            graphics_ver,
            settings,
        ).subrange(0x1af0, 0x1bf0) == game_data::client_block(
            b,
            host,
            loaded,
            folder,
            ini_file,
            graphics_ver,
            settings,
        ).subrange(0x1af0, 0x1bf0),
    ensures
        a.server_port == b.server_port,
{
    lemma_remote_address_held(a, host, loaded, folder, ini_file, graphics_ver, settings);
    lemma_remote_address_held(b, host, loaded, folder, ini_file, graphics_ver, settings);
    game_data::lemma_address_fields_unique(a.server_host@, a.server_port, b.server_port);
}

/// The pointers of an F5 block into itself lead to places inside its last part.
pub proof fn law_f5_inner_addresses(block: u32)
    requires
        block + game_data::F5_SIZE <= u32::MAX,
    ensures
        game_data::inner_address(block, game_data::F5_LINKS, game_data::INNER_1_OFF) == block
            + 0x1ea0,
        game_data::inner_address(block, game_data::F5_LINKS, game_data::INNER_2_OFF) == block
            + 0x1ecc,
        game_data::inner_address(block, game_data::F5_LINKS, game_data::INNER_3_OFF) == block
            + 0x1e90,
{
}

/// The pointers of a block into itself lead to the places that the client expects: the ones that
/// its own launcher has at 0x4491a8, 0x4491d4 and 0x449198, in the ZZ block.
pub proof fn law_zz_inner_addresses(block: u32)
    requires
        block + game_data::ZZ_SIZE <= u32::MAX,
    ensures
        game_data::inner_address(block, game_data::ZZ_LINKS, game_data::INNER_1_OFF) == block + (
        0x4491a8 - 0x447178),
        game_data::inner_address(block, game_data::ZZ_LINKS, game_data::INNER_2_OFF) == block + (
        0x4491d4 - 0x447178),
        game_data::inner_address(block, game_data::ZZ_LINKS, game_data::INNER_3_OFF) == block + (
        0x449198 - 0x447178),
{
}

} // verus!
