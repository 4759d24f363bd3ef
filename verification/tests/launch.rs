use mhf_iel::cli::{config_source, exit_code, CliConfig, ConfigSource, Outcome};
use mhf_iel::command::{init_cli, CmdData};
use mhf_iel::fonts::{first_present, font_candidates, wide_string, FontRoot};
use mhf_iel::ini::{
    font_query, graphics_query, ini_file_string, int_queries, proxy_query, read_settings,
};
use mhf_iel::launch::{folder_name, game_folder, launch_step, LaunchPhase};
use mhf_iel::{CliFlags, Error, MhfVersion};
use std::path::PathBuf;

const PHASES: [LaunchPhase; 12] = [
    LaunchPhase::EnterFolder,
    LaunchPhase::NameFolder,
    LaunchPhase::FindIni,
    LaunchPhase::MainModule,
    LaunchPhase::Mutexes,
    LaunchPhase::AllocGlobal,
    LaunchPhase::LoadDll,
    LaunchPhase::FindEntry,
    LaunchPhase::Run,
    LaunchPhase::FreeDll,
    LaunchPhase::FreeGlobal,
    LaunchPhase::Done,
];

#[test]
fn launch_goes_through_all_steps() {
    for w in PHASES.windows(2) {
        assert_eq!(launch_step(w[0], true), Ok(w[1]));
    }
    assert_eq!(launch_step(LaunchPhase::Done, true), Ok(LaunchPhase::Done));
}

#[test]
fn failed_step_ends_the_launch() {
    let errors = [
        Some(Error::GamePath),
        Some(Error::GamePath),
        Some(Error::GamePath),
        Some(Error::Module),
        Some(Error::Mutex),
        Some(Error::GlobalAlloc),
        Some(Error::Dll),
        Some(Error::ProcNotFound),
        None,
        Some(Error::Dll),
        Some(Error::GlobalAlloc),
        None,
    ];
    for (phase, error) in PHASES.iter().zip(errors) {
        assert_eq!(launch_step(*phase, false).err(), error);
    }
}

#[test]
fn configured_folder_comes_first() {
    let a = PathBuf::from("a");
    let b = PathBuf::from("b");
    assert_eq!(game_folder(Some(a.clone()), Some(b.clone())), Ok(a.clone()));
    assert_eq!(game_folder(Some(a.clone()), None), Ok(a));
    assert_eq!(game_folder(None, Some(b.clone())), Ok(b));
    assert_eq!(game_folder(None, None), Err(Error::GamePath));
}

#[test]
fn folder_name_has_to_be_text() {
    assert_eq!(folder_name(Some("C:\\狩")), Ok(b"C:\\\xe7\x8b\xa9".to_vec()));
    assert_eq!(folder_name(None), Err(Error::GamePath));
}

#[test]
fn settings_path_ends_in_a_nul() {
    assert_eq!(
        ini_file_string(true, Some("g/mhf.ini")),
        Ok(b"g/mhf.ini\0".to_vec())
    );
    assert_eq!(
        ini_file_string(false, Some("g/mhf.ini")),
        Err(Error::GamePath)
    );
    assert_eq!(ini_file_string(true, None), Err(Error::GamePath));
    assert_eq!(
        ini_file_string(true, Some("g\0/mhf.ini")),
        Err(Error::GamePath)
    );
}

#[test]
fn settings_are_looked_up_in_the_order_of_the_fields() {
    let queries = int_queries();
    assert_eq!(queries.len(), 26);
    let values: Vec<u32> = queries.iter().map(|q| q.default as u32).collect();
    let s = read_settings(&values);
    assert_eq!((s.preset_level, s.custom, s.fullscreen_mode), (0, 1, 1));
    assert_eq!((s.window_resolution_w, s.window_resolution_h), (1920, 1080));
    assert_eq!(
        (s.fullscreen_resolution_w, s.fullscreen_resolution_h),
        (1920, 1080)
    );
    assert_eq!(
        (s.disp_max_char, s.texture_dxt_use, s.now_monitor_wh),
        (100, 0, 0)
    );
    assert_eq!((s.sound_notuse, s.sound_volume), (0, 100));
    assert_eq!((s.sound_volume_inactivity, s.sound_volume_minimize), (50, 50));
    assert_eq!((s.sound_frequency, s.sound_buffernum), (44100, 16));
    assert_eq!((s.language, s.font_quality, s.font_weight), (0, 4, 0x2bc));
    let numbered: Vec<u32> = (0..26).collect();
    let s = read_settings(&numbered);
    for (field, i) in [
        (s.drawskip, "DRAWSKIP"),
        (s.clogdis, "CLOGDIS"),
        (s.proxy_use, "USE"),
        (s.proxy_ie, "IE"),
        (s.proxy_port, "PORT"),
        (s.server_sel, "SEL"),
        (s.language, "LANGUAGE"),
        (s.sound_volume, "VOLUME"),
    ] {
        assert_eq!(queries[field as usize].key, i);
    }
    assert_eq!(queries[s.proxy_set as usize].section, "PROXY");
    assert_eq!(queries[s.proxy_set as usize].key, "SET");
}

#[test]
fn look_ups_that_depend_on_the_configuration() {
    assert!(graphics_query(MhfVersion::F5).is_none());
    let q = graphics_query(MhfVersion::ZZ).unwrap();
    assert_eq!((q.section, q.key, q.default), ("VIDEO", "GRAPHICS_VER", 1));
    assert!(font_query(&Some("Arial".to_string())).is_none());
    let q = font_query(&None).unwrap();
    assert_eq!((q.section, q.key, q.default), ("FONT", "NAME", "MS ????"));
    let q = proxy_query();
    assert_eq!((q.section, q.key, q.default), ("PROXY", "ADDR", ""));
}

#[test]
fn no_flags_come_to_nothing() {
    let d = init_cli(&[]);
    assert_eq!((d.cmd_flags_1, d.cmd_flags_2, d.cmd_dmm), (0, 0, 0));
    assert_eq!(d, CmdData::default());
}

#[test]
fn each_flag_on_its_own() {
    for (flag, expected) in [
        (CliFlags::Selfup, (1, 0, 0)),
        (CliFlags::Restat, (2, 0, 0)),
        (CliFlags::Autolc, (3, 0, 0)),
        (CliFlags::Hanres, (4, 0, 0)),
        (CliFlags::DmmBoot, (5, 0, 1)),
        (CliFlags::DmmSelfup, (6, 0, 1)),
        (CliFlags::DmmAutolc, (7, 0, 1)),
        (CliFlags::DmmReboot, (8, 0, 1)),
        (CliFlags::Npge, (9, 6, 0)),
        (CliFlags::NpMhfoTest, (0, 4, 0)),
    ] {
        let d = init_cli(&[flag]);
        assert_eq!((d.cmd_flags_1, d.cmd_flags_2, d.cmd_dmm), expected);
    }
}

#[test]
fn last_start_flag_counts() {
    let d = init_cli(&[
        CliFlags::DmmBoot,
        CliFlags::Npge,
        CliFlags::Restat,
        CliFlags::NpMhfoTest,
    ]);
    assert_eq!((d.cmd_flags_1, d.cmd_flags_2, d.cmd_dmm), (2, 6, 1));
}

#[test]
fn font_is_looked_for_in_order() {
    let all = font_candidates(true, true);
    let found: Vec<(FontRoot, &str)> = all.iter().map(|c| (c.root, c.path)).collect();
    assert_eq!(
        found,
        [
            (FontRoot::CurrentDir, "backend/Font/MS Gothic.ttf"),
            (FontRoot::CurrentDir, "Font/MS Gothic.ttf"),
            (FontRoot::ExeDir, "backend/Font/MS Gothic.ttf"),
            (FontRoot::ExeDir, "Font/MS Gothic.ttf"),
        ]
    );
    assert!(font_candidates(false, false).is_empty());
    assert_eq!(font_candidates(false, true)[0].root, FontRoot::ExeDir);
    assert_eq!(font_candidates(true, false).len(), 2);
}

#[test]
fn first_font_that_is_there() {
    assert_eq!(first_present(&[false, true, true]), Some(1));
    assert_eq!(first_present(&[true]), Some(0));
    assert_eq!(first_present(&[false, false]), None);
    assert_eq!(first_present(&[]), None);
}

#[test]
fn wide_string_ends_in_a_nul() {
    assert_eq!(wide_string(vec![0x46, 0x6f]), [0x46, 0x6f, 0]);
    assert_eq!(wide_string(vec![]), [0]);
}

#[test]
fn configuration_source_by_precedence() {
    let file = PathBuf::from("given.json");
    let default = PathBuf::from("config.json");
    let both = CliConfig {
        config_file: Some(file.clone()),
        config_data: Some("{}".to_string()),
    };
    assert!(matches!(
        config_source(both, Some(default.clone())),
        ConfigSource::Data(d) if d == "{}"
    ));
    let named = CliConfig {
        config_file: Some(file.clone()),
        config_data: None,
    };
    assert!(matches!(
        config_source(named, Some(default.clone())),
        ConfigSource::File(f) if f == file
    ));
    assert!(matches!(
        config_source(CliConfig::default(), Some(default.clone())),
        ConfigSource::File(f) if f == default
    ));
    assert!(matches!(
        config_source(CliConfig::default(), None),
        ConfigSource::Missing
    ));
}

#[test]
fn exit_codes() {
    assert_eq!(exit_code(Outcome::Success), 0);
    assert_eq!(exit_code(Outcome::BadArguments), 1);
    assert_eq!(exit_code(Outcome::NoConfig), 2);
    assert_eq!(exit_code(Outcome::BadConfig), 3);
    assert_eq!(exit_code(Outcome::LaunchFailed), 4);
}
