//! The client's settings file, `mhf.ini`.
use crate::config::{Error, MhfVersion};
use vstd::prelude::*;
use vstd::string::*;
use vstd::utf8::*;

verus! {

/// The name of the settings file in the client's folder.
pub const INI_NAME: &'static str = "mhf.ini";

/// A number to look up in the settings.
#[derive(Clone, Copy, Debug)]
pub struct IntQuery {
    pub section: &'static str,
    pub key: &'static str,
    /// What holds where the settings lack it.
    pub default: i32,
}

/// A text to look up in the settings.
#[derive(Clone, Copy, Debug)]
pub struct TextQuery {
    pub section: &'static str,
    pub key: &'static str,
    /// What holds where the settings lack it.
    pub default: &'static str,
}

/// The number of numbers in [`IniSettings`].
pub const INT_SETTINGS: usize = 26;

/// The numbers that the client is given from its settings.
#[derive(Clone, Copy, Debug, PartialEq, Eq, Structural)]
pub struct IniSettings {
    pub preset_level: u32,
    pub custom: u32,
    pub fullscreen_mode: u32,
    pub window_resolution_w: u32,
    pub window_resolution_h: u32,
    pub fullscreen_resolution_w: u32,
    pub fullscreen_resolution_h: u32,
    pub disp_max_char: u32,
    pub texture_dxt_use: u32,
    pub now_monitor_wh: u32,
    pub sound_notuse: u32,
    pub sound_volume: u32,
    pub sound_volume_inactivity: u32,
    pub sound_volume_minimize: u32,
    pub sound_frequency: u32,
    pub sound_buffernum: u32,
    pub language: u32,
    pub font_quality: u32,
    pub font_weight: u32,
    pub drawskip: u32,
    pub clogdis: u32,
    pub proxy_use: u32,
    pub proxy_ie: u32,
    pub proxy_set: u32,
    pub proxy_port: u32,
    pub server_sel: u32,
}

/// The look-ups for the numbers in [`IniSettings`], in the order of its fields.
pub open spec fn int_query_list() -> Seq<IntQuery> {
    seq![
        IntQuery { section: "SET", key: "PRESET_LEVEL", default: 0 },
        IntQuery { section: "SET", key: "CUSTOM", default: 1 },
        IntQuery { section: "SCREEN", key: "FULLSCREEN_MODE", default: 1 },
        IntQuery { section: "SCREEN", key: "WINDOW_RESOLUTION_W", default: 1920 },
        IntQuery { section: "SCREEN", key: "WINDOW_RESOLUTION_H", default: 1080 },
        IntQuery { section: "SCREEN", key: "FULLSCREEN_RESOLUTION_W", default: 1920 },
        IntQuery { section: "SCREEN", key: "FULLSCREEN_RESOLUTION_H", default: 1080 },
        IntQuery { section: "VIDEO", key: "DISP_MAX_CHAR", default: 100 },
        IntQuery { section: "VIDEO", key: "TEXTURE_DXT_USE", default: 0 },
        IntQuery { section: "VIDEO", key: "NOW_MONITOR_WH", default: 0 },
        IntQuery { section: "SOUND", key: "NOTUSE", default: 0 },
        IntQuery { section: "SOUND", key: "VOLUME", default: 100 },
        IntQuery { section: "SOUND", key: "VOLUME_INACTIVITY", default: 50 },
        IntQuery { section: "SOUND", key: "VOLUME_MINIMIZE", default: 50 },
        IntQuery { section: "SOUND", key: "FREQUENCY", default: 44100 },
        IntQuery { section: "SOUND", key: "BUFFERNUM", default: 16 },
        IntQuery { section: "SYSTEM", key: "LANGUAGE", default: 0 },
        IntQuery { section: "FONT", key: "QUALITY", default: 4 },
        IntQuery { section: "FONT", key: "WEIGHT", default: 0x2bc },
        IntQuery { section: "SYSTEM", key: "DRAWSKIP", default: 0 },
        IntQuery { section: "SYSTEM", key: "CLOGDIS", default: 0 },
        IntQuery { section: "PROXY", key: "USE", default: 0 },
        IntQuery { section: "PROXY", key: "IE", default: 0 },
        IntQuery { section: "PROXY", key: "SET", default: 0 },
        IntQuery { section: "PROXY", key: "PORT", default: 0 },
        IntQuery { section: "SERVER", key: "SEL", default: 0 },
    ]
}

/// The look-ups for the numbers in [`IniSettings`], in the order of its fields.
pub fn int_queries() -> (res: Vec<IntQuery>)
    ensures
        res@ == int_query_list(),
        res@.len() == INT_SETTINGS,
{
    let res: Vec<IntQuery> = vec![
        IntQuery { section: "SET", key: "PRESET_LEVEL", default: 0 },
        IntQuery { section: "SET", key: "CUSTOM", default: 1 },
        IntQuery { section: "SCREEN", key: "FULLSCREEN_MODE", default: 1 },
        IntQuery { section: "SCREEN", key: "WINDOW_RESOLUTION_W", default: 1920 },
        IntQuery { section: "SCREEN", key: "WINDOW_RESOLUTION_H", default: 1080 },
        IntQuery { section: "SCREEN", key: "FULLSCREEN_RESOLUTION_W", default: 1920 },
        IntQuery { section: "SCREEN", key: "FULLSCREEN_RESOLUTION_H", default: 1080 },
        IntQuery { section: "VIDEO", key: "DISP_MAX_CHAR", default: 100 },
        IntQuery { section: "VIDEO", key: "TEXTURE_DXT_USE", default: 0 },
        IntQuery { section: "VIDEO", key: "NOW_MONITOR_WH", default: 0 },
        IntQuery { section: "SOUND", key: "NOTUSE", default: 0 },
        IntQuery { section: "SOUND", key: "VOLUME", default: 100 },
        IntQuery { section: "SOUND", key: "VOLUME_INACTIVITY", default: 50 },
        IntQuery { section: "SOUND", key: "VOLUME_MINIMIZE", default: 50 },
        IntQuery { section: "SOUND", key: "FREQUENCY", default: 44100 },
        IntQuery { section: "SOUND", key: "BUFFERNUM", default: 16 },
        IntQuery { section: "SYSTEM", key: "LANGUAGE", default: 0 },
        IntQuery { section: "FONT", key: "QUALITY", default: 4 },
        IntQuery { section: "FONT", key: "WEIGHT", default: 0x2bc },
        IntQuery { section: "SYSTEM", key: "DRAWSKIP", default: 0 },
        IntQuery { section: "SYSTEM", key: "CLOGDIS", default: 0 },
        IntQuery { section: "PROXY", key: "USE", default: 0 },
        IntQuery { section: "PROXY", key: "IE", default: 0 },
        IntQuery { section: "PROXY", key: "SET", default: 0 },
        IntQuery { section: "PROXY", key: "PORT", default: 0 },
        IntQuery { section: "SERVER", key: "SEL", default: 0 },
    ];
    assert(res@ =~= int_query_list());
    res
}

/// The settings that look-ups in the order of [`int_queries`] have given.
pub open spec fn settings_of(values: Seq<u32>) -> IniSettings {
    IniSettings {
        preset_level: values[0],
        custom: values[1],
        fullscreen_mode: values[2],
        window_resolution_w: values[3],
        window_resolution_h: values[4],
        fullscreen_resolution_w: values[5],
        fullscreen_resolution_h: values[6],
        disp_max_char: values[7],
        texture_dxt_use: values[8],
        now_monitor_wh: values[9],
        sound_notuse: values[10],
        sound_volume: values[11],
        sound_volume_inactivity: values[12],
        sound_volume_minimize: values[13],
        sound_frequency: values[14],
        sound_buffernum: values[15],
        language: values[16],
        font_quality: values[17],
        font_weight: values[18],
        drawskip: values[19],
        clogdis: values[20],
        proxy_use: values[21],
        proxy_ie: values[22],
        proxy_set: values[23],
        proxy_port: values[24],
        server_sel: values[25],
    }
}

/// The settings that look-ups in the order of [`int_queries`] have given.
pub fn read_settings(values: &[u32]) -> (res: IniSettings)
    requires
        values@.len() == INT_SETTINGS,
    ensures
        res == settings_of(values@),
{
    IniSettings {
        preset_level: values[0],
        custom: values[1],
        fullscreen_mode: values[2],
        window_resolution_w: values[3],
        window_resolution_h: values[4],
        fullscreen_resolution_w: values[5],
        fullscreen_resolution_h: values[6],
        disp_max_char: values[7],
        texture_dxt_use: values[8],
        now_monitor_wh: values[9],
        sound_notuse: values[10],
        sound_volume: values[11],
        sound_volume_inactivity: values[12],
        sound_volume_minimize: values[13],
        sound_frequency: values[14],
        sound_buffernum: values[15],
        language: values[16],
        font_quality: values[17],
        font_weight: values[18],
        drawskip: values[19],
        clogdis: values[20],
        proxy_use: values[21],
        proxy_ie: values[22],
        proxy_set: values[23],
        proxy_port: values[24],
        server_sel: values[25],
    }
}

/// The look-up that tells whether a client draws in HD. Only the ZZ release has the choice.
pub fn graphics_query(version: MhfVersion) -> (res: Option<IntQuery>)
    ensures
        res == (match version {
            MhfVersion::F5 => None,
            MhfVersion::ZZ => Some(
                (IntQuery { section: "VIDEO", key: "GRAPHICS_VER", default: 1 }),
            ),
        }),
{
    match version {
        MhfVersion::F5 => None,
        MhfVersion::ZZ => Some(IntQuery { section: "VIDEO", key: "GRAPHICS_VER", default: 1 }),
    }
}

/// The look-up of the font's name, which is only made where no other font is asked for.
pub fn font_query(custom: &Option<String>) -> (res: Option<TextQuery>)
    ensures
        res == (if custom is Some {
            None
        } else {
            Some((TextQuery { section: "FONT", key: "NAME", default: "MS ????" }))
        }),
{
    match custom {
        Some(_) => None,
        None => Some(TextQuery { section: "FONT", key: "NAME", default: "MS ????" }),
    }
}

/// The look-up of the proxy's address.
pub fn proxy_query() -> (res: TextQuery)
    ensures
        res == (TextQuery { section: "PROXY", key: "ADDR", default: "" }),
{
    TextQuery { section: "PROXY", key: "ADDR", default: "" }
}

/// Whether a path can be handed on as a NUL-terminated string.
pub open spec fn nul_free(path: Seq<char>) -> bool {
    forall|i: int| 0 <= i < encode_utf8(path).len() ==> #[trigger] encode_utf8(path)[i] != 0
}

/// The path of the settings file as a NUL-terminated string. `present` tells whether the file is
/// there, and `path` is `None` where the path is not text.
pub fn ini_file_string(present: bool, path: Option<&str>) -> (res: Result<Vec<u8>, Error>)
    ensures
        match res {
            Ok(bytes) => {
                &&& present
                &&& path matches Some(p) && nul_free(p@) && bytes@ == encode_utf8(p@).push(0)
            },
            Err(e) => {
                &&& e == Error::GamePath
                &&& !present || (path matches Some(p) ==> !nul_free(p@))
            },
        },
{
    if !present {
        return Err(Error::GamePath);
    }
    match path {
        Some(p) => {
            let bytes: &[u8] = p.as_bytes();
            let mut out: Vec<u8> = Vec::new();
            let mut i: usize = 0;
            while i < bytes.len()
                invariant
                    i <= bytes@.len(),
                    bytes@ == encode_utf8(p@),
                    path == Some(p),
                    out@ == bytes@.take(i as int),
                    forall|j: int| 0 <= j < i ==> bytes@[j] != 0,
                decreases bytes@.len() - i,
            {
                if bytes[i] == 0 {
                    assert(encode_utf8(p@)[i as int] == 0);
                    return Err(Error::GamePath);
                }
                out.push(bytes[i]);
                i = i + 1;
                assert(out@ =~= bytes@.take(i as int));
            }
            out.push(0);
            assert(out@ =~= encode_utf8(p@).push(0));
            Ok(out)
        },
        None => Err(Error::GamePath),
    }
}

/// The number that a settings file gives under a key of a section, or else the default. The file is
/// taken as a map from sections and keys to numbers.
pub open spec fn file_number(
    file: Map<(Seq<char>, Seq<char>), u32>,
    section: Seq<char>,
    key: Seq<char>,
    default: int,
) -> int {
    if file.dom().contains((section, key)) {
        file[(section, key)] as int
    } else {
        default
    }
}

/// Whatever the settings file holds, each setting that comes of the look-ups is the file's number
/// under the section and the key of that setting, or that setting's own default where the file lacks
/// it.
pub proof fn law_settings_from_file(file: Map<(Seq<char>, Seq<char>), u32>, values: Seq<u32>)
    requires
        values.len() == int_query_list().len(),
        forall|i: int|
            0 <= i < values.len() ==> #[trigger] values[i] == file_number(
                file,
                int_query_list()[i].section@,
                int_query_list()[i].key@,
                int_query_list()[i].default as int,
            ),
    ensures
        int_query_list().len() == 26,
        ({
            let settings = settings_of(values);
            &&& settings.preset_level == file_number(file, "SET"@, "PRESET_LEVEL"@, 0)
            &&& settings.custom == file_number(file, "SET"@, "CUSTOM"@, 1)
            &&& settings.fullscreen_mode == file_number(file, "SCREEN"@, "FULLSCREEN_MODE"@, 1)
            &&& settings.window_resolution_w == file_number(file, "SCREEN"@, "WINDOW_RESOLUTION_W"@, 1920)
            &&& settings.window_resolution_h == file_number(file, "SCREEN"@, "WINDOW_RESOLUTION_H"@, 1080)
            &&& settings.fullscreen_resolution_w == file_number(file, "SCREEN"@, "FULLSCREEN_RESOLUTION_W"@, 1920)
            &&& settings.fullscreen_resolution_h == file_number(file, "SCREEN"@, "FULLSCREEN_RESOLUTION_H"@, 1080)
            &&& settings.disp_max_char == file_number(file, "VIDEO"@, "DISP_MAX_CHAR"@, 100)
            &&& settings.texture_dxt_use == file_number(file, "VIDEO"@, "TEXTURE_DXT_USE"@, 0)
            &&& settings.now_monitor_wh == file_number(file, "VIDEO"@, "NOW_MONITOR_WH"@, 0)
            &&& settings.sound_notuse == file_number(file, "SOUND"@, "NOTUSE"@, 0)
            &&& settings.sound_volume == file_number(file, "SOUND"@, "VOLUME"@, 100)
            &&& settings.sound_volume_inactivity == file_number(file, "SOUND"@, "VOLUME_INACTIVITY"@, 50)
            &&& settings.sound_volume_minimize == file_number(file, "SOUND"@, "VOLUME_MINIMIZE"@, 50)
            &&& settings.sound_frequency == file_number(file, "SOUND"@, "FREQUENCY"@, 44100)
            &&& settings.sound_buffernum == file_number(file, "SOUND"@, "BUFFERNUM"@, 16)
            &&& settings.language == file_number(file, "SYSTEM"@, "LANGUAGE"@, 0)
            &&& settings.font_quality == file_number(file, "FONT"@, "QUALITY"@, 4)
            &&& settings.font_weight == file_number(file, "FONT"@, "WEIGHT"@, 700)
            &&& settings.drawskip == file_number(file, "SYSTEM"@, "DRAWSKIP"@, 0)
            &&& settings.clogdis == file_number(file, "SYSTEM"@, "CLOGDIS"@, 0)
            &&& settings.proxy_use == file_number(file, "PROXY"@, "USE"@, 0)
            &&& settings.proxy_ie == file_number(file, "PROXY"@, "IE"@, 0)
            &&& settings.proxy_set == file_number(file, "PROXY"@, "SET"@, 0)
            &&& settings.proxy_port == file_number(file, "PROXY"@, "PORT"@, 0)
            &&& settings.server_sel == file_number(file, "SERVER"@, "SEL"@, 0)
        }),
{
}

proof fn lemma_scalar_zero(c: u32)
    requires
        is_scalar(c),
    ensures
        encode_scalar(c).len() > 0,
        c == 0 ==> encode_scalar(c)[0] == 0,
        forall|k: int| 0 <= k < encode_scalar(c).len() && c != 0 ==> #[trigger] encode_scalar(c)[k] != 0,
{
    assert(has_width_1_encoding(c) && c != 0 ==> leading_byte_width_1(c) != 0) by (bit_vector);
    assert(c == 0 ==> leading_byte_width_1(c) == 0) by (bit_vector);
    assert(leading_byte_width_2(c) != 0) by (bit_vector);
    assert(leading_byte_width_3(c) != 0) by (bit_vector);
    assert(leading_byte_width_4(c) != 0) by (bit_vector);
    assert(last_continuation_byte(c) != 0) by (bit_vector);
    assert(second_last_continuation_byte(c) != 0) by (bit_vector);
    assert(third_last_continuation_byte(c) != 0) by (bit_vector);
}

proof fn lemma_nul_in_encoding(s: Seq<char>)
    ensures
        s.contains('\0') <==> encode_utf8(s).contains(0),
    decreases s.len(),
{
    if s.len() == 0 {
        assert(!encode_utf8(s).contains(0));
    } else {
        let rest = s.drop_first();
        let first = encode_scalar(s[0] as u32);
        let all = encode_utf8(s);
        char_is_scalar(s[0]);
        char_u32_cast(s[0], s[0] as u32);
        lemma_scalar_zero(s[0] as u32);
        lemma_nul_in_encoding(rest);
        assert(all =~= first + encode_utf8(rest));
        if s.contains('\0') {
            let i = choose|i: int| 0 <= i < s.len() && s[i] == '\0';
            if i == 0 {
                assert(all[0] == 0);
            } else {
                assert(rest[i - 1] == '\0');
                let j = choose|j: int|
                    0 <= j < encode_utf8(rest).len() && encode_utf8(rest)[j] == 0;
                assert(all[first.len() + j] == 0);
            }
        }
        if all.contains(0) {
            let j = choose|j: int| 0 <= j < all.len() && all[j] == 0;
            if j < first.len() {
                assert(first[j] == 0);
                assert(s[0] == '\0');
            } else {
                assert(encode_utf8(rest)[j - first.len()] == 0);
                let i = choose|i: int| 0 <= i < rest.len() && rest[i] == '\0';
                assert(s[i + 1] == '\0');
            }
        }
    }
}

/// A path can be handed on as a NUL-terminated string exactly where none of its characters is a NUL.
pub proof fn law_nul_free(path: Seq<char>)
    ensures
        nul_free(path) <==> !path.contains('\0'),
{
    lemma_nul_in_encoding(path);
    let all = encode_utf8(path);
    if all.contains(0) {
        let j = choose|j: int| 0 <= j < all.len() && all[j] == 0;
        assert(encode_utf8(path)[j] == 0);
    }
}

/// Whatever the settings file holds, looking up each query in it and reading the answers gives each
/// setting the file's number under that setting's section and key, or else its default.
pub proof fn law_look_ups_are_read(
    file: Map<(Seq<char>, Seq<char>), u32>,
    queries: Vec<IntQuery>,
    values: &[u32],
    settings: IniSettings,
)
    requires
        call_ensures(int_queries, (), queries),
        values@.len() == queries@.len(),
        forall|i: int|
            0 <= i < values@.len() ==> #[trigger] values@[i] == file_number(
                file,
                queries@[i].section@,
                queries@[i].key@,
                queries@[i].default as int,
            ),
        call_ensures(read_settings, (values,), settings),
    ensures
        settings.preset_level == file_number(file, "SET"@, "PRESET_LEVEL"@, 0),
        settings.custom == file_number(file, "SET"@, "CUSTOM"@, 1),
        settings.fullscreen_mode == file_number(file, "SCREEN"@, "FULLSCREEN_MODE"@, 1),
        settings.window_resolution_w == file_number(file, "SCREEN"@, "WINDOW_RESOLUTION_W"@, 1920),
        settings.window_resolution_h == file_number(file, "SCREEN"@, "WINDOW_RESOLUTION_H"@, 1080),
        settings.fullscreen_resolution_w == file_number(file, "SCREEN"@, "FULLSCREEN_RESOLUTION_W"@, 1920),
        settings.fullscreen_resolution_h == file_number(file, "SCREEN"@, "FULLSCREEN_RESOLUTION_H"@, 1080),
        settings.disp_max_char == file_number(file, "VIDEO"@, "DISP_MAX_CHAR"@, 100),
        settings.texture_dxt_use == file_number(file, "VIDEO"@, "TEXTURE_DXT_USE"@, 0),
        settings.now_monitor_wh == file_number(file, "VIDEO"@, "NOW_MONITOR_WH"@, 0),
        settings.sound_notuse == file_number(file, "SOUND"@, "NOTUSE"@, 0),
        settings.sound_volume == file_number(file, "SOUND"@, "VOLUME"@, 100),
        settings.sound_volume_inactivity == file_number(file, "SOUND"@, "VOLUME_INACTIVITY"@, 50),
        settings.sound_volume_minimize == file_number(file, "SOUND"@, "VOLUME_MINIMIZE"@, 50),
        settings.sound_frequency == file_number(file, "SOUND"@, "FREQUENCY"@, 44100),
        settings.sound_buffernum == file_number(file, "SOUND"@, "BUFFERNUM"@, 16),
        settings.language == file_number(file, "SYSTEM"@, "LANGUAGE"@, 0),
        settings.font_quality == file_number(file, "FONT"@, "QUALITY"@, 4),
        settings.font_weight == file_number(file, "FONT"@, "WEIGHT"@, 700),
        settings.drawskip == file_number(file, "SYSTEM"@, "DRAWSKIP"@, 0),
        settings.clogdis == file_number(file, "SYSTEM"@, "CLOGDIS"@, 0),
        settings.proxy_use == file_number(file, "PROXY"@, "USE"@, 0),
        settings.proxy_ie == file_number(file, "PROXY"@, "IE"@, 0),
        settings.proxy_set == file_number(file, "PROXY"@, "SET"@, 0),
        settings.proxy_port == file_number(file, "PROXY"@, "PORT"@, 0),
        settings.server_sel == file_number(file, "SERVER"@, "SEL"@, 0),
{
    law_settings_from_file(file, values@);
}

/// The ZZ release looks up whether it draws in HD, which it does by default, and F5 does not.
pub proof fn law_graphics_query(version: MhfVersion, res: Option<IntQuery>)
    requires
        call_ensures(graphics_query, (version,), res),
    ensures
        version == MhfVersion::F5 <==> res is None,
        res matches Some(q) ==> q.section@ == "VIDEO"@ && q.key@ == "GRAPHICS_VER"@ && q.default
            == 1,
{
}

/// The font is looked up exactly where none is configured, and the proxy's address always.
pub proof fn law_text_queries(custom: &Option<String>, font: Option<TextQuery>, proxy: TextQuery)
    requires
        call_ensures(font_query, (custom,), font),
        call_ensures(proxy_query, (), proxy),
    ensures
        font is None <==> *custom is Some,
        font matches Some(q) ==> q.section@ == "FONT"@ && q.key@ == "NAME"@ && q.default@
            == "MS ????"@,
        proxy.section@ == "PROXY"@,
        proxy.key@ == "ADDR"@,
        proxy.default@ == ""@,
{
}

/// The settings file is handed on exactly where it is there and its path is text without a NUL. It
/// is handed on as that text with one NUL at the end.
pub proof fn law_ini_file_string(present: bool, path: Option<&str>, res: Result<Vec<u8>, Error>)
    requires
        call_ensures(ini_file_string, (present, path), res),
    ensures
        res is Ok <==> present && (path matches Some(p) && !p@.contains('\0')),
        res matches Ok(bytes) ==> bytes@ == encode_utf8(path.unwrap()@).push(0),
        res matches Err(e) ==> e == Error::GamePath,
{
    if let Some(p) = path {
        law_nul_free(p@);
    }
}

} // verus!
