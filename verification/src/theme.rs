use vstd::prelude::*;

use crate::codec::{decode_spec, string_to_color, valid_hex6, RgbColor};
use crate::error::ThemeError;
use crate::parse::{doc_view, lookup, lookup_value, parse_doc, parse_kv_text};

verus! {

/// The application-level color roles.
#[derive(Clone, Copy, Debug, PartialEq, Eq, Structural)]
pub struct Palette {
    pub background: RgbColor,
    pub text: RgbColor,
    pub primary: RgbColor,
    pub success: RgbColor,
    pub danger: RgbColor,
}

/// A two-dimensional offset, as whole pixel counts.
#[derive(Clone, Copy, Debug, PartialEq, Eq, Structural)]
pub struct Offset {
    pub x: u32,
    pub y: u32,
}

/// The color roles of a button widget class.
#[derive(Clone, Copy, Debug, PartialEq, Eq, Structural)]
pub struct ButtonStyle {
    pub border_radius: u32,
    pub txt_color: RgbColor,
    pub bg_color: RgbColor,
    pub border_color: RgbColor,
    pub border_width: u32,
    pub shadow_offset: Offset,
}

/// The color role of plain text.
#[derive(Clone, Copy, Debug, PartialEq, Eq, Structural)]
pub struct TextStyle {
    pub color: RgbColor,
}

/// The color roles of a dropdown menu, with its selection highlight pair.
#[derive(Clone, Copy, Debug, PartialEq, Eq, Structural)]
pub struct MenuStyle {
    pub txt_color: RgbColor,
    pub bg_color: RgbColor,
    pub border_width: u32,
    pub border_radius: u32,
    pub border_color: RgbColor,
    pub sel_txt_color: RgbColor,
    pub sel_bg_color: RgbColor,
}

/// The color roles of a dropdown list widget class, menu included.
#[derive(Clone, Copy, Debug, PartialEq, Eq, Structural)]
pub struct ListStyle {
    pub txt_color: RgbColor,
    pub bg_color: RgbColor,
    pub handle_color: RgbColor,
    pub border_radius: u32,
    pub border_width: u32,
    pub border_color: RgbColor,
    pub menu: MenuStyle,
}

/// A button role in its active and inactive variants.
#[derive(Clone, Copy, Debug, PartialEq, Eq, Structural)]
pub struct ButtonPair {
    pub active: ButtonStyle,
    pub inactive: ButtonStyle,
}

/// A resolved theme: every semantic color role, derived from one palette.
#[derive(Clone, Copy, Debug, PartialEq, Eq, Structural)]
pub struct ThemeCustom {
    pub application: Palette,
    pub secondary: ButtonStyle,
    pub sidebar: ButtonStyle,
    pub list: ListStyle,
}

/// One resolved theme per selectable variant.
#[derive(Clone, Copy, Debug, PartialEq, Eq, Structural)]
pub struct ThemeSet {
    pub light: ThemeCustom,
    pub dark: ThemeCustom,
    pub custom: ThemeCustom,
}

/// The raw palette definition: eleven named hex color strings.
#[derive(Clone, Debug)]
pub struct ThemeFile {
    pub bg_color1: String,
    pub bg_color2: String,
    pub bg_color3: String,
    pub txt_color: String,
    pub red: String,
    pub orange: String,
    pub yellow: String,
    pub green: String,
    pub blue: String,
    pub purple: String,
    pub pink: String,
}

/// The mathematical contents of a palette definition.
pub struct ThemeFileView {
    pub bg_color1: Seq<char>,
    pub bg_color2: Seq<char>,
    pub bg_color3: Seq<char>,
    pub txt_color: Seq<char>,
    pub red: Seq<char>,
    pub orange: Seq<char>,
    pub yellow: Seq<char>,
    pub green: Seq<char>,
    pub blue: Seq<char>,
    pub purple: Seq<char>,
    pub pink: Seq<char>,
}

impl View for ThemeFile {
    type V = ThemeFileView;

    open spec fn view(&self) -> ThemeFileView {
        ThemeFileView {
            bg_color1: self.bg_color1@,
            bg_color2: self.bg_color2@,
            bg_color3: self.bg_color3@,
            txt_color: self.txt_color@,
            red: self.red@,
            orange: self.orange@,
            yellow: self.yellow@,
            green: self.green@,
            blue: self.blue@,
            purple: self.purple@,
            pink: self.pink@,
        }
    }
}

/// The user's choice of theme variant.
#[derive(Clone, Copy, Debug, PartialEq, Eq, Structural)]
pub enum SelectedTheme {
    Light,
    Dark,
    Custom,
}

/// The shape of the preference file naming the active theme variant.
#[derive(Clone, Debug)]
pub struct CuttlefishCfg {
    pub theme: String,
}

/// Pick the configuration root: the dedicated variable when set, else
/// the user's home directory with "/.config" appended, else nothing.
pub fn get_home(xdg_config_home: Option<String>, home: Option<String>) -> (r: Result<
    String,
    ThemeError,
>)
    ensures
        (xdg_config_home matches Some(x) ==> (r matches Ok(s) && s@ == x@)),
        xdg_config_home is None ==> (home matches Some(h) ==> (r matches Ok(s) && s@ == h@
            + "/.config"@)),
        (xdg_config_home is None && home is None ==> r == Err::<String, ThemeError>(
            ThemeError::EnvironmentMissing,
        )),
{
    match xdg_config_home {
        Some(x) => Ok(x),
        None => match home {
            Some(h) => Ok(h.concat("/.config")),
            None => Err(ThemeError::EnvironmentMissing),
        },
    }
}

/// The palette definition a parsed document holds, if it carries every
/// required field.
pub open spec fn theme_file_of(doc: Seq<(Seq<char>, Seq<char>)>) -> Option<ThemeFileView> {
    if lookup(doc, "bg_color1"@) is Some && lookup(doc, "bg_color2"@) is Some && lookup(
        doc,
        "bg_color3"@,
    ) is Some && lookup(doc, "txt_color"@) is Some && lookup(doc, "red"@) is Some && lookup(
        doc,
        "orange"@,
    ) is Some && lookup(doc, "yellow"@) is Some && lookup(doc, "green"@) is Some && lookup(
        doc,
        "blue"@,
    ) is Some && lookup(doc, "purple"@) is Some && lookup(doc, "pink"@) is Some {
        Some(
            ThemeFileView {
                bg_color1: lookup(doc, "bg_color1"@)->0,
                bg_color2: lookup(doc, "bg_color2"@)->0,
                bg_color3: lookup(doc, "bg_color3"@)->0,
                txt_color: lookup(doc, "txt_color"@)->0,
                red: lookup(doc, "red"@)->0,
                orange: lookup(doc, "orange"@)->0,
                yellow: lookup(doc, "yellow"@)->0,
                green: lookup(doc, "green"@)->0,
                blue: lookup(doc, "blue"@)->0,
                purple: lookup(doc, "purple"@)->0,
                pink: lookup(doc, "pink"@)->0,
            },
        )
    } else {
        None
    }
}

/// Every palette field is a valid hex color string.
pub open spec fn theme_file_valid(t: ThemeFileView) -> bool {
    valid_hex6(t.bg_color1) && valid_hex6(t.bg_color2) && valid_hex6(t.bg_color3) && valid_hex6(
        t.txt_color,
    ) && valid_hex6(t.red) && valid_hex6(t.orange) && valid_hex6(t.yellow) && valid_hex6(t.green)
        && valid_hex6(t.blue) && valid_hex6(t.purple) && valid_hex6(t.pink)
}

/// The role structure a valid palette resolves to. Several roles reuse
/// one decoded palette entry on purpose: each role gets its own copy.
pub open spec fn resolved_theme_spec(t: ThemeFileView) -> ThemeCustom
    recommends
        theme_file_valid(t),
{
    let txt = decode_spec(t.txt_color);
    let bg2 = decode_spec(t.bg_color2);
    let bg3 = decode_spec(t.bg_color3);
    let blue = decode_spec(t.blue);
    ThemeCustom {
        application: Palette {
            background: decode_spec(t.bg_color1),
            text: txt,
            primary: blue,
            success: decode_spec(t.green),
            danger: decode_spec(t.red),
        },
        secondary: ButtonStyle {
            border_radius: 2,
            txt_color: txt,
            bg_color: bg3,
            border_color: RgbColor { red: 0, green: 0, blue: 0 },
            border_width: 0,
            shadow_offset: Offset { x: 0, y: 0 },
        },
        sidebar: ButtonStyle {
            border_radius: 2,
            txt_color: txt,
            bg_color: bg2,
            border_color: RgbColor { red: 0, green: 0, blue: 0 },
            border_width: 0,
            shadow_offset: Offset { x: 0, y: 0 },
        },
        list: ListStyle {
            txt_color: txt,
            bg_color: bg3,
            handle_color: txt,
            border_radius: 5,
            border_width: 2,
            border_color: txt,
            menu: MenuStyle {
                txt_color: txt,
                bg_color: bg3,
                border_width: 2,
                border_radius: 5,
                border_color: txt,
                sel_txt_color: txt,
                sel_bg_color: blue,
            },
        },
    }
}

/// What resolving a palette text must come to: a parse failure or a
/// missing field is a palette parse error, a field that is not a hex
/// color is a color format error, and otherwise the resolved roles.
pub open spec fn palette_outcome(s: Seq<char>) -> Result<ThemeCustom, ThemeError> {
    match parse_doc(s, 0) {
        None => Err(ThemeError::PaletteParseError),
        Some(doc) => match theme_file_of(doc) {
            None => Err(ThemeError::PaletteParseError),
            Some(tv) => if theme_file_valid(tv) {
                Ok(resolved_theme_spec(tv))
            } else {
                Err(ThemeError::ColorFormatError)
            },
        },
    }
}

/// One required field of a parsed palette document.
fn get_field(doc: &Vec<(String, String)>, name: &str) -> (r: Option<String>)
    ensures
        ({
            match lookup(doc_view(doc@), name@) {
                None => r is None,
                Some(val) => (r matches Some(s) && s@ == val),
            }
        }),
{
    lookup_value(doc, &String::from_str(name))
}

/// Parse a palette definition out of its file text. Every field is
/// required; a malformed document or a missing field is rejected.
pub fn parse_theme_file(text: &str) -> (r: Result<ThemeFile, ThemeError>)
    ensures
        ({
            match parse_doc(text@, 0) {
                None => r == Err::<ThemeFile, ThemeError>(ThemeError::PaletteParseError),
                Some(doc) => match theme_file_of(doc) {
                    None => r == Err::<ThemeFile, ThemeError>(ThemeError::PaletteParseError),
                    Some(tv) => (r matches Ok(tf) && tf@ == tv),
                },
            }
        }),
{
    let d = match parse_kv_text(text) {
        None => {
            return Err(ThemeError::PaletteParseError);
        },
        Some(d) => d,
    };
    let bg_color1 = match get_field(&d, "bg_color1") {
        None => {
            return Err(ThemeError::PaletteParseError);
        },
        Some(s) => s,
    };
    let bg_color2 = match get_field(&d, "bg_color2") {
        None => {
            return Err(ThemeError::PaletteParseError);
        },
        Some(s) => s,
    };
    let bg_color3 = match get_field(&d, "bg_color3") {
        None => {
            return Err(ThemeError::PaletteParseError);
        },
        Some(s) => s,
    };
    let txt_color = match get_field(&d, "txt_color") {
        None => {
            return Err(ThemeError::PaletteParseError);
        },
        Some(s) => s,
    };
    let red = match get_field(&d, "red") {
        None => {
            return Err(ThemeError::PaletteParseError);
        },
        Some(s) => s,
    };
    let orange = match get_field(&d, "orange") {
        None => {
            return Err(ThemeError::PaletteParseError);
        },
        Some(s) => s,
    };
    let yellow = match get_field(&d, "yellow") {
        None => {
            return Err(ThemeError::PaletteParseError);
        },
        Some(s) => s,
    };
    let green = match get_field(&d, "green") {
        None => {
            return Err(ThemeError::PaletteParseError);
        },
        Some(s) => s,
    };
    let blue = match get_field(&d, "blue") {
        None => {
            return Err(ThemeError::PaletteParseError);
        },
        Some(s) => s,
    };
    let purple = match get_field(&d, "purple") {
        None => {
            return Err(ThemeError::PaletteParseError);
        },
        Some(s) => s,
    };
    let pink = match get_field(&d, "pink") {
        None => {
            return Err(ThemeError::PaletteParseError);
        },
        Some(s) => s,
    };
    Ok(
        ThemeFile {
            bg_color1,
            bg_color2,
            bg_color3,
            txt_color,
            red,
            orange,
            yellow,
            green,
            blue,
            purple,
            pink,
        },
    )
}

/// Decode every palette field and fill the semantic role structure.
/// This step is pure: it only maps already-parsed hex strings.
pub fn assemble_theme(tf: &ThemeFile) -> (r: Result<ThemeCustom, ThemeError>)
    ensures
        theme_file_valid(tf@) ==> (r matches Ok(t) && t == resolved_theme_spec(tf@)),
        !theme_file_valid(tf@) ==> r == Err::<ThemeCustom, ThemeError>(ThemeError::ColorFormatError),
{
    let bg1 = match string_to_color(tf.bg_color1.clone()) {
        Ok(c) => c,
        Err(_) => {
            return Err(ThemeError::ColorFormatError);
        },
    };
    let bg2 = match string_to_color(tf.bg_color2.clone()) {
        Ok(c) => c,
        Err(_) => {
            return Err(ThemeError::ColorFormatError);
        },
    };
    let bg3 = match string_to_color(tf.bg_color3.clone()) {
        Ok(c) => c,
        Err(_) => {
            return Err(ThemeError::ColorFormatError);
        },
    };
    let txt = match string_to_color(tf.txt_color.clone()) {
        Ok(c) => c,
        Err(_) => {
            return Err(ThemeError::ColorFormatError);
        },
    };
    let red = match string_to_color(tf.red.clone()) {
        Ok(c) => c,
        Err(_) => {
            return Err(ThemeError::ColorFormatError);
        },
    };
    match string_to_color(tf.orange.clone()) {
        Ok(_) => {},
        Err(_) => {
            return Err(ThemeError::ColorFormatError);
        },
    }
    match string_to_color(tf.yellow.clone()) {
        Ok(_) => {},
        Err(_) => {
            return Err(ThemeError::ColorFormatError);
        },
    }
    let green = match string_to_color(tf.green.clone()) {
        Ok(c) => c,
        Err(_) => {
            return Err(ThemeError::ColorFormatError);
        },
    };
    let blue = match string_to_color(tf.blue.clone()) {
        Ok(c) => c,
        Err(_) => {
            return Err(ThemeError::ColorFormatError);
        },
    };
    match string_to_color(tf.purple.clone()) {
        Ok(_) => {},
        Err(_) => {
            return Err(ThemeError::ColorFormatError);
        },
    }
    match string_to_color(tf.pink.clone()) {
        Ok(_) => {},
        Err(_) => {
            return Err(ThemeError::ColorFormatError);
        },
    }
    Ok(
        ThemeCustom {
            application: Palette {
                background: bg1,
                text: txt,
                primary: blue,
                success: green,
                danger: red,
            },
            secondary: ButtonStyle {
                border_radius: 2,
                txt_color: txt,
                bg_color: bg3,
                border_color: RgbColor { red: 0, green: 0, blue: 0 },
                border_width: 0,
                shadow_offset: Offset { x: 0, y: 0 },
            },
            sidebar: ButtonStyle {
                border_radius: 2,
                txt_color: txt,
                bg_color: bg2,
                border_color: RgbColor { red: 0, green: 0, blue: 0 },
                border_width: 0,
                shadow_offset: Offset { x: 0, y: 0 },
            },
            list: ListStyle {
                txt_color: txt,
                bg_color: bg3,
                handle_color: txt,
                border_radius: 5,
                border_width: 2,
                border_color: txt,
                menu: MenuStyle {
                    txt_color: txt,
                    bg_color: bg3,
                    border_width: 2,
                    border_radius: 5,
                    border_color: txt,
                    sel_txt_color: txt,
                    sel_bg_color: blue,
                },
            },
        },
    )
}

/// Resolve a palette file text into the full role structure.
pub fn resolve_palette(text: &str) -> (r: Result<ThemeCustom, ThemeError>)
    ensures
        r == palette_outcome(text@),
{
    let tf = match parse_theme_file(text) {
        Err(e) => {
            return Err(e);
        },
        Ok(tf) => tf,
    };
    assemble_theme(&tf)
}

/// The built-in default palette.
pub open spec fn default_theme_view() -> ThemeFileView {
    ThemeFileView {
        bg_color1: "181926"@,
        bg_color2: "1e2030"@,
        bg_color3: "24273a"@,
        txt_color: "cad3f5"@,
        red: "ed8796"@,
        orange: "f5a97f"@,
        yellow: "eed49f"@,
        green: "a6da95"@,
        blue: "8aadf4"@,
        purple: "c6a0f6"@,
        pink: "f5bde6"@,
    }
}

/// The built-in default palette, field by field.
pub fn default_theme_file() -> (r: ThemeFile)
    ensures
        r@ == default_theme_view(),
        theme_file_valid(default_theme_view()),
{
    proof {
        reveal_strlit("181926");
        reveal_strlit("1e2030");
        reveal_strlit("24273a");
        reveal_strlit("cad3f5");
        reveal_strlit("ed8796");
        reveal_strlit("f5a97f");
        reveal_strlit("eed49f");
        reveal_strlit("a6da95");
        reveal_strlit("8aadf4");
        reveal_strlit("c6a0f6");
        reveal_strlit("f5bde6");
    }
    ThemeFile {
        bg_color1: String::from_str("181926"),
        bg_color2: String::from_str("1e2030"),
        bg_color3: String::from_str("24273a"),
        txt_color: String::from_str("cad3f5"),
        red: String::from_str("ed8796"),
        orange: String::from_str("f5a97f"),
        yellow: String::from_str("eed49f"),
        green: String::from_str("a6da95"),
        blue: String::from_str("8aadf4"),
        purple: String::from_str("c6a0f6"),
        pink: String::from_str("f5bde6"),
    }
}

/// The text of the palette file that is written out when no palette
/// file exists yet.
pub fn default_theme_text() -> (r: String)
    ensures
        r@ == default_theme_text_view(),
{
    String::from_str(
        r#"bg_color1 = "181926"
    bg_color2 = "1e2030"
    bg_color3 = "24273a"
    txt_color = "cad3f5"
    red = "ed8796"
    orange = "f5a97f"
    yellow = "eed49f"
    green = "a6da95"
    blue = "8aadf4"
    purple = "c6a0f6"
    pink = "f5bde6""#,
    )
}

/// The characters of the default palette file text.
pub open spec fn default_theme_text_view() -> Seq<char> {
    r#"bg_color1 = "181926"
    bg_color2 = "1e2030"
    bg_color3 = "24273a"
    txt_color = "cad3f5"
    red = "ed8796"
    orange = "f5a97f"
    yellow = "eed49f"
    green = "a6da95"
    blue = "8aadf4"
    purple = "c6a0f6"
    pink = "f5bde6""#@
}

/// Resolve the palette from whichever source exists: the user's file,
/// else the system-wide file, else the built-in default. Only in the
/// last case a text to persist at the user path is handed back.
pub fn make_custom_theme(user_file: Option<String>, system_file: Option<String>) -> (r: Result<
    (ThemeCustom, Option<String>),
    ThemeError,
>)
    ensures
        user_file matches Some(t) ==> ({
            match palette_outcome(t@) {
                Ok(tc) => r matches Ok(p) && p.0 == tc && p.1 is None,
                Err(e) => r == Err::<(ThemeCustom, Option<String>), ThemeError>(e),
            }
        }),
        user_file is None ==> (system_file matches Some(t) ==> ({
            match palette_outcome(t@) {
                Ok(tc) => r matches Ok(p) && p.0 == tc && p.1 is None,
                Err(e) => r == Err::<(ThemeCustom, Option<String>), ThemeError>(e),
            }
        })),
        user_file is None && system_file is None ==> (r matches Ok(p) && p.0
            == resolved_theme_spec(default_theme_view()) && (p.1 matches Some(w) && w@
            == default_theme_text_view())),
{
    match user_file {
        Some(t) => match resolve_palette(t.as_str()) {
            Ok(tc) => Ok((tc, None)),
            Err(e) => Err(e),
        },
        None => match system_file {
            Some(t) => match resolve_palette(t.as_str()) {
                Ok(tc) => Ok((tc, None)),
                Err(e) => Err(e),
            },
            None => {
                let tf = default_theme_file();
                match assemble_theme(&tf) {
                    Ok(tc) => Ok((tc, Some(default_theme_text()))),
                    Err(e) => Err(e),
                }
            },
        },
    }
}

/// What the selection file text selects: the theme named by its
/// `theme` entry, where only "dark" and "custom" are recognized and
/// anything else — a malformed file included — falls back to light.
pub open spec fn selection_of(s: Seq<char>) -> SelectedTheme {
    match parse_doc(s, 0) {
        None => SelectedTheme::Light,
        Some(doc) => match lookup(doc, "theme"@) {
            None => SelectedTheme::Light,
            Some(v) => if v == "dark"@ {
                SelectedTheme::Dark
            } else if v == "custom"@ {
                SelectedTheme::Custom
            } else {
                SelectedTheme::Light
            },
        },
    }
}

/// Parse the preference file naming the active theme variant.
pub fn parse_cfg(text: &str) -> (r: Result<CuttlefishCfg, ThemeError>)
    ensures
        ({
            match parse_doc(text@, 0) {
                None => r == Err::<CuttlefishCfg, ThemeError>(ThemeError::SelectionParseError),
                Some(doc) => match lookup(doc, "theme"@) {
                    None => r == Err::<CuttlefishCfg, ThemeError>(ThemeError::SelectionParseError),
                    Some(v) => (r matches Ok(c) && c.theme@ == v),
                },
            }
        }),
{
    let d = match parse_kv_text(text) {
        None => {
            return Err(ThemeError::SelectionParseError);
        },
        Some(d) => d,
    };
    match lookup_value(&d, &String::from_str("theme")) {
        None => Err(ThemeError::SelectionParseError),
        Some(theme) => Ok(CuttlefishCfg { theme }),
    }
}

/// Map the selection file, or its absence, to the selected variant.
/// An absent or malformed file is recovered: it selects light.
pub fn get_set_theme(cfg_file: Option<String>) -> (r: SelectedTheme)
    ensures
        r == (match cfg_file {
            None => SelectedTheme::Light,
            Some(t) => selection_of(t@),
        }),
{
    match cfg_file {
        None => SelectedTheme::Light,
        Some(t) => match parse_cfg(t.as_str()) {
            Err(_) => SelectedTheme::Light,
            Ok(cfg) => {
                if cfg.theme == String::from_str("dark") {
                    SelectedTheme::Dark
                } else if cfg.theme == String::from_str("custom") {
                    SelectedTheme::Custom
                } else {
                    SelectedTheme::Light
                }
            },
        },
    }
}

} // verus!
