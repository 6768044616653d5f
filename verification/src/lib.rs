pub mod codec;
pub mod error;
pub mod parse;
pub mod theme;

pub use codec::{format_radix, string_from_col, string_to_color, RgbColor};
pub use error::ThemeError;
pub use theme::{
    assemble_theme, default_theme_file, default_theme_text, get_home, get_set_theme,
    make_custom_theme, parse_cfg, parse_theme_file, resolve_palette, ButtonPair, ButtonStyle,
    CuttlefishCfg, ListStyle, MenuStyle, Offset, Palette, SelectedTheme, TextStyle, ThemeCustom,
    ThemeFile, ThemeSet,
};
