use oceania_theme::{
    default_theme_file, default_theme_text, get_home, get_set_theme, make_custom_theme, parse_cfg,
    parse_theme_file, resolve_palette, string_to_color, RgbColor, SelectedTheme, ThemeError,
};

fn full_palette() -> String {
    String::from(
        "bg_color1 = \"181926\"\nbg_color2 = \"1e2030\"\nbg_color3 = \"24273a\"\ntxt_color = \"cad3f5\"\nred = \"ed8796\"\norange = \"f5a97f\"\nyellow = \"eed49f\"\ngreen = \"a6da95\"\nblue = \"8aadf4\"\npurple = \"c6a0f6\"\npink = \"f5bde6\"\n",
    )
}

#[test]
fn home_prefers_xdg() {
    let r = get_home(Some(String::from("/tmp/xdg")), Some(String::from("/home/u")));
    assert_eq!(r.unwrap(), "/tmp/xdg");
}

#[test]
fn home_falls_back_to_home_config() {
    let r = get_home(None, Some(String::from("/home/u")));
    assert_eq!(r.unwrap(), "/home/u/.config");
}

#[test]
fn home_missing_is_fatal() {
    assert_eq!(get_home(None, None), Err(ThemeError::EnvironmentMissing));
}

#[test]
fn selection_dark() {
    let r = get_set_theme(Some(String::from("theme = \"dark\"")));
    assert_eq!(r, SelectedTheme::Dark);
}

#[test]
fn selection_custom() {
    let r = get_set_theme(Some(String::from("theme = \"custom\"")));
    assert_eq!(r, SelectedTheme::Custom);
}

#[test]
fn selection_unrecognized_is_light() {
    let r = get_set_theme(Some(String::from("theme = \"purple\"")));
    assert_eq!(r, SelectedTheme::Light);
    let r = get_set_theme(Some(String::from("theme = \"light\"")));
    assert_eq!(r, SelectedTheme::Light);
    let r = get_set_theme(Some(String::from("theme = \"Dark\"")));
    assert_eq!(r, SelectedTheme::Light);
}

#[test]
fn selection_missing_file_is_light() {
    assert_eq!(get_set_theme(None), SelectedTheme::Light);
}

#[test]
fn selection_malformed_file_is_light() {
    assert_eq!(get_set_theme(Some(String::from("theme = dark"))), SelectedTheme::Light);
    assert_eq!(get_set_theme(Some(String::from("mode = \"dark\""))), SelectedTheme::Light);
}

#[test]
fn selection_tolerates_padding_and_comments() {
    let text = String::from("# pick one of light, dark, custom\n  theme = \"dark\"  # chosen\n");
    assert_eq!(get_set_theme(Some(text)), SelectedTheme::Dark);
}

#[test]
fn cfg_parse_reads_theme_field() {
    let cfg = parse_cfg("theme = \"dark\"").unwrap();
    assert_eq!(cfg.theme, "dark");
}

#[test]
fn cfg_parse_missing_field_fails() {
    assert_eq!(
        parse_cfg("mode = \"dark\"").map(|c| c.theme),
        Err(ThemeError::SelectionParseError)
    );
}

#[test]
fn palette_parses_all_fields() {
    let tf = parse_theme_file(&full_palette()).unwrap();
    assert_eq!(tf.bg_color1, "181926");
    assert_eq!(tf.pink, "f5bde6");
    assert_eq!(tf.blue, "8aadf4");
}

#[test]
fn palette_missing_field_fails() {
    let text = full_palette().replace("pink = \"f5bde6\"\n", "");
    assert_eq!(
        parse_theme_file(&text).map(|_| ()),
        Err(ThemeError::PaletteParseError)
    );
}

#[test]
fn palette_malformed_line_fails() {
    let text = full_palette() + "stray text\n";
    assert_eq!(
        parse_theme_file(&text).map(|_| ()),
        Err(ThemeError::PaletteParseError)
    );
}

#[test]
fn palette_bad_hex_is_color_format_error() {
    let text = full_palette().replace("8aadf4", "8aadfx");
    assert_eq!(
        resolve_palette(&text).map(|_| ()),
        Err(ThemeError::ColorFormatError)
    );
}

#[test]
fn resolved_theme_roles() {
    let t = resolve_palette(&full_palette()).unwrap();
    let bg1 = string_to_color(String::from("181926")).unwrap();
    let txt = string_to_color(String::from("cad3f5")).unwrap();
    let blue = string_to_color(String::from("8aadf4")).unwrap();
    let bg3 = string_to_color(String::from("24273a")).unwrap();
    assert_eq!(t.application.background, bg1);
    assert_eq!(t.application.primary, blue);
    assert_eq!(t.secondary.txt_color, txt);
    assert_eq!(t.secondary.border_width, 0);
    assert_eq!(t.sidebar.bg_color, string_to_color(String::from("1e2030")).unwrap());
    assert_eq!(t.list.bg_color, bg3);
    assert_eq!(t.list.menu.sel_bg_color, blue);
    assert_eq!(t.list.menu.sel_txt_color, txt);
    assert_eq!(t.list.border_radius, 5);
}

#[test]
fn menu_selected_background_is_blue() {
    let t = resolve_palette(&full_palette()).unwrap();
    assert_eq!(
        t.list.menu.sel_bg_color,
        string_to_color(String::from("8aadf4")).unwrap()
    );
}

#[test]
fn missing_palette_files_fall_back_to_default() {
    let (t, write_back) = make_custom_theme(None, None).unwrap();
    assert_eq!(write_back.as_deref(), Some(default_theme_text().as_str()));
    assert_eq!(
        t.application.background,
        string_to_color(String::from("181926")).unwrap()
    );
    assert_eq!(t.application.background, RgbColor { red: 0x18, green: 0x19, blue: 0x26 });
}

#[test]
fn user_palette_wins_and_is_not_rewritten() {
    let (t, write_back) = make_custom_theme(Some(full_palette()), None).unwrap();
    assert_eq!(write_back, None);
    assert_eq!(t.application.primary, RgbColor { red: 0x8a, green: 0xad, blue: 0xf4 });
}

#[test]
fn system_palette_used_when_user_file_absent() {
    let text = full_palette().replace("181926", "101010");
    let (t, write_back) = make_custom_theme(None, Some(text)).unwrap();
    assert_eq!(write_back, None);
    assert_eq!(t.application.background, RgbColor { red: 0x10, green: 0x10, blue: 0x10 });
}

#[test]
fn corrupt_user_palette_is_fatal_even_with_fallbacks() {
    let r = make_custom_theme(Some(String::from("not a palette")), Some(full_palette()));
    assert_eq!(r.map(|_| ()), Err(ThemeError::PaletteParseError));
}

#[test]
fn default_text_parses_to_default_palette() {
    let tf = parse_theme_file(&default_theme_text()).unwrap();
    let d = default_theme_file();
    assert_eq!(tf.bg_color1, d.bg_color1);
    assert_eq!(tf.bg_color2, d.bg_color2);
    assert_eq!(tf.bg_color3, d.bg_color3);
    assert_eq!(tf.txt_color, d.txt_color);
    assert_eq!(tf.red, d.red);
    assert_eq!(tf.orange, d.orange);
    assert_eq!(tf.yellow, d.yellow);
    assert_eq!(tf.green, d.green);
    assert_eq!(tf.blue, d.blue);
    assert_eq!(tf.purple, d.purple);
    assert_eq!(tf.pink, d.pink);
}

#[test]
fn duplicate_key_first_occurrence_wins() {
    let text = String::from("theme = \"dark\"\ntheme = \"custom\"\n");
    assert_eq!(get_set_theme(Some(text)), SelectedTheme::Dark);
}
