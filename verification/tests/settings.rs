use qmem::settings::judge_settings;
use qmem::settings::{
    validate_settings, Settings, DUPLICATE_SHORTCUT_MESSAGE, FONT_SIZE_MESSAGE,
    UNUSABLE_SHORTCUT_MESSAGE,
};

#[test]
fn default_settings_are_the_documented_ones() {
    let s = Settings::default();
    assert_eq!(s.global_shortcut, "Option+Space");
    assert_eq!(s.new_note_shortcut, "CommandOrControl+N");
    assert_eq!(s.search_shortcut, "CommandOrControl+K");
    assert_eq!(s.font_size, 18);
    assert!(!s.menu_bar_mode);
}

#[test]
fn default_settings_are_valid() {
    assert_eq!(validate_settings(&Settings::default()), Ok(()));
}

#[test]
fn font_size_must_be_between_15_and_24() {
    for size in [15, 20, 24] {
        let s = Settings { font_size: size, ..Settings::default() };
        assert_eq!(validate_settings(&s), Ok(()));
    }
    for size in [14, 25, -1, 0] {
        let s = Settings { font_size: size, ..Settings::default() };
        assert_eq!(validate_settings(&s), Err(FONT_SIZE_MESSAGE.to_string()));
    }
}

#[test]
fn font_size_is_checked_before_shortcuts() {
    let s = Settings {
        font_size: 30,
        new_note_shortcut: "Option+Space".into(),
        ..Settings::default()
    };
    assert_eq!(validate_settings(&s), Err(FONT_SIZE_MESSAGE.to_string()));
}

#[test]
fn shortcuts_must_differ() {
    let s = Settings { search_shortcut: "CommandOrControl+N".into(), ..Settings::default() };
    assert_eq!(validate_settings(&s), Err(DUPLICATE_SHORTCUT_MESSAGE.to_string()));
    let s = Settings { search_shortcut: "Option+Space".into(), ..Settings::default() };
    assert_eq!(validate_settings(&s), Err(DUPLICATE_SHORTCUT_MESSAGE.to_string()));
    let s = Settings { new_note_shortcut: "Option+Space".into(), ..Settings::default() };
    assert_eq!(validate_settings(&s), Err(DUPLICATE_SHORTCUT_MESSAGE.to_string()));
}

#[test]
fn shortcuts_must_be_key_combinations() {
    let s = Settings { global_shortcut: "Option+Nothing".into(), ..Settings::default() };
    assert_eq!(validate_settings(&s), Err(UNUSABLE_SHORTCUT_MESSAGE.to_string()));
    let s = Settings { search_shortcut: "K+Shift".into(), ..Settings::default() };
    assert_eq!(validate_settings(&s), Err(UNUSABLE_SHORTCUT_MESSAGE.to_string()));
    let s = Settings { new_note_shortcut: "".into(), ..Settings::default() };
    assert_eq!(validate_settings(&s), Err(UNUSABLE_SHORTCUT_MESSAGE.to_string()));
    let s = Settings {
        global_shortcut: "CommandOrControl+Shift+Space".into(),
        new_note_shortcut: "CommandOrControl+Shift+N".into(),
        search_shortcut: "CommandOrControl+Shift+K".into(),
        font_size: 21,
        menu_bar_mode: true,
    };
    assert_eq!(validate_settings(&s), Ok(()));
}

#[test]
fn duplicate_copies_every_field() {
    let s = Settings { font_size: 22, menu_bar_mode: true, ..Settings::default() };
    assert_eq!(s.duplicate(), s);
}

#[test]
fn judging_with_given_parse_results() {
    let s = Settings::default();
    assert_eq!(judge_settings(&s, true, true, true), Ok(()));
    assert_eq!(judge_settings(&s, true, false, true), Err(UNUSABLE_SHORTCUT_MESSAGE.to_string()));
    let small = Settings { font_size: 3, ..Settings::default() };
    assert_eq!(judge_settings(&small, false, false, false), Err(FONT_SIZE_MESSAGE.to_string()));
}
