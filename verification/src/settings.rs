use vstd::prelude::*;

verus! {

broadcast use vstd::string::group_string_axioms;

/// The user's settings: three keyboard shortcuts, the editor font size in
/// pixels, and whether the app lives in the menu bar.
#[derive(Clone, Debug, PartialEq)]
pub struct Settings {
    pub global_shortcut: String,
    pub new_note_shortcut: String,
    pub search_shortcut: String,
    pub font_size: i64,
    pub menu_bar_mode: bool,
}

/// Settings as plain values, in the order of the fields.
pub type SettingsRecord = (Seq<char>, Seq<char>, Seq<char>, i64, bool);

impl View for Settings {
    type V = SettingsRecord;

    open spec fn view(&self) -> SettingsRecord {
        (
            self.global_shortcut@,
            self.new_note_shortcut@,
            self.search_shortcut@,
            self.font_size,
            self.menu_bar_mode,
        )
    }
}

impl Settings {
    /// A copy of these settings.
    pub fn duplicate(&self) -> (copy: Settings)
        ensures
            copy@ == self@,
    {
        Settings {
            global_shortcut: self.global_shortcut.clone(),
            new_note_shortcut: self.new_note_shortcut.clone(),
            search_shortcut: self.search_shortcut.clone(),
            font_size: self.font_size,
            menu_bar_mode: self.menu_bar_mode,
        }
    }
}

/// The settings of a fresh installation.
pub open spec fn default_settings() -> SettingsRecord {
    ("Option+Space"@, "CommandOrControl+N"@, "CommandOrControl+K"@, 18, false)
}

impl Default for Settings {
    fn default() -> (s: Self)
        ensures
            s@ == default_settings(),
    {
        Settings {
            global_shortcut: "Option+Space".to_owned(),
            new_note_shortcut: "CommandOrControl+N".to_owned(),
            search_shortcut: "CommandOrControl+K".to_owned(),
            font_size: 18,
            menu_bar_mode: false,
        }
    }
}

/// The message for a font size outside 15..=24.
pub const FONT_SIZE_MESSAGE: &'static str = "文字サイズは15pxから24pxの間で指定してください。";

/// The message for one shortcut given to two actions.
pub const DUPLICATE_SHORTCUT_MESSAGE: &'static str = "同じショートカットを複数の操作には設定できません。";

/// The message for a shortcut that is not a key combination.
pub const UNUSABLE_SHORTCUT_MESSAGE: &'static str = "このキーの組み合わせは使用できません。";

/// Whether `text` reads as a keyboard shortcut (modifiers, then one key,
/// joined by `+`) to `global_hotkey`'s parser, the one behind
/// `tauri_plugin_global_shortcut::Shortcut`.
pub uninterp spec fn is_shortcut(text: Seq<char>) -> bool;

/// Calls `<global_hotkey::hotkey::HotKey as FromStr>::from_str` and reports
/// whether it succeeded. The parser reads nothing but its argument.
#[verifier::external_body]
fn parses_as_shortcut(text: &str) -> (ok: bool)
    ensures
        ok == is_shortcut(text@),
{
    text.parse::<global_hotkey::hotkey::HotKey>().is_ok()
}

/// What is wrong with `s`, if anything, given whether each of its three
/// shortcuts parses: the font size is checked first, then that the three
/// shortcuts differ, then that each one parses.
pub open spec fn settings_problem_given(
    s: SettingsRecord,
    global_parses: bool,
    new_note_parses: bool,
    search_parses: bool,
) -> Option<Seq<char>> {
    if !(15 <= s.3 && s.3 <= 24) {
        Some(FONT_SIZE_MESSAGE@)
    } else if s.0 == s.1 || s.0 == s.2 || s.1 == s.2 {
        Some(DUPLICATE_SHORTCUT_MESSAGE@)
    } else if !global_parses || !new_note_parses || !search_parses {
        Some(UNUSABLE_SHORTCUT_MESSAGE@)
    } else {
        None
    }
}

/// What is wrong with `s`, if anything.
pub open spec fn settings_problem(s: SettingsRecord) -> Option<Seq<char>> {
    settings_problem_given(s, is_shortcut(s.0), is_shortcut(s.1), is_shortcut(s.2))
}

/// The verdict on `settings` once it is known whether each of its three
/// shortcuts parses.
pub fn judge_settings(
    settings: &Settings,
    global_parses: bool,
    new_note_parses: bool,
    search_parses: bool,
) -> (r: Result<(), String>)
    ensures
        match settings_problem_given(settings@, global_parses, new_note_parses, search_parses) {
            None => r is Ok,
            Some(message) => r matches Err(e) && e@ == message,
        },
{
    if !(15 <= settings.font_size && settings.font_size <= 24) {
        return Err(FONT_SIZE_MESSAGE.to_owned());
    }
    if settings.global_shortcut == settings.new_note_shortcut
        || settings.global_shortcut == settings.search_shortcut
        || settings.new_note_shortcut == settings.search_shortcut {
        return Err(DUPLICATE_SHORTCUT_MESSAGE.to_owned());
    }
    if !global_parses || !new_note_parses || !search_parses {
        return Err(UNUSABLE_SHORTCUT_MESSAGE.to_owned());
    }
    Ok(())
}

/// Checks settings before they are applied or stored.
pub fn validate_settings(settings: &Settings) -> (r: Result<(), String>)
    ensures
        match settings_problem(settings@) {
            None => r is Ok,
            Some(message) => r matches Err(e) && e@ == message,
        },
{
    let global_parses = parses_as_shortcut(settings.global_shortcut.as_str());
    let new_note_parses = parses_as_shortcut(settings.new_note_shortcut.as_str());
    let search_parses = parses_as_shortcut(settings.search_shortcut.as_str());
    judge_settings(settings, global_parses, new_note_parses, search_parses)
}

/// Law: settings whose font size is within 15..=24 and in which two of the
/// three shortcuts are the same are refused with the duplicate-shortcut
/// message, whatever the menu bar mode and whatever the parser says.
pub proof fn law_duplicate_shortcuts_are_refused(
    s: SettingsRecord,
    global_parses: bool,
    new_note_parses: bool,
    search_parses: bool,
)
    requires
        15 <= s.3 && s.3 <= 24,
        s.0 == s.1 || s.0 == s.2 || s.1 == s.2,
    ensures
        settings_problem_given(s, global_parses, new_note_parses, search_parses) == Some(
            DUPLICATE_SHORTCUT_MESSAGE@,
        ),
        settings_problem(s) == Some(DUPLICATE_SHORTCUT_MESSAGE@),
{
}

/// Law: a font size outside 15..=24 is refused with the font-size message,
/// before anything else is looked at.
pub proof fn law_font_size_out_of_range_is_refused(
    s: SettingsRecord,
    global_parses: bool,
    new_note_parses: bool,
    search_parses: bool,
)
    requires
        s.3 < 15 || s.3 > 24,
    ensures
        settings_problem_given(s, global_parses, new_note_parses, search_parses) == Some(FONT_SIZE_MESSAGE@),
        settings_problem(s) == Some(FONT_SIZE_MESSAGE@),
{
}

/// Law: settings with a font size within 15..=24 and three different
/// shortcuts are accepted exactly when all three parse; otherwise they are
/// refused with the unusable-shortcut message.
pub proof fn law_distinct_shortcuts_are_judged_by_parsing(
    s: SettingsRecord,
    global_parses: bool,
    new_note_parses: bool,
    search_parses: bool,
)
    requires
        15 <= s.3 && s.3 <= 24,
        s.0 != s.1 && s.0 != s.2 && s.1 != s.2,
    ensures
        global_parses && new_note_parses && search_parses ==> settings_problem_given(
            s,
            global_parses,
            new_note_parses,
            search_parses,
        ) is None,
        !(global_parses && new_note_parses && search_parses) ==> settings_problem_given(
            s,
            global_parses,
            new_note_parses,
            search_parses,
        ) == Some(UNUSABLE_SHORTCUT_MESSAGE@),
{
}

/// Law: the menu bar mode plays no part in validation: settings that differ
/// only in it get the same verdict.
pub proof fn law_menu_bar_mode_plays_no_part(
    s: SettingsRecord,
    global_parses: bool,
    new_note_parses: bool,
    search_parses: bool,
)
    ensures
        settings_problem_given(s, global_parses, new_note_parses, search_parses)
            == settings_problem_given((s.0, s.1, s.2, s.3, !s.4), global_parses, new_note_parses, search_parses),
        settings_problem(s) == settings_problem((s.0, s.1, s.2, s.3, !s.4)),
{
}

} // verus!
