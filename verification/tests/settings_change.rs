use qmem::settings::Settings;
use qmem::settings_change::{Command, Effect, Report, SettingsChange};

fn current() -> Settings {
    Settings::default()
}

fn target(shortcut: &str, menu: bool) -> Settings {
    Settings {
        global_shortcut: shortcut.into(),
        menu_bar_mode: menu,
        font_size: 20,
        ..Settings::default()
    }
}

fn effect_name(e: &Effect) -> String {
    match e {
        Effect::Register(s) => format!("register {}", s),
        Effect::Unregister(s) => format!("unregister {}", s),
        Effect::SetMenuBarMode(b) => format!("menu {}", b),
    }
}

fn describe(c: &Command) -> String {
    match c {
        Command::Perform(e) => effect_name(e),
        Command::Store(s) => format!("store {} {}", s.global_shortcut, s.font_size),
        Command::Record(s) => format!("record {}", s),
        Command::Finish { undo, outcome } => {
            let names: Vec<String> = undo.iter().map(effect_name).collect();
            format!("finish [{}] {:?}", names.join(", "), outcome)
        }
    }
}

#[test]
fn full_change_runs_every_step() {
    let (mut change, first) = SettingsChange::begin(target("Shift+KeyJ", true), current());
    let mut seen = vec![describe(&first)];
    while !change.is_finished() {
        let c = change.step(Report::Done);
        seen.push(describe(&c));
    }
    assert_eq!(
        seen,
        vec![
            "register Shift+KeyJ",
            "unregister Option+Space",
            "menu true",
            "store Shift+KeyJ 20",
            "record Shift+KeyJ",
            "finish [] Ok(())",
        ]
    );
}

#[test]
fn unchanged_shortcut_and_menu_only_store_and_record() {
    let (mut change, first) = SettingsChange::begin(target("Option+Space", false), current());
    assert_eq!(describe(&first), "store Option+Space 20");
    assert_eq!(describe(&change.step(Report::Done)), "record Option+Space");
    assert_eq!(describe(&change.step(Report::Done)), "finish [] Ok(())");
    assert!(change.is_finished());
}

#[test]
fn menu_only_change_skips_shortcut_steps() {
    let (mut change, first) = SettingsChange::begin(target("Option+Space", true), current());
    assert_eq!(describe(&first), "menu true");
    assert_eq!(describe(&change.step(Report::Done)), "store Option+Space 20");
}

#[test]
fn failed_registration_undoes_nothing() {
    let (mut change, _) = SettingsChange::begin(target("Shift+KeyJ", true), current());
    let c = change.step(Report::Failed("taken".into()));
    assert_eq!(describe(&c), "finish [] Err(\"taken\")");
    assert!(change.is_finished());
}

#[test]
fn failed_release_unregisters_the_new_shortcut() {
    let (mut change, _) = SettingsChange::begin(target("Shift+KeyJ", true), current());
    change.step(Report::Done);
    let c = change.step(Report::Failed("busy".into()));
    assert_eq!(describe(&c), "finish [unregister Shift+KeyJ] Err(\"busy\")");
}

#[test]
fn failed_menu_switch_restores_the_old_shortcut() {
    let (mut change, _) = SettingsChange::begin(target("Shift+KeyJ", true), current());
    change.step(Report::Done);
    change.step(Report::Done);
    let c = change.step(Report::Failed("no tray".into()));
    assert_eq!(
        describe(&c),
        "finish [unregister Shift+KeyJ, register Option+Space] Err(\"no tray\")"
    );
}

#[test]
fn failed_store_restores_shortcut_and_menu() {
    let (mut change, _) = SettingsChange::begin(target("Shift+KeyJ", true), current());
    change.step(Report::Done);
    change.step(Report::Done);
    change.step(Report::Done);
    let c = change.step(Report::Failed("disk full".into()));
    assert_eq!(
        describe(&c),
        "finish [unregister Shift+KeyJ, register Option+Space, menu false] Err(\"disk full\")"
    );
}

#[test]
fn failed_store_with_only_menu_change_restores_menu() {
    let (mut change, _) = SettingsChange::begin(target("Option+Space", true), current());
    change.step(Report::Done);
    let c = change.step(Report::Failed("locked".into()));
    assert_eq!(describe(&c), "finish [menu false] Err(\"locked\")");
}

#[test]
fn unavailable_store_undoes_nothing() {
    let (mut change, _) = SettingsChange::begin(target("Shift+KeyJ", true), current());
    change.step(Report::Done);
    change.step(Report::Done);
    change.step(Report::Done);
    let c = change.step(Report::Unavailable("poisoned".into()));
    assert_eq!(describe(&c), "finish [] Err(\"poisoned\")");
}

#[test]
fn failed_record_after_store_undoes_nothing() {
    let (mut change, _) = SettingsChange::begin(target("Option+Space", false), current());
    change.step(Report::Done);
    let c = change.step(Report::Failed("poisoned".into()));
    assert_eq!(describe(&c), "finish [] Err(\"poisoned\")");
}
