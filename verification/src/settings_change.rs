use vstd::prelude::*;

use crate::settings::{Settings, SettingsRecord};

verus! {

/// A change to the desktop that the app performs for a settings change.
pub enum Effect {
    /// Register the global shortcut, so that it opens a new memo.
    Register(String),
    /// Release the global shortcut.
    Unregister(String),
    /// Show (`true`) or hide the menu bar icon, and switch the app's
    /// activation policy with it.
    SetMenuBarMode(bool),
}

/// An effect as plain values.
pub enum EffectView {
    Register(Seq<char>),
    Unregister(Seq<char>),
    SetMenuBarMode(bool),
}

impl View for Effect {
    type V = EffectView;

    open spec fn view(&self) -> EffectView {
        match self {
            Effect::Register(s) => EffectView::Register(s@),
            Effect::Unregister(s) => EffectView::Unregister(s@),
            Effect::SetMenuBarMode(b) => EffectView::SetMenuBarMode(*b),
        }
    }
}

/// What the app is to do next for a settings change.
pub enum Command {
    /// Perform the effect, then report how it went.
    Perform(Effect),
    /// Store the settings in the database, then report how it went.
    Store(Settings),
    /// Record the shortcut as the one in force, then report how it went.
    Record(String),
    /// Perform each effect of `undo` in order, whatever each one answers,
    /// then answer the settings change with `outcome`.
    Finish { undo: Vec<Effect>, outcome: Result<(), String> },
}

/// A command as plain values.
pub enum CommandView {
    Perform(EffectView),
    Store(SettingsRecord),
    Record(Seq<char>),
    Finish(Seq<EffectView>, Result<(), Seq<char>>),
}

impl View for Command {
    type V = CommandView;

    open spec fn view(&self) -> CommandView {
        match self {
            Command::Perform(e) => CommandView::Perform(e@),
            Command::Store(s) => CommandView::Store(s@),
            Command::Record(s) => CommandView::Record(s@),
            Command::Finish { undo, outcome } => CommandView::Finish(
                undo@.map_values(|e: Effect| e@),
                match outcome {
                    Ok(()) => Ok(()),
                    Err(m) => Err(m@),
                },
            ),
        }
    }
}

/// How the last command went.
pub enum Report {
    /// It was carried out.
    Done,
    /// It failed with this message.
    Failed(String),
    /// It could not be started (the shared state was unavailable), with
    /// this message.
    Unavailable(String),
}

/// Where a settings change stands: the work of the named stage is under way.
#[derive(PartialEq, Eq, Structural)]
pub enum Stage {
    /// Registering the new global shortcut.
    Registering,
    /// Releasing the old global shortcut.
    Releasing,
    /// Switching the menu bar mode.
    Switching,
    /// Storing the settings.
    Storing,
    /// Recording the shortcut in force.
    Recording,
    /// Over; the outcome has been given.
    Finished,
}

/// Whether the global shortcut changes from `current` to `target`.
pub open spec fn shortcut_changes(target: SettingsRecord, current: SettingsRecord) -> bool {
    target.0 != current.0
}

/// Whether the menu bar mode changes from `current` to `target`.
pub open spec fn menu_changes(target: SettingsRecord, current: SettingsRecord) -> bool {
    target.4 != current.4
}

/// The first stage of a change: stages with nothing to do are skipped.
pub open spec fn first_stage(target: SettingsRecord, current: SettingsRecord) -> Stage {
    if shortcut_changes(target, current) {
        Stage::Registering
    } else if menu_changes(target, current) {
        Stage::Switching
    } else {
        Stage::Storing
    }
}

/// The stage after `stage` once its work is done.
pub open spec fn stage_after(stage: Stage, target: SettingsRecord, current: SettingsRecord) -> Stage {
    match stage {
        Stage::Registering => Stage::Releasing,
        Stage::Releasing => if menu_changes(target, current) {
            Stage::Switching
        } else {
            Stage::Storing
        },
        Stage::Switching => Stage::Storing,
        Stage::Storing => Stage::Recording,
        Stage::Recording => Stage::Finished,
        Stage::Finished => Stage::Finished,
    }
}

/// The command that starts the work of `stage`.
pub open spec fn command_for(stage: Stage, target: SettingsRecord, current: SettingsRecord) -> CommandView {
    match stage {
        Stage::Registering => CommandView::Perform(EffectView::Register(target.0)),
        Stage::Releasing => CommandView::Perform(EffectView::Unregister(current.0)),
        Stage::Switching => CommandView::Perform(EffectView::SetMenuBarMode(target.4)),
        Stage::Storing => CommandView::Store(target),
        Stage::Recording => CommandView::Record(target.0),
        Stage::Finished => CommandView::Finish(Seq::empty(), Ok(())),
    }
}

/// The effects that put the old global shortcut back in place of the new.
pub open spec fn shortcut_undo(target: SettingsRecord, current: SettingsRecord) -> Seq<EffectView> {
    if shortcut_changes(target, current) {
        seq![EffectView::Unregister(target.0), EffectView::Register(current.0)]
    } else {
        Seq::empty()
    }
}

/// The effects that put the old menu bar mode back.
pub open spec fn menu_undo(target: SettingsRecord, current: SettingsRecord) -> Seq<EffectView> {
    if menu_changes(target, current) {
        seq![EffectView::SetMenuBarMode(current.4)]
    } else {
        Seq::empty()
    }
}

/// What is undone when the work of `stage` fails: the effects done before
/// it. Once the settings are stored nothing is undone.
pub open spec fn undo_for(stage: Stage, target: SettingsRecord, current: SettingsRecord) -> Seq<EffectView> {
    match stage {
        Stage::Registering => Seq::empty(),
        Stage::Releasing => seq![EffectView::Unregister(target.0)],
        Stage::Switching => shortcut_undo(target, current),
        Stage::Storing => shortcut_undo(target, current) + menu_undo(target, current),
        _ => Seq::empty(),
    }
}

/// The next stage and command once the work of `stage` is reported on.
pub open spec fn transition(
    stage: Stage,
    target: SettingsRecord,
    current: SettingsRecord,
    report: Report,
) -> (Stage, CommandView) {
    match report {
        Report::Done => {
            let next = stage_after(stage, target, current);
            (next, command_for(next, target, current))
        },
        Report::Failed(m) => (
            Stage::Finished,
            CommandView::Finish(undo_for(stage, target, current), Err(m@)),
        ),
        Report::Unavailable(m) => (Stage::Finished, CommandView::Finish(Seq::empty(), Err(m@))),
    }
}

/// Whether a change from `current` to `target` can stand at `stage`: the
/// shortcut stages only when the shortcut changes, the menu stage only when
/// the menu bar mode changes.
pub open spec fn stage_fits(stage: Stage, target: SettingsRecord, current: SettingsRecord) -> bool {
    match stage {
        Stage::Registering | Stage::Releasing => shortcut_changes(target, current),
        Stage::Switching => menu_changes(target, current),
        _ => true,
    }
}

/// The desktop as a settings change sees it: the registered global
/// shortcuts, and whether the menu bar mode is on.
pub type Desktop = (Set<Seq<char>>, bool);

/// The desktop after the effect `e` worked.
pub open spec fn performed(e: EffectView, d: Desktop) -> Desktop {
    match e {
        EffectView::Register(s) => (d.0.insert(s), d.1),
        EffectView::Unregister(s) => (d.0.remove(s), d.1),
        EffectView::SetMenuBarMode(b) => (d.0, b),
    }
}

/// The desktop after the effects `es` worked, in order.
pub open spec fn performed_all(es: Seq<EffectView>, d: Desktop) -> Desktop
    decreases es.len(),
{
    if es.len() == 0 {
        d
    } else {
        performed_all(es.drop_first(), performed(es[0], d))
    }
}

/// Whether the desktop has the settings `s` in force: their global shortcut
/// registered and their menu bar mode on or off.
pub open spec fn in_force(d: Desktop, s: SettingsRecord) -> bool {
    d.0.contains(s.0) && d.1 == s.4
}

/// The effects that worked by the time a change stands at `stage`: each
/// stage is entered only after the work of the one before it was done.
pub open spec fn effects_done(stage: Stage, target: SettingsRecord, current: SettingsRecord) -> Seq<EffectView> {
    let shortcut_done = if shortcut_changes(target, current) {
        seq![EffectView::Register(target.0), EffectView::Unregister(current.0)]
    } else {
        Seq::empty()
    };
    let menu_done = if menu_changes(target, current) {
        seq![EffectView::SetMenuBarMode(target.4)]
    } else {
        Seq::empty()
    };
    match stage {
        Stage::Registering => Seq::empty(),
        Stage::Releasing => seq![EffectView::Register(target.0)],
        Stage::Switching => shortcut_done,
        _ => shortcut_done + menu_done,
    }
}

/// Performing two lists of effects one after the other.
pub proof fn lemma_performed_all_append(a: Seq<EffectView>, b: Seq<EffectView>, d: Desktop)
    ensures
        performed_all(a + b, d) == performed_all(b, performed_all(a, d)),
    decreases a.len(),
{
    if a.len() == 0 {
        assert(a + b =~= b);
    } else {
        assert((a + b).drop_first() =~= a.drop_first() + b);
        lemma_performed_all_append(a.drop_first(), b, performed(a[0], d));
    }
}

/// Law: the effects a change has done are exactly the effects it commanded
/// and that were reported done. A change starts with none done; when the
/// work of a stage is done, the next stage has done one effect more if that
/// work was an effect, and the same effects otherwise.
pub proof fn law_done_effects_follow_commands(stage: Stage, target: SettingsRecord, current: SettingsRecord)
    requires
        stage_fits(stage, target, current),
        stage != Stage::Finished,
    ensures
        effects_done(first_stage(target, current), target, current) == Seq::<EffectView>::empty(),
        stage_fits(stage_after(stage, target, current), target, current),
        match command_for(stage, target, current) {
            CommandView::Perform(e) => effects_done(stage_after(stage, target, current), target, current)
                == effects_done(stage, target, current).push(e),
            _ => effects_done(stage_after(stage, target, current), target, current) == effects_done(
                stage,
                target,
                current,
            ),
        },
{
    assert(effects_done(first_stage(target, current), target, current) =~= Seq::<EffectView>::empty());
    let next = stage_after(stage, target, current);
    match stage {
        Stage::Registering => {
            assert(effects_done(next, target, current) =~= effects_done(stage, target, current).push(
                EffectView::Register(target.0),
            ));
        },
        Stage::Releasing => {
            assert(effects_done(next, target, current) =~= effects_done(stage, target, current).push(
                EffectView::Unregister(current.0),
            ));
        },
        Stage::Switching => {
            assert(effects_done(next, target, current) =~= effects_done(stage, target, current).push(
                EffectView::SetMenuBarMode(target.4),
            ));
        },
        _ => {},
    }
}

/// Law: a settings change that fails before the settings are stored leaves
/// the desktop as it was: the undo list of the failing stage takes back
/// every effect done. The desktop is taken to have the settings in force,
/// and not to hold the new shortcut already.
pub proof fn law_failure_is_undone(stage: Stage, target: SettingsRecord, current: SettingsRecord, d: Desktop)
    requires
        stage_fits(stage, target, current),
        stage == Stage::Registering || stage == Stage::Releasing || stage == Stage::Switching || stage
            == Stage::Storing,
        in_force(d, current),
        shortcut_changes(target, current) ==> !d.0.contains(target.0),
    ensures
        performed_all(effects_done(stage, target, current) + undo_for(stage, target, current), d) == d,
{
    let done = effects_done(stage, target, current);
    let undo = undo_for(stage, target, current);
    lemma_performed_all_append(done, undo, d);
    reveal_with_fuel(performed_all, 4);
    let mid = performed_all(done, d);
    match stage {
        Stage::Registering => {},
        Stage::Releasing => {
            assert(mid.0 =~= d.0.insert(target.0));
            assert(performed_all(undo, mid).0 =~= d.0);
        },
        _ => {
            if shortcut_changes(target, current) {
                assert(performed_all(undo, mid).0 =~= d.0);
            } else {
                assert(performed_all(undo, mid).0 =~= d.0);
            }
        },
    }
}

/// Law: a settings change that runs to the end puts the new settings in
/// force: the new global shortcut takes the place of the old one, other
/// registrations stay, and the menu bar mode is the new one.
pub proof fn law_success_puts_settings_in_force(target: SettingsRecord, current: SettingsRecord, d: Desktop)
    requires
        in_force(d, current),
    ensures
        performed_all(effects_done(Stage::Finished, target, current), d) == (
            if shortcut_changes(target, current) {
                d.0.remove(current.0).insert(target.0)
            } else {
                d.0
            },
            target.4,
        ),
        in_force(performed_all(effects_done(Stage::Finished, target, current), d), target),
{
    reveal_with_fuel(performed_all, 4);
    let r = performed_all(effects_done(Stage::Finished, target, current), d);
    if shortcut_changes(target, current) {
        assert(r.0 =~= d.0.remove(current.0).insert(target.0));
    } else {
        assert(r.0 =~= d.0);
    }
}

/// Law: every command of a settings change carries the settings it is
/// about: it stores exactly the target settings, field for field, records
/// and registers the target's global shortcut, releases the old one, and
/// switches to the target's menu bar mode; so does every command that a
/// report on the work of a stage leads to.
pub proof fn law_commands_carry_the_target(
    stage: Stage,
    target: SettingsRecord,
    current: SettingsRecord,
    report: Report,
)
    ensures
        forall|c: CommandView|
            (c == command_for(stage, target, current) || c == transition(stage, target, current, report).1) ==> {
                &&& (c matches CommandView::Store(x) ==> x.0 == target.0 && x.1 == target.1 && x.2
                    == target.2 && x.3 == target.3 && x.4 == target.4)
                &&& (c matches CommandView::Record(x) ==> x == target.0)
                &&& (c matches CommandView::Perform(EffectView::Register(x)) ==> x == target.0)
                &&& (c matches CommandView::Perform(EffectView::Unregister(x)) ==> x == current.0)
                &&& (c matches CommandView::Perform(EffectView::SetMenuBarMode(b)) ==> b == target.4)
            },
{
}

/// A settings change under way, from the settings in force to new ones
/// that passed validation.
pub struct SettingsChange {
    target: Settings,
    current: Settings,
    stage: Stage,
}

impl SettingsChange {
    #[verifier::type_invariant]
    spec fn stage_is_reachable(self) -> bool {
        stage_fits(self.stage, self.target@, self.current@)
    }

    /// The settings being put in force.
    pub closed spec fn target(self) -> SettingsRecord {
        self.target@
    }

    /// The settings in force when the change began.
    pub closed spec fn current(self) -> SettingsRecord {
        self.current@
    }

    /// The stage the change stands at.
    pub closed spec fn stage(self) -> Stage {
        self.stage
    }

    /// Starts changing the settings in force, `current`, to `target`;
    /// returns the change and the first command.
    pub fn begin(target: Settings, current: Settings) -> (r: (SettingsChange, Command))
        ensures
            r.0.target() == target@,
            r.0.current() == current@,
            r.0.stage() == first_stage(target@, current@),
            r.1@ == command_for(first_stage(target@, current@), target@, current@),
    {
        let shortcut_changed = !(target.global_shortcut == current.global_shortcut);
        let menu_changed = target.menu_bar_mode != current.menu_bar_mode;
        let (stage, command) = if shortcut_changed {
            (Stage::Registering, Command::Perform(Effect::Register(target.global_shortcut.clone())))
        } else if menu_changed {
            (Stage::Switching, Command::Perform(Effect::SetMenuBarMode(target.menu_bar_mode)))
        } else {
            (Stage::Storing, Command::Store(target.duplicate()))
        };
        (SettingsChange { target, current, stage }, command)
    }

    /// Whether the change is over.
    pub fn is_finished(&self) -> (b: bool)
        ensures
            b == (self.stage() == Stage::Finished),
    {
        match self.stage {
            Stage::Finished => true,
            _ => false,
        }
    }

    /// The command that starts the work of `stage`.
    fn command(&self, stage: &Stage) -> (c: Command)
        ensures
            c@ == command_for(*stage, self.target@, self.current@),
    {
        match stage {
            Stage::Registering => Command::Perform(Effect::Register(self.target.global_shortcut.clone())),
            Stage::Releasing => Command::Perform(Effect::Unregister(self.current.global_shortcut.clone())),
            Stage::Switching => Command::Perform(Effect::SetMenuBarMode(self.target.menu_bar_mode)),
            Stage::Storing => Command::Store(self.target.duplicate()),
            Stage::Recording => Command::Record(self.target.global_shortcut.clone()),
            Stage::Finished => {
                let undo: Vec<Effect> = Vec::new();
                assert(undo@.map_values(|e: Effect| e@) =~= Seq::empty());
                Command::Finish { undo, outcome: Ok(()) }
            },
        }
    }

    /// The effects that undo the work done before `stage`.
    fn undo(&self, stage: &Stage) -> (undo: Vec<Effect>)
        ensures
            undo@.map_values(|e: Effect| e@) == undo_for(*stage, self.target@, self.current@),
    {
        let shortcut_changed = !(self.target.global_shortcut == self.current.global_shortcut);
        let menu_changed = self.target.menu_bar_mode != self.current.menu_bar_mode;
        let mut undo: Vec<Effect> = Vec::new();
        match stage {
            Stage::Releasing => {
                undo.push(Effect::Unregister(self.target.global_shortcut.clone()));
            },
            Stage::Switching | Stage::Storing => {
                if shortcut_changed {
                    undo.push(Effect::Unregister(self.target.global_shortcut.clone()));
                    undo.push(Effect::Register(self.current.global_shortcut.clone()));
                }
                if menu_changed && *stage == Stage::Storing {
                    undo.push(Effect::SetMenuBarMode(self.current.menu_bar_mode));
                }
            },
            _ => {},
        }
        proof {
            let u = undo_for(*stage, self.target@, self.current@);
            assert(undo@.map_values(|e: Effect| e@) =~= u);
        }
        undo
    }

    /// Takes the report on the last command; returns the next command.
    pub fn step(&mut self, report: Report) -> (c: Command)
        requires
            old(self).stage() != Stage::Finished,
        ensures
            final(self).target() == old(self).target(),
            final(self).current() == old(self).current(),
            (final(self).stage(), c@) == transition(
                old(self).stage(),
                old(self).target(),
                old(self).current(),
                report,
            ),
    {
        proof {
            use_type_invariant(&*self);
        }
        match report {
            Report::Done => {
                let next = match self.stage {
                    Stage::Registering => Stage::Releasing,
                    Stage::Releasing => if self.target.menu_bar_mode != self.current.menu_bar_mode {
                        Stage::Switching
                    } else {
                        Stage::Storing
                    },
                    Stage::Switching => Stage::Storing,
                    Stage::Storing => Stage::Recording,
                    _ => Stage::Finished,
                };
                let c = self.command(&next);
                self.stage = next;
                c
            },
            Report::Failed(m) => {
                let undo = self.undo(&self.stage);
                self.stage = Stage::Finished;
                Command::Finish { undo, outcome: Err(m) }
            },
            Report::Unavailable(m) => {
                self.stage = Stage::Finished;
                let undo: Vec<Effect> = Vec::new();
                assert(undo@.map_values(|e: Effect| e@) =~= Seq::empty());
                Command::Finish { undo, outcome: Err(m) }
            },
        }
    }
}

} // verus!
