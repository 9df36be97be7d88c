//! Things the window does in several steps.
//!
//! Saving a curve, switching profiles, changing a setting: each takes files,
//! dialogs and the engine, and decides after every answer what comes next. A
//! job holds the question that is open and what its answer is for. The program
//! around the library puts the question, and hands the answer to
//! [`Settings::step`].

use crate::config::{named, Config, ConfigView, CurvePoint, Limits};
use crate::input::Response;
use crate::knob::Knob;
use crate::menu::{
    meaning, menu_choice, menu_items, menu_lines, menu_views, name_views, MenuChoice, MenuItem,
    MenuLine, ProfileAction, PROFILE_MENU_BASE,
};
use crate::readout::Readout;
use crate::settings::{wait_nanos, Settings, SettingsView};
use crate::text::joined;
use vstd::prelude::*;

verus! {

/// Where in a settings file a curve is to be taken from.
#[derive(Debug, Clone, Copy, PartialEq, Eq, Structural)]
pub enum CurveSource {
    /// The profile at this position.
    Profile(usize),
    /// Whatever the file runs now.
    Active,
}

/// A question to the world outside, with settings as `C`, text as `S` and menus
/// as `M`.
pub enum AskOf<C, S, M> {
    /// Whether the curve on screen is one that can be run.
    Validate,
    /// The settings file.
    Load,
    /// Write these settings to the file.
    Save(C),
    /// The curve on screen is on disk now.
    MarkSaved,
    /// Show this menu of profiles.
    Menu(M),
    /// A name, typed into a box that starts with `initial`.
    Name { title: S, initial: S },
    /// Yes or no.
    Confirm(S),
    /// Do this to the profile `active`, under the rules that hold for profiles,
    /// and write the file.
    EditProfiles { action: ProfileAction, active: S, name: S },
    /// Bring a curve over from another program's file.
    Import,
    /// Send the engine a command. An empty profile leaves the profile alone.
    Post { mode: u8, level: u8, profile: S },
    /// Put this curve on screen, if it is one that can be run.
    ShowCurve { config: C, source: CurveSource },
    /// Put the curve that the settings in hand run on screen, if it can be run.
    ShowActive,
    /// Draw the window again.
    Repaint,
    /// Tell the user this.
    Say(S),
    /// Nothing: the job is over. Holds why the save it was for has failed, if it
    /// has.
    Done(Option<S>),
}

/// What goes on once a curve has been saved, or has failed to be.
pub enum AfterOf<C, S> {
    Finish { repaint: bool },
    /// Switch to this profile, unless saving failed.
    Switch(S),
    /// Manage the selected profile, unless saving failed.
    Manage(ProfileAction),
    /// Import, unless saving failed.
    Import,
    /// Go on to the selected profile as this file has it.
    Follow(C),
}

/// What the answer to the open question is for, with curves as `P` and lists of
/// names as `N`.
pub enum ThenOf<C, S, P, N> {
    ApplyLoad(AfterOf<C, S>),
    ApplyStore { points: P, after: AfterOf<C, S> },
    ApplySaved(AfterOf<C, S>),
    ApplyMarked(AfterOf<C, S>),
    MenuShow,
    MenuPick { names: N },
    SwitchStore(S),
    SwitchSaved,
    Adopt { config: C, say: Option<S> },
    AdoptShown { say: Option<S> },
    AdoptRepainted { say: Option<S> },
    ManageName(ProfileAction),
    ManageConfirm,
    ManageEdited,
    Imported,
    DiscardFind,
    DiscardShown,
    FollowStore { dirty: bool },
    FollowShown,
    FileSaved,
    ModePosted { mode: u8, level: u8 },
    Stop { failure: Option<S> },
    Nothing,
}

/// An answer.
pub enum ReplyOf<C, S, P> {
    /// The curve on screen, or why it is not one that can be run.
    Validated(Result<P, S>),
    /// The settings file, or why it could not be read.
    Loaded(Result<C, S>),
    /// The settings were written, or why they were not.
    Saved(Result<(), S>),
    /// It has been done.
    Acknowledged,
    /// The identifier chosen from the menu, and whether the curve on screen has
    /// changes that are not saved.
    Chosen { id: i32, dirty: bool },
    /// The name typed, unless the box was dismissed.
    Named(Option<S>),
    /// Whether the answer was yes.
    Answered(bool),
    /// The settings as they are on disk now, or why nothing was done.
    ProfilesEdited(Result<C, S>),
    /// Nothing when it was called off; otherwise the settings on disk now and a
    /// summary of what came over, or why nothing did.
    Imported(Option<Result<(C, S), S>>),
    /// When the command was sent, on the clock that deadlines are on; nothing
    /// when there was no engine to send it to.
    Posted(Option<u128>),
    /// Whether the curve could be run and is on screen now.
    Shown(bool),
}

/// A job: the question that is open and what its answer is for.
pub struct JobOf<C, S, P, M, N> {
    pub ask: AskOf<C, S, M>,
    pub purpose: ThenOf<C, S, P, N>,
}

pub type Ask = AskOf<Config, String, Vec<MenuItem>>;

pub type After = AfterOf<Config, String>;

pub type Then = ThenOf<Config, String, Vec<CurvePoint>, Vec<String>>;

pub type Reply = ReplyOf<Config, String, Vec<CurvePoint>>;

pub type Job = JobOf<Config, String, Vec<CurvePoint>, Vec<MenuItem>, Vec<String>>;

pub type AskView = AskOf<ConfigView, Seq<char>, Seq<MenuLine<Seq<char>>>>;

pub type AfterView = AfterOf<ConfigView, Seq<char>>;

pub type ThenView = ThenOf<ConfigView, Seq<char>, Seq<CurvePoint>, Seq<Seq<char>>>;

pub type ReplyView = ReplyOf<ConfigView, Seq<char>, Seq<CurvePoint>>;

pub type JobView = JobOf<
    ConfigView,
    Seq<char>,
    Seq<CurvePoint>,
    Seq<MenuLine<Seq<char>>>,
    Seq<Seq<char>>,
>;

/// Text that may be missing, as a mathematical value.
pub open spec fn text_view(text: Option<String>) -> Option<Seq<char>> {
    match text {
        Some(text) => Some(text@),
        None => None,
    }
}

impl View for AskOf<Config, String, Vec<MenuItem>> {
    type V = AskView;

    open spec fn view(&self) -> AskView {
        match self {
            AskOf::Validate => AskOf::Validate,
            AskOf::Load => AskOf::Load,
            AskOf::Save(config) => AskOf::Save(config@),
            AskOf::MarkSaved => AskOf::MarkSaved,
            AskOf::Menu(lines) => AskOf::Menu(menu_views(lines@)),
            AskOf::Name { title, initial } => AskOf::Name { title: title@, initial: initial@ },
            AskOf::Confirm(text) => AskOf::Confirm(text@),
            AskOf::EditProfiles { action, active, name } => AskOf::EditProfiles {
                action: *action,
                active: active@,
                name: name@,
            },
            AskOf::Import => AskOf::Import,
            AskOf::Post { mode, level, profile } => AskOf::Post {
                mode: *mode,
                level: *level,
                profile: profile@,
            },
            AskOf::ShowCurve { config, source } => AskOf::ShowCurve {
                config: config@,
                source: *source,
            },
            AskOf::ShowActive => AskOf::ShowActive,
            AskOf::Repaint => AskOf::Repaint,
            AskOf::Say(text) => AskOf::Say(text@),
            AskOf::Done(failure) => AskOf::Done(text_view(*failure)),
        }
    }
}

impl View for AfterOf<Config, String> {
    type V = AfterView;

    open spec fn view(&self) -> AfterView {
        match self {
            AfterOf::Finish { repaint } => AfterOf::Finish { repaint: *repaint },
            AfterOf::Switch(name) => AfterOf::Switch(name@),
            AfterOf::Manage(action) => AfterOf::Manage(*action),
            AfterOf::Import => AfterOf::Import,
            AfterOf::Follow(config) => AfterOf::Follow(config@),
        }
    }
}

impl View for ThenOf<Config, String, Vec<CurvePoint>, Vec<String>> {
    type V = ThenView;

    open spec fn view(&self) -> ThenView {
        match self {
            ThenOf::ApplyLoad(after) => ThenOf::ApplyLoad(after@),
            ThenOf::ApplyStore { points, after } => ThenOf::ApplyStore {
                points: points@,
                after: after@,
            },
            ThenOf::ApplySaved(after) => ThenOf::ApplySaved(after@),
            ThenOf::ApplyMarked(after) => ThenOf::ApplyMarked(after@),
            ThenOf::MenuShow => ThenOf::MenuShow,
            ThenOf::MenuPick { names } => ThenOf::MenuPick { names: name_views(names@) },
            ThenOf::SwitchStore(name) => ThenOf::SwitchStore(name@),
            ThenOf::SwitchSaved => ThenOf::SwitchSaved,
            ThenOf::Adopt { config, say } => ThenOf::Adopt {
                config: config@,
                say: text_view(*say),
            },
            ThenOf::AdoptShown { say } => ThenOf::AdoptShown { say: text_view(*say) },
            ThenOf::AdoptRepainted { say } => ThenOf::AdoptRepainted { say: text_view(*say) },
            ThenOf::ManageName(action) => ThenOf::ManageName(*action),
            ThenOf::ManageConfirm => ThenOf::ManageConfirm,
            ThenOf::ManageEdited => ThenOf::ManageEdited,
            ThenOf::Imported => ThenOf::Imported,
            ThenOf::DiscardFind => ThenOf::DiscardFind,
            ThenOf::DiscardShown => ThenOf::DiscardShown,
            ThenOf::FollowStore { dirty } => ThenOf::FollowStore { dirty: *dirty },
            ThenOf::FollowShown => ThenOf::FollowShown,
            ThenOf::FileSaved => ThenOf::FileSaved,
            ThenOf::ModePosted { mode, level } => ThenOf::ModePosted {
                mode: *mode,
                level: *level,
            },
            ThenOf::Stop { failure } => ThenOf::Stop { failure: text_view(*failure) },
            ThenOf::Nothing => ThenOf::Nothing,
        }
    }
}

impl View for ReplyOf<Config, String, Vec<CurvePoint>> {
    type V = ReplyView;

    open spec fn view(&self) -> ReplyView {
        match self {
            ReplyOf::Validated(Ok(points)) => ReplyOf::Validated(Ok(points@)),
            ReplyOf::Validated(Err(why)) => ReplyOf::Validated(Err(why@)),
            ReplyOf::Loaded(Ok(config)) => ReplyOf::Loaded(Ok(config@)),
            ReplyOf::Loaded(Err(why)) => ReplyOf::Loaded(Err(why@)),
            ReplyOf::Saved(Ok(_)) => ReplyOf::Saved(Ok(())),
            ReplyOf::Saved(Err(why)) => ReplyOf::Saved(Err(why@)),
            ReplyOf::Acknowledged => ReplyOf::Acknowledged,
            ReplyOf::Chosen { id, dirty } => ReplyOf::Chosen { id: *id, dirty: *dirty },
            ReplyOf::Named(name) => ReplyOf::Named(text_view(*name)),
            ReplyOf::Answered(yes) => ReplyOf::Answered(*yes),
            ReplyOf::ProfilesEdited(Ok(config)) => ReplyOf::ProfilesEdited(Ok(config@)),
            ReplyOf::ProfilesEdited(Err(why)) => ReplyOf::ProfilesEdited(Err(why@)),
            ReplyOf::Imported(None) => ReplyOf::Imported(None),
            ReplyOf::Imported(Some(Ok(outcome))) => ReplyOf::Imported(
                Some(Ok((outcome.0@, outcome.1@))),
            ),
            ReplyOf::Imported(Some(Err(why))) => ReplyOf::Imported(Some(Err(why@))),
            ReplyOf::Posted(at) => ReplyOf::Posted(*at),
            ReplyOf::Shown(ok) => ReplyOf::Shown(*ok),
        }
    }
}

impl View for JobOf<Config, String, Vec<CurvePoint>, Vec<MenuItem>, Vec<String>> {
    type V = JobView;

    open spec fn view(&self) -> JobView {
        JobOf { ask: self.ask@, purpose: self.purpose@ }
    }
}

/// A job that is over, and why the save it was for has failed, if it has.
pub open spec fn ended(failure: Option<Seq<char>>) -> JobView {
    JobOf { ask: AskOf::Done(failure), purpose: ThenOf::Nothing }
}

/// A job that is over without a save having failed.
pub open spec fn over() -> JobView {
    ended(None)
}

/// Draw the window again, and be done with this outcome.
pub open spec fn drawing(failure: Option<Seq<char>>) -> JobView {
    JobOf { ask: AskOf::Repaint, purpose: ThenOf::Stop { failure } }
}

/// Draw the window again, and be done.
pub open spec fn repainting() -> JobView {
    drawing(None)
}

/// Tell the user something, and be done.
pub open spec fn saying(text: Seq<char>) -> JobView {
    JobOf { ask: AskOf::Say(text), purpose: ThenOf::Stop { failure: None } }
}

/// Save the curve on screen, and go on with `after`.
pub open spec fn applying(after: AfterView) -> JobView {
    JobOf { ask: AskOf::Validate, purpose: ThenOf::ApplyLoad(after) }
}

/// Send the engine a mode, leaving the profile alone.
pub open spec fn posting(mode: u8, level: u8) -> JobView {
    JobOf {
        ask: AskOf::Post { mode, level, profile: Seq::empty() },
        purpose: ThenOf::ModePosted { mode, level },
    }
}

/// The question before a profile is deleted.
pub open spec fn delete_question(active: Seq<char>) -> Seq<char> {
    "Delete the profile \""@ + active
        + "\"?\n\nIts curve goes with it, and there is no undo."@
}

impl SettingsView {
    /// Announce the profile that these settings run, without saying anything
    /// about who should drive the fan, and take the settings over.
    pub open spec fn adopting(self, config: ConfigView, say: Option<Seq<char>>) -> JobView {
        JobOf {
            ask: AskOf::Post {
                mode: self.protocol.mode_keep,
                level: 0,
                profile: config.active_profile,
            },
            purpose: ThenOf::Adopt { config, say },
        }
    }

    /// Ask what an action on the selected profile needs to know.
    pub open spec fn asking(self, action: ProfileAction) -> JobView {
        let active = self.config.active_profile;
        match action {
            ProfileAction::New => JobOf {
                ask: AskOf::Name { title: "New profile"@, initial: Seq::empty() },
                purpose: ThenOf::ManageName(action),
            },
            ProfileAction::Duplicate => JobOf {
                ask: AskOf::Name { title: "Duplicate profile"@, initial: active + " copy"@ },
                purpose: ThenOf::ManageName(action),
            },
            ProfileAction::Rename => JobOf {
                ask: AskOf::Name { title: "Rename profile"@, initial: active },
                purpose: ThenOf::ManageName(action),
            },
            ProfileAction::Delete => JobOf {
                ask: AskOf::Confirm(delete_question(active)),
                purpose: ThenOf::ManageConfirm,
            },
        }
    }

    /// Manage the selected profile. What is on screen is saved first, or a copy
    /// would be made of the curve as it was; a profile about to be deleted is
    /// not worth saving.
    pub open spec fn managing(self, action: ProfileAction, dirty: bool) -> JobView {
        if action != ProfileAction::Delete && dirty {
            applying(AfterOf::Manage(action))
        } else {
            self.asking(action)
        }
    }

    /// Import a curve, saving what is on screen first.
    pub open spec fn importing(self, dirty: bool) -> JobView {
        if dirty {
            applying(AfterOf::Import)
        } else {
            JobOf { ask: AskOf::Import, purpose: ThenOf::Imported }
        }
    }

    /// Catch up with the profile that is selected, unless it is the one on
    /// screen or there is none.
    pub open spec fn catching_up(self, dirty: bool) -> JobView {
        if self.config.active_profile.len() == 0 || self.config.active_profile == self.editing {
            repainting()
        } else {
            JobOf { ask: AskOf::Load, purpose: ThenOf::FollowStore { dirty } }
        }
    }

    /// Put the selected profile on screen, as the given file has it.
    pub open spec fn following(self, config: ConfigView) -> JobView {
        match named(config.profiles, self.config.active_profile) {
            Some(i) => JobOf {
                ask: AskOf::ShowCurve { config, source: CurveSource::Profile(i as usize) },
                purpose: ThenOf::FollowShown,
            },
            None => repainting(),
        }
    }

    /// Start what a message asked for. What needs the file or the curve in hand,
    /// and what is only drawing, starts no job here.
    pub open spec fn beginning(self, response: Response, dirty: bool) -> JobView {
        match response {
            Response::OpenProfileMenu => JobOf { ask: AskOf::Load, purpose: ThenOf::MenuShow },
            Response::CycleMode => posting(self.mode_click().0, self.mode_click().1),
            Response::CycleLevel => posting(self.level_click().0, self.level_click().1),
            Response::DiscardEdits => if dirty {
                JobOf { ask: AskOf::Load, purpose: ThenOf::DiscardFind }
            } else {
                over()
            },
            Response::Apply => applying(AfterOf::Finish { repaint: true }),
            // Saving on the way out, not discarding.
            Response::Close => if dirty {
                applying(AfterOf::Finish { repaint: false })
            } else {
                over()
            },
            _ => over(),
        }
    }

    /// Go on after a save, or after what made it fail.
    pub open spec fn continuing(self, after: AfterView, failure: Option<Seq<char>>) -> JobView {
        match after {
            AfterOf::Finish { repaint } => if repaint {
                drawing(failure)
            } else {
                ended(failure)
            },
            AfterOf::Switch(name) => if failure is None {
                JobOf { ask: AskOf::Load, purpose: ThenOf::SwitchStore(name) }
            } else {
                ended(failure)
            },
            AfterOf::Manage(action) => if failure is None {
                self.asking(action)
            } else {
                ended(failure)
            },
            AfterOf::Import => if failure is None {
                JobOf { ask: AskOf::Import, purpose: ThenOf::Imported }
            } else {
                ended(failure)
            },
            AfterOf::Follow(config) => self.following(config),
        }
    }

    /// Act on an answer from the profile menu.
    pub open spec fn picking(self, id: i32, dirty: bool, names: Seq<Seq<char>>) -> JobView {
        match meaning(id, names, self.config.active_profile) {
            MenuChoice::Nothing => over(),
            MenuChoice::Import => self.importing(dirty),
            MenuChoice::Manage(action) => self.managing(action, dirty),
            // What is on screen is saved before moving off it.
            MenuChoice::Switch(i) => applying(AfterOf::Switch(names[i as int])),
        }
    }

    /// The state and the job after an answer. An answer that is not one to the
    /// open question ends the job and changes nothing.
    pub open spec fn next(self, job: JobView, reply: ReplyView) -> (SettingsView, JobView) {
        match (job.purpose, reply) {
            (ThenOf::ApplyLoad(after), ReplyOf::Validated(Ok(points))) => (
                self,
                JobOf { ask: AskOf::Load, purpose: ThenOf::ApplyStore { points, after } },
            ),
            (ThenOf::ApplyLoad(after), ReplyOf::Validated(Err(why))) => (
                self,
                self.continuing(after, Some(why)),
            ),
            (ThenOf::ApplyStore { points, after }, ReplyOf::Loaded(Ok(config))) => (
                self,
                JobOf {
                    ask: AskOf::Save(config.with_curve(self.editing, points)),
                    purpose: ThenOf::ApplySaved(after),
                },
            ),
            (ThenOf::ApplyStore { after, .. }, ReplyOf::Loaded(Err(why))) => (
                self,
                self.continuing(after, Some(why)),
            ),
            (ThenOf::ApplySaved(after), ReplyOf::Saved(Ok(_))) => (
                self,
                JobOf { ask: AskOf::MarkSaved, purpose: ThenOf::ApplyMarked(after) },
            ),
            (ThenOf::ApplySaved(after), ReplyOf::Saved(Err(why))) => (
                self,
                self.continuing(after, Some(why)),
            ),
            (ThenOf::ApplyMarked(after), ReplyOf::Acknowledged) => (
                self,
                self.continuing(after, None),
            ),
            (ThenOf::MenuShow, ReplyOf::Loaded(Ok(config))) => {
                let names = Seq::new(config.profiles.len(), |i: int| config.profiles[i].name);
                if names.len() == 0 {
                    (self, over())
                } else {
                    (
                        self,
                        JobOf {
                            ask: AskOf::Menu(menu_lines(names, self.config.active_profile)),
                            purpose: ThenOf::MenuPick { names },
                        },
                    )
                }
            },
            (ThenOf::MenuPick { names }, ReplyOf::Chosen { id, dirty }) => (
                self,
                self.picking(id, dirty, names),
            ),
            (ThenOf::SwitchStore(name), ReplyOf::Loaded(Ok(config))) => (
                self,
                JobOf {
                    ask: AskOf::Save(ConfigView { active_profile: name, ..config }),
                    purpose: ThenOf::SwitchSaved,
                },
            ),
            (ThenOf::SwitchSaved, ReplyOf::Saved(Ok(_))) => match job.ask {
                AskOf::Save(config) => (self, self.adopting(config, None)),
                _ => (self, over()),
            },
            (ThenOf::Adopt { config, say }, ReplyOf::Posted(_)) => (
                SettingsView { editing: config.active_profile, config, ..self },
                JobOf { ask: AskOf::ShowActive, purpose: ThenOf::AdoptShown { say } },
            ),
            (ThenOf::AdoptShown { say }, ReplyOf::Acknowledged) => (
                self,
                JobOf { ask: AskOf::Repaint, purpose: ThenOf::AdoptRepainted { say } },
            ),
            (ThenOf::AdoptRepainted { say: Some(text) }, ReplyOf::Acknowledged) => (
                self,
                saying(text),
            ),
            (ThenOf::ManageName(action), ReplyOf::Named(Some(name))) => (
                self,
                JobOf {
                    ask: AskOf::EditProfiles { action, active: self.config.active_profile, name },
                    purpose: ThenOf::ManageEdited,
                },
            ),
            (ThenOf::ManageConfirm, ReplyOf::Answered(true)) => (
                self,
                JobOf {
                    ask: AskOf::EditProfiles {
                        action: ProfileAction::Delete,
                        active: self.config.active_profile,
                        name: self.config.active_profile,
                    },
                    purpose: ThenOf::ManageEdited,
                },
            ),
            (ThenOf::ManageEdited, ReplyOf::ProfilesEdited(Ok(config))) => (
                self,
                self.adopting(config, None),
            ),
            (ThenOf::ManageEdited, ReplyOf::ProfilesEdited(Err(why))) => (self, saying(why)),
            (ThenOf::Imported, ReplyOf::Imported(Some(Ok(outcome)))) => (
                self,
                self.adopting(outcome.0, Some(outcome.1)),
            ),
            (ThenOf::Imported, ReplyOf::Imported(Some(Err(why)))) => (self, saying(why)),
            (ThenOf::DiscardFind, ReplyOf::Loaded(Ok(config))) => (
                self,
                JobOf {
                    ask: AskOf::ShowCurve {
                        config,
                        source: match named(config.profiles, self.editing) {
                            Some(i) => CurveSource::Profile(i as usize),
                            None => CurveSource::Active,
                        },
                    },
                    purpose: ThenOf::DiscardShown,
                },
            ),
            (ThenOf::DiscardShown, ReplyOf::Shown(true)) => (self, repainting()),
            (ThenOf::FollowStore { dirty }, ReplyOf::Loaded(Ok(config))) => (
                self,
                // What is on screen goes back to the profile it came from, as
                // long as there still is one.
                if dirty && named(config.profiles, self.editing) is Some {
                    applying(AfterOf::Follow(config))
                } else {
                    self.following(config)
                },
            ),
            (ThenOf::FollowStore { .. }, ReplyOf::Loaded(Err(_))) => (self, repainting()),
            (ThenOf::FollowShown, ReplyOf::Shown(ok)) => if ok {
                (SettingsView { editing: self.config.active_profile, ..self }, repainting())
            } else {
                (self, repainting())
            },
            (ThenOf::FileSaved, ReplyOf::Saved(Ok(_))) => match job.ask {
                AskOf::Save(config) => (SettingsView { config, ..self }, repainting()),
                _ => (self, over()),
            },
            (ThenOf::ModePosted { mode, level }, ReplyOf::Posted(Some(now))) => (
                self.awaiting(mode, level, now),
                repainting(),
            ),
            (ThenOf::Stop { failure }, ReplyOf::Acknowledged) => (self, ended(failure)),
            _ => (self, over()),
        }
    }
}

fn job_end(failure: Option<String>) -> (r: Job)
    ensures
        r@ == ended(text_view(failure)),
{
    JobOf { ask: AskOf::Done(failure), purpose: ThenOf::Nothing }
}

fn job_over() -> (r: Job)
    ensures
        r@ == over(),
{
    job_end(None)
}

fn job_draw(failure: Option<String>) -> (r: Job)
    ensures
        r@ == drawing(text_view(failure)),
{
    JobOf { ask: AskOf::Repaint, purpose: ThenOf::Stop { failure } }
}

fn job_repaint() -> (r: Job)
    ensures
        r@ == repainting(),
{
    job_draw(None)
}

fn job_say(text: String) -> (r: Job)
    ensures
        r@ == saying(text@),
{
    JobOf { ask: AskOf::Say(text), purpose: ThenOf::Stop { failure: None } }
}

fn job_apply(after: After) -> (r: Job)
    ensures
        r@ == applying(after@),
{
    JobOf { ask: AskOf::Validate, purpose: ThenOf::ApplyLoad(after) }
}

impl Settings {
    /// Starts what a message asked for. `dirty` says that the curve on screen has
    /// changes that are not saved.
    ///
    /// A setting and a sensor are changed in the file as it is just read, with
    /// [`Settings::change_setting`] and [`Settings::toggle_ignored`].
    pub fn begin(&self, response: Response, dirty: bool) -> (r: Job)
        ensures
            r@ == self@.beginning(response, dirty),
    {
        match response {
            Response::OpenProfileMenu => self.show_profile_menu(),
            Response::CycleMode => self.cycle_mode(),
            Response::CycleLevel => self.cycle_level(),
            Response::DiscardEdits => self.discard_edits(dirty),
            Response::Apply => self.apply(),
            Response::Close => self.save_if_dirty(dirty),
            _ => job_over(),
        }
    }

    /// Clicking the Mode row: ask the engine for the next mode.
    pub fn cycle_mode(&self) -> (r: Job)
        ensures
            r@ == posting(self@.mode_click().0, self@.mode_click().1),
    {
        let (mode, level) = self.next_mode();
        self.post_mode(mode, level)
    }

    /// Clicking the Level row: ask the engine to hold the next level.
    pub fn cycle_level(&self) -> (r: Job)
        ensures
            r@ == posting(self@.level_click().0, self@.level_click().1),
    {
        let (mode, level) = self.next_level();
        self.post_mode(mode, level)
    }

    /// Sends a mode, which is then shown until the engine agrees or stops
    /// answering.
    ///
    /// A command and not a change to the file, because the mode is the engine's
    /// to hold: the file says what to start in, not what is running now.
    pub fn post_mode(&self, mode: u8, level: u8) -> (r: Job)
        ensures
            r@ == posting(mode, level),
    {
        JobOf {
            ask: AskOf::Post { mode, level, profile: String::new() },
            purpose: ThenOf::ModePosted { mode, level },
        }
    }

    /// Pops the profile list.
    pub fn show_profile_menu(&self) -> (r: Job)
        ensures
            r@ == (JobView { ask: AskOf::Load, purpose: ThenOf::MenuShow }),
    {
        JobOf { ask: AskOf::Load, purpose: ThenOf::MenuShow }
    }

    /// New, Duplicate, Rename or Delete, for the profile that is selected.
    pub fn manage_profile(&self, action: ProfileAction, dirty: bool) -> (r: Job)
        ensures
            r@ == self@.managing(action, dirty),
    {
        match action {
            ProfileAction::Delete => self.ask_about(action),
            _ => if dirty {
                job_apply(AfterOf::Manage(action))
            } else {
                self.ask_about(action)
            },
        }
    }

    fn ask_about(&self, action: ProfileAction) -> (r: Job)
        ensures
            r@ == self@.asking(action),
    {
        let active = self.live_profile();
        match action {
            ProfileAction::New => JobOf {
                ask: AskOf::Name { title: "New profile".to_owned(), initial: String::new() },
                purpose: ThenOf::ManageName(action),
            },
            ProfileAction::Duplicate => JobOf {
                ask: AskOf::Name {
                    title: "Duplicate profile".to_owned(),
                    initial: joined(active.as_str(), " copy"),
                },
                purpose: ThenOf::ManageName(action),
            },
            ProfileAction::Rename => JobOf {
                ask: AskOf::Name { title: "Rename profile".to_owned(), initial: active },
                purpose: ThenOf::ManageName(action),
            },
            ProfileAction::Delete => {
                let opening = joined("Delete the profile \"", active.as_str());
                let question = joined(
                    opening.as_str(),
                    "\"?\n\nIts curve goes with it, and there is no undo.",
                );
                JobOf { ask: AskOf::Confirm(question), purpose: ThenOf::ManageConfirm }
            },
        }
    }

    /// Brings a curve over from another program's file.
    pub fn import_profile(&self, dirty: bool) -> (r: Job)
        ensures
            r@ == self@.importing(dirty),
    {
        if dirty {
            job_apply(AfterOf::Import)
        } else {
            JobOf { ask: AskOf::Import, purpose: ThenOf::Imported }
        }
    }

    /// Throws the edits away and goes back to what is stored. Does nothing when
    /// there are none.
    pub fn discard_edits(&self, dirty: bool) -> (r: Job)
        ensures
            r@ == if dirty {
                JobView { ask: AskOf::Load, purpose: ThenOf::DiscardFind }
            } else {
                over()
            },
    {
        if dirty {
            JobOf { ask: AskOf::Load, purpose: ThenOf::DiscardFind }
        } else {
            job_over()
        }
    }

    /// Writes the curve on screen to the profile it came from, and draws the
    /// window again however that goes. The job ends with why it has failed, if
    /// it has: the curve, the file or the writing of it, whichever came first.
    pub fn apply(&self) -> (r: Job)
        ensures
            r@ == applying(AfterOf::Finish { repaint: true }),
    {
        job_apply(AfterOf::Finish { repaint: true })
    }

    /// Writes the curve out if it has changed since it was last saved.
    pub fn save_if_dirty(&self, dirty: bool) -> (r: Job)
        ensures
            r@ == if dirty {
                applying(AfterOf::Finish { repaint: false })
            } else {
                over()
            },
    {
        if dirty {
            job_apply(AfterOf::Finish { repaint: false })
        } else {
            job_over()
        }
    }

    /// Takes in the engine's latest report. Answers the temperature to mark on
    /// the graph, and the job that follows: catching up with the profile that
    /// is selected, and drawing the window again.
    ///
    /// The settings file is read again with every report, because the tray
    /// writes to it too, and so is the pointer, which can leave the window
    /// without the window being told. `dirty` says that the curve on screen has
    /// changes that are not saved.
    pub fn set_readout(
        &mut self,
        readout: Readout,
        now: u128,
        on_disk: Config,
        over_picker: bool,
        dirty: bool,
    ) -> (r: (Option<i8>, Job))
        ensures
            final(self)@ == old(self)@.sampled(readout@, now, on_disk@, over_picker),
            r.0 == match readout@.hottest {
                Some(hottest) => Some(hottest.1),
                None => None,
            },
            r.1@ == final(self)@.catching_up(dirty),
    {
        let live = readout.live_temp();
        self.readout = readout;
        self.settle_pending(now);
        self.config = on_disk;
        self.hover.picker = over_picker;
        (live, self.follow_selected_profile(dirty))
    }

    /// Keeps the curve on screen the one of the profile that is selected, and
    /// draws the window again.
    ///
    /// The tray can switch, rename or delete profiles while the window is open.
    pub fn follow_selected_profile(&self, dirty: bool) -> (r: Job)
        ensures
            r@ == self@.catching_up(dirty),
    {
        if self.config.active_profile.as_str().is_empty() || self.config.active_profile
            == self.editing {
            job_repaint()
        } else {
            JobOf { ask: AskOf::Load, purpose: ThenOf::FollowStore { dirty } }
        }
    }

    /// Cycles one setting in the file as it was just read, and writes it back.
    ///
    /// Nothing here decides anything about the fan: it changes the numbers the
    /// engine decides with, on its own next pass.
    pub fn change_setting<F: Fn(u32, u32) -> u32>(
        &self,
        knob: Knob,
        loaded: Option<Config>,
        limits: &Limits,
        watchdog_floor: &F,
    ) -> (r: Job)
        requires
            limits.well_formed(),
            forall|poll: u32, standby: u32| #[trigger] watchdog_floor.requires((poll, standby)),
        ensures
            match loaded {
                None => r@ == over(),
                Some(config) => exists|floor: u32|
                    {
                        &&& #[trigger] watchdog_floor.ensures(
                            (
                                knob.stepped(config@, *limits).poll_secs,
                                knob.stepped(config@, *limits).standby_poll_secs,
                            ),
                            floor,
                        )
                        &&& r@ == (JobView {
                            ask: AskOf::Save(knob.cycled(config@, *limits, floor)),
                            purpose: ThenOf::FileSaved,
                        })
                    },
            },
    {
        match loaded {
            None => job_over(),
            Some(config) => {
                let mut changed = config;
                knob.cycle(&mut changed, limits, watchdog_floor);
                JobOf { ask: AskOf::Save(changed), purpose: ThenOf::FileSaved }
            },
        }
    }

    /// Adds a sensor to the ignored list of the file as it was just read, or
    /// takes it off again, and writes it back.
    pub fn toggle_ignored(&self, sensor: usize, loaded: Option<Config>) -> (r: Job)
        ensures
            r@ == match loaded {
                None => over(),
                Some(config) => JobView {
                    ask: AskOf::Save(config@.with_sensor_toggled(sensor)),
                    purpose: ThenOf::FileSaved,
                },
            },
    {
        match loaded {
            None => job_over(),
            Some(config) => {
                let mut changed = config;
                changed.toggle_sensor(sensor);
                JobOf { ask: AskOf::Save(changed), purpose: ThenOf::FileSaved }
            },
        }
    }

    fn adopt(&self, config: Config, say: Option<String>) -> (r: Job)
        ensures
            r@ == self@.adopting(config@, text_view(say)),
    {
        let profile = config.active_profile.clone();
        JobOf {
            ask: AskOf::Post { mode: self.protocol.mode_keep, level: 0, profile },
            purpose: ThenOf::Adopt { config, say },
        }
    }

    fn follow(&self, config: Config) -> (r: Job)
        ensures
            r@ == self@.following(config@),
    {
        match config.find_profile(&self.config.active_profile) {
            Some(i) => JobOf {
                ask: AskOf::ShowCurve { config, source: CurveSource::Profile(i) },
                purpose: ThenOf::FollowShown,
            },
            None => job_repaint(),
        }
    }

    fn carry_on(&self, after: After, failure: Option<String>) -> (r: Job)
        ensures
            r@ == self@.continuing(after@, text_view(failure)),
    {
        match after {
            AfterOf::Finish { repaint } => if repaint {
                job_draw(failure)
            } else {
                job_end(failure)
            },
            AfterOf::Switch(name) => if failure.is_none() {
                JobOf { ask: AskOf::Load, purpose: ThenOf::SwitchStore(name) }
            } else {
                job_end(failure)
            },
            AfterOf::Manage(action) => if failure.is_none() {
                self.ask_about(action)
            } else {
                job_end(failure)
            },
            AfterOf::Import => if failure.is_none() {
                JobOf { ask: AskOf::Import, purpose: ThenOf::Imported }
            } else {
                job_end(failure)
            },
            AfterOf::Follow(config) => self.follow(config),
        }
    }

    fn pick(&self, id: i32, dirty: bool, names: &Vec<String>) -> (r: Job)
        ensures
            r@ == self@.picking(id, dirty, name_views(names@)),
    {
        match menu_choice(id, names, &self.config.active_profile) {
            MenuChoice::Nothing => job_over(),
            MenuChoice::Import => self.import_profile(dirty),
            MenuChoice::Manage(action) => self.manage_profile(action, dirty),
            MenuChoice::Switch(i) => job_apply(AfterOf::Switch(names[i].clone())),
        }
    }

    /// Takes the answer to a job's open question, and answers what comes next.
    pub fn step(&mut self, job: Job, reply: Reply) -> (r: Job)
        requires
            job@.purpose is MenuShow ==> (reply@ matches ReplyOf::Loaded(Ok(config))
                ==> config.profiles.len() + PROFILE_MENU_BASE <= usize::MAX),
            job@.purpose is ModePosted ==> (reply@ matches ReplyOf::Posted(Some(now)) ==> now
                + wait_nanos(old(self)@.config.poll_secs) <= u128::MAX),
        ensures
            (final(self)@, r@) == old(self)@.next(job@, reply@),
    {
        let JobOf { ask, purpose } = job;
        match (purpose, reply) {
            (ThenOf::ApplyLoad(after), ReplyOf::Validated(curve)) => match curve {
                Ok(points) => JobOf {
                    ask: AskOf::Load,
                    purpose: ThenOf::ApplyStore { points, after },
                },
                Err(why) => self.carry_on(after, Some(why)),
            },
            (ThenOf::ApplyStore { points, after }, ReplyOf::Loaded(loaded)) => match loaded {
                Ok(config) => {
                    let mut changed = config;
                    changed.store_curve(&self.editing, points);
                    JobOf { ask: AskOf::Save(changed), purpose: ThenOf::ApplySaved(after) }
                },
                Err(why) => self.carry_on(after, Some(why)),
            },
            (ThenOf::ApplySaved(after), ReplyOf::Saved(saved)) => match saved {
                Ok(_) => JobOf { ask: AskOf::MarkSaved, purpose: ThenOf::ApplyMarked(after) },
                Err(why) => self.carry_on(after, Some(why)),
            },
            (ThenOf::ApplyMarked(after), ReplyOf::Acknowledged) => self.carry_on(after, None),
            (ThenOf::MenuShow, ReplyOf::Loaded(Ok(config))) => {
                let names = config.profile_names();
                assert(name_views(names@) == Seq::new(
                    config@.profiles.len(),
                    |i: int| config@.profiles[i].name,
                ));
                if names.is_empty() {
                    job_over()
                } else {
                    let lines = menu_items(&names, &self.config.active_profile);
                    JobOf { ask: AskOf::Menu(lines), purpose: ThenOf::MenuPick { names } }
                }
            },
            (ThenOf::MenuPick { names }, ReplyOf::Chosen { id, dirty }) => self.pick(
                id,
                dirty,
                &names,
            ),
            (ThenOf::SwitchStore(name), ReplyOf::Loaded(Ok(config))) => {
                let mut changed = config;
                changed.active_profile = name;
                JobOf { ask: AskOf::Save(changed), purpose: ThenOf::SwitchSaved }
            },
            (ThenOf::SwitchSaved, ReplyOf::Saved(Ok(_))) => match ask {
                AskOf::Save(config) => self.adopt(config, None),
                _ => job_over(),
            },
            (ThenOf::Adopt { config, say }, ReplyOf::Posted(_)) => {
                self.editing = config.active_profile.clone();
                self.config = config;
                JobOf { ask: AskOf::ShowActive, purpose: ThenOf::AdoptShown { say } }
            },
            (ThenOf::AdoptShown { say }, ReplyOf::Acknowledged) => JobOf {
                ask: AskOf::Repaint,
                purpose: ThenOf::AdoptRepainted { say },
            },
            (ThenOf::AdoptRepainted { say: Some(text) }, ReplyOf::Acknowledged) => job_say(text),
            (ThenOf::ManageName(action), ReplyOf::Named(Some(name))) => JobOf {
                ask: AskOf::EditProfiles { action, active: self.live_profile(), name },
                purpose: ThenOf::ManageEdited,
            },
            (ThenOf::ManageConfirm, ReplyOf::Answered(true)) => JobOf {
                ask: AskOf::EditProfiles {
                    action: ProfileAction::Delete,
                    active: self.live_profile(),
                    name: self.live_profile(),
                },
                purpose: ThenOf::ManageEdited,
            },
            (ThenOf::ManageEdited, ReplyOf::ProfilesEdited(edited)) => match edited {
                Ok(config) => self.adopt(config, None),
                Err(why) => job_say(why),
            },
            (ThenOf::Imported, ReplyOf::Imported(Some(imported))) => match imported {
                Ok((config, summary)) => self.adopt(config, Some(summary)),
                Err(why) => job_say(why),
            },
            (ThenOf::DiscardFind, ReplyOf::Loaded(Ok(config))) => {
                let source = match config.find_profile(&self.editing) {
                    Some(i) => CurveSource::Profile(i),
                    None => CurveSource::Active,
                };
                JobOf { ask: AskOf::ShowCurve { config, source }, purpose: ThenOf::DiscardShown }
            },
            (ThenOf::DiscardShown, ReplyOf::Shown(true)) => job_repaint(),
            (ThenOf::FollowStore { dirty }, ReplyOf::Loaded(loaded)) => match loaded {
                Ok(config) => if dirty && config.find_profile(&self.editing).is_some() {
                    job_apply(AfterOf::Follow(config))
                } else {
                    self.follow(config)
                },
                Err(_) => job_repaint(),
            },
            (ThenOf::FollowShown, ReplyOf::Shown(ok)) => {
                if ok {
                    self.editing = self.live_profile();
                }
                job_repaint()
            },
            (ThenOf::FileSaved, ReplyOf::Saved(Ok(_))) => match ask {
                AskOf::Save(config) => {
                    self.config = config;
                    job_repaint()
                },
                _ => job_over(),
            },
            (ThenOf::ModePosted { mode, level }, ReplyOf::Posted(Some(now))) => {
                self.await_mode(mode, level, now);
                job_repaint()
            },
            (ThenOf::Stop { failure }, ReplyOf::Acknowledged) => job_end(failure),
            _ => job_over(),
        }
    }
}

} // verus!
