//! The updater as a whole: what was asked for on the command line, the probe
//! of the plugin directory, elevation, and the two updates in their order.

use vstd::prelude::*;
use crate::application::{
    main_run,
    main_start,
    update_main,
    MainPhase,
    MainPhaseView,
    MainStep,
    MainStepView,
};
use crate::elevation::elevate;
use crate::error::UpdateError;
use crate::host::{Action, ActionView, Location, LocationView, Reply, ReplyView};
use crate::platform::Platform;
use crate::probe::{can_write, fresh_name, lemma_fresh_name_is_free, needs_to_elevate, probe_name};
use crate::plugin::{
    plugin_run,
    plugin_start,
    update_vencordorion,
    PluginPhase,
    PluginPhaseView,
    PluginStep,
    PluginStepView,
};

verus! {

/// What the invocation asks for. The two flags are independent: either,
/// both or neither may be given.
#[derive(Clone, Debug, PartialEq, Eq)]
pub struct Args {
    /// Update the main application. The flag counts when it is given,
    /// whatever its value.
    pub main: Option<bool>,
    /// Update the plugin bundle in the directory at this path.
    pub vencord: Option<String>,
}

/// What an [`Args`] stands for.
pub struct ArgsView {
    pub main: Option<bool>,
    pub vencord: Option<Seq<char>>,
}

impl View for Args {
    type V = ArgsView;

    open spec fn view(&self) -> ArgsView {
        ArgsView {
            main: self.main,
            vencord: match self.vencord {
                Some(path) => Some(path@),
                None => None,
            },
        }
    }
}

/// Where the updater stands.
#[derive(Clone, Debug, PartialEq, Eq)]
pub enum Phase {
    /// The entries of `dir` have been asked for, to name the probe file.
    ListingDirectory { dir: String },
    /// The probe file `name` is being created in `dir`.
    CreatingProbe { dir: String, name: String },
    /// The probe file `name` was created and is being removed from `dir`.
    RemovingProbe { dir: String, name: String },
    /// `dir` cannot be written to; higher privileges have been asked for.
    Elevating { dir: String },
    /// The plugin bundle is being updated.
    Plugin(PluginPhase),
    /// The main application is being updated.
    Main(MainPhase),
    /// Nothing is left to do but to end the process, with this error if the
    /// invocation failed.
    Finished { failure: Option<UpdateError> },
}

/// What a [`Phase`] stands for.
pub enum PhaseView {
    ListingDirectory { dir: Seq<char> },
    CreatingProbe { dir: Seq<char>, name: Seq<char> },
    RemovingProbe { dir: Seq<char>, name: Seq<char> },
    Elevating { dir: Seq<char> },
    Plugin(PluginPhaseView),
    Main(MainPhaseView),
    Finished { failure: Option<UpdateError> },
}

impl View for Phase {
    type V = PhaseView;

    open spec fn view(&self) -> PhaseView {
        match self {
            Phase::ListingDirectory { dir } => PhaseView::ListingDirectory { dir: dir@ },
            Phase::CreatingProbe { dir, name } => PhaseView::CreatingProbe {
                dir: dir@,
                name: name@,
            },
            Phase::RemovingProbe { dir, name } => PhaseView::RemovingProbe {
                dir: dir@,
                name: name@,
            },
            Phase::Elevating { dir } => PhaseView::Elevating { dir: dir@ },
            Phase::Plugin(phase) => PhaseView::Plugin(phase@),
            Phase::Main(phase) => PhaseView::Main(phase@),
            Phase::Finished { failure } => PhaseView::Finished { failure: *failure },
        }
    }
}

/// The state of one invocation of the updater.
#[derive(Clone, Debug, PartialEq, Eq)]
pub struct Updater {
    /// Whether the main application is to be updated.
    pub wants_main: bool,
    /// The platform on which the updater runs.
    pub platform: Platform,
    /// Whether this process already runs with higher privileges.
    pub elevated: bool,
    /// Where the updater stands.
    pub phase: Phase,
}

/// What an [`Updater`] stands for.
pub struct UpdaterView {
    pub wants_main: bool,
    pub platform: Platform,
    pub elevated: bool,
    pub phase: PhaseView,
}

impl View for Updater {
    type V = UpdaterView;

    open spec fn view(&self) -> UpdaterView {
        UpdaterView {
            wants_main: self.wants_main,
            platform: self.platform,
            elevated: self.elevated,
            phase: self.phase@,
        }
    }
}

/// The phase that follows the plugin bundle's update, or takes its place
/// where none was asked for: the update of the main application if that was
/// asked for, the end otherwise.
pub open spec fn phase_after_plugin(wants_main: bool, platform: Platform) -> PhaseView {
    if wants_main {
        match main_start(platform) {
            MainStepView::Next(phase) => PhaseView::Main(phase),
            MainStepView::Applied => PhaseView::Finished { failure: None },
            MainStepView::Failed(error) => PhaseView::Finished { failure: Some(error) },
        }
    } else {
        PhaseView::Finished { failure: None }
    }
}

/// The phase that follows the probe of `dir`. Where `dir` can be written to,
/// the plugin bundle's update begins. Where it cannot, higher privileges are
/// asked for, unless the process already has them: then nobody can write to
/// `dir`, and the invocation fails with `PermissionDenied`.
pub open spec fn phase_after_probe(
    dir: Seq<char>,
    created: bool,
    removed: bool,
    elevated: bool,
) -> PhaseView {
    if can_write(created, removed) {
        PhaseView::Plugin(plugin_start(dir))
    } else if elevated {
        PhaseView::Finished { failure: Some(UpdateError::PermissionDenied) }
    } else {
        PhaseView::Elevating { dir }
    }
}

/// The state in which an invocation begins. The plugin bundle comes first:
/// where its update was asked for, the invocation begins with the probe of
/// its directory.
pub open spec fn updater_start(args: ArgsView, platform: Platform, elevated: bool) -> UpdaterView {
    UpdaterView {
        wants_main: args.main is Some,
        platform,
        elevated,
        phase: match args.vencord {
            Some(dir) => PhaseView::ListingDirectory { dir },
            None => phase_after_plugin(args.main is Some, platform),
        },
    }
}

impl UpdaterView {
    /// The action that the host is to carry out in this state.
    pub open spec fn action(self) -> ActionView {
        match self.phase {
            PhaseView::ListingDirectory { dir } => ActionView::ListDirectory {
                dir: LocationView::Path(dir),
            },
            PhaseView::CreatingProbe { dir, name } => ActionView::CreateFile {
                dir: LocationView::Path(dir),
                name,
            },
            PhaseView::RemovingProbe { dir, name } => ActionView::RemoveFile {
                dir: LocationView::Path(dir),
                name,
            },
            PhaseView::Elevating { .. } => ActionView::Elevate {
                model: self.platform.elevation_model(),
            },
            PhaseView::Plugin(phase) => phase.action(),
            PhaseView::Main(phase) => phase.action(),
            PhaseView::Finished { failure: None } => ActionView::Exit { code: 0, message: None },
            PhaseView::Finished { failure: Some(error) } => ActionView::Exit {
                code: error.spec_exit_code(),
                message: Some(error.spec_message()),
            },
        }
    }

    /// This state in another phase.
    pub open spec fn in_phase(self, phase: PhaseView) -> UpdaterView {
        UpdaterView { phase, ..self }
    }

    /// The state that follows when the host answers with `reply`, or `None`
    /// where `reply` is no answer to the action of this state.
    ///
    /// The probe file is named after the entries that the directory holds,
    /// so that it is none of them; a directory whose entries cannot be
    /// listed counts as one that cannot be written to. A process that has
    /// obtained higher privileges probes the directory again, from the
    /// listing on, as an elevated one. A process that delegated the work to an
    /// elevated one ends with success, whatever that one's status. A refusal
    /// ends the invocation with `ElevationRefused`. A failure of the plugin
    /// bundle's update ends the invocation with its error, and the main
    /// application is then not touched.
    pub open spec fn advance(self, reply: ReplyView) -> Option<UpdaterView> {
        if !self.action().answered_by(reply) {
            None
        } else {
            Some(
                match self.phase {
                    PhaseView::ListingDirectory { dir } => match reply {
                        ReplyView::Entries(entries) => self.in_phase(
                            PhaseView::CreatingProbe { dir, name: fresh_name(entries) },
                        ),
                        _ => self.in_phase(phase_after_probe(dir, false, false, self.elevated)),
                    },
                    PhaseView::CreatingProbe { dir, name } => if reply is Done {
                        self.in_phase(PhaseView::RemovingProbe { dir, name })
                    } else {
                        self.in_phase(phase_after_probe(dir, false, false, self.elevated))
                    },
                    PhaseView::RemovingProbe { dir, .. } => self.in_phase(
                        phase_after_probe(dir, true, reply is Done, self.elevated),
                    ),
                    PhaseView::Elevating { dir } => match reply {
                        ReplyView::Done => UpdaterView {
                            elevated: true,
                            phase: PhaseView::ListingDirectory { dir },
                            ..self
                        },
                        ReplyView::Delegated(_) => self.in_phase(
                            PhaseView::Finished { failure: None },
                        ),
                        _ => self.in_phase(
                            PhaseView::Finished { failure: Some(UpdateError::ElevationRefused) },
                        ),
                    },
                    PhaseView::Plugin(phase) => match phase.advance(reply)->Some_0 {
                        PluginStepView::Next(next) => self.in_phase(PhaseView::Plugin(next)),
                        PluginStepView::Applied(_) => self.in_phase(
                            phase_after_plugin(self.wants_main, self.platform),
                        ),
                        PluginStepView::Failed(error) => self.in_phase(
                            PhaseView::Finished { failure: Some(error) },
                        ),
                    },
                    PhaseView::Main(phase) => match phase.advance(reply)->Some_0 {
                        MainStepView::Next(next) => self.in_phase(PhaseView::Main(next)),
                        MainStepView::Applied => self.in_phase(
                            PhaseView::Finished { failure: None },
                        ),
                        MainStepView::Failed(error) => self.in_phase(
                            PhaseView::Finished { failure: Some(error) },
                        ),
                    },
                    PhaseView::Finished { .. } => self,
                },
            )
        }
    }
}

fn after_plugin(wants_main: bool, platform: Platform) -> (phase: Phase)
    ensures
        phase@ == phase_after_plugin(wants_main, platform),
{
    if wants_main {
        match update_main(platform) {
            MainStep::Next(phase) => Phase::Main(phase),
            MainStep::Applied => Phase::Finished { failure: None },
            MainStep::Failed(error) => Phase::Finished { failure: Some(error) },
        }
    } else {
        Phase::Finished { failure: None }
    }
}

fn after_probe(dir: String, created: bool, removed: bool, elevated: bool) -> (phase: Phase)
    ensures
        phase@ == phase_after_probe(dir@, created, removed, elevated),
{
    if !needs_to_elevate(created, removed) {
        Phase::Plugin(update_vencordorion(dir))
    } else if elevated {
        Phase::Finished { failure: Some(UpdateError::PermissionDenied) }
    } else {
        Phase::Elevating { dir }
    }
}

impl Updater {
    /// Begins an invocation. `elevated` says whether the process already
    /// runs with higher privileges.
    pub fn start(args: Args, platform: Platform, elevated: bool) -> (updater: Updater)
        ensures
            updater@ == updater_start(args@, platform, elevated),
    {
        let wants_main = args.main.is_some();
        let phase = match args.vencord {
            Some(dir) => Phase::ListingDirectory { dir },
            None => after_plugin(wants_main, platform),
        };
        Updater { wants_main, platform, elevated, phase }
    }

    /// The action that the host is to carry out in this state.
    pub fn action(&self) -> (action: Action)
        ensures
            action@ == self@.action(),
    {
        match &self.phase {
            Phase::ListingDirectory { dir } => Action::ListDirectory {
                dir: Location::Path(dir.clone()),
            },
            Phase::CreatingProbe { dir, name } => Action::CreateFile {
                dir: Location::Path(dir.clone()),
                name: name.clone(),
            },
            Phase::RemovingProbe { dir, name } => Action::RemoveFile {
                dir: Location::Path(dir.clone()),
                name: name.clone(),
            },
            Phase::Elevating { .. } => Action::Elevate { model: elevate(self.platform) },
            Phase::Plugin(phase) => phase.action(),
            Phase::Main(phase) => phase.action(),
            Phase::Finished { failure: None } => Action::Exit { code: 0, message: None },
            Phase::Finished { failure: Some(error) } => Action::Exit {
                code: error.exit_code(),
                message: Some(error.message()),
            },
        }
    }

    /// Takes the host's answer to the action of this state and decides what
    /// comes next. Returns `None` exactly when `reply` is no answer to that
    /// action; after `Exit` nothing is.
    pub fn advance(self, reply: Reply) -> (next: Option<Updater>)
        ensures
            match next {
                Some(n) => self@.advance(reply@) == Some(n@),
                None => self@.advance(reply@) is None,
            },
    {
        let Updater { wants_main, platform, elevated, phase } = self;
        let (elevated, phase) = match phase {
            Phase::ListingDirectory { dir } => match reply {
                Reply::Entries(entries) => {
                    let name = probe_name(&entries);
                    (elevated, Phase::CreatingProbe { dir, name })
                },
                Reply::Failed(_) => (elevated, after_probe(dir, false, false, elevated)),
                _ => { return None; },
            },
            Phase::CreatingProbe { dir, name } => match reply {
                Reply::Done => (elevated, Phase::RemovingProbe { dir, name }),
                Reply::Failed(_) => (elevated, after_probe(dir, false, false, elevated)),
                _ => { return None; },
            },
            Phase::RemovingProbe { dir, .. } => match reply {
                Reply::Done => (elevated, after_probe(dir, true, true, elevated)),
                Reply::Failed(_) => (elevated, after_probe(dir, true, false, elevated)),
                _ => { return None; },
            },
            Phase::Elevating { dir } => match reply {
                Reply::Done => (true, Phase::ListingDirectory { dir }),
                Reply::Delegated(_) => (elevated, Phase::Finished { failure: None }),
                Reply::Failed(_) => (
                    elevated,
                    Phase::Finished { failure: Some(UpdateError::ElevationRefused) },
                ),
                _ => { return None; },
            },
            Phase::Plugin(plugin) => match plugin.advance(reply) {
                Some(PluginStep::Next(next)) => (elevated, Phase::Plugin(next)),
                Some(PluginStep::Applied(_)) => (elevated, after_plugin(wants_main, platform)),
                Some(PluginStep::Failed(error)) => (
                    elevated,
                    Phase::Finished { failure: Some(error) },
                ),
                None => { return None; },
            },
            Phase::Main(main) => match main.advance(reply) {
                Some(MainStep::Next(next)) => (elevated, Phase::Main(next)),
                Some(MainStep::Applied) => (elevated, Phase::Finished { failure: None }),
                Some(MainStep::Failed(error)) => (
                    elevated,
                    Phase::Finished { failure: Some(error) },
                ),
                None => { return None; },
            },
            Phase::Finished { .. } => { return None; },
        };
        Some(Updater { wants_main, platform, elevated, phase })
    }
}

/// The state reached from `start` once the host has answered with `replies`,
/// in order. `None` where one of them was no answer to the action then
/// pending.
pub open spec fn updater_run(start: UpdaterView, replies: Seq<ReplyView>) -> Option<UpdaterView>
    decreases replies.len(),
{
    if replies.len() == 0 {
        Some(start)
    } else {
        match updater_run(start, replies.drop_last()) {
            Some(state) => state.advance(replies.last()),
            None => None,
        }
    }
}

/// Whether, in the run of `replies` from `start`, the answer at `k` is the
/// success of the marker's write, with which the plugin bundle is applied.
pub open spec fn plugin_applied_at(start: UpdaterView, replies: Seq<ReplyView>, k: int) -> bool {
    &&& 0 <= k < replies.len()
    &&& replies[k] is Done
    &&& updater_run(start, replies.take(k)) matches Some(state)
    &&& state.phase matches PhaseView::Plugin(PluginPhaseView::WritingMarker { .. })
}

/// An upper bound on the number of answers that the host can still give
/// from `state`.
pub open spec fn steps_left(state: UpdaterView) -> nat {
    match state.phase {
        PhaseView::ListingDirectory { .. } => if state.elevated {
            14
        } else {
            18
        },
        PhaseView::CreatingProbe { .. } => if state.elevated {
            13
        } else {
            17
        },
        PhaseView::RemovingProbe { .. } => if state.elevated {
            12
        } else {
            16
        },
        PhaseView::Elevating { .. } => 15,
        PhaseView::Plugin(phase) => phase.steps_left() + 5,
        PhaseView::Main(phase) => phase.steps_left(),
        PhaseView::Finished { .. } => 0,
    }
}

/// The run up to and with the answer at `k` is the run up to `k`, advanced
/// by that answer.
proof fn lemma_run_step(start: UpdaterView, replies: Seq<ReplyView>, k: int)
    requires
        0 <= k < replies.len(),
    ensures
        updater_run(start, replies.take(k + 1)) == match updater_run(start, replies.take(k)) {
            Some(state) => state.advance(replies[k]),
            None => None,
        },
        replies.take(replies.len() as int) == replies,
{
    assert(replies.take(k + 1).drop_last() == replies.take(k));
    assert(replies.take(replies.len() as int) == replies);
}

/// The main application is updated only on request: in an invocation
/// without the flag for it, whatever else was asked for and whatever the
/// host answers, the updater never enters a phase of that update, and so
/// never asks the host to open an image or to end a process.
pub proof fn lemma_main_only_on_request(
    args: ArgsView,
    platform: Platform,
    elevated: bool,
    replies: Seq<ReplyView>,
)
    requires
        args.main is None,
        updater_run(updater_start(args, platform, elevated), replies) is Some,
    ensures
        ({
            let state = updater_run(updater_start(args, platform, elevated), replies)->Some_0;
            &&& !state.wants_main
            &&& !(state.phase is Main)
            &&& !(state.action() is Open)
            &&& !(state.action() is Kill)
        }),
    decreases replies.len(),
{
    if replies.len() > 0 {
        lemma_main_only_on_request(args, platform, elevated, replies.drop_last());
    }
}

/// The plugin bundle comes first: in an invocation that asks for its
/// update, the updater is in a phase of the main application's update only
/// after the bundle has been applied, marker and all.
pub proof fn lemma_plugin_before_main(
    args: ArgsView,
    platform: Platform,
    elevated: bool,
    replies: Seq<ReplyView>,
)
    requires
        args.vencord is Some,
        updater_run(updater_start(args, platform, elevated), replies) matches Some(state)
            && state.phase is Main,
    ensures
        exists|k: int| plugin_applied_at(updater_start(args, platform, elevated), replies, k),
    decreases replies.len(),
{
    let start = updater_start(args, platform, elevated);
    let before = replies.drop_last();
    let last = replies.len() - 1;
    assert(replies.len() > 0);
    assert(replies.take(last) == before);
    if updater_run(start, before)->Some_0.phase is Main {
        lemma_plugin_before_main(args, platform, elevated, before);
        let k = choose|k: int| plugin_applied_at(start, before, k);
        assert(before.take(k) == replies.take(k));
        assert(plugin_applied_at(start, replies, k));
    } else {
        assert(plugin_applied_at(start, replies, last));
    }
}

/// The probe touches no entry of the directory, and it alone decides
/// whether higher privileges are needed. The probe file gets a name that
/// none of the listed entries has; it is removed from the directory in
/// which it was created, under the name under which it was created; and
/// the plugin bundle's update begins right after the probe exactly when the
/// file was created and removed again. Where the entries cannot be listed
/// nothing is created, and a file that cannot be created is not asked to be
/// removed.
pub proof fn lemma_probe_decides(
    state: UpdaterView,
    listed: ReplyView,
    created: ReplyView,
    removed: ReplyView,
)
    requires
        state.phase is ListingDirectory,
        listed is Entries || listed is Failed,
        created is Done || created is Failed,
        removed is Done || removed is Failed,
    ensures
        state.advance(listed) is Some,
        ({
            let dir = state.phase->ListingDirectory_dir;
            let creating = state.advance(listed)->Some_0;
            let name = fresh_name(listed->Entries_0);
            let removing = creating.advance(created)->Some_0;
            if listed is Failed {
                &&& creating.phase == phase_after_probe(dir, false, false, state.elevated)
                &&& !(creating.phase is Plugin)
                &&& !(creating.action() is CreateFile)
            } else {
                &&& !listed->Entries_0.contains(name)
                &&& creating.action() == (ActionView::CreateFile {
                    dir: LocationView::Path(dir),
                    name,
                })
                &&& creating.advance(created) is Some
                &&& if created is Failed {
                    &&& removing.phase == phase_after_probe(dir, false, false, state.elevated)
                    &&& !(removing.phase is Plugin)
                    &&& !(removing.action() is RemoveFile)
                } else {
                    &&& removing.action() == (ActionView::RemoveFile {
                        dir: LocationView::Path(dir),
                        name,
                    })
                    &&& removing.advance(removed) is Some
                    &&& removing.advance(removed)->Some_0.phase == phase_after_probe(
                        dir,
                        true,
                        removed is Done,
                        state.elevated,
                    )
                    &&& removing.advance(removed)->Some_0.phase is Plugin <==> removed is Done
                }
            }
        }),
{
    if listed is Entries {
        lemma_fresh_name_is_free(listed->Entries_0);
    }
}

/// Whether, in the run of `replies` from `start`, the answers at `k`,
/// `k + 1` and `k + 2` are those of a probe that went well: the entries of
/// the directory were listed, a file with the name of none of them was
/// created, and the same file was removed again.
pub open spec fn probe_passed_at(start: UpdaterView, replies: Seq<ReplyView>, k: int) -> bool {
    &&& 0 <= k
    &&& k + 2 < replies.len()
    &&& replies[k] matches ReplyView::Entries(entries)
    &&& replies[k + 1] is Done
    &&& replies[k + 2] is Done
    &&& updater_run(start, replies.take(k + 1)) matches Some(creating)
    &&& creating.action() matches ActionView::CreateFile { dir, name }
    &&& !entries.contains(name)
    &&& updater_run(start, replies.take(k + 2)) matches Some(removing)
    &&& removing.action() == (ActionView::RemoveFile { dir, name })
}

/// The directory that the updater works on in `phase`, if it works on one.
pub open spec fn directory_of(phase: PhaseView) -> Option<Seq<char>> {
    match phase {
        PhaseView::ListingDirectory { dir } => Some(dir),
        PhaseView::CreatingProbe { dir, .. } => Some(dir),
        PhaseView::RemovingProbe { dir, .. } => Some(dir),
        PhaseView::Elevating { dir } => Some(dir),
        PhaseView::Plugin(PluginPhaseView::FetchingRelease { dir }) => Some(dir),
        PhaseView::Plugin(PluginPhaseView::DownloadingStyle { dir, .. }) => Some(dir),
        PhaseView::Plugin(PluginPhaseView::DownloadingScript { dir, .. }) => Some(dir),
        PhaseView::Plugin(PluginPhaseView::WritingMarker { dir, .. }) => Some(dir),
        PhaseView::Main(_) => None,
        PhaseView::Finished { .. } => None,
    }
}

/// The plugin bundle is touched only in a directory that was found
/// writable: the updater is in a phase of the bundle's update only after a
/// probe in which a file new to the directory was created and removed
/// again.
pub proof fn lemma_plugin_follows_probe(
    args: ArgsView,
    platform: Platform,
    elevated: bool,
    replies: Seq<ReplyView>,
)
    requires
        updater_run(updater_start(args, platform, elevated), replies) matches Some(state)
            && state.phase is Plugin,
    ensures
        exists|k: int| probe_passed_at(updater_start(args, platform, elevated), replies, k),
    decreases replies.len(),
{
    let start = updater_start(args, platform, elevated);
    let before = replies.drop_last();
    let last = replies.len() - 1;
    assert(replies.len() > 0);
    assert(replies.take(last) == before);
    if updater_run(start, before)->Some_0.phase is Plugin {
        lemma_plugin_follows_probe(args, platform, elevated, before);
        let k = choose|k: int| probe_passed_at(start, before, k);
        assert(before.take(k + 1) == replies.take(k + 1));
        assert(before.take(k + 2) == replies.take(k + 2));
        assert(probe_passed_at(start, replies, k));
    } else {
        // The bundle's update began with the last answer, so the three
        // answers up to it were those of a probe.
        let removing = updater_run(start, before)->Some_0;
        lemma_probe_steps(removing, replies[last]);
        assert(last >= 1);
        lemma_run_step(start, replies, last - 1);
        let creating = updater_run(start, replies.take(last - 1))->Some_0;
        lemma_probe_steps(creating, replies[last - 1]);
        assert(last >= 2) by {
            assert(replies.take(last - 1).len() == last - 1);
        }
        lemma_run_step(start, replies, last - 2);
        let listing = updater_run(start, replies.take(last - 2))->Some_0;
        lemma_probe_steps(listing, replies[last - 2]);
        lemma_fresh_name_is_free(replies[last - 2]->Entries_0);
        assert(probe_passed_at(start, replies, last - 2));
    }
}

/// The steps of the probe follow each other in one way only: the bundle's
/// update begins after the probe file's removal, the removal follows the
/// creation of the same file, and the creation follows the listing of the
/// directory, from which the file has its name.
proof fn lemma_probe_steps(state: UpdaterView, reply: ReplyView)
    requires
        state.advance(reply) is Some,
    ensures
        ({
            let next = state.advance(reply)->Some_0;
            match next.phase {
                PhaseView::Plugin(_) => {
                    ||| state.phase is Plugin
                    ||| state.phase is RemovingProbe && reply is Done
                },
                PhaseView::RemovingProbe { dir, name } => {
                    &&& state.phase == (PhaseView::CreatingProbe { dir, name })
                    &&& reply is Done
                },
                PhaseView::CreatingProbe { dir, name } => {
                    &&& state.phase == (PhaseView::ListingDirectory { dir })
                    &&& reply is Entries
                    &&& name == fresh_name(reply->Entries_0)
                },
                _ => true,
            }
        }),
{
}

/// The updater works on no directory but the one that was asked for:
/// every probe, every download of the bundle and the marker's write are in
/// the directory given with the plugin flag.
pub proof fn lemma_directory_is_kept(
    args: ArgsView,
    platform: Platform,
    elevated: bool,
    replies: Seq<ReplyView>,
)
    requires
        updater_run(updater_start(args, platform, elevated), replies) matches Some(state)
            && directory_of(state.phase) is Some,
    ensures
        directory_of(updater_run(updater_start(args, platform, elevated), replies)->Some_0.phase)
            == args.vencord,
    decreases replies.len(),
{
    if replies.len() > 0 {
        let before = updater_run(updater_start(args, platform, elevated), replies.drop_last());
        if directory_of(before->Some_0.phase) is Some {
            lemma_directory_is_kept(args, platform, elevated, replies.drop_last());
        }
    }
}

/// Inside an invocation the plugin bundle is updated as it is alone: from
/// the state after `k` answers, in which the bundle's update stands in
/// `begun`, to the state after `j` answers, in which it stands in `reached`,
/// the answers between took the bundle's update from the one phase to the
/// other. What holds of every update of the bundle therefore holds of the
/// one that an invocation makes.
pub proof fn lemma_bundle_update_is_embedded(
    start: UpdaterView,
    replies: Seq<ReplyView>,
    k: int,
    j: int,
    begun: PluginPhaseView,
    reached: PluginPhaseView,
)
    requires
        0 <= k <= j <= replies.len(),
        updater_run(start, replies.take(k)) matches Some(state) && state.phase
            == PhaseView::Plugin(begun),
        updater_run(start, replies.take(j)) matches Some(state) && state.phase
            == PhaseView::Plugin(reached),
    ensures
        plugin_run(begun, replies.subrange(k, j)) == Some(PluginStepView::Next(reached)),
    decreases j - k,
{
    if k < j {
        lemma_run_step(start, replies, j - 1);
        lemma_past_the_probe(start, replies, k, j - 1);
        let before = updater_run(start, replies.take(j - 1))->Some_0.phase->Plugin_0;
        lemma_bundle_update_is_embedded(start, replies, k, j - 1, begun, before);
        assert(replies.subrange(k, j).drop_last() == replies.subrange(k, j - 1));
    }
}

/// Inside an invocation the main application is updated as it is alone:
/// from the state after `k` answers, in which its update stands in `begun`,
/// to the state after `j` answers, in which it stands in `reached`, the
/// answers between took that update from the one phase to the other.
pub proof fn lemma_main_update_is_embedded(
    start: UpdaterView,
    replies: Seq<ReplyView>,
    k: int,
    j: int,
    begun: MainPhaseView,
    reached: MainPhaseView,
)
    requires
        0 <= k <= j <= replies.len(),
        updater_run(start, replies.take(k)) matches Some(state) && state.phase == PhaseView::Main(
            begun,
        ),
        updater_run(start, replies.take(j)) matches Some(state) && state.phase == PhaseView::Main(
            reached,
        ),
    ensures
        main_run(begun, replies.subrange(k, j)) == Some(MainStepView::Next(reached)),
    decreases j - k,
{
    if k < j {
        lemma_run_step(start, replies, j - 1);
        lemma_past_the_probe(start, replies, k, j - 1);
        let before = updater_run(start, replies.take(j - 1))->Some_0.phase->Main_0;
        lemma_main_update_is_embedded(start, replies, k, j - 1, begun, before);
        assert(replies.subrange(k, j).drop_last() == replies.subrange(k, j - 1));
    }
}

/// There is no way back: once the plugin bundle's update has begun, the
/// updater never probes or asks for elevation again, and once the main
/// application's update has begun, it never returns to the bundle.
proof fn lemma_past_the_probe(start: UpdaterView, replies: Seq<ReplyView>, k: int, j: int)
    requires
        0 <= k <= j < replies.len(),
        updater_run(start, replies.take(k)) matches Some(state) && (state.phase is Plugin
            || state.phase is Main),
        updater_run(start, replies.take(j + 1)) is Some,
    ensures
        updater_run(start, replies.take(j)) is Some,
        ({
            let early = updater_run(start, replies.take(k))->Some_0.phase;
            let late = updater_run(start, replies.take(j))->Some_0.phase;
            if early is Main {
                late is Main
            } else {
                late is Plugin || late is Main
            }
        }),
    decreases j - k,
{
    lemma_run_step(start, replies, j);
    if k < j {
        lemma_run_step(start, replies, j - 1);
        lemma_past_the_probe(start, replies, k, j - 1);
    }
}

/// An elevated process never asks for elevation: from a state of such a
/// process that is not waiting for elevation, no run reaches one that is.
pub proof fn lemma_elevated_never_elevates(state: UpdaterView, replies: Seq<ReplyView>)
    requires
        state.elevated,
        !(state.phase is Elevating),
        updater_run(state, replies) is Some,
    ensures
        updater_run(state, replies)->Some_0.elevated,
        !(updater_run(state, replies)->Some_0.phase is Elevating),
    decreases replies.len(),
{
    if replies.len() > 0 {
        lemma_elevated_never_elevates(state, replies.drop_last());
    }
}

/// Elevation is attempted at most once in an invocation: if the updater is
/// waiting for elevation after `i` answers, it is not after any greater
/// number of them.
pub proof fn lemma_elevates_at_most_once(
    start: UpdaterView,
    replies: Seq<ReplyView>,
    i: int,
    j: int,
)
    requires
        0 <= i < j <= replies.len(),
        updater_run(start, replies.take(i)) matches Some(state) && state.phase is Elevating,
        updater_run(start, replies.take(j)) is Some,
    ensures
        !(updater_run(start, replies.take(j))->Some_0.phase is Elevating),
    decreases j,
{
    lemma_run_step(start, replies, j - 1);
    if i < j - 1 {
        lemma_elevates_at_most_once(start, replies, i, j - 1);
        lemma_after_elevation(start, replies, i, j - 1);
    }
}

/// Once the answer to a request for elevation is in, the updater has either
/// finished or runs elevated.
proof fn lemma_after_elevation(start: UpdaterView, replies: Seq<ReplyView>, i: int, j: int)
    requires
        0 <= i < j <= replies.len(),
        updater_run(start, replies.take(i)) matches Some(state) && state.phase is Elevating,
        updater_run(start, replies.take(j)) is Some,
    ensures
        ({
            let state = updater_run(start, replies.take(j))->Some_0;
            !(state.phase is Elevating) && (state.elevated || state.phase is Finished)
        }),
    decreases j,
{
    lemma_run_step(start, replies, j - 1);
    if i < j - 1 {
        lemma_after_elevation(start, replies, i, j - 1);
    }
}

/// The exit status tells success from failure: it is zero exactly when the
/// invocation ended without an error, and every error ends the process with
/// its own status and with a message for the user.
pub proof fn lemma_exit_reports_outcome(state: UpdaterView)
    requires
        state.action() is Exit,
    ensures
        state.phase is Finished,
        state.action()->Exit_code == 0 <==> state.phase == (PhaseView::Finished { failure: None }),
        forall|error: UpdateError|
            state.phase == (PhaseView::Finished { failure: Some(error) }) ==> state.action() == (
            ActionView::Exit {
                code: error.spec_exit_code(),
                message: Some(error.spec_message()),
            }),
{
}

/// The error with which the answer `reply` makes the step pending in
/// `state` fail for good, if it does: a refusal of elevation, or the failure
/// of the plugin bundle's update or of the main application's.
pub open spec fn failure_of(state: UpdaterView, reply: ReplyView) -> Option<UpdateError> {
    match state.phase {
        PhaseView::Elevating { .. } => if reply is Failed {
            Some(UpdateError::ElevationRefused)
        } else {
            None
        },
        PhaseView::Plugin(phase) => match phase.advance(reply) {
            Some(PluginStepView::Failed(error)) => Some(error),
            _ => None,
        },
        PhaseView::Main(phase) => match phase.advance(reply) {
            Some(MainStepView::Failed(error)) => Some(error),
            _ => None,
        },
        _ => None,
    }
}

/// Failures are fatal: a refusal of elevation, a failed update of the
/// plugin bundle and a failed update of the main application each end the
/// invocation with their error, and nothing is asked of the host after that
/// but to exit. After a failed update of the bundle the main application is
/// therefore not touched.
pub proof fn lemma_failure_is_fatal(state: UpdaterView, reply: ReplyView)
    requires
        failure_of(state, reply) is Some,
    ensures
        state.advance(reply) is Some,
        state.advance(reply)->Some_0.phase == (PhaseView::Finished {
            failure: failure_of(state, reply),
        }),
        state.advance(reply)->Some_0.action() is Exit,
        forall|later: ReplyView| state.advance(reply)->Some_0.advance(later) is None,
{
}

/// Every answer brings the end nearer: an answer that is taken leaves fewer
/// steps than there were.
pub proof fn lemma_advance_makes_progress(state: UpdaterView, reply: ReplyView)
    requires
        state.advance(reply) is Some,
    ensures
        steps_left(state.advance(reply)->Some_0) < steps_left(state),
{
}

/// The updater does not loop: no invocation takes more than eighteen
/// answers from the host, and one that has taken `n` of them takes at most
/// `steps_left` more.
pub proof fn lemma_run_is_bounded(start: UpdaterView, replies: Seq<ReplyView>)
    requires
        updater_run(start, replies) is Some,
    ensures
        replies.len() + steps_left(updater_run(start, replies)->Some_0) <= steps_left(start),
        steps_left(start) <= 18,
    decreases replies.len(),
{
    if replies.len() > 0 {
        let before = replies.drop_last();
        lemma_run_is_bounded(start, before);
        lemma_advance_makes_progress(updater_run(start, before)->Some_0, replies.last());
    }
}

} // verus!
