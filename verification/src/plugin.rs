//! Applying the plugin bundle: two companion files and, once both are in
//! place, the marker that records their version.

use vstd::prelude::*;
use vstd::string::StringExecFns;
use crate::download::{
    download_history,
    download_release,
    download_start,
    lemma_download_step,
    DownloadPhase,
    DownloadPhaseView,
    DownloadRequestView,
    DownloadStep,
    DownloadStepView,
};
use crate::error::UpdateError;
use crate::host::{Action, ActionView, Location, LocationView, Reply, ReplyView};
use crate::release::{ReleaseDescriptor, ReleaseView};

verus! {

/// The owner of the project that publishes the plugin bundle.
pub const PLUGIN_OWNER: &'static str = "SpikeHD";

/// The project that publishes the plugin bundle.
pub const PLUGIN_REPO: &'static str = "Vencordorion";

/// The style sheet of the bundle.
pub const STYLE_ASSET: &'static str = "browser.css";

/// The script of the bundle.
pub const SCRIPT_ASSET: &'static str = "browser.js";

/// The file that records the version of the bundle in place.
pub const VERSION_MARKER: &'static str = "vencord.version";

/// Where the update of the plugin bundle in `dir` stands. Each phase waits
/// for the host's answer to one action.
#[derive(Clone, Debug, PartialEq, Eq)]
pub enum PluginPhase {
    /// The latest release has been asked for.
    FetchingRelease { dir: String },
    /// The style sheet of `release` is being downloaded.
    DownloadingStyle { dir: String, release: ReleaseDescriptor, download: DownloadPhase },
    /// The style sheet is in place; the script of the release `tag` is being
    /// downloaded.
    DownloadingScript { dir: String, tag: String, download: DownloadPhase },
    /// Both files are in place; the marker is being written.
    WritingMarker { dir: String, tag: String },
}

/// What a [`PluginPhase`] stands for.
pub enum PluginPhaseView {
    FetchingRelease { dir: Seq<char> },
    DownloadingStyle { dir: Seq<char>, release: ReleaseView, download: DownloadPhaseView },
    DownloadingScript { dir: Seq<char>, tag: Seq<char>, download: DownloadPhaseView },
    WritingMarker { dir: Seq<char>, tag: Seq<char> },
}

impl View for PluginPhase {
    type V = PluginPhaseView;

    open spec fn view(&self) -> PluginPhaseView {
        match self {
            PluginPhase::FetchingRelease { dir } => PluginPhaseView::FetchingRelease { dir: dir@ },
            PluginPhase::DownloadingStyle { dir, release, download } => {
                PluginPhaseView::DownloadingStyle {
                    dir: dir@,
                    release: release@,
                    download: download@,
                }
            },
            PluginPhase::DownloadingScript { dir, tag, download } => {
                PluginPhaseView::DownloadingScript { dir: dir@, tag: tag@, download: download@ }
            },
            PluginPhase::WritingMarker { dir, tag } => PluginPhaseView::WritingMarker {
                dir: dir@,
                tag: tag@,
            },
        }
    }
}

/// Where the update stands after an answer of the host.
#[derive(Clone, Debug, PartialEq, Eq)]
pub enum PluginStep {
    /// The update goes on in this phase.
    Next(PluginPhase),
    /// The bundle of this version is in place and the marker records it.
    Applied(String),
    /// The update was given up. Unless it was the marker's own write that
    /// failed, the marker is as it was.
    Failed(UpdateError),
}

/// What a [`PluginStep`] stands for.
pub enum PluginStepView {
    Next(PluginPhaseView),
    Applied(Seq<char>),
    Failed(UpdateError),
}

impl View for PluginStep {
    type V = PluginStepView;

    open spec fn view(&self) -> PluginStepView {
        match self {
            PluginStep::Next(phase) => PluginStepView::Next(phase@),
            PluginStep::Applied(version) => PluginStepView::Applied(version@),
            PluginStep::Failed(error) => PluginStepView::Failed(*error),
        }
    }
}

/// How the download of the companion file `asset` of `release` into `dir`
/// begins.
pub open spec fn companion_start(release: ReleaseView, asset: Seq<char>, dir: Seq<char>) -> Result<
    DownloadPhaseView,
    UpdateError,
> {
    download_start(release, PLUGIN_OWNER@, PLUGIN_REPO@, asset, LocationView::Path(dir))
}

/// The request for the companion file `asset` of the release `tag`.
pub open spec fn companion_request(
    tag: Seq<char>,
    asset: Seq<char>,
    dir: Seq<char>,
) -> DownloadRequestView {
    DownloadRequestView {
        owner: PLUGIN_OWNER@,
        repo: PLUGIN_REPO@,
        tag,
        asset,
        dir: LocationView::Path(dir),
    }
}

impl PluginPhaseView {
    /// The action whose answer this phase waits for.
    pub open spec fn action(self) -> ActionView {
        match self {
            PluginPhaseView::FetchingRelease { .. } => ActionView::FetchRelease {
                owner: PLUGIN_OWNER@,
                repo: PLUGIN_REPO@,
            },
            PluginPhaseView::DownloadingStyle { download, .. } => download.action(),
            PluginPhaseView::DownloadingScript { download, .. } => download.action(),
            PluginPhaseView::WritingMarker { dir, tag } => ActionView::WriteFile {
                dir: LocationView::Path(dir),
                name: VERSION_MARKER@,
                content: tag,
            },
        }
    }

    /// The step that follows when the host answers with `reply`, or `None`
    /// where `reply` is no answer to the action of this phase.
    ///
    /// The style sheet is downloaded first, then the script, each resolved
    /// in the release by its exact name when its turn comes. The marker is
    /// written last, with the tag of the release, and only the success of
    /// that write makes the update `Applied`. A failure of any step ends the
    /// update with the error of that step.
    pub open spec fn advance(self, reply: ReplyView) -> Option<PluginStepView> {
        if !self.action().answered_by(reply) {
            None
        } else {
            Some(
                match self {
                    PluginPhaseView::FetchingRelease { dir } => match reply {
                        ReplyView::Release(release) => match companion_start(
                            release,
                            STYLE_ASSET@,
                            dir,
                        ) {
                            Ok(download) => PluginStepView::Next(
                                PluginPhaseView::DownloadingStyle { dir, release, download },
                            ),
                            Err(error) => PluginStepView::Failed(error),
                        },
                        _ => PluginStepView::Failed(reply->Failed_0),
                    },
                    PluginPhaseView::DownloadingStyle { dir, release, download } => {
                        match download.advance(reply)->Some_0 {
                            DownloadStepView::Next(download) => PluginStepView::Next(
                                PluginPhaseView::DownloadingStyle { dir, release, download },
                            ),
                            DownloadStepView::Stored => match companion_start(
                                release,
                                SCRIPT_ASSET@,
                                dir,
                            ) {
                                Ok(download) => PluginStepView::Next(
                                    PluginPhaseView::DownloadingScript {
                                        dir,
                                        tag: release.tag,
                                        download,
                                    },
                                ),
                                Err(error) => PluginStepView::Failed(error),
                            },
                            DownloadStepView::Failed(error) => PluginStepView::Failed(error),
                        }
                    },
                    PluginPhaseView::DownloadingScript { dir, tag, download } => {
                        match download.advance(reply)->Some_0 {
                            DownloadStepView::Next(download) => PluginStepView::Next(
                                PluginPhaseView::DownloadingScript { dir, tag, download },
                            ),
                            DownloadStepView::Stored => PluginStepView::Next(
                                PluginPhaseView::WritingMarker { dir, tag },
                            ),
                            DownloadStepView::Failed(error) => PluginStepView::Failed(error),
                        }
                    },
                    PluginPhaseView::WritingMarker { dir, tag } => match reply {
                        ReplyView::Failed(error) => PluginStepView::Failed(error),
                        _ => PluginStepView::Applied(tag),
                    },
                },
            )
        }
    }

    /// An upper bound on the number of answers that the host can still give
    /// to this update.
    pub open spec fn steps_left(self) -> nat {
        match self {
            PluginPhaseView::FetchingRelease { .. } => 6,
            PluginPhaseView::DownloadingStyle { download, .. } => download.steps_left(3),
            PluginPhaseView::DownloadingScript { download, .. } => download.steps_left(1),
            PluginPhaseView::WritingMarker { .. } => 1,
        }
    }
}

/// The phase in which the update of the bundle in `dir` begins.
pub open spec fn plugin_start(dir: Seq<char>) -> PluginPhaseView {
    PluginPhaseView::FetchingRelease { dir }
}

/// Begins the update of the plugin bundle in the directory `path`: the first
/// thing asked of the host is the latest release.
pub fn update_vencordorion(path: String) -> (phase: PluginPhase)
    ensures
        phase@ == plugin_start(path@),
{
    PluginPhase::FetchingRelease { dir: path }
}

/// Begins the download of the companion file `asset` of `release` into
/// `dir`.
fn download_companion(release: &ReleaseDescriptor, asset: &'static str, dir: &String) -> (begun:
    Result<DownloadPhase, UpdateError>)
    ensures
        match begun {
            Ok(phase) => companion_start(release@, asset@, dir@) == Ok::<
                DownloadPhaseView,
                UpdateError,
            >(phase@),
            Err(error) => companion_start(release@, asset@, dir@) == Err::<
                DownloadPhaseView,
                UpdateError,
            >(error),
        },
{
    download_release(
        release,
        PLUGIN_OWNER,
        PLUGIN_REPO,
        String::from_str(asset),
        Location::Path(dir.clone()),
    )
}

impl PluginPhase {
    /// The action whose answer this phase waits for.
    pub fn action(&self) -> (action: Action)
        ensures
            action@ == self@.action(),
    {
        match self {
            PluginPhase::FetchingRelease { .. } => Action::FetchRelease {
                owner: PLUGIN_OWNER,
                repo: PLUGIN_REPO,
            },
            PluginPhase::DownloadingStyle { download, .. } => download.action(),
            PluginPhase::DownloadingScript { download, .. } => download.action(),
            PluginPhase::WritingMarker { dir, tag } => Action::WriteFile {
                dir: Location::Path(dir.clone()),
                name: String::from_str(VERSION_MARKER),
                content: tag.clone(),
            },
        }
    }

    /// Takes the host's answer to the action of this phase and decides how
    /// the update goes on. Returns `None` exactly when `reply` is no answer
    /// to that action.
    pub fn advance(self, reply: Reply) -> (step: Option<PluginStep>)
        ensures
            match step {
                Some(s) => self@.advance(reply@) == Some(s@),
                None => self@.advance(reply@) is None,
            },
    {
        match self {
            PluginPhase::FetchingRelease { dir } => match reply {
                Reply::Release(release) => match download_companion(&release, STYLE_ASSET, &dir) {
                    Ok(download) => Some(
                        PluginStep::Next(PluginPhase::DownloadingStyle { dir, release, download }),
                    ),
                    Err(error) => Some(PluginStep::Failed(error)),
                },
                Reply::Failed(error) => Some(PluginStep::Failed(error)),
                _ => None,
            },
            PluginPhase::DownloadingStyle { dir, release, download } => {
                match download.advance(reply) {
                    Some(DownloadStep::Next(download)) => Some(
                        PluginStep::Next(PluginPhase::DownloadingStyle { dir, release, download }),
                    ),
                    Some(DownloadStep::Stored) => {
                        match download_companion(&release, SCRIPT_ASSET, &dir) {
                            Ok(download) => Some(
                                PluginStep::Next(
                                    PluginPhase::DownloadingScript {
                                        dir,
                                        tag: release.tag,
                                        download,
                                    },
                                ),
                            ),
                            Err(error) => Some(PluginStep::Failed(error)),
                        }
                    },
                    Some(DownloadStep::Failed(error)) => Some(PluginStep::Failed(error)),
                    None => None,
                }
            },
            PluginPhase::DownloadingScript { dir, tag, download } => {
                match download.advance(reply) {
                    Some(DownloadStep::Next(download)) => Some(
                        PluginStep::Next(PluginPhase::DownloadingScript { dir, tag, download }),
                    ),
                    Some(DownloadStep::Stored) => Some(
                        PluginStep::Next(PluginPhase::WritingMarker { dir, tag }),
                    ),
                    Some(DownloadStep::Failed(error)) => Some(PluginStep::Failed(error)),
                    None => None,
                }
            },
            PluginPhase::WritingMarker { dir, tag } => match reply {
                Reply::Done => Some(PluginStep::Applied(tag)),
                Reply::Failed(error) => Some(PluginStep::Failed(error)),
                _ => None,
            },
        }
    }
}

/// Where the update stands once the host has answered with `replies`, in
/// order, to the actions that began in `phase`. `None` where one of them was
/// no answer to the action then pending, or came after the update had ended.
pub open spec fn plugin_run(phase: PluginPhaseView, replies: Seq<ReplyView>) -> Option<
    PluginStepView,
>
    decreases replies.len(),
{
    if replies.len() == 0 {
        Some(PluginStepView::Next(phase))
    } else {
        match plugin_run(phase, replies.drop_last()) {
            Some(PluginStepView::Next(reached)) => reached.advance(replies.last()),
            _ => None,
        }
    }
}

/// Whether `replies` begins with a release that holds the style sheet.
pub open spec fn release_fetched(replies: Seq<ReplyView>) -> bool {
    &&& replies.len() >= 1
    &&& replies[0] matches ReplyView::Release(release)
    &&& release.position_of(STYLE_ASSET@) is Some
}

/// Whether `replies` begins with a release that holds both companion files
/// and goes on with the fetch of the style sheet and its move into place,
/// both of which went well.
pub open spec fn style_stored(replies: Seq<ReplyView>) -> bool {
    &&& release_fetched(replies)
    &&& replies[0]->Release_0.position_of(SCRIPT_ASSET@) is Some
    &&& replies.len() >= 3
    &&& replies[1] is Done
    &&& replies[2] is Done
}

/// What the host must have answered for an update that began in `dir` to
/// stand in `phase`: each phase is reached in one way only.
pub open spec fn plugin_history(
    dir: Seq<char>,
    replies: Seq<ReplyView>,
    phase: PluginPhaseView,
) -> bool {
    match phase {
        PluginPhaseView::FetchingRelease { dir: d } => d == dir && replies.len() == 0,
        PluginPhaseView::DownloadingStyle { dir: d, release, download } => {
            &&& d == dir
            &&& release_fetched(replies)
            &&& replies[0] == ReplyView::Release(release)
            &&& download_history(
                companion_request(release.tag, STYLE_ASSET@, dir),
                replies,
                1,
                download,
            )
        },
        PluginPhaseView::DownloadingScript { dir: d, tag, download } => {
            &&& d == dir
            &&& style_stored(replies)
            &&& replies[0]->Release_0.tag == tag
            &&& download_history(companion_request(tag, SCRIPT_ASSET@, dir), replies, 3, download)
        },
        PluginPhaseView::WritingMarker { dir: d, tag } => {
            &&& d == dir
            &&& style_stored(replies)
            &&& replies[0]->Release_0.tag == tag
            &&& replies.len() == 5
            &&& replies[3] is Done
            &&& replies[4] is Done
        },
    }
}

/// An update stands in a phase only after the history of that phase.
pub proof fn lemma_plugin_history(dir: Seq<char>, replies: Seq<ReplyView>, phase: PluginPhaseView)
    requires
        plugin_run(plugin_start(dir), replies) == Some(PluginStepView::Next(phase)),
    ensures
        plugin_history(dir, replies, phase),
    decreases replies.len(),
{
    if replies.len() > 0 {
        let before = replies.drop_last();
        let reached = plugin_run(plugin_start(dir), before)->Some_0->Next_0;
        lemma_plugin_history(dir, before, reached);
        assert(forall|k: int| 0 <= k < before.len() ==> before[k] == replies[k]);
        match reached {
            PluginPhaseView::DownloadingStyle { release, download, .. } => {
                lemma_download_step(
                    companion_request(release.tag, STYLE_ASSET@, dir),
                    replies,
                    1,
                    download,
                );
            },
            PluginPhaseView::DownloadingScript { tag, download, .. } => {
                lemma_download_step(
                    companion_request(tag, SCRIPT_ASSET@, dir),
                    replies,
                    3,
                    download,
                );
            },
            _ => {},
        }
    }
}

/// The marker is written only after both companion files are in place, and
/// with nothing but the tag of the release that was fetched: whenever an
/// update that began in `dir` asks the host to write a file, the host has
/// given exactly five answers before, the release and, for each of the two
/// files, the success of its fetch and of its move into place, and the file
/// to write is the marker in `dir` with that release's tag as its content.
pub proof fn lemma_marker_follows_both_downloads(
    dir: Seq<char>,
    replies: Seq<ReplyView>,
    phase: PluginPhaseView,
)
    requires
        plugin_run(plugin_start(dir), replies) == Some(PluginStepView::Next(phase)),
        phase.action() is WriteFile,
    ensures
        replies.len() == 5,
        replies[0] is Release,
        replies[0]->Release_0.position_of(STYLE_ASSET@) is Some,
        replies[0]->Release_0.position_of(SCRIPT_ASSET@) is Some,
        forall|k: int| 1 <= k < 5 ==> replies[k] is Done,
        phase.action() == (ActionView::WriteFile {
            dir: LocationView::Path(dir),
            name: VERSION_MARKER@,
            content: replies[0]->Release_0.tag,
        }),
{
    lemma_plugin_history(dir, replies, phase);
}

/// Only what the release holds is downloaded: whenever an update that began
/// in `dir` asks the host for a download, the host's first answer was a
/// release, and the download is of that release, into `dir`, of one of the
/// two companion files, which the release holds by exactly that name.
pub proof fn lemma_downloads_are_resolved(
    dir: Seq<char>,
    replies: Seq<ReplyView>,
    phase: PluginPhaseView,
)
    requires
        plugin_run(plugin_start(dir), replies) == Some(PluginStepView::Next(phase)),
        phase.action() is Download,
    ensures
        replies.len() == 1 || replies.len() == 3,
        replies[0] is Release,
        phase.action()->Download_owner == PLUGIN_OWNER@,
        phase.action()->Download_repo == PLUGIN_REPO@,
        phase.action()->Download_tag == replies[0]->Release_0.tag,
        phase.action()->Download_asset == if replies.len() == 1 {
            STYLE_ASSET@
        } else {
            SCRIPT_ASSET@
        },
        replies[0]->Release_0.position_of(phase.action()->Download_asset) is Some,
        phase.action()->Download_dir == LocationView::Path(dir),
{
    lemma_plugin_history(dir, replies, phase);
}

/// An update ends as `Applied` only on full success, and the version it
/// reports is the tag of the release that was fetched: the host has given
/// exactly six answers, the release, the success of the fetch and of the
/// move of each companion file, and the success of the marker's write.
pub proof fn lemma_applied_is_fetched_tag(
    dir: Seq<char>,
    replies: Seq<ReplyView>,
    version: Seq<char>,
)
    requires
        plugin_run(plugin_start(dir), replies) == Some(PluginStepView::Applied(version)),
    ensures
        replies.len() == 6,
        replies[0] is Release,
        replies[0]->Release_0.tag == version,
        forall|k: int| 1 <= k < 6 ==> replies[k] is Done,
{
    let before = replies.drop_last();
    let reached = plugin_run(plugin_start(dir), before)->Some_0->Next_0;
    lemma_plugin_history(dir, before, reached);
    assert(forall|k: int| 0 <= k < before.len() ==> before[k] == replies[k]);
}

/// An update that fails has not touched the marker: of an update that ends
/// as `Failed`, no phase asked the host to write a file, unless it is that
/// write itself that failed.
pub proof fn lemma_failed_update_leaves_marker(
    dir: Seq<char>,
    replies: Seq<ReplyView>,
    error: UpdateError,
    k: int,
)
    requires
        plugin_run(plugin_start(dir), replies) == Some(PluginStepView::Failed(error)),
        0 <= k < replies.len(),
        plugin_run(plugin_start(dir), replies.take(k)) matches Some(PluginStepView::Next(phase))
            && phase.action() is WriteFile,
    ensures
        k == replies.len() - 1,
        replies[k] == ReplyView::Failed(error),
{
    let phase = plugin_run(plugin_start(dir), replies.take(k))->Some_0->Next_0;
    lemma_plugin_history(dir, replies.take(k), phase);
    lemma_plugin_run_prefix(plugin_start(dir), replies, k + 1);
    assert(replies.take(k + 1).drop_last() == replies.take(k));
    if k + 1 < replies.len() {
        lemma_plugin_run_prefix(plugin_start(dir), replies, k + 2);
        assert(replies.take(k + 2).drop_last() == replies.take(k + 1));
    } else {
        assert(replies.take(k + 1) == replies);
    }
}

/// Of a run that the host's answers did take, every proper beginning was
/// taken too, and left the update going on.
pub proof fn lemma_plugin_run_prefix(phase: PluginPhaseView, replies: Seq<ReplyView>, k: int)
    requires
        plugin_run(phase, replies) is Some,
        0 <= k <= replies.len(),
    ensures
        plugin_run(phase, replies.take(k)) is Some,
        k < replies.len() ==> plugin_run(phase, replies.take(k))->Some_0 is Next,
    decreases replies.len(),
{
    if k == replies.len() {
        assert(replies.take(k) == replies);
    } else {
        let before = replies.drop_last();
        lemma_plugin_run_prefix(phase, before, k);
        assert(before.take(k) == replies.take(k));
        if k == before.len() {
            assert(before.take(k) == before);
        }
    }
}

} // verus!
