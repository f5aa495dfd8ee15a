//! Updating the main application, in the way of the running platform.

use vstd::prelude::*;
use crate::download::{
    download_history,
    download_release,
    download_start,
    lemma_download_step,
    DownloadPhase,
    DownloadPhaseView,
    DownloadRequestView,
    DownloadStep,
    DownloadStepView,
};
use crate::error::UpdateError;
use crate::host::{Action, ActionView, Location, LocationView, Reply, ReplyView};
use crate::platform::Platform;

verus! {

/// The owner of the project that publishes the application.
pub const MAIN_OWNER: &'static str = "SpikeHD";

/// The project that publishes the application.
pub const MAIN_REPO: &'static str = "Dorion";

/// The ending by which the disk image is known among the assets.
pub const IMAGE_SUFFIX: &'static str = ".dmg";

/// The name of the running application's process.
pub const PROCESS_NAME: &'static str = "Dorion";

/// Where the update of the application from a disk image stands. Each phase
/// waits for the host's answer to one action.
#[derive(Clone, Debug, PartialEq, Eq)]
pub enum MainPhase {
    /// The latest release has been asked for.
    FetchingRelease,
    /// The image `asset` is being downloaded.
    DownloadingImage { asset: String, download: DownloadPhase },
    /// The image has arrived and is being opened.
    OpeningImage { asset: String },
    /// The image is open; the running application is being ended.
    EndingOld,
}

/// What a [`MainPhase`] stands for.
pub enum MainPhaseView {
    FetchingRelease,
    DownloadingImage { asset: Seq<char>, download: DownloadPhaseView },
    OpeningImage { asset: Seq<char> },
    EndingOld,
}

impl View for MainPhase {
    type V = MainPhaseView;

    open spec fn view(&self) -> MainPhaseView {
        match self {
            MainPhase::FetchingRelease => MainPhaseView::FetchingRelease,
            MainPhase::DownloadingImage { asset, download } => MainPhaseView::DownloadingImage {
                asset: asset@,
                download: download@,
            },
            MainPhase::OpeningImage { asset } => MainPhaseView::OpeningImage { asset: asset@ },
            MainPhase::EndingOld => MainPhaseView::EndingOld,
        }
    }
}

/// Where the update stands after an answer of the host.
#[derive(Clone, Debug, PartialEq, Eq)]
pub enum MainStep {
    /// The update goes on in this phase.
    Next(MainPhase),
    /// Nothing is left to do.
    Applied,
    /// The update was given up.
    Failed(UpdateError),
}

/// What a [`MainStep`] stands for.
pub enum MainStepView {
    Next(MainPhaseView),
    Applied,
    Failed(UpdateError),
}

impl View for MainStep {
    type V = MainStepView;

    open spec fn view(&self) -> MainStepView {
        match self {
            MainStep::Next(phase) => MainStepView::Next(phase@),
            MainStep::Applied => MainStepView::Applied,
            MainStep::Failed(error) => MainStepView::Failed(*error),
        }
    }
}

/// How the update of the application begins on `platform`: with the fetch of
/// the latest release where a disk image is installed, and with nothing left
/// to do elsewhere.
pub open spec fn main_start(platform: Platform) -> MainStepView {
    match platform {
        Platform::PromptInstall => MainStepView::Applied,
        Platform::DiskImage => MainStepView::Next(MainPhaseView::FetchingRelease),
        Platform::NoManagedPath => MainStepView::Applied,
    }
}

/// The request for the image `asset` of the release `tag`.
pub open spec fn image_request(tag: Seq<char>, asset: Seq<char>) -> DownloadRequestView {
    DownloadRequestView {
        owner: MAIN_OWNER@,
        repo: MAIN_REPO@,
        tag,
        asset,
        dir: LocationView::Temp,
    }
}

impl MainPhaseView {
    /// The action whose answer this phase waits for.
    pub open spec fn action(self) -> ActionView {
        match self {
            MainPhaseView::FetchingRelease => ActionView::FetchRelease {
                owner: MAIN_OWNER@,
                repo: MAIN_REPO@,
            },
            MainPhaseView::DownloadingImage { download, .. } => download.action(),
            MainPhaseView::OpeningImage { asset } => ActionView::Open {
                dir: LocationView::Temp,
                name: asset,
            },
            MainPhaseView::EndingOld => ActionView::Kill { process: PROCESS_NAME@ },
        }
    }

    /// The step that follows when the host answers with `reply`, or `None`
    /// where `reply` is no answer to the action of this phase.
    ///
    /// The image is the first asset of the release whose name ends with
    /// `IMAGE_SUFFIX`; a release without one fails with `AssetNotFound`. It
    /// is downloaded to the directory for temporary files and opened from
    /// there. A failure of the fetch, the download or the opening ends the
    /// update with the error of that step. Whether the running application
    /// could be ended does not matter: the update is applied either way.
    pub open spec fn advance(self, reply: ReplyView) -> Option<MainStepView> {
        if !self.action().answered_by(reply) {
            None
        } else {
            Some(
                match self {
                    MainPhaseView::FetchingRelease => match reply {
                        ReplyView::Release(release) => match release.select_with_suffix(
                            IMAGE_SUFFIX@,
                        ) {
                            Ok(asset) => match download_start(
                                release,
                                MAIN_OWNER@,
                                MAIN_REPO@,
                                asset,
                                LocationView::Temp,
                            ) {
                                Ok(download) => MainStepView::Next(
                                    MainPhaseView::DownloadingImage { asset, download },
                                ),
                                Err(error) => MainStepView::Failed(error),
                            },
                            Err(error) => MainStepView::Failed(error),
                        },
                        _ => MainStepView::Failed(reply->Failed_0),
                    },
                    MainPhaseView::DownloadingImage { asset, download } => {
                        match download.advance(reply)->Some_0 {
                            DownloadStepView::Next(download) => MainStepView::Next(
                                MainPhaseView::DownloadingImage { asset, download },
                            ),
                            DownloadStepView::Stored => MainStepView::Next(
                                MainPhaseView::OpeningImage { asset },
                            ),
                            DownloadStepView::Failed(error) => MainStepView::Failed(error),
                        }
                    },
                    MainPhaseView::OpeningImage { .. } => match reply {
                        ReplyView::Failed(error) => MainStepView::Failed(error),
                        _ => MainStepView::Next(MainPhaseView::EndingOld),
                    },
                    MainPhaseView::EndingOld => MainStepView::Applied,
                },
            )
        }
    }

    /// An upper bound on the number of answers that the host can still give
    /// to this update.
    pub open spec fn steps_left(self) -> nat {
        match self {
            MainPhaseView::FetchingRelease => 5,
            MainPhaseView::DownloadingImage { download, .. } => download.steps_left(2),
            MainPhaseView::OpeningImage { .. } => 2,
            MainPhaseView::EndingOld => 1,
        }
    }
}

/// Begins the update of the main application on `platform`. Where an
/// installer with its own prompt does the work, and where no managed install
/// path is known, nothing is left to do; where a disk image is installed,
/// the first thing asked of the host is the latest release.
pub fn update_main(platform: Platform) -> (step: MainStep)
    ensures
        step@ == main_start(platform),
{
    match platform {
        Platform::PromptInstall => MainStep::Applied,
        Platform::DiskImage => MainStep::Next(MainPhase::FetchingRelease),
        Platform::NoManagedPath => MainStep::Applied,
    }
}

impl MainPhase {
    /// The action whose answer this phase waits for.
    pub fn action(&self) -> (action: Action)
        ensures
            action@ == self@.action(),
    {
        match self {
            MainPhase::FetchingRelease => Action::FetchRelease {
                owner: MAIN_OWNER,
                repo: MAIN_REPO,
            },
            MainPhase::DownloadingImage { download, .. } => download.action(),
            MainPhase::OpeningImage { asset } => Action::Open {
                dir: Location::Temp,
                name: asset.clone(),
            },
            MainPhase::EndingOld => Action::Kill { process: PROCESS_NAME },
        }
    }

    /// Takes the host's answer to the action of this phase and decides how
    /// the update goes on. Returns `None` exactly when `reply` is no answer
    /// to that action.
    pub fn advance(self, reply: Reply) -> (step: Option<MainStep>)
        ensures
            match step {
                Some(s) => self@.advance(reply@) == Some(s@),
                None => self@.advance(reply@) is None,
            },
    {
        match self {
            MainPhase::FetchingRelease => match reply {
                Reply::Release(release) => match release.select_asset(IMAGE_SUFFIX) {
                    Ok(i) => {
                        let asset = release.asset_names[i].clone();
                        let begun = download_release(
                            &release,
                            MAIN_OWNER,
                            MAIN_REPO,
                            asset.clone(),
                            Location::Temp,
                        );
                        match begun {
                            Ok(download) => Some(
                                MainStep::Next(MainPhase::DownloadingImage { asset, download }),
                            ),
                            Err(error) => Some(MainStep::Failed(error)),
                        }
                    },
                    Err(error) => Some(MainStep::Failed(error)),
                },
                Reply::Failed(error) => Some(MainStep::Failed(error)),
                _ => None,
            },
            MainPhase::DownloadingImage { asset, download } => match download.advance(reply) {
                Some(DownloadStep::Next(download)) => Some(
                    MainStep::Next(MainPhase::DownloadingImage { asset, download }),
                ),
                Some(DownloadStep::Stored) => Some(
                    MainStep::Next(MainPhase::OpeningImage { asset }),
                ),
                Some(DownloadStep::Failed(error)) => Some(MainStep::Failed(error)),
                None => None,
            },
            MainPhase::OpeningImage { .. } => match reply {
                Reply::Done => Some(MainStep::Next(MainPhase::EndingOld)),
                Reply::Failed(error) => Some(MainStep::Failed(error)),
                _ => None,
            },
            MainPhase::EndingOld => match reply {
                Reply::Done => Some(MainStep::Applied),
                Reply::Failed(_) => Some(MainStep::Applied),
                _ => None,
            },
        }
    }
}

/// Where the update stands once the host has answered with `replies`, in
/// order, to the actions that began in `phase`. `None` where one of them was
/// no answer to the action then pending, or came after the update had ended.
pub open spec fn main_run(phase: MainPhaseView, replies: Seq<ReplyView>) -> Option<MainStepView>
    decreases replies.len(),
{
    if replies.len() == 0 {
        Some(MainStepView::Next(phase))
    } else {
        match main_run(phase, replies.drop_last()) {
            Some(MainStepView::Next(reached)) => reached.advance(replies.last()),
            _ => None,
        }
    }
}

/// Whether `replies` begins with a release of which `asset` is the image:
/// the first asset whose name ends with `IMAGE_SUFFIX`.
pub open spec fn image_selected(replies: Seq<ReplyView>, asset: Seq<char>) -> bool {
    &&& replies.len() >= 1
    &&& replies[0] matches ReplyView::Release(release)
    &&& release.select_with_suffix(IMAGE_SUFFIX@) == Ok::<Seq<char>, UpdateError>(asset)
}

/// Whether `replies` goes on, after the release, with the fetch of the
/// image and its move into place, both of which went well.
pub open spec fn image_stored(replies: Seq<ReplyView>) -> bool {
    &&& replies.len() >= 3
    &&& replies[1] is Done
    &&& replies[2] is Done
}

/// What the host must have answered for an update from a disk image to
/// stand in `phase`: each phase is reached in one way only.
pub open spec fn main_history(replies: Seq<ReplyView>, phase: MainPhaseView) -> bool {
    match phase {
        MainPhaseView::FetchingRelease => replies.len() == 0,
        MainPhaseView::DownloadingImage { asset, download } => {
            &&& image_selected(replies, asset)
            &&& download_history(
                image_request(replies[0]->Release_0.tag, asset),
                replies,
                1,
                download,
            )
        },
        MainPhaseView::OpeningImage { asset } => {
            &&& image_selected(replies, asset)
            &&& image_stored(replies)
            &&& replies.len() == 3
        },
        MainPhaseView::EndingOld => {
            &&& exists|asset: Seq<char>| image_selected(replies, asset)
            &&& image_stored(replies)
            &&& replies.len() == 4
            &&& replies[3] is Done
        },
    }
}

/// An update stands in a phase only after the history of that phase.
pub proof fn lemma_main_history(replies: Seq<ReplyView>, phase: MainPhaseView)
    requires
        main_run(MainPhaseView::FetchingRelease, replies) == Some(MainStepView::Next(phase)),
    ensures
        main_history(replies, phase),
    decreases replies.len(),
{
    if replies.len() > 0 {
        let before = replies.drop_last();
        let reached = main_run(MainPhaseView::FetchingRelease, before)->Some_0->Next_0;
        lemma_main_history(before, reached);
        assert(forall|k: int| 0 <= k < before.len() ==> before[k] == replies[k]);
        match reached {
            MainPhaseView::DownloadingImage { asset, download } => {
                lemma_download_step(
                    image_request(replies[0]->Release_0.tag, asset),
                    replies,
                    1,
                    download,
                );
            },
            MainPhaseView::OpeningImage { asset } => {
                assert(image_selected(replies, asset));
            },
            _ => {},
        }
    }
}

/// Only the selected image is downloaded: whenever an update asks the host
/// for a download, the host's first answer was a release, and the download
/// is of that release, of its first asset whose name ends with
/// `IMAGE_SUFFIX`, into the directory for temporary files.
pub proof fn lemma_image_is_resolved(replies: Seq<ReplyView>, phase: MainPhaseView)
    requires
        main_run(MainPhaseView::FetchingRelease, replies) == Some(MainStepView::Next(phase)),
        phase.action() is Download,
    ensures
        replies.len() == 1,
        replies[0] is Release,
        phase.action()->Download_owner == MAIN_OWNER@,
        phase.action()->Download_repo == MAIN_REPO@,
        phase.action()->Download_tag == replies[0]->Release_0.tag,
        replies[0]->Release_0.select_with_suffix(IMAGE_SUFFIX@) == Ok::<Seq<char>, UpdateError>(
            phase.action()->Download_asset,
        ),
        phase.action()->Download_dir == LocationView::Temp,
{
    lemma_main_history(replies, phase);
}

/// Only an image that has arrived whole is opened, and it is the one that
/// was selected: whenever an update asks the host to open a file, the host
/// has given exactly three answers before, a release and the success of the
/// image's fetch and of its move into place, and the file is the first asset
/// of that release whose name ends with `IMAGE_SUFFIX`, in the directory to
/// which it was downloaded.
pub proof fn lemma_open_follows_download(replies: Seq<ReplyView>, phase: MainPhaseView)
    requires
        main_run(MainPhaseView::FetchingRelease, replies) == Some(MainStepView::Next(phase)),
        phase.action() is Open,
    ensures
        replies.len() == 3,
        replies[0] is Release,
        replies[1] is Done,
        replies[2] is Done,
        replies[0]->Release_0.select_with_suffix(IMAGE_SUFFIX@) == Ok::<Seq<char>, UpdateError>(
            phase.action()->Open_name,
        ),
        phase.action()->Open_dir == LocationView::Temp,
{
    lemma_main_history(replies, phase);
}

/// An update from a disk image ends as `Applied` once the image has been
/// opened, whether or not the running application could be ended: the host
/// has given exactly five answers, a release that holds an image, the
/// success of the image's fetch, of its move into place and of its opening,
/// and any answer to the request to end the running application.
pub proof fn lemma_applied_after_opening(replies: Seq<ReplyView>)
    requires
        main_run(MainPhaseView::FetchingRelease, replies) == Some(MainStepView::Applied),
    ensures
        replies.len() == 5,
        replies[0] is Release,
        replies[0]->Release_0.select_with_suffix(IMAGE_SUFFIX@) is Ok,
        forall|k: int| 1 <= k < 4 ==> replies[k] is Done,
        replies[4] is Done || replies[4] is Failed,
{
    let before = replies.drop_last();
    let reached = main_run(MainPhaseView::FetchingRelease, before)->Some_0->Next_0;
    lemma_main_history(before, reached);
    assert(forall|k: int| 0 <= k < before.len() ==> before[k] == replies[k]);
}

} // verus!
