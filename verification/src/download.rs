//! Downloading one asset of a release so that its destination never holds
//! half a file: the bytes arrive in a staging file beside the destination,
//! which takes the destination's place only when it is whole.

use vstd::prelude::*;
use vstd::string::StringExecFns;
use crate::error::UpdateError;
use crate::host::{Action, ActionView, Location, LocationView, Reply, ReplyView};
use crate::release::{ReleaseDescriptor, ReleaseView};

verus! {

/// What is appended to an asset's name to name its staging file.
pub const STAGING_SUFFIX: &'static str = ".part";

/// Which asset to download, and where to.
#[derive(Clone, Debug, PartialEq, Eq)]
pub struct DownloadRequest {
    /// The owner of the project.
    pub owner: &'static str,
    /// The project.
    pub repo: &'static str,
    /// The tag of the release.
    pub tag: String,
    /// The name of the asset, which is also the name of its destination.
    pub asset: String,
    /// The directory of the destination.
    pub dir: Location,
}

/// What a [`DownloadRequest`] stands for.
pub struct DownloadRequestView {
    pub owner: Seq<char>,
    pub repo: Seq<char>,
    pub tag: Seq<char>,
    pub asset: Seq<char>,
    pub dir: LocationView,
}

impl View for DownloadRequest {
    type V = DownloadRequestView;

    open spec fn view(&self) -> DownloadRequestView {
        DownloadRequestView {
            owner: self.owner@,
            repo: self.repo@,
            tag: self.tag@,
            asset: self.asset@,
            dir: self.dir@,
        }
    }
}

impl DownloadRequestView {
    /// The name of the staging file.
    pub open spec fn staging(self) -> Seq<char> {
        self.asset + STAGING_SUFFIX@
    }
}

/// Where a download stands. Each phase waits for the host's answer to one
/// action.
#[derive(Clone, Debug, PartialEq, Eq)]
pub enum DownloadPhase {
    /// The asset is being fetched into the staging file.
    Fetching { request: DownloadRequest },
    /// The staging file is whole and is being moved to the destination.
    Placing { request: DownloadRequest },
    /// The download failed with `error`; the staging file is being removed.
    Discarding { request: DownloadRequest, error: UpdateError },
}

/// What a [`DownloadPhase`] stands for.
pub enum DownloadPhaseView {
    Fetching { request: DownloadRequestView },
    Placing { request: DownloadRequestView },
    Discarding { request: DownloadRequestView, error: UpdateError },
}

impl View for DownloadPhase {
    type V = DownloadPhaseView;

    open spec fn view(&self) -> DownloadPhaseView {
        match self {
            DownloadPhase::Fetching { request } => DownloadPhaseView::Fetching {
                request: request@,
            },
            DownloadPhase::Placing { request } => DownloadPhaseView::Placing { request: request@ },
            DownloadPhase::Discarding { request, error } => DownloadPhaseView::Discarding {
                request: request@,
                error: *error,
            },
        }
    }
}

/// Where a download stands after an answer of the host.
#[derive(Clone, Debug, PartialEq, Eq)]
pub enum DownloadStep {
    /// The download goes on in this phase.
    Next(DownloadPhase),
    /// The destination holds the whole asset.
    Stored,
    /// The download was given up; the destination is as it was.
    Failed(UpdateError),
}

/// What a [`DownloadStep`] stands for.
pub enum DownloadStepView {
    Next(DownloadPhaseView),
    Stored,
    Failed(UpdateError),
}

impl View for DownloadStep {
    type V = DownloadStepView;

    open spec fn view(&self) -> DownloadStepView {
        match self {
            DownloadStep::Next(phase) => DownloadStepView::Next(phase@),
            DownloadStep::Stored => DownloadStepView::Stored,
            DownloadStep::Failed(error) => DownloadStepView::Failed(*error),
        }
    }
}

impl DownloadPhaseView {
    /// The request that this download serves.
    pub open spec fn request(self) -> DownloadRequestView {
        match self {
            DownloadPhaseView::Fetching { request } => request,
            DownloadPhaseView::Placing { request } => request,
            DownloadPhaseView::Discarding { request, .. } => request,
        }
    }

    /// The action whose answer this phase waits for.
    pub open spec fn action(self) -> ActionView {
        match self {
            DownloadPhaseView::Fetching { request } => ActionView::Download {
                owner: request.owner,
                repo: request.repo,
                tag: request.tag,
                asset: request.asset,
                dir: request.dir,
                file: request.staging(),
            },
            DownloadPhaseView::Placing { request } => ActionView::Rename {
                dir: request.dir,
                from: request.staging(),
                to: request.asset,
            },
            DownloadPhaseView::Discarding { request, .. } => ActionView::RemoveFile {
                dir: request.dir,
                name: request.staging(),
            },
        }
    }

    /// The step that follows when the host answers with `reply`, or `None`
    /// where `reply` is no answer to the action of this phase.
    ///
    /// A staging file that has arrived whole is moved to the destination.
    /// When the fetch or the move fails, the staging file is removed and the
    /// download fails with the error of the step that failed, whether or
    /// not the removal went well.
    pub open spec fn advance(self, reply: ReplyView) -> Option<DownloadStepView> {
        if !self.action().answered_by(reply) {
            None
        } else {
            Some(
                match self {
                    DownloadPhaseView::Fetching { request } => match reply {
                        ReplyView::Failed(error) => DownloadStepView::Next(
                            DownloadPhaseView::Discarding { request, error },
                        ),
                        _ => DownloadStepView::Next(DownloadPhaseView::Placing { request }),
                    },
                    DownloadPhaseView::Placing { request } => match reply {
                        ReplyView::Failed(error) => DownloadStepView::Next(
                            DownloadPhaseView::Discarding { request, error },
                        ),
                        _ => DownloadStepView::Stored,
                    },
                    DownloadPhaseView::Discarding { error, .. } => DownloadStepView::Failed(error),
                },
            )
        }
    }
}

/// How the download of the asset `asset` of `release` into `dir` begins. The
/// asset is resolved by its exact name: where the release holds none of that
/// name, the download fails with `AssetNotFound` before anything is asked of
/// the host.
pub open spec fn download_start(
    release: ReleaseView,
    owner: Seq<char>,
    repo: Seq<char>,
    asset: Seq<char>,
    dir: LocationView,
) -> Result<DownloadPhaseView, UpdateError> {
    if release.position_of(asset) is Some {
        Ok(
            DownloadPhaseView::Fetching {
                request: DownloadRequestView { owner, repo, tag: release.tag, asset, dir },
            },
        )
    } else {
        Err(UpdateError::AssetNotFound)
    }
}

/// Begins the download of the asset named `asset` of `release`, a release
/// of `owner`/`repo`, to the file of the same name in `dir`. Fails with
/// `AssetNotFound` exactly when the release holds no asset of that name.
pub fn download_release(
    release: &ReleaseDescriptor,
    owner: &'static str,
    repo: &'static str,
    asset: String,
    dir: Location,
) -> (begun: Result<DownloadPhase, UpdateError>)
    ensures
        match begun {
            Ok(phase) => download_start(release@, owner@, repo@, asset@, dir@) == Ok::<
                DownloadPhaseView,
                UpdateError,
            >(phase@),
            Err(error) => download_start(release@, owner@, repo@, asset@, dir@) == Err::<
                DownloadPhaseView,
                UpdateError,
            >(error),
        },
{
    match release.find_asset(&asset) {
        Ok(_) => Ok(
            DownloadPhase::Fetching {
                request: DownloadRequest { owner, repo, tag: release.tag.clone(), asset, dir },
            },
        ),
        Err(error) => Err(error),
    }
}

impl DownloadRequest {
    /// The name of the staging file: the asset's name with `STAGING_SUFFIX`
    /// appended.
    pub fn staging(&self) -> (name: String)
        ensures
            name@ == self@.staging(),
    {
        let mut name = self.asset.clone();
        name.append(STAGING_SUFFIX);
        name
    }
}

impl DownloadPhase {
    /// The action whose answer this phase waits for.
    pub fn action(&self) -> (action: Action)
        ensures
            action@ == self@.action(),
    {
        match self {
            DownloadPhase::Fetching { request } => Action::Download {
                owner: request.owner,
                repo: request.repo,
                tag: request.tag.clone(),
                asset: request.asset.clone(),
                dir: request.dir.duplicate(),
                file: request.staging(),
            },
            DownloadPhase::Placing { request } => Action::Rename {
                dir: request.dir.duplicate(),
                from: request.staging(),
                to: request.asset.clone(),
            },
            DownloadPhase::Discarding { request, .. } => Action::RemoveFile {
                dir: request.dir.duplicate(),
                name: request.staging(),
            },
        }
    }

    /// Takes the host's answer to the action of this phase and decides how
    /// the download goes on. Returns `None` exactly when `reply` is no
    /// answer to that action.
    pub fn advance(self, reply: Reply) -> (step: Option<DownloadStep>)
        ensures
            match step {
                Some(s) => self@.advance(reply@) == Some(s@),
                None => self@.advance(reply@) is None,
            },
    {
        match (self, reply) {
            (DownloadPhase::Fetching { request }, Reply::Done) => Some(
                DownloadStep::Next(DownloadPhase::Placing { request }),
            ),
            (DownloadPhase::Fetching { request }, Reply::Failed(error)) => Some(
                DownloadStep::Next(DownloadPhase::Discarding { request, error }),
            ),
            (DownloadPhase::Placing { request }, Reply::Done) => Some(DownloadStep::Stored),
            (DownloadPhase::Placing { request }, Reply::Failed(error)) => Some(
                DownloadStep::Next(DownloadPhase::Discarding { request, error }),
            ),
            (DownloadPhase::Discarding { error, .. }, Reply::Done) => Some(
                DownloadStep::Failed(error),
            ),
            (DownloadPhase::Discarding { error, .. }, Reply::Failed(_)) => Some(
                DownloadStep::Failed(error),
            ),
            _ => None,
        }
    }
}

impl DownloadPhaseView {
    /// An upper bound on the number of answers that the host can still give
    /// to this download and to what follows it, where `rest` answers, and
    /// at least one, can follow a download that went well.
    pub open spec fn steps_left(self, rest: nat) -> nat {
        match self {
            DownloadPhaseView::Fetching { .. } => 2 + rest,
            DownloadPhaseView::Placing { .. } => 1 + rest,
            DownloadPhaseView::Discarding { .. } => 1,
        }
    }
}

/// Where the download stands once the host has answered with `replies`, in
/// order, to the actions that began in `phase`. `None` where one of them was
/// no answer to the action then pending, or came after the download had
/// ended.
pub open spec fn download_run(phase: DownloadPhaseView, replies: Seq<ReplyView>) -> Option<
    DownloadStepView,
>
    decreases replies.len(),
{
    if replies.len() == 0 {
        Some(DownloadStepView::Next(phase))
    } else {
        match download_run(phase, replies.drop_last()) {
            Some(DownloadStepView::Next(reached)) => reached.advance(replies.last()),
            _ => None,
        }
    }
}

/// What the host must have answered, from the answer at `from` on, for the
/// download of `request` to stand in `phase`.
pub open spec fn download_history(
    request: DownloadRequestView,
    replies: Seq<ReplyView>,
    from: int,
    phase: DownloadPhaseView,
) -> bool {
    &&& phase.request() == request
    &&& match phase {
        DownloadPhaseView::Fetching { .. } => replies.len() == from,
        DownloadPhaseView::Placing { .. } => replies.len() == from + 1 && replies[from] is Done,
        DownloadPhaseView::Discarding { error, .. } => {
            ||| replies.len() == from + 1 && replies[from] == ReplyView::Failed(error)
            ||| replies.len() == from + 2 && replies[from] is Done && replies[from + 1]
                == ReplyView::Failed(error)
        },
    }
}

/// One answer takes a download from a history to the next: the phase that
/// follows has the history of the phase before with the answer appended, a
/// download is `Stored` only after the fetch and the move have both gone
/// well, and it fails only with the error of the step that failed.
pub proof fn lemma_download_step(
    request: DownloadRequestView,
    replies: Seq<ReplyView>,
    from: int,
    phase: DownloadPhaseView,
)
    requires
        0 <= from < replies.len(),
        download_history(request, replies.drop_last(), from, phase),
        phase.advance(replies.last()) is Some,
    ensures
        match phase.advance(replies.last())->Some_0 {
            DownloadStepView::Next(next) => download_history(request, replies, from, next),
            DownloadStepView::Stored => replies.len() == from + 2 && replies[from] is Done
                && replies[from + 1] is Done,
            DownloadStepView::Failed(error) => {
                ||| replies.len() == from + 2 && replies[from] == ReplyView::Failed(error)
                ||| replies.len() == from + 3 && replies[from] is Done && replies[from + 1]
                    == ReplyView::Failed(error)
            },
        },
{
    let before = replies.drop_last();
    assert(forall|k: int| 0 <= k < before.len() ==> before[k] == replies[k]);
}

/// A download stands in a phase only after the history of that phase.
pub proof fn lemma_download_history(
    request: DownloadRequestView,
    replies: Seq<ReplyView>,
    phase: DownloadPhaseView,
)
    requires
        download_run((DownloadPhaseView::Fetching { request }), replies) == Some(
            DownloadStepView::Next(phase),
        ),
    ensures
        download_history(request, replies, 0, phase),
    decreases replies.len(),
{
    if replies.len() > 0 {
        let start = DownloadPhaseView::Fetching { request };
        let reached = download_run(start, replies.drop_last())->Some_0->Next_0;
        lemma_download_history(request, replies.drop_last(), reached);
        lemma_download_step(request, replies, 0, reached);
    }
}

/// The staging file is never the destination.
pub proof fn lemma_staging_is_beside(request: DownloadRequestView)
    ensures
        request.staging() != request.asset,
{
    reveal_strlit(".part");
    assert(request.staging().len() == request.asset.len() + 5);
}

/// The destination never holds half a file: a download writes to and
/// removes nothing but its staging file, and the only action that touches
/// the destination is the move of the staging file to it, which is asked
/// for only after the fetch into the staging file has gone well.
pub proof fn lemma_destination_is_safe(
    request: DownloadRequestView,
    replies: Seq<ReplyView>,
    phase: DownloadPhaseView,
)
    requires
        download_run((DownloadPhaseView::Fetching { request }), replies) == Some(
            DownloadStepView::Next(phase),
        ),
    ensures
        match phase.action() {
            ActionView::Download { dir, file, .. } => dir == request.dir && file
                != request.asset,
            ActionView::RemoveFile { dir, name } => dir == request.dir && name != request.asset,
            ActionView::Rename { dir, from, to } => {
                &&& dir == request.dir
                &&& from == request.staging()
                &&& to == request.asset
                &&& replies.len() == 1
                &&& replies[0] is Done
            },
            _ => false,
        },
{
    lemma_download_history(request, replies, phase);
    lemma_staging_is_beside(request);
}

/// A download ends as `Stored` only when the asset has arrived whole and
/// has been moved to its destination, and it fails only with the error of
/// the fetch or of the move, after the staging file has been dealt with.
pub proof fn lemma_download_outcome(
    request: DownloadRequestView,
    replies: Seq<ReplyView>,
    end: DownloadStepView,
)
    requires
        download_run((DownloadPhaseView::Fetching { request }), replies) == Some(end),
        !(end is Next),
    ensures
        match end {
            DownloadStepView::Stored => replies.len() == 2 && replies[0] is Done && replies[1]
                is Done,
            DownloadStepView::Failed(error) => {
                ||| replies.len() == 2 && replies[0] == ReplyView::Failed(error)
                ||| replies.len() == 3 && replies[0] is Done && replies[1] == ReplyView::Failed(
                    error,
                )
            },
            DownloadStepView::Next(_) => false,
        },
{
    let start = DownloadPhaseView::Fetching { request };
    let reached = download_run(start, replies.drop_last())->Some_0->Next_0;
    lemma_download_history(request, replies.drop_last(), reached);
    lemma_download_step(request, replies, 0, reached);
}

} // verus!
