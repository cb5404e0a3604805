//! The update flow: check, download, install.
//!
//! The controller holds the state of one flow and decides every change of it.
//! The shell talks to the update source; it asks the controller before it starts
//! a piece of work (`check`, `download`, `install`) and tells it what the source
//! answered (`observe`). A flow ends at `Installed`: restarting the application
//! is left to the shell, which does so when it has seen that state.

use vstd::prelude::*;
use vstd::string::*;

verus! {

/// Why a command or a report was refused. The state is then left as it was.
#[derive(Debug, Clone, Copy, PartialEq, Eq)]
pub enum UpdateError {
    /// The command or report does not fit the state the flow is in.
    InvalidTransition,
    /// A check was asked for while work is under way.
    AlreadyInProgress,
}

/// The sentence that tells the user why a command or a report was refused.
pub open spec fn refusal_text(error: UpdateError) -> Seq<char> {
    match error {
        UpdateError::InvalidTransition => "Update step is out of order"@,
        UpdateError::AlreadyInProgress => "An update is already in progress"@,
    }
}

impl UpdateError {
    /// The sentence that tells the user why a command or a report was refused.
    pub fn message(&self) -> (text: String)
        ensures
            text@ == refusal_text(*self),
    {
        match self {
            UpdateError::InvalidTransition => String::from_str("Update step is out of order"),
            UpdateError::AlreadyInProgress => String::from_str("An update is already in progress"),
        }
    }
}

/// Why a flow failed.
#[derive(Debug, Clone, PartialEq, Eq)]
pub enum UpdateFailure {
    /// The update source could not be set up.
    Unavailable(String),
    /// The query for a newer release failed.
    Query(String),
    /// The download failed.
    Download(String),
    /// The installation failed.
    Install(String),
    /// The download was abandoned.
    Cancelled,
    /// The work under way took too long.
    TimedOut,
}

/// The mathematical value of an `UpdateFailure`.
pub enum FailureView {
    Unavailable(Seq<char>),
    Query(Seq<char>),
    Download(Seq<char>),
    Install(Seq<char>),
    Cancelled,
    TimedOut,
}

impl View for UpdateFailure {
    type V = FailureView;

    open spec fn view(&self) -> FailureView {
        match self {
            UpdateFailure::Unavailable(reason) => FailureView::Unavailable(reason@),
            UpdateFailure::Query(reason) => FailureView::Query(reason@),
            UpdateFailure::Download(reason) => FailureView::Download(reason@),
            UpdateFailure::Install(reason) => FailureView::Install(reason@),
            UpdateFailure::Cancelled => FailureView::Cancelled,
            UpdateFailure::TimedOut => FailureView::TimedOut,
        }
    }
}

/// How far a download has come: the bytes received so far, and the size of the
/// whole where the source has told it.
#[derive(Debug, Clone, Copy, PartialEq, Eq)]
pub struct Progress {
    pub received: u64,
    pub total: Option<u64>,
}

/// The progress after `chunk` more bytes arrived: they are added to what was
/// received, up to the largest count that can be held, and the total is the one
/// reported last.
pub open spec fn advanced(progress: Progress, chunk: u64, total: Option<u64>) -> Progress {
    Progress {
        received: if progress.received + chunk > u64::MAX {
            u64::MAX
        } else {
            (progress.received + chunk) as u64
        },
        total,
    }
}

/// The progress of a download that has received nothing yet and does not know
/// its total.
pub open spec fn nothing_received() -> Progress {
    Progress { received: 0, total: None }
}

impl Progress {
    /// The progress of a download that has received nothing yet.
    pub fn start() -> (progress: Progress)
        ensures
            progress == nothing_received(),
    {
        Progress { received: 0, total: None }
    }

    /// The progress after `chunk` more bytes arrived.
    pub fn advance(self, chunk: u64, total: Option<u64>) -> (progress: Progress)
        ensures
            progress == advanced(self, chunk, total),
    {
        Progress { received: self.received.saturating_add(chunk), total }
    }
}

/// The state of an update flow.
#[derive(Debug, Clone, PartialEq, Eq)]
pub enum UpdateState {
    Idle,
    Checking,
    /// A newer release exists; the text is its version.
    UpdateAvailable(String),
    Downloading(Progress),
    Downloaded,
    Installing,
    Installed,
    Failed(UpdateFailure),
}

/// The mathematical value of an `UpdateState`.
pub enum StateView {
    Idle,
    Checking,
    UpdateAvailable(Seq<char>),
    Downloading(Progress),
    Downloaded,
    Installing,
    Installed,
    Failed(FailureView),
}

impl View for UpdateState {
    type V = StateView;

    open spec fn view(&self) -> StateView {
        match self {
            UpdateState::Idle => StateView::Idle,
            UpdateState::Checking => StateView::Checking,
            UpdateState::UpdateAvailable(version) => StateView::UpdateAvailable(version@),
            UpdateState::Downloading(progress) => StateView::Downloading(*progress),
            UpdateState::Downloaded => StateView::Downloaded,
            UpdateState::Installing => StateView::Installing,
            UpdateState::Installed => StateView::Installed,
            UpdateState::Failed(failure) => StateView::Failed(failure@),
        }
    }
}

/// What the shell reports of the update source.
#[derive(Debug, Clone, PartialEq, Eq)]
pub enum UpdateEvent {
    /// The query ended: nothing newer exists.
    UpToDate,
    /// The query ended: a release with this version exists.
    Available(String),
    /// The update source could not be set up.
    Unavailable(String),
    /// The query failed.
    QueryFailed(String),
    /// `chunk` more bytes of the download arrived; `total` is the size of the
    /// whole where it is known.
    Progress { chunk: u64, total: Option<u64> },
    /// The download is complete.
    DownloadFinished,
    /// The download failed.
    DownloadFailed(String),
    /// The installation is complete.
    InstallFinished,
    /// The installation failed.
    InstallFailed(String),
    /// The download was abandoned; what had arrived is thrown away.
    Cancelled,
    /// The work under way has taken longer than the shell allows.
    TimedOut,
}

/// The mathematical value of an `UpdateEvent`.
pub enum EventView {
    UpToDate,
    Available(Seq<char>),
    Unavailable(Seq<char>),
    QueryFailed(Seq<char>),
    Progress { chunk: u64, total: Option<u64> },
    DownloadFinished,
    DownloadFailed(Seq<char>),
    InstallFinished,
    InstallFailed(Seq<char>),
    Cancelled,
    TimedOut,
}

impl View for UpdateEvent {
    type V = EventView;

    open spec fn view(&self) -> EventView {
        match self {
            UpdateEvent::UpToDate => EventView::UpToDate,
            UpdateEvent::Available(version) => EventView::Available(version@),
            UpdateEvent::Unavailable(reason) => EventView::Unavailable(reason@),
            UpdateEvent::QueryFailed(reason) => EventView::QueryFailed(reason@),
            UpdateEvent::Progress { chunk, total } => EventView::Progress {
                chunk: *chunk,
                total: *total,
            },
            UpdateEvent::DownloadFinished => EventView::DownloadFinished,
            UpdateEvent::DownloadFailed(reason) => EventView::DownloadFailed(reason@),
            UpdateEvent::InstallFinished => EventView::InstallFinished,
            UpdateEvent::InstallFailed(reason) => EventView::InstallFailed(reason@),
            UpdateEvent::Cancelled => EventView::Cancelled,
            UpdateEvent::TimedOut => EventView::TimedOut,
        }
    }
}

/// Anything that can move a flow: one of the three commands, or a report.
pub enum Input {
    Check,
    Download,
    Install,
    Seen(EventView),
}

/// Whether work is under way in `state`, so that the flow waits for the update
/// source and not for a command.
pub open spec fn in_flight(state: StateView) -> bool {
    state is Checking || state is Downloading || state is Installing
}

/// What a report does to a flow.
///
/// A report moves the flow only from the state that waits for it: the answers
/// to a query from `Checking`, the end of a download from `Downloading`, the end
/// of an installation from `Installing`, a timeout from any of the three.
/// Elsewhere it is refused. A progress report is never refused: it counts bytes
/// while a download runs and is passed over at any other time.
pub open spec fn observed(state: StateView, event: EventView) -> Result<StateView, UpdateError> {
    match event {
        EventView::Progress { chunk, total } => match state {
            StateView::Downloading(progress) => Ok(
                StateView::Downloading(advanced(progress, chunk, total)),
            ),
            _ => Ok(state),
        },
        EventView::UpToDate => if state is Checking {
            Ok(StateView::Idle)
        } else {
            Err(UpdateError::InvalidTransition)
        },
        EventView::Available(version) => if state is Checking {
            Ok(StateView::UpdateAvailable(version))
        } else {
            Err(UpdateError::InvalidTransition)
        },
        EventView::Unavailable(reason) => if state is Checking {
            Ok(StateView::Failed(FailureView::Unavailable(reason)))
        } else {
            Err(UpdateError::InvalidTransition)
        },
        EventView::QueryFailed(reason) => if state is Checking {
            Ok(StateView::Failed(FailureView::Query(reason)))
        } else {
            Err(UpdateError::InvalidTransition)
        },
        EventView::DownloadFinished => if state is Downloading {
            Ok(StateView::Downloaded)
        } else {
            Err(UpdateError::InvalidTransition)
        },
        EventView::DownloadFailed(reason) => if state is Downloading {
            Ok(StateView::Failed(FailureView::Download(reason)))
        } else {
            Err(UpdateError::InvalidTransition)
        },
        EventView::Cancelled => if state is Downloading {
            Ok(StateView::Failed(FailureView::Cancelled))
        } else {
            Err(UpdateError::InvalidTransition)
        },
        EventView::InstallFinished => if state is Installing {
            Ok(StateView::Installed)
        } else {
            Err(UpdateError::InvalidTransition)
        },
        EventView::InstallFailed(reason) => if state is Installing {
            Ok(StateView::Failed(FailureView::Install(reason)))
        } else {
            Err(UpdateError::InvalidTransition)
        },
        EventView::TimedOut => if in_flight(state) {
            Ok(StateView::Failed(FailureView::TimedOut))
        } else {
            Err(UpdateError::InvalidTransition)
        },
    }
}

/// What an input does to a flow: the state that follows, or the reason why the
/// input was refused.
///
/// A check starts from every state in which no work is under way, a failed flow
/// and a finished one included. A download starts only from `UpdateAvailable`,
/// an installation only from `Downloaded`.
pub open spec fn step(state: StateView, input: Input) -> Result<StateView, UpdateError> {
    match input {
        Input::Check => if in_flight(state) {
            Err(UpdateError::AlreadyInProgress)
        } else {
            Ok(StateView::Checking)
        },
        Input::Download => if state is UpdateAvailable {
            Ok(StateView::Downloading(nothing_received()))
        } else {
            Err(UpdateError::InvalidTransition)
        },
        Input::Install => if state is Downloaded {
            Ok(StateView::Installing)
        } else {
            Err(UpdateError::InvalidTransition)
        },
        Input::Seen(event) => observed(state, event),
    }
}

/// Whether a controller that was in `before` and got `input` answered with
/// `result` and is now in `after`, as `step` says: on success it is in the state
/// that follows, on refusal it is where it was.
pub open spec fn obeys(
    before: StateView,
    input: Input,
    result: Result<(), UpdateError>,
    after: StateView,
) -> bool {
    match step(before, input) {
        Ok(next) => result is Ok && after == next,
        Err(error) => result == Err::<(), UpdateError>(error) && after == before,
    }
}

/// The controller of one update flow.
#[derive(Debug)]
pub struct UpdateController {
    state: UpdateState,
}

impl View for UpdateController {
    type V = StateView;

    closed spec fn view(&self) -> StateView {
        self.state@
    }
}

impl UpdateController {
    /// A controller at rest.
    pub fn new() -> (controller: UpdateController)
        ensures
            controller@ == StateView::Idle,
    {
        UpdateController { state: UpdateState::Idle }
    }

    /// The state the flow is in.
    pub fn state(&self) -> (state: &UpdateState)
        ensures
            state@ == self@,
    {
        &self.state
    }

    /// Whether work is under way.
    pub fn busy(&self) -> (busy: bool)
        ensures
            busy == in_flight(self@),
    {
        match &self.state {
            UpdateState::Checking => true,
            UpdateState::Downloading(_) => true,
            UpdateState::Installing => true,
            _ => false,
        }
    }

    /// Asks to start a query for a newer release.
    pub fn check(&mut self) -> (result: Result<(), UpdateError>)
        ensures
            obeys(old(self)@, Input::Check, result, final(self)@),
    {
        if self.busy() {
            Err(UpdateError::AlreadyInProgress)
        } else {
            self.state = UpdateState::Checking;
            Ok(())
        }
    }

    /// Asks to start the download of the release that was found.
    pub fn download(&mut self) -> (result: Result<(), UpdateError>)
        ensures
            obeys(old(self)@, Input::Download, result, final(self)@),
    {
        match &self.state {
            UpdateState::UpdateAvailable(_) => {
                self.state = UpdateState::Downloading(Progress::start());
                Ok(())
            },
            _ => Err(UpdateError::InvalidTransition),
        }
    }

    /// Asks to start the installation of what was downloaded.
    pub fn install(&mut self) -> (result: Result<(), UpdateError>)
        ensures
            obeys(old(self)@, Input::Install, result, final(self)@),
    {
        match &self.state {
            UpdateState::Downloaded => {
                self.state = UpdateState::Installing;
                Ok(())
            },
            _ => Err(UpdateError::InvalidTransition),
        }
    }

    /// Moves to `next` where the flow is in the state that `event` belongs to.
    fn settle(&mut self, expected: bool, next: UpdateState) -> (result: Result<(), UpdateError>)
        ensures
            expected ==> result is Ok && final(self)@ == next@,
            !expected ==> final(self)@ == old(self)@ && result == Err::<(), UpdateError>(
                UpdateError::InvalidTransition,
            ),
    {
        if expected {
            self.state = next;
            Ok(())
        } else {
            Err(UpdateError::InvalidTransition)
        }
    }

    /// Takes a report of the shell on the update source.
    pub fn observe(&mut self, event: UpdateEvent) -> (result: Result<(), UpdateError>)
        ensures
            obeys(old(self)@, Input::Seen(event@), result, final(self)@),
    {
        let checking = matches!(self.state, UpdateState::Checking);
        let downloading = matches!(self.state, UpdateState::Downloading(_));
        let installing = matches!(self.state, UpdateState::Installing);
        match event {
            UpdateEvent::Progress { chunk, total } => {
                let current = match &self.state {
                    UpdateState::Downloading(progress) => Some(*progress),
                    _ => None,
                };
                if let Some(progress) = current {
                    self.state = UpdateState::Downloading(progress.advance(chunk, total));
                }
                Ok(())
            },
            UpdateEvent::UpToDate => self.settle(checking, UpdateState::Idle),
            UpdateEvent::Available(version) => self.settle(
                checking,
                UpdateState::UpdateAvailable(version),
            ),
            UpdateEvent::Unavailable(reason) => self.settle(
                checking,
                UpdateState::Failed(UpdateFailure::Unavailable(reason)),
            ),
            UpdateEvent::QueryFailed(reason) => self.settle(
                checking,
                UpdateState::Failed(UpdateFailure::Query(reason)),
            ),
            UpdateEvent::DownloadFinished => self.settle(downloading, UpdateState::Downloaded),
            UpdateEvent::DownloadFailed(reason) => self.settle(
                downloading,
                UpdateState::Failed(UpdateFailure::Download(reason)),
            ),
            UpdateEvent::Cancelled => self.settle(
                downloading,
                UpdateState::Failed(UpdateFailure::Cancelled),
            ),
            UpdateEvent::InstallFinished => self.settle(installing, UpdateState::Installed),
            UpdateEvent::InstallFailed(reason) => self.settle(
                installing,
                UpdateState::Failed(UpdateFailure::Install(reason)),
            ),
            UpdateEvent::TimedOut => self.settle(
                checking || downloading || installing,
                UpdateState::Failed(UpdateFailure::TimedOut),
            ),
        }
    }
}

impl Default for UpdateController {
    fn default() -> (controller: UpdateController)
        ensures
            controller@ == StateView::Idle,
    {
        UpdateController::new()
    }
}

/// The sentence that tells the user why a flow failed.
pub open spec fn failure_text(failure: FailureView) -> Seq<char> {
    match failure {
        FailureView::Unavailable(reason) => "Updater not available: "@ + reason,
        FailureView::Query(reason) => "Failed to check for updates: "@ + reason,
        FailureView::Download(reason) => "Failed to install update: "@ + reason,
        FailureView::Install(reason) => "Failed to install update: "@ + reason,
        FailureView::Cancelled => "Update cancelled"@,
        FailureView::TimedOut => "Update timed out"@,
    }
}

/// What the user is told when a check has come to rest: that a version is
/// available, that nothing newer exists, or why the flow failed. A flow that is
/// anywhere else has nothing to tell yet.
pub open spec fn check_summary(state: StateView) -> Option<Result<Seq<char>, Seq<char>>> {
    match state {
        StateView::Idle => Some(Ok("App is up to date"@)),
        StateView::UpdateAvailable(version) => Some(Ok("Update available: version "@ + version)),
        StateView::Failed(failure) => Some(Err(failure_text(failure))),
        _ => None,
    }
}

/// What the user is told when a flow that was to install has come to rest: that
/// the update is installed, that there was none, or why the flow failed. A flow
/// that is anywhere else has nothing to tell yet.
pub open spec fn install_summary(state: StateView) -> Option<Result<Seq<char>, Seq<char>>> {
    match state {
        StateView::Idle => Some(Ok("No updates available"@)),
        StateView::Installed => Some(
            Ok("Update installed successfully. Please restart the app."@),
        ),
        StateView::Failed(failure) => Some(Err(failure_text(failure))),
        _ => None,
    }
}

/// The mathematical value of a summary.
pub open spec fn summary_view(summary: Option<Result<String, String>>) -> Option<
    Result<Seq<char>, Seq<char>>,
> {
    match summary {
        Some(Ok(text)) => Some(Ok(text@)),
        Some(Err(text)) => Some(Err(text@)),
        None => None,
    }
}

impl UpdateFailure {
    /// The sentence that tells the user why the flow failed.
    pub fn message(&self) -> (text: String)
        ensures
            text@ == failure_text(self@),
    {
        match self {
            UpdateFailure::Unavailable(reason) => String::from_str(
                "Updater not available: ",
            ).concat(reason.as_str()),
            UpdateFailure::Query(reason) => String::from_str(
                "Failed to check for updates: ",
            ).concat(reason.as_str()),
            UpdateFailure::Download(reason) => String::from_str(
                "Failed to install update: ",
            ).concat(reason.as_str()),
            UpdateFailure::Install(reason) => String::from_str(
                "Failed to install update: ",
            ).concat(reason.as_str()),
            UpdateFailure::Cancelled => String::from_str("Update cancelled"),
            UpdateFailure::TimedOut => String::from_str("Update timed out"),
        }
    }
}

impl UpdateController {
    /// What the user is told after a check.
    pub fn check_report(&self) -> (summary: Option<Result<String, String>>)
        ensures
            summary_view(summary) == check_summary(self@),
    {
        match &self.state {
            UpdateState::Idle => Some(Ok(String::from_str("App is up to date"))),
            UpdateState::UpdateAvailable(version) => Some(
                Ok(String::from_str("Update available: version ").concat(version.as_str())),
            ),
            UpdateState::Failed(failure) => Some(Err(failure.message())),
            _ => None,
        }
    }

    /// What the user is told after a flow that was to install.
    pub fn install_report(&self) -> (summary: Option<Result<String, String>>)
        ensures
            summary_view(summary) == install_summary(self@),
    {
        match &self.state {
            UpdateState::Idle => Some(Ok(String::from_str("No updates available"))),
            UpdateState::Installed => Some(
                Ok(String::from_str("Update installed successfully. Please restart the app.")),
            ),
            UpdateState::Failed(failure) => Some(Err(failure.message())),
            _ => None,
        }
    }
}

/// Whether `next` is a state that a flow can enter from `state`.
pub open spec fn follows(state: StateView, next: StateView) -> bool {
    match next {
        StateView::Checking => !in_flight(state),
        StateView::Idle => state is Checking,
        StateView::UpdateAvailable(_) => state is Checking,
        StateView::Downloading(_) => state is UpdateAvailable || state is Downloading,
        StateView::Downloaded => state is Downloading,
        StateView::Installing => state is Downloaded,
        StateView::Installed => state is Installing,
        StateView::Failed(_) => in_flight(state),
    }
}

/// No state is skipped: an input that is accepted leaves the flow where it was
/// or takes it to a state that can be entered from there.
pub proof fn lemma_no_state_is_skipped(state: StateView, input: Input)
    ensures
        step(state, input) matches Ok(next) ==> next == state || follows(state, next),
{
}

/// A check starts from every state in which no work is under way, and from no
/// other; where nothing newer exists it ends at `Idle`. The report that nothing
/// newer exists never takes a flow to `UpdateAvailable`, whatever state it is in.
pub proof fn lemma_up_to_date_check_ends_idle(state: StateView)
    ensures
        step(state, Input::Check) is Ok <==> !in_flight(state),
        step(state, Input::Check) matches Ok(checking) ==> checking == StateView::Checking
            && step(checking, Input::Seen(EventView::UpToDate)) == Ok::<_, UpdateError>(
            StateView::Idle,
        ),
        !(step(state, Input::Seen(EventView::UpToDate)) matches Ok(next)
            && next is UpdateAvailable),
{
}

/// A flow with an update that downloads and installs passes through every state
/// in order, from wherever it rested: `Checking`, `UpdateAvailable`,
/// `Downloading`, `Downloaded`, `Installing`, `Installed`. However far the count
/// of a download has come, its end leads to `Downloaded`.
pub proof fn lemma_available_update_runs_to_installed(
    state: StateView,
    version: Seq<char>,
    progress: Progress,
)
    ensures
        !in_flight(state) ==> step(state, Input::Check) == Ok::<_, UpdateError>(
            StateView::Checking,
        ),
        step(StateView::Checking, Input::Seen(EventView::Available(version))) == Ok::<
            _,
            UpdateError,
        >(StateView::UpdateAvailable(version)),
        step(StateView::UpdateAvailable(version), Input::Download) == Ok::<_, UpdateError>(
            StateView::Downloading(nothing_received()),
        ),
        step(StateView::Downloading(progress), Input::Seen(EventView::DownloadFinished)) == Ok::<
            _,
            UpdateError,
        >(StateView::Downloaded),
        step(StateView::Downloaded, Input::Install) == Ok::<_, UpdateError>(
            StateView::Installing,
        ),
        step(StateView::Installing, Input::Seen(EventView::InstallFinished)) == Ok::<
            _,
            UpdateError,
        >(StateView::Installed),
{
}

/// A download that fails ends the flow at `Failed` with the reason, however far
/// it had come.
pub proof fn lemma_failed_download_ends_failed(progress: Progress, reason: Seq<char>)
    ensures
        step(
            StateView::Downloading(progress),
            Input::Seen(EventView::DownloadFailed(reason)),
        ) == Ok::<_, UpdateError>(StateView::Failed(FailureView::Download(reason))),
{
}

/// A failed flow and a finished one stay where they are until a check is asked
/// for: nothing is tried again by itself, and the check is always accepted.
pub proof fn lemma_rest_until_checked(state: StateView, input: Input)
    requires
        state is Failed || state is Installed,
    ensures
        step(state, Input::Check) == Ok::<_, UpdateError>(StateView::Checking),
        !(input is Check) ==> (step(state, input) matches Ok(next) ==> next == state),
{
}

/// The report that `chunk` more bytes arrived, as an input.
pub open spec fn progress_report(chunk: u64, total: Option<u64>) -> Input {
    Input::Seen(EventView::Progress { chunk, total })
}

/// Progress reports are advisory: whether one is delivered or lost, every input
/// other than a progress report is answered in the same way afterwards.
pub proof fn lemma_progress_is_advisory(
    state: StateView,
    chunk: u64,
    total: Option<u64>,
    input: Input,
)
    requires
        !(input matches Input::Seen(event) && event is Progress),
    ensures
        step(state, progress_report(chunk, total)) is Ok,
        step(step(state, progress_report(chunk, total))->Ok_0, input) == step(state, input),
{
}

} // verus!
