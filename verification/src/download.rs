//! The download itself, as a machine that the caller drives: each step takes
//! what the last action brought back and says what to do next. The machine
//! touches nothing; whatever reaches the disk, the network or another process
//! does so because the caller carried out an action.

use vstd::prelude::*;
use crate::command::{
    push_arg, run_model, CommandOutput, Invocation, InvocationModel, OutputModel, SpawnError,
};
use crate::outcome::{
    DownloadError, DownloadErrorModel, Outcome, OutcomeModel, ProcessFailure, ProcessFailureModel,
};
use crate::provision::{
    extractor, extractor_model, transcoder, transcoder_model, ProvisionError, ProvisionErrorModel,
    ToolModel, ToolSpec,
};
use crate::sanitize::{sanitize_filename, sanitized};
use crate::text::{contains, has_substring, join2, lossy_text, trim, trimmed};

verus! {

/// Whether `url` names one of the accepted hosts.
pub open spec fn accepted_url(url: Seq<char>) -> bool {
    has_substring(url, "youtube.com"@) || has_substring(url, "youtu.be"@)
}

/// Whether `url` names one of the accepted hosts.
pub fn accepts_url(url: &str) -> (ok: bool)
    ensures
        ok == accepted_url(url@),
{
    contains(url, "youtube.com") || contains(url, "youtu.be")
}

/// The title of a video as the extractor printed it: the text of its
/// standard output without the white space around it.
pub open spec fn title_of(stdout: Seq<u8>) -> Seq<char> {
    trimmed(lossy_text(stdout))
}

/// The run of the extractor that prints the title of the video at `url`.
pub open spec fn title_query_model(extractor: Seq<char>, url: Seq<char>) -> InvocationModel {
    InvocationModel { program: extractor, args: seq!["--print"@, "title"@, url] }
}

/// The file that the audio is written to: the sanitised title with the
/// extension `mp3`, in the chosen directory.
pub open spec fn output_path_model(directory: Seq<char>, title: Seq<char>) -> Seq<char> {
    directory + "/"@ + sanitized(title) + ".mp3"@
}

/// The arguments that tell the extractor where the transcoder is; none where
/// there is no transcoder.
pub open spec fn transcoder_args(transcoder: Option<Seq<char>>) -> Seq<Seq<char>> {
    match transcoder {
        Some(path) => seq!["--ffmpeg-location"@, path],
        None => seq![],
    }
}

/// The run of the extractor that saves the audio of the video at `url`.
pub open spec fn extraction_model(
    extractor: Seq<char>,
    transcoder: Option<Seq<char>>,
    directory: Seq<char>,
    title: Seq<char>,
    url: Seq<char>,
) -> InvocationModel {
    InvocationModel {
        program: extractor,
        args: seq!["-x"@, "--audio-format"@, "mp3"@] + transcoder_args(transcoder) + seq![
            "-o"@,
            output_path_model(directory, title),
            url,
        ],
    }
}

/// The directory that the save dialog opens in where the host names none.
pub open spec fn fallback_directory() -> Seq<char> {
    "~/Downloads"@
}

/// The run of the extractor that prints the title of the video at `url`.
pub fn title_query(extractor: &str, url: &str) -> (inv: Invocation)
    ensures
        inv@ == title_query_model(extractor@, url@),
{
    let mut args: Vec<String> = Vec::new();
    assert(args.deep_view() =~= Seq::<Seq<char>>::empty());
    push_arg(&mut args, "--print".to_string());
    push_arg(&mut args, "title".to_string());
    push_arg(&mut args, url.to_string());
    assert(args.deep_view() =~= seq!["--print"@, "title"@, url@]);
    Invocation { program: extractor.to_string(), args }
}

/// The file that the audio is written to.
pub fn output_path(directory: &str, title: &str) -> (path: String)
    ensures
        path@ == output_path_model(directory@, title@),
{
    let name = sanitize_filename(title);
    let mut path = join2(directory, "/");
    path.append(name.as_str());
    path.append(".mp3");
    path
}

/// The run of the extractor that saves the audio of the video at `url`: it
/// extracts the audio, asks for MP3, names the transcoder where there is one,
/// and gives the output file and the URL.
pub fn extraction_command(
    extractor: &str,
    transcoder: &Option<String>,
    directory: &str,
    title: &str,
    url: &str,
) -> (inv: Invocation)
    ensures
        inv@ == extraction_model(extractor@, transcoder.deep_view(), directory@, title@, url@),
{
    let mut args: Vec<String> = Vec::new();
    assert(args.deep_view() =~= Seq::<Seq<char>>::empty());
    push_arg(&mut args, "-x".to_string());
    push_arg(&mut args, "--audio-format".to_string());
    push_arg(&mut args, "mp3".to_string());
    match transcoder {
        Some(path) => {
            push_arg(&mut args, "--ffmpeg-location".to_string());
            push_arg(&mut args, path.clone());
        },
        None => {},
    }
    push_arg(&mut args, "-o".to_string());
    push_arg(&mut args, output_path(directory, title));
    push_arg(&mut args, url.to_string());
    assert(args.deep_view() =~= extraction_model(
        extractor@,
        transcoder.deep_view(),
        directory@,
        title@,
        url@,
    ).args);
    Invocation { program: extractor.to_string(), args }
}

/// Where a download stands.
#[derive(Debug, PartialEq, Eq)]
pub enum Stage {
    /// The extractor is being provisioned.
    ProvisioningExtractor,
    /// The transcoder is being provisioned.
    ProvisioningTranscoder,
    /// The extractor is asked for the title of the video.
    FetchingTitle,
    /// The host is asked for its default download directory.
    LocatingDownloads,
    /// The user is asked where to save.
    ChoosingLocation,
    /// The extractor is saving the audio.
    Extracting,
    /// The download has ended.
    Done(Outcome),
}

/// The mathematical content of a [`Stage`].
pub enum StageModel {
    ProvisioningExtractor,
    ProvisioningTranscoder,
    FetchingTitle,
    LocatingDownloads,
    ChoosingLocation,
    Extracting,
    Done(OutcomeModel),
}

impl View for Stage {
    type V = StageModel;

    open spec fn view(&self) -> StageModel {
        match self {
            Stage::ProvisioningExtractor => StageModel::ProvisioningExtractor,
            Stage::ProvisioningTranscoder => StageModel::ProvisioningTranscoder,
            Stage::FetchingTitle => StageModel::FetchingTitle,
            Stage::LocatingDownloads => StageModel::LocatingDownloads,
            Stage::ChoosingLocation => StageModel::ChoosingLocation,
            Stage::Extracting => StageModel::Extracting,
            Stage::Done(outcome) => StageModel::Done(outcome@),
        }
    }
}

/// One download in progress: the URL, what has been learnt so far, and the
/// stage. A field holds the empty string until its stage has passed.
#[derive(Debug, PartialEq, Eq)]
pub struct Download {
    pub url: String,
    pub extractor: String,
    pub transcoder: Option<String>,
    pub title: String,
    pub directory: String,
    pub stage: Stage,
}

/// The mathematical content of a [`Download`].
pub struct DownloadModel {
    pub url: Seq<char>,
    pub extractor: Seq<char>,
    pub transcoder: Option<Seq<char>>,
    pub title: Seq<char>,
    pub directory: Seq<char>,
    pub stage: StageModel,
}

impl View for Download {
    type V = DownloadModel;

    open spec fn view(&self) -> DownloadModel {
        DownloadModel {
            url: self.url@,
            extractor: self.extractor@,
            transcoder: self.transcoder.deep_view(),
            title: self.title@,
            directory: self.directory@,
            stage: self.stage@,
        }
    }
}

/// What an action brought back.
#[derive(Debug, PartialEq, Eq)]
pub enum DownloadEvent {
    /// A tool was provisioned, at the given path, or could not be.
    Provisioned(Result<String, ProvisionError>),
    /// A program ran to completion, or could not be started.
    Ran(Result<CommandOutput, SpawnError>),
    /// The default download directory of the host, if it names one.
    DefaultDirectory(Option<String>),
    /// The directory that the user chose, or none if the dialog was dismissed.
    SaveLocation(Option<String>),
}

/// The mathematical content of a [`DownloadEvent`].
pub enum DownloadEventModel {
    Provisioned(Result<Seq<char>, ProvisionErrorModel>),
    Ran(Result<OutputModel, Seq<char>>),
    DefaultDirectory(Option<Seq<char>>),
    SaveLocation(Option<Seq<char>>),
}

impl View for DownloadEvent {
    type V = DownloadEventModel;

    open spec fn view(&self) -> DownloadEventModel {
        match self {
            DownloadEvent::Provisioned(Ok(path)) => DownloadEventModel::Provisioned(Ok(path@)),
            DownloadEvent::Provisioned(Err(e)) => DownloadEventModel::Provisioned(Err(e@)),
            DownloadEvent::Ran(report) => DownloadEventModel::Ran(run_model(*report)),
            DownloadEvent::DefaultDirectory(d) => DownloadEventModel::DefaultDirectory(
                d.deep_view(),
            ),
            DownloadEvent::SaveLocation(d) => DownloadEventModel::SaveLocation(d.deep_view()),
        }
    }
}

/// What the caller is to do next.
#[derive(Debug, PartialEq, Eq)]
pub enum DownloadAction {
    /// Provision this tool and report where it is.
    Provision(ToolSpec),
    /// Run this program to completion and report its output.
    Run(Invocation),
    /// Ask the host for its default download directory.
    AskDefaultDirectory,
    /// Show the save dialog, opened in `directory` with `file_name` filled in.
    /// The file name is the sanitised title, the one that the output file
    /// will bear.
    AskSaveLocation { directory: String, file_name: String },
    /// Nothing is left to do: the download ended in this way.
    Finish(Outcome),
    /// The event is not the answer to the action that is pending. Nothing
    /// has changed, and the pending action is still awaited.
    Unexpected,
}

/// The mathematical content of a [`DownloadAction`].
pub enum DownloadActionModel {
    Provision(ToolModel),
    Run(InvocationModel),
    AskDefaultDirectory,
    AskSaveLocation { directory: Seq<char>, file_name: Seq<char> },
    Finish(OutcomeModel),
    Unexpected,
}

impl View for DownloadAction {
    type V = DownloadActionModel;

    open spec fn view(&self) -> DownloadActionModel {
        match self {
            DownloadAction::Provision(tool) => DownloadActionModel::Provision(tool@),
            DownloadAction::Run(inv) => DownloadActionModel::Run(inv@),
            DownloadAction::AskDefaultDirectory => DownloadActionModel::AskDefaultDirectory,
            DownloadAction::AskSaveLocation { directory, file_name } =>
                DownloadActionModel::AskSaveLocation {
                    directory: directory@,
                    file_name: file_name@,
                },
            DownloadAction::Finish(outcome) => DownloadActionModel::Finish(outcome@),
            DownloadAction::Unexpected => DownloadActionModel::Unexpected,
        }
    }
}

/// The download `s`, ended with `outcome`.
pub open spec fn finished(s: DownloadModel, outcome: OutcomeModel) -> (
    DownloadModel,
    DownloadActionModel,
) {
    (DownloadModel { stage: StageModel::Done(outcome), ..s }, DownloadActionModel::Finish(outcome))
}

/// The download `s`, with the title of the video known: the host is asked
/// next where downloads go.
pub open spec fn titled(s: DownloadModel, title: Seq<char>) -> (
    DownloadModel,
    DownloadActionModel,
) {
    (
        DownloadModel { title, stage: StageModel::LocatingDownloads, ..s },
        DownloadActionModel::AskDefaultDirectory,
    )
}

/// How a download of `url` begins: a URL that names no accepted host ends it
/// at once; any other has the extractor provisioned first.
pub open spec fn begin_model(url: Seq<char>) -> (DownloadModel, DownloadActionModel) {
    let fresh = DownloadModel {
        url,
        extractor: Seq::empty(),
        transcoder: None,
        title: Seq::empty(),
        directory: Seq::empty(),
        stage: StageModel::ProvisioningExtractor,
    };
    if accepted_url(url) {
        (fresh, DownloadActionModel::Provision(extractor_model()))
    } else {
        finished(fresh, OutcomeModel::Failed(DownloadErrorModel::InvalidInput))
    }
}

/// The step that the download `s` takes on `event`.
///
/// The stages follow one another in a line, each with its early exits:
/// a failure to provision the extractor, to fetch the title or to extract ends
/// the download, and so does a dismissed dialog. A failure to provision the
/// transcoder does not: the download goes on without one. A download that has
/// ended stays as it is and repeats its outcome. An event that does not answer
/// the pending action changes nothing.
pub open spec fn step_model(s: DownloadModel, event: DownloadEventModel) -> (
    DownloadModel,
    DownloadActionModel,
) {
    match (s.stage, event) {
        (StageModel::Done(outcome), _) => (s, DownloadActionModel::Finish(outcome)),
        (StageModel::ProvisioningExtractor, DownloadEventModel::Provisioned(Ok(path))) => (
            DownloadModel { extractor: path, stage: StageModel::ProvisioningTranscoder, ..s },
            DownloadActionModel::Provision(transcoder_model()),
        ),
        (StageModel::ProvisioningExtractor, DownloadEventModel::Provisioned(Err(e))) => finished(
            s,
            OutcomeModel::Failed(DownloadErrorModel::Provision(e)),
        ),
        (StageModel::ProvisioningTranscoder, DownloadEventModel::Provisioned(found)) => (
            DownloadModel {
                transcoder: match found {
                    Ok(path) => Some(path),
                    Err(_) => None,
                },
                stage: StageModel::FetchingTitle,
                ..s
            },
            DownloadActionModel::Run(title_query_model(s.extractor, s.url)),
        ),
        (StageModel::FetchingTitle, DownloadEventModel::Ran(Err(detail))) => finished(
            s,
            OutcomeModel::Failed(
                DownloadErrorModel::Metadata(ProcessFailureModel::NotStarted(detail)),
            ),
        ),
        (StageModel::FetchingTitle, DownloadEventModel::Ran(Ok(output))) => if output.succeeded() {
            titled(s, title_of(output.stdout))
        } else {
            finished(
                s,
                OutcomeModel::Failed(
                    DownloadErrorModel::Metadata(
                        ProcessFailureModel::Failed(lossy_text(output.stderr)),
                    ),
                ),
            )
        },
        (StageModel::LocatingDownloads, DownloadEventModel::DefaultDirectory(found)) => (
            DownloadModel { stage: StageModel::ChoosingLocation, ..s },
            DownloadActionModel::AskSaveLocation {
                directory: match found {
                    Some(directory) => directory,
                    None => fallback_directory(),
                },
                file_name: sanitized(s.title),
            },
        ),
        (StageModel::ChoosingLocation, DownloadEventModel::SaveLocation(None)) => finished(
            s,
            OutcomeModel::Canceled,
        ),
        (StageModel::ChoosingLocation, DownloadEventModel::SaveLocation(Some(directory))) => (
            DownloadModel { directory, stage: StageModel::Extracting, ..s },
            DownloadActionModel::Run(
                extraction_model(s.extractor, s.transcoder, directory, s.title, s.url),
            ),
        ),
        (StageModel::Extracting, DownloadEventModel::Ran(Err(detail))) => finished(
            s,
            OutcomeModel::Failed(
                DownloadErrorModel::Execution(ProcessFailureModel::NotStarted(detail)),
            ),
        ),
        (StageModel::Extracting, DownloadEventModel::Ran(Ok(output))) => if output.succeeded() {
            finished(s, OutcomeModel::Saved(s.directory))
        } else {
            finished(
                s,
                OutcomeModel::Failed(
                    DownloadErrorModel::Execution(
                        ProcessFailureModel::Failed(lossy_text(output.stderr)),
                    ),
                ),
            )
        },
        _ => (s, DownloadActionModel::Unexpected),
    }
}

impl Download {
    /// Ends this download with `outcome`.
    fn finish(self, outcome: Outcome) -> (next: (Download, DownloadAction))
        ensures
            (next.0@, next.1@) == finished(self@, outcome@),
    {
        let report = outcome.duplicate();
        (Download { stage: Stage::Done(outcome), ..self }, DownloadAction::Finish(report))
    }

    /// Begins a download of `url`.
    pub fn begin(url: String) -> (next: (Download, DownloadAction))
        ensures
            (next.0@, next.1@) == begin_model(url@),
    {
        let ok = accepts_url(url.as_str());
        let fresh = Download {
            url,
            extractor: String::new(),
            transcoder: None,
            title: String::new(),
            directory: String::new(),
            stage: Stage::ProvisioningExtractor,
        };
        if ok {
            (fresh, DownloadAction::Provision(extractor()))
        } else {
            fresh.finish(Outcome::Failed(DownloadError::InvalidInput))
        }
    }

    /// Takes the step that follows a title query that succeeded: keeps the
    /// title and asks for the default download directory.
    pub fn with_title(self, title: String) -> (next: (Download, DownloadAction))
        ensures
            (next.0@, next.1@) == titled(self@, title@),
    {
        (
            Download { title, stage: Stage::LocatingDownloads, ..self },
            DownloadAction::AskDefaultDirectory,
        )
    }

    /// Takes the step that `event` calls for.
    pub fn step(self, event: DownloadEvent) -> (next: (Download, DownloadAction))
        ensures
            (next.0@, next.1@) == step_model(self@, event@),
    {
        match (&self.stage, event) {
            (Stage::Done(outcome), _) => {
                let report = outcome.duplicate();
                (self, DownloadAction::Finish(report))
            },
            (Stage::ProvisioningExtractor, DownloadEvent::Provisioned(Ok(path))) => (
                Download { extractor: path, stage: Stage::ProvisioningTranscoder, ..self },
                DownloadAction::Provision(transcoder()),
            ),
            (Stage::ProvisioningExtractor, DownloadEvent::Provisioned(Err(e))) => self.finish(
                Outcome::Failed(DownloadError::Provision(e)),
            ),
            (Stage::ProvisioningTranscoder, DownloadEvent::Provisioned(found)) => {
                let query = title_query(self.extractor.as_str(), self.url.as_str());
                let located = match found {
                    Ok(path) => Some(path),
                    Err(_) => None,
                };
                (
                    Download { transcoder: located, stage: Stage::FetchingTitle, ..self },
                    DownloadAction::Run(query),
                )
            },
            (Stage::FetchingTitle, DownloadEvent::Ran(Err(e))) => self.finish(
                Outcome::Failed(DownloadError::Metadata(ProcessFailure::NotStarted(e.detail))),
            ),
            (Stage::FetchingTitle, DownloadEvent::Ran(Ok(output))) => {
                if output.success() {
                    let text = output.stdout_text();
                    self.with_title(trim(text.as_str()))
                } else {
                    let complaint = output.stderr_text();
                    self.finish(
                        Outcome::Failed(DownloadError::Metadata(ProcessFailure::Failed(complaint))),
                    )
                }
            },
            (Stage::LocatingDownloads, DownloadEvent::DefaultDirectory(found)) => {
                let directory = match found {
                    Some(directory) => directory,
                    None => "~/Downloads".to_string(),
                };
                let file_name = sanitize_filename(self.title.as_str());
                (
                    Download { stage: Stage::ChoosingLocation, ..self },
                    DownloadAction::AskSaveLocation { directory, file_name },
                )
            },
            (Stage::ChoosingLocation, DownloadEvent::SaveLocation(None)) => self.finish(
                Outcome::Canceled,
            ),
            (Stage::ChoosingLocation, DownloadEvent::SaveLocation(Some(directory))) => {
                let run = extraction_command(
                    self.extractor.as_str(),
                    &self.transcoder,
                    directory.as_str(),
                    self.title.as_str(),
                    self.url.as_str(),
                );
                (
                    Download { directory, stage: Stage::Extracting, ..self },
                    DownloadAction::Run(run),
                )
            },
            (Stage::Extracting, DownloadEvent::Ran(Err(e))) => self.finish(
                Outcome::Failed(DownloadError::Execution(ProcessFailure::NotStarted(e.detail))),
            ),
            (Stage::Extracting, DownloadEvent::Ran(Ok(output))) => {
                if output.success() {
                    let saved = self.directory.clone();
                    self.finish(Outcome::Saved(saved))
                } else {
                    let complaint = output.stderr_text();
                    self.finish(
                        Outcome::Failed(DownloadError::Execution(ProcessFailure::Failed(complaint))),
                    )
                }
            },
            _ => (self, DownloadAction::Unexpected),
        }
    }
}

/// The actions that the download `s` calls for as `events` arrive one by one.
pub open spec fn actions_from(s: DownloadModel, events: Seq<DownloadEventModel>) -> Seq<
    DownloadActionModel,
>
    decreases events.len(),
{
    if events.len() == 0 {
        Seq::empty()
    } else {
        let (next, action) = step_model(s, events.first());
        seq![action] + actions_from(next, events.drop_first())
    }
}

/// A download that has ended calls for nothing more: whatever arrives, it
/// repeats its outcome.
pub proof fn lemma_ended_download_stays_ended(
    s: DownloadModel,
    outcome: OutcomeModel,
    events: Seq<DownloadEventModel>,
)
    requires
        s.stage == StageModel::Done(outcome),
    ensures
        actions_from(s, events).len() == events.len(),
        forall|i: int|
            0 <= i < events.len() ==> #[trigger] actions_from(s, events)[i]
                == DownloadActionModel::Finish(outcome),
    decreases events.len(),
{
    if events.len() > 0 {
        lemma_ended_download_stays_ended(s, outcome, events.drop_first());
        assert forall|i: int| 0 <= i < events.len() implies #[trigger] actions_from(s, events)[i]
            == DownloadActionModel::Finish(outcome) by {
            if i > 0 {
                assert(actions_from(s, events)[i] == actions_from(s, events.drop_first())[i - 1]);
            }
        }
    }
}

/// A URL that names no accepted host is refused before anything is touched:
/// the download ends at once as invalid input, and no action that it ever
/// calls for reaches the disk, the network or another program.
pub proof fn lemma_rejected_url_touches_nothing(url: Seq<char>, events: Seq<DownloadEventModel>)
    requires
        !accepted_url(url),
    ensures
        begin_model(url).1 == DownloadActionModel::Finish(
            OutcomeModel::Failed(DownloadErrorModel::InvalidInput),
        ),
        forall|i: int|
            0 <= i < events.len() ==> #[trigger] actions_from(begin_model(url).0, events)[i]
                == DownloadActionModel::Finish(
                OutcomeModel::Failed(DownloadErrorModel::InvalidInput),
            ),
{
    lemma_ended_download_stays_ended(
        begin_model(url).0,
        OutcomeModel::Failed(DownloadErrorModel::InvalidInput),
        events,
    );
}

/// Where the extractor cannot be provisioned, the download ends with that
/// error, and neither the title query, nor a dialog, nor the extraction is
/// ever called for.
pub proof fn lemma_extractor_failure_ends_download(
    s: DownloadModel,
    error: ProvisionErrorModel,
    events: Seq<DownloadEventModel>,
)
    requires
        s.stage == StageModel::ProvisioningExtractor,
    ensures
        forall|i: int|
            0 <= i <= events.len() ==> #[trigger] actions_from(
                s,
                seq![DownloadEventModel::Provisioned(Err(error))] + events,
            )[i] == DownloadActionModel::Finish(
                OutcomeModel::Failed(DownloadErrorModel::Provision(error)),
            ),
{
    let outcome = OutcomeModel::Failed(DownloadErrorModel::Provision(error));
    let all = seq![DownloadEventModel::Provisioned(Err(error))] + events;
    let next = step_model(s, all.first()).0;
    assert(all.drop_first() =~= events);
    lemma_ended_download_stays_ended(next, outcome, events);
    assert forall|i: int| 0 <= i <= events.len() implies #[trigger] actions_from(s, all)[i]
        == DownloadActionModel::Finish(outcome) by {
        if i > 0 {
            assert(actions_from(s, all)[i] == actions_from(next, events)[i - 1]);
        }
    }
}

/// Where the transcoder cannot be provisioned, the download goes on all the
/// same: the title is fetched, the user is asked, and the extraction is run,
/// with no argument that names a transcoder.
pub proof fn lemma_missing_transcoder_is_tolerated(
    s: DownloadModel,
    error: ProvisionErrorModel,
    output: OutputModel,
    default_directory: Option<Seq<char>>,
    chosen: Seq<char>,
)
    requires
        s.stage == StageModel::ProvisioningTranscoder,
        output.succeeded(),
    ensures
        ({
            let actions = actions_from(
                s,
                seq![
                    DownloadEventModel::Provisioned(Err(error)),
                    DownloadEventModel::Ran(Ok(output)),
                    DownloadEventModel::DefaultDirectory(default_directory),
                    DownloadEventModel::SaveLocation(Some(chosen)),
                ],
            );
            &&& actions.len() == 4
            &&& actions[0] == DownloadActionModel::Run(title_query_model(s.extractor, s.url))
            &&& actions[1] == DownloadActionModel::AskDefaultDirectory
            &&& actions[2] == DownloadActionModel::AskSaveLocation {
                directory: match default_directory {
                    Some(directory) => directory,
                    None => fallback_directory(),
                },
                file_name: sanitized(title_of(output.stdout)),
            }
            &&& actions[3] == DownloadActionModel::Run(
                InvocationModel {
                    program: s.extractor,
                    args: seq![
                        "-x"@,
                        "--audio-format"@,
                        "mp3"@,
                        "-o"@,
                        output_path_model(chosen, title_of(output.stdout)),
                        s.url,
                    ],
                },
            )
        }),
{
    let e0 = DownloadEventModel::Provisioned(Err(error));
    let e1 = DownloadEventModel::Ran(Ok(output));
    let e2 = DownloadEventModel::DefaultDirectory(default_directory);
    let e3 = DownloadEventModel::SaveLocation(Some(chosen));
    let all = seq![e0, e1, e2, e3];
    let s1 = step_model(s, e0).0;
    let s2 = step_model(s1, e1).0;
    let s3 = step_model(s2, e2).0;
    let s4 = step_model(s3, e3).0;
    assert(all.drop_first() =~= seq![e1, e2, e3]);
    assert(seq![e1, e2, e3].drop_first() =~= seq![e2, e3]);
    assert(seq![e2, e3].drop_first() =~= seq![e3]);
    assert(seq![e3].drop_first() =~= Seq::<DownloadEventModel>::empty());
    assert(actions_from(s4, Seq::<DownloadEventModel>::empty()).len() == 0);
    assert(actions_from(s3, seq![e3]) =~= seq![step_model(s3, e3).1]);
    assert(actions_from(s2, seq![e2, e3]) =~= seq![step_model(s2, e2).1, step_model(s3, e3).1]);
    assert(actions_from(s1, seq![e1, e2, e3]) =~= seq![
        step_model(s1, e1).1,
        step_model(s2, e2).1,
        step_model(s3, e3).1,
    ]);
    assert(actions_from(s, all) =~= seq![
        step_model(s, e0).1,
        step_model(s1, e1).1,
        step_model(s2, e2).1,
        step_model(s3, e3).1,
    ]);
    assert(extraction_model(s.extractor, None, chosen, title_of(output.stdout), s.url).args
        =~= seq![
        "-x"@,
        "--audio-format"@,
        "mp3"@,
        "-o"@,
        output_path_model(chosen, title_of(output.stdout)),
        s.url,
    ]);
}

/// Where the user dismisses the save dialog, the download ends as canceled,
/// and the extraction is never called for.
pub proof fn lemma_dismissed_dialog_ends_download(
    s: DownloadModel,
    events: Seq<DownloadEventModel>,
)
    requires
        s.stage == StageModel::ChoosingLocation,
    ensures
        forall|i: int|
            0 <= i <= events.len() ==> #[trigger] actions_from(
                s,
                seq![DownloadEventModel::SaveLocation(None)] + events,
            )[i] == DownloadActionModel::Finish(OutcomeModel::Canceled),
{
    let all = seq![DownloadEventModel::SaveLocation(None)] + events;
    let next = step_model(s, all.first()).0;
    assert(all.drop_first() =~= events);
    lemma_ended_download_stays_ended(next, OutcomeModel::Canceled, events);
    assert forall|i: int| 0 <= i <= events.len() implies #[trigger] actions_from(s, all)[i]
        == DownloadActionModel::Finish(OutcomeModel::Canceled) by {
        if i > 0 {
            assert(actions_from(s, all)[i] == actions_from(next, events)[i - 1]);
        }
    }
}

} // verus!
