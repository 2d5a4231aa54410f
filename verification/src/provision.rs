//! Provisioning of the external tools: each is looked for beside the
//! application's own executable, and fetched and installed where it is absent.

use vstd::prelude::*;
use crate::archive::{
    extract_entry, extracted, first_match, result_model, zip_directory, zip_entry,
    ExtractionError, ExtractionErrorModel,
};
use crate::command::{
    push_arg, run_model, CommandOutput, Invocation, InvocationModel, OutputModel, SpawnError,
};
use crate::text::join2;

verus! {

/// The form in which a tool is distributed.
#[derive(Clone, Copy, PartialEq, Eq, Structural, Debug)]
pub enum Distribution {
    /// The download is the executable itself.
    Executable,
    /// The download is a zip archive that holds the executable.
    Archive,
}

/// A tool to provision: the file name it is installed under, where it is
/// fetched from, and in which form.
#[derive(Debug, PartialEq, Eq)]
pub struct ToolSpec {
    pub name: String,
    pub source: String,
    pub distribution: Distribution,
}

/// The mathematical content of a [`ToolSpec`].
pub struct ToolModel {
    pub name: Seq<char>,
    pub source: Seq<char>,
    pub distribution: Distribution,
}

impl View for ToolSpec {
    type V = ToolModel;

    open spec fn view(&self) -> ToolModel {
        ToolModel { name: self.name@, source: self.source@, distribution: self.distribution }
    }
}

/// The extractor: a single executable, fetched from its latest release.
pub open spec fn extractor_model() -> ToolModel {
    ToolModel {
        name: "yt-dlp"@,
        source: "https://github.com/yt-dlp/yt-dlp/releases/latest/download/yt-dlp"@,
        distribution: Distribution::Executable,
    }
}

/// The transcoder: an executable inside an archive of one pinned build.
pub open spec fn transcoder_model() -> ToolModel {
    ToolModel {
        name: "ffmpeg"@,
        source: "https://evermeet.cx/ffmpeg/ffmpeg-118896-g9f0970ee35.zip"@,
        distribution: Distribution::Archive,
    }
}

/// The tool that fetches the audio of a video. The pipeline cannot do without it.
pub fn extractor() -> (tool: ToolSpec)
    ensures
        tool@ == extractor_model(),
{
    ToolSpec {
        name: "yt-dlp".to_string(),
        source: "https://github.com/yt-dlp/yt-dlp/releases/latest/download/yt-dlp".to_string(),
        distribution: Distribution::Executable,
    }
}

/// The tool that converts between audio formats. The extractor uses it where
/// it is there; the pipeline goes on without it where it is not.
pub fn transcoder() -> (tool: ToolSpec)
    ensures
        tool@ == transcoder_model(),
{
    ToolSpec {
        name: "ffmpeg".to_string(),
        source: "https://evermeet.cx/ffmpeg/ffmpeg-118896-g9f0970ee35.zip".to_string(),
        distribution: Distribution::Archive,
    }
}

/// The step of provisioning that failed.
#[derive(Clone, Copy, PartialEq, Eq, Structural, Debug)]
pub enum Fault {
    /// The directory to install into could not be determined.
    Location,
    /// The transfer failed, or the transfer tool could not be started.
    Fetch,
    /// The archive could not be read, holds no matching entry, or the entry
    /// could not be written out.
    Extraction,
    /// The file could not be marked executable.
    Permission,
}

/// Why a tool could not be provisioned.
#[derive(Debug, PartialEq, Eq)]
pub struct ProvisionError {
    pub fault: Fault,
    pub detail: String,
}

/// The mathematical content of a [`ProvisionError`].
pub struct ProvisionErrorModel {
    pub fault: Fault,
    pub detail: Seq<char>,
}

impl View for ProvisionError {
    type V = ProvisionErrorModel;

    open spec fn view(&self) -> ProvisionErrorModel {
        ProvisionErrorModel { fault: self.fault, detail: self.detail@ }
    }
}

impl ProvisionError {
    /// A copy of this error.
    pub fn duplicate(&self) -> (copy: ProvisionError)
        ensures
            copy@ == self@,
    {
        ProvisionError { fault: self.fault, detail: self.detail.clone() }
    }
}

/// The path of the file `name` in the directory `directory`.
pub open spec fn install_path(directory: Seq<char>, name: Seq<char>) -> Seq<char> {
    directory + "/"@ + name
}

/// The path a tool is installed under: the file `name` in `directory`.
pub fn tool_path(directory: &str, name: &str) -> (path: String)
    ensures
        path@ == install_path(directory@, name@),
{
    let mut path = join2(directory, "/");
    path.append(name);
    path
}

/// What is known of the directory that holds the application's executable,
/// which is where the tools are installed.
#[derive(Debug, PartialEq, Eq)]
pub enum InstallLocation {
    /// The directory.
    Directory(String),
    /// The executable has no directory above it.
    Unknown,
    /// The system could not say where the executable is; its account.
    Unavailable(String),
}

/// The mathematical content of an [`InstallLocation`].
pub enum InstallLocationModel {
    Directory(Seq<char>),
    Unknown,
    Unavailable(Seq<char>),
}

impl View for InstallLocation {
    type V = InstallLocationModel;

    open spec fn view(&self) -> InstallLocationModel {
        match self {
            InstallLocation::Directory(d) => InstallLocationModel::Directory(d@),
            InstallLocation::Unknown => InstallLocationModel::Unknown,
            InstallLocation::Unavailable(d) => InstallLocationModel::Unavailable(d@),
        }
    }
}

/// Where the provisioning of one tool stands.
#[derive(Debug, PartialEq, Eq)]
pub enum Phase {
    /// The tool is looked for at its path.
    Probing,
    /// The tool is being fetched.
    Fetching,
    /// The executable taken out of the archive is being written.
    Writing,
    /// The file is being marked executable.
    Marking,
    /// The tool is at its path.
    Installed,
    /// The tool could not be provisioned.
    Failed(ProvisionError),
}

/// The mathematical content of a [`Phase`].
pub enum PhaseModel {
    Probing,
    Fetching,
    Writing,
    Marking,
    Installed,
    Failed(ProvisionErrorModel),
}

impl View for Phase {
    type V = PhaseModel;

    open spec fn view(&self) -> PhaseModel {
        match self {
            Phase::Probing => PhaseModel::Probing,
            Phase::Fetching => PhaseModel::Fetching,
            Phase::Writing => PhaseModel::Writing,
            Phase::Marking => PhaseModel::Marking,
            Phase::Installed => PhaseModel::Installed,
            Phase::Failed(e) => PhaseModel::Failed(e@),
        }
    }
}

/// The provisioning of one tool in progress.
#[derive(Debug, PartialEq, Eq)]
pub struct Provisioner {
    pub tool: ToolSpec,
    pub path: String,
    pub phase: Phase,
}

/// The mathematical content of a [`Provisioner`].
pub struct ProvisionerModel {
    pub tool: ToolModel,
    pub path: Seq<char>,
    pub phase: PhaseModel,
}

impl View for Provisioner {
    type V = ProvisionerModel;

    open spec fn view(&self) -> ProvisionerModel {
        ProvisionerModel { tool: self.tool@, path: self.path@, phase: self.phase@ }
    }
}

/// Why a download brought no bytes.
#[derive(Debug, PartialEq, Eq)]
pub enum FetchFailure {
    /// The request failed; the account of it.
    Request(String),
    /// The request was answered and the body could not be read; the account
    /// of it.
    Body(String),
}

/// The mathematical content of a [`FetchFailure`].
pub enum FetchFailureModel {
    Request(Seq<char>),
    Body(Seq<char>),
}

impl View for FetchFailure {
    type V = FetchFailureModel;

    open spec fn view(&self) -> FetchFailureModel {
        match self {
            FetchFailure::Request(d) => FetchFailureModel::Request(d@),
            FetchFailure::Body(d) => FetchFailureModel::Body(d@),
        }
    }
}

/// What an action brought back.
#[derive(Debug, PartialEq, Eq)]
pub enum ProvisionEvent {
    /// Whether a file is at the path that was probed.
    Presence(bool),
    /// A program ran to completion, or could not be started.
    Ran(Result<CommandOutput, SpawnError>),
    /// The bytes that were downloaded, or why the download failed.
    Downloaded(Result<Vec<u8>, FetchFailure>),
    /// The file was written, or why it could not be.
    Written(Result<(), String>),
}

/// The mathematical content of a [`ProvisionEvent`].
pub enum ProvisionEventModel {
    Presence(bool),
    Ran(Result<OutputModel, Seq<char>>),
    Downloaded(Result<Seq<u8>, FetchFailureModel>),
    Written(Result<(), Seq<char>>),
}

impl View for ProvisionEvent {
    type V = ProvisionEventModel;

    open spec fn view(&self) -> ProvisionEventModel {
        match self {
            ProvisionEvent::Presence(found) => ProvisionEventModel::Presence(*found),
            ProvisionEvent::Ran(report) => ProvisionEventModel::Ran(run_model(*report)),
            ProvisionEvent::Downloaded(Ok(bytes)) => ProvisionEventModel::Downloaded(Ok(bytes@)),
            ProvisionEvent::Downloaded(Err(f)) => ProvisionEventModel::Downloaded(Err(f@)),
            ProvisionEvent::Written(Ok(_)) => ProvisionEventModel::Written(Ok(())),
            ProvisionEvent::Written(Err(d)) => ProvisionEventModel::Written(Err(d@)),
        }
    }
}

/// What the caller is to do next.
#[derive(Debug, PartialEq, Eq)]
pub enum ProvisionAction {
    /// Report whether a file is at this path.
    Probe(String),
    /// Run this program to completion and report how it went.
    Run(Invocation),
    /// Fetch what is at this URL into memory and report the bytes.
    Download(String),
    /// Write `data` to the file at `path`.
    Write { path: String, data: Vec<u8> },
    /// Nothing is left to do: the tool is at the given path, or could not be
    /// provisioned.
    Finish(Result<String, ProvisionError>),
    /// The event is not the answer to the action that is pending. Nothing
    /// has changed, and the pending action is still awaited.
    Unexpected,
}

/// The mathematical content of a [`ProvisionAction`].
pub enum ProvisionActionModel {
    Probe(Seq<char>),
    Run(InvocationModel),
    Download(Seq<char>),
    Write { path: Seq<char>, data: Seq<u8> },
    Finish(Result<Seq<char>, ProvisionErrorModel>),
    Unexpected,
}

impl View for ProvisionAction {
    type V = ProvisionActionModel;

    open spec fn view(&self) -> ProvisionActionModel {
        match self {
            ProvisionAction::Probe(path) => ProvisionActionModel::Probe(path@),
            ProvisionAction::Run(inv) => ProvisionActionModel::Run(inv@),
            ProvisionAction::Download(url) => ProvisionActionModel::Download(url@),
            ProvisionAction::Write { path, data } => ProvisionActionModel::Write {
                path: path@,
                data: data@,
            },
            ProvisionAction::Finish(Ok(path)) => ProvisionActionModel::Finish(Ok(path@)),
            ProvisionAction::Finish(Err(e)) => ProvisionActionModel::Finish(Err(e@)),
            ProvisionAction::Unexpected => ProvisionActionModel::Unexpected,
        }
    }
}

/// The run of the transfer tool that fetches `source` to the file `path`,
/// following redirections.
pub open spec fn transfer_model(source: Seq<char>, path: Seq<char>) -> InvocationModel {
    InvocationModel { program: "curl"@, args: seq!["-L"@, source, "-o"@, path] }
}

/// The run of the permission tool that marks the file `path` executable.
pub open spec fn mark_model(path: Seq<char>) -> InvocationModel {
    InvocationModel { program: "chmod"@, args: seq!["+x"@, path] }
}

/// How a download that brought no bytes is worded.
pub open spec fn fetch_detail(f: FetchFailureModel) -> Seq<char> {
    match f {
        FetchFailureModel::Request(d) => "Download failed: "@ + d,
        FetchFailureModel::Body(d) => "Read failed: "@ + d,
    }
}

/// How a failure to take the tool `name` out of its archive is worded.
pub open spec fn extraction_detail(e: ExtractionErrorModel, name: Seq<char>) -> Seq<char> {
    match e {
        ExtractionErrorModel::InvalidArchive(text) => "Zip parse failed: "@ + text,
        ExtractionErrorModel::EntryNotFound => name + " not found in zip"@,
        ExtractionErrorModel::UnreadableEntry(text) => text,
    }
}

/// The provisioning `s`, ended in failure.
pub open spec fn failed(s: ProvisionerModel, fault: Fault, detail: Seq<char>) -> (
    ProvisionerModel,
    ProvisionActionModel,
) {
    let e = ProvisionErrorModel { fault, detail };
    (ProvisionerModel { phase: PhaseModel::Failed(e), ..s }, ProvisionActionModel::Finish(Err(e)))
}

/// The provisioning `s`, ended with the tool at its path.
pub open spec fn installed(s: ProvisionerModel) -> (ProvisionerModel, ProvisionActionModel) {
    (
        ProvisionerModel { phase: PhaseModel::Installed, ..s },
        ProvisionActionModel::Finish(Ok(s.path)),
    )
}

/// The provisioning `s`, with the file in place and to be marked executable.
pub open spec fn marking(s: ProvisionerModel) -> (ProvisionerModel, ProvisionActionModel) {
    (
        ProvisionerModel { phase: PhaseModel::Marking, ..s },
        ProvisionActionModel::Run(mark_model(s.path)),
    )
}

/// How the provisioning of `tool` begins: with a look at the path that the
/// tool is installed under, beside the application's executable; or, where
/// that place is not known, with a failure.
pub open spec fn begin_model(tool: ToolModel, location: InstallLocationModel) -> (
    ProvisionerModel,
    ProvisionActionModel,
) {
    match location {
        InstallLocationModel::Directory(directory) => {
            let path = install_path(directory, tool.name);
            (
                ProvisionerModel { tool, path, phase: PhaseModel::Probing },
                ProvisionActionModel::Probe(path),
            )
        },
        InstallLocationModel::Unknown => failed(
            ProvisionerModel { tool, path: Seq::empty(), phase: PhaseModel::Probing },
            Fault::Location,
            "Failed to determine app directory"@,
        ),
        InstallLocationModel::Unavailable(detail) => failed(
            ProvisionerModel { tool, path: Seq::empty(), phase: PhaseModel::Probing },
            Fault::Location,
            detail,
        ),
    }
}

/// The step that the provisioning `s` takes once the archive has been looked
/// through: the entry is written out, or the provisioning has failed.
pub open spec fn after_extraction_model(
    s: ProvisionerModel,
    result: Result<Seq<u8>, ExtractionErrorModel>,
) -> (ProvisionerModel, ProvisionActionModel) {
    match result {
        Ok(data) => (
            ProvisionerModel { phase: PhaseModel::Writing, ..s },
            ProvisionActionModel::Write { path: s.path, data },
        ),
        Err(e) => failed(s, Fault::Extraction, extraction_detail(e, s.tool.name)),
    }
}

/// The step that the provisioning `s` takes on `event`.
///
/// A tool that is at its path is taken as it is: nothing is fetched and
/// nothing about the file is checked. A tool that is absent is fetched: an
/// executable by a run of the transfer tool, an archive into memory, from
/// which the first entry whose name ends with the tool's name is taken and
/// written out. The file is then marked executable, and a tool whose file
/// could not be marked is not installed: a permission tool that cannot be
/// started, or that exits with a failure, fails the provisioning of either
/// kind of tool. A provisioning that has ended stays as it is and repeats its
/// result. An event that does not answer the pending action changes nothing.
pub open spec fn step_model(s: ProvisionerModel, event: ProvisionEventModel) -> (
    ProvisionerModel,
    ProvisionActionModel,
) {
    match (s.phase, s.tool.distribution, event) {
        (PhaseModel::Installed, _, _) => (s, ProvisionActionModel::Finish(Ok(s.path))),
        (PhaseModel::Failed(e), _, _) => (s, ProvisionActionModel::Finish(Err(e))),
        (PhaseModel::Probing, _, ProvisionEventModel::Presence(true)) => installed(s),
        (PhaseModel::Probing, Distribution::Executable, ProvisionEventModel::Presence(false)) => (
            ProvisionerModel { phase: PhaseModel::Fetching, ..s },
            ProvisionActionModel::Run(transfer_model(s.tool.source, s.path)),
        ),
        (PhaseModel::Probing, Distribution::Archive, ProvisionEventModel::Presence(false)) => (
            ProvisionerModel { phase: PhaseModel::Fetching, ..s },
            ProvisionActionModel::Download(s.tool.source),
        ),
        (PhaseModel::Fetching, Distribution::Executable, ProvisionEventModel::Ran(Err(detail))) =>
            failed(s, Fault::Fetch, "Failed to run curl: "@ + detail),
        (PhaseModel::Fetching, Distribution::Executable, ProvisionEventModel::Ran(Ok(output))) =>
            if output.succeeded() {
                marking(s)
            } else {
                failed(s, Fault::Fetch, "Failed to download "@ + s.tool.name)
            },
        (PhaseModel::Fetching, Distribution::Archive, ProvisionEventModel::Downloaded(Err(f))) =>
            failed(s, Fault::Fetch, fetch_detail(f)),
        (PhaseModel::Fetching, Distribution::Archive, ProvisionEventModel::Downloaded(Ok(bytes))) =>
            after_extraction_model(s, extracted(bytes, s.tool.name)),
        (PhaseModel::Writing, _, ProvisionEventModel::Written(Ok(_))) => marking(s),
        (PhaseModel::Writing, _, ProvisionEventModel::Written(Err(detail))) => failed(
            s,
            Fault::Extraction,
            detail,
        ),
        (PhaseModel::Marking, _, ProvisionEventModel::Ran(Err(detail))) => failed(
            s,
            Fault::Permission,
            "Failed to chmod: "@ + detail,
        ),
        (PhaseModel::Marking, _, ProvisionEventModel::Ran(Ok(output))) => if output.succeeded() {
            installed(s)
        } else {
            failed(s, Fault::Permission, "chmod failed for "@ + s.tool.name)
        },
        _ => (s, ProvisionActionModel::Unexpected),
    }
}

/// The run of the transfer tool that fetches `source` to the file `path`.
pub fn transfer_command(source: &str, path: &str) -> (inv: Invocation)
    ensures
        inv@ == transfer_model(source@, path@),
{
    let mut args: Vec<String> = Vec::new();
    assert(args.deep_view() =~= Seq::<Seq<char>>::empty());
    push_arg(&mut args, "-L".to_string());
    push_arg(&mut args, source.to_string());
    push_arg(&mut args, "-o".to_string());
    push_arg(&mut args, path.to_string());
    assert(args.deep_view() =~= seq!["-L"@, source@, "-o"@, path@]);
    Invocation { program: "curl".to_string(), args }
}

/// The run of the permission tool that marks the file `path` executable.
pub fn mark_command(path: &str) -> (inv: Invocation)
    ensures
        inv@ == mark_model(path@),
{
    let mut args: Vec<String> = Vec::new();
    assert(args.deep_view() =~= Seq::<Seq<char>>::empty());
    push_arg(&mut args, "+x".to_string());
    push_arg(&mut args, path.to_string());
    assert(args.deep_view() =~= seq!["+x"@, path@]);
    Invocation { program: "chmod".to_string(), args }
}

/// How a download that brought no bytes is worded.
pub fn describe_fetch_failure(f: FetchFailure) -> (detail: String)
    ensures
        detail@ == fetch_detail(f@),
{
    match f {
        FetchFailure::Request(d) => join2("Download failed: ", d.as_str()),
        FetchFailure::Body(d) => join2("Read failed: ", d.as_str()),
    }
}

/// How a failure to take the tool `name` out of its archive is worded.
pub fn describe_extraction_failure(e: ExtractionError, name: &str) -> (detail: String)
    ensures
        detail@ == extraction_detail(e@, name@),
{
    match e {
        ExtractionError::InvalidArchive(text) => join2("Zip parse failed: ", text.as_str()),
        ExtractionError::EntryNotFound => join2(name, " not found in zip"),
        ExtractionError::UnreadableEntry(text) => text,
    }
}

impl Provisioner {
    /// Ends this provisioning in failure.
    fn fail(self, fault: Fault, detail: String) -> (next: (Provisioner, ProvisionAction))
        ensures
            (next.0@, next.1@) == failed(self@, fault, detail@),
    {
        let e = ProvisionError { fault, detail };
        let report = e.duplicate();
        (Provisioner { phase: Phase::Failed(e), ..self }, ProvisionAction::Finish(Err(report)))
    }

    /// Ends this provisioning with the tool at its path.
    fn install(self) -> (next: (Provisioner, ProvisionAction))
        ensures
            (next.0@, next.1@) == installed(self@),
    {
        let at = self.path.clone();
        (Provisioner { phase: Phase::Installed, ..self }, ProvisionAction::Finish(Ok(at)))
    }

    /// Goes on to mark the file executable.
    fn mark(self) -> (next: (Provisioner, ProvisionAction))
        ensures
            (next.0@, next.1@) == marking(self@),
    {
        let run = mark_command(self.path.as_str());
        (Provisioner { phase: Phase::Marking, ..self }, ProvisionAction::Run(run))
    }

    /// Begins the provisioning of `tool`.
    pub fn begin(tool: ToolSpec, location: InstallLocation) -> (next: (
        Provisioner,
        ProvisionAction,
    ))
        ensures
            (next.0@, next.1@) == begin_model(tool@, location@),
    {
        match location {
            InstallLocation::Directory(directory) => {
                let path = tool_path(directory.as_str(), tool.name.as_str());
                let probe = path.clone();
                (Provisioner { tool, path, phase: Phase::Probing }, ProvisionAction::Probe(probe))
            },
            InstallLocation::Unknown => {
                let blank = Provisioner { tool, path: String::new(), phase: Phase::Probing };
                blank.fail(Fault::Location, "Failed to determine app directory".to_string())
            },
            InstallLocation::Unavailable(detail) => {
                let blank = Provisioner { tool, path: String::new(), phase: Phase::Probing };
                blank.fail(Fault::Location, detail)
            },
        }
    }

    /// Takes the step that follows the search of the archive: with the
    /// content of the entry, has it written to the tool's path; with an
    /// error, ends the provisioning in failure.
    pub fn after_extraction(self, result: Result<Vec<u8>, ExtractionError>) -> (next: (
        Provisioner,
        ProvisionAction,
    ))
        ensures
            (next.0@, next.1@) == after_extraction_model(self@, result_model(result)),
    {
        match result {
            Ok(data) => {
                let path = self.path.clone();
                (
                    Provisioner { phase: Phase::Writing, ..self },
                    ProvisionAction::Write { path, data },
                )
            },
            Err(e) => {
                let detail = describe_extraction_failure(e, self.tool.name.as_str());
                self.fail(Fault::Extraction, detail)
            },
        }
    }

    /// Takes the step that `event` calls for.
    pub fn step(self, event: ProvisionEvent) -> (next: (Provisioner, ProvisionAction))
        ensures
            (next.0@, next.1@) == step_model(self@, event@),
    {
        match (&self.phase, self.tool.distribution, event) {
            (Phase::Installed, _, _) => {
                let at = self.path.clone();
                (self, ProvisionAction::Finish(Ok(at)))
            },
            (Phase::Failed(e), _, _) => {
                let report = e.duplicate();
                (self, ProvisionAction::Finish(Err(report)))
            },
            (Phase::Probing, _, ProvisionEvent::Presence(true)) => self.install(),
            (Phase::Probing, Distribution::Executable, ProvisionEvent::Presence(false)) => {
                let run = transfer_command(self.tool.source.as_str(), self.path.as_str());
                (Provisioner { phase: Phase::Fetching, ..self }, ProvisionAction::Run(run))
            },
            (Phase::Probing, Distribution::Archive, ProvisionEvent::Presence(false)) => {
                let source = self.tool.source.clone();
                (Provisioner { phase: Phase::Fetching, ..self }, ProvisionAction::Download(source))
            },
            (Phase::Fetching, Distribution::Executable, ProvisionEvent::Ran(Err(e))) => {
                let detail = join2("Failed to run curl: ", e.detail.as_str());
                self.fail(Fault::Fetch, detail)
            },
            (Phase::Fetching, Distribution::Executable, ProvisionEvent::Ran(Ok(output))) => {
                if output.success() {
                    self.mark()
                } else {
                    let detail = join2("Failed to download ", self.tool.name.as_str());
                    self.fail(Fault::Fetch, detail)
                }
            },
            (Phase::Fetching, Distribution::Archive, ProvisionEvent::Downloaded(Err(f))) => {
                let detail = describe_fetch_failure(f);
                self.fail(Fault::Fetch, detail)
            },
            (Phase::Fetching, Distribution::Archive, ProvisionEvent::Downloaded(Ok(bytes))) => {
                let result = extract_entry(bytes, self.tool.name.as_str());
                self.after_extraction(result)
            },
            (Phase::Writing, _, ProvisionEvent::Written(Ok(_))) => self.mark(),
            (Phase::Writing, _, ProvisionEvent::Written(Err(detail))) => self.fail(
                Fault::Extraction,
                detail,
            ),
            (Phase::Marking, _, ProvisionEvent::Ran(Err(e))) => {
                let detail = join2("Failed to chmod: ", e.detail.as_str());
                self.fail(Fault::Permission, detail)
            },
            (Phase::Marking, _, ProvisionEvent::Ran(Ok(output))) => {
                if output.success() {
                    self.install()
                } else {
                    let detail = join2("chmod failed for ", self.tool.name.as_str());
                    self.fail(Fault::Permission, detail)
                }
            },
            _ => (self, ProvisionAction::Unexpected),
        }
    }
}

/// A tool that is at its path is taken as it is: the provisioning looks
/// at the path, calls for nothing else, and gives that path.
pub proof fn lemma_present_tool_is_reused(tool: ToolModel, directory: Seq<char>)
    ensures
        ({
            let path = install_path(directory, tool.name);
            let (s, first) = begin_model(tool, InstallLocationModel::Directory(directory));
            &&& first == ProvisionActionModel::Probe(path)
            &&& step_model(s, ProvisionEventModel::Presence(true)).1
                == ProvisionActionModel::Finish(Ok(path))
        }),
{
}

/// A provisioning that has ended calls for nothing more: whatever arrives,
/// it stays as it is and repeats its result.
pub proof fn lemma_ended_provisioning_stays_ended(s: ProvisionerModel, event: ProvisionEventModel)
    ensures
        s.phase == PhaseModel::Installed ==> step_model(s, event) == (
            s,
            ProvisionActionModel::Finish(Ok(s.path)),
        ),
        s.phase matches PhaseModel::Failed(e) ==> step_model(s, event) == (
            s,
            ProvisionActionModel::Finish(Err(e)),
        ),
{
}

/// A tool whose file could not be marked executable is not installed,
/// whichever way it is distributed: a permission tool that exits with a
/// failure ends the provisioning as a permission fault.
pub proof fn lemma_unmarked_tool_is_not_installed(s: ProvisionerModel, output: OutputModel)
    requires
        s.phase == PhaseModel::Marking,
        !output.succeeded(),
    ensures
        step_model(s, ProvisionEventModel::Ran(Ok(output))) == failed(
            s,
            Fault::Permission,
            "chmod failed for "@ + s.tool.name,
        ),
{
}

/// From an archive, the first entry whose name ends with the tool's name is
/// the one that is written to the tool's path.
pub proof fn lemma_archive_with_match_is_written(
    s: ProvisionerModel,
    bytes: Seq<u8>,
    names: Seq<Seq<char>>,
    index: int,
    data: Seq<u8>,
)
    requires
        s.phase == PhaseModel::Fetching,
        s.tool.distribution == Distribution::Archive,
    ensures
        zip_directory(bytes) == Ok::<Seq<Seq<char>>, Seq<char>>(names) && first_match(
            names,
            s.tool.name,
        ) == Some(index) && zip_entry(bytes, index) == Ok::<Seq<u8>, Seq<char>>(data)
            ==> step_model(s, ProvisionEventModel::Downloaded(Ok(bytes))) == (
            ProvisionerModel { phase: PhaseModel::Writing, ..s },
            ProvisionActionModel::Write { path: s.path, data },
        ),
{
}

/// An archive in which no entry has a name that ends with the tool's name
/// fails the provisioning as an extraction fault, and nothing is written.
pub proof fn lemma_archive_without_match_fails(
    s: ProvisionerModel,
    bytes: Seq<u8>,
    names: Seq<Seq<char>>,
)
    requires
        s.phase == PhaseModel::Fetching,
        s.tool.distribution == Distribution::Archive,
    ensures
        zip_directory(bytes) == Ok::<Seq<Seq<char>>, Seq<char>>(names) && first_match(
            names,
            s.tool.name,
        ) is None ==> step_model(s, ProvisionEventModel::Downloaded(Ok(bytes))) == failed(
            s,
            Fault::Extraction,
            s.tool.name + " not found in zip"@,
        ),
{
}

} // verus!
