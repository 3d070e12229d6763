//! What the editor asks to be done, and what it is told of the outcome.
//!
//! Actions are performed one after the other, in the order in which they were asked for. Where one
//! fails, the message that `Action::failure_message` gives is shown before the next is performed.
//! Where one has an outcome that matters, the outcome is handed back as a `Reply`.
use crate::breakpoints::{FileBreakpoints, FileBreakpointsModel, file_models};
use crate::command::{Edit, Move, MoveDirection};
use crate::dap::text_option;
use crate::debug_state::texts_of;
use crate::editor::Startup;
use crate::json::{Json, json_of};
use crate::launch::{AdapterConfig, AdapterModel, ProbeOutcome, ProbeStage};
use crate::layout::Layout;
use crate::paths::TargetPaths;
use crate::request::RequestKind;
use crate::text::concat2;
use serde_json::Value;
use vstd::prelude::*;

verus! {

/// A part of the screen.
#[derive(Clone, Copy, PartialEq, Eq, Structural, Debug)]
pub enum Part {
    View,
    Sidebar,
    DebugPanel,
    Terminal,
    StatusBar,
    MessageBar,
}

/// Something to do that takes no text.
#[derive(Clone, Copy, PartialEq, Eq, Structural, Debug)]
pub enum Step {
    /// Draw a part of the screen anew.
    Redraw(Part),
    /// Give each part of the screen its size.
    ApplyLayout(Layout),
    /// Change the text in the view. May fail.
    EditView(Edit),
    /// Move the caret in the view.
    MoveView(Move),
    /// Select nothing in the view.
    ClearSelection,
    /// Begin a search in the view.
    EnterSearch,
    /// End the search and go back to where it began.
    DismissSearch,
    /// End the search and stay.
    ExitSearch,
    /// Search for what has been typed into the prompt.
    SearchPrompted,
    SearchNext,
    SearchPrevious,
    /// Mark the line that the program being debugged has stopped in, or none.
    SetStopLine(Option<i64>),
    /// Save the open text to its file. The outcome is `Reply::Saved`.
    Save,
    /// Change the text in the prompt.
    EditPrompt(Edit),
    /// Empty the prompt.
    ClearPrompt,
    /// Move the selection in the file tree. The outcome is `Reply::TreeMoved`.
    MoveInTree(MoveDirection),
    /// Open or close the folder, or choose the file, that is selected in the file tree. The
    /// outcome is `Reply::TreeEntered`.
    EnterInTree,
    /// Take the file that was chosen in the file tree. The outcome is `Reply::PendingOpen`.
    TakePendingOpen,
    /// Read the file tree anew. May fail.
    RebuildTree,
    /// Show the debug state in the debug panel.
    ShowDebugState,
    /// Take up the debug session that was opened.
    AdoptSession,
    /// Let go of the debug session that was opened.
    DropSession,
    /// End the debug session, if there is one.
    StopSession,
    /// End the shell in the terminal pane.
    StopTerminal,
    /// Give the screen back.
    LeaveScreen,
}

/// Why a file is loaded.
#[derive(Clone, Copy, PartialEq, Eq, Structural, Debug)]
pub enum LoadReason {
    Startup,
    Sidebar,
    Created,
}

/// A file to load.
#[derive(Debug, PartialEq)]
pub struct Load {
    pub path: String,
    pub reason: LoadReason,
}

/// A file or folder to create.
#[derive(Debug, PartialEq)]
pub struct NewEntry {
    pub name: String,
    pub is_dir: bool,
}

/// Something to do.
#[derive(Debug, PartialEq)]
pub enum Action {
    Do(Step),
    /// Show a message.
    Message(String),
    /// Ask a question in the prompt.
    Prompt(String),
    /// Put a text into the view.
    PasteText(String),
    /// Replace every match in the view. The outcome is `Reply::Replaced`.
    ReplaceAll { query: String, replacement: String },
    /// Save the open text to a file of this name. The outcome is `Reply::Saved`.
    SaveAs(String),
    /// Load a file into the view. The outcome is `Reply::Loaded`.
    LoadFile(Load),
    /// Show the status of the view, with a label for the debug session.
    ShowStatus(Option<String>),
    /// Give the window a title. Where that succeeds, the outcome is `Reply::TitleSet`.
    SetTitle(String),
    /// Send bytes to the shell in the terminal pane.
    WriteTerminal(Vec<u8>),
    /// Start a shell in the terminal pane. May fail.
    StartTerminal { dir: String, columns: u16 },
    /// Find out in one way whether a debug adapter is there. The outcome is `Reply::Probed`.
    Probe { adapter: AdapterConfig, stage: ProbeStage },
    /// Find out in which of some folders a Go module starts. The outcome is `Reply::ModulesFound`.
    FindModules { adapter: AdapterConfig, folders: Vec<String> },
    /// Start a debug adapter and introduce the editor to it. The outcome is
    /// `Reply::SessionOpened`.
    OpenSession { adapter: AdapterConfig, cwd: Option<String>, arguments: Value },
    /// Send a request to the debug adapter. May fail.
    Send { kind: RequestKind, arguments: Value },
    /// Give the breakpoints of all files to the debug adapter: send the requests that
    /// `next_sync_step` asks for until it ends. May fail.
    SyncBreakpoints(Vec<FileBreakpoints>),
    /// Find out where a new entry may go. The outcome is `Reply::TargetInspected`.
    InspectTarget(NewEntry),
    /// Create a file or folder, with the folders above it. The outcome is `Reply::Created`.
    Create { entry: NewEntry, target: String },
}

pub struct LoadModel {
    pub path: Seq<char>,
    pub reason: LoadReason,
}

pub struct NewEntryModel {
    pub name: Seq<char>,
    pub is_dir: bool,
}

pub enum ActionModel {
    Do(Step),
    Message(Seq<char>),
    Prompt(Seq<char>),
    PasteText(Seq<char>),
    ReplaceAll { query: Seq<char>, replacement: Seq<char> },
    SaveAs(Seq<char>),
    LoadFile(LoadModel),
    ShowStatus(Option<Seq<char>>),
    SetTitle(Seq<char>),
    WriteTerminal(Seq<u8>),
    StartTerminal { dir: Seq<char>, columns: u16 },
    Probe { adapter: AdapterModel, stage: ProbeStage },
    FindModules { adapter: AdapterModel, folders: Seq<Seq<char>> },
    OpenSession { adapter: AdapterModel, cwd: Option<Seq<char>>, arguments: Json },
    Send { kind: RequestKind, arguments: Json },
    SyncBreakpoints(Seq<FileBreakpointsModel>),
    InspectTarget(NewEntryModel),
    Create { entry: NewEntryModel, target: Seq<char> },
}

impl View for Load {
    type V = LoadModel;

    open spec fn view(&self) -> LoadModel {
        LoadModel { path: self.path@, reason: self.reason }
    }
}

impl View for NewEntry {
    type V = NewEntryModel;

    open spec fn view(&self) -> NewEntryModel {
        NewEntryModel { name: self.name@, is_dir: self.is_dir }
    }
}

impl View for Action {
    type V = ActionModel;

    open spec fn view(&self) -> ActionModel {
        match self {
            Action::Do(step) => ActionModel::Do(*step),
            Action::Message(text) => ActionModel::Message(text@),
            Action::Prompt(text) => ActionModel::Prompt(text@),
            Action::PasteText(text) => ActionModel::PasteText(text@),
            Action::ReplaceAll { query, replacement } => ActionModel::ReplaceAll {
                query: query@,
                replacement: replacement@,
            },
            Action::SaveAs(name) => ActionModel::SaveAs(name@),
            Action::LoadFile(load) => ActionModel::LoadFile(load@),
            Action::ShowStatus(label) => ActionModel::ShowStatus(text_option(*label)),
            Action::SetTitle(title) => ActionModel::SetTitle(title@),
            Action::WriteTerminal(bytes) => ActionModel::WriteTerminal(bytes@),
            Action::StartTerminal { dir, columns } => ActionModel::StartTerminal {
                dir: dir@,
                columns: *columns,
            },
            Action::Probe { adapter, stage } => ActionModel::Probe {
                adapter: adapter@,
                stage: *stage,
            },
            Action::FindModules { adapter, folders } => ActionModel::FindModules {
                adapter: adapter@,
                folders: texts_of(folders@),
            },
            Action::OpenSession { adapter, cwd, arguments } => ActionModel::OpenSession {
                adapter: adapter@,
                cwd: text_option(*cwd),
                arguments: json_of(*arguments),
            },
            Action::Send { kind, arguments } => ActionModel::Send {
                kind: *kind,
                arguments: json_of(*arguments),
            },
            Action::SyncBreakpoints(files) => ActionModel::SyncBreakpoints(file_models(files@)),
            Action::InspectTarget(entry) => ActionModel::InspectTarget(entry@),
            Action::Create { entry, target } => ActionModel::Create {
                entry: entry@,
                target: target@,
            },
        }
    }
}

pub open spec fn action_models(actions: Seq<Action>) -> Seq<ActionModel> {
    actions.map_values(|action: Action| action@)
}

/// What came of starting a debug adapter and introducing the editor to it.
pub enum SessionOutcome {
    Opened,
    StartFailed(String),
    InitializeFailed(String),
}

/// The outcome of an action.
pub enum Reply {
    /// Whether the selection in the file tree moved.
    TreeMoved(Result<bool, String>),
    TreeEntered(Result<(), String>),
    /// The file that was chosen in the file tree.
    PendingOpen(Option<String>),
    Loaded { load: Load, loaded: Result<(), String> },
    /// Whether the text was saved.
    Saved(bool),
    /// How many matches were replaced.
    Replaced(usize),
    /// The title that the window has.
    TitleSet(String),
    Probed { adapter: AdapterConfig, stage: ProbeStage, probed: ProbeOutcome },
    /// In which of the folders, in their order, a Go module starts.
    ModulesFound { adapter: AdapterConfig, found: Vec<bool> },
    SessionOpened { adapter: AdapterConfig, cwd: Option<String>, opened: SessionOutcome },
    TargetInspected { entry: NewEntry, paths: TargetPaths },
    /// The path of the entry that was created.
    Created { entry: NewEntry, created: Result<String, String> },
}

impl ActionModel {
    /// Whether the action sends a request in a debug session.
    pub open spec fn sends(self) -> bool {
        self is Send || self is SyncBreakpoints
    }

    /// What is said when the action fails with an error.
    pub open spec fn failure(self, error: Seq<char>) -> Option<Seq<char>> {
        match self {
            ActionModel::Do(Step::EditView(_)) => Some(error),
            ActionModel::Do(Step::RebuildTree) => Some("File tree error: "@ + error),
            ActionModel::StartTerminal { .. } => Some("Terminal error: "@ + error),
            ActionModel::Send { kind, .. } => Some(kind.complaint() + error),
            ActionModel::SyncBreakpoints(_) => Some("setBreakpoints sync error: "@ + error),
            _ => None,
        }
    }
}

impl Action {
    /// What is said when the action fails with an error. Of most actions nothing is.
    pub fn failure_message(&self, error: &str) -> (message: Option<String>)
        ensures
            text_option(message) == self@.failure(error@),
    {
        match self {
            Action::Do(Step::EditView(_)) => Some(error.to_owned()),
            Action::Do(Step::RebuildTree) => Some(concat2("File tree error: ", error)),
            Action::StartTerminal { .. } => Some(concat2("Terminal error: ", error)),
            Action::Send { kind, .. } => Some(kind.failure_text(error)),
            Action::SyncBreakpoints(_) => Some(concat2("setBreakpoints sync error: ", error)),
            _ => None,
        }
    }
}

} // verus!
