//! The editor: what it remembers, and how it starts and ends.
use crate::action::{Action, ActionModel, Load, LoadModel, LoadReason, Part, Step, action_models};
use crate::breakpoints::{Breakpoints, FileBreakpointsModel, breakpoints_wf};
use crate::command::{Command, Size, System};
use crate::components::PathStyle;
use crate::dap::text_option;
use crate::debug_state::{DebugModel, DebugState};
use crate::json::{Json, json_of};
use crate::launch::{AdapterConfig, AdapterModel, adapter_models, adapter_option};
use crate::layout::{Panes, divide, layout_of};
use crate::paths::{copy_resolved_or, folder_or_dot, folder_text, resolved_or};
use crate::prompt::PromptType;
use crate::surroundings::Surroundings;
use crate::text::{concat2, concat3, same_text};
use serde_json::Value;
use vstd::prelude::*;

verus! {

/// The name of the program.
pub const NAME: &'static str = "den";

/// The version of the program.
pub const VERSION: &'static str = "0.1.0";

/// How often a text with unsaved changes has to be quit.
pub const QUIT_TIMES: u8 = 2;

/// What the sidebar shows.
#[derive(Clone, Copy, PartialEq, Eq, Structural, Debug)]
pub enum SidebarMode {
    Explorer,
    Debugger,
}

/// The editor. It decides; what it decides is left for others to perform, who get it by
/// `take_actions`.
pub struct Editor {
    pub(crate) should_quit: bool,
    pub(crate) terminal_size: Size,
    pub(crate) prompt_type: PromptType,
    pub(crate) replace_query: String,
    pub(crate) title: String,
    pub(crate) quit_times: u8,
    pub(crate) sidebar_visible: bool,
    pub(crate) sidebar_focus: bool,
    pub(crate) sidebar_mode: SidebarMode,
    pub(crate) terminal_visible: bool,
    pub(crate) terminal_focus: bool,
    pub(crate) debug_adapters: Vec<AdapterConfig>,
    pub(crate) active_debug_adapter: Option<AdapterConfig>,
    pub(crate) debug_session: bool,
    pub(crate) debug_state: DebugState,
    pub(crate) breakpoints: Breakpoints,
    pub(crate) pending_configuration_done: bool,
    pub(crate) debug_stack_after_threads: bool,
    pub(crate) stacktrace_retry_attempted: bool,
    pub(crate) verified_breakpoint_count: usize,
    pub(crate) pending_continue_after_entry: bool,
    pub(crate) pending_launch_arguments: Option<Value>,
    pub(crate) debug_paused: bool,
    pub(crate) current_variables_reference: Option<i64>,
    pub(crate) variables_reference_stack: Vec<i64>,
    pub(crate) actions: Vec<Action>,
}

pub struct EditorModel {
    pub should_quit: bool,
    pub terminal_size: Size,
    pub prompt_type: PromptType,
    pub replace_query: Seq<char>,
    pub title: Seq<char>,
    pub quit_times: u8,
    pub sidebar_visible: bool,
    pub sidebar_focus: bool,
    pub sidebar_mode: SidebarMode,
    pub terminal_visible: bool,
    pub terminal_focus: bool,
    pub debug_adapters: Seq<AdapterModel>,
    pub active_debug_adapter: Option<AdapterModel>,
    pub debug_session: bool,
    pub debug_state: DebugModel,
    pub breakpoints: Seq<FileBreakpointsModel>,
    pub pending_configuration_done: bool,
    pub debug_stack_after_threads: bool,
    pub stacktrace_retry_attempted: bool,
    pub verified_breakpoint_count: usize,
    pub pending_continue_after_entry: bool,
    pub pending_launch_arguments: Option<Json>,
    pub debug_paused: bool,
    pub current_variables_reference: Option<i64>,
    pub variables_reference_stack: Seq<i64>,
    pub actions: Seq<ActionModel>,
}

/// What an optional value holds.
pub open spec fn json_option(value: Option<Value>) -> Option<Json> {
    match value {
        Some(v) => Some(json_of(v)),
        None => None,
    }
}

impl View for Editor {
    type V = EditorModel;

    open(crate) spec fn view(&self) -> EditorModel {
        EditorModel {
            should_quit: self.should_quit,
            terminal_size: self.terminal_size,
            prompt_type: self.prompt_type,
            replace_query: self.replace_query@,
            title: self.title@,
            quit_times: self.quit_times,
            sidebar_visible: self.sidebar_visible,
            sidebar_focus: self.sidebar_focus,
            sidebar_mode: self.sidebar_mode,
            terminal_visible: self.terminal_visible,
            terminal_focus: self.terminal_focus,
            debug_adapters: adapter_models(self.debug_adapters@),
            active_debug_adapter: adapter_option(self.active_debug_adapter),
            debug_session: self.debug_session,
            debug_state: self.debug_state@,
            breakpoints: self.breakpoints@,
            pending_configuration_done: self.pending_configuration_done,
            debug_stack_after_threads: self.debug_stack_after_threads,
            stacktrace_retry_attempted: self.stacktrace_retry_attempted,
            verified_breakpoint_count: self.verified_breakpoint_count,
            pending_continue_after_entry: self.pending_continue_after_entry,
            pending_launch_arguments: json_option(self.pending_launch_arguments),
            debug_paused: self.debug_paused,
            current_variables_reference: self.current_variables_reference,
            variables_reference_stack: self.variables_reference_stack@,
            actions: action_models(self.actions@),
        }
    }
}

/// What can be seen of the editor from outside.
impl Editor {
    /// Whether the editor is to be left.
    pub fn should_quit(&self) -> (value: bool)
        ensures
            value == self@.should_quit,
    {
        self.should_quit
    }

    /// The size of the screen.
    pub fn terminal_size(&self) -> (value: Size)
        ensures
            value == self@.terminal_size,
    {
        self.terminal_size
    }

    /// What is being asked for.
    pub fn prompt_type(&self) -> (value: PromptType)
        ensures
            value == self@.prompt_type,
    {
        self.prompt_type
    }

    /// The title of the window.
    pub fn title(&self) -> (value: &str)
        ensures
            value@ == self@.title,
    {
        self.title.as_str()
    }

    /// Whether the sidebar is shown.
    pub fn sidebar_visible(&self) -> (value: bool)
        ensures
            value == self@.sidebar_visible,
    {
        self.sidebar_visible
    }

    /// Whether the sidebar has the keyboard.
    pub fn sidebar_focus(&self) -> (value: bool)
        ensures
            value == self@.sidebar_focus,
    {
        self.sidebar_focus
    }

    /// Whether the terminal pane is shown.
    pub fn terminal_visible(&self) -> (value: bool)
        ensures
            value == self@.terminal_visible,
    {
        self.terminal_visible
    }

    /// Whether the terminal pane has the keyboard.
    pub fn terminal_focus(&self) -> (value: bool)
        ensures
            value == self@.terminal_focus,
    {
        self.terminal_focus
    }

    /// Whether a program is being debugged.
    pub fn debug_session(&self) -> (value: bool)
        ensures
            value == self@.debug_session,
    {
        self.debug_session
    }

    /// The adapter of the debug session.
    pub fn active_debug_adapter(&self) -> (value: &Option<AdapterConfig>)
        ensures
            adapter_option(*value) == self@.active_debug_adapter,
    {
        &self.active_debug_adapter
    }

    /// What is known of the program being debugged.
    pub fn debug_state(&self) -> (value: &DebugState)
        ensures
            value@ == self@.debug_state,
    {
        &self.debug_state
    }

    /// Whether the program being debugged has stopped.
    pub fn debug_paused(&self) -> (value: bool)
        ensures
            value == self@.debug_paused,
    {
        self.debug_paused
    }

    /// The breakpoints of all files.
    pub fn breakpoints(&self) -> (value: &Breakpoints)
        ensures
            value@ == self@.breakpoints,
    {
        &self.breakpoints
    }

    /// How many breakpoints the adapter took.
    pub fn verified_breakpoint_count(&self) -> (value: usize)
        ensures
            value == self@.verified_breakpoint_count,
    {
        self.verified_breakpoint_count
    }

    /// What the program is yet to be launched with.
    pub fn pending_launch_arguments(&self) -> (value: &Option<Value>)
        ensures
            json_option(*value) == self@.pending_launch_arguments,
    {
        &self.pending_launch_arguments
    }

    /// Whether the adapter is yet to be told that everything is set.
    pub fn pending_configuration_done(&self) -> (value: bool)
        ensures
            value == self@.pending_configuration_done,
    {
        self.pending_configuration_done
    }

    /// The group of variables that is shown.
    pub fn current_variables_reference(&self) -> (value: Option<i64>)
        ensures
            value == self@.current_variables_reference,
    {
        self.current_variables_reference
    }

    /// The groups of variables that the one shown was reached through.
    pub fn variables_reference_stack(&self) -> (value: &Vec<i64>)
        ensures
            value@ == self@.variables_reference_stack,
    {
        &self.variables_reference_stack
    }
}

impl EditorModel {
    /// What always holds. Only what is shown has the keyboard, and the sidebar only while it shows
    /// the file tree. A warning before quitting is given less often than it takes to quit. A debug
    /// session, an active adapter and an active debug state come and go together, and only a
    /// session can be paused, or wait to be launched or configured. Selections are among what there
    /// is, and the breakpoints are in order.
    pub open spec fn wf(self) -> bool {
        &&& self.sidebar_focus ==> self.sidebar_visible && self.sidebar_mode
            == SidebarMode::Explorer
        &&& self.terminal_focus ==> self.terminal_visible
        &&& self.quit_times < QUIT_TIMES
        &&& self.debug_session == self.active_debug_adapter is Some
        &&& self.debug_session == self.debug_state.active
        &&& self.debug_paused ==> self.debug_session
        &&& self.pending_configuration_done ==> self.debug_session
        &&& self.pending_launch_arguments is Some ==> self.debug_session
        &&& self.variables_reference_stack.len() > 0 ==> self.current_variables_reference is Some
        &&& self.variables_reference_stack.len() <= self.debug_state.variable_path.len()
        &&& self.debug_state.wf()
        &&& breakpoints_wf(self.breakpoints)
    }

    /// Whether nothing that was asked for is lost, and no request is sent without a debug session.
    pub open spec fn asks_soundly(self, after: EditorModel) -> bool {
        &&& self.actions.len() <= after.actions.len()
        &&& forall|i: int|
            0 <= i < self.actions.len() ==> #[trigger] after.actions[i] == self.actions[i]
        &&& !self.debug_session ==> forall|i: int|
            self.actions.len() <= i < after.actions.len() ==> !(#[trigger] after.actions[i]).sends()
    }

    /// Whether a change leaves the editor as near to quitting as it was, begins no debug session and
    /// asks for nothing unsound.
    pub open spec fn steady_but_breakpoints(self, after: EditorModel) -> bool {
        &&& after.should_quit == self.should_quit
        &&& after.quit_times == self.quit_times
        &&& after.debug_session ==> self.debug_session
        &&& self.asks_soundly(after)
    }

    /// Whether a change leaves the breakpoints alone, too.
    pub open spec fn steady(self, after: EditorModel) -> bool {
        self.steady_but_breakpoints(after) && after.breakpoints == self.breakpoints
    }

    /// An action is left to be performed. Nothing else changes.
    #[verifier::opaque]
    pub open spec fn emit(self, action: ActionModel) -> EditorModel {
        EditorModel { actions: self.actions.push(action), ..self }
    }

    /// An action that is asked for changes nothing else.
    pub broadcast proof fn emit_keeps_wf(self, action: ActionModel)
        requires
            self.wf(),
        ensures
            #[trigger] self.emit(action).wf(),
    {
        reveal(EditorModel::emit);
    }

    /// An action that is asked for leaves the editor steady, if it sends no request.
    pub broadcast proof fn emit_is_steady(self, action: ActionModel)
        requires
            !action.sends(),
        ensures
            #![trigger self.emit(action)]
            self.steady(self.emit(action)),
            self.emit(action).debug_session == self.debug_session,
    {
        reveal(EditorModel::emit);
    }

    /// An action that is asked for leaves the panes as they are shown.
    pub broadcast proof fn emit_keeps_panes(self, action: ActionModel)
        ensures
            #![trigger self.emit(action)]
            self.emit(action).terminal_visible == self.terminal_visible,
            self.emit(action).debug_state == self.debug_state,
    {
        reveal(EditorModel::emit);
    }

    pub open spec fn step(self, step: Step) -> EditorModel {
        self.emit(ActionModel::Do(step))
    }

    pub open spec fn redraw(self, part: Part) -> EditorModel {
        self.step(Step::Redraw(part))
    }

    /// Shows a message.
    pub open spec fn say(self, text: Seq<char>) -> EditorModel {
        self.emit(ActionModel::Message(text))
    }

    pub open spec fn panes(self, around: Surroundings) -> Panes {
        Panes {
            sidebar_visible: self.sidebar_visible,
            terminal_visible: self.terminal_visible,
            debug_active: self.debug_state.active,
            terminal_rows: around.terminal_rows,
            debug_panel_rows: around.debug_panel_rows,
        }
    }

    /// Whether the terminal pane is shown once a command was obeyed.
    pub open spec fn shows_terminal_after(self, command: Command) -> bool {
        match command {
            Command::System(System::ToggleTerminal) => !self.terminal_visible,
            Command::System(System::FocusTerminal) => true,
            _ => self.terminal_visible,
        }
    }

    /// Whether the rows of the panes that are shown once a command was obeyed can be counted
    /// together.
    pub open spec fn rows_fit(self, around: Surroundings, command: Command) -> bool {
        EditorModel { terminal_visible: self.shows_terminal_after(command), ..self }.panes(
            around,
        ).wf()
    }

    /// The screen has a size, and is divided accordingly.
    pub open spec fn resized(self, around: Surroundings, size: Size) -> EditorModel {
        EditorModel { terminal_size: size, ..self }.step(
            Step::ApplyLayout(layout_of(size, self.panes(around))),
        )
    }

    /// The label of the debug session in the status bar.
    pub open spec fn debug_label(self) -> Option<Seq<char>> {
        if self.debug_state.active {
            Some(
                if self.debug_paused {
                    "PAUSED"@
                } else {
                    "RUNNING"@
                },
            )
        } else {
            None
        }
    }

    pub open spec fn status_shown(self) -> EditorModel {
        self.emit(ActionModel::ShowStatus(self.debug_label()))
    }

    /// The status is shown, and the window gets a title where its title is another.
    pub open spec fn status_refreshed(self, around: Surroundings) -> EditorModel {
        let title = around.file_name@ + " - "@ + NAME@;
        if title != self.title {
            self.status_shown().emit(ActionModel::SetTitle(title))
        } else {
            self.status_shown()
        }
    }
}

impl EditorModel {
    pub(crate) proof fn status_refreshed_keeps_wf(self, around: Surroundings)
        requires
            self.wf(),
        ensures
            self.status_refreshed(around).wf(),
            self.status_refreshed(around).should_quit == self.should_quit,
            self.status_refreshed(around).breakpoints == self.breakpoints,
            self.asks_soundly(self.status_refreshed(around)),
    {
        reveal(EditorModel::emit);
    }
}

impl Editor {
    pub(crate) fn emit(&mut self, action: Action)
        ensures
            final(self)@ == old(self)@.emit(action@),
    {
        reveal(EditorModel::emit);
        let ghost before = self.actions@;
        self.actions.push(action);
        assert(action_models(self.actions@) =~= action_models(before).push(action@));
    }

    pub(crate) fn step(&mut self, step: Step)
        ensures
            final(self)@ == old(self)@.step(step),
    {
        self.emit(Action::Do(step));
    }

    pub(crate) fn redraw(&mut self, part: Part)
        ensures
            final(self)@ == old(self)@.redraw(part),
    {
        self.step(Step::Redraw(part));
    }

    pub(crate) fn update_message(&mut self, new_message: &str)
        ensures
            final(self)@ == old(self)@.say(new_message@),
    {
        self.emit(Action::Message(new_message.to_owned()));
    }

    /// Hands over the actions that are to be performed.
    pub fn take_actions(&mut self) -> (actions: Vec<Action>)
        ensures
            action_models(actions@) == old(self)@.actions,
            final(self)@ == (EditorModel { actions: Seq::empty(), ..old(self)@ }),
    {
        let mut actions: Vec<Action> = Vec::new();
        std::mem::swap(&mut actions, &mut self.actions);
        assert(action_models(self.actions@) =~= Seq::<ActionModel>::empty());
        actions
    }

    pub(crate) fn current_panes(&self, around: &Surroundings) -> (panes: Panes)
        ensures
            panes == self@.panes(*around),
    {
        Panes {
            sidebar_visible: self.sidebar_visible,
            terminal_visible: self.terminal_visible,
            debug_active: self.debug_state.is_active(),
            terminal_rows: around.terminal_rows,
            debug_panel_rows: around.debug_panel_rows,
        }
    }

    /// Whether the rows of the panes that are shown once a command was obeyed can be counted together.
    pub fn panes_fit(&self, around: &Surroundings, command: Command) -> (fit: bool)
        ensures
            fit == self@.rows_fit(*around, command),
    {
        let terminal_visible: bool = match command {
            Command::System(System::ToggleTerminal) => !self.terminal_visible,
            Command::System(System::FocusTerminal) => true,
            _ => self.terminal_visible,
        };
        let panes = Panes { terminal_visible, ..self.current_panes(around) };
        panes.terminal_height().checked_add(panes.debug_height()).is_some()
    }

    /// Divides the screen anew.
    pub(crate) fn resize(&mut self, around: &Surroundings, size: Size)
        requires
            old(self)@.panes(*around).wf(),
        ensures
            final(self)@ == old(self)@.resized(*around, size),
    {
        self.terminal_size = size;
        let panes = self.current_panes(around);
        self.step(Step::ApplyLayout(divide(size, &panes)));
    }

    /// The label of the debug session in the status bar.
    pub fn debug_state_label(&self) -> (label: Option<String>)
        ensures
            text_option(label) == self@.debug_label(),
    {
        if self.debug_state.is_active() {
            if self.debug_paused {
                Some("PAUSED".to_owned())
            } else {
                Some("RUNNING".to_owned())
            }
        } else {
            None
        }
    }

    /// Shows the status.
    pub fn show_status(&mut self)
        requires
            old(self)@.wf(),
        ensures
            final(self)@ == old(self)@.status_shown(),
            final(self)@.wf(),
    {
        reveal(EditorModel::emit);
        let label = self.debug_state_label();
        self.emit(Action::ShowStatus(label));
    }

    /// Shows the status, and gives the window a title where its title is another.
    pub fn refresh_status(&mut self, around: &Surroundings)
        requires
            old(self)@.wf(),
        ensures
            final(self)@ == old(self)@.status_refreshed(*around),
            final(self)@.wf(),
    {
        reveal(EditorModel::emit);
        let title = concat3(around.file_name.as_str(), " - ", NAME);
        self.show_status();
        if !same_text(title.as_str(), self.title.as_str()) {
            self.emit(Action::SetTitle(title));
        }
    }
}

// ---------------------------------------------------------------------------------------------
// Starting
// ---------------------------------------------------------------------------------------------
/// What the path is that the program was started with. A resolved path that could not be found is
/// absent.
pub enum StartPath {
    Missing,
    Directory { resolved: Option<String> },
    File { resolved: Option<String>, resolved_folder: Option<String> },
    Other,
}

/// The path that the program was started with.
pub struct StartArgument {
    pub text: String,
    pub path: StartPath,
}

/// How the program was started.
pub struct Startup {
    pub cwd: String,
    pub argument: Option<StartArgument>,
    pub size: Size,
    pub adapters: Vec<AdapterConfig>,
    pub path_style: PathStyle,
}

impl Startup {
    /// The folder that the file tree shows: the one given, else that of the file given, else the
    /// one that the program was started in.
    pub open spec fn workspace(self) -> Seq<char> {
        match self.argument {
            Some(argument) => match argument.path {
                StartPath::Directory { resolved } => resolved_or(resolved, argument.text@),
                StartPath::File { resolved_folder, .. } => resolved_or(
                    resolved_folder,
                    folder_or_dot(argument.text@, self.path_style),
                ),
                _ => self.cwd@,
            },
            None => self.cwd@,
        }
    }

    /// The file that is loaded.
    pub open spec fn file(self) -> Option<Seq<char>> {
        match self.argument {
            Some(argument) => match argument.path {
                StartPath::File { resolved, .. } => Some(resolved_or(resolved, argument.text@)),
                _ => None,
            },
            None => None,
        }
    }

    pub open spec fn shows_sidebar(self) -> bool {
        self.argument matches Some(argument) && argument.path is Directory
    }

    /// The folder that the file tree shows.
    pub fn workspace_root(&self) -> (root: String)
        ensures
            root@ == self.workspace(),
    {
        match &self.argument {
            Some(argument) => match &argument.path {
                StartPath::Directory { resolved } => copy_resolved_or(resolved, &argument.text),
                StartPath::File { resolved_folder, .. } => copy_resolved_or(
                    resolved_folder,
                    &folder_text(argument.text.as_str(), self.path_style),
                ),
                _ => self.cwd.clone(),
            },
            None => self.cwd.clone(),
        }
    }

    /// The file that is loaded.
    pub fn file_to_load(&self) -> (path: Option<String>)
        ensures
            text_option(path) == self.file(),
    {
        match &self.argument {
            Some(argument) => match &argument.path {
                StartPath::File { resolved, .. } => Some(copy_resolved_or(resolved, &argument.text)),
                _ => None,
            },
            None => None,
        }
    }
}

impl EditorModel {
    /// Nothing asked, nothing shown but the text view, and the sidebar where a folder was given.
    pub open spec fn initial(start: Startup) -> EditorModel {
        EditorModel {
            should_quit: false,
            terminal_size: Size { height: 0, width: 0 },
            prompt_type: PromptType::Closed,
            replace_query: Seq::empty(),
            title: Seq::empty(),
            quit_times: 0,
            sidebar_visible: start.shows_sidebar(),
            sidebar_focus: false,
            sidebar_mode: SidebarMode::Explorer,
            terminal_visible: false,
            terminal_focus: false,
            debug_adapters: adapter_models(start.adapters@),
            active_debug_adapter: None,
            debug_session: false,
            debug_state: DebugModel::blank(),
            breakpoints: Seq::empty(),
            pending_configuration_done: false,
            debug_stack_after_threads: false,
            stacktrace_retry_attempted: false,
            verified_breakpoint_count: 0,
            pending_continue_after_entry: false,
            pending_launch_arguments: None,
            debug_paused: false,
            current_variables_reference: None,
            variables_reference_stack: Seq::empty(),
            actions: Seq::empty(),
        }
    }

    /// The screen is divided; then the file given is loaded, or a path that does not exist is
    /// complained of, and the status is shown. After loading, the status is shown when the outcome
    /// is known.
    pub open spec fn started(start: Startup, around: Surroundings) -> EditorModel {
        let ready = EditorModel::initial(start).resized(around, start.size);
        match start.file() {
            Some(path) => ready.emit(
                ActionModel::LoadFile(LoadModel { path, reason: LoadReason::Startup }),
            ),
            None => match start.argument {
                Some(argument) if argument.path is Missing => ready.say(
                    "ERROR: Path does not exist: "@ + argument.text@,
                ).status_refreshed(around),
                _ => ready.status_refreshed(around),
            },
        }
    }
}

impl Editor {
    /// The editor at the start of the program.
    pub fn new(start: Startup, around: &Surroundings) -> (editor: Editor)
        ensures
            editor@ == EditorModel::started(start, *around),
            editor@.wf(),
    {
        reveal(EditorModel::emit);
        let shows_sidebar: bool = match &start.argument {
            Some(argument) => match &argument.path {
                StartPath::Directory { .. } => true,
                _ => false,
            },
            None => false,
        };
        let complaint: Option<String> = match &start.argument {
            Some(argument) => match &argument.path {
                StartPath::Missing => Some(
                    concat2("ERROR: Path does not exist: ", argument.text.as_str()),
                ),
                _ => None,
            },
            None => None,
        };
        let file = start.file_to_load();
        let mut editor = Editor {
            should_quit: false,
            terminal_size: Size { height: 0, width: 0 },
            prompt_type: PromptType::Closed,
            replace_query: String::new(),
            title: String::new(),
            quit_times: 0,
            sidebar_visible: shows_sidebar,
            sidebar_focus: false,
            sidebar_mode: SidebarMode::Explorer,
            terminal_visible: false,
            terminal_focus: false,
            debug_adapters: start.adapters,
            active_debug_adapter: None,
            debug_session: false,
            debug_state: DebugState::new(),
            breakpoints: Breakpoints::new(),
            pending_configuration_done: false,
            debug_stack_after_threads: false,
            stacktrace_retry_attempted: false,
            verified_breakpoint_count: 0,
            pending_continue_after_entry: false,
            pending_launch_arguments: None,
            debug_paused: false,
            current_variables_reference: None,
            variables_reference_stack: Vec::new(),
            actions: Vec::new(),
        };
        assert(editor@.breakpoints =~= Seq::<FileBreakpointsModel>::empty());
        assert(editor@.actions =~= Seq::<ActionModel>::empty());
        editor.resize(around, start.size);
        match file {
            Some(path) => {
                editor.emit(Action::LoadFile(Load { path, reason: LoadReason::Startup }));
            },
            None => {
                if let Some(text) = complaint {
                    editor.update_message(text.as_str());
                }
                editor.refresh_status(around);
            },
        }
        editor
    }
}

} // verus!
