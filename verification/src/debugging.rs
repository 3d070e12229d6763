//! Directing a debug session: starting and ending it, stepping, selecting, and breakpoints.
use crate::action::{Action, ActionModel, Part, Step};
use crate::breakpoints::{breakpoints_wf, law_toggle_changes_one_file, lines_in, toggled_in};
use crate::components::components;
use crate::debug_state::{DebugModel, FrameModel, VariableModel};
use crate::editor::{Editor, EditorModel};
use crate::json::{Json, json_of};
use crate::launch::{chosen_adapter, first_probe, first_stage, select_debug_adapter};
use crate::request::{
    RequestKind, breakpoints_json, disconnect_arguments, disconnect_json, frame_arguments,
    frame_json, no_arguments, no_arguments_json, pause_arguments, pause_json, reference_arguments,
    reference_json, set_breakpoints_arguments, stack_trace_arguments, stack_trace_json,
    thread_arguments, thread_json,
};
use crate::surroundings::{OpenFile, Surroundings};
use crate::text::{concat2, concat3, count_text, decimal, int_text, same_text};
use serde_json::Value;
use vstd::prelude::*;

verus! {

/// The line of a breakpoint at the caret, counted from one.
pub open spec fn caret_line(line_index: usize) -> i64 {
    let line = if line_index < usize::MAX {
        line_index + 1
    } else {
        line_index as int
    };
    if line <= i64::MAX {
        line as i64
    } else {
        i64::MAX
    }
}

/// Whether a source is the file that is open.
pub open spec fn is_open_source(file: Option<OpenFile>, source_path: Seq<char>) -> bool {
    file matches Some(open) && open.source_path@ == source_path
}

/// What is said when a breakpoint was set or removed.
pub open spec fn toggle_notice(line: i64, added: bool, in_session: bool) -> Seq<char> {
    if !added {
        "Breakpoint removed at line "@ + decimal(line as int) + "."@
    } else if in_session {
        "Breakpoint set at line "@ + decimal(line as int) + "."@
    } else {
        "Breakpoint set at line "@ + decimal(line as int) + " (F5 to start debug)."@
    }
}

/// What is said of the frame that was selected.
pub open spec fn frame_notice(index: int, name: Seq<char>) -> Seq<char> {
    "Selected frame #"@ + decimal(index) + ": "@ + name
}

impl EditorModel {
    /// A request is sent in the debug session, where there is one.
    pub open spec fn requested(self, kind: RequestKind, arguments: Json) -> EditorModel {
        if self.debug_session {
            self.emit(ActionModel::Send { kind, arguments })
        } else {
            self.say("Debug session is not running."@)
        }
    }

    /// The thread that requests are about.
    pub open spec fn thread(self) -> i64 {
        self.debug_state.thread()
    }

    pub open spec fn with_debug(self, debug_state: DebugModel) -> EditorModel {
        EditorModel { debug_state, ..self }
    }

    /// The frames of the current thread are asked for, unless it is the thread zero.
    pub open spec fn stack_requested(self) -> EditorModel {
        if self.thread() != 0 {
            self.requested(RequestKind::StackTrace, stack_trace_json(self.thread()))
        } else {
            self
        }
    }

    pub open spec fn threads_requested(self) -> EditorModel {
        self.requested(RequestKind::Threads, no_arguments_json())
    }

    /// The scopes of a frame are asked for, unless it is the frame zero.
    pub open spec fn scopes_requested(self, frame_id: i64) -> EditorModel {
        if frame_id != 0 {
            self.requested(RequestKind::Scopes, frame_json(frame_id))
        } else {
            self
        }
    }

    pub open spec fn variables_requested(self, reference: i64) -> EditorModel {
        self.requested(RequestKind::Variables, reference_json(reference))
    }

    /// The program runs on: it is not paused, and no line is marked.
    pub open spec fn running(self) -> EditorModel {
        EditorModel { debug_paused: false, ..self }.step(Step::SetStopLine(None))
    }

    pub open spec fn resumed(self, kind: RequestKind) -> EditorModel {
        self.running().requested(kind, thread_json(self.thread()))
    }

    pub open spec fn restarted(self) -> EditorModel {
        self.running().requested(RequestKind::Restart, no_arguments_json())
    }

    pub open spec fn pause_asked(self) -> EditorModel {
        self.requested(RequestKind::Pause, pause_json(self.thread()))
    }

    pub open spec fn disconnect_asked(self) -> EditorModel {
        self.requested(RequestKind::Disconnect, disconnect_json())
    }

    /// All breakpoints are sent in the debug session, where there is one.
    pub open spec fn breakpoints_synced(self) -> EditorModel {
        if self.debug_session {
            self.emit(ActionModel::SyncBreakpoints(self.breakpoints))
        } else {
            self.say("Debug session is not running."@)
        }
    }

    /// The breakpoint at the caret is set or removed, and the session told of all in the file.
    pub open spec fn breakpoint_toggled(self, around: Surroundings) -> EditorModel {
        match around.file {
            None => self.say("Open a file before toggling breakpoints."@),
            Some(open) => {
                let line = caret_line(around.line_index);
                let key = components(open.path@, around.path_style);
                let added = !lines_in(self.breakpoints, key).contains(line);
                let files = toggled_in(self.breakpoints, open.path@, key, line);
                let changed = EditorModel { breakpoints: files, ..self };
                let told = if self.debug_session {
                    changed.requested(
                        RequestKind::SetBreakpoints,
                        breakpoints_json(open.source_path@, lines_in(files, key)),
                    )
                } else {
                    changed
                };
                told.say(toggle_notice(line, added, self.debug_session)).redraw(Part::View)
            },
        }
    }

    /// The thread some steps from the selected one is selected, and its frames are asked for.
    pub open spec fn thread_selected(self, delta: int) -> EditorModel {
        if self.debug_state.threads.len() == 0 {
            self
        } else {
            self.with_debug(self.debug_state.thread_chosen(delta)).stack_requested()
        }
    }

    /// The line that a frame is at is marked where its source is the open file, else none.
    pub open spec fn stop_marked(self, around: Surroundings, frame: FrameModel) -> EditorModel {
        self.step(
            Step::SetStopLine(
                if is_open_source(around.file, frame.source_path) {
                    Some(frame.line)
                } else {
                    None
                },
            ),
        )
    }

    /// The frame some steps from the selected one is selected, and its variables are asked for.
    pub open spec fn frame_selected(self, around: Surroundings, delta: int) -> EditorModel {
        if self.debug_state.stack_frames.len() == 0 {
            self
        } else {
            let debug = self.debug_state.frame_chosen(delta);
            let frame = debug.stack_frames[debug.selected_frame_idx as int];
            self.with_debug(debug).scopes_requested(frame.id).stop_marked(around, frame).say(
                frame_notice(debug.selected_frame_idx as int, frame.name),
            )
        }
    }

    /// The variable some steps from the selected one is selected.
    pub open spec fn variable_selected(self, delta: int) -> EditorModel {
        if self.debug_state.variables.len() == 0 {
            self
        } else {
            self.with_debug(self.debug_state.variable_chosen(delta))
        }
    }

    /// The references on the way to the variables that are shown, with the last one.
    pub open spec fn references_before(self) -> Seq<i64> {
        match self.current_variables_reference {
            Some(reference) => self.variables_reference_stack.push(reference),
            None => self.variables_reference_stack,
        }
    }

    /// The variables shown are the parts of a variable; where they hang is remembered.
    pub open spec fn moved_into(self, variable: VariableModel) -> EditorModel {
        EditorModel {
            variables_reference_stack: self.references_before(),
            current_variables_reference: Some(variable.variables_reference),
            debug_state: self.debug_state.variable_entered(variable.name),
            ..self
        }
    }

    /// The parts of the selected variable are asked for, where it has any.
    pub open spec fn variable_expanded(self) -> EditorModel {
        match self.debug_state.selected_variable() {
            Some(variable) if variable.variables_reference > 0 => self.moved_into(
                variable,
            ).variables_requested(variable.variables_reference),
            _ => self,
        }
    }

    /// The variables that the ones shown hang from are asked for.
    pub open spec fn variable_collapsed(self) -> EditorModel {
        let stack = self.variables_reference_stack;
        if stack.len() == 0 {
            self
        } else {
            EditorModel {
                variables_reference_stack: stack.drop_last(),
                current_variables_reference: Some(stack.last()),
                debug_state: self.debug_state.variable_left(),
                ..self
            }.variables_requested(stack.last())
        }
    }

    /// A debug session for the open file is begun by finding out whether its adapter is there.
    pub open spec fn debug_started(self, around: Surroundings) -> EditorModel {
        if self.debug_session {
            self.say("Debug session is already running."@)
        } else {
            match chosen_adapter(self.debug_adapters, around.file) {
                None => self.say("No debug adapter for current file."@),
                Some(adapter) => self.emit(
                    ActionModel::Probe { adapter, stage: first_stage(adapter) },
                ),
            }
        }
    }

    /// The debug session is gone, and with it all that was known of the program.
    pub open spec fn debug_stopped(self, message: Seq<char>) -> EditorModel {
        EditorModel {
            debug_session: false,
            active_debug_adapter: None,
            debug_state: DebugModel::blank(),
            debug_paused: false,
            pending_configuration_done: false,
            current_variables_reference: None,
            variables_reference_stack: Seq::empty(),
            debug_stack_after_threads: false,
            stacktrace_retry_attempted: false,
            verified_breakpoint_count: 0,
            pending_continue_after_entry: false,
            pending_launch_arguments: None,
            ..self
        }.step(Step::StopSession).step(Step::SetStopLine(None)).step(Step::ShowDebugState).say(
            message,
        )
    }

    /// The program ends: the debug session and the shell are ended, and the screen is given back.
    pub open spec fn ended(self) -> EditorModel {
        self.debug_stopped("Debug session finished."@).step(Step::StopTerminal).step(
            Step::LeaveScreen,
        )
    }
}

// ---------------------------------------------------------------------------------------------
// Requests
// ---------------------------------------------------------------------------------------------
impl Editor {
    pub(crate) fn with_debug_session(&mut self, kind: RequestKind, arguments: Value)
        ensures
            final(self)@ == old(self)@.requested(kind, json_of(arguments)),
    {
        if self.debug_session {
            self.emit(Action::Send { kind, arguments });
        } else {
            self.update_message("Debug session is not running.");
        }
    }

    fn thread_id(&self) -> (id: i64)
        ensures
            id == self@.thread(),
    {
        self.debug_state.thread()
    }

    pub(crate) fn request_threads(&mut self)
        ensures
            final(self)@ == old(self)@.threads_requested(),
    {
        self.with_debug_session(RequestKind::Threads, no_arguments());
    }

    pub(crate) fn request_stack_trace(&mut self)
        ensures
            final(self)@ == old(self)@.stack_requested(),
    {
        let thread_id: i64 = self.thread_id();
        if thread_id == 0 {
            return;
        }
        self.with_debug_session(RequestKind::StackTrace, stack_trace_arguments(thread_id));
    }

    pub(crate) fn request_scopes(&mut self, frame_id: i64)
        ensures
            final(self)@ == old(self)@.scopes_requested(frame_id),
    {
        if frame_id != 0 {
            self.with_debug_session(RequestKind::Scopes, frame_arguments(frame_id));
        }
    }

    pub(crate) fn request_variables(&mut self, reference: i64)
        ensures
            final(self)@ == old(self)@.variables_requested(reference),
    {
        self.with_debug_session(RequestKind::Variables, reference_arguments(reference));
    }

    pub(crate) fn run_on(&mut self)
        ensures
            final(self)@ == old(self)@.running(),
    {
        self.debug_paused = false;
        self.step(Step::SetStopLine(None));
    }

    fn resume(&mut self, kind: RequestKind)
        ensures
            final(self)@ == old(self)@.resumed(kind),
    {
        let thread_id: i64 = self.thread_id();
        self.run_on();
        self.with_debug_session(kind, thread_arguments(thread_id));
    }

    pub(crate) fn continue_debug(&mut self)
        ensures
            final(self)@ == old(self)@.resumed(RequestKind::Continue),
    {
        self.resume(RequestKind::Continue);
    }

    pub(crate) fn step_over(&mut self)
        ensures
            final(self)@ == old(self)@.resumed(RequestKind::Next),
    {
        self.resume(RequestKind::Next);
    }

    pub(crate) fn step_into(&mut self)
        ensures
            final(self)@ == old(self)@.resumed(RequestKind::StepIn),
    {
        self.resume(RequestKind::StepIn);
    }

    pub(crate) fn step_out(&mut self)
        ensures
            final(self)@ == old(self)@.resumed(RequestKind::StepOut),
    {
        self.resume(RequestKind::StepOut);
    }

    pub(crate) fn restart_debug(&mut self)
        ensures
            final(self)@ == old(self)@.restarted(),
    {
        self.run_on();
        self.with_debug_session(RequestKind::Restart, no_arguments());
    }

    pub(crate) fn pause_debug(&mut self)
        ensures
            final(self)@ == old(self)@.pause_asked(),
    {
        let thread_id: i64 = self.thread_id();
        self.with_debug_session(RequestKind::Pause, pause_arguments(thread_id));
    }

    pub(crate) fn disconnect_debug(&mut self)
        ensures
            final(self)@ == old(self)@.disconnect_asked(),
    {
        self.with_debug_session(RequestKind::Disconnect, disconnect_arguments());
    }
}

// ---------------------------------------------------------------------------------------------
// Breakpoints
// ---------------------------------------------------------------------------------------------
fn line_at(line_index: usize) -> (line: i64)
    ensures
        line == caret_line(line_index),
{
    let line: usize = line_index.saturating_add(1);
    match i64::try_from(line) {
        Ok(number) => number,
        Err(_) => i64::MAX,
    }
}

fn toggle_text(line: i64, added: bool, in_session: bool) -> (text: String)
    ensures
        text@ == toggle_notice(line, added, in_session),
{
    let number = int_text(line);
    if !added {
        concat3("Breakpoint removed at line ", number.as_str(), ".")
    } else if in_session {
        concat3("Breakpoint set at line ", number.as_str(), ".")
    } else {
        concat3("Breakpoint set at line ", number.as_str(), " (F5 to start debug).")
    }
}

impl Editor {
    pub(crate) fn sync_all_breakpoints(&mut self)
        ensures
            final(self)@ == old(self)@.breakpoints_synced(),
    {
        if self.debug_session {
            let files = self.breakpoints.copy_files();
            self.emit(Action::SyncBreakpoints(files));
        } else {
            self.update_message("Debug session is not running.");
        }
    }

    pub(crate) fn toggle_breakpoint(&mut self, around: &Surroundings)
        requires
            breakpoints_wf(old(self)@.breakpoints),
        ensures
            final(self)@ == old(self)@.breakpoint_toggled(*around),
    {
        let open = match &around.file {
            Some(open) => open,
            None => {
                self.update_message("Open a file before toggling breakpoints.");
                return;
            },
        };
        let in_session: bool = self.debug_session;
        let line: i64 = line_at(around.line_index);
        let added: bool = self.breakpoints.toggle(
            open.path.as_str(),
            around.path_style,
            line,
        );
        if in_session {
            let lines = self.breakpoints.lines(open.path.as_str(), around.path_style);
            let arguments = set_breakpoints_arguments(open.source_path.as_str(), &lines);
            self.with_debug_session(RequestKind::SetBreakpoints, arguments);
        }
        let text = toggle_text(line, added, in_session);
        self.update_message(text.as_str());
        self.redraw(Part::View);
    }
}

// ---------------------------------------------------------------------------------------------
// Selecting
// ---------------------------------------------------------------------------------------------
fn frame_text(index: usize, name: &str) -> (text: String)
    ensures
        text@ == frame_notice(index as int, name@),
{
    let number = count_text(index);
    let head = concat3("Selected frame #", number.as_str(), ": ");
    concat2(head.as_str(), name)
}

impl Editor {
    pub(crate) fn select_thread_with_offset(&mut self, delta: isize)
        ensures
            final(self)@ == old(self)@.thread_selected(delta as int),
    {
        if self.debug_state.threads().len() == 0 {
            return;
        }
        self.debug_state.choose_thread(delta);
        self.request_stack_trace();
    }

    pub(crate) fn mark_stop(&mut self, around: &Surroundings, source_path: &str, line: i64)
        ensures
            final(self)@ == old(self)@.step(
                Step::SetStopLine(
                    if is_open_source(around.file, source_path@) {
                        Some(line)
                    } else {
                        None
                    },
                ),
            ),
    {
        let here: bool = match &around.file {
            Some(open) => same_text(open.source_path.as_str(), source_path),
            None => false,
        };
        if here {
            self.step(Step::SetStopLine(Some(line)));
        } else {
            self.step(Step::SetStopLine(None));
        }
    }

    pub(crate) fn select_frame_with_offset(&mut self, around: &Surroundings, delta: isize)
        ensures
            final(self)@ == old(self)@.frame_selected(*around, delta as int),
    {
        if self.debug_state.stack_frames().len() == 0 {
            return;
        }
        self.debug_state.choose_frame(delta);
        let index: usize = self.debug_state.selected_frame_idx();
        let frame = &self.debug_state.stack_frames()[index];
        let id: i64 = frame.id;
        let line: i64 = frame.line;
        let source_path = frame.source_path.clone();
        let text = frame_text(index, frame.name.as_str());
        self.request_scopes(id);
        self.mark_stop(around, source_path.as_str(), line);
        self.update_message(text.as_str());
    }

    pub(crate) fn select_variable_with_offset(&mut self, delta: isize)
        ensures
            final(self)@ == old(self)@.variable_selected(delta as int),
    {
        if self.debug_state.variables().len() == 0 {
            return;
        }
        self.debug_state.choose_variable(delta);
    }

    fn remember_reference(&mut self)
        ensures
            final(self)@ == (EditorModel {
                variables_reference_stack: old(self)@.references_before(),
                ..old(self)@
            }),
    {
        if let Some(current) = self.current_variables_reference {
            self.variables_reference_stack.push(current);
        }
    }

    pub(crate) fn expand_selected_variable(&mut self)
        ensures
            final(self)@ == old(self)@.variable_expanded(),
    {
        let (reference, name) = match self.debug_state.selected_variable() {
            Some(variable) => (variable.variables_reference, variable.name.clone()),
            None => {
                return;
            },
        };
        if reference <= 0 {
            return;
        }
        self.remember_reference();
        self.current_variables_reference = Some(reference);
        self.debug_state.enter_variable(name);
        self.request_variables(reference);
    }

    pub(crate) fn collapse_variable_scope(&mut self)
        ensures
            final(self)@ == old(self)@.variable_collapsed(),
    {
        let previous: i64 = match self.variables_reference_stack.pop() {
            Some(previous) => previous,
            None => {
                return;
            },
        };
        self.current_variables_reference = Some(previous);
        self.debug_state.leave_variable();
        self.request_variables(previous);
    }
}

// ---------------------------------------------------------------------------------------------
// Starting and ending
// ---------------------------------------------------------------------------------------------
impl Editor {
    pub(crate) fn start_debug(&mut self, around: &Surroundings)
        ensures
            final(self)@ == old(self)@.debug_started(*around),
    {
        if self.debug_session {
            self.update_message("Debug session is already running.");
            return;
        }
        match select_debug_adapter(&self.debug_adapters, &around.file) {
            None => self.update_message("No debug adapter for current file."),
            Some(adapter) => {
                let stage = first_probe(&adapter);
                self.emit(Action::Probe { adapter, stage });
            },
        }
    }

    pub(crate) fn stop_debug_with_message(&mut self, message: &str)
        ensures
            final(self)@ == old(self)@.debug_stopped(message@),
    {
        self.debug_session = false;
        self.active_debug_adapter = None;
        self.debug_state.clear();
        self.debug_paused = false;
        self.pending_configuration_done = false;
        self.current_variables_reference = None;
        self.variables_reference_stack.clear();
        self.debug_stack_after_threads = false;
        self.stacktrace_retry_attempted = false;
        self.verified_breakpoint_count = 0;
        self.pending_continue_after_entry = false;
        self.pending_launch_arguments = None;
        self.step(Step::StopSession);
        self.step(Step::SetStopLine(None));
        self.step(Step::ShowDebugState);
        self.update_message(message);
    }

    pub(crate) fn stop_debug(&mut self)
        ensures
            final(self)@ == old(self)@.debug_stopped("Debug session finished."@),
    {
        self.stop_debug_with_message("Debug session finished.");
    }

    /// Ends the debug session and the shell, and gives the screen back.
    pub fn shutdown(&mut self)
        requires
            old(self)@.wf(),
        ensures
            final(self)@ == old(self)@.ended(),
            final(self)@.wf(),
    {
        reveal(EditorModel::emit);
        self.stop_debug();
        self.step(Step::StopTerminal);
        self.step(Step::LeaveScreen);
    }
}

// ---------------------------------------------------------------------------------------------
// What always holds
// ---------------------------------------------------------------------------------------------
impl EditorModel {
    pub(crate) proof fn resumed_keeps_wf(self, kind: RequestKind)
        requires
            self.wf(),
        ensures
            self.resumed(kind).wf(),
            self.steady(self.resumed(kind)),
    {
        reveal(EditorModel::emit);
    }

    pub(crate) proof fn restarted_keeps_wf(self)
        requires
            self.wf(),
        ensures
            self.restarted().wf(),
            self.steady(self.restarted()),
    {
        reveal(EditorModel::emit);
    }

    pub(crate) proof fn pause_asked_keeps_wf(self)
        requires
            self.wf(),
        ensures
            self.pause_asked().wf(),
            self.steady(self.pause_asked()),
    {
        reveal(EditorModel::emit);
    }

    pub(crate) proof fn disconnect_asked_keeps_wf(self)
        requires
            self.wf(),
        ensures
            self.disconnect_asked().wf(),
            self.steady(self.disconnect_asked()),
    {
        reveal(EditorModel::emit);
    }

    pub(crate) proof fn breakpoint_toggled_keeps_wf(self, around: Surroundings)
        requires
            self.wf(),
        ensures
            self.breakpoint_toggled(around).wf(),
            self.steady_but_breakpoints(self.breakpoint_toggled(around)),
    {
        reveal(EditorModel::emit);
        if let Some(open) = around.file {
            law_toggle_changes_one_file(
                self.breakpoints,
                open.path@,
                components(open.path@, around.path_style),
                caret_line(around.line_index),
            );
        }
    }

    pub(crate) proof fn thread_selected_keeps_wf(self, delta: int)
        requires
            self.wf(),
        ensures
            self.thread_selected(delta).wf(),
            self.steady(self.thread_selected(delta)),
    {
        reveal(EditorModel::emit);
    }

    pub(crate) proof fn frame_selected_keeps_wf(self, around: Surroundings, delta: int)
        requires
            self.wf(),
        ensures
            self.frame_selected(around, delta).wf(),
            self.steady(self.frame_selected(around, delta)),
    {
        reveal(EditorModel::emit);
    }

    pub(crate) proof fn variable_selected_keeps_wf(self, delta: int)
        requires
            self.wf(),
        ensures
            self.variable_selected(delta).wf(),
            self.steady(self.variable_selected(delta)),
    {
        reveal(EditorModel::emit);
    }

    pub(crate) proof fn variable_expanded_keeps_wf(self)
        requires
            self.wf(),
        ensures
            self.variable_expanded().wf(),
            self.steady(self.variable_expanded()),
    {
        reveal(EditorModel::emit);
    }

    pub(crate) proof fn variable_collapsed_keeps_wf(self)
        requires
            self.wf(),
        ensures
            self.variable_collapsed().wf(),
            self.steady(self.variable_collapsed()),
    {
        reveal(EditorModel::emit);
    }

    pub(crate) proof fn debug_started_keeps_wf(self, around: Surroundings)
        requires
            self.wf(),
        ensures
            self.debug_started(around).wf(),
            self.steady(self.debug_started(around)),
    {
        reveal(EditorModel::emit);
    }

    pub(crate) proof fn debug_stopped_keeps_wf(self, message: Seq<char>)
        requires
            self.wf(),
        ensures
            self.debug_stopped(message).wf(),
            self.steady(self.debug_stopped(message)),
    {
        reveal(EditorModel::emit);
    }
}

} // verus!
