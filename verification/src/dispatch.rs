//! What input does: which part has the keyboard, and what a command means there.
use crate::action::{Action, ActionModel, NewEntry, NewEntryModel, Part, Step};
use crate::command::{
    Command, Edit, InputEvent, KeyCode, KeyModifiers, MoveDirection, System, is_for_editor,
    is_null_key, key_to_shell, leaves_shell, shell_bytes, types_null,
};
use crate::editor::{Editor, EditorModel, SidebarMode};
use crate::prompt::PromptType;
use crate::request::RequestKind;
use crate::surroundings::Surroundings;
use crate::text::{chars_of, concat2};
use vstd::string::*;
use vstd::utf8::*;
use vstd::prelude::*;

verus! {

// ---------------------------------------------------------------------------------------------
// While a question is asked
// ---------------------------------------------------------------------------------------------
impl EditorModel {
    /// The arrows go through the matches of a search.
    pub open spec fn match_moved(self, direction: MoveDirection) -> EditorModel {
        match direction {
            MoveDirection::Right | MoveDirection::Down => self.step(Step::SearchNext),
            MoveDirection::Up | MoveDirection::Left => self.step(Step::SearchPrevious),
            MoveDirection::Other(_) => self,
        }
    }

    /// A command while a text to find is asked for. Every change of it is searched for at once.
    pub open spec fn search_commanded(self, command: Command) -> EditorModel {
        match command {
            Command::System(System::Dismiss) => self.prompted(PromptType::Closed).step(
                Step::DismissSearch,
            ),
            Command::Edit(Edit::InsertNewline) => self.prompted(PromptType::Closed).step(
                Step::ExitSearch,
            ),
            Command::Edit(edit) => self.step(Step::EditPrompt(edit)).step(Step::SearchPrompted),
            Command::Move(movement) => self.match_moved(movement.direction),
            _ => self,
        }
    }

    /// What to replace is known, and what to put in its place is asked for.
    pub open spec fn query_known(self, around: Surroundings) -> EditorModel {
        EditorModel { replace_query: around.prompt_value@, ..self }.prompted(PromptType::Replace)
    }

    /// A command while a text to replace is asked for.
    pub open spec fn replace_search_commanded(
        self,
        around: Surroundings,
        command: Command,
    ) -> EditorModel {
        match command {
            Command::System(System::Dismiss) => self.prompted(PromptType::Closed).step(
                Step::DismissSearch,
            ),
            Command::Edit(Edit::InsertNewline) => self.query_known(around),
            Command::Edit(edit) => self.step(Step::EditPrompt(edit)).step(Step::SearchPrompted),
            Command::Move(movement) => self.match_moved(movement.direction),
            _ => self,
        }
    }

    /// A command while a replacement is asked for.
    pub open spec fn replace_commanded(self, around: Surroundings, command: Command) -> EditorModel {
        match command {
            Command::System(System::Dismiss) => self.prompted(PromptType::Closed).step(
                Step::DismissSearch,
            ),
            Command::Edit(Edit::InsertNewline) => self.step(Step::ExitSearch).emit(
                ActionModel::ReplaceAll {
                    query: self.replace_query,
                    replacement: around.prompt_value@,
                },
            ).prompted(PromptType::Closed),
            Command::Edit(edit) => self.step(Step::EditPrompt(edit)),
            _ => self,
        }
    }

    /// A command while the name of a file to save to is asked for.
    pub open spec fn save_commanded(self, around: Surroundings, command: Command) -> EditorModel {
        match command {
            Command::System(System::Dismiss) => self.prompted(PromptType::Closed).say(
                "Save aborted."@,
            ),
            Command::Edit(Edit::InsertNewline) => self.emit(
                ActionModel::SaveAs(around.prompt_value@),
            ).prompted(PromptType::Closed),
            Command::Edit(edit) => self.step(Step::EditPrompt(edit)),
            _ => self,
        }
    }

    /// A name for a new file or folder has been given.
    pub open spec fn creation_asked(self, name: Seq<char>, is_dir: bool) -> EditorModel {
        if name.len() == 0 {
            self.say("Name is empty."@)
        } else {
            self.emit(ActionModel::InspectTarget(NewEntryModel { name, is_dir }))
        }
    }

    /// A command while the name of a new file or folder is asked for.
    pub open spec fn create_commanded(
        self,
        around: Surroundings,
        command: Command,
        is_dir: bool,
    ) -> EditorModel {
        match command {
            Command::System(System::Dismiss) => self.prompted(PromptType::Closed).say(
                "Cancelled."@,
            ),
            Command::Edit(Edit::InsertNewline) => self.prompted(PromptType::Closed).creation_asked(
                around.prompt_value@,
                is_dir,
            ),
            Command::Edit(edit) => self.step(Step::EditPrompt(edit)),
            _ => self,
        }
    }
}

impl Editor {
    fn move_to_match(&mut self, direction: MoveDirection)
        ensures
            final(self)@ == old(self)@.match_moved(direction),
    {
        match direction {
            MoveDirection::Right | MoveDirection::Down => self.step(Step::SearchNext),
            MoveDirection::Up | MoveDirection::Left => self.step(Step::SearchPrevious),
            MoveDirection::Other(_) => {},
        }
    }

    fn process_command_during_search(&mut self, command: Command)
        ensures
            final(self)@ == old(self)@.search_commanded(command),
    {
        match command {
            Command::System(System::Dismiss) => {
                self.set_prompt(PromptType::Closed);
                self.step(Step::DismissSearch);
            },
            Command::Edit(Edit::InsertNewline) => {
                self.set_prompt(PromptType::Closed);
                self.step(Step::ExitSearch);
            },
            Command::Edit(edit) => {
                self.step(Step::EditPrompt(edit));
                self.step(Step::SearchPrompted);
            },
            Command::Move(movement) => self.move_to_match(movement.direction),
            Command::System(_) => {},
        }
    }

    fn process_command_during_replace_search(&mut self, around: &Surroundings, command: Command)
        ensures
            final(self)@ == old(self)@.replace_search_commanded(*around, command),
    {
        match command {
            Command::System(System::Dismiss) => {
                self.set_prompt(PromptType::Closed);
                self.step(Step::DismissSearch);
            },
            Command::Edit(Edit::InsertNewline) => {
                self.replace_query = around.prompt_value.clone();
                self.set_prompt(PromptType::Replace);
            },
            Command::Edit(edit) => {
                self.step(Step::EditPrompt(edit));
                self.step(Step::SearchPrompted);
            },
            Command::Move(movement) => self.move_to_match(movement.direction),
            Command::System(_) => {},
        }
    }

    fn process_command_during_replace(&mut self, around: &Surroundings, command: Command)
        ensures
            final(self)@ == old(self)@.replace_commanded(*around, command),
    {
        match command {
            Command::System(System::Dismiss) => {
                self.set_prompt(PromptType::Closed);
                self.step(Step::DismissSearch);
            },
            Command::Edit(Edit::InsertNewline) => {
                let query = self.replace_query.clone();
                let replacement = around.prompt_value.clone();
                self.step(Step::ExitSearch);
                self.emit(Action::ReplaceAll { query, replacement });
                self.set_prompt(PromptType::Closed);
            },
            Command::Edit(edit) => self.step(Step::EditPrompt(edit)),
            _ => {},
        }
    }

    fn process_command_during_save(&mut self, around: &Surroundings, command: Command)
        ensures
            final(self)@ == old(self)@.save_commanded(*around, command),
    {
        match command {
            Command::System(System::Dismiss) => {
                self.set_prompt(PromptType::Closed);
                self.update_message("Save aborted.");
            },
            Command::Edit(Edit::InsertNewline) => {
                self.emit(Action::SaveAs(around.prompt_value.clone()));
                self.set_prompt(PromptType::Closed);
            },
            Command::Edit(edit) => self.step(Step::EditPrompt(edit)),
            _ => {},
        }
    }

    fn ask_for_creation(&mut self, name: &String, is_dir: bool)
        ensures
            final(self)@ == old(self)@.creation_asked(name@, is_dir),
    {
        if name.as_str().is_empty() {
            self.update_message("Name is empty.");
        } else {
            self.emit(Action::InspectTarget(NewEntry { name: name.clone(), is_dir }));
        }
    }

    fn process_command_during_create(
        &mut self,
        around: &Surroundings,
        command: Command,
        is_dir: bool,
    )
        ensures
            final(self)@ == old(self)@.create_commanded(*around, command, is_dir),
    {
        match command {
            Command::System(System::Dismiss) => {
                self.set_prompt(PromptType::Closed);
                self.update_message("Cancelled.");
            },
            Command::Edit(Edit::InsertNewline) => {
                self.set_prompt(PromptType::Closed);
                self.ask_for_creation(&around.prompt_value, is_dir);
            },
            Command::Edit(edit) => self.step(Step::EditPrompt(edit)),
            _ => {},
        }
    }
}

// ---------------------------------------------------------------------------------------------
// While no question is asked
// ---------------------------------------------------------------------------------------------
impl EditorModel {
    /// The debugger is shown, and a program is launched or runs on.
    pub open spec fn debugging_asked(self, around: Surroundings) -> EditorModel {
        let shown = self.debugger_sidebar_focused(around);
        if self.debug_session {
            shown.resumed(RequestKind::Continue)
        } else {
            shown.debug_started(around)
        }
    }

    /// A command to the editor itself.
    #[verifier::opaque]
    pub open spec fn system_commanded(self, around: Surroundings, command: System) -> EditorModel {
        match command {
            System::Quit | System::Resize(_) => self,
            System::ToggleSidebar => self.sidebar_toggled(around),
            System::FocusSidebar => self.sidebar_focused(around),
            System::FocusDebuggerSidebar => self.debugger_sidebar_focused(around),
            System::FocusView => self.view_focused(),
            System::ToggleTerminal => self.terminal_toggled(around),
            System::FocusTerminal => self.terminal_focused(around),
            System::StartDebug => self.debugging_asked(around),
            System::StopDebug => self.debug_stopped("Debug session finished."@),
            System::ToggleBreakpoint => self.breakpoint_toggled(around),
            System::StepOver => self.resumed(RequestKind::Next),
            System::StepInto => self.resumed(RequestKind::StepIn),
            System::StepOut => self.resumed(RequestKind::StepOut),
            System::Continue => self.resumed(RequestKind::Continue),
            System::Pause => self.pause_asked(),
            System::RestartDebug => self.restarted(),
            System::DisconnectDebug => self.disconnect_asked(),
            System::NextThread => self.thread_selected(1),
            System::PrevThread => self.thread_selected(-1),
            System::NextFrame => self.frame_selected(around, 1),
            System::PrevFrame => self.frame_selected(around, -1),
            System::NextVariable => self.variable_selected(1),
            System::PrevVariable => self.variable_selected(-1),
            System::ExpandVariable => self.variable_expanded(),
            System::CollapseVariable => self.variable_collapsed(),
            System::Dismiss => self.step(Step::ClearSelection),
            System::Search => self.prompted(PromptType::Search),
            System::Replace => self.prompted(PromptType::ReplaceSearch),
            System::Save => self.save_asked(around),
            System::CreateFile => self.prompted(PromptType::CreateFile),
            System::CreateFolder => self.prompted(PromptType::CreateFolder),
        }
    }

    /// A command while the text view has the keyboard.
    pub open spec fn view_commanded(self, around: Surroundings, command: Command) -> EditorModel {
        match command {
            Command::Edit(edit) => self.step(Step::EditView(edit)),
            Command::Move(movement) => self.step(Step::MoveView(movement)),
            Command::System(system) => self.system_commanded(around, system),
        }
    }

    pub open spec fn tree_left(self) -> EditorModel {
        EditorModel { sidebar_focus: false, ..self }.redraw(Part::Sidebar).redraw(Part::View)
    }

    /// Something is done in the file tree, where the sidebar shows it.
    pub open spec fn tree_step(self, step: Step) -> EditorModel {
        if self.sidebar_mode == SidebarMode::Explorer {
            self.step(step)
        } else {
            self
        }
    }

    /// A command while the sidebar has the keyboard.
    pub open spec fn tree_commanded(self, around: Surroundings, command: Command) -> EditorModel {
        match command {
            Command::Move(movement) => if movement.is_selection {
                self
            } else {
                self.tree_step(Step::MoveInTree(movement.direction))
            },
            Command::Edit(Edit::InsertNewline) => self.tree_step(Step::EnterInTree),
            Command::Edit(_) => self,
            Command::System(System::Dismiss) => self.tree_left(),
            Command::System(system) => self.system_commanded(around, system),
        }
    }

    pub open spec fn tree_has_keyboard(self) -> bool {
        self.sidebar_visible && self.sidebar_focus
    }

    /// A command for the part that has the keyboard.
    pub open spec fn part_commanded(self, around: Surroundings, command: Command) -> EditorModel {
        if self.tree_has_keyboard() {
            self.tree_commanded(around, command)
        } else {
            self.view_commanded(around, command)
        }
    }

    /// A command while no question is asked. Any but the one to quit forgets a warning.
    pub open spec fn unprompted_commanded(
        self,
        around: Surroundings,
        command: Command,
    ) -> EditorModel {
        if command == Command::System(System::Quit) {
            self.quit_asked(around)
        } else {
            self.quit_forgotten().part_commanded(around, command)
        }
    }

    /// A command. The size of the screen is taken over in any case.
    pub open spec fn commanded(self, around: Surroundings, command: Command) -> EditorModel {
        match command {
            Command::System(System::Resize(size)) => self.resized(around, size),
            _ => match self.prompt_type {
                PromptType::Search => self.search_commanded(command),
                PromptType::Save => self.save_commanded(around, command),
                PromptType::ReplaceSearch => self.replace_search_commanded(around, command),
                PromptType::Replace => self.replace_commanded(around, command),
                PromptType::CreateFile => self.create_commanded(around, command, false),
                PromptType::CreateFolder => self.create_commanded(around, command, true),
                PromptType::Closed => self.unprompted_commanded(around, command),
            },
        }
    }
}

impl Editor {
    fn start_or_continue(&mut self, around: &Surroundings)
        requires
            old(self)@.panes(*around).wf(),
        ensures
            final(self)@ == old(self)@.debugging_asked(*around),
    {
        let in_session: bool = self.debug_session;
        self.focus_debugger_sidebar(around);
        if in_session {
            self.continue_debug();
        } else {
            self.start_debug(around);
        }
    }

    fn process_system_command(&mut self, around: &Surroundings, command: System)
        requires
            old(self)@.wf(),
            old(self)@.rows_fit(*around, Command::System(command)),
        ensures
            final(self)@ == old(self)@.system_commanded(*around, command),
    {
        reveal(EditorModel::system_commanded);
        match command {
            System::Quit | System::Resize(_) => {},
            System::ToggleSidebar => self.toggle_sidebar(around),
            System::FocusSidebar => self.focus_sidebar(around),
            System::FocusDebuggerSidebar => self.focus_debugger_sidebar(around),
            System::FocusView => self.focus_view(),
            System::ToggleTerminal => self.toggle_terminal(around),
            System::FocusTerminal => self.focus_terminal(around),
            System::StartDebug => self.start_or_continue(around),
            System::StopDebug => self.stop_debug(),
            System::ToggleBreakpoint => self.toggle_breakpoint(around),
            System::StepOver => self.step_over(),
            System::StepInto => self.step_into(),
            System::StepOut => self.step_out(),
            System::Continue => self.continue_debug(),
            System::Pause => self.pause_debug(),
            System::RestartDebug => self.restart_debug(),
            System::DisconnectDebug => self.disconnect_debug(),
            System::NextThread => self.select_thread_with_offset(1),
            System::PrevThread => self.select_thread_with_offset(-1),
            System::NextFrame => self.select_frame_with_offset(around, 1),
            System::PrevFrame => self.select_frame_with_offset(around, -1),
            System::NextVariable => self.select_variable_with_offset(1),
            System::PrevVariable => self.select_variable_with_offset(-1),
            System::ExpandVariable => self.expand_selected_variable(),
            System::CollapseVariable => self.collapse_variable_scope(),
            System::Dismiss => self.step(Step::ClearSelection),
            System::Search => self.set_prompt(PromptType::Search),
            System::Replace => self.set_prompt(PromptType::ReplaceSearch),
            System::Save => self.handle_save(around),
            System::CreateFile => self.set_prompt(PromptType::CreateFile),
            System::CreateFolder => self.set_prompt(PromptType::CreateFolder),
        }
    }

    fn process_command_in_view(&mut self, around: &Surroundings, command: Command)
        requires
            old(self)@.wf(),
            old(self)@.rows_fit(*around, command),
        ensures
            final(self)@ == old(self)@.view_commanded(*around, command),
    {
        match command {
            Command::Edit(edit) => self.step(Step::EditView(edit)),
            Command::Move(movement) => self.step(Step::MoveView(movement)),
            Command::System(system) => self.process_system_command(around, system),
        }
    }

    fn leave_tree(&mut self)
        ensures
            final(self)@ == old(self)@.tree_left(),
    {
        self.sidebar_focus = false;
        self.redraw(Part::Sidebar);
        self.redraw(Part::View);
    }

    fn step_in_tree(&mut self, step: Step)
        ensures
            final(self)@ == old(self)@.tree_step(step),
    {
        if self.sidebar_mode == SidebarMode::Explorer {
            self.step(step);
        }
    }

    fn process_command_in_tree(&mut self, around: &Surroundings, command: Command)
        requires
            old(self)@.wf(),
            old(self)@.rows_fit(*around, command),
        ensures
            final(self)@ == old(self)@.tree_commanded(*around, command),
    {
        match command {
            Command::Move(movement) => {
                if !movement.is_selection {
                    self.step_in_tree(Step::MoveInTree(movement.direction));
                }
            },
            Command::Edit(Edit::InsertNewline) => self.step_in_tree(Step::EnterInTree),
            Command::Edit(_) => {},
            Command::System(System::Dismiss) => self.leave_tree(),
            Command::System(system) => self.process_system_command(around, system),
        }
    }

    fn process_command_in_part(&mut self, around: &Surroundings, command: Command)
        requires
            old(self)@.wf(),
            old(self)@.rows_fit(*around, command),
        ensures
            final(self)@ == old(self)@.part_commanded(*around, command),
    {
        if self.sidebar_visible && self.sidebar_focus {
            self.process_command_in_tree(around, command);
        } else {
            self.process_command_in_view(around, command);
        }
    }

    fn quit_or_process_in_part(&mut self, around: &Surroundings, command: Command)
        requires
            old(self)@.wf(),
            old(self)@.rows_fit(*around, command),
        ensures
            final(self)@ == old(self)@.unprompted_commanded(*around, command),
    {
        broadcast use EditorModel::emit_keeps_panes;

        proof {
            self@.quit_forgotten_keeps_wf();
        }
        match command {
            Command::System(System::Quit) => self.handle_quit(around),
            _ => {
                self.reset_quit_times();
                self.process_command_in_part(around, command);
            },
        }
    }

    /// Obeys a command while no question is asked. Any command but the one to quit forgets a warning
    /// before quitting, and does not quit.
    pub fn process_command_no_prompt(&mut self, around: &Surroundings, command: Command)
        requires
            old(self)@.wf(),
            old(self)@.rows_fit(*around, command),
        ensures
            final(self)@ == old(self)@.unprompted_commanded(*around, command),
            final(self)@.wf(),
            command != Command::System(System::Quit) ==> final(self)@.quit_times == 0
                && final(self)@.should_quit == old(self)@.should_quit,
    {
        proof {
            self@.unprompted_commanded_keeps_wf(*around, command);
        }
        self.quit_or_process_in_part(around, command);
    }
}

// ---------------------------------------------------------------------------------------------
// What always holds
// ---------------------------------------------------------------------------------------------
impl EditorModel {
    proof fn search_commanded_keeps_wf(self, command: Command)
        requires
            self.wf(),
        ensures
            self.search_commanded(command).wf(),
            self.steady(self.search_commanded(command)),
    {
        broadcast use EditorModel::emit_keeps_wf, EditorModel::emit_is_steady;

        self.prompted_keeps_wf(PromptType::Closed);
    }

    #[verifier::rlimit(20)]
    proof fn replace_search_commanded_keeps_wf(self, around: Surroundings, command: Command)
        requires
            self.wf(),
        ensures
            self.replace_search_commanded(around, command).wf(),
            self.steady(self.replace_search_commanded(around, command)),
    {
        broadcast use EditorModel::emit_keeps_wf, EditorModel::emit_is_steady;

        match command {
            Command::System(System::Dismiss) => self.prompted_keeps_wf(PromptType::Closed),
            Command::Edit(Edit::InsertNewline) => {
                self.query_known_keeps_wf(around);
            },
            _ => {},
        }
    }

    proof fn query_known_keeps_wf(self, around: Surroundings)
        requires
            self.wf(),
        ensures
            self.query_known(around).wf(),
            self.steady(self.query_known(around)),
    {
        let known = EditorModel { replace_query: around.prompt_value@, ..self };
        known.prompted_keeps_wf(PromptType::Replace);
    }

    proof fn replace_commanded_keeps_wf(self, around: Surroundings, command: Command)
        requires
            self.wf(),
        ensures
            self.replace_commanded(around, command).wf(),
            self.steady(self.replace_commanded(around, command)),
    {
        broadcast use EditorModel::emit_keeps_wf, EditorModel::emit_is_steady;

        self.prompted_keeps_wf(PromptType::Closed);
        self.step(Step::ExitSearch).emit(
            ActionModel::ReplaceAll {
                query: self.replace_query,
                replacement: around.prompt_value@,
            },
        ).prompted_keeps_wf(PromptType::Closed);
    }

    proof fn save_commanded_keeps_wf(self, around: Surroundings, command: Command)
        requires
            self.wf(),
        ensures
            self.save_commanded(around, command).wf(),
            self.steady(self.save_commanded(around, command)),
    {
        broadcast use EditorModel::emit_keeps_wf, EditorModel::emit_is_steady;

        self.prompted_keeps_wf(PromptType::Closed);
        self.emit(ActionModel::SaveAs(around.prompt_value@)).prompted_keeps_wf(PromptType::Closed);
    }

    proof fn create_commanded_keeps_wf(self, around: Surroundings, command: Command, is_dir: bool)
        requires
            self.wf(),
        ensures
            self.create_commanded(around, command, is_dir).wf(),
            self.steady(self.create_commanded(around, command, is_dir)),
    {
        broadcast use EditorModel::emit_keeps_wf, EditorModel::emit_is_steady;

        self.prompted_keeps_wf(PromptType::Closed);
    }

    #[verifier::rlimit(30)]
    proof fn system_commanded_keeps_wf(self, around: Surroundings, command: System)
        requires
            self.wf(),
        ensures
            self.system_commanded(around, command).wf(),
            !(command is ToggleBreakpoint) ==> self.steady(self.system_commanded(around, command)),
            command is ToggleBreakpoint ==> self.steady_but_breakpoints(
                self.system_commanded(around, command),
            ),
    {
        reveal(EditorModel::system_commanded);
        match command {
            System::Quit | System::Resize(_) => {},
            System::ToggleSidebar => self.sidebar_toggled_keeps_wf(around),
            System::FocusSidebar => self.sidebar_focused_keeps_wf(around),
            System::FocusDebuggerSidebar => self.debugger_sidebar_focused_keeps_wf(around),
            System::FocusView => self.view_focused_keeps_wf(),
            System::ToggleTerminal => self.terminal_toggled_keeps_wf(around),
            System::FocusTerminal => self.terminal_focused_keeps_wf(around),
            System::StartDebug => {
                self.debugger_sidebar_focused_keeps_wf(around);
                let shown = self.debugger_sidebar_focused(around);
                shown.resumed_keeps_wf(RequestKind::Continue);
                shown.debug_started_keeps_wf(around);
            },
            System::StopDebug => self.debug_stopped_keeps_wf("Debug session finished."@),
            System::ToggleBreakpoint => self.breakpoint_toggled_keeps_wf(around),
            System::StepOver => self.resumed_keeps_wf(RequestKind::Next),
            System::StepInto => self.resumed_keeps_wf(RequestKind::StepIn),
            System::StepOut => self.resumed_keeps_wf(RequestKind::StepOut),
            System::Continue => self.resumed_keeps_wf(RequestKind::Continue),
            System::Pause => self.pause_asked_keeps_wf(),
            System::RestartDebug => self.restarted_keeps_wf(),
            System::DisconnectDebug => self.disconnect_asked_keeps_wf(),
            System::NextThread => self.thread_selected_keeps_wf(1),
            System::PrevThread => self.thread_selected_keeps_wf(-1),
            System::NextFrame => self.frame_selected_keeps_wf(around, 1),
            System::PrevFrame => self.frame_selected_keeps_wf(around, -1),
            System::NextVariable => self.variable_selected_keeps_wf(1),
            System::PrevVariable => self.variable_selected_keeps_wf(-1),
            System::ExpandVariable => self.variable_expanded_keeps_wf(),
            System::CollapseVariable => self.variable_collapsed_keeps_wf(),
            System::Dismiss => {
                reveal(EditorModel::emit);
            },
            System::Search => self.prompted_keeps_wf(PromptType::Search),
            System::Replace => self.prompted_keeps_wf(PromptType::ReplaceSearch),
            System::Save => self.save_asked_keeps_wf(around),
            System::CreateFile => self.prompted_keeps_wf(PromptType::CreateFile),
            System::CreateFolder => self.prompted_keeps_wf(PromptType::CreateFolder),
        }
    }

    proof fn part_commanded_keeps_wf(self, around: Surroundings, command: Command)
        requires
            self.wf(),
        ensures
            self.part_commanded(around, command).wf(),
            command != Command::System(System::ToggleBreakpoint) ==> self.steady(
                self.part_commanded(around, command),
            ),
            self.steady_but_breakpoints(self.part_commanded(around, command)),
    {
        broadcast use EditorModel::emit_keeps_wf, EditorModel::emit_is_steady;

        if let Command::System(system) = command {
            self.system_commanded_keeps_wf(around, system);
        }
    }

    /// The state stays valid whatever is commanded while no question is asked. Only the command to
    /// quit makes the editor quit, and any other forgets a warning before quitting.
    pub proof fn unprompted_commanded_keeps_wf(self, around: Surroundings, command: Command)
        requires
            self.wf(),
        ensures
            self.unprompted_commanded(around, command).wf(),
            command != Command::System(System::Quit) ==> {
                &&& self.unprompted_commanded(around, command).quit_times == 0
                &&& self.unprompted_commanded(around, command).should_quit == self.should_quit
            },
            command != Command::System(System::ToggleBreakpoint) ==> self.unprompted_commanded(
                around,
                command,
            ).breakpoints == self.breakpoints,
            self.unprompted_commanded(around, command).debug_session ==> self.debug_session,
            self.asks_soundly(self.unprompted_commanded(around, command)),
    {
        if command == Command::System(System::Quit) {
            self.quit_asked_keeps_wf(around);
        } else {
            self.quit_forgotten_keeps_wf();
            self.quit_forgotten().part_commanded_keeps_wf(around, command);
        }
    }

    /// The state stays valid whatever is commanded. Only the command to quit makes the editor quit,
    /// and only while no question is asked. Any other command forgets a warning before quitting
    /// then, but for the one that takes over a size of the screen. Only the command for it changes
    /// the breakpoints, and no command begins a debug session by itself.
    pub proof fn commanded_keeps_wf(self, around: Surroundings, command: Command)
        requires
            self.wf(),
        ensures
            self.commanded(around, command).wf(),
            command != Command::System(System::Quit) || !(self.prompt_type is Closed)
                ==> self.commanded(around, command).should_quit == self.should_quit,
            self.prompt_type is Closed && command != Command::System(System::Quit) && !(
            command matches Command::System(System::Resize(_))) ==> self.commanded(
                around,
                command,
            ).quit_times == 0,
            command != Command::System(System::ToggleBreakpoint) ==> self.commanded(
                around,
                command,
            ).breakpoints == self.breakpoints,
            self.commanded(around, command).debug_session ==> self.debug_session,
            self.asks_soundly(self.commanded(around, command)),
    {
        self.search_commanded_keeps_wf(command);
        self.replace_search_commanded_keeps_wf(around, command);
        self.replace_commanded_keeps_wf(around, command);
        self.save_commanded_keeps_wf(around, command);
        self.create_commanded_keeps_wf(around, command, true);
        self.create_commanded_keeps_wf(around, command, false);
        self.unprompted_commanded_keeps_wf(around, command);
        reveal(EditorModel::emit);
    }
}

impl Editor {
    /// Obeys a command.
    pub fn process_command(&mut self, around: &Surroundings, command: Command)
        requires
            old(self)@.wf(),
            old(self)@.rows_fit(*around, command),
        ensures
            final(self)@ == old(self)@.commanded(*around, command),
            final(self)@.wf(),
    {
        proof {
            self@.commanded_keeps_wf(*around, command);
        }
        if let Command::System(System::Resize(size)) = command {
            self.resize(around, size);
            return;
        }
        match self.prompt_type {
            PromptType::Search => self.process_command_during_search(command),
            PromptType::Save => self.process_command_during_save(around, command),
            PromptType::ReplaceSearch => self.process_command_during_replace_search(
                around,
                command,
            ),
            PromptType::Replace => self.process_command_during_replace(around, command),
            PromptType::CreateFile => self.process_command_during_create(around, command, false),
            PromptType::CreateFolder => self.process_command_during_create(around, command, true),
            PromptType::Closed => self.process_command_no_prompt(around, command),
        }
    }
}

// ---------------------------------------------------------------------------------------------
// Input
// ---------------------------------------------------------------------------------------------
impl EditorModel {
    pub open spec fn shell_has_keyboard(self) -> bool {
        self.terminal_visible && self.terminal_focus
    }

    /// A text is typed into the prompt, one character after the other.
    pub open spec fn typed(self, text: Seq<char>) -> EditorModel
        decreases text.len(),
    {
        if text.len() == 0 {
            self
        } else {
            self.typed(text.drop_last()).step(Step::EditPrompt(Edit::Insert(text.last())))
        }
    }

    /// A text has been pasted. It goes to the prompt, to the shell or to the text view.
    pub open spec fn pasted(self, text: Seq<char>) -> EditorModel {
        if !(self.prompt_type is Closed) {
            self.typed(text)
        } else if self.shell_has_keyboard() {
            self.emit(ActionModel::WriteTerminal(encode_utf8(text)))
        } else if !self.tree_has_keyboard() {
            self.emit(ActionModel::PasteText(text))
        } else {
            self
        }
    }

    pub open spec fn commanded_if_any(
        self,
        around: Surroundings,
        command: Option<Command>,
    ) -> EditorModel {
        match command {
            Some(meant) => self.commanded(around, meant),
            None => self,
        }
    }

    pub open spec fn sent_to_shell(self, bytes: Seq<u8>) -> EditorModel {
        if bytes.len() > 0 {
            self.emit(ActionModel::WriteTerminal(bytes))
        } else {
            self
        }
    }

    /// A key while the shell has the keyboard. The shell gets it unless it is for the editor.
    pub open spec fn shell_key_pressed(
        self,
        around: Surroundings,
        code: KeyCode,
        modifiers: KeyModifiers,
        command: Option<Command>,
    ) -> EditorModel {
        if is_null_key(code, modifiers) || (command matches Some(meant) && leaves_shell(meant)) {
            self.commanded_if_any(around, command)
        } else {
            self.sent_to_shell(shell_bytes(code, modifiers))
        }
    }

    /// An event of the terminal that the editor runs in, and the command it stands for, if any.
    /// Only the press of a key counts, not its release.
    pub open spec fn evaluated(
        self,
        around: Surroundings,
        event: InputEvent,
        command: Option<Command>,
    ) -> EditorModel {
        match event {
            InputEvent::Paste(text) => self.pasted(text@),
            InputEvent::Key { code, modifiers, is_press } => if !is_press {
                self
            } else if self.shell_has_keyboard() && self.prompt_type is Closed {
                self.shell_key_pressed(around, code, modifiers, command)
            } else {
                self.commanded_if_any(around, command)
            },
            InputEvent::Resize => self.commanded_if_any(around, command),
            InputEvent::Other => self,
        }
    }

    proof fn typed_keeps_wf(self, text: Seq<char>)
        requires
            self.wf(),
        ensures
            self.typed(text).wf(),
            self.steady(self.typed(text)),
        decreases text.len(),
    {
        if text.len() > 0 {
            self.typed_keeps_wf(text.drop_last());
            self.typed(text.drop_last()).emit_is_steady(
                ActionModel::Do(Step::EditPrompt(Edit::Insert(text.last()))),
            );
            self.typed(text.drop_last()).emit_keeps_wf(
                ActionModel::Do(Step::EditPrompt(Edit::Insert(text.last()))),
            );
        }
    }

    /// The state stays valid whatever is typed or pasted. Only the command to quit makes the editor
    /// quit, and only while no question is asked. Only the command for it changes the breakpoints,
    /// and no input begins a debug session by itself.
    pub proof fn evaluated_keeps_wf(
        self,
        around: Surroundings,
        event: InputEvent,
        command: Option<Command>,
    )
        requires
            self.wf(),
        ensures
            self.evaluated(around, event, command).wf(),
            command != Some(Command::System(System::Quit)) || !(self.prompt_type is Closed)
                ==> self.evaluated(around, event, command).should_quit == self.should_quit,
            command != Some(Command::System(System::ToggleBreakpoint)) ==> self.evaluated(
                around,
                event,
                command,
            ).breakpoints == self.breakpoints,
            self.evaluated(around, event, command).debug_session ==> self.debug_session,
            self.asks_soundly(self.evaluated(around, event, command)),
    {
        broadcast use EditorModel::emit_keeps_wf, EditorModel::emit_is_steady;

        if let Some(meant) = command {
            self.commanded_keeps_wf(around, meant);
        }
        if let InputEvent::Paste(text) = event {
            self.typed_keeps_wf(text@);
        }
    }
}

impl Editor {
    fn type_text(&mut self, text: &str)
        ensures
            final(self)@ == old(self)@.typed(text@),
    {
        let ghost start = self@;
        let chars = chars_of(text);
        let mut i: usize = 0;
        assert(chars@.take(0) =~= Seq::<char>::empty());
        while i < chars.len()
            invariant
                i <= chars@.len(),
                self@ == start.typed(chars@.take(i as int)),
            decreases chars@.len() - i,
        {
            assert(chars@.take(i + 1).drop_last() =~= chars@.take(i as int));
            self.step(Step::EditPrompt(Edit::Insert(chars[i])));
            i += 1;
        }
        assert(chars@.take(i as int) =~= chars@);
    }

    fn paste(&mut self, text: &String)
        ensures
            final(self)@ == old(self)@.pasted(text@),
    {
        if self.in_prompt() {
            self.type_text(text.as_str());
        } else if self.terminal_visible && self.terminal_focus {
            self.emit(Action::WriteTerminal(text.as_str().as_bytes_vec()));
        } else if !(self.sidebar_visible && self.sidebar_focus) {
            self.emit(Action::PasteText(text.clone()));
        }
    }

    fn process_if_any(&mut self, around: &Surroundings, command: Option<Command>)
        requires
            old(self)@.wf(),
            command matches Some(meant) ==> old(self)@.rows_fit(*around, meant),
        ensures
            final(self)@ == old(self)@.commanded_if_any(*around, command),
    {
        if let Some(meant) = command {
            self.process_command(around, meant);
        }
    }

    fn press_shell_key(
        &mut self,
        around: &Surroundings,
        code: KeyCode,
        modifiers: KeyModifiers,
        command: Option<Command>,
    )
        requires
            old(self)@.wf(),
            command matches Some(meant) ==> old(self)@.rows_fit(*around, meant),
        ensures
            final(self)@ == old(self)@.shell_key_pressed(*around, code, modifiers, command),
    {
        let for_editor: bool = match command {
            Some(meant) => is_for_editor(meant),
            None => false,
        };
        if types_null(code, modifiers) || for_editor {
            self.process_if_any(around, command);
            return;
        }
        let bytes = key_to_shell(code, modifiers);
        if bytes.len() > 0 {
            self.emit(Action::WriteTerminal(bytes));
        }
    }

    /// Deals with an event of the terminal that the editor runs in, and with the command that the
    /// event stands for, if any.
    pub fn evaluate_event(
        &mut self,
        around: &Surroundings,
        event: &InputEvent,
        command: Option<Command>,
    )
        requires
            old(self)@.wf(),
            command matches Some(meant) ==> old(self)@.rows_fit(*around, meant),
        ensures
            final(self)@ == old(self)@.evaluated(*around, *event, command),
            final(self)@.wf(),
    {
        proof {
            self@.evaluated_keeps_wf(*around, *event, command);
        }
        match event {
            InputEvent::Paste(text) => self.paste(text),
            InputEvent::Key { code, modifiers, is_press } => {
                if !*is_press {
                    return;
                }
                if self.terminal_visible && self.terminal_focus && !self.in_prompt() {
                    self.press_shell_key(around, *code, *modifiers, command);
                } else {
                    self.process_if_any(around, command);
                }
            },
            InputEvent::Resize => self.process_if_any(around, command),
            InputEvent::Other => {},
        }
    }
}

// ---------------------------------------------------------------------------------------------
// Waiting for input
// ---------------------------------------------------------------------------------------------
/// What came of waiting for an event of the terminal that the editor runs in.
pub enum Input {
    Nothing,
    /// An event, and the command that it stands for, if any.
    Event(InputEvent, Option<Command>),
    ReadFailed(String),
    PollFailed(String),
}

impl EditorModel {
    /// What came of waiting for input is dealt with.
    pub open spec fn input_taken(self, around: Surroundings, input: Input) -> EditorModel {
        match input {
            Input::Nothing => self,
            Input::Event(event, command) => self.evaluated(around, event, command),
            Input::ReadFailed(error) => self.say("Input error: "@ + error@),
            Input::PollFailed(error) => self.say("Poll error: "@ + error@),
        }
    }
}

impl Editor {
    /// Deals with what came of waiting for input.
    pub fn take_input(&mut self, around: &Surroundings, input: &Input)
        requires
            old(self)@.wf(),
            input matches Input::Event(_, Some(meant)) ==> old(self)@.rows_fit(*around, *meant),
        ensures
            final(self)@ == old(self)@.input_taken(*around, *input),
            final(self)@.wf(),
    {
        broadcast use EditorModel::emit_keeps_wf;

        match input {
            Input::Nothing => {},
            Input::Event(event, command) => self.evaluate_event(around, event, *command),
            Input::ReadFailed(error) => {
                let text = concat2("Input error: ", error.as_str());
                self.update_message(text.as_str());
            },
            Input::PollFailed(error) => {
                let text = concat2("Poll error: ", error.as_str());
                self.update_message(text.as_str());
            },
        }
    }
}

} // verus!
