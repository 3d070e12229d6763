//! Showing and focusing the sidebar and the terminal pane, asking questions, saving and quitting.
use crate::action::{Action, ActionModel, Part, Step};
use crate::command::{Command, Size, System};
use crate::editor::{Editor, EditorModel, QUIT_TIMES, SidebarMode};
use crate::layout::{left_over, shell_width, to_shell_width};
use crate::prompt::PromptType;
use crate::surroundings::Surroundings;
use crate::text::{concat3, decimal, natural_text};
use vstd::prelude::*;

verus! {

/// The warning of unsaved changes, after so many others.
pub open spec fn quit_warning_text(quit_times: u8) -> Seq<char> {
    "WARNING! File has unsaved changes. Press Ctrl-Q "@ + decimal(QUIT_TIMES - quit_times - 1)
        + " more times to quit."@
}

fn quit_warning(quit_times: u8) -> (warning: String)
    requires
        quit_times < QUIT_TIMES,
    ensures
        warning@ == quit_warning_text(quit_times),
{
    let left = natural_text((QUIT_TIMES - quit_times - 1) as u64);
    concat3(
        "WARNING! File has unsaved changes. Press Ctrl-Q ",
        left.as_str(),
        " more times to quit.",
    )
}

impl EditorModel {
    pub open spec fn redraw_sides(self) -> EditorModel {
        self.redraw(Part::Sidebar).redraw(Part::View).redraw(Part::DebugPanel)
    }

    /// The sidebar is to be seen with the file tree and the keyboard, or not any more.
    pub open spec fn sidebar_flipped(self) -> EditorModel {
        if self.sidebar_visible {
            EditorModel { sidebar_visible: false, sidebar_focus: false, ..self }
        } else {
            EditorModel {
                sidebar_visible: true,
                sidebar_focus: true,
                sidebar_mode: SidebarMode::Explorer,
                ..self
            }.step(Step::RebuildTree)
        }
    }

    /// The sidebar appears with the file tree and the keyboard, or disappears.
    pub open spec fn sidebar_toggled(self, around: Surroundings) -> EditorModel {
        self.sidebar_flipped().resized(around, self.terminal_size).redraw_sides()
    }

    /// The sidebar is there.
    pub open spec fn sidebar_shown(self, around: Surroundings) -> EditorModel {
        if self.sidebar_visible {
            self
        } else {
            EditorModel { sidebar_visible: true, ..self }.resized(around, self.terminal_size)
        }
    }

    /// The file tree is there and has the keyboard.
    pub open spec fn sidebar_focused(self, around: Surroundings) -> EditorModel {
        EditorModel {
            sidebar_mode: SidebarMode::Explorer,
            sidebar_focus: true,
            ..self.sidebar_shown(around)
        }.step(Step::RebuildTree).redraw_sides()
    }

    /// The debugger's summary is there. The keyboard goes to the text view.
    pub open spec fn debugger_sidebar_focused(self, around: Surroundings) -> EditorModel {
        EditorModel {
            sidebar_mode: SidebarMode::Debugger,
            sidebar_focus: false,
            terminal_focus: false,
            ..self.sidebar_shown(around)
        }.redraw_sides()
    }

    /// The text view has the keyboard.
    pub open spec fn view_focused(self) -> EditorModel {
        EditorModel { sidebar_focus: false, terminal_focus: false, ..self }.redraw_sides()
    }

    /// A shell is started where none is running, as wide as the place beside the sidebar.
    pub open spec fn terminal_started(self, around: Surroundings) -> EditorModel {
        if around.terminal_running {
            self
        } else {
            self.emit(
                ActionModel::StartTerminal {
                    dir: around.workspace_root@,
                    columns: shell_width(
                        left_over(
                            self.terminal_size.width as int,
                            self.panes(around).shown_sidebar_width(),
                        ),
                    ),
                },
            )
        }
    }

    /// The terminal pane is to be seen with the keyboard, or not any more.
    pub open spec fn terminal_flipped(self, around: Surroundings) -> EditorModel {
        if self.terminal_visible {
            EditorModel { terminal_visible: false, terminal_focus: false, ..self }
        } else {
            EditorModel {
                terminal_visible: true,
                terminal_focus: true,
                sidebar_focus: false,
                ..self
            }.terminal_started(around)
        }
    }

    /// The terminal pane appears with the keyboard, or disappears.
    pub open spec fn terminal_toggled(self, around: Surroundings) -> EditorModel {
        self.terminal_flipped(around).resized(around, self.terminal_size).redraw(Part::View).redraw(
            Part::Terminal,
        ).redraw(Part::DebugPanel)
    }

    /// The terminal pane is there.
    pub open spec fn terminal_shown(self, around: Surroundings) -> EditorModel {
        if self.terminal_visible {
            self
        } else {
            EditorModel { terminal_visible: true, ..self }.terminal_started(around).resized(
                around,
                self.terminal_size,
            )
        }
    }

    /// The terminal pane is there and has the keyboard.
    pub open spec fn terminal_focused(self, around: Surroundings) -> EditorModel {
        EditorModel {
            terminal_focus: true,
            sidebar_focus: false,
            ..self.terminal_shown(around)
        }.redraw(Part::Terminal).redraw(Part::View).redraw(Part::DebugPanel)
    }

    /// A question is asked, with an empty prompt. A search begins with the questions for a text to
    /// find.
    pub open spec fn prompted(self, prompt: PromptType) -> EditorModel {
        let searching = if prompt is Search || prompt is ReplaceSearch {
            self.step(Step::EnterSearch)
        } else {
            self
        };
        let asked = if prompt is Closed {
            searching.redraw(Part::MessageBar)
        } else {
            searching.emit(ActionModel::Prompt(prompt.question()))
        };
        EditorModel { prompt_type: prompt, ..asked.step(Step::ClearPrompt) }
    }

    /// The text is saved to its file, or its name is asked for.
    pub open spec fn save_asked(self, around: Surroundings) -> EditorModel {
        if around.is_file_loaded {
            self.step(Step::Save)
        } else {
            self.prompted(PromptType::Save)
        }
    }

    /// The editor quits, or warns of unsaved changes where it has not yet done so often enough.
    pub open spec fn quit_asked(self, around: Surroundings) -> EditorModel {
        if !around.is_modified || self.quit_times + 1 == QUIT_TIMES {
            EditorModel { should_quit: true, ..self }
        } else {
            EditorModel { quit_times: (self.quit_times + 1) as u8, ..self }.say(
                quit_warning_text(self.quit_times),
            )
        }
    }

    /// A warning before quitting is forgotten.
    pub open spec fn quit_forgotten(self) -> EditorModel {
        if self.quit_times > 0 {
            EditorModel { quit_times: 0, ..self }.say(""@)
        } else {
            self
        }
    }
}

impl Editor {
    fn redraw_sides(&mut self)
        ensures
            final(self)@ == old(self)@.redraw_sides(),
    {
        self.redraw(Part::Sidebar);
        self.redraw(Part::View);
        self.redraw(Part::DebugPanel);
    }

    fn flip_sidebar(&mut self)
        ensures
            final(self)@ == old(self)@.sidebar_flipped(),
            final(self)@.terminal_visible == old(self)@.terminal_visible,
            final(self)@.debug_state == old(self)@.debug_state,
    {
        broadcast use EditorModel::emit_keeps_panes;

        if self.sidebar_visible {
            self.sidebar_visible = false;
            self.sidebar_focus = false;
        } else {
            self.sidebar_visible = true;
            self.sidebar_focus = true;
            self.sidebar_mode = SidebarMode::Explorer;
            self.step(Step::RebuildTree);
        }
    }

    pub(crate) fn toggle_sidebar(&mut self, around: &Surroundings)
        requires
            old(self)@.panes(*around).wf(),
        ensures
            final(self)@ == old(self)@.sidebar_toggled(*around),
    {
        let size: Size = self.terminal_size;
        self.flip_sidebar();
        self.resize(around, size);
        self.redraw_sides();
    }

    fn show_sidebar(&mut self, around: &Surroundings)
        requires
            old(self)@.panes(*around).wf(),
        ensures
            final(self)@ == old(self)@.sidebar_shown(*around),
    {
        if !self.sidebar_visible {
            self.sidebar_visible = true;
            self.resize(around, self.terminal_size);
        }
    }

    pub(crate) fn focus_sidebar(&mut self, around: &Surroundings)
        requires
            old(self)@.panes(*around).wf(),
        ensures
            final(self)@ == old(self)@.sidebar_focused(*around),
    {
        self.show_sidebar(around);
        self.sidebar_mode = SidebarMode::Explorer;
        self.sidebar_focus = true;
        self.step(Step::RebuildTree);
        self.redraw_sides();
    }

    pub(crate) fn focus_debugger_sidebar(&mut self, around: &Surroundings)
        requires
            old(self)@.panes(*around).wf(),
        ensures
            final(self)@ == old(self)@.debugger_sidebar_focused(*around),
    {
        self.show_sidebar(around);
        self.sidebar_mode = SidebarMode::Debugger;
        self.sidebar_focus = false;
        self.terminal_focus = false;
        self.redraw_sides();
    }

    pub(crate) fn focus_view(&mut self)
        ensures
            final(self)@ == old(self)@.view_focused(),
    {
        self.sidebar_focus = false;
        self.terminal_focus = false;
        self.redraw_sides();
    }

    fn start_terminal_if_needed(&mut self, around: &Surroundings)
        ensures
            final(self)@ == old(self)@.terminal_started(*around),
    {
        if around.terminal_running {
            return;
        }
        let panes = self.current_panes(around);
        let columns: u16 = to_shell_width(
            self.terminal_size.width.saturating_sub(panes.sidebar_width()),
        );
        self.emit(Action::StartTerminal { dir: around.workspace_root.clone(), columns });
    }

    fn flip_terminal(&mut self, around: &Surroundings)
        ensures
            final(self)@ == old(self)@.terminal_flipped(*around),
            final(self)@.terminal_visible == !old(self)@.terminal_visible,
            final(self)@.debug_state == old(self)@.debug_state,
    {
        broadcast use EditorModel::emit_keeps_panes;

        if self.terminal_visible {
            self.terminal_visible = false;
            self.terminal_focus = false;
        } else {
            self.terminal_visible = true;
            self.terminal_focus = true;
            self.sidebar_focus = false;
            self.start_terminal_if_needed(around);
        }
    }

    pub(crate) fn toggle_terminal(&mut self, around: &Surroundings)
        requires
            old(self)@.rows_fit(*around, Command::System(System::ToggleTerminal)),
        ensures
            final(self)@ == old(self)@.terminal_toggled(*around),
    {
        let size: Size = self.terminal_size;
        self.flip_terminal(around);
        self.resize(around, size);
        self.redraw(Part::View);
        self.redraw(Part::Terminal);
        self.redraw(Part::DebugPanel);
    }

    fn show_terminal(&mut self, around: &Surroundings)
        requires
            old(self)@.rows_fit(*around, Command::System(System::FocusTerminal)),
        ensures
            final(self)@ == old(self)@.terminal_shown(*around),
    {
        broadcast use EditorModel::emit_keeps_panes;

        if !self.terminal_visible {
            let size: Size = self.terminal_size;
            self.terminal_visible = true;
            self.start_terminal_if_needed(around);
            self.resize(around, size);
        }
    }

    pub(crate) fn focus_terminal(&mut self, around: &Surroundings)
        requires
            old(self)@.rows_fit(*around, Command::System(System::FocusTerminal)),
        ensures
            final(self)@ == old(self)@.terminal_focused(*around),
    {
        self.show_terminal(around);
        self.terminal_focus = true;
        self.sidebar_focus = false;
        self.redraw(Part::Terminal);
        self.redraw(Part::View);
        self.redraw(Part::DebugPanel);
    }

    pub(crate) fn set_prompt(&mut self, prompt_type: PromptType)
        ensures
            final(self)@ == old(self)@.prompted(prompt_type),
    {
        match prompt_type {
            PromptType::Search | PromptType::ReplaceSearch => self.step(Step::EnterSearch),
            _ => {},
        }
        if prompt_type.is_none() {
            self.redraw(Part::MessageBar);
        } else {
            self.emit(Action::Prompt(prompt_type.question_text()));
        }
        self.step(Step::ClearPrompt);
        self.prompt_type = prompt_type;
    }

    /// Whether a question is being asked.
    pub fn in_prompt(&self) -> (asking: bool)
        ensures
            asking == !(self@.prompt_type is Closed),
    {
        !self.prompt_type.is_none()
    }

    pub(crate) fn handle_save(&mut self, around: &Surroundings)
        ensures
            final(self)@ == old(self)@.save_asked(*around),
    {
        if around.is_file_loaded {
            self.step(Step::Save);
        } else {
            self.set_prompt(PromptType::Save);
        }
    }

    pub(crate) fn handle_quit(&mut self, around: &Surroundings)
        requires
            old(self)@.quit_times < QUIT_TIMES,
        ensures
            final(self)@ == old(self)@.quit_asked(*around),
    {
        if !around.is_modified || self.quit_times + 1 == QUIT_TIMES {
            self.should_quit = true;
        } else {
            let warning = quit_warning(self.quit_times);
            self.quit_times = self.quit_times + 1;
            self.update_message(warning.as_str());
        }
    }

    pub(crate) fn reset_quit_times(&mut self)
        ensures
            final(self)@ == old(self)@.quit_forgotten(),
    {
        if self.quit_times > 0 {
            self.quit_times = 0;
            self.update_message("");
        }
    }
}

// ---------------------------------------------------------------------------------------------
// What always holds
// ---------------------------------------------------------------------------------------------
impl EditorModel {
    pub(crate) proof fn sidebar_toggled_keeps_wf(self, around: Surroundings)
        requires
            self.wf(),
        ensures
            self.sidebar_toggled(around).wf(),
            self.steady(self.sidebar_toggled(around)),
    {
        reveal(EditorModel::emit);
    }

    pub(crate) proof fn sidebar_focused_keeps_wf(self, around: Surroundings)
        requires
            self.wf(),
        ensures
            self.sidebar_focused(around).wf(),
            self.steady(self.sidebar_focused(around)),
    {
        reveal(EditorModel::emit);
    }

    pub(crate) proof fn debugger_sidebar_focused_keeps_wf(self, around: Surroundings)
        requires
            self.wf(),
        ensures
            self.debugger_sidebar_focused(around).wf(),
            self.steady(self.debugger_sidebar_focused(around)),
    {
        reveal(EditorModel::emit);
    }

    pub(crate) proof fn view_focused_keeps_wf(self)
        requires
            self.wf(),
        ensures
            self.view_focused().wf(),
            self.steady(self.view_focused()),
    {
        reveal(EditorModel::emit);
    }

    pub(crate) proof fn terminal_toggled_keeps_wf(self, around: Surroundings)
        requires
            self.wf(),
        ensures
            self.terminal_toggled(around).wf(),
            self.steady(self.terminal_toggled(around)),
    {
        reveal(EditorModel::emit);
    }

    pub(crate) proof fn terminal_focused_keeps_wf(self, around: Surroundings)
        requires
            self.wf(),
        ensures
            self.terminal_focused(around).wf(),
            self.steady(self.terminal_focused(around)),
    {
        reveal(EditorModel::emit);
    }

    pub(crate) proof fn prompted_keeps_wf(self, prompt: PromptType)
        requires
            self.wf(),
        ensures
            self.prompted(prompt).wf(),
            self.steady(self.prompted(prompt)),
    {
        reveal(EditorModel::emit);
    }

    pub(crate) proof fn save_asked_keeps_wf(self, around: Surroundings)
        requires
            self.wf(),
        ensures
            self.save_asked(around).wf(),
            self.steady(self.save_asked(around)),
    {
        reveal(EditorModel::emit);
    }

    pub(crate) proof fn quit_asked_keeps_wf(self, around: Surroundings)
        requires
            self.wf(),
        ensures
            self.quit_asked(around).wf(),
            self.quit_asked(around).breakpoints == self.breakpoints,
            self.quit_asked(around).debug_session ==> self.debug_session,
            self.asks_soundly(self.quit_asked(around)),
    {
        reveal(EditorModel::emit);
    }

    pub(crate) proof fn quit_forgotten_keeps_wf(self)
        requires
            self.wf(),
        ensures
            self.quit_forgotten().wf(),
            self.quit_forgotten().should_quit == self.should_quit,
            self.quit_forgotten().breakpoints == self.breakpoints,
            self.quit_forgotten().debug_session ==> self.debug_session,
            self.asks_soundly(self.quit_forgotten()),
            self.quit_forgotten().quit_times == 0,
    {
        reveal(EditorModel::emit);
    }
}

} // verus!
