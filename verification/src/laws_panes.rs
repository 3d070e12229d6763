//! What holds of the parts of the screen: which are shown, which has the keyboard, and what a command
//! means there.
use crate::action::{ActionModel, Part, Step};
use crate::command::{Command, Edit, Move, System};
use crate::editor::{EditorModel, SidebarMode};
use crate::laws_prompts::{asking, lemma_obeyed};
use crate::layout::{Layout, Panes, layout_of};
use crate::prompt::PromptType;
use crate::surroundings::Surroundings;
use vstd::prelude::*;

verus! {

/// How the screen is divided where the sidebar and the terminal pane are shown or not.
pub open spec fn division(
    editor: EditorModel,
    around: Surroundings,
    sidebar: bool,
    terminal: bool,
) -> Layout {
    layout_of(
        editor.terminal_size,
        Panes {
            sidebar_visible: sidebar,
            terminal_visible: terminal,
            debug_active: editor.debug_state.active,
            terminal_rows: around.terminal_rows,
            debug_panel_rows: around.debug_panel_rows,
        },
    )
}

/// The columns that are left beside the sidebar where it is shown, as a shell is told them.
pub open spec fn columns_beside(editor: EditorModel) -> u16 {
    let taken: int = if editor.sidebar_visible {
        24
    } else {
        0
    };
    if editor.terminal_size.width >= taken {
        ((editor.terminal_size.width - taken) % 65536) as u16
    } else {
        0
    }
}

/// What is typed while the text view has the keyboard changes the text there.
pub proof fn law_view_is_edited(editor: EditorModel, around: Surroundings, edit: Edit)
    requires
        editor.prompt_type == PromptType::Closed,
        editor.quit_times == 0,
        !(editor.sidebar_visible && editor.sidebar_focus),
    ensures
        editor.commanded(around, Command::Edit(edit)) == asking(
            editor,
            seq![
                ActionModel::Do(Step::EditView(edit)),
            ],
        ),
{
    reveal(EditorModel::emit);
    let after = editor.commanded(around, Command::Edit(edit));
    assert(after.actions =~= editor.actions + seq![
        ActionModel::Do(Step::EditView(edit)),
    ]);
}

/// A movement while the text view has the keyboard moves the caret there.
pub proof fn law_view_is_moved_in(editor: EditorModel, around: Surroundings, movement: Move)
    requires
        editor.prompt_type == PromptType::Closed,
        editor.quit_times == 0,
        !(editor.sidebar_visible && editor.sidebar_focus),
    ensures
        editor.commanded(around, Command::Move(movement)) == asking(
            editor,
            seq![
                ActionModel::Do(Step::MoveView(movement)),
            ],
        ),
{
    reveal(EditorModel::emit);
    let after = editor.commanded(around, Command::Move(movement));
    assert(after.actions =~= editor.actions + seq![
        ActionModel::Do(Step::MoveView(movement)),
    ]);
}

/// Giving up while the text view has the keyboard drops the selection.
pub proof fn law_selection_is_dropped(editor: EditorModel, around: Surroundings)
    requires
        editor.prompt_type == PromptType::Closed,
        editor.quit_times == 0,
        !(editor.sidebar_visible && editor.sidebar_focus),
    ensures
        editor.commanded(around, Command::System(System::Dismiss)) == asking(
            editor,
            seq![
                ActionModel::Do(Step::ClearSelection),
            ],
        ),
{
    reveal(EditorModel::system_commanded);
    reveal(EditorModel::emit);
    let after = editor.commanded(around, Command::System(System::Dismiss));
    assert(after.actions =~= editor.actions + seq![
        ActionModel::Do(Step::ClearSelection),
    ]);
}

/// A movement that selects no text moves the selection while the file tree has the keyboard.
pub proof fn law_tree_is_moved_in(editor: EditorModel, around: Surroundings, movement: Move)
    requires
        editor.prompt_type == PromptType::Closed,
        editor.quit_times == 0,
        editor.sidebar_visible,
        editor.sidebar_focus,
        editor.sidebar_mode == SidebarMode::Explorer,
        !movement.is_selection,
    ensures
        editor.commanded(around, Command::Move(movement)) == asking(
            editor,
            seq![
                ActionModel::Do(Step::MoveInTree(movement.direction)),
            ],
        ),
{
    reveal(EditorModel::emit);
    let after = editor.commanded(around, Command::Move(movement));
    assert(after.actions =~= editor.actions + seq![
        ActionModel::Do(Step::MoveInTree(movement.direction)),
    ]);
}

/// The entry that is selected is opened by a newline while the file tree has the keyboard.
pub proof fn law_tree_is_entered(editor: EditorModel, around: Surroundings)
    requires
        editor.prompt_type == PromptType::Closed,
        editor.quit_times == 0,
        editor.sidebar_visible,
        editor.sidebar_focus,
        editor.sidebar_mode == SidebarMode::Explorer,
    ensures
        editor.commanded(around, Command::Edit(Edit::InsertNewline)) == asking(
            editor,
            seq![
                ActionModel::Do(Step::EnterInTree),
            ],
        ),
{
    reveal(EditorModel::emit);
    let after = editor.commanded(around, Command::Edit(Edit::InsertNewline));
    assert(after.actions =~= editor.actions + seq![
        ActionModel::Do(Step::EnterInTree),
    ]);
}

/// Giving up while the file tree has the keyboard gives it to the text view.
pub proof fn law_tree_is_left(editor: EditorModel, around: Surroundings)
    requires
        editor.prompt_type == PromptType::Closed,
        editor.quit_times == 0,
        editor.sidebar_visible,
        editor.sidebar_focus,
        editor.sidebar_mode == SidebarMode::Explorer,
    ensures
        editor.commanded(around, Command::System(System::Dismiss)) == asking(
            EditorModel {
                sidebar_focus: false,
                ..editor
            },
            seq![
                ActionModel::Do(Step::Redraw(Part::Sidebar)),
                ActionModel::Do(Step::Redraw(Part::View)),
            ],
        ),
{
    reveal(EditorModel::system_commanded);
    reveal(EditorModel::emit);
    let after = editor.commanded(around, Command::System(System::Dismiss));
    assert(after.actions =~= editor.actions + seq![
        ActionModel::Do(Step::Redraw(Part::Sidebar)),
        ActionModel::Do(Step::Redraw(Part::View)),
    ]);
}

/// Nothing is typed into the file tree, and no text is selected there.
pub proof fn law_tree_is_not_typed_into(editor: EditorModel, around: Surroundings, command: Command)
    requires
        editor.prompt_type == PromptType::Closed,
        editor.quit_times == 0,
        editor.sidebar_visible,
        editor.sidebar_focus,
        match command {
            Command::Edit(edit) => edit != Edit::InsertNewline,
            Command::Move(movement) => movement.is_selection,
            Command::System(_) => false,
        },
    ensures
        editor.commanded(around, command) == editor,
{
}

/// The sidebar appears with the file tree, read anew, and with the keyboard.
pub proof fn law_sidebar_appears(editor: EditorModel, around: Surroundings)
    requires
        editor.prompt_type == PromptType::Closed,
        editor.quit_times == 0,
        !editor.sidebar_visible,
    ensures
        editor.commanded(around, Command::System(System::ToggleSidebar)) == asking(
            EditorModel {
                sidebar_visible: true,
                sidebar_focus: true,
                sidebar_mode: SidebarMode::Explorer,
                ..editor
            },
            seq![
                ActionModel::Do(Step::RebuildTree),
                ActionModel::Do(Step::ApplyLayout(division(editor, around, true, editor.terminal_visible))),
                ActionModel::Do(Step::Redraw(Part::Sidebar)),
                ActionModel::Do(Step::Redraw(Part::View)),
                ActionModel::Do(Step::Redraw(Part::DebugPanel)),
            ],
        ),
{
    lemma_obeyed(editor, around, System::ToggleSidebar);
    reveal(EditorModel::system_commanded);
    reveal(EditorModel::emit);
    let after = editor.commanded(around, Command::System(System::ToggleSidebar));
    assert(after.actions =~= editor.actions + seq![
        ActionModel::Do(Step::RebuildTree),
        ActionModel::Do(Step::ApplyLayout(division(editor, around, true, editor.terminal_visible))),
        ActionModel::Do(Step::Redraw(Part::Sidebar)),
        ActionModel::Do(Step::Redraw(Part::View)),
        ActionModel::Do(Step::Redraw(Part::DebugPanel)),
    ]);
}

/// The sidebar disappears, and the keyboard is not there.
pub proof fn law_sidebar_disappears(editor: EditorModel, around: Surroundings)
    requires
        editor.prompt_type == PromptType::Closed,
        editor.quit_times == 0,
        editor.sidebar_visible,
    ensures
        editor.commanded(around, Command::System(System::ToggleSidebar)) == asking(
            EditorModel {
                sidebar_visible: false,
                sidebar_focus: false,
                ..editor
            },
            seq![
                ActionModel::Do(Step::ApplyLayout(division(editor, around, false, editor.terminal_visible))),
                ActionModel::Do(Step::Redraw(Part::Sidebar)),
                ActionModel::Do(Step::Redraw(Part::View)),
                ActionModel::Do(Step::Redraw(Part::DebugPanel)),
            ],
        ),
{
    lemma_obeyed(editor, around, System::ToggleSidebar);
    reveal(EditorModel::system_commanded);
    reveal(EditorModel::emit);
    let after = editor.commanded(around, Command::System(System::ToggleSidebar));
    assert(after.actions =~= editor.actions + seq![
        ActionModel::Do(Step::ApplyLayout(division(editor, around, false, editor.terminal_visible))),
        ActionModel::Do(Step::Redraw(Part::Sidebar)),
        ActionModel::Do(Step::Redraw(Part::View)),
        ActionModel::Do(Step::Redraw(Part::DebugPanel)),
    ]);
}

/// The file tree, read anew, gets the keyboard where the sidebar is shown.
pub proof fn law_tree_gets_keyboard_shown(editor: EditorModel, around: Surroundings)
    requires
        editor.prompt_type == PromptType::Closed,
        editor.quit_times == 0,
        editor.sidebar_visible,
    ensures
        editor.commanded(around, Command::System(System::FocusSidebar)) == asking(
            EditorModel {
                sidebar_visible: true,
                sidebar_focus: true,
                sidebar_mode: SidebarMode::Explorer,
                ..editor
            },
            seq![
                ActionModel::Do(Step::RebuildTree),
                ActionModel::Do(Step::Redraw(Part::Sidebar)),
                ActionModel::Do(Step::Redraw(Part::View)),
                ActionModel::Do(Step::Redraw(Part::DebugPanel)),
            ],
        ),
{
    lemma_obeyed(editor, around, System::FocusSidebar);
    reveal(EditorModel::system_commanded);
    reveal(EditorModel::emit);
    let after = editor.commanded(around, Command::System(System::FocusSidebar));
    assert(after.actions =~= editor.actions + seq![
        ActionModel::Do(Step::RebuildTree),
        ActionModel::Do(Step::Redraw(Part::Sidebar)),
        ActionModel::Do(Step::Redraw(Part::View)),
        ActionModel::Do(Step::Redraw(Part::DebugPanel)),
    ]);
}

/// The debugger's summary takes the place of the file tree. The keyboard goes to the text view.
pub proof fn law_summary_is_shown_shown(editor: EditorModel, around: Surroundings)
    requires
        editor.prompt_type == PromptType::Closed,
        editor.quit_times == 0,
        editor.sidebar_visible,
    ensures
        editor.commanded(around, Command::System(System::FocusDebuggerSidebar)) == asking(
            EditorModel {
                sidebar_visible: true,
                sidebar_focus: false,
                terminal_focus: false,
                sidebar_mode: SidebarMode::Debugger,
                ..editor
            },
            seq![
                ActionModel::Do(Step::Redraw(Part::Sidebar)),
                ActionModel::Do(Step::Redraw(Part::View)),
                ActionModel::Do(Step::Redraw(Part::DebugPanel)),
            ],
        ),
{
    lemma_obeyed(editor, around, System::FocusDebuggerSidebar);
    reveal(EditorModel::system_commanded);
    reveal(EditorModel::emit);
    let after = editor.commanded(around, Command::System(System::FocusDebuggerSidebar));
    assert(after.actions =~= editor.actions + seq![
        ActionModel::Do(Step::Redraw(Part::Sidebar)),
        ActionModel::Do(Step::Redraw(Part::View)),
        ActionModel::Do(Step::Redraw(Part::DebugPanel)),
    ]);
}

/// The file tree, read anew, gets the keyboard, and the sidebar appears.
#[verifier::rlimit(30)]
pub proof fn law_tree_gets_keyboard_hidden(editor: EditorModel, around: Surroundings)
    requires
        editor.prompt_type == PromptType::Closed,
        editor.quit_times == 0,
        !editor.sidebar_visible,
    ensures
        editor.commanded(around, Command::System(System::FocusSidebar)) == asking(
            EditorModel {
                sidebar_visible: true,
                sidebar_focus: true,
                sidebar_mode: SidebarMode::Explorer,
                ..editor
            },
            seq![
                ActionModel::Do(Step::ApplyLayout(division(editor, around, true, editor.terminal_visible))),
                ActionModel::Do(Step::RebuildTree),
                ActionModel::Do(Step::Redraw(Part::Sidebar)),
                ActionModel::Do(Step::Redraw(Part::View)),
                ActionModel::Do(Step::Redraw(Part::DebugPanel)),
            ],
        ),
{
    lemma_obeyed(editor, around, System::FocusSidebar);
    reveal(EditorModel::system_commanded);
    reveal(EditorModel::emit);
    let after = editor.commanded(around, Command::System(System::FocusSidebar));
    assert(after.actions =~= editor.actions + seq![
        ActionModel::Do(Step::ApplyLayout(division(editor, around, true, editor.terminal_visible))),
        ActionModel::Do(Step::RebuildTree),
        ActionModel::Do(Step::Redraw(Part::Sidebar)),
        ActionModel::Do(Step::Redraw(Part::View)),
        ActionModel::Do(Step::Redraw(Part::DebugPanel)),
    ]);
}

/// The debugger's summary takes the place of the file tree, and the sidebar appears. The keyboard goes to the text view.
#[verifier::rlimit(30)]
pub proof fn law_summary_is_shown_hidden(editor: EditorModel, around: Surroundings)
    requires
        editor.prompt_type == PromptType::Closed,
        editor.quit_times == 0,
        !editor.sidebar_visible,
    ensures
        editor.commanded(around, Command::System(System::FocusDebuggerSidebar)) == asking(
            EditorModel {
                sidebar_visible: true,
                sidebar_focus: false,
                terminal_focus: false,
                sidebar_mode: SidebarMode::Debugger,
                ..editor
            },
            seq![
                ActionModel::Do(Step::ApplyLayout(division(editor, around, true, editor.terminal_visible))),
                ActionModel::Do(Step::Redraw(Part::Sidebar)),
                ActionModel::Do(Step::Redraw(Part::View)),
                ActionModel::Do(Step::Redraw(Part::DebugPanel)),
            ],
        ),
{
    lemma_obeyed(editor, around, System::FocusDebuggerSidebar);
    reveal(EditorModel::system_commanded);
    reveal(EditorModel::emit);
    let after = editor.commanded(around, Command::System(System::FocusDebuggerSidebar));
    assert(after.actions =~= editor.actions + seq![
        ActionModel::Do(Step::ApplyLayout(division(editor, around, true, editor.terminal_visible))),
        ActionModel::Do(Step::Redraw(Part::Sidebar)),
        ActionModel::Do(Step::Redraw(Part::View)),
        ActionModel::Do(Step::Redraw(Part::DebugPanel)),
    ]);
}

/// The text view gets the keyboard, and what is shown stays.
pub proof fn law_view_gets_keyboard(editor: EditorModel, around: Surroundings)
    requires
        editor.prompt_type == PromptType::Closed,
        editor.quit_times == 0,
    ensures
        editor.commanded(around, Command::System(System::FocusView)) == asking(
            EditorModel {
                sidebar_focus: false,
                terminal_focus: false,
                ..editor
            },
            seq![
                ActionModel::Do(Step::Redraw(Part::Sidebar)),
                ActionModel::Do(Step::Redraw(Part::View)),
                ActionModel::Do(Step::Redraw(Part::DebugPanel)),
            ],
        ),
{
    lemma_obeyed(editor, around, System::FocusView);
    reveal(EditorModel::system_commanded);
    reveal(EditorModel::emit);
    let after = editor.commanded(around, Command::System(System::FocusView));
    assert(after.actions =~= editor.actions + seq![
        ActionModel::Do(Step::Redraw(Part::Sidebar)),
        ActionModel::Do(Step::Redraw(Part::View)),
        ActionModel::Do(Step::Redraw(Part::DebugPanel)),
    ]);
}

/// The terminal pane appears with the keyboard, with the shell that is running.
pub proof fn law_terminal_appears_running(editor: EditorModel, around: Surroundings)
    requires
        editor.prompt_type == PromptType::Closed,
        editor.quit_times == 0,
        !editor.terminal_visible,
        around.terminal_running,
    ensures
        editor.commanded(around, Command::System(System::ToggleTerminal)) == asking(
            EditorModel {
                terminal_visible: true,
                terminal_focus: true,
                sidebar_focus: false,
                ..editor
            },
            seq![
                ActionModel::Do(Step::ApplyLayout(division(editor, around, editor.sidebar_visible, true))),
                ActionModel::Do(Step::Redraw(Part::View)),
                ActionModel::Do(Step::Redraw(Part::Terminal)),
                ActionModel::Do(Step::Redraw(Part::DebugPanel)),
            ],
        ),
{
    lemma_obeyed(editor, around, System::ToggleTerminal);
    reveal(EditorModel::system_commanded);
    reveal(EditorModel::emit);
    let after = editor.commanded(around, Command::System(System::ToggleTerminal));
    assert(after.actions =~= editor.actions + seq![
        ActionModel::Do(Step::ApplyLayout(division(editor, around, editor.sidebar_visible, true))),
        ActionModel::Do(Step::Redraw(Part::View)),
        ActionModel::Do(Step::Redraw(Part::Terminal)),
        ActionModel::Do(Step::Redraw(Part::DebugPanel)),
    ]);
}

/// The terminal pane appears where it is not shown, and gets the keyboard.
#[verifier::rlimit(30)]
pub proof fn law_terminal_gets_keyboard_running(editor: EditorModel, around: Surroundings)
    requires
        editor.prompt_type == PromptType::Closed,
        editor.quit_times == 0,
        !editor.terminal_visible,
        around.terminal_running,
    ensures
        editor.commanded(around, Command::System(System::FocusTerminal)) == asking(
            EditorModel {
                terminal_visible: true,
                terminal_focus: true,
                sidebar_focus: false,
                ..editor
            },
            seq![
                ActionModel::Do(Step::ApplyLayout(division(editor, around, editor.sidebar_visible, true))),
                ActionModel::Do(Step::Redraw(Part::Terminal)),
                ActionModel::Do(Step::Redraw(Part::View)),
                ActionModel::Do(Step::Redraw(Part::DebugPanel)),
            ],
        ),
{
    lemma_obeyed(editor, around, System::FocusTerminal);
    reveal(EditorModel::system_commanded);
    reveal(EditorModel::emit);
    let after = editor.commanded(around, Command::System(System::FocusTerminal));
    assert(after.actions =~= editor.actions + seq![
        ActionModel::Do(Step::ApplyLayout(division(editor, around, editor.sidebar_visible, true))),
        ActionModel::Do(Step::Redraw(Part::Terminal)),
        ActionModel::Do(Step::Redraw(Part::View)),
        ActionModel::Do(Step::Redraw(Part::DebugPanel)),
    ]);
}

/// The terminal pane appears with the keyboard, and a shell is started in the workspace.
pub proof fn law_terminal_appears_started(editor: EditorModel, around: Surroundings)
    requires
        editor.prompt_type == PromptType::Closed,
        editor.quit_times == 0,
        !editor.terminal_visible,
        !around.terminal_running,
    ensures
        editor.commanded(around, Command::System(System::ToggleTerminal)) == asking(
            EditorModel {
                terminal_visible: true,
                terminal_focus: true,
                sidebar_focus: false,
                ..editor
            },
            seq![
                ActionModel::StartTerminal {
                    dir: around.workspace_root@,
                    columns: columns_beside(editor),
                },
                ActionModel::Do(Step::ApplyLayout(division(editor, around, editor.sidebar_visible, true))),
                ActionModel::Do(Step::Redraw(Part::View)),
                ActionModel::Do(Step::Redraw(Part::Terminal)),
                ActionModel::Do(Step::Redraw(Part::DebugPanel)),
            ],
        ),
{
    lemma_obeyed(editor, around, System::ToggleTerminal);
    reveal(EditorModel::system_commanded);
    reveal(EditorModel::emit);
    let after = editor.commanded(around, Command::System(System::ToggleTerminal));
    assert(after.actions =~= editor.actions + seq![
        ActionModel::StartTerminal {
                    dir: around.workspace_root@,
                    columns: columns_beside(editor),
                },
        ActionModel::Do(Step::ApplyLayout(division(editor, around, editor.sidebar_visible, true))),
        ActionModel::Do(Step::Redraw(Part::View)),
        ActionModel::Do(Step::Redraw(Part::Terminal)),
        ActionModel::Do(Step::Redraw(Part::DebugPanel)),
    ]);
}

/// The terminal pane appears where it is not shown, and gets the keyboard; a shell is started in the workspace.
#[verifier::rlimit(30)]
pub proof fn law_terminal_gets_keyboard_started(editor: EditorModel, around: Surroundings)
    requires
        editor.prompt_type == PromptType::Closed,
        editor.quit_times == 0,
        !editor.terminal_visible,
        !around.terminal_running,
    ensures
        editor.commanded(around, Command::System(System::FocusTerminal)) == asking(
            EditorModel {
                terminal_visible: true,
                terminal_focus: true,
                sidebar_focus: false,
                ..editor
            },
            seq![
                ActionModel::StartTerminal {
                    dir: around.workspace_root@,
                    columns: columns_beside(editor),
                },
                ActionModel::Do(Step::ApplyLayout(division(editor, around, editor.sidebar_visible, true))),
                ActionModel::Do(Step::Redraw(Part::Terminal)),
                ActionModel::Do(Step::Redraw(Part::View)),
                ActionModel::Do(Step::Redraw(Part::DebugPanel)),
            ],
        ),
{
    lemma_obeyed(editor, around, System::FocusTerminal);
    reveal(EditorModel::system_commanded);
    reveal(EditorModel::emit);
    let after = editor.commanded(around, Command::System(System::FocusTerminal));
    assert(after.actions =~= editor.actions + seq![
        ActionModel::StartTerminal {
                    dir: around.workspace_root@,
                    columns: columns_beside(editor),
                },
        ActionModel::Do(Step::ApplyLayout(division(editor, around, editor.sidebar_visible, true))),
        ActionModel::Do(Step::Redraw(Part::Terminal)),
        ActionModel::Do(Step::Redraw(Part::View)),
        ActionModel::Do(Step::Redraw(Part::DebugPanel)),
    ]);
}

/// The terminal pane disappears, and the keyboard is not there.
pub proof fn law_terminal_disappears(editor: EditorModel, around: Surroundings)
    requires
        editor.prompt_type == PromptType::Closed,
        editor.quit_times == 0,
        editor.terminal_visible,
    ensures
        editor.commanded(around, Command::System(System::ToggleTerminal)) == asking(
            EditorModel {
                terminal_visible: false,
                terminal_focus: false,
                ..editor
            },
            seq![
                ActionModel::Do(Step::ApplyLayout(division(editor, around, editor.sidebar_visible, false))),
                ActionModel::Do(Step::Redraw(Part::View)),
                ActionModel::Do(Step::Redraw(Part::Terminal)),
                ActionModel::Do(Step::Redraw(Part::DebugPanel)),
            ],
        ),
{
    lemma_obeyed(editor, around, System::ToggleTerminal);
    reveal(EditorModel::system_commanded);
    reveal(EditorModel::emit);
    let after = editor.commanded(around, Command::System(System::ToggleTerminal));
    assert(after.actions =~= editor.actions + seq![
        ActionModel::Do(Step::ApplyLayout(division(editor, around, editor.sidebar_visible, false))),
        ActionModel::Do(Step::Redraw(Part::View)),
        ActionModel::Do(Step::Redraw(Part::Terminal)),
        ActionModel::Do(Step::Redraw(Part::DebugPanel)),
    ]);
}

/// The terminal pane gets the keyboard where it is shown.
pub proof fn law_terminal_gets_keyboard_shown(editor: EditorModel, around: Surroundings)
    requires
        editor.prompt_type == PromptType::Closed,
        editor.quit_times == 0,
        editor.terminal_visible,
    ensures
        editor.commanded(around, Command::System(System::FocusTerminal)) == asking(
            EditorModel {
                terminal_focus: true,
                sidebar_focus: false,
                ..editor
            },
            seq![
                ActionModel::Do(Step::Redraw(Part::Terminal)),
                ActionModel::Do(Step::Redraw(Part::View)),
                ActionModel::Do(Step::Redraw(Part::DebugPanel)),
            ],
        ),
{
    lemma_obeyed(editor, around, System::FocusTerminal);
    reveal(EditorModel::system_commanded);
    reveal(EditorModel::emit);
    let after = editor.commanded(around, Command::System(System::FocusTerminal));
    assert(after.actions =~= editor.actions + seq![
        ActionModel::Do(Step::Redraw(Part::Terminal)),
        ActionModel::Do(Step::Redraw(Part::View)),
        ActionModel::Do(Step::Redraw(Part::DebugPanel)),
    ]);
}

} // verus!
