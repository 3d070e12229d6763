//! What holds of the outcomes of actions: what follows from each.
use crate::action::{
    ActionModel, Load, LoadModel, LoadReason, NewEntry, NewEntryModel, Part, Reply, Step,
};
use crate::components::folders_above;
use crate::editor::{EditorModel, SidebarMode, StartPath, Startup};
use crate::launch::adapter_models;
use crate::laws_prompts::asking;
use crate::layout::{Panes, layout_of};
use crate::paths::{TargetPaths, workspace_target};
use crate::prompt::PromptType;
use crate::request::RequestKind;
use crate::surroundings::Surroundings;
use crate::text::decimal;
use vstd::prelude::*;

verus! {

/// The title of the window: the name of the text and that of the program.
pub open spec fn window_title(around: Surroundings) -> Seq<char> {
    around.file_name@ + " - den"@
}

/// What is asked for when the status is shown: a label while a program is being debugged, and a title
/// where the window has another.
pub open spec fn status_actions(editor: EditorModel, around: Surroundings) -> Seq<ActionModel> {
    let status = ActionModel::ShowStatus(
        if !editor.debug_state.active {
            None
        } else if editor.debug_paused {
            Some("PAUSED"@)
        } else {
            Some("RUNNING"@)
        },
    );
    if editor.title == window_title(around) {
        seq![status]
    } else {
        seq![status, ActionModel::SetTitle(window_title(around))]
    }
}

proof fn lemma_status(editor: EditorModel, around: Surroundings)
    ensures
        editor.status_refreshed(around) == asking(editor, status_actions(editor, around)),
{
    reveal(EditorModel::emit);
    reveal_strlit(" - ");
    reveal_strlit("den");
    reveal_strlit(" - den");
    assert(around.file_name@ + " - "@ + "den"@ =~= window_title(around));
    let after = editor.status_refreshed(around);
    assert(after.actions =~= editor.actions + status_actions(editor, around));
}

/// The status is shown with its label.
pub proof fn law_status_label(editor: EditorModel)
    ensures
        editor.status_shown() == asking(
            editor,
            seq![
                ActionModel::ShowStatus(
                    if !editor.debug_state.active {
                        None
                    } else if editor.debug_paused {
                        Some("PAUSED"@)
                    } else {
                        Some("RUNNING"@)
                    },
                ),
            ],
        ),
{
    reveal(EditorModel::emit);
    let after = editor.status_shown();
    assert(after.actions =~= editor.actions + seq![after.actions.last()]);
}

/// The title that the window got is known.
pub proof fn law_title_is_known(editor: EditorModel, around: Surroundings, title: String)
    ensures
        editor.replied(around, Reply::TitleSet(title)) == (EditorModel { title: title@, ..editor }),
{
}

/// The file tree is drawn anew where its selection moved, and an error is told.
pub proof fn law_tree_has_moved(
    editor: EditorModel,
    around: Surroundings,
    moved: Result<bool, String>,
)
    ensures
        editor.replied(around, Reply::TreeMoved(moved)) == asking(
            editor,
            match moved {
                Ok(true) => seq![ActionModel::Do(Step::Redraw(Part::Sidebar))],
                Ok(false) => Seq::empty(),
                Err(error) => seq![ActionModel::Message("File tree error: "@ + error@)],
            },
        ),
{
    reveal(EditorModel::emit);
    let after = editor.replied(around, Reply::TreeMoved(moved));
    if after.actions.len() > editor.actions.len() {
        assert(after.actions =~= editor.actions + seq![after.actions.last()]);
    } else {
        assert(after.actions =~= editor.actions + Seq::empty());
    }
}

/// After an entry of the file tree was opened, the tree is drawn anew and a file that was chosen is
/// taken, even where an error was told.
pub proof fn law_tree_was_entered(
    editor: EditorModel,
    around: Surroundings,
    entered: Result<(), String>,
)
    ensures
        editor.replied(around, Reply::TreeEntered(entered)) == asking(
            editor,
            match entered {
                Ok(_) => seq![
                    ActionModel::Do(Step::Redraw(Part::Sidebar)),
                    ActionModel::Do(Step::TakePendingOpen),
                ],
                Err(error) => seq![
                    ActionModel::Message("File tree error: "@ + error@),
                    ActionModel::Do(Step::Redraw(Part::Sidebar)),
                    ActionModel::Do(Step::TakePendingOpen),
                ],
            },
        ),
{
    reveal(EditorModel::emit);
    let after = editor.replied(around, Reply::TreeEntered(entered));
    let first = editor.actions.len() as int;
    match entered {
        Ok(_) => {
            assert(after.actions =~= editor.actions + seq![
                after.actions[first],
                after.actions[first + 1],
            ]);
        },
        Err(_) => {
            assert(after.actions =~= editor.actions + seq![
                after.actions[first],
                after.actions[first + 1],
                after.actions[first + 2],
            ]);
        },
    }
}

/// A file that was chosen in the file tree is loaded.
pub proof fn law_chosen_file_is_loaded(
    editor: EditorModel,
    around: Surroundings,
    path: Option<String>,
)
    ensures
        editor.replied(around, Reply::PendingOpen(path)) == match path {
            Some(chosen) => asking(
                editor,
                seq![
                    ActionModel::LoadFile(
                        LoadModel { path: chosen@, reason: LoadReason::Sidebar },
                    ),
                ],
            ),
            None => editor,
        },
{
    reveal(EditorModel::emit);
    let after = editor.replied(around, Reply::PendingOpen(path));
    if after.actions.len() > editor.actions.len() {
        assert(after.actions =~= editor.actions + seq![after.actions.last()]);
    }
}

/// Once the file that the program was started with is loaded, the status is shown. That it could not
/// be loaded is told by its path.
pub proof fn law_first_file_loaded(
    editor: EditorModel,
    around: Surroundings,
    load: Load,
    loaded: Result<(), String>,
)
    requires
        load.reason == LoadReason::Startup,
    ensures
        editor.replied(around, Reply::Loaded { load, loaded }) == asking(
            editor,
            if loaded is Ok {
                status_actions(editor, around)
            } else {
                seq![ActionModel::Message("ERROR: Could not open file: "@ + load.path@)]
                    + status_actions(editor, around)
            },
        ),
{
    reveal(EditorModel::emit);
    let told = editor.say("ERROR: Could not open file: "@ + load.path@);
    lemma_status(editor, around);
    lemma_status(told, around);
    assert(status_actions(told, around) == status_actions(editor, around));
    let after = editor.replied(around, Reply::Loaded { load, loaded });
    if loaded is Err {
        assert(after.actions =~= editor.actions + (seq![
            ActionModel::Message("ERROR: Could not open file: "@ + load.path@),
        ] + status_actions(editor, around)));
    }
}

proof fn lemma_three_more(
    editor: EditorModel,
    before: Seq<ActionModel>,
    first: ActionModel,
    second: ActionModel,
    third: ActionModel,
)
    ensures
        asking(editor, before).emit(first).emit(second).emit(third) == asking(
            editor,
            before + seq![first, second, third],
        ),
{
    reveal(EditorModel::emit);
    assert((editor.actions + before).push(first).push(second).push(third) =~= editor.actions + (
    before + seq![first, second, third]));
}

/// Once a file from the file tree is loaded, the text view has the keyboard and the status is shown.
/// That it could not be loaded is told with the reason, and the keyboard stays.
pub proof fn law_file_from_the_tree_loaded(
    editor: EditorModel,
    around: Surroundings,
    load: Load,
    loaded: Result<(), String>,
)
    requires
        load.reason == LoadReason::Sidebar,
    ensures
        editor.replied(around, Reply::Loaded { load, loaded }) == match loaded {
            Ok(_) => asking(
                EditorModel { sidebar_focus: false, ..editor },
                status_actions(editor, around) + seq![
                    ActionModel::Message(""@),
                    ActionModel::Do(Step::Redraw(Part::View)),
                    ActionModel::Do(Step::Redraw(Part::Sidebar)),
                ],
            ),
            Err(error) => asking(
                editor,
                seq![
                    ActionModel::Message("ERROR: Could not open file: "@ + error@),
                    ActionModel::Do(Step::Redraw(Part::View)),
                    ActionModel::Do(Step::Redraw(Part::Sidebar)),
                ],
            ),
        },
{
    let left = EditorModel { sidebar_focus: false, ..editor };
    let view = ActionModel::Do(Step::Redraw(Part::View));
    let sidebar = ActionModel::Do(Step::Redraw(Part::Sidebar));
    match loaded {
        Ok(_) => {
            lemma_status(left, around);
            lemma_three_more(
                left,
                status_actions(left, around),
                ActionModel::Message(""@),
                view,
                sidebar,
            );
            assert(status_actions(left, around) == status_actions(editor, around));
        },
        Err(error) => {
            let told = ActionModel::Message("ERROR: Could not open file: "@ + error@);
            lemma_three_more(editor, Seq::empty(), told, view, sidebar);
            assert(editor.actions + Seq::empty() =~= editor.actions);
            assert(Seq::empty() + seq![told, view, sidebar] =~= seq![told, view, sidebar]);
        },
    }
}

/// Once a new file is loaded, the status bar is drawn anew. That it could not be loaded is told.
pub proof fn law_new_file_loaded(
    editor: EditorModel,
    around: Surroundings,
    load: Load,
    loaded: Result<(), String>,
)
    requires
        load.reason == LoadReason::Created,
    ensures
        editor.replied(around, Reply::Loaded { load, loaded }) == asking(
            editor,
            match loaded {
                Ok(_) => seq![ActionModel::Do(Step::Redraw(Part::StatusBar))],
                Err(error) => seq![ActionModel::Message("Open error: "@ + error@)],
            },
        ),
{
    reveal(EditorModel::emit);
    let after = editor.replied(around, Reply::Loaded { load, loaded });
    assert(after.actions =~= editor.actions + seq![after.actions.last()]);
}

/// Whether the text was saved is told.
#[verifier::rlimit(30)]
pub proof fn law_saving_is_told(editor: EditorModel, around: Surroundings, saved: bool)
    ensures
        editor.replied(around, Reply::Saved(saved)) == asking(
            editor,
            seq![
                ActionModel::Message(
                    if saved {
                        "File saved successfully."@
                    } else {
                        "Error writing file!"@
                    },
                ),
            ],
        ),
{
    reveal(EditorModel::emit);
    let after = editor.replied(around, Reply::Saved(saved));
    assert(after.actions =~= editor.actions + seq![after.actions.last()]);
}

/// How many matches were replaced is told.
pub proof fn law_replacing_is_told(editor: EditorModel, around: Surroundings, count: usize)
    ensures
        editor.replied(around, Reply::Replaced(count)) == asking(
            editor,
            seq![
                ActionModel::Message(
                    if count == 0 {
                        "No matches found."@
                    } else {
                        "Replaced "@ + decimal(count as int) + " occurrence(s)."@
                    },
                ),
            ],
        ),
{
    reveal(EditorModel::emit);
    let after = editor.replied(around, Reply::Replaced(count));
    assert(after.actions =~= editor.actions + seq![after.actions.last()]);
}

/// A new entry is created at the place that was found for it. Where it gets none, the reason is told
/// and nothing is created.
pub proof fn law_created_at_its_place(
    editor: EditorModel,
    around: Surroundings,
    entry: NewEntry,
    paths: TargetPaths,
)
    ensures
        editor.replied(around, Reply::TargetInspected { entry, paths }) == asking(
            editor,
            match workspace_target(entry.name@, paths, around.path_style) {
                Ok(target) => seq![
                    ActionModel::Create {
                        entry: NewEntryModel { name: entry.name@, is_dir: entry.is_dir },
                        target,
                    },
                ],
                Err(reason) => seq![ActionModel::Message(reason)],
            },
        ),
{
    reveal(EditorModel::emit);
    let after = editor.replied(around, Reply::TargetInspected { entry, paths });
    assert(after.actions =~= editor.actions + seq![after.actions.last()]);
}

/// A new entry is told by the name that was typed and shown in the file tree; a new file is loaded, a
/// new folder is not. That it could not be created is told with the reason.
#[verifier::rlimit(30)]
pub proof fn law_new_entry_is_shown(
    editor: EditorModel,
    around: Surroundings,
    entry: NewEntry,
    created: Result<String, String>,
)
    ensures
        ({
            let shown = seq![
                ActionModel::Message("Created: "@ + entry.name@),
                ActionModel::Do(Step::RebuildTree),
                ActionModel::Do(Step::Redraw(Part::Sidebar)),
            ];
            editor.replied(around, Reply::Created { entry, created }) == asking(
                editor,
                match created {
                    Ok(path) => if entry.is_dir {
                        shown
                    } else {
                        shown.push(
                            ActionModel::LoadFile(
                                LoadModel { path: path@, reason: LoadReason::Created },
                            ),
                        )
                    },
                    Err(error) => seq![ActionModel::Message("Error: "@ + error@)],
                },
            )
        }),
{
    reveal(EditorModel::emit);
    let shown = seq![
        ActionModel::Message("Created: "@ + entry.name@),
        ActionModel::Do(Step::RebuildTree),
        ActionModel::Do(Step::Redraw(Part::Sidebar)),
    ];
    let after = editor.replied(around, Reply::Created { entry, created });
    match created {
        Ok(path) => {
            if entry.is_dir {
                assert(after.actions =~= editor.actions + shown);
            } else {
                assert(after.actions =~= editor.actions + shown.push(after.actions.last()));
            }
        },
        Err(_) => {
            assert(after.actions =~= editor.actions + seq![after.actions.last()]);
        },
    }
}

/// What is said of an action that failed. Of most nothing is.
pub proof fn law_failures(action: ActionModel, error: Seq<char>)
    ensures
        action.failure(error) == match action {
            ActionModel::Do(Step::EditView(_)) => Some(error),
            ActionModel::Do(Step::RebuildTree) => Some("File tree error: "@ + error),
            ActionModel::StartTerminal { .. } => Some("Terminal error: "@ + error),
            ActionModel::SyncBreakpoints(_) => Some("setBreakpoints sync error: "@ + error),
            ActionModel::Send { kind, .. } => Some(
                (match kind {
                    RequestKind::Initialize => "Debug init error: "@,
                    RequestKind::Launch => "Debug launch error: "@,
                    RequestKind::ConfigurationDone => "DAP configurationDone failed: "@,
                    RequestKind::Threads => "threads request error: "@,
                    RequestKind::StackTrace => "stackTrace request error: "@,
                    RequestKind::Scopes => "scopes request error: "@,
                    RequestKind::Variables => "variables request error: "@,
                    RequestKind::SetBreakpoints => "setBreakpoints error: "@,
                    RequestKind::Continue => "Continue error: "@,
                    RequestKind::Pause => "Pause error: "@,
                    RequestKind::Restart => "Restart error: "@,
                    RequestKind::Disconnect => "Disconnect error: "@,
                    RequestKind::Next => "StepOver error: "@,
                    RequestKind::StepIn => "StepInto error: "@,
                    RequestKind::StepOut => "StepOut error: "@,
                }) + error,
            ),
            _ => None,
        },
{
}

// ---------------------------------------------------------------------------------------------
// The beginning and the end
// ---------------------------------------------------------------------------------------------
/// A path that the program is started with is found: a folder becomes the workspace, a file is loaded
/// and its folder becomes the workspace. Without one the workspace is the folder that the program was
/// started in.
pub proof fn law_what_is_opened(start: Startup)
    ensures
        match start.argument {
            None => start.workspace() == start.cwd@ && start.file() is None
                && !start.shows_sidebar(),
            Some(argument) => match argument.path {
                StartPath::Directory { resolved } => start.file() is None && start.shows_sidebar()
                    && start.workspace() == (match resolved {
                    Some(path) => path@,
                    None => argument.text@,
                }),
                StartPath::File { resolved, resolved_folder } => !start.shows_sidebar()
                    && start.file() == Some(
                    match resolved {
                        Some(path) => path@,
                        None => argument.text@,
                    },
                ) && start.workspace() == (match resolved_folder {
                    Some(path) => path@,
                    None => if folders_above(argument.text@, start.path_style).len() > 0 {
                        folders_above(argument.text@, start.path_style)[0]
                    } else {
                        "."@
                    },
                }),
                _ => start.workspace() == start.cwd@ && start.file() is None
                    && !start.shows_sidebar(),
            },
        },
{
}

/// The editor begins without a question, a session, breakpoints or the keyboard in a pane. The screen
/// is divided first. Then the file is loaded, or the status is shown, behind a complaint of a path
/// that does not exist.
pub proof fn law_beginning(start: Startup, around: Surroundings)
    ensures
        ({
            let editor = EditorModel::started(start, around);
            let divided = ActionModel::Do(
                Step::ApplyLayout(
                    layout_of(
                        start.size,
                        Panes {
                            sidebar_visible: start.shows_sidebar(),
                            terminal_visible: false,
                            debug_active: false,
                            terminal_rows: around.terminal_rows,
                            debug_panel_rows: around.debug_panel_rows,
                        },
                    ),
                ),
            );
            let status = status_actions(EditorModel::initial(start), around);
            let missing = start.argument is Some && start.argument->Some_0.path is Missing;
            &&& !editor.should_quit && editor.quit_times == 0
            &&& editor.prompt_type == PromptType::Closed && editor.terminal_size == start.size
            &&& editor.sidebar_visible == start.shows_sidebar() && !editor.sidebar_focus
            &&& editor.sidebar_mode == SidebarMode::Explorer
            &&& !editor.terminal_visible && !editor.terminal_focus
            &&& editor.debug_adapters == adapter_models(start.adapters@)
            &&& !editor.debug_session && editor.active_debug_adapter is None
            &&& editor.breakpoints.len() == 0 && editor.title.len() == 0
            &&& editor.actions == match start.file() {
                Some(path) => seq![
                    divided,
                    ActionModel::LoadFile(LoadModel { path, reason: LoadReason::Startup }),
                ],
                None => if missing {
                    seq![
                        divided,
                        ActionModel::Message(
                            "ERROR: Path does not exist: "@ + start.argument->Some_0.text@,
                        ),
                    ] + status
                } else {
                    seq![divided] + status
                },
            }
        }),
{
    reveal(EditorModel::emit);
    let initial = EditorModel::initial(start);
    let ready = initial.resized(around, start.size);
    let editor = EditorModel::started(start, around);
    let status = status_actions(initial, around);
    match start.file() {
        Some(path) => {
            assert(editor.actions =~= seq![editor.actions[0], editor.actions[1]]);
        },
        None => {
            let missing = start.argument is Some && start.argument->Some_0.path is Missing;
            if missing {
                let told = ready.say("ERROR: Path does not exist: "@ + start.argument->Some_0.text@);
                lemma_status(told, around);
                assert(status_actions(told, around) == status);
                assert(editor.actions =~= seq![told.actions[0], told.actions[1]] + status);
            } else {
                lemma_status(ready, around);
                assert(status_actions(ready, around) == status);
                assert(editor.actions =~= seq![ready.actions[0]] + status);
            }
        },
    }
}

/// In the end the debug session and the shell are ended, and the screen is given back.
pub proof fn law_ending(editor: EditorModel)
    ensures
        !editor.ended().debug_session,
        editor.ended().actions == editor.actions + seq![
            ActionModel::Do(Step::StopSession),
            ActionModel::Do(Step::SetStopLine(None)),
            ActionModel::Do(Step::ShowDebugState),
            ActionModel::Message("Debug session finished."@),
            ActionModel::Do(Step::StopTerminal),
            ActionModel::Do(Step::LeaveScreen),
        ],
{
    reveal(EditorModel::emit);
    assert(editor.ended().actions =~= editor.actions + seq![
        ActionModel::Do(Step::StopSession),
        ActionModel::Do(Step::SetStopLine(None)),
        ActionModel::Do(Step::ShowDebugState),
        ActionModel::Message("Debug session finished."@),
        ActionModel::Do(Step::StopTerminal),
        ActionModel::Do(Step::LeaveScreen),
    ]);
}

} // verus!
