//! What holds of debugging: what each command asks the debug adapter for, and how selections move.
use crate::action::{ActionModel, Part, Step};
use crate::breakpoints::{
    ascending, law_toggle_changes_one_file, law_toggle_changes_one_line, lemma_file_place,
    lines_in,
};
use crate::command::{Command, System};
use crate::components::{PathPartModel, components};
use crate::debug_state::{DebugModel, offset};
use crate::debugging::caret_line;
use crate::editor::EditorModel;
use crate::json::{Json, items_of, member_of};
use crate::laws_prompts::{asking, lemma_obeyed};
use crate::prompt::PromptType;
use crate::request::{
    RequestKind, breakpoints_json, disconnect_json, frame_json, initialize_json,
    no_arguments_json, pause_json, reference_json, stack_trace_json, thread_json,
};
use crate::surroundings::Surroundings;
use crate::text::decimal;
use vstd::arithmetic::div_mod::*;
use vstd::prelude::*;

verus! {

/// An object with one member.
pub open spec fn object_with(key: Seq<char>, value: Json) -> Json {
    Json::Object(Map::empty().insert(key, value))
}

/// An object without members.
pub open spec fn empty_object() -> Json {
    Json::Object(Map::empty())
}

/// The thread that is current, or zero where none is.
pub open spec fn current_thread(editor: EditorModel) -> int {
    match editor.debug_state.current_thread_id {
        Some(id) => id as int,
        None => 0,
    }
}

/// The place behind one among some, or the first behind the last.
pub open spec fn place_behind(place: int, count: int) -> int {
    if place + 1 < count {
        place + 1
    } else {
        0
    }
}

/// The place before one among some, or the last before the first.
pub open spec fn place_before(place: int, count: int) -> int {
    if place > 0 {
        place - 1
    } else {
        count - 1
    }
}

/// What a debug adapter is asked with.
pub proof fn law_arguments(thread_id: i64, frame_id: i64, reference: i64, adapter: Seq<char>)
    ensures
        no_arguments_json() == empty_object(),
        thread_json(thread_id) == object_with("threadId"@, Json::Int(thread_id as int)),
        pause_json(thread_id) == if thread_id == 0 {
            empty_object()
        } else {
            object_with("threadId"@, Json::Int(thread_id as int))
        },
        frame_json(frame_id) == object_with("frameId"@, Json::Int(frame_id as int)),
        reference_json(reference) == object_with(
            "variablesReference"@,
            Json::Int(reference as int),
        ),
        disconnect_json() == object_with("terminateDebuggee"@, Json::Bool(false)),
{
}

/// The frames that are asked for are the first twenty of a thread.
pub proof fn law_stack_trace_arguments(thread_id: i64)
    ensures
        ({
            let asked = stack_trace_json(thread_id);
            &&& member_of(asked, "threadId"@) == Some(Json::Int(thread_id as int))
            &&& member_of(asked, "startFrame"@) == Some(Json::Int(0))
            &&& member_of(asked, "levels"@) == Some(Json::Int(20))
            &&& asked matches Json::Object(members) && members.dom() =~= set![
                "threadId"@,
                "startFrame"@,
                "levels"@,
            ]
        }),
{
    reveal_strlit("threadId");
    reveal_strlit("startFrame");
    reveal_strlit("levels");
    assert("threadId"@.len() == 8 && "startFrame"@.len() == 10 && "levels"@.len() == 6);
}

/// An adapter is told who the editor is, that lines and columns count from one, and that files go by
/// their paths.
pub proof fn law_introduction(adapter: Seq<char>)
    ensures
        ({
            let told = initialize_json(adapter);
            &&& member_of(told, "clientID"@) == Some(Json::Text("den"@))
            &&& member_of(told, "clientName"@) == Some(Json::Text("den"@))
            &&& member_of(told, "adapterID"@) == Some(Json::Text(adapter))
            &&& member_of(told, "linesStartAt1"@) == Some(Json::Bool(true))
            &&& member_of(told, "columnsStartAt1"@) == Some(Json::Bool(true))
            &&& member_of(told, "pathFormat"@) == Some(Json::Text("path"@))
        }),
{
    reveal_strlit("clientID");
    reveal_strlit("clientName");
    reveal_strlit("adapterID");
    reveal_strlit("linesStartAt1");
    reveal_strlit("columnsStartAt1");
    reveal_strlit("pathFormat");
    assert("clientID"@[0] == 'c' && "adapterID"@[0] == 'a' && "linesStartAt1"@[0] == 'l');
    assert("clientName"@[1] == 'l' && "columnsStartAt1"@[1] == 'o' && "pathFormat"@[0] == 'p');
    assert("clientID"@.len() == 8 && "clientName"@.len() == 10);
}

/// All breakpoints of a source are given, each by its line, in their order.
pub proof fn law_breakpoints_are_listed(source_path: Seq<char>, lines: Seq<i64>)
    ensures
        ({
            let told = breakpoints_json(source_path, lines);
            let listed = items_of(member_of(told, "breakpoints"@));
            &&& member_of(told, "source"@) == Some(object_with("path"@, Json::Text(source_path)))
            &&& member_of(told, "breakpoints"@) == Some(Json::Array(listed))
            &&& listed.len() == lines.len()
            &&& forall|i: int|
                0 <= i < lines.len() ==> #[trigger] listed[i] == object_with(
                    "line"@,
                    Json::Int(lines[i] as int),
                )
            &&& told matches Json::Object(members) && members.dom() =~= set![
                "source"@,
                "breakpoints"@,
            ]
        }),
{
    reveal_strlit("source");
    reveal_strlit("breakpoints");
    assert("source"@.len() == 6 && "breakpoints"@.len() == 11);
}

/// The name of each request in the protocol.
pub proof fn law_request_names()
    ensures
        RequestKind::Initialize.name() == "initialize"@,
        RequestKind::Launch.name() == "launch"@,
        RequestKind::ConfigurationDone.name() == "configurationDone"@,
        RequestKind::Threads.name() == "threads"@,
        RequestKind::StackTrace.name() == "stackTrace"@,
        RequestKind::Scopes.name() == "scopes"@,
        RequestKind::Variables.name() == "variables"@,
        RequestKind::SetBreakpoints.name() == "setBreakpoints"@,
        RequestKind::Continue.name() == "continue"@,
        RequestKind::Pause.name() == "pause"@,
        RequestKind::Restart.name() == "restart"@,
        RequestKind::Disconnect.name() == "disconnect"@,
        RequestKind::Next.name() == "next"@,
        RequestKind::StepIn.name() == "stepIn"@,
        RequestKind::StepOut.name() == "stepOut"@,
{
}

/// The current thread of the program goes over the next line. No line is marked meanwhile.
pub proof fn law_program_steps_over(editor: EditorModel, around: Surroundings)
    requires
        editor.prompt_type == PromptType::Closed,
        editor.quit_times == 0,
        editor.debug_session,
    ensures
        editor.commanded(around, Command::System(System::StepOver)) == asking(
            EditorModel {
                debug_paused: false,
                ..editor
            },
            seq![
                ActionModel::Do(Step::SetStopLine(None)),
                ActionModel::Send { kind: RequestKind::Next, arguments: object_with("threadId"@, Json::Int(current_thread(editor))) },
            ],
        ),
{
    lemma_obeyed(editor, around, System::StepOver);
    reveal(EditorModel::system_commanded);
    reveal(EditorModel::emit);
    let after = editor.commanded(around, Command::System(System::StepOver));
    assert(after.actions =~= editor.actions + seq![
        ActionModel::Do(Step::SetStopLine(None)),
        ActionModel::Send { kind: RequestKind::Next, arguments: object_with("threadId"@, Json::Int(current_thread(editor))) },
    ]);
}

/// The current thread of the program goes into the next call. No line is marked meanwhile.
pub proof fn law_program_steps_into(editor: EditorModel, around: Surroundings)
    requires
        editor.prompt_type == PromptType::Closed,
        editor.quit_times == 0,
        editor.debug_session,
    ensures
        editor.commanded(around, Command::System(System::StepInto)) == asking(
            EditorModel {
                debug_paused: false,
                ..editor
            },
            seq![
                ActionModel::Do(Step::SetStopLine(None)),
                ActionModel::Send { kind: RequestKind::StepIn, arguments: object_with("threadId"@, Json::Int(current_thread(editor))) },
            ],
        ),
{
    lemma_obeyed(editor, around, System::StepInto);
    reveal(EditorModel::system_commanded);
    reveal(EditorModel::emit);
    let after = editor.commanded(around, Command::System(System::StepInto));
    assert(after.actions =~= editor.actions + seq![
        ActionModel::Do(Step::SetStopLine(None)),
        ActionModel::Send { kind: RequestKind::StepIn, arguments: object_with("threadId"@, Json::Int(current_thread(editor))) },
    ]);
}

/// The current thread of the program goes out of the current call. No line is marked meanwhile.
pub proof fn law_program_steps_out(editor: EditorModel, around: Surroundings)
    requires
        editor.prompt_type == PromptType::Closed,
        editor.quit_times == 0,
        editor.debug_session,
    ensures
        editor.commanded(around, Command::System(System::StepOut)) == asking(
            EditorModel {
                debug_paused: false,
                ..editor
            },
            seq![
                ActionModel::Do(Step::SetStopLine(None)),
                ActionModel::Send { kind: RequestKind::StepOut, arguments: object_with("threadId"@, Json::Int(current_thread(editor))) },
            ],
        ),
{
    lemma_obeyed(editor, around, System::StepOut);
    reveal(EditorModel::system_commanded);
    reveal(EditorModel::emit);
    let after = editor.commanded(around, Command::System(System::StepOut));
    assert(after.actions =~= editor.actions + seq![
        ActionModel::Do(Step::SetStopLine(None)),
        ActionModel::Send { kind: RequestKind::StepOut, arguments: object_with("threadId"@, Json::Int(current_thread(editor))) },
    ]);
}

/// The current thread of the program runs on. No line is marked meanwhile.
pub proof fn law_program_runs_on(editor: EditorModel, around: Surroundings)
    requires
        editor.prompt_type == PromptType::Closed,
        editor.quit_times == 0,
        editor.debug_session,
    ensures
        editor.commanded(around, Command::System(System::Continue)) == asking(
            EditorModel {
                debug_paused: false,
                ..editor
            },
            seq![
                ActionModel::Do(Step::SetStopLine(None)),
                ActionModel::Send { kind: RequestKind::Continue, arguments: object_with("threadId"@, Json::Int(current_thread(editor))) },
            ],
        ),
{
    lemma_obeyed(editor, around, System::Continue);
    reveal(EditorModel::system_commanded);
    reveal(EditorModel::emit);
    let after = editor.commanded(around, Command::System(System::Continue));
    assert(after.actions =~= editor.actions + seq![
        ActionModel::Do(Step::SetStopLine(None)),
        ActionModel::Send { kind: RequestKind::Continue, arguments: object_with("threadId"@, Json::Int(current_thread(editor))) },
    ]);
}

/// The program starts again. No line is marked meanwhile.
pub proof fn law_program_restarts(editor: EditorModel, around: Surroundings)
    requires
        editor.prompt_type == PromptType::Closed,
        editor.quit_times == 0,
        editor.debug_session,
    ensures
        editor.commanded(around, Command::System(System::RestartDebug)) == asking(
            EditorModel {
                debug_paused: false,
                ..editor
            },
            seq![
                ActionModel::Do(Step::SetStopLine(None)),
                ActionModel::Send { kind: RequestKind::Restart, arguments: empty_object() },
            ],
        ),
{
    lemma_obeyed(editor, around, System::RestartDebug);
    reveal(EditorModel::system_commanded);
    reveal(EditorModel::emit);
    let after = editor.commanded(around, Command::System(System::RestartDebug));
    assert(after.actions =~= editor.actions + seq![
        ActionModel::Do(Step::SetStopLine(None)),
        ActionModel::Send { kind: RequestKind::Restart, arguments: empty_object() },
    ]);
}

/// The current thread is stopped; where none is current, the program is.
pub proof fn law_thread_is_paused(editor: EditorModel, around: Surroundings)
    requires
        editor.prompt_type == PromptType::Closed,
        editor.quit_times == 0,
        editor.debug_session,
    ensures
        editor.commanded(around, Command::System(System::Pause)) == asking(
            editor,
            seq![
                ActionModel::Send { kind: RequestKind::Pause, arguments: if current_thread(editor) == 0 {
                    empty_object()
                } else {
                    object_with("threadId"@, Json::Int(current_thread(editor)))
                } },
            ],
        ),
{
    lemma_obeyed(editor, around, System::Pause);
    reveal(EditorModel::system_commanded);
    reveal(EditorModel::emit);
    let after = editor.commanded(around, Command::System(System::Pause));
    assert(after.actions =~= editor.actions + seq![
        ActionModel::Send { kind: RequestKind::Pause, arguments: if current_thread(editor) == 0 {
                    empty_object()
                } else {
                    object_with("threadId"@, Json::Int(current_thread(editor)))
                } },
    ]);
}

/// The adapter is told to let go of the program without ending it.
pub proof fn law_adapter_is_left(editor: EditorModel, around: Surroundings)
    requires
        editor.prompt_type == PromptType::Closed,
        editor.quit_times == 0,
        editor.debug_session,
    ensures
        editor.commanded(around, Command::System(System::DisconnectDebug)) == asking(
            editor,
            seq![
                ActionModel::Send { kind: RequestKind::Disconnect, arguments: object_with("terminateDebuggee"@, Json::Bool(false)) },
            ],
        ),
{
    lemma_obeyed(editor, around, System::DisconnectDebug);
    reveal(EditorModel::system_commanded);
    reveal(EditorModel::emit);
    let after = editor.commanded(around, Command::System(System::DisconnectDebug));
    assert(after.actions =~= editor.actions + seq![
        ActionModel::Send { kind: RequestKind::Disconnect, arguments: object_with("terminateDebuggee"@, Json::Bool(false)) },
    ]);
}

/// Without a debug session, a command for the program says so and asks for nothing of it.
pub proof fn law_no_program(editor: EditorModel, around: Surroundings, command: System)
    requires
        editor.prompt_type == PromptType::Closed,
        editor.quit_times == 0,
        !editor.debug_session,
        command == System::StepOver || command == System::StepInto || command == System::StepOut
            || command == System::Continue || command == System::RestartDebug || command
            == System::Pause || command == System::DisconnectDebug,
    ensures
        ({
            let after = editor.commanded(around, Command::System(command));
            &&& after.actions.last() == ActionModel::Message("Debug session is not running."@)
            &&& forall|i: int|
                editor.actions.len() <= i < after.actions.len() - 1 ==> #[trigger] after.actions[i]
                    == ActionModel::Do(Step::SetStopLine(None))
        }),
{
    lemma_obeyed(editor, around, command);
    reveal(EditorModel::system_commanded);
    reveal(EditorModel::emit);
}

/// The session ends by the command for it, and nothing of the program is known any more.
pub proof fn law_session_is_ended(editor: EditorModel, around: Surroundings)
    requires
        editor.prompt_type == PromptType::Closed,
        editor.quit_times == 0,
    ensures
        ({
            let after = editor.commanded(around, Command::System(System::StopDebug));
            &&& after.actions == editor.actions + seq![
                ActionModel::Do(Step::StopSession),
                ActionModel::Do(Step::SetStopLine(None)),
                ActionModel::Do(Step::ShowDebugState),
                ActionModel::Message("Debug session finished."@),
            ]
            &&& !after.debug_session && after.active_debug_adapter is None && !after.debug_paused
            &&& !after.debug_state.active && after.debug_state.current_thread_id is None
            &&& after.debug_state.threads.len() == 0 && after.debug_state.stack_frames.len() == 0
            &&& after.debug_state.variables.len() == 0 && after.debug_state.variable_path.len() == 0
            &&& after.pending_launch_arguments is None && !after.pending_configuration_done
            &&& !after.debug_stack_after_threads && !after.stacktrace_retry_attempted
            &&& !after.pending_continue_after_entry && after.verified_breakpoint_count == 0
            &&& after.current_variables_reference is None
            &&& after.variables_reference_stack.len() == 0
            &&& after.breakpoints == editor.breakpoints && after.debug_adapters
                == editor.debug_adapters
            &&& after.sidebar_visible == editor.sidebar_visible && after.sidebar_focus
                == editor.sidebar_focus && after.sidebar_mode == editor.sidebar_mode
            &&& after.terminal_visible == editor.terminal_visible && after.terminal_focus
                == editor.terminal_focus && after.terminal_size == editor.terminal_size
        }),
{
    lemma_obeyed(editor, around, System::StopDebug);
    reveal(EditorModel::system_commanded);
    reveal(EditorModel::emit);
    let after = editor.commanded(around, Command::System(System::StopDebug));
    assert(after.actions =~= editor.actions + seq![
        ActionModel::Do(Step::StopSession),
        ActionModel::Do(Step::SetStopLine(None)),
        ActionModel::Do(Step::ShowDebugState),
        ActionModel::Message("Debug session finished."@),
    ]);
}

/// The next and the previous of some entries, around the ends.
pub proof fn law_one_step_on(selected: int, len: nat)
    requires
        0 <= selected < len,
    ensures
        offset(selected, len, 1) == place_behind(selected, len as int),
        offset(selected, len, -1) == place_before(selected, len as int),
{
    if selected + 1 < len {
        lemma_small_mod((selected + 1) as nat, len);
    } else {
        lemma_mod_self_0(len as int);
    }
    if selected > 0 {
        lemma_small_mod((selected - 1) as nat, len);
    } else {
        lemma_mod_add_multiples_vanish(-1, len as int);
        lemma_small_mod((len - 1) as nat, len);
    }
}

/// The editor with a thread selected and made the current one. Its frames are asked for, unless it is
/// the thread zero.
pub open spec fn at_thread(editor: EditorModel, place: int) -> EditorModel {
    let id = editor.debug_state.threads[place].id;
    asking(
        EditorModel {
            debug_state: DebugModel {
                selected_thread_idx: place as usize,
                current_thread_id: Some(id),
                ..editor.debug_state
            },
            ..editor
        },
        if id == 0 {
            Seq::empty()
        } else {
            seq![
                ActionModel::Send {
                    kind: RequestKind::StackTrace,
                    arguments: stack_trace_json(id),
                },
            ]
        },
    )
}

proof fn lemma_at_thread(editor: EditorModel, delta: int, place: int)
    requires
        editor.debug_session,
        editor.debug_state.threads.len() > 0,
        place == offset(
            editor.debug_state.selected_thread_idx as int,
            editor.debug_state.threads.len(),
            delta,
        ),
    ensures
        editor.thread_selected(delta) == at_thread(editor, place),
{
    reveal(EditorModel::emit);
    let after = editor.thread_selected(delta);
    let id = editor.debug_state.threads[place].id;
    if id == 0 {
        assert(after.actions =~= editor.actions + Seq::empty());
    } else {
        assert(after.actions =~= editor.actions + seq![
            ActionModel::Send { kind: RequestKind::StackTrace, arguments: stack_trace_json(id) },
        ]);
    }
}

/// The next thread becomes the current one, the first behind the last.
pub proof fn law_next_thread(editor: EditorModel, around: Surroundings)
    requires
        editor.prompt_type == PromptType::Closed,
        editor.quit_times == 0,
        editor.debug_session,
        editor.debug_state.selected_thread_idx < editor.debug_state.threads.len() <= usize::MAX,
    ensures
        editor.commanded(around, Command::System(System::NextThread)) == at_thread(
            editor,
            place_behind(
                editor.debug_state.selected_thread_idx as int,
                editor.debug_state.threads.len() as int,
            ),
        ),
{
    let selected = editor.debug_state.selected_thread_idx as int;
    let count = editor.debug_state.threads.len();
    law_one_step_on(selected, count);
    lemma_at_thread(editor, 1, place_behind(selected, count as int));
    lemma_obeyed(editor, around, System::NextThread);
    reveal(EditorModel::system_commanded);
}

/// The previous thread becomes the current one, the last before the first.
pub proof fn law_previous_thread(editor: EditorModel, around: Surroundings)
    requires
        editor.prompt_type == PromptType::Closed,
        editor.quit_times == 0,
        editor.debug_session,
        editor.debug_state.selected_thread_idx < editor.debug_state.threads.len() <= usize::MAX,
    ensures
        editor.commanded(around, Command::System(System::PrevThread)) == at_thread(
            editor,
            place_before(
                editor.debug_state.selected_thread_idx as int,
                editor.debug_state.threads.len() as int,
            ),
        ),
{
    let selected = editor.debug_state.selected_thread_idx as int;
    let count = editor.debug_state.threads.len();
    law_one_step_on(selected, count);
    lemma_at_thread(editor, -1, place_before(selected, count as int));
    lemma_obeyed(editor, around, System::PrevThread);
    reveal(EditorModel::system_commanded);
}

/// The next variable is selected, around the ends, and nothing else changes; so is the previous one.
pub proof fn law_variables_are_gone_through(
    editor: EditorModel,
    around: Surroundings,
    onward: bool,
)
    requires
        editor.prompt_type == PromptType::Closed,
        editor.quit_times == 0,
        editor.debug_state.selected_variable_idx < editor.debug_state.variables.len() <= usize::MAX,
    ensures
        ({
            let debug = editor.debug_state;
            let after = editor.commanded(
                around,
                Command::System(
                    if onward {
                        System::NextVariable
                    } else {
                        System::PrevVariable
                    },
                ),
            );
            let place = if onward {
                place_behind(debug.selected_variable_idx as int, debug.variables.len() as int)
            } else {
                place_before(debug.selected_variable_idx as int, debug.variables.len() as int)
            };
            after == (EditorModel {
                debug_state: DebugModel { selected_variable_idx: place as usize, ..debug },
                ..editor
            })
        }),
{
    let command = if onward {
        System::NextVariable
    } else {
        System::PrevVariable
    };
    lemma_obeyed(editor, around, command);
    law_one_step_on(
        editor.debug_state.selected_variable_idx as int,
        editor.debug_state.variables.len(),
    );
    reveal(EditorModel::system_commanded);
}

/// The editor with a frame selected. Its scopes are asked for, unless it is the frame zero, its line
/// is marked where its source is the open file, and it is named.
pub open spec fn at_frame(editor: EditorModel, around: Surroundings, place: int) -> EditorModel {
    let frame = editor.debug_state.stack_frames[place];
    let marked = ActionModel::Do(
        Step::SetStopLine(
            if around.file is Some && around.file->Some_0.source_path@ == frame.source_path {
                Some(frame.line)
            } else {
                None
            },
        ),
    );
    let named = ActionModel::Message("Selected frame #"@ + decimal(place) + ": "@ + frame.name);
    asking(
        EditorModel {
            debug_state: DebugModel {
                selected_frame_idx: place as usize,
                ..editor.debug_state
            },
            ..editor
        },
        if frame.id == 0 {
            seq![marked, named]
        } else {
            seq![
                ActionModel::Send {
                    kind: RequestKind::Scopes,
                    arguments: object_with("frameId"@, Json::Int(frame.id as int)),
                },
                marked,
                named,
            ]
        },
    )
}

proof fn lemma_at_frame(editor: EditorModel, around: Surroundings, delta: int, place: int)
    requires
        editor.debug_session,
        0 <= place < editor.debug_state.stack_frames.len() <= usize::MAX,
        place == offset(
            editor.debug_state.selected_frame_idx as int,
            editor.debug_state.stack_frames.len(),
            delta,
        ),
    ensures
        editor.frame_selected(around, delta) == at_frame(editor, around, place),
{
    reveal(EditorModel::emit);
    let after = editor.frame_selected(around, delta);
    let first = editor.actions.len() as int;
    if editor.debug_state.stack_frames[place].id == 0 {
        assert(after.actions =~= editor.actions + seq![
            after.actions[first],
            after.actions[first + 1],
        ]);
    } else {
        assert(after.actions =~= editor.actions + seq![
            after.actions[first],
            after.actions[first + 1],
            after.actions[first + 2],
        ]);
    }
}

/// The next frame is selected, the first behind the last.
pub proof fn law_next_frame(editor: EditorModel, around: Surroundings)
    requires
        editor.prompt_type == PromptType::Closed,
        editor.quit_times == 0,
        editor.debug_session,
        editor.debug_state.selected_frame_idx < editor.debug_state.stack_frames.len() <= usize::MAX,
    ensures
        editor.commanded(around, Command::System(System::NextFrame)) == at_frame(
            editor,
            around,
            place_behind(
                editor.debug_state.selected_frame_idx as int,
                editor.debug_state.stack_frames.len() as int,
            ),
        ),
{
    let selected = editor.debug_state.selected_frame_idx as int;
    let count = editor.debug_state.stack_frames.len();
    law_one_step_on(selected, count);
    lemma_at_frame(editor, around, 1, place_behind(selected, count as int));
    lemma_obeyed(editor, around, System::NextFrame);
    reveal(EditorModel::system_commanded);
}

/// The previous frame is selected, the last before the first.
pub proof fn law_previous_frame(editor: EditorModel, around: Surroundings)
    requires
        editor.prompt_type == PromptType::Closed,
        editor.quit_times == 0,
        editor.debug_session,
        editor.debug_state.selected_frame_idx < editor.debug_state.stack_frames.len() <= usize::MAX,
    ensures
        editor.commanded(around, Command::System(System::PrevFrame)) == at_frame(
            editor,
            around,
            place_before(
                editor.debug_state.selected_frame_idx as int,
                editor.debug_state.stack_frames.len() as int,
            ),
        ),
{
    let selected = editor.debug_state.selected_frame_idx as int;
    let count = editor.debug_state.stack_frames.len();
    law_one_step_on(selected, count);
    lemma_at_frame(editor, around, -1, place_before(selected, count as int));
    lemma_obeyed(editor, around, System::PrevFrame);
    reveal(EditorModel::system_commanded);
}

/// Without threads, frames or variables there is nothing to go through.
pub proof fn law_nothing_to_go_through(
    editor: EditorModel,
    around: Surroundings,
    command: System,
)
    requires
        editor.prompt_type == PromptType::Closed,
        editor.quit_times == 0,
        match command {
            System::NextThread | System::PrevThread => editor.debug_state.threads.len() == 0,
            System::NextFrame | System::PrevFrame => editor.debug_state.stack_frames.len() == 0,
            System::NextVariable | System::PrevVariable => editor.debug_state.variables.len() == 0,
            System::CollapseVariable => editor.variables_reference_stack.len() == 0,
            _ => false,
        },
    ensures
        editor.commanded(around, Command::System(command)) == editor,
{
    lemma_obeyed(editor, around, command);
    reveal(EditorModel::system_commanded);
}

/// The parts of the selected variable are asked for, where it has any. Its name ends the path that
/// is shown, and where the way back leads is kept.
pub proof fn law_variable_is_gone_into(editor: EditorModel, around: Surroundings)
    requires
        editor.prompt_type == PromptType::Closed,
        editor.quit_times == 0,
        editor.debug_session,
        editor.debug_state.selected_variable_idx < editor.debug_state.variables.len(),
    ensures
        ({
            let debug = editor.debug_state;
            let variable = debug.variables[debug.selected_variable_idx as int];
            let after = editor.commanded(around, Command::System(System::ExpandVariable));
            if variable.variables_reference <= 0 {
                after == editor
            } else {
                after == asking(
                    EditorModel {
                        debug_state: DebugModel {
                            variable_path: debug.variable_path.push(variable.name),
                            selected_variable_idx: 0,
                            ..debug
                        },
                        current_variables_reference: Some(variable.variables_reference),
                        variables_reference_stack: match editor.current_variables_reference {
                            Some(reference) => editor.variables_reference_stack.push(reference),
                            None => editor.variables_reference_stack,
                        },
                        ..editor
                    },
                    seq![
                        ActionModel::Send {
                            kind: RequestKind::Variables,
                            arguments: object_with(
                                "variablesReference"@,
                                Json::Int(variable.variables_reference as int),
                            ),
                        },
                    ],
                )
            }
        }),
{
    lemma_obeyed(editor, around, System::ExpandVariable);
    reveal(EditorModel::system_commanded);
    reveal(EditorModel::emit);
    let after = editor.commanded(around, Command::System(System::ExpandVariable));
    if after.actions.len() > editor.actions.len() {
        assert(after.actions =~= editor.actions + seq![after.actions.last()]);
    }
}

/// The variables that were shown before the last was gone into are asked for again.
pub proof fn law_variable_is_left(editor: EditorModel, around: Surroundings)
    requires
        editor.prompt_type == PromptType::Closed,
        editor.quit_times == 0,
        editor.debug_session,
        editor.variables_reference_stack.len() > 0,
        editor.debug_state.variable_path.len() > 0,
    ensures
        ({
            let debug = editor.debug_state;
            let back = editor.variables_reference_stack.last();
            editor.commanded(around, Command::System(System::CollapseVariable)) == asking(
                EditorModel {
                    debug_state: DebugModel {
                        variable_path: debug.variable_path.drop_last(),
                        selected_variable_idx: 0,
                        ..debug
                    },
                    current_variables_reference: Some(back),
                    variables_reference_stack: editor.variables_reference_stack.drop_last(),
                    ..editor
                },
                seq![
                    ActionModel::Send {
                        kind: RequestKind::Variables,
                        arguments: object_with("variablesReference"@, Json::Int(back as int)),
                    },
                ],
            )
        }),
{
    lemma_obeyed(editor, around, System::CollapseVariable);
    reveal(EditorModel::system_commanded);
    reveal(EditorModel::emit);
    let after = editor.commanded(around, Command::System(System::CollapseVariable));
    assert(after.actions =~= editor.actions + seq![after.actions.last()]);
}

/// Lines count from one, and a breakpoint is set in the line that the caret is in.
pub proof fn law_lines_count_from_one(line_index: usize)
    requires
        line_index < i64::MAX,
        line_index < usize::MAX,
    ensures
        caret_line(line_index) == line_index + 1,
{
}

/// A breakpoint is set in the line of the caret, or the one there is removed. In a session the adapter
/// is told all that there now are in the file, by the path that it knows the file by. What was done
/// is said.
#[verifier::rlimit(30)]
pub proof fn law_breakpoint_at_the_caret(editor: EditorModel, around: Surroundings)
    requires
        editor.prompt_type == PromptType::Closed,
        editor.quit_times == 0,
        editor.wf(),
        around.file is Some,
        around.line_index < i64::MAX,
        around.line_index < usize::MAX,
    ensures
        ({
            let open = around.file->Some_0;
            let key = components(open.path@, around.path_style);
            let line = (around.line_index + 1) as i64;
            let after = editor.commanded(around, Command::System(System::ToggleBreakpoint));
            let was = lines_in(editor.breakpoints, key);
            let is = lines_in(after.breakpoints, key);
            let said = ActionModel::Message(
                if was.contains(line) {
                    "Breakpoint removed at line "@ + decimal(around.line_index + 1) + "."@
                } else if editor.debug_session {
                    "Breakpoint set at line "@ + decimal(around.line_index + 1) + "."@
                } else {
                    "Breakpoint set at line "@ + decimal(around.line_index + 1)
                        + " (F5 to start debug)."@
                },
            );
            let drawn = ActionModel::Do(Step::Redraw(Part::View));
            &&& is.contains(line) == !was.contains(line)
            &&& forall|other: i64| other != line ==> is.contains(other) == was.contains(other)
            &&& ascending(is)
            &&& forall|file: Seq<PathPartModel>|
                file != key ==> #[trigger] lines_in(after.breakpoints, file) == lines_in(
                    editor.breakpoints,
                    file,
                )
            &&& after == asking(
                EditorModel { breakpoints: after.breakpoints, ..editor },
                if editor.debug_session {
                    seq![
                        ActionModel::Send {
                            kind: RequestKind::SetBreakpoints,
                            arguments: breakpoints_json(open.source_path@, is),
                        },
                        said,
                        drawn,
                    ]
                } else {
                    seq![said, drawn]
                },
            )
        }),
{
    lemma_obeyed(editor, around, System::ToggleBreakpoint);
    reveal(EditorModel::system_commanded);
    reveal(EditorModel::emit);
    let open = around.file->Some_0;
    let key = components(open.path@, around.path_style);
    let line = caret_line(around.line_index);
    law_lines_count_from_one(around.line_index);
    law_toggle_changes_one_file(editor.breakpoints, open.path@, key, line);
    lemma_file_place(editor.breakpoints, key);
    law_toggle_changes_one_line(lines_in(editor.breakpoints, key), line);
    let after = editor.commanded(around, Command::System(System::ToggleBreakpoint));
    let first = editor.actions.len() as int;
    if editor.debug_session {
        assert(after.actions =~= editor.actions + seq![
            after.actions[first],
            after.actions[first + 1],
            after.actions[first + 2],
        ]);
    } else {
        assert(after.actions =~= editor.actions + seq![
            after.actions[first],
            after.actions[first + 1],
        ]);
    }
}

/// Without a file there is nothing to set a breakpoint in.
pub proof fn law_no_breakpoint_without_a_file(editor: EditorModel, around: Surroundings)
    requires
        editor.prompt_type == PromptType::Closed,
        editor.quit_times == 0,
        around.file is None,
    ensures
        editor.commanded(around, Command::System(System::ToggleBreakpoint)) == asking(
            editor,
            seq![ActionModel::Message("Open a file before toggling breakpoints."@)],
        ),
{
    lemma_obeyed(editor, around, System::ToggleBreakpoint);
    reveal(EditorModel::system_commanded);
    reveal(EditorModel::emit);
    let after = editor.commanded(around, Command::System(System::ToggleBreakpoint));
    assert(after.actions =~= editor.actions + seq![after.actions.last()]);
}

} // verus!
