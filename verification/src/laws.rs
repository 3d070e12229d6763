//! What holds of the editor across commands.
use crate::action::{ActionModel, Reply, Step};
use crate::breakpoints::{
    law_toggle_changes_one_file, law_toggle_twice, lemma_file_place, lines_in, toggled_in,
};
use crate::command::{
    Command, Edit, InputEvent, KeyCode, KeyModifiers, Size, System, is_null_key, leaves_shell,
    shell_bytes,
};
use crate::components::{PathPartModel, components};
use crate::dap::{DapEvent, DapMessage};
use crate::debug_events::retry_notice;
use crate::debug_state::{
    DebugModel, ThreadModel, first_usable, law_first_usable, law_steps_cancel, law_thread_place,
    usable,
};
use crate::debugging::caret_line;
use crate::editor::{EditorModel, SidebarMode};
use crate::json::Json;
use crate::layout::{Layout, layout_of};
use crate::panels::quit_warning_text;
use crate::request::{RequestKind, no_arguments_json, stack_trace_json};
use crate::screen::Caret;
use crate::surroundings::Surroundings;
use crate::text::{SIDEBAR_WIDTH, sidebar_row};
use vstd::arithmetic::div_mod::*;
use vstd::prelude::*;

verus! {

// ---------------------------------------------------------------------------------------------
// Prompts
// ---------------------------------------------------------------------------------------------
/// A new size of the screen is taken over whatever is being asked. It changes nothing but the size
/// and asks for nothing but a new division of the screen.
pub proof fn law_resize_always(editor: EditorModel, around: Surroundings, size: Size)
    ensures
        editor.commanded(around, Command::System(System::Resize(size))) == (EditorModel {
            terminal_size: size,
            actions: editor.actions.push(
                ActionModel::Do(Step::ApplyLayout(layout_of(size, editor.panes(around)))),
            ),
            ..editor
        }),
{
    reveal(EditorModel::emit);
}

/// While a question is asked, the editor itself can be told only to give up the question and to
/// take over a size of the screen.
pub proof fn law_questions_come_first(editor: EditorModel, around: Surroundings, command: System)
    requires
        !(editor.prompt_type is Closed),
        !(command is Dismiss),
        !(command is Resize),
    ensures
        editor.commanded(around, Command::System(command)) == editor,
{
}

/// Every question can be given up.
pub proof fn law_dismiss_closes(editor: EditorModel, around: Surroundings)
    requires
        !(editor.prompt_type is Closed),
    ensures
        editor.commanded(around, Command::System(System::Dismiss)).prompt_type is Closed,
{
    reveal(EditorModel::emit);
}

/// Every question is over once it is answered, but for the text to replace, which is followed by the
/// question for the replacement; the text to replace is then known.
pub proof fn law_answer_closes(editor: EditorModel, around: Surroundings)
    requires
        !(editor.prompt_type is Closed),
    ensures
        ({
            let after = editor.commanded(around, Command::Edit(Edit::InsertNewline));
            if editor.prompt_type is ReplaceSearch {
                after.prompt_type is Replace && after.replace_query == around.prompt_value@
            } else {
                after.prompt_type is Closed
            }
        }),
{
    reveal(EditorModel::emit);
}

/// Whether some actions are those before, followed by those that type a text into the prompt.
pub open spec fn types(actions: Seq<ActionModel>, before: Seq<ActionModel>, text: Seq<char>) -> bool {
    &&& actions.len() == before.len() + text.len()
    &&& forall|i: int| 0 <= i < before.len() ==> actions[i] == before[i]
    &&& forall|i: int|
        before.len() <= i < actions.len() ==> actions[i] == ActionModel::Do(
            Step::EditPrompt(Edit::Insert(text[i - before.len()])),
        )
}

/// A text that is pasted into a prompt arrives there character by character, and nothing else
/// changes.
pub proof fn law_paste_into_prompt(editor: EditorModel, text: Seq<char>)
    requires
        !(editor.prompt_type is Closed),
    ensures
        types(editor.pasted(text).actions, editor.actions, text),
        editor.pasted(text) == (EditorModel { actions: editor.pasted(text).actions, ..editor }),
{
    lemma_typed(editor, text);
}

proof fn lemma_inserted(editor: EditorModel, c: char)
    ensures
        ({
            let after = editor.step(Step::EditPrompt(Edit::Insert(c)));
            &&& after == EditorModel { actions: after.actions, ..editor }
            &&& after.actions.len() == editor.actions.len() + 1
            &&& forall|i: int|
                0 <= i < editor.actions.len() ==> after.actions[i] == editor.actions[i]
            &&& after.actions.last() == ActionModel::Do(Step::EditPrompt(Edit::Insert(c)))
        }),
{
    reveal(EditorModel::emit);
}

proof fn lemma_typed(editor: EditorModel, text: Seq<char>)
    ensures
        types(editor.typed(text).actions, editor.actions, text),
        editor.typed(text) == (EditorModel { actions: editor.typed(text).actions, ..editor }),
    decreases text.len(),
{
    if text.len() > 0 {
        lemma_typed(editor, text.drop_last());
        lemma_inserted(editor.typed(text.drop_last()), text.last());
    }
}

// ---------------------------------------------------------------------------------------------
// Quitting
// ---------------------------------------------------------------------------------------------
/// Without unsaved changes the first command to quit is obeyed.
pub proof fn law_quit_at_once(editor: EditorModel, around: Surroundings)
    requires
        editor.prompt_type is Closed,
        !around.is_modified,
    ensures
        editor.commanded(around, Command::System(System::Quit)).should_quit,
{
}

/// With unsaved changes the first command to quit warns, and the second in a row is obeyed.
pub proof fn law_quit_twice(editor: EditorModel, around: Surroundings, later: Surroundings)
    requires
        editor.prompt_type is Closed,
        editor.quit_times == 0,
        !editor.should_quit,
        around.is_modified,
    ensures
        ({
            let warned = editor.commanded(around, Command::System(System::Quit));
            &&& !warned.should_quit
            &&& warned.quit_times == 1
            &&& warned.actions == editor.actions.push(
                ActionModel::Message(quit_warning_text(0)),
            )
            &&& warned.commanded(later, Command::System(System::Quit)).should_quit
        }),
{
    reveal(EditorModel::emit);
}

/// Any other command in between takes the first command to quit back, but for the one that takes
/// over a size of the screen.
pub proof fn law_quit_forgotten(editor: EditorModel, around: Surroundings, command: Command)
    requires
        editor.wf(),
        editor.prompt_type is Closed,
        command != Command::System(System::Quit),
        !(command matches Command::System(System::Resize(_))),
    ensures
        editor.commanded(around, command).quit_times == 0,
{
    editor.commanded_keeps_wf(around, command);
}

/// Nothing but the command to quit makes the editor quit: no other input, no outcome of an action
/// and nothing that a debug session says.
pub proof fn law_only_quit_quits(
    editor: EditorModel,
    around: Surroundings,
    event: InputEvent,
    command: Option<Command>,
    reply: Reply,
    events: Seq<DapEvent>,
)
    requires
        editor.wf(),
        command != Some(Command::System(System::Quit)),
    ensures
        editor.evaluated(around, event, command).should_quit == editor.should_quit,
        editor.replied(around, reply).should_quit == editor.should_quit,
        editor.polled(around, events).should_quit == editor.should_quit,
{
    editor.evaluated_keeps_wf(around, event, command);
    editor.replied_keeps_wf(around, reply);
    editor.polled_keeps_wf(around, events);
}

// ---------------------------------------------------------------------------------------------
// Panes and the keyboard
// ---------------------------------------------------------------------------------------------
/// The text view can always be given the keyboard.
pub proof fn law_focus_view(editor: EditorModel)
    ensures
        !editor.view_focused().tree_has_keyboard(),
        !editor.view_focused().shell_has_keyboard(),
{
    reveal(EditorModel::emit);
}

/// Toggling the sidebar twice leaves it as it was: shown or not.
pub proof fn law_sidebar_toggled_twice(
    editor: EditorModel,
    around: Surroundings,
    later: Surroundings,
)
    ensures
        editor.sidebar_toggled(around).sidebar_visible == !editor.sidebar_visible,
        editor.sidebar_toggled(around).sidebar_toggled(later).sidebar_visible
            == editor.sidebar_visible,
{
    reveal(EditorModel::emit);
}

/// Toggling the terminal pane twice leaves it as it was: shown or not.
pub proof fn law_terminal_toggled_twice(
    editor: EditorModel,
    around: Surroundings,
    later: Surroundings,
)
    ensures
        editor.terminal_toggled(around).terminal_visible == !editor.terminal_visible,
        editor.terminal_toggled(around).terminal_toggled(later).terminal_visible
            == editor.terminal_visible,
{
    reveal(EditorModel::emit);
}

/// The debugger's summary never has the keyboard.
pub proof fn law_summary_is_read_only(editor: EditorModel)
    requires
        editor.wf(),
        editor.sidebar_mode == SidebarMode::Debugger,
    ensures
        !editor.tree_has_keyboard(),
{
}

/// While the shell has the keyboard, a key does nothing but send bytes to the shell, unless it
/// stands for a command that leads away from the shell, or types the null character.
pub proof fn law_shell_gets_keys(
    editor: EditorModel,
    around: Surroundings,
    code: KeyCode,
    modifiers: KeyModifiers,
    command: Option<Command>,
)
    requires
        editor.prompt_type is Closed,
        editor.shell_has_keyboard(),
        !is_null_key(code, modifiers),
        command matches Some(meant) ==> !leaves_shell(meant),
    ensures
        editor.evaluated(around, InputEvent::Key { code, modifiers, is_press: true }, command)
            == if shell_bytes(code, modifiers).len() > 0 {
            editor.emit(ActionModel::WriteTerminal(shell_bytes(code, modifiers)))
        } else {
            editor
        },
{
}

/// While no question is asked, the caret shows who gets the keys, unless both the file tree and the
/// shell were given the keyboard.
pub proof fn law_caret_shows_keyboard(
    editor: EditorModel,
    around: Surroundings,
    layout: Layout,
    code: KeyCode,
    modifiers: KeyModifiers,
    command: Option<Command>,
)
    requires
        editor.wf(),
        editor.prompt_type is Closed,
        !(editor.tree_has_keyboard() && editor.shell_has_keyboard()),
    ensures
        ({
            let after = editor.evaluated(
                around,
                InputEvent::Key { code, modifiers, is_press: true },
                command,
            );
            match editor.caret(around, layout) {
                Caret::InTerminal(_) => editor.shell_has_keyboard() && after
                    == editor.shell_key_pressed(around, code, modifiers, command),
                Caret::InTree => editor.tree_has_keyboard() && after == editor.commanded_if_any(
                    around,
                    command,
                ),
                Caret::InView => !editor.tree_has_keyboard() && after == editor.commanded_if_any(
                    around,
                    command,
                ),
                Caret::At(_) => false,
            }
        }),
{
}

/// The release of a key does nothing.
pub proof fn law_release_does_nothing(
    editor: EditorModel,
    around: Surroundings,
    code: KeyCode,
    modifiers: KeyModifiers,
    command: Option<Command>,
)
    ensures
        editor.evaluated(around, InputEvent::Key { code, modifiers, is_press: false }, command)
            == editor,
{
}

// ---------------------------------------------------------------------------------------------
// The screen
// ---------------------------------------------------------------------------------------------
/// Every row of the sidebar column is as wide as the column.
pub proof fn law_sidebar_row_width(text: Seq<char>)
    ensures
        sidebar_row(text).len() == SIDEBAR_WIDTH,
{
}

/// Nothing is drawn on a screen without room.
pub proof fn law_no_room_no_drawing(editor: EditorModel, around: Surroundings)
    requires
        editor.terminal_size.height == 0 || editor.terminal_size.width == 0,
    ensures
        editor.drawn(around).len() == 0,
{
}

/// Whatever is drawn is drawn as a whole: the caret is hidden first, shown again in the end, and all
/// is written out.
pub proof fn law_drawn_as_a_whole(editor: EditorModel, around: Surroundings)
    requires
        editor.terminal_size.height > 0,
        editor.terminal_size.width > 0,
    ensures
        editor.drawn(around).len() >= 8,
        editor.drawn(around)[1] is BeginUpdate,
        editor.drawn(around)[2] is HideCaret,
        editor.drawn(around)[editor.drawn(around).len() - 3] is ShowCaret,
        editor.drawn(around)[editor.drawn(around).len() - 2] is EndUpdate,
        editor.drawn(around).last() is Flush,
{
}

// ---------------------------------------------------------------------------------------------
// Debugging
// ---------------------------------------------------------------------------------------------
/// Ending a debug session forgets all of it, and ending it once more changes nothing further.
pub proof fn law_stop_is_final(editor: EditorModel, message: Seq<char>)
    ensures
        ({
            let stopped = editor.debug_stopped(message);
            &&& !stopped.debug_session
            &&& stopped.active_debug_adapter is None
            &&& stopped.debug_state == DebugModel::blank()
            &&& !stopped.debug_paused
            &&& !stopped.pending_configuration_done
            &&& stopped.pending_launch_arguments is None
            &&& stopped.current_variables_reference is None
            &&& stopped.variables_reference_stack.len() == 0
            &&& stopped.breakpoints == editor.breakpoints
            &&& stopped.debug_stopped(message) == (EditorModel {
                actions: stopped.debug_stopped(message).actions,
                ..stopped
            })
        }),
{
    reveal(EditorModel::emit);
}

/// The program is launched only once, and the configuration is completed only once, however often a
/// reply or an event gives occasion to.
pub proof fn law_handshake_once(editor: EditorModel)
    ensures
        editor.launch_sent().launch_sent() == editor.launch_sent(),
        editor.configuration_sent().configuration_sent() == editor.configuration_sent(),
{
    reveal(EditorModel::emit);
}

/// Where the configuration is yet to be completed, the breakpoints of all files are sent, and that
/// it is complete comes last. Where it is complete, nothing is sent.
pub proof fn law_breakpoints_before_configuration(editor: EditorModel)
    requires
        editor.wf(),
    ensures
        !editor.configuration_sent().pending_configuration_done,
        editor.pending_configuration_done ==> editor.configuration_sent().actions
            == editor.actions + seq![
            ActionModel::SyncBreakpoints(editor.breakpoints),
            ActionModel::Send {
                kind: RequestKind::ConfigurationDone,
                arguments: no_arguments_json(),
            },
        ],
        !editor.pending_configuration_done ==> editor.configuration_sent() == editor,
{
    reveal(EditorModel::emit);
}

/// The frames of the thread zero are never asked for.
pub proof fn law_no_frames_of_thread_zero(editor: EditorModel)
    requires
        editor.thread() == 0,
    ensures
        editor.stack_requested() == editor,
{
}

/// After a stop, as soon as the threads are known, the current thread is one of them and not the
/// thread zero, if there is such a thread at all.
pub proof fn law_stopped_thread_is_known(editor: EditorModel, threads: Seq<ThreadModel>, i: int)
    requires
        editor.debug_stack_after_threads,
        0 <= i < threads.len(),
        threads[i].id != 0,
    ensures
        ({
            let debug = editor.threads_heard(threads).debug_state;
            &&& debug.threads == threads
            &&& debug.thread() != 0
            &&& exists|k: int| 0 <= k < threads.len() && threads[k].id == debug.thread()
        }),
{
    reveal(EditorModel::emit);
    law_thread_place(threads, editor.thread());
    law_first_usable(threads, 0, true);
    law_first_usable(threads, 0, false);
    assert(usable(threads[i].id, 0, false));
}

/// After a stop, the thread that stopped stays the current one where it is known, and becomes the
/// selected one.
pub proof fn law_known_thread_stays(editor: EditorModel, threads: Seq<ThreadModel>, i: int)
    requires
        editor.debug_stack_after_threads,
        0 <= i < threads.len() <= usize::MAX,
        threads[i].id == editor.thread(),
        editor.thread() != 0,
    ensures
        ({
            let debug = editor.threads_heard(threads).debug_state;
            &&& debug.thread() == editor.thread()
            &&& debug.threads[debug.selected_thread_idx as int].id == editor.thread()
        }),
{
    reveal(EditorModel::emit);
    law_thread_place(threads, editor.thread());
}

/// Delve is asked about another thread but once for each stop.
pub proof fn law_one_retry_for_each_stop(
    editor: EditorModel,
    thread_id: i64,
    stopped_in: Option<i64>,
)
    ensures
        editor.stack_retried(thread_id).retry_thread() is None,
        !editor.paused_in(stopped_in).stacktrace_retry_attempted,
{
    reveal(EditorModel::emit);
}

/// Delve is asked for the frames of another thread exactly where it is used, has not been asked since
/// the last stop and knows one. That thread is the first that can be asked for, but the thread one
/// only where there is no other.
pub proof fn law_retry_asks_another_thread(editor: EditorModel)
    requires
        editor.wf(),
    ensures
        editor.retry_thread() is Some <==> editor.uses_delve() && !editor.stacktrace_retry_attempted
            && exists|i: int|
            0 <= i < editor.debug_state.threads.len() && usable(
                #[trigger] editor.debug_state.threads[i].id,
                editor.thread(),
                false,
            ),
        editor.retry_thread() matches Some(id) ==> {
            let retried = editor.stack_retried(id);
            &&& id == match first_usable(editor.debug_state.threads, editor.thread(), true) {
                Some(other) => other,
                None => 1,
            }
            &&& id != 0 && id != editor.thread()
            &&& retried.thread() == id
            &&& retried.retry_thread() is None
            &&& retried.actions == editor.actions + seq![
                ActionModel::Send {
                    kind: RequestKind::StackTrace,
                    arguments: stack_trace_json(id),
                },
                ActionModel::Message(retry_notice(id)),
            ]
        },
{
    reveal(EditorModel::emit);
    let threads = editor.debug_state.threads;
    law_first_usable(threads, editor.thread(), true);
    law_first_usable(threads, editor.thread(), false);
    if let Some(id) = editor.retry_thread() {
        let i = choose|i: int| 0 <= i < threads.len() && #[trigger] threads[i].id == id;
        assert(usable(threads[i].id, editor.thread(), false));
    }
}

/// Going into a variable and back leads to the variables that were shown before.
pub proof fn law_expand_and_collapse(editor: EditorModel)
    requires
        editor.debug_state.selected_variable() matches Some(variable)
            && variable.variables_reference > 0,
        editor.current_variables_reference is Some,
    ensures
        ({
            let back = editor.variable_expanded().variable_collapsed();
            &&& back.current_variables_reference == editor.current_variables_reference
            &&& back.variables_reference_stack == editor.variables_reference_stack
            &&& back.debug_state.variable_path == editor.debug_state.variable_path
        }),
{
    reveal(EditorModel::emit);
    let current = editor.current_variables_reference->Some_0;
    let name = editor.debug_state.selected_variable()->Some_0.name;
    assert(editor.variables_reference_stack.push(current).drop_last()
        =~= editor.variables_reference_stack);
    assert(editor.debug_state.variable_path.push(name).drop_last()
        =~= editor.debug_state.variable_path);
}

/// Selecting the next thread and then the previous one leads back, and so the other way round.
pub proof fn law_thread_there_and_back(editor: EditorModel, delta: int)
    requires
        editor.debug_state.wf(),
        editor.debug_state.threads.len() <= usize::MAX,
    ensures
        editor.thread_selected(delta).thread_selected(-delta).debug_state.selected_thread_idx
            == editor.debug_state.selected_thread_idx,
{
    reveal(EditorModel::emit);
    let debug = editor.debug_state;
    if debug.threads.len() > 0 {
        law_steps_cancel(debug.selected_thread_idx as int, debug.threads.len(), delta);
        lemma_mod_bound(
            debug.selected_thread_idx + delta,
            debug.threads.len() as int,
        );
    }
}

/// Selecting the next frame and then the previous one leads back, and so the other way round.
pub proof fn law_frame_there_and_back(
    editor: EditorModel,
    around: Surroundings,
    later: Surroundings,
    delta: int,
)
    requires
        editor.debug_state.wf(),
        editor.debug_state.stack_frames.len() <= usize::MAX,
    ensures
        editor.frame_selected(around, delta).frame_selected(
            later,
            -delta,
        ).debug_state.selected_frame_idx == editor.debug_state.selected_frame_idx,
{
    reveal(EditorModel::emit);
    let debug = editor.debug_state;
    if debug.stack_frames.len() > 0 {
        law_steps_cancel(debug.selected_frame_idx as int, debug.stack_frames.len(), delta);
        lemma_mod_bound(
            debug.selected_frame_idx + delta,
            debug.stack_frames.len() as int,
        );
    }
}

/// Selecting the next variable and then the previous one leads back, and so the other way round.
pub proof fn law_variable_there_and_back(editor: EditorModel, delta: int)
    requires
        editor.debug_state.wf(),
        editor.debug_state.variables.len() <= usize::MAX,
    ensures
        editor.variable_selected(delta).variable_selected(-delta) == editor,
{
    let debug = editor.debug_state;
    if debug.variables.len() > 0 {
        law_steps_cancel(debug.selected_variable_idx as int, debug.variables.len(), delta);
        lemma_mod_bound(
            debug.selected_variable_idx + delta,
            debug.variables.len() as int,
        );
    }
}

/// Toggling the breakpoint at the caret twice leaves the breakpoints of every file as they were.
pub proof fn law_breakpoint_toggled_twice(
    editor: EditorModel,
    around: Surroundings,
    file: Seq<PathPartModel>,
)
    requires
        editor.wf(),
    ensures
        lines_in(editor.breakpoint_toggled(around).breakpoint_toggled(around).breakpoints, file)
            == lines_in(editor.breakpoints, file),
{
    reveal(EditorModel::emit);
    if let Some(open) = around.file {
        let line = caret_line(around.line_index);
        let key = components(open.path@, around.path_style);
        law_toggle_changes_one_file(editor.breakpoints, open.path@, key, line);
        let once = toggled_in(editor.breakpoints, open.path@, key, line);
        law_toggle_changes_one_file(once, open.path@, key, line);
        lemma_file_place(editor.breakpoints, key);
        law_toggle_twice(lines_in(editor.breakpoints, key), line);
    }
}

/// Nothing but the command for it changes the breakpoints: no other input, no outcome of an action
/// and nothing that a debug session says, not even its end.
pub proof fn law_breakpoints_stay(
    editor: EditorModel,
    around: Surroundings,
    event: InputEvent,
    command: Option<Command>,
    reply: Reply,
    events: Seq<DapEvent>,
)
    requires
        editor.wf(),
        command != Some(Command::System(System::ToggleBreakpoint)),
    ensures
        editor.evaluated(around, event, command).breakpoints == editor.breakpoints,
        editor.replied(around, reply).breakpoints == editor.breakpoints,
        editor.polled(around, events).breakpoints == editor.breakpoints,
{
    editor.evaluated_keeps_wf(around, event, command);
    editor.replied_keeps_wf(around, reply);
    editor.polled_keeps_wf(around, events);
}

/// Nothing that was asked for is lost: whatever happens, what is asked for comes behind what was
/// asked for before.
pub proof fn law_nothing_is_lost(
    editor: EditorModel,
    around: Surroundings,
    event: InputEvent,
    command: Option<Command>,
    reply: Reply,
    events: Seq<DapEvent>,
)
    requires
        editor.wf(),
    ensures
        editor.actions.is_prefix_of(editor.evaluated(around, event, command).actions),
        editor.actions.is_prefix_of(editor.replied(around, reply).actions),
        editor.actions.is_prefix_of(editor.polled(around, events).actions),
{
    editor.evaluated_keeps_wf(around, event, command);
    editor.replied_keeps_wf(around, reply);
    editor.polled_keeps_wf(around, events);
}

/// Without a debug session no request is sent, whatever is typed.
pub proof fn law_no_request_without_session(
    editor: EditorModel,
    around: Surroundings,
    event: InputEvent,
    command: Option<Command>,
    i: int,
)
    requires
        editor.wf(),
        !editor.debug_session,
        editor.actions.len() <= i < editor.evaluated(around, event, command).actions.len(),
    ensures
        !editor.evaluated(around, event, command).actions[i].sends(),
{
    editor.evaluated_keeps_wf(around, event, command);
}

/// A debug session begins only when it has been opened, not by any input or by what another session
/// says.
pub proof fn law_sessions_are_opened(
    editor: EditorModel,
    around: Surroundings,
    event: InputEvent,
    command: Option<Command>,
    events: Seq<DapEvent>,
)
    requires
        editor.wf(),
        !editor.debug_session,
    ensures
        !editor.evaluated(around, event, command).debug_session,
        !editor.polled(around, events).debug_session,
{
    editor.evaluated_keeps_wf(around, event, command);
    editor.polled_keeps_wf(around, events);
}

proof fn lemma_ending_stays(
    editor: EditorModel,
    around: Surroundings,
    events: Seq<DapEvent>,
    i: int,
)
    requires
        0 <= i < events.len(),
        !(editor.all_heard(around, events.take(i)).ending(events[i]) is GoesOn),
    ensures
        !(editor.all_ending(around, events) is GoesOn),
    decreases events.len(),
{
    if i == events.len() - 1 {
        assert(events.drop_last() =~= events.take(i));
    } else {
        assert(events.drop_last().take(i) =~= events.take(i));
        lemma_ending_stays(editor, around, events.drop_last(), i);
    }
}

/// Once a debug session is closed, or reports that the program has ended, it is gone, whatever else
/// has come from it.
pub proof fn law_end_is_final(
    editor: EditorModel,
    around: Surroundings,
    events: Seq<DapEvent>,
    i: int,
)
    requires
        editor.wf(),
        0 <= i < events.len(),
        match events[i] {
            DapEvent::Closed => true,
            DapEvent::Message(DapMessage::Event { event, .. }) => event@ == "terminated"@ || event@
                == "exited"@,
            _ => false,
        },
    ensures
        !editor.polled(around, events).debug_session,
{
    if editor.debug_session {
        reveal(EditorModel::ending);
        lemma_ending_stays(editor, around, events, i);
        reveal(EditorModel::emit);
    }
}

/// Without a debug session nothing comes from it.
pub proof fn law_no_session_nothing_heard(
    editor: EditorModel,
    around: Surroundings,
    events: Seq<DapEvent>,
)
    requires
        !editor.debug_session,
    ensures
        editor.polled(around, events) == editor,
{
}

/// A command to step or to run on needs a debug session; without one, it says so and sends nothing.
pub proof fn law_no_session_no_request(editor: EditorModel, kind: RequestKind, arguments: Json)
    requires
        !editor.debug_session,
    ensures
        editor.requested(kind, arguments) == editor.say("Debug session is not running."@),
{
}

} // verus!
