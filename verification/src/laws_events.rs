//! What holds of a debug session: what the editor makes of each message of the debug adapter.
use crate::action::{ActionModel, Part, Step};
use crate::dap::{
    DapBody, DapEvent, DapMessage, FloatReading, dap_int, dap_int_at, error_detail,
    first_positive, first_reason, frames_of, is_verified, scope_reference, threads_of,
    variables_of, verified_count,
};
use crate::debug_events::EndingModel;
use crate::debug_state::{
    DebugModel, ThreadModel, first_usable, law_first_usable, law_thread_place, preferred_thread,
    thread_place, usable,
};
use crate::editor::EditorModel;
use crate::json::{Json, items_of, json_of, json_text, member_of};
use crate::laws_debugging::{current_thread, empty_object, object_with};
use crate::laws_prompts::asking;
use crate::request::{RequestKind, stack_trace_json};
use crate::surroundings::Surroundings;
use crate::text::{decimal, occurs_in, same_but_case};
use vstd::prelude::*;

verus! {

// ---------------------------------------------------------------------------------------------
// Replies
// ---------------------------------------------------------------------------------------------
/// The reply that grants a request.
pub open spec fn grant(command: String, message: String, body: DapBody) -> DapEvent {
    DapEvent::Message(DapMessage::Response { success: true, command, message, body })
}

/// The reply that refuses a request.
pub open spec fn refusal(command: String, message: String, body: DapBody) -> DapEvent {
    DapEvent::Message(DapMessage::Response { success: false, command, message, body })
}

/// The names of the requests whose replies are looked into are told apart.
pub proof fn lemma_names_differ()
    ensures
        "initialize"@ != "launch"@,
        "initialize"@ != "threads"@,
        "initialize"@ != "stackTrace"@,
        "initialize"@ != "scopes"@,
        "initialize"@ != "variables"@,
        "initialize"@ != "setBreakpoints"@,
        "launch"@ != "threads"@,
        "launch"@ != "stackTrace"@,
        "launch"@ != "scopes"@,
        "launch"@ != "variables"@,
        "launch"@ != "setBreakpoints"@,
        "threads"@ != "stackTrace"@,
        "threads"@ != "scopes"@,
        "threads"@ != "variables"@,
        "threads"@ != "setBreakpoints"@,
        "stackTrace"@ != "scopes"@,
        "stackTrace"@ != "variables"@,
        "stackTrace"@ != "setBreakpoints"@,
        "scopes"@ != "variables"@,
        "scopes"@ != "setBreakpoints"@,
        "variables"@ != "setBreakpoints"@,
{
    reveal_strlit("initialize");
    reveal_strlit("launch");
    reveal_strlit("threads");
    reveal_strlit("stackTrace");
    reveal_strlit("scopes");
    reveal_strlit("variables");
    reveal_strlit("setBreakpoints");
    assert("initialize"@.len() == 10 && "stackTrace"@.len() == 10 && "launch"@.len() == 6
        && "scopes"@.len() == 6 && "threads"@.len() == 7 && "variables"@.len() == 9
        && "setBreakpoints"@.len() == 14);
    assert("initialize"@[0] == 'i' && "stackTrace"@[0] == 's' && "launch"@[0] == 'l'
        && "scopes"@[0] == 's');
}

/// What is heard of a granted request other than the two of the handshake.
proof fn lemma_granted(
    editor: EditorModel,
    around: Surroundings,
    command: String,
    message: String,
    body: DapBody,
)
    requires
        command@ != "initialize"@,
        command@ != "launch"@,
    ensures
        editor.heard(around, grant(command, message, body)) == editor.answered(
            around,
            command@,
            body,
        ),
{
    reveal(EditorModel::heard);
}

/// Once the frames are known, the first that is listed is the one that the program stopped in: it is
/// selected, its line is marked where its source is the open file, and its scopes are asked for,
/// unless it is the frame zero.
pub proof fn law_stopped_in_the_first_frame(
    editor: EditorModel,
    around: Surroundings,
    command: String,
    message: String,
    body: DapBody,
)
    requires
        command@ == "stackTrace"@,
        editor.debug_session,
        items_of(member_of(json_of(body.json), "stackFrames"@)).len() > 0,
    ensures
        ({
            let frames = frames_of(json_of(body.json), body.floats@);
            let marked = ActionModel::Do(
                Step::SetStopLine(
                    if around.file is Some && around.file->Some_0.source_path@
                        == frames[0].source_path {
                        Some(frames[0].line)
                    } else {
                        None
                    },
                ),
            );
            editor.heard(around, grant(command, message, body)) == asking(
                EditorModel {
                    debug_state: DebugModel {
                        stack_frames: frames,
                        selected_frame_idx: 0,
                        ..editor.debug_state
                    },
                    ..editor
                },
                if frames[0].id == 0 {
                    seq![marked]
                } else {
                    seq![
                        marked,
                        ActionModel::Send {
                            kind: RequestKind::Scopes,
                            arguments: object_with("frameId"@, Json::Int(frames[0].id as int)),
                        },
                    ]
                },
            )
        }),
{
    lemma_names_differ();
    lemma_granted(editor, around, command, message, body);
    reveal(EditorModel::emit);
    let after = editor.heard(around, grant(command, message, body));
    let first = editor.actions.len() as int;
    if frames_of(json_of(body.json), body.floats@)[0].id == 0 {
        assert(after.actions =~= editor.actions + seq![after.actions[first]]);
    } else {
        assert(after.actions =~= editor.actions + seq![
            after.actions[first],
            after.actions[first + 1],
        ]);
    }
}

/// Where no frames are listed, no line is marked and nothing is asked for.
pub proof fn law_no_frame_no_line(
    editor: EditorModel,
    around: Surroundings,
    command: String,
    message: String,
    body: DapBody,
)
    requires
        command@ == "stackTrace"@,
        items_of(member_of(json_of(body.json), "stackFrames"@)).len() == 0,
    ensures
        editor.heard(around, grant(command, message, body)) == asking(
            EditorModel {
                debug_state: DebugModel {
                    stack_frames: Seq::empty(),
                    selected_frame_idx: 0,
                    ..editor.debug_state
                },
                ..editor
            },
            seq![ActionModel::Do(Step::SetStopLine(None))],
        ),
{
    lemma_names_differ();
    lemma_granted(editor, around, command, message, body);
    reveal(EditorModel::emit);
    let after = editor.heard(around, grant(command, message, body));
    assert(frames_of(json_of(body.json), body.floats@) =~= Seq::empty());
    assert(after.actions =~= editor.actions + seq![ActionModel::Do(Step::SetStopLine(None))]);
}

/// The number that a value is, where it is one that fits.
pub open spec fn holds_int(json: Option<Json>, n: int) -> bool {
    json == Some(Json::Int(n)) && i64::MIN <= n <= i64::MAX
}

/// Each frame of a reply is listed in its place, under the number and the name that the reply gives
/// it, at its line and column and in its source.
pub proof fn law_frames_are_read(json: Json, floats: Seq<FloatReading>, i: int)
    requires
        0 <= i < items_of(member_of(json, "stackFrames"@)).len(),
    ensures
        ({
            let item = items_of(member_of(json, "stackFrames"@))[i];
            let frame = frames_of(json, floats)[i];
            let source = member_of(item, "source"@);
            &&& frames_of(json, floats).len() == items_of(member_of(json, "stackFrames"@)).len()
            &&& forall|n: int| #[trigger]
                holds_int(member_of(item, "id"@), n) ==> frame.id == n
            &&& member_of(item, "id"@) is None ==> frame.id == 0
            &&& frame.name == (match member_of(item, "name"@) {
                Some(Json::Text(name)) => name,
                _ => Seq::empty(),
            })
            &&& forall|n: int| #[trigger]
                holds_int(member_of(item, "line"@), n) ==> frame.line == n
            &&& !(member_of(item, "line"@) matches Some(Json::Int(_))) ==> frame.line == 0
            &&& forall|n: int| #[trigger]
                holds_int(member_of(item, "column"@), n) ==> frame.column == n
            &&& !(member_of(item, "column"@) matches Some(Json::Int(_))) ==> frame.column == 0
            &&& frame.source_path == (match source {
                Some(found) => match member_of(found, "path"@) {
                    Some(Json::Text(path)) => path,
                    _ => Seq::empty(),
                },
                None => Seq::empty(),
            })
        }),
{
}

/// Each thread of a reply is listed in its place, under the number and the name that the reply gives
/// it.
pub proof fn law_threads_are_read(json: Json, floats: Seq<FloatReading>, i: int)
    requires
        0 <= i < items_of(member_of(json, "threads"@)).len(),
    ensures
        ({
            let item = items_of(member_of(json, "threads"@))[i];
            let thread = threads_of(json, floats)[i];
            &&& threads_of(json, floats).len() == items_of(member_of(json, "threads"@)).len()
            &&& forall|n: int| #[trigger]
                holds_int(member_of(item, "id"@), n) ==> thread.id == n
            &&& member_of(item, "id"@) is None ==> thread.id == 0
            &&& thread.name == (match member_of(item, "name"@) {
                Some(Json::Text(name)) => name,
                _ => Seq::empty(),
            })
        }),
{
}

/// Each variable of a reply is listed in its place, under its name, with its value as it is shown, its
/// type and where its parts are found.
pub proof fn law_variables_are_read(json: Json, floats: Seq<FloatReading>, i: int)
    requires
        0 <= i < items_of(member_of(json, "variables"@)).len(),
    ensures
        ({
            let item = items_of(member_of(json, "variables"@))[i];
            let variable = variables_of(json, floats)[i];
            &&& variables_of(json, floats).len() == items_of(member_of(json, "variables"@)).len()
            &&& variable.name == (match member_of(item, "name"@) {
                Some(Json::Text(name)) => name,
                _ => Seq::empty(),
            })
            &&& variable.value == (match member_of(item, "value"@) {
                Some(Json::Text(value)) => value,
                Some(Json::Int(n)) => decimal(n),
                Some(Json::Bool(true)) => "true"@,
                Some(Json::Bool(false)) => "false"@,
                Some(Json::Null) | None => Seq::empty(),
                Some(Json::Float(printed)) => printed,
                Some(other) => json_text(other),
            })
            &&& variable.type_label == (match member_of(item, "type"@) {
                Some(Json::Text(label)) => label,
                _ => Seq::empty(),
            })
            &&& forall|n: int| #[trigger]
                holds_int(member_of(item, "variablesReference"@), n)
                    ==> variable.variables_reference == n
            &&& member_of(item, "variablesReference"@) is None ==> variable.variables_reference == 0
        }),
{
}

/// The reference of a scope, or zero where it has none.
pub open spec fn reference_at(scopes: Seq<Json>, floats: Seq<FloatReading>, i: int) -> int {
    match dap_int_at(scopes[i], "variablesReference"@, floats) {
        Some(reference) => reference as int,
        None => 0,
    }
}

proof fn lemma_first_positive(scopes: Seq<Json>, floats: Seq<FloatReading>)
    ensures
        match first_positive(scopes, floats) {
            Some(reference) => exists|i: int|
                0 <= i < scopes.len() && #[trigger] reference_at(scopes, floats, i) == reference
                    && reference > 0 && forall|j: int|
                    0 <= j < i ==> #[trigger] reference_at(scopes, floats, j) <= 0,
            None => forall|i: int|
                0 <= i < scopes.len() ==> #[trigger] reference_at(scopes, floats, i) <= 0,
        },
    decreases scopes.len(),
{
    if scopes.len() > 0 {
        let rest = scopes.skip(1);
        lemma_first_positive(rest, floats);
        assert(forall|i: int|
            0 <= i < rest.len() ==> #[trigger] reference_at(rest, floats, i) == reference_at(
                scopes,
                floats,
                i + 1,
            ));
        if reference_at(scopes, floats, 0) > 0 {
            assert(reference_at(scopes, floats, 0) == first_positive(scopes, floats)->Some_0);
        } else {
            match first_positive(rest, floats) {
                Some(reference) => {
                    let i = choose|i: int|
                        0 <= i < rest.len() && #[trigger] reference_at(rest, floats, i) == reference
                            && reference > 0 && forall|j: int|
                            0 <= j < i ==> #[trigger] reference_at(rest, floats, j) <= 0;
                    assert(reference_at(scopes, floats, i + 1) == reference);
                    assert forall|j: int| 0 <= j < i + 1 implies #[trigger] reference_at(
                        scopes,
                        floats,
                        j,
                    ) <= 0 by {
                        if j > 0 {
                            assert(reference_at(rest, floats, j - 1) <= 0);
                        }
                    }
                },
                None => {
                    assert forall|j: int| 0 <= j < scopes.len() implies #[trigger] reference_at(
                        scopes,
                        floats,
                        j,
                    ) <= 0 by {
                        if j > 0 {
                            assert(reference_at(rest, floats, j - 1) <= 0);
                        }
                    }
                },
            }
        }
    }
}

/// The scope whose variables are asked for is the first that has any: it has a positive reference,
/// and none before it has. Where none has, it is the first scope, and without scopes there is none.
pub proof fn law_first_scope_with_variables(json: Json, floats: Seq<FloatReading>)
    ensures
        ({
            let scopes = items_of(member_of(json, "scopes"@));
            let chosen = scope_reference(json, floats);
            &&& scopes.len() == 0 ==> chosen == 0
            &&& chosen > 0 ==> exists|i: int|
                0 <= i < scopes.len() && #[trigger] reference_at(scopes, floats, i) == chosen
                    && forall|j: int|
                    0 <= j < i ==> #[trigger] reference_at(scopes, floats, j) <= 0
            &&& chosen <= 0 ==> forall|i: int|
                0 <= i < scopes.len() ==> #[trigger] reference_at(scopes, floats, i) <= 0
            &&& chosen <= 0 && scopes.len() > 0 ==> chosen == reference_at(scopes, floats, 0)
        }),
{
    lemma_first_positive(items_of(member_of(json, "scopes"@)), floats);
}

/// The variables of the scope are asked for, from the beginning of a path. Where there is none, nothing
/// changes.
pub proof fn law_scope_is_shown(
    editor: EditorModel,
    around: Surroundings,
    command: String,
    message: String,
    body: DapBody,
)
    requires
        command@ == "scopes"@,
        editor.debug_session,
    ensures
        ({
            let reference = scope_reference(json_of(body.json), body.floats@);
            let after = editor.heard(around, grant(command, message, body));
            if reference == 0 {
                after == editor
            } else {
                after == asking(
                    EditorModel {
                        current_variables_reference: Some(reference),
                        variables_reference_stack: Seq::empty(),
                        debug_state: DebugModel {
                            variable_path: Seq::empty(),
                            selected_variable_idx: 0,
                            ..editor.debug_state
                        },
                        ..editor
                    },
                    seq![
                        ActionModel::Send {
                            kind: RequestKind::Variables,
                            arguments: object_with(
                                "variablesReference"@,
                                Json::Int(reference as int),
                            ),
                        },
                    ],
                )
            }
        }),
{
    lemma_names_differ();
    lemma_granted(editor, around, command, message, body);
    reveal(EditorModel::emit);
    let after = editor.heard(around, grant(command, message, body));
    if after.actions.len() > editor.actions.len() {
        assert(after.actions =~= editor.actions + seq![after.actions.last()]);
    }
}

/// The variables that a reply lists are shown. The selection stays where it is as long as there is a
/// variable there, and else goes to the last one.
pub proof fn law_variables_are_shown(
    editor: EditorModel,
    around: Surroundings,
    command: String,
    message: String,
    body: DapBody,
)
    requires
        command@ == "variables"@,
        items_of(member_of(json_of(body.json), "variables"@)).len() <= usize::MAX,
    ensures
        ({
            let variables = variables_of(json_of(body.json), body.floats@);
            let was = editor.debug_state.selected_variable_idx;
            let after = editor.heard(around, grant(command, message, body));
            let is = after.debug_state.selected_variable_idx;
            &&& after == (EditorModel {
                debug_state: DebugModel {
                    variables,
                    selected_variable_idx: is,
                    ..editor.debug_state
                },
                ..editor
            })
            &&& was < variables.len() ==> is == was
            &&& was >= variables.len() && variables.len() > 0 ==> is == variables.len() - 1
            &&& variables.len() == 0 ==> is == 0
        }),
{
    lemma_names_differ();
    lemma_granted(editor, around, command, message, body);
}

/// The threads that a reply lists are kept. Unless a stop waits for them, nothing more follows. The
/// current one is selected at the first place where it is listed.
pub proof fn law_threads_are_listed(
    editor: EditorModel,
    around: Surroundings,
    command: String,
    message: String,
    body: DapBody,
)
    requires
        command@ == "threads"@,
        !editor.debug_stack_after_threads,
        items_of(member_of(json_of(body.json), "threads"@)).len() <= usize::MAX,
    ensures
        ({
            let threads = threads_of(json_of(body.json), body.floats@);
            let after = editor.heard(around, grant(command, message, body));
            let place = after.debug_state.selected_thread_idx as int;
            let current = editor.debug_state.current_thread_id;
            &&& after == (EditorModel {
                debug_state: DebugModel {
                    threads,
                    selected_thread_idx: place as usize,
                    ..editor.debug_state
                },
                ..editor
            })
            &&& (forall|i: int|
                0 <= i < threads.len() ==> Some((#[trigger] threads[i]).id) != current) ==> place
                == 0
            &&& (exists|i: int| 0 <= i < threads.len() && Some((#[trigger] threads[i]).id) == current)
                ==> Some(threads[place].id) == current && forall|j: int|
                0 <= j < place ==> Some((#[trigger] threads[j]).id) != current
        }),
{
    lemma_names_differ();
    lemma_granted(editor, around, command, message, body);
    let threads = threads_of(json_of(body.json), body.floats@);
    if let Some(id) = editor.debug_state.current_thread_id {
        law_thread_place(threads, id);
        lemma_first_thread_place(threads, id);
    }
}

proof fn lemma_first_thread_place(threads: Seq<ThreadModel>, id: i64)
    ensures
        match thread_place(threads, id) {
            Some(place) => 0 <= place < threads.len() && threads[place].id == id && forall|j: int|
                0 <= j < place ==> (#[trigger] threads[j]).id != id,
            None => forall|j: int| 0 <= j < threads.len() ==> (#[trigger] threads[j]).id != id,
        },
    decreases threads.len(),
{
    if threads.len() > 0 {
        let earlier = threads.drop_last();
        lemma_first_thread_place(earlier, id);
        assert(forall|j: int| 0 <= j < earlier.len() ==> #[trigger] threads[j] == earlier[j]);
        assert(threads[threads.len() - 1] == threads.last());
    }
}

proof fn lemma_frames_after_threads(editor: EditorModel, threads: Seq<ThreadModel>)
    requires
        editor.debug_stack_after_threads,
        editor.debug_session,
    ensures
        ({
            let after = editor.threads_heard(threads);
            let current = after.debug_state.current_thread_id;
            &&& after.debug_state.threads == threads
            &&& after.actions == editor.actions + if current is None || current == Some(0i64) {
                Seq::empty()
            } else {
                seq![
                    ActionModel::Send {
                        kind: RequestKind::StackTrace,
                        arguments: stack_trace_json(current->Some_0),
                    },
                ]
            }
            &&& after == (EditorModel {
                debug_stack_after_threads: false,
                debug_state: DebugModel {
                    threads,
                    selected_thread_idx: after.debug_state.selected_thread_idx,
                    current_thread_id: current,
                    ..editor.debug_state
                },
                actions: after.actions,
                ..editor
            })
        }),
{
    reveal(EditorModel::emit);
    let after = editor.threads_heard(threads);
    let current = after.debug_state.current_thread_id;
    if current is None || current == Some(0i64) {
        assert(after.actions =~= editor.actions + Seq::empty());
    } else {
        assert(after.actions =~= editor.actions + seq![after.actions.last()]);
    }
}

/// After a stop, once the threads are known, the frames of the current one are asked for, and not a
/// second time.
pub proof fn law_frames_after_threads(
    editor: EditorModel,
    around: Surroundings,
    command: String,
    message: String,
    body: DapBody,
)
    requires
        command@ == "threads"@,
        editor.debug_stack_after_threads,
        editor.debug_session,
    ensures
        ({
            let after = editor.heard(around, grant(command, message, body));
            let current = after.debug_state.current_thread_id;
            &&& !after.debug_stack_after_threads
            &&& after.debug_state.threads == threads_of(json_of(body.json), body.floats@)
            &&& after.actions == editor.actions + if current is None || current == Some(0i64) {
                Seq::empty()
            } else {
                seq![
                    ActionModel::Send {
                        kind: RequestKind::StackTrace,
                        arguments: stack_trace_json(current->Some_0),
                    },
                ]
            }
            &&& after == (EditorModel {
                debug_stack_after_threads: false,
                debug_state: DebugModel {
                    threads: after.debug_state.threads,
                    selected_thread_idx: after.debug_state.selected_thread_idx,
                    current_thread_id: current,
                    ..editor.debug_state
                },
                actions: after.actions,
                ..editor
            })
        }),
{
    lemma_names_differ();
    lemma_granted(editor, around, command, message, body);
    lemma_frames_after_threads(editor, threads_of(json_of(body.json), body.floats@));
}

/// Each breakpoint that an adapter has taken counts once.
pub proof fn law_verified_breakpoints_count(breakpoints: Seq<Json>, one: Json)
    ensures
        verified_count(Seq::empty()) == 0,
        verified_count(breakpoints.push(one)) == verified_count(breakpoints) + if member_of(
            one,
            "verified"@,
        ) == Some(Json::Bool(true)) {
            1nat
        } else {
            0nat
        },
{
    let taken = |breakpoint: Json| is_verified(breakpoint);
    reveal(Seq::filter);
    assert(breakpoints.push(one).drop_last() =~= breakpoints);
    assert(breakpoints.push(one).last() == one);
}

/// The reason that is given is that of the first breakpoint that was not taken and has one.
pub proof fn law_first_reason(breakpoints: Seq<Json>)
    ensures
        match first_reason(breakpoints) {
            Some(reason) => exists|i: int|
                0 <= i < breakpoints.len() && #[trigger] member_of(breakpoints[i], "message"@)
                    == Some(Json::Text(reason)) && member_of(breakpoints[i], "verified"@) != Some(
                    Json::Bool(true),
                ) && forall|j: int|
                    0 <= j < i ==> member_of(breakpoints[j], "verified"@) == Some(Json::Bool(true))
                        || !(#[trigger] member_of(breakpoints[j], "message"@) matches Some(
                        Json::Text(_),
                    )),
            None => forall|j: int|
                0 <= j < breakpoints.len() ==> member_of(breakpoints[j], "verified"@) == Some(
                    Json::Bool(true),
                ) || !(#[trigger] member_of(breakpoints[j], "message"@) matches Some(
                    Json::Text(_),
                )),
        },
    decreases breakpoints.len(),
{
    if breakpoints.len() > 0 {
        let rest = breakpoints.skip(1);
        law_first_reason(rest);
        assert(forall|j: int| 0 <= j < rest.len() ==> #[trigger] rest[j] == breakpoints[j + 1]);
        let first = member_of(breakpoints[0], "message"@);
        if first matches Some(Json::Text(_)) && !is_verified(breakpoints[0]) {
            assert(member_of(breakpoints[0], "message"@) == first);
        } else {
            match first_reason(rest) {
                Some(reason) => {
                    let i = choose|i: int|
                        0 <= i < rest.len() && #[trigger] member_of(rest[i], "message"@) == Some(
                            Json::Text(reason),
                        ) && member_of(rest[i], "verified"@) != Some(Json::Bool(true)) && forall|
                            j: int,
                        |
                            0 <= j < i ==> member_of(rest[j], "verified"@) == Some(Json::Bool(true))
                                || !(#[trigger] member_of(rest[j], "message"@) matches Some(
                                Json::Text(_),
                            ));
                    assert(member_of(breakpoints[i + 1], "message"@) == Some(Json::Text(reason)));
                    assert forall|j: int| 0 <= j < i + 1 implies member_of(
                        breakpoints[j],
                        "verified"@,
                    ) == Some(Json::Bool(true)) || !(#[trigger] member_of(
                        breakpoints[j],
                        "message"@,
                    ) matches Some(Json::Text(_))) by {
                        if j > 0 {
                            assert(member_of(rest[j - 1], "message"@) == member_of(
                                breakpoints[j],
                                "message"@,
                            ));
                        }
                    }
                },
                None => {
                    assert forall|j: int| 0 <= j < breakpoints.len() implies member_of(
                        breakpoints[j],
                        "verified"@,
                    ) == Some(Json::Bool(true)) || !(#[trigger] member_of(
                        breakpoints[j],
                        "message"@,
                    ) matches Some(Json::Text(_))) by {
                        if j > 0 {
                            assert(member_of(rest[j - 1], "message"@) == member_of(
                                breakpoints[j],
                                "message"@,
                            ));
                        }
                    }
                },
            }
        }
    }
}

/// How many breakpoints the adapter has taken, of how many, is kept and said. Where it has taken none,
/// the reason is said with it. Of a reply that lists none, nothing is said.
pub proof fn law_taken_breakpoints_are_told(
    editor: EditorModel,
    around: Surroundings,
    command: String,
    message: String,
    body: DapBody,
)
    requires
        command@ == "setBreakpoints"@,
    ensures
        ({
            let listed = items_of(member_of(json_of(body.json), "breakpoints"@));
            let taken = verified_count(listed);
            let all = decimal(listed.len() as int);
            editor.heard(around, grant(command, message, body)) == asking(
                EditorModel { verified_breakpoint_count: taken as usize, ..editor },
                if listed.len() == 0 {
                    Seq::empty()
                } else if taken > 0 {
                    seq![
                        ActionModel::Message(
                            "Breakpoints verified: "@ + decimal(taken as int) + "/"@ + all,
                        ),
                    ]
                } else {
                    match first_reason(listed) {
                        Some(reason) => seq![
                            ActionModel::Message(
                                "Breakpoints verified: 0/"@ + all + " ("@ + reason + ")"@,
                            ),
                        ],
                        None => seq![ActionModel::Message("Breakpoints verified: 0/"@ + all)],
                    }
                },
            )
        }),
{
    lemma_names_differ();
    lemma_granted(editor, around, command, message, body);
    reveal(EditorModel::emit);
    let after = editor.heard(around, grant(command, message, body));
    if after.actions.len() > editor.actions.len() {
        assert(after.actions =~= editor.actions + seq![after.actions.last()]);
    } else {
        assert(after.actions =~= editor.actions + Seq::empty());
    }
}

/// Once the adapter is introduced, it is told what to launch, if it has not been, and the
/// configuration is yet to be completed.
pub proof fn law_launched_when_introduced(
    editor: EditorModel,
    around: Surroundings,
    command: String,
    message: String,
    body: DapBody,
)
    requires
        command@ == "initialize"@,
        editor.debug_session,
    ensures
        editor.heard(around, grant(command, message, body))
            == match editor.pending_launch_arguments {
            Some(arguments) => asking(
                EditorModel {
                    pending_launch_arguments: None,
                    pending_configuration_done: true,
                    ..editor
                },
                seq![ActionModel::Send { kind: RequestKind::Launch, arguments }],
            ),
            None => editor,
        },
{
    reveal(EditorModel::heard);
    lemma_names_differ();
    reveal(EditorModel::emit);
    let after = editor.heard(around, grant(command, message, body));
    if after.actions.len() > editor.actions.len() {
        assert(after.actions =~= editor.actions + seq![after.actions.last()]);
    }
}

/// Once the program is launched, the configuration is completed, if it has not been, and it is said
/// by which adapter the program is debugged.
pub proof fn law_configured_when_launched(
    editor: EditorModel,
    around: Surroundings,
    command: String,
    message: String,
    body: DapBody,
)
    requires
        command@ == "launch"@,
        editor.debug_session,
    ensures
        ({
            let said = ActionModel::Message(
                match editor.active_debug_adapter {
                    Some(adapter) => "Debug started: "@ + adapter.display_name,
                    None => "Debug started."@,
                },
            );
            editor.heard(around, grant(command, message, body)) == asking(
                EditorModel { pending_configuration_done: false, ..editor },
                if editor.pending_configuration_done {
                    seq![
                        ActionModel::SyncBreakpoints(editor.breakpoints),
                        ActionModel::Send {
                            kind: RequestKind::ConfigurationDone,
                            arguments: empty_object(),
                        },
                        said,
                    ]
                } else {
                    seq![said]
                },
            )
        }),
{
    reveal(EditorModel::heard);
    lemma_names_differ();
    reveal(EditorModel::emit);
    let after = editor.heard(around, grant(command, message, body));
    let first = editor.actions.len() as int;
    if editor.pending_configuration_done {
        assert(after.actions =~= editor.actions + seq![
            after.actions[first],
            after.actions[first + 1],
            after.actions[first + 2],
        ]);
    } else {
        assert(after.actions =~= editor.actions + seq![after.actions[first]]);
    }
}

/// The replies to all other requests are not looked into.
pub proof fn law_other_grants_say_nothing(
    editor: EditorModel,
    around: Surroundings,
    command: String,
    message: String,
    body: DapBody,
)
    requires
        command@ != "initialize"@,
        command@ != "launch"@,
        command@ != "threads"@,
        command@ != "stackTrace"@,
        command@ != "scopes"@,
        command@ != "variables"@,
        command@ != "setBreakpoints"@,
    ensures
        editor.heard(around, grant(command, message, body)) == editor,
{
    reveal(EditorModel::heard);
}

// ---------------------------------------------------------------------------------------------
// Refusals
// ---------------------------------------------------------------------------------------------
/// The reason of a refusal is the text that the body gives for an error, in the form it gives it in,
/// then the message, then the body itself.
pub proof fn law_reason_of_a_refusal(message: Seq<char>, body: Json)
    ensures
        ({
            let reason = error_detail(message, body);
            let error = member_of(body, "error"@);
            let format = match error {
                Some(found) => member_of(found, "format"@),
                None => None,
            };
            let words = match error {
                Some(found) => member_of(found, "message"@),
                None => None,
            };
            &&& format matches Some(Json::Text(text)) ==> reason == text
            &&& !(format matches Some(Json::Text(_))) ==> (words matches Some(Json::Text(text))
                ==> reason == text)
            &&& error matches Some(Json::Text(text)) ==> reason == text
            &&& !(format matches Some(Json::Text(_))) && !(words matches Some(Json::Text(_))) && !(
            error matches Some(Json::Text(_))) ==> reason == if message.len() > 0 {
                message
            } else {
                json_text(body)
            }
        }),
{
}

/// A refusal is told, with its reason, but for those of the frames that Delve gives at the entry of a
/// program, for a goroutine that it does not know, and for a program that has exited.
pub proof fn law_refusals_are_told(
    editor: EditorModel,
    around: Surroundings,
    command: String,
    message: String,
    body: DapBody,
)
    requires
        ({
            let reason = error_detail(message@, json_of(body.json));
            command@ != "stackTrace"@ || (!occurs_in(reason, "unknown goroutine"@) && !occurs_in(
                reason,
                "unknown goroutine 1"@,
            ) && !occurs_in(reason, "has exited with status"@))
        }),
    ensures
        editor.heard(around, refusal(command, message, body)) == asking(
            editor,
            seq![
                ActionModel::Message(
                    "DAP "@ + command@ + " failed: "@ + error_detail(
                        message@,
                        json_of(body.json),
                    ),
                ),
            ],
        ),
        editor.ending(refusal(command, message, body)) is GoesOn,
{
    reveal(EditorModel::heard);
    reveal(EditorModel::ending);
    reveal(EditorModel::emit);
    let after = editor.heard(around, refusal(command, message, body));
    assert(after.actions =~= editor.actions + seq![after.actions.last()]);
}

/// Where Delve does not know its first goroutine, the program runs on.
pub proof fn law_entry_without_a_goroutine(
    editor: EditorModel,
    around: Surroundings,
    command: String,
    message: String,
    body: DapBody,
)
    requires
        command@ == "stackTrace"@,
        occurs_in(error_detail(message@, json_of(body.json)), "unknown goroutine 1"@),
        editor.debug_session,
        editor.active_debug_adapter matches Some(adapter) && same_but_case(
            adapter.dap_adapter_type,
            "dlv-dap"@,
        ),
    ensures
        editor.heard(around, refusal(command, message, body)) == asking(
            EditorModel { debug_paused: false, ..editor },
            seq![
                ActionModel::Message(
                    "Delve entry stop produced invalid goroutine. Continuing..."@,
                ),
                ActionModel::Do(Step::SetStopLine(None)),
                ActionModel::Send {
                    kind: RequestKind::Continue,
                    arguments: object_with("threadId"@, Json::Int(current_thread(editor))),
                },
            ],
        ),
        editor.ending(refusal(command, message, body)) is GoesOn,
{
    reveal(EditorModel::heard);
    reveal(EditorModel::ending);
    reveal(EditorModel::emit);
    let after = editor.heard(around, refusal(command, message, body));
    let first = editor.actions.len() as int;
    assert(after.actions =~= editor.actions + seq![
        after.actions[first],
        after.actions[first + 1],
        after.actions[first + 2],
    ]);
}

/// Where Delve does not know another goroutine, it is asked about one that it may know; where there is
/// none to ask about, the refusal is told like any other.
pub proof fn law_unknown_goroutine(
    editor: EditorModel,
    around: Surroundings,
    command: String,
    message: String,
    body: DapBody,
)
    requires
        command@ == "stackTrace"@,
        occurs_in(error_detail(message@, json_of(body.json)), "unknown goroutine"@),
        !occurs_in(error_detail(message@, json_of(body.json)), "unknown goroutine 1"@),
        !occurs_in(error_detail(message@, json_of(body.json)), "has exited with status"@),
    ensures
        ({
            let after = editor.heard(around, refusal(command, message, body));
            match editor.retry_thread() {
                Some(id) => after == editor.stack_retried(id),
                None => after == asking(
                    editor,
                    seq![
                        ActionModel::Message(
                            "DAP "@ + command@ + " failed: "@ + error_detail(
                                message@,
                                json_of(body.json),
                            ),
                        ),
                    ],
                ),
            }
        }),
        editor.ending(refusal(command, message, body)) is GoesOn,
{
    reveal(EditorModel::heard);
    reveal(EditorModel::ending);
    reveal(EditorModel::emit);
    let after = editor.heard(around, refusal(command, message, body));
    if editor.retry_thread() is None {
        assert(after.actions =~= editor.actions + seq![after.actions.last()]);
    }
}

/// A program that has exited ends the session, and that is said in the end.
pub proof fn law_exited_program_ends_the_session(
    editor: EditorModel,
    around: Surroundings,
    command: String,
    message: String,
    body: DapBody,
)
    requires
        command@ == "stackTrace"@,
        occurs_in(error_detail(message@, json_of(body.json)), "has exited with status"@),
        !occurs_in(error_detail(message@, json_of(body.json)), "unknown goroutine"@),
        !occurs_in(error_detail(message@, json_of(body.json)), "unknown goroutine 1"@),
    ensures
        editor.heard(around, refusal(command, message, body)) == editor,
        editor.ending(refusal(command, message, body)) == EndingModel::EndsWith(
            "Debuggee has already exited."@,
        ),
{
    reveal(EditorModel::heard);
    reveal(EditorModel::ending);
}

// ---------------------------------------------------------------------------------------------
// Events
// ---------------------------------------------------------------------------------------------
/// An event of the debug adapter.
pub open spec fn notice_of(event: String, body: DapBody) -> DapEvent {
    DapEvent::Message(DapMessage::Event { event, body })
}

/// The names of events are told apart.
pub proof fn lemma_events_differ()
    ensures
        "initialized"@ != "stopped"@,
        "initialized"@ != "continued"@,
        "initialized"@ != "terminated"@,
        "initialized"@ != "exited"@,
        "stopped"@ != "continued"@,
        "stopped"@ != "terminated"@,
        "stopped"@ != "exited"@,
        "continued"@ != "terminated"@,
        "continued"@ != "exited"@,
{
    reveal_strlit("initialized");
    reveal_strlit("stopped");
    reveal_strlit("continued");
    reveal_strlit("terminated");
    reveal_strlit("exited");
    assert("initialized"@.len() == 11 && "stopped"@.len() == 7 && "continued"@.len() == 9
        && "terminated"@.len() == 10 && "exited"@.len() == 6);
}

/// An adapter that is ready gets the breakpoints, and the configuration is completed.
pub proof fn law_configured_when_ready(
    editor: EditorModel,
    around: Surroundings,
    event: String,
    body: DapBody,
)
    requires
        event@ == "initialized"@,
        editor.debug_session,
    ensures
        editor.heard(around, notice_of(event, body)) == if editor.pending_configuration_done {
            asking(
                EditorModel { pending_configuration_done: false, ..editor },
                seq![
                    ActionModel::SyncBreakpoints(editor.breakpoints),
                    ActionModel::Send {
                        kind: RequestKind::ConfigurationDone,
                        arguments: empty_object(),
                    },
                ],
            )
        } else {
            editor
        },
{
    reveal(EditorModel::heard);
    lemma_events_differ();
    reveal(EditorModel::emit);
    let after = editor.heard(around, notice_of(event, body));
    let first = editor.actions.len() as int;
    if editor.pending_configuration_done {
        assert(after.actions =~= editor.actions + seq![
            after.actions[first],
            after.actions[first + 1],
        ]);
    }
}

/// A stop pauses the program in the thread that the event names. The threads are asked for, and then
/// the frames; another thread may be tried again.
pub proof fn law_stop_asks_for_threads(
    editor: EditorModel,
    around: Surroundings,
    event: String,
    body: DapBody,
)
    requires
        event@ == "stopped"@,
        editor.debug_session,
        member_of(json_of(body.json), "reason"@) == Some(Json::Text("entry"@)) ==> !(
        editor.active_debug_adapter matches Some(adapter) && same_but_case(
            adapter.dap_adapter_type,
            "dlv-dap"@,
        )),
    ensures
        editor.heard(around, notice_of(event, body)) == asking(
            EditorModel {
                debug_paused: true,
                debug_stack_after_threads: true,
                stacktrace_retry_attempted: false,
                debug_state: DebugModel {
                    current_thread_id: dap_int_at(
                        json_of(body.json),
                        "threadId"@,
                        body.floats@,
                    ),
                    ..editor.debug_state
                },
                ..editor
            },
            seq![
                ActionModel::Send { kind: RequestKind::Threads, arguments: empty_object() },
                ActionModel::Message("Debug paused."@),
            ],
        ),
{
    reveal(EditorModel::heard);
    lemma_events_differ();
    reveal_strlit("entry");
    assert("entry"@.len() == 5);
    reveal(EditorModel::emit);
    let after = editor.heard(around, notice_of(event, body));
    let first = editor.actions.len() as int;
    assert(after.actions =~= editor.actions + seq![
        after.actions[first],
        after.actions[first + 1],
    ]);
}

/// Delve stops at the entry of a program: it gets the breakpoints, and the program runs on.
pub proof fn law_entry_is_passed(
    editor: EditorModel,
    around: Surroundings,
    event: String,
    body: DapBody,
)
    requires
        event@ == "stopped"@,
        editor.debug_session,
        member_of(json_of(body.json), "reason"@) == Some(Json::Text("entry"@)),
        editor.active_debug_adapter matches Some(adapter) && same_but_case(
            adapter.dap_adapter_type,
            "dlv-dap"@,
        ),
    ensures
        editor.heard(around, notice_of(event, body)) == asking(
            EditorModel { pending_continue_after_entry: false, debug_paused: false, ..editor },
            seq![
                ActionModel::SyncBreakpoints(editor.breakpoints),
                ActionModel::Message("Delve entry stop -> breakpoints synced, continuing..."@),
                ActionModel::Do(Step::SetStopLine(None)),
                ActionModel::Send {
                    kind: RequestKind::Continue,
                    arguments: object_with("threadId"@, Json::Int(current_thread(editor))),
                },
            ],
        ),
{
    reveal(EditorModel::heard);
    lemma_events_differ();
    reveal(EditorModel::emit);
    let after = editor.heard(around, notice_of(event, body));
    let first = editor.actions.len() as int;
    assert(after.actions =~= editor.actions + seq![
        after.actions[first],
        after.actions[first + 1],
        after.actions[first + 2],
        after.actions[first + 3],
    ]);
}

/// A program that runs on is not paused, and no line is marked.
pub proof fn law_running_program_has_no_line(
    editor: EditorModel,
    around: Surroundings,
    event: String,
    body: DapBody,
)
    requires
        event@ == "continued"@,
    ensures
        editor.heard(around, notice_of(event, body)) == asking(
            EditorModel { debug_paused: false, ..editor },
            seq![ActionModel::Do(Step::SetStopLine(None))],
        ),
{
    reveal(EditorModel::heard);
    lemma_events_differ();
    reveal(EditorModel::emit);
    let after = editor.heard(around, notice_of(event, body));
    assert(after.actions =~= editor.actions + seq![after.actions.last()]);
}

/// Other events, requests of the adapter and its closing change nothing by themselves. An error is
/// told.
pub proof fn law_other_messages(editor: EditorModel, around: Surroundings, event: DapEvent)
    requires
        match event {
            DapEvent::Message(DapMessage::Event { event: name, .. }) => name@ != "initialized"@
                && name@ != "stopped"@ && name@ != "continued"@,
            DapEvent::Message(DapMessage::Response { .. }) => false,
            _ => true,
        },
    ensures
        editor.heard(around, event) == match event {
            DapEvent::Error(error) => asking(
                editor,
                seq![ActionModel::Message("DAP error: "@ + error@)],
            ),
            _ => editor,
        },
{
    reveal(EditorModel::heard);
    reveal(EditorModel::emit);
    let after = editor.heard(around, event);
    if after.actions.len() > editor.actions.len() {
        assert(after.actions =~= editor.actions + seq![after.actions.last()]);
    }
}

// ---------------------------------------------------------------------------------------------
// One after the other
// ---------------------------------------------------------------------------------------------
/// What comes first is heard first: to hear some messages and then others is to hear them all in their
/// order, and each by itself is heard for what it is.
pub proof fn law_heard_in_order(
    editor: EditorModel,
    around: Surroundings,
    before: Seq<DapEvent>,
    after: Seq<DapEvent>,
    one: DapEvent,
)
    ensures
        editor.all_heard(around, before + after) == editor.all_heard(around, before).all_heard(
            around,
            after,
        ),
        editor.all_heard(around, seq![one]) == editor.heard(around, one),
        editor.all_heard(around, Seq::empty()) == editor,
    decreases after.len(),
{
    assert(seq![one].drop_last() =~= Seq::<DapEvent>::empty());
    assert(editor.all_heard(around, seq![one].drop_last()) == editor);
    if after.len() == 0 {
        assert(before + after =~= before);
    } else {
        law_heard_in_order(editor, around, before, after.drop_last(), one);
        assert((before + after).drop_last() =~= before + after.drop_last());
    }
}

/// How a message lets the session end. Only that the program has ended, that it has exited, that it is
/// found to be gone and that the adapter has closed do.
pub proof fn law_what_ends_a_session(editor: EditorModel, event: DapEvent)
    requires
        !(event matches DapEvent::Message(DapMessage::Response { success: false, .. })),
    ensures
        editor.ending(event) == match event {
            DapEvent::Closed => EndingModel::Ends,
            DapEvent::Message(DapMessage::Event { event: name, body }) => if name@
                == "terminated"@ || name@ == "exited"@ {
                EndingModel::EndsWith(
                    "Debuggee exited (code "@ + decimal(
                        match dap_int_at(json_of(body.json), "exitCode"@, body.floats@) {
                            Some(code) => code as int,
                            None => 0,
                        },
                    ) + ")."@,
                )
            } else {
                EndingModel::GoesOn
            },
            _ => EndingModel::GoesOn,
        },
{
    reveal(EditorModel::ending);
}

/// How the session stood when a message came.
pub open spec fn ending_at(
    editor: EditorModel,
    around: Surroundings,
    events: Seq<DapEvent>,
    i: int,
) -> EndingModel {
    editor.all_heard(around, events.take(i)).ending(events[i])
}

/// The words that a session ends with are those of the last message that has some. Without any, it
/// ends if a message lets it end, and goes on if none does.
pub proof fn law_last_words_count(
    editor: EditorModel,
    around: Surroundings,
    events: Seq<DapEvent>,
)
    ensures
        match editor.all_ending(around, events) {
            EndingModel::EndsWith(words) => exists|i: int|
                0 <= i < events.len() && #[trigger] ending_at(editor, around, events, i)
                    == EndingModel::EndsWith(words) && forall|j: int|
                    i < j < events.len() ==> !(#[trigger] ending_at(
                        editor,
                        around,
                        events,
                        j,
                    ) is EndsWith),
            EndingModel::Ends => (exists|i: int|
                0 <= i < events.len() && #[trigger] ending_at(editor, around, events, i) is Ends)
                && forall|j: int|
                0 <= j < events.len() ==> !(#[trigger] ending_at(
                    editor,
                    around,
                    events,
                    j,
                ) is EndsWith),
            EndingModel::GoesOn => forall|j: int|
                0 <= j < events.len() ==> #[trigger] ending_at(
                    editor,
                    around,
                    events,
                    j,
                ) is GoesOn,
        },
    decreases events.len(),
{
    if events.len() > 0 {
        let earlier = events.drop_last();
        law_last_words_count(editor, around, earlier);
        let last = events.len() - 1;
        assert(events.take(last) =~= earlier);
        assert(ending_at(editor, around, events, last) == editor.all_heard(around, earlier).ending(
            events.last(),
        ));
        assert forall|i: int| 0 <= i < last implies #[trigger] ending_at(
            editor,
            around,
            events,
            i,
        ) == ending_at(editor, around, earlier, i) by {
            assert(earlier.take(i) =~= events.take(i));
        }
        assert forall|i: int| 0 <= i < last implies #[trigger] ending_at(
            editor,
            around,
            earlier,
            i,
        ) == ending_at(editor, around, events, i) by {
            assert(earlier.take(i) =~= events.take(i));
        }
        match editor.all_ending(around, earlier) {
            EndingModel::EndsWith(words) => {
                let i = choose|i: int|
                    0 <= i < earlier.len() && #[trigger] ending_at(editor, around, earlier, i)
                        == EndingModel::EndsWith(words) && forall|j: int|
                        i < j < earlier.len() ==> !(#[trigger] ending_at(
                            editor,
                            around,
                            earlier,
                            j,
                        ) is EndsWith);
                assert(ending_at(editor, around, events, i) == EndingModel::EndsWith(words));
            },
            EndingModel::Ends => {
                let i = choose|i: int|
                    0 <= i < earlier.len() && #[trigger] ending_at(
                        editor,
                        around,
                        earlier,
                        i,
                    ) is Ends;
                assert(ending_at(editor, around, events, i) is Ends);
            },
            EndingModel::GoesOn => {},
        }
    }
}

/// After all has been heard, a session that goes on is shown anew, and one that ends is ended with the
/// words that it ends with.
pub proof fn law_settled_in_the_end(
    editor: EditorModel,
    around: Surroundings,
    events: Seq<DapEvent>,
)
    requires
        editor.debug_session,
        events.len() > 0,
    ensures
        ({
            let heard = editor.all_heard(around, events);
            let after = editor.polled(around, events);
            match editor.all_ending(around, events) {
                EndingModel::GoesOn => after == asking(
                    heard,
                    seq![
                        ActionModel::Do(Step::Redraw(Part::StatusBar)),
                        ActionModel::Do(Step::ShowDebugState),
                    ],
                ),
                EndingModel::Ends => !after.debug_session && after.actions == heard.actions + seq![
                    ActionModel::Do(Step::StopSession),
                    ActionModel::Do(Step::SetStopLine(None)),
                    ActionModel::Do(Step::ShowDebugState),
                    ActionModel::Message("Debug session finished."@),
                ],
                EndingModel::EndsWith(words) => !after.debug_session && after.actions
                    == heard.actions + seq![
                    ActionModel::Do(Step::StopSession),
                    ActionModel::Do(Step::SetStopLine(None)),
                    ActionModel::Do(Step::ShowDebugState),
                    ActionModel::Message(words),
                ],
            }
        }),
{
    reveal(EditorModel::emit);
    let heard = editor.all_heard(around, events);
    let after = editor.polled(around, events);
    let first = heard.actions.len() as int;
    if editor.all_ending(around, events) is GoesOn {
        assert(after.actions =~= heard.actions + seq![
            after.actions[first],
            after.actions[first + 1],
        ]);
    } else {
        assert(after.actions =~= heard.actions + seq![
            after.actions[first],
            after.actions[first + 1],
            after.actions[first + 2],
            after.actions[first + 3],
        ]);
    }
}

// ---------------------------------------------------------------------------------------------
// Which thread it is about
// ---------------------------------------------------------------------------------------------
/// Whether an id is that of the first thread that is neither zero nor one, nor another one.
pub open spec fn first_proper(threads: Seq<ThreadModel>, other_than: i64, id: Option<i64>) -> bool {
    exists|i: int|
        0 <= i < threads.len() && Some((#[trigger] threads[i]).id) == id && threads[i].id != 0
            && threads[i].id != 1 && threads[i].id != other_than && forall|j: int|
            0 <= j < i ==> (#[trigger] threads[j]).id == 0 || threads[j].id == 1 || threads[j].id
                == other_than
}

/// Whether some thread is neither zero nor one, nor another one.
pub open spec fn has_proper(threads: Seq<ThreadModel>, other_than: i64) -> bool {
    exists|i: int|
        0 <= i < threads.len() && (#[trigger] threads[i]).id != 0 && threads[i].id != 1
            && threads[i].id != other_than
}

/// Whether a thread is among the threads.
pub open spec fn has_thread(threads: Seq<ThreadModel>, id: i64) -> bool {
    exists|i: int| 0 <= i < threads.len() && (#[trigger] threads[i]).id == id
}

proof fn lemma_preferred(threads: Seq<ThreadModel>, other_than: i64)
    ensures
        ({
            let id = preferred_thread(threads, other_than);
            &&& has_proper(threads, other_than) ==> first_proper(threads, other_than, id)
            &&& !has_proper(threads, other_than) && has_thread(threads, 1) && other_than != 1 ==> id
                == Some(1i64)
            &&& !has_proper(threads, other_than) && !(has_thread(threads, 1) && other_than != 1)
                ==> id is None
        }),
{
    law_first_usable(threads, other_than, true);
    law_first_usable(threads, other_than, false);
    if has_proper(threads, other_than) {
        let k = choose|i: int|
            0 <= i < threads.len() && (#[trigger] threads[i]).id != 0 && threads[i].id != 1
                && threads[i].id != other_than;
        assert(usable(threads[k].id, other_than, true));
        let id = first_usable(threads, other_than, true)->Some_0;
        let i = choose|i: int|
            0 <= i < threads.len() && #[trigger] threads[i].id == id && forall|j: int|
                0 <= j < i ==> !usable(#[trigger] threads[j].id, other_than, true);
        assert(Some(threads[i].id) == preferred_thread(threads, other_than));
        assert forall|j: int| 0 <= j < i implies (#[trigger] threads[j]).id == 0 || threads[j].id
            == 1 || threads[j].id == other_than by {
            assert(!usable(threads[j].id, other_than, true));
        }
    } else {
        if first_usable(threads, other_than, true) is Some {
            let id = first_usable(threads, other_than, true)->Some_0;
            let i = choose|i: int|
                0 <= i < threads.len() && #[trigger] threads[i].id == id && forall|j: int|
                    0 <= j < i ==> !usable(#[trigger] threads[j].id, other_than, true);
            assert(usable(threads[i].id, other_than, true));
            assert(false);
        }
        if has_thread(threads, 1) && other_than != 1 {
            let k = choose|i: int| 0 <= i < threads.len() && (#[trigger] threads[i]).id == 1;
            assert(usable(threads[k].id, other_than, false));
        }
        if first_usable(threads, other_than, false) is Some {
            let id = first_usable(threads, other_than, false)->Some_0;
            let i = choose|i: int|
                0 <= i < threads.len() && #[trigger] threads[i].id == id && forall|j: int|
                    0 <= j < i ==> !usable(#[trigger] threads[j].id, other_than, false);
            assert(usable(threads[i].id, other_than, false));
            assert(threads[i].id == 1);
        }
    }
}

/// When the threads of a stopped program are known, the current one stays where it is among them and
/// is not zero. Else it gives way to the first that is neither zero nor one, else to the thread one,
/// and stays where there is no such thread. The thread that was current is the one selected in the
/// list.
pub proof fn law_thread_after_a_stop(
    editor: EditorModel,
    around: Surroundings,
    command: String,
    message: String,
    body: DapBody,
)
    requires
        command@ == "threads"@,
        editor.debug_stack_after_threads,
        items_of(member_of(json_of(body.json), "threads"@)).len() <= usize::MAX,
    ensures
        ({
            let threads = threads_of(json_of(body.json), body.floats@);
            let before = editor.debug_state.current_thread_id;
            let after = editor.heard(around, grant(command, message, body)).debug_state;
            let place = after.selected_thread_idx as int;
            let listed = before matches Some(id) && has_thread(threads, id);
            let known = listed && before != Some(0i64);
            &&& known ==> after.current_thread_id == before
            &&& !known && has_proper(threads, 0) ==> first_proper(
                threads,
                0,
                after.current_thread_id,
            )
            &&& !known && !has_proper(threads, 0) ==> after.current_thread_id == if has_thread(
                threads,
                1,
            ) {
                Some(1i64)
            } else {
                before
            }
            &&& listed ==> Some(threads[place].id) == before && forall|j: int|
                0 <= j < place ==> Some((#[trigger] threads[j]).id) != before
            &&& !listed ==> place == 0
        }),
{
    lemma_names_differ();
    lemma_granted(editor, around, command, message, body);
    reveal(EditorModel::emit);
    let threads = threads_of(json_of(body.json), body.floats@);
    let before = editor.debug_state.current_thread_id;
    lemma_preferred(threads, 0);
    if let Some(id) = before {
        law_thread_place(threads, id);
        if thread_place(threads, id) is Some {
            assert(threads[thread_place(threads, id)->Some_0].id == id);
            assert(has_thread(threads, id));
        }
    }
    assert(editor.heard(around, grant(command, message, body)) == editor.threads_heard(threads));
}

/// Delve is asked once for each stop about another goroutine: the first that is neither zero nor one
/// nor the current one, else the goroutine one.
pub proof fn law_which_goroutine(editor: EditorModel)
    ensures
        ({
            let threads = editor.debug_state.threads;
            let current = match editor.debug_state.current_thread_id {
                Some(id) => id,
                None => 0,
            };
            let id = editor.retry_thread();
            let asked = !editor.stacktrace_retry_attempted && (editor.active_debug_adapter matches Some(
                adapter,
            ) && same_but_case(adapter.dap_adapter_type, "dlv-dap"@));
            &&& !asked ==> id is None
            &&& asked && has_proper(threads, current) ==> first_proper(threads, current, id)
            &&& asked && !has_proper(threads, current) ==> id == if has_thread(threads, 1) && current
                != 1 {
                Some(1i64)
            } else {
                None
            }
        }),
{
    lemma_preferred(editor.debug_state.threads, editor.thread());
}

/// Asking about another goroutine makes it the current one.
pub proof fn law_another_goroutine(editor: EditorModel, id: i64)
    requires
        editor.debug_session,
        id != 0,
    ensures
        editor.stack_retried(id) == asking(
            EditorModel {
                stacktrace_retry_attempted: true,
                debug_state: DebugModel { current_thread_id: Some(id), ..editor.debug_state },
                ..editor
            },
            seq![
                ActionModel::Send {
                    kind: RequestKind::StackTrace,
                    arguments: stack_trace_json(id),
                },
                ActionModel::Message(
                    "Retrying stackTrace with goroutine "@ + decimal(id as int) + "..."@,
                ),
            ],
        ),
{
    reveal(EditorModel::emit);
    let after = editor.stack_retried(id);
    assert(after.actions =~= editor.actions + seq![
        ActionModel::Send { kind: RequestKind::StackTrace, arguments: stack_trace_json(id) },
        ActionModel::Message("Retrying stackTrace with goroutine "@ + decimal(id as int) + "..."@),
    ]);
}

/// What follows where the frames of a thread are refused, and Delve did not stop at an entry without
/// a goroutine: another goroutine is asked about where one is unknown and another can be, else a
/// program that has exited ends the session, and else the reason is told.
pub proof fn law_refused_frames(
    editor: EditorModel,
    around: Surroundings,
    command: String,
    message: String,
    body: DapBody,
)
    requires
        command@ == "stackTrace"@,
        !occurs_in(error_detail(message@, json_of(body.json)), "unknown goroutine 1"@) || !(
        editor.active_debug_adapter matches Some(adapter) && same_but_case(
            adapter.dap_adapter_type,
            "dlv-dap"@,
        )),
    ensures
        ({
            let reason = error_detail(message@, json_of(body.json));
            let other = editor.retry_thread();
            let after = editor.heard(around, refusal(command, message, body));
            let ending = editor.ending(refusal(command, message, body));
            if other is Some && occurs_in(reason, "unknown goroutine"@) {
                after == editor.stack_retried(other->Some_0) && ending is GoesOn
            } else if occurs_in(reason, "has exited with status"@) {
                after == editor && ending == EndingModel::EndsWith("Debuggee has already exited."@)
            } else {
                after == asking(
                    editor,
                    seq![ActionModel::Message("DAP stackTrace failed: "@ + reason)],
                ) && ending is GoesOn
            }
        }),
{
    reveal(EditorModel::emit);
    reveal(EditorModel::heard);
    reveal(EditorModel::ending);
    reveal_strlit("DAP ");
    reveal_strlit(" failed: ");
    reveal_strlit("stackTrace");
    reveal_strlit("DAP stackTrace failed: ");
    let reason = error_detail(message@, json_of(body.json));
    let text = "DAP "@ + command@ + " failed: "@ + reason;
    assert(text =~= "DAP stackTrace failed: "@ + reason);
    assert(editor.actions.push(ActionModel::Message(text)) =~= editor.actions + seq![
        ActionModel::Message(text),
    ]);
}

// ---------------------------------------------------------------------------------------------
// Numbers
// ---------------------------------------------------------------------------------------------
/// What a member holds as a number in any of the forms that adapters give numbers in, and else zero.
pub open spec fn number_at(json: Json, key: Seq<char>, floats: Seq<FloatReading>) -> i64 {
    match member_of(json, key) {
        Some(value) => match dap_int(value, floats) {
            Some(n) => n,
            None => 0,
        },
        None => 0,
    }
}

/// The numbers of threads, frames and variables count in each form that adapters give numbers in.
pub proof fn law_numbers_in_any_form(json: Json, floats: Seq<FloatReading>, i: int)
    ensures
        0 <= i < items_of(member_of(json, "threads"@)).len() ==> threads_of(json, floats)[i].id
            == number_at(items_of(member_of(json, "threads"@))[i], "id"@, floats),
        0 <= i < items_of(member_of(json, "stackFrames"@)).len() ==> frames_of(json, floats)[i].id
            == number_at(items_of(member_of(json, "stackFrames"@))[i], "id"@, floats),
        0 <= i < items_of(member_of(json, "variables"@)).len() ==> variables_of(
            json,
            floats,
        )[i].variables_reference == number_at(
            items_of(member_of(json, "variables"@))[i],
            "variablesReference"@,
            floats,
        ),
{
}

/// A line or a column that is too large to be counted is taken for none.
pub proof fn law_lines_too_large(json: Json, floats: Seq<FloatReading>, i: int, n: int)
    requires
        0 <= i < items_of(member_of(json, "stackFrames"@)).len(),
        n < i64::MIN || n > i64::MAX,
    ensures
        ({
            let item = items_of(member_of(json, "stackFrames"@))[i];
            let frame = frames_of(json, floats)[i];
            &&& member_of(item, "line"@) == Some(Json::Int(n)) ==> frame.line == 0
            &&& member_of(item, "column"@) == Some(Json::Int(n)) ==> frame.column == 0
        }),
{
}

} // verus!
