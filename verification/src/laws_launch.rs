//! What holds of launching a program: which adapter is taken, how it is looked for, and what it is told.
use crate::action::{ActionModel, Reply, SessionOutcome, Step};
use crate::command::{Command, System};
use crate::components::{PathPartModel, PathStyle, components};
use crate::dap::text_option;
use crate::debug_state::DebugModel;
use crate::editor::EditorModel;
use crate::json::{Json, member_of};
use crate::launch::{
    AdapterConfig, AdapterModel, ProbeOutcome, ProbeStage, ReadinessModel, adapter_for,
    base_launch, chosen_adapter, expanded, launch_json, probe_arguments, probe_program, readiness,
};
use crate::laws_debugging::{current_thread, object_with};
use crate::laws_prompts::{asking, lemma_asked_one_by_one, lemma_obeyed};
use crate::paths::{go_launch_dir, joined, launch_folders};
use crate::placement::{is_name, law_components_joined, lemma_name_is_one_component};
use crate::prompt::PromptType;
use crate::request::{RequestKind, initialize_json};
use crate::surroundings::{OpenFile, Surroundings};
use crate::text::{ascii_lower, decimal, lowercase, same_but_case};
use vstd::prelude::*;

verus! {

// ---------------------------------------------------------------------------------------------
// The adapter
// ---------------------------------------------------------------------------------------------
/// Whether an adapter is for the open file.
pub open spec fn is_for(adapter: AdapterModel, file: Option<OpenFile>) -> bool {
    file matches Some(open) && open.extension matches Some(extension)
        && adapter.file_extensions.contains(lowercase(extension@))
}

proof fn lemma_first_adapter(adapters: Seq<AdapterModel>, extension: Seq<char>)
    ensures
        match adapter_for(adapters, extension) {
            Some(adapter) => exists|i: int|
                0 <= i < adapters.len() && #[trigger] adapters[i] == adapter
                    && adapter.file_extensions.contains(extension) && forall|j: int|
                    0 <= j < i ==> !(#[trigger] adapters[j]).file_extensions.contains(extension),
            None => forall|j: int|
                0 <= j < adapters.len() ==> !(#[trigger] adapters[j]).file_extensions.contains(
                    extension,
                ),
        },
    decreases adapters.len(),
{
    if adapters.len() > 0 {
        let rest = adapters.skip(1);
        lemma_first_adapter(rest, extension);
        assert(forall|j: int| 0 <= j < rest.len() ==> #[trigger] rest[j] == adapters[j + 1]);
        if adapters[0].file_extensions.contains(extension) {
            assert(adapters[0] == adapter_for(adapters, extension)->Some_0);
        } else {
            match adapter_for(rest, extension) {
                Some(adapter) => {
                    let i = choose|i: int|
                        0 <= i < rest.len() && #[trigger] rest[i] == adapter
                            && adapter.file_extensions.contains(extension) && forall|j: int|
                            0 <= j < i ==> !(#[trigger] rest[j]).file_extensions.contains(
                                extension,
                            );
                    assert(adapters[i + 1] == adapter);
                    assert forall|j: int| 0 <= j < i + 1 implies !(
                    #[trigger] adapters[j]).file_extensions.contains(extension) by {
                        if j > 0 {
                            assert(rest[j - 1] == adapters[j]);
                        }
                    }
                },
                None => {
                    assert forall|j: int| 0 <= j < adapters.len() implies !(
                    #[trigger] adapters[j]).file_extensions.contains(extension) by {
                        if j > 0 {
                            assert(rest[j - 1] == adapters[j]);
                        }
                    }
                },
            }
        }
    }
}

/// The adapter for a file is the first that is for its extension. There is none where no adapter is.
pub proof fn law_first_adapter_for_the_file(adapters: Seq<AdapterModel>, file: Option<OpenFile>)
    ensures
        match chosen_adapter(adapters, file) {
            Some(adapter) => exists|i: int|
                0 <= i < adapters.len() && #[trigger] adapters[i] == adapter && is_for(adapter, file)
                    && forall|j: int| 0 <= j < i ==> !is_for(#[trigger] adapters[j], file),
            None => forall|j: int| 0 <= j < adapters.len() ==> !is_for(#[trigger] adapters[j], file),
        },
{
    if let Some(open) = file {
        if let Some(extension) = open.extension {
            lemma_first_adapter(adapters, lowercase(extension@));
        }
    }
}

/// In a session, the command to start one shows the debugger and lets the program run on.
pub proof fn law_starting_runs_on(editor: EditorModel, around: Surroundings)
    requires
        editor.prompt_type == PromptType::Closed,
        editor.quit_times == 0,
        editor.debug_session,
    ensures
        ({
            let shown = editor.commanded(around, Command::System(System::FocusDebuggerSidebar));
            editor.commanded(around, Command::System(System::StartDebug)) == asking(
                EditorModel { debug_paused: false, ..shown },
                seq![
                    ActionModel::Do(Step::SetStopLine(None)),
                    ActionModel::Send {
                        kind: RequestKind::Continue,
                        arguments: object_with("threadId"@, Json::Int(current_thread(editor))),
                    },
                ],
            )
        }),
{
    lemma_obeyed(editor, around, System::StartDebug);
    lemma_obeyed(editor, around, System::FocusDebuggerSidebar);
    reveal(EditorModel::system_commanded);
    reveal(EditorModel::emit);
    let shown = editor.debugger_sidebar_focused(around);
    let after = shown.resumed(RequestKind::Continue);
    assert(after.actions =~= shown.actions + seq![
        ActionModel::Do(Step::SetStopLine(None)),
        after.actions.last(),
    ]);
}

/// Without a session, the command to start one shows the debugger and looks for the adapter for the
/// open file: for that of Python by the interpreter, for any other by its own command. That there is
/// none is told.
pub proof fn law_starting_looks_for_the_adapter(editor: EditorModel, around: Surroundings)
    requires
        editor.prompt_type == PromptType::Closed,
        editor.quit_times == 0,
        !editor.debug_session,
    ensures
        ({
            let shown = editor.commanded(around, Command::System(System::FocusDebuggerSidebar));
            editor.commanded(around, Command::System(System::StartDebug)) == asking(
                shown,
                match chosen_adapter(editor.debug_adapters, around.file) {
                    Some(adapter) => seq![
                        ActionModel::Probe {
                            adapter,
                            stage: if same_but_case(adapter.dap_adapter_type, "debugpy"@) {
                                ProbeStage::Python
                            } else {
                                ProbeStage::OwnCommand
                            },
                        },
                    ],
                    None => seq![ActionModel::Message("No debug adapter for current file."@)],
                },
            )
        }),
{
    lemma_obeyed(editor, around, System::StartDebug);
    lemma_obeyed(editor, around, System::FocusDebuggerSidebar);
    reveal(EditorModel::system_commanded);
    reveal(EditorModel::emit);
    let shown = editor.debugger_sidebar_focused(around);
    let after = shown.debug_started(around);
    assert(after.actions =~= shown.actions + seq![after.actions.last()]);
}

/// The command that an adapter is looked for by.
pub proof fn law_looked_for_by(adapter: AdapterModel)
    ensures
        probe_program(adapter, ProbeStage::Python) == "python"@,
        probe_arguments(adapter, ProbeStage::Python) == seq!["-c"@, "import debugpy.adapter"@],
        probe_program(adapter, ProbeStage::PyLauncher) == "py"@,
        probe_arguments(adapter, ProbeStage::PyLauncher) == seq![
            "-3"@,
            "-c"@,
            "import debugpy.adapter"@,
        ],
        probe_program(adapter, ProbeStage::OwnCommand) == adapter.command,
        probe_arguments(adapter, ProbeStage::OwnCommand) == if same_but_case(
            adapter.dap_adapter_type,
            "dlv-dap"@,
        ) {
            seq!["version"@]
        } else {
            seq!["--version"@]
        },
{
}

/// The adapter of Python is there where the interpreter or the launcher has it, and any other where its
/// command can be run, however that ends. The launcher is tried behind the interpreter only.
pub proof fn law_when_an_adapter_is_there(
    adapter: AdapterModel,
    stage: ProbeStage,
    outcome: ProbeOutcome,
)
    ensures
        ({
            let next = readiness(adapter, stage, outcome);
            &&& next is Ready <==> match stage {
                ProbeStage::OwnCommand => outcome is Ran,
                _ => outcome == (ProbeOutcome::Ran { success: true }),
            }
            &&& next is Probe <==> stage == ProbeStage::Python && outcome != (ProbeOutcome::Ran {
                success: true,
            })
            &&& next is Probe ==> next == ReadinessModel::Probe(ProbeStage::PyLauncher)
        }),
{
}

/// What is told of an adapter that is not there.
pub proof fn law_missing_adapter(
    adapter: AdapterModel,
    stage: ProbeStage,
    outcome: ProbeOutcome,
)
    requires
        readiness(adapter, stage, outcome) is Missing,
    ensures
        readiness(adapter, stage, outcome)->Missing_0 == match (stage, outcome) {
            (ProbeStage::OwnCommand, ProbeOutcome::Failed(error)) =>
                "Failed to execute debug adapter '"@ + adapter.command + "': "@ + error@,
            (ProbeStage::OwnCommand, _) => if same_but_case(
                adapter.dap_adapter_type,
                "codelldb"@,
            ) {
                "Rust debug adapter 'codelldb' is missing. Install VS Code CodeLLDB extension or add codelldb to PATH."@
            } else if same_but_case(adapter.dap_adapter_type, "dlv-dap"@) {
                "Go debug adapter 'dlv' is missing. Install: go install github.com/go-delve/delve/cmd/dlv@latest and add GOPATH/bin to PATH."@
            } else {
                "Debug adapter command not found: "@ + adapter.command
                    + ". Install it and add to PATH."@
            },
            _ =>
                "Python/debugpy not found. Install: python -m pip install debugpy (or py -3 -m pip install debugpy)"@,
        },
{
}

/// An adapter that is there gets a session; Delve does so once its folder is found. One that is not there
/// is looked for in another way, or told of.
pub proof fn law_adapter_was_looked_for(
    editor: EditorModel,
    around: Surroundings,
    adapter: AdapterConfig,
    stage: ProbeStage,
    probed: ProbeOutcome,
)
    ensures
        editor.replied(around, Reply::Probed { adapter, stage, probed }) == asking(
            editor,
            seq![
                match readiness(adapter@, stage, probed) {
                    ReadinessModel::Probe(other) => ActionModel::Probe {
                        adapter: adapter@,
                        stage: other,
                    },
                    ReadinessModel::Missing(reason) => ActionModel::Message(reason),
                    ReadinessModel::Ready => if same_but_case(
                        adapter@.dap_adapter_type,
                        "dlv-dap"@,
                    ) {
                        ActionModel::FindModules {
                            adapter: adapter@,
                            folders: launch_folders(
                                match around.file {
                                    Some(open) => Some(open.path@),
                                    None => None,
                                },
                                around.workspace_root@,
                                around.path_style,
                            ),
                        }
                    } else {
                        ActionModel::OpenSession {
                            adapter: adapter@,
                            cwd: None,
                            arguments: initialize_json(adapter@.dap_adapter_type),
                        }
                    },
                },
            ],
        ),
{
    reveal(EditorModel::emit);
    let after = editor.replied(around, Reply::Probed { adapter, stage, probed });
    assert(after.actions =~= editor.actions + seq![after.actions.last()]);
}

/// Delve gets a session in the folder that was found for it.
pub proof fn law_session_in_the_folder_of_the_module(
    editor: EditorModel,
    around: Surroundings,
    adapter: AdapterConfig,
    found: Vec<bool>,
)
    ensures
        ({
            let folders = launch_folders(
                match around.file {
                    Some(open) => Some(open.path@),
                    None => None,
                },
                around.workspace_root@,
                around.path_style,
            );
            editor.replied(around, Reply::ModulesFound { adapter, found }) == asking(
                editor,
                seq![
                    ActionModel::OpenSession {
                        adapter: adapter@,
                        cwd: Some(go_launch_dir(folders, found@, around.workspace_root@)),
                        arguments: initialize_json(adapter@.dap_adapter_type),
                    },
                ],
            )
        }),
{
    reveal(EditorModel::emit);
    let after = editor.replied(around, Reply::ModulesFound { adapter, found });
    assert(after.actions =~= editor.actions + seq![after.actions.last()]);
}

/// A session that could not be opened is told of and changes nothing.
pub proof fn law_session_not_opened(
    editor: EditorModel,
    around: Surroundings,
    adapter: AdapterConfig,
    cwd: Option<String>,
    opened: SessionOutcome,
)
    requires
        !(opened is Opened),
    ensures
        editor.replied(around, Reply::SessionOpened { adapter, cwd, opened }) == asking(
            editor,
            match opened {
                SessionOutcome::StartFailed(error) => seq![
                    ActionModel::Message("Debug start error: "@ + error@),
                ],
                SessionOutcome::InitializeFailed(error) => seq![
                    ActionModel::Message("Debug init error: "@ + error@),
                ],
                SessionOutcome::Opened => Seq::empty(),
            },
        ),
{
    reveal(EditorModel::emit);
    let after = editor.replied(around, Reply::SessionOpened { adapter, cwd, opened });
    assert(after.actions =~= editor.actions + seq![after.actions.last()]);
}

/// A session that was opened is taken up with its adapter, and what it is to launch waits until the
/// adapter is introduced. One that cannot be told what to launch is let go of, and the reason is told.
/// What it launches is launched in the folder that it was opened in, or else in the workspace.
pub proof fn law_session_opened(
    editor: EditorModel,
    around: Surroundings,
    adapter: AdapterConfig,
    cwd: Option<String>,
)
    ensures
        ({
            let after = editor.replied(
                around,
                Reply::SessionOpened { adapter, cwd, opened: SessionOutcome::Opened },
            );
            let dir = match cwd {
                Some(folder) => folder@,
                None => around.workspace_root@,
            };
            match launch_json(adapter@, around, dir) {
                Ok(arguments) => after == asking(
                    EditorModel {
                        debug_session: true,
                        active_debug_adapter: Some(adapter@),
                        debug_state: DebugModel { active: true, ..editor.debug_state },
                        debug_paused: false,
                        pending_launch_arguments: Some(arguments),
                        ..editor
                    },
                    seq![
                        ActionModel::Do(Step::AdoptSession),
                        ActionModel::Do(Step::ShowDebugState),
                        ActionModel::Message("Debug initializing: "@ + adapter@.display_name),
                    ],
                ),
                Err(reason) => after == asking(
                    editor,
                    seq![ActionModel::Do(Step::DropSession), ActionModel::Message(reason)],
                ),
            }
        }),
{
    let dir = EditorModel::launch_dir(around, text_option(cwd));
    match launch_json(adapter@, around, dir) {
        Ok(arguments) => {
            let begun = EditorModel {
                debug_session: true,
                active_debug_adapter: Some(adapter@),
                debug_state: DebugModel { active: true, ..editor.debug_state },
                debug_paused: false,
                pending_launch_arguments: Some(arguments),
                ..editor
            };
            lemma_asked_one_by_one(
                begun,
                ActionModel::Do(Step::AdoptSession),
                ActionModel::Do(Step::ShowDebugState),
                ActionModel::Message("Debug initializing: "@ + adapter@.display_name),
            );
        },
        Err(reason) => {
            let told = ActionModel::Message(reason);
            lemma_asked_one_by_one(editor, ActionModel::Do(Step::DropSession), told, told);
        },
    }
}

// ---------------------------------------------------------------------------------------------
// What an adapter is told
// ---------------------------------------------------------------------------------------------
/// Whether an adapter has its own word on a member of what it is told.
pub open spec fn overrides(adapter: AdapterModel, key: Seq<char>) -> bool {
    member_of(adapter.launch_overrides, key) is Some
}

/// The adapters that can be told what to launch are told apart.
proof fn lemma_adapters_differ(adapter: AdapterModel)
    ensures
        same_but_case(adapter.dap_adapter_type, "codelldb"@) ==> !same_but_case(
            adapter.dap_adapter_type,
            "debugpy"@,
        ) && !same_but_case(adapter.dap_adapter_type, "dlv-dap"@),
        same_but_case(adapter.dap_adapter_type, "dlv-dap"@) ==> !same_but_case(
            adapter.dap_adapter_type,
            "debugpy"@,
        ),
{
    reveal_strlit("codelldb");
    reveal_strlit("debugpy");
    reveal_strlit("dlv-dap");
    assert("codelldb"@.len() == 8 && "debugpy"@.len() == 7 && "dlv-dap"@.len() == 7);
    let kind = adapter.dap_adapter_type;
    if same_but_case(kind, "dlv-dap"@) && same_but_case(kind, "debugpy"@) {
        assert(ascii_lower(kind[1]) == ascii_lower("dlv-dap"@[1]));
        assert(ascii_lower(kind[1]) == ascii_lower("debugpy"@[1]));
    }
}

/// The members of what an adapter is told have different names.
proof fn lemma_members_differ()
    ensures
        "name"@ != "type"@,
        "name"@ != "request"@,
        "name"@ != "program"@,
        "name"@ != "cwd"@,
        "type"@ != "request"@,
        "type"@ != "program"@,
        "type"@ != "cwd"@,
        "request"@ != "program"@,
        "request"@ != "cwd"@,
        "program"@ != "cwd"@,
        "mode"@ != "name"@,
        "mode"@ != "type"@,
        "mode"@ != "request"@,
        "mode"@ != "program"@,
        "mode"@ != "cwd"@,
        "stopOnEntry"@ != "name"@,
        "stopOnEntry"@ != "type"@,
        "stopOnEntry"@ != "request"@,
        "stopOnEntry"@ != "program"@,
        "stopOnEntry"@ != "cwd"@,
        "stopOnEntry"@ != "mode"@,
{
    reveal_strlit("name");
    reveal_strlit("type");
    reveal_strlit("request");
    reveal_strlit("program");
    reveal_strlit("cwd");
    reveal_strlit("mode");
    reveal_strlit("stopOnEntry");
    assert("name"@[0] == 'n' && "type"@[0] == 't' && "mode"@[0] == 'm' && "request"@[0] == 'r'
        && "program"@[0] == 'p' && "cwd"@[0] == 'c' && "stopOnEntry"@[0] == 's');
}

proof fn lemma_own_member(
    adapter: AdapterModel,
    around: Surroundings,
    launch_dir: Seq<char>,
    key: Seq<char>,
)
    requires
        base_launch(adapter, around, launch_dir) is Ok,
        base_launch(adapter, around, launch_dir)->Ok_0 is Object,
        !overrides(adapter, key),
    ensures
        launch_json(adapter, around, launch_dir) is Ok,
        member_of(launch_json(adapter, around, launch_dir)->Ok_0, key) == member_of(
            base_launch(adapter, around, launch_dir)->Ok_0,
            key,
        ),
{
}

/// Whether a member of what an adapter is told is as given, unless the adapter has its own word on it.
pub open spec fn told(
    adapter: AdapterModel,
    launch: Result<Json, Seq<char>>,
    key: Seq<char>,
    value: Json,
) -> bool {
    launch is Ok && (!overrides(adapter, key) ==> member_of(launch->Ok_0, key) == Some(value))
}

/// The binary of a Rust program lies in the folder that Cargo builds into, and goes by the name of the
/// open file: by that name alone on Unix, and with the ending of a program on Windows only.
pub proof fn law_rust_program_is_told(
    adapter: AdapterModel,
    around: Surroundings,
    launch_dir: Seq<char>,
)
    requires
        same_but_case(adapter.dap_adapter_type, "codelldb"@),
        around.file is Some,
        around.file->Some_0.stem is Some,
    ensures
        ({
            let launch = launch_json(adapter, around, launch_dir);
            let stem = around.file->Some_0.stem->Some_0@;
            let folder = joined(
                joined(around.workspace_root@, "target"@, around.path_style),
                "debug"@,
                around.path_style,
            );
            let binary = match around.path_style {
                PathStyle::Unix => stem,
                PathStyle::Windows => stem + ".exe"@,
            };
            &&& told(adapter, launch, "name"@, Json::Text("Debug current binary"@))
            &&& told(adapter, launch, "type"@, Json::Text("lldb"@))
            &&& told(adapter, launch, "request"@, Json::Text("launch"@))
            &&& told(
                adapter,
                launch,
                "program"@,
                Json::Text(joined(folder, binary, around.path_style)),
            )
            &&& told(adapter, launch, "cwd"@, Json::Text(around.workspace_root@))
        }),
{
    lemma_adapters_differ(adapter);
    lemma_members_differ();
    let stem = around.file->Some_0.stem->Some_0@;
    assert(stem + Seq::<char>::empty() =~= stem);
    lemma_own_members(adapter, around, launch_dir);
}

proof fn lemma_own_members(adapter: AdapterModel, around: Surroundings, launch_dir: Seq<char>)
    requires
        base_launch(adapter, around, launch_dir) is Ok,
    ensures
        launch_json(adapter, around, launch_dir) is Ok,
        forall|key: Seq<char>|
            !overrides(adapter, key) ==> #[trigger] member_of(
                launch_json(adapter, around, launch_dir)->Ok_0,
                key,
            ) == member_of(base_launch(adapter, around, launch_dir)->Ok_0, key),
{
    assert forall|key: Seq<char>| !overrides(adapter, key) implies #[trigger] member_of(
        launch_json(adapter, around, launch_dir)->Ok_0,
        key,
    ) == member_of(base_launch(adapter, around, launch_dir)->Ok_0, key) by {
        lemma_own_member(adapter, around, launch_dir, key);
    }
}

/// On Unix the last component of the program that is told is exactly the name of the open file, right
/// below the two folders of the workspace that Cargo builds into.
pub proof fn law_rust_program_on_unix(
    adapter: AdapterModel,
    around: Surroundings,
    launch_dir: Seq<char>,
)
    requires
        same_but_case(adapter.dap_adapter_type, "codelldb"@),
        around.path_style == PathStyle::Unix,
        around.file is Some,
        around.file->Some_0.stem is Some,
        is_name(around.file->Some_0.stem->Some_0@),
        !overrides(adapter, "program"@),
    ensures
        ({
            let launch = launch_json(adapter, around, launch_dir);
            let stem = around.file->Some_0.stem->Some_0@;
            launch is Ok && (member_of(launch->Ok_0, "program"@) matches Some(Json::Text(program))
                && components(program, PathStyle::Unix) == components(
                around.workspace_root@,
                PathStyle::Unix,
            ) + seq![
                PathPartModel::Normal("target"@),
                PathPartModel::Normal("debug"@),
                PathPartModel::Normal(stem),
            ])
        }),
{
    law_rust_program_is_told(adapter, around, launch_dir);
    let style = PathStyle::Unix;
    let root = around.workspace_root@;
    let stem = around.file->Some_0.stem->Some_0@;
    reveal_strlit("target");
    reveal_strlit("debug");
    assert("target"@.len() == 6 && "debug"@.len() == 5);
    assert(is_name("target"@));
    assert(is_name("debug"@));
    lemma_name_is_one_component("target"@);
    lemma_name_is_one_component("debug"@);
    lemma_name_is_one_component(stem);
    law_components_joined(root, "target"@);
    law_components_joined(joined(root, "target"@, style), "debug"@);
    law_components_joined(joined(joined(root, "target"@, style), "debug"@, style), stem);
    assert(components(root, style) + seq![PathPartModel::Normal("target"@)] + seq![
        PathPartModel::Normal("debug"@),
    ] + seq![PathPartModel::Normal(stem)] =~= components(root, style) + seq![
        PathPartModel::Normal("target"@),
        PathPartModel::Normal("debug"@),
        PathPartModel::Normal(stem),
    ]);
}

/// A Python program is the open file itself, run in the workspace.
pub proof fn law_python_program_is_told(
    adapter: AdapterModel,
    around: Surroundings,
    launch_dir: Seq<char>,
)
    requires
        same_but_case(adapter.dap_adapter_type, "debugpy"@),
        around.file is Some,
    ensures
        ({
            let launch = launch_json(adapter, around, launch_dir);
            &&& told(adapter, launch, "name"@, Json::Text("Debug current file"@))
            &&& told(adapter, launch, "type"@, Json::Text("python"@))
            &&& told(adapter, launch, "request"@, Json::Text("launch"@))
            &&& told(adapter, launch, "program"@, Json::Text(around.file->Some_0.path@))
            &&& told(adapter, launch, "cwd"@, Json::Text(around.workspace_root@))
        }),
{
    lemma_adapters_differ(adapter);
    lemma_members_differ();
    lemma_own_members(adapter, around, launch_dir);
}

/// A Go program is the package in the folder that it is launched from. It stops at its entry.
pub proof fn law_go_program_is_told(
    adapter: AdapterModel,
    around: Surroundings,
    launch_dir: Seq<char>,
)
    requires
        same_but_case(adapter.dap_adapter_type, "dlv-dap"@),
        around.file is Some,
    ensures
        ({
            let launch = launch_json(adapter, around, launch_dir);
            &&& told(adapter, launch, "name"@, Json::Text("Debug current Go package"@))
            &&& told(adapter, launch, "type"@, Json::Text("go"@))
            &&& told(adapter, launch, "request"@, Json::Text("launch"@))
            &&& told(adapter, launch, "mode"@, Json::Text("debug"@))
            &&& told(adapter, launch, "program"@, Json::Text("."@))
            &&& told(adapter, launch, "cwd"@, Json::Text(launch_dir))
            &&& told(adapter, launch, "stopOnEntry"@, Json::Bool(true))
        }),
{
    lemma_adapters_differ(adapter);
    lemma_members_differ();
    lemma_own_members(adapter, around, launch_dir);
}

/// Where an adapter has its own word, it is told that, with the place holders in it filled in.
pub proof fn law_adapter_has_its_word(
    adapter: AdapterModel,
    around: Surroundings,
    launch_dir: Seq<char>,
    key: Seq<char>,
)
    requires
        overrides(adapter, key),
        launch_json(adapter, around, launch_dir) is Ok,
        base_launch(adapter, around, launch_dir)->Ok_0 is Object,
    ensures
        member_of(launch_json(adapter, around, launch_dir)->Ok_0, key) == Some(
            expanded(
                member_of(adapter.launch_overrides, key)->Some_0,
                around.tmp_dir@,
                decimal(around.pid as int),
            ),
        ),
{
}

/// A program cannot be launched without a file, as a Rust program without a name, or by an adapter of
/// another kind, and in no other case.
pub proof fn law_when_nothing_is_launched(
    adapter: AdapterModel,
    around: Surroundings,
    launch_dir: Seq<char>,
)
    ensures
        ({
            let kind = adapter.dap_adapter_type;
            let known = same_but_case(kind, "debugpy"@) || same_but_case(kind, "codelldb"@)
                || same_but_case(kind, "dlv-dap"@);
            let launch = launch_json(adapter, around, launch_dir);
            &&& around.file is None ==> launch == Err::<Json, Seq<char>>(
                "Open a file before starting debug."@,
            )
            &&& around.file is Some && !known ==> launch == Err::<Json, Seq<char>>(
                "Unsupported adapter type for launch: "@ + kind,
            )
            &&& around.file is Some && same_but_case(kind, "codelldb"@)
                && around.file->Some_0.stem is None ==> launch == Err::<Json, Seq<char>>(
                "Could not resolve binary name from file."@,
            )
            &&& around.file is Some && known && (same_but_case(kind, "codelldb"@)
                ==> around.file->Some_0.stem is Some) ==> launch is Ok
        }),
{
    lemma_adapters_differ(adapter);
}

} // verus!
