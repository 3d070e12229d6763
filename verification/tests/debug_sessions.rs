use den::action::{Action, Part, Reply, SessionOutcome, Step};
use den::breakpoints::FileBreakpoints;
use den::command::{Command, Size, System};
use den::components::{components_of, PathStyle};
use den::dap::{DapBody, DapEvent, DapMessage};
use den::debug_state::offset_index;
use den::editor::{Editor, Startup};
use den::launch::{AdapterConfig, ProbeOutcome, ProbeStage};
use den::request::RequestKind;
use den::surroundings::{OpenFile, OutOfDate, Surroundings};
use serde_json::Value;

fn nothing_old() -> OutOfDate {
    OutOfDate {
        view: false,
        sidebar: false,
        status_bar: false,
        message_bar: false,
        command_bar: false,
        debug_panel: false,
        terminal: false,
    }
}

fn around() -> Surroundings {
    Surroundings {
        file: None,
        file_name: String::from("[No Name]"),
        is_modified: false,
        is_file_loaded: false,
        line_index: 0,
        prompt_value: String::new(),
        prompt_caret_col: 0,
        workspace_root: String::from("/work"),
        terminal_rows: 10,
        terminal_running: false,
        debug_panel_rows: 8,
        out_of_date: nothing_old(),
        path_style: PathStyle::Unix,
        tmp_dir: String::from("/tmp"),
        pid: 42,
    }
}

fn open_file(path: &str, extension: &str, stem: &str) -> OpenFile {
    OpenFile {
        path: String::from(path),
        source_path: format!("/real{}", path),
        extension: Some(String::from(extension)),
        stem: Some(String::from(stem)),
    }
}

fn json(text: &str) -> Value {
    serde_json::from_str(text).unwrap()
}

fn adapter(kind: &str, name: &str, command: &str, extension: &str) -> AdapterConfig {
    AdapterConfig {
        dap_adapter_type: String::from(kind),
        display_name: String::from(name),
        command: String::from(command),
        file_extensions: vec![String::from(extension)],
        launch_overrides: json("{}"),
    }
}

fn adapters() -> Vec<AdapterConfig> {
    vec![
        adapter("debugpy", "Python", "python", "py"),
        adapter("codelldb", "Rust", "codelldb", "rs"),
        adapter("dlv-dap", "Go", "dlv", "go"),
    ]
}

fn editor() -> Editor {
    let start = Startup {
        cwd: String::from("/work"),
        argument: None,
        size: Size { height: 40, width: 100 },
        adapters: adapters(),
        path_style: PathStyle::Unix,
    };
    let mut editor = Editor::new(start, &around());
    editor.take_actions();
    editor
}

fn command(editor: &mut Editor, around: &Surroundings, system: System) -> Vec<Action> {
    editor.process_command(around, Command::System(system));
    editor.take_actions()
}

fn message(text: &str) -> Action {
    Action::Message(String::from(text))
}

fn redraw(part: Part) -> Action {
    Action::Do(Step::Redraw(part))
}

fn body(text: &str) -> DapBody {
    DapBody { json: json(text), floats: Vec::new() }
}

fn event(name: &str, text: &str) -> DapEvent {
    DapEvent::Message(DapMessage::Event { event: String::from(name), body: body(text) })
}

fn granted(command: &str, text: &str) -> DapEvent {
    DapEvent::Message(DapMessage::Response {
        success: true,
        command: String::from(command),
        message: String::new(),
        body: body(text),
    })
}

fn refused(command: &str, why: &str) -> DapEvent {
    DapEvent::Message(DapMessage::Response {
        success: false,
        command: String::from(command),
        message: String::from(why),
        body: body("{}"),
    })
}

fn send(kind: RequestKind, text: &str) -> Action {
    Action::Send { kind, arguments: json(text) }
}

fn poll(editor: &mut Editor, around: &Surroundings, events: Vec<DapEvent>) -> Vec<Action> {
    editor.poll_debug_events(around, &events);
    editor.take_actions()
}

/// The actions without the two that every batch of events ends with.
fn hear(editor: &mut Editor, around: &Surroundings, events: Vec<DapEvent>) -> Vec<Action> {
    let mut actions = poll(editor, around, events);
    assert_eq!(actions.pop(), Some(Action::Do(Step::ShowDebugState)));
    assert_eq!(actions.pop(), Some(redraw(Part::StatusBar)));
    actions
}

fn reply(editor: &mut Editor, around: &Surroundings, reply: Reply) -> Vec<Action> {
    editor.handle_reply(around, reply);
    editor.take_actions()
}

fn in_python() -> Surroundings {
    let mut here = around();
    here.file = Some(open_file("/work/a.py", "py", "a"));
    here
}

fn in_go() -> Surroundings {
    let mut here = around();
    here.file = Some(open_file("/work/m/a.go", "go", "a"));
    here
}

fn opened(editor: &mut Editor, around: &Surroundings, config: AdapterConfig) -> Vec<Action> {
    reply(
        editor,
        around,
        Reply::SessionOpened { adapter: config, cwd: None, opened: SessionOutcome::Opened },
    )
}

fn python_session() -> Editor {
    let mut e = editor();
    opened(&mut e, &in_python(), adapter("debugpy", "Python", "python", "py"));
    e
}

fn go_session() -> Editor {
    let mut e = editor();
    opened(&mut e, &in_go(), adapter("dlv-dap", "Go", "dlv", "go"));
    e
}

const INITIALIZE: &str = "{\"clientID\": \"den\", \"clientName\": \"den\", \"adapterID\": \"debugpy\",
    \"linesStartAt1\": true, \"columnsStartAt1\": true, \"pathFormat\": \"path\"}";

#[test]
fn a_session_is_opened_step_by_step() {
    let mut e = editor();
    let here = in_python();
    let asked = command(&mut e, &here, System::StartDebug);
    let python = || adapter("debugpy", "Python", "python", "py");
    assert_eq!(
        asked.last(),
        Some(&Action::Probe { adapter: python(), stage: ProbeStage::Python })
    );
    assert!(e.sidebar_visible() && !e.sidebar_focus());
    assert_eq!(
        reply(
            &mut e,
            &here,
            Reply::Probed {
                adapter: python(),
                stage: ProbeStage::Python,
                probed: ProbeOutcome::NotFound,
            }
        ),
        vec![Action::Probe { adapter: python(), stage: ProbeStage::PyLauncher }]
    );
    assert_eq!(
        reply(
            &mut e,
            &here,
            Reply::Probed {
                adapter: python(),
                stage: ProbeStage::PyLauncher,
                probed: ProbeOutcome::Ran { success: true },
            }
        ),
        vec![Action::OpenSession { adapter: python(), cwd: None, arguments: json(INITIALIZE) }]
    );
    assert_eq!(
        opened(&mut e, &here, python()),
        vec![
            Action::Do(Step::AdoptSession),
            Action::Do(Step::ShowDebugState),
            message("Debug initializing: Python"),
        ]
    );
    assert!(e.debug_session() && e.debug_state().is_active() && !e.debug_paused());
    assert_eq!(e.debug_state_label(), Some(String::from("RUNNING")));
    assert_eq!(
        command(&mut e, &here, System::StartDebug).last(),
        Some(&send(RequestKind::Continue, "{\"threadId\": 0}"))
    );
}

#[test]
fn an_adapter_that_is_missing_is_told() {
    let mut e = editor();
    let here = around();
    let told = reply(
        &mut e,
        &here,
        Reply::Probed {
            adapter: adapter("odd", "Odd", "odd-dap", "x"),
            stage: ProbeStage::OwnCommand,
            probed: ProbeOutcome::NotFound,
        },
    );
    assert_eq!(
        told,
        vec![message("Debug adapter command not found: odd-dap. Install it and add to PATH.")]
    );
    assert_eq!(
        command(&mut e, &here, System::StartDebug).last(),
        Some(&message("No debug adapter for current file."))
    );
}

#[test]
fn delve_is_opened_in_the_folder_of_its_module() {
    let mut e = editor();
    let here = in_go();
    let go = || adapter("dlv-dap", "Go", "dlv", "go");
    assert_eq!(
        reply(
            &mut e,
            &here,
            Reply::Probed {
                adapter: go(),
                stage: ProbeStage::OwnCommand,
                probed: ProbeOutcome::Ran { success: true },
            }
        ),
        vec![Action::FindModules {
            adapter: go(),
            folders: vec![
                String::from("/work/m"),
                String::from("/work"),
                String::from("/"),
            ],
        }]
    );
    let cwd = |here: &Surroundings, found: Vec<bool>| {
        let mut e = editor();
        let mut asked = reply(&mut e, here, Reply::ModulesFound { adapter: go(), found });
        match asked.remove(0) {
            Action::OpenSession { cwd, .. } => cwd,
            other => panic!("{other:?}"),
        }
    };
    assert_eq!(cwd(&here, vec![true, true, false]), Some(String::from("/work/m")));
    assert_eq!(cwd(&here, vec![false, true, true]), Some(String::from("/work")));
    assert_eq!(cwd(&here, vec![false, false, true]), Some(String::from("/")));
    assert_eq!(cwd(&here, vec![false, false, false]), Some(String::from("/work/m")));
    assert_eq!(cwd(&around(), vec![]), Some(String::from("/work")));
}

#[test]
fn a_session_that_fails_is_told() {
    let mut e = editor();
    let here = in_python();
    let python = || adapter("debugpy", "Python", "python", "py");
    let outcome = |opened: SessionOutcome| Reply::SessionOpened {
        adapter: python(),
        cwd: None,
        opened,
    };
    assert_eq!(
        reply(&mut e, &here, outcome(SessionOutcome::StartFailed(String::from("x")))),
        vec![message("Debug start error: x")]
    );
    assert_eq!(
        reply(&mut e, &here, outcome(SessionOutcome::InitializeFailed(String::from("y")))),
        vec![message("Debug init error: y")]
    );
    assert_eq!(
        reply(&mut e, &around(), outcome(SessionOutcome::Opened)),
        vec![Action::Do(Step::DropSession), message("Open a file before starting debug.")]
    );
    assert!(!e.debug_session());
}

#[test]
fn the_program_is_launched_once_the_adapter_is_ready() {
    let mut e = python_session();
    let here = in_python();
    assert_eq!(
        hear(&mut e, &here, vec![granted("initialize", "{}"), granted("initialize", "{}")]),
        vec![send(
            RequestKind::Launch,
            "{\"name\": \"Debug current file\", \"type\": \"python\", \"request\": \"launch\",
              \"program\": \"/work/a.py\", \"cwd\": \"/work\"}"
        )]
    );
    assert!(e.pending_configuration_done());
    assert_eq!(
        hear(
            &mut e,
            &here,
            vec![event("initialized", "{}"), granted("launch", "{}"), event("initialized", "{}")]
        ),
        vec![
            Action::SyncBreakpoints(vec![]),
            send(RequestKind::ConfigurationDone, "{}"),
            message("Debug started: Python"),
        ]
    );
    assert!(!e.pending_configuration_done());
}

#[test]
fn a_launch_without_an_event_completes_the_configuration() {
    let mut e = go_session();
    let here = in_go();
    hear(&mut e, &here, vec![granted("initialize", "{}")]);
    assert_eq!(
        hear(&mut e, &here, vec![granted("launch", "{}")]),
        vec![
            Action::SyncBreakpoints(vec![]),
            send(RequestKind::ConfigurationDone, "{}"),
            message("Debug started: Go"),
        ]
    );
}

#[test]
fn a_stop_asks_for_threads_and_then_for_frames() {
    let mut e = python_session();
    let here = in_python();
    assert_eq!(
        hear(&mut e, &here, vec![event("stopped", "{\"threadId\": 7, \"reason\": \"entry\"}")]),
        vec![send(RequestKind::Threads, "{}"), message("Debug paused.")]
    );
    assert!(e.debug_paused());
    assert_eq!(e.debug_state_label(), Some(String::from("PAUSED")));
    assert_eq!(
        hear(
            &mut e,
            &here,
            vec![granted("threads", "{\"threads\": [{\"id\": 1}, {\"id\": 7, \"name\": \"w\"}]}")]
        ),
        vec![send(
            RequestKind::StackTrace,
            "{\"threadId\": 7, \"startFrame\": 0, \"levels\": 20}"
        )]
    );
    assert_eq!(e.debug_state().selected_thread_idx(), 1);
    assert_eq!(
        hear(
            &mut e,
            &here,
            vec![granted(
                "stackTrace",
                "{\"stackFrames\": [{\"id\": 3, \"name\": \"f\", \"line\": 9,
                  \"source\": {\"path\": \"/real/work/a.py\"}}]}"
            )]
        ),
        vec![
            Action::Do(Step::SetStopLine(Some(9))),
            send(RequestKind::Scopes, "{\"frameId\": 3}"),
        ]
    );
    assert_eq!(
        hear(
            &mut e,
            &here,
            vec![granted("scopes", "{\"scopes\": [{\"variablesReference\": 5}]}")]
        ),
        vec![send(RequestKind::Variables, "{\"variablesReference\": 5}")]
    );
    hear(
        &mut e,
        &here,
        vec![granted("variables", "{\"variables\": [{\"name\": \"x\", \"value\": \"1\"}]}")],
    );
    assert_eq!(e.debug_state().variables().len(), 1);
    assert_eq!(
        hear(&mut e, &here, vec![event("continued", "{}")]),
        vec![Action::Do(Step::SetStopLine(None))]
    );
    assert!(!e.debug_paused());
}

#[test]
fn a_thread_that_is_not_known_gives_way_to_another() {
    let here = in_python();
    let asked = |stopped: &str, threads: &str| {
        let mut e = python_session();
        hear(&mut e, &here, vec![event("stopped", stopped)]);
        hear(&mut e, &here, vec![granted("threads", threads)])
    };
    let frames = |id: i64| {
        vec![Action::Send {
            kind: RequestKind::StackTrace,
            arguments: json(&format!("{{\"threadId\": {id}, \"startFrame\": 0, \"levels\": 20}}")),
        }]
    };
    let threads = "{\"threads\": [{\"id\": 0}, {\"id\": 1}, {\"id\": 4}]}";
    assert_eq!(asked("{\"threadId\": 4}", threads), frames(4));
    assert_eq!(asked("{\"threadId\": 1}", threads), frames(1));
    assert_eq!(asked("{\"threadId\": 9}", threads), frames(4));
    assert_eq!(asked("{\"threadId\": 0}", threads), frames(4));
    assert_eq!(asked("{}", threads), frames(4));
    assert_eq!(asked("{\"threadId\": 9}", "{\"threads\": [{\"id\": 1}]}"), frames(1));
    assert_eq!(asked("{\"threadId\": 9}", "{\"threads\": []}"), frames(9));
    assert_eq!(asked("{}", "{\"threads\": [{\"id\": 0}]}"), vec![]);
}

#[test]
fn threads_without_a_stop_ask_for_nothing() {
    let mut e = python_session();
    let here = in_python();
    assert_eq!(
        hear(&mut e, &here, vec![granted("threads", "{\"threads\": [{\"id\": 4}]}")]),
        vec![]
    );
    assert_eq!(e.debug_state().threads().len(), 1);
}

#[test]
fn a_frame_elsewhere_marks_no_line() {
    let mut e = python_session();
    let here = in_python();
    assert_eq!(
        hear(
            &mut e,
            &here,
            vec![granted(
                "stackTrace",
                "{\"stackFrames\": [{\"id\": 0, \"line\": 9, \"source\": {\"path\": \"/x\"}}]}"
            )]
        ),
        vec![Action::Do(Step::SetStopLine(None))]
    );
    assert_eq!(
        hear(&mut e, &here, vec![granted("stackTrace", "{}")]),
        vec![Action::Do(Step::SetStopLine(None))]
    );
}

#[test]
fn delve_runs_on_from_the_entry() {
    let mut e = go_session();
    let here = in_go();
    assert_eq!(
        hear(&mut e, &here, vec![event("stopped", "{\"reason\": \"entry\", \"threadId\": 1}")]),
        vec![
            Action::SyncBreakpoints(vec![]),
            message("Delve entry stop -> breakpoints synced, continuing..."),
            Action::Do(Step::SetStopLine(None)),
            send(RequestKind::Continue, "{\"threadId\": 0}"),
        ]
    );
    assert!(!e.debug_paused());
}

#[test]
fn delve_is_asked_about_another_goroutine_once() {
    let mut e = go_session();
    let here = in_go();
    hear(
        &mut e,
        &here,
        vec![
            event("stopped", "{\"reason\": \"breakpoint\", \"threadId\": 5}"),
            granted("threads", "{\"threads\": [{\"id\": 1}, {\"id\": 5}, {\"id\": 8}]}"),
        ],
    );
    assert_eq!(
        hear(&mut e, &here, vec![refused("stackTrace", "unknown goroutine 5")]),
        vec![
            send(RequestKind::StackTrace, "{\"threadId\": 8, \"startFrame\": 0, \"levels\": 20}"),
            message("Retrying stackTrace with goroutine 8..."),
        ]
    );
    assert_eq!(
        hear(&mut e, &here, vec![refused("stackTrace", "unknown goroutine 8")]),
        vec![message("DAP stackTrace failed: unknown goroutine 8")]
    );
    assert_eq!(
        hear(&mut e, &here, vec![refused("stackTrace", "unknown goroutine 1")]),
        vec![
            message("Delve entry stop produced invalid goroutine. Continuing..."),
            Action::Do(Step::SetStopLine(None)),
            send(RequestKind::Continue, "{\"threadId\": 8}"),
        ]
    );
}

#[test]
fn a_refusal_is_told() {
    let mut e = python_session();
    let here = in_python();
    assert_eq!(
        hear(
            &mut e,
            &here,
            vec![
                refused("next", "not stopped"),
                refused("stackTrace", "unknown goroutine 1"),
                DapEvent::Error(String::from("pipe")),
                DapEvent::Message(DapMessage::Request),
            ]
        ),
        vec![
            message("DAP next failed: not stopped"),
            message("DAP stackTrace failed: unknown goroutine 1"),
            message("DAP error: pipe"),
        ]
    );
}

fn end_of(events: Vec<DapEvent>) -> Option<Action> {
    let mut e = python_session();
    let mut actions = poll(&mut e, &in_python(), events);
    assert!(!e.debug_session() && !e.debug_state().is_active());
    actions.pop()
}

#[test]
fn a_program_that_ends_ends_the_session() {
    assert_eq!(
        end_of(vec![event("exited", "{\"exitCode\": 3}")]),
        Some(message("Debuggee exited (code 3)."))
    );
    assert_eq!(
        end_of(vec![event("terminated", "{}")]),
        Some(message("Debuggee exited (code 0)."))
    );
    assert_eq!(end_of(vec![DapEvent::Closed]), Some(message("Debug session finished.")));
    assert_eq!(
        end_of(vec![event("exited", "{\"exitCode\": 3}"), DapEvent::Closed]),
        Some(message("Debuggee exited (code 3)."))
    );
    assert_eq!(
        end_of(vec![refused("stackTrace", "process 5 has exited with status 1")]),
        Some(message("Debuggee has already exited."))
    );
}

#[test]
fn nothing_is_heard_without_a_session() {
    let mut e = editor();
    assert_eq!(poll(&mut e, &around(), vec![DapEvent::Closed]), vec![]);
    let mut e = python_session();
    assert_eq!(poll(&mut e, &in_python(), vec![]), vec![]);
}

#[test]
fn a_session_is_stopped() {
    let mut e = python_session();
    let here = in_python();
    hear(
        &mut e,
        &here,
        vec![event("stopped", "{\"threadId\": 7}"), granted("threads", "{\"threads\": [{\"id\": 7}]}")],
    );
    let stopped = vec![
        Action::Do(Step::StopSession),
        Action::Do(Step::SetStopLine(None)),
        Action::Do(Step::ShowDebugState),
        message("Debug session finished."),
    ];
    assert_eq!(command(&mut e, &here, System::StopDebug), stopped);
    assert!(!e.debug_session() && !e.debug_paused() && e.debug_state().threads().is_empty());
    assert!(e.pending_launch_arguments().is_none() && e.active_debug_adapter().is_none());
    assert_eq!(e.debug_state_label(), None);
    assert_eq!(command(&mut e, &here, System::StopDebug), stopped);
}

#[test]
fn the_program_ends_with_its_session_and_shell() {
    let mut e = python_session();
    e.shutdown();
    assert_eq!(
        e.take_actions(),
        vec![
            Action::Do(Step::StopSession),
            Action::Do(Step::SetStopLine(None)),
            Action::Do(Step::ShowDebugState),
            message("Debug session finished."),
            Action::Do(Step::StopTerminal),
            Action::Do(Step::LeaveScreen),
        ]
    );
}

#[test]
fn requests_need_a_session() {
    let mut e = editor();
    let here = around();
    let none = message("Debug session is not running.");
    assert_eq!(
        command(&mut e, &here, System::StepOver),
        vec![Action::Do(Step::SetStopLine(None)), message("Debug session is not running.")]
    );
    assert_eq!(command(&mut e, &here, System::Pause), vec![none]);
}

#[test]
fn every_request_has_its_arguments() {
    let mut e = python_session();
    let here = in_python();
    hear(&mut e, &here, vec![event("stopped", "{\"threadId\": 7}")]);
    let unmark = || Action::Do(Step::SetStopLine(None));
    for (system, kind) in [
        (System::StepOver, RequestKind::Next),
        (System::StepInto, RequestKind::StepIn),
        (System::StepOut, RequestKind::StepOut),
        (System::Continue, RequestKind::Continue),
    ] {
        assert_eq!(
            command(&mut e, &here, system),
            vec![unmark(), send(kind, "{\"threadId\": 7}")]
        );
    }
    assert_eq!(
        command(&mut e, &here, System::RestartDebug),
        vec![unmark(), send(RequestKind::Restart, "{}")]
    );
    assert_eq!(
        command(&mut e, &here, System::Pause),
        vec![send(RequestKind::Pause, "{\"threadId\": 7}")]
    );
    assert_eq!(
        command(&mut e, &here, System::DisconnectDebug),
        vec![send(RequestKind::Disconnect, "{\"terminateDebuggee\": false}")]
    );
    let mut fresh = python_session();
    assert_eq!(
        command(&mut fresh, &here, System::Pause),
        vec![send(RequestKind::Pause, "{}")]
    );
}

#[test]
fn failed_requests_are_told() {
    let failed = |action: Action| action.failure_message("e");
    for (kind, name, text) in [
        (RequestKind::Initialize, "initialize", "Debug init error: e"),
        (RequestKind::Launch, "launch", "Debug launch error: e"),
        (RequestKind::ConfigurationDone, "configurationDone", "DAP configurationDone failed: e"),
        (RequestKind::Threads, "threads", "threads request error: e"),
        (RequestKind::StackTrace, "stackTrace", "stackTrace request error: e"),
        (RequestKind::Scopes, "scopes", "scopes request error: e"),
        (RequestKind::Variables, "variables", "variables request error: e"),
        (RequestKind::SetBreakpoints, "setBreakpoints", "setBreakpoints error: e"),
        (RequestKind::Continue, "continue", "Continue error: e"),
        (RequestKind::Pause, "pause", "Pause error: e"),
        (RequestKind::Restart, "restart", "Restart error: e"),
        (RequestKind::Disconnect, "disconnect", "Disconnect error: e"),
        (RequestKind::Next, "next", "StepOver error: e"),
        (RequestKind::StepIn, "stepIn", "StepInto error: e"),
        (RequestKind::StepOut, "stepOut", "StepOut error: e"),
    ] {
        assert_eq!(kind.command(), name);
        assert_eq!(failed(send(kind, "{}")), Some(String::from(text)));
    }
    assert_eq!(
        failed(Action::SyncBreakpoints(vec![])),
        Some(String::from("setBreakpoints sync error: e"))
    );
    assert_eq!(failed(Action::Do(Step::RebuildTree)), Some(String::from("File tree error: e")));
    assert_eq!(
        failed(Action::StartTerminal { dir: String::new(), columns: 1 }),
        Some(String::from("Terminal error: e"))
    );
    assert_eq!(failed(message("x")), None);
}

#[test]
fn breakpoints_are_set_and_removed() {
    let mut e = editor();
    let mut here = in_python();
    here.line_index = 4;
    assert_eq!(
        command(&mut e, &here, System::ToggleBreakpoint),
        vec![message("Breakpoint set at line 5 (F5 to start debug)."), redraw(Part::View)]
    );
    here.line_index = 1;
    command(&mut e, &here, System::ToggleBreakpoint);
    assert_eq!(e.breakpoints().lines("/work/a.py", PathStyle::Unix), vec![2, 5]);
    opened(&mut e, &here, adapter("debugpy", "Python", "python", "py"));
    here.line_index = 2;
    assert_eq!(
        command(&mut e, &here, System::ToggleBreakpoint),
        vec![
            send(
                RequestKind::SetBreakpoints,
                "{\"source\": {\"path\": \"/real/work/a.py\"},
                  \"breakpoints\": [{\"line\": 2}, {\"line\": 3}, {\"line\": 5}]}"
            ),
            message("Breakpoint set at line 3."),
            redraw(Part::View),
        ]
    );
    assert_eq!(
        command(&mut e, &here, System::ToggleBreakpoint)[1],
        message("Breakpoint removed at line 3.")
    );
    assert_eq!(e.breakpoints().lines("/work/a.py", PathStyle::Unix), vec![2, 5]);
    assert!(e.breakpoints().lines("/work/b.py", PathStyle::Unix).is_empty());
    hear(&mut e, &here, vec![granted("initialize", "{}")]);
    assert_eq!(
        hear(&mut e, &here, vec![event("initialized", "{}")])[0],
        Action::SyncBreakpoints(vec![FileBreakpoints {
            path: String::from("/work/a.py"),
            parts: components_of("/work/a.py", PathStyle::Unix),
            lines: vec![2, 5],
        }])
    );
    command(&mut e, &here, System::StopDebug);
    assert_eq!(e.breakpoints().lines("/work/a.py", PathStyle::Unix), vec![2, 5]);
}

#[test]
fn a_breakpoint_needs_a_file() {
    let mut e = editor();
    assert_eq!(
        command(&mut e, &around(), System::ToggleBreakpoint),
        vec![message("Open a file before toggling breakpoints.")]
    );
}

#[test]
fn verified_breakpoints_are_counted_by_the_editor() {
    let mut e = python_session();
    let here = in_python();
    assert_eq!(
        hear(
            &mut e,
            &here,
            vec![granted("setBreakpoints", "{\"breakpoints\": [{\"verified\": true}, {}]}")]
        ),
        vec![message("Breakpoints verified: 1/2")]
    );
    assert_eq!(e.verified_breakpoint_count(), 1);
    assert_eq!(hear(&mut e, &here, vec![granted("setBreakpoints", "{}")]), vec![]);
    assert_eq!(e.verified_breakpoint_count(), 0);
}

#[test]
fn selections_go_round() {
    assert_eq!(offset_index(0, 3, 1), 1);
    assert_eq!(offset_index(2, 3, 1), 0);
    assert_eq!(offset_index(0, 3, -1), 2);
    assert_eq!(offset_index(9, 3, -1), 1);
    assert_eq!(offset_index(0, 1, -1), 0);
    assert_eq!(offset_index(1, 3, 3), 1);
    assert_eq!(offset_index(1, 3, -3), 1);
    assert_eq!(offset_index(5, 7, isize::MIN), ((5 + isize::MIN as i128).rem_euclid(7)) as usize);
    assert_eq!(offset_index(5, 7, isize::MAX), ((5 + isize::MAX as i128).rem_euclid(7)) as usize);
}

#[test]
fn threads_are_selected() {
    let mut e = python_session();
    let here = in_python();
    assert_eq!(command(&mut e, &here, System::NextThread), vec![]);
    hear(&mut e, &here, vec![granted("threads", "{\"threads\": [{\"id\": 4}, {\"id\": 0}]}")]);
    assert_eq!(command(&mut e, &here, System::NextThread), vec![]);
    assert_eq!(e.debug_state().selected_thread_idx(), 1);
    assert_eq!(e.debug_state().current_thread_id(), Some(0));
    assert_eq!(
        command(&mut e, &here, System::PrevThread),
        vec![send(RequestKind::StackTrace, "{\"threadId\": 4, \"startFrame\": 0, \"levels\": 20}")]
    );
    assert_eq!(e.debug_state().selected_thread_idx(), 0);
}

#[test]
fn frames_are_selected() {
    let mut e = python_session();
    let here = in_python();
    assert_eq!(command(&mut e, &here, System::NextFrame), vec![]);
    hear(
        &mut e,
        &here,
        vec![granted(
            "stackTrace",
            "{\"stackFrames\": [{\"id\": 3, \"name\": \"f\", \"line\": 9,
              \"source\": {\"path\": \"/real/work/a.py\"}}, {\"name\": \"g\", \"line\": 2}]}",
        )],
    );
    assert_eq!(
        command(&mut e, &here, System::NextFrame),
        vec![Action::Do(Step::SetStopLine(None)), message("Selected frame #1: g")]
    );
    assert_eq!(
        command(&mut e, &here, System::PrevFrame),
        vec![
            send(RequestKind::Scopes, "{\"frameId\": 3}"),
            Action::Do(Step::SetStopLine(Some(9))),
            message("Selected frame #0: f"),
        ]
    );
    assert_eq!(e.debug_state().selected_frame_idx(), 0);
}

#[test]
fn variables_are_entered_and_left() {
    let mut e = python_session();
    let here = in_python();
    assert_eq!(command(&mut e, &here, System::ExpandVariable), vec![]);
    assert_eq!(command(&mut e, &here, System::CollapseVariable), vec![]);
    hear(
        &mut e,
        &here,
        vec![
            granted("scopes", "{\"scopes\": [{\"variablesReference\": 5}]}"),
            granted(
                "variables",
                "{\"variables\": [{\"name\": \"x\"}, {\"name\": \"o\", \"variablesReference\": 6}]}",
            ),
        ],
    );
    assert_eq!(command(&mut e, &here, System::ExpandVariable), vec![]);
    command(&mut e, &here, System::PrevVariable);
    assert_eq!(e.debug_state().selected_variable_idx(), 1);
    assert_eq!(
        command(&mut e, &here, System::ExpandVariable),
        vec![send(RequestKind::Variables, "{\"variablesReference\": 6}")]
    );
    assert_eq!(e.debug_state().variable_path(), &vec![String::from("o")]);
    assert_eq!(*e.variables_reference_stack(), vec![5]);
    assert_eq!(e.current_variables_reference(), Some(6));
    assert_eq!(
        command(&mut e, &here, System::CollapseVariable),
        vec![send(RequestKind::Variables, "{\"variablesReference\": 5}")]
    );
    assert!(e.debug_state().variable_path().is_empty());
    assert_eq!(e.current_variables_reference(), Some(5));
    command(&mut e, &here, System::NextVariable);
    assert_eq!(e.debug_state().selected_variable_idx(), 1);
    hear(&mut e, &here, vec![granted("variables", "{\"variables\": [{\"name\": \"y\"}]}")]);
    assert_eq!(e.debug_state().selected_variable_idx(), 0);
}

#[test]
fn the_configuration_is_completed_once() {
    let mut e = python_session();
    let mut here = in_python();
    here.line_index = 4;
    command(&mut e, &here, System::ToggleBreakpoint);
    e.send_configuration_done_if_pending();
    assert!(e.take_actions().is_empty());
    hear(&mut e, &here, vec![granted("initialize", "{}")]);
    assert!(e.pending_configuration_done());
    e.send_configuration_done_if_pending();
    assert!(!e.pending_configuration_done());
    let sent = e.take_actions();
    assert_eq!(sent.len(), 2);
    assert_eq!(
        sent[0],
        Action::SyncBreakpoints(vec![FileBreakpoints {
            path: String::from("/work/a.py"),
            parts: components_of("/work/a.py", PathStyle::Unix),
            lines: vec![5],
        }])
    );
    assert_eq!(sent[1], send(RequestKind::ConfigurationDone, "{}"));
    e.send_configuration_done_if_pending();
    assert!(e.take_actions().is_empty());
}

#[test]
fn another_goroutine_is_asked_for_but_once() {
    let threads = |ids: &str| {
        vec![
            event("stopped", "{\"reason\": \"breakpoint\", \"threadId\": 5}"),
            granted("threads", ids),
        ]
    };
    let mut e = go_session();
    let here = in_go();
    assert!(!e.try_retry_stacktrace_for_dlv());
    hear(&mut e, &here, threads("{\"threads\": [{\"id\": 5}, {\"id\": 1}, {\"id\": 7}, {\"id\": 8}]}"));
    assert!(e.try_retry_stacktrace_for_dlv());
    assert_eq!(
        e.take_actions(),
        vec![
            send(RequestKind::StackTrace, "{\"threadId\": 7, \"startFrame\": 0, \"levels\": 20}"),
            message("Retrying stackTrace with goroutine 7..."),
        ]
    );
    assert_eq!(e.debug_state().current_thread_id(), Some(7));
    assert!(!e.try_retry_stacktrace_for_dlv());
    assert!(e.take_actions().is_empty());
    let mut only_one = go_session();
    hear(&mut only_one, &here, threads("{\"threads\": [{\"id\": 5}, {\"id\": 1}]}"));
    assert!(only_one.try_retry_stacktrace_for_dlv());
    assert_eq!(only_one.debug_state().current_thread_id(), Some(1));
    let mut no_other = go_session();
    hear(&mut no_other, &here, threads("{\"threads\": [{\"id\": 5}]}"));
    assert!(!no_other.try_retry_stacktrace_for_dlv());
    let mut python = python_session();
    hear(&mut python, &in_python(), threads("{\"threads\": [{\"id\": 5}, {\"id\": 7}]}"));
    assert!(!python.try_retry_stacktrace_for_dlv());
    assert!(python.take_actions().is_empty());
}
