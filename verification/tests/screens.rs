use den::action::{Action, Part, Reply, SessionOutcome, Step};
use den::command::{Command, Position, Size, System};
use den::components::PathStyle;
use den::dap::{DapBody, DapEvent, DapMessage};
use den::editor::{Editor, Startup};
use den::launch::AdapterConfig;
use den::screen::{Caret, DrawStep};
use den::surroundings::{OpenFile, OutOfDate, Surroundings};
use serde_json::Value;

fn nothing_old() -> OutOfDate {
    OutOfDate {
        view: false,
        sidebar: false,
        status_bar: false,
        message_bar: false,
        command_bar: false,
        debug_panel: false,
        terminal: false,
    }
}

fn around() -> Surroundings {
    Surroundings {
        file: None,
        file_name: String::from("[No Name]"),
        is_modified: false,
        is_file_loaded: false,
        line_index: 0,
        prompt_value: String::new(),
        prompt_caret_col: 0,
        workspace_root: String::from("/work"),
        terminal_rows: 10,
        terminal_running: false,
        debug_panel_rows: 8,
        out_of_date: nothing_old(),
        path_style: PathStyle::Unix,
        tmp_dir: String::from("/tmp"),
        pid: 42,
    }
}

fn open_file(path: &str, extension: &str, stem: &str) -> OpenFile {
    OpenFile {
        path: String::from(path),
        source_path: format!("/real{}", path),
        extension: Some(String::from(extension)),
        stem: Some(String::from(stem)),
    }
}

fn json(text: &str) -> Value {
    serde_json::from_str(text).unwrap()
}

fn adapter(kind: &str, name: &str, command: &str, extension: &str) -> AdapterConfig {
    AdapterConfig {
        dap_adapter_type: String::from(kind),
        display_name: String::from(name),
        command: String::from(command),
        file_extensions: vec![String::from(extension)],
        launch_overrides: json("{}"),
    }
}

fn adapters() -> Vec<AdapterConfig> {
    vec![
        adapter("debugpy", "Python", "python", "py"),
        adapter("codelldb", "Rust", "codelldb", "rs"),
        adapter("dlv-dap", "Go", "dlv", "go"),
    ]
}

fn editor() -> Editor {
    let start = Startup {
        cwd: String::from("/work"),
        argument: None,
        size: Size { height: 40, width: 100 },
        adapters: adapters(),
        path_style: PathStyle::Unix,
    };
    let mut editor = Editor::new(start, &around());
    editor.take_actions();
    editor
}

fn command(editor: &mut Editor, around: &Surroundings, system: System) -> Vec<Action> {
    editor.process_command(around, Command::System(system));
    editor.take_actions()
}

fn message(text: &str) -> Action {
    Action::Message(String::from(text))
}

fn redraw(part: Part) -> Action {
    Action::Do(Step::Redraw(part))
}

fn begin(lines: Vec<i64>) -> Vec<DrawStep> {
    vec![DrawStep::MarkBreakpoints(lines), DrawStep::BeginUpdate, DrawStep::HideCaret]
}

fn end(caret: Caret) -> Vec<DrawStep> {
    vec![
        DrawStep::PlaceCaret(caret),
        DrawStep::ShowCaret,
        DrawStep::EndUpdate,
        DrawStep::Flush,
    ]
}

fn whole(lines: Vec<i64>, middle: Vec<DrawStep>, caret: Caret) -> Vec<DrawStep> {
    let mut steps = begin(lines);
    steps.extend(middle);
    steps.extend(end(caret));
    steps
}

fn bars() -> Vec<DrawStep> {
    vec![DrawStep::MessageBar(39), DrawStep::StatusBar(38)]
}

#[test]
fn the_view_is_drawn_alone() {
    let e = editor();
    let mut middle = bars();
    middle.push(DrawStep::View);
    assert_eq!(e.refresh_screen(&around()), whole(vec![], middle, Caret::InView));
}

#[test]
fn nothing_is_drawn_without_room() {
    let mut e = editor();
    for size in [Size { height: 0, width: 9 }, Size { height: 9, width: 0 }] {
        command(&mut e, &around(), System::Resize(size));
        assert_eq!(e.refresh_screen(&around()), vec![]);
    }
}

#[test]
fn one_row_holds_only_the_message_bar() {
    let mut e = editor();
    command(&mut e, &around(), System::Resize(Size { height: 1, width: 9 }));
    assert_eq!(
        e.refresh_screen(&around()),
        whole(vec![], vec![DrawStep::MessageBar(0)], Caret::InView)
    );
}

#[test]
fn a_question_takes_the_last_row_and_the_caret() {
    let mut e = editor();
    let mut here = around();
    command(&mut e, &here, System::Search);
    here.prompt_caret_col = 7;
    assert_eq!(
        e.refresh_screen(&here),
        whole(
            vec![],
            vec![DrawStep::Prompt(39), DrawStep::StatusBar(38), DrawStep::View],
            Caret::At(Position { row: 39, col: 7 })
        )
    );
}

#[test]
fn the_tree_and_the_terminal_are_drawn() {
    let mut e = editor();
    let mut here = around();
    command(&mut e, &here, System::FocusSidebar);
    let mut middle = bars();
    middle.push(DrawStep::Tree);
    middle.push(DrawStep::View);
    assert_eq!(e.refresh_screen(&here), whole(vec![], middle, Caret::InTree));
    command(&mut e, &here, System::FocusTerminal);
    here.out_of_date.terminal = true;
    let place = Position { row: 28, col: 24 };
    let mut middle = bars();
    middle.push(DrawStep::Tree);
    middle.push(DrawStep::View);
    middle.push(DrawStep::Terminal(place));
    assert_eq!(e.refresh_screen(&here), whole(vec![], middle, Caret::InTerminal(place)));
    here.out_of_date.terminal = false;
    assert_eq!(e.refresh_screen(&here).len(), 11);
}

fn row(row: usize, text: &str) -> DrawStep {
    DrawStep::SidebarRow { row, text: format!("{text:<23}│") }
}

#[test]
fn the_summary_fills_the_sidebar() {
    let mut e = editor();
    let here = around();
    command(&mut e, &here, System::Resize(Size { height: 9, width: 100 }));
    command(&mut e, &here, System::FocusDebuggerSidebar);
    assert_eq!(
        e.refresh_screen(&here),
        whole(
            vec![],
            vec![
                DrawStep::MessageBar(8),
                DrawStep::StatusBar(7),
                row(0, " Debugger"),
                row(1, " Status: inactive"),
                row(2, " Thread: -"),
                row(3, " Frames: 0"),
                row(4, " Vars: 0"),
                row(5, ""),
                row(6, ""),
                DrawStep::View,
            ],
            Caret::InView
        )
    );
}

#[test]
fn the_summary_shows_the_top_frame() {
    let mut e = editor();
    let mut here = around();
    here.file = Some(open_file("/work/a.py", "py", "a"));
    here.line_index = 4;
    command(&mut e, &here, System::ToggleBreakpoint);
    e.handle_reply(
        &here,
        Reply::SessionOpened {
            adapter: adapter("debugpy", "Python", "python", "py"),
            cwd: None,
            opened: SessionOutcome::Opened,
        },
    );
    let body = |text: &str| DapBody { json: json(text), floats: Vec::new() };
    let events = vec![
        DapEvent::Message(DapMessage::Event {
            event: String::from("stopped"),
            body: body("{\"threadId\": 7}"),
        }),
        DapEvent::Message(DapMessage::Response {
            success: true,
            command: String::from("stackTrace"),
            message: String::new(),
            body: body(
                "{\"stackFrames\": [{\"id\": 3, \"name\": \"f\", \"line\": 9,
                  \"source\": {\"path\": \"/a.py\"}}]}",
            ),
        }),
    ];
    e.poll_debug_events(&here, &events);
    command(&mut e, &here, System::Resize(Size { height: 20, width: 100 }));
    command(&mut e, &here, System::FocusDebuggerSidebar);
    let mut middle = vec![DrawStep::MessageBar(19), DrawStep::StatusBar(18)];
    for (i, text) in [
        " Debugger",
        " Status: active",
        " Thread: 7",
        " Frames: 1",
        " Vars: 0",
        " --- top frame ---",
        " f",
        " /a.py:9",
    ]
    .iter()
    .enumerate()
    {
        middle.push(row(i, text));
    }
    for i in 8..18 {
        middle.push(row(i, ""));
    }
    middle.push(DrawStep::View);
    middle.push(DrawStep::DebugPanel(10));
    assert_eq!(e.refresh_screen(&here), whole(vec![5], middle, Caret::InView));
}

#[test]
fn a_part_that_is_out_of_date_is_noticed() {
    let mut e = editor();
    let mut here = around();
    assert!(!e.needs_refresh(&here));
    here.out_of_date.terminal = true;
    assert!(!e.needs_refresh(&here));
    command(&mut e, &here, System::ToggleTerminal);
    assert!(e.needs_refresh(&here));
    let set: [fn(&mut OutOfDate); 6] = [
        |flags| flags.view = true,
        |flags| flags.sidebar = true,
        |flags| flags.status_bar = true,
        |flags| flags.message_bar = true,
        |flags| flags.command_bar = true,
        |flags| flags.debug_panel = true,
    ];
    for mark in set {
        let mut one = around();
        mark(&mut one.out_of_date);
        assert!(e.needs_refresh(&one));
    }
    assert_eq!(message("x"), Action::Message(String::from("x")));
    assert_ne!(redraw(Part::View), Action::Do(Step::ClearPrompt));
}

#[test]
fn a_round_draws_what_is_out_of_date_and_ends_the_program() {
    let mut e = editor();
    let mut here = around();
    let round = e.begin_round(&here);
    assert!(round.drawing.is_empty() && !round.leaves);
    here.out_of_date.view = true;
    let round = e.begin_round(&here);
    assert_eq!(round.drawing, e.refresh_screen(&here));
    assert!(!round.drawing.is_empty() && !round.leaves);
    command(&mut e, &here, System::Quit);
    assert!(e.begin_round(&here).leaves);
}

#[test]
fn a_pane_that_is_not_shown_may_have_any_number_of_rows() {
    let mut e = editor();
    let mut here = around();
    here.out_of_date.view = true;
    here.debug_panel_rows = usize::MAX;
    command(&mut e, &here, System::ToggleTerminal);
    assert!(e.terminal_visible());
    assert!(!e.refresh_screen(&here).is_empty());
    assert!(e.panes_fit(&here, Command::System(System::ToggleSidebar)));
}

#[test]
fn panes_with_more_rows_than_can_be_counted_are_drawn() {
    let mut e = editor();
    let mut here = around();
    here.file = Some(open_file("/work/a.py", "py", "a"));
    e.handle_reply(
        &here,
        Reply::SessionOpened {
            adapter: adapter("debugpy", "Python", "python", "py"),
            cwd: None,
            opened: SessionOutcome::Opened,
        },
    );
    here.debug_panel_rows = usize::MAX;
    here.out_of_date.terminal = true;
    assert!(e.panes_fit(&here, Command::System(System::ToggleSidebar)));
    assert!(!e.panes_fit(&here, Command::System(System::ToggleTerminal)));
    assert!(!e.panes_fit(&here, Command::System(System::FocusTerminal)));
    command(&mut e, &around(), System::FocusTerminal);
    assert!(!e.panes_fit(&here, Command::System(System::ToggleSidebar)));
    assert!(e.panes_fit(&here, Command::System(System::ToggleTerminal)));
    let steps = e.begin_round(&here).drawing;
    let place = Position { row: usize::MAX, col: 0 };
    assert!(steps.contains(&DrawStep::DebugPanel(0)));
    assert!(steps.contains(&DrawStep::Terminal(place)));
    assert!(steps.contains(&DrawStep::PlaceCaret(Caret::InTerminal(place))));
    assert!(!steps.contains(&DrawStep::View));
}
