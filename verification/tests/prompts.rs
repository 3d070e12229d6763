use den::action::{Action, NewEntry, Part, Step};
use den::command::{
    Command, Edit, InputEvent, KeyCode, KeyModifiers, Move, MoveDirection, Size, System, CONTROL,
    NONE,
};
use den::components::PathStyle;
use den::dispatch::Input;
use den::editor::{Editor, Startup, QUIT_TIMES};
use den::launch::AdapterConfig;
use den::layout::{divide, Panes};
use den::prompt::PromptType;
use den::surroundings::{OpenFile, OutOfDate, Surroundings};
use serde_json::Value;

fn nothing_old() -> OutOfDate {
    OutOfDate {
        view: false,
        sidebar: false,
        status_bar: false,
        message_bar: false,
        command_bar: false,
        debug_panel: false,
        terminal: false,
    }
}

fn around() -> Surroundings {
    Surroundings {
        file: None,
        file_name: String::from("[No Name]"),
        is_modified: false,
        is_file_loaded: false,
        line_index: 0,
        prompt_value: String::new(),
        prompt_caret_col: 0,
        workspace_root: String::from("/work"),
        terminal_rows: 10,
        terminal_running: false,
        debug_panel_rows: 8,
        out_of_date: nothing_old(),
        path_style: PathStyle::Unix,
        tmp_dir: String::from("/tmp"),
        pid: 42,
    }
}

fn open_file(path: &str, extension: &str, stem: &str) -> OpenFile {
    OpenFile {
        path: String::from(path),
        source_path: format!("/real{}", path),
        extension: Some(String::from(extension)),
        stem: Some(String::from(stem)),
    }
}

fn json(text: &str) -> Value {
    serde_json::from_str(text).unwrap()
}

fn adapter(kind: &str, name: &str, command: &str, extension: &str) -> AdapterConfig {
    AdapterConfig {
        dap_adapter_type: String::from(kind),
        display_name: String::from(name),
        command: String::from(command),
        file_extensions: vec![String::from(extension)],
        launch_overrides: json("{}"),
    }
}

fn adapters() -> Vec<AdapterConfig> {
    vec![
        adapter("debugpy", "Python", "python", "py"),
        adapter("codelldb", "Rust", "codelldb", "rs"),
        adapter("dlv-dap", "Go", "dlv", "go"),
    ]
}

fn editor() -> Editor {
    let start = Startup {
        cwd: String::from("/work"),
        argument: None,
        size: Size { height: 40, width: 100 },
        adapters: adapters(),
        path_style: PathStyle::Unix,
    };
    let mut editor = Editor::new(start, &around());
    editor.take_actions();
    editor
}

fn command(editor: &mut Editor, around: &Surroundings, system: System) -> Vec<Action> {
    editor.process_command(around, Command::System(system));
    editor.take_actions()
}

fn message(text: &str) -> Action {
    Action::Message(String::from(text))
}

fn redraw(part: Part) -> Action {
    Action::Do(Step::Redraw(part))
}

fn edit(editor: &mut Editor, around: &Surroundings, edit: Edit) -> Vec<Action> {
    editor.process_command(around, Command::Edit(edit));
    editor.take_actions()
}

fn go(editor: &mut Editor, around: &Surroundings, direction: MoveDirection) -> Vec<Action> {
    editor.process_command(around, Command::Move(Move { direction, is_selection: false }));
    editor.take_actions()
}

fn key(editor: &mut Editor, code: KeyCode, bits: u8, command: Option<Command>) -> Vec<Action> {
    let event = InputEvent::Key { code, modifiers: KeyModifiers { bits }, is_press: true };
    editor.evaluate_event(&around(), &event, command);
    editor.take_actions()
}

fn closing() -> Vec<Action> {
    vec![redraw(Part::MessageBar), Action::Do(Step::ClearPrompt)]
}

fn closing_then(more: Action) -> Vec<Action> {
    let mut all = closing();
    all.push(more);
    all
}

#[test]
fn a_search_follows_every_change() {
    let mut e = editor();
    let mut here = around();
    assert_eq!(
        command(&mut e, &here, System::Search),
        vec![
            Action::Do(Step::EnterSearch),
            Action::Prompt(String::from("Search (Esc to cancel, Arrows to navigate): ")),
            Action::Do(Step::ClearPrompt),
        ]
    );
    assert_eq!(e.prompt_type(), PromptType::Search);
    assert!(e.in_prompt());
    assert_eq!(
        edit(&mut e, &here, Edit::Insert('a')),
        vec![
            Action::Do(Step::EditPrompt(Edit::Insert('a'))),
            Action::Do(Step::SearchPrompted),
        ]
    );
    here.prompt_value = String::from("a");
    assert_eq!(go(&mut e, &here, MoveDirection::Down), vec![Action::Do(Step::SearchNext)]);
    assert_eq!(go(&mut e, &here, MoveDirection::Right), vec![Action::Do(Step::SearchNext)]);
    assert_eq!(go(&mut e, &here, MoveDirection::Up), vec![Action::Do(Step::SearchPrevious)]);
    assert_eq!(go(&mut e, &here, MoveDirection::Left), vec![Action::Do(Step::SearchPrevious)]);
    assert_eq!(go(&mut e, &here, MoveDirection::Other(3)), vec![]);
    assert_eq!(
        edit(&mut e, &here, Edit::InsertNewline),
        closing_then(Action::Do(Step::ExitSearch))
    );
    assert_eq!(e.prompt_type(), PromptType::Closed);
}

#[test]
fn a_search_is_given_up() {
    let mut e = editor();
    let here = around();
    command(&mut e, &here, System::Search);
    assert_eq!(
        command(&mut e, &here, System::Dismiss),
        closing_then(Action::Do(Step::DismissSearch))
    );
    assert!(!e.in_prompt());
}

#[test]
fn a_text_is_replaced() {
    let mut e = editor();
    let mut here = around();
    assert_eq!(
        command(&mut e, &here, System::Replace),
        vec![
            Action::Do(Step::EnterSearch),
            Action::Prompt(String::from("Replace (search): ")),
            Action::Do(Step::ClearPrompt),
        ]
    );
    here.prompt_value = String::from("old");
    assert_eq!(go(&mut e, &here, MoveDirection::Down), vec![Action::Do(Step::SearchNext)]);
    assert_eq!(
        edit(&mut e, &here, Edit::InsertNewline),
        vec![Action::Prompt(String::from("Replace with: ")), Action::Do(Step::ClearPrompt)]
    );
    assert_eq!(e.prompt_type(), PromptType::Replace);
    here.prompt_value = String::from("new");
    assert_eq!(go(&mut e, &here, MoveDirection::Down), vec![]);
    assert_eq!(
        edit(&mut e, &here, Edit::Other(1)),
        vec![Action::Do(Step::EditPrompt(Edit::Other(1)))]
    );
    assert_eq!(
        edit(&mut e, &here, Edit::InsertNewline),
        vec![
            Action::Do(Step::ExitSearch),
            Action::ReplaceAll { query: String::from("old"), replacement: String::from("new") },
            redraw(Part::MessageBar),
            Action::Do(Step::ClearPrompt),
        ]
    );
    assert!(!e.in_prompt());
}

#[test]
fn replacing_is_given_up_at_either_question() {
    let mut e = editor();
    let here = around();
    command(&mut e, &here, System::Replace);
    assert_eq!(
        command(&mut e, &here, System::Dismiss),
        closing_then(Action::Do(Step::DismissSearch))
    );
    command(&mut e, &here, System::Replace);
    edit(&mut e, &here, Edit::InsertNewline);
    assert_eq!(
        command(&mut e, &here, System::Dismiss),
        closing_then(Action::Do(Step::DismissSearch))
    );
    assert!(!e.in_prompt());
}

#[test]
fn a_new_text_is_saved_under_a_name() {
    let mut e = editor();
    let mut here = around();
    assert_eq!(
        command(&mut e, &here, System::Save),
        vec![Action::Prompt(String::from("Save as: ")), Action::Do(Step::ClearPrompt)]
    );
    assert_eq!(go(&mut e, &here, MoveDirection::Left), vec![]);
    here.prompt_value = String::from("a.txt");
    assert_eq!(
        edit(&mut e, &here, Edit::InsertNewline),
        vec![
            Action::SaveAs(String::from("a.txt")),
            redraw(Part::MessageBar),
            Action::Do(Step::ClearPrompt),
        ]
    );
    assert!(!e.in_prompt());
    command(&mut e, &here, System::Save);
    assert_eq!(
        command(&mut e, &here, System::Dismiss),
        closing_then(message("Save aborted."))
    );
}

#[test]
fn a_loaded_text_is_saved_at_once() {
    let mut e = editor();
    let mut here = around();
    here.is_file_loaded = true;
    assert_eq!(command(&mut e, &here, System::Save), vec![Action::Do(Step::Save)]);
}

#[test]
fn a_new_entry_needs_a_name() {
    let mut e = editor();
    let mut here = around();
    assert_eq!(
        command(&mut e, &here, System::CreateFile),
        vec![Action::Prompt(String::from("New file name: ")), Action::Do(Step::ClearPrompt)]
    );
    assert_eq!(
        edit(&mut e, &here, Edit::InsertNewline),
        closing_then(message("Name is empty."))
    );
    command(&mut e, &here, System::CreateFile);
    here.prompt_value = String::from("src/a.rs");
    assert_eq!(
        edit(&mut e, &here, Edit::InsertNewline),
        closing_then(Action::InspectTarget(NewEntry {
            name: String::from("src/a.rs"),
            is_dir: false,
        }))
    );
    assert_eq!(
        command(&mut e, &here, System::CreateFolder),
        vec![Action::Prompt(String::from("New folder name: ")), Action::Do(Step::ClearPrompt)]
    );
    assert_eq!(
        edit(&mut e, &here, Edit::InsertNewline),
        closing_then(Action::InspectTarget(NewEntry {
            name: String::from("src/a.rs"),
            is_dir: true,
        }))
    );
    command(&mut e, &here, System::CreateFolder);
    assert_eq!(command(&mut e, &here, System::Dismiss), closing_then(message("Cancelled.")));
}

#[test]
fn questions_come_before_other_commands() {
    let here = around();
    for prompt in [
        System::Search,
        System::Save,
        System::Replace,
        System::CreateFile,
        System::CreateFolder,
    ] {
        let mut e = editor();
        command(&mut e, &here, prompt);
        for other in [
            System::Quit,
            System::Search,
            System::Save,
            System::ToggleSidebar,
            System::FocusTerminal,
            System::StartDebug,
            System::ToggleBreakpoint,
            System::NextThread,
        ] {
            assert_eq!(command(&mut e, &here, other), vec![]);
        }
        assert!(!e.should_quit() && !e.sidebar_visible() && !e.terminal_visible());
        let size = Size { height: 20, width: 50 };
        assert_eq!(command(&mut e, &here, System::Resize(size)).len(), 1);
        assert_eq!(e.terminal_size(), size);
        command(&mut e, &here, System::Dismiss);
        assert!(!e.in_prompt());
    }
}

#[test]
fn a_size_divides_the_screen_anew() {
    let mut e = editor();
    let here = around();
    let size = Size { height: 20, width: 50 };
    let panes = Panes {
        sidebar_visible: false,
        terminal_visible: false,
        debug_active: false,
        terminal_rows: 10,
        debug_panel_rows: 8,
    };
    assert_eq!(
        command(&mut e, &here, System::Resize(size)),
        vec![Action::Do(Step::ApplyLayout(divide(size, &panes)))]
    );
}

#[test]
fn a_clean_text_is_quit_at_once() {
    let mut e = editor();
    assert_eq!(command(&mut e, &around(), System::Quit), vec![]);
    assert!(e.should_quit());
}

#[test]
fn unsaved_changes_are_quit_twice() {
    let mut e = editor();
    let mut here = around();
    here.is_modified = true;
    assert_eq!(QUIT_TIMES, 2);
    assert_eq!(
        command(&mut e, &here, System::Quit),
        vec![message("WARNING! File has unsaved changes. Press Ctrl-Q 1 more times to quit.")]
    );
    assert!(!e.should_quit());
    command(&mut e, &here, System::Quit);
    assert!(e.should_quit());
}

#[test]
fn any_other_command_forgets_the_warning() {
    let mut e = editor();
    let mut here = around();
    here.is_modified = true;
    command(&mut e, &here, System::Quit);
    assert_eq!(
        edit(&mut e, &here, Edit::Insert('x')),
        vec![message(""), Action::Do(Step::EditView(Edit::Insert('x')))]
    );
    command(&mut e, &here, System::Quit);
    assert!(!e.should_quit());
    command(&mut e, &here, System::Resize(Size { height: 9, width: 9 }));
    command(&mut e, &here, System::Quit);
    assert!(e.should_quit());
}

#[test]
fn the_text_view_gets_edits_and_movements() {
    let mut e = editor();
    let here = around();
    assert_eq!(
        edit(&mut e, &here, Edit::InsertNewline),
        vec![Action::Do(Step::EditView(Edit::InsertNewline))]
    );
    let selecting = Move { direction: MoveDirection::Up, is_selection: true };
    e.process_command(&here, Command::Move(selecting));
    assert_eq!(e.take_actions(), vec![Action::Do(Step::MoveView(selecting))]);
    assert_eq!(command(&mut e, &here, System::Dismiss), vec![Action::Do(Step::ClearSelection)]);
}

#[test]
fn the_file_tree_gets_the_keyboard() {
    let mut e = editor();
    let here = around();
    let shown = command(&mut e, &here, System::ToggleSidebar);
    assert_eq!(shown[0], Action::Do(Step::RebuildTree));
    assert_eq!(
        shown[2..],
        [redraw(Part::Sidebar), redraw(Part::View), redraw(Part::DebugPanel)]
    );
    assert!(e.sidebar_visible() && e.sidebar_focus());
    assert_eq!(
        go(&mut e, &here, MoveDirection::Down),
        vec![Action::Do(Step::MoveInTree(MoveDirection::Down))]
    );
    let selecting = Move { direction: MoveDirection::Up, is_selection: true };
    e.process_command(&here, Command::Move(selecting));
    assert_eq!(e.take_actions(), vec![]);
    assert_eq!(edit(&mut e, &here, Edit::Insert('x')), vec![]);
    assert_eq!(
        edit(&mut e, &here, Edit::InsertNewline),
        vec![Action::Do(Step::EnterInTree)]
    );
    assert_eq!(
        command(&mut e, &here, System::Search)[0],
        Action::Do(Step::EnterSearch)
    );
    command(&mut e, &here, System::Dismiss);
    assert_eq!(
        command(&mut e, &here, System::Dismiss),
        vec![redraw(Part::Sidebar), redraw(Part::View)]
    );
    assert!(e.sidebar_visible() && !e.sidebar_focus());
    command(&mut e, &here, System::ToggleSidebar);
    assert!(!e.sidebar_visible());
}

#[test]
fn the_debugger_summary_never_has_the_keyboard() {
    let mut e = editor();
    let here = around();
    command(&mut e, &here, System::FocusSidebar);
    assert!(e.sidebar_focus());
    command(&mut e, &here, System::FocusDebuggerSidebar);
    assert!(e.sidebar_visible() && !e.sidebar_focus() && !e.terminal_focus());
    assert_eq!(
        edit(&mut e, &here, Edit::Insert('x')),
        vec![Action::Do(Step::EditView(Edit::Insert('x')))]
    );
    command(&mut e, &here, System::FocusSidebar);
    command(&mut e, &here, System::FocusView);
    assert!(e.sidebar_visible() && !e.sidebar_focus());
}

#[test]
fn a_shell_is_started_when_it_is_needed() {
    let mut e = editor();
    let mut here = around();
    assert_eq!(
        command(&mut e, &here, System::ToggleTerminal)[0],
        Action::StartTerminal { dir: String::from("/work"), columns: 100 }
    );
    assert!(e.terminal_visible() && e.terminal_focus());
    command(&mut e, &here, System::ToggleTerminal);
    assert!(!e.terminal_visible() && !e.terminal_focus());
    here.terminal_running = true;
    let again = command(&mut e, &here, System::FocusTerminal);
    assert!(matches!(again[0], Action::Do(Step::ApplyLayout(_))));
    assert_eq!(
        again[1..],
        [redraw(Part::Terminal), redraw(Part::View), redraw(Part::DebugPanel)]
    );
    command(&mut e, &here, System::ToggleTerminal);
    command(&mut e, &here, System::ToggleSidebar);
    here.terminal_running = false;
    assert_eq!(
        command(&mut e, &here, System::ToggleTerminal)[0],
        Action::StartTerminal { dir: String::from("/work"), columns: 76 }
    );
    assert!(!e.sidebar_focus());
}

#[test]
fn the_shell_gets_keys() {
    let mut e = editor();
    command(&mut e, &around(), System::FocusTerminal);
    assert_eq!(key(&mut e, KeyCode::Char('l'), NONE, None), vec![Action::WriteTerminal(vec![108])]);
    let typed = Some(Command::Edit(Edit::InsertNewline));
    assert_eq!(key(&mut e, KeyCode::Enter, NONE, typed), vec![Action::WriteTerminal(vec![13])]);
    let search = Some(Command::System(System::Search));
    assert_eq!(key(&mut e, KeyCode::Char('f'), CONTROL, search), vec![]);
    assert!(!e.in_prompt());
    assert_eq!(key(&mut e, KeyCode::Char('c'), CONTROL, None), vec![Action::WriteTerminal(vec![3])]);
    let view = Some(Command::System(System::FocusView));
    key(&mut e, KeyCode::Other, NONE, view);
    assert!(!e.terminal_focus());
}

#[test]
fn the_null_key_is_for_the_editor() {
    let mut e = editor();
    command(&mut e, &around(), System::FocusTerminal);
    assert_eq!(key(&mut e, KeyCode::Null, CONTROL, None), vec![]);
    let toggle = Some(Command::System(System::ToggleSidebar));
    key(&mut e, KeyCode::Char('@'), CONTROL, toggle);
    assert!(e.sidebar_visible());
}

#[test]
fn only_presses_count() {
    let mut e = editor();
    let release = InputEvent::Key {
        code: KeyCode::Char('a'),
        modifiers: KeyModifiers { bits: NONE },
        is_press: false,
    };
    e.evaluate_event(&around(), &release, Some(Command::System(System::Quit)));
    e.evaluate_event(&around(), &InputEvent::Other, Some(Command::System(System::Quit)));
    assert!(!e.should_quit());
    let size = Size { height: 3, width: 4 };
    e.evaluate_event(
        &around(),
        &InputEvent::Resize,
        Some(Command::System(System::Resize(size))),
    );
    assert_eq!(e.terminal_size(), size);
}

#[test]
fn a_pasted_text_goes_where_the_keyboard_is() {
    let paste = InputEvent::Paste(String::from("aü"));
    let here = around();
    let mut e = editor();
    e.evaluate_event(&here, &paste, None);
    assert_eq!(e.take_actions(), vec![Action::PasteText(String::from("aü"))]);
    command(&mut e, &here, System::Search);
    e.evaluate_event(&here, &paste, None);
    assert_eq!(
        e.take_actions(),
        vec![
            Action::Do(Step::EditPrompt(Edit::Insert('a'))),
            Action::Do(Step::EditPrompt(Edit::Insert('ü'))),
        ]
    );
    command(&mut e, &here, System::Dismiss);
    command(&mut e, &here, System::FocusSidebar);
    e.evaluate_event(&here, &paste, None);
    assert_eq!(e.take_actions(), vec![]);
    command(&mut e, &here, System::FocusTerminal);
    e.evaluate_event(&here, &paste, None);
    assert_eq!(e.take_actions(), vec![Action::WriteTerminal("aü".as_bytes().to_vec())]);
}

#[test]
fn failures_of_input_are_told() {
    let mut e = editor();
    let here = around();
    e.take_input(&here, &Input::Nothing);
    e.take_input(&here, &Input::ReadFailed(String::from("r")));
    e.take_input(&here, &Input::PollFailed(String::from("p")));
    assert_eq!(e.take_actions(), vec![message("Input error: r"), message("Poll error: p")]);
    e.take_input(
        &here,
        &Input::Event(InputEvent::Resize, Some(Command::System(System::Quit))),
    );
    assert!(e.should_quit());
}

const EVERY_COMMAND: [System; 31] = [
    System::Quit,
    System::Search,
    System::Save,
    System::Replace,
    System::Dismiss,
    System::ToggleSidebar,
    System::FocusSidebar,
    System::FocusDebuggerSidebar,
    System::FocusView,
    System::CreateFile,
    System::CreateFolder,
    System::ToggleTerminal,
    System::FocusTerminal,
    System::StartDebug,
    System::StopDebug,
    System::ToggleBreakpoint,
    System::StepOver,
    System::StepInto,
    System::StepOut,
    System::Continue,
    System::Pause,
    System::RestartDebug,
    System::DisconnectDebug,
    System::NextThread,
    System::PrevThread,
    System::NextFrame,
    System::PrevFrame,
    System::NextVariable,
    System::PrevVariable,
    System::ExpandVariable,
    System::CollapseVariable,
];

#[test]
fn no_request_is_sent_without_a_session() {
    for system in EVERY_COMMAND {
        let mut e = editor();
        let mut here = around();
        here.file = Some(open_file("/work/a.py", "py", "a"));
        for action in command(&mut e, &here, system) {
            assert!(!matches!(action, Action::Send { .. } | Action::SyncBreakpoints(_)));
        }
        assert!(!e.debug_session());
        assert_eq!(e.should_quit(), system == System::Quit);
    }
}

#[test]
fn what_was_asked_for_is_not_lost() {
    let mut e = editor();
    let here = around();
    for (count, system) in EVERY_COMMAND.iter().enumerate() {
        let mut alone = editor();
        e.process_command(&here, Command::System(System::Dismiss));
        alone.process_command(&here, Command::System(System::Dismiss));
        e.process_command(&here, Command::System(*system));
        if count + 1 == EVERY_COMMAND.len() {
            let all = e.take_actions();
            assert!(all.len() > count);
            assert_eq!(all[0], alone.take_actions()[0]);
        }
    }
}

#[test]
fn any_other_command_forgets_the_warning_before_quitting() {
    let mut here = around();
    here.is_modified = true;
    let quit = Command::System(System::Quit);
    for other in EVERY_COMMAND.iter().filter(|system| **system != System::Quit) {
        let mut e = editor();
        e.process_command_no_prompt(&here, quit);
        let warning = e.take_actions();
        assert!(!e.should_quit());
        e.process_command_no_prompt(&here, Command::System(*other));
        assert!(!e.should_quit());
        e.take_actions();
        e.process_command_no_prompt(&here, quit);
        assert_eq!(e.take_actions(), warning);
        assert!(!e.should_quit());
        e.process_command_no_prompt(&here, quit);
        assert!(e.should_quit());
    }
}
