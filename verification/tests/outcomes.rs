use den::action::{Action, Load, LoadReason, NewEntry, Part, Reply, Step};
use den::command::{Command, Edit, MoveDirection, Size, System};
use den::components::PathStyle;
use den::editor::{Editor, StartArgument, StartPath, Startup};
use den::launch::AdapterConfig;
use den::paths::{dap_source_path_string, SelectedEntry, TargetPaths};
use den::surroundings::{OpenFile, OutOfDate, Surroundings};
use serde_json::Value;

fn nothing_old() -> OutOfDate {
    OutOfDate {
        view: false,
        sidebar: false,
        status_bar: false,
        message_bar: false,
        command_bar: false,
        debug_panel: false,
        terminal: false,
    }
}

fn around() -> Surroundings {
    Surroundings {
        file: None,
        file_name: String::from("[No Name]"),
        is_modified: false,
        is_file_loaded: false,
        line_index: 0,
        prompt_value: String::new(),
        prompt_caret_col: 0,
        workspace_root: String::from("/work"),
        terminal_rows: 10,
        terminal_running: false,
        debug_panel_rows: 8,
        out_of_date: nothing_old(),
        path_style: PathStyle::Unix,
        tmp_dir: String::from("/tmp"),
        pid: 42,
    }
}

fn open_file(path: &str, extension: &str, stem: &str) -> OpenFile {
    OpenFile {
        path: String::from(path),
        source_path: format!("/real{}", path),
        extension: Some(String::from(extension)),
        stem: Some(String::from(stem)),
    }
}

fn json(text: &str) -> Value {
    serde_json::from_str(text).unwrap()
}

fn adapter(kind: &str, name: &str, command: &str, extension: &str) -> AdapterConfig {
    AdapterConfig {
        dap_adapter_type: String::from(kind),
        display_name: String::from(name),
        command: String::from(command),
        file_extensions: vec![String::from(extension)],
        launch_overrides: json("{}"),
    }
}

fn adapters() -> Vec<AdapterConfig> {
    vec![
        adapter("debugpy", "Python", "python", "py"),
        adapter("codelldb", "Rust", "codelldb", "rs"),
        adapter("dlv-dap", "Go", "dlv", "go"),
    ]
}

fn editor() -> Editor {
    let start = Startup {
        cwd: String::from("/work"),
        argument: None,
        size: Size { height: 40, width: 100 },
        adapters: adapters(),
        path_style: PathStyle::Unix,
    };
    let mut editor = Editor::new(start, &around());
    editor.take_actions();
    editor
}

fn command(editor: &mut Editor, around: &Surroundings, system: System) -> Vec<Action> {
    editor.process_command(around, Command::System(system));
    editor.take_actions()
}

fn message(text: &str) -> Action {
    Action::Message(String::from(text))
}

fn redraw(part: Part) -> Action {
    Action::Do(Step::Redraw(part))
}

fn reply(editor: &mut Editor, reply: Reply) -> Vec<Action> {
    editor.handle_reply(&around(), reply);
    editor.take_actions()
}

fn load(path: &str, reason: LoadReason) -> Load {
    Load { path: String::from(path), reason }
}

fn status() -> Vec<Action> {
    vec![Action::ShowStatus(None), Action::SetTitle(String::from("[No Name] - den"))]
}

fn start(argument: Option<StartArgument>) -> Editor {
    let start = Startup {
        cwd: String::from("/work"),
        argument,
        size: Size { height: 40, width: 100 },
        adapters: Vec::new(),
        path_style: PathStyle::Unix,
    };
    Editor::new(start, &around())
}

fn given(text: &str, path: StartPath) -> Option<StartArgument> {
    Some(StartArgument { text: String::from(text), path })
}

#[test]
fn a_start_without_a_path() {
    let mut e = start(None);
    let actions = e.take_actions();
    assert!(matches!(actions[0], Action::Do(Step::ApplyLayout(_))));
    assert_eq!(actions[1..], status());
    assert_eq!(e.terminal_size(), Size { height: 40, width: 100 });
    assert!(!e.sidebar_visible() && !e.terminal_visible() && !e.should_quit() && !e.in_prompt());
}

#[test]
fn a_start_with_a_path_that_does_not_exist() {
    let mut e = start(given("nope", StartPath::Missing));
    assert_eq!(
        e.take_actions()[1],
        message("ERROR: Path does not exist: nope")
    );
}

#[test]
fn a_start_with_a_folder() {
    let path = StartPath::Directory { resolved: Some(String::from("/real/dir")) };
    let begun = Startup {
        cwd: String::from("/work"),
        argument: given("dir", path),
        size: Size { height: 1, width: 1 },
        adapters: Vec::new(),
        path_style: PathStyle::Unix,
    };
    assert_eq!(begun.workspace_root(), "/real/dir");
    assert_eq!(begun.file_to_load(), None);
    let e = Editor::new(begun, &around());
    assert!(e.sidebar_visible() && !e.sidebar_focus());
    let unresolved = Startup {
        cwd: String::from("/work"),
        argument: given("dir", StartPath::Directory { resolved: None }),
        size: Size { height: 1, width: 1 },
        adapters: Vec::new(),
        path_style: PathStyle::Unix,
    };
    assert_eq!(unresolved.workspace_root(), "dir");
}

#[test]
fn a_start_with_a_file() {
    let path = || StartPath::File {
        resolved: Some(String::from("/real/a.rs")),
        resolved_folder: None,
    };
    let begun = Startup {
        cwd: String::from("/work"),
        argument: given("a.rs", path()),
        size: Size { height: 1, width: 1 },
        adapters: Vec::new(),
        path_style: PathStyle::Unix,
    };
    assert_eq!(begun.workspace_root(), "");
    let deeper = Startup {
        cwd: String::from("/work"),
        argument: given("src//a.rs", path()),
        size: Size { height: 1, width: 1 },
        adapters: Vec::new(),
        path_style: PathStyle::Unix,
    };
    assert_eq!(deeper.workspace_root(), "src");
    let resolved = Startup {
        cwd: String::from("/work"),
        argument: given(
            "src/a.rs",
            StartPath::File { resolved: None, resolved_folder: Some(String::from("/real/src")) },
        ),
        size: Size { height: 1, width: 1 },
        adapters: Vec::new(),
        path_style: PathStyle::Unix,
    };
    assert_eq!(resolved.workspace_root(), "/real/src");
    assert_eq!(begun.file_to_load(), Some(String::from("/real/a.rs")));
    let mut e = start(given("a.rs", path()));
    assert_eq!(
        e.take_actions()[1..],
        [Action::LoadFile(load("/real/a.rs", LoadReason::Startup))]
    );
    assert_eq!(
        reply(
            &mut e,
            Reply::Loaded { load: load("/real/a.rs", LoadReason::Startup), loaded: Ok(()) }
        ),
        status()
    );
    let mut failed = vec![message("ERROR: Could not open file: /real/a.rs")];
    failed.extend(status());
    assert_eq!(
        reply(
            &mut e,
            Reply::Loaded {
                load: load("/real/a.rs", LoadReason::Startup),
                loaded: Err(String::from("denied")),
            }
        ),
        failed
    );
}

#[test]
fn a_start_with_something_else() {
    let mut e = start(given("/dev/null", StartPath::Other));
    assert_eq!(e.take_actions()[1..], status());
}

#[test]
fn the_title_is_set_when_it_changes() {
    let mut e = editor();
    e.refresh_status(&around());
    assert_eq!(e.take_actions(), status());
    reply(&mut e, Reply::TitleSet(String::from("[No Name] - den")));
    assert_eq!(e.title(), "[No Name] - den");
    e.refresh_status(&around());
    assert_eq!(e.take_actions(), vec![Action::ShowStatus(None)]);
    e.show_status();
    assert_eq!(e.take_actions(), vec![Action::ShowStatus(None)]);
}

#[test]
fn the_file_tree_answers() {
    let mut e = editor();
    assert_eq!(reply(&mut e, Reply::TreeMoved(Ok(true))), vec![redraw(Part::Sidebar)]);
    assert_eq!(reply(&mut e, Reply::TreeMoved(Ok(false))), vec![]);
    assert_eq!(
        reply(&mut e, Reply::TreeMoved(Err(String::from("x")))),
        vec![message("File tree error: x")]
    );
    assert_eq!(
        reply(&mut e, Reply::TreeEntered(Ok(()))),
        vec![redraw(Part::Sidebar), Action::Do(Step::TakePendingOpen)]
    );
    assert_eq!(
        reply(&mut e, Reply::TreeEntered(Err(String::from("x")))),
        vec![
            message("File tree error: x"),
            redraw(Part::Sidebar),
            Action::Do(Step::TakePendingOpen),
        ]
    );
    assert_eq!(reply(&mut e, Reply::PendingOpen(None)), vec![]);
    assert_eq!(
        reply(&mut e, Reply::PendingOpen(Some(String::from("/a")))),
        vec![Action::LoadFile(load("/a", LoadReason::Sidebar))]
    );
}

#[test]
fn a_file_from_the_tree_gets_the_keyboard() {
    let mut e = editor();
    command(&mut e, &around(), System::FocusSidebar);
    assert_eq!(
        reply(
            &mut e,
            Reply::Loaded {
                load: load("/a", LoadReason::Sidebar),
                loaded: Err(String::from("denied")),
            }
        ),
        vec![
            message("ERROR: Could not open file: denied"),
            redraw(Part::View),
            redraw(Part::Sidebar),
        ]
    );
    assert!(e.sidebar_focus());
    let mut shown = status();
    shown.extend(vec![message(""), redraw(Part::View), redraw(Part::Sidebar)]);
    assert_eq!(
        reply(&mut e, Reply::Loaded { load: load("/a", LoadReason::Sidebar), loaded: Ok(()) }),
        shown
    );
    assert!(!e.sidebar_focus());
}

#[test]
fn saving_and_replacing_are_reported() {
    let mut e = editor();
    assert_eq!(reply(&mut e, Reply::Saved(true)), vec![message("File saved successfully.")]);
    assert_eq!(reply(&mut e, Reply::Saved(false)), vec![message("Error writing file!")]);
    assert_eq!(reply(&mut e, Reply::Replaced(0)), vec![message("No matches found.")]);
    assert_eq!(reply(&mut e, Reply::Replaced(12)), vec![message("Replaced 12 occurrence(s).")]);
}

fn entry(is_dir: bool) -> NewEntry {
    NewEntry { name: String::from("b/c"), is_dir }
}

fn ok(path: &str) -> Result<String, String> {
    Ok(String::from(path))
}

fn typed(name: &str, paths: TargetPaths) -> Vec<Action> {
    let entry = NewEntry { name: String::from(name), is_dir: false };
    reply(&mut editor(), Reply::TargetInspected { entry, paths })
}

fn create(name: &str, target: &str) -> Vec<Action> {
    let entry = NewEntry { name: String::from(name), is_dir: false };
    vec![Action::Create { entry, target: String::from(target) }]
}

#[test]
fn a_new_entry_goes_below_the_selected_folder() {
    let paths = TargetPaths {
        selected: Some(SelectedEntry {
            is_dir: true,
            entry: ok("/work/src"),
            parent: Some(ok("/work")),
        }),
        root: ok("/work"),
    };
    assert_eq!(typed("./b//c", paths), create("./b//c", "/work/src/b/c"));
}

#[test]
fn a_new_entry_goes_beside_the_selected_file() {
    let paths = |parent: Option<Result<String, String>>| TargetPaths {
        selected: Some(SelectedEntry { is_dir: false, entry: ok("/work/src/a"), parent }),
        root: ok("/work"),
    };
    assert_eq!(typed("b/c", paths(Some(ok("/work/src")))), create("b/c", "/work/src/b/c"));
    assert_eq!(typed("b/c", paths(None)), create("b/c", "/work/b/c"));
}

#[test]
fn a_new_entry_stays_in_the_workspace() {
    let paths = || TargetPaths { selected: None, root: ok("/work") };
    assert_eq!(typed("b/c", paths()), create("b/c", "/work/b/c"));
    assert_eq!(typed("a/./b", paths()), create("a/./b", "/work/a/b"));
    assert_eq!(
        typed("/x", paths()),
        vec![message("Invalid path: absolute paths are not allowed")]
    );
    for bad in ["..", "a/..", "a/../b", "../work/b"] {
        assert_eq!(typed(bad, paths()), vec![message("Invalid path: outside workspace")]);
    }
    for nothing in ["", ".", "./", ".//."] {
        assert_eq!(typed(nothing, paths()), vec![message("Invalid path: name is empty")]);
    }
    let mut unreal = paths();
    unreal.root = Err(String::from("gone"));
    assert_eq!(typed("b", unreal), vec![message("Workspace path error: gone")]);
    let elsewhere = |entry: Result<String, String>| TargetPaths {
        selected: Some(SelectedEntry { is_dir: true, entry, parent: None }),
        root: ok("/work"),
    };
    assert_eq!(
        typed("b", elsewhere(ok("/other"))),
        vec![message("Invalid path: outside workspace")]
    );
    assert_eq!(
        typed("b", elsewhere(ok("/workshop"))),
        vec![message("Invalid path: outside workspace")]
    );
    assert_eq!(
        typed("b", elsewhere(Err(String::from("lost")))),
        vec![message("Base path error: lost")]
    );
}

#[test]
fn a_new_file_is_loaded() {
    let mut e = editor();
    let created = |is_dir: bool| Reply::Created {
        entry: entry(is_dir),
        created: Ok(String::from("/work/b/c")),
    };
    let mut shown =
        vec![message("Created: b/c"), Action::Do(Step::RebuildTree), redraw(Part::Sidebar)];
    assert_eq!(reply(&mut e, created(true)), shown);
    shown.push(Action::LoadFile(load("/work/b/c", LoadReason::Created)));
    assert_eq!(reply(&mut e, created(false)), shown);
    assert_eq!(
        reply(
            &mut e,
            Reply::Created { entry: entry(true), created: Err(String::from("exists")) }
        ),
        vec![message("Error: exists")]
    );
    assert_eq!(
        reply(&mut e, Reply::Loaded { load: load("/a", LoadReason::Created), loaded: Ok(()) }),
        vec![redraw(Part::StatusBar)]
    );
    assert_eq!(
        reply(
            &mut e,
            Reply::Loaded {
                load: load("/a", LoadReason::Created),
                loaded: Err(String::from("denied")),
            }
        ),
        vec![message("Open error: denied")]
    );
}

#[test]
fn only_some_failures_are_told() {
    assert_eq!(
        Action::Do(Step::EditView(Edit::Insert('a'))).failure_message("read only"),
        Some(String::from("read only"))
    );
    assert_eq!(
        Action::Do(Step::MoveInTree(MoveDirection::Up)).failure_message("x"),
        None
    );
}

#[test]
fn adapters_are_not_told_of_the_verbatim_prefix() {
    let windows = PathStyle::Windows;
    assert_eq!(dap_source_path_string("\\\\?\\C:\\a.py", windows), "C:\\a.py");
    assert_eq!(dap_source_path_string("C:\\a.py", windows), "C:\\a.py");
    assert_eq!(dap_source_path_string("\\\\", windows), "\\\\");
    assert_eq!(dap_source_path_string("/a.py", PathStyle::Unix), "/a.py");
    assert_eq!(dap_source_path_string("\\\\?\\a.py", PathStyle::Unix), "\\\\?\\a.py");
}
