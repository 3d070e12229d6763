use den::components::PathStyle;
use den::json::{member_int, member_is_true, member_items, member_text, member_text_option};
use den::launch::{
    active_file_extension, build_launch_arguments, ensure_adapter_ready, expand_launch_templates,
    first_probe, merge_launch_overrides, probe_command, select_debug_adapter, AdapterConfig,
    ProbeOutcome, ProbeStage, Readiness,
};
use den::surroundings::{OpenFile, OutOfDate, Surroundings};
use serde_json::Value;

fn nothing_old() -> OutOfDate {
    OutOfDate {
        view: false,
        sidebar: false,
        status_bar: false,
        message_bar: false,
        command_bar: false,
        debug_panel: false,
        terminal: false,
    }
}

fn around() -> Surroundings {
    Surroundings {
        file: None,
        file_name: String::from("[No Name]"),
        is_modified: false,
        is_file_loaded: false,
        line_index: 0,
        prompt_value: String::new(),
        prompt_caret_col: 0,
        workspace_root: String::from("/work"),
        terminal_rows: 10,
        terminal_running: false,
        debug_panel_rows: 8,
        out_of_date: nothing_old(),
        path_style: PathStyle::Unix,
        tmp_dir: String::from("/tmp"),
        pid: 42,
    }
}

fn open_file(path: &str, extension: &str, stem: &str) -> OpenFile {
    OpenFile {
        path: String::from(path),
        source_path: format!("/real{}", path),
        extension: Some(String::from(extension)),
        stem: Some(String::from(stem)),
    }
}

fn json(text: &str) -> Value {
    serde_json::from_str(text).unwrap()
}

fn adapter(kind: &str, name: &str, command: &str, extension: &str) -> AdapterConfig {
    AdapterConfig {
        dap_adapter_type: String::from(kind),
        display_name: String::from(name),
        command: String::from(command),
        file_extensions: vec![String::from(extension)],
        launch_overrides: json("{}"),
    }
}

fn adapters() -> Vec<AdapterConfig> {
    vec![
        adapter("debugpy", "Python", "python", "py"),
        adapter("codelldb", "Rust", "codelldb", "rs"),
        adapter("dlv-dap", "Go", "dlv", "go"),
    ]
}


#[test]
fn the_extension_is_lowered() {
    let mut file = open_file("/work/A.PY", "PY", "A");
    assert_eq!(active_file_extension(&Some(file)), Some(String::from("py")));
    file = open_file("/work/A.ÄÖ", "ÄÖ", "A");
    assert_eq!(active_file_extension(&Some(file)), Some(String::from("äö")));
    assert_eq!(active_file_extension(&None), None);
}

#[test]
fn the_adapter_goes_by_the_extension() {
    let all = adapters();
    let name = |extension: &str| {
        select_debug_adapter(&all, &Some(open_file("/x", extension, "x"))).map(|a| a.display_name)
    };
    assert_eq!(name("py"), Some(String::from("Python")));
    assert_eq!(name("GO"), Some(String::from("Go")));
    assert_eq!(name("c"), None);
    assert!(select_debug_adapter(&all, &None).is_none());
}

#[test]
fn python_is_tried_twice() {
    let python = adapter("DebugPy", "Python", "python", "py");
    assert_eq!(first_probe(&python), ProbeStage::Python);
    let first = probe_command(&python, ProbeStage::Python);
    assert_eq!(first.program, "python");
    assert_eq!(first.arguments, vec!["-c", "import debugpy.adapter"]);
    let second = probe_command(&python, ProbeStage::PyLauncher);
    assert_eq!(second.program, "py");
    assert_eq!(second.arguments, vec!["-3", "-c", "import debugpy.adapter"]);
    let ran = ProbeOutcome::Ran { success: true };
    let failed = ProbeOutcome::Ran { success: false };
    assert_eq!(ensure_adapter_ready(&python, ProbeStage::Python, &ran), Readiness::Ready);
    assert_eq!(
        ensure_adapter_ready(&python, ProbeStage::Python, &failed),
        Readiness::Probe(ProbeStage::PyLauncher)
    );
    assert_eq!(
        ensure_adapter_ready(&python, ProbeStage::Python, &ProbeOutcome::NotFound),
        Readiness::Probe(ProbeStage::PyLauncher)
    );
    assert_eq!(ensure_adapter_ready(&python, ProbeStage::PyLauncher, &ran), Readiness::Ready);
    assert_eq!(
        ensure_adapter_ready(&python, ProbeStage::PyLauncher, &failed),
        Readiness::Missing(String::from(
            "Python/debugpy not found. Install: python -m pip install debugpy (or py -3 -m pip install debugpy)"
        ))
    );
}

#[test]
fn other_adapters_are_run_themselves() {
    let rust = adapter("codelldb", "Rust", "codelldb", "rs");
    let go = adapter("dlv-dap", "Go", "/bin/dlv", "go");
    let other = adapter("odd", "Odd", "odd-dap", "x");
    assert_eq!(first_probe(&rust), ProbeStage::OwnCommand);
    assert_eq!(probe_command(&rust, ProbeStage::OwnCommand).arguments, vec!["--version"]);
    assert_eq!(probe_command(&go, ProbeStage::OwnCommand).arguments, vec!["version"]);
    assert_eq!(probe_command(&go, ProbeStage::OwnCommand).program, "/bin/dlv");
    let own = |a: &AdapterConfig, outcome: ProbeOutcome| {
        ensure_adapter_ready(a, ProbeStage::OwnCommand, &outcome)
    };
    assert_eq!(own(&rust, ProbeOutcome::Ran { success: false }), Readiness::Ready);
    assert_eq!(
        own(&rust, ProbeOutcome::NotFound),
        Readiness::Missing(String::from(
            "Rust debug adapter 'codelldb' is missing. Install VS Code CodeLLDB extension or add codelldb to PATH."
        ))
    );
    assert_eq!(
        own(&go, ProbeOutcome::NotFound),
        Readiness::Missing(String::from(
            "Go debug adapter 'dlv' is missing. Install: go install github.com/go-delve/delve/cmd/dlv@latest and add GOPATH/bin to PATH."
        ))
    );
    assert_eq!(
        own(&other, ProbeOutcome::NotFound),
        Readiness::Missing(String::from(
            "Debug adapter command not found: odd-dap. Install it and add to PATH."
        ))
    );
    assert_eq!(
        own(&other, ProbeOutcome::Failed(String::from("denied"))),
        Readiness::Missing(String::from("Failed to execute debug adapter 'odd-dap': denied"))
    );
}

#[test]
fn place_holders_are_filled_in_everywhere_but_in_keys() {
    let mut value = json(
        "{\"${pid}\": [\"${tmpDir}/${pid}.log\", 1, {\"x\": \"${pid}${pid}\"}], \"n\": null, \"t\": true}",
    );
    expand_launch_templates(&mut value, "/tmp", 42);
    assert_eq!(
        value,
        json("{\"${pid}\": [\"/tmp/42.log\", 1, {\"x\": \"4242\"}], \"n\": null, \"t\": true}")
    );
    let mut plain = json("{\"a\": [\"b\", 1.5]}");
    expand_launch_templates(&mut plain, "/tmp", 42);
    assert_eq!(plain, json("{\"a\": [\"b\", 1.5]}"));
}

#[test]
fn overrides_win() {
    let mut base = json("{\"a\": 1, \"b\": {\"c\": 2}}");
    merge_launch_overrides(&mut base, &json("{\"b\": [], \"d\": 4}"));
    assert_eq!(base, json("{\"a\": 1, \"b\": [], \"d\": 4}"));
    merge_launch_overrides(&mut base, &json("[1]"));
    assert_eq!(base, json("{\"a\": 1, \"b\": [], \"d\": 4}"));
    let mut text = json("\"x\"");
    merge_launch_overrides(&mut text, &json("{\"d\": 4}"));
    assert_eq!(text, json("\"x\""));
}

#[test]
fn python_is_told_the_open_file() {
    let mut here = around();
    here.file = Some(open_file("/work/a.py", "py", "a"));
    let mut python = adapter("debugpy", "Python", "python", "py");
    python.launch_overrides = json("{\"logToFile\": \"${tmpDir}/den-${pid}\"}");
    assert_eq!(
        build_launch_arguments(&python, &here, "/work"),
        Ok(json(
            "{\"name\": \"Debug current file\", \"type\": \"python\", \"request\": \"launch\",
              \"program\": \"/work/a.py\", \"cwd\": \"/work\", \"logToFile\": \"/tmp/den-42\"}"
        ))
    );
}

#[test]
fn the_rust_binary_goes_by_the_file_name() {
    let mut here = around();
    here.file = Some(open_file("/work/src/a.rs", "rs", "a"));
    here.path_style = PathStyle::Windows;
    let rust = adapter("codelldb", "Rust", "codelldb", "rs");
    assert_eq!(
        build_launch_arguments(&rust, &here, "/work"),
        Ok(json(
            "{\"name\": \"Debug current binary\", \"type\": \"lldb\", \"request\": \"launch\",
              \"program\": \"/work\\\\target\\\\debug\\\\a.exe\", \"cwd\": \"/work\"}"
        ))
    );
    if let Some(open) = &mut here.file {
        open.stem = None;
    }
    assert_eq!(
        build_launch_arguments(&rust, &here, "/work"),
        Err(String::from("Could not resolve binary name from file."))
    );
}

#[test]
fn go_is_launched_in_a_folder() {
    let mut here = around();
    here.file = Some(open_file("/work/m/a.go", "go", "a"));
    let go = adapter("DLV-DAP", "Go", "dlv", "go");
    assert_eq!(
        build_launch_arguments(&go, &here, "/work/m"),
        Ok(json(
            "{\"name\": \"Debug current Go package\", \"type\": \"go\", \"request\": \"launch\",
              \"mode\": \"debug\", \"program\": \".\", \"cwd\": \"/work/m\", \"stopOnEntry\": true}"
        ))
    );
}

#[test]
fn some_launches_are_refused() {
    let mut here = around();
    let odd = adapter("odd", "Odd", "odd", "x");
    assert_eq!(
        build_launch_arguments(&odd, &here, "/work"),
        Err(String::from("Open a file before starting debug."))
    );
    here.file = Some(open_file("/work/a.x", "x", "a"));
    assert_eq!(
        build_launch_arguments(&odd, &here, "/work"),
        Err(String::from("Unsupported adapter type for launch: odd"))
    );
}

#[test]
fn members_are_looked_up() {
    let value = json("{\"a\": [1, 2], \"t\": \"x\", \"b\": true, \"n\": 5}");
    assert_eq!(member_items(&value, "a").map(|items| items.len()), Some(2));
    assert!(member_items(&value, "t").is_none());
    assert_eq!(member_text(&value, "t"), "x");
    assert_eq!(member_text(&value, "a"), "");
    assert_eq!(member_text_option(&value, "t"), Some(String::from("x")));
    assert_eq!(member_text_option(&value, "zz"), None);
    assert!(member_is_true(&value, "b"));
    assert!(!member_is_true(&value, "n"));
    assert_eq!(member_int(&value, "n"), Some(5));
    assert_eq!(member_int(&json("[1]"), "n"), None);
}
