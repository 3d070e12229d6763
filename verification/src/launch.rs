//! Starting a debug session: which adapter, whether it is there, and what it is told to launch.
use crate::components::PathStyle;
use crate::dap::text_option;
use crate::debug_state::texts_of;
use crate::json::{
    Json, array_value, items_of, json_of, jsons_of, member, member_keys, member_of, members_of,
    no_members, object_value, put_bool, put_text, text_value,
};
use crate::paths::{join_path, joined};
use crate::surroundings::{OpenFile, Surroundings};
use crate::text::{
    concat2, concat3, decimal, eq_ignore_ascii_case, lowercase, natural_text, occurs_at,
    occurs_in, replace_text, replaced, same_but_case, same_text,
};
use serde_json::Value;
use vstd::prelude::*;

verus! {

/// A debug adapter.
#[derive(Debug, PartialEq)]
pub struct AdapterConfig {
    pub dap_adapter_type: String,
    pub display_name: String,
    pub command: String,
    pub file_extensions: Vec<String>,
    pub launch_overrides: Value,
}

pub struct AdapterModel {
    pub dap_adapter_type: Seq<char>,
    pub display_name: Seq<char>,
    pub command: Seq<char>,
    pub file_extensions: Seq<Seq<char>>,
    pub launch_overrides: Json,
}

impl View for AdapterConfig {
    type V = AdapterModel;

    open spec fn view(&self) -> AdapterModel {
        AdapterModel {
            dap_adapter_type: self.dap_adapter_type@,
            display_name: self.display_name@,
            command: self.command@,
            file_extensions: texts_of(self.file_extensions@),
            launch_overrides: json_of(self.launch_overrides),
        }
    }
}

pub open spec fn adapter_models(adapters: Seq<AdapterConfig>) -> Seq<AdapterModel> {
    adapters.map_values(|adapter: AdapterConfig| adapter@)
}

impl AdapterModel {
    /// Whether the adapter is of a type, whatever the case of its letters.
    pub open spec fn is_type(self, name: Seq<char>) -> bool {
        same_but_case(self.dap_adapter_type, name)
    }
}

impl Clone for AdapterConfig {
    fn clone(&self) -> (copy: AdapterConfig)
        ensures
            copy@ == self@,
    {
        let copy = AdapterConfig {
            dap_adapter_type: self.dap_adapter_type.clone(),
            display_name: self.display_name.clone(),
            command: self.command.clone(),
            file_extensions: self.file_extensions.clone(),
            launch_overrides: self.launch_overrides.clone(),
        };
        assert(texts_of(copy.file_extensions@) =~= texts_of(self.file_extensions@));
        copy
    }
}

impl AdapterConfig {
    /// Whether the adapter is of a type, whatever the case of its letters.
    pub fn has_type(&self, name: &str) -> (is: bool)
        ensures
            is == self@.is_type(name@),
    {
        eq_ignore_ascii_case(self.dap_adapter_type.as_str(), name)
    }

    fn handles(&self, extension: &str) -> (is: bool)
        ensures
            is == self@.file_extensions.contains(extension@),
    {
        let mut i: usize = 0;
        while i < self.file_extensions.len()
            invariant
                i <= self.file_extensions@.len(),
                forall|k: int| 0 <= k < i ==> self@.file_extensions[k] != extension@,
            decreases self.file_extensions.len() - i,
        {
            if same_text(self.file_extensions[i].as_str(), extension) {
                assert(self@.file_extensions[i as int] == extension@);
                return true;
            }
            i += 1;
        }
        false
    }
}

// ---------------------------------------------------------------------------------------------
// Choosing an adapter
// ---------------------------------------------------------------------------------------------
/// The extension of the open file, in lower case.
pub open spec fn file_extension(file: Option<OpenFile>) -> Option<Seq<char>> {
    match file {
        Some(open) => match open.extension {
            Some(extension) => Some(lowercase(extension@)),
            None => None,
        },
        None => None,
    }
}

/// The first adapter that handles an extension.
pub open spec fn adapter_for(adapters: Seq<AdapterModel>, extension: Seq<char>) -> Option<
    AdapterModel,
>
    decreases adapters.len(),
{
    if adapters.len() == 0 {
        None
    } else if adapters[0].file_extensions.contains(extension) {
        Some(adapters[0])
    } else {
        adapter_for(adapters.skip(1), extension)
    }
}

/// The adapter for the open file.
pub open spec fn chosen_adapter(adapters: Seq<AdapterModel>, file: Option<OpenFile>) -> Option<
    AdapterModel,
> {
    match file_extension(file) {
        Some(extension) => adapter_for(adapters, extension),
        None => None,
    }
}

/// An optional adapter by its model.
pub open spec fn adapter_option(adapter: Option<AdapterConfig>) -> Option<AdapterModel> {
    match adapter {
        Some(a) => Some(a@),
        None => None,
    }
}

/// The extension of the open file, in lower case.
pub fn active_file_extension(file: &Option<OpenFile>) -> (extension: Option<String>)
    ensures
        text_option(extension) == file_extension(*file),
{
    match file {
        Some(open) => match &open.extension {
            Some(extension) => Some(extension.as_str().to_lowercase()),
            None => None,
        },
        None => None,
    }
}

/// The first adapter that handles an extension.
pub fn find_adapter(adapters: &Vec<AdapterConfig>, extension: &str) -> (adapter: Option<
    AdapterConfig,
>)
    ensures
        adapter_option(adapter) == adapter_for(adapter_models(adapters@), extension@),
{
    let ghost all = adapter_models(adapters@);
    let mut i: usize = 0;
    assert(all.skip(0) == all);
    while i < adapters.len()
        invariant
            all == adapter_models(adapters@),
            i <= adapters@.len(),
            adapter_for(all, extension@) == adapter_for(all.skip(i as int), extension@),
        decreases adapters.len() - i,
    {
        assert(all.skip(i as int)[0] == adapters@[i as int]@);
        if adapters[i].handles(extension) {
            return Some(adapters[i].clone());
        }
        assert(all.skip(i as int).skip(1) == all.skip(i + 1));
        i += 1;
    }
    None
}

/// The adapter for the open file.
pub fn select_debug_adapter(
    adapters: &Vec<AdapterConfig>,
    file: &Option<OpenFile>,
) -> (adapter: Option<AdapterConfig>)
    ensures
        adapter_option(adapter) == chosen_adapter(adapter_models(adapters@), *file),
{
    match active_file_extension(file) {
        Some(extension) => find_adapter(adapters, extension.as_str()),
        None => None,
    }
}

// ---------------------------------------------------------------------------------------------
// Whether the adapter is there
// ---------------------------------------------------------------------------------------------
/// A way to find out whether an adapter is there: by the Python interpreter, by the Python
/// launcher, or by the adapter's own command.
#[derive(Clone, Copy, PartialEq, Eq, Structural, Debug)]
pub enum ProbeStage {
    Python,
    PyLauncher,
    OwnCommand,
}

/// A command to run.
#[derive(Debug, PartialEq)]
pub struct ProbeCommand {
    pub program: String,
    pub arguments: Vec<String>,
}

/// What came of running a command.
pub enum ProbeOutcome {
    Ran { success: bool },
    NotFound,
    Failed(String),
}

/// What follows from it: the adapter is there, another way is tried, or it is not there.
#[derive(Debug, PartialEq)]
pub enum Readiness {
    Ready,
    Probe(ProbeStage),
    Missing(String),
}

pub enum ReadinessModel {
    Ready,
    Probe(ProbeStage),
    Missing(Seq<char>),
}

impl View for Readiness {
    type V = ReadinessModel;

    open spec fn view(&self) -> ReadinessModel {
        match self {
            Readiness::Ready => ReadinessModel::Ready,
            Readiness::Probe(stage) => ReadinessModel::Probe(*stage),
            Readiness::Missing(reason) => ReadinessModel::Missing(reason@),
        }
    }
}

/// The first way that is tried.
pub open spec fn first_stage(adapter: AdapterModel) -> ProbeStage {
    if adapter.is_type("debugpy"@) {
        ProbeStage::Python
    } else {
        ProbeStage::OwnCommand
    }
}

/// The program that is run.
pub open spec fn probe_program(adapter: AdapterModel, stage: ProbeStage) -> Seq<char> {
    match stage {
        ProbeStage::Python => "python"@,
        ProbeStage::PyLauncher => "py"@,
        ProbeStage::OwnCommand => adapter.command,
    }
}

/// The arguments that it is run with.
pub open spec fn probe_arguments(adapter: AdapterModel, stage: ProbeStage) -> Seq<Seq<char>> {
    match stage {
        ProbeStage::Python => seq!["-c"@, "import debugpy.adapter"@],
        ProbeStage::PyLauncher => seq!["-3"@, "-c"@, "import debugpy.adapter"@],
        ProbeStage::OwnCommand => if adapter.is_type("dlv-dap"@) {
            seq!["version"@]
        } else {
            seq!["--version"@]
        },
    }
}

/// What is said of an adapter whose command is not found.
pub open spec fn missing_text(adapter: AdapterModel) -> Seq<char> {
    if adapter.is_type("codelldb"@) {
        "Rust debug adapter 'codelldb' is missing. Install VS Code CodeLLDB extension or add codelldb to PATH."@
    } else if adapter.is_type("dlv-dap"@) {
        "Go debug adapter 'dlv' is missing. Install: go install github.com/go-delve/delve/cmd/dlv@latest and add GOPATH/bin to PATH."@
    } else {
        "Debug adapter command not found: "@ + adapter.command
            + ". Install it and add to PATH."@
    }
}

/// What follows from the outcome of one way.
pub open spec fn readiness(
    adapter: AdapterModel,
    stage: ProbeStage,
    outcome: ProbeOutcome,
) -> ReadinessModel {
    match (stage, outcome) {
        (ProbeStage::OwnCommand, ProbeOutcome::Ran { .. }) => ReadinessModel::Ready,
        (ProbeStage::OwnCommand, ProbeOutcome::NotFound) => ReadinessModel::Missing(
            missing_text(adapter),
        ),
        (ProbeStage::OwnCommand, ProbeOutcome::Failed(error)) => ReadinessModel::Missing(
            "Failed to execute debug adapter '"@ + adapter.command + "': "@ + error@,
        ),
        (_, ProbeOutcome::Ran { success: true }) => ReadinessModel::Ready,
        (ProbeStage::Python, _) => ReadinessModel::Probe(ProbeStage::PyLauncher),
        (ProbeStage::PyLauncher, _) => ReadinessModel::Missing(
            "Python/debugpy not found. Install: python -m pip install debugpy (or py -3 -m pip install debugpy)"@,
        ),
    }
}

/// The first way that is tried.
pub fn first_probe(adapter: &AdapterConfig) -> (stage: ProbeStage)
    ensures
        stage == first_stage(adapter@),
{
    if adapter.has_type("debugpy") {
        ProbeStage::Python
    } else {
        ProbeStage::OwnCommand
    }
}

/// The command that is run for a way.
pub fn probe_command(adapter: &AdapterConfig, stage: ProbeStage) -> (command: ProbeCommand)
    ensures
        command.program@ == probe_program(adapter@, stage),
        texts_of(command.arguments@) == probe_arguments(adapter@, stage),
{
    let mut arguments: Vec<String> = Vec::new();
    let program: String = match stage {
        ProbeStage::Python => {
            arguments.push("-c".to_owned());
            arguments.push("import debugpy.adapter".to_owned());
            "python".to_owned()
        },
        ProbeStage::PyLauncher => {
            arguments.push("-3".to_owned());
            arguments.push("-c".to_owned());
            arguments.push("import debugpy.adapter".to_owned());
            "py".to_owned()
        },
        ProbeStage::OwnCommand => {
            if adapter.has_type("dlv-dap") {
                arguments.push("version".to_owned());
            } else {
                arguments.push("--version".to_owned());
            }
            adapter.command.clone()
        },
    };
    assert(texts_of(arguments@) =~= probe_arguments(adapter@, stage));
    ProbeCommand { program, arguments }
}

/// What follows from the outcome of one way to find out whether the adapter is there.
pub fn ensure_adapter_ready(
    adapter: &AdapterConfig,
    stage: ProbeStage,
    outcome: &ProbeOutcome,
) -> (next: Readiness)
    ensures
        next@ == readiness(adapter@, stage, *outcome),
{
    match stage {
        ProbeStage::OwnCommand => match outcome {
            ProbeOutcome::Ran { .. } => Readiness::Ready,
            ProbeOutcome::NotFound => {
                if adapter.has_type("codelldb") {
                    Readiness::Missing(
                        "Rust debug adapter 'codelldb' is missing. Install VS Code CodeLLDB extension or add codelldb to PATH.".to_owned(),
                    )
                } else if adapter.has_type("dlv-dap") {
                    Readiness::Missing(
                        "Go debug adapter 'dlv' is missing. Install: go install github.com/go-delve/delve/cmd/dlv@latest and add GOPATH/bin to PATH.".to_owned(),
                    )
                } else {
                    Readiness::Missing(
                        concat3(
                            "Debug adapter command not found: ",
                            adapter.command.as_str(),
                            ". Install it and add to PATH.",
                        ),
                    )
                }
            },
            ProbeOutcome::Failed(error) => {
                let head = concat3(
                    "Failed to execute debug adapter '",
                    adapter.command.as_str(),
                    "': ",
                );
                Readiness::Missing(concat2(head.as_str(), error.as_str()))
            },
        },
        ProbeStage::Python => match outcome {
            ProbeOutcome::Ran { success: true } => Readiness::Ready,
            _ => Readiness::Probe(ProbeStage::PyLauncher),
        },
        ProbeStage::PyLauncher => match outcome {
            ProbeOutcome::Ran { success: true } => Readiness::Ready,
            _ => Readiness::Missing(
                "Python/debugpy not found. Install: python -m pip install debugpy (or py -3 -m pip install debugpy)".to_owned(),
            ),
        },
    }
}

// ---------------------------------------------------------------------------------------------
// What the adapter is told
// ---------------------------------------------------------------------------------------------
/// A text with the place holders for the folder of temporary files and for the process filled in.
pub open spec fn filled_in(text: Seq<char>, tmp_dir: Seq<char>, pid: Seq<char>) -> Seq<char> {
    replaced(replaced(text, "${tmpDir}"@, tmp_dir), "${pid}"@, pid)
}

/// A value with the place holders in all its texts filled in. Keys stay as they are.
pub open spec fn expanded(json: Json, tmp_dir: Seq<char>, pid: Seq<char>) -> Json
    decreases json,
{
    match json {
        Json::Text(text) => Json::Text(filled_in(text, tmp_dir, pid)),
        Json::Array(items) => Json::Array(
            Seq::new(
                items.len(),
                |i: int|
                    if 0 <= i < items.len() {
                        expanded(items[i], tmp_dir, pid)
                    } else {
                        Json::Null
                    },
            ),
        ),
        Json::Object(members) => Json::Object(
            Map::new(
                |key: Seq<char>| members.contains_key(key),
                |key: Seq<char>|
                    if members.contains_key(key) {
                        expanded(members[key], tmp_dir, pid)
                    } else {
                        Json::Null
                    },
            ),
        ),
        _ => json,
    }
}

/// An object with the members of another, which take the place of its own under the same keys.
/// Where either is no object, the first as it is.
pub open spec fn merged(base: Json, overrides: Json) -> Json {
    match (base, overrides) {
        (Json::Object(own), Json::Object(others)) => Json::Object(own.union_prefer_right(others)),
        _ => base,
    }
}

/// What `debugpy` is told.
pub open spec fn python_json(program: Seq<char>, workspace: Seq<char>) -> Json {
    Json::Object(
        no_members().insert("name"@, Json::Text("Debug current file"@)).insert(
            "type"@,
            Json::Text("python"@),
        ).insert("request"@, Json::Text("launch"@)).insert("program"@, Json::Text(program)).insert(
            "cwd"@,
            Json::Text(workspace),
        ),
    )
}

/// What `codelldb` is told.
pub open spec fn lldb_json(program: Seq<char>, workspace: Seq<char>) -> Json {
    Json::Object(
        no_members().insert("name"@, Json::Text("Debug current binary"@)).insert(
            "type"@,
            Json::Text("lldb"@),
        ).insert("request"@, Json::Text("launch"@)).insert("program"@, Json::Text(program)).insert(
            "cwd"@,
            Json::Text(workspace),
        ),
    )
}

/// What `dlv-dap` is told.
pub open spec fn go_json(dir: Seq<char>) -> Json {
    Json::Object(
        no_members().insert("name"@, Json::Text("Debug current Go package"@)).insert(
            "type"@,
            Json::Text("go"@),
        ).insert("request"@, Json::Text("launch"@)).insert("mode"@, Json::Text("debug"@)).insert(
            "program"@,
            Json::Text("."@),
        ).insert("cwd"@, Json::Text(dir)).insert("stopOnEntry"@, Json::Bool(true)),
    )
}

/// What the name of a program ends in.
pub open spec fn exe_suffix(style: PathStyle) -> Seq<char> {
    match style {
        PathStyle::Unix => Seq::empty(),
        PathStyle::Windows => ".exe"@,
    }
}

/// The binary that Cargo builds from the open file in the workspace.
pub open spec fn binary_path(workspace: Seq<char>, stem: Seq<char>, style: PathStyle) -> Seq<char> {
    joined(
        joined(joined(workspace, "target"@, style), "debug"@, style),
        stem + exe_suffix(style),
        style,
    )
}

/// What an adapter is told before its own overrides, or why it cannot be told anything.
pub open spec fn base_launch(
    adapter: AdapterModel,
    around: Surroundings,
    launch_dir: Seq<char>,
) -> Result<Json, Seq<char>> {
    match around.file {
        None => Err("Open a file before starting debug."@),
        Some(open) => if adapter.is_type("debugpy"@) {
            Ok(python_json(open.path@, around.workspace_root@))
        } else if adapter.is_type("codelldb"@) {
            match open.stem {
                Some(stem) => Ok(
                    lldb_json(
                        binary_path(around.workspace_root@, stem@, around.path_style),
                        around.workspace_root@,
                    ),
                ),
                None => Err("Could not resolve binary name from file."@),
            }
        } else if adapter.is_type("dlv-dap"@) {
            Ok(go_json(launch_dir))
        } else {
            Err("Unsupported adapter type for launch: "@ + adapter.dap_adapter_type)
        },
    }
}

/// What an adapter is told to launch, or why it cannot be told anything.
pub open spec fn launch_json(
    adapter: AdapterModel,
    around: Surroundings,
    launch_dir: Seq<char>,
) -> Result<Json, Seq<char>> {
    match base_launch(adapter, around, launch_dir) {
        Ok(base) => Ok(
            merged(
                base,
                expanded(adapter.launch_overrides, around.tmp_dir@, decimal(around.pid as int)),
            ),
        ),
        Err(reason) => Err(reason),
    }
}

/// A value by what it holds, or an error by its text.
pub open spec fn launch_result(result: Result<Value, String>) -> Result<Json, Seq<char>> {
    match result {
        Ok(value) => Ok(json_of(value)),
        Err(reason) => Err(reason@),
    }
}

/// A value with the place holders in all its texts filled in.
pub fn expanded_value(value: &Value, tmp_dir: &str, pid: &str) -> (whole: Value)
    ensures
        json_of(whole) == expanded(json_of(*value), tmp_dir@, pid@),
    decreases json_of(*value), 1int,
{
    if let Some(text) = value.as_str() {
        proof {
            reveal_strlit("${tmpDir}");
            reveal_strlit("${pid}");
        }
        let once = replace_text(text, "${tmpDir}", tmp_dir);
        return text_value(replace_text(once.as_str(), "${pid}", pid));
    }
    if let Some(items) = value.as_array() {
        let mut whole: Vec<Value> = Vec::new();
        let mut i: usize = 0;
        let ghost jsons = jsons_of(items@);
        while i < items.len()
            invariant
                jsons == jsons_of(items@),
                json_of(*value) == Json::Array(jsons),
                i <= items@.len(),
                whole@.len() == i,
                forall|k: int|
                    0 <= k < i ==> json_of(#[trigger] whole@[k]) == expanded(
                        jsons[k],
                        tmp_dir@,
                        pid@,
                    ),
            decreases items.len() - i,
        {
            assert(jsons[i as int] == json_of(items@[i as int]));
            assert(decreases_to!(json_of(*value)->Array_0 => json_of(*value)->Array_0[i as int]));
            whole.push(expanded_value(&items[i], tmp_dir, pid));
            i += 1;
        }
        assert(jsons_of(whole@) =~= expanded(json_of(*value), tmp_dir@, pid@)->Array_0);
        return array_value(whole);
    }
    if let Some(members) = value.as_object() {
        return expanded_object(value, members, tmp_dir, pid);
    }
    value.clone()
}

fn expanded_object(
    value: &Value,
    members: &serde_json::Map<String, Value>,
    tmp_dir: &str,
    pid: &str,
) -> (whole: Value)
    requires
        json_of(*value) == Json::Object(members_of(*members)),
    ensures
        json_of(whole) == expanded(json_of(*value), tmp_dir@, pid@),
    decreases json_of(*value), 0int,
{
    let ghost own = members_of(*members);
    let keys = member_keys(members);
    let mut whole: serde_json::Map<String, Value> = serde_json::Map::new();
    let mut i: usize = 0;
    while i < keys.len()
        invariant
            own == members_of(*members),
            json_of(*value) == Json::Object(own),
            i <= keys@.len(),
            forall|k: int| 0 <= k < keys@.len() ==> own.contains_key((#[trigger] keys@[k])@),
            forall|key: Seq<char>|
                members_of(whole).contains_key(key) ==> own.contains_key(key) && members_of(
                    whole,
                )[key] == expanded(own[key], tmp_dir@, pid@),
            forall|k: int| 0 <= k < i ==> members_of(whole).contains_key((#[trigger] keys@[k])@),
        decreases keys.len() - i,
    {
        let key = &keys[i];
        if let Some(found) = member(value, key.as_str()) {
            assert(json_of(*found) == own[key@]);
            let _ = whole.insert(key.clone(), expanded_value(found, tmp_dir, pid));
        }
        i += 1;
    }
    assert forall|key: Seq<char>| own.contains_key(key) implies members_of(whole).contains_key(
        key,
    ) by {
        let k = choose|k: int| 0 <= k < keys@.len() && #[trigger] keys@[k]@ == key;
        assert(keys@[k]@ == key);
    }
    assert(members_of(whole) =~= expanded(json_of(*value), tmp_dir@, pid@)->Object_0);
    object_value(whole)
}

/// Fills in the place holders in all the texts of a value.
pub fn expand_launch_templates(value: &mut Value, tmp_dir: &str, pid: u32)
    ensures
        json_of(*final(value)) == expanded(json_of(*old(value)), tmp_dir@, decimal(pid as int)),
{
    let number = natural_text(pid as u64);
    *value = expanded_value(value, tmp_dir, number.as_str());
}

/// Puts the members of an object into another, in place of those under the same keys.
pub fn merge_launch_overrides(base: &mut Value, overrides: &Value)
    ensures
        json_of(*final(base)) == merged(json_of(*old(base)), json_of(*overrides)),
{
    let members = match overrides.as_object() {
        Some(members) => members,
        None => {
            return;
        },
    };
    if base.as_object().is_none() {
        return;
    }
    let ghost own = json_of(*base)->Object_0;
    let ghost others = members_of(*members);
    let keys = member_keys(members);
    let mut i: usize = 0;
    while i < keys.len()
        invariant
            json_of(*overrides) == Json::Object(others),
            i <= keys@.len(),
            forall|k: int| 0 <= k < keys@.len() ==> others.contains_key((#[trigger] keys@[k])@),
            json_of(*base) is Object,
            forall|key: Seq<char>|
                json_of(*base)->Object_0.contains_key(key) ==> own.contains_key(key)
                    || others.contains_key(key),
            forall|key: Seq<char>|
                own.contains_key(key) ==> json_of(*base)->Object_0.contains_key(key),
            forall|key: Seq<char>|
                own.contains_key(key) && !others.contains_key(key) ==> json_of(
                    *base,
                )->Object_0[key] == own[key],
            forall|k: int|
                0 <= k < i ==> json_of(*base)->Object_0.contains_key((#[trigger] keys@[k])@)
                    && json_of(*base)->Object_0[keys@[k]@] == others[keys@[k]@],
        decreases keys.len() - i,
    {
        if let Some(found) = member(overrides, keys[i].as_str()) {
            let copy = found.clone();
            if let Some(target) = base.as_object_mut() {
                let _ = target.insert(keys[i].clone(), copy);
            }
        }
        i += 1;
    }
    assert forall|key: Seq<char>| others.contains_key(key) implies json_of(
        *base,
    )->Object_0.contains_key(key) && json_of(*base)->Object_0[key] == others[key] by {
        let k = choose|k: int| 0 <= k < keys@.len() && #[trigger] keys@[k]@ == key;
        assert(keys@[k]@ == key);
    }
    assert(json_of(*base)->Object_0 =~= own.union_prefer_right(others));
}

/// What an adapter is told to launch, or why it cannot be told anything.
pub fn build_launch_arguments(
    adapter: &AdapterConfig,
    around: &Surroundings,
    launch_dir: &str,
) -> (arguments: Result<Value, String>)
    ensures
        launch_result(arguments) == launch_json(adapter@, *around, launch_dir@),
{
    let open = match &around.file {
        Some(open) => open,
        None => {
            return Err("Open a file before starting debug.".to_owned());
        },
    };
    let mut members: serde_json::Map<String, Value> = serde_json::Map::new();
    if adapter.has_type("debugpy") {
        put_text(&mut members, "name", "Debug current file");
        put_text(&mut members, "type", "python");
        put_text(&mut members, "request", "launch");
        put_text(&mut members, "program", open.path.as_str());
        put_text(&mut members, "cwd", around.workspace_root.as_str());
    } else if adapter.has_type("codelldb") {
        let stem = match &open.stem {
            Some(stem) => stem,
            None => {
                return Err("Could not resolve binary name from file.".to_owned());
            },
        };
        let style: PathStyle = around.path_style;
        let target = join_path(around.workspace_root.as_str(), "target", style);
        let debug = join_path(target.as_str(), "debug", style);
        let name: String = match style {
            PathStyle::Unix => stem.clone(),
            PathStyle::Windows => concat2(stem.as_str(), ".exe"),
        };
        assert(name@ =~= stem@ + exe_suffix(style));
        let program = join_path(debug.as_str(), name.as_str(), style);
        put_text(&mut members, "name", "Debug current binary");
        put_text(&mut members, "type", "lldb");
        put_text(&mut members, "request", "launch");
        put_text(&mut members, "program", program.as_str());
        put_text(&mut members, "cwd", around.workspace_root.as_str());
    } else if adapter.has_type("dlv-dap") {
        put_text(&mut members, "name", "Debug current Go package");
        put_text(&mut members, "type", "go");
        put_text(&mut members, "request", "launch");
        put_text(&mut members, "mode", "debug");
        put_text(&mut members, "program", ".");
        put_text(&mut members, "cwd", launch_dir);
        put_bool(&mut members, "stopOnEntry", true);
    } else {
        return Err(
            concat2("Unsupported adapter type for launch: ", adapter.dap_adapter_type.as_str()),
        );
    }
    let mut arguments = object_value(members);
    let mut overrides = adapter.launch_overrides.clone();
    expand_launch_templates(&mut overrides, around.tmp_dir.as_str(), around.pid);
    merge_launch_overrides(&mut arguments, &overrides);
    Ok(arguments)
}

// ---------------------------------------------------------------------------------------------
// Laws
// ---------------------------------------------------------------------------------------------
/// An adapter's own overrides win: under each of their keys stands their value, and under every
/// other key what stood there before.
pub proof fn law_overrides_win(base: Json, overrides: Json, key: Seq<char>)
    requires
        base is Object,
        overrides is Object,
    ensures
        member_of(merged(base, overrides), key) == (if member_of(overrides, key) is Some {
            member_of(overrides, key)
        } else {
            member_of(base, key)
        }),
{
}

/// Filling in place holders keeps the shape of a value: the same members under the same keys, as
/// many items in the same order, and every value that is no text, array or object as it is.
pub proof fn law_expanding_keeps_shape(
    json: Json,
    tmp_dir: Seq<char>,
    pid: Seq<char>,
    key: Seq<char>,
    i: int,
)
    ensures
        member_of(expanded(json, tmp_dir, pid), key) == (match member_of(json, key) {
            Some(found) => Some(expanded(found, tmp_dir, pid)),
            None => None,
        }),
        items_of(Some(expanded(json, tmp_dir, pid))).len() == items_of(Some(json)).len(),
        0 <= i < items_of(Some(json)).len() ==> items_of(Some(expanded(json, tmp_dir, pid)))[i]
            == expanded(items_of(Some(json))[i], tmp_dir, pid),
        !(json is Text || json is Array || json is Object) ==> expanded(json, tmp_dir, pid) == json,
{
}

proof fn lemma_nothing_replaced(s: Seq<char>, from: Seq<char>, to: Seq<char>)
    requires
        from.len() > 0,
        !occurs_in(s, from),
    ensures
        replaced(s, from, to) == s,
    decreases s.len(),
{
    if s.len() >= from.len() {
        assert(!occurs_at(s, from, 0));
        let rest = s.skip(1);
        assert forall|i: int| !occurs_at(rest, from, i) by {
            if occurs_at(rest, from, i) {
                assert(s.subrange(i + 1, i + 1 + from.len()) =~= rest.subrange(
                    i,
                    i + from.len(),
                ));
                assert(occurs_at(s, from, i + 1));
            }
        }
        lemma_nothing_replaced(rest, from, to);
        assert(seq![s[0]] + rest =~= s);
    }
}

/// A text without place holders stays as it is.
pub proof fn law_plain_text_stays(text: Seq<char>, tmp_dir: Seq<char>, pid: Seq<char>)
    requires
        !occurs_in(text, "${tmpDir}"@),
        !occurs_in(text, "${pid}"@),
    ensures
        filled_in(text, tmp_dir, pid) == text,
{
    reveal_strlit("${tmpDir}");
    reveal_strlit("${pid}");
    lemma_nothing_replaced(text, "${tmpDir}"@, tmp_dir);
    lemma_nothing_replaced(text, "${pid}"@, pid);
}

/// Looking for an adapter ends: after at most two tries it is there or it is missing.
pub proof fn law_two_tries_decide(
    adapter: AdapterModel,
    first: ProbeOutcome,
    second: ProbeOutcome,
)
    ensures
        readiness(adapter, first_stage(adapter), first) matches ReadinessModel::Probe(stage)
            ==> !(readiness(adapter, stage, second) is Probe),
{
}

} // verus!
