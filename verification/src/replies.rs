//! What follows from the outcomes of actions.
use crate::action::{
    Action, ActionModel, Load, LoadModel, LoadReason, NewEntry, NewEntryModel, Part, Reply,
    SessionOutcome, Step,
};
use crate::dap::text_option;
use crate::debug_state::DebugModel;
use crate::editor::{Editor, EditorModel};
use crate::json::{Json, json_of};
use crate::launch::{
    AdapterConfig, AdapterModel, Readiness, ReadinessModel, build_launch_arguments,
    ensure_adapter_ready, launch_json, readiness,
};
use crate::paths::{
    TargetPaths, file_path_of, go_launch_dir, launch_folders, list_launch_folders,
    resolve_go_launch_dir, resolve_workspace_target, workspace_target,
};
use crate::request::{initialize_arguments, initialize_json};
use crate::surroundings::Surroundings;
use crate::text::{concat2, concat3, count_text, decimal, replaced};
use serde_json::Value;
use vstd::prelude::*;

verus! {

// ---------------------------------------------------------------------------------------------
// Files
// ---------------------------------------------------------------------------------------------
impl EditorModel {
    pub open spec fn tree_complained(self, error: Seq<char>) -> EditorModel {
        self.say("File tree error: "@ + error)
    }

    pub open spec fn tree_moved(self, moved: Result<bool, String>) -> EditorModel {
        match moved {
            Ok(true) => self.redraw(Part::Sidebar),
            Ok(false) => self,
            Err(error) => self.tree_complained(error@),
        }
    }

    /// A folder has been opened or closed, or a file has been chosen, which is then to be loaded.
    pub open spec fn tree_entered(self, entered: Result<(), String>) -> EditorModel {
        let told = match entered {
            Ok(_) => self,
            Err(error) => self.tree_complained(error@),
        };
        told.redraw(Part::Sidebar).step(Step::TakePendingOpen)
    }

    /// A file from the file tree has been loaded. The keyboard goes to the text view.
    pub open spec fn opened(self, around: Surroundings, loaded: Result<(), String>) -> EditorModel {
        let told = match loaded {
            Ok(_) => EditorModel { sidebar_focus: false, ..self }.status_refreshed(around).say(""@),
            Err(error) => self.say("ERROR: Could not open file: "@ + error@),
        };
        told.redraw(Part::View).redraw(Part::Sidebar)
    }

    /// A file has been loaded, or could not be.
    pub open spec fn loaded(
        self,
        around: Surroundings,
        load: LoadModel,
        loaded: Result<(), String>,
    ) -> EditorModel {
        match load.reason {
            LoadReason::Startup => match loaded {
                Ok(_) => self.status_refreshed(around),
                Err(_) => self.say("ERROR: Could not open file: "@ + load.path).status_refreshed(
                    around,
                ),
            },
            LoadReason::Sidebar => self.opened(around, loaded),
            LoadReason::Created => match loaded {
                Ok(_) => self.redraw(Part::StatusBar),
                Err(error) => self.say("Open error: "@ + error@),
            },
        }
    }

    pub open spec fn saved(self, saved: bool) -> EditorModel {
        if saved {
            self.say("File saved successfully."@)
        } else {
            self.say("Error writing file!"@)
        }
    }

    pub open spec fn replaced(self, count: usize) -> EditorModel {
        if count == 0 {
            self.say("No matches found."@)
        } else {
            self.say("Replaced "@ + decimal(count as int) + " occurrence(s)."@)
        }
    }

    /// It is known where a new entry may go.
    pub open spec fn target_inspected(
        self,
        around: Surroundings,
        entry: NewEntryModel,
        paths: TargetPaths,
    ) -> EditorModel {
        match workspace_target(entry.name, paths, around.path_style) {
            Ok(target) => self.emit(ActionModel::Create { entry, target }),
            Err(reason) => self.say(reason),
        }
    }

    /// The file tree shows a new entry; a new file is loaded.
    pub open spec fn created(
        self,
        entry: NewEntryModel,
        created: Result<String, String>,
    ) -> EditorModel {
        match created {
            Ok(path) => {
                let shown = self.say("Created: "@ + entry.name).step(Step::RebuildTree).redraw(
                    Part::Sidebar,
                );
                if entry.is_dir {
                    shown
                } else {
                    shown.emit(
                        ActionModel::LoadFile(
                            LoadModel { path: path@, reason: LoadReason::Created },
                        ),
                    )
                }
            },
            Err(error) => self.say("Error: "@ + error@),
        }
    }
}

impl Editor {
    fn complain_of_tree(&mut self, error: &str)
        ensures
            final(self)@ == old(self)@.tree_complained(error@),
    {
        let text = concat2("File tree error: ", error);
        self.update_message(text.as_str());
    }

    fn move_in_tree(&mut self, moved: &Result<bool, String>)
        ensures
            final(self)@ == old(self)@.tree_moved(*moved),
    {
        match moved {
            Ok(true) => self.redraw(Part::Sidebar),
            Ok(false) => {},
            Err(error) => self.complain_of_tree(error.as_str()),
        }
    }

    fn enter_in_tree(&mut self, entered: &Result<(), String>)
        ensures
            final(self)@ == old(self)@.tree_entered(*entered),
    {
        if let Err(error) = entered {
            self.complain_of_tree(error.as_str());
        }
        self.redraw(Part::Sidebar);
        self.step(Step::TakePendingOpen);
    }

    fn open_from_sidebar_selection(&mut self, around: &Surroundings, loaded: &Result<(), String>)
        requires
            old(self)@.wf(),
        ensures
            final(self)@ == old(self)@.opened(*around, *loaded),
    {
        match loaded {
            Ok(_) => {
                self.sidebar_focus = false;
                self.refresh_status(around);
                self.update_message("");
            },
            Err(error) => {
                let text = concat2("ERROR: Could not open file: ", error.as_str());
                self.update_message(text.as_str());
            },
        }
        self.redraw(Part::View);
        self.redraw(Part::Sidebar);
    }

    fn finish_loading(&mut self, around: &Surroundings, load: &Load, loaded: &Result<(), String>)
        requires
            old(self)@.wf(),
        ensures
            final(self)@ == old(self)@.loaded(*around, load@, *loaded),
    {
        match load.reason {
            LoadReason::Startup => {
                if loaded.is_err() {
                    let text = concat2("ERROR: Could not open file: ", load.path.as_str());
                    proof {
                        self@.emit_keeps_wf(ActionModel::Message(text@));
                    }
                    self.update_message(text.as_str());
                }
                self.refresh_status(around);
            },
            LoadReason::Sidebar => self.open_from_sidebar_selection(around, loaded),
            LoadReason::Created => match loaded {
                Ok(_) => self.redraw(Part::StatusBar),
                Err(error) => {
                    let text = concat2("Open error: ", error.as_str());
                    self.update_message(text.as_str());
                },
            },
        }
    }

    fn report_save(&mut self, saved: bool)
        ensures
            final(self)@ == old(self)@.saved(saved),
    {
        if saved {
            self.update_message("File saved successfully.");
        } else {
            self.update_message("Error writing file!");
        }
    }

    fn report_replacements(&mut self, count: usize)
        ensures
            final(self)@ == old(self)@.replaced(count),
    {
        if count == 0 {
            self.update_message("No matches found.");
        } else {
            let number = count_text(count);
            let text = concat3("Replaced ", number.as_str(), " occurrence(s).");
            self.update_message(text.as_str());
        }
    }

    fn create_target(&mut self, around: &Surroundings, entry: NewEntry, paths: &TargetPaths)
        ensures
            final(self)@ == old(self)@.target_inspected(*around, entry@, *paths),
    {
        match resolve_workspace_target(entry.name.as_str(), paths, around.path_style) {
            Ok(target) => self.emit(Action::Create { entry, target }),
            Err(reason) => self.update_message(reason.as_str()),
        }
    }

    fn finish_creation(&mut self, entry: &NewEntry, created: Result<String, String>)
        ensures
            final(self)@ == old(self)@.created(entry@, created),
    {
        match created {
            Ok(path) => {
                let text = concat2("Created: ", entry.name.as_str());
                self.update_message(text.as_str());
                self.step(Step::RebuildTree);
                self.redraw(Part::Sidebar);
                if !entry.is_dir {
                    self.emit(Action::LoadFile(Load { path, reason: LoadReason::Created }));
                }
            },
            Err(error) => {
                let text = concat2("Error: ", error.as_str());
                self.update_message(text.as_str());
            },
        }
    }
}

// ---------------------------------------------------------------------------------------------
// The debug session
// ---------------------------------------------------------------------------------------------
impl EditorModel {
    pub open spec fn session_asked(
        self,
        adapter: AdapterModel,
        cwd: Option<Seq<char>>,
    ) -> EditorModel {
        self.emit(
            ActionModel::OpenSession {
                adapter,
                cwd,
                arguments: initialize_json(adapter.dap_adapter_type),
            },
        )
    }

    /// An adapter is there, is looked for in another way, or is missing. The session is opened, for
    /// Delve as soon as it is known in which folder.
    pub open spec fn probed(
        self,
        around: Surroundings,
        adapter: AdapterModel,
        next: ReadinessModel,
    ) -> EditorModel {
        match next {
            ReadinessModel::Ready => if adapter.is_type("dlv-dap"@) {
                self.emit(
                    ActionModel::FindModules {
                        adapter,
                        folders: launch_folders(
                            file_path_of(around.file),
                            around.workspace_root@,
                            around.path_style,
                        ),
                    },
                )
            } else {
                self.session_asked(adapter, None)
            },
            ReadinessModel::Probe(stage) => self.emit(ActionModel::Probe { adapter, stage }),
            ReadinessModel::Missing(reason) => self.say(reason),
        }
    }

    /// The folder that a session was opened in, else the workspace.
    pub open spec fn launch_dir(around: Surroundings, cwd: Option<Seq<char>>) -> Seq<char> {
        match cwd {
            Some(dir) => dir,
            None => around.workspace_root@,
        }
    }

    /// There is a session. What it is to launch waits until it is ready.
    pub open spec fn session_begun(self, adapter: AdapterModel, arguments: Json) -> EditorModel {
        EditorModel {
            debug_session: true,
            active_debug_adapter: Some(adapter),
            debug_state: DebugModel { active: true, ..self.debug_state },
            debug_paused: false,
            pending_launch_arguments: Some(arguments),
            ..self
        }.step(Step::AdoptSession).step(Step::ShowDebugState).say(
            "Debug initializing: "@ + adapter.display_name,
        )
    }

    /// A session has been opened, or could not be. One that cannot be told what to launch is let
    /// go of.
    pub open spec fn session_opened(
        self,
        around: Surroundings,
        adapter: AdapterModel,
        cwd: Option<Seq<char>>,
        opened: SessionOutcome,
    ) -> EditorModel {
        match opened {
            SessionOutcome::StartFailed(error) => self.say("Debug start error: "@ + error@),
            SessionOutcome::InitializeFailed(error) => self.say("Debug init error: "@ + error@),
            SessionOutcome::Opened => match launch_json(
                adapter,
                around,
                EditorModel::launch_dir(around, cwd),
            ) {
                Ok(arguments) => self.session_begun(adapter, arguments),
                Err(reason) => self.step(Step::DropSession).say(reason),
            },
        }
    }
}

impl Editor {
    fn ask_for_session(&mut self, adapter: AdapterConfig, cwd: Option<String>)
        ensures
            final(self)@ == old(self)@.session_asked(adapter@, text_option(cwd)),
    {
        let arguments = initialize_arguments(adapter.dap_adapter_type.as_str());
        self.emit(Action::OpenSession { adapter, cwd, arguments });
    }

    fn follow_probe(&mut self, around: &Surroundings, adapter: AdapterConfig, next: Readiness)
        ensures
            final(self)@ == old(self)@.probed(*around, adapter@, next@),
    {
        match next {
            Readiness::Ready => {
                if adapter.has_type("dlv-dap") {
                    let folders = list_launch_folders(
                        &around.file,
                        around.workspace_root.as_str(),
                        around.path_style,
                    );
                    self.emit(Action::FindModules { adapter, folders });
                } else {
                    self.ask_for_session(adapter, None);
                }
            },
            Readiness::Probe(stage) => self.emit(Action::Probe { adapter, stage }),
            Readiness::Missing(reason) => self.update_message(reason.as_str()),
        }
    }

    fn begin_session(&mut self, adapter: AdapterConfig, arguments: Value)
        ensures
            final(self)@ == old(self)@.session_begun(adapter@, json_of(arguments)),
    {
        let text = concat2("Debug initializing: ", adapter.display_name.as_str());
        self.debug_session = true;
        self.active_debug_adapter = Some(adapter);
        self.debug_state.activate();
        self.debug_paused = false;
        self.pending_launch_arguments = Some(arguments);
        self.step(Step::AdoptSession);
        self.step(Step::ShowDebugState);
        self.update_message(text.as_str());
    }

    fn finish_opening(
        &mut self,
        around: &Surroundings,
        adapter: AdapterConfig,
        cwd: &Option<String>,
        opened: &SessionOutcome,
    )
        ensures
            final(self)@ == old(self)@.session_opened(
                *around,
                adapter@,
                text_option(*cwd),
                *opened,
            ),
    {
        match opened {
            SessionOutcome::StartFailed(error) => {
                let text = concat2("Debug start error: ", error.as_str());
                self.update_message(text.as_str());
            },
            SessionOutcome::InitializeFailed(error) => {
                let text = concat2("Debug init error: ", error.as_str());
                self.update_message(text.as_str());
            },
            SessionOutcome::Opened => {
                let dir: &String = match cwd {
                    Some(dir) => dir,
                    None => &around.workspace_root,
                };
                match build_launch_arguments(&adapter, around, dir.as_str()) {
                    Ok(arguments) => self.begin_session(adapter, arguments),
                    Err(reason) => {
                        self.step(Step::DropSession);
                        self.update_message(reason.as_str());
                    },
                }
            },
        }
    }
}

// ---------------------------------------------------------------------------------------------
// All of them
// ---------------------------------------------------------------------------------------------
impl EditorModel {
    /// The outcome of an action is known.
    pub open spec fn replied(self, around: Surroundings, reply: Reply) -> EditorModel {
        match reply {
            Reply::TreeMoved(moved) => self.tree_moved(moved),
            Reply::TreeEntered(entered) => self.tree_entered(entered),
            Reply::PendingOpen(path) => match path {
                Some(path) => self.emit(
                    ActionModel::LoadFile(LoadModel { path: path@, reason: LoadReason::Sidebar }),
                ),
                None => self,
            },
            Reply::Loaded { load, loaded } => self.loaded(around, load@, loaded),
            Reply::Saved(saved) => self.saved(saved),
            Reply::Replaced(count) => self.replaced(count),
            Reply::TitleSet(title) => EditorModel { title: title@, ..self },
            Reply::Probed { adapter, stage, probed } => self.probed(
                around,
                adapter@,
                readiness(adapter@, stage, probed),
            ),
            Reply::ModulesFound { adapter, found } => self.session_asked(
                adapter@,
                Some(
                    go_launch_dir(
                        launch_folders(
                            file_path_of(around.file),
                            around.workspace_root@,
                            around.path_style,
                        ),
                        found@,
                        around.workspace_root@,
                    ),
                ),
            ),
            Reply::SessionOpened { adapter, cwd, opened } => self.session_opened(
                around,
                adapter@,
                text_option(cwd),
                opened,
            ),
            Reply::TargetInspected { entry, paths } => self.target_inspected(
                around,
                entry@,
                paths,
            ),
            Reply::Created { entry, created } => self.created(entry@, created),
        }
    }

    proof fn loaded_keeps_wf(
        self,
        around: Surroundings,
        load: LoadModel,
        loaded: Result<(), String>,
    )
        requires
            self.wf(),
        ensures
            self.loaded(around, load, loaded).wf(),
            self.loaded(around, load, loaded).should_quit == self.should_quit,
            self.loaded(around, load, loaded).breakpoints == self.breakpoints,
            self.asks_soundly(self.loaded(around, load, loaded)),
    {
        broadcast use EditorModel::emit_keeps_wf, EditorModel::emit_is_steady;

        self.status_refreshed_keeps_wf(around);
        self.say("ERROR: Could not open file: "@ + load.path).status_refreshed_keeps_wf(around);
        EditorModel { sidebar_focus: false, ..self }.status_refreshed_keeps_wf(around);
    }

    proof fn session_opened_keeps_wf(
        self,
        around: Surroundings,
        adapter: AdapterModel,
        cwd: Option<Seq<char>>,
        opened: SessionOutcome,
    )
        requires
            self.wf(),
        ensures
            self.session_opened(around, adapter, cwd, opened).wf(),
            self.session_opened(around, adapter, cwd, opened).should_quit == self.should_quit,
            self.session_opened(around, adapter, cwd, opened).breakpoints == self.breakpoints,
            self.asks_soundly(self.session_opened(around, adapter, cwd, opened)),
    {
        reveal(EditorModel::emit);
    }

    /// The state stays valid whatever the outcome. No outcome makes the editor quit or changes the
    /// breakpoints, and what is asked for is sound.
    pub proof fn replied_keeps_wf(self, around: Surroundings, reply: Reply)
        requires
            self.wf(),
        ensures
            self.replied(around, reply).wf(),
            self.replied(around, reply).should_quit == self.should_quit,
            self.replied(around, reply).breakpoints == self.breakpoints,
            self.asks_soundly(self.replied(around, reply)),
    {
        broadcast use EditorModel::emit_keeps_wf, EditorModel::emit_is_steady;

        match reply {
            Reply::Loaded { load, loaded } => self.loaded_keeps_wf(around, load@, loaded),
            Reply::SessionOpened { adapter, cwd, opened } => self.session_opened_keeps_wf(
                around,
                adapter@,
                text_option(cwd),
                opened,
            ),
            _ => {},
        }
    }
}

impl Editor {
    /// Takes in the outcome of an action.
    pub fn handle_reply(&mut self, around: &Surroundings, reply: Reply)
        requires
            old(self)@.wf(),
        ensures
            final(self)@ == old(self)@.replied(*around, reply),
            final(self)@.wf(),
    {
        proof {
            self@.replied_keeps_wf(*around, reply);
        }
        match reply {
            Reply::TreeMoved(moved) => self.move_in_tree(&moved),
            Reply::TreeEntered(entered) => self.enter_in_tree(&entered),
            Reply::PendingOpen(chosen) => {
                if let Some(path) = chosen {
                    self.emit(Action::LoadFile(Load { path, reason: LoadReason::Sidebar }));
                }
            },
            Reply::Loaded { load, loaded } => self.finish_loading(around, &load, &loaded),
            Reply::Saved(saved) => self.report_save(saved),
            Reply::Replaced(count) => self.report_replacements(count),
            Reply::TitleSet(title) => {
                self.title = title;
            },
            Reply::Probed { adapter, stage, probed } => {
                let next = ensure_adapter_ready(&adapter, stage, &probed);
                self.follow_probe(around, adapter, next);
            },
            Reply::ModulesFound { adapter, found } => {
                let dir = resolve_go_launch_dir(
                    &around.file,
                    around.workspace_root.as_str(),
                    around.path_style,
                    &found,
                );
                self.ask_for_session(adapter, Some(dir));
            },
            Reply::SessionOpened { adapter, cwd, opened } => self.finish_opening(
                around,
                adapter,
                &cwd,
                &opened,
            ),
            Reply::TargetInspected { entry, paths } => self.create_target(around, entry, &paths),
            Reply::Created { entry, created } => self.finish_creation(&entry, created),
        }
    }
}

} // verus!
