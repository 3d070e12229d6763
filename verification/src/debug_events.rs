//! Hearing from the debug session: its events, and the replies to requests.
use crate::action::{Part, Step};
use crate::dap::{
    DapBody, DapEvent, DapMessage, breakpoint_message, breakpoint_notice, dap_error_detail,
    dap_int_at, dap_int_member, error_detail, first_reason, frames_of, or_zero, read_breakpoints,
    read_frames, read_scope_reference, read_threads, read_variables, scope_reference, threads_of,
    variables_of, verified_count,
};
use crate::debug_state::{DebugModel, FrameModel, ThreadModel, law_thread_place, preferred_thread};
use crate::editor::{Editor, EditorModel};
use crate::json::{Json, items_of, json_of, member_of, member_text, text_or_empty};
use crate::launch::AdapterModel;
use crate::request::{RequestKind, no_arguments, no_arguments_json};
use crate::surroundings::Surroundings;
use crate::text::{concat2, concat3, contains_text, decimal, int_text, occurs_in, same_text};
use vstd::prelude::*;

verus! {

/// How the events that were heard let the debug session end.
pub enum Ending {
    GoesOn,
    Ends,
    EndsWith(String),
}

pub enum EndingModel {
    GoesOn,
    Ends,
    EndsWith(Seq<char>),
}

impl View for Ending {
    type V = EndingModel;

    open spec fn view(&self) -> EndingModel {
        match self {
            Ending::GoesOn => EndingModel::GoesOn,
            Ending::Ends => EndingModel::Ends,
            Ending::EndsWith(message) => EndingModel::EndsWith(message@),
        }
    }
}

impl EndingModel {
    /// The ending after a further event. A message once given stays until there is another.
    pub open spec fn and(self, next: EndingModel) -> EndingModel {
        match next {
            EndingModel::GoesOn => self,
            EndingModel::Ends => if self is EndsWith {
                self
            } else {
                next
            },
            EndingModel::EndsWith(_) => next,
        }
    }
}

impl Ending {
    fn and(self, next: Ending) -> (ending: Ending)
        ensures
            ending@ == self@.and(next@),
    {
        match (self, next) {
            (ending, Ending::GoesOn) => ending,
            (Ending::EndsWith(message), Ending::Ends) => Ending::EndsWith(message),
            (_, Ending::Ends) => Ending::Ends,
            (_, Ending::EndsWith(message)) => Ending::EndsWith(message),
        }
    }
}

// ---------------------------------------------------------------------------------------------
// What is said
// ---------------------------------------------------------------------------------------------
/// What is said when the program being debugged was launched.
pub open spec fn started_notice(adapter: Option<AdapterModel>) -> Seq<char> {
    match adapter {
        Some(config) => "Debug started: "@ + config.display_name,
        None => "Debug started."@,
    }
}

/// What is said when a request was refused.
pub open spec fn refusal_notice(command: Seq<char>, detail: Seq<char>) -> Seq<char> {
    "DAP "@ + command + " failed: "@ + detail
}

pub open spec fn retry_notice(thread_id: i64) -> Seq<char> {
    "Retrying stackTrace with goroutine "@ + decimal(thread_id as int) + "..."@
}

pub open spec fn exit_notice(code: i64) -> Seq<char> {
    "Debuggee exited (code "@ + decimal(code as int) + ")."@
}

fn refusal_text(command: &str, detail: &str) -> (text: String)
    ensures
        text@ == refusal_notice(command@, detail@),
{
    let head = concat3("DAP ", command, " failed: ");
    concat2(head.as_str(), detail)
}

fn retry_text(thread_id: i64) -> (text: String)
    ensures
        text@ == retry_notice(thread_id),
{
    let number = int_text(thread_id);
    concat3("Retrying stackTrace with goroutine ", number.as_str(), "...")
}

fn exit_text(code: i64) -> (text: String)
    ensures
        text@ == exit_notice(code),
{
    let number = int_text(code);
    concat3("Debuggee exited (code ", number.as_str(), ").")
}

// ---------------------------------------------------------------------------------------------
// Requests that wait for the session
// ---------------------------------------------------------------------------------------------
impl EditorModel {
    /// Whether the debug adapter is Delve.
    pub open spec fn uses_delve(self) -> bool {
        self.active_debug_adapter matches Some(adapter) && adapter.is_type("dlv-dap"@)
    }

    /// The breakpoints are sent and the configuration is completed, where that has not happened.
    pub open spec fn configuration_sent(self) -> EditorModel {
        if self.pending_configuration_done {
            EditorModel { pending_configuration_done: false, ..self }.breakpoints_synced().requested(
                RequestKind::ConfigurationDone,
                no_arguments_json(),
            )
        } else {
            self
        }
    }

    /// The program is launched, where that has not happened. The configuration is then to be
    /// completed.
    pub open spec fn launch_sent(self) -> EditorModel {
        match self.pending_launch_arguments {
            Some(arguments) => EditorModel {
                pending_launch_arguments: None,
                pending_configuration_done: true,
                ..self
            }.requested(RequestKind::Launch, arguments),
            None => self,
        }
    }

    /// The thread that Delve is asked about where it did not know the current one. It is asked but
    /// once for each stop.
    pub open spec fn retry_thread(self) -> Option<i64> {
        if self.uses_delve() && !self.stacktrace_retry_attempted {
            preferred_thread(self.debug_state.threads, self.thread())
        } else {
            None
        }
    }

    pub open spec fn stack_retried(self, thread_id: i64) -> EditorModel {
        EditorModel {
            stacktrace_retry_attempted: true,
            debug_state: DebugModel { current_thread_id: Some(thread_id), ..self.debug_state },
            ..self
        }.stack_requested().say(retry_notice(thread_id))
    }
}

impl Editor {
    fn uses_delve(&self) -> (is: bool)
        ensures
            is == self@.uses_delve(),
    {
        match &self.active_debug_adapter {
            Some(adapter) => adapter.has_type("dlv-dap"),
            None => false,
        }
    }

    /// Sends the breakpoints and completes the configuration, where that has not happened.
    pub fn send_configuration_done_if_pending(&mut self)
        ensures
            final(self)@ == old(self)@.configuration_sent(),
            !final(self)@.pending_configuration_done,
            old(self)@.wf() ==> final(self)@.wf(),
    {
        proof {
            self@.configuration_sent_completes_it();
        }
        if !self.pending_configuration_done {
            return;
        }
        self.pending_configuration_done = false;
        self.sync_all_breakpoints();
        self.with_debug_session(RequestKind::ConfigurationDone, no_arguments());
    }

    fn send_launch_if_pending(&mut self)
        ensures
            final(self)@ == old(self)@.launch_sent(),
    {
        let arguments = match self.pending_launch_arguments.take() {
            Some(arguments) => arguments,
            None => {
                return;
            },
        };
        self.pending_configuration_done = true;
        self.with_debug_session(RequestKind::Launch, arguments);
    }

    fn find_retry_thread(&self) -> (id: Option<i64>)
        ensures
            id == self@.retry_thread(),
    {
        if self.uses_delve() && !self.stacktrace_retry_attempted {
            self.debug_state.find_preferred_thread(self.debug_state.thread())
        } else {
            None
        }
    }

    /// Asks Delve for the frames of another thread, where it uses Delve, has not done so since the
    /// last stop and knows of another thread.
    pub fn try_retry_stacktrace_for_dlv(&mut self) -> (retried: bool)
        ensures
            retried == old(self)@.retry_thread() is Some,
            final(self)@ == match old(self)@.retry_thread() {
                Some(id) => old(self)@.stack_retried(id),
                None => old(self)@,
            },
            final(self)@.retry_thread() is None,
            old(self)@.wf() ==> final(self)@.wf(),
    {
        proof {
            self@.stack_retried_but_once();
        }
        match self.find_retry_thread() {
            Some(id) => {
                self.stacktrace_retry_attempted = true;
                self.debug_state.set_current_thread_id(Some(id));
                self.request_stack_trace();
                let text = retry_text(id);
                self.update_message(text.as_str());
                true
            },
            None => false,
        }
    }
}

// ---------------------------------------------------------------------------------------------
// Replies
// ---------------------------------------------------------------------------------------------
impl EditorModel {
    /// The threads are known. After a stop, the frames of the current one are asked for.
    pub open spec fn threads_heard(self, threads: Seq<ThreadModel>) -> EditorModel {
        let listed = self.debug_state.threads_listed(threads);
        if self.debug_stack_after_threads {
            EditorModel {
                debug_stack_after_threads: false,
                debug_state: listed.thread_resolved(),
                ..self
            }.stack_requested()
        } else {
            self.with_debug(listed)
        }
    }

    /// The frames are known. The line of the first one is marked, and its scopes are asked for.
    pub open spec fn frames_heard(self, around: Surroundings, frames: Seq<FrameModel>) -> EditorModel {
        let listed = self.with_debug(self.debug_state.frames_listed(frames));
        if frames.len() > 0 {
            listed.stop_marked(around, frames[0]).scopes_requested(frames[0].id)
        } else {
            listed.step(Step::SetStopLine(None))
        }
    }

    /// The variables of a scope are asked for, where there are any.
    pub open spec fn scope_heard(self, reference: i64) -> EditorModel {
        if reference != 0 {
            EditorModel {
                current_variables_reference: Some(reference),
                variables_reference_stack: Seq::empty(),
                debug_state: self.debug_state.scope_entered(),
                ..self
            }.variables_requested(reference)
        } else {
            self
        }
    }

    /// It is known how many breakpoints the debug adapter took.
    pub open spec fn breakpoints_heard(self, breakpoints: Seq<Json>) -> EditorModel {
        let counted = EditorModel {
            verified_breakpoint_count: verified_count(breakpoints) as usize,
            ..self
        };
        match breakpoint_notice(
            verified_count(breakpoints) as int,
            breakpoints.len() as int,
            first_reason(breakpoints),
        ) {
            Some(text) => counted.say(text),
            None => counted,
        }
    }

    /// The reply to a request is taken over.
    pub open spec fn answered(
        self,
        around: Surroundings,
        command: Seq<char>,
        body: DapBody,
    ) -> EditorModel {
        let json = json_of(body.json);
        if command == "threads"@ {
            self.threads_heard(threads_of(json, body.floats@))
        } else if command == "stackTrace"@ {
            self.frames_heard(around, frames_of(json, body.floats@))
        } else if command == "scopes"@ {
            self.scope_heard(scope_reference(json, body.floats@))
        } else if command == "variables"@ {
            self.with_debug(self.debug_state.variables_listed(variables_of(json, body.floats@)))
        } else if command == "setBreakpoints"@ {
            self.breakpoints_heard(items_of(member_of(json, "breakpoints"@)))
        } else {
            self
        }
    }
}

impl Editor {
    fn hear_threads(&mut self, body: &DapBody)
        ensures
            final(self)@ == old(self)@.threads_heard(threads_of(json_of(body.json), body.floats@)),
    {
        self.debug_state.list_threads(read_threads(body));
        if self.debug_stack_after_threads {
            self.debug_stack_after_threads = false;
            self.debug_state.resolve_thread();
            self.request_stack_trace();
        }
    }

    fn hear_frames(&mut self, around: &Surroundings, body: &DapBody)
        ensures
            final(self)@ == old(self)@.frames_heard(
                *around,
                frames_of(json_of(body.json), body.floats@),
            ),
    {
        let frames = read_frames(body);
        if frames.len() > 0 {
            let id: i64 = frames[0].id;
            let line: i64 = frames[0].line;
            let source_path = frames[0].source_path.clone();
            self.debug_state.list_frames(frames);
            self.mark_stop(around, source_path.as_str(), line);
            self.request_scopes(id);
        } else {
            self.debug_state.list_frames(frames);
            self.step(Step::SetStopLine(None));
        }
    }

    fn hear_scope(&mut self, body: &DapBody)
        ensures
            final(self)@ == old(self)@.scope_heard(
                scope_reference(json_of(body.json), body.floats@),
            ),
    {
        let reference: i64 = read_scope_reference(body);
        if reference != 0 {
            self.current_variables_reference = Some(reference);
            self.variables_reference_stack.clear();
            self.debug_state.enter_scope();
            self.request_variables(reference);
        }
    }

    fn hear_breakpoints(&mut self, body: &DapBody)
        ensures
            final(self)@ == old(self)@.breakpoints_heard(
                items_of(member_of(json_of(body.json), "breakpoints"@)),
            ),
    {
        let report = read_breakpoints(body);
        let notice = breakpoint_message(&report);
        self.verified_breakpoint_count = report.verified;
        if let Some(text) = notice {
            self.update_message(text.as_str());
        }
    }

    fn handle_debug_response(&mut self, around: &Surroundings, command: &str, body: &DapBody)
        ensures
            final(self)@ == old(self)@.answered(*around, command@, *body),
    {
        if same_text(command, "threads") {
            self.hear_threads(body);
        } else if same_text(command, "stackTrace") {
            self.hear_frames(around, body);
        } else if same_text(command, "scopes") {
            self.hear_scope(body);
        } else if same_text(command, "variables") {
            self.debug_state.list_variables(read_variables(body));
        } else if same_text(command, "setBreakpoints") {
            self.hear_breakpoints(body);
        }
    }
}

// ---------------------------------------------------------------------------------------------
// Events
// ---------------------------------------------------------------------------------------------
impl EditorModel {
    /// Delve has stopped at the entry of the program: it gets the breakpoints and runs on.
    pub open spec fn entry_passed(self) -> EditorModel {
        EditorModel { pending_continue_after_entry: false, ..self }.breakpoints_synced().say(
            "Delve entry stop -> breakpoints synced, continuing..."@,
        ).resumed(RequestKind::Continue)
    }

    /// The program has stopped. Its threads are asked for, and then the frames of the current one.
    pub open spec fn paused_in(self, thread_id: Option<i64>) -> EditorModel {
        EditorModel {
            debug_state: DebugModel { current_thread_id: thread_id, ..self.debug_state },
            debug_paused: true,
            debug_stack_after_threads: true,
            stacktrace_retry_attempted: false,
            ..self
        }.threads_requested().say("Debug paused."@)
    }

    pub open spec fn stop_heard(self, body: DapBody) -> EditorModel {
        let json = json_of(body.json);
        if self.uses_delve() && text_or_empty(member_of(json, "reason"@)) == "entry"@ {
            self.entry_passed()
        } else {
            self.paused_in(dap_int_at(json, "threadId"@, body.floats@))
        }
    }

    /// An event has come.
    pub open spec fn event_heard(self, event: Seq<char>, body: DapBody) -> EditorModel {
        if event == "initialized"@ {
            self.configuration_sent()
        } else if event == "stopped"@ {
            self.stop_heard(body)
        } else if event == "continued"@ {
            self.running()
        } else {
            self
        }
    }

    /// The configuration is completed where no event has asked for that.
    pub open spec fn launch_answered(self) -> EditorModel {
        self.configuration_sent().say(started_notice(self.active_debug_adapter))
    }

    pub open spec fn initialize_answered(self, command: Seq<char>) -> EditorModel {
        if command == "initialize"@ {
            self.launch_sent()
        } else {
            self
        }
    }

    /// A request has been granted.
    pub open spec fn granted(
        self,
        around: Surroundings,
        command: Seq<char>,
        body: DapBody,
    ) -> EditorModel {
        let heard = self.initialize_answered(command).answered(around, command, body);
        if command == "launch"@ {
            heard.launch_answered()
        } else {
            heard
        }
    }

    /// Delve did not know its first goroutine, as is so at the entry of a program.
    pub open spec fn invalid_entry(self, command: Seq<char>, detail: Seq<char>) -> bool {
        command == "stackTrace"@ && occurs_in(detail, "unknown goroutine 1"@) && self.uses_delve()
    }

    /// Delve did not know a goroutine, and there is another to ask about.
    pub open spec fn other_thread(self, command: Seq<char>, detail: Seq<char>) -> Option<i64> {
        if command == "stackTrace"@ && occurs_in(detail, "unknown goroutine"@) {
            self.retry_thread()
        } else {
            None
        }
    }

    /// The program being debugged is gone.
    pub open spec fn program_gone(command: Seq<char>, detail: Seq<char>) -> bool {
        command == "stackTrace"@ && occurs_in(detail, "has exited with status"@)
    }

    /// A request has been refused.
    pub open spec fn refused(self, command: Seq<char>, detail: Seq<char>) -> EditorModel {
        if self.invalid_entry(command, detail) {
            self.say("Delve entry stop produced invalid goroutine. Continuing..."@).resumed(
                RequestKind::Continue,
            )
        } else {
            match self.other_thread(command, detail) {
                Some(id) => self.stack_retried(id),
                None => if EditorModel::program_gone(command, detail) {
                    self
                } else {
                    self.say(refusal_notice(command, detail))
                },
            }
        }
    }

    /// How a refused request lets the session end.
    pub open spec fn refusal_ending(self, command: Seq<char>, detail: Seq<char>) -> EndingModel {
        if !self.invalid_entry(command, detail) && self.other_thread(command, detail) is None
            && EditorModel::program_gone(command, detail) {
            EndingModel::EndsWith("Debuggee has already exited."@)
        } else {
            EndingModel::GoesOn
        }
    }

    /// Something has come from the debug session.
    #[verifier::opaque]
    pub open spec fn heard(self, around: Surroundings, event: DapEvent) -> EditorModel {
        match event {
            DapEvent::Message(DapMessage::Event { event, body }) => self.event_heard(event@, body),
            DapEvent::Message(DapMessage::Response { success, command, message, body }) => if success {
                self.granted(around, command@, body)
            } else {
                self.refused(command@, error_detail(message@, json_of(body.json)))
            },
            DapEvent::Message(DapMessage::Request) => self,
            DapEvent::Closed => self,
            DapEvent::Error(error) => self.say("DAP error: "@ + error@),
        }
    }

    /// How what has come lets the session end.
    #[verifier::opaque]
    pub open spec fn ending(self, event: DapEvent) -> EndingModel {
        match event {
            DapEvent::Message(DapMessage::Event { event, body }) => if event@ == "terminated"@
                || event@ == "exited"@ {
                EndingModel::EndsWith(
                    exit_notice(
                        or_zero(dap_int_at(json_of(body.json), "exitCode"@, body.floats@)),
                    ),
                )
            } else {
                EndingModel::GoesOn
            },
            DapEvent::Message(DapMessage::Response { success, command, message, body }) => if success {
                EndingModel::GoesOn
            } else {
                self.refusal_ending(command@, error_detail(message@, json_of(body.json)))
            },
            DapEvent::Message(DapMessage::Request) => EndingModel::GoesOn,
            DapEvent::Closed => EndingModel::Ends,
            DapEvent::Error(_) => EndingModel::GoesOn,
        }
    }

    /// The editor after one event after the other.
    pub open spec fn all_heard(self, around: Surroundings, events: Seq<DapEvent>) -> EditorModel
        decreases events.len(),
    {
        if events.len() == 0 {
            self
        } else {
            self.all_heard(around, events.drop_last()).heard(around, events.last())
        }
    }

    /// How all that has come lets the session end.
    pub open spec fn all_ending(self, around: Surroundings, events: Seq<DapEvent>) -> EndingModel
        decreases events.len(),
    {
        if events.len() == 0 {
            EndingModel::GoesOn
        } else {
            self.all_ending(around, events.drop_last()).and(
                self.all_heard(around, events.drop_last()).ending(events.last()),
            )
        }
    }

    /// The session is ended, or what it shows is shown anew.
    pub open spec fn settled(self, ending: EndingModel) -> EditorModel {
        match ending {
            EndingModel::EndsWith(message) => self.debug_stopped(message),
            EndingModel::Ends => self.debug_stopped("Debug session finished."@),
            EndingModel::GoesOn => self.redraw(Part::StatusBar).step(Step::ShowDebugState),
        }
    }

    /// What has come from the debug session, if there is one, is dealt with.
    pub open spec fn polled(self, around: Surroundings, events: Seq<DapEvent>) -> EditorModel {
        if self.debug_session && events.len() > 0 {
            self.all_heard(around, events).settled(self.all_ending(around, events))
        } else {
            self
        }
    }
}

impl Editor {
    fn pass_entry(&mut self)
        ensures
            final(self)@ == old(self)@.entry_passed(),
    {
        self.pending_continue_after_entry = false;
        self.sync_all_breakpoints();
        self.update_message("Delve entry stop -> breakpoints synced, continuing...");
        self.continue_debug();
    }

    fn pause_in(&mut self, thread_id: Option<i64>)
        ensures
            final(self)@ == old(self)@.paused_in(thread_id),
    {
        self.debug_state.set_current_thread_id(thread_id);
        self.debug_paused = true;
        self.debug_stack_after_threads = true;
        self.stacktrace_retry_attempted = false;
        self.request_threads();
        self.update_message("Debug paused.");
    }

    fn hear_stop(&mut self, body: &DapBody)
        ensures
            final(self)@ == old(self)@.stop_heard(*body),
    {
        let reason = member_text(&body.json, "reason");
        if self.uses_delve() && same_text(reason.as_str(), "entry") {
            self.pass_entry();
        } else {
            self.pause_in(dap_int_member(&body.json, "threadId", &body.floats));
        }
    }

    fn hear_event(&mut self, event: &str, body: &DapBody)
        ensures
            final(self)@ == old(self)@.event_heard(event@, *body),
    {
        if same_text(event, "initialized") {
            self.send_configuration_done_if_pending();
        } else if same_text(event, "stopped") {
            self.hear_stop(body);
        } else if same_text(event, "continued") {
            self.run_on();
        }
    }

    fn started_text(&self) -> (text: String)
        ensures
            text@ == started_notice(self@.active_debug_adapter),
    {
        match &self.active_debug_adapter {
            Some(adapter) => concat2("Debug started: ", adapter.display_name.as_str()),
            None => "Debug started.".to_owned(),
        }
    }

    fn answer_launch(&mut self)
        ensures
            final(self)@ == old(self)@.launch_answered(),
    {
        let text = self.started_text();
        self.send_configuration_done_if_pending();
        self.update_message(text.as_str());
    }

    fn answer_initialize(&mut self, command: &str)
        ensures
            final(self)@ == old(self)@.initialize_answered(command@),
    {
        if same_text(command, "initialize") {
            self.send_launch_if_pending();
        }
    }

    fn grant(&mut self, around: &Surroundings, command: &str, body: &DapBody)
        ensures
            final(self)@ == old(self)@.granted(*around, command@, *body),
    {
        self.answer_initialize(command);
        self.handle_debug_response(around, command, body);
        if same_text(command, "launch") {
            self.answer_launch();
        }
    }

    fn refuse(&mut self, command: &str, detail: &str) -> (ending: Ending)
        ensures
            final(self)@ == old(self)@.refused(command@, detail@),
            ending@ == old(self)@.refusal_ending(command@, detail@),
    {
        let of_stack: bool = same_text(command, "stackTrace");
        if of_stack && contains_text(detail, "unknown goroutine 1") && self.uses_delve() {
            self.update_message("Delve entry stop produced invalid goroutine. Continuing...");
            self.continue_debug();
            return Ending::GoesOn;
        }
        if of_stack && contains_text(detail, "unknown goroutine")
            && self.try_retry_stacktrace_for_dlv() {
            return Ending::GoesOn;
        }
        if of_stack && contains_text(detail, "has exited with status") {
            return Ending::EndsWith("Debuggee has already exited.".to_owned());
        }
        let text = refusal_text(command, detail);
        self.update_message(text.as_str());
        Ending::GoesOn
    }

    fn hear(&mut self, around: &Surroundings, event: &DapEvent) -> (ending: Ending)
        ensures
            final(self)@ == old(self)@.heard(*around, *event),
            ending@ == old(self)@.ending(*event),
    {
        reveal(EditorModel::heard);
        reveal(EditorModel::ending);
        match event {
            DapEvent::Message(DapMessage::Event { event, body }) => {
                self.hear_event(event.as_str(), body);
                if same_text(event.as_str(), "terminated") || same_text(event.as_str(), "exited") {
                    let code: i64 = dap_int_member(
                        &body.json,
                        "exitCode",
                        &body.floats,
                    ).unwrap_or(0);
                    Ending::EndsWith(exit_text(code))
                } else {
                    Ending::GoesOn
                }
            },
            DapEvent::Message(DapMessage::Response { success, command, message, body }) => {
                if *success {
                    self.grant(around, command.as_str(), body);
                    Ending::GoesOn
                } else {
                    let detail = dap_error_detail(message.as_str(), &body.json);
                    self.refuse(command.as_str(), detail.as_str())
                }
            },
            DapEvent::Message(DapMessage::Request) => Ending::GoesOn,
            DapEvent::Closed => Ending::Ends,
            DapEvent::Error(error) => {
                let text = concat2("DAP error: ", error.as_str());
                self.update_message(text.as_str());
                Ending::GoesOn
            },
        }
    }

    fn settle(&mut self, ending: Ending)
        ensures
            final(self)@ == old(self)@.settled(ending@),
    {
        match ending {
            Ending::EndsWith(message) => self.stop_debug_with_message(message.as_str()),
            Ending::Ends => self.stop_debug(),
            Ending::GoesOn => {
                self.redraw(Part::StatusBar);
                self.step(Step::ShowDebugState);
            },
        }
    }
}

// ---------------------------------------------------------------------------------------------
// What always holds
// ---------------------------------------------------------------------------------------------
impl EditorModel {
    proof fn configuration_sent_keeps_session(self)
        requires
            self.wf(),
            self.debug_session,
        ensures
            self.configuration_sent().wf(),
            self.steady(self.configuration_sent()),
            self.configuration_sent().debug_session,
    {
        reveal(EditorModel::emit);
    }

    /// Afterwards the configuration is complete.
    pub proof fn configuration_sent_completes_it(self)
        ensures
            !self.configuration_sent().pending_configuration_done,
            self.wf() ==> self.configuration_sent().wf(),
    {
        if self.wf() && self.debug_session {
            self.configuration_sent_keeps_session();
        }
        reveal(EditorModel::emit);
    }

    proof fn launch_sent_keeps_session(self)
        requires
            self.wf(),
            self.debug_session,
        ensures
            self.launch_sent().wf(),
            self.steady(self.launch_sent()),
            self.launch_sent().debug_session,
    {
        reveal(EditorModel::emit);
    }

    proof fn stack_retried_keeps_session(self, thread_id: i64)
        requires
            self.wf(),
            self.debug_session,
        ensures
            self.stack_retried(thread_id).wf(),
            self.steady(self.stack_retried(thread_id)),
            self.stack_retried(thread_id).debug_session,
    {
        reveal(EditorModel::emit);
    }

    /// Once Delve was asked about another thread, it is not asked again.
    pub proof fn stack_retried_but_once(self)
        ensures
            self.retry_thread() matches Some(id) ==> {
                &&& self.stack_retried(id).retry_thread() is None
                &&& self.wf() ==> self.stack_retried(id).wf()
            },
    {
        if let Some(id) = self.retry_thread() {
            if self.wf() {
                self.stack_retried_keeps_session(id);
            }
            reveal(EditorModel::emit);
        }
    }

    proof fn threads_heard_keeps_session(self, threads: Seq<ThreadModel>)
        requires
            self.wf(),
            self.debug_session,
        ensures
            self.threads_heard(threads).wf(),
            self.steady(self.threads_heard(threads)),
            self.threads_heard(threads).debug_session,
    {
        reveal(EditorModel::emit);
        if let Some(id) = self.debug_state.current_thread_id {
            law_thread_place(threads, id);
        }
    }

    proof fn frames_heard_keeps_session(self, around: Surroundings, frames: Seq<FrameModel>)
        requires
            self.wf(),
            self.debug_session,
        ensures
            self.frames_heard(around, frames).wf(),
            self.steady(self.frames_heard(around, frames)),
            self.frames_heard(around, frames).debug_session,
    {
        reveal(EditorModel::emit);
    }

    proof fn scope_heard_keeps_session(self, reference: i64)
        requires
            self.wf(),
            self.debug_session,
        ensures
            self.scope_heard(reference).wf(),
            self.steady(self.scope_heard(reference)),
            self.scope_heard(reference).debug_session,
    {
        reveal(EditorModel::emit);
    }

    proof fn breakpoints_heard_keeps_session(self, breakpoints: Seq<Json>)
        requires
            self.wf(),
            self.debug_session,
        ensures
            self.breakpoints_heard(breakpoints).wf(),
            self.steady(self.breakpoints_heard(breakpoints)),
            self.breakpoints_heard(breakpoints).debug_session,
    {
        reveal(EditorModel::emit);
    }

    proof fn answered_keeps_session(self, around: Surroundings, command: Seq<char>, body: DapBody)
        requires
            self.wf(),
            self.debug_session,
        ensures
            self.answered(around, command, body).wf(),
            self.steady(self.answered(around, command, body)),
            self.answered(around, command, body).debug_session,
    {
        let json = json_of(body.json);
        self.threads_heard_keeps_session(threads_of(json, body.floats@));
        self.frames_heard_keeps_session(around, frames_of(json, body.floats@));
        self.scope_heard_keeps_session(scope_reference(json, body.floats@));
        self.breakpoints_heard_keeps_session(items_of(member_of(json, "breakpoints"@)));
    }

    proof fn entry_passed_keeps_session(self)
        requires
            self.wf(),
            self.debug_session,
        ensures
            self.entry_passed().wf(),
            self.steady(self.entry_passed()),
            self.entry_passed().debug_session,
    {
        reveal(EditorModel::emit);
    }

    proof fn paused_in_keeps_session(self, thread_id: Option<i64>)
        requires
            self.wf(),
            self.debug_session,
        ensures
            self.paused_in(thread_id).wf(),
            self.steady(self.paused_in(thread_id)),
            self.paused_in(thread_id).debug_session,
    {
        reveal(EditorModel::emit);
    }

    proof fn event_heard_keeps_session(self, event: Seq<char>, body: DapBody)
        requires
            self.wf(),
            self.debug_session,
        ensures
            self.event_heard(event, body).wf(),
            self.steady(self.event_heard(event, body)),
            self.event_heard(event, body).debug_session,
    {
        reveal(EditorModel::emit);
        self.configuration_sent_keeps_session();
        self.entry_passed_keeps_session();
        self.paused_in_keeps_session(dap_int_at(json_of(body.json), "threadId"@, body.floats@));
    }

    proof fn granted_keeps_session(self, around: Surroundings, command: Seq<char>, body: DapBody)
        requires
            self.wf(),
            self.debug_session,
        ensures
            self.granted(around, command, body).wf(),
            self.steady(self.granted(around, command, body)),
            self.granted(around, command, body).debug_session,
    {
        self.launch_sent_keeps_session();
        let first = self.initialize_answered(command);
        first.answered_keeps_session(around, command, body);
        let second = first.answered(around, command, body);
        second.configuration_sent_keeps_session();
        reveal(EditorModel::emit);
    }

    proof fn refused_keeps_session(self, command: Seq<char>, detail: Seq<char>)
        requires
            self.wf(),
            self.debug_session,
        ensures
            self.refused(command, detail).wf(),
            self.steady(self.refused(command, detail)),
            self.refused(command, detail).debug_session,
    {
        reveal(EditorModel::emit);
        if let Some(id) = self.other_thread(command, detail) {
            self.stack_retried_keeps_session(id);
        }
    }

    proof fn heard_keeps_session(self, around: Surroundings, event: DapEvent)
        requires
            self.wf(),
            self.debug_session,
        ensures
            self.heard(around, event).wf(),
            self.steady(self.heard(around, event)),
            self.heard(around, event).debug_session,
    {
        reveal(EditorModel::heard);
        match event {
            DapEvent::Message(DapMessage::Event { event, body }) => {
                self.event_heard_keeps_session(event@, body);
            },
            DapEvent::Message(DapMessage::Response { success, command, message, body }) => {
                self.granted_keeps_session(around, command@, body);
                self.refused_keeps_session(
                    command@,
                    error_detail(message@, json_of(body.json)),
                );
            },
            _ => {
                reveal(EditorModel::emit);
            },
        }
    }

    proof fn all_heard_keeps_session(self, around: Surroundings, events: Seq<DapEvent>)
        requires
            self.wf(),
            self.debug_session,
        ensures
            self.all_heard(around, events).wf(),
            self.steady(self.all_heard(around, events)),
            self.all_heard(around, events).debug_session,
        decreases events.len(),
    {
        if events.len() > 0 {
            self.all_heard_keeps_session(around, events.drop_last());
            self.all_heard(around, events.drop_last()).heard_keeps_session(around, events.last());
        }
    }

    /// The state stays valid whatever the debug session says, and nothing it says makes the editor
    /// quit.
    pub proof fn polled_keeps_wf(self, around: Surroundings, events: Seq<DapEvent>)
        requires
            self.wf(),
        ensures
            self.polled(around, events).wf(),
            self.steady(self.polled(around, events)),
    {
        if self.debug_session && events.len() > 0 {
            self.all_heard_keeps_session(around, events);
            let heard = self.all_heard(around, events);
            match self.all_ending(around, events) {
                EndingModel::EndsWith(message) => heard.debug_stopped_keeps_wf(message),
                EndingModel::Ends => heard.debug_stopped_keeps_wf("Debug session finished."@),
                EndingModel::GoesOn => {
                    reveal(EditorModel::emit);
                },
            }
        }
    }
}

impl Editor {
    /// Hears everything that has come, one by one, and finds how it lets the session end.
    fn hear_all(&mut self, around: &Surroundings, events: &Vec<DapEvent>) -> (ending: Ending)
        ensures
            final(self)@ == old(self)@.all_heard(*around, events@),
            ending@ == old(self)@.all_ending(*around, events@),
    {
        let ghost start = self@;
        let mut ending = Ending::GoesOn;
        let mut i: usize = 0;
        assert(events@.take(0) =~= Seq::<DapEvent>::empty());
        while i < events.len()
            invariant
                i <= events@.len(),
                self@ == start.all_heard(*around, events@.take(i as int)),
                ending@ == start.all_ending(*around, events@.take(i as int)),
            decreases events@.len() - i,
        {
            assert(events@.take(i + 1).drop_last() =~= events@.take(i as int));
            assert(events@.take(i + 1).last() == events@[i as int]);
            let next = self.hear(around, &events[i]);
            ending = ending.and(next);
            i += 1;
        }
        assert(events@.take(i as int) =~= events@);
        ending
    }

    /// Deals with what has come from the debug session.
    pub fn poll_debug_events(&mut self, around: &Surroundings, events: &Vec<DapEvent>)
        requires
            old(self)@.wf(),
        ensures
            final(self)@ == old(self)@.polled(*around, events@),
            final(self)@.wf(),
    {
        proof {
            self@.polled_keeps_wf(*around, events@);
        }
        if self.debug_session && events.len() > 0 {
            let ending = self.hear_all(around, events);
            self.settle(ending);
        }
    }
}

} // verus!
