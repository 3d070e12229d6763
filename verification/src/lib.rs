//! A text editor for the terminal, with a file tree, a shell and a debugger.
//!
//! The editor is a state machine. Input, the outcomes of actions and the messages of a debug session
//! go in, by `Editor::take_input`, `Editor::handle_reply` and `Editor::poll_debug_events`; actions
//! come out, by `Editor::take_actions`, and are performed by the program around the editor. What the
//! editor has to know of the parts that it directs is handed to it as `Surroundings`, taken anew for
//! each call. `Editor::begin_round` says what is drawn and when the program ends.
//!
//! Paths are texts, written as `PathStyle` says. They are split into components, compared and joined
//! in `components` and `paths`; what only the file system knows, such as the real path of a file, is
//! handed to the editor. A path that is no Unicode text is handed over as a text that stands for it
//! alone, and named again by that text.
//!
//! Contracts speak of the model of an editor, `EditorModel`, which has an operation for everything
//! that can happen. `EditorModel::wf` says what holds at all times, and `laws` what holds across
//! operations; the modules whose names begin with `laws_` say of each command, each reply and each
//! message of a debug session what it comes to. Some operations have to be revealed before a proof
//! can look into them: `emit`, by which every action is asked for, `system_commanded`, which tells the
//! commands apart, and `heard` and `ending`, which tell the messages of a debug session apart.
pub mod action;
pub mod breakpoints;
pub mod command;
pub mod components;
pub mod dap;
pub mod debug_events;
pub mod debug_state;
pub mod debugging;
pub mod dispatch;
pub mod editor;
pub mod json;
pub mod launch;
pub mod laws;
pub mod laws_debugging;
pub mod laws_events;
pub mod laws_keys;
pub mod laws_launch;
pub mod laws_panes;
pub mod laws_paths;
pub mod laws_prompts;
pub mod laws_replies;
pub mod laws_screen;
pub mod laws_texts;
pub mod layout;
pub mod panels;
pub mod paths;
pub mod placement;
pub mod prompt;
pub mod replies;
pub mod request;
pub mod screen;
pub mod surroundings;
pub mod sync;
pub mod text;
