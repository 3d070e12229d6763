//! What the editor is told of its surroundings when it is to decide something.
use crate::components::PathStyle;
use crate::dap::text_option;
use crate::paths::{
    dap_source_path_string, extension_text, path_extension, path_stem, source_path_of_real,
    stem_text,
};
use vstd::prelude::*;

verus! {

/// The file that is open in the text view.
pub struct OpenFile {
    /// The path of the file.
    pub path: String,
    /// The path as debug adapters are told it.
    pub source_path: String,
    /// The extension of the file's name.
    pub extension: Option<String>,
    /// The file's name without the extension.
    pub stem: Option<String>,
}

impl OpenFile {
    /// The file at a path, which is real under another.
    pub fn new(path: String, resolved: &str, style: PathStyle) -> (file: OpenFile)
        ensures
            file.path@ == path@,
            file.source_path@ == source_path_of_real(resolved@, style),
            text_option(file.extension) == path_extension(path@, style),
            text_option(file.stem) == path_stem(path@, style),
    {
        OpenFile {
            source_path: dap_source_path_string(resolved, style),
            extension: extension_text(path.as_str(), style),
            stem: stem_text(path.as_str(), style),
            path,
        }
    }
}

/// Which parts of the screen are out of date.
pub struct OutOfDate {
    pub view: bool,
    pub sidebar: bool,
    pub status_bar: bool,
    pub message_bar: bool,
    pub command_bar: bool,
    pub debug_panel: bool,
    pub terminal: bool,
}

/// The state of the parts that the editor directs, and of the system that it runs on.
pub struct Surroundings {
    /// The file that is open in the text view.
    pub file: Option<OpenFile>,
    /// The name that the open text goes by.
    pub file_name: String,
    /// Whether the open text has unsaved changes.
    pub is_modified: bool,
    /// Whether the open text has a file to be saved to.
    pub is_file_loaded: bool,
    /// The line that the caret is in, counted from zero.
    pub line_index: usize,
    /// What has been typed into the prompt.
    pub prompt_value: String,
    /// The column of the caret in the prompt.
    pub prompt_caret_col: usize,
    /// The folder that the file tree shows.
    pub workspace_root: String,
    /// How many rows the terminal pane takes up when it is shown.
    pub terminal_rows: usize,
    /// Whether a shell is running in the terminal pane.
    pub terminal_running: bool,
    /// How many rows the debug panel takes up when it is shown.
    pub debug_panel_rows: usize,
    /// Which parts of the screen are out of date.
    pub out_of_date: OutOfDate,
    /// How paths are written.
    pub path_style: PathStyle,
    /// The folder of temporary files.
    pub tmp_dir: String,
    /// The number of this process.
    pub pid: u32,
}

} // verus!
