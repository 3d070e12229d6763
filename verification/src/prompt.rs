//! The prompts that the editor asks for a line of text with.
use vstd::prelude::*;

verus! {

/// What the editor is asking for.
#[derive(Clone, Copy, PartialEq, Eq, Structural, Debug)]
pub enum PromptType {
    Search,
    Save,
    ReplaceSearch,
    Replace,
    CreateFile,
    CreateFolder,
    Closed,
}

impl PromptType {
    /// Whether the editor is asking for nothing.
    pub fn is_none(&self) -> (none: bool)
        ensures
            none == (*self is Closed),
    {
        match self {
            PromptType::Closed => true,
            _ => false,
        }
    }

    /// The words that a prompt asks with.
    pub open spec fn question(self) -> Seq<char> {
        match self {
            PromptType::Search => "Search (Esc to cancel, Arrows to navigate): "@,
            PromptType::Save => "Save as: "@,
            PromptType::ReplaceSearch => "Replace (search): "@,
            PromptType::Replace => "Replace with: "@,
            PromptType::CreateFile => "New file name: "@,
            PromptType::CreateFolder => "New folder name: "@,
            PromptType::Closed => Seq::empty(),
        }
    }

    /// The words that a prompt asks with.
    pub fn question_text(&self) -> (text: String)
        ensures
            text@ == self.question(),
    {
        match self {
            PromptType::Search => "Search (Esc to cancel, Arrows to navigate): ".to_owned(),
            PromptType::Save => "Save as: ".to_owned(),
            PromptType::ReplaceSearch => "Replace (search): ".to_owned(),
            PromptType::Replace => "Replace with: ".to_owned(),
            PromptType::CreateFile => "New file name: ".to_owned(),
            PromptType::CreateFolder => "New folder name: ".to_owned(),
            PromptType::Closed => String::new(),
        }
    }
}

} // verus!
