//! Input events, and the commands that they stand for.
use vstd::prelude::*;
use vstd::string::*;
use vstd::utf8::*;

verus! {

/// A height and a width, in rows and columns.
#[derive(Clone, Copy, PartialEq, Eq, Structural, Debug)]
pub struct Size {
    pub height: usize,
    pub width: usize,
}

/// A place on the screen.
#[derive(Clone, Copy, PartialEq, Eq, Structural, Debug)]
pub struct Position {
    pub row: usize,
    pub col: usize,
}

/// A direction to move in. The directions that only the text view tells apart go by a number.
#[derive(Clone, Copy, PartialEq, Eq, Structural, Debug)]
pub enum MoveDirection {
    Up,
    Down,
    Left,
    Right,
    Other(u32),
}

/// A movement, which may extend the selection.
#[derive(Clone, Copy, PartialEq, Eq, Structural, Debug)]
pub struct Move {
    pub direction: MoveDirection,
    pub is_selection: bool,
}

/// A change of text. The changes that only a text field tells apart go by a number.
#[derive(Clone, Copy, PartialEq, Eq, Structural, Debug)]
pub enum Edit {
    Insert(char),
    InsertNewline,
    Other(u32),
}

/// A command to the editor itself.
#[derive(Clone, Copy, PartialEq, Eq, Structural, Debug)]
pub enum System {
    Quit,
    Resize(Size),
    Search,
    Save,
    Replace,
    Dismiss,
    ToggleSidebar,
    FocusSidebar,
    FocusDebuggerSidebar,
    FocusView,
    CreateFile,
    CreateFolder,
    ToggleTerminal,
    FocusTerminal,
    StartDebug,
    StopDebug,
    ToggleBreakpoint,
    StepOver,
    StepInto,
    StepOut,
    Continue,
    Pause,
    RestartDebug,
    DisconnectDebug,
    NextThread,
    PrevThread,
    NextFrame,
    PrevFrame,
    NextVariable,
    PrevVariable,
    ExpandVariable,
    CollapseVariable,
}

/// What the user asks for.
#[derive(Clone, Copy, PartialEq, Eq, Structural, Debug)]
pub enum Command {
    Move(Move),
    Edit(Edit),
    System(System),
}

/// A key.
#[derive(Clone, Copy, PartialEq, Eq, Structural, Debug)]
pub enum KeyCode {
    Char(char),
    Enter,
    Backspace,
    Tab,
    Up,
    Down,
    Left,
    Right,
    Home,
    End,
    Delete,
    Esc,
    Null,
    Other,
}

/// The modifier keys that are held down, one bit each.
#[derive(Clone, Copy, PartialEq, Eq, Structural, Debug)]
pub struct KeyModifiers {
    pub bits: u8,
}

/// No modifier key.
pub const NONE: u8 = 0;

/// The shift key.
pub const SHIFT: u8 = 1;

/// The control key.
pub const CONTROL: u8 = 2;

/// An event of the terminal that the editor runs in.
pub enum InputEvent {
    Key { code: KeyCode, modifiers: KeyModifiers, is_press: bool },
    Paste(String),
    Resize,
    Other,
}

/// The bytes that a shell is sent for a key: the character itself, or the control sequence of the
/// key. A key with a modifier other than shift sends none.
pub open spec fn key_bytes(code: KeyCode, modifiers: KeyModifiers) -> Seq<u8> {
    if modifiers.bits == NONE || modifiers.bits == SHIFT {
        match code {
            KeyCode::Char(c) => encode_utf8(seq![c]),
            KeyCode::Enter => seq![13u8],
            KeyCode::Backspace => seq![127u8],
            KeyCode::Tab => seq![9u8],
            KeyCode::Up => seq![27u8, 91u8, 65u8],
            KeyCode::Down => seq![27u8, 91u8, 66u8],
            KeyCode::Right => seq![27u8, 91u8, 67u8],
            KeyCode::Left => seq![27u8, 91u8, 68u8],
            KeyCode::Home => seq![27u8, 91u8, 72u8],
            KeyCode::End => seq![27u8, 91u8, 70u8],
            KeyCode::Delete => seq![27u8, 91u8, 51u8, 126u8],
            KeyCode::Esc => seq![27u8],
            KeyCode::Null => Seq::empty(),
            KeyCode::Other => Seq::empty(),
        }
    } else {
        Seq::empty()
    }
}

/// The bytes that a shell is sent for a key.
pub fn key_event_to_bytes(code: KeyCode, modifiers: KeyModifiers) -> (bytes: Vec<u8>)
    ensures
        bytes@ == key_bytes(code, modifiers),
{
    if modifiers.bits == NONE || modifiers.bits == SHIFT {
        match code {
            KeyCode::Char(c) => {
                let mut text = String::new();
                text.push(c);
                assert(text@ =~= seq![c]);
                text.as_str().as_bytes_vec()
            },
            KeyCode::Enter => vec![13],
            KeyCode::Backspace => vec![127],
            KeyCode::Tab => vec![9],
            KeyCode::Up => vec![27, 91, 65],
            KeyCode::Down => vec![27, 91, 66],
            KeyCode::Right => vec![27, 91, 67],
            KeyCode::Left => vec![27, 91, 68],
            KeyCode::Home => vec![27, 91, 72],
            KeyCode::End => vec![27, 91, 70],
            KeyCode::Delete => vec![27, 91, 51, 126],
            KeyCode::Esc => vec![27],
            KeyCode::Null => Vec::new(),
            KeyCode::Other => Vec::new(),
        }
    } else {
        Vec::new()
    }
}

/// The bytes that a shell is sent for a key: also those of the interrupt and of the end of input.
pub open spec fn shell_bytes(code: KeyCode, modifiers: KeyModifiers) -> Seq<u8> {
    if modifiers.bits == CONTROL && code == KeyCode::Char('c') {
        seq![3u8]
    } else if modifiers.bits == CONTROL && code == KeyCode::Char('d') {
        seq![4u8]
    } else {
        key_bytes(code, modifiers)
    }
}

/// The bytes that a shell is sent for a key: also those of the interrupt and of the end of input.
pub fn key_to_shell(code: KeyCode, modifiers: KeyModifiers) -> (bytes: Vec<u8>)
    ensures
        bytes@ == shell_bytes(code, modifiers),
{
    if modifiers.bits == CONTROL {
        match code {
            KeyCode::Char('c') => {
                return vec![3];
            },
            KeyCode::Char('d') => {
                return vec![4];
            },
            _ => {},
        }
    }
    key_event_to_bytes(code, modifiers)
}

/// Whether a key is the null character, by one of the ways to type it. A shell never gets it.
pub open spec fn is_null_key(code: KeyCode, modifiers: KeyModifiers) -> bool {
    modifiers.bits == CONTROL && (code == KeyCode::Null || code == KeyCode::Char('@') || code
        == KeyCode::Char('2'))
}

/// Whether a key is the null character.
pub fn types_null(code: KeyCode, modifiers: KeyModifiers) -> (is: bool)
    ensures
        is == is_null_key(code, modifiers),
{
    modifiers.bits == CONTROL && match code {
        KeyCode::Null | KeyCode::Char('@' | '2') => true,
        _ => false,
    }
}

/// Whether a command is obeyed even while a shell has the keyboard.
pub open spec fn leaves_shell(command: Command) -> bool {
    match command {
        Command::System(
            System::Quit
            | System::FocusView
            | System::FocusTerminal
            | System::ToggleTerminal
            | System::FocusSidebar
            | System::FocusDebuggerSidebar,
        ) => true,
        _ => false,
    }
}

/// Whether a command is obeyed even while a shell has the keyboard.
pub fn is_for_editor(command: Command) -> (is: bool)
    ensures
        is == leaves_shell(command),
{
    match command {
        Command::System(
            System::Quit
            | System::FocusView
            | System::FocusTerminal
            | System::ToggleTerminal
            | System::FocusSidebar
            | System::FocusDebuggerSidebar,
        ) => true,
        _ => false,
    }
}

} // verus!
