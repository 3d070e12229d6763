//! What holds of keys and pasted texts: where they go.
use crate::action::ActionModel;
use crate::command::{
    Command, InputEvent, KeyCode, KeyModifiers, System, is_null_key, leaves_shell, shell_bytes,
};
use crate::dispatch::Input;
use crate::editor::EditorModel;
use crate::laws::{law_paste_into_prompt, types};
use crate::laws_prompts::asking;
use crate::prompt::PromptType;
use crate::surroundings::Surroundings;
use vstd::string::*;
use vstd::utf8::*;
use vstd::prelude::*;

verus! {

/// A character goes to the shell as it is written, whether or not the shift key is held down.
pub proof fn law_characters_reach_the_shell(c: char, modifiers: KeyModifiers)
    requires
        modifiers.bits == 0 || modifiers.bits == 1,
    ensures
        shell_bytes(KeyCode::Char(c), modifiers) == encode_utf8(seq![c]),
{
}

/// The shell gets each of the other keys by its control sequence.
pub proof fn law_control_sequences(modifiers: KeyModifiers)
    requires
        modifiers.bits == 0 || modifiers.bits == 1,
    ensures
        shell_bytes(KeyCode::Enter, modifiers) == seq![0x0du8],
        shell_bytes(KeyCode::Backspace, modifiers) == seq![0x7fu8],
        shell_bytes(KeyCode::Tab, modifiers) == seq![0x09u8],
        shell_bytes(KeyCode::Esc, modifiers) == seq![0x1bu8],
        shell_bytes(KeyCode::Up, modifiers) == seq![0x1bu8, 0x5bu8, 0x41u8],
        shell_bytes(KeyCode::Down, modifiers) == seq![0x1bu8, 0x5bu8, 0x42u8],
        shell_bytes(KeyCode::Right, modifiers) == seq![0x1bu8, 0x5bu8, 0x43u8],
        shell_bytes(KeyCode::Left, modifiers) == seq![0x1bu8, 0x5bu8, 0x44u8],
        shell_bytes(KeyCode::Home, modifiers) == seq![0x1bu8, 0x5bu8, 0x48u8],
        shell_bytes(KeyCode::End, modifiers) == seq![0x1bu8, 0x5bu8, 0x46u8],
        shell_bytes(KeyCode::Delete, modifiers) == seq![0x1bu8, 0x5bu8, 0x33u8, 0x7eu8],
        shell_bytes(KeyCode::Null, modifiers).len() == 0,
        shell_bytes(KeyCode::Other, modifiers).len() == 0,
{
}

/// With the control key held down the shell gets the interrupt and the end of input, and with any other
/// modifier key nothing.
pub proof fn law_modified_keys(code: KeyCode, modifiers: KeyModifiers)
    requires
        modifiers.bits != 0 && modifiers.bits != 1,
    ensures
        shell_bytes(code, modifiers) == if modifiers.bits == 2 && code == KeyCode::Char('c') {
            seq![3u8]
        } else if modifiers.bits == 2 && code == KeyCode::Char('d') {
            seq![4u8]
        } else {
            Seq::empty()
        },
{
}

/// The commands that are obeyed while the shell has the keyboard are those that lead away from it.
pub proof fn law_commands_out_of_the_shell(command: Command)
    ensures
        leaves_shell(command) <==> command == Command::System(System::Quit) || command
            == Command::System(System::FocusView) || command == Command::System(
            System::FocusTerminal,
        ) || command == Command::System(System::ToggleTerminal) || command == Command::System(
            System::FocusSidebar,
        ) || command == Command::System(System::FocusDebuggerSidebar),
{
}

/// The null character is typed with the control key, in one of three ways.
pub proof fn law_null_keys(code: KeyCode, modifiers: KeyModifiers)
    ensures
        is_null_key(code, modifiers) <==> modifiers.bits == 2 && (code == KeyCode::Null || code
            == KeyCode::Char('@') || code == KeyCode::Char('2')),
{
}

/// A command that a key stands for is obeyed, unless the shell has the keyboard. A key without a
/// command does nothing.
pub proof fn law_keys_are_obeyed(
    editor: EditorModel,
    around: Surroundings,
    code: KeyCode,
    modifiers: KeyModifiers,
    command: Option<Command>,
)
    requires
        editor.prompt_type != PromptType::Closed || !editor.terminal_visible
            || !editor.terminal_focus,
    ensures
        editor.evaluated(around, InputEvent::Key { code, modifiers, is_press: true }, command)
            == match command {
            Some(meant) => editor.commanded(around, meant),
            None => editor,
        },
{
}

/// While the shell has the keyboard, a key goes to it, and to nothing else, unless it stands for a
/// command that leads away from it or types the null character.
pub proof fn law_keys_for_the_shell(
    editor: EditorModel,
    around: Surroundings,
    code: KeyCode,
    modifiers: KeyModifiers,
    command: Option<Command>,
)
    requires
        editor.prompt_type == PromptType::Closed,
        editor.terminal_visible,
        editor.terminal_focus,
    ensures
        editor.evaluated(around, InputEvent::Key { code, modifiers, is_press: true }, command)
            == if is_null_key(code, modifiers) || (command is Some && leaves_shell(
            command->Some_0,
        )) {
            match command {
                Some(meant) => editor.commanded(around, meant),
                None => editor,
            }
        } else if shell_bytes(code, modifiers).len() == 0 {
            editor
        } else {
            asking(
                editor,
                seq![ActionModel::WriteTerminal(shell_bytes(code, modifiers))],
            )
        },
{
    reveal(EditorModel::emit);
    assert(editor.actions.push(ActionModel::WriteTerminal(shell_bytes(code, modifiers)))
        =~= editor.actions + seq![ActionModel::WriteTerminal(shell_bytes(code, modifiers))]);
}

/// A pasted text goes whole to the shell or to the text view, whichever has the keyboard, and nowhere
/// while the file tree has it.
pub proof fn law_paste(editor: EditorModel, around: Surroundings, text: String, command: Option<Command>)
    requires
        editor.prompt_type == PromptType::Closed,
    ensures
        editor.evaluated(around, InputEvent::Paste(text), command) == if editor.terminal_visible
            && editor.terminal_focus {
            asking(editor, seq![ActionModel::WriteTerminal(encode_utf8(text@))])
        } else if editor.sidebar_visible && editor.sidebar_focus {
            editor
        } else {
            asking(editor, seq![ActionModel::PasteText(text@)])
        },
{
    reveal(EditorModel::emit);
    assert(editor.actions.push(ActionModel::WriteTerminal(encode_utf8(text@))) =~= editor.actions
        + seq![ActionModel::WriteTerminal(encode_utf8(text@))]);
    assert(editor.actions.push(ActionModel::PasteText(text@)) =~= editor.actions + seq![
        ActionModel::PasteText(text@),
    ]);
}

/// A text that is pasted while a question is asked is typed into the prompt.
pub proof fn law_paste_is_typed(
    editor: EditorModel,
    around: Surroundings,
    text: String,
    command: Option<Command>,
)
    requires
        editor.prompt_type != PromptType::Closed,
    ensures
        ({
            let after = editor.evaluated(around, InputEvent::Paste(text), command);
            &&& types(after.actions, editor.actions, text@)
            &&& after == (EditorModel { actions: after.actions, ..editor })
        }),
{
    law_paste_into_prompt(editor, text@);
}

/// A new size of the screen is taken over by the command for it; other events do nothing.
pub proof fn law_other_events(editor: EditorModel, around: Surroundings, command: Option<Command>)
    ensures
        editor.evaluated(around, InputEvent::Resize, command) == match command {
            Some(meant) => editor.commanded(around, meant),
            None => editor,
        },
        editor.evaluated(around, InputEvent::Other, command) == editor,
{
}

/// What came of waiting for input is dealt with: an event for what it is, and an error is told.
pub proof fn law_input(editor: EditorModel, around: Surroundings, input: Input)
    ensures
        editor.input_taken(around, input) == match input {
            Input::Nothing => editor,
            Input::Event(event, command) => editor.evaluated(around, event, command),
            Input::ReadFailed(error) => asking(
                editor,
                seq![ActionModel::Message("Input error: "@ + error@)],
            ),
            Input::PollFailed(error) => asking(
                editor,
                seq![ActionModel::Message("Poll error: "@ + error@)],
            ),
        },
{
    reveal(EditorModel::emit);
    match input {
        Input::ReadFailed(error) => {
            assert(editor.actions.push(ActionModel::Message("Input error: "@ + error@))
                =~= editor.actions + seq![ActionModel::Message("Input error: "@ + error@)]);
        },
        Input::PollFailed(error) => {
            assert(editor.actions.push(ActionModel::Message("Poll error: "@ + error@))
                =~= editor.actions + seq![ActionModel::Message("Poll error: "@ + error@)]);
        },
        _ => {},
    }
}

} // verus!
