//! What holds of the questions that the editor asks in its prompt.
use crate::action::{ActionModel, NewEntryModel, Part, Step};
use crate::command::{Command, Edit, Move, MoveDirection, System};
use crate::editor::EditorModel;
use crate::prompt::PromptType;
use crate::surroundings::Surroundings;
use crate::text::decimal;
use vstd::prelude::*;

verus! {

/// The editor when it has asked for some more, with nothing else changed.
pub open spec fn asking(editor: EditorModel, more: Seq<ActionModel>) -> EditorModel {
    EditorModel { actions: editor.actions + more, ..editor }
}

/// Actions that are asked for one by one are asked for in that order.
pub proof fn lemma_asked_one_by_one(
    editor: EditorModel,
    first: ActionModel,
    second: ActionModel,
    third: ActionModel,
)
    ensures
        editor.emit(first) == asking(editor, seq![first]),
        editor.emit(first).emit(second) == asking(editor, seq![first, second]),
        editor.emit(first).emit(second).emit(third) == asking(editor, seq![first, second, third]),
{
    reveal(EditorModel::emit);
    assert(editor.actions.push(first) =~= editor.actions + seq![first]);
    assert(editor.actions.push(first).push(second) =~= editor.actions + seq![first, second]);
    assert(editor.actions.push(first).push(second).push(third) =~= editor.actions + seq![
        first,
        second,
        third,
    ]);
}

/// The editor without a question.
pub open spec fn without_question(editor: EditorModel) -> EditorModel {
    EditorModel { prompt_type: PromptType::Closed, ..editor }
}

/// Whether the text that is asked for is one to find.
pub open spec fn asks_for_match(editor: EditorModel) -> bool {
    editor.prompt_type == PromptType::Search || editor.prompt_type == PromptType::ReplaceSearch
}

/// Whatever question is asked, what is typed goes into the prompt and nowhere else. A text to find is
/// searched for at each change.
pub proof fn law_typing_fills_the_prompt(editor: EditorModel, around: Surroundings, edit: Edit)
    requires
        editor.prompt_type != PromptType::Closed,
        edit != Edit::InsertNewline,
    ensures
        editor.commanded(around, Command::Edit(edit)) == asking(
            editor,
            if asks_for_match(editor) {
                seq![
                    ActionModel::Do(Step::EditPrompt(edit)),
                    ActionModel::Do(Step::SearchPrompted),
                ]
            } else {
                seq![ActionModel::Do(Step::EditPrompt(edit))]
            },
        ),
{
    reveal(EditorModel::emit);
    let after = editor.commanded(around, Command::Edit(edit));
    if asks_for_match(editor) {
        assert(after.actions =~= editor.actions + seq![
            ActionModel::Do(Step::EditPrompt(edit)),
            ActionModel::Do(Step::SearchPrompted),
        ]);
    } else {
        assert(after.actions =~= editor.actions + seq![ActionModel::Do(Step::EditPrompt(edit))]);
    }
}

/// While a text to find is asked for, the arrows lead from match to match: to the right and down to
/// the next one, to the left and up to the one before. No other question is moved in.
pub proof fn law_arrows_lead_through_matches(
    editor: EditorModel,
    around: Surroundings,
    movement: Move,
)
    requires
        editor.prompt_type != PromptType::Closed,
    ensures
        ({
            let after = editor.commanded(around, Command::Move(movement));
            let onward = movement.direction == MoveDirection::Right || movement.direction
                == MoveDirection::Down;
            let back = movement.direction == MoveDirection::Left || movement.direction
                == MoveDirection::Up;
            &&& asks_for_match(editor) && onward ==> after == asking(
                editor,
                seq![ActionModel::Do(Step::SearchNext)],
            )
            &&& asks_for_match(editor) && back ==> after == asking(
                editor,
                seq![ActionModel::Do(Step::SearchPrevious)],
            )
            &&& !asks_for_match(editor) || (!onward && !back) ==> after == editor
        }),
{
    reveal(EditorModel::emit);
    let after = editor.commanded(around, Command::Move(movement));
    assert(after.actions.len() > editor.actions.len() ==> after.actions =~= editor.actions + seq![
        after.actions.last(),
    ]);
}

/// A question that is given up leaves an empty prompt and the message bar behind. A search goes back
/// to where it began, and what is not done is said.
pub proof fn law_giving_up(editor: EditorModel, around: Surroundings)
    requires
        editor.prompt_type != PromptType::Closed,
    ensures
        editor.commanded(around, Command::System(System::Dismiss)) == asking(
            without_question(editor),
            seq![
                ActionModel::Do(Step::Redraw(Part::MessageBar)),
                ActionModel::Do(Step::ClearPrompt),
                match editor.prompt_type {
                    PromptType::Save => ActionModel::Message("Save aborted."@),
                    PromptType::CreateFile | PromptType::CreateFolder => ActionModel::Message(
                        "Cancelled."@,
                    ),
                    _ => ActionModel::Do(Step::DismissSearch),
                },
            ],
        ),
{
    reveal(EditorModel::emit);
    let after = editor.commanded(around, Command::System(System::Dismiss));
    assert(after.actions =~= editor.actions + seq![
        ActionModel::Do(Step::Redraw(Part::MessageBar)),
        ActionModel::Do(Step::ClearPrompt),
        after.actions.last(),
    ]);
}

/// A search that is confirmed ends where it has come to.
pub proof fn law_search_confirmed(editor: EditorModel, around: Surroundings)
    requires
        editor.prompt_type == PromptType::Search,
    ensures
        editor.commanded(around, Command::Edit(Edit::InsertNewline)) == asking(
            without_question(editor),
            seq![
                ActionModel::Do(Step::Redraw(Part::MessageBar)),
                ActionModel::Do(Step::ClearPrompt),
                ActionModel::Do(Step::ExitSearch),
            ],
        ),
{
    reveal(EditorModel::emit);
    let after = editor.commanded(around, Command::Edit(Edit::InsertNewline));
    assert(after.actions =~= editor.actions + seq![
        ActionModel::Do(Step::Redraw(Part::MessageBar)),
        ActionModel::Do(Step::ClearPrompt),
        ActionModel::Do(Step::ExitSearch),
    ]);
}

/// The text to replace, and then the text to put in its place, are those that were typed: after both
/// answers, every occurrence of the first is replaced by the second.
pub proof fn law_replacing_takes_both_answers(
    editor: EditorModel,
    first: Surroundings,
    second: Surroundings,
)
    requires
        editor.prompt_type == PromptType::ReplaceSearch,
    ensures
        ({
            let asked = editor.commanded(first, Command::Edit(Edit::InsertNewline));
            let done = asked.commanded(second, Command::Edit(Edit::InsertNewline));
            &&& asked == asking(
                EditorModel {
                    prompt_type: PromptType::Replace,
                    replace_query: first.prompt_value@,
                    ..editor
                },
                seq![ActionModel::Prompt("Replace with: "@), ActionModel::Do(Step::ClearPrompt)],
            )
            &&& done == asking(
                without_question(asked),
                seq![
                    ActionModel::Do(Step::ExitSearch),
                    ActionModel::ReplaceAll {
                        query: first.prompt_value@,
                        replacement: second.prompt_value@,
                    },
                    ActionModel::Do(Step::Redraw(Part::MessageBar)),
                    ActionModel::Do(Step::ClearPrompt),
                ],
            )
        }),
{
    reveal(EditorModel::emit);
    let asked = editor.commanded(first, Command::Edit(Edit::InsertNewline));
    let done = asked.commanded(second, Command::Edit(Edit::InsertNewline));
    assert(asked.actions =~= editor.actions + seq![
        ActionModel::Prompt("Replace with: "@),
        ActionModel::Do(Step::ClearPrompt),
    ]);
    assert(done.actions =~= asked.actions + seq![
        ActionModel::Do(Step::ExitSearch),
        ActionModel::ReplaceAll {
            query: first.prompt_value@,
            replacement: second.prompt_value@,
        },
        ActionModel::Do(Step::Redraw(Part::MessageBar)),
        ActionModel::Do(Step::ClearPrompt),
    ]);
}

/// The text is saved under the name that was typed.
pub proof fn law_saved_under_the_typed_name(editor: EditorModel, around: Surroundings)
    requires
        editor.prompt_type == PromptType::Save,
    ensures
        editor.commanded(around, Command::Edit(Edit::InsertNewline)) == asking(
            without_question(editor),
            seq![
                ActionModel::SaveAs(around.prompt_value@),
                ActionModel::Do(Step::Redraw(Part::MessageBar)),
                ActionModel::Do(Step::ClearPrompt),
            ],
        ),
{
    reveal(EditorModel::emit);
    let after = editor.commanded(around, Command::Edit(Edit::InsertNewline));
    assert(after.actions =~= editor.actions + seq![
        ActionModel::SaveAs(around.prompt_value@),
        ActionModel::Do(Step::Redraw(Part::MessageBar)),
        ActionModel::Do(Step::ClearPrompt),
    ]);
}

/// A new entry of the kind that was asked for is to get the name that was typed. An empty name is
/// refused.
#[verifier::rlimit(30)]
pub proof fn law_created_under_the_typed_name(editor: EditorModel, around: Surroundings)
    requires
        editor.prompt_type == PromptType::CreateFile || editor.prompt_type
            == PromptType::CreateFolder,
    ensures
        editor.commanded(around, Command::Edit(Edit::InsertNewline)) == asking(
            without_question(editor),
            seq![
                ActionModel::Do(Step::Redraw(Part::MessageBar)),
                ActionModel::Do(Step::ClearPrompt),
                if around.prompt_value@.len() == 0 {
                    ActionModel::Message("Name is empty."@)
                } else {
                    ActionModel::InspectTarget(
                        NewEntryModel {
                            name: around.prompt_value@,
                            is_dir: editor.prompt_type == PromptType::CreateFolder,
                        },
                    )
                },
            ],
        ),
{
    reveal(EditorModel::emit);
    let after = editor.commanded(around, Command::Edit(Edit::InsertNewline));
    assert(after.actions =~= editor.actions + seq![
        ActionModel::Do(Step::Redraw(Part::MessageBar)),
        ActionModel::Do(Step::ClearPrompt),
        after.actions.last(),
    ]);
}

/// While no question is asked, a command to the editor itself is obeyed whichever part has the
/// keyboard.
pub proof fn lemma_obeyed(editor: EditorModel, around: Surroundings, command: System)
    requires
        editor.prompt_type == PromptType::Closed,
        editor.quit_times == 0,
        command != System::Quit,
        command != System::Dismiss,
        !(command is Resize),
    ensures
        editor.commanded(around, Command::System(command)) == editor.system_commanded(
            around,
            command,
        ),
{
}

/// A search asks for the text to find, with an empty prompt.
pub proof fn law_search_is_asked_for(editor: EditorModel, around: Surroundings)
    requires
        editor.prompt_type == PromptType::Closed,
        editor.quit_times == 0,
    ensures
        editor.commanded(around, Command::System(System::Search)) == asking(
            EditorModel { prompt_type: PromptType::Search, ..editor },
            seq![
                ActionModel::Do(Step::EnterSearch),
                ActionModel::Prompt("Search (Esc to cancel, Arrows to navigate): "@),
                ActionModel::Do(Step::ClearPrompt),
            ],
        ),
{
    lemma_obeyed(editor, around, System::Search);
    reveal(EditorModel::system_commanded);
    reveal(EditorModel::emit);
    assert(editor.prompted(PromptType::Search).actions =~= editor.actions + seq![
        ActionModel::Do(Step::EnterSearch),
        ActionModel::Prompt("Search (Esc to cancel, Arrows to navigate): "@),
        ActionModel::Do(Step::ClearPrompt),
    ]);
}

/// A replacement asks for the text to find first, and searches for it.
pub proof fn law_replacement_is_asked_for(editor: EditorModel, around: Surroundings)
    requires
        editor.prompt_type == PromptType::Closed,
        editor.quit_times == 0,
    ensures
        editor.commanded(around, Command::System(System::Replace)) == asking(
            EditorModel { prompt_type: PromptType::ReplaceSearch, ..editor },
            seq![
                ActionModel::Do(Step::EnterSearch),
                ActionModel::Prompt("Replace (search): "@),
                ActionModel::Do(Step::ClearPrompt),
            ],
        ),
{
    lemma_obeyed(editor, around, System::Replace);
    reveal(EditorModel::system_commanded);
    reveal(EditorModel::emit);
    assert(editor.prompted(PromptType::ReplaceSearch).actions =~= editor.actions + seq![
        ActionModel::Do(Step::EnterSearch),
        ActionModel::Prompt("Replace (search): "@),
        ActionModel::Do(Step::ClearPrompt),
    ]);
}

/// A new file is asked its name.
pub proof fn law_file_name_is_asked_for(editor: EditorModel, around: Surroundings)
    requires
        editor.prompt_type == PromptType::Closed,
        editor.quit_times == 0,
    ensures
        editor.commanded(around, Command::System(System::CreateFile)) == asking(
            EditorModel { prompt_type: PromptType::CreateFile, ..editor },
            seq![
                ActionModel::Prompt("New file name: "@),
                ActionModel::Do(Step::ClearPrompt),
            ],
        ),
{
    lemma_obeyed(editor, around, System::CreateFile);
    reveal(EditorModel::system_commanded);
    reveal(EditorModel::emit);
    assert(editor.prompted(PromptType::CreateFile).actions =~= editor.actions + seq![
        ActionModel::Prompt("New file name: "@),
        ActionModel::Do(Step::ClearPrompt),
    ]);
}

/// A new folder is asked its name.
pub proof fn law_folder_name_is_asked_for(editor: EditorModel, around: Surroundings)
    requires
        editor.prompt_type == PromptType::Closed,
        editor.quit_times == 0,
    ensures
        editor.commanded(around, Command::System(System::CreateFolder)) == asking(
            EditorModel { prompt_type: PromptType::CreateFolder, ..editor },
            seq![
                ActionModel::Prompt("New folder name: "@),
                ActionModel::Do(Step::ClearPrompt),
            ],
        ),
{
    lemma_obeyed(editor, around, System::CreateFolder);
    reveal(EditorModel::system_commanded);
    reveal(EditorModel::emit);
    assert(editor.prompted(PromptType::CreateFolder).actions =~= editor.actions + seq![
        ActionModel::Prompt("New folder name: "@),
        ActionModel::Do(Step::ClearPrompt),
    ]);
}

/// A text without a file is asked the name to be saved under.
pub proof fn law_name_to_save_is_asked_for(editor: EditorModel, around: Surroundings)
    requires
        editor.prompt_type == PromptType::Closed,
        editor.quit_times == 0,
        !around.is_file_loaded,
    ensures
        editor.commanded(around, Command::System(System::Save)) == asking(
            EditorModel { prompt_type: PromptType::Save, ..editor },
            seq![
                ActionModel::Prompt("Save as: "@),
                ActionModel::Do(Step::ClearPrompt),
            ],
        ),
{
    lemma_obeyed(editor, around, System::Save);
    reveal(EditorModel::system_commanded);
    reveal(EditorModel::emit);
    assert(editor.prompted(PromptType::Save).actions =~= editor.actions + seq![
        ActionModel::Prompt("Save as: "@),
        ActionModel::Do(Step::ClearPrompt),
    ]);
}

/// A text that has a file is saved to it without a question.
pub proof fn law_saved_without_a_question(editor: EditorModel, around: Surroundings)
    requires
        editor.prompt_type == PromptType::Closed,
        editor.quit_times == 0,
        around.is_file_loaded,
    ensures
        editor.commanded(around, Command::System(System::Save)) == asking(
            editor,
            seq![ActionModel::Do(Step::Save)],
        ),
{
    lemma_obeyed(editor, around, System::Save);
    reveal(EditorModel::system_commanded);
    reveal(EditorModel::emit);
    assert(editor.step(Step::Save).actions =~= editor.actions + seq![ActionModel::Do(Step::Save)]);
}

/// After a warning before quitting, any other command does what it does without one, once the warning
/// is wiped away.
pub proof fn law_warning_wiped_away(editor: EditorModel, around: Surroundings, command: Command)
    requires
        editor.prompt_type == PromptType::Closed,
        editor.quit_times > 0,
        command != Command::System(System::Quit),
        !(command matches Command::System(System::Resize(_))),
    ensures
        editor.commanded(around, command) == asking(
            EditorModel { quit_times: 0, ..editor },
            seq![ActionModel::Message(""@)],
        ).commanded(around, command),
{
    reveal(EditorModel::emit);
    let wiped = asking(
        EditorModel { quit_times: 0, ..editor },
        seq![ActionModel::Message(""@)],
    );
    assert(editor.quit_forgotten().actions =~= wiped.actions);
}

/// The first command to quit a text with unsaved changes says how often it takes.
pub proof fn law_warning_counts(editor: EditorModel, around: Surroundings)
    requires
        editor.prompt_type == PromptType::Closed,
        editor.quit_times == 0,
        around.is_modified,
    ensures
        editor.commanded(around, Command::System(System::Quit)) == asking(
            EditorModel { quit_times: 1, ..editor },
            seq![
                ActionModel::Message(
                    "WARNING! File has unsaved changes. Press Ctrl-Q 1 more times to quit."@,
                ),
            ],
        ),
{
    reveal(EditorModel::emit);
    reveal_strlit("WARNING! File has unsaved changes. Press Ctrl-Q ");
    reveal_strlit(" more times to quit.");
    reveal_strlit("WARNING! File has unsaved changes. Press Ctrl-Q 1 more times to quit.");
    let text = "WARNING! File has unsaved changes. Press Ctrl-Q "@ + decimal(1)
        + " more times to quit."@;
    assert(text
        =~= "WARNING! File has unsaved changes. Press Ctrl-Q 1 more times to quit."@);
    let after = editor.commanded(around, Command::System(System::Quit));
    assert(after.actions =~= editor.actions + seq![ActionModel::Message(text)]);
}

/// A command to quit that is obeyed changes nothing else.
pub proof fn law_quitting_changes_nothing_else(editor: EditorModel, around: Surroundings)
    requires
        editor.prompt_type == PromptType::Closed,
        !around.is_modified || editor.quit_times == 1,
    ensures
        editor.commanded(around, Command::System(System::Quit)) == (EditorModel {
            should_quit: true,
            ..editor
        }),
{
}

} // verus!
