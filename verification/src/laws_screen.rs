//! What holds of the screen: how it is divided, and what is drawn where.
use crate::action::{ActionModel, Step};
use crate::breakpoints::lines_in;
use crate::command::{Command, Position, Size, System};
use crate::components::components;
use crate::editor::{EditorModel, SidebarMode};
use crate::laws_prompts::asking;
use crate::layout::{Layout, layout_of};
use crate::prompt::PromptType;
use crate::screen::{Caret, DrawModel, debugger_lines, row_text};
use crate::surroundings::Surroundings;
use crate::text::{decimal, sidebar_row};
use vstd::prelude::*;

verus! {

/// The rows of the terminal pane where it is shown.
pub open spec fn terminal_part(editor: EditorModel, around: Surroundings) -> int {
    if editor.terminal_visible {
        around.terminal_rows as int
    } else {
        0
    }
}

/// The rows of the debug panel where a program is being debugged.
pub open spec fn debug_part(editor: EditorModel, around: Surroundings) -> int {
    if editor.debug_state.active {
        around.debug_panel_rows as int
    } else {
        0
    }
}

/// The columns of the sidebar where it is shown.
pub open spec fn sidebar_part(editor: EditorModel) -> int {
    if editor.sidebar_visible {
        24
    } else {
        0
    }
}

/// The rows that are left for the text view above the panes, the status bar and the last row.
pub open spec fn view_part(editor: EditorModel, around: Surroundings) -> int {
    let rest = editor.terminal_size.height - 2 - terminal_part(editor, around) - debug_part(
        editor,
        around,
    );
    if rest > 0 {
        rest
    } else {
        0
    }
}

/// How the screen of an editor is divided.
pub open spec fn layout_now(editor: EditorModel, around: Surroundings) -> Layout {
    layout_of(editor.terminal_size, editor.panes(around))
}

/// The screen is divided by rows among the text view, the debug panel, the terminal pane and the two
/// bars, and by columns among the sidebar and the rest.
pub proof fn law_division(editor: EditorModel, around: Surroundings)
    ensures
        ({
            let layout = layout_now(editor, around);
            let rest = editor.terminal_size.width - sidebar_part(editor);
            &&& layout.view.height == view_part(editor, around)
            &&& layout.debug_panel.height == debug_part(editor, around)
            &&& layout.terminal.height == terminal_part(editor, around)
            &&& layout.col_offset == sidebar_part(editor)
            &&& layout.view.width == (if rest > 0 {
                rest
            } else {
                0
            })
            &&& layout.debug_panel.width == layout.view.width
            &&& layout.terminal.width == layout.view.width
            &&& layout.bar.height == 1 && layout.bar.width == editor.terminal_size.width
            &&& layout.sidebar.width == 24
            &&& terminal_part(editor, around) + debug_part(editor, around) <= usize::MAX
                ==> layout.sidebar.height == view_part(editor, around) + terminal_part(
                editor,
                around,
            ) + debug_part(editor, around)
            &&& layout.shell_columns is Some == editor.terminal_visible
            &&& layout.shell_columns matches Some(columns) ==> columns == layout.view.width % 65536
        }),
{
}

/// A new size of the screen divides it for what is shown.
pub proof fn law_division_for_a_size(editor: EditorModel, around: Surroundings, size: Size)
    ensures
        editor.commanded(around, Command::System(System::Resize(size))) == asking(
            EditorModel { terminal_size: size, ..editor },
            seq![
                ActionModel::Do(
                    Step::ApplyLayout(
                        layout_now(EditorModel { terminal_size: size, ..editor }, around),
                    ),
                ),
            ],
        ),
{
    reveal(EditorModel::emit);
    let after = editor.commanded(around, Command::System(System::Resize(size)));
    assert(after.actions =~= editor.actions + seq![after.actions.last()]);
}

// ---------------------------------------------------------------------------------------------
// Drawing
// ---------------------------------------------------------------------------------------------
/// Whether there is a screen to draw on.
pub open spec fn has_screen(editor: EditorModel) -> bool {
    editor.terminal_size.height > 0 && editor.terminal_size.width > 0
}

/// The parts that a drawing is made of.
pub open spec fn drawn_parts(editor: EditorModel, around: Surroundings) -> Seq<Seq<DrawModel>> {
    let layout = layout_now(editor, around);
    seq![
        editor.drawing_begun(around),
        editor.bars_drawn(),
        editor.main_drawn(layout),
        editor.debug_panel_drawn(layout),
        editor.terminal_drawn(around, layout),
        EditorModel::drawing_ended(editor.caret(around, layout)),
    ]
}

proof fn lemma_in_joined(
    a: Seq<DrawModel>,
    b: Seq<DrawModel>,
    c: Seq<DrawModel>,
    d: Seq<DrawModel>,
    e: Seq<DrawModel>,
    f: Seq<DrawModel>,
    step: DrawModel,
)
    ensures
        (a + b + c + d + e + f).contains(step) == (a.contains(step) || b.contains(step)
            || c.contains(step) || d.contains(step) || e.contains(step) || f.contains(step)),
{
    lemma_in_two(a, b, step);
    lemma_in_two(a + b, c, step);
    lemma_in_two(a + b + c, d, step);
    lemma_in_two(a + b + c + d, e, step);
    lemma_in_two(a + b + c + d + e, f, step);
}

proof fn lemma_in_two(a: Seq<DrawModel>, b: Seq<DrawModel>, step: DrawModel)
    ensures
        (a + b).contains(step) == (a.contains(step) || b.contains(step)),
{
    if a.contains(step) {
        let i = choose|i: int| 0 <= i < a.len() && a[i] == step;
        assert((a + b)[i] == step);
    }
    if b.contains(step) {
        let i = choose|i: int| 0 <= i < b.len() && b[i] == step;
        assert((a + b)[a.len() + i] == step);
    }
    if (a + b).contains(step) {
        let i = choose|i: int| 0 <= i < (a + b).len() && (a + b)[i] == step;
        if i < a.len() {
            assert(a[i] == step);
        } else {
            assert(b[i - a.len()] == step);
        }
    }
}

proof fn lemma_drawn_in(editor: EditorModel, around: Surroundings, step: DrawModel)
    requires
        has_screen(editor),
    ensures
        ({
            let parts = drawn_parts(editor, around);
            editor.drawn(around).contains(step) == (parts[0].contains(step) || parts[1].contains(
                step,
            ) || parts[2].contains(step) || parts[3].contains(step) || parts[4].contains(step)
                || parts[5].contains(step))
        }),
{
    let parts = drawn_parts(editor, around);
    lemma_in_joined(parts[0], parts[1], parts[2], parts[3], parts[4], parts[5], step);
}

proof fn lemma_in_one(a: DrawModel, step: DrawModel)
    ensures
        seq![a].contains(step) == (step == a),
{
    assert(seq![a][0] == a);
}

proof fn lemma_main(editor: EditorModel, layout: Layout, step: DrawModel)
    ensures
        !(step is SidebarRow) ==> editor.main_drawn(layout).contains(step) == (layout.view.height > 0
            && (step is View || (step is Tree && editor.sidebar_visible && editor.sidebar_mode
            == SidebarMode::Explorer))),
{
    let main = editor.main_drawn(layout);
    let side = editor.sidebar_drawn(layout);
    if layout.view.height > 0 {
        assert(main[side.len() as int] == DrawModel::View);
        if editor.sidebar_visible && editor.sidebar_mode == SidebarMode::Explorer {
            assert(main[0] == DrawModel::Tree);
        }
        if main.contains(step) {
            let i = choose|i: int| 0 <= i < main.len() && main[i] == step;
            if i < side.len() {
                assert(side[i] == step);
            }
        }
    }
}

proof fn lemma_bars(editor: EditorModel, step: DrawModel)
    requires
        has_screen(editor),
    ensures
        editor.bars_drawn().contains(step) == (step == (if editor.prompt_type
            == PromptType::Closed {
            DrawModel::MessageBar((editor.terminal_size.height - 1) as usize)
        } else {
            DrawModel::Prompt((editor.terminal_size.height - 1) as usize)
        }) || (editor.terminal_size.height > 1 && step == DrawModel::StatusBar(
            (editor.terminal_size.height - 2) as usize,
        ))),
{
    let bars = editor.bars_drawn();
    let height = editor.terminal_size.height;
    if editor.prompt_type == PromptType::Closed {
        assert(bars[0] == DrawModel::MessageBar((height - 1) as usize));
    } else {
        assert(bars[0] == DrawModel::Prompt((height - 1) as usize));
    }
    if height > 1 {
        assert(bars[1] == DrawModel::StatusBar((height - 2) as usize));
    }
}

proof fn lemma_begun_and_ended(editor: EditorModel, around: Surroundings, step: DrawModel)
    ensures
        editor.drawing_begun(around).contains(step) ==> step is MarkBreakpoints || step is BeginUpdate
            || step is HideCaret,
        EditorModel::drawing_ended(editor.caret(around, layout_now(editor, around))).contains(step)
            ==> step is PlaceCaret || step is ShowCaret || step is EndUpdate || step is Flush,
{
}

/// The text view, the debug panel and the terminal pane lie below one another without a gap. The debug
/// panel begins in the row behind the text view, and the terminal pane in the row behind the debug
/// panel and beside the sidebar. Each is drawn where it is shown, and nowhere else.
pub proof fn law_panes_below_one_another(editor: EditorModel, around: Surroundings, step: DrawModel)
    requires
        has_screen(editor),
    ensures
        ({
            let drawn = editor.drawn(around).contains(step);
            &&& step is DebugPanel ==> drawn == (debug_part(editor, around) > 0 && step->DebugPanel_0
                == view_part(editor, around))
            &&& step is Terminal ==> drawn == (editor.terminal_visible
                && around.out_of_date.terminal && step->Terminal_0.row == view_part(editor, around)
                + debug_part(editor, around) && step->Terminal_0.col == sidebar_part(editor))
            &&& step is View ==> drawn == (view_part(editor, around) > 0)
            &&& step is Tree ==> drawn == (view_part(editor, around) > 0 && editor.sidebar_visible
                && editor.sidebar_mode == SidebarMode::Explorer)
        }),
{
    let layout = layout_now(editor, around);
    law_division(editor, around);
    lemma_drawn_in(editor, around, step);
    lemma_begun_and_ended(editor, around, step);
    lemma_bars(editor, step);
    lemma_main(editor, layout, step);
    lemma_in_one(DrawModel::DebugPanel(layout.view.height), step);
    lemma_in_one(DrawModel::Terminal(EditorModel::terminal_place(layout)), step);
    assert(!Seq::<DrawModel>::empty().contains(step));
}

/// On a screen that is high enough, the terminal pane ends in the row above the status bar, and the
/// status bar is drawn in the last row but one.
pub proof fn law_panes_reach_the_status_bar(editor: EditorModel, around: Surroundings)
    requires
        2 + terminal_part(editor, around) + debug_part(editor, around)
            <= editor.terminal_size.height,
    ensures
        view_part(editor, around) + debug_part(editor, around) + terminal_part(editor, around)
            == editor.terminal_size.height - 2,
{
}

/// The last row holds the prompt while a question is asked and else the message bar; the row above it
/// holds the status bar. Nothing of these is drawn anywhere else.
pub proof fn law_bars_in_the_last_rows(editor: EditorModel, around: Surroundings, step: DrawModel)
    requires
        has_screen(editor),
    ensures
        ({
            let drawn = editor.drawn(around).contains(step);
            let asked = editor.prompt_type != PromptType::Closed;
            &&& step is MessageBar ==> drawn == (!asked && step->MessageBar_0
                == editor.terminal_size.height - 1)
            &&& step is Prompt ==> drawn == (asked && step->Prompt_0 == editor.terminal_size.height
                - 1)
            &&& step is StatusBar ==> drawn == (editor.terminal_size.height > 1 && step->StatusBar_0
                == editor.terminal_size.height - 2)
        }),
{
    let layout = layout_now(editor, around);
    lemma_drawn_in(editor, around, step);
    lemma_begun_and_ended(editor, around, step);
    lemma_bars(editor, step);
    lemma_main(editor, layout, step);
    lemma_in_one(DrawModel::DebugPanel(layout.view.height), step);
    lemma_in_one(DrawModel::Terminal(EditorModel::terminal_place(layout)), step);
    assert(!Seq::<DrawModel>::empty().contains(step));
}

/// Before anything is drawn, the text view is told the breakpoints of the open file. In the end the
/// caret is placed where the keys go: in the prompt, in the file tree, in the shell or in the text.
pub proof fn law_first_and_last_steps(editor: EditorModel, around: Surroundings)
    requires
        has_screen(editor),
    ensures
        ({
            let drawn = editor.drawn(around);
            let count = drawn.len() as int;
            &&& drawn[0] == DrawModel::MarkBreakpoints(
                match around.file {
                    Some(open) => lines_in(
                        editor.breakpoints,
                        components(open.path@, around.path_style),
                    ),
                    None => Seq::empty(),
                },
            )
            &&& drawn[count - 4] == DrawModel::PlaceCaret(
                if editor.prompt_type != PromptType::Closed {
                    Caret::At(
                        Position {
                            row: (editor.terminal_size.height - 1) as usize,
                            col: around.prompt_caret_col,
                        },
                    )
                } else if editor.sidebar_visible && editor.sidebar_focus {
                    if editor.sidebar_mode == SidebarMode::Explorer {
                        Caret::InTree
                    } else {
                        Caret::At(Position { row: 0, col: 0 })
                    }
                } else if editor.terminal_visible && editor.terminal_focus {
                    Caret::InTerminal(
                        Position {
                            row: (view_part(editor, around) + debug_part(editor, around)) as usize,
                            col: sidebar_part(editor) as usize,
                        },
                    )
                } else {
                    Caret::InView
                },
            )
        }),
{
    law_division(editor, around);
}

/// A row of the sidebar column is as wide as the column and ends in its border. A text that fits begins
/// it and is filled up with spaces; one that does not is cut short, which three dots in one show.
pub proof fn law_row_of_the_column(text: Seq<char>)
    ensures
        sidebar_row(text).len() == 24,
        sidebar_row(text)[23] == '│',
        text.len() <= 23 ==> sidebar_row(text).take(text.len() as int) == text && forall|i: int|
            text.len() <= i < 23 ==> #[trigger] sidebar_row(text)[i] == ' ',
        text.len() > 23 ==> sidebar_row(text).take(22) == text.take(22) && sidebar_row(text)[22]
            == '…',
{
    if text.len() <= 23 {
        assert(sidebar_row(text).take(text.len() as int) =~= text);
    } else {
        assert(sidebar_row(text).take(22) =~= text.take(22));
    }
}

/// The lines of the debugger's summary.
pub open spec fn summary_line(editor: EditorModel, row: int) -> Seq<char> {
    let debug = editor.debug_state;
    if row == 0 {
        " Debugger"@
    } else if row == 1 {
        " Status: "@ + if debug.active {
            "active"@
        } else {
            "inactive"@
        }
    } else if row == 2 {
        " Thread: "@ + match debug.current_thread_id {
            Some(id) => decimal(id as int),
            None => "-"@,
        }
    } else if row == 3 {
        " Frames: "@ + decimal(debug.stack_frames.len() as int)
    } else if row == 4 {
        " Vars: "@ + decimal(debug.variables.len() as int)
    } else if row == 5 && debug.stack_frames.len() > 0 {
        " --- top frame ---"@
    } else if row == 6 && debug.stack_frames.len() > 0 {
        " "@ + debug.stack_frames[0].name
    } else if row == 7 && debug.stack_frames.len() > 0 {
        " "@ + debug.stack_frames[0].source_path + ":"@ + decimal(debug.stack_frames[0].line as int)
    } else {
        Seq::empty()
    }
}

/// The summary fills the sidebar from the first row on, a line in each row and nothing behind the last
/// line, as far down as the text view and the panes reach.
pub proof fn law_summary_fills_the_sidebar(editor: EditorModel, around: Surroundings, row: int)
    requires
        has_screen(editor),
        editor.sidebar_visible,
        editor.sidebar_mode == SidebarMode::Debugger,
        view_part(editor, around) > 0,
        0 <= row < view_part(editor, around) + terminal_part(editor, around) + debug_part(
            editor,
            around,
        ),
    ensures
        editor.drawn(around).contains(
            DrawModel::SidebarRow {
                row: row as usize,
                text: sidebar_row(summary_line(editor, row)),
            },
        ),
{
    let layout = layout_now(editor, around);
    law_division(editor, around);
    let step = DrawModel::SidebarRow {
        row: row as usize,
        text: sidebar_row(summary_line(editor, row)),
    };
    lemma_drawn_in(editor, around, step);
    let lines = debugger_lines(editor.debug_state);
    assert(row_text(lines, row) == summary_line(editor, row));
    let main = editor.main_drawn(layout);
    assert(main[row] == step);
}

/// No row of the sidebar is drawn where its summary is not shown, or outside the sidebar.
pub proof fn law_no_other_sidebar_rows(
    editor: EditorModel,
    around: Surroundings,
    row: usize,
    text: Seq<char>,
)
    requires
        has_screen(editor),
        editor.drawn(around).contains(DrawModel::SidebarRow { row, text }),
    ensures
        editor.sidebar_visible && editor.sidebar_mode == SidebarMode::Debugger,
        view_part(editor, around) > 0,
        row < view_part(editor, around) + terminal_part(editor, around) + debug_part(
            editor,
            around,
        ),
        text == sidebar_row(summary_line(editor, row as int)),
{
    let layout = layout_now(editor, around);
    law_division(editor, around);
    let step = DrawModel::SidebarRow { row, text };
    lemma_drawn_in(editor, around, step);
    lemma_begun_and_ended(editor, around, step);
    lemma_bars(editor, step);
    lemma_in_one(DrawModel::DebugPanel(layout.view.height), step);
    lemma_in_one(DrawModel::Terminal(EditorModel::terminal_place(layout)), step);
    assert(!Seq::<DrawModel>::empty().contains(step));
    let main = editor.main_drawn(layout);
    assert(main.contains(step));
    let i = choose|i: int| 0 <= i < main.len() && main[i] == step;
    let side = editor.sidebar_drawn(layout);
    assert(i < side.len());
    assert(side[i] == step);
    let lines = debugger_lines(editor.debug_state);
    assert(row_text(lines, i) == summary_line(editor, i));
}

/// The screen is drawn exactly where a part of it that is shown is out of date, and the program ends
/// exactly where the editor is to be quit.
pub proof fn law_drawn_where_needed(editor: EditorModel, around: Surroundings)
    ensures
        ({
            let old_parts = around.out_of_date;
            let needed = old_parts.view || old_parts.sidebar || old_parts.status_bar
                || old_parts.message_bar || old_parts.command_bar || old_parts.debug_panel || (
            old_parts.terminal && editor.terminal_visible);
            &&& editor.out_of_date(old_parts) == needed
            &&& needed ==> editor.round_drawn(around) == editor.drawn(around)
            &&& !needed ==> editor.round_drawn(around).len() == 0
        }),
{
}

/// The bar in the last row, and the status bar above it where there is a row for it.
pub open spec fn bars_part(editor: EditorModel) -> Seq<DrawModel> {
    let last = editor.terminal_size.height - 1;
    let bar = if editor.prompt_type == PromptType::Closed {
        DrawModel::MessageBar(last as usize)
    } else {
        DrawModel::Prompt(last as usize)
    };
    if last > 0 {
        seq![bar, DrawModel::StatusBar((last - 1) as usize)]
    } else {
        seq![bar]
    }
}

/// The rows of the summary, as many as lie above the status bar.
pub open spec fn summary_part(editor: EditorModel, around: Surroundings) -> Seq<DrawModel> {
    let rows = view_part(editor, around) + terminal_part(editor, around) + debug_part(
        editor,
        around,
    );
    Seq::new(
        (if rows <= usize::MAX {
            rows
        } else {
            usize::MAX as int
        }) as nat,
        |row: int|
            DrawModel::SidebarRow {
                row: row as usize,
                text: sidebar_row(summary_line(editor, row)),
            },
    )
}

/// The sidebar where it is shown, and the text.
pub open spec fn text_part(editor: EditorModel, around: Surroundings) -> Seq<DrawModel> {
    if view_part(editor, around) == 0 {
        Seq::empty()
    } else if !editor.sidebar_visible {
        seq![DrawModel::View]
    } else if editor.sidebar_mode == SidebarMode::Explorer {
        seq![DrawModel::Tree, DrawModel::View]
    } else {
        summary_part(editor, around).push(DrawModel::View)
    }
}

/// The debug panel and the terminal where they are shown.
pub open spec fn panes_part(editor: EditorModel, around: Surroundings) -> Seq<DrawModel> {
    let panel = seq![DrawModel::DebugPanel(view_part(editor, around) as usize)];
    let place = Position {
        row: (view_part(editor, around) + debug_part(editor, around)) as usize,
        col: sidebar_part(editor) as usize,
    };
    let terminal = seq![DrawModel::Terminal(place)];
    let shown = editor.terminal_visible && around.out_of_date.terminal;
    if debug_part(editor, around) > 0 && shown {
        panel + terminal
    } else if debug_part(editor, around) > 0 {
        panel
    } else if shown {
        terminal
    } else {
        Seq::empty()
    }
}

proof fn lemma_text_part(editor: EditorModel, around: Surroundings)
    ensures
        editor.main_drawn(layout_now(editor, around)) == text_part(editor, around),
{
    let layout = layout_now(editor, around);
    law_division(editor, around);
    let sidebar = editor.sidebar_drawn(layout);
    if editor.sidebar_visible && editor.sidebar_mode != SidebarMode::Explorer {
        let shown = summary_part(editor, around);
        assert(sidebar.len() == shown.len());
        assert forall|row: int| 0 <= row < shown.len() implies #[trigger] sidebar[row]
            == shown[row] by {
            assert(row_text(debugger_lines(editor.debug_state), row) == summary_line(editor, row));
        }
        assert(sidebar =~= shown);
    } else if editor.sidebar_visible {
        assert(sidebar.push(DrawModel::View) =~= seq![DrawModel::Tree, DrawModel::View]);
    } else {
        assert(sidebar.push(DrawModel::View) =~= seq![DrawModel::View]);
    }
}

proof fn lemma_panes_part(editor: EditorModel, around: Surroundings)
    ensures
        ({
            let layout = layout_now(editor, around);
            editor.debug_panel_drawn(layout) + editor.terminal_drawn(around, layout) == panes_part(
                editor,
                around,
            )
        }),
{
    let layout = layout_now(editor, around);
    law_division(editor, around);
    assert(editor.debug_panel_drawn(layout) + editor.terminal_drawn(around, layout) =~= panes_part(
        editor,
        around,
    ));
}

/// What is drawn comes in one order, each thing once: the bar in the last row, the status bar, the
/// sidebar, the text, the debug panel and the terminal, between the three steps that begin a drawing
/// and the four that end it.
pub proof fn law_drawn_in_order(editor: EditorModel, around: Surroundings)
    requires
        has_screen(editor),
    ensures
        editor.drawn(around).subrange(3, editor.drawn(around).len() - 4) == bars_part(editor)
            + text_part(editor, around) + panes_part(editor, around),
{
    let layout = layout_now(editor, around);
    lemma_text_part(editor, around);
    lemma_panes_part(editor, around);
    lemma_between(
        editor.drawing_begun(around),
        editor.bars_drawn(),
        editor.main_drawn(layout),
        editor.debug_panel_drawn(layout),
        editor.terminal_drawn(around, layout),
        EditorModel::drawing_ended(editor.caret(around, layout)),
    );
    assert(editor.bars_drawn() =~= bars_part(editor));
}

proof fn lemma_between(
    first: Seq<DrawModel>,
    a: Seq<DrawModel>,
    b: Seq<DrawModel>,
    c: Seq<DrawModel>,
    d: Seq<DrawModel>,
    last: Seq<DrawModel>,
)
    ensures
        ({
            let whole = first + a + b + c + d + last;
            whole.subrange(first.len() as int, whole.len() - last.len()) == a + b + (c + d)
        }),
{
    let whole = first + a + b + c + d + last;
    assert(whole.subrange(first.len() as int, whole.len() - last.len()) =~= a + b + (c + d));
}

} // verus!
