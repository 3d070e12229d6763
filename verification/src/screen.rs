//! What is drawn on the screen, and where the caret goes.
use crate::breakpoints::{breakpoints_wf, lines_in};
use crate::command::Position;
use crate::components::components;
use crate::debug_state::{DebugModel, DebugState, FrameModel, texts_of};
use crate::editor::{Editor, EditorModel, SidebarMode};
use crate::layout::{Layout, divide, layout_of};
use crate::surroundings::{OutOfDate, Surroundings};
use crate::text::{
    concat2, concat3, count_text, decimal, format_sidebar_column_line, int_text, sidebar_row,
};
use vstd::prelude::*;

verus! {

/// Where the caret goes.
#[derive(Clone, Copy, PartialEq, Eq, Structural, Debug)]
pub enum Caret {
    At(Position),
    /// To the entry that is selected in the file tree, which begins in the first row.
    InTree,
    /// To the cursor of the shell, whose pane begins at a place.
    InTerminal(Position),
    InView,
}

/// One step of drawing the screen.
#[derive(Debug, PartialEq)]
pub enum DrawStep {
    /// Tell the text view which lines have breakpoints.
    MarkBreakpoints(Vec<i64>),
    BeginUpdate,
    HideCaret,
    /// Draw the prompt in a row.
    Prompt(usize),
    /// Draw the message bar in a row.
    MessageBar(usize),
    /// Draw the status bar in a row.
    StatusBar(usize),
    /// Draw the file tree from the first row on.
    Tree,
    /// Print a text at the beginning of a row, and leave the rest of the row as it is.
    SidebarRow { row: usize, text: String },
    /// Draw the text view from the first row on.
    View,
    /// Draw the debug panel from a row on.
    DebugPanel(usize),
    /// Draw the terminal pane from a place on.
    Terminal(Position),
    PlaceCaret(Caret),
    ShowCaret,
    EndUpdate,
    /// Write out all that has been drawn.
    Flush,
}

pub enum DrawModel {
    MarkBreakpoints(Seq<i64>),
    BeginUpdate,
    HideCaret,
    Prompt(usize),
    MessageBar(usize),
    StatusBar(usize),
    Tree,
    SidebarRow { row: usize, text: Seq<char> },
    View,
    DebugPanel(usize),
    Terminal(Position),
    PlaceCaret(Caret),
    ShowCaret,
    EndUpdate,
    Flush,
}

impl View for DrawStep {
    type V = DrawModel;

    open spec fn view(&self) -> DrawModel {
        match self {
            DrawStep::MarkBreakpoints(lines) => DrawModel::MarkBreakpoints(lines@),
            DrawStep::BeginUpdate => DrawModel::BeginUpdate,
            DrawStep::HideCaret => DrawModel::HideCaret,
            DrawStep::Prompt(row) => DrawModel::Prompt(*row),
            DrawStep::MessageBar(row) => DrawModel::MessageBar(*row),
            DrawStep::StatusBar(row) => DrawModel::StatusBar(*row),
            DrawStep::Tree => DrawModel::Tree,
            DrawStep::SidebarRow { row, text } => DrawModel::SidebarRow { row: *row, text: text@ },
            DrawStep::View => DrawModel::View,
            DrawStep::DebugPanel(row) => DrawModel::DebugPanel(*row),
            DrawStep::Terminal(place) => DrawModel::Terminal(*place),
            DrawStep::PlaceCaret(caret) => DrawModel::PlaceCaret(*caret),
            DrawStep::ShowCaret => DrawModel::ShowCaret,
            DrawStep::EndUpdate => DrawModel::EndUpdate,
            DrawStep::Flush => DrawModel::Flush,
        }
    }
}

pub open spec fn draw_models(steps: Seq<DrawStep>) -> Seq<DrawModel> {
    steps.map_values(|step: DrawStep| step@)
}

fn add_step(steps: &mut Vec<DrawStep>, step: DrawStep)
    ensures
        draw_models(final(steps)@) == draw_models(old(steps)@).push(step@),
{
    let ghost before = steps@;
    steps.push(step);
    assert(draw_models(steps@) =~= draw_models(before).push(step@));
}

// ---------------------------------------------------------------------------------------------
// The debugger's summary
// ---------------------------------------------------------------------------------------------
/// The lines on the frame that the program is in.
pub open spec fn top_frame_lines(frames: Seq<FrameModel>) -> Seq<Seq<char>> {
    if frames.len() > 0 {
        seq![
            " --- top frame ---"@,
            " "@ + frames[0].name,
            " "@ + frames[0].source_path + ":"@ + decimal(frames[0].line as int),
        ]
    } else {
        Seq::empty()
    }
}

/// The lines of the debugger's summary.
pub open spec fn debugger_lines(debug: DebugModel) -> Seq<Seq<char>> {
    seq![
        " Debugger"@,
        " Status: "@ + if debug.active {
            "active"@
        } else {
            "inactive"@
        },
        " Thread: "@ + match debug.current_thread_id {
            Some(id) => decimal(id as int),
            None => "-"@,
        },
        " Frames: "@ + decimal(debug.stack_frames.len() as int),
        " Vars: "@ + decimal(debug.variables.len() as int),
    ] + top_frame_lines(debug.stack_frames)
}

/// The text of a row: a line, or nothing behind the last one.
pub open spec fn row_text(lines: Seq<Seq<char>>, row: int) -> Seq<char> {
    if row < lines.len() {
        lines[row]
    } else {
        Seq::empty()
    }
}

/// The rows of the sidebar column, each filled up to its width.
pub open spec fn summary_rows(lines: Seq<Seq<char>>, height: nat) -> Seq<DrawModel> {
    Seq::new(
        height,
        |row: int|
            DrawModel::SidebarRow { row: row as usize, text: sidebar_row(row_text(lines, row)) },
    )
}

fn list_debugger_lines(debug: &DebugState) -> (lines: Vec<String>)
    ensures
        texts_of(lines@) == debugger_lines(debug@),
{
    let mut lines: Vec<String> = Vec::new();
    lines.push(" Debugger".to_owned());
    lines.push(
        concat2(
            " Status: ",
            if debug.is_active() {
                "active"
            } else {
                "inactive"
            },
        ),
    );
    let thread: String = match debug.current_thread_id() {
        Some(id) => int_text(id),
        None => "-".to_owned(),
    };
    lines.push(concat2(" Thread: ", thread.as_str()));
    let frames = debug.stack_frames();
    let frame_count = count_text(frames.len());
    lines.push(concat2(" Frames: ", frame_count.as_str()));
    let variable_count = count_text(debug.variables().len());
    lines.push(concat2(" Vars: ", variable_count.as_str()));
    if frames.len() > 0 {
        let frame = &frames[0];
        let place = concat2(" ", frame.source_path.as_str());
        let line = int_text(frame.line);
        assert(frame@ == debug@.stack_frames[0]);
        lines.push(" --- top frame ---".to_owned());
        lines.push(concat2(" ", frame.name.as_str()));
        lines.push(concat3(place.as_str(), ":", line.as_str()));
    }
    assert(texts_of(lines@) =~= debugger_lines(debug@));
    lines
}

fn render_debugger_sidebar(steps: &mut Vec<DrawStep>, debug: &DebugState, total_height: usize)
    ensures
        draw_models(final(steps)@) == draw_models(old(steps)@) + summary_rows(
            debugger_lines(debug@),
            total_height as nat,
        ),
{
    let lines = list_debugger_lines(debug);
    let ghost texts = debugger_lines(debug@);
    let ghost before = draw_models(steps@);
    let mut row: usize = 0;
    assert(before + summary_rows(texts, 0) =~= before);
    while row < total_height
        invariant
            row <= total_height,
            texts == texts_of(lines@),
            draw_models(steps@) == before + summary_rows(texts, row as nat),
        decreases total_height - row,
    {
        let text: String = if row < lines.len() {
            format_sidebar_column_line(lines[row].as_str())
        } else {
            format_sidebar_column_line("")
        };
        proof {
            reveal_strlit("");
            assert(""@ =~= Seq::<char>::empty());
            assert(text@ == sidebar_row(row_text(texts, row as int)));
        }
        add_step(steps, DrawStep::SidebarRow { row, text });
        row += 1;
        assert((before + summary_rows(texts, (row - 1) as nat)).push(
            DrawModel::SidebarRow {
                row: (row - 1) as usize,
                text: sidebar_row(row_text(texts, row - 1)),
            },
        ) =~= before + summary_rows(texts, row as nat));
    }
}

// ---------------------------------------------------------------------------------------------
// The screen
// ---------------------------------------------------------------------------------------------
impl EditorModel {
    /// Whether a part that is shown is out of date.
    pub open spec fn out_of_date(self, flags: OutOfDate) -> bool {
        flags.view || flags.sidebar || flags.status_bar || flags.message_bar || flags.command_bar
            || flags.debug_panel || (self.terminal_visible && flags.terminal)
    }

    /// The breakpoints in the open file.
    pub open spec fn marked_lines(self, around: Surroundings) -> Seq<i64> {
        match around.file {
            Some(open) => lines_in(self.breakpoints, components(open.path@, around.path_style)),
            None => Seq::empty(),
        }
    }

    /// The last row holds the prompt while a question is asked, and else the message bar. The row
    /// above it holds the status bar.
    pub open spec fn bars_drawn(self) -> Seq<DrawModel> {
        let height = self.terminal_size.height;
        let bottom = if self.prompt_type is Closed {
            DrawModel::MessageBar((height - 1) as usize)
        } else {
            DrawModel::Prompt((height - 1) as usize)
        };
        if height > 1 {
            seq![bottom, DrawModel::StatusBar((height - 2) as usize)]
        } else {
            seq![bottom]
        }
    }

    pub open spec fn sidebar_drawn(self, layout: Layout) -> Seq<DrawModel> {
        if !self.sidebar_visible {
            Seq::empty()
        } else if self.sidebar_mode == SidebarMode::Explorer {
            seq![DrawModel::Tree]
        } else {
            summary_rows(debugger_lines(self.debug_state), layout.sidebar.height as nat)
        }
    }

    /// The sidebar and the text view are drawn where there is room for the text view.
    pub open spec fn main_drawn(self, layout: Layout) -> Seq<DrawModel> {
        if layout.view.height > 0 {
            self.sidebar_drawn(layout).push(DrawModel::View)
        } else {
            Seq::empty()
        }
    }

    /// Where the terminal pane begins: below the debug panel and beside the sidebar.
    pub open spec fn terminal_place(layout: Layout) -> Position {
        Position {
            row: (layout.view.height + layout.debug_panel.height) as usize,
            col: layout.col_offset,
        }
    }

    pub open spec fn debug_panel_drawn(self, layout: Layout) -> Seq<DrawModel> {
        if layout.debug_panel.height > 0 {
            seq![DrawModel::DebugPanel(layout.view.height)]
        } else {
            Seq::empty()
        }
    }

    pub open spec fn terminal_drawn(self, around: Surroundings, layout: Layout) -> Seq<DrawModel> {
        if self.terminal_visible && around.out_of_date.terminal {
            seq![DrawModel::Terminal(EditorModel::terminal_place(layout))]
        } else {
            Seq::empty()
        }
    }

    /// The caret goes to the prompt while a question is asked, else to the file tree, the shell or
    /// the text view.
    pub open spec fn caret(self, around: Surroundings, layout: Layout) -> Caret {
        if !(self.prompt_type is Closed) {
            Caret::At(
                Position {
                    row: (self.terminal_size.height - 1) as usize,
                    col: around.prompt_caret_col,
                },
            )
        } else if self.tree_has_keyboard() {
            if self.sidebar_mode == SidebarMode::Explorer {
                Caret::InTree
            } else {
                Caret::At(Position { row: 0, col: 0 })
            }
        } else if self.shell_has_keyboard() {
            Caret::InTerminal(EditorModel::terminal_place(layout))
        } else {
            Caret::InView
        }
    }

    pub open spec fn drawing_begun(self, around: Surroundings) -> Seq<DrawModel> {
        seq![
            DrawModel::MarkBreakpoints(self.marked_lines(around)),
            DrawModel::BeginUpdate,
            DrawModel::HideCaret,
        ]
    }

    pub open spec fn drawing_ended(caret: Caret) -> Seq<DrawModel> {
        seq![
            DrawModel::PlaceCaret(caret),
            DrawModel::ShowCaret,
            DrawModel::EndUpdate,
            DrawModel::Flush,
        ]
    }

    /// How the screen is drawn. A screen without room is not.
    pub open spec fn drawn(self, around: Surroundings) -> Seq<DrawModel> {
        let layout = layout_of(self.terminal_size, self.panes(around));
        if self.terminal_size.height == 0 || self.terminal_size.width == 0 {
            Seq::empty()
        } else {
            self.drawing_begun(around) + self.bars_drawn() + self.main_drawn(layout)
                + self.debug_panel_drawn(layout) + self.terminal_drawn(around, layout)
                + EditorModel::drawing_ended(self.caret(around, layout))
        }
    }
}

/// What a round of the program begins with: what is drawn, and whether the program then ends instead
/// of waiting for input.
pub struct Round {
    pub drawing: Vec<DrawStep>,
    pub leaves: bool,
}

impl EditorModel {
    /// What is drawn in a round: the screen, if a part that is shown is out of date.
    pub open spec fn round_drawn(self, around: Surroundings) -> Seq<DrawModel> {
        if self.out_of_date(around.out_of_date) {
            self.drawn(around)
        } else {
            Seq::empty()
        }
    }
}

impl Editor {
    /// Whether a part that is shown is out of date.
    pub fn needs_refresh(&self, around: &Surroundings) -> (needed: bool)
        ensures
            needed == self@.out_of_date(around.out_of_date),
    {
        let flags = &around.out_of_date;
        flags.view || flags.sidebar || flags.status_bar || flags.message_bar || flags.command_bar
            || flags.debug_panel || (self.terminal_visible && flags.terminal)
    }

    fn sync_view_breakpoints(&self, around: &Surroundings) -> (lines: Vec<i64>)
        requires
            breakpoints_wf(self@.breakpoints),
        ensures
            lines@ == self@.marked_lines(*around),
    {
        match &around.file {
            Some(open) => self.breakpoints.lines(open.path.as_str(), around.path_style),
            None => Vec::new(),
        }
    }

    fn draw_bars(&self, steps: &mut Vec<DrawStep>)
        requires
            self@.terminal_size.height > 0,
        ensures
            draw_models(final(steps)@) == draw_models(old(steps)@) + self@.bars_drawn(),
    {
        let height: usize = self.terminal_size.height;
        if self.in_prompt() {
            add_step(steps, DrawStep::Prompt(height - 1));
        } else {
            add_step(steps, DrawStep::MessageBar(height - 1));
        }
        if height > 1 {
            add_step(steps, DrawStep::StatusBar(height - 2));
        }
        assert(draw_models(steps@) =~= draw_models(old(steps)@) + self@.bars_drawn());
    }

    fn draw_main(&self, steps: &mut Vec<DrawStep>, layout: &Layout)
        ensures
            draw_models(final(steps)@) == draw_models(old(steps)@) + self@.main_drawn(*layout),
    {
        if layout.view.height > 0 {
            if self.sidebar_visible {
                if self.sidebar_mode == SidebarMode::Explorer {
                    add_step(steps, DrawStep::Tree);
                } else {
                    render_debugger_sidebar(steps, &self.debug_state, layout.sidebar.height);
                }
            }
            assert(draw_models(steps@) =~= draw_models(old(steps)@) + self@.sidebar_drawn(*layout));
            add_step(steps, DrawStep::View);
        }
        assert(draw_models(steps@) =~= draw_models(old(steps)@) + self@.main_drawn(*layout));
    }

    fn draw_panes(&self, steps: &mut Vec<DrawStep>, around: &Surroundings, layout: &Layout)
        requires
            layout.view.height + layout.debug_panel.height <= usize::MAX,
        ensures
            draw_models(final(steps)@) == draw_models(old(steps)@) + self@.debug_panel_drawn(
                *layout,
            ) + self@.terminal_drawn(*around, *layout),
    {
        if layout.debug_panel.height > 0 {
            add_step(steps, DrawStep::DebugPanel(layout.view.height));
        }
        assert(draw_models(steps@) =~= draw_models(old(steps)@) + self@.debug_panel_drawn(*layout));
        if self.terminal_visible && around.out_of_date.terminal {
            let place = Position {
                row: layout.view.height + layout.debug_panel.height,
                col: layout.col_offset,
            };
            add_step(steps, DrawStep::Terminal(place));
        }
        assert(draw_models(steps@) =~= draw_models(old(steps)@) + self@.debug_panel_drawn(*layout)
            + self@.terminal_drawn(*around, *layout));
    }

    fn place_caret(&self, around: &Surroundings, layout: &Layout) -> (caret: Caret)
        requires
            self@.terminal_size.height > 0,
            layout.view.height + layout.debug_panel.height <= usize::MAX,
        ensures
            caret == self@.caret(*around, *layout),
    {
        if self.in_prompt() {
            Caret::At(
                Position { row: self.terminal_size.height - 1, col: around.prompt_caret_col },
            )
        } else if self.sidebar_visible && self.sidebar_focus {
            if self.sidebar_mode == SidebarMode::Explorer {
                Caret::InTree
            } else {
                Caret::At(Position { row: 0, col: 0 })
            }
        } else if self.terminal_focus && self.terminal_visible {
            Caret::InTerminal(
                Position {
                    row: layout.view.height + layout.debug_panel.height,
                    col: layout.col_offset,
                },
            )
        } else {
            Caret::InView
        }
    }

    fn begin_drawing(&self, around: &Surroundings) -> (steps: Vec<DrawStep>)
        requires
            breakpoints_wf(self@.breakpoints),
        ensures
            draw_models(steps@) == self@.drawing_begun(*around),
    {
        let mut steps: Vec<DrawStep> = Vec::new();
        add_step(&mut steps, DrawStep::MarkBreakpoints(self.sync_view_breakpoints(around)));
        add_step(&mut steps, DrawStep::BeginUpdate);
        add_step(&mut steps, DrawStep::HideCaret);
        assert(draw_models(steps@) =~= self@.drawing_begun(*around));
        steps
    }

    fn end_drawing(steps: &mut Vec<DrawStep>, caret: Caret)
        ensures
            draw_models(final(steps)@) == draw_models(old(steps)@) + EditorModel::drawing_ended(
                caret,
            ),
    {
        add_step(steps, DrawStep::PlaceCaret(caret));
        add_step(steps, DrawStep::ShowCaret);
        add_step(steps, DrawStep::EndUpdate);
        add_step(steps, DrawStep::Flush);
        assert(draw_models(steps@) =~= draw_models(old(steps)@) + EditorModel::drawing_ended(caret));
    }

    /// How the screen is drawn.
    pub fn refresh_screen(&self, around: &Surroundings) -> (steps: Vec<DrawStep>)
        requires
            self@.wf(),
        ensures
            draw_models(steps@) == self@.drawn(*around),
    {
        if self.terminal_size.height == 0 || self.terminal_size.width == 0 {
            let steps: Vec<DrawStep> = Vec::new();
            assert(draw_models(steps@) =~= Seq::<DrawModel>::empty());
            return steps;
        }
        let panes = self.current_panes(around);
        let layout = divide(self.terminal_size, &panes);
        let mut steps = self.begin_drawing(around);
        self.draw_bars(&mut steps);
        self.draw_main(&mut steps, &layout);
        self.draw_panes(&mut steps, around, &layout);
        Editor::end_drawing(&mut steps, self.place_caret(around, &layout));
        steps
    }

    /// What a round of the program begins with.
    pub fn begin_round(&self, around: &Surroundings) -> (round: Round)
        requires
            self@.wf(),
        ensures
            draw_models(round.drawing@) == self@.round_drawn(*around),
            round.leaves == self@.should_quit,
    {
        let drawing = if self.needs_refresh(around) {
            self.refresh_screen(around)
        } else {
            let nothing: Vec<DrawStep> = Vec::new();
            assert(draw_models(nothing@) =~= Seq::<DrawModel>::empty());
            nothing
        };
        Round { drawing, leaves: self.should_quit }
    }
}

} // verus!
