//! How the screen is divided among its parts.
use crate::command::Size;
use crate::text::SIDEBAR_WIDTH;
use vstd::prelude::*;

verus! {

/// Which panes are shown, and how many rows each would take up.
#[derive(Clone, Copy, PartialEq, Eq, Structural, Debug)]
pub struct Panes {
    pub sidebar_visible: bool,
    pub terminal_visible: bool,
    pub debug_active: bool,
    pub terminal_rows: usize,
    pub debug_panel_rows: usize,
}

/// The size of each part of the screen.
#[derive(Clone, Copy, PartialEq, Eq, Structural, Debug)]
pub struct Layout {
    /// The column that the text view, the debug panel and the terminal pane begin in.
    pub col_offset: usize,
    pub view: Size,
    pub sidebar: Size,
    pub debug_panel: Size,
    pub terminal: Size,
    /// The columns that a shell in the terminal pane is told of, where the pane is shown.
    pub shell_columns: Option<u16>,
    /// The size of the message bar, the status bar and the prompt.
    pub bar: Size,
}

/// What is left of `whole` without `part`, and nothing where `part` is larger.
pub open spec fn left_over(whole: int, part: int) -> int {
    if part <= whole {
        whole - part
    } else {
        0
    }
}

impl Panes {
    /// The rows that the terminal pane takes up.
    pub open spec fn shown_terminal_rows(self) -> int {
        if self.terminal_visible {
            self.terminal_rows as int
        } else {
            0
        }
    }

    /// The rows that the debug panel takes up.
    pub open spec fn shown_debug_rows(self) -> int {
        if self.debug_active {
            self.debug_panel_rows as int
        } else {
            0
        }
    }

    /// The columns that the sidebar takes up.
    pub open spec fn shown_sidebar_width(self) -> int {
        if self.sidebar_visible {
            SIDEBAR_WIDTH as int
        } else {
            0
        }
    }

    /// The rows that are left for the text view: all but the two bars and the panes.
    pub open spec fn main_rows(self, height: int) -> int {
        left_over(height, 2 + self.shown_terminal_rows() + self.shown_debug_rows())
    }

    /// The rows of the panes that are shown can be counted together.
    pub open spec fn wf(self) -> bool {
        self.shown_terminal_rows() + self.shown_debug_rows() <= usize::MAX
    }

    pub fn terminal_height(&self) -> (rows: usize)
        ensures
            rows == self.shown_terminal_rows(),
    {
        if self.terminal_visible {
            self.terminal_rows
        } else {
            0
        }
    }

    pub fn debug_height(&self) -> (rows: usize)
        ensures
            rows == self.shown_debug_rows(),
    {
        if self.debug_active {
            self.debug_panel_rows
        } else {
            0
        }
    }

    pub fn sidebar_width(&self) -> (columns: usize)
        ensures
            columns == self.shown_sidebar_width(),
    {
        if self.sidebar_visible {
            SIDEBAR_WIDTH
        } else {
            0
        }
    }

    pub fn main_height(&self, height: usize) -> (rows: usize)
        ensures
            rows == self.main_rows(height as int),
    {
        height.saturating_sub(2).saturating_sub(self.terminal_height()).saturating_sub(
            self.debug_height(),
        )
    }
}

/// A number of columns as a shell is told it, which knows no more than sixteen bits.
pub open spec fn shell_width(columns: int) -> u16 {
    (columns % 65536) as u16
}

pub fn to_shell_width(columns: usize) -> (width: u16)
    ensures
        width == shell_width(columns as int),
{
    (columns % 65536) as u16
}

/// A number of rows, as far as it can be counted.
pub open spec fn at_most_max(rows: int) -> usize {
    if rows <= usize::MAX {
        rows as usize
    } else {
        usize::MAX
    }
}

/// How a screen of a size is divided.
pub open spec fn layout_of(size: Size, panes: Panes) -> Layout {
    let main = panes.main_rows(size.height as int);
    let right = left_over(size.width as int, panes.shown_sidebar_width());
    Layout {
        col_offset: panes.shown_sidebar_width() as usize,
        view: Size { height: main as usize, width: right as usize },
        sidebar: Size {
            height: at_most_max(main + panes.shown_terminal_rows() + panes.shown_debug_rows()),
            width: SIDEBAR_WIDTH,
        },
        debug_panel: Size { height: panes.shown_debug_rows() as usize, width: right as usize },
        terminal: Size { height: panes.shown_terminal_rows() as usize, width: right as usize },
        shell_columns: if panes.terminal_visible {
            Some(shell_width(right))
        } else {
            None
        },
        bar: Size { height: 1, width: size.width },
    }
}

/// Divides a screen.
pub fn divide(size: Size, panes: &Panes) -> (layout: Layout)
    ensures
        layout == layout_of(size, *panes),
{
    let terminal: usize = panes.terminal_height();
    let debug: usize = panes.debug_height();
    let main: usize = panes.main_height(size.height);
    let sidebar: usize = panes.sidebar_width();
    let right: usize = size.width.saturating_sub(sidebar);
    Layout {
        col_offset: sidebar,
        view: Size { height: main, width: right },
        sidebar: Size {
            height: main.saturating_add(terminal).saturating_add(debug),
            width: SIDEBAR_WIDTH,
        },
        debug_panel: Size { height: debug, width: right },
        terminal: Size { height: terminal, width: right },
        shell_columns: if panes.terminal_visible {
            Some(to_shell_width(right))
        } else {
            None
        },
        bar: Size { height: 1, width: size.width },
    }
}

/// Where the screen is high and wide enough for what is shown, it is used up exactly: the text
/// view, the panes and the two bars share the rows, the sidebar is as high as the text view and the
/// panes together, and the sidebar and the text view share the columns.
pub proof fn law_screen_used_up(size: Size, panes: Panes)
    requires
        2 + panes.shown_terminal_rows() + panes.shown_debug_rows() <= size.height,
        panes.shown_sidebar_width() <= size.width,
    ensures
        ({
            let layout = layout_of(size, panes);
            &&& layout.view.height + layout.terminal.height + layout.debug_panel.height + 2
                == size.height
            &&& layout.sidebar.height + 2 == size.height
            &&& layout.col_offset + layout.view.width == size.width
            &&& layout.debug_panel.width == layout.view.width
            &&& layout.terminal.width == layout.view.width
        }),
{
}

/// A pane that is not shown takes up no rows, and a sidebar that is not shown no columns.
pub proof fn law_hidden_takes_nothing(size: Size, panes: Panes)
    ensures
        !panes.terminal_visible ==> layout_of(size, panes).terminal.height == 0 && layout_of(
            size,
            panes,
        ).shell_columns is None,
        !panes.debug_active ==> layout_of(size, panes).debug_panel.height == 0,
        !panes.sidebar_visible ==> layout_of(size, panes).col_offset == 0 && layout_of(
            size,
            panes,
        ).view.width == size.width,
{
}

} // verus!
