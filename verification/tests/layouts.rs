use den::command::Size;
use den::layout::{divide, to_shell_width, Panes};

fn panes(sidebar: bool, terminal: bool, debug: bool) -> Panes {
    Panes {
        sidebar_visible: sidebar,
        terminal_visible: terminal,
        debug_active: debug,
        terminal_rows: 10,
        debug_panel_rows: 8,
    }
}

#[test]
fn the_view_has_the_screen_to_itself() {
    let layout = divide(Size { height: 40, width: 100 }, &panes(false, false, false));
    assert_eq!(layout.col_offset, 0);
    assert_eq!(layout.view, Size { height: 38, width: 100 });
    assert_eq!(layout.debug_panel.height, 0);
    assert_eq!(layout.terminal.height, 0);
    assert_eq!(layout.shell_columns, None);
    assert_eq!(layout.bar, Size { height: 1, width: 100 });
}

#[test]
fn every_pane_takes_its_part() {
    let layout = divide(Size { height: 40, width: 100 }, &panes(true, true, true));
    assert_eq!(layout.col_offset, 24);
    assert_eq!(layout.view, Size { height: 20, width: 76 });
    assert_eq!(layout.sidebar, Size { height: 38, width: 24 });
    assert_eq!(layout.debug_panel, Size { height: 8, width: 76 });
    assert_eq!(layout.terminal, Size { height: 10, width: 76 });
    assert_eq!(layout.shell_columns, Some(76));
    assert_eq!(layout.bar, Size { height: 1, width: 100 });
}

#[test]
fn a_small_screen_leaves_no_room_for_the_view() {
    let layout = divide(Size { height: 5, width: 10 }, &panes(true, true, true));
    assert_eq!(layout.view, Size { height: 0, width: 0 });
    assert_eq!(layout.sidebar, Size { height: 18, width: 24 });
}

#[test]
fn a_shell_knows_sixteen_bits_of_its_width() {
    assert_eq!(to_shell_width(76), 76);
    assert_eq!(to_shell_width(65536 + 5), 5);
}
