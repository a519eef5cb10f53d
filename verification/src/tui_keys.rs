//! What a key press or a mouse event does to the dashboard, by mode and
//! tab.

use vstd::prelude::*;
use crate::text::{owned, pop_char, push_char, push_owned, push_str, push_string, views};
use crate::tui_app::{
    cancelled_view, delete_view, exec_prompt_view, help_toggled, install_step, max_items_of,
    new_container_step, next_item_view, open_new_view, prev_item_view, pull_step, run_on_picked,
    selected_container_of, show_tab, tab_after, tab_before, toggle_extension_step, uninstall_view,
    watch_step, Action, ActiveTab, App, AppMode, AppView, Effect,
};

verus! {

/// A key, as far as the dashboard tells keys apart.
#[derive(Debug, Clone, Copy, PartialEq, Eq, Structural)]
pub enum Key {
    Char(char),
    Esc,
    Enter,
    Tab,
    BackTab,
    Up,
    Down,
    Left,
    Right,
    Backspace,
    Other,
}

/// The kinds of mouse event the dashboard tells apart.
#[derive(Debug, Clone, Copy, PartialEq, Eq, Structural)]
pub enum MouseKind {
    Down,
    Drag,
    ScrollUp,
    ScrollDown,
    Other,
}

/// A mouse event at a cell of the terminal.
#[derive(Debug, Clone, Copy, PartialEq, Eq, Structural)]
pub struct Mouse {
    pub kind: MouseKind,
    pub row: u16,
    pub column: u16,
}

/// The widths of the action buttons of the containers tab: NEW, START,
/// STOP, DEL, EXEC and LOGS, each label padded by 4 cells.
pub open spec fn container_button_widths() -> Seq<int> {
    seq![7, 9, 8, 7, 8, 8]
}

/// The widths of the action buttons of the extensions tab: INST, ENBL,
/// DSBL and UNST, each label padded by 4 cells.
pub open spec fn extension_button_widths() -> Seq<int> {
    seq![8, 8, 8, 8]
}

/// The widths of the action buttons of a tab; tabs other than the
/// containers and extensions tabs have none.
pub open spec fn button_widths(t: ActiveTab) -> Seq<int> {
    match t {
        ActiveTab::Containers => container_button_widths(),
        ActiveTab::Extensions => extension_button_widths(),
        _ => Seq::empty(),
    }
}

/// The button, among buttons of widths `widths` laid out from column 0,
/// under column `col`.
pub open spec fn button_at(widths: Seq<int>, col: int) -> Option<int>
    decreases widths.len(),
{
    if widths.len() == 0 {
        None
    } else if col < widths[0] {
        Some(0)
    } else {
        match button_at(widths.drop_first(), col - widths[0]) {
            Some(i) => Some(i + 1),
            None => None,
        }
    }
}

/// The action button `i` of the current tab pressed.
pub open spec fn action_step(a: AppView, i: int) -> (AppView, Effect) {
    match a.active_tab {
        ActiveTab::Containers => if i == 0 {
            (open_new_view(a), Effect::Nothing)
        } else if i == 1 {
            run_on_picked(a, "start"@, "Started: "@)
        } else if i == 2 {
            run_on_picked(a, "kill"@, "Stopped: "@)
        } else if i == 3 {
            (delete_view(a), Effect::Nothing)
        } else if i == 4 {
            (exec_prompt_view(a), Effect::Nothing)
        } else if i == 5 {
            watch_step(a)
        } else {
            (a, Effect::Nothing)
        },
        ActiveTab::Extensions => if i == 0 {
            install_step(a)
        } else if i == 1 {
            toggle_extension_step(a, "enable"@, "Enabled: "@)
        } else if i == 2 {
            toggle_extension_step(a, "disable"@, "Disabled: "@)
        } else if i == 3 {
            (uninstall_view(a), Effect::Nothing)
        } else {
            (a, Effect::Nothing)
        },
        _ => (a, Effect::Nothing),
    }
}

/// The last action button of a tab, by position.
pub open spec fn last_action(t: ActiveTab) -> int {
    match t {
        ActiveTab::Containers => 5,
        ActiveTab::Extensions => 3,
        _ => 0,
    }
}

/// Enter in the normal mode: the selected action on the containers tab
/// (when a container is selected) and on the extensions tab; elsewhere the
/// selection moves down, stopping at the last row.
pub open spec fn enter_step(a: AppView) -> (AppView, Effect) {
    match a.active_tab {
        ActiveTab::Containers => if selected_container_of(a) is Some {
            action_step(a, a.selected_action as int)
        } else {
            (a, Effect::Nothing)
        },
        ActiveTab::Extensions => action_step(a, a.selected_action as int),
        _ => {
            let mi = max_items_of(a);
            if mi > 0 {
                let next = if a.selected_index + 1 < mi - 1 {
                    a.selected_index + 1
                } else {
                    mi - 1
                };
                (AppView { selected_index: next as usize, ..a }, Effect::Nothing)
            } else {
                (a, Effect::Nothing)
            }
        },
    }
}

/// `v` when the current tab is `t`, else nothing happens.
pub open spec fn on_tab(a: AppView, t: ActiveTab, v: (AppView, Effect)) -> (AppView, Effect) {
    if a.active_tab == t {
        v
    } else {
        (a, Effect::Nothing)
    }
}

/// A character key in the normal mode.
pub open spec fn normal_char_step(a: AppView, c: char) -> (AppView, Effect) {
    if c == 'q' {
        quit_step(a)
    } else if c == 'h' {
        (help_toggled(a), Effect::Nothing)
    } else if c == 'r' {
        (a, Effect::Refresh)
    } else if c == 'k' {
        (prev_item_view(a), Effect::Nothing)
    } else if c == 'j' {
        (next_item_view(a), Effect::Nothing)
    } else if c == 'n' {
        on_tab(a, ActiveTab::Containers, (open_new_view(a), Effect::Nothing))
    } else if c == 'p' {
        on_tab(
            a,
            ActiveTab::Images,
            (
                AppView { mode: AppMode::ImagePull, pull_input: Seq::empty(), status: "Image:"@, ..a },
                Effect::Nothing,
            ),
        )
    } else if c == 's' {
        on_tab(a, ActiveTab::Containers, run_on_picked(a, "start"@, "Started: "@))
    } else if c == 'x' {
        on_tab(a, ActiveTab::Containers, run_on_picked(a, "kill"@, "Stopped: "@))
    } else if c == 'd' {
        if a.active_tab == ActiveTab::Containers {
            (delete_view(a), Effect::Nothing)
        } else {
            on_tab(a, ActiveTab::Extensions, toggle_extension_step(a, "disable"@, "Disabled: "@))
        }
    } else if c == 't' {
        on_tab(
            a,
            ActiveTab::Containers,
            (AppView { status: "Terminal: use 'qcker exec'"@, ..a }, Effect::Nothing),
        )
    } else if c == 'f' {
        on_tab(
            a,
            ActiveTab::Containers,
            (AppView { status: "Files: use 'qcker exec <id> ls'"@, ..a }, Effect::Nothing),
        )
    } else if c == 'i' {
        if a.active_tab == ActiveTab::Containers {
            (exec_prompt_view(a), Effect::Nothing)
        } else {
            on_tab(a, ActiveTab::Extensions, install_step(a))
        }
    } else if c == 'w' {
        on_tab(a, ActiveTab::Containers, watch_step(a))
    } else if c == 'e' {
        on_tab(a, ActiveTab::Extensions, toggle_extension_step(a, "enable"@, "Enabled: "@))
    } else if c == 'u' {
        on_tab(a, ActiveTab::Extensions, (uninstall_view(a), Effect::Nothing))
    } else {
        (a, Effect::Nothing)
    }
}

/// `q` or Esc in the normal mode: hides the help when it is shown, else
/// quits.
pub open spec fn quit_step(a: AppView) -> (AppView, Effect) {
    if a.show_help {
        (help_toggled(a), Effect::Nothing)
    } else {
        (AppView { should_quit: true, ..a }, Effect::Nothing)
    }
}

/// A key in the normal mode.
pub open spec fn normal_key_step(a: AppView, k: Key) -> (AppView, Effect) {
    match k {
        Key::Char(c) => normal_char_step(a, c),
        Key::Esc => quit_step(a),
        Key::Tab => (show_tab(a, tab_after(a.active_tab)), Effect::Nothing),
        Key::BackTab => (show_tab(a, tab_before(a.active_tab)), Effect::Nothing),
        Key::Up => (prev_item_view(a), Effect::Nothing),
        Key::Down => (next_item_view(a), Effect::Nothing),
        Key::Enter => enter_step(a),
        Key::Left => if a.selected_action > 0 {
            (AppView { selected_action: (a.selected_action - 1) as usize, ..a }, Effect::Nothing)
        } else {
            (a, Effect::Nothing)
        },
        Key::Right => if a.selected_action < last_action(a.active_tab) {
            (AppView { selected_action: (a.selected_action + 1) as usize, ..a }, Effect::Nothing)
        } else {
            (a, Effect::Nothing)
        },
        _ => (a, Effect::Nothing),
    }
}

/// A key while a yes/no question is asked.
pub open spec fn confirm_key_step(a: AppView, k: Key) -> (AppView, Effect) {
    match k {
        Key::Char(c) => if c == 'y' || c == 'Y' {
            crate::tui_app::confirm_step(a)
        } else if c == 'n' || c == 'N' {
            (AppView { confirm_action: None, ..cancelled_view(a) }, Effect::Nothing)
        } else {
            (a, Effect::Nothing)
        },
        Key::Esc => (AppView { confirm_action: None, ..cancelled_view(a) }, Effect::Nothing),
        _ => (a, Effect::Nothing),
    }
}

/// A key while a new container is typed in. Tab fills the name, then the
/// image, with an example; a character goes to the image while it is
/// empty, then to the name, unless a command was typed.
pub open spec fn new_container_key_step(a: AppView, k: Key) -> (AppView, Effect) {
    match k {
        Key::Esc => (cancelled_view(a), Effect::Nothing),
        Key::Enter => new_container_step(a),
        Key::Tab => if a.new_name.len() == 0 {
            (
                AppView { new_name: "my-container"@, status: "Name set. Tab for Image"@, ..a },
                Effect::Nothing,
            )
        } else if a.new_image.len() == 0 {
            (
                AppView { new_image: "alpine:latest"@, status: "Image set. Tab for Command"@, ..a },
                Effect::Nothing,
            )
        } else {
            (AppView { status: "Ready to create!"@, ..a }, Effect::Nothing)
        },
        Key::Char(c) => if a.new_cmd.len() == 0 {
            if a.new_image.len() == 0 {
                (AppView { new_image: a.new_image.push(c), ..a }, Effect::Nothing)
            } else {
                (AppView { new_name: a.new_name.push(c), ..a }, Effect::Nothing)
            }
        } else {
            (AppView { new_cmd: a.new_cmd.push(c), ..a }, Effect::Nothing)
        },
        Key::Backspace => if a.new_cmd.len() > 0 {
            (AppView { new_cmd: a.new_cmd.drop_last(), ..a }, Effect::Nothing)
        } else if a.new_image.len() > 0 {
            (AppView { new_image: a.new_image.drop_last(), ..a }, Effect::Nothing)
        } else if a.new_name.len() > 0 {
            (AppView { new_name: a.new_name.drop_last(), ..a }, Effect::Nothing)
        } else {
            (a, Effect::Nothing)
        },
        _ => (a, Effect::Nothing),
    }
}

/// A text without its last character, if it has one.
pub open spec fn backspaced(t: Seq<char>) -> Seq<char> {
    if t.len() > 0 {
        t.drop_last()
    } else {
        t
    }
}

/// A key while a command to run in a container is typed in.
pub open spec fn exec_key_step(a: AppView, k: Key) -> (AppView, Effect) {
    match k {
        Key::Esc => (AppView { exec_cmd: Seq::empty(), ..cancelled_view(a) }, Effect::Nothing),
        Key::Enter => (a, crate::tui_app::exec_step(a)),
        Key::Char(c) => (
            AppView { exec_cmd: a.exec_cmd.push(c), status: "> "@ + a.exec_cmd.push(c), ..a },
            Effect::Nothing,
        ),
        Key::Backspace => (
            AppView {
                exec_cmd: backspaced(a.exec_cmd),
                status: "> "@ + backspaced(a.exec_cmd),
                ..a
            },
            Effect::Nothing,
        ),
        _ => (a, Effect::Nothing),
    }
}

/// A key while an image name is typed in.
pub open spec fn pull_key_step(a: AppView, k: Key) -> (AppView, Effect) {
    match k {
        Key::Esc => (AppView { pull_input: Seq::empty(), ..cancelled_view(a) }, Effect::Nothing),
        Key::Enter => pull_step(a),
        Key::Char(c) => (
            AppView {
                pull_input: a.pull_input.push(c),
                status: "Pulling: "@ + a.pull_input.push(c),
                ..a
            },
            Effect::Nothing,
        ),
        Key::Backspace => (
            AppView {
                pull_input: backspaced(a.pull_input),
                status: "Pulling: "@ + backspaced(a.pull_input),
                ..a
            },
            Effect::Nothing,
        ),
        _ => (a, Effect::Nothing),
    }
}

/// A key while following a container's logs.
pub open spec fn logs_key_step(a: AppView, k: Key) -> (AppView, Effect) {
    let stop = (AppView { mode: AppMode::Normal, status: "Stopped watching"@, ..a }, Effect::Nothing);
    let up = (
        AppView {
            scroll_offset: if a.scroll_offset > 0 {
                (a.scroll_offset - 1) as usize
            } else {
                0
            },
            ..a
        },
        Effect::Nothing,
    );
    let down = (AppView { scroll_offset: (a.scroll_offset + 1) as usize, ..a }, Effect::Nothing);
    match k {
        Key::Esc => stop,
        Key::Up => up,
        Key::Down => down,
        Key::Char(c) => if c == 'q' {
            stop
        } else if c == 'k' {
            up
        } else if c == 'j' {
            down
        } else if c == 'g' {
            (AppView { scroll_offset: 0, ..a }, Effect::Nothing)
        } else if c == 'G' {
            (
                AppView {
                    scroll_offset: if a.logs.len() > 20 {
                        (a.logs.len() - 20) as usize
                    } else {
                        0
                    },
                    ..a
                },
                Effect::Nothing,
            )
        } else if c == 'r' {
            match a.selected_container {
                Some(id) => (a, Effect::RunAndRefresh(seq!["logs"@, id])),
                None => (a, Effect::Nothing),
            }
        } else {
            (a, Effect::Nothing)
        },
        _ => (a, Effect::Nothing),
    }
}

/// A key press, by mode.
pub open spec fn key_step(a: AppView, k: Key) -> (AppView, Effect) {
    match a.mode {
        AppMode::Normal => normal_key_step(a, k),
        AppMode::ConfirmDelete => confirm_key_step(a, k),
        AppMode::NewContainer => new_container_key_step(a, k),
        AppMode::ExecCommand => exec_key_step(a, k),
        AppMode::ImagePull => pull_key_step(a, k),
        AppMode::WatchingLogs => logs_key_step(a, k),
    }
}

/// Whether a key moves the selection down in the normal mode.
pub open spec fn moves_down(a: AppView, k: Key) -> bool {
    a.mode == AppMode::Normal && (k == Key::Down || k == Key::Char('j') || (k == Key::Enter
        && a.active_tab != ActiveTab::Containers && a.active_tab != ActiveTab::Extensions))
}

/// Whether a key scrolls the logs down.
pub open spec fn scrolls_down(a: AppView, k: Key) -> bool {
    a.mode == AppMode::WatchingLogs && (k == Key::Down || k == Key::Char('j'))
}

/// When the tab has rows, the selection and the scrolling have room to
/// move down by one row.
pub open spec fn room_below(a: AppView) -> bool {
    max_items_of(a) > 0 ==> (a.selected_index < usize::MAX && a.scroll_offset <= usize::MAX - 12)
}

/// A mouse event: a press on the top row hits a button, a press on a list
/// row selects it, the wheel moves the selection.
pub open spec fn mouse_step(a: AppView, m: Mouse) -> (AppView, Effect) {
    match m.kind {
        MouseKind::Down | MouseKind::Drag => if m.row == 0 {
            button_step(a, m.column as int)
        } else if m.row >= 2 {
            (row_click_view(a, m.row - 2), Effect::Nothing)
        } else {
            (a, Effect::Nothing)
        },
        MouseKind::ScrollUp => (prev_item_view(a), Effect::Nothing),
        MouseKind::ScrollDown => (next_item_view(a), Effect::Nothing),
        MouseKind::Other => (a, Effect::Nothing),
    }
}

/// A press on the top row at column `col`.
pub open spec fn button_step(a: AppView, col: int) -> (AppView, Effect) {
    match button_at(button_widths(a.active_tab), col) {
        Some(i) => action_step(AppView { selected_action: i as usize, ..a }, i),
        None => (a, Effect::Nothing),
    }
}

/// A press on list row `r`: selects it when there is such a row; on the
/// containers and extensions tabs the first action is selected too.
pub open spec fn row_click_view(a: AppView, r: int) -> AppView {
    match a.active_tab {
        ActiveTab::Containers => if r < a.containers.len() {
            AppView { selected_index: r as usize, selected_action: 0, ..a }
        } else {
            a
        },
        ActiveTab::Extensions => if r < a.extensions.len() {
            AppView { selected_index: r as usize, selected_action: 0, ..a }
        } else {
            a
        },
        _ => if r < max_items_of(a) {
            AppView { selected_index: r as usize, ..a }
        } else {
            a
        },
    }
}

/// Presses the action button `action` of the current tab.
pub fn execute_action(app: &mut App, action: usize) -> (r: Action)
    ensures
        (final(app)@, r@) == action_step(old(app)@, action as int),
{
    match app.active_tab {
        ActiveTab::Containers => {
            if action == 0 {
                app.open_new_container();
                Action::Nothing
            } else if action == 1 {
                app.start_container()
            } else if action == 2 {
                app.stop_container()
            } else if action == 3 {
                app.delete_container();
                Action::Nothing
            } else if action == 4 {
                app.exec_in_container();
                Action::Nothing
            } else if action == 5 {
                app.watch_logs()
            } else {
                Action::Nothing
            }
        },
        ActiveTab::Extensions => {
            if action == 0 {
                app.install_extension()
            } else if action == 1 {
                app.enable_extension()
            } else if action == 2 {
                app.disable_extension()
            } else if action == 3 {
                app.uninstall_extension();
                Action::Nothing
            } else {
                Action::Nothing
            }
        },
        _ => Action::Nothing,
    }
}

/// The button under column `col` of the top row, for the buttons of the
/// current tab.
fn button_under(tab: ActiveTab, col: u16) -> (r: Option<usize>)
    ensures
        match r {
            Some(i) => button_at(
                button_widths(tab),
                col as int,
            ) == Some(i as int),
            None => button_at(
                button_widths(tab),
                col as int,
            ) is None,
        },
{
    let ghost ws = button_widths(tab);
    let widths: Vec<u16> = match tab {
        ActiveTab::Containers => vec![7, 9, 8, 7, 8, 8],
        ActiveTab::Extensions => vec![8, 8, 8, 8],
        _ => Vec::new(),
    };
    assert(widths@.len() == ws.len());
    assert(forall|j: int| 0 <= j < ws.len() ==> widths@[j] as int == #[trigger] ws[j]);
    let mut pos: u16 = 0;
    let mut i: usize = 0;
    assert(ws.skip(0) =~= ws);
    while i < widths.len()
        invariant
            i <= widths.len() == ws.len(),
            ws == button_widths(tab),
            widths.len() <= 6,
            forall|j: int| 0 <= j < ws.len() ==> widths@[j] as int == #[trigger] ws[j],
            forall|j: int| 0 <= j < widths.len() ==> widths@[j] <= 9,
            pos <= 9 * i,
            col >= pos,
            button_at(ws, col as int) == match button_at(ws.skip(i as int), col - pos) {
                Some(k) => Some(k + i),
                None => None::<int>,
            },
        decreases widths.len() - i,
    {
        let w = widths[i];
        let ghost rest = ws.skip(i as int);
        assert(rest[0] == w as int);
        assert(rest.drop_first() =~= ws.skip(i + 1));
        if col < pos + w {
            assert(button_at(rest, col - pos) == Some(0int));
            return Some(i);
        }
        pos = pos + w;
        i += 1;
    }
    assert(ws.skip(i as int) =~= Seq::<int>::empty());
    None
}

fn handle_button_click(app: &mut App, col: u16) -> (r: Action)
    ensures
        (final(app)@, r@) == button_step(old(app)@, col as int),
{
    match button_under(app.active_tab, col) {
        Some(i) => {
            app.selected_action = i;
            execute_action(app, i)
        },
        None => Action::Nothing,
    }
}

/// What a mouse event does.
pub fn handle_click_event(app: &mut App, mouse: Mouse) -> (r: Action)
    requires
        mouse.kind == MouseKind::ScrollDown ==> room_below(old(app)@),
    ensures
        (final(app)@, r@) == mouse_step(old(app)@, mouse),
{
    let row = mouse.row;
    let col = mouse.column;
    match mouse.kind {
        MouseKind::Down | MouseKind::Drag => {
            if row == 0 {
                handle_button_click(app, col)
            } else if row >= 2 {
                let list_row = (row - 2) as usize;
                match app.active_tab {
                    ActiveTab::Containers => {
                        if list_row < app.containers.len() {
                            app.selected_index = list_row;
                            app.selected_action = 0;
                        }
                    },
                    ActiveTab::Extensions => {
                        if list_row < app.extensions.len() {
                            app.selected_index = list_row;
                            app.selected_action = 0;
                        }
                    },
                    _ => {
                        if list_row < app.max_items() {
                            app.selected_index = list_row;
                        }
                    },
                }
                Action::Nothing
            } else {
                Action::Nothing
            }
        },
        MouseKind::ScrollUp => {
            app.prev_item();
            Action::Nothing
        },
        MouseKind::ScrollDown => {
            app.next_item();
            Action::Nothing
        },
        MouseKind::Other => Action::Nothing,
    }
}

fn handle_normal_char(app: &mut App, c: char) -> (r: Action)
    requires
        c == 'j' ==> room_below(old(app)@),
    ensures
        (final(app)@, r@) == normal_char_step(old(app)@, c),
{
    let tab = app.active_tab;
    if c == 'q' {
        if app.show_help {
            app.toggle_help();
        } else {
            app.should_quit = true;
        }
        Action::Nothing
    } else if c == 'h' {
        app.toggle_help();
        Action::Nothing
    } else if c == 'r' {
        Action::Refresh
    } else if c == 'k' {
        app.prev_item();
        Action::Nothing
    } else if c == 'j' {
        app.next_item();
        Action::Nothing
    } else if c == 'n' {
        if tab == ActiveTab::Containers {
            app.open_new_container();
        }
        Action::Nothing
    } else if c == 'p' {
        if tab == ActiveTab::Images {
            app.mode = AppMode::ImagePull;
            app.pull_input = String::new();
            app.status_message = owned("Image:");
        }
        Action::Nothing
    } else if c == 's' {
        if tab == ActiveTab::Containers {
            app.start_container()
        } else {
            Action::Nothing
        }
    } else if c == 'x' {
        if tab == ActiveTab::Containers {
            app.stop_container()
        } else {
            Action::Nothing
        }
    } else if c == 'd' {
        if tab == ActiveTab::Containers {
            app.delete_container();
            Action::Nothing
        } else if tab == ActiveTab::Extensions {
            app.disable_extension()
        } else {
            Action::Nothing
        }
    } else if c == 't' {
        if tab == ActiveTab::Containers {
            app.status_message = owned("Terminal: use 'qcker exec'");
        }
        Action::Nothing
    } else if c == 'f' {
        if tab == ActiveTab::Containers {
            app.status_message = owned("Files: use 'qcker exec <id> ls'");
        }
        Action::Nothing
    } else if c == 'i' {
        if tab == ActiveTab::Containers {
            app.exec_in_container();
            Action::Nothing
        } else if tab == ActiveTab::Extensions {
            app.install_extension()
        } else {
            Action::Nothing
        }
    } else if c == 'w' {
        if tab == ActiveTab::Containers {
            app.watch_logs()
        } else {
            Action::Nothing
        }
    } else if c == 'e' {
        if tab == ActiveTab::Extensions {
            app.enable_extension()
        } else {
            Action::Nothing
        }
    } else if c == 'u' {
        if tab == ActiveTab::Extensions {
            app.uninstall_extension();
        }
        Action::Nothing
    } else {
        Action::Nothing
    }
}

fn handle_normal_mode(app: &mut App, key: Key) -> (r: Action)
    requires
        old(app).mode == AppMode::Normal,
        moves_down(old(app)@, key) ==> room_below(old(app)@),
    ensures
        (final(app)@, r@) == normal_key_step(old(app)@, key),
{
    match key {
        Key::Char(c) => handle_normal_char(app, c),
        Key::Esc => {
            if app.show_help {
                app.toggle_help();
            } else {
                app.should_quit = true;
            }
            Action::Nothing
        },
        Key::Tab => {
            app.next_tab();
            Action::Nothing
        },
        Key::BackTab => {
            app.prev_tab();
            Action::Nothing
        },
        Key::Up => {
            app.prev_item();
            Action::Nothing
        },
        Key::Down => {
            app.next_item();
            Action::Nothing
        },
        Key::Enter => match app.active_tab {
            ActiveTab::Containers => {
                if app.get_selected_container().is_some() {
                    let action = app.selected_action;
                    execute_action(app, action)
                } else {
                    Action::Nothing
                }
            },
            ActiveTab::Extensions => {
                let action = app.selected_action;
                execute_action(app, action)
            },
            _ => {
                let mi = app.max_items();
                if mi > 0 {
                    let next = app.selected_index + 1;
                    app.selected_index = if next < mi - 1 {
                        next
                    } else {
                        mi - 1
                    };
                }
                Action::Nothing
            },
        },
        Key::Left => {
            if app.selected_action > 0 {
                app.selected_action = app.selected_action - 1;
            }
            Action::Nothing
        },
        Key::Right => {
            let max: usize = match app.active_tab {
                ActiveTab::Containers => 5,
                ActiveTab::Extensions => 3,
                _ => 0,
            };
            if app.selected_action < max {
                app.selected_action = app.selected_action + 1;
            }
            Action::Nothing
        },
        _ => Action::Nothing,
    }
}

fn handle_confirm_mode(app: &mut App, key: Key) -> (r: Action)
    ensures
        (final(app)@, r@) == confirm_key_step(old(app)@, key),
{
    match key {
        Key::Char(c) => {
            if c == 'y' || c == 'Y' {
                app.execute_confirm()
            } else if c == 'n' || c == 'N' {
                app.cancel_confirm();
                Action::Nothing
            } else {
                Action::Nothing
            }
        },
        Key::Esc => {
            app.cancel_confirm();
            Action::Nothing
        },
        _ => Action::Nothing,
    }
}

fn handle_new_container_mode(app: &mut App, key: Key) -> (r: Action)
    ensures
        (final(app)@, r@) == new_container_key_step(old(app)@, key),
{
    match key {
        Key::Esc => {
            app.exit_new_container();
            Action::Nothing
        },
        Key::Enter => app.execute_new_container(),
        Key::Tab => {
            if app.new_name.as_str().is_empty() {
                app.new_name = owned("my-container");
                app.status_message = owned("Name set. Tab for Image");
            } else if app.new_image.as_str().is_empty() {
                app.new_image = owned("alpine:latest");
                app.status_message = owned("Image set. Tab for Command");
            } else {
                app.status_message = owned("Ready to create!");
            }
            Action::Nothing
        },
        Key::Char(c) => {
            if app.new_cmd.as_str().is_empty() {
                if app.new_image.as_str().is_empty() {
                    push_char(&mut app.new_image, c);
                } else {
                    push_char(&mut app.new_name, c);
                }
            } else {
                push_char(&mut app.new_cmd, c);
            }
            Action::Nothing
        },
        Key::Backspace => {
            if !app.new_cmd.as_str().is_empty() {
                pop_char(&mut app.new_cmd);
            } else if !app.new_image.as_str().is_empty() {
                pop_char(&mut app.new_image);
            } else if !app.new_name.as_str().is_empty() {
                pop_char(&mut app.new_name);
            }
            Action::Nothing
        },
        _ => Action::Nothing,
    }
}

fn handle_exec_mode(app: &mut App, key: Key) -> (r: Action)
    ensures
        (final(app)@, r@) == exec_key_step(old(app)@, key),
{
    match key {
        Key::Esc => {
            app.exec_cmd = String::new();
            app.mode = AppMode::Normal;
            app.status_message = owned("Cancelled");
            Action::Nothing
        },
        Key::Enter => app.execute_exec(),
        Key::Char(c) => {
            push_char(&mut app.exec_cmd, c);
            let mut msg = owned("> ");
            push_str(&mut msg, app.exec_cmd.as_str());
            app.status_message = msg;
            Action::Nothing
        },
        Key::Backspace => {
            pop_char(&mut app.exec_cmd);
            let mut msg = owned("> ");
            push_str(&mut msg, app.exec_cmd.as_str());
            app.status_message = msg;
            Action::Nothing
        },
        _ => Action::Nothing,
    }
}

fn handle_pull_image_mode(app: &mut App, key: Key) -> (r: Action)
    ensures
        (final(app)@, r@) == pull_key_step(old(app)@, key),
{
    match key {
        Key::Esc => {
            app.pull_input = String::new();
            app.mode = AppMode::Normal;
            app.status_message = owned("Cancelled");
            Action::Nothing
        },
        Key::Enter => app.pull_image(),
        Key::Char(c) => {
            push_char(&mut app.pull_input, c);
            let mut msg = owned("Pulling: ");
            push_str(&mut msg, app.pull_input.as_str());
            app.status_message = msg;
            Action::Nothing
        },
        Key::Backspace => {
            pop_char(&mut app.pull_input);
            let mut msg = owned("Pulling: ");
            push_str(&mut msg, app.pull_input.as_str());
            app.status_message = msg;
            Action::Nothing
        },
        _ => Action::Nothing,
    }
}

fn handle_logs_mode(app: &mut App, key: Key) -> (r: Action)
    requires
        scrolls_down(old(app)@, key) ==> old(app).scroll_offset < usize::MAX,
        old(app).mode == AppMode::WatchingLogs,
    ensures
        (final(app)@, r@) == logs_key_step(old(app)@, key),
{
    let (stop, up, down) = match key {
        Key::Esc => (true, false, false),
        Key::Up => (false, true, false),
        Key::Down => (false, false, true),
        Key::Char(c) => (c == 'q', c == 'k', c == 'j'),
        _ => (false, false, false),
    };
    if stop {
        app.mode = AppMode::Normal;
        app.status_message = owned("Stopped watching");
        return Action::Nothing;
    }
    if up {
        app.scroll_offset = if app.scroll_offset > 0 {
            app.scroll_offset - 1
        } else {
            0
        };
        return Action::Nothing;
    }
    if down {
        app.scroll_offset = app.scroll_offset + 1;
        return Action::Nothing;
    }
    match key {
        Key::Char(c) => {
            if c == 'g' {
                app.scroll_offset = 0;
                Action::Nothing
            } else if c == 'G' {
                app.scroll_offset = if app.logs.len() > 20 {
                    app.logs.len() - 20
                } else {
                    0
                };
                Action::Nothing
            } else if c == 'r' {
                match &app.selected_container {
                    Some(id) => {
                        let mut args: Vec<String> = Vec::new();
                        push_owned(&mut args, "logs");
                        push_string(&mut args, id.clone());
                        assert(views(args@) =~= seq!["logs"@, old(app)@.selected_container->0]);
                        Action::RunAndRefresh(args)
                    },
                    None => Action::Nothing,
                }
            } else {
                Action::Nothing
            }
        },
        _ => Action::Nothing,
    }
}

/// What a key press does, by mode.
pub fn handle_key_event(app: &mut App, key: Key) -> (r: Action)
    requires
        moves_down(old(app)@, key) ==> room_below(old(app)@),
        scrolls_down(old(app)@, key) ==> old(app).scroll_offset < usize::MAX,
    ensures
        (final(app)@, r@) == key_step(old(app)@, key),
{
    match app.mode {
        AppMode::Normal => handle_normal_mode(app, key),
        AppMode::ConfirmDelete => handle_confirm_mode(app, key),
        AppMode::NewContainer => handle_new_container_mode(app, key),
        AppMode::ExecCommand => handle_exec_mode(app, key),
        AppMode::ImagePull => handle_pull_image_mode(app, key),
        AppMode::WatchingLogs => handle_logs_mode(app, key),
    }
}

/// The tabs form a cycle of seven: going forward then back (or back then
/// forward) returns to the same tab, and seven steps forward come back to
/// the start.
pub proof fn law_tab_cycle(t: ActiveTab)
    ensures
        tab_before(tab_after(t)) == t,
        tab_after(tab_before(t)) == t,
        tab_after(tab_after(tab_after(tab_after(tab_after(tab_after(tab_after(t))))))) == t,
        tab_after(t) != t,
{
}

/// Tab and BackTab in the normal mode undo each other, landing on the first
/// row of the tab.
pub proof fn law_tab_keys_undo(a: AppView)
    requires
        a.mode == AppMode::Normal,
    ensures
        key_step(key_step(a, Key::Tab).0, Key::BackTab).0 == show_tab(a, a.active_tab),
        key_step(key_step(a, Key::BackTab).0, Key::Tab).0 == show_tab(a, a.active_tab),
        key_step(a, Key::Tab).1 == Effect::Nothing,
{
    law_tab_cycle(a.active_tab);
}

/// Moving the selection keeps it on a row of the tab: down always, up when
/// it was at most one past the last row. Down then up returns to the row
/// it started on. The view scrolls so that the selection is at most 12 rows
/// below its top after moving down, and not above it after moving up.
pub proof fn law_selection_moves(a: AppView)
    requires
        0 < max_items_of(a) <= usize::MAX,
    ensures
        next_item_view(a).selected_index < max_items_of(a),
        next_item_view(a).selected_index <= next_item_view(a).scroll_offset + 12,
        a.selected_index <= max_items_of(a) ==> prev_item_view(a).selected_index < max_items_of(a),
        prev_item_view(a).scroll_offset <= prev_item_view(a).selected_index,
        a.selected_index < max_items_of(a) ==> prev_item_view(next_item_view(a)).selected_index
            == a.selected_index,
{
    let max = max_items_of(a);
    let n = next_item_view(a);
    assert(max_items_of(n) == max);
    if a.selected_index < max {
        if a.selected_index + 1 < max {
            assert((a.selected_index + 1) % max == a.selected_index + 1) by (nonlinear_arith)
                requires
                    0 <= a.selected_index + 1 < max,
            ;
        } else {
            assert((a.selected_index + 1) % max == 0) by (nonlinear_arith)
                requires
                    a.selected_index + 1 == max,
                    max > 0,
            ;
        }
    }
}

/// While a question is asked, only y, Y, n, N and Esc do anything: yes
/// carries out the operation, no and Esc drop it, and either way the
/// normal mode comes back with no question pending.
pub proof fn law_question_answers(a: AppView, k: Key)
    requires
        a.mode == AppMode::ConfirmDelete,
    ensures
        k != Key::Char('y') && k != Key::Char('Y') && k != Key::Char('n') && k != Key::Char('N')
            && k != Key::Esc ==> key_step(a, k) == (a, Effect::Nothing),
        k == Key::Char('y') || k == Key::Char('Y') || k == Key::Char('n') || k == Key::Char('N')
            || k == Key::Esc ==> key_step(a, k).0.mode == AppMode::Normal
            && key_step(a, k).0.confirm_action is None,
        k == Key::Char('n') || k == Key::Esc ==> key_step(a, k).1 == Effect::Nothing,
{
}

/// Typing a character and erasing it again leaves the typed command or
/// image name as it was; so too for a new container's fields, unless the
/// character went to the name while an image is set (Backspace then takes
/// from the image).
pub proof fn law_backspace_undoes_typing(a: AppView, c: char)
    ensures
        a.mode == AppMode::ExecCommand ==> key_step(key_step(a, Key::Char(c)).0, Key::Backspace).0.exec_cmd
            == a.exec_cmd,
        a.mode == AppMode::ImagePull ==> key_step(key_step(a, Key::Char(c)).0, Key::Backspace).0.pull_input
            == a.pull_input,
        a.mode == AppMode::NewContainer && (a.new_cmd.len() > 0 || a.new_image.len() == 0) ==> ({
            let b = key_step(key_step(a, Key::Char(c)).0, Key::Backspace).0;
            b.new_name == a.new_name && b.new_image == a.new_image && b.new_cmd == a.new_cmd
        }),
{
    assert(a.exec_cmd.push(c).drop_last() =~= a.exec_cmd);
    assert(a.pull_input.push(c).drop_last() =~= a.pull_input);
    assert(a.new_cmd.push(c).drop_last() =~= a.new_cmd);
    assert(a.new_image.push(c).drop_last() =~= a.new_image);
    assert(a.new_name.push(c).drop_last() =~= a.new_name);
}

/// In the normal mode, `q` and Esc close the help when it is shown and
/// otherwise ask to quit; no key ever clears the request to quit.
pub proof fn law_quit(a: AppView, k: Key)
    ensures
        a.mode == AppMode::Normal && (k == Key::Esc || k == Key::Char('q')) ==> (if a.show_help {
            !key_step(a, k).0.show_help && !key_step(a, k).0.should_quit == !a.should_quit
        } else {
            key_step(a, k).0.should_quit
        }),
        a.should_quit ==> key_step(a, k).0.should_quit,
{
}

/// In the normal mode the selected action button stays on a button of the
/// tab: Right moves it one to the right, stopping at the last button, Left
/// one to the left, stopping at the first, and no key moves it past the
/// last button of the tab it leaves shown. With the help shown, `q` and
/// Esc close it and leave the request to quit as it was.
pub proof fn law_action_selection_bounded(a: AppView, k: Key)
    requires
        a.mode == AppMode::Normal,
        a.selected_action <= last_action(a.active_tab),
    ensures
        key_step(a, Key::Right).0.selected_action == (if a.selected_action < last_action(a.active_tab) {
            a.selected_action + 1
        } else {
            last_action(a.active_tab)
        }),
        key_step(a, Key::Left).0.selected_action == (if a.selected_action > 0 {
            a.selected_action - 1
        } else {
            0
        }),
        key_step(a, k).0.selected_action <= last_action(key_step(a, k).0.active_tab),
        a.show_help && (k == Key::Esc || k == Key::Char('q')) ==> !key_step(a, k).0.show_help
            && key_step(a, k).0.should_quit == a.should_quit,
{
}


/// On the containers tab in the normal mode, `s` and `x` do what the Start
/// and Stop buttons do: with a container picked, `s` runs `start` on it and
/// reports "Started: <id>", `x` runs `kill` on it and reports
/// "Stopped: <id>"; with none picked, neither does anything.
pub proof fn law_start_stop_keys(a: AppView)
    requires
        a.mode == AppMode::Normal,
        a.active_tab == ActiveTab::Containers,
    ensures
        key_step(a, Key::Char('s')) == action_step(a, 1),
        key_step(a, Key::Char('x')) == action_step(a, 2),
        a.selected_container matches Some(id) ==> key_step(a, Key::Char('s')) == (
            AppView { status: "Started: "@ + id, ..a },
            Effect::RunAndReload(seq!["start"@, id]),
        ),
        a.selected_container matches Some(id) ==> key_step(a, Key::Char('x')) == (
            AppView { status: "Stopped: "@ + id, ..a },
            Effect::RunAndReload(seq!["kill"@, id]),
        ),
        a.selected_container is None ==> key_step(a, Key::Char('s')) == (a, Effect::Nothing)
            && key_step(a, Key::Char('x')) == (a, Effect::Nothing),
{
}

} // verus!
