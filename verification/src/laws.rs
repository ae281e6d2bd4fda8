//! Properties of the key bindings and the screen layout that hold across
//! calls and for every state.

use vstd::prelude::*;

use crate::app::{
    command_ops, interactive_action, key_action, key_step, normal_key, App, ActionView, InputMode,
    Nav, NormalKey, ProcessCommand, ProcessOp, ProcessStatus, is_leave_interactive,
};
use crate::app::{fullscreen_resize, grid_resize, palette, ProcessEntry};
use crate::keys::{
    ascii_upper_code, char_key_bytes, code_of, control_byte, key_bytes, KeyCode, KeyInput,
    KeyModifiers,
};
use crate::ui::{badge_text, grid_row_split, is_pane_of, status_symbol, title_text, Extent, Pane};

verus! {

/// No key takes the selection or the fullscreen pane outside the process
/// list.
pub proof fn lemma_keys_keep_indices_valid(nav: Nav, count: nat, key: crate::keys::KeyInput)
    requires
        App::indices_valid(nav, count),
    ensures
        App::indices_valid(key_step(nav, count, key), count),
{
}

/// While the help overlay is shown, a key only hides it.
pub proof fn lemma_help_absorbs_key(
    nav: Nav,
    statuses: Seq<ProcessStatus>,
    key: crate::keys::KeyInput,
)
    requires
        nav.help,
        nav.mode == InputMode::Normal,
    ensures
        key_step(nav, statuses.len(), key) == (Nav { help: false, ..nav }),
        key_action(nav, statuses, key) == ActionView::Nothing,
{
}

/// Showing the help overlay and pressing the same key again leaves the state
/// as it was, and neither key asks anything of the processes.
pub proof fn lemma_help_round_trip(nav: Nav, statuses: Seq<ProcessStatus>, key: crate::keys::KeyInput)
    requires
        !nav.help,
        nav.mode == InputMode::Normal,
        normal_key(key) == NormalKey::ShowHelp,
    ensures
        key_step(key_step(nav, statuses.len(), key), statuses.len(), key) == nav,
        key_action(nav, statuses, key) == ActionView::Nothing,
        key_action(key_step(nav, statuses.len(), key), statuses, key) == ActionView::Nothing,
{
}

/// Toggling fullscreen twice leaves the state as it was, where the
/// fullscreen pane (if any) is the selected one.
pub proof fn lemma_fullscreen_toggle_twice(nav: Nav, count: nat, key: crate::keys::KeyInput)
    requires
        !nav.help,
        nav.mode == InputMode::Normal,
        normal_key(key) == NormalKey::ToggleFullscreen,
        nav.fullscreen is None || nav.fullscreen == Some(nav.selected),
    ensures
        key_step(key_step(nav, count, key), count, key) == nav,
{
    let mid = key_step(nav, count, key);
    assert(mid.mode == InputMode::Normal && !mid.help);
}

/// Entering interactive mode and leaving it with Ctrl-A leaves the state as
/// it was, and neither key asks anything of the processes.
pub proof fn lemma_interactive_round_trip(
    nav: Nav,
    statuses: Seq<ProcessStatus>,
    enter: crate::keys::KeyInput,
    leave: crate::keys::KeyInput,
)
    requires
        !nav.help,
        nav.mode == InputMode::Normal,
        normal_key(enter) == NormalKey::EnterInteractive,
        is_leave_interactive(leave),
    ensures
        key_step(key_step(nav, statuses.len(), enter), statuses.len(), leave) == nav,
        key_action(nav, statuses, enter) == ActionView::Nothing,
        key_action(key_step(nav, statuses.len(), enter), statuses, leave) == ActionView::Nothing,
{
}

/// A move right that succeeds is undone by a move left (the fullscreen pane,
/// if it followed the selection, follows it back).
pub proof fn lemma_right_then_left(
    nav: Nav,
    count: nat,
    right: crate::keys::KeyInput,
    left: crate::keys::KeyInput,
)
    requires
        !nav.help,
        nav.mode == InputMode::Normal,
        normal_key(right) == NormalKey::Right,
        normal_key(left) == NormalKey::Left,
        nav.selected + 1 < count <= usize::MAX,
        nav.fullscreen is None || nav.fullscreen == Some(nav.selected),
    ensures
        key_step(key_step(nav, count, right), count, left) == nav,
{
    let mid = key_step(nav, count, right);
    assert(mid.mode == InputMode::Normal && !mid.help);
    assert(mid.selected == nav.selected + 1);
}

/// A move down that succeeds is undone by a move up.
pub proof fn lemma_down_then_up(
    nav: Nav,
    count: nat,
    down: crate::keys::KeyInput,
    up: crate::keys::KeyInput,
)
    requires
        !nav.help,
        nav.mode == InputMode::Normal,
        normal_key(down) == NormalKey::Down,
        normal_key(up) == NormalKey::Up,
        nav.selected + 2 < count <= usize::MAX,
    ensures
        key_step(key_step(nav, count, down), count, up) == nav,
{
    let mid = key_step(nav, count, down);
    assert(mid.mode == InputMode::Normal && !mid.help);
    assert(mid.selected == nav.selected + 2);
}

/// Digit `d` selects the `d`-th process where there is one, and a
/// fullscreen pane moves with it.
pub proof fn lemma_digit_selects(nav: Nav, count: nat, key: crate::keys::KeyInput, d: u32)
    requires
        !nav.help,
        nav.mode == InputMode::Normal,
        normal_key(key) == NormalKey::Digit(d),
        1 <= d <= count,
    ensures
        key_step(nav, count, key).selected == d - 1,
        key_step(nav, count, key).fullscreen == (if nav.fullscreen is Some {
            Some((d - 1) as usize)
        } else {
            None
        }),
{
}

/// In interactive mode every key other than Ctrl-A and the Alt scroll keys
/// goes to the selected process as its byte sequence.
pub proof fn lemma_interactive_keys_reach_process(
    nav: Nav,
    count: nat,
    key: crate::keys::KeyInput,
)
    requires
        nav.mode == InputMode::Interactive,
        nav.selected < count,
        !is_leave_interactive(key),
        !key.modifiers.alt,
        crate::keys::key_bytes(key, nav.line_ending) is Some,
    ensures
        interactive_action(nav, count, key) == (ActionView::Write {
            index: nav.selected,
            bytes: crate::keys::key_bytes(key, nav.line_ending).unwrap(),
        }),
{
}

/// Ctrl together with a letter, in either case, sends the letter's control
/// code, from 1 for A to 26 for Z.
pub proof fn lemma_control_letter(c: char, modifiers: KeyModifiers)
    requires
        modifiers.spec_is_control_only(),
        (0x41 <= code_of(c) <= 0x5a) || (0x61 <= code_of(c) <= 0x7a),
    ensures
        char_key_bytes(c, modifiers) == seq![(ascii_upper_code(c) - 64) as u8],
        1 <= ascii_upper_code(c) - 64 <= 26,
{
}

/// Starting a process never spawns one that is already running; stopping
/// always kills; restarting kills and then spawns.
pub proof fn lemma_command_ops(statuses: Seq<ProcessStatus>, index: int)
    requires
        0 <= index < statuses.len(),
    ensures
        command_ops(statuses, index, ProcessCommand::Start) == (if statuses[index]
            == ProcessStatus::Running {
            Seq::<ProcessOp>::empty()
        } else {
            seq![ProcessOp::Spawn]
        }),
        command_ops(statuses, index, ProcessCommand::Stop) == seq![ProcessOp::Kill],
        command_ops(statuses, index, ProcessCommand::Restart) == command_ops(
            statuses,
            index,
            ProcessCommand::Stop,
        ) + seq![ProcessOp::Spawn],
{
    assert(seq![ProcessOp::Kill] + seq![ProcessOp::Spawn] =~= seq![ProcessOp::Kill, ProcessOp::Spawn]);
}

/// In the grid, every process has exactly one pane, and the selected pane is
/// the one of the selected process.
pub proof fn lemma_grid_shows_each_process_once(panes: Seq<Pane>, app: App)
    requires
        panes.len() == app.processes@.len() <= usize::MAX,
        forall|k: int|
            0 <= k < panes.len() ==> is_pane_of(
                #[trigger] panes[k],
                app,
                k as usize,
                k == app.selected_index,
                panes[k].area,
            ),
    ensures
        forall|i: int| 0 <= i < app.processes@.len() ==> (#[trigger] panes[i]).index == i,
        forall|k1: int, k2: int|
            0 <= k1 < panes.len() && 0 <= k2 < panes.len() && (#[trigger] panes[k1]).index == (#[trigger] panes[k2]).index ==> k1 == k2,
        forall|k: int| 0 <= k < panes.len() ==> ((#[trigger] panes[k]).selected <==> panes[k].index == app.selected_index),
{
}

/// Up and Down move the selection by exactly one grid row (two processes)
/// and never sideways: the column (`selected % 2`) is kept. Up in the top
/// row, and Down where no process lies a row below, leave the state as it
/// is. Neither key touches the fullscreen pane, the mode or the help.
pub proof fn lemma_vertical_moves_keep_column(nav: Nav, count: nat, key: KeyInput)
    requires
        !nav.help,
        nav.mode == InputMode::Normal,
        normal_key(key) == NormalKey::Up || normal_key(key) == NormalKey::Down,
        count <= usize::MAX,
    ensures
        key_step(nav, count, key).selected % 2 == nav.selected % 2,
        key_step(nav, count, key).fullscreen == nav.fullscreen,
        key_step(nav, count, key).mode == nav.mode,
        key_step(nav, count, key).help == nav.help,
        normal_key(key) == NormalKey::Up ==> if nav.selected < 2 {
            key_step(nav, count, key) == nav
        } else {
            key_step(nav, count, key).selected + 2 == nav.selected
        },
        normal_key(key) == NormalKey::Down ==> if nav.selected + 2 >= count {
            key_step(nav, count, key) == nav
        } else {
            key_step(nav, count, key).selected == nav.selected + 2
        },
{
}

/// A character typed without Control alone (plain, with Shift, with Alt,
/// or Control together with another modifier) reaches the process as the
/// character's own low byte, whatever its case.
pub proof fn lemma_plain_characters_send_their_byte(c: char, modifiers: KeyModifiers)
    requires
        !modifiers.spec_is_control_only(),
    ensures
        char_key_bytes(c, modifiers) == seq![((c as u32) % 256) as u8],
        forall|enter| key_bytes(KeyInput { code: KeyCode::Char(c), modifiers }, enter) == Some(
            seq![((c as u32) % 256) as u8],
        ),
{
}

/// The grid rows share the screen's height equally and completely: there
/// is one row per two processes (rounded up), and each row asks for one
/// share, `1 / rows`, of the height.
pub proof fn lemma_grid_rows_share_height(count: nat)
    requires
        (count + 1) / 2 < 0x1_0000_0000,
    ensures
        grid_row_split(count).len() == (count + 1) / 2,
        forall|i: int|
            0 <= i < grid_row_split(count).len() ==> #[trigger] grid_row_split(count)[i]
                == Extent::Ratio(1, grid_row_split(count).len() as u32),
{
}

/// In the grid, a pty gets the tallest and widest size that leaves room
/// for a 2-cell border around each pane, when the rows share the height and
/// the two columns share the width: `rows + 2` lines fit `(count + 1) / 2`
/// times into the height and one more line would not, and `cols + 2`
/// columns fit twice into the width and one more would not. Where not even
/// the border fits, the size is 0.
pub proof fn lemma_grid_size_fills_cell(index: usize, count: nat, height: u16, width: u16)
    requires
        count > 0,
        (count + 1) / 2 < 65536,
    ensures
        ({
            let r = (count + 1) / 2;
            let size = grid_resize(index, count, height, width);
            &&& size.index == index
            &&& size.rows > 0 ==> (size.rows + 2) * r <= height < (size.rows + 3) * r
            &&& size.rows == 0 ==> height < 3 * r
            &&& size.cols > 0 ==> (size.cols + 2) * 2 <= width < (size.cols + 3) * 2
            &&& size.cols == 0 ==> width < 3 * 2
        }),
{
    let r = (count + 1) / 2;
    assert(r >= 1);
    assert(r % 65536 == r);
    let q = height / (r as u16);
    assert(q * r <= height < (q + 1) * r) by (nonlinear_arith)
        requires
            q == height / (r as u16),
            r >= 1,
            r < 65536,
    ;
    let w = width / 2;
    assert(w * 2 <= width < (w + 1) * 2);
    if q >= 2 {
        assert((q - 2 + 2) * r <= height);
    } else {
        assert(height < 3 * r) by (nonlinear_arith)
            requires
                q < 2,
                height < (q + 1) * r,
                r >= 1,
        ;
    }
}

/// The number badge of pane `index` (below 9) is a space and the
/// superscript digit of `index + 1` (U+00B9, U+00B2, U+00B3, then U+2074 to
/// U+2079): the number of the digit key that selects it. So no two of the
/// first nine panes carry the same badge.
pub proof fn lemma_badges_number_panes(index: usize)
    requires
        index < 9,
    ensures
        badge_text(index).len() == 2,
        badge_text(index)[0] == ' ',
        badge_text(index)[1] as u32 == if index == 0 {
            0xb9u32
        } else if index < 3 {
            (0xb1 + index) as u32
        } else {
            (0x2071 + index) as u32
        },
        forall|other: usize| other < 9 && other != index ==> badge_text(other) != badge_text(index),
{
    reveal_strlit(" ¹");
    reveal_strlit(" ²");
    reveal_strlit(" ³");
    reveal_strlit(" ⁴");
    reveal_strlit(" ⁵");
    reveal_strlit(" ⁶");
    reveal_strlit(" ⁷");
    reveal_strlit(" ⁸");
    reveal_strlit(" ⁹");
    assert forall|other: usize| other < 9 && other != index implies badge_text(other) != badge_text(
        index,
    ) by {
        assert(badge_text(other)[1] != badge_text(index)[1]);
    }
}

/// Left and Right move the selection by one process within the list and
/// never past its ends: Left at the first process and Right at the last
/// leave the selection where it is. A fullscreen pane follows the
/// selection; the mode and the help stay as they are.
pub proof fn lemma_horizontal_moves(nav: Nav, count: nat, key: KeyInput)
    requires
        !nav.help,
        nav.mode == InputMode::Normal,
        normal_key(key) == NormalKey::Left || normal_key(key) == NormalKey::Right,
        count <= usize::MAX,
    ensures
        key_step(nav, count, key).mode == nav.mode,
        key_step(nav, count, key).help == nav.help,
        key_step(nav, count, key).fullscreen == (if nav.fullscreen is Some {
            Some(key_step(nav, count, key).selected)
        } else {
            None
        }),
        normal_key(key) == NormalKey::Left ==> key_step(nav, count, key).selected == (if nav.selected
            == 0 {
            0
        } else {
            nav.selected - 1
        }),
        normal_key(key) == NormalKey::Right ==> key_step(nav, count, key).selected == (if nav.selected
            + 1 < count {
            nav.selected + 1
        } else {
            nav.selected as int
        }),
{
}

/// A fullscreen pty gets the whole screen less 5 lines and 2 columns for
/// the tab bar and the border, and 0 where the screen is smaller than that.
pub proof fn lemma_fullscreen_size(index: usize, height: u16, width: u16)
    ensures
        fullscreen_resize(index, height, width).index == index,
        height >= 5 ==> fullscreen_resize(index, height, width).rows + 5 == height,
        height < 5 ==> fullscreen_resize(index, height, width).rows == 0,
        width >= 2 ==> fullscreen_resize(index, height, width).cols + 2 == width,
        width < 2 ==> fullscreen_resize(index, height, width).cols == 0,
{
}

/// Control with a character from `@` to `_` sends that character's code
/// less 64 (the C0 control code), and with the digits 2 to 7 sends NUL, then
/// ESC up to US: the codes of `@`, `[`, `\\`, `]`, `^` and `_`.
pub proof fn lemma_control_codes(u: u32)
    ensures
        0x40 <= u <= 0x5f ==> control_byte(u) == Some((u - 64) as u8),
        u == 0x32 ==> control_byte(u) == Some(0u8),
        0x33 <= u <= 0x37 ==> control_byte(u) == Some((27 + (u - 0x33)) as u8),
        u == 0x20 ==> control_byte(u) == control_byte(0x40),
        u == 0x2d ==> control_byte(u) == control_byte(0x5f),
        control_byte(u) matches Some(b) ==> b < 32,
{
}

/// Panes whose positions differ by less than twelve get different colours;
/// the thirteenth pane takes the first colour again.
pub proof fn lemma_palette_cycles(i: int, j: int)
    requires
        0 <= i < 12,
        0 <= j < 12,
        i != j,
    ensures
        palette(i) != palette(j),
{
}

/// A title shows the status symbol, a space, the name, a colon and a space,
/// the command and a trailing space, in that order.
pub proof fn lemma_title_layout(p: ProcessEntry)
    ensures
        ({
            let t = title_text(p);
            let s = status_symbol(p.status).len();
            let n = p.name@.len() as int;
            let m = p.command@.len() as int;
            &&& s == 1
            &&& t.len() == 1 + 1 + n + 2 + m + 1
            &&& t[1] == ' '
            &&& t.subrange(2, 2 + n) == p.name@
            &&& t[2 + n] == ':' && t[3 + n] == ' '
            &&& t.subrange(4 + n, 4 + n + m) == p.command@
            &&& t[4 + n + m] == ' '
        }),
{
    reveal_strlit("●");
    reveal_strlit("○");
    reveal_strlit(" ");
    reveal_strlit(": ");
    let t = title_text(p);
    let n = p.name@.len() as int;
    let m = p.command@.len() as int;
    assert(t.subrange(2, 2 + n) =~= p.name@);
    assert(t.subrange(4 + n, 4 + n + m) =~= p.command@);
}

/// The editing and cursor keys send the VT100/xterm sequences: ESC `[`
/// then `A`, `B`, `C`, `D` for Up, Down, Right, Left, `H` and `F` for Home
/// and End, `Z` for Shift-Tab, and `2`, `3`, `5`, `6` then `~` for Insert,
/// Delete, PageUp and PageDown; Escape, Tab and Backspace send their single
/// control codes.
pub proof fn lemma_terminal_sequences(modifiers: KeyModifiers, enter: crate::keys::LineEnding)
    ensures
        ({
            let csi = seq![27u8, 0x5bu8];
            let k = |code: KeyCode| key_bytes(KeyInput { code, modifiers }, enter);
            &&& k(KeyCode::Up) == Some(csi.push(0x41u8))
            &&& k(KeyCode::Down) == Some(csi.push(0x42u8))
            &&& k(KeyCode::Right) == Some(csi.push(0x43u8))
            &&& k(KeyCode::Left) == Some(csi.push(0x44u8))
            &&& k(KeyCode::Home) == Some(csi.push(0x48u8))
            &&& k(KeyCode::End) == Some(csi.push(0x46u8))
            &&& k(KeyCode::BackTab) == Some(csi.push(0x5au8))
            &&& k(KeyCode::Insert) == Some(csi.push(0x32u8).push(0x7eu8))
            &&& k(KeyCode::Delete) == Some(csi.push(0x33u8).push(0x7eu8))
            &&& k(KeyCode::PageUp) == Some(csi.push(0x35u8).push(0x7eu8))
            &&& k(KeyCode::PageDown) == Some(csi.push(0x36u8).push(0x7eu8))
            &&& k(KeyCode::Esc) == Some(seq![27u8])
            &&& k(KeyCode::Tab) == Some(seq![9u8])
            &&& k(KeyCode::Backspace) == Some(seq![8u8])
        }),
{
    let csi = seq![27u8, 0x5bu8];
    assert(csi.push(0x41u8) =~= seq![27u8, 91u8, 65u8]);
    assert(csi.push(0x42u8) =~= seq![27u8, 91u8, 66u8]);
    assert(csi.push(0x43u8) =~= seq![27u8, 91u8, 67u8]);
    assert(csi.push(0x44u8) =~= seq![27u8, 91u8, 68u8]);
    assert(csi.push(0x48u8) =~= seq![27u8, 91u8, 72u8]);
    assert(csi.push(0x46u8) =~= seq![27u8, 91u8, 70u8]);
    assert(csi.push(0x5au8) =~= seq![27u8, 91u8, 90u8]);
    assert(csi.push(0x32u8).push(0x7eu8) =~= seq![27u8, 91u8, 50u8, 126u8]);
    assert(csi.push(0x33u8).push(0x7eu8) =~= seq![27u8, 91u8, 51u8, 126u8]);
    assert(csi.push(0x35u8).push(0x7eu8) =~= seq![27u8, 91u8, 53u8, 126u8]);
    assert(csi.push(0x36u8).push(0x7eu8) =~= seq![27u8, 91u8, 54u8, 126u8]);
}

/// The plain keys of normal mode do what the help overlay lists, on the
/// selected process `sel` where it exists: `q` quits; `t` starts it (a
/// spawn, and only where it is not running); `s` stops it (a kill); `r` and
/// `e` restart it (a kill, then a spawn); `i` enters interactive mode; `p`
/// and `?` show the help; `f` and Enter open the selected process
/// fullscreen where none is; the digit `d` from 1 to 9 selects the `d`-th
/// process.
pub proof fn lemma_normal_bindings(nav: Nav, statuses: Seq<ProcessStatus>, modifiers: KeyModifiers, c: char)
    requires
        !nav.help,
        nav.mode == InputMode::Normal,
        nav.selected < statuses.len() <= usize::MAX,
    ensures
        ({
            let key = KeyInput { code: KeyCode::Char(c), modifiers };
            let sel = nav.selected;
            let next = key_step(nav, statuses.len(), key);
            let act = key_action(nav, statuses, key);
            &&& c == 'q' ==> act == ActionView::Quit && next == nav
            &&& c == 't' ==> act == (ActionView::Run {
                index: sel,
                ops: if statuses[sel as int] == ProcessStatus::Running {
                    seq![]
                } else {
                    seq![ProcessOp::Spawn]
                },
            }) && next == nav
            &&& c == 's' ==> act == (ActionView::Run { index: sel, ops: seq![ProcessOp::Kill] })
                && next == nav
            &&& (c == 'r' || c == 'e') ==> act == (ActionView::Run {
                index: sel,
                ops: seq![ProcessOp::Kill, ProcessOp::Spawn],
            }) && next == nav
            &&& c == 'i' ==> next.mode == InputMode::Interactive && act == ActionView::Nothing
            &&& (c == 'p' || c == '?') ==> next.help && act == ActionView::Nothing
            &&& (c == 'f' && nav.fullscreen is None) ==> next.fullscreen == Some(sel)
            &&& (0x31 <= code_of(c) <= 0x39 && code_of(c) - 0x30 <= statuses.len()) ==> next.selected
                == code_of(c) - 0x31
        }),
{
}

} // verus!
