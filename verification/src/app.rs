//! The application state and what a key press, a resize or a quit request
//! does to it.
//!
//! Every function here decides only: the work on the processes themselves
//! (spawning, killing, writing to a pty, scrolling, resizing) is returned as a
//! plain value for the caller to carry out.

use vstd::prelude::*;

use crate::keys::{code_of, input_bytes, key_bytes, KeyCode, KeyInput, LineEnding};

verus! {

/// Whether keys drive the manager or go to the selected process.
#[derive(Debug, Clone, Copy, PartialEq, Eq, Structural)]
pub enum InputMode {
    Normal,
    Interactive,
}

/// Whether a process is running.
#[derive(Debug, Clone, Copy, PartialEq, Eq, Structural)]
pub enum ProcessStatus {
    Running,
    Stopped,
}

/// The accent colour of a process pane.
#[derive(Debug, Clone, Copy, PartialEq, Eq, Structural)]
pub enum ProcessColor {
    Cyan,
    Magenta,
    Yellow,
    Green,
    Red,
    Blue,
    LightCyan,
    LightMagenta,
    LightYellow,
    LightGreen,
    LightRed,
    LightBlue,
}

/// Number of colours in the palette that panes cycle through.
pub const PALETTE_LEN: usize = 12;

/// Number of lines one scroll step moves a pane's output.
pub const SCROLL_LINES: usize = 10;

/// The `i`-th colour of the palette, for `i < PALETTE_LEN`.
pub open spec fn palette(i: int) -> ProcessColor {
    if i == 0 {
        ProcessColor::Cyan
    } else if i == 1 {
        ProcessColor::Magenta
    } else if i == 2 {
        ProcessColor::Yellow
    } else if i == 3 {
        ProcessColor::Green
    } else if i == 4 {
        ProcessColor::Red
    } else if i == 5 {
        ProcessColor::Blue
    } else if i == 6 {
        ProcessColor::LightCyan
    } else if i == 7 {
        ProcessColor::LightMagenta
    } else if i == 8 {
        ProcessColor::LightYellow
    } else if i == 9 {
        ProcessColor::LightGreen
    } else if i == 10 {
        ProcessColor::LightRed
    } else {
        ProcessColor::LightBlue
    }
}

/// The colour of the pane of the `i`-th process: the palette, cycled.
pub fn color_for_index(i: usize) -> (c: ProcessColor)
    ensures
        c == palette((i % PALETTE_LEN) as int),
{
    let k = i % PALETTE_LEN;
    if k == 0 {
        ProcessColor::Cyan
    } else if k == 1 {
        ProcessColor::Magenta
    } else if k == 2 {
        ProcessColor::Yellow
    } else if k == 3 {
        ProcessColor::Green
    } else if k == 4 {
        ProcessColor::Red
    } else if k == 5 {
        ProcessColor::Blue
    } else if k == 6 {
        ProcessColor::LightCyan
    } else if k == 7 {
        ProcessColor::LightMagenta
    } else if k == 8 {
        ProcessColor::LightYellow
    } else if k == 9 {
        ProcessColor::LightGreen
    } else if k == 10 {
        ProcessColor::LightRed
    } else {
        ProcessColor::LightBlue
    }
}

/// One line of a Procfile: a process name and the command that runs it.
#[derive(Debug)]
pub struct ProcfileEntry {
    pub name: String,
    pub command: String,
}

/// What the manager knows of one process.
#[derive(Debug)]
pub struct ProcessEntry {
    pub name: String,
    pub command: String,
    pub color: ProcessColor,
    pub status: ProcessStatus,
}

/// The state of the manager.
pub struct App {
    /// False once the manager has been asked to quit.
    pub running: bool,
    /// The processes, in Procfile order; the list never changes length.
    pub processes: Vec<ProcessEntry>,
    /// The process that keys act on.
    pub selected_index: usize,
    /// The process shown alone on the screen, if any.
    pub fullscreen_index: Option<usize>,
    pub input_mode: InputMode,
    /// Whether the help overlay is shown.
    pub show_help: bool,
    /// What the Enter key sends to a process.
    pub line_ending: LineEnding,
}

/// The part of the state that keys change.
#[derive(Debug, Clone, Copy, PartialEq, Eq, Structural)]
pub struct Nav {
    pub selected: usize,
    pub fullscreen: Option<usize>,
    pub mode: InputMode,
    pub help: bool,
    /// What the Enter key sends to a process.
    pub line_ending: LineEnding,
}

/// An operation on one process.
#[derive(Debug, Clone, Copy, PartialEq, Eq, Structural)]
pub enum ProcessOp {
    Spawn,
    Kill,
}

/// A command that a key gives to the selected process.
#[derive(Debug, Clone, Copy, PartialEq, Eq, Structural)]
pub enum ProcessCommand {
    Start,
    Stop,
    Restart,
}

/// What the caller must do after a key press.
#[derive(Debug)]
pub enum Action {
    Nothing,
    /// Ask the event loop to quit.
    Quit,
    ScrollUp { index: usize, lines: usize },
    ScrollDown { index: usize, lines: usize },
    ScrollToBottom { index: usize },
    /// Carry out `ops`, in order, on process `index`.
    Run { index: usize, ops: Vec<ProcessOp> },
    /// Write `bytes` to the pty of process `index`.
    Write { index: usize, bytes: Vec<u8> },
}

/// An [`Action`] as a mathematical value.
pub enum ActionView {
    Nothing,
    Quit,
    ScrollUp { index: usize, lines: usize },
    ScrollDown { index: usize, lines: usize },
    ScrollToBottom { index: usize },
    Run { index: usize, ops: Seq<ProcessOp> },
    Write { index: usize, bytes: Seq<u8> },
}

impl View for Action {
    type V = ActionView;

    open spec fn view(&self) -> ActionView {
        match self {
            Action::Nothing => ActionView::Nothing,
            Action::Quit => ActionView::Quit,
            Action::ScrollUp { index, lines } => ActionView::ScrollUp { index: *index, lines: *lines },
            Action::ScrollDown { index, lines } => ActionView::ScrollDown {
                index: *index,
                lines: *lines,
            },
            Action::ScrollToBottom { index } => ActionView::ScrollToBottom { index: *index },
            Action::Run { index, ops } => ActionView::Run { index: *index, ops: ops@ },
            Action::Write { index, bytes } => ActionView::Write { index: *index, bytes: bytes@ },
        }
    }
}

/// The new size of the pty of one process.
#[derive(Debug, Clone, Copy, PartialEq, Eq, Structural)]
pub struct PtyResize {
    pub index: usize,
    pub rows: u16,
    pub cols: u16,
}

/// What a key means in normal mode.
#[derive(Debug, Clone, Copy, PartialEq, Eq, Structural)]
pub enum NormalKey {
    LeaveFullscreen,
    Quit,
    ShowHelp,
    EnterInteractive,
    ToggleFullscreen,
    ScrollUp,
    ScrollDown,
    ScrollToBottom,
    Stop,
    Start,
    Restart,
    Up,
    Down,
    Left,
    Right,
    /// Jump to the process with this number (counted from 1).
    Digit(u32),
    Ignored,
}

/// The key bindings of normal mode.
pub open spec fn normal_key(key: KeyInput) -> NormalKey {
    match key.code {
        KeyCode::Esc => NormalKey::LeaveFullscreen,
        KeyCode::Char(c) => {
            if c == 'q' {
                NormalKey::Quit
            } else if (c == 'c' || c == 'C') && key.modifiers.spec_is_control_only() {
                NormalKey::Quit
            } else if c == 'p' || c == '?' {
                NormalKey::ShowHelp
            } else if c == 'i' {
                NormalKey::EnterInteractive
            } else if c == 'f' {
                NormalKey::ToggleFullscreen
            } else if c == 'u' {
                NormalKey::ScrollUp
            } else if c == 'd' {
                NormalKey::ScrollDown
            } else if c == 's' {
                NormalKey::Stop
            } else if c == 't' {
                NormalKey::Start
            } else if c == 'r' || c == 'e' {
                NormalKey::Restart
            } else if c == 'k' {
                NormalKey::Up
            } else if c == 'j' {
                NormalKey::Down
            } else if c == 'h' {
                NormalKey::Left
            } else if c == 'l' {
                NormalKey::Right
            } else if 0x30 <= code_of(c) <= 0x39 {
                NormalKey::Digit((code_of(c) - 0x30) as u32)
            } else {
                NormalKey::Ignored
            }
        },
        KeyCode::PageUp => NormalKey::ScrollUp,
        KeyCode::PageDown => NormalKey::ScrollDown,
        KeyCode::End => NormalKey::ScrollToBottom,
        KeyCode::Enter => NormalKey::ToggleFullscreen,
        KeyCode::Up => NormalKey::Up,
        KeyCode::Down => NormalKey::Down,
        KeyCode::Left => NormalKey::Left,
        KeyCode::Right => NormalKey::Right,
        _ => NormalKey::Ignored,
    }
}

/// The fullscreen process once the selection has moved to `selected`: it
/// follows the selection if a process is shown fullscreen.
pub open spec fn follow(fullscreen: Option<usize>, selected: usize) -> Option<usize> {
    if fullscreen is Some {
        Some(selected)
    } else {
        None
    }
}

/// How a key changes the navigation state in normal mode, with `count`
/// processes.
pub open spec fn normal_step(nav: Nav, count: nat, key: KeyInput) -> Nav {
    if nav.help {
        Nav { help: false, ..nav }
    } else {
        match normal_key(key) {
            NormalKey::LeaveFullscreen => Nav { fullscreen: None, ..nav },
            NormalKey::ShowHelp => Nav { help: true, ..nav },
            NormalKey::EnterInteractive => Nav { mode: InputMode::Interactive, ..nav },
            NormalKey::ToggleFullscreen => Nav {
                fullscreen: if nav.fullscreen is Some {
                    None
                } else {
                    Some(nav.selected)
                },
                ..nav
            },
            NormalKey::Up => if nav.selected >= 2 {
                Nav { selected: (nav.selected - 2) as usize, ..nav }
            } else {
                nav
            },
            NormalKey::Down => if nav.selected + 2 < count {
                Nav { selected: (nav.selected + 2) as usize, ..nav }
            } else {
                nav
            },
            NormalKey::Left => {
                let s = if nav.selected > 0 {
                    (nav.selected - 1) as usize
                } else {
                    nav.selected
                };
                Nav { selected: s, fullscreen: follow(nav.fullscreen, s), ..nav }
            },
            NormalKey::Right => {
                let s = if nav.selected + 1 < count {
                    (nav.selected + 1) as usize
                } else {
                    nav.selected
                };
                Nav { selected: s, fullscreen: follow(nav.fullscreen, s), ..nav }
            },
            NormalKey::Digit(d) => if 0 < d <= count {
                let s = (d - 1) as usize;
                Nav { selected: s, fullscreen: follow(nav.fullscreen, s), ..nav }
            } else {
                nav
            },
            _ => nav,
        }
    }
}

/// The operations that `command` asks of process `index`, given the status
/// of every process; none where there is no such process.
pub open spec fn command_ops(statuses: Seq<ProcessStatus>, index: int, command: ProcessCommand) -> Seq<ProcessOp> {
    if 0 <= index < statuses.len() {
        match command {
            ProcessCommand::Start => if statuses[index] != ProcessStatus::Running {
                seq![ProcessOp::Spawn]
            } else {
                seq![]
            },
            ProcessCommand::Stop => seq![ProcessOp::Kill],
            ProcessCommand::Restart => seq![ProcessOp::Kill, ProcessOp::Spawn],
        }
    } else {
        seq![]
    }
}

/// What a key asks the caller to do in normal mode.
pub open spec fn normal_action(nav: Nav, statuses: Seq<ProcessStatus>, key: KeyInput) -> ActionView {
    let sel = nav.selected;
    let present = sel < statuses.len();
    if nav.help {
        ActionView::Nothing
    } else {
        match normal_key(key) {
            NormalKey::Quit => ActionView::Quit,
            NormalKey::ScrollUp => if present {
                ActionView::ScrollUp { index: sel, lines: SCROLL_LINES }
            } else {
                ActionView::Nothing
            },
            NormalKey::ScrollDown => if present {
                ActionView::ScrollDown { index: sel, lines: SCROLL_LINES }
            } else {
                ActionView::Nothing
            },
            NormalKey::ScrollToBottom => if present {
                ActionView::ScrollToBottom { index: sel }
            } else {
                ActionView::Nothing
            },
            NormalKey::Stop => ActionView::Run {
                index: sel,
                ops: command_ops(statuses, sel as int, ProcessCommand::Stop),
            },
            NormalKey::Start => ActionView::Run {
                index: sel,
                ops: command_ops(statuses, sel as int, ProcessCommand::Start),
            },
            NormalKey::Restart => ActionView::Run {
                index: sel,
                ops: command_ops(statuses, sel as int, ProcessCommand::Restart),
            },
            _ => ActionView::Nothing,
        }
    }
}

/// Ctrl-A (with any other modifiers): leave interactive mode.
pub open spec fn is_leave_interactive(key: KeyInput) -> bool {
    key.code == KeyCode::Char('a') && key.modifiers.control
}

/// How a key changes the navigation state in interactive mode.
pub open spec fn interactive_step(nav: Nav, key: KeyInput) -> Nav {
    if is_leave_interactive(key) {
        Nav { mode: InputMode::Normal, ..nav }
    } else {
        nav
    }
}

/// What a key asks the caller to do in interactive mode, with `count`
/// processes.
pub open spec fn interactive_action(nav: Nav, count: nat, key: KeyInput) -> ActionView {
    let sel = nav.selected;
    if is_leave_interactive(key) || sel >= count {
        ActionView::Nothing
    } else if key.modifiers.alt && key.code == KeyCode::PageUp {
        ActionView::ScrollUp { index: sel, lines: SCROLL_LINES }
    } else if key.modifiers.alt && key.code == KeyCode::PageDown {
        ActionView::ScrollDown { index: sel, lines: SCROLL_LINES }
    } else if key.modifiers.alt && key.code == KeyCode::End {
        ActionView::ScrollToBottom { index: sel }
    } else {
        match key_bytes(key, nav.line_ending) {
            Some(b) => ActionView::Write { index: sel, bytes: b },
            None => ActionView::Nothing,
        }
    }
}

/// How a key changes the navigation state.
pub open spec fn key_step(nav: Nav, count: nat, key: KeyInput) -> Nav {
    match nav.mode {
        InputMode::Normal => normal_step(nav, count, key),
        InputMode::Interactive => interactive_step(nav, key),
    }
}

/// What a key asks the caller to do.
pub open spec fn key_action(nav: Nav, statuses: Seq<ProcessStatus>, key: KeyInput) -> ActionView {
    match nav.mode {
        InputMode::Normal => normal_action(nav, statuses, key),
        InputMode::Interactive => interactive_action(nav, statuses.len(), key),
    }
}

/// Whether a terminal key event is a press, a repeat or a release.
#[derive(Debug, Clone, Copy, PartialEq, Eq, Structural)]
pub enum KeyPhase {
    Press,
    Repeat,
    Release,
}

/// Number of grid rows that `count` panes fill, two to a row.
pub open spec fn grid_rows(count: nat) -> nat {
    (count + 1) / 2
}

/// Number of grid rows that `count` panes fill, two to a row.
pub fn grid_rows_of(count: usize) -> (rows: usize)
    ensures
        rows == grid_rows(count as nat),
{
    count / 2 + count % 2
}

/// `a - b`, or 0 where that is negative.
pub open spec fn sat_sub(a: u16, b: u16) -> u16 {
    if a >= b {
        (a - b) as u16
    } else {
        0
    }
}

/// The pty size of a process shown fullscreen on a `height` x `width`
/// screen.
pub open spec fn fullscreen_resize(index: usize, height: u16, width: u16) -> PtyResize {
    PtyResize { index, rows: sat_sub(height, 5), cols: sat_sub(width, 2) }
}

/// The pty size of process `index` in the grid of `count` panes on a
/// `height` x `width` screen.
pub open spec fn grid_resize(index: usize, count: nat, height: u16, width: u16) -> PtyResize {
    let rows = (grid_rows(count) % 65536) as u16;
    PtyResize {
        index,
        rows: sat_sub((height / rows) as u16, 2),
        cols: sat_sub((width / 2) as u16, 2),
    }
}

impl App {
    /// The navigation state.
    pub open spec fn nav(&self) -> Nav {
        Nav {
            selected: self.selected_index,
            fullscreen: self.fullscreen_index,
            mode: self.input_mode,
            help: self.show_help,
            line_ending: self.line_ending,
        }
    }

    /// The status of every process, in order.
    pub open spec fn statuses(&self) -> Seq<ProcessStatus> {
        self.processes@.map_values(|p: ProcessEntry| p.status)
    }

    /// The indices stay within the process list: the selected and the
    /// fullscreen process exist, or there is no process and both are 0.
    pub open spec fn indices_valid(nav: Nav, count: nat) -> bool {
        &&& (nav.selected < count || nav.selected == 0)
        &&& (nav.fullscreen matches Some(f) ==> (f < count || f == 0))
    }
}

/// The meaning of a key in normal mode.
pub fn normal_binding(key: KeyInput) -> (k: NormalKey)
    ensures
        k == normal_key(key),
{
    match key.code {
        KeyCode::Esc => NormalKey::LeaveFullscreen,
        KeyCode::Char(c) => {
            if c == 'q' {
                NormalKey::Quit
            } else if (c == 'c' || c == 'C') && key.modifiers.is_control_only() {
                NormalKey::Quit
            } else if c == 'p' || c == '?' {
                NormalKey::ShowHelp
            } else if c == 'i' {
                NormalKey::EnterInteractive
            } else if c == 'f' {
                NormalKey::ToggleFullscreen
            } else if c == 'u' {
                NormalKey::ScrollUp
            } else if c == 'd' {
                NormalKey::ScrollDown
            } else if c == 's' {
                NormalKey::Stop
            } else if c == 't' {
                NormalKey::Start
            } else if c == 'r' || c == 'e' {
                NormalKey::Restart
            } else if c == 'k' {
                NormalKey::Up
            } else if c == 'j' {
                NormalKey::Down
            } else if c == 'h' {
                NormalKey::Left
            } else if c == 'l' {
                NormalKey::Right
            } else {
                let code = c as u32;
                if 0x30 <= code && code <= 0x39 {
                    NormalKey::Digit(code - 0x30)
                } else {
                    NormalKey::Ignored
                }
            }
        },
        KeyCode::PageUp => NormalKey::ScrollUp,
        KeyCode::PageDown => NormalKey::ScrollDown,
        KeyCode::End => NormalKey::ScrollToBottom,
        KeyCode::Enter => NormalKey::ToggleFullscreen,
        KeyCode::Up => NormalKey::Up,
        KeyCode::Down => NormalKey::Down,
        KeyCode::Left => NormalKey::Left,
        KeyCode::Right => NormalKey::Right,
        _ => NormalKey::Ignored,
    }
}

impl App {
    /// A manager for the processes of `entries`, in order: none running yet,
    /// the first selected, normal mode, no fullscreen pane and no help; Enter
    /// sends `\n` until `line_ending` is changed.
    pub fn new(entries: Vec<ProcfileEntry>) -> (app: App)
        ensures
            app.running,
            app.processes@.len() == entries@.len(),
            forall|i: int|
                0 <= i < entries@.len() ==> {
                    &&& (#[trigger] app.processes@[i]).name@ == entries@[i].name@
                    &&& app.processes@[i].command@ == entries@[i].command@
                    &&& app.processes@[i].color == palette(i % (PALETTE_LEN as int))
                    &&& app.processes@[i].status == ProcessStatus::Stopped
                },
            app.selected_index == 0,
            app.fullscreen_index is None,
            app.input_mode == InputMode::Normal,
            !app.show_help,
            app.line_ending == LineEnding::Lf,
    {
        let mut processes: Vec<ProcessEntry> = Vec::new();
        let n = entries.len();
        for i in 0..n
            invariant
                n == entries@.len(),
                processes@.len() == i,
                forall|k: int|
                    0 <= k < i ==> {
                        &&& (#[trigger] processes@[k]).name@ == entries@[k].name@
                        &&& processes@[k].command@ == entries@[k].command@
                        &&& processes@[k].color == palette(k % (PALETTE_LEN as int))
                        &&& processes@[k].status == ProcessStatus::Stopped
                    },
        {
            let name = entries[i].name.clone();
            let command = entries[i].command.clone();
            let color = color_for_index(i);
            processes.push(ProcessEntry { name, command, color, status: ProcessStatus::Stopped });
        }
        App {
            running: true,
            processes,
            selected_index: 0,
            fullscreen_index: None,
            input_mode: InputMode::Normal,
            show_help: false,
            line_ending: LineEnding::Lf,
        }
    }

    /// The operations that `command` asks of process `idx`: starting spawns
    /// a process that is not running, stopping kills it, restarting kills it
    /// and spawns it again; nothing where there is no process `idx`.
    pub fn execute_command_on_idx(&self, idx: usize, command: ProcessCommand) -> (ops: Vec<ProcessOp>)
        ensures
            ops@ == command_ops(self.statuses(), idx as int, command),
    {
        let mut ops: Vec<ProcessOp> = Vec::new();
        if idx < self.processes.len() {
            proof {
                assert(self.statuses()[idx as int] == self.processes@[idx as int].status);
            }
            match command {
                ProcessCommand::Start => {
                    if self.processes[idx].status != ProcessStatus::Running {
                        ops.push(ProcessOp::Spawn);
                    }
                },
                ProcessCommand::Stop => {
                    ops.push(ProcessOp::Kill);
                },
                ProcessCommand::Restart => {
                    ops.push(ProcessOp::Kill);
                    ops.push(ProcessOp::Spawn);
                },
            }
        }
        proof {
            assert(ops@ =~= command_ops(self.statuses(), idx as int, command));
        }
        ops
    }

    /// Handles a key in normal mode.
    pub fn handle_normal_mode(&mut self, key: KeyInput) -> (action: Action)
        ensures
            final(self).nav() == normal_step(old(self).nav(), old(self).processes@.len(), key),
            action@ == normal_action(old(self).nav(), old(self).statuses(), key),
            final(self).processes == old(self).processes,
            final(self).running == old(self).running,
    {
        if self.show_help {
            self.show_help = false;
            return Action::Nothing;
        }
        let n = self.processes.len();
        let sel = self.selected_index;
        match normal_binding(key) {
            NormalKey::LeaveFullscreen => {
                if self.fullscreen_index.is_some() {
                    self.fullscreen_index = None;
                }
                Action::Nothing
            },
            NormalKey::Quit => Action::Quit,
            NormalKey::ShowHelp => {
                self.show_help = true;
                Action::Nothing
            },
            NormalKey::EnterInteractive => {
                self.input_mode = InputMode::Interactive;
                Action::Nothing
            },
            NormalKey::ToggleFullscreen => {
                if self.fullscreen_index.is_some() {
                    self.fullscreen_index = None;
                } else {
                    self.fullscreen_index = Some(sel);
                }
                Action::Nothing
            },
            NormalKey::ScrollUp => {
                if sel < n {
                    Action::ScrollUp { index: sel, lines: SCROLL_LINES }
                } else {
                    Action::Nothing
                }
            },
            NormalKey::ScrollDown => {
                if sel < n {
                    Action::ScrollDown { index: sel, lines: SCROLL_LINES }
                } else {
                    Action::Nothing
                }
            },
            NormalKey::ScrollToBottom => {
                if sel < n {
                    Action::ScrollToBottom { index: sel }
                } else {
                    Action::Nothing
                }
            },
            NormalKey::Stop => {
                let ops = self.execute_command_on_idx(sel, ProcessCommand::Stop);
                Action::Run { index: sel, ops }
            },
            NormalKey::Start => {
                let ops = self.execute_command_on_idx(sel, ProcessCommand::Start);
                Action::Run { index: sel, ops }
            },
            NormalKey::Restart => {
                let ops = self.execute_command_on_idx(sel, ProcessCommand::Restart);
                Action::Run { index: sel, ops }
            },
            NormalKey::Up => {
                if sel >= 2 {
                    self.selected_index = sel - 2;
                }
                Action::Nothing
            },
            NormalKey::Down => {
                if n >= 2 && sel < n - 2 {
                    self.selected_index = sel + 2;
                }
                Action::Nothing
            },
            NormalKey::Left => {
                if sel > 0 {
                    self.selected_index = sel - 1;
                }
                if self.fullscreen_index.is_some() {
                    self.fullscreen_index = Some(self.selected_index);
                }
                Action::Nothing
            },
            NormalKey::Right => {
                if n >= 1 && sel < n - 1 {
                    self.selected_index = sel + 1;
                }
                if self.fullscreen_index.is_some() {
                    self.fullscreen_index = Some(self.selected_index);
                }
                Action::Nothing
            },
            NormalKey::Digit(d) => {
                let digit = d as usize;
                if digit > 0 && digit <= n {
                    self.selected_index = digit - 1;
                    if self.fullscreen_index.is_some() {
                        self.fullscreen_index = Some(self.selected_index);
                    }
                }
                Action::Nothing
            },
            NormalKey::Ignored => Action::Nothing,
        }
    }

    /// Handles a key in interactive mode: Ctrl-A goes back to normal mode;
    /// with Alt, PageUp, PageDown and End scroll the selected pane; any other
    /// key that has a byte sequence is written to the selected process.
    pub fn handle_interactive_mode(&mut self, key: KeyInput) -> (action: Action)
        ensures
            final(self).nav() == interactive_step(old(self).nav(), key),
            action@ == interactive_action(old(self).nav(), old(self).processes@.len(), key),
            final(self).processes == old(self).processes,
            final(self).running == old(self).running,
    {
        if key.code == KeyCode::Char('a') && key.modifiers.control {
            self.input_mode = InputMode::Normal;
            return Action::Nothing;
        }
        let sel = self.selected_index;
        if sel < self.processes.len() {
            if key.modifiers.alt {
                match key.code {
                    KeyCode::PageUp => {
                        return Action::ScrollUp { index: sel, lines: SCROLL_LINES };
                    },
                    KeyCode::PageDown => {
                        return Action::ScrollDown { index: sel, lines: SCROLL_LINES };
                    },
                    KeyCode::End => {
                        return Action::ScrollToBottom { index: sel };
                    },
                    _ => {},
                }
            }
            match input_bytes(key, self.line_ending) {
                Some(bytes) => Action::Write { index: sel, bytes },
                None => Action::Nothing,
            }
        } else {
            Action::Nothing
        }
    }

    /// Handles a key event from the terminal: a press is handled as
    /// `handle_key_events` says; repeats and releases change nothing and ask
    /// for nothing.
    pub fn on_key_event(&mut self, key: KeyInput, phase: KeyPhase) -> (action: Action)
        ensures
            phase == KeyPhase::Press ==> {
                &&& final(self).nav() == key_step(old(self).nav(), old(self).processes@.len(), key)
                &&& action@ == key_action(old(self).nav(), old(self).statuses(), key)
            },
            phase != KeyPhase::Press ==> final(self).nav() == old(self).nav() && action@
                == ActionView::Nothing,
            final(self).processes == old(self).processes,
            final(self).running == old(self).running,
    {
        match phase {
            KeyPhase::Press => self.handle_key_events(key),
            _ => Action::Nothing,
        }
    }

    /// Handles one key press: changes the navigation state as the current
    /// mode's bindings say and returns what the caller must do to the
    /// processes. The process list and the running flag stay as they are.
    pub fn handle_key_events(&mut self, key: KeyInput) -> (action: Action)
        ensures
            final(self).nav() == key_step(old(self).nav(), old(self).processes@.len(), key),
            action@ == key_action(old(self).nav(), old(self).statuses(), key),
            final(self).processes == old(self).processes,
            final(self).running == old(self).running,
    {
        match self.input_mode {
            InputMode::Normal => self.handle_normal_mode(key),
            InputMode::Interactive => self.handle_interactive_mode(key),
        }
    }
}

impl App {
    /// The new pty size of every process for a screen of `height` rows and
    /// `width` columns. A fullscreen process gets the screen less a 5-row and
    /// 2-column frame, and no other process is resized; a fullscreen index
    /// with no process behind it resizes nothing. Otherwise every process
    /// gets one cell of a two-column grid, less a 2-row and 2-column border.
    /// The number of grid rows is taken modulo 2^16, as a `u16` holds it.
    pub fn resize_processes(&self, height: u16, width: u16) -> (plan: Vec<PtyResize>)
        requires
            self.fullscreen_index is None && self.processes@.len() > 0 ==> grid_rows(
                self.processes@.len(),
            ) % 65536 != 0,
        ensures
            match self.fullscreen_index {
                Some(i) => if i < self.processes@.len() {
                    plan@ == seq![fullscreen_resize(i, height, width)]
                } else {
                    plan@.len() == 0
                },
                None => {
                    &&& plan@.len() == self.processes@.len()
                    &&& forall|k: int|
                        0 <= k < plan@.len() ==> #[trigger] plan@[k] == grid_resize(
                            k as usize,
                            self.processes@.len(),
                            height,
                            width,
                        )
                },
            },
    {
        let mut plan: Vec<PtyResize> = Vec::new();
        if let Some(idx) = self.fullscreen_index {
            if idx < self.processes.len() {
                plan.push(
                    PtyResize {
                        index: idx,
                        rows: height.saturating_sub(5),
                        cols: width.saturating_sub(2),
                    },
                );
            }
            proof {
                assert(idx < self.processes@.len() ==> plan@ =~= seq![fullscreen_resize(idx, height, width)]);
            }
            return plan;
        }
        let num_processes = self.processes.len();
        if num_processes == 0 {
            return plan;
        }
        let num_rows: usize = grid_rows_of(num_processes);
        let rows16: u16 = (num_rows % 65536) as u16;
        let cell_height: u16 = height / rows16;
        let cell_width: u16 = width / 2;
        let rows = cell_height.saturating_sub(2);
        let cols = cell_width.saturating_sub(2);
        for k in 0..num_processes
            invariant
                num_processes == self.processes@.len(),
                self.fullscreen_index is None,
                rows == grid_resize(0, num_processes as nat, height, width).rows,
                cols == grid_resize(0, num_processes as nat, height, width).cols,
                plan@.len() == k,
                forall|j: int|
                    0 <= j < k ==> #[trigger] plan@[j] == grid_resize(
                        j as usize,
                        num_processes as nat,
                        height,
                        width,
                    ),
        {
            plan.push(PtyResize { index: k, rows, cols });
        }
        plan
    }

    /// Has no work to do on a tick.
    pub fn tick(&self) {
    }

    /// The processes to kill when the manager quits: every one, in order.
    /// The manager keeps running until `finish_quit`, once they are killed.
    pub fn quit(&self) -> (to_kill: Vec<usize>)
        ensures
            to_kill@ == Seq::new(self.processes@.len(), |i: int| i as usize),
    {
        let mut to_kill: Vec<usize> = Vec::new();
        let n = self.processes.len();
        for i in 0..n
            invariant
                to_kill@ =~= Seq::new(i as nat, |k: int| k as usize),
        {
            to_kill.push(i);
        }
        to_kill
    }

    /// Marks the manager as no longer running, after its processes have been
    /// killed. Nothing else changes.
    pub fn finish_quit(&mut self)
        ensures
            !final(self).running,
            final(self).processes == old(self).processes,
            final(self).nav() == old(self).nav(),
    {
        self.running = false;
    }

    /// Records the status of process `idx` once an operation on it has run;
    /// nothing changes where there is no process `idx`.
    pub fn set_status(&mut self, idx: usize, status: ProcessStatus)
        ensures
            final(self).nav() == old(self).nav(),
            final(self).running == old(self).running,
            final(self).processes@.len() == old(self).processes@.len(),
            forall|k: int|
                0 <= k < old(self).processes@.len() ==> #[trigger] final(self).processes@[k] == if k
                    == idx {
                    (ProcessEntry { status, ..old(self).processes@[k] })
                } else {
                    old(self).processes@[k]
                },
    {
        if idx < self.processes.len() {
            let p = ProcessEntry {
                name: self.processes[idx].name.clone(),
                command: self.processes[idx].command.clone(),
                color: self.processes[idx].color,
                status,
            };
            self.processes.set(idx, p);
        }
    }
}

} // verus!
