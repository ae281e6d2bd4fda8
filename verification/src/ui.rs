//! What the screen shows: which process goes into which area, which pane is
//! selected or interactive, the pane titles and where the help overlay goes.
//!
//! Areas are divided by ratatui's layout solver; drawing the widgets into
//! the terminal is left to the caller.

use vstd::prelude::*;
use vstd::string::StringExecFns;

use ratatui::layout::Constraint::{Length, Min, Percentage, Ratio};
use ratatui::layout::Direction::{Horizontal, Vertical};
use ratatui::layout::{Layout, Rect};

use crate::app::{grid_rows, grid_rows_of, App, InputMode, ProcessColor, ProcessEntry, ProcessStatus};

verus! {

/// A rectangle of terminal cells.
#[derive(Debug, Clone, Copy, PartialEq, Eq, Structural)]
pub struct Area {
    pub x: u16,
    pub y: u16,
    pub width: u16,
    pub height: u16,
}

/// The direction in which an area is divided.
#[derive(Debug, Clone, Copy, PartialEq, Eq, Structural)]
pub enum Axis {
    Vertical,
    Horizontal,
}

/// How much of an area one part asks for.
#[derive(Debug, Clone, Copy, PartialEq, Eq, Structural)]
pub enum Extent {
    Length(u16),
    Min(u16),
    Percentage(u16),
    Ratio(u32, u32),
}

/// The end of a span of `len` cells from `start`, as a `u16` coordinate
/// holds it.
pub open spec fn span_end(start: u16, len: u16) -> int {
    if start + len > u16::MAX {
        u16::MAX as int
    } else {
        start + len
    }
}

/// `part` lies inside `area`.
pub open spec fn inside(part: Area, area: Area) -> bool {
    &&& area.x <= part.x
    &&& part.x + part.width <= span_end(area.x, area.width)
    &&& area.y <= part.y
    &&& part.y + part.height <= span_end(area.y, area.height)
}

/// Where `a` starts along `axis`.
pub open spec fn start_along(a: Area, axis: Axis) -> int {
    match axis {
        Axis::Vertical => a.y as int,
        Axis::Horizontal => a.x as int,
    }
}

/// Where `a` ends along `axis`.
pub open spec fn end_along(a: Area, axis: Axis) -> int {
    match axis {
        Axis::Vertical => a.y + a.height,
        Axis::Horizontal => a.x + a.width,
    }
}

/// The last coordinate that `area` reaches along `axis`.
pub open spec fn limit_along(area: Area, axis: Axis) -> int {
    match axis {
        Axis::Vertical => span_end(area.y, area.height),
        Axis::Horizontal => span_end(area.x, area.width),
    }
}

/// `part` has the position and extent of `area` across `axis`.
pub open spec fn same_across(part: Area, area: Area, axis: Axis) -> bool {
    match axis {
        Axis::Vertical => part.x == area.x && part.width == area.width,
        Axis::Horizontal => part.y == area.y && part.height == area.height,
    }
}

/// `parts` follow one another along `axis` from the start of `area`, with
/// no gap or overlap, each keeping the extent of `area` across the axis and
/// none reaching past the end of `area`.
pub open spec fn tiles(parts: Seq<Area>, area: Area, axis: Axis) -> bool {
    &&& forall|k: int|
        0 <= k < parts.len() ==> {
            &&& same_across(#[trigger] parts[k], area, axis)
            &&& start_along(area, axis) <= start_along(parts[k], axis)
            &&& end_along(parts[k], axis) <= limit_along(area, axis)
        }
    &&& parts.len() > 0 ==> start_along(parts[0], axis) == start_along(area, axis)
    &&& forall|k: int|
        #![trigger parts[k], parts[k + 1]]
        0 <= k < parts.len() - 1 ==> end_along(parts[k], axis) == start_along(parts[k + 1], axis)
}

/// In a tiling, part `k` ends where part `k + 1` starts.
pub proof fn lemma_tiles_adjacent(parts: Seq<Area>, area: Area, axis: Axis, k: int)
    requires
        tiles(parts, area, axis),
        0 <= k < parts.len() - 1,
    ensures
        end_along(parts[k], axis) == start_along(parts[k + 1], axis),
{
    assert(parts[k] == parts[k]);
    assert(parts[k + 1] == parts[k + 1]);
}

/// A constraint whose size demand never outweighs keeping the parts side by
/// side: a length, a percentage, a ratio, or a minimum of zero.
pub open spec fn plain_extent(e: Extent) -> bool {
    match e {
        Extent::Min(m) => m == 0,
        _ => true,
    }
}

/// Divides `area` along `axis` with `ratatui::layout::Layout::split` (no
/// margin, no spacing, the default `Start` flex).
///
/// Trusted: there is one part per constraint, and the parts tile `area`
/// along `axis` (`tiles`): ratatui gives every part the area's position and
/// extent across the axis, its required constraints keep every boundary
/// inside the area, and with `Start` flex the first spacer is held empty
/// and the inner spacers at zero by weights that outweigh the size demands
/// of lengths, percentages, ratios and zero minimums. How long each part is
/// is not stated: the solver's answer is not a function of the arguments
/// alone where its optimum is not unique.
#[verifier::external_body]
fn split_area(area: Area, axis: Axis, constraints: &Vec<Extent>) -> (parts: Vec<Area>)
    requires
        forall|k: int| 0 <= k < constraints@.len() ==> plain_extent(#[trigger] constraints@[k]),
    ensures
        parts@.len() == constraints@.len(),
        tiles(parts@, area, axis),
{
    let direction = match axis {
        Axis::Vertical => Vertical,
        Axis::Horizontal => Horizontal,
    };
    let constraints = constraints.iter().map(|c| match *c {
        Extent::Length(n) => Length(n),
        Extent::Min(n) => Min(n),
        Extent::Percentage(p) => Percentage(p),
        Extent::Ratio(a, b) => Ratio(a, b),
    });
    let Area { x, y, width, height } = area;
    let parts = Layout::default().direction(direction).constraints(constraints).split(Rect { x, y, width, height });
    parts.iter().map(|&Rect { x, y, width, height }| Area { x, y, width, height }).collect()
}

/// Three parts: `percent` of the area in the middle, half of the rest on
/// either side.
pub open spec fn centered_split(percent: u16) -> Seq<Extent> {
    let side = ((100 - percent) / 2) as u16;
    seq![Extent::Percentage(side), Extent::Percentage(percent), Extent::Percentage(side)]
}

/// The constraints that put `percent` of an area in the middle.
pub fn centered_constraints(percent: u16) -> (c: Vec<Extent>)
    requires
        percent <= 100,
    ensures
        c@ == centered_split(percent),
        forall|k: int| 0 <= k < c@.len() ==> plain_extent(#[trigger] c@[k]),
{
    let side = (100 - percent) / 2;
    let c = vec![Extent::Percentage(side), Extent::Percentage(percent), Extent::Percentage(side)];
    proof {
        assert(c@ =~= centered_split(percent));
    }
    c
}

/// The middle one of three parts.
pub fn middle_part(parts: &Vec<Area>) -> (m: Area)
    requires
        parts@.len() == 3,
    ensures
        m == parts@[1],
{
    parts[1]
}

/// The middle `percent_x` by `percent_y` percent of `r`: the middle
/// (`middle_part`) of three vertical bands (`centered_split(percent_y)`),
/// then the middle of three parts of that band (`centered_split(percent_x)`).
/// Whatever lengths the layout solver gives the bands, the result lies
/// inside `r`.
pub fn centered_rect(percent_x: u16, percent_y: u16, r: Area) -> (area: Area)
    requires
        percent_x <= 100,
        percent_y <= 100,
    ensures
        inside(area, r),
{
    let rows = split_area(r, Axis::Vertical, &centered_constraints(percent_y));
    let band = middle_part(&rows);
    let cols = split_area(band, Axis::Horizontal, &centered_constraints(percent_x));
    let m = middle_part(&cols);
    proof {
        assert(same_across(rows@[1], r, Axis::Vertical));
        assert(same_across(cols@[1], band, Axis::Horizontal));
    }
    m
}

/// The symbol that shows a process's status.
pub open spec fn status_symbol(status: ProcessStatus) -> Seq<char> {
    match status {
        ProcessStatus::Running => "●"@,
        ProcessStatus::Stopped => "○"@,
    }
}

/// The number badge of the pane of process `index`: the superscript of
/// `index + 1` for the first nine processes, nothing after them.
pub open spec fn badge_text(index: usize) -> Seq<char> {
    if index == 0 {
        " ¹"@
    } else if index == 1 {
        " ²"@
    } else if index == 2 {
        " ³"@
    } else if index == 3 {
        " ⁴"@
    } else if index == 4 {
        " ⁵"@
    } else if index == 5 {
        " ⁶"@
    } else if index == 6 {
        " ⁷"@
    } else if index == 7 {
        " ⁸"@
    } else if index == 8 {
        " ⁹"@
    } else {
        ""@
    }
}

/// The title text of a process: its status, its name and its command.
pub open spec fn title_text(p: ProcessEntry) -> Seq<char> {
    status_symbol(p.status) + " "@ + p.name@ + ": "@ + p.command@ + " "@
}

/// The title of a pane or tab.
#[derive(Debug)]
pub struct Title {
    /// The number badge, drawn in the process's colour.
    pub badge: String,
    /// Status, name and command.
    pub text: String,
    pub color: ProcessColor,
    /// Drawn bright where the process is selected, dim otherwise.
    pub highlighted: bool,
}

/// `t` is the title of process `p`, which has index `index`.
pub open spec fn is_title_of(t: Title, p: ProcessEntry, index: usize, selected: bool) -> bool {
    &&& t.badge@ == badge_text(index)
    &&& t.text@ == title_text(p)
    &&& t.color == p.color
    &&& t.highlighted == selected
}

fn status_str(status: ProcessStatus) -> (s: &'static str)
    ensures
        s@ == status_symbol(status),
{
    match status {
        ProcessStatus::Running => "●",
        ProcessStatus::Stopped => "○",
    }
}

fn badge_str(index: usize) -> (s: &'static str)
    ensures
        s@ == badge_text(index),
{
    if index == 0 {
        " ¹"
    } else if index == 1 {
        " ²"
    } else if index == 2 {
        " ³"
    } else if index == 3 {
        " ⁴"
    } else if index == 4 {
        " ⁵"
    } else if index == 5 {
        " ⁶"
    } else if index == 6 {
        " ⁷"
    } else if index == 7 {
        " ⁸"
    } else if index == 8 {
        " ⁹"
    } else {
        ""
    }
}

/// The title of the pane or tab of `process`, which has index `index`.
pub fn process_title(process: &ProcessEntry, index: usize, selected: bool) -> (t: Title)
    ensures
        is_title_of(t, *process, index, selected),
{
    let mut text = String::from_str(status_str(process.status));
    text.append(" ");
    text.append(process.name.as_str());
    text.append(": ");
    text.append(process.command.as_str());
    text.append(" ");
    Title {
        badge: String::from_str(badge_str(index)),
        text,
        color: process.color,
        highlighted: selected,
    }
}

/// One process pane.
#[derive(Debug)]
pub struct Pane {
    /// The process shown.
    pub index: usize,
    pub area: Area,
    /// Drawn with the process's colour and its key labels.
    pub selected: bool,
    /// Keys go to this pane's process; its cursor is shown.
    pub interactive: bool,
    pub title: Title,
}

/// `pane` shows process `index` of `app` in `area`.
pub open spec fn is_pane_of(pane: Pane, app: App, index: usize, selected: bool, area: Area) -> bool {
    &&& pane.index == index
    &&& pane.area == area
    &&& pane.selected == selected
    &&& pane.interactive == (selected && app.input_mode == InputMode::Interactive)
    &&& is_title_of(pane.title, app.processes@[index as int], index, selected)
}

/// What fills the screen under the help overlay.
#[derive(Debug)]
pub enum Screen {
    /// There are no processes: a notice says so.
    NoProcesses,
    /// One process over the whole screen, under a tab bar of all processes.
    Fullscreen {
        tabs_area: Area,
        /// One tab per process, in order.
        tabs: Vec<Title>,
        /// The highlighted tab.
        selected_tab: usize,
        /// The pane, where the fullscreen index names a process.
        pane: Option<Pane>,
    },
    /// Every process in a grid of two columns.
    Grid { panes: Vec<Pane> },
}

/// The whole screen.
#[derive(Debug)]
pub struct RenderPlan {
    pub screen: Screen,
    /// Where the help overlay goes, when it is shown.
    pub help: Option<Area>,
}

/// Height of the tab bar over a fullscreen pane.
pub const TAB_BAR_HEIGHT: u16 = 3;

/// Width and height, in percent of the screen, of the help overlay.
pub const HELP_PERCENT: u16 = 60;

/// Tab bar above, pane below.
pub open spec fn fullscreen_split() -> Seq<Extent> {
    seq![Extent::Length(TAB_BAR_HEIGHT), Extent::Min(0)]
}

/// Rows of equal height for `count` panes, two to a row (the ratio's
/// denominator is the row count as a `u32` holds it).
pub open spec fn grid_row_split(count: nat) -> Seq<Extent> {
    let rows = grid_rows(count);
    Seq::new(rows, |i: int| Extent::Ratio(1, (rows % 0x1_0000_0000) as u32))
}

/// Two columns of equal width.
pub open spec fn grid_col_split() -> Seq<Extent> {
    seq![Extent::Ratio(1, 2), Extent::Ratio(1, 2)]
}

/// The constraints of the tab bar and the pane below it.
pub fn fullscreen_constraints() -> (c: Vec<Extent>)
    ensures
        c@ == fullscreen_split(),
        forall|k: int| 0 <= k < c@.len() ==> plain_extent(#[trigger] c@[k]),
{
    let c = vec![Extent::Length(TAB_BAR_HEIGHT), Extent::Min(0)];
    proof {
        assert(c@ =~= fullscreen_split());
    }
    c
}

/// The constraints of the grid rows for `count` panes.
pub fn grid_row_constraints(count: usize) -> (c: Vec<Extent>)
    ensures
        c@ == grid_row_split(count as nat),
        forall|k: int| 0 <= k < c@.len() ==> plain_extent(#[trigger] c@[k]),
{
    let num_rows: usize = grid_rows_of(count);
    let ratio: u32 = (num_rows as u64 % 0x1_0000_0000) as u32;
    let mut c: Vec<Extent> = Vec::new();
    for i in 0..num_rows
        invariant
            num_rows == grid_rows(count as nat),
            ratio == (num_rows as int % 0x1_0000_0000) as u32,
            c@ =~= grid_row_split(count as nat).take(i as int),
    {
        c.push(Extent::Ratio(1, ratio));
    }
    proof {
        assert(c@ =~= grid_row_split(count as nat));
    }
    c
}

/// The constraints of the two grid columns.
pub fn grid_col_constraints() -> (c: Vec<Extent>)
    ensures
        c@ == grid_col_split(),
        forall|k: int| 0 <= k < c@.len() ==> plain_extent(#[trigger] c@[k]),
{
    let c = vec![Extent::Ratio(1, 2), Extent::Ratio(1, 2)];
    proof {
        assert(c@ =~= grid_col_split());
    }
    c
}

/// `cells` lays out a grid over `area`: its rows follow one another
/// downwards from the top of `area`, each row is split into a left cell at
/// the left edge of `area` and a right cell just after it, and every cell
/// lies inside `area`.
#[verifier::opaque]
pub open spec fn grid_laid_out(cells: Seq<Vec<Area>>, area: Area) -> bool {
    &&& forall|i: int, j: int|
        0 <= i < cells.len() && 0 <= j < 2 ==> inside(#[trigger] cells[i]@[j], area)
    &&& forall|i: int|
        0 <= i < cells.len() ==> {
            &&& (#[trigger] cells[i])@[0].x == area.x
            &&& cells[i]@[1].x == cells[i]@[0].x + cells[i]@[0].width
            &&& cells[i]@[1].y == cells[i]@[0].y
            &&& cells[i]@[1].height == cells[i]@[0].height
        }
    &&& cells.len() > 0 ==> cells[0]@[0].y == area.y
    &&& forall|i: int|
        #![trigger cells[i], cells[i - 1]]
        1 <= i < cells.len() ==> cells[i]@[0].y == cells[i - 1]@[0].y + cells[i - 1]@[0].height
}

/// The panes are placed in a grid over `area`, pane `k` in row `k / 2` and
/// column `k % 2`: even panes at the left edge, odd panes just right of
/// their partner and level with it, the first row at the top and every
/// later row just below the one before it; all inside `area`.
#[verifier::opaque]
pub open spec fn placed_in_grid(panes: Seq<Pane>, area: Area) -> bool {
    &&& forall|k: int| 0 <= k < panes.len() ==> inside((#[trigger] panes[k]).area, area)
    &&& forall|k: int| 0 <= k < panes.len() && k % 2 == 0 ==> (#[trigger] panes[k]).area.x == area.x
    &&& forall|k: int|
        #![trigger panes[k], panes[k - 1]]
        0 <= k < panes.len() && k % 2 == 1 ==> {
            &&& panes[k].area.x == panes[k - 1].area.x + panes[k - 1].area.width
            &&& panes[k].area.y == panes[k - 1].area.y
            &&& panes[k].area.height == panes[k - 1].area.height
        }
    &&& forall|k: int| 0 <= k < panes.len() && k < 2 ==> (#[trigger] panes[k]).area.y == area.y
    &&& forall|k: int|
        #![trigger panes[k], panes[k - 2]]
        2 <= k < panes.len() ==> panes[k].area.y == panes[k - 2].area.y + panes[k - 2].area.height
}

/// `cells` has a row of two areas for each row of a grid of `count` panes.
pub open spec fn grid_shaped(cells: Seq<Vec<Area>>, count: nat) -> bool {
    &&& cells.len() == grid_rows(count)
    &&& forall|i: int| 0 <= i < cells.len() ==> (#[trigger] cells[i])@.len() == 2
}

/// Panes that take the cells of a laid-out grid in row-major order are
/// placed in that grid.
proof fn lemma_grid_placement(panes: Seq<Pane>, cells: Seq<Vec<Area>>, area: Area)
    requires
        grid_laid_out(cells, area),
        forall|i: int| 0 <= i < cells.len() ==> (#[trigger] cells[i])@.len() == 2,
        panes.len() <= 2 * cells.len(),
        forall|k: int| 0 <= k < panes.len() ==> (#[trigger] panes[k]).area == cells[k / 2]@[k % 2],
    ensures
        placed_in_grid(panes, area),
{
    reveal(grid_laid_out);
    reveal(placed_in_grid);
    assert forall|k: int| 0 <= k < panes.len() implies inside((#[trigger] panes[k]).area, area) by {
        assert(panes[k].area == cells[k / 2]@[k % 2]);
    }
    assert forall|k: int| #![trigger panes[k], panes[k - 1]] 0 <= k < panes.len() && k % 2 == 1 implies {
        &&& panes[k].area.x == panes[k - 1].area.x + panes[k - 1].area.width
        &&& panes[k].area.y == panes[k - 1].area.y
        &&& panes[k].area.height == panes[k - 1].area.height
    } by {
        assert((k - 1) / 2 == k / 2);
        assert(panes[k - 1].area == cells[k / 2]@[0]);
        assert(panes[k].area == cells[k / 2]@[1]);
        assert(cells[k / 2]@[0].x == area.x);
    }
    assert forall|k: int| #![trigger panes[k], panes[k - 2]] 2 <= k < panes.len() implies panes[k].area.y
        == panes[k - 2].area.y + panes[k - 2].area.height by {
        assert((k - 2) / 2 == k / 2 - 1);
        assert((k - 2) % 2 == k % 2);
        assert(panes[k - 2].area == cells[k / 2 - 1]@[k % 2]);
        assert(panes[k].area == cells[k / 2]@[k % 2]);
        assert(cells[k / 2]@[0].x == area.x);
        assert(cells[k / 2 - 1]@[0].x == area.x);
    }
    assert forall|k: int| 0 <= k < panes.len() && k < 2 implies (#[trigger] panes[k]).area.y
        == area.y by {
        assert(k / 2 == 0);
        assert(panes[k].area == cells[0]@[k % 2]);
        assert(cells[0]@[0].x == area.x);
    }
    assert forall|k: int| 0 <= k < panes.len() && k % 2 == 0 implies (#[trigger] panes[k]).area.x
        == area.x by {
        assert(panes[k].area == cells[k / 2]@[0]);
        assert(cells[k / 2]@[0].x == area.x);
    }
}

impl App {
    /// The pane of process `index` in `area`; it is interactive where it is
    /// selected and keys go to processes.
    pub fn render_process(&self, index: usize, is_selected: bool, area: Area) -> (pane: Pane)
        requires
            index < self.processes@.len(),
        ensures
            is_pane_of(pane, *self, index, is_selected, area),
    {
        let is_interactive = is_selected && self.input_mode == InputMode::Interactive;
        Pane {
            index,
            area,
            selected: is_selected,
            interactive: is_interactive,
            title: process_title(&self.processes[index], index, is_selected),
        }
    }

    /// The tab titles of every process, the one at `selected` highlighted.
    fn tab_titles(&self, selected: usize) -> (tabs: Vec<Title>)
        ensures
            tabs@.len() == self.processes@.len(),
            forall|i: int|
                0 <= i < tabs@.len() ==> is_title_of(
                    #[trigger] tabs@[i],
                    self.processes@[i],
                    i as usize,
                    i == selected,
                ),
    {
        let mut tabs: Vec<Title> = Vec::new();
        for i in 0..self.processes.len()
            invariant
                tabs@.len() == i,
                forall|k: int|
                    0 <= k < i ==> is_title_of(
                        #[trigger] tabs@[k],
                        self.processes@[k],
                        k as usize,
                        k == selected,
                    ),
        {
            tabs.push(process_title(&self.processes[i], i, i == selected));
        }
        tabs
    }

    /// The panes of the grid whose row `i` is divided into the areas
    /// `cells[i]`: pane `k` shows process `k` in row `k / 2`, column `k % 2`,
    /// and is selected where `k` is the selected index.
    pub fn grid_panes(&self, cells: &Vec<Vec<Area>>) -> (panes: Vec<Pane>)
        requires
            grid_shaped(cells@, self.processes@.len()),
        ensures
            panes@.len() == self.processes@.len(),
            forall|k: int|
                0 <= k < panes@.len() ==> is_pane_of(
                    #[trigger] panes@[k],
                    *self,
                    k as usize,
                    k == self.selected_index,
                    cells@[k / 2]@[k % 2],
                ),
    {
        let n = self.processes.len();
        let num_cols: usize = 2;
        let num_rows: usize = grid_rows_of(n);
        let mut panes: Vec<Pane> = Vec::new();
        for i in 0..num_rows
            invariant
                n == self.processes@.len(),
                num_cols == 2,
                num_rows == grid_rows(n as nat),
                grid_shaped(cells@, n as nat),
                panes@.len() == if 2 * i <= n { 2 * i } else { n as int },
                forall|k: int|
                    0 <= k < panes@.len() ==> is_pane_of(
                        #[trigger] panes@[k],
                        *self,
                        k as usize,
                        k == self.selected_index,
                        cells@[k / 2]@[k % 2],
                    ),
        {
            let row = &cells[i];
            proof {
                assert(row@.len() == 2);
            }
            for j in 0..num_cols
                invariant
                    n == self.processes@.len(),
                    num_cols == 2,
                    i < num_rows,
                    num_rows == grid_rows(n as nat),
                    grid_shaped(cells@, n as nat),
                    *row == cells@[i as int],
                    row@.len() == 2,
                    panes@.len() == if 2 * i + j <= n { 2 * i + j } else { n as int },
                    forall|k: int|
                        0 <= k < panes@.len() ==> is_pane_of(
                            #[trigger] panes@[k],
                            *self,
                            k as usize,
                            k == self.selected_index,
                            cells@[k / 2]@[k % 2],
                        ),
            {
                let process_idx = i * num_cols + j;
                if process_idx < n {
                    let is_selected = process_idx == self.selected_index;
                    proof {
                        assert(process_idx / 2 == i as int);
                        assert(process_idx % 2 == j as int);
                    }
                    panes.push(self.render_process(process_idx, is_selected, row[j]));
                }
            }
        }
        panes
    }

    /// The fullscreen screen with the tab bar in `tabs_area` and the pane of
    /// process `idx`, if there is one, in `body_area`.
    pub fn fullscreen_screen(&self, idx: usize, tabs_area: Area, body_area: Area) -> (screen: Screen)
        ensures
            screen matches Screen::Fullscreen { tabs_area: t, tabs, selected_tab, pane } && {
                &&& t == tabs_area
                &&& selected_tab == idx
                &&& tabs@.len() == self.processes@.len()
                &&& forall|i: int|
                    0 <= i < tabs@.len() ==> is_title_of(
                        #[trigger] tabs@[i],
                        self.processes@[i],
                        i as usize,
                        i == idx,
                    )
                &&& if idx < self.processes@.len() {
                    pane matches Some(p) && is_pane_of(p, *self, idx, true, body_area)
                } else {
                    pane is None
                }
            },
    {
        let tabs = self.tab_titles(idx);
        let pane = if idx < self.processes.len() {
            Some(self.render_process(idx, true, body_area))
        } else {
            None
        };
        Screen::Fullscreen { tabs_area, tabs, selected_tab: idx, pane }
    }

    /// The areas of the grid over `area`: its rows, each divided into two
    /// columns.
    fn grid_cells(&self, area: Area) -> (cells: Vec<Vec<Area>>)
        ensures
            grid_shaped(cells@, self.processes@.len()),
            grid_laid_out(cells@, area),
    {
        let n = self.processes.len();
        let rows = split_area(area, Axis::Vertical, &grid_row_constraints(n));
        let col_constraints = grid_col_constraints();
        let mut cells: Vec<Vec<Area>> = Vec::new();
        proof {
            reveal(grid_laid_out);
        }
        for i in 0..rows.len()
            invariant
                rows@.len() == grid_rows(n as nat),
                n == self.processes@.len(),
                col_constraints@.len() == 2,
                forall|k: int|
                    0 <= k < col_constraints@.len() ==> plain_extent(#[trigger] col_constraints@[k]),
                tiles(rows@, area, Axis::Vertical),
                cells@.len() == i,
                forall|k: int| 0 <= k < i ==> (#[trigger] cells@[k])@.len() == 2,
                forall|k: int|
                    0 <= k < i ==> (#[trigger] cells@[k])@[0].y == rows@[k].y && cells@[k]@[0].height
                        == rows@[k].height,
                grid_laid_out(cells@, area),
        {
            let cols = split_area(rows[i], Axis::Horizontal, &col_constraints);
            let ghost row = rows@[i as int];
            proof {
                reveal(grid_laid_out);
                assert(same_across(row, area, Axis::Vertical));
                assert(same_across(cols@[0], row, Axis::Horizontal));
                assert(same_across(cols@[1], row, Axis::Horizontal));
                lemma_tiles_adjacent(cols@, row, Axis::Horizontal, 0);
                if i > 0 {
                    lemma_tiles_adjacent(rows@, area, Axis::Vertical, i - 1);
                }
            }
            let ghost before = cells@;
            cells.push(cols);
            proof {
                reveal(grid_laid_out);
                assert(cells@[i as int] == cols);
                assert forall|k: int| 0 <= k < i implies #[trigger] cells@[k] == before[k] by {}
            }
        }
        cells
    }

    /// The grid panes over `area`: pane `k` shows process `k` and is placed
    /// in row `k / 2`, column `k % 2` (`placed_in_grid`).
    fn grid_over(&self, area: Area) -> (panes: Vec<Pane>)
        ensures
            panes@.len() == self.processes@.len(),
            forall|k: int|
                0 <= k < panes@.len() ==> is_pane_of(
                    #[trigger] panes@[k],
                    *self,
                    k as usize,
                    k == self.selected_index,
                    panes@[k].area,
                ),
            placed_in_grid(panes@, area),
    {
        let cells = self.grid_cells(area);
        let panes = self.grid_panes(&cells);
        proof {
            lemma_grid_placement(panes@, cells@, area);
        }
        panes
    }

    /// The fullscreen screen over `area`: the tab bar at the top, the pane
    /// of process `idx` (if there is one) just below it.
    fn fullscreen_over(&self, idx: usize, area: Area) -> (screen: Screen)
        ensures
            screen matches Screen::Fullscreen { tabs_area, tabs, selected_tab, pane } && {
                &&& same_across(tabs_area, area, Axis::Vertical)
                &&& tabs_area.y == area.y
                &&& selected_tab == idx
                &&& tabs@.len() == self.processes@.len()
                &&& forall|i: int|
                    0 <= i < tabs@.len() ==> is_title_of(
                        #[trigger] tabs@[i],
                        self.processes@[i],
                        i as usize,
                        i == idx,
                    )
                &&& if idx < self.processes@.len() {
                    pane matches Some(p) && is_pane_of(p, *self, idx, true, p.area) && same_across(
                        p.area,
                        area,
                        Axis::Vertical,
                    ) && p.area.y == tabs_area.y + tabs_area.height && p.area.y + p.area.height
                        <= span_end(area.y, area.height)
                } else {
                    pane is None
                }
            },
    {
        let chunks = split_area(area, Axis::Vertical, &fullscreen_constraints());
        proof {
            lemma_tiles_adjacent(chunks@, area, Axis::Vertical, 0);
            assert(same_across(chunks@[0], area, Axis::Vertical));
            assert(same_across(chunks@[1], area, Axis::Vertical));
            assert(end_along(chunks@[1], Axis::Vertical) <= limit_along(area, Axis::Vertical));
        }
        self.fullscreen_screen(idx, chunks[0], chunks[1])
    }

    /// What to draw on a screen of `area`. With no processes, only a notice.
    /// With a fullscreen process, a tab bar of all processes at the top of
    /// the screen with that process's pane just below it
    /// (`fullscreen_split`); otherwise a grid of all panes, two to a row
    /// (`grid_row_split`, `grid_col_split`, `placed_in_grid`). The help
    /// overlay, when shown, covers the middle of the screen
    /// (`centered_rect`). How many cells the layout solver gives each part is
    /// not fixed here.
    pub fn render(&self, area: Area) -> (plan: RenderPlan)
        ensures
            self.processes@.len() == 0 ==> plan.screen is NoProcesses && plan.help is None,
            self.processes@.len() > 0 ==> {
                &&& (plan.help is Some <==> self.show_help)
                &&& (plan.help matches Some(h) ==> inside(h, area))
                &&& match self.fullscreen_index {
                    Some(idx) => {
                        &&& plan.screen matches Screen::Fullscreen { tabs_area, tabs, selected_tab, pane }
                        &&& same_across(tabs_area, area, Axis::Vertical)
                        &&& tabs_area.y == area.y
                        &&& selected_tab == idx
                        &&& tabs@.len() == self.processes@.len()
                        &&& forall|i: int|
                            0 <= i < tabs@.len() ==> is_title_of(
                                #[trigger] tabs@[i],
                                self.processes@[i],
                                i as usize,
                                i == idx,
                            )
                        &&& if idx < self.processes@.len() {
                            pane matches Some(p) && is_pane_of(p, *self, idx, true, p.area)
                                && same_across(p.area, area, Axis::Vertical) && p.area.y
                                == tabs_area.y + tabs_area.height && p.area.y + p.area.height
                                <= span_end(area.y, area.height)
                        } else {
                            pane is None
                        }
                    },
                    None => {
                        &&& plan.screen matches Screen::Grid { panes }
                        &&& panes@.len() == self.processes@.len()
                        &&& forall|k: int|
                            0 <= k < panes@.len() ==> is_pane_of(
                                #[trigger] panes@[k],
                                *self,
                                k as usize,
                                k == self.selected_index,
                                panes@[k].area,
                            )
                        &&& placed_in_grid(panes@, area)
                    },
                }
            },
    {
        if self.processes.len() == 0 {
            return RenderPlan { screen: Screen::NoProcesses, help: None };
        }
        let screen = match self.fullscreen_index {
            Some(idx) => self.fullscreen_over(idx, area),
            None => Screen::Grid { panes: self.grid_over(area) },
        };
        let help = if self.show_help {
            Some(centered_rect(HELP_PERCENT, HELP_PERCENT, area))
        } else {
            None
        };
        RenderPlan { screen, help }
    }
}
} // verus!
