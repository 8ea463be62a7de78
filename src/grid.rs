use vstd::prelude::*;

use crate::layout::{center_offset_for, extent_fits, tiles_per_row_for, Layout, MAX_COORD};
use crate::size::{compute_tile_size, fit, fit_size, tile_size};

verus! {

/// Session settings: the largest tile size wanted, the gap between tiles and
/// the padding around the grid.
#[derive(Clone, Copy, Debug, PartialEq, Eq)]
pub struct GridConfig {
    pub max_tile_width: u32,
    pub max_tile_height: u32,
    pub margin: u32,
    pub border_margin: u32,
}

impl GridConfig {
    /// The given maximum tile size, a 5 pixel gap and a 20 pixel border.
    pub fn new(max_tile_width: u32, max_tile_height: u32) -> (r: GridConfig)
        ensures
            r == (GridConfig { max_tile_width, max_tile_height, margin: 5, border_margin: 20 }),
    {
        GridConfig { max_tile_width, max_tile_height, margin: 5, border_margin: 20 }
    }

    /// A grid of `n` tiles under these settings stays within `MAX_COORD`, as
    /// `Grid::with_config` requires.
    pub fn fits(&self, n: usize) -> (r: bool)
        ensures
            r == extent_fits(
                n as int,
                self.max_tile_height as int,
                self.margin as int,
                self.border_margin as int,
            ),
    {
        let step = self.max_tile_height as u128 + self.margin as u128;
        proof {
            assert((n + 1) * step <= 0x1_0000_0000_0000_0000 * 0x2_0000_0000) by (nonlinear_arith)
                requires n <= usize::MAX, step <= 0x2_0000_0000, usize::MAX < 0x1_0000_0000_0000_0000;
        }
        self.border_margin as u128 + (n as u128 + 1) * step <= MAX_COORD as u128
    }
}

/// Keys the grid reacts to; any other key is `Other`.
#[derive(Clone, Copy, Debug, PartialEq, Eq)]
pub enum Key {
    Up,
    Down,
    Left,
    Right,
    Return,
    Home,
    End,
    Escape,
    Other,
}

/// What the host should do after an input event.
#[derive(Clone, Copy, Debug, PartialEq, Eq)]
pub enum Action {
    Nothing,
    /// Run the host's action on the tile with this index.
    Activate(usize),
    /// Leave the grid.
    Quit,
}

/// Row step: up by a row, clamped at the first tile.
pub open spec fn up_index(s: int, t: int) -> int {
    if s >= t {
        s - t
    } else {
        0
    }
}

/// Row step: down by a row, clamped at the last of `n` tiles.
pub open spec fn down_index(s: int, t: int, n: int) -> int {
    if n == 0 {
        s
    } else if s + t <= n - 1 {
        s + t
    } else {
        n - 1
    }
}

pub open spec fn left_index(s: int) -> int {
    if s >= 1 {
        s - 1
    } else {
        0
    }
}

pub open spec fn right_index(s: int, n: int) -> int {
    down_index(s, 1, n)
}

/// Where `k` row steps down from tile `s` lead.
pub open spec fn down_times(s: int, t: int, n: int, k: nat) -> int
    decreases k,
{
    if k == 0 {
        s
    } else {
        down_index(down_times(s, t, n, (k - 1) as nat), t, n)
    }
}

/// After `k` row steps down from tile `s`, the selection is `k` rows further
/// on, or the last tile where that would lie beyond it.
pub proof fn lemma_down_times(s: int, t: int, n: int, k: nat)
    requires
        0 <= s < n,
        t >= 1,
    ensures
        down_times(s, t, n, k) == (if s + k * t <= n - 1 {
            s + k * t
        } else {
            n - 1
        }),
    decreases k,
{
    if k == 0 {
        assert(k * t == 0);
    } else {
        let j = (k - 1) as nat;
        lemma_down_times(s, t, n, j);
        assert(k * t == j * t + t) by (nonlinear_arith)
            requires k == j + 1;
        assert(0 <= j * t) by (nonlinear_arith)
            requires t >= 1;
    }
}

/// Stepping down row by row from any tile reaches the last tile once enough
/// rows have been stepped to pass it, and stays there.
pub proof fn lemma_down_converges(s: int, t: int, n: int, k: nat)
    requires
        0 <= s < n,
        t >= 1,
        s + k * t >= n - 1,
    ensures
        down_times(s, t, n, k) == n - 1,
        down_index(n - 1, t, n) == n - 1,
{
    lemma_down_times(s, t, n, k);
}

/// Where one tile is drawn: the image scaled to fit its cell and centered in
/// it, in screen coordinates.
#[derive(Clone, Copy, Debug, PartialEq, Eq)]
pub struct TileView {
    pub index: usize,
    pub x: i64,
    pub y: i64,
    pub width: u32,
    pub height: u32,
    pub selected: bool,
}

/// The selected tile shown full screen: its image fitted to the viewport and
/// centered in it.
#[derive(Clone, Copy, Debug, PartialEq, Eq)]
pub struct DetailView {
    pub index: usize,
    pub x: u32,
    pub y: u32,
    pub width: u32,
    pub height: u32,
}

/// What one frame shows, and whether a click asked to activate the selection.
#[derive(Debug)]
pub struct Frame {
    /// The tiles to draw, in order.
    pub tiles: Vec<TileView>,
    /// The full-screen tile, drawn over the grid.
    pub detail: Option<DetailView>,
    /// A click landed on the tile that was already selected: the host should
    /// handle it as a press of the return key.
    pub activate: bool,
}

/// The parts of the grid's state that change what is drawn.
#[derive(Clone, Copy, Debug, PartialEq, Eq)]
pub struct Snapshot {
    pub selected: usize,
    pub scroll: i64,
    pub viewport_width: u32,
    pub detail: bool,
}

/// Something that changes what is drawn differs between the two snapshots,
/// so the frame needs drawing again.
pub fn state_changed(prev: &Snapshot, next: &Snapshot) -> (r: bool)
    ensures
        r == (prev.selected != next.selected || prev.scroll != next.scroll || prev.viewport_width
            != next.viewport_width || prev.detail != next.detail),
{
    prev.selected != next.selected || prev.scroll != next.scroll || prev.viewport_width
        != next.viewport_width || prev.detail != next.detail
}

/// What the grid holds, as plain values.
pub struct GridState {
    /// Intrinsic size of each tile's image.
    pub sizes: Seq<(u32, u32)>,
    pub config: GridConfig,
    pub layout: Layout,
    pub selected: int,
    /// Content coordinate shown at the top of the viewport.
    pub scroll: int,
    /// A single tile is shown full screen.
    pub detail: bool,
    /// A pointer position, in viewport coordinates, to resolve on the next frame.
    pub pending_pick: Option<(int, int)>,
    /// Activating a tile may open the detail view.
    pub allow_detail: bool,
}

/// The tile grid: tile size, row layout, selection, scrolling and the
/// full-screen detail view.
pub struct Grid {
    sizes: Vec<(u32, u32)>,
    config: GridConfig,
    layout: Layout,
    selected: usize,
    scroll: i64,
    detail: bool,
    pending_pick: Option<(i32, i32)>,
    allow_detail: bool,
}

impl View for Grid {
    type V = GridState;

    closed spec fn view(&self) -> GridState {
        GridState {
            sizes: self.sizes@,
            config: self.config,
            layout: self.layout,
            selected: self.selected as int,
            scroll: self.scroll as int,
            detail: self.detail,
            pending_pick: match self.pending_pick {
                Some(p) => Some((p.0 as int, p.1 as int)),
                None => None,
            },
            allow_detail: self.allow_detail,
        }
    }
}

impl GridState {
    pub open spec fn count(self) -> int {
        self.sizes.len() as int
    }

    /// Height of a row including the gap below it.
    pub open spec fn row_step(self) -> int {
        self.layout.tile_height + self.layout.margin
    }

    pub open spec fn wf(self) -> bool {
        &&& self.layout.wf()
        &&& self.layout.margin == self.config.margin
        &&& self.layout.border == self.config.border_margin
        &&& (self.layout.tile_width as int, self.layout.tile_height as int) == tile_size(
            self.sizes,
            self.config.max_tile_width as int,
            self.config.max_tile_height as int,
        )
        &&& extent_fits(
            self.count(),
            self.layout.tile_height as int,
            self.layout.margin as int,
            self.layout.border as int,
        )
        &&& 0 <= self.selected
        &&& (self.count() == 0 ==> self.selected == 0)
        &&& (self.count() > 0 ==> self.selected < self.count())
        &&& -self.row_step() <= self.scroll <= self.layout.border + (self.count() + 1)
            * self.row_step()
        &&& match self.pending_pick {
            Some(p) => i32::MIN <= p.0 <= i32::MAX && i32::MIN <= p.1 <= i32::MAX,
            None => true,
        }
    }
}

impl GridState {
    pub open spec fn with_selected(self, selected: int) -> GridState {
        GridState { selected, ..self }
    }

    pub open spec fn with_detail(self, detail: bool) -> GridState {
        GridState { detail, ..self }
    }

    pub open spec fn tiles_per_row(self) -> int {
        self.layout.tiles_per_row as int
    }

    /// The state after key `key` is pressed.
    pub open spec fn after_key(self, key: Key) -> GridState {
        match key {
            Key::Up => self.with_selected(up_index(self.selected, self.tiles_per_row())),
            Key::Down => self.with_selected(
                down_index(self.selected, self.tiles_per_row(), self.count()),
            ),
            Key::Left => self.with_selected(left_index(self.selected)),
            Key::Right => self.with_selected(right_index(self.selected, self.count())),
            Key::Home => self.with_selected(0),
            Key::End => if self.count() > 0 {
                self.with_selected(self.count() - 1)
            } else {
                self
            },
            Key::Return => if self.count() > 0 && self.allow_detail && !self.detail {
                self.with_detail(true)
            } else {
                self
            },
            Key::Escape => if self.detail {
                self.with_detail(false)
            } else {
                self
            },
            Key::Other => self,
        }
    }

    /// What the host is asked to do when key `key` is pressed: activating a
    /// tile that does not open the detail view runs the host's action on it,
    /// and escape outside the detail view quits.
    pub open spec fn key_action(self, key: Key) -> Action {
        match key {
            Key::Return => if self.count() > 0 && !(self.allow_detail && !self.detail) {
                Action::Activate(self.selected as usize)
            } else {
                Action::Nothing
            },
            Key::Escape => if self.detail {
                Action::Nothing
            } else {
                Action::Quit
            },
            _ => Action::Nothing,
        }
    }

    /// The state after the wheel turns by `dy`: away from the user moves up a
    /// row, towards the user down a row; in the detail view it pages one tile.
    pub open spec fn after_wheel(self, dy: int) -> GridState {
        if dy > 0 {
            if self.detail {
                self.after_key(Key::Left)
            } else {
                self.after_key(Key::Up)
            }
        } else if dy < 0 {
            if self.detail {
                self.after_key(Key::Right)
            } else {
                self.after_key(Key::Down)
            }
        } else {
            self
        }
    }

    /// Left edge of tile `i` on screen.
    pub open spec fn screen_x(self, i: int) -> int {
        self.layout.x_of(i)
    }

    /// Top edge of tile `i` on screen, after scrolling.
    pub open spec fn screen_y(self, i: int) -> int {
        self.layout.y_of(i) - self.scroll
    }

    /// The tile under the screen point `(x, y)`, if any.
    pub open spec fn tile_under(self, x: int, y: int) -> Option<int> {
        self.layout.first_hit(self.count(), x, y + self.scroll)
    }
}

impl GridState {
    /// The state laid out for a viewport `vw` wide.
    pub open spec fn relaid(self, vw: u32) -> GridState {
        GridState {
            layout: Layout {
                viewport_width: vw,
                tiles_per_row: tiles_per_row_for(
                    vw as int,
                    self.layout.tile_width as int,
                    self.layout.margin as int,
                    self.layout.border as int,
                ) as u64,
                center_offset: center_offset_for(
                    vw as int,
                    self.layout.tile_width as int,
                    self.layout.margin as int,
                    self.layout.border as int,
                ) as u64,
                ..self.layout
            },
            ..self
        }
    }

    /// The pending pointer position, if any, resolved: the tile under it
    /// becomes the selection; a miss leaves the selection as it was.
    pub open spec fn picked(self) -> GridState {
        match self.pending_pick {
            None => self,
            Some(p) => match self.tile_under(p.0, p.1) {
                Some(i) => GridState { selected: i, pending_pick: None, ..self },
                None => GridState { pending_pick: None, ..self },
            },
        }
    }

    /// The pending pointer position lies on the tile already selected.
    pub open spec fn pick_activates(self) -> bool {
        match self.pending_pick {
            None => false,
            Some(p) => self.tile_under(p.0, p.1) == Some(self.selected),
        }
    }

    /// The first row on screen, or the selection's row if that is above it.
    pub open spec fn start_row(self) -> int {
        let first = if self.scroll > 0 && self.row_step() > 0 {
            self.scroll / self.row_step()
        } else {
            0
        };
        let selection_row = self.selected / self.tiles_per_row();
        if first <= selection_row {
            first
        } else {
            selection_row
        }
    }

    /// Index of the first tile drawn.
    pub open spec fn visible_start(self) -> int {
        self.start_row() * self.tiles_per_row()
    }

    /// Drawing stops at tile `i`: it starts a row, comes after the selection,
    /// and lies below a viewport `vh` high.
    pub open spec fn stops_at(self, i: int, vh: int) -> bool {
        &&& i % self.tiles_per_row() == 0
        &&& i > self.selected
        &&& self.layout.y_of(i) > self.scroll + vh
    }

    /// The first tile from `i` on where drawing stops, or the tile count.
    pub open spec fn end_from(self, i: int, vh: int) -> int
        decreases self.count() - i,
    {
        if i >= self.count() {
            self.count()
        } else if self.stops_at(i, vh) {
            i
        } else {
            self.end_from(i + 1, vh)
        }
    }

    /// One past the last tile drawn.
    pub open spec fn visible_end(self, vh: int) -> int {
        self.end_from(self.selected + 1, vh)
    }

    /// `v` draws tile `i` as this state shows it.
    pub open spec fn shows_tile(self, v: TileView, i: int) -> bool {
        let fitted = fit_size(
            self.sizes[i].0 as int,
            self.sizes[i].1 as int,
            self.layout.tile_width as int,
            self.layout.tile_height as int,
        );
        &&& v.index == i
        &&& v.width == fitted.0
        &&& v.height == fitted.1
        &&& v.x == self.screen_x(i) + (self.layout.tile_width - fitted.0) / 2
        &&& v.y == self.screen_y(i) + (self.layout.tile_height - fitted.1) / 2
        &&& v.selected == (i == self.selected)
    }

    /// The full-screen view of the selection in a `vw` x `vh` viewport.
    pub open spec fn shows_detail(self, d: Option<DetailView>, vw: int, vh: int) -> bool {
        if self.detail && self.count() > 0 {
            let fitted = fit_size(
                self.sizes[self.selected].0 as int,
                self.sizes[self.selected].1 as int,
                vw,
                vh,
            );
            d == Some(
                DetailView {
                    index: self.selected as usize,
                    x: ((vw - fitted.0) / 2) as u32,
                    y: ((vh - fitted.1) / 2) as u32,
                    width: fitted.0 as u32,
                    height: fitted.1 as u32,
                },
            )
        } else {
            d is None
        }
    }

    /// One row step of scrolling towards the selection when it is not wholly
    /// inside a viewport `vh` high.
    pub open spec fn scrolled(self, vh: int) -> GridState {
        if self.count() == 0 {
            self
        } else {
            let y = self.layout.y_of(self.selected);
            if y < self.scroll {
                GridState { scroll: self.scroll - self.row_step(), ..self }
            } else if y + self.layout.tile_height > self.scroll + vh {
                GridState { scroll: self.scroll + self.row_step(), ..self }
            } else {
                self
            }
        }
    }
}

/// The center of any tile on screen hits that tile, whatever the scroll
/// offset, when tiles are apart by a margin or at least two pixels on a side.
pub proof fn lemma_center_hits_tile(s: GridState, i: int)
    requires
        s.wf(),
        0 <= i < s.count(),
        s.layout.margin > 0 || (s.layout.tile_width >= 2 && s.layout.tile_height >= 2),
    ensures
        s.tile_under(
            s.screen_x(i) + s.layout.tile_width / 2,
            s.screen_y(i) + s.layout.tile_height / 2,
        ) == Some(i),
{
    s.layout.lemma_hit_center(s.count(), i);
}

impl Grid {
    pub open spec fn wf(&self) -> bool {
        self@.wf()
    }

    /// A grid over tiles of the given intrinsic sizes, laid out for a viewport
    /// of no width until the first resize.
    pub fn with_config(sizes: Vec<(u32, u32)>, config: GridConfig) -> (r: Grid)
        requires
            extent_fits(
                sizes@.len() as int,
                config.max_tile_height as int,
                config.margin as int,
                config.border_margin as int,
            ),
        ensures
            r.wf(),
            r@.sizes == sizes@,
            r@.config == config,
            (r@.layout.tile_width as int, r@.layout.tile_height as int) == tile_size(
                sizes@,
                config.max_tile_width as int,
                config.max_tile_height as int,
            ),
            r@.layout.viewport_width == 0,
            r@.selected == 0,
            r@.scroll == 0,
            !r@.detail,
            r@.pending_pick is None,
            r@.allow_detail,
    {
        let (tw, th) = compute_tile_size(&sizes, config.max_tile_width, config.max_tile_height);
        proof {
            let n = sizes@.len() as int;
            assert((n + 1) * (th + config.margin) <= (n + 1) * (config.max_tile_height
                + config.margin)) by (nonlinear_arith)
                requires n >= 0, th <= config.max_tile_height;
        }
        let layout = Layout::new(0, tw, th, config.margin, config.border_margin);
        Grid {
            sizes,
            config,
            layout,
            selected: 0,
            scroll: 0,
            detail: false,
            pending_pick: None,
            allow_detail: true,
        }
    }

    /// A grid with the default gap and border and the given maximum tile size.
    pub fn new(sizes: Vec<(u32, u32)>, tile_width: u32, tile_height: u32) -> (r: Grid)
        requires
            extent_fits(sizes@.len() as int, tile_height as int, 5, 20),
        ensures
            r.wf(),
            r@.sizes == sizes@,
            r@.config == (GridConfig {
                max_tile_width: tile_width,
                max_tile_height: tile_height,
                margin: 5,
                border_margin: 20,
            }),
            r@.layout.viewport_width == 0,
            r@.selected == 0,
            r@.scroll == 0,
            !r@.detail,
            r@.pending_pick is None,
            r@.allow_detail,
    {
        Grid::with_config(sizes, GridConfig::new(tile_width, tile_height))
    }

    /// Lets activation open the detail view, or not.
    pub fn set_allow_detail(&mut self, allow: bool)
        requires
            old(self).wf(),
        ensures
            final(self).wf(),
            final(self)@ == (GridState { allow_detail: allow, ..old(self)@ }),
    {
        self.allow_detail = allow;
    }

    /// Lays the grid out again for a viewport `viewport_width` wide.
    pub fn resize(&mut self, viewport_width: u32)
        requires
            old(self).wf(),
        ensures
            final(self).wf(),
            final(self)@ == (GridState { layout: final(self)@.layout, ..old(self)@ }),
            final(self)@.layout.tile_width == old(self)@.layout.tile_width,
            final(self)@.layout.tile_height == old(self)@.layout.tile_height,
            final(self)@.layout.margin == old(self)@.layout.margin,
            final(self)@.layout.border == old(self)@.layout.border,
            final(self)@.layout.viewport_width == viewport_width,
            final(self)@.layout.tiles_per_row >= 1,
    {
        self.layout = Layout::new(
            viewport_width,
            self.layout.tile_width,
            self.layout.tile_height,
            self.layout.margin,
            self.layout.border,
        );
    }

    /// Selects the tile one row up, or the first tile from the first row.
    pub fn up(&mut self)
        requires
            old(self).wf(),
        ensures
            final(self).wf(),
            final(self)@ == old(self)@.after_key(Key::Up),
            final(self)@.selected >= 0,
    {
        let t = self.layout.tiles_per_row;
        if self.selected as u64 >= t {
            self.selected = self.selected - t as usize;
        } else {
            self.selected = 0;
        }
    }

    /// Selects the tile one row down, or the last tile from the last row.
    pub fn down(&mut self)
        requires
            old(self).wf(),
        ensures
            final(self).wf(),
            final(self)@ == old(self)@.after_key(Key::Down),
            final(self)@.count() > 0 ==> final(self)@.selected <= final(self)@.count() - 1,
    {
        let n = self.sizes.len();
        if n > 0 {
            let t = self.layout.tiles_per_row;
            if t <= (n - 1 - self.selected) as u64 {
                self.selected = self.selected + t as usize;
            } else {
                self.selected = n - 1;
            }
        }
    }

    /// Selects the previous tile, staying on the first.
    pub fn left(&mut self)
        requires
            old(self).wf(),
        ensures
            final(self).wf(),
            final(self)@ == old(self)@.after_key(Key::Left),
            final(self)@.selected >= 0,
    {
        if self.selected >= 1 {
            self.selected = self.selected - 1;
        }
    }

    /// Selects the next tile, staying on the last.
    pub fn right(&mut self)
        requires
            old(self).wf(),
        ensures
            final(self).wf(),
            final(self)@ == old(self)@.after_key(Key::Right),
            final(self)@.count() > 0 ==> final(self)@.selected <= final(self)@.count() - 1,
    {
        let n = self.sizes.len();
        if n > 0 && self.selected < n - 1 {
            self.selected = self.selected + 1;
        }
    }

    /// Selects the first tile.
    pub fn home(&mut self)
        requires
            old(self).wf(),
        ensures
            final(self).wf(),
            final(self)@ == old(self)@.after_key(Key::Home),
    {
        self.selected = 0;
    }

    /// Selects the last tile, if there is one.
    pub fn end(&mut self)
        requires
            old(self).wf(),
        ensures
            final(self).wf(),
            final(self)@ == old(self)@.after_key(Key::End),
    {
        let n = self.sizes.len();
        if n > 0 {
            self.selected = n - 1;
        }
    }

    /// Handles a key press, after the host had the chance to remap or swallow
    /// it, and says what the host should do next.
    pub fn key_down_event(&mut self, key: Key) -> (r: Action)
        requires
            old(self).wf(),
        ensures
            final(self).wf(),
            final(self)@ == old(self)@.after_key(key),
            r == old(self)@.key_action(key),
    {
        match key {
            Key::Up => {
                self.up();
                Action::Nothing
            },
            Key::Down => {
                self.down();
                Action::Nothing
            },
            Key::Left => {
                self.left();
                Action::Nothing
            },
            Key::Right => {
                self.right();
                Action::Nothing
            },
            Key::Home => {
                self.home();
                Action::Nothing
            },
            Key::End => {
                self.end();
                Action::Nothing
            },
            Key::Return => {
                if self.sizes.len() == 0 {
                    Action::Nothing
                } else if self.allow_detail && !self.detail {
                    self.detail = true;
                    Action::Nothing
                } else {
                    Action::Activate(self.selected)
                }
            },
            Key::Escape => {
                if self.detail {
                    self.detail = false;
                    Action::Nothing
                } else {
                    Action::Quit
                }
            },
            Key::Other => Action::Nothing,
        }
    }

    /// Handles a turn of the mouse wheel by `dy` (positive: away from the user).
    pub fn mouse_wheel_event(&mut self, dy: i32)
        requires
            old(self).wf(),
        ensures
            final(self).wf(),
            final(self)@ == old(self)@.after_wheel(dy as int),
    {
        if dy > 0 {
            if self.detail {
                self.left();
            } else {
                self.up();
            }
        } else if dy < 0 {
            if self.detail {
                self.right();
            } else {
                self.down();
            }
        }
    }

    /// Asks the next frame to select the tile under screen point `(x, y)`.
    pub fn select_tile_under(&mut self, x: i32, y: i32)
        requires
            old(self).wf(),
        ensures
            final(self).wf(),
            final(self)@ == (GridState { pending_pick: Some((x as int, y as int)), ..old(self)@ }),
    {
        self.pending_pick = Some((x, y));
    }

    /// Handles a pointer release at screen point `(x, y)`: the next frame
    /// selects the tile under it.
    pub fn mouse_button_up_event(&mut self, x: i32, y: i32)
        requires
            old(self).wf(),
        ensures
            final(self).wf(),
            final(self)@ == (GridState { pending_pick: Some((x as int, y as int)), ..old(self)@ }),
    {
        self.select_tile_under(x, y);
    }

    /// Replaces the tiles, for instance after a reload: the tile size is
    /// computed again for the same viewport width, the selection is clamped to
    /// the new last tile and the scroll offset to the new grid's extent.
    pub fn set_tiles(&mut self, sizes: Vec<(u32, u32)>)
        requires
            old(self).wf(),
            extent_fits(
                sizes@.len() as int,
                old(self)@.config.max_tile_height as int,
                old(self)@.config.margin as int,
                old(self)@.config.border_margin as int,
            ),
        ensures
            final(self).wf(),
            final(self)@.sizes == sizes@,
            final(self)@.config == old(self)@.config,
            final(self)@.layout.viewport_width == old(self)@.layout.viewport_width,
            final(self)@.selected == if sizes@.len() == 0 {
                0
            } else if old(self)@.selected < sizes@.len() {
                old(self)@.selected
            } else {
                sizes@.len() - 1
            },
            final(self)@.scroll == if old(self)@.scroll < -final(self)@.row_step() {
                -final(self)@.row_step()
            } else if old(self)@.scroll > final(self)@.layout.border + (sizes@.len() + 1)
                * final(self)@.row_step() {
                final(self)@.layout.border + (sizes@.len() + 1) * final(self)@.row_step()
            } else {
                old(self)@.scroll
            },
            final(self)@.detail == old(self)@.detail,
            final(self)@.pending_pick == old(self)@.pending_pick,
            final(self)@.allow_detail == old(self)@.allow_detail,
    {
        let (tw, th) = compute_tile_size(&sizes, self.config.max_tile_width, self.config.max_tile_height);
        let n = sizes.len();
        proof {
            let c = self.config;
            assert((n + 1) * (th + c.margin) <= (n + 1) * (c.max_tile_height + c.margin))
                by (nonlinear_arith)
                requires n >= 0, th <= c.max_tile_height;
        }
        self.layout = Layout::new(
            self.layout.viewport_width,
            tw,
            th,
            self.config.margin,
            self.config.border_margin,
        );
        self.sizes = sizes;
        if n == 0 {
            self.selected = 0;
        } else if self.selected >= n {
            self.selected = n - 1;
        }
        let step = th as i64 + self.config.margin as i64;
        proof {
            assert((n + 1) * step <= 0x1_0000_0000_0000_0000 * 0x2_0000_0000) by (nonlinear_arith)
                requires 0 <= n <= usize::MAX, 0 <= step <= 0x2_0000_0000, usize::MAX < 0x1_0000_0000_0000_0000;
        }
        let limit = (self.config.border_margin as u128 + (n as u128 + 1) * step as u128) as i64;
        if self.scroll < -step {
            self.scroll = -step;
        } else if self.scroll > limit {
            self.scroll = limit;
        }
    }

    /// The tile under screen point `(x, y)` at the current scroll offset.
    pub fn hit_test(&self, x: i32, y: i32) -> (r: Option<usize>)
        requires
            self.wf(),
        ensures
            match r {
                Some(i) => self@.tile_under(x as int, y as int) == Some(i as int),
                None => self@.tile_under(x as int, y as int) is None,
            },
    {
        self.layout.hit_test(self.sizes.len(), x as i64, y as i64 + self.scroll)
    }

    /// Resolves the pending pointer position against the current layout.
    fn resolve_pick(&mut self) -> (activate: bool)
        requires
            old(self).wf(),
        ensures
            final(self).wf(),
            final(self)@ == old(self)@.picked(),
            activate == old(self)@.pick_activates(),
    {
        let mut activate = false;
        if let Some((x, y)) = self.pending_pick {
            let hit = self.hit_test(x, y);
            if let Some(i) = hit {
                proof {
                    self.layout.lemma_first_hit(
                        self@.count(),
                        x as int,
                        y as int + self@.scroll,
                    );
                }
                activate = i == self.selected;
                self.selected = i;
            }
            self.pending_pick = None;
        }
        activate
    }

    proof fn lemma_end_from_bounds(s: GridState, i: int, vh: int)
        requires
            0 <= i,
        ensures
            s.end_from(i, vh) <= s.count(),
            i <= s.count() ==> i <= s.end_from(i, vh),
        decreases s.count() - i,
    {
        if i < s.count() && !s.stops_at(i, vh) {
            Self::lemma_end_from_bounds(s, i + 1, vh);
        }
    }

    /// The tiles drawn in a viewport `viewport_height` high, from first to one
    /// past the last.
    fn visible_range(&self, viewport_height: u32) -> (r: (usize, usize))
        requires
            self.wf(),
        ensures
            r.0 as int == self@.visible_start(),
            r.1 as int == self@.visible_end(viewport_height as int),
            r.0 <= r.1 <= self@.count(),
            self@.count() > 0 ==> r.0 <= self@.selected < r.1,
    {
        let ghost s = self@;
        let n = self.sizes.len();
        let t = self.layout.tiles_per_row;
        let step = self.layout.tile_height as u64 + self.layout.margin as u64;
        let first: u64 = if self.scroll > 0 && step > 0 {
            self.scroll as u64 / step
        } else {
            0
        };
        let selection_row = self.selected as u64 / t;
        let start_row = if first <= selection_row {
            first
        } else {
            selection_row
        };
        proof {
            assert(start_row * t <= self.selected) by (nonlinear_arith)
                requires
                    start_row <= selection_row,
                    selection_row as int == (self.selected as int) / (t as int),
                    t >= 1,
            ;
        }
        let start = (start_row * t) as usize;
        let mut end = self.selected + 1;
        if end > n {
            end = n;
        }
        proof {
            if n == 0 {
                assert(s.end_from(s.selected + 1, viewport_height as int) == 0);
            }
        }
        while end < n
            invariant
                self.wf(),
                s == self@,
                n == s.count(),
                t == s.tiles_per_row(),
                s.selected + 1 <= end <= n || (n == 0 && end == 0),
                s.end_from(end as int, viewport_height as int) == s.visible_end(
                    viewport_height as int,
                ),
            ensures
                end as int == s.visible_end(viewport_height as int),
            decreases n - end,
        {
            proof {
                self.layout.lemma_position_bounds(end as int);
                assert((end + 1) * s.row_step() <= (n + 1) * s.row_step()) by (nonlinear_arith)
                    requires end < n, s.row_step() >= 0;
            }
            let (_, y) = self.layout.tile_position(end);
            if end as u64 % t == 0 && end > self.selected && y as i64 > self.scroll
                + viewport_height as i64 {
                break;
            }
            end = end + 1;
        }
        proof {
            Self::lemma_end_from_bounds(s, s.selected + 1, viewport_height as int);
        }
        (start, end)
    }

    /// How tile `i` is drawn.
    fn tile_view(&self, i: usize) -> (r: TileView)
        requires
            self.wf(),
            i < self@.count(),
        ensures
            self@.shows_tile(r, i as int),
    {
        let (x, y) = self.tile_position(i);
        let tw = self.layout.tile_width;
        let th = self.layout.tile_height;
        let size = self.sizes[i];
        let fitted = fit(size.0, size.1, tw, th);
        proof {
            self.layout.lemma_position_bounds(i as int);
            let n = self@.count();
            assert((i + 1) * self@.row_step() <= (n + 1) * self@.row_step()) by (nonlinear_arith)
                requires i < n, self@.row_step() >= 0;
        }
        TileView {
            index: i,
            x: x + ((tw - fitted.0) / 2) as i64,
            y: y + ((th - fitted.1) / 2) as i64,
            width: fitted.0,
            height: fitted.1,
            selected: i == self.selected,
        }
    }

    /// Scrolls one row towards the selection if it is not wholly visible.
    fn scroll_to_selection(&mut self, viewport_height: u32)
        requires
            old(self).wf(),
        ensures
            final(self).wf(),
            final(self)@ == old(self)@.scrolled(viewport_height as int),
    {
        let n = self.sizes.len();
        if n > 0 {
            proof {
                self.layout.lemma_position_bounds(self.selected as int);
                let k = self.selected as int;
                let sy = self@.row_step();
                assert((k + 1) * sy <= (n + 1) * sy) by (nonlinear_arith)
                    requires k < n, sy >= 0;
                assert(k * sy <= (n - 1) * sy) by (nonlinear_arith)
                    requires k <= n - 1, sy >= 0;
                assert((n + 1) * sy == (n - 1) * sy + 2 * sy) by (nonlinear_arith);
            }
            let (_, y) = self.layout.tile_position(self.selected);
            let y = y as i64;
            let step = self.layout.tile_height as i64 + self.layout.margin as i64;
            if y < self.scroll {
                self.scroll = self.scroll - step;
            } else if y + (self.layout.tile_height as i64) > self.scroll + viewport_height as i64 {
                self.scroll = self.scroll + step;
            }
        }
    }

    /// The selection shown full screen, in detail mode.
    fn detail_view(&self, viewport_width: u32, viewport_height: u32) -> (r: Option<DetailView>)
        requires
            self.wf(),
        ensures
            self@.shows_detail(r, viewport_width as int, viewport_height as int),
    {
        if self.detail && self.sizes.len() > 0 {
            let size = self.sizes[self.selected];
            let fitted = fit(size.0, size.1, viewport_width, viewport_height);
            Some(
                DetailView {
                    index: self.selected,
                    x: (viewport_width - fitted.0) / 2,
                    y: (viewport_height - fitted.1) / 2,
                    width: fitted.0,
                    height: fitted.1,
                },
            )
        } else {
            None
        }
    }

    /// One frame for a viewport of the given size: lays the grid out again if
    /// the width changed, selects the tile under a pending click, lists the
    /// tiles to draw from the first visible row (or the selection's row, if
    /// higher) until a row after the selection starts below the viewport, and
    /// scrolls one row towards the selection if it is not wholly on screen.
    pub fn frame(&mut self, viewport_width: u32, viewport_height: u32) -> (r: Frame)
        requires
            old(self).wf(),
        ensures
            final(self).wf(),
            ({
                let shown = old(self)@.relaid(viewport_width).picked();
                &&& final(self)@ == shown.scrolled(viewport_height as int)
                &&& r.activate == old(self)@.relaid(viewport_width).pick_activates()
                &&& r.tiles@.len() == shown.visible_end(viewport_height as int)
                    - shown.visible_start()
                &&& forall|k: int|
                    0 <= k < r.tiles@.len() ==> shown.shows_tile(
                        #[trigger] r.tiles@[k],
                        shown.visible_start() + k,
                    )
                &&& shown.shows_detail(r.detail, viewport_width as int, viewport_height as int)
            }),
    {
        if viewport_width != self.layout.viewport_width {
            self.resize(viewport_width);
        }
        let activate = self.resolve_pick();
        let (start, end) = self.visible_range(viewport_height);
        let mut tiles: Vec<TileView> = Vec::new();
        let mut i = start;
        while i < end
            invariant
                self.wf(),
                start <= i <= end <= self@.count(),
                tiles@.len() == i - start,
                forall|k: int|
                    0 <= k < tiles@.len() ==> self@.shows_tile(#[trigger] tiles@[k], start + k),
            decreases end - i,
        {
            let v = self.tile_view(i);
            tiles.push(v);
            i = i + 1;
        }
        let detail = self.detail_view(viewport_width, viewport_height);
        self.scroll_to_selection(viewport_height);
        Frame { tiles, detail, activate }
    }

    /// What is drawn depends on these.
    pub fn snapshot(&self) -> (r: Snapshot)
        requires
            self.wf(),
        ensures
            r.selected as int == self@.selected,
            r.scroll as int == self@.scroll,
            r.viewport_width == self@.layout.viewport_width,
            r.detail == self@.detail,
    {
        Snapshot {
            selected: self.selected,
            scroll: self.scroll,
            viewport_width: self.layout.viewport_width,
            detail: self.detail,
        }
    }

    pub fn tile_count(&self) -> (r: usize)
        ensures
            r as int == self@.count(),
    {
        self.sizes.len()
    }

    pub fn selected_index(&self) -> (r: usize)
        ensures
            r as int == self@.selected,
    {
        self.selected
    }

    /// Content coordinate at the top of the viewport.
    pub fn scroll_offset(&self) -> (r: i64)
        ensures
            r as int == self@.scroll,
    {
        self.scroll
    }

    pub fn tiles_per_row(&self) -> (r: u64)
        ensures
            r == self@.layout.tiles_per_row,
    {
        self.layout.tiles_per_row
    }

    pub fn center_offset(&self) -> (r: u64)
        ensures
            r == self@.layout.center_offset,
    {
        self.layout.center_offset
    }

    /// The shared tile width and height.
    pub fn tile_size(&self) -> (r: (u32, u32))
        ensures
            r == (self@.layout.tile_width, self@.layout.tile_height),
    {
        (self.layout.tile_width, self.layout.tile_height)
    }

    pub fn layout(&self) -> (r: Layout)
        ensures
            r == self@.layout,
    {
        self.layout
    }

    pub fn in_detail(&self) -> (r: bool)
        ensures
            r == self@.detail,
    {
        self.detail
    }

    pub fn allow_detail(&self) -> (r: bool)
        ensures
            r == self@.allow_detail,
    {
        self.allow_detail
    }

    /// Top-left corner of tile `i` on screen.
    pub fn tile_position(&self, i: usize) -> (r: (i64, i64))
        requires
            self.wf(),
            i < self@.count(),
        ensures
            r.0 as int == self@.screen_x(i as int),
            r.1 as int == self@.screen_y(i as int),
    {
        proof {
            self.layout.lemma_position_bounds(i as int);
            let n = self@.count();
            assert((i + 1) * self@.row_step() <= (n + 1) * self@.row_step()) by (nonlinear_arith)
                requires i < n, self@.row_step() >= 0;
        }
        let (x, y) = self.layout.tile_position(i);
        (x as i64, y as i64 - self.scroll)
    }
}

} // verus!
