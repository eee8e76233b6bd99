use crate::cell::Cell;
use crate::direction::{self, is_direction, opposite, opposite_spec};
use crate::engine::Engine;
use crate::game::Game;
use crate::geometry::{Color, Point};
use vstd::prelude::*;

verus! {

/// A maze grown one cell per tick by a randomized depth-first search over a
/// `width × height` grid of cells. Each cell is drawn as `path_width ×
/// path_width` points with a one-point wall to its south and east, inside a
/// one-point border.
pub struct Maze {
    width: u32,
    height: u32,
    path_width: i32,
    num_visited_cells: u32,
    cells_to_visit: Vec<Point>,
    cells: Vec<Cell>,
}

/// Relies on rand::random: a freshly drawn `usize`; nothing is known of its
/// value.
#[verifier::external_body]
fn random_index() -> usize {
    rand::random::<usize>()
}

/// The number of points a row of `cells` cells of `path_width` takes, border
/// included.
pub open spec fn drawn_extent(cells: int, path_width: int) -> int {
    cells * (path_width + 1) + 1
}

/// The position one step from `p` in direction `d`.
pub open spec fn neighbor_spec(p: Point, d: u8) -> Point {
    if d == direction::NORTH {
        Point { x: p.x, y: (p.y - 1) as i32 }
    } else if d == direction::EAST {
        Point { x: (p.x + 1) as i32, y: p.y }
    } else if d == direction::SOUTH {
        Point { x: p.x, y: (p.y + 1) as i32 }
    } else {
        Point { x: (p.x - 1) as i32, y: p.y }
    }
}

proof fn lemma_index_in_range(x: int, y: int, w: int, h: int)
    requires
        0 <= x < w,
        0 <= y < h,
    ensures
        0 <= y * w + x < w * h,
{
    assert(0 <= y * w + x < w * h) by (nonlinear_arith)
        requires
            0 <= x < w,
            0 <= y < h,
    ;
}

proof fn lemma_index_injective(p: Point, q: Point, w: int)
    requires
        0 <= p.x < w,
        0 <= q.x < w,
        0 <= p.y,
        0 <= q.y,
        p.y * w + p.x == q.y * w + q.x,
    ensures
        p == q,
{
    assert(p.y == q.y) by (nonlinear_arith)
        requires
            0 <= p.x < w,
            0 <= q.x < w,
            0 <= p.y,
            0 <= q.y,
            p.y * w + p.x == q.y * w + q.x,
    ;
}

impl Maze {
    pub closed spec fn spec_width(&self) -> u32 {
        self.width
    }

    pub closed spec fn spec_height(&self) -> u32 {
        self.height
    }

    pub closed spec fn visited_count(&self) -> u32 {
        self.num_visited_cells
    }

    /// The path from the first cell to the cell being extended.
    pub closed spec fn stack(&self) -> Seq<Point> {
        self.cells_to_visit@
    }

    /// Every cell has been visited.
    pub open spec fn is_complete(&self) -> bool {
        self.visited_count() >= self.spec_width() * self.spec_height()
    }

    pub open spec fn in_bounds(&self, p: Point) -> bool {
        0 <= p.x < self.spec_width() && 0 <= p.y < self.spec_height()
    }

    /// The cell at `p`, for `p` within the grid.
    pub closed spec fn cell(&self, p: Point) -> Cell {
        self.cells@[p.y * self.width + p.x]
    }

    pub closed spec fn wf(&self) -> bool {
        &&& self.path_width >= 0
        &&& self.width <= i32::MAX
        &&& self.height <= i32::MAX
        &&& drawn_extent(self.width as int, self.path_width as int) <= i32::MAX
        &&& drawn_extent(self.height as int, self.path_width as int) <= i32::MAX
        &&& self.width * self.height <= u32::MAX
        &&& self.cells@.len() == self.width * self.height
        &&& self.num_visited_cells <= self.width * self.height
        &&& forall|i: int|
            0 <= i < self.cells_to_visit@.len() ==> self.in_bounds(
                #[trigger] self.cells_to_visit@[i],
            )
    }

    /// A maze of `width × height` unvisited cells.
    pub fn new(width: u32, height: u32, path_width: u32) -> (m: Maze)
        requires
            drawn_extent(width as int, path_width as int) <= i32::MAX,
            drawn_extent(height as int, path_width as int) <= i32::MAX,
            width * height <= u32::MAX,
            path_width <= i32::MAX,
        ensures
            m.wf(),
            m.spec_width() == width,
            m.spec_height() == height,
            m.visited_count() == 0,
            m.stack().len() == 0,
            forall|p: Point| m.in_bounds(p) ==> m.cell(p) == (Cell { visited: false, paths: 0 }),
    {
        assert(width <= i32::MAX && height <= i32::MAX) by (nonlinear_arith)
            requires
                drawn_extent(width as int, path_width as int) <= i32::MAX,
                drawn_extent(height as int, path_width as int) <= i32::MAX,
                path_width >= 0,
        ;
        let n = (width * height) as usize;
        let mut cells: Vec<Cell> = Vec::new();
        let mut i: usize = 0;
        while i < n
            invariant
                i <= n,
                n == width * height,
                cells@.len() == i,
                forall|j: int| 0 <= j < i ==> cells@[j] == (Cell { visited: false, paths: 0 }),
            decreases n - i,
        {
            cells.push(Cell::new());
            i += 1;
        }
        let m = Maze {
            width,
            height,
            num_visited_cells: 0,
            path_width: path_width as i32,
            cells_to_visit: Vec::new(),
            cells,
        };
        assert forall|p: Point| m.in_bounds(p) implies m.cell(p) == (Cell { visited: false, paths: 0 }) by {
            lemma_index_in_range(p.x as int, p.y as int, width as int, height as int);
        }
        m
    }

    pub fn width(&self) -> (r: u32)
        ensures
            r == self.spec_width(),
    {
        self.width
    }

    pub fn height(&self) -> (r: u32)
        ensures
            r == self.spec_height(),
    {
        self.height
    }

    pub fn num_visited_cells(&self) -> (r: u32)
        ensures
            r == self.visited_count(),
    {
        self.num_visited_cells
    }

    /// Marks the top-left cell visited and starts the search there.
    pub fn begin_at_origin(&mut self)
        requires
            old(self).wf(),
            old(self).spec_width() >= 1,
            old(self).spec_height() >= 1,
        ensures
            final(self).wf(),
            final(self).spec_width() == old(self).spec_width(),
            final(self).spec_height() == old(self).spec_height(),
            final(self).stack() == seq![Point { x: 0, y: 0 }],
            final(self).visited_count() == 1,
            final(self).cell(Point { x: 0, y: 0 }).visited,
    {
        let origin = Point::new(0, 0);
        let mut cell = self.get_cell(origin);
        cell.visited = true;
        self.set_cell(origin, cell);
        self.cells_to_visit = Vec::new();
        self.cells_to_visit.push(origin);
        self.num_visited_cells = 1;
        assert(self.cells_to_visit@ =~= seq![origin]);
        assert(1 <= self.width * self.height) by (nonlinear_arith)
            requires
                self.width >= 1,
                self.height >= 1,
        ;
        assert(self.in_bounds(self.cells_to_visit@[0]));
    }

    /// The cell at `(x, y)`, or `None` outside the grid.
    pub fn get_cell_xy(&self, x: i32, y: i32) -> (r: Option<Cell>)
        requires
            self.wf(),
        ensures
            r is Some <==> self.in_bounds(Point { x, y }),
            r matches Some(c) ==> c == self.cell(Point { x, y }),
    {
        if x < 0 || y < 0 || x as u32 >= self.width || y as u32 >= self.height {
            return None;
        }
        Some(self.get_cell(Point::new(x, y)))
    }

    /// The cell at `position`, which lies within the grid.
    pub fn get_cell(&self, position: Point) -> (r: Cell)
        requires
            self.wf(),
            self.in_bounds(position),
        ensures
            r == self.cell(position),
    {
        proof {
            lemma_index_in_range(
                position.x as int,
                position.y as int,
                self.width as int,
                self.height as int,
            );
        }
        self.cells[(position.y as usize) * (self.width as usize) + (position.x as usize)]
    }

    fn set_cell(&mut self, position: Point, cell: Cell)
        requires
            old(self).wf(),
            old(self).in_bounds(position),
        ensures
            final(self).wf(),
            final(self).cell(position) == cell,
            forall|q: Point|
                old(self).in_bounds(q) && q != position ==> final(self).cell(q) == old(self).cell(
                    q,
                ),
            final(self).spec_width() == old(self).spec_width(),
            final(self).spec_height() == old(self).spec_height(),
            final(self).visited_count() == old(self).visited_count(),
            final(self).stack() == old(self).stack(),
    {
        proof {
            lemma_index_in_range(
                position.x as int,
                position.y as int,
                self.width as int,
                self.height as int,
            );
        }
        let i = (position.y as usize) * (self.width as usize) + (position.x as usize);
        self.cells.set(i, cell);
        assert forall|q: Point|
            old(self).in_bounds(q) && q != position implies self.cell(q) == old(self).cell(q) by {
            lemma_index_in_range(q.x as int, q.y as int, self.width as int, self.height as int);
            if q.y * self.width + q.x == position.y * self.width + position.x {
                lemma_index_injective(q, position, self.width as int);
            }
        }
    }

    /// The position one step from `position` in `direction`; it may lie
    /// outside the grid by one.
    pub fn get_neighbor_cell_position(&self, position: Point, direction: direction::Type) -> (r:
        Point)
        requires
            self.wf(),
            self.in_bounds(position),
            is_direction(direction),
        ensures
            r == neighbor_spec(position, direction),
    {
        let Point { x, y } = position;
        if direction == direction::NORTH {
            Point::new(x, y - 1)
        } else if direction == direction::EAST {
            Point::new(x + 1, y)
        } else if direction == direction::SOUTH {
            Point::new(x, y + 1)
        } else {
            Point::new(x - 1, y)
        }
    }

    /// The cell one step from `position` in `direction`, or `None` outside
    /// the grid.
    pub fn get_neighbor_cell(&self, position: Point, direction: direction::Type) -> (r: Option<
        Cell,
    >)
        requires
            self.wf(),
            self.in_bounds(position),
            is_direction(direction),
        ensures
            r is Some <==> self.in_bounds(neighbor_spec(position, direction)),
            r matches Some(c) ==> c == self.cell(neighbor_spec(position, direction)),
    {
        let n = self.get_neighbor_cell_position(position, direction);
        self.get_cell_xy(n.x, n.y)
    }

    /// A direction from `p` leads to a cell of the grid not yet visited.
    pub open spec fn open_direction(&self, p: Point, d: u8) -> bool {
        &&& is_direction(d)
        &&& self.in_bounds(neighbor_spec(p, d))
        &&& !self.cell(neighbor_spec(p, d)).visited
    }

    /// `d` as a one-element sequence when it leads from `p` to an unvisited
    /// cell, else empty.
    pub open spec fn open_step(&self, p: Point, d: u8) -> Seq<u8> {
        if self.open_direction(p, d) {
            seq![d]
        } else {
            Seq::empty()
        }
    }

    /// The directions from `p` to unvisited cells, in the order north, east,
    /// south, west.
    pub open spec fn open_directions(&self, p: Point) -> Seq<u8> {
        self.open_step(p, direction::NORTH) + self.open_step(p, direction::EAST) + self.open_step(
            p,
            direction::SOUTH,
        ) + self.open_step(p, direction::WEST)
    }

    /// `next` is `self` after carving from the cell below the top of
    /// `next`'s stack in direction `d` to the new top: the stack was cut back
    /// and the new cell pushed, the new cell is visited with a path back, the
    /// cell it was reached from gains a path towards it, and no other cell
    /// changed.
    pub open spec fn carved_to(&self, next: &Maze, d: u8) -> bool {
        let s = next.stack();
        let c = s[s.len() - 2];
        let n = s.last();
        &&& 2 <= s.len() <= self.stack().len() + 1
        &&& forall|i: int| 0 <= i < s.len() - 1 ==> s[i] == self.stack()[i]
        &&& self.in_bounds(c)
        &&& self.open_direction(c, d)
        &&& n == neighbor_spec(c, d)
        &&& next.cell(n) == (Cell {
            visited: true,
            paths: self.cell(n).paths | opposite_spec(d),
        })
        &&& next.cell(c) == (Cell { visited: self.cell(c).visited, paths: self.cell(c).paths | d })
        &&& forall|p: Point|
            self.in_bounds(p) && p != c && p != n ==> next.cell(p) == self.cell(p)
    }

    /// The directions from `position` that lead to unvisited cells, in the
    /// order north, east, south, west.
    pub fn get_unvisited_neighbours(&self, position: Point) -> (r: Vec<direction::Type>)
        requires
            self.wf(),
            self.in_bounds(position),
        ensures
            r@ == self.open_directions(position),
            forall|k: int| 0 <= k < r@.len() ==> self.open_direction(position, #[trigger] r@[k]),
            forall|d: u8| #[trigger]
                self.open_direction(position, d) ==> r@.contains(d),
    {
        let mut neighbors: Vec<direction::Type> = Vec::new();
        self.add_unvisited_neighbour(position, &mut neighbors, direction::NORTH);
        assert(neighbors@ =~= self.open_step(position, direction::NORTH));
        self.add_unvisited_neighbour(position, &mut neighbors, direction::EAST);
        assert(neighbors@ =~= self.open_step(position, direction::NORTH) + self.open_step(
            position,
            direction::EAST,
        ));
        self.add_unvisited_neighbour(position, &mut neighbors, direction::SOUTH);
        assert(neighbors@ =~= self.open_step(position, direction::NORTH) + self.open_step(
            position,
            direction::EAST,
        ) + self.open_step(position, direction::SOUTH));
        self.add_unvisited_neighbour(position, &mut neighbors, direction::WEST);
        assert(neighbors@ =~= self.open_directions(position));
        assert forall|d: u8| #[trigger]
            self.open_direction(position, d) implies neighbors@.contains(d) by {
            assert(is_direction(d));
        }
        neighbors
    }

    fn add_unvisited_neighbour(
        &self,
        position: Point,
        neighbors: &mut Vec<direction::Type>,
        direction: direction::Type,
    )
        requires
            self.wf(),
            self.in_bounds(position),
            is_direction(direction),
        ensures
            final(neighbors)@ == if self.open_direction(position, direction) {
                old(neighbors)@.push(direction)
            } else {
                old(neighbors)@
            },
            self.open_direction(position, direction) ==> final(neighbors)@.contains(direction),
            forall|d: u8| old(neighbors)@.contains(d) ==> final(neighbors)@.contains(d),
            (forall|k: int|
                0 <= k < old(neighbors)@.len() ==> self.open_direction(
                    position,
                    #[trigger] old(neighbors)@[k],
                )) ==> (forall|k: int|
                0 <= k < final(neighbors)@.len() ==> self.open_direction(
                    position,
                    #[trigger] final(neighbors)@[k],
                )),
    {
        let ghost before = neighbors@;
        if let Some(cell) = self.get_neighbor_cell(position, direction) {
            if !cell.visited {
                neighbors.push(direction);
                assert(neighbors@[before.len() as int] == direction);
                assert forall|d: u8| before.contains(d) implies neighbors@.contains(d) by {
                    let k = choose|k: int| 0 <= k < before.len() && before[k] == d;
                    assert(neighbors@[k] == d);
                }
            }
        }
    }

    /// One step of the search. Cells with no unvisited neighbour are popped
    /// off the stack; from the cell then on top, a path is carved to the
    /// unvisited neighbour that `random` picks among them (the one at
    /// `random % k` of its `k` open directions, in the order north, east,
    /// south, west), which is marked visited and pushed. A finished maze is
    /// left as it is; when the stack runs empty first, no cell changes.
    pub fn carve_step(&mut self, random: usize)
        requires
            old(self).wf(),
        ensures
            final(self).wf(),
            final(self).spec_width() == old(self).spec_width(),
            final(self).spec_height() == old(self).spec_height(),
            old(self).is_complete() ==> *final(self) == *old(self),
            final(self).visited_count() == old(self).visited_count() || final(self).visited_count()
                == old(self).visited_count() + 1,
            forall|p: Point|
                old(self).in_bounds(p) && old(self).cell(p).visited ==> final(self).cell(p).visited,
            final(self).visited_count() == old(self).visited_count() + 1 ==> {
                let s = final(self).stack();
                let c = s[s.len() - 2];
                let ds = old(self).open_directions(c);
                &&& s.len() >= 2
                &&& ds.len() > 0
                &&& old(self).carved_to(final(self), ds[random as int % ds.len() as int])
            },
            !old(self).is_complete() && final(self).visited_count() == old(self).visited_count()
                ==> {
                &&& final(self).stack().len() == 0
                &&& forall|p: Point| old(self).in_bounds(p) ==> final(self).cell(p) == old(self).cell(p)
            },
    {
        if self.num_visited_cells >= self.width * self.height {
            return;
        }
        loop
            invariant
                self.wf(),
                self.width == old(self).width,
                self.height == old(self).height,
                self.cells == old(self).cells,
                self.num_visited_cells == old(self).num_visited_cells,
                self.num_visited_cells < self.width * self.height,
                self.cells_to_visit@.len() <= old(self).cells_to_visit@.len(),
                forall|i: int|
                    0 <= i < self.cells_to_visit@.len() ==> self.cells_to_visit@[i] == old(
                        self,
                    ).cells_to_visit@[i],
            decreases self.cells_to_visit@.len(),
        {
            let len = self.cells_to_visit.len();
            if len == 0 {
                return;
            }
            let current = self.cells_to_visit[len - 1];
            let neighbors = self.get_unvisited_neighbours(current);
            if neighbors.len() == 0 {
                self.cells_to_visit.pop();
                continue;
            }
            let next_direction = neighbors[random % neighbors.len()];
            let next_position = self.get_neighbor_cell_position(current, next_direction);
            let ghost start = *self;
            let mut next_cell = self.get_cell(next_position);
            next_cell.visited = true;
            next_cell.paths = next_cell.paths | opposite(next_direction);
            self.set_cell(next_position, next_cell);
            let ghost carved = *self;
            let mut current_cell = self.get_cell(current);
            current_cell.paths = current_cell.paths | next_direction;
            self.set_cell(current, current_cell);
            assert forall|p: Point|
                old(self).in_bounds(p) && old(self).cell(p).visited implies self.cell(p).visited by {
                assert(start.cell(p) == old(self).cell(p));
                if p != next_position {
                    assert(carved.cell(p) == start.cell(p));
                }
                if p != current {
                    assert(self.cell(p) == carved.cell(p));
                }
            }
            let ghost kept = self.cells_to_visit@;
            self.cells_to_visit.push(next_position);
            self.num_visited_cells = self.num_visited_cells + 1;
            proof {
                let s = self.cells_to_visit@;
                assert(s[s.len() - 2] == current);
                assert(s.last() == next_position);
                assert(forall|i: int| 0 <= i < s.len() - 1 ==> s[i] == kept[i]);
                assert(start.open_direction(current, next_direction));
                assert forall|p: Point|
                    old(self).in_bounds(p) && p != current && p != next_position implies self.cell(
                    p,
                ) == old(self).cell(p) by {
                    assert(carved.cell(p) == start.cell(p));
                }
                assert(forall|i: int| 0 <= i < s.len() ==> self.in_bounds(#[trigger] s[i]));
            }
            return;
        }
    }

    /// Draws the cell at `(x, y)`: its interior white once visited and blue
    /// before, and the paths leaving it south and east in white.
    pub fn draw_cell(&self, x: i32, y: i32, cell: Cell, engine: &mut Engine)
        requires
            self.wf(),
            self.in_bounds(Point { x, y }),
        ensures
            final(engine).same_setup(old(engine)),
    {
        let white = Color::rgb(255, 255, 255);
        let blue = Color::rgb(0, 0, 255);
        let pw = self.path_width;
        proof {
            assert(x * (pw + 1) + pw + 1 <= drawn_extent(self.width as int, pw as int)) by (
            nonlinear_arith)
                requires
                    0 <= x < self.width,
                    pw >= 0,
            ;
            assert(y * (pw + 1) + pw + 1 <= drawn_extent(self.height as int, pw as int)) by (
            nonlinear_arith)
                requires
                    0 <= y < self.height,
                    pw >= 0,
            ;
            assert(0 <= x * (pw + 1)) by (nonlinear_arith)
                requires
                    0 <= x,
                    pw >= 0,
            ;
            assert(0 <= y * (pw + 1)) by (nonlinear_arith)
                requires
                    0 <= y,
                    pw >= 0,
            ;
        }
        let left = x * (pw + 1) + 1;
        let top = y * (pw + 1) + 1;
        let color = if cell.visited {
            white
        } else {
            blue
        };
        let mut py: i32 = 0;
        while py < pw
            invariant
                0 <= py <= pw,
                top + pw <= i32::MAX,
                left + pw <= i32::MAX,
                0 <= top,
                0 <= left,
                engine.same_setup(old(engine)),
            decreases pw - py,
        {
            let mut px: i32 = 0;
            while px < pw
                invariant
                    0 <= px <= pw,
                    0 <= py < pw,
                    top + pw <= i32::MAX,
                    left + pw <= i32::MAX,
                    0 <= top,
                    0 <= left,
                    engine.same_setup(old(engine)),
                decreases pw - px,
            {
                engine.draw_point(left + px, top + py, color);
                px += 1;
            }
            py += 1;
        }
        let mut p: i32 = 0;
        while p < pw
            invariant
                0 <= p <= pw,
                top + pw <= i32::MAX,
                left + pw <= i32::MAX,
                0 <= top,
                0 <= left,
                engine.same_setup(old(engine)),
            decreases pw - p,
        {
            if cell.paths & direction::SOUTH != 0 {
                engine.draw_point(left + p, top + pw, white);
            }
            if cell.paths & direction::EAST != 0 {
                engine.draw_point(left + pw, top + p, white);
            }
            p += 1;
        }
    }

    /// Whether the maze's own bookkeeping is consistent; it always is for a
    /// maze made by `new` and changed only by its methods.
    fn check_wf(&self) -> (r: bool)
        ensures
            r == self.wf(),
    {
        if self.path_width < 0 || self.width > i32::MAX as u32 || self.height > i32::MAX as u32 {
            return false;
        }
        let pw = self.path_width as u64;
        let w = self.width as u64;
        let h = self.height as u64;
        proof {
            assert(w * (pw + 1) + 1 <= 0xFFFF_FFFFu64 * 0x8000_0000u64 + 1) by (nonlinear_arith)
                requires
                    w <= 0xFFFF_FFFFu64,
                    pw < 0x8000_0000u64,
            ;
            assert(h * (pw + 1) + 1 <= 0xFFFF_FFFFu64 * 0x8000_0000u64 + 1) by (nonlinear_arith)
                requires
                    h <= 0xFFFF_FFFFu64,
                    pw < 0x8000_0000u64,
            ;
            assert(w * h <= 0xFFFF_FFFFu64 * 0xFFFF_FFFFu64) by (nonlinear_arith)
                requires
                    w <= 0xFFFF_FFFFu64,
                    h <= 0xFFFF_FFFFu64,
            ;
        }
        if w * (pw + 1) + 1 > i32::MAX as u64 || h * (pw + 1) + 1 > i32::MAX as u64 {
            return false;
        }
        if w * h > u32::MAX as u64 || self.cells.len() as u64 != w * h {
            return false;
        }
        if self.num_visited_cells as u64 > w * h {
            return false;
        }
        let mut i: usize = 0;
        while i < self.cells_to_visit.len()
            invariant
                i <= self.cells_to_visit@.len(),
                forall|j: int| 0 <= j < i ==> self.in_bounds(#[trigger] self.cells_to_visit@[j]),
            decreases self.cells_to_visit@.len() - i,
        {
            let p = self.cells_to_visit[i];
            if p.x < 0 || p.y < 0 || p.x as u32 >= self.width || p.y as u32 >= self.height {
                return false;
            }
            i += 1;
        }
        true
    }
}

impl Game for Maze {
    fn update(&mut self, _dt_micros: u64, _engine: &Engine) {
        if self.check_wf() {
            let random = random_index();
            self.carve_step(random);
        }
    }

    fn render(&mut self, engine: &mut Engine) {
        if !self.check_wf() {
            return;
        }
        let mut x: u32 = 0;
        while x < self.width
            invariant
                self.wf(),
                x <= self.width,
            decreases self.width - x,
        {
            let mut y: u32 = 0;
            while y < self.height
                invariant
                    self.wf(),
                    x < self.width,
                    y <= self.height,
                decreases self.height - y,
            {
                assert(self.in_bounds(Point { x: x as i32, y: y as i32 }));
                let cell = self.get_cell(Point::new(x as i32, y as i32));
                self.draw_cell(x as i32, y as i32, cell, engine);
                y += 1;
            }
            x += 1;
        }
    }
}

} // verus!
