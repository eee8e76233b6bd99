use crate::dimensions::{valid_grid, Dimensions};
use crate::engine::EngineCore;
use crate::game::Game;
use crate::geometry::Color;
use vstd::prelude::*;

verus! {

/// Collects the title, background color and grid of an engine before it is
/// built. Each `with_` call takes the builder and hands it back changed;
/// `build` consumes it.
pub struct EngineBuilder<G> {
    game: G,
    game_title: String,
    dimensions: Dimensions,
    background_color: Color,
}

/// The largest point size at which a grid of `width_in_points ×
/// height_in_points` fits a display of `display_width × display_height`
/// pixels, and at least one.
pub open spec fn fit_point_size(
    display_width: int,
    display_height: int,
    width_in_points: int,
    height_in_points: int,
) -> int {
    let by_width = display_width / width_in_points;
    let by_height = display_height / height_in_points;
    let smaller = if by_width <= by_height { by_width } else { by_height };
    if smaller >= 1 { smaller } else { 1 }
}

/// A builder for `game` with a title, a grid of 800 × 600 one-pixel points
/// and a black background.
pub fn create<G: Game>(game: G, game_title: String) -> (b: EngineBuilder<G>)
    ensures
        b.game() == game,
        b.title() == game_title@,
        b.dimensions().point_size() == 1,
        b.dimensions().point_width() == 800,
        b.dimensions().point_height() == 600,
        b.background_color() == (Color { r: 0, g: 0, b: 0, a: 255 }),
        b.wf(),
{
    EngineBuilder {
        game,
        game_title,
        dimensions: Dimensions::default(),
        background_color: Color::rgb(0, 0, 0),
    }
}

impl<G: Game> EngineBuilder<G> {
    pub closed spec fn game(&self) -> G {
        self.game
    }

    pub closed spec fn title(&self) -> Seq<char> {
        self.game_title@
    }

    pub closed spec fn dimensions(&self) -> Dimensions {
        self.dimensions
    }

    pub closed spec fn background_color(&self) -> Color {
        self.background_color
    }

    pub open spec fn wf(&self) -> bool {
        self.dimensions().wf()
    }

    pub fn with_background_color(self, color: Color) -> (b: EngineBuilder<G>)
        ensures
            b.background_color() == color,
            b.game() == self.game(),
            b.title() == self.title(),
            b.dimensions() == self.dimensions(),
    {
        let mut b = self;
        b.background_color = color;
        b
    }

    /// A grid of `width_in_points × height_in_points` points of
    /// `point_size` pixels.
    pub fn with_dimensions(self, point_size: u32, width_in_points: u32, height_in_points: u32) -> (b:
        EngineBuilder<G>)
        requires
            valid_grid(point_size as int, width_in_points as int, height_in_points as int),
        ensures
            b.dimensions().point_size() == point_size,
            b.dimensions().point_width() == width_in_points,
            b.dimensions().point_height() == height_in_points,
            b.wf(),
            b.game() == self.game(),
            b.title() == self.title(),
            b.background_color() == self.background_color(),
    {
        let mut b = self;
        b.dimensions = Dimensions::new(point_size, width_in_points, height_in_points);
        b
    }

    /// A grid of `width_in_points × height_in_points` points whose point size
    /// is the largest that fits the display bounds, and at least one pixel.
    pub fn with_point_dimensions(
        self,
        display_width: u32,
        display_height: u32,
        width_in_points: u32,
        height_in_points: u32,
    ) -> (b: EngineBuilder<G>)
        requires
            width_in_points >= 1,
            height_in_points >= 1,
        ensures
            b.dimensions().point_size() == fit_point_size(
                display_width as int,
                display_height as int,
                width_in_points as int,
                height_in_points as int,
            ),
            b.dimensions().point_width() == width_in_points,
            b.dimensions().point_height() == height_in_points,
            b.wf(),
            b.game() == self.game(),
            b.title() == self.title(),
            b.background_color() == self.background_color(),
    {
        let point_width = display_width / width_in_points;
        let point_height = display_height / height_in_points;
        let smaller = if point_width <= point_height {
            point_width
        } else {
            point_height
        };
        let point_size = if smaller >= 1 {
            smaller
        } else {
            1
        };
        proof {
            fit_point_size_bounds(
                display_width as int,
                display_height as int,
                width_in_points as int,
                height_in_points as int,
            );
        }
        let mut b = self;
        b.dimensions = Dimensions::new(point_size, width_in_points, height_in_points);
        b
    }

    /// Points of `point_size` pixels, as many as fit the display bounds in
    /// each direction.
    pub fn with_stretched_dimensions(self, display_width: u32, display_height: u32, point_size: u32) -> (b:
        EngineBuilder<G>)
        requires
            point_size >= 1,
        ensures
            b.dimensions().point_size() == point_size,
            b.dimensions().point_width() == display_width / point_size,
            b.dimensions().point_height() == display_height / point_size,
            b.wf(),
            b.game() == self.game(),
            b.title() == self.title(),
            b.background_color() == self.background_color(),
    {
        let dim_width = display_width / point_size;
        let dim_height = display_height / point_size;
        proof {
            stretched_grid_fits(display_width as int, display_height as int, point_size as int);
        }
        let mut b = self;
        b.dimensions = Dimensions::new(point_size, dim_width, dim_height);
        b
    }

    /// The engine core in its constructed state, running with no tick yet.
    pub fn build(self) -> (c: EngineCore<G>)
        requires
            self.wf(),
        ensures
            c.wf(),
            c.spec_game() == self.game(),
            c.spec_title() == self.title(),
            c.dimensions() == self.dimensions(),
            c.background_color() == self.background_color(),
            c.is_running(),
            c.last_time() is None,
            c.presented().len() == 0,
    {
        EngineCore::new(self.game, self.game_title, self.dimensions, self.background_color)
    }
}

/// The fitted point size makes a valid grid; when the display holds at least
/// one pixel per point, it is the smaller of the two quotients, and the
/// grid's pixel extent stays within the display.
pub proof fn fit_point_size_bounds(
    display_width: int,
    display_height: int,
    width_in_points: int,
    height_in_points: int,
)
    requires
        0 <= display_width <= u32::MAX,
        0 <= display_height <= u32::MAX,
        1 <= width_in_points <= u32::MAX,
        1 <= height_in_points <= u32::MAX,
    ensures
        valid_grid(
            fit_point_size(display_width, display_height, width_in_points, height_in_points),
            width_in_points,
            height_in_points,
        ),
        width_in_points <= display_width && height_in_points <= display_height ==> {
            let p = fit_point_size(display_width, display_height, width_in_points, height_in_points);
            &&& p == if display_width / width_in_points <= display_height / height_in_points {
                display_width / width_in_points
            } else {
                display_height / height_in_points
            }
            &&& width_in_points * p <= display_width
            &&& height_in_points * p <= display_height
        },
{
    let p = fit_point_size(display_width, display_height, width_in_points, height_in_points);
    let bw = display_width / width_in_points;
    let bh = display_height / height_in_points;
    assert(width_in_points * bw <= display_width) by (nonlinear_arith)
        requires
            bw == display_width / width_in_points,
            width_in_points >= 1,
            display_width >= 0,
    ;
    assert(height_in_points * bh <= display_height) by (nonlinear_arith)
        requires
            bh == display_height / height_in_points,
            height_in_points >= 1,
            display_height >= 0,
    ;
    if bw >= 1 && bh >= 1 {
        assert(width_in_points * p <= width_in_points * bw) by (nonlinear_arith)
            requires
                1 <= p <= bw,
                width_in_points >= 1,
        ;
        assert(height_in_points * p <= height_in_points * bh) by (nonlinear_arith)
            requires
                1 <= p <= bh,
                height_in_points >= 1,
        ;
    } else {
        assert(p == 1);
    }
    if width_in_points <= display_width && height_in_points <= display_height {
        assert(bw >= 1) by (nonlinear_arith)
            requires
                bw == display_width / width_in_points,
                1 <= width_in_points <= display_width,
        ;
        assert(bh >= 1) by (nonlinear_arith)
            requires
                bh == display_height / height_in_points,
                1 <= height_in_points <= display_height,
        ;
    }
}

/// Stretching points of `point_size` pixels over the display gives a grid
/// of `⌊W / p⌋ × ⌊H / p⌋` points whose pixel extent stays within the display.
pub proof fn stretched_grid_fits(display_width: int, display_height: int, point_size: int)
    requires
        0 <= display_width <= u32::MAX,
        0 <= display_height <= u32::MAX,
        point_size >= 1,
    ensures
        valid_grid(point_size, display_width / point_size, display_height / point_size),
        (display_width / point_size) * point_size <= display_width,
        (display_height / point_size) * point_size <= display_height,
{
    assert((display_width / point_size) * point_size <= display_width) by (nonlinear_arith)
        requires
            point_size >= 1,
            display_width >= 0,
    ;
    assert((display_height / point_size) * point_size <= display_height) by (nonlinear_arith)
        requires
            point_size >= 1,
            display_height >= 0,
    ;
    assert(display_width / point_size >= 0) by (nonlinear_arith)
        requires
            point_size >= 1,
            display_width >= 0,
    ;
    assert(display_height / point_size >= 0) by (nonlinear_arith)
        requires
            point_size >= 1,
            display_height >= 0,
    ;
}

} // verus!
