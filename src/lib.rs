//! A small real-time loop framework: a logical grid of points drawn as
//! pixel squares, a configuration builder, and a frame scheduler that drives a
//! user simulation through event handling, update and render once per tick.
//!
//! Two simulations come with it: a player moved by the arrow keys, and a maze
//! grown one cell per tick.
mod cell;
mod dimensions;
mod direction;
mod engine;
mod engine_builder;
mod game;
mod geometry;
mod input;
mod maze;
mod movement;

pub use cell::Cell;
pub use dimensions::{point_at, point_is_unit_rect, rect_at, Dimensions};
pub use direction::{opposite, EAST, NORTH, SOUTH, WEST};
pub use engine::{
    consumed_events_keep_running, elapsed, passed_quit_stops, running_after_event, DrawCommand,
    Engine, EngineCore, TickReport,
};
pub use engine_builder::{create, fit_point_size_bounds, stretched_grid_fits, EngineBuilder};
pub use game::Game;
pub use geometry::{Color, Point, Rect};
pub use input::{Event, Key};
pub use maze::Maze;
pub use movement::{move_player, STEP};
