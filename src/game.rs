use crate::engine::Engine;
use crate::input::Event;
use vstd::prelude::*;

verus! {

/// What a simulation implements to be driven by the engine, once per tick:
/// each drained event goes through `handle_event` in arrival order, then
/// `update` runs once with the elapsed time, then `render` once on a cleared
/// frame.
pub trait Game {
    /// Sees one event before the engine does. `None` consumes the event;
    /// `Some(e)` hands `e` to the engine, which stops its loop on a quit-class
    /// event. By default every event is handed on unchanged.
    fn handle_event(&mut self, event: Event) -> (r: Option<Event>)
        default_ensures
            r == Some(event),
    {
        Some(event)
    }

    /// Advances the simulation by `dt_micros` microseconds. The engine is
    /// only readable here: pressed keys, grid and colors.
    fn update(&mut self, dt_micros: u64, engine: &Engine);

    /// Draws the current state onto the frame.
    fn render(&mut self, engine: &mut Engine);
}

} // verus!
