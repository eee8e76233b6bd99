use crate::dimensions::{point_rect, rect_fits, scaled_rect, try_rect_at, Dimensions};
use crate::game::Game;
use crate::geometry::{Color, Rect};
use crate::input::{Event, Key};
use vstd::prelude::*;

verus! {

/// One filled rectangle of a frame, in pixels.
#[derive(Clone, Copy, Debug, PartialEq, Eq, Structural)]
pub struct DrawCommand {
    pub rect: Rect,
    pub color: Color,
}

/// What a simulation sees of the engine during a tick: the grid, the
/// background color, the keys held down, and the frame being drawn. The frame
/// starts cleared to the background color; drawing appends to it.
pub struct Engine {
    dimensions: Dimensions,
    background_color: Color,
    pressed: Vec<Key>,
    frame: Vec<DrawCommand>,
}

impl Engine {
    pub closed spec fn spec_dimensions(&self) -> Dimensions {
        self.dimensions
    }

    pub closed spec fn spec_background_color(&self) -> Color {
        self.background_color
    }

    /// The keys held down in this tick's input snapshot.
    pub closed spec fn pressed_keys(&self) -> Seq<Key> {
        self.pressed@
    }

    /// The rectangles drawn so far on this frame, in order.
    pub closed spec fn commands(&self) -> Seq<DrawCommand> {
        self.frame@
    }

    /// Only the frame differs between `self` and `other`.
    pub open spec fn same_setup(&self, other: &Engine) -> bool {
        &&& self.dimensions() == other.dimensions()
        &&& self.background_color() == other.background_color()
        &&& self.pressed_keys() == other.pressed_keys()
    }

    /// A view with an empty frame.
    pub fn new(dimensions: Dimensions, background_color: Color, pressed: Vec<Key>) -> (e: Engine)
        ensures
            e.dimensions() == dimensions,
            e.background_color() == background_color,
            e.pressed_keys() == pressed@,
            e.commands() == Seq::<DrawCommand>::empty(),
    {
        Engine { dimensions, background_color, pressed, frame: Vec::new() }
    }

    #[verifier::when_used_as_spec(spec_dimensions)]
    pub fn dimensions(&self) -> (r: Dimensions)
        ensures
            r == self.dimensions(),
    {
        self.dimensions
    }

    #[verifier::when_used_as_spec(spec_background_color)]
    pub fn background_color(&self) -> (r: Color)
        ensures
            r == self.background_color(),
    {
        self.background_color
    }

    pub fn frame(&self) -> (r: &Vec<DrawCommand>)
        ensures
            r@ == self.commands(),
    {
        &self.frame
    }

    /// Fills the point at `(x, y)`. A point whose pixel square cannot be
    /// expressed in pixel coordinates is ignored.
    pub fn draw_point(&mut self, x: i32, y: i32, color: Color)
        ensures
            final(self).same_setup(old(self)),
            final(self).commands() == if rect_fits(
                old(self).dimensions().point_size() as int,
                x as int,
                y as int,
                1,
                1,
            ) {
                old(self).commands().push(
                    DrawCommand {
                        rect: point_rect(old(self).dimensions().point_size() as int, x as int, y as int),
                        color,
                    },
                )
            } else {
                old(self).commands()
            },
    {
        if let Some(rect) = try_rect_at(&self.dimensions, x, y, 1, 1) {
            self.frame.push(DrawCommand { rect, color });
        }
    }

    /// Fills the logical rectangle at `(x, y)` of `width × height` points. A
    /// rectangle that cannot be expressed in pixel coordinates is ignored.
    pub fn draw_rect(&mut self, x: i32, y: i32, width: u32, height: u32, color: Color)
        ensures
            final(self).same_setup(old(self)),
            final(self).commands() == if rect_fits(
                old(self).dimensions().point_size() as int,
                x as int,
                y as int,
                width as int,
                height as int,
            ) {
                old(self).commands().push(
                    DrawCommand {
                        rect: scaled_rect(
                            old(self).dimensions().point_size() as int,
                            x as int,
                            y as int,
                            width as int,
                            height as int,
                        ),
                        color,
                    },
                )
            } else {
                old(self).commands()
            },
    {
        if let Some(rect) = try_rect_at(&self.dimensions, x, y, width, height) {
            self.frame.push(DrawCommand { rect, color });
        }
    }

    /// Whether `key` is held down in this tick's input snapshot.
    pub fn is_key_pressed(&self, key: Key) -> (r: bool)
        ensures
            r == self.pressed_keys().contains(key),
    {
        let mut i: usize = 0;
        while i < self.pressed.len()
            invariant
                i <= self.pressed@.len(),
                forall|j: int| 0 <= j < i ==> self.pressed@[j] != key,
            decreases self.pressed@.len() - i,
        {
            if self.pressed[i] == key {
                return true;
            }
            i += 1;
        }
        false
    }

    fn into_frame(self) -> (r: Vec<DrawCommand>)
        ensures
            r@ == self.commands(),
    {
        self.frame
    }
}

/// An event outcome stops the loop when the simulation handed on a
/// quit-class event.
pub open spec fn stops(outcome: Option<Event>) -> bool {
    outcome matches Some(e) && e.is_quit()
}

/// The run-flag after a tick whose events had the given outcomes.
pub open spec fn running_after(running: bool, outcomes: Seq<Option<Event>>) -> bool {
    running && forall|i: int| 0 <= i < outcomes.len() ==> !stops(#[trigger] outcomes[i])
}

/// Microseconds since the previous tick; zero on the first tick, and zero
/// when the clock went backwards.
pub open spec fn elapsed_spec(last: Option<u64>, now: u64) -> u64 {
    match last {
        Some(t) => if now >= t { (now - t) as u64 } else { 0 },
        None => 0,
    }
}

/// The engine's baseline handling of one event outcome: only a quit-class
/// event handed on by the simulation clears the run-flag.
pub fn running_after_event(running: bool, outcome: &Option<Event>) -> (r: bool)
    ensures
        r == (running && !stops(*outcome)),
{
    match outcome {
        Some(e) => running && !e.is_quit(),
        None => running,
    }
}

/// The time step handed to `update`.
pub fn elapsed(last: Option<u64>, now: u64) -> (r: u64)
    ensures
        r == elapsed_spec(last, now),
{
    match last {
        Some(t) => now.saturating_sub(t),
        None => 0,
    }
}

/// What a completed tick did: the time step given to `update`, and what
/// `handle_event` returned for each drained event, in order.
pub struct TickReport {
    pub dt_micros: u64,
    pub outcomes: Vec<Option<Event>>,
}

/// The engine core: it owns the simulation, the configuration it was built
/// with, the run-flag, the last clock reading and the last presented frame.
/// The simulation is reached only from `run_one_tick`, one callback at a time,
/// and is handed a fresh view of the engine, never the core itself.
pub struct EngineCore<G> {
    game: G,
    title: String,
    dimensions: Dimensions,
    background_color: Color,
    running: bool,
    last_time: Option<u64>,
    frame: Vec<DrawCommand>,
}

impl<G: Game> EngineCore<G> {
    pub closed spec fn spec_game(&self) -> G {
        self.game
    }

    pub closed spec fn spec_title(&self) -> Seq<char> {
        self.title@
    }

    pub closed spec fn spec_dimensions(&self) -> Dimensions {
        self.dimensions
    }

    pub closed spec fn spec_background_color(&self) -> Color {
        self.background_color
    }

    pub closed spec fn spec_is_running(&self) -> bool {
        self.running
    }

    /// The clock reading of the last tick, if any tick ran.
    pub closed spec fn last_time(&self) -> Option<u64> {
        self.last_time
    }

    /// The frame presented by the last tick.
    pub closed spec fn presented(&self) -> Seq<DrawCommand> {
        self.frame@
    }

    pub open spec fn wf(&self) -> bool {
        self.dimensions().wf()
    }

    /// A core in the constructed state: running, with no tick yet and an
    /// empty frame.
    pub fn new(game: G, title: String, dimensions: Dimensions, background_color: Color) -> (c:
        EngineCore<G>)
        requires
            dimensions.wf(),
        ensures
            c.wf(),
            c.spec_game() == game,
            c.spec_title() == title@,
            c.dimensions() == dimensions,
            c.background_color() == background_color,
            c.is_running(),
            c.last_time() is None,
            c.presented() == Seq::<DrawCommand>::empty(),
    {
        EngineCore {
            game,
            title,
            dimensions,
            background_color,
            running: true,
            last_time: None,
            frame: Vec::new(),
        }
    }

    pub fn game(&self) -> (r: &G)
        ensures
            *r == self.spec_game(),
    {
        &self.game
    }

    pub fn title(&self) -> (r: &String)
        ensures
            r@ == self.spec_title(),
    {
        &self.title
    }

    #[verifier::when_used_as_spec(spec_dimensions)]
    pub fn dimensions(&self) -> (r: Dimensions)
        ensures
            r == self.dimensions(),
    {
        self.dimensions
    }

    #[verifier::when_used_as_spec(spec_background_color)]
    pub fn background_color(&self) -> (r: Color)
        ensures
            r == self.background_color(),
    {
        self.background_color
    }

    /// The run-flag: the scheduler produces ticks while it is set.
    #[verifier::when_used_as_spec(spec_is_running)]
    pub fn is_running(&self) -> (r: bool)
        ensures
            r == self.is_running(),
    {
        self.running
    }

    /// The frame presented by the last tick.
    pub fn frame(&self) -> (r: &Vec<DrawCommand>)
        ensures
            r@ == self.presented(),
    {
        &self.frame
    }

    /// One tick: drain `events` through the simulation and the engine's quit
    /// handling, update with the time since the previous tick, then render a
    /// cleared frame and present it. `pressed` is the input snapshot and `now`
    /// the clock reading, in microseconds.
    ///
    /// A stopped core does nothing and returns `None`. A running core always
    /// completes the tick, also when an event clears the run-flag: that takes
    /// effect at the next tick.
    pub fn run_one_tick(&mut self, events: Vec<Event>, pressed: Vec<Key>, now: u64) -> (r: Option<
        TickReport,
    >)
        requires
            old(self).wf(),
        ensures
            final(self).wf(),
            r is Some <==> old(self).is_running(),
            !old(self).is_running() ==> *final(self) == *old(self),
            r matches Some(report) ==> {
                &&& report.outcomes@.len() == events@.len()
                &&& final(self).is_running() == running_after(
                    old(self).is_running(),
                    report.outcomes@,
                )
                &&& report.dt_micros == elapsed_spec(old(self).last_time(), now)
                &&& final(self).last_time() == Some(now)
            },
            final(self).spec_title() == old(self).spec_title(),
            final(self).dimensions() == old(self).dimensions(),
            final(self).background_color() == old(self).background_color(),
    {
        if !self.running {
            return None;
        }
        let mut outcomes: Vec<Option<Event>> = Vec::new();
        let mut i: usize = 0;
        while i < events.len()
            invariant
                i <= events@.len(),
                outcomes@.len() == i,
                self.running == running_after(true, outcomes@),
                self.title@ == old(self).title@,
                self.dimensions == old(self).dimensions,
                self.background_color == old(self).background_color,
                self.last_time == old(self).last_time,
            decreases events@.len() - i,
        {
            let outcome = self.game.handle_event(events[i]);
            self.running = running_after_event(self.running, &outcome);
            let ghost before = outcomes@;
            outcomes.push(outcome);
            proof {
                assert(forall|j: int| 0 <= j < before.len() ==> outcomes@[j] == before[j]);
                assert(outcomes@[i as int] == outcome);
            }
            i += 1;
        }
        let dt_micros = elapsed(self.last_time, now);
        self.last_time = Some(now);
        let mut view = Engine::new(self.dimensions, self.background_color, pressed);
        self.game.update(dt_micros, &view);
        self.game.render(&mut view);
        self.frame = view.into_frame();
        Some(TickReport { dt_micros, outcomes })
    }
}

/// A tick in which the simulation consumed every event leaves the run-flag as
/// it was, would-be quit events included.
pub proof fn consumed_events_keep_running(running: bool, outcomes: Seq<Option<Event>>)
    requires
        forall|i: int| 0 <= i < outcomes.len() ==> outcomes[i] is None,
    ensures
        running_after(running, outcomes) == running,
{
}

/// A quit-class event handed on by the simulation clears the run-flag,
/// whatever the other outcomes of the tick.
pub proof fn passed_quit_stops(running: bool, outcomes: Seq<Option<Event>>, i: int)
    requires
        0 <= i < outcomes.len(),
        outcomes[i] matches Some(e) && e.is_quit(),
    ensures
        !running_after(running, outcomes),
{
    assert(stops(outcomes[i]));
}

} // verus!
