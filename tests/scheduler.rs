use engine::{
    create, elapsed, move_player, running_after_event, Color, Dimensions, DrawCommand, Engine,
    EngineCore, Event, Game, Key, Rect, STEP,
};

/// Records every callback; hands events on unless told to consume them.
struct Recorder {
    consume: bool,
    calls: Vec<String>,
    dts: Vec<u64>,
    keys_seen: Vec<bool>,
}

impl Recorder {
    fn new(consume: bool) -> Recorder {
        Recorder { consume, calls: Vec::new(), dts: Vec::new(), keys_seen: Vec::new() }
    }
}

impl Game for Recorder {
    fn handle_event(&mut self, event: Event) -> Option<Event> {
        self.calls.push(String::from("event"));
        if self.consume {
            None
        } else {
            Some(event)
        }
    }

    fn update(&mut self, dt_micros: u64, engine: &Engine) {
        self.calls.push(String::from("update"));
        self.dts.push(dt_micros);
        self.keys_seen.push(engine.is_key_pressed(Key::Up));
        assert!(engine.frame().is_empty());
    }

    fn render(&mut self, engine: &mut Engine) {
        self.calls.push(String::from("render"));
        assert!(engine.frame().is_empty());
        engine.draw_point(1, 1, Color::rgb(9, 9, 9));
    }
}

/// Keeps every event for itself and draws a fixed picture.
struct Still;

impl Game for Still {
    fn handle_event(&mut self, _event: Event) -> Option<Event> {
        None
    }

    fn update(&mut self, _dt_micros: u64, _engine: &Engine) {}

    fn render(&mut self, engine: &mut Engine) {
        engine.draw_rect(1, 1, 3, 2, Color::rgb(0, 255, 0));
        engine.draw_point(0, 0, Color::rgb(255, 255, 255));
    }
}

/// Uses the default event handling.
struct PassThrough;

impl Game for PassThrough {
    fn update(&mut self, _dt_micros: u64, _engine: &Engine) {}

    fn render(&mut self, _engine: &mut Engine) {}
}

fn recorder_core(consume: bool) -> EngineCore<Recorder> {
    create(Recorder::new(consume), String::from("rec")).with_dimensions(2, 10, 10).build()
}

#[test]
fn tick_runs_events_then_update_then_render() {
    let mut core = recorder_core(false);
    let report = core
        .run_one_tick(vec![Event::Other, Event::KeyUp { keycode: None }], vec![Key::Up], 50)
        .unwrap();
    assert_eq!(report.outcomes, vec![Some(Event::Other), Some(Event::KeyUp { keycode: None })]);
    assert_eq!(core.game().calls, vec!["event", "event", "update", "render"]);
    assert_eq!(core.game().keys_seen, vec![true]);
    assert!(core.is_running());
    assert_eq!(
        core.frame().clone(),
        vec![DrawCommand { rect: Rect::new(2, 2, 2, 2), color: Color::rgb(9, 9, 9) }]
    );
}

#[test]
fn quit_in_drain_still_completes_the_tick() {
    let mut core = recorder_core(false);
    let report = core.run_one_tick(vec![Event::Quit, Event::Other], Vec::new(), 10);
    assert!(report.is_some());
    assert!(!core.is_running());
    assert_eq!(core.game().calls, vec!["event", "event", "update", "render"]);
    assert_eq!(core.frame().len(), 1);
}

#[test]
fn stopped_core_does_nothing() {
    let mut core = recorder_core(false);
    core.run_one_tick(vec![Event::Quit], Vec::new(), 10);
    let calls = core.game().calls.len();
    assert!(core.run_one_tick(vec![Event::Other], vec![Key::Up], 20).is_none());
    assert!(core.run_one_tick(Vec::new(), Vec::new(), 30).is_none());
    assert_eq!(core.game().calls.len(), calls);
    assert_eq!(core.game().dts.len(), 1);
}

#[test]
fn passed_escape_clears_run_flag() {
    let mut core = create(PassThrough, String::from("p")).build();
    let report = core
        .run_one_tick(vec![Event::KeyDown { keycode: Some(Key::Escape) }], Vec::new(), 0)
        .unwrap();
    assert_eq!(report.outcomes, vec![Some(Event::KeyDown { keycode: Some(Key::Escape) })]);
    assert!(!core.is_running());
}

#[test]
fn passed_other_keys_keep_running() {
    let mut core = create(PassThrough, String::from("p")).build();
    core.run_one_tick(
        vec![Event::KeyDown { keycode: Some(Key::Left) }, Event::KeyUp { keycode: Some(Key::Escape) }],
        Vec::new(),
        0,
    );
    assert!(core.is_running());
}

#[test]
fn consumed_quit_events_never_stop() {
    let mut core = recorder_core(true);
    let report = core
        .run_one_tick(
            vec![Event::Quit, Event::KeyDown { keycode: Some(Key::Escape) }],
            Vec::new(),
            0,
        )
        .unwrap();
    assert_eq!(report.outcomes, vec![None, None]);
    assert!(core.is_running());
}

#[test]
fn baseline_event_handling() {
    assert!(!running_after_event(true, &Some(Event::Quit)));
    assert!(!running_after_event(true, &Some(Event::KeyDown { keycode: Some(Key::Escape) })));
    assert!(running_after_event(true, &None));
    assert!(running_after_event(true, &Some(Event::Other)));
    assert!(!running_after_event(false, &Some(Event::Other)));
}

#[test]
fn first_tick_has_zero_dt_then_clock_differences() {
    let mut core = recorder_core(false);
    assert_eq!(core.run_one_tick(Vec::new(), Vec::new(), 1_000_000).unwrap().dt_micros, 0);
    assert_eq!(core.run_one_tick(Vec::new(), Vec::new(), 1_016_000).unwrap().dt_micros, 16_000);
    assert_eq!(core.run_one_tick(Vec::new(), Vec::new(), 1_050_000).unwrap().dt_micros, 34_000);
    assert_eq!(core.game().dts, vec![0, 16_000, 34_000]);
}

#[test]
fn clock_going_back_gives_zero_dt() {
    let mut core = recorder_core(false);
    core.run_one_tick(Vec::new(), Vec::new(), 500);
    assert_eq!(core.run_one_tick(Vec::new(), Vec::new(), 200).unwrap().dt_micros, 0);
    assert_eq!(core.run_one_tick(Vec::new(), Vec::new(), 260).unwrap().dt_micros, 60);
}

#[test]
fn elapsed_values() {
    assert_eq!(elapsed(None, 77), 0);
    assert_eq!(elapsed(Some(10), 77), 67);
    assert_eq!(elapsed(Some(100), 77), 0);
}

#[test]
fn still_simulation_renders_the_same_frame_for_100_ticks() {
    let mut core = create(Still, String::from("still")).with_dimensions(3, 10, 10).build();
    core.run_one_tick(vec![Event::Other], Vec::new(), 0);
    let first = core.frame().clone();
    assert_eq!(
        first,
        vec![
            DrawCommand { rect: Rect::new(3, 3, 9, 6), color: Color::rgb(0, 255, 0) },
            DrawCommand { rect: Rect::new(0, 0, 3, 3), color: Color::rgb(255, 255, 255) },
        ]
    );
    for _ in 0..99 {
        let report = core.run_one_tick(vec![Event::Quit], Vec::new(), 0).unwrap();
        assert_eq!(report.dt_micros, 0);
        assert_eq!(core.frame().clone(), first);
    }
    assert!(core.is_running());
}

#[test]
fn engine_view_reports_setup() {
    let d = Dimensions::new(2, 5, 5);
    let e = Engine::new(d, Color::rgb(1, 2, 3), vec![Key::Left, Key::Other(42)]);
    assert!(e.is_key_pressed(Key::Left));
    assert!(e.is_key_pressed(Key::Other(42)));
    assert!(!e.is_key_pressed(Key::Other(43)));
    assert!(!e.is_key_pressed(Key::Right));
    assert_eq!(e.background_color(), Color::rgb(1, 2, 3));
    assert_eq!(e.dimensions().pixel_width(), 10);
}

#[test]
fn move_player_follows_arrow_keys() {
    let d = Dimensions::default();
    let (mut x, mut y) = (100, 100);
    let e = Engine::new(d, Color::rgb(0, 0, 0), vec![Key::Up, Key::Right]);
    move_player(&e, &mut x, &mut y);
    assert_eq!((x, y), (100 + STEP, 100 - STEP));
    let e = Engine::new(d, Color::rgb(0, 0, 0), vec![Key::Up, Key::Down, Key::Left]);
    move_player(&e, &mut x, &mut y);
    assert_eq!((x, y), (100, 90));
    let e = Engine::new(d, Color::rgb(0, 0, 0), Vec::new());
    move_player(&e, &mut x, &mut y);
    assert_eq!((x, y), (100, 90));
}
