use engine::{opposite, Cell, Color, Dimensions, Engine, Game, Maze, Point, EAST, NORTH, SOUTH, WEST};

#[test]
fn opposite_directions() {
    assert_eq!(opposite(NORTH), SOUTH);
    assert_eq!(opposite(SOUTH), NORTH);
    assert_eq!(opposite(EAST), WEST);
    assert_eq!(opposite(WEST), EAST);
}

#[test]
fn new_cell_is_closed_and_unvisited() {
    let c = Cell::new();
    assert!(!c.visited);
    assert_eq!(c.paths, 0);
}

#[test]
fn new_maze_has_unvisited_cells() {
    let m = Maze::new(4, 3, 2);
    assert_eq!((m.width(), m.height()), (4, 3));
    assert_eq!(m.num_visited_cells(), 0);
    assert_eq!(m.get_cell_xy(3, 2), Some(Cell::new()));
    assert_eq!(m.get_cell_xy(4, 0), None);
    assert_eq!(m.get_cell_xy(0, 3), None);
    assert_eq!(m.get_cell_xy(-1, 0), None);
}

#[test]
fn neighbours_of_origin() {
    let mut m = Maze::new(3, 3, 1);
    m.begin_at_origin();
    assert!(m.get_cell(Point::new(0, 0)).visited);
    assert_eq!(m.get_neighbor_cell_position(Point::new(1, 1), NORTH), Point::new(1, 0));
    assert_eq!(m.get_neighbor_cell_position(Point::new(1, 1), WEST), Point::new(0, 1));
    assert_eq!(m.get_neighbor_cell(Point::new(0, 0), NORTH), None);
    assert_eq!(m.get_unvisited_neighbours(Point::new(0, 0)), vec![EAST, SOUTH]);
    assert_eq!(m.get_unvisited_neighbours(Point::new(1, 0)), vec![EAST, SOUTH]);
}

#[test]
fn carve_step_opens_a_path() {
    let mut m = Maze::new(3, 3, 1);
    m.begin_at_origin();
    // neighbours of the origin are [EAST, SOUTH]; 1 picks SOUTH
    m.carve_step(1);
    assert_eq!(m.num_visited_cells(), 2);
    assert_eq!(m.get_cell(Point::new(0, 0)).paths, SOUTH);
    let below = m.get_cell(Point::new(0, 1));
    assert!(below.visited);
    assert_eq!(below.paths, NORTH);
    // from (0, 1): [EAST, SOUTH]; 2 picks EAST
    m.carve_step(2);
    assert_eq!(m.get_cell(Point::new(0, 1)).paths, NORTH | EAST);
    assert_eq!(m.get_cell(Point::new(1, 1)).paths, WEST);
}

#[test]
fn carving_finishes_the_maze() {
    let mut m = Maze::new(5, 4, 2);
    m.begin_at_origin();
    for i in 0..100usize {
        m.carve_step(i * 7 + 3);
    }
    assert_eq!(m.num_visited_cells(), 20);
    for x in 0..5 {
        for y in 0..4 {
            assert!(m.get_cell_xy(x, y).unwrap().visited);
        }
    }
    m.carve_step(0);
    assert_eq!(m.num_visited_cells(), 20);
}

#[test]
fn random_update_visits_one_more_cell() {
    let mut m = Maze::new(6, 6, 1);
    m.begin_at_origin();
    let e = Engine::new(Dimensions::new(1, 15, 15), Color::rgb(0, 0, 0), Vec::new());
    for n in 2..=10u32 {
        m.update(0, &e);
        assert_eq!(m.num_visited_cells(), n);
    }
}

#[test]
fn render_draws_every_cell() {
    let mut m = Maze::new(2, 1, 1);
    let mut e = Engine::new(Dimensions::new(2, 5, 3), Color::rgb(0, 0, 0), Vec::new());
    m.render(&mut e);
    // one interior point per cell, no paths yet
    assert_eq!(e.frame().len(), 2);
    assert_eq!(e.frame()[0].rect.x, 2);
    assert_eq!(e.frame()[1].rect.x, 6);
    assert_eq!(e.frame()[0].color, Color::rgb(0, 0, 255));
    m.begin_at_origin();
    m.carve_step(0);
    let mut e = Engine::new(Dimensions::new(2, 5, 3), Color::rgb(0, 0, 0), Vec::new());
    m.render(&mut e);
    // both cells white, and the path east of the first
    assert_eq!(e.frame().len(), 3);
    assert!(e.frame().iter().all(|c| c.color == Color::rgb(255, 255, 255)));
    assert_eq!(e.frame()[1].rect, engine::Rect::new(4, 2, 2, 2));
}
