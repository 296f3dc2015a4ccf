use snake::coord::{Coordinate, Direction};
use snake::error::GameError;
use snake::creature::{Creature, START_X, START_Y};
use snake::grid::{CellType, Grid};

fn cell(x: i32, y: i32) -> Coordinate {
    Coordinate { x, y }
}

fn placed(width: i32, height: i32) -> (Creature, Grid) {
    let mut grid = Grid::new(width, height).unwrap();
    let creature = Creature::new();
    creature.place_on_grid(&mut grid).unwrap();
    (creature, grid)
}

fn body_of(creature: &Creature) -> Vec<Coordinate> {
    (0..creature.len()).map(|i| creature.segment(i)).collect()
}

fn count(grid: &Grid, kind: CellType) -> usize {
    let mut n = 0;
    for y in 0..grid.height() {
        for x in 0..grid.width() {
            if grid.get(cell(x, y)) == Ok(kind) {
                n += 1;
            }
        }
    }
    n
}

fn marks_agree(creature: &Creature, grid: &Grid) {
    let body = body_of(creature);
    assert_eq!(count(grid, CellType::SnakeHead), 1);
    assert_eq!(grid.get(body[0]), Ok(CellType::SnakeHead));
    assert_eq!(count(grid, CellType::SnakeBody), body.len() - 1);
    for c in &body[1..] {
        assert_eq!(grid.get(*c), Ok(CellType::SnakeBody));
    }
}

#[test]
fn new_creature_is_one_segment_heading_right() {
    let creature = Creature::new();
    assert_eq!((START_X, START_Y), (15, 15));
    assert_eq!(creature.len(), 1);
    assert_eq!(creature.head(), cell(15, 15));
    assert_eq!(creature.tail(), cell(15, 15));
    assert_eq!(creature.heading(), Direction::Right);
}

#[test]
fn unit_steps_of_the_four_headings() {
    assert_eq!(Direction::Up.delta(), (0, -1));
    assert_eq!(Direction::Down.delta(), (0, 1));
    assert_eq!(Direction::Left.delta(), (-1, 0));
    assert_eq!(Direction::Right.delta(), (1, 0));
    assert_eq!(Direction::Up.opposite(), Direction::Down);
    assert_eq!(Direction::Down.opposite(), Direction::Up);
    assert_eq!(Direction::Left.opposite(), Direction::Right);
    assert_eq!(Direction::Right.opposite(), Direction::Left);
}

#[test]
fn placing_writes_the_head_mark_only() {
    let (creature, grid) = placed(30, 30);
    assert_eq!(grid.get(cell(15, 15)), Ok(CellType::SnakeHead));
    assert_eq!(count(&grid, CellType::Empty), 30 * 30 - 1);
    marks_agree(&creature, &grid);
}

#[test]
fn placing_off_the_grid_fails_and_writes_nothing() {
    let mut grid = Grid::new(15, 40).unwrap();
    let creature = Creature::new();
    assert_eq!(creature.place_on_grid(&mut grid), Err(GameError::OutOfBounds));
    assert_eq!(count(&grid, CellType::Empty), 15 * 40);
    let mut low = Grid::new(40, 15).unwrap();
    assert_eq!(creature.place_on_grid(&mut low), Err(GameError::OutOfBounds));
    assert_eq!(count(&low, CellType::Empty), 15 * 40);
}

#[test]
fn placing_a_long_creature_marks_head_and_body() {
    let (mut creature, mut grid) = placed(30, 30);
    creature.grow_and_advance(&mut grid).unwrap();
    creature.grow_and_advance(&mut grid).unwrap();
    let mut fresh = Grid::new(20, 20).unwrap();
    assert_eq!(creature.place_on_grid(&mut fresh), Ok(()));
    assert_eq!(fresh.get(cell(17, 15)), Ok(CellType::SnakeHead));
    assert_eq!(fresh.get(cell(16, 15)), Ok(CellType::SnakeBody));
    assert_eq!(fresh.get(cell(15, 15)), Ok(CellType::SnakeBody));
    marks_agree(&creature, &fresh);
}

#[test]
fn rotate_ignores_the_reverse_heading() {
    let mut creature = Creature::new();
    creature.rotate(Direction::Left);
    assert_eq!(creature.heading(), Direction::Right);
    creature.rotate(Direction::Up);
    assert_eq!(creature.heading(), Direction::Up);
    creature.rotate(Direction::Down);
    assert_eq!(creature.heading(), Direction::Up);
    creature.rotate(Direction::Left);
    assert_eq!(creature.heading(), Direction::Left);
    creature.rotate(Direction::Right);
    assert_eq!(creature.heading(), Direction::Left);
    creature.rotate(Direction::Down);
    assert_eq!(creature.heading(), Direction::Down);
    creature.rotate(Direction::Up);
    assert_eq!(creature.heading(), Direction::Down);
}

#[test]
fn rotate_accepts_every_other_heading() {
    for (from, to) in [
        (Direction::Up, Direction::Up),
        (Direction::Up, Direction::Left),
        (Direction::Up, Direction::Right),
        (Direction::Right, Direction::Right),
        (Direction::Right, Direction::Down),
    ] {
        let mut creature = Creature::new();
        creature.rotate(from);
        assert_eq!(creature.heading(), from);
        creature.rotate(to);
        assert_eq!(creature.heading(), to);
        assert_eq!(body_of(&creature), vec![cell(15, 15)]);
    }
}

#[test]
fn advance_slides_and_keeps_the_length() {
    let (mut creature, mut grid) = placed(30, 30);
    assert_eq!(creature.advance(&mut grid), Ok(()));
    assert_eq!(body_of(&creature), vec![cell(16, 15)]);
    assert_eq!(grid.get(cell(15, 15)), Ok(CellType::Empty));
    assert_eq!(grid.get(cell(16, 15)), Ok(CellType::SnakeHead));
    marks_agree(&creature, &grid);
    creature.rotate(Direction::Up);
    assert_eq!(creature.advance(&mut grid), Ok(()));
    assert_eq!(body_of(&creature), vec![cell(16, 14)]);
    creature.rotate(Direction::Left);
    assert_eq!(creature.advance(&mut grid), Ok(()));
    assert_eq!(body_of(&creature), vec![cell(15, 14)]);
    creature.rotate(Direction::Down);
    assert_eq!(creature.advance(&mut grid), Ok(()));
    assert_eq!(body_of(&creature), vec![cell(15, 15)]);
    assert_eq!(count(&grid, CellType::Empty), 30 * 30 - 1);
    marks_agree(&creature, &grid);
}

#[test]
fn grow_and_advance_adds_one_segment() {
    let (mut creature, mut grid) = placed(30, 30);
    assert_eq!(creature.grow_and_advance(&mut grid), Ok(()));
    assert_eq!(creature.len(), 2);
    assert_eq!(body_of(&creature), vec![cell(16, 15), cell(15, 15)]);
    assert_eq!(grid.get(cell(16, 15)), Ok(CellType::SnakeHead));
    assert_eq!(grid.get(cell(15, 15)), Ok(CellType::SnakeBody));
    marks_agree(&creature, &grid);
    assert_eq!(creature.grow_and_advance(&mut grid), Ok(()));
    assert_eq!(body_of(&creature), vec![cell(17, 15), cell(16, 15), cell(15, 15)]);
    assert_eq!(creature.advance(&mut grid), Ok(()));
    assert_eq!(body_of(&creature), vec![cell(18, 15), cell(17, 15), cell(16, 15)]);
    assert_eq!(grid.get(cell(15, 15)), Ok(CellType::Empty));
    assert_eq!(creature.tail(), cell(16, 15));
    marks_agree(&creature, &grid);
}

#[test]
fn advance_into_the_right_wall_fails() {
    let (mut creature, mut grid) = placed(16, 16);
    assert_eq!(creature.advance(&mut grid), Err(GameError::CollisionWall));
    assert_eq!(body_of(&creature), vec![cell(15, 15)]);
    assert_eq!(creature.heading(), Direction::Right);
    marks_agree(&creature, &grid);
    assert_eq!(creature.advance(&mut grid), Err(GameError::CollisionWall));
    assert_eq!(creature.grow_and_advance(&mut grid), Err(GameError::CollisionWall));
    assert_eq!(creature.len(), 1);
}

#[test]
fn every_wall_stops_the_creature() {
    for (turns, steps) in [
        (vec![Direction::Up], 15),
        (vec![Direction::Up, Direction::Left], 15),
        (vec![Direction::Down], 4),
        (vec![], 4),
    ] {
        let (mut creature, mut grid) = placed(20, 20);
        for heading in turns {
            creature.rotate(heading);
        }
        for _ in 0..steps {
            assert_eq!(creature.advance(&mut grid), Ok(()));
        }
        let before = body_of(&creature);
        assert_eq!(creature.advance(&mut grid), Err(GameError::CollisionWall));
        assert_eq!(body_of(&creature), before);
        marks_agree(&creature, &grid);
    }
}

#[test]
fn turning_into_the_body_fails() {
    let (mut creature, mut grid) = placed(30, 30);
    for _ in 0..4 {
        creature.grow_and_advance(&mut grid).unwrap();
    }
    creature.rotate(Direction::Down);
    creature.advance(&mut grid).unwrap();
    creature.rotate(Direction::Left);
    creature.advance(&mut grid).unwrap();
    creature.rotate(Direction::Up);
    let before = body_of(&creature);
    assert_eq!(
        before,
        vec![cell(18, 16), cell(19, 16), cell(19, 15), cell(18, 15), cell(17, 15)]
    );
    assert_eq!(creature.advance(&mut grid), Err(GameError::CollisionSelf));
    assert_eq!(body_of(&creature), before);
    assert_eq!(creature.heading(), Direction::Up);
    marks_agree(&creature, &grid);
    assert_eq!(creature.grow_and_advance(&mut grid), Err(GameError::CollisionSelf));
    assert_eq!(body_of(&creature), before);
}

#[test]
fn the_leaving_tail_is_no_obstacle_unless_growing() {
    let (mut creature, mut grid) = placed(30, 30);
    for _ in 0..3 {
        creature.grow_and_advance(&mut grid).unwrap();
    }
    creature.rotate(Direction::Down);
    creature.advance(&mut grid).unwrap();
    creature.rotate(Direction::Left);
    creature.advance(&mut grid).unwrap();
    creature.rotate(Direction::Up);
    assert_eq!(
        body_of(&creature),
        vec![cell(17, 16), cell(18, 16), cell(18, 15), cell(17, 15)]
    );
    assert_eq!(creature.grow_and_advance(&mut grid), Err(GameError::CollisionSelf));
    assert_eq!(creature.len(), 4);
    assert_eq!(creature.advance(&mut grid), Ok(()));
    assert_eq!(
        body_of(&creature),
        vec![cell(17, 15), cell(17, 16), cell(18, 16), cell(18, 15)]
    );
    marks_agree(&creature, &grid);
}

#[test]
fn occupies_food_reads_the_cell_under_the_head() {
    let (mut creature, mut grid) = placed(30, 30);
    assert!(!creature.occupies_food(&grid));
    grid.set(cell(17, 15), CellType::Food).unwrap();
    creature.advance(&mut grid).unwrap();
    assert!(!creature.occupies_food(&grid));
    creature.advance(&mut grid).unwrap();
    assert_eq!(creature.head(), cell(17, 15));
    assert!(creature.occupies_food(&grid));
    assert_eq!(grid.get(cell(17, 15)), Ok(CellType::Food));
    assert_eq!(count(&grid, CellType::SnakeHead), 0);
    creature.grow_and_advance(&mut grid).unwrap();
    assert!(!creature.occupies_food(&grid));
    assert_eq!(grid.get(cell(17, 15)), Ok(CellType::SnakeBody));
    assert_eq!(count(&grid, CellType::Food), 0);
    marks_agree(&creature, &grid);
}

#[test]
fn occupies_food_is_false_off_the_grid() {
    let grid = Grid::new(5, 5).unwrap();
    let creature = Creature::new();
    assert!(!creature.occupies_food(&grid));
}
