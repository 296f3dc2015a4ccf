use snake::coord::Coordinate;
use snake::error::GameError;
use snake::grid::{CellType, Grid};

fn at(x: i32, y: i32) -> Coordinate {
    Coordinate { x, y }
}

#[test]
fn new_grid_is_empty_everywhere() {
    let grid = Grid::new(4, 3).unwrap();
    assert_eq!(grid.width(), 4);
    assert_eq!(grid.height(), 3);
    for y in 0..3 {
        for x in 0..4 {
            assert_eq!(grid.get(at(x, y)), Ok(CellType::Empty));
        }
    }
}

#[test]
fn new_grid_rejects_non_positive_sizes() {
    assert_eq!(Grid::new(0, 5).err(), Some(GameError::InvalidDimensions));
    assert_eq!(Grid::new(5, 0).err(), Some(GameError::InvalidDimensions));
    assert_eq!(Grid::new(-1, 5).err(), Some(GameError::InvalidDimensions));
    assert_eq!(Grid::new(5, -7).err(), Some(GameError::InvalidDimensions));
    assert_eq!(Grid::new(0, 0).err(), Some(GameError::InvalidDimensions));
    assert!(Grid::new(1, 1).is_ok());
}

#[test]
fn get_returns_what_set_wrote() {
    let mut grid = Grid::new(5, 4).unwrap();
    let kinds = [CellType::Food, CellType::SnakeBody, CellType::SnakeHead, CellType::Empty];
    for y in 0..4 {
        for x in 0..5 {
            for kind in kinds {
                assert_eq!(grid.set(at(x, y), kind), Ok(()));
                assert_eq!(grid.get(at(x, y)), Ok(kind));
            }
        }
    }
}

#[test]
fn set_changes_one_cell_only() {
    let mut grid = Grid::new(3, 3).unwrap();
    grid.set(at(1, 2), CellType::Food).unwrap();
    for y in 0..3 {
        for x in 0..3 {
            let expected = if (x, y) == (1, 2) { CellType::Food } else { CellType::Empty };
            assert_eq!(grid.get(at(x, y)), Ok(expected));
        }
    }
}

#[test]
fn get_outside_the_grid_fails() {
    let grid = Grid::new(3, 2).unwrap();
    for c in [at(-1, 0), at(0, -1), at(3, 0), at(0, 2), at(3, 2), at(i32::MAX, i32::MIN)] {
        assert_eq!(grid.get(c), Err(GameError::OutOfBounds));
        assert!(!grid.contains(c));
    }
    assert!(grid.contains(at(2, 1)));
}

#[test]
fn set_outside_the_grid_fails_and_changes_nothing() {
    let mut grid = Grid::new(2, 2).unwrap();
    for c in [at(-1, 0), at(0, -1), at(2, 0), at(0, 2)] {
        assert_eq!(grid.set(c, CellType::Food), Err(GameError::OutOfBounds));
    }
    for y in 0..2 {
        for x in 0..2 {
            assert_eq!(grid.get(at(x, y)), Ok(CellType::Empty));
        }
    }
}

#[test]
fn rows_and_columns_are_not_swapped() {
    let mut grid = Grid::new(5, 2).unwrap();
    assert_eq!(grid.set(at(4, 1), CellType::SnakeHead), Ok(()));
    assert_eq!(grid.get(at(4, 1)), Ok(CellType::SnakeHead));
    assert_eq!(grid.get(at(1, 4)), Err(GameError::OutOfBounds));
}
