use snake::coord::Coordinate;
use snake::error::GameError;
use snake::grid::{CellType, Grid};

fn spot(x: i32, y: i32) -> Coordinate {
    Coordinate { x, y }
}

fn food_cells(grid: &Grid) -> Vec<Coordinate> {
    let mut found = Vec::new();
    for y in 0..grid.height() {
        for x in 0..grid.width() {
            if grid.get(spot(x, y)) == Ok(CellType::Food) {
                found.push(spot(x, y));
            }
        }
    }
    found
}

#[test]
fn food_goes_to_the_first_sample_that_is_free() {
    let mut grid = Grid::new(4, 4).unwrap();
    grid.set(spot(1, 1), CellType::SnakeHead).unwrap();
    grid.set(spot(2, 1), CellType::SnakeBody).unwrap();
    let samples = vec![spot(1, 1), spot(9, 0), spot(2, 1), spot(-1, 2), spot(3, 2), spot(0, 0)];
    assert_eq!(grid.place_food(&samples), Ok(spot(3, 2)));
    assert_eq!(food_cells(&grid), vec![spot(3, 2)]);
    assert_eq!(grid.get(spot(1, 1)), Ok(CellType::SnakeHead));
    assert_eq!(grid.get(spot(2, 1)), Ok(CellType::SnakeBody));
    assert_eq!(grid.get(spot(0, 0)), Ok(CellType::Empty));
}

#[test]
fn food_falls_back_to_the_first_empty_cell() {
    let mut grid = Grid::new(3, 3).unwrap();
    grid.set(spot(0, 0), CellType::SnakeBody).unwrap();
    grid.set(spot(1, 0), CellType::SnakeBody).unwrap();
    grid.set(spot(2, 0), CellType::SnakeHead).unwrap();
    grid.set(spot(0, 1), CellType::SnakeBody).unwrap();
    assert_eq!(grid.place_food(&vec![]), Ok(spot(1, 1)));
    assert_eq!(food_cells(&grid), vec![spot(1, 1)]);
    let mut other = Grid::new(3, 3).unwrap();
    other.set(spot(1, 0), CellType::SnakeHead).unwrap();
    assert_eq!(other.place_food(&vec![spot(1, 0), spot(3, 3)]), Ok(spot(0, 0)));
    assert_eq!(food_cells(&other), vec![spot(0, 0)]);
}

#[test]
fn food_on_a_full_grid_fails_with_no_free_cell() {
    let mut grid = Grid::new(2, 2).unwrap();
    grid.set(spot(0, 0), CellType::SnakeHead).unwrap();
    grid.set(spot(1, 0), CellType::SnakeBody).unwrap();
    grid.set(spot(1, 1), CellType::SnakeBody).unwrap();
    grid.set(spot(0, 1), CellType::SnakeBody).unwrap();
    let samples = vec![spot(0, 0), spot(1, 1), spot(5, 5)];
    assert_eq!(grid.place_food(&samples), Err(GameError::NoFreeCell));
    assert_eq!(grid.place_food(&vec![]), Err(GameError::NoFreeCell));
    assert_eq!(grid.get(spot(0, 0)), Ok(CellType::SnakeHead));
    assert_eq!(grid.get(spot(1, 0)), Ok(CellType::SnakeBody));
    assert_eq!(grid.get(spot(1, 1)), Ok(CellType::SnakeBody));
    assert_eq!(grid.get(spot(0, 1)), Ok(CellType::SnakeBody));
}

#[test]
fn food_takes_the_last_empty_cell() {
    let mut grid = Grid::new(2, 2).unwrap();
    grid.set(spot(0, 0), CellType::SnakeHead).unwrap();
    grid.set(spot(1, 0), CellType::SnakeBody).unwrap();
    grid.set(spot(0, 1), CellType::SnakeBody).unwrap();
    assert_eq!(grid.place_food(&vec![spot(0, 0)]), Ok(spot(1, 1)));
    assert_eq!(food_cells(&grid), vec![spot(1, 1)]);
}

#[test]
fn placed_food_was_empty_and_is_the_only_food() {
    for sample in [spot(0, 0), spot(4, 2), spot(2, 1), spot(7, 7)] {
        let mut grid = Grid::new(5, 3).unwrap();
        grid.set(spot(2, 1), CellType::SnakeHead).unwrap();
        let before = grid.get(sample);
        let placed = grid.place_food(&vec![sample]).unwrap();
        if before == Ok(CellType::Empty) {
            assert_eq!(placed, sample);
        } else {
            assert_eq!(placed, spot(0, 0));
        }
        assert_eq!(food_cells(&grid), vec![placed]);
    }
}
