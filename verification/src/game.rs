//! The simulation: it owns the grid and the creature, paces the steps,
//! places food and records death.
//!
//! Two events drive a game, a tick of the clock ([`Game::update`]) and a key
//! press ([`Game::key_down`]); both may lead to a step ([`Game::step`]). A
//! step first looks at the cell under the head: a creature that stands on
//! food grows with this step, one step after it reached the food. What each
//! event does is defined on [`GameView`], and the executable functions are
//! proved to do exactly that.
//!
//! The game draws no random numbers itself. Whoever drives it hands in the
//! cells that were sampled for the food.

use vstd::prelude::*;
use crate::coord::{Coordinate, Direction};
use crate::error::GameError;
use crate::grid::{CellType, Grid, GridView};
use crate::creature::{lemma_move_keeps_placement, Creature, CreatureView, START_X, START_Y};
use crate::food::{lemma_feeding_keeps_placement, lemma_food_pick_exists, lemma_food_placed_once};

verus! {

/// Units of delay that make one tick. Delays are held in fixed point, in
/// thousandths of a tick, so that the speed can rise by fractions of a tick.
pub const TICK_SCALE: u32 = 1000;

/// What an event did to the game.
#[derive(Clone, Copy, Debug, PartialEq, Eq, Structural)]
pub enum Outcome {
    /// The key names no direction; nothing happened.
    Ignored,
    /// The creature is dead; nothing happened.
    Frozen,
    /// The tick was counted, and the next step is not due yet.
    Waiting,
    /// The creature moved one cell.
    Moved,
    /// The creature ate, moved and grew by one segment, the game got faster
    /// and new food was placed.
    Grew,
    /// The creature ran into a wall or into itself and died.
    Died,
}

/// The direction that a key names: the four arrow keys, by the names that
/// browsers give them.
pub open spec fn key_direction(key: Seq<char>) -> Option<Direction> {
    if key == "ArrowUp"@ {
        Some(Direction::Up)
    } else if key == "ArrowDown"@ {
        Some(Direction::Down)
    } else if key == "ArrowLeft"@ {
        Some(Direction::Left)
    } else if key == "ArrowRight"@ {
        Some(Direction::Right)
    } else {
        None
    }
}

/// The mathematical content of a game.
pub struct GameView {
    pub grid: GridView,
    pub creature: CreatureView,
    /// Ticks to wait before each step, in units of `1 / TICK_SCALE` tick.
    pub delay: nat,
    /// What `delay` loses each time the creature eats, in the same units.
    pub speed_up: nat,
    /// Ticks counted since the last step.
    pub ticks: nat,
    pub dead: bool,
}

impl GameView {
    /// Validity of a game: the creature is placed on the grid, and at most
    /// one cell holds food.
    pub open spec fn wf(self) -> bool {
        self.creature.placed_on(self.grid) && self.grid.at_most_one_food()
    }

    /// A new game on a grid of the given size: the creature drawn at its
    /// start cell, one food cell placed by the samples, no tick counted.
    pub open spec fn initial(
        width: int,
        height: int,
        delay: nat,
        speed_up: nat,
        samples: Seq<Coordinate>,
    ) -> GameView {
        let creature = CreatureView::initial();
        let drawn = GridView::blank(width, height).with_creature(creature);
        GameView { grid: drawn.fed(samples), creature, delay, speed_up, ticks: 0, dead: false }
    }

    /// Whole ticks that must be counted before a step is made.
    pub open spec fn threshold(self) -> int {
        self.delay as int / TICK_SCALE as int
    }

    /// The game after the delay has lost one speed-up, stopping at zero.
    pub open spec fn sped_up(self) -> GameView {
        GameView {
            delay: if self.delay >= self.speed_up {
                (self.delay - self.speed_up) as nat
            } else {
                0
            },
            ..self
        }
    }

    /// The game after one tick has been counted, and whether the tick is
    /// skipped: a dead game skips every tick and counts none; a live game
    /// skips while the count stays under the threshold, and otherwise
    /// starts counting anew and lets the step be made.
    pub open spec fn ticked(self) -> (GameView, bool) {
        if self.dead {
            (self, true)
        } else if self.ticks + 1 < self.threshold() {
            (GameView { ticks: self.ticks + 1, ..self }, true)
        } else {
            (GameView { ticks: 0, ..self }, false)
        }
    }

    /// The creature will grow on its next move: its head stands on food.
    pub open spec fn growing(self) -> bool {
        self.creature.occupies_food(self.grid)
    }

    /// One movement of a live game and what it yields. A creature that
    /// stands on food grows, otherwise it slides. A move that meets an
    /// obstacle fails with the collision and changes nothing. After growth
    /// the game speeds up and food is placed; if food finds no place the
    /// movement still stands and `NoFreeCell` is reported.
    pub open spec fn moved(self, samples: Seq<Coordinate>) -> (
        GameView,
        Result<Outcome, GameError>,
    ) {
        let grow = self.growing();
        match self.creature.obstacle(self.grid, grow) {
            Some(e) => (self, Err(e)),
            None => {
                let slid = GameView {
                    creature: self.creature.moved(grow),
                    grid: self.grid.after_move(self.creature, grow),
                    ..self
                };
                if !grow {
                    (slid, Ok(Outcome::Moved))
                } else {
                    let fast = slid.sped_up();
                    (
                        GameView { grid: fast.grid.fed(samples), ..fast },
                        if fast.grid.food_pick(samples) is Some {
                            Ok(Outcome::Grew)
                        } else {
                            Err(GameError::NoFreeCell)
                        },
                    )
                }
            },
        }
    }

    /// One step of the game. A dead game stays as it is. A collision kills
    /// the creature and is not reported as an error; any other result of the
    /// movement is passed on.
    pub open spec fn stepped(self, samples: Seq<Coordinate>) -> (
        GameView,
        Result<Outcome, GameError>,
    ) {
        if self.dead {
            (self, Ok(Outcome::Frozen))
        } else {
            let (next, result) = self.moved(samples);
            match result {
                Err(GameError::CollisionWall) | Err(GameError::CollisionSelf) => (
                    GameView { dead: true, ..next },
                    Ok(Outcome::Died),
                ),
                _ => (next, result),
            }
        }
    }

    /// One tick of the clock: the tick is counted, and the step is made when
    /// it is due.
    pub open spec fn updated(self, samples: Seq<Coordinate>) -> (
        GameView,
        Result<Outcome, GameError>,
    ) {
        let (counted, skipped) = self.ticked();
        if !skipped {
            counted.stepped(samples)
        } else if self.dead {
            (counted, Ok(Outcome::Frozen))
        } else {
            (counted, Ok(Outcome::Waiting))
        }
    }

    /// A request to head in direction `d`: a live creature turns, unless `d`
    /// reverses its heading, and a step is made at once.
    pub open spec fn steered(
        self,
        d: Direction,
        samples: Seq<Coordinate>,
    ) -> (GameView, Result<Outcome, GameError>) {
        if self.dead {
            (self, Ok(Outcome::Frozen))
        } else {
            GameView { creature: self.creature.rotated(d), ..self }.stepped(samples)
        }
    }

    /// A key press: a key that names a direction steers, any other key does
    /// nothing.
    pub open spec fn keyed(
        self,
        key: Seq<char>,
        samples: Seq<Coordinate>,
    ) -> (GameView, Result<Outcome, GameError>) {
        match key_direction(key) {
            Some(d) => self.steered(d, samples),
            None => (self, Ok(Outcome::Ignored)),
        }
    }
}

/// Decodes a key name into the direction it stands for, if any.
pub fn get_direction(key: &str) -> (r: Option<Direction>)
    ensures
        r == key_direction(key@),
{
    // Text is compared as owned strings, whose equality is specified.
    let name = key.to_owned();
    if name == "ArrowUp".to_owned() {
        Some(Direction::Up)
    } else if name == "ArrowDown".to_owned() {
        Some(Direction::Down)
    } else if name == "ArrowLeft".to_owned() {
        Some(Direction::Left)
    } else if name == "ArrowRight".to_owned() {
        Some(Direction::Right)
    } else {
        None
    }
}

/// The game: grid, creature, pace and the death flag.
pub struct Game {
    grid: Grid,
    creature: Creature,
    delay: u32,
    ticks: u32,
    speed_up: u32,
    dead: bool,
}

impl View for Game {
    type V = GameView;

    closed spec fn view(&self) -> GameView {
        GameView {
            grid: self.grid@,
            creature: self.creature@,
            delay: self.delay as nat,
            speed_up: self.speed_up as nat,
            ticks: self.ticks as nat,
            dead: self.dead,
        }
    }
}

impl Game {
    /// The grid's storage is consistent.
    pub closed spec fn storage_ok(&self) -> bool {
        self.grid.rows_match()
    }

    /// Validity of a game: consistent storage and a well-formed
    /// [`GameView`].
    pub open spec fn wf(&self) -> bool {
        self.storage_ok() && self@.wf()
    }

    /// Starts a game on a new grid of `width` by `height` cells: the
    /// creature is drawn at its start cell and one food cell is placed by
    /// the samples. `delay` and `speed_up` are in units of `1 / TICK_SCALE`
    /// tick. Fails with `InvalidDimensions` when `width` or `height` is not
    /// positive, and with `OutOfBounds` when the start cell is not on the
    /// grid.
    pub fn new(
        width: i32,
        height: i32,
        delay: u32,
        speed_up: u32,
        samples: &Vec<Coordinate>,
    ) -> (r: Result<Game, GameError>)
        ensures
            width <= 0 || height <= 0 ==> r is Err && r->Err_0 == GameError::InvalidDimensions,
            width > 0 && height > 0 && (width <= START_X || height <= START_Y) ==> r is Err
                && r->Err_0 == GameError::OutOfBounds,
            width > START_X && height > START_Y ==> r is Ok && r->Ok_0.wf(),
            r matches Ok(game) ==> game@ == GameView::initial(
                width as int,
                height as int,
                delay as nat,
                speed_up as nat,
                samples@,
            ) && game@.grid.cells_of(CellType::Food).len() == 1,
    {
        let mut grid = match Grid::new(width, height) {
            Ok(grid) => grid,
            Err(e) => {
                return Err(e);
            },
        };
        let creature = Creature::new();
        match creature.place_on_grid(&mut grid) {
            Ok(()) => {},
            Err(e) => {
                return Err(e);
            },
        }
        let ghost drawn = grid@;
        let mut game = Game { grid, creature, delay, ticks: 0, speed_up, dead: false };
        proof {
            // The corner is empty, so food finds a place; and no food is
            // there yet, so it will be the only one.
            let corner = Coordinate { x: 0, y: 0 };
            assert(drawn.in_bounds(corner) && drawn.cells[corner] == CellType::Empty);
            lemma_food_pick_exists(drawn, samples@);
            lemma_food_placed_once(drawn, samples@, drawn.food_pick(samples@)->Some_0);
        }
        match game.place_food(samples) {
            Ok(_) => Ok(game),
            Err(e) => Err(e),
        }
    }

    /// The grid as it stands.
    pub fn grid(&self) -> (grid: &Grid)
        requires
            self.wf(),
        ensures
            grid.wf(),
            grid@ == self@.grid,
    {
        &self.grid
    }

    /// The creature as it stands.
    pub fn creature(&self) -> (creature: &Creature)
        requires
            self.wf(),
        ensures
            creature.wf(),
            creature@ == self@.creature,
    {
        &self.creature
    }

    /// The current delay, in units of `1 / TICK_SCALE` tick.
    pub fn delay(&self) -> (d: u32)
        ensures
            d == self@.delay,
    {
        self.delay
    }

    /// Ticks counted since the last step.
    pub fn ticks(&self) -> (n: u32)
        ensures
            n == self@.ticks,
    {
        self.ticks
    }

    /// Whether the creature has died. Once true this never changes.
    pub fn is_dead(&self) -> (b: bool)
        ensures
            b == self@.dead,
    {
        self.dead
    }

    /// Handles a key press: a key that names a direction steers the
    /// creature, any other key is ignored.
    pub fn key_down(
        &mut self,
        key: &str,
        samples: &Vec<Coordinate>,
    ) -> (r: Result<Outcome, GameError>)
        requires
            old(self).wf(),
        ensures
            final(self).wf(),
            (final(self)@, r) == old(self)@.keyed(key@, samples@),
    {
        match get_direction(key) {
            Some(direction) => self.on_input(direction, samples),
            None => Ok(Outcome::Ignored),
        }
    }

    /// Handles a request to head in `direction`: unless the creature is
    /// dead, it turns (a reversal is dropped) and makes a step at once.
    pub fn on_input(
        &mut self,
        direction: Direction,
        samples: &Vec<Coordinate>,
    ) -> (r: Result<Outcome, GameError>)
        requires
            old(self).wf(),
        ensures
            final(self).wf(),
            (final(self)@, r) == old(self)@.steered(direction, samples@),
    {
        if self.dead {
            return Ok(Outcome::Frozen);
        }
        self.creature.rotate(direction);
        self.step(samples)
    }

    /// Handles one tick of the clock: the tick is counted, and a step is
    /// made when enough ticks have passed. A dead game ignores the tick.
    pub fn update(&mut self, samples: &Vec<Coordinate>) -> (r: Result<Outcome, GameError>)
        requires
            old(self).wf(),
        ensures
            final(self).wf(),
            (final(self)@, r) == old(self)@.updated(samples@),
    {
        if !self.skip() {
            self.step(samples)
        } else if self.dead {
            Ok(Outcome::Frozen)
        } else {
            Ok(Outcome::Waiting)
        }
    }

    /// Counts one tick and tells whether the step is to be skipped. A dead
    /// game counts nothing and skips; a live game skips until the count
    /// reaches the whole ticks of the delay, then starts counting anew.
    pub fn skip(&mut self) -> (skipped: bool)
        requires
            old(self).wf(),
        ensures
            final(self).wf(),
            (final(self)@, skipped) == old(self)@.ticked(),
    {
        if self.dead {
            return true;
        }
        let threshold = self.delay / TICK_SCALE;
        if threshold >= 1 && self.ticks < threshold - 1 {
            self.ticks = self.ticks + 1;
            true
        } else {
            self.ticks = 0;
            false
        }
    }

    /// Makes one step: a live creature moves, growing if it stands on food.
    /// A collision kills it, which is recorded and reported as `Died`, not
    /// as an error. `NoFreeCell` is reported when the creature grew and no
    /// cell could take the new food.
    pub fn step(&mut self, samples: &Vec<Coordinate>) -> (r: Result<Outcome, GameError>)
        requires
            old(self).wf(),
        ensures
            final(self).wf(),
            (final(self)@, r) == old(self)@.stepped(samples@),
    {
        if self.dead {
            return Ok(Outcome::Frozen);
        }
        match self.try_step(samples) {
            Err(GameError::CollisionWall) | Err(GameError::CollisionSelf) => {
                self.dead = true;
                Ok(Outcome::Died)
            },
            result => result,
        }
    }

    /// Moves the creature once: it grows if it stands on food, and slides
    /// otherwise. After growth the game speeds up and food is placed.
    fn try_step(&mut self, samples: &Vec<Coordinate>) -> (r: Result<Outcome, GameError>)
        requires
            old(self).wf(),
        ensures
            final(self).wf(),
            (final(self)@, r) == old(self)@.moved(samples@),
    {
        if self.creature.occupies_food(&self.grid) {
            match self.creature.grow_and_advance(&mut self.grid) {
                Ok(()) => {},
                Err(e) => {
                    return Err(e);
                },
            }
            proof {
                lemma_growth_eats(old(self)@.creature, old(self)@.grid);
            }
            self.speed_up();
            match self.place_food(samples) {
                Ok(_) => Ok(Outcome::Grew),
                Err(e) => Err(e),
            }
        } else {
            match self.creature.advance(&mut self.grid) {
                Ok(()) => Ok(Outcome::Moved),
                Err(e) => Err(e),
            }
        }
    }

    /// Lowers the delay by one speed-up, stopping at zero.
    pub fn speed_up(&mut self)
        requires
            old(self).wf(),
        ensures
            final(self).wf(),
            final(self)@ == old(self)@.sped_up(),
    {
        if self.delay >= self.speed_up {
            self.delay = self.delay - self.speed_up;
        } else {
            self.delay = 0;
        }
    }

    /// Places food on a grid that holds none, by [`Grid::place_food`]. Fails
    /// with `NoFreeCell`, changing nothing, exactly when no sample qualifies
    /// and no cell is empty.
    fn place_food(&mut self, samples: &Vec<Coordinate>) -> (r: Result<Coordinate, GameError>)
        requires
            old(self).wf(),
            old(self)@.grid.cells_of(CellType::Food) =~= Set::<Coordinate>::empty(),
        ensures
            final(self).wf(),
            final(self)@ == (GameView { grid: old(self)@.grid.fed(samples@), ..old(self)@ }),
            match old(self)@.grid.food_pick(samples@) {
                Some(c) => r == Ok::<Coordinate, GameError>(c) && final(self)@.grid.cells_of(
                    CellType::Food,
                ) == set![c],
                None => r == Err::<Coordinate, GameError>(GameError::NoFreeCell),
            },
    {
        proof {
            lemma_feeding_keeps_placement(self@.creature, self@.grid, samples@);
        }
        let placed = self.grid.place_food(samples);
        proof {
            let food = self@.grid.cells_of(CellType::Food);
            assert forall|a: Coordinate, b: Coordinate|
                self@.grid.in_bounds(a) && self@.grid.in_bounds(b) && #[trigger] self@.grid.cells[a]
                    == CellType::Food && #[trigger] self@.grid.cells[b]
                    == CellType::Food implies a == b by {
                assert(food.contains(a) && food.contains(b));
            }
        }
        placed
    }
}

/// A growing step eats the food: if at most one cell held food and the head
/// stood on it, no cell holds food once the creature has grown.
pub proof fn lemma_growth_eats(s: CreatureView, g: GridView)
    requires
        s.placed_on(g),
        g.at_most_one_food(),
        s.occupies_food(g),
        s.obstacle(g, true) is None,
    ensures
        g.after_move(s, true).cells_of(CellType::Food) == Set::<Coordinate>::empty(),
{
}

/// Whatever the event, a valid game stays valid: the creature stays placed
/// on the grid and at most one cell holds food. After a step on which the
/// creature grew, exactly one cell holds food.
pub proof fn lemma_event_keeps_validity(s: GameView, samples: Seq<Coordinate>)
    requires
        s.wf(),
    ensures
        s.moved(samples).0.wf(),
        s.stepped(samples).0.wf(),
        s.updated(samples).0.wf(),
        forall|d: Direction| (#[trigger] s.steered(d, samples)).0.wf(),
        forall|key: Seq<char>| (#[trigger] s.keyed(key, samples)).0.wf(),
        s.moved(samples).1 == Ok::<Outcome, GameError>(Outcome::Grew) ==> s.moved(
            samples,
        ).0.grid.cells_of(CellType::Food).len() == 1,
{
    lemma_move_keeps_validity(s, samples);
    lemma_move_keeps_validity(GameView { ticks: 0, ..s }, samples);
    assert forall|d: Direction| (#[trigger] s.steered(d, samples)).0.wf() by {
        lemma_move_keeps_validity(GameView { creature: s.creature.rotated(d), ..s }, samples);
    }
}

/// One movement keeps a valid game valid.
proof fn lemma_move_keeps_validity(s: GameView, samples: Seq<Coordinate>)
    requires
        s.wf(),
    ensures
        s.moved(samples).0.wf(),
        s.moved(samples).1 == Ok::<Outcome, GameError>(Outcome::Grew) ==> s.moved(
            samples,
        ).0.grid.cells_of(CellType::Food).len() == 1,
{
    let grow = s.growing();
    if s.creature.obstacle(s.grid, grow) is None {
        lemma_move_keeps_placement(s.creature, s.grid, grow);
        if grow {
            let slid = s.grid.after_move(s.creature, grow);
            lemma_growth_eats(s.creature, s.grid);
            lemma_feeding_keeps_placement(s.creature.moved(grow), slid, samples);
            if slid.food_pick(samples) is Some {
                lemma_food_placed_once(slid, samples, slid.food_pick(samples)->Some_0);
            }
        }
    }
}

/// Death is final: no event changes a dead game, and every event reports it
/// as frozen (a key that names no direction is ignored, as always).
pub proof fn lemma_dead_is_final(
    s: GameView,
    key: Seq<char>,
    d: Direction,
    samples: Seq<Coordinate>,
)
    requires
        s.dead,
    ensures
        s.stepped(samples) == (s, Ok::<Outcome, GameError>(Outcome::Frozen)),
        s.updated(samples) == (s, Ok::<Outcome, GameError>(Outcome::Frozen)),
        s.steered(d, samples) == (s, Ok::<Outcome, GameError>(Outcome::Frozen)),
        s.keyed(key, samples).0 == s,
        s.ticked() == (s, true),
{
}

/// A live creature that is about to leave the grid, or to run into its body,
/// dies on the step: the move fails with the matching collision, the game is
/// marked dead, and nothing else changes. The tail's cell is body for a
/// growing creature only.
pub proof fn lemma_collision_kills(s: GameView, samples: Seq<Coordinate>)
    requires
        s.wf(),
        !s.dead,
    ensures
        s.creature.hits_wall(s.grid) ==> s.moved(samples).1 == Err::<Outcome, GameError>(
            GameError::CollisionWall,
        ),
        !s.creature.hits_wall(s.grid) && s.grid.cells[s.creature.target_cell()]
            == CellType::SnakeBody && (s.growing() || s.creature.target_cell()
            != s.creature.tail()) ==> s.moved(samples).1 == Err::<Outcome, GameError>(
            GameError::CollisionSelf,
        ),
        s.creature.obstacle(s.grid, s.growing()) is Some ==> s.stepped(samples) == (
            GameView { dead: true, ..s },
            Ok::<Outcome, GameError>(Outcome::Died),
        ),
        s.creature.obstacle(s.grid, s.growing()) is None ==> !s.stepped(samples).0.dead,
{
}

} // verus!
