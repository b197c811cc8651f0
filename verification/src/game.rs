//! The light-cycle game around the renderer: players, the per-tick step,
//! the rival's steering rule, and the frame loop's pure decisions.

use crate::fb::Framebuffer;
use crate::grid::spec_is_border;
use crate::grid::Grid;
use crate::heading::Direction;
use crate::raycast::draw_3d;
use crate::raycast::RenderError;
use crate::trig::TrigTables;
use vstd::prelude::*;

verus! {

/// One light cycle: its trail colour index, its heading and its grid cell.
#[derive(Clone, Copy, Debug)]
pub struct Player {
    pub index: u8,
    pub direction: Direction,
    pub position: (usize, usize),  // (row, col)
}

/// Which renderer the frame loop drives.
#[derive(Clone, Copy, Debug, PartialEq, Eq, Structural)]
pub enum DrawMode {
    TwoD,
    ThreeD,
}

/// The cell one step from `pos` along `dir`.
pub open spec fn spec_move(pos: (usize, usize), dir: Direction) -> (int, int) {
    match dir {
        Direction::North => (pos.0 - 1, pos.1 as int),
        Direction::South => (pos.0 + 1, pos.1 as int),
        Direction::East => (pos.0 as int, pos.1 + 1),
        Direction::West => (pos.0 as int, pos.1 - 1),
    }
}

/// The cell `k` steps from `pos` along `dir`.
pub open spec fn spec_ahead(pos: (usize, usize), dir: Direction, k: int) -> (int, int) {
    match dir {
        Direction::North => (pos.0 - k, pos.1 as int),
        Direction::South => (pos.0 + k, pos.1 as int),
        Direction::East => (pos.0 as int, pos.1 + k),
        Direction::West => (pos.0 as int, pos.1 - k),
    }
}

/// The distance of the first occupied cell along `dir`, scanning from step
/// `k` outward; zero when the scan leaves the grid or exhausts 40 steps.
pub open spec fn spec_scan(
    cells: Seq<Option<u8>>,
    pos: (usize, usize),
    dir: Direction,
    k: int,
) -> int
    decreases 41 - k,
{
    if k > 40 || k < 1 {
        0
    } else {
        let p = spec_ahead(pos, dir, k);
        if !(0 <= p.0 < 40 && 0 <= p.1 < 40) {
            0
        } else if cells[40 * p.0 + p.1] is Some {
            k
        } else {
            spec_scan(cells, pos, dir, k + 1)
        }
    }
}

/// The distance of the nearest occupied cell along `dir`.
pub open spec fn spec_next_ahead(cells: Seq<Option<u8>>, pos: (usize, usize), dir: Direction) -> int {
    spec_scan(cells, pos, dir, 1)
}

/// How far a cycle at `pos` can see along `dir` before the first occupied
/// cell: the distance of that cell, at least 1 and at most 39 while the
/// border is solid and `pos` is strictly inside it.
pub fn next_ahead(grid: &Grid, pos: (usize, usize), dir: Direction) -> (z: usize)
    requires
        grid.wf(),
        grid.border_occupied(),
        1 <= pos.0 <= 38,
        1 <= pos.1 <= 38,
    ensures
        1 <= z <= 39,
        z == spec_next_ahead(grid@, pos, dir),
        grid@[40 * spec_ahead(pos, dir, z as int).0 + spec_ahead(pos, dir, z as int).1] is Some,
        forall|k: int|
            1 <= k < z ==> grid@[40 * #[trigger] spec_ahead(pos, dir, k).0 + spec_ahead(
                pos,
                dir,
                k,
            ).1] is None,
{
    let mut row: usize = pos.0;
    let mut col: usize = pos.1;
    let mut z: usize = 1;
    loop
        invariant
            grid.wf(),
            grid.border_occupied(),
            1 <= pos.0 <= 38,
            1 <= pos.1 <= 38,
            1 <= z <= 40,
            (row as int, col as int) == spec_ahead(pos, dir, z - 1),
            1 <= row <= 38,
            1 <= col <= 38,
            forall|k: int|
                1 <= k < z ==> grid@[40 * #[trigger] spec_ahead(pos, dir, k).0 + spec_ahead(
                    pos,
                    dir,
                    k,
                ).1] is None,
            spec_scan(grid@, pos, dir, z as int) == spec_next_ahead(grid@, pos, dir),
        decreases 40 - z,
    {
        match dir {
            Direction::North => {
                row = row - 1;
            },
            Direction::South => {
                row = row + 1;
            },
            Direction::East => {
                col = col + 1;
            },
            Direction::West => {
                col = col - 1;
            },
        }
        proof {
            assert((row as int, col as int) == spec_ahead(pos, dir, z as int));
        }
        if grid.cell_at(row, col).is_some() {
            proof {
                assert(spec_scan(grid@, pos, dir, z as int) == z);
            }
            return z;
        }
        proof {
            // An empty cell is never on the border, so the scan stays
            // strictly inside the grid and must reach the border wall
            // within 38 further steps.
            assert(!spec_is_border(row as int, col as int));
            let zb: int = match dir {
                Direction::North => pos.0 as int,
                Direction::South => 39 - pos.0,
                Direction::East => 39 - pos.1,
                Direction::West => pos.1 as int,
            };
            let pb = spec_ahead(pos, dir, zb);
            assert(spec_is_border(pb.0, pb.1));
            assert(grid@[40 * pb.0 + pb.1] is Some);
            assert(z as int != zb);
            assert(z < 40);
        }
        z = z + 1;
    }
}

/// Sight distance after a left turn.
pub fn next_left(grid: &Grid, pos: (usize, usize), dir: Direction) -> (z: usize)
    requires
        grid.wf(),
        grid.border_occupied(),
        1 <= pos.0 <= 38,
        1 <= pos.1 <= 38,
    ensures
        1 <= z <= 39,
        z == spec_next_ahead(grid@, pos, dir.spec_left_turn()),
{
    next_ahead(grid, pos, dir.left_turn())
}

/// Sight distance after a right turn.
pub fn next_right(grid: &Grid, pos: (usize, usize), dir: Direction) -> (z: usize)
    requires
        grid.wf(),
        grid.border_occupied(),
        1 <= pos.0 <= 38,
        1 <= pos.1 <= 38,
    ensures
        1 <= z <= 39,
        z == spec_next_ahead(grid@, pos, dir.spec_right_turn()),
{
    next_ahead(grid, pos, dir.right_turn())
}

/// The rival's steering rule: hold course while more than three cells are
/// free ahead; otherwise turn toward the longer of the two side corridors
/// when it beats straight ahead. When both sides tie and beat the front,
/// the left turn and the immediately following right turn cancel out.
pub open spec fn spec_ai_direction(cells: Seq<Option<u8>>, rival: Player) -> Direction {
    let na = spec_next_ahead(cells, rival.position, rival.direction);
    if na > 3 {
        rival.direction
    } else {
        let nl = spec_next_ahead(cells, rival.position, rival.direction.spec_left_turn());
        let nr = spec_next_ahead(cells, rival.position, rival.direction.spec_right_turn());
        let d1 = if nl >= nr && nl > na {
            rival.direction.spec_left_turn()
        } else {
            rival.direction
        };
        if nr >= nl && nr > na {
            d1.spec_right_turn()
        } else {
            d1
        }
    }
}

/// The winner after one simultaneous step, if any: a cycle that runs into
/// an occupied cell loses, and cycles whose heads collide hand the win to
/// the rival. The first player moves first, so its fresh trail counts for
/// the rival's crash check.
pub open spec fn spec_step_winner(cells: Seq<Option<u8>>, player: Player, rival: Player) -> Option<
    u8,
> {
    let b1 = cells.update(40 * player.position.0 + player.position.1, Some(1u8));
    let p1 = spec_move(player.position, player.direction);
    let w1 = if b1[40 * p1.0 + p1.1] is Some {
        Some(2u8)
    } else {
        None
    };
    let w1b = if p1 == (rival.position.0 as int, rival.position.1 as int) {
        Some(2u8)
    } else {
        w1
    };
    let b2 = b1.update(40 * rival.position.0 + rival.position.1, Some(2u8));
    let p2 = spec_move(rival.position, rival.direction);
    let w2 = if b2[40 * p2.0 + p2.1] is Some {
        Some(1u8)
    } else {
        w1b
    };
    if p2 == p1 {
        Some(2u8)
    } else {
        w2
    }
}

/// Blit both cycles' head tiles over the board, the rival last, so an
/// overlap shows the rival.
pub fn draw_players(fb: &mut Framebuffer, player: &Player, rival: &Player)
    requires
        old(fb).wf(),
        player.position.0 < 40,
        player.position.1 < 40,
        rival.position.0 < 40,
        rival.position.1 < 40,
        player.index < 4,
        rival.index < 4,
    ensures
        final(fb).wf(),
        forall|pr: int, pc: int|
            0 <= pr < 160 && 0 <= pc < 160 ==> #[trigger] crate::fb::spec_pixel_at(
                final(fb)@,
                pr,
                pc,
            ) == (if pr / 4 == rival.position.0 && pc / 4 == rival.position.1 {
                rival.index
            } else if pr / 4 == player.position.0 && pc / 4 == player.position.1 {
                player.index
            } else {
                crate::fb::spec_pixel_at(old(fb)@, pr, pc)
            }),
{
    fb.draw_tile(player.position.0, player.position.1, player.index);
    fb.draw_tile(rival.position.0, rival.position.1, rival.index);
}

/// The whole game: the shared grid, the two cycles, the winner once
/// decided, the frame counter that paces the step, and the active renderer.
pub struct GameState {
    pub board: Grid,
    pub player: Player,
    pub rival: Player,
    pub winner: Option<u8>,
    pub frame: u8,
    pub mode: DrawMode,
}

impl GameState {
    /// The grid is well formed with a solid border, the cycle indices are
    /// fixed, and both cycles sit strictly inside the border until someone
    /// has won.
    pub open spec fn wf(&self) -> bool {
        &&& self.board.wf()
        &&& self.board.border_occupied()
        &&& self.player.index == 1
        &&& self.rival.index == 2
        &&& self.frame <= 8
        &&& (self.winner is None ==> 1 <= self.player.position.0 <= 38 && 1
            <= self.player.position.1 <= 38 && 1 <= self.rival.position.0 <= 38 && 1
            <= self.rival.position.1 <= 38)
    }

    /// A fresh game: the walled arena, the human cycle heading North from
    /// the lower middle, the rival heading East near the bottom edge.
    pub fn new() -> (s: GameState)
        ensures
            s.wf(),
            s.winner is None,
            s.frame == 0,
            s.mode == DrawMode::TwoD,
            s.player == (Player {
                index: 1u8,
                direction: Direction::North,
                position: (20usize, 25usize),
            }),
            s.rival == (Player {
                index: 2u8,
                direction: Direction::East,
                position: (38usize, 16usize),
            }),
            forall|row: int, col: int|
                0 <= row < 40 && 0 <= col < 40 ==> s.board@[40 * row + col] == (if spec_is_border(
                    row,
                    col,
                ) {
                    Some(0u8)
                } else {
                    None::<u8>
                }),
    {
        GameState {
            board: crate::grid::build_arena(),
            player: Player { index: 1, direction: Direction::North, position: (20, 25) },
            rival: Player { index: 2, direction: Direction::East, position: (38, 16) },
            winner: None,
            frame: 0,
            mode: DrawMode::TwoD,
        }
    }

    /// Move both cycles one cell along their headings, leaving trail cells
    /// behind, and decide the winner on any crash or head-on collision.
    pub fn step(&mut self)
        requires
            old(self).wf(),
            old(self).winner is None,
        ensures
            final(self).wf(),
            final(self).board@ == old(self).board@.update(
                40 * old(self).player.position.0 + old(self).player.position.1,
                Some(1u8),
            ).update(40 * old(self).rival.position.0 + old(self).rival.position.1, Some(2u8)),
            (final(self).player.position.0 as int, final(self).player.position.1 as int)
                == spec_move(old(self).player.position, old(self).player.direction),
            (final(self).rival.position.0 as int, final(self).rival.position.1 as int)
                == spec_move(old(self).rival.position, old(self).rival.direction),
            final(self).winner == spec_step_winner(
                old(self).board@,
                old(self).player,
                old(self).rival,
            ),
            final(self).player.direction == old(self).player.direction,
            final(self).rival.direction == old(self).rival.direction,
            final(self).player.index == 1 && final(self).rival.index == 2,
            final(self).frame == old(self).frame,
            final(self).mode == old(self).mode,
    {
        // First cycle: drop a trail cell, move, check what it ran into.
        let (pr, pc) = self.player.position;
        self.board.set_cell(pr, pc, 1);
        let p1: (usize, usize) = match self.player.direction {
            Direction::North => (pr - 1, pc),
            Direction::South => (pr + 1, pc),
            Direction::East => (pr, pc + 1),
            Direction::West => (pr, pc - 1),
        };
        self.player.position = p1;
        if self.board.cell_at(p1.0, p1.1).is_some() {
            self.winner = Some(2);
        }
        if p1.0 == self.rival.position.0 && p1.1 == self.rival.position.1 {
            self.winner = Some(2);
        }
        // Second cycle: the same, against the board that already carries
        // the first cycle's fresh trail.
        let (rr, rc) = self.rival.position;
        self.board.set_cell(rr, rc, 2);
        let p2: (usize, usize) = match self.rival.direction {
            Direction::North => (rr - 1, rc),
            Direction::South => (rr + 1, rc),
            Direction::East => (rr, rc + 1),
            Direction::West => (rr, rc - 1),
        };
        self.rival.position = p2;
        if self.board.cell_at(p2.0, p2.1).is_some() {
            self.winner = Some(1);
        }
        if p2.0 == p1.0 && p2.1 == p1.1 {
            self.winner = Some(2);
        }
        proof {
            assert(self.winner == spec_step_winner(
                old(self).board@,
                old(self).player,
                old(self).rival,
            ));
            if self.winner is None {
                assert(!spec_is_border(p1.0 as int, p1.1 as int));
                assert(!spec_is_border(p2.0 as int, p2.1 as int));
            }
        }
    }

    /// Steer the rival cycle by its corridor rule; everything else is
    /// untouched.
    pub fn ai(&mut self)
        requires
            old(self).wf(),
            old(self).winner is None,
        ensures
            final(self).wf(),
            final(self).rival.direction == spec_ai_direction(old(self).board@, old(self).rival),
            final(self).board@ == old(self).board@,
            final(self).player == old(self).player,
            final(self).rival.position == old(self).rival.position,
            final(self).rival.index == old(self).rival.index,
            final(self).winner == old(self).winner,
            final(self).frame == old(self).frame,
            final(self).mode == old(self).mode,
    {
        let pos = self.rival.position;
        let dir = self.rival.direction;
        let na = next_ahead(&self.board, pos, dir);
        if na > 3 {
            return;
        }
        let nl = next_left(&self.board, pos, dir);
        let nr = next_right(&self.board, pos, dir);
        if nl >= nr && nl > na {
            self.rival.direction = self.rival.direction.left_turn();
        }
        if nr >= nl && nr > na {
            self.rival.direction = self.rival.direction.right_turn();
        }
    }

    /// Turn the human cycle a quarter left.
    pub fn turn_player_left(&mut self)
        requires
            old(self).wf(),
        ensures
            final(self).wf(),
            final(self).player.direction == old(self).player.direction.spec_left_turn(),
            final(self).player.position == old(self).player.position,
            final(self).player.index == old(self).player.index,
            final(self).board@ == old(self).board@,
            final(self).rival == old(self).rival,
            final(self).winner == old(self).winner,
            final(self).frame == old(self).frame,
            final(self).mode == old(self).mode,
    {
        self.player.direction = self.player.direction.left_turn();
    }

    /// Turn the human cycle a quarter right.
    pub fn turn_player_right(&mut self)
        requires
            old(self).wf(),
        ensures
            final(self).wf(),
            final(self).player.direction == old(self).player.direction.spec_right_turn(),
            final(self).player.position == old(self).player.position,
            final(self).player.index == old(self).player.index,
            final(self).board@ == old(self).board@,
            final(self).rival == old(self).rival,
            final(self).winner == old(self).winner,
            final(self).frame == old(self).frame,
            final(self).mode == old(self).mode,
    {
        self.player.direction = self.player.direction.right_turn();
    }

    /// Switch between the top-down and the first-person renderer.
    pub fn toggle_mode(&mut self)
        requires
            old(self).wf(),
        ensures
            final(self).wf(),
            final(self).mode == (match old(self).mode {
                DrawMode::TwoD => DrawMode::ThreeD,
                DrawMode::ThreeD => DrawMode::TwoD,
            }),
            final(self).board@ == old(self).board@,
            final(self).player == old(self).player,
            final(self).rival == old(self).rival,
            final(self).winner == old(self).winner,
            final(self).frame == old(self).frame,
    {
        self.mode = match self.mode {
            DrawMode::TwoD => DrawMode::ThreeD,
            DrawMode::ThreeD => DrawMode::TwoD,
        };
    }

    /// Run the pure part of one frame callback while the game is live:
    /// steer the rival, step both cycles on every ninth frame, and advance
    /// the frame counter.
    pub fn advance(&mut self)
        requires
            old(self).wf(),
            old(self).winner is None,
        ensures
            final(self).wf(),
            final(self).rival.direction == spec_ai_direction(old(self).board@, old(self).rival),
            final(self).player.direction == old(self).player.direction,
            final(self).frame == (if old(self).frame + 1 > 8 {
                0u8
            } else {
                (old(self).frame + 1) as u8
            }),
            final(self).mode == old(self).mode,
            old(self).frame != 0 ==> final(self).board@ == old(self).board@
                && final(self).player.position == old(self).player.position
                && final(self).rival.position == old(self).rival.position
                && final(self).winner is None,
            old(self).frame == 0 ==> {
                let steered = (Player {
                    direction: spec_ai_direction(old(self).board@, old(self).rival),
                    ..old(self).rival
                });
                &&& final(self).board@ == old(self).board@.update(
                    40 * old(self).player.position.0 + old(self).player.position.1,
                    Some(1u8),
                ).update(40 * old(self).rival.position.0 + old(self).rival.position.1, Some(2u8))
                &&& (final(self).player.position.0 as int, final(self).player.position.1 as int)
                    == spec_move(old(self).player.position, old(self).player.direction)
                &&& (final(self).rival.position.0 as int, final(self).rival.position.1 as int)
                    == spec_move(old(self).rival.position, steered.direction)
                &&& final(self).winner == spec_step_winner(
                    old(self).board@,
                    old(self).player,
                    steered,
                )
            },
    {
        self.ai();
        if self.frame == 0 {
            self.step();
        }
        self.frame = self.frame + 1;
        if self.frame > 8 {
            self.frame = 0;
        }
    }

    /// Draw the current frame with the active renderer: the top-down tile
    /// blit always succeeds; the first-person pass succeeds whenever the
    /// camera is strictly inside the solid border, which holds while the
    /// game is live.
    pub fn render(&self, tables: &TrigTables, fb: &mut Framebuffer) -> (res: Result<
        (),
        RenderError,
    >)
        requires
            self.wf(),
            self.winner is None,
            tables.wf(),
            old(fb).wf(),
        ensures
            final(fb).wf(),
            res is Ok,
            self.mode == DrawMode::TwoD ==> (forall|pr: int, pc: int|
                0 <= pr < 160 && 0 <= pc < 160 ==> #[trigger] crate::fb::spec_pixel_at(
                    final(fb)@,
                    pr,
                    pc,
                ) == (if pr / 4 == self.rival.position.0 && pc / 4 == self.rival.position.1 {
                    2u8
                } else if pr / 4 == self.player.position.0 && pc / 4 == self.player.position.1 {
                    1u8
                } else {
                    match self.board@[40 * (pr / 4) + pc / 4] {
                        Some(c) => c,
                        None => 3u8,
                    }
                })),
            self.mode == DrawMode::ThreeD ==> (forall|c: int, row: int|
                0 <= c < 160 && 0 <= row < 160 ==> #[trigger] crate::fb::spec_pixel_at(
                    final(fb)@,
                    row,
                    c,
                ) == crate::raycast::spec_pixel(
                    self.board@,
                    tables.tan_q@,
                    self.player.position,
                    crate::raycast::spec_angle_for(self.player.direction, c),
                    self.player.direction,
                    row,
                )),
    {
        match self.mode {
            DrawMode::TwoD => {
                fb.draw_board(&self.board);
                draw_players(fb, &self.player, &self.rival);
                Ok(())
            },
            DrawMode::ThreeD => {
                let res = draw_3d(&self.board, tables, fb, self.player.position,
                    self.player.direction);
                res
            },
        }
    }
}

} // verus!
