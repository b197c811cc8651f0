//! A two-player light-cycle arena game built around a ray-casting renderer.
//!
//! The arena is a fixed 40x40 occupancy grid of 4x4-unit cells; the renderer
//! projects it onto a 160x160 framebuffer packed at 2 bits per pixel, by
//! marching rays against horizontal and vertical grid lines with fixed-point
//! trigonometry lookup tables indexed by a quantized angle unit.

pub mod fb;
pub mod game;
pub mod grid;
pub mod heading;
pub mod raycast;
pub mod trig;

pub use fb::Framebuffer;
pub use game::draw_players;
pub use game::next_ahead;
pub use game::next_left;
pub use game::next_right;
pub use game::DrawMode;
pub use game::GameState;
pub use game::Player;
pub use grid::build_arena;
pub use grid::Grid;
pub use heading::Direction;
pub use raycast::draw_3d;
pub use raycast::find_horizontal_intersection;
pub use raycast::find_intersection;
pub use raycast::find_vertical_intersection;
pub use raycast::Intersection;
pub use raycast::IntersectionKind;
pub use trig::TrigTables;
