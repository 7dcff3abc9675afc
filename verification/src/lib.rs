//! The rules of FartCloud, a Flappy-Bird-like game where a cloud flies by farting:
//! the screens and menus, name entry, combos and fart counting, the end of a round
//! and the high score, the leaderboard views, the obstacle spawner's decisions, and
//! the texts exchanged with the platform. The floating-point physics and the drawing
//! live in the program around this library.

pub mod captions;
pub mod combo;
pub mod death;
pub mod difficulty;
pub mod leaderboard;
pub mod name_entry;
pub mod platform_text;
pub mod random;
pub mod session;
pub mod sound;
pub mod zone;
