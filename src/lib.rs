//! A terminal typing trainer: prompts are retyped character by character, and
//! the speed of each round is folded into running averages.
mod clock;
pub mod end;
pub mod event;
pub mod game;
pub mod layout;
pub mod round;
pub mod stage;
pub mod stats;

pub use end::EndStage;
pub use event::{Event, KeyCode, KeyEvent};
pub use game::{Game, GameMode, LoadError};
pub use layout::{end_area, fits, round_area, Area};
pub use round::RoundStage;
pub use stage::Stage;
pub use stats::{per_minute, Stat, Stats};
