//! Motion and behaviour controller for a desktop pet: a small window that
//! flees from the pointer, wanders about the screen and now and then types.

pub mod controls;
pub mod geometry;
pub mod pet;
pub mod proximity;
mod random;
pub mod timer;
pub mod tween;
pub mod typing;

pub use controls::quit_program;
pub use geometry::Position;
pub use pet::{
    destination_bounds, random_destination, Outcome, PetController, Sprite, TickInput,
    TICK_RATE_HZ, TOTAL_STEPS, WANDER_PERIOD_SECS,
};
pub use proximity::{is_triggered, tracked_edge, ZONE_DOWN, ZONE_LEFT, ZONE_RIGHT};
pub use timer::is_due;
pub use tween::TweenState;
pub use typing::{
    keyboard_type, Emission, Emitter, MAX_TEXT_LEN, MIN_TEXT_LEN, TYPE_PERIOD_SECS,
};
