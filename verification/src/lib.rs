//! The simulation core of a small life-simulation game.
//!
//! A character ages from childhood to old age. The player keeps one activity
//! in focus at a time, four bounded meters and five experience accumulators
//! drift with age and focus, and scripted life events interrupt the
//! simulation with a choice whose consequences are permanent.
//!
//! Everything here is integer arithmetic: time is counted in nanoseconds and
//! meters in a fixed-point unit (see [`units`]), so that every rate and every
//! life-event bonus is an exact whole number.

pub mod units;
pub mod text;
pub mod clock;
pub mod focus;
pub mod stats;
pub mod city;
pub mod mode;
pub mod modal;
pub mod catalog;
pub mod model;
pub mod game;
pub mod laws;

pub use crate::city::{home_city, set_home_city, City, CityRegistry};
pub use crate::focus::Focus;
pub use crate::game::{focus_is_unlocked, focus_stage, maybe_start_modal, GameData};
pub use crate::modal::{Modal, ModalKind};
pub use crate::mode::GameState;
pub use crate::stats::Stats;
pub use crate::text::str_eq;
