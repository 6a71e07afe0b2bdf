//! Rows of the data backend.

pub mod models;

pub use models::{AiMessage, Post, Workout, WorkoutExercise};
