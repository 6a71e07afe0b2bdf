//! Shapes of the dashboard endpoints.

use vstd::prelude::*;

verus! {

/// The day that a dashboard is asked for.
#[derive(Debug)]
pub struct DateQuery {
    pub date: Option<String>,  // YYYY-MM-DD, defaults to today
}

/// What is left to do on a day.
#[derive(Debug)]
pub struct TasksData {
    pub weight_logged: bool,
    pub meals_completed: bool,
    pub meals_target: i32,
    pub meals_logged: i32,
    pub workout_logged: bool,
}

/// A plain confirmation.
#[derive(Debug)]
pub struct MessageResponse {
    pub message: String,
}

} // verus!
