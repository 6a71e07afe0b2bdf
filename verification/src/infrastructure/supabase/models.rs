//! Rows of the data backend, table by table.

use vstd::prelude::*;

verus! {

/// A row of the workouts.
#[derive(Debug, Clone)]
pub struct Workout {
    pub id: String,
    pub user_id: String,
    pub date: String,
    pub start_time: Option<String>,
    pub end_time: Option<String>,
    pub perceived_fatigue: Option<i32>,
    pub note: Option<String>,
}

/// A row of the exercises of a workout.
#[derive(Debug, Clone)]
pub struct WorkoutExercise {
    pub id: String,
    pub workout_id: String,
    pub exercise_id: Option<String>,
    pub custom_exercise_name: Option<String>,
    pub muscle_tag: String,
    pub exercise_order: i32,
    pub note: Option<String>,
}

/// A row of the messages of a session with the coach.
#[derive(Debug, Clone)]
pub struct AiMessage {
    pub id: String,
    pub session_id: String,
    pub role: String,
    pub content: String,
    pub created_at: String,
}

/// A row of the posts of the board.
#[derive(Debug, Clone)]
pub struct Post {
    pub id: String,
    pub user_id: String,
    pub content: String,
    pub image_path: Option<String>,
    pub created_at: String,
}

} // verus!
