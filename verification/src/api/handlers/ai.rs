//! Shapes of the AI coaching endpoints.

use vstd::prelude::*;

verus! {

/// A question to the coach, within a session or opening one.
#[derive(Debug)]
pub struct AskRequest {
    pub message: String,
    pub session_id: Option<String>,
}

/// What today's plan is to take into account.
#[derive(Debug)]
pub struct PlanTodayRequest {
    pub muscle_groups: Option<Vec<String>>,
    pub duration_minutes: Option<i32>,
    pub equipment_available: Option<Vec<String>>,
}

/// Today's plan, with the coach's words and warnings.
#[derive(Debug)]
pub struct PlanTodayResponse {
    pub session_id: String,
    pub plan: WorkoutPlan,
    pub answer_text: String,
    pub warnings: Vec<String>,
}

/// A planned workout.
#[derive(Debug)]
pub struct WorkoutPlan {
    pub title: String,
    pub estimated_duration_minutes: i32,
    pub exercises: Vec<PlannedExercise>,
    pub notes: Option<String>,
}

/// One exercise of a planned workout.
#[derive(Debug)]
pub struct PlannedExercise {
    pub name: String,
    pub muscle_tag: String,
    pub sets: i32,
    pub reps: String,
    pub rest_sec: i32,
    pub notes: Option<String>,
}

/// The sessions that a user has had with the coach.
#[derive(Debug)]
pub struct AiHistoryResponse {
    pub sessions: Vec<AiSessionSummary>,
}

/// One session with the coach, in short.
#[derive(Debug)]
pub struct AiSessionSummary {
    pub id: String,
    pub intent: String,
    pub created_at: String,
}

} // verus!
