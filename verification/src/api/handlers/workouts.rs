//! Shapes of the exercise and workout endpoints.

use vstd::prelude::*;

verus! {

/// Which exercises are asked for.
#[derive(Debug)]
pub struct ExercisesQuery {
    pub muscle_group: Option<String>,
}

/// Which workouts are asked for.
#[derive(Debug)]
pub struct WorkoutsQuery {
    pub limit: Option<i32>,
    pub offset: Option<i32>,
}

/// One exercise of the catalogue.
#[derive(Debug)]
pub struct ExerciseResponse {
    pub id: String,
    pub name: String,
    pub name_en: Option<String>,
    pub primary_muscle: String,
    pub secondary_muscles: Vec<String>,
    pub equipment: Option<String>,
}

/// A new exercise of a user's own.
#[derive(Debug)]
pub struct CreateExerciseRequest {
    pub name: String,
    pub primary_muscle: String,
    pub equipment: Option<String>,
    pub secondary_muscles: Option<Vec<String>>,
}

/// The confirmation of a logged workout.
#[derive(Debug)]
pub struct LogWorkoutResponse {
    pub workout_id: String,
    pub message: String,
}

} // verus!
