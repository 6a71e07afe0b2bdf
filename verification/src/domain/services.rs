//! Results of the domain calculations.

use vstd::prelude::*;

verus! {

/// A daily target of calories and macronutrients, in whole numbers.
#[derive(Debug)]
pub struct CalorieTarget {
    pub calories: i32,
    pub protein_g: i32,
    pub fat_g: i32,
    pub carbs_g: i32,
    pub description: String,
}

} // verus!
