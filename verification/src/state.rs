//! What the coaching assistant is told about a user, and the guard in
//! front of it.

use vstd::prelude::*;
use vstd::string::*;
use crate::text::{chars_of, contains_text, has_substring, lowercase, to_lowercase};

verus! {

/// The flag `name` if `keyword` stands in `text`, nothing if it does not.
pub open spec fn flag_if(text: Seq<char>, keyword: Seq<char>, name: Seq<char>) -> Seq<Seq<char>> {
    if has_substring(text, keyword) {
        seq![name]
    } else {
        Seq::empty()
    }
}

/// The flags that a message raises: one for each dangerous keyword that
/// stands in its lower-case form, in the order of the keywords.
pub open spec fn safety_flags(message: Seq<char>) -> Seq<Seq<char>> {
    let text = lowercase(message);
    flag_if(text, "ステロイド"@, "steroids"@) + flag_if(text, "アナボリック"@, "anabolics"@) + flag_if(
        text,
        "断食"@,
        "extreme_fasting"@,
    ) + flag_if(text, "500kcal以下"@, "extreme_calorie_restriction"@) + flag_if(
        text,
        "怪我を無視"@,
        "ignoring_injury"@,
    ) + flag_if(text, "痛みがあるけど"@, "training_with_pain"@)
}

/// Adds the flag `name` if `keyword` stands in `text`.
fn raise(text: &Vec<char>, keyword: &str, name: &str, flags: &mut Vec<String>)
    ensures
        final(flags).deep_view() == old(flags).deep_view() + flag_if(text@, keyword@, name@),
{
    if contains_text(text, keyword) {
        flags.push(name.to_owned());
    }
}

/// Safety guard: names the dangerous subjects that a message touches.
pub fn check_safety_flags(message: &str) -> (flags: Vec<String>)
    ensures
        flags.deep_view() == safety_flags(message@),
{
    let lower = to_lowercase(message);
    let text = chars_of(lower.as_str());
    let mut flags: Vec<String> = Vec::new();
    raise(&text, "ステロイド", "steroids", &mut flags);
    raise(&text, "アナボリック", "anabolics", &mut flags);
    raise(&text, "断食", "extreme_fasting", &mut flags);
    raise(&text, "500kcal以下", "extreme_calorie_restriction", &mut flags);
    raise(&text, "怪我を無視", "ignoring_injury", &mut flags);
    raise(&text, "痛みがあるけど", "training_with_pain", &mut flags);
    flags
}

} // verus!
