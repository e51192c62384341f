use vstd::prelude::*;

use crate::error::ApiError;
use crate::text::owned;

verus! {

/// validator's `ValidateLength::validate_length` on text with a lower and an
/// upper bound: whether the number of characters lies between them.
#[verifier::external_body]
pub(crate) fn length_in_range(value: &str, min: u64, max: u64) -> (res: bool)
    ensures
        res == (min <= value@.len() <= max),
{
    <str as validator::ValidateLength<u64>>::validate_length(value, Some(min), Some(max), None)
}

/// A failed length rule: the field, its bounds and the value it had.
#[derive(Debug)]
pub struct LengthFailure {
    pub field: &'static str,
    pub min: u64,
    pub max: u64,
    pub value: String,
}

/// validator's `Display` of a `ValidationErrors` holding, for each failure,
/// one `length` error on its field with the `min`, `max` and `value`
/// parameters (as its derive builds them). Nothing is stated of the text:
/// validator keeps the fields, and each error's parameters, in `HashMap`s,
/// which each process seeds anew, and writes them in that order.
#[verifier::external_body]
fn validation_errors_text(failures: &Vec<LengthFailure>) -> String {
    let mut errors = validator::ValidationErrors::new();
    for f in failures.iter() {
        let mut err = validator::ValidationError::new("length");
        err.add_param(std::borrow::Cow::from("min"), &f.min);
        err.add_param(std::borrow::Cow::from("max"), &f.max);
        err.add_param(std::borrow::Cow::from("value"), &f.value);
        errors.add(f.field, err);
    }
    errors.to_string()
}

/// Whether `f` records that `value` of `field` broke the bounds `min` and
/// `max`.
pub open spec fn records_failure(f: &LengthFailure, field: &str, value: Seq<char>, min: u64, max: u64) -> bool {
    &&& f.field@ == field@
    &&& f.value@ == value
    &&& f.min == min
    &&& f.max == max
}

/// The failures found so far while validating one input.
#[derive(Debug)]
pub struct Violations {
    pub failures: Vec<LengthFailure>,
}

impl Violations {
    pub fn new() -> (res: Violations)
        ensures
            res.failures@.len() == 0,
    {
        Violations { failures: Vec::new() }
    }

    /// Records a failure when `value` does not have between `min` and `max`
    /// characters; earlier failures are kept.
    pub fn check_length(&mut self, field: &'static str, value: &str, min: u64, max: u64)
        ensures
            min <= value@.len() <= max ==> final(self).failures@ == old(self).failures@,
            !(min <= value@.len() <= max) ==> {
                &&& final(self).failures@.len() == old(self).failures@.len() + 1
                &&& final(self).failures@.take(old(self).failures@.len() as int) == old(self).failures@
                &&& records_failure(&final(self).failures@.last(), field, value@, min, max)
            },
    {
        if !length_in_range(value, min, max) {
            self.failures.push(LengthFailure { field, min, max, value: owned(value) });
        }
    }

    /// Like [`Violations::check_length`] for an optional field; an absent
    /// field passes.
    pub fn check_optional_length(
        &mut self,
        field: &'static str,
        value: &Option<String>,
        min: u64,
        max: u64,
    )
        ensures
            match value {
                Some(v) => if min <= v@.len() <= max {
                    final(self).failures@ == old(self).failures@
                } else {
                    &&& final(self).failures@.len() == old(self).failures@.len() + 1
                    &&& final(self).failures@.take(old(self).failures@.len() as int)
                        == old(self).failures@
                    &&& records_failure(&final(self).failures@.last(), field, v@, min, max)
                },
                None => final(self).failures@ == old(self).failures@,
            },
    {
        match value {
            Some(v) => self.check_length(field, v.as_str(), min, max),
            None => {},
        }
    }

    /// `Ok` when nothing failed; otherwise a validation error whose text is
    /// validator's listing of the failures.
    pub fn finish(self) -> (res: Result<(), ApiError>)
        ensures
            res is Ok <==> self.failures@.len() == 0,
            res matches Err(e) ==> e is Validation,
    {
        if self.failures.len() == 0 {
            return Ok(());
        }
        Err(ApiError::Validation(validation_errors_text(&self.failures)))
    }
}

} // verus!
