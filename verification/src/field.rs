//! The value of a field: text, or a counter that can be stepped.

use vstd::prelude::*;
use crate::decimal::{i32_to_string, int_text, parse_i32, parse_i32_spec};
use crate::error::AlertError;

verus! {

/// The value of a field of an alert.
#[derive(Debug)]
pub enum AlertField {
    Text(String),
    Counter(i32),
}

/// What an `AlertField` holds, as plain values.
pub enum FieldValue {
    Text(Seq<char>),
    Counter(i32),
}

impl View for AlertField {
    type V = FieldValue;

    open spec fn view(&self) -> FieldValue {
        match self {
            AlertField::Text(text) => FieldValue::Text(text@),
            AlertField::Counter(count) => FieldValue::Counter(*count),
        }
    }
}

impl FieldValue {
    /// The text that stands for the value wherever it is shown: a text as it
    /// is, a counter as its numeral.
    pub open spec fn text(self) -> Seq<char> {
        match self {
            FieldValue::Text(text) => text,
            FieldValue::Counter(count) => int_text(count as int),
        }
    }

    /// The value after `raw` is stored in it. The kind stays: a text takes any
    /// `raw`, a counter only the numeral of an `i32`.
    pub open spec fn set(self, raw: Seq<char>) -> Result<FieldValue, AlertError> {
        match self {
            FieldValue::Text(_) => Ok(FieldValue::Text(raw)),
            FieldValue::Counter(_) => match parse_i32_spec(raw) {
                Some(count) => Ok(FieldValue::Counter(count)),
                None => Err(AlertError::InvalidNumber),
            },
        }
    }

    pub open spec fn can_incr(self) -> bool {
        self is Counter
    }

    /// Whether stepping by `delta` keeps the value in range. A text is never
    /// stepped, so every `delta` fits it.
    pub open spec fn fits(self, delta: int) -> bool {
        match self {
            FieldValue::Text(_) => true,
            FieldValue::Counter(count) => i32::MIN <= count + delta <= i32::MAX,
        }
    }

    /// The value after a step by `delta` that was asked for by name: only a
    /// counter can be stepped, and only within the range of an `i32`.
    pub open spec fn step(self, delta: int) -> Result<FieldValue, AlertError> {
        if !self.can_incr() {
            Err(AlertError::InvalidUpdate)
        } else if !self.fits(delta) {
            Err(AlertError::OutOfRange)
        } else {
            Ok(self.incr(delta))
        }
    }

    /// The value after a step by `delta`: a counter moves, a text stays.
    pub open spec fn incr(self, delta: int) -> FieldValue {
        match self {
            FieldValue::Text(text) => FieldValue::Text(text),
            FieldValue::Counter(count) => FieldValue::Counter((count + delta) as i32),
        }
    }
}

impl Default for AlertField {
    /// The empty text.
    fn default() -> (field: Self)
        ensures
            field@ == FieldValue::Text(Seq::<char>::empty()),
    {
        AlertField::Text(String::new())
    }
}

impl Clone for AlertField {
    fn clone(&self) -> (copy: Self)
        ensures
            copy@ == self@,
    {
        match self {
            AlertField::Text(text) => AlertField::Text(text.clone()),
            AlertField::Counter(count) => AlertField::Counter(*count),
        }
    }
}

impl AlertField {
    /// Stores `set` in the field, read as the kind the field already has.
    /// On an error the field is unchanged.
    pub fn set(&mut self, set: String) -> (done: Result<(), AlertError>)
        ensures
            match old(self)@.set(set@) {
                Ok(value) => done is Ok && final(self)@ == value,
                Err(error) => done == Err::<(), AlertError>(error) && final(self)@ == old(self)@,
            },
    {
        match self {
            AlertField::Text(_) => {
                *self = AlertField::Text(set);
                Ok(())
            },
            AlertField::Counter(_) => match parse_i32(set.as_str()) {
                Some(count) => {
                    *self = AlertField::Counter(count);
                    Ok(())
                },
                None => Err(AlertError::InvalidNumber),
            },
        }
    }

    /// Whether the field is a counter.
    pub fn can_incr(&self) -> (can: bool)
        ensures
            can == self@.can_incr(),
    {
        match self {
            AlertField::Text(_) => false,
            AlertField::Counter(_) => true,
        }
    }

    /// Whether `incr` may be called with this step.
    pub fn fits(&self, incr: i32) -> (fits: bool)
        ensures
            fits == self@.fits(incr as int),
    {
        match self {
            AlertField::Text(_) => true,
            AlertField::Counter(count) => count.checked_add(incr).is_some(),
        }
    }

    /// Steps a counter by `incr`, which may be negative. On a text this does
    /// nothing, so that a caller need not ask for the kind first.
    pub fn incr(&mut self, incr: i32)
        requires
            old(self)@.fits(incr as int),
        ensures
            final(self)@ == old(self)@.incr(incr as int),
    {
        match self {
            AlertField::Text(_) => {},
            AlertField::Counter(count) => {
                *self = AlertField::Counter(*count + incr);
            },
        }
    }

    /// The text that stands for the value: a text as it is, a counter as its
    /// numeral.
    pub fn to_string(&self) -> (text: String)
        ensures
            text@ == self@.text(),
    {
        match self {
            AlertField::Text(text) => text.clone(),
            AlertField::Counter(count) => i32_to_string(*count),
        }
    }
}

} // verus!
