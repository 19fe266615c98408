//! The script-side value model and the runtime's coercion rules, as far as
//! the accessor pair relies on them.
//!
//! The surrounding object model is dynamically typed: an accessor receives
//! arbitrary script values and reads named properties off them. The closed
//! enumeration here covers exactly the shapes the accessor pair
//! distinguishes; coercion of anything else fails, and the failure is fatal
//! to the current call.

use crate::transform::{ScriptNumber, ScriptSoundTransform};
use vstd::prelude::*;

verus! {

/// The two failure kinds of the property protocol. Neither is caught or
/// translated inside this crate; both surface unchanged to the caller.
#[derive(Clone, Copy, PartialEq, Eq, Structural, Debug)]
pub enum AccessError {
    /// An input cannot be converted to the required type: a missing or
    /// undefined argument coerced to an object, or a property value that
    /// cannot be coerced to a number.
    CoercionFailure,
    /// The generic get/set-property protocol reported failure. The typed
    /// mapping in this crate cannot produce it; the surrounding runtime can.
    PropertyAccessFailure,
}

/// A script value, as far as the accessor pair distinguishes them.
#[derive(Clone, Copy, PartialEq, Eq, Debug)]
pub enum ScriptValue {
    Undefined,
    Null,
    Number(ScriptNumber),
    Object(ScriptSoundTransform),
}

/// What object coercion yields: undefined, null and plain numbers are not
/// coercible to a sound-transform object.
pub open spec fn coerce_to_object_spec(v: ScriptValue) -> Result<
    ScriptSoundTransform,
    AccessError,
> {
    match v {
        ScriptValue::Object(o) => Ok(o),
        _ => Err(AccessError::CoercionFailure),
    }
}

/// What numeric coercion of a property slot yields: the number it holds, or
/// a failure when the slot is unset and reads as undefined.
pub open spec fn coerce_to_number_spec(p: Option<ScriptNumber>) -> Result<
    ScriptNumber,
    AccessError,
> {
    match p {
        Some(n) => Ok(n),
        None => Err(AccessError::CoercionFailure),
    }
}

/// Coerce a script value to a sound-transform object.
pub fn coerce_to_object(v: &ScriptValue) -> (r: Result<ScriptSoundTransform, AccessError>)
    ensures
        r == coerce_to_object_spec(*v),
{
    match v {
        ScriptValue::Object(o) => Ok(*o),
        _ => Err(AccessError::CoercionFailure),
    }
}

/// Coerce the value of a property slot to a number.
pub fn coerce_to_number(p: &Option<ScriptNumber>) -> (r: Result<ScriptNumber, AccessError>)
    ensures
        r == coerce_to_number_spec(*p),
{
    match p {
        Some(n) => Ok(*n),
        None => Err(AccessError::CoercionFailure),
    }
}

} // verus!
