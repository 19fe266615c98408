//! The `SoundMixer` class: its descriptor, its lifecycle hooks, and the
//! accessor pair behind its class-level `soundTransform` property.
//!
//! The accessor pair is also installed, unmodified, as the `soundTransform`
//! property of an unrelated interactive display control class. Both
//! functions are therefore free functions over the execution context alone:
//! they assume nothing about the owning instance's type or identity.

use crate::context::ExecutionContext;
use crate::transform::{
    all_fields_present, engine_of_script, script_of_engine, EngineSoundTransform,
    ScriptSoundTransform,
};
use crate::transform::{engine_to_script, script_to_coefficient};
use crate::value::{
    coerce_to_number, coerce_to_object, coerce_to_object_spec, AccessError, ScriptValue,
};
use vstd::prelude::*;

verus! {

/// The first positional argument of a native-method call; an absent argument
/// reads as undefined.
pub open spec fn first_argument(args: Seq<ScriptValue>) -> ScriptValue {
    if args.len() == 0 {
        ScriptValue::Undefined
    } else {
        args[0]
    }
}

/// What a setter call with arguments `args` decides: the engine record to
/// install, or the failure that aborts the call. It fails exactly when the
/// first argument is not an object or one of the five properties does not
/// coerce to a number.
pub open spec fn set_outcome(args: Seq<ScriptValue>) -> Result<EngineSoundTransform, AccessError> {
    match coerce_to_object_spec(first_argument(args)) {
        Ok(obj) => if all_fields_present(obj) {
            Ok(engine_of_script(obj))
        } else {
            Err(AccessError::CoercionFailure)
        },
        Err(e) => Err(e),
    }
}

/// Getter of the `soundTransform` property.
///
/// Reads the context's current engine record and builds a fresh script
/// object from it — one allocation per call, no caching, so two calls
/// return distinct objects with equal field values. Any arguments a script
/// passes are ignored. The typed construction cannot fail, so no
/// `PropertyAccessFailure` arises here.
pub fn sound_transform(ctx: &ExecutionContext) -> (s: ScriptSoundTransform)
    ensures
        s == script_of_engine(ctx.global_transform()),
{
    let t = ctx.get_global_sound_transform();
    engine_to_script(&t)
}

/// Setter of the `soundTransform` property.
///
/// Coerces the first argument to an object, coerces each of its five named
/// properties to a number, and only then replaces the context's record
/// wholesale. All-or-nothing: if anything fails to coerce, the failure
/// propagates and the prior global transform is left untouched.
pub fn set_sound_transform(ctx: &mut ExecutionContext, args: &[ScriptValue]) -> (r: Result<
    (),
    AccessError,
>)
    ensures
        match set_outcome(args@) {
            Ok(t) => r == Ok::<(), AccessError>(()) && final(ctx).global_transform() == t,
            Err(e) => r == Err::<(), AccessError>(e) && *final(ctx) == *old(ctx),
        },
{
    let arg: ScriptValue = if args.len() == 0 {
        ScriptValue::Undefined
    } else {
        args[0]
    };
    let obj = match coerce_to_object(&arg) {
        Ok(o) => o,
        Err(e) => { return Err(e); },
    };
    let left_to_left = match coerce_to_number(&obj.left_to_left) {
        Ok(n) => n,
        Err(e) => { return Err(e); },
    };
    let left_to_right = match coerce_to_number(&obj.left_to_right) {
        Ok(n) => n,
        Err(e) => { return Err(e); },
    };
    let right_to_left = match coerce_to_number(&obj.right_to_left) {
        Ok(n) => n,
        Err(e) => { return Err(e); },
    };
    let right_to_right = match coerce_to_number(&obj.right_to_right) {
        Ok(n) => n,
        Err(e) => { return Err(e); },
    };
    let volume = match coerce_to_number(&obj.volume) {
        Ok(n) => n,
        Err(e) => { return Err(e); },
    };
    let record = EngineSoundTransform {
        left_to_left: script_to_coefficient(left_to_left),
        left_to_right: script_to_coefficient(left_to_right),
        right_to_left: script_to_coefficient(right_to_left),
        right_to_right: script_to_coefficient(right_to_right),
        volume: script_to_coefficient(volume),
    };
    ctx.set_global_sound_transform(record);
    Ok(())
}

/// Law: a setter call with an object argument whose five values are exact
/// multiples of one hundredth within the engine's range succeeds, and a
/// subsequent getter call on the updated context returns an object with the
/// same five values.
pub proof fn lemma_set_get_round_trip(args: Seq<ScriptValue>, obj: ScriptSoundTransform)
    requires
        first_argument(args) == ScriptValue::Object(obj),
        crate::transform::exact_hundredths_in_range(obj),
    ensures
        set_outcome(args) == Ok::<EngineSoundTransform, AccessError>(engine_of_script(obj)),
        script_of_engine(engine_of_script(obj)) == obj,
{
    crate::transform::lemma_script_engine_round_trip(obj);
}

/// Law: a setter call whose first argument is absent or undefined fails with
/// a coercion failure; by the setter's contract the prior global transform
/// is then left unchanged.
pub proof fn lemma_set_undefined_rejected(args: Seq<ScriptValue>)
    requires
        first_argument(args) == ScriptValue::Undefined,
    ensures
        set_outcome(args) == Err::<EngineSoundTransform, AccessError>(AccessError::CoercionFailure),
{
}

/// Law: a setter call whose object argument leaves any of the five
/// properties unset fails with a coercion failure; by the setter's contract
/// the prior global transform is then left unchanged and observable through
/// the getter afterward.
pub proof fn lemma_set_incomplete_object_rejected(args: Seq<ScriptValue>, obj: ScriptSoundTransform)
    requires
        first_argument(args) == ScriptValue::Object(obj),
        !all_fields_present(obj),
    ensures
        set_outcome(args) == Err::<EngineSoundTransform, AccessError>(AccessError::CoercionFailure),
{
}

/// Law: the getter is deterministic — any two reads of one context yield
/// objects with equal field values. Their identities are nonetheless
/// distinct: each call builds a fresh object.
pub proof fn lemma_sound_transform_deterministic(
    ctx: ExecutionContext,
    s1: ScriptSoundTransform,
    s2: ScriptSoundTransform,
)
    requires
        s1 == script_of_engine(ctx.global_transform()),
        s2 == script_of_engine(ctx.global_transform()),
    ensures
        s1 == s2,
{
}

/// What the instance initializer returns: the superclass constructor's
/// failure, unchanged, when a receiver is present and that constructor
/// failed; undefined otherwise.
pub open spec fn instance_init_outcome(
    this_present: bool,
    super_init_outcome: Result<(), AccessError>,
) -> Result<ScriptValue, AccessError> {
    if this_present {
        match super_init_outcome {
            Ok(_) => Ok(ScriptValue::Undefined),
            Err(e) => Err(e),
        }
    } else {
        Ok(ScriptValue::Undefined)
    }
}

/// The instance constructor: when invoked on a receiver, it forwards to the
/// superclass constructor with no arguments and performs no other work; any
/// failure from that constructor propagates unchanged. The constructor
/// itself belongs to the surrounding runtime, so the caller passes its
/// outcome in.
pub fn instance_init(this_present: bool, super_init_outcome: Result<(), AccessError>) -> (r:
    Result<ScriptValue, AccessError>)
    ensures
        r == instance_init_outcome(this_present, super_init_outcome),
{
    if this_present {
        match super_init_outcome {
            Ok(_) => Ok(ScriptValue::Undefined),
            Err(e) => Err(e),
        }
    } else {
        Ok(ScriptValue::Undefined)
    }
}

/// The class constructor: a no-op hook, present only because the class
/// construction protocol requires one.
pub fn class_init() -> (r: Result<ScriptValue, AccessError>)
    ensures
        r == Ok::<ScriptValue, AccessError>(ScriptValue::Undefined),
{
    Ok(ScriptValue::Undefined)
}

/// Static class metadata, as registration hands it to the object model: the
/// qualified name, the superclass, the sealing attributes, and the name of
/// the one class-level accessor property, which the runtime backs with
/// [`sound_transform`] and [`set_sound_transform`].
pub struct ClassDescriptor {
    /// Unqualified class name.
    pub name: &'static str,
    /// Package the class lives in.
    pub package: &'static str,
    /// Name of the superclass, in the public namespace.
    pub superclass: &'static str,
    /// No dynamic properties may be added to instances.
    pub sealed: bool,
    /// The class may not be subclassed.
    pub is_final: bool,
    /// Name of the single class-level accessor property.
    pub accessor_property: &'static str,
}

/// Build the class descriptor: `flash.media.SoundMixer`, a sealed and final
/// subclass of the root object type, with the `soundTransform` accessor as
/// its one class-level property.
pub fn create_class() -> (c: ClassDescriptor)
    ensures
        c.name@ == "SoundMixer"@,
        c.package@ == "flash.media"@,
        c.superclass@ == "Object"@,
        c.sealed,
        c.is_final,
        c.accessor_property@ == "soundTransform"@,
{
    ClassDescriptor {
        name: "SoundMixer",
        package: "flash.media",
        superclass: "Object",
        sealed: true,
        is_final: true,
        accessor_property: "soundTransform",
    }
}

} // verus!
