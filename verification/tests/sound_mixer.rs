//! Tests of the `soundTransform` accessor pair, the conversion between the
//! engine and script representations, and the class registration data.

use sound_mixer::context::ExecutionContext;
use sound_mixer::mixer::{
    class_init, create_class, instance_init, set_sound_transform, sound_transform,
};
use sound_mixer::transform::{
    coefficient_to_script, script_to_coefficient, EngineSoundTransform, ScriptNumber,
    ScriptSoundTransform,
};
use sound_mixer::value::{AccessError, ScriptValue};

/// One script unit (a coefficient of 1.0) in micros.
const UNIT: i64 = 1_000_000;

fn number(micros: i64) -> Option<ScriptNumber> {
    Some(ScriptNumber { micros })
}

fn full_object(l2l: i64, l2r: i64, r2l: i64, r2r: i64, vol: i64) -> ScriptSoundTransform {
    ScriptSoundTransform {
        left_to_left: number(l2l),
        left_to_right: number(l2r),
        right_to_left: number(r2l),
        right_to_right: number(r2r),
        volume: number(vol),
    }
}

fn as_f64(p: &Option<ScriptNumber>) -> f64 {
    (p.expect("property is set").micros as f64) / 1_000_000.0
}

fn engine(l2l: i32, l2r: i32, r2l: i32, r2r: i32, vol: i32) -> EngineSoundTransform {
    EngineSoundTransform {
        left_to_left: l2l,
        left_to_right: l2r,
        right_to_left: r2l,
        right_to_right: r2r,
        volume: vol,
    }
}

#[test]
fn get_is_exact_on_multiples_of_100() {
    let mut ctx = ExecutionContext::new();
    ctx.set_global_sound_transform(engine(100, 100, 100, 100, 100));
    let s = sound_transform(&ctx);
    assert_eq!(as_f64(&s.left_to_left), 1.0);
    assert_eq!(as_f64(&s.left_to_right), 1.0);
    assert_eq!(as_f64(&s.right_to_left), 1.0);
    assert_eq!(as_f64(&s.right_to_right), 1.0);
    assert_eq!(as_f64(&s.volume), 1.0);

    ctx.set_global_sound_transform(engine(-100, 0, 200, -200, 0));
    let s = sound_transform(&ctx);
    assert_eq!(as_f64(&s.left_to_left), -1.0);
    assert_eq!(as_f64(&s.left_to_right), 0.0);
    assert_eq!(as_f64(&s.right_to_left), 2.0);
    assert_eq!(as_f64(&s.right_to_right), -2.0);
    assert_eq!(as_f64(&s.volume), 0.0);
}

#[test]
fn get_is_exact_on_any_coefficient() {
    let mut ctx = ExecutionContext::new();
    ctx.set_global_sound_transform(engine(37, -5, 1, 99, 250));
    let s = sound_transform(&ctx);
    assert_eq!(s.left_to_left, number(370_000));
    assert_eq!(s.left_to_right, number(-50_000));
    assert_eq!(s.right_to_left, number(10_000));
    assert_eq!(s.right_to_right, number(990_000));
    assert_eq!(s.volume, number(2_500_000));
}

#[test]
fn set_then_get_round_trips_exact_hundredths() {
    let mut ctx = ExecutionContext::new();
    let written = full_object(UNIT / 2, 0, 0, UNIT / 2, UNIT);
    let args = [ScriptValue::Object(written)];
    assert_eq!(set_sound_transform(&mut ctx, &args), Ok(()));
    let read = sound_transform(&ctx);
    assert_eq!(read, written);
    assert_eq!(as_f64(&read.left_to_left), 0.5);
    assert_eq!(as_f64(&read.right_to_right), 0.5);
    assert_eq!(as_f64(&read.volume), 1.0);
}

#[test]
fn set_undefined_fails_and_leaves_state() {
    let mut ctx = ExecutionContext::new();
    let before = ctx.get_global_sound_transform();
    assert_eq!(
        set_sound_transform(&mut ctx, &[]),
        Err(AccessError::CoercionFailure)
    );
    assert_eq!(
        set_sound_transform(&mut ctx, &[ScriptValue::Undefined]),
        Err(AccessError::CoercionFailure)
    );
    assert_eq!(ctx.get_global_sound_transform(), before);
}

#[test]
fn set_null_or_number_fails_and_leaves_state() {
    let mut ctx = ExecutionContext::new();
    ctx.set_global_sound_transform(engine(1, 2, 3, 4, 5));
    assert_eq!(
        set_sound_transform(&mut ctx, &[ScriptValue::Null]),
        Err(AccessError::CoercionFailure)
    );
    assert_eq!(
        set_sound_transform(&mut ctx, &[ScriptValue::Number(ScriptNumber { micros: UNIT })]),
        Err(AccessError::CoercionFailure)
    );
    assert_eq!(ctx.get_global_sound_transform(), engine(1, 2, 3, 4, 5));
}

#[test]
fn set_with_missing_field_fails_before_mutating() {
    let complete = full_object(UNIT, 0, 0, UNIT, UNIT);
    let missing = [
        ScriptSoundTransform { left_to_left: None, ..complete },
        ScriptSoundTransform { left_to_right: None, ..complete },
        ScriptSoundTransform { right_to_left: None, ..complete },
        ScriptSoundTransform { right_to_right: None, ..complete },
        ScriptSoundTransform { volume: None, ..complete },
    ];
    for incomplete in missing {
        let mut ctx = ExecutionContext::new();
        ctx.set_global_sound_transform(engine(10, 20, 30, 40, 50));
        let prior = sound_transform(&ctx);
        assert_eq!(
            set_sound_transform(&mut ctx, &[ScriptValue::Object(incomplete)]),
            Err(AccessError::CoercionFailure)
        );
        assert_eq!(ctx.get_global_sound_transform(), engine(10, 20, 30, 40, 50));
        assert_eq!(sound_transform(&ctx), prior);
    }
}

#[test]
fn two_gets_return_equal_values_with_distinct_identities() {
    let ctx = ExecutionContext::new();
    let first = sound_transform(&ctx);
    let mut second = sound_transform(&ctx);
    assert_eq!(first, second);
    // Each call builds a fresh object: changing one leaves the other as read.
    second.volume = number(0);
    assert_eq!(first.volume, number(UNIT));
}

#[test]
fn fresh_context_has_deterministic_default() {
    let ctx = ExecutionContext::new();
    let s = sound_transform(&ctx);
    assert_eq!(as_f64(&s.left_to_left), 0.0);
    assert_eq!(as_f64(&s.left_to_right), 0.0);
    assert_eq!(as_f64(&s.right_to_left), 0.0);
    assert_eq!(as_f64(&s.right_to_right), 0.0);
    assert_eq!(as_f64(&s.volume), 1.0);
    let other = ExecutionContext::new();
    assert_eq!(sound_transform(&other), s);
}

#[test]
fn setter_truncates_toward_zero() {
    let mut ctx = ExecutionContext::new();
    // 0.123456 * 100 truncates to 12; -0.123456 * 100 truncates to -12.
    let written = full_object(123_456, -123_456, 999_999, -9_999, UNIT);
    assert_eq!(
        set_sound_transform(&mut ctx, &[ScriptValue::Object(written)]),
        Ok(())
    );
    assert_eq!(ctx.get_global_sound_transform(), engine(12, -12, 99, 0, 100));
}

#[test]
fn setter_saturates_out_of_range_values() {
    let mut ctx = ExecutionContext::new();
    let written = full_object(i64::MAX, i64::MIN, 0, 0, UNIT);
    assert_eq!(
        set_sound_transform(&mut ctx, &[ScriptValue::Object(written)]),
        Ok(())
    );
    let t = ctx.get_global_sound_transform();
    assert_eq!(t.left_to_left, i32::MAX);
    assert_eq!(t.left_to_right, i32::MIN);
}

#[test]
fn extra_arguments_beyond_the_first_are_ignored() {
    let mut ctx = ExecutionContext::new();
    let written = full_object(0, 0, 0, 0, 0);
    let args = [ScriptValue::Object(written), ScriptValue::Null];
    assert_eq!(set_sound_transform(&mut ctx, &args), Ok(()));
    assert_eq!(ctx.get_global_sound_transform(), engine(0, 0, 0, 0, 0));
}

#[test]
fn coefficient_conversions_have_exact_values() {
    assert_eq!(coefficient_to_script(100), ScriptNumber { micros: UNIT });
    assert_eq!(coefficient_to_script(-250), ScriptNumber { micros: -2_500_000 });
    assert_eq!(script_to_coefficient(ScriptNumber { micros: UNIT }), 100);
    assert_eq!(script_to_coefficient(ScriptNumber { micros: 15_000 }), 1);
    assert_eq!(script_to_coefficient(ScriptNumber { micros: -15_000 }), -1);
    assert_eq!(script_to_coefficient(ScriptNumber { micros: i64::MIN }), i32::MIN);
    assert_eq!(script_to_coefficient(ScriptNumber { micros: i64::MAX }), i32::MAX);
}

#[test]
fn instance_init_forwards_superclass_failure() {
    assert_eq!(instance_init(true, Ok(())), Ok(ScriptValue::Undefined));
    assert_eq!(
        instance_init(true, Err(AccessError::PropertyAccessFailure)),
        Err(AccessError::PropertyAccessFailure)
    );
    assert_eq!(
        instance_init(true, Err(AccessError::CoercionFailure)),
        Err(AccessError::CoercionFailure)
    );
    // With no receiver the superclass constructor is never consulted.
    assert_eq!(
        instance_init(false, Err(AccessError::PropertyAccessFailure)),
        Ok(ScriptValue::Undefined)
    );
}

#[test]
fn class_init_is_a_no_op() {
    assert_eq!(class_init(), Ok(ScriptValue::Undefined));
}

#[test]
fn class_descriptor_registers_the_accessor() {
    let c = create_class();
    assert_eq!(c.name, "SoundMixer");
    assert_eq!(c.package, "flash.media");
    assert_eq!(c.superclass, "Object");
    assert!(c.sealed);
    assert!(c.is_final);
    assert_eq!(c.accessor_property, "soundTransform");
}
