//! The two representations of a sound transform and the conversion between
//! them.
//!
//! The engine stores each coefficient as a signed 32-bit integer in a
//! fixed-point encoding where 100 stands for a coefficient of 1.0. Scripts
//! see each coefficient as a number; this crate models such a number as an
//! exact decimal fixed-point value counted in millionths of a unit, fine
//! enough that every engine coefficient is represented exactly and that the
//! truncation the setter performs is observable.

use vstd::prelude::*;

verus! {

/// Micros that one raw engine unit stands for: one engine unit is 1/100 of a
/// coefficient, and a coefficient of 1.0 is 1_000_000 micros.
pub const MICROS_PER_ENGINE_UNIT: i64 = 10_000;

/// A script-side number: an exact decimal fixed-point value, `micros`
/// millionths of a unit. A coefficient of 1.0 is 1_000_000 micros.
#[derive(Clone, Copy, PartialEq, Eq, Structural, Debug)]
pub struct ScriptNumber {
    pub micros: i64,
}

/// The engine's fixed-point sound transform: four stereo pan coefficients and
/// the master volume, each scaled so that 100 stands for 1.0. Mutated only by
/// wholesale replacement, never field by field.
#[derive(Clone, Copy, PartialEq, Eq, Structural, Debug)]
pub struct EngineSoundTransform {
    pub left_to_left: i32,
    pub left_to_right: i32,
    pub right_to_left: i32,
    pub right_to_right: i32,
    pub volume: i32,
}

/// The script-visible sound-transform object: five named numeric properties.
/// A property holds `None` when it was never set, in which case a script
/// reading it sees `undefined` and numeric coercion of it fails.
#[derive(Clone, Copy, PartialEq, Eq, Debug)]
pub struct ScriptSoundTransform {
    pub left_to_left: Option<ScriptNumber>,
    pub left_to_right: Option<ScriptNumber>,
    pub right_to_left: Option<ScriptNumber>,
    pub right_to_right: Option<ScriptNumber>,
    pub volume: Option<ScriptNumber>,
}

/// Division truncating toward zero: the semantics of a float-to-integer cast.
pub open spec fn trunc_div(n: int, d: int) -> int
    recommends
        d > 0,
{
    if n >= 0 {
        n / d
    } else {
        -((-n) / d)
    }
}

/// Saturation into the engine's coefficient range.
pub open spec fn clamp_to_i32(n: int) -> int {
    if n < i32::MIN as int {
        i32::MIN as int
    } else if n > i32::MAX as int {
        i32::MAX as int
    } else {
        n
    }
}

/// The script number that stands for raw engine coefficient `raw`: exactly
/// `raw / 100`, which the micros scale represents without loss.
pub open spec fn script_of_coefficient(raw: i32) -> ScriptNumber {
    ScriptNumber { micros: (raw as int * MICROS_PER_ENGINE_UNIT as int) as i64 }
}

/// The raw engine coefficient derived from script number `n`: the coefficient
/// times 100, truncated toward zero and saturated into the i32 range.
pub open spec fn coefficient_of_script(n: ScriptNumber) -> i32 {
    clamp_to_i32(trunc_div(n.micros as int, MICROS_PER_ENGINE_UNIT as int)) as i32
}

/// Engine coefficient to script number: exact, no rounding.
pub fn coefficient_to_script(raw: i32) -> (n: ScriptNumber)
    ensures
        n == script_of_coefficient(raw),
{
    ScriptNumber { micros: raw as i64 * MICROS_PER_ENGINE_UNIT }
}

/// Script number to engine coefficient: multiply by 100, truncate toward
/// zero, saturate into the i32 range.
pub fn script_to_coefficient(n: ScriptNumber) -> (raw: i32)
    ensures
        raw == coefficient_of_script(n),
{
    let m: i64 = n.micros;
    if m >= 0 {
        let q: i64 = m / MICROS_PER_ENGINE_UNIT;
        if q > i32::MAX as i64 {
            i32::MAX
        } else {
            q as i32
        }
    } else if m <= i32::MIN as i64 * MICROS_PER_ENGINE_UNIT {
        proof {
            lemma_trunc_div_ordered(m as int, i32::MIN as int * MICROS_PER_ENGINE_UNIT as int);
        }
        i32::MIN
    } else {
        let q: i64 = (-m) / MICROS_PER_ENGINE_UNIT;
        -(q as i32)
    }
}

/// Whether every one of the five named properties of a script object is set.
pub open spec fn all_fields_present(s: ScriptSoundTransform) -> bool {
    &&& s.left_to_left is Some
    &&& s.left_to_right is Some
    &&& s.right_to_left is Some
    &&& s.right_to_right is Some
    &&& s.volume is Some
}

/// The script object that stands for engine record `t`: every property set,
/// each exactly the corresponding engine coefficient divided by 100.
pub open spec fn script_of_engine(t: EngineSoundTransform) -> ScriptSoundTransform {
    ScriptSoundTransform {
        left_to_left: Some(script_of_coefficient(t.left_to_left)),
        left_to_right: Some(script_of_coefficient(t.left_to_right)),
        right_to_left: Some(script_of_coefficient(t.right_to_left)),
        right_to_right: Some(script_of_coefficient(t.right_to_right)),
        volume: Some(script_of_coefficient(t.volume)),
    }
}

/// The engine record that the setter assembles from a fully populated script
/// object: each coefficient times 100, truncated toward zero.
pub open spec fn engine_of_script(s: ScriptSoundTransform) -> EngineSoundTransform
    recommends
        all_fields_present(s),
{
    EngineSoundTransform {
        left_to_left: coefficient_of_script(s.left_to_left.unwrap()),
        left_to_right: coefficient_of_script(s.left_to_right.unwrap()),
        right_to_left: coefficient_of_script(s.right_to_left.unwrap()),
        right_to_right: coefficient_of_script(s.right_to_right.unwrap()),
        volume: coefficient_of_script(s.volume.unwrap()),
    }
}

/// Engine record to script object: builds a fresh object whose five
/// properties carry the engine coefficients exactly.
pub fn engine_to_script(t: &EngineSoundTransform) -> (s: ScriptSoundTransform)
    ensures
        s == script_of_engine(*t),
{
    ScriptSoundTransform {
        left_to_left: Some(coefficient_to_script(t.left_to_left)),
        left_to_right: Some(coefficient_to_script(t.left_to_right)),
        right_to_left: Some(coefficient_to_script(t.right_to_left)),
        right_to_right: Some(coefficient_to_script(t.right_to_right)),
        volume: Some(coefficient_to_script(t.volume)),
    }
}

/// Whether a property is set to an exact multiple of one hundredth that the
/// engine's coefficient range can represent.
pub open spec fn field_exact_hundredth_in_range(p: Option<ScriptNumber>) -> bool {
    &&& p is Some
    &&& p.unwrap().micros as int % (MICROS_PER_ENGINE_UNIT as int) == 0
    &&& i32::MIN as int * (MICROS_PER_ENGINE_UNIT as int) <= p.unwrap().micros as int
    &&& p.unwrap().micros as int <= i32::MAX as int * (MICROS_PER_ENGINE_UNIT as int)
}

/// Whether every property of `s` is an exact in-range multiple of one
/// hundredth.
pub open spec fn exact_hundredths_in_range(s: ScriptSoundTransform) -> bool {
    &&& field_exact_hundredth_in_range(s.left_to_left)
    &&& field_exact_hundredth_in_range(s.left_to_right)
    &&& field_exact_hundredth_in_range(s.right_to_left)
    &&& field_exact_hundredth_in_range(s.right_to_right)
    &&& field_exact_hundredth_in_range(s.volume)
}

/// Law, one coefficient: a script number that is an exact multiple of one
/// hundredth within the engine's range survives the round trip through the
/// engine encoding unchanged — the truncation discards nothing and the
/// saturation does not engage.
pub proof fn lemma_coefficient_round_trip(n: ScriptNumber)
    requires
        field_exact_hundredth_in_range(Some(n)),
    ensures
        script_of_coefficient(coefficient_of_script(n)) == n,
{
    let d = MICROS_PER_ENGINE_UNIT as int;
    let m = n.micros as int;
    let k = m / d;
    vstd::arithmetic::div_mod::lemma_fundamental_div_mod(m, d);
    assert(m == d * k);
    if m < 0 {
        assert(-m == d * (-k));
        vstd::arithmetic::div_mod::lemma_div_multiples_vanish(-k, d);
    }
    assert(trunc_div(m, d) == k);
    vstd::arithmetic::div_mod::lemma_div_is_ordered(i32::MIN as int * d, m, d);
    vstd::arithmetic::div_mod::lemma_div_is_ordered(m, i32::MAX as int * d, d);
    vstd::arithmetic::div_mod::lemma_div_multiples_vanish(i32::MIN as int, d);
    vstd::arithmetic::div_mod::lemma_div_multiples_vanish(i32::MAX as int, d);
    assert(i32::MIN as int <= k <= i32::MAX as int);
}

/// Law: writing a transform whose five values are exact multiples of one
/// hundredth within the engine's range and then reading it back returns an
/// object with the same five values.
pub proof fn lemma_script_engine_round_trip(s: ScriptSoundTransform)
    requires
        exact_hundredths_in_range(s),
    ensures
        script_of_engine(engine_of_script(s)) == s,
{
    lemma_coefficient_round_trip(s.left_to_left.unwrap());
    lemma_coefficient_round_trip(s.left_to_right.unwrap());
    lemma_coefficient_round_trip(s.right_to_left.unwrap());
    lemma_coefficient_round_trip(s.right_to_right.unwrap());
    lemma_coefficient_round_trip(s.volume.unwrap());
}

/// Truncating division by the micros-per-engine-unit scale is monotone.
proof fn lemma_trunc_div_ordered(a: int, b: int)
    requires
        a <= b,
    ensures
        trunc_div(a, MICROS_PER_ENGINE_UNIT as int) <= trunc_div(
            b,
            MICROS_PER_ENGINE_UNIT as int,
        ),
{
    let d = MICROS_PER_ENGINE_UNIT as int;
    if a >= 0 {
        vstd::arithmetic::div_mod::lemma_div_is_ordered(a, b, d);
    } else if b < 0 {
        vstd::arithmetic::div_mod::lemma_div_is_ordered(-b, -a, d);
    } else {
        vstd::arithmetic::div_mod::lemma_div_pos_is_pos(b, d);
        vstd::arithmetic::div_mod::lemma_div_pos_is_pos(-a, d);
    }
}

} // verus!
