//! The execution context: owner of the process-wide sound transform.
//!
//! Exactly one engine record exists per context. It is read and replaced only
//! wholesale, through the two methods here; nothing mutates it field by
//! field. Keeping the record in an explicit context, threaded through the
//! accessors as a parameter, keeps the unit testable in isolation.

use crate::transform::EngineSoundTransform;
use vstd::prelude::*;

verus! {

/// The default snapshot a fresh context starts from: no cross-channel pan,
/// full master volume.
pub open spec fn default_sound_transform() -> EngineSoundTransform {
    EngineSoundTransform {
        left_to_left: 0,
        left_to_right: 0,
        right_to_left: 0,
        right_to_right: 0,
        volume: 100,
    }
}

/// Per-session state container owning the single global sound transform.
pub struct ExecutionContext {
    global_sound_transform: EngineSoundTransform,
}

impl ExecutionContext {
    /// The current global sound transform, as contracts speak of it.
    pub closed spec fn global_transform(self) -> EngineSoundTransform {
        self.global_sound_transform
    }

    /// A freshly initialized context holds the deterministic default
    /// snapshot.
    pub fn new() -> (ctx: ExecutionContext)
        ensures
            ctx.global_transform() == default_sound_transform(),
    {
        ExecutionContext {
            global_sound_transform: EngineSoundTransform {
                left_to_left: 0,
                left_to_right: 0,
                right_to_left: 0,
                right_to_right: 0,
                volume: 100,
            },
        }
    }

    /// Read the current record.
    pub fn get_global_sound_transform(&self) -> (t: EngineSoundTransform)
        ensures
            t == self.global_transform(),
    {
        self.global_sound_transform
    }

    /// Replace the record wholesale. The new value is immediately visible to
    /// every subsequent reader.
    pub fn set_global_sound_transform(&mut self, t: EngineSoundTransform)
        ensures
            final(self).global_transform() == t,
    {
        self.global_sound_transform = t;
    }
}

} // verus!
