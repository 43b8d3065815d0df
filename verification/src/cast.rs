//! The cast engine: fallible extraction of a foreign value's payload into a
//! concrete native type, guarded by a runtime type-tag check.
//!
//! A native target type implements [`CastTarget`], which fixes the dynamic
//! tag the foreign value must carry and how the fixed-width payload decodes
//! into the native value. [`Value::cast`] checks the tag first and only then
//! reinterprets the payload, so a mismatched foreign value is reported with
//! both tags, never misread.

use vstd::prelude::*;

verus! {

use crate::capi;
use crate::capi::{Obj, Runtime, TypeTag};
use crate::variable::Value;

/// Why a cast failed.
#[derive(Clone, Copy, PartialEq, Eq, Structural, Debug)]
pub enum CastError {
    /// The foreign value's dynamic tag is not the tag the target type
    /// expects; both are reported for diagnostics.
    TypeMismatch { expected: TypeTag, actual: TypeTag },
}

/// A native type a foreign payload can be extracted into.
pub trait CastTarget: Sized {
    /// The dynamic tag a foreign value must carry to be extracted as this
    /// type.
    spec fn expected_tag() -> TypeTag;

    /// How a fixed-width foreign payload reads as this type.
    spec fn of_payload(p: i64) -> Self;

    /// The default native value of this type.
    spec fn default_value() -> Self;

    /// A zero payload reads as the default native value.
    proof fn zero_payload_is_default()
        ensures
            Self::of_payload(0) == Self::default_value(),
    ;

    /// The expected tag, as a runtime value.
    fn runtime_tag() -> (t: TypeTag)
        ensures
            t == Self::expected_tag(),
    ;

    /// Decodes a payload whose tag has already been checked.
    fn decode(p: i64) -> (r: Self)
        ensures
            r == Self::of_payload(p),
    ;
}

impl CastTarget for i64 {
    open spec fn expected_tag() -> TypeTag {
        TypeTag::Int
    }

    open spec fn of_payload(p: i64) -> i64 {
        p
    }

    open spec fn default_value() -> i64 {
        0
    }

    proof fn zero_payload_is_default() {
    }

    fn runtime_tag() -> (t: TypeTag) {
        TypeTag::Int
    }

    fn decode(p: i64) -> (r: i64) {
        p
    }
}

impl CastTarget for i32 {
    open spec fn expected_tag() -> TypeTag {
        TypeTag::Int
    }

    open spec fn of_payload(p: i64) -> i32 {
        p as i32
    }

    open spec fn default_value() -> i32 {
        0
    }

    proof fn zero_payload_is_default() {
        assert(0i64 as i32 == 0i32) by (bit_vector);
    }

    fn runtime_tag() -> (t: TypeTag) {
        TypeTag::Int
    }

    fn decode(p: i64) -> (r: i32) {
        let r: i32 = #[verifier::truncate] (p as i32);
        r
    }
}

/// What a cast of the object `o` into the target type `T` yields: the
/// decoded payload when the dynamic tag matches the tag `T` expects, and a
/// mismatch error naming both tags otherwise.
pub open spec fn spec_cast<T: CastTarget>(o: Obj) -> Result<T, CastError> {
    if o.tag == T::expected_tag() {
        Result::Ok(T::of_payload(o.payload))
    } else {
        Result::Err(CastError::TypeMismatch { expected: T::expected_tag(), actual: o.tag })
    }
}

impl Value {
    /// Attempts to extract this value's foreign payload as the native type
    /// `T`: reads the dynamic type tag, compares it against the tag `T`
    /// expects, and only on a match reinterprets the payload.
    pub fn cast<T: CastTarget>(&self, rt: &Runtime) -> (r: Result<T, CastError>)
        requires
            rt.wf(),
            self.valid(rt@),
        ensures
            r == spec_cast::<T>(rt@[self.id()]),
    {
        let h = self.raw();
        let actual = capi::type_tag(rt, h);
        let expected = T::runtime_tag();
        if actual == expected {
            Result::Ok(T::decode(capi::extract_raw(rt, h, expected)))
        } else {
            Result::Err(CastError::TypeMismatch { expected, actual })
        }
    }
}

/// Widening an in-range payload back to the foreign width is the identity:
/// a payload within the narrow type's range survives the cast exactly.
pub proof fn lemma_i32_widen_round_trip(p: i64)
    requires
        -0x8000_0000 <= p <= 0x7fff_ffff,
    ensures
        (p as i32) as i64 == p,
{
    assert((-0x8000_0000i64 <= p && p <= 0x7fff_ffffi64) ==> ((p as i32) as i64 == p))
        by (bit_vector);
}

} // verus!
