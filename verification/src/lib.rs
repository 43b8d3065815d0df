//! A safe, ownership-correct bridge between a host program and a
//! dynamically-typed foreign runtime's value system.
//!
//! The foreign runtime owns the real representation of every value: an
//! object with a reference count, a set of dynamically dispatched methods,
//! and a dynamic type tag. The host only ever holds an opaque handle. This
//! crate layers three guarantees over that boundary:
//!
//! - [`Value`] models shared ownership of one foreign object and guarantees
//!   exactly-once release: cloning increments the foreign reference count,
//!   releasing decrements it, and the object is freed precisely when the
//!   last owner lets go.
//! - Method dispatch by symbolic name resolves inside the foreign runtime;
//!   an unknown name or arity comes back as a typed dispatch failure, never
//!   a crash.
//! - A cast validates the foreign value's dynamic type tag before the
//!   payload is reinterpreted as a native value, so a mismatched type is
//!   reported, never misread.
//!
//! All paths funnel through the raw surface in [`capi`], whose contracts
//! state the boundary rules each call must respect.

use vstd::prelude::*;

pub mod capi;
pub mod laws;
pub mod cast;
pub mod variable;

pub use variable::Value;

verus! {

use crate::capi::{Runtime, TypeTag, find_method, live_at, live_count};

/// A host-side view of one foreign object that is known to expose an `.x`
/// attribute method.
pub struct Goo {
    base: Value,
}

impl Goo {
    /// The handle of the underlying foreign object.
    pub closed spec fn base_id(&self) -> int {
        self.base.id()
    }

    /// Wraps an owned foreign value; the `Goo` takes the reference over.
    pub fn new(base: Value) -> (g: Goo)
        ensures
            g.base_id() == base.id(),
    {
        Goo { base }
    }

    /// Reads the object's `.x` attribute: dispatches the `.x` method with no
    /// arguments and extracts the integer result.
    ///
    /// The preconditions say when this cannot fail: the object must be live
    /// and must expose a non-raising, integer-valued `.x` method of arity
    /// zero whose result fits the native width.
    pub fn x(&self, rt: &mut Runtime) -> (r: i32)
        requires
            old(rt).wf(),
            live_at(old(rt)@, self.base_id()),
            ({
                let fm = find_method(old(rt)@[self.base_id()].methods@, ".x"@, 0);
                &&& fm is Some
                &&& !fm.unwrap().raises
                &&& fm.unwrap().result_tag == TypeTag::Int
                &&& -0x8000_0000 <= fm.unwrap().result_payload <= 0x7fff_ffff
            }),
        ensures
            final(rt).wf(),
            r as i64 == find_method(old(rt)@[self.base_id()].methods@, ".x"@, 0)
                .unwrap().result_payload,
            final(rt)@.len() == old(rt)@.len() + 1,
            forall|i: int| 0 <= i < old(rt)@.len() ==> final(rt)@[i] == old(rt)@[i],
            live_count(final(rt)@) == live_count(old(rt)@),
    {
        let args: Vec<Value> = Vec::new();
        let res = match self.base.method(rt, ".x", &args) {
            Ok(v) => v,
            Err(_) => vstd::pervasive::unreached(),
        };
        let n = match res.cast::<i32>(rt) {
            Ok(n) => n,
            Err(_) => vstd::pervasive::unreached(),
        };
        proof {
            let m = find_method(old(rt)@[self.base_id()].methods@, ".x"@, 0).unwrap();
            crate::cast::lemma_i32_widen_round_trip(m.result_payload);
        }
        res.release(rt);
        n
    }
}

} // verus!
