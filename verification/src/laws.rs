//! The laws of the bridge, proved once and for all over the runtime model:
//! how cloning and releasing move the foreign reference count and the
//! allocation counter, and what a cast yields for a fresh default value, a
//! mismatched value, and a method result.
//!
//! The exec operations state their effect on the object table through the
//! spec transitions [`retained`](crate::capi::retained) and
//! [`released`](crate::capi::released) and the predicates
//! [`is_default_obj`](crate::capi::is_default_obj) and
//! [`is_invoke_result`](crate::capi::is_invoke_result); the proof functions
//! here compose those transitions, so each law speaks about every sequence
//! of calls of that shape, not about one run.

use vstd::prelude::*;

verus! {

use crate::capi::{
    Method,
    Obj,
    TypeTag,
    is_default_obj,
    is_invoke_result,
    lemma_live_count_at_least_one,
    lemma_live_count_update,
    live_at,
    live_count,
    released,
    retained,
};
use crate::cast::{CastError, CastTarget, spec_cast};

/// The table after `n` retains of handle `h`.
pub open spec fn retained_n(s: Seq<Obj>, h: int, n: nat) -> Seq<Obj>
    decreases n,
{
    if n == 0 {
        s
    } else {
        retained(retained_n(s, h, (n - 1) as nat), h)
    }
}

/// The table after `k` releases of handle `h`.
pub open spec fn released_n(s: Seq<Obj>, h: int, k: nat) -> Seq<Obj>
    decreases k,
{
    if k == 0 {
        s
    } else {
        released(released_n(s, h, (k - 1) as nat), h)
    }
}

/// `n` retains raise the reference count at `h` by `n` and change nothing
/// else: not the table's length, not the other slots, not the object's tag,
/// payload or methods, and not the allocation counter.
pub proof fn lemma_retained_n_props(s: Seq<Obj>, h: int, n: nat)
    requires
        live_at(s, h),
        s[h].rc + n <= usize::MAX,
    ensures
        ({
            let t = retained_n(s, h, n);
            &&& t.len() == s.len()
            &&& t[h].rc == s[h].rc + n
            &&& t[h].tag == s[h].tag
            &&& t[h].payload == s[h].payload
            &&& t[h].methods == s[h].methods
            &&& forall|i: int| 0 <= i < s.len() && i != h ==> t[i] == s[i]
            &&& live_count(t) == live_count(s)
        }),
    decreases n,
{
    if n > 0 {
        lemma_retained_n_props(s, h, (n - 1) as nat);
        let t0 = retained_n(s, h, (n - 1) as nat);
        lemma_live_count_update(t0, h, retained(t0, h)[h]);
    }
}

/// `k` releases of a live handle, `k` at most the reference count, lower
/// the count at `h` by `k` and change nothing else; the allocation counter
/// drops by one exactly when the count reaches zero.
pub proof fn lemma_released_n_props(s: Seq<Obj>, h: int, k: nat)
    requires
        live_at(s, h),
        k <= s[h].rc,
    ensures
        ({
            let t = released_n(s, h, k);
            &&& t.len() == s.len()
            &&& t[h].rc == s[h].rc - k
            &&& t[h].tag == s[h].tag
            &&& t[h].payload == s[h].payload
            &&& t[h].methods == s[h].methods
            &&& forall|i: int| 0 <= i < s.len() && i != h ==> t[i] == s[i]
            &&& live_count(t) + (if k == s[h].rc {
                1nat
            } else {
                0nat
            }) == live_count(s)
        }),
    decreases k,
{
    if k > 0 {
        lemma_released_n_props(s, h, (k - 1) as nat);
        let t0 = released_n(s, h, (k - 1) as nat);
        lemma_live_count_update(t0, h, released(t0, h)[h]);
        if k == s[h].rc {
            lemma_live_count_at_least_one(s, h);
        }
    }
}

/// Law: cloning a value and then releasing both the original and the clone
/// frees the foreign object exactly once — no double free, no leak. A clone
/// shares its original's handle, so releasing the pair in either order is
/// the same two transitions on that handle. After the retain and the first
/// release the object is still live and the allocation counter has not
/// moved; the second release is still applied to a live handle (so no
/// release ever hits a dead object), and it frees the object precisely when
/// the original held the last other reference.
pub proof fn lemma_clone_then_release_both(s: Seq<Obj>, h: int)
    requires
        live_at(s, h),
        s[h].rc < usize::MAX,
    ensures
        live_at(retained(s, h), h),
        live_at(released(retained(s, h), h), h),
        live_count(released(retained(s, h), h)) == live_count(s),
        ({
            let t = released(released(retained(s, h), h), h);
            &&& (live_at(t, h) <==> s[h].rc >= 2)
            &&& t[h].rc == s[h].rc - 1
            &&& live_count(t) + (if s[h].rc == 1 {
                1nat
            } else {
                0nat
            }) == live_count(s)
        }),
{
    lemma_retained_n_props(s, h, 1);
    assert(retained_n(s, h, 1) == retained(s, h));
    lemma_released_n_props(retained(s, h), h, 1);
    assert(released_n(retained(s, h), h, 1) == released(retained(s, h), h));
    lemma_released_n_props(retained(s, h), h, 2);
    assert(released_n(retained(s, h), h, 2) == released(released(retained(s, h), h), h));
}

/// Law: after `n` clones of one freshly created value (reference count one)
/// and `k` releases of its handle, the object stays live and the allocation
/// counter keeps counting it for every `k` up to `n`; at the `(n + 1)`-th
/// release — one per clone and one for the original — the object is freed
/// and the counter returns to its pre-construction baseline, one below what
/// it was while the object lived, and not before.
pub proof fn lemma_refcount_baseline(s: Seq<Obj>, h: int, n: nat, k: nat)
    requires
        live_at(s, h),
        s[h].rc == 1,
        n + 1 <= usize::MAX,
        k <= n + 1,
    ensures
        ({
            let t = released_n(retained_n(s, h, n), h, k);
            &&& t.len() == s.len()
            &&& t[h].rc == 1 + n - k
            &&& (live_at(t, h) <==> k <= n)
            &&& (k <= n ==> live_count(t) == live_count(s))
            &&& (k == n + 1 ==> live_count(t) + 1 == live_count(s))
        }),
{
    lemma_retained_n_props(s, h, n);
    lemma_released_n_props(retained_n(s, h, n), h, k);
}

/// Law: a cast of a freshly constructed default value into any integer
/// target succeeds and yields the target's default native value. The
/// default foreign object carries the integer tag, so the law asks the
/// target to expect that tag, which both provided targets do.
pub proof fn lemma_cast_default_is_default<T: CastTarget>(o: Obj)
    requires
        is_default_obj(o),
        T::expected_tag() == TypeTag::Int,
    ensures
        spec_cast::<T>(o) == Result::<T, CastError>::Ok(T::default_value()),
{
    T::zero_payload_is_default();
}

/// Law: a cast of a value whose dynamic tag is not the one the target
/// expects yields a type mismatch naming the expected and the actual tag —
/// the payload is never read through the wrong type.
pub proof fn lemma_cast_mismatch_reports_tags<T: CastTarget>(o: Obj)
    requires
        o.tag != T::expected_tag(),
    ensures
        spec_cast::<T>(o) == Result::<T, CastError>::Err(
            CastError::TypeMismatch { expected: T::expected_tag(), actual: o.tag },
        ),
{
}

/// Law: dispatching a method that is specified to produce an integer value
/// and then casting the result yields exactly that value. A successful
/// dispatch of `m` hands back an object satisfying
/// [`is_invoke_result`]`(o, m)`, and casting such an object to the native
/// integer width returns the method's specified result payload.
pub proof fn lemma_invoke_then_cast_round_trip(m: Method, o: Obj)
    requires
        is_invoke_result(o, m),
        m.result_tag == TypeTag::Int,
    ensures
        spec_cast::<i64>(o) == Result::<i64, CastError>::Ok(m.result_payload),
{
}

} // verus!
