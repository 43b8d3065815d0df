//! The safe ownership layer: [`Value`], an owning wrapper around one foreign
//! handle, and [`Index`], a borrowing wrapper for method dispatch.
//!
//! A `Value` stands for one reference attributed to the host: constructing
//! or cloning one increments the foreign reference count, and releasing one
//! decrements it. A `Value` is released by giving it up by value, so one
//! handle can never be released twice through the same owner; the contracts
//! of [`crate::capi`] forbid every other double release.

use vstd::prelude::*;

verus! {

use crate::capi;
use crate::capi::{
    DispatchFailure,
    Method,
    Obj,
    Runtime,
    TypeTag,
    find_method,
    is_default_obj,
    is_invoke_result,
    live_at,
    live_count,
    released,
    retained,
};

/// Shared ownership of exactly one foreign-runtime object.
///
/// Each `Value` accounts for one unit of the foreign reference count of the
/// object it refers to. It is an owner, not the storage: the foreign runtime
/// alone holds the object, and the host frees nothing directly.
pub struct Value {
    handle: usize,
}

impl Value {
    /// The handle of the foreign object this value owns a reference to.
    pub closed spec fn id(&self) -> int {
        self.handle as int
    }

    /// Whether this value's object is live in the table `s`.
    pub open spec fn valid(&self, s: Seq<Obj>) -> bool {
        live_at(s, self.id())
    }

    /// The raw handle, for the capi layer and the cast engine.
    pub(crate) fn raw(&self) -> (h: usize)
        ensures
            h as int == self.id(),
    {
        self.handle
    }

    /// Constructs a new foreign default value and takes ownership of its one
    /// reference.
    pub fn new(rt: &mut Runtime) -> (v: Value)
        requires
            old(rt).wf(),
        ensures
            final(rt).wf(),
            v.id() == old(rt)@.len(),
            v.valid(final(rt)@),
            final(rt)@.len() == old(rt)@.len() + 1,
            forall|i: int| 0 <= i < old(rt)@.len() ==> final(rt)@[i] == old(rt)@[i],
            is_default_obj(final(rt)@[v.id()]),
            live_count(final(rt)@) == live_count(old(rt)@) + 1,
    {
        Value { handle: capi::create_default(rt) }
    }

    /// Takes ownership of one reference to a fresh foreign object with the
    /// given tag, payload and method set: the model's stand-in for obtaining
    /// an object the foreign runtime already holds.
    pub fn from_object(rt: &mut Runtime, tag: TypeTag, payload: i64, methods: Vec<Method>) -> (v:
        Value)
        requires
            old(rt).wf(),
        ensures
            final(rt).wf(),
            v.id() == old(rt)@.len(),
            v.valid(final(rt)@),
            final(rt)@.len() == old(rt)@.len() + 1,
            forall|i: int| 0 <= i < old(rt)@.len() ==> final(rt)@[i] == old(rt)@[i],
            final(rt)@[v.id()].rc == 1,
            final(rt)@[v.id()].tag == tag,
            final(rt)@[v.id()].payload == payload,
            final(rt)@[v.id()].methods@ == methods@,
            live_count(final(rt)@) == live_count(old(rt)@) + 1,
    {
        Value { handle: capi::create_object(rt, tag, payload, methods) }
    }

    /// Clones this value: increments the foreign reference count and returns
    /// a second, independent owner of the same object. The original and the
    /// clone may be released in either order.
    pub fn clone(&self, rt: &mut Runtime) -> (v: Value)
        requires
            old(rt).wf(),
            self.valid(old(rt)@),
            old(rt)@[self.id()].rc < usize::MAX,
        ensures
            final(rt).wf(),
            v.id() == self.id(),
            final(rt)@ == retained(old(rt)@, self.id()),
            self.valid(final(rt)@),
            v.valid(final(rt)@),
            live_count(final(rt)@) == live_count(old(rt)@),
    {
        Value { handle: capi::retain(rt, self.handle) }
    }

    /// Gives this owner's reference back: decrements the foreign reference
    /// count, freeing the object exactly when this was the last owner.
    /// Taking `self` by value makes a second release of the same owner
    /// impossible.
    pub fn release(self, rt: &mut Runtime)
        requires
            old(rt).wf(),
            self.valid(old(rt)@),
        ensures
            final(rt).wf(),
            final(rt)@ == released(old(rt)@, self.id()),
            live_at(final(rt)@, self.id()) <==> old(rt)@[self.id()].rc >= 2,
            live_count(final(rt)@) + (if old(rt)@[self.id()].rc == 1 {
                1nat
            } else {
                0nat
            }) == live_count(old(rt)@),
    {
        capi::release(rt, self.handle)
    }

    /// Borrows this value's handle for symbolic-name method dispatch,
    /// without transferring ownership.
    pub fn index<'a>(&'a self) -> (ix: Index<'a>)
        ensures
            ix.id() == self.id(),
    {
        Index { target: self }
    }

    /// Dispatches the method named `name` with the given argument tuple on
    /// this value's foreign object. The arguments are borrowed: the caller
    /// still owns every one of them after the call.
    ///
    /// Resolution is purely dynamic, by name and arity, inside the foreign
    /// runtime: an unknown name or arity yields `MethodNotFound`, a method
    /// that raises yields `ForeignError`, and a successful call yields a new
    /// owning `Value` holding the method's result.
    pub fn method(&self, rt: &mut Runtime, name: &str, args: &Vec<Value>) -> (r: Result<
        Value,
        DispatchFailure,
    >)
        requires
            old(rt).wf(),
            self.valid(old(rt)@),
            forall|i: int| 0 <= i < args@.len() ==> (#[trigger] args@[i]).valid(old(rt)@),
        ensures
            final(rt).wf(),
            ({
                let fm = find_method(old(rt)@[self.id()].methods@, name@, args@.len());
                match fm {
                    Option::None => {
                        &&& r == Result::<Value, DispatchFailure>::Err(
                            DispatchFailure::MethodNotFound,
                        )
                        &&& final(rt)@ == old(rt)@
                    },
                    Option::Some(m) => {
                        if m.raises {
                            &&& r == Result::<Value, DispatchFailure>::Err(
                                DispatchFailure::ForeignError,
                            )
                            &&& final(rt)@ == old(rt)@
                        } else {
                            &&& r is Ok
                            &&& r.unwrap().id() == old(rt)@.len()
                            &&& r.unwrap().valid(final(rt)@)
                            &&& final(rt)@.len() == old(rt)@.len() + 1
                            &&& forall|i: int| 0 <= i < old(rt)@.len() ==> final(rt)@[i] == old(rt)@[i]
                            &&& is_invoke_result(final(rt)@[old(rt)@.len() as int], m)
                            &&& live_count(final(rt)@) == live_count(old(rt)@) + 1
                        }
                    },
                }
            }),
    {
        let mut hs: Vec<usize> = Vec::new();
        let mut i: usize = 0;
        while i < args.len()
            invariant
                rt == old(rt),
                0 <= i <= args@.len(),
                hs@.len() == i,
                forall|j: int| 0 <= j < i ==> hs@[j] as int == (#[trigger] args@[j]).id(),
                forall|j: int| 0 <= j < args@.len() ==> (#[trigger] args@[j]).valid(old(rt)@),
            decreases args@.len() - i,
        {
            let h = args[i].raw();
            hs.push(h);
            i = i + 1;
        }
        assert(hs@.len() == args@.len());
        assert forall|j: int| 0 <= j < hs@.len() implies live_at(rt@, #[trigger] hs@[j] as int) by {
            assert(hs@[j] as int == args@[j].id());
            assert(args@[j].valid(old(rt)@));
        }
        match capi::invoke(rt, self.handle, name, &hs) {
            Ok(h2) => Ok(Value { handle: h2 }),
            Err(e) => Err(e),
        }
    }
}

/// A borrowing view of a [`Value`], wrapping its handle for symbolic-name
/// method dispatch and inspection without transferring ownership.
pub struct Index<'a> {
    target: &'a Value,
}

impl<'a> Index<'a> {
    /// The handle of the foreign object this view borrows.
    pub closed spec fn id(&self) -> int {
        self.target.id()
    }

    /// Dispatches a method on the borrowed value, exactly as
    /// [`Value::method`] does.
    pub fn method(&self, rt: &mut Runtime, name: &str, args: &Vec<Value>) -> (r: Result<
        Value,
        DispatchFailure,
    >)
        requires
            old(rt).wf(),
            live_at(old(rt)@, self.id()),
            forall|i: int| 0 <= i < args@.len() ==> (#[trigger] args@[i]).valid(old(rt)@),
        ensures
            final(rt).wf(),
            ({
                let fm = find_method(old(rt)@[self.id()].methods@, name@, args@.len());
                match fm {
                    Option::None => {
                        &&& r == Result::<Value, DispatchFailure>::Err(
                            DispatchFailure::MethodNotFound,
                        )
                        &&& final(rt)@ == old(rt)@
                    },
                    Option::Some(m) => {
                        if m.raises {
                            &&& r == Result::<Value, DispatchFailure>::Err(
                                DispatchFailure::ForeignError,
                            )
                            &&& final(rt)@ == old(rt)@
                        } else {
                            &&& r is Ok
                            &&& r.unwrap().id() == old(rt)@.len()
                            &&& r.unwrap().valid(final(rt)@)
                            &&& final(rt)@.len() == old(rt)@.len() + 1
                            &&& forall|i: int| 0 <= i < old(rt)@.len() ==> final(rt)@[i] == old(rt)@[i]
                            &&& is_invoke_result(final(rt)@[old(rt)@.len() as int], m)
                            &&& live_count(final(rt)@) == live_count(old(rt)@) + 1
                        }
                    },
                }
            }),
    {
        self.target.method(rt, name, args)
    }

    /// Reads the borrowed object's dynamic type tag.
    pub fn tag(&self, rt: &Runtime) -> (t: TypeTag)
        requires
            rt.wf(),
            live_at(rt@, self.id()),
        ensures
            t == rt@[self.id()].tag,
    {
        capi::type_tag(rt, self.target.raw())
    }
}

} // verus!
