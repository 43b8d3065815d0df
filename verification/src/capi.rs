//! The raw foreign-function surface: creation, reference-count increment and
//! decrement, dynamic method dispatch, type-tag query, and raw payload
//! extraction, all on untyped handles.
//!
//! The foreign runtime itself is modelled here as an explicit [`Runtime`]
//! value: a table of objects, each with a reference count, a dynamic type
//! tag, a fixed-width payload, and a set of named methods. A handle is an
//! index into that table; a freed slot keeps its index and is never reused,
//! so a handle stays meaningful (though dead) after its object is released.
//! Every operation takes the runtime it acts on, and its contract is the
//! boundary contract: callers must present live handles, must not release a
//! handle twice, and in return each operation says exactly what it does to
//! the object table and to the count of live objects.

use vstd::prelude::*;

verus! {

/// The dynamic type tag of a foreign value.
#[derive(Clone, Copy, PartialEq, Eq, Structural, Debug)]
pub enum TypeTag {
    /// A fixed-width signed integer payload.
    Int,
    /// A boolean payload (zero or one).
    Bool,
    /// An opaque textual payload; its characters are not extractable here.
    Text,
}

/// Why a dynamic method dispatch failed.
#[derive(Clone, Copy, PartialEq, Eq, Structural, Debug)]
pub enum DispatchFailure {
    /// The foreign object has no method of the requested name and arity.
    MethodNotFound,
    /// The foreign call itself raised inside the foreign runtime.
    ForeignError,
}

/// One entry of a foreign object's dynamically dispatched method set.
///
/// Dispatch resolves a symbolic name together with an arity; a method that
/// resolves either raises inside the foreign runtime (`raises`) or produces
/// a fresh foreign object with the given tag and payload.
pub struct Method {
    /// The symbolic name the method is dispatched under.
    pub name: String,
    /// The number of arguments the method accepts.
    pub arity: usize,
    /// Whether invoking the method raises inside the foreign runtime.
    pub raises: bool,
    /// The dynamic type tag of the object a successful call produces.
    pub result_tag: TypeTag,
    /// The payload of the object a successful call produces.
    pub result_payload: i64,
}

/// A foreign object as the runtime stores it: a reference count, a dynamic
/// type tag, a fixed-width payload, and the object's method set.
///
/// `rc == 0` means the object has been freed; its slot stays in the table so
/// that handles keep their meaning as indices.
pub struct Obj {
    /// The reference count; the object is live while it is at least one.
    pub rc: usize,
    /// The dynamic type tag.
    pub tag: TypeTag,
    /// The payload, a fixed-size native representation of the value.
    pub payload: i64,
    /// The methods the object supports.
    pub methods: Vec<Method>,
}

/// The foreign runtime, modelled as an explicit value: the object table and
/// a count of the live objects in it (the allocation counter).
pub struct Runtime {
    slots: Vec<Obj>,
    live: usize,
}

impl View for Runtime {
    type V = Seq<Obj>;

    /// A runtime is abstractly its object table.
    closed spec fn view(&self) -> Seq<Obj> {
        self.slots@
    }
}

/// Whether handle `h` refers to a live object of the table `s`.
pub open spec fn live_at(s: Seq<Obj>, h: int) -> bool {
    0 <= h < s.len() && s[h].rc >= 1
}

/// One if the object is live, zero if it has been freed.
pub open spec fn count_one(o: Obj) -> nat {
    if o.rc >= 1 {
        1nat
    } else {
        0nat
    }
}

/// How many objects of the table are live: the allocation counter.
pub open spec fn live_count(s: Seq<Obj>) -> nat
    decreases s.len(),
{
    if s.len() == 0 {
        0nat
    } else {
        live_count(s.drop_last()) + count_one(s.last())
    }
}

/// The object the foreign runtime constructs for a default value: one
/// reference, integer-tagged, zero payload, no methods.
pub open spec fn is_default_obj(o: Obj) -> bool {
    &&& o.rc == 1
    &&& o.tag == TypeTag::Int
    &&& o.payload == 0
    &&& o.methods@.len() == 0
}

/// The object a successful dispatch of method `m` produces: one reference,
/// the method's result tag and payload, no methods of its own.
pub open spec fn is_invoke_result(o: Obj, m: Method) -> bool {
    &&& o.rc == 1
    &&& o.tag == m.result_tag
    &&& o.payload == m.result_payload
    &&& o.methods@.len() == 0
}

/// The table after a retain of handle `h`: the reference count at `h` is one
/// higher, everything else unchanged.
pub open spec fn retained(s: Seq<Obj>, h: int) -> Seq<Obj> {
    s.update(
        h,
        Obj {
            rc: (s[h].rc + 1) as usize,
            tag: s[h].tag,
            payload: s[h].payload,
            methods: s[h].methods,
        },
    )
}

/// The table after a release of handle `h`: the reference count at `h` is one
/// lower, everything else unchanged. At zero the object is freed.
pub open spec fn released(s: Seq<Obj>, h: int) -> Seq<Obj> {
    s.update(
        h,
        Obj {
            rc: (s[h].rc - 1) as usize,
            tag: s[h].tag,
            payload: s[h].payload,
            methods: s[h].methods,
        },
    )
}

/// Replacing one slot changes the live count by the difference the slot
/// itself contributes.
pub proof fn lemma_live_count_update(s: Seq<Obj>, h: int, o: Obj)
    requires
        0 <= h < s.len(),
    ensures
        live_count(s.update(h, o)) + count_one(s[h]) == live_count(s) + count_one(o),
    decreases s.len(),
{
    let t = s.update(h, o);
    if h == s.len() - 1 {
        assert(t.drop_last() =~= s.drop_last());
    } else {
        assert(t.drop_last() =~= s.drop_last().update(h, o));
        lemma_live_count_update(s.drop_last(), h, o);
    }
}

/// Appending one slot adds its own contribution to the live count.
pub proof fn lemma_live_count_push(s: Seq<Obj>, o: Obj)
    ensures
        live_count(s.push(o)) == live_count(s) + count_one(o),
{
    assert(s.push(o).drop_last() =~= s);
}

/// The live count never exceeds the table's length.
pub proof fn lemma_live_count_le_len(s: Seq<Obj>)
    ensures
        live_count(s) <= s.len(),
    decreases s.len(),
{
    if s.len() > 0 {
        lemma_live_count_le_len(s.drop_last());
    }
}

/// A table with a live handle has a live count of at least one.
pub proof fn lemma_live_count_at_least_one(s: Seq<Obj>, h: int)
    requires
        live_at(s, h),
    ensures
        live_count(s) >= 1,
    decreases s.len(),
{
    if h == s.len() - 1 {
    } else {
        lemma_live_count_at_least_one(s.drop_last(), h);
    }
}

impl Runtime {
    /// The runtime's bookkeeping is coherent: the allocation counter equals
    /// the number of live objects in the table.
    pub closed spec fn wf(&self) -> bool {
        self.live == live_count(self.slots@)
    }

    /// A fresh runtime holding no objects.
    pub fn new() -> (rt: Runtime)
        ensures
            rt.wf(),
            rt@ == Seq::<Obj>::empty(),
            live_count(rt@) == 0,
    {
        let rt = Runtime { slots: Vec::new(), live: 0 };
        proof {
            assert(rt.slots@ =~= Seq::<Obj>::empty());
        }
        rt
    }

    /// Reads the foreign allocation counter: how many objects are live.
    pub fn live_objects(&self) -> (n: usize)
        requires
            self.wf(),
        ensures
            n == live_count(self@),
    {
        self.live
    }

    /// Appends a fresh object with one reference and adjusts the counter.
    fn new_slot(&mut self, tag: TypeTag, payload: i64, methods: Vec<Method>) -> (h: usize)
        requires
            old(self).wf(),
        ensures
            final(self).wf(),
            h == old(self)@.len(),
            final(self)@.len() == old(self)@.len() + 1,
            forall|i: int| 0 <= i < old(self)@.len() ==> final(self)@[i] == old(self)@[i],
            final(self)@[h as int].rc == 1,
            final(self)@[h as int].tag == tag,
            final(self)@[h as int].payload == payload,
            final(self)@[h as int].methods@ == methods@,
            live_count(final(self)@) == live_count(old(self)@) + 1,
    {
        let h = self.slots.len();
        let o = Obj { rc: 1, tag, payload, methods };
        proof {
            lemma_live_count_push(self.slots@, o);
            lemma_live_count_le_len(self.slots@);
        }
        self.slots.push(o);
        let n = self.slots.len();
        assert(self.live < n);
        self.live = self.live + 1;
        h
    }
}

/// Obtains a handle to a new foreign-runtime default value, with one
/// reference attributed to the caller.
pub fn create_default(rt: &mut Runtime) -> (h: usize)
    requires
        old(rt).wf(),
    ensures
        final(rt).wf(),
        h == old(rt)@.len(),
        final(rt)@.len() == old(rt)@.len() + 1,
        forall|i: int| 0 <= i < old(rt)@.len() ==> final(rt)@[i] == old(rt)@[i],
        is_default_obj(final(rt)@[h as int]),
        live_at(final(rt)@, h as int),
        live_count(final(rt)@) == live_count(old(rt)@) + 1,
{
    rt.new_slot(TypeTag::Int, 0, Vec::new())
}

/// Installs an object with the given tag, payload and method set, standing
/// for a foreign object the runtime already holds, and hands the caller a
/// handle with one reference attributed to it.
pub fn create_object(rt: &mut Runtime, tag: TypeTag, payload: i64, methods: Vec<Method>) -> (h:
    usize)
    requires
        old(rt).wf(),
    ensures
        final(rt).wf(),
        h == old(rt)@.len(),
        final(rt)@.len() == old(rt)@.len() + 1,
        forall|i: int| 0 <= i < old(rt)@.len() ==> final(rt)@[i] == old(rt)@[i],
        final(rt)@[h as int].rc == 1,
        final(rt)@[h as int].tag == tag,
        final(rt)@[h as int].payload == payload,
        final(rt)@[h as int].methods@ == methods@,
        live_at(final(rt)@, h as int),
        live_count(final(rt)@) == live_count(old(rt)@) + 1,
{
    rt.new_slot(tag, payload, methods)
}

/// Increments the reference count of the object behind `h` and returns an
/// equivalent handle; the caller becomes a second independent owner.
pub fn retain(rt: &mut Runtime, h: usize) -> (h2: usize)
    requires
        old(rt).wf(),
        live_at(old(rt)@, h as int),
        old(rt)@[h as int].rc < usize::MAX,
    ensures
        final(rt).wf(),
        h2 == h,
        final(rt)@ == retained(old(rt)@, h as int),
        live_at(final(rt)@, h as int),
        live_count(final(rt)@) == live_count(old(rt)@),
{
    let ghost s0 = rt.slots@;
    let rc = rt.slots[h].rc;
    rt.slots[h].rc = rc + 1;
    proof {
        lemma_live_count_update(s0, h as int, rt.slots@[h as int]);
        assert(rt.slots@ =~= retained(s0, h as int));
    }
    h
}

/// Decrements the reference count of the object behind `h`, freeing the
/// object when the count reaches zero. Must be called exactly once per
/// reference handed out by `create_default`, `create_object`, `retain` or a
/// successful `invoke`; the precondition forbids a second release of the
/// same reference.
pub fn release(rt: &mut Runtime, h: usize)
    requires
        old(rt).wf(),
        live_at(old(rt)@, h as int),
    ensures
        final(rt).wf(),
        final(rt)@ == released(old(rt)@, h as int),
        live_at(final(rt)@, h as int) <==> old(rt)@[h as int].rc >= 2,
        live_count(final(rt)@) + (if old(rt)@[h as int].rc == 1 {
            1nat
        } else {
            0nat
        }) == live_count(old(rt)@),
{
    let ghost s0 = rt.slots@;
    let rc = rt.slots[h].rc;
    rt.slots[h].rc = rc - 1;
    proof {
        lemma_live_count_update(s0, h as int, rt.slots@[h as int]);
        assert(rt.slots@ =~= released(s0, h as int));
        if rc == 1 {
            lemma_live_count_at_least_one(s0, h as int);
        }
    }
    if rc == 1 {
        rt.live = rt.live - 1;
    }
}

/// The method dispatch resolves for name `name` and arity `arity` in the
/// method set `ms`: the first entry whose name and arity both match, if any.
pub open spec fn find_method(ms: Seq<Method>, name: Seq<char>, arity: nat) -> Option<Method>
    decreases ms.len(),
{
    if ms.len() == 0 {
        Option::None
    } else if ms[0].name@ == name && ms[0].arity == arity {
        Option::Some(ms[0])
    } else {
        find_method(ms.drop_first(), name, arity)
    }
}

/// Resolving in a suffix that starts with a non-matching entry is resolving
/// in the rest of the suffix.
proof fn lemma_find_method_skip(ms: Seq<Method>, name: Seq<char>, arity: nat, i: int)
    requires
        0 <= i < ms.len(),
        !(ms[i].name@ == name && ms[i].arity == arity),
    ensures
        find_method(ms.skip(i), name, arity) == find_method(ms.skip(i + 1), name, arity),
{
    assert(ms.skip(i).drop_first() =~= ms.skip(i + 1));
    assert(ms.skip(i)[0] == ms[i]);
}

/// Performs dynamic method dispatch on the object behind `h`: resolves
/// `name` with the arity `args.len()` inside the foreign object's method
/// set, and on success hands back a handle to a fresh result object with
/// one reference attributed to the caller.
///
/// Exactly one of three things happens, and the result says which: no
/// method of that name and arity exists (`MethodNotFound`, runtime
/// unchanged), the method raises inside the foreign runtime
/// (`ForeignError`, runtime unchanged), or the call succeeds and a fresh
/// object holding the method's result is appended.
pub fn invoke(rt: &mut Runtime, h: usize, name: &str, args: &Vec<usize>) -> (r: Result<
    usize,
    DispatchFailure,
>)
    requires
        old(rt).wf(),
        live_at(old(rt)@, h as int),
        forall|i: int| 0 <= i < args@.len() ==> live_at(old(rt)@, args@[i] as int),
    ensures
        final(rt).wf(),
        ({
            let fm = find_method(old(rt)@[h as int].methods@, name@, args@.len());
            match fm {
                Option::None => {
                    &&& r == Result::<usize, DispatchFailure>::Err(DispatchFailure::MethodNotFound)
                    &&& final(rt)@ == old(rt)@
                },
                Option::Some(m) => {
                    if m.raises {
                        &&& r == Result::<usize, DispatchFailure>::Err(
                            DispatchFailure::ForeignError,
                        )
                        &&& final(rt)@ == old(rt)@
                    } else {
                        &&& r is Ok
                        &&& r.unwrap() as int == old(rt)@.len()
                        &&& final(rt)@.len() == old(rt)@.len() + 1
                        &&& forall|i: int| 0 <= i < old(rt)@.len() ==> final(rt)@[i] == old(rt)@[i]
                        &&& is_invoke_result(final(rt)@[old(rt)@.len() as int], m)
                        &&& live_count(final(rt)@) == live_count(old(rt)@) + 1
                    }
                },
            }
        }),
{
    let key: String = name.to_owned();
    let arity = args.len();
    let ghost ms = old(rt)@[h as int].methods@;
    let ghost fm = find_method(ms, name@, arity as nat);
    let mut i: usize = 0;
    let mut found: Option<(bool, TypeTag, i64)> = Option::None;
    let n = rt.slots[h].methods.len();
    proof {
        assert(ms.skip(0) =~= ms);
    }
    while i < n && found.is_none()
        invariant
            rt == old(rt),
            rt.wf(),
            live_at(rt@, h as int),
            n == ms.len(),
            ms == rt@[h as int].methods@,
            key@ == name@,
            arity == args@.len(),
            0 <= i <= n,
            found is None ==> fm == find_method(ms.skip(i as int), name@, arity as nat),
            found is Some ==> {
                &&& fm is Some
                &&& found == Option::Some(
                    (fm.unwrap().raises, fm.unwrap().result_tag, fm.unwrap().result_payload),
                )
            },
        decreases n - i + (if found is None {
            1int
        } else {
            0int
        }),
    {
        let m = &rt.slots[h].methods[i];
        if key == m.name && arity == m.arity {
            proof {
                assert(ms.skip(i as int)[0] == ms[i as int]);
            }
            found = Option::Some((m.raises, m.result_tag, m.result_payload));
        } else {
            proof {
                lemma_find_method_skip(ms, name@, arity as nat, i as int);
            }
            i = i + 1;
        }
    }
    proof {
        if found is None {
            assert(ms.skip(n as int) =~= Seq::<Method>::empty());
        }
    }
    match found {
        Option::None => Result::Err(DispatchFailure::MethodNotFound),
        Option::Some((raises, result_tag, result_payload)) => {
            if raises {
                Result::Err(DispatchFailure::ForeignError)
            } else {
                let h2 = rt.new_slot(result_tag, result_payload, Vec::new());
                Result::Ok(h2)
            }
        },
    }
}

/// Reads the foreign object's dynamic type tag without transferring
/// ownership.
pub fn type_tag(rt: &Runtime, h: usize) -> (t: TypeTag)
    requires
        rt.wf(),
        live_at(rt@, h as int),
    ensures
        t == rt@[h as int].tag,
{
    rt.slots[h].tag
}

/// Reinterprets the foreign payload as a fixed-size native representation.
/// Only meaningful after the caller has checked the type tag, which the
/// precondition demands.
pub fn extract_raw(rt: &Runtime, h: usize, expected: TypeTag) -> (p: i64)
    requires
        rt.wf(),
        live_at(rt@, h as int),
        rt@[h as int].tag == expected,
    ensures
        p == rt@[h as int].payload,
{
    rt.slots[h].payload
}

} // verus!
