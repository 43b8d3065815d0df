use foreign_bridge::capi::{DispatchFailure, Method, Runtime, TypeTag};
use foreign_bridge::cast::CastError;
use foreign_bridge::variable::Value;
use foreign_bridge::Goo;

fn int_method(name: &str, arity: usize, payload: i64) -> Method {
    Method {
        name: name.to_owned(),
        arity,
        raises: false,
        result_tag: TypeTag::Int,
        result_payload: payload,
    }
}

#[test]
fn clone_then_release_original_first() {
    let mut rt = Runtime::new();
    assert_eq!(rt.live_objects(), 0);
    let v = Value::new(&mut rt);
    assert_eq!(rt.live_objects(), 1);
    let c = v.clone(&mut rt);
    assert_eq!(rt.live_objects(), 1);
    v.release(&mut rt);
    assert_eq!(rt.live_objects(), 1);
    c.release(&mut rt);
    assert_eq!(rt.live_objects(), 0);
}

#[test]
fn clone_then_release_clone_first() {
    let mut rt = Runtime::new();
    let v = Value::new(&mut rt);
    let c = v.clone(&mut rt);
    c.release(&mut rt);
    assert_eq!(rt.live_objects(), 1);
    v.release(&mut rt);
    assert_eq!(rt.live_objects(), 0);
}

#[test]
fn default_value_casts_to_zero_i32() {
    let mut rt = Runtime::new();
    let v = Value::new(&mut rt);
    assert_eq!(v.cast::<i32>(&rt), Ok(0));
    v.release(&mut rt);
}

#[test]
fn default_value_casts_to_zero_i64() {
    let mut rt = Runtime::new();
    let v = Value::new(&mut rt);
    assert_eq!(v.cast::<i64>(&rt), Ok(0));
    v.release(&mut rt);
}

#[test]
fn unknown_method_name_is_method_not_found() {
    let mut rt = Runtime::new();
    let v = Value::new(&mut rt);
    let args: Vec<Value> = Vec::new();
    let r = v.method(&mut rt, "no_such_method", &args);
    assert_eq!(r.err(), Some(DispatchFailure::MethodNotFound));
    v.release(&mut rt);
}

#[test]
fn wrong_arity_is_method_not_found() {
    let mut rt = Runtime::new();
    let methods = vec![int_method("get", 2, 5)];
    let v = Value::from_object(&mut rt, TypeTag::Int, 0, methods);
    let args: Vec<Value> = Vec::new();
    let r = v.method(&mut rt, "get", &args);
    assert_eq!(r.err(), Some(DispatchFailure::MethodNotFound));
    v.release(&mut rt);
}

#[test]
fn raising_method_is_foreign_error() {
    let mut rt = Runtime::new();
    let methods = vec![Method {
        name: "boom".to_owned(),
        arity: 0,
        raises: true,
        result_tag: TypeTag::Int,
        result_payload: 0,
    }];
    let v = Value::from_object(&mut rt, TypeTag::Int, 0, methods);
    let args: Vec<Value> = Vec::new();
    let r = v.method(&mut rt, "boom", &args);
    assert_eq!(r.err(), Some(DispatchFailure::ForeignError));
    v.release(&mut rt);
}

#[test]
fn mismatched_cast_reports_both_tags() {
    let mut rt = Runtime::new();
    let v = Value::from_object(&mut rt, TypeTag::Bool, 1, Vec::new());
    let r = v.cast::<i32>(&rt);
    assert_eq!(
        r,
        Err(CastError::TypeMismatch { expected: TypeTag::Int, actual: TypeTag::Bool })
    );
    v.release(&mut rt);
}

#[test]
fn mismatched_cast_of_text_value() {
    let mut rt = Runtime::new();
    let v = Value::from_object(&mut rt, TypeTag::Text, 0, Vec::new());
    let r = v.cast::<i64>(&rt);
    assert_eq!(
        r,
        Err(CastError::TypeMismatch { expected: TypeTag::Int, actual: TypeTag::Text })
    );
    v.release(&mut rt);
}

#[test]
fn method_result_round_trips_through_cast() {
    let mut rt = Runtime::new();
    let methods = vec![int_method("answer", 0, 42)];
    let v = Value::from_object(&mut rt, TypeTag::Text, 0, methods);
    let args: Vec<Value> = Vec::new();
    let res = v.method(&mut rt, "answer", &args).ok().unwrap();
    assert_eq!(res.cast::<i64>(&rt), Ok(42));
    assert_eq!(res.cast::<i32>(&rt), Ok(42));
    res.release(&mut rt);
    v.release(&mut rt);
    assert_eq!(rt.live_objects(), 0);
}

#[test]
fn negative_method_result_survives_the_cast() {
    let mut rt = Runtime::new();
    let methods = vec![int_method("neg", 0, -7)];
    let v = Value::from_object(&mut rt, TypeTag::Int, 0, methods);
    let args: Vec<Value> = Vec::new();
    let res = v.method(&mut rt, "neg", &args).ok().unwrap();
    assert_eq!(res.cast::<i64>(&rt), Ok(-7));
    assert_eq!(res.cast::<i32>(&rt), Ok(-7));
    res.release(&mut rt);
    v.release(&mut rt);
}

#[test]
fn method_arguments_stay_owned_by_the_caller() {
    let mut rt = Runtime::new();
    let methods = vec![int_method("add", 2, 3)];
    let v = Value::from_object(&mut rt, TypeTag::Int, 0, methods);
    let a = Value::new(&mut rt);
    let b = Value::new(&mut rt);
    let args = vec![a, b];
    let res = v.method(&mut rt, "add", &args).ok().unwrap();
    assert_eq!(res.cast::<i64>(&rt), Ok(3));
    // the caller still owns every argument after the call
    res.release(&mut rt);
    for arg in args {
        arg.release(&mut rt);
    }
    v.release(&mut rt);
    assert_eq!(rt.live_objects(), 0);
}

#[test]
fn first_matching_method_wins() {
    let mut rt = Runtime::new();
    let methods = vec![
        int_method("get", 1, 10),
        int_method("get", 0, 20),
        int_method("get", 0, 30),
    ];
    let v = Value::from_object(&mut rt, TypeTag::Int, 0, methods);
    let args: Vec<Value> = Vec::new();
    let res = v.method(&mut rt, "get", &args).ok().unwrap();
    assert_eq!(res.cast::<i64>(&rt), Ok(20));
    res.release(&mut rt);
    v.release(&mut rt);
}

#[test]
fn refcount_counter_returns_to_baseline_only_at_last_drop() {
    let mut rt = Runtime::new();
    let baseline = rt.live_objects();
    let v = Value::new(&mut rt);
    let n = 4;
    let mut clones = Vec::new();
    for _ in 0..n {
        clones.push(v.clone(&mut rt));
    }
    assert_eq!(rt.live_objects(), baseline + 1);
    v.release(&mut rt);
    for (i, c) in clones.into_iter().enumerate() {
        // not back at the baseline before the last of the n + 1 drops
        assert_eq!(rt.live_objects(), baseline + 1, "freed too early at drop {}", i + 1);
        c.release(&mut rt);
    }
    assert_eq!(rt.live_objects(), baseline);
}

#[test]
fn index_borrows_without_transferring_ownership() {
    let mut rt = Runtime::new();
    let methods = vec![int_method("size", 0, 3)];
    let v = Value::from_object(&mut rt, TypeTag::Text, 0, methods);
    let before = rt.live_objects();
    {
        let ix = v.index();
        assert_eq!(ix.tag(&rt), TypeTag::Text);
        let args: Vec<Value> = Vec::new();
        let res = ix.method(&mut rt, "size", &args).ok().unwrap();
        assert_eq!(res.cast::<i64>(&rt), Ok(3));
        res.release(&mut rt);
    }
    // the borrow never touched v's own reference
    assert_eq!(rt.live_objects(), before);
    v.release(&mut rt);
}

#[test]
fn goo_reads_its_x_attribute() {
    let mut rt = Runtime::new();
    let methods = vec![int_method(".x", 0, 7)];
    let v = Value::from_object(&mut rt, TypeTag::Text, 0, methods);
    let g = Goo::new(v);
    assert_eq!(g.x(&mut rt), 7);
    assert_eq!(g.x(&mut rt), 7);
}
