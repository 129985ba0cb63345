use morphisms::compose;
use morphisms::id;

#[test]
fn identity_test_identity_preserves_value() {
    assert_eq!(id(42), 42);
    assert_eq!(id("hello"), "hello");
    assert_eq!(id(vec![1, 2, 3]), vec![1, 2, 3]);
    assert_eq!(id(true), true);
    assert_eq!(id(3.14), 3.14);
}

#[test]
fn identity_test_left_identity_law() {
    let f = |x: i32| x * 2;
    let composed = compose(id, f);

    for x in -10..10 {
        assert_eq!(composed(x), f(x));
    }
}

#[test]
fn identity_test_right_identity_law() {
    let f = |x: i32| x + 10;
    let composed = compose(f, id);

    for x in -10..10 {
        assert_eq!(composed(x), f(x));
    }
}

#[test]
fn identity_test_identity_composition() {
    // id ∘ id = id
    let double_id = compose(id::<i32>, id::<i32>);

    for x in -10..10 {
        assert_eq!(double_id(x), id(x));
        assert_eq!(double_id(x), x);
    }
}

#[test]
fn identity_preserves_owned_values() {
    // `id` returns an owned, non-copyable value without duplicating it.
    let v = vec![String::from("a"), String::from("b")];
    let w = id(v);
    assert_eq!(w.len(), 2);
    assert_eq!(w[0], "a");
    assert_eq!(w[1], "b");
}

#[test]
fn identity_applied_to_function_output() {
    // `id(f(x)) == f(x)` for a sample of functions and inputs.
    let f = |x: i32| x * x - 7;
    for x in -10..10 {
        assert_eq!(id(f(x)), f(x));
    }
    let g = |s: &str| s.len();
    assert_eq!(id(g("hello")), g("hello"));
}
