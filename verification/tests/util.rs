use rays::util::if_then;

#[test]
fn if_then_runs_the_function_when_the_condition_holds() {
    assert_eq!(if_then(true, || Some(5)), Some(5));
    assert_eq!(if_then(true, || None::<u8>), None);
}

#[test]
fn if_then_gives_none_otherwise() {
    assert_eq!(if_then(false, || Some(5)), None);
}

#[test]
fn if_then_leaves_the_function_alone_otherwise() {
    let mut called = false;
    let r = if_then(false, || {
        called = true;
        Some(1)
    });
    assert_eq!(r, None);
    assert!(!called);
}
