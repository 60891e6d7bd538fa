use sync_toolkit::add;

#[test]
fn it_works() {
    let result = add(2, 2);
    assert_eq!(result, 4);
}

#[test]
fn add_zero() {
    assert_eq!(add(0, 0), 0);
    assert_eq!(add(41, 1), 42);
}
