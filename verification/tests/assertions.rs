use ruskit::testing::assertions::Assertions;

struct TestStruct;

#[test]
fn test_assertions() {
    let test = TestStruct;

    // Test basic assertions
    test.assert_equals(2 + 2, 4)
        .assert_true(true)
        .assert_false(false);

    // Test option assertions
    let some_value: Option<i32> = Some(42);
    let none_value: Option<i32> = None;

    test.assert_some(some_value)
        .assert_none(none_value);

    // Test result assertions
    let ok_result: Result<i32, &str> = Ok(42);
    let err_result: Result<i32, &str> = Err("error");

    test.assert_ok(ok_result)
        .assert_err(err_result);

    // Test collection assertions
    let collection = vec![1, 2, 3];

    test.assert_count(&collection, 3)
        .assert_not_empty(&collection)
        .assert_contains(&collection, &2)
        .assert_not_contains(&collection, &4);

    let empty: Vec<i32> = vec![];
    test.assert_empty(&empty);
}
