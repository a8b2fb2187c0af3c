use intentional::Assert;

struct NonCopy;

#[test]
fn intentional() {
    let option = Some("string");
    let _: &str = Assert::assert_expected(option);
    let _: &str = Assert::assert_msg(option, "msg");
    let result = Ok::<_, ()>(NonCopy);
    let _: &NonCopy = Assert::assert_expected(&result);
    let _ = Assert::assert_expected(result);
    Assert::assert_expected(true);
}

#[test]
fn assert_expected_present_option() {
    let option: Option<u8> = Some(5);
    assert_eq!(option.assert_expected(), 5);
    let option: Option<String> = Some(String::from("payload"));
    assert_eq!(option.assert_expected(), "payload");
}

#[test]
fn assert_msg_present_option() {
    let option: Option<u8> = Some(200);
    assert_eq!(option.assert_msg("must hold a value"), 200);
}

#[test]
fn assert_expected_ok_result() {
    let result: Result<u8, String> = Ok(7);
    assert_eq!(result.assert_expected(), 7);
    let result: Result<String, u8> = Ok(String::from("payload"));
    assert_eq!(result.assert_msg("must be ok"), "payload");
}

#[test]
fn bool_assertions() {
    assert!(true.assert_expected());
    assert!(true.assert_msg("must be true"));
}

#[test]
fn reference_forms_leave_container_intact() {
    let option = Some(String::from("kept"));
    let borrowed = (&option).assert_expected();
    assert_eq!(borrowed, "kept");
    assert_eq!(option, Some(String::from("kept")));

    let result: Result<String, u8> = Ok(String::from("kept too"));
    let borrowed = (&result).assert_msg("must be ok");
    assert_eq!(borrowed, "kept too");
    assert_eq!(result, Ok(String::from("kept too")));
}

#[test]
fn mutable_reference_forms() {
    let mut option: Option<u8> = Some(5);
    let payload = (&mut option).assert_expected();
    *payload = 6;
    assert_eq!(option, Some(6));

    let mut result: Result<u8, String> = Ok(7);
    let payload = (&mut result).assert_msg("must be ok");
    assert_eq!(*payload, 7);
    assert_eq!(result, Ok(7));
}
