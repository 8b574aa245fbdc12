use error_remark::{build_context_message, Message, Remark, Render, ResultExt};

#[test]
fn display_is_message_then_inner() {
    let e = Result::<u8, _>::Err(String::from("disk full")).err_remark("saving file").unwrap_err();
    assert_eq!(e.to_string(), "saving file: disk full");
    assert_eq!(e.render(), "saving file: disk full");
}

#[test]
fn success_passes_through_fixed() {
    let r = Result::<u32, &str>::Ok(42).err_remark("never shown");
    assert_eq!(r.ok(), Some(42));
}

#[test]
fn success_passes_through_with_values() {
    let r = Result::<u32, &str>::Ok(9).err_remark_vars("never shown", &[format!("{:?}", 1)]);
    assert_eq!(r.ok(), Some(9));
}

#[test]
fn three_levels_of_stacking() {
    let a = Result::<(), _>::Err("root cause").err_remark("one").unwrap_err();
    let b = Result::<(), _>::Err(a).err_remark("two").unwrap_err();
    let c = Result::<(), _>::Err(b).err_remark_vars("three", &[format!("{:?}", 'x')]).unwrap_err();
    assert_eq!(c.to_string(), "three ('x'): two: one: root cause");
}

#[test]
fn empty_values_keep_parentheses() {
    let e = Result::<(), _>::Err("inner").err_remark_vars("ctx", &[]).unwrap_err();
    assert_eq!(e.to_string(), "ctx (): inner");
    assert_eq!(e.msg.as_str(), "ctx ()");
}

#[test]
fn single_value_has_no_separator() {
    assert_eq!(build_context_message("read", &[String::from("\"a.txt\"")]), "read (\"a.txt\")");
}

#[test]
fn values_joined_in_order() {
    let vars = vec![String::from("1"), String::from("2"), String::from("3")];
    assert_eq!(build_context_message("nums", &vars), "nums (1, 2, 3)");
}

#[test]
fn constructors_keep_error_and_message() {
    let fixed = Remark::new_str(5u8, "fixed");
    assert_eq!(fixed.error, 5);
    assert!(matches!(fixed.msg, Message::Fixed("fixed")));
    let built = Remark::new_string(6u8, String::from("built"));
    assert_eq!(*built, 6);
    assert_eq!(built.msg.as_str(), "built");
}

#[test]
fn deref_reaches_inner_fields() {
    let e = Result::<(), _>::Err(String::from("abc")).err_remark("hey").unwrap_err();
    assert_eq!(e.len(), 3);
}

#[test]
fn debug_compact_decimal() {
    let e = Result::<(), i32>::Err(-3).err_remark("neg").unwrap_err();
    assert_eq!(format!("{:?}", e), "{\"neg\": -3}");
}

#[test]
fn debug_of_stacked_remarks() {
    let a = Result::<(), _>::Err(255u8).err_remark("in").unwrap_err();
    let b = Result::<(), _>::Err(a).err_remark("out").unwrap_err();
    assert_eq!(format!("{:x?}", b), "{\"out\": {\"in\": ff}}");
}

#[test]
fn debug_escapes_message() {
    let e = Result::<(), u8>::Err(1).err_remark_vars("q", &[format!("{:?}", "s")]).unwrap_err();
    assert_eq!(format!("{:?}", e), "{\"q (\\\"s\\\")\": 1}");
}
