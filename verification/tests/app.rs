use nw_sys::app::{argv, build_argv_filters, build_argv_str, filtered_argv, full_argv};
use nw_sys::value::{Handle, Value};

fn text(s: &str) -> Value {
    Value::Text(s.to_string())
}

#[test]
fn arguments_that_are_no_text_are_passed_over() {
    let raw = vec![text("--flag"), Value::from_u32(42), text("--other")];
    let list = build_argv_str(&raw).unwrap();
    assert_eq!(list, vec!["--flag".to_string(), "--other".to_string()]);
}

#[test]
fn arguments_keep_their_order_and_repeats() {
    let raw = vec![text("b"), text("a"), text("b"), text("")];
    assert_eq!(build_argv_str(&raw).unwrap(), vec!["b", "a", "b", ""]);
}

#[test]
fn no_arguments_give_an_empty_list() {
    assert_eq!(build_argv_str(&Vec::new()).unwrap(), Vec::<String>::new());
}

#[test]
fn a_list_without_texts_gives_an_empty_list() {
    let raw = vec![
        Value::Undefined,
        Value::Null,
        Value::Bool(true),
        Value::from_u32(1),
        Value::List(vec![text("inner")]),
        Value::Handle(Handle { id: 1 }),
    ];
    assert_eq!(build_argv_str(&raw).unwrap(), Vec::<String>::new());
}

#[test]
fn argv_and_full_argv_collect_texts() {
    let raw = vec![text("app"), Value::Null, text("--nwapp=x")];
    assert_eq!(argv(&raw).unwrap(), vec!["app", "--nwapp=x"]);
    assert_eq!(full_argv(&raw).unwrap(), vec!["app", "--nwapp=x"]);
}

#[test]
fn filters_pass_each_item_on() {
    let raw = vec![Value::Handle(Handle { id: 1 }), text("^--url="), Value::Null];
    assert_eq!(build_argv_filters(&raw).unwrap(), raw);
    assert_eq!(filtered_argv(&raw).unwrap(), raw);
    assert_eq!(filtered_argv(&Vec::new()).unwrap(), Vec::<Value>::new());
}
