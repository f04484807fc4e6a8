use nw_sys::number::Number;
use nw_sys::options::OptionsExt;
use nw_sys::utils::{
    try_get_bool_from_prop, try_get_f64_from_prop, try_get_js_value, try_get_u64_from_prop,
};
use nw_sys::value::{Dict, Value};

fn text(s: &str) -> Value {
    Value::Text(s.to_string())
}

fn number(f: f64) -> Value {
    Value::Number(Number::from_bits(f.to_bits()))
}

fn object(entries: Vec<(&str, Value)>) -> Value {
    Value::Dict(Dict { entries: entries.into_iter().map(|(k, v)| (k.to_string(), v)).collect() })
}

#[test]
fn u64_is_read_from_a_number() {
    let o = object(vec![("id", number(17.0)), ("half", number(2.5)), ("minus", number(-3.0))]);
    assert_eq!(try_get_u64_from_prop(&o, "id"), Ok(17));
    assert_eq!(try_get_u64_from_prop(&o, "half"), Ok(2));
    assert_eq!(try_get_u64_from_prop(&o, "minus"), Ok(0));
}

#[test]
fn u64_from_what_is_missing_fails_with_the_name() {
    let o = object(vec![("id", number(17.0))]);
    assert_eq!(
        try_get_u64_from_prop(&o, "rotation"),
        Err(text("try_get_u64(): error parsing property 'rotation' with value 'JsValue(undefined)'"))
    );
}

#[test]
fn u64_from_what_is_no_number_fails_with_the_name_and_the_value() {
    let o = object(vec![("id", text("17")), ("flag", Value::Bool(true)), ("none", Value::Null)]);
    assert_eq!(
        try_get_u64_from_prop(&o, "id"),
        Err(text("try_get_u64(): error parsing property 'id' with value 'JsValue(\"17\")'"))
    );
    assert_eq!(
        try_get_u64_from_prop(&o, "flag"),
        Err(text("try_get_u64(): error parsing property 'flag' with value 'JsValue(true)'"))
    );
    assert_eq!(
        try_get_u64_from_prop(&o, "none"),
        Err(text("try_get_u64(): error parsing property 'none' with value 'JsValue(null)'"))
    );
}

#[test]
fn f64_is_read_from_a_number_as_it_is() {
    let o = object(vec![("scaleFactor", number(1.25)), ("nan", number(f64::NAN))]);
    assert_eq!(
        try_get_f64_from_prop(&o, "scaleFactor"),
        Ok(Number::from_bits(1.25f64.to_bits()))
    );
    assert_eq!(try_get_f64_from_prop(&o, "nan"), Ok(Number::from_bits(f64::NAN.to_bits())));
}

#[test]
fn f64_from_what_is_missing_fails_with_the_name() {
    let o = object(vec![]);
    assert_eq!(
        try_get_f64_from_prop(&o, "scaleFactor"),
        Err(text(
            "try_get_f64(): error parsing property 'scaleFactor' with value 'JsValue(undefined)'"
        ))
    );
}

#[test]
fn bool_is_read_from_a_boolean() {
    let o = object(vec![("isBuiltIn", Value::Bool(true)), ("off", Value::Bool(false))]);
    assert_eq!(try_get_bool_from_prop(&o, "isBuiltIn"), Ok(true));
    assert_eq!(try_get_bool_from_prop(&o, "off"), Ok(false));
}

#[test]
fn bool_from_anything_else_fails_with_the_name() {
    let o = object(vec![("isBuiltIn", number(1.0))]);
    assert_eq!(
        try_get_bool_from_prop(&o, "isBuiltIn"),
        Err(text("try_get_bool(): property isBuiltIn is missing or not a boolean"))
    );
    assert_eq!(
        try_get_bool_from_prop(&o, "other"),
        Err(text("try_get_bool(): property other is missing or not a boolean"))
    );
}

#[test]
fn reading_from_what_is_no_object_fails_as_the_host_does() {
    let failure = text("Reflect.get called on non-object");
    assert_eq!(try_get_u64_from_prop(&Value::Undefined, "id"), Err(failure.clone()));
    assert_eq!(try_get_f64_from_prop(&Value::Null, "x"), Err(failure.clone()));
    assert_eq!(try_get_bool_from_prop(&number(1.0), "b"), Err(failure.clone()));
    assert_eq!(try_get_js_value(&text("s"), "p"), Err(failure));
}

#[test]
fn a_value_is_read_as_it_is() {
    let inner = object(vec![("x", number(1.0))]);
    let o = object(vec![("bounds", inner.clone())]);
    assert_eq!(try_get_js_value(&o, "bounds"), Ok(inner));
    assert_eq!(try_get_js_value(&o, "missing"), Ok(Value::Undefined));
}

#[test]
fn what_a_setter_wrote_is_read_back() {
    let options = nw_sys::window::Options::new().width(800).height(600).title("T");
    let held = Value::Dict(options.into_dict());
    assert_eq!(try_get_u64_from_prop(&held, "width"), Ok(800));
    assert_eq!(try_get_u64_from_prop(&held, "height"), Ok(600));
    assert_eq!(try_get_f64_from_prop(&held, "width"), Ok(Number::from_bits(800f64.to_bits())));
    assert!(try_get_u64_from_prop(&held, "title").is_err());
}
