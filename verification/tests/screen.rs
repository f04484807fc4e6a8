use nw_sys::error::Error;
use nw_sys::number::Number;
use nw_sys::screen::{
    choose_desktop_media, init_once, is_initialized, screens, Bounds, InitFlag, MediaSources,
    ScreenInfo, WorkArea,
};
use nw_sys::value::{Dict, Handle, Value};

fn text(s: &str) -> Value {
    Value::Text(s.to_string())
}

fn number(f: f64) -> Value {
    Value::Number(Number::from_bits(f.to_bits()))
}

fn bits(f: f64) -> Number {
    Number::from_bits(f.to_bits())
}

fn object(entries: Vec<(&str, Value)>) -> Value {
    Value::Dict(Dict { entries: entries.into_iter().map(|(k, v)| (k.to_string(), v)).collect() })
}

fn rectangle(x: f64, y: f64, width: f64, height: f64) -> Value {
    object(vec![
        ("x", number(x)),
        ("y", number(y)),
        ("width", number(width)),
        ("height", number(height)),
    ])
}

fn screen_fields() -> Vec<(&'static str, Value)> {
    vec![
        ("id", number(2528732444.0)),
        ("scaleFactor", number(1.5)),
        ("isBuiltIn", Value::Bool(true)),
        ("rotation", number(90.0)),
        ("touchSupport", number(0.0)),
        ("bounds", rectangle(-1920.0, 0.0, 1920.0, 1080.0)),
        ("work_area", rectangle(-1920.0, 25.5, 1920.0, 1040.0)),
    ]
}

fn without(name: &str) -> Value {
    object(screen_fields().into_iter().filter(|(k, _)| *k != name).collect())
}

fn with(name: &'static str, value: Value) -> Value {
    object(
        screen_fields()
            .into_iter()
            .map(|(k, v)| if k == name { (k, value.clone()) } else { (k, v) })
            .collect(),
    )
}

fn js_error(e: Error) -> String {
    match e {
        Error::JsValue(s) => s,
        other => panic!("{:?}", other),
    }
}

#[test]
fn a_full_record_is_decoded() {
    let info = ScreenInfo::try_from(object(screen_fields())).unwrap();
    let expected = ScreenInfo {
        id: 2528732444,
        scale_factor: bits(1.5),
        is_built_in: true,
        rotation: 90,
        touch_support: 0,
        bounds: Bounds { x: bits(-1920.0), y: bits(0.0), width: bits(1920.0), height: bits(1080.0) },
        work_area: WorkArea {
            x: bits(-1920.0),
            y: bits(25.5),
            width: bits(1920.0),
            height: bits(1040.0),
        },
    };
    assert_eq!(info, expected);
}

#[test]
fn a_record_without_scale_factor_is_refused_by_name() {
    let e = ScreenInfo::try_from(without("scaleFactor")).unwrap_err();
    assert!(e.message().contains("scaleFactor"));
    assert_eq!(
        js_error(e),
        "JsValue(\"try_get_f64(): error parsing property 'scaleFactor' with value 'JsValue(undefined)'\")"
    );
}

#[test]
fn each_missing_property_of_the_record_is_named() {
    for name in ["id", "scaleFactor", "isBuiltIn", "rotation", "touchSupport"] {
        let e = ScreenInfo::try_from(without(name)).unwrap_err();
        assert!(e.message().contains(name), "{}", name);
        assert!(String::from(e).contains(name), "{}", name);
    }
}

#[test]
fn each_property_of_the_wrong_kind_is_named() {
    for name in ["id", "scaleFactor", "rotation", "touchSupport"] {
        let e = ScreenInfo::try_from(with(name, text("x"))).unwrap_err();
        assert!(e.message().contains(name), "{}", name);
    }
    let e = ScreenInfo::try_from(with("isBuiltIn", number(1.0))).unwrap_err();
    assert_eq!(
        js_error(e),
        "JsValue(\"try_get_bool(): property isBuiltIn is missing or not a boolean\")"
    );
}

#[test]
fn the_first_property_that_fails_decides() {
    let broken = object(vec![("touchSupport", number(1.0))]);
    let e = ScreenInfo::try_from(broken).unwrap_err();
    assert_eq!(
        js_error(e),
        "JsValue(\"try_get_u64(): error parsing property 'id' with value 'JsValue(undefined)'\")"
    );
}

#[test]
fn a_rectangle_that_lacks_a_side_is_refused_by_the_side() {
    let bounds = object(vec![("x", number(0.0)), ("y", number(0.0)), ("width", number(1.0))]);
    let e = ScreenInfo::try_from(with("bounds", bounds)).unwrap_err();
    assert_eq!(
        js_error(e),
        "JsValue(\"try_get_f64(): error parsing property 'height' with value 'JsValue(undefined)'\")"
    );
}

#[test]
fn a_missing_rectangle_is_refused_as_no_object() {
    let e = ScreenInfo::try_from(without("work_area")).unwrap_err();
    assert_eq!(js_error(e), "JsValue(\"Reflect.get called on non-object\")");
}

#[test]
fn what_is_no_object_is_refused() {
    for value in [Value::Undefined, Value::Null, number(1.0), text("screen")] {
        let e = ScreenInfo::try_from(value).unwrap_err();
        assert_eq!(js_error(e), "JsValue(\"Reflect.get called on non-object\")");
    }
}

#[test]
fn numbers_of_the_record_are_cut_down() {
    let info = ScreenInfo::try_from(with("rotation", number(270.9))).unwrap();
    assert_eq!(info.rotation, 270);
    let info = ScreenInfo::try_from(with("id", number(-5.0))).unwrap();
    assert_eq!(info.id, 0);
}

#[test]
fn screens_decodes_each_display() {
    let array = vec![object(screen_fields()), with("id", number(7.0))];
    let list = screens(&array).unwrap();
    assert_eq!(list.len(), 2);
    assert_eq!(list[0].id, 2528732444);
    assert_eq!(list[1].id, 7);
    assert_eq!(screens(&Vec::new()).unwrap(), Vec::<ScreenInfo>::new());
}

#[test]
fn screens_ends_at_the_first_display_that_fails() {
    let array = vec![object(screen_fields()), without("rotation"), without("id")];
    let e = screens(&array).unwrap_err();
    assert_eq!(
        js_error(e),
        "JsValue(\"try_get_u64(): error parsing property 'rotation' with value 'JsValue(undefined)'\")"
    );
}

#[test]
fn the_service_is_started_once() {
    let mut flag = InitFlag::new();
    assert!(!is_initialized(&flag));
    let mut starts = 0;
    for call in 0..5 {
        if call == 1 {
            assert!(is_initialized(&flag));
        }
        if init_once(&mut flag) {
            starts += 1;
        }
        assert!(is_initialized(&flag));
    }
    assert_eq!(starts, 1);
}

#[test]
fn the_first_call_starts_the_service() {
    let mut flag = InitFlag::new();
    assert!(init_once(&mut flag));
    assert!(!init_once(&mut flag));
    let mut set = InitFlag { initialized: true };
    assert!(!init_once(&mut set));
    assert!(set.initialized);
}

#[test]
fn media_sources_go_as_their_words() {
    let callback = Handle { id: 5 };
    let call = choose_desktop_media(MediaSources::Screen, &callback).unwrap();
    assert_eq!(call.sources, Value::List(vec![text("screen")]));
    assert_eq!(call.callback, callback);
    let call = choose_desktop_media(MediaSources::Window, &callback).unwrap();
    assert_eq!(call.sources, Value::List(vec![text("window")]));
    let call = choose_desktop_media(MediaSources::ScreenAndWindow, &callback).unwrap();
    assert_eq!(call.sources, Value::List(vec![text("screen"), text("window")]));
}
