use nw_sys::chrome::notifications::{Button, Options};
use nw_sys::options::{assign_key, into_values, split_dots, OptionsExt};
use nw_sys::value::{Dict, Value};

fn text(s: &str) -> Value {
    Value::Text(s.to_string())
}

fn dict(entries: Vec<(&str, Value)>) -> Dict {
    Dict { entries: entries.into_iter().map(|(k, v)| (k.to_string(), v)).collect() }
}

#[test]
fn split_dots_cuts_at_each_dot() {
    assert_eq!(split_dots("a.b.c"), vec!["a", "b", "c"]);
    assert_eq!(split_dots("title"), vec!["title"]);
    assert_eq!(split_dots(""), vec![""]);
    assert_eq!(split_dots("."), vec!["", ""]);
    assert_eq!(split_dots("a."), vec!["a", ""]);
    assert_eq!(split_dots(".a"), vec!["", "a"]);
    assert_eq!(split_dots("a..b"), vec!["a", "", "b"]);
    assert_eq!(split_dots("grüße.日本"), vec!["grüße", "日本"]);
}

#[test]
fn split_dots_agrees_with_std_split() {
    for key in ["", "a", "a.b", "..", "x.y.z.", "...a", "no dots at all", "é.é"] {
        let expected: Vec<String> = key.split('.').map(|s| s.to_string()).collect();
        assert_eq!(split_dots(key), expected, "{:?}", key);
    }
}

#[test]
fn a_fresh_builder_is_empty() {
    assert_eq!(Options::new().into_dict(), Dict::new());
    assert_eq!(Button::new().as_dict().len(), 0);
}

#[test]
fn a_setter_writes_one_field() {
    let button = Button::new().icon_url("/icon.png");
    assert_eq!(button.as_dict().get("iconUrl"), Some(&text("/icon.png")));
    assert_eq!(button.into_dict(), dict(vec![("iconUrl", text("/icon.png"))]));
}

#[test]
fn a_setter_called_again_replaces_the_field() {
    let options = Options::new().title("A").message("B").title("C");
    assert_eq!(
        options.into_dict(),
        dict(vec![("title", text("C")), ("message", text("B"))])
    );
}

#[test]
fn setters_on_different_fields_give_the_same_fields_in_either_order() {
    let one = Options::new().title("A").message("B");
    let other = Options::new().message("B").title("A");
    assert!(one.as_dict().same_fields(other.as_dict()));
    assert_eq!(one.as_dict().entries.len(), 2);
    for key in ["title", "message", "iconUrl", ""] {
        assert_eq!(one.as_dict().get(key), other.as_dict().get(key), "{}", key);
    }
    assert_eq!(one.as_dict().get("title"), Some(&text("A")));
    assert_eq!(one.as_dict().get("message"), Some(&text("B")));
    assert_eq!(one.as_dict().len(), 2);
    assert_eq!(other.as_dict().len(), 2);
}

#[test]
fn three_setters_give_the_same_fields_in_every_order() {
    let orders: [[usize; 3]; 6] =
        [[0, 1, 2], [0, 2, 1], [1, 0, 2], [1, 2, 0], [2, 0, 1], [2, 1, 0]];
    let first = Options::new().title("T").silent(true).progress(50);
    for order in orders {
        let mut options = Options::new();
        for step in order {
            options = match step {
                0 => options.title("T"),
                1 => options.silent(true),
                _ => options.progress(50),
            };
        }
        assert_eq!(options.as_dict().get("title"), Some(&text("T")));
        assert_eq!(options.as_dict().get("silent"), Some(&Value::Bool(true)));
        assert_eq!(options.as_dict().get("progress"), Some(&Value::from_u32(50)));
        assert_eq!(options.as_dict().len(), 3);
        assert!(options.as_dict().same_fields(first.as_dict()));
    }
}

#[test]
fn set_writes_under_a_plain_key() {
    let options = Options::new().set("anything", Value::Null);
    assert_eq!(options.into_dict(), dict(vec![("anything", Value::Null)]));
}

#[test]
fn set_with_a_dotted_key_makes_nested_dictionaries() {
    let options = Options::new().set("a.b.c", Value::from_u32(1));
    let expected = dict(vec![(
        "a",
        Value::Dict(dict(vec![("b", Value::Dict(dict(vec![("c", Value::from_u32(1))])))])),
    )]);
    assert_eq!(options.into_dict(), expected);
}

#[test]
fn set_with_a_dotted_key_goes_into_a_dictionary_that_is_there() {
    let options = Options::new()
        .set("a.b", Value::from_u32(1))
        .set("a.c", Value::from_u32(2))
        .set("a.b", Value::from_u32(3));
    let expected = dict(vec![(
        "a",
        Value::Dict(dict(vec![("b", Value::from_u32(3)), ("c", Value::from_u32(2))])),
    )]);
    assert_eq!(options.into_dict(), expected);
}

#[test]
fn set_with_a_dotted_key_replaces_what_is_no_dictionary() {
    for old in [Value::from_u32(5), Value::Null, Value::Undefined, text("x"), Value::List(vec![])] {
        let options = Options::new().set("a", old).set("a.b", Value::Bool(true));
        let expected = dict(vec![("a", Value::Dict(dict(vec![("b", Value::Bool(true))])))]);
        assert_eq!(options.into_dict(), expected);
    }
}

#[test]
fn set_with_a_plain_key_replaces_a_dictionary() {
    let options = Options::new().set("a.b", Value::Bool(true)).set("a", Value::Null);
    assert_eq!(options.into_dict(), dict(vec![("a", Value::Null)]));
}

#[test]
fn set_with_empty_pieces_uses_the_empty_name() {
    let options = Options::new().set("a.", Value::Bool(true));
    let expected = dict(vec![("a", Value::Dict(dict(vec![("", Value::Bool(true))])))]);
    assert_eq!(options.into_dict(), expected);
}

#[test]
fn dotted_writes_at_different_ends_give_the_same_fields_in_either_order() {
    let one = Options::new().set("a.b", Value::from_u32(1)).set("a.c", Value::from_u32(2));
    let other = Options::new().set("a.c", Value::from_u32(2)).set("a.b", Value::from_u32(1));
    let inner_one = match one.as_dict().get("a") {
        Some(Value::Dict(d)) => d.clone(),
        other => panic!("{:?}", other),
    };
    let inner_other = match other.as_dict().get("a") {
        Some(Value::Dict(d)) => d.clone(),
        other => panic!("{:?}", other),
    };
    for key in ["b", "c"] {
        assert_eq!(inner_one.get(key), inner_other.get(key));
    }
    assert!(one.as_dict().same_fields(other.as_dict()));
    assert_eq!(inner_one.len(), 2);
    assert_eq!(inner_other.len(), 2);
}

#[test]
fn assign_key_writes_into_a_dict() {
    let mut d = dict(vec![("x", Value::Null)]);
    assign_key(&mut d, "y.z", text("v"));
    assert_eq!(
        d,
        dict(vec![("x", Value::Null), ("y", Value::Dict(dict(vec![("z", text("v"))])))])
    );
}

#[test]
fn into_values_keeps_the_order() {
    let list = vec![Button::new().title("A"), Button::new().title("B"), Button::new()];
    assert_eq!(
        into_values(list),
        vec![
            Value::Dict(dict(vec![("title", text("A"))])),
            Value::Dict(dict(vec![("title", text("B"))])),
            Value::Dict(Dict::new()),
        ]
    );
    assert_eq!(into_values(Vec::<Button>::new()), Vec::<Value>::new());
}

#[test]
fn from_dict_and_into_dict_are_inverse() {
    let d = dict(vec![("title", text("A"))]);
    assert_eq!(Options::from_dict(d.clone()).into_dict(), d);
}
