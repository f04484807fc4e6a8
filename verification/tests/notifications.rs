use nw_sys::chrome::notifications::{
    clear, create, update, Button, ClearCall, CreateCall, Item, Options, TemplateType, UpdateCall,
};
use nw_sys::options::OptionsExt;
use nw_sys::value::{Dict, Handle, Value};

fn text(s: &str) -> Value {
    Value::Text(s.to_string())
}

fn dict(entries: Vec<(&str, Value)>) -> Dict {
    Dict { entries: entries.into_iter().map(|(k, v)| (k.to_string(), v)).collect() }
}

#[test]
fn create_with_id_and_callback_takes_the_entry_point_for_both() {
    let options = Options::new().title("T");
    let callback = Handle { id: 7 };
    let call = create(Some("n1".to_string()), options.clone(), Some(callback));
    assert_eq!(call, CreateCall::WithIdAndCallback { id: "n1".to_string(), options, callback });
}

#[test]
fn create_with_id_alone_takes_the_entry_point_for_the_id() {
    let options = Options::new().title("T");
    let call = create(Some("n1".to_string()), options.clone(), None);
    assert_eq!(call, CreateCall::WithId { id: "n1".to_string(), options });
}

#[test]
fn create_with_callback_alone_takes_the_entry_point_for_the_callback() {
    let options = Options::new().title("T");
    let callback = Handle { id: 7 };
    let call = create(None, options.clone(), Some(callback));
    assert_eq!(call, CreateCall::WithCallback { options, callback });
}

#[test]
fn create_with_neither_takes_the_plain_entry_point() {
    let options = Options::new().title("T");
    let call = create(None, options.clone(), None);
    assert_eq!(call, CreateCall::Plain { options });
}

#[test]
fn create_takes_an_empty_id_as_an_id() {
    let call = create(Some(String::new()), Options::new(), None);
    assert_eq!(call, CreateCall::WithId { id: String::new(), options: Options::new() });
}

#[test]
fn clear_picks_by_the_callback() {
    let callback = Handle { id: 3 };
    assert_eq!(clear("n1", None), ClearCall::Plain { id: "n1".to_string() });
    assert_eq!(
        clear("n1", Some(callback)),
        ClearCall::WithCallback { id: "n1".to_string(), callback }
    );
}

#[test]
fn update_picks_by_the_callback() {
    let callback = Handle { id: 3 };
    let options = Options::new().message("M");
    assert_eq!(
        update("n1", options.clone(), None),
        UpdateCall::Plain { id: "n1".to_string(), options: options.clone() }
    );
    assert_eq!(
        update("n1", options.clone(), Some(callback)),
        UpdateCall::WithCallback { id: "n1".to_string(), options, callback }
    );
}

#[test]
fn template_types_have_names_and_words() {
    let all = [
        (TemplateType::Basic, "Basic", "basic"),
        (TemplateType::Image, "Image", "image"),
        (TemplateType::List, "List", "list"),
        (TemplateType::Progress, "Progress", "progress"),
    ];
    for (kind, name, word) in all {
        assert_eq!(kind.to_string(), name);
        assert_eq!(Value::from(kind), text(word));
        assert_eq!(name.to_lowercase(), word);
    }
}

#[test]
fn template_words_differ_and_are_not_empty() {
    let all =
        [TemplateType::Basic, TemplateType::Image, TemplateType::List, TemplateType::Progress];
    for (i, a) in all.iter().enumerate() {
        assert_ne!(Value::from(*a), text(""));
        for (j, b) in all.iter().enumerate() {
            if i != j {
                assert_ne!(Value::from(*a), Value::from(*b));
            }
        }
    }
}

#[test]
fn set_type_writes_the_word() {
    let options = Options::new().set_type(TemplateType::Progress);
    assert_eq!(options.into_dict(), dict(vec![("type", text("progress"))]));
}

#[test]
fn notification_setters_write_the_hosts_names() {
    let options = Options::new()
        .app_icon_mask_url("mask")
        .context_message("context")
        .event_time(1000)
        .icon_url("icon")
        .image_url("image")
        .message("message")
        .priority(-2)
        .progress(50)
        .require_interaction(true)
        .silent(false)
        .title("title");
    let expected = dict(vec![
        ("appIconMaskUrl", text("mask")),
        ("contextMessage", text("context")),
        ("eventTime", Value::from_u32(1000)),
        ("iconUrl", text("icon")),
        ("imageUrl", text("image")),
        ("message", text("message")),
        ("priority", Value::from_i32(-2)),
        ("progress", Value::from_u32(50)),
        ("requireInteraction", Value::Bool(true)),
        ("silent", Value::Bool(false)),
        ("title", text("title")),
    ]);
    assert_eq!(options.into_dict(), expected);
}

#[test]
fn priority_covers_its_whole_type() {
    for p in [i8::MIN, -2, -1, 0, 1, 2, i8::MAX] {
        let options = Options::new().priority(p);
        assert_eq!(options.as_dict().get("priority"), Some(&Value::from_i32(p as i32)));
    }
}

#[test]
fn buttons_go_as_a_list_of_dictionaries() {
    let one = Button::new().title("Button A").icon_url("/a.png");
    let two = Button::new().title("Button B");
    let options = Options::new().buttons(vec![one, two]);
    let expected = dict(vec![(
        "buttons",
        Value::List(vec![
            Value::Dict(dict(vec![("title", text("Button A")), ("iconUrl", text("/a.png"))])),
            Value::Dict(dict(vec![("title", text("Button B"))])),
        ]),
    )]);
    assert_eq!(options.into_dict(), expected);
}

#[test]
fn items_go_as_a_list_of_dictionaries() {
    let one = Item::new().title("Item A").message("Message A");
    let options = Options::new().items(vec![one]).items(vec![]);
    assert_eq!(options.into_dict(), dict(vec![("items", Value::List(vec![]))]));
    let one = Item::new().title("Item A").message("Message A");
    let options = Options::new().items(vec![one]);
    let expected = dict(vec![(
        "items",
        Value::List(vec![Value::Dict(dict(vec![
            ("title", text("Item A")),
            ("message", text("Message A")),
        ]))]),
    )]);
    assert_eq!(options.into_dict(), expected);
}
