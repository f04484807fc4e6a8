use nw_sys::options::OptionsExt;
use nw_sys::value::{Dict, Handle, Value};
use nw_sys::window::{
    CaptureConfig, EvalBinCall, EvalBinModuleCall, EvalCall, NWBinary, Options, PrintMargin,
    PrintOptions, ScreenshotConfig, Window, WindowPosition,
};

fn text(s: &str) -> Value {
    Value::Text(s.to_string())
}

fn dict(entries: Vec<(&str, Value)>) -> Dict {
    Dict { entries: entries.into_iter().map(|(k, v)| (k.to_string(), v)).collect() }
}

fn window() -> Window {
    Window { handle: Handle { id: 1 } }
}

#[test]
fn remove_menu_writes_null() {
    assert_eq!(window().remove_menu(), Value::Null);
}

#[test]
fn close_with_force_sets_the_flag() {
    assert!(window().close_with_force());
}

#[test]
fn positions_go_as_their_values() {
    assert_eq!(window().set_position(WindowPosition::Null), Value::Null);
    assert_eq!(window().set_position(WindowPosition::Center), text("center"));
    assert_eq!(window().set_position(WindowPosition::Mouse), text("mouse"));
}

#[test]
fn eval_picks_by_the_frame() {
    let frame = Handle { id: 8 };
    assert_eq!(
        window().eval(Some(frame), "1 + 1"),
        EvalCall::WithIframe { iframe: frame, script: "1 + 1".to_string() }
    );
    assert_eq!(
        window().eval(None, "1 + 1"),
        EvalCall::Plain { iframe: Value::Null, script: "1 + 1".to_string() }
    );
}

#[test]
fn eval_nw_bin_picks_by_the_frame_and_turns_the_script() {
    let frame = Handle { id: 8 };
    let buffer = Handle { id: 9 };
    assert_eq!(
        window().eval_nw_bin(Some(frame), NWBinary::Path("lib.bin".to_string())),
        EvalBinCall::WithIframe { iframe: frame, script: text("lib.bin") }
    );
    assert_eq!(
        window().eval_nw_bin(None, NWBinary::Path("lib.bin".to_string())),
        EvalBinCall::Plain { iframe: Value::Null, script: text("lib.bin") }
    );
    assert_eq!(
        window().eval_nw_bin(None, NWBinary::ArrayBuffer(buffer)),
        EvalBinCall::Plain { iframe: Value::Null, script: Value::Handle(buffer) }
    );
    assert_eq!(
        window().eval_nw_bin(Some(frame), NWBinary::ArrayBuffer(buffer)),
        EvalBinCall::WithIframe { iframe: frame, script: Value::Handle(buffer) }
    );
}

#[test]
fn eval_nw_bin_module_picks_by_the_frame() {
    let frame = Handle { id: 8 };
    let buffer = Handle { id: 9 };
    assert_eq!(
        window().eval_nw_bin_module(Some(frame), NWBinary::ArrayBuffer(buffer), "./lib.js"),
        EvalBinModuleCall::WithIframe {
            iframe: frame,
            script: Value::Handle(buffer),
            location: "./lib.js".to_string()
        }
    );
    assert_eq!(
        window().eval_nw_bin_module(None, NWBinary::Path("lib.bin".to_string()), "./lib.js"),
        EvalBinModuleCall::Plain {
            iframe: Value::Null,
            script: text("lib.bin"),
            location: "./lib.js".to_string()
        }
    );
}

#[test]
fn binaries_go_as_path_or_buffer() {
    assert_eq!(NWBinary::Path("p".to_string()).into_value(), text("p"));
    assert_eq!(NWBinary::ArrayBuffer(Handle { id: 3 }).into_value(), Value::Handle(Handle { id: 3 }));
}

#[test]
fn window_options_write_the_hosts_names() {
    let options = Options::new()
        .id("main")
        .title("Title")
        .width(800)
        .height(600)
        .left(10)
        .top(20)
        .new_instance(true)
        .mixed_context(false)
        .inject_js_start("start.js")
        .inject_js_end("end.js");
    let expected = dict(vec![
        ("id", text("main")),
        ("title", text("Title")),
        ("width", Value::from_u32(800)),
        ("height", Value::from_u32(600)),
        ("x", Value::from_u32(10)),
        ("y", Value::from_u32(20)),
        ("new_instance", Value::Bool(true)),
        ("mixed_context", Value::Bool(false)),
        ("inject_js_start", text("start.js")),
        ("inject_js_end", text("end.js")),
    ]);
    assert_eq!(options.into_dict(), expected);
}

#[test]
fn a_fresh_capture_asks_for_a_data_uri() {
    assert_eq!(CaptureConfig::new().into_dict(), dict(vec![("datatype", text("datauri"))]));
    let config = CaptureConfig::new().format("png").datatype("raw");
    assert_eq!(
        config.into_dict(),
        dict(vec![("datatype", text("raw")), ("format", text("png"))])
    );
}

#[test]
fn screenshot_options_write_the_hosts_names() {
    let config = ScreenshotConfig::new().fullsize(true).format("jpeg").quality(80);
    assert_eq!(
        config.into_dict(),
        dict(vec![
            ("fullsize", Value::Bool(true)),
            ("format", text("jpeg")),
            ("quality", Value::from_u32(80)),
        ])
    );
}

#[test]
fn clip_writes_a_region() {
    let config = ScreenshotConfig::new().clip(-5, 10, 300, 200, 2);
    let region = dict(vec![
        ("x", Value::from_i32(-5)),
        ("y", Value::from_i32(10)),
        ("width", Value::from_u32(300)),
        ("height", Value::from_u32(200)),
        ("scale", Value::from_u32(2)),
    ]);
    assert_eq!(config.into_dict(), dict(vec![("clip", Value::Dict(region))]));
}

#[test]
fn print_options_write_the_hosts_names() {
    let size = dict(vec![("name", text("A4"))]);
    let options = PrintOptions::new()
        .autoprint(true)
        .silent(true)
        .printer("office")
        .pdf_path("/tmp/out.pdf")
        .header_footer_enabled(false)
        .landscape(true)
        .media_size(size.clone())
        .should_print_backgrounds(true)
        .copies(2)
        .scale_factor(100)
        .header_string("head")
        .footer_string("foot");
    let expected = dict(vec![
        ("autoprint", Value::Bool(true)),
        ("silent", Value::Bool(true)),
        ("printer", text("office")),
        ("pdf_path", text("/tmp/out.pdf")),
        ("headerFooterEnabled", Value::Bool(false)),
        ("landscape", Value::Bool(true)),
        ("mediaSize", Value::Dict(size)),
        ("shouldPrintBackgrounds", Value::Bool(true)),
        ("copies", Value::from_u32(2)),
        ("scaleFactor", Value::from_u32(100)),
        ("headerString", text("head")),
        ("footerString", text("foot")),
    ]);
    assert_eq!(options.into_dict(), expected);
}

#[test]
fn plain_margins_write_their_number() {
    let cases = [(PrintMargin::Default, 0), (PrintMargin::NoMargins, 1), (PrintMargin::Minimum, 2)];
    for (margin, number) in cases {
        assert_eq!(margin.margins_type(), number as u8);
        let options = PrintOptions::new().margin(margin);
        assert_eq!(options.into_dict(), dict(vec![("marginsType", Value::from_u32(number))]));
    }
}

#[test]
fn custom_margins_write_each_side_and_the_number_three() {
    let margin = PrintMargin::Custom(Some(10), None, Some(30), Some(0));
    assert_eq!(margin.margins_type(), 3);
    let options = PrintOptions::new().margin(margin);
    let custom = dict(vec![
        ("marginLeft", Value::from_u32(10)),
        ("marginTop", Value::from_u32(0)),
        ("marginRight", Value::from_u32(30)),
        ("marginBottom", Value::from_u32(0)),
    ]);
    assert_eq!(
        options.into_dict(),
        dict(vec![("marginsCustom", Value::Dict(custom)), ("marginsType", Value::from_u32(3))])
    );
}

#[test]
fn margin_numbers_differ_from_kind_to_kind() {
    let all = [
        PrintMargin::Default,
        PrintMargin::NoMargins,
        PrintMargin::Minimum,
        PrintMargin::Custom(None, None, None, None),
    ];
    for (i, a) in all.iter().enumerate() {
        for (j, b) in all.iter().enumerate() {
            assert_eq!(a.margins_type() == b.margins_type(), i == j);
        }
    }
}
