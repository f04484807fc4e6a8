//! Windows: the calls that take a decision before they reach the host, and the
//! option builders for opening, printing and capturing.

use crate::options::OptionsExt;
use crate::value::{whole, Datum, Dict, Handle, Value};
use vstd::prelude::*;
use vstd::string::*;

verus! {

/// A window of the host.
#[derive(Debug, Clone, Copy, PartialEq, Eq, Structural)]
pub struct Window {
    pub handle: Handle,
}

/// Where `set_position` puts a window.
#[derive(Debug, Clone, Copy, PartialEq, Eq, Structural)]
pub enum WindowPosition {
    Null,
    Center,
    Mouse,
}

/// A compiled script: the path of its file, or the buffer that holds it.
#[derive(Debug, Clone, PartialEq, Eq)]
pub enum NWBinary {
    Path(String),
    ArrayBuffer(Handle),
}

/// The margins of a printed page.
#[derive(Debug, Clone, Copy, PartialEq, Eq, Structural)]
pub enum PrintMargin {
    Default,
    NoMargins,
    Minimum,
    /// Left, top, right and bottom margin. One that is left out counts as zero.
    Custom(Option<u16>, Option<u16>, Option<u16>, Option<u16>),
}

/// The host call that runs a script.
#[derive(Debug, Clone, PartialEq, Eq)]
pub enum EvalCall {
    /// Run the script in the given frame.
    WithIframe { iframe: Handle, script: String },
    /// Run the script in the window itself: `iframe` is the value handed in
    /// place of a frame.
    Plain { iframe: Value, script: String },
}

/// The host call that loads and runs a compiled script.
#[derive(Debug, Clone, PartialEq, Eq)]
pub enum EvalBinCall {
    /// Run it in the given frame.
    WithIframe { iframe: Handle, script: Value },
    /// Run it in the window itself: `iframe` is the value handed in place of
    /// a frame.
    Plain { iframe: Value, script: Value },
}

/// The host call that loads and runs a compiled script as a module.
#[derive(Debug, Clone, PartialEq, Eq)]
pub enum EvalBinModuleCall {
    /// Run it in the given frame.
    WithIframe { iframe: Handle, script: Value, location: String },
    /// Run it in the window itself: `iframe` is the value handed in place of
    /// a frame.
    Plain { iframe: Value, script: Value, location: String },
}

impl WindowPosition {
    /// The value that the host takes for the position.
    pub open spec fn token(self) -> Datum {
        match self {
            WindowPosition::Null => Datum::Null,
            WindowPosition::Center => Datum::Text("center"@),
            WindowPosition::Mouse => Datum::Text("mouse"@),
        }
    }
}

impl NWBinary {
    /// The value that the host takes for the script.
    pub open spec fn token(self) -> Datum {
        match self {
            NWBinary::Path(path) => Datum::Text(path@),
            NWBinary::ArrayBuffer(buffer) => Datum::Handle(buffer),
        }
    }

    /// The value that the host takes for the script.
    pub fn into_value(self) -> (r: Value)
        ensures
            r@ == self.token(),
    {
        match self {
            NWBinary::Path(path) => Value::Text(path),
            NWBinary::ArrayBuffer(buffer) => Value::Handle(buffer),
        }
    }
}

impl PrintMargin {
    /// The number by which the host knows the kind of margin.
    pub open spec fn kind(self) -> int {
        match self {
            PrintMargin::Default => 0,
            PrintMargin::NoMargins => 1,
            PrintMargin::Minimum => 2,
            PrintMargin::Custom(_, _, _, _) => 3,
        }
    }

    /// The number by which the host knows the kind of margin.
    pub fn margins_type(&self) -> (r: u8)
        ensures
            r == self.kind(),
    {
        match self {
            PrintMargin::Default => 0,
            PrintMargin::NoMargins => 1,
            PrintMargin::Minimum => 2,
            PrintMargin::Custom(_, _, _, _) => 3,
        }
    }
}

/// A margin as the host counts it: zero where none was given.
pub open spec fn margin_or_zero(m: Option<u16>) -> int {
    match m {
        Some(v) => v as int,
        None => 0,
    }
}

/// The dictionary of the four custom margins.
pub open spec fn custom_margins(
    left: Option<u16>,
    top: Option<u16>,
    right: Option<u16>,
    bottom: Option<u16>,
) -> Map<Seq<char>, Datum> {
    Map::<Seq<char>, Datum>::empty().insert("marginLeft"@, whole(margin_or_zero(left))).insert(
        "marginTop"@,
        whole(margin_or_zero(top)),
    ).insert("marginRight"@, whole(margin_or_zero(right))).insert(
        "marginBottom"@,
        whole(margin_or_zero(bottom)),
    )
}

/// The dictionary of a region of the page.
pub open spec fn clip_region(x: i32, y: i32, width: u32, height: u32, scale: u32) -> Map<
    Seq<char>,
    Datum,
> {
    Map::<Seq<char>, Datum>::empty().insert("x"@, whole(x as int)).insert(
        "y"@,
        whole(y as int),
    ).insert("width"@, whole(width as int)).insert("height"@, whole(height as int)).insert(
        "scale"@,
        whole(scale as int),
    )
}

/// The number that a margin counts as, as a value.
fn margin_value(m: Option<u16>) -> (r: Value)
    ensures
        r@ == whole(margin_or_zero(m)),
{
    match m {
        Some(v) => Value::from_u32(v as u32),
        None => Value::from_u32(0),
    }
}

impl Window {
    /// The value to write to the window's menu so that the window has none.
    pub fn remove_menu(&self) -> (r: Value)
        ensures
            r@ == Datum::Null,
    {
        Value::Null
    }

    /// The flag to close the window with so that it closes without asking:
    /// always set.
    pub fn close_with_force(&self) -> (r: bool)
        ensures
            r,
    {
        true
    }

    /// The value to hand to the host for a position.
    pub fn set_position(&self, position: WindowPosition) -> (r: Value)
        ensures
            r@ == position.token(),
    {
        match position {
            WindowPosition::Null => Value::Null,
            WindowPosition::Center => Value::text("center"),
            WindowPosition::Mouse => Value::text("mouse"),
        }
    }

    /// Picks the host call that runs `script`: in the frame where one is
    /// given, else in the window itself, with `null` in the frame's place.
    pub fn eval(&self, iframe: Option<Handle>, script: &str) -> (r: EvalCall)
        ensures
            match iframe {
                Some(frame) => r matches EvalCall::WithIframe { iframe: f, script: s } && f
                    == frame && s@ == script@,
                None => r matches EvalCall::Plain { iframe: f, script: s } && f@ == Datum::Null
                    && s@ == script@,
            },
    {
        match iframe {
            Some(frame) => EvalCall::WithIframe { iframe: frame, script: String::from_str(script) },
            None => EvalCall::Plain { iframe: Value::Null, script: String::from_str(script) },
        }
    }

    /// Picks the host call that loads and runs a compiled script: in the frame
    /// where one is given, else in the window itself, with `null` in the
    /// frame's place. The script goes as its path or as its buffer.
    pub fn eval_nw_bin(&self, iframe: Option<Handle>, script: NWBinary) -> (r: EvalBinCall)
        ensures
            match iframe {
                Some(frame) => r matches EvalBinCall::WithIframe { iframe: f, script: s } && f
                    == frame && s@ == script.token(),
                None => r matches EvalBinCall::Plain { iframe: f, script: s } && f@ == Datum::Null
                    && s@ == script.token(),
            },
    {
        let script = script.into_value();
        match iframe {
            Some(frame) => EvalBinCall::WithIframe { iframe: frame, script },
            None => EvalBinCall::Plain { iframe: Value::Null, script },
        }
    }

    /// Picks the host call that loads and runs a compiled script as a module
    /// under `location`: in the frame where one is given, else in the
    /// window itself, with `null` in the frame's place.
    pub fn eval_nw_bin_module(
        &self,
        iframe: Option<Handle>,
        script: NWBinary,
        location: &str,
    ) -> (r: EvalBinModuleCall)
        ensures
            match iframe {
                Some(frame) => r matches EvalBinModuleCall::WithIframe {
                    iframe: f,
                    script: s,
                    location: p,
                } && f == frame && s@ == script.token() && p@ == location@,
                None => r matches EvalBinModuleCall::Plain {
                    iframe: f,
                    script: s,
                    location: p,
                } && f@ == Datum::Null && s@ == script.token() && p@ == location@,
            },
    {
        let script = script.into_value();
        let location = String::from_str(location);
        match iframe {
            Some(frame) => EvalBinModuleCall::WithIframe { iframe: frame, script, location },
            None => EvalBinModuleCall::Plain { iframe: Value::Null, script, location },
        }
    }
}

/// The options with which a window is opened.
#[derive(Debug, Clone, PartialEq, Eq)]
pub struct Options {
    dict: Dict,
}

impl View for Options {
    type V = Map<Seq<char>, Datum>;

    closed spec fn view(&self) -> Map<Seq<char>, Datum> {
        self.dict@
    }
}

impl OptionsExt for Options {
    open spec fn fields(&self) -> Map<Seq<char>, Datum> {
        self@
    }

    open spec fn initialized(fields: Map<Seq<char>, Datum>) -> Map<Seq<char>, Datum> {
        fields
    }

    fn from_dict(dict: Dict) -> (r: Self) {
        Options { dict }
    }

    fn into_dict(self) -> (r: Dict) {
        self.dict
    }

    fn as_dict(&self) -> (r: &Dict) {
        &self.dict
    }

    fn initialize(self) -> (r: Self) {
        self
    }
}

impl Options {
    /// The name under which the host remembers the size and place of the window.
    pub fn id(self, id: &str) -> (r: Self)
        ensures
            r@ == self@.insert("id"@, Datum::Text(id@)),
    {
        proof {
            reveal_strlit("id");
        }
        self.set("id", Value::text(id))
    }

    /// The title that the window starts with.
    pub fn title(self, title: &str) -> (r: Self)
        ensures
            r@ == self@.insert("title"@, Datum::Text(title@)),
    {
        proof {
            reveal_strlit("title");
        }
        self.set("title", Value::text(title))
    }

    /// The inner width that the window starts with.
    pub fn width(self, width: u32) -> (r: Self)
        ensures
            r@ == self@.insert("width"@, whole(width as int)),
    {
        proof {
            reveal_strlit("width");
        }
        self.set("width", Value::from_u32(width))
    }

    /// The inner height that the window starts with.
    pub fn height(self, height: u32) -> (r: Self)
        ensures
            r@ == self@.insert("height"@, whole(height as int)),
    {
        proof {
            reveal_strlit("height");
        }
        self.set("height", Value::from_u32(height))
    }

    /// The distance from the left edge of the screen, written as `x`.
    pub fn left(self, left: u32) -> (r: Self)
        ensures
            r@ == self@.insert("x"@, whole(left as int)),
    {
        proof {
            reveal_strlit("x");
        }
        self.set("x", Value::from_u32(left))
    }

    /// The distance from the top edge of the screen, written as `y`.
    pub fn top(self, top: u32) -> (r: Self)
        ensures
            r@ == self@.insert("y"@, whole(top as int)),
    {
        proof {
            reveal_strlit("y");
        }
        self.set("y", Value::from_u32(top))
    }

    /// Whether the window gets a render process of its own.
    pub fn new_instance(self, value: bool) -> (r: Self)
        ensures
            r@ == self@.insert("new_instance"@, Datum::Bool(value)),
    {
        proof {
            reveal_strlit("new_instance");
        }
        self.set("new_instance", Value::Bool(value))
    }

    /// Whether the window shares one context between Node and the page.
    pub fn mixed_context(self, value: bool) -> (r: Self)
        ensures
            r@ == self@.insert("mixed_context"@, Datum::Bool(value)),
    {
        proof {
            reveal_strlit("mixed_context");
        }
        self.set("mixed_context", Value::Bool(value))
    }

    /// The script to run before the page is built.
    pub fn inject_js_start(self, js: &str) -> (r: Self)
        ensures
            r@ == self@.insert("inject_js_start"@, Datum::Text(js@)),
    {
        proof {
            reveal_strlit("inject_js_start");
        }
        self.set("inject_js_start", Value::text(js))
    }

    /// The script to run once the page is loaded.
    pub fn inject_js_end(self, js: &str) -> (r: Self)
        ensures
            r@ == self@.insert("inject_js_end"@, Datum::Text(js@)),
    {
        proof {
            reveal_strlit("inject_js_end");
        }
        self.set("inject_js_end", Value::text(js))
    }
}

/// How a page is captured. A fresh one asks for a data URI.
#[derive(Debug, Clone, PartialEq, Eq)]
pub struct CaptureConfig {
    dict: Dict,
}

impl View for CaptureConfig {
    type V = Map<Seq<char>, Datum>;

    closed spec fn view(&self) -> Map<Seq<char>, Datum> {
        self.dict@
    }
}

impl OptionsExt for CaptureConfig {
    open spec fn fields(&self) -> Map<Seq<char>, Datum> {
        self@
    }

    open spec fn initialized(fields: Map<Seq<char>, Datum>) -> Map<Seq<char>, Datum> {
        fields.insert("datatype"@, Datum::Text("datauri"@))
    }

    fn from_dict(dict: Dict) -> (r: Self) {
        CaptureConfig { dict }
    }

    fn into_dict(self) -> (r: Dict) {
        self.dict
    }

    fn as_dict(&self) -> (r: &Dict) {
        &self.dict
    }

    fn initialize(self) -> (r: Self) {
        self.datatype("datauri")
    }
}

impl CaptureConfig {
    /// The format of the image: `png` or `jpeg`.
    pub fn format(self, format: &str) -> (r: Self)
        ensures
            r@ == self@.insert("format"@, Datum::Text(format@)),
    {
        proof {
            reveal_strlit("format");
        }
        self.set("format", Value::text(format))
    }

    /// The form in which the image comes back: `raw`, `buffer` or `datauri`.
    pub fn datatype(self, datatype: &str) -> (r: Self)
        ensures
            r@ == self@.insert("datatype"@, Datum::Text(datatype@)),
    {
        proof {
            reveal_strlit("datatype");
        }
        self.set("datatype", Value::text(datatype))
    }
}

/// How a screenshot is taken.
#[derive(Debug, Clone, PartialEq, Eq)]
pub struct ScreenshotConfig {
    dict: Dict,
}

impl View for ScreenshotConfig {
    type V = Map<Seq<char>, Datum>;

    closed spec fn view(&self) -> Map<Seq<char>, Datum> {
        self.dict@
    }
}

impl OptionsExt for ScreenshotConfig {
    open spec fn fields(&self) -> Map<Seq<char>, Datum> {
        self@
    }

    open spec fn initialized(fields: Map<Seq<char>, Datum>) -> Map<Seq<char>, Datum> {
        fields
    }

    fn from_dict(dict: Dict) -> (r: Self) {
        ScreenshotConfig { dict }
    }

    fn into_dict(self) -> (r: Dict) {
        self.dict
    }

    fn as_dict(&self) -> (r: &Dict) {
        &self.dict
    }

    fn initialize(self) -> (r: Self) {
        self
    }
}

impl ScreenshotConfig {
    /// Whether to take the whole page, beyond what is visible.
    pub fn fullsize(self, fullsize: bool) -> (r: Self)
        ensures
            r@ == self@.insert("fullsize"@, Datum::Bool(fullsize)),
    {
        proof {
            reveal_strlit("fullsize");
        }
        self.set("fullsize", Value::Bool(fullsize))
    }

    /// The format of the image: `png` or `jpeg`.
    pub fn format(self, format: &str) -> (r: Self)
        ensures
            r@ == self@.insert("format"@, Datum::Text(format@)),
    {
        proof {
            reveal_strlit("format");
        }
        self.set("format", Value::text(format))
    }

    /// The quality of a `jpeg`, from 0 to 100.
    pub fn quality(self, quality: u8) -> (r: Self)
        ensures
            r@ == self@.insert("quality"@, whole(quality as int)),
    {
        proof {
            reveal_strlit("quality");
        }
        self.set("quality", Value::from_u32(quality as u32))
    }

    /// The region of the page to take, in place of the whole of it.
    pub fn clip(self, x: i32, y: i32, width: u32, height: u32, scale: u32) -> (r: Self)
        ensures
            r@ == self@.insert("clip"@, Datum::Dict(clip_region(x, y, width, height, scale))),
    {
        let mut region = Dict::new();
        region.insert(String::from_str("x"), Value::from_i32(x));
        region.insert(String::from_str("y"), Value::from_i32(y));
        region.insert(String::from_str("width"), Value::from_u32(width));
        region.insert(String::from_str("height"), Value::from_u32(height));
        region.insert(String::from_str("scale"), Value::from_u32(scale));
        proof {
            reveal_strlit("clip");
        }
        self.set("clip", Value::Dict(region))
    }
}

/// How a page is printed.
#[derive(Debug, Clone, PartialEq, Eq)]
pub struct PrintOptions {
    dict: Dict,
}

impl View for PrintOptions {
    type V = Map<Seq<char>, Datum>;

    closed spec fn view(&self) -> Map<Seq<char>, Datum> {
        self.dict@
    }
}

impl OptionsExt for PrintOptions {
    open spec fn fields(&self) -> Map<Seq<char>, Datum> {
        self@
    }

    open spec fn initialized(fields: Map<Seq<char>, Datum>) -> Map<Seq<char>, Datum> {
        fields
    }

    fn from_dict(dict: Dict) -> (r: Self) {
        PrintOptions { dict }
    }

    fn into_dict(self) -> (r: Dict) {
        self.dict
    }

    fn as_dict(&self) -> (r: &Dict) {
        &self.dict
    }

    fn initialize(self) -> (r: Self) {
        self
    }
}

impl PrintOptions {
    /// Whether to print without asking the user.
    pub fn autoprint(self, autoprint: bool) -> (r: Self)
        ensures
            r@ == self@.insert("autoprint"@, Datum::Bool(autoprint)),
    {
        proof {
            reveal_strlit("autoprint");
        }
        self.set("autoprint", Value::Bool(autoprint))
    }

    /// Whether to hide the preview dialog.
    pub fn silent(self, silent: bool) -> (r: Self)
        ensures
            r@ == self@.insert("silent"@, Datum::Bool(silent)),
    {
        proof {
            reveal_strlit("silent");
        }
        self.set("silent", Value::Bool(silent))
    }

    /// The device name of the printer.
    pub fn printer(self, printer: &str) -> (r: Self)
        ensures
            r@ == self@.insert("printer"@, Datum::Text(printer@)),
    {
        proof {
            reveal_strlit("printer");
        }
        self.set("printer", Value::text(printer))
    }

    /// The file to print to, where the page goes to PDF.
    pub fn pdf_path(self, pdf_path: &str) -> (r: Self)
        ensures
            r@ == self@.insert("pdf_path"@, Datum::Text(pdf_path@)),
    {
        proof {
            reveal_strlit("pdf_path");
        }
        self.set("pdf_path", Value::text(pdf_path))
    }

    /// Whether the page gets a header and a footer.
    pub fn header_footer_enabled(self, header_footer_enabled: bool) -> (r: Self)
        ensures
            r@ == self@.insert("headerFooterEnabled"@, Datum::Bool(header_footer_enabled)),
    {
        proof {
            reveal_strlit("headerFooterEnabled");
        }
        self.set("headerFooterEnabled", Value::Bool(header_footer_enabled))
    }

    /// Whether the page lies on its side.
    pub fn landscape(self, landscape: bool) -> (r: Self)
        ensures
            r@ == self@.insert("landscape"@, Datum::Bool(landscape)),
    {
        proof {
            reveal_strlit("landscape");
        }
        self.set("landscape", Value::Bool(landscape))
    }

    /// The size of the paper.
    pub fn media_size(self, media_size: Dict) -> (r: Self)
        ensures
            r@ == self@.insert("mediaSize"@, Datum::Dict(media_size@)),
    {
        proof {
            reveal_strlit("mediaSize");
        }
        self.set("mediaSize", Value::Dict(media_size))
    }

    /// Whether backgrounds are printed.
    pub fn should_print_backgrounds(self, should_print_backgrounds: bool) -> (r: Self)
        ensures
            r@ == self@.insert("shouldPrintBackgrounds"@, Datum::Bool(should_print_backgrounds)),
    {
        proof {
            reveal_strlit("shouldPrintBackgrounds");
        }
        self.set("shouldPrintBackgrounds", Value::Bool(should_print_backgrounds))
    }

    /// How many copies to print.
    pub fn copies(self, copies: u8) -> (r: Self)
        ensures
            r@ == self@.insert("copies"@, whole(copies as int)),
    {
        proof {
            reveal_strlit("copies");
        }
        self.set("copies", Value::from_u32(copies as u32))
    }

    /// The scale in percent.
    pub fn scale_factor(self, scale_factor: u8) -> (r: Self)
        ensures
            r@ == self@.insert("scaleFactor"@, whole(scale_factor as int)),
    {
        proof {
            reveal_strlit("scaleFactor");
        }
        self.set("scaleFactor", Value::from_u32(scale_factor as u32))
    }

    /// The text that stands in the header in place of the address.
    pub fn header_string(self, header_string: &str) -> (r: Self)
        ensures
            r@ == self@.insert("headerString"@, Datum::Text(header_string@)),
    {
        proof {
            reveal_strlit("headerString");
        }
        self.set("headerString", Value::text(header_string))
    }

    /// The text that stands in the footer in place of the address.
    pub fn footer_string(self, footer_string: &str) -> (r: Self)
        ensures
            r@ == self@.insert("footerString"@, Datum::Text(footer_string@)),
    {
        proof {
            reveal_strlit("footerString");
        }
        self.set("footerString", Value::text(footer_string))
    }

    /// The margins of the page. The kind goes under `marginsType` as its
    /// number; custom margins go under `marginsCustom` first, each side that
    /// was left out as zero.
    pub fn margin(self, margin: PrintMargin) -> (r: Self)
        ensures
            r@ == match margin {
                PrintMargin::Custom(left, top, right, bottom) => self@.insert(
                    "marginsCustom"@,
                    Datum::Dict(custom_margins(left, top, right, bottom)),
                ).insert("marginsType"@, whole(3)),
                _ => self@.insert("marginsType"@, whole(margin.kind())),
            },
    {
        let kind = margin.margins_type();
        proof {
            reveal_strlit("marginsCustom");
            reveal_strlit("marginsType");
        }
        let with_custom = match margin {
            PrintMargin::Custom(left, top, right, bottom) => {
                let mut custom = Dict::new();
                custom.insert(String::from_str("marginLeft"), margin_value(left));
                custom.insert(String::from_str("marginTop"), margin_value(top));
                custom.insert(String::from_str("marginRight"), margin_value(right));
                custom.insert(String::from_str("marginBottom"), margin_value(bottom));
                self.set("marginsCustom", Value::Dict(custom))
            },
            _ => self,
        };
        with_custom.set("marginsType", Value::from_u32(kind as u32))
    }
}

/// The values for different positions differ, and so do the numbers for
/// different kinds of margin.
pub proof fn lemma_tokens_distinct(
    a: WindowPosition,
    b: WindowPosition,
    m: PrintMargin,
    n: PrintMargin,
)
    ensures
        a != b ==> a.token() != b.token(),
        a.token() matches Datum::Text(word) ==> word.len() > 0,
        0 <= m.kind() <= 3,
        m.kind() == n.kind() <==> (m is Default && n is Default) || (m is NoMargins && n
            is NoMargins) || (m is Minimum && n is Minimum) || (m is Custom && n is Custom),
{
    reveal_strlit("center");
    reveal_strlit("mouse");
    assert("center"@[0] != "mouse"@[0]);
}

} // verus!
