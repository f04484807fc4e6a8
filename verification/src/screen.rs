//! Displays: decoding what the host tells of them, choosing what to capture,
//! and the flag that lets the host's screen service be started once.

use crate::error::{Error, ErrorView};
use crate::number::Number;
use crate::result::Result;
use crate::utils::{
    get_bool, get_f64, get_u64, holds, lemma_failure_names_property, lemma_holds_inside,
    try_get_bool_from_prop, try_get_f64_from_prop, try_get_js_value, try_get_u64_from_prop,
};
use crate::value::{debug_text, property_of, Datum, Handle, Value};
use vstd::prelude::*;
use vstd::std_specs::convert::TryFromSpecImpl;
use vstd::string::*;

verus! {

/// The place and size of a display among the displays. The place may lie
/// left of or above zero.
#[derive(Debug, Clone, Copy, PartialEq, Eq, Structural)]
pub struct Bounds {
    pub x: Number,
    pub y: Number,
    pub width: Number,
    pub height: Number,
}

/// The part of a display that windows may use.
#[derive(Debug, Clone, Copy, PartialEq, Eq, Structural)]
pub struct WorkArea {
    pub x: Number,
    pub y: Number,
    pub width: Number,
    pub height: Number,
}

/// What the host tells of one display.
#[derive(Debug, Clone, Copy, PartialEq, Eq, Structural)]
pub struct ScreenInfo {
    pub id: u64,
    pub scale_factor: Number,
    pub is_built_in: bool,
    pub rotation: u64,
    pub touch_support: u64,
    pub bounds: Bounds,
    pub work_area: WorkArea,
}

/// What may be offered to the user for capture.
#[derive(Debug, Clone, Copy, PartialEq, Eq, Structural)]
pub enum MediaSources {
    Screen,
    Window,
    ScreenAndWindow,
}

/// The host call that lets the user choose what to capture.
#[derive(Debug, PartialEq, Eq)]
pub struct DesktopMediaCall {
    /// The list of the kinds offered.
    pub sources: Value,
    /// The function that the host calls with the choice.
    pub callback: Handle,
}

/// Whether the host's screen service was started.
#[derive(Debug, Clone, Copy, PartialEq, Eq, Structural)]
pub struct InitFlag {
    pub initialized: bool,
}

/// Whether a failed step of this crate reports the failure `expected`, or a
/// successful one gives what `expected` holds. A failure is reported as the
/// thrown value shows.
pub open spec fn reports<T>(r: Result<T>, expected: std::result::Result<T, Datum>) -> bool {
    match r {
        Ok(v) => expected == Ok::<T, Datum>(v),
        Err(e) => expected is Err && e@ == ErrorView::JsValue(debug_text(expected->Err_0)),
    }
}

/// The four numbers of the rectangle under the property `prop`.
pub open spec fn decode_box(target: Datum, prop: Seq<char>) -> std::result::Result<
    (Number, Number, Number, Number),
    Datum,
> {
    match property_of(target, prop) {
        Err(e) => Err(e),
        Ok(inner) => match get_f64(inner, "x"@) {
            Err(e) => Err(e),
            Ok(x) => match get_f64(inner, "y"@) {
                Err(e) => Err(e),
                Ok(y) => match get_f64(inner, "width"@) {
                    Err(e) => Err(e),
                    Ok(width) => match get_f64(inner, "height"@) {
                        Err(e) => Err(e),
                        Ok(height) => Ok((x, y, width, height)),
                    },
                },
            },
        },
    }
}

/// The display that a value of the host describes. The properties are read in
/// a fixed order, and the first that cannot be read decides the failure.
pub open spec fn decode_screen(d: Datum) -> std::result::Result<ScreenInfo, Datum> {
    match get_u64(d, "id"@) {
        Err(e) => Err(e),
        Ok(id) => match get_f64(d, "scaleFactor"@) {
            Err(e) => Err(e),
            Ok(scale_factor) => match get_bool(d, "isBuiltIn"@) {
                Err(e) => Err(e),
                Ok(is_built_in) => match get_u64(d, "rotation"@) {
                    Err(e) => Err(e),
                    Ok(rotation) => match get_u64(d, "touchSupport"@) {
                        Err(e) => Err(e),
                        Ok(touch_support) => match decode_box(d, "bounds"@) {
                            Err(e) => Err(e),
                            Ok(b) => match decode_box(d, "work_area"@) {
                                Err(e) => Err(e),
                                Ok(w) => Ok(
                                    ScreenInfo {
                                        id,
                                        scale_factor,
                                        is_built_in,
                                        rotation,
                                        touch_support,
                                        bounds: Bounds { x: b.0, y: b.1, width: b.2, height: b.3 },
                                        work_area: WorkArea {
                                            x: w.0,
                                            y: w.1,
                                            width: w.2,
                                            height: w.3,
                                        },
                                    },
                                ),
                            },
                        },
                    },
                },
            },
        },
    }
}

/// The words by which the host knows the kinds offered, in their order.
pub open spec fn source_tokens(sources: MediaSources) -> Seq<Datum> {
    match sources {
        MediaSources::Screen => seq![Datum::Text("screen"@)],
        MediaSources::Window => seq![Datum::Text("window"@)],
        MediaSources::ScreenAndWindow => seq![Datum::Text("screen"@), Datum::Text("window"@)],
    }
}

impl InitFlag {
    /// The flag before anything was started.
    pub fn new() -> (r: InitFlag)
        ensures
            !r.initialized,
    {
        InitFlag { initialized: false }
    }

    /// The flag after one more call of [`init_once`].
    pub open spec fn after_call(self) -> InitFlag {
        InitFlag { initialized: true }
    }

    /// Whether one more call of [`init_once`] starts the service.
    pub open spec fn starts(self) -> bool {
        !self.initialized
    }

    /// The flag after `n` calls of [`init_once`].
    pub open spec fn after_calls(self, n: nat) -> InitFlag
        decreases n,
    {
        if n == 0 {
            self
        } else {
            self.after_calls((n - 1) as nat).after_call()
        }
    }

    /// How often `n` calls of [`init_once`] start the service.
    pub open spec fn starts_in(self, n: nat) -> nat
        decreases n,
    {
        if n == 0 {
            0
        } else {
            self.starts_in((n - 1) as nat) + if self.after_calls((n - 1) as nat).starts() {
                1nat
            } else {
                0nat
            }
        }
    }
}

/// Whether the screen service was started.
pub fn is_initialized(flag: &InitFlag) -> (r: bool)
    ensures
        r == flag.initialized,
{
    flag.initialized
}

/// Marks the screen service as started and says whether the caller has to
/// start it now: only where it was not marked before.
pub fn init_once(flag: &mut InitFlag) -> (start: bool)
    ensures
        start == old(flag).starts(),
        *final(flag) == old(flag).after_call(),
{
    if !is_initialized(flag) {
        flag.initialized = true;
        true
    } else {
        false
    }
}

/// Makes the host call that lets the user choose among the given kinds.
pub fn choose_desktop_media(sources: MediaSources, callback: &Handle) -> (r: Result<
    DesktopMediaCall,
>)
    ensures
        r matches Ok(call) && call.sources@ == Datum::List(source_tokens(sources))
            && call.callback == *callback,
{
    let mut array: Vec<Value> = Vec::new();
    match sources {
        MediaSources::Screen => {
            array.push(Value::text("screen"));
        },
        MediaSources::Window => {
            array.push(Value::text("window"));
        },
        MediaSources::ScreenAndWindow => {
            array.push(Value::text("screen"));
            array.push(Value::text("window"));
        },
    }
    assert(crate::value::items_of(array@) =~= source_tokens(sources));
    Ok(DesktopMediaCall { sources: Value::List(array), callback: *callback })
}

/// Reads the rectangle under the property `prop`.
fn read_box(jsv: &Value, prop: &str) -> (r: Result<(Number, Number, Number, Number)>)
    ensures
        reports(r, decode_box(jsv@, prop@)),
{
    let inner = match try_get_js_value(jsv, prop) {
        Ok(v) => v,
        Err(e) => { return Err(Error::from(e)); },
    };
    let x = match try_get_f64_from_prop(&inner, "x") {
        Ok(v) => v,
        Err(e) => { return Err(Error::from(e)); },
    };
    let y = match try_get_f64_from_prop(&inner, "y") {
        Ok(v) => v,
        Err(e) => { return Err(Error::from(e)); },
    };
    let width = match try_get_f64_from_prop(&inner, "width") {
        Ok(v) => v,
        Err(e) => { return Err(Error::from(e)); },
    };
    let height = match try_get_f64_from_prop(&inner, "height") {
        Ok(v) => v,
        Err(e) => { return Err(Error::from(e)); },
    };
    Ok((x, y, width, height))
}

impl TryFrom<Value> for ScreenInfo {
    type Error = Error;

    /// Decodes what the host tells of a display.
    fn try_from(jsv: Value) -> (r: Result<ScreenInfo>)
        ensures
            reports(r, decode_screen(jsv@)),
    {
        let id = match try_get_u64_from_prop(&jsv, "id") {
            Ok(v) => v,
            Err(e) => { return Err(Error::from(e)); },
        };
        let scale_factor = match try_get_f64_from_prop(&jsv, "scaleFactor") {
            Ok(v) => v,
            Err(e) => { return Err(Error::from(e)); },
        };
        let is_built_in = match try_get_bool_from_prop(&jsv, "isBuiltIn") {
            Ok(v) => v,
            Err(e) => { return Err(Error::from(e)); },
        };
        let rotation = match try_get_u64_from_prop(&jsv, "rotation") {
            Ok(v) => v,
            Err(e) => { return Err(Error::from(e)); },
        };
        let touch_support = match try_get_u64_from_prop(&jsv, "touchSupport") {
            Ok(v) => v,
            Err(e) => { return Err(Error::from(e)); },
        };
        let (x, y, width, height) = match read_box(&jsv, "bounds") {
            Ok(v) => v,
            Err(e) => { return Err(e); },
        };
        let bounds = Bounds { x, y, width, height };
        let (x, y, width, height) = match read_box(&jsv, "work_area") {
            Ok(v) => v,
            Err(e) => { return Err(e); },
        };
        let work_area = WorkArea { x, y, width, height };
        Ok(ScreenInfo { id, scale_factor, is_built_in, rotation, touch_support, bounds, work_area })
    }
}

/// A specification cannot make an error's text, so `try_from_spec` says
/// nothing: the contract of `try_from` speaks of views.
impl TryFromSpecImpl<Value> for ScreenInfo {
    open spec fn obeys_try_from_spec() -> bool {
        false
    }

    open spec fn try_from_spec(v: Value) -> std::result::Result<Self, Error> {
        arbitrary()
    }
}

/// Decodes the displays that the host lists. The first that cannot be decoded
/// ends the work with its failure.
pub fn screens(array: &Vec<Value>) -> (r: Result<Vec<ScreenInfo>>)
    ensures
        match r {
            Ok(list) => {
                &&& list@.len() == array@.len()
                &&& forall|i: int|
                    0 <= i < array@.len() ==> decode_screen(#[trigger] array@[i]@) == Ok::<
                        ScreenInfo,
                        Datum,
                    >(list@[i])
            },
            Err(e) => exists|k: int|
                {
                    &&& 0 <= k < array@.len()
                    &&& forall|i: int| 0 <= i < k ==> decode_screen(#[trigger] array@[i]@) is Ok
                    &&& #[trigger] decode_screen(array@[k]@) is Err
                    &&& e@ == ErrorView::JsValue(debug_text(decode_screen(array@[k]@)->Err_0))
                },
        },
{
    let mut result: Vec<ScreenInfo> = Vec::new();
    let mut index: usize = 0;
    while index < array.len()
        invariant
            index <= array@.len(),
            result@.len() == index,
            forall|i: int|
                0 <= i < index ==> decode_screen(#[trigger] array@[i]@) == Ok::<ScreenInfo, Datum>(
                    result@[i],
                ),
        decreases array@.len() - index,
    {
        let screen = array[index].clone();
        match ScreenInfo::try_from(screen) {
            Ok(info) => {
                result.push(info);
            },
            Err(e) => {
                assert(decode_screen(array@[index as int]@) is Err);
                return Err(e);
            },
        }
        index = index + 1;
    }
    Ok(result)
}

/// The first of a display's own properties that cannot be read, if there is
/// one. They are read in this order.
pub open spec fn first_unreadable(d: Datum) -> Option<Seq<char>> {
    if get_u64(d, "id"@) is Err {
        Some("id"@)
    } else if get_f64(d, "scaleFactor"@) is Err {
        Some("scaleFactor"@)
    } else if get_bool(d, "isBuiltIn"@) is Err {
        Some("isBuiltIn"@)
    } else if get_u64(d, "rotation"@) is Err {
        Some("rotation"@)
    } else if get_u64(d, "touchSupport"@) is Err {
        Some("touchSupport"@)
    } else {
        None
    }
}

/// What is described by an object that lacks one of a display's own
/// properties, or holds something of the wrong kind there, is refused with a
/// text that names the first such property, and so is the error made of it.
pub proof fn lemma_failure_names_field(d: Datum, r: Result<ScreenInfo>)
    requires
        d is Dict || d is List || d is Handle,
        first_unreadable(d) is Some,
        reports(r, decode_screen(d)),
    ensures
        decode_screen(d) matches Err(Datum::Text(t)) && holds(t, first_unreadable(d)->Some_0),
        r matches Err(e) && holds(e@.text(), first_unreadable(d)->Some_0) && holds(
            e@.message(),
            first_unreadable(d)->Some_0,
        ),
{
    let name = first_unreadable(d)->Some_0;
    let found = property_of(d, name)->Ok_0;
    lemma_failure_names_property(name, found);
    let t = decode_screen(d)->Err_0->Text_0;
    assert(decode_screen(d) == Err::<ScreenInfo, Datum>(Datum::Text(t)));
    let e = r->Err_0;
    lemma_holds_inside("\""@, t, "\""@, name);
    lemma_holds_inside("JsValue("@, "\""@ + t + "\""@, ")"@, name);
    lemma_holds_inside(e@.heading(), e@.text(), Seq::<char>::empty(), name);
    assert(e@.message() =~= e@.heading() + e@.text() + Seq::<char>::empty());
}

/// However often [`init_once`] is called, the service is started by the first
/// call on a fresh flag and by no other, and the flag is set after each call.
pub proof fn lemma_init_once_starts_once(flag: InitFlag, n: nat)
    ensures
        n >= 1 ==> flag.after_calls(n).initialized,
        flag.starts_in(n) == if n >= 1 && !flag.initialized {
            1nat
        } else {
            0nat
        },
    decreases n,
{
    if n >= 1 {
        lemma_init_once_starts_once(flag, (n - 1) as nat);
    }
}

/// The lists of words for different choices of what to offer differ, and none
/// is empty.
pub proof fn lemma_source_tokens_distinct(a: MediaSources, b: MediaSources)
    ensures
        source_tokens(a).len() > 0,
        a != b ==> source_tokens(a) != source_tokens(b),
{
    reveal_strlit("screen");
    reveal_strlit("window");
    assert("screen"@[0] != "window"@[0]);
    assert(source_tokens(MediaSources::Screen)[0] == Datum::Text("screen"@));
    assert(source_tokens(MediaSources::Window)[0] == Datum::Text("window"@));
    assert(source_tokens(MediaSources::ScreenAndWindow).len() == 2);
    assert(source_tokens(MediaSources::Screen).len() == 1);
    assert(source_tokens(MediaSources::Window).len() == 1);
}

} // verus!
