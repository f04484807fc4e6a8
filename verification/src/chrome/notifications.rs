//! Desktop notifications: the option builders, the kinds of template, and the
//! choice among the host's entry points by the arguments that were given.

use crate::options::{dicts_of, into_values, OptionsExt};
use crate::text::in_small_letters;
use crate::value::{whole, Datum, Dict, Handle, Value};
use vstd::prelude::*;
use vstd::std_specs::convert::FromSpecImpl;
use vstd::string::*;

verus! {

/// The kind of a notification's template.
#[derive(Debug, Clone, Copy, PartialEq, Eq, Structural)]
pub enum TemplateType {
    Basic,
    Image,
    List,
    Progress,
}

/// The entry point of the host that creates a notification, with what goes to
/// it.
#[derive(Debug, Clone, PartialEq, Eq)]
pub enum CreateCall {
    /// The identifier, the options and the function to call back.
    WithIdAndCallback { id: String, options: Options, callback: Handle },
    /// The identifier and the options.
    WithId { id: String, options: Options },
    /// The options and the function to call back.
    WithCallback { options: Options, callback: Handle },
    /// The options alone.
    Plain { options: Options },
}

/// The entry point of the host that clears a notification, with what goes to
/// it.
#[derive(Debug, Clone, PartialEq, Eq)]
pub enum ClearCall {
    /// The identifier and the function to call back.
    WithCallback { id: String, callback: Handle },
    /// The identifier alone.
    Plain { id: String },
}

/// The entry point of the host that updates a notification, with what goes to
/// it.
#[derive(Debug, Clone, PartialEq, Eq)]
pub enum UpdateCall {
    /// The identifier, the options and the function to call back.
    WithCallback { id: String, options: Options, callback: Handle },
    /// The identifier and the options.
    Plain { id: String, options: Options },
}

impl TemplateType {
    /// The name of the kind.
    pub open spec fn name(self) -> Seq<char> {
        match self {
            TemplateType::Basic => "Basic"@,
            TemplateType::Image => "Image"@,
            TemplateType::List => "List"@,
            TemplateType::Progress => "Progress"@,
        }
    }

    /// The word by which the host knows the kind: its name in small letters.
    pub open spec fn token(self) -> Seq<char> {
        match self {
            TemplateType::Basic => "basic"@,
            TemplateType::Image => "image"@,
            TemplateType::List => "list"@,
            TemplateType::Progress => "progress"@,
        }
    }

    /// The name of the kind.
    pub fn to_string(&self) -> (r: String)
        ensures
            r@ == self.name(),
    {
        match self {
            TemplateType::Basic => String::from_str("Basic"),
            TemplateType::Image => String::from_str("Image"),
            TemplateType::List => String::from_str("List"),
            TemplateType::Progress => String::from_str("Progress"),
        }
    }
}

impl From<TemplateType> for Value {
    /// The word by which the host knows the kind, as a value.
    fn from(value: TemplateType) -> (r: Value)
        ensures
            r@ == Datum::Text(value.token()),
    {
        match value {
            TemplateType::Basic => Value::text("basic"),
            TemplateType::Image => Value::text("image"),
            TemplateType::List => Value::text("list"),
            TemplateType::Progress => Value::text("progress"),
        }
    }
}

/// A specification cannot make a text, so `from_spec` says nothing: the
/// contract of `from` speaks of the view.
impl FromSpecImpl<TemplateType> for Value {
    open spec fn obeys_from_spec() -> bool {
        false
    }

    open spec fn from_spec(value: TemplateType) -> Value {
        arbitrary()
    }
}

/// The options of a notification.
#[derive(Debug, Clone, PartialEq, Eq)]
pub struct Options {
    dict: Dict,
}

impl View for Options {
    type V = Map<Seq<char>, Datum>;

    closed spec fn view(&self) -> Map<Seq<char>, Datum> {
        self.dict@
    }
}

impl OptionsExt for Options {
    open spec fn fields(&self) -> Map<Seq<char>, Datum> {
        self@
    }

    open spec fn initialized(fields: Map<Seq<char>, Datum>) -> Map<Seq<char>, Datum> {
        fields
    }

    fn from_dict(dict: Dict) -> (r: Self) {
        Options { dict }
    }

    fn into_dict(self) -> (r: Dict) {
        self.dict
    }

    fn as_dict(&self) -> (r: &Dict) {
        &self.dict
    }

    fn initialize(self) -> (r: Self) {
        self
    }
}

/// A button of a notification.
#[derive(Debug, Clone, PartialEq, Eq)]
pub struct Button {
    dict: Dict,
}

impl View for Button {
    type V = Map<Seq<char>, Datum>;

    closed spec fn view(&self) -> Map<Seq<char>, Datum> {
        self.dict@
    }
}

impl OptionsExt for Button {
    open spec fn fields(&self) -> Map<Seq<char>, Datum> {
        self@
    }

    open spec fn initialized(fields: Map<Seq<char>, Datum>) -> Map<Seq<char>, Datum> {
        fields
    }

    fn from_dict(dict: Dict) -> (r: Self) {
        Button { dict }
    }

    fn into_dict(self) -> (r: Dict) {
        self.dict
    }

    fn as_dict(&self) -> (r: &Dict) {
        &self.dict
    }

    fn initialize(self) -> (r: Self) {
        self
    }
}

/// An item of a notification that shows a list.
#[derive(Debug, Clone, PartialEq, Eq)]
pub struct Item {
    dict: Dict,
}

impl View for Item {
    type V = Map<Seq<char>, Datum>;

    closed spec fn view(&self) -> Map<Seq<char>, Datum> {
        self.dict@
    }
}

impl OptionsExt for Item {
    open spec fn fields(&self) -> Map<Seq<char>, Datum> {
        self@
    }

    open spec fn initialized(fields: Map<Seq<char>, Datum>) -> Map<Seq<char>, Datum> {
        fields
    }

    fn from_dict(dict: Dict) -> (r: Self) {
        Item { dict }
    }

    fn into_dict(self) -> (r: Dict) {
        self.dict
    }

    fn as_dict(&self) -> (r: &Dict) {
        &self.dict
    }

    fn initialize(self) -> (r: Self) {
        self
    }
}

impl Button {
    /// The address of the button's icon.
    pub fn icon_url(self, url: &str) -> (r: Self)
        ensures
            r@ == self@.insert("iconUrl"@, Datum::Text(url@)),
    {
        proof {
            reveal_strlit("iconUrl");
        }
        self.set("iconUrl", Value::text(url))
    }

    /// The text on the button.
    pub fn title(self, title: &str) -> (r: Self)
        ensures
            r@ == self@.insert("title"@, Datum::Text(title@)),
    {
        proof {
            reveal_strlit("title");
        }
        self.set("title", Value::text(title))
    }
}

impl Item {
    /// What the item says beyond its title.
    pub fn message(self, message: &str) -> (r: Self)
        ensures
            r@ == self@.insert("message"@, Datum::Text(message@)),
    {
        proof {
            reveal_strlit("message");
        }
        self.set("message", Value::text(message))
    }

    /// The title of the item.
    pub fn title(self, title: &str) -> (r: Self)
        ensures
            r@ == self@.insert("title"@, Datum::Text(title@)),
    {
        proof {
            reveal_strlit("title");
        }
        self.set("title", Value::text(title))
    }
}

impl Options {
    /// The address of the mask of the application's icon.
    pub fn app_icon_mask_url(self, url: &str) -> (r: Self)
        ensures
            r@ == self@.insert("appIconMaskUrl"@, Datum::Text(url@)),
    {
        proof {
            reveal_strlit("appIconMaskUrl");
        }
        self.set("appIconMaskUrl", Value::text(url))
    }

    /// A second message, shown in a lighter face.
    pub fn context_message(self, context_message: &str) -> (r: Self)
        ensures
            r@ == self@.insert("contextMessage"@, Datum::Text(context_message@)),
    {
        proof {
            reveal_strlit("contextMessage");
        }
        self.set("contextMessage", Value::text(context_message))
    }

    /// The time that the notification is about, in milliseconds.
    pub fn event_time(self, event_time: u32) -> (r: Self)
        ensures
            r@ == self@.insert("eventTime"@, whole(event_time as int)),
    {
        proof {
            reveal_strlit("eventTime");
        }
        self.set("eventTime", Value::from_u32(event_time))
    }

    /// The address of the sender's picture or the application's icon.
    pub fn icon_url(self, icon_url: &str) -> (r: Self)
        ensures
            r@ == self@.insert("iconUrl"@, Datum::Text(icon_url@)),
    {
        proof {
            reveal_strlit("iconUrl");
        }
        self.set("iconUrl", Value::text(icon_url))
    }

    /// The address of the picture of a notification that shows one.
    pub fn image_url(self, image_url: &str) -> (r: Self)
        ensures
            r@ == self@.insert("imageUrl"@, Datum::Text(image_url@)),
    {
        proof {
            reveal_strlit("imageUrl");
        }
        self.set("imageUrl", Value::text(image_url))
    }

    /// The body of the notification.
    pub fn message(self, message: &str) -> (r: Self)
        ensures
            r@ == self@.insert("message"@, Datum::Text(message@)),
    {
        proof {
            reveal_strlit("message");
        }
        self.set("message", Value::text(message))
    }

    /// The priority, from -2 for the lowest to 2 for the highest.
    pub fn priority(self, priority: i8) -> (r: Self)
        ensures
            r@ == self@.insert("priority"@, whole(priority as int)),
    {
        proof {
            reveal_strlit("priority");
        }
        self.set("priority", Value::from_i32(priority as i32))
    }

    /// How far the work has come, from 0 to 100.
    pub fn progress(self, progress: u8) -> (r: Self)
        ensures
            r@ == self@.insert("progress"@, whole(progress as int)),
    {
        proof {
            reveal_strlit("progress");
        }
        self.set("progress", Value::from_u32(progress as u32))
    }

    /// Whether the notification stays until the user answers it.
    pub fn require_interaction(self, require_interaction: bool) -> (r: Self)
        ensures
            r@ == self@.insert("requireInteraction"@, Datum::Bool(require_interaction)),
    {
        proof {
            reveal_strlit("requireInteraction");
        }
        self.set("requireInteraction", Value::Bool(require_interaction))
    }

    /// Whether the notification comes without sound.
    pub fn silent(self, silent: bool) -> (r: Self)
        ensures
            r@ == self@.insert("silent"@, Datum::Bool(silent)),
    {
        proof {
            reveal_strlit("silent");
        }
        self.set("silent", Value::Bool(silent))
    }

    /// The title of the notification.
    pub fn title(self, title: &str) -> (r: Self)
        ensures
            r@ == self@.insert("title"@, Datum::Text(title@)),
    {
        proof {
            reveal_strlit("title");
        }
        self.set("title", Value::text(title))
    }

    /// Up to two buttons, as the list of their dictionaries.
    pub fn buttons(self, buttons: Vec<Button>) -> (r: Self)
        ensures
            r@ == self@.insert("buttons"@, Datum::List(dicts_of(buttons@))),
    {
        proof {
            reveal_strlit("buttons");
        }
        let array = into_values(buttons);
        self.set("buttons", Value::List(array))
    }

    /// The items of a notification that shows a list, as the list of their
    /// dictionaries.
    pub fn items(self, items: Vec<Item>) -> (r: Self)
        ensures
            r@ == self@.insert("items"@, Datum::List(dicts_of(items@))),
    {
        proof {
            reveal_strlit("items");
        }
        let array = into_values(items);
        self.set("items", Value::List(array))
    }

    /// The kind of template, by the word that the host knows it by.
    pub fn set_type(self, template_type: TemplateType) -> (r: Self)
        ensures
            r@ == self@.insert("type"@, Datum::Text(template_type.token())),
    {
        proof {
            reveal_strlit("type");
        }
        self.set("type", Value::from(template_type))
    }
}

/// Picks the entry point that creates a notification by the arguments that
/// are there: with both an identifier and a callback the one that takes both,
/// with one of them the one that takes it, with neither the one that takes
/// the options alone.
pub fn create(id: Option<String>, options: Options, callback: Option<Handle>) -> (r: CreateCall)
    ensures
        r == match (id, callback) {
            (Some(i), Some(c)) => CreateCall::WithIdAndCallback { id: i, options, callback: c },
            (Some(i), None) => CreateCall::WithId { id: i, options },
            (None, Some(c)) => CreateCall::WithCallback { options, callback: c },
            (None, None) => CreateCall::Plain { options },
        },
{
    if id.is_some() && callback.is_some() {
        CreateCall::WithIdAndCallback { id: id.unwrap(), options, callback: callback.unwrap() }
    } else if id.is_some() {
        CreateCall::WithId { id: id.unwrap(), options }
    } else if callback.is_some() {
        CreateCall::WithCallback { options, callback: callback.unwrap() }
    } else {
        CreateCall::Plain { options }
    }
}

/// Picks the entry point that clears the notification `id`: the one that
/// takes a callback where one is there.
pub fn clear(id: &str, callback: Option<Handle>) -> (r: ClearCall)
    ensures
        match callback {
            Some(c) => r matches ClearCall::WithCallback { id: i, callback: k } && i@ == id@ && k
                == c,
            None => r matches ClearCall::Plain { id: i } && i@ == id@,
        },
{
    if let Some(callback) = callback {
        ClearCall::WithCallback { id: String::from_str(id), callback }
    } else {
        ClearCall::Plain { id: String::from_str(id) }
    }
}

/// Picks the entry point that updates the notification `id`: the one that
/// takes a callback where one is there.
pub fn update(id: &str, options: Options, callback: Option<Handle>) -> (r: UpdateCall)
    ensures
        match callback {
            Some(c) => r matches UpdateCall::WithCallback { id: i, options: o, callback: k } && i@
                == id@ && o == options && k == c,
            None => r matches UpdateCall::Plain { id: i, options: o } && i@ == id@ && o
                == options,
        },
{
    if let Some(callback) = callback {
        UpdateCall::WithCallback { id: String::from_str(id), options, callback }
    } else {
        UpdateCall::Plain { id: String::from_str(id), options }
    }
}

/// The word for a kind of template is its name in small letters. The words
/// differ from kind to kind, and none is empty.
pub proof fn lemma_template_tokens(a: TemplateType, b: TemplateType)
    ensures
        a.token() == in_small_letters(a.name()),
        a.token().len() > 0,
        a != b ==> a.token() != b.token(),
{
    reveal_strlit("Basic");
    reveal_strlit("Image");
    reveal_strlit("List");
    reveal_strlit("Progress");
    reveal_strlit("basic");
    reveal_strlit("image");
    reveal_strlit("list");
    reveal_strlit("progress");
    assert(a.token() =~= in_small_letters(a.name()));
    if a != b {
        assert(a.token()[0] != b.token()[0]);
    }
}

} // verus!
