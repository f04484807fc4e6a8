//! Menu items: their kinds and their options.

use crate::options::OptionsExt;
use crate::text::in_small_letters;
use crate::value::{Datum, Dict, Handle, Value};
use vstd::prelude::*;
use vstd::std_specs::convert::FromSpecImpl;
use vstd::string::*;

verus! {

/// The kind of a menu item.
#[derive(Debug, Clone, Copy, PartialEq, Eq, Structural)]
pub enum Type {
    Separator,
    Normal,
    Checkbox,
}

impl Type {
    /// The name of the kind.
    pub open spec fn name(self) -> Seq<char> {
        match self {
            Type::Separator => "Separator"@,
            Type::Normal => "Normal"@,
            Type::Checkbox => "Checkbox"@,
        }
    }

    /// The word by which the host knows the kind: its name in small letters.
    pub open spec fn token(self) -> Seq<char> {
        match self {
            Type::Separator => "separator"@,
            Type::Normal => "normal"@,
            Type::Checkbox => "checkbox"@,
        }
    }

    /// The name of the kind.
    pub fn to_string(&self) -> (r: String)
        ensures
            r@ == self.name(),
    {
        match self {
            Type::Separator => String::from_str("Separator"),
            Type::Normal => String::from_str("Normal"),
            Type::Checkbox => String::from_str("Checkbox"),
        }
    }
}

impl From<Type> for Value {
    /// The word by which the host knows the kind, as a value.
    fn from(t: Type) -> (r: Value)
        ensures
            r@ == Datum::Text(t.token()),
    {
        match t {
            Type::Separator => Value::text("separator"),
            Type::Normal => Value::text("normal"),
            Type::Checkbox => Value::text("checkbox"),
        }
    }
}

/// A specification cannot make a text, so `from_spec` says nothing: the
/// contract of `from` speaks of the view.
impl FromSpecImpl<Type> for Value {
    open spec fn obeys_from_spec() -> bool {
        false
    }

    open spec fn from_spec(t: Type) -> Value {
        arbitrary()
    }
}

/// The options of a menu item.
#[derive(Debug, Clone, PartialEq, Eq)]
pub struct Options {
    dict: Dict,
}

impl View for Options {
    type V = Map<Seq<char>, Datum>;

    closed spec fn view(&self) -> Map<Seq<char>, Datum> {
        self.dict@
    }
}

impl OptionsExt for Options {
    open spec fn fields(&self) -> Map<Seq<char>, Datum> {
        self@
    }

    open spec fn initialized(fields: Map<Seq<char>, Datum>) -> Map<Seq<char>, Datum> {
        fields
    }

    fn from_dict(dict: Dict) -> (r: Self) {
        Options { dict }
    }

    fn into_dict(self) -> (r: Dict) {
        self.dict
    }

    fn as_dict(&self) -> (r: &Dict) {
        &self.dict
    }

    fn initialize(self) -> (r: Self) {
        self
    }
}

impl Options {
    /// The text of the item.
    pub fn label(self, label: &str) -> (r: Self)
        ensures
            r@ == self@.insert("label"@, Datum::Text(label@)),
    {
        proof {
            reveal_strlit("label");
        }
        self.set("label", Value::text(label))
    }

    /// The picture of the item.
    pub fn icon(self, icon: &str) -> (r: Self)
        ensures
            r@ == self@.insert("icon"@, Datum::Text(icon@)),
    {
        proof {
            reveal_strlit("icon");
        }
        self.set("icon", Value::text(icon))
    }

    /// The text that shows when the pointer rests on the item.
    pub fn tooltip(self, tooltip: &str) -> (r: Self)
        ensures
            r@ == self@.insert("tooltip"@, Datum::Text(tooltip@)),
    {
        proof {
            reveal_strlit("tooltip");
        }
        self.set("tooltip", Value::text(tooltip))
    }

    /// The function that the host calls when the item is chosen.
    pub fn click(self, callback: &Handle) -> (r: Self)
        ensures
            r@ == self@.insert("click"@, Datum::Handle(*callback)),
    {
        proof {
            reveal_strlit("click");
        }
        self.set("click", Value::Handle(*callback))
    }

    /// Whether the item can be chosen.
    pub fn enabled(self, enabled: bool) -> (r: Self)
        ensures
            r@ == self@.insert("enabled"@, Datum::Bool(enabled)),
    {
        proof {
            reveal_strlit("enabled");
        }
        self.set("enabled", Value::Bool(enabled))
    }

    /// Whether a checkbox is ticked.
    pub fn checked(self, checked: bool) -> (r: Self)
        ensures
            r@ == self@.insert("checked"@, Datum::Bool(checked)),
    {
        proof {
            reveal_strlit("checked");
        }
        self.set("checked", Value::Bool(checked))
    }

    /// The menu that opens from the item.
    pub fn submenu(self, submenu: &Handle) -> (r: Self)
        ensures
            r@ == self@.insert("submenu"@, Datum::Handle(*submenu)),
    {
        proof {
            reveal_strlit("submenu");
        }
        self.set("submenu", Value::Handle(*submenu))
    }

    /// The key of the item's shortcut.
    pub fn key(self, key: &str) -> (r: Self)
        ensures
            r@ == self@.insert("key"@, Datum::Text(key@)),
    {
        proof {
            reveal_strlit("key");
        }
        self.set("key", Value::text(key))
    }

    /// The keys to hold with the shortcut's key.
    pub fn modifiers(self, modifiers: &str) -> (r: Self)
        ensures
            r@ == self@.insert("modifiers"@, Datum::Text(modifiers@)),
    {
        proof {
            reveal_strlit("modifiers");
        }
        self.set("modifiers", Value::text(modifiers))
    }

    /// The kind of the item, by the word that the host knows it by.
    pub fn set_type(self, t: Type) -> (r: Self)
        ensures
            r@ == self@.insert("type"@, Datum::Text(t.token())),
    {
        proof {
            reveal_strlit("type");
        }
        self.set("type", Value::from(t))
    }
}

impl From<Type> for Options {
    /// The options of an item of the given kind.
    fn from(t: Type) -> (r: Options)
        ensures
            r@ == Map::<Seq<char>, Datum>::empty().insert("type"@, Datum::Text(t.token())),
    {
        match t {
            Type::Separator => Options::new().set_type(Type::Separator),
            Type::Normal => Options::new().set_type(Type::Normal),
            Type::Checkbox => Options::new().set_type(Type::Checkbox),
        }
    }
}

/// A specification cannot make a dictionary, so `from_spec` says nothing: the
/// contract of `from` speaks of the view.
impl FromSpecImpl<Type> for Options {
    open spec fn obeys_from_spec() -> bool {
        false
    }

    open spec fn from_spec(t: Type) -> Options {
        arbitrary()
    }
}

/// The word for a kind of item is its name in small letters. The words differ
/// from kind to kind, and none is empty.
pub proof fn lemma_type_tokens(a: Type, b: Type)
    ensures
        a.token() == in_small_letters(a.name()),
        a.token().len() > 0,
        a != b ==> a.token() != b.token(),
{
    reveal_strlit("Separator");
    reveal_strlit("Normal");
    reveal_strlit("Checkbox");
    reveal_strlit("separator");
    reveal_strlit("normal");
    reveal_strlit("checkbox");
    assert(a.token() =~= in_small_letters(a.name()));
    if a != b {
        assert(a.token()[0] != b.token()[0]);
    }
}

} // verus!
