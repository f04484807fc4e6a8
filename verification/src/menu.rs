//! Menus: the options of a menu and of the menus that the Mac builds itself.

use crate::options::OptionsExt;
use crate::value::{Datum, Dict, Value};
use vstd::prelude::*;
use vstd::std_specs::convert::FromSpecImpl;
use vstd::string::*;

verus! {

/// The kind of a menu.
#[derive(Debug, Clone, Copy, PartialEq, Eq, Structural)]
pub enum Type {
    Menubar,
}

impl Type {
    /// The word by which the host knows the kind.
    pub open spec fn token(self) -> Seq<char> {
        match self {
            Type::Menubar => "menubar"@,
        }
    }
}

/// The options of a menu.
#[derive(Debug, Clone, PartialEq, Eq)]
pub struct Options {
    dict: Dict,
}

impl View for Options {
    type V = Map<Seq<char>, Datum>;

    closed spec fn view(&self) -> Map<Seq<char>, Datum> {
        self.dict@
    }
}

impl OptionsExt for Options {
    open spec fn fields(&self) -> Map<Seq<char>, Datum> {
        self@
    }

    open spec fn initialized(fields: Map<Seq<char>, Datum>) -> Map<Seq<char>, Datum> {
        fields
    }

    fn from_dict(dict: Dict) -> (r: Self) {
        Options { dict }
    }

    fn into_dict(self) -> (r: Dict) {
        self.dict
    }

    fn as_dict(&self) -> (r: &Dict) {
        &self.dict
    }

    fn initialize(self) -> (r: Self) {
        self
    }
}

/// Which of its own menus the Mac leaves out.
#[derive(Debug, Clone, PartialEq, Eq)]
pub struct MacOptions {
    dict: Dict,
}

impl View for MacOptions {
    type V = Map<Seq<char>, Datum>;

    closed spec fn view(&self) -> Map<Seq<char>, Datum> {
        self.dict@
    }
}

impl OptionsExt for MacOptions {
    open spec fn fields(&self) -> Map<Seq<char>, Datum> {
        self@
    }

    open spec fn initialized(fields: Map<Seq<char>, Datum>) -> Map<Seq<char>, Datum> {
        fields
    }

    fn from_dict(dict: Dict) -> (r: Self) {
        MacOptions { dict }
    }

    fn into_dict(self) -> (r: Dict) {
        self.dict
    }

    fn as_dict(&self) -> (r: &Dict) {
        &self.dict
    }

    fn initialize(self) -> (r: Self) {
        self
    }
}

impl MacOptions {
    /// Whether the `Edit` menu is left out.
    pub fn hide_edit(self, hide: bool) -> (r: Self)
        ensures
            r@ == self@.insert("hideEdit"@, Datum::Bool(hide)),
    {
        proof {
            reveal_strlit("hideEdit");
        }
        self.set("hideEdit", Value::Bool(hide))
    }

    /// Whether the `Window` menu is left out.
    pub fn hide_window(self, hide: bool) -> (r: Self)
        ensures
            r@ == self@.insert("hideWindow"@, Datum::Bool(hide)),
    {
        proof {
            reveal_strlit("hideWindow");
        }
        self.set("hideWindow", Value::Bool(hide))
    }
}

impl From<Type> for Options {
    /// The options of a menu of the given kind.
    fn from(t: Type) -> (r: Options)
        ensures
            r@ == Map::<Seq<char>, Datum>::empty().insert("type"@, Datum::Text(t.token())),
    {
        let options = Options::new();
        proof {
            reveal_strlit("type");
        }
        match t {
            Type::Menubar => options.set("type", Value::text("menubar")),
        }
    }
}

/// A specification cannot make a dictionary, so `from_spec` says nothing: the
/// contract of `from` speaks of the view.
impl FromSpecImpl<Type> for Options {
    open spec fn obeys_from_spec() -> bool {
        false
    }

    open spec fn from_spec(t: Type) -> Options {
        arbitrary()
    }
}

/// The word for the kind of a menu is not empty.
pub proof fn lemma_type_token(a: Type)
    ensures
        a.token().len() > 0,
{
    reveal_strlit("menubar");
}

} // verus!
