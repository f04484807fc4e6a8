//! The icon in the system tray: its options.

use crate::options::OptionsExt;
use crate::value::{Datum, Dict, Handle, Value};
use vstd::prelude::*;
use vstd::string::*;

verus! {

/// The options of a tray icon.
#[derive(Debug, Clone, PartialEq, Eq)]
pub struct Options {
    dict: Dict,
}

impl View for Options {
    type V = Map<Seq<char>, Datum>;

    closed spec fn view(&self) -> Map<Seq<char>, Datum> {
        self.dict@
    }
}

impl OptionsExt for Options {
    open spec fn fields(&self) -> Map<Seq<char>, Datum> {
        self@
    }

    open spec fn initialized(fields: Map<Seq<char>, Datum>) -> Map<Seq<char>, Datum> {
        fields
    }

    fn from_dict(dict: Dict) -> (r: Self) {
        Options { dict }
    }

    fn into_dict(self) -> (r: Dict) {
        self.dict
    }

    fn as_dict(&self) -> (r: &Dict) {
        &self.dict
    }

    fn initialize(self) -> (r: Self) {
        self
    }
}

impl Options {
    /// The text beside the icon, where the system shows one.
    pub fn title(self, title: &str) -> (r: Self)
        ensures
            r@ == self@.insert("title"@, Datum::Text(title@)),
    {
        proof {
            reveal_strlit("title");
        }
        self.set("title", Value::text(title))
    }

    /// The text that shows when the pointer rests on the icon.
    pub fn tooltip(self, tooltip: &str) -> (r: Self)
        ensures
            r@ == self@.insert("tooltip"@, Datum::Text(tooltip@)),
    {
        proof {
            reveal_strlit("tooltip");
        }
        self.set("tooltip", Value::text(tooltip))
    }

    /// The picture of the icon.
    pub fn icon(self, icon: &str) -> (r: Self)
        ensures
            r@ == self@.insert("icon"@, Datum::Text(icon@)),
    {
        proof {
            reveal_strlit("icon");
        }
        self.set("icon", Value::text(icon))
    }

    /// The picture that the Mac shows while the icon is pressed.
    pub fn alticon(self, alticon: &str) -> (r: Self)
        ensures
            r@ == self@.insert("alticon"@, Datum::Text(alticon@)),
    {
        proof {
            reveal_strlit("alticon");
        }
        self.set("alticon", Value::text(alticon))
    }

    /// Whether the Mac may tint the pictures.
    pub fn icons_are_templates(self, icons_are_templates: bool) -> (r: Self)
        ensures
            r@ == self@.insert("iconsAreTemplates"@, Datum::Bool(icons_are_templates)),
    {
        proof {
            reveal_strlit("iconsAreTemplates");
        }
        self.set("iconsAreTemplates", Value::Bool(icons_are_templates))
    }

    /// The menu that opens from the icon.
    pub fn menu(self, menu: &Handle) -> (r: Self)
        ensures
            r@ == self@.insert("menu"@, Datum::Handle(*menu)),
    {
        proof {
            reveal_strlit("menu");
        }
        self.set("menu", Value::Handle(*menu))
    }
}

} // verus!
