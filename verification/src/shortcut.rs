//! Global keyboard shortcuts: their options.

use crate::options::OptionsExt;
use crate::value::{Datum, Dict, Handle, Value};
use vstd::prelude::*;
use vstd::string::*;

verus! {

/// The options of a shortcut.
#[derive(Debug, Clone, PartialEq, Eq)]
pub struct Options {
    dict: Dict,
}

impl View for Options {
    type V = Map<Seq<char>, Datum>;

    closed spec fn view(&self) -> Map<Seq<char>, Datum> {
        self.dict@
    }
}

impl OptionsExt for Options {
    open spec fn fields(&self) -> Map<Seq<char>, Datum> {
        self@
    }

    open spec fn initialized(fields: Map<Seq<char>, Datum>) -> Map<Seq<char>, Datum> {
        fields
    }

    fn from_dict(dict: Dict) -> (r: Self) {
        Options { dict }
    }

    fn into_dict(self) -> (r: Dict) {
        self.dict
    }

    fn as_dict(&self) -> (r: &Dict) {
        &self.dict
    }

    fn initialize(self) -> (r: Self) {
        self
    }
}

impl Options {
    /// The keys of the shortcut, such as `Ctrl+Shift+A`.
    pub fn key(self, key: &str) -> (r: Self)
        ensures
            r@ == self@.insert("key"@, Datum::Text(key@)),
    {
        proof {
            reveal_strlit("key");
        }
        self.set("key", Value::text(key))
    }

    /// The function that the host calls when the keys are pressed.
    pub fn active(self, callback: &Handle) -> (r: Self)
        ensures
            r@ == self@.insert("active"@, Datum::Handle(*callback)),
    {
        proof {
            reveal_strlit("active");
        }
        self.set("active", Value::Handle(*callback))
    }

    /// The function that the host calls when the shortcut cannot be had.
    pub fn failed(self, callback: &Handle) -> (r: Self)
        ensures
            r@ == self@.insert("failed"@, Datum::Handle(*callback)),
    {
        proof {
            reveal_strlit("failed");
        }
        self.set("failed", Value::Handle(*callback))
    }
}

} // verus!
