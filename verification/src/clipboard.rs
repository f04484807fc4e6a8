//! The system clipboard: what goes to the host to write and to read several
//! kinds of data at once, and decoding what comes back.

use crate::error::{Error, ErrorView};
use crate::options::{dicts_of, into_values, OptionsExt};
use crate::result::Result;
use crate::value::{
    collect_texts, debug_text, items_of, property_of, texts, texts_among, Datum, Dict, Handle,
    Value,
};
use vstd::prelude::*;
use vstd::std_specs::convert::FromSpecImpl;
use vstd::string::*;

verus! {

/// The clipboard of the host.
#[derive(Debug, Clone, Copy, PartialEq, Eq, Structural)]
pub struct Clipboard {
    pub handle: Handle,
}

/// One piece of data to write to the clipboard. A fresh one is of the type `text` and not raw.
#[derive(Debug, Clone, PartialEq, Eq)]
pub struct DataWrite {
    dict: Dict,
}

impl View for DataWrite {
    type V = Map<Seq<char>, Datum>;

    closed spec fn view(&self) -> Map<Seq<char>, Datum> {
        self.dict@
    }
}

impl OptionsExt for DataWrite {
    open spec fn fields(&self) -> Map<Seq<char>, Datum> {
        self@
    }

    open spec fn initialized(fields: Map<Seq<char>, Datum>) -> Map<Seq<char>, Datum> {
        fields.insert("type"@, Datum::Text("text"@)).insert("raw"@, Datum::Bool(false))
    }

    fn from_dict(dict: Dict) -> (r: Self) {
        DataWrite { dict }
    }

    fn into_dict(self) -> (r: Dict) {
        self.dict
    }

    fn as_dict(&self) -> (r: &Dict) {
        &self.dict
    }

    fn initialize(self) -> (r: Self) {
        self.data_type("text").raw(false)
    }
}

/// One kind of data to read from the clipboard.
#[derive(Debug, Clone, PartialEq, Eq)]
pub struct DataRead {
    dict: Dict,
}

impl View for DataRead {
    type V = Map<Seq<char>, Datum>;

    closed spec fn view(&self) -> Map<Seq<char>, Datum> {
        self.dict@
    }
}

impl OptionsExt for DataRead {
    open spec fn fields(&self) -> Map<Seq<char>, Datum> {
        self@
    }

    open spec fn initialized(fields: Map<Seq<char>, Datum>) -> Map<Seq<char>, Datum> {
        fields
    }

    fn from_dict(dict: Dict) -> (r: Self) {
        DataRead { dict }
    }

    fn into_dict(self) -> (r: Dict) {
        self.dict
    }

    fn as_dict(&self) -> (r: &Dict) {
        &self.dict
    }

    fn initialize(self) -> (r: Self) {
        self
    }
}

/// The data of one entry of the host's reply: the text under `data`, nothing
/// where something else or nothing stands there. Reading from an entry that is
/// no object fails.
pub open spec fn data_of(entry: Datum) -> std::result::Result<Option<Seq<char>>, Datum> {
    match property_of(entry, "data"@) {
        Err(e) => Err(e),
        Ok(Datum::Text(s)) => Ok(Some(s)),
        Ok(_) => Ok(None),
    }
}

/// The content of a text that may be missing.
pub open spec fn text_of(o: Option<String>) -> Option<Seq<char>> {
    match o {
        Some(s) => Some(s@),
        None => None,
    }
}

/// What asks for the data of the type `info.0`, raw or not as `info.1` says
/// where it says so.
pub open spec fn read_request(info: (String, Option<bool>)) -> Map<Seq<char>, Datum> {
    let typed = Map::<Seq<char>, Datum>::empty().insert("type"@, Datum::Text(info.0@));
    match info.1 {
        Some(raw) => typed.insert("raw"@, Datum::Bool(raw)),
        None => typed,
    }
}

impl Clipboard {
    /// The list to hand to the host so that it writes each piece of data.
    pub fn set_data_array(&self, list: Vec<DataWrite>) -> (r: Value)
        ensures
            r@ == Datum::List(dicts_of(list@)),
    {
        Value::List(into_values(list))
    }

    /// The list to hand to the host so that it reads each kind of data.
    pub fn get_data_array_request(&self, list: Vec<DataRead>) -> (r: Value)
        ensures
            r@ == Datum::List(dicts_of(list@)),
    {
        Value::List(into_values(list))
    }

    /// Decodes the host's reply to a request for several kinds of data: for
    /// each entry the text under `data`, or nothing. The first entry that is
    /// no object ends the work with its failure.
    pub fn get_data_array(&self, reply: &Vec<Value>) -> (r: Result<Vec<Option<String>>>)
        ensures
            match r {
                Ok(list) => {
                    &&& list@.len() == reply@.len()
                    &&& forall|i: int|
                        0 <= i < reply@.len() ==> data_of(#[trigger] reply@[i]@) == Ok::<
                            Option<Seq<char>>,
                            Datum,
                        >(text_of(list@[i]))
                },
                Err(e) => exists|k: int|
                    {
                        &&& 0 <= k < reply@.len()
                        &&& forall|i: int| 0 <= i < k ==> data_of(#[trigger] reply@[i]@) is Ok
                        &&& #[trigger] data_of(reply@[k]@) is Err
                        &&& e@ == ErrorView::JsValue(debug_text(data_of(reply@[k]@)->Err_0))
                    },
            },
    {
        let mut result: Vec<Option<String>> = Vec::new();
        let mut index: usize = 0;
        while index < reply.len()
            invariant
                index <= reply@.len(),
                result@.len() == index,
                forall|i: int|
                    0 <= i < index ==> data_of(#[trigger] reply@[i]@) == Ok::<
                        Option<Seq<char>>,
                        Datum,
                    >(text_of(result@[i])),
            decreases reply@.len() - index,
        {
            let data = match reply[index].property("data") {
                Ok(v) => v,
                Err(e) => {
                    assert(data_of(reply@[index as int]@) is Err);
                    return Err(Error::from(e));
                },
            };
            result.push(data.as_string());
            index = index + 1;
        }
        Ok(result)
    }

    /// The kinds of data that the clipboard holds, out of the host's list of
    /// them. An item that is no text is passed over.
    pub fn get_available_types(&self, reply: &Vec<Value>) -> (r: Vec<String>)
        ensures
            texts(r@) == texts_among(items_of(reply@)),
    {
        collect_texts(reply)
    }
}

impl DataWrite {
    /// The data to write.
    pub fn data(self, data: &str) -> (r: Self)
        ensures
            r@ == self@.insert("data"@, Datum::Text(data@)),
    {
        proof {
            reveal_strlit("data");
        }
        self.set("data", Value::text(data))
    }

    /// The type of the data: `text`, `png`, `jpeg`, `html` or `rtf`.
    pub fn data_type(self, data_type: &str) -> (r: Self)
        ensures
            r@ == self@.insert("type"@, Datum::Text(data_type@)),
    {
        proof {
            reveal_strlit("type");
        }
        self.set("type", Value::text(data_type))
    }

    /// Whether an image goes as it is, without a header.
    pub fn raw(self, raw: bool) -> (r: Self)
        ensures
            r@ == self@.insert("raw"@, Datum::Bool(raw)),
    {
        proof {
            reveal_strlit("raw");
        }
        self.set("raw", Value::Bool(raw))
    }
}

impl DataRead {
    /// The type of the data: `text`, `png`, `jpeg`, `html` or `rtf`.
    pub fn data_type(self, data_type: &str) -> (r: Self)
        ensures
            r@ == self@.insert("type"@, Datum::Text(data_type@)),
    {
        proof {
            reveal_strlit("type");
        }
        self.set("type", Value::text(data_type))
    }

    /// Whether an image comes as it is, without a header.
    pub fn raw(self, raw: bool) -> (r: Self)
        ensures
            r@ == self@.insert("raw"@, Datum::Bool(raw)),
    {
        proof {
            reveal_strlit("raw");
        }
        self.set("raw", Value::Bool(raw))
    }
}

impl From<(String, Option<bool>)> for DataRead {
    /// What asks for the data of the given type, raw or not where that is
    /// said.
    fn from(info: (String, Option<bool>)) -> (r: DataRead)
        ensures
            r@ == read_request(info),
    {
        let option = DataRead::new().data_type(info.0.as_str());
        if let Some(raw) = info.1 {
            option.raw(raw)
        } else {
            option
        }
    }
}

/// A specification cannot make a dictionary, so `from_spec` says nothing: the
/// contract of `from` speaks of the view.
impl FromSpecImpl<(String, Option<bool>)> for DataRead {
    open spec fn obeys_from_spec() -> bool {
        false
    }

    open spec fn from_spec(info: (String, Option<bool>)) -> DataRead {
        arbitrary()
    }
}

} // verus!
