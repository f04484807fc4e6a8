//! Host values as plain data.
//!
//! The host hands out and takes values of a handful of kinds: the two empty
//! values, booleans, numbers, text, lists, dictionaries, and objects that only
//! the host can look into. A [`Value`] holds one of them as plain data, and its
//! view, a [`Datum`], is what the contracts of this crate speak of.

use crate::number::Number;
use vstd::prelude::*;
use vstd::string::*;

verus! {

/// An object of the host that this crate passes on without looking into it: a
/// function, a menu, a buffer. The number is the caller's to choose and to find
/// the object by.
#[derive(Clone, Copy, Debug, PartialEq, Eq, Structural)]
pub struct Handle {
    pub id: u64,
}

/// The mathematical content of a [`Value`].
pub enum Datum {
    Undefined,
    Null,
    Bool(bool),
    Number(Number),
    Text(Seq<char>),
    List(Seq<Datum>),
    Dict(Map<Seq<char>, Datum>),
    Handle(Handle),
}

/// A host value held as plain data.
#[derive(Debug, PartialEq, Eq)]
pub enum Value {
    Undefined,
    Null,
    Bool(bool),
    Number(Number),
    Text(String),
    List(Vec<Value>),
    Dict(Dict),
    Handle(Handle),
}

/// A dictionary of the host: named fields in the order in which they were
/// first written. Where a name stands twice, the later entry is the field.
#[derive(Debug, PartialEq, Eq)]
pub struct Dict {
    pub entries: Vec<(String, Value)>,
}

/// The fields that the first `n` entries denote.
pub open spec fn fields_of(entries: Seq<(String, Value)>, n: nat) -> Map<Seq<char>, Datum>
    decreases entries, n,
{
    if n == 0 || n > entries.len() {
        Map::empty()
    } else {
        fields_of(entries, (n - 1) as nat).insert(entries[n - 1].0@, entries[n - 1].1.view())
    }
}

/// The contents of the items of a list.
pub open spec fn items_of(items: Seq<Value>) -> Seq<Datum>
    decreases items, 0nat,
{
    Seq::new(
        items.len(),
        |i: int|
            if 0 <= i < items.len() {
                items[i].view()
            } else {
                Datum::Undefined
            },
    )
}

impl View for Value {
    type V = Datum;

    open spec fn view(&self) -> Datum
        decreases *self, 0nat,
    {
        match *self {
            Value::Undefined => Datum::Undefined,
            Value::Null => Datum::Null,
            Value::Bool(b) => Datum::Bool(b),
            Value::Number(n) => Datum::Number(n),
            Value::Text(s) => Datum::Text(s@),
            Value::List(items) => Datum::List(items_of(items@)),
            Value::Dict(d) => Datum::Dict(fields_of(d.entries@, d.entries@.len())),
            Value::Handle(h) => Datum::Handle(h),
        }
    }
}

impl View for Dict {
    type V = Map<Seq<char>, Datum>;

    open spec fn view(&self) -> Map<Seq<char>, Datum> {
        fields_of(self.entries@, self.entries@.len())
    }
}

/// The field of the given name, the value `undefined` where there is none.
pub open spec fn field(fields: Map<Seq<char>, Datum>, name: Seq<char>) -> Datum {
    if fields.contains_key(name) {
        fields[name]
    } else {
        Datum::Undefined
    }
}

/// The number that holds the integer `n`, as a datum.
pub open spec fn whole(n: int) -> Datum {
    Datum::Number(Number::of_int(n))
}

/// How a value shows inside a message: an empty value and a boolean by its
/// word, a text between double quotes, anything else by the name of its kind.
pub open spec fn shown(d: Datum) -> Seq<char> {
    match d {
        Datum::Undefined => "undefined"@,
        Datum::Null => "null"@,
        Datum::Bool(b) => if b {
            "true"@
        } else {
            "false"@
        },
        Datum::Number(_) => "number"@,
        Datum::Text(s) => "\""@ + s + "\""@,
        Datum::List(_) => "array"@,
        Datum::Dict(_) => "object"@,
        Datum::Handle(_) => "handle"@,
    }
}

/// How a value shows as a whole: what [`shown`] gives, in brackets behind the
/// word `JsValue`.
pub open spec fn debug_text(d: Datum) -> Seq<char> {
    "JsValue("@ + shown(d) + ")"@
}

/// What the host says when a property is read from a value that has none.
pub open spec fn not_an_object() -> Seq<char> {
    "Reflect.get called on non-object"@
}

/// What reading the property `name` of `target` gives. A dictionary gives the
/// field, `undefined` where it has none. A list and a handle are objects of
/// which this crate holds no properties, so they give `undefined`. The other
/// kinds are no objects, and reading from them fails with a text.
pub open spec fn property_of(target: Datum, name: Seq<char>) -> Result<Datum, Datum> {
    match target {
        Datum::Dict(fields) => Ok(field(fields, name)),
        Datum::List(_) => Ok(Datum::Undefined),
        Datum::Handle(_) => Ok(Datum::Undefined),
        _ => Err(Datum::Text(not_an_object())),
    }
}

/// The content of what a step gave, on either side.
pub open spec fn outcome(r: Result<Value, Value>) -> Result<Datum, Datum> {
    match r {
        Ok(v) => Ok(v@),
        Err(e) => Err(e@),
    }
}

/// The content of each text.
pub open spec fn texts(v: Seq<String>) -> Seq<Seq<char>> {
    Seq::new(v.len(), |i: int| v[i]@)
}

/// The texts among the items, in their order. An item that is no text is
/// left out.
pub open spec fn texts_among(items: Seq<Datum>) -> Seq<Seq<char>>
    decreases items.len(),
{
    if items.len() == 0 {
        Seq::<Seq<char>>::empty()
    } else {
        let before = texts_among(items.drop_last());
        match items.last() {
            Datum::Text(s) => before.push(s),
            _ => before,
        }
    }
}

/// Two runs of entries that agree in names and contents denote the same fields.
pub proof fn lemma_fields_agree(a: Seq<(String, Value)>, b: Seq<(String, Value)>, n: nat)
    requires
        n <= a.len(),
        n <= b.len(),
        forall|j: int| 0 <= j < n ==> (#[trigger] a[j]).0@ == b[j].0@ && a[j].1@ == b[j].1@,
    ensures
        fields_of(a, n) == fields_of(b, n),
    decreases n,
{
    if n > 0 {
        lemma_fields_agree(a, b, (n - 1) as nat);
        assert(a[n - 1].0@ == b[n - 1].0@ && a[n - 1].1@ == b[n - 1].1@);
    }
}

/// A name that no entry from `from` on bears is a field of the whole exactly
/// where it is one of the entries before `from`, with the same content.
pub proof fn lemma_fields_skip(entries: Seq<(String, Value)>, from: nat, n: nat, name: Seq<char>)
    requires
        from <= n <= entries.len(),
        forall|j: int| from <= j < n ==> (#[trigger] entries[j]).0@ != name,
    ensures
        fields_of(entries, n).contains_key(name) == fields_of(entries, from).contains_key(name),
        fields_of(entries, n).contains_key(name) ==> fields_of(entries, n)[name] == fields_of(
            entries,
            from,
        )[name],
    decreases n,
{
    if n > from {
        lemma_fields_skip(entries, from, (n - 1) as nat, name);
        let last = entries[n - 1];
        assert(last.0@ != name);
        assert(fields_of(entries, n) == fields_of(entries, (n - 1) as nat).insert(
            last.0@,
            last.1@,
        ));
    }
}

/// Writing an entry over the last one of its name sets that one field and
/// leaves the others.
pub proof fn lemma_fields_update(
    entries: Seq<(String, Value)>,
    at: nat,
    n: nat,
    entry: (String, Value),
)
    requires
        at < n <= entries.len(),
        entries[at as int].0@ == entry.0@,
        forall|j: int| at < j < n ==> (#[trigger] entries[j]).0@ != entry.0@,
    ensures
        fields_of(entries.update(at as int, entry), n) == fields_of(entries, n).insert(
            entry.0@,
            entry.1@,
        ),
    decreases n,
{
    let updated = entries.update(at as int, entry);
    if n == at + 1 {
        lemma_fields_agree(updated, entries, at);
        assert(fields_of(updated, n) == fields_of(entries, at).insert(entry.0@, entry.1@));
        assert(fields_of(entries, n) == fields_of(entries, at).insert(
            entries[at as int].0@,
            entries[at as int].1@,
        ));
        assert(fields_of(updated, n) =~= fields_of(entries, n).insert(entry.0@, entry.1@));
    } else {
        lemma_fields_update(entries, at, (n - 1) as nat, entry);
        let last = entries[n - 1];
        assert(last.0@ != entry.0@);
        assert(updated[n - 1] == last);
        assert(fields_of(entries, n) == fields_of(entries, (n - 1) as nat).insert(
            last.0@,
            last.1@,
        ));
        assert(fields_of(updated, n) == fields_of(updated, (n - 1) as nat).insert(
            last.0@,
            last.1@,
        ));
        assert(fields_of(updated, n) =~= fields_of(entries, n).insert(entry.0@, entry.1@));
    }
}

/// A field has an entry that bears its name.
pub proof fn lemma_field_has_entry(entries: Seq<(String, Value)>, n: nat, name: Seq<char>)
    requires
        n <= entries.len(),
        fields_of(entries, n).contains_key(name),
    ensures
        exists|j: int| 0 <= j < n && (#[trigger] entries[j]).0@ == name,
    decreases n,
{
    if n > 0 {
        let last = entries[n - 1];
        assert(fields_of(entries, n) == fields_of(entries, (n - 1) as nat).insert(
            last.0@,
            last.1@,
        ));
        if last.0@ != name {
            lemma_field_has_entry(entries, (n - 1) as nat, name);
        }
    }
}

/// Whether two lists hold the same contents, item by item.
fn same_items(a: &Vec<Value>, b: &Vec<Value>) -> (r: bool)
    ensures
        r == (items_of(a@) == items_of(b@)),
    decreases *a,
{
    if a.len() != b.len() {
        assert(items_of(a@).len() != items_of(b@).len());
        return false;
    }
    let mut i: usize = 0;
    while i < a.len()
        invariant
            i <= a@.len(),
            a@.len() == b@.len(),
            forall|j: int| 0 <= j < i ==> (#[trigger] a@[j])@ == b@[j]@,
        decreases a@.len() - i,
    {
        if !a[i].same(&b[i]) {
            assert(items_of(a@)[i as int] != items_of(b@)[i as int]);
            return false;
        }
        i = i + 1;
    }
    assert(items_of(a@) =~= items_of(b@));
    true
}

/// Whether each field of `a` is a field of `b`, with the same content.
fn fields_within(a: &Dict, b: &Dict) -> (r: bool)
    ensures
        r == (forall|k: Seq<char>| #[trigger]
            a@.contains_key(k) ==> b@.contains_key(k) && a@[k] == b@[k]),
    decreases *a,
{
    let mut i: usize = 0;
    while i < a.entries.len()
        invariant
            i <= a.entries@.len(),
            forall|j: int|
                0 <= j < i ==> {
                    let name = (#[trigger] a.entries@[j]).0@;
                    b@.contains_key(name) && a@[name] == b@[name]
                },
        decreases a.entries@.len() - i,
    {
        let name = &a.entries[i].0;
        let at = match a.find(name) {
            Some(at) => at,
            None => { return false; },
        };
        proof {
            let found = a.entries@[at as int];
            lemma_fields_skip(a.entries@, (at + 1) as nat, a.entries@.len(), name@);
            assert(fields_of(a.entries@, (at + 1) as nat) == fields_of(
                a.entries@,
                at as nat,
            ).insert(found.0@, found.1@));
        }
        match b.find(name) {
            Some(other) => {
                proof {
                    let found = b.entries@[other as int];
                    lemma_fields_skip(b.entries@, (other + 1) as nat, b.entries@.len(), name@);
                    assert(fields_of(b.entries@, (other + 1) as nat) == fields_of(
                        b.entries@,
                        other as nat,
                    ).insert(found.0@, found.1@));
                }
                if !a.entries[at].1.same(&b.entries[other].1) {
                    assert(a@.contains_key(name@) && a@[name@] != b@[name@]);
                    return false;
                }
            },
            None => {
                proof {
                    lemma_fields_skip(b.entries@, 0, b.entries@.len(), name@);
                }
                assert(a@.contains_key(name@) && !b@.contains_key(name@));
                return false;
            },
        }
        i = i + 1;
    }
    assert forall|k: Seq<char>| #[trigger] a@.contains_key(k) implies b@.contains_key(k) && a@[k]
        == b@[k] by {
        lemma_field_has_entry(a.entries@, a.entries@.len(), k);
        let j = choose|j: int| 0 <= j < a.entries@.len() && (#[trigger] a.entries@[j]).0@ == k;
        assert(b@.contains_key(a.entries@[j].0@));
    }
    true
}

/// Whether each name of a field of `a` is the name of a field of `b`.
fn names_within(a: &Dict, b: &Dict) -> (r: bool)
    ensures
        r == (forall|k: Seq<char>| #[trigger] a@.contains_key(k) ==> b@.contains_key(k)),
{
    let mut i: usize = 0;
    while i < a.entries.len()
        invariant
            i <= a.entries@.len(),
            forall|j: int| 0 <= j < i ==> b@.contains_key((#[trigger] a.entries@[j]).0@),
        decreases a.entries@.len() - i,
    {
        if !b.contains_key(a.entries[i].0.as_str()) {
            proof {
                let name = a.entries@[i as int].0@;
                lemma_name_is_field(a.entries@, i as int);
                assert(a@.contains_key(name) && !b@.contains_key(name));
            }
            return false;
        }
        i = i + 1;
    }
    assert forall|k: Seq<char>| #[trigger] a@.contains_key(k) implies b@.contains_key(k) by {
        lemma_field_has_entry(a.entries@, a.entries@.len(), k);
        let j = choose|j: int| 0 <= j < a.entries@.len() && (#[trigger] a.entries@[j]).0@ == k;
        assert(b@.contains_key(a.entries@[j].0@));
    }
    true
}

/// The name of each entry is the name of a field.
pub proof fn lemma_name_is_field(entries: Seq<(String, Value)>, at: int)
    requires
        0 <= at < entries.len(),
    ensures
        fields_of(entries, entries.len()).contains_key(entries[at].0@),
{
    lemma_name_stays(entries, at, entries.len());
}

/// The name of an entry is the name of a field of every run of entries that
/// reaches beyond it.
proof fn lemma_name_stays(entries: Seq<(String, Value)>, at: int, n: nat)
    requires
        0 <= at < n <= entries.len(),
    ensures
        fields_of(entries, n).contains_key(entries[at].0@),
    decreases n,
{
    let last = entries[n - 1];
    assert(fields_of(entries, n) == fields_of(entries, (n - 1) as nat).insert(last.0@, last.1@));
    if at < n - 1 {
        lemma_name_stays(entries, at, (n - 1) as nat);
    }
}

/// A copy of each item.
fn clone_items(items: &Vec<Value>) -> (r: Vec<Value>)
    ensures
        items_of(r@) == items_of(items@),
    decreases *items,
{
    let mut out: Vec<Value> = Vec::new();
    let mut i: usize = 0;
    while i < items.len()
        invariant
            i <= items@.len(),
            out@.len() == i,
            forall|j: int| 0 <= j < i ==> (#[trigger] out@[j])@ == items@[j]@,
        decreases items@.len() - i,
    {
        out.push(items[i].clone());
        i = i + 1;
    }
    assert(items_of(out@) =~= items_of(items@));
    out
}

/// A copy of each entry.
fn clone_entries(entries: &Vec<(String, Value)>) -> (r: Vec<(String, Value)>)
    ensures
        r@.len() == entries@.len(),
        fields_of(r@, r@.len()) == fields_of(entries@, entries@.len()),
    decreases *entries,
{
    let mut out: Vec<(String, Value)> = Vec::new();
    let mut i: usize = 0;
    while i < entries.len()
        invariant
            i <= entries@.len(),
            out@.len() == i,
            forall|j: int|
                0 <= j < i ==> (#[trigger] out@[j]).0@ == entries@[j].0@ && out@[j].1@
                    == entries@[j].1@,
        decreases entries@.len() - i,
    {
        out.push((entries[i].0.clone(), entries[i].1.clone()));
        i = i + 1;
    }
    proof {
        lemma_fields_agree(out@, entries@, out@.len());
    }
    out
}

impl Clone for Value {
    /// A copy with the same content.
    fn clone(&self) -> (r: Value)
        ensures
            r@ == self@,
        decreases *self,
    {
        match self {
            Value::Undefined => Value::Undefined,
            Value::Null => Value::Null,
            Value::Bool(b) => Value::Bool(*b),
            Value::Number(n) => Value::Number(*n),
            Value::Text(s) => Value::Text(s.clone()),
            Value::List(items) => Value::List(clone_items(items)),
            Value::Dict(d) => Value::Dict(Dict { entries: clone_entries(&d.entries) }),
            Value::Handle(h) => Value::Handle(*h),
        }
    }
}

impl Clone for Dict {
    /// A copy with the same fields.
    fn clone(&self) -> (r: Dict)
        ensures
            r@ == self@,
    {
        Dict { entries: clone_entries(&self.entries) }
    }
}

impl Value {
    /// The value that holds the given text.
    pub fn text(s: &str) -> (r: Value)
        ensures
            r@ == Datum::Text(s@),
    {
        Value::Text(String::from_str(s))
    }

    /// The number that holds an unsigned 32-bit integer, as a value.
    pub fn from_u32(n: u32) -> (r: Value)
        ensures
            r@ == whole(n as int),
    {
        Value::Number(Number::from_u32(n))
    }

    /// The number that holds a signed 32-bit integer, as a value.
    pub fn from_i32(n: i32) -> (r: Value)
        ensures
            r@ == whole(n as int),
    {
        Value::Number(Number::from_i32(n))
    }

    /// Whether the value is `undefined`.
    pub fn is_undefined(&self) -> (r: bool)
        ensures
            r == (self@ is Undefined),
    {
        match self {
            Value::Undefined => true,
            _ => false,
        }
    }

    /// The text, where the value is one.
    pub fn as_string(&self) -> (r: Option<String>)
        ensures
            match r {
                Some(s) => self@ == Datum::Text(s@),
                None => !(self@ is Text),
            },
    {
        match self {
            Value::Text(s) => Some(s.clone()),
            _ => None,
        }
    }

    /// The boolean, where the value is one.
    pub fn as_bool(&self) -> (r: Option<bool>)
        ensures
            match r {
                Some(b) => self@ == Datum::Bool(b),
                None => !(self@ is Bool),
            },
    {
        match self {
            Value::Bool(b) => Some(*b),
            _ => None,
        }
    }

    /// The number, where the value is one.
    pub fn as_number(&self) -> (r: Option<Number>)
        ensures
            match r {
                Some(n) => self@ == Datum::Number(n),
                None => !(self@ is Number),
            },
    {
        match self {
            Value::Number(n) => Some(*n),
            _ => None,
        }
    }

    /// Whether two values hold the same content. Dictionaries are compared
    /// by their fields, whatever the order of their entries.
    pub fn same(&self, other: &Value) -> (r: bool)
        ensures
            r == (self@ == other@),
        decreases *self,
    {
        match (self, other) {
            (Value::Undefined, Value::Undefined) => true,
            (Value::Null, Value::Null) => true,
            (Value::Bool(a), Value::Bool(b)) => *a == *b,
            (Value::Number(a), Value::Number(b)) => a.bits == b.bits,
            (Value::Text(a), Value::Text(b)) => *a == *b,
            (Value::List(a), Value::List(b)) => same_items(a, b),
            (Value::Dict(a), Value::Dict(b)) => {
                let within = fields_within(a, b);
                let covered = names_within(b, a);
                proof {
                    if within && covered {
                        assert(a@ =~= b@);
                    }
                }
                within && covered
            },
            (Value::Handle(a), Value::Handle(b)) => a.id == b.id,
            _ => false,
        }
    }

    /// How the value shows inside a message.
    pub fn shown(&self) -> (r: String)
        ensures
            r@ == shown(self@),
    {
        match self {
            Value::Undefined => String::from_str("undefined"),
            Value::Null => String::from_str("null"),
            Value::Bool(b) => if *b {
                String::from_str("true")
            } else {
                String::from_str("false")
            },
            Value::Number(_) => String::from_str("number"),
            Value::Text(s) => {
                let mut out = String::from_str("\"");
                out.append(s.as_str());
                out.append("\"");
                out
            },
            Value::List(_) => String::from_str("array"),
            Value::Dict(_) => String::from_str("object"),
            Value::Handle(_) => String::from_str("handle"),
        }
    }

    /// How the value shows as a whole.
    pub fn debug_text(&self) -> (r: String)
        ensures
            r@ == debug_text(self@),
    {
        let mut out = String::from_str("JsValue(");
        let inner = self.shown();
        out.append(inner.as_str());
        out.append(")");
        out
    }

    /// Reads a property as the host would.
    pub fn property(&self, name: &str) -> (r: Result<Value, Value>)
        ensures
            outcome(r) == property_of(self@, name@),
    {
        match self {
            Value::Dict(d) => match d.get(name) {
                Some(v) => Ok(v.clone()),
                None => Ok(Value::Undefined),
            },
            Value::List(_) => Ok(Value::Undefined),
            Value::Handle(_) => Ok(Value::Undefined),
            _ => Err(Value::text("Reflect.get called on non-object")),
        }
    }
}

/// Collects the texts among the items. An item that is no text is passed
/// over.
pub fn collect_texts(items: &Vec<Value>) -> (r: Vec<String>)
    ensures
        texts(r@) == texts_among(items_of(items@)),
{
    let mut list: Vec<String> = Vec::new();
    let mut index: usize = 0;
    assert(items_of(items@).take(0) =~= Seq::<Datum>::empty());
    assert(texts(list@) =~= Seq::<Seq<char>>::empty());
    while index < items.len()
        invariant
            index <= items@.len(),
            texts(list@) == texts_among(items_of(items@).take(index as int)),
        decreases items@.len() - index,
    {
        proof {
            let upto = items_of(items@).take(index + 1);
            assert(upto.drop_last() =~= items_of(items@).take(index as int));
            assert(upto.last() == items@[index as int]@);
        }
        match items[index].as_string() {
            Some(v) => {
                proof {
                    assert(texts(list@.push(v)) =~= texts(list@).push(v@));
                }
                list.push(v);
            },
            None => {},
        }
        index = index + 1;
    }
    assert(items_of(items@).take(items@.len() as int) =~= items_of(items@));
    list
}

impl Dict {
    /// A dictionary without fields.
    pub fn new() -> (r: Dict)
        ensures
            r@ == Map::<Seq<char>, Datum>::empty(),
    {
        Dict { entries: Vec::new() }
    }

    /// The place of the last entry of the given name, if there is one.
    fn find(&self, name: &String) -> (r: Option<usize>)
        ensures
            match r {
                Some(at) => {
                    &&& at < self.entries@.len()
                    &&& self.entries@[at as int].0@ == name@
                    &&& forall|j: int|
                        at < j < self.entries@.len() ==> (#[trigger] self.entries@[j]).0@ != name@
                },
                None => forall|j: int|
                    0 <= j < self.entries@.len() ==> (#[trigger] self.entries@[j]).0@ != name@,
            },
    {
        let mut i: usize = self.entries.len();
        while i > 0
            invariant
                i <= self.entries@.len(),
                forall|j: int|
                    i <= j < self.entries@.len() ==> (#[trigger] self.entries@[j]).0@ != name@,
            decreases i,
        {
            i = i - 1;
            if self.entries[i].0 == *name {
                return Some(i);
            }
        }
        None
    }

    /// Whether the dictionary has a field of the given name.
    pub fn contains_key(&self, name: &str) -> (r: bool)
        ensures
            r == self@.contains_key(name@),
    {
        let name = String::from_str(name);
        match self.find(&name) {
            Some(at) => {
                proof {
                    let n = self.entries@.len();
                    let found = self.entries@[at as int];
                    lemma_fields_skip(self.entries@, (at + 1) as nat, n, name@);
                    assert(fields_of(self.entries@, (at + 1) as nat) == fields_of(
                        self.entries@,
                        at as nat,
                    ).insert(found.0@, found.1@));
                }
                true
            },
            None => {
                proof {
                    lemma_fields_skip(self.entries@, 0, self.entries@.len(), name@);
                }
                false
            },
        }
    }

    /// The field of the given name, if there is one.
    pub fn get(&self, name: &str) -> (r: Option<&Value>)
        ensures
            match r {
                Some(v) => self@.contains_key(name@) && self@[name@] == v@,
                None => !self@.contains_key(name@),
            },
    {
        let name = String::from_str(name);
        match self.find(&name) {
            Some(at) => {
                proof {
                    let n = self.entries@.len();
                    let found = self.entries@[at as int];
                    lemma_fields_skip(self.entries@, (at + 1) as nat, n, name@);
                    assert(fields_of(self.entries@, (at + 1) as nat) == fields_of(
                        self.entries@,
                        at as nat,
                    ).insert(found.0@, found.1@));
                }
                Some(&self.entries[at].1)
            },
            None => {
                proof {
                    lemma_fields_skip(self.entries@, 0, self.entries@.len(), name@);
                }
                None
            },
        }
    }

    /// Sets the field of the given name, whether or not there was one. A new
    /// name goes behind the entries that are there; a known one keeps its
    /// place, the last where it stood more than once.
    pub fn insert(&mut self, name: String, value: Value)
        ensures
            final(self)@ == old(self)@.insert(name@, value@),
            !old(self)@.contains_key(name@) ==> final(self).entries@ == old(self).entries@.push(
                (name, value),
            ),
            old(self)@.contains_key(name@) ==> exists|at: int|
                {
                    &&& 0 <= at < old(self).entries@.len()
                    &&& old(self).entries@[at].0@ == name@
                    &&& forall|j: int|
                        at < j < old(self).entries@.len() ==> (#[trigger] old(
                            self,
                        ).entries@[j]).0@ != name@
                    &&& final(self).entries@ == old(self).entries@.update(at, (name, value))
                },
    {
        match self.find(&name) {
            Some(at) => {
                proof {
                    let n = self.entries@.len();
                    let found = self.entries@[at as int];
                    lemma_fields_skip(self.entries@, (at + 1) as nat, n, name@);
                    assert(fields_of(self.entries@, (at + 1) as nat) == fields_of(
                        self.entries@,
                        at as nat,
                    ).insert(found.0@, found.1@));
                    lemma_fields_update(
                        self.entries@,
                        at as nat,
                        self.entries@.len(),
                        (name, value),
                    );
                }
                self.entries.set(at, (name, value));
            },
            None => {
                proof {
                    lemma_fields_skip(self.entries@, 0, self.entries@.len(), name@);
                    lemma_fields_agree(
                        self.entries@.push((name, value)),
                        self.entries@,
                        self.entries@.len(),
                    );
                }
                self.entries.push((name, value));
            },
        }
    }

    /// Whether two dictionaries have the same fields, whatever the order of
    /// their entries.
    pub fn same_fields(&self, other: &Dict) -> (r: bool)
        ensures
            r == (self@ == other@),
    {
        let within = fields_within(self, other);
        let covered = names_within(other, self);
        proof {
            if within && covered {
                assert(self@ =~= other@);
            }
        }
        within && covered
    }

    /// The number of entries, counting a name as often as it stands.
    pub fn len(&self) -> (r: usize)
        ensures
            r == self.entries@.len(),
    {
        self.entries.len()
    }
}

} // verus!
