//! Reading typed properties out of host values.

use crate::number::{lemma_of_int_truncates, Number};
use crate::value::{debug_text, property_of, whole, Datum, Value};
use vstd::prelude::*;
use vstd::string::*;

verus! {

/// The text of the failure to read the property `prop` as an integer, where
/// `found` was read in its place.
pub open spec fn u64_failure(prop: Seq<char>, found: Datum) -> Seq<char> {
    "try_get_u64(): error parsing property '"@ + prop + "' with value '"@ + debug_text(found)
        + "'"@
}

/// The text of the failure to read the property `prop` as a number, where
/// `found` was read in its place.
pub open spec fn f64_failure(prop: Seq<char>, found: Datum) -> Seq<char> {
    "try_get_f64(): error parsing property '"@ + prop + "' with value '"@ + debug_text(found)
        + "'"@
}

/// The text of the failure to read the property `prop` as a boolean.
pub open spec fn bool_failure(prop: Seq<char>) -> Seq<char> {
    "try_get_bool(): property "@ + prop + " is missing or not a boolean"@
}

/// The property `prop` of `target` as an unsigned integer: a number cut down
/// to one, a failure for anything else.
pub open spec fn get_u64(target: Datum, prop: Seq<char>) -> Result<u64, Datum> {
    match property_of(target, prop) {
        Err(e) => Err(e),
        Ok(Datum::Number(n)) => Ok(n.truncated() as u64),
        Ok(found) => Err(Datum::Text(u64_failure(prop, found))),
    }
}

/// The property `prop` of `target` as a number, a failure for anything else.
pub open spec fn get_f64(target: Datum, prop: Seq<char>) -> Result<Number, Datum> {
    match property_of(target, prop) {
        Err(e) => Err(e),
        Ok(Datum::Number(n)) => Ok(n),
        Ok(found) => Err(Datum::Text(f64_failure(prop, found))),
    }
}

/// The property `prop` of `target` as a boolean, a failure for anything else.
pub open spec fn get_bool(target: Datum, prop: Seq<char>) -> Result<bool, Datum> {
    match property_of(target, prop) {
        Err(e) => Err(e),
        Ok(Datum::Bool(b)) => Ok(b),
        Ok(_) => Err(Datum::Text(bool_failure(prop))),
    }
}

/// Whether `part` stands somewhere in `text`.
pub open spec fn holds(text: Seq<char>, part: Seq<char>) -> bool {
    exists|at: int| 0 <= at && at + part.len() <= text.len() && #[trigger] text.subrange(
        at,
        at + part.len(),
    ) == part
}

/// Obtains a `u64` from the property `prop`: the number that it holds, cut
/// down as a cast does.
pub fn try_get_u64_from_prop(jsv: &Value, prop: &str) -> (r: Result<u64, Value>)
    ensures
        match r {
            Ok(n) => get_u64(jsv@, prop@) == Ok::<u64, Datum>(n),
            Err(e) => get_u64(jsv@, prop@) == Err::<u64, Datum>(e@),
        },
{
    let v = match jsv.property(prop) {
        Ok(v) => v,
        Err(e) => { return Err(e); },
    };
    match v.as_number() {
        Some(n) => Ok(n.to_u64()),
        None => {
            let mut text = String::from_str("try_get_u64(): error parsing property '");
            text.append(prop);
            text.append("' with value '");
            let shown = v.debug_text();
            text.append(shown.as_str());
            text.append("'");
            Err(Value::Text(text))
        },
    }
}

/// Obtains a number from the property `prop`.
pub fn try_get_f64_from_prop(jsv: &Value, prop: &str) -> (r: Result<Number, Value>)
    ensures
        match r {
            Ok(n) => get_f64(jsv@, prop@) == Ok::<Number, Datum>(n),
            Err(e) => get_f64(jsv@, prop@) == Err::<Number, Datum>(e@),
        },
{
    let v = match jsv.property(prop) {
        Ok(v) => v,
        Err(e) => { return Err(e); },
    };
    match v.as_number() {
        Some(n) => Ok(n),
        None => {
            let mut text = String::from_str("try_get_f64(): error parsing property '");
            text.append(prop);
            text.append("' with value '");
            let shown = v.debug_text();
            text.append(shown.as_str());
            text.append("'");
            Err(Value::Text(text))
        },
    }
}

/// Obtains a `bool` from the property `prop`.
pub fn try_get_bool_from_prop(jsv: &Value, prop: &str) -> (r: Result<bool, Value>)
    ensures
        match r {
            Ok(b) => get_bool(jsv@, prop@) == Ok::<bool, Datum>(b),
            Err(e) => get_bool(jsv@, prop@) == Err::<bool, Datum>(e@),
        },
{
    let v = match jsv.property(prop) {
        Ok(v) => v,
        Err(e) => { return Err(e); },
    };
    match v.as_bool() {
        Some(b) => Ok(b),
        None => {
            let mut text = String::from_str("try_get_bool(): property ");
            text.append(prop);
            text.append(" is missing or not a boolean");
            Err(Value::Text(text))
        },
    }
}

/// Obtains the property `prop` as it is.
pub fn try_get_js_value(this_jsv: &Value, prop: &str) -> (r: Result<Value, Value>)
    ensures
        crate::value::outcome(r) == property_of(this_jsv@, prop@),
{
    this_jsv.property(prop)
}

/// Each failure to read a property names the property.
pub proof fn lemma_failure_names_property(prop: Seq<char>, found: Datum)
    ensures
        holds(u64_failure(prop, found), prop),
        holds(f64_failure(prop, found), prop),
        holds(bool_failure(prop), prop),
{
    let a = "try_get_u64(): error parsing property '"@;
    let u = u64_failure(prop, found);
    assert(u.subrange(a.len() as int, (a.len() + prop.len()) as int) =~= prop);
    let b = "try_get_f64(): error parsing property '"@;
    let f = f64_failure(prop, found);
    assert(f.subrange(b.len() as int, (b.len() + prop.len()) as int) =~= prop);
    let c = "try_get_bool(): property "@;
    let t = bool_failure(prop);
    assert(t.subrange(c.len() as int, (c.len() + prop.len()) as int) =~= prop);
}

/// What stands in a text stands in it with more text before and behind.
pub proof fn lemma_holds_inside(
    before: Seq<char>,
    text: Seq<char>,
    behind: Seq<char>,
    part: Seq<char>,
)
    requires
        holds(text, part),
    ensures
        holds(before + text + behind, part),
{
    let at = choose|at: int|
        0 <= at && at + part.len() <= text.len() && #[trigger] text.subrange(
            at,
            at + part.len(),
        ) == part;
    let whole = before + text + behind;
    let to = before.len() + at;
    assert(whole.subrange(to, to + part.len()) =~= part) by {
        assert forall|i: int| 0 <= i < part.len() implies whole.subrange(to, to + part.len())[i]
            == part[i] by {
            assert(text.subrange(at, at + part.len())[i] == text[at + i]);
        }
    }
}


/// A whole number that a setter wrote under a name is read back from under
/// that name.
pub proof fn lemma_written_number_reads_back(fields: Map<Seq<char>, Datum>, name: Seq<char>, n: u32)
    ensures
        get_u64(Datum::Dict(fields.insert(name, whole(n as int))), name) == Ok::<u64, Datum>(
            n as u64,
        ),
        get_f64(Datum::Dict(fields.insert(name, whole(n as int))), name) == Ok::<Number, Datum>(
            Number::of_int(n as int),
        ),
{
    lemma_of_int_truncates(n as int);
}

} // verus!
