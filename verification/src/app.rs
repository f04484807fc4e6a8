//! The command line of the application, as the host lists it.

use crate::result::Result;
use crate::value::{collect_texts, items_of, texts, texts_among, Datum, Value};
use vstd::prelude::*;
use vstd::string::*;

verus! {

/// Collects the arguments that are texts. An argument that is none is passed
/// over, so the work never fails.
pub fn build_argv_str(argv: &Vec<Value>) -> (r: Result<Vec<String>>)
    ensures
        r matches Ok(list) && texts(list@) == texts_among(items_of(argv@)),
{
    Ok(collect_texts(argv))
}

/// Collects the patterns by which the host filters the command line: each
/// item as it is.
pub fn build_argv_filters(argv: &Vec<Value>) -> (r: Result<Vec<Value>>)
    ensures
        r matches Ok(list) && items_of(list@) == items_of(argv@),
{
    let mut list: Vec<Value> = Vec::new();
    let mut index: usize = 0;
    while index < argv.len()
        invariant
            index <= argv@.len(),
            list@.len() == index,
            forall|i: int| 0 <= i < index ==> (#[trigger] list@[i])@ == argv@[i]@,
        decreases argv@.len() - index,
    {
        list.push(argv[index].clone());
        index = index + 1;
    }
    assert(items_of(list@) =~= items_of(argv@));
    Ok(list)
}

/// The arguments of the application, out of the host's list of them with the
/// host's own arguments taken out.
pub fn argv(filtered: &Vec<Value>) -> (r: Result<Vec<String>>)
    ensures
        r matches Ok(list) && texts(list@) == texts_among(items_of(filtered@)),
{
    build_argv_str(filtered)
}

/// All arguments, out of the host's full list of them.
pub fn full_argv(full: &Vec<Value>) -> (r: Result<Vec<String>>)
    ensures
        r matches Ok(list) && texts(list@) == texts_among(items_of(full@)),
{
    build_argv_str(full)
}

/// The patterns of the arguments that the host keeps to itself.
pub fn filtered_argv(patterns: &Vec<Value>) -> (r: Result<Vec<Value>>)
    ensures
        r matches Ok(list) && items_of(list@) == items_of(patterns@),
{
    build_argv_filters(patterns)
}

/// Passing over what is no text never makes the list longer, and makes it no
/// shorter where every item is a text.
pub proof fn lemma_texts_among_len(items: Seq<Datum>)
    ensures
        texts_among(items).len() <= items.len(),
        (forall|i: int| 0 <= i < items.len() ==> items[i] is Text) ==> texts_among(items).len()
            == items.len(),
    decreases items.len(),
{
    if items.len() > 0 {
        lemma_texts_among_len(items.drop_last());
        if forall|i: int| 0 <= i < items.len() ==> items[i] is Text {
            assert forall|i: int| 0 <= i < items.drop_last().len() implies items.drop_last()[i]
                is Text by {
                assert(items.drop_last()[i] == items[i]);
            }
            assert(items.last() is Text);
        }
    }
}

} // verus!
