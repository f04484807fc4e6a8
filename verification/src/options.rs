//! Option builders: dictionaries that are filled by chained setters.

use crate::value::{items_of, texts, Datum, Dict, Value};
use vstd::prelude::*;
use vstd::string::*;

verus! {

/// The pieces of `s` that lie between the occurrences of `sep`. There is one
/// more piece than there are separators, and a piece may be empty.
pub open spec fn split(s: Seq<char>, sep: char) -> Seq<Seq<char>>
    decreases s.len(),
{
    if s.len() == 0 {
        seq![Seq::<char>::empty()]
    } else {
        let before = split(s.drop_last(), sep);
        if s.last() == sep {
            before.push(Seq::<char>::empty())
        } else {
            before.drop_last().push(before.last().push(s.last()))
        }
    }
}

/// The pieces put together again, with `sep` between each two.
pub open spec fn join(pieces: Seq<Seq<char>>, sep: char) -> Seq<char>
    decreases pieces.len(),
{
    if pieces.len() == 0 {
        Seq::<char>::empty()
    } else if pieces.len() == 1 {
        pieces[0]
    } else {
        join(pieces.drop_last(), sep).push(sep) + pieces.last()
    }
}

/// The dictionary under the given name: the field where it holds one, an empty
/// one where the field is missing or holds anything else.
pub open spec fn child(fields: Map<Seq<char>, Datum>, name: Seq<char>) -> Map<Seq<char>, Datum> {
    if fields.contains_key(name) && fields[name] is Dict {
        fields[name]->Dict_0
    } else {
        Map::empty()
    }
}

/// The fields after `value` was written at the end of `path`. Each name but
/// the last leads into the dictionary under it, which is made where the field
/// is missing, and which takes the place of whatever else the field held.
pub open spec fn assign(fields: Map<Seq<char>, Datum>, path: Seq<Seq<char>>, value: Datum) -> Map<
    Seq<char>,
    Datum,
>
    decreases path.len(),
{
    if path.len() == 0 {
        fields
    } else if path.len() == 1 {
        fields.insert(path[0], value)
    } else {
        fields.insert(
            path[0],
            Datum::Dict(assign(child(fields, path[0]), path.drop_first(), value)),
        )
    }
}

/// Cuts a key at its dots.
pub fn split_dots(key: &str) -> (r: Vec<String>)
    ensures
        texts(r@) == split(key@, '.'),
{
    let n = key.unicode_len();
    let mut out: Vec<String> = Vec::new();
    let mut start: usize = 0;
    let mut i: usize = 0;
    assert(key@.take(0) =~= Seq::<char>::empty());
    assert(key@.subrange(0, 0) =~= Seq::<char>::empty());
    assert(texts(out@).push(key@.subrange(0, 0)) =~= seq![Seq::<char>::empty()]);
    while i < n
        invariant
            start <= i <= n,
            n == key@.len(),
            split(key@.take(i as int), '.') == texts(out@).push(
                key@.subrange(start as int, i as int),
            ),
        decreases n - i,
    {
        let c = key.get_char(i);
        proof {
            let upto = key@.take(i + 1);
            assert(upto.drop_last() =~= key@.take(i as int));
            assert(upto.last() == c);
            let before = split(key@.take(i as int), '.');
            assert(before.drop_last() =~= texts(out@));
            assert(before.last() == key@.subrange(start as int, i as int));
            assert(key@.subrange(start as int, i as int).push(c) =~= key@.subrange(
                start as int,
                i + 1,
            ));
            assert(key@.subrange(i + 1, i + 1) =~= Seq::<char>::empty());
        }
        if c == '.' {
            let piece = String::from_str(key.substring_char(start, i));
            proof {
                assert(texts(out@.push(piece)) =~= texts(out@).push(piece@));
            }
            out.push(piece);
            start = i + 1;
        }
        i = i + 1;
    }
    let piece = String::from_str(key.substring_char(start, n));
    proof {
        assert(key@.take(n as int) =~= key@);
        assert(texts(out@.push(piece)) =~= texts(out@).push(piece@));
    }
    out.push(piece);
    out
}

/// Writes `value` at the end of the path that starts at `path[from]`.
fn assign_from(dict: &mut Dict, path: &Vec<String>, from: usize, value: Value)
    requires
        from < path@.len(),
    ensures
        final(dict)@ == assign(old(dict)@, texts(path@).skip(from as int), value@),
    decreases path@.len() - from,
{
    let ghost rest = texts(path@).skip(from as int);
    assert(rest.len() == path@.len() - from);
    assert(rest[0] == path@[from as int]@);
    if from == path.len() - 1 {
        dict.insert(path[from].clone(), value);
    } else {
        let mut inner = match dict.get(path[from].as_str()) {
            Some(Value::Dict(d)) => d.clone(),
            _ => Dict::new(),
        };
        assert(inner@ == child(dict@, rest[0]));
        assert(rest.drop_first() =~= texts(path@).skip(from + 1));
        assign_from(&mut inner, path, from + 1, value);
        dict.insert(path[from].clone(), Value::Dict(inner));
    }
}

/// Writes `value` under `key`. A key with dots in it is a path: see [`assign`].
pub fn assign_key(dict: &mut Dict, key: &str, value: Value)
    ensures
        final(dict)@ == assign(old(dict)@, split(key@, '.'), value@),
{
    let path = split_dots(key);
    proof {
        lemma_split_len(key@, '.');
        assert(texts(path@).skip(0) =~= texts(path@));
    }
    assign_from(dict, &path, 0, value);
}

/// A key without a dot is its own and only piece.
pub proof fn lemma_split_plain(s: Seq<char>, sep: char)
    requires
        !s.contains(sep),
    ensures
        split(s, sep) == seq![s],
    decreases s.len(),
{
    if s.len() == 0 {
        assert(s =~= Seq::<char>::empty());
    } else {
        let front = s.drop_last();
        assert forall|i: int| 0 <= i < front.len() implies front[i] != sep by {
            assert(s[i] == front[i]);
            assert(s.contains(s[i]));
        }
        assert(!front.contains(sep));
        lemma_split_plain(front, sep);
        assert(s.contains(s.last()));
        assert(front.push(s.last()) =~= s);
        assert(seq![front].drop_last().push(front.push(s.last())) =~= seq![s]);
    }
}

/// A builder of options: a dictionary behind chained setters.
pub trait OptionsExt: Sized {
    /// The fields written so far.
    spec fn fields(&self) -> Map<Seq<char>, Datum>;

    /// The fields of a builder on which `initialize` has run.
    spec fn initialized(fields: Map<Seq<char>, Datum>) -> Map<Seq<char>, Datum>;

    /// The builder over the given dictionary.
    fn from_dict(dict: Dict) -> (r: Self)
        ensures
            r.fields() == dict@,
    ;

    /// The dictionary that the builder has filled.
    fn into_dict(self) -> (r: Dict)
        ensures
            r@ == self.fields(),
    ;

    /// A look at the dictionary that the builder is filling.
    fn as_dict(&self) -> (r: &Dict)
        ensures
            r@ == self.fields(),
    ;

    /// Writes the fields that a fresh builder starts with.
    fn initialize(self) -> (r: Self)
        ensures
            r.fields() == Self::initialized(self.fields()),
    ;

    /// A fresh builder, initialized.
    fn new() -> (r: Self)
        ensures
            r.fields() == Self::initialized(Map::empty()),
    {
        Self::from_dict(Dict::new()).initialize()
    }

    /// Writes `value` under `key` and hands the builder back. A key with dots
    /// in it is a path into nested dictionaries: see [`assign`].
    fn set(self, key: &str, value: Value) -> (r: Self)
        ensures
            r.fields() == assign(self.fields(), split(key@, '.'), value@),
            !key@.contains('.') ==> r.fields() == self.fields().insert(key@, value@),
    {
        let mut dict = self.into_dict();
        proof {
            if !key@.contains('.') {
                lemma_split_plain(key@, '.');
            }
        }
        assign_key(&mut dict, key, value);
        Self::from_dict(dict)
    }
}

/// The dictionaries that the builders have filled, one item for each.
pub open spec fn dicts_of<T: OptionsExt>(list: Seq<T>) -> Seq<Datum> {
    Seq::new(list.len(), |i: int| Datum::Dict(list[i].fields()))
}

/// Turns builders into the list of their dictionaries.
pub fn into_values<T: OptionsExt>(list: Vec<T>) -> (r: Vec<Value>)
    ensures
        items_of(r@) == dicts_of(list@),
{
    let mut array: Vec<Value> = Vec::new();
    let ghost all = list@;
    for item in iter: list
        invariant
            iter.seq() == all,
            array@.len() == iter.index(),
            forall|j: int| 0 <= j < array@.len() ==> (#[trigger] array@[j])@ == Datum::Dict(
                all[j].fields(),
            ),
    {
        array.push(Value::Dict(item.into_dict()));
    }
    assert(items_of(array@) =~= dicts_of(all));
    array
}

/// Whether the path `p` is the path `q` or the beginning of it.
pub open spec fn leads_to(p: Seq<Seq<char>>, q: Seq<Seq<char>>) -> bool {
    p.len() <= q.len() && q.take(p.len() as int) == p
}

/// Two writes come to the same in either order, as long as neither path is
/// the other or the beginning of it.
pub proof fn lemma_assign_commutes(
    fields: Map<Seq<char>, Datum>,
    p: Seq<Seq<char>>,
    v: Datum,
    q: Seq<Seq<char>>,
    w: Datum,
)
    requires
        !leads_to(p, q),
        !leads_to(q, p),
    ensures
        assign(assign(fields, p, v), q, w) == assign(assign(fields, q, w), p, v),
    decreases p.len(),
{
    if p.len() == 0 {
        assert(q.take(0) =~= p);
    } else if q.len() == 0 {
        assert(p.take(0) =~= q);
    } else {
        let a = p[0];
        let b = q[0];
        let first = assign(fields, p, v);
        let second = assign(fields, q, w);
        if a != b {
            assert(child(first, b) == child(fields, b));
            assert(child(second, a) == child(fields, a));
            assert(assign(first, q, w) =~= assign(second, p, v));
        } else {
            if p.len() == 1 {
                assert(q.take(1) =~= p);
            }
            if q.len() == 1 {
                assert(p.take(1) =~= q);
            }
            let inner = child(fields, a);
            let ps = p.drop_first();
            let qs = q.drop_first();
            if leads_to(ps, qs) {
                assert(q.take(p.len() as int) =~= p) by {
                    assert forall|i: int| 0 <= i < p.len() implies q.take(p.len() as int)[i]
                        == p[i] by {
                        if i > 0 {
                            assert(qs.take(ps.len() as int)[i - 1] == ps[i - 1]);
                        }
                    }
                }
            }
            if leads_to(qs, ps) {
                assert(p.take(q.len() as int) =~= q) by {
                    assert forall|i: int| 0 <= i < q.len() implies p.take(q.len() as int)[i]
                        == q[i] by {
                        if i > 0 {
                            assert(ps.take(qs.len() as int)[i - 1] == qs[i - 1]);
                        }
                    }
                }
            }
            lemma_assign_commutes(inner, ps, v, qs, w);
            assert(child(first, a) == assign(inner, ps, v));
            assert(child(second, a) == assign(inner, qs, w));
            assert(assign(first, q, w) =~= assign(second, p, v));
        }
    }
}

/// Two setters that write different fields come to the same in either order:
/// with keys that have no dots, each write sets its one field.
pub proof fn lemma_set_commutes(
    fields: Map<Seq<char>, Datum>,
    key1: Seq<char>,
    value1: Datum,
    key2: Seq<char>,
    value2: Datum,
)
    requires
        key1 != key2,
        !key1.contains('.'),
        !key2.contains('.'),
    ensures
        assign(assign(fields, split(key1, '.'), value1), split(key2, '.'), value2) == assign(
            assign(fields, split(key2, '.'), value2),
            split(key1, '.'),
            value1,
        ),
        assign(assign(fields, split(key1, '.'), value1), split(key2, '.'), value2)
            == fields.insert(key1, value1).insert(key2, value2),
{
    lemma_split_plain(key1, '.');
    lemma_split_plain(key2, '.');
    let p = seq![key1];
    let q = seq![key2];
    assert(q.take(1)[0] == key2);
    assert(p.take(1)[0] == key1);
    lemma_assign_commutes(fields, p, value1, q, value2);
}

/// Cutting a text at a separator and joining the pieces with it gives the
/// text back, and no piece holds the separator.
pub proof fn lemma_join_split(s: Seq<char>, sep: char)
    ensures
        join(split(s, sep), sep) == s,
        forall|i: int|
            0 <= i < split(s, sep).len() ==> !(#[trigger] split(s, sep)[i]).contains(sep),
    decreases s.len(),
{
    lemma_split_len(s, sep);
    if s.len() == 0 {
        assert(join(split(s, sep), sep) =~= s);
    } else {
        let front = s.drop_last();
        let before = split(front, sep);
        lemma_join_split(front, sep);
        lemma_split_len(front, sep);
        if s.last() == sep {
            let pieces = before.push(Seq::<char>::empty());
            assert(pieces.drop_last() =~= before);
            assert(join(pieces, sep) =~= front.push(sep));
            assert(front.push(sep) =~= s);
            assert forall|i: int| 0 <= i < pieces.len() implies !(#[trigger] pieces[i]).contains(
                sep,
            ) by {
                if i < before.len() {
                    assert(pieces[i] == before[i]);
                }
            }
        } else {
            let tail = before.last().push(s.last());
            let pieces = before.drop_last().push(tail);
            assert(pieces.drop_last() =~= before.drop_last());
            assert(!before.last().contains(sep));
            assert forall|j: int| 0 <= j < tail.len() implies tail[j] != sep by {
                if j < before.last().len() {
                    assert(before.last().contains(before.last()[j]));
                }
            }
            assert(!tail.contains(sep));
            if before.len() == 1 {
                assert(join(before, sep) == before[0]);
                assert(join(pieces, sep) =~= front.push(s.last()));
            } else {
                assert(join(before, sep) == join(before.drop_last(), sep).push(sep)
                    + before.last());
                assert(join(pieces, sep) =~= join(before, sep).push(s.last()));
            }
            assert(front.push(s.last()) =~= s);
            assert forall|i: int| 0 <= i < pieces.len() implies !(#[trigger] pieces[i]).contains(
                sep,
            ) by {
                if i < before.len() - 1 {
                    assert(pieces[i] == before[i]);
                }
            }
        }
    }
}

/// Cutting is the only way to take a text apart into pieces that go together
/// again: pieces without the separator are what their joined text is cut
/// into.
pub proof fn lemma_split_join(pieces: Seq<Seq<char>>, sep: char)
    requires
        pieces.len() >= 1,
        forall|i: int| 0 <= i < pieces.len() ==> !(#[trigger] pieces[i]).contains(sep),
    ensures
        split(join(pieces, sep), sep) == pieces,
    decreases join(pieces, sep).len(),
{
    let s = join(pieces, sep);
    let front = pieces.drop_last();
    let tail = pieces.last();
    assert(!tail.contains(sep));
    if pieces.len() >= 2 {
        assert(s == join(front, sep).push(sep) + tail);
    } else {
        assert(s == tail);
    }
    if tail.len() == 0 {
        assert(tail =~= Seq::<char>::empty());
        if pieces.len() == 1 {
            assert(pieces =~= seq![Seq::<char>::empty()]);
        } else {
            assert(s =~= join(front, sep).push(sep));
            assert(s.drop_last() =~= join(front, sep));
            assert forall|i: int| 0 <= i < front.len() implies !(#[trigger] front[i]).contains(
                sep,
            ) by {
                assert(front[i] == pieces[i]);
            }
            lemma_split_join(front, sep);
            assert(front.push(Seq::<char>::empty()) =~= pieces);
        }
    } else {
        let c = tail.last();
        assert(tail.contains(c));
        let shorter = front.push(tail.drop_last());
        assert(shorter.drop_last() =~= front);
        if pieces.len() >= 2 {
            assert(join(shorter, sep) == join(front, sep).push(sep) + tail.drop_last());
            assert(s.drop_last() =~= join(shorter, sep));
        } else {
            assert(join(shorter, sep) == tail.drop_last());
            assert(s.drop_last() =~= join(shorter, sep));
        }
        assert(s.last() == c);
        assert forall|i: int| 0 <= i < shorter.len() implies !(#[trigger] shorter[i]).contains(
            sep,
        ) by {
            if i < front.len() {
                assert(shorter[i] == pieces[i]);
            } else {
                assert forall|j: int| 0 <= j < tail.drop_last().len() implies tail.drop_last()[j]
                    != sep by {
                    assert(tail.contains(tail[j]));
                }
            }
        }
        lemma_split_join(shorter, sep);
        assert(tail.drop_last().push(c) =~= tail);
        assert(shorter.drop_last().push(shorter.last().push(c)) =~= pieces);
    }
}

/// A text has one piece more than it has separators, so at least one.
pub proof fn lemma_split_len(s: Seq<char>, sep: char)
    ensures
        split(s, sep).len() >= 1,
    decreases s.len(),
{
    if s.len() > 0 {
        lemma_split_len(s.drop_last(), sep);
    }
}

} // verus!
