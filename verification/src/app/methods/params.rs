//! JSON-RPC parameter trees as the request builders produce them.
//!
//! A [`ParamValue`] is the part of a JSON document that the builders decide: objects
//! with their keys in insertion order, arrays, unsigned numbers, strings, and JSON
//! text taken verbatim from a form field after it was found to parse.

use vstd::prelude::*;

use crate::text::owned;

verus! {

/// A JSON value built from form input.
#[derive(Debug)]
pub enum ParamValue {
    /// An unsigned integer
    Number(u64),
    /// A string
    Text(String),
    /// JSON text that parses, inserted as the value it denotes
    Raw(String),
    /// An object, keys in insertion order
    Object(Vec<(String, ParamValue)>),
    /// An array
    Array(Vec<ParamValue>),
}

/// Abstract value of a [`ParamValue`].
pub enum ParamView {
    Number(u64),
    Text(Seq<char>),
    Raw(Seq<char>),
    Object(Seq<(Seq<char>, ParamView)>),
    Array(Seq<ParamView>),
}

impl ParamValue {
    /// The abstract value.
    pub open spec fn pview(&self) -> ParamView
        decreases self,
    {
        match self {
            ParamValue::Number(n) => ParamView::Number(*n),
            ParamValue::Text(s) => ParamView::Text(s@),
            ParamValue::Raw(s) => ParamView::Raw(s@),
            ParamValue::Object(es) => ParamView::Object(
                Seq::new(
                    es@.len(),
                    |i: int|
                        {
                            if 0 <= i < es@.len() {
                                proof {
                                    assert(decreases_to!(self => es@[i].1));
                                }
                                (es@[i].0@, es@[i].1.pview())
                            } else {
                                (Seq::empty(), ParamView::Number(0))
                            }
                        },
                ),
            ),
            ParamValue::Array(xs) => ParamView::Array(
                Seq::new(
                    xs@.len(),
                    |i: int|
                        {
                            if 0 <= i < xs@.len() {
                                proof {
                                    assert(decreases_to!(self => xs@[i]));
                                }
                                xs@[i].pview()
                            } else {
                                ParamView::Number(0)
                            }
                        },
                ),
            ),
        }
    }
}

/// Abstract entries of an object under construction.
pub open spec fn entries_view(es: Seq<(String, ParamValue)>) -> Seq<(Seq<char>, ParamView)> {
    es.map_values(|e: (String, ParamValue)| (e.0@, e.1.pview()))
}

/// Abstract items of an array under construction.
pub open spec fn items_view(xs: Seq<ParamValue>) -> Seq<ParamView> {
    xs.map_values(|x: ParamValue| x.pview())
}

/// One entry when the value is present, none otherwise.
pub open spec fn entry_if(key: Seq<char>, value: Option<ParamView>) -> Seq<(Seq<char>, ParamView)> {
    match value {
        Some(v) => seq![(key, v)],
        None => Seq::empty(),
    }
}

/// The abstract value of an object is its entries.
pub proof fn lemma_object_view(es: Vec<(String, ParamValue)>)
    ensures
        ParamValue::Object(es).pview() == ParamView::Object(entries_view(es@)),
{
    match ParamValue::Object(es).pview() {
        ParamView::Object(sq) => {
            assert(sq =~= entries_view(es@));
        },
        _ => {},
    }
}

/// The abstract value of an array is its items.
pub proof fn lemma_array_view(xs: Vec<ParamValue>)
    ensures
        ParamValue::Array(xs).pview() == ParamView::Array(items_view(xs@)),
{
    match ParamValue::Array(xs).pview() {
        ParamView::Array(sq) => {
            assert(sq =~= items_view(xs@));
        },
        _ => {},
    }
}

/// Object entries under construction, with their abstract value.
pub struct Entries {
    pub entries: Vec<(String, ParamValue)>,
}

impl Entries {
    pub open spec fn eview(&self) -> Seq<(Seq<char>, ParamView)> {
        entries_view(self.entries@)
    }

    pub fn new() -> (r: Entries)
        ensures
            r.eview() == Seq::<(Seq<char>, ParamView)>::empty(),
    {
        let r = Entries { entries: Vec::new() };
        assert(r.eview() =~= Seq::<(Seq<char>, ParamView)>::empty());
        r
    }

    /// Appends an entry.
    pub fn push(&mut self, key: &str, value: ParamValue)
        ensures
            final(self).eview() == old(self).eview().push((key@, value.pview())),
    {
        let ghost before = self.entries@;
        let ghost v = value.pview();
        self.entries.push((owned(key), value));
        assert(self.eview() =~= entries_view(before).push((key@, v)));
    }

    /// Appends an entry when a value is present.
    pub fn push_if(&mut self, key: &str, value: Option<ParamValue>)
        ensures
            final(self).eview() == old(self).eview() + entry_if(
                key@,
                match value {
                    Some(v) => Some(v.pview()),
                    None => None,
                },
            ),
    {
        match value {
            Some(v) => {
                let ghost pv = v.pview();
                self.push(key, v);
                assert(self.eview() =~= old(self).eview() + seq![(key@, pv)]);
            },
            None => {
                assert(self.eview() =~= old(self).eview() + Seq::<(Seq<char>, ParamView)>::empty());
            },
        }
    }

    /// The object made of these entries.
    pub fn into_object(self) -> (r: ParamValue)
        ensures
            r.pview() == ParamView::Object(self.eview()),
    {
        proof {
            lemma_object_view(self.entries);
        }
        ParamValue::Object(self.entries)
    }
}

/// The abstract value of an optional number.
pub open spec fn number_view(n: Option<u64>) -> Option<ParamView> {
    match n {
        Some(v) => Some(ParamView::Number(v)),
        None => None,
    }
}

/// The abstract value of an optional string.
pub open spec fn text_view(s: Option<Seq<char>>) -> Option<ParamView> {
    match s {
        Some(v) => Some(ParamView::Text(v)),
        None => None,
    }
}

/// A number parameter, when present.
pub fn number_param(n: Option<u64>) -> (r: Option<ParamValue>)
    ensures
        match r {
            Some(v) => number_view(n) == Some(v.pview()),
            None => n is None,
        },
{
    match n {
        Some(v) => Some(ParamValue::Number(v)),
        None => None,
    }
}

/// A string parameter, when present.
pub fn text_param(s: Option<String>) -> (r: Option<ParamValue>)
    ensures
        match r {
            Some(v) => match s {
                Some(t) => v.pview() == ParamView::Text(t@),
                None => false,
            },
            None => s is None,
        },
{
    match s {
        Some(t) => Some(ParamValue::Text(t)),
        None => None,
    }
}

/// An array of strings.
pub fn text_array(items: &Vec<String>) -> (r: ParamValue)
    ensures
        r.pview() == ParamView::Array(items.deep_view().map_values(|t: Seq<char>| ParamView::Text(t))),
{
    let mut out: Vec<ParamValue> = Vec::new();
    let mut i: usize = 0;
    let ghost dv = items.deep_view();
    while i < items.len()
        invariant
            dv == items.deep_view(),
            0 <= i <= items.len(),
            items_view(out@) =~= dv.subrange(0, i as int).map_values(|t: Seq<char>| ParamView::Text(t)),
        decreases items.len() - i,
    {
        let t = items[i].clone();
        let ghost before = out@;
        out.push(ParamValue::Text(t));
        assert(items_view(out@) =~= items_view(before).push(ParamView::Text(dv[i as int])));
        assert(dv.subrange(0, i + 1) =~= dv.subrange(0, i as int).push(dv[i as int]));
        i += 1;
    }
    assert(dv.subrange(0, items.len() as int) =~= dv);
    proof {
        lemma_array_view(out);
    }
    ParamValue::Array(out)
}

} // verus!

verus! {

/// Abstract outcome of a request builder.
pub open spec fn built_view(r: Result<ParamValue, String>) -> Result<ParamView, Seq<char>> {
    match r {
        Ok(v) => Ok(v.pview()),
        Err(e) => Err(e@),
    }
}

/// The `pagination` entry: present when a limit or a cursor is given.
pub open spec fn pagination_entry(limit: Option<u64>, cursor: Option<Seq<char>>) -> Seq<
    (Seq<char>, ParamView),
> {
    if limit is Some || cursor is Some {
        seq![
            ("pagination"@, ParamView::Object(
                entry_if("limit"@, number_view(limit)) + entry_if("cursor"@, text_view(cursor)),
            )),
        ]
    } else {
        Seq::empty()
    }
}

/// Builds the `pagination` entry into `params`.
pub fn push_pagination(params: &mut Entries, limit: Option<u64>, cursor: Option<String>)
    ensures
        final(params).eview() == old(params).eview() + pagination_entry(
            limit,
            match cursor {
                Some(c) => Some(c@),
                None => None,
            },
        ),
{
    let ghost cv = crate::text::opt_view(cursor);
    if limit.is_some() || cursor.is_some() {
        let mut pagination = Entries::new();
        pagination.push_if("limit", number_param(limit));
        pagination.push_if("cursor", text_param(cursor));
        let ghost inner = pagination.eview();
        assert(inner =~= entry_if("limit"@, number_view(limit)) + entry_if("cursor"@, text_view(cv)));
        params.push("pagination", pagination.into_object());
        assert(params.eview() =~= old(params).eview() + pagination_entry(limit, cv));
    } else {
        assert(params.eview() =~= old(params).eview() + pagination_entry(limit, cv));
    }
}

} // verus!
