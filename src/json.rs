//! The collection file: a pretty-printed JSON object whose one field,
//! `quotes`, holds the records, each an object with the string fields
//! `quote`, `author` and `date`.
use vstd::prelude::*;
use vstd::string::StringExecFns;
use crate::record::{Quote, QuoteView, Quotes};
use crate::text::same_text;
use serde_json::Value;
use std::collections::BTreeMap;

verus! {

/// A JSON object as key/value pairs: a string value as `Some`, any other
/// value as `None`.
pub type ObjectView = Seq<(Seq<char>, Option<Seq<char>>)>;

/// A JSON object whose values are all arrays of objects.
pub type DocumentView = Seq<(Seq<char>, Seq<ObjectView>)>;

/// What `serde_json` reads from `bytes` as an object of arrays of objects;
/// `None` where it fails.
pub uninterp spec fn document_of(bytes: Seq<u8>) -> Option<DocumentView>;

/// The JSON string literal that `serde_json` writes for a text.
pub uninterp spec fn json_quoted(s: Seq<char>) -> Seq<char>;

/// Relies on `serde_json::from_slice` into nested `BTreeMap`s whose innermost
/// values are `serde_json::Value`s: the document read from `bytes`, each
/// innermost string kept and any other value dropped to `None`; `None` where
/// the bytes are not such a document.
#[verifier::external_body]
fn parse_document(bytes: &[u8]) -> (r: Option<Vec<(String, Vec<Vec<(String, Option<String>)>>)>>)
    ensures
        r.deep_view() == document_of(bytes@),
{
    let doc: BTreeMap<String, Vec<BTreeMap<String, Value>>> = serde_json::from_slice(bytes).ok()?;
    Some(doc.into_iter().map(|(k, v)| (k, v.into_iter().map(|o| o.into_iter().map(|(f, x)| (f, match x {
        Value::String(s) => Some(s),
        Value::Null | Value::Bool(_) | Value::Number(_) | Value::Array(_) | Value::Object(_) => None,
    })).collect()).collect())).collect())
}

/// Relies on `serde_json::to_string` on a `str`: the quoted, escaped literal.
#[verifier::external_body]
fn quote_json(s: &str) -> (r: String)
    ensures
        r@ == json_quoted(s@),
{
    serde_json::to_string(s).unwrap_or_default()
}

/// The value of the first pair whose key is `key`.
pub open spec fn field<V>(pairs: Seq<(Seq<char>, V)>, key: Seq<char>) -> Option<V>
    decreases pairs.len(),
{
    if pairs.len() == 0 {
        None
    } else {
        match field(pairs.drop_last(), key) {
            Some(v) => Some(v),
            None => if pairs.last().0 == key {
                Some(pairs.last().1)
            } else {
                None
            },
        }
    }
}

/// The record an object holds: all three fields must be there.
pub open spec fn quote_of_object(o: ObjectView) -> Option<QuoteView> {
    match (field(o, "quote"@), field(o, "author"@), field(o, "date"@)) {
        (Some(Some(q)), Some(Some(a)), Some(Some(d))) => Some((q, a, d)),
        _ => None,
    }
}

/// Whether every object holds a record.
pub open spec fn all_records(objs: Seq<ObjectView>) -> bool {
    forall|i: int| 0 <= i < objs.len() ==> (#[trigger] quote_of_object(objs[i])) is Some
}

/// The records of a document: `None` where the `quotes` field is missing or
/// one of its objects lacks a field.
pub open spec fn quotes_of_document(doc: DocumentView) -> Option<Seq<QuoteView>> {
    match field(doc, "quotes"@) {
        Some(objs) => if all_records(objs) {
            Some(objs.map_values(|o: ObjectView| quote_of_object(o)->0))
        } else {
            None
        },
        None => None,
    }
}

/// The records that a collection file holds, or `None` where it is unreadable.
pub open spec fn collection_of(bytes: Seq<u8>) -> Option<Seq<QuoteView>> {
    match document_of(bytes) {
        Some(doc) => quotes_of_document(doc),
        None => None,
    }
}

/// One record as written in the file, at the indentation of an array item.
pub open spec fn render_quote(q: QuoteView) -> Seq<char> {
    "    {\n      \"quote\": "@ + json_quoted(q.0) + ",\n      \"author\": "@ + json_quoted(q.1)
        + ",\n      \"date\": "@ + json_quoted(q.2) + "\n    }"@
}

/// The records as written in the file, separated by `,` and a line break.
pub open spec fn render_items(qs: Seq<QuoteView>) -> Seq<char>
    decreases qs.len(),
{
    if qs.len() == 0 {
        Seq::empty()
    } else if qs.len() == 1 {
        render_quote(qs[0])
    } else {
        render_items(qs.drop_last()) + ",\n"@ + render_quote(qs.last())
    }
}

/// The whole collection file for the given records.
pub open spec fn render(qs: Seq<QuoteView>) -> Seq<char> {
    if qs.len() == 0 {
        "{\n  \"quotes\": []\n}"@
    } else {
        "{\n  \"quotes\": [\n"@ + render_items(qs) + "\n  ]\n}"@
    }
}

/// The index of the first pair whose key is `key`.
fn find_key<T: DeepView>(pairs: &Vec<(String, T)>, key: &str) -> (r: Option<usize>)
    ensures
        match r {
            Some(i) => i < pairs@.len() && field(pairs.deep_view(), key@) == Some(
                pairs@[i as int].1.deep_view(),
            ),
            None => field(pairs.deep_view(), key@) is None,
        },
{
    let ghost dv = pairs.deep_view();
    let mut found: Option<usize> = None;
    let mut i: usize = 0;
    while i < pairs.len()
        invariant
            i <= pairs@.len(),
            dv == pairs.deep_view(),
            match found {
                Some(j) => j < i && field(dv.take(i as int), key@) == Some(
                    pairs@[j as int].1.deep_view(),
                ),
                None => field(dv.take(i as int), key@) is None,
            },
        decreases pairs@.len() - i,
    {
        assert(dv.take(i + 1).drop_last() =~= dv.take(i as int));
        if found.is_none() && same_text(pairs[i].0.as_str(), key) {
            found = Some(i);
        }
        i = i + 1;
    }
    assert(dv.take(i as int) =~= dv);
    found
}

/// The record held by an object, or `None` where a field is missing or not
/// a string.
fn object_quote(o: &Vec<(String, Option<String>)>) -> (r: Option<Quote>)
    ensures
        match r {
            Some(q) => quote_of_object(o.deep_view()) == Some(q@),
            None => quote_of_object(o.deep_view()) is None,
        },
{
    let qi = find_key(o, "quote");
    let ai = find_key(o, "author");
    let di = find_key(o, "date");
    match (qi, ai, di) {
        (Some(q), Some(a), Some(d)) => match (&o[q].1, &o[a].1, &o[d].1) {
            (Some(qt), Some(at), Some(dt)) => Some(Quote::new(qt.as_str(), at.as_str(), dt.as_str())),
            _ => None,
        },
        _ => None,
    }
}

/// The records of a parsed document, with the contract of `quotes_of_document`.
pub fn decode_document(doc: &Vec<(String, Vec<Vec<(String, Option<String>)>>)>) -> (r: Option<Quotes>)
    ensures
        match r {
            Some(qs) => quotes_of_document(doc.deep_view()) == Some(qs@),
            None => quotes_of_document(doc.deep_view()) is None,
        },
{
    let k = find_key(doc, "quotes");
    match k {
        None => None,
        Some(k) => {
            let objs = &doc[k].1;
            let ghost ov = objs.deep_view();
            assert(field(doc.deep_view(), "quotes"@) == Some(ov));
            let mut quotes: Vec<Quote> = Vec::new();
            let mut i: usize = 0;
            while i < objs.len()
                invariant
                    i <= objs@.len(),
                    ov == objs.deep_view(),
                    field(doc.deep_view(), "quotes"@) == Some(ov),
                    quotes@.len() == i,
                    forall|j: int| 0 <= j < i ==> (#[trigger] quote_of_object(ov[j])) == Some(quotes@[j]@),
                decreases objs@.len() - i,
            {
                assert(ov[i as int] == objs@[i as int].deep_view());
                match object_quote(&objs[i]) {
                    Some(q) => {
                        quotes.push(q);
                    },
                    None => {
                        assert(quote_of_object(ov[i as int]) is None);
                        assert(!all_records(ov));
                        return None;
                    },
                }
                i = i + 1;
            }
            let r = Quotes { quotes };
            assert(all_records(ov));
            assert(r@ =~= ov.map_values(|o: ObjectView| quote_of_object(o)->0));
            Some(r)
        },
    }
}

/// Reads a collection file: its records, or `None` where it is unreadable.
pub fn decode(bytes: &[u8]) -> (r: Option<Quotes>)
    ensures
        match r {
            Some(qs) => collection_of(bytes@) == Some(qs@),
            None => collection_of(bytes@) is None,
        },
{
    match parse_document(bytes) {
        Some(doc) => decode_document(&doc),
        None => None,
    }
}

/// Writes one record at the indentation of an array item.
fn encode_quote(out: &mut String, q: &Quote)
    ensures
        final(out)@ == old(out)@ + render_quote(q@),
{
    out.append("    {\n      \"quote\": ");
    out.append(quote_json(q.quote.as_str()).as_str());
    out.append(",\n      \"author\": ");
    out.append(quote_json(q.author.as_str()).as_str());
    out.append(",\n      \"date\": ");
    out.append(quote_json(q.date.as_str()).as_str());
    out.append("\n    }");
}

/// The whole collection file for `qs`, pretty-printed with two-space indents.
pub fn encode(qs: &Quotes) -> (r: String)
    ensures
        r@ == render(qs@),
{
    let n = qs.quotes.len();
    if n == 0 {
        return String::from_str("{\n  \"quotes\": []\n}");
    }
    let mut out = String::from_str("{\n  \"quotes\": [\n");
    let ghost head = out@;
    let mut i: usize = 0;
    while i < n
        invariant
            n == qs.quotes@.len(),
            i <= n,
            out@ == head + render_items(qs@.take(i as int)),
        decreases n - i,
    {
        if i > 0 {
            out.append(",\n");
        }
        encode_quote(&mut out, &qs.quotes[i]);
        assert(qs@.take(i + 1).drop_last() =~= qs@.take(i as int));
        proof {
            if i == 0 {
                assert(qs@.take(0) =~= Seq::<QuoteView>::empty());
            }
        }
        i = i + 1;
    }
    assert(qs@.take(n as int) =~= qs@);
    out.append("\n  ]\n}");
    out
}

} // verus!
