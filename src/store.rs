//! The read-modify-write cycle of the collection file: the new record is
//! appended to what the file holds, or, where the file cannot be read, the
//! old bytes are set aside for a backup and the collection starts anew.
use vstd::prelude::*;
use crate::backup::{
    backup_file_name, backup_name, date_stamp, local_time_text, BACKUP_STAMP, DEFAULT_FILE_NAME,
};
use crate::json::{collection_of, decode, document_of, encode, field, render, ObjectView};
use crate::record::{Quote, QuoteView, Quotes};

verus! {

/// The collection written when the program's directory is first set up.
pub const EMPTY_COLLECTION: &'static str = "{\"quotes\": []}";

/// What one append writes: the new collection, its file contents, and the
/// old bytes to keep in a backup, if any.
pub struct Update {
    pub quotes: Quotes,
    pub contents: String,
    /// The old file could not be read and the collection was started anew.
    pub recovered: bool,
    pub backup: Option<Vec<u8>>,
}

/// The records after `q` is appended to a file holding `existing`.
pub open spec fn updated_records(existing: Seq<u8>, q: QuoteView) -> Seq<QuoteView> {
    match collection_of(existing) {
        Some(qs) => qs.push(q),
        None => seq![q],
    }
}

/// The bytes to back up before a file holding `existing` is overwritten: an
/// unreadable file's bytes, except where there are none (an empty placeholder
/// holds nothing worth recovering).
pub open spec fn backup_of(existing: Seq<u8>) -> Option<Seq<u8>> {
    if collection_of(existing) is None && existing.len() > 0 {
        Some(existing)
    } else {
        None
    }
}

/// Appends `new_quote` to the collection file that held `existing`.
pub fn update_json(existing: Vec<u8>, new_quote: Quote) -> (r: Update)
    ensures
        r.quotes@ == updated_records(existing@, new_quote@),
        r.contents@ == render(r.quotes@),
        r.recovered == (collection_of(existing@) is None),
        match r.backup {
            Some(b) => backup_of(existing@) == Some(b@),
            None => backup_of(existing@) is None,
        },
{
    let ghost q = new_quote@;
    let (quotes, recovered, backup) = match decode(existing.as_slice()) {
        Some(mut read) => {
            read.quotes.push(new_quote);
            assert(read@ =~= collection_of(existing@)->0.push(q));
            (read, false, None)
        },
        None => {
            let mut fresh: Vec<Quote> = Vec::new();
            fresh.push(new_quote);
            let qs = Quotes { quotes: fresh };
            assert(qs@ =~= seq![q]);
            let backup = if existing.len() > 0 {
                Some(existing)
            } else {
                None
            };
            (qs, true, backup)
        },
    };
    let contents = encode(&quotes);
    Update { quotes, contents, recovered, backup }
}

/// The file name for a backup of the collection file named `base` (or the
/// stand-in name, where the path has none), stamped with the current time.
pub fn archive_name(base: Option<&str>) -> (r: String)
    ensures
        exists|stamp: Seq<char>|
            date_stamp(stamp, '_') && r@ == backup_name(
                match base {
                    Some(b) => b@,
                    None => DEFAULT_FILE_NAME@,
                },
                stamp,
            ),
{
    let stamp = local_time_text(BACKUP_STAMP);
    let r = match base {
        Some(b) => backup_file_name(b, stamp.as_str()),
        None => backup_file_name(DEFAULT_FILE_NAME, stamp.as_str()),
    };
    assert(date_stamp(stamp@, '_'));
    r
}

/// Appending to a readable collection that holds no record gives a collection
/// of exactly that record, and nothing is backed up.
pub proof fn lemma_append_to_empty(existing: Seq<u8>, q: QuoteView)
    requires
        collection_of(existing) == Some(Seq::<QuoteView>::empty()),
    ensures
        updated_records(existing, q) == seq![q],
        backup_of(existing) is None,
{
    assert(Seq::<QuoteView>::empty().push(q) =~= seq![q]);
}

/// Appending to a file that cannot be read keeps its bytes for the backup and
/// leaves a collection of exactly the new record.
pub proof fn lemma_corrupt_recovery(existing: Seq<u8>, q: QuoteView)
    requires
        collection_of(existing) is None,
        existing.len() > 0,
    ensures
        updated_records(existing, q) == seq![q],
        backup_of(existing) == Some(existing),
{
}

/// Two appends in turn, the second on the file that the first wrote, keep the
/// old records and add both new ones in order.
pub proof fn lemma_append_order(first: Seq<u8>, second: Seq<u8>, q1: QuoteView, q2: QuoteView)
    requires
        collection_of(first) is Some,
        collection_of(second) == Some(updated_records(first, q1)),
    ensures
        updated_records(second, q2) == collection_of(first)->0 + seq![q1, q2],
{
    assert(collection_of(first)->0.push(q1).push(q2) =~= collection_of(first)->0 + seq![q1, q2]);
}

/// A document whose `quotes` hold an object without an `author`, or with one
/// that is not a string, is handled as an unreadable file: backed up and
/// replaced by the new record alone.
pub proof fn lemma_missing_author(existing: Seq<u8>, q: QuoteView, i: int)
    requires
        document_of(existing) is Some,
        field(document_of(existing)->0, "quotes"@) is Some,
        0 <= i < field(document_of(existing)->0, "quotes"@)->0.len(),
        !(field(field(document_of(existing)->0, "quotes"@)->0[i], "author"@) matches Some(Some(_))),
    ensures
        collection_of(existing) is None,
        updated_records(existing, q) == seq![q],
        backup_of(existing) == (if existing.len() > 0 {
            Some(existing)
        } else {
            None
        }),
{
    let objs: Seq<ObjectView> = field(document_of(existing)->0, "quotes"@)->0;
    assert(crate::json::quote_of_object(objs[i]) is None);
}

} // verus!
