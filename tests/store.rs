use quotekeeper::json::{decode, encode};
use quotekeeper::record::{Quote, Quotes};
use quotekeeper::store::{update_json, EMPTY_COLLECTION};

fn record(q: &str, a: &str, d: &str) -> Quote {
    Quote::new(q, a, d)
}

fn fields(q: &Quote) -> (String, String, String) {
    (q.quote.clone(), q.author.clone(), q.date.clone())
}

fn owned(q: &str, a: &str, d: &str) -> (String, String, String) {
    (q.to_string(), a.to_string(), d.to_string())
}

#[test]
fn append_to_empty_collection_round_trips() {
    let update = update_json(EMPTY_COLLECTION.as_bytes().to_vec(), record("Be brief.", "Anon", "01-02-2024 03:04:05"));
    assert!(!update.recovered);
    assert!(update.backup.is_none());
    let read = decode(update.contents.as_bytes()).expect("the written file reads back");
    assert_eq!(read.quotes.len(), 1);
    assert_eq!(fields(&read.quotes[0]), owned("Be brief.", "Anon", "01-02-2024 03:04:05"));
}

#[test]
fn written_file_is_pretty_json() {
    let update = update_json(b"{\"quotes\": []}".to_vec(), record("a", "b", "c"));
    let expected = "{\n  \"quotes\": [\n    {\n      \"quote\": \"a\",\n      \"author\": \"b\",\n      \"date\": \"c\"\n    }\n  ]\n}";
    assert_eq!(update.contents, expected);
}

#[test]
fn written_file_parses_as_json() {
    let update = update_json(EMPTY_COLLECTION.as_bytes().to_vec(), record("x", "y", "z"));
    let value: serde_json::Value = serde_json::from_str(&update.contents).unwrap();
    let quotes = value.get("quotes").unwrap().as_array().unwrap();
    assert_eq!(quotes.len(), 1);
    assert_eq!(quotes[0].get("author").unwrap().as_str(), Some("y"));
}

#[test]
fn corrupt_file_is_backed_up_and_replaced() {
    let update = update_json(b"not json".to_vec(), record("R", "S", "T"));
    assert!(update.recovered);
    assert_eq!(update.backup, Some(b"not json".to_vec()));
    assert_eq!(update.quotes.quotes.len(), 1);
    assert_eq!(fields(&update.quotes.quotes[0]), owned("R", "S", "T"));
}

#[test]
fn empty_placeholder_is_not_backed_up() {
    let update = update_json(Vec::new(), record("R", "S", "T"));
    assert!(update.recovered);
    assert!(update.backup.is_none());
    assert_eq!(update.quotes.quotes.len(), 1);
}

#[test]
fn appends_keep_order_and_duplicates() {
    let start = b"{\"quotes\": [{\"quote\": \"old\", \"author\": \"o\", \"date\": \"d\"}]}".to_vec();
    let first = update_json(start, record("one", "A", "d1"));
    let second = update_json(first.contents.into_bytes(), record("two", "B", "d2"));
    let third = update_json(second.contents.into_bytes(), record("two", "B", "d2"));
    assert!(!third.recovered);
    let got: Vec<(String, String, String)> = third.quotes.quotes.iter().map(fields).collect();
    assert_eq!(
        got,
        vec![owned("old", "o", "d"), owned("one", "A", "d1"), owned("two", "B", "d2"), owned("two", "B", "d2")]
    );
}

#[test]
fn missing_author_is_treated_as_corrupt() {
    let text = b"{\"quotes\": [{\"quote\": \"q\", \"date\": \"d\"}]}".to_vec();
    let update = update_json(text.clone(), record("R", "S", "T"));
    assert!(update.recovered);
    assert_eq!(update.backup, Some(text));
    assert_eq!(update.quotes.quotes.len(), 1);
    assert_eq!(fields(&update.quotes.quotes[0]), owned("R", "S", "T"));
}

#[test]
fn wrong_field_type_is_treated_as_corrupt() {
    let text = b"{\"quotes\": [{\"quote\": \"q\", \"author\": 5, \"date\": \"d\"}]}".to_vec();
    let update = update_json(text.clone(), record("R", "S", "T"));
    assert!(update.recovered);
    assert_eq!(update.backup, Some(text));
}

#[test]
fn missing_quotes_field_is_treated_as_corrupt() {
    let update = update_json(b"{}".to_vec(), record("R", "S", "T"));
    assert!(update.recovered);
    assert_eq!(update.backup, Some(b"{}".to_vec()));
}

#[test]
fn field_order_is_tolerated() {
    let text = b"{\"quotes\": [{\"date\": \"d\", \"author\": \"a\", \"quote\": \"q\"}]}".to_vec();
    let update = update_json(text, record("R", "S", "T"));
    assert!(!update.recovered);
    assert_eq!(fields(&update.quotes.quotes[0]), owned("q", "a", "d"));
    assert_eq!(fields(&update.quotes.quotes[1]), owned("R", "S", "T"));
}

#[test]
fn special_characters_are_escaped() {
    let update = update_json(Vec::new(), record("say \"hi\"\nnow", "a\\b", "d"));
    assert!(update.contents.contains("\"say \\\"hi\\\"\\nnow\""));
    assert!(update.contents.contains("\"a\\\\b\""));
    let read = decode(update.contents.as_bytes()).unwrap();
    assert_eq!(fields(&read.quotes[0]), owned("say \"hi\"\nnow", "a\\b", "d"));
}

#[test]
fn empty_collection_is_written_compactly() {
    let qs = Quotes { quotes: Vec::new() };
    assert_eq!(encode(&qs), "{\n  \"quotes\": []\n}");
}

#[test]
fn two_records_are_separated() {
    let qs = Quotes { quotes: vec![record("a", "b", "c"), record("d", "e", "f")] };
    let expected = "{\n  \"quotes\": [\n    {\n      \"quote\": \"a\",\n      \"author\": \"b\",\n      \"date\": \"c\"\n    },\n    {\n      \"quote\": \"d\",\n      \"author\": \"e\",\n      \"date\": \"f\"\n    }\n  ]\n}";
    assert_eq!(encode(&qs), expected);
}

#[test]
fn describe_lists_the_fields() {
    assert_eq!(record("q", "a", "d").describe(), "quote: q\nauthor: a\ndate: d");
}

#[test]
fn default_collection_holds_one_blank_record() {
    let qs = Quotes::default();
    assert_eq!(qs.quotes.len(), 1);
    assert_eq!(fields(&qs.quotes[0]), owned("", "", ""));
}

#[test]
fn extra_members_of_any_type_are_ignored() {
    let text = b"{\"quotes\": [{\"quote\": \"q\", \"author\": \"a\", \"date\": \"d\", \"rating\": 5, \"tags\": [\"x\"]}]}".to_vec();
    let update = update_json(text, record("R", "S", "T"));
    assert!(!update.recovered);
    assert!(update.backup.is_none());
    assert_eq!(fields(&update.quotes.quotes[0]), owned("q", "a", "d"));
    assert_eq!(fields(&update.quotes.quotes[1]), owned("R", "S", "T"));
}

#[test]
fn null_required_field_is_treated_as_corrupt() {
    let text = b"{\"quotes\": [{\"quote\": \"q\", \"author\": null, \"date\": \"d\"}]}".to_vec();
    let update = update_json(text.clone(), record("R", "S", "T"));
    assert!(update.recovered);
    assert_eq!(update.backup, Some(text));
}
