//! The records of the collection: one quote with its author and date.
use vstd::prelude::*;
use vstd::string::StringExecFns;

verus! {

/// A quote as the contracts see it: its text, its author and its date.
pub type QuoteView = (Seq<char>, Seq<char>, Seq<char>);

/// One quote entry.
pub struct Quote {
    pub quote: String,
    pub author: String,
    pub date: String,
}

impl View for Quote {
    type V = QuoteView;

    open spec fn view(&self) -> QuoteView {
        (self.quote@, self.author@, self.date@)
    }
}

/// The text that `Quote::describe` shows for a quote.
pub open spec fn description(q: QuoteView) -> Seq<char> {
    "quote: "@ + q.0 + "\nauthor: "@ + q.1 + "\ndate: "@ + q.2
}

impl Quote {
    /// A record made of the three given texts.
    pub fn new(quote: &str, author: &str, date: &str) -> (r: Quote)
        ensures
            r@ == (quote@, author@, date@),
    {
        Quote { quote: quote.to_owned(), author: author.to_owned(), date: date.to_owned() }
    }

    /// The record shown to the user, one field per line.
    pub fn describe(&self) -> (r: String)
        ensures
            r@ == description(self@),
    {
        let mut r = String::from_str("quote: ");
        r.append(self.quote.as_str());
        r.append("\nauthor: ");
        r.append(self.author.as_str());
        r.append("\ndate: ");
        r.append(self.date.as_str());
        r
    }
}

impl Default for Quote {
    fn default() -> (r: Quote)
        ensures
            r@ == (Seq::<char>::empty(), Seq::<char>::empty(), Seq::<char>::empty()),
    {
        Quote { quote: String::new(), author: String::new(), date: String::new() }
    }
}

/// The collection: quotes in the order in which they were added.
pub struct Quotes {
    pub quotes: Vec<Quote>,
}

impl View for Quotes {
    type V = Seq<QuoteView>;

    open spec fn view(&self) -> Seq<QuoteView> {
        self.quotes@.map_values(|q: Quote| q@)
    }
}

impl Default for Quotes {
    /// A collection that holds one blank record.
    fn default() -> (r: Quotes)
        ensures
            r@ == seq![(Seq::<char>::empty(), Seq::<char>::empty(), Seq::<char>::empty())],
    {
        let mut quotes: Vec<Quote> = Vec::new();
        quotes.push(Quote::default());
        let r = Quotes { quotes };
        assert(r@ =~= seq![(Seq::<char>::empty(), Seq::<char>::empty(), Seq::<char>::empty())]);
        r
    }
}

} // verus!
