//! The records of the store's tables.

use vstd::prelude::*;

verus! {

/// A row of `ShellCommanders`: the id that storage gave it, its key, and
/// the value under the key, if any.
#[derive(Debug)]
pub struct Item {
    pub id: i32,
    pub var: String,
    pub val: Option<String>,
}

/// What an [`Item`] holds.
pub struct ItemView {
    pub id: i32,
    pub var: Seq<char>,
    pub val: Option<Seq<char>>,
}

impl View for Item {
    type V = ItemView;

    open spec fn view(&self) -> ItemView {
        ItemView {
            id: self.id,
            var: self.var@,
            val: match self.val {
                Some(s) => Some(s@),
                None => None,
            },
        }
    }
}

/// A row of `Quotes`: a quote and who said it.
#[derive(Debug)]
pub struct Quote {
    pub id: u32,
    pub quote: String,
    pub author: String,
}

/// What a [`Quote`] holds.
pub struct QuoteView {
    pub id: u32,
    pub quote: Seq<char>,
    pub author: Seq<char>,
}

impl View for Quote {
    type V = QuoteView;

    open spec fn view(&self) -> QuoteView {
        QuoteView { id: self.id, quote: self.quote@, author: self.author@ }
    }
}

/// A row of `DailyQuotes`: the quote chosen for a date.
#[derive(Debug)]
pub struct DailyQuote {
    pub id: u32,
    pub quote_id: u32,
    pub date: String,
}

/// What a [`DailyQuote`] holds.
pub struct DailyQuoteView {
    pub id: u32,
    pub quote_id: u32,
    pub date: Seq<char>,
}

impl View for DailyQuote {
    type V = DailyQuoteView;

    open spec fn view(&self) -> DailyQuoteView {
        DailyQuoteView { id: self.id, quote_id: self.quote_id, date: self.date@ }
    }
}

} // verus!
