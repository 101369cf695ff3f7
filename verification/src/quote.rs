//! The quote record: the sole entity of the service.

use vstd::prelude::*;

verus! {

/// The mathematical value of a stored record.
pub ghost struct QuoteView {
    pub id: u128,
    pub author: Seq<char>,
    pub quote: Seq<char>,
    pub inserted_at: int,
    pub updated_at: int,
}

/// A stored record. The identifier is a 128-bit value assigned by the
/// service at creation time; the timestamps count microseconds since the
/// Unix epoch. `id` and `inserted_at` never change after creation.
pub struct Quote {
    pub id: u128,
    pub author: String,
    pub quote: String,
    pub inserted_at: i64,
    pub updated_at: i64,
}

impl View for Quote {
    type V = QuoteView;

    open spec fn view(&self) -> QuoteView {
        QuoteView {
            id: self.id,
            author: self.author@,
            quote: self.quote@,
            inserted_at: self.inserted_at as int,
            updated_at: self.updated_at as int,
        }
    }
}

/// The request body of a create or update operation: both fields are
/// required, and empty strings are accepted.
pub struct CreateQuote {
    pub author: String,
    pub quote: String,
}

/// Relies on uuid::Uuid::new_v4: a freshly drawn random version-4
/// identifier, returned as its 128-bit value. The value depends on
/// chance, so nothing is promised of it.
#[verifier::external_body]
pub(crate) fn fresh_quote_id() -> u128 {
    uuid::Uuid::new_v4().as_u128()
}

/// Relies on chrono::Utc::now and DateTime::timestamp_micros: the
/// current time as microseconds since the Unix epoch. The value depends
/// on the clock, so nothing is promised of it.
#[verifier::external_body]
pub(crate) fn now_timestamp_micros() -> i64 {
    chrono::Utc::now().timestamp_micros()
}

impl Quote {
    /// Build a fresh record from a payload: the service assigns the
    /// identifier and sets both timestamps to the same current instant.
    pub fn new(author: String, quote: String) -> (q: Quote)
        ensures
            q@.author == author@,
            q@.quote == quote@,
            q@.inserted_at == q@.updated_at,
    {
        let now: i64 = now_timestamp_micros();
        Quote { id: fresh_quote_id(), author, quote, inserted_at: now, updated_at: now }
    }

    /// An explicit copy of the record, field for field.
    pub fn duplicate(&self) -> (r: Quote)
        ensures
            r == *self,
            r@ == self@,
    {
        Quote {
            id: self.id,
            author: self.author.clone(),
            quote: self.quote.clone(),
            inserted_at: self.inserted_at,
            updated_at: self.updated_at,
        }
    }
}

} // verus!
