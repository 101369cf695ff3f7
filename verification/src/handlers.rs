//! The request handlers: each maps one operation over the store to a
//! status and an optional body, as the HTTP surface reports them.

use vstd::prelude::*;
use crate::quote::{CreateQuote, Quote};
use crate::store::{contains_qid, update_all, views_of, QuoteStore};

verus! {

/// The statuses the service answers with.
#[derive(Clone, Copy, Debug, PartialEq, Eq, Structural)]
pub enum Status {
    /// The request succeeded; nothing was created.
    Success,
    /// A record was created.
    Created,
    /// No record matches the requested identifier.
    NotFound,
    /// The store failed; no detail is disclosed.
    ServerError,
}

/// Liveness probe: always answers ok, whatever the store's state, with
/// no body and no side effect.
pub fn health() -> (s: Status)
    ensures
        s == Status::Success,
{
    Status::Success
}

/// Create a record from the payload. On success the full created record
/// is returned with a created status: its author and quote equal the
/// payload's, its identifier is a fresh one the store did not hold, and
/// both timestamps are the same instant. The one failure the store model
/// knows is a constraint violation on an already-taken identifier, which
/// is answered, like any persistence failure, with a bare server error
/// and an unchanged store. A drawn identifier can only collide with a
/// stored one, so an error owes the prior store to be nonempty: on an
/// empty store the create always succeeds.
pub fn create_quote(store: &mut QuoteStore, payload: CreateQuote) -> (r: Result<
    (Status, Quote),
    Status,
>)
    requires
        old(store).wf(),
    ensures
        final(store).wf(),
        match r {
            Ok((st, q)) => st == Status::Created && q@.author == payload.author@ && q@.quote
                == payload.quote@ && q@.inserted_at == q@.updated_at && !contains_qid(
                old(store)@,
                q@.id,
            ) && final(store)@ == old(store)@.push(q@),
            Err(st) => st == Status::ServerError && final(store)@ == old(store)@ && old(
                store,
            )@.len() > 0,
        },
{
    let q = Quote::new(payload.author, payload.quote);
    let body = q.duplicate();
    let ok = store.insert(q);
    if ok {
        Ok((Status::Created, body))
    } else {
        Err(Status::ServerError)
    }
}

/// Read every stored record, in storage order, as the response body.
pub fn read_quotes(store: &QuoteStore) -> (r: Vec<Quote>)
    ensures
        views_of(r@) == store@,
{
    store.read_all()
}

/// Update the record at `id` with the payload's author and quote,
/// stamping it with the current time. Answers not-found, with the store
/// unchanged, exactly when no record carries `id`; answers ok exactly
/// when one does, and then only that record's author, quote and
/// `updated_at` change.
pub fn update_quote(store: &mut QuoteStore, id: u128, payload: CreateQuote) -> (s: Status)
    requires
        old(store).wf(),
    ensures
        final(store).wf(),
        s == Status::Success <==> contains_qid(old(store)@, id),
        s == Status::NotFound <==> !contains_qid(old(store)@, id),
        !contains_qid(old(store)@, id) ==> final(store)@ == old(store)@,
        exists|t: int| final(store)@ == update_all(
            old(store)@,
            id,
            payload.author@,
            payload.quote@,
            t,
        ),
{
    let now: i64 = crate::quote::now_timestamp_micros();
    let found = store.update(id, &payload.author, &payload.quote, now);
    if found {
        Status::Success
    } else {
        Status::NotFound
    }
}

/// Delete the record at `id`. Answers not-found, with the store
/// unchanged, exactly when no record carries `id`; answers ok exactly
/// when one does, and then exactly that record is removed — so repeating
/// the same delete answers not-found.
pub fn delete_quote(store: &mut QuoteStore, id: u128) -> (s: Status)
    requires
        old(store).wf(),
    ensures
        final(store).wf(),
        s == Status::Success <==> contains_qid(old(store)@, id),
        s == Status::NotFound <==> !contains_qid(old(store)@, id),
        !contains_qid(old(store)@, id) ==> final(store)@ == old(store)@,
        contains_qid(old(store)@, id) ==> !contains_qid(final(store)@, id) && final(store)@.len()
            == old(store)@.len() - 1 && (exists|i: int|
            0 <= i < old(store)@.len() && old(store)@[i].id == id && final(store)@ == old(
                store,
            )@.remove(i)),
        forall|x: u128| x != id ==> (contains_qid(final(store)@, x) <==> contains_qid(
            old(store)@,
            x,
        )),
{
    let found = store.delete(id);
    if found {
        Status::Success
    } else {
        Status::NotFound
    }
}

/// Map the count of rows a write affected to the status the service
/// answers with: zero affected rows is the sole existence check, and is
/// answered not-found; any other count is answered ok.
pub fn rows_affected_status(rows: u64) -> (s: Status)
    ensures
        s == Status::NotFound <==> rows == 0,
        s == Status::Success <==> rows > 0,
{
    if rows == 0 {
        Status::NotFound
    } else {
        Status::Success
    }
}

} // verus!
