use quotes::handlers::{
    create_quote, delete_quote, health, read_quotes, rows_affected_status, update_quote, Status,
};
use quotes::quote::{CreateQuote, Quote};
use quotes::store::QuoteStore;

fn payload(author: &str, quote: &str) -> CreateQuote {
    CreateQuote { author: author.to_owned(), quote: quote.to_owned() }
}

#[test]
fn health_always_ok() {
    assert_eq!(health(), Status::Success);
    // the store's state plays no part: health takes nothing from it
    assert_eq!(health(), Status::Success);
}

#[test]
fn create_returns_the_input_with_equal_timestamps() {
    let mut store = QuoteStore::new();
    let created = create_quote(&mut store, payload("Ada", "It is not the language."))
        .expect("create failed");
    assert_eq!(created.0, Status::Created);
    let q = created.1;
    assert_eq!(q.author, "Ada");
    assert_eq!(q.quote, "It is not the language.");
    assert_eq!(q.inserted_at, q.updated_at);
}

#[test]
fn create_assigns_fresh_ids() {
    let mut store = QuoteStore::new();
    let a = create_quote(&mut store, payload("a", "1")).expect("create failed").1;
    let b = create_quote(&mut store, payload("b", "2")).expect("create failed").1;
    let c = create_quote(&mut store, payload("c", "3")).expect("create failed").1;
    assert_ne!(a.id, b.id);
    assert_ne!(a.id, c.id);
    assert_ne!(b.id, c.id);
}

#[test]
fn create_accepts_empty_strings() {
    let mut store = QuoteStore::new();
    let created = create_quote(&mut store, payload("", "")).expect("create failed");
    assert_eq!(created.0, Status::Created);
    assert_eq!(created.1.author, "");
    assert_eq!(created.1.quote, "");
}

#[test]
fn read_all_of_empty_store_is_empty() {
    let store = QuoteStore::new();
    assert!(read_quotes(&store).is_empty());
}

#[test]
fn read_all_after_three_creates_returns_exactly_those() {
    let mut store = QuoteStore::new();
    let mut made: Vec<u128> = Vec::new();
    for k in 0..3 {
        let q = create_quote(&mut store, payload("author", &format!("quote {}", k)))
            .expect("create failed")
            .1;
        made.push(q.id);
    }
    let all = read_quotes(&store);
    assert_eq!(all.len(), 3);
    let mut seen: Vec<u128> = all.iter().map(|q| q.id).collect();
    seen.sort();
    made.sort();
    assert_eq!(seen, made);
}

#[test]
fn update_existing_changes_only_what_it_should() {
    let mut store = QuoteStore::new();
    let q = create_quote(&mut store, payload("Ada", "Draft.")).expect("create failed").1;
    let status = update_quote(&mut store, q.id, payload("Ada Lovelace", "Updated."));
    assert_eq!(status, Status::Success);
    let all = read_quotes(&store);
    assert_eq!(all.len(), 1);
    assert_eq!(all[0].id, q.id);
    assert_eq!(all[0].inserted_at, q.inserted_at);
    assert_eq!(all[0].author, "Ada Lovelace");
    assert_eq!(all[0].quote, "Updated.");
    assert!(all[0].updated_at >= q.updated_at);
}

#[test]
fn update_missing_is_not_found_and_changes_nothing() {
    let mut store = QuoteStore::new();
    let q = create_quote(&mut store, payload("Ada", "Kept.")).expect("create failed").1;
    let status = update_quote(&mut store, q.id.wrapping_add(1), payload("x", "y"));
    assert_eq!(status, Status::NotFound);
    let all = read_quotes(&store);
    assert_eq!(all.len(), 1);
    assert_eq!(all[0].id, q.id);
    assert_eq!(all[0].author, "Ada");
    assert_eq!(all[0].quote, "Kept.");
    assert_eq!(all[0].updated_at, q.updated_at);
}

#[test]
fn delete_removes_exactly_one_and_repeating_is_not_found() {
    let mut store = QuoteStore::new();
    let a = create_quote(&mut store, payload("a", "1")).expect("create failed").1;
    let b = create_quote(&mut store, payload("b", "2")).expect("create failed").1;
    assert_eq!(delete_quote(&mut store, a.id), Status::Success);
    let all = read_quotes(&store);
    assert_eq!(all.len(), 1);
    assert_eq!(all[0].id, b.id);
    assert_eq!(delete_quote(&mut store, a.id), Status::NotFound);
    assert_eq!(read_quotes(&store).len(), 1);
}

#[test]
fn delete_on_empty_store_is_not_found() {
    let mut store = QuoteStore::new();
    assert_eq!(delete_quote(&mut store, 42), Status::NotFound);
}

#[test]
fn insert_of_a_taken_id_is_refused() {
    let mut store = QuoteStore::new();
    let first = Quote {
        id: 7,
        author: "a".to_owned(),
        quote: "1".to_owned(),
        inserted_at: 5,
        updated_at: 5,
    };
    let second = Quote {
        id: 7,
        author: "b".to_owned(),
        quote: "2".to_owned(),
        inserted_at: 6,
        updated_at: 6,
    };
    assert!(store.insert(first));
    assert!(!store.insert(second));
    let all = read_quotes(&store);
    assert_eq!(all.len(), 1);
    assert_eq!(all[0].author, "a");
}

#[test]
fn zero_affected_rows_means_not_found() {
    assert_eq!(rows_affected_status(0), Status::NotFound);
    assert_eq!(rows_affected_status(1), Status::Success);
    assert_eq!(rows_affected_status(17), Status::Success);
}

#[test]
fn quote_new_keeps_the_payload_and_stamps_once() {
    let q = Quote::new("Seneca".to_owned(), "Time discovers truth.".to_owned());
    assert_eq!(q.author, "Seneca");
    assert_eq!(q.quote, "Time discovers truth.");
    assert_eq!(q.inserted_at, q.updated_at);
}

#[test]
fn duplicate_copies_every_field() {
    let q = Quote {
        id: 9,
        author: "a".to_owned(),
        quote: "b".to_owned(),
        inserted_at: 1,
        updated_at: 2,
    };
    let d = q.duplicate();
    assert_eq!(d.id, q.id);
    assert_eq!(d.author, q.author);
    assert_eq!(d.quote, q.quote);
    assert_eq!(d.inserted_at, q.inserted_at);
    assert_eq!(d.updated_at, q.updated_at);
}
