//! Row extraction, one operation per data category.
//!
//! Each operation opens the database file read-only, runs one fixed query
//! over a known table, and maps every result row by ordinal into the
//! category's record shape.  A database that cannot be opened or queried
//! yields the empty sequence: the profile may legitimately lack that
//! store, and one failing category never aborts another.  The row
//! contents depend on what is on disk, so each operation promises
//! instead that whatever came back, every returned record is the exact
//! ordinal mapping of its row under the given master key; the mapping
//! itself stands in the `*_from_rows` functions, verified for every row
//! sequence.

use crate::records::{
    address_of_row, autofill_entry_of_row, cookie_of_row, credit_card_of_row,
    download_entry_of_row, history_entry_of_row, keyword_entry_of_row, password_of_row,
    AddressData, AutofillData, CookiesData, CreditCardData, DownloadHistoryData, HistoryData,
    KeywordsData, PasswordsData,
};
use crate::values::{row_view, ColVal, ColumnValue};
use rusqlite::types::Value as Native;
use rusqlite::{Connection, OpenFlags};
use vstd::prelude::*;

verus! {

/// Relies on `rusqlite`: `Connection::open_with_flags` (read-only, URI
/// names allowed), `Connection::prepare`, `Statement::query_map` and
/// `Row::get`, each native value moved into the matching `ColumnValue`
/// variant, a float carried as its bit pattern and an unreadable cell as
/// `Null`; a row that fails to step is dropped.  The rows depend on what
/// is on disk, so nothing is stated of them; `None` is any failure to
/// open the database or prepare or start the query.
#[verifier::external_body]
pub fn get_sqlite_data(db_path: &str, query: &str) -> (r: Option<Vec<Vec<ColumnValue>>>) {
    let flags = OpenFlags::SQLITE_OPEN_READ_ONLY | OpenFlags::SQLITE_OPEN_URI;
    let conn = Connection::open_with_flags(db_path, flags).ok()?;
    let mut stmt = conn.prepare(query).ok()?;
    let n = stmt.column_count();
    let rows = stmt.query_map([], |row| {
        Ok((0..n).map(|i| match row.get(i) {
            Ok(Native::Integer(v)) => ColumnValue::Integer(v),
            Ok(Native::Real(v)) => ColumnValue::Real(v.to_bits()),
            Ok(Native::Text(v)) => ColumnValue::Text(v),
            Ok(Native::Blob(v)) => ColumnValue::Blob(v),
            _ => ColumnValue::Null,
        }).collect())
    }).ok()?;
    Some(rows.filter_map(Result::ok).collect())
}

/// Map each row of a cookies-table result by ordinal, in order.
pub fn cookie_from_rows(rows: &Vec<Vec<ColumnValue>>, decryption_key: &[u8]) -> (r: Vec<CookiesData>)
    ensures
        r@.len() == rows@.len(),
        forall|i: int| 0 <= i < rows@.len()
            ==> cookie_of_row(#[trigger] r@[i], row_view(rows@[i]@), decryption_key@),
{
    let mut out: Vec<CookiesData> = Vec::new();
    let n: usize = rows.len();
    for i in 0..n
        invariant
            n == rows@.len(),
            out@.len() == i,
            forall|j: int| 0 <= j < i
                ==> cookie_of_row(#[trigger] out@[j], row_view(rows@[j]@), decryption_key@),
    {
        let rec = CookiesData::from_row(&rows[i], decryption_key);
        out.push(rec);
    }
    out
}

/// Pull every row of the cookies table of the database at `db_path` and map
/// each by ordinal.  A database that cannot be opened or queried yields
/// the empty sequence.  Whatever rows came back, each returned record is
/// the exact ordinal mapping of one of them under the given key.
pub fn get_cookies_data(db_path: &str, decryption_key: &[u8]) -> (r: Vec<CookiesData>)
    ensures
        exists|rows: Seq<Seq<ColVal>>|
            #![trigger rows.len()]
            r@.len() == rows.len() && (forall|i: int| 0 <= i < rows.len()
                ==> cookie_of_row(#[trigger] r@[i], rows[i], decryption_key@)),
{
    match get_sqlite_data(db_path, "SELECT * FROM cookies") {
        Some(rows) => {
            let out = cookie_from_rows(&rows, decryption_key);
            proof {
                let rs = Seq::new(rows@.len(), |i: int| row_view(rows@[i]@));
                assert(out@.len() == rs.len() && (forall|i: int| 0 <= i < rs.len()
                    ==> cookie_of_row(#[trigger] out@[i], rs[i], decryption_key@)));
            }
            out
        },
        None => {
            let out: Vec<CookiesData> = Vec::new();
            proof {
                let rs = Seq::<Seq<ColVal>>::empty();
                assert(out@.len() == rs.len());
            }
            out
        },
    }
}

/// Map each row of a logins-table result by ordinal, in order.
pub fn password_from_rows(rows: &Vec<Vec<ColumnValue>>, decryption_key: &[u8]) -> (r: Vec<PasswordsData>)
    ensures
        r@.len() == rows@.len(),
        forall|i: int| 0 <= i < rows@.len()
            ==> password_of_row(#[trigger] r@[i], row_view(rows@[i]@), decryption_key@),
{
    let mut out: Vec<PasswordsData> = Vec::new();
    let n: usize = rows.len();
    for i in 0..n
        invariant
            n == rows@.len(),
            out@.len() == i,
            forall|j: int| 0 <= j < i
                ==> password_of_row(#[trigger] out@[j], row_view(rows@[j]@), decryption_key@),
    {
        let rec = PasswordsData::from_row(&rows[i], decryption_key);
        out.push(rec);
    }
    out
}

/// Pull every row of the logins table of the database at `db_path` and map
/// each by ordinal.  A database that cannot be opened or queried yields
/// the empty sequence.  Whatever rows came back, each returned record is
/// the exact ordinal mapping of one of them under the given key.
pub fn get_passwords_data(db_path: &str, decryption_key: &[u8]) -> (r: Vec<PasswordsData>)
    ensures
        exists|rows: Seq<Seq<ColVal>>|
            #![trigger rows.len()]
            r@.len() == rows.len() && (forall|i: int| 0 <= i < rows.len()
                ==> password_of_row(#[trigger] r@[i], rows[i], decryption_key@)),
{
    match get_sqlite_data(db_path, "SELECT * FROM logins") {
        Some(rows) => {
            let out = password_from_rows(&rows, decryption_key);
            proof {
                let rs = Seq::new(rows@.len(), |i: int| row_view(rows@[i]@));
                assert(out@.len() == rs.len() && (forall|i: int| 0 <= i < rs.len()
                    ==> password_of_row(#[trigger] out@[i], rs[i], decryption_key@)));
            }
            out
        },
        None => {
            let out: Vec<PasswordsData> = Vec::new();
            proof {
                let rs = Seq::<Seq<ColVal>>::empty();
                assert(out@.len() == rs.len());
            }
            out
        },
    }
}

/// Map each row of a autofill-table result by ordinal, in order.
pub fn autofill_entry_from_rows(rows: &Vec<Vec<ColumnValue>>, decryption_key: &[u8]) -> (r: Vec<AutofillData>)
    ensures
        r@.len() == rows@.len(),
        forall|i: int| 0 <= i < rows@.len()
            ==> autofill_entry_of_row(#[trigger] r@[i], row_view(rows@[i]@), decryption_key@),
{
    let mut out: Vec<AutofillData> = Vec::new();
    let n: usize = rows.len();
    for i in 0..n
        invariant
            n == rows@.len(),
            out@.len() == i,
            forall|j: int| 0 <= j < i
                ==> autofill_entry_of_row(#[trigger] out@[j], row_view(rows@[j]@), decryption_key@),
    {
        let rec = AutofillData::from_row(&rows[i], decryption_key);
        out.push(rec);
    }
    out
}

/// Pull every row of the autofill table of the database at `db_path` and map
/// each by ordinal.  A database that cannot be opened or queried yields
/// the empty sequence.  Whatever rows came back, each returned record is
/// the exact ordinal mapping of one of them under the given key.
pub fn get_autofill_data(db_path: &str, decryption_key: &[u8]) -> (r: Vec<AutofillData>)
    ensures
        exists|rows: Seq<Seq<ColVal>>|
            #![trigger rows.len()]
            r@.len() == rows.len() && (forall|i: int| 0 <= i < rows.len()
                ==> autofill_entry_of_row(#[trigger] r@[i], rows[i], decryption_key@)),
{
    match get_sqlite_data(db_path, "SELECT * FROM autofill") {
        Some(rows) => {
            let out = autofill_entry_from_rows(&rows, decryption_key);
            proof {
                let rs = Seq::new(rows@.len(), |i: int| row_view(rows@[i]@));
                assert(out@.len() == rs.len() && (forall|i: int| 0 <= i < rs.len()
                    ==> autofill_entry_of_row(#[trigger] out@[i], rs[i], decryption_key@)));
            }
            out
        },
        None => {
            let out: Vec<AutofillData> = Vec::new();
            proof {
                let rs = Seq::<Seq<ColVal>>::empty();
                assert(out@.len() == rs.len());
            }
            out
        },
    }
}

/// Map each row of a credit-cards-table result by ordinal, in order.
pub fn credit_card_from_rows(rows: &Vec<Vec<ColumnValue>>, decryption_key: &[u8]) -> (r: Vec<CreditCardData>)
    ensures
        r@.len() == rows@.len(),
        forall|i: int| 0 <= i < rows@.len()
            ==> credit_card_of_row(#[trigger] r@[i], row_view(rows@[i]@), decryption_key@),
{
    let mut out: Vec<CreditCardData> = Vec::new();
    let n: usize = rows.len();
    for i in 0..n
        invariant
            n == rows@.len(),
            out@.len() == i,
            forall|j: int| 0 <= j < i
                ==> credit_card_of_row(#[trigger] out@[j], row_view(rows@[j]@), decryption_key@),
    {
        let rec = CreditCardData::from_row(&rows[i], decryption_key);
        out.push(rec);
    }
    out
}

/// Pull every row of the credit-cards table of the database at `db_path` and map
/// each by ordinal.  A database that cannot be opened or queried yields
/// the empty sequence.  Whatever rows came back, each returned record is
/// the exact ordinal mapping of one of them under the given key.
pub fn get_credit_cards_data(db_path: &str, decryption_key: &[u8]) -> (r: Vec<CreditCardData>)
    ensures
        exists|rows: Seq<Seq<ColVal>>|
            #![trigger rows.len()]
            r@.len() == rows.len() && (forall|i: int| 0 <= i < rows.len()
                ==> credit_card_of_row(#[trigger] r@[i], rows[i], decryption_key@)),
{
    match get_sqlite_data(db_path, "SELECT * FROM credit_cards") {
        Some(rows) => {
            let out = credit_card_from_rows(&rows, decryption_key);
            proof {
                let rs = Seq::new(rows@.len(), |i: int| row_view(rows@[i]@));
                assert(out@.len() == rs.len() && (forall|i: int| 0 <= i < rs.len()
                    ==> credit_card_of_row(#[trigger] out@[i], rs[i], decryption_key@)));
            }
            out
        },
        None => {
            let out: Vec<CreditCardData> = Vec::new();
            proof {
                let rs = Seq::<Seq<ColVal>>::empty();
                assert(out@.len() == rs.len());
            }
            out
        },
    }
}

/// Map each row of a local-addresses-table result by ordinal, in order.
pub fn address_from_rows(rows: &Vec<Vec<ColumnValue>>, decryption_key: &[u8]) -> (r: Vec<AddressData>)
    ensures
        r@.len() == rows@.len(),
        forall|i: int| 0 <= i < rows@.len()
            ==> address_of_row(#[trigger] r@[i], row_view(rows@[i]@), decryption_key@),
{
    let mut out: Vec<AddressData> = Vec::new();
    let n: usize = rows.len();
    for i in 0..n
        invariant
            n == rows@.len(),
            out@.len() == i,
            forall|j: int| 0 <= j < i
                ==> address_of_row(#[trigger] out@[j], row_view(rows@[j]@), decryption_key@),
    {
        let rec = AddressData::from_row(&rows[i], decryption_key);
        out.push(rec);
    }
    out
}

/// Pull every row of the local-addresses table of the database at `db_path` and map
/// each by ordinal.  A database that cannot be opened or queried yields
/// the empty sequence.  Whatever rows came back, each returned record is
/// the exact ordinal mapping of one of them under the given key.
pub fn get_addresses_data(db_path: &str, decryption_key: &[u8]) -> (r: Vec<AddressData>)
    ensures
        exists|rows: Seq<Seq<ColVal>>|
            #![trigger rows.len()]
            r@.len() == rows.len() && (forall|i: int| 0 <= i < rows.len()
                ==> address_of_row(#[trigger] r@[i], rows[i], decryption_key@)),
{
    match get_sqlite_data(db_path, "SELECT * FROM local_addresses") {
        Some(rows) => {
            let out = address_from_rows(&rows, decryption_key);
            proof {
                let rs = Seq::new(rows@.len(), |i: int| row_view(rows@[i]@));
                assert(out@.len() == rs.len() && (forall|i: int| 0 <= i < rs.len()
                    ==> address_of_row(#[trigger] out@[i], rs[i], decryption_key@)));
            }
            out
        },
        None => {
            let out: Vec<AddressData> = Vec::new();
            proof {
                let rs = Seq::<Seq<ColVal>>::empty();
                assert(out@.len() == rs.len());
            }
            out
        },
    }
}

/// Map each row of a urls-table result by ordinal, in order.
pub fn history_entry_from_rows(rows: &Vec<Vec<ColumnValue>>, decryption_key: &[u8]) -> (r: Vec<HistoryData>)
    ensures
        r@.len() == rows@.len(),
        forall|i: int| 0 <= i < rows@.len()
            ==> history_entry_of_row(#[trigger] r@[i], row_view(rows@[i]@), decryption_key@),
{
    let mut out: Vec<HistoryData> = Vec::new();
    let n: usize = rows.len();
    for i in 0..n
        invariant
            n == rows@.len(),
            out@.len() == i,
            forall|j: int| 0 <= j < i
                ==> history_entry_of_row(#[trigger] out@[j], row_view(rows@[j]@), decryption_key@),
    {
        let rec = HistoryData::from_row(&rows[i], decryption_key);
        out.push(rec);
    }
    out
}

/// Pull every row of the urls table of the database at `db_path` and map
/// each by ordinal.  A database that cannot be opened or queried yields
/// the empty sequence.  Whatever rows came back, each returned record is
/// the exact ordinal mapping of one of them under the given key.
pub fn get_history_data(db_path: &str, decryption_key: &[u8]) -> (r: Vec<HistoryData>)
    ensures
        exists|rows: Seq<Seq<ColVal>>|
            #![trigger rows.len()]
            r@.len() == rows.len() && (forall|i: int| 0 <= i < rows.len()
                ==> history_entry_of_row(#[trigger] r@[i], rows[i], decryption_key@)),
{
    match get_sqlite_data(db_path, "SELECT * FROM urls") {
        Some(rows) => {
            let out = history_entry_from_rows(&rows, decryption_key);
            proof {
                let rs = Seq::new(rows@.len(), |i: int| row_view(rows@[i]@));
                assert(out@.len() == rs.len() && (forall|i: int| 0 <= i < rs.len()
                    ==> history_entry_of_row(#[trigger] out@[i], rs[i], decryption_key@)));
            }
            out
        },
        None => {
            let out: Vec<HistoryData> = Vec::new();
            proof {
                let rs = Seq::<Seq<ColVal>>::empty();
                assert(out@.len() == rs.len());
            }
            out
        },
    }
}

/// Map each row of a downloads-table result by ordinal, in order.
pub fn download_entry_from_rows(rows: &Vec<Vec<ColumnValue>>, decryption_key: &[u8]) -> (r: Vec<DownloadHistoryData>)
    ensures
        r@.len() == rows@.len(),
        forall|i: int| 0 <= i < rows@.len()
            ==> download_entry_of_row(#[trigger] r@[i], row_view(rows@[i]@), decryption_key@),
{
    let mut out: Vec<DownloadHistoryData> = Vec::new();
    let n: usize = rows.len();
    for i in 0..n
        invariant
            n == rows@.len(),
            out@.len() == i,
            forall|j: int| 0 <= j < i
                ==> download_entry_of_row(#[trigger] out@[j], row_view(rows@[j]@), decryption_key@),
    {
        let rec = DownloadHistoryData::from_row(&rows[i], decryption_key);
        out.push(rec);
    }
    out
}

/// Pull every row of the downloads table of the database at `db_path` and map
/// each by ordinal.  A database that cannot be opened or queried yields
/// the empty sequence.  Whatever rows came back, each returned record is
/// the exact ordinal mapping of one of them under the given key.
pub fn get_download_history_data(db_path: &str, decryption_key: &[u8]) -> (r: Vec<DownloadHistoryData>)
    ensures
        exists|rows: Seq<Seq<ColVal>>|
            #![trigger rows.len()]
            r@.len() == rows.len() && (forall|i: int| 0 <= i < rows.len()
                ==> download_entry_of_row(#[trigger] r@[i], rows[i], decryption_key@)),
{
    match get_sqlite_data(db_path, "SELECT * FROM downloads") {
        Some(rows) => {
            let out = download_entry_from_rows(&rows, decryption_key);
            proof {
                let rs = Seq::new(rows@.len(), |i: int| row_view(rows@[i]@));
                assert(out@.len() == rs.len() && (forall|i: int| 0 <= i < rs.len()
                    ==> download_entry_of_row(#[trigger] out@[i], rs[i], decryption_key@)));
            }
            out
        },
        None => {
            let out: Vec<DownloadHistoryData> = Vec::new();
            proof {
                let rs = Seq::<Seq<ColVal>>::empty();
                assert(out@.len() == rs.len());
            }
            out
        },
    }
}

/// Map each row of a keyword-search-terms-table result by ordinal, in order.
pub fn keyword_entry_from_rows(rows: &Vec<Vec<ColumnValue>>, decryption_key: &[u8]) -> (r: Vec<KeywordsData>)
    ensures
        r@.len() == rows@.len(),
        forall|i: int| 0 <= i < rows@.len()
            ==> keyword_entry_of_row(#[trigger] r@[i], row_view(rows@[i]@), decryption_key@),
{
    let mut out: Vec<KeywordsData> = Vec::new();
    let n: usize = rows.len();
    for i in 0..n
        invariant
            n == rows@.len(),
            out@.len() == i,
            forall|j: int| 0 <= j < i
                ==> keyword_entry_of_row(#[trigger] out@[j], row_view(rows@[j]@), decryption_key@),
    {
        let rec = KeywordsData::from_row(&rows[i], decryption_key);
        out.push(rec);
    }
    out
}

/// Pull every row of the keyword-search-terms table of the database at `db_path` and map
/// each by ordinal.  A database that cannot be opened or queried yields
/// the empty sequence.  Whatever rows came back, each returned record is
/// the exact ordinal mapping of one of them under the given key.
pub fn get_keywords_data(db_path: &str, decryption_key: &[u8]) -> (r: Vec<KeywordsData>)
    ensures
        exists|rows: Seq<Seq<ColVal>>|
            #![trigger rows.len()]
            r@.len() == rows.len() && (forall|i: int| 0 <= i < rows.len()
                ==> keyword_entry_of_row(#[trigger] r@[i], rows[i], decryption_key@)),
{
    match get_sqlite_data(db_path, "SELECT * FROM keyword_search_terms") {
        Some(rows) => {
            let out = keyword_entry_from_rows(&rows, decryption_key);
            proof {
                let rs = Seq::new(rows@.len(), |i: int| row_view(rows@[i]@));
                assert(out@.len() == rs.len() && (forall|i: int| 0 <= i < rs.len()
                    ==> keyword_entry_of_row(#[trigger] out@[i], rs[i], decryption_key@)));
            }
            out
        },
        None => {
            let out: Vec<KeywordsData> = Vec::new();
            proof {
                let rs = Seq::<Seq<ColVal>>::empty();
                assert(out@.len() == rs.len());
            }
            out
        },
    }
}

} // verus!
