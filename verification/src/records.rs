//! Typed records, one per data category, each filled from one database
//! row by fixed column ordinals.
//!
//! The ordinal layout of each record is its contract: field by field, the
//! contracts below name the column position each field is read from.
//! Columns known to hold encrypted payloads go through the field
//! decryptor; every other column is copied as it stands, and a column the
//! row lacks degrades to `Null`.  Records are built whole from one row and
//! never change afterwards.

use crate::crypt::{decrypt_sql_value, decrypted_sql};
use crate::values::{
    cell, get_sql_value, lemma_sval_pair_views, row_view, structured_of_column, sval_pair_views,
    ColVal, ColumnValue, SVal, SqlValue, StructuredValue,
};
use vstd::prelude::*;

verus! {

/// The cell at one ordinal of a row, where the row has it.
fn cell_ref(row: &Vec<ColumnValue>, i: usize) -> (r: Option<&ColumnValue>)
    ensures
        (match r {
            Some(v) => i < row@.len() && *v == row@[i as int],
            None => i >= row@.len(),
        }),
{
    if i < row.len() {
        Some(&row[i])
    } else {
        None
    }
}

/// One row of the cookies-shaped table, mapped by ordinal:
/// `creation_utc <- 0, host_key <- 1, top_frame_site_key <- 2, name <- 3`.
/// `value <- 5 (decrypted), path <- 6, expires_utc <- 7, is_secure <- 8`.
/// `is_http_only <- 9, last_access_utc <- 10, has_expires <- 11, is_persistent <- 12`.
/// `priority <- 13, same_site <- 14, source_scheme <- 15, source_port <- 16`.
/// `last_update_utc <- 17`.
#[derive(Debug, PartialEq, Eq)]
pub struct CookiesData {
    pub creation_utc: SqlValue,
    pub host_key: SqlValue,
    pub top_frame_site_key: SqlValue,
    pub name: SqlValue,
    pub value: SqlValue,
    pub path: SqlValue,
    pub expires_utc: SqlValue,
    pub is_secure: SqlValue,
    pub is_http_only: SqlValue,
    pub last_access_utc: SqlValue,
    pub has_expires: SqlValue,
    pub is_persistent: SqlValue,
    pub priority: SqlValue,
    pub same_site: SqlValue,
    pub source_scheme: SqlValue,
    pub source_port: SqlValue,
    pub last_update_utc: SqlValue,
}

/// `r` is the ordinal mapping of `row` under `key`.
pub open spec fn cookie_of_row(r: CookiesData, row: Seq<ColVal>, key: Seq<u8>) -> bool {
    &&& r.creation_utc.value@ == cell(row, 0)
    &&& r.host_key.value@ == cell(row, 1)
    &&& r.top_frame_site_key.value@ == cell(row, 2)
    &&& r.name.value@ == cell(row, 3)
    &&& r.value.value@ == decrypted_sql(cell(row, 5), key)
    &&& r.path.value@ == cell(row, 6)
    &&& r.expires_utc.value@ == cell(row, 7)
    &&& r.is_secure.value@ == cell(row, 8)
    &&& r.is_http_only.value@ == cell(row, 9)
    &&& r.last_access_utc.value@ == cell(row, 10)
    &&& r.has_expires.value@ == cell(row, 11)
    &&& r.is_persistent.value@ == cell(row, 12)
    &&& r.priority.value@ == cell(row, 13)
    &&& r.same_site.value@ == cell(row, 14)
    &&& r.source_scheme.value@ == cell(row, 15)
    &&& r.source_port.value@ == cell(row, 16)
    &&& r.last_update_utc.value@ == cell(row, 17)
}

impl CookiesData {
    /// Map one row by ordinal; encrypted columns go through the field
    /// decryptor with the given master key.
    pub fn from_row(row: &Vec<ColumnValue>, decryption_key: &[u8]) -> (r: CookiesData)
        ensures
            cookie_of_row(r, row_view(row@), decryption_key@),
    {
        CookiesData {
            creation_utc: get_sql_value(cell_ref(row, 0)),
            host_key: get_sql_value(cell_ref(row, 1)),
            top_frame_site_key: get_sql_value(cell_ref(row, 2)),
            name: get_sql_value(cell_ref(row, 3)),
            value: decrypt_sql_value(cell_ref(row, 5), decryption_key),
            path: get_sql_value(cell_ref(row, 6)),
            expires_utc: get_sql_value(cell_ref(row, 7)),
            is_secure: get_sql_value(cell_ref(row, 8)),
            is_http_only: get_sql_value(cell_ref(row, 9)),
            last_access_utc: get_sql_value(cell_ref(row, 10)),
            has_expires: get_sql_value(cell_ref(row, 11)),
            is_persistent: get_sql_value(cell_ref(row, 12)),
            priority: get_sql_value(cell_ref(row, 13)),
            same_site: get_sql_value(cell_ref(row, 14)),
            source_scheme: get_sql_value(cell_ref(row, 15)),
            source_port: get_sql_value(cell_ref(row, 16)),
            last_update_utc: get_sql_value(cell_ref(row, 17)),
        }
    }

    /// The structured output form of this record: its fields by name,
    /// in declaration order.
    pub open spec fn structured_fields(self) -> Seq<(Seq<char>, SVal)> {
        seq![
            ("creation_utc"@, structured_of_column(self.creation_utc.value@)),
            ("host_key"@, structured_of_column(self.host_key.value@)),
            ("top_frame_site_key"@, structured_of_column(self.top_frame_site_key.value@)),
            ("name"@, structured_of_column(self.name.value@)),
            ("value"@, structured_of_column(self.value.value@)),
            ("path"@, structured_of_column(self.path.value@)),
            ("expires_utc"@, structured_of_column(self.expires_utc.value@)),
            ("is_secure"@, structured_of_column(self.is_secure.value@)),
            ("is_http_only"@, structured_of_column(self.is_http_only.value@)),
            ("last_access_utc"@, structured_of_column(self.last_access_utc.value@)),
            ("has_expires"@, structured_of_column(self.has_expires.value@)),
            ("is_persistent"@, structured_of_column(self.is_persistent.value@)),
            ("priority"@, structured_of_column(self.priority.value@)),
            ("same_site"@, structured_of_column(self.same_site.value@)),
            ("source_scheme"@, structured_of_column(self.source_scheme.value@)),
            ("source_port"@, structured_of_column(self.source_port.value@)),
            ("last_update_utc"@, structured_of_column(self.last_update_utc.value@)),
        ]
    }

    /// Coerce this record into a structured object value.
    pub fn to_structured(&self) -> (r: StructuredValue)
        ensures
            r@ == SVal::Object(self.structured_fields()),
    {
        let mut pairs: Vec<(String, StructuredValue)> = Vec::new();
        pairs.push(("creation_utc".to_owned(), self.creation_utc.to_structured()));
        pairs.push(("host_key".to_owned(), self.host_key.to_structured()));
        pairs.push(("top_frame_site_key".to_owned(), self.top_frame_site_key.to_structured()));
        pairs.push(("name".to_owned(), self.name.to_structured()));
        pairs.push(("value".to_owned(), self.value.to_structured()));
        pairs.push(("path".to_owned(), self.path.to_structured()));
        pairs.push(("expires_utc".to_owned(), self.expires_utc.to_structured()));
        pairs.push(("is_secure".to_owned(), self.is_secure.to_structured()));
        pairs.push(("is_http_only".to_owned(), self.is_http_only.to_structured()));
        pairs.push(("last_access_utc".to_owned(), self.last_access_utc.to_structured()));
        pairs.push(("has_expires".to_owned(), self.has_expires.to_structured()));
        pairs.push(("is_persistent".to_owned(), self.is_persistent.to_structured()));
        pairs.push(("priority".to_owned(), self.priority.to_structured()));
        pairs.push(("same_site".to_owned(), self.same_site.to_structured()));
        pairs.push(("source_scheme".to_owned(), self.source_scheme.to_structured()));
        pairs.push(("source_port".to_owned(), self.source_port.to_structured()));
        pairs.push(("last_update_utc".to_owned(), self.last_update_utc.to_structured()));
        proof {
            lemma_sval_pair_views(pairs@);
            assert(sval_pair_views(pairs@) =~~= self.structured_fields());
        }
        StructuredValue::Object(pairs)
    }
}

/// One row of the logins-shaped table, mapped by ordinal:
/// `origin_url <- 0, action_url <- 1, username_value <- 3, password_value <- 5 (decrypted)`.
/// `date_created <- 8, blacklisted_by_user <- 9, scheme <- 10, password_type <- 11`.
/// `times_used <- 12, form_data <- 13, display_name <- 14, possible_username_pairs <- 19`.
/// `date_last_used <- 20, date_password_modified <- 22, sender_email <- 23, sender_name <- 24`.
/// `date_received <- 25`.
#[derive(Debug, PartialEq, Eq)]
pub struct PasswordsData {
    pub origin_url: SqlValue,
    pub action_url: SqlValue,
    pub username_value: SqlValue,
    pub password_value: SqlValue,
    pub date_created: SqlValue,
    pub blacklisted_by_user: SqlValue,
    pub scheme: SqlValue,
    pub password_type: SqlValue,
    pub times_used: SqlValue,
    pub form_data: SqlValue,
    pub display_name: SqlValue,
    pub possible_username_pairs: SqlValue,
    pub date_last_used: SqlValue,
    pub date_password_modified: SqlValue,
    pub sender_email: SqlValue,
    pub sender_name: SqlValue,
    pub date_received: SqlValue,
}

/// `r` is the ordinal mapping of `row` under `key`.
pub open spec fn password_of_row(r: PasswordsData, row: Seq<ColVal>, key: Seq<u8>) -> bool {
    &&& r.origin_url.value@ == cell(row, 0)
    &&& r.action_url.value@ == cell(row, 1)
    &&& r.username_value.value@ == cell(row, 3)
    &&& r.password_value.value@ == decrypted_sql(cell(row, 5), key)
    &&& r.date_created.value@ == cell(row, 8)
    &&& r.blacklisted_by_user.value@ == cell(row, 9)
    &&& r.scheme.value@ == cell(row, 10)
    &&& r.password_type.value@ == cell(row, 11)
    &&& r.times_used.value@ == cell(row, 12)
    &&& r.form_data.value@ == cell(row, 13)
    &&& r.display_name.value@ == cell(row, 14)
    &&& r.possible_username_pairs.value@ == cell(row, 19)
    &&& r.date_last_used.value@ == cell(row, 20)
    &&& r.date_password_modified.value@ == cell(row, 22)
    &&& r.sender_email.value@ == cell(row, 23)
    &&& r.sender_name.value@ == cell(row, 24)
    &&& r.date_received.value@ == cell(row, 25)
}

impl PasswordsData {
    /// Map one row by ordinal; encrypted columns go through the field
    /// decryptor with the given master key.
    pub fn from_row(row: &Vec<ColumnValue>, decryption_key: &[u8]) -> (r: PasswordsData)
        ensures
            password_of_row(r, row_view(row@), decryption_key@),
    {
        PasswordsData {
            origin_url: get_sql_value(cell_ref(row, 0)),
            action_url: get_sql_value(cell_ref(row, 1)),
            username_value: get_sql_value(cell_ref(row, 3)),
            password_value: decrypt_sql_value(cell_ref(row, 5), decryption_key),
            date_created: get_sql_value(cell_ref(row, 8)),
            blacklisted_by_user: get_sql_value(cell_ref(row, 9)),
            scheme: get_sql_value(cell_ref(row, 10)),
            password_type: get_sql_value(cell_ref(row, 11)),
            times_used: get_sql_value(cell_ref(row, 12)),
            form_data: get_sql_value(cell_ref(row, 13)),
            display_name: get_sql_value(cell_ref(row, 14)),
            possible_username_pairs: get_sql_value(cell_ref(row, 19)),
            date_last_used: get_sql_value(cell_ref(row, 20)),
            date_password_modified: get_sql_value(cell_ref(row, 22)),
            sender_email: get_sql_value(cell_ref(row, 23)),
            sender_name: get_sql_value(cell_ref(row, 24)),
            date_received: get_sql_value(cell_ref(row, 25)),
        }
    }

    /// The structured output form of this record: its fields by name,
    /// in declaration order.
    pub open spec fn structured_fields(self) -> Seq<(Seq<char>, SVal)> {
        seq![
            ("origin_url"@, structured_of_column(self.origin_url.value@)),
            ("action_url"@, structured_of_column(self.action_url.value@)),
            ("username_value"@, structured_of_column(self.username_value.value@)),
            ("password_value"@, structured_of_column(self.password_value.value@)),
            ("date_created"@, structured_of_column(self.date_created.value@)),
            ("blacklisted_by_user"@, structured_of_column(self.blacklisted_by_user.value@)),
            ("scheme"@, structured_of_column(self.scheme.value@)),
            ("password_type"@, structured_of_column(self.password_type.value@)),
            ("times_used"@, structured_of_column(self.times_used.value@)),
            ("form_data"@, structured_of_column(self.form_data.value@)),
            ("display_name"@, structured_of_column(self.display_name.value@)),
            ("possible_username_pairs"@, structured_of_column(self.possible_username_pairs.value@)),
            ("date_last_used"@, structured_of_column(self.date_last_used.value@)),
            ("date_password_modified"@, structured_of_column(self.date_password_modified.value@)),
            ("sender_email"@, structured_of_column(self.sender_email.value@)),
            ("sender_name"@, structured_of_column(self.sender_name.value@)),
            ("date_received"@, structured_of_column(self.date_received.value@)),
        ]
    }

    /// Coerce this record into a structured object value.
    pub fn to_structured(&self) -> (r: StructuredValue)
        ensures
            r@ == SVal::Object(self.structured_fields()),
    {
        let mut pairs: Vec<(String, StructuredValue)> = Vec::new();
        pairs.push(("origin_url".to_owned(), self.origin_url.to_structured()));
        pairs.push(("action_url".to_owned(), self.action_url.to_structured()));
        pairs.push(("username_value".to_owned(), self.username_value.to_structured()));
        pairs.push(("password_value".to_owned(), self.password_value.to_structured()));
        pairs.push(("date_created".to_owned(), self.date_created.to_structured()));
        pairs.push(("blacklisted_by_user".to_owned(), self.blacklisted_by_user.to_structured()));
        pairs.push(("scheme".to_owned(), self.scheme.to_structured()));
        pairs.push(("password_type".to_owned(), self.password_type.to_structured()));
        pairs.push(("times_used".to_owned(), self.times_used.to_structured()));
        pairs.push(("form_data".to_owned(), self.form_data.to_structured()));
        pairs.push(("display_name".to_owned(), self.display_name.to_structured()));
        pairs.push(("possible_username_pairs".to_owned(), self.possible_username_pairs.to_structured()));
        pairs.push(("date_last_used".to_owned(), self.date_last_used.to_structured()));
        pairs.push(("date_password_modified".to_owned(), self.date_password_modified.to_structured()));
        pairs.push(("sender_email".to_owned(), self.sender_email.to_structured()));
        pairs.push(("sender_name".to_owned(), self.sender_name.to_structured()));
        pairs.push(("date_received".to_owned(), self.date_received.to_structured()));
        proof {
            lemma_sval_pair_views(pairs@);
            assert(sval_pair_views(pairs@) =~~= self.structured_fields());
        }
        StructuredValue::Object(pairs)
    }
}

/// One row of the autofill-shaped table, mapped by ordinal:
/// `name <- 0, value <- 1, value_lower <- 2, date_created <- 3`.
/// `date_last_used <- 4, count <- 5`.
#[derive(Debug, PartialEq, Eq)]
pub struct AutofillData {
    pub name: SqlValue,
    pub value: SqlValue,
    pub value_lower: SqlValue,
    pub date_created: SqlValue,
    pub date_last_used: SqlValue,
    pub count: SqlValue,
}

/// `r` is the ordinal mapping of `row` under `key`.
pub open spec fn autofill_entry_of_row(r: AutofillData, row: Seq<ColVal>, key: Seq<u8>) -> bool {
    &&& r.name.value@ == cell(row, 0)
    &&& r.value.value@ == cell(row, 1)
    &&& r.value_lower.value@ == cell(row, 2)
    &&& r.date_created.value@ == cell(row, 3)
    &&& r.date_last_used.value@ == cell(row, 4)
    &&& r.count.value@ == cell(row, 5)
}

impl AutofillData {
    /// Map one row by ordinal; encrypted columns go through the field
    /// decryptor with the given master key.
    pub fn from_row(row: &Vec<ColumnValue>, decryption_key: &[u8]) -> (r: AutofillData)
        ensures
            autofill_entry_of_row(r, row_view(row@), decryption_key@),
    {
        AutofillData {
            name: get_sql_value(cell_ref(row, 0)),
            value: get_sql_value(cell_ref(row, 1)),
            value_lower: get_sql_value(cell_ref(row, 2)),
            date_created: get_sql_value(cell_ref(row, 3)),
            date_last_used: get_sql_value(cell_ref(row, 4)),
            count: get_sql_value(cell_ref(row, 5)),
        }
    }

    /// The structured output form of this record: its fields by name,
    /// in declaration order.
    pub open spec fn structured_fields(self) -> Seq<(Seq<char>, SVal)> {
        seq![
            ("name"@, structured_of_column(self.name.value@)),
            ("value"@, structured_of_column(self.value.value@)),
            ("value_lower"@, structured_of_column(self.value_lower.value@)),
            ("date_created"@, structured_of_column(self.date_created.value@)),
            ("date_last_used"@, structured_of_column(self.date_last_used.value@)),
            ("count"@, structured_of_column(self.count.value@)),
        ]
    }

    /// Coerce this record into a structured object value.
    pub fn to_structured(&self) -> (r: StructuredValue)
        ensures
            r@ == SVal::Object(self.structured_fields()),
    {
        let mut pairs: Vec<(String, StructuredValue)> = Vec::new();
        pairs.push(("name".to_owned(), self.name.to_structured()));
        pairs.push(("value".to_owned(), self.value.to_structured()));
        pairs.push(("value_lower".to_owned(), self.value_lower.to_structured()));
        pairs.push(("date_created".to_owned(), self.date_created.to_structured()));
        pairs.push(("date_last_used".to_owned(), self.date_last_used.to_structured()));
        pairs.push(("count".to_owned(), self.count.to_structured()));
        proof {
            lemma_sval_pair_views(pairs@);
            assert(sval_pair_views(pairs@) =~~= self.structured_fields());
        }
        StructuredValue::Object(pairs)
    }
}

/// One row of the credit-cards-shaped table, mapped by ordinal:
/// `guid <- 0, name_on_card <- 1, expiration_month <- 2, expiration_year <- 3`.
/// `card_number <- 4 (decrypted), date_modified <- 5, origin <- 6, use_count <- 7`.
/// `use_date <- 8, billing_address_id <- 9, nickname <- 10`.
#[derive(Debug, PartialEq, Eq)]
pub struct CreditCardData {
    pub guid: SqlValue,
    pub name_on_card: SqlValue,
    pub expiration_month: SqlValue,
    pub expiration_year: SqlValue,
    pub card_number: SqlValue,
    pub date_modified: SqlValue,
    pub origin: SqlValue,
    pub use_count: SqlValue,
    pub use_date: SqlValue,
    pub billing_address_id: SqlValue,
    pub nickname: SqlValue,
}

/// `r` is the ordinal mapping of `row` under `key`.
pub open spec fn credit_card_of_row(r: CreditCardData, row: Seq<ColVal>, key: Seq<u8>) -> bool {
    &&& r.guid.value@ == cell(row, 0)
    &&& r.name_on_card.value@ == cell(row, 1)
    &&& r.expiration_month.value@ == cell(row, 2)
    &&& r.expiration_year.value@ == cell(row, 3)
    &&& r.card_number.value@ == decrypted_sql(cell(row, 4), key)
    &&& r.date_modified.value@ == cell(row, 5)
    &&& r.origin.value@ == cell(row, 6)
    &&& r.use_count.value@ == cell(row, 7)
    &&& r.use_date.value@ == cell(row, 8)
    &&& r.billing_address_id.value@ == cell(row, 9)
    &&& r.nickname.value@ == cell(row, 10)
}

impl CreditCardData {
    /// Map one row by ordinal; encrypted columns go through the field
    /// decryptor with the given master key.
    pub fn from_row(row: &Vec<ColumnValue>, decryption_key: &[u8]) -> (r: CreditCardData)
        ensures
            credit_card_of_row(r, row_view(row@), decryption_key@),
    {
        CreditCardData {
            guid: get_sql_value(cell_ref(row, 0)),
            name_on_card: get_sql_value(cell_ref(row, 1)),
            expiration_month: get_sql_value(cell_ref(row, 2)),
            expiration_year: get_sql_value(cell_ref(row, 3)),
            card_number: decrypt_sql_value(cell_ref(row, 4), decryption_key),
            date_modified: get_sql_value(cell_ref(row, 5)),
            origin: get_sql_value(cell_ref(row, 6)),
            use_count: get_sql_value(cell_ref(row, 7)),
            use_date: get_sql_value(cell_ref(row, 8)),
            billing_address_id: get_sql_value(cell_ref(row, 9)),
            nickname: get_sql_value(cell_ref(row, 10)),
        }
    }

    /// The structured output form of this record: its fields by name,
    /// in declaration order.
    pub open spec fn structured_fields(self) -> Seq<(Seq<char>, SVal)> {
        seq![
            ("guid"@, structured_of_column(self.guid.value@)),
            ("name_on_card"@, structured_of_column(self.name_on_card.value@)),
            ("expiration_month"@, structured_of_column(self.expiration_month.value@)),
            ("expiration_year"@, structured_of_column(self.expiration_year.value@)),
            ("card_number"@, structured_of_column(self.card_number.value@)),
            ("date_modified"@, structured_of_column(self.date_modified.value@)),
            ("origin"@, structured_of_column(self.origin.value@)),
            ("use_count"@, structured_of_column(self.use_count.value@)),
            ("use_date"@, structured_of_column(self.use_date.value@)),
            ("billing_address_id"@, structured_of_column(self.billing_address_id.value@)),
            ("nickname"@, structured_of_column(self.nickname.value@)),
        ]
    }

    /// Coerce this record into a structured object value.
    pub fn to_structured(&self) -> (r: StructuredValue)
        ensures
            r@ == SVal::Object(self.structured_fields()),
    {
        let mut pairs: Vec<(String, StructuredValue)> = Vec::new();
        pairs.push(("guid".to_owned(), self.guid.to_structured()));
        pairs.push(("name_on_card".to_owned(), self.name_on_card.to_structured()));
        pairs.push(("expiration_month".to_owned(), self.expiration_month.to_structured()));
        pairs.push(("expiration_year".to_owned(), self.expiration_year.to_structured()));
        pairs.push(("card_number".to_owned(), self.card_number.to_structured()));
        pairs.push(("date_modified".to_owned(), self.date_modified.to_structured()));
        pairs.push(("origin".to_owned(), self.origin.to_structured()));
        pairs.push(("use_count".to_owned(), self.use_count.to_structured()));
        pairs.push(("use_date".to_owned(), self.use_date.to_structured()));
        pairs.push(("billing_address_id".to_owned(), self.billing_address_id.to_structured()));
        pairs.push(("nickname".to_owned(), self.nickname.to_structured()));
        proof {
            lemma_sval_pair_views(pairs@);
            assert(sval_pair_views(pairs@) =~~= self.structured_fields());
        }
        StructuredValue::Object(pairs)
    }
}

/// One row of the addresses-shaped table, mapped by ordinal:
/// `guid <- 0, use_count <- 1, use_date <- 2, date_modified <- 3`.
/// `language_code <- 4, label <- 5`.
#[derive(Debug, PartialEq, Eq)]
pub struct AddressData {
    pub guid: SqlValue,
    pub use_count: SqlValue,
    pub use_date: SqlValue,
    pub date_modified: SqlValue,
    pub language_code: SqlValue,
    pub label: SqlValue,
}

/// `r` is the ordinal mapping of `row` under `key`.
pub open spec fn address_of_row(r: AddressData, row: Seq<ColVal>, key: Seq<u8>) -> bool {
    &&& r.guid.value@ == cell(row, 0)
    &&& r.use_count.value@ == cell(row, 1)
    &&& r.use_date.value@ == cell(row, 2)
    &&& r.date_modified.value@ == cell(row, 3)
    &&& r.language_code.value@ == cell(row, 4)
    &&& r.label.value@ == cell(row, 5)
}

impl AddressData {
    /// Map one row by ordinal; encrypted columns go through the field
    /// decryptor with the given master key.
    pub fn from_row(row: &Vec<ColumnValue>, decryption_key: &[u8]) -> (r: AddressData)
        ensures
            address_of_row(r, row_view(row@), decryption_key@),
    {
        AddressData {
            guid: get_sql_value(cell_ref(row, 0)),
            use_count: get_sql_value(cell_ref(row, 1)),
            use_date: get_sql_value(cell_ref(row, 2)),
            date_modified: get_sql_value(cell_ref(row, 3)),
            language_code: get_sql_value(cell_ref(row, 4)),
            label: get_sql_value(cell_ref(row, 5)),
        }
    }

    /// The structured output form of this record: its fields by name,
    /// in declaration order.
    pub open spec fn structured_fields(self) -> Seq<(Seq<char>, SVal)> {
        seq![
            ("guid"@, structured_of_column(self.guid.value@)),
            ("use_count"@, structured_of_column(self.use_count.value@)),
            ("use_date"@, structured_of_column(self.use_date.value@)),
            ("date_modified"@, structured_of_column(self.date_modified.value@)),
            ("language_code"@, structured_of_column(self.language_code.value@)),
            ("label"@, structured_of_column(self.label.value@)),
        ]
    }

    /// Coerce this record into a structured object value.
    pub fn to_structured(&self) -> (r: StructuredValue)
        ensures
            r@ == SVal::Object(self.structured_fields()),
    {
        let mut pairs: Vec<(String, StructuredValue)> = Vec::new();
        pairs.push(("guid".to_owned(), self.guid.to_structured()));
        pairs.push(("use_count".to_owned(), self.use_count.to_structured()));
        pairs.push(("use_date".to_owned(), self.use_date.to_structured()));
        pairs.push(("date_modified".to_owned(), self.date_modified.to_structured()));
        pairs.push(("language_code".to_owned(), self.language_code.to_structured()));
        pairs.push(("label".to_owned(), self.label.to_structured()));
        proof {
            lemma_sval_pair_views(pairs@);
            assert(sval_pair_views(pairs@) =~~= self.structured_fields());
        }
        StructuredValue::Object(pairs)
    }
}

/// One row of the urls-shaped table, mapped by ordinal:
/// `url <- 1, title <- 2, visit_count <- 3, typed_count <- 4`.
/// `last_visit_time <- 5, hidden <- 6`.
#[derive(Debug, PartialEq, Eq)]
pub struct HistoryData {
    pub url: SqlValue,
    pub title: SqlValue,
    pub visit_count: SqlValue,
    pub typed_count: SqlValue,
    pub last_visit_time: SqlValue,
    pub hidden: SqlValue,
}

/// `r` is the ordinal mapping of `row` under `key`.
pub open spec fn history_entry_of_row(r: HistoryData, row: Seq<ColVal>, key: Seq<u8>) -> bool {
    &&& r.url.value@ == cell(row, 1)
    &&& r.title.value@ == cell(row, 2)
    &&& r.visit_count.value@ == cell(row, 3)
    &&& r.typed_count.value@ == cell(row, 4)
    &&& r.last_visit_time.value@ == cell(row, 5)
    &&& r.hidden.value@ == cell(row, 6)
}

impl HistoryData {
    /// Map one row by ordinal; encrypted columns go through the field
    /// decryptor with the given master key.
    pub fn from_row(row: &Vec<ColumnValue>, decryption_key: &[u8]) -> (r: HistoryData)
        ensures
            history_entry_of_row(r, row_view(row@), decryption_key@),
    {
        HistoryData {
            url: get_sql_value(cell_ref(row, 1)),
            title: get_sql_value(cell_ref(row, 2)),
            visit_count: get_sql_value(cell_ref(row, 3)),
            typed_count: get_sql_value(cell_ref(row, 4)),
            last_visit_time: get_sql_value(cell_ref(row, 5)),
            hidden: get_sql_value(cell_ref(row, 6)),
        }
    }

    /// The structured output form of this record: its fields by name,
    /// in declaration order.
    pub open spec fn structured_fields(self) -> Seq<(Seq<char>, SVal)> {
        seq![
            ("url"@, structured_of_column(self.url.value@)),
            ("title"@, structured_of_column(self.title.value@)),
            ("visit_count"@, structured_of_column(self.visit_count.value@)),
            ("typed_count"@, structured_of_column(self.typed_count.value@)),
            ("last_visit_time"@, structured_of_column(self.last_visit_time.value@)),
            ("hidden"@, structured_of_column(self.hidden.value@)),
        ]
    }

    /// Coerce this record into a structured object value.
    pub fn to_structured(&self) -> (r: StructuredValue)
        ensures
            r@ == SVal::Object(self.structured_fields()),
    {
        let mut pairs: Vec<(String, StructuredValue)> = Vec::new();
        pairs.push(("url".to_owned(), self.url.to_structured()));
        pairs.push(("title".to_owned(), self.title.to_structured()));
        pairs.push(("visit_count".to_owned(), self.visit_count.to_structured()));
        pairs.push(("typed_count".to_owned(), self.typed_count.to_structured()));
        pairs.push(("last_visit_time".to_owned(), self.last_visit_time.to_structured()));
        pairs.push(("hidden".to_owned(), self.hidden.to_structured()));
        proof {
            lemma_sval_pair_views(pairs@);
            assert(sval_pair_views(pairs@) =~~= self.structured_fields());
        }
        StructuredValue::Object(pairs)
    }
}

/// One row of the downloads-shaped table, mapped by ordinal:
/// `id <- 0, guid <- 1, current_path <- 2, target_path <- 3`.
/// `referrer <- 15, site_url <- 16, mime_type <- 26, original_mime_type <- 27`.
#[derive(Debug, PartialEq, Eq)]
pub struct DownloadHistoryData {
    pub id: SqlValue,
    pub guid: SqlValue,
    pub current_path: SqlValue,
    pub target_path: SqlValue,
    pub referrer: SqlValue,
    pub site_url: SqlValue,
    pub mime_type: SqlValue,
    pub original_mime_type: SqlValue,
}

/// `r` is the ordinal mapping of `row` under `key`.
pub open spec fn download_entry_of_row(r: DownloadHistoryData, row: Seq<ColVal>, key: Seq<u8>) -> bool {
    &&& r.id.value@ == cell(row, 0)
    &&& r.guid.value@ == cell(row, 1)
    &&& r.current_path.value@ == cell(row, 2)
    &&& r.target_path.value@ == cell(row, 3)
    &&& r.referrer.value@ == cell(row, 15)
    &&& r.site_url.value@ == cell(row, 16)
    &&& r.mime_type.value@ == cell(row, 26)
    &&& r.original_mime_type.value@ == cell(row, 27)
}

impl DownloadHistoryData {
    /// Map one row by ordinal; encrypted columns go through the field
    /// decryptor with the given master key.
    pub fn from_row(row: &Vec<ColumnValue>, decryption_key: &[u8]) -> (r: DownloadHistoryData)
        ensures
            download_entry_of_row(r, row_view(row@), decryption_key@),
    {
        DownloadHistoryData {
            id: get_sql_value(cell_ref(row, 0)),
            guid: get_sql_value(cell_ref(row, 1)),
            current_path: get_sql_value(cell_ref(row, 2)),
            target_path: get_sql_value(cell_ref(row, 3)),
            referrer: get_sql_value(cell_ref(row, 15)),
            site_url: get_sql_value(cell_ref(row, 16)),
            mime_type: get_sql_value(cell_ref(row, 26)),
            original_mime_type: get_sql_value(cell_ref(row, 27)),
        }
    }

    /// The structured output form of this record: its fields by name,
    /// in declaration order.
    pub open spec fn structured_fields(self) -> Seq<(Seq<char>, SVal)> {
        seq![
            ("id"@, structured_of_column(self.id.value@)),
            ("guid"@, structured_of_column(self.guid.value@)),
            ("current_path"@, structured_of_column(self.current_path.value@)),
            ("target_path"@, structured_of_column(self.target_path.value@)),
            ("referrer"@, structured_of_column(self.referrer.value@)),
            ("site_url"@, structured_of_column(self.site_url.value@)),
            ("mime_type"@, structured_of_column(self.mime_type.value@)),
            ("original_mime_type"@, structured_of_column(self.original_mime_type.value@)),
        ]
    }

    /// Coerce this record into a structured object value.
    pub fn to_structured(&self) -> (r: StructuredValue)
        ensures
            r@ == SVal::Object(self.structured_fields()),
    {
        let mut pairs: Vec<(String, StructuredValue)> = Vec::new();
        pairs.push(("id".to_owned(), self.id.to_structured()));
        pairs.push(("guid".to_owned(), self.guid.to_structured()));
        pairs.push(("current_path".to_owned(), self.current_path.to_structured()));
        pairs.push(("target_path".to_owned(), self.target_path.to_structured()));
        pairs.push(("referrer".to_owned(), self.referrer.to_structured()));
        pairs.push(("site_url".to_owned(), self.site_url.to_structured()));
        pairs.push(("mime_type".to_owned(), self.mime_type.to_structured()));
        pairs.push(("original_mime_type".to_owned(), self.original_mime_type.to_structured()));
        proof {
            lemma_sval_pair_views(pairs@);
            assert(sval_pair_views(pairs@) =~~= self.structured_fields());
        }
        StructuredValue::Object(pairs)
    }
}

/// One row of the keyword-search-terms-shaped table, mapped by ordinal:
/// `keyword_id <- 0, url_id <- 1, term <- 2, normalized_term <- 3`.
#[derive(Debug, PartialEq, Eq)]
pub struct KeywordsData {
    pub keyword_id: SqlValue,
    pub url_id: SqlValue,
    pub term: SqlValue,
    pub normalized_term: SqlValue,
}

/// `r` is the ordinal mapping of `row` under `key`.
pub open spec fn keyword_entry_of_row(r: KeywordsData, row: Seq<ColVal>, key: Seq<u8>) -> bool {
    &&& r.keyword_id.value@ == cell(row, 0)
    &&& r.url_id.value@ == cell(row, 1)
    &&& r.term.value@ == cell(row, 2)
    &&& r.normalized_term.value@ == cell(row, 3)
}

impl KeywordsData {
    /// Map one row by ordinal; encrypted columns go through the field
    /// decryptor with the given master key.
    pub fn from_row(row: &Vec<ColumnValue>, decryption_key: &[u8]) -> (r: KeywordsData)
        ensures
            keyword_entry_of_row(r, row_view(row@), decryption_key@),
    {
        KeywordsData {
            keyword_id: get_sql_value(cell_ref(row, 0)),
            url_id: get_sql_value(cell_ref(row, 1)),
            term: get_sql_value(cell_ref(row, 2)),
            normalized_term: get_sql_value(cell_ref(row, 3)),
        }
    }

    /// The structured output form of this record: its fields by name,
    /// in declaration order.
    pub open spec fn structured_fields(self) -> Seq<(Seq<char>, SVal)> {
        seq![
            ("keyword_id"@, structured_of_column(self.keyword_id.value@)),
            ("url_id"@, structured_of_column(self.url_id.value@)),
            ("term"@, structured_of_column(self.term.value@)),
            ("normalized_term"@, structured_of_column(self.normalized_term.value@)),
        ]
    }

    /// Coerce this record into a structured object value.
    pub fn to_structured(&self) -> (r: StructuredValue)
        ensures
            r@ == SVal::Object(self.structured_fields()),
    {
        let mut pairs: Vec<(String, StructuredValue)> = Vec::new();
        pairs.push(("keyword_id".to_owned(), self.keyword_id.to_structured()));
        pairs.push(("url_id".to_owned(), self.url_id.to_structured()));
        pairs.push(("term".to_owned(), self.term.to_structured()));
        pairs.push(("normalized_term".to_owned(), self.normalized_term.to_structured()));
        proof {
            lemma_sval_pair_views(pairs@);
            assert(sval_pair_views(pairs@) =~~= self.structured_fields());
        }
        StructuredValue::Object(pairs)
    }
}

} // verus!
