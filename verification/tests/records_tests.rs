use credstore::crypt::{decrypt_sql_value, encrypt};
use credstore::records::{CreditCardData, KeywordsData, PasswordsData};
use credstore::values::{ColumnValue, StructuredValue};

fn test_key() -> Vec<u8> {
    (0u8..32u8).collect()
}

fn null_row(len: usize) -> Vec<ColumnValue> {
    (0..len).map(|_| ColumnValue::Null).collect()
}

#[test]
fn decrypt_sql_value_decrypts_blob_cells_only() {
    let key = test_key();
    let nonce = vec![1u8; 12];
    let blob = encrypt("hunter2", &key, &nonce).unwrap();
    let cell = ColumnValue::Blob(blob);
    assert_eq!(
        decrypt_sql_value(Some(&cell), &key).value,
        ColumnValue::Text("hunter2".to_owned())
    );
    let text_cell = ColumnValue::Text("already plain".to_owned());
    assert_eq!(decrypt_sql_value(Some(&text_cell), &key).value, ColumnValue::Null);
    assert_eq!(decrypt_sql_value(None, &key).value, ColumnValue::Null);
}

#[test]
fn decrypt_sql_value_of_malformed_blob_is_empty_text() {
    let key = test_key();
    let cell = ColumnValue::Blob(vec![1, 2, 3]);
    assert_eq!(
        decrypt_sql_value(Some(&cell), &key).value,
        ColumnValue::Text(String::new())
    );
}

#[test]
fn password_row_maps_by_ordinal() {
    let key = test_key();
    let nonce = vec![2u8; 12];
    let blob = encrypt("pa55word", &key, &nonce).unwrap();
    let mut row = null_row(26);
    row[0] = ColumnValue::Text("https://site.example/login".to_owned());
    row[1] = ColumnValue::Text("https://site.example/post".to_owned());
    row[3] = ColumnValue::Text("alex".to_owned());
    row[5] = ColumnValue::Blob(blob);
    row[8] = ColumnValue::Integer(777);
    row[25] = ColumnValue::Integer(888);
    let r = PasswordsData::from_row(&row, &key);
    assert_eq!(r.origin_url.value, ColumnValue::Text("https://site.example/login".to_owned()));
    assert_eq!(r.action_url.value, ColumnValue::Text("https://site.example/post".to_owned()));
    assert_eq!(r.username_value.value, ColumnValue::Text("alex".to_owned()));
    assert_eq!(r.password_value.value, ColumnValue::Text("pa55word".to_owned()));
    assert_eq!(r.date_created.value, ColumnValue::Integer(777));
    assert_eq!(r.date_received.value, ColumnValue::Integer(888));
}

#[test]
fn credit_card_number_is_decrypted_at_ordinal_four() {
    let key = test_key();
    let nonce = vec![4u8; 12];
    let blob = encrypt("4111111111111111", &key, &nonce).unwrap();
    let mut row = null_row(11);
    row[0] = ColumnValue::Text("guid-1".to_owned());
    row[1] = ColumnValue::Text("A N Other".to_owned());
    row[2] = ColumnValue::Integer(12);
    row[3] = ColumnValue::Integer(2030);
    row[4] = ColumnValue::Blob(blob);
    let r = CreditCardData::from_row(&row, &key);
    assert_eq!(r.guid.value, ColumnValue::Text("guid-1".to_owned()));
    assert_eq!(r.name_on_card.value, ColumnValue::Text("A N Other".to_owned()));
    assert_eq!(r.expiration_month.value, ColumnValue::Integer(12));
    assert_eq!(r.expiration_year.value, ColumnValue::Integer(2030));
    assert_eq!(r.card_number.value, ColumnValue::Text("4111111111111111".to_owned()));
}

#[test]
fn record_serializes_fields_by_name_in_order() {
    let key = test_key();
    let row = vec![
        ColumnValue::Integer(9),
        ColumnValue::Integer(12),
        ColumnValue::Text("weather".to_owned()),
        ColumnValue::Text("weather".to_owned()),
    ];
    let r = KeywordsData::from_row(&row, &key);
    assert_eq!(
        r.to_structured(),
        StructuredValue::Object(vec![
            ("keyword_id".to_owned(), StructuredValue::Int(9)),
            ("url_id".to_owned(), StructuredValue::Int(12)),
            ("term".to_owned(), StructuredValue::Text("weather".to_owned())),
            ("normalized_term".to_owned(), StructuredValue::Text("weather".to_owned())),
        ])
    );
}
