use credstore::crypt::encrypt;
use credstore::extract::{
    cookie_from_rows, get_addresses_data, get_autofill_data, get_cookies_data,
    get_credit_cards_data, get_download_history_data, get_history_data, get_keywords_data,
    get_passwords_data,
};
use credstore::values::ColumnValue;

fn test_key() -> Vec<u8> {
    (0u8..32u8).collect()
}

fn hex_blob(bytes: &[u8]) -> String {
    let mut s = String::from("X'");
    for b in bytes {
        s.push_str(&format!("{:02X}", b));
    }
    s.push('\'');
    s
}

#[test]
fn cookies_row_maps_by_ordinal_with_decrypted_value() {
    let key = test_key();
    let nonce = vec![7u8; 12];
    let blob = encrypt("cookie-secret", &key, &nonce).unwrap();
    let uri = "file:credstore_cookies_case?mode=memory&cache=shared";
    let setup = rusqlite::Connection::open(uri).unwrap();
    setup
        .execute(
            "CREATE TABLE cookies (c0 INTEGER, c1 TEXT, c2 TEXT, c3 TEXT, c4 BLOB, c5 BLOB, \
             c6 TEXT, c7 INTEGER, c8 INTEGER, c9 INTEGER, c10 INTEGER, c11 INTEGER, \
             c12 INTEGER, c13 INTEGER, c14 INTEGER, c15 INTEGER, c16 INTEGER, c17 INTEGER)",
            [],
        )
        .unwrap();
    let insert = format!(
        "INSERT INTO cookies VALUES (11, 'example.com', '', 'session', X'00', {}, '/', 22, 1, \
         0, 33, 1, 1, 1, 0, 2, 443, 44)",
        hex_blob(&blob)
    );
    setup.execute(&insert, []).unwrap();

    let records = get_cookies_data(uri, &key);
    assert_eq!(records.len(), 1);
    let r = &records[0];
    assert_eq!(r.creation_utc.value, ColumnValue::Integer(11));
    assert_eq!(r.host_key.value, ColumnValue::Text("example.com".to_owned()));
    assert_eq!(r.name.value, ColumnValue::Text("session".to_owned()));
    assert_eq!(r.value.value, ColumnValue::Text("cookie-secret".to_owned()));
    assert_eq!(r.path.value, ColumnValue::Text("/".to_owned()));
    assert_eq!(r.expires_utc.value, ColumnValue::Integer(22));
    assert_eq!(r.is_secure.value, ColumnValue::Integer(1));
    assert_eq!(r.source_port.value, ColumnValue::Integer(443));
    assert_eq!(r.last_update_utc.value, ColumnValue::Integer(44));
    drop(setup);
}

#[test]
fn short_row_degrades_missing_columns_to_null() {
    let key = test_key();
    let uri = "file:credstore_cookies_short?mode=memory&cache=shared";
    let setup = rusqlite::Connection::open(uri).unwrap();
    setup
        .execute("CREATE TABLE cookies (c0 INTEGER, c1 TEXT)", [])
        .unwrap();
    setup
        .execute("INSERT INTO cookies VALUES (5, 'host.example')", [])
        .unwrap();
    let records = get_cookies_data(uri, &key);
    assert_eq!(records.len(), 1);
    let r = &records[0];
    assert_eq!(r.creation_utc.value, ColumnValue::Integer(5));
    assert_eq!(r.host_key.value, ColumnValue::Text("host.example".to_owned()));
    assert_eq!(r.name.value, ColumnValue::Null);
    assert_eq!(r.value.value, ColumnValue::Null);
    assert_eq!(r.last_update_utc.value, ColumnValue::Null);
    drop(setup);
}

#[test]
fn unencrypted_value_cell_becomes_null_not_text() {
    let key = test_key();
    let uri = "file:credstore_cookies_nullval?mode=memory&cache=shared";
    let setup = rusqlite::Connection::open(uri).unwrap();
    setup
        .execute(
            "CREATE TABLE cookies (c0 INTEGER, c1 TEXT, c2 TEXT, c3 TEXT, c4 BLOB, c5 TEXT)",
            [],
        )
        .unwrap();
    setup
        .execute("INSERT INTO cookies VALUES (1, 'h', '', 'n', X'00', 'plain-text-cell')", [])
        .unwrap();
    let records = get_cookies_data(uri, &key);
    assert_eq!(records.len(), 1);
    assert_eq!(records[0].value.value, ColumnValue::Null);
    drop(setup);
}

#[test]
fn missing_database_yields_empty_sequence() {
    let key = test_key();
    let records = get_cookies_data("/nonexistent/profile/Network/Cookies", &key);
    assert_eq!(records.len(), 0);
}

#[test]
fn missing_database_does_not_abort_sibling_categories() {
    let key = test_key();
    assert_eq!(get_cookies_data("/nonexistent/profile/Cookies", &key).len(), 0);

    let uri = "file:credstore_history_sibling?mode=memory&cache=shared";
    let setup = rusqlite::Connection::open(uri).unwrap();
    setup
        .execute(
            "CREATE TABLE urls (id INTEGER, url TEXT, title TEXT, visit_count INTEGER, \
             typed_count INTEGER, last_visit_time INTEGER, hidden INTEGER)",
            [],
        )
        .unwrap();
    setup
        .execute(
            "INSERT INTO urls VALUES (1, 'https://example.com/', 'Example', 3, 1, 99, 0)",
            [],
        )
        .unwrap();
    let history = get_history_data(uri, &key);
    assert_eq!(history.len(), 1);
    assert_eq!(history[0].url.value, ColumnValue::Text("https://example.com/".to_owned()));
    assert_eq!(history[0].title.value, ColumnValue::Text("Example".to_owned()));
    assert_eq!(history[0].visit_count.value, ColumnValue::Integer(3));
    assert_eq!(history[0].hidden.value, ColumnValue::Integer(0));

    assert_eq!(get_keywords_data("/nonexistent/profile/History", &key).len(), 0);
    drop(setup);
}

#[test]
fn real_column_arrives_as_bit_pattern() {
    let key = test_key();
    let uri = "file:credstore_real_col?mode=memory&cache=shared";
    let setup = rusqlite::Connection::open(uri).unwrap();
    setup.execute("CREATE TABLE urls (id INTEGER, url REAL)", []).unwrap();
    setup.execute("INSERT INTO urls VALUES (1, 2.5)", []).unwrap();
    let history = get_history_data(uri, &key);
    assert_eq!(history.len(), 1);
    assert_eq!(history[0].url.value, ColumnValue::Real((2.5f64).to_bits()));
    drop(setup);
}

#[test]
fn rows_map_in_order_and_length_is_kept() {
    let key = test_key();
    let nonce = vec![3u8; 12];
    let blob = encrypt("first", &key, &nonce).unwrap();
    let rows = vec![
        vec![
            ColumnValue::Integer(1),
            ColumnValue::Text("a.example".to_owned()),
            ColumnValue::Text(String::new()),
            ColumnValue::Text("one".to_owned()),
            ColumnValue::Null,
            ColumnValue::Blob(blob),
        ],
        vec![
            ColumnValue::Integer(2),
            ColumnValue::Text("b.example".to_owned()),
        ],
    ];
    let records = cookie_from_rows(&rows, &key);
    assert_eq!(records.len(), 2);
    assert_eq!(records[0].host_key.value, ColumnValue::Text("a.example".to_owned()));
    assert_eq!(records[0].value.value, ColumnValue::Text("first".to_owned()));
    assert_eq!(records[1].host_key.value, ColumnValue::Text("b.example".to_owned()));
    assert_eq!(records[1].value.value, ColumnValue::Null);
}

#[test]
fn autofill_and_addresses_map_by_ordinal() {
    let key = test_key();
    let uri = "file:credstore_webdata_plain?mode=memory&cache=shared";
    let setup = rusqlite::Connection::open(uri).unwrap();
    setup
        .execute(
            "CREATE TABLE autofill (name TEXT, value TEXT, value_lower TEXT,              date_created INTEGER, date_last_used INTEGER, count INTEGER)",
            [],
        )
        .unwrap();
    setup
        .execute("INSERT INTO autofill VALUES ('email', 'A@example.com', 'a@example.com', 1, 2, 3)", [])
        .unwrap();
    setup
        .execute(
            "CREATE TABLE local_addresses (guid TEXT, use_count INTEGER, use_date INTEGER,              date_modified INTEGER, language_code TEXT, label TEXT)",
            [],
        )
        .unwrap();
    setup
        .execute("INSERT INTO local_addresses VALUES ('g-2', 4, 5, 6, 'en', 'home')", [])
        .unwrap();

    let autofill = get_autofill_data(uri, &key);
    assert_eq!(autofill.len(), 1);
    assert_eq!(autofill[0].name.value, ColumnValue::Text("email".to_owned()));
    assert_eq!(autofill[0].value.value, ColumnValue::Text("A@example.com".to_owned()));
    assert_eq!(autofill[0].count.value, ColumnValue::Integer(3));

    let addresses = get_addresses_data(uri, &key);
    assert_eq!(addresses.len(), 1);
    assert_eq!(addresses[0].guid.value, ColumnValue::Text("g-2".to_owned()));
    assert_eq!(addresses[0].label.value, ColumnValue::Text("home".to_owned()));
    drop(setup);
}

#[test]
fn credit_cards_and_passwords_decrypt_their_columns() {
    let key = test_key();
    let nonce = vec![8u8; 12];
    let card_blob = encrypt("4111111111111111", &key, &nonce).unwrap();
    let pass_blob = encrypt("pa55word", &key, &nonce).unwrap();
    let uri = "file:credstore_webdata_enc?mode=memory&cache=shared";
    let setup = rusqlite::Connection::open(uri).unwrap();
    setup
        .execute(
            "CREATE TABLE credit_cards (guid TEXT, name_on_card TEXT, expiration_month INTEGER,              expiration_year INTEGER, card_number_encrypted BLOB, date_modified INTEGER,              origin TEXT, use_count INTEGER, use_date INTEGER, billing_address_id TEXT,              nickname TEXT)",
            [],
        )
        .unwrap();
    setup
        .execute(
            &format!(
                "INSERT INTO credit_cards VALUES ('g-3', 'A N Other', 12, 2031, {}, 7, 'o', 1, 2,                  'b', 'mine')",
                hex_blob(&card_blob)
            ),
            [],
        )
        .unwrap();
    setup
        .execute(
            "CREATE TABLE logins (origin_url TEXT, action_url TEXT, username_element TEXT,              username_value TEXT, password_element TEXT, password_value BLOB, c6 TEXT, c7 TEXT,              date_created INTEGER, blacklisted_by_user INTEGER, scheme INTEGER, password_type              INTEGER, times_used INTEGER, form_data BLOB, display_name TEXT)",
            [],
        )
        .unwrap();
    setup
        .execute(
            &format!(
                "INSERT INTO logins VALUES ('https://s.example/', 'https://s.example/post', 'u',                  'alex', 'p', {}, '', '', 9, 0, 0, 0, 2, X'00', 'd')",
                hex_blob(&pass_blob)
            ),
            [],
        )
        .unwrap();

    let cards = get_credit_cards_data(uri, &key);
    assert_eq!(cards.len(), 1);
    assert_eq!(cards[0].card_number.value, ColumnValue::Text("4111111111111111".to_owned()));
    assert_eq!(cards[0].nickname.value, ColumnValue::Text("mine".to_owned()));

    let passwords = get_passwords_data(uri, &key);
    assert_eq!(passwords.len(), 1);
    assert_eq!(passwords[0].username_value.value, ColumnValue::Text("alex".to_owned()));
    assert_eq!(passwords[0].password_value.value, ColumnValue::Text("pa55word".to_owned()));
    assert_eq!(passwords[0].possible_username_pairs.value, ColumnValue::Null);
    drop(setup);
}

#[test]
fn downloads_and_keywords_map_by_ordinal() {
    let key = test_key();
    let uri = "file:credstore_history_more?mode=memory&cache=shared";
    let setup = rusqlite::Connection::open(uri).unwrap();
    setup
        .execute(
            "CREATE TABLE downloads (id INTEGER, guid TEXT, current_path TEXT, target_path TEXT,              c4 INTEGER, c5 INTEGER, c6 INTEGER, c7 INTEGER, c8 INTEGER, c9 INTEGER,              c10 INTEGER, c11 INTEGER, c12 INTEGER, c13 INTEGER, c14 INTEGER, referrer TEXT,              site_url TEXT)",
            [],
        )
        .unwrap();
    setup
        .execute(
            "INSERT INTO downloads VALUES (1, 'g-4', '/tmp/part', '/home/user/file.bin', 0, 0,              0, 0, 0, 0, 0, 0, 0, 0, 0, 'https://ref.example/', 'https://site.example/')",
            [],
        )
        .unwrap();
    setup
        .execute(
            "CREATE TABLE keyword_search_terms (keyword_id INTEGER, url_id INTEGER, term TEXT,              normalized_term TEXT)",
            [],
        )
        .unwrap();
    setup
        .execute("INSERT INTO keyword_search_terms VALUES (2, 3, 'Weather', 'weather')", [])
        .unwrap();

    let downloads = get_download_history_data(uri, &key);
    assert_eq!(downloads.len(), 1);
    assert_eq!(downloads[0].guid.value, ColumnValue::Text("g-4".to_owned()));
    assert_eq!(downloads[0].target_path.value, ColumnValue::Text("/home/user/file.bin".to_owned()));
    assert_eq!(downloads[0].referrer.value, ColumnValue::Text("https://ref.example/".to_owned()));
    assert_eq!(downloads[0].mime_type.value, ColumnValue::Null);

    let keywords = get_keywords_data(uri, &key);
    assert_eq!(keywords.len(), 1);
    assert_eq!(keywords[0].term.value, ColumnValue::Text("Weather".to_owned()));
    assert_eq!(keywords[0].normalized_term.value, ColumnValue::Text("weather".to_owned()));
    drop(setup);
}
