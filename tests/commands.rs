use kookie::text::trim_text;
use kookie::commands::add::{parse_port, run as add, AddError, AddType, Field, NewSecret};
use kookie::commands::delete::run as delete;
use kookie::commands::get::run as get;
use kookie::commands::list::{includes, run as list, ListFilter};
use kookie::ids::{format_id, generate_id};
use kookie::secrets::{Found, Token, VaultData};
use kookie::storage::{get_config_path, get_session_path, get_vault_dir, get_vault_path};
use kookie::vault::VaultError;

fn password(name: &str, secret: &str) -> NewSecret {
    NewSecret::Password {
        name: name.to_string(),
        password: secret.to_string(),
        description: None,
        username: Some("me".to_string()),
        url: None,
    }
}

fn note(name: &str, content: &str) -> NewSecret {
    NewSecret::Note { name: name.to_string(), content: content.to_string() }
}

fn api_key(name: &str) -> NewSecret {
    NewSecret::ApiKey {
        name: name.to_string(),
        key: "sk_live".to_string(),
        description: None,
        service: Some("Stripe".to_string()),
    }
}

fn db(port: Option<&str>) -> NewSecret {
    NewSecret::DbCredential {
        name: "prod".to_string(),
        description: None,
        db_type: Some("postgres".to_string()),
        host: "db.local".to_string(),
        port: port.map(|p| p.to_string()),
        database: "app".to_string(),
        username: "admin".to_string(),
        password: "pw".to_string(),
    }
}

fn token(name: &str) -> NewSecret {
    NewSecret::Token {
        name: name.to_string(),
        token: "tok".to_string(),
        description: None,
        token_type: Some("jwt".to_string()),
        expires_at: Some(500),
    }
}

#[test]
fn added_password_is_appended_with_id_and_time() {
    let mut data = VaultData::new();
    assert_eq!(add(&mut data, password("github", "hunter2"), "id-1".to_string(), 77), Ok(AddType::Password));
    assert_eq!(data.passwords.len(), 1);
    let p = &data.passwords[0];
    assert_eq!(p.id, "id-1");
    assert_eq!(p.name, "github");
    assert_eq!(p.password, "hunter2");
    assert_eq!(p.username.as_deref(), Some("me"));
    assert_eq!(p.created_at, 77);
    assert_eq!(data.api_keys.len() + data.notes.len() + data.db_credentials.len() + data.tokens.len(), 0);
}

#[test]
fn each_kind_goes_to_its_group() {
    let mut data = VaultData::new();
    assert_eq!(add(&mut data, api_key("stripe"), "a".to_string(), 1), Ok(AddType::ApiKey));
    assert_eq!(add(&mut data, note("codes", "x"), "b".to_string(), 1), Ok(AddType::Note));
    assert_eq!(add(&mut data, db(Some("5432")), "c".to_string(), 1), Ok(AddType::DbCredential));
    assert_eq!(add(&mut data, token("jwt"), "d".to_string(), 1), Ok(AddType::Token));
    assert_eq!(data.api_keys[0].service.as_deref(), Some("Stripe"));
    assert_eq!(data.notes[0].content, "x");
    assert_eq!(data.db_credentials[0].port, Some(5432));
    assert_eq!(data.tokens[0].expires_at, Some(500));
    assert_eq!(data.passwords.len(), 0);
}

#[test]
fn missing_fields_are_reported_in_order() {
    let mut data = VaultData::new();
    assert_eq!(add(&mut data, password("", ""), "a".to_string(), 0), Err(AddError::Missing(Field::Name)));
    assert_eq!(add(&mut data, password("n", ""), "a".to_string(), 0), Err(AddError::Missing(Field::Password)));
    let no_key = NewSecret::ApiKey { name: "n".to_string(), key: String::new(), description: None, service: None };
    assert_eq!(add(&mut data, no_key, "a".to_string(), 0), Err(AddError::Missing(Field::Key)));
    let no_token = NewSecret::Token {
        name: "n".to_string(),
        token: String::new(),
        description: None,
        token_type: None,
        expires_at: None,
    };
    assert_eq!(add(&mut data, no_token, "a".to_string(), 0), Err(AddError::Missing(Field::Token)));
    let no_host = NewSecret::DbCredential {
        name: "n".to_string(),
        description: None,
        db_type: None,
        host: String::new(),
        port: None,
        database: String::new(),
        username: String::new(),
        password: String::new(),
    };
    assert_eq!(add(&mut data, no_host, "a".to_string(), 0), Err(AddError::Missing(Field::Host)));
    let no_database = NewSecret::DbCredential {
        name: "n".to_string(),
        description: None,
        db_type: None,
        host: "h".to_string(),
        port: None,
        database: String::new(),
        username: "u".to_string(),
        password: "p".to_string(),
    };
    assert_eq!(add(&mut data, no_database, "a".to_string(), 0), Err(AddError::Missing(Field::Database)));
    let no_user = NewSecret::DbCredential {
        name: "n".to_string(),
        description: None,
        db_type: None,
        host: "h".to_string(),
        port: None,
        database: "d".to_string(),
        username: String::new(),
        password: "p".to_string(),
    };
    assert_eq!(add(&mut data, no_user, "a".to_string(), 0), Err(AddError::Missing(Field::Username)));
    let no_password = NewSecret::DbCredential {
        name: "n".to_string(),
        description: None,
        db_type: None,
        host: "h".to_string(),
        port: None,
        database: "d".to_string(),
        username: "u".to_string(),
        password: String::new(),
    };
    assert_eq!(add(&mut data, no_password, "a".to_string(), 0), Err(AddError::Missing(Field::Password)));
    assert_eq!(list(&data, ListFilter::All), 0);
}

#[test]
fn note_content_is_trimmed_and_blank_content_refused() {
    let mut data = VaultData::new();
    assert_eq!(add(&mut data, note("codes", "   \n \t"), "a".to_string(), 0), Err(AddError::Missing(Field::Content)));
    assert_eq!(add(&mut data, note("codes", "  line one\nline two\n"), "a".to_string(), 0), Ok(AddType::Note));
    assert_eq!(data.notes[0].content, "line one\nline two");
}

#[test]
fn taken_identifier_is_refused() {
    let mut data = VaultData::new();
    add(&mut data, password("a", "1"), "same".to_string(), 0).unwrap();
    assert_eq!(add(&mut data, token("t"), "same".to_string(), 0), Err(AddError::DuplicateId));
    assert_eq!(data.tokens.len(), 0);
    assert!(data.contains_id(&"same".to_string()));
    assert!(!data.contains_id(&"other".to_string()));
}

#[test]
fn ports_read_like_u16() {
    assert_eq!(parse_port("5432"), Some(5432));
    assert_eq!(parse_port("+80"), Some(80));
    assert_eq!(parse_port("0065535"), Some(65535));
    assert_eq!(parse_port("65536"), None);
    assert_eq!(parse_port("99999999999"), None);
    assert_eq!(parse_port(""), None);
    assert_eq!(parse_port("+"), None);
    assert_eq!(parse_port("-1"), None);
    assert_eq!(parse_port("54a"), None);
    assert_eq!(parse_port(" 80"), None);
    for text in ["0", "1", "443", "+22", "65535", "65536", "x", "++1", "8080"] {
        assert_eq!(parse_port(text), text.parse::<u16>().ok(), "{}", text);
    }
}

#[test]
fn unreadable_port_is_dropped() {
    let mut data = VaultData::new();
    add(&mut data, db(Some("port")), "a".to_string(), 0).unwrap();
    assert_eq!(data.db_credentials[0].port, None);
}

fn sample() -> VaultData {
    let mut data = VaultData::new();
    add(&mut data, password("shared", "1"), "pw-a".to_string(), 0).unwrap();
    add(&mut data, password("solo", "2"), "pw-b".to_string(), 0).unwrap();
    add(&mut data, api_key("shared"), "k1".to_string(), 0).unwrap();
    add(&mut data, note("pw-a", "named like an id"), "n1".to_string(), 0).unwrap();
    add(&mut data, token("tok"), "t1".to_string(), 0).unwrap();
    data
}

#[test]
fn lookup_by_id_and_unique_name_agree() {
    let data = sample();
    let by_id = get(&data, "pw-b");
    assert_eq!(by_id, Some(Found { kind: AddType::Password, index: 1 }));
    assert_eq!(get(&data, "solo"), by_id);
    assert_eq!(get(&data, "tok"), get(&data, "t1"));
}

#[test]
fn shared_name_resolves_to_the_first_record() {
    let data = sample();
    assert_eq!(get(&data, "shared"), Some(Found { kind: AddType::Password, index: 0 }));
}

#[test]
fn identifier_wins_over_name() {
    let data = sample();
    assert_eq!(get(&data, "pw-a"), Some(Found { kind: AddType::Password, index: 0 }));
    assert_eq!(get(&data, "n1"), Some(Found { kind: AddType::Note, index: 0 }));
}

#[test]
fn lookup_is_case_sensitive() {
    let data = sample();
    assert_eq!(get(&data, "SOLO"), None);
    assert_eq!(get(&data, "missing"), None);
}

#[test]
fn delete_removes_exactly_one_record() {
    let mut data = sample();
    let deleted = delete(&mut data, "shared").unwrap();
    assert_eq!(deleted.kind, AddType::Password);
    assert_eq!(deleted.name, "shared");
    assert_eq!(data.passwords.len(), 1);
    assert_eq!(data.passwords[0].id, "pw-b");
    assert_eq!(data.api_keys.len(), 1);
    assert_eq!(data.api_keys[0].name, "shared");
    assert_eq!(get(&data, "shared"), Some(Found { kind: AddType::ApiKey, index: 0 }));
    assert_eq!(list(&data, ListFilter::All), 4);
}

#[test]
fn delete_of_unknown_secret_is_not_found() {
    let mut data = sample();
    assert!(matches!(delete(&mut data, "nope"), Err(VaultError::NotFound)));
    assert_eq!(list(&data, ListFilter::All), 5);
}

#[test]
fn list_counts_the_shown_groups() {
    let data = sample();
    assert_eq!(list(&data, ListFilter::All), 5);
    assert_eq!(list(&data, ListFilter::Passwords), 2);
    assert_eq!(list(&data, ListFilter::ApiKeys), 1);
    assert_eq!(list(&data, ListFilter::Notes), 1);
    assert_eq!(list(&data, ListFilter::DbCredentials), 0);
    assert_eq!(list(&data, ListFilter::Tokens), 1);
    assert!(includes(ListFilter::All, AddType::Token));
    assert!(!includes(ListFilter::Notes, AddType::Token));
}

#[test]
fn token_expiry() {
    let t = Token {
        id: "t".to_string(),
        name: "t".to_string(),
        token: "x".to_string(),
        description: None,
        token_type: None,
        expires_at: Some(100),
        created_at: 0,
    };
    assert!(!t.is_expired(100));
    assert!(t.is_expired(101));
    let forever = Token { expires_at: None, ..t };
    assert!(!forever.is_expired(i64::MAX));
}

#[test]
fn identifiers_look_like_uuids() {
    let bytes: Vec<u8> = (0u8..16).map(|i| i * 17).collect();
    assert_eq!(format_id(&bytes), "00112233-4455-6677-8899-aabbccddeeff");
    let id = generate_id();
    assert_eq!(id.len(), 36);
    assert_eq!(id.chars().filter(|c| *c == '-').count(), 4);
    assert_ne!(id, generate_id());
}

#[test]
fn paths_of_the_vault_files() {
    let dir = get_vault_dir("/home/alice");
    assert_eq!(dir, "/home/alice/.kookie");
    assert_eq!(get_vault_path(&dir), "/home/alice/.kookie/vault.json");
    assert_eq!(get_session_path(&dir), "/home/alice/.kookie/.session");
    assert_eq!(get_config_path(&dir), "/home/alice/.kookie/config.json");
}

#[test]
fn connection_string_of_a_credential() {
    let mut data = VaultData::new();
    add(&mut data, db(Some("5432")), "a".to_string(), 0).unwrap();
    assert_eq!(data.db_credentials[0].connection_string(), "postgres://admin:pw@db.local:5432/app");
    let no_type = NewSecret::DbCredential {
        name: "n".to_string(),
        description: None,
        db_type: None,
        host: "h".to_string(),
        port: None,
        database: "d".to_string(),
        username: "u".to_string(),
        password: "p".to_string(),
    };
    add(&mut data, no_type, "b".to_string(), 0).unwrap();
    assert_eq!(data.db_credentials[1].connection_string(), "postgresql://u:p@h/d");
}

#[test]
fn ports_of_every_width_are_written_in_decimal() {
    let mut data = VaultData::new();
    for (i, port) in ["0", "7", "80", "443", "8080", "65535"].iter().enumerate() {
        add(&mut data, db(Some(port)), format!("id{}", i), 0).unwrap();
        let expected = format!("postgres://admin:pw@db.local:{}/app", port);
        assert_eq!(data.db_credentials[i].connection_string(), expected);
    }
}

#[test]
fn duplicate_identifiers_are_detected() {
    let mut data = sample();
    assert!(data.has_unique_ids());
    assert!(VaultData::new().has_unique_ids());
    let mut other = VaultData::new();
    add(&mut other, note("copy", "text"), "pw-b".to_string(), 0).unwrap();
    data.notes.push(other.notes.remove(0));
    assert!(!data.has_unique_ids());
}

#[test]
fn deleting_a_new_record_by_id_restores_the_collection() {
    let mut data = sample();
    let ids_before: Vec<String> = data.tokens.iter().map(|t| t.id.clone()).collect();
    add(&mut data, token("fresh"), "new-id".to_string(), 9).unwrap();
    assert_eq!(get(&data, "new-id"), Some(Found { kind: AddType::Token, index: 1 }));
    let deleted = delete(&mut data, "new-id").unwrap();
    assert_eq!(deleted.name, "fresh");
    let ids_after: Vec<String> = data.tokens.iter().map(|t| t.id.clone()).collect();
    assert_eq!(ids_after, ids_before);
    assert_eq!(list(&data, ListFilter::All), 5);
}

#[test]
fn trimming_follows_str_trim() {
    for text in ["", "   ", "a", "  a b  ", "\t\nx\r\n", "\u{3000}x\u{a0}", "\u{2028}\u{85}y\u{200a}", "\u{200b}z\u{200b}"] {
        assert_eq!(trim_text(text), text.trim(), "{:?}", text);
    }
}
