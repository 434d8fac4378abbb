//! The credential store: canonical document text, escaping, and the
//! save/load round trip.

use dakko_core::creds::{load_state, parse_auth_state, parse_client_state, save_state, AuthState,
    ClientState, TokenData};
use dakko_core::InstanceKind;

fn registration() -> ClientState {
    ClientState {
        client_id: "id-1".to_string(),
        client_secret: "s3cr3t".to_string(),
        base_url: "https://example.social".to_string(),
        instance_type: InstanceKind::Pleroma,
    }
}

fn token() -> AuthState {
    AuthState {
        token: TokenData {
            access_token: "tok-1".to_string(),
            token_type: "Bearer".to_string(),
            scope: "read write follow".to_string(),
        },
    }
}

#[test]
fn client_document_is_canonical_json() {
    let (client_doc, auth_doc) = save_state(&registration(), &token());
    assert_eq!(
        client_doc,
        "{\"client_id\":\"id-1\",\"client_secret\":\"s3cr3t\",\
         \"base_url\":\"https://example.social\",\"instance_type\":\"Pleroma\"}"
    );
    assert_eq!(
        auth_doc,
        "{\"token\":{\"access_token\":\"tok-1\",\"token_type\":\"Bearer\",\
         \"scope\":\"read write follow\"}}"
    );
}

#[test]
fn save_load_round_trip_is_byte_identical() {
    let (client_doc, auth_doc) = save_state(&registration(), &token());
    let (c, a) = load_state(Some(&client_doc), Some(&auth_doc));
    let c = c.expect("registration should load");
    let a = a.expect("token should load");
    assert_eq!(c.client_id, "id-1");
    assert_eq!(c.client_secret, "s3cr3t");
    assert_eq!(c.base_url, "https://example.social");
    assert_eq!(c.instance_type, InstanceKind::Pleroma);
    assert_eq!(a.token.access_token, "tok-1");
    let (client_doc2, auth_doc2) = save_state(&c, &a);
    assert_eq!(client_doc, client_doc2);
    assert_eq!(auth_doc, auth_doc2);
}

#[test]
fn round_trip_escapes_quotes_and_backslashes() {
    let tricky = ClientState {
        client_id: "a\"b".to_string(),
        client_secret: "c\\d\"".to_string(),
        base_url: "https://example.social".to_string(),
        instance_type: InstanceKind::Mastodon,
    };
    let (client_doc, auth_doc) = save_state(&tricky, &token());
    assert!(client_doc.contains("a\\\"b"));
    assert!(client_doc.contains("c\\\\d\\\""));
    let (c, _) = load_state(Some(&client_doc), Some(&auth_doc));
    let c = c.expect("escaped registration should load");
    assert_eq!(c.client_id, "a\"b");
    assert_eq!(c.client_secret, "c\\d\"");
    let (client_doc2, _) = save_state(&c, &token());
    assert_eq!(client_doc, client_doc2);
}

#[test]
fn every_instance_kind_round_trips() {
    for kind in [
        InstanceKind::Mastodon,
        InstanceKind::Pleroma,
        InstanceKind::Firefish,
        InstanceKind::Gotosocial,
        InstanceKind::Friendica,
    ] {
        let mut reg = registration();
        reg.instance_type = kind;
        let (client_doc, auth_doc) = save_state(&reg, &token());
        let (c, _) = load_state(Some(&client_doc), Some(&auth_doc));
        assert_eq!(c.expect("should load").instance_type, kind);
    }
}

#[test]
fn token_without_registration_is_invalid() {
    let (_, auth_doc) = save_state(&registration(), &token());
    let (c, a) = load_state(None, Some(&auth_doc));
    assert!(c.is_none());
    assert!(a.is_none());
}

#[test]
fn missing_documents_degrade_to_logged_out() {
    let (c, a) = load_state(None, None);
    assert!(c.is_none());
    assert!(a.is_none());
    let (client_doc, _) = save_state(&registration(), &token());
    let (c, a) = load_state(Some(&client_doc), None);
    assert!(c.is_some());
    assert!(a.is_none());
}

#[test]
fn corrupt_documents_are_rejected() {
    let (client_doc, auth_doc) = save_state(&registration(), &token());
    let with_space = format!("{} ", client_doc);
    let (c, a) = load_state(Some(&with_space), Some(&auth_doc));
    assert!(c.is_none());
    assert!(a.is_none());
    let truncated = &client_doc[..client_doc.len() - 1];
    let (c, _) = load_state(Some(truncated), Some(&auth_doc));
    assert!(c.is_none());
    let (c, a) = load_state(Some("{}"), Some(&auth_doc));
    assert!(c.is_none());
    assert!(a.is_none());
    let (c, a) = load_state(Some(&client_doc), Some("{\"token\":null}"));
    assert!(c.is_some());
    assert!(a.is_none());
}

#[test]
fn unknown_instance_kind_is_rejected() {
    let doc = "{\"client_id\":\"x\",\"client_secret\":\"y\",\
               \"base_url\":\"https://example.social\",\"instance_type\":\"Diaspora\"}";
    let chars: Vec<char> = doc.chars().collect();
    assert!(parse_client_state(&chars).is_none());
}

#[test]
fn auth_document_parses_alone() {
    let (_, auth_doc) = save_state(&registration(), &token());
    let chars: Vec<char> = auth_doc.chars().collect();
    let a = parse_auth_state(&chars).expect("auth document should parse");
    assert_eq!(a.token.token_type, "Bearer");
    assert_eq!(a.token.scope, "read write follow");
}
