use authcore::db::DB;
use authcore::hexid::id_hex_string;
use authcore::subject::{encode_subject, parse_subject};

const NOW: u64 = 1_700_000_000;

#[test]
fn id_hex_form_is_24_zero_padded_digits() {
    assert_eq!(id_hex_string(0), "000000000000000000000000");
    assert_eq!(id_hex_string(1), "000000000000000000000001");
    assert_eq!(id_hex_string(0xdeadbeef), "0000000000000000deadbeef");
    assert_eq!(id_hex_string(u64::MAX), "00000000ffffffffffffffff");
}

#[test]
fn subject_codec_round_trip() {
    let id = "0123456789abcdef01234567";
    let wrapped = encode_subject(id);
    assert_eq!(wrapped, "{\"$oid\":\"0123456789abcdef01234567\"}");
    assert_eq!(parse_subject(&wrapped).as_deref(), Some(id));
}

#[test]
fn subject_parser_folds_case_and_rejects_junk() {
    let upper = "{\"$oid\":\"0123456789ABCDEF01234567\"}";
    assert_eq!(parse_subject(upper).as_deref(), Some("0123456789abcdef01234567"));
    assert_eq!(parse_subject(""), None);
    assert_eq!(parse_subject("{\"$oid\":\"0123\"}"), None);
    assert_eq!(parse_subject("{\"$oid\":\"0123456789abcdef0123456g\"}"), None);
    assert_eq!(parse_subject("[\"$oid\":\"0123456789abcdef01234567\"]"), None);
    assert_eq!(parse_subject("{\"$oid\":\"0123456789abcdef01234567\" }"), None);
}

#[test]
fn issued_token_is_compact_and_carries_the_identifier() {
    let mut db = DB::new(b"LgKp".to_vec());
    let reg = db
        .create_user(
            &authcore::schema::CreateUserSchema {
                email: "a@b.c".to_string(),
                password: "pw".to_string(),
                firstName: "Ada".to_string(),
                lastName: "Lovelace".to_string(),
            },
            NOW,
        )
        .unwrap();
    let token = reg.data.token;
    assert_eq!(token.matches('.').count(), 2);
    assert!(!token.contains(' '));
    let sub = db.id_from_jwt(&token, NOW).expect("fresh token resolves");
    assert_eq!(sub, id_hex_string(db.users[0].id));
    assert!(db.is_valid_jwt(&token, NOW));
    assert!(!db.is_valid_jwt(&token, NOW + 22 * 3600));
}

#[test]
fn token_from_another_key_is_rejected() {
    let mut db = DB::new(b"LgKp".to_vec());
    let mut other = DB::new(b"other-key".to_vec());
    let reg = db
        .create_user(
            &authcore::schema::CreateUserSchema {
                email: "a@b.c".to_string(),
                password: "pw".to_string(),
                firstName: "Ada".to_string(),
                lastName: "Lovelace".to_string(),
            },
            NOW,
        )
        .unwrap();
    let foreign = other
        .create_user(
            &authcore::schema::CreateUserSchema {
                email: "a@b.c".to_string(),
                password: "pw".to_string(),
                firstName: "Ada".to_string(),
                lastName: "Lovelace".to_string(),
            },
            NOW,
        )
        .unwrap();
    assert!(db.id_from_jwt(&reg.data.token, NOW).is_some());
    assert!(db.id_from_jwt(&foreign.data.token, NOW).is_none());
    assert!(!db.verify_token(&foreign.data.token));
}
