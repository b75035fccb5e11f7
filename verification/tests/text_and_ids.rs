use m321::auth::{user_id_from_claims, Claims};
use m321::text::decimal_string;
use m321::endpoints::{admin_logout_url, KeycloakSettings};

fn settings() -> KeycloakSettings {
    KeycloakSettings {
        external_host: "kc".to_string(),
        external_port: 1,
        internal_host: "kc".to_string(),
        internal_port: 1,
        realm: "r".to_string(),
        client_id: "c".to_string(),
    }
}

/// The user id segment of the admin logout URL.
fn format_user_id(id: u128) -> String {
    let url = admin_logout_url(&settings(), id);
    let prefix = "http://kc:1/admin/realms/r/users/";
    assert!(url.starts_with(prefix) && url.ends_with("/logout"));
    url[prefix.len()..url.len() - "/logout".len()].to_string()
}

fn claims(sub: &str) -> Option<Claims> {
    Some(Claims { sub: sub.to_string(), exp: 0 })
}

#[test]
fn decimal_string_matches_display() {
    for n in [0u64, 7, 10, 99, 100, 8080, 65535, 1_000_000, u64::MAX] {
        assert_eq!(decimal_string(n), n.to_string());
    }
}

#[test]
fn decimal_string_exact_values() {
    assert_eq!(decimal_string(0), "0");
    assert_eq!(decimal_string(443), "443");
    assert_eq!(decimal_string(18446744073709551615), "18446744073709551615");
}

#[test]
fn format_user_id_matches_uuid_display() {
    let samples: [u128; 5] = [
        0,
        u128::MAX,
        0x550e8400_e29b_41d4_a716_446655440000,
        0x0000000f_0000_0000_0000_000000000001,
        0x67e55044_10b1_426f_9247_bb680e5fe0c8,
    ];
    for id in samples {
        assert_eq!(format_user_id(id), uuid::Uuid::from_u128(id).to_string());
    }
}

#[test]
fn format_user_id_exact_value() {
    assert_eq!(
        format_user_id(0x550e8400_e29b_41d4_a716_446655440000),
        "550e8400-e29b-41d4-a716-446655440000"
    );
    assert_eq!(format_user_id(0), "00000000-0000-0000-0000-000000000000");
}

#[test]
fn user_id_text_round_trip() {
    for id in [0u128, 1, u128::MAX, 0xdeadbeef_0000_1111_2222_333344445555] {
        let text = format_user_id(id);
        assert_eq!(user_id_from_claims(&claims(&text)), Some(id));
    }
}

#[test]
fn user_id_from_hyphenated_sub() {
    assert_eq!(
        user_id_from_claims(&claims("67e55044-10b1-426f-9247-bb680e5fe0c8")),
        Some(0x67e55044_10b1_426f_9247_bb680e5fe0c8)
    );
    assert_eq!(
        user_id_from_claims(&claims("F9168C5E-CEB2-4faa-B6BF-329BF39FA1E4")),
        Some(0xf9168c5e_ceb2_4faa_b6bf_329bf39fa1e4)
    );
}

#[test]
fn user_id_from_other_uuid_forms() {
    let id = 0x67e55044_10b1_426f_9247_bb680e5fe0c8u128;
    assert_eq!(user_id_from_claims(&claims("67e5504410b1426f9247bb680e5fe0c8")), Some(id));
    assert_eq!(user_id_from_claims(&claims("{67e55044-10b1-426f-9247-bb680e5fe0c8}")), Some(id));
    assert_eq!(user_id_from_claims(&claims("urn:uuid:67e55044-10b1-426f-9247-bb680e5fe0c8")), Some(id));
    assert_eq!(user_id_from_claims(&claims("URN:UUID:67e55044-10b1-426f-9247-bb680e5fe0c8")), Some(id));
}

#[test]
fn user_id_from_invalid_sub() {
    assert_eq!(user_id_from_claims(&claims("")), None);
    assert_eq!(user_id_from_claims(&claims("not-a-uuid")), None);
    assert_eq!(user_id_from_claims(&claims("67e55044-10b1-426f-9247-bb680e5fe0cg")), None);
    assert_eq!(user_id_from_claims(&claims("67e55044+10b1-426f-9247-bb680e5fe0c8")), None);
    assert_eq!(user_id_from_claims(&claims("[67e55044-10b1-426f-9247-bb680e5fe0c8]")), None);
    assert_eq!(user_id_from_claims(&None), None);
}
