use shade_attestation::attestation::{bind, check_identity, reported_identity, AttestationReport};
use shade_attestation::error::IdentityMismatch;

fn s(text: &str) -> String {
    text.to_string()
}

fn report(data: &[u8]) -> AttestationReport {
    AttestationReport { report_data: data.to_vec(), rt_mr3: vec![0; 48] }
}

#[test]
fn well_formed_report_data_is_read_as_it_is() {
    assert_eq!(reported_identity(&report(b"alice")), "alice");
    assert_eq!(reported_identity(&report(b"")), "");
    assert_eq!(reported_identity(&report("gr\u{fc}n.near".as_bytes())), "gr\u{fc}n.near");
    assert_eq!(reported_identity(&report(b"a\0")), "a\0");
}

#[test]
fn ill_formed_bytes_become_replacement_characters() {
    assert_eq!(reported_identity(&report(&[0x61, 0xff, 0x62])), "a\u{fffd}b");
    assert_eq!(reported_identity(&report(&[0xc3])), "\u{fffd}");
    assert_eq!(reported_identity(&report(&[0xf0, 0x9f, 0x92, 0x96])), "\u{1f496}");
    assert_eq!(reported_identity(&report(&[0xf0, 0x9f, 0x92])), "\u{fffd}");
}

#[test]
fn identities_are_compared_as_they_are() {
    assert_eq!(check_identity(&s("alice"), &s("alice")), Ok(()));
    assert_eq!(check_identity(&s(""), &s("")), Ok(()));
    assert_eq!(check_identity(&s("alice"), &s("bob")), Err(IdentityMismatch));
    assert_eq!(check_identity(&s("alice"), &s("Alice")), Err(IdentityMismatch));
    assert_eq!(check_identity(&s("alice"), &s("alice ")), Err(IdentityMismatch));
    assert_eq!(check_identity(&s("alice"), &s("")), Err(IdentityMismatch));
}

#[test]
fn binds_a_report_to_its_own_identity_only() {
    assert_eq!(bind(&report(b"alice"), &s("alice")), Ok(()));
    assert_eq!(bind(&report(b"bob"), &s("alice")), Err(IdentityMismatch));
    assert_eq!(bind(&report(b"alice"), &s("bob")), Err(IdentityMismatch));
    let account = "0123456789abcdef".repeat(4);
    assert_eq!(bind(&report(account.as_bytes()), &account), Ok(()));
    assert_eq!(bind(&report(&[0x61, 0xff]), &s("a")), Err(IdentityMismatch));
}
