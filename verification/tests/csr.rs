use zerotier_service::codec::HexError;
use zerotier_service::csr::{
    is_blank, CsrAction, CsrError, CsrEvent, CsrSession, CsrStage, IdentityFacts,
};

fn text(s: &str) -> CsrEvent {
    CsrEvent::Text(s.to_string())
}

fn step(s: &mut CsrSession, e: CsrEvent) -> CsrAction {
    assert!(s.is_well_formed());
    assert!(s.accepts_event(&e));
    s.step(e)
}

fn prompt_of(a: &CsrAction) -> (Option<String>, String) {
    match a {
        CsrAction::Ask { header, prompt } => (header.clone(), prompt.clone()),
        other => panic!("expected a prompt, got {:?}", other),
    }
}

#[test]
fn unsigned_subject_dialogue() {
    let (mut s, a) = CsrSession::start();
    assert_eq!(
        prompt_of(&a),
        (None, "Path to subject unique ID secret key (empty to create unsigned subject)".to_string())
    );
    let a = step(&mut s, text(""));
    assert!(matches!(&a, CsrAction::AskTimestamp { prompt } if prompt == "Subject timestamp (seconds since epoch)"));
    let a = step(&mut s, CsrEvent::Timestamp(1650000000));
    assert_eq!(
        prompt_of(&a),
        (
            Some("Subject identities".to_string()),
            "  [1] Identity or path to identity (empty to end)".to_string()
        )
    );
    let a = step(&mut s, text("id.public"));
    assert!(matches!(&a, CsrAction::ReadIdentity { input } if input == "id.public"));
    let a = step(
        &mut s,
        CsrEvent::Identity(Some(IdentityFacts { has_private: false, address: "89e92ceee5".to_string() })),
    );
    assert_eq!(
        prompt_of(&a),
        (None, "  [1] Locator or path to locator for 89e92ceee5 (optional)".to_string())
    );
    let a = step(&mut s, text("loc.bin"));
    assert!(matches!(&a, CsrAction::ReadLocator { input } if input == "loc.bin"));
    let a = step(&mut s, CsrEvent::Locator(Ok(true)));
    assert!(matches!(a, CsrAction::KeepIdentity { with_locator: true }));
    let a = step(&mut s, CsrEvent::Kept);
    assert_eq!(prompt_of(&a), (None, "  [2] Identity or path to identity (empty to end)".to_string()));
    let a = step(&mut s, text(""));
    assert_eq!(
        prompt_of(&a),
        (
            Some("Subject networks (empty to end)".to_string()),
            "  [1] Network ID (empty to end)".to_string()
        )
    );
    let a = step(&mut s, text("8056c2e21c000001"));
    assert_eq!(prompt_of(&a), (None, "  [1] Fingerprint of primary controller (optional)".to_string()));
    let a = step(&mut s, text(""));
    assert!(matches!(&a, CsrAction::KeepNetwork { network_id, with_fingerprint: false } if network_id == "8056c2e21c000001"));
    let a = step(&mut s, CsrEvent::Kept);
    assert_eq!(prompt_of(&a), (None, "  [2] Network ID (empty to end)".to_string()));
    let a = step(&mut s, text("end"));
    assert_eq!(
        prompt_of(&a),
        (
            Some("Subject certificate update URLs".to_string()),
            "  [1] URL (empty to end)".to_string()
        )
    );
    let a = step(&mut s, text("https://example.com/cert"));
    assert_eq!(prompt_of(&a), (None, "  [2] URL (empty to end)".to_string()));
    let a = step(&mut s, text(""));
    assert_eq!(
        prompt_of(&a),
        (
            Some("Certificate name information (all fields are optional)".to_string()),
            "  Serial".to_string()
        )
    );
    let prompts = [
        "  Common Name",
        "  Organization",
        "  Organizational Unit",
        "  Country",
        "  State/Province",
        "  Locality",
        "  Street Address",
        "  Postal Code",
        "  E-Mail",
        "  URL (informational)",
        "  Host",
    ];
    for (i, p) in prompts.iter().enumerate() {
        let a = step(&mut s, text(&format!("field{}", i)));
        assert_eq!(prompt_of(&a), (None, p.to_string()));
    }
    let a = step(&mut s, text("host.example.com"));
    assert!(matches!(a, CsrAction::Create));
    assert_eq!(s.stage, CsrStage::Complete);
    assert_eq!(s.name.len(), 12);
    assert_eq!(s.name[11], "host.example.com");
    assert_eq!(s.timestamp, 1650000000);
    assert_eq!(s.identities, vec!["89e92ceee5".to_string()]);
    assert_eq!(s.networks, vec!["8056c2e21c000001".to_string()]);
    assert_eq!(s.update_urls, vec!["https://example.com/cert".to_string()]);
    assert!(s.unique_id_secret.is_none());
    assert!(!s.accepts_event(&text("more")));
}

#[test]
fn secret_key_is_decoded_from_trimmed_hex() {
    let (mut s, _) = CsrSession::start();
    let a = step(&mut s, text("/etc/secret"));
    assert!(matches!(&a, CsrAction::ReadSecret { path } if path == "/etc/secret"));
    let a = step(&mut s, CsrEvent::Secret(Ok(b"  0aFf10\n".to_vec())));
    assert!(matches!(a, CsrAction::AskTimestamp { .. }));
    assert_eq!(s.unique_id_secret, Some(vec![0x0a, 0xff, 0x10]));
}

#[test]
fn secret_errors() {
    let (mut s, _) = CsrSession::start();
    step(&mut s, text("k"));
    let a = step(&mut s, CsrEvent::Secret(Err("No such file".to_string())));
    assert!(matches!(a, CsrAction::Fail(CsrError::SecretUnreadable(m)) if m == "No such file"));
    assert_eq!(s.stage, CsrStage::Failed);

    let (mut s, _) = CsrSession::start();
    step(&mut s, text("k"));
    let a = step(&mut s, CsrEvent::Secret(Ok(vec![0x30, 0xff, 0x30])));
    assert!(matches!(a, CsrAction::Fail(CsrError::SecretNotUtf8)));

    let (mut s, _) = CsrSession::start();
    step(&mut s, text("k"));
    let a = step(&mut s, CsrEvent::Secret(Ok(b"abc".to_vec())));
    assert!(matches!(a, CsrAction::Fail(CsrError::InvalidSecret(HexError::OddLength))));

    let (mut s, _) = CsrSession::start();
    step(&mut s, text("k"));
    let a = step(&mut s, CsrEvent::Secret(Ok(b"a0zz".to_vec())));
    assert!(matches!(
        a,
        CsrAction::Fail(CsrError::InvalidSecret(HexError::InvalidHexCharacter { c: 'z', index: 2 }))
    ));
}

#[test]
fn blank_secret_file_is_not_accepted() {
    assert!(is_blank(b" \t\n"));
    assert!(is_blank(b""));
    assert!(!is_blank(b" 00 "));
    assert!(!is_blank(&[0xff]));
    let (mut s, _) = CsrSession::start();
    step(&mut s, text("k"));
    assert!(!s.accepts_event(&CsrEvent::Secret(Ok(b"  \n".to_vec()))));
}

#[test]
fn negative_timestamp_fails() {
    let (mut s, _) = CsrSession::start();
    step(&mut s, text(""));
    let a = step(&mut s, CsrEvent::Timestamp(-1));
    assert!(matches!(a, CsrAction::Fail(CsrError::InvalidTimestamp)));
    assert!(!s.accepts_event(&CsrEvent::Timestamp(5)));
}

fn at_identities() -> CsrSession {
    let (mut s, _) = CsrSession::start();
    step(&mut s, text(""));
    step(&mut s, CsrEvent::Timestamp(0));
    s
}

#[test]
fn identity_errors() {
    let mut s = at_identities();
    step(&mut s, text("x"));
    let a = step(&mut s, CsrEvent::Identity(None));
    assert!(matches!(a, CsrAction::Fail(CsrError::InvalidIdentity)));

    let mut s = at_identities();
    step(&mut s, text("x"));
    let a = step(
        &mut s,
        CsrEvent::Identity(Some(IdentityFacts { has_private: true, address: "a".to_string() })),
    );
    assert!(matches!(a, CsrAction::Fail(CsrError::IdentityHasPrivate)));

    let mut s = at_identities();
    step(&mut s, text("x"));
    step(&mut s, CsrEvent::Identity(Some(IdentityFacts { has_private: false, address: "a".to_string() })));
    step(&mut s, text("l"));
    let a = step(&mut s, CsrEvent::Locator(Ok(false)));
    assert!(matches!(a, CsrAction::Fail(CsrError::LocatorNotSigned)));

    let mut s = at_identities();
    step(&mut s, text("x"));
    step(&mut s, CsrEvent::Identity(Some(IdentityFacts { has_private: false, address: "a".to_string() })));
    step(&mut s, text("l"));
    let a = step(&mut s, CsrEvent::Locator(Err("bad".to_string())));
    assert!(matches!(a, CsrAction::Fail(CsrError::InvalidLocator(m)) if m == "bad"));

    let mut s = at_identities();
    step(&mut s, text("x"));
    step(&mut s, CsrEvent::Identity(Some(IdentityFacts { has_private: false, address: "a".to_string() })));
    let a = step(&mut s, text(""));
    assert!(matches!(a, CsrAction::KeepIdentity { with_locator: false }));
}

#[test]
fn network_id_length_is_counted_in_bytes() {
    let mut s = at_identities();
    step(&mut s, text(""));
    // 8 two-byte characters: 16 bytes.
    let a = step(&mut s, text("éééééééé"));
    assert_eq!(prompt_of(&a), (None, "  [1] Fingerprint of primary controller (optional)".to_string()));
    step(&mut s, text("fp"));
    let a = step(&mut s, CsrEvent::Fingerprint(Err("bad fingerprint".to_string())));
    assert!(matches!(a, CsrAction::Fail(CsrError::InvalidFingerprint(m)) if m == "bad fingerprint"));

    let mut s = at_identities();
    step(&mut s, text(""));
    let a = step(&mut s, text("8056c2e21c00000"));
    assert_eq!(prompt_of(&a).1, "  [1] URL (empty to end)");
}

#[test]
fn invalid_url_fails() {
    let mut s = at_identities();
    step(&mut s, text(""));
    step(&mut s, text(""));
    let a = step(&mut s, text("http://exa mple.com"));
    match a {
        CsrAction::Fail(CsrError::InvalidUrl(m)) => assert!(!m.is_empty()),
        other => panic!("expected an invalid URL, got {:?}", other),
    }
    assert!(s.update_urls.is_empty());
}
