use zerotier_service::cert_text::{
    certificate_text_of, identities_section, networks_section, path_length_note_text,
    string_or_dash, urls_section, usage_flags_text, CertificateName, CertificateSummary,
    SubjectIdentity, SubjectNetwork, UsageFlag,
};

fn flags() -> Vec<UsageFlag> {
    vec![
        UsageFlag { bit: 1, name: "digital_signature".to_string() },
        UsageFlag { bit: 2, name: "non_repudiation".to_string() },
        UsageFlag { bit: 4, name: "key_encipherment".to_string() },
    ]
}

fn name(fill: &str) -> CertificateName {
    CertificateName {
        serial_no: fill.to_string(),
        common_name: "Example Net".to_string(),
        country: String::new(),
        organization: "ZeroTier".to_string(),
        unit: String::new(),
        locality: String::new(),
        province: String::new(),
        street_address: String::new(),
        postal_code: String::new(),
        email: "ops@example.com".to_string(),
        url: String::new(),
        host: String::new(),
    }
}

fn summary() -> CertificateSummary {
    CertificateSummary {
        serial_no: "abcd".to_string(),
        usage_flags: 5,
        timestamp: 1600000000000,
        validity_start: -1,
        validity_end: 9007199254740991,
        subject_timestamp: 1600000000,
        identities: vec![
            SubjectIdentity { identity: "1111111111:0:aa".to_string(), locator: None },
            SubjectIdentity {
                identity: "2222222222:0:bb".to_string(),
                locator: Some("loc".to_string()),
            },
        ],
        networks: vec![SubjectNetwork {
            id: "8056c2e21c000001".to_string(),
            controller: Some("fp".to_string()),
        }],
        update_urls: vec![],
        name: name(""),
        unique_id: String::new(),
        unique_id_signature: "c2ln".to_string(),
        issuer: "0000".to_string(),
        issuer_public_key: String::new(),
        public_key: "cHVi".to_string(),
        extended_attributes_len: 0,
        signature: "c2lnbmF0dXJl".to_string(),
        max_path_length: 0,
    }
}

/// The rendering as the service's own format string lays it out.
fn expected(c: &CertificateSummary, usage: &str, ids: &str, nets: &str, urls: &str) -> String {
    fn d(s: &str) -> &str {
        if s.is_empty() { "-" } else { s }
    }
    format!(
        "Serial Number (SHA384): {}\nUsage Flags:            0x{:0>8x}{}\nTimestamp:              {}\nValidity:               {} to {}\nSubject\n  Timestamp:            {}\n  Identities{}\n  Networks{}\n  Update URLs{}\n  Name\n    Serial:             {}\n    Common Name:        {}\n    Country:            {}\n    Organization:       {}\n    Unit:               {}\n    Locality:           {}\n    State/Province:     {}\n    Street Address:     {}\n    Postal Code:        {}\n    E-Mail:             {}\n    URL:                {}\n    Host:               {}\n  Unique ID:            {}\n  Unique ID Signature:  {}\nIssuer:                 {}\nIssuer Public Key:      {}\nPublic Key:             {}\nExtended Attributes:    {} bytes\nSignature:              {}\nMaximum Path Length:    {}{}",
        c.serial_no,
        c.usage_flags,
        usage,
        c.timestamp,
        c.validity_start,
        c.validity_end,
        c.subject_timestamp,
        ids,
        nets,
        urls,
        d(&c.name.serial_no),
        d(&c.name.common_name),
        d(&c.name.country),
        d(&c.name.organization),
        d(&c.name.unit),
        d(&c.name.locality),
        d(&c.name.province),
        d(&c.name.street_address),
        d(&c.name.postal_code),
        d(&c.name.email),
        d(&c.name.url),
        d(&c.name.host),
        d(&c.unique_id),
        d(&c.unique_id_signature),
        c.issuer,
        d(&c.issuer_public_key),
        d(&c.public_key),
        c.extended_attributes_len,
        d(&c.signature),
        c.max_path_length,
        if c.max_path_length == 0 { " (leaf)" } else { " (CA or sub-CA)" }
    )
}

#[test]
fn dash_stands_for_empty_text() {
    assert_eq!(string_or_dash(""), "-");
    assert_eq!(string_or_dash("x"), "x");
}

#[test]
fn usage_flags_list_set_flags_each_after_a_comma() {
    assert_eq!(usage_flags_text(0, &flags()), "");
    assert_eq!(usage_flags_text(5, &flags()), " (,digital_signature,key_encipherment)");
    assert_eq!(usage_flags_text(8, &flags()), " ()");
}

#[test]
fn sections_of_the_subject() {
    let c = summary();
    assert_eq!(
        identities_section(&c.identities),
        "\n    1111111111:0:aa\n    2222222222:0:bb loc"
    );
    assert_eq!(networks_section(&c.networks), "\n    8056c2e21c000001 at fp");
    assert_eq!(urls_section(&c.update_urls), ":          (none)");
    assert_eq!(identities_section(&vec![]), ":           (none)");
    assert_eq!(networks_section(&vec![]), ":             (none)");
    assert_eq!(
        urls_section(&vec!["https://a".to_string(), "https://b".to_string()]),
        "\n    https://a\n    https://b"
    );
}

#[test]
fn path_length_notes() {
    assert_eq!(path_length_note_text(0), " (leaf)");
    assert_eq!(path_length_note_text(3), " (CA or sub-CA)");
}

#[test]
fn whole_rendering_matches_the_layout() {
    let c = summary();
    let text = certificate_text_of(&c, &flags());
    let want = expected(
        &c,
        " (,digital_signature,key_encipherment)",
        "\n    1111111111:0:aa\n    2222222222:0:bb loc",
        "\n    8056c2e21c000001 at fp",
        ":          (none)",
    );
    assert_eq!(text, want);
}

#[test]
fn rendering_of_a_ca_without_flags() {
    let mut c = summary();
    c.usage_flags = 0;
    c.max_path_length = 2;
    c.identities = vec![];
    c.networks = vec![];
    c.update_urls = vec!["https://example.com/x".to_string()];
    c.name = name("SN-1");
    c.extended_attributes_len = 512;
    let text = certificate_text_of(&c, &flags());
    let want = expected(&c, "", ":           (none)", ":             (none)", "\n    https://example.com/x");
    assert_eq!(text, want);
    assert!(text.ends_with("Maximum Path Length:    2 (CA or sub-CA)"));
}
