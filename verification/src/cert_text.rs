//! The human-readable rendering of a certificate that `cert show` prints.

use vstd::prelude::*;
use crate::text::{decimal_text, hex_padded_text, i64_text, u64_text, hex_padded};

verus! {

/// A subject identity, as text: the identity and its optional locator.
#[derive(Debug)]
pub struct SubjectIdentity {
    pub identity: String,
    pub locator: Option<String>,
}

/// A subject network, as text: the network ID and the optional fingerprint
/// of its controller.
#[derive(Debug)]
pub struct SubjectNetwork {
    pub id: String,
    pub controller: Option<String>,
}

/// The subject's name fields.
#[derive(Debug)]
pub struct CertificateName {
    pub serial_no: String,
    pub common_name: String,
    pub country: String,
    pub organization: String,
    pub unit: String,
    pub locality: String,
    pub province: String,
    pub street_address: String,
    pub postal_code: String,
    pub email: String,
    pub url: String,
    pub host: String,
}

/// A certificate usage flag: its bit and its name.
#[derive(Debug)]
pub struct UsageFlag {
    pub bit: u64,
    pub name: String,
}

/// What `cert show` prints of a certificate, with each part that another
/// component renders (identities, fingerprints, serial numbers, Base64 of
/// keys and signatures) already rendered as text.
#[derive(Debug)]
pub struct CertificateSummary {
    pub serial_no: String,
    pub usage_flags: u64,
    pub timestamp: i64,
    pub validity_start: i64,
    pub validity_end: i64,
    pub subject_timestamp: i64,
    pub identities: Vec<SubjectIdentity>,
    pub networks: Vec<SubjectNetwork>,
    pub update_urls: Vec<String>,
    pub name: CertificateName,
    pub unique_id: String,
    pub unique_id_signature: String,
    pub issuer: String,
    pub issuer_public_key: String,
    pub public_key: String,
    pub extended_attributes_len: usize,
    pub signature: String,
    pub max_path_length: u32,
}

/// The subject's name fields, over plain values.
pub struct CertificateNameModel {
    pub serial_no: Seq<char>,
    pub common_name: Seq<char>,
    pub country: Seq<char>,
    pub organization: Seq<char>,
    pub unit: Seq<char>,
    pub locality: Seq<char>,
    pub province: Seq<char>,
    pub street_address: Seq<char>,
    pub postal_code: Seq<char>,
    pub email: Seq<char>,
    pub url: Seq<char>,
    pub host: Seq<char>,
}

/// A certificate summary over plain values.
pub struct CertificateSummaryModel {
    pub serial_no: Seq<char>,
    pub usage_flags: u64,
    pub timestamp: i64,
    pub validity_start: i64,
    pub validity_end: i64,
    pub subject_timestamp: i64,
    pub identities: Seq<(Seq<char>, Option<Seq<char>>)>,
    pub networks: Seq<(Seq<char>, Option<Seq<char>>)>,
    pub update_urls: Seq<Seq<char>>,
    pub name: CertificateNameModel,
    pub unique_id: Seq<char>,
    pub unique_id_signature: Seq<char>,
    pub issuer: Seq<char>,
    pub issuer_public_key: Seq<char>,
    pub public_key: Seq<char>,
    pub extended_attributes_len: usize,
    pub signature: Seq<char>,
    pub max_path_length: u32,
}

pub open spec fn opt_text(o: Option<String>) -> Option<Seq<char>> {
    match o {
        Some(s) => Some(s@),
        None => None,
    }
}

impl View for SubjectIdentity {
    type V = (Seq<char>, Option<Seq<char>>);

    open spec fn view(&self) -> (Seq<char>, Option<Seq<char>>) {
        (self.identity@, opt_text(self.locator))
    }
}

impl View for SubjectNetwork {
    type V = (Seq<char>, Option<Seq<char>>);

    open spec fn view(&self) -> (Seq<char>, Option<Seq<char>>) {
        (self.id@, opt_text(self.controller))
    }
}

impl View for UsageFlag {
    type V = (u64, Seq<char>);

    open spec fn view(&self) -> (u64, Seq<char>) {
        (self.bit, self.name@)
    }
}

impl View for CertificateName {
    type V = CertificateNameModel;

    open spec fn view(&self) -> CertificateNameModel {
        CertificateNameModel {
            serial_no: self.serial_no@,
            common_name: self.common_name@,
            country: self.country@,
            organization: self.organization@,
            unit: self.unit@,
            locality: self.locality@,
            province: self.province@,
            street_address: self.street_address@,
            postal_code: self.postal_code@,
            email: self.email@,
            url: self.url@,
            host: self.host@,
        }
    }
}

impl View for CertificateSummary {
    type V = CertificateSummaryModel;

    open spec fn view(&self) -> CertificateSummaryModel {
        CertificateSummaryModel {
            serial_no: self.serial_no@,
            usage_flags: self.usage_flags,
            timestamp: self.timestamp,
            validity_start: self.validity_start,
            validity_end: self.validity_end,
            subject_timestamp: self.subject_timestamp,
            identities: self.identities@.map_values(|x: SubjectIdentity| x@),
            networks: self.networks@.map_values(|x: SubjectNetwork| x@),
            update_urls: self.update_urls@.map_values(|x: String| x@),
            name: self.name@,
            unique_id: self.unique_id@,
            unique_id_signature: self.unique_id_signature@,
            issuer: self.issuer@,
            issuer_public_key: self.issuer_public_key@,
            public_key: self.public_key@,
            extended_attributes_len: self.extended_attributes_len,
            signature: self.signature@,
            max_path_length: self.max_path_length,
        }
    }
}

/// `s`, or `-` when `s` is empty.
pub open spec fn or_dash(s: Seq<char>) -> Seq<char> {
    if s.len() == 0 {
        "-"@
    } else {
        s
    }
}

/// The names of the flags of `table` whose bit is set in `flags`, each
/// preceded by a comma, in the order of `table`.
pub open spec fn usage_names(flags: u64, table: Seq<(u64, Seq<char>)>) -> Seq<char>
    decreases table.len(),
{
    if table.len() == 0 {
        Seq::empty()
    } else {
        usage_names(flags, table.drop_last()) + if flags & table.last().0 != 0 {
            ","@ + table.last().1
        } else {
            Seq::empty()
        }
    }
}

/// What follows the hexadecimal usage flags: nothing when no flag is set,
/// else the names of the set flags in parentheses.
pub open spec fn usage_text(flags: u64, table: Seq<(u64, Seq<char>)>) -> Seq<char> {
    if flags == 0 {
        Seq::empty()
    } else {
        " ("@ + usage_names(flags, table) + ")"@
    }
}

/// One line per identity: the identity, then its locator if it has one.
pub open spec fn identity_lines(ids: Seq<(Seq<char>, Option<Seq<char>>)>) -> Seq<char>
    decreases ids.len(),
{
    if ids.len() == 0 {
        Seq::empty()
    } else {
        identity_lines(ids.drop_last()) + "\n    "@ + ids.last().0 + match ids.last().1 {
            Some(l) => " "@ + l,
            None => Seq::empty(),
        }
    }
}

/// The identities part of the subject.
pub open spec fn identities_text(ids: Seq<(Seq<char>, Option<Seq<char>>)>) -> Seq<char> {
    if ids.len() == 0 {
        ":           (none)"@
    } else {
        identity_lines(ids)
    }
}

/// One line per network: the network ID, then its controller if it has one.
pub open spec fn network_lines(nets: Seq<(Seq<char>, Option<Seq<char>>)>) -> Seq<char>
    decreases nets.len(),
{
    if nets.len() == 0 {
        Seq::empty()
    } else {
        network_lines(nets.drop_last()) + "\n    "@ + nets.last().0 + match nets.last().1 {
            Some(c) => " at "@ + c,
            None => Seq::empty(),
        }
    }
}

/// The networks part of the subject.
pub open spec fn networks_text(nets: Seq<(Seq<char>, Option<Seq<char>>)>) -> Seq<char> {
    if nets.len() == 0 {
        ":             (none)"@
    } else {
        network_lines(nets)
    }
}

/// One line per update URL.
pub open spec fn url_lines(urls: Seq<Seq<char>>) -> Seq<char>
    decreases urls.len(),
{
    if urls.len() == 0 {
        Seq::empty()
    } else {
        url_lines(urls.drop_last()) + "\n    "@ + urls.last()
    }
}

/// The update URLs part of the subject.
pub open spec fn urls_text(urls: Seq<Seq<char>>) -> Seq<char> {
    if urls.len() == 0 {
        ":          (none)"@
    } else {
        url_lines(urls)
    }
}

/// What follows the maximum path length: whether the certificate is a leaf.
pub open spec fn path_length_note(max_path_length: u32) -> Seq<char> {
    if max_path_length == 0 {
        " (leaf)"@
    } else {
        " (CA or sub-CA)"@
    }
}

/// The whole rendering of certificate `c`, given the names of the usage
/// flags.
pub open spec fn certificate_text(c: CertificateSummaryModel, flags: Seq<(u64, Seq<char>)>) -> Seq<char> {
    "Serial Number (SHA384): "@
        + c.serial_no
        + "\nUsage Flags:            0x"@
        + hex_padded_text(c.usage_flags as nat, 8)
        + usage_text(c.usage_flags, flags)
        + "\nTimestamp:              "@
        + decimal_text(c.timestamp as int)
        + "\nValidity:               "@
        + decimal_text(c.validity_start as int)
        + " to "@
        + decimal_text(c.validity_end as int)
        + "\nSubject\n  Timestamp:            "@
        + decimal_text(c.subject_timestamp as int)
        + "\n  Identities"@
        + identities_text(c.identities)
        + "\n  Networks"@
        + networks_text(c.networks)
        + "\n  Update URLs"@
        + urls_text(c.update_urls)
        + "\n  Name\n    Serial:             "@
        + or_dash(c.name.serial_no)
        + "\n    Common Name:        "@
        + or_dash(c.name.common_name)
        + "\n    Country:            "@
        + or_dash(c.name.country)
        + "\n    Organization:       "@
        + or_dash(c.name.organization)
        + "\n    Unit:               "@
        + or_dash(c.name.unit)
        + "\n    Locality:           "@
        + or_dash(c.name.locality)
        + "\n    State/Province:     "@
        + or_dash(c.name.province)
        + "\n    Street Address:     "@
        + or_dash(c.name.street_address)
        + "\n    Postal Code:        "@
        + or_dash(c.name.postal_code)
        + "\n    E-Mail:             "@
        + or_dash(c.name.email)
        + "\n    URL:                "@
        + or_dash(c.name.url)
        + "\n    Host:               "@
        + or_dash(c.name.host)
        + "\n  Unique ID:            "@
        + or_dash(c.unique_id)
        + "\n  Unique ID Signature:  "@
        + or_dash(c.unique_id_signature)
        + "\nIssuer:                 "@
        + c.issuer
        + "\nIssuer Public Key:      "@
        + or_dash(c.issuer_public_key)
        + "\nPublic Key:             "@
        + or_dash(c.public_key)
        + "\nExtended Attributes:    "@
        + decimal_text(c.extended_attributes_len as int)
        + " bytes\nSignature:              "@
        + or_dash(c.signature)
        + "\nMaximum Path Length:    "@
        + decimal_text(c.max_path_length as int)
        + path_length_note(c.max_path_length)
}

/// Whether `seg` occurs in `text` as a run of consecutive characters.
pub open spec fn occurs_in(seg: Seq<char>, text: Seq<char>) -> bool {
    exists|k: int| #[trigger] occurs_at(seg, text, k)
}

/// Whether `seg` occurs in `text` starting at position `k`.
pub open spec fn occurs_at(seg: Seq<char>, text: Seq<char>, k: int) -> bool {
    0 <= k && k + seg.len() <= text.len() && text.subrange(k, k + seg.len()) == seg
}

/// A run of characters in `x` is also a run, at the same place, in `x`
/// followed by `y`.
proof fn lemma_occurs_extend(seg: Seq<char>, x: Seq<char>, y: Seq<char>, k: int)
    requires
        occurs_at(seg, x, k),
    ensures
        occurs_at(seg, x + y, k),
{
    assert((x + y).subrange(k, k + seg.len()) =~= x.subrange(k, k + seg.len()));
}

/// `seg` is a run of characters in `x + seg`, right after `x`.
proof fn lemma_occurs_after(x: Seq<char>, seg: Seq<char>)
    ensures
        occurs_at(seg, x + seg, x.len() as int),
{
    assert((x + seg).subrange(x.len() as int, (x.len() + seg.len()) as int) =~= seg);
}

proof fn lemma_concat_push(parts: Seq<Seq<char>>, x: Seq<char>)
    ensures
        concat_parts(parts.push(x)) == concat_parts(parts) + x,
{
    assert(parts.push(x).drop_last() =~= parts);
}

proof fn lemma_concat_add(x: Seq<Seq<char>>, y: Seq<Seq<char>>)
    ensures
        concat_parts(x + y) == concat_parts(x) + concat_parts(y),
    decreases y.len(),
{
    if y.len() == 0 {
        assert(x + y =~= x);
        assert(concat_parts(x) + concat_parts(y) =~= concat_parts(x));
    } else {
        lemma_concat_add(x, y.drop_last());
        assert((x + y).drop_last() =~= x + y.drop_last());
        assert(concat_parts(x) + concat_parts(y.drop_last()) + y.last() =~= concat_parts(x) + (
        concat_parts(y.drop_last()) + y.last()));
    }
}

proof fn lemma_concat_three(a: Seq<char>, b: Seq<char>, c: Seq<char>)
    ensures
        concat_parts(seq![a, b, c]) == a + b + c,
{
    lemma_concat_push(seq![a, b], c);
    lemma_concat_push(seq![a], b);
    lemma_concat_push(Seq::empty(), a);
    assert(seq![a, b] =~= seq![a].push(b));
    assert(seq![a, b, c] =~= seq![a, b].push(c));
    assert(seq![a] =~= Seq::<Seq<char>>::empty().push(a));
    assert(Seq::<char>::empty() + a =~= a);
}

proof fn lemma_concat_four(a: Seq<char>, b: Seq<char>, c: Seq<char>, d: Seq<char>)
    ensures
        concat_parts(seq![a, b, c, d]) == a + b + c + d,
{
    lemma_concat_three(a, b, c);
    lemma_concat_push(seq![a, b, c], d);
    assert(seq![a, b, c, d] =~= seq![a, b, c].push(d));
}

/// The parts from `a` to `b` stand together in the concatenation of all
/// parts, right after the parts before `a`.
proof fn lemma_parts_run(parts: Seq<Seq<char>>, a: int, b: int)
    requires
        0 <= a <= b <= parts.len(),
    ensures
        occurs_at(
            concat_parts(parts.subrange(a, b)),
            concat_parts(parts),
            total_len(parts.take(a)) as int,
        ),
{
    let x = parts.take(a);
    let y = parts.subrange(a, b);
    let z = parts.skip(b);
    assert(parts =~= x + y + z);
    lemma_concat_add(x + y, z);
    lemma_concat_add(x, y);
    lemma_parts_layout(x);
    lemma_occurs_after(concat_parts(x), concat_parts(y));
    lemma_occurs_extend(concat_parts(y), concat_parts(x) + concat_parts(y), concat_parts(z), concat_parts(x).len() as int);
}

/// The pieces of a certificate's rendering, in order: fixed labels and the
/// text of each field.
pub open spec fn certificate_parts(c: CertificateSummaryModel, flags: Seq<(u64, Seq<char>)>) -> Seq<Seq<char>> {
    seq![
        "Serial Number (SHA384): "@,
        c.serial_no,
        "\nUsage Flags:            0x"@,
        hex_padded_text(c.usage_flags as nat, 8),
        usage_text(c.usage_flags, flags),
        "\nTimestamp:              "@,
        decimal_text(c.timestamp as int),
        "\nValidity:               "@,
        decimal_text(c.validity_start as int),
        " to "@,
        decimal_text(c.validity_end as int),
        "\nSubject\n  Timestamp:            "@,
        decimal_text(c.subject_timestamp as int),
        "\n  Identities"@,
        identities_text(c.identities),
        "\n  Networks"@,
        networks_text(c.networks),
        "\n  Update URLs"@,
        urls_text(c.update_urls),
        "\n  Name\n    Serial:             "@,
        or_dash(c.name.serial_no),
        "\n    Common Name:        "@,
        or_dash(c.name.common_name),
        "\n    Country:            "@,
        or_dash(c.name.country),
        "\n    Organization:       "@,
        or_dash(c.name.organization),
        "\n    Unit:               "@,
        or_dash(c.name.unit),
        "\n    Locality:           "@,
        or_dash(c.name.locality),
        "\n    State/Province:     "@,
        or_dash(c.name.province),
        "\n    Street Address:     "@,
        or_dash(c.name.street_address),
        "\n    Postal Code:        "@,
        or_dash(c.name.postal_code),
        "\n    E-Mail:             "@,
        or_dash(c.name.email),
        "\n    URL:                "@,
        or_dash(c.name.url),
        "\n    Host:               "@,
        or_dash(c.name.host),
        "\n  Unique ID:            "@,
        or_dash(c.unique_id),
        "\n  Unique ID Signature:  "@,
        or_dash(c.unique_id_signature),
        "\nIssuer:                 "@,
        c.issuer,
        "\nIssuer Public Key:      "@,
        or_dash(c.issuer_public_key),
        "\nPublic Key:             "@,
        or_dash(c.public_key),
        "\nExtended Attributes:    "@,
        decimal_text(c.extended_attributes_len as int),
        " bytes\nSignature:              "@,
        or_dash(c.signature),
        "\nMaximum Path Length:    "@,
        decimal_text(c.max_path_length as int),
        path_length_note(c.max_path_length),
    ]
}

#[verifier::rlimit(50)]
proof fn lemma_certificate_parts(c: CertificateSummaryModel, flags: Seq<(u64, Seq<char>)>)
    ensures
        certificate_text(c, flags) == concat_parts(certificate_parts(c, flags)),
{
    let t0 = "Serial Number (SHA384): "@;
    let t1 = c.serial_no;
    let t2 = "\nUsage Flags:            0x"@;
    let t3 = hex_padded_text(c.usage_flags as nat, 8);
    let t4 = usage_text(c.usage_flags, flags);
    let t5 = "\nTimestamp:              "@;
    let t6 = decimal_text(c.timestamp as int);
    let t7 = "\nValidity:               "@;
    let t8 = decimal_text(c.validity_start as int);
    let t9 = " to "@;
    let t10 = decimal_text(c.validity_end as int);
    let t11 = "\nSubject\n  Timestamp:            "@;
    let t12 = decimal_text(c.subject_timestamp as int);
    let t13 = "\n  Identities"@;
    let t14 = identities_text(c.identities);
    let t15 = "\n  Networks"@;
    let t16 = networks_text(c.networks);
    let t17 = "\n  Update URLs"@;
    let t18 = urls_text(c.update_urls);
    let t19 = "\n  Name\n    Serial:             "@;
    let t20 = or_dash(c.name.serial_no);
    let t21 = "\n    Common Name:        "@;
    let t22 = or_dash(c.name.common_name);
    let t23 = "\n    Country:            "@;
    let t24 = or_dash(c.name.country);
    let t25 = "\n    Organization:       "@;
    let t26 = or_dash(c.name.organization);
    let t27 = "\n    Unit:               "@;
    let t28 = or_dash(c.name.unit);
    let t29 = "\n    Locality:           "@;
    let t30 = or_dash(c.name.locality);
    let t31 = "\n    State/Province:     "@;
    let t32 = or_dash(c.name.province);
    let t33 = "\n    Street Address:     "@;
    let t34 = or_dash(c.name.street_address);
    let t35 = "\n    Postal Code:        "@;
    let t36 = or_dash(c.name.postal_code);
    let t37 = "\n    E-Mail:             "@;
    let t38 = or_dash(c.name.email);
    let t39 = "\n    URL:                "@;
    let t40 = or_dash(c.name.url);
    let t41 = "\n    Host:               "@;
    let t42 = or_dash(c.name.host);
    let t43 = "\n  Unique ID:            "@;
    let t44 = or_dash(c.unique_id);
    let t45 = "\n  Unique ID Signature:  "@;
    let t46 = or_dash(c.unique_id_signature);
    let t47 = "\nIssuer:                 "@;
    let t48 = c.issuer;
    let t49 = "\nIssuer Public Key:      "@;
    let t50 = or_dash(c.issuer_public_key);
    let t51 = "\nPublic Key:             "@;
    let t52 = or_dash(c.public_key);
    let t53 = "\nExtended Attributes:    "@;
    let t54 = decimal_text(c.extended_attributes_len as int);
    let t55 = " bytes\nSignature:              "@;
    let t56 = or_dash(c.signature);
    let t57 = "\nMaximum Path Length:    "@;
    let t58 = decimal_text(c.max_path_length as int);
    let t59 = path_length_note(c.max_path_length);
    let parts = certificate_parts(c, flags);
    let p0: Seq<Seq<char>> = Seq::empty();
    lemma_concat_push(p0, t0);
    assert(Seq::<char>::empty() + t0 =~= t0);
    lemma_concat_push(p0.push(t0), t1);
    lemma_concat_push(p0.push(t0).push(t1), t2);
    lemma_concat_push(p0.push(t0).push(t1).push(t2), t3);
    lemma_concat_push(p0.push(t0).push(t1).push(t2).push(t3), t4);
    lemma_concat_push(p0.push(t0).push(t1).push(t2).push(t3).push(t4), t5);
    lemma_concat_push(p0.push(t0).push(t1).push(t2).push(t3).push(t4).push(t5), t6);
    lemma_concat_push(p0.push(t0).push(t1).push(t2).push(t3).push(t4).push(t5).push(t6), t7);
    lemma_concat_push(p0.push(t0).push(t1).push(t2).push(t3).push(t4).push(t5).push(t6).push(t7), t8);
    lemma_concat_push(p0.push(t0).push(t1).push(t2).push(t3).push(t4).push(t5).push(t6).push(t7).push(t8), t9);
    lemma_concat_push(p0.push(t0).push(t1).push(t2).push(t3).push(t4).push(t5).push(t6).push(t7).push(t8).push(t9), t10);
    lemma_concat_push(p0.push(t0).push(t1).push(t2).push(t3).push(t4).push(t5).push(t6).push(t7).push(t8).push(t9).push(t10), t11);
    lemma_concat_push(p0.push(t0).push(t1).push(t2).push(t3).push(t4).push(t5).push(t6).push(t7).push(t8).push(t9).push(t10).push(t11), t12);
    lemma_concat_push(p0.push(t0).push(t1).push(t2).push(t3).push(t4).push(t5).push(t6).push(t7).push(t8).push(t9).push(t10).push(t11).push(t12), t13);
    lemma_concat_push(p0.push(t0).push(t1).push(t2).push(t3).push(t4).push(t5).push(t6).push(t7).push(t8).push(t9).push(t10).push(t11).push(t12).push(t13), t14);
    lemma_concat_push(p0.push(t0).push(t1).push(t2).push(t3).push(t4).push(t5).push(t6).push(t7).push(t8).push(t9).push(t10).push(t11).push(t12).push(t13).push(t14), t15);
    lemma_concat_push(p0.push(t0).push(t1).push(t2).push(t3).push(t4).push(t5).push(t6).push(t7).push(t8).push(t9).push(t10).push(t11).push(t12).push(t13).push(t14).push(t15), t16);
    lemma_concat_push(p0.push(t0).push(t1).push(t2).push(t3).push(t4).push(t5).push(t6).push(t7).push(t8).push(t9).push(t10).push(t11).push(t12).push(t13).push(t14).push(t15).push(t16), t17);
    lemma_concat_push(p0.push(t0).push(t1).push(t2).push(t3).push(t4).push(t5).push(t6).push(t7).push(t8).push(t9).push(t10).push(t11).push(t12).push(t13).push(t14).push(t15).push(t16).push(t17), t18);
    lemma_concat_push(p0.push(t0).push(t1).push(t2).push(t3).push(t4).push(t5).push(t6).push(t7).push(t8).push(t9).push(t10).push(t11).push(t12).push(t13).push(t14).push(t15).push(t16).push(t17).push(t18), t19);
    lemma_concat_push(p0.push(t0).push(t1).push(t2).push(t3).push(t4).push(t5).push(t6).push(t7).push(t8).push(t9).push(t10).push(t11).push(t12).push(t13).push(t14).push(t15).push(t16).push(t17).push(t18).push(t19), t20);
    lemma_concat_push(p0.push(t0).push(t1).push(t2).push(t3).push(t4).push(t5).push(t6).push(t7).push(t8).push(t9).push(t10).push(t11).push(t12).push(t13).push(t14).push(t15).push(t16).push(t17).push(t18).push(t19).push(t20), t21);
    lemma_concat_push(p0.push(t0).push(t1).push(t2).push(t3).push(t4).push(t5).push(t6).push(t7).push(t8).push(t9).push(t10).push(t11).push(t12).push(t13).push(t14).push(t15).push(t16).push(t17).push(t18).push(t19).push(t20).push(t21), t22);
    lemma_concat_push(p0.push(t0).push(t1).push(t2).push(t3).push(t4).push(t5).push(t6).push(t7).push(t8).push(t9).push(t10).push(t11).push(t12).push(t13).push(t14).push(t15).push(t16).push(t17).push(t18).push(t19).push(t20).push(t21).push(t22), t23);
    lemma_concat_push(p0.push(t0).push(t1).push(t2).push(t3).push(t4).push(t5).push(t6).push(t7).push(t8).push(t9).push(t10).push(t11).push(t12).push(t13).push(t14).push(t15).push(t16).push(t17).push(t18).push(t19).push(t20).push(t21).push(t22).push(t23), t24);
    lemma_concat_push(p0.push(t0).push(t1).push(t2).push(t3).push(t4).push(t5).push(t6).push(t7).push(t8).push(t9).push(t10).push(t11).push(t12).push(t13).push(t14).push(t15).push(t16).push(t17).push(t18).push(t19).push(t20).push(t21).push(t22).push(t23).push(t24), t25);
    lemma_concat_push(p0.push(t0).push(t1).push(t2).push(t3).push(t4).push(t5).push(t6).push(t7).push(t8).push(t9).push(t10).push(t11).push(t12).push(t13).push(t14).push(t15).push(t16).push(t17).push(t18).push(t19).push(t20).push(t21).push(t22).push(t23).push(t24).push(t25), t26);
    lemma_concat_push(p0.push(t0).push(t1).push(t2).push(t3).push(t4).push(t5).push(t6).push(t7).push(t8).push(t9).push(t10).push(t11).push(t12).push(t13).push(t14).push(t15).push(t16).push(t17).push(t18).push(t19).push(t20).push(t21).push(t22).push(t23).push(t24).push(t25).push(t26), t27);
    lemma_concat_push(p0.push(t0).push(t1).push(t2).push(t3).push(t4).push(t5).push(t6).push(t7).push(t8).push(t9).push(t10).push(t11).push(t12).push(t13).push(t14).push(t15).push(t16).push(t17).push(t18).push(t19).push(t20).push(t21).push(t22).push(t23).push(t24).push(t25).push(t26).push(t27), t28);
    lemma_concat_push(p0.push(t0).push(t1).push(t2).push(t3).push(t4).push(t5).push(t6).push(t7).push(t8).push(t9).push(t10).push(t11).push(t12).push(t13).push(t14).push(t15).push(t16).push(t17).push(t18).push(t19).push(t20).push(t21).push(t22).push(t23).push(t24).push(t25).push(t26).push(t27).push(t28), t29);
    lemma_concat_push(p0.push(t0).push(t1).push(t2).push(t3).push(t4).push(t5).push(t6).push(t7).push(t8).push(t9).push(t10).push(t11).push(t12).push(t13).push(t14).push(t15).push(t16).push(t17).push(t18).push(t19).push(t20).push(t21).push(t22).push(t23).push(t24).push(t25).push(t26).push(t27).push(t28).push(t29), t30);
    lemma_concat_push(p0.push(t0).push(t1).push(t2).push(t3).push(t4).push(t5).push(t6).push(t7).push(t8).push(t9).push(t10).push(t11).push(t12).push(t13).push(t14).push(t15).push(t16).push(t17).push(t18).push(t19).push(t20).push(t21).push(t22).push(t23).push(t24).push(t25).push(t26).push(t27).push(t28).push(t29).push(t30), t31);
    lemma_concat_push(p0.push(t0).push(t1).push(t2).push(t3).push(t4).push(t5).push(t6).push(t7).push(t8).push(t9).push(t10).push(t11).push(t12).push(t13).push(t14).push(t15).push(t16).push(t17).push(t18).push(t19).push(t20).push(t21).push(t22).push(t23).push(t24).push(t25).push(t26).push(t27).push(t28).push(t29).push(t30).push(t31), t32);
    lemma_concat_push(p0.push(t0).push(t1).push(t2).push(t3).push(t4).push(t5).push(t6).push(t7).push(t8).push(t9).push(t10).push(t11).push(t12).push(t13).push(t14).push(t15).push(t16).push(t17).push(t18).push(t19).push(t20).push(t21).push(t22).push(t23).push(t24).push(t25).push(t26).push(t27).push(t28).push(t29).push(t30).push(t31).push(t32), t33);
    lemma_concat_push(p0.push(t0).push(t1).push(t2).push(t3).push(t4).push(t5).push(t6).push(t7).push(t8).push(t9).push(t10).push(t11).push(t12).push(t13).push(t14).push(t15).push(t16).push(t17).push(t18).push(t19).push(t20).push(t21).push(t22).push(t23).push(t24).push(t25).push(t26).push(t27).push(t28).push(t29).push(t30).push(t31).push(t32).push(t33), t34);
    lemma_concat_push(p0.push(t0).push(t1).push(t2).push(t3).push(t4).push(t5).push(t6).push(t7).push(t8).push(t9).push(t10).push(t11).push(t12).push(t13).push(t14).push(t15).push(t16).push(t17).push(t18).push(t19).push(t20).push(t21).push(t22).push(t23).push(t24).push(t25).push(t26).push(t27).push(t28).push(t29).push(t30).push(t31).push(t32).push(t33).push(t34), t35);
    lemma_concat_push(p0.push(t0).push(t1).push(t2).push(t3).push(t4).push(t5).push(t6).push(t7).push(t8).push(t9).push(t10).push(t11).push(t12).push(t13).push(t14).push(t15).push(t16).push(t17).push(t18).push(t19).push(t20).push(t21).push(t22).push(t23).push(t24).push(t25).push(t26).push(t27).push(t28).push(t29).push(t30).push(t31).push(t32).push(t33).push(t34).push(t35), t36);
    lemma_concat_push(p0.push(t0).push(t1).push(t2).push(t3).push(t4).push(t5).push(t6).push(t7).push(t8).push(t9).push(t10).push(t11).push(t12).push(t13).push(t14).push(t15).push(t16).push(t17).push(t18).push(t19).push(t20).push(t21).push(t22).push(t23).push(t24).push(t25).push(t26).push(t27).push(t28).push(t29).push(t30).push(t31).push(t32).push(t33).push(t34).push(t35).push(t36), t37);
    lemma_concat_push(p0.push(t0).push(t1).push(t2).push(t3).push(t4).push(t5).push(t6).push(t7).push(t8).push(t9).push(t10).push(t11).push(t12).push(t13).push(t14).push(t15).push(t16).push(t17).push(t18).push(t19).push(t20).push(t21).push(t22).push(t23).push(t24).push(t25).push(t26).push(t27).push(t28).push(t29).push(t30).push(t31).push(t32).push(t33).push(t34).push(t35).push(t36).push(t37), t38);
    lemma_concat_push(p0.push(t0).push(t1).push(t2).push(t3).push(t4).push(t5).push(t6).push(t7).push(t8).push(t9).push(t10).push(t11).push(t12).push(t13).push(t14).push(t15).push(t16).push(t17).push(t18).push(t19).push(t20).push(t21).push(t22).push(t23).push(t24).push(t25).push(t26).push(t27).push(t28).push(t29).push(t30).push(t31).push(t32).push(t33).push(t34).push(t35).push(t36).push(t37).push(t38), t39);
    lemma_concat_push(p0.push(t0).push(t1).push(t2).push(t3).push(t4).push(t5).push(t6).push(t7).push(t8).push(t9).push(t10).push(t11).push(t12).push(t13).push(t14).push(t15).push(t16).push(t17).push(t18).push(t19).push(t20).push(t21).push(t22).push(t23).push(t24).push(t25).push(t26).push(t27).push(t28).push(t29).push(t30).push(t31).push(t32).push(t33).push(t34).push(t35).push(t36).push(t37).push(t38).push(t39), t40);
    lemma_concat_push(p0.push(t0).push(t1).push(t2).push(t3).push(t4).push(t5).push(t6).push(t7).push(t8).push(t9).push(t10).push(t11).push(t12).push(t13).push(t14).push(t15).push(t16).push(t17).push(t18).push(t19).push(t20).push(t21).push(t22).push(t23).push(t24).push(t25).push(t26).push(t27).push(t28).push(t29).push(t30).push(t31).push(t32).push(t33).push(t34).push(t35).push(t36).push(t37).push(t38).push(t39).push(t40), t41);
    lemma_concat_push(p0.push(t0).push(t1).push(t2).push(t3).push(t4).push(t5).push(t6).push(t7).push(t8).push(t9).push(t10).push(t11).push(t12).push(t13).push(t14).push(t15).push(t16).push(t17).push(t18).push(t19).push(t20).push(t21).push(t22).push(t23).push(t24).push(t25).push(t26).push(t27).push(t28).push(t29).push(t30).push(t31).push(t32).push(t33).push(t34).push(t35).push(t36).push(t37).push(t38).push(t39).push(t40).push(t41), t42);
    lemma_concat_push(p0.push(t0).push(t1).push(t2).push(t3).push(t4).push(t5).push(t6).push(t7).push(t8).push(t9).push(t10).push(t11).push(t12).push(t13).push(t14).push(t15).push(t16).push(t17).push(t18).push(t19).push(t20).push(t21).push(t22).push(t23).push(t24).push(t25).push(t26).push(t27).push(t28).push(t29).push(t30).push(t31).push(t32).push(t33).push(t34).push(t35).push(t36).push(t37).push(t38).push(t39).push(t40).push(t41).push(t42), t43);
    lemma_concat_push(p0.push(t0).push(t1).push(t2).push(t3).push(t4).push(t5).push(t6).push(t7).push(t8).push(t9).push(t10).push(t11).push(t12).push(t13).push(t14).push(t15).push(t16).push(t17).push(t18).push(t19).push(t20).push(t21).push(t22).push(t23).push(t24).push(t25).push(t26).push(t27).push(t28).push(t29).push(t30).push(t31).push(t32).push(t33).push(t34).push(t35).push(t36).push(t37).push(t38).push(t39).push(t40).push(t41).push(t42).push(t43), t44);
    lemma_concat_push(p0.push(t0).push(t1).push(t2).push(t3).push(t4).push(t5).push(t6).push(t7).push(t8).push(t9).push(t10).push(t11).push(t12).push(t13).push(t14).push(t15).push(t16).push(t17).push(t18).push(t19).push(t20).push(t21).push(t22).push(t23).push(t24).push(t25).push(t26).push(t27).push(t28).push(t29).push(t30).push(t31).push(t32).push(t33).push(t34).push(t35).push(t36).push(t37).push(t38).push(t39).push(t40).push(t41).push(t42).push(t43).push(t44), t45);
    lemma_concat_push(p0.push(t0).push(t1).push(t2).push(t3).push(t4).push(t5).push(t6).push(t7).push(t8).push(t9).push(t10).push(t11).push(t12).push(t13).push(t14).push(t15).push(t16).push(t17).push(t18).push(t19).push(t20).push(t21).push(t22).push(t23).push(t24).push(t25).push(t26).push(t27).push(t28).push(t29).push(t30).push(t31).push(t32).push(t33).push(t34).push(t35).push(t36).push(t37).push(t38).push(t39).push(t40).push(t41).push(t42).push(t43).push(t44).push(t45), t46);
    lemma_concat_push(p0.push(t0).push(t1).push(t2).push(t3).push(t4).push(t5).push(t6).push(t7).push(t8).push(t9).push(t10).push(t11).push(t12).push(t13).push(t14).push(t15).push(t16).push(t17).push(t18).push(t19).push(t20).push(t21).push(t22).push(t23).push(t24).push(t25).push(t26).push(t27).push(t28).push(t29).push(t30).push(t31).push(t32).push(t33).push(t34).push(t35).push(t36).push(t37).push(t38).push(t39).push(t40).push(t41).push(t42).push(t43).push(t44).push(t45).push(t46), t47);
    lemma_concat_push(p0.push(t0).push(t1).push(t2).push(t3).push(t4).push(t5).push(t6).push(t7).push(t8).push(t9).push(t10).push(t11).push(t12).push(t13).push(t14).push(t15).push(t16).push(t17).push(t18).push(t19).push(t20).push(t21).push(t22).push(t23).push(t24).push(t25).push(t26).push(t27).push(t28).push(t29).push(t30).push(t31).push(t32).push(t33).push(t34).push(t35).push(t36).push(t37).push(t38).push(t39).push(t40).push(t41).push(t42).push(t43).push(t44).push(t45).push(t46).push(t47), t48);
    lemma_concat_push(p0.push(t0).push(t1).push(t2).push(t3).push(t4).push(t5).push(t6).push(t7).push(t8).push(t9).push(t10).push(t11).push(t12).push(t13).push(t14).push(t15).push(t16).push(t17).push(t18).push(t19).push(t20).push(t21).push(t22).push(t23).push(t24).push(t25).push(t26).push(t27).push(t28).push(t29).push(t30).push(t31).push(t32).push(t33).push(t34).push(t35).push(t36).push(t37).push(t38).push(t39).push(t40).push(t41).push(t42).push(t43).push(t44).push(t45).push(t46).push(t47).push(t48), t49);
    lemma_concat_push(p0.push(t0).push(t1).push(t2).push(t3).push(t4).push(t5).push(t6).push(t7).push(t8).push(t9).push(t10).push(t11).push(t12).push(t13).push(t14).push(t15).push(t16).push(t17).push(t18).push(t19).push(t20).push(t21).push(t22).push(t23).push(t24).push(t25).push(t26).push(t27).push(t28).push(t29).push(t30).push(t31).push(t32).push(t33).push(t34).push(t35).push(t36).push(t37).push(t38).push(t39).push(t40).push(t41).push(t42).push(t43).push(t44).push(t45).push(t46).push(t47).push(t48).push(t49), t50);
    lemma_concat_push(p0.push(t0).push(t1).push(t2).push(t3).push(t4).push(t5).push(t6).push(t7).push(t8).push(t9).push(t10).push(t11).push(t12).push(t13).push(t14).push(t15).push(t16).push(t17).push(t18).push(t19).push(t20).push(t21).push(t22).push(t23).push(t24).push(t25).push(t26).push(t27).push(t28).push(t29).push(t30).push(t31).push(t32).push(t33).push(t34).push(t35).push(t36).push(t37).push(t38).push(t39).push(t40).push(t41).push(t42).push(t43).push(t44).push(t45).push(t46).push(t47).push(t48).push(t49).push(t50), t51);
    lemma_concat_push(p0.push(t0).push(t1).push(t2).push(t3).push(t4).push(t5).push(t6).push(t7).push(t8).push(t9).push(t10).push(t11).push(t12).push(t13).push(t14).push(t15).push(t16).push(t17).push(t18).push(t19).push(t20).push(t21).push(t22).push(t23).push(t24).push(t25).push(t26).push(t27).push(t28).push(t29).push(t30).push(t31).push(t32).push(t33).push(t34).push(t35).push(t36).push(t37).push(t38).push(t39).push(t40).push(t41).push(t42).push(t43).push(t44).push(t45).push(t46).push(t47).push(t48).push(t49).push(t50).push(t51), t52);
    lemma_concat_push(p0.push(t0).push(t1).push(t2).push(t3).push(t4).push(t5).push(t6).push(t7).push(t8).push(t9).push(t10).push(t11).push(t12).push(t13).push(t14).push(t15).push(t16).push(t17).push(t18).push(t19).push(t20).push(t21).push(t22).push(t23).push(t24).push(t25).push(t26).push(t27).push(t28).push(t29).push(t30).push(t31).push(t32).push(t33).push(t34).push(t35).push(t36).push(t37).push(t38).push(t39).push(t40).push(t41).push(t42).push(t43).push(t44).push(t45).push(t46).push(t47).push(t48).push(t49).push(t50).push(t51).push(t52), t53);
    lemma_concat_push(p0.push(t0).push(t1).push(t2).push(t3).push(t4).push(t5).push(t6).push(t7).push(t8).push(t9).push(t10).push(t11).push(t12).push(t13).push(t14).push(t15).push(t16).push(t17).push(t18).push(t19).push(t20).push(t21).push(t22).push(t23).push(t24).push(t25).push(t26).push(t27).push(t28).push(t29).push(t30).push(t31).push(t32).push(t33).push(t34).push(t35).push(t36).push(t37).push(t38).push(t39).push(t40).push(t41).push(t42).push(t43).push(t44).push(t45).push(t46).push(t47).push(t48).push(t49).push(t50).push(t51).push(t52).push(t53), t54);
    lemma_concat_push(p0.push(t0).push(t1).push(t2).push(t3).push(t4).push(t5).push(t6).push(t7).push(t8).push(t9).push(t10).push(t11).push(t12).push(t13).push(t14).push(t15).push(t16).push(t17).push(t18).push(t19).push(t20).push(t21).push(t22).push(t23).push(t24).push(t25).push(t26).push(t27).push(t28).push(t29).push(t30).push(t31).push(t32).push(t33).push(t34).push(t35).push(t36).push(t37).push(t38).push(t39).push(t40).push(t41).push(t42).push(t43).push(t44).push(t45).push(t46).push(t47).push(t48).push(t49).push(t50).push(t51).push(t52).push(t53).push(t54), t55);
    lemma_concat_push(p0.push(t0).push(t1).push(t2).push(t3).push(t4).push(t5).push(t6).push(t7).push(t8).push(t9).push(t10).push(t11).push(t12).push(t13).push(t14).push(t15).push(t16).push(t17).push(t18).push(t19).push(t20).push(t21).push(t22).push(t23).push(t24).push(t25).push(t26).push(t27).push(t28).push(t29).push(t30).push(t31).push(t32).push(t33).push(t34).push(t35).push(t36).push(t37).push(t38).push(t39).push(t40).push(t41).push(t42).push(t43).push(t44).push(t45).push(t46).push(t47).push(t48).push(t49).push(t50).push(t51).push(t52).push(t53).push(t54).push(t55), t56);
    lemma_concat_push(p0.push(t0).push(t1).push(t2).push(t3).push(t4).push(t5).push(t6).push(t7).push(t8).push(t9).push(t10).push(t11).push(t12).push(t13).push(t14).push(t15).push(t16).push(t17).push(t18).push(t19).push(t20).push(t21).push(t22).push(t23).push(t24).push(t25).push(t26).push(t27).push(t28).push(t29).push(t30).push(t31).push(t32).push(t33).push(t34).push(t35).push(t36).push(t37).push(t38).push(t39).push(t40).push(t41).push(t42).push(t43).push(t44).push(t45).push(t46).push(t47).push(t48).push(t49).push(t50).push(t51).push(t52).push(t53).push(t54).push(t55).push(t56), t57);
    lemma_concat_push(p0.push(t0).push(t1).push(t2).push(t3).push(t4).push(t5).push(t6).push(t7).push(t8).push(t9).push(t10).push(t11).push(t12).push(t13).push(t14).push(t15).push(t16).push(t17).push(t18).push(t19).push(t20).push(t21).push(t22).push(t23).push(t24).push(t25).push(t26).push(t27).push(t28).push(t29).push(t30).push(t31).push(t32).push(t33).push(t34).push(t35).push(t36).push(t37).push(t38).push(t39).push(t40).push(t41).push(t42).push(t43).push(t44).push(t45).push(t46).push(t47).push(t48).push(t49).push(t50).push(t51).push(t52).push(t53).push(t54).push(t55).push(t56).push(t57), t58);
    lemma_concat_push(p0.push(t0).push(t1).push(t2).push(t3).push(t4).push(t5).push(t6).push(t7).push(t8).push(t9).push(t10).push(t11).push(t12).push(t13).push(t14).push(t15).push(t16).push(t17).push(t18).push(t19).push(t20).push(t21).push(t22).push(t23).push(t24).push(t25).push(t26).push(t27).push(t28).push(t29).push(t30).push(t31).push(t32).push(t33).push(t34).push(t35).push(t36).push(t37).push(t38).push(t39).push(t40).push(t41).push(t42).push(t43).push(t44).push(t45).push(t46).push(t47).push(t48).push(t49).push(t50).push(t51).push(t52).push(t53).push(t54).push(t55).push(t56).push(t57).push(t58), t59);
    assert(parts =~= p0.push(t0).push(t1).push(t2).push(t3).push(t4).push(t5).push(t6).push(t7).push(t8).push(t9).push(t10).push(t11).push(t12).push(t13).push(t14).push(t15).push(t16).push(t17).push(t18).push(t19).push(t20).push(t21).push(t22).push(t23).push(t24).push(t25).push(t26).push(t27).push(t28).push(t29).push(t30).push(t31).push(t32).push(t33).push(t34).push(t35).push(t36).push(t37).push(t38).push(t39).push(t40).push(t41).push(t42).push(t43).push(t44).push(t45).push(t46).push(t47).push(t48).push(t49).push(t50).push(t51).push(t52).push(t53).push(t54).push(t55).push(t56).push(t57).push(t58).push(t59));
}

/// Three consecutive parts stand together in the concatenation of all parts.
proof fn lemma_three_parts(parts: Seq<Seq<char>>, a: int)
    requires
        0 <= a,
        a + 3 <= parts.len(),
    ensures
        occurs_in(parts[a] + parts[a + 1] + parts[a + 2], concat_parts(parts)),
{
    lemma_parts_run(parts, a, a + 3);
    assert(parts.subrange(a, a + 3) =~= seq![parts[a], parts[a + 1], parts[a + 2]]);
    lemma_concat_three(parts[a], parts[a + 1], parts[a + 2]);
    assert(occurs_at(parts[a] + parts[a + 1] + parts[a + 2], concat_parts(parts), total_len(parts.take(a)) as int));
}

/// Four consecutive parts stand together in the concatenation of all parts.
proof fn lemma_four_parts(parts: Seq<Seq<char>>, a: int)
    requires
        0 <= a,
        a + 4 <= parts.len(),
    ensures
        occurs_in(parts[a] + parts[a + 1] + parts[a + 2] + parts[a + 3], concat_parts(parts)),
{
    lemma_parts_run(parts, a, a + 4);
    assert(parts.subrange(a, a + 4) =~= seq![parts[a], parts[a + 1], parts[a + 2], parts[a + 3]]);
    lemma_concat_four(parts[a], parts[a + 1], parts[a + 2], parts[a + 3]);
    assert(occurs_at(
        parts[a] + parts[a + 1] + parts[a + 2] + parts[a + 3],
        concat_parts(parts),
        total_len(parts.take(a)) as int,
    ));
}

/// Each labelled line of a certificate's rendering carries its own field:
/// every field's text stands right after its label and right before the
/// label that follows it (the flag names after the hexadecimal flags, the
/// leaf note after the path length).
pub proof fn lemma_certificate_lines(c: CertificateSummaryModel, flags: Seq<(u64, Seq<char>)>)
    ensures
        occurs_in("Serial Number (SHA384): "@ + c.serial_no + "\nUsage Flags:            0x"@, certificate_text(c, flags)),
        occurs_in("\nUsage Flags:            0x"@ + hex_padded_text(c.usage_flags as nat, 8) + usage_text(c.usage_flags, flags) + "\nTimestamp:              "@, certificate_text(c, flags)),
        occurs_in("\nTimestamp:              "@ + decimal_text(c.timestamp as int) + "\nValidity:               "@, certificate_text(c, flags)),
        occurs_in("\nValidity:               "@ + decimal_text(c.validity_start as int) + " to "@, certificate_text(c, flags)),
        occurs_in(" to "@ + decimal_text(c.validity_end as int) + "\nSubject\n  Timestamp:            "@, certificate_text(c, flags)),
        occurs_in("\nSubject\n  Timestamp:            "@ + decimal_text(c.subject_timestamp as int) + "\n  Identities"@, certificate_text(c, flags)),
        occurs_in("\n  Identities"@ + identities_text(c.identities) + "\n  Networks"@, certificate_text(c, flags)),
        occurs_in("\n  Networks"@ + networks_text(c.networks) + "\n  Update URLs"@, certificate_text(c, flags)),
        occurs_in("\n  Update URLs"@ + urls_text(c.update_urls) + "\n  Name\n    Serial:             "@, certificate_text(c, flags)),
        occurs_in("\n  Name\n    Serial:             "@ + or_dash(c.name.serial_no) + "\n    Common Name:        "@, certificate_text(c, flags)),
        occurs_in("\n    Common Name:        "@ + or_dash(c.name.common_name) + "\n    Country:            "@, certificate_text(c, flags)),
        occurs_in("\n    Country:            "@ + or_dash(c.name.country) + "\n    Organization:       "@, certificate_text(c, flags)),
        occurs_in("\n    Organization:       "@ + or_dash(c.name.organization) + "\n    Unit:               "@, certificate_text(c, flags)),
        occurs_in("\n    Unit:               "@ + or_dash(c.name.unit) + "\n    Locality:           "@, certificate_text(c, flags)),
        occurs_in("\n    Locality:           "@ + or_dash(c.name.locality) + "\n    State/Province:     "@, certificate_text(c, flags)),
        occurs_in("\n    State/Province:     "@ + or_dash(c.name.province) + "\n    Street Address:     "@, certificate_text(c, flags)),
        occurs_in("\n    Street Address:     "@ + or_dash(c.name.street_address) + "\n    Postal Code:        "@, certificate_text(c, flags)),
        occurs_in("\n    Postal Code:        "@ + or_dash(c.name.postal_code) + "\n    E-Mail:             "@, certificate_text(c, flags)),
        occurs_in("\n    E-Mail:             "@ + or_dash(c.name.email) + "\n    URL:                "@, certificate_text(c, flags)),
        occurs_in("\n    URL:                "@ + or_dash(c.name.url) + "\n    Host:               "@, certificate_text(c, flags)),
        occurs_in("\n    Host:               "@ + or_dash(c.name.host) + "\n  Unique ID:            "@, certificate_text(c, flags)),
        occurs_in("\n  Unique ID:            "@ + or_dash(c.unique_id) + "\n  Unique ID Signature:  "@, certificate_text(c, flags)),
        occurs_in("\n  Unique ID Signature:  "@ + or_dash(c.unique_id_signature) + "\nIssuer:                 "@, certificate_text(c, flags)),
        occurs_in("\nIssuer:                 "@ + c.issuer + "\nIssuer Public Key:      "@, certificate_text(c, flags)),
        occurs_in("\nIssuer Public Key:      "@ + or_dash(c.issuer_public_key) + "\nPublic Key:             "@, certificate_text(c, flags)),
        occurs_in("\nPublic Key:             "@ + or_dash(c.public_key) + "\nExtended Attributes:    "@, certificate_text(c, flags)),
        occurs_in("\nExtended Attributes:    "@ + decimal_text(c.extended_attributes_len as int) + " bytes\nSignature:              "@, certificate_text(c, flags)),
        occurs_in(" bytes\nSignature:              "@ + or_dash(c.signature) + "\nMaximum Path Length:    "@, certificate_text(c, flags)),
        occurs_in("\nMaximum Path Length:    "@ + decimal_text(c.max_path_length as int) + path_length_note(c.max_path_length), certificate_text(c, flags)),
{
    lemma_certificate_lines_0(c, flags);
    lemma_certificate_lines_1(c, flags);
    lemma_certificate_lines_2(c, flags);
    lemma_certificate_lines_3(c, flags);
}

#[verifier::rlimit(50)]
proof fn lemma_certificate_lines_0(c: CertificateSummaryModel, flags: Seq<(u64, Seq<char>)>)
    ensures
        occurs_in("Serial Number (SHA384): "@ + c.serial_no + "\nUsage Flags:            0x"@, certificate_text(c, flags)),
        occurs_in("\nUsage Flags:            0x"@ + hex_padded_text(c.usage_flags as nat, 8) + usage_text(c.usage_flags, flags) + "\nTimestamp:              "@, certificate_text(c, flags)),
        occurs_in("\nTimestamp:              "@ + decimal_text(c.timestamp as int) + "\nValidity:               "@, certificate_text(c, flags)),
        occurs_in("\nValidity:               "@ + decimal_text(c.validity_start as int) + " to "@, certificate_text(c, flags)),
        occurs_in(" to "@ + decimal_text(c.validity_end as int) + "\nSubject\n  Timestamp:            "@, certificate_text(c, flags)),
        occurs_in("\nSubject\n  Timestamp:            "@ + decimal_text(c.subject_timestamp as int) + "\n  Identities"@, certificate_text(c, flags)),
        occurs_in("\n  Identities"@ + identities_text(c.identities) + "\n  Networks"@, certificate_text(c, flags)),
        occurs_in("\n  Networks"@ + networks_text(c.networks) + "\n  Update URLs"@, certificate_text(c, flags)),
{
    let parts = certificate_parts(c, flags);
    lemma_certificate_parts(c, flags);
    lemma_three_parts(parts, 0);
    lemma_four_parts(parts, 2);
    lemma_three_parts(parts, 5);
    lemma_three_parts(parts, 7);
    lemma_three_parts(parts, 9);
    lemma_three_parts(parts, 11);
    lemma_three_parts(parts, 13);
    lemma_three_parts(parts, 15);
}

#[verifier::rlimit(50)]
proof fn lemma_certificate_lines_1(c: CertificateSummaryModel, flags: Seq<(u64, Seq<char>)>)
    ensures
        occurs_in("\n  Update URLs"@ + urls_text(c.update_urls) + "\n  Name\n    Serial:             "@, certificate_text(c, flags)),
        occurs_in("\n  Name\n    Serial:             "@ + or_dash(c.name.serial_no) + "\n    Common Name:        "@, certificate_text(c, flags)),
        occurs_in("\n    Common Name:        "@ + or_dash(c.name.common_name) + "\n    Country:            "@, certificate_text(c, flags)),
        occurs_in("\n    Country:            "@ + or_dash(c.name.country) + "\n    Organization:       "@, certificate_text(c, flags)),
        occurs_in("\n    Organization:       "@ + or_dash(c.name.organization) + "\n    Unit:               "@, certificate_text(c, flags)),
        occurs_in("\n    Unit:               "@ + or_dash(c.name.unit) + "\n    Locality:           "@, certificate_text(c, flags)),
        occurs_in("\n    Locality:           "@ + or_dash(c.name.locality) + "\n    State/Province:     "@, certificate_text(c, flags)),
        occurs_in("\n    State/Province:     "@ + or_dash(c.name.province) + "\n    Street Address:     "@, certificate_text(c, flags)),
{
    let parts = certificate_parts(c, flags);
    lemma_certificate_parts(c, flags);
    lemma_three_parts(parts, 17);
    lemma_three_parts(parts, 19);
    lemma_three_parts(parts, 21);
    lemma_three_parts(parts, 23);
    lemma_three_parts(parts, 25);
    lemma_three_parts(parts, 27);
    lemma_three_parts(parts, 29);
    lemma_three_parts(parts, 31);
}

#[verifier::rlimit(50)]
proof fn lemma_certificate_lines_2(c: CertificateSummaryModel, flags: Seq<(u64, Seq<char>)>)
    ensures
        occurs_in("\n    Street Address:     "@ + or_dash(c.name.street_address) + "\n    Postal Code:        "@, certificate_text(c, flags)),
        occurs_in("\n    Postal Code:        "@ + or_dash(c.name.postal_code) + "\n    E-Mail:             "@, certificate_text(c, flags)),
        occurs_in("\n    E-Mail:             "@ + or_dash(c.name.email) + "\n    URL:                "@, certificate_text(c, flags)),
        occurs_in("\n    URL:                "@ + or_dash(c.name.url) + "\n    Host:               "@, certificate_text(c, flags)),
        occurs_in("\n    Host:               "@ + or_dash(c.name.host) + "\n  Unique ID:            "@, certificate_text(c, flags)),
        occurs_in("\n  Unique ID:            "@ + or_dash(c.unique_id) + "\n  Unique ID Signature:  "@, certificate_text(c, flags)),
        occurs_in("\n  Unique ID Signature:  "@ + or_dash(c.unique_id_signature) + "\nIssuer:                 "@, certificate_text(c, flags)),
        occurs_in("\nIssuer:                 "@ + c.issuer + "\nIssuer Public Key:      "@, certificate_text(c, flags)),
{
    let parts = certificate_parts(c, flags);
    lemma_certificate_parts(c, flags);
    lemma_three_parts(parts, 33);
    lemma_three_parts(parts, 35);
    lemma_three_parts(parts, 37);
    lemma_three_parts(parts, 39);
    lemma_three_parts(parts, 41);
    lemma_three_parts(parts, 43);
    lemma_three_parts(parts, 45);
    lemma_three_parts(parts, 47);
}

#[verifier::rlimit(50)]
proof fn lemma_certificate_lines_3(c: CertificateSummaryModel, flags: Seq<(u64, Seq<char>)>)
    ensures
        occurs_in("\nIssuer Public Key:      "@ + or_dash(c.issuer_public_key) + "\nPublic Key:             "@, certificate_text(c, flags)),
        occurs_in("\nPublic Key:             "@ + or_dash(c.public_key) + "\nExtended Attributes:    "@, certificate_text(c, flags)),
        occurs_in("\nExtended Attributes:    "@ + decimal_text(c.extended_attributes_len as int) + " bytes\nSignature:              "@, certificate_text(c, flags)),
        occurs_in(" bytes\nSignature:              "@ + or_dash(c.signature) + "\nMaximum Path Length:    "@, certificate_text(c, flags)),
        occurs_in("\nMaximum Path Length:    "@ + decimal_text(c.max_path_length as int) + path_length_note(c.max_path_length), certificate_text(c, flags)),
{
    let parts = certificate_parts(c, flags);
    lemma_certificate_parts(c, flags);
    lemma_three_parts(parts, 49);
    lemma_three_parts(parts, 51);
    lemma_three_parts(parts, 53);
    lemma_three_parts(parts, 55);
    lemma_three_parts(parts, 57);
}

/// The parts one after another.
pub open spec fn concat_parts(parts: Seq<Seq<char>>) -> Seq<char>
    decreases parts.len(),
{
    if parts.len() == 0 {
        Seq::empty()
    } else {
        concat_parts(parts.drop_last()) + parts.last()
    }
}

/// The total length of the parts.
pub open spec fn total_len(parts: Seq<Seq<char>>) -> nat
    decreases parts.len(),
{
    if parts.len() == 0 {
        0
    } else {
        total_len(parts.drop_last()) + parts.last().len()
    }
}

/// Parts laid one after another: each part stands right after the ones
/// before it, and nothing else is there.
proof fn lemma_parts_layout(parts: Seq<Seq<char>>)
    ensures
        concat_parts(parts).len() == total_len(parts),
        forall|i: int|
            0 <= i < parts.len() ==> occurs_at(
                #[trigger] parts[i],
                concat_parts(parts),
                total_len(parts.take(i)) as int,
            ),
    decreases parts.len(),
{
    if parts.len() > 0 {
        let init = parts.drop_last();
        lemma_parts_layout(init);
        assert(parts.take(parts.len() - 1) =~= init);
        assert forall|i: int| 0 <= i < parts.len() implies occurs_at(
            #[trigger] parts[i],
            concat_parts(parts),
            total_len(parts.take(i)) as int,
        ) by {
            if i < parts.len() - 1 {
                assert(init[i] == parts[i]);
                assert(init.take(i) =~= parts.take(i));
                lemma_occurs_extend(init[i], concat_parts(init), parts.last(), total_len(init.take(i)) as int);
            } else {
                lemma_occurs_after(concat_parts(init), parts.last());
            }
        }
    }
}

/// The line of a subject identity: the identity, then its locator if any.
pub open spec fn identity_line(x: (Seq<char>, Option<Seq<char>>)) -> Seq<char> {
    "\n    "@ + x.0 + match x.1 {
        Some(l) => " "@ + l,
        None => Seq::empty(),
    }
}

/// The line of a subject network: the network ID, then "at" and the
/// controller's fingerprint if any.
pub open spec fn network_line(x: (Seq<char>, Option<Seq<char>>)) -> Seq<char> {
    "\n    "@ + x.0 + match x.1 {
        Some(c) => " at "@ + c,
        None => Seq::empty(),
    }
}

/// The line of an update URL.
pub open spec fn url_line(u: Seq<char>) -> Seq<char> {
    "\n    "@ + u
}

/// What a usage flag contributes: a comma and its name when its bit is set
/// in `flags`, else nothing.
pub open spec fn flag_part(flags: u64, f: (u64, Seq<char>)) -> Seq<char> {
    if flags & f.0 != 0 {
        ","@ + f.1
    } else {
        Seq::empty()
    }
}

proof fn lemma_identity_lines_parts(ids: Seq<(Seq<char>, Option<Seq<char>>)>)
    ensures
        identity_lines(ids) == concat_parts(ids.map_values(|x: (Seq<char>, Option<Seq<char>>)| identity_line(x))),
    decreases ids.len(),
{
    let f = |x: (Seq<char>, Option<Seq<char>>)| identity_line(x);
    if ids.len() > 0 {
        lemma_identity_lines_parts(ids.drop_last());
        assert(ids.map_values(f).drop_last() =~= ids.drop_last().map_values(f));
    } else {
        assert(ids.map_values(f) =~= Seq::empty());
    }
}

proof fn lemma_network_lines_parts(nets: Seq<(Seq<char>, Option<Seq<char>>)>)
    ensures
        network_lines(nets) == concat_parts(nets.map_values(|x: (Seq<char>, Option<Seq<char>>)| network_line(x))),
    decreases nets.len(),
{
    let f = |x: (Seq<char>, Option<Seq<char>>)| network_line(x);
    if nets.len() > 0 {
        lemma_network_lines_parts(nets.drop_last());
        assert(nets.map_values(f).drop_last() =~= nets.drop_last().map_values(f));
    } else {
        assert(nets.map_values(f) =~= Seq::empty());
    }
}

proof fn lemma_url_lines_parts(urls: Seq<Seq<char>>)
    ensures
        url_lines(urls) == concat_parts(urls.map_values(|u: Seq<char>| url_line(u))),
    decreases urls.len(),
{
    let f = |u: Seq<char>| url_line(u);
    if urls.len() > 0 {
        lemma_url_lines_parts(urls.drop_last());
        assert(urls.map_values(f).drop_last() =~= urls.drop_last().map_values(f));
    } else {
        assert(urls.map_values(f) =~= Seq::empty());
    }
}

proof fn lemma_usage_names_parts(flags: u64, table: Seq<(u64, Seq<char>)>)
    ensures
        usage_names(flags, table) == concat_parts(table.map_values(|f: (u64, Seq<char>)| flag_part(flags, f))),
    decreases table.len(),
{
    let g = |f: (u64, Seq<char>)| flag_part(flags, f);
    if table.len() > 0 {
        lemma_usage_names_parts(flags, table.drop_last());
        assert(table.map_values(g).drop_last() =~= table.drop_last().map_values(g));
    } else {
        assert(table.map_values(g) =~= Seq::empty());
    }
}

/// The networks section lists every network, in order, on a line of its
/// own: "\n    ", its ID, then " at " and its controller if it has one.
/// Line `i` starts right after the lines of the networks before it, and
/// the section holds nothing else; with no networks it says "(none)".
pub proof fn lemma_networks_listed(nets: Seq<(Seq<char>, Option<Seq<char>>)>)
    ensures
        nets.len() == 0 ==> networks_text(nets) == ":             (none)"@,
        nets.len() > 0 ==> networks_text(nets).len() == total_len(
            nets.map_values(|x: (Seq<char>, Option<Seq<char>>)| network_line(x)),
        ),
        nets.len() > 0 ==> forall|i: int|
            0 <= i < nets.len() ==> occurs_at(
                network_line(#[trigger] nets[i]),
                networks_text(nets),
                total_len(nets.take(i).map_values(|x: (Seq<char>, Option<Seq<char>>)| network_line(x))) as int,
            ),
{
    let f = |x: (Seq<char>, Option<Seq<char>>)| network_line(x);
    let parts = nets.map_values(f);
    lemma_network_lines_parts(nets);
    lemma_parts_layout(parts);
    assert forall|i: int| 0 <= i < nets.len() implies occurs_at(
        network_line(#[trigger] nets[i]),
        networks_text(nets),
        total_len(nets.take(i).map_values(f)) as int,
    ) by {
        assert(parts[i] == network_line(nets[i]));
        assert(parts.take(i) =~= nets.take(i).map_values(f));
    }
}

/// The identities section lists every identity, in order, on a line of its
/// own: "\n    ", the identity, then " " and its locator if it has one.
/// Line `i` starts right after the lines of the identities before it, and
/// the section holds nothing else; with no identities it says "(none)".
pub proof fn lemma_identities_listed(ids: Seq<(Seq<char>, Option<Seq<char>>)>)
    ensures
        ids.len() == 0 ==> identities_text(ids) == ":           (none)"@,
        ids.len() > 0 ==> identities_text(ids).len() == total_len(
            ids.map_values(|x: (Seq<char>, Option<Seq<char>>)| identity_line(x)),
        ),
        ids.len() > 0 ==> forall|i: int|
            0 <= i < ids.len() ==> occurs_at(
                identity_line(#[trigger] ids[i]),
                identities_text(ids),
                total_len(ids.take(i).map_values(|x: (Seq<char>, Option<Seq<char>>)| identity_line(x))) as int,
            ),
{
    let f = |x: (Seq<char>, Option<Seq<char>>)| identity_line(x);
    let parts = ids.map_values(f);
    lemma_identity_lines_parts(ids);
    lemma_parts_layout(parts);
    assert forall|i: int| 0 <= i < ids.len() implies occurs_at(
        identity_line(#[trigger] ids[i]),
        identities_text(ids),
        total_len(ids.take(i).map_values(f)) as int,
    ) by {
        assert(parts[i] == identity_line(ids[i]));
        assert(parts.take(i) =~= ids.take(i).map_values(f));
    }
}

/// The update URLs section lists every URL, in order, on a line of its own
/// after "\n    "; line `i` starts right after the lines before it, and the
/// section holds nothing else; with no URLs it says "(none)".
pub proof fn lemma_urls_listed(urls: Seq<Seq<char>>)
    ensures
        urls.len() == 0 ==> urls_text(urls) == ":          (none)"@,
        urls.len() > 0 ==> urls_text(urls).len() == total_len(urls.map_values(|u: Seq<char>| url_line(u))),
        urls.len() > 0 ==> forall|i: int|
            0 <= i < urls.len() ==> occurs_at(
                url_line(#[trigger] urls[i]),
                urls_text(urls),
                total_len(urls.take(i).map_values(|u: Seq<char>| url_line(u))) as int,
            ),
{
    let f = |u: Seq<char>| url_line(u);
    let parts = urls.map_values(f);
    lemma_url_lines_parts(urls);
    lemma_parts_layout(parts);
    assert forall|i: int| 0 <= i < urls.len() implies occurs_at(
        url_line(#[trigger] urls[i]),
        urls_text(urls),
        total_len(urls.take(i).map_values(f)) as int,
    ) by {
        assert(parts[i] == url_line(urls[i]));
        assert(parts.take(i) =~= urls.take(i).map_values(f));
    }
}

/// With some flag set, the usage text is " (", then for every entry of the
/// table, in order, a comma and its name exactly when its bit is set in
/// `flags`, then ")"; every set flag of the table is named. With no flag
/// set it is empty.
pub proof fn lemma_usage_flags_named(flags: u64, table: Seq<(u64, Seq<char>)>)
    ensures
        flags == 0 ==> usage_text(flags, table).len() == 0,
        flags != 0 ==> usage_text(flags, table).len() == 3 + total_len(
            table.map_values(|f: (u64, Seq<char>)| flag_part(flags, f)),
        ),
        flags != 0 ==> usage_text(flags, table).subrange(0, 2) == " ("@,
        flags != 0 ==> usage_text(flags, table).last() == ')',
        flags != 0 ==> forall|i: int|
            0 <= i < table.len() ==> occurs_at(
                flag_part(flags, #[trigger] table[i]),
                usage_text(flags, table),
                2 + total_len(table.take(i).map_values(|f: (u64, Seq<char>)| flag_part(flags, f))) as int,
            ),
        flags != 0 ==> forall|i: int|
            0 <= i < table.len() && flags & (#[trigger] table[i]).0 != 0 ==> occurs_in(
                ","@ + table[i].1,
                usage_text(flags, table),
            ),
{
    if flags != 0 {
        let g = |f: (u64, Seq<char>)| flag_part(flags, f);
        let parts = table.map_values(g);
        let names = usage_names(flags, table);
        lemma_usage_names_parts(flags, table);
        lemma_parts_layout(parts);
        let text = usage_text(flags, table);
        reveal_strlit(" (");
        reveal_strlit(")");
        assert(text == " ("@ + names + ")"@);
        assert(text.subrange(0, 2) =~= " ("@);
        assert forall|i: int| 0 <= i < table.len() implies occurs_at(
            flag_part(flags, #[trigger] table[i]),
            text,
            2 + total_len(table.take(i).map_values(g)) as int,
        ) by {
            assert(parts[i] == flag_part(flags, table[i]));
            assert(parts.take(i) =~= table.take(i).map_values(g));
            let k = total_len(parts.take(i)) as int;
            lemma_occurs_after(" ("@, names);
            assert(occurs_at(parts[i], names, k));
            assert(text.subrange(2 + k, 2 + k + parts[i].len()) =~= names.subrange(k, k + parts[i].len()));
        }
        assert forall|i: int| 0 <= i < table.len() && flags & (#[trigger] table[i]).0 != 0 implies occurs_in(
            ","@ + table[i].1,
            text,
        ) by {
            let k: int = 2 + total_len(table.take(i).map_values(g)) as int;
            assert(occurs_at(flag_part(flags, table[i]), text, k));
            assert(text.subrange(k, k + (","@ + table[i].1).len() as int) == ","@ + table[i].1);
        }
    }
}

/// `s`, or `-` when `s` is empty.
pub fn string_or_dash(s: &str) -> (r: &str)
    ensures
        r@ == or_dash(s@),
{
    if s.is_empty() {
        "-"
    } else {
        s
    }
}

/// What follows the hexadecimal usage flags: nothing when no flag is set,
/// else the names of the set flags in parentheses.
pub fn usage_flags_text(flags: u64, table: &[UsageFlag]) -> (r: String)
    ensures
        r@ == usage_text(flags, table@.map_values(|f: UsageFlag| f@)),
{
    let ghost t = table@.map_values(|f: UsageFlag| f@);
    let mut out = String::new();
    if flags != 0 {
        out.append(" (");
        let mut i: usize = 0;
        while i < table.len()
            invariant
                i <= table@.len(),
                t == table@.map_values(|f: UsageFlag| f@),
                out@ == " ("@ + usage_names(flags, t.take(i as int)),
            decreases table@.len() - i,
        {
            let f = &table[i];
            assert(t.take(i + 1).drop_last() =~= t.take(i as int));
            if flags & f.bit != 0 {
                out.append(",");
                out.append(f.name.as_str());
            }
            i = i + 1;
            assert(out@ =~= " ("@ + usage_names(flags, t.take(i as int)));
        }
        assert(t.take(i as int) =~= t);
        out.append(")");
    }
    out
}

/// The identities part of the subject.
pub fn identities_section(ids: &Vec<SubjectIdentity>) -> (r: String)
    ensures
        r@ == identities_text(ids@.map_values(|x: SubjectIdentity| x@)),
{
    let ghost v = ids@.map_values(|x: SubjectIdentity| x@);
    if ids.len() == 0 {
        return ":           (none)".to_owned();
    }
    let mut out = String::new();
    let mut i: usize = 0;
    while i < ids.len()
        invariant
            i <= ids@.len(),
            v == ids@.map_values(|x: SubjectIdentity| x@),
            out@ == identity_lines(v.take(i as int)),
        decreases ids@.len() - i,
    {
        let x = &ids[i];
        assert(v.take(i + 1).drop_last() =~= v.take(i as int));
        out.append("\n    ");
        out.append(x.identity.as_str());
        match &x.locator {
            Some(l) => {
                out.append(" ");
                out.append(l.as_str());
            },
            None => {},
        }
        i = i + 1;
        assert(out@ =~= identity_lines(v.take(i as int)));
    }
    assert(v.take(i as int) =~= v);
    out
}

/// The networks part of the subject.
pub fn networks_section(nets: &Vec<SubjectNetwork>) -> (r: String)
    ensures
        r@ == networks_text(nets@.map_values(|x: SubjectNetwork| x@)),
{
    let ghost v = nets@.map_values(|x: SubjectNetwork| x@);
    if nets.len() == 0 {
        return ":             (none)".to_owned();
    }
    let mut out = String::new();
    let mut i: usize = 0;
    while i < nets.len()
        invariant
            i <= nets@.len(),
            v == nets@.map_values(|x: SubjectNetwork| x@),
            out@ == network_lines(v.take(i as int)),
        decreases nets@.len() - i,
    {
        let x = &nets[i];
        assert(v.take(i + 1).drop_last() =~= v.take(i as int));
        out.append("\n    ");
        out.append(x.id.as_str());
        match &x.controller {
            Some(c) => {
                out.append(" at ");
                out.append(c.as_str());
            },
            None => {},
        }
        i = i + 1;
        assert(out@ =~= network_lines(v.take(i as int)));
    }
    assert(v.take(i as int) =~= v);
    out
}

/// The update URLs part of the subject.
pub fn urls_section(urls: &Vec<String>) -> (r: String)
    ensures
        r@ == urls_text(urls@.map_values(|x: String| x@)),
{
    let ghost v = urls@.map_values(|x: String| x@);
    if urls.len() == 0 {
        return ":          (none)".to_owned();
    }
    let mut out = String::new();
    let mut i: usize = 0;
    while i < urls.len()
        invariant
            i <= urls@.len(),
            v == urls@.map_values(|x: String| x@),
            out@ == url_lines(v.take(i as int)),
        decreases urls@.len() - i,
    {
        assert(v.take(i + 1).drop_last() =~= v.take(i as int));
        out.append("\n    ");
        out.append(urls[i].as_str());
        i = i + 1;
        assert(out@ =~= url_lines(v.take(i as int)));
    }
    assert(v.take(i as int) =~= v);
    out
}

/// What follows the maximum path length: whether the certificate is a leaf.
pub fn path_length_note_text(max_path_length: u32) -> (r: &'static str)
    ensures
        r@ == path_length_note(max_path_length),
{
    if max_path_length == 0 {
        " (leaf)"
    } else {
        " (CA or sub-CA)"
    }
}

/// The human-readable rendering of a certificate, with the names of the
/// usage flags taken from `flags`.
pub fn certificate_text_of(c: &CertificateSummary, flags: &[UsageFlag]) -> (r: String)
    ensures
        r@ == certificate_text(c@, flags@.map_values(|f: UsageFlag| f@)),
{
    let mut out = "Serial Number (SHA384): ".to_owned();
    out.append(c.serial_no.as_str());
    out.append("\nUsage Flags:            0x");
    out.append(hex_padded(c.usage_flags, 8).as_str());
    out.append(usage_flags_text(c.usage_flags, flags).as_str());
    out.append("\nTimestamp:              ");
    out.append(i64_text(c.timestamp).as_str());
    out.append("\nValidity:               ");
    out.append(i64_text(c.validity_start).as_str());
    out.append(" to ");
    out.append(i64_text(c.validity_end).as_str());
    out.append("\nSubject\n  Timestamp:            ");
    out.append(i64_text(c.subject_timestamp).as_str());
    out.append("\n  Identities");
    out.append(identities_section(&c.identities).as_str());
    out.append("\n  Networks");
    out.append(networks_section(&c.networks).as_str());
    out.append("\n  Update URLs");
    out.append(urls_section(&c.update_urls).as_str());
    out.append("\n  Name\n    Serial:             ");
    out.append(string_or_dash(c.name.serial_no.as_str()));
    out.append("\n    Common Name:        ");
    out.append(string_or_dash(c.name.common_name.as_str()));
    out.append("\n    Country:            ");
    out.append(string_or_dash(c.name.country.as_str()));
    out.append("\n    Organization:       ");
    out.append(string_or_dash(c.name.organization.as_str()));
    out.append("\n    Unit:               ");
    out.append(string_or_dash(c.name.unit.as_str()));
    out.append("\n    Locality:           ");
    out.append(string_or_dash(c.name.locality.as_str()));
    out.append("\n    State/Province:     ");
    out.append(string_or_dash(c.name.province.as_str()));
    out.append("\n    Street Address:     ");
    out.append(string_or_dash(c.name.street_address.as_str()));
    out.append("\n    Postal Code:        ");
    out.append(string_or_dash(c.name.postal_code.as_str()));
    out.append("\n    E-Mail:             ");
    out.append(string_or_dash(c.name.email.as_str()));
    out.append("\n    URL:                ");
    out.append(string_or_dash(c.name.url.as_str()));
    out.append("\n    Host:               ");
    out.append(string_or_dash(c.name.host.as_str()));
    out.append("\n  Unique ID:            ");
    out.append(string_or_dash(c.unique_id.as_str()));
    out.append("\n  Unique ID Signature:  ");
    out.append(string_or_dash(c.unique_id_signature.as_str()));
    out.append("\nIssuer:                 ");
    out.append(c.issuer.as_str());
    out.append("\nIssuer Public Key:      ");
    out.append(string_or_dash(c.issuer_public_key.as_str()));
    out.append("\nPublic Key:             ");
    out.append(string_or_dash(c.public_key.as_str()));
    out.append("\nExtended Attributes:    ");
    out.append(u64_text(c.extended_attributes_len as u64).as_str());
    out.append(" bytes\nSignature:              ");
    out.append(string_or_dash(c.signature.as_str()));
    out.append("\nMaximum Path Length:    ");
    out.append(u64_text(c.max_path_length as u64).as_str());
    out.append(path_length_note_text(c.max_path_length));
    out
}

/// A certificate with a maximum path length of zero is marked a leaf, any
/// other a CA or sub-CA; an empty field is shown as a dash, any other as
/// itself.
pub proof fn lemma_notes_and_dashes(max_path_length: u32, s: Seq<char>)
    ensures
        max_path_length == 0 ==> path_length_note(max_path_length) == " (leaf)"@,
        max_path_length != 0 ==> path_length_note(max_path_length) == " (CA or sub-CA)"@,
        s.len() == 0 ==> or_dash(s) == "-"@,
        s.len() > 0 ==> or_dash(s) == s,
{
}

} // verus!
