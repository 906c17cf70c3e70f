use imgup::digest::{md5_hex, md5_plan, sidecar_name};

#[test]
fn empty_input_gives_the_empty_digest() {
    assert_eq!(md5_hex(&Vec::new()), "d41d8cd98f00b204e9800998ecf8427e");
}

#[test]
fn known_digest_of_abc() {
    assert_eq!(md5_hex(&b"abc".to_vec()), "900150983cd24fb0d6963f7d28e17f72");
}

#[test]
fn digest_is_deterministic() {
    let payload = b"the same bytes twice".to_vec();
    assert_eq!(md5_hex(&payload), md5_hex(&payload.clone()));
}

#[test]
fn digest_is_lowercase_hex_of_length_32() {
    let d = md5_hex(&b"anything".to_vec());
    assert_eq!(d.len(), 32);
    assert!(d.chars().all(|c| c.is_ascii_digit() || ('a'..='f').contains(&c)));
}

#[test]
fn sidecar_appends_the_fixed_suffix() {
    assert_eq!(sidecar_name("report.pdf"), "report.pdf_md5.txt");
}

#[test]
fn plan_for_report_pdf() {
    let plan = md5_plan("report.pdf", &b"report body".to_vec());
    assert_eq!(plan.sidecar, "report.pdf_md5.txt");
    assert_eq!(plan.digest, md5_hex(&b"report body".to_vec()));
    assert_eq!(plan.digest.len(), 32);
}
