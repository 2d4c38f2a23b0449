use std::path::PathBuf;

use moq_c2pa::{
    cert_hash_b64, decimal_string, manifest_sign_cert, resolve_cert_path, sign_outcome,
    ExitReport, SegmentSigner, SignerError,
};

#[test]
fn cert_hash_of_abc() {
    assert_eq!(cert_hash_b64(b"abc"), "ungWv48Bz+pBQUDeXa4iIw==");
}

#[test]
fn cert_hash_of_empty_input() {
    assert_eq!(cert_hash_b64(b""), "47DEQpj8HBSa+/TImW+5JA==");
}

#[test]
fn cert_hash_is_always_24_chars() {
    let pem = b"-----BEGIN CERTIFICATE-----\nMII\n-----END CERTIFICATE-----\n";
    let h = cert_hash_b64(pem);
    assert_eq!(h, "Gd6Nh/th7IbRiA6DSKNoxg==");
    assert_eq!(h.len(), 24);
    assert!(h.ends_with("=="));
    assert!(h[..22].chars().all(|c| c.is_ascii_alphanumeric() || c == '+' || c == '/'));
}

#[test]
fn manifest_with_sign_cert() {
    let r = manifest_sign_cert(r#"{"alg": "es256", "sign_cert": "certs/es256.pub"}"#);
    assert_eq!(r.unwrap(), "certs/es256.pub");
}

#[test]
fn manifest_not_json() {
    let r = manifest_sign_cert("{ not json");
    assert!(matches!(r, Err(SignerError::ManifestParse(_))));
}

#[test]
fn manifest_without_sign_cert() {
    let r = manifest_sign_cert(r#"{"alg": "es256"}"#);
    assert!(matches!(r, Err(SignerError::ManifestMissingField("sign_cert"))));
}

#[test]
fn manifest_sign_cert_not_a_string() {
    let r = manifest_sign_cert(r#"{"sign_cert": 42}"#);
    assert!(matches!(r, Err(SignerError::ManifestMissingField("sign_cert"))));
}

#[test]
fn manifest_not_an_object() {
    let r = manifest_sign_cert(r#"["sign_cert"]"#);
    assert!(matches!(r, Err(SignerError::ManifestMissingField("sign_cert"))));
}

#[test]
fn cert_path_is_relative_to_manifest_dir() {
    let r = resolve_cert_path(&PathBuf::from("/etc/c2pa/manifest"), "certs/es256.pub");
    assert_eq!(r.unwrap(), PathBuf::from("/etc/c2pa/certs/es256.pub"));
}

#[test]
fn cert_path_of_bare_file_name() {
    let r = resolve_cert_path(&PathBuf::from("c2pa-manifest"), "cert.pem");
    assert_eq!(r.unwrap(), PathBuf::from("cert.pem"));
}

#[test]
fn cert_path_without_parent() {
    assert!(matches!(resolve_cert_path(&PathBuf::from(""), "cert.pem"), Err(SignerError::InvalidPath)));
    assert!(matches!(resolve_cert_path(&PathBuf::from("/"), "cert.pem"), Err(SignerError::InvalidPath)));
}

#[test]
fn decimal_rendering() {
    assert_eq!(decimal_string(0), "0");
    assert_eq!(decimal_string(7), "7");
    assert_eq!(decimal_string(10), "10");
    assert_eq!(decimal_string(12345), "12345");
    assert_eq!(decimal_string(usize::MAX), usize::MAX.to_string());
}

#[test]
fn sign_command_arguments() {
    let signer = SegmentSigner::new(
        PathBuf::from("/srv/segment_manifest"),
        PathBuf::from("/usr/bin/c2pa-live-cbc"),
        "test-stream".to_string(),
        b"abc",
    );
    let cmd = signer.sign_command(42).unwrap();
    assert_eq!(cmd.program, "/usr/bin/c2pa-live-cbc");
    assert_eq!(
        cmd.args,
        vec![
            "sign-stream",
            "--manifest",
            "/srv/segment_manifest",
            "--segment-index",
            "42",
            "--stream-id",
            "test-stream",
        ]
    );
    assert_eq!(
        cmd.env,
        vec![("CERT_HASH_B64".to_string(), "ungWv48Bz+pBQUDeXa4iIw==".to_string())]
    );
}

#[test]
fn signer_keeps_its_inputs() {
    let signer = SegmentSigner::new(
        PathBuf::from("m.json"),
        PathBuf::from("tool"),
        "s".to_string(),
        b"",
    );
    assert_eq!(signer.manifest_path, PathBuf::from("m.json"));
    assert_eq!(signer.signer_path, PathBuf::from("tool"));
    assert_eq!(signer.stream_id, "s");
    let cmd = signer.sign_command(0).unwrap();
    assert_eq!(cmd.args[4], "0");
    assert_eq!(cmd.env[0].1, "47DEQpj8HBSa+/TImW+5JA==");
}

#[test]
fn outcome_of_successful_run() {
    let r = sign_outcome(true, ExitReport { code: Some(0), signal: None }, vec![1, 2, 3]);
    assert_eq!(r.unwrap(), vec![1, 2, 3]);
}

#[test]
fn outcome_of_failed_run() {
    let r = sign_outcome(false, ExitReport { code: Some(2), signal: None }, vec![1, 2, 3]);
    assert!(matches!(r, Err(SignerError::ExitStatus(ExitReport { code: Some(2), signal: None }))));
    let r = sign_outcome(false, ExitReport { code: None, signal: Some(9) }, vec![]);
    assert!(matches!(r, Err(SignerError::ExitStatus(ExitReport { code: None, signal: Some(9) }))));
}

#[test]
fn fingerprint_of_a_digest() {
    let digest: Vec<u8> = (0u8..32).collect();
    // base64 of bytes 0..16
    assert_eq!(moq_c2pa::fingerprint_from_digest(&digest), "AAECAwQFBgcICQoLDA0ODw==");
}

#[test]
fn lookup_results_become_signer_errors() {
    assert_eq!(moq_c2pa::sign_cert_from_lookup(Ok(Some("c.pem".to_string()))).unwrap(), "c.pem");
    assert!(matches!(moq_c2pa::sign_cert_from_lookup(Ok(None)), Err(SignerError::ManifestMissingField("sign_cert"))));
    let json_err = serde_json::from_str::<serde_json::Value>("{").unwrap_err();
    assert!(matches!(moq_c2pa::sign_cert_from_lookup(Err(json_err)), Err(SignerError::ManifestParse(_))));
}

#[test]
fn decimal_rendering_reads_back() {
    for n in [0usize, 1, 9, 10, 99, 100, 4096, 1_000_000_007] {
        let s = decimal_string(n);
        assert_eq!(s.parse::<usize>().unwrap(), n);
        assert!(s.chars().all(|c| c.is_ascii_digit()));
        assert!(n == 0 || !s.starts_with('0'));
    }
}

#[test]
fn cert_path_follows_the_manifest_not_the_working_directory() {
    let a = resolve_cert_path(&PathBuf::from("d1/c2pa-manifest"), "cert.pem").unwrap();
    let b = resolve_cert_path(&PathBuf::from("d2/c2pa-manifest"), "cert.pem").unwrap();
    assert_eq!(a, PathBuf::from("d1/cert.pem"));
    assert_eq!(b, PathBuf::from("d2/cert.pem"));
}

#[test]
fn cert_location_checks_in_order() {
    let m = PathBuf::from("/srv/c2pa/manifest");
    let io = std::io::Error::new(std::io::ErrorKind::NotFound, "gone");
    assert!(matches!(moq_c2pa::cert_location(&m, Err(io)), Err(SignerError::Io(_))));
    assert!(matches!(moq_c2pa::cert_location(&m, Ok("nope".to_string())), Err(SignerError::ManifestParse(_))));
    assert!(matches!(
        moq_c2pa::cert_location(&m, Ok("{}".to_string())),
        Err(SignerError::ManifestMissingField("sign_cert"))
    ));
    let text = r#"{"sign_cert": "es256.pub"}"#.to_string();
    assert!(matches!(moq_c2pa::cert_location(&PathBuf::from(""), Ok(text.clone())), Err(SignerError::InvalidPath)));
    // a parse error comes before a missing parent
    assert!(matches!(moq_c2pa::cert_location(&PathBuf::from(""), Ok("[".to_string())), Err(SignerError::ManifestParse(_))));
    assert_eq!(moq_c2pa::cert_location(&m, Ok(text)).unwrap(), PathBuf::from("/srv/c2pa/es256.pub"));
}

#[test]
fn signer_from_certificate_read() {
    let io = std::io::Error::new(std::io::ErrorKind::PermissionDenied, "no");
    let r = SegmentSigner::with_cert_read(PathBuf::from("m"), PathBuf::from("t"), "s".to_string(), Err(io));
    assert!(matches!(r, Err(SignerError::Io(_))));
    let s = SegmentSigner::with_cert_read(PathBuf::from("m"), PathBuf::from("t"), "s".to_string(), Ok(b"abc".to_vec()))
        .unwrap();
    assert_eq!(s.sign_command(1).unwrap().env[0].1, "ungWv48Bz+pBQUDeXa4iIw==");
}
