use std::path::PathBuf;

use moq_c2pa::{decoder_plan, DecoderPlan, PublishError, PublishFormat};

#[test]
fn avc3_plan() {
    assert!(matches!(decoder_plan(&PublishFormat::Avc3), Ok(DecoderPlan::Avc3)));
}

#[test]
fn fmp4_plan_without_manifest() {
    let f = PublishFormat::Fmp4 { passthrough: false, c2pa_manifest: None, c2patool_path: PathBuf::from("t") };
    assert!(matches!(decoder_plan(&f), Ok(DecoderPlan::Fmp4 { passthrough: false, signer: None })));
}

#[test]
fn fmp4_manifest_requires_passthrough() {
    let f = PublishFormat::Fmp4 {
        passthrough: false,
        c2pa_manifest: Some(PathBuf::from("m.json")),
        c2patool_path: PathBuf::from("t"),
    };
    let e = decoder_plan(&f).err().unwrap();
    assert_eq!(e, PublishError::ManifestRequiresPassthrough);
    assert_eq!(e.message(), "--c2pa-manifest requires --passthrough");
}

#[test]
fn fmp4_manifest_with_passthrough() {
    let f = PublishFormat::Fmp4 {
        passthrough: true,
        c2pa_manifest: Some(PathBuf::from("m.json")),
        c2patool_path: PathBuf::from("t"),
    };
    match decoder_plan(&f) {
        Ok(DecoderPlan::Fmp4 { passthrough, signer: Some(s) }) => {
            assert!(passthrough);
            assert_eq!(s.manifest_path, PathBuf::from("m.json"));
            assert_eq!(s.tool_path, PathBuf::from("t"));
        }
        _ => panic!("expected a signing fMP4 decoder"),
    }
}

#[test]
fn hls_plan() {
    let f = PublishFormat::Hls { playlist: "https://cdn.example/live.m3u8".to_string(), passthrough: true };
    match decoder_plan(&f) {
        Ok(DecoderPlan::Hls { playlist, passthrough }) => {
            assert_eq!(playlist, "https://cdn.example/live.m3u8");
            assert!(passthrough);
        }
        _ => panic!("expected an HLS decoder"),
    }
}

