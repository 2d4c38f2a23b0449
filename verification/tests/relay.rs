use std::path::PathBuf;

use moq_c2pa::{
    on_announcement, on_broadcast_event, upstream_target, AnnounceEvent, Backoff,
    BroadcastAction, BroadcastEvent, C2paConfig, C2paProxy, ProxyAction, Upstream,
    UpstreamConfig, UpstreamTarget, MAX_BACKOFF_SECS,
};

#[test]
fn proxy_needs_a_manifest() {
    let config = C2paConfig { manifest_path: None, c2patool_path: PathBuf::from("c2patool") };
    assert!(C2paProxy::new(&config, 1u8, 2u8).is_none());
}

#[test]
fn proxy_with_manifest() {
    let config = C2paConfig {
        manifest_path: Some(PathBuf::from("/srv/c2pa/manifest")),
        c2patool_path: PathBuf::from("/usr/bin/c2patool"),
    };
    let proxy = C2paProxy::new(&config, "source", "dest").unwrap();
    assert_eq!(proxy.source, "source");
    assert_eq!(proxy.dest, "dest");
    assert_eq!(proxy.signer.manifest_path, PathBuf::from("/srv/c2pa/manifest"));
    assert_eq!(proxy.signer.tool_path, PathBuf::from("/usr/bin/c2patool"));
}

#[test]
fn announcement_decisions() {
    assert_eq!(on_announcement(AnnounceEvent::OriginClosed), ProxyAction::Stop);
    assert_eq!(on_announcement(AnnounceEvent::Announced), ProxyAction::SignBroadcast);
    assert_eq!(on_announcement(AnnounceEvent::Unannounced), ProxyAction::Ignore);
}

#[test]
fn broadcast_decisions() {
    assert_eq!(on_broadcast_event(BroadcastEvent::SourceClosed), BroadcastAction::Stop);
    assert_eq!(on_broadcast_event(BroadcastEvent::RequestFailed), BroadcastAction::Stop);
    assert_eq!(
        on_broadcast_event(BroadcastEvent::Requested { subscribed: false }),
        BroadcastAction::SkipTrack
    );
    assert_eq!(
        on_broadcast_event(BroadcastEvent::Requested { subscribed: true }),
        BroadcastAction::ForwardTrack
    );
}

#[test]
fn upstream_disabled_without_url() {
    let config = UpstreamConfig { url: None, token: Some("t".to_string()) };
    assert!(matches!(upstream_target(&config), UpstreamTarget::Disabled));
}

#[test]
fn upstream_url_without_token() {
    let config = UpstreamConfig { url: Some("https://relay.example.com/".to_string()), token: None };
    match upstream_target(&config) {
        UpstreamTarget::Connect(u) => assert_eq!(u, "https://relay.example.com/"),
        _ => panic!("expected a URL"),
    }
}

#[test]
fn upstream_url_with_token() {
    let config = UpstreamConfig {
        url: Some("https://relay.example.com/anon?x=1".to_string()),
        token: Some("a b&c".to_string()),
    };
    match upstream_target(&config) {
        UpstreamTarget::Connect(u) => assert_eq!(u, "https://relay.example.com/anon?x=1&jwt=a+b%26c"),
        _ => panic!("expected a URL"),
    }
}

#[test]
fn upstream_invalid_url_with_token() {
    let config = UpstreamConfig { url: Some("not a url".to_string()), token: Some("t".to_string()) };
    assert!(matches!(upstream_target(&config), UpstreamTarget::InvalidUrl));
}

#[test]
fn backoff_doubles_up_to_the_cap() {
    let mut b = Backoff::new();
    let mut seen = vec![b.secs()];
    for _ in 0..10 {
        b.record(false);
        seen.push(b.secs());
    }
    assert_eq!(seen, vec![1, 2, 4, 8, 16, 32, 64, 128, 256, 300, 300]);
    assert_eq!(b.secs(), MAX_BACKOFF_SECS);
}

#[test]
fn backoff_resets_after_a_connection() {
    let mut b = Backoff::new();
    b.record(false);
    b.record(false);
    assert_eq!(b.secs(), 4);
    b.record(true);
    assert_eq!(b.secs(), 1);
    b.record(false);
    assert_eq!(b.secs(), 2);
}

#[test]
fn upstream_keeps_its_parts() {
    let up = Upstream::new(UpstreamConfig { url: None, token: None }, 5u32, "origin");
    assert_eq!(up.client, 5);
    assert_eq!(up.secondary, "origin");
    assert!(up.config.url.is_none());
}

#[test]
fn target_from_parsed_url() {
    match moq_c2pa::target_from_url(Some("https://a.example/".to_string())) {
        UpstreamTarget::Connect(u) => assert_eq!(u, "https://a.example/"),
        _ => panic!("expected a URL"),
    }
    assert!(matches!(moq_c2pa::target_from_url(None), UpstreamTarget::InvalidUrl));
}
