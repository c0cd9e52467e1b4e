use proxy_server::addr::{IpAddr, SocketAddr};
use proxy_server::config::{Config, ProxyConfig, ServerConfig, TlsConfig};
use proxy_server::observer::{LogRecord, RequestContext};
use proxy_server::pipeline::{
    step, ForwardResult, PipelineAction, PipelineEvent, PipelineOutcome, PipelineState,
};

fn v4(a: u8, b: u8, c: u8, d: u8) -> IpAddr {
    IpAddr::V4(u32::from_be_bytes([a, b, c, d]))
}

fn scenario_config() -> Config {
    Config {
        server: ServerConfig {
            listen_addr: v4(0, 0, 0, 0),
            listen_port: 443,
            whitelist: vec![v4(10, 0, 0, 5)],
        },
        proxy: ProxyConfig {
            protocol: String::from("http"),
            target_addr: v4(127, 0, 0, 1),
            target_port: 8080,
        },
        tls: TlsConfig { cert_path: String::from("cert.pem"), key_path: String::from("key.pem") },
    }
}

fn request_from(peer: IpAddr, path: &str) -> RequestContext {
    RequestContext {
        peer_address: SocketAddr::new(peer, 50000),
        method: String::from("GET"),
        uri: String::from(path),
    }
}

#[test]
fn listed_peer_to_root_gets_upstream_response() {
    let config = scenario_config();
    let ctx = request_from(v4(10, 0, 0, 5), "/");
    let (state, action) = step(&config, &ctx, PipelineState::Accepted, PipelineEvent::Start);
    assert_eq!(state, PipelineState::Forwarding);
    assert_eq!(action, PipelineAction::Forward);
    let upstream = PipelineEvent::Upstream(ForwardResult::Relayed { status: 200 });
    let (state, action) = step(&config, &ctx, state, upstream);
    assert_eq!(state, PipelineState::Finished);
    assert_eq!(
        action,
        PipelineAction::Respond {
            outcome: PipelineOutcome::Relayed { status: 200 },
            warning: None,
            record: Some(LogRecord {
                method: String::from("GET"),
                uri: String::from("/"),
                peer_address: SocketAddr::new(v4(10, 0, 0, 5), 50000),
                status: 200,
            }),
        }
    );
}

#[test]
fn unlisted_peer_gets_403_without_upstream_contact() {
    let config = scenario_config();
    let ctx = request_from(v4(10, 0, 0, 9), "/");
    let (state, action) = step(&config, &ctx, PipelineState::Accepted, PipelineEvent::Start);
    assert_eq!(state, PipelineState::Finished);
    assert_eq!(
        action,
        PipelineAction::Respond {
            outcome: PipelineOutcome::GateRejection,
            warning: Some(v4(10, 0, 0, 9)),
            record: None,
        }
    );
    assert_eq!(PipelineOutcome::GateRejection.status(), 403);
    assert_eq!(PipelineOutcome::GateRejection.own_body(), Some(Vec::new()));
    // Nothing that is reported afterwards brings the request to the engine.
    let late = PipelineEvent::Upstream(ForwardResult::Relayed { status: 200 });
    for event in [PipelineEvent::Start, late, PipelineEvent::Start] {
        let (after, action) = step(&config, &ctx, state, event);
        assert_eq!(after, PipelineState::Finished);
        assert_eq!(action, PipelineAction::Ignore);
    }
}

#[test]
fn listed_peer_to_stylesheet_is_relayed_without_log_line() {
    let config = scenario_config();
    let ctx = request_from(v4(10, 0, 0, 5), "/style.css");
    let (state, action) = step(&config, &ctx, PipelineState::Accepted, PipelineEvent::Start);
    assert_eq!(action, PipelineAction::Forward);
    let upstream = PipelineEvent::Upstream(ForwardResult::Relayed { status: 200 });
    let (state, action) = step(&config, &ctx, state, upstream);
    assert_eq!(state, PipelineState::Finished);
    assert_eq!(
        action,
        PipelineAction::Respond {
            outcome: PipelineOutcome::Relayed { status: 200 },
            warning: None,
            record: None,
        }
    );
}

#[test]
fn listed_peer_passes_whatever_the_path() {
    let config = scenario_config();
    for path in ["/", "/api/repos", "/assets/app.js", "/style.css", "", "/a/b/c?d=e"] {
        let ctx = request_from(v4(10, 0, 0, 5), path);
        let (state, action) = step(&config, &ctx, PipelineState::Accepted, PipelineEvent::Start);
        assert_eq!(state, PipelineState::Forwarding);
        assert_eq!(action, PipelineAction::Forward);
    }
}

#[test]
fn unlisted_peer_is_refused_whatever_the_path() {
    let config = scenario_config();
    for path in ["/", "/api/repos", "/assets/app.js", "/style.css"] {
        let ctx = request_from(v4(10, 0, 0, 9), path);
        let (state, action) = step(&config, &ctx, PipelineState::Accepted, PipelineEvent::Start);
        assert_eq!(state, PipelineState::Finished);
        match action {
            PipelineAction::Respond { outcome, warning, record } => {
                assert_eq!(outcome.status(), 403);
                assert_eq!(outcome.own_body(), Some(Vec::new()));
                assert_eq!(warning, Some(v4(10, 0, 0, 9)));
                assert_eq!(record, None);
            }
            other => panic!("{:?}", other),
        }
    }
}

#[test]
fn gateway_error_is_sent_on_and_logged() {
    let config = scenario_config();
    let ctx = request_from(v4(10, 0, 0, 5), "/api/repos");
    let (state, _) = step(&config, &ctx, PipelineState::Accepted, PipelineEvent::Start);
    let failed = PipelineEvent::Upstream(ForwardResult::GatewayError { status: 502 });
    let (state, action) = step(&config, &ctx, state, failed);
    assert_eq!(state, PipelineState::Finished);
    match action {
        PipelineAction::Respond { outcome, warning, record } => {
            assert_eq!(outcome, PipelineOutcome::GatewayError { status: 502 });
            assert_eq!(outcome.status(), 502);
            assert_eq!(outcome.own_body(), None);
            assert_eq!(warning, None);
            assert_eq!(record.unwrap().status, 502);
        }
        other => panic!("{:?}", other),
    }
}

#[test]
fn a_failed_request_does_not_touch_the_next() {
    let config = scenario_config();
    let first = request_from(v4(10, 0, 0, 5), "/api/a");
    let second = request_from(v4(10, 0, 0, 5), "/api/b");
    let (s1, _) = step(&config, &first, PipelineState::Accepted, PipelineEvent::Start);
    let (s2, _) = step(&config, &second, PipelineState::Accepted, PipelineEvent::Start);
    let failed = PipelineEvent::Upstream(ForwardResult::GatewayError { status: 504 });
    let (_, a1) = step(&config, &first, s1, failed);
    let fine = PipelineEvent::Upstream(ForwardResult::Relayed { status: 201 });
    let (_, a2) = step(&config, &second, s2, fine);
    match (a1, a2) {
        (
            PipelineAction::Respond { outcome: o1, record: r1, .. },
            PipelineAction::Respond { outcome: o2, record: r2, .. },
        ) => {
            assert_eq!(o1, PipelineOutcome::GatewayError { status: 504 });
            assert_eq!(o2, PipelineOutcome::Relayed { status: 201 });
            assert_eq!(r1.unwrap().uri, "/api/a");
            assert_eq!(r2.unwrap().uri, "/api/b");
        }
        other => panic!("{:?}", other),
    }
}

#[test]
fn upstream_status_is_passed_on_unchanged() {
    let config = scenario_config();
    let ctx = request_from(v4(10, 0, 0, 5), "/api/repos");
    for status in [100u16, 204, 301, 403, 404, 418, 500, 502, 599] {
        let relayed = ForwardResult::Relayed { status };
        assert_eq!(relayed.status(), status);
        assert_eq!(relayed.outcome(), PipelineOutcome::Relayed { status });
        let (_, action) =
            step(&config, &ctx, PipelineState::Forwarding, PipelineEvent::Upstream(relayed));
        match action {
            PipelineAction::Respond { outcome, record, .. } => {
                assert_eq!(outcome.status(), status);
                assert_eq!(record.unwrap().status, status);
            }
            other => panic!("{:?}", other),
        }
    }
}

#[test]
fn events_out_of_place_are_ignored() {
    let config = scenario_config();
    let ctx = request_from(v4(10, 0, 0, 5), "/");
    let early = PipelineEvent::Upstream(ForwardResult::Relayed { status: 200 });
    let (state, action) = step(&config, &ctx, PipelineState::Accepted, early);
    assert_eq!(state, PipelineState::Accepted);
    assert_eq!(action, PipelineAction::Ignore);
    let (state, action) = step(&config, &ctx, PipelineState::Forwarding, PipelineEvent::Start);
    assert_eq!(state, PipelineState::Forwarding);
    assert_eq!(action, PipelineAction::Ignore);
}

#[test]
fn one_response_in_any_run() {
    let config = scenario_config();
    let events = [
        PipelineEvent::Upstream(ForwardResult::Relayed { status: 200 }),
        PipelineEvent::Start,
        PipelineEvent::Start,
        PipelineEvent::Upstream(ForwardResult::GatewayError { status: 502 }),
        PipelineEvent::Upstream(ForwardResult::Relayed { status: 200 }),
        PipelineEvent::Start,
    ];
    for peer in [v4(10, 0, 0, 5), v4(10, 0, 0, 9)] {
        let ctx = request_from(peer, "/api/repos");
        let mut state = PipelineState::Accepted;
        let mut responses = 0;
        let mut forwards = 0;
        for event in events {
            let (after, action) = step(&config, &ctx, state, event);
            state = after;
            match action {
                PipelineAction::Respond { .. } => responses += 1,
                PipelineAction::Forward => forwards += 1,
                PipelineAction::Ignore => {}
            }
        }
        assert_eq!(responses, 1);
        assert_eq!(forwards, if peer == v4(10, 0, 0, 5) { 1 } else { 0 });
        assert_eq!(state, PipelineState::Finished);
    }
}
