use fishify::config::ClientConfig;
use fishify::control::{after_recovery, paused, repeat_set, should_recover, shuffle_set, skipped, volume_set};
use fishify::error::{OperationError, RemoteError};
use fishify::response::{format_response, Response};
use fishify::status::RepeatState;

#[test]
fn acknowledgements() {
    assert_eq!(paused().lines, vec!["Paused playback".to_string()]);
    assert!(!paused().verbose);
    assert_eq!(skipped(3).lines, vec!["Skipped 3 tracks".to_string()]);
    assert_eq!(volume_set(100).lines, vec!["Set volume to 100".to_string()]);
    assert_eq!(shuffle_set(true).lines, vec!["Set shuffle to true".to_string()]);
    assert_eq!(repeat_set(RepeatState::Track).lines, vec!["Set repeat to Track".to_string()]);
}

#[test]
fn recovery_only_once_and_only_on_not_found() {
    let missing = OperationError::Remote(RemoteError { not_found: true, message: "404".to_string() });
    let other = OperationError::Remote(RemoteError { not_found: false, message: "500".to_string() });
    assert!(should_recover(&missing, false));
    assert!(!should_recover(&missing, true));
    assert!(!should_recover(&other, false));
    assert!(!should_recover(&OperationError::NoDevicesFound, false));
}

#[test]
fn recovery_outcome() {
    let first_error = OperationError::Remote(RemoteError { not_found: true, message: "404".to_string() });
    let ok = Response { lines: vec!["Paused playback".to_string()], verbose: false };
    assert_eq!(after_recovery(first_error.clone(), true, Some(Ok(ok.clone()))), Ok(ok.clone()));
    assert_eq!(
        after_recovery(first_error.clone(), true, Some(Err(OperationError::NoActivePlayback))),
        Err(first_error.clone())
    );
    assert_eq!(after_recovery(first_error.clone(), false, None), Err(first_error));
}

#[test]
fn response_rendering() {
    let listing = Response { lines: vec!["a".to_string(), "b".to_string()], verbose: true };
    assert_eq!(format_response(&listing), "> a\n> b\n");
    let ack = Response { lines: vec!["a".to_string(), "b".to_string()], verbose: false };
    assert_eq!(format_response(&ack), "a\nb");
    let none = Response { lines: vec![], verbose: false };
    assert_eq!(format_response(&none), "");
}

#[test]
fn config_defaults_and_redirect() {
    let mut c = ClientConfig::new();
    assert_eq!(c.client_id, "");
    assert_eq!(c.get_port(), 8888);
    assert_eq!(c.get_redirect_uri(), "http://localhost:8888/callback");
    c.port = Some(9000);
    assert_eq!(c.get_redirect_uri(), "http://localhost:9000/callback");
    let loaded = ClientConfig {
        client_id: "id".to_string(),
        client_secret: "SECRET-REDACTED".to_string(),
        device_id: Some("d".to_string()),
        port: Some(1),
    };
    c.apply_loaded(loaded);
    assert_eq!(c.client_id, "id");
    assert_eq!(c.device_id, Some("d".to_string()));
    assert_eq!(c.port, Some(9000));
}
