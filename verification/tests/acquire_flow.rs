use wireguard_tunnel::AcquireEvent;
use wireguard_tunnel::AcquireState;
use wireguard_tunnel::TunnelConfig;
use wireguard_tunnel::TunnelError;
use wireguard_tunnel::TUNNEL_MTU;
use wireguard_tunnel::acquire_step;

type State = AcquireState<String, String>;
type Event = AcquireEvent<String, String>;

fn config(mtu: Option<u16>, payload: &str) -> TunnelConfig<String> {
    TunnelConfig { mtu, payload: payload.to_string() }
}

#[test]
fn mtu_constant_value() {
    assert_eq!(TUNNEL_MTU, 1420);
}

#[test]
fn mtu_override_replaces_any_value() {
    let mut cfg = config(Some(1280), "keys");
    cfg.apply_mtu_override();
    assert_eq!(cfg.mtu, Some(1420));
    assert_eq!(cfg.payload, "keys");
    let mut cfg = config(None, "other");
    cfg.apply_mtu_override();
    assert_eq!(cfg.mtu, Some(1420));
}

#[test]
fn existing_credentials_reused_without_registration() {
    // The credential file parses, and the provisioner accepts the
    // existing credentials: the flow completes by the load path,
    // asking for config-with-existing-credentials, never registering.
    let s0: State = AcquireState::LoadCredentials;
    let s1 = acquire_step(
        s0,
        Event::CredentialsLoaded { creds: Some("stored-cred".to_string()) },
    );
    match &s1 {
        AcquireState::FetchConfig { creds } => assert_eq!(creds, "stored-cred"),
        _ => panic!("expected the fetch step"),
    }
    let s2 = acquire_step(
        s1,
        Event::ConfigFetched { result: Ok(config(Some(1280), "fetched")) },
    );
    match s2 {
        AcquireState::Done { config, creds } => {
            assert_eq!(creds, "stored-cred");
            assert_eq!(config.payload, "fetched");
            assert_eq!(config.mtu, Some(1420));
        }
        _ => panic!("expected completion by the load path"),
    }
}

#[test]
fn missing_file_registers_and_saves() {
    // No credential file: the flow registers a new device, persists
    // the fresh credentials, and only then completes.
    let s0: State = AcquireState::LoadCredentials;
    let s1 = acquire_step(s0, Event::CredentialsLoaded { creds: None });
    assert!(matches!(s1, AcquireState::Register));
    let s2 = acquire_step(
        s1,
        Event::Registered { result: Ok((config(None, "registered"), "new-cred".to_string())) },
    );
    match &s2 {
        AcquireState::SaveCredentials { config, creds } => {
            assert_eq!(creds, "new-cred");
            assert_eq!(config.mtu, Some(1420));
        }
        _ => panic!("expected the save step"),
    }
    let s3 = acquire_step(s2, Event::Saved { result: Ok(()) });
    match s3 {
        AcquireState::Done { config, creds } => {
            assert_eq!(creds, "new-cred");
            assert_eq!(config.payload, "registered");
            assert_eq!(config.mtu, Some(1420));
        }
        _ => panic!("expected completion by the register path"),
    }
}

#[test]
fn stale_credentials_fall_through_to_registration() {
    let s0: State = AcquireState::LoadCredentials;
    let s1 = acquire_step(
        s0,
        Event::CredentialsLoaded { creds: Some("stale".to_string()) },
    );
    let s2 = acquire_step(
        s1,
        Event::ConfigFetched { result: Err("account expired".to_string()) },
    );
    assert!(matches!(s2, AcquireState::Register));
}

#[test]
fn registration_failure_is_terminal() {
    let s0: State = AcquireState::Register;
    let s1 = acquire_step(
        s0,
        Event::Registered { result: Err("api unreachable".to_string()) },
    );
    match s1 {
        AcquireState::Failed { error: TunnelError::WarpRegistration(detail) } => {
            assert_eq!(detail, "api unreachable");
        }
        _ => panic!("expected a registration failure"),
    }
}

#[test]
fn persistence_failure_is_terminal() {
    // Registration succeeded but the credential file could not be
    // written: the start as a whole fails with the persistence kind.
    let s0: State = AcquireState::SaveCredentials {
        config: config(Some(1420), "registered"),
        creds: "new-cred".to_string(),
    };
    let s1 = acquire_step(s0, Event::Saved { result: Err("disk full".to_string()) });
    match s1 {
        AcquireState::Failed { error: TunnelError::CredentialPersistence(detail) } => {
            assert_eq!(detail, "disk full");
        }
        _ => panic!("expected a persistence failure"),
    }
}
