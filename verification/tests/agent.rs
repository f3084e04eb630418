use tethyr::agent::AgentReply;
use tethyr::agent::BluetoothAgent;
use tethyr::agent::PairingEvent;

#[test]
fn mac_from_standard_device_path() {
    assert_eq!(
        BluetoothAgent::extract_mac_from_path("/org/bluez/hci0/dev_AA_BB_CC_DD_EE_FF"),
        "AA:BB:CC:DD:EE:FF"
    );
}

#[test]
fn path_without_dev_segment_is_returned_unchanged() {
    assert_eq!(
        BluetoothAgent::extract_mac_from_path("/org/bluez/hci0"),
        "/org/bluez/hci0"
    );
}

#[test]
fn empty_path_is_returned_unchanged() {
    assert_eq!(BluetoothAgent::extract_mac_from_path(""), "");
}

#[test]
fn address_segment_ends_at_a_second_marker() {
    assert_eq!(
        BluetoothAgent::extract_mac_from_path("/a/dev_AA_BB/dev_CC"),
        "AA:BB"
    );
}

#[test]
fn marker_with_empty_segment_gives_empty_address() {
    assert_eq!(BluetoothAgent::extract_mac_from_path("/org/bluez/dev_"), "");
}

#[test]
fn confirmation_is_auto_accepted_for_any_passkey() {
    let agent = BluetoothAgent;
    assert_eq!(
        agent.request_confirmation("/org/bluez/hci0/dev_01_02_03_04_05_06", 123456),
        Ok(())
    );
    assert_eq!(agent.request_confirmation("", 0), Ok(()));
}

#[test]
fn authorization_is_auto_accepted_for_any_device() {
    let agent = BluetoothAgent;
    assert_eq!(agent.request_authorization("/any/path"), Ok(()));
    assert_eq!(
        agent.request_authorization("/org/bluez/hci0/dev_AA_BB_CC_DD_EE_FF"),
        Ok(())
    );
}

#[test]
fn service_authorization_is_auto_accepted_for_any_service() {
    let agent = BluetoothAgent;
    assert_eq!(
        agent.authorize_service("/any/path", "00001116-0000-1000-8000-00805f9b34fb"),
        Ok(())
    );
    assert_eq!(agent.authorize_service("", ""), Ok(()));
}

#[test]
fn display_pin_code_reports_the_hardware_address() {
    let agent = BluetoothAgent;
    assert_eq!(
        agent.display_pin_code("/org/bluez/hci0/dev_AA_BB_CC_DD_EE_FF", "1234"),
        "AA:BB:CC:DD:EE:FF"
    );
}

#[test]
fn handle_event_accepts_every_decision_event() {
    let agent = BluetoothAgent;
    let confirmation = PairingEvent::ConfirmationRequested {
        device: "/org/bluez/hci0/dev_AA_BB_CC_DD_EE_FF".to_string(),
        passkey: 654321,
    };
    assert_eq!(agent.handle_event(&confirmation), AgentReply::Decision(Ok(())));
    let authorization = PairingEvent::AuthorizationRequested {
        device: "/org/bluez/hci0/dev_AA_BB_CC_DD_EE_FF".to_string(),
    };
    assert_eq!(agent.handle_event(&authorization), AgentReply::Decision(Ok(())));
    let service = PairingEvent::ServiceAuthorizationRequested {
        device: "/org/bluez/hci0/dev_AA_BB_CC_DD_EE_FF".to_string(),
        service_id: "00001116-0000-1000-8000-00805f9b34fb".to_string(),
    };
    assert_eq!(agent.handle_event(&service), AgentReply::Decision(Ok(())));
}

#[test]
fn handle_event_owes_no_reply_for_informational_events() {
    let agent = BluetoothAgent;
    assert_eq!(agent.handle_event(&PairingEvent::ReleaseRequested), AgentReply::NoReply);
    let pin = PairingEvent::PinCodeDisplay {
        device: "/org/bluez/hci0/dev_AA_BB_CC_DD_EE_FF".to_string(),
        pin: "1234".to_string(),
    };
    assert_eq!(agent.handle_event(&pin), AgentReply::NoReply);
    assert_eq!(agent.handle_event(&PairingEvent::Cancelled), AgentReply::NoReply);
}
