use tethyr::pan_server::BluetoothPANServer;

#[test]
fn new_server_has_no_binding() {
    let s = BluetoothPANServer::new();
    assert!(s.registration.is_none());
}

#[test]
fn register_records_the_binding_and_accepts() {
    let mut s = BluetoothPANServer::new();
    assert_eq!(s.register("00001116-0000-1000-8000-00805f9b34fb", "pan0"), Ok(()));
    let reg = s.registration.clone().unwrap();
    assert_eq!(reg.service_id, "00001116-0000-1000-8000-00805f9b34fb");
    assert_eq!(reg.bridge_interface, "pan0");
}

#[test]
fn unregister_drops_the_binding_and_accepts() {
    let mut s = BluetoothPANServer::new();
    s.register("00001116-0000-1000-8000-00805f9b34fb", "pan0").unwrap();
    assert_eq!(s.unregister("00001116-0000-1000-8000-00805f9b34fb"), Ok(()));
    assert!(s.registration.is_none());
}

#[test]
fn unregister_accepts_even_without_a_binding() {
    let mut s = BluetoothPANServer::new();
    assert_eq!(s.unregister("anything"), Ok(()));
    assert!(s.registration.is_none());
}
