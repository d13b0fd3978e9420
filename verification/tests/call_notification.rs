use crownotify::models::call::{
    CallNotification, CROWNCRATE_INTERFACE, CROWNCRATE_PATH, CROWNCRATE_SERVICE,
};

#[test]
fn test_pickup_and_decline_use_correct_dbus_endpoint() {
    assert_eq!(CROWNCRATE_SERVICE, "io.crownos.crowncrate");
    assert_eq!(CROWNCRATE_PATH, "/io/crownos/crowncrate");
    assert_eq!(CROWNCRATE_INTERFACE, "io.crownos.crowncrate");
}

#[test]
fn test_pickup_notifies_crowncrate() {
    let request = CallNotification::pickup("call_pickup_1");
    assert_eq!(request.method, "PickupCall");
    assert_eq!(request.call_id, "call_pickup_1");
}

#[test]
fn test_decline_notifies_crowncrate() {
    let request = CallNotification::decline("call_decline_1");
    assert_eq!(request.method, "DeclineCall");
    assert_eq!(request.call_id, "call_decline_1");
}

#[test]
fn pickup_keeps_an_empty_id() {
    let request = CallNotification::pickup("");
    assert_eq!(request.method, "PickupCall");
    assert_eq!(request.call_id, "");
}
