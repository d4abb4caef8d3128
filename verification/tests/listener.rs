use wsl_headless_dev::listener::AcceptAction;
use wsl_headless_dev::listener::ListenerSet;
use wsl_headless_dev::listener::ListenerStatus;

fn strings(xs: &[&str]) -> Vec<String> {
    xs.iter().map(|s| s.to_string()).collect()
}

#[test]
fn plan_keeps_addresses_in_order() {
    let set = ListenerSet::plan(&strings(&["0.0.0.0:22", ":::22"]));
    assert_eq!(set.listeners.len(), 2);
    assert_eq!(set.listeners[0].address, "0.0.0.0:22");
    assert_eq!(set.listeners[1].address, ":::22");
    assert!(set.listeners[0].status == ListenerStatus::AwaitingBind);
    assert!(set.listeners[1].status == ListenerStatus::AwaitingBind);
}

#[test]
fn one_failed_bind_leaves_the_other_listeners_serving() {
    // One of three addresses is already in use; the other two must serve.
    let mut set = ListenerSet::plan(&strings(&["127.0.0.1:9022", "127.0.0.1:9023", "127.0.0.1:9024"]));
    set.on_bind_result(0, true);
    set.on_bind_result(1, false);
    set.on_bind_result(2, true);
    assert!(set.listeners[0].status == ListenerStatus::Serving);
    assert!(set.listeners[1].status == ListenerStatus::BindFailed);
    assert!(set.listeners[2].status == ListenerStatus::Serving);
    // The serving listeners still accept connections.
    let action = set.on_accept(0, true);
    assert!(action == AcceptAction::StartRelay);
    let action = set.on_accept(2, true);
    assert!(action == AcceptAction::StartRelay);
}

#[test]
fn failed_dial_drops_the_connection_and_keeps_accepting() {
    // Nothing listens on the backend address yet: the dial fails, the
    // inbound connection is dropped, and the acceptor keeps serving.
    let mut set = ListenerSet::plan(&strings(&["127.0.0.1:9022"]));
    set.on_bind_result(0, true);
    let action = set.on_accept(0, false);
    assert!(action == AcceptAction::DropInbound);
    assert!(set.listeners[0].status == ListenerStatus::Serving);
    // A backend appeared on the target address: the next dial succeeds and
    // the pair is handed to a relay.
    let action = set.on_accept(0, true);
    assert!(action == AcceptAction::StartRelay);
    assert_eq!(set.listeners[0].accepted, 2);
}

#[test]
fn cancel_stops_every_acceptor() {
    let mut set = ListenerSet::plan(&strings(&["a:1", "b:2"]));
    set.on_bind_result(0, true);
    set.on_bind_result(1, false);
    set.on_cancel();
    assert!(set.listeners[0].status == ListenerStatus::Stopped);
    assert!(set.listeners[1].status == ListenerStatus::Stopped);
    assert_eq!(set.listeners[0].address, "a:1");
}
