use buttplug_osc::command::{Command, OscArg, OscMessage, ParseError};
use buttplug_osc::device::Device;
use buttplug_osc::dispatch::route_message;
use buttplug_osc::registry::Registry;
use buttplug_osc::text::{split_path, str_eq, str_is_prefix};

fn dev(name: &str, index: u32) -> Device {
    Device { name: name.to_string(), index }
}

fn msg(addr: &str, args: Option<Vec<OscArg>>) -> OscMessage {
    OscMessage { addr: addr.to_string(), args }
}

fn populated() -> Registry {
    let mut registry = Registry::new();
    registry.update("LovenseEdge".to_string(), dev("Lovense Edge", 1));
    registry.update("Kiiroo".to_string(), dev("Kiiroo", 2));
    registry.update("last".to_string(), dev("Kiiroo", 2));
    registry.refresh();
    registry
}

#[test]
fn broadcast_vibrate_reaches_every_device_once() {
    let registry = populated();
    let m = msg(
        "/devices/all/vibrate/speed",
        Some(vec![OscArg::Double { bits: (0.5f64).to_bits(), trunc: 0 }]),
    );
    let (broadcast, devices) = route_message(&registry, &m).unwrap();
    assert_eq!(broadcast.command, Command::Vibrate((0.5f64).to_bits()));
    let mut indices: Vec<u32> = devices.into_iter().map(|d| d.index).collect();
    indices.sort();
    assert_eq!(indices, vec![1, 2]);
}

#[test]
fn unresolvable_set_yields_zero_invocations_without_error() {
    let registry = populated();
    let m = msg("/devices/nosuch/stop", None);
    let (broadcast, devices) = route_message(&registry, &m).unwrap();
    assert_eq!(broadcast.command, Command::Stop);
    assert!(devices.is_empty());
}

#[test]
fn rejection_passes_through() {
    let registry = populated();
    let m = msg("/something/else", None);
    assert!(matches!(
        route_message(&registry, &m),
        Err(ParseError::InvalidMessage)
    ));
}

#[test]
fn exact_set_targets_single_device() {
    let registry = populated();
    let m = msg("/devices/last/stop", None);
    let (_, devices) = route_message(&registry, &m).unwrap();
    assert_eq!(devices.len(), 1);
    assert_eq!(devices[0].index, 2);
}

#[test]
fn split_path_keeps_every_segment() {
    assert_eq!(split_path("/devices/foo/stop"), vec!["", "devices", "foo", "stop"]);
    assert_eq!(split_path(""), vec![""]);
    assert_eq!(split_path("a//b/"), vec!["a", "", "b", ""]);
}

#[test]
fn character_comparisons() {
    assert!(str_eq("all", "all"));
    assert!(!str_eq("all", "al"));
    assert!(str_is_prefix("Lovense", "LovenseEdge"));
    assert!(str_is_prefix("", "anything"));
    assert!(!str_is_prefix("LovenseEdgeX", "LovenseEdge"));
}
