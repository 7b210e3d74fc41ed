use buttplug_osc::device::Device;
use buttplug_osc::registry::Registry;
use buttplug_osc::resolver::filter_devices;

fn dev(name: &str, index: u32) -> Device {
    Device { name: name.to_string(), index }
}

fn populated() -> Registry {
    let mut registry = Registry::new();
    registry.update("LovenseEdge".to_string(), dev("Lovense Edge", 1));
    registry.update("LovenseHush".to_string(), dev("Lovense Hush", 2));
    registry.update("Kiiroo".to_string(), dev("Kiiroo", 3));
    registry.update("last".to_string(), dev("Kiiroo", 3));
    registry.refresh();
    registry
}

fn indices(devices: Vec<Device>) -> Vec<u32> {
    let mut out: Vec<u32> = devices.into_iter().map(|d| d.index).collect();
    out.sort();
    out
}

#[test]
fn exact_name_targets_one_device() {
    let registry = populated();
    let r = filter_devices("Kiiroo", &registry);
    assert_eq!(indices(r), vec![3]);
}

#[test]
fn last_alias_targets_most_recent() {
    let registry = populated();
    let r = filter_devices("last", &registry);
    assert_eq!(indices(r), vec![3]);
}

#[test]
fn wildcard_targets_all_but_last_alias() {
    let registry = populated();
    let r = filter_devices("all", &registry);
    // three devices; the `last` alias entry is excluded, so index 3 appears
    // once only
    assert_eq!(indices(r), vec![1, 2, 3]);
}

#[test]
fn prefix_targets_matching_names() {
    let registry = populated();
    let r = filter_devices("Lovense", &registry);
    assert_eq!(indices(r), vec![1, 2]);
}

#[test]
fn unresolvable_expression_targets_nothing() {
    let registry = populated();
    let r = filter_devices("Magic", &registry);
    assert!(r.is_empty());
}

#[test]
fn empty_registry_resolves_nothing() {
    let registry = Registry::new();
    assert!(filter_devices("all", &registry).is_empty());
    assert!(filter_devices("last", &registry).is_empty());
}

#[test]
fn resolution_set_is_insertion_order_independent() {
    let mut forward = Registry::new();
    forward.update("aa".to_string(), dev("aa", 1));
    forward.update("ab".to_string(), dev("ab", 2));
    forward.refresh();

    let mut backward = Registry::new();
    backward.update("ab".to_string(), dev("ab", 2));
    backward.update("aa".to_string(), dev("aa", 1));
    backward.refresh();

    assert_eq!(
        indices(filter_devices("a", &forward)),
        indices(filter_devices("a", &backward))
    );
}
