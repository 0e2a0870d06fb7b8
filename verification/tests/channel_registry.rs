use openlogi::channel::registry::NodeRegistry;
use openlogi::hid::route::DeviceRoute;

fn direct(product_id: u16) -> DeviceRoute {
    DeviceRoute::Direct {
        vendor_id: 0x046d,
        product_id,
    }
}

fn bolt(uid: &str, slot: u8) -> DeviceRoute {
    DeviceRoute::Bolt {
        receiver_uid: uid.into(),
        slot,
    }
}

fn lookup(registry: &NodeRegistry<u64, String>, route: &DeviceRoute) -> Option<String> {
    registry.lookup(route).cloned()
}

fn name(text: &str) -> String {
    text.to_string()
}

#[test]
fn lookup_rejects_every_non_exact_route_field() {
    let mut registry = NodeRegistry::<u64, String>::new();
    registry.replace_node(1, vec![bolt("AABB", 2)], name("channel-a"));

    assert_eq!(lookup(&registry, &bolt("AABB", 2)), Some(name("channel-a")));
    assert_eq!(lookup(&registry, &bolt("AABB", 3)), None);
    assert_eq!(lookup(&registry, &bolt("CCDD", 2)), None);
    assert_eq!(lookup(&registry, &direct(0xb35b)), None);
}

#[test]
fn one_node_can_publish_multiple_receiver_slots() {
    let mut registry = NodeRegistry::<u64, String>::new();
    registry.replace_node(1, vec![bolt("AABB", 1), bolt("AABB", 4)], name("receiver-channel"));

    assert_eq!(lookup(&registry, &bolt("AABB", 1)), Some(name("receiver-channel")));
    assert_eq!(lookup(&registry, &bolt("AABB", 4)), Some(name("receiver-channel")));
}

#[test]
fn current_check_uses_only_the_exact_winning_publication() {
    let route = direct(0xb35b);
    let mut registry = NodeRegistry::<u64, String>::new();
    registry.replace_node(1, vec![route.clone()], name("a"));
    registry.replace_node(2, vec![route.clone()], name("b"));

    assert!(registry.any_current(|candidate, channel| candidate == &route && channel == "a"));
    assert!(!registry.any_current(|candidate, channel| candidate == &route && channel == "b"));
}

#[test]
fn same_route_with_a_different_arc_is_not_current() {
    let route = direct(0xb35b);
    let published: u64 = 10;
    let stale: u64 = 11;
    let mut registry = NodeRegistry::<u64, u64>::new();
    registry.replace_node(1, vec![route.clone()], published);

    assert!(registry.any_current(|candidate, channel| candidate == &route && *channel == published));
    assert!(!registry.any_current(|candidate, channel| candidate == &route && *channel == stale));
}

#[test]
fn replacing_winner_preserves_priority_then_removal_promotes_next_owner() {
    let route = direct(0xb35b);
    let mut registry = NodeRegistry::<u64, String>::new();
    registry.replace_node(1, vec![route.clone()], name("a-v1"));
    registry.replace_node(2, vec![route.clone()], name("b"));

    assert_eq!(lookup(&registry, &route), Some(name("a-v1")));

    registry.replace_node(1, vec![route.clone()], name("a-v2"));
    assert_eq!(lookup(&registry, &route), Some(name("a-v2")));

    registry.remove_node(&1);
    assert_eq!(lookup(&registry, &route), Some(name("b")));
}

#[test]
fn replacement_and_removal_wake_every_subscriber() {
    let route = direct(0xb35b);
    let first_channel: u64 = 1;
    let replacement: u64 = 2;
    let mut registry = NodeRegistry::<u64, u64>::new();
    assert!(registry.replace_node(1, vec![route.clone()], first_channel));

    assert!(registry.replace_node(1, vec![route.clone()], replacement));
    assert!(!registry.any_current(|candidate, channel| candidate == &route && *channel == first_channel));
    assert!(registry.any_current(|candidate, channel| candidate == &route && *channel == replacement));

    assert!(registry.remove_node(&1));
    assert_eq!(registry.lookup(&route), None);
}

#[test]
fn no_op_publications_do_not_wake_subscribers() {
    let first_route = bolt("AABB", 1);
    let second_route = bolt("AABB", 2);
    let channel: u64 = 7;
    let mut registry = NodeRegistry::<u64, u64>::new();
    assert!(registry.replace_node(1, vec![first_route.clone(), second_route.clone()], channel));

    assert!(!registry.replace_node(1, vec![second_route, first_route], channel));
    assert!(!registry.remove_node(&2));
    assert!(!registry.retain_nodes(&[1]));
}

#[test]
fn replacing_one_node_is_atomic_and_does_not_touch_another() {
    let mut registry = NodeRegistry::<u64, String>::new();
    registry.replace_node(1, vec![bolt("A", 1), bolt("A", 2)], name("a"));
    registry.replace_node(2, vec![bolt("B", 1)], name("b"));

    registry.replace_node(1, vec![bolt("A", 3)], name("a-new"));

    assert_eq!(lookup(&registry, &bolt("A", 1)), None);
    assert_eq!(lookup(&registry, &bolt("A", 2)), None);
    assert_eq!(lookup(&registry, &bolt("A", 3)), Some(name("a-new")));
    assert_eq!(lookup(&registry, &bolt("B", 1)), Some(name("b")));
}

#[test]
fn retaining_nodes_removes_only_absent_owners() {
    let mut registry = NodeRegistry::<u64, String>::new();
    registry.replace_node(1, vec![direct(0xb35b)], name("a"));
    registry.replace_node(2, vec![direct(0xb36b)], name("b"));

    assert!(registry.retain_nodes(&[2]));

    assert_eq!(lookup(&registry, &direct(0xb35b)), None);
    assert_eq!(lookup(&registry, &direct(0xb36b)), Some(name("b")));
}

#[test]
fn a_new_publication_of_a_won_route_does_not_take_it_over() {
    let route = bolt("AABB", 1);
    let mut registry = NodeRegistry::<u64, String>::new();
    registry.replace_node(5, vec![route.clone()], name("old"));
    registry.replace_node(3, vec![route.clone(), bolt("AABB", 2)], name("new"));

    assert_eq!(lookup(&registry, &route), Some(name("old")));
    assert_eq!(lookup(&registry, &bolt("AABB", 2)), Some(name("new")));

    registry.retain_nodes(&[3]);
    assert_eq!(lookup(&registry, &route), Some(name("new")));
}

#[test]
fn a_shared_channel_stays_current_only_while_it_wins_its_route() {
    let mut registry = NodeRegistry::<u64, String>::new();
    registry.replace_node(1, vec![direct(0xb023)], name("first"));
    registry.replace_node(2, vec![direct(0xb023)], name("second"));

    assert!(registry.is_current(&direct(0xb023), &name("first")));
    assert!(!registry.is_current(&direct(0xb023), &name("second")));
    assert!(!registry.is_current(&direct(0xb024), &name("first")));

    registry.remove_node(&1);
    assert!(!registry.is_current(&direct(0xb023), &name("first")));
    assert!(registry.is_current(&direct(0xb023), &name("second")));
}
