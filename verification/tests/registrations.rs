use write_gate::messages::OutgoingMessages;
use write_gate::registry::{Registration, Registry, Table};

#[test]
fn refused_requests_leave_no_registration() {
    let mut registry = Registry::new();
    let shared_before = registry.receivers(OutgoingMessages::RequestFamilyCodes);
    for id in 0..200 {
        let request = registry.register(Table::Request, id);
        let order = registry.register(Table::Order, id);
        assert_eq!((registry.count(Table::Request), registry.count(Table::Order)), (1, 1));
        registry.withdraw(request);
        registry.withdraw(order);
        let shared = registry.subscribe(OutgoingMessages::RequestFamilyCodes);
        assert_eq!(registry.receivers(OutgoingMessages::RequestFamilyCodes), shared_before + 1);
        registry.withdraw(shared);
    }
    assert_eq!(registry.count(Table::Request), 0);
    assert_eq!(registry.count(Table::Order), 0);
    // A shared request registers nothing; its receiver went with it.
    assert_eq!(registry.receivers(OutgoingMessages::RequestFamilyCodes), shared_before);
}

#[test]
fn a_shared_request_is_one_more_receiver_and_no_entry() {
    let mut registry = Registry::new();
    let first = registry.subscribe(OutgoingMessages::RequestFamilyCodes);
    let second = registry.subscribe(OutgoingMessages::RequestFamilyCodes);
    let other = registry.subscribe(OutgoingMessages::RequestPositions);
    registry.join(other);
    assert_eq!(registry.receivers(OutgoingMessages::RequestFamilyCodes), 2);
    assert_eq!(registry.receivers(OutgoingMessages::RequestPositions), 2);
    assert_eq!(registry.receivers(OutgoingMessages::RequestCurrentTime), 0);
    assert_eq!((registry.count(Table::Request), registry.count(Table::Order)), (0, 0));
    assert_eq!(registry.listeners(Table::Request, 80), None);
    registry.withdraw(second);
    assert_eq!(registry.receivers(OutgoingMessages::RequestFamilyCodes), 1);
    registry.release(first);
    assert_eq!(registry.receivers(OutgoingMessages::RequestFamilyCodes), 0);
    assert_eq!(registry.receivers(OutgoingMessages::RequestPositions), 2);
}

#[test]
fn an_entry_goes_with_its_listeners() {
    let mut registry = Registry::new();
    let request = registry.register(Table::Request, 18);
    let order = registry.register(Table::Order, 18);
    registry.join(request);
    registry.join(order);
    registry.join(order);
    for left in [1, 0] {
        registry.release(request);
        let listeners = if left > 0 { Some(left) } else { None };
        assert_eq!(registry.listeners(Table::Request, 18), listeners);
    }
    for left in [2, 1, 0] {
        registry.release(order);
        let listeners = if left > 0 { Some(left) } else { None };
        assert_eq!(registry.listeners(Table::Order, 18), listeners);
    }
}

#[test]
fn a_request_dropped_while_its_write_waits_leaves_no_registration() {
    let mut registry = Registry::new();
    let request = registry.register(Table::Request, 9);
    let order = registry.register(Table::Order, 10);
    assert_eq!(registry.count(Table::Request), 1, "registered before the write, so no answer is lost");
    assert_eq!(registry.count(Table::Order), 1);
    assert_eq!(registry.listeners(Table::Request, 9), Some(1));
    assert_eq!(registry.listeners(Table::Order, 9), None);
    registry.withdraw(request);
    registry.withdraw(order);
    assert_eq!((registry.count(Table::Request), registry.count(Table::Order)), (0, 0));
}

#[test]
fn a_modify_refused_or_dropped_keeps_the_order_subscription() {
    let mut registry = Registry::new();
    let placed = registry.register(Table::Order, 7);
    let placement = registry.listeners(Table::Order, 7);
    assert_eq!(placement, Some(1));
    // Refused, and dropped while it waits: both listened with the placement,
    // and only their own listener goes.
    for _ in 0..2 {
        let modify = registry.register(Table::Order, 7);
        assert_eq!(modify, placed, "joined, not replaced");
        assert_eq!(registry.listeners(Table::Order, 7), Some(2));
        registry.withdraw(modify);
        assert_eq!(registry.listeners(Table::Order, 7), placement);
    }
    registry.release(placed);
    assert_eq!(registry.listeners(Table::Order, 7), None);
}

#[test]
fn a_written_modify_shares_the_order_channel_with_the_placement() {
    let mut registry = Registry::new();
    let placed = registry.register(Table::Order, 8);
    let placement = registry.listeners(Table::Order, 8);
    let modified = registry.register(Table::Order, 8);
    assert!(registry.listeners(Table::Order, 8) > placement, "joined, not replaced");
    registry.release(placed);
    assert_eq!(registry.listeners(Table::Order, 8), Some(1), "the modify still listens");
    registry.release(modified);
    assert_eq!(registry.listeners(Table::Order, 8), None);
    assert_eq!(registry.count(Table::Order), 0);
}

#[test]
fn the_cleanup_of_an_earlier_subscription_leaves_its_successor_alone() {
    let mut registry = Registry::new();
    let first = registry.register(Table::Request, 11);
    // A request id reused while the first still listens replaces it.
    let second = registry.register(Table::Request, 11);
    assert_ne!(first, second);
    let held = registry.listeners(Table::Request, 11);
    registry.release(first);
    assert_eq!(registry.listeners(Table::Request, 11), held, "the successor's entry is untouched");
    registry.release(second);
    assert_eq!(registry.listeners(Table::Request, 11), None);
}

#[test]
fn a_clone_keeps_the_channel_its_original_released() {
    let mut registry = Registry::new();
    let original = registry.register(Table::Request, 12);
    registry.join(original);
    registry.release(original);
    assert_eq!(registry.listeners(Table::Request, 12), Some(1), "the clone still listens");
    registry.release(original);
    assert_eq!(registry.listeners(Table::Request, 12), None);
}

#[test]
fn a_successor_under_the_same_id_is_left_alone() {
    // The first request waits and then fails at its deadline; a second one
    // under the same id is written meanwhile.
    let mut registry = Registry::new();
    let first = registry.register(Table::Request, 5);
    let successor = registry.register(Table::Request, 5);
    let held = registry.listeners(Table::Request, 5);
    assert_eq!(held, Some(1));
    registry.withdraw(first);
    assert_eq!(registry.listeners(Table::Request, 5), held, "the successor's entry is untouched");
    registry.release(successor);
    assert_eq!(registry.listeners(Table::Request, 5), None);
    assert_eq!(registry.count(Table::Request), 0);
}

#[test]
fn a_successor_is_left_alone_by_a_dropped_request_too() {
    let mut registry = Registry::new();
    let first = registry.register(Table::Request, 6);
    let successor = registry.register(Table::Request, 6);
    registry.join(successor);
    let held = registry.listeners(Table::Request, 6);
    assert_eq!(held, Some(2));
    registry.withdraw(first);
    assert_eq!(registry.listeners(Table::Request, 6), held, "the successor's entry is untouched");
    registry.release(successor);
    registry.release(successor);
    assert_eq!(registry.listeners(Table::Request, 6), None);
}

#[test]
fn a_refused_request_puts_back_the_entry_it_replaced() {
    let mut registry = Registry::new();
    let earlier = registry.register(Table::Request, 13);
    registry.join(earlier);
    let held = registry.listeners(Table::Request, 13);
    assert_eq!(held, Some(2));
    let refused = registry.register(Table::Request, 13);
    assert_eq!(registry.listeners(Table::Request, 13), Some(1));
    registry.withdraw(refused);
    // Nothing was sent, so nothing replaced the earlier request.
    assert_eq!(registry.listeners(Table::Request, 13), held, "the earlier entry is back");
    registry.release(earlier);
    registry.release(earlier);
    assert_eq!(registry.listeners(Table::Request, 13), None);
}

/// A request with two listeners, and two more under its id that wait.
fn two_waiting(registry: &mut Registry, id: i32) -> (Registration, Registration, Registration) {
    let earlier = registry.register(Table::Request, id);
    registry.join(earlier);
    let second = registry.register(Table::Request, id);
    let third = registry.register(Table::Request, id);
    assert_eq!(registry.listeners(Table::Request, id), Some(1));
    (earlier, second, third)
}

#[test]
fn requests_are_withdrawn_in_any_order() {
    let mut registry = Registry::new();
    let (_, second, third) = two_waiting(&mut registry, 14);
    registry.withdraw(second);
    assert_eq!(registry.listeners(Table::Request, 14), Some(1), "the third has the entry");
    registry.withdraw(third);
    assert_eq!(registry.listeners(Table::Request, 14), Some(2), "the earlier entry is back");

    let (_, second, third) = two_waiting(&mut registry, 15);
    registry.withdraw(third);
    assert_eq!(registry.listeners(Table::Request, 15), Some(1), "the second has the entry");
    registry.withdraw(second);
    assert_eq!(registry.listeners(Table::Request, 15), Some(2), "the earlier entry is back");
    assert_eq!(registry.count(Table::Request), 2);
}

#[test]
fn an_entry_is_not_put_back_for_nobody() {
    let mut registry = Registry::new();
    let (earlier, second, third) = two_waiting(&mut registry, 16);
    registry.release(earlier);
    registry.release(earlier);
    registry.withdraw(third);
    assert_eq!(registry.listeners(Table::Request, 16), Some(1), "the second has the entry");
    registry.withdraw(second);
    assert_eq!(registry.listeners(Table::Request, 16), None);
    assert_eq!(registry.count(Table::Request), 0);
}

#[test]
fn a_written_request_replaces_the_earlier_ones_for_good() {
    let mut registry = Registry::new();
    let (earlier, second, third) = two_waiting(&mut registry, 17);
    // The second was written, and is released while the third still waits.
    registry.release(second);
    assert_eq!(registry.listeners(Table::Request, 17), Some(1), "the third has the entry");
    registry.withdraw(third);
    assert_eq!(registry.listeners(Table::Request, 17), None);
    registry.release(earlier);
    registry.release(earlier);
    assert_eq!(registry.count(Table::Request), 0);
}
