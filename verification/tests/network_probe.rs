use altpay::network_probe::{NetworkProbe, ProbeAction, ProbeEvent, ProbeSwitch};

fn node(action: ProbeAction) -> Vec<u8> {
    match action {
        ProbeAction::Probe { node } => node,
        other => panic!("{:?}", other),
    }
}

fn is_pause(action: ProbeAction) -> bool {
    matches!(action, ProbeAction::Pause { millis: 5000 })
}

#[test]
fn all_nodes_are_probed_in_order() {
    let mut walk = NetworkProbe::new(vec![vec![1], vec![2], vec![3]]);
    assert_eq!(node(walk.network_probe(ProbeEvent::Begin)), vec![1]);
    assert!(is_pause(walk.network_probe(ProbeEvent::Probed { cancelled: false })));
    assert_eq!(node(walk.network_probe(ProbeEvent::Paused)), vec![2]);
    assert!(is_pause(walk.network_probe(ProbeEvent::Probed { cancelled: false })));
    assert_eq!(node(walk.network_probe(ProbeEvent::Paused)), vec![3]);
    assert!(is_pause(walk.network_probe(ProbeEvent::Probed { cancelled: false })));
    assert!(matches!(walk.network_probe(ProbeEvent::Paused), ProbeAction::Finished));
    assert!(matches!(walk.network_probe(ProbeEvent::Paused), ProbeAction::Wait));
}

#[test]
fn a_cancelled_walk_stops() {
    let mut walk = NetworkProbe::new(vec![vec![1], vec![2]]);
    assert_eq!(node(walk.network_probe(ProbeEvent::Begin)), vec![1]);
    assert!(matches!(
        walk.network_probe(ProbeEvent::Probed { cancelled: true }),
        ProbeAction::Stopped
    ));
    assert!(matches!(walk.network_probe(ProbeEvent::Paused), ProbeAction::Wait));
    assert!(matches!(walk.network_probe(ProbeEvent::Begin), ProbeAction::Wait));
}

#[test]
fn an_empty_network() {
    let mut walk = NetworkProbe::new(vec![]);
    assert!(matches!(walk.network_probe(ProbeEvent::Begin), ProbeAction::Finished));
}

#[test]
fn events_out_of_turn_change_nothing() {
    let mut walk = NetworkProbe::new(vec![vec![1], vec![2]]);
    assert!(matches!(walk.network_probe(ProbeEvent::Paused), ProbeAction::Wait));
    assert_eq!(node(walk.network_probe(ProbeEvent::Begin)), vec![1]);
    assert!(matches!(walk.network_probe(ProbeEvent::Begin), ProbeAction::Wait));
    assert!(is_pause(walk.network_probe(ProbeEvent::Probed { cancelled: false })));
    assert_eq!(node(walk.network_probe(ProbeEvent::Paused)), vec![2]);
}

#[test]
fn a_walk_cancelled_in_a_pause_probes_one_more_node() {
    let mut walk = NetworkProbe::new(vec![vec![1], vec![2], vec![3]]);
    assert_eq!(node(walk.network_probe(ProbeEvent::Begin)), vec![1]);
    assert!(is_pause(walk.network_probe(ProbeEvent::Probed { cancelled: false })));
    assert_eq!(node(walk.network_probe(ProbeEvent::Paused)), vec![2]);
    assert!(matches!(
        walk.network_probe(ProbeEvent::Probed { cancelled: true }),
        ProbeAction::Stopped
    ));
    assert!(matches!(walk.network_probe(ProbeEvent::Paused), ProbeAction::Wait));
}

#[test]
fn an_earlier_stop_does_not_stop_a_new_walk() {
    let mut switch = ProbeSwitch::new();
    assert_eq!(switch.probed(), ProbeEvent::Probed { cancelled: false });
    switch.stop_probe();
    switch.stop_probe();
    let mut walk = switch.begin(Some(vec![vec![1], vec![2]])).unwrap();
    assert_eq!(node(walk.network_probe(ProbeEvent::Begin)), vec![1]);
    assert!(is_pause(walk.network_probe(switch.probed())));
    assert_eq!(node(walk.network_probe(ProbeEvent::Paused)), vec![2]);
    switch.stop_probe();
    assert!(matches!(walk.network_probe(switch.probed()), ProbeAction::Stopped));
}

#[test]
fn a_refused_walk_leaves_the_switch_as_it_was() {
    let mut switch = ProbeSwitch::new();
    assert_eq!(switch.begin(None).unwrap_err(), "failed to sync graph");
    assert_eq!(switch.probed(), ProbeEvent::Probed { cancelled: false });
    switch.stop_probe();
    assert_eq!(switch.begin(None).unwrap_err(), "failed to sync graph");
    switch.stop_probe();
    assert_eq!(switch.probed(), ProbeEvent::Probed { cancelled: true });
}
