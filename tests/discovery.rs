use etherdream::discovery::SeenDacs;
use etherdream::protocol::MacAddress;

#[test]
fn each_dac_is_reported_once() {
    let mut seen = SeenDacs::new();
    let a = MacAddress { address: [0, 1, 2, 3, 4, 5] };
    let b = MacAddress { address: [0, 1, 2, 3, 4, 6] };
    assert!(!seen.contains(&a));
    assert!(seen.note(a));
    assert!(seen.contains(&a));
    assert!(!seen.note(a));
    assert!(seen.note(b));
    assert!(!seen.note(MacAddress { address: [0, 1, 2, 3, 4, 5] }));
    assert_eq!(seen.macs, vec![a, b]);
}
