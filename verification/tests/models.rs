use mass_rs::text::decimal_text;
use mass_rs::Machine;

fn machine(power_state: &str) -> Machine {
    Machine {
        system_id: "x8d7f".to_string(),
        hostname: "web-server-01".to_string(),
        power_state: power_state.to_string(),
        architecture: "amd64/generic".to_string(),
        memory: 16384,
        cpu_count: 8,
        status: "Deployed".to_string(),
        ip_addresses: vec!["10.0.0.5".to_string()],
        tags: vec![],
    }
}

#[test]
fn machine_is_on_only_when_it_says_on() {
    assert!(machine("on").is_on());
    assert!(!machine("off").is_on());
    assert!(!machine("error").is_on());
    assert!(!machine("").is_on());
    assert!(!machine("On").is_on());
    assert!(!machine("on ").is_on());
}

#[test]
fn summary_has_the_documented_shape() {
    assert_eq!(machine("on").summary(), "[x8d7f] web-server-01 (8 cores, 16384 MiB) - Deployed");
}

#[test]
fn summary_writes_extreme_numbers_in_full() {
    let mut m = machine("off");
    m.memory = u64::MAX;
    m.cpu_count = u32::MAX;
    m.system_id = String::new();
    m.hostname = String::new();
    m.status = String::new();
    assert_eq!(m.summary(), "[]  (4294967295 cores, 18446744073709551615 MiB) - ");
    m.memory = 0;
    m.cpu_count = 0;
    assert_eq!(m.summary(), "[]  (0 cores, 0 MiB) - ");
}

#[test]
fn decimal_text_matches_the_usual_notation() {
    for n in [0u64, 1, 9, 10, 11, 99, 100, 101, 1700000000, u64::MAX] {
        assert_eq!(decimal_text(n), n.to_string());
    }
}

#[test]
fn clones_compare_equal() {
    let m = machine("on");
    assert_eq!(m.clone(), m);
    assert_ne!(machine("off"), m);
}
