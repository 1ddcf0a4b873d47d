use altpay::logger::{log_entry, log_line};

#[test]
fn lines_of_the_log() {
    assert_eq!(
        log_line("T", "INFO", "lightning::routing", 42, "found a route"),
        "T INFO  [lightning::routing:42] found a route\n"
    );
    assert_eq!(log_line("", "", "", 0, ""), "       [:0] \n");
    assert_eq!(log_line("T", "ERROR", "m", 1, "x"), "T ERROR [m:1] x\n");
    assert_eq!(log_line("T", "GOSSIP", "m", 1, "x"), "T GOSSIP [m:1] x\n");
}

#[test]
fn lines_are_formatted_as_std_formats_them() {
    for level in ["", "a", "WARN", "TRACE", "GOSSIP", "\u{e9}\u{e9}"] {
        assert_eq!(
            log_line("2023", level, "mod", 7, "msg"),
            format!("{} {:<5} [{}:{}] {}\n", "2023", level, "mod", 7, "msg")
        );
    }
}

#[test]
fn times_in_the_log() {
    assert_eq!(
        log_entry(0, 0, "INFO", "m", 1, "x").unwrap(),
        "1970-01-01 00:00:00.000 INFO  [m:1] x\n"
    );
    assert_eq!(
        log_entry(1_672_531_199, 999_000_000, "WARN", "m", 1, "x").unwrap(),
        "2022-12-31 23:59:59.999 WARN  [m:1] x\n"
    );
    assert_eq!(log_entry(i64::MAX, 0, "INFO", "m", 1, "x"), None);
}
