use codex_code_mode_host::text::decimal_string;

#[test]
fn decimal_string_writes_like_display() {
    for n in [0u64, 7, 9, 10, 42, 100, 1_000_001, 18_446_744_073_709_551_615] {
        assert_eq!(decimal_string(n), n.to_string());
    }
}
