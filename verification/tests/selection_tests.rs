use dictate::selection::{probe_sentinel, selection_from_probe};

#[test]
fn sentinel_format() {
    assert_eq!(probe_sentinel(4242, 1_700_000_000_123_456_789), "dictate-selection-probe-4242-1700000000123456789");
    assert_eq!(probe_sentinel(0, 0), "dictate-selection-probe-0-0");
    assert_eq!(
        probe_sentinel(u32::MAX, u128::MAX),
        format!("dictate-selection-probe-{}-{}", u32::MAX, u128::MAX)
    );
}

#[test]
fn sentinel_has_no_nul() {
    assert!(!probe_sentinel(7, 99).contains('\0'));
}

#[test]
fn copied_text_is_the_selection() {
    let sentinel = probe_sentinel(1, 2);
    assert_eq!(selection_from_probe(Some("picked words".into()), &sentinel), Some("picked words".to_string()));
}

#[test]
fn unchanged_clipboard_means_no_selection() {
    let sentinel = probe_sentinel(1, 2);
    assert_eq!(selection_from_probe(Some(sentinel.clone()), &sentinel), None);
    assert_eq!(selection_from_probe(Some(String::new()), &sentinel), None);
    assert_eq!(selection_from_probe(None, &sentinel), None);
}
