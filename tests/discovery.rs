use browsers::get_browsers_bundle_identifiers;

fn list(items: &[&str]) -> Vec<String> {
    items.iter().map(|s| s.to_string()).collect()
}

#[test]
fn both_schemes_give_their_intersection() {
    let r = get_browsers_bundle_identifiers(Some(list(&["A", "B", "C"])), Some(list(&["B", "C", "D"])));
    assert_eq!(r, Some(list(&["B", "C"])));
}

#[test]
fn intersection_keeps_http_order() {
    let r = get_browsers_bundle_identifiers(
        Some(list(&["org.mozilla.firefox", "com.apple.Safari", "com.google.Chrome"])),
        Some(list(&["com.google.Chrome", "org.mozilla.firefox"])),
    );
    assert_eq!(r, Some(list(&["org.mozilla.firefox", "com.google.Chrome"])));
}

#[test]
fn intersection_drops_repeats() {
    let r = get_browsers_bundle_identifiers(Some(list(&["A", "B", "A", "B", "C"])), Some(list(&["B", "A"])));
    assert_eq!(r, Some(list(&["A", "B"])));
}

#[test]
fn no_answer_for_either_scheme_is_absent() {
    assert_eq!(get_browsers_bundle_identifiers(None, None), None);
}

#[test]
fn one_unanswered_scheme_gives_no_browsers() {
    assert_eq!(get_browsers_bundle_identifiers(None, Some(list(&["A", "B"]))), Some(list(&[])));
    assert_eq!(get_browsers_bundle_identifiers(Some(list(&["C"])), None), Some(list(&[])));
}

#[test]
fn no_handlers_for_a_scheme_gives_no_browsers() {
    assert_eq!(get_browsers_bundle_identifiers(Some(list(&[])), Some(list(&["A", "B"]))), Some(list(&[])));
    assert_eq!(get_browsers_bundle_identifiers(Some(list(&["A"])), Some(list(&[]))), Some(list(&[])));
    assert_eq!(get_browsers_bundle_identifiers(Some(list(&[])), None), Some(list(&[])));
}
