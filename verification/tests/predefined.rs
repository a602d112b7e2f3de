//! Shape checks for the predefined rule sets.

use sanitize_html::rules::predefined::basic;
use sanitize_html::rules::predefined;
use sanitize_html::rules::predefined::relaxed;
use sanitize_html::rules::predefined::restricted;
use sanitize_html::rules::predefined::untrusted;

#[test]
fn basic_does_not_fail() {
    let rules = basic();
    assert_eq!(rules.allowed_elements.len(), 32);
}

#[test]
fn default_does_not_fail() {
    let rules = predefined::default();
    assert_eq!(rules.allowed_elements.len(), 0);
    assert_eq!(rules.space_elements.len(), 26);
    assert_eq!(rules.delete_elements.len(), 6);
}

#[test]
fn relaxed_does_not_fail() {
    let rules = relaxed();
    assert_eq!(rules.allowed_elements.len(), 59);
    assert_eq!(rules.space_elements.len(), 8);
}

#[test]
fn restricted_does_not_fail() {
    let rules = restricted();
    assert_eq!(rules.allowed_elements.len(), 5);
    assert_eq!(rules.space_elements.len(), 26);
}

#[test]
fn untrusted_does_not_fail() {
    let rules = untrusted();
    assert_eq!(rules.allowed_elements.len(), 6);
    assert_eq!(rules.space_elements.len(), 26);
}
