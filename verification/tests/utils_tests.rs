use crab_launcher::text::NameOrder;
use crab_launcher::utils::{compare_names, music_matches_search, program_matches_search};

#[test]
fn program_search_ignores_case() {
    assert!(program_matches_search("Firefox", None, ""));
    assert!(program_matches_search("Firefox", None, "FIRE"));
    assert!(!program_matches_search("Firefox", None, "chrome"));
    assert!(program_matches_search("Firefox", Some("Web Browser"), "browser"));
    assert!(!program_matches_search("Firefox", Some("Web Browser"), "mail"));
    assert!(program_matches_search("ŁÓDŹ", None, "łódź"));
}

#[test]
fn music_search_ignores_case() {
    assert!(music_matches_search("Chill Mix", ""));
    assert!(music_matches_search("Chill Mix", "mix"));
    assert!(!music_matches_search("Chill Mix", "rock"));
}

#[test]
fn names_compare_ignoring_case() {
    assert_eq!(compare_names("apple", "Banana"), NameOrder::Less);
    assert_eq!(compare_names("Zoo", "alpha"), NameOrder::Greater);
    assert_eq!(compare_names("GIMP", "gimp"), NameOrder::Equal);
}
