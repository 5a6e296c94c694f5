use yewchat::profile::{avatar_for, Roster, UserProfile};
use yewchat::text::{join, same_text};

#[test]
fn avatar_address_ends_in_the_name() {
    assert_eq!(avatar_for("a"), "https://api.dicebear.com/9.x/big-smile/svg?seed=a");
    assert_eq!(avatar_for(""), "https://api.dicebear.com/9.x/big-smile/svg?seed=");
    assert_eq!(avatar_for("Ünï cödé/?"), "https://api.dicebear.com/9.x/big-smile/svg?seed=Ünï cödé/?");
}

#[test]
fn profile_of_a_name() {
    assert_eq!(
        UserProfile::new("kim"),
        UserProfile {
            name: "kim".to_string(),
            avatar: "https://api.dicebear.com/9.x/big-smile/svg?seed=kim".to_string(),
        }
    );
}

#[test]
fn roster_has_one_profile_per_name() {
    let list: Vec<String> = vec!["a".to_string(), "b".to_string(), "a".to_string()];
    let roster = Roster::of(&list);
    assert_eq!(
        roster.profiles(),
        &vec![UserProfile::new("a"), UserProfile::new("b"), UserProfile::new("a")]
    );
    assert!(Roster::new().profiles().is_empty());
    assert!(Roster::of(&vec![]).profiles().is_empty());
}

#[test]
fn avatar_of_is_the_same_for_known_and_unknown_names() {
    let roster = Roster::of(&vec!["a".to_string(), "b".to_string()]);
    assert_eq!(roster.avatar_of("b"), avatar_for("b"));
    assert_eq!(roster.avatar_of("nobody"), avatar_for("nobody"));
    assert_eq!(Roster::new().avatar_of("a"), avatar_for("a"));
}

#[test]
fn same_text_compares_char_for_char() {
    assert!(same_text("", ""));
    assert!(same_text("abc", "abc"));
    assert!(!same_text("abc", "abd"));
    assert!(!same_text("abc", "ab"));
    assert!(!same_text("abc", "ABC"));
    assert!(same_text("🔥", "\u{1f525}"));
}

#[test]
fn join_puts_one_text_after_the_other() {
    assert_eq!(join("ab", "cd"), "abcd");
    assert_eq!(join("", "cd"), "cd");
    assert_eq!(join("ab", ""), "ab");
}
