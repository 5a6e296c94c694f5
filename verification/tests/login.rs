use yewchat::login::{login, AvatarChoice, LoginForm, LoginView};

#[test]
fn fresh_form_cannot_confirm() {
    let form = LoginForm::new();
    assert_eq!(form.username(), "");
    assert_eq!(form.avatar_style(), "profile1-neutral");
    assert!(!form.can_confirm());
    assert_eq!(form.confirm(), None);
    assert!(login(&form).confirm_disabled);
}

#[test]
fn fresh_form_shows_an_avatar_that_is_none_of_the_three() {
    let view = login(&LoginForm::new());
    assert_eq!(
        view,
        LoginView {
            avatar_url: "https://api.dicebear.com/9.x/big-smile/svg?seed=profile1-neutral"
                .to_string(),
            selected: None,
            username: String::new(),
            confirm_disabled: true,
        }
    );
    for choice in [AvatarChoice::Profile1, AvatarChoice::Profile2, AvatarChoice::Profile3] {
        assert_ne!(choice.as_str(), "profile1-neutral");
    }
}

#[test]
fn one_char_enables_the_confirmation() {
    let mut form = LoginForm::new();
    form.set_username("a".to_string());
    assert!(form.can_confirm());
    assert!(!login(&form).confirm_disabled);
    assert_eq!(form.confirm(), Some("a".to_string()));
}

#[test]
fn deleting_every_char_disables_it_again() {
    let mut form = LoginForm::new();
    for value in ["a", "al", "ali", "al", "a"] {
        form.set_username(value.to_string());
        assert!(!login(&form).confirm_disabled);
    }
    form.set_username(String::new());
    assert!(login(&form).confirm_disabled);
    assert_eq!(form.confirm(), None);
    form.set_username("b".to_string());
    assert!(!login(&form).confirm_disabled);
}

#[test]
fn confirm_hands_on_the_name_untrimmed() {
    let mut form = LoginForm::new();
    form.set_username("  bob ".to_string());
    assert_eq!(form.confirm(), Some("  bob ".to_string()));
    form.set_username(" ".to_string());
    assert!(form.can_confirm());
    assert_eq!(form.confirm(), Some(" ".to_string()));
}

#[test]
fn picking_an_avatar_changes_the_image_only() {
    let mut form = LoginForm::new();
    form.set_username("carol".to_string());
    form.select_profile(AvatarChoice::Profile1);
    assert_eq!(form.avatar_style(), "Avery");
    assert_eq!(login(&form).avatar_url, "https://api.dicebear.com/9.x/big-smile/svg?seed=Avery");
    form.select_profile(AvatarChoice::Profile2);
    assert_eq!(login(&form).avatar_url, "https://api.dicebear.com/9.x/big-smile/svg?seed=Sadie");
    form.select_profile(AvatarChoice::Profile3);
    assert_eq!(login(&form).avatar_url, "https://api.dicebear.com/9.x/big-smile/svg?seed=George");
    assert_eq!(login(&form).username, "carol");
    assert_eq!(form.confirm(), Some("carol".to_string()));
}

#[test]
fn picking_an_avatar_does_not_enable_the_confirmation() {
    let mut form = LoginForm::new();
    form.select_profile(AvatarChoice::Profile3);
    assert!(login(&form).confirm_disabled);
    assert_eq!(form.confirm(), None);
}

#[test]
fn typing_keeps_the_avatar() {
    let mut form = LoginForm::new();
    form.select_profile(AvatarChoice::Profile2);
    form.set_username("dan".to_string());
    assert_eq!(form.avatar_style(), "Sadie");
    assert_eq!(form.username(), "dan");
}

#[test]
fn seeds_of_the_three_choices() {
    assert_eq!(AvatarChoice::Profile1.as_str(), "Avery");
    assert_eq!(AvatarChoice::Profile2.as_str(), "Sadie");
    assert_eq!(AvatarChoice::Profile3.as_str(), "George");
}

#[test]
fn the_pick_is_shown_as_selected() {
    let mut form = LoginForm::new();
    assert_eq!(form.selected(), None);
    form.select_profile(AvatarChoice::Profile2);
    assert_eq!(login(&form).selected, Some(AvatarChoice::Profile2));
    form.set_username("x".to_string());
    assert_eq!(login(&form).selected, Some(AvatarChoice::Profile2));
    form.select_profile(AvatarChoice::Profile1);
    assert_eq!(login(&form).selected, Some(AvatarChoice::Profile1));
    form.select_profile(AvatarChoice::Profile3);
    assert_eq!(form.selected(), Some(AvatarChoice::Profile3));
}
