//! The login form: a display name that is typed, an avatar that is picked,
//! and a confirmation that is refused while the name is empty.

use crate::profile::{avatar_for, avatar_url};
use crate::text::same_text;
use vstd::prelude::*;

verus! {

/// One of the three avatars that the form offers.
#[derive(Clone, Copy, Debug, PartialEq, Eq, Structural)]
pub enum AvatarChoice {
    Profile1,
    Profile2,
    Profile3,
}

impl AvatarChoice {
    /// The seed of the avatar image of this choice.
    pub open spec fn seed(self) -> Seq<char> {
        match self {
            AvatarChoice::Profile1 => "Avery"@,
            AvatarChoice::Profile2 => "Sadie"@,
            AvatarChoice::Profile3 => "George"@,
        }
    }

    /// The seed of the avatar image of this choice.
    pub fn as_str(&self) -> (r: &'static str)
        ensures
            r@ == self.seed(),
    {
        match self {
            AvatarChoice::Profile1 => "Avery",
            AvatarChoice::Profile2 => "Sadie",
            AvatarChoice::Profile3 => "George",
        }
    }
}

/// The state of the login form as a mathematical value.
pub struct LoginModel {
    pub username: Seq<char>,
    pub avatar_style: Seq<char>,
}

/// What the login screen shows, as a mathematical value.
pub struct LoginScreen {
    pub avatar_url: Seq<char>,
    pub selected: Option<AvatarChoice>,
    pub username: Seq<char>,
    pub confirm_disabled: bool,
}

/// The form before anything was typed or picked. Its avatar seed is none
/// of the three on offer.
pub open spec fn fresh() -> LoginModel {
    LoginModel { username: Seq::empty(), avatar_style: "profile1-neutral"@ }
}

/// The form after the name field changed to `value`.
pub open spec fn typed(form: LoginModel, value: Seq<char>) -> LoginModel {
    LoginModel { username: value, ..form }
}

/// The form after an avatar was picked.
pub open spec fn chosen(form: LoginModel, choice: AvatarChoice) -> LoginModel {
    LoginModel { avatar_style: choice.seed(), ..form }
}

/// Whether the confirmation may fire: the name holds at least one char.
pub open spec fn can_confirm(form: LoginModel) -> bool {
    form.username.len() > 0
}

/// What a confirmation hands on: the name as typed, untrimmed, or nothing
/// while the confirmation is disabled.
pub open spec fn confirmed(form: LoginModel) -> Option<Seq<char>> {
    if can_confirm(form) {
        Some(form.username)
    } else {
        None
    }
}

/// The choice on offer whose avatar the form holds, if it holds one of them.
pub open spec fn selected(form: LoginModel) -> Option<AvatarChoice> {
    if form.avatar_style == AvatarChoice::Profile1.seed() {
        Some(AvatarChoice::Profile1)
    } else if form.avatar_style == AvatarChoice::Profile2.seed() {
        Some(AvatarChoice::Profile2)
    } else if form.avatar_style == AvatarChoice::Profile3.seed() {
        Some(AvatarChoice::Profile3)
    } else {
        None
    }
}

/// What the login screen shows for a form.
pub open spec fn login_screen(form: LoginModel) -> LoginScreen {
    LoginScreen {
        avatar_url: avatar_url(form.avatar_style),
        selected: selected(form),
        username: form.username,
        confirm_disabled: !can_confirm(form),
    }
}

/// The state of the login form.
#[derive(Clone, Debug, PartialEq, Eq)]
pub struct LoginForm {
    username: String,
    avatar_style: String,
}

impl View for LoginForm {
    type V = LoginModel;

    closed spec fn view(&self) -> LoginModel {
        LoginModel { username: self.username@, avatar_style: self.avatar_style@ }
    }
}

/// What the login screen shows.
#[derive(Clone, Debug, PartialEq, Eq)]
pub struct LoginView {
    /// The address of the avatar image.
    pub avatar_url: String,
    /// The choice to show as picked, if any.
    pub selected: Option<AvatarChoice>,
    /// The value of the name field.
    pub username: String,
    /// Whether the confirmation button is disabled.
    pub confirm_disabled: bool,
}

impl View for LoginView {
    type V = LoginScreen;

    open spec fn view(&self) -> LoginScreen {
        LoginScreen {
            avatar_url: self.avatar_url@,
            selected: self.selected,
            username: self.username@,
            confirm_disabled: self.confirm_disabled,
        }
    }
}

impl LoginForm {
    /// The form as the screen opens.
    pub fn new() -> (form: LoginForm)
        ensures
            form@ == fresh(),
    {
        LoginForm { username: String::new(), avatar_style: "profile1-neutral".to_owned() }
    }

    /// The name field changed.
    pub fn set_username(&mut self, value: String)
        ensures
            final(self)@ == typed(old(self)@, value@),
    {
        self.username = value;
    }

    /// An avatar was picked.
    pub fn select_profile(&mut self, choice: AvatarChoice)
        ensures
            final(self)@ == chosen(old(self)@, choice),
    {
        self.avatar_style = choice.as_str().to_owned();
    }

    /// The choice on offer whose avatar the form holds.
    pub fn selected(&self) -> (r: Option<AvatarChoice>)
        ensures
            r == selected(self@),
    {
        let style = self.avatar_style.as_str();
        if same_text(style, AvatarChoice::Profile1.as_str()) {
            Some(AvatarChoice::Profile1)
        } else if same_text(style, AvatarChoice::Profile2.as_str()) {
            Some(AvatarChoice::Profile2)
        } else if same_text(style, AvatarChoice::Profile3.as_str()) {
            Some(AvatarChoice::Profile3)
        } else {
            None
        }
    }

    /// Whether the confirmation may fire.
    pub fn can_confirm(&self) -> (r: bool)
        ensures
            r == can_confirm(self@),
    {
        !self.username.as_str().is_empty()
    }

    /// The confirmation: the display name to log in with, or `None` while
    /// the button is disabled.
    pub fn confirm(&self) -> (r: Option<String>)
        ensures
            match r {
                Some(name) => confirmed(self@) == Some(name@),
                None => confirmed(self@).is_none(),
            },
    {
        if self.can_confirm() {
            Some(self.username.clone())
        } else {
            None
        }
    }

    /// The value of the name field.
    pub fn username(&self) -> (r: &str)
        ensures
            r@ == self@.username,
    {
        self.username.as_str()
    }

    /// The seed of the avatar image.
    pub fn avatar_style(&self) -> (r: &str)
        ensures
            r@ == self@.avatar_style,
    {
        self.avatar_style.as_str()
    }
}

/// What the login screen shows for a form.
pub fn login(form: &LoginForm) -> (r: LoginView)
    ensures
        r@ == login_screen(form@),
{
    LoginView {
        avatar_url: avatar_for(form.avatar_style()),
        selected: form.selected(),
        username: form.username().to_owned(),
        confirm_disabled: !form.can_confirm(),
    }
}

// ---------------------------------------------------------------------------
// Laws
// ---------------------------------------------------------------------------

/// Something that happens to the form.
pub enum LoginEvent {
    Typed(Seq<char>),
    Chosen(AvatarChoice),
}

/// The form after one event.
pub open spec fn after(form: LoginModel, event: LoginEvent) -> LoginModel {
    match event {
        LoginEvent::Typed(value) => typed(form, value),
        LoginEvent::Chosen(choice) => chosen(form, choice),
    }
}

/// The form after a run of events.
pub open spec fn after_all(form: LoginModel, events: Seq<LoginEvent>) -> LoginModel
    decreases events.len(),
{
    if events.len() == 0 {
        form
    } else {
        after(after_all(form, events.drop_last()), events.last())
    }
}

/// The value that the name field was last changed to in a run of events.
pub open spec fn last_typed(events: Seq<LoginEvent>) -> Option<Seq<char>>
    decreases events.len(),
{
    if events.len() == 0 {
        None
    } else {
        match events.last() {
            LoginEvent::Typed(value) => Some(value),
            LoginEvent::Chosen(_) => last_typed(events.drop_last()),
        }
    }
}

/// The confirmation is disabled on a fresh form, enabled by a change of
/// the name field exactly where the new value holds a char, and untouched
/// by a pick of an avatar. So it is disabled again as soon as the field is
/// emptied.
pub proof fn lemma_confirm_needs_a_name(form: LoginModel, value: Seq<char>, choice: AvatarChoice)
    ensures
        !can_confirm(fresh()),
        confirmed(fresh()).is_none(),
        can_confirm(typed(form, value)) <==> value.len() > 0,
        can_confirm(typed(typed(form, value), Seq::empty())) == false,
        can_confirm(chosen(form, choice)) == can_confirm(form),
        confirmed(form).is_some() <==> can_confirm(form),
{
}

/// No choice is shown as picked on a fresh form; a pick shows that choice,
/// whatever was picked before; and typing leaves the pick alone.
pub proof fn lemma_selected_is_the_last_pick(form: LoginModel, value: Seq<char>, choice: AvatarChoice)
    ensures
        selected(fresh()).is_none(),
        selected(chosen(form, choice)) == Some(choice),
        selected(typed(form, value)) == selected(form),
{
    reveal_strlit("profile1-neutral");
    reveal_strlit("Avery");
    reveal_strlit("Sadie");
    reveal_strlit("George");
    assert("profile1-neutral"@.len() == 16);
    assert("Avery"@.len() == 5 && "Sadie"@.len() == 5 && "George"@.len() == 6);
    assert("Avery"@[0] == 'A' && "Sadie"@[0] == 'S');
}

/// After any run of events the confirmation is enabled exactly where the
/// name field was last changed to a value that holds a char; where the run
/// never changed it, the form decides as before the run.
pub proof fn lemma_confirm_follows_last_input(form: LoginModel, events: Seq<LoginEvent>)
    ensures
        can_confirm(after_all(form, events)) == match last_typed(events) {
            Some(value) => value.len() > 0,
            None => can_confirm(form),
        },
    decreases events.len(),
{
    if events.len() > 0 {
        lemma_confirm_follows_last_input(form, events.drop_last());
    }
}

} // verus!
