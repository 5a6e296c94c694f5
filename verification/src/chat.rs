//! The chat screen: its state, the events that change it, and what each
//! event asks of the transport and of the text input.
//!
//! The screen itself owns neither a socket nor an input control. Whoever
//! does hands every event to [`Chat::update`] together with the current
//! value of the text input, and carries out the [`Effect`] that comes back.

use crate::codec::{
    chat_decode, wire_decode, wire_text, DecodeError, MessageData, MessageModel,
    WebSocketMessage, WireModel,
};
use crate::profile::{avatar_url, roster_of, roster_view, ProfileModel, Roster, UserProfile};
use crate::text::{ends_with, join};
use vstd::prelude::*;

verus! {

/// An event on the chat screen.
#[derive(Clone, Debug, PartialEq, Eq)]
pub enum Msg {
    /// A frame came in from the server.
    HandleMsg(String),
    /// The user sends what the text input holds.
    SubmitMessage,
    /// The user opens or closes the emoji panel.
    ToggleEmojiPanel,
    /// The user picks an emoji from the panel.
    SelectEmoji(String),
    /// The user picks a background.
    ChangeBackground(String),
}

/// The mathematical value of a [`Msg`].
pub enum MsgModel {
    HandleMsg(Seq<char>),
    SubmitMessage,
    ToggleEmojiPanel,
    SelectEmoji(Seq<char>),
    ChangeBackground(Seq<char>),
}

impl View for Msg {
    type V = MsgModel;

    open spec fn view(&self) -> MsgModel {
        match self {
            Msg::HandleMsg(frame) => MsgModel::HandleMsg(frame@),
            Msg::SubmitMessage => MsgModel::SubmitMessage,
            Msg::ToggleEmojiPanel => MsgModel::ToggleEmojiPanel,
            Msg::SelectEmoji(emoji) => MsgModel::SelectEmoji(emoji@),
            Msg::ChangeBackground(background) => MsgModel::ChangeBackground(background@),
        }
    }
}

/// What the screen asks for after an event.
#[derive(Clone, Debug, PartialEq, Eq)]
pub struct Effect {
    /// Whether the screen must be drawn again.
    pub render: bool,
    /// A frame to hand to the transport.
    pub send: Option<String>,
    /// A new value for the text input.
    pub input: Option<String>,
}

/// The mathematical value of an [`Effect`].
pub struct EffectModel {
    pub render: bool,
    pub send: Option<Seq<char>>,
    pub input: Option<Seq<char>>,
}

/// An optional text taken by its view.
pub open spec fn text_option(text: Option<String>) -> Option<Seq<char>> {
    match text {
        Some(text) => Some(text@),
        None => None,
    }
}

/// An optional borrowed text taken by its view.
pub open spec fn str_option(text: Option<&str>) -> Option<Seq<char>> {
    match text {
        Some(text) => Some(text@),
        None => None,
    }
}

impl View for Effect {
    type V = EffectModel;

    open spec fn view(&self) -> EffectModel {
        EffectModel {
            render: self.render,
            send: text_option(self.send),
            input: text_option(self.input),
        }
    }
}

/// The state of the chat screen as a mathematical value.
pub struct ChatModel {
    /// The roster, as the last `users` frame gave it.
    pub users: Seq<ProfileModel>,
    /// Every chat message received, oldest first.
    pub messages: Seq<MessageModel>,
    pub emoji_panel_open: bool,
    pub current_background: Seq<char>,
}

/// A state and what came of the event that led to it.
pub struct Step {
    pub state: ChatModel,
    pub outcome: Result<EffectModel, DecodeError>,
}

/// The views of a list of chat messages.
pub open spec fn messages_view(messages: Seq<MessageData>) -> Seq<MessageModel> {
    Seq::new(messages.len(), |i: int| messages[i]@)
}

/// An outcome with the effect taken by its view.
pub open spec fn effect_outcome(r: Result<Effect, DecodeError>) -> Result<
    EffectModel,
    DecodeError,
> {
    match r {
        Ok(effect) => Ok(effect@),
        Err(e) => Err(e),
    }
}

/// Draw again; nothing to send, the input stays.
pub open spec fn redraw() -> EffectModel {
    EffectModel { render: true, send: None, input: None }
}

/// Nothing to do.
pub open spec fn idle() -> EffectModel {
    EffectModel { render: false, send: None, input: None }
}

/// The state of a screen that has just been mounted.
pub open spec fn initial() -> ChatModel {
    ChatModel {
        users: Seq::empty(),
        messages: Seq::empty(),
        emoji_panel_open: false,
        current_background: "bg-white"@,
    }
}

/// The state after a roster of `names` came in.
pub open spec fn with_roster(state: ChatModel, names: Seq<Seq<char>>) -> ChatModel {
    ChatModel { users: roster_of(names), ..state }
}

/// The state after a chat message came in.
pub open spec fn with_message(state: ChatModel, message: MessageModel) -> ChatModel {
    ChatModel { messages: state.messages.push(message), ..state }
}

/// What a decoded wire message does to the screen. A roster replaces the
/// old one whole; a chat payload is decoded and joins the end of the list;
/// a registration, which no server sends, changes nothing.
pub open spec fn apply(state: ChatModel, message: WireModel) -> Step {
    match message {
        WireModel::Users(names) => Step { state: with_roster(state, names), outcome: Ok(redraw()) },
        WireModel::Message(payload) => match chat_decode(payload) {
            Ok(chat) => Step { state: with_message(state, chat), outcome: Ok(redraw()) },
            Err(e) => Step { state, outcome: Err(e) },
        },
        WireModel::Register(_) => Step { state, outcome: Ok(idle()) },
    }
}

/// What an incoming frame does to the screen. A frame that does not decode
/// is reported and leaves the state as it was.
pub open spec fn receive(state: ChatModel, frame: Seq<char>) -> Step {
    match wire_decode(frame) {
        Ok(message) => apply(state, message),
        Err(e) => Step { state, outcome: Err(e) },
    }
}

/// Submitting: with an input control at hand, its value goes out as the
/// payload of a `message` frame and the input is emptied.
pub open spec fn submit(state: ChatModel, input: Option<Seq<char>>) -> Step {
    match input {
        Some(value) => Step {
            state,
            outcome: Ok(
                EffectModel {
                    render: false,
                    send: Some(wire_text(WireModel::Message(value))),
                    input: Some(Seq::empty()),
                },
            ),
        },
        None => Step { state, outcome: Ok(idle()) },
    }
}

/// Opening or closing the emoji panel.
pub open spec fn toggle_emoji_panel(state: ChatModel) -> Step {
    Step {
        state: ChatModel { emoji_panel_open: !state.emoji_panel_open, ..state },
        outcome: Ok(redraw()),
    }
}

/// The value of the input after an emoji was picked: the old value, one
/// space, the emoji.
pub open spec fn with_emoji(value: Seq<char>, emoji: Seq<char>) -> Seq<char> {
    value + " "@ + emoji
}

/// Picking an emoji: it joins the end of the input, and the panel closes.
pub open spec fn select_emoji(state: ChatModel, emoji: Seq<char>, input: Option<Seq<char>>) -> Step {
    Step {
        state: ChatModel { emoji_panel_open: false, ..state },
        outcome: Ok(
            EffectModel {
                render: true,
                send: None,
                input: match input {
                    Some(value) => Some(with_emoji(value, emoji)),
                    None => None,
                },
            },
        ),
    }
}

/// Picking a background: any text is taken.
pub open spec fn change_background(state: ChatModel, background: Seq<char>) -> Step {
    Step { state: ChatModel { current_background: background, ..state }, outcome: Ok(redraw()) }
}

/// What an event does to the screen, given the value of the text input
/// (`None` where there is no input control).
pub open spec fn step(state: ChatModel, msg: MsgModel, input: Option<Seq<char>>) -> Step {
    match msg {
        MsgModel::HandleMsg(frame) => receive(state, frame),
        MsgModel::SubmitMessage => submit(state, input),
        MsgModel::ToggleEmojiPanel => toggle_emoji_panel(state),
        MsgModel::SelectEmoji(emoji) => select_emoji(state, emoji, input),
        MsgModel::ChangeBackground(background) => change_background(state, background),
    }
}

// ---------------------------------------------------------------------------
// What the screen shows
// ---------------------------------------------------------------------------

/// How the text of a chat message is shown.
#[derive(Clone, Debug, PartialEq, Eq)]
pub enum Body {
    /// As the text that it is.
    Text(String),
    /// As the image at the address that it is.
    Image(String),
}

/// The mathematical value of a [`Body`].
pub enum BodyModel {
    Text(Seq<char>),
    Image(Seq<char>),
}

impl View for Body {
    type V = BodyModel;

    open spec fn view(&self) -> BodyModel {
        match self {
            Body::Text(text) => BodyModel::Text(text@),
            Body::Image(address) => BodyModel::Image(address@),
        }
    }
}

/// One chat message as it is shown.
#[derive(Clone, Debug, PartialEq, Eq)]
pub struct MessageRow {
    pub from: String,
    pub avatar: String,
    pub body: Body,
}

/// The mathematical value of a [`MessageRow`].
pub struct RowModel {
    pub from: Seq<char>,
    pub avatar: Seq<char>,
    pub body: BodyModel,
}

impl View for MessageRow {
    type V = RowModel;

    open spec fn view(&self) -> RowModel {
        RowModel { from: self.from@, avatar: self.avatar@, body: self.body@ }
    }
}

/// Everything that the chat screen shows.
#[derive(Clone, Debug, PartialEq, Eq)]
pub struct ChatView {
    /// The background in use.
    pub background: String,
    /// The backgrounds on offer.
    pub backgrounds: Vec<String>,
    /// The roster.
    pub users: Vec<UserProfile>,
    /// The chat messages, oldest first.
    pub messages: Vec<MessageRow>,
    /// The emojis on offer while the panel is open.
    pub emoji_panel: Option<Vec<String>>,
}

/// The mathematical value of a [`ChatView`].
pub struct ScreenModel {
    pub background: Seq<char>,
    pub backgrounds: Seq<Seq<char>>,
    pub users: Seq<ProfileModel>,
    pub messages: Seq<RowModel>,
    pub emoji_panel: Option<Seq<Seq<char>>>,
}

/// The views of a list of rows.
pub open spec fn rows_view(rows: Seq<MessageRow>) -> Seq<RowModel> {
    Seq::new(rows.len(), |i: int| rows[i]@)
}

impl View for ChatView {
    type V = ScreenModel;

    open spec fn view(&self) -> ScreenModel {
        ScreenModel {
            background: self.background@,
            backgrounds: self.backgrounds.deep_view(),
            users: roster_view(self.users@),
            messages: rows_view(self.messages@),
            emoji_panel: match self.emoji_panel {
                Some(emojis) => Some(emojis.deep_view()),
                None => None,
            },
        }
    }
}

/// Whether a message is shown as an image: its text ends in `.gif`, in
/// exactly these four chars.
pub open spec fn is_image(message: Seq<char>) -> bool {
    ".gif"@.is_suffix_of(message)
}

/// How a message text is shown.
pub open spec fn body_of(message: Seq<char>) -> BodyModel {
    if is_image(message) {
        BodyModel::Image(message)
    } else {
        BodyModel::Text(message)
    }
}

/// The row of a chat message: the sender, the avatar of the sender's name,
/// and the body.
pub open spec fn row_of(message: MessageModel) -> RowModel {
    RowModel {
        from: message.from,
        avatar: avatar_url(message.from),
        body: body_of(message.message),
    }
}

/// The emojis of the panel, in the order in which it offers them.
pub open spec fn emoji_choices() -> Seq<Seq<char>> {
    seq!["😊"@, "😂"@, "❤️"@, "👍"@, "😍"@, "🔥"@, "👋"@, "🎉"@, "👏"@]
}

/// The backgrounds that the screen offers.
pub open spec fn background_choices() -> Seq<Seq<char>> {
    seq!["bg-white"@, "bg-blue-100"@, "bg-green-100"@, "bg-purple-100"@]
}

/// What the screen shows in a state.
pub open spec fn screen(state: ChatModel) -> ScreenModel {
    ScreenModel {
        background: state.current_background,
        backgrounds: background_choices(),
        users: state.users,
        messages: Seq::new(state.messages.len(), |i: int| row_of(state.messages[i])),
        emoji_panel: if state.emoji_panel_open {
            Some(emoji_choices())
        } else {
            None
        },
    }
}

/// The emojis of the panel.
pub fn emojis() -> (r: Vec<String>)
    ensures
        r.deep_view() == emoji_choices(),
{
    let mut r: Vec<String> = Vec::new();
    r.push("😊".to_owned());
    r.push("😂".to_owned());
    r.push("❤️".to_owned());
    r.push("👍".to_owned());
    r.push("😍".to_owned());
    r.push("🔥".to_owned());
    r.push("👋".to_owned());
    r.push("🎉".to_owned());
    r.push("👏".to_owned());
    assert(r.deep_view() =~= emoji_choices());
    r
}

/// The backgrounds on offer.
pub fn backgrounds() -> (r: Vec<String>)
    ensures
        r.deep_view() == background_choices(),
{
    let mut r: Vec<String> = Vec::new();
    r.push("bg-white".to_owned());
    r.push("bg-blue-100".to_owned());
    r.push("bg-green-100".to_owned());
    r.push("bg-purple-100".to_owned());
    assert(r.deep_view() =~= background_choices());
    r
}

impl MessageData {
    /// Whether the message is shown as an image.
    pub fn is_image(&self) -> (r: bool)
        ensures
            r == is_image(self.message@),
    {
        ends_with(self.message.as_str(), ".gif")
    }

    /// How the text of the message is shown.
    pub fn body(&self) -> (body: Body)
        ensures
            body@ == body_of(self.message@),
    {
        if self.is_image() {
            Body::Image(self.message.clone())
        } else {
            Body::Text(self.message.clone())
        }
    }
}

/// The state of the chat screen.
pub struct Chat {
    users: Roster,
    messages: Vec<MessageData>,
    emoji_panel_open: bool,
    current_background: String,
}

impl Chat {
    /// The state as a mathematical value.
    pub closed spec fn model(&self) -> ChatModel {
        ChatModel {
            users: self.users@,
            messages: messages_view(self.messages@),
            emoji_panel_open: self.emoji_panel_open,
            current_background: self.current_background@,
        }
    }

    /// Mounts the screen for a logged-in user: the fresh state, and the
    /// registration frame that must go out first.
    pub fn create(username: &str) -> (r: (Chat, String))
        ensures
            r.0.model() == initial(),
            r.1@ == wire_text(WireModel::Register(username@)),
    {
        let chat = Chat {
            users: Roster::new(),
            messages: Vec::new(),
            emoji_panel_open: false,
            current_background: "bg-white".to_owned(),
        };
        assert(chat.model().messages =~= Seq::empty());
        let frame = WebSocketMessage::Register(username.to_owned()).encode();
        (chat, frame)
    }

    /// Handles an event. `input` is the current value of the text input,
    /// `None` where the control is not there.
    pub fn update(&mut self, msg: Msg, input: Option<&str>) -> (r: Result<Effect, DecodeError>)
        ensures
            final(self).model() == step(old(self).model(), msg@, str_option(input)).state,
            effect_outcome(r) == step(old(self).model(), msg@, str_option(input)).outcome,
    {
        match msg {
            Msg::HandleMsg(frame) => self.receive(frame.as_str()),
            Msg::SubmitMessage => Ok(self.submit(input)),
            Msg::ToggleEmojiPanel => Ok(self.toggle_emoji_panel()),
            Msg::SelectEmoji(emoji) => Ok(self.select_emoji(emoji.as_str(), input)),
            Msg::ChangeBackground(background) => Ok(self.change_background(background)),
        }
    }

    /// Replaces the roster by the profiles of `names`.
    pub fn set_roster(&mut self, names: &Vec<String>)
        ensures
            final(self).model() == with_roster(old(self).model(), names.deep_view()),
    {
        self.users = Roster::of(names);
    }

    /// Appends a chat message to the list.
    pub fn deliver(&mut self, message: MessageData)
        ensures
            final(self).model() == with_message(old(self).model(), message@),
    {
        self.messages.push(message);
        assert(messages_view(self.messages@) =~= messages_view(old(self).messages@).push(message@));
    }

    /// Applies a decoded wire message.
    pub fn apply(&mut self, message: WebSocketMessage) -> (r: Result<Effect, DecodeError>)
        ensures
            final(self).model() == apply(old(self).model(), message@).state,
            effect_outcome(r) == apply(old(self).model(), message@).outcome,
    {
        match message {
            WebSocketMessage::Users(names) => {
                self.set_roster(&names);
                Ok(Effect { render: true, send: None, input: None })
            },
            WebSocketMessage::Message(payload) => {
                match MessageData::decode(payload.as_str()) {
                    Ok(chat) => {
                        self.deliver(chat);
                        Ok(Effect { render: true, send: None, input: None })
                    },
                    Err(e) => Err(e),
                }
            },
            WebSocketMessage::Register(_) => Ok(Effect { render: false, send: None, input: None }),
        }
    }

    /// Handles a frame from the server.
    pub fn receive(&mut self, frame: &str) -> (r: Result<Effect, DecodeError>)
        ensures
            final(self).model() == receive(old(self).model(), frame@).state,
            effect_outcome(r) == receive(old(self).model(), frame@).outcome,
    {
        match WebSocketMessage::decode(frame) {
            Ok(message) => self.apply(message),
            Err(e) => Err(e),
        }
    }

    /// Sends what the text input holds.
    pub fn submit(&self, input: Option<&str>) -> (effect: Effect)
        ensures
            Ok::<EffectModel, DecodeError>(effect@) == submit(self.model(), str_option(input)).outcome,
    {
        match input {
            Some(value) => {
                let frame = WebSocketMessage::Message(value.to_owned()).encode();
                Effect { render: false, send: Some(frame), input: Some(String::new()) }
            },
            None => Effect { render: false, send: None, input: None },
        }
    }

    /// Opens the emoji panel if it is closed, closes it if it is open.
    pub fn toggle_emoji_panel(&mut self) -> (effect: Effect)
        ensures
            final(self).model() == toggle_emoji_panel(old(self).model()).state,
            Ok::<EffectModel, DecodeError>(effect@) == toggle_emoji_panel(old(self).model()).outcome,
    {
        self.emoji_panel_open = !self.emoji_panel_open;
        Effect { render: true, send: None, input: None }
    }

    /// Adds an emoji to the text input and closes the panel.
    pub fn select_emoji(&mut self, emoji: &str, input: Option<&str>) -> (effect: Effect)
        ensures
            final(self).model() == select_emoji(old(self).model(), emoji@, str_option(input)).state,
            Ok::<EffectModel, DecodeError>(effect@) == select_emoji(
                old(self).model(),
                emoji@,
                str_option(input),
            ).outcome,
    {
        let value = match input {
            Some(value) => {
                let mut value = join(value, " ");
                value.append(emoji);
                Some(value)
            },
            None => None,
        };
        self.emoji_panel_open = false;
        Effect { render: true, send: None, input: value }
    }

    /// Takes a new background.
    pub fn change_background(&mut self, background: String) -> (effect: Effect)
        ensures
            final(self).model() == change_background(old(self).model(), background@).state,
            Ok::<EffectModel, DecodeError>(effect@) == change_background(
                old(self).model(),
                background@,
            ).outcome,
    {
        self.current_background = background;
        Effect { render: true, send: None, input: None }
    }

    /// What the screen shows.
    pub fn view(&self) -> (r: ChatView)
        ensures
            r@ == screen(self.model()),
    {
        let profiles = self.users.profiles();
        let mut users: Vec<UserProfile> = Vec::new();
        let mut i: usize = 0;
        while i < profiles.len()
            invariant
                i <= profiles@.len(),
                users@.len() == i,
                forall|k: int| 0 <= k < i ==> (#[trigger] users@[k])@ == profiles@[k]@,
            decreases profiles@.len() - i,
        {
            users.push(
                UserProfile { name: profiles[i].name.clone(), avatar: profiles[i].avatar.clone() },
            );
            i += 1;
        }
        assert(roster_view(users@) =~= self.model().users);

        let mut messages: Vec<MessageRow> = Vec::new();
        let mut j: usize = 0;
        while j < self.messages.len()
            invariant
                j <= self.messages@.len(),
                messages@.len() == j,
                forall|k: int| 0 <= k < j ==> (#[trigger] messages@[k])@ == row_of(self.messages@[k]@),
            decreases self.messages@.len() - j,
        {
            let message = &self.messages[j];
            messages.push(
                MessageRow {
                    from: message.from.clone(),
                    avatar: self.users.avatar_of(message.from.as_str()),
                    body: message.body(),
                },
            );
            j += 1;
        }
        assert(rows_view(messages@) =~= screen(self.model()).messages);

        ChatView {
            background: self.current_background.clone(),
            backgrounds: backgrounds(),
            users,
            messages,
            emoji_panel: if self.emoji_panel_open {
                Some(emojis())
            } else {
                None
            },
        }
    }

    /// The roster.
    pub fn users(&self) -> (users: &Vec<UserProfile>)
        ensures
            roster_view(users@) == self.model().users,
    {
        self.users.profiles()
    }

    /// The chat messages received, oldest first.
    pub fn messages(&self) -> (messages: &Vec<MessageData>)
        ensures
            messages_view(messages@) == self.model().messages,
    {
        &self.messages
    }

    /// Whether the emoji panel is open.
    pub fn emoji_panel_open(&self) -> (open: bool)
        ensures
            open == self.model().emoji_panel_open,
    {
        self.emoji_panel_open
    }

    /// The background in use.
    pub fn current_background(&self) -> (background: &str)
        ensures
            background@ == self.model().current_background,
    {
        self.current_background.as_str()
    }

}

// ---------------------------------------------------------------------------
// Laws
// ---------------------------------------------------------------------------

/// The state after a run of incoming frames, handled in order.
pub open spec fn receive_all(state: ChatModel, frames: Seq<Seq<char>>) -> ChatModel
    decreases frames.len(),
{
    if frames.len() == 0 {
        state
    } else {
        receive(receive_all(state, frames.drop_last()), frames.last()).state
    }
}

/// The chat message that a frame brings: that of a `message` frame whose
/// payload decodes, and of no other frame.
pub open spec fn carried(frame: Seq<char>) -> Option<MessageModel> {
    match wire_decode(frame) {
        Ok(WireModel::Message(payload)) => match chat_decode(payload) {
            Ok(chat) => Some(chat),
            Err(_) => None,
        },
        _ => None,
    }
}

/// The names that a frame announces: those of a `users` frame.
pub open spec fn announced(frame: Seq<char>) -> Option<Seq<Seq<char>>> {
    match wire_decode(frame) {
        Ok(WireModel::Users(names)) => Some(names),
        _ => None,
    }
}

/// The chat messages that a run of frames brings, in the order of the run.
pub open spec fn delivered(frames: Seq<Seq<char>>) -> Seq<MessageModel>
    decreases frames.len(),
{
    if frames.len() == 0 {
        Seq::empty()
    } else {
        match carried(frames.last()) {
            Some(chat) => delivered(frames.drop_last()).push(chat),
            None => delivered(frames.drop_last()),
        }
    }
}

/// The names of the last `users` frame of a run, if it has one.
pub open spec fn last_roster(frames: Seq<Seq<char>>) -> Option<Seq<Seq<char>>>
    decreases frames.len(),
{
    if frames.len() == 0 {
        None
    } else {
        match announced(frames.last()) {
            Some(names) => Some(names),
            None => last_roster(frames.drop_last()),
        }
    }
}

/// After a run of frames the message list is the old list followed by the
/// chat messages that the run brought, in arrival order; the roster is that
/// of the last `users` frame, or the old one where there was none. Neither
/// depends on the frames of the other kind, and the panel and the
/// background are as they were.
pub proof fn lemma_receive_all(state: ChatModel, frames: Seq<Seq<char>>)
    ensures
        receive_all(state, frames).messages == state.messages + delivered(frames),
        receive_all(state, frames).users == match last_roster(frames) {
            Some(names) => roster_of(names),
            None => state.users,
        },
        receive_all(state, frames).emoji_panel_open == state.emoji_panel_open,
        receive_all(state, frames).current_background == state.current_background,
    decreases frames.len(),
{
    if frames.len() == 0 {
        assert(state.messages + delivered(frames) =~= state.messages);
    } else {
        lemma_receive_all(state, frames.drop_last());
        let before = receive_all(state, frames.drop_last());
        match carried(frames.last()) {
            Some(chat) => {
                assert(state.messages + delivered(frames) =~= before.messages.push(chat));
            },
            None => {},
        }
    }
}

/// A roster update gives one profile per name, in the order of the names and
/// with every repetition kept, each with the avatar of its own name; the
/// message list is not touched.
pub proof fn lemma_users_update(state: ChatModel, names: Seq<Seq<char>>)
    ensures
        apply(state, WireModel::Users(names)).state.users.len() == names.len(),
        forall|i: int|
            0 <= i < names.len() ==> {
                &&& (#[trigger] apply(state, WireModel::Users(names)).state.users[i]).name
                    == names[i]
                &&& apply(state, WireModel::Users(names)).state.users[i].avatar == avatar_url(
                    names[i],
                )
            },
        apply(state, WireModel::Users(names)).state.messages == state.messages,
{
}

/// A run of `N` frames that each bring a chat message adds exactly those
/// `N` messages, the i-th frame's in the i-th place.
pub proof fn lemma_messages_arrive_in_order(frames: Seq<Seq<char>>)
    requires
        forall|i: int| 0 <= i < frames.len() ==> carried(#[trigger] frames[i]).is_some(),
    ensures
        delivered(frames).len() == frames.len(),
        forall|i: int|
            0 <= i < frames.len() ==> Some(#[trigger] delivered(frames)[i]) == carried(frames[i]),
    decreases frames.len(),
{
    if frames.len() > 0 {
        let rest = frames.drop_last();
        assert forall|i: int| 0 <= i < rest.len() implies carried(#[trigger] rest[i]).is_some() by {
            assert(rest[i] == frames[i]);
        }
        lemma_messages_arrive_in_order(rest);
        assert(carried(frames[frames.len() - 1]).is_some());
        assert forall|i: int| 0 <= i < frames.len() implies Some(#[trigger] delivered(frames)[i])
            == carried(frames[i]) by {
            if i < rest.len() {
                assert(rest[i] == frames[i]);
                assert(delivered(frames)[i] == delivered(rest)[i]);
            }
        }
    }
}

/// What two runs bring one after the other is what the first brings
/// followed by what the second brings.
pub proof fn lemma_delivered_in_sequence(first: Seq<Seq<char>>, second: Seq<Seq<char>>)
    ensures
        delivered(first + second) == delivered(first) + delivered(second),
    decreases second.len(),
{
    if second.len() == 0 {
        assert(first + second =~= first);
        assert(delivered(first) + delivered(second) =~= delivered(first));
    } else {
        let whole = first + second;
        assert(whole.drop_last() =~= first + second.drop_last());
        assert(whole.last() == second.last());
        lemma_delivered_in_sequence(first, second.drop_last());
        match carried(second.last()) {
            Some(chat) => {
                assert(delivered(whole) =~= delivered(first) + delivered(second));
            },
            None => {},
        }
    }
}

/// A frame that brings no chat message, such as a `users` frame, may stand
/// anywhere among the frames of a run: the messages that the run brings are
/// the same with it as without it.
pub proof fn lemma_other_frames_bring_nothing(
    frames: Seq<Seq<char>>,
    at: int,
    frame: Seq<char>,
)
    requires
        0 <= at <= frames.len(),
        carried(frame).is_none(),
    ensures
        delivered(frames.insert(at, frame)) == delivered(frames),
{
    let head = frames.subrange(0, at);
    let tail = frames.subrange(at, frames.len() as int);
    let one = seq![frame];
    assert(frames.insert(at, frame) =~= head + one + tail);
    assert(frames =~= head + tail);
    assert(one.drop_last().len() == 0);
    assert(delivered(one) =~= Seq::<MessageModel>::empty()) by {
        assert(one.last() == frame);
        assert(delivered(one.drop_last()) =~= Seq::<MessageModel>::empty());
    }
    lemma_delivered_in_sequence(head, one);
    lemma_delivered_in_sequence(head + one, tail);
    lemma_delivered_in_sequence(head, tail);
    assert(delivered(head) + delivered(one) =~= delivered(head));
}

/// A `users` frame brings no chat message, and a frame that brings a chat
/// message announces no roster.
pub proof fn lemma_kinds_are_apart(frame: Seq<char>)
    ensures
        !(announced(frame).is_some() && carried(frame).is_some()),
{
}

/// The test for an image is exact about case: a text that ends in `.gif`
/// is an image, the same text with `.GIF` in its place is not.
pub proof fn lemma_image_suffix_is_exact(stem: Seq<char>)
    ensures
        is_image(stem + ".gif"@),
        !is_image(stem + ".GIF"@),
{
    reveal_strlit(".gif");
    reveal_strlit(".GIF");
    let lower = stem + ".gif"@;
    let upper = stem + ".GIF"@;
    assert(".gif"@.len() == 4 && ".GIF"@.len() == 4);
    assert(lower.subrange(lower.len() - 4, lower.len() as int) =~= ".gif"@);
    assert(upper.subrange(upper.len() - 4, upper.len() as int) =~= ".GIF"@);
    assert(".gif"@[1] == 'g' && ".GIF"@[1] == 'G');
}

} // verus!
