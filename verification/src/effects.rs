use crate::error::WorkflowError;
use crate::snowflake::Snowflake;
use vstd::prelude::*;

verus! {

/// The colour of an embed's side bar.
#[derive(Clone, Copy, Debug, PartialEq, Eq, Structural)]
pub enum Tint {
    Purple,
    DarkPurple,
    DarkGreen,
    FabledPink,
}

/// The framed part of a message.
#[derive(Debug)]
pub struct Embed {
    pub title: String,
    pub description: String,
    pub footer: String,
    pub tint: Tint,
}

/// What an `Embed` stands for.
pub struct EmbedView {
    pub title: Seq<char>,
    pub description: Seq<char>,
    pub footer: Seq<char>,
    pub tint: Tint,
}

impl View for Embed {
    type V = EmbedView;

    open spec fn view(&self) -> EmbedView {
        EmbedView {
            title: self.title@,
            description: self.description@,
            footer: self.footer@,
            tint: self.tint,
        }
    }
}

impl Clone for Embed {
    fn clone(&self) -> (copy: Self)
        ensures
            copy == *self,
    {
        Embed {
            title: self.title.clone(),
            description: self.description.clone(),
            footer: self.footer.clone(),
            tint: self.tint,
        }
    }
}

/// The numbers behind a list of identifiers.
pub open spec fn raw_ids(list: Seq<Snowflake>) -> Seq<u64> {
    list.map_values(|id: Snowflake| id@)
}

/// Whom a message may notify among those that its text mentions.
#[derive(Debug)]
pub enum Notify {
    /// Everyone that the text mentions.
    AsWritten,
    /// These users and nobody else.
    Users(Vec<Snowflake>),
    /// The holders of this role and nobody else.
    Role(Snowflake),
}

/// What a `Notify` stands for.
pub enum NotifyView {
    AsWritten,
    Users(Seq<u64>),
    Role(u64),
}

impl View for Notify {
    type V = NotifyView;

    open spec fn view(&self) -> NotifyView {
        match *self {
            Notify::AsWritten => NotifyView::AsWritten,
            Notify::Users(list) => NotifyView::Users(raw_ids(list@)),
            Notify::Role(id) => NotifyView::Role(id@),
        }
    }
}

impl Notify {
    /// Leave to notify `user` and nobody else.
    pub fn only(user: Snowflake) -> (notify: Notify)
        ensures
            notify@ == NotifyView::Users(seq![user@]),
    {
        let mut list = Vec::new();
        list.push(user);
        assert(raw_ids(list@) =~= seq![user@]);
        Notify::Users(list)
    }

    /// Leave to notify `first` and `second` and nobody else.
    pub fn both(first: Snowflake, second: Snowflake) -> (notify: Notify)
        ensures
            notify@ == NotifyView::Users(seq![first@, second@]),
    {
        let mut list = Vec::new();
        list.push(first);
        list.push(second);
        assert(raw_ids(list@) =~= seq![first@, second@]);
        Notify::Users(list)
    }

    /// Leave to notify no user at all.
    pub fn nobody() -> (notify: Notify)
        ensures
            notify@ == NotifyView::Users(Seq::empty()),
    {
        let list: Vec<Snowflake> = Vec::new();
        assert(raw_ids(list@) =~= Seq::<u64>::empty());
        Notify::Users(list)
    }
}

/// A message for a channel or a member. An empty `content` stands for none.
#[derive(Debug)]
pub struct Message {
    pub content: String,
    pub embed: Option<Embed>,
    pub notify: Notify,
}

/// What a `Message` stands for.
pub struct MessageView {
    pub content: Seq<char>,
    pub embed: Option<EmbedView>,
    pub notify: NotifyView,
}

impl View for Message {
    type V = MessageView;

    open spec fn view(&self) -> MessageView {
        MessageView {
            content: self.content@,
            embed: match self.embed {
                Some(e) => Some(e@),
                None => None,
            },
            notify: self.notify@,
        }
    }
}

/// A message that is its text alone and notifies whom the text mentions.
pub open spec fn plain_message(content: Seq<char>) -> MessageView {
    MessageView { content, embed: None, notify: NotifyView::AsWritten }
}

impl Message {
    /// A message that is its text alone and notifies whom the text mentions.
    pub fn plain(content: String) -> (message: Message)
        ensures
            message@ == plain_message(content@),
    {
        Message { content, embed: None, notify: Notify::AsWritten }
    }
}

/// What the one who invoked a command gets back.
#[derive(Debug)]
pub struct Reply {
    pub message: Message,
    /// The address of a file to attach, if any.
    pub attachment: Option<String>,
    /// Whether only the invoker sees the reply.
    pub ephemeral: bool,
}

/// What a `Reply` stands for.
pub struct ReplyView {
    pub message: MessageView,
    pub attachment: Option<Seq<char>>,
    pub ephemeral: bool,
}

impl View for Reply {
    type V = ReplyView;

    open spec fn view(&self) -> ReplyView {
        ReplyView {
            message: self.message@,
            attachment: match self.attachment {
                Some(address) => Some(address@),
                None => None,
            },
            ephemeral: self.ephemeral,
        }
    }
}

/// A reply for all to see that is its text alone.
pub open spec fn said(content: Seq<char>) -> ReplyView {
    ReplyView { message: plain_message(content), attachment: None, ephemeral: false }
}

/// A reply for the invoker alone that is its text alone.
pub open spec fn whispered(content: Seq<char>) -> ReplyView {
    ReplyView { message: plain_message(content), attachment: None, ephemeral: true }
}

impl Reply {
    /// A reply for all to see that is its text alone.
    pub fn say(content: &str) -> (reply: Reply)
        ensures
            reply@ == said(content@),
    {
        Reply { message: Message::plain(String::from_str(content)), attachment: None, ephemeral: false }
    }

    /// A reply for the invoker alone that is its text alone.
    pub fn whisper(content: &str) -> (reply: Reply)
        ensures
            reply@ == whispered(content@),
    {
        Reply { message: Message::plain(String::from_str(content)), attachment: None, ephemeral: true }
    }
}

/// What a workflow asks the platform to do next.
#[derive(Debug)]
pub enum Action {
    /// Report which roles `user` holds in the community.
    FetchRoles { user: Snowflake },
    /// Give `role` to `user`.
    GrantRole { user: Snowflake, role: Snowflake },
    /// Make sure that a stored profile exists for `user`.
    EnsureProfile { user: Snowflake },
    /// Post `message` in `channel`.
    Post { channel: Snowflake, message: Message },
    /// Send `message` to `user` in private.
    Direct { user: Snowflake, message: Message },
    /// Remove `user` from the community.
    Remove { user: Snowflake },
}

/// What an `Action` stands for.
pub enum ActionView {
    FetchRoles { user: u64 },
    GrantRole { user: u64, role: u64 },
    EnsureProfile { user: u64 },
    Post { channel: u64, message: MessageView },
    Direct { user: u64, message: MessageView },
    Remove { user: u64 },
}

impl View for Action {
    type V = ActionView;

    open spec fn view(&self) -> ActionView {
        match *self {
            Action::FetchRoles { user } => ActionView::FetchRoles { user: user@ },
            Action::GrantRole { user, role } => ActionView::GrantRole { user: user@, role: role@ },
            Action::EnsureProfile { user } => ActionView::EnsureProfile { user: user@ },
            Action::Post { channel, message } => ActionView::Post {
                channel: channel@,
                message: message@,
            },
            Action::Direct { user, message } => ActionView::Direct { user: user@, message: message@ },
            Action::Remove { user } => ActionView::Remove { user: user@ },
        }
    }
}

/// What the platform answered to the last action.
#[derive(Debug)]
pub enum Event {
    /// Nothing was asked yet.
    Begin,
    /// The roles that the member in question holds.
    Roles(Vec<u64>),
    /// The action was carried out.
    Done,
    /// The action could not be carried out.
    Failed,
}

/// What an `Event` stands for.
pub enum EventView {
    Begin,
    Roles(Seq<u64>),
    Done,
    Failed,
}

impl View for Event {
    type V = EventView;

    open spec fn view(&self) -> EventView {
        match *self {
            Event::Begin => EventView::Begin,
            Event::Roles(held) => EventView::Roles(held@),
            Event::Done => EventView::Done,
            Event::Failed => EventView::Failed,
        }
    }
}

/// How a workflow ended, and what to tell the one who asked for it.
#[derive(Debug)]
pub struct Outcome {
    pub result: Result<(), WorkflowError>,
    pub reply: Option<String>,
}

/// What an `Outcome` stands for.
pub struct OutcomeView {
    pub result: Result<(), WorkflowError>,
    pub reply: Option<Seq<char>>,
}

impl View for Outcome {
    type V = OutcomeView;

    open spec fn view(&self) -> OutcomeView {
        OutcomeView {
            result: self.result,
            reply: match self.reply {
                Some(text) => Some(text@),
                None => None,
            },
        }
    }
}

/// A workflow after one step: either it goes on, and asks for an action, or
/// it has ended.
#[derive(Debug)]
pub enum Progress<F, R> {
    Next { flow: F, action: Action },
    Finished(R),
}

/// What a `Progress` stands for.
pub enum ProgressView<F, R> {
    Next { flow: F, action: ActionView },
    Finished(R),
}

impl<F: View, R: View> View for Progress<F, R> {
    type V = ProgressView<F::V, R::V>;

    open spec fn view(&self) -> ProgressView<F::V, R::V> {
        match *self {
            Progress::Next { flow, action } => ProgressView::Next { flow: flow@, action: action@ },
            Progress::Finished(end) => ProgressView::Finished(end@),
        }
    }
}

} // verus!
