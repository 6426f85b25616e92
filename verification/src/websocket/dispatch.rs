//! What the websocket service does with each event from the broker: what
//! it reads from the database, who is concerned, and which fan-out of the
//! websocket server tells them.

use vstd::prelude::*;
use crate::websocket::messages::BrokerEvent;

verus! {

/// What to read from the database for an event.
pub enum Fetch {
    Nothing,
    /// The channel with this id.
    Channel(u128),
    /// The server with this id.
    Server(u128),
    /// The server with this id, its channels and its members.
    ServerWithChannelsAndMembers(u128),
    /// The user with this id.
    User(u128),
    /// The message with this id and its author.
    MessageWithAuthor(u128),
}

/// Whose sessions an event concerns.
pub enum Audience {
    Nobody,
    /// Every connected session.
    Everyone,
    /// The user with this id.
    User(u128),
    /// The members of the server with this id.
    ServerMembers(u128),
    /// The members of the server of the channel that was read.
    FetchedChannelServerMembers,
    /// The members of the server of the channel with this id.
    ChannelMembers(u128),
}

/// Which fan-out of the websocket server delivers the event.
pub enum FanOut {
    /// No client is told.
    Ignore,
    NewChannel,
    NewServer { user_id: u128 },
    NewUser { user_id: u128, server_id: u128 },
    UserLeft { user_id: u128, server_id: u128 },
    DeleteServer { server_id: u128 },
    UpdateServer,
    NewMessage,
}

/// How the websocket service handles one event.
pub struct EventPlan {
    pub fetch: Fetch,
    pub audience: Audience,
    pub fan_out: FanOut,
}

/// The plan for each event: a new channel goes to the members of its
/// server; a new server, with its channels and members, to the user who
/// now belongs to it; a new member to the other members; a departure to
/// the leaving user and the remaining members; a deleted server to every
/// session; a changed server to its members; a new message, with its
/// author, to the members of its channel's server. Deleted and renamed
/// channels are not passed on.
pub open spec fn event_plan(event: BrokerEvent) -> EventPlan {
    match event {
        BrokerEvent::NewChannel { channel_id } => EventPlan {
            fetch: Fetch::Channel(channel_id),
            audience: Audience::FetchedChannelServerMembers,
            fan_out: FanOut::NewChannel,
        },
        BrokerEvent::NewServer { user_id, server_id } => EventPlan {
            fetch: Fetch::ServerWithChannelsAndMembers(server_id),
            audience: Audience::User(user_id),
            fan_out: FanOut::NewServer { user_id },
        },
        BrokerEvent::NewUser { user_id, server_id } => EventPlan {
            fetch: Fetch::User(user_id),
            audience: Audience::ServerMembers(server_id),
            fan_out: FanOut::NewUser { user_id, server_id },
        },
        BrokerEvent::UserLeft { user_id, server_id } => EventPlan {
            fetch: Fetch::Nothing,
            audience: Audience::ServerMembers(server_id),
            fan_out: FanOut::UserLeft { user_id, server_id },
        },
        BrokerEvent::DeleteServer { server_id } => EventPlan {
            fetch: Fetch::Nothing,
            audience: Audience::Everyone,
            fan_out: FanOut::DeleteServer { server_id },
        },
        BrokerEvent::UpdateServer { server_id } => EventPlan {
            fetch: Fetch::Server(server_id),
            audience: Audience::ServerMembers(server_id),
            fan_out: FanOut::UpdateServer,
        },
        BrokerEvent::NewMessage { channel_id, message_id } => EventPlan {
            fetch: Fetch::MessageWithAuthor(message_id),
            audience: Audience::ChannelMembers(channel_id),
            fan_out: FanOut::NewMessage,
        },
        BrokerEvent::DeleteChannel { .. } => EventPlan {
            fetch: Fetch::Nothing,
            audience: Audience::Nobody,
            fan_out: FanOut::Ignore,
        },
        BrokerEvent::UpdateChannel { .. } => EventPlan {
            fetch: Fetch::Nothing,
            audience: Audience::Nobody,
            fan_out: FanOut::Ignore,
        },
    }
}

/// The plan for an event from the broker.
pub fn plan_event(event: &BrokerEvent) -> (plan: EventPlan)
    ensures
        plan == event_plan(*event),
        match *event {
            BrokerEvent::NewChannel { channel_id } => plan.fetch == Fetch::Channel(channel_id)
                && plan.audience == Audience::FetchedChannelServerMembers && plan.fan_out == FanOut::NewChannel,
            BrokerEvent::NewServer { user_id, server_id } => plan.fetch == Fetch::ServerWithChannelsAndMembers(server_id)
                && plan.audience == Audience::User(user_id) && plan.fan_out == (FanOut::NewServer { user_id }),
            BrokerEvent::NewUser { user_id, server_id } => plan.fetch == Fetch::User(user_id)
                && plan.audience == Audience::ServerMembers(server_id) && plan.fan_out == (FanOut::NewUser {
                user_id,
                server_id,
            }),
            BrokerEvent::UserLeft { user_id, server_id } => plan.fetch == Fetch::Nothing
                && plan.audience == Audience::ServerMembers(server_id) && plan.fan_out == (FanOut::UserLeft {
                user_id,
                server_id,
            }),
            BrokerEvent::DeleteServer { server_id } => plan.fetch == Fetch::Nothing && plan.audience == Audience::Everyone
                && plan.fan_out == (FanOut::DeleteServer { server_id }),
            BrokerEvent::UpdateServer { server_id } => plan.fetch == Fetch::Server(server_id)
                && plan.audience == Audience::ServerMembers(server_id) && plan.fan_out == FanOut::UpdateServer,
            BrokerEvent::NewMessage { channel_id, message_id } => plan.fetch == Fetch::MessageWithAuthor(message_id)
                && plan.audience == Audience::ChannelMembers(channel_id) && plan.fan_out == FanOut::NewMessage,
            BrokerEvent::DeleteChannel { .. } => plan.fan_out == FanOut::Ignore && plan.audience == Audience::Nobody,
            BrokerEvent::UpdateChannel { .. } => plan.fan_out == FanOut::Ignore && plan.audience == Audience::Nobody,
        },
        !(event is DeleteChannel || event is UpdateChannel) ==> !(plan.fan_out is Ignore) && !(plan.audience is Nobody),
{
    match event {
        BrokerEvent::NewChannel { channel_id } => EventPlan {
            fetch: Fetch::Channel(*channel_id),
            audience: Audience::FetchedChannelServerMembers,
            fan_out: FanOut::NewChannel,
        },
        BrokerEvent::NewServer { user_id, server_id } => EventPlan {
            fetch: Fetch::ServerWithChannelsAndMembers(*server_id),
            audience: Audience::User(*user_id),
            fan_out: FanOut::NewServer { user_id: *user_id },
        },
        BrokerEvent::NewUser { user_id, server_id } => EventPlan {
            fetch: Fetch::User(*user_id),
            audience: Audience::ServerMembers(*server_id),
            fan_out: FanOut::NewUser { user_id: *user_id, server_id: *server_id },
        },
        BrokerEvent::UserLeft { user_id, server_id } => EventPlan {
            fetch: Fetch::Nothing,
            audience: Audience::ServerMembers(*server_id),
            fan_out: FanOut::UserLeft { user_id: *user_id, server_id: *server_id },
        },
        BrokerEvent::DeleteServer { server_id } => EventPlan {
            fetch: Fetch::Nothing,
            audience: Audience::Everyone,
            fan_out: FanOut::DeleteServer { server_id: *server_id },
        },
        BrokerEvent::UpdateServer { server_id } => EventPlan {
            fetch: Fetch::Server(*server_id),
            audience: Audience::ServerMembers(*server_id),
            fan_out: FanOut::UpdateServer,
        },
        BrokerEvent::NewMessage { channel_id, message_id } => EventPlan {
            fetch: Fetch::MessageWithAuthor(*message_id),
            audience: Audience::ChannelMembers(*channel_id),
            fan_out: FanOut::NewMessage,
        },
        BrokerEvent::DeleteChannel { .. } => EventPlan {
            fetch: Fetch::Nothing,
            audience: Audience::Nobody,
            fan_out: FanOut::Ignore,
        },
        BrokerEvent::UpdateChannel { .. } => EventPlan {
            fetch: Fetch::Nothing,
            audience: Audience::Nobody,
            fan_out: FanOut::Ignore,
        },
    }
}

/// Every event but a deleted or renamed channel is passed on: it has a
/// fan-out and concerns someone. Each event reads what its message needs
/// and addresses the sessions it concerns, through the fan-out for that
/// kind of event.
pub proof fn lemma_events_reach_their_audience(event: BrokerEvent)
    ensures
        !(event is DeleteChannel || event is UpdateChannel) ==> !(event_plan(event).fan_out is Ignore) && !(
        event_plan(event).audience is Nobody),
        (event is DeleteChannel || event is UpdateChannel) ==> event_plan(event).fan_out is Ignore,
        event matches BrokerEvent::UpdateServer { server_id } ==> event_plan(event).fetch == Fetch::Server(server_id)
            && event_plan(event).audience == Audience::ServerMembers(server_id) && event_plan(event).fan_out
            is UpdateServer,
        event matches BrokerEvent::NewChannel { channel_id } ==> event_plan(event).fetch == Fetch::Channel(channel_id)
            && event_plan(event).audience is FetchedChannelServerMembers && event_plan(event).fan_out is NewChannel,
        event matches BrokerEvent::NewServer { user_id, server_id } ==> event_plan(event).fetch
            == Fetch::ServerWithChannelsAndMembers(server_id) && event_plan(event).audience == Audience::User(user_id)
            && event_plan(event).fan_out == (FanOut::NewServer { user_id }),
        event matches BrokerEvent::NewUser { user_id, server_id } ==> event_plan(event).fetch == Fetch::User(user_id)
            && event_plan(event).audience == Audience::ServerMembers(server_id) && event_plan(event).fan_out == (
        FanOut::NewUser { user_id, server_id }),
        event matches BrokerEvent::UserLeft { user_id, server_id } ==> event_plan(event).audience
            == Audience::ServerMembers(server_id) && event_plan(event).fan_out == (FanOut::UserLeft { user_id, server_id }),
        event matches BrokerEvent::DeleteServer { server_id } ==> event_plan(event).audience is Everyone
            && event_plan(event).fan_out == (FanOut::DeleteServer { server_id }),
        event matches BrokerEvent::NewMessage { channel_id, message_id } ==> event_plan(event).fetch
            == Fetch::MessageWithAuthor(message_id) && event_plan(event).audience == Audience::ChannelMembers(channel_id)
            && event_plan(event).fan_out is NewMessage,
{
}

} // verus!
