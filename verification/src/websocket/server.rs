//! The websocket server: which user is connected on which session, and who
//! is told about each event.

use vstd::prelude::*;
use std::collections::HashMap;
use vstd::std_specs::iter::IteratorSpec;
use crate::domain::channels::ChannelResponse;
use crate::domain::messages::MessageResponse;
use crate::domain::servers::ServerResponse;
use crate::domain::users::UserResponse;
use crate::websocket::messages::{Delivery, IdentifyUser, WebSocketClose, WebSocketSessionMessage};

verus! {

broadcast use vstd::std_specs::hash::group_hash_axioms;

/// The sessions of the `affected` users that are connected, in the order of
/// `affected`, leaving out the user `excluded` if one is given.
pub open spec fn sessions_of(users: Map<u128, u64>, affected: Seq<u128>, excluded: Option<u128>) -> Seq<u64>
    decreases affected.len(),
{
    if affected.len() == 0 {
        Seq::<u64>::empty()
    } else {
        let before = sessions_of(users, affected.drop_last(), excluded);
        let u = affected.last();
        if users.contains_key(u) && excluded != Some(u) {
            before.push(users[u])
        } else {
            before
        }
    }
}

/// `sessions` holds the session of every connected user exactly once.
pub open spec fn lists_every_session(users: Map<u128, u64>, sessions: Seq<u64>) -> bool {
    exists|keys: Seq<u128>|
        #![trigger keys.to_set()]
        keys.no_duplicates() && keys.to_set() == users.dom() && sessions == keys.map_values(
            |u: u128| users[u],
        )
}

/// Knows the session of each identified user.
pub struct WebSocketServer {
    users: HashMap<u128, u64>,
}

impl View for WebSocketServer {
    type V = Map<u128, u64>;

    /// Each connected user and the handle of their session.
    closed spec fn view(&self) -> Map<u128, u64> {
        self.users@
    }
}

impl WebSocketServer {
    /// A server with nobody connected.
    pub fn new() -> (server: WebSocketServer)
        ensures
            server@ == Map::<u128, u64>::empty(),
    {
        WebSocketServer { users: HashMap::new() }
    }

    /// The session of `user_id`, if they are connected.
    pub fn session_of(&self, user_id: u128) -> (session: Option<u64>)
        ensures
            match session {
                Some(s) => self@.contains_key(user_id) && self@[user_id] == s,
                None => !self@.contains_key(user_id),
            },
    {
        match self.users.get(&user_id) {
            Some(s) => Some(*s),
            None => None,
        }
    }

    /// Remember that `user_id` is connected on `session`; an earlier session
    /// of the same user is forgotten.
    pub fn identify_user(&mut self, user_id: u128, session: u64)
        ensures
            final(self)@ == old(self)@.insert(user_id, session),
    {
        self.users.insert(user_id, session);
    }

    /// Forget the session of `user_id`.
    pub fn close_user(&mut self, user_id: u128)
        ensures
            final(self)@ == old(self)@.remove(user_id),
    {
        self.users.remove(&user_id);
    }

    /// Handle an identified session: remember it.
    pub fn handle_identify(&mut self, msg: IdentifyUser)
        ensures
            final(self)@ == old(self)@.insert(msg.user_id, msg.session),
    {
        self.identify_user(msg.user_id, msg.session);
    }

    /// Handle a closed session: forget it.
    pub fn handle_close(&mut self, msg: WebSocketClose)
        ensures
            final(self)@ == old(self)@.remove(msg.user_id),
    {
        self.close_user(msg.user_id);
    }

    /// The sessions of the connected users among `affected`, in order,
    /// leaving out `excluded` if given.
    pub fn recipients(&self, affected: &Vec<u128>, excluded: Option<u128>) -> (sessions: Vec<u64>)
        ensures
            sessions@ == sessions_of(self@, affected@, excluded),
    {
        let mut sessions: Vec<u64> = Vec::new();
        let n = affected.len();
        let mut i: usize = 0;
        assert(affected@.take(0) =~= Seq::<u128>::empty());
        while i < n
            invariant
                n == affected@.len(),
                i <= n,
                sessions@ == sessions_of(self@, affected@.take(i as int), excluded),
            decreases n - i,
        {
            let u = affected[i];
            let ghost taken = affected@.take(i + 1);
            assert(taken.drop_last() =~= affected@.take(i as int));
            assert(taken.last() == u);
            let skip = match excluded {
                Some(x) => x == u,
                None => false,
            };
            if !skip {
                match self.users.get(&u) {
                    Some(s) => {
                        sessions.push(*s);
                    },
                    None => {},
                }
            }
            i = i + 1;
        }
        assert(affected@.take(n as int) =~= affected@);
        sessions
    }

    /// The session of every connected user, each once, in no particular order.
    pub fn all_sessions(&self) -> (sessions: Vec<u64>)
        ensures
            lists_every_session(self@, sessions@),
    {
        let mut sessions: Vec<u64> = Vec::new();
        let keys = self.users.keys();
        let ghost all = keys.remaining();
        proof {
            assert(keys == vstd::std_specs::hash::spec_keys_iter(&self.users));
            assert(all.unref().to_set() == self@.dom());
            assert(all.no_duplicates());
            assert forall|j: int| 0 <= j < all.len() implies self@.contains_key(*all[j]) by {
                assert(all.unref()[j] == *all[j]);
                assert(all.unref().to_set().contains(all.unref()[j]));
            }
        }
        for k in it: keys
            invariant
                it.seq() == all,
                sessions@ == it.seq().take(it.index() as int).map_values(|u: &u128| self@[*u]),
                forall|j: int| 0 <= j < it.seq().len() ==> self@.contains_key(*it.seq()[j]),
        {
            let ghost before = sessions@;
            match self.users.get(k) {
                Some(s) => sessions.push(*s),
                None => {},
            }
            assert(it.seq().take(it.index() + 1 as int).drop_last() =~= it.seq().take(it.index() as int));
        }
        proof {
            let keys = all.unref();
            assert(sessions@ =~= keys.map_values(|u: u128| self@[u]));
            assert(keys.no_duplicates()) by {
                assert forall|a: int, b: int| 0 <= a < keys.len() && 0 <= b < keys.len() && a != b implies keys[a] != keys[b] by {
                    assert(all[a] != all[b]);
                }
            }
            assert(keys.to_set() =~= self@.dom());
        }
        sessions
    }

    /// A new message: every connected user who can read the channel
    /// (`affected`) gets it.
    pub fn new_message(&self, message: MessageResponse, affected: &Vec<u128>) -> (d: Delivery)
        ensures
            d.recipients@ == sessions_of(self@, affected@, None),
            d.message == WebSocketSessionMessage::AddMessage(message),
    {
        Delivery { recipients: self.recipients(affected, None), message: WebSocketSessionMessage::AddMessage(message) }
    }

    /// A new channel: every connected user on its server (`affected`) gets it.
    pub fn new_channel(&self, channel: ChannelResponse, affected: &Vec<u128>) -> (d: Delivery)
        ensures
            d.recipients@ == sessions_of(self@, affected@, None),
            d.message == WebSocketSessionMessage::AddChannel(channel),
    {
        Delivery { recipients: self.recipients(affected, None), message: WebSocketSessionMessage::AddChannel(channel) }
    }

    /// A server the user now belongs to: the user gets it with its channels
    /// and members, if connected.
    pub fn new_server(
        &self,
        user_id: u128,
        server: ServerResponse,
        channels: Vec<ChannelResponse>,
        users: Vec<UserResponse>,
    ) -> (d: Delivery)
        ensures
            d.recipients@ == (if self@.contains_key(user_id) { seq![self@[user_id]] } else { Seq::<u64>::empty() }),
            d.message == WebSocketSessionMessage::AddServer(server, channels, users),
    {
        let mut recipients: Vec<u64> = Vec::new();
        match self.users.get(&user_id) {
            Some(s) => recipients.push(*s),
            None => {},
        }
        proof {
            assert(recipients@ =~= (if self@.contains_key(user_id) { seq![self@[user_id]] } else { Seq::<u64>::empty() }));
        }
        Delivery { recipients, message: WebSocketSessionMessage::AddServer(server, channels, users) }
    }

    /// A user joined a server: every other connected member (`affected`)
    /// learns about them; the new user is not told about themselves.
    pub fn new_user(&self, user_id: u128, server_id: u128, new_user: UserResponse, affected: &Vec<u128>) -> (d: Delivery)
        ensures
            d.recipients@ == sessions_of(self@, affected@, Some(user_id)),
            d.message == WebSocketSessionMessage::AddUser(server_id, new_user),
            sessions_are_distinct(self@) && self@.contains_key(user_id) ==> !d.recipients@.contains(
                self@[user_id],
            ),
    {
        proof {
            if sessions_are_distinct(self@) && self@.contains_key(user_id) {
                lemma_excluded_user_not_reached(self@, affected@, user_id);
            }
        }
        Delivery { recipients: self.recipients(affected, Some(user_id)), message: WebSocketSessionMessage::AddUser(server_id, new_user) }
    }

    /// A user left a server: the leaving user, if connected, loses the
    /// server; every other connected member (`affected`) learns that the user
    /// left.
    pub fn user_left(&self, user_id: u128, server_id: u128, affected: &Vec<u128>) -> (ds: Vec<Delivery>)
        ensures
            ds@.len() == 2,
            ds@[0].recipients@ == (if self@.contains_key(user_id) { seq![self@[user_id]] } else { Seq::<u64>::empty() }),
            ds@[0].message == WebSocketSessionMessage::DeleteServer(server_id),
            ds@[1].recipients@ == sessions_of(self@, affected@, Some(user_id)),
            ds@[1].message == WebSocketSessionMessage::DeleteUser(user_id, server_id),
            sessions_are_distinct(self@) && self@.contains_key(user_id) ==> !ds@[1].recipients@.contains(
                self@[user_id],
            ),
    {
        proof {
            if sessions_are_distinct(self@) && self@.contains_key(user_id) {
                lemma_excluded_user_not_reached(self@, affected@, user_id);
            }
        }
        let mut own: Vec<u64> = Vec::new();
        match self.users.get(&user_id) {
            Some(s) => own.push(*s),
            None => {},
        }
        proof {
            assert(own@ =~= (if self@.contains_key(user_id) { seq![self@[user_id]] } else { Seq::<u64>::empty() }));
        }
        let mut ds: Vec<Delivery> = Vec::new();
        ds.push(Delivery { recipients: own, message: WebSocketSessionMessage::DeleteServer(server_id) });
        ds.push(Delivery { recipients: self.recipients(affected, Some(user_id)), message: WebSocketSessionMessage::DeleteUser(user_id, server_id) });
        ds
    }

    /// A server was deleted: every connected session is told, and each
    /// session drops it only if it belonged to it.
    pub fn delete_server(&self, server_id: u128) -> (d: Delivery)
        ensures
            lists_every_session(self@, d.recipients@),
            d.message == WebSocketSessionMessage::DeleteServer(server_id),
    {
        Delivery { recipients: self.all_sessions(), message: WebSocketSessionMessage::DeleteServer(server_id) }
    }

    /// A server changed: every connected member (`affected`) gets it.
    pub fn update_server(&self, server: ServerResponse, affected: &Vec<u128>) -> (d: Delivery)
        ensures
            d.recipients@ == sessions_of(self@, affected@, None),
            d.message == WebSocketSessionMessage::UpdateServer(server),
    {
        Delivery { recipients: self.recipients(affected, None), message: WebSocketSessionMessage::UpdateServer(server) }
    }

    /// The servers of an identified user, for their session.
    pub fn ready(&self, session: u64, servers: Vec<u128>) -> (d: Delivery)
        ensures
            d.recipients@ == seq![session],
            d.message == WebSocketSessionMessage::Ready(servers),
    {
        let mut recipients: Vec<u64> = Vec::new();
        recipients.push(session);
        proof {
            assert(recipients@ =~= seq![session]);
        }
        Delivery { recipients, message: WebSocketSessionMessage::Ready(servers) }
    }
}

/// Closing the session of a user who was not connected before identifying
/// leaves the server as it was.
pub proof fn lemma_close_undoes_identify(users: Map<u128, u64>, user_id: u128, session: u64)
    requires
        !users.contains_key(user_id),
    ensures
        users.insert(user_id, session).remove(user_id) == users,
{
    assert(users.insert(user_id, session).remove(user_id) =~= users);
}

/// A fan-out reaches exactly the connected affected users other than the
/// excluded one: every recipient is the session of such a user, and every
/// such user's session is among the recipients.
pub proof fn lemma_fanout_reaches_connected(users: Map<u128, u64>, affected: Seq<u128>, excluded: Option<u128>)
    ensures
        forall|i: int| 0 <= i < sessions_of(users, affected, excluded).len() ==> exists|k: int|
            0 <= k < affected.len() && users.contains_key(affected[k]) && excluded != Some(affected[k])
                && #[trigger] sessions_of(users, affected, excluded)[i] == users[affected[k]],
        forall|k: int|
            0 <= k < affected.len() && users.contains_key(#[trigger] affected[k]) && excluded != Some(affected[k])
                ==> sessions_of(users, affected, excluded).contains(users[affected[k]]),
    decreases affected.len(),
{
    if affected.len() > 0 {
        let front = affected.drop_last();
        lemma_fanout_reaches_connected(users, front, excluded);
        let before = sessions_of(users, front, excluded);
        let all = sessions_of(users, affected, excluded);
        assert forall|i: int| 0 <= i < all.len() implies exists|k: int|
            0 <= k < affected.len() && users.contains_key(affected[k]) && excluded != Some(affected[k])
                && #[trigger] all[i] == users[affected[k]] by {
            if i < before.len() {
                assert(all[i] == before[i]);
                let k = choose|k: int|
                    0 <= k < front.len() && users.contains_key(front[k]) && excluded != Some(front[k])
                        && before[i] == users[front[k]];
                assert(affected[k] == front[k]);
            } else {
                assert(all[i] == users[affected[affected.len() - 1]]);
            }
        }
        assert forall|k: int|
            0 <= k < affected.len() && users.contains_key(#[trigger] affected[k]) && excluded != Some(affected[k])
                implies all.contains(users[affected[k]]) by {
            if k < front.len() {
                assert(front[k] == affected[k]);
                let j = choose|j: int| 0 <= j < before.len() && before[j] == users[front[k]];
                assert(all[j] == before[j]);
            } else {
                assert(all[all.len() - 1] == users[affected[k]]);
            }
        }
    }
}

/// No two connected users share a session.
pub open spec fn sessions_are_distinct(users: Map<u128, u64>) -> bool {
    forall|a: u128, b: u128|
        users.contains_key(a) && users.contains_key(b) && a != b ==> #[trigger] users[a] != #[trigger] users[b]
}

/// When sessions are distinct, the excluded user's session receives
/// nothing of a fan-out that leaves them out (a user who joins or leaves a
/// server is never told about themselves).
pub proof fn lemma_excluded_user_not_reached(users: Map<u128, u64>, affected: Seq<u128>, user_id: u128)
    requires
        sessions_are_distinct(users),
        users.contains_key(user_id),
    ensures
        !sessions_of(users, affected, Some(user_id)).contains(users[user_id]),
{
    lemma_fanout_reaches_connected(users, affected, Some(user_id));
    let all = sessions_of(users, affected, Some(user_id));
    if all.contains(users[user_id]) {
        let i = choose|i: int| 0 <= i < all.len() && all[i] == users[user_id];
        let k = choose|k: int|
            0 <= k < affected.len() && users.contains_key(affected[k]) && Some(user_id) != Some(affected[k])
                && all[i] == users[affected[k]];
        assert(users[affected[k]] != users[user_id]);
    }
}

/// Distinct sessions stay distinct when a user is forgotten, and when a user
/// is remembered on a session that no other connected user has.
pub proof fn lemma_distinct_sessions_kept(users: Map<u128, u64>, user_id: u128, session: u64)
    requires
        sessions_are_distinct(users),
    ensures
        sessions_are_distinct(users.remove(user_id)),
        (forall|v: u128| users.contains_key(v) && v != user_id ==> users[v] != session) ==> sessions_are_distinct(
            users.insert(user_id, session),
        ),
{
}

} // verus!
