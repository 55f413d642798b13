use vstd::prelude::*;
use vstd::string::StringExecFns;

use crate::avatar::{avatar_url, resolve};
use crate::protocol::MessageData;

verus! {

/// One roster entry: an identifier and the avatar derived from it.
#[derive(Debug, Clone, PartialEq, Eq)]
pub struct UserProfile {
    pub name: String,
    pub avatar: String,
}

impl UserProfile {
    /// The entry's avatar is the one its identifier resolves to.
    pub open spec fn wf(&self) -> bool {
        self.avatar@ == avatar_url(self.name@)
    }

    /// The entry for `id`, with its resolved avatar.
    pub fn for_id(id: &str) -> (r: UserProfile)
        ensures
            r.name@ == id@,
            r.wf(),
    {
        UserProfile { name: String::from_str(id), avatar: resolve(id) }
    }
}

impl MessageData {
    pub open spec fn view(&self) -> (Seq<char>, Seq<char>) {
        (self.from@, self.message@)
    }
}

/// The mathematical value of a session: roster identifiers in order, and
/// (sender, body) pairs in arrival order.
pub struct SessionView {
    pub roster: Seq<Seq<char>>,
    pub history: Seq<(Seq<char>, Seq<char>)>,
}

/// A session whose roster is replaced wholesale by a snapshot.
pub open spec fn roster_applied(s: SessionView, ids: Seq<Seq<char>>) -> SessionView {
    SessionView { roster: ids, history: s.history }
}

/// A session with one more message at the end of its history.
pub open spec fn record_applied(s: SessionView, m: (Seq<char>, Seq<char>)) -> SessionView {
    SessionView { roster: s.roster, history: s.history.push(m) }
}

/// A session after the messages `ms`, applied one after another.
pub open spec fn records_applied(s: SessionView, ms: Seq<(Seq<char>, Seq<char>)>) -> SessionView
    decreases ms.len(),
{
    if ms.len() == 0 {
        s
    } else {
        record_applied(records_applied(s, ms.drop_last()), ms.last())
    }
}

/// Applying the same roster snapshot twice leaves the session as applying it once.
pub proof fn lemma_snapshot_idempotent(s: SessionView, ids: Seq<Seq<char>>)
    ensures
        roster_applied(roster_applied(s, ids), ids) == roster_applied(s, ids),
{
}

/// After N messages the history is the old one followed by those N, in
/// arrival order: nothing before them is removed or reordered.
pub proof fn lemma_history_append_only(s: SessionView, ms: Seq<(Seq<char>, Seq<char>)>)
    ensures
        records_applied(s, ms).history == s.history + ms,
        records_applied(s, ms).history.len() == s.history.len() + ms.len(),
        records_applied(s, ms).history.subrange(0, s.history.len() as int) == s.history,
        records_applied(s, ms).roster == s.roster,
    decreases ms.len(),
{
    if ms.len() > 0 {
        lemma_history_append_only(s, ms.drop_last());
        assert(s.history + ms =~= (s.history + ms.drop_last()).push(ms.last()));
    }
    assert(records_applied(s, ms).history.subrange(0, s.history.len() as int) =~= s.history);
}

/// The roster and the message history of one session.
pub struct ChatState {
    users: Vec<UserProfile>,
    messages: Vec<MessageData>,
}

impl View for ChatState {
    type V = SessionView;

    closed spec fn view(&self) -> SessionView {
        SessionView { roster: self.roster(), history: self.history() }
    }
}

impl ChatState {
    /// The identifiers of the roster, in order.
    pub closed spec fn roster(&self) -> Seq<Seq<char>> {
        self.users@.map_values(|u: UserProfile| u.name@)
    }

    /// The history, as (sender, body) pairs in arrival order.
    pub closed spec fn history(&self) -> Seq<(Seq<char>, Seq<char>)> {
        self.messages@.map_values(|m: MessageData| m.view())
    }

    /// Every roster entry carries the avatar of its identifier.
    pub closed spec fn wf(&self) -> bool {
        forall|i: int| 0 <= i < self.users@.len() ==> #[trigger] self.users@[i].wf()
    }

    /// An empty roster and an empty history.
    pub fn new() -> (r: ChatState)
        ensures
            r.wf(),
            r@.roster == Seq::<Seq<char>>::empty(),
            r@.history == Seq::<(Seq<char>, Seq<char>)>::empty(),
    {
        let r = ChatState { users: Vec::new(), messages: Vec::new() };
        assert(r.roster() =~= Seq::<Seq<char>>::empty());
        assert(r.history() =~= Seq::<(Seq<char>, Seq<char>)>::empty());
        r
    }

    /// Replaces the whole roster by the given identifiers, in their order,
    /// duplicates kept; the history is untouched.
    pub fn replace_roster(&mut self, ids: &Vec<String>)
        requires
            old(self).wf(),
        ensures
            final(self).wf(),
            final(self)@ == roster_applied(old(self)@, ids.deep_view()),
    {
        let mut users: Vec<UserProfile> = Vec::new();
        let mut i: usize = 0;
        while i < ids.len()
            invariant
                i <= ids.len(),
                users@.len() == i,
                forall|j: int| 0 <= j < i ==> #[trigger] users@[j].wf(),
                forall|j: int| 0 <= j < i ==> #[trigger] users@[j].name@ == ids@[j]@,
            decreases ids.len() - i,
        {
            users.push(UserProfile::for_id(ids[i].as_str()));
            i = i + 1;
        }
        self.users = users;
        assert(self.roster() =~= ids.deep_view());
    }

    /// Appends one message at the end of the history; the roster is untouched.
    pub fn push_message(&mut self, m: MessageData)
        requires
            old(self).wf(),
        ensures
            final(self).wf(),
            final(self)@ == record_applied(old(self)@, m.view()),
    {
        self.messages.push(m);
        assert(self.history() =~= old(self).history().push(m.view()));
    }

    /// The roster entry of `id`, or one made on the spot when `id` is not on
    /// the roster; the roster is not changed either way.
    pub fn resolve_sender(&self, id: &str) -> (r: UserProfile)
        requires
            self.wf(),
        ensures
            r.name@ == id@,
            r.wf(),
    {
        let want = String::from_str(id);
        let mut i: usize = 0;
        while i < self.users.len()
            invariant
                i <= self.users@.len(),
                want@ == id@,
                self.wf(),
            decreases self.users@.len() - i,
        {
            if self.users[i].name == want {
                let u = &self.users[i];
                assert(u.wf());
                return UserProfile { name: u.name.clone(), avatar: u.avatar.clone() };
            }
            i = i + 1;
        }
        UserProfile::for_id(id)
    }

    /// The roster, for reading.
    pub fn users(&self) -> (r: &Vec<UserProfile>)
        ensures
            r@.map_values(|u: UserProfile| u.name@) == self@.roster,
            self.wf() ==> forall|i: int| 0 <= i < r@.len() ==> #[trigger] r@[i].wf(),
    {
        &self.users
    }

    /// The history, for reading.
    pub fn messages(&self) -> (r: &Vec<MessageData>)
        ensures
            r@.map_values(|m: MessageData| m.view()) == self@.history,
    {
        &self.messages
    }
}

} // verus!
