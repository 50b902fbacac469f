//! The session controller: the single consumer of the command queue. It owns
//! at most one live capture session at a time. A Start always performs the
//! Stop transition first, so a new session can only be installed once every
//! prior one has been released; a Stop with no session is a no-op.
//!
//! Sessions are identified by the order in which they were begun, so that
//! "released before the next one begins" is a provable statement.

use vstd::prelude::*;

verus! {

/// A decoded control command, as the command source hands it over.
#[derive(Clone, Debug, PartialEq, Eq)]
pub enum Command {
    /// Begin a new capture session on the named device (absent, empty or
    /// "default" in any ASCII case selects the default input device),
    /// releasing any session that is still live first.
    Start { device_name: Option<String> },
    /// Release the live session, if any.
    Stop,
    /// Emit one control frame listing the input devices in order.
    ListDevices,
}

/// The controller's state: which session is live, if any, and how many
/// sessions have ever been begun.
pub struct Controller {
    active: Option<u64>,
    next_id: u64,
}

impl Controller {
    /// The id of the live session, if one is live.
    pub closed spec fn spec_live(self) -> Option<u64> {
        self.active
    }

    /// How many sessions have ever been begun; also the id the next session
    /// will get.
    pub closed spec fn spec_next_id(self) -> u64 {
        self.next_id
    }

    /// Whether the session with this id is live.
    pub open spec fn is_live(self, id: u64) -> bool {
        self.spec_live() == Option::Some(id)
    }

    /// Only a session that was begun can be live.
    pub closed spec fn wf(self) -> bool {
        match self.active {
            Option::Some(id) => id < self.next_id,
            Option::None => true,
        }
    }

    /// A fresh controller: idle, no session ever begun.
    pub fn new() -> (c: Controller)
        ensures
            c.wf(),
            c.spec_live() is None,
            c.spec_next_id() == 0,
    {
        Controller { active: None, next_id: 0 }
    }

    /// How many sessions have ever been begun.
    pub fn sessions_begun(&self) -> (n: u64)
        ensures
            n == self.spec_next_id(),
    {
        self.next_id
    }

    /// Whether no session is live.
    pub fn is_idle(&self) -> (b: bool)
        ensures
            b == (self.spec_live() is None),
    {
        self.active.is_none()
    }

    /// The Stop transition, also performed first by every Start: afterwards
    /// no session is live. Returns the id of the session that must now be
    /// released, if one was live; with no live session this changes nothing.
    pub fn stop(&mut self) -> (released: Option<u64>)
        requires
            old(self).wf(),
        ensures
            final(self).wf(),
            released == old(self).spec_live(),
            final(self).spec_live() is None,
            final(self).spec_next_id() == old(self).spec_next_id(),
            old(self).spec_live() is None ==> *final(self) == *old(self),
    {
        let released = self.active;
        self.active = None;
        released
    }

    /// Install the new session after a Start attempt succeeded. Its id is
    /// fresh: no earlier session ever had it, and afterwards no session but
    /// the new one is live.
    pub fn commit_start(&mut self) -> (id: u64)
        requires
            old(self).wf(),
            old(self).spec_live() is None,
            old(self).spec_next_id() < u64::MAX,
        ensures
            final(self).wf(),
            id == old(self).spec_next_id(),
            final(self).spec_live() == Option::Some(id),
            final(self).spec_next_id() == old(self).spec_next_id() + 1,
            forall|other: u64| other != id ==> !final(self).is_live(other),
    {
        let id = self.next_id;
        self.active = Some(id);
        self.next_id = self.next_id + 1;
        id
    }
}

/// At most one session is ever live.
pub proof fn lemma_single_session(c: Controller, a: u64, b: u64)
    requires
        c.is_live(a),
        c.is_live(b),
    ensures
        a == b,
{
}

/// Ordered shutdown: a session that was live before a successful Start is
/// distinct from the session that Start installs, and it is no longer live
/// once the new one is. `before` is the controller as the Start command
/// found it, `after` the controller once `stop` and then `commit_start`
/// have run.
pub proof fn lemma_ordered_shutdown(before: Controller, after: Controller, prior: u64)
    requires
        before.wf(),
        before.is_live(prior),
        after.spec_live() == Option::Some(before.spec_next_id()),
    ensures
        prior != before.spec_next_id(),
        !after.is_live(prior),
{
}

} // verus!
