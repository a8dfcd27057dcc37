use crate::error::Error;
use crate::session::{PtyEvent, TerminalId};
use std::collections::HashMap;
use vstd::prelude::*;

verus! {

broadcast use vstd::std_specs::hash::group_hash_axioms;

/// What the registry keeps for one live session: the handle through which
/// the session is driven, and whether its termination was requested.
pub struct TermEntry<H> {
    pub handle: H,
    pub cancel_requested: bool,
}

/// The entries after a termination request for `id`: a live entry is marked,
/// anything else is left as it was.
pub open spec fn after_terminate<H>(m: Map<TerminalId, TermEntry<H>>, id: TerminalId) -> Map<
    TerminalId,
    TermEntry<H>,
> {
    if m.contains_key(id) {
        m.insert(id, TermEntry { handle: m[id].handle, cancel_requested: true })
    } else {
        m
    }
}

/// The entries after `event` for `id` was consumed: a final event retires
/// the entry, any other event leaves the entries as they were.
pub open spec fn after_observe<H>(
    m: Map<TerminalId, TermEntry<H>>,
    id: TerminalId,
    event: PtyEvent,
) -> Map<TerminalId, TermEntry<H>> {
    if event.is_final() {
        m.remove(id)
    } else {
        m
    }
}

/// The table of live sessions. Ids are handed out in increasing order and
/// never reused; an entry leaves the table once its session's `Terminated`
/// event has been consumed.
pub struct VteRegistry<H> {
    next_id: TerminalId,
    terminals: HashMap<TerminalId, TermEntry<H>>,
}

impl<H> VteRegistry<H> {
    /// The id the next registration receives.
    pub closed spec fn next_id(&self) -> nat {
        self.next_id as nat
    }

    /// The live sessions by id.
    pub closed spec fn entries(&self) -> Map<TerminalId, TermEntry<H>> {
        self.terminals@
    }

    /// Every live id was handed out before.
    pub closed spec fn wf(&self) -> bool {
        forall|id: TerminalId| #[trigger] self.terminals@.contains_key(id) ==> id < self.next_id
    }

    pub fn new() -> (r: VteRegistry<H>)
        ensures
            r.wf(),
            r.next_id() == 0,
            r.entries() == Map::<TerminalId, TermEntry<H>>::empty(),
    {
        VteRegistry { next_id: 0, terminals: HashMap::new() }
    }

    /// Whether a further session can still receive an id of its own.
    pub fn has_free_id(&self) -> (r: bool)
        ensures
            r == (self.next_id() < u32::MAX),
    {
        self.next_id < u32::MAX
    }

    /// Whether `id` names a live session.
    pub fn contains(&self, id: TerminalId) -> (r: bool)
        ensures
            r == self.entries().contains_key(id),
    {
        self.terminals.contains_key(&id)
    }

    /// Registers a freshly spawned session and hands out its id.
    pub fn register(&mut self, handle: H) -> (r: Result<TerminalId, Error>)
        requires
            old(self).wf(),
        ensures
            final(self).wf(),
            old(self).next_id() < u32::MAX ==> {
                &&& r == Ok::<TerminalId, Error>(old(self).next_id() as TerminalId)
                &&& !old(self).entries().contains_key(old(self).next_id() as TerminalId)
                &&& final(self).next_id() == old(self).next_id() + 1
                &&& final(self).entries() == old(self).entries().insert(
                    old(self).next_id() as TerminalId,
                    (TermEntry { handle, cancel_requested: false }),
                )
            },
            old(self).next_id() >= u32::MAX ==> {
                &&& r == Err::<TerminalId, Error>(Error::IdsExhausted)
                &&& final(self).next_id() == old(self).next_id()
                &&& final(self).entries() == old(self).entries()
            },
    {
        if self.next_id == u32::MAX {
            return Err(Error::IdsExhausted);
        }
        let id = self.next_id;
        self.terminals.insert(id, TermEntry { handle, cancel_requested: false });
        self.next_id = id + 1;
        Ok(id)
    }

    /// Records a request to end session `id`. The caller then signals the
    /// session's lifecycle; completion shows up later as its `Terminated`
    /// event. Asking again before that changes nothing.
    pub fn terminate(&mut self, id: TerminalId) -> (r: Result<(), Error>)
        requires
            old(self).wf(),
        ensures
            final(self).wf(),
            final(self).next_id() == old(self).next_id(),
            final(self).entries() == after_terminate(old(self).entries(), id),
            old(self).entries().contains_key(id) <==> r is Ok,
            !old(self).entries().contains_key(id) ==> r == Err::<(), Error>(
                Error::TerminalNotFound(id),
            ),
    {
        match self.terminals.remove(&id) {
            Some(entry) => {
                self.terminals.insert(id, TermEntry { handle: entry.handle, cancel_requested: true });
                Ok(())
            },
            None => Err(Error::TerminalNotFound(id)),
        }
    }

    /// The handle of live session `id`, through which it is written to or
    /// resized.
    pub fn target(&self, id: TerminalId) -> (r: Result<&H, Error>)
        ensures
            self.entries().contains_key(id) <==> r is Ok,
            match r {
                Ok(h) => *h == self.entries()[id].handle,
                Err(e) => e == Error::TerminalNotFound(id),
            },
    {
        match self.terminals.get(&id) {
            Some(entry) => Ok(&entry.handle),
            None => Err(Error::TerminalNotFound(id)),
        }
    }

    /// Whether termination of live session `id` was requested.
    pub fn cancel_requested(&self, id: TerminalId) -> (r: Result<bool, Error>)
        ensures
            self.entries().contains_key(id) <==> r is Ok,
            match r {
                Ok(b) => b == self.entries()[id].cancel_requested,
                Err(e) => e == Error::TerminalNotFound(id),
            },
    {
        match self.terminals.get(&id) {
            Some(entry) => Ok(entry.cancel_requested),
            None => Err(Error::TerminalNotFound(id)),
        }
    }

    /// Accounts for an event of session `id` taken from the merged stream.
    /// A `Terminated` event retires the entry and hands back its handle, so
    /// that the session's resources are released only after its final event.
    pub fn observe(&mut self, id: TerminalId, event: &PtyEvent) -> (r: Option<H>)
        requires
            old(self).wf(),
        ensures
            final(self).wf(),
            final(self).next_id() == old(self).next_id(),
            final(self).entries() == after_observe(old(self).entries(), id, *event),
            match r {
                Some(h) => event.is_final() && old(self).entries().contains_key(id)
                    && h == old(self).entries()[id].handle,
                None => !event.is_final() || !old(self).entries().contains_key(id),
            },
    {
        match event {
            PtyEvent::Terminated(_) => match self.terminals.remove(&id) {
                Some(entry) => Some(entry.handle),
                None => None,
            },
            _ => None,
        }
    }
}

/// Asking twice for the same session to terminate leaves the registry as
/// asking once did.
pub proof fn lemma_terminate_idempotent<H>(m: Map<TerminalId, TermEntry<H>>, id: TerminalId)
    ensures
        after_terminate(after_terminate(m, id), id) == after_terminate(m, id),
{
    if m.contains_key(id) {
        assert(after_terminate(after_terminate(m, id), id) =~= after_terminate(m, id));
    }
}

/// A termination request touches no session but the one it names.
pub proof fn lemma_terminate_isolated<H>(
    m: Map<TerminalId, TermEntry<H>>,
    id: TerminalId,
    other: TerminalId,
)
    requires
        other != id,
    ensures
        after_terminate(m, id).contains_key(other) == m.contains_key(other),
        m.contains_key(other) ==> after_terminate(m, id)[other] == m[other],
{
}

/// Once the `Terminated` event of a session was consumed, the session is
/// gone: writing to it, resizing or terminating it reports that it is not
/// found. Other sessions are untouched.
pub proof fn lemma_gone_after_terminated<H>(
    m: Map<TerminalId, TermEntry<H>>,
    id: TerminalId,
    code: i32,
    other: TerminalId,
)
    requires
        other != id,
    ensures
        !after_observe(m, id, PtyEvent::Terminated(code)).contains_key(id),
        after_observe(m, id, PtyEvent::Terminated(code)).contains_key(other) == m.contains_key(
            other,
        ),
        m.contains_key(other) ==> after_observe(m, id, PtyEvent::Terminated(code))[other]
            == m[other],
{
}

} // verus!
