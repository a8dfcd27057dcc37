use crate::error::Error;
use crate::session::{PtyEvent, TerminalId, DEFAULT_COLS, DEFAULT_ROWS};
use std::collections::HashMap;
use vstd::prelude::*;

verus! {

broadcast use vstd::std_specs::hash::group_hash_axioms;

/// What the view tells its host.
#[derive(Debug, Clone, PartialEq, Eq)]
pub enum TerminalEvent {
    /// The session's title changed.
    TitleChange(TerminalId, String),
    /// The session's screen changed and should be drawn again.
    Update(TerminalId),
}

/// The status of one session as the view knows it.
#[derive(Debug, Clone, PartialEq, Eq)]
pub enum TerminalState {
    /// Spawned; no output has confirmed that it is alive yet.
    Initializing,
    /// Alive and producing output.
    Normal,
    /// A failure was reported; the session stays inspectable.
    Failed(String),
    /// The session ended with this exit code.
    Terminated(i32),
}

/// Progress of a multi-key chord typed into the terminal.
#[derive(Debug, Clone, Copy, PartialEq, Eq, Structural)]
pub enum ChordState {
    Normal,
    Quit1,
}

/// What the terminal-emulation engine asks of its host.
#[derive(Debug, Clone, PartialEq, Eq)]
pub enum EngineEvent {
    /// The screen changed.
    Wakeup,
    /// The program set the window title.
    Title(String),
    /// The engine answers the program: these bytes go back to the session.
    PtyWrite(String),
    /// Anything the view does not act on.
    Other,
}

/// Where an engine request goes.
#[derive(Debug, Clone, PartialEq, Eq)]
pub enum EngineRouting {
    /// Tell the host.
    Notify(TerminalEvent),
    /// Write these bytes to the session.
    WriteBack(String),
    /// Nothing to do.
    Ignore,
}

/// A session still running, as far as the view knows.
pub open spec fn is_live(s: TerminalState) -> bool {
    s is Initializing || s is Normal
}

/// The status after `event` arrived in status `s`.
pub open spec fn next_state(s: TerminalState, event: PtyEvent) -> TerminalState {
    if !is_live(s) {
        s
    } else {
        match event {
            PtyEvent::Data(_) => TerminalState::Normal,
            PtyEvent::Error(msg) => TerminalState::Failed(msg),
            PtyEvent::Terminated(code) => TerminalState::Terminated(code),
        }
    }
}

/// Whether the host hears of `event` arriving in status `s`: output is drawn
/// only while the session lives, and the end of a session is always shown.
pub open spec fn notifies(s: TerminalState, event: PtyEvent) -> bool {
    is_live(s) || event is Terminated
}

/// The per-session statuses, the active session and the visibility of the
/// terminal pane.
pub struct SessionView {
    pub visible: bool,
    /// `(rows, cols)` of the terminal pane.
    pub viewport: (u16, u16),
    pub chord_state: ChordState,
    pub active_term: Option<TerminalId>,
    pub models: HashMap<TerminalId, TerminalState>,
}

impl SessionView {
    pub open spec fn active_spec(&self) -> Option<TerminalId> {
        self.active_term
    }

    pub open spec fn states(&self) -> Map<TerminalId, TerminalState> {
        self.models@
    }

    /// The active session, if any, is one the view knows.
    pub open spec fn wf(&self) -> bool {
        match self.active_term {
            Some(id) => self.models@.contains_key(id),
            None => true,
        }
    }

    pub fn new() -> (r: SessionView)
        ensures
            r.wf(),
            !r.visible,
            r.viewport == (DEFAULT_ROWS, DEFAULT_COLS),
            r.chord_state == ChordState::Normal,
            r.active_spec() is None,
            r.states() == Map::<TerminalId, TerminalState>::empty(),
    {
        SessionView {
            visible: false,
            viewport: (DEFAULT_ROWS, DEFAULT_COLS),
            chord_state: ChordState::Normal,
            active_term: None,
            models: HashMap::new(),
        }
    }

    /// The active session.
    pub fn get_active(&self) -> (r: Option<TerminalId>)
        ensures
            r == self.active_spec(),
    {
        self.active_term
    }

    /// The status of session `id`, if the view knows it.
    pub fn state(&self, id: TerminalId) -> (r: Option<&TerminalState>)
        ensures
            match r {
                Some(s) => self.states().contains_key(id) && *s == self.states()[id],
                None => !self.states().contains_key(id),
            },
    {
        self.models.get(&id)
    }

    /// Takes a freshly spawned session under view and makes it the active one.
    pub fn add_session(&mut self, id: TerminalId)
        requires
            old(self).wf(),
        ensures
            final(self).wf(),
            final(self).states() == old(self).states().insert(id, TerminalState::Initializing),
            final(self).active_spec() == Some(id),
            final(self).visible == old(self).visible,
            final(self).viewport == old(self).viewport,
    {
        self.models.insert(id, TerminalState::Initializing);
        self.active_term = Some(id);
    }

    /// Makes a known session the active one.
    pub fn set_active(&mut self, id: TerminalId) -> (r: Result<(), Error>)
        requires
            old(self).wf(),
        ensures
            final(self).wf(),
            final(self).states() == old(self).states(),
            final(self).visible == old(self).visible,
            old(self).states().contains_key(id) <==> r is Ok,
            r is Ok ==> final(self).active_spec() == Some(id),
            r is Err ==> final(self).active_spec() == old(self).active_spec() && r
                == Err::<(), Error>(Error::TerminalNotFound(id)),
    {
        if self.models.contains_key(&id) {
            self.active_term = Some(id);
            Ok(())
        } else {
            Err(Error::TerminalNotFound(id))
        }
    }

    /// Shows or hides the pane of the active session, and names that session
    /// so the host can redraw it. Without an active session nothing changes.
    pub fn toggle_visibility(&mut self) -> (r: Option<TerminalId>)
        requires
            old(self).wf(),
        ensures
            final(self).wf(),
            r == old(self).active_spec(),
            final(self).active_spec() == old(self).active_spec(),
            final(self).states() == old(self).states(),
            final(self).visible == (if r is Some { !old(self).visible } else { old(self).visible }),
    {
        match self.active_term {
            Some(id) => {
                self.visible = !self.visible;
                Some(id)
            },
            None => None,
        }
    }

    /// Forgets session `id`, and clears the selection if it was active.
    /// Returns whether the session still runs, so that the caller asks the
    /// registry to terminate it.
    pub fn close_term(&mut self, id: TerminalId) -> (r: bool)
        requires
            old(self).wf(),
        ensures
            final(self).wf(),
            final(self).states() == old(self).states().remove(id),
            r == (old(self).states().contains_key(id) && is_live(old(self).states()[id])),
            final(self).active_spec() == (if old(self).active_spec() == Some(id) {
                None
            } else {
                old(self).active_spec()
            }),
            final(self).visible == old(self).visible,
    {
        let removed = self.models.remove(&id);
        if self.active_term == Some(id) {
            self.active_term = None;
        }
        match removed {
            Some(TerminalState::Initializing) => true,
            Some(TerminalState::Normal) => true,
            _ => false,
        }
    }

    /// Closes the active session, if any. Returns the id to terminate when
    /// that session still runs.
    pub fn close_active_terminal(&mut self) -> (r: Option<TerminalId>)
        requires
            old(self).wf(),
        ensures
            final(self).wf(),
            final(self).active_spec() is None,
            final(self).visible == old(self).visible,
            match old(self).active_spec() {
                Some(id) => {
                    &&& final(self).states() == old(self).states().remove(id)
                    &&& r == (if is_live(old(self).states()[id]) {
                        Some(id)
                    } else {
                        None
                    })
                },
                None => r is None && final(self).states() == old(self).states(),
            },
    {
        match self.active_term {
            Some(id) => {
                if self.close_term(id) {
                    Some(id)
                } else {
                    None
                }
            },
            None => None,
        }
    }

    /// The session that host input is written to.
    pub fn input_target(&self) -> (r: Option<TerminalId>)
        ensures
            r == self.active_spec(),
    {
        self.active_term
    }

    /// Folds an event of session `id` from the merged stream into its
    /// status. Events of unknown sessions are ignored. Output moves a live
    /// session to `Normal`, a failure to `Failed`, the end to `Terminated`;
    /// a session that failed or ended keeps its status. The end of the
    /// active session clears the selection and hides the pane. The result
    /// names the session to redraw; for `Data` it also tells the caller to
    /// feed the bytes to the session's emulation engine.
    pub fn fold_event(&mut self, id: TerminalId, event: &PtyEvent) -> (r: Option<TerminalEvent>)
        requires
            old(self).wf(),
        ensures
            final(self).wf(),
            !old(self).states().contains_key(id) ==> {
                &&& r is None
                &&& final(self).states() == old(self).states()
                &&& final(self).active_spec() == old(self).active_spec()
                &&& final(self).visible == old(self).visible
            },
            old(self).states().contains_key(id) ==> {
                let s = old(self).states()[id];
                &&& final(self).states() == old(self).states().insert(id, next_state(s, *event))
                &&& r == (if notifies(s, *event) {
                    Some(TerminalEvent::Update(id))
                } else {
                    None
                })
                &&& if event is Terminated && old(self).active_spec() == Some(id) {
                    final(self).active_spec() is None && !final(self).visible
                } else {
                    final(self).active_spec() == old(self).active_spec() && final(self).visible
                        == old(self).visible
                }
            },
    {
        let live = match self.models.get(&id) {
            None => {
                return None;
            },
            Some(TerminalState::Initializing) => true,
            Some(TerminalState::Normal) => true,
            Some(_) => false,
        };
        let ends = match event {
            PtyEvent::Terminated(_) => true,
            _ => false,
        };
        if live {
            let next = match event {
                PtyEvent::Data(_) => TerminalState::Normal,
                PtyEvent::Error(msg) => TerminalState::Failed(msg.clone()),
                PtyEvent::Terminated(code) => TerminalState::Terminated(*code),
            };
            self.models.insert(id, next);
        } else {
            let kept = self.models.remove(&id);
            match kept {
                Some(s) => {
                    self.models.insert(id, s);
                },
                None => {},
            }
        }
        if ends && self.active_term == Some(id) {
            self.active_term = None;
            self.visible = false;
        }
        if live || ends {
            Some(TerminalEvent::Update(id))
        } else {
            None
        }
    }

    /// Decides what to do with a request of session `id`'s emulation engine.
    pub fn route_engine_event(&self, id: TerminalId, event: EngineEvent) -> (r: EngineRouting)
        ensures
            r == (match event {
                EngineEvent::Wakeup => EngineRouting::Notify(TerminalEvent::Update(id)),
                EngineEvent::Title(t) => EngineRouting::Notify(TerminalEvent::TitleChange(id, t)),
                EngineEvent::PtyWrite(data) => EngineRouting::WriteBack(data),
                EngineEvent::Other => EngineRouting::Ignore,
            }),
    {
        match event {
            EngineEvent::Wakeup => EngineRouting::Notify(TerminalEvent::Update(id)),
            EngineEvent::Title(t) => EngineRouting::Notify(TerminalEvent::TitleChange(id, t)),
            EngineEvent::PtyWrite(data) => EngineRouting::WriteBack(data),
            EngineEvent::Other => EngineRouting::Ignore,
        }
    }
}

} // verus!
