//! The queue of prompts and commands the user has sent, in order.
//!
//! Work without a session first asks for one; at most one session creation
//! is in flight, and at most one piece of work is active at a time.
use vstd::prelude::*;

use crate::app::{command_execution_text, Submission, SubmissionKind};
use crate::chat::{is_user_text_message, user_loaded_message, LoadedMessage};
use crate::text::copy_opt_string;

verus! {

pub type UserWorkId = u64;

#[derive(Debug, Clone, Copy, PartialEq, Eq, Structural)]
pub enum UserWorkKind {
    Prompt,
    Command,
}

#[derive(Debug, Clone, Copy, PartialEq, Eq, Structural)]
pub enum UserWorkStatus {
    WaitingForSession,
    CreatingSession,
    Queued,
    Active,
    Failed,
}

/// One prompt or command the user sent.
#[derive(Debug, Clone, PartialEq, Eq)]
pub struct UserWork {
    pub id: UserWorkId,
    pub kind: UserWorkKind,
    pub text: String,
    pub agent: String,
    pub session_id: Option<String>,
    pub status: UserWorkStatus,
}

/// Work that has just become active: what to send, and the message to show.
#[derive(Debug, Clone)]
pub struct WorkStart {
    pub id: UserWorkId,
    pub submission: Submission,
    pub message: LoadedMessage,
}

/// What the caller must do after enqueueing work.
#[derive(Debug, Clone)]
pub enum UserWorkEffect {
    CreateSession { work_id: UserWorkId },
    Submit(WorkStart),
}

/// `sub` is what `work` sends once it has the session `session`.
pub open spec fn submission_of(work: UserWork, session: String, sub: Submission) -> bool {
    &&& sub.session_id == session
    &&& sub.text == work.text
    &&& sub.agent == work.agent
    &&& match work.kind {
        UserWorkKind::Prompt => sub.kind == SubmissionKind::Prompt && sub.execution_text@
            == work.text@,
        UserWorkKind::Command => sub.kind == SubmissionKind::Command && sub.execution_text@
            == command_execution_text(work.text@),
    }
}

/// `start` starts `work`, which has a session.
pub open spec fn starts(work: UserWork, start: WorkStart) -> bool {
    &&& work.session_id is Some
    &&& start.id == work.id
    &&& submission_of(work, work.session_id->0, start.submission)
    &&& is_user_text_message(start.message, work.text@)
}

/// `w` with its status set to `status`.
pub open spec fn with_status(w: UserWork, status: UserWorkStatus) -> UserWork {
    UserWork { status, ..w }
}

/// A session creation is in flight for some work in `pending`.
pub open spec fn creating(pending: Seq<UserWork>) -> bool {
    exists|i: int| 0 <= i < pending.len() && #[trigger] pending[i].status
        == UserWorkStatus::CreatingSession
}

/// The first position in `s` whose element satisfies `f`.
pub open spec fn first_where<T>(s: Seq<T>, f: spec_fn(T) -> bool) -> Option<int>
    decreases s.len(),
{
    if s.len() == 0 {
        None
    } else if f(s[0]) {
        Some(0)
    } else {
        match first_where(s.drop_first(), f) {
            Some(i) => Some(i + 1),
            None => None,
        }
    }
}

pub proof fn lemma_first_where<T>(s: Seq<T>, f: spec_fn(T) -> bool, i: int)
    requires
        0 <= i <= s.len(),
        forall|j: int| 0 <= j < i ==> !f(#[trigger] s[j]),
        i < s.len() ==> f(s[i]),
    ensures
        first_where(s, f) == if i < s.len() {
            Some(i)
        } else {
            None::<int>
        },
    decreases s.len(),
{
    if s.len() > 0 && i > 0 {
        assert forall|j: int| 0 <= j < i - 1 implies !f(#[trigger] s.drop_first()[j]) by {
            assert(s.drop_first()[j] == s[j + 1]);
        }
        if i < s.len() {
            assert(s.drop_first()[i - 1] == s[i]);
        }
        assert(!f(s[0]));
        lemma_first_where(s.drop_first(), f, i - 1);
    }
}

/// Work that is ready to start: it has a session and waits its turn.
pub open spec fn ready(w: UserWork) -> bool {
    w.session_id is Some && w.status == UserWorkStatus::Queued
}

/// Work that waits for a session creation to be requested.
pub open spec fn waiting(w: UserWork) -> bool {
    w.session_id is None && w.status == UserWorkStatus::WaitingForSession
}

/// `w` after the session `session` has been created: work without a session
/// gets it, and waiting or creating work becomes queued.
pub open spec fn after_session_created(w: UserWork, session: String) -> UserWork {
    if w.session_id is None {
        UserWork {
            session_id: Some(session),
            status: if w.status == UserWorkStatus::WaitingForSession || w.status
                == UserWorkStatus::CreatingSession {
                UserWorkStatus::Queued
            } else {
                w.status
            },
            ..w
        }
    } else {
        w
    }
}

/// The queue of user work.
#[derive(Debug, Clone, PartialEq, Eq)]
pub struct UserWorkQueue {
    next_id: UserWorkId,
    active: Option<UserWork>,
    pending: Vec<UserWork>,
}

/// The abstract queue: the next id to hand out, the active work, and the
/// pending work in arrival order.
pub struct QueueView {
    pub next_id: UserWorkId,
    pub active: Option<UserWork>,
    pub pending: Seq<UserWork>,
}

impl View for UserWorkQueue {
    type V = QueueView;

    closed spec fn view(&self) -> QueueView {
        QueueView { next_id: self.next_id, active: self.active, pending: self.pending@ }
    }
}

impl UserWork {
    fn duplicate(&self) -> (r: UserWork)
        ensures
            r == *self,
    {
        UserWork {
            id: self.id,
            kind: self.kind,
            text: self.text.clone(),
            agent: self.agent.clone(),
            session_id: copy_opt_string(&self.session_id),
            status: self.status,
        }
    }

    /// What this work sends, once it has a session.
    pub fn submission(&self) -> (r: Option<Submission>)
        ensures
            self.session_id is None ==> r is None,
            self.session_id is Some ==> r is Some && submission_of(
                *self,
                self.session_id->0,
                r->0,
            ),
    {
        let session_id = match &self.session_id {
            Some(s) => s.clone(),
            None => {
                return None;
            },
        };
        Some(
            match self.kind {
                UserWorkKind::Prompt => Submission::prompt(
                    session_id,
                    self.text.clone(),
                    self.agent.clone(),
                ),
                UserWorkKind::Command => Submission::command(
                    session_id,
                    self.text.clone(),
                    self.agent.clone(),
                ),
            },
        )
    }
}

impl UserWorkQueue {
    /// An empty queue; ids start at 0.
    pub fn new() -> (r: UserWorkQueue)
        ensures
            r@.next_id == 0,
            r@.active is None,
            r@.pending.len() == 0,
    {
        UserWorkQueue { next_id: 0, active: None, pending: Vec::new() }
    }

    /// Whether some work is active.
    pub fn has_active_work(&self) -> (r: bool)
        ensures
            r == (self@.active is Some),
    {
        self.active.is_some()
    }

    /// Whether some work is pending.
    pub fn has_pending_work(&self) -> (r: bool)
        ensures
            r == (self@.pending.len() > 0),
    {
        self.pending.len() > 0
    }

    /// Adds work. Work without a session asks for a session unless a creation
    /// is already in flight; work with a session starts at once unless a
    /// response or other work is active, and otherwise waits its turn.
    pub fn enqueue(
        &mut self,
        kind: UserWorkKind,
        text: String,
        agent: String,
        session_id: Option<String>,
        response_active: bool,
    ) -> (r: Option<UserWorkEffect>)
        ensures
            final(self)@.next_id == if old(self)@.next_id == u64::MAX {
                0
            } else {
                (old(self)@.next_id + 1) as u64
            },
            ({
                let id = old(self)@.next_id;
                let work = UserWork {
                    id,
                    kind,
                    text,
                    agent,
                    session_id,
                    status: UserWorkStatus::Queued,
                };
                if session_id is None {
                    let status = if creating(old(self)@.pending) {
                        UserWorkStatus::WaitingForSession
                    } else {
                        UserWorkStatus::CreatingSession
                    };
                    &&& final(self)@.active == old(self)@.active
                    &&& final(self)@.pending == old(self)@.pending.push(with_status(work, status))
                    &&& (status == UserWorkStatus::CreatingSession ==> (r matches Some(
                        UserWorkEffect::CreateSession { work_id },
                    ) && work_id == id))
                    &&& (status == UserWorkStatus::WaitingForSession ==> r is None)
                } else if response_active || old(self)@.active is Some {
                    &&& final(self)@.active == old(self)@.active
                    &&& final(self)@.pending == old(self)@.pending.push(work)
                    &&& r is None
                } else {
                    &&& final(self)@.active == Some(with_status(work, UserWorkStatus::Active))
                    &&& final(self)@.pending == old(self)@.pending
                    &&& (r matches Some(UserWorkEffect::Submit(start)) && starts(work, start))
                }
            }),
    {
        let id = self.alloc_id();
        let ghost g_text = text;
        if session_id.is_none() {
            let status = if self.has_session_creation_in_flight() {
                UserWorkStatus::WaitingForSession
            } else {
                UserWorkStatus::CreatingSession
            };
            self.pending.push(UserWork { id, kind, text, agent, session_id, status });
            return if status == UserWorkStatus::CreatingSession {
                Some(UserWorkEffect::CreateSession { work_id: id })
            } else {
                None
            };
        }
        let work = UserWork { id, kind, text, agent, session_id, status: UserWorkStatus::Queued };
        if response_active || self.active.is_some() {
            self.pending.push(work);
            return None;
        }
        Some(UserWorkEffect::Submit(self.start_work(work)))
    }

    /// Asks for a session for the first waiting work, unless a creation is
    /// already in flight.
    pub fn request_next_session_creation(&mut self) -> (r: Option<UserWorkId>)
        ensures
            final(self)@.next_id == old(self)@.next_id,
            final(self)@.active == old(self)@.active,
            creating(old(self)@.pending) ==> r is None && final(self)@.pending == old(self)@.pending,
            !creating(old(self)@.pending) ==> match first_where(
                old(self)@.pending,
                |w: UserWork| waiting(w),
            ) {
                None => r is None && final(self)@.pending == old(self)@.pending,
                Some(i) => r == Some(old(self)@.pending[i].id) && final(self)@.pending == old(self)@.pending.update(
                    i,
                    with_status(old(self)@.pending[i], UserWorkStatus::CreatingSession),
                ),
            },
    {
        if self.has_session_creation_in_flight() {
            return None;
        }
        let mut i: usize = 0;
        while i < self.pending.len() && !(self.pending[i].session_id.is_none() && self.pending[i].status == UserWorkStatus::WaitingForSession)
            invariant
                i <= self.pending@.len(),
                self.pending@ == old(self).pending@,
                forall|j: int| 0 <= j < i ==> !waiting(#[trigger] self.pending@[j]),
            decreases self.pending@.len() - i,
        {
            i += 1;
        }
        proof {
            let f = |w: UserWork| waiting(w);
            assert forall|j: int| 0 <= j < i implies !f(#[trigger] self.pending@[j]) by {
                assert(!waiting(self.pending@[j]));
            }
            lemma_first_where(self.pending@, f, i as int);
        }
        if i == self.pending.len() {
            return None;
        }
        let mut w = self.pending.remove(i);
        let id = w.id;
        w.status = UserWorkStatus::CreatingSession;
        self.pending.insert(i, w);
        proof {
            assert(self.pending@ =~= old(self).pending@.update(
                i as int,
                with_status(old(self).pending@[i as int], UserWorkStatus::CreatingSession),
            ));
        }
        Some(id)
    }

    /// The session for waiting work exists now: every piece of work without a
    /// session gets it, and, unless a response or other work is active, the
    /// work that asked for it (or else the first ready work) starts.
    pub fn session_created(&mut self, work_id: UserWorkId, session_id: String, response_active: bool) -> (r:
        Option<WorkStart>)
        ensures
            final(self)@.next_id == old(self)@.next_id,
            ({
                let updated = old(self)@.pending.map_values(
                    |w: UserWork| after_session_created(w, session_id),
                );
                if response_active || old(self)@.active is Some {
                    &&& final(self)@.active == old(self)@.active
                    &&& final(self)@.pending == updated
                    &&& r is None
                } else {
                    let own = first_where(
                        updated,
                        |w: UserWork| w.id == work_id && w.session_id is Some,
                    );
                    let pick = if own is Some {
                        own
                    } else {
                        first_where(updated, |w: UserWork| ready(w))
                    };
                    match pick {
                        None => final(self)@.active == old(self)@.active && final(self)@.pending
                            == updated && r is None,
                        Some(i) => {
                            &&& final(self)@.active == Some(
                                with_status(updated[i], UserWorkStatus::Active),
                            )
                            &&& final(self)@.pending == updated.remove(i)
                            &&& (r matches Some(start) && starts(updated[i], start))
                        },
                    }
                }
            }),
    {
        let ghost updated = old(self).pending@.map_values(
            |w: UserWork| after_session_created(w, session_id),
        );
        let mut k: usize = 0;
        while k < self.pending.len()
            invariant
                k <= self.pending@.len(),
                self.pending@.len() == old(self).pending@.len(),
                updated.len() == old(self).pending@.len(),
                forall|j: int| 0 <= j < k ==> #[trigger] self.pending@[j] == updated[j],
                forall|j: int| k <= j < self.pending@.len() ==> #[trigger] self.pending@[j] == old(self).pending@[j],
                updated == old(self).pending@.map_values(
                    |w: UserWork| after_session_created(w, session_id),
                ),
                self.active == old(self).active,
                self.next_id == old(self).next_id,
            decreases self.pending@.len() - k,
        {
            let mut w = self.pending.remove(k);
            if w.session_id.is_none() {
                w.session_id = Some(session_id.clone());
                if w.status == UserWorkStatus::WaitingForSession || w.status
                    == UserWorkStatus::CreatingSession {
                    w.status = UserWorkStatus::Queued;
                }
            }
            self.pending.insert(k, w);
            k += 1;
        }
        assert(self.pending@ =~= updated);
        if response_active || self.active.is_some() {
            return None;
        }
        let mut i: usize = 0;
        while i < self.pending.len() && !(self.pending[i].id == work_id && self.pending[i].session_id.is_some())
            invariant
                i <= self.pending@.len(),
                self.pending@ == updated,
                forall|j: int|
                    0 <= j < i ==> !(#[trigger] self.pending@[j].id == work_id
                        && self.pending@[j].session_id is Some),
            decreases self.pending@.len() - i,
        {
            i += 1;
        }
        proof {
            let f = |w: UserWork| w.id == work_id && w.session_id is Some;
            assert forall|j: int| 0 <= j < i implies !f(#[trigger] self.pending@[j]) by {
                assert(!(self.pending@[j].id == work_id && self.pending@[j].session_id is Some));
            }
            lemma_first_where(self.pending@, f, i as int);
        }
        if i == self.pending.len() {
            i = 0;
            while i < self.pending.len() && !(self.pending[i].session_id.is_some() && self.pending[i].status == UserWorkStatus::Queued)
                invariant
                    i <= self.pending@.len(),
                    self.pending@ == updated,
                    forall|j: int| 0 <= j < i ==> !ready(#[trigger] self.pending@[j]),
                decreases self.pending@.len() - i,
            {
                i += 1;
            }
            proof {
                let f = |w: UserWork| ready(w);
                assert forall|j: int| 0 <= j < i implies !f(#[trigger] self.pending@[j]) by {
                    assert(!ready(self.pending@[j]));
                }
                lemma_first_where(self.pending@, f, i as int);
            }
            if i == self.pending.len() {
                return None;
            }
        }
        let work = self.pending.remove(i);
        Some(self.start_work(work))
    }

    /// Creating the session for `work_id` failed: it waits for another request.
    pub fn create_session_failed(&mut self, work_id: UserWorkId)
        ensures
            final(self)@.next_id == old(self)@.next_id,
            final(self)@.active == old(self)@.active,
            match first_where(old(self)@.pending, |w: UserWork| w.id == work_id) {
                None => final(self)@.pending == old(self)@.pending,
                Some(i) => final(self)@.pending == old(self)@.pending.update(
                    i,
                    with_status(old(self)@.pending[i], UserWorkStatus::WaitingForSession),
                ),
            },
    {
        let mut i: usize = 0;
        while i < self.pending.len() && !(self.pending[i].id == work_id)
            invariant
                i <= self.pending@.len(),
                self.pending@ == old(self).pending@,
                forall|j: int| 0 <= j < i ==> #[trigger] self.pending@[j].id != work_id,
            decreases self.pending@.len() - i,
        {
            i += 1;
        }
        proof {
            let f = |w: UserWork| w.id == work_id;
            assert forall|j: int| 0 <= j < i implies !f(#[trigger] self.pending@[j]) by {
                assert(self.pending@[j].id != work_id);
            }
            lemma_first_where(self.pending@, f, i as int);
        }
        if i < self.pending.len() {
            let mut w = self.pending.remove(i);
            w.status = UserWorkStatus::WaitingForSession;
            self.pending.insert(i, w);
            assert(self.pending@ =~= old(self).pending@.update(
                i as int,
                with_status(old(self).pending@[i as int], UserWorkStatus::WaitingForSession),
            ));
        }
    }

    /// Sending the active work failed: it goes back to the front of the
    /// queue, marked failed.
    pub fn submit_failed(&mut self, work_id: UserWorkId)
        ensures
            final(self)@.next_id == old(self)@.next_id,
            (old(self)@.active matches Some(w) && w.id == work_id) ==> final(self)@.active is None
                && final(self)@.pending == seq![
                with_status(old(self)@.active->0, UserWorkStatus::Failed),
            ] + old(self)@.pending,
            !(old(self)@.active matches Some(w) && w.id == work_id) ==> final(self)@ == old(self)@,
    {
        let matches = match &self.active {
            Some(w) => w.id == work_id,
            None => false,
        };
        if matches {
            let mut work = self.active.take().unwrap();
            work.status = UserWorkStatus::Failed;
            self.pending.insert(0, work);
            assert(self.pending@ =~= seq![
                with_status(old(self).active->0, UserWorkStatus::Failed),
            ] + old(self).pending@);
        }
    }

    /// The active work is done; the next ready work starts unless a response
    /// is still active.
    pub fn finish_active(&mut self, response_active: bool) -> (r: Option<WorkStart>)
        ensures
            final(self)@.next_id == old(self)@.next_id,
            response_active ==> final(self)@.active is None && final(self)@.pending == old(self)@.pending && r is None,
            !response_active ==> match first_where(old(self)@.pending, |w: UserWork| ready(w)) {
                None => final(self)@.active is None && final(self)@.pending == old(self)@.pending
                    && r is None,
                Some(i) => {
                    &&& final(self)@.active == Some(
                        with_status(old(self)@.pending[i], UserWorkStatus::Active),
                    )
                    &&& final(self)@.pending == old(self)@.pending.remove(i)
                    &&& (r matches Some(start) && starts(old(self)@.pending[i], start))
                },
            },
    {
        self.active = None;
        self.dispatch_next(response_active)
    }

    /// Starts the first ready work, unless a response or other work is active.
    pub fn dispatch_next(&mut self, response_active: bool) -> (r: Option<WorkStart>)
        ensures
            final(self)@.next_id == old(self)@.next_id,
            response_active || old(self)@.active is Some ==> final(self)@ == old(self)@ && r is None,
            !(response_active || old(self)@.active is Some) ==> match first_where(
                old(self)@.pending,
                |w: UserWork| ready(w),
            ) {
                None => final(self)@ == old(self)@ && r is None,
                Some(i) => {
                    &&& final(self)@.active == Some(
                        with_status(old(self)@.pending[i], UserWorkStatus::Active),
                    )
                    &&& final(self)@.pending == old(self)@.pending.remove(i)
                    &&& (r matches Some(start) && starts(old(self)@.pending[i], start))
                },
            },
    {
        if response_active || self.active.is_some() {
            return None;
        }
        let mut i: usize = 0;
        while i < self.pending.len() && !(self.pending[i].session_id.is_some() && self.pending[i].status == UserWorkStatus::Queued)
            invariant
                i <= self.pending@.len(),
                self.pending@ == old(self).pending@,
                forall|j: int| 0 <= j < i ==> !ready(#[trigger] self.pending@[j]),
            decreases self.pending@.len() - i,
        {
            i += 1;
        }
        proof {
            let f = |w: UserWork| ready(w);
            assert forall|j: int| 0 <= j < i implies !f(#[trigger] self.pending@[j]) by {
                assert(!ready(self.pending@[j]));
            }
            lemma_first_where(self.pending@, f, i as int);
        }
        if i == self.pending.len() {
            return None;
        }
        let work = self.pending.remove(i);
        Some(self.start_work(work))
    }

    /// The messages of the pending work, in order, as the user typed them.
    pub fn queued_messages(&self) -> (r: Vec<LoadedMessage>)
        ensures
            r@.len() == self@.pending.len(),
            forall|i: int|
                0 <= i < r@.len() ==> is_user_text_message(
                    #[trigger] r@[i],
                    self@.pending[i].text@,
                ),
    {
        let mut out: Vec<LoadedMessage> = Vec::new();
        let mut i: usize = 0;
        while i < self.pending.len()
            invariant
                i <= self.pending@.len(),
                out@.len() == i,
                forall|j: int|
                    0 <= j < i ==> is_user_text_message(#[trigger] out@[j], self.pending@[j].text@),
            decreases self.pending@.len() - i,
        {
            out.push(user_loaded_message(self.pending[i].text.as_str()));
            i += 1;
        }
        out
    }

    /// Drops all work.
    pub fn clear(&mut self)
        ensures
            final(self)@.next_id == old(self)@.next_id,
            final(self)@.active is None,
            final(self)@.pending.len() == 0,
    {
        self.active = None;
        self.pending.clear();
    }

    /// Drops the active work only.
    pub fn clear_active(&mut self)
        ensures
            final(self)@.next_id == old(self)@.next_id,
            final(self)@.active is None,
            final(self)@.pending == old(self)@.pending,
    {
        self.active = None;
    }

    fn alloc_id(&mut self) -> (r: UserWorkId)
        ensures
            r == old(self)@.next_id,
            final(self)@.next_id == if old(self)@.next_id == u64::MAX {
                0
            } else {
                (old(self)@.next_id + 1) as u64
            },
            final(self)@.active == old(self)@.active,
            final(self)@.pending == old(self)@.pending,
    {
        let id = self.next_id;
        self.next_id = self.next_id.wrapping_add(1);
        id
    }

    fn has_session_creation_in_flight(&self) -> (r: bool)
        ensures
            r == creating(self@.pending),
    {
        let mut i: usize = 0;
        while i < self.pending.len()
            invariant
                i <= self.pending@.len(),
                forall|j: int|
                    0 <= j < i ==> #[trigger] self.pending@[j].status
                        != UserWorkStatus::CreatingSession,
            decreases self.pending@.len() - i,
        {
            if self.pending[i].status == UserWorkStatus::CreatingSession {
                return true;
            }
            i += 1;
        }
        false
    }

    fn start_work(&mut self, work: UserWork) -> (r: WorkStart)
        requires
            work.session_id is Some,
        ensures
            final(self)@.next_id == old(self)@.next_id,
            final(self)@.pending == old(self)@.pending,
            final(self)@.active == Some(with_status(work, UserWorkStatus::Active)),
            starts(work, r),
    {
        let submission = work.submission().unwrap();
        let message = user_loaded_message(work.text.as_str());
        let id = work.id;
        let mut work = work;
        work.status = UserWorkStatus::Active;
        self.active = Some(work);
        WorkStart { id, submission, message }
    }
}

impl Default for UserWorkQueue {
    fn default() -> (r: UserWorkQueue)
        ensures
            r@.next_id == 0,
            r@.active is None,
            r@.pending.len() == 0,
    {
        UserWorkQueue::new()
    }
}

/// Work with a session, sent while other work is active, waits and keeps
/// arrival order: it goes to the back of the queue.
pub proof fn law_busy_queue_is_fifo(
    pending: Seq<UserWork>,
    work: UserWork,
    i: int,
)
    requires
        0 <= i < pending.len(),
    ensures
        pending.push(work)[i] == pending[i],
        pending.push(work).last() == work,
{
}

/// The first ready work is the one dispatched: no ready work stands before it.
pub proof fn law_dispatch_takes_earliest_ready(pending: Seq<UserWork>, i: int)
    requires
        first_where(pending, |w: UserWork| ready(w)) == Some(i),
    ensures
        0 <= i < pending.len(),
        ready(pending[i]),
        forall|j: int| 0 <= j < i ==> !ready(#[trigger] pending[j]),
    decreases pending.len(),
{
    if pending.len() > 0 && !ready(pending[0]) {
        let f = |w: UserWork| ready(w);
        let tail = pending.drop_first();
        assert(first_where(tail, f) == Some(i - 1));
        law_dispatch_takes_earliest_ready(tail, i - 1);
        assert forall|j: int| 0 <= j < i implies !ready(#[trigger] pending[j]) by {
            if j > 0 {
                assert(pending[j] == tail[j - 1]);
            }
        }
    }
}

/// Enqueueing work without a session never puts a second session creation
/// in flight.
pub proof fn law_single_creation_in_flight(pending: Seq<UserWork>, work: UserWork)
    requires
        work.session_id is None,
        forall|a: int, b: int|
            0 <= a < pending.len() && 0 <= b < pending.len() && #[trigger] pending[a].status
                == UserWorkStatus::CreatingSession && #[trigger] pending[b].status
                == UserWorkStatus::CreatingSession ==> a == b,
    ensures
        ({
            let status = if creating(pending) {
                UserWorkStatus::WaitingForSession
            } else {
                UserWorkStatus::CreatingSession
            };
            let after = pending.push(with_status(work, status));
            forall|a: int, b: int|
                0 <= a < after.len() && 0 <= b < after.len() && #[trigger] after[a].status
                    == UserWorkStatus::CreatingSession && #[trigger] after[b].status
                    == UserWorkStatus::CreatingSession ==> a == b
        }),
{
    let status = if creating(pending) {
        UserWorkStatus::WaitingForSession
    } else {
        UserWorkStatus::CreatingSession
    };
    let after = pending.push(with_status(work, status));
    assert forall|a: int, b: int|
        0 <= a < after.len() && 0 <= b < after.len() && #[trigger] after[a].status
            == UserWorkStatus::CreatingSession && #[trigger] after[b].status
            == UserWorkStatus::CreatingSession implies a == b by {
        if a < pending.len() && b < pending.len() {
            assert(after[a] == pending[a]);
            assert(after[b] == pending[b]);
        } else if a < pending.len() {
            assert(after[a] == pending[a]);
            assert(creating(pending));
        } else if b < pending.len() {
            assert(after[b] == pending[b]);
            assert(creating(pending));
        }
    }
}

} // verus!
