//! The decisions of the two watch loops. Each runs on a change notification
//! of the shared document: the control process takes the next mini-app
//! request, the rendering process takes the next reply. Both stop once
//! `should_exit` is set, and then take nothing more.

use vstd::prelude::*;
use crate::document::{AgentRequest, AgentResponse, AgentState, LspAgent, RequestView, ResponseView, opt_view};

verus! {

/// What the control process does after a change notification.
#[derive(Debug, Clone, PartialEq)]
pub enum ControlStep {
    /// `should_exit` is set: notify the engine, stop replication, leave the loop.
    Shutdown,
    /// A mini-app request was taken off the queue; answer it with `model`.
    Serve { content: String, app_id: String, model: Option<String> },
    /// Nothing to do until the next notification.
    Idle,
}

/// What the rendering process does after a change notification.
#[derive(Debug, Clone, PartialEq)]
pub enum WebStep {
    /// `should_exit` is set: tear down and stop watching.
    Exit,
    /// Open a new view for a generated mini-app.
    Launch { id: String, content: String },
    /// Complete the oldest pending call of app `app_id`.
    Deliver { app_id: String, content: String },
    /// Nothing to dispatch.
    Idle,
}

impl AgentState {
    /// The control side's transaction: the head request leaves the queue,
    /// unless the run is winding down.
    pub open spec fn take_request(self) -> (AgentState, Option<RequestView>) {
        if self.should_exit || self.requests.len() == 0 {
            (self, None)
        } else {
            (AgentState { requests: self.requests.drop_first(), ..self }, Some(self.requests[0]))
        }
    }

    /// The rendering side's transaction: the head reply leaves the queue,
    /// unless the run is winding down or the head is a `Chat` reply, which
    /// this side never consumes.
    pub open spec fn take_response(self) -> (AgentState, Option<ResponseView>) {
        if self.should_exit || self.responses.len() == 0 || self.responses[0] is Chat {
            (self, None)
        } else {
            (AgentState { responses: self.responses.drop_first(), ..self }, Some(self.responses[0]))
        }
    }
}

/// Reacts to a change of the document on the control side.
pub fn check_agent_state(agent: &mut LspAgent) -> (r: ControlStep)
    requires
        old(agent).wf(),
    ensures
        final(agent).wf(),
        final(agent)@ == old(agent)@.take_request().0,
        (r is Shutdown) == old(agent).should_exit,
        r is Idle == (!old(agent).should_exit && old(agent).requests@.len() == 0),
        match r {
            ControlStep::Serve { content, app_id, model } => old(agent)@.take_request().1
                == Some(RequestView::Inference { content: content@, app_id: app_id@ })
                && opt_view(model) == old(agent)@.active_model,
            _ => old(agent)@.take_request().1 is None,
        },
{
    if agent.should_exit {
        return ControlStep::Shutdown;
    }
    if agent.requests.len() == 0 {
        return ControlStep::Idle;
    }
    let ghost before = agent@;
    let req = agent.requests.remove(0);
    assert(agent@.requests =~= before.requests.drop_first());
    let model = agent.active_model.clone();
    match req {
        AgentRequest::Inference { content, app_id } => ControlStep::Serve { content, app_id, model },
    }
}

/// Reacts to a change of the document on the rendering side.
pub fn handle_web_doc_change(agent: &mut LspAgent) -> (r: WebStep)
    requires
        old(agent).wf(),
    ensures
        final(agent).wf(),
        final(agent)@ == old(agent)@.take_response().0,
        (r is Exit) == old(agent).should_exit,
        match r {
            WebStep::Launch { id, content } => old(agent)@.take_response().1
                == Some(ResponseView::WebApp { id: id@, content: content@ }),
            WebStep::Deliver { app_id, content } => old(agent)@.take_response().1
                == Some(ResponseView::Inference { app_id: app_id@, content: content@ }),
            _ => old(agent)@.take_response().1 is None,
        },
{
    if agent.should_exit {
        return WebStep::Exit;
    }
    if agent.responses.len() == 0 {
        return WebStep::Idle;
    }
    if let AgentResponse::Chat(_) = &agent.responses[0] {
        return WebStep::Idle;
    }
    let ghost before = agent@;
    let resp = agent.responses.remove(0);
    assert(agent@.responses =~= before.responses.drop_first());
    match resp {
        AgentResponse::WebApp { id, content } => WebStep::Launch { id, content },
        AgentResponse::Inference { app_id, content } => WebStep::Deliver { app_id, content },
        AgentResponse::Chat(_) => WebStep::Idle,
    }
}

/// `i` is the oldest entry of app `app_id`.
pub open spec fn is_first_of<T>(e: Seq<(Seq<char>, T)>, app_id: Seq<char>, i: int) -> bool {
    &&& 0 <= i < e.len()
    &&& e[i].0 == app_id
    &&& forall|j: int| 0 <= j < i ==> #[trigger] e[j].0 != app_id
}

/// The calls of mini-apps still waiting for an inference reply, in the
/// order they were made. An app may have several calls waiting; replies
/// complete them oldest first.
pub struct PendingReplies<T> {
    entries: Vec<(String, T)>,
}

impl<T> View for PendingReplies<T> {
    type V = Seq<(Seq<char>, T)>;

    closed spec fn view(&self) -> Seq<(Seq<char>, T)> {
        Seq::new(self.entries@.len(), |i: int| (self.entries@[i].0@, self.entries@[i].1))
    }
}

impl<T> PendingReplies<T> {
    pub fn new() -> (r: Self)
        ensures
            r@.len() == 0,
    {
        PendingReplies { entries: Vec::new() }
    }

    /// Records a call of app `app_id` that waits for its reply.
    pub fn enqueue(&mut self, app_id: String, waiter: T)
        ensures
            final(self)@ == old(self)@.push((app_id@, waiter)),
    {
        let ghost a = app_id@;
        self.entries.push((app_id, waiter));
        assert(self@ =~= old(self)@.push((a, waiter)));
    }

    /// Takes the oldest call of app `app_id` that still waits, if any.
    pub fn complete(&mut self, app_id: &str) -> (r: Option<T>)
        ensures
            match r {
                Some(w) => exists|i: int| #[trigger] is_first_of(old(self)@, app_id@, i)
                    && w == old(self)@[i].1 && final(self)@ == old(self)@.remove(i),
                None => final(self)@ == old(self)@ && forall|i: int| 0 <= i < old(self)@.len()
                    ==> #[trigger] old(self)@[i].0 != app_id@,
            },
    {
        let ghost before = self@;
        let mut i: usize = 0;
        while i < self.entries.len()
            invariant
                i <= self.entries@.len(),
                self@ == before,
                before == old(self)@,
                forall|j: int| 0 <= j < i ==> #[trigger] before[j].0 != app_id@,
            decreases self.entries@.len() - i,
        {
            if crate::assoc::same_text(self.entries[i].0.as_str(), app_id) {
                let ghost raw = self.entries@;
                let e = self.entries.remove(i);
                assert(e == raw[i as int]);
                assert(before[i as int] == (raw[i as int].0@, raw[i as int].1));
                assert(self@ =~= before.remove(i as int));
                assert(is_first_of(before, app_id@, i as int));
                return Some(e.1);
            }
            i = i + 1;
        }
        None
    }

    pub fn len(&self) -> (r: usize)
        ensures
            r == self@.len(),
    {
        self.entries.len()
    }
}

/// The document after the rendering process posted `rs`, in that order.
pub open spec fn push_all(s: AgentState, rs: Seq<RequestView>) -> AgentState
    decreases rs.len(),
{
    if rs.len() == 0 {
        s
    } else {
        let last = rs.last();
        match last {
            RequestView::Inference { content, app_id } => push_all(s, rs.drop_last()).push_request(
                content,
                app_id,
            ),
        }
    }
}

/// The document after `k` change notifications on the control side, and the
/// requests taken, in the order they were taken.
pub open spec fn drain(s: AgentState, k: nat) -> (AgentState, Seq<RequestView>)
    decreases k,
{
    if k == 0 {
        (s, Seq::empty())
    } else {
        let (s1, taken) = s.take_request();
        let (s2, rest) = drain(s1, (k - 1) as nat);
        match taken {
            Some(r) => (s2, seq![r] + rest),
            None => (s2, rest),
        }
    }
}

proof fn lemma_push_all(s: AgentState, rs: Seq<RequestView>)
    ensures
        push_all(s, rs) == (AgentState { requests: s.requests + rs, ..s }),
    decreases rs.len(),
{
    if rs.len() > 0 {
        lemma_push_all(s, rs.drop_last());
        let last = rs.last();
        match last {
            RequestView::Inference { content, app_id } => {
                assert(s.requests + rs =~= (s.requests + rs.drop_last()).push(last));
            },
        }
    }
}

proof fn lemma_drain(s: AgentState, k: nat)
    requires
        !s.should_exit,
        k >= s.requests.len(),
    ensures
        drain(s, k).1 == s.requests,
        drain(s, k).0 == (AgentState { requests: Seq::empty(), ..s }),
    decreases k,
{
    if k > 0 {
        let (s1, taken) = s.take_request();
        lemma_drain(s1, (k - 1) as nat);
        if s.requests.len() > 0 {
            assert(seq![s.requests[0]] + s.requests.drop_first() =~= s.requests);
        } else {
            assert(s.requests =~= Seq::empty());
        }
    } else {
        assert(s.requests =~= Seq::empty());
    }
}

/// Mini-app requests reach the control process in the order they were posted,
/// each exactly once: however many notifications arrive beyond one per
/// request, the requests taken are those waiting followed by those posted,
/// and the queue ends empty.
pub proof fn lemma_requests_fifo(s: AgentState, rs: Seq<RequestView>, notifications: nat)
    requires
        !s.should_exit,
        notifications >= s.requests.len() + rs.len(),
    ensures
        drain(push_all(s, rs), notifications).1 == s.requests + rs,
        drain(push_all(s, rs), notifications).0.requests.len() == 0,
{
    lemma_push_all(s, rs);
    lemma_drain(push_all(s, rs), notifications);
}

/// Once `should_exit` is set, both watch loops stop at their next
/// notification and neither queue loses an entry.
pub proof fn lemma_exit_stops_watchers(s: AgentState)
    requires
        s.should_exit,
    ensures
        s.take_request() == (s, None::<RequestView>),
        s.take_response() == (s, None::<ResponseView>),
        forall|k: nat| #[trigger] drain(s, k) == (s, Seq::<RequestView>::empty()),
{
    assert forall|k: nat| #[trigger] drain(s, k) == (s, Seq::<RequestView>::empty()) by {
        lemma_drain_stopped(s, k);
    }
}

proof fn lemma_drain_stopped(s: AgentState, k: nat)
    requires
        s.should_exit,
    ensures
        drain(s, k) == (s, Seq::<RequestView>::empty()),
    decreases k,
{
    if k > 0 {
        lemma_drain_stopped(s, (k - 1) as nat);
    }
}

} // verus!
