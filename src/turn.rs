//! One chat turn of the tool-use loop. The engine is called at most a fixed
//! number of times; each reply either ends the turn (an answer, nothing, a
//! mini-app to launch) or asks for one of the three context blocks, which is
//! supplied at most once per turn. The caller runs the loop: it asks the turn
//! for the next prompt, calls the engine, hands the reply back, and once the
//! turn is over commits it to the shared document.

use vstd::prelude::*;
use crate::context::{collect_apps, collect_docs, collect_stored_values, docs_listing};
use crate::document::{
    AgentState, ConversationFragment, Fragment, LspAgent, opt_view, seq_view,
};
use crate::assoc::entries_view;
use crate::prompts::{
    APPS_MARKER, DOCS_MARKER, DocsInfo, DocsInfoView, StoredValueInfo, VALUES_MARKER,
    build_web_request, web_request_text,
};

verus! {

/// How many engine calls a turn may make unless configured otherwise.
pub const DEFAULT_TOOL_MAX_ITERATIONS: usize = 3;

/// The answer of a turn that reached no conclusion.
pub const NO_ACTION_MESSAGE: &'static str = "No actionable response was produced. Please retry or rephrase.";

/// Ends the answer given when the engine asks again for a block it already has.
pub const ALREADY_PROVIDED_SUFFIX: &'static str = " was already provided, but the assistant requested it again without concluding.";

pub const APPS_LABEL: &'static str = "App list";

pub const DOCS_LABEL: &'static str = "Document list";

pub const VALUES_LABEL: &'static str = "Stored values list";

/// What `serde_json` reads from an engine reply taken as a JSON object:
/// its `action`, `message` and `app` fields, each when it holds a string
/// (`None` when it is absent or holds anything else); `None` when the reply
/// is not a JSON object.
pub uninterp spec fn tool_call_fields(text: Seq<char>) -> Option<
    (Option<Seq<char>>, Option<Seq<char>>, Option<Seq<char>>),
>;

/// Relies on `serde_json::from_str` reading the reply as a JSON object (a
/// map from field names to JSON values; it fails on any other text) and on
/// `serde_json::Value::as_str`, which gives the text of a string value.
#[verifier::external_body]
fn decode_tool_call(text: &str) -> (r: Option<(Option<String>, Option<String>, Option<String>)>)
    ensures
        match r {
            Some((a, m, p)) => tool_call_fields(text@) == Some((opt_view(a), opt_view(m), opt_view(p))),
            None => tool_call_fields(text@) is None,
        },
{
    let fields: Option<std::collections::HashMap<String, serde_json::Value>> = serde_json::from_str(text).ok();
    let text_of = |v: Option<serde_json::Value>| v.and_then(|v| v.as_str().map(str::to_owned));
    fields.map(|mut f| (text_of(f.remove("action")), text_of(f.remove("message")), text_of(f.remove("app"))))
}

/// An engine reply read as a tool call.
#[derive(Debug, Clone, PartialEq)]
pub struct ToolResponse {
    pub action: String,
    pub message: Option<String>,
    pub app: Option<String>,
}

pub struct ToolView {
    pub action: Seq<char>,
    pub message: Option<Seq<char>>,
    pub app: Option<Seq<char>>,
}

impl View for ToolResponse {
    type V = ToolView;

    open spec fn view(&self) -> ToolView {
        ToolView { action: self.action@, message: opt_view(self.message), app: opt_view(self.app) }
    }
}

/// The tool call a reply stands for, given what was decoded from it: text
/// that is no tool call is an answer made of the raw text, and so is an
/// `answer` call without a message.
pub open spec fn tool_response_of(
    text: Seq<char>,
    decoded: Option<(Option<Seq<char>>, Option<Seq<char>>, Option<Seq<char>>)>,
) -> ToolView {
    match decoded {
        Some((Some(action), message, app)) => if action == "answer"@ && message is None {
            ToolView { action, message: Some(text), app }
        } else {
            ToolView { action, message, app }
        },
        _ => ToolView { action: "answer"@, message: Some(text), app: None },
    }
}

/// Reads a reply as a tool call, given what was decoded from it.
pub fn interpret_tool_reply(
    text: &str,
    decoded: Option<(Option<String>, Option<String>, Option<String>)>,
) -> (r: ToolResponse)
    ensures
        r@ == tool_response_of(
            text@,
            match decoded {
                Some((a, m, p)) => Some((opt_view(a), opt_view(m), opt_view(p))),
                None => None,
            },
        ),
{
    match decoded {
        Some((Some(action), message, app)) => {
            if message.is_none() && crate::assoc::same_text(action.as_str(), "answer") {
                ToolResponse { action, message: Some(text.to_owned()), app }
            } else {
                ToolResponse { action, message, app }
            }
        },
        _ => ToolResponse { action: String::from_str("answer"), message: Some(text.to_owned()), app: None },
    }
}

/// Reads an engine reply as a tool call.
pub fn parse_tool_response(text: &str) -> (r: ToolResponse)
    ensures
        r@ == tool_response_of(text@, tool_call_fields(text@)),
{
    interpret_tool_reply(text, decode_tool_call(text))
}

/// The text the loop works with after an engine call: the reply, or an
/// error note when the call failed.
pub fn engine_reply_text(result: Result<String, String>) -> (r: String)
    ensures
        r@ == match result {
            Ok(s) => s@,
            Err(e) => "Error: "@ + e@,
        },
{
    match result {
        Ok(s) => s,
        Err(e) => String::from_str("Error: ").concat(e.as_str()),
    }
}

/// How a turn ended.
#[derive(Debug, Clone, PartialEq)]
pub enum TurnOutcome {
    Answer(String),
    Nothing,
    LaunchApp(String),
}

pub enum OutcomeView {
    Answer(Seq<char>),
    Nothing,
    LaunchApp(Seq<char>),
}

impl View for TurnOutcome {
    type V = OutcomeView;

    open spec fn view(&self) -> OutcomeView {
        match self {
            TurnOutcome::Answer(m) => OutcomeView::Answer(m@),
            TurnOutcome::Nothing => OutcomeView::Nothing,
            TurnOutcome::LaunchApp(c) => OutcomeView::LaunchApp(c@),
        }
    }
}

pub open spec fn already_provided(label: Seq<char>) -> Seq<char> {
    label + ALREADY_PROVIDED_SUFFIX@
}

/// The state of a turn.
pub struct TurnModel {
    /// The transcript the prompts show: the document's, then this turn's
    /// user text and context markers once a block was asked for.
    pub history: Seq<Fragment>,
    /// Length of the document's transcript when the turn started.
    pub initial_len: nat,
    pub latest_user: Seq<char>,
    /// The user text the next prompt carries; emptied once it moved into `history`.
    pub prompt_user: Seq<char>,
    pub pushed_user: bool,
    pub model: Option<Seq<char>>,
    pub apps: Seq<Seq<char>>,
    pub docs: DocsInfoView,
    pub values: Seq<(Seq<char>, Seq<char>)>,
    pub apps_given: bool,
    pub docs_given: bool,
    pub values_given: bool,
    /// Engine calls still allowed.
    pub left: nat,
    pub outcome: Option<OutcomeView>,
}

impl TurnModel {
    pub open spec fn start(
        history: Seq<Fragment>,
        latest_user: Seq<char>,
        model: Option<Seq<char>>,
        apps: Seq<Seq<char>>,
        docs: DocsInfoView,
        values: Seq<(Seq<char>, Seq<char>)>,
        max_iterations: nat,
    ) -> TurnModel {
        TurnModel {
            history,
            initial_len: history.len(),
            latest_user,
            prompt_user: latest_user,
            pushed_user: false,
            model,
            apps,
            docs,
            values,
            apps_given: false,
            docs_given: false,
            values_given: false,
            left: max_iterations,
            outcome: if max_iterations == 0 {
                Some(OutcomeView::Answer(NO_ACTION_MESSAGE@))
            } else {
                None
            },
        }
    }

    /// What every reachable turn satisfies.
    pub open spec fn valid(self) -> bool {
        &&& self.initial_len <= self.history.len()
        &&& (self.outcome is None ==> self.left > 0)
    }

    pub open spec fn is_done(self) -> bool {
        self.outcome is Some
    }

    /// The prompt of the next engine call.
    pub open spec fn prompt(self) -> Seq<char> {
        web_request_text(
            self.history,
            self.prompt_user,
            if self.apps_given { Some(self.apps) } else { None },
            if self.docs_given { Some(self.docs) } else { None },
            if self.values_given { Some(self.values) } else { None },
        )
    }

    /// A context block was supplied: the user text enters the transcript if
    /// it has not yet, then the marker; with no call left the turn ends
    /// without a conclusion.
    pub open spec fn note_fetch(self, marker: Seq<char>) -> TurnModel {
        let push_user = !self.pushed_user && self.prompt_user.len() > 0;
        let h = if push_user {
            self.history.push(Fragment::User(self.prompt_user))
        } else {
            self.history
        };
        TurnModel {
            history: h.push(Fragment::Assistant(marker)),
            prompt_user: if push_user { Seq::empty() } else { self.prompt_user },
            pushed_user: self.pushed_user || push_user,
            outcome: if self.left == 0 {
                Some(OutcomeView::Answer(NO_ACTION_MESSAGE@))
            } else {
                None
            },
            ..self
        }
    }

    pub open spec fn end(self, outcome: OutcomeView) -> TurnModel {
        TurnModel { outcome: Some(outcome), ..self }
    }

    /// The turn after the engine replied `raw`, read as `call`.
    pub open spec fn step(self, raw: Seq<char>, call: ToolView) -> TurnModel {
        let t = TurnModel { left: (self.left - 1) as nat, ..self };
        let a = call.action;
        if a == "answer"@ {
            t.end(
                match call.message {
                    Some(m) => OutcomeView::Answer(m),
                    None => OutcomeView::Answer(NO_ACTION_MESSAGE@),
                },
            )
        } else if a == "nothing"@ {
            t.end(OutcomeView::Nothing)
        } else if a == "launch_app"@ {
            t.end(
                match call.app {
                    Some(c) => OutcomeView::LaunchApp(c),
                    None => OutcomeView::Answer(NO_ACTION_MESSAGE@),
                },
            )
        } else if a == "list_apps"@ {
            if self.apps_given {
                t.end(OutcomeView::Answer(already_provided(APPS_LABEL@)))
            } else {
                TurnModel { apps_given: true, ..t.note_fetch(APPS_MARKER@) }
            }
        } else if a == "list_docs"@ {
            if self.docs_given {
                t.end(OutcomeView::Answer(already_provided(DOCS_LABEL@)))
            } else {
                TurnModel { docs_given: true, ..t.note_fetch(DOCS_MARKER@) }
            }
        } else if a == "list_app_values"@ {
            if self.values_given {
                t.end(OutcomeView::Answer(already_provided(VALUES_LABEL@)))
            } else {
                TurnModel { values_given: true, ..t.note_fetch(VALUES_MARKER@) }
            }
        } else {
            t.end(OutcomeView::Answer(raw))
        }
    }

    /// The turn after the engine replied `raw`.
    pub open spec fn on_reply(self, raw: Seq<char>) -> TurnModel {
        self.step(raw, tool_response_of(raw, tool_call_fields(raw)))
    }

    /// What the chat caller receives.
    pub open spec fn reply(self) -> Option<Seq<char>> {
        match self.outcome {
            Some(OutcomeView::Answer(m)) => Some(m),
            _ => None,
        }
    }
}

/// The document after a finished turn was committed: the model hint becomes
/// the active model, the turn's transcript entries are appended (the user
/// text first if no context request put it there, when the turn answered or
/// launched), then the answer; a launched mini-app is added under `app_id`.
pub open spec fn commit_turn(s: AgentState, t: TurnModel, app_id: Seq<char>) -> AgentState {
    let answer = t.reply();
    let launched = match t.outcome {
        Some(OutcomeView::LaunchApp(c)) => Some(c),
        _ => None,
    };
    let user = if !t.pushed_user && t.latest_user.len() > 0 && (answer is Some || launched is Some) {
        seq![Fragment::User(t.latest_user)]
    } else {
        Seq::empty()
    };
    let last = match answer {
        Some(m) => seq![Fragment::Assistant(m)],
        None => Seq::empty(),
    };
    let s1 = AgentState {
        active_model: if t.model is Some { t.model } else { s.active_model },
        history: s.history + t.history.skip(t.initial_len as int) + user + last,
        ..s
    };
    match launched {
        Some(c) => s1.launch_app(app_id, c),
        None => s1,
    }
}

/// A chat turn in progress.
pub struct ChatTurn {
    history: Vec<ConversationFragment>,
    initial_len: usize,
    latest_user: String,
    prompt_user: String,
    pushed_user: bool,
    model: Option<String>,
    apps: Vec<String>,
    docs: DocsInfo,
    values: Vec<StoredValueInfo>,
    apps_given: bool,
    docs_given: bool,
    values_given: bool,
    left: usize,
    outcome: Option<TurnOutcome>,
}

impl View for ChatTurn {
    type V = TurnModel;

    closed spec fn view(&self) -> TurnModel {
        TurnModel {
            history: seq_view(self.history@),
            initial_len: self.initial_len as nat,
            latest_user: self.latest_user@,
            prompt_user: self.prompt_user@,
            pushed_user: self.pushed_user,
            model: opt_view(self.model),
            apps: seq_view(self.apps@),
            docs: self.docs@,
            values: seq_view(self.values@),
            apps_given: self.apps_given,
            docs_given: self.docs_given,
            values_given: self.values_given,
            left: self.left as nat,
            outcome: match self.outcome {
                Some(o) => Some(o@),
                None => None,
            },
        }
    }
}

fn copy_history(h: &Vec<ConversationFragment>) -> (r: Vec<ConversationFragment>)
    ensures
        seq_view(r@) == seq_view(h@),
{
    let mut out: Vec<ConversationFragment> = Vec::new();
    let mut i: usize = 0;
    while i < h.len()
        invariant
            i <= h@.len(),
            seq_view(out@) =~= seq_view(h@).take(i as int),
        decreases h@.len() - i,
    {
        let f = h[i].duplicate();
        let ghost prev = seq_view(out@);
        out.push(f);
        assert(seq_view(out@) =~= prev.push(f@));
        i = i + 1;
    }
    assert(seq_view(h@).take(h@.len() as int) =~= seq_view(h@));
    out
}

impl ChatTurn {
    /// A turn over the given transcript and context blocks.
    pub fn new(
        history: Vec<ConversationFragment>,
        latest_user: String,
        model: Option<String>,
        apps: Vec<String>,
        docs: DocsInfo,
        values: Vec<StoredValueInfo>,
        max_iterations: usize,
    ) -> (r: Self)
        ensures
            r@ == TurnModel::start(
                seq_view(history@),
                latest_user@,
                opt_view(model),
                seq_view(apps@),
                docs@,
                seq_view(values@),
                max_iterations as nat,
            ),
            r@.valid(),
    {
        let initial_len = history.len();
        let prompt_user = latest_user.clone();
        let outcome = if max_iterations == 0 {
            Some(TurnOutcome::Answer(String::from_str(NO_ACTION_MESSAGE)))
        } else {
            None
        };
        ChatTurn {
            history,
            initial_len,
            latest_user,
            prompt_user,
            pushed_user: false,
            model,
            apps,
            docs,
            values,
            apps_given: false,
            docs_given: false,
            values_given: false,
            left: max_iterations,
            outcome,
        }
    }

    /// A turn over the document's transcript, with the context blocks read
    /// from the document as it is now.
    pub fn start(agent: &LspAgent, latest_user: String, model: Option<String>, max_iterations: usize) -> (r: Self)
        requires
            agent.wf(),
        ensures
            docs_listing(agent@.text_documents, r@.docs),
            r@ == TurnModel::start(
                agent@.history,
                latest_user@,
                opt_view(model),
                Seq::new(agent@.webviews.entries.len(), |i: int| agent@.webviews.entries[i].1),
                r@.docs,
                Seq::new(agent@.stored_values.len(), |i: int| (agent@.stored_values[i].0, agent@.stored_values[i].1.1)),
                max_iterations as nat,
            ),
            r@.valid(),
    {
        let history = copy_history(&agent.conversation_history);
        let apps = collect_apps(&agent.webviews);
        let docs = collect_docs(&agent.text_documents);
        let values = collect_stored_values(&agent.stored_values);
        let r = ChatTurn::new(history, latest_user, model, apps, docs, values, max_iterations);
        assert(Seq::new(agent.stored_values@.len(), |i: int| (entries_view(agent.stored_values@)[i].0, entries_view(agent.stored_values@)[i].1.1))
            =~= Seq::new(agent@.stored_values.len(), |i: int| (agent@.stored_values[i].0, agent@.stored_values[i].1.1)));
        r
    }

    pub fn is_done(&self) -> (r: bool)
        ensures
            r == self@.is_done(),
    {
        self.outcome.is_some()
    }

    /// How the turn ended, once it has.
    pub fn outcome(&self) -> (r: Option<TurnOutcome>)
        ensures
            match r {
                Some(o) => self@.outcome == Some(o@),
                None => self@.outcome is None,
            },
    {
        match &self.outcome {
            Some(TurnOutcome::Answer(m)) => Some(TurnOutcome::Answer(m.clone())),
            Some(TurnOutcome::Nothing) => Some(TurnOutcome::Nothing),
            Some(TurnOutcome::LaunchApp(c)) => Some(TurnOutcome::LaunchApp(c.clone())),
            None => None,
        }
    }

    /// The prompt of the next engine call.
    pub fn prompt(&self) -> (r: String)
        ensures
            r@ == self@.prompt(),
    {
        let apps: Option<&[String]> = if self.apps_given { Some(self.apps.as_slice()) } else { None };
        let docs: Option<&DocsInfo> = if self.docs_given { Some(&self.docs) } else { None };
        let values: Option<&[StoredValueInfo]> = if self.values_given { Some(self.values.as_slice()) } else { None };
        build_web_request(self.history.as_slice(), self.prompt_user.as_str(), apps, docs, values)
    }

    fn note_fetch(&mut self, marker: &str)
        requires
            old(self)@.initial_len <= old(self)@.history.len(),
        ensures
            final(self)@ == old(self)@.note_fetch(marker@),
    {
        let ghost before = self@;
        let push_user = !self.pushed_user && !self.prompt_user.as_str().is_empty();
        if push_user {
            let u = self.prompt_user.clone();
            self.history.push(ConversationFragment::User(u));
            self.prompt_user = String::new();
            self.pushed_user = true;
        }
        let ghost mid = seq_view(self.history@);
        self.history.push(ConversationFragment::Assistant(String::from_str(marker)));
        if self.left == 0 {
            self.outcome = Some(TurnOutcome::Answer(String::from_str(NO_ACTION_MESSAGE)));
        } else {
            self.outcome = None;
        }
        proof {
            if push_user {
                assert(mid =~= before.history.push(Fragment::User(before.prompt_user)));
            } else {
                assert(mid =~= before.history);
            }
            assert(seq_view(self.history@) =~= mid.push(Fragment::Assistant(marker@)));
            assert(self@ == before.note_fetch(marker@));
        }
    }

    fn end(&mut self, outcome: TurnOutcome)
        ensures
            final(self)@ == old(self)@.end(outcome@),
    {
        self.outcome = Some(outcome);
    }

    /// Advances the turn by one engine reply `raw`, read as `call`.
    pub fn apply(&mut self, raw: String, call: ToolResponse)
        requires
            old(self)@.valid(),
            !old(self)@.is_done(),
        ensures
            final(self)@ == old(self)@.step(raw@, call@),
            final(self)@.valid(),
    {
        let ghost before = self@;
        let ghost after_dec = TurnModel { left: (before.left - 1) as nat, ..before };
        self.left = self.left - 1;
        assert(self@ == after_dec);
        let a = call.action.as_str();
        if crate::assoc::same_text(a, "answer") {
            match call.message {
                Some(m) => self.end(TurnOutcome::Answer(m)),
                None => self.end(TurnOutcome::Answer(String::from_str(NO_ACTION_MESSAGE))),
            }
        } else if crate::assoc::same_text(a, "nothing") {
            self.end(TurnOutcome::Nothing);
        } else if crate::assoc::same_text(a, "launch_app") {
            match call.app {
                Some(c) => self.end(TurnOutcome::LaunchApp(c)),
                None => self.end(TurnOutcome::Answer(String::from_str(NO_ACTION_MESSAGE))),
            }
        } else if crate::assoc::same_text(a, "list_apps") {
            if self.apps_given {
                self.end(TurnOutcome::Answer(String::from_str(APPS_LABEL).concat(ALREADY_PROVIDED_SUFFIX)));
            } else {
                self.note_fetch(APPS_MARKER);
                self.apps_given = true;
            }
        } else if crate::assoc::same_text(a, "list_docs") {
            if self.docs_given {
                self.end(TurnOutcome::Answer(String::from_str(DOCS_LABEL).concat(ALREADY_PROVIDED_SUFFIX)));
            } else {
                self.note_fetch(DOCS_MARKER);
                self.docs_given = true;
            }
        } else if crate::assoc::same_text(a, "list_app_values") {
            if self.values_given {
                self.end(TurnOutcome::Answer(String::from_str(VALUES_LABEL).concat(ALREADY_PROVIDED_SUFFIX)));
            } else {
                self.note_fetch(VALUES_MARKER);
                self.values_given = true;
            }
        } else {
            self.end(TurnOutcome::Answer(raw));
        }
    }

    /// Advances the turn by one engine reply.
    pub fn on_reply(&mut self, raw: String)
        requires
            old(self)@.valid(),
            !old(self)@.is_done(),
        ensures
            final(self)@ == old(self)@.on_reply(raw@),
            final(self)@.valid(),
    {
        let call = parse_tool_response(raw.as_str());
        self.apply(raw, call);
    }

    /// Commits a finished turn to the document and returns what the chat
    /// caller receives. A launched mini-app is added under `app_id`.
    pub fn finish(self, agent: &mut LspAgent, app_id: String) -> (r: Option<String>)
        requires
            self@.valid(),
            self@.is_done(),
            old(agent).wf(),
        ensures
            final(agent).wf(),
            final(agent)@ == commit_turn(old(agent)@, self@, app_id@),
            opt_view(r) == self@.reply(),
    {
        let ghost t = self@;
        let ghost s0 = agent@;
        if let Some(m) = &self.model {
            agent.active_model = Some(m.clone());
        }
        let mut i: usize = self.initial_len;
        while i < self.history.len()
            invariant
                agent.wf(),
                t == self@,
                t.valid(),
                t.initial_len <= i <= self.history@.len(),
                agent@ == (AgentState {
                    active_model: if t.model is Some { t.model } else { s0.active_model },
                    history: s0.history + t.history.subrange(t.initial_len as int, i as int),
                    ..s0
                }),
            decreases self.history@.len() - i,
        {
            let f = self.history[i].duplicate();
            let ghost prev = agent@.history;
            agent.conversation_history.push(f);
            assert(agent@.history =~= prev.push(f@));
            assert(t.history.subrange(t.initial_len as int, i + 1) =~= t.history.subrange(
                t.initial_len as int,
                i as int,
            ).push(f@));
            assert(agent@.history =~= s0.history + t.history.subrange(t.initial_len as int, i + 1));
            i = i + 1;
        }
        assert(t.history.subrange(t.initial_len as int, t.history.len() as int) =~= t.history.skip(
            t.initial_len as int,
        ));
        let ghost s1 = agent@;
        let (answer, launched) = match self.outcome {
            Some(TurnOutcome::Answer(m)) => (Some(m), None),
            Some(TurnOutcome::LaunchApp(c)) => (None, Some(c)),
            _ => (None, None),
        };
        if !self.pushed_user && !self.latest_user.as_str().is_empty() && (answer.is_some() || launched.is_some()) {
            agent.conversation_history.push(ConversationFragment::User(self.latest_user));
        }
        let ghost s2 = agent@;
        let reply = match answer {
            Some(m) => {
                agent.conversation_history.push(ConversationFragment::Assistant(m.clone()));
                Some(m)
            },
            None => None,
        };
        proof {
            let user = if !t.pushed_user && t.latest_user.len() > 0 && (t.reply() is Some || (
            t.outcome matches Some(OutcomeView::LaunchApp(_)))) {
                seq![Fragment::User(t.latest_user)]
            } else {
                Seq::empty()
            };
            let last = match t.reply() {
                Some(m) => seq![Fragment::Assistant(m)],
                None => Seq::empty(),
            };
            assert(s2.history =~= s1.history + user);
            assert(agent@.history =~= s1.history + user + last);
        }
        if let Some(c) = launched {
            agent.launch_app(app_id, c);
        }
        reply
    }
}

/// `needle` occurs in `hay`.
pub open spec fn contains_text(hay: Seq<char>, needle: Seq<char>) -> bool {
    exists|i: int| 0 <= i && i + needle.len() <= hay.len() && #[trigger] hay.subrange(i, i + needle.len()) == needle
}

proof fn lemma_actions_distinct()
    ensures
        "list_apps"@ != "answer"@,
        "list_apps"@ != "nothing"@,
        "list_apps"@ != "launch_app"@,
        "list_docs"@ != "answer"@,
        "list_docs"@ != "nothing"@,
        "list_docs"@ != "launch_app"@,
        "list_docs"@ != "list_apps"@,
        "list_app_values"@ != "answer"@,
        "list_app_values"@ != "nothing"@,
        "list_app_values"@ != "launch_app"@,
        "list_app_values"@ != "list_apps"@,
        "list_app_values"@ != "list_docs"@,
{
    reveal_strlit("answer");
    reveal_strlit("nothing");
    reveal_strlit("launch_app");
    reveal_strlit("list_apps");
    reveal_strlit("list_docs");
    reveal_strlit("list_app_values");
    assert("list_apps"@.len() != "answer"@.len());
    assert("list_apps"@.len() != "nothing"@.len());
    assert("list_apps"@[5] != "launch_app"@[5]);
    assert("list_docs"@.len() != "answer"@.len());
    assert("list_docs"@.len() != "nothing"@.len());
    assert("list_docs"@[5] != "launch_app"@[5]);
    assert("list_docs"@[5] != "list_apps"@[5]);
    assert("list_app_values"@.len() != "answer"@.len());
    assert("list_app_values"@.len() != "nothing"@.len());
    assert("list_app_values"@.len() != "launch_app"@.len());
    assert("list_app_values"@.len() != "list_apps"@.len());
    assert("list_app_values"@.len() != "list_docs"@.len());
}

proof fn lemma_already_provided_text(label: Seq<char>)
    ensures
        contains_text(already_provided(label), "already provided"@),
{
    reveal_strlit(" was already provided, but the assistant requested it again without concluding.");
    reveal_strlit("already provided");
    let m = already_provided(label);
    let i: int = label.len() as int + 5;
    assert(m.subrange(i, i + "already provided"@.len()) =~= "already provided"@);
}

/// A turn whose first reply is an answer adds exactly two entries to the
/// transcript: the user's text, then the answer. No context marker is added.
pub proof fn lemma_immediate_answer(
    s: AgentState,
    history: Seq<Fragment>,
    latest_user: Seq<char>,
    model: Option<Seq<char>>,
    apps: Seq<Seq<char>>,
    docs: DocsInfoView,
    values: Seq<(Seq<char>, Seq<char>)>,
    max_iterations: nat,
    raw: Seq<char>,
    call: ToolView,
    app_id: Seq<char>,
)
    requires
        max_iterations >= 1,
        latest_user.len() > 0,
        call.action == "answer"@,
    ensures
        ({
            let t = TurnModel::start(history, latest_user, model, apps, docs, values, max_iterations).step(
                raw,
                call,
            );
            &&& t.reply() is Some
            &&& commit_turn(s, t, app_id).history == s.history + seq![
                Fragment::User(latest_user),
                Fragment::Assistant(t.reply()->0),
            ]
        }),
{
    let t = TurnModel::start(history, latest_user, model, apps, docs, values, max_iterations).step(raw, call);
    assert(history.skip(history.len() as int) =~= Seq::<Fragment>::empty());
    assert(s.history + Seq::<Fragment>::empty() + seq![Fragment::User(latest_user)] + seq![
        Fragment::Assistant(t.reply()->0),
    ] =~= s.history + seq![Fragment::User(latest_user), Fragment::Assistant(t.reply()->0)]);
}

/// Asking again for a context block that was already supplied in this turn
/// ends the turn with an answer saying it was "already provided".
pub proof fn lemma_repeated_request_ends_turn(t: TurnModel, raw: Seq<char>, call: ToolView)
    requires
        (call.action == "list_apps"@ && t.apps_given) || (call.action == "list_docs"@ && t.docs_given)
            || (call.action == "list_app_values"@ && t.values_given),
    ensures
        t.step(raw, call).is_done(),
        t.step(raw, call).reply() is Some,
        contains_text(t.step(raw, call).reply()->0, "already provided"@),
{
    lemma_actions_distinct();
    lemma_already_provided_text(APPS_LABEL@);
    lemma_already_provided_text(DOCS_LABEL@);
    lemma_already_provided_text(VALUES_LABEL@);
}

/// A reply that is not a JSON tool call ends the turn at once, and the answer
/// is the reply's raw text.
pub proof fn lemma_freeform_reply_answers(t: TurnModel, raw: Seq<char>)
    requires
        tool_call_fields(raw) is None,
    ensures
        t.on_reply(raw).outcome == Some(OutcomeView::Answer(raw)),
{
}

/// With a budget of one engine call, a turn whose reply asks for the running
/// apps ends with the fixed no-conclusion answer.
pub proof fn lemma_budget_exhausted(
    history: Seq<Fragment>,
    latest_user: Seq<char>,
    model: Option<Seq<char>>,
    apps: Seq<Seq<char>>,
    docs: DocsInfoView,
    values: Seq<(Seq<char>, Seq<char>)>,
    raw: Seq<char>,
    call: ToolView,
)
    requires
        call.action == "list_apps"@,
    ensures
        TurnModel::start(history, latest_user, model, apps, docs, values, 1).step(raw, call).outcome
            == Some(OutcomeView::Answer(NO_ACTION_MESSAGE@)),
{
    lemma_actions_distinct();
}

/// Relies on `uuid::Uuid::new_v4` for a random identifier and on its
/// `Display`, which writes it in hyphenated form. Nothing is assumed of the
/// value.
#[verifier::external_body]
fn random_uuid_text() -> (r: String) {
    uuid::Uuid::new_v4().to_string()
}

/// A fresh mini-app identifier: `app-` followed by a random UUID.
pub fn new_app_id() -> (r: String)
    ensures
        r@.len() >= 4,
        r@.take(4) == "app-"@,
{
    let id = String::from_str("app-").concat(random_uuid_text().as_str());
    proof {
        reveal_strlit("app-");
        assert(id@.take(4) =~= "app-"@);
    }
    id
}

} // verus!
