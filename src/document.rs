//! The replicated document's data model. Every field of [`LspAgent`] lives in
//! the one document that both processes share; each method of it is one
//! read-modify-commit transaction on that document.

use vstd::prelude::*;
use crate::assoc::{drop_key, entries_view, has_key, lemma_upsert_lookup, lookup, position, put, unique_keys, upsert, without};

verus! {

/// Views each element of a sequence.
pub open spec fn seq_view<T: View>(s: Seq<T>) -> Seq<T::V> {
    Seq::new(s.len(), |i: int| s[i]@)
}

pub open spec fn opt_view(o: Option<String>) -> Option<Seq<char>> {
    match o {
        Some(s) => Some(s@),
        None => None,
    }
}

/// A mini-app's request for inference, tagged with the app that sent it so
/// that the reply can be routed back.
#[derive(Debug, Clone, PartialEq)]
pub enum AgentRequest {
    Inference { content: String, app_id: String },
}

pub enum RequestView {
    Inference { content: Seq<char>, app_id: Seq<char> },
}

impl View for AgentRequest {
    type V = RequestView;

    open spec fn view(&self) -> RequestView {
        match self {
            AgentRequest::Inference { content, app_id } => RequestView::Inference {
                content: content@,
                app_id: app_id@,
            },
        }
    }
}

/// What the control process hands back to the rendering process.
#[derive(Debug, Clone, PartialEq)]
pub enum AgentResponse {
    /// Kept for compatibility; nothing on the live path produces it.
    Chat(String),
    Inference { app_id: String, content: String },
    WebApp { id: String, content: String },
}

pub enum ResponseView {
    Chat(Seq<char>),
    Inference { app_id: Seq<char>, content: Seq<char> },
    WebApp { id: Seq<char>, content: Seq<char> },
}

impl View for AgentResponse {
    type V = ResponseView;

    open spec fn view(&self) -> ResponseView {
        match self {
            AgentResponse::Chat(t) => ResponseView::Chat(t@),
            AgentResponse::Inference { app_id, content } => ResponseView::Inference {
                app_id: app_id@,
                content: content@,
            },
            AgentResponse::WebApp { id, content } => ResponseView::WebApp {
                id: id@,
                content: content@,
            },
        }
    }
}

/// One entry of the chat transcript.
#[derive(Debug, Clone, PartialEq)]
pub enum ConversationFragment {
    Assistant(String),
    User(String),
}

pub enum Fragment {
    Assistant(Seq<char>),
    User(Seq<char>),
}

impl View for ConversationFragment {
    type V = Fragment;

    open spec fn view(&self) -> Fragment {
        match self {
            ConversationFragment::Assistant(t) => Fragment::Assistant(t@),
            ConversationFragment::User(t) => Fragment::User(t@),
        }
    }
}

impl ConversationFragment {
    pub fn duplicate(&self) -> (r: Self)
        ensures
            r@ == self@,
    {
        match self {
            ConversationFragment::Assistant(t) => ConversationFragment::Assistant(t.clone()),
            ConversationFragment::User(t) => ConversationFragment::User(t.clone()),
        }
    }
}

/// The text of an open editor buffer or of a rendered mini-app.
#[derive(Debug, Clone, PartialEq, Default)]
pub struct DocumentContent {
    pub text: String,
}

impl View for DocumentContent {
    type V = Seq<char>;

    open spec fn view(&self) -> Seq<char> {
        self.text@
    }
}

/// Storage for the replication runtime that keeps nothing: the document
/// lives only as long as the run that created it.
#[derive(Debug, Clone, Copy, PartialEq, Eq, Default)]
pub struct NoStorage;

impl NoStorage {
    /// No document was ever stored.
    pub fn get(&self, _id: &Id) -> (r: Option<Vec<u8>>)
        ensures
            r is None,
    {
        None
    }

    pub fn list_all(&self) -> (r: Vec<Id>)
        ensures
            r@.len() == 0,
    {
        Vec::new()
    }

    /// Drops the changes.
    pub fn append(&self, _id: &Id, _changes: Vec<u8>) {
    }

    /// Drops the compacted document.
    pub fn compact(&self, _id: &Id, _full_doc: Vec<u8>) {
    }
}

/// A document identifier as text.
#[derive(Debug, Clone, PartialEq, Eq, Hash, Default)]
pub struct Id {
    pub value: String,
}

impl View for Id {
    type V = Seq<char>;

    open spec fn view(&self) -> Seq<char> {
        self.value@
    }
}

impl From<String> for Id {
    fn from(s: String) -> (r: Id) {
        Id { value: s }
    }
}

impl vstd::std_specs::convert::FromSpecImpl<String> for Id {
    open spec fn obeys_from_spec() -> bool {
        true
    }

    open spec fn from_spec(s: String) -> Id {
        Id { value: s }
    }
}

impl std::str::FromStr for Id {
    type Err = std::convert::Infallible;

    fn from_str(s: &str) -> Result<Id, std::convert::Infallible> {
        Ok(Id { value: s.to_owned() })
    }
}

impl Id {
    pub fn as_ref(&self) -> (r: &str)
        ensures
            r@ == self.value@,
    {
        self.value.as_str()
    }

    /// The identifier as it is printed.
    pub fn to_string(&self) -> (r: String)
        ensures
            r@ == self.value@,
    {
        self.value.clone()
    }
}

/// A document URI as text.
#[derive(Debug, Clone, PartialEq, Default)]
pub struct Uri {
    pub value: String,
}

/// The set of documents one side mirrors: `text_documents` holds the open
/// editor buffers, `webviews` the rendered mini-apps. Keys are distinct and
/// kept in the order they were first inserted.
#[derive(Debug, Clone, PartialEq, Default)]
pub struct DocumentManager {
    pub documents: Vec<(String, DocumentContent)>,
    pub active_document: Option<Uri>,
}

pub struct DocsView {
    pub entries: Seq<(Seq<char>, Seq<char>)>,
    pub active: Option<Seq<char>>,
}

impl View for DocumentManager {
    type V = DocsView;

    open spec fn view(&self) -> DocsView {
        DocsView {
            entries: entries_view(self.documents@),
            active: match self.active_document {
                Some(u) => Some(u.value@),
                None => None,
            },
        }
    }
}

impl DocumentManager {
    pub open spec fn wf(&self) -> bool {
        unique_keys(entries_view(self.documents@))
    }

    pub fn new() -> (r: Self)
        ensures
            r@.entries.len() == 0,
            r@.active is None,
            r.wf(),
    {
        DocumentManager { documents: Vec::new(), active_document: None }
    }

    /// Opens or replaces the document `key`.
    pub fn insert(&mut self, key: String, text: String)
        requires
            old(self).wf(),
        ensures
            final(self).wf(),
            final(self)@.entries == upsert(old(self)@.entries, key@, text@),
            final(self)@.active == old(self)@.active,
    {
        put(&mut self.documents, key, DocumentContent { text });
    }

    /// Forgets the document `key`, if it is there.
    pub fn remove(&mut self, key: &str)
        requires
            old(self).wf(),
        ensures
            final(self).wf(),
            final(self)@.entries == without(old(self)@.entries, key@),
            final(self)@.active == old(self)@.active,
    {
        drop_key(&mut self.documents, key);
    }

    /// The text of document `key`, if it is there.
    pub fn get(&self, key: &str) -> (r: Option<String>)
        requires
            self.wf(),
        ensures
            opt_view(r) == lookup(self@.entries, key@),
    {
        match position(&self.documents, key) {
            Some(i) => Some(self.documents[i].1.text.clone()),
            None => None,
        }
    }
}

/// A value a mini-app stored, with the description the engine may see.
#[derive(Debug, Clone, PartialEq, Default)]
pub struct StoredValue {
    pub value: String,
    pub description: String,
}

impl View for StoredValue {
    type V = (Seq<char>, Seq<char>);

    open spec fn view(&self) -> (Seq<char>, Seq<char>) {
        (self.value@, self.description@)
    }
}

/// The whole shared document.
#[derive(Debug, Clone, PartialEq)]
pub struct LspAgent {
    /// Mini-app requests; the rendering process pushes, the control process pops.
    pub requests: Vec<AgentRequest>,
    /// Replies; the control process pushes, the rendering process pops.
    pub responses: Vec<AgentResponse>,
    pub text_documents: DocumentManager,
    pub webviews: DocumentManager,
    pub should_exit: bool,
    pub active_model: Option<String>,
    pub conversation_history: Vec<ConversationFragment>,
    pub stored_values: Vec<(String, StoredValue)>,
}

/// The document as values.
pub struct AgentState {
    pub requests: Seq<RequestView>,
    pub responses: Seq<ResponseView>,
    pub text_documents: DocsView,
    pub webviews: DocsView,
    pub should_exit: bool,
    pub active_model: Option<Seq<char>>,
    pub history: Seq<Fragment>,
    pub stored_values: Seq<(Seq<char>, (Seq<char>, Seq<char>))>,
}

impl View for LspAgent {
    type V = AgentState;

    open spec fn view(&self) -> AgentState {
        AgentState {
            requests: seq_view(self.requests@),
            responses: seq_view(self.responses@),
            text_documents: self.text_documents@,
            webviews: self.webviews@,
            should_exit: self.should_exit,
            active_model: opt_view(self.active_model),
            history: seq_view(self.conversation_history@),
            stored_values: entries_view(self.stored_values@),
        }
    }
}

/// The transcript note `close_app` leaves for a closed mini-app.
pub open spec fn app_closed_note(app_id: Seq<char>) -> Seq<char> {
    "App closed: "@ + app_id
}

impl AgentState {
    /// The document a run starts from.
    pub open spec fn initial() -> AgentState {
        AgentState {
            requests: Seq::empty(),
            responses: Seq::empty(),
            text_documents: DocsView { entries: Seq::empty(), active: None },
            webviews: DocsView { entries: Seq::empty(), active: None },
            should_exit: false,
            active_model: None,
            history: Seq::empty(),
            stored_values: Seq::empty(),
        }
    }

    pub open spec fn open_document(self, uri: Seq<char>, text: Seq<char>) -> AgentState {
        AgentState {
            text_documents: DocsView {
                entries: upsert(self.text_documents.entries, uri, text),
                active: self.text_documents.active,
            },
            ..self
        }
    }

    pub open spec fn close_document(self, uri: Seq<char>) -> AgentState {
        AgentState {
            text_documents: DocsView {
                entries: without(self.text_documents.entries, uri),
                active: self.text_documents.active,
            },
            ..self
        }
    }

    pub open spec fn activate_document(self, uri: Seq<char>) -> AgentState {
        AgentState {
            text_documents: DocsView { entries: self.text_documents.entries, active: Some(uri) },
            ..self
        }
    }

    pub open spec fn push_request(self, content: Seq<char>, app_id: Seq<char>) -> AgentState {
        AgentState {
            requests: self.requests.push(RequestView::Inference { content, app_id }),
            ..self
        }
    }

    pub open spec fn read_document(self, uri: Seq<char>) -> Seq<char> {
        match lookup(self.text_documents.entries, uri) {
            Some(t) => t,
            None => Seq::empty(),
        }
    }

    pub open spec fn close_app(self, app_id: Seq<char>) -> AgentState {
        AgentState {
            webviews: DocsView {
                entries: without(self.webviews.entries, app_id),
                active: self.webviews.active,
            },
            history: self.history.push(Fragment::Assistant(app_closed_note(app_id))),
            ..self
        }
    }

    pub open spec fn store_value(
        self,
        key: Seq<char>,
        value: Seq<char>,
        description: Seq<char>,
    ) -> AgentState {
        AgentState {
            stored_values: upsert(self.stored_values, key, (value, description)),
            ..self
        }
    }

    pub open spec fn read_value(self, key: Seq<char>) -> Option<Seq<char>> {
        match lookup(self.stored_values, key) {
            Some(v) => Some(v.0),
            None => None,
        }
    }

    /// A new mini-app: its `webviews` entry and its `WebApp` reply together.
    pub open spec fn launch_app(self, id: Seq<char>, content: Seq<char>) -> AgentState {
        AgentState {
            webviews: DocsView {
                entries: upsert(self.webviews.entries, id, content),
                active: self.webviews.active,
            },
            responses: self.responses.push(ResponseView::WebApp { id, content }),
            ..self
        }
    }

    pub open spec fn push_inference_response(self, app_id: Seq<char>, content: Seq<char>) -> AgentState {
        AgentState {
            responses: self.responses.push(ResponseView::Inference { app_id, content }),
            ..self
        }
    }

    pub open spec fn request_exit(self) -> AgentState {
        AgentState { should_exit: true, ..self }
    }
}

impl LspAgent {
    pub open spec fn wf(&self) -> bool {
        &&& self.text_documents.wf()
        &&& self.webviews.wf()
        &&& unique_keys(entries_view(self.stored_values@))
    }

    pub fn new() -> (r: Self)
        ensures
            r.wf(),
            r@ == AgentState::initial(),
    {
        let r = LspAgent {
            requests: Vec::new(),
            responses: Vec::new(),
            text_documents: DocumentManager::new(),
            webviews: DocumentManager::new(),
            should_exit: false,
            active_model: None,
            conversation_history: Vec::new(),
            stored_values: Vec::new(),
        };
        assert(r@.requests =~= Seq::empty());
        assert(r@.responses =~= Seq::empty());
        assert(r@.text_documents.entries =~= Seq::empty());
        assert(r@.webviews.entries =~= Seq::empty());
        assert(r@.history =~= Seq::empty());
        assert(r@.stored_values =~= Seq::empty());
        r
    }

    /// Records an editor buffer that was opened.
    pub fn did_open(&mut self, uri: String, text: String)
        requires
            old(self).wf(),
        ensures
            final(self).wf(),
            final(self)@ == old(self)@.open_document(uri@, text@),
    {
        self.text_documents.insert(uri, text);
    }

    /// Records the new full text of an editor buffer.
    pub fn did_change(&mut self, uri: String, text: String)
        requires
            old(self).wf(),
        ensures
            final(self).wf(),
            final(self)@ == old(self)@.open_document(uri@, text@),
    {
        self.text_documents.insert(uri, text);
    }

    /// Forgets an editor buffer that was closed.
    pub fn did_close(&mut self, uri: &str)
        requires
            old(self).wf(),
        ensures
            final(self).wf(),
            final(self)@ == old(self)@.close_document(uri@),
    {
        self.text_documents.remove(uri);
    }

    pub fn set_active_document(&mut self, uri: String)
        requires
            old(self).wf(),
        ensures
            final(self).wf(),
            final(self)@ == old(self)@.activate_document(uri@),
    {
        self.text_documents.active_document = Some(Uri { value: uri });
    }

    /// Posts a mini-app's inference request to the control process.
    pub fn app_inference_request(&mut self, content: String, app_id: String)
        requires
            old(self).wf(),
        ensures
            final(self).wf(),
            final(self)@ == old(self)@.push_request(content@, app_id@),
    {
        self.requests.push(AgentRequest::Inference { content, app_id });
        assert(self@.requests =~= old(self)@.requests.push(
            RequestView::Inference { content: content@, app_id: app_id@ },
        ));
    }

    /// The text of an open editor buffer, or the empty text when none has
    /// that URI. Rendered mini-apps are not editor buffers and never match.
    pub fn read_document(&self, uri: &str) -> (r: String)
        requires
            self.wf(),
        ensures
            r@ == self@.read_document(uri@),
    {
        match self.text_documents.get(uri) {
            Some(t) => t,
            None => String::new(),
        }
    }

    /// Forgets a mini-app whose view was closed and notes it in the transcript.
    pub fn close_app(&mut self, app_id: String)
        requires
            old(self).wf(),
        ensures
            final(self).wf(),
            final(self)@ == old(self)@.close_app(app_id@),
    {
        self.webviews.remove(app_id.as_str());
        let note = String::from_str("App closed: ").concat(app_id.as_str());
        let ghost n = note@;
        self.conversation_history.push(ConversationFragment::Assistant(note));
        assert(self@.history =~= old(self)@.history.push(Fragment::Assistant(n)));
    }

    pub fn store_value(&mut self, key: String, value: String, description: String)
        requires
            old(self).wf(),
        ensures
            final(self).wf(),
            final(self)@ == old(self)@.store_value(key@, value@, description@),
    {
        put(&mut self.stored_values, key, StoredValue { value, description });
    }

    pub fn read_value(&self, key: &str) -> (r: Option<String>)
        requires
            self.wf(),
        ensures
            opt_view(r) == self@.read_value(key@),
    {
        match position(&self.stored_values, key) {
            Some(i) => Some(self.stored_values[i].1.value.clone()),
            None => None,
        }
    }

    /// Adds a rendered mini-app and the reply that makes the rendering process
    /// show it, in one transaction.
    pub fn launch_app(&mut self, id: String, content: String)
        requires
            old(self).wf(),
        ensures
            final(self).wf(),
            final(self)@ == old(self)@.launch_app(id@, content@),
    {
        let ghost i = id@;
        let ghost c = content@;
        self.webviews.insert(id.clone(), content.clone());
        self.responses.push(AgentResponse::WebApp { id, content });
        assert(self@.responses =~= old(self)@.responses.push(ResponseView::WebApp { id: i, content: c }));
    }

    /// Posts the engine's reply to a mini-app's inference request.
    pub fn handle_inference_response(&mut self, app_id: String, content: String)
        requires
            old(self).wf(),
        ensures
            final(self).wf(),
            final(self)@ == old(self)@.push_inference_response(app_id@, content@),
    {
        let ghost i = app_id@;
        let ghost c = content@;
        self.responses.push(AgentResponse::Inference { app_id, content });
        assert(self@.responses =~= old(self)@.responses.push(
            ResponseView::Inference { app_id: i, content: c },
        ));
    }

    /// Tells every participant to wind down.
    pub fn shutdown(&mut self)
        requires
            old(self).wf(),
        ensures
            final(self).wf(),
            final(self)@ == old(self)@.request_exit(),
    {
        self.should_exit = true;
    }
}

/// Launching a mini-app adds its `webviews` entry and its `WebApp` reply
/// in the same transaction. The app's id does not name an editor buffer:
/// reading it as a document finds nothing unless a buffer was opened under
/// that very URI, while a buffer opened with `did_open` reads back its text.
pub proof fn lemma_launch_and_read(
    s: AgentState,
    id: Seq<char>,
    content: Seq<char>,
    uri: Seq<char>,
    text: Seq<char>,
)
    requires
        unique_keys(s.text_documents.entries),
        unique_keys(s.webviews.entries),
    ensures
        lookup(s.launch_app(id, content).webviews.entries, id) == Some(content),
        s.launch_app(id, content).responses == s.responses.push(ResponseView::WebApp { id, content }),
        s.launch_app(id, content).text_documents == s.text_documents,
        !has_key(s.text_documents.entries, id) ==> s.launch_app(id, content).read_document(id)
            == Seq::<char>::empty(),
        s.open_document(uri, text).read_document(uri) == text,
{
    lemma_upsert_lookup(s.webviews.entries, id, content);
    lemma_upsert_lookup(s.text_documents.entries, uri, text);
}

impl Default for LspAgent {
    fn default() -> (r: Self)
        ensures
            r.wf(),
            r@ == AgentState::initial(),
    {
        LspAgent::new()
    }
}

} // verus!
