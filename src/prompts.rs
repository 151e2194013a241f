//! The prompt sent to the inference engine: one JSON object holding the
//! system instructions, the transcript, the latest user text and whichever
//! context blocks the engine asked for during the turn. The object is framed
//! here; every piece of text in it is quoted by `serde_json`.

use vstd::prelude::*;
use crate::document::{ConversationFragment, Fragment, seq_view};

verus! {

/// The system instructions: how the engine must reply.
pub const WEB_ENVIRONMENT_SYSTEM_PROMPT: &'static str = "You are an expert web developer assistant embedded in a code editor. You help the user with the documents they have open and you build small self-contained web apps (a single HTML page with inline CSS and JavaScript) that run in a separate viewer window.\n\nReply with exactly one JSON object and nothing else, of the form {\"action\": ..., \"message\": ..., \"app\": ...}. The field \"action\" is one of:\n- \"answer\": reply to the user with the text in \"message\".\n- \"launch_app\": put the complete HTML of a new app in \"app\".\n- \"nothing\": no reply is needed.\n- \"list_apps\": ask for the contents of the running apps.\n- \"list_docs\": ask for the list of open documents and the active one.\n- \"list_app_values\": ask for the keys and descriptions of the values apps have stored.\nEach list may be asked for once per turn; after it is provided, conclude with answer, launch_app or nothing.\n\nInside an app, POST to wry://localhost/inference with a prompt as the body to get the engine's reply as text, POST a document URI to wry://localhost/document to read that document, POST {\"key\", \"value\", \"description\"} as JSON to wry://localhost/store_value to store a value, and POST a key to wry://localhost/read_value to read one back. A 'doc_changed' window event with detail.key tells an app that a stored value changed.";

pub const APPS_NOTE: &'static str = "The app list below is provided because you requested running apps.";

pub const DOCS_NOTE: &'static str = "The document list below is provided because you requested open documents.";

pub const VALUES_NOTE: &'static str = "The stored value list below is provided because you requested app values.";

pub const APPS_MARKER: &'static str = "Assistant requested info on running apps.";

pub const DOCS_MARKER: &'static str = "Assistant requested info on open documents.";

pub const VALUES_MARKER: &'static str = "Assistant requested info on stored values.";

/// What `serde_json` writes for a string: the JSON string literal, quotes
/// and escapes included.
pub uninterp spec fn json_string_of(s: Seq<char>) -> Seq<char>;

/// Relies on `serde_json::to_string` applied to a `str`, which writes its
/// JSON string literal. Serializing a `str` never fails.
#[verifier::external_body]
fn json_quote(s: &str) -> (r: String)
    ensures
        r@ == json_string_of(s@),
{
    serde_json::to_string(s).unwrap_or_default()
}

/// One transcript entry as the engine sees it.
#[derive(Debug, Clone, PartialEq)]
pub struct HistoryItem {
    pub role: &'static str,
    pub content: String,
}

impl View for HistoryItem {
    type V = (Seq<char>, Seq<char>);

    open spec fn view(&self) -> (Seq<char>, Seq<char>) {
        (self.role@, self.content@)
    }
}

/// The open editor documents, and the active one.
#[derive(Debug, Clone, PartialEq)]
pub struct DocsInfo {
    pub open_documents: Vec<String>,
    pub active_document: Option<String>,
}

pub struct DocsInfoView {
    pub open_documents: Seq<Seq<char>>,
    pub active_document: Option<Seq<char>>,
}

impl View for DocsInfo {
    type V = DocsInfoView;

    open spec fn view(&self) -> DocsInfoView {
        DocsInfoView {
            open_documents: seq_view(self.open_documents@),
            active_document: match self.active_document {
                Some(a) => Some(a@),
                None => None,
            },
        }
    }
}

impl DocsInfo {
    pub fn duplicate(&self) -> (r: Self)
        ensures
            r@ == self@,
    {
        let r = DocsInfo {
            open_documents: self.open_documents.clone(),
            active_document: match &self.active_document {
                Some(a) => Some(a.clone()),
                None => None,
            },
        };
        assert(r@.open_documents =~= self@.open_documents);
        r
    }
}

/// A stored value's key and description; its value is never shown to the engine.
#[derive(Debug, Clone, PartialEq)]
pub struct StoredValueInfo {
    pub key: String,
    pub description: String,
}

impl View for StoredValueInfo {
    type V = (Seq<char>, Seq<char>);

    open spec fn view(&self) -> (Seq<char>, Seq<char>) {
        (self.key@, self.description@)
    }
}

pub open spec fn fragment_item(f: Fragment) -> (Seq<char>, Seq<char>) {
    match f {
        Fragment::Assistant(t) => ("assistant"@, t),
        Fragment::User(t) => ("user"@, t),
    }
}

/// The transcript as the engine sees it, with the optional context markers after it.
pub open spec fn rendered_history(h: Seq<Fragment>, apps_marker: bool, docs_marker: bool) -> Seq<(Seq<char>, Seq<char>)> {
    let base = Seq::new(h.len(), |i: int| fragment_item(h[i]));
    let with_apps = if apps_marker { base.push(("assistant"@, APPS_MARKER@)) } else { base };
    if docs_marker { with_apps.push(("assistant"@, DOCS_MARKER@)) } else { with_apps }
}

/// Turns the transcript into role/content items, optionally followed by the
/// markers saying which context blocks were asked for.
pub fn render_history(
    history: &[ConversationFragment],
    include_apps_marker: bool,
    include_docs_marker: bool,
) -> (r: Vec<HistoryItem>)
    ensures
        seq_view(r@) == rendered_history(seq_view(history@), include_apps_marker, include_docs_marker),
{
    let mut items: Vec<HistoryItem> = Vec::new();
    let mut i: usize = 0;
    while i < history.len()
        invariant
            i <= history@.len(),
            seq_view(items@) =~= Seq::new(i as nat, |j: int| fragment_item(history@[j]@)),
        decreases history@.len() - i,
    {
        let item = match &history[i] {
            ConversationFragment::Assistant(content) => HistoryItem { role: "assistant", content: content.clone() },
            ConversationFragment::User(content) => HistoryItem { role: "user", content: content.clone() },
        };
        assert(item@ == fragment_item(history@[i as int]@));
        let ghost prev = seq_view(items@);
        items.push(item);
        assert(seq_view(items@) =~= prev.push(item@));
        i = i + 1;
    }
    let ghost base = seq_view(items@);
    assert(base =~= Seq::new(history@.len(), |j: int| fragment_item(seq_view(history@)[j])));
    if include_apps_marker {
        items.push(HistoryItem { role: "assistant", content: String::from_str(APPS_MARKER) });
    }
    if include_docs_marker {
        items.push(HistoryItem { role: "assistant", content: String::from_str(DOCS_MARKER) });
    }
    assert(seq_view(items@) =~= rendered_history(seq_view(history@), include_apps_marker, include_docs_marker));
    items
}

/// Items separated by commas.
pub open spec fn join_commas(items: Seq<Seq<char>>) -> Seq<char>
    decreases items.len(),
{
    if items.len() == 0 {
        Seq::empty()
    } else if items.len() == 1 {
        items[0]
    } else {
        join_commas(items.drop_last()) + ","@ + items.last()
    }
}

/// A JSON array of already encoded items.
pub open spec fn json_array(items: Seq<Seq<char>>) -> Seq<char> {
    "["@ + join_commas(items) + "]"@
}

pub open spec fn quoted_all(items: Seq<Seq<char>>) -> Seq<Seq<char>> {
    Seq::new(items.len(), |i: int| json_string_of(items[i]))
}

pub open spec fn history_item_json(item: (Seq<char>, Seq<char>)) -> Seq<char> {
    "{\"role\":"@ + json_string_of(item.0) + ",\"content\":"@ + json_string_of(item.1) + "}"@
}

pub open spec fn value_info_json(info: (Seq<char>, Seq<char>)) -> Seq<char> {
    "{\"key\":"@ + json_string_of(info.0) + ",\"description\":"@ + json_string_of(info.1) + "}"@
}

pub open spec fn apps_part(apps: Option<Seq<Seq<char>>>) -> Seq<char> {
    match apps {
        Some(a) => ",\"apps\":"@ + json_array(quoted_all(a)) + ",\"apps_note\":"@ + json_string_of(
            APPS_NOTE@,
        ),
        None => Seq::empty(),
    }
}

pub open spec fn docs_part(docs: Option<DocsInfoView>) -> Seq<char> {
    match docs {
        Some(d) => ",\"open_documents\":"@ + json_array(quoted_all(d.open_documents)) + match d.active_document {
            Some(a) => ",\"active_document\":"@ + json_string_of(a),
            None => Seq::empty(),
        } + ",\"docs_note\":"@ + json_string_of(DOCS_NOTE@),
        None => Seq::empty(),
    }
}

pub open spec fn values_part(values: Option<Seq<(Seq<char>, Seq<char>)>>) -> Seq<char> {
    match values {
        Some(v) => ",\"stored_values\":"@ + json_array(Seq::new(v.len(), |i: int| value_info_json(v[i])))
            + ",\"stored_values_note\":"@ + json_string_of(VALUES_NOTE@),
        None => Seq::empty(),
    }
}

/// The prompt for one engine call: a JSON object with the system
/// instructions, the transcript, the latest user text, and each context
/// block that was supplied, with its note. Absent blocks leave no field.
pub open spec fn web_request_text(
    history: Seq<Fragment>,
    latest_user: Seq<char>,
    apps: Option<Seq<Seq<char>>>,
    docs: Option<DocsInfoView>,
    values: Option<Seq<(Seq<char>, Seq<char>)>>,
) -> Seq<char> {
    let items = rendered_history(history, false, false);
    "{\"system\":"@ + json_string_of(WEB_ENVIRONMENT_SYSTEM_PROMPT@) + ",\"history\":"@ + json_array(
        Seq::new(items.len(), |i: int| history_item_json(items[i])),
    ) + ",\"latest_user\":"@ + json_string_of(latest_user) + apps_part(apps) + docs_part(docs)
        + values_part(values) + "}"@
}

/// Joins encoded items into a JSON array.
fn join_array(parts: &Vec<String>) -> (r: String)
    ensures
        r@ == json_array(seq_view(parts@)),
{
    let mut out = String::from_str("[");
    let mut i: usize = 0;
    while i < parts.len()
        invariant
            i <= parts@.len(),
            out@ == "["@ + join_commas(seq_view(parts@).take(i as int)),
        decreases parts@.len() - i,
    {
        let ghost before = out@;
        let ghost all = seq_view(parts@);
        if i > 0 {
            out.append(",");
        }
        out.append(parts[i].as_str());
        proof {
            let t = all.take(i + 1);
            assert(t.drop_last() =~= all.take(i as int));
            assert(t.last() == parts@[i as int]@);
            if i == 0 {
                assert(all.take(0) =~= Seq::<Seq<char>>::empty());
                assert(out@ =~= "["@ + join_commas(t));
            } else {
                assert(out@ =~= "["@ + join_commas(t));
            }
        }
        i = i + 1;
    }
    assert(seq_view(parts@).take(parts@.len() as int) =~= seq_view(parts@));
    out.append("]");
    out
}

fn quote_each(items: &[String]) -> (r: Vec<String>)
    ensures
        seq_view(r@) == quoted_all(seq_view(items@)),
{
    let mut out: Vec<String> = Vec::new();
    let mut i: usize = 0;
    while i < items.len()
        invariant
            i <= items@.len(),
            seq_view(out@) =~= quoted_all(seq_view(items@)).take(i as int),
        decreases items@.len() - i,
    {
        let q = json_quote(items[i].as_str());
        let ghost prev = seq_view(out@);
        out.push(q);
        assert(seq_view(out@) =~= prev.push(q@));
        i = i + 1;
    }
    assert(quoted_all(seq_view(items@)).take(items@.len() as int) =~= quoted_all(seq_view(items@)));
    out
}

fn history_json(items: &Vec<HistoryItem>) -> (r: String)
    ensures
        r@ == json_array(Seq::new(items@.len(), |i: int| history_item_json(items@[i]@))),
{
    let ghost want = Seq::new(items@.len(), |i: int| history_item_json(items@[i]@));
    let mut parts: Vec<String> = Vec::new();
    let mut i: usize = 0;
    while i < items.len()
        invariant
            i <= items@.len(),
            want == Seq::new(items@.len(), |i: int| history_item_json(items@[i]@)),
            seq_view(parts@) =~= want.take(i as int),
        decreases items@.len() - i,
    {
        let mut p = String::from_str("{\"role\":");
        p.append(json_quote(items[i].role).as_str());
        p.append(",\"content\":");
        p.append(json_quote(items[i].content.as_str()).as_str());
        p.append("}");
        let ghost prev = seq_view(parts@);
        parts.push(p);
        assert(seq_view(parts@) =~= prev.push(p@));
        i = i + 1;
    }
    assert(want.take(items@.len() as int) =~= want);
    join_array(&parts)
}

fn values_json(items: &[StoredValueInfo]) -> (r: String)
    ensures
        r@ == json_array(Seq::new(items@.len(), |i: int| value_info_json(items@[i]@))),
{
    let ghost want = Seq::new(items@.len(), |i: int| value_info_json(items@[i]@));
    let mut parts: Vec<String> = Vec::new();
    let mut i: usize = 0;
    while i < items.len()
        invariant
            i <= items@.len(),
            want == Seq::new(items@.len(), |i: int| value_info_json(items@[i]@)),
            seq_view(parts@) =~= want.take(i as int),
        decreases items@.len() - i,
    {
        let mut p = String::from_str("{\"key\":");
        p.append(json_quote(items[i].key.as_str()).as_str());
        p.append(",\"description\":");
        p.append(json_quote(items[i].description.as_str()).as_str());
        p.append("}");
        let ghost prev = seq_view(parts@);
        parts.push(p);
        assert(seq_view(parts@) =~= prev.push(p@));
        i = i + 1;
    }
    assert(want.take(items@.len() as int) =~= want);
    join_array(&parts)
}

fn apps_json(apps: Option<&[String]>) -> (r: String)
    ensures
        r@ == apps_part(
            match apps {
                Some(a) => Some(seq_view(a@)),
                None => None,
            },
        ),
{
    let mut out = String::new();
    if let Some(a) = apps {
        out.append(",\"apps\":");
        out.append(join_array(&quote_each(a)).as_str());
        out.append(",\"apps_note\":");
        out.append(json_quote(APPS_NOTE).as_str());
        assert(out@ =~= apps_part(Some(seq_view(a@))));
    }
    out
}

fn docs_json(docs: Option<&DocsInfo>) -> (r: String)
    ensures
        r@ == docs_part(
            match docs {
                Some(d) => Some(d@),
                None => None,
            },
        ),
{
    let mut out = String::new();
    if let Some(d) = docs {
        out.append(",\"open_documents\":");
        out.append(join_array(&quote_each(d.open_documents.as_slice())).as_str());
        let mut active_field = String::new();
        if let Some(active) = &d.active_document {
            active_field.append(",\"active_document\":");
            active_field.append(json_quote(active.as_str()).as_str());
        }
        out.append(active_field.as_str());
        out.append(",\"docs_note\":");
        out.append(json_quote(DOCS_NOTE).as_str());
        assert(out@ =~= docs_part(Some(d@)));
    }
    out
}

fn stored_values_json(values: Option<&[StoredValueInfo]>) -> (r: String)
    ensures
        r@ == values_part(
            match values {
                Some(v) => Some(seq_view(v@)),
                None => None,
            },
        ),
{
    let mut out = String::new();
    if let Some(v) = values {
        out.append(",\"stored_values\":");
        out.append(values_json(v).as_str());
        out.append(",\"stored_values_note\":");
        out.append(json_quote(VALUES_NOTE).as_str());
        let ghost sv = seq_view(v@);
        assert(Seq::new(v@.len(), |i: int| value_info_json(v@[i]@)) =~= Seq::new(
            sv.len(),
            |i: int| value_info_json(sv[i]),
        ));
        assert(out@ =~= values_part(Some(sv)));
    }
    out
}

/// Builds the prompt for one engine call of a chat turn.
pub fn build_web_request(
    history: &[ConversationFragment],
    latest_user: &str,
    apps: Option<&[String]>,
    docs: Option<&DocsInfo>,
    stored_values: Option<&[StoredValueInfo]>,
) -> (r: String)
    ensures
        r@ == web_request_text(
            seq_view(history@),
            latest_user@,
            match apps {
                Some(a) => Some(seq_view(a@)),
                None => None,
            },
            match docs {
                Some(d) => Some(d@),
                None => None,
            },
            match stored_values {
                Some(v) => Some(seq_view(v@)),
                None => None,
            },
        ),
{
    let items = render_history(history, false, false);
    let mut out = String::from_str("{\"system\":");
    out.append(json_quote(WEB_ENVIRONMENT_SYSTEM_PROMPT).as_str());
    out.append(",\"history\":");
    out.append(history_json(&items).as_str());
    out.append(",\"latest_user\":");
    out.append(json_quote(latest_user).as_str());
    out.append(apps_json(apps).as_str());
    out.append(docs_json(docs).as_str());
    out.append(stored_values_json(stored_values).as_str());
    out.append("}");
    proof {
        let hv = seq_view(items@);
        assert(Seq::new(items@.len(), |i: int| history_item_json(items@[i]@)) =~= Seq::new(
            hv.len(),
            |i: int| history_item_json(hv[i]),
        ));
    }
    out
}

} // verus!
