//! The state-change event's payload, and the rule that emits it only when
//! it changes.

use vstd::prelude::*;
use crate::session::{Session, text_of};
use crate::text::same_text;

verus! {

/// What the frontend receives for the shown session.
#[derive(Debug)]
pub struct Payload {
    pub session_id: String,
    pub cwd: String,
    pub active_agents: Vec<String>,
    pub status: String,
    /// Always empty (`null` in the emitted event) for now.
    pub message: Option<String>,
}

/// A payload as characters.
pub struct PayloadView {
    pub session_id: Seq<char>,
    pub cwd: Seq<char>,
    pub active_agents: Seq<Seq<char>>,
    pub status: Seq<char>,
    pub message: Option<Seq<char>>,
}

/// The characters of each text.
pub open spec fn texts(v: Seq<String>) -> Seq<Seq<char>> {
    v.map_values(|s: String| s@)
}

impl View for Payload {
    type V = PayloadView;

    open spec fn view(&self) -> PayloadView {
        PayloadView {
            session_id: self.session_id@,
            cwd: self.cwd@,
            active_agents: texts(self.active_agents@),
            status: self.status@,
            message: text_of(self.message),
        }
    }
}

/// The status shown: "idle", "busy" and "waiting-input" pass through, any
/// other status, or none, shows as "idle".
pub open spec fn shown_status(st: Option<String>) -> Seq<char> {
    match text_of(st) {
        Some(t) => if t == "idle"@ || t == "busy"@ || t == "waiting-input"@ {
            t
        } else {
            "idle"@
        },
        None => "idle"@,
    }
}

/// The payload for session `s`: its id, its working directory (empty when
/// absent), its active agents (none when absent), its shown status, and no
/// message.
pub open spec fn session_payload(s: Session) -> PayloadView {
    PayloadView {
        session_id: s.session_id@,
        cwd: match text_of(s.cwd) {
            Some(c) => c,
            None => Seq::empty(),
        },
        active_agents: match s.active_agents {
            Some(a) => texts(a@),
            None => Seq::empty(),
        },
        status: shown_status(s.status),
        message: None,
    }
}

/// The payload when no session is shown: empty id, directory and agents,
/// status "idle", no message.
pub open spec fn idle_view() -> PayloadView {
    PayloadView {
        session_id: Seq::empty(),
        cwd: Seq::empty(),
        active_agents: Seq::empty(),
        status: "idle"@,
        message: None,
    }
}

/// A copy of `v`.
fn copy_texts(v: &Vec<String>) -> (r: Vec<String>)
    ensures
        texts(r@) == texts(v@),
{
    let mut r: Vec<String> = Vec::new();
    let mut i: usize = 0;
    while i < v.len()
        invariant
            0 <= i <= v.len(),
            r@.len() == i,
            forall|k: int| 0 <= k < i ==> (#[trigger] r@[k])@ == v@[k]@,
        decreases v.len() - i,
    {
        r.push(v[i].clone());
        i = i + 1;
    }
    assert(texts(r@) =~= texts(v@));
    r
}

/// Builds the event payload for a selected session.
pub fn build_payload(session: &Session) -> (r: Payload)
    ensures
        r@ == session_payload(*session),
        r.session_id@ == session.session_id@,
        match session.active_agents {
            Some(a) => r.active_agents@.len() == a@.len() && forall|k: int|
                0 <= k < a@.len() ==> (#[trigger] r.active_agents@[k])@ == a@[k]@,
            None => r.active_agents@.len() == 0,
        },
        r.message is None,
{
    let status = match &session.status {
        Some(st) => if same_text(st.as_str(), "idle") || same_text(st.as_str(), "busy") || same_text(
            st.as_str(),
            "waiting-input",
        ) {
            st.clone()
        } else {
            "idle".to_owned()
        },
        None => "idle".to_owned(),
    };
    let cwd = match &session.cwd {
        Some(c) => c.clone(),
        None => String::new(),
    };
    let active_agents = match &session.active_agents {
        Some(a) => copy_texts(a),
        None => Vec::new(),
    };
    let r = Payload { session_id: session.session_id.clone(), cwd, active_agents, status, message: None };
    assert(r@.active_agents =~= session_payload(*session).active_agents);
    proof {
        law_payload_mirrors_session(*session);
        let t = texts(r.active_agents@);
        assert(t.len() == r.active_agents@.len());
        assert forall|k: int| 0 <= k < r.active_agents@.len() implies #[trigger] t[k] == r.active_agents@[k]@ by {}
        if session.active_agents is Some {
            let a = session.active_agents->0;
            assert forall|k: int| 0 <= k < a@.len() implies (#[trigger] r.active_agents@[k])@ == a@[k]@ by {
                assert(t[k] == r.active_agents@[k]@);
                assert(session_payload(*session).active_agents[k] == a@[k]@);
            }
        }
    }
    r
}

/// The payload sent while the plugin is not running (no file, no sessions).
pub fn idle_payload() -> (r: Payload)
    ensures
        r@ == idle_view(),
        r.session_id@.len() == 0,
        r.cwd@.len() == 0,
        r.active_agents@.len() == 0,
        r.status@ == "idle"@,
        r.message is None,
{
    let r = Payload {
        session_id: String::new(),
        cwd: String::new(),
        active_agents: Vec::new(),
        status: "idle".to_owned(),
        message: None,
    };
    assert(r@.active_agents =~= Seq::<Seq<char>>::empty());
    r
}

/// Whether `a` and `b` hold the same texts in the same order.
fn same_texts(a: &Vec<String>, b: &Vec<String>) -> (r: bool)
    ensures
        r == (texts(a@) == texts(b@)),
{
    if a.len() != b.len() {
        assert(texts(a@).len() != texts(b@).len());
        return false;
    }
    let mut i: usize = 0;
    while i < a.len()
        invariant
            a.len() == b.len(),
            0 <= i <= a.len(),
            forall|k: int| 0 <= k < i ==> (#[trigger] a@[k])@ == b@[k]@,
        decreases a.len() - i,
    {
        if !same_text(a[i].as_str(), b[i].as_str()) {
            assert(texts(a@)[i as int] != texts(b@)[i as int]);
            return false;
        }
        i = i + 1;
    }
    assert(texts(a@) =~= texts(b@));
    true
}

/// Whether `a` and `b` are equal payloads.
pub fn same_payload(a: &Payload, b: &Payload) -> (r: bool)
    ensures
        r == (a@ == b@),
{
    let messages = match (&a.message, &b.message) {
        (None, None) => true,
        (Some(x), Some(y)) => same_text(x.as_str(), y.as_str()),
        _ => false,
    };
    same_text(a.session_id.as_str(), b.session_id.as_str()) && same_text(a.cwd.as_str(), b.cwd.as_str())
        && same_texts(&a.active_agents, &b.active_agents) && same_text(a.status.as_str(), b.status.as_str())
        && messages
}

/// A copy of `p`.
fn copy_payload(p: &Payload) -> (r: Payload)
    ensures
        r@ == p@,
{
    let message = match &p.message {
        Some(m) => Some(m.clone()),
        None => None,
    };
    Payload {
        session_id: p.session_id.clone(),
        cwd: p.cwd.clone(),
        active_agents: copy_texts(&p.active_agents),
        status: p.status.clone(),
        message,
    }
}

/// The last payload sent, as characters.
pub open spec fn last_view(last: Option<Payload>) -> Option<PayloadView> {
    match last {
        Some(p) => Some(p@),
        None => None,
    }
}

/// A payload goes out when it differs from the last one sent.
pub open spec fn is_news(last: Option<Payload>, payload: Payload) -> bool {
    last_view(last) != Some(payload@)
}

/// Records `payload` as the last one sent when it differs from it, and says
/// whether it is to be emitted; an equal payload leaves `last` as it was.
pub fn emit_if_changed(last: &mut Option<Payload>, payload: Payload) -> (emitted: bool)
    ensures
        emitted == is_news(*old(last), payload),
        emitted == !(*old(last) matches Some(q) && q.session_id@ == payload.session_id@ && q.cwd@
            == payload.cwd@ && q.active_agents@.len() == payload.active_agents@.len() && (forall|k: int|
            0 <= k < q.active_agents@.len() ==> (#[trigger] q.active_agents@[k])@ == payload.active_agents@[k]@)
            && q.status@ == payload.status@ && text_of(q.message) == text_of(payload.message)),
        emitted ==> *final(last) == Some(payload),
        !emitted ==> *final(last) == *old(last),
{
    let changed = match &*last {
        Some(prev) => !same_payload(prev, &payload),
        None => true,
    };
    proof {
        law_news_is_any_field_change(*old(last), payload);
    }
    if changed {
        *last = Some(payload);
    }
    changed
}

/// The payload the frontend gets when it asks: the last one sent, or the
/// idle payload when none was sent yet.
pub fn current_payload(last: &Option<Payload>) -> (r: Payload)
    ensures
        r@ == match last {
            Some(p) => p@,
            None => idle_view(),
        },
        last is None ==> r.status@ == "idle"@ && r.session_id@.len() == 0 && r.cwd@.len() == 0
            && r.active_agents@.len() == 0 && r.message is None,
{
    match last {
        Some(p) => copy_payload(p),
        None => idle_payload(),
    }
}

/// A payload is news exactly when there was none before, or when the
/// previous one differs in some field: id, directory, any agent (count,
/// text or order), status or message.
pub proof fn law_news_is_any_field_change(last: Option<Payload>, payload: Payload)
    ensures
        is_news(last, payload) == !(last matches Some(q) && q.session_id@ == payload.session_id@ && q.cwd@
            == payload.cwd@ && q.active_agents@.len() == payload.active_agents@.len() && (forall|k: int|
            0 <= k < q.active_agents@.len() ==> (#[trigger] q.active_agents@[k])@ == payload.active_agents@[k]@)
            && q.status@ == payload.status@ && text_of(q.message) == text_of(payload.message)),
{
    if let Some(q) = last {
        let a = q.active_agents@;
        let b = payload.active_agents@;
        if a.len() == b.len() && forall|k: int| 0 <= k < a.len() ==> (#[trigger] a[k])@ == b[k]@ {
            assert(texts(a) =~= texts(b));
        }
        assert(texts(a).len() == a.len());
        assert(texts(b).len() == b.len());
        if texts(a) == texts(b) {
            assert forall|k: int| 0 <= k < a.len() implies (#[trigger] a[k])@ == b[k]@ by {
                assert(texts(a)[k] == texts(b)[k]);
            }
        }
    }
}

/// The payload of a session carries its id, its working directory (empty
/// when absent), exactly its active agents in order (none when absent),
/// and no message.
pub proof fn law_payload_mirrors_session(s: Session)
    ensures
        session_payload(s).session_id == s.session_id@,
        session_payload(s).cwd == match s.cwd {
            Some(c) => c@,
            None => Seq::<char>::empty(),
        },
        match s.active_agents {
            Some(a) => session_payload(s).active_agents.len() == a@.len() && forall|k: int|
                0 <= k < a@.len() ==> #[trigger] session_payload(s).active_agents[k] == a@[k]@,
            None => session_payload(s).active_agents.len() == 0,
        },
        session_payload(s).message is None,
{
}

/// The status shown is the session's own when it is "idle", "busy" or
/// "waiting-input", and "idle" in every other case.
pub proof fn law_status_shown(s: Session)
    ensures
        (s.status matches Some(t) && (t@ == "idle"@ || t@ == "busy"@ || t@ == "waiting-input"@))
            ==> session_payload(s).status == s.status->0@,
        !(s.status matches Some(t) && (t@ == "idle"@ || t@ == "busy"@ || t@ == "waiting-input"@))
            ==> session_payload(s).status == "idle"@,
{
}

/// Emitting is idempotent: once a payload went out, the same payload (or an
/// equal one) is not emitted again.
pub proof fn law_repeat_is_silent(last: Option<Payload>, payload: Payload, again: Payload)
    requires
        again@ == payload@,
    ensures
        !is_news(if is_news(last, payload) { Some(payload) } else { last }, again),
{
}

} // verus!
