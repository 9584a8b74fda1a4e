//! The state file's model, its version check and the choice of the session
//! that the companion shows.

use vstd::prelude::*;
use crate::text::same_text;

verus! {

#[verifier::external_type_specification]
#[verifier::external_body]
pub struct ExJsonValue(serde_json::Value);

/// The only state-file version this companion reads.
pub const STATE_VERSION: u32 = 1;

/// One OpenCode session as the plugin records it.
#[derive(Debug)]
pub struct Session {
    pub session_id: String,
    pub cwd: Option<String>,
    pub active_agents: Option<Vec<String>>,
    pub active_agent: Option<String>,
    pub status: Option<String>,
    pub pid: Option<i64>,
    pub config: Option<serde_json::Value>,
}

/// The whole state file. Fields that the selection does not read are kept
/// as they were decoded.
#[derive(Debug)]
pub struct CompanionState {
    pub version: Option<u32>,
    pub sessions: Vec<Session>,
    pub config: serde_json::Value,
    pub window_positions: serde_json::Value,
}

/// The characters of an optional text.
pub open spec fn text_of(o: Option<String>) -> Option<Seq<char>> {
    match o {
        Some(s) => Some(s@),
        None => None,
    }
}

/// The characters of an optional borrowed text.
pub open spec fn str_of(o: Option<&str>) -> Option<Seq<char>> {
    match o {
        Some(s) => Some(s@),
        None => None,
    }
}

/// The outcome of reading a decoded state file: it is kept when it has no
/// version or the supported one, and refused otherwise; a file that did not
/// decode (`None`) stays refused.
pub open spec fn accepted_state(decoded: Option<CompanionState>) -> Option<CompanionState> {
    match decoded {
        Some(s) => if s.version is None || s.version == Some(STATE_VERSION) {
            Some(s)
        } else {
            None
        },
        None => None,
    }
}

/// Applies the version rule to the result of decoding the state file
/// (`None` when the file was not valid JSON of the expected shape).
pub fn parse_state(decoded: Option<CompanionState>) -> (r: Option<CompanionState>)
    ensures
        r == accepted_state(decoded),
        decoded is None ==> r is None,
        (decoded matches Some(s) && (s.version is None || s.version == Some(1u32))) ==> r == decoded,
        (decoded matches Some(s) && s.version is Some && s.version != Some(1u32)) ==> r is None,
{
    match decoded {
        Some(state) => match state.version {
            None => Some(state),
            Some(v) => if v == STATE_VERSION {
                Some(state)
            } else {
                None
            },
        },
        None => None,
    }
}

/// Whether the session's status is exactly `st`.
pub open spec fn status_is(s: Session, st: Seq<char>) -> bool {
    text_of(s.status) == Some(st)
}

/// Whether the session lists an active agent other than "intro".
pub open spec fn has_working_agent(s: Session) -> bool {
    match s.active_agents {
        Some(a) => a@.len() > 0 && exists|k: int| 0 <= k < a@.len() && #[trigger] a@[k]@ != "intro"@,
        None => false,
    }
}

/// The properties that make a session preferred, in decreasing priority.
#[derive(Debug, Clone, Copy, PartialEq, Eq, Structural)]
pub enum Preference {
    WaitingInput,
    WorkingAgents,
    Busy,
}

/// Whether session `s` has property `p`.
pub open spec fn prefers(p: Preference, s: Session) -> bool {
    match p {
        Preference::WaitingInput => status_is(s, "waiting-input"@),
        Preference::WorkingAgents => has_working_agent(s),
        Preference::Busy => status_is(s, "busy"@),
    }
}

/// The index of the newest (last) session with property `p`.
pub open spec fn newest_preferred(ss: Seq<Session>, p: Preference) -> Option<int>
    decreases ss.len(),
{
    if ss.len() == 0 {
        None
    } else if prefers(p, ss.last()) {
        Some(ss.len() - 1)
    } else {
        newest_preferred(ss.drop_last(), p)
    }
}

/// The index of the first session whose id is `id`.
pub open spec fn first_with_id(ss: Seq<Session>, id: Seq<char>) -> Option<int>
    decreases ss.len(),
{
    if ss.len() == 0 {
        None
    } else if ss[0].session_id@ == id {
        Some(0)
    } else {
        match first_with_id(ss.drop_first(), id) {
            Some(i) => Some(i + 1),
            None => None,
        }
    }
}

/// The index of the pinned session, if one is pinned and present.
pub open spec fn pinned_index(ss: Seq<Session>, pin: Option<Seq<char>>) -> Option<int> {
    match pin {
        Some(id) => first_with_id(ss, id),
        None => None,
    }
}

/// The index of the session shown: the pinned one; else the newest waiting
/// for input; else the newest with an active agent other than "intro";
/// else the newest busy one; else the newest; none when there are none.
pub open spec fn chosen_index(ss: Seq<Session>, pin: Option<Seq<char>>) -> Option<int> {
    if ss.len() == 0 {
        None
    } else if pinned_index(ss, pin) is Some {
        pinned_index(ss, pin)
    } else if newest_preferred(ss, Preference::WaitingInput) is Some {
        newest_preferred(ss, Preference::WaitingInput)
    } else if newest_preferred(ss, Preference::WorkingAgents) is Some {
        newest_preferred(ss, Preference::WorkingAgents)
    } else if newest_preferred(ss, Preference::Busy) is Some {
        newest_preferred(ss, Preference::Busy)
    } else {
        Some(ss.len() - 1)
    }
}

/// `newest_preferred` names the last session with the property, and none
/// when no session has it.
pub proof fn lemma_newest_preferred(ss: Seq<Session>, p: Preference)
    ensures
        match newest_preferred(ss, p) {
            Some(i) => 0 <= i < ss.len() && prefers(p, ss[i]) && forall|j: int|
                i < j < ss.len() ==> !prefers(p, #[trigger] ss[j]),
            None => forall|j: int| 0 <= j < ss.len() ==> !prefers(p, #[trigger] ss[j]),
        },
    decreases ss.len(),
{
    if ss.len() > 0 && !prefers(p, ss.last()) {
        let rest = ss.drop_last();
        lemma_newest_preferred(rest, p);
        match newest_preferred(rest, p) {
            Some(i) => {
                assert(rest[i] == ss[i]);
                assert forall|j: int| i < j < ss.len() implies !prefers(p, #[trigger] ss[j]) by {
                    if j < ss.len() - 1 {
                        assert(rest[j] == ss[j]);
                    }
                }
            },
            None => {
                assert forall|j: int| 0 <= j < ss.len() implies !prefers(p, #[trigger] ss[j]) by {
                    if j < ss.len() - 1 {
                        assert(rest[j] == ss[j]);
                    }
                }
            },
        }
    }
}

/// `first_with_id` names the first session with that id, and none when no
/// session has it.
pub proof fn lemma_first_with_id(ss: Seq<Session>, id: Seq<char>)
    ensures
        match first_with_id(ss, id) {
            Some(i) => 0 <= i < ss.len() && ss[i].session_id@ == id && forall|j: int|
                0 <= j < i ==> (#[trigger] ss[j]).session_id@ != id,
            None => forall|j: int| 0 <= j < ss.len() ==> (#[trigger] ss[j]).session_id@ != id,
        },
    decreases ss.len(),
{
    if ss.len() > 0 && ss[0].session_id@ != id {
        let rest = ss.drop_first();
        lemma_first_with_id(rest, id);
        match first_with_id(rest, id) {
            Some(i) => {
                assert(rest[i] == ss[i + 1]);
                assert forall|j: int| 0 <= j < i + 1 implies (#[trigger] ss[j]).session_id@ != id by {
                    if j > 0 {
                        assert(rest[j - 1] == ss[j]);
                    }
                }
            },
            None => {
                assert forall|j: int| 0 <= j < ss.len() implies (#[trigger] ss[j]).session_id@ != id by {
                    if j > 0 {
                        assert(rest[j - 1] == ss[j]);
                    }
                }
            },
        }
    }
}

/// Whether no session carries the pinned id (always so without a pin).
pub open spec fn pin_absent(ss: Seq<Session>, pin: Option<Seq<char>>) -> bool {
    forall|j: int| 0 <= j < ss.len() ==> pin != Some((#[trigger] ss[j]).session_id@)
}

/// Whether some session has property `p`.
pub open spec fn some_prefer(ss: Seq<Session>, p: Preference) -> bool {
    exists|j: int| 0 <= j < ss.len() && prefers(p, #[trigger] ss[j])
}

/// Whether session `i` is the newest with property `p`.
pub open spec fn newest_with(ss: Seq<Session>, p: Preference, i: int) -> bool {
    0 <= i < ss.len() && prefers(p, ss[i]) && forall|j: int| i < j < ss.len() ==> !prefers(p, #[trigger] ss[j])
}

/// Session selection, level by level: a session is shown exactly when there
/// is one; a session carrying the pinned id wins (the first such); failing
/// that, the newest waiting for input; failing that, the newest with an
/// active agent other than "intro"; failing that, the newest busy one;
/// failing all, the newest session.
pub proof fn law_session_priority(ss: Seq<Session>, pin: Option<Seq<char>>)
    ensures
        chosen_index(ss, pin) is None <==> ss.len() == 0,
        chosen_index(ss, pin) matches Some(i) ==> 0 <= i < ss.len(),
        !pin_absent(ss, pin) ==> (chosen_index(ss, pin) matches Some(i) && pin == Some(ss[i].session_id@)
            && forall|j: int| 0 <= j < i ==> pin != Some((#[trigger] ss[j]).session_id@)),
        pin_absent(ss, pin) && some_prefer(ss, Preference::WaitingInput) ==> (chosen_index(ss, pin) matches Some(i)
            && newest_with(ss, Preference::WaitingInput, i)),
        pin_absent(ss, pin) && !some_prefer(ss, Preference::WaitingInput)
            && some_prefer(ss, Preference::WorkingAgents) ==> (chosen_index(ss, pin) matches Some(i)
            && newest_with(ss, Preference::WorkingAgents, i)),
        pin_absent(ss, pin) && !some_prefer(ss, Preference::WaitingInput)
            && !some_prefer(ss, Preference::WorkingAgents) && some_prefer(ss, Preference::Busy)
            ==> (chosen_index(ss, pin) matches Some(i) && newest_with(ss, Preference::Busy, i)),
        ss.len() > 0 && pin_absent(ss, pin) && !some_prefer(ss, Preference::WaitingInput)
            && !some_prefer(ss, Preference::WorkingAgents) && !some_prefer(ss, Preference::Busy)
            ==> chosen_index(ss, pin) == Some(ss.len() - 1),
{
    lemma_newest_preferred(ss, Preference::WaitingInput);
    lemma_newest_preferred(ss, Preference::WorkingAgents);
    lemma_newest_preferred(ss, Preference::Busy);
    if let Some(id) = pin {
        lemma_first_with_id(ss, id);
        if !pin_absent(ss, pin) {
            let j = choose|j: int| 0 <= j < ss.len() && pin == Some((#[trigger] ss[j]).session_id@);
            assert(ss[j].session_id@ == id);
        }
    }
}

/// A session carrying the pinned id is shown, and it is the first session
/// with that id, whatever the other sessions' statuses and agents are.
pub proof fn law_pinned_session_wins(ss: Seq<Session>, id: Seq<char>, j: int)
    requires
        0 <= j < ss.len(),
        ss[j].session_id@ == id,
    ensures
        chosen_index(ss, Some(id)) matches Some(i) && 0 <= i <= j && ss[i].session_id@ == id
            && forall|k: int| 0 <= k < i ==> (#[trigger] ss[k]).session_id@ != id,
{
    lemma_first_with_id(ss, id);
}

/// With no session carrying the pinned id, a session whose status is
/// exactly "waiting-input" is shown whenever one exists: the last such
/// session, whatever its agents and whatever the other sessions hold.
pub proof fn law_waiting_input_wins(ss: Seq<Session>, pin: Option<Seq<char>>, j: int)
    requires
        forall|k: int| 0 <= k < ss.len() ==> pin != Some((#[trigger] ss[k]).session_id@),
        0 <= j < ss.len(),
        text_of(ss[j].status) == Some("waiting-input"@),
    ensures
        chosen_index(ss, pin) matches Some(i) && j <= i < ss.len() && text_of(ss[i].status) == Some(
            "waiting-input"@,
        ) && forall|k: int| i < k < ss.len() ==> text_of((#[trigger] ss[k]).status) != Some("waiting-input"@),
{
    lemma_newest_preferred(ss, Preference::WaitingInput);
    assert(prefers(Preference::WaitingInput, ss[j]));
    if let Some(id) = pin {
        lemma_first_with_id(ss, id);
        if first_with_id(ss, id) is Some {
            let i = first_with_id(ss, id)->0;
            assert(pin == Some(ss[i].session_id@));
        }
    }
    let i = newest_preferred(ss, Preference::WaitingInput)->0;
    assert forall|k: int| i < k < ss.len() implies text_of((#[trigger] ss[k]).status) != Some("waiting-input"@) by {
        assert(!prefers(Preference::WaitingInput, ss[k]));
    }
}

/// With no pinned session present and no session waiting for input, a
/// session listing an agent other than "intro" is shown whenever one
/// exists: the last such session.
pub proof fn law_working_agent_wins(ss: Seq<Session>, pin: Option<Seq<char>>, j: int, a: Vec<String>, m: int)
    requires
        forall|k: int| 0 <= k < ss.len() ==> pin != Some((#[trigger] ss[k]).session_id@),
        forall|k: int| 0 <= k < ss.len() ==> text_of((#[trigger] ss[k]).status) != Some("waiting-input"@),
        0 <= j < ss.len(),
        ss[j].active_agents == Some(a),
        0 <= m < a@.len(),
        a@[m]@ != "intro"@,
    ensures
        chosen_index(ss, pin) matches Some(i) && j <= i < ss.len() && (ss[i].active_agents matches Some(b)
            && exists|n: int| 0 <= n < b@.len() && #[trigger] b@[n]@ != "intro"@) && forall|k: int|
            i < k < ss.len() ==> !((#[trigger] ss[k]).active_agents matches Some(c) && exists|n: int|
                0 <= n < c@.len() && #[trigger] c@[n]@ != "intro"@),
{
    lemma_newest_preferred(ss, Preference::WaitingInput);
    lemma_newest_preferred(ss, Preference::WorkingAgents);
    assert(prefers(Preference::WorkingAgents, ss[j]));
    if newest_preferred(ss, Preference::WaitingInput) is Some {
        let w = newest_preferred(ss, Preference::WaitingInput)->0;
        assert(text_of(ss[w].status) != Some("waiting-input"@));
    }
    if let Some(id) = pin {
        lemma_first_with_id(ss, id);
        if first_with_id(ss, id) is Some {
            let i = first_with_id(ss, id)->0;
            assert(pin == Some(ss[i].session_id@));
        }
    }
    let i = newest_preferred(ss, Preference::WorkingAgents)->0;
    assert forall|k: int| i < k < ss.len() implies !((#[trigger] ss[k]).active_agents matches Some(c)
        && exists|n: int| 0 <= n < c@.len() && #[trigger] c@[n]@ != "intro"@) by {
        assert(!prefers(Preference::WorkingAgents, ss[k]));
    }
}

/// With no pinned session present, none waiting for input and none listing
/// an agent other than "intro", the last session whose status is exactly
/// "busy" is shown whenever one exists.
pub proof fn law_busy_wins(ss: Seq<Session>, pin: Option<Seq<char>>, j: int)
    requires
        forall|k: int| 0 <= k < ss.len() ==> pin != Some((#[trigger] ss[k]).session_id@),
        forall|k: int| 0 <= k < ss.len() ==> text_of((#[trigger] ss[k]).status) != Some("waiting-input"@),
        forall|k: int| 0 <= k < ss.len() ==> !((#[trigger] ss[k]).active_agents matches Some(c) && exists|n: int|
            0 <= n < c@.len() && #[trigger] c@[n]@ != "intro"@),
        0 <= j < ss.len(),
        text_of(ss[j].status) == Some("busy"@),
    ensures
        chosen_index(ss, pin) matches Some(i) && j <= i < ss.len() && text_of(ss[i].status) == Some("busy"@)
            && forall|k: int| i < k < ss.len() ==> text_of((#[trigger] ss[k]).status) != Some("busy"@),
{
    lemma_newest_preferred(ss, Preference::WaitingInput);
    lemma_newest_preferred(ss, Preference::WorkingAgents);
    lemma_newest_preferred(ss, Preference::Busy);
    assert(prefers(Preference::Busy, ss[j]));
    if newest_preferred(ss, Preference::WaitingInput) is Some {
        let w = newest_preferred(ss, Preference::WaitingInput)->0;
        assert(text_of(ss[w].status) != Some("waiting-input"@));
    }
    if newest_preferred(ss, Preference::WorkingAgents) is Some {
        let w = newest_preferred(ss, Preference::WorkingAgents)->0;
        assert(!(ss[w].active_agents matches Some(c) && exists|n: int| 0 <= n < c@.len() && #[trigger] c@[n]@ != "intro"@));
    }
    if let Some(id) = pin {
        lemma_first_with_id(ss, id);
        if first_with_id(ss, id) is Some {
            let i = first_with_id(ss, id)->0;
            assert(pin == Some(ss[i].session_id@));
        }
    }
    let i = newest_preferred(ss, Preference::Busy)->0;
    assert forall|k: int| i < k < ss.len() implies text_of((#[trigger] ss[k]).status) != Some("busy"@) by {
        assert(!prefers(Preference::Busy, ss[k]));
    }
}

/// With no pinned session present, none waiting for input, none listing an
/// agent other than "intro" and none busy, the newest (last) session is
/// shown; with no sessions at all, none is.
pub proof fn law_newest_fallback(ss: Seq<Session>, pin: Option<Seq<char>>)
    requires
        forall|k: int| 0 <= k < ss.len() ==> pin != Some((#[trigger] ss[k]).session_id@),
        forall|k: int| 0 <= k < ss.len() ==> text_of((#[trigger] ss[k]).status) != Some("waiting-input"@),
        forall|k: int| 0 <= k < ss.len() ==> !((#[trigger] ss[k]).active_agents matches Some(c) && exists|n: int|
            0 <= n < c@.len() && #[trigger] c@[n]@ != "intro"@),
        forall|k: int| 0 <= k < ss.len() ==> text_of((#[trigger] ss[k]).status) != Some("busy"@),
    ensures
        ss.len() == 0 ==> chosen_index(ss, pin) is None,
        ss.len() > 0 ==> chosen_index(ss, pin) == Some(ss.len() - 1),
{
    lemma_newest_preferred(ss, Preference::WaitingInput);
    lemma_newest_preferred(ss, Preference::WorkingAgents);
    lemma_newest_preferred(ss, Preference::Busy);
    if newest_preferred(ss, Preference::WaitingInput) is Some {
        let w = newest_preferred(ss, Preference::WaitingInput)->0;
        assert(text_of(ss[w].status) != Some("waiting-input"@));
    }
    if newest_preferred(ss, Preference::WorkingAgents) is Some {
        let w = newest_preferred(ss, Preference::WorkingAgents)->0;
        assert(!(ss[w].active_agents matches Some(c) && exists|n: int| 0 <= n < c@.len() && #[trigger] c@[n]@ != "intro"@));
    }
    if newest_preferred(ss, Preference::Busy) is Some {
        let w = newest_preferred(ss, Preference::Busy)->0;
        assert(text_of(ss[w].status) != Some("busy"@));
    }
    if let Some(id) = pin {
        lemma_first_with_id(ss, id);
        if first_with_id(ss, id) is Some {
            let i = first_with_id(ss, id)->0;
            assert(pin == Some(ss[i].session_id@));
        }
    }
}

/// Whether some element of `items` differs from `t`.
fn any_other_than(items: &Vec<String>, t: &str) -> (r: bool)
    ensures
        r == exists|k: int| 0 <= k < items@.len() && #[trigger] items@[k]@ != t@,
{
    let mut i: usize = 0;
    while i < items.len()
        invariant
            0 <= i <= items.len(),
            forall|k: int| 0 <= k < i ==> #[trigger] items@[k]@ == t@,
        decreases items.len() - i,
    {
        if !same_text(items[i].as_str(), t) {
            return true;
        }
        i = i + 1;
    }
    false
}

/// Whether session `s` has property `p`.
fn session_prefers(s: &Session, p: Preference) -> (r: bool)
    ensures
        r == prefers(p, *s),
{
    match p {
        Preference::WaitingInput => match &s.status {
            Some(st) => same_text(st.as_str(), "waiting-input"),
            None => false,
        },
        Preference::WorkingAgents => match &s.active_agents {
            Some(a) => a.len() > 0 && any_other_than(a, "intro"),
            None => false,
        },
        Preference::Busy => match &s.status {
            Some(st) => same_text(st.as_str(), "busy"),
            None => false,
        },
    }
}

/// The index of the newest session with property `p`.
fn newest_preferred_index(ss: &Vec<Session>, p: Preference) -> (r: Option<usize>)
    ensures
        r matches Some(j) ==> newest_preferred(ss@, p) == Some(j as int) && j < ss@.len(),
        r is None ==> newest_preferred(ss@, p) is None,
{
    let mut i: usize = ss.len();
    assert(ss@.take(i as int) =~= ss@);
    while i > 0
        invariant
            0 <= i <= ss@.len(),
            newest_preferred(ss@, p) == newest_preferred(ss@.take(i as int), p),
        decreases i,
    {
        let ghost t = ss@.take(i as int);
        assert(t.last() == ss@[i - 1]);
        assert(t.drop_last() =~= ss@.take(i - 1));
        if session_prefers(&ss[i - 1], p) {
            proof { lemma_newest_preferred(ss@, p); }
            return Some(i - 1);
        }
        i = i - 1;
    }
    None
}

/// `o` with `d` added to its index.
pub open spec fn shifted(o: Option<int>, d: int) -> Option<int> {
    match o {
        Some(i) => Some(i + d),
        None => None,
    }
}

/// The index of the first session whose id is `id`.
fn first_index_with_id(ss: &Vec<Session>, id: &str) -> (r: Option<usize>)
    ensures
        r matches Some(j) ==> first_with_id(ss@, id@) == Some(j as int) && j < ss@.len(),
        r is None ==> first_with_id(ss@, id@) is None,
{
    let mut i: usize = 0;
    assert(ss@.skip(0) =~= ss@);
    while i < ss.len()
        invariant
            0 <= i <= ss@.len(),
            first_with_id(ss@, id@) == shifted(first_with_id(ss@.skip(i as int), id@), i as int),
        decreases ss.len() - i,
    {
        let ghost t = ss@.skip(i as int);
        assert(t[0] == ss@[i as int]);
        assert(t.drop_first() =~= ss@.skip(i + 1));
        if same_text(ss[i].session_id.as_str(), id) {
            proof { lemma_first_with_id(ss@, id@); }
            return Some(i);
        }
        i = i + 1;
    }
    None
}

/// The session to show, by the rule of `chosen_index`; `env_session_id` is
/// the session this instance is pinned to.
pub fn choose_session<'a>(state: &'a CompanionState, env_session_id: Option<&str>) -> (r: Option<&'a Session>)
    ensures
        match chosen_index(state.sessions@, str_of(env_session_id)) {
            Some(i) => r matches Some(s) && *s == state.sessions@[i],
            None => r is None,
        },
{
    let sessions = &state.sessions;
    if sessions.len() == 0 {
        return None;
    }
    if let Some(id) = env_session_id {
        if let Some(i) = first_index_with_id(sessions, id) {
            return Some(&sessions[i]);
        }
    }
    if let Some(i) = newest_preferred_index(sessions, Preference::WaitingInput) {
        return Some(&sessions[i]);
    }
    if let Some(i) = newest_preferred_index(sessions, Preference::WorkingAgents) {
        return Some(&sessions[i]);
    }
    if let Some(i) = newest_preferred_index(sessions, Preference::Busy) {
        return Some(&sessions[i]);
    }
    Some(&sessions[sessions.len() - 1])
}

} // verus!
