//! Chat transcript: display policy for message parts and the streaming state.
use vstd::prelude::*;

use crate::model::{
    Message, MessageDetail, MessageRole, Part, PartIdentity, ReasoningPart, TextPart, ToolPart,
    ToolState,
};
use crate::text::{
    chars_lt, chars_of, copy_opt_string, lemma_str_lt_total, lemma_str_lt_transitive, str_eq, str_lt,
};
use crate::user_work::{first_where, lemma_first_where};

verus! {

/// A message held in memory.
#[derive(Debug, Clone, PartialEq, Eq)]
pub struct LoadedMessage {
    pub id: Option<String>,
    pub session_id: Option<String>,
    pub role: MessageRole,
    pub parts: Vec<Part>,
}

/// `m` is a not-yet-acknowledged user message holding exactly `text`.
pub open spec fn is_user_text_message(m: LoadedMessage, text: Seq<char>) -> bool {
    &&& m.id is None
    &&& m.session_id is None
    &&& m.role == MessageRole::User
    &&& m.parts@.len() == 1
    &&& m.parts@[0] matches Part::Text(t) && t.text@ == text && t.identity
        == PartIdentity::empty_spec()
}

/// The message shown for text the user just typed.
pub fn user_loaded_message(text: &str) -> (r: LoadedMessage)
    ensures
        is_user_text_message(r, text@),
{
    let mut parts: Vec<Part> = Vec::new();
    parts.push(Part::Text(TextPart { identity: PartIdentity::empty(), text: text.to_owned() }));
    LoadedMessage { id: None, session_id: None, role: MessageRole::User, parts }
}

/// How much of a part kind the transcript shows.
#[derive(Debug, Clone, Copy, PartialEq, Eq, Structural)]
pub enum PartDisplayMode {
    Full,
    Summary,
    Hidden,
}

impl PartDisplayMode {
    pub open spec fn next_spec(self) -> PartDisplayMode {
        match self {
            PartDisplayMode::Full => PartDisplayMode::Summary,
            PartDisplayMode::Summary => PartDisplayMode::Hidden,
            PartDisplayMode::Hidden => PartDisplayMode::Full,
        }
    }

    pub open spec fn label_spec(self) -> Seq<char> {
        match self {
            PartDisplayMode::Full => "Full"@,
            PartDisplayMode::Summary => "Summary"@,
            PartDisplayMode::Hidden => "Hidden"@,
        }
    }

    /// The mode that follows this one: Full, Summary, Hidden, then Full again.
    pub fn next(self) -> (r: PartDisplayMode)
        ensures
            r == self.next_spec(),
    {
        match self {
            PartDisplayMode::Full => PartDisplayMode::Summary,
            PartDisplayMode::Summary => PartDisplayMode::Hidden,
            PartDisplayMode::Hidden => PartDisplayMode::Full,
        }
    }

    /// The name shown for this mode.
    pub fn label(self) -> (r: &'static str)
        ensures
            r@ == self.label_spec(),
    {
        match self {
            PartDisplayMode::Full => "Full",
            PartDisplayMode::Summary => "Summary",
            PartDisplayMode::Hidden => "Hidden",
        }
    }
}

/// Cycling the display mode three times comes back to where it started.
pub proof fn law_display_mode_cycle(m: PartDisplayMode)
    ensures
        m.next_spec().next_spec().next_spec() == m,
        m.next_spec() != m,
{
}

/// The kinds of message parts, as grouped by the display policy.
#[derive(Debug, Clone, Copy, PartialEq, Eq, Structural)]
pub enum PartKind {
    Text,
    Reasoning,
    Tool,
    Step,
    File,
    Snapshot,
    Patch,
    Agent,
    Subtask,
    Retry,
    Compaction,
}

impl PartKind {
    pub open spec fn label_spec(self) -> Seq<char> {
        match self {
            PartKind::Text => "Text"@,
            PartKind::Reasoning => "Reasoning"@,
            PartKind::Tool => "Tools"@,
            PartKind::Step => "Steps"@,
            PartKind::File => "Files"@,
            PartKind::Snapshot => "Snapshots"@,
            PartKind::Patch => "Patches"@,
            PartKind::Agent => "Agents"@,
            PartKind::Subtask => "Subtasks"@,
            PartKind::Retry => "Retries"@,
            PartKind::Compaction => "Compactions"@,
        }
    }

    /// The name shown for this kind in the display settings.
    pub fn label(self) -> (r: &'static str)
        ensures
            r@ == self.label_spec(),
    {
        match self {
            PartKind::Text => "Text",
            PartKind::Reasoning => "Reasoning",
            PartKind::Tool => "Tools",
            PartKind::Step => "Steps",
            PartKind::File => "Files",
            PartKind::Snapshot => "Snapshots",
            PartKind::Patch => "Patches",
            PartKind::Agent => "Agents",
            PartKind::Subtask => "Subtasks",
            PartKind::Retry => "Retries",
            PartKind::Compaction => "Compactions",
        }
    }
}

/// The part kinds in the order the display settings list them.
pub open spec fn part_kind_order() -> Seq<PartKind> {
    seq![
        PartKind::Text,
        PartKind::Reasoning,
        PartKind::Tool,
        PartKind::Step,
        PartKind::File,
        PartKind::Snapshot,
        PartKind::Patch,
        PartKind::Agent,
        PartKind::Subtask,
        PartKind::Retry,
        PartKind::Compaction,
    ]
}

/// Number of part kinds.
pub const PART_KIND_COUNT: usize = 11;

/// The part kind at position `i` of the display settings list.
pub fn part_kind_at(i: usize) -> (r: PartKind)
    requires
        i < PART_KIND_COUNT,
    ensures
        r == part_kind_order()[i as int],
{
    match i {
        0 => PartKind::Text,
        1 => PartKind::Reasoning,
        2 => PartKind::Tool,
        3 => PartKind::Step,
        4 => PartKind::File,
        5 => PartKind::Snapshot,
        6 => PartKind::Patch,
        7 => PartKind::Agent,
        8 => PartKind::Subtask,
        9 => PartKind::Retry,
        _ => PartKind::Compaction,
    }
}

/// Per-kind display modes for the transcript.
#[derive(Debug, Clone, Copy, PartialEq, Eq, Structural)]
pub struct ChatDisplayPolicy {
    text: PartDisplayMode,
    reasoning: PartDisplayMode,
    tool: PartDisplayMode,
    step: PartDisplayMode,
    file: PartDisplayMode,
    snapshot: PartDisplayMode,
    patch: PartDisplayMode,
    agent: PartDisplayMode,
    subtask: PartDisplayMode,
    retry: PartDisplayMode,
    compaction: PartDisplayMode,
}

impl ChatDisplayPolicy {
    pub closed spec fn mode_spec(self, kind: PartKind) -> PartDisplayMode {
        match kind {
            PartKind::Text => self.text,
            PartKind::Reasoning => self.reasoning,
            PartKind::Tool => self.tool,
            PartKind::Step => self.step,
            PartKind::File => self.file,
            PartKind::Snapshot => self.snapshot,
            PartKind::Patch => self.patch,
            PartKind::Agent => self.agent,
            PartKind::Subtask => self.subtask,
            PartKind::Retry => self.retry,
            PartKind::Compaction => self.compaction,
        }
    }

    /// Two policies that agree on every kind are the same policy.
    pub proof fn lemma_ext(a: ChatDisplayPolicy, b: ChatDisplayPolicy)
        requires
            forall|k: PartKind| a.mode_spec(k) == b.mode_spec(k),
        ensures
            a == b,
    {
        assert(a.mode_spec(PartKind::Text) == b.mode_spec(PartKind::Text));
        assert(a.mode_spec(PartKind::Reasoning) == b.mode_spec(PartKind::Reasoning));
        assert(a.mode_spec(PartKind::Tool) == b.mode_spec(PartKind::Tool));
        assert(a.mode_spec(PartKind::Step) == b.mode_spec(PartKind::Step));
        assert(a.mode_spec(PartKind::File) == b.mode_spec(PartKind::File));
        assert(a.mode_spec(PartKind::Snapshot) == b.mode_spec(PartKind::Snapshot));
        assert(a.mode_spec(PartKind::Patch) == b.mode_spec(PartKind::Patch));
        assert(a.mode_spec(PartKind::Agent) == b.mode_spec(PartKind::Agent));
        assert(a.mode_spec(PartKind::Subtask) == b.mode_spec(PartKind::Subtask));
        assert(a.mode_spec(PartKind::Retry) == b.mode_spec(PartKind::Retry));
        assert(a.mode_spec(PartKind::Compaction) == b.mode_spec(PartKind::Compaction));
    }

    /// The default policy: every kind in full, except steps, which are hidden.
    pub fn new() -> (r: ChatDisplayPolicy)
        ensures
            forall|k: PartKind|
                #[trigger] r.mode_spec(k) == if k == PartKind::Step {
                    PartDisplayMode::Hidden
                } else {
                    PartDisplayMode::Full
                },
    {
        ChatDisplayPolicy {
            text: PartDisplayMode::Full,
            reasoning: PartDisplayMode::Full,
            tool: PartDisplayMode::Full,
            step: PartDisplayMode::Hidden,
            file: PartDisplayMode::Full,
            snapshot: PartDisplayMode::Full,
            patch: PartDisplayMode::Full,
            agent: PartDisplayMode::Full,
            subtask: PartDisplayMode::Full,
            retry: PartDisplayMode::Full,
            compaction: PartDisplayMode::Full,
        }
    }

    /// The display mode for one part kind.
    pub fn mode_for_kind(&self, kind: PartKind) -> (r: PartDisplayMode)
        ensures
            r == self.mode_spec(kind),
    {
        match kind {
            PartKind::Text => self.text,
            PartKind::Reasoning => self.reasoning,
            PartKind::Tool => self.tool,
            PartKind::Step => self.step,
            PartKind::File => self.file,
            PartKind::Snapshot => self.snapshot,
            PartKind::Patch => self.patch,
            PartKind::Agent => self.agent,
            PartKind::Subtask => self.subtask,
            PartKind::Retry => self.retry,
            PartKind::Compaction => self.compaction,
        }
    }

    /// Changes the display mode of one part kind and leaves the others alone.
    pub fn set_mode(&mut self, kind: PartKind, mode: PartDisplayMode)
        ensures
            forall|k: PartKind|
                #[trigger] final(self).mode_spec(k) == if k == kind {
                    mode
                } else {
                    old(self).mode_spec(k)
                },
    {
        match kind {
            PartKind::Text => self.text = mode,
            PartKind::Reasoning => self.reasoning = mode,
            PartKind::Tool => self.tool = mode,
            PartKind::Step => self.step = mode,
            PartKind::File => self.file = mode,
            PartKind::Snapshot => self.snapshot = mode,
            PartKind::Patch => self.patch = mode,
            PartKind::Agent => self.agent = mode,
            PartKind::Subtask => self.subtask = mode,
            PartKind::Retry => self.retry = mode,
            PartKind::Compaction => self.compaction = mode,
        }
    }
}

/// The kind under which a part is shown; step starts and finishes are both steps.
pub open spec fn part_kind_spec(part: Part) -> PartKind {
    match part {
        Part::Text(_) => PartKind::Text,
        Part::Reasoning(_) => PartKind::Reasoning,
        Part::Tool(_) => PartKind::Tool,
        Part::StepStart(_) => PartKind::Step,
        Part::StepFinish(_) => PartKind::Step,
        Part::File(_) => PartKind::File,
        Part::Snapshot(_) => PartKind::Snapshot,
        Part::Patch(_) => PartKind::Patch,
        Part::Agent(_) => PartKind::Agent,
        Part::Subtask(_) => PartKind::Subtask,
        Part::Retry(_) => PartKind::Retry,
        Part::Compaction(_) => PartKind::Compaction,
    }
}

/// The kind under which a part is shown.
pub fn part_kind(part: &Part) -> (r: PartKind)
    ensures
        r == part_kind_spec(*part),
{
    match part {
        Part::Text(_) => PartKind::Text,
        Part::Reasoning(_) => PartKind::Reasoning,
        Part::Tool(_) => PartKind::Tool,
        Part::StepStart(_) => PartKind::Step,
        Part::StepFinish(_) => PartKind::Step,
        Part::File(_) => PartKind::File,
        Part::Snapshot(_) => PartKind::Snapshot,
        Part::Patch(_) => PartKind::Patch,
        Part::Agent(_) => PartKind::Agent,
        Part::Subtask(_) => PartKind::Subtask,
        Part::Retry(_) => PartKind::Retry,
        Part::Compaction(_) => PartKind::Compaction,
    }
}

impl ChatDisplayPolicy {
    /// How this policy shows `part`.
    pub fn mode_for_part(&self, part: &Part) -> (r: PartDisplayMode)
        ensures
            r == self.mode_spec(part_kind_spec(*part)),
    {
        self.mode_for_kind(part_kind(part))
    }
}

impl Default for ChatDisplayPolicy {
    fn default() -> (r: ChatDisplayPolicy)
        ensures
            forall|k: PartKind|
                #[trigger] r.mode_spec(k) == if k == PartKind::Step {
                    PartDisplayMode::Hidden
                } else {
                    PartDisplayMode::Full
                },
    {
        ChatDisplayPolicy::new()
    }
}

/// Setting a kind's mode and reading it back gives the mode that was set;
/// setting a kind back to the mode it had leaves the policy unchanged.
pub proof fn law_display_policy_set_get(
    p: ChatDisplayPolicy,
    q: ChatDisplayPolicy,
    kind: PartKind,
    mode: PartDisplayMode,
)
    requires
        forall|k: PartKind|
            #[trigger] q.mode_spec(k) == if k == kind {
                mode
            } else {
                p.mode_spec(k)
            },
    ensures
        q.mode_spec(kind) == mode,
        mode == p.mode_spec(kind) ==> q == p,
{
    if mode == p.mode_spec(kind) {
        ChatDisplayPolicy::lemma_ext(q, p);
    }
}


// --- Streaming state ---
/// Whether a streamed part carries text or reasoning text.
#[derive(Debug, Clone, Copy, PartialEq, Eq, Structural)]
pub enum StreamTextKind {
    Text,
    Reasoning,
}

/// The text kind of a part, if it is text or reasoning.
pub open spec fn text_kind(p: Part) -> Option<StreamTextKind> {
    match p {
        Part::Text(_) => Some(StreamTextKind::Text),
        Part::Reasoning(_) => Some(StreamTextKind::Reasoning),
        _ => None,
    }
}

/// The text of a text or reasoning part; empty for other parts.
pub open spec fn stream_text_of(p: Part) -> Seq<char> {
    match p {
        Part::Text(t) => t.text@,
        Part::Reasoning(r) => r.text@,
        _ => Seq::empty(),
    }
}

/// A fresh text or reasoning part holding `text`.
pub open spec fn with_text(kind: StreamTextKind, text: String) -> Part {
    match kind {
        StreamTextKind::Text => Part::Text(TextPart { identity: PartIdentity::empty_spec(), text }),
        StreamTextKind::Reasoning => Part::Reasoning(
            ReasoningPart { identity: PartIdentity::empty_spec(), text },
        ),
    }
}

/// The server id a part carries, if any.
pub open spec fn identity_id(p: Part) -> Option<String> {
    match p {
        Part::Text(x) => x.identity.id,
        Part::Reasoning(x) => x.identity.id,
        Part::Tool(x) => x.identity.id,
        Part::StepStart(x) => x.identity.id,
        Part::StepFinish(x) => x.identity.id,
        Part::File(x) => x.identity.id,
        Part::Snapshot(x) => x.identity.id,
        Part::Patch(x) => x.identity.id,
        Part::Agent(x) => x.identity.id,
        Part::Subtask(x) => x.identity.id,
        Part::Retry(x) => x.identity.id,
        Part::Compaction(x) => x.identity.id,
    }
}

/// The contents of an optional string.
pub open spec fn opt_view(o: Option<String>) -> Option<Seq<char>> {
    match o {
        Some(s) => Some(s@),
        None => None,
    }
}

/// Two tool states show the same thing.
pub open spec fn tool_states_equiv(l: ToolState, r: ToolState) -> bool {
    match (l, r) {
        (ToolState::Pending { input: li, raw: lr }, ToolState::Pending { input: ri, raw: rr }) => li.deep_view()
            == ri.deep_view() && lr@ == rr@,
        (ToolState::Running { .. }, ToolState::Running { .. }) => true,
        (
            ToolState::Completed { output: lo, title: lt, .. },
            ToolState::Completed { output: ro, title: rt, .. },
        ) => lo@ == ro@ && lt@ == rt@,
        (ToolState::Error { error: le, .. }, ToolState::Error { error: re, .. }) => le@ == re@,
        _ => false,
    }
}

/// Two parts show the same content (a repeated update).
pub open spec fn parts_equiv(l: Part, r: Part) -> bool {
    match (l, r) {
        (Part::Text(a), Part::Text(b)) => a.text@ == b.text@,
        (Part::Reasoning(a), Part::Reasoning(b)) => a.text@ == b.text@,
        (Part::Tool(a), Part::Tool(b)) => a.tool@ == b.tool@ && tool_states_equiv(a.state, b.state),
        (Part::StepStart(_), Part::StepStart(_)) => true,
        (Part::StepFinish(a), Part::StepFinish(b)) => opt_view(a.reason) == opt_view(b.reason),
        _ => false,
    }
}

/// Two parts describe the same thing, so the newer replaces the older.
pub open spec fn same_entity(l: Part, r: Part) -> bool {
    match (l, r) {
        (Part::Tool(a), Part::Tool(b)) => match (a.identity.id, b.identity.id) {
            (Some(x), Some(y)) => x@ == y@,
            _ => a.tool@ == b.tool@ && a.identity.id is None && b.identity.id is None,
        },
        (Part::StepStart(a), Part::StepStart(b)) => opt_view(a.session_id) == opt_view(b.session_id)
            && opt_view(a.snapshot) == opt_view(b.snapshot),
        (Part::StepFinish(a), Part::StepFinish(b)) => opt_view(a.session_id) == opt_view(
            b.session_id,
        ) && opt_view(a.snapshot) == opt_view(b.snapshot) && opt_view(a.reason) == opt_view(
            b.reason,
        ),
        (Part::File(a), Part::File(b)) => a.url@ == b.url@,
        (Part::Snapshot(a), Part::Snapshot(b)) => a.snapshot@ == b.snapshot@,
        (Part::Patch(a), Part::Patch(b)) => a.hash@ == b.hash@,
        (Part::Agent(a), Part::Agent(b)) => a.name@ == b.name@,
        (Part::Subtask(a), Part::Subtask(b)) => a.agent@ == b.agent@ && a.description@
            == b.description@,
        (Part::Retry(a), Part::Retry(b)) => a.attempt == b.attempt,
        (Part::Compaction(a), Part::Compaction(b)) => a.auto == b.auto && a.overflow == b.overflow,
        _ => false,
    }
}

/// The last position of `s` whose part satisfies `f`.
pub open spec fn last_where(s: Seq<Part>, f: spec_fn(Part) -> bool) -> Option<int>
    decreases s.len(),
{
    if s.len() == 0 {
        None
    } else if f(s.last()) {
        Some(s.len() - 1)
    } else {
        last_where(s.drop_last(), f)
    }
}

pub proof fn lemma_last_where(s: Seq<Part>, f: spec_fn(Part) -> bool, i: int)
    requires
        -1 <= i < s.len(),
        forall|j: int| i < j < s.len() ==> !f(#[trigger] s[j]),
        i >= 0 ==> f(s[i]),
    ensures
        last_where(s, f) == if i >= 0 {
            Some(i)
        } else {
            None::<int>
        },
    decreases s.len(),
{
    if s.len() > 0 && i < s.len() - 1 {
        let d = s.drop_last();
        assert forall|j: int| i < j < d.len() implies !f(#[trigger] d[j]) by {
            assert(d[j] == s[j]);
        }
        if i >= 0 {
            assert(d[i] == s[i]);
        }
        assert(!f(s[s.len() - 1]));
        lemma_last_where(d, f, i);
    }
}

/// The value stored under `key`: that of the first entry with that key.
pub open spec fn lookup<V>(v: Seq<(String, V)>, key: Seq<char>) -> Option<V>
    decreases v.len(),
{
    if v.len() == 0 {
        None
    } else if v[0].0@ == key {
        Some(v[0].1)
    } else {
        lookup(v.drop_first(), key)
    }
}

/// `lookup` finds the first entry with the key, or nothing when no entry has it.
pub proof fn lemma_lookup_first<V>(v: Seq<(String, V)>, key: Seq<char>, j: int)
    requires
        0 <= j <= v.len(),
        forall|i: int| 0 <= i < j ==> (#[trigger] v[i]).0@ != key,
        j < v.len() ==> v[j].0@ == key,
    ensures
        lookup(v, key) == if j < v.len() {
            Some(v[j].1)
        } else {
            None::<V>
        },
    decreases v.len(),
{
    if v.len() > 0 && j > 0 {
        let d = v.drop_first();
        assert forall|i: int| 0 <= i < j - 1 implies (#[trigger] d[i]).0@ != key by {
            assert(d[i] == v[i + 1]);
        }
        assert(v[0].0@ != key);
        lemma_lookup_first(d, key, j - 1);
    }
}

/// Appending an entry changes only the lookups that found nothing before.
pub proof fn lemma_lookup_push<V>(v: Seq<(String, V)>, x: (String, V), key: Seq<char>)
    ensures
        lookup(v.push(x), key) == match lookup(v, key) {
            Some(y) => Some(y),
            None => if x.0@ == key {
                Some(x.1)
            } else {
                None
            },
        },
    decreases v.len(),
{
    if v.len() > 0 {
        assert(v.push(x)[0] == v[0]);
        assert(v.push(x).drop_first() =~= v.drop_first().push(x));
        lemma_lookup_push(v.drop_first(), x, key);
    } else {
        assert(v.push(x)[0] == x);
        assert(v.push(x).drop_first() =~= Seq::<(String, V)>::empty());
        assert(lookup(Seq::<(String, V)>::empty(), key) == None::<V>);
    }
}

/// Replacing the first entry of a key changes the lookup of that key alone.
pub proof fn lemma_lookup_update<V>(v: Seq<(String, V)>, j: int, x: (String, V), key: Seq<char>)
    requires
        0 <= j < v.len(),
        v[j].0@ == x.0@,
        forall|i: int| 0 <= i < j ==> (#[trigger] v[i]).0@ != x.0@,
    ensures
        lookup(v.update(j, x), key) == if key == x.0@ {
            Some(x.1)
        } else {
            lookup(v, key)
        },
    decreases v.len(),
{
    let w = v.update(j, x);
    if j == 0 {
        assert(w.drop_first() =~= v.drop_first());
    } else {
        assert(w[0] == v[0]);
        assert(w.drop_first() =~= v.drop_first().update(j - 1, x));
        assert forall|i: int| 0 <= i < j - 1 implies (#[trigger] v.drop_first()[i]).0@ != x.0@ by {
            assert(v.drop_first()[i] == v[i + 1]);
        }
        lemma_lookup_update(v.drop_first(), j - 1, x, key);
    }
}

/// The first position of an entry with `key`.
pub fn find_key<V>(v: &Vec<(String, V)>, key: &str) -> (r: Option<usize>)
    ensures
        match r {
            Some(j) => j < v@.len() && v@[j as int].0@ == key@ && forall|i: int|
                0 <= i < j ==> (#[trigger] v@[i]).0@ != key@,
            None => forall|i: int| 0 <= i < v@.len() ==> (#[trigger] v@[i]).0@ != key@,
        },
        lookup(v@, key@) == match r {
            Some(j) => Some(v@[j as int].1),
            None => None::<V>,
        },
{
    let mut i: usize = 0;
    while i < v.len()
        invariant
            i <= v@.len(),
            forall|k: int| 0 <= k < i ==> (#[trigger] v@[k]).0@ != key@,
        decreases v@.len() - i,
    {
        if str_eq(v[i].0.as_str(), key) {
            proof {
                lemma_lookup_first(v@, key@, i as int);
            }
            return Some(i);
        }
        i = i + 1;
    }
    proof {
        lemma_lookup_first(v@, key@, v@.len() as int);
    }
    None
}

/// The keys strictly increase along the entries: each key is stored once,
/// and the entries stand in key order.
pub open spec fn keys_ordered<V>(v: Seq<(String, V)>) -> bool {
    forall|i: int, j: int| 0 <= i < j < v.len() ==> str_lt(#[trigger] v[i].0@, #[trigger] v[j].0@)
}

/// Inserting an entry anywhere leaves the lookups of every other key alone.
pub proof fn lemma_lookup_insert<V>(v: Seq<(String, V)>, p: int, x: (String, V), key: Seq<char>)
    requires
        0 <= p <= v.len(),
        key != x.0@,
    ensures
        lookup(v.insert(p, x), key) == lookup(v, key),
    decreases v.len(),
{
    let w = v.insert(p, x);
    if p == 0 {
        assert(w[0] == x);
        assert(w.drop_first() =~= v);
    } else {
        assert(w[0] == v[0]);
        assert(w.drop_first() =~= v.drop_first().insert(p - 1, x));
        lemma_lookup_insert(v.drop_first(), p - 1, x, key);
    }
}

/// An entry whose key lies between its neighbours keeps the keys in order.
pub proof fn lemma_ordered_insert<V>(v: Seq<(String, V)>, p: int, x: (String, V))
    requires
        keys_ordered(v),
        0 <= p <= v.len(),
        forall|j: int| 0 <= j < p ==> str_lt(#[trigger] v[j].0@, x.0@),
        p < v.len() ==> str_lt(x.0@, v[p].0@),
    ensures
        keys_ordered(v.insert(p, x)),
{
    let w = v.insert(p, x);
    assert forall|a: int, b: int| 0 <= a < b < w.len() implies str_lt(
        #[trigger] w[a].0@,
        #[trigger] w[b].0@,
    ) by {
        if b < p {
            assert(w[a] == v[a] && w[b] == v[b]);
        } else if a < p && b == p {
            assert(w[a] == v[a]);
        } else if a < p && b > p {
            assert(w[a] == v[a] && w[b] == v[b - 1]);
            if b - 1 > p {
                assert(str_lt(v[p].0@, v[b - 1].0@));
                lemma_str_lt_transitive(x.0@, v[p].0@, v[b - 1].0@);
            }
            lemma_str_lt_transitive(v[a].0@, x.0@, v[b - 1].0@);
        } else if a == p {
            assert(w[b] == v[b - 1]);
            if b - 1 > p {
                assert(str_lt(v[p].0@, v[b - 1].0@));
                lemma_str_lt_transitive(x.0@, v[p].0@, v[b - 1].0@);
            }
        } else {
            assert(w[a] == v[a - 1] && w[b] == v[b - 1]);
        }
    }
}

/// Stores `value` under `key`, replacing what was stored there.
pub fn insert_entry<V>(v: &mut Vec<(String, V)>, key: String, value: V)
    ensures
        forall|k: Seq<char>|
            #[trigger] lookup(final(v)@, k) == if k == key@ {
                Some(value)
            } else {
                lookup(old(v)@, k)
            },
        keys_ordered(old(v)@) ==> keys_ordered(final(v)@),
{
    match find_key(v, key.as_str()) {
        Some(j) => {
            let ghost k0 = key@;
            let ghost x = (key, value);
            v[j] = (key, value);
            proof {
                assert forall|k: Seq<char>|
                    #[trigger] lookup(v@, k) == if k == k0 {
                        Some(value)
                    } else {
                        lookup(old(v)@, k)
                    } by {
                    lemma_lookup_update(old(v)@, j as int, x, k);
                }
                if keys_ordered(old(v)@) {
                    assert forall|a: int, b: int| 0 <= a < b < v@.len() implies str_lt(
                        #[trigger] v@[a].0@,
                        #[trigger] v@[b].0@,
                    ) by {
                        assert(v@[a].0@ == old(v)@[a].0@);
                        assert(v@[b].0@ == old(v)@[b].0@);
                    }
                }
            }
        },
        None => {
            let ghost k0 = key@;
            let kc = chars_of(key.as_str());
            let mut pos: usize = 0;
            while pos < v.len() && chars_lt(&chars_of(v[pos].0.as_str()), &kc)
                invariant
                    pos <= v@.len(),
                    kc@ == k0,
                    k0 == key@,
                    v@ == old(v)@,
                    forall|j: int| 0 <= j < pos ==> str_lt(#[trigger] v@[j].0@, k0),
                decreases v@.len() - pos,
            {
                pos += 1;
            }
            if pos < v.len() {
                proof {
                    lemma_str_lt_total(v@[pos as int].0@, k0);
                }
            }
            let ghost x = (key, value);
            v.insert(pos, (key, value));
            proof {
                let w = old(v)@.insert(pos as int, x);
                assert(v@ == w);
                assert forall|k: Seq<char>|
                    #[trigger] lookup(v@, k) == if k == k0 {
                        Some(value)
                    } else {
                        lookup(old(v)@, k)
                    } by {
                    if k == k0 {
                        assert forall|i: int| 0 <= i < pos implies (#[trigger] w[i]).0@ != k0 by {
                            assert(w[i] == old(v)@[i]);
                        }
                        lemma_lookup_first(w, k0, pos as int);
                    } else {
                        lemma_lookup_insert(old(v)@, pos as int, x, k);
                    }
                }
                if keys_ordered(old(v)@) {
                    lemma_ordered_insert(old(v)@, pos as int, x);
                }
            }
        },
    }
}

/// `p` is a fresh part of the given text kind holding `text`.
pub open spec fn is_text_part(p: Part, kind: StreamTextKind, text: Seq<char>) -> bool {
    match kind {
        StreamTextKind::Text => p matches Part::Text(t) && t.identity == PartIdentity::empty_spec()
            && t.text@ == text,
        StreamTextKind::Reasoning => p matches Part::Reasoning(t) && t.identity
            == PartIdentity::empty_spec() && t.text@ == text,
    }
}

/// `e` and `p` show the same content.
pub open spec fn equiv_to(p: Part) -> spec_fn(Part) -> bool {
    |e: Part| parts_equiv(e, p)
}

/// `e` and `p` describe the same thing.
pub open spec fn same_as(p: Part) -> spec_fn(Part) -> bool {
    |e: Part| same_entity(e, p)
}

/// `e` is a text part of the given kind.
pub open spec fn of_kind(kind: StreamTextKind) -> spec_fn(Part) -> bool {
    |e: Part| text_kind(e) == Some(kind)
}

/// What a running tool that reported output turns into once the response is
/// finished; every other part stays as it is.
pub open spec fn completes(before: Part, after: Part) -> bool {
    match before {
        Part::Tool(t) => match t.state {
            ToolState::Running { input, title, metadata, start } => match metadata {
                Some(md) => match lookup(md@, "output"@) {
                    Some(out) => match after {
                        Part::Tool(a) => {
                            &&& a.identity == t.identity
                            &&& a.call_id == t.call_id
                            &&& a.tool == t.tool
                            &&& match a.state {
                                ToolState::Completed {
                                    input: i2,
                                    output: o2,
                                    title: t2,
                                    metadata: m2,
                                    start: s2,
                                    end: e2,
                                    attachments: at2,
                                } => {
                                    &&& i2 == input
                                    &&& o2 == out
                                    &&& t2 == match title {
                                        Some(x) => x,
                                        None => t.tool,
                                    }
                                    &&& m2 == md
                                    &&& s2 == match start {
                                        Some(x) => x,
                                        None => 0,
                                    }
                                    &&& e2 == s2
                                    &&& at2@.len() == 0
                                },
                                _ => false,
                            }
                        },
                        _ => false,
                    },
                    None => after == before,
                },
                None => after == before,
            },
            _ => after == before,
        },
        _ => after == before,
    }
}

/// Each part of `after` is the corresponding part of `before`, completed.
pub open spec fn completes_all(before: Seq<Part>, after: Seq<Part>) -> bool {
    &&& after.len() == before.len()
    &&& forall|k: int| 0 <= k < before.len() ==> completes(#[trigger] before[k], after[k])
}

/// `after` is `before` with the running tools of its parts completed.
pub open spec fn message_completes(before: LoadedMessage, after: LoadedMessage) -> bool {
    &&& after.id == before.id
    &&& after.session_id == before.session_id
    &&& after.role == before.role
    &&& completes_all(before.parts@, after.parts@)
}

/// The text kind of a part.
pub fn stream_text_kind(p: &Part) -> (r: Option<StreamTextKind>)
    ensures
        r == text_kind(*p),
{
    match p {
        Part::Text(_) => Some(StreamTextKind::Text),
        Part::Reasoning(_) => Some(StreamTextKind::Reasoning),
        _ => None,
    }
}

/// A copy of the text of a text or reasoning part; empty for other parts.
pub fn stream_text(p: &Part) -> (r: String)
    ensures
        r@ == stream_text_of(*p),
{
    match p {
        Part::Text(t) => t.text.clone(),
        Part::Reasoning(t) => t.text.clone(),
        _ => String::new(),
    }
}

/// Replaces `part` by a fresh part of the given kind holding `text`.
pub fn set_stream_text(part: &mut Part, text: String, kind: StreamTextKind)
    ensures
        *final(part) == with_text(kind, text),
        is_text_part(*final(part), kind, text@),
{
    *part = match kind {
        StreamTextKind::Text => Part::Text(TextPart { identity: PartIdentity::empty(), text }),
        StreamTextKind::Reasoning => Part::Reasoning(
            ReasoningPart { identity: PartIdentity::empty(), text },
        ),
    };
}

/// A copy of the server id a part carries.
pub fn part_identity_id(p: &Part) -> (r: Option<String>)
    ensures
        r == identity_id(*p),
{
    match p {
        Part::Text(x) => copy_opt_string(&x.identity.id),
        Part::Reasoning(x) => copy_opt_string(&x.identity.id),
        Part::Tool(x) => copy_opt_string(&x.identity.id),
        Part::StepStart(x) => copy_opt_string(&x.identity.id),
        Part::StepFinish(x) => copy_opt_string(&x.identity.id),
        Part::File(x) => copy_opt_string(&x.identity.id),
        Part::Snapshot(x) => copy_opt_string(&x.identity.id),
        Part::Patch(x) => copy_opt_string(&x.identity.id),
        Part::Agent(x) => copy_opt_string(&x.identity.id),
        Part::Subtask(x) => copy_opt_string(&x.identity.id),
        Part::Retry(x) => copy_opt_string(&x.identity.id),
        Part::Compaction(x) => copy_opt_string(&x.identity.id),
    }
}

/// Whether two optional strings hold the same text.
pub fn opt_str_eq(a: &Option<String>, b: &Option<String>) -> (r: bool)
    ensures
        r == (opt_view(*a) == opt_view(*b)),
{
    match (a, b) {
        (Some(x), Some(y)) => str_eq(x.as_str(), y.as_str()),
        (None, None) => true,
        _ => false,
    }
}

/// Whether two lists of key/value pairs hold the same text.
pub fn pairs_eq(a: &Vec<(String, String)>, b: &Vec<(String, String)>) -> (r: bool)
    ensures
        r == (a.deep_view() == b.deep_view()),
{
    if a.len() != b.len() {
        assert(a.deep_view().len() != b.deep_view().len());
        return false;
    }
    let mut i: usize = 0;
    while i < a.len()
        invariant
            a@.len() == b@.len(),
            i <= a@.len(),
            forall|k: int|
                0 <= k < i ==> (#[trigger] a@[k]).0@ == b@[k].0@ && a@[k].1@ == b@[k].1@,
        decreases a@.len() - i,
    {
        if !str_eq(a[i].0.as_str(), b[i].0.as_str()) || !str_eq(a[i].1.as_str(), b[i].1.as_str()) {
            assert(a.deep_view()[i as int] != b.deep_view()[i as int]);
            return false;
        }
        i = i + 1;
    }
    assert(a.deep_view() =~= b.deep_view());
    true
}

/// Whether two tool states show the same thing.
pub fn tool_states_equivalent(l: &ToolState, r: &ToolState) -> (res: bool)
    ensures
        res == tool_states_equiv(*l, *r),
{
    match (l, r) {
        (ToolState::Pending { input: li, raw: lr }, ToolState::Pending { input: ri, raw: rr }) => {
            pairs_eq(li, ri) && str_eq(lr.as_str(), rr.as_str())
        },
        (ToolState::Running { .. }, ToolState::Running { .. }) => true,
        (
            ToolState::Completed { output: lo, title: lt, .. },
            ToolState::Completed { output: ro, title: rt, .. },
        ) => str_eq(lo.as_str(), ro.as_str()) && str_eq(lt.as_str(), rt.as_str()),
        (ToolState::Error { error: le, .. }, ToolState::Error { error: re, .. }) => str_eq(
            le.as_str(),
            re.as_str(),
        ),
        _ => false,
    }
}

/// Whether two parts show the same content.
pub fn parts_equivalent(l: &Part, r: &Part) -> (res: bool)
    ensures
        res == parts_equiv(*l, *r),
{
    match (l, r) {
        (Part::Text(a), Part::Text(b)) => str_eq(a.text.as_str(), b.text.as_str()),
        (Part::Reasoning(a), Part::Reasoning(b)) => str_eq(a.text.as_str(), b.text.as_str()),
        (Part::Tool(a), Part::Tool(b)) => str_eq(a.tool.as_str(), b.tool.as_str())
            && tool_states_equivalent(&a.state, &b.state),
        (Part::StepStart(_), Part::StepStart(_)) => true,
        (Part::StepFinish(a), Part::StepFinish(b)) => opt_str_eq(&a.reason, &b.reason),
        _ => false,
    }
}

/// Whether two parts describe the same thing.
pub fn parts_describe_same_entity(l: &Part, r: &Part) -> (res: bool)
    ensures
        res == same_entity(*l, *r),
{
    match (l, r) {
        (Part::Tool(a), Part::Tool(b)) => match (&a.identity.id, &b.identity.id) {
            (Some(x), Some(y)) => str_eq(x.as_str(), y.as_str()),
            _ => str_eq(a.tool.as_str(), b.tool.as_str()) && a.identity.id.is_none()
                && b.identity.id.is_none(),
        },
        (Part::StepStart(a), Part::StepStart(b)) => opt_str_eq(&a.session_id, &b.session_id)
            && opt_str_eq(&a.snapshot, &b.snapshot),
        (Part::StepFinish(a), Part::StepFinish(b)) => opt_str_eq(&a.session_id, &b.session_id)
            && opt_str_eq(&a.snapshot, &b.snapshot) && opt_str_eq(&a.reason, &b.reason),
        (Part::File(a), Part::File(b)) => str_eq(a.url.as_str(), b.url.as_str()),
        (Part::Snapshot(a), Part::Snapshot(b)) => str_eq(a.snapshot.as_str(), b.snapshot.as_str()),
        (Part::Patch(a), Part::Patch(b)) => str_eq(a.hash.as_str(), b.hash.as_str()),
        (Part::Agent(a), Part::Agent(b)) => str_eq(a.name.as_str(), b.name.as_str()),
        (Part::Subtask(a), Part::Subtask(b)) => str_eq(a.agent.as_str(), b.agent.as_str())
            && str_eq(a.description.as_str(), b.description.as_str()),
        (Part::Retry(a), Part::Retry(b)) => a.attempt == b.attempt,
        (Part::Compaction(a), Part::Compaction(b)) => a.auto == b.auto && a.overflow == b.overflow,
        _ => false,
    }
}

/// `part` with a running tool that reported output turned into a completed tool.
pub fn complete_running_tool(part: Part) -> (r: Part)
    ensures
        completes(part, r),
{
    match part {
        Part::Tool(t) => {
            let ToolPart { identity, call_id, tool, state } = t;
            match state {
                ToolState::Running { input, title, metadata, start } => match metadata {
                    Some(md) => match find_key(&md, "output") {
                        Some(j) => {
                            let output = md[j].1.clone();
                            let title = match title {
                                Some(x) => x,
                                None => tool.clone(),
                            };
                            let start: u64 = match start {
                                Some(x) => x,
                                None => 0,
                            };
                            Part::Tool(
                                ToolPart {
                                    identity,
                                    call_id,
                                    tool,
                                    state: ToolState::Completed {
                                        input,
                                        output,
                                        title,
                                        metadata: md,
                                        start,
                                        end: start,
                                        attachments: Vec::new(),
                                    },
                                },
                            )
                        },
                        None => Part::Tool(
                            ToolPart {
                                identity,
                                call_id,
                                tool,
                                state: ToolState::Running { input, title, metadata: Some(md), start },
                            },
                        ),
                    },
                    None => Part::Tool(
                        ToolPart {
                            identity,
                            call_id,
                            tool,
                            state: ToolState::Running { input, title, metadata: None, start },
                        },
                    ),
                },
                other => Part::Tool(ToolPart { identity, call_id, tool, state: other }),
            }
        },
        other => other,
    }
}

/// A placeholder part, used while a part is moved out of a list.
fn empty_text_part() -> (r: Part)
    ensures
        is_text_part(r, StreamTextKind::Text, Seq::empty()),
{
    Part::Text(TextPart { identity: PartIdentity::empty(), text: String::new() })
}

/// Turns `part`, in place, into a completed tool when it is a running tool
/// that reported output.
pub fn complete_running_tool_with_output(part: &mut Part)
    ensures
        completes(*old(part), *final(part)),
{
    let mut p = empty_text_part();
    core::mem::swap(&mut p, part);
    *part = complete_running_tool(p);
}

/// Completes the running tools that reported output, in place.
pub fn complete_running_tools_in(parts: &mut Vec<Part>)
    ensures
        completes_all(old(parts)@, final(parts)@),
{
    let ghost before = parts@;
    let mut i: usize = 0;
    while i < parts.len()
        invariant
            parts@.len() == before.len(),
            i <= before.len(),
            forall|k: int| 0 <= k < i ==> completes(#[trigger] before[k], parts@[k]),
            forall|k: int| i <= k < before.len() ==> #[trigger] parts@[k] == before[k],
        decreases before.len() - i,
    {
        complete_running_tool_with_output(&mut parts[i]);
        i = i + 1;
    }
}

/// Lookups in `after` are those in `before`, with each index passed through `f`.
pub proof fn lemma_lookup_map(
    before: Seq<(String, usize)>,
    after: Seq<(String, usize)>,
    f: spec_fn(usize) -> usize,
    key: Seq<char>,
)
    requires
        after.len() == before.len(),
        forall|j: int|
            0 <= j < before.len() ==> (#[trigger] after[j]).0@ == before[j].0@ && after[j].1 == f(
                before[j].1,
            ),
    ensures
        lookup(after, key) == match lookup(before, key) {
            Some(x) => Some(f(x)),
            None => None::<usize>,
        },
    decreases before.len(),
{
    if before.len() > 0 {
        let bd = before.drop_first();
        let ad = after.drop_first();
        assert forall|j: int| 0 <= j < bd.len() implies (#[trigger] ad[j]).0@ == bd[j].0@ && ad[j].1
            == f(bd[j].1) by {
            assert(ad[j] == after[j + 1]);
            assert(bd[j] == before[j + 1]);
        }
        assert(after[0].0@ == before[0].0@);
        lemma_lookup_map(bd, ad, f, key);
    }
}

/// Removes every entry stored under `key`.
pub fn remove_key<V>(v: &mut Vec<(String, V)>, key: &str)
    ensures
        forall|k: Seq<char>|
            #[trigger] lookup(final(v)@, k) == if k == key@ {
                None
            } else {
                lookup(old(v)@, k)
            },
        keys_ordered(old(v)@) ==> keys_ordered(final(v)@),
{
    let mut rest: Vec<(String, V)> = Vec::new();
    core::mem::swap(&mut rest, v);
    let ghost orig = rest@;
    let ghost mut n: int = 0;
    assert(v@ =~= orig.subrange(0, 0));
    while rest.len() > 0
        invariant
            0 <= n <= orig.len(),
            rest@ == orig.subrange(n, orig.len() as int),
            forall|k: Seq<char>| k != key@ ==> #[trigger] lookup(v@, k) == lookup(orig.subrange(0, n), k),
            forall|j: int| 0 <= j < v@.len() ==> (#[trigger] v@[j]).0@ != key@,
            keys_ordered(orig) ==> keys_ordered(v@),
            keys_ordered(orig) ==> forall|j: int, i: int|
                0 <= j < v@.len() && n <= i < orig.len() ==> str_lt(#[trigger] v@[j].0@, #[trigger] orig[i].0@),
        decreases rest@.len(),
    {
        let e = rest.remove(0);
        let ghost prefix = orig.subrange(0, n);
        let ghost before = v@;
        proof {
            assert(orig.subrange(0, n + 1) =~= prefix.push(e));
            n = n + 1;
            assert(rest@ =~= orig.subrange(n, orig.len() as int));
        }
        let keep = !str_eq(e.0.as_str(), key);
        if keep {
            v.push(e);
        }
        proof {
            assert forall|k: Seq<char>| k != key@ implies #[trigger] lookup(v@, k) == lookup(
                orig.subrange(0, n),
                k,
            ) by {
                lemma_lookup_push(prefix, e, k);
                if keep {
                    lemma_lookup_push(before, e, k);
                }
            }
            if keys_ordered(orig) {
                assert(e == orig[n - 1]);
                assert forall|j: int, i: int|
                    0 <= j < v@.len() && n <= i < orig.len() implies str_lt(
                    #[trigger] v@[j].0@,
                    #[trigger] orig[i].0@,
                ) by {
                    if j < before.len() {
                        assert(v@[j] == before[j]);
                        assert(str_lt(before[j].0@, orig[n - 1].0@));
                        lemma_str_lt_transitive(before[j].0@, orig[n - 1].0@, orig[i].0@);
                    }
                }
                assert forall|a: int, b: int| 0 <= a < b < v@.len() implies str_lt(
                    #[trigger] v@[a].0@,
                    #[trigger] v@[b].0@,
                ) by {
                    if b < before.len() {
                        assert(v@[a] == before[a] && v@[b] == before[b]);
                    } else {
                        assert(v@[a] == before[a] && v@[b] == e);
                    }
                }
            }
        }
    }
    proof {
        assert(orig.subrange(0, n) =~= orig);
        lemma_lookup_first(v@, key@, v@.len() as int);
    }
}

/// `x` lowered by one where it lies above `index`.
pub open spec fn shifted(x: usize, index: usize) -> usize {
    if x > index {
        (x - 1) as usize
    } else {
        x
    }
}

/// Lowers by one every stored index above `index`.
pub fn shift_indices_above(v: &mut Vec<(String, usize)>, index: usize)
    ensures
        forall|k: Seq<char>|
            #[trigger] lookup(final(v)@, k) == match lookup(old(v)@, k) {
                Some(x) => Some(shifted(x, index)),
                None => None::<usize>,
            },
        keys_ordered(old(v)@) ==> keys_ordered(final(v)@),
{
    let ghost before = v@;
    let mut i: usize = 0;
    while i < v.len()
        invariant
            v@.len() == before.len(),
            i <= before.len(),
            forall|j: int|
                0 <= j < before.len() ==> (#[trigger] v@[j]).0 == before[j].0 && v@[j].1 == if j
                    < i {
                    shifted(before[j].1, index)
                } else {
                    before[j].1
                },
        decreases before.len() - i,
    {
        let x = v[i].1;
        if x > index {
            v[i].1 = x - 1;
        }
        i = i + 1;
    }
    proof {
        assert forall|k: Seq<char>| #[trigger]
            lookup(v@, k) == match lookup(before, k) {
                Some(x) => Some(shifted(x, index)),
                None => None::<usize>,
            } by {
            lemma_lookup_map(before, v@, |x: usize| shifted(x, index), k);
        }
        if keys_ordered(before) {
            assert forall|a: int, b: int| 0 <= a < b < v@.len() implies str_lt(
                #[trigger] v@[a].0@,
                #[trigger] v@[b].0@,
            ) by {
                assert(v@[a].0 == before[a].0 && v@[b].0 == before[b].0);
            }
        }
    }
}

/// `m` is a message with the server id `id`.
pub open spec fn has_id(id: Seq<char>) -> spec_fn(LoadedMessage) -> bool {
    |m: LoadedMessage| opt_view(m.id) == Some(id)
}

/// `m` is a user message that the server has not acknowledged yet.
pub open spec fn is_optimistic_user() -> spec_fn(LoadedMessage) -> bool {
    |m: LoadedMessage| m.id is None && m.role == MessageRole::User
}

/// The messages of `s` without those with the id `id`, in order.
pub open spec fn without_id(s: Seq<LoadedMessage>, id: Seq<char>) -> Seq<LoadedMessage>
    decreases s.len(),
{
    if s.len() == 0 {
        s
    } else if opt_view(s.last().id) == Some(id) {
        without_id(s.drop_last(), id)
    } else {
        without_id(s.drop_last(), id).push(s.last())
    }
}

/// An incoming text part repeats the single text of the last message, a user's.
pub open spec fn echoes(messages: Seq<LoadedMessage>, part: Part) -> bool {
    &&& part is Text
    &&& messages.len() > 0
    &&& messages.last().role == MessageRole::User
    &&& messages.last().parts@.len() == 1
    &&& messages.last().parts@[0] matches Part::Text(e) && e.text@ == stream_text_of(part)
}

/// The key under which a streamed part is stored: the given one, else its own id.
pub open spec fn keyed_id(part_id: Option<String>, part: Part) -> Option<String> {
    match part_id {
        Some(k) => Some(k),
        None => identity_id(part),
    }
}

/// The stored position of the part with the key, where it is still in range.
pub open spec fn stored_slot(s: ChatState, key: Option<String>) -> Option<int> {
    match key {
        Some(k) => match lookup(s.partial_part_indices@, k@) {
            Some(i) => if i < s.partial_parts@.len() {
                Some(i as int)
            } else {
                None
            },
            None => None,
        },
        None => None,
    }
}

/// The text accumulated under `key` (empty where there is none).
pub open spec fn accumulated(s: ChatState, key: Seq<char>) -> Seq<char> {
    match lookup(s.partial_texts@, key) {
        Some(t) => t@,
        None => Seq::empty(),
    }
}

/// `after` maps `key` to `text` and agrees with `before` elsewhere.
pub open spec fn texts_stored(
    before: Seq<(String, String)>,
    after: Seq<(String, String)>,
    key: Seq<char>,
    text: Seq<char>,
) -> bool {
    forall|k: Seq<char>|
        #[trigger] opt_view(lookup(after, k)) == if k == key {
            Some(text)
        } else {
            opt_view(lookup(before, k))
        }
}

/// `after` maps the key, if there is one, to `index` and agrees with `before`
/// elsewhere.
pub open spec fn index_stored(
    before: Seq<(String, usize)>,
    after: Seq<(String, usize)>,
    key: Option<String>,
    index: int,
) -> bool {
    match key {
        Some(kk) => forall|k: Seq<char>|
            #[trigger] lookup(after, k) == if k == kk@ {
                Some(index as usize)
            } else {
                lookup(before, k)
            },
        None => after == before,
    }
}

/// The streaming state after a new part was appended.
pub open spec fn pushed(
    s: ChatState,
    t: ChatState,
    key: Option<String>,
    part: Part,
    r: Option<usize>,
) -> bool {
    let n = s.partial_parts@.len();
    &&& r == Some(n as usize)
    &&& t.partial_parts@ == s.partial_parts@.push(part)
    &&& index_stored(s.partial_part_indices@, t.partial_part_indices@, key, n as int)
    &&& t.partial_texts == s.partial_texts
    &&& t.latest_text_part_index == if text_kind(part) is Some {
        Some(n as usize)
    } else {
        s.latest_text_part_index
    }
}

/// What merging a streamed `part` does to the state `s`, giving `t`, and the
/// position it returns: an echo of the user's own text is dropped; a part whose
/// key is stored replaces the part there (a text part only where it brings
/// text); a repeat of a part already shown changes nothing; a part that
/// describes the same thing as one shown replaces the last such; text that
/// matches no key replaces the last part of its kind; anything else is appended.
pub open spec fn merged(
    s: ChatState,
    t: ChatState,
    part_id: Option<String>,
    part: Part,
    r: Option<usize>,
) -> bool {
    let key = keyed_id(part_id, part);
    if echoes(s.messages@, part) {
        r is None && t == s
    } else {
        &&& t.messages == s.messages
        &&& t.queued == s.queued
        &&& match stored_slot(s, key) {
            Some(i) => {
                &&& r == Some(i as usize)
                &&& t.partial_part_indices == s.partial_part_indices
                &&& match text_kind(part) {
                    Some(kind) => {
                        &&& t.latest_text_part_index == Some(i as usize)
                        &&& if stream_text_of(part).len() > 0 {
                            &&& t.partial_parts@ == s.partial_parts@.update(i, t.partial_parts@[i])
                            &&& is_text_part(t.partial_parts@[i], kind, stream_text_of(part))
                            &&& texts_stored(
                                s.partial_texts@,
                                t.partial_texts@,
                                key->Some_0@,
                                stream_text_of(part),
                            )
                        } else {
                            t.partial_parts == s.partial_parts && t.partial_texts == s.partial_texts
                        }
                    },
                    None => {
                        &&& t.partial_parts@ == s.partial_parts@.update(i, part)
                        &&& t.partial_texts == s.partial_texts
                        &&& t.latest_text_part_index == s.latest_text_part_index
                    },
                }
            },
            None => match last_where(s.partial_parts@, equiv_to(part)) {
                Some(i) => {
                    &&& r == Some(i as usize)
                    &&& t.partial_parts == s.partial_parts
                    &&& t.partial_texts == s.partial_texts
                    &&& t.partial_part_indices == s.partial_part_indices
                    &&& t.latest_text_part_index == if text_kind(part) is Some {
                        Some(i as usize)
                    } else {
                        s.latest_text_part_index
                    }
                },
                None => match last_where(s.partial_parts@, same_as(part)) {
                    Some(i) => {
                        &&& r == Some(i as usize)
                        &&& t.partial_parts@ == s.partial_parts@.update(i, part)
                        &&& index_stored(
                            s.partial_part_indices@,
                            t.partial_part_indices@,
                            key,
                            i,
                        )
                        &&& t.partial_texts == s.partial_texts
                        &&& t.latest_text_part_index == s.latest_text_part_index
                    },
                    None => match text_kind(part) {
                        Some(kind) => match last_where(s.partial_parts@, of_kind(kind)) {
                            Some(i) => {
                                &&& r == Some(i as usize)
                                &&& t.latest_text_part_index == Some(i as usize)
                                &&& t.partial_texts == s.partial_texts
                                &&& t.partial_part_indices == s.partial_part_indices
                                &&& if stream_text_of(part).len() > 0 {
                                    &&& t.partial_parts@ == s.partial_parts@.update(
                                        i,
                                        t.partial_parts@[i],
                                    )
                                    &&& is_text_part(t.partial_parts@[i], kind, stream_text_of(part))
                                } else {
                                    t.partial_parts == s.partial_parts
                                }
                            },
                            None => pushed(s, t, key, part, r),
                        },
                        None => pushed(s, t, key, part, r),
                    },
                },
            },
        }
    }
}

/// The position a delta for `key` goes to: the stored one, else the latest
/// text part, where either is still in range.
pub open spec fn delta_slot(s: ChatState, key: Seq<char>) -> Option<int> {
    let n = s.partial_parts@.len();
    match lookup(s.partial_part_indices@, key) {
        Some(i) if i < n => Some(i as int),
        _ => match s.latest_text_part_index {
            Some(l) if l < n => Some(l as int),
            _ => None,
        },
    }
}

/// What streaming `delta` for the key `part_id` does to the state `s`, giving
/// `t`: the text accumulated under the key grows by `delta`, and the part stored
/// under the key, else the latest text part, else a new text part, shows it.
pub open spec fn delta_merged(s: ChatState, t: ChatState, part_id: String, delta: String) -> bool {
        let text = accumulated(s, part_id@) + delta@;
        let i = match delta_slot(s, part_id@) {
            Some(i) => i,
            None => s.partial_parts@.len() as int,
        };
        &&& texts_stored(s.partial_texts@, t.partial_texts@, part_id@, text)
        &&& index_stored(s.partial_part_indices@, t.partial_part_indices@, Some(part_id), i)
        &&& t.latest_text_part_index == Some(i as usize)
        &&& t.messages == s.messages
        &&& t.queued == s.queued
        &&& match delta_slot(s, part_id@) {
            Some(i) => {
                &&& t.partial_parts@ == s.partial_parts@.update(i, t.partial_parts@[i])
                &&& is_text_part(
                    t.partial_parts@[i],
                    match text_kind(s.partial_parts@[i]) {
                        Some(k) => k,
                        None => StreamTextKind::Text,
                    },
                    text,
                )
            },
            None => {
                &&& t.partial_parts@ == s.partial_parts@.push(t.partial_parts@.last())
                &&& is_text_part(t.partial_parts@.last(), StreamTextKind::Text, text)
            },
        }
}

/// `t` is the streaming state `s` with the response that was streamed stored as
/// the message `id` of the session `sid`, and every running tool that reported
/// output completed.
pub open spec fn response_finished(s: ChatState, t: ChatState, id: Seq<char>, sid: Seq<char>) -> bool {
    let old_msgs = s.messages@;
    let msgs = t.messages@;
    &&& t.partial_parts@.len() == 0
    &&& t.partial_texts@.len() == 0
    &&& t.partial_part_indices@.len() == 0
    &&& t.latest_text_part_index is None
    &&& t.queued == s.queued
    &&& match first_where(old_msgs, has_id(id)) {
        Some(j) => {
            &&& msgs.len() == old_msgs.len()
            &&& forall|k: int|
                0 <= k < msgs.len() && k != j ==> message_completes(
                    #[trigger] old_msgs[k],
                    msgs[k],
                )
            &&& msgs[j].id == old_msgs[j].id
            &&& opt_view(msgs[j].session_id) == Some(sid)
            &&& msgs[j].role == MessageRole::Assistant
            &&& completes_all(
                if s.partial_parts@.len() > 0 {
                    s.partial_parts@
                } else {
                    old_msgs[j].parts@
                },
                msgs[j].parts@,
            )
        },
        None => {
            &&& msgs.len() == old_msgs.len() + 1
            &&& forall|k: int|
                0 <= k < old_msgs.len() ==> message_completes(#[trigger] old_msgs[k], msgs[k])
            &&& opt_view(msgs.last().id) == Some(id)
            &&& opt_view(msgs.last().session_id) == Some(sid)
            &&& msgs.last().role == MessageRole::Assistant
            &&& completes_all(s.partial_parts@, msgs.last().parts@)
        },
    }
}

/// The transcript: the messages shown, the response being streamed, and the
/// messages waiting to be sent.
#[derive(Debug, Clone)]
pub struct ChatState {
    pub partial_parts: Vec<Part>,
    /// The text streamed so far, by part key.
    pub partial_texts: Vec<(String, String)>,
    /// The position in `partial_parts` of each keyed part.
    pub partial_part_indices: Vec<(String, usize)>,
    pub latest_text_part_index: Option<usize>,
    pub messages: Vec<LoadedMessage>,
    pub queued: Vec<LoadedMessage>,
}

impl ChatState {
    /// Each partial store holds a part id once, in key order.
    pub open spec fn stores_ordered(&self) -> bool {
        &&& keys_ordered(self.partial_texts@)
        &&& keys_ordered(self.partial_part_indices@)
    }

    /// Nothing is being streamed.
    pub open spec fn stream_cleared(self) -> bool {
        &&& self.partial_parts@.len() == 0
        &&& self.partial_texts@.len() == 0
        &&& self.partial_part_indices@.len() == 0
        &&& self.latest_text_part_index is None
    }

    /// An empty transcript.
    pub fn new() -> (r: ChatState)
        ensures
            r.stream_cleared(),
            r.messages@.len() == 0,
            r.queued@.len() == 0,
    {
        ChatState {
            partial_parts: Vec::new(),
            partial_texts: Vec::new(),
            partial_part_indices: Vec::new(),
            latest_text_part_index: None,
            messages: Vec::new(),
            queued: Vec::new(),
        }
    }

    /// The parts of the response being streamed.
    pub fn partial_parts(&self) -> (r: &[Part])
        ensures
            r@ == self.partial_parts@,
    {
        self.partial_parts.as_slice()
    }

    /// The messages shown.
    pub fn messages(&self) -> (r: &[LoadedMessage])
        ensures
            r@ == self.messages@,
    {
        self.messages.as_slice()
    }

    /// The messages waiting to be sent.
    pub fn queued_messages(&self) -> (r: &[LoadedMessage])
        ensures
            r@ == self.queued@,
    {
        self.queued.as_slice()
    }

    /// Forgets the response being streamed.
    pub fn clear_partial_stream(&mut self)
        ensures
            final(self).stream_cleared(),
            final(self).messages == old(self).messages,
            final(self).queued == old(self).queued,
    {
        self.partial_parts.clear();
        self.partial_texts.clear();
        self.partial_part_indices.clear();
        self.latest_text_part_index = None;
    }

    /// Forgets the messages shown.
    pub fn clear_messages(&mut self)
        ensures
            final(self).messages@.len() == 0,
            *final(self) == (ChatState { messages: final(self).messages, ..*old(self) }),
    {
        self.messages.clear();
    }

    /// Shows `messages` in place of the messages shown.
    pub fn replace_messages(&mut self, messages: Vec<LoadedMessage>)
        ensures
            *final(self) == (ChatState { messages, ..*old(self) }),
    {
        self.messages = messages;
    }

    /// Shows one more message.
    pub fn push_message(&mut self, message: LoadedMessage)
        ensures
            final(self).messages@ == old(self).messages@.push(message),
            final(self).partial_parts == old(self).partial_parts,
            final(self).partial_texts == old(self).partial_texts,
            final(self).partial_part_indices == old(self).partial_part_indices,
            final(self).latest_text_part_index == old(self).latest_text_part_index,
            final(self).queued == old(self).queued,
    {
        self.messages.push(message);
    }

    /// Puts a message in line to be sent.
    pub fn queue_message(&mut self, message: LoadedMessage)
        ensures
            *final(self) == (ChatState { queued: final(self).queued, ..*old(self) }),
            final(self).queued@ == old(self).queued@.push(message),
    {
        self.queued.push(message);
    }

    /// Takes the first message waiting to be sent.
    pub fn pop_queued_message(&mut self) -> (r: Option<LoadedMessage>)
        ensures
            *final(self) == (ChatState { queued: final(self).queued, ..*old(self) }),
            old(self).queued@.len() == 0 ==> r is None && final(self).queued@.len() == 0,
            old(self).queued@.len() > 0 ==> r == Some(old(self).queued@[0])
                && final(self).queued@ == old(self).queued@.drop_first(),
    {
        if self.queued.len() == 0 {
            None
        } else {
            Some(self.queued.remove(0))
        }
    }

    /// Forgets the messages waiting to be sent.
    pub fn clear_queued_messages(&mut self)
        ensures
            *final(self) == (ChatState { queued: final(self).queued, ..*old(self) }),
            final(self).queued@.len() == 0,
    {
        self.queued.clear();
    }

    /// Whether a response is being streamed.
    pub fn has_partial_response(&self) -> (r: bool)
        ensures
            r == (self.partial_parts@.len() > 0),
    {
        self.partial_parts.len() > 0
    }

    /// Stores what was streamed so far as a message of the given session.
    pub fn flush_partial_response(&mut self, active_session_id: Option<String>)
        ensures
            final(self).stream_cleared(),
            final(self).queued == old(self).queued,
            old(self).partial_parts@.len() == 0 ==> final(self).messages == old(self).messages,
            old(self).partial_parts@.len() > 0 ==> final(self).messages@ == old(
                self,
            ).messages@.push(
                LoadedMessage {
                    id: None,
                    session_id: active_session_id,
                    role: MessageRole::Assistant,
                    parts: old(self).partial_parts,
                },
            ),
    {
        if self.partial_parts.len() == 0 {
            self.clear_partial_stream();
            return;
        }
        let mut parts: Vec<Part> = Vec::new();
        core::mem::swap(&mut parts, &mut self.partial_parts);
        self.messages.push(
            LoadedMessage {
                id: None,
                session_id: active_session_id,
                role: MessageRole::Assistant,
                parts,
            },
        );
        self.clear_partial_stream();
    }

    /// Completes, everywhere, the running tools that reported output.
    pub fn complete_running_tools_with_output(&mut self)
        ensures
            completes_all(old(self).partial_parts@, final(self).partial_parts@),
            final(self).messages@.len() == old(self).messages@.len(),
            forall|k: int|
                0 <= k < old(self).messages@.len() ==> message_completes(
                    #[trigger] old(self).messages@[k],
                    final(self).messages@[k],
                ),
            final(self).partial_texts == old(self).partial_texts,
            final(self).partial_part_indices == old(self).partial_part_indices,
            final(self).latest_text_part_index == old(self).latest_text_part_index,
            final(self).queued == old(self).queued,
    {
        complete_running_tools_in(&mut self.partial_parts);
        let ghost before = self.messages@;
        let mut i: usize = 0;
        while i < self.messages.len()
            invariant
                self.messages@.len() == before.len(),
                i <= before.len(),
                forall|k: int|
                    0 <= k < i ==> message_completes(#[trigger] before[k], self.messages@[k]),
                forall|k: int| i <= k < before.len() ==> #[trigger] self.messages@[k] == before[k],
                self.partial_texts == old(self).partial_texts,
                self.partial_part_indices == old(self).partial_part_indices,
                self.latest_text_part_index == old(self).latest_text_part_index,
                self.queued == old(self).queued,
                completes_all(old(self).partial_parts@, self.partial_parts@),
            decreases before.len() - i,
        {
            complete_running_tools_in(&mut self.messages[i].parts);
            i = i + 1;
        }
    }

    /// The first message with the server id `message_id`.
    pub fn find_message_index(&self, message_id: &str) -> (r: Option<usize>)
        ensures
            match r {
                Some(j) => j < self.messages@.len() && first_where(
                    self.messages@,
                    has_id(message_id@),
                ) == Some(j as int),
                None => first_where(self.messages@, has_id(message_id@)) is None,
            },
    {
        let ghost f = has_id(message_id@);
        let mut i: usize = 0;
        while i < self.messages.len()
            invariant
                i <= self.messages@.len(),
                f == has_id(message_id@),
                forall|k: int| 0 <= k < i ==> !f(#[trigger] self.messages@[k]),
            decreases self.messages@.len() - i,
        {
            let found = match &self.messages[i].id {
                Some(x) => str_eq(x.as_str(), message_id),
                None => false,
            };
            if found {
                proof {
                    lemma_first_where(self.messages@, f, i as int);
                }
                return Some(i);
            }
            i = i + 1;
        }
        proof {
            lemma_first_where(self.messages@, f, i as int);
        }
        None
    }

    /// The first user message that the server has not acknowledged yet.
    fn find_optimistic_user_message(&self) -> (r: Option<usize>)
        ensures
            match r {
                Some(j) => j < self.messages@.len() && first_where(
                    self.messages@,
                    is_optimistic_user(),
                ) == Some(j as int),
                None => first_where(self.messages@, is_optimistic_user()) is None,
            },
    {
        let ghost f = is_optimistic_user();
        let mut i: usize = 0;
        while i < self.messages.len()
            invariant
                i <= self.messages@.len(),
                f == is_optimistic_user(),
                forall|k: int| 0 <= k < i ==> !f(#[trigger] self.messages@[k]),
            decreases self.messages@.len() - i,
        {
            if self.messages[i].id.is_none() && self.messages[i].role == MessageRole::User {
                proof {
                    lemma_first_where(self.messages@, f, i as int);
                }
                return Some(i);
            }
            i = i + 1;
        }
        proof {
            lemma_first_where(self.messages@, f, i as int);
        }
        None
    }

    /// Stores the streamed response as the message `message_id` of the session
    /// `session_id`, completes the running tools that reported output, and
    /// clears the stream.
    pub fn finish_streaming_response(&mut self, message_id: &str, session_id: &str)
        ensures
            response_finished(*old(self), *final(self), message_id@, session_id@),
    {
        let mut parts: Vec<Part> = Vec::new();
        core::mem::swap(&mut parts, &mut self.partial_parts);
        let found = self.find_message_index(message_id);
        match found {
            Some(j) => {
                self.messages[j].session_id = Some(session_id.to_owned());
                self.messages[j].role = MessageRole::Assistant;
                if parts.len() > 0 {
                    self.messages[j].parts = parts;
                }
            },
            None => {
                self.messages.push(
                    LoadedMessage {
                        id: Some(message_id.to_owned()),
                        session_id: Some(session_id.to_owned()),
                        role: MessageRole::Assistant,
                        parts,
                    },
                );
            },
        }
        let ghost mid = self.messages@;
        self.complete_running_tools_with_output();
        proof {
            let msgs = self.messages@;
            let before = old(self).messages@;
            match found {
                Some(j) => {
                    assert(mid.len() == before.len());
                    assert forall|k: int|
                        0 <= k < msgs.len() && k != j implies message_completes(
                        #[trigger] before[k],
                        msgs[k],
                    ) by {
                        assert(mid[k] == before[k]);
                    }
                    assert(message_completes(mid[j as int], msgs[j as int]));
                },
                None => {
                    assert forall|k: int|
                        0 <= k < before.len() implies message_completes(
                        #[trigger] before[k],
                        msgs[k],
                    ) by {
                        assert(mid[k] == before[k]);
                    }
                    assert(message_completes(mid[before.len() as int], msgs[before.len() as int]));
                },
            }
        }
        self.clear_partial_stream();
    }

    /// What a message update from the server does to `s`, giving `t` and the
    /// result `r` (see `apply_message_updated`).
    pub open spec fn message_applied(s: ChatState, t: ChatState, message: Message, r: bool) -> bool {
        &&& (message.role == MessageRole::User ==> {
            &&& !r
            &&& t == (ChatState { messages: t.messages, ..s })
            &&& match first_where(s.messages@, has_id(message.id@)) {
                Some(j) => t.messages@ == s.messages@.update(
                    j,
                    LoadedMessage {
                        session_id: Some(message.session_id),
                        role: MessageRole::User,
                        ..s.messages@[j]
                    },
                ),
                None => match first_where(s.messages@, is_optimistic_user()) {
                    Some(j) => t.messages@ == s.messages@.update(
                        j,
                        LoadedMessage {
                            id: Some(message.id),
                            session_id: Some(message.session_id),
                            ..s.messages@[j]
                        },
                    ),
                    None => t.messages == s.messages,
                },
            }
        })
        &&& (message.role == MessageRole::Assistant ==> {
            &&& r == message.completed is Some
            &&& response_finished(
                s,
                t,
                message.id@,
                message.session_id@,
            )
        })
    }

    /// Applies a message update from the server: a user message gets its id
    /// and session, an assistant message ends the streamed response. Returns
    /// whether the message is complete (never for a user message).
    pub fn apply_message_updated(&mut self, message: Message) -> (r: bool)
        ensures
            Self::message_applied(*old(self), *final(self), message, r),
    {
        match message.role {
            MessageRole::User => {
                let ghost m = message;
                match self.find_message_index(message.id.as_str()) {
                    Some(j) => {
                        self.messages[j].session_id = Some(message.session_id);
                        self.messages[j].role = MessageRole::User;
                        assert(self.messages@ =~= old(self).messages@.update(
                            j as int,
                            LoadedMessage {
                                session_id: Some(m.session_id),
                                role: MessageRole::User,
                                ..old(self).messages@[j as int]
                            },
                        ));
                    },
                    None => match self.find_optimistic_user_message() {
                        Some(j) => {
                            self.messages[j].id = Some(message.id);
                            self.messages[j].session_id = Some(message.session_id);
                            assert(self.messages@ =~= old(self).messages@.update(
                                j as int,
                                LoadedMessage {
                                    id: Some(m.id),
                                    session_id: Some(m.session_id),
                                    ..old(self).messages@[j as int]
                                },
                            ));
                        },
                        None => {},
                    },
                }
                false
            },
            MessageRole::Assistant => {
                let completed = message.completed.is_some();
                self.finish_streaming_response(message.id.as_str(), message.session_id.as_str());
                completed
            },
        }
    }

    /// Drops every message with the server id `message_id`.
    pub fn remove_message(&mut self, message_id: &str)
        ensures
            *final(self) == (ChatState { messages: final(self).messages, ..*old(self) }),
            final(self).messages@ == without_id(old(self).messages@, message_id@),
    {
        let mut rest: Vec<LoadedMessage> = Vec::new();
        core::mem::swap(&mut rest, &mut self.messages);
        let ghost orig = rest@;
        let ghost mut n: int = 0;
        assert(self.messages@ =~= without_id(orig.subrange(0, 0), message_id@));
        while rest.len() > 0
            invariant
                0 <= n <= orig.len(),
                rest@ == orig.subrange(n, orig.len() as int),
                self.messages@ == without_id(orig.subrange(0, n), message_id@),
                self.partial_parts == old(self).partial_parts,
                self.partial_texts == old(self).partial_texts,
                self.partial_part_indices == old(self).partial_part_indices,
                self.latest_text_part_index == old(self).latest_text_part_index,
                self.queued == old(self).queued,
            decreases rest@.len(),
        {
            let m = rest.remove(0);
            proof {
                let p = orig.subrange(0, n + 1);
                assert(p.drop_last() =~= orig.subrange(0, n));
                assert(p.last() == m);
                n = n + 1;
                assert(rest@ =~= orig.subrange(n, orig.len() as int));
            }
            let matches_id = match &m.id {
                Some(x) => str_eq(x.as_str(), message_id),
                None => false,
            };
            if !matches_id {
                self.messages.push(m);
            }
        }
        assert(orig.subrange(0, n) =~= orig);
    }

    /// Whether `part` repeats the single text of the last message, a user's.
    fn is_echoed_user_text(&self, part: &Part) -> (r: bool)
        ensures
            r == echoes(self.messages@, *part),
    {
        match part {
            Part::Text(incoming) => {
                let n = self.messages.len();
                if n == 0 {
                    return false;
                }
                let last = &self.messages[n - 1];
                if last.role != MessageRole::User || last.parts.len() != 1 {
                    return false;
                }
                match &last.parts[0] {
                    Part::Text(existing) => str_eq(existing.text.as_str(), incoming.text.as_str()),
                    _ => false,
                }
            },
            _ => false,
        }
    }

    /// The stored position of the part with `key`, where it is still in range.
    fn stored_index(&self, key: &Option<String>) -> (r: Option<usize>)
        ensures
            match r {
                Some(i) => stored_slot(*self, *key) == Some(i as int),
                None => stored_slot(*self, *key) is None,
            },
    {
        match key {
            Some(k) => match find_key(&self.partial_part_indices, k.as_str()) {
                Some(j) => {
                    let i = self.partial_part_indices[j].1;
                    if i < self.partial_parts.len() {
                        Some(i)
                    } else {
                        None
                    }
                },
                None => None,
            },
            None => None,
        }
    }

    /// The last streamed part that shows the same content as `part`.
    fn last_equivalent(&self, part: &Part) -> (r: Option<usize>)
        ensures
            match r {
                Some(i) => i < self.partial_parts@.len() && last_where(
                    self.partial_parts@,
                    equiv_to(*part),
                ) == Some(i as int),
                None => last_where(self.partial_parts@, equiv_to(*part)) is None,
            },
    {
        let ghost f = equiv_to(*part);
        let mut i: usize = self.partial_parts.len();
        while i > 0
            invariant
                i <= self.partial_parts@.len(),
                f == equiv_to(*part),
                forall|j: int| i <= j < self.partial_parts@.len() ==> !f(#[trigger] self.partial_parts@[j]),
            decreases i,
        {
            if parts_equivalent(&self.partial_parts[i - 1], part) {
                proof {
                    lemma_last_where(self.partial_parts@, f, i - 1);
                }
                assert(i - 1 < self.partial_parts@.len());
                return Some(i - 1);
            }
            i = i - 1;
        }
        proof {
            lemma_last_where(self.partial_parts@, f, -1);
        }
        None
    }

    /// The last streamed part that describes the same thing as `part`.
    fn last_same_entity(&self, part: &Part) -> (r: Option<usize>)
        ensures
            match r {
                Some(i) => i < self.partial_parts@.len() && last_where(
                    self.partial_parts@,
                    same_as(*part),
                ) == Some(i as int),
                None => last_where(self.partial_parts@, same_as(*part)) is None,
            },
    {
        let ghost f = same_as(*part);
        let mut i: usize = self.partial_parts.len();
        while i > 0
            invariant
                i <= self.partial_parts@.len(),
                f == same_as(*part),
                forall|j: int| i <= j < self.partial_parts@.len() ==> !f(#[trigger] self.partial_parts@[j]),
            decreases i,
        {
            if parts_describe_same_entity(&self.partial_parts[i - 1], part) {
                proof {
                    lemma_last_where(self.partial_parts@, f, i - 1);
                }
                assert(i - 1 < self.partial_parts@.len());
                return Some(i - 1);
            }
            i = i - 1;
        }
        proof {
            lemma_last_where(self.partial_parts@, f, -1);
        }
        None
    }

    /// The last streamed part of the text kind `kind`.
    fn last_of_kind(&self, kind: StreamTextKind) -> (r: Option<usize>)
        ensures
            match r {
                Some(i) => i < self.partial_parts@.len() && last_where(
                    self.partial_parts@,
                    of_kind(kind),
                ) == Some(i as int),
                None => last_where(self.partial_parts@, of_kind(kind)) is None,
            },
    {
        let ghost f = of_kind(kind);
        let mut i: usize = self.partial_parts.len();
        while i > 0
            invariant
                i <= self.partial_parts@.len(),
                f == of_kind(kind),
                forall|j: int| i <= j < self.partial_parts@.len() ==> !f(#[trigger] self.partial_parts@[j]),
            decreases i,
        {
            if stream_text_kind(&self.partial_parts[i - 1]) == Some(kind) {
                proof {
                    lemma_last_where(self.partial_parts@, f, i - 1);
                }
                assert(i - 1 < self.partial_parts@.len());
                return Some(i - 1);
            }
            i = i - 1;
        }
        proof {
            lemma_last_where(self.partial_parts@, f, -1);
        }
        None
    }

    /// Stores `index` under `key`, where there is a key.
    fn store_index(&mut self, key: Option<String>, index: usize)
        ensures
            index_stored(
                old(self).partial_part_indices@,
                final(self).partial_part_indices@,
                key,
                index as int,
            ),
            *final(self) == (ChatState {
                partial_part_indices: final(self).partial_part_indices,
                ..*old(self)
            }),
            old(self).stores_ordered() ==> final(self).stores_ordered(),
    {
        match key {
            Some(k) => insert_entry(&mut self.partial_part_indices, k, index),
            None => {},
        }
    }

    /// Merges a streamed part into the response, keyed by `part_id` or else by
    /// the part's own id, and returns where it now stands (see `merged`).
    pub fn merge_stream_part(&mut self, part_id: Option<String>, part: Part) -> (r: Option<usize>)
        requires
            old(self).partial_parts@.len() < usize::MAX,
        ensures
            merged(*old(self), *final(self), part_id, part, r),
            final(self).partial_parts@.len() <= old(self).partial_parts@.len() + 1,
            old(self).stores_ordered() ==> final(self).stores_ordered(),
    {
        if self.is_echoed_user_text(&part) {
            return None;
        }
        let key: Option<String> = match part_id {
            Some(k) => Some(k),
            None => part_identity_id(&part),
        };
        match self.stored_index(&key) {
            Some(i) => {
                match stream_text_kind(&part) {
                    Some(kind) => {
                        let incoming = stream_text(&part);
                        if !incoming.as_str().is_empty() {
                            let k = match &key {
                                Some(k) => k.clone(),
                                None => String::new(),
                            };
                            insert_entry(&mut self.partial_texts, k, incoming.clone());
                            set_stream_text(&mut self.partial_parts[i], incoming, kind);
                        }
                        self.latest_text_part_index = Some(i);
                    },
                    None => {
                        self.partial_parts[i] = part;
                    },
                }
                return Some(i);
            },
            None => {},
        }
        match self.last_equivalent(&part) {
            Some(i) => {
                if stream_text_kind(&part).is_some() {
                    self.latest_text_part_index = Some(i);
                }
                return Some(i);
            },
            None => {},
        }
        match self.last_same_entity(&part) {
            Some(i) => {
                self.partial_parts[i] = part;
                self.store_index(key, i);
                return Some(i);
            },
            None => {},
        }
        match stream_text_kind(&part) {
            Some(kind) => match self.last_of_kind(kind) {
                Some(i) => {
                    let incoming = stream_text(&part);
                    if !incoming.as_str().is_empty() {
                        set_stream_text(&mut self.partial_parts[i], incoming, kind);
                    }
                    self.latest_text_part_index = Some(i);
                    return Some(i);
                },
                None => {},
            },
            None => {},
        }
        let is_text = stream_text_kind(&part).is_some();
        self.partial_parts.push(part);
        let index = self.partial_parts.len() - 1;
        self.store_index(key, index);
        if is_text {
            self.latest_text_part_index = Some(index);
        }
        Some(index)
    }

    /// Appends a streamed piece of text to the part keyed `part_id` (see
    /// `delta_merged`).
    pub fn merge_stream_delta(&mut self, part_id: String, delta: String)
        requires
            old(self).partial_parts@.len() < usize::MAX,
        ensures
            delta_merged(*old(self), *final(self), part_id, delta),
            final(self).partial_parts@.len() <= old(self).partial_parts@.len() + 1,
            old(self).stores_ordered() ==> final(self).stores_ordered(),
    {
        let mut text = match find_key(&self.partial_texts, part_id.as_str()) {
            Some(j) => self.partial_texts[j].1.clone(),
            None => String::new(),
        };
        text.append(delta.as_str());
        insert_entry(&mut self.partial_texts, part_id.clone(), text.clone());
        let n = self.partial_parts.len();
        let stored: Option<usize> = match find_key(&self.partial_part_indices, part_id.as_str()) {
            Some(j) => {
                let i = self.partial_part_indices[j].1;
                if i < n {
                    Some(i)
                } else {
                    None
                }
            },
            None => None,
        };
        let slot: Option<usize> = match stored {
            Some(i) => Some(i),
            None => match self.latest_text_part_index {
                Some(l) => if l < n {
                    Some(l)
                } else {
                    None
                },
                None => None,
            },
        };
        let (index, kind) = match slot {
            Some(i) => {
                let kind = match stream_text_kind(&self.partial_parts[i]) {
                    Some(k) => k,
                    None => StreamTextKind::Text,
                };
                (i, kind)
            },
            None => {
                self.partial_parts.push(empty_text_part());
                (n, StreamTextKind::Text)
            },
        };
        set_stream_text(&mut self.partial_parts[index], text, kind);
        insert_entry(&mut self.partial_part_indices, part_id, index);
        self.latest_text_part_index = Some(index);
        proof {
            if slot is None {
                assert(self.partial_parts@ =~= old(self).partial_parts@.push(
                    self.partial_parts@.last(),
                ));
            }
        }
    }

    /// What dropping the streamed part keyed `part_id` does to `s`, giving `t`.
    pub open spec fn stream_part_removed(s: ChatState, t: ChatState, part_id: Seq<char>) -> bool {
        &&& (t.partial_parts@.len() <= s.partial_parts@.len())
        &&& ({
            &&& forall|k: Seq<char>|
                #[trigger] lookup(t.partial_texts@, k) == if k == part_id {
                    None
                } else {
                    lookup(s.partial_texts@, k)
                }
            &&& t.messages == s.messages
            &&& t.queued == s.queued
            &&& match lookup(s.partial_part_indices@, part_id) {
                Some(index) => {
                    &&& lookup(t.partial_part_indices@, part_id) is None
                    &&& if index < s.partial_parts@.len() {
                        &&& t.partial_parts@ == s.partial_parts@.remove(index as int)
                        &&& forall|k: Seq<char>|
                            k != part_id ==> #[trigger] lookup(t.partial_part_indices@, k)
                                == match lookup(s.partial_part_indices@, k) {
                                Some(x) => Some(shifted(x, index)),
                                None => None::<usize>,
                            }
                        &&& t.latest_text_part_index == match s.latest_text_part_index {
                            Some(l) => if l == index {
                                None
                            } else {
                                Some(shifted(l, index))
                            },
                            None => None,
                        }
                    } else {
                        &&& t.partial_parts == s.partial_parts
                        &&& forall|k: Seq<char>|
                            k != part_id ==> #[trigger] lookup(t.partial_part_indices@, k)
                                == lookup(s.partial_part_indices@, k)
                        &&& t.latest_text_part_index == s.latest_text_part_index
                    }
                },
                None => {
                    &&& t.partial_parts == s.partial_parts
                    &&& forall|k: Seq<char>|
                        #[trigger] lookup(t.partial_part_indices@, k) == lookup(
                            s.partial_part_indices@,
                            k,
                        )
                    &&& t.latest_text_part_index == s.latest_text_part_index
                },
            }
        })
    }

    /// Drops the streamed part keyed `part_id` and its text; the stored
    /// positions behind it move up by one.
    pub fn remove_stream_part(&mut self, part_id: &str)
        ensures
            Self::stream_part_removed(*old(self), *final(self), part_id@),
            old(self).stores_ordered() ==> final(self).stores_ordered(),
    {
        remove_key(&mut self.partial_texts, part_id);
        let found = find_key(&self.partial_part_indices, part_id);
        let index = match found {
            Some(j) => self.partial_part_indices[j].1,
            None => {
                return;
            },
        };
        remove_key(&mut self.partial_part_indices, part_id);
        if index >= self.partial_parts.len() {
            return;
        }
        self.partial_parts.remove(index);
        shift_indices_above(&mut self.partial_part_indices, index);
        self.latest_text_part_index = match self.latest_text_part_index {
            Some(latest) => if latest == index {
                None
            } else if latest > index {
                Some(latest - 1)
            } else {
                Some(latest)
            },
            None => None,
        };
    }
}

/// The messages of a loaded session, in order.
pub fn loaded_messages_from_details(details: Vec<MessageDetail>) -> (r: Vec<LoadedMessage>)
    ensures
        r@.len() == details@.len(),
        forall|k: int|
            0 <= k < details@.len() ==> #[trigger] r@[k] == (LoadedMessage {
                id: Some(details@[k].info.id),
                session_id: Some(details@[k].info.session_id),
                role: details@[k].info.role,
                parts: details@[k].parts,
            }),
{
    let mut rest = details;
    let ghost orig = rest@;
    let mut out: Vec<LoadedMessage> = Vec::new();
    while rest.len() > 0
        invariant
            out@.len() + rest@.len() == orig.len(),
            rest@ == orig.subrange(out@.len() as int, orig.len() as int),
            forall|k: int|
                0 <= k < out@.len() ==> #[trigger] out@[k] == (LoadedMessage {
                    id: Some(orig[k].info.id),
                    session_id: Some(orig[k].info.session_id),
                    role: orig[k].info.role,
                    parts: orig[k].parts,
                }),
        decreases rest@.len(),
    {
        let d = rest.remove(0);
        let MessageDetail { info, parts } = d;
        let Message { id, session_id, role, .. } = info;
        out.push(LoadedMessage { id: Some(id), session_id: Some(session_id), role, parts });
        assert(rest@ =~= orig.subrange(out@.len() as int, orig.len() as int));
    }
    out
}

impl Default for ChatState {
    fn default() -> (r: ChatState)
        ensures
            r.stream_cleared(),
            r.messages@.len() == 0,
            r.queued@.len() == 0,
    {
        ChatState::new()
    }
}

/// Streamed deltas for one key accumulate: after two of them the key holds
/// what it held before followed by both, and the latest text part shows it.
pub proof fn law_deltas_accumulate(
    s0: ChatState,
    s1: ChatState,
    s2: ChatState,
    key: String,
    d1: String,
    d2: String,
)
    requires
        delta_merged(s0, s1, key, d1),
        delta_merged(s1, s2, key, d2),
    ensures
        accumulated(s2, key@) == accumulated(s0, key@) + d1@ + d2@,
        s2.latest_text_part_index matches Some(i) && i < s2.partial_parts@.len()
            && stream_text_of(s2.partial_parts@[i as int]) == accumulated(s2, key@),
{
    assert(opt_view(lookup(s1.partial_texts@, key@)) == Some(accumulated(s0, key@) + d1@));
    assert(opt_view(lookup(s2.partial_texts@, key@)) == Some(accumulated(s1, key@) + d2@));
    let i = match delta_slot(s1, key@) {
        Some(i) => i,
        None => s1.partial_parts@.len() as int,
    };
    if delta_slot(s1, key@) is Some {
        assert(s2.partial_parts@.len() == s1.partial_parts@.len());
    } else {
        assert(s2.partial_parts@.len() == s1.partial_parts@.len() + 1);
        assert(s2.partial_parts@[i] == s2.partial_parts@.last());
    }
}

/// `last_where` finds something wherever some element passes the test.
pub proof fn lemma_last_where_some(s: Seq<Part>, f: spec_fn(Part) -> bool, j: int)
    requires
        0 <= j < s.len(),
        f(s[j]),
    ensures
        last_where(s, f) matches Some(i) && 0 <= i < s.len(),
    decreases s.len(),
{
    if !f(s.last()) {
        assert(j < s.len() - 1);
        assert(s.drop_last()[j] == s[j]);
        lemma_last_where_some(s.drop_last(), f, j);
    }
}

/// Every part shows the same content as itself, or describes the same thing
/// as itself.
pub proof fn lemma_part_matches_itself(p: Part)
    ensures
        parts_equiv(p, p) || same_entity(p, p),
{
}

/// Merging a streamed part whose position is found (by key, content,
/// identity or kind) never appends.
pub proof fn lemma_found_part_not_appended(
    s: ChatState,
    t: ChatState,
    part_id: Option<String>,
    part: Part,
    r: Option<usize>,
    j: int,
)
    requires
        merged(s, t, part_id, part, r),
        !echoes(s.messages@, part),
        0 <= j < s.partial_parts@.len(),
        parts_equiv(s.partial_parts@[j], part) || same_entity(s.partial_parts@[j], part),
    ensures
        t.partial_parts@.len() == s.partial_parts@.len(),
{
    if parts_equiv(s.partial_parts@[j], part) {
        lemma_last_where_some(s.partial_parts@, equiv_to(part), j);
    } else {
        lemma_last_where_some(s.partial_parts@, same_as(part), j);
    }
}

/// A repeated update adds nothing: merging the same streamed part twice in a
/// row leaves as many parts as the first merge did.
pub proof fn law_repeated_part_adds_nothing(
    s0: ChatState,
    s1: ChatState,
    s2: ChatState,
    part_id: Option<String>,
    part: Part,
    r1: Option<usize>,
    r2: Option<usize>,
)
    requires
        merged(s0, s1, part_id, part, r1),
        merged(s1, s2, part_id, part, r2),
    ensures
        s2.partial_parts@.len() == s1.partial_parts@.len(),
{
    if echoes(s0.messages@, part) {
        return;
    }
    assert(s1.messages == s0.messages);
    let key = keyed_id(part_id, part);
    lemma_part_matches_itself(part);
    match stored_slot(s0, key) {
        Some(i) => {
            assert(stored_slot(s1, key) == Some(i));
        },
        None => match last_where(s0.partial_parts@, equiv_to(part)) {
            Some(i) => {
                lemma_last_where_found_in(s0.partial_parts@, equiv_to(part));
                assert(s1.partial_parts == s0.partial_parts);
                if stored_slot(s1, key) is None {
                    lemma_found_part_not_appended(s1, s2, part_id, part, r2, i);
                }
            },
            None => match last_where(s0.partial_parts@, same_as(part)) {
                Some(i) => {
                    lemma_last_where_found_in(s0.partial_parts@, same_as(part));
                    assert(s1.partial_parts@[i] == part);
                    if stored_slot(s1, key) is None {
                        lemma_found_part_not_appended(s1, s2, part_id, part, r2, i);
                    }
                },
                None => match text_kind(part) {
                    Some(kind) => match last_where(s0.partial_parts@, of_kind(kind)) {
                        Some(i) => {
                            lemma_last_where_found_in(s0.partial_parts@, of_kind(kind));
                            assert(s1.partial_part_indices == s0.partial_part_indices);
                            if stream_text_of(part).len() > 0 {
                                assert(parts_equiv(s1.partial_parts@[i], part));
                                if stored_slot(s1, key) is None {
                                    lemma_found_part_not_appended(s1, s2, part_id, part, r2, i);
                                }
                            } else {
                                assert(s1.partial_parts == s0.partial_parts);
                            }
                        },
                        None => {
                            let n = s0.partial_parts@.len() as int;
                            assert(s1.partial_parts@[n] == part);
                            if stored_slot(s1, key) is None {
                                lemma_found_part_not_appended(s1, s2, part_id, part, r2, n);
                            }
                        },
                    },
                    None => {
                        let n = s0.partial_parts@.len() as int;
                        assert(s1.partial_parts@[n] == part);
                        if stored_slot(s1, key) is None {
                            lemma_found_part_not_appended(s1, s2, part_id, part, r2, n);
                        }
                    },
                },
            },
        },
    }
}

/// What `last_where` finds lies in range and passes the test.
pub proof fn lemma_last_where_found_in(s: Seq<Part>, f: spec_fn(Part) -> bool)
    ensures
        last_where(s, f) matches Some(i) ==> 0 <= i < s.len() && f(s[i]),
    decreases s.len(),
{
    if s.len() > 0 && !f(s.last()) {
        lemma_last_where_found_in(s.drop_last(), f);
    }
}

} // verus!
