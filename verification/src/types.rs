//! Core identifiers and the task priority scale.

use vstd::prelude::*;

use std::cmp::Ordering;

use vstd::std_specs::cmp::{PartialOrdSpec, PartialOrdSpecImpl};
use vstd::string::StringExecFns;

use crate::text::{be_bytes, hex_bytes, push_hex, be_bytes_of, string_of};

verus! {

/// Milliseconds since the Unix epoch on the system clock
/// (`std::time::SystemTime::elapsed` from `UNIX_EPOCH`), or 0 where the clock
/// reads earlier than the epoch. Nothing is stated of the value: it is the time.
#[verifier::external_body]
pub(crate) fn current_time_millis() -> i64 {
    match std::time::UNIX_EPOCH.elapsed() {
        Ok(d) => d.as_millis() as i64,
        Err(_) => 0,
    }
}

/// The 128-bit value of a random (version 4) UUID of the RFC 9562 variant:
/// the version field (bits 76 to 79) holds 4 and the variant field (bits 62
/// and 63) holds binary 10; the other 122 bits are random.
pub open spec fn is_v4_uuid(v: u128) -> bool {
    &&& (v >> 76u128) & 0xfu128 == 4
    &&& (v >> 62u128) & 0x3u128 == 2
}

/// Random 128-bit value of a version 4 UUID, as `uuid::Uuid::new_v4` makes it:
/// random bits with the version and variant fields set (it masks them out of
/// the random value and ors in `0x4000_8000_0000_0000_0000`). Nothing else is
/// stated of the value: it is drawn at random.
#[verifier::external_body]
fn random_uuid_value() -> (v: u128)
    ensures
        is_v4_uuid(v),
{
    uuid::Uuid::new_v4().as_u128()
}

/// The 128-bit value of the UUID that `text` denotes, if it denotes one.
pub uninterp spec fn uuid_parse(text: Seq<char>) -> Option<u128>;

/// `uuid::Uuid::parse_str`: the value of the UUID that `text` denotes
/// (hyphenated, simple, braced or URN form), or `None` if it denotes none.
#[verifier::external_body]
pub(crate) fn parse_uuid(text: &str) -> (r: Option<u128>)
    ensures
        r == uuid_parse(text@),
{
    uuid::Uuid::parse_str(text).ok().map(|u| u.as_u128())
}

/// Unique identifier for an agent instance: the 128-bit value of a UUID.
#[derive(Debug, Clone, Copy, PartialEq, Eq, Structural, Hash)]
pub struct AgentId(pub u128);

impl AgentId {
    /// Create a new random agent ID (a version 4 UUID).
    pub fn new() -> (id: Self)
        ensures
            is_v4_uuid(id.0),
    {
        AgentId(random_uuid_value())
    }

    /// Create from the 128-bit value of an existing UUID.
    pub fn from_uuid(id: u128) -> (res: Self)
        ensures
            res.0 == id,
    {
        AgentId(id)
    }
}

/// Short label of an identifier: a prefix, then the first eight hexadecimal
/// digits of the UUID (its first four bytes).
pub open spec fn id_label(prefix: Seq<char>, v: u128) -> Seq<char> {
    prefix + hex_bytes(be_bytes(v).take(4))
}

/// Display form of an agent ID: `agent-` and eight hexadecimal digits.
pub open spec fn agent_label(id: AgentId) -> Seq<char> {
    id_label("agent-"@, id.0)
}

/// Display form of a task group ID: `group-` and eight hexadecimal digits.
pub open spec fn group_label(id: TaskGroupId) -> Seq<char> {
    id_label("group-"@, id.0)
}

/// Appends `id_label(prefix, v)` to `s`.
pub(crate) fn push_id_label(s: &mut String, prefix: &str, v: u128)
    ensures
        final(s)@ == old(s)@ + id_label(prefix@, v),
{
    s.append(prefix);
    let bytes = be_bytes_of(v);
    push_hex(s, bytes.as_slice(), 4);
    assert(final(s)@ =~= old(s)@ + id_label(prefix@, v));
}

impl AgentId {
    /// Display form: `agent-` followed by the first eight hex digits of the UUID.
    pub fn to_display(&self) -> (s: String)
        ensures
            s@ == agent_label(*self),
    {
        let mut s = string_of("");
        push_id_label(&mut s, "agent-", self.0);
        proof {
            reveal_strlit("");
        }
        assert(s@ =~= agent_label(*self));
        s
    }
}

/// Unique identifier for a group of related tasks: the 128-bit value of a UUID.
#[derive(Debug, Clone, Copy, PartialEq, Eq, Structural, Hash)]
pub struct TaskGroupId(pub u128);

impl TaskGroupId {
    /// Create a new random task group ID (a version 4 UUID).
    pub fn new() -> (id: Self)
        ensures
            is_v4_uuid(id.0),
    {
        TaskGroupId(random_uuid_value())
    }

    /// Display form: `group-` followed by the first eight hex digits of the UUID.
    pub fn to_display(&self) -> (s: String)
        ensures
            s@ == group_label(*self),
    {
        let mut s = string_of("");
        push_id_label(&mut s, "group-", self.0);
        proof {
            reveal_strlit("");
        }
        assert(s@ =~= group_label(*self));
        s
    }
}

/// Display labels have a fixed length: six characters of prefix and eight digits.
pub proof fn lemma_label_len(v: u128)
    ensures
        agent_label(AgentId(v)).len() == 14,
        group_label(TaskGroupId(v)).len() == 14,
{
    reveal_strlit("agent-");
    reveal_strlit("group-");
    crate::text::lemma_hex_bytes_len(be_bytes(v).take(4));
}

/// Task priority levels, ordered from lowest to highest.
#[derive(Debug, Clone, Copy, PartialEq, Eq, Structural, Ord, Hash)]
pub enum Priority {
    /// Background work, no urgency.
    Low,
    /// Standard priority (default).
    Normal,
    /// Elevated priority, processed before Normal.
    High,
    /// Must be processed immediately.
    Critical,
}

/// The numeric weight of a priority: 0 for Low up to 3 for Critical.
pub open spec fn priority_weight(p: Priority) -> u8 {
    match p {
        Priority::Low => 0,
        Priority::Normal => 1,
        Priority::High => 2,
        Priority::Critical => 3,
    }
}

impl Priority {
    /// Numeric weight for ordering (higher = more urgent).
    pub fn weight(self) -> (w: u8)
        ensures
            w == priority_weight(self),
    {
        match self {
            Priority::Low => 0,
            Priority::Normal => 1,
            Priority::High => 2,
            Priority::Critical => 3,
        }
    }

    /// Lower-case name of the priority.
    pub fn as_str(self) -> (s: &'static str)
        ensures
            s@ == priority_name(self),
    {
        match self {
            Priority::Low => "low",
            Priority::Normal => "normal",
            Priority::High => "high",
            Priority::Critical => "critical",
        }
    }
}

/// Priorities compare by weight: Low < Normal < High < Critical.
impl PartialOrd for Priority {
    fn partial_cmp(&self, other: &Priority) -> (r: Option<Ordering>) {
        let a = self.weight();
        let b = other.weight();
        if a < b {
            Some(Ordering::Less)
        } else if a == b {
            Some(Ordering::Equal)
        } else {
            Some(Ordering::Greater)
        }
    }
}

impl PartialOrdSpecImpl for Priority {
    open spec fn obeys_partial_cmp_spec() -> bool {
        true
    }

    open spec fn partial_cmp_spec(&self, other: &Priority) -> Option<Ordering> {
        compare_priorities(*self, *other)
    }
}

/// How two priorities compare: by weight.
pub open spec fn compare_priorities(a: Priority, b: Priority) -> Option<Ordering> {
    if priority_weight(a) < priority_weight(b) {
        Some(Ordering::Less)
    } else if priority_weight(a) == priority_weight(b) {
        Some(Ordering::Equal)
    } else {
        Some(Ordering::Greater)
    }
}

/// The priority scale is a total order by weight, from Low up to Critical:
/// `<` and `>` on priorities go by this comparison, every two priorities
/// compare, and one ranks above another exactly when its weight is larger.
pub proof fn lemma_priority_order(a: Priority, b: Priority)
    ensures
        PartialOrdSpec::partial_cmp_spec(&a, &b) == compare_priorities(a, b),
        compare_priorities(a, b) is Some,
        (compare_priorities(a, b) == Some(Ordering::Greater)) <==> priority_weight(a) > priority_weight(b),
        (compare_priorities(a, b) == Some(Ordering::Equal)) <==> a == b,
        (compare_priorities(a, b) == Some(Ordering::Less)) <==> (compare_priorities(b, a) == Some(Ordering::Greater)),
        compare_priorities(Priority::Critical, Priority::High) == Some(Ordering::Greater),
        compare_priorities(Priority::High, Priority::Normal) == Some(Ordering::Greater),
        compare_priorities(Priority::Normal, Priority::Low) == Some(Ordering::Greater),
{
}

/// Lower-case name of a priority.
pub open spec fn priority_name(p: Priority) -> Seq<char> {
    match p {
        Priority::Low => "low"@,
        Priority::Normal => "normal"@,
        Priority::High => "high"@,
        Priority::Critical => "critical"@,
    }
}

impl Default for Priority {
    fn default() -> (p: Self)
        ensures
            p == Priority::Normal,
    {
        Priority::Normal
    }
}

/// Two priorities are equal exactly when their weights are: the weight is a
/// faithful numbering of the scale.
pub proof fn lemma_weight_injective(a: Priority, b: Priority)
    ensures
        (priority_weight(a) == priority_weight(b)) <==> (a == b),
{
}

} // verus!
