use vstd::prelude::*;

verus! {

/// Buffer size, in bytes, of the first adapter enumeration attempt.
pub const INITIAL_ADAPTER_BUFFER_LEN: u32 = 15000;

/// Largest number of adapter enumeration attempts.
pub const MAX_ADAPTER_ATTEMPTS: u32 = 3;

/// One adapter as reported by the system's adapter enumeration.
#[derive(Debug, Clone)]
pub struct AdapterRecord {
    pub friendly_name: String,
    pub description: String,
    /// Receive link speed in bits per second.
    pub receive_link_speed: u64,
}

/// What the system reported for one adapter enumeration attempt.
#[derive(Debug, Clone, Copy, PartialEq, Eq, Structural)]
pub enum EnumStatus {
    Success,
    BufferTooSmall,
    Failed(u32),
}

/// Why an inspection produced no reading.
#[derive(Debug, Clone, Copy, PartialEq, Eq, Structural)]
pub enum InspectError {
    /// The enumeration failed with this system status code.
    Os(u32),
    /// The buffer was still too small after the last permitted attempt.
    BufferStillTooSmall,
}

/// What to do after an enumeration attempt.
#[derive(Debug, Clone, Copy, PartialEq, Eq, Structural)]
pub enum EnumStep {
    /// Enumerate again, with the buffer size the system asked for.
    Retry,
    /// The buffer holds the adapter list: read it.
    Read,
    /// Give up with this error.
    Fail(InspectError),
}

/// `p` occurs in `s` as a contiguous run of characters.
pub open spec fn is_infix(p: Seq<char>, s: Seq<char>) -> bool {
    exists|i: int| 0 <= i && i + p.len() <= s.len() && #[trigger] s.subrange(i, i + p.len()) == p
}

/// An adapter matches a name fragment found in its friendly name or in its description.
pub open spec fn adapter_matches(a: AdapterRecord, name: Seq<char>) -> bool {
    is_infix(name, a.friendly_name@) || is_infix(name, a.description@)
}

/// The link speed of the first matching adapter, in enumeration order.
pub open spec fn first_match_speed(adapters: Seq<AdapterRecord>, name: Seq<char>) -> Option<u64>
    decreases adapters.len(),
{
    if adapters.len() == 0 {
        None
    } else if adapter_matches(adapters[0], name) {
        Some(adapters[0].receive_link_speed)
    } else {
        first_match_speed(adapters.drop_first(), name)
    }
}

/// The step that follows attempt number `attempt` (counted from 1) reporting `status`.
pub open spec fn spec_next_enum_step(attempt: u32, status: EnumStatus) -> EnumStep {
    match status {
        EnumStatus::Success => EnumStep::Read,
        EnumStatus::BufferTooSmall => if attempt < MAX_ADAPTER_ATTEMPTS {
            EnumStep::Retry
        } else {
            EnumStep::Fail(InspectError::BufferStillTooSmall)
        },
        EnumStatus::Failed(code) => EnumStep::Fail(InspectError::Os(code)),
    }
}

/// Decides how adapter enumeration goes on after an attempt: a buffer that
/// was too small is retried until the attempts run out, any other failure is final.
pub fn next_enum_step(attempt: u32, status: EnumStatus) -> (r: EnumStep)
    ensures
        r == spec_next_enum_step(attempt, status),
        r == EnumStep::Retry ==> attempt < MAX_ADAPTER_ATTEMPTS,
{
    match status {
        EnumStatus::Success => EnumStep::Read,
        EnumStatus::BufferTooSmall => {
            if attempt < MAX_ADAPTER_ATTEMPTS {
                EnumStep::Retry
            } else {
                EnumStep::Fail(InspectError::BufferStillTooSmall)
            }
        },
        EnumStatus::Failed(code) => EnumStep::Fail(InspectError::Os(code)),
    }
}

/// Case-sensitive test of whether `needle` occurs in `haystack`.
pub fn contains_text(haystack: &str, needle: &str) -> (r: bool)
    ensures
        r == is_infix(needle@, haystack@),
{
    let n = haystack.unicode_len();
    let m = needle.unicode_len();
    if m > n {
        return false;
    }
    let last = n - m;
    let mut i: usize = 0;
    while i <= last
        invariant
            n == haystack@.len(),
            m == needle@.len(),
            last == n - m,
            i <= last + 1,
            forall|k: int| 0 <= k < i ==> #[trigger] haystack@.subrange(k, k + m) != needle@,
        decreases last + 1 - i,
    {
        let mut j: usize = 0;
        let mut same = true;
        while j < m && same
            invariant
                n == haystack@.len(),
                m == needle@.len(),
                i + m <= n,
                j <= m,
                same ==> forall|t: int| 0 <= t < j ==> haystack@[i + t] == needle@[t],
                !same ==> haystack@[i + j - 1] != needle@[j - 1] && j >= 1,
            decreases m - j + (if same { 1int } else { 0int }),
        {
            if haystack.get_char(i + j) != needle.get_char(j) {
                same = false;
            }
            j = j + 1;
        }
        if same {
            assert(haystack@.subrange(i as int, i + m) =~= needle@);
            return true;
        }
        assert(haystack@.subrange(i as int, i + m)[j - 1] != needle@[j - 1]);
        i = i + 1;
    }
    assert forall|k: int| 0 <= k && k + needle@.len() <= haystack@.len() implies
        #[trigger] haystack@.subrange(k, k + needle@.len()) != needle@ by {
        assert(k < i);
    }
    false
}

/// Link speed of the first adapter whose friendly name or description
/// contains `adapter_name`, or `None` when no adapter matches.
pub fn find_link_speed(adapters: &Vec<AdapterRecord>, adapter_name: &str) -> (r: Option<u64>)
    ensures
        r == first_match_speed(adapters@, adapter_name@),
{
    let mut i: usize = 0;
    assert(adapters@.subrange(0, adapters@.len() as int) =~= adapters@);
    while i < adapters.len()
        invariant
            i <= adapters@.len(),
            first_match_speed(adapters@, adapter_name@)
                == first_match_speed(adapters@.subrange(i as int, adapters@.len() as int), adapter_name@),
        decreases adapters@.len() - i,
    {
        let a = &adapters[i];
        proof {
            let rest = adapters@.subrange(i as int, adapters@.len() as int);
            assert(rest[0] == *a);
            assert(rest.drop_first() =~= adapters@.subrange(i + 1, adapters@.len() as int));
        }
        if contains_text(a.friendly_name.as_str(), adapter_name)
            || contains_text(a.description.as_str(), adapter_name) {
            return Some(a.receive_link_speed);
        }
        i = i + 1;
    }
    assert(adapters@.subrange(i as int, adapters@.len() as int).len() == 0);
    None
}

} // verus!
