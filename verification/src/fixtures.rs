//! Test fixtures: names that tests use for task queues and workflow IDs.
use vstd::prelude::*;
use crate::outside::{is_ascii_alphanumeric, push_char, random_alphanumeric};

verus! {

/// Default namespace for testing.
pub const TEST_NAMESPACE: &'static str = "default";

/// Default task queue for testing.
pub const TEST_TASK_QUEUE: &'static str = "test-task-queue";

/// Default timeout for test operations, in seconds.
pub const TEST_TIMEOUT_SECS: u64 = 30;

/// `name` is `prefix`, a hyphen, then `len` characters drawn from
/// `A-Z a-z 0-9`.
pub open spec fn is_suffixed_name(name: Seq<char>, prefix: Seq<char>, len: nat) -> bool {
    &&& name.len() == prefix.len() + 1 + len
    &&& name.subrange(0, prefix.len() as int) == prefix
    &&& name[prefix.len() as int] == '-'
    &&& forall|i: int| prefix.len() < i < name.len() ==> is_ascii_alphanumeric(#[trigger] name[i])
}

/// `prefix`, a hyphen and `len` random alphanumeric characters.
fn suffixed_name(prefix: &str, len: usize) -> (name: String)
    ensures
        is_suffixed_name(name@, prefix@, len as nat),
{
    let mut name = prefix.to_owned();
    push_char(&mut name, '-');
    assert(name@.subrange(0, prefix@.len() as int) =~= prefix@);
    let mut i: usize = 0;
    while i < len
        invariant
            i <= len,
            is_suffixed_name(name@, prefix@, i as nat),
        decreases len - i,
    {
        let c = random_alphanumeric();
        let ghost before = name@;
        push_char(&mut name, c);
        assert(name@.subrange(0, prefix@.len() as int) =~= before.subrange(0, prefix@.len() as int));
        i = i + 1;
    }
    name
}

/// Generate a unique task queue name for a test: the prefix, a hyphen and
/// six random alphanumeric characters.
pub fn unique_task_queue(prefix: &str) -> (name: String)
    ensures
        is_suffixed_name(name@, prefix@, 6),
{
    suffixed_name(prefix, 6)
}

/// Generate a unique workflow ID for a test: the prefix, a hyphen and eight
/// random alphanumeric characters.
pub fn unique_workflow_id(prefix: &str) -> (name: String)
    ensures
        is_suffixed_name(name@, prefix@, 8),
{
    suffixed_name(prefix, 8)
}

} // verus!
