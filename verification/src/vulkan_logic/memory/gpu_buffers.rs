use vstd::prelude::*;

verus! {

/// `p` is a power of two.
pub open spec fn is_pow2(p: nat) -> bool
    decreases p,
{
    if p == 0 {
        false
    } else if p == 1 {
        true
    } else {
        p % 2 == 0 && is_pow2(p / 2)
    }
}

/// `p` is the smallest power of two that is at least `n`.
pub open spec fn is_next_pow2(n: nat, p: nat) -> bool {
    &&& is_pow2(p)
    &&& n <= p
    &&& (p == 1 || p / 2 < n)
}

/// The smallest power of two that is at least `n` (what `usize::next_power_of_two`
/// returns); `n` stays at or below `usize::MAX / 2 + 1`, above which that
/// function overflows.
fn next_power_of_two(n: usize) -> (r: usize)
    requires
        n <= usize::MAX / 2 + 1,
    ensures
        is_next_pow2(n as nat, r as nat),
{
    let mut p: usize = 1;
    while p < n
        invariant
            n <= usize::MAX / 2 + 1,
            is_pow2(p as nat),
            p == 1 || p / 2 < n,
        decreases usize::MAX - p,
    {
        assert((2 * p) as nat / 2 == p as nat);
        p = p * 2;
    }
    p
}

/// What uploading `size` bytes into a mapped GPU buffer of `capacity` bytes takes.
#[derive(Clone, Copy, Debug, PartialEq, Eq, Structural)]
pub enum UploadPlan {
    /// Nothing to copy.
    Skip,
    /// The data fits: copy it into the current buffer.
    Write,
    /// The data does not fit: free the buffer, allocate one of `new_capacity`
    /// bytes, then copy.
    Grow { new_capacity: usize },
}

/// The plan that the buffer's upload follows for `size` bytes of data.
pub open spec fn upload_plan_spec(capacity: nat, size: nat, plan: UploadPlan) -> bool {
    if size == 0 {
        plan == UploadPlan::Skip
    } else if size <= capacity {
        plan == UploadPlan::Write
    } else {
        plan matches UploadPlan::Grow { new_capacity } && is_next_pow2(size, new_capacity as nat)
    }
}

/// Decides how `size` bytes are uploaded into a buffer of `capacity` bytes:
/// nothing for empty data, a plain copy when it fits, and otherwise a new
/// buffer sized to the next power of two of `size`.
/// (`size` is the byte size of a slice in memory, so at most `isize::MAX`.)
pub fn plan_upload(capacity: usize, size: usize) -> (plan: UploadPlan)
    requires
        size <= isize::MAX,
    ensures
        upload_plan_spec(capacity as nat, size as nat, plan),
{
    if size == 0 {
        UploadPlan::Skip
    } else if size > capacity {
        UploadPlan::Grow { new_capacity: next_power_of_two(size) }
    } else {
        UploadPlan::Write
    }
}

/// The capacity a buffer of `capacity` bytes has once `plan` was carried out.
pub open spec fn capacity_after(capacity: nat, plan: UploadPlan) -> nat {
    match plan {
        UploadPlan::Grow { new_capacity } => new_capacity as nat,
        _ => capacity,
    }
}

/// After an upload the buffer holds the data, and it never shrinks: whenever
/// there is data, the capacity afterwards is at least its size, at least the
/// capacity before, and is either the capacity before or a power of two.
pub proof fn lemma_upload_fits(capacity: nat, size: nat, plan: UploadPlan)
    requires
        upload_plan_spec(capacity, size, plan),
    ensures
        size > 0 ==> size <= capacity_after(capacity, plan),
        capacity <= capacity_after(capacity, plan),
        capacity_after(capacity, plan) == capacity || is_pow2(capacity_after(capacity, plan)),
{
}


/// Each upload decision, stated on the sizes: empty data is skipped; data
/// that fits (sizes 1 up to the capacity) is written into the current buffer;
/// larger data grows the buffer to a power of two that holds it and is less
/// than twice its size.
pub proof fn lemma_upload_decisions(capacity: nat, size: nat, plan: UploadPlan)
    requires
        upload_plan_spec(capacity, size, plan),
    ensures
        size == 0 ==> plan == UploadPlan::Skip,
        (1 <= size && size <= capacity) ==> plan == UploadPlan::Write,
        size > capacity ==> (plan matches UploadPlan::Grow { new_capacity }
            && size <= new_capacity && new_capacity < 2 * size && is_pow2(new_capacity as nat)),
{
}

} // verus!
