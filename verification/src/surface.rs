//! The resource handle wrapper: one owner of one reference to a native
//! object, and the accounting that keeps the engine's reference count in
//! step with the owners.
//!
//! The engine counts references itself. A wrapper never touches the count; it
//! says which change is due, and its caller asks the engine for it.

use vstd::prelude::*;
use crate::enums::Status;
use crate::enums::SurfaceType;
use crate::error::NullHandle;

verus! {

/// What an operation on a wrapper asks of the engine's reference count.
#[derive(Clone, Copy, Debug, PartialEq, Eq, Structural)]
pub enum CountChange {
    /// Nothing: the reference at hand changes owner, or stays.
    Keep,
    /// One more reference is taken.
    Reference,
    /// One reference is given up.
    Destroy,
}

impl CountChange {
    /// The engine's count after this change. The engine ignores a release of
    /// an object that nobody holds.
    pub open spec fn apply(self, count: nat) -> nat {
        match self {
            CountChange::Keep => count,
            CountChange::Reference => count + 1,
            CountChange::Destroy => if count > 0 {
                (count - 1) as nat
            } else {
                0
            },
        }
    }

    /// Whether this change frees the native object: it gives up the last
    /// reference.
    pub open spec fn frees(self, count: nat) -> bool {
        self == CountChange::Destroy && count == 1
    }
}

/// The count after a run of changes, in order.
pub open spec fn count_after(count: nat, changes: Seq<CountChange>) -> nat
    decreases changes.len(),
{
    if changes.len() == 0 {
        count
    } else {
        changes.last().apply(count_after(count, changes.drop_last()))
    }
}

/// How often a run of changes frees the native object.
pub open spec fn frees_in(count: nat, changes: Seq<CountChange>) -> nat
    decreases changes.len(),
{
    if changes.len() == 0 {
        0
    } else {
        let before = count_after(count, changes.drop_last());
        let earlier = frees_in(count, changes.drop_last());
        if changes.last().frees(before) {
            earlier + 1
        } else {
            earlier
        }
    }
}

/// `n` times the same change.
pub open spec fn repeated(change: CountChange, n: nat) -> Seq<CountChange> {
    Seq::new(n, |i: int| change)
}

/// Taking `n` references raises the count by `n` and frees nothing.
pub proof fn lemma_references_add_up(count: nat, n: nat)
    ensures
        count_after(count, repeated(CountChange::Reference, n)) == count + n,
        frees_in(count, repeated(CountChange::Reference, n)) == 0,
    decreases n,
{
    let all = repeated(CountChange::Reference, n);
    if n > 0 {
        assert(all.drop_last() =~= repeated(CountChange::Reference, (n - 1) as nat));
        lemma_references_add_up(count, (n - 1) as nat);
    }
}

/// Giving up `n` references of more than `n` lowers the count by `n` and
/// frees nothing.
pub proof fn lemma_releases_subtract(count: nat, n: nat)
    requires
        count > n,
    ensures
        count_after(count, repeated(CountChange::Destroy, n)) == count - n,
        frees_in(count, repeated(CountChange::Destroy, n)) == 0,
    decreases n,
{
    let all = repeated(CountChange::Destroy, n);
    if n > 0 {
        assert(all.drop_last() =~= repeated(CountChange::Destroy, (n - 1) as nat));
        lemma_releases_subtract(count, (n - 1) as nat);
    }
}

/// A run of changes followed by another is the second applied to what the
/// first left.
pub proof fn lemma_changes_compose(count: nat, first: Seq<CountChange>, second: Seq<CountChange>)
    ensures
        count_after(count, first + second) == count_after(count_after(count, first), second),
        frees_in(count, first + second) == frees_in(count, first) + frees_in(
            count_after(count, first),
            second,
        ),
    decreases second.len(),
{
    if second.len() == 0 {
        assert(first + second =~= first);
    } else {
        assert((first + second).drop_last() =~= first + second.drop_last());
        assert((first + second).last() == second.last());
        lemma_changes_compose(count, first, second.drop_last());
    }
}

/// For a native object that is held `count` times, `n` clones of a wrapper
/// followed by `n` drops leave the count where it was, and the object alive.
pub proof fn lemma_clones_and_drops_balance(count: nat, n: nat)
    requires
        count >= 1,
    ensures
        count_after(
            count,
            repeated(CountChange::Reference, n) + repeated(CountChange::Destroy, n),
        ) == count,
        frees_in(
            count,
            repeated(CountChange::Reference, n) + repeated(CountChange::Destroy, n),
        ) == 0,
{
    lemma_references_add_up(count, n);
    lemma_releases_subtract(count + n, n);
    lemma_changes_compose(
        count,
        repeated(CountChange::Reference, n),
        repeated(CountChange::Destroy, n),
    );
}

/// The drop of the last owner frees the native object, and that drop alone:
/// after any run of changes that leaves one reference, one more release
/// brings the count to zero and adds one to the times the object was freed.
pub proof fn lemma_last_drop_frees_once(count: nat, changes: Seq<CountChange>)
    requires
        count_after(count, changes) == 1,
    ensures
        count_after(count, changes.push(CountChange::Destroy)) == 0,
        frees_in(count, changes.push(CountChange::Destroy)) == frees_in(count, changes) + 1,
{
    let longer = changes.push(CountChange::Destroy);
    assert(longer.drop_last() =~= changes);
    assert(longer.last() == CountChange::Destroy);
}

/// A drop that is not the last frees nothing.
pub proof fn lemma_earlier_drop_frees_nothing(count: nat, changes: Seq<CountChange>)
    requires
        count_after(count, changes) > 1,
    ensures
        count_after(count, changes.push(CountChange::Destroy)) == count_after(count, changes)
            - 1,
        frees_in(count, changes.push(CountChange::Destroy)) == frees_in(count, changes),
{
    let longer = changes.push(CountChange::Destroy);
    assert(longer.drop_last() =~= changes);
    assert(longer.last() == CountChange::Destroy);
}

/// Whatever the changes, the native object is freed when and only when a
/// release finds the count at one; a run whose count never drops to zero
/// frees nothing, and once the count is zero nothing frees it again.
pub proof fn lemma_freed_at_most_once(count: nat, changes: Seq<CountChange>)
    requires
        forall|i: int| 0 <= i < changes.len() ==> changes[i] != CountChange::Reference,
    ensures
        frees_in(count, changes) <= 1,
        frees_in(count, changes) == 1 ==> count_after(count, changes) == 0,
        count == 0 ==> frees_in(count, changes) == 0,
        count_after(count, changes) <= count,
    decreases changes.len(),
{
    if changes.len() > 0 {
        lemma_freed_at_most_once(count, changes.drop_last());
    }
}

/// Why a surface that a constructing call of the engine returned is not
/// taken for a surface of kind `expected`, if it is not, and the change that
/// is then due to the engine's count. Without a surface there is nothing to
/// release. A surface of another kind, or one whose status reports a failed
/// construction, is released: the reference that came with it is given up.
pub open spec fn adoption_failure(
    ptr: usize,
    kind: SurfaceType,
    expected: SurfaceType,
    status: Status,
) -> Option<(Status, CountChange)> {
    if ptr == 0 {
        Some((Status::NullPointer, CountChange::Keep))
    } else if kind != expected {
        Some((Status::SurfaceTypeMismatch, CountChange::Destroy))
    } else if status != Status::Success {
        Some((status, CountChange::Destroy))
    } else {
        None
    }
}

/// An owner of one reference to a native surface.
#[derive(Debug)]
pub struct Surface {
    raw: usize,
}

impl Surface {
    #[verifier::type_invariant]
    closed spec fn non_null(&self) -> bool {
        self.raw != 0
    }

    /// The address of the native surface.
    pub closed spec fn ptr(&self) -> usize {
        self.raw
    }

    /// Wraps a surface that others own: the wrapper takes a reference of its
    /// own. A null address is refused.
    pub fn from_raw_none(ptr: usize) -> (shared: Result<(Surface, CountChange), NullHandle>)
        ensures
            ptr == 0 <==> shared is Err,
            shared is Ok ==> shared->Ok_0.0.ptr() == ptr && shared->Ok_0.1
                == CountChange::Reference,
    {
        if ptr == 0 {
            Err(NullHandle)
        } else {
            Ok((Surface { raw: ptr }, CountChange::Reference))
        }
    }

    /// Wraps a surface that was just made: the wrapper takes over the
    /// reference that the surface came with. A null address is refused.
    pub fn from_raw_full(ptr: usize) -> (adopted: Result<Surface, NullHandle>)
        ensures
            ptr == 0 <==> adopted is Err,
            adopted is Ok ==> adopted->Ok_0.ptr() == ptr,
    {
        if ptr == 0 {
            Err(NullHandle)
        } else {
            Ok(Surface { raw: ptr })
        }
    }

    /// The address of the native surface, which is never null.
    pub fn to_raw_none(&self) -> (ptr: usize)
        ensures
            ptr == self.ptr(),
            ptr != 0,
    {
        proof {
            use_type_invariant(self);
        }
        self.raw
    }

    /// A second owner of the same native surface. It takes a reference of
    /// its own: the engine's count is to go up by one, which frees nothing.
    pub fn clone(&self) -> (shared: (Surface, CountChange))
        ensures
            shared.0.ptr() == self.ptr(),
            shared.1 == CountChange::Reference,
            forall|count: nat| #[trigger] shared.1.apply(count) == count + 1,
            forall|count: nat| !#[trigger] shared.1.frees(count),
    {
        proof {
            use_type_invariant(self);
        }
        (Surface { raw: self.raw }, CountChange::Reference)
    }

    /// Ends this owner. Its reference is given up: the engine's count is to
    /// go down by one, and the native surface is freed exactly when this
    /// owner was the last, that is when the count stood at one.
    pub fn drop(self) -> (release: (usize, CountChange))
        ensures
            release.0 == self.ptr(),
            release.0 != 0,
            release.1 == CountChange::Destroy,
            forall|count: nat| count >= 1 ==> #[trigger] release.1.apply(count) == count - 1,
            forall|count: nat| #[trigger] release.1.frees(count) <==> count == 1,
    {
        proof {
            use_type_invariant(&self);
        }
        (self.raw, CountChange::Destroy)
    }

    /// The status of a surface, from the code that the engine reports: none
    /// where the code is not of the closed set.
    pub fn status(code: i32) -> (status: Option<Status>)
        ensures
            status == Status::of_code(code),
    {
        Status::from_code(code)
    }
}

/// What attaching user data to a surface came to: the engine's status, as a
/// result.
pub fn set_user_data(attached: Status) -> (outcome: Result<(), Status>)
    ensures
        outcome == attached.spec_to_result(),
{
    match attached {
        Status::Success => Ok(()),
        x => Err(x),
    }
}

} // verus!
