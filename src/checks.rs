use vstd::prelude::*;

use crate::error::MultiSigError;
use crate::key::Key;
use crate::state::{count_true, owners_distinct};

verus! {

/// Refuses an owner list in which some key occurs twice. Every pair is compared, so
/// the cost grows with the square of the number of owners; owner lists are short.
pub fn assert_unique_owners(owners: &[Key]) -> (r: Result<(), MultiSigError>)
    ensures
        r is Ok <==> owners_distinct(owners@),
        r is Err ==> r == Err::<(), MultiSigError>(MultiSigError::DuplicateOwner),
{
    let n = owners.len();
    let mut i: usize = 0;
    while i < n
        invariant
            i <= n,
            n == owners@.len(),
            forall|a: int, b: int| 0 <= a < i && a < b < n ==> owners@[a]@ != owners@[b]@,
        decreases n - i,
    {
        let mut j: usize = i + 1;
        while j < n
            invariant
                i < j <= n,
                n == owners@.len(),
                forall|a: int, b: int| 0 <= a < i && a < b < n ==> owners@[a]@ != owners@[b]@,
                forall|b: int| i < b < j ==> owners@[i as int]@ != owners@[b]@,
            decreases n - j,
        {
            if owners[i].same_as(&owners[j]) {
                return Err(MultiSigError::DuplicateOwner);
            }
            j = j + 1;
        }
        i = i + 1;
    }
    Ok(())
}

/// The first position of `key` in `owners`, if it occurs there.
pub fn owner_index(owners: &Vec<Key>, key: &Key) -> (r: Option<usize>)
    ensures
        r is None <==> forall|j: int| 0 <= j < owners@.len() ==> owners@[j]@ != key@,
        r matches Some(i) ==> i < owners@.len() && owners@[i as int]@ == key@ && forall|j: int|
            0 <= j < i ==> owners@[j]@ != key@,
{
    let mut i: usize = 0;
    while i < owners.len()
        invariant
            i <= owners@.len(),
            forall|j: int| 0 <= j < i ==> owners@[j]@ != key@,
        decreases owners@.len() - i,
    {
        if owners[i].same_as(key) {
            return Some(i);
        }
        i = i + 1;
    }
    None
}

/// The number of owners who approved, as recorded in `approvers`.
pub fn count_approvals(approvers: &Vec<bool>) -> (r: u64)
    ensures
        r == count_true(approvers@),
{
    let mut count: u64 = 0;
    let mut i: usize = 0;
    while i < approvers.len()
        invariant
            i <= approvers@.len(),
            count == count_true(approvers@.subrange(0, i as int)),
            count <= i,
        decreases approvers@.len() - i,
    {
        assert(approvers@.subrange(0, i + 1).drop_last() =~= approvers@.subrange(0, i as int));
        if approvers[i] {
            count = count + 1;
        }
        i = i + 1;
    }
    assert(approvers@.subrange(0, approvers@.len() as int) =~= approvers@);
    count
}

/// Moves `amount` from the balance `from` to the balance `to`, or changes neither.
pub fn transfer_lamports(from: &mut u64, to: &mut u64, amount: u64) -> (r: Result<(), MultiSigError>)
    ensures
        *old(to) + amount > u64::MAX ==> r == Err::<(), MultiSigError>(
            MultiSigError::ArithmeticOverflow,
        ),
        *old(to) + amount <= u64::MAX && amount > *old(from) ==> r == Err::<(), MultiSigError>(
            MultiSigError::ArithmeticUnderflow,
        ),
        r is Ok <==> *old(to) + amount <= u64::MAX && amount <= *old(from),
        r is Ok ==> *final(from) == *old(from) - amount && *final(to) == *old(to) + amount,
        r is Err ==> *final(from) == *old(from) && *final(to) == *old(to),
{
    let credited = match to.checked_add(amount) {
        Some(v) => v,
        None => return Err(MultiSigError::ArithmeticOverflow),
    };
    let debited = match from.checked_sub(amount) {
        Some(v) => v,
        None => return Err(MultiSigError::ArithmeticUnderflow),
    };
    *to = credited;
    *from = debited;
    Ok(())
}

} // verus!
