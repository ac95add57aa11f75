use vstd::prelude::*;

verus! {

/// The value of the id counter kept in instance storage; a contract that has
/// not stored one yet counts from zero.
pub open spec fn stored_count(counter: Option<u64>) -> u64 {
    match counter {
        Some(n) => n,
        None => 0,
    }
}

/// Assigns the id of a new record: the current counter value, with the
/// counter advanced by one. `None` when the counter cannot advance.
pub fn allocate_id(counter: Option<u64>) -> (ids: Option<(u64, u64)>)
    ensures
        ids is Some <==> stored_count(counter) < u64::MAX,
        ids matches Some((id, next)) ==> id == stored_count(counter) && next == id + 1,
{
    let id: u64 = match counter {
        Some(n) => n,
        None => 0,
    };
    if id < u64::MAX {
        Some((id, id + 1))
    } else {
        None
    }
}

} // verus!
