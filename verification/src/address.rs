use vstd::prelude::*;

verus! {

/// The identity of an account or a contract: the 56 ASCII characters of its
/// strkey (`G...` or `C...`), packed big-endian into four words.
///
/// Two addresses name the same party exactly when their words are equal.
#[derive(Clone, Copy, PartialEq, Eq, Hash, Debug, Structural)]
pub struct Address {
    pub w0: u128,
    pub w1: u128,
    pub w2: u128,
    pub w3: u64,
}

/// A payment that a contract asks its token contract to make:
/// `amount` units of `token`, moved from `from` to `to`.
#[derive(Clone, Copy, PartialEq, Eq, Debug, Structural)]
pub struct Transfer {
    pub token: Address,
    pub from: Address,
    pub to: Address,
    pub amount: i128,
}

/// Whether `who` occurs in `list`.
pub fn contains(list: &Vec<Address>, who: Address) -> (found: bool)
    ensures
        found == list@.contains(who),
{
    let mut i: usize = 0;
    while i < list.len()
        invariant
            i <= list.len(),
            forall|j: int| 0 <= j < i ==> list@[j] != who,
        decreases list.len() - i,
    {
        if list[i] == who {
            assert(list@[i as int] == who);
            return true;
        }
        i += 1;
    }
    false
}

} // verus!
