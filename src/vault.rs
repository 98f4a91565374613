use vstd::prelude::*;

use crate::key::Key;

verus! {

/// How many mints a vault account has room for.
pub const VAULT_CAPACITY: usize = 333;

/// Why a change to the vault, or a handler around it, was refused.
#[derive(Clone, Copy, PartialEq, Eq, Structural, Debug)]
pub enum VaultError {
    /// Appending a new mint would go beyond the vault's fixed capacity.
    CapacityExceeded,
    /// The two parallel sequences of the vault differ in length.
    LengthMismatch,
    /// The pool address does not derive from the vault's seeds and bump.
    SeedsMismatch,
}

/// The persistent record of one pool: each tracked mint beside the time of
/// its latest update, index for index.
pub struct Vault {
    pub bump: u8,
    pub mint_accounts: Vec<Key>,
    pub updated_times: Vec<u64>,
}

/// The mathematical value of a vault.
pub ghost struct VaultModel {
    pub bump: u8,
    pub mints: Seq<Seq<u8>>,
    pub times: Seq<u64>,
}

impl View for Vault {
    type V = VaultModel;

    open spec fn view(&self) -> VaultModel {
        VaultModel {
            bump: self.bump,
            mints: self.mint_accounts@.map_values(|k: Key| k@),
            times: self.updated_times@,
        }
    }
}

/// Whether `m` occurs in `mints`.
pub open spec fn has_mint(mints: Seq<Seq<u8>>, m: Seq<u8>) -> bool {
    exists|i: int| 0 <= i < mints.len() && mints[i] == m
}

/// `i` is the first position of `m` in `mints`.
pub open spec fn is_first_index(mints: Seq<Seq<u8>>, m: Seq<u8>, i: int) -> bool {
    &&& 0 <= i < mints.len()
    &&& mints[i] == m
    &&& forall|j: int| 0 <= j < i ==> mints[j] != m
}

/// The first position of `m` in `mints` (meaningful where `has_mint` holds).
pub open spec fn first_index(mints: Seq<Seq<u8>>, m: Seq<u8>) -> int {
    choose|i: int| is_first_index(mints, m, i)
}

/// No key occurs twice.
pub open spec fn no_duplicates(mints: Seq<Seq<u8>>) -> bool {
    forall|i: int, j: int| 0 <= i < mints.len() && 0 <= j < mints.len() && i != j
        ==> mints[i] != mints[j]
}

/// Where `m` occurs in `mints`, its first position exists.
pub proof fn lemma_first_index(mints: Seq<Seq<u8>>, m: Seq<u8>)
    requires
        has_mint(mints, m),
    ensures
        is_first_index(mints, m, first_index(mints, m)),
{
    let k = choose|k: int| 0 <= k < mints.len() && mints[k] == m;
    lemma_first_below(mints, m, k);
}

/// A sequence has at most one first position of `m`.
pub proof fn lemma_first_index_unique(mints: Seq<Seq<u8>>, m: Seq<u8>, i: int, j: int)
    requires
        is_first_index(mints, m, i),
        is_first_index(mints, m, j),
    ensures
        i == j,
{
    if i < j {
        assert(mints[i] != m);
    } else if j < i {
        assert(mints[j] != m);
    }
}

/// Below any occurrence of `m` at `k` lies a first occurrence.
proof fn lemma_first_below(mints: Seq<Seq<u8>>, m: Seq<u8>, k: int)
    requires
        0 <= k < mints.len(),
        mints[k] == m,
    ensures
        exists|i: int| is_first_index(mints, m, i),
    decreases k,
{
    if exists|j: int| 0 <= j < k && mints[j] == m {
        let j = choose|j: int| 0 <= j < k && mints[j] == m;
        lemma_first_below(mints, m, j);
    } else {
        assert(is_first_index(mints, m, k));
    }
}

impl VaultModel {
    /// Both sequences are index-aligned, within capacity, and no mint occurs twice.
    pub open spec fn wf(self) -> bool {
        &&& self.mints.len() == self.times.len()
        &&& self.mints.len() <= VAULT_CAPACITY
        &&& no_duplicates(self.mints)
    }

    /// Registering `m` at time `now` must fail: it is new and the vault is full.
    pub open spec fn register_overflows(self, m: Seq<u8>) -> bool {
        !has_mint(self.mints, m) && self.mints.len() >= VAULT_CAPACITY
    }

    /// The vault after registering an update of `m` at time `now`: a known
    /// mint gets its time refreshed, a new one is appended.
    pub open spec fn registered(self, m: Seq<u8>, now: u64) -> VaultModel {
        if has_mint(self.mints, m) {
            VaultModel { times: self.times.update(first_index(self.mints, m), now), ..self }
        } else {
            VaultModel { mints: self.mints.push(m), times: self.times.push(now), ..self }
        }
    }

    /// The vault after removing `m`: its entry leaves both sequences, the
    /// others keep their order; an absent mint changes nothing.
    pub open spec fn removed(self, m: Seq<u8>) -> VaultModel {
        if has_mint(self.mints, m) {
            let i = first_index(self.mints, m);
            VaultModel { mints: self.mints.remove(i), times: self.times.remove(i), ..self }
        } else {
            self
        }
    }
}

impl Vault {
    /// An empty vault with the given bump.
    pub fn new(bump: u8) -> (r: Vault)
        ensures
            r@.bump == bump,
            r@.mints.len() == 0,
            r@.times.len() == 0,
            r@.wf(),
    {
        Vault { bump, mint_accounts: Vec::new(), updated_times: Vec::new() }
    }

    /// The first position of `mint` among the tracked mints.
    pub fn find_mint(&self, mint: &Key) -> (r: Option<usize>)
        ensures
            match r {
                Some(i) => is_first_index(self@.mints, mint@, i as int)
                    && first_index(self@.mints, mint@) == i as int,
                None => !has_mint(self@.mints, mint@),
            },
    {
        let n = self.mint_accounts.len();
        let mut i: usize = 0;
        while i < n
            invariant
                n == self.mint_accounts@.len(),
                i <= n,
                forall|j: int| 0 <= j < i ==> self@.mints[j] != mint@,
            decreases n - i,
        {
            if self.mint_accounts[i].same_as(mint) {
                proof {
                    let c = first_index(self@.mints, mint@);
                    assert(is_first_index(self@.mints, mint@, i as int));
                    assert(is_first_index(self@.mints, mint@, c));
                    if c < i {
                        assert(self@.mints[c] != mint@);
                    }
                    if i < c {
                        assert(self@.mints[i as int] != mint@);
                    }
                }
                return Some(i);
            }
            i = i + 1;
        }
        None
    }
    /// Records an update of `mint` at time `now`: refreshes its time where
    /// it is tracked, else appends it; a new mint in a full vault is refused
    /// and the vault left as it was.
    pub fn register(&mut self, mint: Key, now: u64) -> (r: Result<(), VaultError>)
        requires
            old(self)@.mints.len() == old(self)@.times.len(),
        ensures
            old(self)@.register_overflows(mint@) ==> r == Err::<(), VaultError>(VaultError::CapacityExceeded)
                && final(self)@ == old(self)@,
            !old(self)@.register_overflows(mint@) ==> r is Ok && final(self)@ == old(self)@.registered(mint@, now),
    {
        match self.find_mint(&mint) {
            Some(i) => {
                self.updated_times.set(i, now);
                proof {
                    assert(final(self)@.mints =~= old(self)@.mints);
                }
                Ok(())
            },
            None => {
                if self.mint_accounts.len() >= VAULT_CAPACITY {
                    return Err(VaultError::CapacityExceeded);
                }
                self.mint_accounts.push(mint);
                self.updated_times.push(now);
                proof {
                    assert(self@.mints =~= old(self)@.mints.push(mint@));
                }
                Ok(())
            },
        }
    }

    /// Removes the entry of `mint` from both sequences, keeping the order of
    /// the others; an untracked mint leaves the vault as it was.
    pub fn remove(&mut self, mint: &Key)
        requires
            old(self)@.mints.len() == old(self)@.times.len(),
        ensures
            final(self)@ == old(self)@.removed(mint@),
    {
        match self.find_mint(mint) {
            Some(i) => {
                self.updated_times.remove(i);
                self.mint_accounts.remove(i);
                proof {
                    assert(self@.mints =~= old(self)@.mints.remove(i as int));
                }
            },
            None => {},
        }
    }
}

} // verus!
