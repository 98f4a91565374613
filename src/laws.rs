use vstd::prelude::*;

use crate::vault::{
    first_index, has_mint, is_first_index, lemma_first_index, lemma_first_index_unique,
    VaultModel, VAULT_CAPACITY,
};

verus! {

/// The vault after registering `m` once at each time of `times`, in order.
pub open spec fn registered_all(v: VaultModel, m: Seq<u8>, times: Seq<u64>) -> VaultModel
    decreases times.len(),
{
    if times.len() == 0 {
        v
    } else {
        registered_all(v, m, times.drop_last()).registered(m, times.last())
    }
}

/// `m` occurs exactly once in `mints`.
pub open spec fn occurs_once(mints: Seq<Seq<u8>>, m: Seq<u8>) -> bool {
    &&& has_mint(mints, m)
    &&& forall|i: int, j: int|
        0 <= i < mints.len() && 0 <= j < mints.len() && mints[i] == m && mints[j] == m ==> i == j
}

/// A registration that fits keeps the vault well formed, tracks the mint
/// exactly once, and stamps it with the registration's time.
pub proof fn lemma_registered_wf(v: VaultModel, m: Seq<u8>, now: u64)
    requires
        v.wf(),
        !v.register_overflows(m),
    ensures
        v.registered(m, now).wf(),
        occurs_once(v.registered(m, now).mints, m),
        v.registered(m, now).times[first_index(v.registered(m, now).mints, m)] == now,
{
    let w = v.registered(m, now);
    if has_mint(v.mints, m) {
        lemma_first_index(v.mints, m);
        assert(w.mints == v.mints);
    } else {
        let n = v.mints.len() as int;
        assert(w.mints[n] == m);
        assert(is_first_index(w.mints, m, n));
        lemma_first_index(w.mints, m);
        lemma_first_index_unique(w.mints, m, n, first_index(w.mints, m));
        assert forall|i: int, j: int|
            0 <= i < w.mints.len() && 0 <= j < w.mints.len() && i != j implies w.mints[i] != w.mints[j] by {
            if i < n && j < n {
                assert(v.mints[i] != v.mints[j]);
            } else if i < n {
                assert(v.mints[i] != m);
            } else if j < n {
                assert(v.mints[j] != m);
            }
        }
    }
}

/// However many times the same mint is registered, the vault tracks it once,
/// with the time of the latest registration.
pub proof fn lemma_repeated_registration(v: VaultModel, m: Seq<u8>, times: Seq<u64>)
    requires
        v.wf(),
        !v.register_overflows(m),
        times.len() > 0,
    ensures
        registered_all(v, m, times).wf(),
        occurs_once(registered_all(v, m, times).mints, m),
        registered_all(v, m, times).times[first_index(registered_all(v, m, times).mints, m)]
            == times.last(),
    decreases times.len(),
{
    let prev = times.drop_last();
    if prev.len() == 0 {
        assert(registered_all(v, m, prev) == v);
        lemma_registered_wf(v, m, times.last());
    } else {
        lemma_repeated_registration(v, m, prev);
        let w = registered_all(v, m, prev);
        assert(!w.register_overflows(m));
        lemma_registered_wf(w, m, times.last());
    }
}

/// Removing a mint that is not tracked leaves the vault as it was.
pub proof fn lemma_remove_absent(v: VaultModel, m: Seq<u8>)
    requires
        !has_mint(v.mints, m),
    ensures
        v.removed(m) == v,
{
}

/// A removal keeps the vault well formed.
pub proof fn lemma_removed_wf(v: VaultModel, m: Seq<u8>)
    requires
        v.wf(),
    ensures
        v.removed(m).wf(),
{
    if has_mint(v.mints, m) {
        lemma_first_index(v.mints, m);
        let k = first_index(v.mints, m);
        let w = v.removed(m);
        assert forall|i: int, j: int|
            0 <= i < w.mints.len() && 0 <= j < w.mints.len() && i != j implies w.mints[i] != w.mints[j] by {
            let oi = if i < k { i } else { i + 1 };
            let oj = if j < k { j } else { j + 1 };
            assert(w.mints[i] == v.mints[oi]);
            assert(w.mints[j] == v.mints[oj]);
        }
    }
}

/// Registering a new mint and then removing it gives back the vault as it
/// was: the same length, and the other mints in their order with their times.
pub proof fn lemma_register_then_remove(v: VaultModel, m: Seq<u8>, now: u64)
    requires
        v.wf(),
        !has_mint(v.mints, m),
        v.mints.len() < VAULT_CAPACITY,
    ensures
        v.registered(m, now).removed(m) == v,
{
    let w = v.registered(m, now);
    let n = v.mints.len() as int;
    assert(w.mints[n] == m);
    assert(is_first_index(w.mints, m, n));
    lemma_first_index(w.mints, m);
    lemma_first_index_unique(w.mints, m, n, first_index(w.mints, m));
    assert(w.removed(m).mints =~= v.mints);
    assert(w.removed(m).times =~= v.times);
}

} // verus!
