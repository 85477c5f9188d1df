//! Key-to-amount and pair-to-allowance tables.
//!
//! The host chain stores every ledger entity under its own storage key
//! with default-zero semantics: an absent entry reads as zero (or as no
//! record at all).  This module models such a key space as a vector of
//! entries with pairwise distinct keys, and proves how lookups, updates
//! and totals relate.

use vstd::prelude::*;

verus! {

/// One account's amount: a share balance or a token balance.
#[derive(Clone, Copy, Debug)]
pub struct AmountEntry {
    pub key: u64,
    pub amount: i128,
}

/// A delegated-spending approval: an amount that may still be spent and
/// the ledger sequence after which the record no longer counts.
#[derive(Clone, Copy, Debug, PartialEq, Eq, Structural)]
pub struct AllowanceData {
    pub amount: i128,
    pub expiry_ledger: u32,
}

/// One (owner, spender) approval record.
#[derive(Clone, Copy, Debug)]
pub struct PairEntry {
    pub owner: u64,
    pub spender: u64,
    pub data: AllowanceData,
}

/// The amount stored under `key`; zero when no entry carries `key`.
pub open spec fn amount_of(s: Seq<AmountEntry>, key: u64) -> int
    decreases s.len(),
{
    if s.len() == 0 {
        0
    } else if s.last().key == key {
        s.last().amount as int
    } else {
        amount_of(s.drop_last(), key)
    }
}

/// The sum of all stored amounts.
pub open spec fn amounts_total(s: Seq<AmountEntry>) -> int
    decreases s.len(),
{
    if s.len() == 0 {
        0
    } else {
        amounts_total(s.drop_last()) + s.last().amount
    }
}

/// No two entries share a key.
pub open spec fn keys_unique(s: Seq<AmountEntry>) -> bool {
    forall|i: int, j: int| 0 <= i < j < s.len() ==> #[trigger] s[i].key != #[trigger] s[j].key
}

/// Every stored amount is non-negative.
pub open spec fn amounts_nonneg(s: Seq<AmountEntry>) -> bool {
    forall|i: int| 0 <= i < s.len() ==> #[trigger] s[i].amount >= 0
}

/// A key that no entry carries reads as zero.
proof fn lemma_amount_of_absent(s: Seq<AmountEntry>, key: u64)
    requires
        forall|i: int| 0 <= i < s.len() ==> #[trigger] s[i].key != key,
    ensures
        amount_of(s, key) == 0,
    decreases s.len(),
{
    if s.len() > 0 {
        lemma_amount_of_absent(s.drop_last(), key);
    }
}

/// With distinct keys, the lookup returns the amount of the one entry
/// that carries the key.
proof fn lemma_amount_of_found(s: Seq<AmountEntry>, i: int)
    requires
        keys_unique(s),
        0 <= i < s.len(),
    ensures
        amount_of(s, s[i].key) == s[i].amount,
    decreases s.len(),
{
    if i < s.len() - 1 {
        lemma_amount_of_found(s.drop_last(), i);
    }
}

/// Replacing the entry at `i` rewrites that key's amount, leaves every
/// other key's amount alone, and shifts the total by the difference.
proof fn lemma_amount_update(s: Seq<AmountEntry>, i: int, e: AmountEntry)
    requires
        keys_unique(s),
        0 <= i < s.len(),
        s[i].key == e.key,
    ensures
        keys_unique(s.update(i, e)),
        amount_of(s.update(i, e), e.key) == e.amount,
        forall|k: u64| k != e.key ==> amount_of(s.update(i, e), k) == amount_of(s, k),
        amounts_total(s.update(i, e)) == amounts_total(s) + e.amount - s[i].amount,
    decreases s.len(),
{
    let t = s.update(i, e);
    assert(keys_unique(t)) by {
        assert(forall|a: int| 0 <= a < t.len() ==> #[trigger] t[a].key == s[a].key);
    }
    if i == s.len() - 1 {
        assert(t.drop_last() =~= s.drop_last());
        lemma_amount_of_found(s, i);
        assert forall|k: u64| k != e.key implies amount_of(t, k) == amount_of(s, k) by {
            assert(amount_of(t, k) == amount_of(t.drop_last(), k));
            assert(amount_of(s, k) == amount_of(s.drop_last(), k));
        }
    } else {
        assert(t.drop_last() =~= s.drop_last().update(i, e));
        assert(keys_unique(s.drop_last()));
        lemma_amount_update(s.drop_last(), i, e);
        assert(s.last().key != e.key);
        assert(t.last() == s.last());
        assert forall|k: u64| k != e.key implies amount_of(t, k) == amount_of(s, k) by {
            if s.last().key != k {
                assert(amount_of(t, k) == amount_of(t.drop_last(), k));
                assert(amount_of(s, k) == amount_of(s.drop_last(), k));
            }
        }
    }
}

/// Appending an entry under a fresh key introduces that key's amount,
/// leaves every other key's amount alone, and adds to the total.
proof fn lemma_amount_push(s: Seq<AmountEntry>, e: AmountEntry)
    requires
        forall|i: int| 0 <= i < s.len() ==> #[trigger] s[i].key != e.key,
    ensures
        amount_of(s.push(e), e.key) == e.amount,
        forall|k: u64| k != e.key ==> amount_of(s.push(e), k) == amount_of(s, k),
        amounts_total(s.push(e)) == amounts_total(s) + e.amount,
{
    assert(s.push(e).drop_last() =~= s);
}

/// In a table of non-negative amounts the total is non-negative.
pub proof fn lemma_total_nonneg(s: Seq<AmountEntry>)
    requires
        amounts_nonneg(s),
    ensures
        amounts_total(s) >= 0,
    decreases s.len(),
{
    if s.len() > 0 {
        lemma_total_nonneg(s.drop_last());
    }
}

/// In a table of non-negative amounts every lookup is non-negative.
pub proof fn lemma_amount_nonneg(s: Seq<AmountEntry>, key: u64)
    requires
        amounts_nonneg(s),
    ensures
        amount_of(s, key) >= 0,
    decreases s.len(),
{
    if s.len() > 0 {
        lemma_amount_nonneg(s.drop_last(), key);
    }
}

/// In a table of distinct keys and non-negative amounts no single amount
/// exceeds the total.
pub proof fn lemma_amount_le_total(s: Seq<AmountEntry>, key: u64)
    requires
        keys_unique(s),
        amounts_nonneg(s),
    ensures
        amount_of(s, key) <= amounts_total(s),
    decreases s.len(),
{
    if s.len() > 0 {
        assert(keys_unique(s.drop_last()));
        lemma_amount_le_total(s.drop_last(), key);
        lemma_total_nonneg(s.drop_last());
        if s.last().key == key {
            lemma_amount_nonneg(s.drop_last(), key);
        }
    }
}

/// In such a table the amounts of two distinct keys never exceed the
/// total together.
pub proof fn lemma_two_amounts_le_total(s: Seq<AmountEntry>, k1: u64, k2: u64)
    requires
        keys_unique(s),
        amounts_nonneg(s),
        k1 != k2,
    ensures
        amount_of(s, k1) + amount_of(s, k2) <= amounts_total(s),
    decreases s.len(),
{
    if s.len() > 0 {
        assert(keys_unique(s.drop_last()));
        lemma_two_amounts_le_total(s.drop_last(), k1, k2);
        if s.last().key == k1 {
            lemma_amount_nonneg(s.drop_last(), k1);
            lemma_amount_le_total(s.drop_last(), k2);
        } else if s.last().key == k2 {
            lemma_amount_nonneg(s.drop_last(), k2);
            lemma_amount_le_total(s.drop_last(), k1);
        }
    }
}

/// Reads the amount stored under `key`, defaulting to zero.
pub fn amount_get(v: &Vec<AmountEntry>, key: u64) -> (r: i128)
    requires
        keys_unique(v@),
    ensures
        r == amount_of(v@, key),
{
    let n = v.len();
    let mut idx: usize = 0;
    while idx < n
        invariant
            keys_unique(v@),
            n == v@.len(),
            idx <= n,
            forall|j: int| 0 <= j < idx ==> #[trigger] v@[j].key != key,
        decreases n - idx,
    {
        if v[idx].key == key {
            proof {
                lemma_amount_of_found(v@, idx as int);
            }
            return v[idx].amount;
        }
        idx = idx + 1;
    }
    proof {
        lemma_amount_of_absent(v@, key);
    }
    0
}

/// Stores `amount` under `key`, overwriting any prior entry for `key`.
pub fn amount_set(v: &mut Vec<AmountEntry>, key: u64, amount: i128)
    requires
        keys_unique(old(v)@),
    ensures
        keys_unique(final(v)@),
        amount_of(final(v)@, key) == amount,
        forall|k: u64| k != key ==> amount_of(final(v)@, k) == amount_of(old(v)@, k),
        amounts_total(final(v)@) == amounts_total(old(v)@) + amount - amount_of(old(v)@, key),
        amounts_nonneg(old(v)@) && amount >= 0 ==> amounts_nonneg(final(v)@),
{
    let n = v.len();
    let mut idx: usize = 0;
    while idx < n
        invariant
            keys_unique(v@),
            n == v@.len(),
            idx <= n,
            v@ == old(v)@,
            forall|j: int| 0 <= j < idx ==> #[trigger] v@[j].key != key,
        decreases n - idx,
    {
        if v[idx].key == key {
            proof {
                lemma_amount_of_found(v@, idx as int);
                lemma_amount_update(v@, idx as int, AmountEntry { key, amount });
            }
            let slot = vstd::std_specs::vec::vec_index_mut(v, idx);
            *slot = AmountEntry { key, amount };
            return ;
        }
        idx = idx + 1;
    }
    proof {
        lemma_amount_of_absent(v@, key);
        lemma_amount_push(v@, AmountEntry { key, amount });
    }
    v.push(AmountEntry { key, amount });
}

/// The allowance recorded for `(owner, spender)`, when one exists.
pub open spec fn allowance_of(s: Seq<PairEntry>, owner: u64, spender: u64) -> Option<AllowanceData>
    decreases s.len(),
{
    if s.len() == 0 {
        Option::None
    } else if s.last().owner == owner && s.last().spender == spender {
        Option::Some(s.last().data)
    } else {
        allowance_of(s.drop_last(), owner, spender)
    }
}

/// No two entries share an (owner, spender) pair.
pub open spec fn pairs_unique(s: Seq<PairEntry>) -> bool {
    forall|i: int, j: int|
        0 <= i < j < s.len() ==> !(#[trigger] s[i].owner == #[trigger] s[j].owner
            && s[i].spender == s[j].spender)
}

/// A pair that no entry carries reads as no record.
proof fn lemma_allowance_of_absent(s: Seq<PairEntry>, owner: u64, spender: u64)
    requires
        forall|i: int|
            0 <= i < s.len() ==> !(#[trigger] s[i].owner == owner && s[i].spender == spender),
    ensures
        allowance_of(s, owner, spender) is None,
    decreases s.len(),
{
    if s.len() > 0 {
        lemma_allowance_of_absent(s.drop_last(), owner, spender);
    }
}

/// With distinct pairs, the lookup returns the one entry that carries the
/// pair.
proof fn lemma_allowance_of_found(s: Seq<PairEntry>, i: int)
    requires
        pairs_unique(s),
        0 <= i < s.len(),
    ensures
        allowance_of(s, s[i].owner, s[i].spender) == Option::Some(s[i].data),
    decreases s.len(),
{
    if i < s.len() - 1 {
        lemma_allowance_of_found(s.drop_last(), i);
    }
}

/// Replacing the entry at `i` rewrites that pair's record and leaves
/// every other pair's record alone.
proof fn lemma_allowance_update(s: Seq<PairEntry>, i: int, e: PairEntry)
    requires
        pairs_unique(s),
        0 <= i < s.len(),
        s[i].owner == e.owner,
        s[i].spender == e.spender,
    ensures
        pairs_unique(s.update(i, e)),
        allowance_of(s.update(i, e), e.owner, e.spender) == Option::Some(e.data),
        forall|o: u64, p: u64|
            !(o == e.owner && p == e.spender) ==> allowance_of(s.update(i, e), o, p)
                == allowance_of(s, o, p),
    decreases s.len(),
{
    let t = s.update(i, e);
    assert(pairs_unique(t)) by {
        assert(forall|a: int|
            0 <= a < t.len() ==> #[trigger] t[a].owner == s[a].owner && t[a].spender
                == s[a].spender);
    }
    if i == s.len() - 1 {
        assert(t.drop_last() =~= s.drop_last());
        assert forall|o: u64, p: u64| !(o == e.owner && p == e.spender) implies allowance_of(
            t,
            o,
            p,
        ) == allowance_of(s, o, p) by {
            assert(allowance_of(t, o, p) == allowance_of(t.drop_last(), o, p));
            assert(allowance_of(s, o, p) == allowance_of(s.drop_last(), o, p));
        }
    } else {
        assert(t.drop_last() =~= s.drop_last().update(i, e));
        assert(pairs_unique(s.drop_last()));
        lemma_allowance_update(s.drop_last(), i, e);
        assert(!(s.last().owner == e.owner && s.last().spender == e.spender));
        assert(t.last() == s.last());
        assert forall|o: u64, p: u64| !(o == e.owner && p == e.spender) implies allowance_of(
            t,
            o,
            p,
        ) == allowance_of(s, o, p) by {
            if !(s.last().owner == o && s.last().spender == p) {
                assert(allowance_of(t, o, p) == allowance_of(t.drop_last(), o, p));
                assert(allowance_of(s, o, p) == allowance_of(s.drop_last(), o, p));
            }
        }
    }
}

/// Appending an entry under a fresh pair introduces that pair's record
/// and leaves every other pair's record alone.
proof fn lemma_allowance_push(s: Seq<PairEntry>, e: PairEntry)
    requires
        forall|i: int|
            0 <= i < s.len() ==> !(#[trigger] s[i].owner == e.owner && s[i].spender == e.spender),
    ensures
        allowance_of(s.push(e), e.owner, e.spender) == Option::Some(e.data),
        forall|o: u64, p: u64|
            !(o == e.owner && p == e.spender) ==> allowance_of(s.push(e), o, p)
                == allowance_of(s, o, p),
{
    assert(s.push(e).drop_last() =~= s);
}

/// Dropping the entry at `i` erases that pair's record and leaves every
/// other pair's record alone.
proof fn lemma_allowance_remove(s: Seq<PairEntry>, i: int)
    requires
        pairs_unique(s),
        0 <= i < s.len(),
    ensures
        pairs_unique(s.remove(i)),
        allowance_of(s.remove(i), s[i].owner, s[i].spender) is None,
        forall|o: u64, p: u64|
            !(o == s[i].owner && p == s[i].spender) ==> allowance_of(s.remove(i), o, p)
                == allowance_of(s, o, p),
    decreases s.len(),
{
    let t = s.remove(i);
    assert(pairs_unique(t)) by {
        assert(forall|a: int|
            0 <= a < t.len() ==> #[trigger] t[a] == if a < i {
                s[a]
            } else {
                s[a + 1]
            });
    }
    if i == s.len() - 1 {
        assert(t =~= s.drop_last());
        lemma_allowance_of_absent(t, s[i].owner, s[i].spender);
        assert forall|o: u64, p: u64| !(o == s[i].owner && p == s[i].spender) implies allowance_of(
            t,
            o,
            p,
        ) == allowance_of(s, o, p) by {
            assert(allowance_of(s, o, p) == allowance_of(s.drop_last(), o, p));
        }
    } else {
        assert(t.last() == s.last());
        assert(t.drop_last() =~= s.drop_last().remove(i));
        assert(pairs_unique(s.drop_last()));
        lemma_allowance_remove(s.drop_last(), i);
        assert(!(s.last().owner == s[i].owner && s.last().spender == s[i].spender));
        assert forall|o: u64, p: u64| !(o == s[i].owner && p == s[i].spender) implies allowance_of(
            t,
            o,
            p,
        ) == allowance_of(s, o, p) by {
            if !(s.last().owner == o && s.last().spender == p) {
                assert(allowance_of(t, o, p) == allowance_of(t.drop_last(), o, p));
                assert(allowance_of(s, o, p) == allowance_of(s.drop_last(), o, p));
            }
        }
    }
}

/// Reads the allowance recorded for `(owner, spender)`, if any.
pub fn allowance_get(v: &Vec<PairEntry>, owner: u64, spender: u64) -> (r: Option<AllowanceData>)
    requires
        pairs_unique(v@),
    ensures
        r == allowance_of(v@, owner, spender),
{
    let n = v.len();
    let mut idx: usize = 0;
    while idx < n
        invariant
            pairs_unique(v@),
            n == v@.len(),
            idx <= n,
            forall|j: int|
                0 <= j < idx ==> !(#[trigger] v@[j].owner == owner && v@[j].spender == spender),
        decreases n - idx,
    {
        if v[idx].owner == owner && v[idx].spender == spender {
            proof {
                lemma_allowance_of_found(v@, idx as int);
            }
            return Option::Some(v[idx].data);
        }
        idx = idx + 1;
    }
    proof {
        lemma_allowance_of_absent(v@, owner, spender);
    }
    Option::None
}

/// Stores `data` for `(owner, spender)`, overwriting any prior record.
pub fn allowance_set(v: &mut Vec<PairEntry>, owner: u64, spender: u64, data: AllowanceData)
    requires
        pairs_unique(old(v)@),
    ensures
        pairs_unique(final(v)@),
        allowance_of(final(v)@, owner, spender) == Option::Some(data),
        forall|o: u64, p: u64|
            !(o == owner && p == spender) ==> allowance_of(final(v)@, o, p) == allowance_of(
                old(v)@,
                o,
                p,
            ),
{
    let n = v.len();
    let mut idx: usize = 0;
    while idx < n
        invariant
            pairs_unique(v@),
            n == v@.len(),
            idx <= n,
            v@ == old(v)@,
            forall|j: int|
                0 <= j < idx ==> !(#[trigger] v@[j].owner == owner && v@[j].spender == spender),
        decreases n - idx,
    {
        if v[idx].owner == owner && v[idx].spender == spender {
            proof {
                lemma_allowance_update(v@, idx as int, PairEntry { owner, spender, data });
            }
            let slot = vstd::std_specs::vec::vec_index_mut(v, idx);
            *slot = PairEntry { owner, spender, data };
            return ;
        }
        idx = idx + 1;
    }
    proof {
        lemma_allowance_push(v@, PairEntry { owner, spender, data });
    }
    v.push(PairEntry { owner, spender, data });
}

/// Deletes the record for `(owner, spender)`, if any.
pub fn allowance_remove(v: &mut Vec<PairEntry>, owner: u64, spender: u64)
    requires
        pairs_unique(old(v)@),
    ensures
        pairs_unique(final(v)@),
        allowance_of(final(v)@, owner, spender) is None,
        forall|o: u64, p: u64|
            !(o == owner && p == spender) ==> allowance_of(final(v)@, o, p) == allowance_of(
                old(v)@,
                o,
                p,
            ),
{
    let n = v.len();
    let mut idx: usize = 0;
    while idx < n
        invariant
            pairs_unique(v@),
            n == v@.len(),
            idx <= n,
            v@ == old(v)@,
            forall|j: int|
                0 <= j < idx ==> !(#[trigger] v@[j].owner == owner && v@[j].spender == spender),
        decreases n - idx,
    {
        if v[idx].owner == owner && v[idx].spender == spender {
            proof {
                lemma_allowance_remove(v@, idx as int);
            }
            v.remove(idx);
            return ;
        }
        idx = idx + 1;
    }
    proof {
        lemma_allowance_of_absent(v@, owner, spender);
    }
}

} // verus!
