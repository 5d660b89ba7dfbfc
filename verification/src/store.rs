//! The wallet store: the single source of truth for device binding.
//!
//! The store keeps one record per provisioned wallet. Its invariant — no two
//! records bind the same device — is enforced by [`WalletStore::insert`]
//! alone: the orchestrator's earlier lookup is only an advisory pre-check.
use vstd::prelude::*;

use crate::error::WalletError;
use crate::models::spec_touch;
use crate::models::with_last_seen;
use crate::models::Wallet;
use crate::strutil::str_eq;

verus! {

/// Some record binds device `d`.
pub open spec fn has_device(ws: Seq<Wallet>, d: Seq<char>) -> bool {
    exists|i: int| 0 <= i < ws.len() && (#[trigger] ws[i]).device_id@ == d
}

/// Some record carries wallet id `id`.
pub open spec fn has_wallet(ws: Seq<Wallet>, id: Seq<char>) -> bool {
    exists|i: int| 0 <= i < ws.len() && (#[trigger] ws[i]).wallet_id@ == id
}

/// Index of the first record carrying wallet id `id`, if any.
pub open spec fn find_wallet(ws: Seq<Wallet>, id: Seq<char>) -> Option<int>
    decreases ws.len(),
{
    if ws.len() == 0 {
        Option::None
    } else if ws[0].wallet_id@ == id {
        Option::Some(0int)
    } else {
        match find_wallet(ws.drop_first(), id) {
            Option::None => Option::None,
            Option::Some(i) => Option::Some(i + 1),
        }
    }
}

/// How many records bind device `d`.
pub open spec fn device_count(ws: Seq<Wallet>, d: Seq<char>) -> nat
    decreases ws.len(),
{
    if ws.len() == 0 {
        0
    } else {
        device_count(ws.drop_last(), d) + (if ws.last().device_id@ == d {
            1nat
        } else {
            0nat
        })
    }
}

/// The store invariant: no two records bind the same device.
pub open spec fn wf_wallets(ws: Seq<Wallet>) -> bool {
    forall|i: int, j: int|
        #![trigger ws[i], ws[j]]
        0 <= i < j < ws.len() ==> ws[i].device_id@ != ws[j].device_id@
}

/// `find_wallet` yields the first matching index, and `None` exactly when no
/// record matches.
pub proof fn lemma_find_wallet(ws: Seq<Wallet>, id: Seq<char>)
    ensures
        match find_wallet(ws, id) {
            Option::None => !has_wallet(ws, id),
            Option::Some(i) => {
                &&& 0 <= i < ws.len()
                &&& ws[i].wallet_id@ == id
                &&& forall|j: int| 0 <= j < i ==> (#[trigger] ws[j]).wallet_id@ != id
            },
        },
    decreases ws.len(),
{
    if ws.len() > 0 && ws[0].wallet_id@ != id {
        lemma_find_wallet(ws.drop_first(), id);
        let tail = ws.drop_first();
        assert(forall|k: int| 0 <= k < tail.len() ==> tail[k] == ws[k + 1]);
        match find_wallet(tail, id) {
            Option::None => {
                assert forall|j: int| 0 <= j < ws.len() implies (#[trigger] ws[j]).wallet_id@
                    != id by {
                    if j > 0 {
                        assert(tail[j - 1] == ws[j]);
                        assert(!has_wallet(tail, id));
                        assert(!(0 <= j - 1 < tail.len() && tail[j - 1].wallet_id@ == id));
                    }
                }
            },
            Option::Some(i) => {
                assert(ws[i + 1] == tail[i]);
                assert forall|j: int| 0 <= j < i + 1 implies (#[trigger] ws[j]).wallet_id@
                    != id by {
                    if j > 0 {
                        assert(tail[j - 1] == ws[j]);
                    }
                }
            },
        }
    }
}

proof fn lemma_device_count_absent(ws: Seq<Wallet>, d: Seq<char>)
    requires
        !has_device(ws, d),
    ensures
        device_count(ws, d) == 0,
    decreases ws.len(),
{
    if ws.len() > 0 {
        let prefix = ws.drop_last();
        assert(forall|k: int| 0 <= k < prefix.len() ==> prefix[k] == ws[k]);
        assert(!has_device(prefix, d)) by {
            if has_device(prefix, d) {
                let i = choose|i: int|
                    0 <= i < prefix.len() && (#[trigger] prefix[i]).device_id@ == d;
                assert(ws[i].device_id@ == d);
            }
        }
        lemma_device_count_absent(prefix, d);
        assert(ws[ws.len() - 1] == ws.last());
    }
}

/// A well-formed store holds at most one record per device: exactly one
/// when the device is bound, none otherwise.
pub proof fn lemma_wf_device_count(ws: Seq<Wallet>, d: Seq<char>)
    requires
        wf_wallets(ws),
    ensures
        device_count(ws, d) <= 1,
        has_device(ws, d) <==> device_count(ws, d) == 1,
    decreases ws.len(),
{
    if ws.len() > 0 {
        let prefix = ws.drop_last();
        assert(forall|k: int| 0 <= k < prefix.len() ==> prefix[k] == ws[k]);
        assert(ws[ws.len() - 1] == ws.last());
        assert forall|i: int, j: int| 0 <= i < j < prefix.len() implies prefix[i].device_id@
            != prefix[j].device_id@ by {
            assert(prefix[i] == ws[i] && prefix[j] == ws[j]);
        }
        lemma_wf_device_count(prefix, d);
        if ws.last().device_id@ == d {
            assert(!has_device(prefix, d)) by {
                if has_device(prefix, d) {
                    let i = choose|i: int|
                        0 <= i < prefix.len() && (#[trigger] prefix[i]).device_id@ == d;
                    assert(ws[i].device_id@ == d && ws[ws.len() - 1].device_id@ == d);
                }
            }
            lemma_device_count_absent(prefix, d);
            assert(has_device(ws, d));
        } else {
            assert(has_device(ws, d) <==> has_device(prefix, d)) by {
                if has_device(ws, d) {
                    let i = choose|i: int|
                        0 <= i < ws.len() && (#[trigger] ws[i]).device_id@ == d;
                    assert(i < ws.len() - 1);
                    assert(prefix[i] == ws[i]);
                    assert(has_device(prefix, d));
                }
                if has_device(prefix, d) {
                    let i = choose|i: int|
                        0 <= i < prefix.len() && (#[trigger] prefix[i]).device_id@ == d;
                    assert(ws[i].device_id@ == d);
                }
            }
        }
    }
}

/// One wallet per device: a store that held no record for a device and
/// accepted one holds exactly one record for it afterwards. Together with
/// `WalletStore::insert`'s contract this covers racing creations for one
/// device: the store accepts exactly one of the two inserts, the other
/// fails with `DeviceAlreadyBound` and changes nothing, and one record
/// remains.
pub proof fn lemma_one_wallet_per_device(ws: Seq<Wallet>, w: Wallet)
    requires
        wf_wallets(ws),
        !has_device(ws, w.device_id@),
    ensures
        wf_wallets(ws.push(w)),
        has_device(ws.push(w), w.device_id@),
        device_count(ws.push(w), w.device_id@) == 1,
{
    let ws1 = ws.push(w);
    assert(ws1[ws.len() as int] == w);
    assert(has_device(ws1, w.device_id@));
    assert forall|i: int, j: int| 0 <= i < j < ws1.len() implies ws1[i].device_id@
        != ws1[j].device_id@ by {
        if j < ws.len() {
            assert(ws1[i] == ws[i] && ws1[j] == ws[j]);
        } else {
            assert(ws1[j] == w);
            assert(ws1[i] == ws[i]);
        }
    }
    lemma_wf_device_count(ws1, w.device_id@);
}

/// The in-memory wallet store.
pub struct WalletStore {
    pub wallets: Vec<Wallet>,
}

impl WalletStore {
    /// The store invariant as a predicate on the whole store.
    pub open spec fn wf(&self) -> bool {
        wf_wallets(self.wallets@)
    }

    /// An empty store.
    pub fn new() -> (s: WalletStore)
        ensures
            s.wallets@ =~= Seq::<Wallet>::empty(),
            s.wf(),
    {
        WalletStore { wallets: Vec::new() }
    }

    fn device_index(&self, device_id: &str) -> (r: Option<usize>)
        ensures
            r matches Some(i) ==> i < self.wallets@.len()
                && self.wallets@[i as int].device_id@ == device_id@,
            r is None ==> !has_device(self.wallets@, device_id@),
    {
        let n = self.wallets.len();
        let mut k: usize = 0;
        while k < n
            invariant
                n == self.wallets@.len(),
                0 <= k <= n,
                forall|j: int| 0 <= j < k ==> (#[trigger] self.wallets@[j]).device_id@
                    != device_id@,
            decreases n - k,
        {
            if str_eq(self.wallets[k].device_id.as_str(), device_id) {
                return Some(k);
            }
            k = k + 1;
        }
        None
    }

    pub(crate) fn wallet_id_index(&self, wallet_id: &str) -> (r: Option<usize>)
        ensures
            r matches Some(i) ==> find_wallet(self.wallets@, wallet_id@) == Option::Some(
                i as int,
            ),
            r is None ==> find_wallet(self.wallets@, wallet_id@) is None && !has_wallet(
                self.wallets@,
                wallet_id@,
            ),
    {
        let n = self.wallets.len();
        let mut k: usize = 0;
        while k < n
            invariant
                n == self.wallets@.len(),
                0 <= k <= n,
                forall|j: int| 0 <= j < k ==> (#[trigger] self.wallets@[j]).wallet_id@
                    != wallet_id@,
            decreases n - k,
        {
            if str_eq(self.wallets[k].wallet_id.as_str(), wallet_id) {
                proof {
                    lemma_find_wallet(self.wallets@, wallet_id@);
                    match find_wallet(self.wallets@, wallet_id@) {
                        Option::None => {
                            assert(has_wallet(self.wallets@, wallet_id@));
                        },
                        Option::Some(i) => {
                            // two first-match indices coincide
                            if i < k as int {
                                assert(self.wallets@[i].wallet_id@ != wallet_id@);
                            }
                            if (k as int) < i {
                                assert(self.wallets@[k as int].wallet_id@ != wallet_id@);
                            }
                        },
                    }
                }
                return Some(k);
            }
            k = k + 1;
        }
        proof {
            lemma_find_wallet(self.wallets@, wallet_id@);
            match find_wallet(self.wallets@, wallet_id@) {
                Option::Some(i) => {
                    assert(self.wallets@[i].wallet_id@ != wallet_id@);
                },
                Option::None => {},
            }
        }
        None
    }

    /// The uniqueness pre-check: is some wallet bound to this device?
    pub fn contains_device(&self, device_id: &str) -> (r: bool)
        ensures
            r == has_device(self.wallets@, device_id@),
    {
        match self.device_index(device_id) {
            Some(i) => {
                proof {
                    assert(has_device(self.wallets@, device_id@));
                }
                true
            },
            None => false,
        }
    }

    /// Single consistent read used for the uniqueness pre-check: the record
    /// bound to this device, if any.
    pub fn find_by_device_id(&self, device_id: &str) -> (r: Option<&Wallet>)
        ensures
            r is Some <==> has_device(self.wallets@, device_id@),
            r matches Some(w) ==> w.device_id@ == device_id@ && exists|i: int|
                0 <= i < self.wallets@.len() && *w == (#[trigger] self.wallets@[i]),
    {
        match self.device_index(device_id) {
            Some(i) => {
                proof {
                    assert(has_device(self.wallets@, device_id@));
                }
                Some(&self.wallets[i])
            },
            None => None,
        }
    }

    /// The record carrying this wallet id (the first, if ids ever repeat).
    pub fn find_by_id(&self, wallet_id: &str) -> (r: Option<&Wallet>)
        ensures
            r is Some <==> has_wallet(self.wallets@, wallet_id@),
            r matches Some(w) ==> (find_wallet(self.wallets@, wallet_id@) matches Option::Some(i)
                && *w == self.wallets@[i]),
    {
        proof {
            lemma_find_wallet(self.wallets@, wallet_id@);
        }
        match self.wallet_id_index(wallet_id) {
            Some(i) => {
                proof {
                    assert(has_wallet(self.wallets@, wallet_id@));
                }
                Some(&self.wallets[i])
            },
            None => None,
        }
    }

    /// Atomic insert, the sole enforcement point of one-wallet-per-device:
    /// rejects the record, changing nothing, when its device is already
    /// bound; otherwise appends it.
    pub fn insert(&mut self, w: Wallet) -> (r: Result<(), WalletError>)
        requires
            old(self).wf(),
        ensures
            final(self).wf(),
            has_device(old(self).wallets@, w.device_id@) ==> r == Err::<(), WalletError>(
                WalletError::DeviceAlreadyBound,
            ) && final(self).wallets@ == old(self).wallets@,
            !has_device(old(self).wallets@, w.device_id@) ==> r == Ok::<(), WalletError>(())
                && final(self).wallets@ == old(self).wallets@.push(w),
    {
        match self.device_index(w.device_id.as_str()) {
            Some(i) => {
                proof {
                    assert(has_device(self.wallets@, w.device_id@));
                }
                Err(WalletError::DeviceAlreadyBound)
            },
            None => {
                self.wallets.push(w);
                proof {
                    let ws0 = old(self).wallets@;
                    let ws1 = self.wallets@;
                    assert forall|i: int, j: int| 0 <= i < j < ws1.len() implies ws1[i].device_id@
                        != ws1[j].device_id@ by {
                        if j < ws0.len() {
                            assert(ws1[i] == ws0[i] && ws1[j] == ws0[j]);
                        } else {
                            assert(ws1[j] == w);
                            assert(ws1[i] == ws0[i]);
                            assert(!(0 <= i < ws0.len() && ws0[i].device_id@ == w.device_id@));
                        }
                    }
                }
                Ok(())
            },
        }
    }

    /// Advance one record's liveness timestamp, never backward: the new
    /// `last_seen_at` is the later of its old value and `now`.
    pub fn touch_last_seen(&mut self, wallet_id: &str, now: i64) -> (r: Result<(), WalletError>)
        requires
            old(self).wf(),
        ensures
            final(self).wf(),
            !has_wallet(old(self).wallets@, wallet_id@) ==> r == Err::<(), WalletError>(
                WalletError::WalletNotFound,
            ) && final(self).wallets@ == old(self).wallets@,
            has_wallet(old(self).wallets@, wallet_id@) ==> r == Ok::<(), WalletError>(()) && (
            find_wallet(old(self).wallets@, wallet_id@) matches Option::Some(i)
                && final(self).wallets@ == old(self).wallets@.update(
                i,
                with_last_seen(
                    old(self).wallets@[i],
                    spec_touch(old(self).wallets@[i].last_seen_at, now),
                ),
            )),
    {
        proof {
            lemma_find_wallet(self.wallets@, wallet_id@);
        }
        let i = match self.wallet_id_index(wallet_id) {
            None => {
                return Err(WalletError::WalletNotFound);
            },
            Some(i) => i,
        };
        let ghost ws0 = self.wallets@;
        let mut w = self.wallets.remove(i);
        let t: i64 = match w.last_seen_at {
            Some(p) => if p > now {
                p
            } else {
                now
            },
            None => now,
        };
        w.last_seen_at = Some(t);
        let ghost w1 = w;
        self.wallets.insert(i, w);
        proof {
            assert(has_wallet(ws0, wallet_id@));
            assert(w1 == with_last_seen(ws0[i as int], spec_touch(ws0[i as int].last_seen_at, now)));
            vstd::seq_lib::lemma_update_is_remove_insert(ws0, i as int, w1);
            assert(self.wallets@ =~= ws0.update(i as int, w1));
            assert forall|p: int, q: int| 0 <= p < q < self.wallets@.len() implies self.wallets@[
                p
            ].device_id@ != self.wallets@[q].device_id@ by {
                assert(self.wallets@[p].device_id@ == ws0[p].device_id@);
                assert(self.wallets@[q].device_id@ == ws0[q].device_id@);
            }
        }
        Ok(())
    }
}

} // verus!
