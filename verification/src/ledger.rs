//! The ledger: an append-only store of transactions, kept in the order in
//! which they were admitted and found again by identifier.
//!
//! A transaction is admitted only if no entry has its identifier and its
//! signature verifies under the public key that comes with it. Admission is
//! all or nothing: a transaction that is turned away leaves the ledger as it
//! was.

use crate::codec::TransactionId;
use crate::error::TransactionError;
use crate::transaction::{QuantumTransaction, TransactionView};
use vstd::prelude::*;

verus! {

/// The views of `entries`, in the same order.
pub open spec fn transaction_views(entries: Seq<QuantumTransaction>) -> Seq<TransactionView> {
    entries.map_values(|tx: QuantumTransaction| tx@)
}

/// Whether some entry of `ledger` has the identifier `id`.
pub open spec fn holds_id(ledger: Seq<TransactionView>, id: Seq<u8>) -> bool {
    exists|i: int| 0 <= i < ledger.len() && #[trigger] ledger[i].id() == id
}

/// The place of an entry of `ledger` with the identifier `id`, where there
/// is one.
pub open spec fn position_of(ledger: Seq<TransactionView>, id: Seq<u8>) -> int {
    choose|i: int| 0 <= i < ledger.len() && #[trigger] ledger[i].id() == id
}

/// The entry of `ledger` with the identifier `id`, if there is one.
pub open spec fn lookup(ledger: Seq<TransactionView>, id: Seq<u8>) -> Option<TransactionView> {
    if holds_id(ledger, id) {
        Some(ledger[position_of(ledger, id)])
    } else {
        None
    }
}

/// Whether `tx` verifies under some public key.
pub open spec fn authenticated(tx: TransactionView) -> bool {
    exists|public_key: Seq<u8>| #[trigger] tx.verifies(public_key)
}

/// What holds of every ledger: no two entries share an identifier, and every
/// entry verifies under some public key, the one that it was admitted with.
pub open spec fn ledger_invariant(ledger: Seq<TransactionView>) -> bool {
    &&& forall|i: int, j: int|
        0 <= i < j < ledger.len() ==> #[trigger] ledger[i].id() != #[trigger] ledger[j].id()
    &&& forall|i: int| 0 <= i < ledger.len() ==> authenticated(#[trigger] ledger[i])
}

/// The answer of `ledger` to a request to admit a transaction with the
/// identifier `id`, where `accepted` says whether its signature verified: a
/// known identifier is a duplicate, whether or not the signature verified; a
/// new one needs a verified signature.
pub open spec fn admission(ledger: Seq<TransactionView>, id: Seq<u8>, accepted: bool) -> Result<
    (),
    TransactionError,
> {
    if holds_id(ledger, id) {
        Err(TransactionError::DuplicateTransaction)
    } else if !accepted {
        Err(TransactionError::InvalidSignature)
    } else {
        Ok(())
    }
}

/// The ledger after a request to admit `tx`: `tx` is appended if it was
/// admitted, and nothing changes if it was not.
pub open spec fn after_admission(
    ledger: Seq<TransactionView>,
    tx: TransactionView,
    accepted: bool,
) -> Seq<TransactionView> {
    if admission(ledger, tx.id(), accepted) is Ok {
        ledger.push(tx)
    } else {
        ledger
    }
}

/// Admission keeps the ledger's invariant, as long as `accepted` is said only
/// of a transaction that verifies.
pub proof fn lemma_admission_keeps_invariant(
    ledger: Seq<TransactionView>,
    tx: TransactionView,
    accepted: bool,
)
    requires
        ledger_invariant(ledger),
        accepted ==> authenticated(tx),
    ensures
        ledger_invariant(after_admission(ledger, tx, accepted)),
{
    let after = after_admission(ledger, tx, accepted);
    if admission(ledger, tx.id(), accepted) is Ok {
        assert forall|i: int, j: int| 0 <= i < j < after.len() implies #[trigger] after[i].id()
            != #[trigger] after[j].id() by {
            assert(ledger[i].id() == after[i].id());
            if j < ledger.len() {
                assert(ledger[j].id() == after[j].id());
            }
        }
        assert forall|i: int| 0 <= i < after.len() implies authenticated(#[trigger] after[i]) by {
            if i < ledger.len() {
                assert(authenticated(ledger[i]));
            }
        }
    }
}

/// A transaction that was admitted is found under its identifier, exactly as
/// it was handed in.
pub proof fn lemma_admitted_is_found(
    ledger: Seq<TransactionView>,
    tx: TransactionView,
    accepted: bool,
)
    requires
        admission(ledger, tx.id(), accepted) is Ok,
    ensures
        lookup(after_admission(ledger, tx, accepted), tx.id()) == Some(tx),
{
    let after = after_admission(ledger, tx, accepted);
    let last = ledger.len() as int;
    assert(after[last].id() == tx.id());
    let found = position_of(after, tx.id());
    if found < last {
        assert(ledger[found].id() == after[found].id());
    }
}

/// Whatever is asked of a ledger afterwards, an entry that it holds stays
/// where it is and as it is: admission appends, and changes nothing else.
pub proof fn lemma_admission_keeps_entries(
    ledger: Seq<TransactionView>,
    tx: TransactionView,
    accepted: bool,
    id: Seq<u8>,
)
    requires
        ledger_invariant(ledger),
        holds_id(ledger, id),
    ensures
        ledger.is_prefix_of(after_admission(ledger, tx, accepted)),
        lookup(after_admission(ledger, tx, accepted), id) == lookup(ledger, id),
{
    let after = after_admission(ledger, tx, accepted);
    let before = position_of(ledger, id);
    assert(after[before].id() == id);
    let found = position_of(after, id);
    if found < ledger.len() {
        assert(ledger[found].id() == after[found].id());
        if found < before {
            assert(ledger[found].id() != ledger[before].id());
        } else if before < found {
            assert(ledger[before].id() != ledger[found].id());
        }
    }
}

/// A second request with the sender, receiver, amount and nonce of an
/// admitted transaction is a duplicate, whatever its signature, and leaves
/// the ledger with the entries it had.
pub proof fn lemma_second_admission_is_duplicate(
    ledger: Seq<TransactionView>,
    first: TransactionView,
    first_accepted: bool,
    second: TransactionView,
    second_accepted: bool,
)
    requires
        admission(ledger, first.id(), first_accepted) is Ok,
        second.sender == first.sender,
        second.receiver == first.receiver,
        second.amount == first.amount,
        second.nonce == first.nonce,
    ensures
        ({
            let once = after_admission(ledger, first, first_accepted);
            &&& admission(once, second.id(), second_accepted) == Err::<(), TransactionError>(
                TransactionError::DuplicateTransaction,
            )
            &&& after_admission(once, second, second_accepted) == once
            &&& once.len() == ledger.len() + 1
        }),
{
    let once = after_admission(ledger, first, first_accepted);
    assert(once[ledger.len() as int].id() == second.id());
}

/// A transaction with a new identifier whose signature does not verify is
/// turned away as such, and the ledger is what it was.
pub proof fn lemma_rejected_leaves_ledger(ledger: Seq<TransactionView>, tx: TransactionView)
    requires
        !holds_id(ledger, tx.id()),
    ensures
        admission(ledger, tx.id(), false) == Err::<(), TransactionError>(
            TransactionError::InvalidSignature,
        ),
        after_admission(ledger, tx, false) == ledger,
{
}

/// The ledger. It starts empty and only grows.
#[derive(Debug)]
pub struct QuantumBlockchain {
    entries: Vec<QuantumTransaction>,
    ids: Vec<TransactionId>,
}

impl View for QuantumBlockchain {
    type V = Seq<TransactionView>;

    closed spec fn view(&self) -> Seq<TransactionView> {
        transaction_views(self.entries@)
    }
}

impl QuantumBlockchain {
    /// Whether the ledger is in order: it keeps each entry's identifier
    /// beside the entry, and `ledger_invariant` holds of its entries. A
    /// ledger can only be made by `new` and changed by `add_transaction`,
    /// which see to it.
    pub closed spec fn wf(&self) -> bool {
        &&& self.ids@.len() == self.entries@.len()
        &&& forall|i: int|
            0 <= i < self.ids@.len() ==> (#[trigger] self.ids@[i])@ == self.entries@[i]@.id()
        &&& ledger_invariant(self@)
    }

    /// What `wf` says of the entries.
    pub proof fn lemma_wf_entries(&self)
        requires
            self.wf(),
        ensures
            ledger_invariant(self@),
    {
    }

    /// An empty ledger.
    pub fn new() -> (ledger: QuantumBlockchain)
        ensures
            ledger.wf(),
            ledger@ == Seq::<TransactionView>::empty(),
    {
        QuantumBlockchain { entries: Vec::new(), ids: Vec::new() }
    }

    /// The number of entries.
    pub fn len(&self) -> (count: usize)
        ensures
            count == self@.len(),
    {
        self.entries.len()
    }

    /// Whether the ledger has no entry.
    pub fn is_empty(&self) -> (empty: bool)
        ensures
            empty == (self@.len() == 0),
    {
        self.entries.len() == 0
    }

    /// The place of the entry with the identifier `id`, if there is one.
    fn position(&self, id: &TransactionId) -> (place: Option<usize>)
        requires
            self.wf(),
        ensures
            match place {
                Some(i) => i < self@.len() && self@[i as int].id() == id@ && position_of(
                    self@,
                    id@,
                ) == i,
                None => !holds_id(self@, id@),
            },
    {
        let mut i: usize = 0;
        while i < self.ids.len()
            invariant
                i <= self.ids@.len(),
                self.ids@.len() == self.entries@.len(),
                self@ == transaction_views(self.entries@),
                forall|k: int|
                    0 <= k < self.ids@.len() ==> (#[trigger] self.ids@[k])@
                        == self.entries@[k]@.id(),
                forall|k: int| 0 <= k < i ==> (#[trigger] self@[k]).id() != id@,
                ledger_invariant(self@),
            decreases self.ids@.len() - i,
        {
            if self.ids[i].matches(id) {
                proof {
                    assert(self@[i as int].id() == id@);
                    let found = position_of(self@, id@);
                    if found < i {
                        assert(self@[found].id() != id@);
                    } else if i < found {
                        assert(self@[i as int].id() != self@[found].id());
                    }
                }
                return Some(i);
            }
            i += 1;
        }
        None
    }

    /// The transaction with the identifier `id`, if the ledger holds one.
    /// Nothing is changed.
    pub fn get(&self, id: &TransactionId) -> (found: Option<&QuantumTransaction>)
        requires
            self.wf(),
        ensures
            match found {
                Some(tx) => lookup(self@, id@) == Some(tx@),
                None => lookup(self@, id@) is None,
            },
    {
        match self.position(id) {
            Some(i) => Some(&self.entries[i]),
            None => None,
        }
    }

    /// The entries in the order in which they were admitted. It can be asked
    /// for as often as one likes, and changes nothing.
    pub fn iter(&self) -> (entries: &[QuantumTransaction])
        ensures
            transaction_views(entries@) == self@,
    {
        self.entries.as_slice()
    }

    /// Whether `tx` verifies under `public_key`. The ledger is not consulted
    /// and not changed.
    pub fn verify_transaction(&self, tx: &QuantumTransaction, public_key: &[u8]) -> (accepted:
        bool)
        ensures
            accepted == tx@.verifies(public_key@),
    {
        tx.verify(public_key)
    }

    /// The answer that this ledger gives to a request to admit a transaction
    /// with the identifier `id`, where `accepted` says whether the signature
    /// of that transaction verified. Nothing is changed.
    pub fn check_admission(&self, id: &TransactionId, accepted: bool) -> (answer: Result<
        (),
        TransactionError,
    >)
        requires
            self.wf(),
        ensures
            answer == admission(self@, id@, accepted),
    {
        if self.position(id).is_some() {
            Err(TransactionError::DuplicateTransaction)
        } else if !accepted {
            Err(TransactionError::InvalidSignature)
        } else {
            Ok(())
        }
    }

    /// Admits `tx` if no entry has its identifier and its signature verifies
    /// under `public_key`.
    ///
    /// A known identifier is answered with `DuplicateTransaction`, a
    /// signature that does not verify with `InvalidSignature`; in both cases
    /// the ledger stays exactly as it was. Otherwise `tx` becomes the last
    /// entry.
    pub fn add_transaction(&mut self, tx: QuantumTransaction, public_key: &[u8]) -> (answer:
        Result<(), TransactionError>)
        requires
            old(self).wf(),
        ensures
            final(self).wf(),
            answer == admission(old(self)@, tx@.id(), tx@.verifies(public_key@)),
            final(self)@ == after_admission(old(self)@, tx@, tx@.verifies(public_key@)),
            old(self)@.is_prefix_of(final(self)@),
    {
        let id = tx.id();
        let accepted = tx.verify(public_key);
        match self.check_admission(&id, accepted) {
            Ok(()) => {
                proof {
                    lemma_admission_keeps_invariant(self@, tx@, accepted);
                    assert(transaction_views(self.entries@.push(tx)) =~= self@.push(tx@));
                }
                self.entries.push(tx);
                self.ids.push(id);
                Ok(())
            },
            Err(e) => Err(e),
        }
    }
}

} // verus!
