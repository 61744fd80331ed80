use vstd::prelude::*;
use crate::address::Address;
use crate::errors::CraftingError;

verus! {

/// How much of one kind of material one owner holds.
#[derive(Clone, Copy, Debug, PartialEq, Eq)]
struct LedgerEntry {
    owner: Address,
    kind: Address,
    amount: u64,
}

/// Whether an entry is that of an owner for a kind.
spec fn entry_is_for(entry: LedgerEntry, owner: Address, kind: Address) -> bool {
    entry.owner == owner && entry.kind == kind
}

/// Whether no two entries are for the same owner and kind.
spec fn keys_unique(entries: Seq<LedgerEntry>) -> bool {
    forall|i: int, j: int|
        0 <= i < j < entries.len() ==> !entry_is_for(
            #[trigger] entries[i],
            (#[trigger] entries[j]).owner,
            entries[j].kind,
        )
}

/// The amount that the entries record for an owner and a kind, zero where
/// there is no entry.
spec fn entry_balance(entries: Seq<LedgerEntry>, owner: Address, kind: Address) -> nat {
    if exists|i: int| 0 <= i < entries.len() && entry_is_for(#[trigger] entries[i], owner, kind) {
        let i = choose|i: int| 0 <= i < entries.len() && entry_is_for(#[trigger] entries[i], owner, kind);
        entries[i].amount as nat
    } else {
        0
    }
}

/// With unique keys, the balance of a key is the amount of its one entry.
proof fn lemma_balance_at(entries: Seq<LedgerEntry>, i: int)
    requires
        keys_unique(entries),
        0 <= i < entries.len(),
    ensures
        entry_balance(entries, entries[i].owner, entries[i].kind) == entries[i].amount,
{
    let owner = entries[i].owner;
    let kind = entries[i].kind;
    assert(entry_is_for(entries[i], owner, kind));
    let c = choose|c: int| 0 <= c < entries.len() && entry_is_for(#[trigger] entries[c], owner, kind);
    if c < i {
        assert(!entry_is_for(entries[c], entries[i].owner, entries[i].kind));
    } else if i < c {
        assert(!entry_is_for(entries[i], entries[c].owner, entries[c].kind));
    }
}

/// One requirement of a recipe: a kind of material and how much of it.
#[derive(Clone, Copy, Debug, PartialEq, Eq)]
pub struct Ingredient {
    pub material_mint: Address,
    pub quantity: u64,
}

/// The sum of the amounts asked of one kind by the first `n` requirements.
pub open spec fn required_through(requirements: Seq<Ingredient>, kind: Address, n: int) -> int
    decreases n,
{
    if n <= 0 {
        0
    } else {
        required_through(requirements, kind, n - 1) + if requirements[n - 1].material_mint == kind {
            requirements[n - 1].quantity as int
        } else {
            0
        }
    }
}

/// The sum of the amounts asked of one kind by all requirements.
pub open spec fn required_total(requirements: Seq<Ingredient>, kind: Address) -> int {
    required_through(requirements, kind, requirements.len() as int)
}

/// Whether requirement `j` can still be debited once those before it have been.
pub open spec fn debit_fits(requirements: Seq<Ingredient>, balance: spec_fn(Address) -> nat, j: int) -> bool {
    required_through(requirements, requirements[j].material_mint, j + 1) <= balance(
        requirements[j].material_mint,
    )
}

/// Whether every requirement of a batch can be debited, one after the other.
pub open spec fn batch_fits(requirements: Seq<Ingredient>, balance: spec_fn(Address) -> nat) -> bool {
    forall|j: int| 0 <= j < requirements.len() ==> #[trigger] debit_fits(requirements, balance, j)
}

/// Whether `j` is the first requirement of a batch that cannot be debited.
pub open spec fn first_unmet(requirements: Seq<Ingredient>, balance: spec_fn(Address) -> nat, j: int) -> bool {
    &&& 0 <= j < requirements.len()
    &&& !debit_fits(requirements, balance, j)
    &&& forall|i: int| 0 <= i < j ==> #[trigger] debit_fits(requirements, balance, i)
}

/// The position of the first requirement of a batch that cannot be debited.
pub open spec fn first_unmet_index(requirements: Seq<Ingredient>, balance: spec_fn(Address) -> nat) -> int {
    choose|j: int| first_unmet(requirements, balance, j)
}

/// The error of a batch that does not fit: that of its first unmet requirement.
pub open spec fn batch_failure(requirements: Seq<Ingredient>, balance: spec_fn(Address) -> nat) -> CraftingError {
    batch_error(requirements, balance, first_unmet_index(requirements, balance))
}

/// The error of a batch whose requirement `j` is the first that cannot be
/// debited: it names the kind, the amount asked for, and what is left of the
/// balance after the requirements before it.
pub open spec fn batch_error(requirements: Seq<Ingredient>, balance: spec_fn(Address) -> nat, j: int) -> CraftingError {
    CraftingError::InsufficientMaterialBalance {
        kind: requirements[j].material_mint,
        required: requirements[j].quantity,
        available: (balance(requirements[j].material_mint) - required_through(
            requirements,
            requirements[j].material_mint,
            j,
        )) as u64,
    }
}

/// A batch has one first unmet requirement at most, and has one exactly when
/// it does not fit.
pub proof fn lemma_first_unmet(requirements: Seq<Ingredient>, balance: spec_fn(Address) -> nat)
    ensures
        batch_fits(requirements, balance) <==> !exists|j: int| first_unmet(requirements, balance, j),
        forall|i: int, j: int|
            first_unmet(requirements, balance, i) && first_unmet(requirements, balance, j) ==> i == j,
{
    if !batch_fits(requirements, balance) {
        let bad = choose|j: int| 0 <= j < requirements.len() && !debit_fits(requirements, balance, j);
        lemma_least_unmet(requirements, balance, bad);
    }
}

proof fn lemma_least_unmet(requirements: Seq<Ingredient>, balance: spec_fn(Address) -> nat, bad: int)
    requires
        0 <= bad < requirements.len(),
        !debit_fits(requirements, balance, bad),
    ensures
        exists|j: int| first_unmet(requirements, balance, j),
    decreases bad,
{
    if exists|i: int| 0 <= i < bad && !debit_fits(requirements, balance, i) {
        let i = choose|i: int| 0 <= i < bad && !debit_fits(requirements, balance, i);
        lemma_least_unmet(requirements, balance, i);
    } else {
        assert(first_unmet(requirements, balance, bad));
    }
}

/// Whether a ledger is another one less what a list of requirements asks of an owner.
pub open spec fn debited(
    before: &MaterialLedger,
    after: &MaterialLedger,
    owner: Address,
    requirements: Seq<Ingredient>,
) -> bool {
    forall|o: Address, k: Address| #[trigger]
        after.balance_of(o, k) == before.balance_of(o, k) - if o == owner {
            required_total(requirements, k)
        } else {
            0
        }
}

/// A book of material balances, one per owner and kind. A key without an
/// entry has the balance zero.
#[derive(Debug)]
pub struct MaterialLedger {
    entries: Vec<LedgerEntry>,
}

impl MaterialLedger {
    /// Whether the ledger is sound: it has one entry at most for each owner
    /// and kind. Every ledger that this library hands out is sound.
    pub closed spec fn well_formed(&self) -> bool {
        keys_unique(self.entries@)
    }

    /// The balance of an owner for a kind of material.
    pub closed spec fn balance_of(&self, owner: Address, kind: Address) -> nat {
        entry_balance(self.entries@, owner, kind)
    }

    /// The balances of one owner, by kind.
    pub open spec fn balances_of(&self, owner: Address) -> spec_fn(Address) -> nat {
        |kind: Address| self.balance_of(owner, kind)
    }

    /// Whether the ledger is another one but for the balance of one owner
    /// for one kind, which is the given amount.
    pub open spec fn changed_at(&self, before: &MaterialLedger, owner: Address, kind: Address, amount: int) -> bool {
        &&& self.balance_of(owner, kind) == amount
        &&& forall|o: Address, k: Address|
            !(o == owner && k == kind) ==> #[trigger] self.balance_of(o, k) == before.balance_of(o, k)
    }

    /// Whether two ledgers hold the same balance for every owner and kind.
    pub open spec fn same_balances(&self, other: &MaterialLedger) -> bool {
        forall|o: Address, k: Address| #[trigger] self.balance_of(o, k) == other.balance_of(o, k)
    }

    /// An empty ledger: every balance is zero.
    pub fn new() -> (ledger: MaterialLedger)
        ensures
            ledger.well_formed(),
            forall|o: Address, k: Address| #[trigger] ledger.balance_of(o, k) == 0,
    {
        MaterialLedger { entries: Vec::new() }
    }

    fn position(&self, owner: &Address, kind: &Address) -> (found: Option<usize>)
        ensures
            (match found {
                Some(i) => i < self.entries@.len() && entry_is_for(self.entries@[i as int], *owner, *kind),
                None => forall|i: int|
                    0 <= i < self.entries@.len() ==> !entry_is_for(
                        #[trigger] self.entries@[i],
                        *owner,
                        *kind,
                    ),
            }),
    {
        let mut i: usize = 0;
        while i < self.entries.len()
            invariant
                i <= self.entries@.len(),
                forall|j: int| 0 <= j < i ==> !entry_is_for(#[trigger] self.entries@[j], *owner, *kind),
            decreases self.entries.len() - i,
        {
            if self.entries[i].owner.same(owner) && self.entries[i].kind.same(kind) {
                return Some(i);
            }
            i += 1;
        }
        None
    }

    /// Reads the balance of an owner for a kind of material.
    pub fn balance(&self, owner: &Address, kind: &Address) -> (amount: u64)
        requires
            self.well_formed(),
        ensures
            amount == self.balance_of(*owner, *kind),
    {
        match self.position(owner, kind) {
            Some(i) => {
                proof {
                    lemma_balance_at(self.entries@, i as int);
                }
                self.entries[i].amount
            },
            None => 0,
        }
    }

    /// A copy of the ledger.
    pub fn duplicate(&self) -> (copy: MaterialLedger)
        requires
            self.well_formed(),
        ensures
            copy.well_formed(),
            copy.same_balances(self),
    {
        let mut entries: Vec<LedgerEntry> = Vec::new();
        let mut i: usize = 0;
        while i < self.entries.len()
            invariant
                i <= self.entries@.len(),
                entries@ == self.entries@.take(i as int),
            decreases self.entries.len() - i,
        {
            entries.push(self.entries[i]);
            assert(entries@ =~= self.entries@.take(i as int + 1));
            i += 1;
        }
        assert(entries@ =~= self.entries@);
        MaterialLedger { entries }
    }

    /// Adds to the balance of an owner for a kind. Where the balance would
    /// overflow, nothing changes and the error says so.
    pub fn credit(&mut self, owner: Address, kind: Address, amount: u64) -> (result: Result<
        (),
        CraftingError,
    >)
        requires
            old(self).well_formed(),
        ensures
            final(self).well_formed(),
            old(self).balance_of(owner, kind) + amount <= u64::MAX ==> result is Ok && final(self).changed_at(old(self), owner, kind, old(self).balance_of(owner, kind) + amount),
            old(self).balance_of(owner, kind) + amount > u64::MAX ==> result == Err::<
                (),
                CraftingError,
            >(CraftingError::ArithmeticOverflow) && final(self).same_balances(old(self)),
    {
        let ghost before = self.entries@;
        match self.position(&owner, &kind) {
            Some(i) => {
                proof {
                    lemma_balance_at(before, i as int);
                }
                let held = self.entries[i].amount;
                match held.checked_add(amount) {
                    Some(sum) => {
                        self.entries[i] = LedgerEntry { owner, kind, amount: sum };
                        proof {
                            lemma_after_update(before, self.entries@, i as int);
                        }
                        Ok(())
                    },
                    None => Err(CraftingError::ArithmeticOverflow),
                }
            },
            None => {
                self.entries.push(LedgerEntry { owner, kind, amount });
                proof {
                    lemma_after_push(before, LedgerEntry { owner, kind, amount });
                }
                Ok(())
            },
        }
    }

    /// Takes from the balance of an owner for a kind. Where the balance is
    /// too low, nothing changes and the error names the kind, the amount
    /// asked for and the amount held.
    pub fn debit(&mut self, owner: Address, kind: Address, amount: u64) -> (result: Result<
        (),
        CraftingError,
    >)
        requires
            old(self).well_formed(),
        ensures
            final(self).well_formed(),
            amount <= old(self).balance_of(owner, kind) ==> result is Ok && final(self).changed_at(
                old(self),
                owner,
                kind,
                old(self).balance_of(owner, kind) - amount,
            ),
            amount > old(self).balance_of(owner, kind) ==> result == Err::<(), CraftingError>(
                CraftingError::InsufficientMaterialBalance {
                    kind,
                    required: amount,
                    available: old(self).balance_of(owner, kind) as u64,
                },
            ) && final(self).same_balances(old(self)),
    {
        let ghost before = self.entries@;
        match self.position(&owner, &kind) {
            Some(i) => {
                proof {
                    lemma_balance_at(before, i as int);
                }
                let held = self.entries[i].amount;
                if amount > held {
                    return Err(
                        CraftingError::InsufficientMaterialBalance {
                            kind,
                            required: amount,
                            available: held,
                        },
                    );
                }
                self.entries[i] = LedgerEntry { owner, kind, amount: held - amount };
                proof {
                    lemma_after_update(before, self.entries@, i as int);
                }
                Ok(())
            },
            None => {
                if amount > 0 {
                    return Err(
                        CraftingError::InsufficientMaterialBalance {
                            kind,
                            required: amount,
                            available: 0,
                        },
                    );
                }
                Ok(())
            },
        }
    }

    /// Debits a batch of requirements from one owner, in order, all or
    /// nothing. Where one of them cannot be debited, no balance changes and
    /// the error is that of the first such requirement.
    pub fn debit_batch(&mut self, owner: Address, requirements: &Vec<Ingredient>) -> (result: Result<
        (),
        CraftingError,
    >)
        requires
            old(self).well_formed(),
        ensures
            final(self).well_formed(),
            batch_fits(requirements@, old(self).balances_of(owner)) ==> result is Ok && debited(
                old(self),
                final(self),
                owner,
                requirements@,
            ),
            !batch_fits(requirements@, old(self).balances_of(owner)) ==> result == Err::<
                (),
                CraftingError,
            >(batch_failure(requirements@, old(self).balances_of(owner))) && final(self).same_balances(
                old(self),
            ) && *final(self) == *old(self),
    {
        let ghost before = *self;
        let ghost held = before.balances_of(owner);
        let mut working = self.duplicate();
        let mut i: usize = 0;
        while i < requirements.len()
            invariant
                i <= requirements@.len(),
                working.well_formed(),
                *self == before,
                before == *old(self),
                before.well_formed(),
                held == before.balances_of(owner),
                forall|j: int| 0 <= j < i ==> #[trigger] debit_fits(requirements@, held, j),
                forall|o: Address, k: Address| #[trigger]
                    working.balance_of(o, k) == before.balance_of(o, k) - if o == owner {
                        required_through(requirements@, k, i as int)
                    } else {
                        0
                    },
            decreases requirements.len() - i,
        {
            let wanted = requirements[i];
            let ghost kind = wanted.material_mint;
            assert(working.balance_of(owner, kind) == held(kind) - required_through(
                requirements@,
                kind,
                i as int,
            ));
            let ghost step_before = working;
            match working.debit(owner, wanted.material_mint, wanted.quantity) {
                Ok(()) => {
                    assert(debit_fits(requirements@, held, i as int));
                    assert forall|o: Address, k: Address| #[trigger]
                        working.balance_of(o, k) == before.balance_of(o, k) - if o == owner {
                            required_through(requirements@, k, i as int + 1)
                        } else {
                            0
                        } by {
                        assert(step_before.balance_of(o, k) == before.balance_of(o, k) - if o == owner {
                            required_through(requirements@, k, i as int)
                        } else {
                            0
                        });
                    }
                },
                Err(e) => {
                    assert(!debit_fits(requirements@, held, i as int));
                    assert(first_unmet(requirements@, held, i as int));
                    assert(e == batch_error(requirements@, held, i as int));
                    proof {
                        lemma_first_unmet(requirements@, held);
                    }
                    return Err(e);
                },
            }
            i += 1;
        }
        assert(batch_fits(requirements@, held));
        *self = working;
        Ok(())
    }
}

/// Balances after the amount of entry `i` is replaced.
proof fn lemma_after_update(entries: Seq<LedgerEntry>, updated: Seq<LedgerEntry>, i: int)
    requires
        keys_unique(entries),
        0 <= i < entries.len(),
        updated.len() == entries.len(),
        forall|j: int| 0 <= j < entries.len() && j != i ==> updated[j] == entries[j],
        updated[i].owner == entries[i].owner,
        updated[i].kind == entries[i].kind,
    ensures
        keys_unique(updated),
        forall|o: Address, k: Address| #[trigger]
            entry_balance(updated, o, k) == (if o == entries[i].owner && k == entries[i].kind {
                updated[i].amount as nat
            } else {
                entry_balance(entries, o, k)
            }),
{
    assert(keys_unique(updated)) by {
        assert forall|a: int, b: int| 0 <= a < b < updated.len() implies !entry_is_for(
            #[trigger] updated[a],
            (#[trigger] updated[b]).owner,
            updated[b].kind,
        ) by {
            assert(!entry_is_for(entries[a], entries[b].owner, entries[b].kind));
        }
    }
    assert forall|o: Address, k: Address| #[trigger]
        entry_balance(updated, o, k) == if o == entries[i].owner && k == entries[i].kind {
            updated[i].amount as nat
        } else {
            entry_balance(entries, o, k)
        } by {
        if o == entries[i].owner && k == entries[i].kind {
            lemma_balance_at(updated, i);
        } else {
            lemma_balance_same_elsewhere(entries, updated, o, k);
        }
    }
}

/// Two lists of entries with unique keys that agree on the entries of a key
/// give that key the same balance.
proof fn lemma_balance_same_elsewhere(a: Seq<LedgerEntry>, b: Seq<LedgerEntry>, o: Address, k: Address)
    requires
        keys_unique(a),
        keys_unique(b),
        a.len() <= b.len(),
        forall|i: int| 0 <= i < a.len() && entry_is_for(#[trigger] a[i], o, k) ==> b[i] == a[i],
        forall|i: int| 0 <= i < b.len() && entry_is_for(#[trigger] b[i], o, k) ==> i < a.len() && b[i] == a[i],
    ensures
        entry_balance(a, o, k) == entry_balance(b, o, k),
{
    if exists|i: int| 0 <= i < a.len() && entry_is_for(#[trigger] a[i], o, k) {
        let i = choose|i: int| 0 <= i < a.len() && entry_is_for(#[trigger] a[i], o, k);
        lemma_balance_at(a, i);
        assert(entry_is_for(b[i], o, k));
        lemma_balance_at(b, i);
    } else {
        if exists|i: int| 0 <= i < b.len() && entry_is_for(#[trigger] b[i], o, k) {
            let i = choose|i: int| 0 <= i < b.len() && entry_is_for(#[trigger] b[i], o, k);
            assert(entry_is_for(a[i], o, k));
        }
    }
}

/// Balances after an entry for a new key is appended.
proof fn lemma_after_push(entries: Seq<LedgerEntry>, entry: LedgerEntry)
    requires
        keys_unique(entries),
        forall|i: int| 0 <= i < entries.len() ==> !entry_is_for(#[trigger] entries[i], entry.owner, entry.kind),
    ensures
        keys_unique(entries.push(entry)),
        forall|o: Address, k: Address| #[trigger]
            entry_balance(entries.push(entry), o, k) == (if o == entry.owner && k == entry.kind {
                entry.amount as nat
            } else {
                entry_balance(entries, o, k)
            }),
{
    let pushed = entries.push(entry);
    assert(keys_unique(pushed)) by {
        assert forall|a: int, b: int| 0 <= a < b < pushed.len() implies !entry_is_for(
            #[trigger] pushed[a],
            (#[trigger] pushed[b]).owner,
            pushed[b].kind,
        ) by {
            if b < entries.len() {
                assert(!entry_is_for(entries[a], entries[b].owner, entries[b].kind));
            } else {
                assert(!entry_is_for(entries[a], entry.owner, entry.kind));
            }
        }
    }
    assert forall|o: Address, k: Address| #[trigger]
        entry_balance(pushed, o, k) == if o == entry.owner && k == entry.kind {
            entry.amount as nat
        } else {
            entry_balance(entries, o, k)
        } by {
        if o == entry.owner && k == entry.kind {
            lemma_balance_at(pushed, entries.len() as int);
        } else {
            lemma_balance_same_elsewhere(entries, pushed, o, k);
        }
    }
}

} // verus!
