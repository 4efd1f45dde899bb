//! The token store: the mapping from purchase token to local record.
//!
//! The store here keeps its records in memory. It has the two unique keys of
//! the persisted table, the record's identifier and the token itself, and the
//! three operations that reconciliation needs.

use vstd::prelude::*;
use crate::model::{PurchaseToken, TokenRecord};
use crate::text::same_text;
use crate::time::Timestamp;
use crate::types::PurchaseTokenStatus;

verus! {

/// Why the store refused a record.
#[derive(Debug, Clone, Copy, PartialEq, Eq, Structural)]
pub enum StoreError {
    /// The token or the identifier is already on record.
    Conflict,
}

/// Whether some record in `records` belongs to `token`.
pub open spec fn holds_token(records: Seq<TokenRecord>, token: Seq<char>) -> bool {
    exists|i: int| 0 <= i < records.len() && #[trigger] records[i].purchase_token == token
}

/// Whether some record in `records` has the identifier `id`.
pub open spec fn holds_id(records: Seq<TokenRecord>, id: Seq<char>) -> bool {
    exists|i: int| 0 <= i < records.len() && #[trigger] records[i].id == id
}

/// The place of the record that belongs to `token`, where there is one.
pub open spec fn position_of(records: Seq<TokenRecord>, token: Seq<char>) -> int {
    choose|i: int| 0 <= i < records.len() && #[trigger] records[i].purchase_token == token
}

/// The record that belongs to `token`, if any.
pub open spec fn lookup(records: Seq<TokenRecord>, token: Seq<char>) -> Option<TokenRecord> {
    if holds_token(records, token) {
        Some(records[position_of(records, token)])
    } else {
        None
    }
}

/// No token and no identifier occurs in two records.
pub open spec fn keys_unique(records: Seq<TokenRecord>) -> bool {
    forall|i: int, j: int|
        0 <= i < j < records.len() ==> (#[trigger] records[i]).purchase_token != (
        #[trigger] records[j]).purchase_token && records[i].id != records[j].id
}

/// A record after a partial update: a field for which nothing is given keeps
/// its value.
pub open spec fn amended(
    record: TokenRecord,
    status: Option<PurchaseTokenStatus>,
    expiry_at: Option<Timestamp>,
) -> TokenRecord {
    TokenRecord {
        status: match status {
            Some(s) => s,
            None => record.status,
        },
        expiry_at: match expiry_at {
            Some(t) => t,
            None => record.expiry_at,
        },
        ..record
    }
}

/// A change to one record.
#[derive(Debug, Clone, Copy, PartialEq, Eq, Structural)]
pub enum Change {
    /// A partial update: a field for which nothing is given keeps its value.
    Amend { status: Option<PurchaseTokenStatus>, expiry_at: Option<Timestamp> },
    /// Access is granted again: the status says so, and the expiry moves to
    /// the given one unless the record already reaches further.
    Refresh { until: Timestamp },
}

/// A record after a change.
pub open spec fn changed(record: TokenRecord, change: Change) -> TokenRecord {
    match change {
        Change::Amend { status, expiry_at } => amended(record, status, expiry_at),
        Change::Refresh { until } => TokenRecord {
            status: PurchaseTokenStatus::AccessGranted,
            expiry_at: record.expiry_at.spec_latest(until),
            ..record
        },
    }
}

/// The records after a change to the one with identifier `id`.
pub open spec fn with_change(records: Seq<TokenRecord>, id: Seq<char>, change: Change) -> Seq<
    TokenRecord,
> {
    Seq::new(
        records.len(),
        |i: int|
            if records[i].id == id {
                changed(records[i], change)
            } else {
                records[i]
            },
    )
}

/// The records after a partial update of the one with identifier `id`.
pub open spec fn with_update(
    records: Seq<TokenRecord>,
    id: Seq<char>,
    status: Option<PurchaseTokenStatus>,
    expiry_at: Option<Timestamp>,
) -> Seq<TokenRecord> {
    with_change(records, id, Change::Amend { status, expiry_at })
}

/// The records after access was granted again to the one with identifier `id`.
pub open spec fn with_refresh(records: Seq<TokenRecord>, id: Seq<char>, expiry_at: Timestamp) -> Seq<
    TokenRecord,
> {
    with_change(records, id, Change::Refresh { until: expiry_at })
}

/// The records after the one with identifier `id` was marked expired.
pub open spec fn with_expired(records: Seq<TokenRecord>, id: Seq<char>) -> Seq<TokenRecord> {
    with_update(records, id, Some(PurchaseTokenStatus::Expired), None)
}

/// The records after an insertion: the new record comes last, unless one of
/// its keys is taken, in which case nothing changes.
pub open spec fn with_insert(records: Seq<TokenRecord>, record: TokenRecord) -> Seq<TokenRecord> {
    if holds_token(records, record.purchase_token) || holds_id(records, record.id) {
        records
    } else {
        records.push(record)
    }
}

/// In unique records the one that belongs to a token is found at every place
/// that holds the token.
pub proof fn lemma_lookup_at(records: Seq<TokenRecord>, i: int)
    requires
        keys_unique(records),
        0 <= i < records.len(),
    ensures
        lookup(records, records[i].purchase_token) == Some(records[i]),
{
    let token = records[i].purchase_token;
    assert(holds_token(records, token));
    let j = position_of(records, token);
    assert(0 <= j < records.len() && records[j].purchase_token == token);
    if j < i {
        assert(records[j].purchase_token != records[i].purchase_token);
    }
    if i < j {
        assert(records[i].purchase_token != records[j].purchase_token);
    }
}

/// Two tokens whose records have one identifier are one token.
pub proof fn lemma_ids_tell_tokens_apart(
    records: Seq<TokenRecord>,
    first: Seq<char>,
    second: Seq<char>,
)
    requires
        keys_unique(records),
        lookup(records, first) is Some,
        lookup(records, second) is Some,
        lookup(records, first)->Some_0.id == lookup(records, second)->Some_0.id,
    ensures
        first == second,
{
    let p = position_of(records, first);
    let q = position_of(records, second);
    assert(0 <= p < records.len() && records[p].purchase_token == first);
    assert(0 <= q < records.len() && records[q].purchase_token == second);
    if p < q {
        assert(records[p].id != records[q].id);
    }
    if q < p {
        assert(records[q].id != records[p].id);
    }
}

/// A change touches neither the tokens nor the identifiers, so the keys stay
/// unique and every token stays on record.
pub proof fn lemma_change_keeps_keys(records: Seq<TokenRecord>, id: Seq<char>, change: Change)
    requires
        keys_unique(records),
    ensures
        keys_unique(with_change(records, id, change)),
        forall|token: Seq<char>|
            holds_token(with_change(records, id, change), token) == holds_token(records, token),
        forall|other: Seq<char>|
            holds_id(with_change(records, id, change), other) == holds_id(records, other),
{
    let after = with_change(records, id, change);
    assert forall|token: Seq<char>| holds_token(after, token) == holds_token(records, token) by {
        if holds_token(records, token) {
            let i = position_of(records, token);
            assert(after[i].purchase_token == token);
        }
        if holds_token(after, token) {
            let i = position_of(after, token);
            assert(records[i].purchase_token == token);
        }
    }
    assert forall|other: Seq<char>| holds_id(after, other) == holds_id(records, other) by {
        if holds_id(records, other) {
            let i = choose|i: int| 0 <= i < records.len() && #[trigger] records[i].id == other;
            assert(after[i].id == other);
        }
        if holds_id(after, other) {
            let i = choose|i: int| 0 <= i < after.len() && #[trigger] after[i].id == other;
            assert(records[i].id == other);
        }
    }
    assert forall|i: int, j: int| 0 <= i < j < after.len() implies (#[trigger] after[i]).purchase_token
        != (#[trigger] after[j]).purchase_token && after[i].id != after[j].id by {
        assert(records[i].purchase_token != records[j].purchase_token && records[i].id
            != records[j].id);
    }
}

/// After a change, the record of a token is the old one, changed where its
/// identifier is the one that the change was for.
pub proof fn lemma_change_lookup(
    records: Seq<TokenRecord>,
    id: Seq<char>,
    change: Change,
    token: Seq<char>,
)
    requires
        keys_unique(records),
    ensures
        lookup(with_change(records, id, change), token) == match lookup(records, token) {
            Some(r) => Some(
                if r.id == id {
                    changed(r, change)
                } else {
                    r
                },
            ),
            None => None,
        },
{
    let after = with_change(records, id, change);
    lemma_change_keeps_keys(records, id, change);
    if holds_token(records, token) {
        let i = position_of(records, token);
        assert(after[i].purchase_token == token);
        lemma_lookup_at(after, i);
    }
}

/// After an insertion that was taken in, the new record is found under its
/// token and every other token finds what it found before.
pub proof fn lemma_insert_lookup(records: Seq<TokenRecord>, record: TokenRecord, token: Seq<char>)
    requires
        keys_unique(records),
        !holds_token(records, record.purchase_token),
        !holds_id(records, record.id),
    ensures
        keys_unique(records.push(record)),
        lookup(records.push(record), token) == if token == record.purchase_token {
            Some(record)
        } else {
            lookup(records, token)
        },
{
    let after = records.push(record);
    assert forall|i: int, j: int| 0 <= i < j < after.len() implies (#[trigger] after[i]).purchase_token
        != (#[trigger] after[j]).purchase_token && after[i].id != after[j].id by {
        if j < records.len() {
            assert(records[i].purchase_token != records[j].purchase_token && records[i].id
                != records[j].id);
        } else {
            assert(after[i] == records[i]);
            assert(records[i].purchase_token != record.purchase_token);
            assert(records[i].id != record.id);
        }
    }
    if token == record.purchase_token {
        assert(after[records.len() as int] == record);
        lemma_lookup_at(after, records.len() as int);
    } else {
        if holds_token(records, token) {
            let i = position_of(records, token);
            assert(after[i] == records[i]);
            lemma_lookup_at(after, i);
            lemma_lookup_at(records, i);
        } else {
            if holds_token(after, token) {
                let i = position_of(after, token);
                assert(i < records.len());
                assert(records[i].purchase_token == token);
            }
        }
    }
}

/// The store of purchase-token records.
#[derive(Debug, Clone)]
pub struct TokenStore {
    records: Vec<PurchaseToken>,
}

impl View for TokenStore {
    type V = Seq<TokenRecord>;

    closed spec fn view(&self) -> Seq<TokenRecord> {
        Seq::new(self.records@.len(), |i: int| self.records@[i]@)
    }
}

impl TokenStore {
    /// The store's invariant: no token and no identifier is on record twice.
    pub open spec fn wf(&self) -> bool {
        keys_unique(self@)
    }

    /// A store without records.
    pub fn new() -> (store: Self)
        ensures
            store.wf(),
            store@ == Seq::<TokenRecord>::empty(),
    {
        let store = TokenStore { records: Vec::new() };
        assert(store@ =~= Seq::<TokenRecord>::empty());
        store
    }

    /// The number of records.
    pub fn len(&self) -> (n: usize)
        ensures
            n == self@.len(),
    {
        self.records.len()
    }

    /// The record of `token`, if the store has one. Nothing changes.
    pub fn find_by_token(&self, token: &str) -> (found: Option<PurchaseToken>)
        requires
            self.wf(),
        ensures
            match found {
                Some(record) => lookup(self@, token@) == Some(record@),
                None => lookup(self@, token@) is None,
            },
    {
        let mut i: usize = 0;
        while i < self.records.len()
            invariant
                i <= self.records.len(),
                self.wf(),
                forall|k: int| 0 <= k < i ==> (#[trigger] self@[k]).purchase_token != token@,
            decreases self.records.len() - i,
        {
            if same_text(self.records[i].purchase_token.as_str(), token) {
                proof {
                    assert(self@[i as int] == self.records@[i as int]@);
                    lemma_lookup_at(self@, i as int);
                }
                return Some(self.records[i].duplicate());
            }
            assert(self@[i as int].purchase_token != token@);
            i += 1;
        }
        assert(!holds_token(self@, token@));
        None
    }

    /// Whether a record with identifier `id` is in the store.
    fn has_id(&self, id: &str) -> (found: bool)
        ensures
            found == holds_id(self@, id@),
    {
        let mut i: usize = 0;
        while i < self.records.len()
            invariant
                i <= self.records.len(),
                forall|k: int| 0 <= k < i ==> (#[trigger] self@[k]).id != id@,
            decreases self.records.len() - i,
        {
            if same_text(self.records[i].id.as_str(), id) {
                assert(self@[i as int].id == id@);
                return true;
            }
            assert(self@[i as int].id != id@);
            i += 1;
        }
        false
    }

    /// Takes a new record in. Where its token or its identifier is already on
    /// record the store refuses it and stays as it was.
    pub fn insert(&mut self, record: PurchaseToken) -> (r: Result<(), StoreError>)
        requires
            old(self).wf(),
        ensures
            final(self).wf(),
            final(self)@ == with_insert(old(self)@, record@),
            r is Err <==> holds_token(old(self)@, record.purchase_token@) || holds_id(
                old(self)@,
                record.id@,
            ),
    {
        let taken = match self.find_by_token(record.purchase_token.as_str()) {
            Some(_) => true,
            None => self.has_id(record.id.as_str()),
        };
        if taken {
            return Err(StoreError::Conflict);
        }
        let ghost before = self@;
        let ghost added = record@;
        self.records.push(record);
        proof {
            assert(self@ =~= before.push(added));
            lemma_insert_lookup(before, added, added.purchase_token);
        }
        Ok(())
    }

    /// Applies `change` to the record with identifier `id` and says whether
    /// there was such a record.
    fn rewrite(&mut self, id: &str, change: Change) -> (found: bool)
        requires
            old(self).wf(),
        ensures
            final(self).wf(),
            final(self)@ == with_change(old(self)@, id@, change),
            found == holds_id(old(self)@, id@),
    {
        let ghost before = self@;
        let mut found = false;
        let mut i: usize = 0;
        while i < self.records.len()
            invariant
                i <= self.records.len(),
                self@.len() == before.len(),
                forall|k: int| 0 <= k < i ==> #[trigger] self@[k] == with_change(before, id@, change)[k],
                forall|k: int| i <= k < before.len() ==> #[trigger] self@[k] == before[k],
                found == (exists|k: int| 0 <= k < i && #[trigger] before[k].id == id@),
            decreases self.records.len() - i,
        {
            let ghost current = self@;
            assert(current[i as int] == before[i as int]);
            if same_text(self.records[i].id.as_str(), id) {
                let mut record = self.records[i].duplicate();
                match change {
                    Change::Amend { status, expiry_at } => {
                        match status {
                            Some(s) => {
                                record.status = s;
                            },
                            None => {},
                        }
                        match expiry_at {
                            Some(t) => {
                                record.expiry_at = t;
                            },
                            None => {},
                        }
                    },
                    Change::Refresh { until } => {
                        record.status = PurchaseTokenStatus::AccessGranted;
                        record.expiry_at = record.expiry_at.latest(until);
                    },
                }
                self.records.set(i, record);
                found = true;
                assert(before[i as int].id == id@);
            }
            proof {
                assert forall|k: int| 0 <= k < i + 1 implies #[trigger] self@[k] == with_change(
                    before,
                    id@,
                    change,
                )[k] by {
                    if k < i {
                        assert(self@[k] == current[k]);
                    }
                }
                assert forall|k: int| i + 1 <= k < before.len() implies #[trigger] self@[k]
                    == before[k] by {
                    assert(self@[k] == current[k]);
                }
            }
            i += 1;
        }
        proof {
            assert(self@ =~= with_change(before, id@, change));
            lemma_change_keeps_keys(before, id@, change);
        }
        found
    }

    /// Sets the status, the expiry, or both, of the record with identifier
    /// `id`; a field for which `None` is given is left untouched. Says
    /// whether there was such a record.
    pub fn update_status_and_expiry(
        &mut self,
        id: &str,
        status: Option<PurchaseTokenStatus>,
        expiry_at: Option<Timestamp>,
    ) -> (found: bool)
        requires
            old(self).wf(),
        ensures
            final(self).wf(),
            final(self)@ == with_update(old(self)@, id@, status, expiry_at),
            found == holds_id(old(self)@, id@),
    {
        self.rewrite(id, Change::Amend { status, expiry_at })
    }

    /// Marks the record with identifier `id` as granting access until
    /// `expiry_at`, or until its own expiry where that lies later: the expiry
    /// never moves backward. Says whether there was such a record.
    pub fn refresh(&mut self, id: &str, expiry_at: Timestamp) -> (found: bool)
        requires
            old(self).wf(),
        ensures
            final(self).wf(),
            final(self)@ == with_refresh(old(self)@, id@, expiry_at),
            found == holds_id(old(self)@, id@),
    {
        self.rewrite(id, Change::Refresh { until: expiry_at })
    }
}

} // verus!
