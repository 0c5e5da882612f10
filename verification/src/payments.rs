//! Payment bookkeeping: one record per payment hash, in an inbound and an
//! outbound table, with statuses that only move forward.

use crate::bytes::same_bytes;
use vstd::prelude::*;
use vstd::string::StringExecFns;

verus! {

/// Where a payment stands.
#[derive(Clone, Copy, Debug, PartialEq, Eq, Structural)]
pub enum HTLCStatus {
    Pending,
    Succeeded,
    Failed,
}

impl HTLCStatus {
    /// How far a status is along the lifecycle. `Pending` comes first; a failed
    /// payment may still succeed on a later attempt, a succeeded one is settled
    /// for good.
    pub open spec fn rank(self) -> nat {
        match self {
            HTLCStatus::Pending => 0,
            HTLCStatus::Failed => 1,
            HTLCStatus::Succeeded => 2,
        }
    }

    /// Whether a report of `next` is taken up by a record in this status.
    pub fn admits(self, next: HTLCStatus) -> (ok: bool)
        ensures
            ok == (next.rank() >= self.rank()),
    {
        match self {
            HTLCStatus::Pending => true,
            HTLCStatus::Failed => match next {
                HTLCStatus::Pending => false,
                _ => true,
            },
            HTLCStatus::Succeeded => match next {
                HTLCStatus::Succeeded => true,
                _ => false,
            },
        }
    }
}

/// An amount in millisatoshis, or `None` while it is not known.
#[derive(Clone, Copy, Debug, PartialEq, Eq)]
pub struct MillisatAmount(pub Option<u64>);

/// The character of a decimal digit.
pub open spec fn digit_char(digit: nat) -> char {
    if digit == 0 {
        '0'
    } else if digit == 1 {
        '1'
    } else if digit == 2 {
        '2'
    } else if digit == 3 {
        '3'
    } else if digit == 4 {
        '4'
    } else if digit == 5 {
        '5'
    } else if digit == 6 {
        '6'
    } else if digit == 7 {
        '7'
    } else if digit == 8 {
        '8'
    } else {
        '9'
    }
}

/// A number in decimal, without leading zeros.
pub open spec fn decimal(n: nat) -> Seq<char>
    decreases n,
{
    if n < 10 {
        seq![digit_char(n)]
    } else {
        decimal(n / 10).push(digit_char(n % 10))
    }
}

/// How an amount reads: the number of millisatoshis in decimal, or `unknown`.
pub open spec fn amount_text(amount: Option<u64>) -> Seq<char> {
    match amount {
        Some(n) => decimal(n as nat),
        None => "unknown"@,
    }
}

fn digit_text(digit: u8) -> (text: &'static str)
    requires
        digit < 10,
    ensures
        text@ == seq![digit_char(digit as nat)],
{
    proof {
        reveal_strlit("0");
        reveal_strlit("1");
        reveal_strlit("2");
        reveal_strlit("3");
        reveal_strlit("4");
        reveal_strlit("5");
        reveal_strlit("6");
        reveal_strlit("7");
        reveal_strlit("8");
        reveal_strlit("9");
    }
    let text = match digit {
        0 => "0",
        1 => "1",
        2 => "2",
        3 => "3",
        4 => "4",
        5 => "5",
        6 => "6",
        7 => "7",
        8 => "8",
        _ => "9",
    };
    text
}

/// Writes a number in decimal.
pub fn decimal_text(n: u64) -> (text: String)
    ensures
        text@ == decimal(n as nat),
    decreases n,
{
    if n < 10 {
        String::from_str(digit_text(n as u8))
    } else {
        let mut text = decimal_text(n / 10);
        text.append(digit_text((n % 10) as u8));
        text
    }
}

impl MillisatAmount {
    /// The amount as it is shown: the number of millisatoshis, or `unknown`.
    pub fn to_string(&self) -> (text: String)
        ensures
            text@ == amount_text(self.0),
    {
        match self.0 {
            Some(amt) => decimal_text(amt),
            None => String::from_str("unknown"),
        }
    }
}

/// What is known of one payment.
#[derive(Clone, Copy, Debug, PartialEq, Eq)]
pub struct PaymentInfo {
    pub preimage: Option<[u8; 32]>,
    pub secret: Option<[u8; 32]>,
    pub status: HTLCStatus,
    pub amt_msat: MillisatAmount,
}

/// The mathematical value of a [`PaymentInfo`].
pub ghost struct PaymentRecord {
    pub preimage: Option<Seq<u8>>,
    pub secret: Option<Seq<u8>>,
    pub status: HTLCStatus,
    pub amount: Option<u64>,
}

/// The bytes of an optional 32-byte value.
pub open spec fn bytes_of(value: Option<[u8; 32]>) -> Option<Seq<u8>> {
    match value {
        Some(b) => Some(b@),
        None => None,
    }
}

impl View for PaymentInfo {
    type V = PaymentRecord;

    open spec fn view(&self) -> PaymentRecord {
        PaymentRecord {
            preimage: bytes_of(self.preimage),
            secret: bytes_of(self.secret),
            status: self.status,
            amount: self.amt_msat.0,
        }
    }
}

/// The record that `record_inbound` files: the secret is known, nothing else yet.
pub open spec fn fresh_inbound(secret: Seq<u8>) -> PaymentRecord {
    PaymentRecord {
        preimage: None,
        secret: Some(secret),
        status: HTLCStatus::Pending,
        amount: None,
    }
}

/// The record that `record_outbound` files.
pub open spec fn fresh_outbound(amount: Option<u64>) -> PaymentRecord {
    PaymentRecord { preimage: None, secret: None, status: HTLCStatus::Pending, amount }
}

/// A record after `status` is reported for it, with the preimage if one was revealed.
/// A report that would move the status backwards leaves the record as it is.
pub open spec fn after_transition(
    prior: PaymentRecord,
    status: HTLCStatus,
    preimage: Option<Seq<u8>>,
) -> PaymentRecord {
    if status.rank() >= prior.status.rank() {
        PaymentRecord {
            preimage: if preimage is Some {
                preimage
            } else {
                prior.preimage
            },
            secret: prior.secret,
            status,
            amount: prior.amount,
        }
    } else {
        prior
    }
}

/// The secret of a record after a receipt: the one that the receipt carried,
/// or else the one that was known before.
pub open spec fn secret_after(prior: Option<PaymentRecord>, secret: Option<Seq<u8>>) -> Option<
    Seq<u8>,
> {
    if secret is Some {
        secret
    } else {
        match prior {
            Some(r) => r.secret,
            None => None,
        }
    }
}

/// The inbound record of a payment after one receipt was handled: `claimed` says
/// whether the protocol engine accepted the claim.
pub open spec fn after_receipt(
    prior: Option<PaymentRecord>,
    preimage: Seq<u8>,
    secret: Option<Seq<u8>>,
    amt: u64,
    claimed: bool,
) -> PaymentRecord {
    if claimed {
        PaymentRecord {
            preimage: Some(preimage),
            secret: secret_after(prior, secret),
            status: HTLCStatus::Succeeded,
            amount: Some(amt),
        }
    } else {
        match prior {
            None => PaymentRecord {
                preimage: Some(preimage),
                secret,
                status: HTLCStatus::Failed,
                amount: Some(amt),
            },
            Some(r) => if r.status == HTLCStatus::Succeeded {
                r
            } else {
                PaymentRecord {
                    preimage: Some(preimage),
                    secret: secret_after(prior, secret),
                    status: HTLCStatus::Failed,
                    amount: r.amount,
                }
            },
        }
    }
}

/// A record never loses ground: its status does not move backwards and a
/// preimage, once known, stays known.
pub open spec fn record_advances(before: PaymentRecord, after: PaymentRecord) -> bool {
    &&& after.status.rank() >= before.status.rank()
    &&& (before.preimage is Some ==> after.preimage is Some)
}

/// Every payment of `before` is still in `after`, and none has lost ground.
pub open spec fn table_advances(
    before: Map<Seq<u8>, PaymentRecord>,
    after: Map<Seq<u8>, PaymentRecord>,
) -> bool {
    forall|h: Seq<u8>| #[trigger]
        before.contains_key(h) ==> after.contains_key(h) && record_advances(before[h], after[h])
}

/// A payment hash with what is known of the payment.
#[derive(Clone, Copy, Debug, PartialEq, Eq)]
pub struct PaymentEntry {
    pub hash: [u8; 32],
    pub info: PaymentInfo,
}

spec fn key_at(entries: Seq<PaymentEntry>, i: int) -> Seq<u8> {
    entries[i].hash@
}

spec fn distinct_keys(entries: Seq<PaymentEntry>) -> bool {
    forall|i: int, j: int|
        0 <= i < j < entries.len() ==> #[trigger] key_at(entries, i) != #[trigger] key_at(
            entries,
            j,
        )
}

spec fn holds(entries: Seq<PaymentEntry>, h: Seq<u8>) -> bool {
    exists|i: int| 0 <= i < entries.len() && #[trigger] key_at(entries, i) == h
}

spec fn position(entries: Seq<PaymentEntry>, h: Seq<u8>) -> int {
    choose|i: int| 0 <= i < entries.len() && #[trigger] key_at(entries, i) == h
}

spec fn table_of(entries: Seq<PaymentEntry>) -> Map<Seq<u8>, PaymentRecord> {
    Map::new(|h: Seq<u8>| holds(entries, h), |h: Seq<u8>| entries[position(entries, h)].info@)
}

proof fn lemma_entry(entries: Seq<PaymentEntry>, i: int)
    requires
        distinct_keys(entries),
        0 <= i < entries.len(),
    ensures
        table_of(entries).contains_key(key_at(entries, i)),
        table_of(entries)[key_at(entries, i)] == entries[i].info@,
{
}

proof fn lemma_push(entries: Seq<PaymentEntry>, e: PaymentEntry)
    requires
        distinct_keys(entries),
        !holds(entries, e.hash@),
    ensures
        distinct_keys(entries.push(e)),
        table_of(entries.push(e)) == table_of(entries).insert(e.hash@, e.info@),
{
    let grown = entries.push(e);
    assert forall|i: int, j: int| 0 <= i < j < grown.len() implies #[trigger] key_at(grown, i)
        != #[trigger] key_at(grown, j) by {
        if j < entries.len() {
            assert(key_at(entries, i) != key_at(entries, j));
        } else {
            assert(key_at(grown, i) == key_at(entries, i));
        }
    }
    let target = table_of(entries).insert(e.hash@, e.info@);
    assert forall|h: Seq<u8>| #[trigger]
        table_of(grown).dom().contains(h) == target.dom().contains(h) by {
        if holds(grown, h) {
            let p = position(grown, h);
            if p < entries.len() {
                assert(key_at(entries, p) == h);
            }
        }
        if holds(entries, h) {
            let p = position(entries, h);
            assert(key_at(grown, p) == h);
        }
        if h == e.hash@ {
            assert(key_at(grown, entries.len() as int) == h);
        }
    }
    assert forall|h: Seq<u8>| #[trigger] target.dom().contains(h) implies table_of(grown)[h]
        == target[h] by {
        if h == e.hash@ {
            lemma_entry(grown, entries.len() as int);
        } else {
            let p = position(entries, h);
            lemma_entry(grown, p);
            lemma_entry(entries, p);
        }
    }
}

proof fn lemma_update(entries: Seq<PaymentEntry>, i: int, e: PaymentEntry)
    requires
        distinct_keys(entries),
        0 <= i < entries.len(),
        e.hash@ == key_at(entries, i),
    ensures
        distinct_keys(entries.update(i, e)),
        table_of(entries.update(i, e)) == table_of(entries).insert(e.hash@, e.info@),
{
    let changed = entries.update(i, e);
    assert forall|a: int, b: int| 0 <= a < b < changed.len() implies #[trigger] key_at(changed, a)
        != #[trigger] key_at(changed, b) by {
        assert(key_at(changed, a) == key_at(entries, a));
        assert(key_at(changed, b) == key_at(entries, b));
    }
    let target = table_of(entries).insert(e.hash@, e.info@);
    lemma_entry(entries, i);
    assert forall|h: Seq<u8>| #[trigger]
        table_of(changed).dom().contains(h) == target.dom().contains(h) by {
        if holds(changed, h) {
            let p = position(changed, h);
            assert(key_at(entries, p) == h);
        }
        if holds(entries, h) {
            let p = position(entries, h);
            assert(key_at(changed, p) == h);
        }
    }
    assert forall|h: Seq<u8>| #[trigger] target.dom().contains(h) implies table_of(changed)[h]
        == target[h] by {
        if h == e.hash@ {
            lemma_entry(changed, i);
        } else {
            let p = position(entries, h);
            lemma_entry(changed, p);
            lemma_entry(entries, p);
        }
    }
}

/// Status reports never move a record backwards.
pub proof fn lemma_transition_advances(
    prior: PaymentRecord,
    status: HTLCStatus,
    preimage: Option<Seq<u8>>,
)
    ensures
        record_advances(prior, after_transition(prior, status, preimage)),
{
}

/// Handling a receipt never moves an existing record backwards.
pub proof fn lemma_receipt_advances(
    prior: PaymentRecord,
    preimage: Seq<u8>,
    secret: Option<Seq<u8>>,
    amt: u64,
    claimed: bool,
)
    ensures
        record_advances(prior, after_receipt(Some(prior), preimage, secret, amt, claimed)),
{
}

/// A table of payments keyed by payment hash. Entries are never removed.
pub struct PaymentTable {
    entries: Vec<PaymentEntry>,
}

impl View for PaymentTable {
    type V = Map<Seq<u8>, PaymentRecord>;

    closed spec fn view(&self) -> Map<Seq<u8>, PaymentRecord> {
        table_of(self.entries@)
    }
}

impl PaymentTable {
    /// No payment hash is held twice.
    pub closed spec fn wf(&self) -> bool {
        distinct_keys(self.entries@)
    }

    /// An empty table.
    pub fn new() -> (table: PaymentTable)
        ensures
            table.wf(),
            table@ == Map::<Seq<u8>, PaymentRecord>::empty(),
    {
        let table = PaymentTable { entries: Vec::new() };
        table
    }

    fn find(&self, hash: &[u8; 32]) -> (found: Option<usize>)
        requires
            self.wf(),
        ensures
            match found {
                Some(i) => i < self.entries@.len() && key_at(self.entries@, i as int) == hash@
                    && self@.contains_key(hash@) && self@[hash@] == self.entries@[i as int].info@,
                None => !holds(self.entries@, hash@) && !self@.contains_key(hash@),
            },
    {
        let mut i: usize = 0;
        while i < self.entries.len()
            invariant
                self.wf(),
                i <= self.entries@.len(),
                forall|j: int| 0 <= j < i ==> #[trigger] key_at(self.entries@, j) != hash@,
            decreases self.entries@.len() - i,
        {
            if same_bytes(&self.entries[i].hash, hash) {
                proof {
                    lemma_entry(self.entries@, i as int);
                }
                return Some(i);
            }
            i += 1;
        }
        None
    }

    /// What is known of the payment with this hash, if it is in the table.
    pub fn get(&self, hash: &[u8; 32]) -> (info: Option<PaymentInfo>)
        requires
            self.wf(),
        ensures
            info is Some <==> self@.contains_key(hash@),
            info matches Some(i) ==> i@ == self@[hash@],
    {
        match self.find(hash) {
            Some(i) => Some(self.entries[i].info),
            None => None,
        }
    }

    /// Whether the table holds a payment with this hash.
    pub fn contains(&self, hash: &[u8; 32]) -> (held: bool)
        requires
            self.wf(),
        ensures
            held == self@.contains_key(hash@),
    {
        self.find(hash).is_some()
    }

    /// A copy of every entry as it stands now. Each payment of the table occurs
    /// once in it.
    pub fn snapshot(&self) -> (list: Vec<PaymentEntry>)
        requires
            self.wf(),
        ensures
            forall|i: int|
                0 <= i < list@.len() ==> self@.contains_key(#[trigger] list@[i].hash@) && self@[list@[i].hash@]
                    == list@[i].info@,
            forall|h: Seq<u8>|
                self@.contains_key(h) ==> exists|i: int|
                    0 <= i < list@.len() && (#[trigger] list@[i]).hash@ == h,
            forall|i: int, j: int|
                0 <= i < j < list@.len() ==> (#[trigger] list@[i]).hash@ != (#[trigger] list@[j]).hash@,
    {
        let mut list: Vec<PaymentEntry> = Vec::new();
        let mut i: usize = 0;
        while i < self.entries.len()
            invariant
                i <= self.entries@.len(),
                list@ == self.entries@.subrange(0, i as int),
            decreases self.entries@.len() - i,
        {
            list.push(self.entries[i]);
            i += 1;
        }
        proof {
            assert(list@ =~= self.entries@);
            assert forall|k: int| 0 <= k < list@.len() implies self@.contains_key(
                #[trigger] list@[k].hash@,
            ) && self@[list@[k].hash@] == list@[k].info@ by {
                lemma_entry(self.entries@, k);
            }
            assert forall|h: Seq<u8>| self@.contains_key(h) implies exists|k: int|
                0 <= k < list@.len() && (#[trigger] list@[k]).hash@ == h by {
                assert(holds(self.entries@, h));
            }
            assert forall|a: int, b: int| 0 <= a < b < list@.len() implies (#[trigger] list@[a]).hash@
                != (#[trigger] list@[b]).hash@ by {
                assert(key_at(self.entries@, a) != key_at(self.entries@, b));
            }
        }
        list
    }

    /// Files a payment under `hash` unless one is filed there already; an
    /// existing record is left as it is. Returns whether the record was filed.
    pub fn record(&mut self, hash: &[u8; 32], info: PaymentInfo) -> (filed: bool)
        requires
            old(self).wf(),
        ensures
            final(self).wf(),
            filed == !old(self)@.contains_key(hash@),
            final(self)@ == if filed {
                old(self)@.insert(hash@, info@)
            } else {
                old(self)@
            },
            table_advances(old(self)@, final(self)@),
    {
        match self.find(hash) {
            Some(_) => false,
            None => {
                let entry = PaymentEntry { hash: *hash, info };
                proof {
                    lemma_push(self.entries@, entry);
                }
                self.entries.push(entry);
                true
            },
        }
    }

    /// Reports `status` for the payment with this hash, with the preimage if one
    /// was revealed. A table without the payment is left as it is, and so is a
    /// record whose status would move backwards. Returns whether the payment is
    /// in the table.
    pub fn transition(
        &mut self,
        hash: &[u8; 32],
        status: HTLCStatus,
        preimage: Option<[u8; 32]>,
    ) -> (found: bool)
        requires
            old(self).wf(),
        ensures
            final(self).wf(),
            found == old(self)@.contains_key(hash@),
            final(self)@ == if found {
                old(self)@.insert(
                    hash@,
                    after_transition(old(self)@[hash@], status, bytes_of(preimage)),
                )
            } else {
                old(self)@
            },
            table_advances(old(self)@, final(self)@),
    {
        match self.find(hash) {
            None => false,
            Some(i) => {
                let prior = self.entries[i].info;
                let next = if prior.status.admits(status) {
                    PaymentInfo {
                        preimage: if preimage.is_some() {
                            preimage
                        } else {
                            prior.preimage
                        },
                        secret: prior.secret,
                        status,
                        amt_msat: prior.amt_msat,
                    }
                } else {
                    prior
                };
                let entry = PaymentEntry { hash: self.entries[i].hash, info: next };
                proof {
                    lemma_update(self.entries@, i as int, entry);
                    lemma_transition_advances(prior@, status, bytes_of(preimage));
                }
                self.entries.set(i, entry);
                true
            },
        }
    }

    /// Files the outcome of one receipt: `claimed` says whether the protocol
    /// engine accepted the claim. The payment's record is created or updated in
    /// place; a record that has succeeded stays as it is when a later claim fails.
    pub fn receive(
        &mut self,
        hash: &[u8; 32],
        preimage: &[u8; 32],
        secret: Option<[u8; 32]>,
        amt: u64,
        claimed: bool,
    )
        requires
            old(self).wf(),
        ensures
            final(self).wf(),
            final(self)@ == old(self)@.insert(
                hash@,
                after_receipt(old(self)@.get(hash@), preimage@, bytes_of(secret), amt, claimed),
            ),
            table_advances(old(self)@, final(self)@),
    {
        let status = if claimed {
            HTLCStatus::Succeeded
        } else {
            HTLCStatus::Failed
        };
        match self.find(hash) {
            None => {
                let entry = PaymentEntry {
                    hash: *hash,
                    info: PaymentInfo {
                        preimage: Some(*preimage),
                        secret,
                        status,
                        amt_msat: MillisatAmount(Some(amt)),
                    },
                };
                proof {
                    lemma_push(self.entries@, entry);
                }
                self.entries.push(entry);
            },
            Some(i) => {
                let prior = self.entries[i].info;
                let kept = if secret.is_some() {
                    secret
                } else {
                    prior.secret
                };
                let next = if claimed {
                    PaymentInfo {
                        preimage: Some(*preimage),
                        secret: kept,
                        status,
                        amt_msat: MillisatAmount(Some(amt)),
                    }
                } else if prior.status == HTLCStatus::Succeeded {
                    prior
                } else {
                    PaymentInfo {
                        preimage: Some(*preimage),
                        secret: kept,
                        status,
                        amt_msat: prior.amt_msat,
                    }
                };
                let entry = PaymentEntry { hash: self.entries[i].hash, info: next };
                proof {
                    lemma_update(self.entries@, i as int, entry);
                    lemma_receipt_advances(prior@, preimage@, bytes_of(secret), amt, claimed);
                }
                self.entries.set(i, entry);
            },
        }
    }
}

/// One handled receipt of a payment: what the event carried and whether the
/// claim was accepted.
pub ghost struct Receipt {
    pub preimage: Seq<u8>,
    pub secret: Option<Seq<u8>>,
    pub amt: u64,
    pub claimed: bool,
}

/// The record of a payment after its receipts were handled one after another,
/// starting from `prior`.
pub open spec fn after_receipts(prior: Option<PaymentRecord>, receipts: Seq<Receipt>) -> Option<
    PaymentRecord,
>
    decreases receipts.len(),
{
    if receipts.len() == 0 {
        prior
    } else {
        let last = receipts.last();
        Some(
            after_receipt(
                after_receipts(prior, receipts.drop_last()),
                last.preimage,
                last.secret,
                last.amt,
                last.claimed,
            ),
        )
    }
}

/// A table after the receipts of the payment `hash` were handled one after another.
pub open spec fn table_after_receipts(
    table: Map<Seq<u8>, PaymentRecord>,
    hash: Seq<u8>,
    receipts: Seq<Receipt>,
) -> Map<Seq<u8>, PaymentRecord>
    decreases receipts.len(),
{
    if receipts.len() == 0 {
        table
    } else {
        let last = receipts.last();
        let before = table_after_receipts(table, hash, receipts.drop_last());
        before.insert(
            hash,
            after_receipt(before.get(hash), last.preimage, last.secret, last.amt, last.claimed),
        )
    }
}

/// Whether the record, if there is one, has succeeded.
pub open spec fn has_succeeded(record: Option<PaymentRecord>) -> bool {
    record matches Some(r) && r.status == HTLCStatus::Succeeded
}

/// Whether one of the receipts before position `end` was claimed.
pub open spec fn claimed_before(receipts: Seq<Receipt>, end: int) -> bool {
    exists|i: int| 0 <= i < end && i < receipts.len() && (#[trigger] receipts[i]).claimed
}

/// After any receipts of a payment, its record has succeeded if and only if it
/// had succeeded before them or one of the claims was accepted.
pub proof fn law_receipts_succeed_once_claimed(prior: Option<PaymentRecord>, receipts: Seq<Receipt>)
    ensures
        has_succeeded(after_receipts(prior, receipts)) <==> has_succeeded(prior) || claimed_before(
            receipts,
            receipts.len() as int,
        ),
        receipts.len() > 0 ==> after_receipts(prior, receipts) is Some,
    decreases receipts.len(),
{
    if receipts.len() > 0 {
        let front = receipts.drop_last();
        law_receipts_succeed_once_claimed(prior, front);
        let n = receipts.len() as int;
        if claimed_before(receipts, n) {
            let i = choose|i: int| 0 <= i < n && i < receipts.len() && (#[trigger] receipts[i]).claimed;
            if i < n - 1 {
                assert(front[i].claimed);
            }
        }
    }
}

/// The last claim decides: after a run of receipts of one payment, its record
/// has succeeded if and only if the last claim was accepted. This holds of
/// every run but those in which the payment had already succeeded, before the
/// run or in it, when the last claim failed: a record that has succeeded stays so.
pub proof fn law_last_claim_decides(prior: Option<PaymentRecord>, receipts: Seq<Receipt>)
    requires
        receipts.len() > 0,
        receipts.last().claimed || !(has_succeeded(prior) || claimed_before(
            receipts,
            receipts.len() - 1,
        )),
    ensures
        after_receipts(prior, receipts) is Some,
        has_succeeded(after_receipts(prior, receipts)) <==> receipts.last().claimed,
{
    law_receipts_succeed_once_claimed(prior, receipts);
}

/// Handling the receipts of one payment on a table changes that payment's
/// record as [`after_receipts`] says and no other record.
pub proof fn law_receipts_on_table(
    table: Map<Seq<u8>, PaymentRecord>,
    hash: Seq<u8>,
    receipts: Seq<Receipt>,
)
    ensures
        table_after_receipts(table, hash, receipts).get(hash) == after_receipts(
            table.get(hash),
            receipts,
        ),
        forall|other: Seq<u8>|
            other != hash ==> #[trigger] table_after_receipts(table, hash, receipts).get(other)
                == table.get(other),
    decreases receipts.len(),
{
    if receipts.len() > 0 {
        let before = table_after_receipts(table, hash, receipts.drop_last());
        law_receipts_on_table(table, hash, receipts.drop_last());
        assert forall|other: Seq<u8>| other != hash implies #[trigger] table_after_receipts(
            table,
            hash,
            receipts,
        ).get(other) == table.get(other) by {
            assert(before.get(other) == table.get(other));
        }
    }
}

/// Once a payment has succeeded it is never seen as failed or pending again,
/// whatever is reported for it afterwards.
pub proof fn law_succeeded_is_final(
    before: Map<Seq<u8>, PaymentRecord>,
    after: Map<Seq<u8>, PaymentRecord>,
    hash: Seq<u8>,
)
    requires
        table_advances(before, after),
        before.contains_key(hash),
        before[hash].status == HTLCStatus::Succeeded,
    ensures
        after.contains_key(hash),
        after[hash].status == HTLCStatus::Succeeded,
{
}

/// A table that is left alone has lost no ground.
pub proof fn law_advances_reflexive(table: Map<Seq<u8>, PaymentRecord>)
    ensures
        table_advances(table, table),
{
}

/// Losing no ground carries over any number of operations.
pub proof fn law_advances_transitive(
    first: Map<Seq<u8>, PaymentRecord>,
    second: Map<Seq<u8>, PaymentRecord>,
    third: Map<Seq<u8>, PaymentRecord>,
)
    requires
        table_advances(first, second),
        table_advances(second, third),
    ensures
        table_advances(first, third),
{
}

} // verus!
