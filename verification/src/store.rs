//! The payment store: the inbound and the outbound table behind the few
//! operations that event handling and the command layer share.

use crate::payments::{
    after_receipt, after_transition, bytes_of, fresh_inbound, fresh_outbound, table_advances,
    HTLCStatus, MillisatAmount, PaymentInfo, PaymentRecord, PaymentTable,
};
use crate::trusted::{sha256, sha256_digest};
use vstd::prelude::*;

verus! {

/// Which of the two tables a payment belongs to.
#[derive(Clone, Copy, Debug, PartialEq, Eq, Structural)]
pub enum Direction {
    Inbound,
    Outbound,
}

/// Both payment tables. They live as long as the process and lose no entry.
pub struct PaymentStore {
    inbound: PaymentTable,
    outbound: PaymentTable,
}

impl PaymentStore {
    /// Both tables hold each payment hash at most once.
    pub closed spec fn wf(&self) -> bool {
        self.inbound.wf() && self.outbound.wf()
    }

    /// The payments received or expected, by payment hash.
    pub closed spec fn inbound_records(&self) -> Map<Seq<u8>, PaymentRecord> {
        self.inbound@
    }

    /// The payments sent, by payment hash.
    pub closed spec fn outbound_records(&self) -> Map<Seq<u8>, PaymentRecord> {
        self.outbound@
    }

    /// The table that `direction` names.
    pub open spec fn records(&self, direction: Direction) -> Map<Seq<u8>, PaymentRecord> {
        match direction {
            Direction::Inbound => self.inbound_records(),
            Direction::Outbound => self.outbound_records(),
        }
    }

    /// A store with two empty tables.
    pub fn new() -> (store: PaymentStore)
        ensures
            store.wf(),
            store.inbound_records() == Map::<Seq<u8>, PaymentRecord>::empty(),
            store.outbound_records() == Map::<Seq<u8>, PaymentRecord>::empty(),
    {
        PaymentStore { inbound: PaymentTable::new(), outbound: PaymentTable::new() }
    }

    /// The inbound table, to read.
    pub fn inbound(&self) -> (table: &PaymentTable)
        requires
            self.wf(),
        ensures
            table.wf(),
            table@ == self.inbound_records(),
    {
        &self.inbound
    }

    /// The outbound table, to read.
    pub fn outbound(&self) -> (table: &PaymentTable)
        requires
            self.wf(),
        ensures
            table.wf(),
            table@ == self.outbound_records(),
    {
        &self.outbound
    }

    /// Files an expected inbound payment with its secret: pending, nothing else
    /// known. A payment already on file is left as it is. Returns whether the
    /// record was filed.
    pub fn record_inbound(&mut self, hash: &[u8; 32], secret: &[u8; 32]) -> (filed: bool)
        requires
            old(self).wf(),
        ensures
            final(self).wf(),
            filed == !old(self).inbound_records().contains_key(hash@),
            final(self).inbound_records() == if filed {
                old(self).inbound_records().insert(hash@, fresh_inbound(secret@))
            } else {
                old(self).inbound_records()
            },
            final(self).outbound_records() == old(self).outbound_records(),
            table_advances(old(self).inbound_records(), final(self).inbound_records()),
    {
        let info = PaymentInfo {
            preimage: None,
            secret: Some(*secret),
            status: HTLCStatus::Pending,
            amt_msat: MillisatAmount(None),
        };
        self.inbound.record(hash, info)
    }

    /// Files a payment that is being sent: pending, with its amount. A payment
    /// already on file is left as it is. Returns whether the record was filed.
    pub fn record_outbound(&mut self, hash: &[u8; 32], amount: MillisatAmount) -> (filed: bool)
        requires
            old(self).wf(),
        ensures
            final(self).wf(),
            filed == !old(self).outbound_records().contains_key(hash@),
            final(self).outbound_records() == if filed {
                old(self).outbound_records().insert(hash@, fresh_outbound(amount.0))
            } else {
                old(self).outbound_records()
            },
            final(self).inbound_records() == old(self).inbound_records(),
            table_advances(old(self).outbound_records(), final(self).outbound_records()),
    {
        let info = PaymentInfo {
            preimage: None,
            secret: None,
            status: HTLCStatus::Pending,
            amt_msat: amount,
        };
        self.outbound.record(hash, info)
    }

    /// Reports `status` for a payment of the table that `direction` names, with
    /// the preimage if one was revealed. Nothing changes where the payment is
    /// not on file, or where the status would move backwards. Returns whether
    /// the payment is on file.
    pub fn transition(
        &mut self,
        direction: Direction,
        hash: &[u8; 32],
        status: HTLCStatus,
        preimage: Option<[u8; 32]>,
    ) -> (found: bool)
        requires
            old(self).wf(),
        ensures
            final(self).wf(),
            found == old(self).records(direction).contains_key(hash@),
            final(self).records(direction) == if found {
                old(self).records(direction).insert(
                    hash@,
                    after_transition(old(self).records(direction)[hash@], status, bytes_of(preimage)),
                )
            } else {
                old(self).records(direction)
            },
            direction == Direction::Inbound ==> final(self).outbound_records() == old(
                self,
            ).outbound_records(),
            direction == Direction::Outbound ==> final(self).inbound_records() == old(
                self,
            ).inbound_records(),
            table_advances(old(self).records(direction), final(self).records(direction)),
    {
        match direction {
            Direction::Inbound => self.inbound.transition(hash, status, preimage),
            Direction::Outbound => self.outbound.transition(hash, status, preimage),
        }
    }

    /// Files the outcome of a received payment after the claim was attempted.
    /// The inbound record is created or updated in place: succeeded with the
    /// preimage and the amount delivered where the claim was accepted, failed
    /// otherwise, unless the payment has succeeded before.
    pub fn payment_received(
        &mut self,
        hash: &[u8; 32],
        preimage: &[u8; 32],
        secret: Option<[u8; 32]>,
        amt: u64,
        claimed: bool,
    )
        requires
            old(self).wf(),
        ensures
            final(self).wf(),
            final(self).inbound_records() == old(self).inbound_records().insert(
                hash@,
                after_receipt(
                    old(self).inbound_records().get(hash@),
                    preimage@,
                    bytes_of(secret),
                    amt,
                    claimed,
                ),
            ),
            final(self).outbound_records() == old(self).outbound_records(),
            table_advances(old(self).inbound_records(), final(self).inbound_records()),
    {
        self.inbound.receive(hash, preimage, secret, amt, claimed)
    }

    /// Marks the outbound payment with this hash as succeeded and keeps the
    /// preimage that proves it. Returns whether the payment is on file.
    pub fn mark_sent(&mut self, hash: &[u8; 32], preimage: &[u8; 32]) -> (found: bool)
        requires
            old(self).wf(),
        ensures
            final(self).wf(),
            found == old(self).outbound_records().contains_key(hash@),
            final(self).outbound_records() == if found {
                old(self).outbound_records().insert(
                    hash@,
                    after_transition(
                        old(self).outbound_records()[hash@],
                        HTLCStatus::Succeeded,
                        Some(preimage@),
                    ),
                )
            } else {
                old(self).outbound_records()
            },
            found ==> final(self).outbound_records()[hash@].status == HTLCStatus::Succeeded
                && final(self).outbound_records()[hash@].preimage == Some(preimage@),
            final(self).inbound_records() == old(self).inbound_records(),
            table_advances(old(self).outbound_records(), final(self).outbound_records()),
    {
        self.outbound.transition(hash, HTLCStatus::Succeeded, Some(*preimage))
    }

    /// Handles a completed send. The payment hash is the SHA-256 digest of the
    /// revealed preimage, computed here; the outbound payment under that hash
    /// is marked as [`PaymentStore::mark_sent`] does. Returns the hash and
    /// whether the payment is on file.
    pub fn payment_sent(&mut self, preimage: &[u8; 32]) -> (outcome: ([u8; 32], bool))
        requires
            old(self).wf(),
        ensures
            final(self).wf(),
            outcome.0@ == sha256(preimage@),
            outcome.1 == old(self).outbound_records().contains_key(sha256(preimage@)),
            final(self).outbound_records() == if outcome.1 {
                old(self).outbound_records().insert(
                    sha256(preimage@),
                    after_transition(
                        old(self).outbound_records()[sha256(preimage@)],
                        HTLCStatus::Succeeded,
                        Some(preimage@),
                    ),
                )
            } else {
                old(self).outbound_records()
            },
            final(self).inbound_records() == old(self).inbound_records(),
            table_advances(old(self).outbound_records(), final(self).outbound_records()),
    {
        let hash = sha256_digest(preimage);
        let found = self.mark_sent(&hash, preimage);
        (hash, found)
    }

    /// Handles a failed send: the outbound payment with this hash is marked as
    /// failed, unless it has succeeded. A hash that is not on file changes
    /// nothing. Returns whether the payment is on file.
    pub fn payment_failed(&mut self, hash: &[u8; 32]) -> (found: bool)
        requires
            old(self).wf(),
        ensures
            final(self).wf(),
            found == old(self).outbound_records().contains_key(hash@),
            final(self).outbound_records() == if found {
                old(self).outbound_records().insert(
                    hash@,
                    after_transition(old(self).outbound_records()[hash@], HTLCStatus::Failed, None),
                )
            } else {
                old(self).outbound_records()
            },
            final(self).inbound_records() == old(self).inbound_records(),
            table_advances(old(self).outbound_records(), final(self).outbound_records()),
    {
        self.outbound.transition(hash, HTLCStatus::Failed, None)
    }
}

} // verus!
