use vstd::prelude::*;

use crate::error::CustodyError;
use crate::fee::{lemma_split_conserves, owner_share, recipient_share, split, MAX_FEE_PERCENT};
use crate::transfer::{lemma_total_of_one, lemma_total_of_two, total, Transfer};

verus! {

/// Where an escrow stands: `New` is passed through when an escrow is
/// created, which funds it at once; `PayedOff` and `Reimbursed` are terminal.
#[derive(PartialEq, Eq, Structural, Clone, Copy, Debug)]
pub enum Status {
    New,
    Active,
    PayedOff,
    Reimbursed,
}

/// One escrow: funds that a funder deposited for a beneficiary.
#[derive(Clone, Debug)]
pub struct EscrowItem {
    pub escrow_id: String,
    pub status: Status,
    pub funder_account_id: String,
    pub beneficiary_account_id: String,
    pub agreed_amount: u128,
    pub current_amount: u128,
    pub current_fee_percentage: u128,
}

impl EscrowItem {
    /// The agreed amount is positive, the item never holds more than it, and
    /// the fee is a percentage.
    pub open spec fn wf(self) -> bool {
        &&& self.agreed_amount > 0
        &&& self.current_amount <= self.agreed_amount
        &&& self.current_fee_percentage <= MAX_FEE_PERCENT
    }

    /// The item after a release: both shares of the agreed amount have left.
    pub open spec fn released(self) -> EscrowItem {
        EscrowItem {
            status: Status::PayedOff,
            current_amount: (self.current_amount - self.agreed_amount) as u128,
            ..self
        }
    }

    /// The item after the agreed amount went back to the funder.
    pub open spec fn reimbursed(self) -> EscrowItem {
        EscrowItem {
            status: Status::Reimbursed,
            current_amount: (self.current_amount - self.agreed_amount) as u128,
            ..self
        }
    }

    /// The item after an emergency withdrawal: empty, in the same status.
    pub open spec fn drained(self) -> EscrowItem {
        EscrowItem { current_amount: 0, ..self }
    }
}

/// The escrow registry: its owner, the fee that new escrows get by default,
/// and the escrows, at most one for each identifier.
pub struct Escrow {
    pub owner_id: String,
    pub base_fee_percentage: u128,
    pub items: Vec<EscrowItem>,
}

impl Escrow {
    /// Some escrow has the identifier `id`.
    pub open spec fn has_item(self, id: Seq<char>) -> bool {
        exists|i: int| 0 <= i < self.items@.len() && (#[trigger] self.items@[i]).escrow_id@ == id
    }

    /// The position of the escrow with identifier `id`.
    pub open spec fn slot(self, id: Seq<char>) -> int {
        choose|i: int| 0 <= i < self.items@.len() && (#[trigger] self.items@[i]).escrow_id@ == id
    }

    /// The escrow with identifier `id`.
    pub open spec fn item(self, id: Seq<char>) -> EscrowItem {
        self.items@[self.slot(id)]
    }

    /// The base fee is a percentage, every escrow is well formed, and no two
    /// escrows share an identifier.
    pub open spec fn wf(self) -> bool {
        &&& self.base_fee_percentage <= MAX_FEE_PERCENT
        &&& forall|i: int| 0 <= i < self.items@.len() ==> (#[trigger] self.items@[i]).wf()
        &&& forall|i: int, j: int|
            0 <= i < self.items@.len() && 0 <= j < self.items@.len() && i != j
                ==> (#[trigger] self.items@[i]).escrow_id@ != (#[trigger] self.items@[j]).escrow_id@
    }

    /// `caller` is the owner of the registry or `account`.
    pub open spec fn is_owner_or(self, caller: Seq<char>, account: Seq<char>) -> bool {
        caller == self.owner_id@ || caller == account
    }

    /// Why `init` refuses, if it does.
    pub open spec fn init_error(base_fee_percentage: Option<u128>, state_exists: bool) -> Option<
        CustodyError,
    > {
        if state_exists {
            Some(CustodyError::StateConflict)
        } else if base_fee_percentage is Some && base_fee_percentage->0 > MAX_FEE_PERCENT {
            Some(CustodyError::Validation)
        } else {
            None
        }
    }

    /// Why `new` refuses, if it does.
    pub open spec fn new_error(
        self,
        escrow_id: Seq<char>,
        funder_account_id: Seq<char>,
        agreed_amount: u128,
        current_fee_percentage: Option<u128>,
        caller: Seq<char>,
        attached_deposit: u128,
    ) -> Option<CustodyError> {
        if agreed_amount == 0 || attached_deposit != agreed_amount {
            Some(CustodyError::Validation)
        } else if current_fee_percentage is Some && current_fee_percentage->0 > MAX_FEE_PERCENT {
            Some(CustodyError::Validation)
        } else if !self.is_owner_or(caller, funder_account_id) {
            Some(CustodyError::Authorization)
        } else if self.has_item(escrow_id) {
            Some(CustodyError::StateConflict)
        } else {
            None
        }
    }

    /// What `new` does: on success the registry gains the funded escrow at
    /// its end and the identifier is returned; on refusal nothing changes.
    pub open spec fn new_post(
        self,
        after: Escrow,
        escrow_id: String,
        funder_account_id: String,
        beneficiary_account_id: String,
        agreed_amount: u128,
        current_fee_percentage: Option<u128>,
        caller: Seq<char>,
        attached_deposit: u128,
        r: Result<String, CustodyError>,
    ) -> bool {
        let error = self.new_error(
            escrow_id@,
            funder_account_id@,
            agreed_amount,
            current_fee_percentage,
            caller,
            attached_deposit,
        );
        match r {
            Ok(id) => {
                &&& error is None
                &&& id == escrow_id
                &&& after.owner_id == self.owner_id
                &&& after.base_fee_percentage == self.base_fee_percentage
                &&& after.items@ == self.items@.push(
                    EscrowItem {
                        escrow_id,
                        status: Status::Active,
                        funder_account_id,
                        beneficiary_account_id,
                        agreed_amount,
                        current_amount: agreed_amount,
                        current_fee_percentage: match current_fee_percentage {
                            Some(f) => f,
                            None => self.base_fee_percentage,
                        },
                    },
                )
            },
            Err(e) => error == Some(e) && after == self,
        }
    }

    /// Why `release_deposit` refuses, if it does.
    pub open spec fn release_error(self, escrow_id: Seq<char>, caller: Seq<char>) -> Option<
        CustodyError,
    > {
        if !self.has_item(escrow_id) {
            Some(CustodyError::NotFound)
        } else if self.item(escrow_id).status != Status::Active {
            Some(CustodyError::StateConflict)
        } else if !self.is_owner_or(caller, self.item(escrow_id).funder_account_id@) {
            Some(CustodyError::Authorization)
        } else if self.item(escrow_id).current_amount < self.item(escrow_id).agreed_amount {
            Some(CustodyError::InsufficientFunds)
        } else {
            None
        }
    }

    /// What a release pays: the beneficiary's share first, then the owner's.
    pub open spec fn release_transfers(self, escrow_id: Seq<char>) -> Seq<Transfer> {
        let item = self.item(escrow_id);
        seq![
            Transfer {
                receiver: item.beneficiary_account_id,
                amount: recipient_share(
                    item.agreed_amount as int,
                    item.current_fee_percentage as int,
                ) as u128,
            },
            Transfer {
                receiver: self.owner_id,
                amount: owner_share(
                    item.agreed_amount as int,
                    item.current_fee_percentage as int,
                ) as u128,
            },
        ]
    }

    /// Why `reimburse_funder` refuses, if it does.
    pub open spec fn reimburse_error(self, escrow_id: Seq<char>, caller: Seq<char>) -> Option<
        CustodyError,
    > {
        if !self.has_item(escrow_id) {
            Some(CustodyError::NotFound)
        } else if self.item(escrow_id).status != Status::Active {
            Some(CustodyError::StateConflict)
        } else if !self.is_owner_or(caller, self.item(escrow_id).beneficiary_account_id@) {
            Some(CustodyError::Authorization)
        } else if self.item(escrow_id).current_amount < self.item(escrow_id).agreed_amount {
            Some(CustodyError::InsufficientFunds)
        } else {
            None
        }
    }

    /// What a reimbursement pays: the agreed amount, back to the funder.
    pub open spec fn reimburse_transfers(self, escrow_id: Seq<char>) -> Seq<Transfer> {
        seq![
            Transfer {
                receiver: self.item(escrow_id).funder_account_id,
                amount: self.item(escrow_id).agreed_amount,
            },
        ]
    }

    /// Why `remove_item` refuses, if it does.
    pub open spec fn remove_error(self, escrow_id: Seq<char>, caller: Seq<char>) -> Option<
        CustodyError,
    > {
        if !self.has_item(escrow_id) {
            Some(CustodyError::NotFound)
        } else if self.item(escrow_id).status == Status::Active {
            Some(CustodyError::StateConflict)
        } else if caller != self.owner_id@ {
            Some(CustodyError::Authorization)
        } else {
            None
        }
    }

    /// Why `emergency_withdraw` refuses, if it does.
    pub open spec fn withdraw_error(self, escrow_id: Seq<char>, caller: Seq<char>) -> Option<
        CustodyError,
    > {
        if !self.has_item(escrow_id) {
            Some(CustodyError::NotFound)
        } else if caller != self.owner_id@ {
            Some(CustodyError::Authorization)
        } else {
            None
        }
    }

    /// The registry after the escrow with identifier `id` became `item`.
    pub open spec fn stores(self, after: Escrow, escrow_id: Seq<char>, item: EscrowItem) -> bool {
        &&& after.owner_id == self.owner_id
        &&& after.base_fee_percentage == self.base_fee_percentage
        &&& after.items@ == self.items@.update(self.slot(escrow_id), item)
    }

    /// The position of the escrow with identifier `id`, if there is one.
    fn position(&self, id: &String) -> (r: Option<usize>)
        requires
            self.wf(),
        ensures
            match r {
                Some(k) => {
                    &&& self.has_item(id@)
                    &&& k == self.slot(id@)
                    &&& k < self.items@.len()
                }
                None => !self.has_item(id@),
            },
    {
        let mut k: usize = 0;
        while k < self.items.len()
            invariant
                self.wf(),
                k <= self.items@.len(),
                forall|i: int| 0 <= i < k ==> (#[trigger] self.items@[i]).escrow_id@ != id@,
            decreases self.items@.len() - k,
        {
            if self.items[k].escrow_id == *id {
                assert(self.has_item(id@));
                return Some(k);
            }
            k += 1;
        }
        None
    }

    /// Sets up a registry. The owner defaults to the account that signed the
    /// call, the base fee to zero. Refused when the host already holds a
    /// registry (`state_exists`) or the fee is above a hundred percent.
    pub fn init(
        owner_id: Option<String>,
        base_fee_percentage: Option<u128>,
        signer_account_id: String,
        state_exists: bool,
    ) -> (r: Result<Escrow, CustodyError>)
        ensures
            match r {
                Ok(e) => {
                    &&& Self::init_error(base_fee_percentage, state_exists) is None
                    &&& e.wf()
                    &&& e.owner_id == match owner_id {
                        Some(o) => o,
                        None => signer_account_id,
                    }
                    &&& e.base_fee_percentage == match base_fee_percentage {
                        Some(f) => f,
                        None => 0,
                    }
                    &&& e.items@.len() == 0
                }
                Err(err) => Self::init_error(base_fee_percentage, state_exists) == Some(err),
            },
    {
        if state_exists {
            return Err(CustodyError::StateConflict);
        }
        let fee = match base_fee_percentage {
            Some(f) => f,
            None => 0,
        };
        if fee > MAX_FEE_PERCENT {
            return Err(CustodyError::Validation);
        }
        let owner = match owner_id {
            Some(o) => o,
            None => signer_account_id,
        };
        Ok(Escrow { owner_id: owner, base_fee_percentage: fee, items: Vec::new() })
    }

    /// Creates an escrow and funds it with the deposit attached to the call,
    /// which must equal `agreed_amount`. Only the owner or the funder may
    /// call; the fee defaults to the base fee. An identifier that is taken is
    /// refused, and the escrow that has it is left as it was.
    pub fn new(
        &mut self,
        escrow_id: String,
        funder_account_id: String,
        beneficiary_account_id: String,
        agreed_amount: u128,
        current_fee_percentage: Option<u128>,
        caller: &String,
        attached_deposit: u128,
    ) -> (r: Result<String, CustodyError>)
        requires
            old(self).wf(),
        ensures
            final(self).wf(),
            old(self).new_post(
                *final(self),
                escrow_id,
                funder_account_id,
                beneficiary_account_id,
                agreed_amount,
                current_fee_percentage,
                caller@,
                attached_deposit,
                r,
            ),
    {
        if agreed_amount == 0 || attached_deposit != agreed_amount {
            return Err(CustodyError::Validation);
        }
        let fee = match current_fee_percentage {
            Some(f) => f,
            None => self.base_fee_percentage,
        };
        if fee > MAX_FEE_PERCENT {
            return Err(CustodyError::Validation);
        }
        if !(*caller == self.owner_id || *caller == funder_account_id) {
            return Err(CustodyError::Authorization);
        }
        if self.position(&escrow_id).is_some() {
            return Err(CustodyError::StateConflict);
        }
        let item = EscrowItem {
            escrow_id: escrow_id.clone(),
            status: Status::Active,
            funder_account_id,
            beneficiary_account_id,
            agreed_amount,
            current_amount: agreed_amount,
            current_fee_percentage: fee,
        };
        self.items.push(item);
        assert(self.items@[self.items@.len() - 1] == item);
        Ok(escrow_id)
    }
    /// A copy of the escrow at position `k`, to be changed and written back.
    fn fetch(&self, k: usize) -> (r: EscrowItem)
        requires
            k < self.items@.len(),
        ensures
            r == self.items@[k as int],
    {
        let item = &self.items[k];
        EscrowItem {
            escrow_id: item.escrow_id.clone(),
            status: item.status,
            funder_account_id: item.funder_account_id.clone(),
            beneficiary_account_id: item.beneficiary_account_id.clone(),
            agreed_amount: item.agreed_amount,
            current_amount: item.current_amount,
            current_fee_percentage: item.current_fee_percentage,
        }
    }

    /// Stores `item` at position `k`, in place of the escrow there. The
    /// identifier is kept, so the registry stays well formed.
    fn write_back(&mut self, k: usize, item: EscrowItem)
        requires
            old(self).wf(),
            k < old(self).items@.len(),
            item.wf(),
            item.escrow_id@ == old(self).items@[k as int].escrow_id@,
        ensures
            final(self).wf(),
            final(self).owner_id == old(self).owner_id,
            final(self).base_fee_percentage == old(self).base_fee_percentage,
            final(self).items@ == old(self).items@.update(k as int, item),
    {
        let _ = self.items.remove(k);
        self.items.insert(k, item);
        assert(self.items@ =~= old(self).items@.update(k as int, item));
    }

    /// Releases an active escrow: the beneficiary gets the agreed amount
    /// less the fee, the owner the fee, in that order, and the escrow is
    /// `PayedOff`. Only the owner or the funder may call.
    pub fn release_deposit(&mut self, escrow_id: String, caller: &String) -> (r: Result<
        Vec<Transfer>,
        CustodyError,
    >)
        requires
            old(self).wf(),
        ensures
            final(self).wf(),
            match r {
                Ok(transfers) => {
                    &&& old(self).release_error(escrow_id@, caller@) is None
                    &&& old(self).stores(
                        *final(self),
                        escrow_id@,
                        old(self).item(escrow_id@).released(),
                    )
                    &&& transfers@ == old(self).release_transfers(escrow_id@)
                }
                Err(e) => {
                    &&& old(self).release_error(escrow_id@, caller@) == Some(e)
                    &&& *final(self) == *old(self)
                }
            },
    {
        let k = match self.position(&escrow_id) {
            Some(k) => k,
            None => return Err(CustodyError::NotFound),
        };
        if self.items[k].status != Status::Active {
            return Err(CustodyError::StateConflict);
        }
        if !(*caller == self.owner_id || *caller == self.items[k].funder_account_id) {
            return Err(CustodyError::Authorization);
        }
        if self.items[k].current_amount < self.items[k].agreed_amount {
            return Err(CustodyError::InsufficientFunds);
        }
        let (to_beneficiary, to_owner) = split(
            self.items[k].agreed_amount,
            self.items[k].current_fee_percentage,
        );
        // the shares are taken from the agreed amount, so this cannot fail
        // while the item holds at least that much
        if self.items[k].current_amount < to_beneficiary + to_owner {
            return Err(CustodyError::InsufficientFunds);
        }
        let mut item = self.fetch(k);
        let first = Transfer { receiver: item.beneficiary_account_id.clone(), amount: to_beneficiary };
        item.current_amount = item.current_amount - to_beneficiary;
        let second = Transfer { receiver: self.owner_id.clone(), amount: to_owner };
        item.current_amount = item.current_amount - to_owner;
        item.status = Status::PayedOff;
        self.write_back(k, item);
        let mut transfers: Vec<Transfer> = Vec::new();
        transfers.push(first);
        transfers.push(second);
        assert(transfers@ =~= old(self).release_transfers(escrow_id@));
        Ok(transfers)
    }
    /// Gives the agreed amount of an active escrow back to its funder; the
    /// escrow is `Reimbursed`. Only the owner or the beneficiary may call.
    pub fn reimburse_funder(&mut self, escrow_id: String, caller: &String) -> (r: Result<
        Vec<Transfer>,
        CustodyError,
    >)
        requires
            old(self).wf(),
        ensures
            final(self).wf(),
            match r {
                Ok(transfers) => {
                    &&& old(self).reimburse_error(escrow_id@, caller@) is None
                    &&& old(self).stores(
                        *final(self),
                        escrow_id@,
                        old(self).item(escrow_id@).reimbursed(),
                    )
                    &&& transfers@ == old(self).reimburse_transfers(escrow_id@)
                }
                Err(e) => {
                    &&& old(self).reimburse_error(escrow_id@, caller@) == Some(e)
                    &&& *final(self) == *old(self)
                }
            },
    {
        let k = match self.position(&escrow_id) {
            Some(k) => k,
            None => return Err(CustodyError::NotFound),
        };
        if self.items[k].status != Status::Active {
            return Err(CustodyError::StateConflict);
        }
        if !(*caller == self.owner_id || *caller == self.items[k].beneficiary_account_id) {
            return Err(CustodyError::Authorization);
        }
        if self.items[k].current_amount < self.items[k].agreed_amount {
            return Err(CustodyError::InsufficientFunds);
        }
        let mut item = self.fetch(k);
        let refund = Transfer { receiver: item.funder_account_id.clone(), amount: item.agreed_amount };
        item.current_amount = item.current_amount - item.agreed_amount;
        item.status = Status::Reimbursed;
        self.write_back(k, item);
        let mut transfers: Vec<Transfer> = Vec::new();
        transfers.push(refund);
        assert(transfers@ =~= old(self).reimburse_transfers(escrow_id@));
        Ok(transfers)
    }

    /// Deletes an escrow that is no longer active. Only the owner may call.
    pub fn remove_item(&mut self, escrow_id: String, caller: &String) -> (r: Result<
        (),
        CustodyError,
    >)
        requires
            old(self).wf(),
        ensures
            final(self).wf(),
            match r {
                Ok(()) => {
                    &&& old(self).remove_error(escrow_id@, caller@) is None
                    &&& final(self).owner_id == old(self).owner_id
                    &&& final(self).base_fee_percentage == old(self).base_fee_percentage
                    &&& final(self).items@ == old(self).items@.remove(old(self).slot(escrow_id@))
                    &&& !final(self).has_item(escrow_id@)
                }
                Err(e) => {
                    &&& old(self).remove_error(escrow_id@, caller@) == Some(e)
                    &&& *final(self) == *old(self)
                }
            },
    {
        let k = match self.position(&escrow_id) {
            Some(k) => k,
            None => return Err(CustodyError::NotFound),
        };
        if self.items[k].status == Status::Active {
            return Err(CustodyError::StateConflict);
        }
        if !(*caller == self.owner_id) {
            return Err(CustodyError::Authorization);
        }
        let _ = self.items.remove(k);
        assert forall|i: int| 0 <= i < self.items@.len() implies #[trigger] self.items@[i]
            == old(self).items@[if i < k { i } else { i + 1 }] by {}
        assert(!self.has_item(escrow_id@)) by {
            if self.has_item(escrow_id@) {
                let i = choose|i: int|
                    0 <= i < self.items@.len() && (#[trigger] self.items@[i]).escrow_id@
                        == escrow_id@;
                assert(old(self).items@[if i < k { i } else { i + 1 }].escrow_id@ == escrow_id@);
            }
        }
        Ok(())
    }

    /// Sends all that an escrow holds to the owner, whatever its status,
    /// and leaves the status as it was: a way out for escrows that are
    /// stuck. Only the owner may call.
    pub fn emergency_withdraw(&mut self, escrow_id: String, caller: &String) -> (r: Result<
        Vec<Transfer>,
        CustodyError,
    >)
        requires
            old(self).wf(),
        ensures
            final(self).wf(),
            match r {
                Ok(transfers) => {
                    &&& old(self).withdraw_error(escrow_id@, caller@) is None
                    &&& old(self).stores(
                        *final(self),
                        escrow_id@,
                        old(self).item(escrow_id@).drained(),
                    )
                    &&& transfers@ == seq![
                        Transfer {
                            receiver: old(self).owner_id,
                            amount: old(self).item(escrow_id@).current_amount,
                        },
                    ]
                }
                Err(e) => {
                    &&& old(self).withdraw_error(escrow_id@, caller@) == Some(e)
                    &&& *final(self) == *old(self)
                }
            },
    {
        let k = match self.position(&escrow_id) {
            Some(k) => k,
            None => return Err(CustodyError::NotFound),
        };
        if !(*caller == self.owner_id) {
            return Err(CustodyError::Authorization);
        }
        let mut item = self.fetch(k);
        let withdrawal = Transfer { receiver: self.owner_id.clone(), amount: item.current_amount };
        item.current_amount = 0;
        self.write_back(k, item);
        let mut transfers: Vec<Transfer> = Vec::new();
        transfers.push(withdrawal);
        assert(transfers@ =~= seq![withdrawal]);
        Ok(transfers)
    }

    /// The amount that an escrow holds, where it holds all that was agreed;
    /// `None` for an unknown identifier and for an escrow in the middle of
    /// paying out.
    pub fn get_balance(&self, escrow_id: String) -> (r: Option<u128>)
        requires
            self.wf(),
        ensures
            r == (if self.has_item(escrow_id@) && self.item(escrow_id@).agreed_amount
                == self.item(escrow_id@).current_amount {
                Some(self.item(escrow_id@).agreed_amount)
            } else {
                None
            }),
    {
        match self.position(&escrow_id) {
            Some(k) => {
                if self.items[k].agreed_amount == self.items[k].current_amount {
                    Some(self.items[k].agreed_amount)
                } else {
                    None
                }
            },
            None => None,
        }
    }

    /// The fee that new escrows get unless they name their own.
    pub fn get_base_fee_percentage(&self) -> (r: u128)
        ensures
            r == self.base_fee_percentage,
    {
        self.base_fee_percentage
    }

    /// The owner of the registry.
    pub fn get_owner_id(&self) -> (r: String)
        ensures
            r == self.owner_id,
    {
        self.owner_id.clone()
    }

    /// Changes the base fee. Only the owner may call, and the fee must be at
    /// most a hundred percent. Returns the new base fee.
    pub fn set_base_fee_percentage(&mut self, new_fee: u128, caller: &String) -> (r: Result<
        u128,
        CustodyError,
    >)
        requires
            old(self).wf(),
        ensures
            final(self).wf(),
            match r {
                Ok(fee) => {
                    &&& caller@ == old(self).owner_id@
                    &&& new_fee <= MAX_FEE_PERCENT
                    &&& fee == new_fee
                    &&& final(self).base_fee_percentage == new_fee
                    &&& final(self).owner_id == old(self).owner_id
                    &&& final(self).items == old(self).items
                }
                Err(e) => {
                    &&& e == if caller@ != old(self).owner_id@ {
                        CustodyError::Authorization
                    } else {
                        CustodyError::Validation
                    }
                    &&& (caller@ != old(self).owner_id@ || new_fee > MAX_FEE_PERCENT)
                    &&& *final(self) == *old(self)
                }
            },
    {
        if !(*caller == self.owner_id) {
            return Err(CustodyError::Authorization);
        }
        if new_fee > MAX_FEE_PERCENT {
            return Err(CustodyError::Validation);
        }
        self.base_fee_percentage = new_fee;
        Ok(self.base_fee_percentage)
    }
}

/// A release or a reimbursement takes from the escrow exactly what it
/// transfers, and that is more than nothing.
pub proof fn lemma_payout_spends_what_it_sends(e: Escrow, escrow_id: Seq<char>, caller: Seq<char>)
    requires
        e.wf(),
    ensures
        e.release_error(escrow_id, caller) is None ==> {
            &&& e.item(escrow_id).released().current_amount == e.item(escrow_id).current_amount
                - total(e.release_transfers(escrow_id))
            &&& total(e.release_transfers(escrow_id)) > 0
        },
        e.reimburse_error(escrow_id, caller) is None ==> {
            &&& e.item(escrow_id).reimbursed().current_amount == e.item(escrow_id).current_amount
                - total(e.reimburse_transfers(escrow_id))
            &&& total(e.reimburse_transfers(escrow_id)) > 0
        },
{
    if e.has_item(escrow_id) {
        let item = e.item(escrow_id);
        assert(item.wf());
        let ts = e.release_transfers(escrow_id);
        lemma_split_conserves(item.agreed_amount as int, item.current_fee_percentage as int);
        lemma_total_of_two(ts[0], ts[1]);
        assert(ts =~= seq![ts[0], ts[1]]);
        let rs = e.reimburse_transfers(escrow_id);
        lemma_total_of_one(rs[0]);
        assert(rs =~= seq![rs[0]]);
    }
}

/// Creating an escrow under an identifier that is taken never succeeds and
/// leaves the escrow that holds the identifier as it was; where nothing else
/// is wrong with the call, it is refused as a conflict.
pub proof fn lemma_create_keeps_existing(
    before: Escrow,
    after: Escrow,
    escrow_id: String,
    funder_account_id: String,
    beneficiary_account_id: String,
    agreed_amount: u128,
    current_fee_percentage: Option<u128>,
    caller: Seq<char>,
    attached_deposit: u128,
    r: Result<String, CustodyError>,
)
    requires
        before.wf(),
        before.has_item(escrow_id@),
        before.new_post(
            after,
            escrow_id,
            funder_account_id,
            beneficiary_account_id,
            agreed_amount,
            current_fee_percentage,
            caller,
            attached_deposit,
            r,
        ),
    ensures
        r is Err,
        after.has_item(escrow_id@),
        after.item(escrow_id@) == before.item(escrow_id@),
        agreed_amount > 0 && attached_deposit == agreed_amount && (match current_fee_percentage {
            Some(f) => f <= MAX_FEE_PERCENT,
            None => true,
        }) && before.is_owner_or(caller, funder_account_id@) ==> r == Err::<
            String,
            CustodyError,
        >(CustodyError::StateConflict),
{
}

} // verus!
