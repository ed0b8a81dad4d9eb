use vstd::prelude::*;
use vstd::string::to_string_from_display_ensures;

use crate::error::CustodyError;
use crate::fee::{lemma_split_conserves, owner_share, recipient_share, split, MAX_FEE_PERCENT};
use crate::transfer::{lemma_total_of_two, total, Transfer};

verus! {

/// Where a lottery stands: funded at creation (`New`), `Over` once a winner
/// is drawn, `Closed` once the prize is paid.
#[derive(PartialEq, Eq, Structural, Clone, Copy, Debug)]
pub enum Status {
    Draft,
    Canceled,
    New,
    Active,
    Over,
    Closed,
}

/// Where a lottery's prize stands.
#[derive(PartialEq, Eq, Structural, Clone, Copy, Debug)]
pub enum PrizeStatus {
    DepositPending,
    DepositFunded,
    WinnerPayedOff,
    OwnerReimbursed,
}

/// Whether a participant takes part.
#[derive(PartialEq, Eq, Structural, Clone, Copy, Debug)]
pub enum ParticipantStatus {
    Active,
    OptedOut,
    Suspended,
}

/// What a lottery records of one participant.
#[derive(PartialEq, Eq, Structural, Clone, Copy, Debug)]
pub struct Participant {
    pub status: ParticipantStatus,
}

/// The position in the host's random seed of the byte that draws a winner.
pub const SEED_BYTE_INDEX: usize = 16;

/// One lottery: a prize deposited by an organiser, the participants in the
/// order in which they registered, and the winner once drawn.
#[derive(Clone, Debug)]
pub struct LotteryItem {
    pub lottery_id: String,
    pub status: Status,
    pub organiser_account_id: String,
    pub participants: Vec<(String, Participant)>,
    pub winner: Option<String>,
    pub agreed_prize_amount: u128,
    pub current_prize_amount: u128,
    pub prize_status: PrizeStatus,
    pub current_fee_percentage: u128,
}

impl LotteryItem {
    /// `account` has registered for this lottery.
    pub open spec fn is_participant(self, account: Seq<char>) -> bool {
        exists|i: int|
            0 <= i < self.participants@.len() && (#[trigger] self.participants@[i]).0@ == account
    }

    /// The prize is positive and never exceeded, the fee is a percentage,
    /// nobody is registered twice, and a winner is one of the participants.
    pub open spec fn wf(self) -> bool {
        &&& self.agreed_prize_amount > 0
        &&& self.current_prize_amount <= self.agreed_prize_amount
        &&& self.current_fee_percentage <= MAX_FEE_PERCENT
        &&& forall|i: int, j: int|
            0 <= i < self.participants@.len() && 0 <= j < self.participants@.len() && i != j
                ==> (#[trigger] self.participants@[i]).0@ != (#[trigger] self.participants@[j]).0@
        &&& self.winner is Some ==> self.is_participant(self.winner->0@)
    }
}

impl LotteryItem {
    /// `after` is this lottery with `account` registered, as active, after
    /// those that registered before.
    pub open spec fn joined(self, after: LotteryItem, account: String) -> bool {
        &&& after.participants@ == self.participants@.push(
            (account, Participant { status: ParticipantStatus::Active }),
        )
        &&& after.lottery_id == self.lottery_id
        &&& after.status == self.status
        &&& after.organiser_account_id == self.organiser_account_id
        &&& after.winner == self.winner
        &&& after.agreed_prize_amount == self.agreed_prize_amount
        &&& after.current_prize_amount == self.current_prize_amount
        &&& after.prize_status == self.prize_status
        &&& after.current_fee_percentage == self.current_fee_percentage
    }
}

/// The participant that the seed byte `byte` draws among `count`: the byte
/// divided by `256 / count`, rounded down, that is `byte * count / 256`.
pub open spec fn draw(byte: int, count: int) -> int {
    byte * count / 256
}

/// Draws a position among `count` participants from one random byte.
/// Lower positions are slightly favoured where `count` does not divide 256.
pub fn random_in_range(byte: u8, count: usize) -> (r: usize)
    ensures
        r == draw(byte as int, count as int),
        count > 0 ==> r < count,
{
    assert((byte as u128) * (count as u128) <= 255 * (usize::MAX as u128)) by (nonlinear_arith)
        requires
            byte <= 255,
            count <= usize::MAX,
    ;
    let scaled = (byte as u128) * (count as u128);
    assert(scaled / 256 <= count) by (nonlinear_arith)
        requires
            scaled == byte * count,
            byte < 256,
    ;
    assert(count > 0 ==> scaled / 256 < count) by (nonlinear_arith)
        requires
            scaled == byte * count,
            byte < 256,
    ;
    (scaled / 256) as usize
}

/// The name of a lottery status, as the field map shows it.
pub open spec fn status_name(status: Status) -> Seq<char> {
    match status {
        Status::Draft => "Draft"@,
        Status::Canceled => "Canceled"@,
        Status::New => "New"@,
        Status::Active => "Active"@,
        Status::Over => "Over"@,
        Status::Closed => "Closed"@,
    }
}

/// The name of a prize status, as the field map shows it.
pub open spec fn prize_status_name(status: PrizeStatus) -> Seq<char> {
    match status {
        PrizeStatus::DepositPending => "DepositPending"@,
        PrizeStatus::DepositFunded => "DepositFunded"@,
        PrizeStatus::WinnerPayedOff => "WinnerPayedOff"@,
        PrizeStatus::OwnerReimbursed => "OwnerReimbursed"@,
    }
}

fn status_text(status: Status) -> (r: String)
    ensures
        r@ == status_name(status),
{
    match status {
        Status::Draft => "Draft".to_owned(),
        Status::Canceled => "Canceled".to_owned(),
        Status::New => "New".to_owned(),
        Status::Active => "Active".to_owned(),
        Status::Over => "Over".to_owned(),
        Status::Closed => "Closed".to_owned(),
    }
}

fn prize_status_text(status: PrizeStatus) -> (r: String)
    ensures
        r@ == prize_status_name(status),
{
    match status {
        PrizeStatus::DepositPending => "DepositPending".to_owned(),
        PrizeStatus::DepositFunded => "DepositFunded".to_owned(),
        PrizeStatus::WinnerPayedOff => "WinnerPayedOff".to_owned(),
        PrizeStatus::OwnerReimbursed => "OwnerReimbursed".to_owned(),
    }
}

/// The lottery registry: its owner, the fee that new lotteries get by
/// default, and the lotteries, at most one for each identifier.
pub struct Lottery {
    pub owner_account_id: String,
    pub base_fee_percentage: u128,
    pub items: Vec<LotteryItem>,
}

impl Lottery {
    /// Some lottery has the identifier `id`.
    pub open spec fn has_item(self, id: Seq<char>) -> bool {
        exists|i: int| 0 <= i < self.items@.len() && (#[trigger] self.items@[i]).lottery_id@ == id
    }

    /// The position of the lottery with identifier `id`.
    pub open spec fn slot(self, id: Seq<char>) -> int {
        choose|i: int| 0 <= i < self.items@.len() && (#[trigger] self.items@[i]).lottery_id@ == id
    }

    /// The lottery with identifier `id`.
    pub open spec fn item(self, id: Seq<char>) -> LotteryItem {
        self.items@[self.slot(id)]
    }

    /// The base fee is a percentage, every lottery is well formed, and no
    /// two lotteries share an identifier.
    pub open spec fn wf(self) -> bool {
        &&& self.base_fee_percentage <= MAX_FEE_PERCENT
        &&& forall|i: int| 0 <= i < self.items@.len() ==> (#[trigger] self.items@[i]).wf()
        &&& forall|i: int, j: int|
            0 <= i < self.items@.len() && 0 <= j < self.items@.len() && i != j
                ==> (#[trigger] self.items@[i]).lottery_id@ != (#[trigger] self.items@[j]).lottery_id@
    }

    /// The registry `after` differs from this one at most in the lottery `id`.
    pub open spec fn updates(self, after: Lottery, id: Seq<char>) -> bool {
        &&& after.owner_account_id == self.owner_account_id
        &&& after.base_fee_percentage == self.base_fee_percentage
        &&& after.items@.len() == self.items@.len()
        &&& forall|i: int|
            0 <= i < self.items@.len() && i != self.slot(id) ==> after.items@[i] == self.items@[i]
        &&& after.has_item(id)
        &&& after.slot(id) == self.slot(id)
    }

    /// The registry `after` holds `item` in place of the lottery `id`.
    pub open spec fn stores(self, after: Lottery, id: Seq<char>, item: LotteryItem) -> bool {
        &&& self.updates(after, id)
        &&& after.items@[self.slot(id)] == item
    }

    /// Why `init` refuses, if it does.
    pub open spec fn init_error(base_fee_percentage: Option<u128>, state_exists: bool) -> Option<
        CustodyError,
    > {
        if state_exists {
            Some(CustodyError::StateConflict)
        } else if base_fee_percentage is Some && base_fee_percentage->0 > MAX_FEE_PERCENT {
            Some(CustodyError::Validation)
        } else {
            None
        }
    }

    /// Why `new` refuses, if it does.
    pub open spec fn new_error(
        self,
        lottery_id: Seq<char>,
        organiser_account_id: Seq<char>,
        agreed_prize_amount: u128,
        current_fee_percentage: Option<u128>,
        caller: Seq<char>,
        attached_deposit: u128,
    ) -> Option<CustodyError> {
        if agreed_prize_amount == 0 || attached_deposit == 0 {
            Some(CustodyError::Validation)
        } else if current_fee_percentage is Some && current_fee_percentage->0 > MAX_FEE_PERCENT {
            Some(CustodyError::Validation)
        } else if caller != self.owner_account_id@ && caller != organiser_account_id {
            Some(CustodyError::Authorization)
        } else if self.has_item(lottery_id) {
            Some(CustodyError::StateConflict)
        } else if attached_deposit != agreed_prize_amount {
            Some(CustodyError::Validation)
        } else {
            None
        }
    }

    /// Why `add_participant` refuses, if it does.
    pub open spec fn add_error(self, lottery_id: Seq<char>, account: Seq<char>) -> Option<
        CustodyError,
    > {
        if !self.has_item(lottery_id) {
            Some(CustodyError::NotFound)
        } else if self.item(lottery_id).is_participant(account) {
            Some(CustodyError::StateConflict)
        } else {
            None
        }
    }

    /// What `add_participant` does: on success the participant is appended,
    /// active, and its account returned; on refusal nothing changes.
    pub open spec fn add_post(
        self,
        after: Lottery,
        lottery_id: Seq<char>,
        account: String,
        r: Result<String, CustodyError>,
    ) -> bool {
        match r {
            Ok(a) => {
                let item = self.item(lottery_id);
                &&& self.add_error(lottery_id, account@) is None
                &&& a == account
                &&& self.updates(after, lottery_id)
                &&& item.joined(after.item(lottery_id), account)
            },
            Err(e) => self.add_error(lottery_id, account@) == Some(e) && after == self,
        }
    }

    /// Why `pick_random_winner` refuses, if it does.
    pub open spec fn pick_error(self, lottery_id: Seq<char>) -> Option<CustodyError> {
        if !self.has_item(lottery_id) {
            Some(CustodyError::NotFound)
        } else if self.item(lottery_id).winner is Some {
            Some(CustodyError::StateConflict)
        } else if self.item(lottery_id).participants@.len() == 0 {
            Some(CustodyError::StateConflict)
        } else {
            None
        }
    }

    /// The account that the seed draws in the lottery `id`.
    pub open spec fn drawn(self, lottery_id: Seq<char>, random_seed: Seq<u8>) -> String {
        let item = self.item(lottery_id);
        item.participants@[draw(
            random_seed[SEED_BYTE_INDEX as int] as int,
            item.participants@.len() as int,
        )].0
    }

    /// What `pick_random_winner` does: on success the drawn participant is
    /// the winner, the lottery is `Over`, and the winner is returned; on
    /// refusal nothing changes.
    pub open spec fn pick_post(
        self,
        after: Lottery,
        lottery_id: Seq<char>,
        random_seed: Seq<u8>,
        r: Result<String, CustodyError>,
    ) -> bool {
        match r {
            Ok(w) => {
                &&& self.pick_error(lottery_id) is None
                &&& w == self.drawn(lottery_id, random_seed)
                &&& self.stores(
                    after,
                    lottery_id,
                    LotteryItem { winner: Some(w), status: Status::Over, ..self.item(lottery_id) },
                )
            },
            Err(e) => self.pick_error(lottery_id) == Some(e) && after == self,
        }
    }

    /// Why `release_prize_to_winner` refuses, if it does.
    pub open spec fn release_error(self, lottery_id: Seq<char>, caller: Seq<char>) -> Option<
        CustodyError,
    > {
        let item = self.item(lottery_id);
        if !self.has_item(lottery_id) {
            Some(CustodyError::NotFound)
        } else if item.winner is None || item.prize_status != PrizeStatus::DepositFunded {
            Some(CustodyError::StateConflict)
        } else if caller != self.owner_account_id@ && caller != item.organiser_account_id@ {
            Some(CustodyError::Authorization)
        } else if item.current_prize_amount < item.agreed_prize_amount {
            Some(CustodyError::InsufficientFunds)
        } else {
            None
        }
    }

    /// What paying the prize transfers: the winner's share, then the owner's.
    pub open spec fn release_transfers(self, lottery_id: Seq<char>) -> Seq<Transfer> {
        let item = self.item(lottery_id);
        seq![
            Transfer {
                receiver: item.winner->0,
                amount: recipient_share(
                    item.agreed_prize_amount as int,
                    item.current_fee_percentage as int,
                ) as u128,
            },
            Transfer {
                receiver: self.owner_account_id,
                amount: owner_share(
                    item.agreed_prize_amount as int,
                    item.current_fee_percentage as int,
                ) as u128,
            },
        ]
    }

    /// The lottery `id` once its prize is paid.
    pub open spec fn paid(self, lottery_id: Seq<char>) -> LotteryItem {
        let item = self.item(lottery_id);
        LotteryItem {
            status: Status::Closed,
            prize_status: PrizeStatus::WinnerPayedOff,
            current_prize_amount: (item.current_prize_amount - item.agreed_prize_amount) as u128,
            ..item
        }
    }

    /// The position of the lottery with identifier `id`, if there is one.
    fn position(&self, id: &String) -> (r: Option<usize>)
        requires
            self.wf(),
        ensures
            match r {
                Some(k) => {
                    &&& self.has_item(id@)
                    &&& k == self.slot(id@)
                    &&& k < self.items@.len()
                }
                None => !self.has_item(id@),
            },
    {
        let mut k: usize = 0;
        while k < self.items.len()
            invariant
                self.wf(),
                k <= self.items@.len(),
                forall|i: int| 0 <= i < k ==> (#[trigger] self.items@[i]).lottery_id@ != id@,
            decreases self.items@.len() - k,
        {
            if self.items[k].lottery_id == *id {
                assert(self.has_item(id@));
                return Some(k);
            }
            k += 1;
        }
        None
    }

    /// Takes the lottery at position `k` out of the registry, to be changed
    /// and put back with `put_back`.
    fn take(&mut self, k: usize) -> (r: LotteryItem)
        requires
            k < old(self).items@.len(),
        ensures
            r == old(self).items@[k as int],
            final(self).items@ == old(self).items@.remove(k as int),
            final(self).owner_account_id == old(self).owner_account_id,
            final(self).base_fee_percentage == old(self).base_fee_percentage,
    {
        self.items.remove(k)
    }

    /// Puts a lottery taken from position `k` of `before` back there. The
    /// identifier is kept, so the registry is well formed again.
    fn put_back(&mut self, k: usize, item: LotteryItem, Ghost(before): Ghost<Lottery>)
        requires
            before.wf(),
            k < before.items@.len(),
            old(self).items@ == before.items@.remove(k as int),
            old(self).owner_account_id == before.owner_account_id,
            old(self).base_fee_percentage == before.base_fee_percentage,
            item.wf(),
            item.lottery_id@ == before.items@[k as int].lottery_id@,
        ensures
            final(self).wf(),
            final(self).owner_account_id == before.owner_account_id,
            final(self).base_fee_percentage == before.base_fee_percentage,
            final(self).items@ == before.items@.update(k as int, item),
    {
        self.items.insert(k, item);
        assert(self.items@ =~= before.items@.update(k as int, item));
    }

    /// Sets up a registry. The owner defaults to the account that signed the
    /// call, the base fee to zero. Refused when the host already holds a
    /// registry (`state_exists`) or the fee is above a hundred percent.
    pub fn init(
        owner_account_id: Option<String>,
        base_fee_percentage: Option<u128>,
        signer_account_id: String,
        state_exists: bool,
    ) -> (r: Result<Lottery, CustodyError>)
        ensures
            match r {
                Ok(l) => {
                    &&& Self::init_error(base_fee_percentage, state_exists) is None
                    &&& l.wf()
                    &&& l.owner_account_id == match owner_account_id {
                        Some(o) => o,
                        None => signer_account_id,
                    }
                    &&& l.base_fee_percentage == match base_fee_percentage {
                        Some(f) => f,
                        None => 0,
                    }
                    &&& l.items@.len() == 0
                }
                Err(err) => Self::init_error(base_fee_percentage, state_exists) == Some(err),
            },
    {
        if state_exists {
            return Err(CustodyError::StateConflict);
        }
        let fee = match base_fee_percentage {
            Some(f) => f,
            None => 0,
        };
        if fee > MAX_FEE_PERCENT {
            return Err(CustodyError::Validation);
        }
        let owner = match owner_account_id {
            Some(o) => o,
            None => signer_account_id,
        };
        Ok(Lottery { owner_account_id: owner, base_fee_percentage: fee, items: Vec::new() })
    }

    /// Creates a lottery funded with the deposit attached to the call, which
    /// must equal `agreed_prize_amount`. Only the owner or the organiser may
    /// call; the fee defaults to the base fee. An identifier that is taken
    /// is refused, and the lottery that has it is left as it was.
    pub fn new(
        &mut self,
        lottery_id: String,
        organiser_account_id: String,
        agreed_prize_amount: u128,
        current_fee_percentage: Option<u128>,
        caller: &String,
        attached_deposit: u128,
    ) -> (r: Result<String, CustodyError>)
        requires
            old(self).wf(),
        ensures
            final(self).wf(),
            match r {
                Ok(id) => {
                    &&& old(self).new_error(
                        lottery_id@,
                        organiser_account_id@,
                        agreed_prize_amount,
                        current_fee_percentage,
                        caller@,
                        attached_deposit,
                    ) is None
                    &&& id == lottery_id
                    &&& final(self).owner_account_id == old(self).owner_account_id
                    &&& final(self).base_fee_percentage == old(self).base_fee_percentage
                    &&& final(self).items@.len() == old(self).items@.len() + 1
                    &&& forall|i: int|
                        0 <= i < old(self).items@.len() ==> final(self).items@[i]
                            == old(self).items@[i]
                    &&& final(self).has_item(lottery_id@)
                    &&& final(self).item(lottery_id@) == (LotteryItem {
                        lottery_id,
                        status: Status::New,
                        organiser_account_id,
                        participants: final(self).item(lottery_id@).participants,
                        winner: None,
                        agreed_prize_amount,
                        current_prize_amount: attached_deposit,
                        prize_status: PrizeStatus::DepositFunded,
                        current_fee_percentage: match current_fee_percentage {
                            Some(f) => f,
                            None => old(self).base_fee_percentage,
                        },
                    })
                    &&& final(self).item(lottery_id@).participants@.len() == 0
                }
                Err(e) => {
                    &&& old(self).new_error(
                        lottery_id@,
                        organiser_account_id@,
                        agreed_prize_amount,
                        current_fee_percentage,
                        caller@,
                        attached_deposit,
                    ) == Some(e)
                    &&& *final(self) == *old(self)
                }
            },
    {
        if agreed_prize_amount == 0 || attached_deposit == 0 {
            return Err(CustodyError::Validation);
        }
        let fee = match current_fee_percentage {
            Some(f) => f,
            None => self.base_fee_percentage,
        };
        if fee > MAX_FEE_PERCENT {
            return Err(CustodyError::Validation);
        }
        if !(*caller == self.owner_account_id || *caller == organiser_account_id) {
            return Err(CustodyError::Authorization);
        }
        if self.position(&lottery_id).is_some() {
            return Err(CustodyError::StateConflict);
        }
        if attached_deposit != agreed_prize_amount {
            return Err(CustodyError::Validation);
        }
        let item = LotteryItem {
            lottery_id: lottery_id.clone(),
            status: Status::New,
            organiser_account_id,
            participants: Vec::new(),
            winner: None,
            agreed_prize_amount,
            current_prize_amount: attached_deposit,
            prize_status: PrizeStatus::DepositFunded,
            current_fee_percentage: fee,
        };
        let ghost n = self.items@.len() as int;
        self.items.push(item);
        assert(self.items@[n] == item);
        assert(self.has_item(lottery_id@));
        assert(self.slot(lottery_id@) == n);
        Ok(lottery_id)
    }

    /// Registers `participant_account_id` for a lottery, as active, after
    /// those registered before. An account registered already is refused and
    /// the participants stay as they were.
    pub fn add_participant(&mut self, lottery_id: String, participant_account_id: String) -> (r:
        Result<String, CustodyError>)
        requires
            old(self).wf(),
        ensures
            final(self).wf(),
            old(self).add_post(*final(self), lottery_id@, participant_account_id, r),
    {
        let k = match self.position(&lottery_id) {
            Some(k) => k,
            None => return Err(CustodyError::NotFound),
        };
        let mut i: usize = 0;
        while i < self.items[k].participants.len()
            invariant
                *self == *old(self),
                self.wf(),
                self.has_item(lottery_id@),
                k == self.slot(lottery_id@),
                k < self.items@.len(),
                i <= self.items@[k as int].participants@.len(),
                forall|j: int|
                    0 <= j < i ==> (#[trigger] self.items@[k as int].participants@[j]).0@
                        != participant_account_id@,
            decreases self.items@[k as int].participants@.len() - i,
        {
            if self.items[k].participants[i].0 == participant_account_id {
                assert(self.items@[k as int].is_participant(participant_account_id@));
                return Err(CustodyError::StateConflict);
            }
            i += 1;
        }
        let ghost before = *self;
        let mut item = self.take(k);
        assert(item.wf());
        item.participants.push(
            (participant_account_id.clone(), Participant { status: ParticipantStatus::Active }),
        );
        assert forall|a: int, b: int|
            0 <= a < item.participants@.len() && 0 <= b < item.participants@.len() && a != b
                implies (#[trigger] item.participants@[a]).0@ != (#[trigger] item.participants@[b]).0@ by {
            if a < before.items@[k as int].participants@.len() && b < before.items@[k as int].participants@.len() {
                assert(item.participants@[a] == before.items@[k as int].participants@[a]);
                assert(item.participants@[b] == before.items@[k as int].participants@[b]);
            }
        }
        assert(item.winner is Some ==> item.is_participant(item.winner->0@)) by {
            if item.winner is Some {
                let j = choose|j: int|
                    0 <= j < before.items@[k as int].participants@.len()
                        && (#[trigger] before.items@[k as int].participants@[j]).0@
                        == item.winner->0@;
                assert(item.participants@[j] == before.items@[k as int].participants@[j]);
            }
        }
        self.put_back(k, item, Ghost(before));
        assert(self.items@[k as int].lottery_id@ == lottery_id@);
        assert(self.has_item(lottery_id@));
        assert(before.updates(*self, lottery_id@));
        Ok(participant_account_id)
    }

    /// Draws the winner of a lottery from the byte at `SEED_BYTE_INDEX` of
    /// the host's random seed, among the participants in the order in which
    /// they registered; the lottery is then `Over`. A winner is drawn once:
    /// a lottery that has one, or that has no participants, is refused.
    pub fn pick_random_winner(&mut self, lottery_id: String, random_seed: &Vec<u8>) -> (r: Result<
        String,
        CustodyError,
    >)
        requires
            old(self).wf(),
            random_seed@.len() > SEED_BYTE_INDEX,
        ensures
            final(self).wf(),
            old(self).pick_post(*final(self), lottery_id@, random_seed@, r),
    {
        let k = match self.position(&lottery_id) {
            Some(k) => k,
            None => return Err(CustodyError::NotFound),
        };
        if self.items[k].winner.is_some() {
            return Err(CustodyError::StateConflict);
        }
        let count = self.items[k].participants.len();
        if count == 0 {
            return Err(CustodyError::StateConflict);
        }
        let index = random_in_range(random_seed[SEED_BYTE_INDEX], count);
        let winner = self.items[k].participants[index].0.clone();
        let ghost before = *self;
        let mut item = self.take(k);
        assert(before.items@[k as int].wf());
        assert(item.participants@[index as int].0@ == winner@);
        item.winner = Some(winner.clone());
        item.status = Status::Over;
        assert(item.participants@[index as int].0@ == item.winner->0@);
        assert(item.is_participant(item.winner->0@));
        self.put_back(k, item, Ghost(before));
        assert(self.items@[k as int].lottery_id@ == lottery_id@);
        assert(self.has_item(lottery_id@));
        Ok(winner)
    }

    /// The winner of a lottery, once drawn.
    pub fn get_winner(&self, lottery_id: String) -> (r: Result<Option<String>, CustodyError>)
        requires
            self.wf(),
        ensures
            r == if self.has_item(lottery_id@) {
                Ok::<Option<String>, CustodyError>(self.item(lottery_id@).winner)
            } else {
                Err(CustodyError::NotFound)
            },
    {
        match self.position(&lottery_id) {
            Some(k) => match &self.items[k].winner {
                Some(w) => Ok(Some(w.clone())),
                None => Ok(None),
            },
            None => Err(CustodyError::NotFound),
        }
    }

    /// Pays the prize of a lottery whose winner is drawn: the winner gets
    /// the agreed prize less the fee, the owner the fee, in that order; the
    /// lottery is then `Closed`. Only the owner or the organiser may call.
    pub fn release_prize_to_winner(&mut self, lottery_id: String, caller: &String) -> (r: Result<
        Vec<Transfer>,
        CustodyError,
    >)
        requires
            old(self).wf(),
        ensures
            final(self).wf(),
            match r {
                Ok(transfers) => {
                    &&& old(self).release_error(lottery_id@, caller@) is None
                    &&& old(self).stores(*final(self), lottery_id@, old(self).paid(lottery_id@))
                    &&& transfers@ == old(self).release_transfers(lottery_id@)
                }
                Err(e) => {
                    &&& old(self).release_error(lottery_id@, caller@) == Some(e)
                    &&& *final(self) == *old(self)
                }
            },
    {
        let k = match self.position(&lottery_id) {
            Some(k) => k,
            None => return Err(CustodyError::NotFound),
        };
        let winner = match &self.items[k].winner {
            Some(w) => w.clone(),
            None => return Err(CustodyError::StateConflict),
        };
        if self.items[k].prize_status != PrizeStatus::DepositFunded {
            return Err(CustodyError::StateConflict);
        }
        if !(*caller == self.owner_account_id || *caller == self.items[k].organiser_account_id) {
            return Err(CustodyError::Authorization);
        }
        if self.items[k].current_prize_amount < self.items[k].agreed_prize_amount {
            return Err(CustodyError::InsufficientFunds);
        }
        let (to_winner, to_owner) = split(
            self.items[k].agreed_prize_amount,
            self.items[k].current_fee_percentage,
        );
        // the shares are taken from the agreed prize, so this cannot fail
        // while the lottery holds at least that much
        if self.items[k].current_prize_amount < to_winner + to_owner {
            return Err(CustodyError::InsufficientFunds);
        }
        let first = Transfer { receiver: winner, amount: to_winner };
        let second = Transfer { receiver: self.owner_account_id.clone(), amount: to_owner };
        let ghost before = *self;
        let mut item = self.take(k);
        assert(before.items@[k as int].wf());
        item.current_prize_amount = item.current_prize_amount - to_winner;
        item.current_prize_amount = item.current_prize_amount - to_owner;
        item.prize_status = PrizeStatus::WinnerPayedOff;
        item.status = Status::Closed;
        assert(item.participants@ == before.items@[k as int].participants@);
        assert(item.winner is Some ==> item.is_participant(item.winner->0@));
        self.put_back(k, item, Ghost(before));
        assert(self.items@[k as int].lottery_id@ == lottery_id@);
        assert(self.has_item(lottery_id@));
        let mut transfers: Vec<Transfer> = Vec::new();
        transfers.push(first);
        transfers.push(second);
        assert(transfers@ =~= old(self).release_transfers(lottery_id@));
        Ok(transfers)
    }

    /// The prize that a lottery holds, where it holds all that was agreed;
    /// `None` for an unknown identifier and for a prize being paid out.
    pub fn get_balance(&self, lottery_id: String) -> (r: Option<u128>)
        requires
            self.wf(),
        ensures
            r == (if self.has_item(lottery_id@) && self.item(lottery_id@).agreed_prize_amount
                == self.item(lottery_id@).current_prize_amount {
                Some(self.item(lottery_id@).agreed_prize_amount)
            } else {
                None
            }),
    {
        match self.position(&lottery_id) {
            Some(k) => {
                if self.items[k].agreed_prize_amount == self.items[k].current_prize_amount {
                    Some(self.items[k].agreed_prize_amount)
                } else {
                    None
                }
            },
            None => None,
        }
    }

    /// A readable account of one lottery, as (field, value) pairs in this
    /// order: identifier, organiser, status, agreed prize, prize status,
    /// winner (`none` before the draw), fee and number of participants.
    pub fn get_lottery(&self, lottery_id: String) -> (r: Result<Vec<(String, String)>, CustodyError>)
        requires
            self.wf(),
        ensures
            match r {
                Ok(fields) => {
                    let item = self.item(lottery_id@);
                    &&& self.has_item(lottery_id@)
                    &&& fields@.len() == 8
                    &&& fields@[0].0@ == "lottery_id"@ && fields@[0].1@ == lottery_id@
                    &&& fields@[1].0@ == "organiser_account_id"@ && fields@[1].1@
                        == item.organiser_account_id@
                    &&& fields@[2].0@ == "status"@ && fields@[2].1@ == status_name(item.status)
                    &&& fields@[3].0@ == "agreed_prize_amount"@ && to_string_from_display_ensures::<
                        u128,
                    >(&item.agreed_prize_amount, fields@[3].1)
                    &&& fields@[4].0@ == "prize_status"@ && fields@[4].1@ == prize_status_name(
                        item.prize_status,
                    )
                    &&& fields@[5].0@ == "winner_account_id"@ && fields@[5].1@ == match item.winner {
                        Some(w) => w@,
                        None => "none"@,
                    }
                    &&& fields@[6].0@ == "fee_percentage"@ && to_string_from_display_ensures::<
                        u128,
                    >(&item.current_fee_percentage, fields@[6].1)
                    &&& fields@[7].0@ == "participants_count"@ && to_string_from_display_ensures::<
                        usize,
                    >(&item.participants.len(), fields@[7].1)
                }
                Err(e) => !self.has_item(lottery_id@) && e == CustodyError::NotFound,
            },
    {
        let k = match self.position(&lottery_id) {
            Some(k) => k,
            None => return Err(CustodyError::NotFound),
        };
        let item = &self.items[k];
        let winner = match &item.winner {
            Some(w) => w.clone(),
            None => "none".to_owned(),
        };
        let mut fields: Vec<(String, String)> = Vec::new();
        fields.push(("lottery_id".to_owned(), lottery_id));
        fields.push(("organiser_account_id".to_owned(), item.organiser_account_id.clone()));
        fields.push(("status".to_owned(), status_text(item.status)));
        fields.push(("agreed_prize_amount".to_owned(), item.agreed_prize_amount.to_string()));
        fields.push(("prize_status".to_owned(), prize_status_text(item.prize_status)));
        fields.push(("winner_account_id".to_owned(), winner));
        fields.push(("fee_percentage".to_owned(), item.current_fee_percentage.to_string()));
        fields.push(("participants_count".to_owned(), item.participants.len().to_string()));
        Ok(fields)
    }
}

/// A winner is drawn once: after a draw succeeded, drawing again in the same
/// lottery, with any seed, is refused as a conflict and changes nothing, so
/// the winner stays the one first drawn.
pub proof fn lemma_winner_drawn_once(
    first: Lottery,
    second: Lottery,
    third: Lottery,
    lottery_id: Seq<char>,
    seed: Seq<u8>,
    other_seed: Seq<u8>,
    r: Result<String, CustodyError>,
    again: Result<String, CustodyError>,
)
    requires
        first.wf(),
        second.wf(),
        first.pick_post(second, lottery_id, seed, r),
        r is Ok,
        second.pick_post(third, lottery_id, other_seed, again),
    ensures
        again == Err::<String, CustodyError>(CustodyError::StateConflict),
        third == second,
        third.item(lottery_id).winner == Some(r->Ok_0),
{
}

/// An account registers once: after it registered for a lottery,
/// registering it again there is refused as a conflict and leaves the
/// participants as they were.
pub proof fn lemma_registration_once(
    first: Lottery,
    second: Lottery,
    third: Lottery,
    lottery_id: Seq<char>,
    account: String,
    r: Result<String, CustodyError>,
    again: Result<String, CustodyError>,
)
    requires
        first.wf(),
        second.wf(),
        first.add_post(second, lottery_id, account, r),
        r is Ok,
        second.add_post(third, lottery_id, account, again),
    ensures
        again == Err::<String, CustodyError>(CustodyError::StateConflict),
        third == second,
        third.item(lottery_id).participants@ == second.item(lottery_id).participants@,
{
    let joined = second.item(lottery_id);
    let last = joined.participants@.len() - 1;
    assert(joined.participants@[last].0@ == account@);
    assert(joined.is_participant(account@));
}

/// Paying a prize takes from the lottery exactly what it transfers, and
/// that is more than nothing.
pub proof fn lemma_prize_spends_what_it_sends(l: Lottery, lottery_id: Seq<char>, caller: Seq<char>)
    requires
        l.wf(),
        l.release_error(lottery_id, caller) is None,
    ensures
        l.paid(lottery_id).current_prize_amount == l.item(lottery_id).current_prize_amount - total(
            l.release_transfers(lottery_id),
        ),
        total(l.release_transfers(lottery_id)) > 0,
{
    let item = l.item(lottery_id);
    assert(item.wf());
    let ts = l.release_transfers(lottery_id);
    lemma_split_conserves(item.agreed_prize_amount as int, item.current_fee_percentage as int);
    lemma_total_of_two(ts[0], ts[1]);
    assert(ts =~= seq![ts[0], ts[1]]);
}

} // verus!
