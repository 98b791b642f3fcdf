//! Multi-party escrow agreements: the rules of their creation and the
//! identifiers under which they are kept.

use vstd::bytes::{lemma_auto_spec_u64_to_from_le_bytes, spec_u64_to_le_bytes, u64_to_le_bytes};
use vstd::prelude::*;
use crate::address::Address;

verus! {

/// Why an operation on an agreement was refused.
#[derive(Clone, Copy, Debug, PartialEq, Eq, Structural)]
pub enum EscrowError {
    EscrowNotFound,
    UnauthorizedAccess,
    InvalidStateTransition,
    InsufficientFunds,
    EscrowExpired,
    EscrowNotExpired,
    DuplicateParty,
    InvalidAmount,
    ConditionsNotMet,
}

impl EscrowError {
    /// The number under which the error is reported to callers.
    pub open spec fn spec_code(self) -> u32 {
        match self {
            EscrowError::EscrowNotFound => 1,
            EscrowError::UnauthorizedAccess => 2,
            EscrowError::InvalidStateTransition => 3,
            EscrowError::InsufficientFunds => 4,
            EscrowError::EscrowExpired => 5,
            EscrowError::EscrowNotExpired => 6,
            EscrowError::DuplicateParty => 7,
            EscrowError::InvalidAmount => 8,
            EscrowError::ConditionsNotMet => 9,
        }
    }

    /// The number under which the error is reported to callers.
    #[verifier::when_used_as_spec(spec_code)]
    pub fn code(self) -> (code: u32)
        ensures
            code == self.spec_code(),
    {
        match self {
            EscrowError::EscrowNotFound => 1,
            EscrowError::UnauthorizedAccess => 2,
            EscrowError::InvalidStateTransition => 3,
            EscrowError::InsufficientFunds => 4,
            EscrowError::EscrowExpired => 5,
            EscrowError::EscrowNotExpired => 6,
            EscrowError::DuplicateParty => 7,
            EscrowError::InvalidAmount => 8,
            EscrowError::ConditionsNotMet => 9,
        }
    }
}

/// Where an agreement stands. Every agreement is created as pending.
#[derive(Clone, Copy, Debug, PartialEq, Eq, Structural)]
pub enum EscrowState {
    Pending,
}

/// A party to an agreement, and whether it has confirmed.
#[derive(Debug, PartialEq, Eq)]
pub struct Party {
    pub address: Address,
    pub has_confirmed: bool,
}

/// The mathematical model of a [`Party`].
pub struct PartyView {
    pub address: Seq<char>,
    pub has_confirmed: bool,
}

impl View for Party {
    type V = PartyView;

    open spec fn view(&self) -> PartyView {
        PartyView { address: self.address@, has_confirmed: self.has_confirmed }
    }
}

impl DeepView for Party {
    type V = PartyView;

    open spec fn deep_view(&self) -> PartyView {
        self@
    }
}

/// An agreement between two or more parties over one amount.
#[derive(Debug, PartialEq, Eq)]
pub struct EscrowAgreement {
    pub id: [u8; 32],
    pub parties: Vec<Party>,
    pub amount: i128,
    pub conditions_hash: [u8; 32],
    pub state: EscrowState,
    pub created_at: u64,
    pub expires_at: Option<u64>,
}

/// The mathematical model of an [`EscrowAgreement`].
pub struct AgreementView {
    pub id: Seq<u8>,
    pub parties: Seq<PartyView>,
    pub amount: int,
    pub conditions_hash: Seq<u8>,
    pub state: EscrowState,
    pub created_at: u64,
    pub expires_at: Option<u64>,
}

impl View for EscrowAgreement {
    type V = AgreementView;

    open spec fn view(&self) -> AgreementView {
        AgreementView {
            id: self.id@,
            parties: self.parties.deep_view(),
            amount: self.amount as int,
            conditions_hash: self.conditions_hash@,
            state: self.state,
            created_at: self.created_at,
            expires_at: self.expires_at,
        }
    }
}

/// No party occurs twice.
pub open spec fn distinct(parties: Seq<Seq<char>>) -> bool {
    forall|i: int, j: int| 0 <= i < j < parties.len() ==> parties[i] != parties[j]
}

/// The parties as they stand in a new agreement: none has confirmed.
pub open spec fn unconfirmed(parties: Seq<Seq<char>>) -> Seq<PartyView> {
    Seq::new(parties.len(), |i: int| PartyView { address: parties[i], has_confirmed: false })
}

/// The identifier issued as number `counter` at time `timestamp`: the
/// counter and the time, each as eight bytes with the lowest first, and
/// sixteen zero bytes.
pub open spec fn escrow_id(counter: u64, timestamp: u64) -> Seq<u8> {
    spec_u64_to_le_bytes(counter) + spec_u64_to_le_bytes(timestamp) + Seq::new(16, |i: int| 0u8)
}

/// Two identifiers are equal only when they were issued under the same
/// number at the same time: no two agreements share an identifier.
pub proof fn identifiers_are_unique(counter: u64, timestamp: u64, other: u64, other_timestamp: u64)
    ensures
        escrow_id(counter, timestamp).len() == 32,
        escrow_id(counter, timestamp) == escrow_id(other, other_timestamp) ==> counter == other
            && timestamp == other_timestamp,
{
    lemma_auto_spec_u64_to_from_le_bytes();
    let id = escrow_id(counter, timestamp);
    let other_id = escrow_id(other, other_timestamp);
    assert(id.subrange(0, 8) =~= spec_u64_to_le_bytes(counter));
    assert(id.subrange(8, 16) =~= spec_u64_to_le_bytes(timestamp));
    assert(other_id.subrange(0, 8) =~= spec_u64_to_le_bytes(other));
    assert(other_id.subrange(8, 16) =~= spec_u64_to_le_bytes(other_timestamp));
}

/// Whether a request for an agreement is admitted at time `now`, or the
/// first of the reasons to refuse it.
pub open spec fn admission(
    now: u64,
    parties: Seq<Seq<char>>,
    amount: int,
    expires_at: Option<u64>,
) -> Result<(), EscrowError> {
    if amount <= 0 || parties.len() < 2 {
        Err(EscrowError::InvalidAmount)
    } else if expires_at matches Some(deadline) && deadline <= now {
        Err(EscrowError::EscrowExpired)
    } else if !distinct(parties) {
        Err(EscrowError::DuplicateParty)
    } else {
        Ok(())
    }
}

/// What the creation of an agreement answers at time `now`, after
/// `issued` identifiers have been issued: the agreement, or the reason
/// for which the request is not admitted.
pub open spec fn creation(
    issued: u64,
    now: u64,
    parties: Seq<Seq<char>>,
    amount: int,
    conditions_hash: Seq<u8>,
    expires_at: Option<u64>,
) -> Result<AgreementView, EscrowError> {
    match admission(now, parties, amount, expires_at) {
        Err(reason) => Err(reason),
        Ok(()) => Ok(
            AgreementView {
                id: escrow_id((issued + 1) as u64, now),
                parties: unconfirmed(parties),
                amount,
                conditions_hash,
                state: EscrowState::Pending,
                created_at: now,
                expires_at,
            },
        ),
    }
}

/// The key under which agreements are kept: the letters `ESCROW`, then
/// zero bytes.
pub open spec fn escrow_key() -> Seq<u8> {
    seq![0x45u8, 0x53u8, 0x43u8, 0x52u8, 0x4fu8, 0x57u8] + Seq::new(26, |i: int| 0u8)
}

/// The key under which the number of issued identifiers is kept: the
/// letters `COUNTER`, then zero bytes.
pub open spec fn counter_key() -> Seq<u8> {
    seq![0x43u8, 0x4fu8, 0x55u8, 0x4eu8, 0x54u8, 0x45u8, 0x52u8] + Seq::new(25, |i: int| 0u8)
}

/// The keys under which the data of the agreements is kept.
pub struct EscrowDataKey;

impl EscrowDataKey {
    /// The key of the agreements.
    pub fn escrow() -> (key: [u8; 32])
        ensures
            key@ == escrow_key(),
    {
        let key: [u8; 32] = [
            0x45, 0x53, 0x43, 0x52, 0x4f, 0x57, 0, 0, 0, 0, 0, 0, 0, 0, 0, 0, 0, 0, 0, 0, 0, 0, 0,
            0, 0, 0, 0, 0, 0, 0, 0, 0,
        ];
        assert(key@ =~= escrow_key());
        key
    }

    /// The key of the counter of issued identifiers.
    pub fn counter() -> (key: [u8; 32])
        ensures
            key@ == counter_key(),
    {
        let key: [u8; 32] = [
            0x43, 0x4f, 0x55, 0x4e, 0x54, 0x45, 0x52, 0, 0, 0, 0, 0, 0, 0, 0, 0, 0, 0, 0, 0, 0, 0,
            0, 0, 0, 0, 0, 0, 0, 0, 0, 0,
        ];
        assert(key@ =~= counter_key());
        key
    }
}

/// The issuer of agreement identifiers: it counts the identifiers issued
/// so far.
pub struct EscrowStorage {
    counter: u64,
}

impl EscrowStorage {
    /// The number of identifiers issued so far.
    pub closed spec fn issued(&self) -> u64 {
        self.counter
    }

    /// An issuer that has issued `counter` identifiers.
    pub fn new(counter: u64) -> (storage: EscrowStorage)
        ensures
            storage.issued() == counter,
    {
        EscrowStorage { counter }
    }

    /// The number of identifiers issued so far.
    pub fn counter(&self) -> (counter: u64)
        ensures
            counter == self.issued(),
    {
        self.counter
    }

    /// Issues the next identifier at time `timestamp`.
    pub fn generate_escrow_id(&mut self, timestamp: u64) -> (id: [u8; 32])
        requires
            old(self).issued() < u64::MAX,
        ensures
            final(self).issued() == old(self).issued() + 1,
            id@ == escrow_id(final(self).issued(), timestamp),
    {
        self.counter = self.counter + 1;
        let low = u64_to_le_bytes(self.counter);
        let high = u64_to_le_bytes(timestamp);
        let mut id: [u8; 32] = [0u8; 32];
        let mut i: usize = 0;
        while i < 8
            invariant
                i <= 8,
                low@.len() == 8,
                high@.len() == 8,
                forall|j: int| 0 <= j < i ==> id@[j] == low@[j],
                forall|j: int| 8 <= j < 8 + i ==> id@[j] == high@[j - 8],
                forall|j: int| 16 <= j < 32 ==> id@[j] == 0u8,
            decreases 8 - i,
        {
            id[i] = low[i];
            id[i + 8] = high[i];
            i += 1;
        }
        assert(id@ =~= escrow_id(self.counter, timestamp));
        id
    }
}

/// The rules of multi-party agreements.
pub struct EscrowContract;

impl EscrowContract {
    /// Decides whether a request for an agreement is admitted at time
    /// `now`.
    ///
    /// Refused, in this order: when the amount is zero or negative or there
    /// are fewer than two parties; when the deadline is not after `now`;
    /// when a party occurs twice.
    pub fn validate(now: u64, parties: &Vec<Address>, amount: i128, expires_at: Option<u64>) -> (result:
        Result<(), EscrowError>)
        ensures
            result == admission(now, parties.deep_view(), amount as int, expires_at),
    {
        if amount <= 0 {
            return Err(EscrowError::InvalidAmount);
        }
        if parties.len() < 2 {
            return Err(EscrowError::InvalidAmount);
        }
        if let Some(deadline) = expires_at {
            if deadline <= now {
                return Err(EscrowError::EscrowExpired);
            }
        }
        if has_duplicate(parties) {
            return Err(EscrowError::DuplicateParty);
        }
        Ok(())
    }

    /// Creates an agreement between `parties` over `amount` at time `now`,
    /// under the next identifier that `storage` issues.
    ///
    /// A request that [`EscrowContract::validate`] does not admit is
    /// refused for the same reason, and issues no identifier. An admitted
    /// request needs an identifier that is still to be had.
    pub fn create_escrow(
        storage: &mut EscrowStorage,
        now: u64,
        parties: Vec<Address>,
        amount: i128,
        conditions_hash: [u8; 32],
        expires_at: Option<u64>,
    ) -> (result: Result<EscrowAgreement, EscrowError>)
        requires
            creation(
                old(storage).issued(),
                now,
                parties.deep_view(),
                amount as int,
                conditions_hash@,
                expires_at,
            ) is Ok ==> old(storage).issued() < u64::MAX,
        ensures
            match creation(
                old(storage).issued(),
                now,
                parties.deep_view(),
                amount as int,
                conditions_hash@,
                expires_at,
            ) {
                Ok(agreement) => {
                    &&& result matches Ok(created)
                    &&& created@ == agreement
                    &&& final(storage).issued() == old(storage).issued() + 1
                },
                Err(reason) => {
                    &&& result matches Err(error)
                    &&& error == reason
                    &&& final(storage).issued() == old(storage).issued()
                },
            },
    {
        if let Err(error) = EscrowContract::validate(now, &parties, amount, expires_at) {
            return Err(error);
        }
        let id = storage.generate_escrow_id(now);
        let mut records: Vec<Party> = Vec::new();
        let mut i: usize = 0;
        while i < parties.len()
            invariant
                i <= parties.len(),
                records.len() == i,
                forall|j: int|
                    0 <= j < i ==> (#[trigger] records[j])@ == unconfirmed(parties.deep_view())[j],
            decreases parties.len() - i,
        {
            records.push(Party { address: parties[i].clone(), has_confirmed: false });
            i += 1;
        }
        assert(records.deep_view() =~= unconfirmed(parties.deep_view()));
        Ok(
            EscrowAgreement {
                id,
                parties: records,
                amount,
                conditions_hash,
                state: EscrowState::Pending,
                created_at: now,
                expires_at,
            },
        )
    }

    /// The agreement that was found under an identifier, or the refusal
    /// that none was.
    pub fn get_escrow(stored: Option<EscrowAgreement>) -> (result: Result<
        EscrowAgreement,
        EscrowError,
    >)
        ensures
            match stored {
                Some(agreement) => result == Ok::<EscrowAgreement, EscrowError>(agreement),
                None => result == Err::<EscrowAgreement, EscrowError>(EscrowError::EscrowNotFound),
            },
    {
        match stored {
            Some(agreement) => Ok(agreement),
            None => Err(EscrowError::EscrowNotFound),
        }
    }
}

/// Whether a party occurs twice among `parties`.
pub fn has_duplicate(parties: &Vec<Address>) -> (found: bool)
    ensures
        found == !distinct(parties.deep_view()),
{
    let ghost names = parties.deep_view();
    let mut j: usize = 0;
    while j < parties.len()
        invariant
            j <= parties.len(),
            names == parties.deep_view(),
            forall|a: int, b: int| 0 <= a < b < j ==> names[a] != names[b],
        decreases parties.len() - j,
    {
        let mut i: usize = 0;
        while i < j
            invariant
                i <= j < parties.len(),
                names == parties.deep_view(),
                forall|a: int| 0 <= a < i ==> names[a] != names[j as int],
            decreases j - i,
        {
            if parties[i] == parties[j] {
                assert(names[i as int] == names[j as int]);
                return true;
            }
            i += 1;
        }
        j += 1;
    }
    false
}

} // verus!
