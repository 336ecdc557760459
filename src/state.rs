use vstd::prelude::*;

verus! {

/// An opaque 32-byte identity: the key of a record and the basis of every
/// ownership check.
#[derive(Clone, Copy, Debug)]
pub struct Identity {
    pub bytes: [u8; 32],
}

impl View for Identity {
    type V = Seq<u8>;

    open spec fn view(&self) -> Seq<u8> {
        self.bytes@
    }
}

impl Identity {
    pub fn new(bytes: [u8; 32]) -> (r: Identity)
        ensures
            r.bytes == bytes,
    {
        Identity { bytes }
    }

    /// Whether the two identities hold the same bytes.
    pub fn same_as(&self, other: &Identity) -> (r: bool)
        ensures
            r == (self@ == other@),
    {
        let mut i: usize = 0;
        while i < 32
            invariant
                i <= 32,
                self.bytes@.len() == 32,
                other.bytes@.len() == 32,
                forall|j: int| 0 <= j < i ==> self.bytes@[j] == other.bytes@[j],
            decreases 32 - i,
        {
            if self.bytes[i] != other.bytes[i] {
                return false;
            }
            i = i + 1;
        }
        assert(self@ =~= other@);
        true
    }
}

impl PartialEq for Identity {
    fn eq(&self, other: &Identity) -> (r: bool) {
        self.same_as(other)
    }
}

impl vstd::std_specs::cmp::PartialEqSpecImpl for Identity {
    open spec fn obeys_eq_spec() -> bool {
        true
    }

    open spec fn eq_spec(&self, other: &Identity) -> bool {
        self@ == other@
    }
}

impl Eq for Identity {}

/// The shared reserve, one per ledger.
#[derive(Clone, Copy, Debug, PartialEq, Eq)]
pub struct Bank {
    pub admin: Identity,
    /// The reserve itself.
    pub balance: u64,
    /// Sum of the staked balances of all users.
    pub staked_balance: u64,
    /// Sum of the outstanding loan principals of all users.
    pub lent_balance: u64,
    pub total_users: u64,
    pub is_operational: bool,
}

/// The account of one identity.
#[derive(Clone, Copy, Debug, PartialEq, Eq)]
pub struct User {
    pub owner: Identity,
    /// Spendable funds.
    pub balance: u64,
    pub staked_balance: u64,
    /// Tick of the last staking settlement.
    pub stake_slot: u64,
    /// Principal of the single outstanding loan, 0 when there is none.
    pub lent_balance: u64,
    /// When the loan was taken, in signed seconds; 0 when there is none.
    pub loan_timestamp: i64,
}

impl User {
    /// A user has a loan exactly when the user carries a loan timestamp.
    pub open spec fn loan_consistent(self) -> bool {
        self.lent_balance == 0 <==> self.loan_timestamp == 0
    }

    /// Whether the user holds nothing and owes nothing.
    pub open spec fn is_empty(self) -> bool {
        self.balance == 0 && self.staked_balance == 0 && self.lent_balance == 0
    }
}

} // verus!
