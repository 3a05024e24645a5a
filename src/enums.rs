//! The closed enumerations stored in records, each with its one-byte tag.
use vstd::prelude::*;

verus! {

/// Kind of a stored record.
#[derive(Clone, Copy, Debug, PartialEq, Eq, Structural)]
pub enum AccountType {
    Uninitialized,
    PackSet,
    PackCard,
    PackVoucher,
    ProvingProcess,
}

impl AccountType {
    pub open spec fn spec_tag(self) -> u8 {
        match self {
            AccountType::Uninitialized => 0,
            AccountType::PackSet => 1,
            AccountType::PackCard => 2,
            AccountType::PackVoucher => 3,
            AccountType::ProvingProcess => 4,
        }
    }

    pub open spec fn spec_from_tag(b: u8) -> Option<AccountType> {
        if b == 0 {
            Some(AccountType::Uninitialized)
        } else if b == 1 {
            Some(AccountType::PackSet)
        } else if b == 2 {
            Some(AccountType::PackCard)
        } else if b == 3 {
            Some(AccountType::PackVoucher)
        } else if b == 4 {
            Some(AccountType::ProvingProcess)
        } else {
            None
        }
    }

    /// Stored tag of the kind.
    pub fn tag(&self) -> (r: u8)
        ensures
            r == self.spec_tag(),
    {
        match self {
            AccountType::Uninitialized => 0,
            AccountType::PackSet => 1,
            AccountType::PackCard => 2,
            AccountType::PackVoucher => 3,
            AccountType::ProvingProcess => 4,
        }
    }

    /// Kind with the given tag, if any.
    pub fn from_tag(b: u8) -> (r: Option<AccountType>)
        ensures
            r == AccountType::spec_from_tag(b),
    {
        if b == 0 {
            Some(AccountType::Uninitialized)
        } else if b == 1 {
            Some(AccountType::PackSet)
        } else if b == 2 {
            Some(AccountType::PackCard)
        } else if b == 3 {
            Some(AccountType::PackVoucher)
        } else if b == 4 {
            Some(AccountType::ProvingProcess)
        } else {
            None
        }
    }
}

/// Lifecycle state of a pack.
#[derive(Clone, Copy, Debug, PartialEq, Eq, Structural)]
pub enum PackSetState {
    NotActivated,
    Activated,
    Deactivated,
}

impl PackSetState {
    pub open spec fn spec_tag(self) -> u8 {
        match self {
            PackSetState::NotActivated => 0,
            PackSetState::Activated => 1,
            PackSetState::Deactivated => 2,
        }
    }

    pub open spec fn spec_from_tag(b: u8) -> Option<PackSetState> {
        if b == 0 {
            Some(PackSetState::NotActivated)
        } else if b == 1 {
            Some(PackSetState::Activated)
        } else if b == 2 {
            Some(PackSetState::Deactivated)
        } else {
            None
        }
    }

    /// Stored tag of the state.
    pub fn tag(&self) -> (r: u8)
        ensures
            r == self.spec_tag(),
    {
        match self {
            PackSetState::NotActivated => 0,
            PackSetState::Activated => 1,
            PackSetState::Deactivated => 2,
        }
    }

    /// State with the given tag, if any.
    pub fn from_tag(b: u8) -> (r: Option<PackSetState>)
        ensures
            r == PackSetState::spec_from_tag(b),
    {
        if b == 0 {
            Some(PackSetState::NotActivated)
        } else if b == 1 {
            Some(PackSetState::Activated)
        } else if b == 2 {
            Some(PackSetState::Deactivated)
        } else {
            None
        }
    }
}

/// Distribution policy of a pack.
#[derive(Clone, Copy, Debug, PartialEq, Eq, Structural)]
pub enum PackDistributionType {
    /// Weighted draw against a capped total pool
    Fixed,
    /// Weighted by each card's maximum supply against the pack's total editions
    MaxSupply,
    /// Weighted draw with no pool depletion
    Unlimited,
}

impl PackDistributionType {
    pub open spec fn spec_tag(self) -> u8 {
        match self {
            PackDistributionType::Fixed => 0,
            PackDistributionType::MaxSupply => 1,
            PackDistributionType::Unlimited => 2,
        }
    }

    pub open spec fn spec_from_tag(b: u8) -> Option<PackDistributionType> {
        if b == 0 {
            Some(PackDistributionType::Fixed)
        } else if b == 1 {
            Some(PackDistributionType::MaxSupply)
        } else if b == 2 {
            Some(PackDistributionType::Unlimited)
        } else {
            None
        }
    }

    /// Stored tag of the policy.
    pub fn tag(&self) -> (r: u8)
        ensures
            r == self.spec_tag(),
    {
        match self {
            PackDistributionType::Fixed => 0,
            PackDistributionType::MaxSupply => 1,
            PackDistributionType::Unlimited => 2,
        }
    }

    /// Policy with the given tag, if any.
    pub fn from_tag(b: u8) -> (r: Option<PackDistributionType>)
        ensures
            r == PackDistributionType::spec_from_tag(b),
    {
        if b == 0 {
            Some(PackDistributionType::Fixed)
        } else if b == 1 {
            Some(PackDistributionType::MaxSupply)
        } else if b == 2 {
            Some(PackDistributionType::Unlimited)
        } else {
            None
        }
    }
}

/// Distribution sub-policy of a card.
#[derive(Clone, Copy, Debug, PartialEq, Eq, Structural)]
pub enum DistributionType {
    /// Fixed number
    FixedNumber,
    /// Probability based
    ProbabilityBased,
}

impl Default for DistributionType {
    fn default() -> (r: DistributionType)
        ensures
            r == DistributionType::FixedNumber,
    {
        DistributionType::FixedNumber
    }
}

impl DistributionType {
    pub open spec fn spec_tag(self) -> u8 {
        match self {
            DistributionType::FixedNumber => 0,
            DistributionType::ProbabilityBased => 1,
        }
    }

    pub open spec fn spec_from_tag(b: u8) -> Option<DistributionType> {
        if b == 0 {
            Some(DistributionType::FixedNumber)
        } else if b == 1 {
            Some(DistributionType::ProbabilityBased)
        } else {
            None
        }
    }

    /// Stored tag of the sub-policy.
    pub fn tag(&self) -> (r: u8)
        ensures
            r == self.spec_tag(),
    {
        match self {
            DistributionType::FixedNumber => 0,
            DistributionType::ProbabilityBased => 1,
        }
    }

    /// Sub-policy with the given tag, if any.
    pub fn from_tag(b: u8) -> (r: Option<DistributionType>)
        ensures
            r == DistributionType::spec_from_tag(b),
    {
        if b == 0 {
            Some(DistributionType::FixedNumber)
        } else if b == 1 {
            Some(DistributionType::ProbabilityBased)
        } else {
            None
        }
    }
}

/// What happens to a voucher token once it is proved.
#[derive(Clone, Copy, Debug, PartialEq, Eq, Structural)]
pub enum ActionOnProve {
    /// The token is burned and its account closed
    Burn,
    /// The token is left as it is
    Redeem,
}

impl ActionOnProve {
    pub open spec fn spec_tag(self) -> u8 {
        match self {
            ActionOnProve::Burn => 0,
            ActionOnProve::Redeem => 1,
        }
    }

    pub open spec fn spec_from_tag(b: u8) -> Option<ActionOnProve> {
        if b == 0 {
            Some(ActionOnProve::Burn)
        } else if b == 1 {
            Some(ActionOnProve::Redeem)
        } else {
            None
        }
    }

    /// Stored tag of the action.
    pub fn tag(&self) -> (r: u8)
        ensures
            r == self.spec_tag(),
    {
        match self {
            ActionOnProve::Burn => 0,
            ActionOnProve::Redeem => 1,
        }
    }

    /// Action with the given tag, if any.
    pub fn from_tag(b: u8) -> (r: Option<ActionOnProve>)
        ensures
            r == ActionOnProve::spec_from_tag(b),
    {
        if b == 0 {
            Some(ActionOnProve::Burn)
        } else if b == 1 {
            Some(ActionOnProve::Redeem)
        } else {
            None
        }
    }
}

} // verus!
