//! Service tiers and the price list, in minor units (cents).

use vstd::prelude::*;

verus! {

/// Monthly platform fee: 2500.00.
pub const BASE_PLATFORM_FEE: u64 = 250_000;

/// Monthly administration fee for the health add-on: 50.00.
pub const ADMIN_FEE_HEALTH: u64 = 5_000;

/// Monthly administration fee for the retirement add-on: 50.00.
pub const ADMIN_FEE_401K: u64 = 5_000;

/// Monthly administration fee for the crime-insurance add-on: 50.00.
pub const ADMIN_FEE_CRIME: u64 = 5_000;

/// Fee for moving funds out over the bridge: 10.00.
pub const BRIDGE_EXIT_FEE_USD: u64 = 1_000;

/// The tiers a tenant can subscribe to.
#[derive(Debug, Clone, Copy, PartialEq, Eq, Structural)]
pub enum ServiceTier {
    /// Ledger and banking rails.
    Starter,
    /// Adds managed health insurance.
    Professional,
    /// Adds retirement plan and crime insurance.
    Enterprise,
}

/// What a tier enables, with its base price in minor units.
#[derive(Debug)]
pub struct TierConfiguration {
    pub tier_name: String,
    pub base_price: u64,
    pub includes_health: bool,
    pub includes_401k: bool,
    pub includes_crime_ins: bool,
    pub description: String,
}

/// Mathematical value of a [`TierConfiguration`].
pub struct TierConfigurationView {
    pub tier_name: Seq<char>,
    pub base_price: nat,
    pub includes_health: bool,
    pub includes_401k: bool,
    pub includes_crime_ins: bool,
    pub description: Seq<char>,
}

impl View for TierConfiguration {
    type V = TierConfigurationView;

    open spec fn view(&self) -> TierConfigurationView {
        TierConfigurationView {
            tier_name: self.tier_name@,
            base_price: self.base_price as nat,
            includes_health: self.includes_health,
            includes_401k: self.includes_401k,
            includes_crime_ins: self.includes_crime_ins,
            description: self.description@,
        }
    }
}

impl ServiceTier {
    /// The tier's display name.
    pub open spec fn label_text(self) -> Seq<char> {
        match self {
            ServiceTier::Starter => "Starter (OS)"@,
            ServiceTier::Professional => "Professional (Employer)"@,
            ServiceTier::Enterprise => "Enterprise (Compliance)"@,
        }
    }

    /// The tier's one-line description.
    pub open spec fn description_text(self) -> Seq<char> {
        match self {
            ServiceTier::Starter => "Blockchain Ledger + Banking Rails"@,
            ServiceTier::Professional => "Includes Managed Health Insurance"@,
            ServiceTier::Enterprise => "Full Compliance Stack: Health, 401k, Fraud Protection"@,
        }
    }

    /// Whether the tier enables the health add-on.
    pub open spec fn has_health(self) -> bool {
        self != ServiceTier::Starter
    }

    /// Whether the tier enables the retirement add-on.
    pub open spec fn has_401k(self) -> bool {
        self == ServiceTier::Enterprise
    }

    /// Whether the tier enables the crime-insurance add-on.
    pub open spec fn has_crime_ins(self) -> bool {
        self == ServiceTier::Enterprise
    }

    /// Platform revenue of the tier: the base fee and the administration fee
    /// of each add-on the tier enables. Pass-through costs are not revenue.
    pub open spec fn profit(self) -> nat {
        (BASE_PLATFORM_FEE + (if self.has_health() {
            ADMIN_FEE_HEALTH
        } else {
            0
        }) + (if self.has_401k() {
            ADMIN_FEE_401K
        } else {
            0
        }) + (if self.has_crime_ins() {
            ADMIN_FEE_CRIME
        } else {
            0
        })) as nat
    }

    /// The configuration of the tier.
    pub open spec fn config(self) -> TierConfigurationView {
        TierConfigurationView {
            tier_name: self.label_text(),
            base_price: BASE_PLATFORM_FEE as nat,
            includes_health: self.has_health(),
            includes_401k: self.has_401k(),
            includes_crime_ins: self.has_crime_ins(),
            description: self.description_text(),
        }
    }

    /// The tier's display name.
    pub fn label(&self) -> (r: String)
        ensures
            r@ == self.label_text(),
    {
        match self {
            ServiceTier::Starter => "Starter (OS)".to_owned(),
            ServiceTier::Professional => "Professional (Employer)".to_owned(),
            ServiceTier::Enterprise => "Enterprise (Compliance)".to_owned(),
        }
    }

    /// Returns the configuration for a specific tier.
    pub fn get_config(&self) -> (r: TierConfiguration)
        ensures
            r@ == self.config(),
    {
        match self {
            ServiceTier::Starter => TierConfiguration {
                tier_name: self.label(),
                base_price: BASE_PLATFORM_FEE,
                includes_health: false,
                includes_401k: false,
                includes_crime_ins: false,
                description: "Blockchain Ledger + Banking Rails".to_owned(),
            },
            ServiceTier::Professional => TierConfiguration {
                tier_name: self.label(),
                base_price: BASE_PLATFORM_FEE,
                includes_health: true,
                includes_401k: false,
                includes_crime_ins: false,
                description: "Includes Managed Health Insurance".to_owned(),
            },
            ServiceTier::Enterprise => TierConfiguration {
                tier_name: self.label(),
                base_price: BASE_PLATFORM_FEE,
                includes_health: true,
                includes_401k: true,
                includes_crime_ins: true,
                description: "Full Compliance Stack: Health, 401k, Fraud Protection".to_owned(),
            },
        }
    }

    /// Estimated platform revenue of the tier, excluding pass-through costs.
    pub fn estimated_profit(&self) -> (r: u64)
        ensures
            r == self.profit(),
    {
        match self {
            ServiceTier::Starter => BASE_PLATFORM_FEE,
            ServiceTier::Professional => BASE_PLATFORM_FEE + ADMIN_FEE_HEALTH,
            ServiceTier::Enterprise => BASE_PLATFORM_FEE + ADMIN_FEE_HEALTH + ADMIN_FEE_401K
                + ADMIN_FEE_CRIME,
        }
    }
}

} // verus!
