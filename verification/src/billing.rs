//! The billing calculator: from a tenant's subscription and a price table to
//! an itemised invoice.

use vstd::prelude::*;
use vstd::string::StringExecFns;
use crate::text::{money_string, money_text};
use crate::tiers::{
    ServiceTier, ADMIN_FEE_401K, ADMIN_FEE_CRIME, ADMIN_FEE_HEALTH, BASE_PLATFORM_FEE,
};

verus! {

/// Why billing refused an input.
#[derive(Clone, Copy, Debug, PartialEq, Eq, Structural)]
pub enum BillingError {
    /// The tenant identifier is not a UUID.
    InvalidTenantId,
    /// The invoice total does not fit in 64 bits of minor units.
    TotalOverflow,
}

/// The 128-bit value that `text` denotes as a UUID, if it denotes one.
pub uninterp spec fn uuid_text_value(text: Seq<char>) -> Option<u128>;

/// Calls `uuid::Uuid::parse_str` and, on success, `Uuid::as_u128`.
///
/// Trusted: the result is a function of the text alone. `parse_str` accepts
/// the simple, hyphenated, braced and URN forms and nothing else; which
/// value each text denotes is not restated here.
#[verifier::external_body]
fn uuid_from_text(text: &str) -> (r: Option<u128>)
    ensures
        r == uuid_text_value(text@),
{
    match uuid::Uuid::parse_str(text) {
        Ok(id) => Some(id.as_u128()),
        Err(_) => None,
    }
}

/// Identity of a tenant.
#[derive(Clone, Copy, Debug, PartialEq, Eq, Structural)]
pub struct TenantId {
    pub value: u128,
}

impl TenantId {
    /// The tenant that a parsed UUID stands for.
    pub open spec fn of_parsed(parsed: Option<u128>) -> Result<TenantId, BillingError> {
        match parsed {
            Some(value) => Ok(TenantId { value }),
            None => Err(BillingError::InvalidTenantId),
        }
    }

    /// Turns the outcome of reading a UUID into a tenant identity.
    pub fn from_parsed(parsed: Option<u128>) -> (r: Result<TenantId, BillingError>)
        ensures
            r == Self::of_parsed(parsed),
    {
        match parsed {
            Some(value) => Ok(TenantId { value }),
            None => Err(BillingError::InvalidTenantId),
        }
    }

    /// Reads a tenant identity written as a UUID.
    pub fn parse(text: &str) -> (r: Result<TenantId, BillingError>)
        ensures
            r == Self::of_parsed(uuid_text_value(text@)),
    {
        Self::from_parsed(uuid_from_text(text))
    }
}

/// The optional components of a subscription.
#[derive(Clone, Copy, Debug, PartialEq, Eq, Structural)]
pub enum Addon {
    Health,
    Retirement,
    Crime,
}

/// One add-on of one tenant.
#[derive(Clone, Copy, Debug, PartialEq, Eq, Structural)]
pub struct AddonState {
    pub active: bool,
    /// Pass-through cost per period in minor units, where it is known.
    pub wholesale_cost: Option<u64>,
}

impl AddonState {
    /// The cost billed for the add-on: zero where none is on record.
    pub open spec fn cost(self) -> nat {
        match self.wholesale_cost {
            Some(cost) => cost as nat,
            None => 0,
        }
    }

    /// An active add-on without a wholesale cost on record.
    pub open spec fn anomalous(self) -> bool {
        self.active && self.wholesale_cost is None
    }

    /// What the add-on adds to the invoice total.
    pub open spec fn charge(self, admin_fee: u64) -> nat {
        if self.active {
            self.cost() + admin_fee as nat
        } else {
            0
        }
    }
}

/// Snapshot of what a tenant has subscribed to.
#[derive(Clone, Copy, Debug, PartialEq, Eq, Structural)]
pub struct TenantSubscription {
    pub tenant: TenantId,
    pub tier: ServiceTier,
    /// Base fee agreed with the tenant, where one is on record.
    pub base_fee: Option<u64>,
    pub health: AddonState,
    pub retirement: AddonState,
    pub crime: AddonState,
}

/// The price list in force for a billing period, in minor units.
#[derive(Clone, Copy, Debug, PartialEq, Eq, Structural)]
pub struct PriceTable {
    pub version: u32,
    pub base_fee: u64,
    pub admin_fee_health: u64,
    pub admin_fee_retirement: u64,
    pub admin_fee_crime: u64,
}

/// What a line of an invoice charges for.
#[derive(Clone, Copy, Debug, PartialEq, Eq, Structural)]
pub enum Charge {
    BaseFee,
    /// Pass-through cost of an add-on.
    Wholesale(Addon),
    /// Administration fee of an add-on.
    AdminFee(Addon),
}

/// One line of an invoice.
#[derive(Clone, Copy, Debug, PartialEq, Eq, Structural)]
pub struct LineItem {
    pub charge: Charge,
    pub amount: u64,
}

/// An itemised invoice.
#[derive(Debug)]
pub struct Invoice {
    pub tenant: TenantId,
    pub price_version: u32,
    pub lines: Vec<LineItem>,
    pub total: u64,
    /// Active add-ons billed at zero cost for want of a wholesale cost.
    pub anomalies: Vec<Addon>,
}

/// Mathematical value of an [`Invoice`].
pub struct InvoiceView {
    pub tenant: TenantId,
    pub price_version: u32,
    pub lines: Seq<LineItem>,
    pub total: nat,
    pub anomalies: Seq<Addon>,
}

impl View for Invoice {
    type V = InvoiceView;

    open spec fn view(&self) -> InvoiceView {
        InvoiceView {
            tenant: self.tenant,
            price_version: self.price_version,
            lines: self.lines@,
            total: self.total as nat,
            anomalies: self.anomalies@,
        }
    }
}

impl Clone for Invoice {
    fn clone(&self) -> (r: Self)
        ensures
            r@ == self@,
    {
        Invoice {
            tenant: self.tenant,
            price_version: self.price_version,
            lines: copy_lines(&self.lines),
            total: self.total,
            anomalies: copy_addons(&self.anomalies),
        }
    }
}

fn copy_lines(lines: &Vec<LineItem>) -> (r: Vec<LineItem>)
    ensures
        r@ == lines@,
{
    let mut r: Vec<LineItem> = Vec::new();
    let mut i: usize = 0;
    while i < lines.len()
        invariant
            i <= lines.len(),
            r@ == lines@.take(i as int),
        decreases lines.len() - i,
    {
        r.push(lines[i]);
        i += 1;
    }
    r
}

fn copy_addons(addons: &Vec<Addon>) -> (r: Vec<Addon>)
    ensures
        r@ == addons@,
{
    let mut r: Vec<Addon> = Vec::new();
    let mut i: usize = 0;
    while i < addons.len()
        invariant
            i <= addons.len(),
            r@ == addons@.take(i as int),
        decreases addons.len() - i,
    {
        r.push(addons[i]);
        i += 1;
    }
    r
}

/// Sum of the amounts of `lines`.
pub open spec fn lines_sum(lines: Seq<LineItem>) -> nat
    decreases lines.len(),
{
    if lines.len() == 0 {
        0
    } else {
        lines_sum(lines.drop_last()) + lines.last().amount as nat
    }
}

/// The lines that one add-on contributes: its pass-through cost and its
/// administration fee where it is active, nothing where it is not.
pub open spec fn addon_lines(addon: Addon, state: AddonState, admin_fee: u64) -> Seq<LineItem> {
    if state.active {
        seq![
            LineItem { charge: Charge::Wholesale(addon), amount: state.cost() as u64 },
            LineItem { charge: Charge::AdminFee(addon), amount: admin_fee },
        ]
    } else {
        Seq::empty()
    }
}

/// The add-on, where it is billed at zero for want of a cost on record.
pub open spec fn addon_anomaly(addon: Addon, state: AddonState) -> Seq<Addon> {
    if state.anomalous() {
        seq![addon]
    } else {
        Seq::empty()
    }
}

impl TenantSubscription {
    /// The base fee billed: the tenant's own where on record, else the listed one.
    pub open spec fn effective_base_fee(self, prices: PriceTable) -> u64 {
        match self.base_fee {
            Some(fee) => fee,
            None => prices.base_fee,
        }
    }

    /// Base fee plus, for each active add-on, its wholesale cost and its
    /// administration fee.
    pub open spec fn invoice_total(self, prices: PriceTable) -> nat {
        self.effective_base_fee(prices) as nat + self.health.charge(prices.admin_fee_health)
            + self.retirement.charge(prices.admin_fee_retirement) + self.crime.charge(
            prices.admin_fee_crime,
        )
    }

    /// One line per charge component, base fee first.
    pub open spec fn invoice_lines(self, prices: PriceTable) -> Seq<LineItem> {
        seq![LineItem { charge: Charge::BaseFee, amount: self.effective_base_fee(prices) }]
            + addon_lines(Addon::Health, self.health, prices.admin_fee_health) + addon_lines(
            Addon::Retirement,
            self.retirement,
            prices.admin_fee_retirement,
        ) + addon_lines(Addon::Crime, self.crime, prices.admin_fee_crime)
    }

    /// The add-ons billed at zero cost for want of data.
    pub open spec fn invoice_anomalies(self) -> Seq<Addon> {
        addon_anomaly(Addon::Health, self.health) + addon_anomaly(
            Addon::Retirement,
            self.retirement,
        ) + addon_anomaly(Addon::Crime, self.crime)
    }

    /// The invoice of this subscription under `prices`.
    pub open spec fn invoice(self, prices: PriceTable) -> InvoiceView {
        InvoiceView {
            tenant: self.tenant,
            price_version: prices.version,
            lines: self.invoice_lines(prices),
            total: self.invoice_total(prices),
            anomalies: self.invoice_anomalies(),
        }
    }

    /// The subscription a tenant starts with on `tier`: the listed base fee,
    /// the tier's add-ons active, no wholesale cost on record yet.
    pub open spec fn initial(tenant: TenantId, tier: ServiceTier) -> TenantSubscription {
        TenantSubscription {
            tenant,
            tier,
            base_fee: Some(BASE_PLATFORM_FEE),
            health: AddonState { active: tier.has_health(), wholesale_cost: None },
            retirement: AddonState { active: tier.has_401k(), wholesale_cost: None },
            crime: AddonState { active: tier.has_crime_ins(), wholesale_cost: None },
        }
    }

    /// The subscription a tenant starts with on `tier`.
    pub fn for_tier(tenant: TenantId, tier: ServiceTier) -> (r: TenantSubscription)
        ensures
            r == Self::initial(tenant, tier),
    {
        let (health, retirement, crime) = match tier {
            ServiceTier::Starter => (false, false, false),
            ServiceTier::Professional => (true, false, false),
            ServiceTier::Enterprise => (true, true, true),
        };
        TenantSubscription {
            tenant,
            tier,
            base_fee: Some(BASE_PLATFORM_FEE),
            health: AddonState { active: health, wholesale_cost: None },
            retirement: AddonState { active: retirement, wholesale_cost: None },
            crime: AddonState { active: crime, wholesale_cost: None },
        }
    }

    /// Records new wholesale costs for the health and the retirement add-on.
    pub fn with_wholesale_costs(self, health_cost: u64, retirement_cost: u64) -> (r:
        TenantSubscription)
        ensures
            r == (TenantSubscription {
                health: AddonState { wholesale_cost: Some(health_cost), ..self.health },
                retirement: AddonState {
                    wholesale_cost: Some(retirement_cost),
                    ..self.retirement
                },
                ..self
            }),
    {
        TenantSubscription {
            tenant: self.tenant,
            tier: self.tier,
            base_fee: self.base_fee,
            health: AddonState { active: self.health.active, wholesale_cost: Some(health_cost) },
            retirement: AddonState {
                active: self.retirement.active,
                wholesale_cost: Some(retirement_cost),
            },
            crime: self.crime,
        }
    }
}

impl PriceTable {
    /// The standard price list.
    pub open spec fn standard_list() -> PriceTable {
        PriceTable {
            version: 1,
            base_fee: BASE_PLATFORM_FEE,
            admin_fee_health: ADMIN_FEE_HEALTH,
            admin_fee_retirement: ADMIN_FEE_401K,
            admin_fee_crime: ADMIN_FEE_CRIME,
        }
    }

    pub fn standard() -> (r: PriceTable)
        ensures
            r == Self::standard_list(),
    {
        PriceTable {
            version: 1,
            base_fee: BASE_PLATFORM_FEE,
            admin_fee_health: ADMIN_FEE_HEALTH,
            admin_fee_retirement: ADMIN_FEE_401K,
            admin_fee_crime: ADMIN_FEE_CRIME,
        }
    }
}

proof fn lemma_lines_sum_push(lines: Seq<LineItem>, line: LineItem)
    ensures
        lines_sum(lines.push(line)) == lines_sum(lines) + line.amount,
{
    assert(lines.push(line).drop_last() == lines);
}

/// Appends the lines of one add-on and adds their amounts to the running sum.
fn bill_addon(
    addon: Addon,
    state: AddonState,
    admin_fee: u64,
    lines: &mut Vec<LineItem>,
    anomalies: &mut Vec<Addon>,
    sum: u128,
) -> (r: u128)
    requires
        sum + 2 * u64::MAX <= u128::MAX,
        sum == lines_sum(old(lines)@),
    ensures
        final(lines)@ == old(lines)@ + addon_lines(addon, state, admin_fee),
        final(anomalies)@ == old(anomalies)@ + addon_anomaly(addon, state),
        r == sum + state.charge(admin_fee),
        r == lines_sum(final(lines)@),
{
    if !state.active {
        return sum;
    }
    let cost: u64 = match state.wholesale_cost {
        Some(cost) => cost,
        None => {
            anomalies.push(addon);
            0
        },
    };
    proof {
        let first = LineItem { charge: Charge::Wholesale(addon), amount: cost };
        let second = LineItem { charge: Charge::AdminFee(addon), amount: admin_fee };
        lemma_lines_sum_push(lines@, first);
        lemma_lines_sum_push(lines@.push(first), second);
    }
    lines.push(LineItem { charge: Charge::Wholesale(addon), amount: cost });
    lines.push(LineItem { charge: Charge::AdminFee(addon), amount: admin_fee });
    sum + cost as u128 + admin_fee as u128
}

/// Computes the invoice of `subscription` under `prices`: the base fee, and
/// for every active add-on its wholesale cost and its administration fee, one
/// line per component. An active add-on without a wholesale cost on record is
/// billed at cost zero and listed among the anomalies. The only input without
/// an invoice is one whose total exceeds 64 bits of minor units.
pub fn compute_invoice(subscription: &TenantSubscription, prices: &PriceTable) -> (r: Result<
    Invoice,
    BillingError,
>)
    ensures
        subscription.invoice_total(*prices) <= u64::MAX ==> r is Ok && r->Ok_0@
            == subscription.invoice(*prices),
        subscription.invoice_total(*prices) > u64::MAX ==> r == Err::<Invoice, BillingError>(
            BillingError::TotalOverflow,
        ),
        r matches Ok(invoice) ==> lines_sum(invoice@.lines) == invoice@.total,
{
    let base: u64 = match subscription.base_fee {
        Some(fee) => fee,
        None => prices.base_fee,
    };
    let mut lines: Vec<LineItem> = Vec::new();
    let mut anomalies: Vec<Addon> = Vec::new();
    proof {
        lemma_lines_sum_push(Seq::empty(), LineItem { charge: Charge::BaseFee, amount: base });
    }
    lines.push(LineItem { charge: Charge::BaseFee, amount: base });
    let sum: u128 = base as u128;
    let sum = bill_addon(
        Addon::Health,
        subscription.health,
        prices.admin_fee_health,
        &mut lines,
        &mut anomalies,
        sum,
    );
    let sum = bill_addon(
        Addon::Retirement,
        subscription.retirement,
        prices.admin_fee_retirement,
        &mut lines,
        &mut anomalies,
        sum,
    );
    let sum = bill_addon(
        Addon::Crime,
        subscription.crime,
        prices.admin_fee_crime,
        &mut lines,
        &mut anomalies,
        sum,
    );
    if sum > u64::MAX as u128 {
        return Err(BillingError::TotalOverflow);
    }
    Ok(
        Invoice {
            tenant: subscription.tenant,
            price_version: prices.version,
            lines,
            total: sum as u64,
            anomalies,
        },
    )
}

/// Equal subscriptions under equal price tables have equal invoices, line by
/// line and in total.
pub proof fn lemma_invoice_is_deterministic(
    first: TenantSubscription,
    second: TenantSubscription,
    first_prices: PriceTable,
    second_prices: PriceTable,
)
    requires
        first == second,
        first_prices == second_prices,
    ensures
        first.invoice(first_prices) == second.invoice(second_prices),
        first.invoice(first_prices).total == second.invoice(second_prices).total,
        first.invoice(first_prices).lines == second.invoice(second_prices).lines,
{
}

/// The total of every invoice is the sum of its lines.
pub proof fn lemma_total_is_sum_of_lines(subscription: TenantSubscription, prices: PriceTable)
    ensures
        lines_sum(subscription.invoice(prices).lines) == subscription.invoice(prices).total,
{
    let base = LineItem {
        charge: Charge::BaseFee,
        amount: subscription.effective_base_fee(prices),
    };
    let s0 = Seq::<LineItem>::empty().push(base);
    lemma_lines_sum_push(Seq::empty(), base);
    let s1 = s0 + addon_lines(Addon::Health, subscription.health, prices.admin_fee_health);
    lemma_lines_sum_addon(s0, Addon::Health, subscription.health, prices.admin_fee_health);
    let s2 = s1 + addon_lines(
        Addon::Retirement,
        subscription.retirement,
        prices.admin_fee_retirement,
    );
    lemma_lines_sum_addon(
        s1,
        Addon::Retirement,
        subscription.retirement,
        prices.admin_fee_retirement,
    );
    lemma_lines_sum_addon(s2, Addon::Crime, subscription.crime, prices.admin_fee_crime);
    assert(s0 == seq![base]);
}

proof fn lemma_lines_sum_addon(
    lines: Seq<LineItem>,
    addon: Addon,
    state: AddonState,
    admin_fee: u64,
)
    ensures
        lines_sum(lines + addon_lines(addon, state, admin_fee)) == lines_sum(lines) + state.charge(
            admin_fee,
        ),
{
    if state.active {
        let first = LineItem { charge: Charge::Wholesale(addon), amount: state.cost() as u64 };
        let second = LineItem { charge: Charge::AdminFee(addon), amount: admin_fee };
        lemma_lines_sum_push(lines, first);
        lemma_lines_sum_push(lines.push(first), second);
        assert(lines + addon_lines(addon, state, admin_fee) == lines.push(first).push(second));
    } else {
        assert(lines + addon_lines(addon, state, admin_fee) == lines);
    }
}

/// What a bank statement shows for the collection of an invoice.
pub open spec fn bank_description_text() -> Seq<char> {
    "Monthly SaaS Bundle"@
}

/// What a bank statement shows for the collection of an invoice.
pub fn bank_description() -> (r: String)
    ensures
        r@ == bank_description_text(),
{
    "Monthly SaaS Bundle".to_owned()
}

impl Charge {
    /// How a line with this charge starts on a receipt.
    pub open spec fn label_text(self) -> Seq<char> {
        match self {
            Charge::BaseFee => "Base Platform Access: $"@,
            Charge::Wholesale(Addon::Health) => "\n + Health Premium (Pass-through): $"@,
            Charge::AdminFee(Addon::Health) => "\n + Health Integration Fee: $"@,
            Charge::Wholesale(Addon::Retirement) => "\n + 401k Contribution: $"@,
            Charge::AdminFee(Addon::Retirement) => "\n + 401k Data Connection Fee: $"@,
            Charge::Wholesale(Addon::Crime) => "\n + Crime Ins Premium: $"@,
            Charge::AdminFee(Addon::Crime) => "\n + Crime Ins Admin Fee: $"@,
        }
    }

    /// How a line with this charge starts on a receipt.
    pub fn label(&self) -> (r: &'static str)
        ensures
            r@ == self.label_text(),
    {
        match self {
            Charge::BaseFee => "Base Platform Access: $",
            Charge::Wholesale(Addon::Health) => "\n + Health Premium (Pass-through): $",
            Charge::AdminFee(Addon::Health) => "\n + Health Integration Fee: $",
            Charge::Wholesale(Addon::Retirement) => "\n + 401k Contribution: $",
            Charge::AdminFee(Addon::Retirement) => "\n + 401k Data Connection Fee: $",
            Charge::Wholesale(Addon::Crime) => "\n + Crime Ins Premium: $",
            Charge::AdminFee(Addon::Crime) => "\n + Crime Ins Admin Fee: $",
        }
    }
}

/// The receipt of `lines`: each line's label followed by its amount, with
/// the administration fee of an add-on listed apart from its cost.
pub open spec fn receipt_text(lines: Seq<LineItem>) -> Seq<char>
    decreases lines.len(),
{
    if lines.len() == 0 {
        Seq::empty()
    } else {
        receipt_text(lines.drop_last()) + lines.last().charge.label_text() + money_text(
            lines.last().amount as nat,
        )
    }
}

impl Invoice {
    /// The itemised receipt of the invoice.
    pub fn receipt(&self) -> (r: String)
        ensures
            r@ == receipt_text(self@.lines),
    {
        let mut text = String::new();
        let mut i: usize = 0;
        while i < self.lines.len()
            invariant
                i <= self.lines.len(),
                text@ == receipt_text(self.lines@.take(i as int)),
            decreases self.lines.len() - i,
        {
            proof {
                assert(self.lines@.take(i + 1).drop_last() == self.lines@.take(i as int));
            }
            text.append(self.lines[i].charge.label());
            let amount = money_string(self.lines[i].amount);
            text.append(amount.as_str());
            i += 1;
        }
        assert(self.lines@.take(self.lines.len() as int) == self.lines@);
        text
    }
}

/// What is charged to a tenant for a month, ready to collect.
#[derive(Debug)]
pub struct MonthlyCharge {
    pub invoice: Invoice,
    /// The itemised receipt.
    pub receipt: String,
    /// What the bank statement shows.
    pub bank_description: String,
    /// The invoice total in cents.
    pub amount_cents: u64,
}

/// Prepares the monthly charge of `subscription` under `prices`: the
/// invoice, its receipt, the text for the bank statement, and the amount to
/// pull from the tenant's account.
pub fn process_monthly_invoice(subscription: &TenantSubscription, prices: &PriceTable) -> (r:
    Result<MonthlyCharge, BillingError>)
    ensures
        subscription.invoice_total(*prices) > u64::MAX ==> r == Err::<MonthlyCharge, BillingError>(
            BillingError::TotalOverflow,
        ),
        subscription.invoice_total(*prices) <= u64::MAX ==> r is Ok && ({
            let charge = r->Ok_0;
            &&& charge.invoice@ == subscription.invoice(*prices)
            &&& charge.receipt@ == receipt_text(subscription.invoice_lines(*prices))
            &&& charge.bank_description@ == bank_description_text()
            &&& charge.amount_cents == subscription.invoice_total(*prices)
        }),
{
    match compute_invoice(subscription, prices) {
        Ok(invoice) => {
            let receipt = invoice.receipt();
            let amount_cents = invoice.total;
            Ok(
                MonthlyCharge {
                    invoice,
                    receipt,
                    bank_description: bank_description(),
                    amount_cents,
                },
            )
        },
        Err(error) => Err(error),
    }
}

} // verus!
