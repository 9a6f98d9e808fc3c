//! Requests to the payroll and banking partners, and how their replies are
//! read. Nothing here sends anything: a request is a value to send, and a
//! reply is the status and body that came back.

use vstd::prelude::*;
use crate::ident::{is_name, DomainId, IdError};
use crate::instruction::{Instruction, InstructionView};
use crate::text::{joined, lowercase, lowercase_text};

verus! {

#[verifier::external_type_specification]
#[verifier::external_body]
pub struct ExJsonValue(serde_json::Value);

/// The strings of a JSON document, each under the JSON pointer that leads
/// to it.
pub uninterp spec fn json_strings(document: serde_json::Value) -> Map<Seq<char>, Seq<char>>;

/// The strings of the JSON document that `text` is, if it is one.
pub uninterp spec fn json_text_strings(text: Seq<char>) -> Option<Map<Seq<char>, Seq<char>>>;

/// Calls `serde_json::from_str` for a `serde_json::Value`.
///
/// Trusted: whether a text is a JSON document, and which document, depends
/// on the text alone.
#[verifier::external_body]
fn parse_json(text: &str) -> (r: Option<serde_json::Value>)
    ensures
        match r {
            Some(document) => json_text_strings(text@) == Some(json_strings(document)),
            None => json_text_strings(text@) is None,
        },
{
    match serde_json::from_str::<serde_json::Value>(text) {
        Ok(document) => Some(document),
        Err(_) => None,
    }
}

/// Calls `serde_json::Value::pointer`, and tells a string that it finds
/// from any other value.
///
/// Trusted: the result is the string under `pointer`, and there is none
/// where the pointer leads nowhere or to a value that is not a string.
#[verifier::external_body]
fn string_at(document: &serde_json::Value, pointer: &str) -> (r: Option<String>)
    ensures
        r is Some <==> json_strings(*document).dom().contains(pointer@),
        r matches Some(found) ==> found@ == json_strings(*document)[pointer@],
{
    match document.pointer(pointer) {
        Some(serde_json::Value::String(text)) => Some(text.clone()),
        _ => None,
    }
}

/// What came back from a partner: whether the status was a success, and
/// the body.
#[derive(Debug)]
pub struct Reply {
    pub success: bool,
    pub body: String,
}

/// Why a reply does not hold what was asked for.
#[derive(Debug)]
pub enum PartnerError {
    /// The partner refused; the message names the operation and quotes the body.
    Refused { message: String },
    /// The body is not a JSON document.
    NotJson,
    /// The document lacks a string where one is expected.
    MissingField,
}

/// Mathematical value of a [`PartnerError`].
pub enum PartnerErrorView {
    Refused { message: Seq<char> },
    NotJson,
    MissingField,
}

impl View for PartnerError {
    type V = PartnerErrorView;

    open spec fn view(&self) -> PartnerErrorView {
        match self {
            PartnerError::Refused { message } => PartnerErrorView::Refused { message: message@ },
            PartnerError::NotJson => PartnerErrorView::NotJson,
            PartnerError::MissingField => PartnerErrorView::MissingField,
        }
    }
}

/// The tokens of a company created at the payroll partner.
#[derive(Debug)]
pub struct CreateCompanyResponse {
    pub company_uuid: String,
    /// The key to the company's own account.
    pub access_token: String,
    pub refresh_token: String,
}

/// Mathematical value of a [`CreateCompanyResponse`].
pub struct CreateCompanyResponseView {
    pub company_uuid: Seq<char>,
    pub access_token: Seq<char>,
    pub refresh_token: Seq<char>,
}

impl View for CreateCompanyResponse {
    type V = CreateCompanyResponseView;

    open spec fn view(&self) -> CreateCompanyResponseView {
        CreateCompanyResponseView {
            company_uuid: self.company_uuid@,
            access_token: self.access_token@,
            refresh_token: self.refresh_token@,
        }
    }
}

/// What a request carries in its body.
#[derive(Debug)]
pub enum RequestBody {
    CreateCompany { first_name: String, last_name: String, email: String, company_name: String },
    /// A medical benefit for the company.
    HealthBenefit { benefit_type: String, active: bool, description: String },
    /// The flow in which a company picks its plans.
    Flow { flow_type: String },
    CashDepositBarcode { store: String, customer_id: String, account_id: String },
    BookPayment {
        from_account: String,
        to_account: String,
        amount_cents: u64,
        description: String,
    },
}

/// Mathematical value of a [`RequestBody`].
pub enum RequestBodyView {
    CreateCompany {
        first_name: Seq<char>,
        last_name: Seq<char>,
        email: Seq<char>,
        company_name: Seq<char>,
    },
    HealthBenefit { benefit_type: Seq<char>, active: bool, description: Seq<char> },
    Flow { flow_type: Seq<char> },
    CashDepositBarcode { store: Seq<char>, customer_id: Seq<char>, account_id: Seq<char> },
    BookPayment {
        from_account: Seq<char>,
        to_account: Seq<char>,
        amount_cents: u64,
        description: Seq<char>,
    },
}

impl View for RequestBody {
    type V = RequestBodyView;

    open spec fn view(&self) -> RequestBodyView {
        match self {
            RequestBody::CreateCompany { first_name, last_name, email, company_name } => {
                RequestBodyView::CreateCompany {
                    first_name: first_name@,
                    last_name: last_name@,
                    email: email@,
                    company_name: company_name@,
                }
            },
            RequestBody::HealthBenefit { benefit_type, active, description } => {
                RequestBodyView::HealthBenefit {
                    benefit_type: benefit_type@,
                    active: *active,
                    description: description@,
                }
            },
            RequestBody::Flow { flow_type } => RequestBodyView::Flow { flow_type: flow_type@ },
            RequestBody::CashDepositBarcode { store, customer_id, account_id } => {
                RequestBodyView::CashDepositBarcode {
                    store: store@,
                    customer_id: customer_id@,
                    account_id: account_id@,
                }
            },
            RequestBody::BookPayment { from_account, to_account, amount_cents, description } => {
                RequestBodyView::BookPayment {
                    from_account: from_account@,
                    to_account: to_account@,
                    amount_cents: *amount_cents,
                    description: description@,
                }
            },
        }
    }
}

/// A request to post to a partner.
#[derive(Debug)]
pub struct PartnerRequest {
    pub url: String,
    /// Value of the `Authorization` header.
    pub authorization: String,
    pub body: RequestBody,
}

/// Mathematical value of a [`PartnerRequest`].
pub struct PartnerRequestView {
    pub url: Seq<char>,
    pub authorization: Seq<char>,
    pub body: RequestBodyView,
}

impl View for PartnerRequest {
    type V = PartnerRequestView;

    open spec fn view(&self) -> PartnerRequestView {
        PartnerRequestView { url: self.url@, authorization: self.authorization@, body: self.body@ }
    }
}

/// The header value that presents `token` as a bearer token.
pub open spec fn bearer_text(token: Seq<char>) -> Seq<char> {
    "Bearer "@ + token
}

/// The header value that presents `token` as a bearer token.
pub fn bearer(token: &str) -> (r: String)
    ensures
        r@ == bearer_text(token@),
{
    joined("Bearer ", token)
}

/// The payroll partner, as seen from the platform.
#[derive(Debug)]
pub struct GustoClient {
    /// The platform's own token.
    pub api_token: String,
    pub base_url: String,
}

impl GustoClient {
    /// A client of the partner's demonstration system.
    pub fn new(api_token: String) -> (r: GustoClient)
        ensures
            r.api_token@ == api_token@,
            r.base_url@ == "https://api.gusto-demo.com"@,
    {
        GustoClient { api_token, base_url: "https://api.gusto-demo.com".to_owned() }
    }

    /// The request that creates a company managed by the platform, with
    /// `admin_email` as its administrator. It is made with the platform's
    /// token.
    pub fn create_partner_managed_company(&self, company_name: &str, admin_email: &str) -> (r:
        PartnerRequest)
        ensures
            r@ == (PartnerRequestView {
                url: self.base_url@ + "/v1/partner_managed_companies"@,
                authorization: bearer_text(self.api_token@),
                body: RequestBodyView::CreateCompany {
                    first_name: "Admin"@,
                    last_name: "User"@,
                    email: admin_email@,
                    company_name: company_name@,
                },
            }),
    {
        PartnerRequest {
            url: joined(self.base_url.as_str(), "/v1/partner_managed_companies"),
            authorization: bearer(self.api_token.as_str()),
            body: RequestBody::CreateCompany {
                first_name: "Admin".to_owned(),
                last_name: "User".to_owned(),
                email: admin_email.to_owned(),
                company_name: company_name.to_owned(),
            },
        }
    }

    /// The request that adds a health benefit to a company. It is made with
    /// the company's token, not the platform's.
    pub fn add_health_benefit(&self, company_uuid: &str, company_access_token: &str) -> (r:
        PartnerRequest)
        ensures
            r@ == (PartnerRequestView {
                url: self.base_url@ + "/v1/companies/"@ + company_uuid@ + "/company_benefits"@,
                authorization: bearer_text(company_access_token@),
                body: RequestBodyView::HealthBenefit {
                    benefit_type: "1"@,
                    active: true,
                    description: "Company Health Plan"@,
                },
            }),
    {
        let companies = joined(self.base_url.as_str(), "/v1/companies/");
        let company = joined(companies.as_str(), company_uuid);
        PartnerRequest {
            url: joined(company.as_str(), "/company_benefits"),
            authorization: bearer(company_access_token),
            body: RequestBody::HealthBenefit {
                benefit_type: "1".to_owned(),
                active: true,
                description: "Company Health Plan".to_owned(),
            },
        }
    }

    /// The request for the address at which a company picks its plans.
    pub fn get_insurance_flow_url(&self, company_uuid: &str, company_access_token: &str) -> (r:
        PartnerRequest)
        ensures
            r@ == (PartnerRequestView {
                url: self.base_url@ + "/v1/companies/"@ + company_uuid@ + "/flows"@,
                authorization: bearer_text(company_access_token@),
                body: RequestBodyView::Flow { flow_type: "benefits_setup"@ },
            }),
    {
        let companies = joined(self.base_url.as_str(), "/v1/companies/");
        let company = joined(companies.as_str(), company_uuid);
        PartnerRequest {
            url: joined(company.as_str(), "/flows"),
            authorization: bearer(company_access_token),
            body: RequestBody::Flow { flow_type: "benefits_setup".to_owned() },
        }
    }
}

/// The banking partner, as seen from the platform.
#[derive(Debug)]
pub struct UnitClient {
    pub base_url: String,
    pub token: String,
}

impl UnitClient {
    /// The request for a barcode with which a customer deposits cash at a
    /// store into an account.
    pub fn generate_cash_deposit_barcode(&self, user_id: &str, account_id: &str) -> (r:
        PartnerRequest)
        ensures
            r@ == (PartnerRequestView {
                url: self.base_url@ + "/cash-deposits/barcode"@,
                authorization: bearer_text(self.token@),
                body: RequestBodyView::CashDepositBarcode {
                    store: "GreenDotNetwork"@,
                    customer_id: user_id@,
                    account_id: account_id@,
                },
            }),
    {
        PartnerRequest {
            url: joined(self.base_url.as_str(), "/cash-deposits/barcode"),
            authorization: bearer(self.token.as_str()),
            body: RequestBody::CashDepositBarcode {
                store: "GreenDotNetwork".to_owned(),
                customer_id: user_id.to_owned(),
                account_id: account_id.to_owned(),
            },
        }
    }

    /// The request that moves `amount_cents` between two accounts at the
    /// bank; `description` is what the statement shows.
    pub fn create_book_payment(
        &self,
        from_account: &str,
        to_account: &str,
        amount_cents: u64,
        description: &str,
    ) -> (r: PartnerRequest)
        ensures
            r@ == (PartnerRequestView {
                url: self.base_url@ + "/payments"@,
                authorization: bearer_text(self.token@),
                body: RequestBodyView::BookPayment {
                    from_account: from_account@,
                    to_account: to_account@,
                    amount_cents,
                    description: description@,
                },
            }),
    {
        PartnerRequest {
            url: joined(self.base_url.as_str(), "/payments"),
            authorization: bearer(self.token.as_str()),
            body: RequestBody::BookPayment {
                from_account: from_account.to_owned(),
                to_account: to_account.to_owned(),
                amount_cents,
                description: description.to_owned(),
            },
        }
    }
}

/// The string under `pointer` in the document whose strings are `strings`.
pub open spec fn field_of(
    strings: Option<Map<Seq<char>, Seq<char>>>,
    pointer: Seq<char>,
) -> Result<Seq<char>, PartnerErrorView> {
    match strings {
        None => Err(PartnerErrorView::NotJson),
        Some(found) => if found.dom().contains(pointer) {
            Ok(found[pointer])
        } else {
            Err(PartnerErrorView::MissingField)
        },
    }
}

/// What a refused reply is reported as: the operation's words, then the body.
pub open spec fn refusal(prefix: Seq<char>, body: Seq<char>) -> PartnerErrorView {
    PartnerErrorView::Refused { message: prefix + body }
}

/// The string under `pointer` in the body of a reply that was not refused.
pub open spec fn string_in_reply(
    success: bool,
    body: Seq<char>,
    prefix: Seq<char>,
    pointer: Seq<char>,
) -> Result<Seq<char>, PartnerErrorView> {
    if !success {
        Err(refusal(prefix, body))
    } else {
        field_of(json_text_strings(body), pointer)
    }
}

/// Reads the string under `pointer` out of a found document.
pub fn field_in(document: Option<serde_json::Value>, pointer: &str) -> (r: Result<
    String,
    PartnerError,
>)
    ensures
        match document {
            None => r is Err && r->Err_0@ == PartnerErrorView::NotJson,
            Some(found) => match field_of(Some(json_strings(found)), pointer@) {
                Ok(text) => r is Ok && r->Ok_0@ == text,
                Err(error) => r is Err && r->Err_0@ == error,
            },
        },
{
    match document {
        None => Err(PartnerError::NotJson),
        Some(found) => match string_at(&found, pointer) {
            Some(text) => Ok(text),
            None => Err(PartnerError::MissingField),
        },
    }
}

fn read_string(reply: &Reply, prefix: &str, pointer: &str) -> (r: Result<String, PartnerError>)
    ensures
        match string_in_reply(reply.success, reply.body@, prefix@, pointer@) {
            Ok(text) => r is Ok && r->Ok_0@ == text,
            Err(error) => r is Err && r->Err_0@ == error,
        },
{
    if !reply.success {
        return Err(PartnerError::Refused { message: joined(prefix, reply.body.as_str()) });
    }
    field_in(parse_json(reply.body.as_str()), pointer)
}

/// Reads the reply to the creation of a company: its identifier and its two
/// tokens, each a string of the document.
pub fn company_created(reply: &Reply) -> (r: Result<CreateCompanyResponse, PartnerError>)
    ensures
        !reply.success ==> r is Err && r->Err_0@ == refusal("Gusto Error: "@, reply.body@),
        reply.success ==> match (
            field_of(json_text_strings(reply.body@), "/company_uuid"@),
            field_of(json_text_strings(reply.body@), "/access_token"@),
            field_of(json_text_strings(reply.body@), "/refresh_token"@),
        ) {
            (Ok(company_uuid), Ok(access_token), Ok(refresh_token)) => r is Ok && r->Ok_0@ == (
            CreateCompanyResponseView { company_uuid, access_token, refresh_token }),
            (Err(error), _, _) => r is Err && r->Err_0@ == error,
            (Ok(_), Err(error), _) => r is Err && r->Err_0@ == error,
            (Ok(_), Ok(_), Err(error)) => r is Err && r->Err_0@ == error,
        },
{
    if !reply.success {
        return Err(
            PartnerError::Refused { message: joined("Gusto Error: ", reply.body.as_str()) },
        );
    }
    let document = match parse_json(reply.body.as_str()) {
        Some(document) => document,
        None => {
            return Err(PartnerError::NotJson);
        },
    };
    let company_uuid = match string_at(&document, "/company_uuid") {
        Some(text) => text,
        None => {
            return Err(PartnerError::MissingField);
        },
    };
    let access_token = match string_at(&document, "/access_token") {
        Some(text) => text,
        None => {
            return Err(PartnerError::MissingField);
        },
    };
    let refresh_token = match string_at(&document, "/refresh_token") {
        Some(text) => text,
        None => {
            return Err(PartnerError::MissingField);
        },
    };
    Ok(CreateCompanyResponse { company_uuid, access_token, refresh_token })
}

/// Reads the reply to the addition of a benefit: it says nothing more than
/// whether the benefit was added.
pub fn benefit_added(reply: &Reply) -> (r: Result<(), PartnerError>)
    ensures
        reply.success ==> r is Ok,
        !reply.success ==> r is Err && r->Err_0@ == refusal(
            "Failed to add benefit: "@,
            reply.body@,
        ),
{
    if reply.success {
        Ok(())
    } else {
        Err(
            PartnerError::Refused {
                message: joined("Failed to add benefit: ", reply.body.as_str()),
            },
        )
    }
}

/// Reads the address of the flow out of the reply: the string `url` of the
/// document.
pub fn insurance_flow_url(reply: &Reply) -> (r: Result<String, PartnerError>)
    ensures
        match string_in_reply(reply.success, reply.body@, "Failed to get flow URL: "@, "/url"@) {
            Ok(text) => r is Ok && r->Ok_0@ == text,
            Err(error) => r is Err && r->Err_0@ == error,
        },
{
    read_string(reply, "Failed to get flow URL: ", "/url")
}

/// Reads the address of the barcode out of the reply: the string
/// `data.attributes.barcodeUrl` of the document.
pub fn cash_deposit_barcode(reply: &Reply) -> (r: Result<String, PartnerError>)
    ensures
        match field_of(json_text_strings(reply.body@), "/data/attributes/barcodeUrl"@) {
            Ok(text) => r is Ok && r->Ok_0@ == text,
            Err(error) => r is Err && r->Err_0@ == error,
        },
{
    field_in(parse_json(reply.body.as_str()), "/data/attributes/barcodeUrl")
}

/// What onboarding a company comes to: its domain on the ledger, named
/// after the company in lower case, and the partner's identifier for it.
#[derive(Debug)]
pub struct Onboarding {
    pub register_domain: Instruction,
    pub gusto_uuid: String,
    pub iroha_domain: String,
}

/// The onboarding of a company whose name in lower case is `lowered`.
pub fn onboarding_for(lowered: String, gusto_data: &CreateCompanyResponse) -> (r: Result<
    Onboarding,
    IdError,
>)
    ensures
        !is_name(lowered@) ==> r == Err::<Onboarding, IdError>(IdError::MalformedName),
        is_name(lowered@) ==> r is Ok && ({
            let plan = r->Ok_0;
            &&& plan.register_domain@ == (InstructionView::RegisterDomain { domain: lowered@ })
            &&& plan.gusto_uuid@ == gusto_data.company_uuid@
            &&& plan.iroha_domain@ == lowered@
        }),
{
    match DomainId::parse(lowered.as_str()) {
        Ok(domain) => Ok(
            Onboarding {
                register_domain: Instruction::RegisterDomain { domain },
                gusto_uuid: gusto_data.company_uuid.clone(),
                iroha_domain: lowered,
            },
        ),
        Err(error) => Err(error),
    }
}

/// Plans the onboarding of the company `company_name`, which the partner
/// knows as `gusto_data`: its ledger domain is its name in lower case, which
/// has to be a name.
pub fn full_onboarding(company_name: &str, gusto_data: &CreateCompanyResponse) -> (r: Result<
    Onboarding,
    IdError,
>)
    ensures
        !is_name(lowercase_text(company_name@)) ==> r == Err::<Onboarding, IdError>(
            IdError::MalformedName,
        ),
        is_name(lowercase_text(company_name@)) ==> r is Ok && ({
            let plan = r->Ok_0;
            &&& plan.register_domain@ == (InstructionView::RegisterDomain {
                domain: lowercase_text(company_name@),
            })
            &&& plan.gusto_uuid@ == gusto_data.company_uuid@
            &&& plan.iroha_domain@ == lowercase_text(company_name@)
        }),
{
    onboarding_for(lowercase(company_name), gusto_data)
}

} // verus!
