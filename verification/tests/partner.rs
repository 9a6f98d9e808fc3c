use patrie_network::ident::IdError;
use patrie_network::instruction::Instruction;
use patrie_network::partner::{
    bearer, benefit_added, cash_deposit_barcode, company_created, field_in, full_onboarding,
    insurance_flow_url, onboarding_for, CreateCompanyResponse, GustoClient, PartnerError, Reply,
    RequestBody, UnitClient,
};

fn ok(body: &str) -> Reply {
    Reply { success: true, body: body.to_string() }
}

fn refused(body: &str) -> Reply {
    Reply { success: false, body: body.to_string() }
}

fn tokens() -> CreateCompanyResponse {
    CreateCompanyResponse {
        company_uuid: "c-123".to_string(),
        access_token: "SECRET-REDACTED".to_string(),
        refresh_token: "SECRET-REDACTED".to_string(),
    }
}

#[test]
fn a_company_is_created_with_the_platform_token() {
    let client = GustoClient::new("system-token".to_string());
    assert_eq!(client.base_url, "https://api.gusto-demo.com");
    let request = client.create_partner_managed_company("Acme", "admin@acme.test");
    assert_eq!(request.url, "https://api.gusto-demo.com/v1/partner_managed_companies");
    assert_eq!(request.authorization, "Bearer system-token");
    match request.body {
        RequestBody::CreateCompany { first_name, last_name, email, company_name } => {
            assert_eq!(first_name, "Admin");
            assert_eq!(last_name, "User");
            assert_eq!(email, "admin@acme.test");
            assert_eq!(company_name, "Acme");
        }
        other => panic!("{:?}", other),
    }
    assert_eq!(bearer("t"), "Bearer t");
}

#[test]
fn benefits_and_flows_are_asked_with_the_company_token() {
    let client = GustoClient::new("system-token".to_string());
    let benefit = client.add_health_benefit("c-123", "company-token");
    assert_eq!(benefit.url, "https://api.gusto-demo.com/v1/companies/c-123/company_benefits");
    assert_eq!(benefit.authorization, "Bearer company-token");
    assert!(matches!(benefit.body, RequestBody::HealthBenefit { benefit_type, active: true, description }
        if benefit_type == "1" && description == "Company Health Plan"));
    let flow = client.get_insurance_flow_url("c-123", "company-token");
    assert_eq!(flow.url, "https://api.gusto-demo.com/v1/companies/c-123/flows");
    assert_eq!(flow.authorization, "Bearer company-token");
    assert!(matches!(flow.body, RequestBody::Flow { flow_type } if flow_type == "benefits_setup"));
}

#[test]
fn the_bank_is_asked_for_barcodes_and_payments() {
    let bank = UnitClient { base_url: "https://bank.test".to_string(), token: "bank-token".to_string() };
    let barcode = bank.generate_cash_deposit_barcode("u-1", "a-9");
    assert_eq!(barcode.url, "https://bank.test/cash-deposits/barcode");
    assert_eq!(barcode.authorization, "Bearer bank-token");
    assert!(matches!(barcode.body, RequestBody::CashDepositBarcode { store, customer_id, account_id }
        if store == "GreenDotNetwork" && customer_id == "u-1" && account_id == "a-9"));
    let payment = bank.create_book_payment("a-9", "revenue", 316_000, "Monthly SaaS Bundle");
    assert_eq!(payment.url, "https://bank.test/payments");
    assert!(matches!(payment.body, RequestBody::BookPayment { from_account, to_account, amount_cents: 316_000, description }
        if from_account == "a-9" && to_account == "revenue" && description == "Monthly SaaS Bundle"));
}

#[test]
fn the_reply_to_a_creation_holds_three_strings() {
    let body = r#"{"company_uuid":"c-123","access_token":"at","refresh_token":"rt","extra":1}"#;
    let created = company_created(&ok(body)).unwrap();
    assert_eq!(created.company_uuid, "c-123");
    assert_eq!(created.access_token, "at");
    assert_eq!(created.refresh_token, "rt");
    assert!(matches!(company_created(&ok("not json")), Err(PartnerError::NotJson)));
    assert!(matches!(company_created(&ok("")), Err(PartnerError::NotJson)));
    assert!(matches!(
        company_created(&ok(r#"{"company_uuid":"c","access_token":"at"}"#)),
        Err(PartnerError::MissingField)
    ));
    assert!(matches!(
        company_created(&ok(r#"{"company_uuid":7,"access_token":"at","refresh_token":"rt"}"#)),
        Err(PartnerError::MissingField)
    ));
    assert!(matches!(company_created(&ok("[]")), Err(PartnerError::MissingField)));
    assert!(matches!(company_created(&refused(body)),
        Err(PartnerError::Refused { message }) if message == format!("Gusto Error: {}", body)));
}

#[test]
fn a_refused_benefit_quotes_the_body() {
    assert!(benefit_added(&ok("anything")).is_ok());
    assert!(matches!(benefit_added(&refused("no such company")),
        Err(PartnerError::Refused { message }) if message == "Failed to add benefit: no such company"));
}

#[test]
fn the_flow_url_is_the_string_url() {
    assert_eq!(insurance_flow_url(&ok(r#"{"url":"https://flows.test/x"}"#)).unwrap(), "https://flows.test/x");
    assert_eq!(insurance_flow_url(&ok(r#" { "a": [1, 2], "url" : "u\n" } "#)).unwrap(), "u\n");
    assert!(matches!(insurance_flow_url(&ok(r#"{"URL":"x"}"#)), Err(PartnerError::MissingField)));
    assert!(matches!(insurance_flow_url(&ok(r#"{"url":null}"#)), Err(PartnerError::MissingField)));
    assert!(matches!(insurance_flow_url(&ok(r#"{"url":{"url":"x"}}"#)), Err(PartnerError::MissingField)));
    assert!(matches!(insurance_flow_url(&ok(r#""url""#)), Err(PartnerError::MissingField)));
    assert!(matches!(insurance_flow_url(&ok(r#"{"url":"x""#)), Err(PartnerError::NotJson)));
    assert!(matches!(insurance_flow_url(&refused(r#"{"url":"x"}"#)),
        Err(PartnerError::Refused { message }) if message == r#"Failed to get flow URL: {"url":"x"}"#));
}

#[test]
fn the_barcode_url_lies_under_data_attributes() {
    let body = r#"{"data":{"type":"cashDepositBarcode","attributes":{"barcodeUrl":"https://b.test/1"}}}"#;
    assert_eq!(cash_deposit_barcode(&ok(body)).unwrap(), "https://b.test/1");
    assert_eq!(cash_deposit_barcode(&refused(body)).unwrap(), "https://b.test/1");
    assert!(matches!(
        cash_deposit_barcode(&ok(r#"{"data":{"attributes":{}}}"#)),
        Err(PartnerError::MissingField)
    ));
    assert!(matches!(cash_deposit_barcode(&ok(r#"{"barcodeUrl":"x"}"#)), Err(PartnerError::MissingField)));
    assert!(matches!(cash_deposit_barcode(&ok("<html>")), Err(PartnerError::NotJson)));
}

#[test]
fn a_field_is_read_out_of_a_found_document() {
    let document: serde_json::Value = serde_json::from_str(r#"{"a":{"b":["x","y"]},"c":"z"}"#).unwrap();
    assert_eq!(field_in(Some(document.clone()), "/c").unwrap(), "z");
    assert_eq!(field_in(Some(document.clone()), "/a/b/1").unwrap(), "y");
    assert!(matches!(field_in(Some(document.clone()), "/a/b/2"), Err(PartnerError::MissingField)));
    assert!(matches!(field_in(Some(document.clone()), "/a"), Err(PartnerError::MissingField)));
    assert!(matches!(field_in(Some(document.clone()), "c"), Err(PartnerError::MissingField)));
    assert!(matches!(field_in(Some(document), ""), Err(PartnerError::MissingField)));
    assert!(matches!(field_in(None, "/c"), Err(PartnerError::NotJson)));
    let text = serde_json::Value::String("whole".to_string());
    assert_eq!(field_in(Some(text), "").unwrap(), "whole");
}

#[test]
fn a_company_is_onboarded_under_its_name_in_lower_case() {
    let plan = full_onboarding("AcmeCorp", &tokens()).unwrap();
    assert_eq!(plan.iroha_domain, "acmecorp");
    assert_eq!(plan.gusto_uuid, "c-123");
    assert!(matches!(plan.register_domain, Instruction::RegisterDomain { domain } if domain.as_str() == "acmecorp"));
    assert_eq!(full_onboarding("ÉCOLE", &tokens()).unwrap().iroha_domain, "école");
    assert!(matches!(full_onboarding("Acme Corp", &tokens()), Err(IdError::MalformedName)));
    assert!(matches!(full_onboarding("", &tokens()), Err(IdError::MalformedName)));
    assert!(matches!(full_onboarding("Acme@Home", &tokens()), Err(IdError::MalformedName)));
    assert_eq!(onboarding_for("acme".to_string(), &tokens()).unwrap().iroha_domain, "acme");
    assert!(matches!(onboarding_for("ac me".to_string(), &tokens()), Err(IdError::MalformedName)));
}
