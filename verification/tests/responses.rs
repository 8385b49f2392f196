use sncast::felt::{Felt, PaddedFelt};
use sncast::record::{Field, Record, Value};
use sncast::response::{
    AccountCreateResponse, AccountDeleteResponse, AccountImportResponse, AlreadyDeclaredResponse,
    CallResponse, CommandResponse, Decimal, DeclareDeployResponse, DeclareResponse,
    DeclareTransactionResponse, DeployResponse, ExecutionStatus, FinalityStatus, InvokeResponse,
    MulticallNewResponse, ScriptInitResponse, ScriptRunResponse, ShowConfigResponse,
    TransactionStatusResponse, VerifyResponse,
};

fn felt(number: u128) -> Felt {
    Felt::from_u128(number)
}

fn hash(number: u128) -> PaddedFelt {
    PaddedFelt(felt(number))
}

fn padded(digits: &str) -> String {
    format!("0x{:0>64}", digits)
}

fn text(name: &str, value: &str) -> Field {
    Field { name: name.to_string(), value: Value::Text(value.to_string()) }
}

fn null(name: &str) -> Field {
    Field { name: name.to_string(), value: Value::Null }
}

fn deploy() -> DeployResponse {
    DeployResponse { contract_address: hash(0xc0), transaction_hash: hash(0xd0) }
}

#[test]
fn already_declared_gives_the_class_hash_only() {
    let declare =
        Some(DeclareResponse::AlreadyDeclared(AlreadyDeclaredResponse { class_hash: hash(0xa1) }));
    let response = DeclareDeployResponse::new(&declare, deploy());
    assert_eq!(response.class_hash(), Some(hash(0xa1)));
    assert_eq!(response.declare_transaction_hash(), None);
    assert_eq!(response.contract_address(), hash(0xc0));
    assert_eq!(response.deploy_transaction_hash(), hash(0xd0));
}

#[test]
fn declaration_gives_both_hashes() {
    let declare = Some(DeclareResponse::Success(DeclareTransactionResponse {
        class_hash: hash(0xa1),
        transaction_hash: hash(0xb2),
    }));
    let response = DeclareDeployResponse::new(&declare, deploy());
    assert_eq!(response.class_hash(), Some(hash(0xa1)));
    assert_eq!(response.declare_transaction_hash(), Some(hash(0xb2)));
    assert_eq!(response.contract_address(), hash(0xc0));
    assert_eq!(response.deploy_transaction_hash(), hash(0xd0));
}

#[test]
fn no_declaration_gives_neither_hash() {
    let response = DeclareDeployResponse::new(&None, deploy());
    assert_eq!(response.class_hash(), None);
    assert_eq!(response.declare_transaction_hash(), None);
    assert_eq!(response.contract_address(), hash(0xc0));
    assert_eq!(response.deploy_transaction_hash(), hash(0xd0));
}

#[test]
fn declare_response_hashes() {
    let declared = DeclareResponse::AlreadyDeclared(AlreadyDeclaredResponse { class_hash: hash(1) });
    assert_eq!(declared.class_hash(), hash(1));
    assert_eq!(declared.transaction_hash(), None);
    let sent = DeclareResponse::Success(DeclareTransactionResponse {
        class_hash: hash(2),
        transaction_hash: hash(3),
    });
    assert_eq!(sent.class_hash(), hash(2));
    assert_eq!(sent.transaction_hash(), Some(hash(3)));
}

#[test]
fn max_fee_is_written_as_a_decimal_text() {
    let response = AccountCreateResponse {
        address: hash(0xacc),
        max_fee: felt(1234567890123),
        add_profile: "--add-profile flag was not set".to_string(),
        message: "Account created".to_string(),
    };
    let record = response.to_record();
    assert_eq!(record.get("max_fee"), Some(&Value::Text("1234567890123".to_string())));
    assert_eq!(
        record,
        Record {
            fields: vec![
                text("address", &padded("acc")),
                text("max_fee", "1234567890123"),
                text("add_profile", "--add-profile flag was not set"),
                text("message", "Account created"),
            ],
        }
    );
}

#[test]
fn max_fee_beyond_sixty_four_bits_keeps_its_digits() {
    let response = AccountCreateResponse {
        address: hash(1),
        max_fee: felt(u128::MAX),
        add_profile: String::new(),
        message: String::new(),
    };
    assert_eq!(
        response.to_record().get("max_fee"),
        Some(&Value::Text("340282366920938463463374607431768211455".to_string()))
    );
}

#[test]
fn decimal_is_written_in_decimal_digits() {
    assert_eq!(Decimal(0).to_decimal_string(), "0");
    assert_eq!(Decimal(300).to_decimal_string(), "300");
    assert_eq!(Decimal(u64::MAX).to_decimal_string(), "18446744073709551615");
}

#[test]
fn call_response_lists_its_values() {
    let response = CallResponse { response: vec![felt(0), felt(1), felt(0xdead_beef)] };
    assert_eq!(
        response.to_record(),
        Record {
            fields: vec![Field {
                name: "response".to_string(),
                value: Value::List(vec![
                    "0x0".to_string(),
                    "0x1".to_string(),
                    "0xdeadbeef".to_string()
                ]),
            }],
        }
    );
    let empty = CallResponse { response: Vec::new() };
    assert_eq!(empty.to_record().get("response"), Some(&Value::List(Vec::new())));
}

#[test]
fn invoke_response_record() {
    let response = InvokeResponse { transaction_hash: hash(0x7e) };
    assert_eq!(
        response.to_record(),
        Record { fields: vec![text("transaction_hash", &padded("7e"))] }
    );
}

#[test]
fn deploy_response_record() {
    assert_eq!(
        deploy().to_record(),
        Record {
            fields: vec![
                text("contract_address", &padded("c0")),
                text("transaction_hash", &padded("d0")),
            ],
        }
    );
}

#[test]
fn sent_declaration_has_no_status_field() {
    let inner = DeclareTransactionResponse { class_hash: hash(0xa1), transaction_hash: hash(0xb2) };
    let response = DeclareResponse::Success(inner.clone());
    let record = response.to_record();
    assert_eq!(
        record,
        Record {
            fields: vec![
                text("class_hash", &padded("a1")),
                text("transaction_hash", &padded("b2")),
            ],
        }
    );
    assert_eq!(record.get("status"), None);
    assert_eq!(record, inner.to_record());
}

#[test]
fn earlier_declaration_is_marked_by_its_status() {
    let inner = AlreadyDeclaredResponse { class_hash: hash(0xa1) };
    let response = DeclareResponse::AlreadyDeclared(inner.clone());
    let record = response.to_record();
    assert_eq!(
        record,
        Record {
            fields: vec![text("status", "AlreadyDeclared"), text("class_hash", &padded("a1"))],
        }
    );
    assert_eq!(record.get("transaction_hash"), None);
    assert_eq!(inner.to_record(), Record { fields: vec![text("class_hash", &padded("a1"))] });
}

#[test]
fn declare_deploy_record() {
    let declare = Some(DeclareResponse::Success(DeclareTransactionResponse {
        class_hash: hash(0xa1),
        transaction_hash: hash(0xb2),
    }));
    assert_eq!(
        DeclareDeployResponse::new(&declare, deploy()).to_record(),
        Record {
            fields: vec![
                text("class_hash", &padded("a1")),
                text("declare_transaction_hash", &padded("b2")),
                text("contract_address", &padded("c0")),
                text("deploy_transaction_hash", &padded("d0")),
            ],
        }
    );
    assert_eq!(
        DeclareDeployResponse::new(&None, deploy()).to_record(),
        Record {
            fields: vec![
                null("class_hash"),
                null("declare_transaction_hash"),
                text("contract_address", &padded("c0")),
                text("deploy_transaction_hash", &padded("d0")),
            ],
        }
    );
}

#[test]
fn account_import_and_delete_records() {
    let imported = AccountImportResponse {
        add_profile: "Profile my_account successfully added".to_string(),
        account_name: Some("my_account".to_string()),
    };
    assert_eq!(
        imported.to_record(),
        Record {
            fields: vec![
                text("add_profile", "Profile my_account successfully added"),
                text("account_name", "my_account"),
            ],
        }
    );
    let unnamed = AccountImportResponse { add_profile: "x".to_string(), account_name: None };
    assert_eq!(unnamed.to_record().get("account_name"), Some(&Value::Null));
    let deleted = AccountDeleteResponse { result: "Account successfully removed".to_string() };
    assert_eq!(
        deleted.to_record(),
        Record { fields: vec![text("result", "Account successfully removed")] }
    );
}

#[test]
fn multicall_and_script_records() {
    let multicall = MulticallNewResponse {
        path: "calls/multicall.toml".to_string(),
        content: "[[call]]".to_string(),
    };
    assert_eq!(
        multicall.to_record(),
        Record { fields: vec![text("path", "calls/multicall.toml"), text("content", "[[call]]")] }
    );
    let run = ScriptRunResponse { status: "success".to_string(), message: None };
    assert_eq!(
        run.to_record(),
        Record { fields: vec![text("status", "success"), null("message")] }
    );
    let init = ScriptInitResponse { message: "Successfully initialized".to_string() };
    assert_eq!(
        init.to_record(),
        Record { fields: vec![text("message", "Successfully initialized")] }
    );
    let verify = VerifyResponse { message: "Verified".to_string() };
    assert_eq!(verify.to_record(), Record { fields: vec![text("message", "Verified")] });
}

#[test]
fn show_config_record() {
    let response = ShowConfigResponse {
        profile: Some("default".to_string()),
        chain_id: Some("alpha-sepolia".to_string()),
        rpc_url: Some("http://127.0.0.1:5050".to_string()),
        account: None,
        accounts_file_path: Some("accounts.json".to_string()),
        keystore: None,
        wait_timeout: Some(Decimal(300)),
        wait_retry_interval: None,
        show_explorer_links: true,
        block_explorer: Some("StarkScan".to_string()),
    };
    assert_eq!(
        response.to_record(),
        Record {
            fields: vec![
                text("profile", "default"),
                text("chain_id", "alpha-sepolia"),
                text("rpc_url", "http://127.0.0.1:5050"),
                null("account"),
                text("accounts_file_path", "accounts.json"),
                null("keystore"),
                text("wait_timeout", "300"),
                null("wait_retry_interval"),
                Field { name: "show_explorer_links".to_string(), value: Value::Bool(true) },
                text("block_explorer", "StarkScan"),
            ],
        }
    );
}

#[test]
fn transaction_status_record() {
    let pending = TransactionStatusResponse {
        finality_status: FinalityStatus::Received,
        execution_status: None,
    };
    assert_eq!(
        pending.to_record(),
        Record { fields: vec![text("finality_status", "Received"), null("execution_status")] }
    );
    let done = TransactionStatusResponse {
        finality_status: FinalityStatus::AcceptedOnL1,
        execution_status: Some(ExecutionStatus::Reverted),
    };
    assert_eq!(
        done.to_record(),
        Record {
            fields: vec![
                text("finality_status", "AcceptedOnL1"),
                text("execution_status", "Reverted"),
            ],
        }
    );
}

#[test]
fn status_names() {
    assert_eq!(FinalityStatus::Received.name(), "Received");
    assert_eq!(FinalityStatus::Rejected.name(), "Rejected");
    assert_eq!(FinalityStatus::AcceptedOnL2.name(), "AcceptedOnL2");
    assert_eq!(FinalityStatus::AcceptedOnL1.name(), "AcceptedOnL1");
    assert_eq!(ExecutionStatus::Succeeded.name(), "Succeeded");
    assert_eq!(ExecutionStatus::Reverted.name(), "Reverted");
}

#[test]
fn get_finds_the_first_field_of_a_name() {
    let record = Record {
        fields: vec![text("a", "1"), text("b", "2"), text("a", "3")],
    };
    assert_eq!(record.get("a"), Some(&Value::Text("1".to_string())));
    assert_eq!(record.get("b"), Some(&Value::Text("2".to_string())));
    assert_eq!(record.get("c"), None);
    assert_eq!(Record { fields: Vec::new() }.get("a"), None);
}

#[test]
fn fields_hold_what_they_are_made_of() {
    assert_eq!(Field::text("n", "v".to_string()), text("n", "v"));
    assert_eq!(Field::optional_text("n", &Some("v".to_string())), text("n", "v"));
    assert_eq!(Field::optional_text("n", &None), null("n"));
    assert_eq!(
        Field::flag("n", false),
        Field { name: "n".to_string(), value: Value::Bool(false) }
    );
    assert_eq!(
        Field::list("n", vec!["a".to_string()]),
        Field { name: "n".to_string(), value: Value::List(vec!["a".to_string()]) }
    );
}
