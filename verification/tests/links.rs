use sncast::felt::{Felt, PaddedFelt};
use sncast::links::{
    format_line, format_lines, format_targets, LinkProvider, LinkTarget, OutputLink, Page,
};
use sncast::response::{
    AccountCreateResponse, AlreadyDeclaredResponse, DeclareDeployResponse, DeclareResponse,
    DeclareTransactionResponse, DeployResponse, InvokeResponse,
};

struct Explorer;

impl LinkProvider for Explorer {
    fn transaction(&self, hash: PaddedFelt) -> String {
        format!("https://explorer.test/tx/{}", hash.0.to_hex_string())
    }

    fn class(&self, hash: PaddedFelt) -> String {
        format!("https://explorer.test/class/{}", hash.0.to_hex_string())
    }

    fn contract(&self, address: PaddedFelt) -> String {
        format!("https://explorer.test/contract/{}", address.0.to_hex_string())
    }
}

fn hash(number: u128) -> PaddedFelt {
    PaddedFelt(Felt::from_u128(number))
}

fn deploy() -> DeployResponse {
    DeployResponse { contract_address: hash(0xc0), transaction_hash: hash(0xd0) }
}

#[test]
fn titles() {
    assert_eq!(InvokeResponse::TITLE, "invocation");
    assert_eq!(DeployResponse::TITLE, "deployment");
    assert_eq!(DeclareTransactionResponse::TITLE, "declaration");
    assert_eq!(DeclareDeployResponse::TITLE, "declaration and deployment");
    assert_eq!(AccountCreateResponse::TITLE, "account creation");
}

#[test]
fn invoke_links() {
    let response = InvokeResponse { transaction_hash: hash(0x7e) };
    assert_eq!(response.format_links(&Explorer), "transaction: https://explorer.test/tx/0x7e");
}

#[test]
fn deploy_links_are_the_contract_then_the_transaction() {
    let text = deploy().format_links(&Explorer);
    assert_eq!(
        text,
        "contract: https://explorer.test/contract/0xc0\ntransaction: https://explorer.test/tx/0xd0"
    );
    let lines: Vec<&str> = text.split('\n').collect();
    assert_eq!(lines.len(), 2);
    assert!(lines[0].starts_with("contract: "));
    assert!(lines[1].starts_with("transaction: "));
}

#[test]
fn declare_links_are_the_class_then_the_transaction() {
    let response =
        DeclareTransactionResponse { class_hash: hash(0xa1), transaction_hash: hash(0xb2) };
    assert_eq!(
        response.format_links(&Explorer),
        "class: https://explorer.test/class/0xa1\ntransaction: https://explorer.test/tx/0xb2"
    );
}

#[test]
fn declare_deploy_links_without_a_declaration() {
    let response = DeclareDeployResponse::new(&None, deploy());
    assert_eq!(
        response.format_links(&Explorer),
        "contract: https://explorer.test/contract/0xc0\n\
         deployment transaction: https://explorer.test/tx/0xd0"
    );
}

#[test]
fn declare_deploy_links_with_a_declaration() {
    let declare = Some(DeclareResponse::Success(DeclareTransactionResponse {
        class_hash: hash(0xa1),
        transaction_hash: hash(0xb2),
    }));
    let response = DeclareDeployResponse::new(&declare, deploy());
    assert_eq!(
        response.format_links(&Explorer),
        "class: https://explorer.test/class/0xa1\n\
         contract: https://explorer.test/contract/0xc0\n\
         declaration transaction: https://explorer.test/tx/0xb2\n\
         deployment transaction: https://explorer.test/tx/0xd0"
    );
}

#[test]
fn declare_deploy_links_of_a_class_declared_before() {
    let declare =
        Some(DeclareResponse::AlreadyDeclared(AlreadyDeclaredResponse { class_hash: hash(0xa1) }));
    let response = DeclareDeployResponse::new(&declare, deploy());
    assert_eq!(
        response.format_links(&Explorer),
        "class: https://explorer.test/class/0xa1\n\
         contract: https://explorer.test/contract/0xc0\n\
         deployment transaction: https://explorer.test/tx/0xd0"
    );
}

#[test]
fn account_create_links() {
    let response = AccountCreateResponse {
        address: hash(0xacc),
        max_fee: hash(1).0,
        add_profile: String::new(),
        message: String::new(),
    };
    assert_eq!(
        response.format_links(&Explorer),
        "account: https://explorer.test/contract/0xacc"
    );
}

#[test]
fn link_targets_name_what_a_response_refers_to() {
    assert_eq!(
        deploy().link_targets(),
        vec![
            LinkTarget { label: "contract", page: Page::Contract, id: hash(0xc0) },
            LinkTarget { label: "transaction", page: Page::Transaction, id: hash(0xd0) },
        ]
    );
    assert_eq!(
        DeclareDeployResponse::new(&None, deploy()).link_targets(),
        vec![
            LinkTarget { label: "contract", page: Page::Contract, id: hash(0xc0) },
            LinkTarget { label: "deployment transaction", page: Page::Transaction, id: hash(0xd0) },
        ]
    );
}

#[test]
fn lines_are_joined_without_a_line_feed_at_the_end() {
    let targets = deploy().link_targets();
    let links = vec!["first".to_string(), "second".to_string()];
    assert_eq!(format_lines(&targets, &links), "contract: first\ntransaction: second");
    assert_eq!(format_lines(&Vec::new(), &links), "");
    assert_eq!(format_lines(&targets, &links[..1].to_vec()), "contract: first");
    assert_eq!(format_lines(&targets, &Vec::new()), "");
    assert_eq!(format_targets(&Vec::new(), &Explorer), "");
}

#[test]
fn a_line_is_the_label_and_the_link() {
    assert_eq!(format_line("class", "https://x"), "class: https://x");
    assert_eq!(format_line("", ""), ": ");
}

#[test]
fn explorer_behind_a_box() {
    let provider: Box<dyn LinkProvider> = Box::new(Explorer);
    assert_eq!(
        deploy().format_links(provider.as_ref()),
        "contract: https://explorer.test/contract/0xc0\ntransaction: https://explorer.test/tx/0xd0"
    );
}

struct Short;

impl LinkProvider for Short {
    fn transaction(&self, hash: PaddedFelt) -> String {
        format!("tx/{}", hash.0.to_hex_string())
    }

    fn class(&self, hash: PaddedFelt) -> String {
        format!("class/{}", hash.0.to_hex_string())
    }

    fn contract(&self, address: PaddedFelt) -> String {
        format!("contract/{}", address.0.to_hex_string())
    }
}

#[test]
fn each_line_is_linked_on_the_page_of_its_kind() {
    let declare = Some(DeclareResponse::Success(DeclareTransactionResponse {
        class_hash: hash(0x1),
        transaction_hash: hash(0x4),
    }));
    let deploy = DeployResponse { contract_address: hash(0x2), transaction_hash: hash(0x3) };
    let response = DeclareDeployResponse::new(&declare, deploy);
    assert_eq!(
        response.format_links(&Short),
        "class: class/0x1\ncontract: contract/0x2\n\
         declaration transaction: tx/0x4\ndeployment transaction: tx/0x3"
    );
    assert_eq!(
        response.link_targets(),
        vec![
            LinkTarget { label: "class", page: Page::Class, id: hash(0x1) },
            LinkTarget { label: "contract", page: Page::Contract, id: hash(0x2) },
            LinkTarget { label: "declaration transaction", page: Page::Transaction, id: hash(0x4) },
            LinkTarget { label: "deployment transaction", page: Page::Transaction, id: hash(0x3) },
        ]
    );
}
