//! How each response is laid out as a record: the names of its fields, their
//! order, and the text that each value is written as.
//!
//! Hashes and addresses are written as `0x` and sixty-four hexadecimal digits,
//! the values of a call as `0x` and as few digits as it takes, and a fee or a
//! `Decimal` in decimal digits, as a text, so that no reader loses digits of it.

use vstd::prelude::*;
use crate::felt::{padded_hex_text, prefixed_hex_text, Felt, PaddedFelt};
use crate::record::{
    field_value,
    optional_text,
    optional_text_field,
    text_field,
    Field,
    FieldView,
    Record,
    ValueView,
};
use crate::response::{
    AccountCreateResponse,
    AccountDeleteResponse,
    AccountImportResponse,
    AlreadyDeclaredResponse,
    CallResponse,
    CommandResponse,
    Decimal,
    DeclareDeployResponse,
    DeclareResponse,
    DeclareTransactionResponse,
    DeployResponse,
    ExecutionStatus,
    FinalityStatus,
    InvokeResponse,
    MulticallNewResponse,
    ScriptInitResponse,
    ScriptRunResponse,
    ShowConfigResponse,
    TransactionStatusResponse,
    VerifyResponse,
};
use crate::text::{decimal_string, decimal_text, texts};

verus! {

/// The texts of field elements, each as `0x` and as few digits as it takes.
pub open spec fn hex_texts(felts: Seq<Felt>) -> Seq<Seq<char>> {
    Seq::new(felts.len(), |i: int| prefixed_hex_text(felts[i]@))
}

/// The decimal text of an optional number.
pub open spec fn optional_decimal_text(number: Option<Decimal>) -> Option<Seq<char>> {
    match number {
        Some(number) => Some(decimal_text(number.0 as nat)),
        None => None,
    }
}

/// The text of an optional hash or address.
pub open spec fn optional_padded_hex_text(felt: Option<PaddedFelt>) -> Option<Seq<char>> {
    match felt {
        Some(felt) => Some(padded_hex_text(felt@)),
        None => None,
    }
}

impl Decimal {
    /// The number in decimal digits.
    pub fn to_decimal_string(&self) -> (text: String)
        ensures
            text@ == decimal_text(self.0 as nat),
    {
        decimal_string(self.0)
    }
}

impl FinalityStatus {
    /// The name that the status is written as.
    pub open spec fn name_text(&self) -> Seq<char> {
        match self {
            FinalityStatus::Received => "Received"@,
            FinalityStatus::Rejected => "Rejected"@,
            FinalityStatus::AcceptedOnL2 => "AcceptedOnL2"@,
            FinalityStatus::AcceptedOnL1 => "AcceptedOnL1"@,
        }
    }

    /// The name that the status is written as.
    pub fn name(&self) -> (name: &'static str)
        ensures
            name@ == self.name_text(),
    {
        match self {
            FinalityStatus::Received => "Received",
            FinalityStatus::Rejected => "Rejected",
            FinalityStatus::AcceptedOnL2 => "AcceptedOnL2",
            FinalityStatus::AcceptedOnL1 => "AcceptedOnL1",
        }
    }
}

impl ExecutionStatus {
    /// The name that the status is written as.
    pub open spec fn name_text(&self) -> Seq<char> {
        match self {
            ExecutionStatus::Succeeded => "Succeeded"@,
            ExecutionStatus::Reverted => "Reverted"@,
        }
    }

    /// The name that the status is written as.
    pub fn name(&self) -> (name: &'static str)
        ensures
            name@ == self.name_text(),
    {
        match self {
            ExecutionStatus::Succeeded => "Succeeded",
            ExecutionStatus::Reverted => "Reverted",
        }
    }
}

/// The name of an optional execution status.
pub open spec fn optional_status_name(status: Option<ExecutionStatus>) -> Option<Seq<char>> {
    match status {
        Some(status) => Some(status.name_text()),
        None => None,
    }
}

/// A field that holds the decimal text of a number, where there is one.
fn optional_decimal(name: &str, number: &Option<Decimal>) -> (field: Field)
    ensures
        field@ == optional_text_field(name@, optional_decimal_text(*number)),
{
    let text = match number {
        Some(number) => Some(number.to_decimal_string()),
        None => None,
    };
    Field::optional_text(name, &text)
}

impl CommandResponse for CallResponse {
    open spec fn record(&self) -> Seq<FieldView> {
        seq![
            FieldView { name: "response"@, value: ValueView::List(hex_texts(self.response@)) },
        ]
    }

    fn to_record(&self) -> (record: Record) {
        let mut items: Vec<String> = Vec::new();
        let mut i: usize = 0;
        while i < self.response.len()
            invariant
                i <= self.response@.len(),
                items@.len() == i,
                forall|j: int|
                    0 <= j < i ==> (#[trigger] items@[j])@ == prefixed_hex_text(
                        self.response@[j]@,
                    ),
            decreases self.response@.len() - i,
        {
            items.push(self.response[i].to_hex_string());
            i += 1;
        }
        assert(texts(items@) =~= hex_texts(self.response@));
        let mut fields: Vec<Field> = Vec::new();
        fields.push(Field::list("response", items));
        Record { fields }
    }
}

impl CommandResponse for InvokeResponse {
    open spec fn record(&self) -> Seq<FieldView> {
        seq![text_field("transaction_hash"@, padded_hex_text(self.transaction_hash@))]
    }

    fn to_record(&self) -> (record: Record) {
        let mut fields: Vec<Field> = Vec::new();
        fields.push(Field::text("transaction_hash", self.transaction_hash.to_hex_string()));
        Record { fields }
    }
}

impl CommandResponse for DeployResponse {
    open spec fn record(&self) -> Seq<FieldView> {
        seq![
            text_field("contract_address"@, padded_hex_text(self.contract_address@)),
            text_field("transaction_hash"@, padded_hex_text(self.transaction_hash@)),
        ]
    }

    fn to_record(&self) -> (record: Record) {
        let mut fields: Vec<Field> = Vec::new();
        fields.push(Field::text("contract_address", self.contract_address.to_hex_string()));
        fields.push(Field::text("transaction_hash", self.transaction_hash.to_hex_string()));
        Record { fields }
    }
}

impl CommandResponse for DeclareTransactionResponse {
    open spec fn record(&self) -> Seq<FieldView> {
        seq![
            text_field("class_hash"@, padded_hex_text(self.class_hash@)),
            text_field("transaction_hash"@, padded_hex_text(self.transaction_hash@)),
        ]
    }

    fn to_record(&self) -> (record: Record) {
        let mut fields: Vec<Field> = Vec::new();
        fields.push(Field::text("class_hash", self.class_hash.to_hex_string()));
        fields.push(Field::text("transaction_hash", self.transaction_hash.to_hex_string()));
        Record { fields }
    }
}

impl CommandResponse for AlreadyDeclaredResponse {
    open spec fn record(&self) -> Seq<FieldView> {
        seq![text_field("class_hash"@, padded_hex_text(self.class_hash@))]
    }

    fn to_record(&self) -> (record: Record) {
        let mut fields: Vec<Field> = Vec::new();
        fields.push(Field::text("class_hash", self.class_hash.to_hex_string()));
        Record { fields }
    }
}

impl CommandResponse for DeclareResponse {
    /// A class that was declared before is marked by a first field `status`
    /// that holds `AlreadyDeclared`. A declaration that was sent has the fields
    /// of its transaction and no such field: a reader tells the two apart by
    /// whether `status` is there.
    open spec fn record(&self) -> Seq<FieldView> {
        match self {
            DeclareResponse::AlreadyDeclared(response) => seq![
                text_field("status"@, "AlreadyDeclared"@),
            ] + response.record(),
            DeclareResponse::Success(response) => response.record(),
        }
    }

    fn to_record(&self) -> (record: Record) {
        match self {
            DeclareResponse::AlreadyDeclared(response) => {
                let mut fields: Vec<Field> = Vec::new();
                fields.push(Field::text("status", "AlreadyDeclared".to_owned()));
                fields.push(Field::text("class_hash", response.class_hash.to_hex_string()));
                Record { fields }
            },
            DeclareResponse::Success(response) => response.to_record(),
        }
    }
}

impl CommandResponse for AccountCreateResponse {
    open spec fn record(&self) -> Seq<FieldView> {
        seq![
            text_field("address"@, padded_hex_text(self.address@)),
            text_field("max_fee"@, decimal_text(self.max_fee@)),
            text_field("add_profile"@, self.add_profile@),
            text_field("message"@, self.message@),
        ]
    }

    fn to_record(&self) -> (record: Record) {
        let mut fields: Vec<Field> = Vec::new();
        fields.push(Field::text("address", self.address.to_hex_string()));
        fields.push(Field::text("max_fee", self.max_fee.to_decimal_string()));
        fields.push(Field::text("add_profile", self.add_profile.clone()));
        fields.push(Field::text("message", self.message.clone()));
        Record { fields }
    }
}

impl CommandResponse for AccountImportResponse {
    open spec fn record(&self) -> Seq<FieldView> {
        seq![
            text_field("add_profile"@, self.add_profile@),
            optional_text_field("account_name"@, optional_text(self.account_name)),
        ]
    }

    fn to_record(&self) -> (record: Record) {
        let mut fields: Vec<Field> = Vec::new();
        fields.push(Field::text("add_profile", self.add_profile.clone()));
        fields.push(Field::optional_text("account_name", &self.account_name));
        Record { fields }
    }
}

impl CommandResponse for AccountDeleteResponse {
    open spec fn record(&self) -> Seq<FieldView> {
        seq![text_field("result"@, self.result@)]
    }

    fn to_record(&self) -> (record: Record) {
        let mut fields: Vec<Field> = Vec::new();
        fields.push(Field::text("result", self.result.clone()));
        Record { fields }
    }
}

impl CommandResponse for MulticallNewResponse {
    open spec fn record(&self) -> Seq<FieldView> {
        seq![text_field("path"@, self.path@), text_field("content"@, self.content@)]
    }

    fn to_record(&self) -> (record: Record) {
        let mut fields: Vec<Field> = Vec::new();
        fields.push(Field::text("path", self.path.clone()));
        fields.push(Field::text("content", self.content.clone()));
        Record { fields }
    }
}

impl CommandResponse for ShowConfigResponse {
    open spec fn record(&self) -> Seq<FieldView> {
        seq![
            optional_text_field("profile"@, optional_text(self.profile)),
            optional_text_field("chain_id"@, optional_text(self.chain_id)),
            optional_text_field("rpc_url"@, optional_text(self.rpc_url)),
            optional_text_field("account"@, optional_text(self.account)),
            optional_text_field("accounts_file_path"@, optional_text(self.accounts_file_path)),
            optional_text_field("keystore"@, optional_text(self.keystore)),
            optional_text_field("wait_timeout"@, optional_decimal_text(self.wait_timeout)),
            optional_text_field(
                "wait_retry_interval"@,
                optional_decimal_text(self.wait_retry_interval),
            ),
            FieldView {
                name: "show_explorer_links"@,
                value: ValueView::Bool(self.show_explorer_links),
            },
            optional_text_field("block_explorer"@, optional_text(self.block_explorer)),
        ]
    }

    fn to_record(&self) -> (record: Record) {
        let mut fields: Vec<Field> = Vec::new();
        fields.push(Field::optional_text("profile", &self.profile));
        fields.push(Field::optional_text("chain_id", &self.chain_id));
        fields.push(Field::optional_text("rpc_url", &self.rpc_url));
        fields.push(Field::optional_text("account", &self.account));
        fields.push(Field::optional_text("accounts_file_path", &self.accounts_file_path));
        fields.push(Field::optional_text("keystore", &self.keystore));
        fields.push(optional_decimal("wait_timeout", &self.wait_timeout));
        fields.push(optional_decimal("wait_retry_interval", &self.wait_retry_interval));
        fields.push(Field::flag("show_explorer_links", self.show_explorer_links));
        fields.push(Field::optional_text("block_explorer", &self.block_explorer));
        Record { fields }
    }
}

impl CommandResponse for ScriptRunResponse {
    open spec fn record(&self) -> Seq<FieldView> {
        seq![
            text_field("status"@, self.status@),
            optional_text_field("message"@, optional_text(self.message)),
        ]
    }

    fn to_record(&self) -> (record: Record) {
        let mut fields: Vec<Field> = Vec::new();
        fields.push(Field::text("status", self.status.clone()));
        fields.push(Field::optional_text("message", &self.message));
        Record { fields }
    }
}

impl CommandResponse for ScriptInitResponse {
    open spec fn record(&self) -> Seq<FieldView> {
        seq![text_field("message"@, self.message@)]
    }

    fn to_record(&self) -> (record: Record) {
        let mut fields: Vec<Field> = Vec::new();
        fields.push(Field::text("message", self.message.clone()));
        Record { fields }
    }
}

impl CommandResponse for DeclareDeployResponse {
    open spec fn record(&self) -> Seq<FieldView> {
        seq![
            optional_text_field("class_hash"@, optional_padded_hex_text(self.class_hash())),
            optional_text_field(
                "declare_transaction_hash"@,
                optional_padded_hex_text(self.declare_transaction_hash()),
            ),
            text_field("contract_address"@, padded_hex_text(self.contract_address()@)),
            text_field(
                "deploy_transaction_hash"@,
                padded_hex_text(self.deploy_transaction_hash()@),
            ),
        ]
    }

    fn to_record(&self) -> (record: Record) {
        let class_hash = match self.class_hash() {
            Some(hash) => Some(hash.to_hex_string()),
            None => None,
        };
        let declare_transaction_hash = match self.declare_transaction_hash() {
            Some(hash) => Some(hash.to_hex_string()),
            None => None,
        };
        let mut fields: Vec<Field> = Vec::new();
        fields.push(Field::optional_text("class_hash", &class_hash));
        fields.push(Field::optional_text("declare_transaction_hash", &declare_transaction_hash));
        fields.push(Field::text("contract_address", self.contract_address().to_hex_string()));
        fields.push(
            Field::text("deploy_transaction_hash", self.deploy_transaction_hash().to_hex_string()),
        );
        Record { fields }
    }
}

impl CommandResponse for TransactionStatusResponse {
    open spec fn record(&self) -> Seq<FieldView> {
        seq![
            text_field("finality_status"@, self.finality_status.name_text()),
            optional_text_field("execution_status"@, optional_status_name(self.execution_status)),
        ]
    }

    fn to_record(&self) -> (record: Record) {
        let execution_status = match &self.execution_status {
            Some(status) => Some(status.name().to_owned()),
            None => None,
        };
        let mut fields: Vec<Field> = Vec::new();
        fields.push(Field::text("finality_status", self.finality_status.name().to_owned()));
        fields.push(Field::optional_text("execution_status", &execution_status));
        Record { fields }
    }
}

impl CommandResponse for VerifyResponse {
    open spec fn record(&self) -> Seq<FieldView> {
        seq![text_field("message"@, self.message@)]
    }

    fn to_record(&self) -> (record: Record) {
        let mut fields: Vec<Field> = Vec::new();
        fields.push(Field::text("message", self.message.clone()));
        Record { fields }
    }
}

/// The fee of a created account is written as the text of its decimal digits.
pub proof fn lemma_max_fee_is_decimal_text(response: AccountCreateResponse)
    ensures
        field_value(response.record(), "max_fee"@) == Some(
            ValueView::Text(decimal_text(response.max_fee@)),
        ),
{
    reveal_strlit("address");
    reveal_strlit("max_fee");
    assert("address"@ != "max_fee"@) by {
        assert("address"@[0] != "max_fee"@[0]);
    }
    reveal_with_fuel(field_value, 3);
}

/// The record of a declaration has a field `status` exactly where the class
/// was declared before, and it then holds `AlreadyDeclared`.
pub proof fn lemma_status_marks_earlier_declaration(response: DeclareResponse)
    ensures
        field_value(response.record(), "status"@) is Some <==> response
            is AlreadyDeclared,
        response is AlreadyDeclared ==> field_value(response.record(), "status"@) == Some(
            ValueView::Text("AlreadyDeclared"@),
        ),
{
    reveal_strlit("status");
    reveal_strlit("class_hash");
    reveal_strlit("transaction_hash");
    assert("status"@ != "class_hash"@) by {
        assert("status"@[0] != "class_hash"@[0]);
    }
    assert("status"@ != "transaction_hash"@) by {
        assert("status"@[0] != "transaction_hash"@[0]);
    }
    reveal_with_fuel(field_value, 3);
}

} // verus!
