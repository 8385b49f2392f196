//! The responses of completed commands and the records they are written as.

use vstd::prelude::*;
use crate::felt::{Felt, PaddedFelt};
use crate::record::{FieldView, Record};

verus! {

/// An unsigned number that is written as a text of decimal digits.
#[derive(Clone, Copy, Debug, PartialEq, Eq)]
pub struct Decimal(pub u64);

/// A response of a command: a value that is built once, when the command has
/// completed, and then written out as a record.
pub trait CommandResponse {
    /// The fields of the response, in order.
    spec fn record(&self) -> Seq<FieldView>;

    /// Lays the response out as a record.
    fn to_record(&self) -> (record: Record)
        ensures
            record@ == self.record(),
    ;
}

/// The values that a call returned.
#[derive(Clone, Debug, PartialEq, Eq)]
pub struct CallResponse {
    pub response: Vec<Felt>,
}

#[derive(Clone, Debug, PartialEq, Eq)]
pub struct InvokeResponse {
    pub transaction_hash: PaddedFelt,
}

#[derive(Clone, Debug, PartialEq, Eq)]
pub struct DeployResponse {
    pub contract_address: PaddedFelt,
    pub transaction_hash: PaddedFelt,
}

/// A declaration that was sent as a transaction.
#[derive(Clone, Debug, PartialEq, Eq)]
pub struct DeclareTransactionResponse {
    pub class_hash: PaddedFelt,
    pub transaction_hash: PaddedFelt,
}

/// A declaration that was not sent, because the class was declared before.
#[derive(Clone, Debug, PartialEq, Eq)]
pub struct AlreadyDeclaredResponse {
    pub class_hash: PaddedFelt,
}

#[derive(Clone, Debug, PartialEq, Eq)]
pub enum DeclareResponse {
    AlreadyDeclared(AlreadyDeclaredResponse),
    Success(DeclareTransactionResponse),
}

#[derive(Clone, Debug, PartialEq, Eq)]
pub struct AccountCreateResponse {
    pub address: PaddedFelt,
    pub max_fee: Felt,
    pub add_profile: String,
    pub message: String,
}

#[derive(Clone, Debug, PartialEq, Eq)]
pub struct AccountImportResponse {
    pub add_profile: String,
    pub account_name: Option<String>,
}

#[derive(Clone, Debug, PartialEq, Eq)]
pub struct AccountDeleteResponse {
    pub result: String,
}

#[derive(Clone, Debug, PartialEq, Eq)]
pub struct MulticallNewResponse {
    pub path: String,
    pub content: String,
}

#[derive(Clone, Debug, PartialEq, Eq)]
pub struct ShowConfigResponse {
    pub profile: Option<String>,
    pub chain_id: Option<String>,
    pub rpc_url: Option<String>,
    pub account: Option<String>,
    pub accounts_file_path: Option<String>,
    pub keystore: Option<String>,
    pub wait_timeout: Option<Decimal>,
    pub wait_retry_interval: Option<Decimal>,
    pub show_explorer_links: bool,
    pub block_explorer: Option<String>,
}

#[derive(Clone, Debug, PartialEq, Eq)]
pub struct ScriptRunResponse {
    pub status: String,
    pub message: Option<String>,
}

#[derive(Clone, Debug, PartialEq, Eq)]
pub struct ScriptInitResponse {
    pub message: String,
}

/// A declaration, where there was one, and the deployment that followed it.
#[derive(Clone, Debug, PartialEq, Eq)]
pub struct DeclareDeployResponse {
    class_hash: Option<PaddedFelt>,
    declare_transaction_hash: Option<PaddedFelt>,
    contract_address: PaddedFelt,
    deploy_transaction_hash: PaddedFelt,
}

/// How far a transaction has been committed.
#[derive(Clone, Copy, Debug, PartialEq, Eq)]
pub enum FinalityStatus {
    Received,
    Rejected,
    AcceptedOnL2,
    AcceptedOnL1,
}

/// How the execution of a transaction ended.
#[derive(Clone, Copy, Debug, PartialEq, Eq)]
pub enum ExecutionStatus {
    Succeeded,
    Reverted,
}

/// The status of a transaction. It has no execution status while it has not
/// been executed.
#[derive(Clone, Copy, Debug, PartialEq, Eq)]
pub struct TransactionStatusResponse {
    pub finality_status: FinalityStatus,
    pub execution_status: Option<ExecutionStatus>,
}

#[derive(Clone, Debug, PartialEq, Eq)]
pub struct VerifyResponse {
    pub message: String,
}

impl DeclareResponse {
    /// The hash of the declared class.
    pub open spec fn spec_class_hash(&self) -> PaddedFelt {
        match self {
            DeclareResponse::AlreadyDeclared(response) => response.class_hash,
            DeclareResponse::Success(response) => response.class_hash,
        }
    }

    /// The hash of the declaring transaction, where one was sent.
    pub open spec fn spec_transaction_hash(&self) -> Option<PaddedFelt> {
        match self {
            DeclareResponse::AlreadyDeclared(_) => None,
            DeclareResponse::Success(response) => Some(response.transaction_hash),
        }
    }

    /// The hash of the declared class.
    #[verifier::when_used_as_spec(spec_class_hash)]
    pub fn class_hash(&self) -> (hash: PaddedFelt)
        ensures
            hash == self.spec_class_hash(),
    {
        match self {
            DeclareResponse::AlreadyDeclared(response) => response.class_hash,
            DeclareResponse::Success(response) => response.class_hash,
        }
    }

    /// The hash of the declaring transaction, where one was sent.
    #[verifier::when_used_as_spec(spec_transaction_hash)]
    pub fn transaction_hash(&self) -> (hash: Option<PaddedFelt>)
        ensures
            hash == self.spec_transaction_hash(),
    {
        match self {
            DeclareResponse::AlreadyDeclared(_) => None,
            DeclareResponse::Success(response) => Some(response.transaction_hash),
        }
    }
}

/// The class hash that a declaration, where there was one, gives to the response
/// of a declaration and deployment.
pub open spec fn declared_class_hash(declare: Option<DeclareResponse>) -> Option<PaddedFelt> {
    match declare {
        Some(declare) => Some(declare.spec_class_hash()),
        None => None,
    }
}

/// The transaction hash that a declaration, where there was one, gives to the
/// response of a declaration and deployment: that of the declaring transaction,
/// where one was sent.
pub open spec fn declared_transaction_hash(declare: Option<DeclareResponse>) -> Option<
    PaddedFelt,
> {
    match declare {
        Some(declare) => declare.spec_transaction_hash(),
        None => None,
    }
}

impl DeclareDeployResponse {
    pub closed spec fn spec_class_hash(&self) -> Option<PaddedFelt> {
        self.class_hash
    }

    pub closed spec fn spec_declare_transaction_hash(&self) -> Option<PaddedFelt> {
        self.declare_transaction_hash
    }

    pub closed spec fn spec_contract_address(&self) -> PaddedFelt {
        self.contract_address
    }

    pub closed spec fn spec_deploy_transaction_hash(&self) -> PaddedFelt {
        self.deploy_transaction_hash
    }

    /// Puts the outcome of a declaration, where there was one, and of the
    /// deployment side by side. A class that was declared before gives its class
    /// hash and no transaction hash.
    #[must_use]
    pub fn new(declare: &Option<DeclareResponse>, deploy: DeployResponse) -> (response: Self)
        ensures
            response.spec_class_hash() == declared_class_hash(*declare),
            response.spec_declare_transaction_hash() == declared_transaction_hash(*declare),
            response.spec_contract_address() == deploy.contract_address,
            response.spec_deploy_transaction_hash() == deploy.transaction_hash,
    {
        let class_hash = match declare {
            Some(declare) => Some(declare.class_hash()),
            None => None,
        };
        let declare_transaction_hash = match declare {
            Some(declare) => declare.transaction_hash(),
            None => None,
        };
        let DeployResponse { contract_address, transaction_hash: deploy_transaction_hash } = deploy;
        Self { class_hash, declare_transaction_hash, contract_address, deploy_transaction_hash }
    }

    /// The hash of the class, where a declaration was part of the command.
    #[verifier::when_used_as_spec(spec_class_hash)]
    pub fn class_hash(&self) -> (hash: Option<PaddedFelt>)
        ensures
            hash == self.spec_class_hash(),
    {
        self.class_hash
    }

    /// The hash of the declaring transaction, where one was sent.
    #[verifier::when_used_as_spec(spec_declare_transaction_hash)]
    pub fn declare_transaction_hash(&self) -> (hash: Option<PaddedFelt>)
        ensures
            hash == self.spec_declare_transaction_hash(),
    {
        self.declare_transaction_hash
    }

    /// The address of the deployed contract.
    #[verifier::when_used_as_spec(spec_contract_address)]
    pub fn contract_address(&self) -> (address: PaddedFelt)
        ensures
            address == self.spec_contract_address(),
    {
        self.contract_address
    }

    /// The hash of the deploying transaction.
    #[verifier::when_used_as_spec(spec_deploy_transaction_hash)]
    pub fn deploy_transaction_hash(&self) -> (hash: PaddedFelt)
        ensures
            hash == self.spec_deploy_transaction_hash(),
    {
        self.deploy_transaction_hash
    }
}

/// A class that was declared before gives its class hash and no transaction
/// hash.
pub proof fn lemma_already_declared_gives_class_hash_only(class_hash: PaddedFelt)
    ensures
        declared_class_hash(
            Some(DeclareResponse::AlreadyDeclared(AlreadyDeclaredResponse { class_hash })),
        ) == Some(class_hash),
        declared_transaction_hash(
            Some(DeclareResponse::AlreadyDeclared(AlreadyDeclaredResponse { class_hash })),
        ) is None,
{
}

/// A declaration that was sent gives both of its hashes.
pub proof fn lemma_declaration_gives_both_hashes(
    class_hash: PaddedFelt,
    transaction_hash: PaddedFelt,
)
    ensures
        declared_class_hash(
            Some(
                DeclareResponse::Success(
                    DeclareTransactionResponse { class_hash, transaction_hash },
                ),
            ),
        ) == Some(class_hash),
        declared_transaction_hash(
            Some(
                DeclareResponse::Success(
                    DeclareTransactionResponse { class_hash, transaction_hash },
                ),
            ),
        ) == Some(transaction_hash),
{
}

/// No declaration gives neither hash.
pub proof fn lemma_no_declaration_gives_no_hash()
    ensures
        declared_class_hash(None) is None,
        declared_transaction_hash(None) is None,
{
}

/// Whatever the declaration, there is a transaction hash only where there is a
/// class hash.
pub proof fn lemma_transaction_hash_only_with_class_hash(declare: Option<DeclareResponse>)
    ensures
        declared_transaction_hash(declare) is Some ==> declared_class_hash(declare) is Some,
{
}

} // verus!
