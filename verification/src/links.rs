//! Links to a block explorer for what a response refers to.
//!
//! A response names the things it refers to, in a fixed order: the class, the
//! contract, the declaring transaction, the deploying transaction. A block
//! explorer gives the link of each, and the links are written one per line.

use vstd::prelude::*;
use vstd::string::*;
use crate::felt::PaddedFelt;
use crate::response::{
    AccountCreateResponse,
    DeclareDeployResponse,
    DeclareTransactionResponse,
    DeployResponse,
    InvokeResponse,
};
use crate::text::{join, joined, texts};

verus! {

/// A block explorer: it gives the link under which it shows a transaction, a
/// class or a contract.
pub trait LinkProvider {
    fn transaction(&self, hash: PaddedFelt) -> String;

    fn class(&self, hash: PaddedFelt) -> String;

    fn contract(&self, address: PaddedFelt) -> String;
}

/// The kind of page that an explorer is asked for.
#[derive(Clone, Copy, Debug, PartialEq, Eq, Structural)]
pub enum Page {
    Class,
    Contract,
    Transaction,
}

/// One thing that a response refers to: the label of its line, the kind of
/// page that the explorer is asked for, and the hash or address to look up.
#[derive(Clone, Copy, Debug, PartialEq, Eq)]
pub struct LinkTarget {
    pub label: &'static str,
    pub page: Page,
    pub id: PaddedFelt,
}

/// What a target holds, with its label as a sequence of characters.
pub ghost struct LinkTargetView {
    pub label: Seq<char>,
    pub page: Page,
    pub id: PaddedFelt,
}

impl View for LinkTarget {
    type V = LinkTargetView;

    open spec fn view(&self) -> LinkTargetView {
        LinkTargetView { label: self.label@, page: self.page, id: self.id }
    }
}

/// What a vector of targets holds.
pub open spec fn target_views(targets: Seq<LinkTarget>) -> Seq<LinkTargetView> {
    Seq::new(targets.len(), |i: int| targets[i]@)
}

/// The one target of `id`, or none where there is no `id`.
pub open spec fn optional_target(label: Seq<char>, page: Page, id: Option<PaddedFelt>) -> Seq<
    LinkTargetView,
> {
    match id {
        Some(id) => seq![LinkTargetView { label, page, id }],
        None => Seq::empty(),
    }
}

/// A line: the label, a colon and a space, and the link.
pub open spec fn link_line(label: Seq<char>, link: Seq<char>) -> Seq<char> {
    label + seq![':', ' '] + link
}

/// The lines of the targets, each with the link at its place in `links`.
pub open spec fn link_lines(targets: Seq<LinkTargetView>, links: Seq<Seq<char>>) -> Seq<
    Seq<char>,
> {
    Seq::new(targets.len(), |i: int| link_line(targets[i].label, links[i]))
}

/// The text of the targets' lines, with a line feed between each two of them
/// and none at the end.
pub open spec fn links_text(targets: Seq<LinkTargetView>, links: Seq<Seq<char>>) -> Seq<char> {
    joined(link_lines(targets, links), seq!['\n'])
}

/// Writes one line.
pub fn format_line(label: &str, link: &str) -> (line: String)
    ensures
        line@ == link_line(label@, link@),
{
    proof {
        reveal_strlit(": ");
    }
    let mut line = String::from_str(label);
    line.append(": ");
    line.append(link);
    line
}

/// Writes the lines of the targets, each with the link at its place in `links`.
/// Targets and links are paired as far as both reach.
pub fn format_lines(targets: &Vec<LinkTarget>, links: &Vec<String>) -> (text: String)
    ensures
        links@.len() >= targets@.len() ==> text@ == links_text(
            target_views(targets@),
            texts(links@),
        ),
        links@.len() < targets@.len() ==> text@ == links_text(
            target_views(targets@.take(links@.len() as int)),
            texts(links@),
        ),
{
    let count: usize = if links.len() < targets.len() {
        links.len()
    } else {
        targets.len()
    };
    let ghost paired = target_views(targets@.take(count as int));
    let mut lines: Vec<String> = Vec::new();
    let mut i: usize = 0;
    while i < count
        invariant
            i <= count,
            count <= targets@.len(),
            count <= links@.len(),
            lines@.len() == i,
            forall|j: int|
                0 <= j < i ==> (#[trigger] lines@[j])@ == link_line(
                    targets@[j].label@,
                    links@[j]@,
                ),
        decreases count - i,
    {
        lines.push(format_line(targets[i].label, links[i].as_str()));
        i += 1;
    }
    proof {
        reveal_strlit("\n");
        assert("\n"@ =~= seq!['\n']);
        assert(texts(lines@) =~= link_lines(paired, texts(links@)));
        if links@.len() >= targets@.len() {
            assert(targets@.take(count as int) =~= targets@);
        }
    }
    join(&lines, "\n")
}

/// Asks the explorer for the link of one target.
fn link_of<P: LinkProvider + ?Sized>(target: &LinkTarget, provider: &P) -> (link: String)
    ensures
        answers(provider, target@, link),
{
    match target.page {
        Page::Class => provider.class(target.id),
        Page::Contract => provider.contract(target.id),
        Page::Transaction => provider.transaction(target.id),
    }
}

/// Whether `link` is an answer of the explorer to the question that `target`
/// asks: for the page of its kind, for its hash or address.
pub open spec fn answers<P: LinkProvider + ?Sized>(
    provider: &P,
    target: LinkTargetView,
    link: String,
) -> bool {
    match target.page {
        Page::Class => call_ensures(P::class, (provider, target.id), link),
        Page::Contract => call_ensures(P::contract, (provider, target.id), link),
        Page::Transaction => call_ensures(P::transaction, (provider, target.id), link),
    }
}

/// Whether `links` are answers of the explorer for `targets`, one for each in
/// order.
pub open spec fn answers_all<P: LinkProvider + ?Sized>(
    provider: &P,
    targets: Seq<LinkTargetView>,
    links: Seq<String>,
) -> bool {
    &&& links.len() == targets.len()
    &&& forall|i: int| 0 <= i < targets.len() ==> answers(provider, targets[i], #[trigger] links[i])
}

/// Asks the explorer for the link of each target, in order, and writes the
/// lines: the text is that of the targets' lines with the explorer's answers as
/// the links.
pub fn format_targets<P: LinkProvider + ?Sized>(targets: &Vec<LinkTarget>, provider: &P) -> (text: String)
    ensures
        exists|links: Seq<String>|
            #![trigger answers_all(provider, target_views(targets@), links)]
            answers_all(provider, target_views(targets@), links) && text@ == links_text(
                target_views(targets@),
                texts(links),
            ),
{
    let mut links: Vec<String> = Vec::new();
    let mut i: usize = 0;
    while i < targets.len()
        invariant
            i <= targets@.len(),
            links@.len() == i,
            forall|j: int| 0 <= j < i ==> answers(provider, targets@[j]@, #[trigger] links@[j]),
        decreases targets@.len() - i,
    {
        links.push(link_of(&targets[i], provider));
        i += 1;
    }
    assert(answers_all(provider, target_views(targets@), links@));
    format_lines(targets, &links)
}

/// A response that refers to things a block explorer can show.
pub trait OutputLink {
    /// What the response is called where its links are shown.
    const TITLE: &'static str;

    /// The things that the response refers to, in the order of their lines.
    spec fn targets(&self) -> Seq<LinkTargetView>;

    /// The things that the response refers to, in the order of their lines.
    fn link_targets(&self) -> (targets: Vec<LinkTarget>)
        ensures
            target_views(targets@) == self.targets(),
    ;

    /// The links of the response at the given explorer, one per line: the
    /// text of the targets' lines with the explorer's answers as the links.
    fn format_links<P: LinkProvider + ?Sized>(&self, provider: &P) -> (text: String)
        ensures
            exists|links: Seq<String>|
                #![trigger answers_all(provider, self.targets(), links)]
                answers_all(provider, self.targets(), links) && text@ == links_text(
                    self.targets(),
                    texts(links),
                ),
    ;
}

impl OutputLink for InvokeResponse {
    const TITLE: &'static str = "invocation";

    open spec fn targets(&self) -> Seq<LinkTargetView> {
        seq![
            LinkTargetView {
                label: "transaction"@,
                page: Page::Transaction,
                id: self.transaction_hash,
            },
        ]
    }

    fn link_targets(&self) -> (targets: Vec<LinkTarget>) {
        let mut targets: Vec<LinkTarget> = Vec::new();
        targets.push(
            LinkTarget { label: "transaction", page: Page::Transaction, id: self.transaction_hash },
        );
        targets
    }

    fn format_links<P: LinkProvider + ?Sized>(&self, provider: &P) -> (text: String) {
        format_targets(&self.link_targets(), provider)
    }
}

impl OutputLink for DeployResponse {
    const TITLE: &'static str = "deployment";

    open spec fn targets(&self) -> Seq<LinkTargetView> {
        seq![
            LinkTargetView { label: "contract"@, page: Page::Contract, id: self.contract_address },
            LinkTargetView {
                label: "transaction"@,
                page: Page::Transaction,
                id: self.transaction_hash,
            },
        ]
    }

    fn link_targets(&self) -> (targets: Vec<LinkTarget>) {
        let mut targets: Vec<LinkTarget> = Vec::new();
        targets.push(
            LinkTarget { label: "contract", page: Page::Contract, id: self.contract_address },
        );
        targets.push(
            LinkTarget { label: "transaction", page: Page::Transaction, id: self.transaction_hash },
        );
        targets
    }

    fn format_links<P: LinkProvider + ?Sized>(&self, provider: &P) -> (text: String) {
        format_targets(&self.link_targets(), provider)
    }
}

impl OutputLink for DeclareTransactionResponse {
    const TITLE: &'static str = "declaration";

    open spec fn targets(&self) -> Seq<LinkTargetView> {
        seq![
            LinkTargetView { label: "class"@, page: Page::Class, id: self.class_hash },
            LinkTargetView {
                label: "transaction"@,
                page: Page::Transaction,
                id: self.transaction_hash,
            },
        ]
    }

    fn link_targets(&self) -> (targets: Vec<LinkTarget>) {
        let mut targets: Vec<LinkTarget> = Vec::new();
        targets.push(LinkTarget { label: "class", page: Page::Class, id: self.class_hash });
        targets.push(
            LinkTarget { label: "transaction", page: Page::Transaction, id: self.transaction_hash },
        );
        targets
    }

    fn format_links<P: LinkProvider + ?Sized>(&self, provider: &P) -> (text: String) {
        format_targets(&self.link_targets(), provider)
    }
}

impl OutputLink for DeclareDeployResponse {
    const TITLE: &'static str = "declaration and deployment";

    /// The class and the declaring transaction have a line only where the
    /// response holds them.
    open spec fn targets(&self) -> Seq<LinkTargetView> {
        optional_target("class"@, Page::Class, self.class_hash()) + seq![
            LinkTargetView {
                label: "contract"@,
                page: Page::Contract,
                id: self.contract_address(),
            },
        ] + optional_target(
            "declaration transaction"@,
            Page::Transaction,
            self.declare_transaction_hash(),
        ) + seq![
            LinkTargetView {
                label: "deployment transaction"@,
                page: Page::Transaction,
                id: self.deploy_transaction_hash(),
            },
        ]
    }

    fn link_targets(&self) -> (targets: Vec<LinkTarget>) {
        let mut targets: Vec<LinkTarget> = Vec::new();
        if let Some(class_hash) = self.class_hash() {
            targets.push(LinkTarget { label: "class", page: Page::Class, id: class_hash });
        }
        targets.push(
            LinkTarget { label: "contract", page: Page::Contract, id: self.contract_address() },
        );
        if let Some(transaction_hash) = self.declare_transaction_hash() {
            targets.push(
                LinkTarget {
                    label: "declaration transaction",
                    page: Page::Transaction,
                    id: transaction_hash,
                },
            );
        }
        targets.push(
            LinkTarget {
                label: "deployment transaction",
                page: Page::Transaction,
                id: self.deploy_transaction_hash(),
            },
        );
        targets
    }

    fn format_links<P: LinkProvider + ?Sized>(&self, provider: &P) -> (text: String) {
        format_targets(&self.link_targets(), provider)
    }
}

impl OutputLink for AccountCreateResponse {
    const TITLE: &'static str = "account creation";

    open spec fn targets(&self) -> Seq<LinkTargetView> {
        seq![LinkTargetView { label: "account"@, page: Page::Contract, id: self.address }]
    }

    fn link_targets(&self) -> (targets: Vec<LinkTarget>) {
        let mut targets: Vec<LinkTarget> = Vec::new();
        targets.push(LinkTarget { label: "account", page: Page::Contract, id: self.address });
        targets
    }

    fn format_links<P: LinkProvider + ?Sized>(&self, provider: &P) -> (text: String) {
        format_targets(&self.link_targets(), provider)
    }
}

/// The links of a deployment are two lines: the contract's, then the
/// transaction's.
pub proof fn lemma_deploy_links_are_two_lines(
    response: DeployResponse,
    contract: Seq<char>,
    transaction: Seq<char>,
)
    ensures
        response.targets().len() == 2,
        links_text(response.targets(), seq![contract, transaction]) == link_line(
            "contract"@,
            contract,
        ) + seq!['\n'] + link_line("transaction"@, transaction),
{
    reveal_with_fuel(joined, 3);
}

/// Where a response of a declaration and deployment holds neither a class hash
/// nor a declaring transaction, its links are two lines: the contract's, then
/// the deploying transaction's.
pub proof fn lemma_links_without_declaration(
    response: DeclareDeployResponse,
    contract: Seq<char>,
    transaction: Seq<char>,
)
    requires
        response.class_hash() is None,
        response.declare_transaction_hash() is None,
    ensures
        response.targets().len() == 2,
        response.targets()[0].id == response.contract_address(),
        response.targets()[1].id == response.deploy_transaction_hash(),
        links_text(response.targets(), seq![contract, transaction]) == link_line(
            "contract"@,
            contract,
        ) + seq!['\n'] + link_line("deployment transaction"@, transaction),
{
    reveal_with_fuel(joined, 3);
}

/// Where a response of a declaration and deployment holds both a class hash
/// and a declaring transaction, its links are four lines: the class on the
/// explorer's class page, the contract on its contract page, and the declaring
/// and the deploying transaction on its transaction page.
pub proof fn lemma_links_with_declaration(
    response: DeclareDeployResponse,
    class: Seq<char>,
    contract: Seq<char>,
    declaration: Seq<char>,
    deployment: Seq<char>,
)
    requires
        response.class_hash() is Some,
        response.declare_transaction_hash() is Some,
    ensures
        response.targets().len() == 4,
        response.targets()[0].page == Page::Class,
        response.targets()[0].id == response.class_hash()->0,
        response.targets()[1].page == Page::Contract,
        response.targets()[1].id == response.contract_address(),
        response.targets()[2].page == Page::Transaction,
        response.targets()[2].id == response.declare_transaction_hash()->0,
        response.targets()[3].page == Page::Transaction,
        response.targets()[3].id == response.deploy_transaction_hash(),
        links_text(response.targets(), seq![class, contract, declaration, deployment])
            == link_line("class"@, class) + seq!['\n'] + link_line("contract"@, contract) + seq![
            '\n',
        ] + link_line("declaration transaction"@, declaration) + seq!['\n'] + link_line(
            "deployment transaction"@,
            deployment,
        ),
{
    reveal_with_fuel(joined, 5);
}

/// A response of a declaration and deployment has a line for the class exactly
/// where it holds a class hash, and one for the declaring transaction exactly
/// where it holds that transaction's hash; the contract and the deploying
/// transaction always have theirs.
pub proof fn lemma_declare_deploy_targets(response: DeclareDeployResponse)
    ensures
        response.targets().len() == 2 + (if response.class_hash() is Some {
            1int
        } else {
            0int
        }) + (if response.declare_transaction_hash() is Some {
            1int
        } else {
            0int
        }),
{
}

} // verus!
