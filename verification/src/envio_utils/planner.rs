//! Planning the answer to a prompt.
//!
//! The planner maps the prompt, the cursor and the contract list to an action. It never
//! touches the terminal or the cursor: it returns what to send, and how the cursor is
//! to move once that has been sent.

use vstd::prelude::*;
use vstd::string::*;

verus! {

use super::config::ContractConfig;
use super::prompt::{PromptKind, PromptView};
use crate::decimal::{parse_u64, parse_unsigned};
use crate::network::definitions::{network_row, row_parts};
use crate::network::{find_network, is_supported, row_index};
use crate::text::{
    chars_of,
    has_prefix,
    lowercase_of,
    position,
    position_of,
    push_chars,
    push_str_chars,
    replace_char,
    replaced,
    starts_with_str,
    string_of,
    texts,
    to_lowercase,
};

/// The position of an import run: which contract, and which of its deployments, the
/// wizard is being told about.
#[derive(Debug, Clone, Copy, PartialEq, Eq, Structural)]
pub struct Cursor {
    pub contract_index: usize,
    pub deployment_index: usize,
}

/// A key of the terminal.
#[derive(Debug, Clone, Copy, PartialEq, Eq, Structural)]
pub enum Key {
    /// Moves a menu's selection one entry down.
    Down,
    /// Accepts the current input or selection.
    Enter,
}

/// What to send to the wizard.
#[derive(Debug, Clone, PartialEq, Eq)]
pub enum Action {
    /// Type the text, then accept it with Enter.
    TypeText(String),
    /// Accept the default with Enter.
    PressEnter,
    /// Press the keys, in order.
    PressKeys(Vec<Key>),
    /// Stop answering: the wizard is done, successfully or not.
    Finish(bool),
}

/// An action as a mathematical value.
pub enum ActionView {
    TypeText(Seq<char>),
    PressEnter,
    PressKeys(Seq<Key>),
    Finish(bool),
}

impl View for Action {
    type V = ActionView;

    open spec fn view(&self) -> ActionView {
        match self {
            Action::TypeText(text) => ActionView::TypeText(text@),
            Action::PressEnter => ActionView::PressEnter,
            Action::PressKeys(keys) => ActionView::PressKeys(keys@),
            Action::Finish(success) => ActionView::Finish(*success),
        }
    }
}

/// How the cursor moves once an action has been sent.
#[derive(Debug, Clone, Copy, PartialEq, Eq, Structural)]
pub enum CursorAdvance {
    /// To the next deployment of the same contract.
    NextDeployment,
    /// To the first deployment of the next contract.
    NextContract,
}

/// An action together with the cursor movement that goes with it.
#[derive(Debug, Clone, PartialEq, Eq)]
pub struct Plan {
    pub action: Action,
    pub advance: Option<CursorAdvance>,
}

/// A plan as a mathematical value.
pub struct PlanView {
    pub action: ActionView,
    pub advance: Option<CursorAdvance>,
}

impl View for Plan {
    type V = PlanView;

    open spec fn view(&self) -> PlanView {
        PlanView { action: self.action@, advance: self.advance }
    }
}

/// The cursor points at a deployment of a contract of the list.
pub open spec fn cursor_in_range(cursor: Cursor, contracts: Seq<ContractConfig>) -> bool {
    &&& cursor.contract_index < contracts.len()
    &&& cursor.deployment_index < contracts[cursor.contract_index as int].deployments@.len()
}

/// The cursor after the movement `advance`.
pub open spec fn advance_cursor(cursor: Cursor, advance: Option<CursorAdvance>) -> Cursor {
    match advance {
        None => cursor,
        Some(CursorAdvance::NextDeployment) => Cursor {
            contract_index: cursor.contract_index,
            deployment_index: (cursor.deployment_index + 1) as usize,
        },
        Some(CursorAdvance::NextContract) => Cursor {
            contract_index: (cursor.contract_index + 1) as usize,
            deployment_index: 0,
        },
    }
}

/// An address in the form the wizard expects: with the prefix `0x`, which is added
/// unless the address already has it.
pub open spec fn normalize_address(address: Seq<char>) -> Seq<char> {
    if has_prefix(address, "0x"@) {
        address
    } else {
        "0x"@ + address
    }
}

/// Where the ABI file of the contract called `name` lies, relative to the working
/// directory.
pub open spec fn abi_path(name: Seq<char>) -> Seq<char> {
    "./abis/"@ + name + "_abi.json"@
}

/// The keys that select the menu entry `offset` places below the default: that many
/// times Down, then Enter.
pub open spec fn menu_keys(offset: nat) -> Seq<Key> {
    Seq::new(offset, |i: int| Key::Down).push(Key::Enter)
}

/// The action that selects the menu entry `offset` places below the default. The
/// default itself is accepted with a plain Enter.
pub open spec fn menu_choice(offset: nat) -> ActionView {
    if offset == 0 {
        ActionView::PressEnter
    } else {
        ActionView::PressKeys(menu_keys(offset))
    }
}

/// The cursor movement that follows the deployment under the cursor: to the next
/// deployment of the contract if it has one, else to the next contract if there is one,
/// else none.
pub open spec fn next_step(cursor: Cursor, contracts: Seq<ContractConfig>) -> Option<
    CursorAdvance,
> {
    if cursor.deployment_index + 1 < contracts[cursor.contract_index as int].deployments@.len() {
        Some(CursorAdvance::NextDeployment)
    } else if cursor.contract_index + 1 < contracts.len() {
        Some(CursorAdvance::NextContract)
    } else {
        None
    }
}

/// The entry of the "add another contract" menu to select, as an offset from the
/// default. It is decided by what comes after the deployment under the cursor: one for
/// a further deployment on the same network, two for a further deployment on another
/// network, three for a further contract, zero when nothing is left.
pub open spec fn add_another_offset(cursor: Cursor, contracts: Seq<ContractConfig>) -> nat {
    let deployments = contracts[cursor.contract_index as int].deployments@;
    match next_step(cursor, contracts) {
        Some(CursorAdvance::NextDeployment) => if deployments[cursor.deployment_index
            + 1].network_id@ == deployments[cursor.deployment_index as int].network_id@ {
            1
        } else {
            2
        },
        Some(CursorAdvance::NextContract) => 3,
        None => 0,
    }
}

/// The chain id that a network identifier stands for in the chain menu: its value if it
/// is a numeral, else zero.
pub open spec fn menu_chain_id(network_id: Seq<char>) -> u64 {
    match parse_unsigned(network_id, u64::MAX as nat) {
        Some(n) => n as u64,
        None => 0,
    }
}

/// The name under which the chain menu lists a network with the display name `name`:
/// in lowercase, with a hyphen for each space.
pub open spec fn menu_name(name: Seq<char>) -> Seq<char> {
    replace_char(lowercase_of(name), ' ', "-"@)
}

/// The offset of a network in the chain menu `chains`, if the network is supported and
/// the menu lists it.
pub open spec fn chain_offset(network_id: Seq<char>, chains: Seq<Seq<char>>) -> Option<nat> {
    let id = menu_chain_id(network_id);
    if !is_supported(id) {
        None
    } else {
        let at = position(chains, menu_name(network_row(row_index(id)).name));
        if at < chains.len() {
            Some(at as nat)
        } else {
            None
        }
    }
}

/// The plan for a prompt of kind `kind` with the cursor at `cursor`.
pub open spec fn plan_for(
    kind: PromptView,
    cursor: Cursor,
    contracts: Seq<ContractConfig>,
    chains: Seq<Seq<char>>,
) -> PlanView {
    let contract = contracts[cursor.contract_index as int];
    let deployment = contract.deployments@[cursor.deployment_index as int];
    let stay = |action: ActionView| PlanView { action, advance: None };
    if !cursor_in_range(cursor, contracts) {
        stay(ActionView::Finish(false))
    } else {
        match kind {
            PromptView::AskFolderName => stay(ActionView::TypeText("."@)),
            PromptView::AskLanguage => stay(ActionView::PressEnter),
            PromptView::AskEcosystem => stay(ActionView::PressEnter),
            PromptView::AskEventSelection => stay(ActionView::PressEnter),
            PromptView::AskAbiPath => stay(ActionView::TypeText(abi_path(contract.name@))),
            PromptView::AskImportSource => if contract.source is Abi {
                stay(menu_choice(1))
            } else {
                stay(menu_choice(0))
            },
            PromptView::AskBlockchainFromList => match chain_offset(
                deployment.network_id@,
                chains,
            ) {
                Some(offset) => stay(menu_choice(offset)),
                None => stay(ActionView::Finish(false)),
            },
            PromptView::AskNetworkChoiceGeneric => stay(ActionView::PressEnter),
            PromptView::AskNetworkId => stay(ActionView::TypeText(deployment.network_id@)),
            PromptView::AskContractName => stay(ActionView::TypeText(contract.name@)),
            PromptView::AskContractAddress => stay(
                ActionView::TypeText(normalize_address(deployment.address@)),
            ),
            PromptView::AskAddAnotherContract => PlanView {
                action: menu_choice(add_another_offset(cursor, contracts)),
                advance: next_step(cursor, contracts),
            },
            PromptView::AskApiToken => stay(menu_choice(2)),
            PromptView::TemplateReady => stay(ActionView::Finish(true)),
            PromptView::FinalDone => stay(ActionView::Finish(true)),
            PromptView::Unrecognized(_) => stay(ActionView::PressEnter),
        }
    }
}

impl Cursor {
    /// The cursor at the first deployment of the first contract.
    pub fn start() -> (r: Cursor)
        ensures
            r == (Cursor { contract_index: 0, deployment_index: 0 }),
    {
        Cursor { contract_index: 0, deployment_index: 0 }
    }

    /// Whether the cursor points at a deployment of a contract of the list.
    pub fn in_range(&self, contracts: &Vec<ContractConfig>) -> (r: bool)
        ensures
            r == cursor_in_range(*self, contracts@),
    {
        self.contract_index < contracts.len() && self.deployment_index
            < contracts[self.contract_index].deployments.len()
    }

    /// The cursor after the movement `advance`.
    pub fn advanced(&self, advance: Option<CursorAdvance>) -> (r: Cursor)
        requires
            self.contract_index < usize::MAX,
            self.deployment_index < usize::MAX,
        ensures
            r == advance_cursor(*self, advance),
    {
        match advance {
            None => *self,
            Some(CursorAdvance::NextDeployment) => Cursor {
                contract_index: self.contract_index,
                deployment_index: self.deployment_index + 1,
            },
            Some(CursorAdvance::NextContract) => Cursor {
                contract_index: self.contract_index + 1,
                deployment_index: 0,
            },
        }
    }
}

/// The address in the form the wizard expects.
pub fn normalized_address(address: &str) -> (r: String)
    ensures
        r@ == normalize_address(address@),
{
    let a = chars_of(address);
    if starts_with_str(&a, "0x") {
        string_of(&a)
    } else {
        let mut out = chars_of("0x");
        push_chars(&mut out, &a);
        string_of(&out)
    }
}

/// The action that selects the menu entry `offset` places below the default.
pub fn choose_entry(offset: usize) -> (r: Action)
    ensures
        r@ == menu_choice(offset as nat),
{
    if offset == 0 {
        Action::PressEnter
    } else {
        let mut keys: Vec<Key> = Vec::new();
        let mut i: usize = 0;
        while i < offset
            invariant
                i <= offset,
                keys@ == Seq::new(i as nat, |k: int| Key::Down),
            decreases offset - i,
        {
            keys.push(Key::Down);
            assert(keys@ =~= Seq::new((i + 1) as nat, |k: int| Key::Down));
            i += 1;
        }
        keys.push(Key::Enter);
        Action::PressKeys(keys)
    }
}

/// The offset in the chain menu `chains` of the network whose display name has the
/// lowercase form `folded_name`.
pub fn chain_menu_offset(folded_name: &str, chains: &Vec<String>) -> (r: Option<usize>)
    ensures
        match r {
            Some(at) => at < chains@.len() && at == position(
                texts(chains@),
                replace_char(folded_name@, ' ', "-"@),
            ),
            None => position(texts(chains@), replace_char(folded_name@, ' ', "-"@))
                == chains@.len(),
        },
{
    let name = chars_of(folded_name);
    let hyphen = chars_of("-");
    let listed = string_of(&replaced(&name, ' ', &hyphen));
    position_of(chains, listed.as_str())
}

/// The chain menu that lists the supported networks in table order, each under its menu
/// name.
pub open spec fn network_menu() -> Seq<Seq<char>> {
    Seq::new(
        crate::network::NETWORK_COUNT as nat,
        |i: int| menu_name(network_row(i).name),
    )
}

/// The chain menu that lists the supported networks in table order.
pub fn network_chain_list() -> (chains: Vec<String>)
    ensures
        texts(chains@) == network_menu(),
{
    let hyphen = chars_of("-");
    let mut chains: Vec<String> = Vec::new();
    let mut i: usize = 0;
    while i < crate::network::NETWORK_COUNT
        invariant
            i <= crate::network::NETWORK_COUNT,
            hyphen@ == "-"@,
            chains@.len() == i,
            forall|k: int| 0 <= k < i ==> (#[trigger] chains@[k])@ == network_menu()[k],
        decreases crate::network::NETWORK_COUNT - i,
    {
        let (_id, name, _host, _traces) = row_parts(i);
        let folded = to_lowercase(name);
        let listed = replaced(&chars_of(folded.as_str()), ' ', &hyphen);
        chains.push(string_of(&listed));
        i += 1;
    }
    assert(texts(chains@) =~= network_menu());
    chains
}

/// The offset in the chain menu `chains` of the network that `network_id` names.
pub fn find_chain(network_id: &str, chains: &Vec<String>) -> (r: Option<usize>)
    ensures
        r is Some <==> chain_offset(network_id@, texts(chains@)) is Some,
        r is Some ==> r->0 == chain_offset(network_id@, texts(chains@))->0,
{
    let id = match parse_u64(network_id) {
        Some(n) => n,
        None => 0,
    };
    match find_network(id) {
        None => None,
        Some(row) => {
            let (_id, name, _host, _traces) = row_parts(row);
            let folded = to_lowercase(name);
            chain_menu_offset(folded.as_str(), chains)
        },
    }
}

/// Plans the answer to a prompt of kind `kind` with the cursor at `cursor`.
///
/// `chains` is the wizard's chain menu, in the order in which the wizard lists it.
pub fn plan(
    kind: &PromptKind,
    cursor: Cursor,
    contracts: &Vec<ContractConfig>,
    chains: &Vec<String>,
) -> (r: Plan)
    ensures
        r@ == plan_for(kind@, cursor, contracts@, texts(chains@)),
{
    if !cursor.in_range(contracts) {
        return Plan { action: Action::Finish(false), advance: None };
    }
    let contract = &contracts[cursor.contract_index];
    let deployment = &contract.deployments[cursor.deployment_index];
    match kind {
        PromptKind::AskFolderName => Plan {
            action: Action::TypeText(String::from_str(".")),
            advance: None,
        },
        PromptKind::AskLanguage => Plan { action: Action::PressEnter, advance: None },
        PromptKind::AskEcosystem => Plan { action: Action::PressEnter, advance: None },
        PromptKind::AskEventSelection => Plan { action: Action::PressEnter, advance: None },
        PromptKind::AskAbiPath => {
            let mut path = chars_of("./abis/");
            push_str_chars(&mut path, contract.name.as_str());
            push_str_chars(&mut path, "_abi.json");
            Plan { action: Action::TypeText(string_of(&path)), advance: None }
        },
        PromptKind::AskImportSource => {
            if contract.source.is_abi() {
                Plan { action: choose_entry(1), advance: None }
            } else {
                Plan { action: choose_entry(0), advance: None }
            }
        },
        PromptKind::AskBlockchainFromList => {
            match find_chain(deployment.network_id.as_str(), chains) {
                Some(offset) => Plan { action: choose_entry(offset), advance: None },
                None => Plan { action: Action::Finish(false), advance: None },
            }
        },
        PromptKind::AskNetworkChoiceGeneric => Plan { action: Action::PressEnter, advance: None },
        PromptKind::AskNetworkId => Plan {
            action: Action::TypeText(deployment.network_id.clone()),
            advance: None,
        },
        PromptKind::AskContractName => Plan {
            action: Action::TypeText(contract.name.clone()),
            advance: None,
        },
        PromptKind::AskContractAddress => Plan {
            action: Action::TypeText(normalized_address(deployment.address.as_str())),
            advance: None,
        },
        PromptKind::AskAddAnotherContract => {
            if cursor.deployment_index < contract.deployments.len() - 1 {
                let next = &contract.deployments[cursor.deployment_index + 1];
                let here = chars_of(deployment.network_id.as_str());
                let there = chars_of(next.network_id.as_str());
                let offset: usize = if crate::text::same_chars(&here, &there) {
                    1
                } else {
                    2
                };
                Plan {
                    action: choose_entry(offset),
                    advance: Some(CursorAdvance::NextDeployment),
                }
            } else if cursor.contract_index < contracts.len() - 1 {
                Plan { action: choose_entry(3), advance: Some(CursorAdvance::NextContract) }
            } else {
                Plan { action: choose_entry(0), advance: None }
            }
        },
        PromptKind::AskApiToken => Plan { action: choose_entry(2), advance: None },
        PromptKind::TemplateReady => Plan { action: Action::Finish(true), advance: None },
        PromptKind::FinalDone => Plan { action: Action::Finish(true), advance: None },
        PromptKind::Unrecognized(_) => Plan { action: Action::PressEnter, advance: None },
    }
}

// ---------------------------------------------------------------------------
// Laws
// ---------------------------------------------------------------------------

/// The answer to "add another contract" is decided by what follows the deployment under
/// the cursor, and the cursor moves there: one Down for a further deployment on the same
/// network, two for a further deployment on another network, three for a further
/// contract, and a plain Enter without movement when nothing is left.
pub proof fn law_add_another_contract(
    cursor: Cursor,
    contracts: Seq<ContractConfig>,
    chains: Seq<Seq<char>>,
)
    requires
        cursor_in_range(cursor, contracts),
    ensures
        ({
            let plan = plan_for(PromptView::AskAddAnotherContract, cursor, contracts, chains);
            let deployments = contracts[cursor.contract_index as int].deployments@;
            let here = cursor.deployment_index as int;
            if here + 1 < deployments.len() {
                &&& plan.advance == Some(CursorAdvance::NextDeployment)
                &&& deployments[here + 1].network_id@ == deployments[here].network_id@
                    ==> plan.action == ActionView::PressKeys(seq![Key::Down, Key::Enter])
                &&& deployments[here + 1].network_id@ != deployments[here].network_id@
                    ==> plan.action == ActionView::PressKeys(
                    seq![Key::Down, Key::Down, Key::Enter],
                )
            } else if cursor.contract_index + 1 < contracts.len() {
                &&& plan.advance == Some(CursorAdvance::NextContract)
                &&& plan.action == ActionView::PressKeys(
                    seq![Key::Down, Key::Down, Key::Down, Key::Enter],
                )
            } else {
                &&& plan.advance is None
                &&& plan.action == ActionView::PressEnter
            }
        }),
{
    assert(menu_keys(1) =~= seq![Key::Down, Key::Enter]);
    assert(menu_keys(2) =~= seq![Key::Down, Key::Down, Key::Enter]);
    assert(menu_keys(3) =~= seq![Key::Down, Key::Down, Key::Down, Key::Enter]);
}

/// The cursor moves only when the wizard asks whether to add another contract.
pub proof fn law_only_add_another_moves_the_cursor(
    kind: PromptView,
    cursor: Cursor,
    contracts: Seq<ContractConfig>,
    chains: Seq<Seq<char>>,
)
    requires
        kind != PromptView::AskAddAnotherContract,
    ensures
        plan_for(kind, cursor, contracts, chains).advance is None,
{
}

/// Where every contract has a deployment, a cursor in range is still in range after the
/// movement that a plan asks for.
pub proof fn law_plan_keeps_cursor_in_range(
    kind: PromptView,
    cursor: Cursor,
    contracts: Seq<ContractConfig>,
    chains: Seq<Seq<char>>,
)
    requires
        cursor_in_range(cursor, contracts),
        super::config::all_deployed(contracts),
    ensures
        cursor_in_range(
            advance_cursor(cursor, plan_for(kind, cursor, contracts, chains).advance),
            contracts,
        ),
{
    if cursor.contract_index + 1 < contracts.len() {
        assert(contracts[cursor.contract_index + 1].deployments@.len() > 0);
    }
}

/// Normalizing an address twice gives the same as normalizing it once.
pub proof fn law_normalize_is_idempotent(address: Seq<char>)
    ensures
        normalize_address(normalize_address(address)) == normalize_address(address),
{
    let prefix = "0x"@;
    assert((prefix + address).subrange(0, prefix.len() as int) =~= prefix);
}

/// An address without the prefix and the same address with the prefix are normalized to
/// the same text.
pub proof fn law_normalize_ignores_the_prefix(address: Seq<char>)
    requires
        !has_prefix(address, "0x"@),
    ensures
        normalize_address("0x"@ + address) == normalize_address(address),
{
    let prefix = "0x"@;
    assert((prefix + address).subrange(0, prefix.len() as int) =~= prefix);
}

} // verus!
