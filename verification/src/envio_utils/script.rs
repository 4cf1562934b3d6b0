//! The sequence of prompts of a wizard, and what a run makes of it.
//!
//! A scripted run is a run against a terminal that prints a wizard's prompts in order.
//! The laws of this module say that such a run succeeds and that its cursor steps through
//! every deployment of every contract once, in list order. They hold of every orderly
//! wizard: one that asks about the deployments in list order and, after each of them,
//! whether to add another contract. The wizard as it is known is one of them.

use vstd::prelude::*;

verus! {

use super::config::{all_deployed, ContractConfig};
use super::driver::{
    failed,
    initial_state,
    joined,
    on_prompt,
    step_model,
    DriverView,
    ErrorKind,
    EventView,
    ExitOutcome,
    Phase,
};
use super::planner::{advance_cursor, cursor_in_range, next_step, Cursor, CursorAdvance};
use super::prompt::{classify_window, PromptView, SignatureView};

// ---------------------------------------------------------------------------
// Positions
// ---------------------------------------------------------------------------

/// The positions of the contract at index `i`, which has `count` deployments, in order.
pub open spec fn contract_positions(i: int, count: int) -> Seq<Cursor> {
    Seq::new(
        count as nat,
        |j: int| Cursor { contract_index: i as usize, deployment_index: j as usize },
    )
}

/// The positions of the contracts from index `i` on: contract by contract, and within a
/// contract deployment by deployment.
pub open spec fn positions_after(contracts: Seq<ContractConfig>, i: int) -> Seq<Cursor>
    decreases contracts.len() - i,
{
    if i < 0 || i >= contracts.len() {
        Seq::empty()
    } else {
        contract_positions(i, contracts[i].deployments@.len() as int) + positions_after(
            contracts,
            i + 1,
        )
    }
}

/// Every position of the contract list, in list order.
pub open spec fn all_positions(contracts: Seq<ContractConfig>) -> Seq<Cursor> {
    positions_after(contracts, 0)
}

/// The contract list and every list of deployments are short enough to be indexed.
pub open spec fn countable(contracts: Seq<ContractConfig>) -> bool {
    &&& contracts.len() <= usize::MAX
    &&& forall|i: int|
        0 <= i < contracts.len() ==> (#[trigger] contracts[i]).deployments@.len() <= usize::MAX
}

/// The positions that the cursor takes from `cursor` on when it follows the planner's
/// movements to the end.
pub open spec fn positions_from(cursor: Cursor, contracts: Seq<ContractConfig>) -> Seq<Cursor>
    decreases
        contracts.len() - cursor.contract_index,
        contracts[cursor.contract_index as int].deployments@.len() - cursor.deployment_index,
{
    if !cursor_in_range(cursor, contracts) || !countable(contracts) {
        Seq::empty()
    } else {
        match next_step(cursor, contracts) {
            None => seq![cursor],
            Some(step) => seq![cursor] + positions_from(
                advance_cursor(cursor, Some(step)),
                contracts,
            ),
        }
    }
}

/// Following the planner's movements from a position leads through the rest of the
/// position's contract and then through all later contracts.
pub proof fn lemma_positions_from(cursor: Cursor, contracts: Seq<ContractConfig>)
    requires
        cursor_in_range(cursor, contracts),
        all_deployed(contracts),
        countable(contracts),
    ensures
        positions_from(cursor, contracts) == contract_positions(
            cursor.contract_index as int,
            contracts[cursor.contract_index as int].deployments@.len() as int,
        ).skip(cursor.deployment_index as int) + positions_after(
            contracts,
            cursor.contract_index + 1,
        ),
    decreases
        contracts.len() - cursor.contract_index,
        contracts[cursor.contract_index as int].deployments@.len() - cursor.deployment_index,
{
    let i = cursor.contract_index as int;
    let j = cursor.deployment_index as int;
    let count = contracts[i].deployments@.len() as int;
    let row = contract_positions(i, count);
    match next_step(cursor, contracts) {
        None => {
            assert(positions_after(contracts, i + 1) =~= Seq::<Cursor>::empty());
            assert(row.skip(j) =~= seq![cursor]);
        },
        Some(CursorAdvance::NextDeployment) => {
            let next = advance_cursor(cursor, Some(CursorAdvance::NextDeployment));
            lemma_positions_from(next, contracts);
            assert(row.skip(j) =~= seq![cursor] + row.skip(j + 1));
            assert(seq![cursor] + (row.skip(j + 1) + positions_after(contracts, i + 1)) =~= (
                seq![cursor] + row.skip(j + 1)) + positions_after(contracts, i + 1));
        },
        Some(CursorAdvance::NextContract) => {
            let next = advance_cursor(cursor, Some(CursorAdvance::NextContract));
            assert(contracts[i + 1].deployments@.len() > 0);
            lemma_positions_from(next, contracts);
            let next_count = contracts[i + 1].deployments@.len() as int;
            assert(contract_positions(i + 1, next_count).skip(0) =~= contract_positions(
                i + 1,
                next_count,
            ));
            assert(row.skip(j) =~= seq![cursor]);
        },
    }
}

// ---------------------------------------------------------------------------
// The script
// ---------------------------------------------------------------------------

/// The prompts with which the wizard opens.
pub open spec fn opening_prompts() -> Seq<PromptView> {
    seq![PromptView::AskFolderName, PromptView::AskLanguage, PromptView::AskEventSelection]
}

/// The prompts with which the wizard asks for the deployment under the cursor. For the
/// first deployment of a contract it asks where the ABI comes from (and for the file, if
/// it is a local one), for the contract's name, the network and the address; for a
/// further deployment it asks for the address, and before that for the network if that
/// differs from the one before.
pub open spec fn entry_prompts(cursor: Cursor, contracts: Seq<ContractConfig>) -> Seq<
    PromptView,
> {
    let contract = contracts[cursor.contract_index as int];
    let deployments = contract.deployments@;
    let here = cursor.deployment_index as int;
    if here == 0 {
        if contract.source is Abi {
            seq![
                PromptView::AskImportSource,
                PromptView::AskAbiPath,
                PromptView::AskContractName,
                PromptView::AskNetworkId,
                PromptView::AskContractAddress,
            ]
        } else {
            seq![
                PromptView::AskImportSource,
                PromptView::AskContractName,
                PromptView::AskNetworkId,
                PromptView::AskContractAddress,
            ]
        }
    } else if deployments[here].network_id@ == deployments[here - 1].network_id@ {
        seq![PromptView::AskContractAddress]
    } else {
        seq![PromptView::AskNetworkId, PromptView::AskContractAddress]
    }
}

/// What a wizard asks about each deployment before it asks whether to add another
/// contract.
pub type Entry = spec_fn(Cursor) -> Seq<PromptView>;

/// The prompts that a wizard prints from the deployment under the cursor on: for each
/// deployment what it asks about it, and then the question whether to add another
/// contract.
pub open spec fn script_from(entry: Entry, cursor: Cursor, contracts: Seq<ContractConfig>) -> Seq<
    PromptView,
>
    decreases
        contracts.len() - cursor.contract_index,
        contracts[cursor.contract_index as int].deployments@.len() - cursor.deployment_index,
{
    if !cursor_in_range(cursor, contracts) || !countable(contracts) {
        Seq::empty()
    } else {
        let block = entry(cursor).push(PromptView::AskAddAnotherContract);
        match next_step(cursor, contracts) {
            None => block,
            Some(step) => block + script_from(
                entry,
                advance_cursor(cursor, Some(step)),
                contracts,
            ),
        }
    }
}

/// The sequence of prompts of a wizard that opens with `opening`, asks `entry` about
/// each deployment, and closes with `closing`.
pub open spec fn script(
    opening: Seq<PromptView>,
    entry: Entry,
    closing: PromptView,
    contracts: Seq<ContractConfig>,
) -> Seq<PromptView> {
    opening + script_from(entry, Cursor { contract_index: 0, deployment_index: 0 }, contracts)
        + seq![closing]
}

/// What the wizard is known to ask about each deployment of a contract list.
pub open spec fn known_entry(contracts: Seq<ContractConfig>) -> Entry {
    |cursor: Cursor| entry_prompts(cursor, contracts)
}

/// The wizard's known sequence of prompts for a contract list.
pub open spec fn wizard_script(contracts: Seq<ContractConfig>) -> Seq<PromptView> {
    script(opening_prompts(), known_entry(contracts), PromptView::TemplateReady, contracts)
}

/// A prompt that is answered without moving the cursor and without ending the run. The
/// report that nothing was asked is no prompt.
pub open spec fn is_quiet(kind: PromptView) -> bool {
    match kind {
        PromptView::AskAddAnotherContract => false,
        PromptView::AskBlockchainFromList => false,
        PromptView::TemplateReady => false,
        PromptView::FinalDone => false,
        PromptView::Unrecognized(text) => text.len() > 0,
        _ => true,
    }
}

/// Every prompt of the sequence is quiet.
pub open spec fn all_quiet(prompts: Seq<PromptView>) -> bool {
    forall|k: int| 0 <= k < prompts.len() ==> is_quiet(#[trigger] prompts[k])
}

/// The wizard asks in the expected order: it opens with quiet prompts, asks quiet
/// prompts about each deployment, and closes by reporting that the project is ready.
pub open spec fn is_orderly(opening: Seq<PromptView>, entry: Entry, closing: PromptView) -> bool {
    &&& all_quiet(opening)
    &&& forall|cursor: Cursor| all_quiet(#[trigger] entry(cursor))
    &&& (closing == PromptView::TemplateReady || closing == PromptView::FinalDone)
}

// ---------------------------------------------------------------------------
// Running a script
// ---------------------------------------------------------------------------

/// The state after a read has returned output that is classified as `kind`.
pub open spec fn step_on_prompt(d: DriverView, kind: PromptView) -> DriverView {
    match d.phase {
        Phase::Interacting => on_prompt(
            DriverView { idle_reads: 0, buffer: Seq::empty(), ..d },
            kind,
        ).0,
        Phase::Draining => DriverView { phase: Phase::Reaping, ..d },
        Phase::Done => d,
        _ => failed(d, ErrorKind::UnexpectedTermination),
    }
}

/// The state after the terminal has reported that the answer was written.
pub open spec fn acknowledged(d: DriverView) -> DriverView {
    step_model(d, EventView::Written).0
}

/// The state after the prompts have been read and answered one after the other.
pub open spec fn drive(d: DriverView, prompts: Seq<PromptView>) -> DriverView
    decreases prompts.len(),
{
    if prompts.len() == 0 {
        d
    } else {
        acknowledged(step_on_prompt(drive(d, prompts.drop_last()), prompts.last()))
    }
}

/// The positions that the cursor takes while the prompts are answered, in order: where
/// it starts, and every position it moves to.
pub open spec fn drive_trail(d: DriverView, prompts: Seq<PromptView>) -> Seq<Cursor>
    decreases prompts.len(),
{
    if prompts.len() == 0 {
        seq![d.cursor]
    } else {
        let earlier = drive_trail(d, prompts.drop_last());
        let now = drive(d, prompts).cursor;
        if now != drive(d, prompts.drop_last()).cursor {
            earlier.push(now)
        } else {
            earlier
        }
    }
}

/// Two states of the same run that are at the same point: they differ at most in what
/// was read and classified last.
pub open spec fn same_point(a: DriverView, b: DriverView) -> bool {
    &&& a.contracts == b.contracts
    &&& a.table == b.table
    &&& a.chains == b.chains
    &&& a.hang_ceiling == b.hang_ceiling
    &&& a.phase == b.phase
    &&& a.cursor == b.cursor
    &&& a.failure == b.failure
    &&& a.idle_reads == b.idle_reads
    &&& a.buffer == b.buffer
}

/// A state in which prompts are being answered and nothing is left unread.
pub open spec fn attentive(d: DriverView) -> bool {
    &&& d.wf()
    &&& d.phase == Phase::Interacting
    &&& d.failure is None
    &&& d.idle_reads == 0
    &&& d.buffer == Seq::<char>::empty()
}

pub proof fn lemma_drive_concat(d: DriverView, first: Seq<PromptView>, second: Seq<PromptView>)
    ensures
        drive(d, first + second) == drive(drive(d, first), second),
        drive_trail(d, first + second) == drive_trail(d, first) + drive_trail(
            drive(d, first),
            second,
        ).skip(1),
    decreases second.len(),
{
    if second.len() == 0 {
        assert(first + second =~= first);
        assert(drive_trail(d, first) + seq![drive(d, first).cursor].skip(1) =~= drive_trail(
            d,
            first,
        ));
    } else {
        let all = first + second;
        assert(all.drop_last() =~= first + second.drop_last());
        assert(all.last() == second.last());
        lemma_drive_concat(d, first, second.drop_last());
        let mid = drive(d, first);
        let earlier = drive_trail(mid, second.drop_last());
        lemma_trail_is_not_empty(mid, second.drop_last());
        let now = drive(mid, second).cursor;
        if now != drive(mid, second.drop_last()).cursor {
            assert(drive_trail(d, first) + earlier.push(now).skip(1) =~= (drive_trail(d, first)
                + earlier.skip(1)).push(now));
        }
    }
}

pub proof fn lemma_trail_is_not_empty(d: DriverView, prompts: Seq<PromptView>)
    ensures
        drive_trail(d, prompts).len() > 0,
        drive_trail(d, prompts)[0] == d.cursor,
    decreases prompts.len(),
{
    if prompts.len() > 0 {
        lemma_trail_is_not_empty(d, prompts.drop_last());
    }
}

/// Quiet prompts leave an attentive run where it is.
pub proof fn lemma_quiet_prompts(d: DriverView, prompts: Seq<PromptView>)
    requires
        attentive(d),
        all_quiet(prompts),
    ensures
        same_point(drive(d, prompts), d),
        drive_trail(d, prompts) == seq![d.cursor],
    decreases prompts.len(),
{
    if prompts.len() > 0 {
        let before = prompts.drop_last();
        assert(all_quiet(before)) by {
            assert forall|k: int| 0 <= k < before.len() implies is_quiet(
                #[trigger] before[k],
            ) by {
                assert(before[k] == prompts[k]);
            }
        }
        lemma_quiet_prompts(d, before);
        assert(is_quiet(prompts[prompts.len() - 1]));
    }
}

/// Answering an orderly wizard's prompts from the deployment under the cursor on leaves
/// the run attentive, and the cursor takes the positions from there to the end.
pub proof fn lemma_script_from(d: DriverView, entry: Entry, cursor: Cursor)
    requires
        attentive(d),
        countable(d.contracts),
        d.cursor == cursor,
        forall|c: Cursor| all_quiet(#[trigger] entry(c)),
    ensures
        attentive(drive(d, script_from(entry, cursor, d.contracts))),
        drive(d, script_from(entry, cursor, d.contracts)).contracts == d.contracts,
        drive(d, script_from(entry, cursor, d.contracts)).table == d.table,
        drive(d, script_from(entry, cursor, d.contracts)).chains == d.chains,
        drive(d, script_from(entry, cursor, d.contracts)).hang_ceiling == d.hang_ceiling,
        drive_trail(d, script_from(entry, cursor, d.contracts)) == positions_from(
            cursor,
            d.contracts,
        ),
    decreases
        d.contracts.len() - cursor.contract_index,
        d.contracts[cursor.contract_index as int].deployments@.len() - cursor.deployment_index,
{
    let contracts = d.contracts;
    let quiet = entry(cursor);
    let block = quiet.push(PromptView::AskAddAnotherContract);
    assert(all_quiet(quiet));
    lemma_quiet_prompts(d, quiet);
    let asked = drive(d, quiet);
    assert(block.drop_last() =~= quiet);
    let moved = drive(d, block);
    let step = next_step(cursor, contracts);
    assert(moved.cursor == advance_cursor(cursor, step));
    super::planner::law_plan_keeps_cursor_in_range(
        PromptView::AskAddAnotherContract,
        cursor,
        contracts,
        d.chains,
    );
    match step {
        None => {
            assert(drive_trail(d, block) == seq![cursor]);
        },
        Some(movement) => {
            let next = advance_cursor(cursor, Some(movement));
            assert(next != cursor);
            assert(drive_trail(d, block) == seq![cursor].push(next));
            let rest = script_from(entry, next, contracts);
            lemma_script_from(moved, entry, next);
            lemma_drive_concat(d, block, rest);
            lemma_trail_is_not_empty(moved, rest);
            assert(positions_from(next, contracts)[0] == next);
            assert(seq![cursor].push(next) + positions_from(next, contracts).skip(1) =~= seq![
                cursor,
            ] + positions_from(next, contracts));
        },
    }
}

/// No prompt of an orderly wizard's sequence for the deployments is the report that
/// nothing was asked.
pub proof fn lemma_script_from_kinds(entry: Entry, cursor: Cursor, contracts: Seq<ContractConfig>)
    requires
        forall|c: Cursor| all_quiet(#[trigger] entry(c)),
    ensures
        forall|k: int|
            0 <= k < script_from(entry, cursor, contracts).len() ==> #[trigger] script_from(
                entry,
                cursor,
                contracts,
            )[k] != PromptView::Unrecognized(Seq::<char>::empty()),
    decreases
        contracts.len() - cursor.contract_index,
        contracts[cursor.contract_index as int].deployments@.len() - cursor.deployment_index,
{
    if cursor_in_range(cursor, contracts) && countable(contracts) {
        let quiet = entry(cursor);
        let block = quiet.push(PromptView::AskAddAnotherContract);
        assert(all_quiet(quiet));
        assert forall|k: int| 0 <= k < block.len() implies #[trigger] block[k]
            != PromptView::Unrecognized(Seq::<char>::empty()) by {
            if k < quiet.len() {
                assert(is_quiet(quiet[k]));
            }
        }
        match next_step(cursor, contracts) {
            None => {},
            Some(step) => {
                let rest = script_from(entry, advance_cursor(cursor, Some(step)), contracts);
                lemma_script_from_kinds(entry, advance_cursor(cursor, Some(step)), contracts);
                let all = script_from(entry, cursor, contracts);
                assert(all == block + rest);
                assert forall|k: int| 0 <= k < all.len() implies #[trigger] all[k]
                    != PromptView::Unrecognized(Seq::<char>::empty()) by {
                    if k < block.len() {
                        assert(all[k] == block[k]);
                    } else {
                        assert(all[k] == rest[k - block.len()]);
                    }
                }
            },
        }
    }
}

/// No prompt of an orderly wizard's sequence is the report that nothing was asked.
pub proof fn lemma_script_kinds(
    opening: Seq<PromptView>,
    entry: Entry,
    closing: PromptView,
    contracts: Seq<ContractConfig>,
)
    requires
        is_orderly(opening, entry, closing),
    ensures
        forall|k: int|
            0 <= k < script(opening, entry, closing, contracts).len() ==> #[trigger] script(
                opening,
                entry,
                closing,
                contracts,
            )[k] != PromptView::Unrecognized(Seq::<char>::empty()),
{
    let start = Cursor { contract_index: 0, deployment_index: 0 };
    let all = script(opening, entry, closing, contracts);
    let body = script_from(entry, start, contracts);
    lemma_script_from_kinds(entry, start, contracts);
    assert forall|k: int| 0 <= k < all.len() implies #[trigger] all[k]
        != PromptView::Unrecognized(Seq::<char>::empty()) by {
        if k < opening.len() {
            assert(all[k] == opening[k]);
            assert(is_quiet(opening[k]));
        } else if k < opening.len() + body.len() {
            assert(all[k] == body[k - opening.len()]);
        } else {
            assert(all[k] == closing);
        }
    }
}

/// The wizard's known sequence of prompts is that of an orderly wizard.
pub proof fn lemma_known_wizard_is_orderly(contracts: Seq<ContractConfig>)
    ensures
        is_orderly(opening_prompts(), known_entry(contracts), PromptView::TemplateReady),
{
    let entry = known_entry(contracts);
    assert forall|cursor: Cursor| all_quiet(#[trigger] entry(cursor)) by {
        assert(entry(cursor) == entry_prompts(cursor, contracts));
    }
}

// ---------------------------------------------------------------------------
// Running against a terminal
// ---------------------------------------------------------------------------

/// The state after each batch of lines has been read and the answer to it written.
pub open spec fn feed(d: DriverView, batches: Seq<Seq<Seq<char>>>) -> DriverView
    decreases batches.len(),
{
    if batches.len() == 0 {
        d
    } else {
        acknowledged(
            step_model(feed(d, batches.drop_last()), EventView::Output(batches.last())).0,
        )
    }
}

/// The positions that the cursor takes while the batches are read and answered, in
/// order: where it starts, and every position it moves to.
pub open spec fn feed_trail(d: DriverView, batches: Seq<Seq<Seq<char>>>) -> Seq<Cursor>
    decreases batches.len(),
{
    if batches.len() == 0 {
        seq![d.cursor]
    } else {
        let earlier = feed_trail(d, batches.drop_last());
        let now = feed(d, batches).cursor;
        if now != feed(d, batches.drop_last()).cursor {
            earlier.push(now)
        } else {
            earlier
        }
    }
}

/// In the state `d`, a read that returns `lines` is classified as `kind`.
pub open spec fn reads_as(d: DriverView, lines: Seq<Seq<char>>, kind: PromptView) -> bool {
    &&& lines.len() > 0
    &&& classify_window(d.table, d.buffer + joined(lines)) == kind
}

/// The terminal emits the prompts in order: there is one batch of lines for each prompt,
/// and each batch, read in the state that the run is then in, is classified as its
/// prompt.
pub open spec fn emits(
    d: DriverView,
    batches: Seq<Seq<Seq<char>>>,
    prompts: Seq<PromptView>,
) -> bool {
    &&& batches.len() == prompts.len()
    &&& forall|k: int|
        0 <= k < batches.len() ==> reads_as(
            feed(d, batches.take(k)),
            #[trigger] batches[k],
            prompts[k],
        )
}

/// A run against a terminal that emits prompts goes as the prompts say.
pub proof fn lemma_feed_follows_the_prompts(
    d: DriverView,
    batches: Seq<Seq<Seq<char>>>,
    prompts: Seq<PromptView>,
)
    requires
        emits(d, batches, prompts),
        forall|k: int|
            0 <= k < prompts.len() ==> #[trigger] prompts[k] != PromptView::Unrecognized(
                Seq::<char>::empty(),
            ),
    ensures
        feed(d, batches) == drive(d, prompts),
        feed_trail(d, batches) == drive_trail(d, prompts),
    decreases batches.len(),
{
    if batches.len() > 0 {
        let n = batches.len() - 1;
        let earlier = batches.drop_last();
        assert(earlier =~= batches.take(n));
        assert forall|k: int| 0 <= k < earlier.len() implies reads_as(
            feed(d, earlier.take(k)),
            #[trigger] earlier[k],
            prompts.drop_last()[k],
        ) by {
            assert(earlier.take(k) =~= batches.take(k));
            assert(reads_as(feed(d, batches.take(k)), batches[k], prompts[k]));
        }
        assert forall|k: int| 0 <= k < prompts.drop_last().len() implies #[trigger] prompts.drop_last()[k]
            != PromptView::Unrecognized(Seq::<char>::empty()) by {
            assert(prompts.drop_last()[k] == prompts[k]);
        }
        lemma_feed_follows_the_prompts(d, earlier, prompts.drop_last());
        assert(reads_as(feed(d, batches.take(n)), batches[n], prompts[n]));
        assert(prompts[n] != PromptView::Unrecognized(Seq::<char>::empty()));
    }
}

// ---------------------------------------------------------------------------
// Laws
// ---------------------------------------------------------------------------

/// The state in which a launched wizard's first prompt is awaited.
pub open spec fn launched(
    contracts: Seq<ContractConfig>,
    table: Seq<SignatureView>,
    chains: Seq<Seq<char>>,
    hang_ceiling: usize,
) -> DriverView {
    step_model(initial_state(contracts, table, chains, hang_ceiling), EventView::Spawned).0
}

/// One cursor comes before another in list order.
pub open spec fn precedes(a: Cursor, b: Cursor) -> bool {
    a.contract_index < b.contract_index || (a.contract_index == b.contract_index
        && a.deployment_index < b.deployment_index)
}

pub proof fn lemma_positions_after(contracts: Seq<ContractConfig>, i: int)
    requires
        countable(contracts),
        0 <= i,
    ensures
        forall|k: int|
            0 <= k < positions_after(contracts, i).len() ==> cursor_in_range(
                #[trigger] positions_after(contracts, i)[k],
                contracts,
            ) && positions_after(contracts, i)[k].contract_index >= i,
        forall|a: int, b: int|
            0 <= a < b < positions_after(contracts, i).len() ==> precedes(
                #[trigger] positions_after(contracts, i)[a],
                #[trigger] positions_after(contracts, i)[b],
            ),
        forall|cursor: Cursor|
            cursor_in_range(cursor, contracts) && cursor.contract_index >= i
                ==> #[trigger] positions_after(contracts, i).contains(cursor),
    decreases contracts.len() - i,
{
    if i < contracts.len() {
        lemma_positions_after(contracts, i + 1);
        let count = contracts[i].deployments@.len() as int;
        let row = contract_positions(i, count);
        let rest = positions_after(contracts, i + 1);
        let all = positions_after(contracts, i);
        assert(all == row + rest);
        assert forall|k: int| 0 <= k < all.len() implies cursor_in_range(
            #[trigger] all[k],
            contracts,
        ) && all[k].contract_index >= i by {
            if k >= row.len() {
                assert(all[k] == rest[k - row.len()]);
            }
        }
        assert forall|a: int, b: int| 0 <= a < b < all.len() implies precedes(
            #[trigger] all[a],
            #[trigger] all[b],
        ) by {
            if b < row.len() {
            } else if a < row.len() {
                assert(all[b] == rest[b - row.len()]);
            } else {
                assert(all[a] == rest[a - row.len()]);
                assert(all[b] == rest[b - row.len()]);
            }
        }
        assert forall|cursor: Cursor|
            cursor_in_range(cursor, contracts) && cursor.contract_index
                >= i implies #[trigger] all.contains(cursor) by {
            if cursor.contract_index == i {
                assert(all[cursor.deployment_index as int] == cursor);
            } else {
                assert(rest.contains(cursor));
                let k = choose|k: int| 0 <= k < rest.len() && rest[k] == cursor;
                assert(all[row.len() + k] == cursor);
            }
        }
    }
}

/// The list of all positions holds exactly the positions of the contract list, each
/// once, in list order.
pub proof fn law_all_positions_are_in_list_order(list: Vec<ContractConfig>)
    ensures
        forall|cursor: Cursor|
            cursor_in_range(cursor, list@) <==> #[trigger] all_positions(list@).contains(
                cursor,
            ),
        forall|a: int, b: int|
            0 <= a < b < all_positions(list@).len() ==> precedes(
                #[trigger] all_positions(list@)[a],
                #[trigger] all_positions(list@)[b],
            ),
        all_positions(list@).no_duplicates(),
{
    let contracts = list@;
    lemma_lists_in_memory_are_countable(list);
    lemma_positions_after(contracts, 0);
    let all = all_positions(contracts);
    assert forall|cursor: Cursor| #[trigger] all.contains(cursor) implies cursor_in_range(
        cursor,
        contracts,
    ) by {
        let k = choose|k: int| 0 <= k < all.len() && all[k] == cursor;
        assert(cursor_in_range(all[k], contracts));
    }
    assert forall|a: int, b: int| 0 <= a < all.len() && 0 <= b < all.len() && a != b implies all[a]
        != all[b] by {
        if a < b {
            assert(precedes(all[a], all[b]));
        } else {
            assert(precedes(all[b], all[a]));
        }
    }
}

/// The lists of a contract list that is held in memory are short enough to be indexed.
pub proof fn lemma_lists_in_memory_are_countable(contracts: Vec<ContractConfig>)
    ensures
        countable(contracts@),
{
    assert(contracts.len() == contracts@.len());
    assert forall|i: int| 0 <= i < contracts@.len() implies (#[trigger] contracts@[i]).deployments@.len()
        <= usize::MAX by {
        assert(contracts@[i].deployments.len() == contracts@[i].deployments@.len());
    }
}

/// For every contract list that is not empty and gives each contract a deployment, a run
/// that answers the sequence of prompts of an orderly wizard and then sees the wizard
/// exit with code zero ends without failure, and its cursor takes every position of the
/// list once, in list order.
pub proof fn law_orderly_run_visits_every_deployment(
    list: Vec<ContractConfig>,
    table: Seq<SignatureView>,
    chains: Seq<Seq<char>>,
    hang_ceiling: usize,
    opening: Seq<PromptView>,
    entry: Entry,
    closing: PromptView,
)
    requires
        list@.len() > 0,
        all_deployed(list@),
        is_orderly(opening, entry, closing),
    ensures
        step_model(
            drive(
                launched(list@, table, chains, hang_ceiling),
                script(opening, entry, closing, list@),
            ),
            EventView::Exited(ExitOutcome::ExitedWithCode(0)),
        ).0.succeeded(),
        drive_trail(
            launched(list@, table, chains, hang_ceiling),
            script(opening, entry, closing, list@),
        ) == all_positions(list@),
{
    let contracts = list@;
    lemma_lists_in_memory_are_countable(list);
    let d0 = launched(contracts, table, chains, hang_ceiling);
    let start = Cursor { contract_index: 0, deployment_index: 0 };
    assert(contracts[0].deployments@.len() > 0);
    assert(attentive(d0));
    let body = script_from(entry, start, contracts);
    let end = seq![closing];
    lemma_quiet_prompts(d0, opening);
    let d1 = drive(d0, opening);
    lemma_script_from(d1, entry, start);
    let d2 = drive(d1, body);
    lemma_drive_concat(d0, opening, body);
    lemma_drive_concat(d0, opening + body, end);
    assert(end.drop_last() =~= Seq::<PromptView>::empty());
    let d3 = drive(d2, end);
    assert(drive(d2, end.drop_last()) == d2);
    assert(d3.phase == Phase::Reaping);
    assert(d3.failure is None);
    assert(d3.cursor == d2.cursor);
    assert(drive_trail(d2, end.drop_last()) == seq![d2.cursor]);
    assert(drive_trail(d2, end) == seq![d2.cursor]);
    lemma_positions_from(start, contracts);
    assert(contract_positions(0, contracts[0].deployments@.len() as int).skip(0)
        =~= contract_positions(0, contracts[0].deployments@.len() as int));
    lemma_trail_is_not_empty(d1, body);
    assert(seq![start] + drive_trail(d1, body).skip(1) =~= drive_trail(d1, body));
    assert(drive_trail(d1, body) + seq![d2.cursor].skip(1) =~= drive_trail(d1, body));
}

/// The same holds of a run against a scripted terminal: one that emits the prompts of an
/// orderly wizard in order, takes every answer, and then exits with code zero.
pub proof fn law_orderly_terminal_run_visits_every_deployment(
    list: Vec<ContractConfig>,
    table: Seq<SignatureView>,
    chains: Seq<Seq<char>>,
    hang_ceiling: usize,
    opening: Seq<PromptView>,
    entry: Entry,
    closing: PromptView,
    batches: Seq<Seq<Seq<char>>>,
)
    requires
        list@.len() > 0,
        all_deployed(list@),
        is_orderly(opening, entry, closing),
        emits(
            launched(list@, table, chains, hang_ceiling),
            batches,
            script(opening, entry, closing, list@),
        ),
    ensures
        step_model(
            feed(launched(list@, table, chains, hang_ceiling), batches),
            EventView::Exited(ExitOutcome::ExitedWithCode(0)),
        ).0.succeeded(),
        feed_trail(launched(list@, table, chains, hang_ceiling), batches) == all_positions(
            list@,
        ),
{
    let d0 = launched(list@, table, chains, hang_ceiling);
    lemma_script_kinds(opening, entry, closing, list@);
    lemma_feed_follows_the_prompts(d0, batches, script(opening, entry, closing, list@));
    law_orderly_run_visits_every_deployment(
        list,
        table,
        chains,
        hang_ceiling,
        opening,
        entry,
        closing,
    );
}

/// For every contract list that is not empty and gives each contract a deployment, a run
/// against a scripted terminal that emits the wizard's known sequence of prompts in
/// order, takes every answer, and then exits with code zero ends without failure, and
/// its cursor takes every position of the list once, in list order.
pub proof fn law_scripted_run_visits_every_deployment(
    list: Vec<ContractConfig>,
    table: Seq<SignatureView>,
    chains: Seq<Seq<char>>,
    hang_ceiling: usize,
    batches: Seq<Seq<Seq<char>>>,
)
    requires
        list@.len() > 0,
        all_deployed(list@),
        emits(launched(list@, table, chains, hang_ceiling), batches, wizard_script(list@)),
    ensures
        step_model(
            feed(launched(list@, table, chains, hang_ceiling), batches),
            EventView::Exited(ExitOutcome::ExitedWithCode(0)),
        ).0.succeeded(),
        feed_trail(launched(list@, table, chains, hang_ceiling), batches) == all_positions(
            list@,
        ),
{
    lemma_known_wizard_is_orderly(list@);
    law_orderly_terminal_run_visits_every_deployment(
        list,
        table,
        chains,
        hang_ceiling,
        opening_prompts(),
        known_entry(list@),
        PromptView::TemplateReady,
        batches,
    );
}

} // verus!
