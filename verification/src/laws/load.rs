//! Loading: what is asked, in what order, and with what it ends.

use crate::config::{config_of, Reading};
use crate::contract::{contract_fault, required_list};
use crate::laws::slots::ok_uint;
use crate::load::{
    action_of, block_id_of, contract_conforms, lemma_run_in_two, lemma_run_reads_pages, next_step,
    pages_of, run, Action, ActionView, AnalysisReply, Call, Chain, ChainTip, Event, Fatal,
    StacksBlockId, Step, StepView,
};
use crate::signature::StacksEpochId;
use crate::slots::{page_of, signers_of, with_page, SignerSlots, SignersView};
use crate::text::hex_text;
use crate::types::{
    contract_reason, ConfigView, ErrorView, Limits, NetError, QualifiedContractIdentifier,
    StackerDBConfig, StacksAddress,
};
use crate::value::ClarityValue;
use vstd::prelude::*;

verus! {

/// Each call has the function of its name; only that of a page has an argument, and it is the
/// number of the page.
pub proof fn law_calls(page: u32)
    ensures
        Call::PageCount.spec_function_name() == "stackerdb-get-page-count"@,
        Call::SlotsPage(page).spec_function_name() == "stackerdb-get-signer-slots"@,
        Call::Config.spec_function_name() == "stackerdb-get-config"@,
        Call::PageCount.spec_page_argument() is None,
        Call::Config.spec_page_argument() is None,
        Call::SlotsPage(page).spec_page_argument() matches Some(n) && n as int == page as int,
{
}

/// What is said of a step is what it holds.
pub proof fn law_step_view(
    tip: ChainTip,
    block: StacksBlockId,
    height: u64,
    epoch: StacksEpochId,
    slots: SignerSlots,
    page: u32,
    pages: u32,
    signers: Vec<(StacksAddress, u32)>,
    fatal: Fatal,
)
    ensures
        Step::AwaitTip@ == StepView::AwaitTip,
        Step::AwaitSnapshot(tip)@ == StepView::AwaitSnapshot(tip),
        Step::AwaitEpoch(block, height)@ == StepView::AwaitEpoch(block.0@, height),
        Step::AwaitAnalysis(block, epoch)@ == StepView::AwaitAnalysis(block.0@, epoch),
        Step::AwaitPageCount(block)@ == StepView::AwaitPageCount(block.0@),
        Step::AwaitPage(block, slots, page, pages)@ == StepView::AwaitPage(
            block.0@,
            SignersView { signers: slots.signers@, total: slots.total },
            page,
            pages,
        ),
        Step::AwaitConfig(block, signers)@ == StepView::AwaitConfig(block.0@, signers@),
        Step::Halted(fatal)@ == StepView::Halted(fatal),
{
}

/// What is said of a result is the configuration, or the error.
pub proof fn law_done_view(config: StackerDBConfig, error: NetError)
    ensures
        Step::Done(Ok(config))@ == StepView::Done(Ok(config@)),
        Step::Done(Err(error))@ == StepView::Done(Err(error@)),
{
}

/// What is said of an action is what it holds.
pub proof fn law_action_view(
    consensus_hash: [u8; 20],
    height: u64,
    block: StacksBlockId,
    call: Call,
    fatal: Fatal,
)
    ensures
        Action::ReadTip@ == ActionView::ReadTip,
        Action::ReadSnapshot(consensus_hash)@ == ActionView::ReadSnapshot(consensus_hash@),
        Action::ReadEpoch(height)@ == ActionView::ReadEpoch(height),
        Action::ReadAnalysis(block)@ == ActionView::ReadAnalysis(block.0@),
        Action::Evaluate(block, call)@ == ActionView::Evaluate(block.0@, call),
        Action::Return@ == ActionView::Return,
        Action::Halt(fatal)@ == ActionView::Halt(fatal),
{
}

/// Each step asks for what it awaits, as of the block that it holds.
pub proof fn law_actions(
    tip: ChainTip,
    block: Seq<u8>,
    height: u64,
    epoch: StacksEpochId,
    slots: SignersView,
    page: u32,
    pages: u32,
    result: Result<ConfigView, ErrorView>,
    fatal: Fatal,
)
    ensures
        action_of(StepView::AwaitTip) == ActionView::ReadTip,
        action_of(StepView::AwaitSnapshot(tip)) == ActionView::ReadSnapshot(tip.consensus_hash@),
        action_of(StepView::AwaitEpoch(block, height)) == ActionView::ReadEpoch(height),
        action_of(StepView::AwaitAnalysis(block, epoch)) == ActionView::ReadAnalysis(block),
        action_of(StepView::AwaitPageCount(block)) == ActionView::Evaluate(block, Call::PageCount),
        action_of(StepView::AwaitPage(block, slots, page, pages)) == ActionView::Evaluate(
            block,
            Call::SlotsPage(page),
        ),
        action_of(StepView::AwaitConfig(block, slots.signers)) == ActionView::Evaluate(
            block,
            Call::Config,
        ),
        action_of(StepView::Done(result)) == ActionView::Return,
        action_of(StepView::Halted(fatal)) == ActionView::Halt(fatal),
{
}

/// The event is the one that the step awaits.
pub open spec fn is_awaited(step: StepView, event: Event) -> bool {
    match event {
        Event::Tip(_) => step is AwaitTip,
        Event::Snapshot(_) => step is AwaitSnapshot,
        Event::Epoch(_) => step is AwaitEpoch,
        Event::Analysis(_) => step is AwaitAnalysis,
        Event::Answer(_) => step is AwaitPageCount || step is AwaitPage || step is AwaitConfig,
    }
}

/// An event changes the step if it was awaited, and only then.
pub proof fn law_only_awaited_events_count(
    step: StepView,
    event: Event,
    id: QualifiedContractIdentifier,
    limits: Limits,
)
    ensures
        !is_awaited(step, event) ==> next_step(step, event, id, limits) == step,
        is_awaited(step, event) ==> next_step(step, event, id, limits) != step,
{
}

/// A tip without a block is no database; the block, the height and the epoch that the node
/// replies with are the ones with which loading goes on; where one is missing it halts.
pub proof fn law_chain_events(
    tip: ChainTip,
    block: Seq<u8>,
    height: u64,
    epoch: StacksEpochId,
    id: QualifiedContractIdentifier,
    limits: Limits,
)
    ensures
        next_step(StepView::AwaitTip, Event::Tip(None), id, limits) == StepView::Done(
            Err(ErrorView::NoSuchStackerDB(id)),
        ),
        next_step(StepView::AwaitTip, Event::Tip(Some(tip)), id, limits)
            == StepView::AwaitSnapshot(tip),
        next_step(StepView::AwaitSnapshot(tip), Event::Snapshot(None), id, limits)
            == StepView::Halted(Fatal::MissingSnapshot),
        next_step(StepView::AwaitSnapshot(tip), Event::Snapshot(Some(height)), id, limits)
            == StepView::AwaitEpoch(block_id_of(tip.consensus_hash@, tip.block_hash@), height),
        next_step(StepView::AwaitEpoch(block, height), Event::Epoch(None), id, limits)
            == StepView::Halted(Fatal::NoEpoch),
        next_step(StepView::AwaitEpoch(block, height), Event::Epoch(Some(epoch)), id, limits)
            == StepView::AwaitAnalysis(block, epoch),
{
}

/// A contract that cannot be read, that there is not, or that is at fault ends loading with an
/// error that says so; any other is asked for its page count, as of the same block.
pub proof fn law_contract_events(
    block: Seq<u8>,
    epoch: StacksEpochId,
    reply: AnalysisReply,
    id: QualifiedContractIdentifier,
    limits: Limits,
)
    ensures
        next_step(StepView::AwaitAnalysis(block, epoch), Event::Analysis(reply), id, limits) == (
        match reply {
            AnalysisReply::Unavailable => StepView::Done(
                Err(
                    ErrorView::InvalidStackerDBContract(
                        id,
                        contract_reason(
                            "Could not evaluate contract "@,
                            id,
                            " at "@ + hex_text(block),
                        ),
                    ),
                ),
            ),
            AnalysisReply::Missing => StepView::Done(Err(ErrorView::NoSuchStackerDB(id))),
            AnalysisReply::Found(analysis) => match contract_fault(
                required_list(),
                epoch,
                analysis,
            ) {
                Some(fault) => StepView::Done(
                    Err(
                        ErrorView::InvalidStackerDBContract(
                            id,
                            contract_reason(
                                "Contract "@,
                                id,
                                " does not conform to StackerDB trait: "@ + fault,
                            ),
                        ),
                    ),
                ),
                None => StepView::AwaitPageCount(block),
            },
        }),
{
}

/// The answer `(ok n)` to the page count leads to page zero of `n`, without signers so far; or, if
/// `n` is zero, to the control metadata.
pub proof fn law_page_count_event(
    block: Seq<u8>,
    n: u32,
    id: QualifiedContractIdentifier,
    limits: Limits,
)
    ensures
        next_step(
            StepView::AwaitPageCount(block),
            Event::Answer(ok_uint(n as u128)),
            id,
            limits,
        ) == (if n == 0 {
            StepView::AwaitConfig(block, Seq::empty())
        } else {
            StepView::AwaitPage(block, SignersView { signers: Seq::empty(), total: 0 }, 0, n)
        }),
{
}

/// A page that is accepted leads to the page after it, up to the last, and then to the control
/// metadata, with its signers behind those before it; one that is not ends loading with its
/// error.
pub proof fn law_page_event(
    block: Seq<u8>,
    slots: SignersView,
    page: u32,
    pages: u32,
    value: ClarityValue,
    id: QualifiedContractIdentifier,
    limits: Limits,
)
    ensures
        ({
            let next = next_step(
                StepView::AwaitPage(block, slots, page, pages),
                Event::Answer(value),
                id,
                limits,
            );
            match page_of(value, id) {
                Err(error) => next == StepView::Done(Err(error)),
                Ok((signers, total)) => if slots.total + total <= limits.inv_max {
                    if page + 1 < pages {
                        &&& next matches StepView::AwaitPage(b, after, p, of)
                        &&& b == block
                        &&& after.signers == slots.signers + signers
                        &&& after.total as int == slots.total + total
                        &&& p as int == page + 1
                        &&& of == pages
                    } else {
                        next == StepView::AwaitConfig(block, slots.signers + signers)
                    }
                } else {
                    &&& next matches StepView::Done(Err(error))
                    &&& with_page(slots, (signers, total), id, limits) == Err::<SignersView, _>(
                        error,
                    )
                },
            }
        }),
{
}

/// The control metadata ends loading: with the configuration, with the error for an invalid
/// contract, or, if the answer is misshapen, halted.
pub proof fn law_config_event(
    block: Seq<u8>,
    signers: Seq<(StacksAddress, u32)>,
    value: ClarityValue,
    id: QualifiedContractIdentifier,
    limits: Limits,
)
    ensures
        next_step(StepView::AwaitConfig(block, signers), Event::Answer(value), id, limits) == (
        match config_of(value, signers, id, limits) {
            Reading::Misshapen => StepView::Halted(Fatal::MisshapenConfig),
            Reading::Refused(reason) => StepView::Done(
                Err(ErrorView::InvalidStackerDBContract(id, reason)),
            ),
            Reading::Accepted(config) => StepView::Done(Ok(config)),
        }),
{
}

/// The identifier of the highest block of a node.
pub open spec fn block_of_tip(chain: Chain) -> Seq<u8> {
    block_id_of(chain.tip->Some_0.consensus_hash@, chain.tip->Some_0.block_hash@)
}

proof fn lemma_run_to_contract(chain: Chain, id: QualifiedContractIdentifier, limits: Limits)
    requires
        contract_conforms(chain),
    ensures
        run(StepView::AwaitTip, chain, id, limits, 4) == StepView::AwaitPageCount(
            block_of_tip(chain),
        ),
{
    reveal_with_fuel(run, 5);
}

/// Of a contract that conforms and answers `(ok n)`, every page from zero up to `n - 1` is asked
/// for, one after the other, as long as those before it are accepted; and then, and not before,
/// the control metadata.
pub proof fn law_every_page_is_asked_for(
    chain: Chain,
    id: QualifiedContractIdentifier,
    limits: Limits,
    n: u32,
    k: nat,
)
    requires
        contract_conforms(chain),
        (chain.answer)(block_of_tip(chain), Call::PageCount) == ok_uint(n as u128),
        k <= n,
        signers_of(pages_of(chain, block_of_tip(chain), k), id, limits) is Ok,
    ensures
        action_of(run(StepView::AwaitTip, chain, id, limits, k + 5)) == ActionView::Evaluate(
            block_of_tip(chain),
            if k < n {
                Call::SlotsPage(k as u32)
            } else {
                Call::Config
            },
        ),
{
    let block = block_of_tip(chain);
    lemma_run_to_contract(chain, id, limits);
    lemma_run_reads_pages(chain, block, id, limits, n, k);
    lemma_run_in_two(StepView::AwaitTip, chain, id, limits, 4, k + 1);
    assert(4 + (k + 1) == k + 5);
}

/// A contract that conforms, answers `(ok n)` and whose `n` pages and control metadata are
/// accepted gives the configuration that its control metadata states, with the signers of just
/// these pages.
pub proof fn law_config_is_loaded(
    chain: Chain,
    id: QualifiedContractIdentifier,
    limits: Limits,
    n: u32,
    signers: Seq<(StacksAddress, u32)>,
    config: ConfigView,
)
    requires
        contract_conforms(chain),
        (chain.answer)(block_of_tip(chain), Call::PageCount) == ok_uint(n as u128),
        signers_of(pages_of(chain, block_of_tip(chain), n as nat), id, limits) matches Ok(slots)
            && slots.signers == signers,
        config_of((chain.answer)(block_of_tip(chain), Call::Config), signers, id, limits)
            == Reading::<_, Seq<char>>::Accepted(config),
    ensures
        run(StepView::AwaitTip, chain, id, limits, n as nat + 6) == StepView::Done(Ok(config)),
{
    let block = block_of_tip(chain);
    lemma_run_to_contract(chain, id, limits);
    lemma_run_reads_pages(chain, block, id, limits, n, n as nat);
    lemma_run_in_two(StepView::AwaitTip, chain, id, limits, 4, n as nat + 1);
    assert(4 + (n as nat + 1) == n as nat + 5);
    let before = run(StepView::AwaitTip, chain, id, limits, n as nat + 5);
    assert(before == StepView::AwaitConfig(block, signers));
    assert(run(StepView::AwaitTip, chain, id, limits, n as nat + 6) == next_step(
        before,
        Event::Answer((chain.answer)(block, Call::Config)),
        id,
        limits,
    ));
}

/// The first page that is refused ends loading with its error.
pub proof fn law_refused_page_ends_loading(
    chain: Chain,
    id: QualifiedContractIdentifier,
    limits: Limits,
    n: u32,
    k: nat,
    error: ErrorView,
)
    requires
        contract_conforms(chain),
        (chain.answer)(block_of_tip(chain), Call::PageCount) == ok_uint(n as u128),
        k < n,
        signers_of(pages_of(chain, block_of_tip(chain), k), id, limits) is Ok,
        signers_of(pages_of(chain, block_of_tip(chain), k + 1), id, limits) == Err::<
            SignersView,
            _,
        >(error),
    ensures
        run(StepView::AwaitTip, chain, id, limits, k + 6) == StepView::Done(Err(error)),
{
    let block = block_of_tip(chain);
    lemma_run_to_contract(chain, id, limits);
    lemma_run_reads_pages(chain, block, id, limits, n, k + 1);
    lemma_run_in_two(StepView::AwaitTip, chain, id, limits, 4, k + 2);
    assert(4 + (k + 2) == k + 6);
}

/// A page that is awaited is below the number in the contract's own answer to the page count.
pub proof fn law_pages_are_below_the_number_answered(
    chain: Chain,
    id: QualifiedContractIdentifier,
    limits: Limits,
    n: nat,
)
    ensures
        run(StepView::AwaitTip, chain, id, limits, n) matches StepView::AwaitPage(
            block,
            _,
            page,
            pages,
        ) ==> {
            &&& (chain.answer)(block, Call::PageCount) == ok_uint(pages as u128)
            &&& page < pages
        },
{
    crate::load::law_pages_are_asked_in_range(chain, id, limits, n);
    if let StepView::AwaitPage(block, _, _, pages) = run(
        StepView::AwaitTip,
        chain,
        id,
        limits,
        n,
    ) {
        crate::laws::slots::law_page_count_needs_a_number(
            (chain.answer)(block, Call::PageCount),
            id,
        );
    }
}

/// The pages of a node are its answers to the calls for them.
pub proof fn law_pages_of(chain: Chain, block: Seq<u8>, n: u32)
    ensures
        pages_of(chain, block, n as nat).len() == n,
        forall|i: int|
            0 <= i < n ==> #[trigger] pages_of(chain, block, n as nat)[i] == (chain.answer)(
                block,
                Call::SlotsPage(i as u32),
            ),
{
}

} // verus!
