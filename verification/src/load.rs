//! Loading a configuration: what to ask the node, and what to make of each reply.

use crate::config::{
    answer_for, config_of, config_result, has_config_type, law_config_in_bounds,
    law_typed_answer_is_readable, neighbor_in_bounds,
};
use crate::contract::{contract_fault, required_list, ContractAnalysis, RequiredFunctions};
use crate::signature::StacksEpochId;
use crate::slots::{
    law_each_signer_in_bounds, law_signers_total, page_count_of, page_of, signers_of, slot_sum,
    with_page, SignerSlots, SignersView,
};
use crate::text::hex_text;
use crate::types::{
    contract_reason, invalid_contract, write_contract_reason, ConfigView, ErrorView, Limits,
    NetError, QualifiedContractIdentifier, StackerDBConfig, StacksAddress,
    STACKERDB_CONFIG_FUNCTION, STACKERDB_PAGE_COUNT_FUNCTION, STACKERDB_PAGE_MAX,
    STACKERDB_SLOTS_FUNCTION,
};
use crate::value::ClarityValue;
use vstd::prelude::*;
use vstd::string::*;

verus! {

/// The identifier of a block.
#[derive(Debug, Clone, Copy, PartialEq, Eq)]
pub struct StacksBlockId(pub [u8; 32]);

/// What `stacks_common::types::chainstate::StacksBlockId::new` returns, for a consensus hash and
/// the hash of a block.
pub uninterp spec fn block_id_of(consensus_hash: Seq<u8>, block_hash: Seq<u8>) -> Seq<u8>;

impl StacksBlockId {
    /// The identifier of the block with the hash `block_hash`, in the sortition with the
    /// consensus hash `consensus_hash`.
    ///
    /// Calls `stacks_common::types::chainstate::StacksBlockId::new`. The identifier is a hash of
    /// the two, and is only named here.
    #[verifier::external_body]
    fn new(consensus_hash: &[u8; 20], block_hash: &[u8; 32]) -> (id: StacksBlockId)
        ensures
            id.0@ == block_id_of(consensus_hash@, block_hash@),
    {
        let id = stacks_common::types::chainstate::StacksBlockId::new(
            &stacks_common::types::chainstate::ConsensusHash(*consensus_hash),
            &stacks_common::types::chainstate::BlockHeaderHash(*block_hash),
        );
        StacksBlockId(id.0)
    }

    /// Writes the identifier in hexadecimal.
    ///
    /// Calls `stacks_common::util::hash::to_hex`, which writes two lower-case digits for each
    /// byte.
    #[verifier::external_body]
    fn to_hex(&self) -> (text: String)
        ensures
            text@ == hex_text(self.0@),
    {
        stacks_common::util::hash::to_hex(&self.0)
    }
}

/// The highest block that the node knows.
#[derive(Debug, Clone, Copy, PartialEq, Eq)]
pub struct ChainTip {
    pub consensus_hash: [u8; 20],
    pub block_hash: [u8; 32],
}

/// What the node has of a contract, as of a block.
#[derive(Debug)]
pub enum AnalysisReply {
    /// The state of the block cannot be read.
    Unavailable,
    /// There is no such contract.
    Missing,
    Found(ContractAnalysis),
}

/// A function of the contract, with its argument.
#[derive(Debug, Clone, Copy, PartialEq, Eq)]
pub enum Call {
    PageCount,
    /// The page with this number; the first is zero.
    SlotsPage(u32),
    Config,
}

impl Call {
    /// The name of the function.
    pub open spec fn spec_function_name(&self) -> Seq<char> {
        match *self {
            Call::PageCount => STACKERDB_PAGE_COUNT_FUNCTION@,
            Call::SlotsPage(_) => STACKERDB_SLOTS_FUNCTION@,
            Call::Config => STACKERDB_CONFIG_FUNCTION@,
        }
    }

    /// The argument, an unsigned integer, if the function takes one.
    pub open spec fn spec_page_argument(&self) -> Option<u128> {
        match *self {
            Call::SlotsPage(page) => Some(page as u128),
            _ => None,
        }
    }

    /// The name of the function.
    pub fn function_name(&self) -> (name: &'static str)
        ensures
            name@ == self.spec_function_name(),
            name@ == (match *self {
                Call::PageCount => STACKERDB_PAGE_COUNT_FUNCTION@,
                Call::SlotsPage(_) => STACKERDB_SLOTS_FUNCTION@,
                Call::Config => STACKERDB_CONFIG_FUNCTION@,
            }),
    {
        match self {
            Call::PageCount => STACKERDB_PAGE_COUNT_FUNCTION,
            Call::SlotsPage(_) => STACKERDB_SLOTS_FUNCTION,
            Call::Config => STACKERDB_CONFIG_FUNCTION,
        }
    }

    /// The argument, an unsigned integer, if the function takes one.
    pub fn page_argument(&self) -> (arg: Option<u128>)
        ensures
            arg == self.spec_page_argument(),
            arg == (match *self {
                Call::SlotsPage(page) => Some(page as u128),
                _ => None,
            }),
    {
        match self {
            Call::SlotsPage(page) => Some(*page as u128),
            _ => None,
        }
    }
}

/// A reply of the node.
#[derive(Debug)]
pub enum Event {
    /// The highest block, if there is one.
    Tip(Option<ChainTip>),
    /// The height of the burnchain block of a sortition, if there is such a sortition.
    Snapshot(Option<u64>),
    /// The epoch of a burnchain block, if one is defined.
    Epoch(Option<StacksEpochId>),
    Analysis(AnalysisReply),
    /// What a function of the contract returned.
    Answer(ClarityValue),
}

/// Why loading cannot go on, through a fault of the node itself.
#[derive(Debug, Clone, Copy, PartialEq, Eq)]
pub enum Fatal {
    /// There is no sortition for the highest block.
    MissingSnapshot,
    /// There is no epoch for the highest block.
    NoEpoch,
    /// The control metadata does not have the type that the contract was found to have.
    MisshapenConfig,
}

/// What is to be done next.
#[derive(Debug, PartialEq, Eq)]
pub enum Action {
    ReadTip,
    /// Read the sortition with this consensus hash.
    ReadSnapshot([u8; 20]),
    /// Read the epoch of the burnchain block with this height.
    ReadEpoch(u64),
    /// Read the contract, as of this block.
    ReadAnalysis(StacksBlockId),
    /// Call a function of the contract, as of this block.
    Evaluate(StacksBlockId, Call),
    /// The result is there.
    Return,
    Halt(Fatal),
}

/// How far loading has come.
#[derive(Debug)]
pub enum Step {
    AwaitTip,
    AwaitSnapshot(ChainTip),
    AwaitEpoch(StacksBlockId, u64),
    AwaitAnalysis(StacksBlockId, StacksEpochId),
    AwaitPageCount(StacksBlockId),
    /// The signers of the pages so far, the number of the page to come, and that of all pages.
    AwaitPage(StacksBlockId, SignerSlots, u32, u32),
    AwaitConfig(StacksBlockId, Vec<(StacksAddress, u32)>),
    Done(Result<StackerDBConfig, NetError>),
    Halted(Fatal),
}

/// What is to be done next, with the bytes of a block's identifier.
pub enum ActionView {
    ReadTip,
    ReadSnapshot(Seq<u8>),
    ReadEpoch(u64),
    ReadAnalysis(Seq<u8>),
    Evaluate(Seq<u8>, Call),
    Return,
    Halt(Fatal),
}

impl View for Action {
    type V = ActionView;

    open spec fn view(&self) -> ActionView {
        match self {
            Action::ReadTip => ActionView::ReadTip,
            Action::ReadSnapshot(consensus_hash) => ActionView::ReadSnapshot(consensus_hash@),
            Action::ReadEpoch(height) => ActionView::ReadEpoch(*height),
            Action::ReadAnalysis(block) => ActionView::ReadAnalysis(block.0@),
            Action::Evaluate(block, call) => ActionView::Evaluate(block.0@, *call),
            Action::Return => ActionView::Return,
            Action::Halt(fatal) => ActionView::Halt(*fatal),
        }
    }
}

/// What a step says.
#[verifier::ext_equal]
pub enum StepView {
    AwaitTip,
    AwaitSnapshot(ChainTip),
    AwaitEpoch(Seq<u8>, u64),
    AwaitAnalysis(Seq<u8>, StacksEpochId),
    AwaitPageCount(Seq<u8>),
    AwaitPage(Seq<u8>, SignersView, u32, u32),
    AwaitConfig(Seq<u8>, Seq<(StacksAddress, u32)>),
    Done(Result<ConfigView, ErrorView>),
    Halted(Fatal),
}

impl View for Step {
    type V = StepView;

    open spec fn view(&self) -> StepView {
        match self {
            Step::AwaitTip => StepView::AwaitTip,
            Step::AwaitSnapshot(tip) => StepView::AwaitSnapshot(*tip),
            Step::AwaitEpoch(block, height) => StepView::AwaitEpoch(block.0@, *height),
            Step::AwaitAnalysis(block, epoch) => StepView::AwaitAnalysis(block.0@, *epoch),
            Step::AwaitPageCount(block) => StepView::AwaitPageCount(block.0@),
            Step::AwaitPage(block, slots, page, pages) => StepView::AwaitPage(
                block.0@,
                slots@,
                *page,
                *pages,
            ),
            Step::AwaitConfig(block, signers) => StepView::AwaitConfig(block.0@, signers@),
            Step::Done(result) => StepView::Done(config_result(*result)),
            Step::Halted(fatal) => StepView::Halted(*fatal),
        }
    }
}

/// The action of a step.
pub open spec fn action_of(step: StepView) -> ActionView {
    match step {
        StepView::AwaitTip => ActionView::ReadTip,
        StepView::AwaitSnapshot(tip) => ActionView::ReadSnapshot(tip.consensus_hash@),
        StepView::AwaitEpoch(_, height) => ActionView::ReadEpoch(height),
        StepView::AwaitAnalysis(block, _) => ActionView::ReadAnalysis(block),
        StepView::AwaitPageCount(block) => ActionView::Evaluate(block, Call::PageCount),
        StepView::AwaitPage(block, _, page, _) => ActionView::Evaluate(
            block,
            Call::SlotsPage(page),
        ),
        StepView::AwaitConfig(block, _) => ActionView::Evaluate(block, Call::Config),
        StepView::Done(_) => ActionView::Return,
        StepView::Halted(fatal) => ActionView::Halt(fatal),
    }
}

/// The error for a contract that cannot be read as of a block.
pub open spec fn cannot_evaluate(id: QualifiedContractIdentifier, block: Seq<u8>) -> ErrorView {
    ErrorView::InvalidStackerDBContract(
        id,
        contract_reason("Could not evaluate contract "@, id, " at "@ + hex_text(block)),
    )
}

/// The error for a contract that does not have the functions that it must have.
pub open spec fn does_not_conform(id: QualifiedContractIdentifier, fault: Seq<char>) -> ErrorView {
    ErrorView::InvalidStackerDBContract(
        id,
        contract_reason("Contract "@, id, " does not conform to StackerDB trait: "@ + fault),
    )
}

/// The step after what is known of the contract.
pub open spec fn after_analysis(
    block: Seq<u8>,
    epoch: StacksEpochId,
    reply: AnalysisReply,
    id: QualifiedContractIdentifier,
) -> StepView {
    match reply {
        AnalysisReply::Unavailable => StepView::Done(Err(cannot_evaluate(id, block))),
        AnalysisReply::Missing => StepView::Done(Err(ErrorView::NoSuchStackerDB(id))),
        AnalysisReply::Found(analysis) => match contract_fault(required_list(), epoch, analysis) {
            Some(fault) => StepView::Done(Err(does_not_conform(id, fault))),
            None => StepView::AwaitPageCount(block),
        },
    }
}

/// The step when the signers of the pages before `page` are known.
pub open spec fn after_pages(
    block: Seq<u8>,
    slots: SignersView,
    page: nat,
    pages: u32,
) -> StepView {
    if page < pages {
        StepView::AwaitPage(block, slots, page as u32, pages)
    } else {
        StepView::AwaitConfig(block, slots.signers)
    }
}

/// The step after an event. An event that was not awaited changes nothing.
pub open spec fn next_step(
    step: StepView,
    event: Event,
    id: QualifiedContractIdentifier,
    limits: Limits,
) -> StepView {
    match (step, event) {
        (StepView::AwaitTip, Event::Tip(tip)) => match tip {
            None => StepView::Done(Err(ErrorView::NoSuchStackerDB(id))),
            Some(tip) => StepView::AwaitSnapshot(tip),
        },
        (StepView::AwaitSnapshot(tip), Event::Snapshot(height)) => match height {
            None => StepView::Halted(Fatal::MissingSnapshot),
            Some(height) => StepView::AwaitEpoch(
                block_id_of(tip.consensus_hash@, tip.block_hash@),
                height,
            ),
        },
        (StepView::AwaitEpoch(block, _), Event::Epoch(epoch)) => match epoch {
            None => StepView::Halted(Fatal::NoEpoch),
            Some(epoch) => StepView::AwaitAnalysis(block, epoch),
        },
        (StepView::AwaitAnalysis(block, epoch), Event::Analysis(reply)) => after_analysis(
            block,
            epoch,
            reply,
            id,
        ),
        (StepView::AwaitPageCount(block), Event::Answer(value)) => match page_count_of(value, id) {
            Err(error) => StepView::Done(Err(error)),
            Ok(pages) => after_pages(
                block,
                SignersView { signers: Seq::empty(), total: 0 },
                0,
                pages,
            ),
        },
        (StepView::AwaitPage(block, slots, page, pages), Event::Answer(value)) => match page_of(
            value,
            id,
        ) {
            Err(error) => StepView::Done(Err(error)),
            Ok(entries) => match with_page(slots, entries, id, limits) {
                Err(error) => StepView::Done(Err(error)),
                Ok(slots) => after_pages(block, slots, page as nat + 1, pages),
            },
        },
        (StepView::AwaitConfig(_, signers), Event::Answer(value)) => match answer_for(
            config_of(value, signers, id, limits),
            id,
        ) {
            None => StepView::Halted(Fatal::MisshapenConfig),
            Some(result) => StepView::Done(result),
        },
        _ => step,
    }
}

/// The loading of one configuration.
#[derive(Debug)]
pub struct Load {
    pub contract_id: QualifiedContractIdentifier,
    pub limits: Limits,
    pub step: Step,
}

impl StackerDBConfig {
    /// Begins to load the configuration from its controlling smart contract, as of the highest
    /// block.
    pub fn from_smart_contract(contract_id: &QualifiedContractIdentifier, limits: &Limits) -> (load:
        Load)
        ensures
            load.contract_id == *contract_id,
            load.limits == *limits,
            load.step@ == StepView::AwaitTip,
    {
        Load { contract_id: contract_id.clone(), limits: *limits, step: Step::AwaitTip }
    }
}

impl Load {
    /// What is to be done next.
    pub fn action(&self) -> (action: Action)
        ensures
            action@ == action_of(self.step@),
    {
        match &self.step {
            Step::AwaitTip => Action::ReadTip,
            Step::AwaitSnapshot(tip) => Action::ReadSnapshot(tip.consensus_hash),
            Step::AwaitEpoch(_, height) => Action::ReadEpoch(*height),
            Step::AwaitAnalysis(block, _) => Action::ReadAnalysis(*block),
            Step::AwaitPageCount(block) => Action::Evaluate(*block, Call::PageCount),
            Step::AwaitPage(block, _, page, _) => Action::Evaluate(*block, Call::SlotsPage(*page)),
            Step::AwaitConfig(block, _) => Action::Evaluate(*block, Call::Config),
            Step::Done(_) => Action::Return,
            Step::Halted(fatal) => Action::Halt(*fatal),
        }
    }

    /// Goes on with a reply of the node.
    pub fn advance(self, event: Event, required: &RequiredFunctions) -> (load: Load)
        ensures
            load.contract_id == self.contract_id,
            load.limits == self.limits,
            load.step@ == next_step(self.step@, event, self.contract_id, self.limits),
    {
        let Load { contract_id, limits, step } = self;
        let step = match (step, event) {
            (Step::AwaitTip, Event::Tip(tip)) => match tip {
                None => Step::Done(Err(NetError::NoSuchStackerDB(contract_id.clone()))),
                Some(tip) => Step::AwaitSnapshot(tip),
            },
            (Step::AwaitSnapshot(tip), Event::Snapshot(height)) => match height {
                None => Step::Halted(Fatal::MissingSnapshot),
                Some(height) => Step::AwaitEpoch(
                    StacksBlockId::new(&tip.consensus_hash, &tip.block_hash),
                    height,
                ),
            },
            (Step::AwaitEpoch(block, _), Event::Epoch(epoch)) => match epoch {
                None => Step::Halted(Fatal::NoEpoch),
                Some(epoch) => Step::AwaitAnalysis(block, epoch),
            },
            (Step::AwaitAnalysis(block, epoch), Event::Analysis(reply)) => check_analysis(
                block,
                epoch,
                reply,
                &contract_id,
                required,
            ),
            (
                Step::AwaitPageCount(block),
                Event::Answer(value),
            ) => match StackerDBConfig::eval_page_count(&value, &contract_id) {
                Err(error) => Step::Done(Err(error)),
                Ok(pages) => {
                    let slots = SignerSlots { signers: Vec::new(), total: 0 };
                    assert(slots@.signers =~= Seq::empty());
                    go_on(block, slots, 0, pages)
                },
            },
            (
                Step::AwaitPage(block, slots, page, pages),
                Event::Answer(value),
            ) => match StackerDBConfig::eval_signer_slots(slots, &value, &contract_id, &limits) {
                Err(error) => Step::Done(Err(error)),
                Ok(slots) => go_on(block, slots, page as u64 + 1, pages),
            },
            (
                Step::AwaitConfig(_, signers),
                Event::Answer(value),
            ) => match StackerDBConfig::try_eval_config(&value, &contract_id, signers, &limits) {
                None => Step::Halted(Fatal::MisshapenConfig),
                Some(result) => Step::Done(result),
            },
            (step, _) => step,
        };
        Load { contract_id, limits, step }
    }
}

/// The step after what is known of the contract.
fn check_analysis(
    block: StacksBlockId,
    epoch: StacksEpochId,
    reply: AnalysisReply,
    contract_id: &QualifiedContractIdentifier,
    required: &RequiredFunctions,
) -> (step: Step)
    ensures
        step@ == after_analysis(block.0@, epoch, reply, *contract_id),
{
    match reply {
        AnalysisReply::Unavailable => {
            let mut tail = String::from_str(" at ");
            tail.append(block.to_hex().as_str());
            Step::Done(
                Err(
                    invalid_contract(
                        contract_id,
                        write_contract_reason(
                            "Could not evaluate contract ",
                            contract_id,
                            tail.as_str(),
                        ),
                    ),
                ),
            )
        },
        AnalysisReply::Missing => Step::Done(Err(NetError::NoSuchStackerDB(contract_id.clone()))),
        AnalysisReply::Found(analysis) => match StackerDBConfig::is_contract_valid(
            required,
            &epoch,
            &analysis,
        ) {
            Ok(_) => Step::AwaitPageCount(block),
            Err(fault) => {
                let mut tail = String::from_str(" does not conform to StackerDB trait: ");
                tail.append(fault.as_str());
                Step::Done(
                    Err(
                        invalid_contract(
                            contract_id,
                            write_contract_reason("Contract ", contract_id, tail.as_str()),
                        ),
                    ),
                )
            },
        },
    }
}

/// The step when the signers of the pages before `page` are known.
fn go_on(block: StacksBlockId, slots: SignerSlots, page: u64, pages: u32) -> (step: Step)
    ensures
        step@ == after_pages(block.0@, slots@, page as nat, pages),
{
    if page < pages as u64 {
        Step::AwaitPage(block, slots, page as u32, pages)
    } else {
        Step::AwaitConfig(block, slots.signers)
    }
}

/// What a node replies to every question, while a configuration is loaded.
pub struct Chain {
    pub tip: Option<ChainTip>,
    /// The height of the burnchain block of a sortition, by consensus hash.
    pub snapshot: spec_fn(Seq<u8>) -> Option<u64>,
    /// The epoch of a burnchain block, by height.
    pub epoch: spec_fn(u64) -> Option<StacksEpochId>,
    /// The contract, as of a block.
    pub analysis: spec_fn(Seq<u8>) -> AnalysisReply,
    /// What a function of the contract returns, as of a block.
    pub answer: spec_fn(Seq<u8>, Call) -> ClarityValue,
}

/// The reply of a node to an action, if it asks for one.
pub open spec fn reply(chain: Chain, action: ActionView) -> Option<Event> {
    match action {
        ActionView::ReadTip => Some(Event::Tip(chain.tip)),
        ActionView::ReadSnapshot(consensus_hash) => Some(
            Event::Snapshot((chain.snapshot)(consensus_hash)),
        ),
        ActionView::ReadEpoch(height) => Some(Event::Epoch((chain.epoch)(height))),
        ActionView::ReadAnalysis(block) => Some(Event::Analysis((chain.analysis)(block))),
        ActionView::Evaluate(block, call) => Some(Event::Answer((chain.answer)(block, call))),
        ActionView::Return => None,
        ActionView::Halt(_) => None,
    }
}

/// The step after `n` replies of a node.
pub open spec fn run(
    step: StepView,
    chain: Chain,
    id: QualifiedContractIdentifier,
    limits: Limits,
    n: nat,
) -> StepView
    decreases n,
{
    if n == 0 {
        step
    } else {
        let before = run(step, chain, id, limits, (n - 1) as nat);
        match reply(chain, action_of(before)) {
            Some(event) => next_step(before, event, id, limits),
            None => before,
        }
    }
}

/// The first `n` pages of signers that a node replies with.
pub open spec fn pages_of(chain: Chain, block: Seq<u8>, n: nat) -> Seq<ClarityValue> {
    Seq::new(n, |i: int| (chain.answer)(block, Call::SlotsPage(i as u32)))
}

/// The last step when the contract is known to have all its functions.
pub open spec fn last_step_from_contract(
    chain: Chain,
    block: Seq<u8>,
    id: QualifiedContractIdentifier,
    limits: Limits,
) -> StepView {
    match page_count_of((chain.answer)(block, Call::PageCount), id) {
        Err(error) => StepView::Done(Err(error)),
        Ok(pages) => match signers_of(pages_of(chain, block, pages as nat), id, limits) {
            Err(error) => StepView::Done(Err(error)),
            Ok(slots) => match answer_for(
                config_of((chain.answer)(block, Call::Config), slots.signers, id, limits),
                id,
            ) {
                None => StepView::Halted(Fatal::MisshapenConfig),
                Some(result) => StepView::Done(result),
            },
        },
    }
}

/// The step at which loading ends: with the configuration that the contract states as of the
/// highest block, with an error, or halted.
pub open spec fn last_step(
    chain: Chain,
    id: QualifiedContractIdentifier,
    limits: Limits,
) -> StepView {
    match chain.tip {
        None => StepView::Done(Err(ErrorView::NoSuchStackerDB(id))),
        Some(tip) => match (chain.snapshot)(tip.consensus_hash@) {
            None => StepView::Halted(Fatal::MissingSnapshot),
            Some(height) => match (chain.epoch)(height) {
                None => StepView::Halted(Fatal::NoEpoch),
                Some(epoch) => {
                    let block = block_id_of(tip.consensus_hash@, tip.block_hash@);
                    match (chain.analysis)(block) {
                        AnalysisReply::Unavailable => StepView::Done(
                            Err(cannot_evaluate(id, block)),
                        ),
                        AnalysisReply::Missing => StepView::Done(
                            Err(ErrorView::NoSuchStackerDB(id)),
                        ),
                        AnalysisReply::Found(analysis) => match contract_fault(
                            required_list(),
                            epoch,
                            analysis,
                        ) {
                            Some(fault) => StepView::Done(Err(does_not_conform(id, fault))),
                            None => last_step_from_contract(chain, block, id, limits),
                        },
                    }
                },
            },
        },
    }
}

/// Loading has ended.
pub open spec fn has_ended(step: StepView) -> bool {
    step is Done || step is Halted
}

/// No event changes a step at which loading has ended.
pub proof fn law_end_is_final(
    step: StepView,
    event: Event,
    id: QualifiedContractIdentifier,
    limits: Limits,
)
    requires
        has_ended(step),
    ensures
        next_step(step, event, id, limits) == step,
        action_of(step) is Return <==> step is Done,
{
}

proof fn lemma_run_stays_ended(
    step: StepView,
    chain: Chain,
    id: QualifiedContractIdentifier,
    limits: Limits,
    n: nat,
    m: nat,
)
    requires
        n <= m,
        has_ended(run(step, chain, id, limits, n)),
    ensures
        run(step, chain, id, limits, m) == run(step, chain, id, limits, n),
    decreases m,
{
    if n < m {
        lemma_run_stays_ended(step, chain, id, limits, n, (m - 1) as nat);
    }
}

/// After the page count and `k` pages, the signers of these pages are known, or loading has
/// ended with the error of one of them.
pub(crate) proof fn lemma_run_reads_pages(
    chain: Chain,
    block: Seq<u8>,
    id: QualifiedContractIdentifier,
    limits: Limits,
    pages: u32,
    k: nat,
)
    requires
        page_count_of((chain.answer)(block, Call::PageCount), id) == Ok::<u32, ErrorView>(pages),
        k <= pages,
    ensures
        run(StepView::AwaitPageCount(block), chain, id, limits, k + 1) == (match signers_of(
            pages_of(chain, block, k),
            id,
            limits,
        ) {
            Err(error) => StepView::Done(Err(error)),
            Ok(slots) => after_pages(block, slots, k, pages),
        }),
    decreases k,
{
    let start = StepView::AwaitPageCount(block);
    if k == 0 {
        reveal_with_fuel(run, 2);
    } else {
        let before = (k - 1) as nat;
        lemma_run_reads_pages(chain, block, id, limits, pages, before);
        assert(pages_of(chain, block, k).drop_last() =~= pages_of(chain, block, before));
        assert(pages_of(chain, block, k).last() == (chain.answer)(
            block,
            Call::SlotsPage(before as u32),
        ));
    }
}

proof fn lemma_run_from_contract(
    chain: Chain,
    block: Seq<u8>,
    id: QualifiedContractIdentifier,
    limits: Limits,
) -> (n: nat)
    ensures
        n <= u32::MAX as nat + 2,
        run(StepView::AwaitPageCount(block), chain, id, limits, n) == last_step_from_contract(
            chain,
            block,
            id,
            limits,
        ),
{
    let start = StepView::AwaitPageCount(block);
    match page_count_of((chain.answer)(block, Call::PageCount), id) {
        Err(_) => {
            reveal_with_fuel(run, 2);
            1
        },
        Ok(pages) => {
            lemma_run_reads_pages(chain, block, id, limits, pages, pages as nat);
            match signers_of(pages_of(chain, block, pages as nat), id, limits) {
                Err(_) => pages as nat + 1,
                Ok(_) => pages as nat + 2,
            }
        },
    }
}

pub(crate) proof fn lemma_run_in_two(
    step: StepView,
    chain: Chain,
    id: QualifiedContractIdentifier,
    limits: Limits,
    n: nat,
    m: nat,
)
    ensures
        run(step, chain, id, limits, n + m) == run(
            run(step, chain, id, limits, n),
            chain,
            id,
            limits,
            m,
        ),
    decreases m,
{
    if m > 0 {
        lemma_run_in_two(step, chain, id, limits, n, (m - 1) as nat);
    }
}

/// Loading ends, whatever the node replies, and with what the replies say: the configuration is
/// the one that the contract states as of the highest block, with the signers of all its pages.
pub proof fn law_loading_ends_with_what_the_contract_states(
    chain: Chain,
    id: QualifiedContractIdentifier,
    limits: Limits,
    n: nat,
)
    requires
        n >= u32::MAX as nat + 6,
    ensures
        run(StepView::AwaitTip, chain, id, limits, n) == last_step(chain, id, limits),
        has_ended(last_step(chain, id, limits)),
{
    let start = StepView::AwaitTip;
    reveal_with_fuel(run, 5);
    let fourth = run(start, chain, id, limits, 4);
    if has_ended(fourth) {
        lemma_run_stays_ended(start, chain, id, limits, 4, n);
    } else {
        let block = fourth->AwaitPageCount_0;
        assert(fourth == StepView::AwaitPageCount(block));
        let rest = lemma_run_from_contract(chain, block, id, limits);
        lemma_run_in_two(start, chain, id, limits, 4, rest);
        lemma_run_stays_ended(start, chain, id, limits, 4 + rest, n);
    }
}

/// Every configuration that is loaded is in bounds: its signers have, together and each, no
/// more slots than they may, its chunks are no larger than the node allows, and its replicas can
/// be dialed.
pub proof fn law_loaded_config_in_bounds(
    chain: Chain,
    id: QualifiedContractIdentifier,
    limits: Limits,
)
    ensures
        last_step(chain, id, limits) matches StepView::Done(Ok(config)) ==> {
            &&& slot_sum(config.signers) <= limits.inv_max
            &&& forall|i: int|
                0 <= i < config.signers.len() ==> (#[trigger] config.signers[i]).1
                    <= STACKERDB_PAGE_MAX
            &&& config.chunk_size <= limits.max_chunk_size
            &&& forall|i: int|
                0 <= i < config.hint_replicas.len() ==> neighbor_in_bounds(
                    #[trigger] config.hint_replicas[i],
                )
        },
{
    if let StepView::Done(Ok(config)) = last_step(chain, id, limits) {
        let tip = chain.tip->Some_0;
        let block = block_id_of(tip.consensus_hash@, tip.block_hash@);
        let pages = page_count_of((chain.answer)(block, Call::PageCount), id)->Ok_0;
        let values = pages_of(chain, block, pages as nat);
        let signers = signers_of(values, id, limits)->Ok_0.signers;
        law_signers_total(values, id, limits);
        law_each_signer_in_bounds(values, id, limits);
        law_config_in_bounds((chain.answer)(block, Call::Config), signers, id, limits);
    }
}

/// The contract that a node has, as of the highest block, has all the functions that it must
/// have.
pub open spec fn contract_conforms(chain: Chain) -> bool {
    &&& chain.tip matches Some(tip)
    &&& (chain.snapshot)(tip.consensus_hash@) matches Some(height)
    &&& (chain.epoch)(height) matches Some(epoch)
    &&& (chain.analysis)(block_id_of(tip.consensus_hash@, tip.block_hash@)) matches
        AnalysisReply::Found(analysis)
    &&& contract_fault(required_list(), epoch, analysis) is None
}

/// What is known of the chain at a step, and of the pages before the one that is awaited.
spec fn is_known(
    chain: Chain,
    id: QualifiedContractIdentifier,
    limits: Limits,
    step: StepView,
) -> bool {
    let tip = chain.tip->Some_0;
    let block_of_tip = block_id_of(tip.consensus_hash@, tip.block_hash@);
    match step {
        StepView::AwaitSnapshot(t) => chain.tip == Some(t),
        StepView::AwaitEpoch(block, height) => chain.tip is Some && block == block_of_tip && (
        chain.snapshot)(tip.consensus_hash@) == Some(height),
        StepView::AwaitAnalysis(block, epoch) => {
            &&& chain.tip is Some && block == block_of_tip
            &&& (chain.snapshot)(tip.consensus_hash@) matches Some(height)
            &&& (chain.epoch)(height) == Some(epoch)
        },
        StepView::AwaitPageCount(block) => contract_conforms(chain) && block == block_of_tip,
        StepView::AwaitPage(block, slots, page, pages) => {
            &&& contract_conforms(chain) && block == block_of_tip
            &&& page < pages
            &&& page_count_of((chain.answer)(block, Call::PageCount), id) == Ok::<u32, ErrorView>(
                pages,
            )
            &&& signers_of(pages_of(chain, block, page as nat), id, limits) == Ok::<_, ErrorView>(
                slots,
            )
        },
        StepView::AwaitConfig(block, signers) => {
            &&& contract_conforms(chain) && block == block_of_tip
            &&& page_count_of((chain.answer)(block, Call::PageCount), id) matches Ok(pages)
            &&& signers_of(pages_of(chain, block, pages as nat), id, limits) matches Ok(slots)
            &&& slots.signers == signers
        },
        _ => true,
    }
}

proof fn lemma_run_knows(
    chain: Chain,
    id: QualifiedContractIdentifier,
    limits: Limits,
    n: nat,
)
    ensures
        is_known(chain, id, limits, run(StepView::AwaitTip, chain, id, limits, n)),
    decreases n,
{
    if n > 0 {
        lemma_run_knows(chain, id, limits, (n - 1) as nat);
        if let StepView::AwaitPage(block, _, page, _) = run(
            StepView::AwaitTip,
            chain,
            id,
            limits,
            (n - 1) as nat,
        ) {
            let values = pages_of(chain, block, page as nat + 1);
            assert(values.drop_last() =~= pages_of(chain, block, page as nat));
            assert(values.last() == (chain.answer)(block, Call::SlotsPage(page)));
        }
    }
}

/// No function of a contract is called unless the contract was found to have all the functions
/// that it must have, and then as of the highest block.
pub proof fn law_only_conforming_contracts_are_called(
    chain: Chain,
    id: QualifiedContractIdentifier,
    limits: Limits,
    n: nat,
)
    ensures
        action_of(run(StepView::AwaitTip, chain, id, limits, n)) matches ActionView::Evaluate(
            block,
            _,
        ) ==> {
            &&& contract_conforms(chain)
            &&& block == block_id_of(
                chain.tip->Some_0.consensus_hash@,
                chain.tip->Some_0.block_hash@,
            )
        },
{
    lemma_run_knows(chain, id, limits, n);
}

/// Only pages below the number that the contract answered are asked for, one after the other, and
/// none after a page that was refused: when a page is asked for, the signers of just the pages
/// before it are known.
pub proof fn law_pages_are_asked_in_range(
    chain: Chain,
    id: QualifiedContractIdentifier,
    limits: Limits,
    n: nat,
)
    ensures
        run(StepView::AwaitTip, chain, id, limits, n) matches StepView::AwaitPage(
            block,
            slots,
            page,
            pages,
        ) ==> {
            &&& page_count_of((chain.answer)(block, Call::PageCount), id) == Ok::<u32, ErrorView>(
                pages,
            )
            &&& page < pages
            &&& signers_of(pages_of(chain, block, page as nat), id, limits) == Ok::<_, ErrorView>(
                slots,
            )
        },
{
    lemma_run_knows(chain, id, limits, n);
}

/// The control metadata is asked for only when every page was accepted, and then the signers of
/// all pages are known.
pub proof fn law_config_is_asked_after_all_pages(
    chain: Chain,
    id: QualifiedContractIdentifier,
    limits: Limits,
    n: nat,
)
    ensures
        run(StepView::AwaitTip, chain, id, limits, n) matches StepView::AwaitConfig(
            block,
            signers,
        ) ==> {
            &&& page_count_of((chain.answer)(block, Call::PageCount), id) matches Ok(pages)
            &&& signers_of(pages_of(chain, block, pages as nat), id, limits) matches Ok(slots)
            &&& slots.signers == signers
        },
{
    lemma_run_knows(chain, id, limits, n);
}

/// Loading does not halt on the control metadata of a contract whose answers have the type that
/// every StackerDB contract promises.
pub proof fn law_typed_contract_does_not_halt(
    chain: Chain,
    block: Seq<u8>,
    id: QualifiedContractIdentifier,
    limits: Limits,
)
    requires
        has_config_type((chain.answer)(block, Call::Config)),
    ensures
        last_step_from_contract(chain, block, id, limits) is Done,
{
    if let Ok(pages) = page_count_of((chain.answer)(block, Call::PageCount), id) {
        if let Ok(slots) = signers_of(pages_of(chain, block, pages as nat), id, limits) {
            law_typed_answer_is_readable(
                (chain.answer)(block, Call::Config),
                slots.signers,
                id,
                limits,
            );
        }
    }
}

/// A contract without pages has no signers, and its control metadata is asked for at once.
pub proof fn law_no_pages_no_signers(
    block: Seq<u8>,
    answer: ClarityValue,
    id: QualifiedContractIdentifier,
    limits: Limits,
)
    requires
        page_count_of(answer, id) == Ok::<u32, ErrorView>(0),
    ensures
        next_step(StepView::AwaitPageCount(block), Event::Answer(answer), id, limits)
            == StepView::AwaitConfig(block, Seq::empty()),
{
}

} // verus!
