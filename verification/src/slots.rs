//! The signers of a StackerDB: how many pages a contract has of them, and each page.

use crate::text::{decimal, decimal_text};
use crate::types::{
    address_of, contract_reason, function_reason, invalid_contract, write_contract_reason,
    write_function_reason, ErrorView, Limits, NetError, PrincipalData,
    QualifiedContractIdentifier, StackerDBConfig, StacksAddress, StandardPrincipalData,
    STACKERDB_PAGE_COUNT_FUNCTION, STACKERDB_PAGE_MAX, STACKERDB_SLOTS_FUNCTION,
};
use crate::value::{get_uint, has_uint, uint_field, ClarityValue, ResponseData};
use vstd::prelude::*;
use vstd::string::*;

verus! {

/// The number of pages in the answer of a contract to `stackerdb-get-page-count`.
pub open spec fn page_count_of(value: ClarityValue, id: QualifiedContractIdentifier) -> Result<
    u32,
    ErrorView,
> {
    let refused = |tail: Seq<char>|
        Err(
            ErrorView::InvalidStackerDBContract(
                id,
                function_reason(id, STACKERDB_PAGE_COUNT_FUNCTION@, tail),
            ),
        );
    match value {
        ClarityValue::Response(ResponseData::Committed(data)) => match *data {
            ClarityValue::UInt(pages) => if pages > u32::MAX {
                refused("returned page count outside of u32 range"@)
            } else {
                Ok(pages as u32)
            },
            _ => refused("returned unexpected non-uint ok type"@),
        },
        ClarityValue::Response(ResponseData::Aborted(abort)) => refused(
            "failed: error "@ + abort.spec_text(),
        ),
        _ => refused("returned unexpected non-response type"@),
    }
}

/// The reason for refusing a signer with too many slots.
pub open spec fn too_many_for_one(id: QualifiedContractIdentifier) -> Seq<char> {
    contract_reason(
        "Contract `"@,
        id,
        "` set too many slots for one signer (max = "@ + decimal_text(STACKERDB_PAGE_MAX as nat)
            + ")"@,
    )
}

/// One signer and the number of its slots, or the reason for refusing the entry.
pub open spec fn slot_entry_of(entry: ClarityValue, id: QualifiedContractIdentifier) -> Result<
    (StacksAddress, u32),
    Seq<char>,
> {
    match entry {
        ClarityValue::Tuple(tuple) => if !(tuple@.contains_key("signer"@)
            && tuple@["signer"@] is Principal) {
            Err(
                function_reason(
                    id,
                    STACKERDB_SLOTS_FUNCTION@,
                    "returned tuple without `signer` entry of type `principal`"@,
                ),
            )
        } else if !has_uint(tuple@, "num-slots"@) {
            Err(
                function_reason(
                    id,
                    STACKERDB_SLOTS_FUNCTION@,
                    "returned tuple without `num-slots` entry of type `uint`"@,
                ),
            )
        } else if uint_field(tuple@, "num-slots"@) > STACKERDB_PAGE_MAX {
            Err(too_many_for_one(id))
        } else {
            match tuple@["signer"@]->Principal_0 {
                PrincipalData::Standard(principal) => Ok(
                    (address_of(principal), uint_field(tuple@, "num-slots"@) as u32),
                ),
                PrincipalData::Contract(_) => Err(
                    contract_reason(
                        "StackerDB contract `"@,
                        id,
                        "` set a contract principal as a writer, which is not supported"@,
                    ),
                ),
            }
        },
        _ => Err(
            function_reason(id, STACKERDB_SLOTS_FUNCTION@, "returned non-tuple slot entry"@),
        ),
    }
}

/// The signers of a page and the number of their slots. The list is read from its start, up to
/// the first entry that is refused or that brings too many slots.
pub open spec fn entries_of(list: Seq<ClarityValue>, id: QualifiedContractIdentifier) -> Result<
    (Seq<(StacksAddress, u32)>, u32),
    ErrorView,
>
    decreases list.len(),
{
    if list.len() == 0 {
        Ok((Seq::empty(), 0))
    } else {
        match entries_of(list.drop_last(), id) {
            Err(error) => Err(error),
            Ok((signers, total)) => match slot_entry_of(list.last(), id) {
                Err(reason) => Err(ErrorView::InvalidStackerDBContract(id, reason)),
                Ok((address, slots)) => if total + slots > u32::MAX {
                    Err(
                        ErrorView::OverflowError(
                            contract_reason("Contract "@, id, " set more than u32::MAX slots"@),
                        ),
                    )
                } else if total + slots > STACKERDB_PAGE_MAX {
                    Err(
                        ErrorView::InvalidStackerDBContract(
                            id,
                            contract_reason(
                                "Contract "@,
                                id,
                                " set more than the maximum number of slots"@,
                            ),
                        ),
                    )
                } else {
                    Ok((signers.push((address, slots)), (total + slots) as u32))
                },
            },
        }
    }
}

/// The signers and the number of their slots in the answer of a contract to
/// `stackerdb-get-signer-slots`.
pub open spec fn page_of(value: ClarityValue, id: QualifiedContractIdentifier) -> Result<
    (Seq<(StacksAddress, u32)>, u32),
    ErrorView,
> {
    let refused = |tail: Seq<char>|
        Err(
            ErrorView::InvalidStackerDBContract(
                id,
                function_reason(id, STACKERDB_SLOTS_FUNCTION@, tail),
            ),
        );
    match value {
        ClarityValue::Response(ResponseData::Committed(data)) => match *data {
            ClarityValue::List(list) => entries_of(list@, id),
            _ => refused("returned unexpected non-list ok type"@),
        },
        ClarityValue::Response(ResponseData::Aborted(abort)) => refused(
            "failed: error "@ + abort.spec_text(),
        ),
        _ => refused("returned unexpected non-response type"@),
    }
}

/// What is known of the signers when some of the pages have been read.
pub struct SignersView {
    pub signers: Seq<(StacksAddress, u32)>,
    pub total: u32,
}

/// The signers when one more page has been read.
pub open spec fn with_page(
    before: SignersView,
    page: (Seq<(StacksAddress, u32)>, u32),
    id: QualifiedContractIdentifier,
    limits: Limits,
) -> Result<SignersView, ErrorView> {
    if before.total + page.1 > u32::MAX {
        Err(
            ErrorView::OverflowError(
                contract_reason("Contract "@, id, " set more than u32::MAX slots"@),
            ),
        )
    } else if before.total + page.1 > limits.inv_max {
        Err(
            ErrorView::InvalidStackerDBContract(
                id,
                contract_reason(
                    "Contract "@,
                    id,
                    " set more than the maximum number of slots in a page (max = "@
                        + decimal_text(STACKERDB_PAGE_MAX as nat) + ")"@,
                ),
            ),
        )
    } else {
        Ok(
            SignersView {
                signers: before.signers + page.0,
                total: (before.total + page.1) as u32,
            },
        )
    }
}

/// The signers of pages that are read one after the other, up to the first that is refused.
pub open spec fn signers_of(
    pages: Seq<ClarityValue>,
    id: QualifiedContractIdentifier,
    limits: Limits,
) -> Result<SignersView, ErrorView>
    decreases pages.len(),
{
    if pages.len() == 0 {
        Ok(SignersView { signers: Seq::empty(), total: 0 })
    } else {
        match signers_of(pages.drop_last(), id, limits) {
            Err(error) => Err(error),
            Ok(before) => match page_of(pages.last(), id) {
                Err(error) => Err(error),
                Ok(page) => with_page(before, page, id, limits),
            },
        }
    }
}

/// The signers of the pages that have been read.
#[derive(Debug)]
pub struct SignerSlots {
    pub signers: Vec<(StacksAddress, u32)>,
    pub total: u32,
}

impl View for SignerSlots {
    type V = SignersView;

    open spec fn view(&self) -> SignersView {
        SignersView { signers: self.signers@, total: self.total }
    }
}

/// A prefix that is refused decides what becomes of the page.
proof fn lemma_entries_stop(list: Seq<ClarityValue>, n: int, id: QualifiedContractIdentifier)
    requires
        0 <= n <= list.len(),
        entries_of(list.take(n), id) is Err,
    ensures
        entries_of(list, id) == entries_of(list.take(n), id),
    decreases list.len() - n,
{
    if n == list.len() {
        assert(list.take(n) =~= list);
    } else {
        assert(list.take(n + 1).drop_last() =~= list.take(n));
        lemma_entries_stop(list, n + 1, id);
    }
}

impl StackerDBConfig {
    /// The number of pages in the answer of a contract to `stackerdb-get-page-count`.
    pub fn eval_page_count(
        pages_val: &ClarityValue,
        contract_id: &QualifiedContractIdentifier,
    ) -> (r: Result<u32, NetError>)
        ensures
            match r {
                Ok(pages) => page_count_of(*pages_val, *contract_id) == Ok::<u32, ErrorView>(pages),
                Err(error) => page_count_of(*pages_val, *contract_id) == Err::<u32, ErrorView>(
                    error@,
                ),
            },
            r is Ok <==> {
                &&& *pages_val matches ClarityValue::Response(ResponseData::Committed(data))
                &&& *data matches ClarityValue::UInt(n)
                &&& n <= u32::MAX
            },
            r matches Ok(pages) ==> *pages_val == ClarityValue::Response(
                ResponseData::Committed(Box::new(ClarityValue::UInt(pages as u128))),
            ),
    {
        let mut tail = String::new();
        match pages_val {
            ClarityValue::Response(ResponseData::Committed(data)) => match &**data {
                ClarityValue::UInt(pages) => {
                    if *pages <= u32::MAX as u128 {
                        return Ok(*pages as u32);
                    }
                    tail = String::from_str("returned page count outside of u32 range");
                },
                _ => {
                    tail = String::from_str("returned unexpected non-uint ok type");
                },
            },
            ClarityValue::Response(ResponseData::Aborted(abort)) => {
                tail = String::from_str("failed: error ");
                tail.append(abort.text().as_str());
            },
            _ => {
                tail = String::from_str("returned unexpected non-response type");
            },
        }
        Err(
            invalid_contract(
                contract_id,
                write_function_reason(contract_id, STACKERDB_PAGE_COUNT_FUNCTION, tail.as_str()),
            ),
        )
    }

    /// One signer and the number of its slots, or the reason for refusing the entry.
    pub fn parse_slot_entry(
        entry: &ClarityValue,
        contract_id: &QualifiedContractIdentifier,
    ) -> (r: Result<(StacksAddress, u32), String>)
        ensures
            match r {
                Ok(signer) => slot_entry_of(*entry, *contract_id) == Ok::<
                    (StacksAddress, u32),
                    Seq<char>,
                >(signer),
                Err(reason) => slot_entry_of(*entry, *contract_id) == Err::<
                    (StacksAddress, u32),
                    Seq<char>,
                >(reason@),
            },
            r is Ok <==> {
                &&& *entry matches ClarityValue::Tuple(tuple)
                &&& tuple@.contains_key("signer"@)
                &&& tuple@["signer"@] matches ClarityValue::Principal(PrincipalData::Standard(_))
                &&& tuple@.contains_key("num-slots"@)
                &&& tuple@["num-slots"@] matches ClarityValue::UInt(n)
                &&& n <= 4096
            },
            r matches Ok((address, slots)) ==> {
                &&& (*entry)->Tuple_0@["signer"@] == ClarityValue::Principal(
                    PrincipalData::Standard(
                        StandardPrincipalData(address.version, address.bytes.0),
                    ),
                )
                &&& (*entry)->Tuple_0@["num-slots"@] == ClarityValue::UInt(slots as u128)
            },
    {
        let slot_data = match entry {
            ClarityValue::Tuple(tuple) => tuple,
            _ => {
                return Err(
                    write_function_reason(
                        contract_id,
                        STACKERDB_SLOTS_FUNCTION,
                        "returned non-tuple slot entry",
                    ),
                );
            },
        };
        let signer_principal = match slot_data.get("signer") {
            Some(ClarityValue::Principal(principal)) => principal,
            _ => {
                return Err(
                    write_function_reason(
                        contract_id,
                        STACKERDB_SLOTS_FUNCTION,
                        "returned tuple without `signer` entry of type `principal`",
                    ),
                );
            },
        };
        let num_slots = match get_uint(slot_data, "num-slots") {
            Some(n) => n,
            None => {
                return Err(
                    write_function_reason(
                        contract_id,
                        STACKERDB_SLOTS_FUNCTION,
                        "returned tuple without `num-slots` entry of type `uint`",
                    ),
                );
            },
        };
        if num_slots > STACKERDB_PAGE_MAX as u128 {
            let mut tail = String::from_str("` set too many slots for one signer (max = ");
            tail.append(decimal(STACKERDB_PAGE_MAX as u128).as_str());
            tail.append(")");
            return Err(write_contract_reason("Contract `", contract_id, tail.as_str()));
        }
        match signer_principal {
            PrincipalData::Standard(principal) => Ok(
                (StacksAddress::from(*principal), num_slots as u32),
            ),
            PrincipalData::Contract(_) => Err(
                write_contract_reason(
                    "StackerDB contract `",
                    contract_id,
                    "` set a contract principal as a writer, which is not supported",
                ),
            ),
        }
    }

    /// The signers of one page, in their order, and the number of their slots.
    fn read_entries(slot_list: &Vec<ClarityValue>, contract_id: &QualifiedContractIdentifier) -> (r:
        Result<(Vec<(StacksAddress, u32)>, u32), NetError>)
        ensures
            page_result(r) == entries_of(slot_list@, *contract_id),
    {
        let mut total_num_slots: u32 = 0;
        let mut ret: Vec<(StacksAddress, u32)> = Vec::new();
        let mut i: usize = 0;
        assert(slot_list@.take(0) =~= Seq::empty());
        assert(ret@ =~= Seq::empty());
        while i < slot_list.len()
            invariant
                i <= slot_list@.len(),
                entries_of(slot_list@.take(i as int), *contract_id) == Ok::<_, ErrorView>(
                    (ret@, total_num_slots),
                ),
            decreases slot_list@.len() - i,
        {
            proof {
                assert(slot_list@.take(i + 1).drop_last() =~= slot_list@.take(i as int));
                assert(slot_list@.take(i + 1).last() == slot_list@[i as int]);
            }
            let (addr, num_slots) = match StackerDBConfig::parse_slot_entry(
                &slot_list[i],
                contract_id,
            ) {
                Ok(signer) => signer,
                Err(reason) => {
                    proof {
                        lemma_entries_stop(slot_list@, i + 1, *contract_id);
                    }
                    return Err(invalid_contract(contract_id, reason));
                },
            };
            total_num_slots = match total_num_slots.checked_add(num_slots) {
                Some(sum) => sum,
                None => {
                    proof {
                        lemma_entries_stop(slot_list@, i + 1, *contract_id);
                    }
                    return Err(
                        NetError::OverflowError(
                            write_contract_reason(
                                "Contract ",
                                contract_id,
                                " set more than u32::MAX slots",
                            ),
                        ),
                    );
                },
            };
            if total_num_slots > STACKERDB_PAGE_MAX {
                proof {
                    lemma_entries_stop(slot_list@, i + 1, *contract_id);
                }
                return Err(
                    invalid_contract(
                        contract_id,
                        write_contract_reason(
                            "Contract ",
                            contract_id,
                            " set more than the maximum number of slots",
                        ),
                    ),
                );
            }
            ret.push((addr, num_slots));
            i = i + 1;
        }
        assert(slot_list@.take(i as int) =~= slot_list@);
        Ok((ret, total_num_slots))
    }

    /// The signers and the number of their slots in the answer of a contract to
    /// `stackerdb-get-signer-slots`.
    pub fn eval_signer_slots_page(
        resp_value: &ClarityValue,
        contract_id: &QualifiedContractIdentifier,
    ) -> (r: Result<(Vec<(StacksAddress, u32)>, u32), NetError>)
        ensures
            page_result(r) == page_of(*resp_value, *contract_id),
            r matches Ok((signers, total)) ==> {
                &&& *resp_value matches ClarityValue::Response(ResponseData::Committed(data))
                &&& *data matches ClarityValue::List(list)
                &&& signers@.len() == list@.len()
                &&& forall|i: int|
                    0 <= i < list@.len() ==> slot_entry_of(list@[i], *contract_id) == Ok::<
                        _,
                        Seq<char>,
                    >(#[trigger] signers@[i])
                &&& total == slot_sum(signers@)
                &&& total <= 4096
            },
    {
        proof {
            law_page_total(*resp_value, *contract_id);
            lemma_page_has_every_entry(*resp_value, *contract_id);
        }
        let mut tail = String::new();
        match resp_value {
            ClarityValue::Response(ResponseData::Committed(data)) => match &**data {
                ClarityValue::List(slot_list) => {
                    return StackerDBConfig::read_entries(slot_list, contract_id);
                },
                _ => {
                    tail = String::from_str("returned unexpected non-list ok type");
                },
            },
            ClarityValue::Response(ResponseData::Aborted(abort)) => {
                tail = String::from_str("failed: error ");
                tail.append(abort.text().as_str());
            },
            _ => {
                tail = String::from_str("returned unexpected non-response type");
            },
        }
        Err(
            invalid_contract(
                contract_id,
                write_function_reason(contract_id, STACKERDB_SLOTS_FUNCTION, tail.as_str()),
            ),
        )
    }

    /// Adds the signers of one more page to those of the pages before it.
    pub fn eval_signer_slots(
        before: SignerSlots,
        resp_value: &ClarityValue,
        contract_id: &QualifiedContractIdentifier,
        limits: &Limits,
    ) -> (r: Result<SignerSlots, NetError>)
        ensures
            signers_result(r) == (match page_of(*resp_value, *contract_id) {
                Err(error) => Err(error),
                Ok(page) => with_page(before@, page, *contract_id, *limits),
            }),
            r matches Ok(after) ==> {
                &&& page_of(*resp_value, *contract_id) matches Ok((signers, total))
                &&& after.signers@ == before.signers@ + signers
                &&& after.total == before.total + total
                &&& after.total <= limits.inv_max
            },
    {
        let (mut new_entries, total_new_slots) = match StackerDBConfig::eval_signer_slots_page(
            resp_value,
            contract_id,
        ) {
            Ok(page) => page,
            Err(error) => {
                return Err(error);
            },
        };
        let mut signers = before.signers;
        let total = match before.total.checked_add(total_new_slots) {
            Some(sum) => sum,
            None => {
                return Err(
                    NetError::OverflowError(
                        write_contract_reason(
                            "Contract ",
                            contract_id,
                            " set more than u32::MAX slots",
                        ),
                    ),
                );
            },
        };
        if total > limits.inv_max {
            let mut tail = String::from_str(
                " set more than the maximum number of slots in a page (max = ",
            );
            tail.append(decimal(STACKERDB_PAGE_MAX as u128).as_str());
            tail.append(")");
            return Err(
                invalid_contract(
                    contract_id,
                    write_contract_reason("Contract ", contract_id, tail.as_str()),
                ),
            );
        }
        signers.append(&mut new_entries);
        Ok(SignerSlots { signers, total })
    }
}

/// The page has a signer for every entry of the list, and that of the entry.
proof fn lemma_page_has_every_entry(value: ClarityValue, id: QualifiedContractIdentifier)
    ensures
        page_of(value, id) matches Ok((signers, _)) ==> {
            &&& value matches ClarityValue::Response(ResponseData::Committed(data))
            &&& *data matches ClarityValue::List(list)
            &&& signers.len() == list@.len()
            &&& forall|i: int|
                0 <= i < list@.len() ==> slot_entry_of(list@[i], id) == Ok::<_, Seq<char>>(
                    #[trigger] signers[i],
                )
        },
{
    if let ClarityValue::Response(ResponseData::Committed(data)) = value {
        if let ClarityValue::List(list) = *data {
            law_page_is_its_entries(list@, id);
        }
    }
}

/// What a page that was read, or the error in its place, says.
pub open spec fn page_result(r: Result<(Vec<(StacksAddress, u32)>, u32), NetError>) -> Result<
    (Seq<(StacksAddress, u32)>, u32),
    ErrorView,
> {
    match r {
        Ok((signers, total)) => Ok((signers@, total)),
        Err(error) => Err(error@),
    }
}

/// What the signers that were read, or the error in their place, say.
pub open spec fn signers_result(r: Result<SignerSlots, NetError>) -> Result<
    SignersView,
    ErrorView,
> {
    match r {
        Ok(slots) => Ok(slots@),
        Err(error) => Err(error@),
    }
}

/// The number of slots that several signers have together.
pub open spec fn slot_sum(signers: Seq<(StacksAddress, u32)>) -> nat
    decreases signers.len(),
{
    if signers.len() == 0 {
        0
    } else {
        slot_sum(signers.drop_last()) + signers.last().1 as nat
    }
}

/// The signer in each entry of a list, as far as the entries are good.
pub open spec fn good_entries(list: Seq<ClarityValue>, id: QualifiedContractIdentifier) -> Seq<
    (StacksAddress, u32),
> {
    list.map_values(|entry: ClarityValue| slot_entry_of(entry, id)->Ok_0)
}

/// The signers of two lists together have the slots of both.
proof fn lemma_slot_sum_adds(a: Seq<(StacksAddress, u32)>, b: Seq<(StacksAddress, u32)>)
    ensures
        slot_sum(a + b) == slot_sum(a) + slot_sum(b),
    decreases b.len(),
{
    if b.len() == 0 {
        assert(a + b =~= a);
    } else {
        assert((a + b).drop_last() =~= a + b.drop_last());
        lemma_slot_sum_adds(a, b.drop_last());
    }
}

/// A page is accepted if and only if every entry is good and the slots of all of them together
/// are no more than a page may hold. Its signers are then those of the entries, in their order,
/// and its total is that of their slots.
pub proof fn law_page_is_its_entries(list: Seq<ClarityValue>, id: QualifiedContractIdentifier)
    ensures
        entries_of(list, id) is Ok <==> {
            &&& forall|i: int| 0 <= i < list.len() ==> slot_entry_of(#[trigger] list[i], id) is Ok
            &&& slot_sum(good_entries(list, id)) <= STACKERDB_PAGE_MAX
        },
        entries_of(list, id) matches Ok((signers, total)) ==> signers == good_entries(list, id)
            && total == slot_sum(signers),
    decreases list.len(),
{
    if list.len() == 0 {
        assert(good_entries(list, id) =~= Seq::empty());
    } else {
        let front = list.drop_last();
        law_page_is_its_entries(front, id);
        assert(good_entries(list, id).drop_last() =~= good_entries(front, id));
        assert(good_entries(list, id).last() == slot_entry_of(list.last(), id)->Ok_0);
        if forall|i: int| 0 <= i < list.len() ==> slot_entry_of(#[trigger] list[i], id) is Ok {
            assert forall|i: int| 0 <= i < front.len() implies slot_entry_of(
                #[trigger] front[i],
                id,
            ) is Ok by {
                assert(front[i] == list[i]);
            }
            assert(list.last() == list[list.len() - 1]);
        }
        if entries_of(list, id) is Ok {
            assert forall|i: int| 0 <= i < list.len() implies slot_entry_of(
                #[trigger] list[i],
                id,
            ) is Ok by {
                if i < front.len() {
                    assert(front[i] == list[i]);
                }
            }
            assert(entries_of(list, id)->Ok_0.0 =~= good_entries(list, id));
        }
    }
}

/// No page makes the count of slots go out of range: the page is refused before.
pub proof fn law_page_never_overflows(value: ClarityValue, id: QualifiedContractIdentifier)
    ensures
        !(page_of(value, id) matches Err(ErrorView::OverflowError(_))),
{
    match value {
        ClarityValue::Response(ResponseData::Committed(data)) => match *data {
            ClarityValue::List(list) => {
                lemma_entries_never_overflow(list@, id);
            },
            _ => {},
        },
        _ => {},
    }
}

proof fn lemma_entries_never_overflow(list: Seq<ClarityValue>, id: QualifiedContractIdentifier)
    ensures
        !(entries_of(list, id) matches Err(ErrorView::OverflowError(_))),
        entries_of(list, id) matches Ok((_, total)) ==> total <= STACKERDB_PAGE_MAX,
    decreases list.len(),
{
    if list.len() > 0 {
        lemma_entries_never_overflow(list.drop_last(), id);
    }
}

/// An accepted page holds the number of slots that its signers have together, and that is no
/// more than a page may hold.
pub proof fn law_page_total(value: ClarityValue, id: QualifiedContractIdentifier)
    ensures
        page_of(value, id) matches Ok((signers, total)) ==> total == slot_sum(signers) && total
            <= STACKERDB_PAGE_MAX,
{
    match value {
        ClarityValue::Response(ResponseData::Committed(data)) => match *data {
            ClarityValue::List(list) => {
                law_page_is_its_entries(list@, id);
            },
            _ => {},
        },
        _ => {},
    }
}

/// The signers of accepted pages have, together, as many slots as were counted, and no more than
/// the node allows.
pub proof fn law_signers_total(
    pages: Seq<ClarityValue>,
    id: QualifiedContractIdentifier,
    limits: Limits,
)
    ensures
        signers_of(pages, id, limits) matches Ok(all) ==> all.total == slot_sum(all.signers)
            && all.total <= limits.inv_max,
    decreases pages.len(),
{
    if pages.len() > 0 {
        law_signers_total(pages.drop_last(), id, limits);
        law_page_total(pages.last(), id);
        if let Ok(before) = signers_of(pages.drop_last(), id, limits) {
            if let Ok(page) = page_of(pages.last(), id) {
                lemma_slot_sum_adds(before.signers, page.0);
            }
        }
    }
}

/// The signers of the pages, one page behind the other.
pub open spec fn joined(pages: Seq<ClarityValue>, id: QualifiedContractIdentifier) -> Seq<
    (StacksAddress, u32),
>
    decreases pages.len(),
{
    if pages.len() == 0 {
        Seq::empty()
    } else {
        joined(pages.drop_last(), id) + page_of(pages.last(), id)->Ok_0.0
    }
}

/// Pages are accepted if and only if each of them is and all their slots together are no more
/// than the node allows. The signers are then those of the pages, one page behind the other.
pub proof fn law_signers_are_those_of_the_pages(
    pages: Seq<ClarityValue>,
    id: QualifiedContractIdentifier,
    limits: Limits,
)
    ensures
        signers_of(pages, id, limits) is Ok <==> {
            &&& forall|i: int| 0 <= i < pages.len() ==> page_of(#[trigger] pages[i], id) is Ok
            &&& slot_sum(joined(pages, id)) <= limits.inv_max
        },
        signers_of(pages, id, limits) matches Ok(all) ==> all.signers == joined(pages, id),
    decreases pages.len(),
{
    if pages.len() > 0 {
        let front = pages.drop_last();
        law_signers_are_those_of_the_pages(front, id, limits);
        law_signers_total(front, id, limits);
        law_page_total(pages.last(), id);
        lemma_slot_sum_adds(joined(front, id), page_of(pages.last(), id)->Ok_0.0);
        assert(pages.last() == pages[pages.len() - 1]);
        assert forall|i: int| 0 <= i < front.len() implies front[i] == #[trigger] pages[i] by {}
        if forall|i: int| 0 <= i < pages.len() ==> page_of(#[trigger] pages[i], id) is Ok {
            assert forall|i: int| 0 <= i < front.len() implies page_of(
                #[trigger] front[i],
                id,
            ) is Ok by {
                assert(front[i] == pages[i]);
            }
        }
    }
}

/// The count of the slots of all pages does not go out of range, where the node allows so few
/// that one more page could not bring it there.
pub proof fn law_signers_never_overflow(
    pages: Seq<ClarityValue>,
    id: QualifiedContractIdentifier,
    limits: Limits,
)
    requires
        limits.inv_max <= u32::MAX - STACKERDB_PAGE_MAX,
    ensures
        !(signers_of(pages, id, limits) matches Err(ErrorView::OverflowError(_))),
    decreases pages.len(),
{
    if pages.len() > 0 {
        law_signers_never_overflow(pages.drop_last(), id, limits);
        law_signers_total(pages.drop_last(), id, limits);
        law_page_never_overflows(pages.last(), id);
        law_page_total(pages.last(), id);
    }
}

/// Only an account can be a signer, and none has more slots than a page may hold.
pub proof fn law_signer_is_an_account(entry: ClarityValue, id: QualifiedContractIdentifier)
    ensures
        slot_entry_of(entry, id) matches Ok((address, slots)) ==> {
            &&& slots <= STACKERDB_PAGE_MAX
            &&& entry matches ClarityValue::Tuple(tuple)
            &&& tuple@["signer"@] matches ClarityValue::Principal(PrincipalData::Standard(p))
            &&& address == address_of(p)
        },
{
}

/// No signer of an accepted page has more slots than a page may hold.
proof fn lemma_each_entry_in_bounds(list: Seq<ClarityValue>, id: QualifiedContractIdentifier)
    ensures
        entries_of(list, id) matches Ok((signers, _)) ==> forall|i: int|
            0 <= i < signers.len() ==> (#[trigger] signers[i]).1 <= STACKERDB_PAGE_MAX,
    decreases list.len(),
{
    if list.len() > 0 {
        lemma_each_entry_in_bounds(list.drop_last(), id);
    }
}

/// No signer of accepted pages has more slots than a page may hold.
pub proof fn law_each_signer_in_bounds(
    pages: Seq<ClarityValue>,
    id: QualifiedContractIdentifier,
    limits: Limits,
)
    ensures
        signers_of(pages, id, limits) matches Ok(all) ==> forall|i: int|
            0 <= i < all.signers.len() ==> (#[trigger] all.signers[i]).1 <= STACKERDB_PAGE_MAX,
    decreases pages.len(),
{
    if pages.len() > 0 {
        law_each_signer_in_bounds(pages.drop_last(), id, limits);
        if let ClarityValue::Response(ResponseData::Committed(data)) = pages.last() {
            if let ClarityValue::List(list) = *data {
                lemma_each_entry_in_bounds(list@, id);
            }
        }
    }
}

} // verus!
