//! The page count, the entries of a page, pages, and the signers of several pages.

use crate::slots::{
    entries_of, good_entries, joined, law_page_is_its_entries, law_signers_are_those_of_the_pages,
    law_signers_total, page_count_of, page_of, page_result, signers_of, signers_result,
    slot_entry_of, slot_sum, with_page, SignerSlots, SignersView,
};
use crate::text::decimal_text;
use crate::types::{
    contract_reason, function_reason, ErrorView, Limits, NetError, PrincipalData,
    QualifiedContractIdentifier, StacksAddress,
};
use crate::value::{value_text, ClarityValue, ResponseData};
use vstd::prelude::*;

verus! {

/// `(ok n)`
pub open spec fn ok_uint(n: u128) -> ClarityValue {
    ClarityValue::Response(ResponseData::Committed(Box::new(ClarityValue::UInt(n))))
}

/// `(ok (list ..))`
pub open spec fn ok_list(list: Vec<ClarityValue>) -> ClarityValue {
    ClarityValue::Response(ResponseData::Committed(Box::new(ClarityValue::List(list))))
}

/// The answer `(ok n)` gives the count `n` if it is one, and an error otherwise.
pub proof fn law_page_count_is_the_number_answered(n: u128, id: QualifiedContractIdentifier)
    ensures
        match page_count_of(ok_uint(n), id) {
            Ok(m) => m as int == n as int,
            Err(_) => n as int > u32::MAX as int,
        },
        n as int > u32::MAX as int ==> page_count_of(ok_uint(n), id) is Err,
{
}

/// No answer but `(ok n)` gives a count.
pub proof fn law_page_count_needs_a_number(value: ClarityValue, id: QualifiedContractIdentifier)
    ensures
        page_count_of(value, id) matches Ok(m) ==> {
            &&& value matches ClarityValue::Response(ResponseData::Committed(data))
            &&& *data matches ClarityValue::UInt(n)
            &&& n as int == m as int
        },
{
}

/// The error for an answer that gives no count says what was wrong with it.
pub proof fn law_page_count_refusals(value: ClarityValue, id: QualifiedContractIdentifier)
    ensures
        page_count_of(value, id) matches Err(error) ==> {
            &&& error matches ErrorView::InvalidStackerDBContract(of, reason)
            &&& of == id
            &&& reason == function_reason(
                id,
                "stackerdb-get-page-count"@,
                match value {
                    ClarityValue::Response(ResponseData::Aborted(abort)) => "failed: error "@
                        + value_text(abort@)->Some_0,
                    ClarityValue::Response(ResponseData::Committed(data)) => if *data is UInt {
                        "returned page count outside of u32 range"@
                    } else {
                        "returned unexpected non-uint ok type"@
                    },
                    _ => "returned unexpected non-response type"@,
                },
            )
        },
{
}

/// An entry is accepted if and only if it is a tuple with an account as its `signer` and an
/// unsigned integer of at most 4096 as its `num-slots`. It then gives the version and the hash of
/// that account, and that number.
pub proof fn law_slot_entry_is_what_it_states(
    entry: ClarityValue,
    id: QualifiedContractIdentifier,
)
    ensures
        slot_entry_of(entry, id) is Ok <==> {
            &&& entry matches ClarityValue::Tuple(tuple)
            &&& tuple@.contains_key("signer"@)
            &&& tuple@["signer"@] matches ClarityValue::Principal(PrincipalData::Standard(_))
            &&& tuple@.contains_key("num-slots"@)
            &&& tuple@["num-slots"@] matches ClarityValue::UInt(n)
            &&& n <= 4096
        },
        slot_entry_of(entry, id) matches Ok((address, slots)) ==> {
            &&& entry matches ClarityValue::Tuple(tuple)
            &&& tuple@["signer"@] matches ClarityValue::Principal(PrincipalData::Standard(account))
            &&& address.version == account.0
            &&& address.bytes.0 == account.1
            &&& tuple@["num-slots"@] matches ClarityValue::UInt(n)
            &&& slots as int == n as int
        },
{
}

/// The number 4096 as it is written.
proof fn lemma_page_max_text()
    ensures
        decimal_text(4096) == "4096"@,
{
    reveal_strlit("0123456789abcdef");
    reveal_strlit("4096");
    reveal_with_fuel(decimal_text, 4);
    assert(decimal_text(4096) =~= "4096"@);
}

/// The reason for refusing an entry is the first of those that hold: no tuple, no principal as
/// signer, no number of slots, too many slots, a contract as signer.
pub proof fn law_slot_entry_refusals(entry: ClarityValue, id: QualifiedContractIdentifier)
    ensures
        slot_entry_of(entry, id) matches Err(reason) ==> reason == (match entry {
            ClarityValue::Tuple(tuple) => if !tuple@.contains_key("signer"@)
                || !(tuple@["signer"@] is Principal) {
                function_reason(
                    id,
                    "stackerdb-get-signer-slots"@,
                    "returned tuple without `signer` entry of type `principal`"@,
                )
            } else if !tuple@.contains_key("num-slots"@) || !(tuple@["num-slots"@] is UInt) {
                function_reason(
                    id,
                    "stackerdb-get-signer-slots"@,
                    "returned tuple without `num-slots` entry of type `uint`"@,
                )
            } else if tuple@["num-slots"@]->UInt_0 > 4096 {
                contract_reason(
                    "Contract `"@,
                    id,
                    "` set too many slots for one signer (max = 4096)"@,
                )
            } else {
                contract_reason(
                    "StackerDB contract `"@,
                    id,
                    "` set a contract principal as a writer, which is not supported"@,
                )
            },
            _ => function_reason(
                id,
                "stackerdb-get-signer-slots"@,
                "returned non-tuple slot entry"@,
            ),
        }),
{
    lemma_page_max_text();
    reveal_strlit("4096");
    reveal_strlit(")");
    reveal_strlit("` set too many slots for one signer (max = ");
    reveal_strlit("` set too many slots for one signer (max = 4096)");
    assert("` set too many slots for one signer (max = "@ + "4096"@ + ")"@
        =~= "` set too many slots for one signer (max = 4096)"@);
}

/// The page `(ok (list ..))` is accepted if and only if every item of the list is a good entry
/// and their slots are together at most 4096. It then has one signer for each item, that of the
/// item, and the number of their slots.
pub proof fn law_page_has_every_entry(
    list: Vec<ClarityValue>,
    id: QualifiedContractIdentifier,
)
    ensures
        page_of(ok_list(list), id) is Ok <==> {
            &&& forall|i: int| 0 <= i < list@.len() ==> slot_entry_of(#[trigger] list@[i], id) is Ok
            &&& slot_sum(good_entries(list@, id)) <= 4096
        },
        page_of(ok_list(list), id) matches Ok((signers, total)) ==> {
            &&& signers.len() == list@.len()
            &&& forall|i: int|
                0 <= i < list@.len() ==> slot_entry_of(list@[i], id) == Ok::<_, Seq<char>>(
                    #[trigger] signers[i],
                )
            &&& total as int == slot_sum(signers)
        },
{
    law_page_is_its_entries(list@, id);
}

/// The slots of no signers are none, and one more signer brings its own.
pub proof fn law_slot_sum(signers: Seq<(StacksAddress, u32)>, signer: (StacksAddress, u32))
    ensures
        slot_sum(Seq::empty()) == 0,
        slot_sum(signers.push(signer)) == slot_sum(signers) + signer.1,
{
    assert(signers.push(signer).drop_last() =~= signers);
}

/// No answer but `(ok (list ..))` gives a page, and the error says what was wrong with it.
pub proof fn law_page_needs_a_list(value: ClarityValue, id: QualifiedContractIdentifier)
    requires
        !(value matches ClarityValue::Response(ResponseData::Committed(data)) && *data is List),
    ensures
        page_of(value, id) matches Err(error) && error == ErrorView::InvalidStackerDBContract(
            id,
            function_reason(
                id,
                "stackerdb-get-signer-slots"@,
                match value {
                    ClarityValue::Response(ResponseData::Aborted(abort)) => "failed: error "@
                        + value_text(abort@)->Some_0,
                    ClarityValue::Response(ResponseData::Committed(_)) =>
                        "returned unexpected non-list ok type"@,
                    _ => "returned unexpected non-response type"@,
                },
            ),
        ),
{
}

proof fn lemma_entries_stop_at(list: Seq<ClarityValue>, n: int, id: QualifiedContractIdentifier)
    requires
        0 <= n <= list.len(),
        entries_of(list.take(n), id) is Err,
    ensures
        entries_of(list, id) == entries_of(list.take(n), id),
    decreases list.len() - n,
{
    if n == list.len() {
        assert(list.take(n) =~= list);
    } else {
        assert(list.take(n + 1).drop_last() =~= list.take(n));
        lemma_entries_stop_at(list, n + 1, id);
    }
}

/// The first entry with which something is wrong decides the error of a page: its own reason, or
/// that the slots up to it are too many.
pub proof fn law_page_refusals(
    list: Vec<ClarityValue>,
    k: int,
    id: QualifiedContractIdentifier,
)
    requires
        0 <= k < list@.len(),
        forall|i: int| 0 <= i < k ==> slot_entry_of(#[trigger] list@[i], id) is Ok,
        slot_sum(good_entries(list@.take(k), id)) <= 4096,
    ensures
        match slot_entry_of(list@[k], id) {
            Err(reason) => page_of(ok_list(list), id) == Err::<
                (Seq<(StacksAddress, u32)>, u32),
                _,
            >(ErrorView::InvalidStackerDBContract(id, reason)),
            Ok((_, slots)) => slot_sum(good_entries(list@.take(k), id)) + slots > 4096 ==> page_of(
                ok_list(list),
                id,
            ) == Err::<(Seq<(StacksAddress, u32)>, u32), _>(
                ErrorView::InvalidStackerDBContract(
                    id,
                    contract_reason(
                        "Contract "@,
                        id,
                        " set more than the maximum number of slots"@,
                    ),
                ),
            ),
        },
{
    let before = list@.take(k);
    let upto = list@.take(k + 1);
    assert forall|i: int| 0 <= i < before.len() implies slot_entry_of(
        #[trigger] before[i],
        id,
    ) is Ok by {
        assert(before[i] == list@[i]);
    }
    law_page_is_its_entries(before, id);
    assert(upto.drop_last() =~= before);
    assert(upto.last() == list@[k]);
    if entries_of(upto, id) is Err {
        lemma_entries_stop_at(list@, k + 1, id);
    }
}

/// One more page adds its signers behind those before it, and its slots to theirs, as long as
/// the slots are no more than the node allows, and can be counted.
pub proof fn law_page_is_added(
    before: SignersView,
    page: (Seq<(StacksAddress, u32)>, u32),
    id: QualifiedContractIdentifier,
    limits: Limits,
)
    ensures
        match with_page(before, page, id, limits) {
            Ok(after) => {
                &&& after.signers.len() == before.signers.len() + page.0.len()
                &&& after.signers.take(before.signers.len() as int) == before.signers
                &&& after.signers.skip(before.signers.len() as int) == page.0
                &&& after.total as int == before.total + page.1
                &&& after.total <= limits.inv_max
            },
            Err(ErrorView::OverflowError(reason)) => {
                &&& before.total + page.1 > u32::MAX
                &&& reason == contract_reason("Contract "@, id, " set more than u32::MAX slots"@)
            },
            Err(ErrorView::InvalidStackerDBContract(of, reason)) => {
                &&& limits.inv_max < before.total + page.1 <= u32::MAX
                &&& of == id
                &&& reason == contract_reason(
                    "Contract "@,
                    id,
                    " set more than the maximum number of slots in a page (max = 4096)"@,
                )
            },
            Err(ErrorView::NoSuchStackerDB(_)) => false,
        },
{
    if let Ok(after) = with_page(before, page, id, limits) {
        assert(after.signers.take(before.signers.len() as int) =~= before.signers);
        assert(after.signers.skip(before.signers.len() as int) =~= page.0);
    }
    lemma_page_max_text();
    reveal_strlit("4096");
    reveal_strlit(")");
    reveal_strlit(" set more than the maximum number of slots in a page (max = ");
    reveal_strlit(" set more than the maximum number of slots in a page (max = 4096)");
    assert(" set more than the maximum number of slots in a page (max = "@ + "4096"@ + ")"@
        =~= " set more than the maximum number of slots in a page (max = 4096)"@);
}

/// Where pages are accepted, the signers of each stand, in full and in order, behind those of the
/// pages before it.
pub proof fn law_signers_of_each_page(
    pages: Seq<ClarityValue>,
    k: int,
    id: QualifiedContractIdentifier,
    limits: Limits,
)
    requires
        0 <= k < pages.len(),
        signers_of(pages, id, limits) is Ok,
    ensures
        signers_of(pages.take(k), id, limits) is Ok,
        page_of(pages[k], id) is Ok,
        ({
            let all = signers_of(pages, id, limits)->Ok_0.signers;
            let at = signers_of(pages.take(k), id, limits)->Ok_0.signers.len() as int;
            let page = page_of(pages[k], id)->Ok_0.0;
            &&& at + page.len() <= all.len()
            &&& all.subrange(at, at + page.len()) == page
            &&& k + 1 == pages.len() ==> at + page.len() == all.len()
            &&& k == 0 ==> at == 0
        }),
    decreases pages.len(),
{
    let front = pages.drop_last();
    if k + 1 == pages.len() {
        assert(pages.take(k) =~= front);
        assert(pages[k] == pages.last());
        let all = signers_of(pages, id, limits)->Ok_0.signers;
        let at = signers_of(front, id, limits)->Ok_0.signers.len() as int;
        let page = page_of(pages[k], id)->Ok_0.0;
        assert(all.subrange(at, at + page.len()) =~= page);
    } else {
        law_signers_of_each_page(front, k, id, limits);
        assert(front.take(k) =~= pages.take(k));
        assert(front[k] == pages[k]);
        let all = signers_of(pages, id, limits)->Ok_0.signers;
        let at = signers_of(pages.take(k), id, limits)->Ok_0.signers.len() as int;
        let page = page_of(pages[k], id)->Ok_0.0;
        assert(all.subrange(at, at + page.len()) =~= page);
    }
}

proof fn lemma_pages_stop_at(
    pages: Seq<ClarityValue>,
    n: int,
    id: QualifiedContractIdentifier,
    limits: Limits,
)
    requires
        0 <= n <= pages.len(),
        signers_of(pages.take(n), id, limits) is Err,
    ensures
        signers_of(pages, id, limits) == signers_of(pages.take(n), id, limits),
    decreases pages.len() - n,
{
    if n == pages.len() {
        assert(pages.take(n) =~= pages);
    } else {
        assert(pages.take(n + 1).drop_last() =~= pages.take(n));
        lemma_pages_stop_at(pages, n + 1, id, limits);
    }
}

/// The first page that is refused, or that brings too many slots, decides the error of all.
pub proof fn law_signers_refusals(
    pages: Seq<ClarityValue>,
    k: int,
    id: QualifiedContractIdentifier,
    limits: Limits,
)
    requires
        0 <= k < pages.len(),
        signers_of(pages.take(k), id, limits) is Ok,
    ensures
        match page_of(pages[k], id) {
            Err(error) => signers_of(pages, id, limits) == Err::<SignersView, _>(error),
            Ok(page) => with_page(
                signers_of(pages.take(k), id, limits)->Ok_0,
                page,
                id,
                limits,
            ) matches Err(error) ==> signers_of(pages, id, limits) == Err::<SignersView, _>(error),
        },
{
    let upto = pages.take(k + 1);
    assert(upto.drop_last() =~= pages.take(k));
    assert(upto.last() == pages[k]);
    if signers_of(upto, id, limits) is Err {
        lemma_pages_stop_at(pages, k + 1, id, limits);
    }
}

/// Pages are accepted if and only if each of them is and all their slots together are no more
/// than the node allows; the slots counted are then those of all signers.
pub proof fn law_signers_accepted(
    pages: Seq<ClarityValue>,
    id: QualifiedContractIdentifier,
    limits: Limits,
)
    ensures
        signers_of(pages, id, limits) is Ok <==> {
            &&& forall|i: int| 0 <= i < pages.len() ==> page_of(#[trigger] pages[i], id) is Ok
            &&& slot_sum(joined(pages, id)) <= limits.inv_max
        },
        signers_of(pages, id, limits) matches Ok(all) ==> all.total as int == slot_sum(all.signers),
        pages.len() == 0 ==> (signers_of(pages, id, limits) matches Ok(all) && all.signers.len()
            == 0 && all.total == 0),
{
    law_signers_are_those_of_the_pages(pages, id, limits);
    law_signers_total(pages, id, limits);
}

/// What is said of a page that was read, or of the error in its place, is what it holds.
pub proof fn law_page_result(
    signers: Vec<(StacksAddress, u32)>,
    total: u32,
    error: NetError,
)
    ensures
        page_result(Ok((signers, total))) == Ok::<_, ErrorView>((signers@, total)),
        page_result(Err(error)) == Err::<(Seq<(StacksAddress, u32)>, u32), _>(error@),
{
}

/// What is said of signers that were read, or of the error in their place, is what they hold.
pub proof fn law_signers_result(slots: SignerSlots, error: NetError)
    ensures
        slots@.signers == slots.signers@,
        slots@.total == slots.total,
        signers_result(Ok(slots)) == Ok::<_, ErrorView>(slots@),
        signers_result(Err(error)) == Err::<SignersView, _>(error@),
{
}

} // verus!
