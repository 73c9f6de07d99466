//! The control metadata: what is read of an answer, and why an answer is refused.

use crate::config::{
    addr_of, answer_for, config_of, config_result, law_addr_is_its_bytes,
    law_config_accepted_iff_in_bounds, law_replica_accepted_iff_in_bounds,
    law_replicas_are_those_of_the_list, padded, replica_of, replicas_of, Reading,
};
use crate::names::NameMap;
use crate::text::decimal_text;
use crate::types::{
    contract_reason, ConfigView, ErrorView, Limits, NeighborView, NetError,
    QualifiedContractIdentifier, StackerDBConfig, StacksAddress,
};
use crate::value::{uint_in, ClarityValue, ResponseData};
use vstd::prelude::*;

verus! {

/// `(ok { .. })`
pub open spec fn ok_tuple(tuple: NameMap<ClarityValue>) -> ClarityValue {
    ClarityValue::Response(ResponseData::Committed(Box::new(ClarityValue::Tuple(tuple))))
}

/// The bytes of an address are accepted if and only if every item is an unsigned integer of at
/// most 255. There is then one byte for each item, and it is that number.
pub proof fn law_addr_is_what_is_stated(list: Seq<ClarityValue>, id: QualifiedContractIdentifier)
    ensures
        addr_of(list, id) is Accepted <==> forall|i: int|
            0 <= i < list.len() ==> (#[trigger] list[i] is UInt && list[i]->UInt_0 <= 255),
        addr_of(list, id) matches Reading::Accepted(bytes) ==> {
            &&& bytes.len() == list.len()
            &&& forall|i: int|
                0 <= i < list.len() ==> #[trigger] bytes[i] as int == list[i]->UInt_0 as int
        },
{
    law_addr_is_its_bytes(list, id);
}

proof fn lemma_addr_stops_at(list: Seq<ClarityValue>, n: int, id: QualifiedContractIdentifier)
    requires
        0 <= n <= list.len(),
        !(addr_of(list.take(n), id) is Accepted),
    ensures
        addr_of(list, id) == addr_of(list.take(n), id),
    decreases list.len() - n,
{
    if n == list.len() {
        assert(list.take(n) =~= list);
    } else {
        assert(list.take(n + 1).drop_last() =~= list.take(n));
        lemma_addr_stops_at(list, n + 1, id);
    }
}

/// The first item of an address that is no byte decides: a larger number is refused, and anything
/// else is misshapen.
pub proof fn law_addr_refusals(
    list: Seq<ClarityValue>,
    k: int,
    id: QualifiedContractIdentifier,
)
    requires
        0 <= k < list.len(),
        forall|i: int|
            0 <= i < k ==> (#[trigger] list[i] is UInt && list[i]->UInt_0 <= 255),
        !(list[k] is UInt && list[k]->UInt_0 <= 255),
    ensures
        list[k] is UInt ==> addr_of(list, id) == Reading::<Seq<u8>, _>::Refused(
            contract_reason("Contract "@, id, " stipulates an addr byte above u8::MAX"@),
        ),
        !(list[k] is UInt) ==> addr_of(list, id) is Misshapen,
{
    let before = list.take(k);
    let upto = list.take(k + 1);
    assert forall|i: int| 0 <= i < before.len() implies (#[trigger] before[i] is UInt
        && before[i]->UInt_0 <= 255) by {
        assert(before[i] == list[i]);
    }
    law_addr_is_what_is_stated(before, id);
    assert(upto.drop_last() =~= before);
    assert(upto.last() == list[k]);
    lemma_addr_stops_at(list, k + 1, id);
}

/// The fields that a replica must have, each of its type.
pub open spec fn is_replica_tuple(replica: Map<Seq<char>, ClarityValue>) -> bool {
    &&& replica.contains_key("addr"@) && replica["addr"@] is List
    &&& replica.contains_key("port"@) && replica["port"@] is UInt
    &&& replica.contains_key("public-key-hash"@) && replica["public-key-hash"@] is Buffer
    &&& replica["public-key-hash"@]->Buffer_0@.len() <= 20
}

/// A replica is accepted if and only if it has its fields, its address is sixteen bytes, and its
/// port is at least 1024 and at most 65534.
pub proof fn law_replica_accepted(value: ClarityValue, id: QualifiedContractIdentifier)
    ensures
        replica_of(value, id) is Accepted <==> {
            &&& value matches ClarityValue::Tuple(tuple)
            &&& is_replica_tuple(tuple@)
            &&& tuple@["addr"@]->List_0@.len() == 16
            &&& forall|i: int|
                0 <= i < 16 ==> (#[trigger] tuple@["addr"@]->List_0@[i] is UInt
                    && tuple@["addr"@]->List_0@[i]->UInt_0 <= 255)
            &&& 1024 <= tuple@["port"@]->UInt_0 <= 65534
        },
{
    law_replica_accepted_iff_in_bounds(value, id);
}

/// A replica that is accepted has the octets, the port and the hash of its fields; the hash ends
/// with zeros where the field has fewer than twenty bytes.
pub proof fn law_replica_is_what_is_stated(value: ClarityValue, id: QualifiedContractIdentifier)
    ensures
        replica_of(value, id) matches Reading::Accepted(replica) ==> {
            let tuple = value->Tuple_0@;
            let addr = tuple["addr"@]->List_0@;
            let hash = tuple["public-key-hash"@]->Buffer_0@;
            &&& replica.addrbytes.len() == 16
            &&& forall|i: int|
                0 <= i < 16 ==> #[trigger] replica.addrbytes[i] as int == addr[i]->UInt_0 as int
            &&& replica.port as int == tuple["port"@]->UInt_0 as int
            &&& replica.public_key_hash.len() == 20
            &&& forall|i: int|
                0 <= i < hash.len() ==> #[trigger] replica.public_key_hash[i] == hash[i]
            &&& forall|i: int|
                hash.len() <= i < 20 ==> #[trigger] replica.public_key_hash[i] == 0
        },
{
    if let ClarityValue::Tuple(tuple) = value {
        law_addr_is_what_is_stated(tuple@["addr"@]->List_0@, id);
    }
}

/// Why a replica is not accepted: it does not have its fields; else its address is at fault; else
/// its length; else its port.
pub proof fn law_replica_refusals(value: ClarityValue, id: QualifiedContractIdentifier)
    ensures
        !(value matches ClarityValue::Tuple(tuple) && is_replica_tuple(tuple@)) ==> replica_of(
            value,
            id,
        ) is Misshapen,
        value matches ClarityValue::Tuple(tuple) ==> (is_replica_tuple(tuple@) ==> match addr_of(
            tuple@["addr"@]->List_0@,
            id,
        ) {
            Reading::Misshapen => replica_of(value, id) is Misshapen,
            Reading::Refused(reason) => replica_of(value, id) == Reading::<
                NeighborView,
                _,
            >::Refused(reason),
            Reading::Accepted(_) => {
                let port = tuple@["port"@]->UInt_0;
                &&& tuple@["addr"@]->List_0@.len() != 16 ==> replica_of(value, id) == Reading::<
                    NeighborView,
                    _,
                >::Refused(
                    contract_reason(
                        "Contract "@,
                        id,
                        " did not stipulate a full 16-octet IP address"@,
                    ),
                )
                &&& tuple@["addr"@]->List_0@.len() == 16 && (port < 1024 || port > 65534)
                    ==> replica_of(value, id) == Reading::<NeighborView, _>::Refused(
                    contract_reason(
                        "Contract "@,
                        id,
                        " stipulates a port lower than 1024 or above u16::MAX - 1"@,
                    ),
                )
            },
        }),
{
    if let ClarityValue::Tuple(tuple) = value {
        law_addr_is_what_is_stated(tuple@["addr"@]->List_0@, id);
    }
}

/// Replicas are accepted if and only if each of them is. There is then one for each item, in
/// order, and it is what its item says.
pub proof fn law_replicas_are_all_there(
    list: Seq<ClarityValue>,
    id: QualifiedContractIdentifier,
)
    ensures
        replicas_of(list, id) is Accepted <==> forall|i: int|
            0 <= i < list.len() ==> replica_of(#[trigger] list[i], id) is Accepted,
        replicas_of(list, id) matches Reading::Accepted(replicas) ==> {
            &&& replicas.len() == list.len()
            &&& forall|i: int|
                0 <= i < list.len() ==> replica_of(list[i], id) == Reading::<
                    _,
                    Seq<char>,
                >::Accepted(#[trigger] replicas[i])
        },
{
    law_replicas_are_those_of_the_list(list, id);
    if let Reading::Accepted(replicas) = replicas_of(list, id) {
        assert forall|i: int| 0 <= i < list.len() implies replica_of(list[i], id) == Reading::<
            _,
            Seq<char>,
        >::Accepted(#[trigger] replicas[i]) by {
            assert(replica_of(list[i], id) is Accepted);
        }
    }
}

proof fn lemma_replicas_stop_at(list: Seq<ClarityValue>, n: int, id: QualifiedContractIdentifier)
    requires
        0 <= n <= list.len(),
        !(replicas_of(list.take(n), id) is Accepted),
    ensures
        replicas_of(list, id) == replicas_of(list.take(n), id),
    decreases list.len() - n,
{
    if n == list.len() {
        assert(list.take(n) =~= list);
    } else {
        assert(list.take(n + 1).drop_last() =~= list.take(n));
        lemma_replicas_stop_at(list, n + 1, id);
    }
}

/// The first replica that is not accepted decides what becomes of all.
pub proof fn law_replicas_refusals(
    list: Seq<ClarityValue>,
    k: int,
    id: QualifiedContractIdentifier,
)
    requires
        0 <= k < list.len(),
        forall|i: int| 0 <= i < k ==> replica_of(#[trigger] list[i], id) is Accepted,
    ensures
        replica_of(list[k], id) is Misshapen ==> replicas_of(list, id) is Misshapen,
        replica_of(list[k], id) matches Reading::Refused(reason) ==> replicas_of(list, id)
            == Reading::<Seq<NeighborView>, _>::Refused(reason),
{
    let before = list.take(k);
    let upto = list.take(k + 1);
    assert forall|i: int| 0 <= i < before.len() implies replica_of(
        #[trigger] before[i],
        id,
    ) is Accepted by {
        assert(before[i] == list[i]);
    }
    law_replicas_are_those_of_the_list(before, id);
    assert(upto.drop_last() =~= before);
    assert(upto.last() == list[k]);
    if !(replica_of(list[k], id) is Accepted) {
        lemma_replicas_stop_at(list, k + 1, id);
    }
}

/// The field `name` of a tuple is an unsigned integer of at most `max`.
pub open spec fn is_uint_upto(
    tuple: Map<Seq<char>, ClarityValue>,
    name: Seq<char>,
    max: int,
) -> bool {
    tuple.contains_key(name) && tuple[name] is UInt && tuple[name]->UInt_0 <= max
}

/// The field `name` of a tuple is an unsigned integer above `max`.
pub open spec fn is_uint_above(
    tuple: Map<Seq<char>, ClarityValue>,
    name: Seq<char>,
    max: int,
) -> bool {
    tuple.contains_key(name) && tuple[name] is UInt && tuple[name]->UInt_0 > max
}

/// The field `name` of a tuple is not there, or is no unsigned integer.
pub open spec fn is_no_uint(tuple: Map<Seq<char>, ClarityValue>, name: Seq<char>) -> bool {
    !tuple.contains_key(name) || !(tuple[name] is UInt)
}

/// An answer is accepted if and only if it is `(ok ..)` of a tuple whose four numbers are in
/// range and all of whose replicas are accepted.
pub proof fn law_config_accepted(
    value: ClarityValue,
    signers: Seq<(StacksAddress, u32)>,
    id: QualifiedContractIdentifier,
    limits: Limits,
)
    ensures
        config_of(value, signers, id, limits) is Accepted <==> {
            &&& value matches ClarityValue::Response(ResponseData::Committed(data))
            &&& *data matches ClarityValue::Tuple(tuple)
            &&& is_uint_upto(tuple@, "chunk-size"@, limits.max_chunk_size as int)
            &&& is_uint_upto(tuple@, "write-freq"@, u64::MAX as int)
            &&& is_uint_upto(tuple@, "max-writes"@, u32::MAX as int)
            &&& is_uint_upto(tuple@, "max-neighbors"@, usize::MAX as int)
            &&& tuple@.contains_key("hint-replicas"@)
            &&& tuple@["hint-replicas"@] matches ClarityValue::List(list)
            &&& forall|i: int|
                0 <= i < list@.len() ==> replica_of(#[trigger] list@[i], id) is Accepted
        },
{
    law_config_accepted_iff_in_bounds(value, signers, id, limits);
}

/// The configuration that is accepted has the numbers in the fields of the tuple, the replicas in
/// its list, one for each item and in order, and the signers that were given.
pub proof fn law_config_is_what_is_stated(
    tuple: NameMap<ClarityValue>,
    signers: Seq<(StacksAddress, u32)>,
    id: QualifiedContractIdentifier,
    limits: Limits,
)
    ensures
        config_of(ok_tuple(tuple), signers, id, limits) matches Reading::Accepted(config) ==> {
            let list = tuple@["hint-replicas"@]->List_0@;
            &&& config.chunk_size as int == tuple@["chunk-size"@]->UInt_0 as int
            &&& config.write_freq as int == tuple@["write-freq"@]->UInt_0 as int
            &&& config.max_writes as int == tuple@["max-writes"@]->UInt_0 as int
            &&& config.max_neighbors as int == tuple@["max-neighbors"@]->UInt_0 as int
            &&& config.hint_replicas.len() == list.len()
            &&& forall|i: int|
                0 <= i < list.len() ==> replica_of(list[i], id) == Reading::<
                    _,
                    Seq<char>,
                >::Accepted(#[trigger] config.hint_replicas[i])
            &&& config.signers == signers
        },
{
    law_replicas_are_all_there(tuple@["hint-replicas"@]->List_0@, id);
}

/// Why a tuple is not accepted: the fields are looked at in the order chunk size, write frequency,
/// number of writes, number of neighbors, replicas; the first at fault decides. A number out of
/// range is refused, and a field that is missing or of another type is misshapen.
pub proof fn law_config_refusals(
    tuple: NameMap<ClarityValue>,
    signers: Seq<(StacksAddress, u32)>,
    id: QualifiedContractIdentifier,
    limits: Limits,
)
    ensures
        ({
            let t = tuple@;
            let reading = config_of(ok_tuple(tuple), signers, id, limits);
            let refused = |tail: Seq<char>|
                Reading::<ConfigView, _>::Refused(contract_reason("Contract "@, id, tail));
            let chunk = is_uint_upto(t, "chunk-size"@, limits.max_chunk_size as int);
            let freq = chunk && is_uint_upto(t, "write-freq"@, u64::MAX as int);
            let writes = freq && is_uint_upto(t, "max-writes"@, u32::MAX as int);
            let neighbors = writes && is_uint_upto(t, "max-neighbors"@, usize::MAX as int);
            let has_list = t.contains_key("hint-replicas"@) && t["hint-replicas"@] is List;
            &&& is_no_uint(t, "chunk-size"@) ==> reading is Misshapen
            &&& is_uint_above(t, "chunk-size"@, limits.max_chunk_size as int) ==> reading
                == refused(" stipulates a chunk size beyond STACKERDB_MAX_CHUNK_SIZE"@)
            &&& chunk && is_no_uint(t, "write-freq"@) ==> reading is Misshapen
            &&& chunk && is_uint_above(t, "write-freq"@, u64::MAX as int) ==> reading == refused(
                " stipulates a write frequency beyond u64::MAX"@,
            )
            &&& freq && is_no_uint(t, "max-writes"@) ==> reading is Misshapen
            &&& freq && is_uint_above(t, "max-writes"@, u32::MAX as int) ==> reading == refused(
                " stipulates a max-write bound beyond u32::MAX"@,
            )
            &&& writes && is_no_uint(t, "max-neighbors"@) ==> reading is Misshapen
            &&& writes && is_uint_above(t, "max-neighbors"@, usize::MAX as int) ==> reading
                == refused(" stipulates a maximum number of neighbors beyond usize::MAX"@)
            &&& neighbors && !has_list ==> reading is Misshapen
            &&& neighbors && has_list ==> match replicas_of(t["hint-replicas"@]->List_0@, id) {
                Reading::Misshapen => reading is Misshapen,
                Reading::Refused(reason) => reading == Reading::<ConfigView, _>::Refused(reason),
                Reading::Accepted(_) => reading is Accepted,
            }
        }),
{
}

/// An answer that is no `(ok ..)` of a tuple gives no configuration: `(err ..)` of a number is
/// refused, with the number, and anything else is misshapen.
pub proof fn law_config_needs_a_tuple(
    value: ClarityValue,
    signers: Seq<(StacksAddress, u32)>,
    id: QualifiedContractIdentifier,
    limits: Limits,
)
    requires
        !(value matches ClarityValue::Response(ResponseData::Committed(data)) && *data is Tuple),
    ensures
        match value {
            ClarityValue::Response(ResponseData::Aborted(abort)) => match uint_in(abort@) {
                Some(code) => config_of(value, signers, id, limits) == Reading::<
                    ConfigView,
                    _,
                >::Refused(
                    contract_reason(
                        "Contract "@,
                        id,
                        " failed to run `stackerdb-get-config`: err u"@ + decimal_text(code as nat),
                    ),
                ),
                None => config_of(value, signers, id, limits) is Misshapen,
            },
            _ => config_of(value, signers, id, limits) is Misshapen,
        },
{
}

/// Nothing is answered for what is misshapen, the error for an invalid contract for what is
/// refused, and the configuration itself for what is accepted.
pub proof fn law_answer(
    reading: Reading<ConfigView, Seq<char>>,
    id: QualifiedContractIdentifier,
)
    ensures
        answer_for(reading, id) is None <==> reading is Misshapen,
        answer_for(reading, id) matches Some(Ok(config)) ==> reading == Reading::<
            _,
            Seq<char>,
        >::Accepted(config),
        answer_for(reading, id) matches Some(Err(error)) ==> {
            &&& reading matches Reading::Refused(reason)
            &&& error == ErrorView::InvalidStackerDBContract(id, reason)
        },
        reading is Accepted ==> answer_for(reading, id) matches Some(Ok(_)),
{
}

/// Bytes that are filled up keep their places, and zeros follow them.
pub proof fn law_padded(bytes: Seq<u8>, size: nat)
    ensures
        padded(bytes, size).len() == size,
        forall|i: int|
            0 <= i < size && i < bytes.len() ==> #[trigger] padded(bytes, size)[i] == bytes[i],
        forall|i: int| bytes.len() <= i < size ==> #[trigger] padded(bytes, size)[i] == 0,
{
}

/// What is said of a configuration, or of the error in its place, is what it holds.
pub proof fn law_config_result(config: StackerDBConfig, error: NetError)
    ensures
        config_result(Ok(config)) == Ok::<_, ErrorView>(config@),
        config_result(Err(error)) == Err::<ConfigView, _>(error@),
{
}

} // verus!
