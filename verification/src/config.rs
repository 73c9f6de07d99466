//! The control metadata: what a contract answers to `stackerdb-get-config`.

use crate::names::NameMap;
use crate::text::{decimal, decimal_text};
use crate::types::{
    contract_reason, invalid_contract, neighbor_views, write_contract_reason, ConfigView,
    ErrorView, Hash160, Limits, NeighborAddress, NeighborView, NetError, PeerAddress,
    QualifiedContractIdentifier, StackerDBConfig, StacksAddress,
};
use crate::value::{
    buffer_field, get_buffer, get_list, get_uint, has_buffer, has_list, has_uint, list_field,
    uint_field, uint_in, ClarityValue, ResponseData,
};
use vstd::prelude::*;
use vstd::string::*;

verus! {

/// What became of reading a value.
pub enum Reading<T, R> {
    /// The value does not have the type that every StackerDB contract promises.
    Misshapen,
    /// The value has the type, and is out of bounds; with the reason.
    Refused(R),
    /// The value has the type and is in bounds; with what it says.
    Accepted(T),
}

/// The lowest port at which a replica may listen.
pub const MIN_PORT: u16 = 1024;

/// The highest port at which a replica may listen.
pub const MAX_PORT: u16 = 65534;

/// The bytes of an IP address in a list of unsigned integers. The list is read from its start,
/// up to the first item that is no byte.
pub open spec fn addr_of(list: Seq<ClarityValue>, id: QualifiedContractIdentifier) -> Reading<
    Seq<u8>,
    Seq<char>,
>
    decreases list.len(),
{
    if list.len() == 0 {
        Reading::Accepted(Seq::empty())
    } else {
        match addr_of(list.drop_last(), id) {
            Reading::Accepted(bytes) => match list.last() {
                ClarityValue::UInt(byte) => if byte > u8::MAX {
                    Reading::Refused(
                        contract_reason(
                            "Contract "@,
                            id,
                            " stipulates an addr byte above u8::MAX"@,
                        ),
                    )
                } else {
                    Reading::Accepted(bytes.push(byte as u8))
                },
                _ => Reading::Misshapen,
            },
            other => other,
        }
    }
}

/// Bytes, with zeros behind them up to the length `size`.
pub open spec fn padded(bytes: Seq<u8>, size: nat) -> Seq<u8> {
    Seq::new(
        size,
        |i: int|
            if i < bytes.len() {
                bytes[i]
            } else {
                0u8
            },
    )
}

/// A replica has the fields that the contract promises, each of its type.
pub open spec fn replica_has_fields(replica: Map<Seq<char>, ClarityValue>) -> bool {
    &&& has_list(replica, "addr"@)
    &&& has_uint(replica, "port"@)
    &&& has_buffer(replica, "public-key-hash"@, 20)
}

/// One replica that a contract hints at.
pub open spec fn replica_of(value: ClarityValue, id: QualifiedContractIdentifier) -> Reading<
    NeighborView,
    Seq<char>,
> {
    match value {
        ClarityValue::Tuple(tuple) => if !replica_has_fields(tuple@) {
            Reading::Misshapen
        } else {
            match addr_of(list_field(tuple@, "addr"@), id) {
                Reading::Misshapen => Reading::Misshapen,
                Reading::Refused(reason) => Reading::Refused(reason),
                Reading::Accepted(bytes) => {
                    let port = uint_field(tuple@, "port"@);
                    if bytes.len() != 16 {
                        Reading::Refused(
                            contract_reason(
                                "Contract "@,
                                id,
                                " did not stipulate a full 16-octet IP address"@,
                            ),
                        )
                    } else if port < MIN_PORT || port > MAX_PORT {
                        Reading::Refused(
                            contract_reason(
                                "Contract "@,
                                id,
                                " stipulates a port lower than 1024 or above u16::MAX - 1"@,
                            ),
                        )
                    } else {
                        Reading::Accepted(
                            NeighborView {
                                addrbytes: bytes,
                                port: port as u16,
                                public_key_hash: padded(
                                    buffer_field(tuple@, "public-key-hash"@),
                                    20,
                                ),
                            },
                        )
                    }
                },
            }
        },
        _ => Reading::Misshapen,
    }
}

/// The replicas that a contract hints at, in their order. The list is read from its start, up
/// to the first replica that is not accepted.
pub open spec fn replicas_of(list: Seq<ClarityValue>, id: QualifiedContractIdentifier) -> Reading<
    Seq<NeighborView>,
    Seq<char>,
>
    decreases list.len(),
{
    if list.len() == 0 {
        Reading::Accepted(Seq::empty())
    } else {
        match replicas_of(list.drop_last(), id) {
            Reading::Accepted(replicas) => match replica_of(list.last(), id) {
                Reading::Misshapen => Reading::Misshapen,
                Reading::Refused(reason) => Reading::Refused(reason),
                Reading::Accepted(replica) => Reading::Accepted(replicas.push(replica)),
            },
            other => other,
        }
    }
}

/// The configuration in the fields of a tuple. The fields are read one after the other, up to
/// the first that is out of bounds.
pub open spec fn fields_of(
    tuple: Map<Seq<char>, ClarityValue>,
    signers: Seq<(StacksAddress, u32)>,
    id: QualifiedContractIdentifier,
    limits: Limits,
) -> Reading<ConfigView, Seq<char>> {
    let refused = |tail: Seq<char>| Reading::Refused(contract_reason("Contract "@, id, tail));
    if !has_uint(tuple, "chunk-size"@) {
        Reading::Misshapen
    } else if uint_field(tuple, "chunk-size"@) > limits.max_chunk_size {
        refused(" stipulates a chunk size beyond STACKERDB_MAX_CHUNK_SIZE"@)
    } else if !has_uint(tuple, "write-freq"@) {
        Reading::Misshapen
    } else if uint_field(tuple, "write-freq"@) > u64::MAX {
        refused(" stipulates a write frequency beyond u64::MAX"@)
    } else if !has_uint(tuple, "max-writes"@) {
        Reading::Misshapen
    } else if uint_field(tuple, "max-writes"@) > u32::MAX {
        refused(" stipulates a max-write bound beyond u32::MAX"@)
    } else if !has_uint(tuple, "max-neighbors"@) {
        Reading::Misshapen
    } else if uint_field(tuple, "max-neighbors"@) > usize::MAX {
        refused(" stipulates a maximum number of neighbors beyond usize::MAX"@)
    } else if !has_list(tuple, "hint-replicas"@) {
        Reading::Misshapen
    } else {
        match replicas_of(list_field(tuple, "hint-replicas"@), id) {
            Reading::Misshapen => Reading::Misshapen,
            Reading::Refused(reason) => Reading::Refused(reason),
            Reading::Accepted(replicas) => Reading::Accepted(
                ConfigView {
                    chunk_size: uint_field(tuple, "chunk-size"@) as u64,
                    signers,
                    write_freq: uint_field(tuple, "write-freq"@) as u64,
                    max_writes: uint_field(tuple, "max-writes"@) as u32,
                    hint_replicas: replicas,
                    max_neighbors: uint_field(tuple, "max-neighbors"@) as usize,
                },
            ),
        }
    }
}

/// The configuration in the answer of a contract, with the signers `signers`.
pub open spec fn config_of(
    value: ClarityValue,
    signers: Seq<(StacksAddress, u32)>,
    id: QualifiedContractIdentifier,
    limits: Limits,
) -> Reading<ConfigView, Seq<char>> {
    match value {
        ClarityValue::Response(ResponseData::Committed(data)) => match *data {
            ClarityValue::Tuple(tuple) => fields_of(tuple@, signers, id, limits),
            _ => Reading::Misshapen,
        },
        ClarityValue::Response(ResponseData::Aborted(abort)) => match uint_in(abort@) {
            Some(code) => Reading::Refused(
                contract_reason(
                    "Contract "@,
                    id,
                    " failed to run `stackerdb-get-config`: err u"@ + decimal_text(code as nat),
                ),
            ),
            None => Reading::Misshapen,
        },
        _ => Reading::Misshapen,
    }
}

/// Reads the bytes of an IP address.
fn read_addr(list: &Vec<ClarityValue>, id: &QualifiedContractIdentifier) -> (r: Reading<
    Vec<u8>,
    String,
>)
    ensures
        match r {
            Reading::Misshapen => addr_of(list@, *id) is Misshapen,
            Reading::Refused(reason) => addr_of(list@, *id) == Reading::<Seq<u8>, _>::Refused(
                reason@,
            ),
            Reading::Accepted(bytes) => addr_of(list@, *id) == Reading::<_, Seq<char>>::Accepted(
                bytes@,
            ),
        },
{
    let mut bytes: Vec<u8> = Vec::new();
    let mut i: usize = 0;
    assert(list@.take(0) =~= Seq::empty());
    while i < list.len()
        invariant
            i <= list@.len(),
            addr_of(list@.take(i as int), *id) == Reading::<_, Seq<char>>::Accepted(bytes@),
        decreases list@.len() - i,
    {
        proof {
            assert(list@.take(i + 1).drop_last() =~= list@.take(i as int));
            assert(list@.take(i + 1).last() == list@[i as int]);
        }
        match &list[i] {
            ClarityValue::UInt(byte) => {
                if *byte > u8::MAX as u128 {
                    proof {
                        lemma_addr_stops(list@, i + 1, *id);
                    }
                    return Reading::Refused(
                        write_contract_reason(
                            "Contract ",
                            id,
                            " stipulates an addr byte above u8::MAX",
                        ),
                    );
                }
                bytes.push(*byte as u8);
            },
            _ => {
                proof {
                    lemma_addr_stops(list@, i + 1, *id);
                }
                return Reading::Misshapen;
            },
        }
        i = i + 1;
    }
    assert(list@.take(i as int) =~= list@);
    Reading::Accepted(bytes)
}

/// A prefix that is not accepted decides what becomes of the list.
proof fn lemma_addr_stops(list: Seq<ClarityValue>, n: int, id: QualifiedContractIdentifier)
    requires
        0 <= n <= list.len(),
        !(addr_of(list.take(n), id) is Accepted),
    ensures
        addr_of(list, id) == addr_of(list.take(n), id),
    decreases list.len() - n,
{
    if n == list.len() {
        assert(list.take(n) =~= list);
    } else {
        assert(list.take(n + 1).drop_last() =~= list.take(n));
        lemma_addr_stops(list, n + 1, id);
    }
}

/// Bytes, with zeros behind them up to a length of twenty.
fn pad_hash(bytes: &Vec<u8>) -> (hash: Hash160)
    requires
        bytes@.len() <= 20,
    ensures
        hash.0@ == padded(bytes@, 20),
{
    let mut hash = [0u8; 20];
    let mut i: usize = 0;
    while i < bytes.len()
        invariant
            i <= bytes@.len() <= 20,
            hash@.len() == 20,
            forall|j: int| 0 <= j < i ==> hash@[j] == bytes@[j],
            forall|j: int| i <= j < 20 ==> hash@[j] == 0,
        decreases bytes@.len() - i,
    {
        hash[i] = bytes[i];
        i = i + 1;
    }
    assert(hash@ =~= padded(bytes@, 20));
    Hash160(hash)
}

impl PeerAddress {
    /// The address of sixteen bytes.
    pub fn from_slice(bytes: &Vec<u8>) -> (address: Option<PeerAddress>)
        ensures
            address is Some <==> bytes@.len() == 16,
            address matches Some(a) ==> a.0@ == bytes@,
    {
        if bytes.len() != 16 {
            return None;
        }
        let mut address = [0u8; 16];
        let mut i: usize = 0;
        while i < 16
            invariant
                i <= 16,
                bytes@.len() == 16,
                address@.len() == 16,
                forall|j: int| 0 <= j < i ==> address@[j] == bytes@[j],
            decreases 16 - i,
        {
            address[i] = bytes[i];
            i = i + 1;
        }
        assert(address@ =~= bytes@);
        Some(PeerAddress(address))
    }
}

/// Reads one replica.
fn read_replica(value: &ClarityValue, id: &QualifiedContractIdentifier) -> (r: Reading<
    NeighborAddress,
    String,
>)
    ensures
        match r {
            Reading::Misshapen => replica_of(*value, *id) is Misshapen,
            Reading::Refused(reason) => replica_of(*value, *id) == Reading::<
                NeighborView,
                _,
            >::Refused(reason@),
            Reading::Accepted(replica) => replica_of(*value, *id) == Reading::<
                _,
                Seq<char>,
            >::Accepted(replica@),
        },
{
    let tuple = match value {
        ClarityValue::Tuple(tuple) => tuple,
        _ => {
            return Reading::Misshapen;
        },
    };
    let addr_list = match get_list(tuple, "addr") {
        Some(list) => list,
        None => {
            return Reading::Misshapen;
        },
    };
    let port = match get_uint(tuple, "port") {
        Some(port) => port,
        None => {
            return Reading::Misshapen;
        },
    };
    let hash_bytes = match get_buffer(tuple, "public-key-hash", 20) {
        Some(bytes) => bytes,
        None => {
            return Reading::Misshapen;
        },
    };
    let addr_bytes = match read_addr(addr_list, id) {
        Reading::Misshapen => {
            return Reading::Misshapen;
        },
        Reading::Refused(reason) => {
            return Reading::Refused(reason);
        },
        Reading::Accepted(bytes) => bytes,
    };
    let addrbytes = match PeerAddress::from_slice(&addr_bytes) {
        Some(address) => address,
        None => {
            return Reading::Refused(
                write_contract_reason(
                    "Contract ",
                    id,
                    " did not stipulate a full 16-octet IP address",
                ),
            );
        },
    };
    if port < MIN_PORT as u128 || port > MAX_PORT as u128 {
        return Reading::Refused(
            write_contract_reason(
                "Contract ",
                id,
                " stipulates a port lower than 1024 or above u16::MAX - 1",
            ),
        );
    }
    Reading::Accepted(
        NeighborAddress { addrbytes, port: port as u16, public_key_hash: pad_hash(hash_bytes) },
    )
}

/// A prefix that is not accepted decides what becomes of the list.
proof fn lemma_replicas_stop(list: Seq<ClarityValue>, n: int, id: QualifiedContractIdentifier)
    requires
        0 <= n <= list.len(),
        !(replicas_of(list.take(n), id) is Accepted),
    ensures
        replicas_of(list, id) == replicas_of(list.take(n), id),
    decreases list.len() - n,
{
    if n == list.len() {
        assert(list.take(n) =~= list);
    } else {
        assert(list.take(n + 1).drop_last() =~= list.take(n));
        lemma_replicas_stop(list, n + 1, id);
    }
}

/// Reads the replicas.
fn read_replicas(list: &Vec<ClarityValue>, id: &QualifiedContractIdentifier) -> (r: Reading<
    Vec<NeighborAddress>,
    String,
>)
    ensures
        match r {
            Reading::Misshapen => replicas_of(list@, *id) is Misshapen,
            Reading::Refused(reason) => replicas_of(list@, *id) == Reading::<
                Seq<NeighborView>,
                _,
            >::Refused(reason@),
            Reading::Accepted(replicas) => replicas_of(list@, *id) == Reading::<
                _,
                Seq<char>,
            >::Accepted(neighbor_views(replicas@)),
        },
{
    let mut replicas: Vec<NeighborAddress> = Vec::new();
    let mut i: usize = 0;
    assert(list@.take(0) =~= Seq::empty());
    assert(neighbor_views(replicas@) =~= Seq::empty());
    while i < list.len()
        invariant
            i <= list@.len(),
            replicas_of(list@.take(i as int), *id) == Reading::<_, Seq<char>>::Accepted(
                neighbor_views(replicas@),
            ),
        decreases list@.len() - i,
    {
        proof {
            assert(list@.take(i + 1).drop_last() =~= list@.take(i as int));
            assert(list@.take(i + 1).last() == list@[i as int]);
        }
        match read_replica(&list[i], id) {
            Reading::Misshapen => {
                proof {
                    lemma_replicas_stop(list@, i + 1, *id);
                }
                return Reading::Misshapen;
            },
            Reading::Refused(reason) => {
                proof {
                    lemma_replicas_stop(list@, i + 1, *id);
                }
                return Reading::Refused(reason);
            },
            Reading::Accepted(replica) => {
                let ghost before = replicas@;
                replicas.push(replica);
                assert(neighbor_views(replicas@) =~= neighbor_views(before).push(replica@));
            },
        }
        i = i + 1;
    }
    assert(list@.take(i as int) =~= list@);
    Reading::Accepted(replicas)
}

/// Reads the fields of a configuration.
fn read_fields(
    tuple: &NameMap<ClarityValue>,
    signers: Vec<(StacksAddress, u32)>,
    id: &QualifiedContractIdentifier,
    limits: &Limits,
) -> (r: Reading<StackerDBConfig, String>)
    ensures
        match r {
            Reading::Misshapen => fields_of(tuple@, signers@, *id, *limits) is Misshapen,
            Reading::Refused(reason) => fields_of(tuple@, signers@, *id, *limits) == Reading::<
                ConfigView,
                _,
            >::Refused(reason@),
            Reading::Accepted(config) => fields_of(tuple@, signers@, *id, *limits) == Reading::<
                _,
                Seq<char>,
            >::Accepted(config@),
        },
{
    let chunk_size = match get_uint(tuple, "chunk-size") {
        Some(n) => n,
        None => {
            return Reading::Misshapen;
        },
    };
    if chunk_size > limits.max_chunk_size as u128 {
        return Reading::Refused(
            write_contract_reason(
                "Contract ",
                id,
                " stipulates a chunk size beyond STACKERDB_MAX_CHUNK_SIZE",
            ),
        );
    }
    let write_freq = match get_uint(tuple, "write-freq") {
        Some(n) => n,
        None => {
            return Reading::Misshapen;
        },
    };
    if write_freq > u64::MAX as u128 {
        return Reading::Refused(
            write_contract_reason(
                "Contract ",
                id,
                " stipulates a write frequency beyond u64::MAX",
            ),
        );
    }
    let max_writes = match get_uint(tuple, "max-writes") {
        Some(n) => n,
        None => {
            return Reading::Misshapen;
        },
    };
    if max_writes > u32::MAX as u128 {
        return Reading::Refused(
            write_contract_reason(
                "Contract ",
                id,
                " stipulates a max-write bound beyond u32::MAX",
            ),
        );
    }
    let max_neighbors = match get_uint(tuple, "max-neighbors") {
        Some(n) => n,
        None => {
            return Reading::Misshapen;
        },
    };
    if max_neighbors > usize::MAX as u128 {
        return Reading::Refused(
            write_contract_reason(
                "Contract ",
                id,
                " stipulates a maximum number of neighbors beyond usize::MAX",
            ),
        );
    }
    let replica_list = match get_list(tuple, "hint-replicas") {
        Some(list) => list,
        None => {
            return Reading::Misshapen;
        },
    };
    match read_replicas(replica_list, id) {
        Reading::Misshapen => Reading::Misshapen,
        Reading::Refused(reason) => Reading::Refused(reason),
        Reading::Accepted(hint_replicas) => Reading::Accepted(
            StackerDBConfig {
                chunk_size: chunk_size as u64,
                signers,
                write_freq: write_freq as u64,
                max_writes: max_writes as u32,
                hint_replicas,
                max_neighbors: max_neighbors as usize,
            },
        ),
    }
}

/// What a configuration that was had, or the error in its place, says.
pub open spec fn config_result(r: Result<StackerDBConfig, NetError>) -> Result<
    ConfigView,
    ErrorView,
> {
    match r {
        Ok(config) => Ok(config@),
        Err(error) => Err(error@),
    }
}

/// What is to be answered for a reading: nothing where the value was misshapen, and the error
/// for an invalid contract where it was refused.
pub open spec fn answer_for(
    reading: Reading<ConfigView, Seq<char>>,
    id: QualifiedContractIdentifier,
) -> Option<Result<ConfigView, ErrorView>> {
    match reading {
        Reading::Misshapen => None,
        Reading::Refused(reason) => Some(Err(ErrorView::InvalidStackerDBContract(id, reason))),
        Reading::Accepted(config) => Some(Ok(config)),
    }
}

/// The numbers of a configuration are those in the fields of a tuple.
pub open spec fn states_numbers(
    tuple: Map<Seq<char>, ClarityValue>,
    config: StackerDBConfig,
) -> bool {
    &&& tuple["chunk-size"@] == ClarityValue::UInt(config.chunk_size as u128)
    &&& tuple["write-freq"@] == ClarityValue::UInt(config.write_freq as u128)
    &&& tuple["max-writes"@] == ClarityValue::UInt(config.max_writes as u128)
    &&& tuple["max-neighbors"@] == ClarityValue::UInt(config.max_neighbors as u128)
}

/// The octets, the port and the hash of a replica are those in the fields of a tuple; the hash
/// ends with zeros where the field has fewer bytes.
pub open spec fn states_replica(value: ClarityValue, replica: NeighborAddress) -> bool {
    &&& value matches ClarityValue::Tuple(tuple)
    &&& tuple@["addr"@] matches ClarityValue::List(addr)
    &&& addr@.len() == 16
    &&& forall|j: int|
        0 <= j < 16 ==> addr@[j] == ClarityValue::UInt(
            #[trigger] replica.addrbytes.0@[j] as u128,
        )
    &&& tuple@["port"@] == ClarityValue::UInt(replica.port as u128)
    &&& tuple@["public-key-hash"@] matches ClarityValue::Buffer(hash)
    &&& hash@.len() <= 20
    &&& forall|j: int|
        0 <= j < 20 ==> #[trigger] replica.public_key_hash.0@[j] == if j < hash@.len() {
            hash@[j]
        } else {
            0u8
        }
}

proof fn lemma_replica_is_what_is_stated(
    value: ClarityValue,
    replica: NeighborAddress,
    id: QualifiedContractIdentifier,
)
    requires
        replica_of(value, id) == Reading::<_, Seq<char>>::Accepted(replica@),
    ensures
        states_replica(value, replica),
{
    let tuple = value->Tuple_0@;
    let addr = list_field(tuple, "addr"@);
    law_addr_is_its_bytes(addr, id);
    assert forall|j: int| 0 <= j < 16 implies addr[j] == ClarityValue::UInt(
        #[trigger] replica.addrbytes.0@[j] as u128,
    ) by {
        assert(is_byte(addr[j]));
    }
}

proof fn lemma_config_is_what_is_stated(
    value: ClarityValue,
    config: StackerDBConfig,
    id: QualifiedContractIdentifier,
    limits: Limits,
)
    requires
        config_of(value, config.signers@, id, limits) == Reading::<_, Seq<char>>::Accepted(config@),
    ensures
        ({
            &&& value matches ClarityValue::Response(ResponseData::Committed(data))
            &&& *data matches ClarityValue::Tuple(tuple)
            &&& states_numbers(tuple@, config)
            &&& tuple@["hint-replicas"@] matches ClarityValue::List(list)
            &&& config.hint_replicas@.len() == list@.len()
            &&& forall|i: int|
                0 <= i < list@.len() ==> states_replica(
                    list@[i],
                    #[trigger] config.hint_replicas@[i],
                )
        }),
{
    let tuple = (*value->Response_0->Committed_0)->Tuple_0@;
    let list = list_field(tuple, "hint-replicas"@);
    law_replicas_are_those_of_the_list(list, id);
    assert(config@.hint_replicas == neighbor_views(config.hint_replicas@));
    assert(config@.hint_replicas.len() == list.len());
    assert forall|i: int| 0 <= i < list.len() implies states_replica(
        list[i],
        #[trigger] config.hint_replicas@[i],
    ) by {
        assert(replica_of(list[i], id) is Accepted);
        assert(config@.hint_replicas[i] == config.hint_replicas@[i]@);
        lemma_replica_is_what_is_stated(list[i], config.hint_replicas@[i], id);
    }
}

impl StackerDBConfig {
    /// Reads the configuration in the answer of a contract to `stackerdb-get-config`, with the
    /// signers `signers`. There is none, nor an error, if the answer does not have the type that
    /// every StackerDB contract promises.
    pub fn try_eval_config(
        value: &ClarityValue,
        contract_id: &QualifiedContractIdentifier,
        signers: Vec<(StacksAddress, u32)>,
        limits: &Limits,
    ) -> (r: Option<Result<StackerDBConfig, NetError>>)
        ensures
            r is None <==> config_of(*value, signers@, *contract_id, *limits) is Misshapen,
            r matches Some(result) ==> Some(config_result(result)) == answer_for(
                config_of(*value, signers@, *contract_id, *limits),
                *contract_id,
            ),
            r matches Some(Ok(config)) ==> {
                &&& *value matches ClarityValue::Response(ResponseData::Committed(data))
                &&& *data matches ClarityValue::Tuple(tuple)
                &&& states_numbers(tuple@, config)
                &&& tuple@["hint-replicas"@] matches ClarityValue::List(list)
                &&& config.hint_replicas@.len() == list@.len()
                &&& forall|i: int|
                    0 <= i < list@.len() ==> states_replica(
                        list@[i],
                        #[trigger] config.hint_replicas@[i],
                    )
                &&& config.signers@ == signers@
            },
    {
        let reading = match value {
            ClarityValue::Response(ResponseData::Committed(data)) => match &**data {
                ClarityValue::Tuple(tuple) => read_fields(tuple, signers, contract_id, limits),
                _ => Reading::Misshapen,
            },
            ClarityValue::Response(ResponseData::Aborted(abort)) => match abort.uint() {
                Some(code) => {
                    let mut tail = String::from_str(
                        " failed to run `stackerdb-get-config`: err u",
                    );
                    tail.append(decimal(code).as_str());
                    Reading::Refused(
                        write_contract_reason("Contract ", contract_id, tail.as_str()),
                    )
                },
                None => Reading::Misshapen,
            },
            _ => Reading::Misshapen,
        };
        match reading {
            Reading::Misshapen => None,
            Reading::Refused(reason) => Some(Err(invalid_contract(contract_id, reason))),
            Reading::Accepted(config) => {
                proof {
                    lemma_config_is_what_is_stated(*value, config, *contract_id, *limits);
                }
                Some(Ok(config))
            },
        }
    }

    /// The configuration in the answer of a contract to `stackerdb-get-config`, with the signers
    /// `signers`. The answer has the type that every StackerDB contract promises, as far as it
    /// is read: up to the first part that is out of bounds.
    pub fn eval_config(
        value: &ClarityValue,
        contract_id: &QualifiedContractIdentifier,
        signers: Vec<(StacksAddress, u32)>,
        limits: &Limits,
    ) -> (r: Result<StackerDBConfig, NetError>)
        requires
            !(config_of(*value, signers@, *contract_id, *limits) is Misshapen),
        ensures
            Some(config_result(r)) == answer_for(
                config_of(*value, signers@, *contract_id, *limits),
                *contract_id,
            ),
            r matches Ok(config) ==> {
                &&& *value matches ClarityValue::Response(ResponseData::Committed(data))
                &&& *data matches ClarityValue::Tuple(tuple)
                &&& states_numbers(tuple@, config)
                &&& tuple@["hint-replicas"@] matches ClarityValue::List(list)
                &&& config.hint_replicas@.len() == list@.len()
                &&& forall|i: int|
                    0 <= i < list@.len() ==> states_replica(
                        list@[i],
                        #[trigger] config.hint_replicas@[i],
                    )
                &&& config.signers@ == signers@
            },
    {
        StackerDBConfig::try_eval_config(value, contract_id, signers, limits).unwrap()
    }
}

/// A replica with a full address, a port in range and a full hash.
pub open spec fn neighbor_in_bounds(replica: NeighborView) -> bool {
    &&& replica.addrbytes.len() == 16
    &&& MIN_PORT <= replica.port <= MAX_PORT
    &&& replica.public_key_hash.len() == 20
}

/// The value is an unsigned integer that is a byte.
pub open spec fn is_byte(value: ClarityValue) -> bool {
    value matches ClarityValue::UInt(n) && n <= u8::MAX
}

/// The bytes of an address are accepted if and only if every item of the list is a byte; they
/// are then those bytes, in their order.
pub proof fn law_addr_is_its_bytes(list: Seq<ClarityValue>, id: QualifiedContractIdentifier)
    ensures
        addr_of(list, id) is Accepted <==> forall|i: int|
            0 <= i < list.len() ==> is_byte(#[trigger] list[i]),
        addr_of(list, id) matches Reading::Accepted(bytes) ==> bytes == list.map_values(
            |item: ClarityValue| item->UInt_0 as u8,
        ),
    decreases list.len(),
{
    let byte = |item: ClarityValue| item->UInt_0 as u8;
    if list.len() == 0 {
        assert(list.map_values(byte) =~= Seq::empty());
    } else {
        let front = list.drop_last();
        law_addr_is_its_bytes(front, id);
        assert(list.map_values(byte) =~= front.map_values(byte).push(byte(list.last())));
        assert(list.last() == list[list.len() - 1]);
        if forall|i: int| 0 <= i < list.len() ==> is_byte(#[trigger] list[i]) {
            assert forall|i: int| 0 <= i < front.len() implies is_byte(#[trigger] front[i]) by {
                assert(front[i] == list[i]);
            }
        }
        if addr_of(list, id) is Accepted {
            assert forall|i: int| 0 <= i < list.len() implies is_byte(#[trigger] list[i]) by {
                if i < front.len() {
                    assert(front[i] == list[i]);
                }
            }
        }
    }
}

/// A replica is accepted if and only if it has its fields, its address is one of sixteen bytes
/// and its port is in range.
pub proof fn law_replica_accepted_iff_in_bounds(
    value: ClarityValue,
    id: QualifiedContractIdentifier,
)
    ensures
        replica_of(value, id) is Accepted <==> {
            &&& value matches ClarityValue::Tuple(tuple)
            &&& replica_has_fields(tuple@)
            &&& list_field(tuple@, "addr"@).len() == 16
            &&& forall|i: int| 0 <= i < 16 ==> is_byte(#[trigger] list_field(tuple@, "addr"@)[i])
            &&& MIN_PORT <= uint_field(tuple@, "port"@) <= MAX_PORT
        },
{
    if let ClarityValue::Tuple(tuple) = value {
        law_addr_is_its_bytes(list_field(tuple@, "addr"@), id);
    }
}

/// A configuration is accepted if and only if the contract answered with a tuple that has the
/// five fields, each of the four numbers is in range and every replica is accepted.
pub proof fn law_config_accepted_iff_in_bounds(
    value: ClarityValue,
    signers: Seq<(StacksAddress, u32)>,
    id: QualifiedContractIdentifier,
    limits: Limits,
)
    ensures
        config_of(value, signers, id, limits) is Accepted <==> {
            &&& value matches ClarityValue::Response(ResponseData::Committed(data))
            &&& *data matches ClarityValue::Tuple(tuple)
            &&& has_uint(tuple@, "chunk-size"@)
            &&& uint_field(tuple@, "chunk-size"@) <= limits.max_chunk_size
            &&& has_uint(tuple@, "write-freq"@)
            &&& uint_field(tuple@, "write-freq"@) <= u64::MAX
            &&& has_uint(tuple@, "max-writes"@)
            &&& uint_field(tuple@, "max-writes"@) <= u32::MAX
            &&& has_uint(tuple@, "max-neighbors"@)
            &&& uint_field(tuple@, "max-neighbors"@) <= usize::MAX
            &&& has_list(tuple@, "hint-replicas"@)
            &&& forall|i: int|
                0 <= i < list_field(tuple@, "hint-replicas"@).len() ==> replica_of(
                    #[trigger] list_field(tuple@, "hint-replicas"@)[i],
                    id,
                ) is Accepted
        },
{
    if let ClarityValue::Response(ResponseData::Committed(data)) = value {
        if let ClarityValue::Tuple(tuple) = *data {
            law_replicas_are_those_of_the_list(list_field(tuple@, "hint-replicas"@), id);
        }
    }
}

/// Replicas are accepted if and only if each of them is; they are then the ones that the items
/// of the list say, in their order.
pub proof fn law_replicas_are_those_of_the_list(
    list: Seq<ClarityValue>,
    id: QualifiedContractIdentifier,
)
    ensures
        replicas_of(list, id) is Accepted <==> forall|i: int|
            0 <= i < list.len() ==> replica_of(#[trigger] list[i], id) is Accepted,
        replicas_of(list, id) matches Reading::Accepted(replicas) ==> replicas
            == list.map_values(|item: ClarityValue| replica_of(item, id)->Accepted_0),
    decreases list.len(),
{
    let read = |item: ClarityValue| replica_of(item, id)->Accepted_0;
    if list.len() == 0 {
        assert(list.map_values(read) =~= Seq::empty());
    } else {
        let front = list.drop_last();
        law_replicas_are_those_of_the_list(front, id);
        assert(list.map_values(read) =~= front.map_values(read).push(read(list.last())));
        assert(list.last() == list[list.len() - 1]);
        if forall|i: int| 0 <= i < list.len() ==> replica_of(#[trigger] list[i], id) is Accepted {
            assert forall|i: int| 0 <= i < front.len() implies replica_of(
                #[trigger] front[i],
                id,
            ) is Accepted by {
                assert(front[i] == list[i]);
            }
        }
        if replicas_of(list, id) is Accepted {
            assert forall|i: int| 0 <= i < list.len() implies replica_of(
                #[trigger] list[i],
                id,
            ) is Accepted by {
                if i < front.len() {
                    assert(front[i] == list[i]);
                }
            }
        }
    }
}

/// Every configuration that is accepted is in bounds, and has the signers that were given.
pub proof fn law_config_in_bounds(
    value: ClarityValue,
    signers: Seq<(StacksAddress, u32)>,
    id: QualifiedContractIdentifier,
    limits: Limits,
)
    ensures
        config_of(value, signers, id, limits) matches Reading::Accepted(config) ==> {
            &&& config.signers == signers
            &&& config.chunk_size <= limits.max_chunk_size
            &&& forall|i: int|
                0 <= i < config.hint_replicas.len() ==> neighbor_in_bounds(
                    #[trigger] config.hint_replicas[i],
                )
        },
{
    if let Reading::Accepted(config) = config_of(value, signers, id, limits) {
        let tuple = (*value->Response_0->Committed_0)->Tuple_0@;
        let list = list_field(tuple, "hint-replicas"@);
        law_replicas_are_those_of_the_list(list, id);
        assert forall|i: int| 0 <= i < config.hint_replicas.len() implies neighbor_in_bounds(
            #[trigger] config.hint_replicas[i],
        ) by {
            assert(replica_of(list[i], id) is Accepted);
        }
    }
}

/// The value is an unsigned integer.
pub open spec fn is_uint(value: ClarityValue) -> bool {
    value is UInt
}

/// The value has the type `{ addr: (list 16 uint), port: uint, public-key-hash: (buff 20) }`,
/// however long its list is.
pub open spec fn has_replica_type(value: ClarityValue) -> bool {
    &&& value matches ClarityValue::Tuple(tuple)
    &&& replica_has_fields(tuple@)
    &&& forall|i: int|
        0 <= i < list_field(tuple@, "addr"@).len() ==> is_uint(
            #[trigger] list_field(tuple@, "addr"@)[i],
        )
}

/// The value has the type that every StackerDB contract promises of `stackerdb-get-config`,
/// however long its lists are.
pub open spec fn has_config_type(value: ClarityValue) -> bool {
    match value {
        ClarityValue::Response(ResponseData::Committed(data)) => {
            &&& *data matches ClarityValue::Tuple(tuple)
            &&& has_uint(tuple@, "chunk-size"@)
            &&& has_uint(tuple@, "write-freq"@)
            &&& has_uint(tuple@, "max-writes"@)
            &&& has_uint(tuple@, "max-neighbors"@)
            &&& has_list(tuple@, "hint-replicas"@)
            &&& forall|i: int|
                0 <= i < list_field(tuple@, "hint-replicas"@).len() ==> has_replica_type(
                    #[trigger] list_field(tuple@, "hint-replicas"@)[i],
                )
        },
        ClarityValue::Response(ResponseData::Aborted(abort)) => uint_in(abort@) is Some,
        _ => false,
    }
}

proof fn lemma_uints_are_readable(list: Seq<ClarityValue>, id: QualifiedContractIdentifier)
    requires
        forall|i: int| 0 <= i < list.len() ==> is_uint(#[trigger] list[i]),
    ensures
        !(addr_of(list, id) is Misshapen),
    decreases list.len(),
{
    if list.len() > 0 {
        let front = list.drop_last();
        assert forall|i: int| 0 <= i < front.len() implies is_uint(#[trigger] front[i]) by {
            assert(front[i] == list[i]);
        }
        lemma_uints_are_readable(front, id);
        assert(is_uint(list[list.len() - 1]));
    }
}

proof fn lemma_replicas_are_readable(list: Seq<ClarityValue>, id: QualifiedContractIdentifier)
    requires
        forall|i: int| 0 <= i < list.len() ==> has_replica_type(#[trigger] list[i]),
    ensures
        !(replicas_of(list, id) is Misshapen),
    decreases list.len(),
{
    if list.len() > 0 {
        let front = list.drop_last();
        assert forall|i: int| 0 <= i < front.len() implies has_replica_type(
            #[trigger] front[i],
        ) by {
            assert(front[i] == list[i]);
        }
        lemma_replicas_are_readable(front, id);
        assert(has_replica_type(list[list.len() - 1]));
        lemma_uints_are_readable(list_field(list.last()->Tuple_0@, "addr"@), id);
    }
}

/// An answer of the type that every StackerDB contract promises is never misshapen: it gives a
/// configuration, or the error for an invalid contract.
pub proof fn law_typed_answer_is_readable(
    value: ClarityValue,
    signers: Seq<(StacksAddress, u32)>,
    id: QualifiedContractIdentifier,
    limits: Limits,
)
    requires
        has_config_type(value),
    ensures
        !(config_of(value, signers, id, limits) is Misshapen),
        answer_for(config_of(value, signers, id, limits), id) is Some,
{
    match value {
        ClarityValue::Response(ResponseData::Committed(data)) => {
            lemma_replicas_are_readable(list_field((*data)->Tuple_0@, "hint-replicas"@), id);
        },
        _ => {},
    }
}

} // verus!
