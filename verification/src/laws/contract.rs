//! Which functions a contract must have, where they are looked for, and what is said of a
//! contract that does not have them.

use crate::contract::{
    args_fit, config_repr, contract_fault, first_misfit, function_fault, has_exactly,
    is_first_fault, law_contract_conforms, law_first_misfit, law_function_conforms, replica_repr,
    required_list, slot_entry_repr, ContractAnalysis, FunctionType, RequiredView,
};
use crate::signature::{admits_result, type_repr, type_reprs, type_text, StacksEpochId, TypeRepr};
use crate::text::decimal_text;
use vstd::prelude::*;

verus! {

/// The function of a name is the read-only one if there is one, otherwise the public one if there
/// is one, and is missing only if there is neither.
pub proof fn law_function_is_looked_up(analysis: ContractAnalysis, name: Seq<char>)
    ensures
        analysis.read_only_function_types@.contains_key(name) ==> analysis.function(name) == Some(
            analysis.read_only_function_types@[name],
        ),
        !analysis.read_only_function_types@.contains_key(name)
            && analysis.public_function_types@.contains_key(name) ==> analysis.function(name)
            == Some(analysis.public_function_types@[name]),
        analysis.function(name) is None <==> !analysis.read_only_function_types@.contains_key(name)
            && !analysis.public_function_types@.contains_key(name),
{
}

/// The function takes as many arguments as it must, each of which may stand for what it is given,
/// and returns what may stand for what is expected.
pub open spec fn serves(
    function: FunctionType,
    required: RequiredView,
    epoch: StacksEpochId,
) -> bool {
    &&& function matches FunctionType::Fixed(fixed)
    &&& fixed.args@.len() == required.args.len()
    &&& forall|i: int|
        0 <= i < required.args.len() ==> admits_result(
            type_repr(fixed.args@[i]),
            epoch,
            #[trigger] required.args[i],
        ) == Some(true)
    &&& admits_result(required.returns, epoch, type_repr(fixed.returns)) == Some(true)
}

/// The function that a contract has for a required one serves: the read-only one of its name, or,
/// where there is none, the public one.
pub open spec fn has_function(
    required: RequiredView,
    epoch: StacksEpochId,
    read_only: Map<Seq<char>, FunctionType>,
    public: Map<Seq<char>, FunctionType>,
) -> bool {
    if read_only.contains_key(required.name) {
        serves(read_only[required.name], required, epoch)
    } else {
        public.contains_key(required.name) && serves(public[required.name], required, epoch)
    }
}

/// Nothing is wrong with a contract if and only if each required function is among its read-only
/// ones, or not among these and among its public ones, and serves; whichever of the two the other
/// required functions are among.
pub proof fn law_contract_is_judged_by_its_functions(
    required: Seq<RequiredView>,
    epoch: StacksEpochId,
    analysis: ContractAnalysis,
)
    ensures
        contract_fault(required, epoch, analysis) is None <==> forall|k: int|
            0 <= k < required.len() ==> has_function(
                #[trigger] required[k],
                epoch,
                analysis.read_only_function_types@,
                analysis.public_function_types@,
            ),
{
    law_contract_conforms(required, epoch, analysis);
    assert forall|k: int| 0 <= k < required.len() implies has_function(
        #[trigger] required[k],
        epoch,
        analysis.read_only_function_types@,
        analysis.public_function_types@,
    ) == (function_fault(required[k], epoch, analysis.function(required[k].name)) is None) by {
        law_function_conforms(required[k], epoch, analysis.function(required[k].name));
    }
    if let Some(fault) = contract_fault(required, epoch, analysis) {
        let k = choose|k: int| #[trigger] is_first_fault(required, epoch, analysis, k, fault);
        assert(!has_function(
            required[k],
            epoch,
            analysis.read_only_function_types@,
            analysis.public_function_types@,
        ));
    }
}

/// The fault of a contract is that of the first required function that has one.
pub proof fn law_first_fault_is_the_one_reported(
    required: Seq<RequiredView>,
    k: int,
    epoch: StacksEpochId,
    analysis: ContractAnalysis,
)
    requires
        0 <= k < required.len(),
        forall|j: int|
            0 <= j < k ==> has_function(
                #[trigger] required[j],
                epoch,
                analysis.read_only_function_types@,
                analysis.public_function_types@,
            ),
        !has_function(
            required[k],
            epoch,
            analysis.read_only_function_types@,
            analysis.public_function_types@,
        ),
    ensures
        contract_fault(required, epoch, analysis) == function_fault(
            required[k],
            epoch,
            analysis.function(required[k].name),
        ),
        contract_fault(required, epoch, analysis) is Some,
    decreases required.len(),
{
    law_function_conforms(required[k], epoch, analysis.function(required[k].name));
    let front = required.drop_last();
    if k < front.len() {
        assert forall|j: int| 0 <= j < k implies has_function(
            #[trigger] front[j],
            epoch,
            analysis.read_only_function_types@,
            analysis.public_function_types@,
        ) by {
            assert(front[j] == required[j]);
        }
        assert(front[k] == required[k]);
        law_first_fault_is_the_one_reported(front, k, epoch, analysis);
    } else {
        law_contract_is_judged_by_its_functions(front, epoch, analysis);
        assert forall|j: int| 0 <= j < front.len() implies has_function(
            #[trigger] front[j],
            epoch,
            analysis.read_only_function_types@,
            analysis.public_function_types@,
        ) by {
            assert(front[j] == required[j]);
        }
    }
}

/// What is said of a function that is missing, that is of another kind, or that takes another
/// number of arguments.
pub proof fn law_function_faults(
    required: RequiredView,
    epoch: StacksEpochId,
    function: Option<FunctionType>,
)
    ensures
        function is None ==> function_fault(required, epoch, function) == Some(
            "Contract is missing function '"@ + required.name + "'"@,
        ),
        function == Some(FunctionType::Other) ==> function_fault(required, epoch, function) == Some(
            "Function '"@ + required.name + "' must be a fixed function"@,
        ),
        function matches Some(FunctionType::Fixed(fixed)) ==> (fixed.args@.len()
            != required.args.len() ==> function_fault(required, epoch, function) == Some(
            "Function '"@ + required.name + "' has an invalid signature: it must have "@
                + decimal_text(required.args.len()) + " args"@,
        )),
{
}

/// What is said of a function with an argument that cannot stand for what it is given: the first
/// such argument, what was expected, and what there is.
pub proof fn law_argument_fault(
    required: RequiredView,
    epoch: StacksEpochId,
    function: FunctionType,
    k: int,
)
    requires
        function is Fixed,
        function->Fixed_0.args@.len() == required.args.len(),
        0 <= k < required.args.len(),
        forall|i: int|
            0 <= i < k ==> admits_result(
                type_repr(function->Fixed_0.args@[i]),
                epoch,
                #[trigger] required.args[i],
            ) == Some(true),
        admits_result(type_repr(function->Fixed_0.args@[k]), epoch, required.args[k]) != Some(true),
    ensures
        function_fault(required, epoch, Some(function)) == Some(
            "Function '"@ + required.name + "' has an invalid argument type: expected "@ + type_text(
                required.args[k],
            ) + ", got "@ + type_text(type_repr(function->Fixed_0.args@[k])),
        ),
{
    let fit = args_fit(type_reprs(function->Fixed_0.args@), required.args, epoch);
    law_first_misfit(fit);
    assert(!fit[k]);
    let bad = first_misfit(fit)->Some_0;
    if bad < k {
        assert(admits_result(
            type_repr(function->Fixed_0.args@[bad]),
            epoch,
            required.args[bad],
        ) == Some(true));
    }
    assert(bad == k);
}

/// What is said of a function all of whose arguments serve, and whose result cannot stand for
/// what is expected.
pub proof fn law_result_fault(
    required: RequiredView,
    epoch: StacksEpochId,
    function: FunctionType,
)
    requires
        function is Fixed,
        function->Fixed_0.args@.len() == required.args.len(),
        forall|i: int|
            0 <= i < required.args.len() ==> admits_result(
                type_repr(function->Fixed_0.args@[i]),
                epoch,
                #[trigger] required.args[i],
            ) == Some(true),
        admits_result(required.returns, epoch, type_repr(function->Fixed_0.returns)) != Some(true),
    ensures
        function_fault(required, epoch, Some(function)) == Some(
            "Function '"@ + required.name + "' has an invalid return type: expected "@ + type_text(
                required.returns,
            ) + ", got "@ + type_text(type_repr(function->Fixed_0.returns)),
        ),
{
    let fit = args_fit(type_reprs(function->Fixed_0.args@), required.args, epoch);
    law_first_misfit(fit);
    if let Some(bad) = first_misfit(fit) {
        assert(admits_result(
            type_repr(function->Fixed_0.args@[bad]),
            epoch,
            required.args[bad],
        ) == Some(true));
    }
}

/// A contract has just what is required if the function that is looked up has the required types.
pub proof fn law_has_exactly(required: RequiredView, analysis: ContractAnalysis)
    ensures
        has_exactly(required, analysis) <==> {
            &&& analysis.function(required.name) matches Some(FunctionType::Fixed(fixed))
            &&& fixed.args@.len() == required.args.len()
            &&& forall|i: int|
                0 <= i < required.args.len() ==> type_repr(fixed.args@[i])
                    == #[trigger] required.args[i]
            &&& type_repr(fixed.returns) == required.returns
        },
{
    if let Some(FunctionType::Fixed(fixed)) = analysis.function(required.name) {
        if fixed.args@.len() == required.args.len() && (forall|i: int|
            0 <= i < required.args.len() ==> type_repr(fixed.args@[i])
                == #[trigger] required.args[i]) {
            assert(type_reprs(fixed.args@) =~= required.args);
        }
        if type_reprs(fixed.args@) == required.args {
            assert forall|i: int| 0 <= i < required.args.len() implies type_repr(fixed.args@[i])
                == #[trigger] required.args[i] by {
                assert(type_reprs(fixed.args@)[i] == required.args[i]);
            }
        }
    }
}

/// The type is a tuple with just the two fields of a slot entry.
pub open spec fn is_slot_entry(t: TypeRepr) -> bool {
    &&& t matches TypeRepr::Tuple(fields)
    &&& forall|name: Seq<char>| #[trigger]
        fields.contains_key(name) <==> name == "signer"@ || name == "num-slots"@
    &&& fields["signer"@] == TypeRepr::Principal
    &&& fields["num-slots"@] == TypeRepr::UInt
}

/// The type is a tuple with just the three fields of a replica.
pub open spec fn is_replica(t: TypeRepr) -> bool {
    &&& t matches TypeRepr::Tuple(fields)
    &&& forall|name: Seq<char>| #[trigger]
        fields.contains_key(name) <==> name == "addr"@ || name == "port"@ || name
            == "public-key-hash"@
    &&& fields["addr"@] == TypeRepr::List(16, Box::new(TypeRepr::UInt))
    &&& fields["port"@] == TypeRepr::UInt
    &&& fields["public-key-hash"@] == TypeRepr::Buffer(20)
}

/// The type is a tuple with just the five fields of the control metadata.
pub open spec fn is_config(t: TypeRepr) -> bool {
    &&& t matches TypeRepr::Tuple(fields)
    &&& forall|name: Seq<char>| #[trigger]
        fields.contains_key(name) <==> name == "chunk-size"@ || name == "write-freq"@ || name
            == "max-writes"@ || name == "max-neighbors"@ || name == "hint-replicas"@
    &&& fields["chunk-size"@] == TypeRepr::UInt
    &&& fields["write-freq"@] == TypeRepr::UInt
    &&& fields["max-writes"@] == TypeRepr::UInt
    &&& fields["max-neighbors"@] == TypeRepr::UInt
    &&& fields["hint-replicas"@] matches TypeRepr::List(128, replica)
    &&& is_replica(*replica)
}

/// Three functions are required: one without arguments that gives the number of pages, one of a
/// number that gives at most 4096 entries, and one without arguments that gives the control
/// metadata.
pub proof fn law_required_functions()
    ensures
        required_list().len() == 3,
        ({
            let count = required_list()[0];
            &&& count.name == "stackerdb-get-page-count"@
            &&& count.args.len() == 0
            &&& count.returns == TypeRepr::Response(
                Box::new(TypeRepr::UInt),
                Box::new(TypeRepr::Bool),
            )
        }),
        ({
            let slots = required_list()[1];
            &&& slots.name == "stackerdb-get-signer-slots"@
            &&& slots.args.len() == 1
            &&& slots.args[0] == TypeRepr::UInt
            &&& slots.returns matches TypeRepr::Response(ok, err)
            &&& *err == TypeRepr::UInt
            &&& *ok matches TypeRepr::List(4096, entry)
            &&& is_slot_entry(*entry)
        }),
        ({
            let config = required_list()[2];
            &&& config.name == "stackerdb-get-config"@
            &&& config.args.len() == 0
            &&& config.returns matches TypeRepr::Response(ok, err)
            &&& *err == TypeRepr::UInt
            &&& is_config(*ok)
        }),
{
    reveal_strlit("signer");
    reveal_strlit("num-slots");
    reveal_strlit("addr");
    reveal_strlit("port");
    reveal_strlit("public-key-hash");
    reveal_strlit("chunk-size");
    reveal_strlit("write-freq");
    reveal_strlit("max-writes");
    reveal_strlit("max-neighbors");
    reveal_strlit("hint-replicas");
    assert("signer"@.len() == 6 && "num-slots"@.len() == 9);
    assert("addr"@[0] == 'a' && "port"@[0] == 'p' && "port"@.len() == 4
        && "public-key-hash"@.len() == 15);
    assert("chunk-size"@[0] == 'c' && "write-freq"@[0] == 'w' && "max-writes"@.len() == 10
        && "max-neighbors"@.len() == 13);
    assert("max-writes"@[0] == 'm' && "max-neighbors"@[0] == 'm' && "hint-replicas"@[0] == 'h');
    assert(is_slot_entry(slot_entry_repr()));
    assert(is_replica(replica_repr()));
    assert(is_config(config_repr()));
}

} // verus!
