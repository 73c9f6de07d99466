//! The functions that a StackerDB contract must have.

use crate::names::NameMap;
use crate::signature::{
    admits_result, admits_type, bool_type, buffer_type, clarity_name, clarity_name_text,
    field_reprs, fields_signature_size, fields_value_size, list_type, max_type_depth, plain_name,
    principal_type, print_type, response_type, shallow, signature_size, tuple_type, type_repr,
    type_reprs, type_text, uint_type, value_size, StacksEpochId, TypeRepr,
};
use crate::text::{decimal, decimal_text};
use crate::types::{
    StackerDBConfig, MAX_HINT_REPLICAS, STACKERDB_CONFIG_FUNCTION, STACKERDB_PAGE_COUNT_FUNCTION,
    STACKERDB_PAGE_MAX, STACKERDB_SLOTS_FUNCTION,
};
use clarity::vm::types::TypeSignature;
use clarity::vm::ClarityName;
use vstd::prelude::*;
use vstd::string::*;

verus! {

/// The type of a function.
#[derive(Debug)]
pub enum FunctionType {
    /// A function of a fixed number of arguments.
    Fixed(FixedFunction),
    /// A function of any other kind.
    Other,
}

/// The types of the arguments and of the result of a function.
#[derive(Debug)]
pub struct FixedFunction {
    pub args: Vec<TypeSignature>,
    pub returns: TypeSignature,
}

/// The functions of a contract that can be called from outside.
#[derive(Debug)]
pub struct ContractAnalysis {
    pub read_only_function_types: NameMap<FunctionType>,
    pub public_function_types: NameMap<FunctionType>,
}

impl ContractAnalysis {
    /// The function `name`: the read-only one, if there is one.
    pub open spec fn function(&self, name: Seq<char>) -> Option<FunctionType> {
        if self.read_only_function_types@.contains_key(name) {
            Some(self.read_only_function_types@[name])
        } else if self.public_function_types@.contains_key(name) {
            Some(self.public_function_types@[name])
        } else {
            None
        }
    }

    /// Finds the function `name`.
    fn find_function(&self, name: &str) -> (function: Option<&FunctionType>)
        ensures
            match function {
                Some(f) => self.function(name@) == Some(*f),
                None => self.function(name@) is None,
            },
    {
        match self.read_only_function_types.get(name) {
            Some(function) => Some(function),
            None => self.public_function_types.get(name),
        }
    }
}

/// What is required of one function.
#[verifier::ext_equal]
pub struct RequiredView {
    pub name: Seq<char>,
    pub args: Seq<TypeRepr>,
    pub returns: TypeRepr,
}

/// `(response uint bool)`
pub open spec fn page_count_returns() -> TypeRepr {
    TypeRepr::Response(Box::new(TypeRepr::UInt), Box::new(TypeRepr::Bool))
}

/// `{ signer: principal, num-slots: uint }`
pub open spec fn slot_entry_repr() -> TypeRepr {
    TypeRepr::Tuple(
        Map::empty().insert("signer"@, TypeRepr::Principal).insert("num-slots"@, TypeRepr::UInt),
    )
}

/// `(response (list 4096 { signer: principal, num-slots: uint }) uint)`
pub open spec fn slots_returns() -> TypeRepr {
    TypeRepr::Response(
        Box::new(TypeRepr::List(STACKERDB_PAGE_MAX, Box::new(slot_entry_repr()))),
        Box::new(TypeRepr::UInt),
    )
}

/// `{ addr: (list 16 uint), port: uint, public-key-hash: (buff 20) }`
pub open spec fn replica_repr() -> TypeRepr {
    TypeRepr::Tuple(
        Map::empty().insert("addr"@, TypeRepr::List(16, Box::new(TypeRepr::UInt))).insert(
            "port"@,
            TypeRepr::UInt,
        ).insert("public-key-hash"@, TypeRepr::Buffer(20)),
    )
}

/// The tuple of the control metadata.
pub open spec fn config_repr() -> TypeRepr {
    TypeRepr::Tuple(
        Map::empty().insert("chunk-size"@, TypeRepr::UInt).insert(
            "write-freq"@,
            TypeRepr::UInt,
        ).insert("max-writes"@, TypeRepr::UInt).insert("max-neighbors"@, TypeRepr::UInt).insert(
            "hint-replicas"@,
            TypeRepr::List(MAX_HINT_REPLICAS, Box::new(replica_repr())),
        ),
    )
}

/// What is required of every StackerDB contract.
pub open spec fn required_list() -> Seq<RequiredView> {
    seq![
        RequiredView {
            name: STACKERDB_PAGE_COUNT_FUNCTION@,
            args: seq![],
            returns: page_count_returns(),
        },
        RequiredView {
            name: STACKERDB_SLOTS_FUNCTION@,
            args: seq![TypeRepr::UInt],
            returns: slots_returns(),
        },
        RequiredView {
            name: STACKERDB_CONFIG_FUNCTION@,
            args: seq![],
            returns: TypeRepr::Response(Box::new(config_repr()), Box::new(TypeRepr::UInt)),
        },
    ]
}

/// A value of the type `admitted` may stand where one of the type `admitting` is expected.
pub open spec fn admits(admitting: TypeRepr, epoch: StacksEpochId, admitted: TypeRepr) -> bool {
    admits_result(admitting, epoch, admitted) == Some(true)
}

/// Which of the types of a function does not fit.
#[derive(Debug, Clone, Copy, PartialEq, Eq)]
pub enum TypeFault {
    /// That of the argument with this index.
    Argument(usize),
    /// That of the result.
    Returns,
}

/// The first of the arguments that does not fit, if there is one.
pub open spec fn first_misfit(args_fit: Seq<bool>) -> Option<int>
    decreases args_fit.len(),
{
    if args_fit.len() == 0 {
        None
    } else {
        match first_misfit(args_fit.drop_last()) {
            Some(i) => Some(i),
            None => if args_fit.last() {
                None
            } else {
                Some(args_fit.len() - 1)
            },
        }
    }
}

/// For each argument, whether it admits what it must.
pub open spec fn args_fit(actual: Seq<TypeRepr>, expected: Seq<TypeRepr>, epoch: StacksEpochId) -> Seq<
    bool,
> {
    Seq::new(expected.len(), |i: int| admits(actual[i], epoch, expected[i]))
}

/// What is wrong with a function, if anything.
pub open spec fn function_fault(
    required: RequiredView,
    epoch: StacksEpochId,
    function: Option<FunctionType>,
) -> Option<Seq<char>> {
    match function {
        None => Some("Contract is missing function '"@ + required.name + "'"@),
        Some(FunctionType::Other) => Some(
            "Function '"@ + required.name + "' must be a fixed function"@,
        ),
        Some(FunctionType::Fixed(fixed)) => if fixed.args@.len() != required.args.len() {
            Some(
                "Function '"@ + required.name + "' has an invalid signature: it must have "@
                    + decimal_text(required.args.len()) + " args"@,
            )
        } else {
            match first_misfit(args_fit(type_reprs(fixed.args@), required.args, epoch)) {
                Some(i) => Some(
                    "Function '"@ + required.name + "' has an invalid argument type: expected "@
                        + type_text(required.args[i]) + ", got "@ + type_text(
                        type_repr(fixed.args@[i]),
                    ),
                ),
                None => if admits(required.returns, epoch, type_repr(fixed.returns)) {
                    None
                } else {
                    Some(
                        "Function '"@ + required.name + "' has an invalid return type: expected "@
                            + type_text(required.returns) + ", got "@ + type_text(
                            type_repr(fixed.returns),
                        ),
                    )
                },
            }
        },
    }
}

/// What is wrong with a contract, if anything: the fault of the first function that has one.
pub open spec fn contract_fault(
    required: Seq<RequiredView>,
    epoch: StacksEpochId,
    analysis: ContractAnalysis,
) -> Option<Seq<char>>
    decreases required.len(),
{
    if required.len() == 0 {
        None
    } else {
        match contract_fault(required.drop_last(), epoch, analysis) {
            Some(fault) => Some(fault),
            None => function_fault(
                required.last(),
                epoch,
                analysis.function(required.last().name),
            ),
        }
    }
}

/// The contract has the required function, with just the types that are required.
pub open spec fn has_exactly(required: RequiredView, analysis: ContractAnalysis) -> bool {
    &&& analysis.function(required.name) matches Some(FunctionType::Fixed(fixed))
    &&& type_reprs(fixed.args@) == required.args
    &&& type_repr(fixed.returns) == required.returns
}

/// The types of a required function are of the kinds that are told apart, and not nested too
/// deep.
spec fn is_shallow(required: RequiredView) -> bool {
    &&& forall|i: int|
        0 <= i < required.args.len() ==> shallow(#[trigger] required.args[i], max_type_depth())
    &&& shallow(required.returns, max_type_depth())
}

/// So are the types of the functions that are required of every StackerDB contract.
proof fn lemma_required_are_shallow()
    ensures
        forall|k: int|
            0 <= k < required_list().len() ==> is_shallow(#[trigger] required_list()[k]),
{
    reveal_with_fuel(shallow, 6);
}

/// One required function.
struct RequiredFunction {
    name: &'static str,
    args: Vec<TypeSignature>,
    returns: TypeSignature,
}

impl View for RequiredFunction {
    type V = RequiredView;

    closed spec fn view(&self) -> RequiredView {
        RequiredView {
            name: self.name@,
            args: type_reprs(self.args@),
            returns: type_repr(self.returns),
        }
    }
}

/// The functions that every StackerDB contract must have, with the types as the virtual machine
/// has them.
pub struct RequiredFunctions {
    functions: Vec<RequiredFunction>,
}

impl View for RequiredFunctions {
    type V = Seq<RequiredView>;

    closed spec fn view(&self) -> Seq<RequiredView> {
        required_views(self.functions@)
    }
}

impl RequiredFunctions {
    #[verifier::type_invariant]
    spec fn complete(self) -> bool {
        self@ == required_list()
    }
}

spec fn required_views(functions: Seq<RequiredFunction>) -> Seq<RequiredView> {
    functions.map_values(|f: RequiredFunction| f@)
}

/// The names of the fields are names to the virtual machine.
proof fn lemma_field_names()
    ensures
        plain_name("signer"@),
        plain_name("num-slots"@),
        plain_name("addr"@),
        plain_name("port"@),
        plain_name("public-key-hash"@),
        plain_name("chunk-size"@),
        plain_name("write-freq"@),
        plain_name("max-writes"@),
        plain_name("max-neighbors"@),
        plain_name("hint-replicas"@),
{
    reveal_strlit("signer");
    reveal_strlit("num-slots");
    reveal_strlit("addr");
    reveal_strlit("port");
    reveal_strlit("public-key-hash");
    reveal_strlit("chunk-size");
    reveal_strlit("write-freq");
    reveal_strlit("max-writes");
    reveal_strlit("max-neighbors");
    reveal_strlit("hint-replicas");
}

/// A field of a tuple type.
fn field(name: &str, t: TypeSignature) -> (f: (ClarityName, TypeSignature))
    requires
        plain_name(name@),
    ensures
        clarity_name_text(f.0) == name@,
        f.1 == t,
{
    (clarity_name(name).ok().unwrap(), t)
}

/// `(response uint bool)`
fn page_count_type() -> (t: TypeSignature)
    ensures
        type_repr(t) == page_count_returns(),
{
    response_type(uint_type(), bool_type()).ok().unwrap()
}

/// `(response (list 4096 { signer: principal, num-slots: uint }) uint)`
fn slots_type() -> (t: TypeSignature)
    ensures
        type_repr(t) == slots_returns(),
{
    proof {
        lemma_field_names();
        reveal_strlit("signer");
        reveal_strlit("num-slots");
        reveal_with_fuel(shallow, 4);
        reveal_with_fuel(field_reprs, 3);
        reveal_with_fuel(fields_value_size, 3);
        reveal_with_fuel(fields_signature_size, 3);
    }
    let mut fields: Vec<(ClarityName, TypeSignature)> = Vec::new();
    fields.push(field("signer", principal_type()));
    fields.push(field("num-slots", uint_type()));
    assert(fields@.drop_last().drop_last() =~= Seq::empty());
    let entry = tuple_type(fields).ok().unwrap();
    let list = list_type(entry, STACKERDB_PAGE_MAX).ok().unwrap();
    response_type(list, uint_type()).ok().unwrap()
}

/// `{ addr: (list 16 uint), port: uint, public-key-hash: (buff 20) }`
fn replica_type() -> (t: TypeSignature)
    ensures
        type_repr(t) == replica_repr(),
        value_size(type_repr(t)) == 372,
        signature_size(type_repr(t)) == 41,
{
    proof {
        lemma_field_names();
        reveal_strlit("addr");
        reveal_strlit("port");
        reveal_strlit("public-key-hash");
        reveal_with_fuel(shallow, 4);
        reveal_with_fuel(field_reprs, 4);
        reveal_with_fuel(fields_value_size, 4);
        reveal_with_fuel(fields_signature_size, 4);
    }
    let addr = list_type(uint_type(), 16).ok().unwrap();
    let hash = buffer_type(20).ok().unwrap();
    let mut fields: Vec<(ClarityName, TypeSignature)> = Vec::new();
    fields.push(field("addr", addr));
    fields.push(field("port", uint_type()));
    fields.push(field("public-key-hash", hash));
    assert(fields@.drop_last().drop_last().drop_last() =~= Seq::empty());
    tuple_type(fields).ok().unwrap()
}

/// The response with the tuple of the control metadata.
fn config_type() -> (t: TypeSignature)
    ensures
        type_repr(t) == TypeRepr::Response(Box::new(config_repr()), Box::new(TypeRepr::UInt)),
{
    proof {
        lemma_field_names();
        reveal_strlit("chunk-size");
        reveal_strlit("write-freq");
        reveal_strlit("max-writes");
        reveal_strlit("max-neighbors");
        reveal_strlit("hint-replicas");
        reveal_with_fuel(shallow, 6);
        reveal_with_fuel(field_reprs, 6);
        reveal_with_fuel(fields_value_size, 6);
        reveal_with_fuel(fields_signature_size, 6);
    }
    let replicas = list_type(replica_type(), MAX_HINT_REPLICAS).ok().unwrap();
    let mut fields: Vec<(ClarityName, TypeSignature)> = Vec::new();
    fields.push(field("chunk-size", uint_type()));
    fields.push(field("write-freq", uint_type()));
    fields.push(field("max-writes", uint_type()));
    fields.push(field("max-neighbors", uint_type()));
    fields.push(field("hint-replicas", replicas));
    assert(fields@.drop_last().drop_last().drop_last().drop_last().drop_last() =~= Seq::empty());
    let config = tuple_type(fields).ok().unwrap();
    response_type(config, uint_type()).ok().unwrap()
}

impl RequiredFunctions {
    /// Has the virtual machine build the required types.
    pub fn new() -> (required: RequiredFunctions)
        ensures
            required@ == required_list(),
    {
        let page_count = RequiredFunction {
            name: STACKERDB_PAGE_COUNT_FUNCTION,
            args: Vec::new(),
            returns: page_count_type(),
        };
        let mut slots_args: Vec<TypeSignature> = Vec::new();
        slots_args.push(uint_type());
        let slots = RequiredFunction {
            name: STACKERDB_SLOTS_FUNCTION,
            args: slots_args,
            returns: slots_type(),
        };
        let config = RequiredFunction {
            name: STACKERDB_CONFIG_FUNCTION,
            args: Vec::new(),
            returns: config_type(),
        };
        let mut functions: Vec<RequiredFunction> = Vec::new();
        functions.push(page_count);
        functions.push(slots);
        functions.push(config);
        proof {
            assert(type_reprs(page_count.args@) =~= seq![]);
            assert(type_reprs(slots.args@) =~= seq![TypeRepr::UInt]);
            assert(type_reprs(config.args@) =~= seq![]);
            assert(required_views(functions@) =~= required_list());
        }
        RequiredFunctions { functions }
    }
}

/// Writes a sentence that begins with the name of a function.
fn write_fault(name: &str, rest: &str) -> (fault: String)
    ensures
        fault@ == "Function '"@ + name@ + rest@,
{
    let mut fault = String::from_str("Function '");
    fault.append(name);
    fault.append(rest);
    fault
}

/// Writes a sentence on a type other than the expected one.
fn write_type_fault(
    name: &str,
    what: &str,
    expected: &TypeSignature,
    actual: &TypeSignature,
) -> (fault: String)
    ensures
        fault@ == "Function '"@ + name@ + what@ + type_text(type_repr(*expected)) + ", got "@
            + type_text(type_repr(*actual)),
{
    let mut fault = write_fault(name, what);
    fault.append(print_type(expected).as_str());
    fault.append(", got ");
    fault.append(print_type(actual).as_str());
    fault
}

/// Whether a value of the type `admitted` may stand where one of the type `admitting` is
/// expected. Types that cannot be held against one another do not.
fn type_fits(admitting: &TypeSignature, epoch: &StacksEpochId, admitted: &TypeSignature) -> (fits:
    bool)
    ensures
        fits == admits(type_repr(*admitting), *epoch, type_repr(*admitted)),
        *epoch != StacksEpochId::Epoch10 && type_repr(*admitting) == type_repr(*admitted)
            && shallow(type_repr(*admitting), max_type_depth()) ==> fits,
{
    match admits_type(admitting, epoch, admitted) {
        Ok(fits) => fits,
        Err(_) => false,
    }
}

/// Finds what is wrong with one function.
fn find_function_fault(
    required: &RequiredFunction,
    epoch: &StacksEpochId,
    analysis: &ContractAnalysis,
) -> (fault: Option<String>)
    ensures
        match fault {
            Some(text) => function_fault(required@, *epoch, analysis.function(required@.name))
                == Some(text@),
            None => function_fault(required@, *epoch, analysis.function(required@.name)) is None,
        },
        *epoch != StacksEpochId::Epoch10 && is_shallow(required@) && has_exactly(
            required@,
            *analysis,
        ) ==> fault is None,
{
    let func = match analysis.find_function(required.name) {
        None => {
            let mut fault = String::from_str("Contract is missing function '");
            fault.append(required.name);
            fault.append("'");
            return Some(fault);
        },
        Some(FunctionType::Other) => {
            let fault = write_fault(required.name, "' must be a fixed function");
            return Some(fault);
        },
        Some(FunctionType::Fixed(func)) => func,
    };
    if func.args.len() != required.args.len() {
        let mut rest = String::from_str("' has an invalid signature: it must have ");
        rest.append(decimal(required.args.len() as u128).as_str());
        rest.append(" args");
        return Some(write_fault(required.name, rest.as_str()));
    }
    let mut fit: Vec<bool> = Vec::new();
    while fit.len() < required.args.len()
        invariant
            fit@.len() <= required.args@.len(),
            func.args@.len() == required.args@.len(),
            forall|i: int|
                0 <= i < fit@.len() ==> #[trigger] fit@[i] == admits(
                    type_repr(func.args@[i]),
                    *epoch,
                    type_repr(required.args@[i]),
                ),
            *epoch != StacksEpochId::Epoch10 && is_shallow(required@) && type_reprs(func.args@)
                == required@.args ==> forall|i: int| 0 <= i < fit@.len() ==> #[trigger] fit@[i],
        decreases required.args@.len() - fit@.len(),
    {
        let i: usize = fit.len();
        proof {
            assert(required@.args[i as int] == type_repr(required.args@[i as int]));
            assert(type_reprs(func.args@)[i as int] == type_repr(func.args@[i as int]));
        }
        fit.push(type_fits(&func.args[i], epoch, &required.args[i]));
    }
    let returns_fits = type_fits(&required.returns, epoch, &func.returns);
    proof {
        assert(fit@ =~= args_fit(type_reprs(func.args@), required@.args, *epoch));
        law_first_misfit(fit@);
    }
    match first_type_fault(&fit, returns_fits) {
        Some(TypeFault::Argument(i)) => {
            proof {
                assert(required@.args[i as int] == type_repr(required.args@[i as int]));
            }
            Some(
                write_type_fault(
                    required.name,
                    "' has an invalid argument type: expected ",
                    &required.args[i],
                    &func.args[i],
                ),
            )
        },
        Some(TypeFault::Returns) => Some(
            write_type_fault(
                required.name,
                "' has an invalid return type: expected ",
                &required.returns,
                &func.returns,
            ),
        ),
        None => None,
    }
}

/// The first of the types of a function that does not fit, given whether each of its arguments
/// does, and whether its result does. The arguments come before the result.
pub fn first_type_fault(args_fit: &Vec<bool>, returns_fits: bool) -> (fault: Option<TypeFault>)
    ensures
        match fault {
            Some(TypeFault::Argument(i)) => first_misfit(args_fit@) == Some(i as int),
            Some(TypeFault::Returns) => first_misfit(args_fit@) is None && !returns_fits,
            None => first_misfit(args_fit@) is None && returns_fits,
        },
{
    let mut i: usize = 0;
    while i < args_fit.len()
        invariant
            i <= args_fit@.len(),
            forall|j: int| 0 <= j < i ==> #[trigger] args_fit@[j],
        decreases args_fit@.len() - i,
    {
        if !args_fit[i] {
            proof {
                law_first_misfit(args_fit@);
            }
            return Some(TypeFault::Argument(i));
        }
        i = i + 1;
    }
    proof {
        law_first_misfit(args_fit@);
    }
    if returns_fits {
        None
    } else {
        Some(TypeFault::Returns)
    }
}

/// No argument is the first misfit if and only if all fit; the one that is does not fit, and all
/// before it do.
pub proof fn law_first_misfit(args_fit: Seq<bool>)
    ensures
        match first_misfit(args_fit) {
            None => forall|i: int| 0 <= i < args_fit.len() ==> #[trigger] args_fit[i],
            Some(bad) => 0 <= bad < args_fit.len() && !args_fit[bad] && forall|i: int|
                0 <= i < bad ==> #[trigger] args_fit[i],
        },
    decreases args_fit.len(),
{
    if args_fit.len() > 0 {
        let front = args_fit.drop_last();
        law_first_misfit(front);
        assert forall|i: int| 0 <= i < front.len() implies front[i] == #[trigger] args_fit[i] by {}
        assert(args_fit.last() == args_fit[args_fit.len() - 1]);
    }
}

/// A fault among the first functions is the fault of the contract.
proof fn lemma_contract_fault_stays(
    required: Seq<RequiredView>,
    n: int,
    epoch: StacksEpochId,
    analysis: ContractAnalysis,
)
    requires
        0 <= n <= required.len(),
        contract_fault(required.take(n), epoch, analysis) is Some,
    ensures
        contract_fault(required, epoch, analysis) == contract_fault(
            required.take(n),
            epoch,
            analysis,
        ),
    decreases required.len() - n,
{
    if n == required.len() {
        assert(required.take(n) =~= required);
    } else {
        assert(required.take(n + 1).drop_last() =~= required.take(n));
        lemma_contract_fault_stays(required, n + 1, epoch, analysis);
    }
}

impl StackerDBConfig {
    /// Whether a contract has all that a StackerDB contract must have, and if not, why.
    pub fn is_contract_valid(
        required: &RequiredFunctions,
        epoch: &StacksEpochId,
        analysis: &ContractAnalysis,
    ) -> (r: Result<(), String>)
        ensures
            match r {
                Ok(_) => contract_fault(required_list(), *epoch, *analysis) is None,
                Err(fault) => contract_fault(required_list(), *epoch, *analysis) == Some(fault@),
            },
            *epoch != StacksEpochId::Epoch10 && (forall|k: int|
                0 <= k < required_list().len() ==> has_exactly(
                    #[trigger] required_list()[k],
                    *analysis,
                )) ==> r is Ok,
    {
        proof {
            use_type_invariant(required);
            assert(required@.take(0) =~= Seq::empty());
        }
        let mut i: usize = 0;
        while i < required.functions.len()
            invariant
                i <= required.functions@.len(),
                required@ == required_list(),
                contract_fault(required@.take(i as int), *epoch, *analysis) is None,
            decreases required.functions@.len() - i,
        {
            proof {
                assert(required@.take(i + 1).drop_last() =~= required@.take(i as int));
                assert(required@.take(i + 1).last() == required.functions@[i as int]@);
            }
            match find_function_fault(&required.functions[i], epoch, analysis) {
                Some(fault) => {
                    proof {
                        lemma_required_are_shallow();
                        assert(required_list()[i as int] == required.functions@[i as int]@);
                        lemma_contract_fault_stays(required@, i + 1, *epoch, *analysis);
                    }
                    return Err(fault);
                },
                None => {},
            }
            i = i + 1;
        }
        assert(required@.take(i as int) =~= required@);
        Ok(())
    }
}

/// Nothing is wrong with a function if and only if it is there, takes a fixed number of
/// arguments, as many as it must, each of which may stand for what it is given, and returns what
/// may stand for what is expected.
pub proof fn law_function_conforms(
    required: RequiredView,
    epoch: StacksEpochId,
    function: Option<FunctionType>,
)
    ensures
        function_fault(required, epoch, function) is None <==> {
            &&& function matches Some(FunctionType::Fixed(fixed))
            &&& fixed.args@.len() == required.args.len()
            &&& forall|i: int|
                0 <= i < required.args.len() ==> admits(
                    type_repr(fixed.args@[i]),
                    epoch,
                    #[trigger] required.args[i],
                )
            &&& admits(required.returns, epoch, type_repr(fixed.returns))
        },
{
    if let Some(FunctionType::Fixed(fixed)) = function {
        if fixed.args@.len() == required.args.len() {
            let fit = args_fit(type_reprs(fixed.args@), required.args, epoch);
            law_first_misfit(fit);
            if forall|i: int|
                0 <= i < required.args.len() ==> admits(
                    type_repr(fixed.args@[i]),
                    epoch,
                    #[trigger] required.args[i],
                ) {
                assert forall|i: int| 0 <= i < fit.len() implies #[trigger] fit[i] by {
                    assert(admits(type_repr(fixed.args@[i]), epoch, required.args[i]));
                }
            }
            if first_misfit(fit) is None {
                assert forall|i: int| 0 <= i < required.args.len() implies admits(
                    type_repr(fixed.args@[i]),
                    epoch,
                    #[trigger] required.args[i],
                ) by {
                    assert(fit[i]);
                }
            }
        }
    }
}

/// Nothing is wrong with a contract if and only if nothing is wrong with any of the required
/// functions. Otherwise the fault is that of a function before which all are in order.
pub proof fn law_contract_conforms(
    required: Seq<RequiredView>,
    epoch: StacksEpochId,
    analysis: ContractAnalysis,
)
    ensures
        match contract_fault(required, epoch, analysis) {
            None => forall|k: int|
                0 <= k < required.len() ==> function_fault(
                    #[trigger] required[k],
                    epoch,
                    analysis.function(required[k].name),
                ) is None,
            Some(fault) => exists|k: int| #[trigger]
                is_first_fault(required, epoch, analysis, k, fault),
        },
    decreases required.len(),
{
    if required.len() > 0 {
        let front = required.drop_last();
        law_contract_conforms(front, epoch, analysis);
        match contract_fault(front, epoch, analysis) {
            Some(fault) => {
                let k = choose|k: int| #[trigger] is_first_fault(front, epoch, analysis, k, fault);
                assert(front[k] == required[k]);
                assert(is_first_fault(required, epoch, analysis, k, fault)) by {
                    assert forall|j: int| 0 <= j < k implies function_fault(
                        #[trigger] required[j],
                        epoch,
                        analysis.function(required[j].name),
                    ) is None by {
                        assert(front[j] == required[j]);
                    }
                }
            },
            None => {
                assert forall|j: int| 0 <= j < front.len() implies function_fault(
                    #[trigger] required[j],
                    epoch,
                    analysis.function(required[j].name),
                ) is None by {
                    assert(front[j] == required[j]);
                }
                if let Some(fault) = contract_fault(required, epoch, analysis) {
                    assert(is_first_fault(
                        required,
                        epoch,
                        analysis,
                        required.len() - 1,
                        fault,
                    ));
                }
            },
        }
    }
}

/// Function `k` is the first with which something is wrong, and `fault` says what.
pub open spec fn is_first_fault(
    required: Seq<RequiredView>,
    epoch: StacksEpochId,
    analysis: ContractAnalysis,
    k: int,
    fault: Seq<char>,
) -> bool {
    &&& 0 <= k < required.len()
    &&& function_fault(required[k], epoch, analysis.function(required[k].name)) == Some(fault)
    &&& forall|j: int|
        0 <= j < k ==> function_fault(
            #[trigger] required[j],
            epoch,
            analysis.function(required[j].name),
        ) is None
}

/// A contract is judged by the required functions alone: nothing else in it matters, nor whether
/// such a function is read-only or public.
pub proof fn law_only_required_functions_matter(
    required: Seq<RequiredView>,
    epoch: StacksEpochId,
    a: ContractAnalysis,
    b: ContractAnalysis,
)
    requires
        forall|k: int|
            0 <= k < required.len() ==> a.function((#[trigger] required[k]).name) == b.function(
                required[k].name,
            ),
    ensures
        contract_fault(required, epoch, a) == contract_fault(required, epoch, b),
    decreases required.len(),
{
    if required.len() > 0 {
        let front = required.drop_last();
        assert forall|k: int| 0 <= k < front.len() implies a.function(
            (#[trigger] front[k]).name,
        ) == b.function(front[k].name) by {
            assert(front[k] == required[k]);
        }
        law_only_required_functions_matter(front, epoch, a, b);
        assert(required.last() == required[required.len() - 1]);
    }
}

/// A read-only function hides the public function of its name: a contract is judged as if it did
/// not have the latter.
pub proof fn law_read_only_functions_come_first(
    required: Seq<RequiredView>,
    epoch: StacksEpochId,
    a: ContractAnalysis,
    b: ContractAnalysis,
)
    requires
        a.read_only_function_types@ == b.read_only_function_types@,
        b.public_function_types@ == a.public_function_types@.remove_keys(
            a.read_only_function_types@.dom(),
        ),
    ensures
        contract_fault(required, epoch, a) == contract_fault(required, epoch, b),
{
    law_only_required_functions_matter(required, epoch, a, b);
}

} // verus!
