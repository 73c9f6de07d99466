//! Clarity type signatures: the virtual machine's own values, and what they say.

use clarity::vm::analysis::CheckErrors;
use clarity::vm::errors::RuntimeErrorType;
use clarity::vm::types::TypeSignature;
use clarity::vm::ClarityName;
use vstd::prelude::*;

verus! {

/// What a type signature of the virtual machine says.
pub enum TypeRepr {
    UInt,
    Bool,
    Principal,
    /// At most so many bytes.
    Buffer(u32),
    /// At most so many entries, all of one type.
    List(u32, Box<TypeRepr>),
    /// Fields, each of a type of its own.
    Tuple(Map<Seq<char>, TypeRepr>),
    /// The type of the `ok` value, and that of the `err` value.
    Response(Box<TypeRepr>, Box<TypeRepr>),
    /// A type of any other kind. Different types have different numbers.
    Other(nat),
}

/// The type is nested at most `depth` deep, and no `Other` occurs in it.
pub open spec fn shallow(t: TypeRepr, depth: nat) -> bool
    decreases depth,
{
    &&& depth > 0
    &&& match t {
        TypeRepr::UInt | TypeRepr::Bool | TypeRepr::Principal | TypeRepr::Buffer(_) => true,
        TypeRepr::List(_, entry) => shallow(*entry, (depth - 1) as nat),
        TypeRepr::Tuple(fields) => forall|name: Seq<char>| #[trigger]
            fields.contains_key(name) ==> shallow(fields[name], (depth - 1) as nat),
        TypeRepr::Response(ok, err) => shallow(*ok, (depth - 1) as nat) && shallow(
            *err,
            (depth - 1) as nat,
        ),
        TypeRepr::Other(_) => false,
    }
}

/// How deep the virtual machine lets a type be nested.
pub open spec fn max_type_depth() -> nat {
    32
}

/// A span of the chain's history, with rules of its own.
#[derive(Debug, Clone, Copy, PartialEq, Eq, Structural)]
pub enum StacksEpochId {
    Epoch10,
    Epoch20,
    Epoch2_05,
    Epoch21,
    Epoch22,
    Epoch23,
    Epoch24,
    Epoch25,
    Epoch30,
}

/// A type signature.
#[verifier::external_type_specification]
#[verifier::external_body]
pub struct ExTypeSignature(TypeSignature);

/// Why the virtual machine refuses a type.
#[verifier::external_type_specification]
#[verifier::external_body]
pub struct ExCheckErrors(CheckErrors);

/// The name of a field.
#[verifier::external_type_specification]
#[verifier::external_body]
pub struct ExClarityName(ClarityName);

/// Why the virtual machine refuses a name.
#[verifier::external_type_specification]
#[verifier::external_body]
pub struct ExRuntimeErrorType(RuntimeErrorType);

/// What a type signature says. Signatures that say the same are equal.
pub uninterp spec fn type_repr(t: TypeSignature) -> TypeRepr;

/// The characters of a name.
pub uninterp spec fn clarity_name_text(name: ClarityName) -> Seq<char>;

/// What `TypeSignature::admits_type` returns: `None` stands for an error.
pub uninterp spec fn admits_result(
    admitting: TypeRepr,
    epoch: StacksEpochId,
    admitted: TypeRepr,
) -> Option<bool>;

/// What the `Display` of `TypeSignature` prints.
pub uninterp spec fn type_text(t: TypeRepr) -> Seq<char>;

/// The most bytes that a value of a type takes, by the rule of `TypeSignature::size`.
pub uninterp spec fn value_size(t: TypeRepr) -> nat;

/// The bytes that the signature of a type takes, by the rule of `TypeSignature::type_size`.
pub uninterp spec fn signature_size(t: TypeRepr) -> nat;

/// The most bytes that the virtual machine lets a value take.
pub open spec fn max_value_size() -> nat {
    1024 * 1024
}

/// What several type signatures say.
pub open spec fn type_reprs(types: Seq<TypeSignature>) -> Seq<TypeRepr> {
    types.map_values(|t: TypeSignature| type_repr(t))
}

/// What the fields of a tuple type say, if no name occurs twice.
pub open spec fn field_reprs(fields: Seq<(ClarityName, TypeSignature)>) -> Map<
    Seq<char>,
    TypeRepr,
>
    decreases fields.len(),
{
    if fields.len() == 0 {
        Map::empty()
    } else {
        field_reprs(fields.drop_last()).insert(
            clarity_name_text(fields.last().0),
            type_repr(fields.last().1),
        )
    }
}

/// The bytes that the signature of a tuple type with the fields `fields` takes.
pub open spec fn fields_signature_size(fields: Seq<(ClarityName, TypeSignature)>) -> nat
    decreases fields.len(),
{
    if fields.len() == 0 {
        0
    } else {
        fields_signature_size(fields.drop_last()) + 2 + clarity_name_text(fields.last().0).len()
            + signature_size(type_repr(fields.last().1))
    }
}

/// The most bytes that the names and the values of the fields `fields` of a tuple take.
pub open spec fn fields_value_size(fields: Seq<(ClarityName, TypeSignature)>) -> nat
    decreases fields.len(),
{
    if fields.len() == 0 {
        0
    } else {
        fields_value_size(fields.drop_last()) + 2 + clarity_name_text(fields.last().0).len()
            + value_size(type_repr(fields.last().1))
    }
}

/// No two fields have one name.
pub open spec fn distinct_names(fields: Seq<(ClarityName, TypeSignature)>) -> bool {
    forall|i: int, j: int|
        0 <= i < j < fields.len() ==> clarity_name_text((#[trigger] fields[i]).0)
            != clarity_name_text((#[trigger] fields[j]).0)
}

/// The fields make a tuple type: there are some, no two have one name, and a tuple does not take
/// too many bytes.
pub open spec fn makes_tuple(fields: Seq<(ClarityName, TypeSignature)>) -> bool {
    &&& fields.len() > 0
    &&& distinct_names(fields)
    &&& fields_value_size(fields) + fields_signature_size(fields) <= max_value_size()
}

/// The types make a response type: a value of either, with a byte more, does not take too many
/// bytes.
pub open spec fn makes_response(ok: TypeRepr, err: TypeRepr) -> bool {
    &&& 1 + value_size(ok) <= max_value_size()
    &&& 1 + value_size(err) <= max_value_size()
}

/// The text is made of lower-case letters and hyphens, begins with a letter, and is not too long
/// for a name.
pub open spec fn plain_name(text: Seq<char>) -> bool {
    &&& 0 < text.len() <= 128
    &&& text[0] != '-'
    &&& forall|i: int| 0 <= i < text.len() ==> ('a' <= #[trigger] text[i] <= 'z' || text[i] == '-')
}

/// The type `uint`: the variant `TypeSignature::UIntType`. A value takes sixteen bytes, and the
/// signature one.
#[verifier::external_body]
pub(crate) fn uint_type() -> (t: TypeSignature)
    ensures
        type_repr(t) == TypeRepr::UInt,
        value_size(type_repr(t)) == 16,
        signature_size(type_repr(t)) == 1,
{
    TypeSignature::UIntType
}

/// The type `bool`: the variant `TypeSignature::BoolType`. A value takes one byte, and so does the
/// signature.
#[verifier::external_body]
pub(crate) fn bool_type() -> (t: TypeSignature)
    ensures
        type_repr(t) == TypeRepr::Bool,
        value_size(type_repr(t)) == 1,
        signature_size(type_repr(t)) == 1,
{
    TypeSignature::BoolType
}

/// The type `principal`: the variant `TypeSignature::PrincipalType`. A value takes 148 bytes, and
/// the signature one.
#[verifier::external_body]
pub(crate) fn principal_type() -> (t: TypeSignature)
    ensures
        type_repr(t) == TypeRepr::Principal,
        value_size(type_repr(t)) == 148,
        signature_size(type_repr(t)) == 1,
{
    TypeSignature::PrincipalType
}

/// The type of buffers of at most `len` bytes.
///
/// Calls `clarity::vm::types::BufferLength::try_from`, which refuses exactly the lengths above
/// the bytes that a value may take. A value takes four bytes more than its length, and the
/// signature five.
#[verifier::external_body]
pub(crate) fn buffer_type(len: u32) -> (r: Result<TypeSignature, CheckErrors>)
    ensures
        r is Ok <==> len <= max_value_size(),
        r matches Ok(t) ==> {
            &&& type_repr(t) == TypeRepr::Buffer(len)
            &&& value_size(type_repr(t)) == 4 + len
            &&& signature_size(type_repr(t)) == 5
        },
{
    clarity::vm::types::BufferLength::try_from(len).map(
        |len| TypeSignature::SequenceType(clarity::vm::types::SequenceSubtype::BufferType(len)),
    )
}

/// The type of lists of at most `max_len` entries.
///
/// Calls `clarity::vm::types::ListTypeData::new_list`. A list takes the bytes of its entries and
/// those of its signature, which are five more than those of the signature of an entry. Of types
/// that are not too deep it refuses exactly those whose values could take too many bytes.
#[verifier::external_body]
pub(crate) fn list_type(entry: TypeSignature, max_len: u32) -> (r: Result<
    TypeSignature,
    CheckErrors,
>)
    requires
        max_len > 0,
        shallow(type_repr(entry), (max_type_depth() - 1) as nat),
    ensures
        r is Ok <==> max_len * value_size(type_repr(entry)) + signature_size(type_repr(entry)) + 5
            <= max_value_size(),
        r matches Ok(t) ==> {
            &&& type_repr(t) == TypeRepr::List(max_len, Box::new(type_repr(entry)))
            &&& value_size(type_repr(t)) == max_len * value_size(type_repr(entry)) + signature_size(
                type_repr(entry),
            ) + 5
            &&& signature_size(type_repr(t)) == signature_size(type_repr(entry)) + 5
        },
{
    clarity::vm::types::ListTypeData::new_list(entry, max_len).map(TypeSignature::from)
}

/// A name, for a field.
///
/// Calls `clarity::vm::ClarityName::try_from`, which keeps the text, and accepts lower-case
/// letters and hyphens after a first letter. What other texts it accepts is left unsaid.
#[verifier::external_body]
pub(crate) fn clarity_name(text: &str) -> (r: Result<ClarityName, RuntimeErrorType>)
    ensures
        plain_name(text@) ==> r is Ok,
        r matches Ok(name) ==> clarity_name_text(name) == text@,
{
    ClarityName::try_from(text.to_string())
}

/// The type of tuples with the fields `fields`.
///
/// Calls `clarity::vm::types::TupleTypeSignature::try_from`. A tuple takes the bytes of its fields
/// and those of its signature. Of types that are not too deep it refuses exactly no fields at
/// all, fields two of which have one name, and fields whose tuples could take too many bytes.
#[verifier::external_body]
pub(crate) fn tuple_type(fields: Vec<(ClarityName, TypeSignature)>) -> (r: Result<
    TypeSignature,
    CheckErrors,
>)
    requires
        forall|i: int|
            0 <= i < fields@.len() ==> plain_name(clarity_name_text((#[trigger] fields@[i]).0))
                && shallow(type_repr(fields@[i].1), (max_type_depth() - 1) as nat),
    ensures
        r is Ok <==> makes_tuple(fields@),
        r matches Ok(t) ==> {
            &&& type_repr(t) == TypeRepr::Tuple(field_reprs(fields@))
            &&& value_size(type_repr(t)) == fields_value_size(fields@) + fields_signature_size(
                fields@,
            )
            &&& signature_size(type_repr(t)) == fields_signature_size(fields@)
        },
{
    clarity::vm::types::TupleTypeSignature::try_from(fields).map(TypeSignature::from)
}

/// The type of responses with an `ok` value of the type `ok` and an `err` value of the type
/// `err`.
///
/// Calls `TypeSignature::new_response`. A response takes a byte and those of the larger of the two
/// values. Of types that are not too deep it refuses exactly those whose values could take too
/// many bytes.
#[verifier::external_body]
pub(crate) fn response_type(ok: TypeSignature, err: TypeSignature) -> (r: Result<
    TypeSignature,
    CheckErrors,
>)
    requires
        shallow(type_repr(ok), (max_type_depth() - 1) as nat),
        shallow(type_repr(err), (max_type_depth() - 1) as nat),
    ensures
        r is Ok <==> makes_response(type_repr(ok), type_repr(err)),
        r matches Ok(t) ==> type_repr(t) == TypeRepr::Response(
            Box::new(type_repr(ok)),
            Box::new(type_repr(err)),
        ),
{
    TypeSignature::new_response(ok, err)
}

/// Whether a value of the type `admitted` may stand where one of the type `admitting` is
/// expected, by the rules of the epoch.
///
/// Calls `TypeSignature::admits_type`. Its result is a function of what the two types say and of
/// the epoch, and is named here. Of the name it is only said that, in all epochs but the first,
/// a type of the kinds that `TypeRepr` tells apart admits itself.
#[verifier::external_body]
pub(crate) fn admits_type(
    admitting: &TypeSignature,
    epoch: &StacksEpochId,
    admitted: &TypeSignature,
) -> (r: Result<bool, CheckErrors>)
    ensures
        admits_result(type_repr(*admitting), *epoch, type_repr(*admitted)) == (match r {
            Ok(b) => Some(b),
            Err(_) => None,
        }),
        *epoch != StacksEpochId::Epoch10 && type_repr(*admitting) == type_repr(*admitted)
            && shallow(type_repr(*admitting), max_type_depth()) ==> r is Ok && r->Ok_0,
{
    let epoch = match epoch {
        StacksEpochId::Epoch10 => stacks_common::types::StacksEpochId::Epoch10,
        StacksEpochId::Epoch20 => stacks_common::types::StacksEpochId::Epoch20,
        StacksEpochId::Epoch2_05 => stacks_common::types::StacksEpochId::Epoch2_05,
        StacksEpochId::Epoch21 => stacks_common::types::StacksEpochId::Epoch21,
        StacksEpochId::Epoch22 => stacks_common::types::StacksEpochId::Epoch22,
        StacksEpochId::Epoch23 => stacks_common::types::StacksEpochId::Epoch23,
        StacksEpochId::Epoch24 => stacks_common::types::StacksEpochId::Epoch24,
        StacksEpochId::Epoch25 => stacks_common::types::StacksEpochId::Epoch25,
        StacksEpochId::Epoch30 => stacks_common::types::StacksEpochId::Epoch30,
    };
    admitting.admits_type(&epoch, admitted)
}

/// Prints a type signature.
///
/// Calls `to_string` through the `Display` of `TypeSignature`. The text is a function of what
/// the type says, and is only named here.
#[verifier::external_body]
pub(crate) fn print_type(t: &TypeSignature) -> (text: String)
    ensures
        text@ == type_text(type_repr(*t)),
{
    t.to_string()
}

} // verus!
