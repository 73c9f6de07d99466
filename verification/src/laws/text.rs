//! Texts, identifiers, and what is said of values.

use crate::text::{big_endian, decimal_text, digit_char, hex_text};
use crate::types::{
    address_of, address_text, contract_reason, function_reason, neighbor_views, ErrorView,
    NeighborAddress, NetError, QualifiedContractIdentifier, StackerDBConfig, StandardPrincipalData,
};
use crate::value::{scalar_text, uint_in};
use vstd::arithmetic::power::pow;
use vstd::prelude::*;

verus! {

/// The value of a digit, decimal or hexadecimal.
pub open spec fn digit_value(c: char) -> int {
    if '0' <= c <= '9' {
        c as int - '0' as int
    } else {
        c as int - 'a' as int + 10
    }
}

/// The number that decimal digits write.
pub open spec fn read_decimal(text: Seq<char>) -> int
    decreases text.len(),
{
    if text.len() == 0 {
        0
    } else {
        10 * read_decimal(text.drop_last()) + digit_value(text.last())
    }
}

proof fn lemma_digit(d: nat)
    requires
        d < 16,
    ensures
        digit_value(digit_char(d)) == d,
        d < 10 ==> '0' <= digit_char(d) <= '9',
        d >= 10 ==> 'a' <= digit_char(d) <= 'f',
        digit_char(d) == '0' ==> d == 0,
{
    reveal_strlit("0123456789abcdef");
}

/// A number in decimal is made of decimal digits, reads back as the number, and begins with a
/// zero only if it is zero, and then is that digit alone.
pub proof fn law_decimal_reads_back(n: nat)
    ensures
        read_decimal(decimal_text(n)) == n,
        forall|i: int|
            0 <= i < decimal_text(n).len() ==> '0' <= #[trigger] decimal_text(n)[i] <= '9',
        decimal_text(n).len() > 0,
        decimal_text(n)[0] == '0' ==> n == 0 && decimal_text(n).len() == 1,
    decreases n,
{
    reveal_with_fuel(read_decimal, 2);
    if n < 10 {
        lemma_digit(n);
        assert(decimal_text(n).drop_last() =~= Seq::empty());
    } else {
        law_decimal_reads_back(n / 10);
        lemma_digit(n % 10);
        assert(decimal_text(n).drop_last() =~= decimal_text(n / 10));
        assert(decimal_text(n)[0] == decimal_text(n / 10)[0]);
    }
}

/// Bytes in hexadecimal have two lower-case digits for each byte, which read back as the byte,
/// the high digit first.
pub proof fn law_hex_reads_back(bytes: Seq<u8>)
    ensures
        hex_text(bytes).len() == 2 * bytes.len(),
        forall|i: int|
            0 <= i < bytes.len() ==> #[trigger] bytes[i] == 16 * digit_value(hex_text(bytes)[2 * i])
                + digit_value(hex_text(bytes)[2 * i + 1]),
        forall|i: int|
            0 <= i < hex_text(bytes).len() ==> ('0' <= #[trigger] hex_text(bytes)[i] <= '9' || 'a'
                <= hex_text(bytes)[i] <= 'f'),
{
    let text = hex_text(bytes);
    assert forall|i: int| 0 <= i < bytes.len() implies #[trigger] bytes[i] == 16 * digit_value(
        text[2 * i],
    ) + digit_value(text[2 * i + 1]) by {
        lemma_digit((bytes[i] / 16) as nat);
        lemma_digit((bytes[i] % 16) as nat);
        assert((2 * i) / 2 == i && (2 * i + 1) / 2 == i);
    }
    assert forall|i: int| 0 <= i < text.len() implies ('0' <= #[trigger] text[i] <= '9' || 'a'
        <= text[i] <= 'f') by {
        lemma_digit((bytes[i / 2] / 16) as nat);
        lemma_digit((bytes[i / 2] % 16) as nat);
    }
}

/// The high bytes count for as much as there are bytes behind them, and all bytes together write
/// less than one more place would.
pub proof fn law_big_endian_counts_places(high: Seq<u8>, low: Seq<u8>)
    ensures
        big_endian(high + low) == big_endian(high) * pow(256, low.len()) + big_endian(low),
        big_endian(low) < pow(256, low.len()),
        low.len() == 1 ==> big_endian(low) == low[0],
    decreases low.len(),
{
    vstd::arithmetic::power::lemma_pow0(256);
    reveal_with_fuel(big_endian, 2);
    if low.len() == 0 {
        assert(high + low =~= high);
    } else {
        let front = low.drop_last();
        law_big_endian_counts_places(high, front);
        assert((high + low).drop_last() =~= high + front);
        assert(pow(256, low.len()) == 256 * pow(256, front.len())) by {
            reveal(pow);
        }
        let (a, b) = (big_endian(high) as int, pow(256, front.len()));
        assert(256 * (a * b) == a * (256 * b)) by (nonlinear_arith);
    }
}

/// An unsigned integer is read from the prefix 1 and the sixteen bytes behind it, in full and
/// whatever follows them; from another prefix, or fewer bytes, none is.
pub proof fn law_uint_is_its_bytes(bytes: Seq<u8>, rest: Seq<u8>)
    requires
        bytes.len() == 16,
    ensures
        uint_in(seq![1u8] + bytes + rest) matches Some(n) && n == big_endian(bytes),
        forall|other: Seq<u8>|
            other.len() < 17 || other[0] != 1 ==> #[trigger] uint_in(other) is None,
{
    let all = seq![1u8] + bytes + rest;
    assert(all.subrange(1, 17) =~= bytes);
    law_big_endian_counts_places(Seq::empty(), bytes);
    assert(pow(256, 16) == 0x1_0000_0000_0000_0000_0000_0000_0000_0000int) by {
        reveal(pow);
        reveal_with_fuel(pow, 17);
    }
}

/// The text of an unsigned integer is `u` and its decimal digits.
pub proof fn law_uint_text(bytes: Seq<u8>, n: u128)
    requires
        uint_in(bytes) == Some(n),
    ensures
        scalar_text(bytes) matches Some(text) && text.len() > 0 && text[0] == 'u' && read_decimal(
            text.skip(1),
        ) == n,
{
    reveal_strlit("u");
    law_decimal_reads_back(n as nat);
    assert(scalar_text(bytes)->Some_0.skip(1) =~= decimal_text(n as nat));
}

/// The text of a boolean, which is its prefix alone, is `true` or `false`, whatever follows it; of
/// bytes that begin with neither a boolean nor an unsigned integer none is said.
pub proof fn law_bool_text(rest: Seq<u8>, bytes: Seq<u8>)
    ensures
        scalar_text(seq![3u8] + rest) == Some("true"@),
        scalar_text(seq![4u8] + rest) == Some("false"@),
        bytes.len() == 0 || !(bytes[0] == 1 || bytes[0] == 3 || bytes[0] == 4) ==> scalar_text(
            bytes,
        ) is None,
{
}

/// The identifier of a contract is written as the address of its issuer, a dot, and its name.
pub proof fn law_identifier_text(id: QualifiedContractIdentifier)
    ensures
        ({
            let text = id.spec_text();
            let address = address_text(id.issuer.0, id.issuer.1@);
            &&& text.len() == address.len() + 1 + id.name@.len()
            &&& text.take(address.len() as int) == address
            &&& text[address.len() as int] == '.'
            &&& text.skip(address.len() as int + 1) == id.name@
        }),
{
    reveal_strlit(".");
    let text = id.spec_text();
    let address = address_text(id.issuer.0, id.issuer.1@);
    assert(text.take(address.len() as int) =~= address);
    assert(text.skip(address.len() as int + 1) =~= id.name@);
}

/// A sentence on a contract has the identifier between its head and its tail.
pub proof fn law_contract_reason(
    head: Seq<char>,
    id: QualifiedContractIdentifier,
    tail: Seq<char>,
)
    ensures
        ({
            let text = contract_reason(head, id, tail);
            let name = id.spec_text();
            &&& text.len() == head.len() + name.len() + tail.len()
            &&& text.take(head.len() as int) == head
            &&& text.subrange(head.len() as int, (head.len() + name.len()) as int) == name
            &&& text.skip((head.len() + name.len()) as int) == tail
        }),
{
    let text = contract_reason(head, id, tail);
    let name = id.spec_text();
    assert(text.take(head.len() as int) =~= head);
    assert(text.subrange(head.len() as int, (head.len() + name.len()) as int) =~= name);
    assert(text.skip((head.len() + name.len()) as int) =~= tail);
}

/// A sentence on a function of a contract names the function, with its contract, in backquotes.
pub proof fn law_function_reason(
    id: QualifiedContractIdentifier,
    function: Seq<char>,
    tail: Seq<char>,
)
    ensures
        ({
            let head = "StackerDB fn `"@ + id.spec_text() + "."@ + function + "` "@;
            let text = function_reason(id, function, tail);
            &&& text.len() == head.len() + tail.len()
            &&& text.take(head.len() as int) == head
            &&& text.skip(head.len() as int) == tail
        }),
{
    let head = "StackerDB fn `"@ + id.spec_text() + "."@ + function + "` "@;
    let text = function_reason(id, function, tail);
    assert(text =~= head + tail);
    assert(text.take(head.len() as int) =~= head);
    assert(text.skip(head.len() as int) =~= tail);
}

/// The address of an account has its version and its hash.
pub proof fn law_address_is_that_of_the_account(principal: StandardPrincipalData)
    ensures
        address_of(principal).version == principal.0,
        address_of(principal).bytes.0 == principal.1,
{
}

/// What is said of a configuration is what its fields hold.
pub proof fn law_config_view(config: StackerDBConfig)
    ensures
        config@.chunk_size == config.chunk_size,
        config@.signers == config.signers@,
        config@.write_freq == config.write_freq,
        config@.max_writes == config.max_writes,
        config@.max_neighbors == config.max_neighbors,
        config@.hint_replicas.len() == config.hint_replicas@.len(),
        forall|i: int|
            0 <= i < config.hint_replicas@.len() ==> #[trigger] config@.hint_replicas[i]
                == config.hint_replicas@[i]@,
{
}

/// What is said of replicas is what the fields of each of them hold.
pub proof fn law_neighbor_view(replicas: Seq<NeighborAddress>)
    ensures
        neighbor_views(replicas).len() == replicas.len(),
        forall|i: int|
            0 <= i < replicas.len() ==> {
                let view = #[trigger] neighbor_views(replicas)[i];
                &&& view.addrbytes == replicas[i].addrbytes.0@
                &&& view.port == replicas[i].port
                &&& view.public_key_hash == replicas[i].public_key_hash.0@
            },
{
}

/// What is said of an error is its kind and what it holds.
pub proof fn law_error_view(id: QualifiedContractIdentifier, reason: String, error: NetError)
    ensures
        error == NetError::NoSuchStackerDB(id) ==> error@ == ErrorView::NoSuchStackerDB(id),
        error == NetError::InvalidStackerDBContract(id, reason) ==> error@
            == ErrorView::InvalidStackerDBContract(id, reason@),
        error == NetError::OverflowError(reason) ==> error@ == ErrorView::OverflowError(reason@),
{
}

} // verus!
