//! The textual form of a job's identifier.

use vstd::prelude::*;

verus! {

/// The number of symbols in the text of an identifier.
pub const ID_TEXT_LEN: usize = 26;

/// The symbols of Crockford's base 32, by value.
pub open spec fn crockford_alphabet() -> Seq<char> {
    seq![
        '0', '1', '2', '3', '4', '5', '6', '7', '8', '9', 'A', 'B', 'C', 'D', 'E', 'F',
        'G', 'H', 'J', 'K', 'M', 'N', 'P', 'Q', 'R', 'S', 'T', 'V', 'W', 'X', 'Y', 'Z',
    ]
}

/// The last `len` digits of `value` in base 32, most significant first.
pub open spec fn base32_text(value: nat, len: nat) -> Seq<char>
    decreases len,
{
    if len == 0 {
        Seq::empty()
    } else {
        base32_text(value / 32, (len - 1) as nat).push(crockford_alphabet()[(value % 32) as int])
    }
}

/// The text of a job identifier: its 128 bits as 26 symbols of Crockford's
/// base 32, most significant first.
pub open spec fn id_text(id: u128) -> Seq<char> {
    base32_text(id as nat, ID_TEXT_LEN as nat)
}

/// Calls `ulid::Ulid::to_string` on the identifier.  That function writes
/// 26 symbols, filling them from the last to the first with the symbol for
/// the lowest five bits of the value and shifting the value right by five
/// each time; the contract says the same with division by 32.
#[verifier::external_body]
fn ulid_to_string(id: u128) -> (text: String)
    ensures
        text@ == id_text(id),
{
    ulid::Ulid(id).to_string()
}

/// Renders a job identifier as text.
pub fn render_id(id: u128) -> (text: String)
    ensures
        text@ == id_text(id),
        text@.len() == ID_TEXT_LEN,
{
    proof {
        lemma_base32_text_len(id as nat, ID_TEXT_LEN as nat);
    }
    ulid_to_string(id)
}

/// 32 to the power of `n`.
pub open spec fn pow32(n: nat) -> nat
    decreases n,
{
    if n == 0 {
        1
    } else {
        32 * pow32((n - 1) as nat)
    }
}

/// No symbol stands for two values.
pub proof fn lemma_alphabet_is_injective(i: nat, j: nat)
    requires
        i < 32,
        j < 32,
        crockford_alphabet()[i as int] == crockford_alphabet()[j as int],
    ensures
        i == j,
{
}

/// Numbers below `32^len` with the same `len` digits are the same number.
pub proof fn lemma_base32_text_is_injective(a: nat, b: nat, len: nat)
    requires
        a < pow32(len),
        b < pow32(len),
        base32_text(a, len) == base32_text(b, len),
    ensures
        a == b,
    decreases len,
{
    if len > 0 {
        let rest = (len - 1) as nat;
        let text_a = base32_text(a / 32, rest).push(crockford_alphabet()[(a % 32) as int]);
        let text_b = base32_text(b / 32, rest).push(crockford_alphabet()[(b % 32) as int]);
        assert(text_a == text_b);
        assert(text_a.last() == text_b.last());
        assert(text_a.drop_last() =~= base32_text(a / 32, rest));
        assert(text_b.drop_last() =~= base32_text(b / 32, rest));
        lemma_alphabet_is_injective(a % 32, b % 32);
        lemma_base32_text_is_injective(a / 32, b / 32, rest);
    }
}

/// **Identifiers keep apart.**  Two jobs with the same text have the same
/// identifier: the text names the job.
pub proof fn law_id_text_is_injective(a: u128, b: u128)
    requires
        id_text(a) == id_text(b),
    ensures
        a == b,
{
    assert(pow32(26) > u128::MAX) by {
        reveal_with_fuel(pow32, 27);
    }
    lemma_base32_text_is_injective(a as nat, b as nat, 26);
}

/// The text has as many symbols as were asked for.
pub proof fn lemma_base32_text_len(value: nat, len: nat)
    ensures
        base32_text(value, len).len() == len,
    decreases len,
{
    if len > 0 {
        lemma_base32_text_len(value / 32, (len - 1) as nat);
    }
}

} // verus!
