//! The postcodes near a given one: those whose unit letters come later in the alphabet.
use vstd::prelude::*;

use crate::text::char_is_ascii_letter;
use crate::text::chars_of;
use crate::text::is_ascii_letter;
use crate::text::push_char;
use crate::text::string_from_chars;

verus! {

/// The letter after `b` (an ASCII capital), wrapping `Z`, and anything that is not
/// `A` to `Y`, to `A`.
pub open spec fn next_letter_spec(b: u8) -> u8 {
    if 65 <= b <= 89 {
        (b + 1) as u8
    } else {
        65u8
    }
}

/// The letter after `b`, with `Z` (and anything that is not `A` to `Y`) wrapping to `A`.
pub fn next_letter(b: u8) -> (r: u8)
    ensures
        r == next_letter_spec(b),
{
    if b >= 65 && b <= 89 {
        b + 1
    } else {
        65
    }
}

/// The units that follow the unit `(u0, u1)`, in the order they are tried, in at most
/// `fuel` steps: the second letter advances, and when it wraps to `A` the first letter
/// advances; the search ends when the first letter wraps too.
pub open spec fn units_after(u0: u8, u1: u8, fuel: nat) -> Seq<(u8, u8)>
    decreases fuel,
{
    if fuel == 0 {
        Seq::empty()
    } else {
        let n1 = next_letter_spec(u1);
        if n1 == 65 {
            let n0 = next_letter_spec(u0);
            if n0 == 65 {
                Seq::empty()
            } else {
                seq![(n0, n1)] + units_after(n0, n1, (fuel - 1) as nat)
            }
        } else {
            seq![(u0, n1)] + units_after(u0, n1, (fuel - 1) as nat)
        }
    }
}

/// An ASCII capital letter.
pub open spec fn is_capital(b: u8) -> bool {
    65 <= b <= 90
}

/// `b` advanced by `k` letters.
pub open spec fn advance_letter(b: u8, k: nat) -> u8
    decreases k,
{
    if k == 0 {
        b
    } else {
        next_letter_spec(advance_letter(b, (k - 1) as nat))
    }
}

/// Advancing a capital letter goes round the 26 capitals: it stays a capital, moves
/// `k` places modulo 26, and is back where it started exactly when `k` is a multiple
/// of 26.
pub proof fn lemma_letter_cycle(b: u8, k: nat)
    requires
        is_capital(b),
    ensures
        is_capital(advance_letter(b, k)),
        advance_letter(b, k) == 65 + ((b - 65) + k) % 26,
        advance_letter(b, k) == b <==> k % 26 == 0,
    decreases k,
{
    let x: int = b - 65;
    if k > 0 {
        lemma_letter_cycle(b, (k - 1) as nat);
        let y: int = (x + k - 1) % 26;
        assert(y == 25 ==> (x + k) % 26 == 0) by (nonlinear_arith)
            requires
                y == (x + k - 1) % 26,
                0 <= x,
                k > 0,
        ;
        assert(y < 25 ==> (x + k) % 26 == y + 1) by (nonlinear_arith)
            requires
                y == (x + k - 1) % 26,
                0 <= x,
                k > 0,
        ;
    }
    assert(((x + k) % 26 == x) <==> k % 26 == 0) by (nonlinear_arith)
        requires
            0 <= x < 26,
    ;
}

/// The place of a unit of two capitals in alphabetical order, from `AA` (0) to `ZZ` (675).
pub open spec fn unit_rank(u: (u8, u8)) -> int {
    26 * (u.0 - 65) + (u.1 - 65)
}

/// From a unit of two capitals, the search tries every later unit once, in
/// alphabetical order, given enough steps.
pub proof fn lemma_units_after_in_order(u0: u8, u1: u8, fuel: nat)
    requires
        is_capital(u0),
        is_capital(u1),
        fuel >= 675 - unit_rank((u0, u1)),
    ensures
        units_after(u0, u1, fuel).len() == 675 - unit_rank((u0, u1)),
        forall|i: int|
            0 <= i < units_after(u0, u1, fuel).len() ==> is_capital(
                (#[trigger] units_after(u0, u1, fuel)[i]).0,
            ) && is_capital(units_after(u0, u1, fuel)[i].1) && unit_rank(units_after(u0, u1, fuel)[i])
                == unit_rank((u0, u1)) + 1 + i,
    decreases fuel,
{
    let units = units_after(u0, u1, fuel);
    if u1 < 90 {
        let rest = units_after(u0, (u1 + 1) as u8, (fuel - 1) as nat);
        lemma_units_after_in_order(u0, (u1 + 1) as u8, (fuel - 1) as nat);
        assert(units =~= seq![(u0, (u1 + 1) as u8)] + rest);
        assert forall|i: int| 0 < i < units.len() implies #[trigger] units[i] == rest[i - 1] by {}
    } else if u0 < 90 {
        let rest = units_after((u0 + 1) as u8, 65u8, (fuel - 1) as nat);
        lemma_units_after_in_order((u0 + 1) as u8, 65u8, (fuel - 1) as nat);
        assert(units =~= seq![((u0 + 1) as u8, 65u8)] + rest);
        assert forall|i: int| 0 < i < units.len() implies #[trigger] units[i] == rest[i - 1] by {}
    } else {
        if fuel > 0 {
            assert(units =~= Seq::<(u8, u8)>::empty());
        }
    }
}

/// The postcodes tried near one whose unit is two capital letters are those with each
/// later unit, in alphabetical order, each once.
pub proof fn lemma_nearby_candidates_in_order(code: Seq<char>)
    requires
        code.len() >= 2,
        'A' <= code[code.len() - 2] <= 'Z',
        'A' <= code[code.len() - 1] <= 'Z',
    ensures
        ({
            let u = (code[code.len() - 2] as u8, code[code.len() - 1] as u8);
            &&& candidate_units(code).len() == 675 - unit_rank(u)
            &&& forall|i: int|
                0 <= i < candidate_units(code).len() ==> unit_rank(
                    #[trigger] candidate_units(code)[i],
                ) == unit_rank(u) + 1 + i
        }),
{
    lemma_units_after_in_order(code[code.len() - 2] as u8, code[code.len() - 1] as u8, search_steps());
}

/// The number of steps of the search.
pub open spec fn search_steps() -> nat {
    676
}

/// Whether a postcode text ends in two ASCII letters, the unit that the search moves.
pub open spec fn has_unit_letters(code: Seq<char>) -> bool {
    code.len() >= 2 && is_ascii_letter(code[code.len() - 1]) && is_ascii_letter(
        code[code.len() - 2],
    )
}

/// The units that are tried for `code`, in order.
pub open spec fn candidate_units(code: Seq<char>) -> Seq<(u8, u8)> {
    if has_unit_letters(code) {
        units_after(code[code.len() - 2] as u8, code[code.len() - 1] as u8, search_steps())
    } else {
        Seq::empty()
    }
}

/// The text of `code` with its last two letters replaced by the unit `u`.
pub open spec fn with_unit(code: Seq<char>, u: (u8, u8)) -> Seq<char> {
    code.take(code.len() - 2) + seq![u.0 as char, u.1 as char]
}

/// The postcodes tried, in order, when looking for one near `code`: `code` with its
/// two final letters replaced by each later unit in turn. None when `code` does not
/// end in two ASCII letters.
pub fn nearby_candidates(code: &str) -> (r: Vec<String>)
    ensures
        r@.len() == candidate_units(code@).len(),
        forall|i: int|
            0 <= i < r@.len() ==> #[trigger] r@[i]@ == with_unit(code@, candidate_units(code@)[i]),
{
    let chars = chars_of(code);
    let len = chars.len();
    let mut r: Vec<String> = Vec::new();
    if len < 2 || !char_is_ascii_letter(chars[len - 1]) || !char_is_ascii_letter(chars[len - 2]) {
        return r;
    }
    let ghost all = candidate_units(code@);
    let mut unit0: u8 = chars[len - 2] as u8;
    let mut unit1: u8 = chars[len - 1] as u8;
    let mut step: usize = 0;
    while step < 676
        invariant_except_break
            step <= 676,
            r@.len() + units_after(unit0, unit1, (676 - step) as nat).len() == all.len(),
            forall|i: int| 0 <= i < r@.len() ==> #[trigger] r@[i]@ == with_unit(code@, all[i]),
            forall|i: int|
                0 <= i < units_after(unit0, unit1, (676 - step) as nat).len() ==> #[trigger] units_after(
                    unit0,
                    unit1,
                    (676 - step) as nat,
                )[i] == all[r@.len() + i],
        invariant
            len == chars@.len(),
            chars@ == code@,
            len >= 2,
        ensures
            r@.len() == all.len(),
            forall|i: int| 0 <= i < r@.len() ==> #[trigger] r@[i]@ == with_unit(code@, all[i]),
        decreases 676 - step,
    {
        let ghost rest = units_after(unit0, unit1, (676 - step) as nat);
        unit1 = next_letter(unit1);
        if unit1 == 65 {
            unit0 = next_letter(unit0);
            if unit0 == 65 {
                break;
            }
        }
        let mut candidate = string_from_chars(&chars, 0, len - 2);
        push_char(&mut candidate, unit0 as char);
        push_char(&mut candidate, unit1 as char);
        assert(rest[0] == (unit0, unit1));
        assert(candidate@ =~= with_unit(code@, all[r@.len() as int]));
        r.push(candidate);
        step = step + 1;
        assert forall|i: int| 0 <= i < units_after(unit0, unit1, (676 - step) as nat).len() implies #[trigger] units_after(
            unit0,
            unit1,
            (676 - step) as nat,
        )[i] == all[r@.len() + i] by {
            assert(units_after(unit0, unit1, (676 - step) as nat)[i] == rest[i + 1]);
        }
    }
    r
}

/// The first candidate that is present: the least index holding `true`, or `None` when
/// none does. Looking up the candidates of [`nearby_candidates`] in a table and taking
/// the first one present gives the nearby postcode.
pub fn first_present(found: &Vec<bool>) -> (r: Option<usize>)
    ensures
        match r {
            Some(i) => i < found@.len() && found@[i as int] && forall|j: int|
                0 <= j < i ==> !#[trigger] found@[j],
            None => forall|j: int| 0 <= j < found@.len() ==> !#[trigger] found@[j],
        },
{
    let mut i: usize = 0;
    while i < found.len()
        invariant
            i <= found@.len(),
            forall|j: int| 0 <= j < i ==> !#[trigger] found@[j],
        decreases found@.len() - i,
    {
        if found[i] {
            return Some(i);
        }
        i = i + 1;
    }
    None
}

} // verus!
