//! What a player may type for a move: which numbers name a cell of the board,
//! and which texts write such a number.

use crate::board::Player;
use vstd::prelude::*;
use vstd::string::StringExecFns;

verus! {

/// Whether `num` names a cell of the board: the cells are numbered 1 to 9.
pub open spec fn is_position(num: int) -> bool {
    1 <= num <= 9
}

/// Whether `c` is one of the ten decimal digits.
pub open spec fn is_digit(c: char) -> bool {
    '0' <= c <= '9'
}

/// The number that the digit `c` stands for.
pub open spec fn digit_value(c: char) -> int {
    c as int - '0' as int
}

/// Whether `digits` is one decimal digit or more, and nothing else.
pub open spec fn is_numeral(digits: Seq<char>) -> bool {
    digits.len() > 0 && forall|i: int| 0 <= i < digits.len() ==> is_digit(#[trigger] digits[i])
}

/// The number that a run of decimal digits writes, most significant digit first.
pub open spec fn decimal_value(digits: Seq<char>) -> int
    decreases digits.len(),
{
    if digits.len() == 0 {
        0
    } else {
        10 * decimal_value(digits.drop_last()) + digit_value(digits.last())
    }
}

/// `text` without the plus sign that it may begin with.
pub open spec fn without_sign(text: Seq<char>) -> Seq<char> {
    if text.len() > 0 && text[0] == '+' {
        text.drop_first()
    } else {
        text
    }
}

/// The number that `text` writes: a plus sign or none, then decimal digits
/// and nothing else. Any other text writes no number.
pub open spec fn number_in(text: Seq<char>) -> Option<int> {
    if is_numeral(without_sign(text)) {
        Some(decimal_value(without_sign(text)))
    } else {
        None
    }
}

/// The move that `text` asks for: the number it writes, where that is one of
/// 1 to 9.
pub open spec fn move_in(text: Seq<char>) -> Option<usize> {
    match number_in(text) {
        Some(number) => if is_position(number) {
            Some(number as usize)
        } else {
            None
        },
        None => None,
    }
}

/// What the player to move is asked.
pub open spec fn move_prompt_text(player: Player) -> Seq<char> {
    "Enter your move ("@ + player.text() + ") (1-9): "@
}

/// A numeral is worth at least as much as any of its beginnings.
proof fn lemma_decimal_value_grows(digits: Seq<char>, count: int)
    requires
        forall|i: int| 0 <= i < digits.len() ==> is_digit(#[trigger] digits[i]),
        0 <= count <= digits.len(),
    ensures
        0 <= decimal_value(digits.take(count)) <= decimal_value(digits),
    decreases digits.len(),
{
    if digits.len() == 0 {
        assert(digits.take(count) =~= digits);
    } else if count == digits.len() {
        assert(digits.take(count) =~= digits);
        lemma_decimal_value_grows(digits.drop_last(), count - 1);
    } else {
        assert(digits.drop_last().take(count) =~= digits.take(count));
        lemma_decimal_value_grows(digits.drop_last(), count);
    }
}

/// Checks that a number is one of 1 to 9.
pub fn is_valid_num(num: usize) -> (valid: bool)
    ensures
        valid == is_position(num as int),
{
    num >= 1 && num <= 9
}

/// Reads a move from what the player typed, less the white space around it:
/// the position, where the text writes a number from 1 to 9, and `None` for
/// every other text.
pub fn parse_move(text: &str) -> (position: Option<usize>)
    ensures
        position == move_in(text@),
{
    let ghost digits = without_sign(text@);
    let ghost sign: int = text@.len() - digits.len();
    // The digits read so far are worth `value`; reading stops at the first
    // character that is no digit, and as soon as the number is over 9.
    let mut value: usize = 0;
    let mut first = true;
    for c in iter: text.chars()
        invariant
            iter.seq() == text@,
            digits == without_sign(text@),
            sign == text@.len() - digits.len(),
            first == (iter.index() == 0),
            forall|i: int| 0 <= i < iter.index() - sign ==> is_digit(#[trigger] digits[i]),
            iter.index() >= sign ==> value == decimal_value(digits.take(iter.index() - sign)),
            iter.index() < sign ==> value == 0,
            value <= 9,
    {
        let signed = first && c == '+';
        first = false;
        if !signed {
            let ghost at = iter.index() - sign;
            if !(c >= '0' && c <= '9') {
                assert(!is_digit(digits[at]));
                return None;
            }
            let digit: usize = (c as u32 - '0' as u32) as usize;
            assert(digits.take(at + 1).drop_last() =~= digits.take(at));
            value = value * 10 + digit;
            if value > 9 {
                proof {
                    if is_numeral(digits) {
                        lemma_decimal_value_grows(digits, at + 1);
                    }
                }
                return None;
            }
        }
    }
    assert(digits.take(digits.len() as int) =~= digits);
    if value >= 1 {
        Some(value)
    } else {
        None
    }
}

/// What `str::trim` returns for a line of these characters: the line without
/// the white space at its two ends.
pub uninterp spec fn trimmed(line: Seq<char>) -> Seq<char>;

/// Calls `str::trim` of the standard library, which returns the line without
/// the white space at its two ends. The contract is taken on trust. It claims
/// only that the result depends on the characters of the line and on nothing
/// else, by giving it the name [`trimmed`]; which characters count as white
/// space is for Unicode to say and is not stated.
#[verifier::external_body]
fn trim(line: &str) -> (text: &str)
    ensures
        text@ == trimmed(line@),
{
    line.trim()
}

/// Reads a move from a line of input as the player typed it: the position,
/// where the line, less the white space around it, writes a number from 1 to
/// 9, and `None` for every other line.
pub fn read_move(line: &str) -> (position: Option<usize>)
    ensures
        position == move_in(trimmed(line@)),
{
    parse_move(trim(line))
}

/// The question put to `player` when a move is due.
pub fn move_prompt(player: Player) -> (text: String)
    ensures
        text@ == move_prompt_text(player),
{
    let mut text = "Enter your move (".to_string();
    text.append(player.to_string().as_str());
    text.append(") (1-9): ");
    text
}

} // verus!
