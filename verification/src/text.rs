//! Text that appears inside messages: decimal numbers and quoted strings.
use vstd::prelude::*;
use vstd::string::*;

verus! {

/// The character of a decimal digit.
pub open spec fn digit_char(digit: nat) -> char {
    (digit + '0' as nat) as char
}

/// A number in decimal notation, without leading zeros.
pub open spec fn decimal_text(number: nat) -> Seq<char>
    decreases number,
{
    if number < 10 {
        seq![digit_char(number)]
    } else {
        decimal_text(number / 10).push(digit_char(number % 10))
    }
}

/// What `{:?}` writes for a string: the string in double quotes, with the escapes
/// that std chooses.
pub uninterp spec fn quoted_text(text: Seq<char>) -> Seq<char>;

fn digit(value: u32) -> (text: &'static str)
    requires
        value < 10,
    ensures
        text@ == seq![digit_char(value as nat)],
{
    proof {
        reveal_strlit("0");
        reveal_strlit("1");
        reveal_strlit("2");
        reveal_strlit("3");
        reveal_strlit("4");
        reveal_strlit("5");
        reveal_strlit("6");
        reveal_strlit("7");
        reveal_strlit("8");
        reveal_strlit("9");
    }
    match value {
        0 => "0",
        1 => "1",
        2 => "2",
        3 => "3",
        4 => "4",
        5 => "5",
        6 => "6",
        7 => "7",
        8 => "8",
        _ => "9",
    }
}

/// Writes a number in decimal notation.
pub fn decimal(number: u32) -> (text: String)
    ensures
        text@ == decimal_text(number as nat),
    decreases number,
{
    let mut text = if number < 10 {
        String::new()
    } else {
        decimal(number / 10)
    };
    text.append(digit(number % 10));
    proof {
        assert(text@ =~= decimal_text(number as nat));
    }
    text
}

/// `std::fmt::Debug` of `str`. The claim is that what it writes depends on the
/// characters of the string alone; which characters it escapes is not said.
#[verifier::external_body]
pub(crate) fn quoted(text: &str) -> (quoted: String)
    ensures
        quoted@ == quoted_text(text@),
{
    format!("{:?}", text)
}

/// The number that a sequence of decimal digits stands for.
pub open spec fn decimal_value(text: Seq<char>) -> int
    decreases text.len(),
{
    if text.len() == 0 {
        0
    } else {
        10 * decimal_value(text.drop_last()) + (text.last() as int - '0' as int)
    }
}

/// A number in decimal notation consists of digits, reads back as the number, and starts
/// with a zero only where it is zero.
pub proof fn law_decimal_text_reads_back(number: nat)
    ensures
        decimal_text(number).len() > 0,
        forall|i: int|
            0 <= i < decimal_text(number).len() ==> '0' <= #[trigger] decimal_text(number)[i]
                <= '9',
        decimal_value(decimal_text(number)) == number,
        number > 0 ==> decimal_text(number)[0] != '0',
        number == 0 ==> decimal_text(number) == seq!['0'],
    decreases number,
{
    let text = decimal_text(number);
    if number < 10 {
        assert(text.drop_last() =~= Seq::<char>::empty());
        assert(decimal_value(text.drop_last()) == 0);
    } else {
        let tens = number / 10;
        law_decimal_text_reads_back(tens);
        assert(text.drop_last() =~= decimal_text(tens));
        assert(text.last() == digit_char(number % 10));
        assert forall|i: int| 0 <= i < text.len() implies '0' <= #[trigger] text[i] <= '9' by {
            if i < text.len() - 1 {
                assert(text[i] == decimal_text(tens)[i]);
            }
        }
        assert(text[0] == decimal_text(tens)[0]);
    }
}

/// Numbers are told apart by their decimal notation.
pub proof fn law_decimal_texts_differ(first: nat, second: nat)
    requires
        decimal_text(first) == decimal_text(second),
    ensures
        first == second,
{
    law_decimal_text_reads_back(first);
    law_decimal_text_reads_back(second);
}

} // verus!
