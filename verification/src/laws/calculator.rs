//! What the calculator and the dice answer.

use vstd::prelude::*;
use crate::commands::user::AwaitingArithmeticView;
use crate::commands::user::UserStepView;
use crate::commands::user::calculation_answer;
use crate::commands::user::roll_step;
use crate::effect::EffectView;
use crate::laws::texts::lemma_bounds;
use crate::laws::texts::lemma_cut;
use crate::message::ReplyView;
use crate::models::ChannelView;
use crate::number::decimal;
use crate::number::is_digit;
use crate::number::lemma_decimal_value;
use crate::number::unsigned_value;
use crate::text::joined;
use crate::text::pieces;
use crate::text::trimmed;
use crate::utils::CalculationView;
use crate::utils::DiceRequest;
use crate::utils::ReadingView;
use crate::utils::calculated;
use crate::utils::calculation;
use crate::utils::calculations_with;
use crate::utils::can_roll;
use crate::utils::dice_answer;
use crate::utils::dice_request;
use crate::utils::is_arithmetic;
use crate::utils::lemma_operation_decides;
use crate::utils::operators;
use crate::utils::roll_texts;
use crate::utils::rolls_answer;
use crate::utils::spaced;
use crate::utils::total;

verus! {

/// The answer to an operation on two numbers is, in full, the text that arithmetic gives for the
/// operation on these two numbers; only a division by zero is refused.
pub proof fn lemma_operation_answered(
    a: Seq<char>,
    op: char,
    b: Seq<char>,
    reads: spec_fn(CalculationView) -> ReadingView,
    right_is_zero: bool,
    result: Seq<char>,
    channel: ChannelView,
)
    requires
        op == '+' || op == '-' || op == '*' || op == '/',
        forall|i: int| 0 <= i < a.len() ==> #[trigger] a[i] != op,
        forall|i: int| 0 <= i < b.len() ==> #[trigger] b[i] != op,
        is_arithmetic(reads),
        reads(CalculationView { op, left: a, right: b }) == (ReadingView::Numbers {
            right_is_zero,
            result,
        }),
    ensures
        ({
            let expression = a + seq![op] + b;
            let tried = calculations_with(expression, operators());
            let readings = tried.map_values(reads);
            let said = if op == '/' && right_is_zero {
                "Error: Division by zero"@
            } else {
                result
            };
            &&& calculated(tried, readings) == said
            &&& calculation_answer(AwaitingArithmeticView { expression, channel }, readings)
                == EffectView::Reply(
                ReplyView { content: "Result: "@ + said, icon: "🧮"@, channel },
            )
        }),
{
    let none = Seq::<char>::empty();
    let k = if op == '+' {
        0
    } else if op == '-' {
        1
    } else if op == '*' {
        2
    } else {
        3int
    };
    assert(operators()[k] == op);
    lemma_operation_decides(none, a, none, k, none, b, none, reads);
    let c = CalculationView { op, left: a, right: b };
    assert(spaced(none, a, none, op, none, b, none) =~= a + seq![op] + b);
    assert(seq![c][0] == c);
    assert(seq![reads(c)][0] == reads(c));
}

/// The calculations that are tried are those of `+`, `-`, `*` and `/`, in this order, where the
/// operator stands in the text exactly once; the operands are what is before and behind it, without
/// the white space around them.
pub proof fn lemma_operands(a: Seq<char>, op: char, b: Seq<char>, c: Seq<char>)
    requires
        forall|i: int| 0 <= i < a.len() ==> #[trigger] a[i] != op,
        forall|i: int| 0 <= i < b.len() ==> #[trigger] b[i] != op,
    ensures
        operators() == seq!['+', '-', '*', '/'],
        calculation(a, op) is None,
        calculation(a + seq![op] + b, op) == Some(
            CalculationView { op, left: trimmed(a), right: trimmed(b) },
        ),
        calculation(a + seq![op] + (b + seq![op] + c), op) is None,
{
    lemma_cut(a, op, b);
    lemma_cut(b, op, c);
    lemma_cut(a, op, b + seq![op] + c);
    assert(pieces(a + seq![op] + b, op) =~= seq![a, b]);
    lemma_some_pieces(c, op);
}

proof fn lemma_some_pieces(s: Seq<char>, c: char)
    ensures
        pieces(s, c).len() > 0,
{
}

/// The first calculation whose operands are numbers decides, and without one the expression is
/// refused.
pub proof fn lemma_first_numbers_decide(
    tried: Seq<CalculationView>,
    readings: Seq<ReadingView>,
    k: int,
)
    requires
        tried.len() == readings.len(),
        0 <= k <= readings.len(),
        forall|i: int| 0 <= i < k ==> #[trigger] readings[i] is NotNumbers,
    ensures
        k == readings.len() ==> calculated(tried, readings)
            == "Error: Invalid expression format. Use 'num1 operator num2' (e.g., 5+3)"@,
        k < readings.len() ==> (readings[k] matches ReadingView::Numbers { right_is_zero, result }
            ==> calculated(tried, readings) == if tried[k].op == '/' && right_is_zero {
            "Error: Division by zero"@
        } else {
            result
        }),
    decreases k,
{
    if k > 0 {
        let rest = readings.skip(1);
        assert forall|i: int| 0 <= i < k - 1 implies #[trigger] rest[i] is NotNumbers by {
            assert(rest[i] == readings[i + 1]);
        }
        lemma_first_numbers_decide(tried.skip(1), rest, k - 1);
        assert(readings[0] is NotNumbers);
    }
}

proof fn lemma_no_letter(n: nat)
    ensures
        forall|i: int| 0 <= i < decimal(n).len() ==> #[trigger] decimal(n)[i] != 'd',
{
    lemma_decimal_value(n);
    assert forall|i: int| 0 <= i < decimal(n).len() implies #[trigger] decimal(n)[i] != 'd' by {
        assert(is_digit(decimal(n)[i]));
    }
}

/// `NdM` asks for N dice with M sides, where there are between 1 and 100 dice with between 1 and 1000
/// sides; a text without exactly one `d` asks for nothing.
pub proof fn lemma_dice_asked(n: nat, m: nat, a: Seq<char>, b: Seq<char>, c: Seq<char>)
    requires
        forall|i: int| 0 <= i < a.len() ==> #[trigger] a[i] != 'd',
        forall|i: int| 0 <= i < b.len() ==> #[trigger] b[i] != 'd',
    ensures
        dice_request(decimal(n) + seq!['d'] + decimal(m)) == if n > 0xFFFF_FFFF || m > 0xFFFF_FFFF {
            DiceRequest::Malformed
        } else if n == 0 || m == 0 {
            DiceRequest::Zero
        } else if n > 100 || m > 1000 {
            DiceRequest::TooMany
        } else {
            DiceRequest::Roll { dice: n as u32, sides: m as u32 }
        },
        dice_request(a) == DiceRequest::Malformed,
        dice_request(a + seq!['d'] + (b + seq!['d'] + c)) == DiceRequest::Malformed,
{
    lemma_no_letter(n);
    lemma_no_letter(m);
    lemma_cut(decimal(n), 'd', decimal(m));
    lemma_cut(decimal(m), 'd', decimal(m));
    assert(pieces(decimal(n) + seq!['d'] + decimal(m), 'd') =~= seq![decimal(n), decimal(m)]);
    lemma_bounds(n, 0xFFFF_FFFF, 0, a);
    lemma_bounds(m, 0xFFFF_FFFF, 0, a);
    lemma_cut(a, 'd', b + seq!['d'] + c);
    lemma_cut(b, 'd', c);
    lemma_some_pieces(c, 'd');
}

/// A further roll adds its number to the sum and stands behind the others.
pub proof fn lemma_rolls_shown(rolls: Seq<u32>, roll: u32)
    ensures
        total(Seq::<u32>::empty()) == 0,
        total(rolls.push(roll)) == total(rolls) + roll,
        rolls_answer(rolls) == decimal(total(rolls)) + " (rolls: "@ + joined(
            roll_texts(rolls),
            ", "@,
        ) + ")"@,
        roll_texts(rolls.push(roll)) == roll_texts(rolls).push(decimal(roll as nat)),
        roll_texts(rolls).len() == rolls.len(),
{
    assert(rolls.push(roll).drop_last() =~= rolls);
    assert(roll_texts(rolls.push(roll)) =~= roll_texts(rolls).push(decimal(roll as nat)));
}

/// What the dice answer: as many rolls as dice were asked for, each between 1 and the sides, with
/// their sum, or why not; and the command hands the answer on in full.
pub proof fn lemma_dice_answered(text: Seq<char>, said: Seq<char>, channel: ChannelView)
    requires
        dice_answer(text, said),
    ensures
        dice_request(text) is Malformed ==> said
            == "Error: Invalid dice format. Use 'NdM' (e.g., 2d6)"@,
        dice_request(text) is Zero ==> said == "Error: Number of dice or sides cannot be zero."@,
        dice_request(text) is TooMany ==> said == "Error: Too many dice or sides. Max 100d1000."@,
        dice_request(text) matches DiceRequest::Roll { dice, sides } ==> exists|rolls: Seq<u32>|
            rolls.len() == dice && (forall|i: int|
                0 <= i < rolls.len() ==> 1 <= #[trigger] rolls[i] <= sides) && said
                == #[trigger] rolls_answer(rolls),
        roll_step(said, channel) == UserStepView::Done(
            seq![
                EffectView::Reply(
                    ReplyView { content: "Roll: "@ + said, icon: "🎲"@, channel },
                ),
            ],
        ),
{
    if let DiceRequest::Roll { dice, sides } = dice_request(text) {
        let rolls = choose|rolls: Seq<u32>|
            can_roll(rolls, dice, sides) && said == #[trigger] rolls_answer(rolls);
        assert(rolls.len() == dice);
    }
}

/// The calculations for one operator more are those for the others and then its own, if there is one.
pub proof fn lemma_calculations_grow(expression: Seq<char>, ops: Seq<char>, op: char)
    ensures
        calculations_with(expression, Seq::<char>::empty()) == Seq::<CalculationView>::empty(),
        calculations_with(expression, ops.push(op)) == match calculation(expression, op) {
            Some(c) => calculations_with(expression, ops).push(c),
            None => calculations_with(expression, ops),
        },
{
    assert(ops.push(op).drop_last() =~= ops);
}

/// What is asked of the dice is told by the two numbers around the `d`, in whatever way they are
/// written.
pub proof fn lemma_dice_numbers(a: Seq<char>, b: Seq<char>)
    requires
        forall|i: int| 0 <= i < a.len() ==> #[trigger] a[i] != 'd',
        forall|i: int| 0 <= i < b.len() ==> #[trigger] b[i] != 'd',
    ensures
        ({
            let asked = dice_request(a + seq!['d'] + b);
            match (unsigned_value(a), unsigned_value(b)) {
                (Some(n), Some(m)) => {
                    &&& asked is Malformed <==> n > 0xFFFF_FFFF || m > 0xFFFF_FFFF
                    &&& asked is Zero <==> (n == 0 && m <= 0xFFFF_FFFF) || (m == 0 && n
                        <= 0xFFFF_FFFF)
                    &&& asked is Roll <==> 1 <= n <= 100 && 1 <= m <= 1000
                    &&& asked is Roll ==> asked->dice == n && asked->sides == m
                },
                _ => asked is Malformed,
            }
        }),
{
    lemma_cut(a, 'd', b);
    lemma_cut(b, 'd', b);
    assert(pieces(a + seq!['d'] + b, 'd') =~= seq![a, b]);
    lemma_bounds(0, 0xFFFF_FFFF, 0, a);
    lemma_bounds(0, 0xFFFF_FFFF, 0, b);
}

} // verus!
