//! The calculator and the dice.

use vstd::prelude::*;
use vstd::string::*;
use crate::number::bounded_value;
use crate::number::decimal;
use crate::number::parse_bounded;
use crate::number::unsigned_text;
use crate::outside::lower_case;
use crate::outside::random_die;
use crate::outside::to_lower;
use crate::text::first_index;
use crate::text::is_char;
use crate::text::joined;
use crate::text::lemma_first_where;
use crate::text::lemma_first_where_is;
use crate::text::lemma_trimmed_around;
use crate::text::lemma_trimmed_ends;
use crate::text::lemma_trimmed_last;
use crate::text::pieces;
use crate::text::plus;
use crate::text::split;
use crate::text::trim;
use crate::text::trimmed;
use crate::text::white_space;

verus! {

/// A way to read a text as one operation on two numbers.
#[derive(Debug)]
pub struct Calculation {
    pub op: char,
    pub left: String,
    pub right: String,
}

/// What a calculation holds.
pub struct CalculationView {
    pub op: char,
    pub left: Seq<char>,
    pub right: Seq<char>,
}

impl DeepView for Calculation {
    type V = CalculationView;

    open spec fn deep_view(&self) -> CalculationView {
        CalculationView { op: self.op, left: self.left@, right: self.right@ }
    }
}

/// What floating-point arithmetic makes of a calculation.
#[derive(Debug)]
pub enum Reading {
    /// One of the operands is not a number.
    NotNumbers,
    /// Both are numbers; `result` writes what the operation makes of them.
    Numbers { right_is_zero: bool, result: String },
}

/// What a reading holds.
pub enum ReadingView {
    NotNumbers,
    Numbers { right_is_zero: bool, result: Seq<char> },
}

impl DeepView for Reading {
    type V = ReadingView;

    open spec fn deep_view(&self) -> ReadingView {
        match self {
            Reading::NotNumbers => ReadingView::NotNumbers,
            Reading::Numbers { right_is_zero, result } => ReadingView::Numbers {
                right_is_zero: *right_is_zero,
                result: result@,
            },
        }
    }
}

/// The operators, in the order in which they are tried.
pub open spec fn operators() -> Seq<char> {
    seq!['+', '-', '*', '/']
}

/// The way to read a text as an operation: the operator counts if it stands in the text exactly
/// once, and white space around the operands does not.
pub open spec fn calculation(expression: Seq<char>, op: char) -> Option<CalculationView> {
    let parts = pieces(expression, op);
    if parts.len() == 2 {
        Some(CalculationView { op, left: trimmed(parts[0]), right: trimmed(parts[1]) })
    } else {
        None
    }
}

/// The ways to read a text as an operation with one of `ops`.
pub open spec fn calculations_with(expression: Seq<char>, ops: Seq<char>) -> Seq<CalculationView>
    decreases ops.len(),
{
    if ops.len() == 0 {
        Seq::empty()
    } else {
        let before = calculations_with(expression, ops.drop_last());
        match calculation(expression, ops.last()) {
            Some(c) => before.push(c),
            None => before,
        }
    }
}

fn read_calculation(expression: &str, op: char) -> (r: Option<Calculation>)
    ensures
        r.deep_view() == calculation(expression@, op),
{
    let parts = split(expression, op);
    if parts.len() != 2 {
        return None;
    }
    assert(parts.deep_view()[0] == parts@[0]@);
    assert(parts.deep_view()[1] == parts@[1]@);
    Some(Calculation { op, left: trim(parts[0].as_str()), right: trim(parts[1].as_str()) })
}

/// The ways to read a text as an operation, in the order in which they are tried.
pub fn calculations(expression: &str) -> (r: Vec<Calculation>)
    ensures
        r.deep_view() == calculations_with(expression@, operators()),
{
    let ops: Vec<char> = vec!['+', '-', '*', '/'];
    assert(ops@ =~= operators());
    let mut r: Vec<Calculation> = Vec::new();
    let mut i: usize = 0;
    assert(r.deep_view() =~= calculations_with(expression@, ops@.take(0)));
    while i < ops.len()
        invariant
            i <= ops@.len(),
            r.deep_view() == calculations_with(expression@, ops@.take(i as int)),
        decreases ops@.len() - i,
    {
        let found = read_calculation(expression, ops[i]);
        let ghost before = r.deep_view();
        assert(ops@.take(i + 1).drop_last() =~= ops@.take(i as int));
        assert(ops@.take(i + 1).last() == ops@[i as int]);
        if let Some(c) = found {
            r.push(c);
            assert(r.deep_view() =~= before.push(c.deep_view()));
        }
        i += 1;
    }
    assert(ops@.take(ops@.len() as int) =~= ops@);
    r
}

/// What the calculator answers: the first calculation whose operands are numbers decides.
pub open spec fn calculated(
    calculations: Seq<CalculationView>,
    readings: Seq<ReadingView>,
) -> Seq<char>
    decreases readings.len(),
{
    if readings.len() == 0 {
        "Error: Invalid expression format. Use 'num1 operator num2' (e.g., 5+3)"@
    } else {
        match readings[0] {
            ReadingView::NotNumbers => calculated(calculations.skip(1), readings.skip(1)),
            ReadingView::Numbers { right_is_zero, result } => if calculations[0].op == '/'
                && right_is_zero {
                "Error: Division by zero"@
            } else {
                result
            },
        }
    }
}

/// Answers a calculation, given what arithmetic makes of each way to read it.
pub fn parse_and_calculate(expression: &str, readings: &Vec<Reading>) -> (r: String)
    requires
        readings@.len() == calculations_with(expression@, operators()).len(),
    ensures
        r@ == calculated(
            calculations_with(expression@, operators()),
            readings.deep_view(),
        ),
{
    let tried = calculations(expression);
    let ghost all = tried.deep_view();
    let ghost given = readings.deep_view();
    let mut i: usize = 0;
    assert(all.skip(0) =~= all);
    assert(given.skip(0) =~= given);
    while i < readings.len()
        invariant
            i <= readings@.len() == tried@.len(),
            all == tried.deep_view(),
            all == calculations_with(expression@, operators()),
            given == readings.deep_view(),
            calculated(all, given) == calculated(all.skip(i as int), given.skip(i as int)),
        decreases readings@.len() - i,
    {
        proof {
            assert(given.skip(i as int)[0] == readings@[i as int].deep_view());
            assert(all.skip(i as int)[0] == tried@[i as int].deep_view());
            assert(given.skip(i as int).skip(1) =~= given.skip(i + 1));
            assert(all.skip(i as int).skip(1) =~= all.skip(i + 1));
        }
        match &readings[i] {
            Reading::NotNumbers => {},
            Reading::Numbers { right_is_zero, result } => {
                if tried[i].op == '/' && *right_is_zero {
                    return "Error: Division by zero".to_string();
                }
                return result.clone();
            },
        }
        i += 1;
    }
    "Error: Invalid expression format. Use 'num1 operator num2' (e.g., 5+3)".to_string()
}

/// Whether a text can be a number as far as its signs go: a sign stands at the front or behind the
/// letter of an exponent, and there is no white space and no other operator.
pub open spec fn number_shaped(s: Seq<char>) -> bool {
    &&& s.len() > 0
    &&& s.last() != '+' && s.last() != '-' && s.last() != 'e' && s.last() != 'E'
    &&& forall|i: int|
        0 <= i < s.len() ==> {
            &&& !white_space(#[trigger] s[i])
            &&& s[i] != '*' && s[i] != '/'
            &&& s[i] == '+' || s[i] == '-' ==> i == 0 || s[i - 1] == 'e' || s[i - 1] == 'E'
        }
}

/// Whether `reads` can be arithmetic: it takes nothing for a number that has not the shape of one.
pub open spec fn is_arithmetic(reads: spec_fn(CalculationView) -> ReadingView) -> bool {
    forall|c: CalculationView| #[trigger]
        reads(c) is Numbers ==> number_shaped(c.left) && number_shaped(c.right)
}

/// What the calculator answers to a text where `reads` is the arithmetic.
pub open spec fn calculator_answer(
    expression: Seq<char>,
    reads: spec_fn(CalculationView) -> ReadingView,
) -> Seq<char> {
    let tried = calculations_with(expression, operators());
    calculated(tried, tried.map_values(reads))
}

/// Whether a text is white space alone.
pub open spec fn is_blank(s: Seq<char>) -> bool {
    forall|i: int| 0 <= i < s.len() ==> white_space(#[trigger] s[i])
}

/// An operation on two texts with white space around them.
pub open spec fn spaced(
    w1: Seq<char>,
    a: Seq<char>,
    w2: Seq<char>,
    op: char,
    w3: Seq<char>,
    b: Seq<char>,
    w4: Seq<char>,
) -> Seq<char> {
    (w1 + a + w2) + seq![op] + (w3 + b + w4)
}

proof fn lemma_calculations_concat(expression: Seq<char>, front: Seq<char>, back: Seq<char>)
    ensures
        calculations_with(expression, front + back) == calculations_with(expression, front)
            + calculations_with(expression, back),
    decreases back.len(),
{
    let all = front + back;
    if back.len() == 0 {
        assert(all =~= front);
        assert(calculations_with(expression, front) + calculations_with(expression, back)
            =~= calculations_with(expression, front));
    } else {
        lemma_calculations_concat(expression, front, back.drop_last());
        assert(all.drop_last() =~= front + back.drop_last());
        assert(all.last() == back.last());
        assert(calculations_with(expression, all) =~= calculations_with(expression, front)
            + calculations_with(expression, back));
    }
}

proof fn lemma_calculations_malformed(expression: Seq<char>, ops: Seq<char>)
    requires
        forall|i: int|
            0 <= i < ops.len() ==> (calculation(expression, #[trigger] ops[i]) matches Some(c)
                ==> !number_shaped(c.left)),
    ensures
        forall|i: int|
            0 <= i < calculations_with(expression, ops).len() ==> !number_shaped(
                (#[trigger] calculations_with(expression, ops)[i]).left,
            ),
    decreases ops.len(),
{
    if ops.len() > 0 {
        let rest = ops.drop_last();
        assert forall|i: int| 0 <= i < rest.len() implies (calculation(
            expression,
            #[trigger] rest[i],
        ) matches Some(c) ==> !number_shaped(c.left)) by {
            assert(rest[i] == ops[i]);
        }
        lemma_calculations_malformed(expression, rest);
        assert(ops.last() == ops[ops.len() - 1]);
        let before = calculations_with(expression, rest);
        let all = calculations_with(expression, ops);
        assert forall|i: int| 0 <= i < all.len() implies !number_shaped(
            (#[trigger] all[i]).left,
        ) by {
            if i < before.len() {
                assert(all[i] == before[i]);
            } else {
                assert(calculation(expression, ops[ops.len() - 1]) == Some(all[i]));
            }
        }
    }
}

proof fn lemma_skip_malformed(
    front: Seq<CalculationView>,
    back: Seq<CalculationView>,
    reads: spec_fn(CalculationView) -> ReadingView,
)
    requires
        is_arithmetic(reads),
        forall|i: int| 0 <= i < front.len() ==> !number_shaped((#[trigger] front[i]).left),
    ensures
        calculated(front + back, (front + back).map_values(reads)) == calculated(
            back,
            back.map_values(reads),
        ),
    decreases front.len(),
{
    let all = front + back;
    if front.len() == 0 {
        assert(all =~= back);
    } else {
        let rest = front.skip(1);
        assert forall|i: int| 0 <= i < rest.len() implies !number_shaped(
            (#[trigger] rest[i]).left,
        ) by {
            assert(rest[i] == front[i + 1]);
        }
        lemma_skip_malformed(rest, back, reads);
        assert(all[0] == front[0]);
        assert(all.map_values(reads)[0] == reads(front[0]));
        assert(reads(front[0]) is NotNumbers);
        assert(all.skip(1) =~= rest + back);
        assert(all.map_values(reads).skip(1) =~= (rest + back).map_values(reads));
    }
}

proof fn lemma_own_operator(
    w1: Seq<char>,
    a: Seq<char>,
    w2: Seq<char>,
    op: char,
    w3: Seq<char>,
    b: Seq<char>,
    w4: Seq<char>,
)
    requires
        is_blank(w1),
        is_blank(w2),
        is_blank(w3),
        is_blank(w4),
        number_shaped(a),
        number_shaped(b),
        !white_space(op),
        !a.contains(op),
        !b.contains(op),
    ensures
        calculation(spaced(w1, a, w2, op, w3, b, w4), op) == Some(
            CalculationView { op, left: a, right: b },
        ),
{
    let x = w1 + a + w2;
    let y = w3 + b + w4;
    let t = spaced(w1, a, w2, op, w3, b, w4);
    assert forall|i: int| 0 <= i < x.len() implies #[trigger] x[i] != op by {
        if w1.len() <= i < w1.len() + a.len() {
            assert(x[i] == a[i - w1.len()]);
        } else if i < w1.len() {
            assert(x[i] == w1[i]);
        } else {
            assert(x[i] == w2[i - w1.len() - a.len()]);
        }
    }
    assert forall|i: int| 0 <= i < y.len() implies #[trigger] y[i] != op by {
        if w3.len() <= i < w3.len() + b.len() {
            assert(y[i] == b[i - w3.len()]);
        } else if i < w3.len() {
            assert(y[i] == w3[i]);
        } else {
            assert(y[i] == w4[i - w3.len() - b.len()]);
        }
    }
    assert forall|i: int| 0 <= i < x.len() implies !is_char(op)(#[trigger] t[i]) by {
        assert(t[i] == x[i]);
    }
    lemma_first_where_is(t, is_char(op), x.len() as int);
    assert(t.take(x.len() as int) =~= x);
    assert(t.skip(x.len() as int + 1) =~= y);
    lemma_first_where_is(y, is_char(op), y.len() as int);
    assert(pieces(y, op) =~= seq![y]);
    assert(pieces(t, op) =~= seq![x, y]);
    assert(!white_space(a[0]) && !white_space(a[a.len() - 1]));
    assert(!white_space(b[0]) && !white_space(b[b.len() - 1]));
    lemma_trimmed_around(w1, a, w2);
    lemma_trimmed_around(w3, b, w4);
}

proof fn lemma_earlier_operator(
    w1: Seq<char>,
    a: Seq<char>,
    w2: Seq<char>,
    op: char,
    w3: Seq<char>,
    b: Seq<char>,
    w4: Seq<char>,
    earlier: char,
)
    requires
        is_blank(w1),
        is_blank(w2),
        is_blank(w3),
        is_blank(w4),
        number_shaped(a),
        number_shaped(b),
        op == '-' || op == '*' || op == '/',
        earlier == '+' || earlier == '-' || earlier == '*',
        earlier != op,
    ensures
        calculation(spaced(w1, a, w2, op, w3, b, w4), earlier) matches Some(c) ==> !number_shaped(
            c.left,
        ),
{
    let t = spaced(w1, a, w2, op, w3, b, w4);
    let parts = pieces(t, earlier);
    if parts.len() == 2 {
        let i = first_index(t, earlier) as int;
        lemma_first_where(t, is_char(earlier));
        let n1 = w1.len() as int;
        let n2 = n1 + a.len();
        let n3 = n2 + w2.len();
        let n4 = n3 + 1 + w3.len();
        let n5 = n4 + b.len();
        assert(i < t.len());
        assert(t[i] == earlier);
        let left = t.take(i);
        assert(parts[0] == left);
        if i < n1 {
            assert(t[i] == w1[i]);
        } else if i < n2 {
            assert(t[i] == a[i - n1]);
            if i == n1 {
                assert(left =~= w1);
                lemma_trimmed_ends(left);
            } else {
                assert(left[i - 1] == a[i - n1 - 1]);
                lemma_trimmed_last(left, i - 1);
            }
        } else if i < n3 {
            assert(t[i] == w2[i - n2]);
        } else if i == n3 {
            assert(t[i] == op);
        } else if i < n4 {
            assert(t[i] == w3[i - n3 - 1]);
        } else if i < n5 {
            assert(t[i] == b[i - n4]);
            if i == n4 {
                assert(left[n3] == op);
                assert forall|j: int| n3 < j < left.len() implies white_space(
                    #[trigger] left[j],
                ) by {
                    assert(left[j] == w3[j - n3 - 1]);
                }
                lemma_trimmed_last(left, n3);
                let last = trimmed(left).len() - 1;
                assert(trimmed(left)[last] == op);
            } else {
                assert(left[i - 1] == b[i - n4 - 1]);
                lemma_trimmed_last(left, i - 1);
            }
        } else {
            assert(t[i] == w4[i - n5]);
        }
    }
}

/// Where the operands around an operator are numbers, the calculation with this operator decides: the
/// others have operands that are no numbers.
pub proof fn lemma_operation_decides(
    w1: Seq<char>,
    a: Seq<char>,
    w2: Seq<char>,
    k: int,
    w3: Seq<char>,
    b: Seq<char>,
    w4: Seq<char>,
    reads: spec_fn(CalculationView) -> ReadingView,
)
    requires
        0 <= k < 4,
        is_blank(w1),
        is_blank(w2),
        is_blank(w3),
        is_blank(w4),
        is_arithmetic(reads),
        reads(CalculationView { op: operators()[k], left: a, right: b }) is Numbers,
        !a.contains(operators()[k]),
        !b.contains(operators()[k]),
    ensures
        ({
            let c = CalculationView { op: operators()[k], left: a, right: b };
            calculator_answer(spaced(w1, a, w2, operators()[k], w3, b, w4), reads) == calculated(
                seq![c],
                seq![reads(c)],
            )
        }),
{
    let op = operators()[k];
    let c = CalculationView { op, left: a, right: b };
    let t = spaced(w1, a, w2, op, w3, b, w4);
    let front = operators().take(k);
    let back = operators().skip(k + 1);
    assert(operators() =~= front + (seq![op] + back));
    lemma_calculations_concat(t, front, seq![op] + back);
    lemma_calculations_concat(t, seq![op], back);
    lemma_own_operator(w1, a, w2, op, w3, b, w4);
    assert(seq![op].drop_last() =~= Seq::<char>::empty());
    assert(calculations_with(t, seq![op].drop_last()) =~= Seq::<CalculationView>::empty());
    assert(calculations_with(t, seq![op]) =~= seq![c]);
    assert forall|i: int| 0 <= i < front.len() implies (calculation(t, #[trigger] front[i]) matches
        Some(d) ==> !number_shaped(d.left)) by {
        assert(front[i] == operators()[i]);
        lemma_earlier_operator(w1, a, w2, op, w3, b, w4, front[i]);
    }
    lemma_calculations_malformed(t, front);
    let rest = seq![c] + calculations_with(t, back);
    lemma_skip_malformed(calculations_with(t, front), rest, reads);
    assert(calculations_with(t, operators()) =~= calculations_with(t, front) + rest);
    assert(rest[0] == c);
    assert(rest.map_values(reads)[0] == reads(c));
}

/// White space around the operands of an operation on two numbers leaves the answer as it is.
pub proof fn lemma_white_space_around_operands(
    w1: Seq<char>,
    a: Seq<char>,
    w2: Seq<char>,
    op: char,
    w3: Seq<char>,
    b: Seq<char>,
    w4: Seq<char>,
    reads: spec_fn(CalculationView) -> ReadingView,
)
    requires
        operators().contains(op),
        is_blank(w1),
        is_blank(w2),
        is_blank(w3),
        is_blank(w4),
        is_arithmetic(reads),
        reads(CalculationView { op, left: a, right: b }) is Numbers,
        !a.contains(op),
        !b.contains(op),
    ensures
        calculator_answer(w1 + a + w2 + seq![op] + w3 + b + w4, reads) == calculator_answer(
            a + seq![op] + b,
            reads,
        ),
{
    let k = choose|k: int| 0 <= k < operators().len() && operators()[k] == op;
    let none = Seq::<char>::empty();
    lemma_operation_decides(w1, a, w2, k, w3, b, w4, reads);
    lemma_operation_decides(none, a, none, k, none, b, none, reads);
    assert(spaced(w1, a, w2, op, w3, b, w4) =~= w1 + a + w2 + seq![op] + w3 + b + w4);
    assert(spaced(none, a, none, op, none, b, none) =~= a + seq![op] + b);
}

/// The most dice that are rolled at once.
pub const MAX_DICE: u32 = 100;

/// The most sides that a die has.
pub const MAX_SIDES: u32 = 1000;

/// What is asked of the dice.
#[derive(Debug, Clone, Copy, PartialEq, Eq, Structural)]
pub enum DiceRequest {
    /// The text is no request.
    Malformed,
    /// There are no dice or no sides.
    Zero,
    /// There are too many dice or sides.
    TooMany,
    /// Roll so many dice with so many sides.
    Roll { dice: u32, sides: u32 },
}

/// What a text in lower case asks of the dice: two numbers with a `d` between them.
pub open spec fn dice_request(text: Seq<char>) -> DiceRequest {
    let parts = pieces(text, 'd');
    if parts.len() != 2 {
        DiceRequest::Malformed
    } else {
        match (
            bounded_value(parts[0], u32::MAX as nat),
            bounded_value(parts[1], u32::MAX as nat),
        ) {
            (Some(dice), Some(sides)) => if dice == 0 || sides == 0 {
                DiceRequest::Zero
            } else if dice > MAX_DICE || sides > MAX_SIDES {
                DiceRequest::TooMany
            } else {
                DiceRequest::Roll { dice: dice as u32, sides: sides as u32 }
            },
            _ => DiceRequest::Malformed,
        }
    }
}

/// Reads what a text in lower case asks of the dice.
pub fn parse_dice(text: &str) -> (r: DiceRequest)
    ensures
        r == dice_request(text@),
{
    let parts = split(text, 'd');
    if parts.len() != 2 {
        return DiceRequest::Malformed;
    }
    assert(parts.deep_view()[0] == parts@[0]@);
    assert(parts.deep_view()[1] == parts@[1]@);
    let dice: u64 = match parse_bounded(parts[0].as_str(), u32::MAX as u64) {
        Some(n) => n,
        None => return DiceRequest::Malformed,
    };
    let sides: u64 = match parse_bounded(parts[1].as_str(), u32::MAX as u64) {
        Some(n) => n,
        None => return DiceRequest::Malformed,
    };
    if dice == 0 || sides == 0 {
        DiceRequest::Zero
    } else if dice > MAX_DICE as u64 || sides > MAX_SIDES as u64 {
        DiceRequest::TooMany
    } else {
        DiceRequest::Roll { dice: dice as u32, sides: sides as u32 }
    }
}

/// The sum of some rolls.
pub open spec fn total(rolls: Seq<u32>) -> nat
    decreases rolls.len(),
{
    if rolls.len() == 0 {
        0
    } else {
        total(rolls.drop_last()) + rolls.last() as nat
    }
}

/// The rolls in decimal.
pub open spec fn roll_texts(rolls: Seq<u32>) -> Seq<Seq<char>> {
    rolls.map_values(|n: u32| decimal(n as nat))
}

/// The answer that shows some rolls.
pub open spec fn rolls_answer(rolls: Seq<u32>) -> Seq<char> {
    decimal(total(rolls)) + " (rolls: "@ + joined(roll_texts(rolls), ", "@) + ")"@
}

/// Whether `rolls` can come from so many dice with so many sides.
pub open spec fn can_roll(rolls: Seq<u32>, dice: u32, sides: u32) -> bool {
    &&& rolls.len() == dice
    &&& forall|i: int| 0 <= i < rolls.len() ==> 1 <= #[trigger] rolls[i] <= sides
}

/// The sum of some rolls is at least the number of dice, and at most that number times the sides.
pub proof fn lemma_total_bounds(rolls: Seq<u32>, dice: u32, sides: u32)
    requires
        can_roll(rolls, dice, sides),
    ensures
        dice <= total(rolls) <= dice * sides,
    decreases rolls.len(),
{
    if rolls.len() > 0 {
        let rest = rolls.drop_last();
        lemma_total_bounds(rest, (dice - 1) as u32, sides);
        assert((dice - 1) * sides + sides == dice * sides) by (nonlinear_arith);
    }
}

/// Shows some rolls with their sum.
pub fn show_rolls(rolls: &Vec<u32>) -> (r: String)
    requires
        rolls@.len() <= u32::MAX,
    ensures
        r@ == rolls_answer(rolls@),
{
    let mut sum: u64 = 0;
    let mut list: String = String::new();
    let mut i: usize = 0;
    assert(list@ =~= joined(roll_texts(rolls@.take(0)), ", "@));
    while i < rolls.len()
        invariant
            i <= rolls@.len() <= u32::MAX,
            sum == total(rolls@.take(i as int)),
            sum <= i * u32::MAX,
            list@ == joined(roll_texts(rolls@.take(i as int)), ", "@),
        decreases rolls@.len() - i,
    {
        let roll: u32 = rolls[i];
        proof {
            let before = rolls@.take(i as int);
            let after = rolls@.take(i + 1);
            assert(after.drop_last() =~= before);
            assert(roll_texts(after).drop_last() =~= roll_texts(before));
            assert(roll_texts(after).last() == decimal(roll as nat));
        }
        if i > 0 {
            list.append(", ");
        }
        list.append(unsigned_text(roll as u64).as_str());
        sum += roll as u64;
        i += 1;
    }
    assert(rolls@.take(rolls@.len() as int) =~= rolls@);
    let mut r = plus(unsigned_text(sum).as_str(), " (rolls: ");
    r.append(list.as_str());
    r.append(")");
    r
}

/// Whether the dice can answer `answer` to a text in lower case.
pub open spec fn dice_answer(text: Seq<char>, answer: Seq<char>) -> bool {
    match dice_request(text) {
        DiceRequest::Malformed => answer == "Error: Invalid dice format. Use 'NdM' (e.g., 2d6)"@,
        DiceRequest::Zero => answer == "Error: Number of dice or sides cannot be zero."@,
        DiceRequest::TooMany => answer == "Error: Too many dice or sides. Max 100d1000."@,
        DiceRequest::Roll { dice, sides } => exists|rolls: Seq<u32>|
            can_roll(rolls, dice, sides) && answer == #[trigger] rolls_answer(rolls),
    }
}

/// Rolls the dice that a text asks for, in whatever case it is written.
pub fn parse_and_roll_dice(input: &str) -> (r: String)
    ensures
        dice_answer(lower_case(input@), r@),
{
    let text = to_lower(input);
    match parse_dice(text.as_str()) {
        DiceRequest::Malformed => "Error: Invalid dice format. Use 'NdM' (e.g., 2d6)".to_string(),
        DiceRequest::Zero => "Error: Number of dice or sides cannot be zero.".to_string(),
        DiceRequest::TooMany => "Error: Too many dice or sides. Max 100d1000.".to_string(),
        DiceRequest::Roll { dice, sides } => {
            let mut rolls: Vec<u32> = Vec::new();
            let mut i: u32 = 0;
            while i < dice
                invariant
                    i <= dice,
                    sides >= 1,
                    can_roll(rolls@, i, sides),
                decreases dice - i,
            {
                let roll: u32 = random_die(sides);
                rolls.push(roll);
                i += 1;
            }
            show_rolls(&rolls)
        },
    }
}

} // verus!
