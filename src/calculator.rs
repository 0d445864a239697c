//! A checked integer calculator that keeps the history of its successful
//! operations and can print or repeat them.

use vstd::prelude::*;
use vstd::string::StringExecFns;

verus! {

#[derive(Clone, Copy, Debug, PartialEq, Eq, Structural)]
pub enum OperationType {
    Addition,
    Subtraction,
    Multiplication,
}

/// The exact value of the operation on two integers.
pub open spec fn exact(op: OperationType, x: int, y: int) -> int {
    match op {
        OperationType::Addition => x + y,
        OperationType::Subtraction => x - y,
        OperationType::Multiplication => x * y,
    }
}

/// The result of the operation: its exact value where that fits in `i64`.
pub open spec fn checked(op: OperationType, x: i64, y: i64) -> Option<i64> {
    let v = exact(op, x as int, y as int);
    if i64::MIN <= v <= i64::MAX {
        Some(v as i64)
    } else {
        None
    }
}

/// The sign that stands for the operation.
pub open spec fn sign_of(op: OperationType) -> Seq<char> {
    match op {
        OperationType::Addition => seq!['+'],
        OperationType::Subtraction => seq!['-'],
        OperationType::Multiplication => seq!['*'],
    }
}

impl OperationType {
    /// The sign of the operation: `+`, `-` or `*`.
    pub fn get_sign(&self) -> (r: &'static str)
        ensures
            r@ == sign_of(*self),
    {
        match self {
            OperationType::Addition => {
                proof {
                    reveal_strlit("+");
                }
                "+"
            },
            OperationType::Subtraction => {
                proof {
                    reveal_strlit("-");
                }
                "-"
            },
            OperationType::Multiplication => {
                proof {
                    reveal_strlit("*");
                }
                "*"
            },
        }
    }

    /// Applies the operation, or gives `None` where the result overflows.
    pub fn perform(&self, x: i64, y: i64) -> (r: Option<i64>)
        ensures
            r == checked(*self, x, y),
    {
        match self {
            OperationType::Addition => x.checked_add(y),
            OperationType::Subtraction => x.checked_sub(y),
            OperationType::Multiplication => x.checked_mul(y),
        }
    }
}

/// One operation of the history.
#[derive(Clone, Copy, Debug, PartialEq, Eq, Structural)]
pub struct Operation {
    pub first_num: i64,
    pub second_num: i64,
    pub operation_type: OperationType,
}

impl Operation {
    pub fn new(first_num: i64, second_num: i64, operation_type: OperationType) -> (r: Operation)
        ensures
            r == (Operation { first_num, second_num, operation_type }),
    {
        Operation { first_num, second_num, operation_type }
    }
}

/// The calculator and the operations it carried out, oldest first.
pub struct Calculator {
    pub history: Vec<Operation>,
}

impl View for Calculator {
    type V = Seq<Operation>;

    open spec fn view(&self) -> Seq<Operation> {
        self.history@
    }
}

/// The decimal digit of a value below ten.
pub open spec fn digit_char(d: nat) -> char {
    if d == 0 {
        '0'
    } else if d == 1 {
        '1'
    } else if d == 2 {
        '2'
    } else if d == 3 {
        '3'
    } else if d == 4 {
        '4'
    } else if d == 5 {
        '5'
    } else if d == 6 {
        '6'
    } else if d == 7 {
        '7'
    } else if d == 8 {
        '8'
    } else {
        '9'
    }
}

/// The decimal digits of a natural number, without leading zeros.
pub open spec fn decimal(n: nat) -> Seq<char>
    decreases n,
{
    if n < 10 {
        seq![digit_char(n)]
    } else {
        decimal(n / 10) + seq![digit_char(n % 10)]
    }
}

/// An integer in decimal, with a leading `-` when negative.
pub open spec fn signed_decimal(n: int) -> Seq<char> {
    if n < 0 {
        seq!['-'] + decimal((-n) as nat)
    } else {
        decimal(n as nat)
    }
}

/// The line that shows the operation at `index`: `index: x sign y = result`
/// and a newline, or nothing where the operation overflows.
pub open spec fn history_line(index: nat, op: Operation) -> Seq<char> {
    match checked(op.operation_type, op.first_num, op.second_num) {
        Some(v) => decimal(index) + seq![':', ' '] + signed_decimal(op.first_num as int) + seq![' '] + sign_of(
            op.operation_type,
        ) + seq![' '] + signed_decimal(op.second_num as int) + seq![' ', '=', ' '] + signed_decimal(v as int)
            + seq!['\n'],
        None => Seq::empty(),
    }
}

/// The lines of a history, one after another.
pub open spec fn history_text(h: Seq<Operation>) -> Seq<char>
    decreases h.len(),
{
    if h.len() == 0 {
        Seq::empty()
    } else {
        history_text(h.drop_last()) + history_line((h.len() - 1) as nat, h.last())
    }
}

fn append_digit(out: &mut String, d: u64)
    requires
        d < 10,
    ensures
        final(out)@ == old(out)@ + seq![digit_char(d as nat)],
{
    let s: &str = if d == 0 {
        proof { reveal_strlit("0"); }
        "0"
    } else if d == 1 {
        proof { reveal_strlit("1"); }
        "1"
    } else if d == 2 {
        proof { reveal_strlit("2"); }
        "2"
    } else if d == 3 {
        proof { reveal_strlit("3"); }
        "3"
    } else if d == 4 {
        proof { reveal_strlit("4"); }
        "4"
    } else if d == 5 {
        proof { reveal_strlit("5"); }
        "5"
    } else if d == 6 {
        proof { reveal_strlit("6"); }
        "6"
    } else if d == 7 {
        proof { reveal_strlit("7"); }
        "7"
    } else if d == 8 {
        proof { reveal_strlit("8"); }
        "8"
    } else {
        proof { reveal_strlit("9"); }
        "9"
    };
    assert(s@ =~= seq![digit_char(d as nat)]);
    out.append(s);
}

fn append_unsigned(out: &mut String, n: u64)
    ensures
        final(out)@ == old(out)@ + decimal(n as nat),
    decreases n,
{
    if n >= 10 {
        append_unsigned(out, n / 10);
        append_digit(out, n % 10);
        assert(final(out)@ =~= old(out)@ + decimal(n as nat));
    } else {
        append_digit(out, n);
    }
}

fn append_signed(out: &mut String, n: i64)
    ensures
        final(out)@ == old(out)@ + signed_decimal(n as int),
{
    if n < 0 {
        proof {
            reveal_strlit("-");
        }
        out.append("-");
        let magnitude: u64 = if n == i64::MIN {
            9223372036854775808u64
        } else {
            (-n) as u64
        };
        append_unsigned(out, magnitude);
        assert(final(out)@ =~= old(out)@ + signed_decimal(n as int));
    } else {
        append_unsigned(out, n as u64);
    }
}

impl Calculator {
    /// A calculator with an empty history.
    pub fn new() -> (r: Calculator)
        ensures
            r@ == Seq::<Operation>::empty(),
    {
        Calculator { history: Vec::new() }
    }

    fn apply(&mut self, op: OperationType, x: i64, y: i64) -> (r: Option<i64>)
        ensures
            r == checked(op, x, y),
            r is Some ==> final(self)@ == old(self)@.push(Operation { first_num: x, second_num: y, operation_type: op }),
            r is None ==> final(self)@ == old(self)@,
    {
        let result = op.perform(x, y);
        if result.is_some() {
            self.history.push(Operation::new(x, y, op));
        }
        result
    }

    /// Adds, and records the operation when the sum fits.
    pub fn addition(&mut self, x: i64, y: i64) -> (r: Option<i64>)
        ensures
            r == checked(OperationType::Addition, x, y),
            r is Some ==> final(self)@ == old(self)@.push(
                Operation { first_num: x, second_num: y, operation_type: OperationType::Addition },
            ),
            r is None ==> final(self)@ == old(self)@,
    {
        self.apply(OperationType::Addition, x, y)
    }

    /// Subtracts, and records the operation when the difference fits.
    pub fn subtraction(&mut self, x: i64, y: i64) -> (r: Option<i64>)
        ensures
            r == checked(OperationType::Subtraction, x, y),
            r is Some ==> final(self)@ == old(self)@.push(
                Operation { first_num: x, second_num: y, operation_type: OperationType::Subtraction },
            ),
            r is None ==> final(self)@ == old(self)@,
    {
        self.apply(OperationType::Subtraction, x, y)
    }

    /// Multiplies, and records the operation when the product fits.
    pub fn multiplication(&mut self, x: i64, y: i64) -> (r: Option<i64>)
        ensures
            r == checked(OperationType::Multiplication, x, y),
            r is Some ==> final(self)@ == old(self)@.push(
                Operation { first_num: x, second_num: y, operation_type: OperationType::Multiplication },
            ),
            r is None ==> final(self)@ == old(self)@,
    {
        self.apply(OperationType::Multiplication, x, y)
    }

    /// Shows the history, one line per operation: `index: x sign y = result`.
    pub fn show_history(&self) -> (r: String)
        ensures
            r@ == history_text(self@),
    {
        let mut out = String::new();
        let mut i: usize = 0;
        while i < self.history.len()
            invariant
                0 <= i <= self@.len(),
                out@ == history_text(self@.take(i as int)),
            decreases self@.len() - i,
        {
            let op = self.history[i];
            let ghost before = out@;
            assert(self@.take(i as int + 1).drop_last() =~= self@.take(i as int));
            match op.operation_type.perform(op.first_num, op.second_num) {
                Some(v) => {
                    proof {
                        reveal_strlit(": ");
                        reveal_strlit(" ");
                        reveal_strlit(" = ");
                        reveal_strlit("\n");
                    }
                    append_unsigned(&mut out, i as u64);
                    out.append(": ");
                    append_signed(&mut out, op.first_num);
                    out.append(" ");
                    out.append(op.operation_type.get_sign());
                    out.append(" ");
                    append_signed(&mut out, op.second_num);
                    out.append(" = ");
                    append_signed(&mut out, v);
                    out.append("\n");
                    assert(out@ =~= before + history_line(i as nat, op));
                },
                None => {
                    assert(history_line(i as nat, op) =~= Seq::<char>::empty());
                    assert(out@ =~= before + history_line(i as nat, op));
                },
            }
            i = i + 1;
        }
        assert(self@.take(self@.len() as int) =~= self@);
        out
    }

    /// Carries out again the operation at `operation_index` and records it
    /// when it succeeds; an index past the history gives `None`.
    pub fn repeat(&mut self, operation_index: usize) -> (r: Option<i64>)
        ensures
            operation_index >= old(self)@.len() ==> r is None && final(self)@ == old(self)@,
            operation_index < old(self)@.len() ==> {
                let op = old(self)@[operation_index as int];
                &&& r == checked(op.operation_type, op.first_num, op.second_num)
                &&& r is Some ==> final(self)@ == old(self)@.push(op)
                &&& r is None ==> final(self)@ == old(self)@
            },
    {
        if operation_index >= self.history.len() {
            return None;
        }
        let op = self.history[operation_index];
        self.apply(op.operation_type, op.first_num, op.second_num)
    }

    /// Forgets every operation.
    pub fn clear_history(&mut self)
        ensures
            final(self)@ == Seq::<Operation>::empty(),
    {
        self.history.clear();
    }
}

} // verus!
