//! Checked integer arithmetic with a recorded history of operations.

use crate::decimal::{decimal, push_decimal, push_signed_decimal, signed_decimal};
use vstd::prelude::*;
use vstd::string::StringExecFns;

verus! {

/// The arithmetic operation of a history entry.
#[derive(Clone, Copy, Debug)]
pub enum OperationType {
    Addition,
    Subtraction,
    Multiplication,
}

impl OperationType {
    /// The sign of the operation as text.
    pub open spec fn sign(self) -> Seq<char> {
        match self {
            OperationType::Addition => seq!['+'],
            OperationType::Subtraction => seq!['-'],
            OperationType::Multiplication => seq!['*'],
        }
    }

    /// The exact mathematical result of the operation, before any range check.
    pub open spec fn exact(self, x: int, y: int) -> int {
        match self {
            OperationType::Addition => x + y,
            OperationType::Subtraction => x - y,
            OperationType::Multiplication => x * y,
        }
    }

    /// Whether the exact result fits in an `i64`.
    pub open spec fn fits(self, x: int, y: int) -> bool {
        i64::MIN <= self.exact(x, y) <= i64::MAX
    }

    /// The sign of the operation: `"+"`, `"-"` or `"*"`.
    pub fn get_sign(&self) -> (s: &str)
        ensures
            s@ == self.sign(),
    {
        proof {
            reveal_strlit("+");
            reveal_strlit("-");
            reveal_strlit("*");
        }
        let s: &'static str = match self {
            OperationType::Addition => "+",
            OperationType::Subtraction => "-",
            OperationType::Multiplication => "*",
        };
        assert(s@ =~= self.sign());
        s
    }

    /// Applies the operation to `x` and `y`. The result is the exact one
    /// where that fits in an `i64`, and `None` where it does not.
    pub fn perform(&self, x: i64, y: i64) -> (r: Option<i64>)
        ensures
            r is Some <==> self.fits(x as int, y as int),
            r is Some ==> r->0 == self.exact(x as int, y as int),
    {
        match self {
            OperationType::Addition => x.checked_add(y),
            OperationType::Subtraction => x.checked_sub(y),
            OperationType::Multiplication => x.checked_mul(y),
        }
    }
}

/// One entry of the history: two operands and what was done with them.
#[derive(Clone, Copy, Debug)]
pub struct Operation {
    pub first_num: i64,
    pub second_num: i64,
    pub operation_type: OperationType,
}

impl Operation {
    /// The exact result of the entry.
    pub open spec fn exact(self) -> int {
        self.operation_type.exact(self.first_num as int, self.second_num as int)
    }

    /// Whether the entry's result fits in an `i64`.
    pub open spec fn fits(self) -> bool {
        self.operation_type.fits(self.first_num as int, self.second_num as int)
    }

    /// The line that the history shows for the entry at position `index`:
    /// the position, the operands around the sign, and the result. An entry
    /// whose result does not fit has no line.
    pub open spec fn line(self, index: nat) -> Seq<char> {
        if self.fits() {
            decimal(index) + seq![':', ' '] + signed_decimal(self.first_num as int) + seq![' ']
                + self.operation_type.sign() + seq![' '] + signed_decimal(self.second_num as int)
                + seq![' ', '=', ' '] + signed_decimal(self.exact()) + seq!['\n']
        } else {
            Seq::empty()
        }
    }

    pub fn new(first_num: i64, second_num: i64, operation_type: OperationType) -> (op: Self)
        ensures
            op == (Operation { first_num, second_num, operation_type }),
    {
        Self { first_num, second_num, operation_type }
    }
}

/// The lines of the first `count` entries of `history`, in order.
pub open spec fn history_text(history: Seq<Operation>, count: nat) -> Seq<char>
    recommends
        count <= history.len(),
    decreases count,
{
    if count == 0 {
        Seq::empty()
    } else {
        history_text(history, (count - 1) as nat) + history[count - 1].line((count - 1) as nat)
    }
}

/// A calculator that remembers every operation it carried out.
pub struct Calculator {
    pub history: Vec<Operation>,
}

impl Calculator {
    /// What `calculate` does to a history: a successful operation is added at
    /// the end, a failed one leaves it as it was.
    pub open spec fn recorded(history: Seq<Operation>, op: Operation) -> Seq<Operation> {
        if op.fits() {
            history.push(op)
        } else {
            history
        }
    }

    /// A calculator with an empty history.
    pub fn new() -> (c: Self)
        ensures
            c.history@ == Seq::<Operation>::empty(),
    {
        Self { history: Vec::new() }
    }

    /// Carries out `op`, and records it where it succeeds.
    fn calculate(&mut self, op: Operation) -> (r: Option<i64>)
        ensures
            r is Some <==> op.fits(),
            r is Some ==> r->0 == op.exact(),
            final(self).history@ == Self::recorded(old(self).history@, op),
    {
        match op.operation_type.perform(op.first_num, op.second_num) {
            Some(result) => {
                self.history.push(op);
                Some(result)
            },
            None => None,
        }
    }

    /// Adds `y` to `x`. On success the sum is returned and the operation
    /// recorded; on overflow the result is `None` and the history unchanged.
    pub fn addition(&mut self, x: i64, y: i64) -> (r: Option<i64>)
        ensures
            r is Some <==> i64::MIN <= x + y <= i64::MAX,
            r is Some ==> r->0 == x + y,
            final(self).history@ == Self::recorded(
                old(self).history@,
                Operation { first_num: x, second_num: y, operation_type: OperationType::Addition },
            ),
    {
        self.calculate(Operation::new(x, y, OperationType::Addition))
    }

    /// Subtracts `y` from `x`. On success the difference is returned and the
    /// operation recorded; on overflow the result is `None` and the history
    /// unchanged.
    pub fn subtraction(&mut self, x: i64, y: i64) -> (r: Option<i64>)
        ensures
            r is Some <==> i64::MIN <= x - y <= i64::MAX,
            r is Some ==> r->0 == x - y,
            final(self).history@ == Self::recorded(
                old(self).history@,
                Operation {
                    first_num: x,
                    second_num: y,
                    operation_type: OperationType::Subtraction,
                },
            ),
    {
        self.calculate(Operation::new(x, y, OperationType::Subtraction))
    }

    /// Multiplies `x` by `y`. On success the product is returned and the
    /// operation recorded; on overflow the result is `None` and the history
    /// unchanged.
    pub fn multiplication(&mut self, x: i64, y: i64) -> (r: Option<i64>)
        ensures
            r is Some <==> i64::MIN <= x * y <= i64::MAX,
            r is Some ==> r->0 == x * y,
            final(self).history@ == Self::recorded(
                old(self).history@,
                Operation {
                    first_num: x,
                    second_num: y,
                    operation_type: OperationType::Multiplication,
                },
            ),
    {
        self.calculate(Operation::new(x, y, OperationType::Multiplication))
    }

    /// The line of the entry `op` at position `index`, whose result is `result`.
    fn format_entry(index: usize, op: Operation, result: i64) -> (text: String)
        requires
            op.fits(),
            result == op.exact(),
        ensures
            text@ == op.line(index as nat),
    {
        proof {
            reveal_strlit(": ");
            reveal_strlit(" ");
            reveal_strlit(" = ");
            reveal_strlit("\n");
        }
        let mut text = String::new();
        push_decimal(&mut text, index as u64);
        assert(text@ =~= decimal(index as nat));
        text.append(": ");
        push_signed_decimal(&mut text, op.first_num);
        text.append(" ");
        text.append(op.operation_type.get_sign());
        text.append(" ");
        push_signed_decimal(&mut text, op.second_num);
        text.append(" = ");
        push_signed_decimal(&mut text, result);
        text.append("\n");
        text
    }

    /// The history as text, one line for each entry whose result fits:
    /// `"index: first sign second = result\n"`.
    pub fn show_history(&self) -> (output: String)
        ensures
            output@ == history_text(self.history@, self.history@.len()),
    {
        let mut output = String::new();
        let mut i: usize = 0;
        while i < self.history.len()
            invariant
                i <= self.history@.len(),
                output@ == history_text(self.history@, i as nat),
            decreases self.history@.len() - i,
        {
            let op = self.history[i];
            match op.operation_type.perform(op.first_num, op.second_num) {
                Some(result) => {
                    let text = Self::format_entry(i, op, result);
                    output.append(text.as_str());
                },
                None => {
                    assert(output@ + op.line(i as nat) =~= output@);
                },
            }
            i += 1;
        }
        output
    }

    /// Carries out the entry at `operation_index` once more. The result is
    /// returned and the entry recorded again at the end; where there is no
    /// such entry, or its result does not fit, the result is `None` and the
    /// history unchanged.
    pub fn repeat(&mut self, operation_index: usize) -> (r: Option<i64>)
        ensures
            r is Some <==> operation_index < old(self).history@.len() && old(
                self,
            ).history@[operation_index as int].fits(),
            r is Some ==> r->0 == old(self).history@[operation_index as int].exact(),
            r is Some ==> final(self).history@ == old(self).history@.push(
                old(self).history@[operation_index as int],
            ),
            r is None ==> final(self).history@ == old(self).history@,
    {
        if operation_index < self.history.len() {
            let op = self.history[operation_index];
            self.calculate(op)
        } else {
            None
        }
    }

    /// Forgets every recorded operation.
    pub fn clear_history(&mut self)
        ensures
            final(self).history@ == Seq::<Operation>::empty(),
    {
        self.history.clear();
    }
}

} // verus!
