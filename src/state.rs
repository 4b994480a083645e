use vstd::prelude::*;
use crate::operator::Operator;

verus! {

/// What a calculator holds, as mathematical values: the active number as
/// shown, the running formula, the rendered left operand and the operator of
/// a pending operation, and whether the next digit starts a fresh number.
pub struct CalcState {
    pub display: Seq<char>,
    pub formula: Seq<char>,
    pub operand: Option<Seq<char>>,
    pub operator: Option<Operator>,
    pub should_reset: bool,
}

pub open spec fn zero_text() -> Seq<char> {
    seq!['0']
}

/// A formula that records a completed calculation.
pub open spec fn is_terminal(f: Seq<char>) -> bool {
    f.len() > 0 && f.last() == '='
}

/// The formula of a pending operation: `"<left> <symbol>"` while its right
/// operand has not been started, `"<left> <symbol> <right>"` after.
pub open spec fn pending_formula(left: Seq<char>, op: Operator, right: Option<Seq<char>>) -> Seq<char> {
    match right {
        Some(r) => left + seq![' '] + op.symbol() + seq![' '] + r,
        None => left + seq![' '] + op.symbol(),
    }
}

/// The formula of a completed calculation: `"<left> <symbol> <right> ="`.
pub open spec fn terminal_formula(left: Seq<char>, op: Operator, right: Seq<char>) -> Seq<char> {
    pending_formula(left, op, Some(right)) + seq![' ', '=']
}

impl CalcState {
    /// The state of a new or cleared calculator.
    pub open spec fn initial() -> CalcState {
        CalcState {
            display: zero_text(),
            formula: Seq::empty(),
            operand: None,
            operator: None,
            should_reset: false,
        }
    }

    /// The active number is never empty, and an operator is pending exactly
    /// when a left operand is held for it.
    pub open spec fn wf(self) -> bool {
        &&& self.display.len() > 0
        &&& self.operand.is_some() == self.operator.is_some()
    }

    /// The formula as every event but `=` leaves it.
    pub open spec fn next_formula(self) -> Seq<char> {
        if self.operand is Some && self.operator is Some {
            pending_formula(
                self.operand->0,
                self.operator->0,
                if self.should_reset { None } else { Some(self.display) },
            )
        } else if is_terminal(self.formula) {
            self.formula
        } else if self.display != zero_text() {
            self.display
        } else {
            Seq::empty()
        }
    }

    pub open spec fn with_formula(self) -> CalcState {
        CalcState { formula: self.next_formula(), ..self }
    }

    /// A digit `d` entered: it replaces a fresh or zero number, else extends it.
    pub open spec fn after_digit(self, d: Seq<char>) -> CalcState {
        let display = if self.should_reset || self.display == zero_text() {
            d
        } else {
            self.display + d
        };
        CalcState { display, should_reset: false, ..self }.with_formula()
    }

    /// The decimal point entered: a fresh number becomes `"0."`, a number
    /// without a point gets one, and a number with one is kept.
    pub open spec fn after_decimal(self) -> CalcState {
        if self.should_reset {
            CalcState { display: seq!['0', '.'], should_reset: false, ..self }.with_formula()
        } else if !self.display.contains('.') {
            CalcState { display: self.display + seq!['.'], ..self }.with_formula()
        } else {
            self.with_formula()
        }
    }

    /// The result of a calculation, rendered as `text`, shown as the active
    /// number.
    pub open spec fn after_result(self, text: Seq<char>) -> CalcState {
        CalcState { display: text, ..self }
    }

    /// Operator `op` chosen, with the active number, rendered as `left`, as its
    /// left operand.
    pub open spec fn after_operator(self, op: Operator, left: Seq<char>) -> CalcState {
        CalcState {
            operand: Some(left),
            operator: Some(op),
            should_reset: true,
            ..self
        }.with_formula()
    }

    /// `=` pressed, with the result of the pending operation rendered as
    /// `result`; nothing happens when no operation is pending.
    pub open spec fn after_equals(self, result: Seq<char>) -> CalcState {
        if self.operand is Some && self.operator is Some {
            CalcState {
                display: result,
                formula: terminal_formula(self.operand->0, self.operator->0, self.display),
                operand: None,
                operator: None,
                should_reset: true,
            }
        } else {
            self
        }
    }

    /// The last character of the active number removed, or everything reset
    /// when the number is a single character or has not been started.
    pub open spec fn after_backspace(self) -> CalcState {
        if !self.should_reset && self.display.len() > 1 {
            CalcState { display: self.display.drop_last(), ..self }.with_formula()
        } else {
            CalcState::initial()
        }
    }
}

} // verus!
