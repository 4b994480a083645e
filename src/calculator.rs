use vstd::prelude::*;
use crate::operator::Operator;
use crate::state::{CalcState, terminal_formula, zero_text};
use crate::text::{ends_with_char, has_char, is_single, without_last};

verus! {

/// A calculator: the active number as shown, the running formula, a pending
/// operation (its left operand as shown, and its operator), and whether the
/// next digit starts a fresh number.
pub struct Calculator {
    display: String,
    formula: String,
    pending: Option<(String, Operator)>,
    should_reset: bool,
}

impl View for Calculator {
    type V = CalcState;

    closed spec fn view(&self) -> CalcState {
        CalcState {
            display: self.display@,
            formula: self.formula@,
            operand: match self.pending {
                Some(p) => Some(p.0@),
                None => None,
            },
            operator: match self.pending {
                Some(p) => Some(p.1),
                None => None,
            },
            should_reset: self.should_reset,
        }
    }
}

impl Calculator {
    pub fn new() -> (r: Calculator)
        ensures
            r@ == CalcState::initial(),
    {
        proof {
            reveal_strlit("0");
        }
        let r = Calculator {
            display: String::from_str("0"),
            formula: String::new(),
            pending: None,
            should_reset: false,
        };
        assert(r@.display =~= zero_text());
        r
    }

    /// The active number.
    pub fn display(&self) -> (r: &str)
        ensures
            r@ == self@.display,
    {
        self.display.as_str()
    }

    /// The running formula.
    pub fn formula(&self) -> (r: &str)
        ensures
            r@ == self@.formula,
    {
        self.formula.as_str()
    }

    /// The operator of the pending operation.
    pub fn operator(&self) -> (r: Option<Operator>)
        ensures
            r == self@.operator,
    {
        match &self.pending {
            Some(p) => Some(p.1),
            None => None,
        }
    }

    /// Whether the next digit starts a fresh number.
    pub fn should_reset(&self) -> (r: bool)
        ensures
            r == self@.should_reset,
    {
        self.should_reset
    }

    /// Recomputes the formula from the rest of the state.
    pub fn update_formula(&mut self)
        ensures
            final(self)@ == old(self)@.with_formula(),
    {
        let next: Option<String> = match &self.pending {
            Some(p) => {
                proof {
                    reveal_strlit(" ");
                }
                let mut f = p.0.clone();
                f.append(" ");
                f.append(p.1.to_symbol());
                if !self.should_reset {
                    f.append(" ");
                    f.append(self.display.as_str());
                }
                assert(f@ =~= old(self)@.next_formula());
                Some(f)
            },
            None => {
                if ends_with_char(self.formula.as_str(), '=') {
                    None
                } else if !is_single(self.display.as_str(), '0') {
                    Some(self.display.clone())
                } else {
                    Some(String::new())
                }
            },
        };
        if let Some(f) = next {
            self.formula = f;
        }
    }

    /// Enters one decimal digit.
    pub fn input_digit(&mut self, digit: &str)
        requires
            digit@.len() == 1,
            '0' <= digit@[0] <= '9',
        ensures
            final(self)@ == old(self)@.after_digit(digit@),
    {
        if self.should_reset {
            self.display = String::from_str(digit);
            self.should_reset = false;
        } else if is_single(self.display.as_str(), '0') {
            self.display = String::from_str(digit);
        } else {
            self.display.append(digit);
        }
        self.update_formula();
    }

    /// Enters the decimal point; a number takes at most one.
    pub fn input_decimal(&mut self)
        ensures
            final(self)@ == old(self)@.after_decimal(),
    {
        proof {
            reveal_strlit("0.");
            reveal_strlit(".");
        }
        if self.should_reset {
            self.display = String::from_str("0.");
            self.should_reset = false;
            assert(self.display@ =~= seq!['0', '.']);
        } else if !has_char(self.display.as_str(), '.') {
            self.display.append(".");
            assert(self.display@ =~= old(self).display@ + seq!['.']);
        }
        self.update_formula();
    }

    /// Chooses `op` as the pending operator, with the active number as its left
    /// operand; `left` is that number as rendered by the caller.
    pub fn set_operator(&mut self, op: Operator, left: String)
        ensures
            final(self)@ == old(self)@.after_operator(op, left@),
    {
        self.pending = Some((left, op));
        self.should_reset = true;
        self.update_formula();
    }

    /// Shows `text`, the rendered result of a calculation, as the active
    /// number.
    pub fn show_result(&mut self, text: String)
        requires
            text@.len() > 0,
        ensures
            final(self)@ == old(self)@.after_result(text@),
    {
        self.display = text;
    }

    /// Completes the pending operation, whose result the caller rendered as
    /// `result`: the formula records the calculation, the result is shown, and
    /// no operation is pending any more. Without a pending operation nothing
    /// changes.
    pub fn equals(&mut self, result: String)
        requires
            result@.len() > 0,
        ensures
            final(self)@ == old(self)@.after_equals(result@),
    {
        let terminal: Option<String> = match &self.pending {
            Some(p) => {
                proof {
                    reveal_strlit(" ");
                    reveal_strlit(" =");
                }
                let mut f = p.0.clone();
                f.append(" ");
                f.append(p.1.to_symbol());
                f.append(" ");
                f.append(self.display.as_str());
                f.append(" =");
                assert(f@ =~= terminal_formula(p.0@, p.1, self.display@));
                Some(f)
            },
            None => None,
        };
        if let Some(f) = terminal {
            self.formula = f;
            self.display = result;
            self.pending = None;
            self.should_reset = true;
        }
    }

    /// Resets every part of the state.
    pub fn clear(&mut self)
        ensures
            final(self)@ == CalcState::initial(),
    {
        proof {
            reveal_strlit("0");
        }
        self.display = String::from_str("0");
        self.formula = String::new();
        self.pending = None;
        self.should_reset = false;
        assert(self@.display =~= zero_text());
    }

    /// Removes the last character of the active number; clears everything
    /// when the number is a single character or has not been started.
    pub fn backspace(&mut self)
        ensures
            final(self)@ == old(self)@.after_backspace(),
    {
        if !self.should_reset && self.display.as_str().unicode_len() > 1 {
            self.display = without_last(self.display.as_str());
            self.update_formula();
        } else {
            self.clear();
        }
    }
}

} // verus!
