use vstd::prelude::*;

verus! {

/// A binary operator of the calculator.
#[derive(Clone, Copy, Debug, PartialEq, Eq, Structural)]
pub enum Operator {
    Add,
    Subtract,
    Multiply,
    Divide,
}

impl Operator {
    /// The symbol written for the operator in a formula.
    pub open spec fn symbol(self) -> Seq<char> {
        match self {
            Operator::Add => seq!['+'],
            Operator::Subtract => seq!['-'],
            Operator::Multiply => seq!['×'],
            Operator::Divide => seq!['÷'],
        }
    }

    pub fn to_symbol(&self) -> (r: &'static str)
        ensures
            r@ == self.symbol(),
    {
        match self {
            Operator::Add => {
                proof {
                    reveal_strlit("+");
                }
                "+"
            },
            Operator::Subtract => {
                proof {
                    reveal_strlit("-");
                }
                "-"
            },
            Operator::Multiply => {
                proof {
                    reveal_strlit("×");
                }
                "×"
            },
            Operator::Divide => {
                proof {
                    reveal_strlit("÷");
                }
                "÷"
            },
        }
    }
}

} // verus!
