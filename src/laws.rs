use vstd::prelude::*;
use crate::operator::Operator;
use crate::state::{CalcState, terminal_formula, zero_text};

verus! {

/// `ds` without its leading zeros.
pub open spec fn without_leading_zeros(ds: Seq<char>) -> Seq<char>
    decreases ds.len(),
{
    if ds.len() > 0 && ds[0] == '0' {
        without_leading_zeros(ds.drop_first())
    } else {
        ds
    }
}

/// The number shown after the digits `ds` are typed into a fresh number.
pub open spec fn typed_number(ds: Seq<char>) -> Seq<char> {
    if without_leading_zeros(ds).len() == 0 {
        zero_text()
    } else {
        without_leading_zeros(ds)
    }
}

pub open spec fn is_digit(c: char) -> bool {
    '0' <= c <= '9'
}

/// The state after each character of `ds` is entered as a digit, in order.
pub open spec fn after_digits(s: CalcState, ds: Seq<char>) -> CalcState
    decreases ds.len(),
{
    if ds.len() == 0 {
        s
    } else {
        after_digits(s, ds.drop_last()).after_digit(seq![ds.last()])
    }
}

proof fn lemma_leading_zeros_concat(a: Seq<char>, b: Seq<char>)
    ensures
        without_leading_zeros(a + b) == if without_leading_zeros(a).len() == 0 {
            without_leading_zeros(b)
        } else {
            without_leading_zeros(a) + b
        },
    decreases a.len(),
{
    if a.len() > 0 {
        assert((a + b)[0] == a[0]);
        if a[0] == '0' {
            assert((a + b).drop_first() =~= a.drop_first() + b);
            lemma_leading_zeros_concat(a.drop_first(), b);
        }
    } else {
        assert(a + b =~= b);
    }
}

proof fn lemma_leading_zeros_first(ds: Seq<char>)
    ensures
        without_leading_zeros(ds).len() > 0 ==> without_leading_zeros(ds)[0] != '0',
    decreases ds.len(),
{
    if ds.len() > 0 && ds[0] == '0' {
        lemma_leading_zeros_first(ds.drop_first());
    }
}

/// Digits typed into a fresh number (one that is `"0"` or is about to be
/// replaced) are shown as typed, without leading zeros, and `"0"` when they
/// are all zeros. The pending operation is kept, and the number is no longer
/// fresh.
pub proof fn lemma_digits_concatenate(s: CalcState, ds: Seq<char>)
    requires
        s.should_reset || s.display == zero_text(),
        ds.len() > 0,
        forall|i: int| 0 <= i < ds.len() ==> is_digit(#[trigger] ds[i]),
    ensures
        after_digits(s, ds).display == typed_number(ds),
        after_digits(s, ds).operand == s.operand,
        after_digits(s, ds).operator == s.operator,
        !after_digits(s, ds).should_reset,
    decreases ds.len(),
{
    let d = seq![ds.last()];
    let init = ds.drop_last();
    assert(init + d =~= ds);
    lemma_leading_zeros_concat(init, d);
    if init.len() == 0 {
        assert(after_digits(s, init) == s);
        assert(init + d =~= d);
    } else {
        assert forall|i: int| 0 <= i < init.len() implies is_digit(#[trigger] init[i]) by {
            assert(init[i] == ds[i]);
        }
        lemma_digits_concatenate(s, init);
        lemma_leading_zeros_first(init);
        if without_leading_zeros(init).len() > 0 {
            assert(without_leading_zeros(init)[0] != zero_text()[0]);
            assert(without_leading_zeros(init) != zero_text());
        }
    }
    if ds.last() == '0' {
        assert(without_leading_zeros(d) =~= Seq::<char>::empty()) by {
            assert(d[0] == '0');
            assert(d.drop_first() =~= Seq::<char>::empty());
            assert(without_leading_zeros(Seq::<char>::empty()) == Seq::<char>::empty());
        }
    }
}

/// Entering the decimal point a second time in a row changes nothing.
pub proof fn lemma_decimal_idempotent(s: CalcState)
    ensures
        s.after_decimal().after_decimal() == s.after_decimal(),
{
    let t = s.after_decimal();
    if s.should_reset {
        assert(seq!['0', '.'][1] == '.');
    } else if !s.display.contains('.') {
        assert((s.display + seq!['.'])[s.display.len() as int] == '.');
    }
    assert(t.display.contains('.'));
    assert(!t.should_reset);
    assert(t.with_formula() == t);
}

/// Every event keeps the state well formed, from the initial state on: the
/// active number is never empty, and an operator is pending exactly when its
/// left operand is held.
pub proof fn lemma_events_keep_wf(s: CalcState, d: Seq<char>, op: Operator, left: Seq<char>, text: Seq<char>)
    requires
        s.wf(),
        d.len() == 1,
        text.len() > 0,
    ensures
        CalcState::initial().wf(),
        s.after_digit(d).wf(),
        s.after_decimal().wf(),
        s.after_operator(op, left).wf(),
        s.after_result(text).wf(),
        s.after_equals(text).wf(),
        s.after_backspace().wf(),
{
}

/// A chained calculation: after the result of a pending operation, rendered as
/// `r`, becomes the left operand of `op`, and the digits `ds` are typed, `=`
/// records `"<r> <op> <ds> ="`, with `ds` shown as typed.
pub proof fn lemma_chained_formula(s: CalcState, r: Seq<char>, op: Operator, ds: Seq<char>, result: Seq<char>)
    requires
        ds.len() > 0,
        forall|i: int| 0 <= i < ds.len() ==> is_digit(#[trigger] ds[i]),
    ensures
        after_digits(s.after_result(r).after_operator(op, r), ds).after_equals(result).formula
            == terminal_formula(r, op, typed_number(ds)),
        after_digits(s.after_result(r).after_operator(op, r), ds).after_equals(result).display
            == result,
        after_digits(s.after_result(r).after_operator(op, r), ds).after_equals(result).operator
            is None,
{
    lemma_digits_concatenate(s.after_result(r).after_operator(op, r), ds);
}

} // verus!
