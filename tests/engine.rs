use calculator::{trim_decimal, Calculator, Operator};

fn type_digits(c: &mut Calculator, digits: &str) {
    for d in digits.chars() {
        c.input_digit(&d.to_string());
    }
}

#[test]
fn new_calculator_shows_zero() {
    let c = Calculator::new();
    assert_eq!(c.display(), "0");
    assert_eq!(c.formula(), "");
    assert_eq!(c.operator(), None);
    assert!(!c.should_reset());
}

#[test]
fn clear_resets_everything() {
    let mut c = Calculator::new();
    type_digits(&mut c, "12");
    c.set_operator(Operator::Multiply, "12".to_string());
    type_digits(&mut c, "4");
    c.clear();
    assert_eq!(c.display(), "0");
    assert_eq!(c.formula(), "");
    assert_eq!(c.operator(), None);
    assert!(!c.should_reset());
}

#[test]
fn clear_after_equals_drops_the_formula() {
    let mut c = Calculator::new();
    type_digits(&mut c, "2");
    c.set_operator(Operator::Add, "2".to_string());
    type_digits(&mut c, "2");
    c.equals("4".to_string());
    c.clear();
    assert_eq!(c.display(), "0");
    assert_eq!(c.formula(), "");
}

#[test]
fn digits_concatenate_without_leading_zeros() {
    let mut c = Calculator::new();
    type_digits(&mut c, "00120");
    assert_eq!(c.display(), "120");
    assert_eq!(c.formula(), "120");
}

#[test]
fn zeros_alone_stay_zero() {
    let mut c = Calculator::new();
    type_digits(&mut c, "000");
    assert_eq!(c.display(), "0");
    assert_eq!(c.formula(), "");
}

#[test]
fn decimal_point_twice_is_once() {
    let mut c = Calculator::new();
    type_digits(&mut c, "3");
    c.input_decimal();
    assert_eq!(c.display(), "3.");
    c.input_decimal();
    assert_eq!(c.display(), "3.");
    type_digits(&mut c, "5");
    c.input_decimal();
    assert_eq!(c.display(), "3.5");
    assert_eq!(c.formula(), "3.5");
}

#[test]
fn decimal_point_starts_a_fresh_number() {
    let mut c = Calculator::new();
    type_digits(&mut c, "7");
    c.set_operator(Operator::Subtract, "7".to_string());
    c.input_decimal();
    assert_eq!(c.display(), "0.");
    assert_eq!(c.formula(), "7 - 0.");
    c.input_decimal();
    assert_eq!(c.display(), "0.");
    type_digits(&mut c, "5");
    assert_eq!(c.display(), "0.5");
    assert_eq!(c.formula(), "7 - 0.5");
}

#[test]
fn chained_operations_record_the_intermediate_result() {
    let mut c = Calculator::new();
    type_digits(&mut c, "1");
    c.set_operator(Operator::Add, "1".to_string());
    type_digits(&mut c, "2");
    assert_eq!(c.formula(), "1 + 2");
    // The pending 1 + 2 is resolved before the next operator is taken.
    c.show_result("3".to_string());
    c.set_operator(Operator::Add, "3".to_string());
    assert_eq!(c.display(), "3");
    assert_eq!(c.formula(), "3 +");
    type_digits(&mut c, "3");
    c.equals("6".to_string());
    assert_eq!(c.display(), "6");
    assert_eq!(c.formula(), "3 + 3 =");
    assert_eq!(c.operator(), None);
}

#[test]
fn example_trace() {
    let mut c = Calculator::new();
    c.input_digit("3");
    assert_eq!(c.display(), "3");
    assert_eq!(c.formula(), "3");
    c.set_operator(Operator::Add, "3".to_string());
    assert_eq!(c.display(), "3");
    assert_eq!(c.formula(), "3 +");
    assert!(c.should_reset());
    c.input_digit("4");
    assert_eq!(c.display(), "4");
    assert_eq!(c.formula(), "3 + 4");
    c.equals("7".to_string());
    assert_eq!(c.display(), "7");
    assert_eq!(c.formula(), "3 + 4 =");
    assert_eq!(c.operator(), None);
    assert!(c.should_reset());
}

#[test]
fn equals_without_pending_operation_changes_nothing() {
    let mut c = Calculator::new();
    type_digits(&mut c, "42");
    c.equals("99".to_string());
    assert_eq!(c.display(), "42");
    assert_eq!(c.formula(), "42");
    assert!(!c.should_reset());
}

#[test]
fn terminal_formula_survives_new_digits() {
    let mut c = Calculator::new();
    type_digits(&mut c, "6");
    c.set_operator(Operator::Divide, "6".to_string());
    type_digits(&mut c, "2");
    c.equals("3".to_string());
    assert_eq!(c.formula(), "6 ÷ 2 =");
    type_digits(&mut c, "58");
    assert_eq!(c.display(), "58");
    assert_eq!(c.formula(), "6 ÷ 2 =");
    c.set_operator(Operator::Multiply, "58".to_string());
    assert_eq!(c.formula(), "58 ×");
}

#[test]
fn left_operand_is_shown_as_rendered() {
    let mut c = Calculator::new();
    type_digits(&mut c, "2");
    c.input_decimal();
    c.set_operator(Operator::Multiply, "2".to_string());
    assert_eq!(c.display(), "2.");
    assert_eq!(c.formula(), "2 ×");
    type_digits(&mut c, "5");
    assert_eq!(c.formula(), "2 × 5");
    c.equals("10".to_string());
    assert_eq!(c.formula(), "2 × 5 =");
}

#[test]
fn backspace_on_single_character_clears() {
    let mut c = Calculator::new();
    type_digits(&mut c, "5");
    c.backspace();
    assert_eq!(c.display(), "0");
    assert_eq!(c.formula(), "");
    assert_eq!(c.operator(), None);
    assert!(!c.should_reset());
}

#[test]
fn backspace_drops_the_last_character() {
    let mut c = Calculator::new();
    type_digits(&mut c, "9");
    c.set_operator(Operator::Add, "9".to_string());
    type_digits(&mut c, "123");
    c.backspace();
    assert_eq!(c.display(), "12");
    assert_eq!(c.formula(), "9 + 12");
    assert_eq!(c.operator(), Some(Operator::Add));
}

#[test]
fn backspace_to_zero_empties_the_formula() {
    let mut c = Calculator::new();
    c.input_decimal();
    assert_eq!(c.display(), "0.");
    assert_eq!(c.formula(), "0.");
    c.backspace();
    assert_eq!(c.display(), "0");
    assert_eq!(c.formula(), "");
}

#[test]
fn backspace_after_operator_clears_the_pending_operation() {
    let mut c = Calculator::new();
    type_digits(&mut c, "34");
    c.set_operator(Operator::Subtract, "34".to_string());
    c.backspace();
    assert_eq!(c.display(), "0");
    assert_eq!(c.formula(), "");
    assert_eq!(c.operator(), None);
}

#[test]
fn negative_result_can_be_erased() {
    let mut c = Calculator::new();
    type_digits(&mut c, "1");
    c.set_operator(Operator::Subtract, "1".to_string());
    type_digits(&mut c, "4");
    c.equals("-3".to_string());
    assert_eq!(c.display(), "-3");
    assert_eq!(c.formula(), "1 - 4 =");
    type_digits(&mut c, "7");
    type_digits(&mut c, "2");
    c.backspace();
    assert_eq!(c.display(), "7");
}

#[test]
fn operator_symbols() {
    assert_eq!(Operator::Add.to_symbol(), "+");
    assert_eq!(Operator::Subtract.to_symbol(), "-");
    assert_eq!(Operator::Multiply.to_symbol(), "×");
    assert_eq!(Operator::Divide.to_symbol(), "÷");
}

#[test]
fn trim_decimal_drops_trailing_zeros() {
    assert_eq!(trim_decimal("2.50000000"), "2.5");
    assert_eq!(trim_decimal("-0.12500000"), "-0.125");
    assert_eq!(trim_decimal("0.12345679"), "0.12345679");
}

#[test]
fn trim_decimal_drops_a_bare_point() {
    assert_eq!(trim_decimal("10.00000000"), "10");
    assert_eq!(trim_decimal("0.00000000"), "0");
    assert_eq!(trim_decimal("100000000000000000000.00000000"), "100000000000000000000");
}

#[test]
fn trim_decimal_hides_float_noise() {
    let fixed = format!("{:.8}", 0.1_f64 + 0.2_f64);
    assert_eq!(fixed, "0.30000000");
    assert_eq!(trim_decimal(&fixed), "0.3");
}
