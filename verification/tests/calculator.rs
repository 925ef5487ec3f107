use on_chain_vault::calculator::{Calculator, Operation, OperationType};
use on_chain_vault::decimal::{push_decimal, push_signed_decimal};

#[test]
fn signs_of_the_three_operations() {
    assert_eq!(OperationType::Addition.get_sign(), "+");
    assert_eq!(OperationType::Subtraction.get_sign(), "-");
    assert_eq!(OperationType::Multiplication.get_sign(), "*");
}

#[test]
fn perform_gives_exact_results() {
    assert_eq!(OperationType::Addition.perform(5, 3), Some(8));
    assert_eq!(OperationType::Subtraction.perform(10, 2), Some(8));
    assert_eq!(OperationType::Subtraction.perform(2, 10), Some(-8));
    assert_eq!(OperationType::Multiplication.perform(-7, 6), Some(-42));
}

#[test]
fn perform_refuses_results_out_of_range() {
    assert_eq!(OperationType::Addition.perform(i64::MAX, 1), None);
    assert_eq!(OperationType::Addition.perform(i64::MIN, -1), None);
    assert_eq!(OperationType::Subtraction.perform(i64::MIN, 1), None);
    assert_eq!(OperationType::Subtraction.perform(0, i64::MIN), None);
    assert_eq!(OperationType::Multiplication.perform(i64::MAX, 2), None);
    assert_eq!(OperationType::Multiplication.perform(i64::MIN, -1), None);
}

#[test]
fn perform_accepts_the_ends_of_the_range() {
    assert_eq!(OperationType::Addition.perform(i64::MAX, 0), Some(i64::MAX));
    assert_eq!(OperationType::Addition.perform(i64::MAX - 1, 1), Some(i64::MAX));
    assert_eq!(OperationType::Subtraction.perform(i64::MIN + 1, 1), Some(i64::MIN));
    assert_eq!(OperationType::Multiplication.perform(i64::MIN, 1), Some(i64::MIN));
}

#[test]
fn operation_new_keeps_its_arguments() {
    let op = Operation::new(4, -9, OperationType::Multiplication);
    assert_eq!(op.first_num, 4);
    assert_eq!(op.second_num, -9);
    assert!(matches!(op.operation_type, OperationType::Multiplication));
}

#[test]
fn new_calculator_has_no_history() {
    let c = Calculator::new();
    assert!(c.history.is_empty());
    assert_eq!(c.show_history(), "");
}

#[test]
fn successful_operations_are_recorded_in_order() {
    let mut c = Calculator::new();
    assert_eq!(c.addition(5, 3), Some(8));
    assert_eq!(c.subtraction(10, 2), Some(8));
    assert_eq!(c.multiplication(4, 5), Some(20));
    assert_eq!(c.history.len(), 3);
    assert!(matches!(c.history[0].operation_type, OperationType::Addition));
    assert!(matches!(c.history[1].operation_type, OperationType::Subtraction));
    assert!(matches!(c.history[2].operation_type, OperationType::Multiplication));
    assert_eq!((c.history[1].first_num, c.history[1].second_num), (10, 2));
}

#[test]
fn failed_operations_leave_the_history_alone() {
    let mut c = Calculator::new();
    assert_eq!(c.addition(1, 2), Some(3));
    assert_eq!(c.addition(i64::MAX, 1), None);
    assert_eq!(c.subtraction(i64::MIN, 1), None);
    assert_eq!(c.multiplication(i64::MAX, i64::MAX), None);
    assert_eq!(c.history.len(), 1);
    assert_eq!(c.show_history(), "0: 1 + 2 = 3\n");
}

#[test]
fn show_history_lists_each_entry_on_a_line() {
    let mut c = Calculator::new();
    c.addition(5, 3);
    c.subtraction(10, 2);
    assert_eq!(c.show_history(), "0: 5 + 3 = 8\n1: 10 - 2 = 8\n");
}

#[test]
fn show_history_writes_negative_numbers_with_a_sign() {
    let mut c = Calculator::new();
    c.multiplication(-12, 10);
    c.subtraction(-5, -7);
    c.addition(0, 0);
    assert_eq!(c.show_history(), "0: -12 * 10 = -120\n1: -5 - -7 = 2\n2: 0 + 0 = 0\n");
}

#[test]
fn show_history_skips_entries_that_overflow_but_counts_them() {
    let mut c = Calculator::new();
    c.history.push(Operation::new(i64::MAX, 1, OperationType::Addition));
    c.history.push(Operation::new(2, 3, OperationType::Multiplication));
    assert_eq!(c.show_history(), "1: 2 * 3 = 6\n");
}

#[test]
fn show_history_reaches_two_digit_positions() {
    let mut c = Calculator::new();
    for i in 0..11 {
        c.addition(i, 1);
    }
    let text = c.show_history();
    assert!(text.starts_with("0: 0 + 1 = 1\n"));
    assert!(text.ends_with("9: 9 + 1 = 10\n10: 10 + 1 = 11\n"));
    assert_eq!(text.lines().count(), 11);
}

#[test]
fn show_history_writes_the_extremes() {
    let mut c = Calculator::new();
    c.addition(i64::MIN, 0);
    c.addition(i64::MAX, 0);
    assert_eq!(
        c.show_history(),
        "0: -9223372036854775808 + 0 = -9223372036854775808\n\
         1: 9223372036854775807 + 0 = 9223372036854775807\n"
    );
}

#[test]
fn repeat_carries_an_entry_out_again() {
    let mut c = Calculator::new();
    c.addition(5, 3);
    c.multiplication(6, 7);
    assert_eq!(c.repeat(1), Some(42));
    assert_eq!(c.repeat(0), Some(8));
    assert_eq!(c.history.len(), 4);
    assert_eq!(c.show_history(), "0: 5 + 3 = 8\n1: 6 * 7 = 42\n2: 6 * 7 = 42\n3: 5 + 3 = 8\n");
}

#[test]
fn repeat_of_a_missing_entry_is_none() {
    let mut c = Calculator::new();
    assert_eq!(c.repeat(0), None);
    c.addition(1, 1);
    assert_eq!(c.repeat(1), None);
    assert_eq!(c.repeat(usize::MAX), None);
    assert_eq!(c.history.len(), 1);
}

#[test]
fn repeat_of_an_overflowing_entry_is_none() {
    let mut c = Calculator::new();
    c.history.push(Operation::new(i64::MIN, 1, OperationType::Subtraction));
    assert_eq!(c.repeat(0), None);
    assert_eq!(c.history.len(), 1);
}

#[test]
fn clear_history_forgets_everything() {
    let mut c = Calculator::new();
    c.addition(1, 2);
    c.subtraction(3, 4);
    c.clear_history();
    assert!(c.history.is_empty());
    assert_eq!(c.show_history(), "");
    assert_eq!(c.repeat(0), None);
    assert_eq!(c.addition(2, 2), Some(4));
    assert_eq!(c.show_history(), "0: 2 + 2 = 4\n");
}

#[test]
fn push_decimal_writes_digits_without_leading_zeros() {
    let mut s = String::from("n=");
    push_decimal(&mut s, 0);
    s.push(',');
    push_decimal(&mut s, 7);
    s.push(',');
    push_decimal(&mut s, 10);
    s.push(',');
    push_decimal(&mut s, 1234567890);
    s.push(',');
    push_decimal(&mut s, u64::MAX);
    assert_eq!(s, "n=0,7,10,1234567890,18446744073709551615");
}

#[test]
fn push_signed_decimal_agrees_with_the_standard_text() {
    for x in [0i64, 1, -1, 9, -9, 10, -10, 99, 100, -100, 4096, -65535, i64::MAX, i64::MIN, i64::MIN + 1] {
        let mut s = String::new();
        push_signed_decimal(&mut s, x);
        assert_eq!(s, format!("{}", x));
    }
}
