use stack_vm::value::Value;

#[test]
fn test_value_creation() {
    let val = Value::int_solution(42);
    assert_eq!(val.as_int_solution(), Some(42));
}

#[test]
fn test_value_operations() {
    let a = Value::int_solution(10);
    let b = Value::int_solution(5);

    assert_eq!(a.add_solution(b), Some(Value::Integer(15)));
    assert_eq!(a.sub_solution(b), Some(Value::Integer(5)));
    assert_eq!(a.mul_solution(b), Some(Value::Integer(50)));
    assert_eq!(a.div_solution(b), Some(Value::Integer(2)));

    let zero = Value::int_solution(0);
    assert_eq!(a.div_solution(zero), None);
}

#[test]
fn test_negative_numbers() {
    let a = Value::int_solution(-10);
    let b = Value::int_solution(5);

    assert_eq!(a.add_solution(b), Some(Value::Integer(-5)));
    assert_eq!(a.mul_solution(b), Some(Value::Integer(-50)));
}

#[test]
fn division_truncates_toward_zero() {
    let d = |a: i64, b: i64| Value::int_solution(a).div_solution(Value::int_solution(b));
    assert_eq!(d(7, 2), Some(Value::Integer(3)));
    assert_eq!(d(-7, 2), Some(Value::Integer(-3)));
    assert_eq!(d(7, -2), Some(Value::Integer(-3)));
    assert_eq!(d(-7, -2), Some(Value::Integer(3)));
    assert_eq!(d(i64::MIN, -1), Some(Value::Integer(i64::MIN)));
}

#[test]
fn arithmetic_wraps_on_overflow() {
    let max = Value::int_solution(i64::MAX);
    let one = Value::int_solution(1);
    assert_eq!(max.add_solution(one), Some(Value::Integer(i64::MIN)));
    assert_eq!(Value::int_solution(i64::MIN).sub_solution(one), Some(Value::Integer(i64::MAX)));
    assert_eq!(max.mul_solution(Value::int_solution(2)), Some(Value::Integer(-2)));
}

#[test]
fn arithmetic_rejects_booleans() {
    let t = Value::bool_solution(true);
    let n = Value::int_solution(3);
    assert_eq!(t.add_solution(n), None);
    assert_eq!(n.sub_solution(t), None);
    assert_eq!(t.mul_solution(t), None);
    assert_eq!(n.div_solution(t), None);
    assert_eq!(n.gt_solution(t), None);
}

#[test]
fn comparisons() {
    let a = Value::int_solution(3);
    let b = Value::int_solution(5);
    assert_eq!(a.gt_solution(b), Some(Value::Boolean(false)));
    assert_eq!(a.lt_solution(b), Some(Value::Boolean(true)));
    assert_eq!(a.gte_solution(a), Some(Value::Boolean(true)));
    assert_eq!(b.lte_solution(a), Some(Value::Boolean(false)));
    assert_eq!(a.eq_solution(a), Some(Value::Boolean(true)));
    assert_eq!(a.neq_solution(b), Some(Value::Boolean(true)));
    let t = Value::bool_solution(true);
    let f = Value::bool_solution(false);
    assert_eq!(t.eq_solution(f), Some(Value::Boolean(false)));
    assert_eq!(t.neq_solution(f), Some(Value::Boolean(true)));
    assert_eq!(t.eq_solution(a), None);
    assert_eq!(a.neq_solution(t), None);
}

#[test]
fn truthiness_and_accessors() {
    assert!(Value::int_solution(-1).is_truthy_solution());
    assert!(!Value::int_solution(0).is_truthy_solution());
    assert!(Value::bool_solution(true).is_truthy_solution());
    assert!(!Value::bool_solution(false).is_truthy_solution());
    assert_eq!(Value::bool_solution(true).as_bool_solution(), Some(true));
    assert_eq!(Value::int_solution(1).as_bool_solution(), None);
    assert_eq!(Value::bool_solution(false).as_int_solution(), None);
}
