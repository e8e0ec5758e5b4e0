use starlark_eval::arguments::Arguments;
use starlark_eval::call::{BcCallArgs, BcCallArgsFull, BcCallArgsPos};
use starlark_eval::stack::BcStackPtr;
use starlark_eval::text::push_decimal;
use starlark_eval::values::Symbol;

fn names(texts: &[&str]) -> Vec<(Symbol, String)> {
    let mut out = Vec::new();
    let mut id: u32 = 0;
    for t in texts {
        out.push((Symbol { id }, t.to_string()));
        id += 1;
    }
    out
}

fn full(pos_named: u32, texts: &[&str], args: bool, kwargs: bool) -> BcCallArgsFull {
    BcCallArgsFull::new(pos_named, names(texts), args, kwargs).unwrap()
}

fn stack(slots: &[i64]) -> BcStackPtr<i64> {
    BcStackPtr { slots: slots.to_vec() }
}

fn decimal(n: u32) -> String {
    let mut s = String::new();
    push_decimal(&mut s, n);
    s
}

#[test]
fn pos_is_slots_minus_names() {
    assert_eq!(full(3, &["b"], true, true).pos(), 2);
    assert_eq!(full(2, &[], false, false).pos(), 2);
    assert_eq!(full(2, &["a", "b"], false, false).pos(), 0);
    assert_eq!(full(0, &[], false, false).pos(), 0);
    assert_eq!(full(u32::MAX, &["k"], false, false).pos(), u32::MAX - 1);
}

#[test]
fn new_rejects_more_names_than_slots() {
    assert_eq!(BcCallArgsFull::new(0, names(&["a"]), false, false), None);
    assert_eq!(BcCallArgsFull::new(1, names(&["a", "b"]), true, true), None);
    assert_eq!(BcCallArgsFull::new(2, names(&["a", "b", "c"]), false, true), None);
}

#[test]
fn new_keeps_its_parts() {
    let a = BcCallArgsFull::new(2, names(&["a", "b"]), true, false).unwrap();
    assert_eq!(a.pos_named, 2);
    assert_eq!(a.names, names(&["a", "b"]));
    assert!(a.args);
    assert!(!a.kwargs);
}

#[test]
fn describe_positional_only() {
    assert_eq!(full(2, &[], false, false).describe(), "2");
}

#[test]
fn describe_everything() {
    assert_eq!(full(3, &["b"], true, true).describe(), "2 b * **");
}

#[test]
fn describe_nothing() {
    assert_eq!(full(0, &[], false, false).describe(), "");
}

#[test]
fn describe_leaves_out_a_zero_count() {
    assert_eq!(full(2, &["a", "b"], false, false).describe(), "a b");
    assert_eq!(full(1, &["key"], false, true).describe(), "key **");
}

#[test]
fn describe_stars_alone() {
    assert_eq!(full(0, &[], true, false).describe(), "*");
    assert_eq!(full(0, &[], false, true).describe(), "**");
    assert_eq!(full(0, &[], true, true).describe(), "* **");
}

#[test]
fn describe_keeps_the_order_of_names() {
    assert_eq!(full(5, &["z", "a", "m"], true, false).describe(), "2 z a m *");
}

#[test]
fn describe_writes_the_count_in_decimal() {
    assert_eq!(full(10, &[], false, false).describe(), "10");
    assert_eq!(full(1207, &["x"], false, false).describe(), "1206 x");
    assert_eq!(full(u32::MAX, &[], false, true).describe(), "4294967295 **");
}

#[test]
fn push_decimal_appends_the_digits() {
    assert_eq!(decimal(0), "0");
    assert_eq!(decimal(7), "7");
    assert_eq!(decimal(10), "10");
    assert_eq!(decimal(99), "99");
    assert_eq!(decimal(100), "100");
    assert_eq!(decimal(1234567890), "1234567890");
    assert_eq!(decimal(u32::MAX), "4294967295");
    let mut s = String::from("n=");
    push_decimal(&mut s, 305);
    assert_eq!(s, "n=305");
}

#[test]
fn stack_pop_takes_the_top() {
    let mut st = stack(&[1, 2, 3]);
    assert_eq!(st.pop(), 3);
    assert_eq!(st.slots, vec![1, 2]);
}

#[test]
fn stack_pop_slice_hands_out_deepest_first() {
    let mut st = stack(&[1, 2, 3, 4, 5]);
    assert_eq!(st.pop_slice(3), vec![3, 4, 5]);
    assert_eq!(st.slots, vec![1, 2]);
    assert_eq!(st.pop_slice(0), Vec::<i64>::new());
    assert_eq!(st.pop_slice(2), vec![1, 2]);
    assert!(st.slots.is_empty());
}

#[test]
fn full_call_takes_its_operands_apart() {
    // Below the call: 100.  Then two positional, two named, *args, **kwargs.
    let mut st = stack(&[100, 1, 2, 30, 40, 500, 600]);
    let a = full(4, &["x", "y"], true, true);
    let r = a.pop_from_stack(&mut st);
    assert_eq!(r.pos, vec![1, 2]);
    assert_eq!(r.named, vec![30, 40]);
    assert_eq!(r.names, &names(&["x", "y"])[..]);
    assert_eq!(r.args, Some(500));
    assert_eq!(r.kwargs, Some(600));
    assert_eq!(st.slots, vec![100]);
}

#[test]
fn full_call_with_args_only() {
    let mut st = stack(&[7, 8, 9]);
    let a = full(1, &[], true, false);
    let r = a.pop_from_stack(&mut st);
    assert_eq!(r.pos, vec![8]);
    assert_eq!(r.named, Vec::<i64>::new());
    assert_eq!(r.args, Some(9));
    assert_eq!(r.kwargs, None);
    assert_eq!(st.slots, vec![7]);
}

#[test]
fn full_call_with_kwargs_only() {
    let mut st = stack(&[7, 8, 9]);
    let a = full(1, &["k"], false, true);
    let r = a.pop_from_stack(&mut st);
    assert_eq!(r.pos, Vec::<i64>::new());
    assert_eq!(r.named, vec![8]);
    assert_eq!(r.args, None);
    assert_eq!(r.kwargs, Some(9));
    assert_eq!(st.slots, vec![7]);
}

#[test]
fn full_call_takes_the_whole_stack() {
    let mut st = stack(&[1, 2, 3]);
    let a = full(2, &["k"], true, false);
    let r = a.pop_from_stack(&mut st);
    assert_eq!(r.pos, vec![1]);
    assert_eq!(r.named, vec![2]);
    assert_eq!(r.args, Some(3));
    assert!(st.slots.is_empty());
}

#[test]
fn call_without_operands_leaves_the_stack() {
    let mut st = stack(&[1, 2, 3]);
    let a = full(0, &[], false, false);
    let r = a.pop_from_stack(&mut st);
    assert_eq!(
        r,
        Arguments { pos: vec![], named: vec![], names: &[], args: None, kwargs: None }
    );
    assert_eq!(st.slots, vec![1, 2, 3]);
}

#[test]
fn positional_call_takes_its_operands() {
    let mut st = stack(&[10, 20, 30, 40]);
    let a = BcCallArgsPos { pos: 3 };
    let r = a.pop_from_stack(&mut st);
    assert_eq!(r.pos, vec![20, 30, 40]);
    assert!(r.named.is_empty());
    assert!(r.names.is_empty());
    assert_eq!(r.args, None);
    assert_eq!(r.kwargs, None);
    assert_eq!(st.slots, vec![10]);
}

#[test]
fn the_two_forms_agree_without_names_and_stars() {
    for n in 0..=4u32 {
        let mut s1 = stack(&[5, 6, 7, 8]);
        let mut s2 = stack(&[5, 6, 7, 8]);
        let f = full(n, &[], false, false);
        let p = BcCallArgsPos { pos: n };
        assert_eq!(f.pop_from_stack(&mut s1), p.pop_from_stack(&mut s2));
        assert_eq!(s1, s2);
    }
}

#[test]
fn a_call_takes_exactly_its_slots() {
    let before = vec![1, 2, 3, 4, 5, 6, 7, 8];
    for (pos_named, texts, args, kwargs) in [
        (0u32, vec![], false, false),
        (3, vec!["a"], false, false),
        (3, vec!["a", "b", "c"], true, false),
        (2, vec![], false, true),
        (6, vec!["a", "b"], true, true),
    ] {
        let a = full(pos_named, &texts, args, kwargs);
        let mut st = stack(&before);
        let r = a.pop_from_stack(&mut st);
        let taken = pos_named as usize + args as usize + kwargs as usize;
        assert_eq!(st.slots.len() + taken, before.len());
        assert_eq!(r.pos.len() as u32, a.pos());
        assert_eq!(r.named.len(), r.names.len());
        let mut again = st.slots.clone();
        again.extend(r.pos.iter());
        again.extend(r.named.iter());
        again.extend(r.args.iter());
        again.extend(r.kwargs.iter());
        assert_eq!(again, before);
    }
}

#[test]
fn either_form_binds_through_the_enum() {
    let mut st = stack(&[1, 2, 3, 4]);
    let a = BcCallArgs::Pos(BcCallArgsPos { pos: 1 });
    let r = a.pop_from_stack(&mut st);
    assert_eq!(r.pos, vec![4]);
    assert_eq!(st.slots, vec![1, 2, 3]);
    let b = BcCallArgs::Full(full(2, &["k"], false, true));
    let r = b.pop_from_stack(&mut st);
    assert_eq!(r.pos, vec![1]);
    assert_eq!(r.named, vec![2]);
    assert_eq!(r.kwargs, Some(3));
    assert!(st.slots.is_empty());
}

#[test]
fn a_call_site_gets_the_short_form_where_it_can() {
    assert_eq!(
        BcCallArgs::new(3, names(&[]), false, false),
        Some(BcCallArgs::Pos(BcCallArgsPos { pos: 3 }))
    );
    assert_eq!(
        BcCallArgs::new(0, names(&[]), false, false),
        Some(BcCallArgs::Pos(BcCallArgsPos { pos: 0 }))
    );
}

#[test]
fn a_call_site_gets_the_general_form_otherwise() {
    assert_eq!(
        BcCallArgs::new(3, names(&["k"]), false, false),
        Some(BcCallArgs::Full(full(3, &["k"], false, false)))
    );
    assert_eq!(
        BcCallArgs::new(3, names(&[]), true, false),
        Some(BcCallArgs::Full(full(3, &[], true, false)))
    );
    assert_eq!(
        BcCallArgs::new(0, names(&[]), false, true),
        Some(BcCallArgs::Full(full(0, &[], false, true)))
    );
}

#[test]
fn a_call_site_with_more_names_than_slots_gets_no_layout() {
    assert_eq!(BcCallArgs::new(1, names(&["a", "b"]), false, false), None);
    assert_eq!(BcCallArgs::new(0, names(&["a"]), true, true), None);
}

#[test]
fn the_chosen_form_binds_as_the_general_form() {
    for (pos_named, texts, args, kwargs) in [
        (0u32, vec![], false, false),
        (4, vec![], false, false),
        (4, vec!["a"], false, false),
        (2, vec![], true, true),
    ] {
        let chosen = BcCallArgs::new(pos_named, names(&texts), args, kwargs).unwrap();
        let general = full(pos_named, &texts, args, kwargs);
        let mut s1 = stack(&[1, 2, 3, 4, 5]);
        let mut s2 = stack(&[1, 2, 3, 4, 5]);
        assert_eq!(chosen.pop_from_stack(&mut s1), general.pop_from_stack(&mut s2));
        assert_eq!(s1, s2);
    }
}
