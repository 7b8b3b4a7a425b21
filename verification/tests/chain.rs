use std::rc::Rc;
use vaultquad::helper::chain::{apply_op, Chain, ChainHead, ChainUnit, SharedOp};

type Op = Box<dyn Fn(i64) -> i64>;
type Start = Box<dyn Fn() -> i64>;
type C = Chain<i64, Start, Op>;

fn op(f: impl Fn(i64) -> i64 + 'static) -> Op {
    Box::new(f)
}

#[test]
fn new_chain_runs_to_its_start() {
    let c: C = Chain::new(7);
    assert_eq!(c.run(), 7);
    assert_eq!(c.cost(), 7);
}

#[test]
fn new_with_runs_the_start_function() {
    let c: C = Chain::new_with(Box::new(|| 40));
    assert_eq!(c.add_back(op(|x| x + 2)).run(), 42);
}

#[test]
fn back_operations_run_in_order() {
    let c: C = Chain::new(3).add_back(op(|x| x + 1)).add_back(op(|x| x * 10));
    assert_eq!(c.run(), 40);
}

#[test]
fn front_operations_run_before_back_ones() {
    let mut c: C = Chain::new(3);
    c.push_back(op(|x| x * 10));
    c.push_front(op(|x| x + 1));
    c.push_front(op(|x| x - 5));
    // (3 + 1 - 5) * 10
    assert_eq!(c.run(), -10);
}

#[test]
fn push_returns_the_chain_for_more_pushes() {
    let mut c: C = Chain::new(1);
    c.push_back(op(|x| x + 1)).push_back(op(|x| x * 3)).push_front(op(|x| x - 1));
    assert_eq!(c.cost(), 3);
}

#[test]
fn join_leaves_the_source_chain_alone() {
    let c: C = Chain::new(2).add_back(op(|x| x * 2));
    let d = c.join_back(op(|x| x + 100));
    let e = c.join_front(op(|x| x - 2));
    assert_eq!(c.run(), 4);
    assert_eq!(d.run(), 104);
    assert_eq!(e.run(), 0);
}

#[test]
fn shared_operation_runs_while_alive() {
    let shared: Rc<Op> = Rc::new(op(|x| x * 5));
    let c: C = Chain::new(2).add_shared_back(SharedOp::downgrade(&shared));
    assert_eq!(c.run(), 10);
    drop(shared);
    assert_eq!(c.run(), 2);
}

#[test]
fn owned_shared_operation_is_kept_alive() {
    let shared: Rc<Op> = Rc::new(op(|x| x - 1));
    let c: C = Chain::new(9).add_owned_front(shared.clone()).join_owned_back(shared.clone());
    drop(shared);
    assert_eq!(c.run(), 7);
}

#[test]
fn unit_upgrade_by_kind() {
    let shared: Rc<Op> = Rc::new(op(|x| x));
    assert!(ChainUnit::Owned(shared.clone()).upgrade().is_some());
    assert!(ChainUnit::<Op>::Vacant.upgrade().is_none());
    let weak = ChainUnit::Shared(SharedOp::downgrade(&shared));
    assert!(weak.upgrade().is_some());
    drop(shared);
    assert!(weak.upgrade().is_none());
}

#[test]
fn raw_parts_round_trip() {
    let c: C = Chain::new(1).add_front(op(|x| x + 1)).add_back(op(|x| x + 2));
    assert_eq!(c.raw_front().len(), 1);
    assert_eq!(c.raw_back().len(), 1);
    let (start, front, back) = c.into_raw();
    assert!(matches!(start, ChainHead::Value(1)));
    let mut d: C = Chain::from_raw(start, front, back);
    d.raw_back_mut().push(ChainUnit::Vacant);
    d.raw_front_mut().push(ChainUnit::Owned(Rc::new(op(|x| x * 4))));
    assert_eq!(d.run(), 10);
}

#[test]
fn shared_variants_on_both_sides() {
    let shared: Rc<Op> = Rc::new(op(|x| x + 3));
    let mut c: C = Chain::new(0);
    c.push_shared_front(SharedOp::downgrade(&shared));
    c.push_owned_back(Rc::new(op(|x| x * 2)));
    c.push_shared_back(SharedOp::downgrade(&shared));
    assert_eq!(c.run(), 9);
    let d = c.join_shared_front(SharedOp::downgrade(&shared)).add_shared_front(SharedOp::downgrade(&shared));
    assert_eq!(d.run(), 21);
    let e = d.clone().add_owned_back(Rc::new(op(|x| -x)));
    assert_eq!(e.cost(), -21);
}

#[test]
fn running_twice_gives_the_same_value() {
    let c: C = Chain::new(5).add_front(op(|x| x * 3)).add_back(op(|x| x - 4));
    assert_eq!(c.run(), 11);
    assert_eq!(c.run(), 11);
}

#[test]
fn consuming_a_copy_gives_what_running_gives() {
    let start: Start = Box::new(|| 6);
    let c: C = Chain::new_with(start).add_back(op(|x| x * x));
    let ran = c.run();
    assert_eq!(c.clone().cost(), ran);
    assert_eq!(ran, 36);
}

#[test]
fn added_back_operation_runs_last() {
    let c: C = Chain::new(2).add_front(op(|x| x + 1)).add_back(op(|x| x * 10));
    let before = c.run();
    assert_eq!(c.clone().add_back(op(|x| x - 7)).run(), before - 7);
    assert_eq!(c.join_back(op(|x| x * x)).run(), before * before);
}

#[test]
fn weak_unit_upgrades_to_its_own_operation() {
    let first: Rc<Op> = Rc::new(op(|x| x + 1));
    let second: Rc<Op> = Rc::new(op(|x| x * 100));
    let unit = ChainUnit::Shared(SharedOp::downgrade(&second));
    let got = unit.upgrade().unwrap();
    assert!(Rc::ptr_eq(&got, &second));
    assert_eq!((*got)(3), 300);
    let c: C = Chain::new(3).add_owned_back(first.clone()).add_shared_back(SharedOp::downgrade(&second));
    assert_eq!(c.run(), 400);
}

#[test]
fn empty_handle_is_skipped() {
    let c: C = Chain::new(4).add_shared_back(SharedOp::new()).add_back(op(|x| x + 1));
    assert_eq!(c.run(), 5);
    assert!(ChainUnit::Shared(SharedOp::<Op>::new()).upgrade().is_none());
}

#[test]
fn apply_op_applies_or_keeps() {
    let f: Rc<Op> = Rc::new(op(|x| x * 7));
    assert_eq!(apply_op(Some(f), 6), 42);
    assert_eq!(apply_op::<i64, Op>(None, 6), 6);
}
