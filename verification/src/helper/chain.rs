//! A chain of computations: a starting value (or a function that makes one)
//! followed by operations that each map the value to the next. Operations are
//! shared through `Rc`, or held weakly through `Weak`, in which case they are
//! skipped once nothing else keeps them alive. The front operations run
//! before the back ones, each list in the order it was built.
use vstd::prelude::*;
use std::rc::Rc;
use std::rc::Weak;

verus! {

/// A weak reference, as `Rc::downgrade` makes it. `std::rc::Weak` carries
/// an allocator parameter that cannot be declared here, so the reference is
/// held in a field that is not looked into.
#[verifier::external_body]
#[verifier::reject_recursive_types(F)]
struct WeakRef<F> {
    weak: Weak<F>,
}

/// Calls `Rc::downgrade`: a weak reference to the value that `rc` shares.
/// The reference is opaque; what it leads to is recorded by `SharedOp`.
#[verifier::external_body]
fn weak_ref<F>(rc: &Rc<F>) -> WeakRef<F> {
    WeakRef { weak: Rc::downgrade(rc) }
}

/// Calls `Weak::new`: a weak reference to nothing, which never upgrades.
#[verifier::external_body]
fn weak_ref_empty<F>() -> WeakRef<F> {
    WeakRef { weak: Weak::new() }
}

/// Calls `Weak::clone`: another weak reference to the same allocation,
/// which behaves as the one cloned.
#[verifier::external_body]
fn weak_ref_clone<F>(w: &WeakRef<F>) -> (r: WeakRef<F>)
    ensures
        r == *w,
{
    WeakRef { weak: w.weak.clone() }
}

/// The value that `rc` shares.
spec fn shared_value<F>(rc: &Rc<F>) -> F {
    **rc
}

/// A weak handle to a shared operation, together with the operation it was
/// made from.
#[verifier::reject_recursive_types(F)]
pub struct SharedOp<F> {
    weak: WeakRef<F>,
    target: Ghost<Option<F>>,
}

impl<F> SharedOp<F> {
    /// The operation that the handle refers to, if any.
    pub closed spec fn target(&self) -> Option<F> {
        self.target@
    }

    /// A weak handle to the operation that `rc` shares.
    pub fn downgrade(rc: &Rc<F>) -> (r: SharedOp<F>)
        ensures
            r.target() == Some(**rc),
    {
        SharedOp { weak: weak_ref(rc), target: Ghost(Some(shared_value(rc))) }
    }

    /// A handle to no operation: a unit that holds it is always skipped.
    pub fn new() -> (r: SharedOp<F>)
        ensures
            r.target() is None,
    {
        SharedOp { weak: weak_ref_empty(), target: Ghost(None) }
    }

    /// Calls `Weak::upgrade`: the operation, if something still keeps it
    /// alive. Whether it does depends on the rest of the program and is not
    /// stated; an operation that comes back is the one the handle was made
    /// from, since a handle is only made by `downgrade` (which records that
    /// operation), by `new` (whose reference never upgrades) or copied from
    /// another one.
    #[verifier::external_body]
    pub(crate) fn upgrade(&self) -> (r: Option<Rc<F>>)
        ensures
            r matches Some(op) ==> self.target() == Some(*op),
    {
        self.weak.weak.upgrade()
    }

    /// Another handle to the same operation.
    pub(crate) fn duplicate(&self) -> (r: SharedOp<F>)
        ensures
            r == *self,
    {
        SharedOp { weak: weak_ref_clone(&self.weak), target: Ghost(self.target@) }
    }
}

/// Calls `Rc::clone`: another handle to the same value.
#[verifier::external_body]
fn rc_clone<F>(r: &Rc<F>) -> (c: Rc<F>)
    ensures
        c == *r,
{
    r.clone()
}

/// Where a chain starts.
pub enum ChainHead<T, G> {
    /// A fixed starting value.
    Value(T),
    /// A function that makes the starting value.
    Fn(Rc<G>),
}

/// One operation of a chain.
#[verifier::reject_recursive_types(F)]
pub enum ChainUnit<F> {
    /// An operation that the chain keeps alive.
    Owned(Rc<F>),
    /// An operation that the chain only refers to.
    Shared(SharedOp<F>),
    /// No operation.
    Vacant,
}

/// How one unit takes the value `x` to `y`: an owned operation is applied;
/// a weakly held one is applied while it is alive and skipped once it is
/// not (a handle to no operation is always skipped); an empty unit keeps the
/// value.
pub open spec fn unit_step<T, F: Fn(T) -> T>(u: ChainUnit<F>, x: T, y: T) -> bool {
    match u {
        ChainUnit::Owned(f) => call_ensures(*f, (x,), y),
        ChainUnit::Shared(w) => y == x || (w.target() matches Some(f) && call_ensures(f, (x,), y)),
        ChainUnit::Vacant => y == x,
    }
}

/// `vals` lists the values that a run of `units` passes through: one more
/// than there are units, each unit taking the value before it to the one
/// after it.
pub open spec fn steps_through<T, F: Fn(T) -> T>(units: Seq<ChainUnit<F>>, vals: Seq<T>) -> bool {
    &&& vals.len() == units.len() + 1
    &&& forall|i: int| #![trigger units[i]] 0 <= i < units.len() ==> unit_step(units[i], vals[i], vals[i + 1])
}

/// Running `units` in order can take `x` to `y`.
pub open spec fn applies<T, F: Fn(T) -> T>(units: Seq<ChainUnit<F>>, x: T, y: T) -> bool {
    exists|vals: Seq<T>| #[trigger] steps_through(units, vals) && vals[0] == x && vals.last() == y
}

/// The starting value of a run that leaves the head in place: a copy made
/// by `Clone` of a fixed value, or what the function returns.
pub open spec fn head_copy<T: Clone, G: Fn() -> T>(h: ChainHead<T, G>, v: T) -> bool {
    match h {
        ChainHead::Value(x) => cloned(x, v),
        ChainHead::Fn(g) => call_ensures(*g, (), v),
    }
}

/// The starting value of a run that consumes the head: the fixed value
/// itself, or what the function returns.
pub open spec fn head_value<T, G: Fn() -> T>(h: ChainHead<T, G>, v: T) -> bool {
    match h {
        ChainHead::Value(x) => v == x,
        ChainHead::Fn(g) => call_ensures(*g, (), v),
    }
}

/// A run of the chain `c` that leaves it in place can give `r`: the start
/// (a copy of a fixed value, or what the function returns) goes through the
/// front operations and then the back ones.
pub open spec fn runs_to<T: Clone, G: Fn() -> T, F: Fn(T) -> T>(c: ChainView<T, G, F>, r: T) -> bool {
    exists|v0: T, m: T| #![trigger applies(c.front, v0, m)]
        head_copy(c.start, v0) && applies(c.front, v0, m) && applies(c.back, m, r)
}

/// A run of the chain `c` that consumes it can give `r`: the start (the
/// fixed value itself, or what the function returns) goes through the front
/// operations and then the back ones.
pub open spec fn costs_to<T, G: Fn() -> T, F: Fn(T) -> T>(c: ChainView<T, G, F>, r: T) -> bool {
    exists|v0: T, m: T| #![trigger applies(c.front, v0, m)]
        head_value(c.start, v0) && applies(c.front, v0, m) && applies(c.back, m, r)
}

/// The unit's operation accepts every value.
pub open spec fn unit_callable<T, F: Fn(T) -> T>(u: ChainUnit<F>) -> bool {
    match u {
        ChainUnit::Owned(f) => forall|x: T| #[trigger] call_requires(*f, (x,)),
        ChainUnit::Shared(w) => w.target() matches Some(f) ==> forall|x: T| #[trigger] call_requires(f, (x,)),
        ChainUnit::Vacant => true,
    }
}

/// Every unit's operation accepts every value.
pub open spec fn units_callable<T, F: Fn(T) -> T>(units: Seq<ChainUnit<F>>) -> bool {
    forall|i: int| 0 <= i < units.len() ==> #[trigger] unit_callable::<T, F>(units[i])
}

/// The head's function, if it has one, can be called.
pub open spec fn head_callable<T, G: Fn() -> T>(h: ChainHead<T, G>) -> bool {
    match h {
        ChainHead::Value(_) => true,
        ChainHead::Fn(g) => call_requires(*g, ()),
    }
}

impl<F> ChainUnit<F> {
    /// The operation, if the unit holds one that is alive.
    pub fn upgrade(&self) -> (r: Option<Rc<F>>)
        ensures
            self is Owned ==> r == Some(self->Owned_0),
            self matches ChainUnit::Shared(w) ==> (r matches Some(op) ==> w.target() == Some(*op)),
            self is Vacant ==> r is None,
    {
        match self {
            ChainUnit::Owned(rc) => Some(rc_clone(rc)),
            ChainUnit::Shared(wk) => wk.upgrade(),
            ChainUnit::Vacant => None,
        }
    }
}

impl<T, G: Fn() -> T> ChainHead<T, G> {
    /// The starting value, leaving the head in place.
    fn run(&self) -> (r: T)
        where T: Clone,
        requires
            head_callable(*self),
        ensures
            head_copy(*self, r),
    {
        match self {
            ChainHead::Value(v) => v.clone(),
            ChainHead::Fn(f) => (**f)(),
        }
    }

    /// The starting value, consuming the head.
    fn cost(self) -> (r: T)
        requires
            head_callable(self),
        ensures
            head_value(self, r),
    {
        match self {
            ChainHead::Value(v) => v,
            ChainHead::Fn(f) => (*f)(),
        }
    }
}

/// `h2` is a copy of the head `h`: a fixed value copied by `Clone`, or the
/// same function.
pub open spec fn head_dup<T: Clone, G>(h: ChainHead<T, G>, h2: ChainHead<T, G>) -> bool {
    match h {
        ChainHead::Value(x) => h2 matches ChainHead::Value(y) && cloned(x, y),
        ChainHead::Fn(g) => h2 == h,
    }
}

/// A chain as plain values.
#[verifier::reject_recursive_types(F)]
pub struct ChainView<T, G, F> {
    pub start: ChainHead<T, G>,
    pub front: Seq<ChainUnit<F>>,
    pub back: Seq<ChainUnit<F>>,
}

/// A chain of computations on values of type `T`, starting from a value or
/// a function of type `G`, through operations of type `F`.
#[verifier::reject_recursive_types(F)]
pub struct Chain<T, G, F> {
    start: ChainHead<T, G>,
    front: Vec<ChainUnit<F>>,
    back: Vec<ChainUnit<F>>,
}

impl<T, G, F> View for Chain<T, G, F> {
    type V = ChainView<T, G, F>;

    closed spec fn view(&self) -> ChainView<T, G, F> {
        ChainView { start: self.start, front: self.front@, back: self.back@ }
    }
}

/// The same unit, sharing the same operation.
fn clone_unit<F>(u: &ChainUnit<F>) -> (r: ChainUnit<F>)
    ensures
        r == *u,
{
    match u {
        ChainUnit::Owned(rc) => ChainUnit::Owned(rc_clone(rc)),
        ChainUnit::Shared(wk) => ChainUnit::Shared(wk.duplicate()),
        ChainUnit::Vacant => ChainUnit::Vacant,
    }
}

/// The same units, sharing the same operations.
fn clone_units<F>(units: &Vec<ChainUnit<F>>) -> (r: Vec<ChainUnit<F>>)
    ensures
        r@ == units@,
{
    let mut r: Vec<ChainUnit<F>> = Vec::new();
    let mut i: usize = 0;
    while i < units.len()
        invariant
            i <= units.len(),
            r@ == units@.take(i as int),
        decreases units.len() - i,
    {
        r.push(clone_unit(&units[i]));
        proof {
            assert(units@.take(i + 1) =~= units@.take(i as int).push(units@[i as int]));
        }
        i = i + 1;
    }
    proof {
        assert(units@.take(units.len() as int) =~= units@);
    }
    r
}

impl<T: Clone, G> ChainHead<T, G> {
    /// A copy of the head: the fixed value is copied, the function shared.
    fn duplicate(&self) -> (r: ChainHead<T, G>)
        ensures
            head_dup(*self, r),
    {
        match self {
            ChainHead::Value(v) => ChainHead::Value(v.clone()),
            ChainHead::Fn(f) => ChainHead::Fn(rc_clone(f)),
        }
    }
}

impl<T: Clone, G, F> Clone for Chain<T, G, F> {
    /// A copy of the chain: the same operations, a copy of the start.
    fn clone(&self) -> (r: Self)
        ensures
            head_dup(self@.start, r@.start),
            r@.front == self@.front,
            r@.back == self@.back,
    {
        Chain { start: self.start.duplicate(), front: clone_units(&self.front), back: clone_units(&self.back) }
    }
}

impl<T, G, F> Chain<T, G, F> {
    /// A chain that starts from what `op` returns.
    pub fn new_with(op: G) -> (c: Self)
        ensures
            c@ == (ChainView { start: ChainHead::<T, G>::Fn(Rc::new(op)), front: Seq::<ChainUnit<F>>::empty(), back: Seq::<ChainUnit<F>>::empty() }),
    {
        Chain { start: ChainHead::Fn(Rc::new(op)), front: Vec::new(), back: Vec::new() }
    }

    /// A chain that starts from what the shared `op` returns.
    pub fn new_with_raw(op: Rc<G>) -> (c: Self)
        ensures
            c@ == (ChainView { start: ChainHead::<T, G>::Fn(op), front: Seq::<ChainUnit<F>>::empty(), back: Seq::<ChainUnit<F>>::empty() }),
    {
        Chain { start: ChainHead::Fn(op), front: Vec::new(), back: Vec::new() }
    }

    /// A chain that starts from `start`.
    pub fn new(start: T) -> (c: Self)
        ensures
            c@ == (ChainView { start: ChainHead::<T, G>::Value(start), front: Seq::<ChainUnit<F>>::empty(), back: Seq::<ChainUnit<F>>::empty() }),
    {
        Chain { start: ChainHead::Value(start), front: Vec::new(), back: Vec::new() }
    }

    /// Adds an operation, which the chain keeps alive, at the end of the back list.
    pub fn add_back(self, op: F) -> (r: Self)
        ensures
            r@ == (ChainView { back: self@.back.push(ChainUnit::Owned(Rc::new(op))), ..self@ }),
    {
        let mut this = self;
        this.back.push(ChainUnit::Owned(Rc::new(op)));
        this
    }

    /// Adds an operation, which the chain keeps alive, at the end of the back list, in place.
    pub fn push_back(&mut self, op: F) -> (r: &mut Self)
        ensures
            r@ == (ChainView { back: old(self)@.back.push(ChainUnit::Owned(Rc::new(op))), ..old(self)@ }),
            *final(self) == *final(r),
    {
        self.back.push(ChainUnit::Owned(Rc::new(op)));
        self
    }

    /// Adds a weak handle to a shared operation at the end of the back list.
    pub fn add_shared_back(self, op: SharedOp<F>) -> (r: Self)
        ensures
            r@ == (ChainView { back: self@.back.push(ChainUnit::Shared(op)), ..self@ }),
    {
        let mut this = self;
        this.back.push(ChainUnit::Shared(op));
        this
    }

    /// Adds a weak handle to a shared operation at the end of the back list, in place.
    pub fn push_shared_back(&mut self, op: SharedOp<F>) -> (r: &mut Self)
        ensures
            r@ == (ChainView { back: old(self)@.back.push(ChainUnit::Shared(op)), ..old(self)@ }),
            *final(self) == *final(r),
    {
        self.back.push(ChainUnit::Shared(op));
        self
    }

    /// Adds a shared operation, which the chain keeps alive, at the end of the back list.
    pub fn add_owned_back(self, op: Rc<F>) -> (r: Self)
        ensures
            r@ == (ChainView { back: self@.back.push(ChainUnit::Owned(op)), ..self@ }),
    {
        let mut this = self;
        this.back.push(ChainUnit::Owned(op));
        this
    }

    /// Adds a shared operation, which the chain keeps alive, at the end of the back list, in place.
    pub fn push_owned_back(&mut self, op: Rc<F>) -> (r: &mut Self)
        ensures
            r@ == (ChainView { back: old(self)@.back.push(ChainUnit::Owned(op)), ..old(self)@ }),
            *final(self) == *final(r),
    {
        self.back.push(ChainUnit::Owned(op));
        self
    }

    /// Adds an operation, which the chain keeps alive, at the end of the front list.
    pub fn add_front(self, op: F) -> (r: Self)
        ensures
            r@ == (ChainView { front: self@.front.push(ChainUnit::Owned(Rc::new(op))), ..self@ }),
    {
        let mut this = self;
        this.front.push(ChainUnit::Owned(Rc::new(op)));
        this
    }

    /// Adds an operation, which the chain keeps alive, at the end of the front list, in place.
    pub fn push_front(&mut self, op: F) -> (r: &mut Self)
        ensures
            r@ == (ChainView { front: old(self)@.front.push(ChainUnit::Owned(Rc::new(op))), ..old(self)@ }),
            *final(self) == *final(r),
    {
        self.front.push(ChainUnit::Owned(Rc::new(op)));
        self
    }

    /// Adds a weak handle to a shared operation at the end of the front list.
    pub fn add_shared_front(self, op: SharedOp<F>) -> (r: Self)
        ensures
            r@ == (ChainView { front: self@.front.push(ChainUnit::Shared(op)), ..self@ }),
    {
        let mut this = self;
        this.front.push(ChainUnit::Shared(op));
        this
    }

    /// Adds a weak handle to a shared operation at the end of the front list, in place.
    pub fn push_shared_front(&mut self, op: SharedOp<F>) -> (r: &mut Self)
        ensures
            r@ == (ChainView { front: old(self)@.front.push(ChainUnit::Shared(op)), ..old(self)@ }),
            *final(self) == *final(r),
    {
        self.front.push(ChainUnit::Shared(op));
        self
    }

    /// Adds a shared operation, which the chain keeps alive, at the end of the front list.
    pub fn add_owned_front(self, op: Rc<F>) -> (r: Self)
        ensures
            r@ == (ChainView { front: self@.front.push(ChainUnit::Owned(op)), ..self@ }),
    {
        let mut this = self;
        this.front.push(ChainUnit::Owned(op));
        this
    }

    /// Adds a shared operation, which the chain keeps alive, at the end of the front list, in place.
    pub fn push_owned_front(&mut self, op: Rc<F>) -> (r: &mut Self)
        ensures
            r@ == (ChainView { front: old(self)@.front.push(ChainUnit::Owned(op)), ..old(self)@ }),
            *final(self) == *final(r),
    {
        self.front.push(ChainUnit::Owned(op));
        self
    }

    /// The parts of the chain: its start, front list and back list.
    pub fn into_raw(self) -> (r: (ChainHead<T, G>, Vec<ChainUnit<F>>, Vec<ChainUnit<F>>))
        ensures
            r.0 == self@.start,
            r.1@ == self@.front,
            r.2@ == self@.back,
    {
        (self.start, self.front, self.back)
    }

    /// A chain made of the given parts.
    pub fn from_raw(start: ChainHead<T, G>, front: Vec<ChainUnit<F>>, back: Vec<ChainUnit<F>>) -> (c: Self)
        ensures
            c@ == (ChainView { start: start, front: front@, back: back@ }),
    {
        Chain { start, front, back }
    }

    pub fn raw_front(&self) -> (r: &Vec<ChainUnit<F>>)
        ensures
            r@ == self@.front,
    {
        &self.front
    }

    pub fn raw_front_mut(&mut self) -> (r: &mut Vec<ChainUnit<F>>)
        ensures
            r@ == old(self)@.front,
            final(self)@ == (ChainView { front: final(r)@, ..old(self)@ }),
    {
        &mut self.front
    }

    pub fn raw_back(&self) -> (r: &Vec<ChainUnit<F>>)
        ensures
            r@ == self@.back,
    {
        &self.back
    }

    pub fn raw_back_mut(&mut self) -> (r: &mut Vec<ChainUnit<F>>)
        ensures
            r@ == old(self)@.back,
            final(self)@ == (ChainView { back: final(r)@, ..old(self)@ }),
    {
        &mut self.back
    }
}

impl<T: Clone, G, F> Chain<T, G, F> {
    /// A copy of the chain with an operation, which the chain keeps alive, added at the end of the back list.
    pub fn join_back(&self, op: F) -> (r: Self)
        ensures
            head_dup(self@.start, r@.start),
            r@.back == self@.back.push(ChainUnit::Owned(Rc::new(op))),
            r@.front == self@.front,
    {
        let mut this = self.clone();
        this.back.push(ChainUnit::Owned(Rc::new(op)));
        this
    }

    /// A copy of the chain with a weak handle to a shared operation added at the end of the back list.
    pub fn join_shared_back(&self, op: SharedOp<F>) -> (r: Self)
        ensures
            head_dup(self@.start, r@.start),
            r@.back == self@.back.push(ChainUnit::Shared(op)),
            r@.front == self@.front,
    {
        let mut this = self.clone();
        this.back.push(ChainUnit::Shared(op));
        this
    }

    /// A copy of the chain with a shared operation, which the chain keeps alive, added at the end of the back list.
    pub fn join_owned_back(&self, op: Rc<F>) -> (r: Self)
        ensures
            head_dup(self@.start, r@.start),
            r@.back == self@.back.push(ChainUnit::Owned(op)),
            r@.front == self@.front,
    {
        let mut this = self.clone();
        this.back.push(ChainUnit::Owned(op));
        this
    }

    /// A copy of the chain with an operation, which the chain keeps alive, added at the end of the front list.
    pub fn join_front(&self, op: F) -> (r: Self)
        ensures
            head_dup(self@.start, r@.start),
            r@.front == self@.front.push(ChainUnit::Owned(Rc::new(op))),
            r@.back == self@.back,
    {
        let mut this = self.clone();
        this.front.push(ChainUnit::Owned(Rc::new(op)));
        this
    }

    /// A copy of the chain with a weak handle to a shared operation added at the end of the front list.
    pub fn join_shared_front(&self, op: SharedOp<F>) -> (r: Self)
        ensures
            head_dup(self@.start, r@.start),
            r@.front == self@.front.push(ChainUnit::Shared(op)),
            r@.back == self@.back,
    {
        let mut this = self.clone();
        this.front.push(ChainUnit::Shared(op));
        this
    }

    /// A copy of the chain with a shared operation, which the chain keeps alive, added at the end of the front list.
    pub fn join_owned_front(&self, op: Rc<F>) -> (r: Self)
        ensures
            head_dup(self@.start, r@.start),
            r@.front == self@.front.push(ChainUnit::Owned(op)),
            r@.back == self@.back,
    {
        let mut this = self.clone();
        this.front.push(ChainUnit::Owned(op));
        this
    }
}

/// Applies an operation, as `ChainUnit::upgrade` hands it out, to `v`: what
/// the operation returns when there is one; `v` itself when there is none.
pub fn apply_op<T, F: Fn(T) -> T>(op: Option<Rc<F>>, v: T) -> (r: T)
    requires
        op matches Some(f) ==> call_requires(*f, (v,)),
    ensures
        match op {
            Some(f) => call_ensures(*f, (v,), r),
            None => r == v,
        },
{
    match op {
        Some(f) => (*f)(v),
        None => v,
    }
}

/// Runs `units` in order on `v`: each live operation maps the value to the
/// next one; units without a live operation are skipped.
fn run_units<T, F: Fn(T) -> T>(units: &Vec<ChainUnit<F>>, v: T) -> (r: T)
    requires
        units_callable(units@),
    ensures
        applies(units@, v, r),
{
    let ghost v_init = v;
    let mut cur = v;
    let mut i: usize = 0;
    let ghost mut vals: Seq<T> = seq![v];
    while i < units.len()
        invariant
            i <= units.len(),
            units_callable(units@),
            steps_through(units@.take(i as int), vals),
            vals[0] == v_init,
            vals.last() == cur,
        decreases units.len() - i,
    {
        let ghost prev = cur;
        assert(unit_callable(units@[i as int]));
        let op = units[i].upgrade();
        proof {
            if op is Some {
                let f = op->0;
                if units@[i as int] is Shared {
                    let w = units@[i as int]->Shared_0;
                    assert(w.target() == Some(*f));
                    assert(unit_callable::<T, F>(units@[i as int]));
                    assert(forall|x: T| #[trigger] call_requires(w.target()->0, (x,)));
                    assert(call_requires(w.target()->0, (cur,)));
                    assert(w.target()->0 == *f);
                }
                assert(call_requires(*f, (cur,)));
            }
        }
        cur = apply_op(op, cur);
        proof {
            assert(unit_step(units@[i as int], prev, cur));
            let old_vals = vals;
            vals = vals.push(cur);
            let next = units@.take(i + 1);
            assert forall|j: int| #![trigger next[j]] 0 <= j < next.len() implies unit_step(next[j], vals[j], vals[j + 1]) by {
                if j < i {
                    assert(next[j] == units@.take(i as int)[j]);
                    assert(vals[j] == old_vals[j]);
                    assert(vals[j + 1] == old_vals[j + 1]);
                }
            }
        }
        i = i + 1;
    }
    proof {
        assert(units@.take(units.len() as int) =~= units@);
    }
    cur
}

impl<T, G: Fn() -> T, F: Fn(T) -> T> Chain<T, G, F> {
    /// Runs the chain, leaving it in place: the start (a copy of a fixed
    /// value, or what the function returns) goes through the front
    /// operations and then the back ones, in order; weak operations that are
    /// no longer alive are skipped.
    pub fn run(&self) -> (r: T)
        where T: Clone,
        requires
            head_callable(self@.start),
            units_callable(self@.front),
            units_callable(self@.back),
        ensures
            runs_to(self@, r),
    {
        let v0 = self.start.run();
        let m = run_units(&self.front, v0);
        let r = run_units(&self.back, m);
        assert(head_copy(self@.start, v0) && applies(self@.front, v0, m) && applies(self@.back, m, r));
        r
    }

    /// Runs the chain, consuming it: the start goes through the front
    /// operations and then the back ones, in order; weak operations that are
    /// no longer alive are skipped.
    pub fn cost(self) -> (r: T)
        requires
            head_callable(self@.start),
            units_callable(self@.front),
            units_callable(self@.back),
        ensures
            costs_to(self@, r),
    {
        let ghost view = self@;
        let Chain { start, front, back } = self;
        let v0 = start.cost();
        let m = run_units(&front, v0);
        let r = run_units(&back, m);
        assert(head_value(view.start, v0) && applies(view.front, v0, m) && applies(view.back, m, r));
        r
    }
}

/// A chain without operations yields its starting value unchanged.
pub proof fn law_no_ops_keep_value<T, F: Fn(T) -> T>(units: Seq<ChainUnit<F>>, x: T, y: T)
    requires
        units.len() == 0,
    ensures
        applies(units, x, y) <==> y == x,
{
    if y == x {
        let vals = seq![x];
        assert(steps_through(units, vals));
    }
}

/// A chain of one kept operation yields what that operation returns.
pub proof fn law_single_op<T, F: Fn(T) -> T>(units: Seq<ChainUnit<F>>, f: F, x: T, y: T)
    requires
        units == seq![ChainUnit::Owned(Rc::new(f))],
    ensures
        applies(units, x, y) <==> call_ensures(f, (x,), y),
{
    if call_ensures(f, (x,), y) {
        let vals = seq![x, y];
        assert(units[0] == ChainUnit::Owned(Rc::new(f)));
        assert(steps_through(units, vals));
    }
    if applies(units, x, y) {
        let vals = choose|vals: Seq<T>| #[trigger] steps_through(units, vals) && vals[0] == x && vals.last() == y;
        assert(units[0] == ChainUnit::Owned(Rc::new(f)));
        assert(unit_step(units[0], vals[0], vals[1]));
    }
}

/// Running one list of operations and then another is running them as one
/// list, the first before the second: what `run` and `cost` do with the
/// front and back lists.
pub proof fn law_front_then_back<T, F: Fn(T) -> T>(a: Seq<ChainUnit<F>>, b: Seq<ChainUnit<F>>, x: T, m: T, y: T)
    requires
        applies(a, x, m),
        applies(b, m, y),
    ensures
        applies(a + b, x, y),
{
    let va = choose|vals: Seq<T>| #[trigger] steps_through(a, vals) && vals[0] == x && vals.last() == m;
    let vb = choose|vals: Seq<T>| #[trigger] steps_through(b, vals) && vals[0] == m && vals.last() == y;
    let vals = va + vb.drop_first();
    let ab = a + b;
    assert forall|i: int| #![trigger ab[i]] 0 <= i < ab.len() implies unit_step(ab[i], vals[i], vals[i + 1]) by {
        if i < a.len() {
            assert(ab[i] == a[i]);
            assert(unit_step(a[i], va[i], va[i + 1]));
            if i + 1 == a.len() {
                assert(vals[i + 1] == va[i + 1]);
            }
        } else {
            let k = i - a.len();
            assert(ab[i] == b[k]);
            assert(unit_step(b[k], vb[k], vb[k + 1]));
            assert(vals[i + 1] == vb[k + 1]);
            if k == 0 {
                assert(vals[i] == va.last());
            } else {
                assert(vals[i] == vb[k]);
            }
        }
    }
    assert(steps_through(ab, vals));
    if b.len() == 0 {
        assert(vals.last() == m);
    } else {
        assert(vals.last() == vb.last());
    }
}

/// Adding to the front list and adding to the back list do not interfere:
/// either order gives the same chain.
pub proof fn law_front_back_commute<T, G, F>(c: ChainView<T, G, F>, f: ChainUnit<F>, b: ChainUnit<F>)
    ensures
        (ChainView { back: (ChainView { front: c.front.push(f), ..c }).back.push(b), ..(ChainView { front: c.front.push(f), ..c }) })
            == (ChainView { front: (ChainView { back: c.back.push(b), ..c }).front.push(f), ..(ChainView { back: c.back.push(b), ..c }) }),
{
}

/// `f` gives one result for each argument.
pub open spec fn op_functional<T, F: Fn(T) -> T>(f: F) -> bool {
    forall|x: T, y1: T, y2: T| #![trigger call_ensures(f, (x,), y1), call_ensures(f, (x,), y2)]
        call_ensures(f, (x,), y1) && call_ensures(f, (x,), y2) ==> y1 == y2
}

/// No unit holds its operation weakly, and every operation gives one result
/// for each argument.
pub open spec fn units_functional<T, F: Fn(T) -> T>(units: Seq<ChainUnit<F>>) -> bool {
    forall|i: int| #![trigger units[i]] 0 <= i < units.len() ==> match units[i] {
        ChainUnit::Owned(f) => op_functional::<T, F>(*f),
        ChainUnit::Shared(_) => false,
        ChainUnit::Vacant => true,
    }
}

/// The start gives one value: copies of a fixed value are all the same, or
/// the function gives one result.
pub open spec fn head_functional<T: Clone, G: Fn() -> T>(h: ChainHead<T, G>) -> bool {
    match h {
        ChainHead::Value(x) => forall|v1: T, v2: T| #![trigger cloned(x, v1), cloned(x, v2)]
            cloned(x, v1) && cloned(x, v2) ==> v1 == v2,
        ChainHead::Fn(g) => forall|v1: T, v2: T| #![trigger call_ensures(*g, (), v1), call_ensures(*g, (), v2)]
            call_ensures(*g, (), v1) && call_ensures(*g, (), v2) ==> v1 == v2,
    }
}

/// The start and every operation of `c` give one result each, and no
/// operation is held weakly.
pub open spec fn chain_functional<T: Clone, G: Fn() -> T, F: Fn(T) -> T>(c: ChainView<T, G, F>) -> bool {
    head_functional(c.start) && units_functional::<T, F>(c.front) && units_functional::<T, F>(c.back)
}

proof fn lemma_same_steps<T, F: Fn(T) -> T>(units: Seq<ChainUnit<F>>, v1: Seq<T>, v2: Seq<T>, k: int)
    requires
        units_functional::<T, F>(units),
        steps_through(units, v1),
        steps_through(units, v2),
        v1[0] == v2[0],
        0 <= k <= units.len(),
    ensures
        v1[k] == v2[k],
    decreases k,
{
    if k > 0 {
        lemma_same_steps(units, v1, v2, k - 1);
        let u = units[k - 1];
        assert(unit_step(u, v1[k - 1], v1[k]) && unit_step(u, v2[k - 1], v2[k]));
        match u {
            ChainUnit::Owned(f) => {
                assert(op_functional::<T, F>(*f));
                assert(call_ensures(*f, (v1[k - 1],), v1[k]) && call_ensures(*f, (v1[k - 1],), v2[k]));
            },
            ChainUnit::Shared(_) => {},
            ChainUnit::Vacant => {},
        }
    }
}

/// When no operation is held weakly and each gives one result for each
/// argument, running a list of operations on a value gives one result.
pub proof fn law_functional_units_one_result<T, F: Fn(T) -> T>(units: Seq<ChainUnit<F>>, x: T, y1: T, y2: T)
    requires
        units_functional::<T, F>(units),
        applies(units, x, y1),
        applies(units, x, y2),
    ensures
        y1 == y2,
{
    let va = choose|vals: Seq<T>| #[trigger] steps_through(units, vals) && vals[0] == x && vals.last() == y1;
    let vb = choose|vals: Seq<T>| #[trigger] steps_through(units, vals) && vals[0] == x && vals.last() == y2;
    lemma_same_steps(units, va, vb, units.len() as int);
}

/// Running a chain twice, leaving it in place, gives the same value both
/// times when its start and its operations give one result each and none is
/// held weakly.
pub proof fn law_run_repeatable<T: Clone, G: Fn() -> T, F: Fn(T) -> T>(c: ChainView<T, G, F>, r1: T, r2: T)
    requires
        chain_functional(c),
        runs_to(c, r1),
        runs_to(c, r2),
    ensures
        r1 == r2,
{
    let (a0, am) = choose|v0: T, m: T| #![trigger applies(c.front, v0, m)]
        head_copy(c.start, v0) && applies(c.front, v0, m) && applies(c.back, m, r1);
    let (b0, bm) = choose|v0: T, m: T| #![trigger applies(c.front, v0, m)]
        head_copy(c.start, v0) && applies(c.front, v0, m) && applies(c.back, m, r2);
    match c.start {
        ChainHead::Value(x) => {
            assert(cloned(x, a0) && cloned(x, b0));
        },
        ChainHead::Fn(g) => {
            assert(call_ensures(*g, (), a0) && call_ensures(*g, (), b0));
        },
    }
    law_functional_units_one_result(c.front, a0, am, bm);
    law_functional_units_one_result(c.back, am, r1, r2);
}

/// Consuming a copy of a chain gives what running the chain in place gives,
/// when its start and its operations give one result each and none is held
/// weakly: the copy's start is a `Clone` copy of a fixed value, or the same
/// function, and its operations are the same.
pub proof fn law_cost_of_copy_is_run<T: Clone, G: Fn() -> T, F: Fn(T) -> T>(
    c: ChainView<T, G, F>,
    d: ChainView<T, G, F>,
    r1: T,
    r2: T,
)
    requires
        chain_functional(c),
        head_dup(c.start, d.start),
        d.front == c.front,
        d.back == c.back,
        runs_to(c, r1),
        costs_to(d, r2),
    ensures
        r1 == r2,
{
    let (a0, am) = choose|v0: T, m: T| #![trigger applies(c.front, v0, m)]
        head_copy(c.start, v0) && applies(c.front, v0, m) && applies(c.back, m, r1);
    let (b0, bm) = choose|v0: T, m: T| #![trigger applies(d.front, v0, m)]
        head_value(d.start, v0) && applies(d.front, v0, m) && applies(d.back, m, r2);
    match c.start {
        ChainHead::Value(x) => {
            assert(cloned(x, a0) && cloned(x, b0));
        },
        ChainHead::Fn(g) => {
            assert(call_ensures(*g, (), a0) && call_ensures(*g, (), b0));
        },
    }
    law_functional_units_one_result(c.front, a0, am, bm);
    law_functional_units_one_result(c.back, am, r1, r2);
}

/// A run of a list of operations followed by another can be cut where the
/// first list ends.
proof fn lemma_split<T, F: Fn(T) -> T>(a: Seq<ChainUnit<F>>, b: Seq<ChainUnit<F>>, x: T, y: T)
    requires
        applies(a + b, x, y),
    ensures
        exists|m: T| #[trigger] applies(a, x, m) && applies(b, m, y),
{
    let ab = a + b;
    let vals = choose|vals: Seq<T>| #[trigger] steps_through(ab, vals) && vals[0] == x && vals.last() == y;
    let va = vals.take(a.len() + 1 as int);
    let vb = vals.skip(a.len() as int);
    assert forall|i: int| #![trigger a[i]] 0 <= i < a.len() implies unit_step(a[i], va[i], va[i + 1]) by {
        assert(ab[i] == a[i]);
        assert(unit_step(ab[i], vals[i], vals[i + 1]));
    }
    assert(steps_through(a, va));
    assert forall|i: int| #![trigger b[i]] 0 <= i < b.len() implies unit_step(b[i], vb[i], vb[i + 1]) by {
        assert(ab[a.len() + i] == b[i]);
        assert(unit_step(ab[a.len() + i], vals[a.len() + i], vals[a.len() + i + 1]));
    }
    assert(steps_through(b, vb));
    let m = vals[a.len() as int];
    assert(applies(a, x, m));
    assert(applies(b, m, y));
}

/// Adding an operation, which the chain keeps alive, at the end of the back
/// list makes the chain give what the operation returns for what the chain
/// gave before.
pub proof fn law_add_back_runs_after<T: Clone, G: Fn() -> T, F: Fn(T) -> T>(c: ChainView<T, G, F>, f: F, y: T)
    ensures
        runs_to(ChainView { back: c.back.push(ChainUnit::Owned(Rc::new(f))), ..c }, y)
            <==> exists|m: T| #[trigger] runs_to(c, m) && call_ensures(f, (m,), y),
{
    let u = seq![ChainUnit::Owned(Rc::new(f))];
    let d = ChainView { back: c.back.push(ChainUnit::Owned(Rc::new(f))), ..c };
    assert(d.back =~= c.back + u);
    if runs_to(d, y) {
        let (v0, m1) = choose|v0: T, m: T| #![trigger applies(d.front, v0, m)]
            head_copy(d.start, v0) && applies(d.front, v0, m) && applies(d.back, m, y);
        lemma_split(c.back, u, m1, y);
        let m = choose|m: T| #[trigger] applies(c.back, m1, m) && applies(u, m, y);
        law_single_op(u, f, m, y);
        assert(runs_to(c, m));
    }
    if exists|m: T| #[trigger] runs_to(c, m) && call_ensures(f, (m,), y) {
        let m = choose|m: T| #[trigger] runs_to(c, m) && call_ensures(f, (m,), y);
        let (v0, m1) = choose|v0: T, m1: T| #![trigger applies(c.front, v0, m1)]
            head_copy(c.start, v0) && applies(c.front, v0, m1) && applies(c.back, m1, m);
        law_single_op(u, f, m, y);
        law_front_then_back(c.back, u, m1, m, y);
        assert(applies(d.front, v0, m1));
    }
}

} // verus!
