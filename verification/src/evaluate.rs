//! The evaluation of sequence constructors.
//!
//! A sequence constructor is a function with its literal data and its
//! arguments, which are themselves sequences of constructors. Evaluating a
//! sequence of constructors evaluates each one and joins what they give.

use vstd::prelude::*;
use vstd::string::*;
use crate::repr::Repr;
use crate::item::{truth, Item, ItemView, Value, ValueView};
use crate::xdmerror::{Error, ErrorKind, ErrorView};

verus! {

/// What an evaluation may refer to.
pub struct DynamicContext {
    /// In some circumstances there is no context item.
    pub context_item: Option<Item>,
}

/// The functions that construct a sequence.
#[derive(Copy, Clone, Debug, PartialEq, Eq, Structural)]
pub enum SequenceConstructorFunc {
    Literal,
    ContextItem,
    Or,
    And,
    GeneralEqual,
    GeneralNotEqual,
    GeneralLessThan,
    GeneralLessThanEqual,
    GeneralGreaterThan,
    GeneralGreaterThanEqual,
    ValueEqual,
    ValueNotEqual,
    ValueLessThan,
    ValueLessThanEqual,
    ValueGreaterThan,
    ValueGreaterThanEqual,
    NodeIs,
    NodeBefore,
    NodeAfter,
}

/// A constructor of a sequence: a function, its literal data and its arguments.
pub struct SequenceConstructor {
    /// The function to evaluate to construct the sequence.
    pub func: SequenceConstructorFunc,
    /// Literal data for the constructor.
    pub data: Option<Item>,
    /// Arguments for the constructor.
    pub args: Option<Vec<Vec<SequenceConstructor>>>,
}

/// What a `SequenceConstructor` stands for.
pub struct ConstructorView {
    pub func: SequenceConstructorFunc,
    pub data: Option<ItemView>,
    pub args: Option<Seq<Seq<ConstructorView>>>,
}

/// What `sc` stands for.
pub open spec fn constructor_view(sc: SequenceConstructor) -> ConstructorView
    decreases sc,
{
    ConstructorView {
        func: sc.func,
        data: sc.data.repr(),
        args: match sc.args {
            Some(t) => Some(operands_view(t@)),
            None => None,
        },
    }
}

/// The constructors of `cons`, each as what it stands for.
pub open spec fn sequence_view(cons: Seq<SequenceConstructor>) -> Seq<ConstructorView>
    decreases cons,
{
    Seq::new(
        cons.len(),
        |i: int|
            if 0 <= i < cons.len() {
                constructor_view(cons[i])
            } else {
                ConstructorView { func: SequenceConstructorFunc::Literal, data: None, args: None }
            },
    )
}

/// The operands of `operands`, each as what it stands for.
pub open spec fn operands_view(operands: Seq<Vec<SequenceConstructor>>) -> Seq<
    Seq<ConstructorView>,
>
    decreases operands,
{
    Seq::new(
        operands.len(),
        |i: int|
            if 0 <= i < operands.len() {
                sequence_view(operands[i]@)
            } else {
                Seq::empty()
            },
    )
}

impl Repr for SequenceConstructor {
    type V = ConstructorView;

    open spec fn repr(&self) -> ConstructorView {
        constructor_view(*self)
    }
}

impl Repr for DynamicContext {
    type V = Option<ItemView>;

    open spec fn repr(&self) -> Option<ItemView> {
        self.context_item.repr()
    }
}

/// The view of a vector of constructors is the view of its constructors.
pub proof fn lemma_sequence_repr(cons: Vec<SequenceConstructor>)
    ensures
        cons.repr() == sequence_view(cons@),
{
    assert(cons.repr() =~= sequence_view(cons@));
}

/// The view of a vector of operands is the view of its operands.
pub proof fn lemma_operands_repr(operands: Vec<Vec<SequenceConstructor>>)
    ensures
        operands.repr() == operands_view(operands@),
{
    assert forall|i: int| 0 <= i < operands@.len() implies operands.repr()[i] == operands_view(
        operands@,
    )[i] by {
        lemma_sequence_repr(operands@[i]);
    }
    assert(operands.repr() =~= operands_view(operands@));
}

/// The arguments of what a constructor stands for are what its arguments
/// stand for.
pub proof fn lemma_args_repr(sc: SequenceConstructor)
    ensures
        sc.args.repr() == sc.repr().args,
{
    match sc.args {
        Some(t) => {
            lemma_operands_repr(t);
        },
        None => {},
    }
}

impl SequenceConstructor {
    /// A copy that stands for the same constructor.
    pub fn duplicate(&self) -> (c: SequenceConstructor)
        ensures
            c.repr() == self.repr(),
        decreases *self,
    {
        SequenceConstructor {
            func: self.func,
            data: match &self.data {
                Some(i) => Some(i.duplicate()),
                None => None,
            },
            args: match &self.args {
                Some(t) => Some(duplicate_operands(t)),
                None => None,
            },
        }
    }
}

/// Copies of `cons` that stand for the same constructors.
fn duplicate_sequence(cons: &Vec<SequenceConstructor>) -> (r: Vec<SequenceConstructor>)
    ensures
        sequence_view(r@) == sequence_view(cons@),
    decreases *cons,
{
    let mut r: Vec<SequenceConstructor> = Vec::new();
    let mut i: usize = 0;
    while i < cons.len()
        invariant
            i <= cons@.len(),
            r@.len() == i,
            forall|j: int| 0 <= j < i ==> constructor_view(r@[j]) == constructor_view(cons@[j]),
        decreases cons@.len() - i,
    {
        r.push(cons[i].duplicate());
        i = i + 1;
    }
    proof {
        assert(sequence_view(r@) =~= sequence_view(cons@));
    }
    r
}

/// Copies of `operands` that stand for the same operands.
fn duplicate_operands(operands: &Vec<Vec<SequenceConstructor>>) -> (r: Vec<
    Vec<SequenceConstructor>,
>)
    ensures
        operands_view(r@) == operands_view(operands@),
    decreases *operands,
{
    let mut r: Vec<Vec<SequenceConstructor>> = Vec::new();
    let mut i: usize = 0;
    while i < operands.len()
        invariant
            i <= operands@.len(),
            r@.len() == i,
            forall|j: int| 0 <= j < i ==> sequence_view(r@[j]@) == sequence_view(operands@[j]@),
        decreases operands@.len() - i,
    {
        r.push(duplicate_sequence(&operands[i]));
        i = i + 1;
    }
    proof {
        assert(operands_view(r@) =~= operands_view(operands@));
    }
    r
}

impl Clone for SequenceConstructor {
    fn clone(&self) -> (c: SequenceConstructor)
        ensures
            c.repr() == self.repr(),
    {
        self.duplicate()
    }
}

/// Comparison operators.
#[derive(Copy, Clone, Debug, PartialEq, Eq, Structural)]
pub enum Operator {
    Equal,
    NotEqual,
    LessThan,
    LessThanEqual,
    GreaterThan,
    GreaterThanEqual,
    Is,
    Before,
    After,
}

/// What an evaluation gives: a sequence of items, or an error.
pub type Evaluated = Result<Seq<ItemView>, ErrorView>;

/// The result that holds `items`, as a view.
pub open spec fn evaluated(r: Result<Vec<Item>, Error>) -> Evaluated {
    match r {
        Ok(items) => Ok(items.repr()),
        Err(e) => Err(e.repr()),
    }
}

/// The sequence that holds the one truth value `b`.
pub open spec fn boolean(b: bool) -> Seq<ItemView> {
    seq![ItemView::Value(ValueView::Boolean(b))]
}

/// The error of the given kind and message.
pub open spec fn failure(kind: ErrorKind, message: Seq<char>) -> ErrorView {
    ErrorView { kind, message }
}

/// Whether `a` comes before `b` in the order of the characters' codes.
pub open spec fn text_lt(a: Seq<char>, b: Seq<char>) -> bool
    decreases a.len(),
{
    if b.len() == 0 {
        false
    } else if a.len() == 0 {
        true
    } else if a[0] != b[0] {
        (a[0] as u32) < (b[0] as u32)
    } else {
        text_lt(a.drop_first(), b.drop_first())
    }
}

/// Whether `a` is less than `b`. Only values of one kind are ordered: false
/// before true, numbers by size, strings by the codes of their characters.
pub open spec fn value_lt(a: ValueView, b: ValueView) -> bool {
    match (a, b) {
        (ValueView::Boolean(x), ValueView::Boolean(y)) => !x && y,
        (ValueView::Integer(x), ValueView::Integer(y)) => x < y,
        (ValueView::Decimal(x), ValueView::Decimal(y)) => x < y,
        (ValueView::String(x), ValueView::String(y)) => text_lt(x, y),
        _ => false,
    }
}

/// Whether `left` and `right` stand in the relation `op`.
pub open spec fn compared(left: ItemView, right: ItemView, op: Operator) -> bool {
    let l = left->Value_0;
    let r = right->Value_0;
    match op {
        Operator::Equal => left == right,
        Operator::NotEqual => left != right,
        Operator::LessThan => value_lt(l, r),
        Operator::LessThanEqual => value_lt(l, r) || left == right,
        Operator::GreaterThan => value_lt(r, l),
        Operator::GreaterThanEqual => value_lt(r, l) || left == right,
        Operator::Is => false,
        Operator::Before => false,
        Operator::After => false,
    }
}

/// The truth value of a sequence: that of its item if it has exactly one,
/// and false otherwise.
pub open spec fn effective_boolean(items: Seq<ItemView>) -> bool {
    if items.len() == 1 {
        truth(items[0]->Value_0)
    } else {
        false
    }
}

/// What the literal constructor gives for `data`.
pub open spec fn literal(data: Option<ItemView>) -> Evaluated {
    match data {
        Some(j) => Ok(seq![j]),
        None => Err(failure(ErrorKind::Unknown, "no item supplied"@)),
    }
}

/// What the context item constructor gives in `ctxt`.
pub open spec fn context(ctxt: Option<ItemView>) -> Evaluated {
    match ctxt {
        Some(c) => Ok(seq![c]),
        None => Err(failure(ErrorKind::Unknown, "no context item"@)),
    }
}

/// What a node comparison gives.
pub open spec fn not_implemented() -> Evaluated {
    Err(failure(ErrorKind::NotImplemented, "not yet implemented"@))
}

/// Whether some item of `left` and some item of `right` stand in the relation `op`.
pub open spec fn some_pair(left: Seq<ItemView>, right: Seq<ItemView>, op: Operator) -> bool {
    exists|i: int, j: int|
        0 <= i < left.len() && 0 <= j < right.len() && compared(left[i], right[j], op)
}

/// What a value comparison gives for two evaluated operands: the comparison
/// of their items where each has exactly one, and an error otherwise.
pub open spec fn singletons(left: Seq<ItemView>, right: Seq<ItemView>, op: Operator) -> Evaluated {
    if left.len() == 1 && right.len() == 1 {
        Ok(boolean(compared(left[0], right[0], op)))
    } else {
        Err(failure(ErrorKind::TypeError, "not a singleton sequence"@))
    }
}

/// The items that the first `n` constructors of `cons` give in `ctxt`, in
/// order; nothing where one of them gives an error or is not defined.
pub open spec fn items_of(cons: Seq<ConstructorView>, n: nat, ctxt: Option<ItemView>) -> Option<
    Seq<ItemView>,
>
    decreases cons, n,
{
    if n == 0 || n > cons.len() {
        Some(Seq::empty())
    } else {
        match (items_of(cons, (n - 1) as nat, ctxt), constructed(cons[n - 1], ctxt)) {
            (Some(head), Some(Ok(tail))) => Some(head + tail),
            _ => None,
        }
    }
}

/// The items that `cons` gives in `ctxt`.
pub open spec fn sequence_of(cons: Seq<ConstructorView>, ctxt: Option<ItemView>) -> Option<
    Seq<ItemView>,
>
    decreases cons, cons.len() + 1,
{
    items_of(cons, cons.len(), ctxt)
}

/// Whether one of the operands of `operands` from `from` on is true, where
/// the operands are evaluated in order up to the first true one; nothing
/// where one of those evaluated is not defined.
pub open spec fn any_true(
    operands: Seq<Seq<ConstructorView>>,
    from: nat,
    ctxt: Option<ItemView>,
) -> Option<bool>
    decreases operands, operands.len() - from,
{
    if from >= operands.len() {
        Some(false)
    } else {
        match sequence_of(operands[from as int], ctxt) {
            None => None,
            Some(items) => if effective_boolean(items) {
                Some(true)
            } else {
                any_true(operands, from + 1, ctxt)
            },
        }
    }
}

/// Whether all the operands of `operands` from `from` on are true, where the
/// operands are evaluated in order up to the first false one; nothing where
/// one of those evaluated is not defined.
pub open spec fn all_true(
    operands: Seq<Seq<ConstructorView>>,
    from: nat,
    ctxt: Option<ItemView>,
) -> Option<bool>
    decreases operands, operands.len() - from,
{
    if from >= operands.len() {
        Some(true)
    } else {
        match sequence_of(operands[from as int], ctxt) {
            None => None,
            Some(items) => if !effective_boolean(items) {
                Some(false)
            } else {
                all_true(operands, from + 1, ctxt)
            },
        }
    }
}

/// What a comparison of the two operands of `args` gives; nothing where
/// there are not exactly two operands, or one of them is not defined.
pub open spec fn comparison(
    args: Option<Seq<Seq<ConstructorView>>>,
    ctxt: Option<ItemView>,
    op: Operator,
    general: bool,
) -> Option<Evaluated>
    decreases args, 0nat,
{
    match args {
        Some(t) => if t.len() == 2 {
            match (sequence_of(t[0], ctxt), sequence_of(t[1], ctxt)) {
                (Some(left), Some(right)) => if general {
                    Some(Ok(boolean(some_pair(left, right, op))))
                } else {
                    Some(singletons(left, right, op))
                },
                (Some(left), None) => if !general && left.len() != 1 {
                    Some(singletons(left, Seq::empty(), op))
                } else {
                    None
                },
                _ => None,
            }
        } else {
            None
        },
        None => None,
    }
}

/// What the constructor `sc` gives in `ctxt`; nothing where it is not defined.
pub open spec fn constructed(sc: ConstructorView, ctxt: Option<ItemView>) -> Option<Evaluated>
    decreases sc, 0nat,
{
    match sc.func {
        SequenceConstructorFunc::Literal => Some(literal(sc.data)),
        SequenceConstructorFunc::ContextItem => Some(context(ctxt)),
        SequenceConstructorFunc::Or => match sc.args {
            Some(t) => match any_true(t, 0, ctxt) {
                Some(b) => Some(Ok(boolean(b))),
                None => None,
            },
            None => Some(Ok(boolean(false))),
        },
        SequenceConstructorFunc::And => match sc.args {
            Some(t) => match all_true(t, 0, ctxt) {
                Some(b) => Some(Ok(boolean(b))),
                None => None,
            },
            None => Some(Ok(boolean(false))),
        },
        SequenceConstructorFunc::GeneralEqual => comparison(sc.args, ctxt, Operator::Equal, true),
        SequenceConstructorFunc::GeneralNotEqual => comparison(
            sc.args,
            ctxt,
            Operator::NotEqual,
            true,
        ),
        SequenceConstructorFunc::GeneralLessThan => comparison(
            sc.args,
            ctxt,
            Operator::LessThan,
            true,
        ),
        SequenceConstructorFunc::GeneralLessThanEqual => comparison(
            sc.args,
            ctxt,
            Operator::LessThanEqual,
            true,
        ),
        SequenceConstructorFunc::GeneralGreaterThan => comparison(
            sc.args,
            ctxt,
            Operator::GreaterThan,
            true,
        ),
        SequenceConstructorFunc::GeneralGreaterThanEqual => comparison(
            sc.args,
            ctxt,
            Operator::GreaterThanEqual,
            true,
        ),
        SequenceConstructorFunc::ValueEqual => comparison(sc.args, ctxt, Operator::Equal, false),
        SequenceConstructorFunc::ValueNotEqual => comparison(
            sc.args,
            ctxt,
            Operator::NotEqual,
            false,
        ),
        SequenceConstructorFunc::ValueLessThan => comparison(
            sc.args,
            ctxt,
            Operator::LessThan,
            false,
        ),
        SequenceConstructorFunc::ValueLessThanEqual => comparison(
            sc.args,
            ctxt,
            Operator::LessThanEqual,
            false,
        ),
        SequenceConstructorFunc::ValueGreaterThan => comparison(
            sc.args,
            ctxt,
            Operator::GreaterThan,
            false,
        ),
        SequenceConstructorFunc::ValueGreaterThanEqual => comparison(
            sc.args,
            ctxt,
            Operator::GreaterThanEqual,
            false,
        ),
        SequenceConstructorFunc::NodeIs => Some(not_implemented()),
        SequenceConstructorFunc::NodeBefore => Some(not_implemented()),
        SequenceConstructorFunc::NodeAfter => Some(not_implemented()),
    }
}

/// Whether `a` and `b` stand for the same value.
fn same_value(a: &Value, b: &Value) -> (r: bool)
    ensures
        r == (a.repr() == b.repr()),
{
    match (a, b) {
        (Value::Boolean(x), Value::Boolean(y)) => *x == *y,
        (Value::Integer(x), Value::Integer(y)) => *x == *y,
        (Value::Decimal(x), Value::Decimal(y)) => *x == *y,
        (Value::String(x), Value::String(y)) => crate::text::same_text(x, y),
        _ => false,
    }
}

/// Whether `a` comes before `b` in the order of the characters' codes.
fn text_before(a: &String, b: &String) -> (r: bool)
    ensures
        r == text_lt(a@, b@),
{
    let n = a.as_str().unicode_len();
    let m = b.as_str().unicode_len();
    let mut i: usize = 0;
    proof {
        assert(a@.subrange(0, n as int) =~= a@);
        assert(b@.subrange(0, m as int) =~= b@);
    }
    loop
        invariant
            i <= n,
            i <= m,
            n == a@.len(),
            m == b@.len(),
            text_lt(a@, b@) == text_lt(
                a@.subrange(i as int, n as int),
                b@.subrange(i as int, m as int),
            ),
        decreases n - i,
    {
        let ghost x = a@.subrange(i as int, n as int);
        let ghost y = b@.subrange(i as int, m as int);
        if i == m {
            return false;
        }
        if i == n {
            return true;
        }
        let p = a.as_str().get_char(i);
        let q = b.as_str().get_char(i);
        if p != q {
            return (p as u32) < (q as u32);
        }
        proof {
            assert(x.drop_first() =~= a@.subrange(i + 1, n as int));
            assert(y.drop_first() =~= b@.subrange(i + 1, m as int));
        }
        i = i + 1;
    }
}

/// Whether `a` is less than `b`.
fn value_before(a: &Value, b: &Value) -> (r: bool)
    ensures
        r == value_lt(a.repr(), b.repr()),
{
    match (a, b) {
        (Value::Boolean(x), Value::Boolean(y)) => !*x && *y,
        (Value::Integer(x), Value::Integer(y)) => *x < *y,
        (Value::Decimal(x), Value::Decimal(y)) => *x < *y,
        (Value::String(x), Value::String(y)) => text_before(x, y),
        _ => false,
    }
}

/// Whether `left` and `right` stand in the relation `op`.
pub fn item_compare(left: &Item, right: &Item, op: Operator) -> (b: bool)
    ensures
        b == compared(left.repr(), right.repr(), op),
{
    match (left, right) {
        (Item::Value(l), Item::Value(r)) => match op {
            Operator::Equal => same_value(l, r),
            Operator::NotEqual => !same_value(l, r),
            Operator::LessThan => value_before(l, r),
            Operator::LessThanEqual => value_before(l, r) || same_value(l, r),
            Operator::GreaterThan => value_before(r, l),
            Operator::GreaterThanEqual => value_before(r, l) || same_value(l, r),
            Operator::Is => false,
            Operator::Before => false,
            Operator::After => false,
        },
    }
}

/// The truth value of a sequence.
pub fn effective_boolean_value(s: &Vec<Item>) -> (b: bool)
    ensures
        b == effective_boolean(s.repr()),
{
    if s.len() == 1 {
        match &s[0] {
            Item::Value(v) => v.to_bool(),
        }
    } else {
        false
    }
}

/// The sequence that holds the one truth value `b`.
fn boolean_item(b: bool) -> (r: Vec<Item>)
    ensures
        r.repr() == boolean(b),
{
    let mut r: Vec<Item> = Vec::new();
    r.push(Item::Value(Value::Boolean(b)));
    proof {
        assert(r.repr() =~= boolean(b));
    }
    r
}

/// The sequence that holds the item `i`.
fn single(i: Item) -> (r: Vec<Item>)
    ensures
        r.repr() == seq![i.repr()],
{
    let mut r: Vec<Item> = Vec::new();
    r.push(i);
    proof {
        assert(r.repr() =~= seq![i.repr()]);
    }
    r
}

/// The literal item of the constructor, as a sequence.
pub fn cons_literal(
    _d: &DynamicContext,
    _s: Option<Vec<Vec<SequenceConstructor>>>,
    i: Option<Item>,
) -> (r: Result<Vec<Item>, Error>)
    ensures
        evaluated(r) == literal(i.repr()),
{
    match i {
        Some(j) => Ok(single(j)),
        None => Err(Error { kind: ErrorKind::Unknown, message: "no item supplied".to_owned() }),
    }
}

/// The context item, as a sequence.
pub fn cons_context_item(
    d: &DynamicContext,
    _s: Option<Vec<Vec<SequenceConstructor>>>,
    _i: Option<Item>,
) -> (r: Result<Vec<Item>, Error>)
    ensures
        evaluated(r) == context(d.repr()),
{
    match &d.context_item {
        Some(c) => Ok(single(c.duplicate())),
        None => Err(Error { kind: ErrorKind::Unknown, message: "no context item".to_owned() }),
    }
}

/// Where the first `n` constructors give items, so do the first `k` of them.
proof fn lemma_prefix(cons: Seq<ConstructorView>, k: nat, n: nat, ctxt: Option<ItemView>)
    requires
        k <= n <= cons.len(),
        items_of(cons, n, ctxt) is Some,
    ensures
        items_of(cons, k, ctxt) is Some,
    decreases n,
{
    if k < n {
        lemma_prefix(cons, k, (n - 1) as nat, ctxt);
    }
}

/// Evaluates the constructors of `cons` and joins what they give.
fn eval_items(cons: &Vec<SequenceConstructor>, ctxt: &DynamicContext) -> (ret: Vec<Item>)
    requires
        sequence_of(cons.repr(), ctxt.repr()) is Some,
    ensures
        Some(ret.repr()) == sequence_of(cons.repr(), ctxt.repr()),
    decreases *cons, 1nat,
{
    let mut ret: Vec<Item> = Vec::new();
    let mut i: usize = 0;
    proof {
        assert(ret.repr() =~= Seq::<ItemView>::empty());
    }
    while i < cons.len()
        invariant
            i <= cons@.len(),
            sequence_of(cons.repr(), ctxt.repr()) is Some,
            items_of(cons.repr(), i as nat, ctxt.repr()) == Some(ret.repr()),
        decreases cons@.len() - i,
    {
        proof {
            lemma_prefix(cons.repr(), (i + 1) as nat, cons@.len() as nat, ctxt.repr());
        }
        let ghost before = ret.repr();
        match construct(&cons[i], ctxt) {
            Ok(mut seq) => {
                let ghost tail = seq.repr();
                ret.append(&mut seq);
                proof {
                    assert(ret.repr() =~= before + tail);
                }
            },
            Err(_) => {},
        }
        i = i + 1;
    }
    ret
}

/// Whether one of `operands` is true, up to the first true one.
fn or_of(operands: &Vec<Vec<SequenceConstructor>>, ctxt: &DynamicContext) -> (b: bool)
    requires
        any_true(operands.repr(), 0, ctxt.repr()) is Some,
    ensures
        Some(b) == any_true(operands.repr(), 0, ctxt.repr()),
    decreases *operands, 0nat,
{
    let mut j: usize = 0;
    while j < operands.len()
        invariant
            j <= operands@.len(),
            any_true(operands.repr(), j as nat, ctxt.repr()) is Some,
            any_true(operands.repr(), 0, ctxt.repr()) == any_true(
                operands.repr(),
                j as nat,
                ctxt.repr(),
            ),
        decreases operands@.len() - j,
    {
        let r = eval_items(&operands[j], ctxt);
        if effective_boolean_value(&r) {
            return true;
        }
        j = j + 1;
    }
    false
}

/// Whether all of `operands` are true, up to the first false one.
fn and_of(operands: &Vec<Vec<SequenceConstructor>>, ctxt: &DynamicContext) -> (b: bool)
    requires
        all_true(operands.repr(), 0, ctxt.repr()) is Some,
    ensures
        Some(b) == all_true(operands.repr(), 0, ctxt.repr()),
    decreases *operands, 0nat,
{
    let mut j: usize = 0;
    while j < operands.len()
        invariant
            j <= operands@.len(),
            all_true(operands.repr(), j as nat, ctxt.repr()) is Some,
            all_true(operands.repr(), 0, ctxt.repr()) == all_true(
                operands.repr(),
                j as nat,
                ctxt.repr(),
            ),
        decreases operands@.len() - j,
    {
        let r = eval_items(&operands[j], ctxt);
        if !effective_boolean_value(&r) {
            return false;
        }
        j = j + 1;
    }
    true
}

/// Whether some item of `left` and some item of `right` stand in the relation `op`.
fn pairs(left: &Vec<Item>, right: &Vec<Item>, op: Operator) -> (b: bool)
    ensures
        b == some_pair(left.repr(), right.repr(), op),
{
    let mut i: usize = 0;
    while i < left.len()
        invariant
            i <= left@.len(),
            forall|k: int, l: int|
                0 <= k < i && 0 <= l < right@.len() ==> !compared(
                    #[trigger] left.repr()[k],
                    #[trigger] right.repr()[l],
                    op,
                ),
        decreases left@.len() - i,
    {
        let mut j: usize = 0;
        while j < right.len()
            invariant
                i < left@.len(),
                j <= right@.len(),
                forall|k: int, l: int|
                    0 <= k < i && 0 <= l < right@.len() ==> !compared(
                        #[trigger] left.repr()[k],
                        #[trigger] right.repr()[l],
                        op,
                    ),
                forall|l: int|
                    0 <= l < j ==> !compared(left.repr()[i as int], #[trigger] right.repr()[l], op),
            decreases right@.len() - j,
        {
            if item_compare(&left[i], &right[j], op) {
                proof {
                    assert(compared(left.repr()[i as int], right.repr()[j as int], op));
                }
                return true;
            }
            j = j + 1;
        }
        i = i + 1;
    }
    false
}

/// Compares two evaluated operands that must each hold exactly one item.
fn compare_singletons(left: &Vec<Item>, right: &Vec<Item>, op: Operator) -> (r: Result<
    Vec<Item>,
    Error,
>)
    ensures
        evaluated(r) == singletons(left.repr(), right.repr(), op),
{
    if left.len() == 1 && right.len() == 1 {
        Ok(boolean_item(item_compare(&left[0], &right[0], op)))
    } else {
        Err(Error { kind: ErrorKind::TypeError, message: "not a singleton sequence".to_owned() })
    }
}

/// Compares the two operands of `args`.
fn compare_args(
    args: &Option<Vec<Vec<SequenceConstructor>>>,
    ctxt: &DynamicContext,
    op: Operator,
    general: bool,
) -> (r: Result<Vec<Item>, Error>)
    requires
        comparison(args.repr(), ctxt.repr(), op, general) is Some,
    ensures
        Some(evaluated(r)) == comparison(args.repr(), ctxt.repr(), op, general),
    decreases *args, 0nat,
{
    match args {
        Some(t) => {
            let left = eval_items(&t[0], ctxt);
            if general {
                let right = eval_items(&t[1], ctxt);
                Ok(boolean_item(pairs(&left, &right, op)))
            } else if left.len() == 1 {
                let right = eval_items(&t[1], ctxt);
                compare_singletons(&left, &right, op)
            } else {
                let right: Vec<Item> = Vec::new();
                proof {
                    assert(right.repr() =~= Seq::<ItemView>::empty());
                }
                compare_singletons(&left, &right, op)
            }
        },
        None => Ok(Vec::new()),
    }
}

/// A node comparison: not implemented.
fn unimplemented_comparison() -> (r: Result<Vec<Item>, Error>)
    ensures
        evaluated(r) == not_implemented(),
{
    Err(Error { kind: ErrorKind::NotImplemented, message: "not yet implemented".to_owned() })
}

/// Evaluates the constructor `sc`.
fn construct(sc: &SequenceConstructor, ctxt: &DynamicContext) -> (r: Result<Vec<Item>, Error>)
    requires
        constructed(sc.repr(), ctxt.repr()) is Some,
    ensures
        Some(evaluated(r)) == constructed(sc.repr(), ctxt.repr()),
    decreases *sc, 0nat,
{
    proof {
        lemma_args_repr(*sc);
    }
    match sc.func {
        SequenceConstructorFunc::Literal => match &sc.data {
            Some(j) => Ok(single(j.duplicate())),
            None => Err(
                Error { kind: ErrorKind::Unknown, message: "no item supplied".to_owned() },
            ),
        },
        SequenceConstructorFunc::ContextItem => cons_context_item(ctxt, None, None),
        SequenceConstructorFunc::Or => match &sc.args {
            Some(t) => Ok(boolean_item(or_of(t, ctxt))),
            None => Ok(boolean_item(false)),
        },
        SequenceConstructorFunc::And => match &sc.args {
            Some(t) => Ok(boolean_item(and_of(t, ctxt))),
            None => Ok(boolean_item(false)),
        },
        SequenceConstructorFunc::GeneralEqual => compare_args(
            &sc.args,
            ctxt,
            Operator::Equal,
            true,
        ),
        SequenceConstructorFunc::GeneralNotEqual => compare_args(
            &sc.args,
            ctxt,
            Operator::NotEqual,
            true,
        ),
        SequenceConstructorFunc::GeneralLessThan => compare_args(
            &sc.args,
            ctxt,
            Operator::LessThan,
            true,
        ),
        SequenceConstructorFunc::GeneralLessThanEqual => compare_args(
            &sc.args,
            ctxt,
            Operator::LessThanEqual,
            true,
        ),
        SequenceConstructorFunc::GeneralGreaterThan => compare_args(
            &sc.args,
            ctxt,
            Operator::GreaterThan,
            true,
        ),
        SequenceConstructorFunc::GeneralGreaterThanEqual => compare_args(
            &sc.args,
            ctxt,
            Operator::GreaterThanEqual,
            true,
        ),
        SequenceConstructorFunc::ValueEqual => compare_args(
            &sc.args,
            ctxt,
            Operator::Equal,
            false,
        ),
        SequenceConstructorFunc::ValueNotEqual => compare_args(
            &sc.args,
            ctxt,
            Operator::NotEqual,
            false,
        ),
        SequenceConstructorFunc::ValueLessThan => compare_args(
            &sc.args,
            ctxt,
            Operator::LessThan,
            false,
        ),
        SequenceConstructorFunc::ValueLessThanEqual => compare_args(
            &sc.args,
            ctxt,
            Operator::LessThanEqual,
            false,
        ),
        SequenceConstructorFunc::ValueGreaterThan => compare_args(
            &sc.args,
            ctxt,
            Operator::GreaterThan,
            false,
        ),
        SequenceConstructorFunc::ValueGreaterThanEqual => compare_args(
            &sc.args,
            ctxt,
            Operator::GreaterThanEqual,
            false,
        ),
        SequenceConstructorFunc::NodeIs => unimplemented_comparison(),
        SequenceConstructorFunc::NodeBefore => unimplemented_comparison(),
        SequenceConstructorFunc::NodeAfter => unimplemented_comparison(),
    }
}

/// Whether one of the operands is true. The operands are evaluated in order,
/// up to the first true one. Without operands the result is false.
pub fn cons_or(
    d: &DynamicContext,
    s: Option<Vec<Vec<SequenceConstructor>>>,
    _i: Option<Item>,
) -> (r: Result<Vec<Item>, Error>)
    requires
        s matches Some(t) ==> any_true(t.repr(), 0, d.repr()) is Some,
    ensures
        evaluated(r) == Ok::<Seq<ItemView>, ErrorView>(
            boolean(
                match s {
                    Some(t) => any_true(t.repr(), 0, d.repr())->0,
                    None => false,
                },
            ),
        ),
{
    match &s {
        Some(t) => Ok(boolean_item(or_of(t, d))),
        None => Ok(boolean_item(false)),
    }
}

/// Whether all of the operands are true. The operands are evaluated in
/// order, up to the first false one. Without operands the result is false.
pub fn cons_and(
    d: &DynamicContext,
    s: Option<Vec<Vec<SequenceConstructor>>>,
    _i: Option<Item>,
) -> (r: Result<Vec<Item>, Error>)
    requires
        s matches Some(t) ==> all_true(t.repr(), 0, d.repr()) is Some,
    ensures
        evaluated(r) == Ok::<Seq<ItemView>, ErrorView>(
            boolean(
                match s {
                    Some(t) => all_true(t.repr(), 0, d.repr())->0,
                    None => false,
                },
            ),
        ),
{
    match &s {
        Some(t) => Ok(boolean_item(and_of(t, d))),
        None => Ok(boolean_item(false)),
    }
}

/// A general comparison: whether some item of the left operand and some
/// item of the right one stand in the relation `op`.
pub fn general_comparison(
    d: &DynamicContext,
    left: &Vec<SequenceConstructor>,
    right: &Vec<SequenceConstructor>,
    op: Operator,
) -> (r: Result<Vec<Item>, Error>)
    requires
        sequence_of(left.repr(), d.repr()) is Some,
        sequence_of(right.repr(), d.repr()) is Some,
    ensures
        evaluated(r) == Ok::<Seq<ItemView>, ErrorView>(
            boolean(
                some_pair(
                    sequence_of(left.repr(), d.repr())->0,
                    sequence_of(right.repr(), d.repr())->0,
                    op,
                ),
            ),
        ),
{
    let left_seq = eval_items(left, d);
    let right_seq = eval_items(right, d);
    Ok(boolean_item(pairs(&left_seq, &right_seq, op)))
}

/// A value comparison: the comparison of the one item of the left operand
/// with the one item of the right. An operand that does not hold exactly one
/// item is an error; the right operand is evaluated only if the left one
/// holds exactly one item.
pub fn value_comparison(
    d: &DynamicContext,
    left: Vec<SequenceConstructor>,
    right: Vec<SequenceConstructor>,
    op: Operator,
) -> (r: Result<Vec<Item>, Error>)
    requires
        sequence_of(left.repr(), d.repr()) is Some,
        sequence_of(left.repr(), d.repr())->0.len() == 1 ==> sequence_of(
            right.repr(),
            d.repr(),
        ) is Some,
    ensures
        evaluated(r) == (if sequence_of(left.repr(), d.repr())->0.len() == 1 {
            singletons(
                sequence_of(left.repr(), d.repr())->0,
                sequence_of(right.repr(), d.repr())->0,
                op,
            )
        } else {
            singletons(sequence_of(left.repr(), d.repr())->0, Seq::empty(), op)
        }),
{
    let left_seq = eval_items(&left, d);
    if left_seq.len() == 1 {
        let right_seq = eval_items(&right, d);
        compare_singletons(&left_seq, &right_seq, op)
    } else {
        let right_seq: Vec<Item> = Vec::new();
        proof {
            assert(right_seq.repr() =~= Seq::<ItemView>::empty());
        }
        compare_singletons(&left_seq, &right_seq, op)
    }
}

/// Whether two nodes are the same node: not implemented.
pub fn comparison_node_is(
    _d: &DynamicContext,
    _s: Option<Vec<Vec<SequenceConstructor>>>,
    _i: Option<Item>,
) -> (r: Result<Vec<Item>, Error>)
    ensures
        evaluated(r) == not_implemented(),
{
    unimplemented_comparison()
}

/// Whether a node comes before another: not implemented.
pub fn comparison_node_before(
    _d: &DynamicContext,
    _s: Option<Vec<Vec<SequenceConstructor>>>,
    _i: Option<Item>,
) -> (r: Result<Vec<Item>, Error>)
    ensures
        evaluated(r) == not_implemented(),
{
    unimplemented_comparison()
}

/// Whether a node comes after another: not implemented.
pub fn comparison_node_after(
    _d: &DynamicContext,
    _s: Option<Vec<Vec<SequenceConstructor>>>,
    _i: Option<Item>,
) -> (r: Result<Vec<Item>, Error>)
    ensures
        evaluated(r) == not_implemented(),
{
    unimplemented_comparison()
}

/// Evaluates the constructors of `cons` in `ctxt` and joins what they give.
pub fn eval(cons: Vec<SequenceConstructor>, ctxt: &DynamicContext) -> (r: Result<Vec<Item>, Error>)
    requires
        sequence_of(cons.repr(), ctxt.repr()) is Some,
    ensures
        evaluated(r) == Ok::<Seq<ItemView>, ErrorView>(sequence_of(cons.repr(), ctxt.repr())->0),
{
    Ok(eval_items(&cons, ctxt))
}

/// Evaluates the constructors of `cons` in `ctxt` and joins what they give.
pub fn eval_ref(cons: &Vec<SequenceConstructor>, ctxt: &DynamicContext) -> (r: Result<
    Vec<Item>,
    Error,
>)
    requires
        sequence_of(cons.repr(), ctxt.repr()) is Some,
    ensures
        evaluated(r) == Ok::<Seq<ItemView>, ErrorView>(sequence_of(cons.repr(), ctxt.repr())->0),
{
    Ok(eval_items(cons, ctxt))
}

/// A general comparison: whether some item of the first operand is equal to some
/// item of the second.
pub fn comparison_general_equal(
    d: &DynamicContext,
    s: Option<Vec<Vec<SequenceConstructor>>>,
    _i: Option<Item>,
) -> (r: Result<Vec<Item>, Error>)
    requires
        comparison(s.repr(), d.repr(), Operator::Equal, true) is Some,
    ensures
        Some(evaluated(r)) == comparison(s.repr(), d.repr(), Operator::Equal, true),
{
    compare_args(&s, d, Operator::Equal, true)
}

/// A general comparison: whether some item of the first operand is not equal to some
/// item of the second.
pub fn comparison_general_notequal(
    d: &DynamicContext,
    s: Option<Vec<Vec<SequenceConstructor>>>,
    _i: Option<Item>,
) -> (r: Result<Vec<Item>, Error>)
    requires
        comparison(s.repr(), d.repr(), Operator::NotEqual, true) is Some,
    ensures
        Some(evaluated(r)) == comparison(s.repr(), d.repr(), Operator::NotEqual, true),
{
    compare_args(&s, d, Operator::NotEqual, true)
}

/// A general comparison: whether some item of the first operand is less than some
/// item of the second.
pub fn comparison_general_lessthan(
    d: &DynamicContext,
    s: Option<Vec<Vec<SequenceConstructor>>>,
    _i: Option<Item>,
) -> (r: Result<Vec<Item>, Error>)
    requires
        comparison(s.repr(), d.repr(), Operator::LessThan, true) is Some,
    ensures
        Some(evaluated(r)) == comparison(s.repr(), d.repr(), Operator::LessThan, true),
{
    compare_args(&s, d, Operator::LessThan, true)
}

/// A general comparison: whether some item of the first operand is at most some
/// item of the second.
pub fn comparison_general_lessthanequal(
    d: &DynamicContext,
    s: Option<Vec<Vec<SequenceConstructor>>>,
    _i: Option<Item>,
) -> (r: Result<Vec<Item>, Error>)
    requires
        comparison(s.repr(), d.repr(), Operator::LessThanEqual, true) is Some,
    ensures
        Some(evaluated(r)) == comparison(s.repr(), d.repr(), Operator::LessThanEqual, true),
{
    compare_args(&s, d, Operator::LessThanEqual, true)
}

/// A general comparison: whether some item of the first operand is greater than some
/// item of the second.
pub fn comparison_general_greaterthan(
    d: &DynamicContext,
    s: Option<Vec<Vec<SequenceConstructor>>>,
    _i: Option<Item>,
) -> (r: Result<Vec<Item>, Error>)
    requires
        comparison(s.repr(), d.repr(), Operator::GreaterThan, true) is Some,
    ensures
        Some(evaluated(r)) == comparison(s.repr(), d.repr(), Operator::GreaterThan, true),
{
    compare_args(&s, d, Operator::GreaterThan, true)
}

/// A general comparison: whether some item of the first operand is at least some
/// item of the second.
pub fn comparison_general_greaterthanequal(
    d: &DynamicContext,
    s: Option<Vec<Vec<SequenceConstructor>>>,
    _i: Option<Item>,
) -> (r: Result<Vec<Item>, Error>)
    requires
        comparison(s.repr(), d.repr(), Operator::GreaterThanEqual, true) is Some,
    ensures
        Some(evaluated(r)) == comparison(s.repr(), d.repr(), Operator::GreaterThanEqual, true),
{
    compare_args(&s, d, Operator::GreaterThanEqual, true)
}

/// A value comparison: whether the one item of the first operand is equal to the
/// one item of the second.
pub fn comparison_value_equal(
    d: &DynamicContext,
    s: Option<Vec<Vec<SequenceConstructor>>>,
    _i: Option<Item>,
) -> (r: Result<Vec<Item>, Error>)
    requires
        comparison(s.repr(), d.repr(), Operator::Equal, false) is Some,
    ensures
        Some(evaluated(r)) == comparison(s.repr(), d.repr(), Operator::Equal, false),
{
    compare_args(&s, d, Operator::Equal, false)
}

/// A value comparison: whether the one item of the first operand is not equal to the
/// one item of the second.
pub fn comparison_value_notequal(
    d: &DynamicContext,
    s: Option<Vec<Vec<SequenceConstructor>>>,
    _i: Option<Item>,
) -> (r: Result<Vec<Item>, Error>)
    requires
        comparison(s.repr(), d.repr(), Operator::NotEqual, false) is Some,
    ensures
        Some(evaluated(r)) == comparison(s.repr(), d.repr(), Operator::NotEqual, false),
{
    compare_args(&s, d, Operator::NotEqual, false)
}

/// A value comparison: whether the one item of the first operand is less than the
/// one item of the second.
pub fn comparison_value_lessthan(
    d: &DynamicContext,
    s: Option<Vec<Vec<SequenceConstructor>>>,
    _i: Option<Item>,
) -> (r: Result<Vec<Item>, Error>)
    requires
        comparison(s.repr(), d.repr(), Operator::LessThan, false) is Some,
    ensures
        Some(evaluated(r)) == comparison(s.repr(), d.repr(), Operator::LessThan, false),
{
    compare_args(&s, d, Operator::LessThan, false)
}

/// A value comparison: whether the one item of the first operand is at most the
/// one item of the second.
pub fn comparison_value_lessthanequal(
    d: &DynamicContext,
    s: Option<Vec<Vec<SequenceConstructor>>>,
    _i: Option<Item>,
) -> (r: Result<Vec<Item>, Error>)
    requires
        comparison(s.repr(), d.repr(), Operator::LessThanEqual, false) is Some,
    ensures
        Some(evaluated(r)) == comparison(s.repr(), d.repr(), Operator::LessThanEqual, false),
{
    compare_args(&s, d, Operator::LessThanEqual, false)
}

/// A value comparison: whether the one item of the first operand is greater than the
/// one item of the second.
pub fn comparison_value_greaterthan(
    d: &DynamicContext,
    s: Option<Vec<Vec<SequenceConstructor>>>,
    _i: Option<Item>,
) -> (r: Result<Vec<Item>, Error>)
    requires
        comparison(s.repr(), d.repr(), Operator::GreaterThan, false) is Some,
    ensures
        Some(evaluated(r)) == comparison(s.repr(), d.repr(), Operator::GreaterThan, false),
{
    compare_args(&s, d, Operator::GreaterThan, false)
}

/// A value comparison: whether the one item of the first operand is at least the
/// one item of the second.
pub fn comparison_value_greaterthanequal(
    d: &DynamicContext,
    s: Option<Vec<Vec<SequenceConstructor>>>,
    _i: Option<Item>,
) -> (r: Result<Vec<Item>, Error>)
    requires
        comparison(s.repr(), d.repr(), Operator::GreaterThanEqual, false) is Some,
    ensures
        Some(evaluated(r)) == comparison(s.repr(), d.repr(), Operator::GreaterThanEqual, false),
{
    compare_args(&s, d, Operator::GreaterThanEqual, false)
}

} // verus!
