//! Truthiness and equality of values.
use vstd::prelude::*;

use crate::double::{
    double_eq, double_equals, double_is_zero, is_nan_bits, is_zero_bits, lemma_double_eq_reflexive,
    lemma_double_eq_symmetric,
};
use crate::value::{projection, Number, Value};

verus! {

/// A value is truthy unless it is a number whose double is zero, `false`,
/// null, the empty string, the empty array or the empty object.
pub open spec fn truthy(v: Value) -> bool {
    match v {
        Value::Number(n) => !is_zero_bits(projection(n)),
        Value::Bool(b) => b,
        Value::Null => false,
        Value::String(s) => s@.len() > 0,
        Value::Array(a) => a@.len() > 0,
        Value::Object(o) => o@.len() > 0,
    }
}

/// Equality of numbers by representation: two integers of the same kind are
/// equal when their values are, two floating-point numbers when they are
/// equal as doubles, and an integer never equals a floating-point number.
pub open spec fn same_number(a: Number, b: Number) -> bool {
    match (a, b) {
        (Number::PosInt(x), Number::PosInt(y)) => x == y,
        (Number::NegInt(x), Number::NegInt(y)) => x == y,
        (Number::Float(x), Number::Float(y)) => double_eq(x, y),
        _ => false,
    }
}

/// The index of the last entry among the first `end` entries whose key is
/// `key`, or -1 when there is none.
pub open spec fn last_index_of_key(entries: Seq<(String, Value)>, key: Seq<char>, end: int) -> int
    decreases end,
{
    if end <= 0 {
        -1
    } else if entries[end - 1].0@ == key {
        end - 1
    } else {
        last_index_of_key(entries, key, end - 1)
    }
}

/// The index of the entry that gives an object's value under `key`: the last
/// entry with that key, so that a later entry overrides an earlier one. It is
/// -1 when the object has no such key.
pub open spec fn key_position(entries: Seq<(String, Value)>, key: Seq<char>) -> int {
    last_index_of_key(entries, key, entries.len() as int)
}

/// Structural equality: the same variant and equal contents. Arrays are
/// compared element by element in order. Objects are compared as maps: they
/// have the same keys, and equal values under each key, whatever the order of
/// the entries.
pub open spec fn structurally_equal(l: Value, r: Value) -> bool
    decreases l,
{
    match l {
        Value::Null => r is Null,
        Value::Bool(x) => r matches Value::Bool(y) && x == y,
        Value::Number(x) => r matches Value::Number(y) && same_number(x, y),
        Value::String(x) => r matches Value::String(y) && x@ == y@,
        Value::Array(x) => r matches Value::Array(y) && {
            &&& x@.len() == y@.len()
            &&& forall|i: int| #![trigger x@[i]] 0 <= i < x@.len() ==> structurally_equal(x@[i], y@[i])
        },
        Value::Object(x) => r matches Value::Object(y) && {
            &&& (forall|i: int|
                #![trigger x@[i]]
                0 <= i < x@.len() && key_position(x@, x@[i].0@) == i ==> {
                    let k = key_position(y@, x@[i].0@);
                    0 <= k < y@.len() && structurally_equal(x@[i].1, y@[k].1)
                })
            &&& (forall|j: int|
                #![trigger y@[j]]
                0 <= j < y@.len() && key_position(y@, y@[j].0@) == j ==> {
                    let k = key_position(x@, y@[j].0@);
                    0 <= k < x@.len() && structurally_equal(x@[k].1, y@[j].1)
                })
        },
    }
}

/// The entry at `i` of `a`, unless a later entry of `a` overrides it, has a
/// structurally equal value under its key in `b`.
spec fn left_entry_agrees(a: Seq<(String, Value)>, b: Seq<(String, Value)>, i: int) -> bool {
    key_position(a, a[i].0@) == i ==> {
        let k = key_position(b, a[i].0@);
        0 <= k < b.len() && structurally_equal(a[i].1, b[k].1)
    }
}

/// The entry at `j` of `b`, unless a later entry of `b` overrides it, has a
/// structurally equal value under its key in `a`.
spec fn right_entry_agrees(a: Seq<(String, Value)>, b: Seq<(String, Value)>, j: int) -> bool {
    key_position(b, b[j].0@) == j ==> {
        let k = key_position(a, b[j].0@);
        0 <= k < a.len() && structurally_equal(a[k].1, b[j].1)
    }
}

/// Equality of values: two numbers are equal when their doubles are, so an
/// integer equals the floating-point number of the same value; any other
/// pair is compared structurally.
pub open spec fn equal(l: Value, r: Value) -> bool {
    match (l, r) {
        (Value::Number(a), Value::Number(b)) => double_eq(projection(a), projection(b)),
        _ => structurally_equal(l, r),
    }
}

/// Whether a value is truthy.
pub fn is_truthy(value: &Value) -> (r: bool)
    ensures
        r == truthy(*value),
        *value matches Value::Number(Number::PosInt(u)) ==> r == (u != 0),
        *value matches Value::Number(Number::NegInt(i)) ==> r == (i != 0),
{
    match value {
        Value::Number(n) => !double_is_zero(n.as_double_bits()),
        Value::Bool(b) => *b,
        Value::Null => false,
        Value::String(s) => !s.as_str().is_empty(),
        Value::Array(a) => a.len() > 0,
        Value::Object(o) => o.len() > 0,
    }
}

/// Whether two values are equal, numbers compared by their doubles.
pub fn is_equal(l: &Value, r: &Value) -> (res: bool)
    ensures
        res == equal(*l, *r),
{
    match (l, r) {
        (Value::Number(a), Value::Number(b)) => double_equals(a.as_double_bits(), b.as_double_bits()),
        _ => values_equal(l, r),
    }
}

/// Equality of numbers by representation.
fn numbers_equal(a: &Number, b: &Number) -> (res: bool)
    ensures
        res == same_number(*a, *b),
{
    match (a, b) {
        (Number::PosInt(x), Number::PosInt(y)) => *x == *y,
        (Number::NegInt(x), Number::NegInt(y)) => *x == *y,
        (Number::Float(x), Number::Float(y)) => double_equals(*x, *y),
        _ => false,
    }
}

/// The index of the entry that gives the object's value under `key`.
fn find_key(entries: &Vec<(String, Value)>, key: &String) -> (r: Option<usize>)
    ensures
        match r {
            Some(k) => k == key_position(entries@, key@) && k < entries@.len(),
            None => key_position(entries@, key@) == -1,
        },
{
    let mut end: usize = entries.len();
    while end > 0
        invariant
            end <= entries@.len(),
            last_index_of_key(entries@, key@, end as int) == key_position(entries@, key@),
        decreases end,
    {
        if entries[end - 1].0 == *key {
            return Some(end - 1);
        }
        end -= 1;
    }
    None
}

/// Structural equality of two values.
fn values_equal(l: &Value, r: &Value) -> (res: bool)
    ensures
        res == structurally_equal(*l, *r),
    decreases l,
{
    match (l, r) {
        (Value::Null, Value::Null) => true,
        (Value::Bool(a), Value::Bool(b)) => *a == *b,
        (Value::Number(a), Value::Number(b)) => numbers_equal(a, b),
        (Value::String(a), Value::String(b)) => *a == *b,
        (Value::Array(a), Value::Array(b)) => {
            if a.len() != b.len() {
                return false;
            }
            let mut i: usize = 0;
            while i < a.len()
                invariant
                    *l == Value::Array(*a),
                    *r == Value::Array(*b),
                    a@.len() == b@.len(),
                    i <= a@.len(),
                    forall|k: int| 0 <= k < i ==> structurally_equal(a@[k], b@[k]),
                decreases a@.len() - i,
            {
                proof {
                    assert(decreases_to!(*l => (*l)->Array_0));
                    assert(decreases_to!(*a => a@[i as int]));
                }
                if !values_equal(&a[i], &b[i]) {
                    return false;
                }
                i += 1;
            }
            true
        },
        (Value::Object(a), Value::Object(b)) => {
            let mut i: usize = 0;
            while i < a.len()
                invariant
                    *l == Value::Object(*a),
                    *r == Value::Object(*b),
                    i <= a@.len(),
                    forall|k: int| #![trigger a@[k]] 0 <= k < i ==> left_entry_agrees(a@, b@, k),
                decreases a@.len() - i,
            {
                if find_key(a, &a[i].0) == Some(i) {
                    match find_key(b, &a[i].0) {
                        None => {
                            assert((*l)->Object_0@[i as int] == a@[i as int]);
                            return false;
                        },
                        Some(k) => {
                            proof {
                                assert(decreases_to!(*l => (*l)->Object_0));
                                assert(decreases_to!(*a => a@[i as int]));
                                assert(decreases_to!(a@[i as int] => a@[i as int].1));
                            }
                            if !values_equal(&a[i].1, &b[k].1) {
                                return false;
                            }
                        },
                    }
                }
                i += 1;
            }
            let mut j: usize = 0;
            while j < b.len()
                invariant
                    *l == Value::Object(*a),
                    *r == Value::Object(*b),
                    j <= b@.len(),
                    forall|k: int| #![trigger a@[k]] 0 <= k < a@.len() ==> left_entry_agrees(a@, b@, k),
                    forall|k: int| #![trigger b@[k]] 0 <= k < j ==> right_entry_agrees(a@, b@, k),
                decreases b@.len() - j,
            {
                if find_key(b, &b[j].0) == Some(j) {
                    match find_key(a, &b[j].0) {
                        None => {
                            assert((*r)->Object_0@[j as int] == b@[j as int]);
                            return false;
                        },
                        Some(k) => {
                            proof {
                                assert(decreases_to!(*l => (*l)->Object_0));
                                assert(decreases_to!(*a => a@[k as int]));
                                assert(decreases_to!(a@[k as int] => a@[k as int].1));
                            }
                            if !values_equal(&a[k].1, &b[j].1) {
                                return false;
                            }
                        },
                    }
                }
                j += 1;
            }
            true
        },
        _ => false,
    }
}

/// A value holds a NaN: it is a number whose double is a NaN, or an array or
/// object with such a value somewhere inside.
pub open spec fn contains_nan(v: Value) -> bool
    decreases v,
{
    match v {
        Value::Number(n) => is_nan_bits(projection(n)),
        Value::Array(x) => exists|i: int| 0 <= i < x@.len() && contains_nan(#[trigger] x@[i]),
        Value::Object(x) => exists|i: int| 0 <= i < x@.len() && contains_nan(#[trigger] x@[i].1),
        _ => false,
    }
}

/// Structural equality gives the same answer in either order.
proof fn lemma_structurally_equal_symmetric(l: Value, r: Value)
    ensures
        structurally_equal(l, r) == structurally_equal(r, l),
    decreases l,
{
    match l {
        Value::Array(x) => {
            if r is Array {
                let y = r->Array_0;
                assert forall|i: int|
                    #![trigger x@[i]]
                    0 <= i < x@.len() && i < y@.len() implies structurally_equal(x@[i], y@[i])
                        == structurally_equal(y@[i], x@[i]) by {
                    assert(decreases_to!(l => l->Array_0));
                    assert(decreases_to!(x => x@[i]));
                    lemma_structurally_equal_symmetric(x@[i], y@[i]);
                }
            }
        },
        Value::Object(x) => {
            if r is Object {
                let y = r->Object_0;
                assert forall|i: int, k: int|
                    #![trigger x@[i], y@[k]]
                    0 <= i < x@.len() && 0 <= k < y@.len() implies structurally_equal(x@[i].1, y@[k].1)
                        == structurally_equal(y@[k].1, x@[i].1) by {
                    assert(decreases_to!(l => l->Object_0));
                    assert(decreases_to!(x => x@[i]));
                    assert(decreases_to!(x@[i] => x@[i].1));
                    lemma_structurally_equal_symmetric(x@[i].1, y@[k].1);
                }
            }
        },
        _ => {},
    }
}

/// Equality is symmetric: comparing two values gives the same answer in
/// either order.
pub proof fn lemma_is_equal_symmetric(l: Value, r: Value)
    ensures
        equal(l, r) == equal(r, l),
{
    lemma_structurally_equal_symmetric(l, r);
    if l is Number && r is Number {
        lemma_double_eq_symmetric(projection(l->Number_0), projection(r->Number_0));
    }
}

/// A value without a NaN inside is structurally equal to itself.
proof fn lemma_structurally_equal_reflexive(v: Value)
    requires
        !contains_nan(v),
    ensures
        structurally_equal(v, v),
    decreases v,
{
    match v {
        Value::Number(n) => {
            if let Number::Float(bits) = n {
                lemma_double_eq_reflexive(bits);
            }
            assert(same_number(n, n));
        },
        Value::Array(x) => {
            assert forall|i: int| #![trigger x@[i]] 0 <= i < x@.len() implies structurally_equal(x@[i], x@[i]) by {
                assert(decreases_to!(v => v->Array_0));
                assert(decreases_to!(x => x@[i]));
                lemma_structurally_equal_reflexive(x@[i]);
            }
        },
        Value::Object(x) => {
            assert forall|i: int| #![trigger x@[i]] 0 <= i < x@.len() implies structurally_equal(x@[i].1, x@[i].1) by {
                assert(decreases_to!(v => v->Object_0));
                assert(decreases_to!(x => x@[i]));
                assert(decreases_to!(x@[i] => x@[i].1));
                lemma_structurally_equal_reflexive(x@[i].1);
            }
        },
        _ => {},
    }
}

/// Equality is reflexive on values without a NaN inside: such a value equals
/// itself.
pub proof fn lemma_is_equal_reflexive(v: Value)
    requires
        !contains_nan(v),
    ensures
        equal(v, v),
{
    lemma_structurally_equal_reflexive(v);
    if v is Number {
        lemma_double_eq_reflexive(projection(v->Number_0));
    }
}

} // verus!
