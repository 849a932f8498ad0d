//! A JSON document model: the values payloads, resource scopes and tool
//! schemas are made of.
use vstd::prelude::*;
use crate::text::str_eq;

verus! {

/// A JSON number, held exactly as written: `mantissa / 10^scale`. Integers
/// have scale 0.
#[derive(Debug, Clone, Copy, PartialEq, Eq, Structural)]
pub struct JsonNumber {
    pub mantissa: i128,
    pub scale: u32,
}

/// A JSON value. Object members keep their order; lookups take the first
/// member with the key.
#[derive(Debug)]
pub enum JsonValue {
    Null,
    Bool(bool),
    Number(JsonNumber),
    String(String),
    Array(Vec<JsonValue>),
    Object(Vec<(String, JsonValue)>),
}

/// The position of the first member named `key`, if any.
pub open spec fn member_pos(members: Seq<(String, JsonValue)>, key: Seq<char>) -> Option<int>
    decreases members.len(),
{
    if members.len() == 0 {
        None
    } else if members[0].0@ == key {
        Some(0)
    } else {
        match member_pos(members.drop_first(), key) {
            Some(i) => Some(i + 1),
            None => None,
        }
    }
}

pub proof fn lemma_member_pos_bounds(members: Seq<(String, JsonValue)>, key: Seq<char>)
    ensures
        member_pos(members, key) matches Some(i) ==> 0 <= i < members.len() && members[i].0@ == key && forall|j: int| 0 <= j < i ==> members[j].0@ != key,
        member_pos(members, key) is None ==> forall|j: int| 0 <= j < members.len() ==> members[j].0@ != key,
    decreases members.len(),
{
    if members.len() > 0 {
        lemma_member_pos_bounds(members.drop_first(), key);
        if members[0].0@ != key {
            assert forall|j: int| 1 <= j < members.len() implies members[j] == members.drop_first()[j - 1] by {}
        }
    }
}

/// A member value lies strictly inside the object that holds it.
pub proof fn lemma_member_decreases(v: JsonValue, key: Seq<char>)
    requires
        member(v, key) is Some,
    ensures
        decreases_to!(v => member(v, key).unwrap()),
{
    match v {
        JsonValue::Object(ms) => {
            lemma_member_pos_bounds(ms@, key);
            let p = member_pos(ms@, key).unwrap();
            assert(decreases_to!(v => ms));
            assert(decreases_to!(ms => ms@));
            assert(decreases_to!(ms@ => ms@[p]));
            assert(decreases_to!(ms@[p] => ms@[p].1));
        },
        _ => {},
    }
}

/// The value of the first member named `key` of an object, if any.
pub open spec fn member(v: JsonValue, key: Seq<char>) -> Option<JsonValue> {
    match v {
        JsonValue::Object(members) => match member_pos(members@, key) {
            Some(i) => Some(members@[i].1),
            None => None,
        },
        _ => None,
    }
}

/// The text of a string value.
pub open spec fn text_of(v: Option<JsonValue>) -> Option<Seq<char>> {
    match v {
        Some(JsonValue::String(s)) => Some(s@),
        _ => None,
    }
}

/// Two JSON values with the same content.
pub open spec fn json_same(a: JsonValue, b: JsonValue) -> bool
    decreases a,
{
    match a {
        JsonValue::Null => b is Null,
        JsonValue::Bool(x) => b matches JsonValue::Bool(y) && x == y,
        JsonValue::Number(x) => b matches JsonValue::Number(y) && x == y,
        JsonValue::String(x) => b matches JsonValue::String(y) && x@ == y@,
        JsonValue::Array(xs) => b matches JsonValue::Array(ys) && {
            proof {
                assert(decreases_to!(a => xs));
                assert(decreases_to!(xs => xs@));
            }
            items_same(xs@, ys@)
        },
        JsonValue::Object(ms) => b matches JsonValue::Object(ns) && {
            proof {
                assert(decreases_to!(a => ms));
                assert(decreases_to!(ms => ms@));
            }
            members_same(ms@, ns@)
        },
    }
}

/// Two sequences of JSON values with the same content, item by item.
pub open spec fn items_same(xs: Seq<JsonValue>, ys: Seq<JsonValue>) -> bool
    decreases xs,
{
    if xs.len() == 0 {
        ys.len() == 0
    } else {
        ys.len() > 0 && json_same(xs[0], ys[0]) && items_same(xs.drop_first(), ys.drop_first())
    }
}

/// Two sequences of object members with the same keys and values, in order.
pub open spec fn members_same(ms: Seq<(String, JsonValue)>, ns: Seq<(String, JsonValue)>) -> bool
    decreases ms,
{
    if ms.len() == 0 {
        ns.len() == 0
    } else {
        ns.len() > 0 && ms[0].0@ == ns[0].0@ && json_same(ms[0].1, ns[0].1) && members_same(ms.drop_first(), ns.drop_first())
    }
}

proof fn lemma_items_same_pairwise(xs: Seq<JsonValue>, ys: Seq<JsonValue>)
    requires
        xs.len() == ys.len(),
        forall|i: int| 0 <= i < xs.len() ==> json_same(#[trigger] xs[i], ys[i]),
    ensures
        items_same(xs, ys),
    decreases xs.len(),
{
    if xs.len() > 0 {
        assert forall|i: int| 0 <= i < xs.drop_first().len() implies json_same(
            #[trigger] xs.drop_first()[i],
            ys.drop_first()[i],
        ) by {
            assert(xs.drop_first()[i] == xs[i + 1]);
            assert(ys.drop_first()[i] == ys[i + 1]);
        }
        lemma_items_same_pairwise(xs.drop_first(), ys.drop_first());
    }
}

proof fn lemma_members_same_pairwise(ms: Seq<(String, JsonValue)>, ns: Seq<(String, JsonValue)>)
    requires
        ms.len() == ns.len(),
        forall|i: int| 0 <= i < ms.len() ==> (#[trigger] ms[i]).0@ == ns[i].0@ && json_same(ms[i].1, ns[i].1),
    ensures
        members_same(ms, ns),
    decreases ms.len(),
{
    if ms.len() > 0 {
        assert forall|i: int| 0 <= i < ms.drop_first().len() implies (#[trigger] ms.drop_first()[i]).0@
            == ns.drop_first()[i].0@ && json_same(ms.drop_first()[i].1, ns.drop_first()[i].1) by {
            assert(ms.drop_first()[i] == ms[i + 1]);
            assert(ns.drop_first()[i] == ns[i + 1]);
        }
        lemma_members_same_pairwise(ms.drop_first(), ns.drop_first());
    }
}

/// Every value has the same content as itself.
pub proof fn lemma_json_same_refl(v: JsonValue)
    ensures
        json_same(v, v),
    decreases v,
{
    match v {
        JsonValue::Array(xs) => {
            assert forall|i: int| 0 <= i < xs@.len() implies json_same(#[trigger] xs@[i], xs@[i]) by {
                assert(decreases_to!(v => xs));
                assert(decreases_to!(xs => xs@));
                assert(decreases_to!(xs@ => xs@[i]));
                lemma_json_same_refl(xs@[i]);
            }
            lemma_items_same_pairwise(xs@, xs@);
        },
        JsonValue::Object(ms) => {
            assert forall|i: int| 0 <= i < ms@.len() implies (#[trigger] ms@[i]).0@ == ms@[i].0@ && json_same(
                ms@[i].1,
                ms@[i].1,
            ) by {
                assert(decreases_to!(v => ms));
                assert(decreases_to!(ms => ms@));
                assert(decreases_to!(ms@ => ms@[i]));
                assert(decreases_to!(ms@[i] => ms@[i].1));
                lemma_json_same_refl(ms@[i].1);
            }
            lemma_members_same_pairwise(ms@, ms@);
        },
        _ => {},
    }
}

pub(crate) fn duplicate_items(xs: &Vec<JsonValue>) -> (r: Vec<JsonValue>)
    ensures
        items_same(xs@, r@),
    decreases xs,
{
    let mut out: Vec<JsonValue> = Vec::new();
    let mut i: usize = 0;
    while i < xs.len()
        invariant
            i <= xs@.len(),
            out@.len() == i,
            forall|j: int| 0 <= j < i ==> json_same(#[trigger] xs@[j], out@[j]),
        decreases xs@.len() - i,
    {
        proof {
            broadcast use vstd::std_specs::vec::axiom_vec_index_decreases;
            assert(decreases_to!(xs => xs[i as int]));
        }
        let d = xs[i].duplicate();
        out.push(d);
        i = i + 1;
    }
    proof {
        lemma_items_same_pairwise(xs@, out@);
    }
    out
}

fn duplicate_members(ms: &Vec<(String, JsonValue)>) -> (r: Vec<(String, JsonValue)>)
    ensures
        members_same(ms@, r@),
    decreases ms,
{
    let mut out: Vec<(String, JsonValue)> = Vec::new();
    let mut i: usize = 0;
    while i < ms.len()
        invariant
            i <= ms@.len(),
            out@.len() == i,
            forall|j: int| 0 <= j < i ==> (#[trigger] ms@[j]).0@ == out@[j].0@ && json_same(ms@[j].1, out@[j].1),
        decreases ms@.len() - i,
    {
        proof {
            broadcast use vstd::std_specs::vec::axiom_vec_index_decreases;
            assert(decreases_to!(ms => ms[i as int]));
            assert(decreases_to!(ms[i as int] => ms[i as int].1));
        }
        let d = ms[i].1.duplicate();
        out.push((ms[i].0.clone(), d));
        i = i + 1;
    }
    proof {
        lemma_members_same_pairwise(ms@, out@);
    }
    out
}

// ---------------------------------------------------------------------------
// Number order

/// `10^n`.
pub open spec fn pow10(n: nat) -> int
    decreases n,
{
    if n == 0 {
        1
    } else {
        10 * pow10((n - 1) as nat)
    }
}

proof fn lemma_pow10_positive(n: nat)
    ensures
        pow10(n) >= 1,
        n >= 1 ==> pow10(n) >= 10,
    decreases n,
{
    if n > 0 {
        lemma_pow10_positive((n - 1) as nat);
    }
}

proof fn lemma_pow10_adds(a: nat, b: nat)
    ensures
        pow10(a + b) == pow10(a) * pow10(b),
    decreases b,
{
    if b > 0 {
        lemma_pow10_adds(a, (b - 1) as nat);
        assert(pow10(a + b) == 10 * pow10((a + b - 1) as nat));
        assert(pow10(a) * pow10(b) == pow10(a) * (10 * pow10((b - 1) as nat)));
        assert(pow10(a) * (10 * pow10((b - 1) as nat)) == 10 * (pow10(a) * pow10((b - 1) as nat))) by (nonlinear_arith);
    }
}

/// The sign of `a - b` for JSON numbers taken as the exact decimals they
/// write: -1, 0 or 1.
pub open spec fn number_order(a: JsonNumber, b: JsonNumber) -> int {
    let x = a.mantissa * pow10(b.scale as nat);
    let y = b.mantissa * pow10(a.scale as nat);
    if x < y {
        -1
    } else if x == y {
        0
    } else {
        1
    }
}

/// The sign of `m * 10^d - n`.
pub open spec fn scaled_order(m: int, d: nat, n: int) -> int {
    if m * pow10(d) < n {
        -1
    } else if m * pow10(d) == n {
        0
    } else {
        1
    }
}

proof fn lemma_scaled_big(x: int, p: nat, n: int)
    requires
        x * 10 > i128::MAX || x * 10 < i128::MIN,
        p >= 1,
        i128::MIN <= n <= i128::MAX,
    ensures
        x > 0 ==> x * pow10(p) > n,
        x < 0 ==> x * pow10(p) < n,
{
    lemma_pow10_positive(p);
    let q = pow10(p);
    if x > 0 {
        assert(x * q >= x * 10) by (nonlinear_arith)
            requires
                x > 0,
                q >= 10,
        ;
    }
    if x < 0 {
        assert(x * q <= x * 10) by (nonlinear_arith)
            requires
                x < 0,
                q >= 10,
        ;
    }
}

/// The sign of `m * 10^d - n`, computed without overflow.
fn scaled_compare(m: i128, d: u32, n: i128) -> (r: i8)
    ensures
        r as int == scaled_order(m as int, d as nat, n as int),
{
    if m == 0 {
        assert(0 * pow10(d as nat) == 0);
        return if 0 < n { -1 } else if n == 0 { 0 } else { 1 };
    }
    let mut x: i128 = m;
    let mut k: u32 = 0;
    proof {
        assert(pow10(0) == 1);
    }
    while k < d
        invariant
            k <= d,
            m != 0,
            x as int == m * pow10(k as nat),
        decreases d - k,
    {
        match x.checked_mul(10) {
            Some(y) => {
                proof {
                    assert(pow10((k + 1) as nat) == 10 * pow10(k as nat));
                    assert(m * (10 * pow10(k as nat)) == (m * pow10(k as nat)) * 10) by (nonlinear_arith);
                }
                x = y;
                k = k + 1;
            },
            None => {
                proof {
                    let rest = (d - k) as nat;
                    lemma_pow10_adds(k as nat, rest);
                    assert(m * pow10(d as nat) == (m * pow10(k as nat)) * pow10(rest)) by (nonlinear_arith)
                        requires
                            pow10(d as nat) == pow10(k as nat) * pow10(rest),
                    ;
                    lemma_scaled_big(x as int, rest, n as int);
                    lemma_pow10_positive(k as nat);
                    assert(x as int != 0) by (nonlinear_arith)
                        requires
                            x as int == m * pow10(k as nat),
                            m != 0,
                            pow10(k as nat) >= 1,
                    ;
                }
                return if x > 0 { 1 } else { -1 };
            },
        }
    }
    if x < n {
        -1
    } else if x == n {
        0
    } else {
        1
    }
}

proof fn lemma_cancel_common(m: int, n: int, c: nat, d: nat)
    requires
        pow10(c) >= 1,
    ensures
        scaled_order(m, d, n) == (if m * pow10(d + c) < n * pow10(c) {
            -1int
        } else if m * pow10(d + c) == n * pow10(c) {
            0int
        } else {
            1int
        }),
{
    lemma_pow10_adds(d, c);
    let p = pow10(c);
    let a = m * pow10(d);
    assert(m * pow10(d + c) == a * p) by (nonlinear_arith)
        requires
            pow10(d + c) == pow10(d) * p,
            a == m * pow10(d),
    ;
    assert(a < n <==> a * p < n * p) by (nonlinear_arith)
        requires
            p >= 1,
    ;
    assert(a == n <==> a * p == n * p) by (nonlinear_arith)
        requires
            p >= 1,
    ;
}

/// Compares two JSON numbers as the exact decimals they write: -1 when
/// `a < b`, 0 when equal, 1 when `a > b`.
pub fn compare_numbers(a: JsonNumber, b: JsonNumber) -> (r: i8)
    ensures
        r as int == number_order(a, b),
{
    proof {
        lemma_pow10_positive(a.scale as nat);
        lemma_pow10_positive(b.scale as nat);
    }
    if a.scale <= b.scale {
        let d = b.scale - a.scale;
        let r = scaled_compare(a.mantissa, d, b.mantissa);
        proof {
            lemma_cancel_common(a.mantissa as int, b.mantissa as int, a.scale as nat, d as nat);
            assert((d + a.scale) as nat == b.scale as nat);
        }
        r
    } else {
        let d = a.scale - b.scale;
        let r = scaled_compare(b.mantissa, d, a.mantissa);
        proof {
            lemma_cancel_common(b.mantissa as int, a.mantissa as int, b.scale as nat, d as nat);
            assert((d + b.scale) as nat == a.scale as nat);
        }
        -r
    }
}

// ---------------------------------------------------------------------------
// Equality

/// Two numbers are equal when both are integers or both are decimals, and
/// they have the same value.
pub open spec fn numbers_equal(a: JsonNumber, b: JsonNumber) -> bool {
    (a.scale == 0) == (b.scale == 0) && number_order(a, b) == 0
}

/// JSON equality: objects compare as maps from keys to values, without
/// regard to member order.
pub open spec fn json_equal(a: JsonValue, b: JsonValue) -> bool
    decreases a,
{
    match a {
        JsonValue::Null => b is Null,
        JsonValue::Bool(x) => b matches JsonValue::Bool(y) && x == y,
        JsonValue::Number(x) => b matches JsonValue::Number(y) && numbers_equal(x, y),
        JsonValue::String(x) => b matches JsonValue::String(y) && x@ == y@,
        JsonValue::Array(xs) => b matches JsonValue::Array(ys) && {
            proof {
                assert(decreases_to!(a => xs));
                assert(decreases_to!(xs => xs@));
            }
            items_equal(xs@, ys@)
        },
        JsonValue::Object(ms) => b matches JsonValue::Object(ns) && ms@.len() == ns@.len() && {
            proof {
                assert(decreases_to!(a => ms));
                assert(decreases_to!(ms => ms@));
            }
            members_found(ms@, ns@)
        },
    }
}

/// Equal item by item.
pub open spec fn items_equal(xs: Seq<JsonValue>, ys: Seq<JsonValue>) -> bool
    decreases xs,
{
    if xs.len() == 0 {
        ys.len() == 0
    } else {
        ys.len() > 0 && json_equal(xs[0], ys[0]) && items_equal(xs.drop_first(), ys.drop_first())
    }
}

/// Every member of `ms` has a member of `ns` with its key and an equal value.
pub open spec fn members_found(ms: Seq<(String, JsonValue)>, ns: Seq<(String, JsonValue)>) -> bool
    decreases ms,
{
    if ms.len() == 0 {
        true
    } else {
        match member_pos(ns, ms[0].0@) {
            Some(j) => json_equal(ms[0].1, ns[j].1) && members_found(ms.drop_first(), ns),
            None => false,
        }
    }
}

/// The position of the first member named `key`.
pub fn find_member(members: &Vec<(String, JsonValue)>, key: &str) -> (r: Option<usize>)
    ensures
        r.is_some() == member_pos(members@, key@).is_some(),
        r matches Some(x) ==> member_pos(members@, key@) == Some(x as int) && x < members@.len(),
{
    proof {
        lemma_member_pos_bounds(members@, key@);
    }
    let mut i: usize = 0;
    while i < members.len()
        invariant
            i <= members@.len(),
            forall|j: int| 0 <= j < i ==> members@[j].0@ != key@,
            member_pos(members@, key@) matches Some(p) ==> 0 <= p < members@.len() && members@[p].0@ == key@
                && forall|j: int| 0 <= j < p ==> members@[j].0@ != key@,
            member_pos(members@, key@) is None ==> forall|j: int| 0 <= j < members@.len() ==> members@[j].0@ != key@,
        decreases members@.len() - i,
    {
        if str_eq(members[i].0.as_str(), key) {
            proof {
                match member_pos(members@, key@) {
                    Some(p) => {
                        if p < i {
                            assert(members@[p].0@ != key@);
                        }
                        if p > i {
                            assert(members@[i as int].0@ != key@);
                        }
                    },
                    None => {
                        assert(members@[i as int].0@ != key@);
                    },
                }
            }
            return Some(i);
        }
        i = i + 1;
    }
    None
}

fn items_equal_exec(xs: &Vec<JsonValue>, ys: &Vec<JsonValue>) -> (r: bool)
    ensures
        r == items_equal(xs@, ys@),
    decreases xs,
{
    let mut i: usize = 0;
    assert(xs@.subrange(0, xs@.len() as int) =~= xs@);
    assert(ys@.subrange(0, ys@.len() as int) =~= ys@);
    while i < xs.len()
        invariant
            i <= xs@.len(),
            i <= ys@.len(),
            items_equal(xs@, ys@) == items_equal(
                xs@.subrange(i as int, xs@.len() as int),
                ys@.subrange(i as int, ys@.len() as int),
            ),
        decreases xs@.len() - i,
    {
        if i >= ys.len() {
            return false;
        }
        proof {
            broadcast use vstd::std_specs::vec::axiom_vec_index_decreases;
            assert(decreases_to!(xs => xs[i as int]));
            let a = xs@.subrange(i as int, xs@.len() as int);
            let b = ys@.subrange(i as int, ys@.len() as int);
            assert(a[0] == xs@[i as int]);
            assert(b[0] == ys@[i as int]);
            assert(a.drop_first() =~= xs@.subrange(i + 1, xs@.len() as int));
            assert(b.drop_first() =~= ys@.subrange(i + 1, ys@.len() as int));
        }
        if !json_equal_exec(&xs[i], &ys[i]) {
            return false;
        }
        i = i + 1;
    }
    i == ys.len()
}

fn members_found_exec(ms: &Vec<(String, JsonValue)>, ns: &Vec<(String, JsonValue)>) -> (r: bool)
    ensures
        r == members_found(ms@, ns@),
    decreases ms,
{
    let mut i: usize = 0;
    assert(ms@.subrange(0, ms@.len() as int) =~= ms@);
    while i < ms.len()
        invariant
            i <= ms@.len(),
            members_found(ms@, ns@) == members_found(ms@.subrange(i as int, ms@.len() as int), ns@),
        decreases ms@.len() - i,
    {
        proof {
            broadcast use vstd::std_specs::vec::axiom_vec_index_decreases;
            assert(decreases_to!(ms => ms[i as int]));
            assert(decreases_to!(ms[i as int] => ms[i as int].1));
            let a = ms@.subrange(i as int, ms@.len() as int);
            assert(a[0] == ms@[i as int]);
            assert(a.drop_first() =~= ms@.subrange(i + 1, ms@.len() as int));
        }
        match find_member(ns, ms[i].0.as_str()) {
            None => return false,
            Some(j) => {
                if !json_equal_exec(&ms[i].1, &ns[j].1) {
                    return false;
                }
            },
        }
        i = i + 1;
    }
    true
}

/// Whether two JSON values are equal: numbers by kind and value, arrays
/// item by item, objects as maps.
pub fn json_equal_exec(a: &JsonValue, b: &JsonValue) -> (r: bool)
    ensures
        r == json_equal(*a, *b),
    decreases a,
{
    match (a, b) {
        (JsonValue::Null, JsonValue::Null) => true,
        (JsonValue::Bool(x), JsonValue::Bool(y)) => *x == *y,
        (JsonValue::Number(x), JsonValue::Number(y)) => {
            ((x.scale == 0) == (y.scale == 0)) && compare_numbers(*x, *y) == 0
        },
        (JsonValue::String(x), JsonValue::String(y)) => str_eq(x.as_str(), y.as_str()),
        (JsonValue::Array(xs), JsonValue::Array(ys)) => items_equal_exec(xs, ys),
        (JsonValue::Object(ms), JsonValue::Object(ns)) => ms.len() == ns.len() && members_found_exec(ms, ns),
        _ => false,
    }
}

impl JsonValue {
    /// A deep copy of this value.
    pub fn duplicate(&self) -> (r: JsonValue)
        ensures
            json_same(*self, r),
        decreases self,
    {
        match self {
            JsonValue::Null => JsonValue::Null,
            JsonValue::Bool(b) => JsonValue::Bool(*b),
            JsonValue::Number(n) => JsonValue::Number(*n),
            JsonValue::String(t) => JsonValue::String(t.clone()),
            JsonValue::Array(xs) => JsonValue::Array(duplicate_items(xs)),
            JsonValue::Object(ms) => JsonValue::Object(duplicate_members(ms)),
        }
    }

    /// The value of the first member named `key`, when this is an object.
    pub fn get(&self, key: &str) -> (r: Option<&JsonValue>)
        ensures
            match r {
                Some(x) => member(*self, key@) == Some(*x),
                None => member(*self, key@) is None,
            },
    {
        match self {
            JsonValue::Object(members) => {
                let mut i: usize = 0;
                proof {
                    lemma_member_pos_bounds(members@, key@);
                }
                while i < members.len()
                    invariant
                        i <= members@.len(),
                        member(*self, key@) == (match member_pos(members@, key@) {
                            Some(p) => Some(members@[p].1),
                            None => None,
                        }),
                        forall|j: int| 0 <= j < i ==> members@[j].0@ != key@,
                        member_pos(members@, key@) matches Some(p) ==> 0 <= p < members@.len() && members@[p].0@ == key@ && forall|j: int| 0 <= j < p ==> members@[j].0@ != key@,
                        member_pos(members@, key@) is None ==> forall|j: int| 0 <= j < members@.len() ==> members@[j].0@ != key@,
                    decreases members@.len() - i,
                {
                    if str_eq(members[i].0.as_str(), key) {
                        proof {
                            match member_pos(members@, key@) {
                                Some(p) => {
                                    if p < i {
                                        assert(members@[p].0@ != key@);
                                    }
                                    if p > i {
                                        assert(members@[i as int].0@ != key@);
                                    }
                                },
                                None => {
                                    assert(members@[i as int].0@ != key@);
                                },
                            }
                        }
                        return Some(&members[i].1);
                    }
                    i = i + 1;
                }
                None
            },
            _ => None,
        }
    }

    /// The text of this value, when it is a string.
    pub fn as_str(&self) -> (r: Option<&str>)
        ensures
            match r {
                Some(s) => *self is String && text_of(Some(*self)) == Some(s@),
                None => !(*self is String),
            },
    {
        match self {
            JsonValue::String(s) => Some(s.as_str()),
            _ => None,
        }
    }

    /// The text of the member `key`, when it is a string.
    pub fn get_str(&self, key: &str) -> (r: Option<&str>)
        ensures
            match r {
                Some(s) => text_of(member(*self, key@)) == Some(s@),
                None => text_of(member(*self, key@)) is None,
            },
    {
        match self.get(key) {
            Some(v) => v.as_str(),
            None => None,
        }
    }
}

/// The content of a JSON value as a mathematical value: texts as
/// character sequences, arrays and objects as sequences.
pub enum JsonModel {
    Null,
    Bool(bool),
    Number(JsonNumber),
    Text(Seq<char>),
    Array(Seq<JsonModel>),
    Object(Seq<(Seq<char>, JsonModel)>),
}

/// The content of `v`.
pub open spec fn json_model(v: JsonValue) -> JsonModel
    decreases v,
{
    match v {
        JsonValue::Null => JsonModel::Null,
        JsonValue::Bool(b) => JsonModel::Bool(b),
        JsonValue::Number(n) => JsonModel::Number(n),
        JsonValue::String(t) => JsonModel::Text(t@),
        JsonValue::Array(xs) => {
            proof {
                assert(decreases_to!(v => xs));
                assert(decreases_to!(xs => xs@));
            }
            JsonModel::Array(items_model(xs@))
        },
        JsonValue::Object(ms) => {
            proof {
                assert(decreases_to!(v => ms));
                assert(decreases_to!(ms => ms@));
            }
            JsonModel::Object(members_model(ms@))
        },
    }
}

/// The content of each item.
pub open spec fn items_model(xs: Seq<JsonValue>) -> Seq<JsonModel>
    decreases xs,
{
    if xs.len() == 0 {
        Seq::empty()
    } else {
        seq![json_model(xs[0])] + items_model(xs.drop_first())
    }
}

/// The key and content of each member.
pub open spec fn members_model(ms: Seq<(String, JsonValue)>) -> Seq<(Seq<char>, JsonModel)>
    decreases ms,
{
    if ms.len() == 0 {
        Seq::empty()
    } else {
        seq![(ms[0].0@, json_model(ms[0].1))] + members_model(ms.drop_first())
    }
}

proof fn lemma_items_model_push(xs: Seq<JsonValue>, x: JsonValue)
    ensures
        items_model(xs.push(x)) == items_model(xs).push(json_model(x)),
    decreases xs.len(),
{
    if xs.len() == 0 {
        let s1 = xs.push(x);
        assert(s1.drop_first() =~= Seq::<JsonValue>::empty());
        assert(s1[0] == x);
        assert(items_model(s1.drop_first()) == Seq::<JsonModel>::empty());
        assert(items_model(s1) == seq![json_model(x)] + Seq::<JsonModel>::empty());
        assert(items_model(s1) =~= seq![json_model(x)]);
    } else {
        assert(xs.push(x).drop_first() =~= xs.drop_first().push(x));
        lemma_items_model_push(xs.drop_first(), x);
        assert(items_model(xs.push(x)) =~= items_model(xs).push(json_model(x)));
    }
}

proof fn lemma_members_model_push(ms: Seq<(String, JsonValue)>, m: (String, JsonValue))
    ensures
        members_model(ms.push(m)) == members_model(ms).push((m.0@, json_model(m.1))),
    decreases ms.len(),
{
    if ms.len() == 0 {
        let s1 = ms.push(m);
        assert(s1.drop_first() =~= Seq::<(String, JsonValue)>::empty());
        assert(s1[0] == m);
        assert(members_model(s1.drop_first()) == Seq::<(Seq<char>, JsonModel)>::empty());
        assert(members_model(s1) == seq![(m.0@, json_model(m.1))] + Seq::<(Seq<char>, JsonModel)>::empty());
        assert(members_model(s1) =~= seq![(m.0@, json_model(m.1))]);
    } else {
        assert(ms.push(m).drop_first() =~= ms.drop_first().push(m));
        lemma_members_model_push(ms.drop_first(), m);
        assert(members_model(ms.push(m)) =~= members_model(ms).push((m.0@, json_model(m.1))));
    }
}

/// A text value.
pub fn json_text(t: &str) -> (r: JsonValue)
    ensures
        json_model(r) == JsonModel::Text(t@),
{
    JsonValue::String(String::from_str(t))
}

/// An integer value.
pub fn json_int(n: i128) -> (r: JsonValue)
    ensures
        json_model(r) == JsonModel::Number(JsonNumber { mantissa: n, scale: 0 }),
{
    JsonValue::Number(JsonNumber { mantissa: n, scale: 0 })
}

/// A boolean value.
pub fn json_bool(b: bool) -> (r: JsonValue)
    ensures
        json_model(r) == JsonModel::Bool(b),
{
    JsonValue::Bool(b)
}

/// Appends member `k`: `v` to `ms`.
pub fn push_member(ms: &mut Vec<(String, JsonValue)>, k: &str, v: JsonValue)
    ensures
        members_model(final(ms)@) == members_model(old(ms)@).push((k@, json_model(v))),
{
    let ghost before = ms@;
    let m = (String::from_str(k), v);
    let ghost gm = m;
    ms.push(m);
    proof {
        lemma_members_model_push(before, gm);
    }
}

/// Appends item `v` to `xs`.
pub fn push_item(xs: &mut Vec<JsonValue>, v: JsonValue)
    ensures
        items_model(final(xs)@) == items_model(old(xs)@).push(json_model(v)),
{
    let ghost before = xs@;
    let ghost gv = v;
    xs.push(v);
    proof {
        lemma_items_model_push(before, gv);
    }
}

/// The object with members `ms`.
pub fn json_object(ms: Vec<(String, JsonValue)>) -> (r: JsonValue)
    ensures
        json_model(r) == JsonModel::Object(members_model(ms@)),
{
    JsonValue::Object(ms)
}

/// The array with items `xs`.
pub fn json_array(xs: Vec<JsonValue>) -> (r: JsonValue)
    ensures
        json_model(r) == JsonModel::Array(items_model(xs@)),
{
    JsonValue::Array(xs)
}

} // verus!
