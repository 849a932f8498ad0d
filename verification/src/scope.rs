//! Wildcard and resource-scope matching.
//!
//! A plain allow list matches a value when one of its entries is `*` or the
//! value itself. A resource-scope pattern additionally matches by prefix: the
//! pattern `kind:*` allows `kind` and every scope of the form `kind:...`.
use vstd::prelude::*;
use crate::text::{chars_of, str_eq, is_single_char};
use crate::json::{JsonValue, member, text_of};
use crate::error::AgentOsError;

verus! {

/// The one-character wildcard `*`.
pub open spec fn star() -> Seq<char> {
    seq!['*']
}

/// An allow list of plain names matches `value` when an entry is `*` or equals `value`.
pub open spec fn names_allow(list: Seq<Seq<char>>, value: Seq<char>) -> bool {
    exists|i: int| 0 <= i < list.len() && (list[i] == star() || list[i] == value)
}

/// `pattern` ends in the two characters `:*`.
pub open spec fn is_prefix_pattern(pattern: Seq<char>) -> bool {
    pattern.len() >= 2 && pattern[pattern.len() - 2] == ':' && pattern[pattern.len() - 1] == '*'
}

/// The part of a `prefix:*` pattern before `:*`.
pub open spec fn pattern_prefix(pattern: Seq<char>) -> Seq<char> {
    pattern.subrange(0, pattern.len() - 2)
}

/// `requested` is `prefix` followed by `:` and anything.
pub open spec fn extends_with_colon(requested: Seq<char>, prefix: Seq<char>) -> bool {
    requested.len() > prefix.len() && requested.subrange(0, prefix.len() as int) == prefix
        && requested[prefix.len() as int] == ':'
}

/// One allowed scope pattern matches one requested scope.
pub open spec fn pattern_allows(allowed: Seq<char>, requested: Seq<char>) -> bool {
    ||| allowed == star()
    ||| allowed == requested
    ||| (is_prefix_pattern(allowed) && (requested == pattern_prefix(allowed) || extends_with_colon(
        requested,
        pattern_prefix(allowed),
    )))
}

/// Some pattern of the list matches the requested scope.
pub open spec fn scopes_allow(allowed: Seq<Seq<char>>, requested: Seq<char>) -> bool {
    exists|i: int| 0 <= i < allowed.len() && pattern_allows(allowed[i], requested)
}

/// The character views of a list of strings.
pub open spec fn texts(list: Seq<String>) -> Seq<Seq<char>> {
    list.map_values(|s: String| s@)
}

/// Whether the plain allow list `list` admits `value` (`*` admits everything).
pub fn string_list_allows(list: &[String], value: &str) -> (r: bool)
    ensures
        r == names_allow(texts(list@), value@),
{
    let mut i: usize = 0;
    while i < list.len()
        invariant
            i <= list@.len(),
            forall|j: int| 0 <= j < i ==> !(list@[j]@ == star() || list@[j]@ == value@),
        decreases list@.len() - i,
    {
        let item = list[i].as_str();
        if is_single_char(item, '*') || str_eq(item, value) {
            assert(texts(list@)[i as int] == list@[i as int]@);
            return true;
        }
        i = i + 1;
    }
    assert forall|j: int| 0 <= j < texts(list@).len() implies !(texts(list@)[j] == star()
        || texts(list@)[j] == value@) by {
        assert(texts(list@)[j] == list@[j]@);
    }
    false
}

/// Whether the scope pattern `allowed` admits the requested scope.
pub fn scope_pattern_allows(allowed: &str, requested: &str) -> (r: bool)
    ensures
        r == pattern_allows(allowed@, requested@),
{
    if is_single_char(allowed, '*') || str_eq(allowed, requested) {
        return true;
    }
    let a = chars_of(allowed);
    let q = chars_of(requested);
    let n = a.len();
    if n < 2 || a[n - 2] != ':' || a[n - 1] != '*' {
        return false;
    }
    let p = n - 2;
    assert(pattern_prefix(a@) == a@.subrange(0, p as int));
    // requested must start with the prefix
    if q.len() < p {
        assert(q@ != pattern_prefix(a@));
        return false;
    }
    let mut i: usize = 0;
    while i < p
        invariant
            p == n - 2,
            n == a@.len(),
            a@ == allowed@,
            q@ == requested@,
            !(allowed@ == star() || allowed@ == requested@),
            is_prefix_pattern(a@),
            p <= q@.len(),
            i <= p,
            forall|j: int| 0 <= j < i ==> q@[j] == a@[j],
        decreases p - i,
    {
        if q[i] != a[i] {
            assert(pattern_prefix(a@).len() == p);
            assert(pattern_prefix(a@)[i as int] == a@[i as int]);
            assert(q@.subrange(0, p as int)[i as int] == q@[i as int]);
            assert(q@.subrange(0, p as int)[i as int] != pattern_prefix(a@)[i as int]);
            assert(q@.subrange(0, p as int) != pattern_prefix(a@));
            assert(q@ != pattern_prefix(a@)) by {
                if q@ == pattern_prefix(a@) {
                    assert(q@[i as int] == pattern_prefix(a@)[i as int]);
                }
            }
            assert(!extends_with_colon(q@, pattern_prefix(a@)));
            return false;
        }
        i = i + 1;
    }
    assert(q@.subrange(0, p as int) =~= pattern_prefix(a@));
    if q.len() == p {
        assert(q@ =~= pattern_prefix(a@));
        return true;
    }
    q[p] == ':'
}

/// Whether some pattern of `allowed_scopes` admits the requested scope.
pub fn scope_list_allows(allowed_scopes: &[String], requested_scope: &str) -> (r: bool)
    ensures
        r == scopes_allow(texts(allowed_scopes@), requested_scope@),
{
    let mut i: usize = 0;
    while i < allowed_scopes.len()
        invariant
            i <= allowed_scopes@.len(),
            forall|j: int| 0 <= j < i ==> !pattern_allows(allowed_scopes@[j]@, requested_scope@),
        decreases allowed_scopes@.len() - i,
    {
        if scope_pattern_allows(allowed_scopes[i].as_str(), requested_scope) {
            assert(texts(allowed_scopes@)[i as int] == allowed_scopes@[i as int]@);
            return true;
        }
        i = i + 1;
    }
    assert forall|j: int| 0 <= j < texts(allowed_scopes@).len() implies !pattern_allows(
        texts(allowed_scopes@)[j],
        requested_scope@,
    ) by {
        assert(texts(allowed_scopes@)[j] == allowed_scopes@[j]@);
    }
    false
}

/// The scope named by an object that has no `scope` member:
/// `resource_type:resource_id`, the id defaulting to `*`.
pub open spec fn object_scope_key(v: JsonValue) -> Option<Seq<Seq<char>>> {
    match text_of(member(v, "scope"@)) {
        Some(scope) => Some(seq![scope]),
        None => match text_of(member(v, "resource_type"@)) {
            None => None,
            Some(t) => {
                let id = match text_of(member(v, "resource_id"@)) {
                    Some(x) => x,
                    None => "*"@,
                };
                Some(seq![t + ":"@ + id])
            },
        },
    }
}

/// The resource scopes a request names: none for null or `{}`, the string
/// itself, the scopes of each array element in order, or the scope an object
/// describes. Other values name no valid scope.
pub open spec fn scope_keys(v: JsonValue) -> Option<Seq<Seq<char>>>
    decreases v, 0nat,
{
    match v {
        JsonValue::Null => Some(Seq::empty()),
        JsonValue::String(s) => Some(seq![s@]),
        JsonValue::Array(items) => scope_keys_all(items@, items@.len()),
        JsonValue::Object(members) => if members@.len() == 0 {
            Some(Seq::empty())
        } else {
            object_scope_key(v)
        },
        _ => None,
    }
}

/// The scopes of the first `n` items, concatenated; none if an item names none.
pub open spec fn scope_keys_all(items: Seq<JsonValue>, n: nat) -> Option<Seq<Seq<char>>>
    decreases items, n,
{
    if n == 0 || n > items.len() {
        Some(Seq::empty())
    } else {
        match scope_keys_all(items, (n - 1) as nat) {
            None => None,
            Some(prev) => match scope_keys(items[n - 1]) {
                None => None,
                Some(cur) => Some(prev + cur),
            },
        }
    }
}

/// The resource scopes that the request value `value` names.
pub fn requested_scope_key(value: &JsonValue) -> (r: Result<Vec<String>, AgentOsError>)
    ensures
        r.is_err() <==> scope_keys(*value) is None,
        r matches Ok(v) ==> Some(texts(v@)) == scope_keys(*value),
    decreases value,
{
    match value {
        JsonValue::Null => Ok(Vec::new()),
        JsonValue::String(s) => {
            let mut out: Vec<String> = Vec::new();
            out.push(s.clone());
            assert(texts(out@) =~= seq![s@]);
            Ok(out)
        },
        JsonValue::Array(items) => {
            let mut out: Vec<String> = Vec::new();
            let mut i: usize = 0;
            while i < items.len()
                invariant
                    i <= items@.len(),
                    *value == JsonValue::Array(*items),
                    scope_keys(*value) == scope_keys_all(items@, items@.len()),
                    scope_keys_all(items@, i as nat) == Some(texts(out@)),
                decreases items@.len() - i,
            {
                let inner = requested_scope_key(&items[i]);
                match inner {
                    Err(e) => {
                        proof {
                            lemma_scope_keys_all_none(items@, (i + 1) as nat, items@.len());
                        }
                        return Err(e);
                    },
                    Ok(keys) => {
                        let ghost before = texts(out@);
                        let mut j: usize = 0;
                        while j < keys.len()
                            invariant
                                j <= keys@.len(),
                                texts(out@) == before + texts(keys@).subrange(0, j as int),
                            decreases keys@.len() - j,
                        {
                            let ghost prev = out@;
                            out.push(keys[j].clone());
                            assert(out@ == prev.push(keys@[j as int]));
                            assert(texts(out@) =~= texts(prev).push(keys@[j as int]@));
                            assert(texts(keys@).subrange(0, j + 1) =~= texts(keys@).subrange(0, j as int).push(keys@[j as int]@));
                            assert(texts(out@) =~= before + texts(keys@).subrange(0, j + 1));
                            j = j + 1;
                        }
                        assert(texts(keys@).subrange(0, keys@.len() as int) =~= texts(keys@));
                    },
                }
                i = i + 1;
            }
            Ok(out)
        },
        JsonValue::Object(members) => {
            if members.len() == 0 {
                return Ok(Vec::new());
            }
            let mut out: Vec<String> = Vec::new();
            if let Some(scope) = value.get_str("scope") {
                out.push(String::from_str(scope));
                assert(texts(out@) =~= seq![scope@]);
                return Ok(out);
            }
            let resource_type = match value.get_str("resource_type") {
                Some(t) => t,
                None => return Err(AgentOsError::Validation("resource_scope object requires scope or resource_type")),
            };
            let resource_id = match value.get_str("resource_id") {
                Some(id) => id,
                None => "*",
            };
            let mut key = String::from_str(resource_type);
            key.append(":");
            key.append(resource_id);
            out.push(key);
            assert(texts(out@) =~= seq![resource_type@ + ":"@ + resource_id@]);
            Ok(out)
        },
        _ => Err(AgentOsError::Validation("resource_scope must be an object, string, or array")),
    }
}

/// Once a prefix of the items names no scope, no longer prefix does.
proof fn lemma_scope_keys_all_none(items: Seq<JsonValue>, n: nat, m: nat)
    requires
        n <= m <= items.len(),
        scope_keys_all(items, n) is None,
    ensures
        scope_keys_all(items, m) is None,
    decreases m - n,
{
    if n < m {
        lemma_scope_keys_all_none(items, (n + 1) as nat, m);
    }
}

} // verus!
