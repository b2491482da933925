//! The naming deriver: pure functions computing canonical relational storage
//! identifiers (namespace-qualified names and join-table names) from schema
//! entity names, and the inverse that recovers the entity names from a
//! join-table name.

use vstd::prelude::*;
use vstd::string::StrSliceExecFns;
use vstd::string::StringExecFns;

verus! {

/// The namespace-qualified form of an identifier: `<namespace>_<identifier>`.
pub open spec fn qualified_of(namespace: Seq<char>, identifier: Seq<char>) -> Seq<char> {
    namespace + seq!['_'] + identifier
}

/// The join-table name derived from two (singular) entity names:
/// `<a>s_<b>s`, each name pluralized by a literal trailing `s` and the two
/// joined with an underscore.
pub open spec fn join_table_of(a: Seq<char>, b: Seq<char>) -> Seq<char> {
    a + seq!['s'] + seq!['_'] + b + seq!['s']
}

/// The index of the first `'_'` in `s` at or after `from`, or `s.len()` when
/// no underscore follows: the exclusive end of the segment starting at
/// `from`.
pub open spec fn seg_end(s: Seq<char>, from: int) -> int
    decreases s.len() - from,
{
    if from < 0 || from >= s.len() {
        s.len() as int
    } else if s[from] == '_' {
        from
    } else {
        seg_end(s, from + 1)
    }
}

/// `seg_end(s, from)` is exactly the position `k` at or after `from` that
/// carries the first underscore, or the length when none does.
proof fn lemma_seg_end_is(s: Seq<char>, from: int, k: int)
    requires
        0 <= from <= k <= s.len(),
        forall|j: int| from <= j < k ==> s[j] != '_',
        k < s.len() ==> s[k] == '_',
    ensures
        seg_end(s, from) == k,
    decreases k - from,
{
    if from < k {
        lemma_seg_end_is(s, from + 1, k);
    }
}

/// Whether `seg` is a plural segment: non-empty and ending in the literal
/// plural `s`.
pub open spec fn plural(seg: Seq<char>) -> bool {
    seg.len() > 0 && seg[seg.len() - 1] == 's'
}

/// `seg` with its trailing plural `s` stripped.
pub open spec fn singular(seg: Seq<char>) -> Seq<char>
    recommends
        seg.len() > 0,
{
    seg.subrange(0, seg.len() - 1)
}

/// The first underscore-delimited segment of `s`.
pub open spec fn first_segment(s: Seq<char>) -> Seq<char> {
    s.subrange(0, seg_end(s, 0))
}

/// The second underscore-delimited segment of `s`.
pub open spec fn second_segment(s: Seq<char>) -> Seq<char>
    recommends
        seg_end(s, 0) < s.len(),
{
    s.subrange(seg_end(s, 0) + 1, seg_end(s, seg_end(s, 0) + 1))
}

/// What decoding a join-table name yields: the first two underscore-delimited
/// segments, each stripped of its trailing plural `s`, with any further
/// segments discarded. `None` when the name has fewer than two segments or a
/// segment of it is not plural.
pub open spec fn typedefs_of(s: Seq<char>) -> Option<(Seq<char>, Seq<char>)> {
    if seg_end(s, 0) < s.len() && plural(first_segment(s)) && plural(second_segment(s)) {
        Some((singular(first_segment(s)), singular(second_segment(s))))
    } else {
        None
    }
}

/// Return a fully qualified indexer namespace.
pub fn fully_qualified_namespace(namespace: &str, identifier: &str) -> (r: String)
    ensures
        r@ == qualified_of(namespace@, identifier@),
{
    let mut r = String::from_str(namespace);
    r.append("_");
    r.append(identifier);
    proof {
        reveal_strlit("_");
        assert(r@ =~= qualified_of(namespace@, identifier@));
    }
    r
}

/// Return the name of the join table for the given entities. Callers supply
/// already-singular entity names; each is pluralized by a literal `s`.
pub fn join_table_name(a: &str, b: &str) -> (r: String)
    ensures
        r@ == join_table_of(a@, b@),
{
    let mut r = String::from_str(a);
    r.append("s_");
    r.append(b);
    r.append("s");
    proof {
        reveal_strlit("s_");
        reveal_strlit("s");
        assert(r@ =~= join_table_of(a@, b@));
    }
    r
}

/// Return the name of each TypeDefinition in the join table: the first two
/// underscore-delimited segments of the name, each with its trailing plural
/// `s` stripped; any further segments are discarded. Returns `None` when the
/// name has fewer than two segments or a segment does not end in `s`.
pub fn join_table_typedefs_name(join_table_name: &str) -> (r: Option<(String, String)>)
    ensures
        r is Some <==> typedefs_of(join_table_name@) is Some,
        r matches Some(p) ==> typedefs_of(join_table_name@) == Some((p.0@, p.1@)),
{
    let s = join_table_name;
    let len = s.unicode_len();
    let mut i: usize = 0;
    while i < len && s.get_char(i) != '_'
        invariant
            i <= len,
            len == s@.len(),
            forall|j: int| 0 <= j < i ==> s@[j] != '_',
        decreases len - i,
    {
        i = i + 1;
    }
    proof {
        lemma_seg_end_is(s@, 0, i as int);
    }
    if i == len {
        // A single segment: no underscore at all.
        return None;
    }
    let mut k: usize = i + 1;
    while k < len && s.get_char(k) != '_'
        invariant
            i < k <= len,
            len == s@.len(),
            forall|j: int| i < j < k ==> s@[j] != '_',
        decreases len - k,
    {
        k = k + 1;
    }
    proof {
        lemma_seg_end_is(s@, i as int + 1, k as int);
    }
    if i == 0 || s.get_char(i - 1) != 's' {
        // The first segment is empty or not plural.
        return None;
    }
    if k == i + 1 || s.get_char(k - 1) != 's' {
        // The second segment is empty or not plural.
        return None;
    }
    let a = s.substring_char(0, i - 1);
    let b = s.substring_char(i + 1, k - 1);
    proof {
        assert(singular(first_segment(s@)) =~= s@.subrange(0, i - 1));
        assert(singular(second_segment(s@)) =~= s@.subrange(i + 1, k - 1));
    }
    Some((String::from_str(a), String::from_str(b)))
}

/// Law: decoding a join-table name built from two entity names recovers
/// exactly those names, provided neither contains an underscore nor already
/// ends in `s`.
pub proof fn lemma_join_table_roundtrip(a: Seq<char>, b: Seq<char>)
    requires
        forall|j: int| 0 <= j < a.len() ==> a[j] != '_',
        forall|j: int| 0 <= j < b.len() ==> b[j] != '_',
        a.len() > 0 ==> a[a.len() - 1] != 's',
        b.len() > 0 ==> b[b.len() - 1] != 's',
    ensures
        typedefs_of(join_table_of(a, b)) == Some((a, b)),
{
    let s = join_table_of(a, b);
    assert(s.len() == a.len() + b.len() + 3);
    assert(forall|j: int| 0 <= j < a.len() ==> s[j] == a[j]);
    assert(s[a.len() as int] == 's');
    assert(s[a.len() as int + 1] == '_');
    assert(forall|j: int| 0 <= j < b.len() ==> s[a.len() as int + 2 + j] == b[j]);
    assert(s[s.len() - 1] == 's');
    lemma_seg_end_is(s, 0, a.len() as int + 1);
    lemma_seg_end_is(s, a.len() as int + 2, s.len() as int);
    assert(first_segment(s) =~= a + seq!['s']);
    assert(second_segment(s) =~= b + seq!['s']);
    assert(plural(first_segment(s)));
    assert(plural(second_segment(s)));
    assert(singular(first_segment(s)) =~= a);
    assert(singular(second_segment(s)) =~= b);
}

} // verus!
