//! Pattern analysis of debugging sessions: error texts are normalised so
//! that the same error is recognised again, and runs of created entities
//! and recurring relationships are counted into candidate skills.

use vstd::prelude::*;
use crate::skills::entity::{byte_boundary, truncate, truncated};
use crate::text::{
    ascii_lower, is_ascii_text,
    chars_of, collapse_white_space, collapse_ws, contains_text, decimal, decimal_text, is_white_space, join,
    join_with, lowercase_of, owned, push_decimal, push_str, str_contains, str_eq, string_of, string_of_range,
    to_lowercase, trim_chars, trim_text, utf8_len, views,
};

verus! {

// ---------------------------------------------------------------------------
// Normalising errors

/// Whether `char::is_alphanumeric` holds of a character (alphabetic or
/// numeric in Unicode).
pub uninterp spec fn alphanumeric(c: char) -> bool;

/// Calls `char::is_alphanumeric`. The contract claims that the answer is a
/// function of the character (`alphanumeric`), and, as for every ASCII
/// character, that ASCII letters and digits are alphanumeric and the other
/// ASCII characters are not; the Unicode tables are not stated.
#[verifier::external_body]
fn is_alphanumeric(c: char) -> (r: bool)
    ensures
        r == alphanumeric(c),
        (c as u32) < 128 ==> (r <==> ('a' <= c <= 'z' || 'A' <= c <= 'Z' || '0' <= c <= '9')),
{
    c.is_alphanumeric()
}

/// Whether a character is kept when an error is normalised.
pub open spec fn kept_in_error(c: char) -> bool {
    alphanumeric(c) || is_white_space(c)
}

/// An error description normalised for pattern matching: lower-cased,
/// without the characters that are neither alphanumeric nor white space,
/// and with its words joined by single spaces.
pub open spec fn normalized_error(error: Seq<char>) -> Seq<char> {
    collapse_white_space(lowercase_of(error).filter(|c: char| kept_in_error(c)))
}

/// Whether an ASCII character is kept when an error is normalised: an
/// ASCII letter or digit, or white space.
pub open spec fn ascii_kept_in_error(c: char) -> bool {
    ('a' <= c <= 'z' || 'A' <= c <= 'Z' || '0' <= c <= '9') || is_white_space(c)
}

/// The normalised form of an ASCII error description, which needs no
/// Unicode table: ASCII lower case, only letters, digits and white space
/// kept, words joined by single spaces.
pub open spec fn normalized_ascii_error(error: Seq<char>) -> Seq<char> {
    collapse_white_space(error.map_values(|c: char| ascii_lower(c)).filter(|c: char| ascii_kept_in_error(c)))
}

/// Normalize an error description for pattern matching.
pub fn normalize_error(error: &str) -> (r: String)
    ensures
        r@ == normalized_error(error@),
        is_ascii_text(error@) ==> r@ == normalized_ascii_error(error@),
{
    let lower = to_lowercase(error);
    let v = chars_of(lower.as_str());
    let ghost keep = |c: char| kept_in_error(c);
    let ghost akeep = |c: char| ascii_kept_in_error(c);
    let ghost ascii = is_ascii_text(error@);
    let mut kept: Vec<char> = Vec::new();
    let mut i: usize = 0;
    proof {
        reveal(Seq::filter);
        assert(v@.take(0).filter(keep) =~= Seq::<char>::empty());
        assert(v@.take(0).filter(akeep) =~= Seq::<char>::empty());
    }
    while i < v.len()
        invariant
            i <= v@.len(),
            v@ == lowercase_of(error@),
            kept@ == v@.take(i as int).filter(keep),
            keep == (|c: char| kept_in_error(c)),
            akeep == (|c: char| ascii_kept_in_error(c)),
            ascii == is_ascii_text(error@),
            ascii ==> v@ == error@.map_values(|c: char| ascii_lower(c)),
            ascii ==> kept@ == v@.take(i as int).filter(akeep),
        decreases v@.len() - i,
    {
        let c = v[i];
        proof {
            reveal(Seq::filter);
            assert(v@.take(i + 1).drop_last() =~= v@.take(i as int));
            assert(v@.take(i + 1).last() == c);
            if ascii {
                assert((error@[i as int] as u32) < 128);
                assert((c as u32) < 128);
            }
        }
        if is_alphanumeric(c) || crate::text::char_is_white_space(c) {
            kept.push(c);
        }
        i = i + 1;
    }
    assert(v@.take(v@.len() as int) =~= v@);
    collapse_ws(&kept)
}

/// A step normalised for pattern matching: the text before its first colon,
/// trimmed, or the whole step when it has no colon.
pub open spec fn normalized_step(step: Seq<char>) -> Seq<char> {
    if exists|i: int| 0 <= i < step.len() && step[i] == ':' {
        trim_text(step.take(choose|i: int| 0 <= i < step.len() && step[i] == ':' && forall|j: int| 0 <= j < i ==> step[j] != ':'))
    } else {
        step
    }
}

/// Normalize a step for pattern matching: just its type, not its name.
pub fn normalize_step(step: &str) -> (r: String)
    ensures
        r@ == normalized_step(step@),
{
    let v = chars_of(step);
    let mut i: usize = 0;
    while i < v.len()
        invariant
            i <= v@.len(),
            v@ == step@,
            forall|j: int| 0 <= j < i ==> v@[j] != ':',
        decreases v@.len() - i,
    {
        if v[i] == ':' {
            proof {
                let w = i as int;
                assert(0 <= w < v@.len() && v@[w] == ':' && forall|j: int| 0 <= j < w ==> v@[j] != ':');
                let k = choose|k: int| 0 <= k < step@.len() && step@[k] == ':' && forall|j: int| 0 <= j < k ==> step@[j] != ':';
                if k < w {
                    assert(v@[k] != ':');
                } else if k > w {
                    assert(step@[w] != ':');
                }
            }
            let head = string_of_range(&v, 0, i);
            let hv = chars_of(head.as_str());
            assert(v@.subrange(0, i as int) =~= step@.take(i as int));
            return string_of(&trim_chars(&hv));
        }
        i = i + 1;
    }
    owned(step)
}

// ---------------------------------------------------------------------------
// Counting recurring keys

/// The number of times a key occurs in a list.
pub open spec fn occurrences(keys: Seq<Seq<char>>, k: Seq<char>) -> nat
    decreases keys.len(),
{
    if keys.len() == 0 {
        0
    } else {
        occurrences(keys.drop_last(), k) + (if keys.last() == k { 1nat } else { 0nat })
    }
}

/// A tally of keys: each key listed once, with how often it occurs.
pub open spec fn is_tally(keys: Seq<Seq<char>>, names: Seq<Seq<char>>, counts: Seq<u32>) -> bool {
    &&& names.len() == counts.len()
    &&& forall|i: int, j: int| 0 <= i < j < names.len() ==> names[i] != names[j]
    &&& forall|i: int| 0 <= i < names.len() ==> keys.contains(#[trigger] names[i])
    &&& forall|i: int| 0 <= i < names.len() ==> #[trigger] counts[i] == occurrences(keys, names[i])
    &&& forall|k: Seq<char>| keys.contains(k) ==> names.contains(k)
}

/// How often each key occurs: the keys in the order they are first seen,
/// and their counts.
#[derive(Debug, Clone)]
pub struct Tally {
    pub keys: Vec<String>,
    pub counts: Vec<u32>,
}

proof fn lemma_occurrences_absent(keys: Seq<Seq<char>>, k: Seq<char>)
    requires
        !keys.contains(k),
    ensures
        occurrences(keys, k) == 0,
    decreases keys.len(),
{
    if keys.len() > 0 {
        if keys.drop_last().contains(k) {
            let i = choose|i: int| 0 <= i < keys.drop_last().len() && keys.drop_last()[i] == k;
            assert(keys[i] == k);
        }
        lemma_occurrences_absent(keys.drop_last(), k);
        assert(keys.last() != k) by {
            if keys.last() == k {
                assert(keys[keys.len() - 1] == k);
            }
        }
    }
}

proof fn lemma_occurrences_bound(keys: Seq<Seq<char>>, k: Seq<char>)
    ensures
        occurrences(keys, k) <= keys.len(),
    decreases keys.len(),
{
    if keys.len() > 0 {
        lemma_occurrences_bound(keys.drop_last(), k);
    }
}

/// The position of a key in a list of strings.
fn position_of_key(names: &Vec<String>, key: &str) -> (r: Option<usize>)
    ensures
        match r {
            Some(j) => j < names@.len() && names@[j as int]@ == key@,
            None => !views(names@).contains(key@),
        },
{
    let mut j: usize = 0;
    while j < names.len()
        invariant
            j <= names@.len(),
            forall|m: int| 0 <= m < j ==> names@[m]@ != key@,
        decreases names@.len() - j,
    {
        if str_eq(names[j].as_str(), key) {
            return Some(j);
        }
        j = j + 1;
    }
    proof {
        if views(names@).contains(key@) {
            let m = choose|m: int| 0 <= m < views(names@).len() && views(names@)[m] == key@;
            assert(names@[m]@ == key@);
        }
    }
    None
}

/// Count how often each key occurs, keeping the keys in the order they are
/// first seen.
pub fn tally_keys(keys: &Vec<String>) -> (r: Tally)
    requires
        keys@.len() <= u32::MAX,
    ensures
        is_tally(views(keys@), views(r.keys@), r.counts@),
{
    let mut names: Vec<String> = Vec::new();
    let mut counts: Vec<u32> = Vec::new();
    let mut i: usize = 0;
    proof {
        assert(views(keys@.take(0)) =~= Seq::<Seq<char>>::empty());
        assert(views(names@) =~= Seq::<Seq<char>>::empty());
    }
    while i < keys.len()
        invariant
            i <= keys@.len() <= u32::MAX,
            is_tally(views(keys@.take(i as int)), views(names@), counts@),
        decreases keys@.len() - i,
    {
        let ghost seen = views(keys@.take(i as int));
        let ghost next = views(keys@.take(i + 1));
        let ghost key = keys@[i as int]@;
        let ghost old_names = views(names@);
        let ghost old_counts = counts@;
        proof {
            assert(next =~= seen.push(key));
            assert(next.drop_last() =~= seen);
            assert(next.last() == key);
            assert forall|k: Seq<char>| #[trigger] occurrences(next, k) == occurrences(seen, k) + (if k == key { 1nat } else { 0nat }) by {}
            assert forall|k: Seq<char>| seen.contains(k) implies next.contains(k) by {
                let m = choose|m: int| 0 <= m < seen.len() && seen[m] == k;
                assert(next[m] == k);
            }
            assert(next.contains(key)) by {
                assert(next[i as int] == key);
            }
        }
        match position_of_key(&names, keys[i].as_str()) {
            Some(j) => {
                proof {
                    lemma_occurrences_bound(seen, key);
                    assert(counts@[j as int] == occurrences(seen, key));
                }
                let c = counts[j];
                counts.set(j, c + 1);
                proof {
                    let ns = views(names@);
                    assert(ns == old_names);
                    assert forall|m: int| 0 <= m < ns.len() implies #[trigger] counts@[m] == occurrences(next, ns[m]) by {
                        if m != j {
                            assert(ns[m] != ns[j as int]);
                        }
                    }
                    assert forall|k: Seq<char>| next.contains(k) implies ns.contains(k) by {
                        if k == key {
                            assert(ns[j as int] == key);
                        } else {
                            let m = choose|m: int| 0 <= m < next.len() && next[m] == k;
                            assert(seen[m] == k);
                        }
                    }
                }
            },
            None => {
                proof {
                    assert(!seen.contains(key));
                    lemma_occurrences_absent(seen, key);
                }
                names.push(owned(keys[i].as_str()));
                counts.push(1);
                proof {
                    let ns = views(names@);
                    assert(ns =~= old_names.push(key));
                    assert forall|a: int, b: int| 0 <= a < b < ns.len() implies ns[a] != ns[b] by {
                        if b == old_names.len() {
                            assert(old_names.contains(ns[a])) by {
                                assert(old_names[a] == ns[a]);
                            }
                        }
                    }
                    assert forall|m: int| 0 <= m < ns.len() implies #[trigger] counts@[m] == occurrences(next, ns[m]) by {
                        if m < old_names.len() {
                            assert(old_names.contains(ns[m])) by {
                                assert(old_names[m] == ns[m]);
                            }
                            assert(ns[m] != key);
                        }
                    }
                    assert forall|m: int| 0 <= m < ns.len() implies next.contains(#[trigger] ns[m]) by {
                        if m < old_names.len() {
                            assert(seen.contains(old_names[m]));
                        }
                    }
                    assert forall|k: Seq<char>| next.contains(k) implies ns.contains(k) by {
                        if k == key {
                            assert(ns[old_names.len() as int] == key);
                        } else {
                            let m = choose|m: int| 0 <= m < next.len() && next[m] == k;
                            assert(seen[m] == k);
                            assert(seen.contains(k));
                            let q = choose|q: int| 0 <= q < old_names.len() && old_names[q] == k;
                            assert(ns[q] == k);
                        }
                    }
                }
            },
        }
        i = i + 1;
    }
    proof {
        assert(keys@.take(keys@.len() as int) =~= keys@);
    }
    Tally { keys: names, counts }
}

// ---------------------------------------------------------------------------
// Relationship patterns

/// A candidate skill found by counting: its name, description or steps, and
/// how often it was observed.
#[derive(Debug, Clone)]
pub struct CountedPattern {
    pub key: String,
    pub name: String,
    pub description: String,
    pub steps: Vec<String>,
    pub count: u32,
}

/// The description of a relationship pattern.
pub open spec fn relationship_description(kind: Seq<char>, count: nat) -> Seq<char> {
    "Architectural pattern using "@ + kind + " relationship observed "@ + decimal_text(count) + " times"@
}

/// Relationship patterns: each relationship kind created at least
/// `min_occurrences` times, named `<kind> Pattern`, in the order kinds are
/// first seen.
pub fn relationship_patterns(kinds: &Vec<String>, min_occurrences: u32) -> (r: Vec<CountedPattern>)
    requires
        kinds@.len() <= u32::MAX,
    ensures
        forall|i: int| 0 <= i < r@.len() ==> {
            let p = #[trigger] r@[i];
            &&& p.count >= min_occurrences
            &&& p.count == occurrences(views(kinds@), p.key@)
            &&& p.name@ == p.key@ + " Pattern"@
            &&& p.description@ == relationship_description(p.key@, p.count as nat)
            &&& p.steps@.len() == 0
        },
        forall|k: Seq<char>| views(kinds@).contains(k) && occurrences(views(kinds@), k) >= min_occurrences ==> exists|i: int|
            0 <= i < r@.len() && (#[trigger] r@[i]).key@ == k,
        forall|i: int, j: int| 0 <= i < j < r@.len() ==> r@[i].key@ != r@[j].key@,
{
    let t = tally_keys(kinds);
    let ghost names = views(t.keys@);
    let mut out: Vec<CountedPattern> = Vec::new();
    let ghost mut picked: Seq<int> = Seq::empty();
    let mut i: usize = 0;
    proof {
        reveal_strlit(" Pattern");
    }
    while i < t.keys.len()
        invariant
            i <= t.keys@.len(),
            t.keys@.len() == t.counts@.len(),
            names == views(t.keys@),
            is_tally(views(kinds@), names, t.counts@),
            out@.len() == picked.len(),
            forall|m: int| 0 <= m < picked.len() ==> 0 <= #[trigger] picked[m] < i,
            forall|m: int, q: int| 0 <= m < q < picked.len() ==> picked[m] < picked[q],
            forall|m: int| 0 <= m < out@.len() ==> {
                let p = #[trigger] out@[m];
                let k = names[picked[m]];
                &&& p.count == t.counts@[picked[m]]
                &&& p.count >= min_occurrences
                &&& p.key@ == k
                &&& p.name@ == k + " Pattern"@
                &&& p.description@ == relationship_description(k, p.count as nat)
                &&& p.steps@.len() == 0
            },
            forall|q: int| 0 <= q < i && t.counts@[q] >= min_occurrences ==> exists|m: int|
                0 <= m < picked.len() && #[trigger] picked[m] == q,
            " Pattern"@.len() == 8,
        decreases t.keys@.len() - i,
    {
        let count = t.counts[i];
        let ghost old_picked = picked;
        if count >= min_occurrences {
            let kind = t.keys[i].as_str();
            let mut name = owned(kind);
            push_str(&mut name, " Pattern");
            let mut description = owned("Architectural pattern using ");
            push_str(&mut description, kind);
            push_str(&mut description, " relationship observed ");
            push_str(&mut description, decimal(count as u128).as_str());
            push_str(&mut description, " times");
            out.push(CountedPattern { key: owned(kind), name, description, steps: Vec::new(), count });
            proof {
                picked = picked.push(i as int);
            }
        }
        proof {
            assert forall|q: int| 0 <= q < i + 1 && t.counts@[q] >= min_occurrences implies exists|m: int|
                0 <= m < picked.len() && #[trigger] picked[m] == q by {
                if q < i {
                    let m = choose|m: int| 0 <= m < old_picked.len() && #[trigger] old_picked[m] == q;
                    assert(picked[m] == q);
                } else {
                    assert(picked[picked.len() - 1] == q);
                }
            }
        }
        i = i + 1;
    }
    proof {
        assert forall|k: Seq<char>| views(kinds@).contains(k) && occurrences(views(kinds@), k) >= min_occurrences implies exists|m: int|
            0 <= m < out@.len() && (#[trigger] out@[m]).key@ == k by {
            assert(names.contains(k));
            let q = choose|q: int| 0 <= q < names.len() && names[q] == k;
            assert(t.counts@[q] == occurrences(views(kinds@), names[q]));
            let m = choose|m: int| 0 <= m < picked.len() && #[trigger] picked[m] == q;
            assert(out@[m].key@ == k);
        }
    }
    out
}

// ---------------------------------------------------------------------------
// Technique patterns

/// An entity creation, as the pattern analysis reads it: the name of the
/// entity's type, its name, and when it was created (microseconds since
/// the Unix epoch).
#[derive(Debug, Clone)]
pub struct CreatedEntity {
    pub entity_type: String,
    pub name: String,
    pub at_micros: i64,
}

/// The step an entity creation stands for: `<type>: <name>`.
pub open spec fn step_text(e: CreatedEntity) -> Seq<char> {
    e.entity_type@ + ": "@ + e.name@
}

/// Whether a creation continues the run of the one before it: it came less
/// than a minute later (or earlier).
pub open spec fn continues(prev: i64, next: i64) -> bool {
    (next as int) - (prev as int) < 60_000_000
}

/// The runs of entity creations: consecutive creations less than a minute
/// apart, each run given by its steps.
pub open spec fn runs(es: Seq<CreatedEntity>) -> Seq<Seq<Seq<char>>>
    decreases es.len(),
{
    if es.len() == 0 {
        Seq::empty()
    } else if es.len() == 1 {
        seq![seq![step_text(es[0])]]
    } else {
        let r = runs(es.drop_last());
        if continues(es[es.len() - 2].at_micros, es.last().at_micros) {
            r.update(r.len() - 1, r.last().push(step_text(es.last())))
        } else {
            r.push(seq![step_text(es.last())])
        }
    }
}

/// Whether a run is long enough to be a technique.
pub open spec fn long_run(g: Seq<Seq<char>>) -> bool {
    g.len() >= 2
}

/// The plain view of a list of step lists.
pub open spec fn step_lists(v: Seq<Vec<String>>) -> Seq<Seq<Seq<char>>> {
    v.map_values(|x: Vec<String>| views(x@))
}

proof fn lemma_runs_nonempty(es: Seq<CreatedEntity>)
    requires
        es.len() > 0,
    ensures
        runs(es).len() > 0,
    decreases es.len(),
{
    if es.len() > 1 {
        lemma_runs_nonempty(es.drop_last());
    }
}

/// The step text of a creation.
fn step_of(e: &CreatedEntity) -> (r: String)
    ensures
        r@ == step_text(*e),
{
    let mut s = owned(e.entity_type.as_str());
    push_str(&mut s, ": ");
    push_str(&mut s, e.name.as_str());
    s
}

/// The sequences of steps that may be techniques: the runs of at least two
/// creations, in order.
pub fn technique_sequences(events: &Vec<CreatedEntity>) -> (r: Vec<Vec<String>>)
    ensures
        step_lists(r@) == runs(events@).filter(|g: Seq<Seq<char>>| long_run(g)),
{
    let ghost keep = |g: Seq<Seq<char>>| long_run(g);
    let mut done: Vec<Vec<String>> = Vec::new();
    let mut current: Vec<String> = Vec::new();
    let mut last: i64 = 0;
    let mut i: usize = 0;
    proof {
        reveal(Seq::filter);
    }
    while i < events.len()
        invariant
            i <= events@.len(),
            keep == (|g: Seq<Seq<char>>| long_run(g)),
            i == 0 ==> done@.len() == 0 && current@.len() == 0,
            i > 0 ==> {
                let r = runs(events@.take(i as int));
                &&& r.len() > 0
                &&& views(current@) == r.last()
                &&& step_lists(done@) == r.drop_last().filter(keep)
                &&& last == events@[i - 1].at_micros
            },
        decreases events@.len() - i,
    {
        let e = &events[i];
        let step = step_of(e);
        let ghost pre = events@.take(i as int);
        let ghost post = events@.take(i + 1);
        proof {
            reveal(Seq::filter);
            assert(post.drop_last() =~= pre);
            assert(post.last() == *e);
            if i > 0 {
                lemma_runs_nonempty(pre);
                assert(post[post.len() - 2] == events@[i - 1]);
            }
        }
        if i == 0 || (e.at_micros as i128) - (last as i128) < 60_000_000 {
            let ghost before = current@;
            current.push(step);
            proof {
                assert(views(current@) =~= views(before).push(step@));
                if i == 0 {
                    assert(runs(post) =~= seq![seq![step@]]);
                    assert(views(current@) =~= seq![step@]);
                    assert(runs(post).drop_last() =~= Seq::<Seq<Seq<char>>>::empty());
                    assert(step_lists(done@) =~= Seq::<Seq<Seq<char>>>::empty());
                } else {
                    let r = runs(pre);
                    assert(runs(post) == r.update(r.len() - 1, r.last().push(step@)));
                    assert(runs(post).drop_last() =~= r.drop_last());
                }
            }
        } else {
            let finished = current;
            let ghost fin = views(finished@);
            let ghost done_before = step_lists(done@);
            if finished.len() >= 2 {
                done.push(finished);
                proof {
                    assert(step_lists(done@) =~= done_before.push(fin));
                }
            }
            current = Vec::new();
            current.push(step);
            proof {
                let r = runs(pre);
                assert(runs(post) == r.push(seq![step@]));
                assert(runs(post).drop_last() =~= r);
                assert(r.drop_last().push(r.last()) =~= r);
                assert(views(current@) =~= seq![step@]);
            }
        }
        last = e.at_micros;
        i = i + 1;
    }
    let ghost all = runs(events@.take(i as int));
    let ghost done_before = step_lists(done@);
    if current.len() >= 2 {
        let ghost fin = views(current@);
        done.push(current);
        proof {
            assert(step_lists(done@) =~= done_before.push(fin));
        }
    }
    proof {
        reveal(Seq::filter);
        assert(events@.take(events@.len() as int) =~= events@);
        if i > 0 {
            assert(all.drop_last().push(all.last()) =~= all);
        } else {
            assert(all =~= Seq::<Seq<Seq<char>>>::empty());
        }
    }
    done
}

/// The key of a sequence of steps: its normalised steps joined by ` -> `.
pub open spec fn pattern_key(steps: Seq<Seq<char>>) -> Seq<char> {
    join_with(steps.map_values(|t: Seq<char>| normalized_step(t)), " -> "@)
}

/// The keys of sequences of steps.
pub open spec fn pattern_keys(seqs: Seq<Seq<Seq<char>>>) -> Seq<Seq<char>> {
    seqs.map_values(|g: Seq<Seq<char>>| pattern_key(g))
}

/// The key of one sequence.
fn key_of(steps: &Vec<String>) -> (r: String)
    ensures
        r@ == pattern_key(views(steps@)),
{
    let mut normalized: Vec<String> = Vec::new();
    let mut i: usize = 0;
    while i < steps.len()
        invariant
            i <= steps@.len(),
            views(normalized@) == views(steps@).take(i as int).map_values(|t: Seq<char>| normalized_step(t)),
        decreases steps@.len() - i,
    {
        let ghost before = normalized@;
        normalized.push(normalize_step(steps[i].as_str()));
        proof {
            assert(views(normalized@) =~= views(before).push(normalized_step(steps@[i as int]@)));
            assert(views(steps@).take(i + 1) =~= views(steps@).take(i as int).push(steps@[i as int]@));
            assert(views(steps@).take(i + 1).map_values(|t: Seq<char>| normalized_step(t)) =~= views(steps@).take(
                i as int,
            ).map_values(|t: Seq<char>| normalized_step(t)).push(normalized_step(steps@[i as int]@)));
        }
        i = i + 1;
    }
    assert(views(steps@).take(steps@.len() as int) =~= views(steps@));
    join(&normalized, " -> ")
}

/// A copy of a list of strings.
fn copy_strings(v: &Vec<String>) -> (r: Vec<String>)
    ensures
        views(r@) == views(v@),
{
    let mut out: Vec<String> = Vec::new();
    let mut i: usize = 0;
    while i < v.len()
        invariant
            i <= v@.len(),
            views(out@) == views(v@).take(i as int),
        decreases v@.len() - i,
    {
        let ghost before = out@;
        out.push(owned(v[i].as_str()));
        assert(views(out@) =~= views(before).push(v@[i as int]@));
        assert(views(v@).take(i + 1) =~= views(v@).take(i as int).push(v@[i as int]@));
        i = i + 1;
    }
    assert(views(v@).take(v@.len() as int) =~= views(v@));
    out
}

/// Whether `steps` is the first sequence whose key is `k`.
pub open spec fn first_with_key(seqs: Seq<Seq<Seq<char>>>, k: Seq<char>, steps: Seq<Seq<char>>) -> bool {
    exists|j: int|
        0 <= j < seqs.len() && seqs[j] == steps && pattern_key(#[trigger] seqs[j]) == k && forall|m: int|
            0 <= m < j ==> pattern_key(seqs[m]) != k
}

/// Technique patterns: the sequences of steps whose key recurs at least
/// `min_occurrences` times, each named `Technique: ` and its key cut to 50
/// bytes, with the steps of the first sequence of that key, in the order
/// keys are first seen.
pub fn technique_patterns(sequences: &Vec<Vec<String>>, min_occurrences: u32) -> (r: Vec<CountedPattern>)
    requires
        sequences@.len() <= u32::MAX,
        forall|i: int| 0 <= i < sequences@.len() ==> {
            let k = pattern_key(views(#[trigger] sequences@[i]@));
            utf8_len(k) <= 50 || byte_boundary(k, 50)
        },
    ensures
        forall|i: int| 0 <= i < r@.len() ==> {
            let p = #[trigger] r@[i];
            &&& p.count >= min_occurrences
            &&& p.count == occurrences(pattern_keys(step_lists(sequences@)), p.key@)
            &&& p.name@ == "Technique: "@ + truncated(p.key@, 50)
            &&& first_with_key(step_lists(sequences@), p.key@, views(p.steps@))
        },
        forall|k: Seq<char>|
            pattern_keys(step_lists(sequences@)).contains(k) && occurrences(pattern_keys(step_lists(sequences@)), k)
                >= min_occurrences ==> exists|i: int| 0 <= i < r@.len() && (#[trigger] r@[i]).key@ == k,
        forall|i: int, j: int| 0 <= i < j < r@.len() ==> r@[i].key@ != r@[j].key@,
{
    let ghost seqs = step_lists(sequences@);
    let ghost all_keys = pattern_keys(seqs);
    let mut keys: Vec<String> = Vec::new();
    let mut i: usize = 0;
    while i < sequences.len()
        invariant
            i <= sequences@.len(),
            seqs == step_lists(sequences@),
            all_keys == pattern_keys(seqs),
            views(keys@) == all_keys.take(i as int),
        decreases sequences@.len() - i,
    {
        let ghost before = keys@;
        keys.push(key_of(&sequences[i]));
        assert(views(keys@) =~= views(before).push(all_keys[i as int]));
        assert(all_keys.take(i + 1) =~= all_keys.take(i as int).push(all_keys[i as int]));
        i = i + 1;
    }
    assert(all_keys.take(sequences@.len() as int) =~= all_keys);
    let t = tally_keys(&keys);
    let ghost names = views(t.keys@);
    let mut out: Vec<CountedPattern> = Vec::new();
    let ghost mut picked: Seq<int> = Seq::empty();
    let mut q: usize = 0;
    while q < t.keys.len()
        invariant
            q <= t.keys@.len(),
            t.keys@.len() == t.counts@.len(),
            names == views(t.keys@),
            views(keys@) == all_keys,
            all_keys == pattern_keys(seqs),
            seqs == step_lists(sequences@),
            keys@.len() == sequences@.len(),
            is_tally(all_keys, names, t.counts@),
            forall|x: int| 0 <= x < sequences@.len() ==> {
                let k = pattern_key(views(#[trigger] sequences@[x]@));
                utf8_len(k) <= 50 || byte_boundary(k, 50)
            },
            out@.len() == picked.len(),
            forall|m: int| 0 <= m < picked.len() ==> 0 <= #[trigger] picked[m] < q,
            forall|m: int, n: int| 0 <= m < n < picked.len() ==> picked[m] < picked[n],
            forall|m: int| 0 <= m < out@.len() ==> {
                let p = #[trigger] out@[m];
                let k = names[picked[m]];
                &&& p.key@ == k
                &&& p.count == t.counts@[picked[m]]
                &&& p.count >= min_occurrences
                &&& p.name@ == "Technique: "@ + truncated(k, 50)
                &&& first_with_key(seqs, k, views(p.steps@))
            },
            forall|x: int| 0 <= x < q && t.counts@[x] >= min_occurrences ==> exists|m: int|
                0 <= m < picked.len() && #[trigger] picked[m] == x,
        decreases t.keys@.len() - q,
    {
        let count = t.counts[q];
        let ghost old_picked = picked;
        if count >= min_occurrences {
            let key = t.keys[q].as_str();
            proof {
                assert(all_keys.contains(names[q as int]));
            }
            let mut j: usize = 0;
            while j < keys.len() && !str_eq(keys[j].as_str(), key)
                invariant
                    j <= keys@.len(),
                    views(keys@) == all_keys,
                    all_keys.contains(key@),
                    forall|m: int| 0 <= m < j ==> all_keys[m] != key@,
                decreases keys@.len() - j,
            {
                assert(views(keys@)[j as int] == keys@[j as int]@);
                j = j + 1;
            }
            proof {
                if j == keys@.len() {
                    let w = choose|w: int| 0 <= w < all_keys.len() && all_keys[w] == key@;
                    assert(all_keys[w] != key@);
                }
                assert(views(keys@)[j as int] == keys@[j as int]@);
                assert(all_keys[j as int] == pattern_key(seqs[j as int]));
                assert(seqs[j as int] == views(sequences@[j as int]@));
            }
            let steps = copy_strings(&sequences[j]);
            let mut name = owned("Technique: ");
            push_str(&mut name, truncate(key, 50).as_str());
            out.push(CountedPattern { key: owned(key), name, description: String::new(), steps, count });
            proof {
                picked = picked.push(q as int);
                assert forall|m: int| 0 <= m < j implies pattern_key(seqs[m]) != key@ by {
                    assert(all_keys[m] == pattern_key(seqs[m]));
                }
                assert(first_with_key(seqs, key@, seqs[j as int]));
            }
        }
        proof {
            assert forall|x: int| 0 <= x < q + 1 && t.counts@[x] >= min_occurrences implies exists|m: int|
                0 <= m < picked.len() && #[trigger] picked[m] == x by {
                if x < q {
                    let m = choose|m: int| 0 <= m < old_picked.len() && #[trigger] old_picked[m] == x;
                    assert(picked[m] == x);
                } else {
                    assert(picked[picked.len() - 1] == x);
                }
            }
        }
        q = q + 1;
    }
    proof {
        assert forall|k: Seq<char>| all_keys.contains(k) && occurrences(all_keys, k) >= min_occurrences implies exists|m: int|
            0 <= m < out@.len() && (#[trigger] out@[m]).key@ == k by {
            assert(names.contains(k));
            let x = choose|x: int| 0 <= x < names.len() && names[x] == k;
            assert(t.counts@[x] == occurrences(all_keys, names[x]));
            let m = choose|m: int| 0 <= m < picked.len() && #[trigger] picked[m] == x;
            assert(out@[m].key@ == k);
        }
    }
    out
}

// ---------------------------------------------------------------------------
// Errors and their solutions

/// A knowledge event as the search for error solutions reads it. Times are
/// microseconds since the Unix epoch; a strengthened relationship records
/// whether its new weight exceeds one half.
#[derive(Debug, Clone)]
pub enum DebugEvent {
    /// An entity was updated with the given changes
    EntityUpdated { changes: Vec<String>, at_micros: i64 },
    /// A relationship was strengthened for a reason
    RelationshipStrengthened { strong: bool, reason: String, at_micros: i64 },
    /// An entity was created
    EntityCreated { name: String, at_micros: i64 },
    /// A skill was cognified, extracting some entities
    SkillCognified { skill_id: String, entities_extracted: usize, at_micros: i64 },
    /// Any other event
    Other,
}

/// Where the confidence of a solution comes from.
#[derive(Debug, Clone, Copy, PartialEq, Eq, Structural)]
pub enum SolutionConfidence {
    /// The new weight of the strengthening event at this index
    OfEvent(usize),
    /// An entity created after the error (confidence 0.6)
    Created,
    /// A skill applied after the error (confidence 0.8)
    Cognified,
}

/// A potential solution to an error.
#[derive(Debug, Clone)]
pub struct Solution {
    pub description: String,
    pub confidence: SolutionConfidence,
    pub at_micros: i64,
}

/// The solutions found for one normalised error.
#[derive(Debug, Clone)]
pub struct ErrorGroup {
    /// The normalised error
    pub key: String,
    /// Its solutions, in the order the events gave them
    pub solutions: Vec<Solution>,
}

/// A solution as plain values.
pub type SolutionView = (Seq<char>, SolutionConfidence, int);

/// A group of solutions as plain values.
pub type GroupView = (Seq<char>, Seq<SolutionView>);

/// The plain values of a solution.
pub open spec fn solution_view(s: Solution) -> SolutionView {
    (s.description@, s.confidence, s.at_micros as int)
}

/// The plain values of a group.
pub open spec fn group_view(g: ErrorGroup) -> GroupView {
    (g.key@, g.solutions@.map_values(|s: Solution| solution_view(s)))
}

/// The plain values of groups.
pub open spec fn groups_view(gs: Seq<ErrorGroup>) -> Seq<GroupView> {
    gs.map_values(|g: ErrorGroup| group_view(g))
}

/// Whether a change records an error: its lower-cased text mentions an
/// error, a failure or an exception.
pub open spec fn marks_error(change: Seq<char>) -> bool {
    let l = lowercase_of(change);
    contains_text(l, "error"@) || contains_text(l, "failed"@) || contains_text(l, "exception"@)
}

/// The last change that records an error.
pub open spec fn last_error_change(changes: Seq<Seq<char>>) -> Option<Seq<char>>
    decreases changes.len(),
{
    if changes.len() == 0 {
        None
    } else if marks_error(changes.last()) {
        Some(changes.last())
    } else {
        last_error_change(changes.drop_last())
    }
}

/// Whether no two groups have the same error.
pub open spec fn keys_distinct(gs: Seq<GroupView>) -> bool {
    forall|i: int, j: int| 0 <= i < j < gs.len() ==> #[trigger] gs[i].0 != #[trigger] gs[j].0
}

/// Groups with a solution added to the group of `key`, or to a new group
/// of `key` after the others.
pub open spec fn add_solution(gs: Seq<GroupView>, key: Seq<char>, sol: SolutionView) -> Seq<GroupView> {
    if exists|i: int| 0 <= i < gs.len() && gs[i].0 == key {
        let i = choose|i: int| 0 <= i < gs.len() && gs[i].0 == key;
        gs.update(i, (key, gs[i].1.push(sol)))
    } else {
        gs.push((key, seq![sol]))
    }
}

/// The error being tracked: its description and when it was recorded.
pub type TrackedError = Option<(Seq<char>, int)>;

/// Whether `at` falls at least one and under three hundred whole seconds
/// after `since`.
pub open spec fn within_five_minutes(since: int, at: int) -> bool {
    1_000_000 <= at - since < 300_000_000
}

/// The description of a solution that applied a skill.
pub open spec fn applied_skill_text(skill_id: Seq<char>, n: nat) -> Seq<char> {
    "Applied skill "@ + skill_id + " with "@ + decimal_text(n) + " entities"@
}

/// How one event, at index `idx`, changes the tracked error and the groups.
pub open spec fn error_step(st: (TrackedError, Seq<GroupView>), ev: DebugEvent, idx: int) -> (
    TrackedError,
    Seq<GroupView>,
) {
    let (cur, gs) = st;
    match ev {
        DebugEvent::EntityUpdated { changes, at_micros } => match last_error_change(views(changes@)) {
            Some(c) => (Some((c, at_micros as int)), gs),
            None => st,
        },
        DebugEvent::RelationshipStrengthened { strong, reason, at_micros } => match cur {
            Some((d, _)) => if strong {
                (
                    cur,
                    add_solution(
                        gs,
                        normalized_error(d),
                        (reason@, SolutionConfidence::OfEvent(idx as usize), at_micros as int),
                    ),
                )
            } else {
                st
            },
            None => st,
        },
        DebugEvent::EntityCreated { name, at_micros } => match cur {
            Some((d, t)) => if within_five_minutes(t, at_micros as int) {
                (
                    None,
                    add_solution(
                        gs,
                        normalized_error(d),
                        ("Created: "@ + name@, SolutionConfidence::Created, at_micros as int),
                    ),
                )
            } else {
                st
            },
            None => st,
        },
        DebugEvent::SkillCognified { skill_id, entities_extracted, at_micros } => match cur {
            Some((d, _)) => (
                None,
                add_solution(
                    gs,
                    normalized_error(d),
                    (
                        applied_skill_text(skill_id@, entities_extracted as nat),
                        SolutionConfidence::Cognified,
                        at_micros as int,
                    ),
                ),
            ),
            None => st,
        },
        DebugEvent::Other => st,
    }
}

/// The tracked error and the groups after a run of events.
pub open spec fn error_run(events: Seq<DebugEvent>) -> (TrackedError, Seq<GroupView>)
    decreases events.len(),
{
    if events.len() == 0 {
        (None, Seq::empty())
    } else {
        error_step(error_run(events.drop_last()), events.last(), events.len() - 1)
    }
}

proof fn lemma_no_error_change(s: Seq<Seq<char>>)
    requires
        forall|k: int| 0 <= k < s.len() ==> !marks_error(#[trigger] s[k]),
    ensures
        last_error_change(s).is_none(),
    decreases s.len(),
{
    if s.len() > 0 {
        assert(!marks_error(s[s.len() - 1]));
        lemma_no_error_change(s.drop_last());
    }
}

proof fn lemma_last_error_change_at(s: Seq<Seq<char>>, k: int)
    requires
        0 <= k < s.len(),
        marks_error(s[k]),
        forall|j: int| k < j < s.len() ==> !marks_error(#[trigger] s[j]),
    ensures
        last_error_change(s) == Some(s[k]),
    decreases s.len(),
{
    if k < s.len() - 1 {
        assert(!marks_error(s[s.len() - 1]));
        let t = s.drop_last();
        assert(t[k] == s[k]);
        assert forall|j: int| k < j < t.len() implies !marks_error(#[trigger] t[j]) by {
            assert(t[j] == s[j]);
        }
        lemma_last_error_change_at(t, k);
    }
}

/// An update none of whose changes mentions, in lower case, an error, a
/// failure or an exception leaves the tracked error and the groups as they
/// were: a recorded error stays tracked across it, so appending it to a run
/// of events changes nothing.
pub proof fn lemma_quiet_update_keeps_state(events: Seq<DebugEvent>, changes: Vec<String>, at_micros: i64)
    requires
        forall|k: int| 0 <= k < changes@.len() ==> {
            let l = lowercase_of(#[trigger] changes@[k]@);
            !contains_text(l, "error"@) && !contains_text(l, "failed"@) && !contains_text(l, "exception"@)
        },
    ensures
        forall|st: (TrackedError, Seq<GroupView>), idx: int|
            #[trigger] error_step(st, DebugEvent::EntityUpdated { changes: changes, at_micros: at_micros }, idx) == st,
        error_run(events.push(DebugEvent::EntityUpdated { changes: changes, at_micros: at_micros })) == error_run(
            events,
        ),
{
    let s = views(changes@);
    assert forall|k: int| 0 <= k < s.len() implies !marks_error(#[trigger] s[k]) by {
        assert(s[k] == changes@[k]@);
    }
    lemma_no_error_change(s);
    let ev = DebugEvent::EntityUpdated { changes: changes, at_micros: at_micros };
    let all = events.push(ev);
    assert(all.drop_last() =~= events);
    assert(all.last() == ev);
}

/// An update whose changes mention, in lower case, an error, a failure or
/// an exception starts tracking the last such change, recorded at the
/// update's time, and leaves the groups as they were.
pub proof fn lemma_error_update_tracks_last_change(
    st: (TrackedError, Seq<GroupView>),
    changes: Vec<String>,
    at_micros: i64,
    idx: int,
    k: int,
)
    requires
        0 <= k < changes@.len(),
        ({
            let l = lowercase_of(changes@[k]@);
            contains_text(l, "error"@) || contains_text(l, "failed"@) || contains_text(l, "exception"@)
        }),
        forall|j: int| k < j < changes@.len() ==> {
            let l = lowercase_of(#[trigger] changes@[j]@);
            !contains_text(l, "error"@) && !contains_text(l, "failed"@) && !contains_text(l, "exception"@)
        },
    ensures
        error_step(st, DebugEvent::EntityUpdated { changes: changes, at_micros: at_micros }, idx) == (
            Some((changes@[k]@, at_micros as int)),
            st.1,
        ),
{
    let s = views(changes@);
    assert(s[k] == changes@[k]@);
    assert forall|j: int| k < j < s.len() implies !marks_error(#[trigger] s[j]) by {
        assert(s[j] == changes@[j]@);
    }
    lemma_last_error_change_at(s, k);
}

/// While no error is tracked, no event but an update pairs anything or
/// starts tracking: strengthenings, created entities, cognified skills and
/// other events leave the groups as they are.
pub proof fn lemma_untracked_events_pair_nothing(gs: Seq<GroupView>, ev: DebugEvent, idx: int)
    requires
        !(ev is EntityUpdated),
    ensures
        error_step((None, gs), ev, idx) == (None::<(Seq<char>, int)>, gs),
{
}

/// An entity created while an error is tracked pairs with it exactly when
/// it comes at least one second and less than five minutes (in
/// microseconds) after the error was recorded: it then adds `Created:
/// <name>` to the group of the normalised error and ends the tracking;
/// otherwise nothing changes.
pub proof fn lemma_creation_pairs_within_window(
    d: Seq<char>,
    t: int,
    gs: Seq<GroupView>,
    name: String,
    at_micros: i64,
    idx: int,
)
    ensures
        error_step((Some((d, t)), gs), DebugEvent::EntityCreated { name: name, at_micros: at_micros }, idx) == if 1_000_000
            <= at_micros - t && at_micros - t < 300_000_000 {
            (
                None,
                add_solution(gs, normalized_error(d), ("Created: "@ + name@, SolutionConfidence::Created, at_micros as int)),
            )
        } else {
            (Some((d, t)), gs)
        },
{
}

/// Whether a change records an error.
fn records_error(change: &str) -> (r: bool)
    ensures
        r == marks_error(change@),
{
    let l = to_lowercase(change);
    str_contains(l.as_str(), "error") || str_contains(l.as_str(), "failed") || str_contains(
        l.as_str(),
        "exception",
    )
}

/// The last of the changes that records an error.
fn last_error_in(changes: &Vec<String>) -> (r: Option<String>)
    ensures
        match r {
            Some(c) => last_error_change(views(changes@)) == Some(c@),
            None => last_error_change(views(changes@)).is_none(),
        },
{
    let ghost all = views(changes@);
    let mut found: Option<String> = None;
    let mut k: usize = 0;
    assert(all.take(0) =~= Seq::<Seq<char>>::empty());
    while k < changes.len()
        invariant
            k <= changes@.len(),
            all == views(changes@),
            match found {
                Some(c) => last_error_change(all.take(k as int)) == Some(c@),
                None => last_error_change(all.take(k as int)).is_none(),
            },
        decreases changes@.len() - k,
    {
        assert(all.take(k + 1).drop_last() =~= all.take(k as int));
        assert(all.take(k + 1).last() == changes@[k as int]@);
        if records_error(changes[k].as_str()) {
            found = Some(owned(changes[k].as_str()));
        }
        k = k + 1;
    }
    assert(all.take(changes@.len() as int) =~= all);
    found
}

/// Add a solution to the group of `key`, or to a new group after the others.
fn add_solution_to(groups: &mut Vec<ErrorGroup>, key: String, sol: Solution)
    requires
        keys_distinct(groups_view(old(groups)@)),
    ensures
        groups_view(final(groups)@) == add_solution(groups_view(old(groups)@), key@, solution_view(sol)),
        keys_distinct(groups_view(final(groups)@)),
{
    let ghost gv = groups_view(groups@);
    let mut j: usize = 0;
    while j < groups.len()
        invariant
            j <= groups@.len(),
            gv == groups_view(groups@),
            gv == groups_view(old(groups)@),
            keys_distinct(gv),
            forall|k: int| 0 <= k < j ==> gv[k].0 != key@,
        decreases groups@.len() - j,
    {
        if str_eq(groups[j].key.as_str(), key.as_str()) {
            assert(gv[j as int].0 == key@);
            assert(add_solution(gv, key@, solution_view(sol)) == gv.update(
                j as int,
                (key@, gv[j as int].1.push(solution_view(sol))),
            )) by {
                let i = choose|i: int| 0 <= i < gv.len() && gv[i].0 == key@;
                if i != j {
                    if i < j {
                        assert(gv[i].0 != key@);
                    } else {
                        assert(gv[j as int].0 != gv[i].0);
                    }
                }
            }
            let ghost old_sols = groups@[j as int].solutions@;
            groups[j].solutions.push(sol);
            assert(groups@[j as int].solutions@.map_values(|s: Solution| solution_view(s)) =~= old_sols.map_values(
                |s: Solution| solution_view(s),
            ).push(solution_view(sol)));
            assert(groups_view(groups@) =~= add_solution(gv, key@, solution_view(sol)));
            assert(forall|k: int| 0 <= k < gv.len() ==> #[trigger] groups_view(groups@)[k].0 == gv[k].0);
            return;
        }
        j = j + 1;
    }
    let mut sols: Vec<Solution> = Vec::new();
    sols.push(sol);
    assert(sols@.map_values(|s: Solution| solution_view(s)) =~= seq![solution_view(sol)]);
    groups.push(ErrorGroup { key, solutions: sols });
    assert(groups_view(groups@) =~= gv.push((key@, seq![solution_view(sol)])));
    assert(forall|k: int| 0 <= k < gv.len() ==> #[trigger] groups_view(groups@)[k].0 == gv[k].0);
}

/// Find the solutions of the errors in a run of events. An update whose
/// changes record an error starts tracking the last such change; while an
/// error is tracked, a strong strengthening adds its reason, an entity
/// created at least one and under three hundred seconds later adds
/// `Created: <name>` and ends the tracking, and a cognified skill adds
/// what it applied and ends the tracking. Solutions are grouped by the
/// normalised error, groups in the order of their first solution.
pub fn error_patterns(events: &Vec<DebugEvent>) -> (r: Vec<ErrorGroup>)
    ensures
        groups_view(r@) == error_run(events@).1,
        keys_distinct(groups_view(r@)),
{
    let mut groups: Vec<ErrorGroup> = Vec::new();
    let mut current: Option<(String, i64)> = None;
    let mut i: usize = 0;
    assert(events@.take(0) =~= Seq::<DebugEvent>::empty());
    assert(groups_view(groups@) =~= Seq::<GroupView>::empty());
    while i < events.len()
        invariant
            i <= events@.len(),
            error_run(events@.take(i as int)) == (
                match current {
                    Some((d, t)) => Some((d@, t as int)),
                    None => None,
                },
                groups_view(groups@),
            ),
            keys_distinct(groups_view(groups@)),
        decreases events@.len() - i,
    {
        assert(events@.take(i + 1).drop_last() =~= events@.take(i as int));
        assert(events@.take(i + 1).last() == events@[i as int]);
        match &events[i] {
            DebugEvent::EntityUpdated { changes, at_micros } => {
                match last_error_in(changes) {
                    Some(c) => {
                        current = Some((c, *at_micros));
                    },
                    None => {},
                }
            },
            DebugEvent::RelationshipStrengthened { strong, reason, at_micros } => {
                match &current {
                    Some((d, _)) => {
                        if *strong {
                            let key = normalize_error(d.as_str());
                            let sol = Solution {
                                description: owned(reason.as_str()),
                                confidence: SolutionConfidence::OfEvent(i),
                                at_micros: *at_micros,
                            };
                            add_solution_to(&mut groups, key, sol);
                        }
                    },
                    None => {},
                }
            },
            DebugEvent::EntityCreated { name, at_micros } => {
                let mut resolved = false;
                match &current {
                    Some((d, t)) => {
                        let diff: i128 = *at_micros as i128 - *t as i128;
                        if 1_000_000 <= diff && diff < 300_000_000 {
                            let key = normalize_error(d.as_str());
                            let description = prefixed_text("Created: ", name.as_str());
                            let sol = Solution {
                                description,
                                confidence: SolutionConfidence::Created,
                                at_micros: *at_micros,
                            };
                            add_solution_to(&mut groups, key, sol);
                            resolved = true;
                        }
                    },
                    None => {},
                }
                if resolved {
                    current = None;
                }
            },
            DebugEvent::SkillCognified { skill_id, entities_extracted, at_micros } => {
                let mut resolved = false;
                match &current {
                    Some((d, _)) => {
                        let key = normalize_error(d.as_str());
                        let mut description = prefixed_text("Applied skill ", skill_id.as_str());
                        push_str(&mut description, " with ");
                        push_decimal(&mut description, *entities_extracted as u128);
                        push_str(&mut description, " entities");
                        let sol = Solution {
                            description,
                            confidence: SolutionConfidence::Cognified,
                            at_micros: *at_micros,
                        };
                        add_solution_to(&mut groups, key, sol);
                        resolved = true;
                    },
                    None => {},
                }
                if resolved {
                    current = None;
                }
            },
            DebugEvent::Other => {},
        }
        i = i + 1;
    }
    assert(events@.take(events@.len() as int) =~= events@);
    groups
}

/// A text made of a prefix and a rest.
fn prefixed_text(prefix: &str, rest: &str) -> (r: String)
    ensures
        r@ == prefix@ + rest@,
{
    let mut s = owned(prefix);
    push_str(&mut s, rest);
    s
}

} // verus!
