//! The paths that knowledge-graph queries return: a traversal spells the
//! entities it passed as identifiers joined by commas, and the relationships
//! it followed as `id:type:weight` triples joined by commas. This module
//! splits those texts into the steps of a path.

use vstd::prelude::*;
use crate::text::{chars_of, join_with, string_of, views};

verus! {

// ---------------------------------------------------------------------------
// Splitting

/// The pieces of a text between occurrences of a separator, as `str::split`
/// yields them: a text without the separator is one piece, and each
/// separator starts a new piece, empty pieces included.
pub open spec fn split_text(s: Seq<char>, sep: char) -> Seq<Seq<char>>
    decreases s.len(),
{
    if s.len() == 0 {
        seq![Seq::<char>::empty()]
    } else {
        let rest = split_text(s.drop_last(), sep);
        if s.last() == sep {
            rest.push(Seq::<char>::empty())
        } else {
            rest.update(rest.len() - 1, rest.last().push(s.last()))
        }
    }
}

/// A split always has at least one piece.
pub proof fn lemma_split_text_nonempty(s: Seq<char>, sep: char)
    ensures
        split_text(s, sep).len() >= 1,
    decreases s.len(),
{
    if s.len() > 0 {
        lemma_split_text_nonempty(s.drop_last(), sep);
    }
}

/// Joining the pieces of a split with the separator gives the text back.
pub proof fn lemma_split_then_join(s: Seq<char>, sep: char)
    ensures
        join_with(split_text(s, sep), seq![sep]) == s,
    decreases s.len(),
{
    if s.len() == 0 {
        assert(split_text(s, sep) =~= seq![Seq::<char>::empty()]);
        assert(s =~= Seq::<char>::empty());
    } else {
        let rest = split_text(s.drop_last(), sep);
        lemma_split_then_join(s.drop_last(), sep);
        lemma_split_text_nonempty(s.drop_last(), sep);
        if s.last() == sep {
            let parts = rest.push(Seq::<char>::empty());
            assert(parts.drop_last() =~= rest);
            assert(join_with(parts, seq![sep]) == join_with(rest, seq![sep]) + seq![sep] + Seq::<char>::empty());
            assert(s =~= s.drop_last() + seq![sep] + Seq::<char>::empty());
        } else {
            let parts = rest.update(rest.len() - 1, rest.last().push(s.last()));
            if rest.len() == 1 {
                assert(join_with(rest, seq![sep]) == rest[0]);
                assert(s =~= s.drop_last().push(s.last()));
                assert(join_with(parts, seq![sep]) == parts[0]);
            } else {
                assert(parts.drop_last() =~= rest.drop_last());
                assert(join_with(rest, seq![sep]) == join_with(rest.drop_last(), seq![sep]) + seq![sep] + rest.last());
                let a = join_with(rest.drop_last(), seq![sep]);
                assert(s =~= s.drop_last().push(s.last()));
                assert(s.drop_last() == a + seq![sep] + rest.last());
                assert((a + seq![sep] + rest.last()).push(s.last()) =~= a + seq![sep] + rest.last().push(s.last()));
                assert(join_with(parts, seq![sep]) == a + seq![sep] + parts.last());
            }
        }
    }
}

/// Whether a piece is not empty.
pub open spec fn nonempty_piece() -> spec_fn(Seq<char>) -> bool {
    |p: Seq<char>| p.len() > 0
}

/// Split a text at each occurrence of a separator, as `str::split` does.
pub fn split_on(s: &str, sep: char) -> (r: Vec<String>)
    ensures
        views(r@) == split_text(s@, sep),
{
    let v = chars_of(s);
    let mut done: Vec<String> = Vec::new();
    let mut cur: Vec<char> = Vec::new();
    let mut i: usize = 0;
    assert(v@.take(0) =~= Seq::<char>::empty());
    assert(views(done@).push(cur@) =~= seq![Seq::<char>::empty()]);
    while i < v.len()
        invariant
            i <= v@.len(),
            v@ == s@,
            views(done@).push(cur@) == split_text(v@.take(i as int), sep),
        decreases v@.len() - i,
    {
        let ghost before = views(done@).push(cur@);
        assert(v@.take(i + 1).drop_last() =~= v@.take(i as int));
        assert(v@.take(i + 1).last() == v@[i as int]);
        let c = v[i];
        if c == sep {
            let piece = string_of(&cur);
            done.push(piece);
            cur = Vec::new();
            assert(views(done@).push(cur@) =~= before.push(Seq::<char>::empty()));
        } else {
            cur.push(c);
            assert(views(done@).push(cur@) =~= before.update(before.len() - 1, before.last().push(c)));
        }
        i = i + 1;
    }
    assert(v@.take(v@.len() as int) =~= v@);
    let last = string_of(&cur);
    let ghost pieces = views(done@).push(cur@);
    done.push(last);
    assert(views(done@) =~= pieces);
    done
}

/// Split a text at each occurrence of a separator and keep the pieces
/// that are not empty.
pub fn split_nonempty(s: &str, sep: char) -> (r: Vec<String>)
    ensures
        views(r@) == split_text(s@, sep).filter(nonempty_piece()),
{
    let pieces = split_on(s, sep);
    let ghost all = views(pieces@);
    let mut out: Vec<String> = Vec::new();
    let mut i: usize = 0;
    proof {
        reveal(Seq::filter);
        assert(all.take(0).filter(nonempty_piece()) =~= Seq::<Seq<char>>::empty());
    }
    while i < pieces.len()
        invariant
            i <= pieces@.len(),
            all == views(pieces@),
            all == split_text(s@, sep),
            views(out@) == all.take(i as int).filter(nonempty_piece()),
        decreases pieces@.len() - i,
    {
        proof {
            assert(all.take(i + 1).drop_last() =~= all.take(i as int));
            assert(all.take(i + 1).last() == pieces@[i as int]@);
            reveal(Seq::filter);
        }
        let cs = chars_of(pieces[i].as_str());
        if cs.len() > 0 {
            let ghost before = views(out@);
            let p = string_of(&cs);
            out.push(p);
            assert(views(out@) =~= before.push(pieces@[i as int]@));
        }
        i = i + 1;
    }
    assert(all.take(all.len() as int) =~= all);
    out
}

// ---------------------------------------------------------------------------
// Paths

/// The entities a traversal passed, from the text that spells its path:
/// the comma-separated identifiers that are not empty.
pub open spec fn path_ids(path: Seq<char>) -> Seq<Seq<char>> {
    split_text(path, ',').filter(nonempty_piece())
}

/// The entities of the path of a neighbour, which may have none.
pub fn path_entity_ids(path: &Option<String>) -> (r: Vec<String>)
    ensures
        views(r@) == match path {
            Some(p) => path_ids(p@),
            None => Seq::empty(),
        },
{
    match path {
        Some(p) => split_nonempty(p.as_str(), ','),
        None => Vec::new(),
    }
}

/// A relationship followed by a path, as the query spells it.
#[derive(Debug, Clone)]
pub struct PathRelationshipText {
    /// Identifier of the relationship
    pub relationship_id: String,
    /// Name of its type
    pub relationship_type: String,
    /// Its weight, as written
    pub weight: String,
}

/// A step of a path: the entity reached and the relationship followed to
/// reach it (none for the first step, or where the query gave no complete
/// triple).
#[derive(Debug, Clone)]
pub struct PathStepText {
    pub entity_id: String,
    pub relationship: Option<PathRelationshipText>,
}

/// The relationship of step `i`: the `i`-th triple (counted from 1) when
/// it has at least three colon-separated fields, of which the first three
/// are kept.
pub open spec fn step_relationship(rels: Seq<Seq<char>>, i: int) -> Option<(Seq<char>, Seq<char>, Seq<char>)> {
    if i > 0 && i - 1 < rels.len() {
        let parts = split_text(rels[i - 1], ':');
        if parts.len() >= 3 {
            Some((parts[0], parts[1], parts[2]))
        } else {
            None
        }
    } else {
        None
    }
}

/// The plain values of a step's relationship.
pub open spec fn relationship_view(r: Option<PathRelationshipText>) -> Option<(Seq<char>, Seq<char>, Seq<char>)> {
    match r {
        Some(p) => Some((p.relationship_id@, p.relationship_type@, p.weight@)),
        None => None,
    }
}

/// The relationship of step `i`, from the relationships of a path.
fn relationship_of_step(rels: &Vec<String>, i: usize) -> (r: Option<PathRelationshipText>)
    ensures
        relationship_view(r) == step_relationship(views(rels@), i as int),
{
    if i > 0 && i - 1 < rels.len() {
        let parts = split_on(rels[i - 1].as_str(), ':');
        assert(views(rels@)[i - 1] == rels@[i - 1]@);
        if parts.len() >= 3 {
            let id = string_of(&chars_of(parts[0].as_str()));
            let kind = string_of(&chars_of(parts[1].as_str()));
            let weight = string_of(&chars_of(parts[2].as_str()));
            assert(views(parts@)[0] == parts@[0]@ && views(parts@)[1] == parts@[1]@ && views(parts@)[2]
                == parts@[2]@);
            Some(PathRelationshipText { relationship_id: id, relationship_type: kind, weight })
        } else {
            None
        }
    } else {
        None
    }
}

/// The steps of the path a query found, from the text of its entities and
/// the text of its relationships: one step per entity, each with the
/// relationship that reached it.
pub fn path_steps(path: &str, rel_path: &str) -> (r: Vec<PathStepText>)
    ensures
        r@.len() == path_ids(path@).len(),
        forall|i: int|
            0 <= i < r@.len() ==> (#[trigger] r@[i]).entity_id@ == path_ids(path@)[i] && relationship_view(
                r@[i].relationship,
            ) == step_relationship(path_ids(rel_path@), i),
{
    let ids = split_nonempty(path, ',');
    let rels = split_nonempty(rel_path, ',');
    let mut steps: Vec<PathStepText> = Vec::new();
    let mut i: usize = 0;
    while i < ids.len()
        invariant
            i <= ids@.len(),
            views(ids@) == path_ids(path@),
            views(rels@) == path_ids(rel_path@),
            steps@.len() == i,
            forall|k: int|
                0 <= k < i ==> (#[trigger] steps@[k]).entity_id@ == path_ids(path@)[k] && relationship_view(
                    steps@[k].relationship,
                ) == step_relationship(path_ids(rel_path@), k),
        decreases ids@.len() - i,
    {
        let relationship = relationship_of_step(&rels, i);
        let entity_id = string_of(&chars_of(ids[i].as_str()));
        assert(views(ids@)[i as int] == ids@[i as int]@);
        steps.push(PathStepText { entity_id, relationship });
        i = i + 1;
    }
    steps
}

} // verus!
