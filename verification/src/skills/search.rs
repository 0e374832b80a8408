//! What skill search indexes: the text a skill is embedded from, and the
//! digest that tells whether a stored embedding is still current.

use vstd::prelude::*;
use crate::skills::types::LearnedSkill;
use crate::text::{join, join_with, owned, str_eq, views};

verus! {

/// The lower-case hexadecimal SHA-256 digest of a text's UTF-8 bytes.
pub uninterp spec fn sha256_hex(text: Seq<char>) -> Seq<char>;

/// Whether a character is a lower-case hexadecimal digit.
pub open spec fn is_lower_hex(c: char) -> bool {
    ('0' <= c && c <= '9') || ('a' <= c && c <= 'f')
}

/// Calls `sha2::Sha256::digest` on the text's bytes and formats the digest
/// with `{:x}`. The contract claims that the result is a function of the text
/// (`sha256_hex`) and, as the formatting of a 32-byte digest gives, that it
/// is 64 lower-case hexadecimal digits; the hash itself is not stated.
#[verifier::external_body]
pub(crate) fn hash_text(text: &str) -> (r: String)
    ensures
        r@ == sha256_hex(text@),
        r@.len() == 64,
        forall|i: int| 0 <= i < r@.len() ==> is_lower_hex(#[trigger] r@[i]),
{
    format!("{:x}", <sha2::Sha256 as sha2::Digest>::digest(text.as_bytes()))
}

/// The parts of a skill's embedding text: name, description and template,
/// then its tags joined by commas when it has any.
pub open spec fn embedding_parts(name: Seq<char>, description: Seq<char>, template: Seq<char>, tags: Seq<Seq<char>>) -> Seq<Seq<char>> {
    if tags.len() == 0 {
        seq![name, description, template]
    } else {
        seq![name, description, template, join_with(tags, ", "@)]
    }
}

/// The text a skill is embedded from: its parts joined by newlines.
pub fn build_embedding_text(skill: &LearnedSkill) -> (r: String)
    ensures
        r@ == join_with(
            embedding_parts(skill.name@, skill.description@, skill.pattern.template@, views(skill.tags@)),
            "\n"@,
        ),
{
    let mut parts: Vec<String> = Vec::new();
    parts.push(owned(skill.name.as_str()));
    parts.push(owned(skill.description.as_str()));
    parts.push(owned(skill.pattern.template.as_str()));
    if skill.tags.len() > 0 {
        parts.push(join(&skill.tags, ", "));
    }
    assert(views(parts@) =~= embedding_parts(
        skill.name@,
        skill.description@,
        skill.pattern.template@,
        views(skill.tags@),
    ));
    join(&parts, "\n")
}

/// What the index of a skill is made of: the text it is embedded from, and
/// the digest of that text that tells whether a stored embedding is current.
pub fn embedding_text_and_hash(skill: &LearnedSkill) -> (r: (String, String))
    ensures
        r.0@ == join_with(
            embedding_parts(skill.name@, skill.description@, skill.pattern.template@, views(skill.tags@)),
            "\n"@,
        ),
        r.1@ == sha256_hex(r.0@),
        r.1@.len() == 64,
{
    let text = build_embedding_text(skill);
    let hash = hash_text(text.as_str());
    (text, hash)
}

/// Whether position `k` holds the first skill with its identifier.
pub open spec fn first_of_id(ids: Seq<Seq<char>>, k: int) -> bool {
    forall|m: int| 0 <= m < k ==> ids[m] != ids[k]
}

/// The identifiers of skills.
pub open spec fn skill_ids(v: Seq<LearnedSkill>) -> Seq<Seq<char>> {
    v.map_values(|s: LearnedSkill| s.id@)
}

/// Whether some string of a list has the given text.
fn has_text(v: &Vec<String>, t: &str) -> (r: bool)
    ensures
        r == views(v@).contains(t@),
{
    let mut i: usize = 0;
    while i < v.len()
        invariant
            i <= v@.len(),
            forall|k: int| 0 <= k < i ==> v@[k]@ != t@,
        decreases v@.len() - i,
    {
        if str_eq(v[i].as_str(), t) {
            assert(views(v@)[i as int] == t@);
            return true;
        }
        i = i + 1;
    }
    proof {
        if views(v@).contains(t@) {
            let k = choose|k: int| 0 <= k < views(v@).len() && views(v@)[k] == t@;
            assert(v@[k]@ == t@);
        }
    }
    false
}

/// Merge search results: the semantic results first, then the text-search
/// results, each identifier kept once, at its first place.
pub fn merge_search_results(semantic: Vec<LearnedSkill>, text_hits: Vec<LearnedSkill>) -> (r: Vec<LearnedSkill>)
    ensures
        exists|pick: Seq<int>| #[trigger] merged_from(semantic@ + text_hits@, pick, r@),
{
    let ghost all = semantic@ + text_hits@;
    let ghost ids = skill_ids(all);
    let mut rest = semantic;
    let mut more = text_hits;
    rest.append(&mut more);
    let mut out: Vec<LearnedSkill> = Vec::new();
    let mut seen: Vec<String> = Vec::new();
    let ghost mut pick: Seq<int> = Seq::empty();
    let ghost mut k: int = 0;
    assert(rest@ =~= all.skip(0));
    while rest.len() > 0
        invariant
            0 <= k <= all.len(),
            ids == skill_ids(all),
            rest@ == all.skip(k),
            pick.len() == out@.len(),
            views(seen@).len() == out@.len(),
            forall|j: int| 0 <= j < pick.len() ==> 0 <= #[trigger] pick[j] < k && out@[j] == all[pick[j]]
                && first_of_id(ids, pick[j]) && views(seen@)[j] == ids[pick[j]],
            forall|j: int, m: int| 0 <= j < m < pick.len() ==> pick[j] < pick[m],
            forall|q: int| 0 <= q < k && #[trigger] first_of_id(ids, q) ==> exists|j: int| 0 <= j < pick.len() && pick[j] == q,
            forall|q: int| 0 <= q < k ==> views(seen@).contains(#[trigger] ids[q]),
            forall|x: Seq<char>| views(seen@).contains(x) ==> exists|q: int| 0 <= q < k && ids[q] == x,
        decreases rest@.len(),
    {
        let s = rest.remove(0);
        proof {
            assert(s == all[k]);
            assert(rest@ =~= all.skip(k + 1));
            assert(ids[k] == s.id@);
        }
        if !has_text(&seen, s.id.as_str()) {
            proof {
                assert forall|m: int| 0 <= m < k implies ids[m] != ids[k] by {
                    assert(views(seen@).contains(ids[m]));
                }
            }
            let ghost old_seen = views(seen@);
            seen.push(owned(s.id.as_str()));
            out.push(s);
            proof {
                assert(views(seen@) =~= old_seen.push(ids[k]));
                let old_pick = pick;
                pick = pick.push(k);
                assert forall|q: int| 0 <= q < k + 1 && #[trigger] first_of_id(ids, q) implies exists|j: int|
                    0 <= j < pick.len() && pick[j] == q by {
                    if q < k {
                        let j = choose|j: int| 0 <= j < old_pick.len() && old_pick[j] == q;
                        assert(pick[j] == q);
                    } else {
                        assert(pick[pick.len() - 1] == q);
                    }
                }
                assert forall|q: int| 0 <= q < k + 1 implies views(seen@).contains(#[trigger] ids[q]) by {
                    if q < k {
                        assert(old_seen.contains(ids[q]));
                        let j = choose|j: int| 0 <= j < old_seen.len() && old_seen[j] == ids[q];
                        assert(views(seen@)[j] == ids[q]);
                    } else {
                        assert(views(seen@)[old_seen.len() as int] == ids[q]);
                    }
                }
                assert forall|x: Seq<char>| views(seen@).contains(x) implies exists|q: int| 0 <= q < k + 1 && ids[q] == x by {
                    let j = choose|j: int| 0 <= j < views(seen@).len() && views(seen@)[j] == x;
                    if j < old_seen.len() {
                        assert(old_seen[j] == x);
                        assert(old_seen.contains(x));
                    } else {
                        assert(ids[k] == x);
                    }
                }
            }
        } else {
            proof {
                let q = choose|q: int| 0 <= q < k && ids[q] == ids[k];
                assert(!first_of_id(ids, k));
                assert forall|q2: int| 0 <= q2 < k + 1 && #[trigger] first_of_id(ids, q2) implies exists|j: int|
                    0 <= j < pick.len() && pick[j] == q2 by {
                }
                assert forall|q2: int| 0 <= q2 < k + 1 implies views(seen@).contains(#[trigger] ids[q2]) by {
                }
            }
        }
        proof {
            k = k + 1;
        }
    }
    proof {
        assert(k == all.len());
        assert(merged_from(all, pick, out@));
    }
    out
}

/// `r` is made of the skills of `all` at the positions `pick`, in order:
/// exactly the first skill of each identifier.
pub open spec fn merged_from(all: Seq<LearnedSkill>, pick: Seq<int>, r: Seq<LearnedSkill>) -> bool {
    let ids = skill_ids(all);
    &&& pick.len() == r.len()
    &&& forall|j: int| 0 <= j < pick.len() ==> 0 <= #[trigger] pick[j] < all.len() && r[j] == all[pick[j]]
        && first_of_id(ids, pick[j])
    &&& forall|j: int, m: int| 0 <= j < m < pick.len() ==> pick[j] < pick[m]
    &&& forall|q: int| 0 <= q < all.len() && #[trigger] first_of_id(ids, q) ==> exists|j: int| 0 <= j < pick.len() && pick[j] == q
}

} // verus!
