use demiarch_core::knowledge::{path_entity_ids, path_steps, split_nonempty, split_on};

#[test]
fn split_on_keeps_empty_pieces() {
    assert_eq!(split_on("a,,b,", ','), vec!["a", "", "b", ""]);
    assert_eq!(split_on("", ','), vec![""]);
    assert_eq!(split_on("abc", ','), vec!["abc"]);
}

#[test]
fn split_nonempty_drops_empty_pieces() {
    assert_eq!(split_nonempty(",a,,b,", ','), vec!["a", "b"]);
    assert!(split_nonempty("", ',').is_empty());
}

#[test]
fn neighbour_path_ids() {
    assert_eq!(path_entity_ids(&Some("e1,e2,e3".to_string())), vec!["e1", "e2", "e3"]);
    assert!(path_entity_ids(&None).is_empty());
}

#[test]
fn path_steps_pair_entities_with_relationships() {
    let steps = path_steps("e1,e2,e3", "r1:uses:0.9,r2:depends_on");
    assert_eq!(steps.len(), 3);
    assert_eq!(steps[0].entity_id, "e1");
    assert!(steps[0].relationship.is_none());
    assert_eq!(steps[1].entity_id, "e2");
    let r = steps[1].relationship.as_ref().unwrap();
    assert_eq!(r.relationship_id, "r1");
    assert_eq!(r.relationship_type, "uses");
    assert_eq!(r.weight, "0.9");
    assert_eq!(steps[2].entity_id, "e3");
    assert!(steps[2].relationship.is_none());

    let single = path_steps("e1", "");
    assert_eq!(single.len(), 1);
    assert!(single[0].relationship.is_none());
}

#[test]
fn split_pieces_join_back() {
    for text in ["", "a", "a,b", ",a,,b,", ",,"] {
        assert_eq!(split_on(text, ',').join(","), text);
    }
}
