use winter_mcp::predicates::{
    derived_note, derived_signatures, metadata_predicates, user_predicate_tip, user_predicates,
    validation_errors,
};

fn row(cells: &[&str]) -> Vec<String> {
    cells.iter().map(|c| c.to_string()).collect()
}

#[test]
fn user_predicates_distinct_in_order() {
    let rows = vec![
        row(&["r1", "interested_in", "c1"]),
        row(&["r2", "follows", "c2"]),
        row(&["r3", "likes", "c3"]),
        row(&["r4", "interested_in", "c4"]),
        row(&["r5"]),
        row(&["r6", "Liked_Topic", "c6"]),
    ];
    let derived = vec!["follows".to_string()];
    assert_eq!(
        user_predicates(&rows, &derived, None),
        vec!["interested_in".to_string(), "likes".to_string(), "Liked_Topic".to_string()]
    );
    assert_eq!(
        user_predicates(&rows, &derived, Some("LIKE")),
        vec!["likes".to_string(), "Liked_Topic".to_string()]
    );
    assert!(user_predicates(&vec![], &derived, None).is_empty());
}

#[test]
fn metadata_predicates_listing() {
    let all = metadata_predicates(None);
    assert_eq!(all.len(), 8);
    assert_eq!(all[0], ("_fact", 3, "_fact(rkey, predicate, cid)".to_string()));
    assert_eq!(all[6], ("_now", 1, "_now(timestamp (auto-injected at query time))".to_string()));
    let some = metadata_predicates(Some("AT"));
    let names: Vec<&str> = some.iter().map(|e| e.0).collect();
    assert_eq!(names, vec!["_created_at", "_expires_at"]);
    assert!(metadata_predicates(Some("zzz")).is_empty());
}

#[test]
fn derived_signatures_and_notes() {
    let (s, all) = derived_signatures("follows", &vec!["Src".to_string(), "Dst".to_string(), "Rkey".to_string()]);
    assert_eq!(s, "follows(Src, Dst, Rkey)");
    assert_eq!(all, "_all_follows(Src, Dst, Rkey)");
    assert_eq!(derived_note("is_followed_by"), "No rkey (from external API)");
    assert_eq!(derived_note("follows"), "Last arg is rkey");
    assert_eq!(
        user_predicate_tip("likes"),
        "To check arity, query: likes(A, B, ...) or check likes.facts TSV file"
    );
}

#[test]
fn validation_error_rows() {
    let rows = vec![row(&["3abc", "follows", "arity mismatch"]), row(&["3def"]), row(&[])];
    assert_eq!(
        validation_errors(&rows),
        vec![
            ("3abc".to_string(), "follows".to_string(), "arity mismatch".to_string()),
            ("3def".to_string(), String::new(), String::new()),
            (String::new(), String::new(), String::new()),
        ]
    );
}
