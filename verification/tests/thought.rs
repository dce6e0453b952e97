use winter_mcp::thought::{truncate_thought, MAX_THOUGHT_CONTENT_BYTES};

#[test]
fn short_thoughts_are_kept() {
    assert_eq!(truncate_thought("hello"), "hello");
    let exact = "a".repeat(MAX_THOUGHT_CONTENT_BYTES);
    assert_eq!(truncate_thought(&exact), exact);
}

#[test]
fn long_ascii_thought_is_cut_at_the_limit() {
    let long = "a".repeat(MAX_THOUGHT_CONTENT_BYTES + 1);
    let r = truncate_thought(&long);
    assert_eq!(r, format!("{}...[truncated]", "a".repeat(MAX_THOUGHT_CONTENT_BYTES)));
}

#[test]
fn long_thought_is_cut_at_a_character_boundary() {
    let euros = "\u{20ac}".repeat(10_667);
    assert_eq!(euros.len(), 32_001);
    let r = truncate_thought(&euros);
    assert_eq!(r, format!("{}...[truncated]", "\u{20ac}".repeat(10_666)));
    let mixed = format!("{}\u{1F600}", "a".repeat(31_998));
    let r = truncate_thought(&mixed);
    assert_eq!(r, format!("{}...[truncated]", "a".repeat(31_998)));
}
