use sip_server::{Utils, ViaBranchGenerator};

#[test]
fn branches_count_up_from_zero() {
    let mut generator = ViaBranchGenerator::new();
    assert_eq!(generator.branch(), "z9hG4bK-0");
    assert_eq!(generator.branch(), "z9hG4bK-1");
    assert_eq!(generator.branch(), "z9hG4bK-2");
}

#[test]
fn branches_begin_with_the_magic_cookie_and_differ() {
    let mut generator = ViaBranchGenerator::new();
    let mut seen: Vec<String> = Vec::new();
    for _ in 0..200 {
        assert!(generator.has_next());
        let branch = generator.branch();
        assert!(branch.starts_with("z9hG4bK-"));
        assert!(!seen.contains(&branch));
        seen.push(branch);
    }
    assert_eq!(seen[10], "z9hG4bK-10");
    assert_eq!(seen[199], "z9hG4bK-199");
}

#[test]
fn utils_hands_out_the_branches_of_its_generator() {
    let mut utils = Utils::new();
    assert!(utils.has_next());
    assert_eq!(utils.via_branch(), "z9hG4bK-0");
    assert_eq!(utils.via_branch(), "z9hG4bK-1");
}
