use banna::sort::sort_lex;

fn strings(v: &[&str]) -> Vec<String> {
    v.iter().map(|s| s.to_string()).collect()
}

#[test]
fn sorts_like_string_ord() {
    let input = strings(&["using B;", "using A.C;", "using A;", "", "using a;", "using A;"]);
    let mut expected = input.clone();
    expected.sort();
    assert_eq!(sort_lex(input), expected);
}

#[test]
fn sorting_is_idempotent_and_keeps_every_item() {
    let input = strings(&["zeta", "Alpha", "beta", "alpha", "Beta"]);
    let once = sort_lex(input.clone());
    assert_eq!(once, strings(&["Alpha", "Beta", "alpha", "beta", "zeta"]));
    assert_eq!(sort_lex(once.clone()), once);
    assert_eq!(sort_lex(Vec::new()), Vec::<String>::new());
}
