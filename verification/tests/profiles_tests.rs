use clash_tiny::profiles::{list_profiles, name_le_exec, profile_stem};

fn names(v: &[&str]) -> Vec<String> {
    v.iter().map(|s| s.to_string()).collect()
}

#[test]
fn profiles_are_filtered_and_sorted() {
    let got = list_profiles(&names(&[
        "b.yaml", "a.yml", "_tmp.yaml", "c.txt", ".yaml", "x.y.yaml", "A.yaml", "_a_bak.yaml", "noext",
    ]));
    let stems: Vec<&str> = got.iter().map(|p| p.0.as_str()).collect();
    assert_eq!(stems, vec!["A", "a", "b", "x.y"]);
    assert!(got.iter().all(|(a, b)| a == b));
}

#[test]
fn empty_directory_gives_no_profiles() {
    assert!(list_profiles(&Vec::new()).is_empty());
    assert!(list_profiles(&names(&["readme.md"])).is_empty());
}

#[test]
fn same_stem_twice_is_listed_twice() {
    let got = list_profiles(&names(&["s.yml", "s.yaml"]));
    assert_eq!(got.len(), 2);
    assert_eq!(got[0].0, "s");
    assert_eq!(got[1].0, "s");
}

#[test]
fn sorted_order_matches_string_order() {
    let input = names(&["zeta.yaml", "Beta.yaml", "alpha.yaml", "名字.yaml", "alp.yaml", "10.yaml", "9.yaml"]);
    let got: Vec<String> = list_profiles(&input).into_iter().map(|p| p.0).collect();
    let mut expected: Vec<String> =
        input.iter().map(|s| s.trim_end_matches(".yaml").to_string()).collect();
    expected.sort();
    assert_eq!(got, expected);
}

#[test]
fn stems_follow_path_rules() {
    assert_eq!(profile_stem("a.yaml"), Some("a".to_string()));
    assert_eq!(profile_stem("a.YAML"), None);
    assert_eq!(profile_stem(".yml"), None);
    assert_eq!(profile_stem("..yml"), Some(".".to_string()));
    assert_eq!(profile_stem(".."), None);
    assert_eq!(profile_stem("_x.yml"), None);
    assert_eq!(profile_stem("a.b.yml"), Some("a.b".to_string()));
}

#[test]
fn name_order_is_by_code_point() {
    assert!(name_le_exec("a", "b"));
    assert!(name_le_exec("ab", "abc"));
    assert!(!name_le_exec("abc", "ab"));
    assert!(name_le_exec("B", "a"));
    assert!(name_le_exec("same", "same"));
    assert!(name_le_exec("", ""));
}
