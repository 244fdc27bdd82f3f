use judge_slave::language::Languages;

fn table(names: &[&str]) -> Languages {
    Languages::new(names.iter().map(|n| n.to_string()).collect())
}

#[test]
fn language_is_found_by_its_name() {
    let languages = table(&["c", "rust", "python"]);
    assert_eq!(languages.get(&"c".to_string()), Some(0));
    assert_eq!(languages.get(&"python".to_string()), Some(2));
    assert_eq!(languages.get(&"Rust".to_string()), None);
    assert_eq!(languages.get(&"".to_string()), None);
}

#[test]
fn first_of_two_equal_names_is_found() {
    assert_eq!(table(&["c", "rust", "rust"]).get(&"rust".to_string()), Some(1));
}

#[test]
fn empty_table_knows_no_language() {
    assert_eq!(table(&[]).get(&"c".to_string()), None);
}
