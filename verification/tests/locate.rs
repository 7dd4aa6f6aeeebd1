use cargo_clippy_lints::lints::Lints;
use cargo_clippy_lints::locate::config_file_name;

#[test]
fn config_file_name_is_fixed() {
    assert_eq!(config_file_name(), "lints.toml");
}

#[test]
fn first_match_is_the_deepest_one() {
    let start = vec!["a".to_string(), "b".to_string(), "c".to_string()];
    // The file exists both at /a/b and at /a; the deeper one wins.
    let has_config = vec![false, true, true, false];
    let dir = Lints::find_config_path(&start, &has_config).unwrap();
    assert_eq!(dir, vec!["a".to_string(), "b".to_string()]);
}

#[test]
fn match_in_the_starting_directory_itself() {
    let start = vec!["a".to_string(), "b".to_string()];
    let has_config = vec![true, true, true];
    let dir = Lints::find_config_path(&start, &has_config).unwrap();
    assert_eq!(dir, start);
}

#[test]
fn match_at_the_root() {
    let start = vec!["a".to_string(), "b".to_string()];
    let has_config = vec![false, false, true];
    let dir = Lints::find_config_path(&start, &has_config).unwrap();
    assert!(dir.is_empty());
}

#[test]
fn no_match_up_to_the_root() {
    let start = vec!["a".to_string(), "b".to_string()];
    let has_config = vec![false, false, false];
    assert!(Lints::find_config_path(&start, &has_config).is_none());
}

#[test]
fn search_from_the_root_itself() {
    let start: Vec<String> = vec![];
    assert!(Lints::find_config_path(&start, &vec![false]).is_none());
    let dir = Lints::find_config_path(&start, &vec![true]).unwrap();
    assert!(dir.is_empty());
}
