use findr::build_configuration;
use findr::entry_type_of_token;
use findr::matching_paths;
use findr::passes_filters;
use findr::passes_name_filter;
use findr::passes_type_filter;
use findr::root_block;
use findr::Config;
use findr::ConfigError;
use findr::Entry;
use findr::EntryType;

fn strings(xs: &[&str]) -> Vec<String> {
    xs.iter().map(|s| s.to_string()).collect()
}

fn file_entry(path: &str, file_name: &str) -> Entry {
    Entry {
        path: path.to_string(),
        file_name: file_name.to_string(),
        is_dir: false,
        is_file: true,
        is_symlink: false,
    }
}

fn dir_entry(path: &str, file_name: &str) -> Entry {
    Entry {
        path: path.to_string(),
        file_name: file_name.to_string(),
        is_dir: true,
        is_file: false,
        is_symlink: false,
    }
}

fn link_entry(path: &str, file_name: &str) -> Entry {
    Entry {
        path: path.to_string(),
        file_name: file_name.to_string(),
        is_dir: false,
        is_file: false,
        is_symlink: true,
    }
}

fn config_with(names: &[&str], types: &[&str]) -> Config {
    build_configuration(strings(&["root"]), strings(names), strings(types)).unwrap()
}

#[test]
fn token_mapping_is_the_fixed_correspondence() {
    assert_eq!(entry_type_of_token("d"), Some(EntryType::Dir));
    assert_eq!(entry_type_of_token("f"), Some(EntryType::File));
    assert_eq!(entry_type_of_token("l"), Some(EntryType::Link));
    assert_eq!(entry_type_of_token("x"), None);
    assert_eq!(entry_type_of_token(""), None);
    assert_eq!(entry_type_of_token("df"), None);
}

#[test]
fn paths_default_to_current_directory() {
    let c = build_configuration(Vec::new(), Vec::new(), Vec::new()).unwrap();
    assert_eq!(c.paths, strings(&["."]));
    assert!(c.names.is_empty());
    assert!(c.entry_types.is_empty());
}

#[test]
fn given_paths_keep_order_and_duplicates() {
    let c = build_configuration(
        strings(&["b", "a", "b"]),
        Vec::new(),
        Vec::new(),
    )
    .unwrap();
    assert_eq!(c.paths, strings(&["b", "a", "b"]));
}

#[test]
fn type_tokens_map_in_order() {
    let c = build_configuration(Vec::new(), Vec::new(), strings(&["f", "d", "l"])).unwrap();
    assert_eq!(
        c.entry_types,
        vec![EntryType::File, EntryType::Dir, EntryType::Link]
    );
}

#[test]
fn invalid_pattern_fails_configuration() {
    let r = build_configuration(strings(&["root"]), strings(&["("]), Vec::new());
    match r {
        Err(e) => {
            assert!(matches!(e, ConfigError::InvalidName(_)));
            assert_eq!(e.message(), "Invalid --name \"(\"");
        }
        Ok(_) => panic!("an unbalanced parenthesis must not compile"),
    }
}

#[test]
fn first_invalid_pattern_wins() {
    let r = build_configuration(Vec::new(), strings(&["ok.*", "(", "["]), Vec::new());
    match r {
        Err(e) => assert_eq!(e.message(), "Invalid --name \"(\""),
        Ok(_) => panic!("compilation must stop at the first invalid pattern"),
    }
}

#[test]
fn unknown_type_token_fails_configuration() {
    let r = build_configuration(Vec::new(), Vec::new(), strings(&["x"]));
    match r {
        Err(e) => {
            assert!(matches!(e, ConfigError::InvalidEntryType(_)));
            assert_eq!(e.message(), "Invalid --type \"x\"");
        }
        Ok(_) => panic!("a token outside d, f, l must be rejected"),
    }
}

#[test]
fn empty_entry_types_pass_every_entry() {
    let c = config_with(&[], &[]);
    for e in [
        file_entry("root/a.txt", "a.txt"),
        dir_entry("root/sub", "sub"),
        link_entry("root/ln", "ln"),
    ] {
        assert!(passes_type_filter(&c, &e));
    }
}

#[test]
fn empty_names_pass_every_entry() {
    let c = config_with(&[], &["f"]);
    for e in [
        file_entry("root/a.txt", "a.txt"),
        dir_entry("root/sub", "sub"),
        link_entry("root/ln", "ln"),
    ] {
        assert!(passes_name_filter(&c, &e));
    }
}

#[test]
fn overall_pass_is_the_conjunction_of_both_filters() {
    let c = config_with(&["\\.txt$"], &["f"]);
    let both = file_entry("root/a.txt", "a.txt");
    let type_only = file_entry("root/b.log", "b.log");
    let name_only = dir_entry("root/notes.txt", "notes.txt");
    let neither = dir_entry("root/sub", "sub");

    assert!(passes_type_filter(&c, &both) && passes_name_filter(&c, &both));
    assert!(passes_filters(&c, &both));

    assert!(passes_type_filter(&c, &type_only) && !passes_name_filter(&c, &type_only));
    assert!(!passes_filters(&c, &type_only));

    assert!(!passes_type_filter(&c, &name_only) && passes_name_filter(&c, &name_only));
    assert!(!passes_filters(&c, &name_only));

    assert!(!passes_filters(&c, &neither));
}

#[test]
fn name_filter_reads_the_bare_file_name_only() {
    let c = config_with(&["sub"], &[]);
    let under_sub = file_entry("root/sub/c.txt", "c.txt");
    assert!(!passes_name_filter(&c, &under_sub));
    let named_sub = dir_entry("root/sub", "sub");
    assert!(passes_name_filter(&c, &named_sub));
}

#[test]
fn name_patterns_search_unanchored() {
    let c = config_with(&["^a"], &[]);
    assert!(passes_name_filter(&c, &file_entry("x/abc", "abc")));
    assert!(!passes_name_filter(&c, &file_entry("x/bac", "bac")));
    let c2 = config_with(&["txt"], &[]);
    assert!(passes_name_filter(&c2, &file_entry("x/a.txt.bak", "a.txt.bak")));
}

#[test]
fn requested_types_combine_by_or() {
    let c = config_with(&[], &["f", "d"]);
    assert!(passes_type_filter(&c, &file_entry("root/a.txt", "a.txt")));
    assert!(passes_type_filter(&c, &dir_entry("root/sub", "sub")));
    assert!(!passes_type_filter(&c, &link_entry("root/ln", "ln")));
}

fn sample_tree() -> Vec<Entry> {
    vec![
        dir_entry("root", "root"),
        file_entry("root/a.txt", "a.txt"),
        file_entry("root/b.log", "b.log"),
        dir_entry("root/sub", "sub"),
        file_entry("root/sub/c.txt", "c.txt"),
    ]
}

#[test]
fn txt_pattern_selects_the_two_text_files() {
    let c = config_with(&["\\.txt$"], &[]);
    let got = matching_paths(&c, &sample_tree());
    assert_eq!(got, strings(&["root/a.txt", "root/sub/c.txt"]));
}

#[test]
fn txt_pattern_with_file_type_selects_the_same() {
    let c = config_with(&["\\.txt$"], &["f"]);
    let got = matching_paths(&c, &sample_tree());
    assert_eq!(got, strings(&["root/a.txt", "root/sub/c.txt"]));
}

#[test]
fn directory_type_selects_the_two_directories() {
    let c = config_with(&[], &["d"]);
    let got = matching_paths(&c, &sample_tree());
    assert_eq!(got, strings(&["root", "root/sub"]));
}

#[test]
fn block_joins_matches_with_newlines() {
    let c = config_with(&["\\.txt$"], &[]);
    assert_eq!(root_block(&c, &sample_tree()), "root/a.txt\nroot/sub/c.txt");
}

#[test]
fn block_of_no_matches_is_empty() {
    let c = config_with(&["nothing-matches-this"], &[]);
    assert_eq!(root_block(&c, &sample_tree()), "");
    assert_eq!(root_block(&c, &Vec::new()), "");
}

#[test]
fn each_root_yields_its_own_block() {
    let c = config_with(&["\\.txt$"], &[]);
    let root1 = vec![
        dir_entry("root1", "root1"),
        file_entry("root1/a.txt", "a.txt"),
        file_entry("root1/d.txt", "d.txt"),
    ];
    let root2 = vec![dir_entry("root2", "root2"), file_entry("root2/b.log", "b.log")];
    let blocks: Vec<String> = [root1, root2]
        .iter()
        .map(|entries| root_block(&c, entries))
        .collect();
    assert_eq!(blocks, strings(&["root1/a.txt\nroot1/d.txt", ""]));
}
