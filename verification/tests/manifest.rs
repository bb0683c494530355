use auto_fuzz_test::manifest::{
    apply, blocks, entry_text, find_target, new_manifest, second_line, target_of, ManifestError,
    ManifestUpdate, HEADER_BLOCKS,
};
use auto_fuzz_test::manifest_laws::{is_registrable, serve};

fn strings(values: &[&str]) -> Vec<String> {
    values.iter().map(|value| value.to_string()).collect()
}

#[test]
fn blocks_are_cut_at_empty_lines() {
    assert_eq!(blocks(""), strings(&[""]));
    assert_eq!(blocks("one"), strings(&["one"]));
    assert_eq!(blocks("a\nb\n\nc\n"), strings(&["a\nb", "c\n"]));
    assert_eq!(blocks("a\n\n"), strings(&["a", ""]));
    assert_eq!(blocks("\n\na"), strings(&["", "a"]));
    // Three line feeds: the first two are the cut.
    assert_eq!(blocks("a\n\n\nb"), strings(&["a", "\nb"]));
    assert_eq!(blocks("a\n\n\n\nb"), strings(&["a", "", "b"]));
    assert_eq!(blocks("a\r\n\r\nb"), strings(&["a\r\n\r\nb"]));
}

#[test]
fn a_new_manifest_has_the_header_and_one_target() {
    let cut = blocks(&new_manifest("test-lib", "foo"));
    assert_eq!(cut.len(), HEADER_BLOCKS + 1);
    assert_eq!(cut[0], "[package]\nname = \"test-lib-fuzz\"\nversion = \"0.0.0\"\nauthors = [\"Automatically generated\"]\npublish = false\nedition = \"2018\"");
    assert_eq!(cut[1], "[package.metadata]\ncargo-fuzz = true");
    assert_eq!(cut[2], "[dependencies]\nlibfuzzer-sys = \"0.4\"");
    assert_eq!(cut[3], "[dependencies.test-lib]\npath = \"..\"");
    assert_eq!(
        cut[4],
        "# Prevent this from interfering with workspaces\n[workspace]\nmembers = [\".\"]"
    );
    assert_eq!(
        cut[5],
        "[[bin]]\nname = \"foo\"\npath = \"fuzz_targets/foo.rs\"\ntest = false\ndoc = false\n"
    );
}

#[test]
fn second_lines() {
    assert_eq!(second_line(""), None);
    assert_eq!(second_line("one"), None);
    assert_eq!(second_line("one\n"), None);
    assert_eq!(second_line("one\ntwo"), Some("two".to_string()));
    assert_eq!(second_line("one\ntwo\n"), Some("two".to_string()));
    assert_eq!(second_line("one\ntwo\nthree"), Some("two".to_string()));
    assert_eq!(second_line("one\r\ntwo\r\nthree"), Some("two".to_string()));
    // A carriage return belongs to the line ending only before a line feed.
    assert_eq!(second_line("one\ntwo\r"), Some("two\r".to_string()));
    assert_eq!(second_line("one\n\nthree"), Some("".to_string()));
    assert_eq!(second_line("\ntwo"), Some("two".to_string()));
    assert_eq!(second_line("one\n\r\n"), Some("".to_string()));
}

#[test]
fn targets_of_blocks() {
    assert_eq!(target_of("[[bin]]\nname = \"foo\"\npath = \"x\""), Some("foo".to_string()));
    assert_eq!(target_of("[[bin]]\nname = 'foo'"), Some("foo".to_string()));
    assert_eq!(target_of("[[bin]]\nname = \"a\\\"b\""), Some("a\"b".to_string()));
    assert_eq!(target_of("name = \"foo\""), None);
    assert_eq!(target_of("[[bin]]\npath = \"foo\""), None);
    assert_eq!(target_of("[[bin]]\nname = [\"foo\"]"), None);
    assert_eq!(target_of("[[bin]]\nname = \"foo"), None);
}

#[test]
fn finding_a_target() {
    let listed = vec![Some("foo".to_string()), Some("bar".to_string())];
    assert_eq!(find_target(&listed, "bar"), Ok(true));
    assert_eq!(find_target(&listed, "ba"), Ok(false));
    assert_eq!(find_target(&vec![], "foo"), Ok(false));
    let holed = vec![Some("foo".to_string()), None, Some("bar".to_string())];
    assert_eq!(find_target(&holed, "foo"), Err(ManifestError::Corrupt));
    assert_eq!(find_target(&holed, "baz"), Err(ManifestError::Corrupt));
}

#[test]
fn applying_updates() {
    assert_eq!(apply(None, ManifestUpdate::Create("new".to_string())), "new");
    assert_eq!(
        apply(Some("old".to_string()), ManifestUpdate::Create("new".to_string())),
        "new"
    );
    assert_eq!(
        apply(Some("old".to_string()), ManifestUpdate::Append("+more".to_string())),
        "old+more"
    );
    assert_eq!(apply(Some("old".to_string()), ManifestUpdate::Unchanged), "old");
    assert_eq!(apply(None, ManifestUpdate::Unchanged), "");
}

#[test]
fn serving_requests_in_turn() {
    assert_eq!(serve("test-lib", &vec![]), Ok(None));
    let once = serve("test-lib", &strings(&["foo"])).unwrap().unwrap();
    assert_eq!(once, new_manifest("test-lib", "foo"));
    // The same name any number of times is one entry.
    let many = serve("test-lib", &strings(&["foo", "foo", "foo", "foo"])).unwrap().unwrap();
    assert_eq!(many, once);
    // Every name once, in the order of first request.
    let mixed =
        serve("test-lib", &strings(&["b", "a", "b", "c", "a", "c", "b"])).unwrap().unwrap();
    assert_eq!(
        mixed,
        new_manifest("test-lib", "b") + &entry_text("a") + &entry_text("c")
    );
    assert!(mixed.starts_with(once.split("\n[[bin]]").next().unwrap()));
}

#[test]
fn a_name_that_is_not_read_back_is_appended_again() {
    let twice = serve("test-lib", &strings(&["a\\tb", "a\\tb"])).unwrap().unwrap();
    assert_eq!(twice, new_manifest("test-lib", "a\\tb") + &entry_text("a\\tb"));
    assert_eq!(
        serve("test-lib", &strings(&["a\"b", "c"])),
        Err(ManifestError::Corrupt)
    );
}

#[test]
fn registrable_names() {
    assert!(is_registrable("foo__bar__TestStruct_foo"));
    assert!(!is_registrable("a\\tb"));
    assert!(!is_registrable("a\nb"));
    assert!(!is_registrable("a\"b"));
}
