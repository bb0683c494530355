use auto_fuzz_test::crate_parse::{construct_harness_ident, crate_ident, CrateInfo};
use auto_fuzz_test::manifest::{
    entry_text, listed_targets, new_manifest, register, ManifestError, ManifestUpdate,
};

const VALID_CARGO_TOML: &str = r#"[package]
name = "test-lib"
version = "0.1.0"
authors = ["<test>"]
edition = "2018"

[dependencies]
auto-fuzz-test = { path = "../"  }
arbitrary = { version = "1", features = ["derive"]  }

"#;

fn test_lib() -> CrateInfo {
    CrateInfo::from_root("/tmp/test-lib", Some(VALID_CARGO_TOML.as_bytes())).unwrap()
}

fn modules(path: &[&str]) -> Vec<String> {
    path.iter().map(|segment| segment.to_string()).collect()
}

/// Stands for the manifest file: `None` until it is created.
fn add_target(
    manifest: &mut Option<String>,
    info: &CrateInfo,
    function: &str,
    owner: Option<&str>,
    path: &[&str],
) {
    let update =
        info.add_target_to_cargo_toml(manifest.as_deref(), function, owner, &modules(path));
    match update.unwrap() {
        ManifestUpdate::Create(text) => {
            assert!(manifest.is_none());
            *manifest = Some(text);
        }
        ManifestUpdate::Append(text) => manifest.as_mut().unwrap().push_str(&text),
        ManifestUpdate::Unchanged => {}
    }
}

fn generated(target: &str) -> String {
    format!(
        r#"[package]
name = "test-lib-fuzz"
version = "0.0.0"
authors = ["Automatically generated"]
publish = false
edition = "2018"

[package.metadata]
cargo-fuzz = true

[dependencies]
libfuzzer-sys = "0.4"

[dependencies.test-lib]
path = ".."

# Prevent this from interfering with workspaces
[workspace]
members = ["."]

[[bin]]
name = "{}"
path = "fuzz_targets/{}.rs"
test = false
doc = false
"#,
        target, target
    )
}

#[test]
fn no_cargo_toml() {
    assert_eq!(CrateInfo::from_root("/tmp/nothing-here", None), None);
}

#[test]
fn empty_cargo_toml() {
    assert_eq!(CrateInfo::parse_crate_name(b""), None);
}

#[test]
fn parse_valid_cargo_toml() {
    assert_eq!(
        CrateInfo::parse_crate_name(VALID_CARGO_TOML.as_bytes()),
        Some("test-lib".to_string())
    );
}

#[test]
fn write_cargo_nomodule_noimpl() {
    let info = test_lib();
    let mut manifest = None;
    add_target(&mut manifest, &info, "foo", None, &[]);
    add_target(&mut manifest, &info, "foo", None, &[]);
    assert_eq!(manifest.unwrap(), generated("foo"));
}

#[test]
fn write_cargo_module_noimpl() {
    let info = test_lib();
    let mut manifest = None;
    add_target(&mut manifest, &info, "cat", None, &["foo", "bar", "dog"]);
    add_target(&mut manifest, &info, "cat", None, &["foo", "bar", "dog"]);
    assert_eq!(manifest.unwrap(), generated("foo__bar__dog__cat"));
}

#[test]
fn write_cargo_nomodule_impl() {
    let info = test_lib();
    let mut manifest = None;
    add_target(&mut manifest, &info, "foo", Some("TestStruct"), &[]);
    add_target(&mut manifest, &info, "foo", Some("TestStruct"), &[]);
    assert_eq!(manifest.unwrap(), generated("TestStruct_foo"));
}

#[test]
fn write_cargo_module_impl() {
    let info = test_lib();
    let mut manifest = None;
    add_target(&mut manifest, &info, "cat", Some("TestStruct"), &["foo", "bar", "dog"]);
    add_target(&mut manifest, &info, "cat", Some("TestStruct"), &["foo", "bar", "dog"]);
    assert_eq!(manifest.unwrap(), generated("foo__bar__dog__TestStruct_cat"));
}

type Request = (&'static str, Option<&'static str>, &'static [&'static str]);

/// Hands out the requests of several callers in turn, one from each caller
/// that has any left: one of the orders in which callers that wait for one
/// lock may get it.
fn interleaved(callers: &[&[Request]]) -> Vec<Request> {
    let mut order = Vec::new();
    let longest = callers.iter().map(|requests| requests.len()).max().unwrap_or(0);
    for round in 0..longest {
        for requests in callers {
            if round < requests.len() {
                order.push(requests[round]);
            }
        }
    }
    order
}

#[test]
fn write_cargo_concurently() {
    let info = test_lib();
    let mut idents_needed = vec![
        "foo".to_string(),
        "bar".to_string(),
        "foo__foo".to_string(),
        "foo__bar".to_string(),
        "foo__bar__dog__cat".to_string(),
        "foo__bar__dog__dog".to_string(),
        "TestStruct_foo".to_string(),
        "TestStruct_bar".to_string(),
        "foo__TestStruct_foo".to_string(),
        "foo__TestStruct_bar".to_string(),
        "foo__bar__TestStruct_foo".to_string(),
        "foo__bar__TestStruct_bar".to_string(),
    ];
    idents_needed.sort();

    let first: &[Request] = &[
        ("foo", None, &[]),
        ("foo", None, &["foo"]),
        ("cat", None, &["foo", "bar", "dog"]),
        ("bar", Some("TestStruct"), &[]),
        ("foo", None, &["foo"]),
        ("foo", Some("TestStruct"), &[]),
        ("foo", Some("TestStruct"), &["foo"]),
        ("foo", Some("TestStruct"), &["foo", "bar"]),
    ];
    let second: &[Request] = &[
        ("dog", None, &["foo", "bar", "dog"]),
        ("bar", Some("TestStruct"), &[]),
        ("bar", Some("TestStruct"), &["foo"]),
        ("bar", Some("TestStruct"), &["foo", "bar"]),
        ("dog", None, &["foo", "bar", "dog"]),
        ("bar", Some("TestStruct"), &["foo"]),
        ("bar", None, &[]),
        ("bar", None, &["foo"]),
    ];
    let third: &[Request] = &[
        ("foo", Some("TestStruct"), &["foo"]),
        ("bar", None, &[]),
        ("bar", None, &["foo"]),
        ("foo", Some("TestStruct"), &["foo", "bar"]),
    ];

    // Every caller holds the lock for the whole of one request, so what the
    // callers do together is their requests in some order. A few orders:
    let orders = vec![
        interleaved(&[first, second, third]),
        interleaved(&[third, second, first]),
        interleaved(&[second, first]).into_iter().chain(third.iter().copied()).collect(),
        third.iter().chain(second).chain(first).copied().collect(),
    ];
    for order in orders {
        let mut manifest = None;
        for (function, owner, path) in order {
            add_target(&mut manifest, &info, function, owner, path);
        }
        let contents = manifest.unwrap();
        let mut idents: Vec<String> =
            listed_targets(&contents).into_iter().map(|target| target.unwrap()).collect();
        idents.sort();
        assert_eq!(idents_needed, idents);
        // The header came through untouched.
        assert!(contents.starts_with(generated("").split("\n[[bin]]").next().unwrap()));
    }
}

#[test]
fn harness_ident_examples() {
    assert_eq!(
        construct_harness_ident("go", Some("Owner"), &modules(&["mod1", "mod2"])),
        "mod1__mod2__Owner_go"
    );
    assert_eq!(construct_harness_ident("go", None, &[].to_vec()), "go");
    assert_eq!(construct_harness_ident("go", None, &modules(&["mod1"])), "mod1__go");
    assert_eq!(construct_harness_ident("go", Some("Owner"), &[].to_vec()), "Owner_go");
    assert_ne!(
        construct_harness_ident("go", Some("Owner"), &modules(&["m"])),
        construct_harness_ident("go", None, &modules(&["m"]))
    );
}

#[test]
fn crate_ident_replaces_hyphens() {
    assert_eq!(crate_ident("auto-fuzz-test"), "auto_fuzz_test");
    assert_eq!(crate_ident("plain"), "plain");
    assert_eq!(test_lib().crate_ident(), "test_lib");
    assert_eq!(test_lib().crate_name(), "test-lib");
    assert_eq!(test_lib().crate_root(), "/tmp/test-lib");
}

#[test]
fn create_dirs() {
    let crate_info = test_lib();
    let joined: std::path::PathBuf = crate_info.fuzz_dir().iter().collect();
    assert_eq!(
        joined,
        std::path::Path::new(crate_info.crate_root()).join("fuzz").join("fuzz_targets")
    );
}

#[test]
fn paths_below_the_root() {
    assert_eq!(test_lib().fuzz_dir(), vec!["/tmp/test-lib", "fuzz", "fuzz_targets"]);
    assert_eq!(test_lib().fuzz_manifest(), vec!["/tmp/test-lib", "fuzz", "Cargo.toml"]);
}

#[test]
fn descriptor_without_name_is_no_project() {
    assert_eq!(CrateInfo::from_root("/tmp/x", Some(b"[package]\nversion = \"1\"\n")), None);
    assert_eq!(CrateInfo::from_root("/tmp/x", Some(b"[package]\nname = 3\n")), None);
    assert_eq!(CrateInfo::from_root("/tmp/x", Some(b"package = \"name\"\n")), None);
    assert_eq!(CrateInfo::from_root("/tmp/x", Some(b"this is = not toml = at all")), None);
    assert_eq!(CrateInfo::from_root("/tmp/x", Some(&[0xff, 0xfe, 0x00])), None);
}

#[test]
fn register_reads_what_it_wrote() {
    let fresh = new_manifest("test-lib", "foo");
    assert_eq!(fresh, generated("foo"));
    assert_eq!(listed_targets(&fresh), vec![Some("foo".to_string())]);
    assert_eq!(register(Some(&fresh), "test-lib", "foo"), Ok(ManifestUpdate::Unchanged));
    assert_eq!(
        register(Some(&fresh), "test-lib", "bar"),
        Ok(ManifestUpdate::Append(entry_text("bar")))
    );
    assert_eq!(
        entry_text("bar"),
        "\n[[bin]]\nname = \"bar\"\npath = \"fuzz_targets/bar.rs\"\ntest = false\ndoc = false\n"
    );
    let both = fresh.clone() + &entry_text("bar");
    assert_eq!(listed_targets(&both), vec![Some("foo".to_string()), Some("bar".to_string())]);
    assert_eq!(register(Some(&both), "test-lib", "bar"), Ok(ManifestUpdate::Unchanged));
    assert_eq!(register(None, "test-lib", "foo"), Ok(ManifestUpdate::Create(fresh)));
}

#[test]
fn register_refuses_a_corrupt_manifest() {
    let fresh = new_manifest("test-lib", "foo");
    let garbled = fresh.clone() + "\n[[bin]]\nname = \n";
    assert_eq!(listed_targets(&garbled), vec![Some("foo".to_string()), None]);
    assert_eq!(register(Some(&garbled), "test-lib", "foo"), Err(ManifestError::Corrupt));
    assert_eq!(register(Some(&garbled), "test-lib", "bar"), Err(ManifestError::Corrupt));
    let one_line = fresh.clone() + "\njust one line\n";
    assert_eq!(register(Some(&one_line), "test-lib", "bar"), Err(ManifestError::Corrupt));
    let not_a_string = fresh + "\n[[bin]]\nname = 7\n";
    assert_eq!(register(Some(&not_a_string), "test-lib", "bar"), Err(ManifestError::Corrupt));
}

#[test]
fn short_manifest_has_no_targets() {
    assert_eq!(listed_targets(""), Vec::<Option<String>>::new());
    assert_eq!(listed_targets("a\n\nb\n\nc\n\nd\n\ne"), Vec::<Option<String>>::new());
    assert_eq!(
        listed_targets("a\n\nb\n\nc\n\nd\n\ne\n\n[[bin]]\r\nname = \"x\"\r\nrest"),
        vec![Some("x".to_string())]
    );
    assert_eq!(
        register(Some(""), "test-lib", "foo"),
        Ok(ManifestUpdate::Append(entry_text("foo")))
    );
}
