//! The project a harness is generated for, and the names of its targets.

use vstd::prelude::*;
use vstd::string::*;
use crate::manifest::{register, spec_register, ManifestError, ManifestUpdate, UpdateView};
use crate::text::{chars_of, join, spec_join, texts};
use crate::toml_value::{parse_slice, string_at, string_in, toml_document_of_bytes};

verus! {

/// The name of the descriptor file of a project, and of the manifest of its
/// fuzzing project.
pub const DESCRIPTOR_FILE: &'static str = "Cargo.toml";

/// The directory of the fuzzing project, in the root of the project.
pub const FUZZ_DIR: &'static str = "fuzz";

/// The directory of the harness files, in the directory of the fuzzing
/// project. The manifest names every harness file by its path from there.
pub const TARGETS_DIR: &'static str = "fuzz_targets";

/// A project: where it lies and the name it declares.
#[derive(Clone, Debug, PartialEq, Eq)]
pub struct CrateInfo {
    crate_root: String,
    crate_name: String,
}

/// The path of keys under which a project descriptor declares its name.
pub open spec fn name_path() -> Seq<Seq<char>> {
    seq!["package"@, "name"@]
}

/// The name a project descriptor declares: the string under `package.name`,
/// where the descriptor is a TOML document that holds one there.
pub open spec fn spec_crate_name(descriptor: Seq<u8>) -> Option<Seq<char>> {
    string_in(toml_document_of_bytes(descriptor), name_path())
}

/// The name of a crate as an identifier: every `-` becomes `_`.
pub open spec fn spec_crate_ident(name: Seq<char>) -> Seq<char> {
    name.map_values(
        |c: char|
            if c == '-' {
                '_'
            } else {
                c
            },
    )
}

impl CrateInfo {
    /// The directory the project lies in.
    pub closed spec fn spec_root(&self) -> Seq<char> {
        self.crate_root@
    }

    /// The name the project declares.
    pub closed spec fn spec_name(&self) -> Seq<char> {
        self.crate_name@
    }

    /// Describes the project rooted at `path`. `descriptor` is the content of
    /// the descriptor file in that directory, `None` where the directory has
    /// none or it cannot be read.
    ///
    /// There is a project exactly where there is a descriptor that declares a
    /// name.
    pub fn from_root(path: &str, descriptor: Option<&[u8]>) -> (info: Option<CrateInfo>)
        ensures
            match info {
                Some(info) => descriptor is Some && spec_crate_name(descriptor.unwrap()@) == Some(
                    info.spec_name(),
                ) && info.spec_root() == path@,
                None => descriptor is None || spec_crate_name(descriptor.unwrap()@) is None,
            },
    {
        match descriptor {
            None => None,
            Some(bytes) => match CrateInfo::parse_crate_name(bytes) {
                Some(crate_name) => Some(CrateInfo { crate_root: path.to_owned(), crate_name }),
                None => None,
            },
        }
    }

    /// Reads the declared name out of the content of a descriptor file.
    pub fn parse_crate_name(descriptor: &[u8]) -> (name: Option<String>)
        ensures
            match name {
                Some(name) => spec_crate_name(descriptor@) == Some(name@),
                None => spec_crate_name(descriptor@) is None,
            },
    {
        match parse_slice(descriptor) {
            Err(_) => None,
            Ok(document) => {
                let mut path: Vec<String> = Vec::new();
                path.push("package".to_owned());
                path.push("name".to_owned());
                proof {
                    assert(texts(path@) == name_path());
                }
                string_at(&document, &path)
            },
        }
    }

    /// The name the project declares.
    pub fn crate_name(&self) -> (name: &str)
        ensures
            name@ == self.spec_name(),
    {
        self.crate_name.as_str()
    }

    /// The directory the project lies in.
    pub fn crate_root(&self) -> (root: &str)
        ensures
            root@ == self.spec_root(),
    {
        self.crate_root.as_str()
    }

    /// The directory of the harness files, as the names to go through from
    /// the root of the project on: the root, [`FUZZ_DIR`], [`TARGETS_DIR`].
    /// The caller joins them as its platform does and makes the directory.
    pub fn fuzz_dir(&self) -> (path: Vec<String>)
        ensures
            texts(path@) == seq![self.spec_root(), FUZZ_DIR@, TARGETS_DIR@],
    {
        let mut path: Vec<String> = Vec::new();
        path.push(self.crate_root.clone());
        path.push(FUZZ_DIR.to_owned());
        path.push(TARGETS_DIR.to_owned());
        proof {
            assert(texts(path@) == seq![self.spec_root(), FUZZ_DIR@, TARGETS_DIR@]);
        }
        path
    }

    /// The manifest of the fuzzing project, as the names to go through from
    /// the root of the project on: the root, [`FUZZ_DIR`],
    /// [`DESCRIPTOR_FILE`].
    pub fn fuzz_manifest(&self) -> (path: Vec<String>)
        ensures
            texts(path@) == seq![self.spec_root(), FUZZ_DIR@, DESCRIPTOR_FILE@],
    {
        let mut path: Vec<String> = Vec::new();
        path.push(self.crate_root.clone());
        path.push(FUZZ_DIR.to_owned());
        path.push(DESCRIPTOR_FILE.to_owned());
        proof {
            assert(texts(path@) == seq![self.spec_root(), FUZZ_DIR@, DESCRIPTOR_FILE@]);
        }
        path
    }

    /// Decides what to write so that the manifest of the fuzzing project
    /// declares the target for `function` exactly once; see [`register`].
    /// `existing` is the text of the manifest, `None` where the caller has
    /// just created the file.
    pub fn add_target_to_cargo_toml(
        &self,
        existing: Option<&str>,
        function: &str,
        owner: Option<&str>,
        modules: &Vec<String>,
    ) -> (update: Result<ManifestUpdate, ManifestError>)
        ensures
            match update {
                Ok(update) => spec_register(
                    name_view(existing),
                    self.spec_name(),
                    spec_harness_ident(function@, name_view(owner), texts(modules@)),
                ) == Ok::<UpdateView, ManifestError>(update@),
                Err(error) => spec_register(
                    name_view(existing),
                    self.spec_name(),
                    spec_harness_ident(function@, name_view(owner), texts(modules@)),
                ) == Err::<UpdateView, ManifestError>(error),
            },
    {
        let ident = construct_harness_ident(function, owner, modules);
        register(existing, self.crate_name.as_str(), ident.as_str())
    }

    /// The name under which other crates refer to the project.
    pub fn crate_ident(&self) -> (ident: String)
        ensures
            ident@ == spec_crate_ident(self.spec_name()),
    {
        crate_ident(self.crate_name.as_str())
    }
}

/// Turns the name of a crate into the identifier it is linked under.
pub fn crate_ident(name: &str) -> (ident: String)
    ensures
        ident@ == spec_crate_ident(name@),
{
    let chars = chars_of(name);
    let mut ident = String::new();
    let mut i: usize = 0;
    while i < chars.len()
        invariant
            i <= chars.len(),
            chars@ == name@,
            ident@ == spec_crate_ident(name@).take(i as int),
        decreases chars.len() - i,
    {
        let c = chars[i];
        proof {
            assert(spec_crate_ident(name@).take(i + 1) == spec_crate_ident(name@).take(
                i as int,
            ).push(spec_crate_ident(name@)[i as int]));
        }
        if c == '-' {
            ident.push('_');
        } else {
            ident.push(c);
        }
        i = i + 1;
    }
    proof {
        assert(spec_crate_ident(name@).take(i as int) == spec_crate_ident(name@));
    }
    ident
}

/// The last part of a target name: the function, after its owner where it
/// has one.
pub open spec fn spec_local_ident(function: Seq<char>, owner: Option<Seq<char>>) -> Seq<char> {
    match owner {
        Some(owner) => owner + "_"@ + function,
        None => function,
    }
}

/// The name of the target for `function`: the modules joined by `__`, then
/// `__` and the local part; the local part alone where there are no modules.
pub open spec fn spec_harness_ident(
    function: Seq<char>,
    owner: Option<Seq<char>>,
    modules: Seq<Seq<char>>,
) -> Seq<char> {
    if modules.len() == 0 {
        spec_local_ident(function, owner)
    } else {
        spec_join(modules, "__"@) + "__"@ + spec_local_ident(function, owner)
    }
}

/// The view of an optional name.
pub open spec fn name_view(name: Option<&str>) -> Option<Seq<char>> {
    match name {
        Some(name) => Some(name@),
        None => None,
    }
}

/// Names the target for `function`, a method or associated function of
/// `owner` where there is one, declared in `modules`, outermost first.
///
/// The name is also the stem of the harness file.
pub fn construct_harness_ident(function: &str, owner: Option<&str>, modules: &Vec<String>) -> (ident:
    String)
    ensures
        ident@ == spec_harness_ident(function@, name_view(owner), texts(modules@)),
{
    let mut ident = String::new();
    if modules.len() > 0 {
        ident.append(join(modules, "__").as_str());
        ident.append("__");
    }
    match owner {
        Some(owner) => {
            ident.append(owner);
            ident.append("_");
        },
        None => {},
    }
    ident.append(function);
    proof {
        assert(ident@ == spec_harness_ident(function@, name_view(owner), texts(modules@)));
    }
    ident
}

} // verus!
