//! Finding the project that encloses a path.
//!
//! The root of a project is the nearest directory, going upward from where
//! the search starts, that holds a descriptor file. Looking into a directory
//! is left to a driver: it begins with [`Locator::start`], looks where it is
//! told to look, reports what it found to [`Locator::step`], and stops when
//! it is told the result.

use vstd::prelude::*;
use vstd::string::*;
use crate::crate_parse::{spec_crate_name, CrateInfo};
use crate::text::texts;

verus! {

/// Why no project was found.
#[derive(Clone, Copy, Debug, PartialEq, Eq)]
pub enum LocateError {
    /// No directory up to the last one holds a descriptor.
    NotFound,
    /// The nearest descriptor declares no name.
    Unparseable,
}

/// What the driver is to do next.
#[derive(Debug, PartialEq, Eq)]
pub enum Search {
    /// Read the descriptor file in this directory and report its content,
    /// or that there is none.
    Look(String),
    /// Stop: this is the project.
    Found(CrateInfo),
    /// Stop: there is no project.
    Failed(LocateError),
}

/// A search in progress: the directories to look into, nearest first, and
/// how many of them have been looked into.
#[derive(Debug)]
pub struct Locator {
    ancestors: Vec<String>,
    looked: usize,
}

/// How a search ends, given what each directory holds: `descriptors[i]` is
/// the content of the descriptor in `ancestors[i]`, `None` where there is
/// none. The nearest directory with a descriptor decides.
pub open spec fn spec_locate(
    ancestors: Seq<Seq<char>>,
    descriptors: Seq<Option<Seq<u8>>>,
    from: int,
) -> Result<(Seq<char>, Seq<char>), LocateError>
    decreases ancestors.len() - from,
{
    if from < 0 || from >= ancestors.len() || from >= descriptors.len() {
        Err(LocateError::NotFound)
    } else {
        match descriptors[from] {
            Some(descriptor) => match spec_crate_name(descriptor) {
                Some(name) => Ok((ancestors[from], name)),
                None => Err(LocateError::Unparseable),
            },
            None => spec_locate(ancestors, descriptors, from + 1),
        }
    }
}

/// Whether `search` is the answer to finding `descriptor` in the directory
/// `ancestors[at]`.
pub open spec fn spec_step(
    ancestors: Seq<Seq<char>>,
    at: int,
    descriptor: Option<&[u8]>,
    search: Search,
) -> bool {
    match descriptor {
        Some(bytes) => match spec_crate_name(bytes@) {
            Some(name) => search matches Search::Found(info) && info.spec_name() == name
                && info.spec_root() == ancestors[at],
            None => search == Search::Failed(LocateError::Unparseable),
        },
        None => if at + 1 < ancestors.len() {
            search matches Search::Look(directory) && directory@ == ancestors[at + 1]
        } else {
            search == Search::Failed(LocateError::NotFound)
        },
    }
}

impl Locator {
    /// The directories of the search, nearest first.
    pub closed spec fn spec_ancestors(&self) -> Seq<Seq<char>> {
        texts(self.ancestors@)
    }

    /// How many directories have been looked into.
    pub closed spec fn spec_looked(&self) -> int {
        self.looked as int
    }

    /// Begins a search through `ancestors`, the directory where the search
    /// starts and then each directory that encloses the one before it.
    pub fn new(ancestors: Vec<String>) -> (locator: Locator)
        ensures
            locator.spec_ancestors() == texts(ancestors@),
            locator.spec_looked() == 0,
    {
        Locator { ancestors, looked: 0 }
    }

    /// Says where to look next; with no directory left the search has
    /// failed.
    pub fn start(&self) -> (search: Search)
        ensures
            if self.spec_looked() < self.spec_ancestors().len() {
                search matches Search::Look(directory) && directory@
                    == self.spec_ancestors()[self.spec_looked()]
            } else {
                search == Search::Failed(LocateError::NotFound)
            },
    {
        if self.looked < self.ancestors.len() {
            Search::Look(self.ancestors[self.looked].clone())
        } else {
            Search::Failed(LocateError::NotFound)
        }
    }

    /// Takes what the directory last pointed to holds, and says how the
    /// search goes on: a descriptor ends it, with the project where it
    /// declares a name; without one the search moves to the next directory,
    /// and fails when there is none left. A report that no directory was
    /// waiting for fails the search and changes nothing.
    pub fn step(&mut self, descriptor: Option<&[u8]>) -> (search: Search)
        ensures
            final(self).spec_ancestors() == old(self).spec_ancestors(),
            if old(self).spec_looked() < old(self).spec_ancestors().len() {
                final(self).spec_looked() == old(self).spec_looked() + 1 && spec_step(
                    old(self).spec_ancestors(),
                    old(self).spec_looked(),
                    descriptor,
                    search,
                )
            } else {
                final(self).spec_looked() == old(self).spec_looked() && search == Search::Failed(
                    LocateError::NotFound,
                )
            },
    {
        if self.looked >= self.ancestors.len() {
            return Search::Failed(LocateError::NotFound);
        }
        let at = self.looked;
        self.looked = at + 1;
        match descriptor {
            Some(bytes) => match CrateInfo::from_root(self.ancestors[at].as_str(), Some(bytes)) {
                Some(info) => Search::Found(info),
                None => Search::Failed(LocateError::Unparseable),
            },
            None => {
                if self.looked < self.ancestors.len() {
                    Search::Look(self.ancestors[self.looked].clone())
                } else {
                    Search::Failed(LocateError::NotFound)
                }
            },
        }
    }
}

/// The view of an optional run of bytes.
pub open spec fn bytes_view(bytes: Option<Vec<u8>>) -> Option<Seq<u8>> {
    match bytes {
        Some(bytes) => Some(bytes@),
        None => None,
    }
}

/// Runs a whole search over what the directories are known to hold:
/// `descriptors[i]` is the content of the descriptor in `ancestors[i]`. A
/// directory that `descriptors` does not reach ends the search.
#[verifier::loop_isolation(false)]
pub fn locate(ancestors: Vec<String>, descriptors: &Vec<Option<Vec<u8>>>) -> (found: Result<
    CrateInfo,
    LocateError,
>)
    ensures
        match found {
            Ok(info) => spec_locate(
                texts(ancestors@),
                descriptors@.map_values(|bytes: Option<Vec<u8>>| bytes_view(bytes)),
                0,
            ) == Ok::<(Seq<char>, Seq<char>), LocateError>((info.spec_root(), info.spec_name())),
            Err(error) => spec_locate(
                texts(ancestors@),
                descriptors@.map_values(|bytes: Option<Vec<u8>>| bytes_view(bytes)),
                0,
            ) == Err::<(Seq<char>, Seq<char>), LocateError>(error),
        },
{
    let ghost directories = texts(ancestors@);
    let ghost held = descriptors@.map_values(|bytes: Option<Vec<u8>>| bytes_view(bytes));
    let mut locator = Locator::new(ancestors);
    let mut search = locator.start();
    let mut i: usize = 0;
    loop
        invariant
            locator.spec_ancestors() == directories,
            locator.spec_looked() == i,
            held == descriptors@.map_values(|bytes: Option<Vec<u8>>| bytes_view(bytes)),
            search matches Search::Look(_) ==> i < directories.len(),
            search matches Search::Look(_) ==> spec_locate(directories, held, 0) == spec_locate(
                directories,
                held,
                i as int,
            ),
            search matches Search::Found(info) ==> spec_locate(directories, held, 0) == Ok::<
                (Seq<char>, Seq<char>),
                LocateError,
            >((info.spec_root(), info.spec_name())),
            search matches Search::Failed(error) ==> spec_locate(directories, held, 0) == Err::<
                (Seq<char>, Seq<char>),
                LocateError,
            >(error),
        decreases directories.len() - i, (if search is Look { 1nat } else { 0nat }),
    {
        match search {
            Search::Found(info) => {
                return Ok(info);
            },
            Search::Failed(error) => {
                return Err(error);
            },
            Search::Look(_) => {
                if i >= descriptors.len() {
                    return Err(LocateError::NotFound);
                }
                let descriptor = match &descriptors[i] {
                    Some(bytes) => Some(bytes.as_slice()),
                    None => None,
                };
                assert(held[i as int] == bytes_view(descriptors@[i as int]));
                search = locator.step(descriptor);
                i = i + 1;
            },
        }
    }
}

} // verus!
