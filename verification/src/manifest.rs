//! The manifest of fuzz targets: its text, and how it is read back.
//!
//! The manifest is a TOML file made of blocks with one empty line between
//! neighbours. Five blocks describe the fuzzing project; every block after
//! them declares one target, with the name of the target on its second line.

use vstd::prelude::*;
use vstd::string::*;
use crate::text::{chars_of, join, spec_join, string_of, texts};
use crate::toml_value::{parse_str, string_at, string_in, toml_document};

verus! {

/// The number of blocks that come before the first target.
pub const HEADER_BLOCKS: usize = 5;

/// Whether an empty line starts at `at`: two line feeds in a row.
pub open spec fn is_break(text: Seq<char>, at: int) -> bool {
    0 <= at && at + 1 < text.len() && text[at] == '\n' && text[at + 1] == '\n'
}

/// The first position at or after `from` where an empty line starts.
pub open spec fn first_break(text: Seq<char>, from: int) -> Option<int>
    decreases text.len() - from,
{
    if from < 0 || from + 1 >= text.len() {
        None
    } else if is_break(text, from) {
        Some(from)
    } else {
        first_break(text, from + 1)
    }
}

/// The blocks of a text: what stands between empty lines, cut at the first
/// pair of line feeds, then at the first pair after that, and so on.
pub open spec fn spec_blocks(text: Seq<char>) -> Seq<Seq<char>>
    decreases text.len(),
{
    match first_break(text, 0) {
        Some(at) => if 0 <= at && at + 2 <= text.len() {
            seq![text.take(at)] + spec_blocks(text.skip(at + 2))
        } else {
            seq![text]
        },
        None => seq![text],
    }
}

/// The first position at or after `from` that holds a line feed, or the
/// length of the text where none does.
pub open spec fn first_newline(text: Seq<char>, from: int) -> int
    decreases text.len() - from,
{
    if from < 0 || from >= text.len() {
        text.len() as int
    } else if text[from] == '\n' {
        from
    } else {
        first_newline(text, from + 1)
    }
}

/// The second line of a block. Lines end at a line feed; a carriage return
/// right before the line feed belongs to the line ending. A block has a
/// second line where something follows its first line feed.
pub open spec fn spec_second_line(block: Seq<char>) -> Option<Seq<char>> {
    let first_end = first_newline(block, 0);
    if first_end + 1 >= block.len() {
        None
    } else {
        let end = first_newline(block, first_end + 1);
        let line = block.subrange(first_end + 1, end);
        if end < block.len() && line.len() > 0 && line.last() == '\r' {
            Some(line.drop_last())
        } else {
            Some(line)
        }
    }
}

/// The path of keys under which a target block declares its name.
pub open spec fn target_name_path() -> Seq<Seq<char>> {
    seq!["name"@]
}

/// The target a block declares: the string that its second line, read as a
/// TOML document, holds under `name`.
pub open spec fn spec_target_of(block: Seq<char>) -> Option<Seq<char>> {
    match spec_second_line(block) {
        Some(line) => string_in(toml_document(line), target_name_path()),
        None => None,
    }
}

/// What a run of blocks declares after the header.
pub open spec fn targets_of(blocks: Seq<Seq<char>>) -> Seq<Option<Seq<char>>> {
    if blocks.len() <= HEADER_BLOCKS {
        Seq::empty()
    } else {
        blocks.skip(HEADER_BLOCKS as int).map_values(|block: Seq<char>| spec_target_of(block))
    }
}

/// What each block of a manifest after the header declares, in the order of
/// the blocks.
pub open spec fn spec_targets(text: Seq<char>) -> Seq<Option<Seq<char>>> {
    targets_of(spec_blocks(text))
}

/// Whether every one of `targets` is a target.
pub open spec fn all_declared(targets: Seq<Option<Seq<char>>>) -> bool {
    forall|i: int| 0 <= i < targets.len() ==> (#[trigger] targets[i]) is Some
}

/// Whether every block after the header declares a target.
pub open spec fn spec_well_formed(text: Seq<char>) -> bool {
    all_declared(spec_targets(text))
}

/// Whether some block after the header declares `target`.
pub open spec fn spec_lists(text: Seq<char>, target: Seq<char>) -> bool {
    spec_targets(text).contains(Some(target))
}

/// `first_break` finds an empty line with none before it, and finds none
/// only where there is none.
pub proof fn lemma_first_break(text: Seq<char>, from: int)
    requires
        0 <= from,
    ensures
        match first_break(text, from) {
            Some(at) => from <= at && is_break(text, at) && forall|j: int|
                from <= j < at ==> !is_break(text, j),
            None => forall|j: int| from <= j ==> !is_break(text, j),
        },
    decreases text.len() - from,
{
    if from + 1 < text.len() && !is_break(text, from) {
        lemma_first_break(text, from + 1);
    }
}

/// `first_newline` finds a line feed with none before it, or the end of the
/// text where there is none.
pub proof fn lemma_first_newline(text: Seq<char>, from: int)
    requires
        0 <= from <= text.len(),
    ensures
        from <= first_newline(text, from) <= text.len(),
        first_newline(text, from) < text.len() ==> text[first_newline(text, from)] == '\n',
        forall|j: int| from <= j < first_newline(text, from) ==> text[j] != '\n',
    decreases text.len() - from,
{
    if from < text.len() && text[from] != '\n' {
        lemma_first_newline(text, from + 1);
    }
}


/// The view of an optional string.
pub open spec fn option_text(string: Option<String>) -> Option<Seq<char>> {
    match string {
        Some(string) => Some(string@),
        None => None,
    }
}

/// The views of a sequence of optional strings.
pub open spec fn option_texts(strings: Seq<Option<String>>) -> Seq<Option<Seq<char>>> {
    strings.map_values(|string: Option<String>| option_text(string))
}

/// Finds the first empty line at or after `from`.
fn next_break(chars: &Vec<char>, from: usize) -> (found: Option<usize>)
    requires
        from <= chars.len(),
    ensures
        match found {
            Some(at) => from <= at && at + 2 <= chars.len() && first_break(
                chars@.skip(from as int),
                0,
            ) == Some(at - from),
            None => first_break(chars@.skip(from as int), 0) is None,
        },
{
    let ghost rest = chars@.skip(from as int);
    let mut at: usize = from;
    while at < chars.len() && at + 1 < chars.len()
        invariant
            from <= at <= chars.len(),
            rest == chars@.skip(from as int),
            forall|j: int| 0 <= j < at - from ==> !is_break(rest, j),
        decreases chars.len() - at,
    {
        if chars[at] == '\n' && chars[at + 1] == '\n' {
            proof {
                assert(is_break(rest, at - from));
                lemma_first_break(rest, 0);
            }
            return Some(at);
        }
        assert(!is_break(rest, at - from));
        at = at + 1;
    }
    proof {
        assert forall|j: int| 0 <= j implies !is_break(rest, j) by {}
        lemma_first_break(rest, 0);
    }
    None
}

/// Finds the first line feed at or after `from` in `chars[start..to]`.
fn next_newline(chars: &Vec<char>, start: usize, to: usize, from: usize) -> (at: usize)
    requires
        start <= from <= to <= chars.len(),
    ensures
        from <= at <= to,
        at - start == first_newline(chars@.subrange(start as int, to as int), from - start),
{
    let ghost block = chars@.subrange(start as int, to as int);
    let mut at: usize = from;
    while at < to
        invariant
            from <= at <= to <= chars.len(),
            start <= from,
            block == chars@.subrange(start as int, to as int),
            forall|j: int| from - start <= j < at - start ==> block[j] != '\n',
        decreases to - at,
    {
        if chars[at] == '\n' {
            proof {
                assert(block[at - start] == '\n');
                lemma_first_newline(block, from - start);
            }
            return at;
        }
        assert(block[at - start] != '\n');
        at = at + 1;
    }
    proof {
        lemma_first_newline(block, from - start);
    }
    at
}

/// Cuts a text into its blocks.
pub fn blocks(text: &str) -> (cut: Vec<String>)
    ensures
        texts(cut@) == spec_blocks(text@),
{
    let chars = chars_of(text);
    let mut cut: Vec<String> = Vec::new();
    let mut pos: usize = 0;
    proof {
        assert(text@.skip(0) == text@);
        assert(texts(cut@) + spec_blocks(text@.skip(0)) == spec_blocks(text@));
    }
    loop
        invariant
            chars@ == text@,
            pos <= chars.len(),
            spec_blocks(text@) == texts(cut@) + spec_blocks(text@.skip(pos as int)),
        decreases chars.len() - pos,
    {
        let ghost rest = text@.skip(pos as int);
        let found = next_break(&chars, pos);
        let end = match found {
            Some(at) => at,
            None => chars.len(),
        };
        let block = string_of(chars.as_slice(), pos, end);
        proof {
            assert(texts(cut@.push(block)) == texts(cut@).push(block@));
            match found {
                Some(at) => {
                    assert(rest.take(at - pos) == block@);
                    assert(rest.skip(at - pos + 2) == text@.skip(at + 2));
                    assert(spec_blocks(rest) == seq![block@] + spec_blocks(text@.skip(at + 2)));
                    assert(texts(cut@).push(block@) + spec_blocks(text@.skip(at + 2))
                        == spec_blocks(text@));
                },
                None => {
                    assert(rest == block@);
                    assert(spec_blocks(rest) == seq![block@]);
                    assert(texts(cut@).push(block@) == spec_blocks(text@));
                },
            }
        }
        cut.push(block);
        match found {
            Some(at) => {
                pos = at + 2;
            },
            None => {
                return cut;
            },
        }
    }
}

/// Reads the second line of a block.
pub fn second_line(block: &str) -> (line: Option<String>)
    ensures
        option_text(line) == spec_second_line(block@),
{
    let chars = chars_of(block);
    let to = chars.len();
    proof {
        assert(chars@.subrange(0, to as int) == block@);
    }
    let first_end = next_newline(&chars, 0, to, 0);
    if first_end >= to || first_end + 1 >= to {
        return None;
    }
    let end = next_newline(&chars, 0, to, first_end + 1);
    let stop = if end < to && end > first_end + 1 && chars[end - 1] == '\r' {
        end - 1
    } else {
        end
    };
    let line = string_of(chars.as_slice(), first_end + 1, stop);
    proof {
        let whole = block@.subrange(first_end + 1, end as int);
        if stop < end {
            assert(whole.last() == '\r');
            assert(whole.drop_last() == block@.subrange(first_end + 1, stop as int));
        } else if end < to && whole.len() > 0 {
            assert(whole.last() == chars@[end - 1]);
        }
    }
    Some(line)
}

/// Reads the target that a block declares.
pub fn target_of(block: &str) -> (target: Option<String>)
    ensures
        option_text(target) == spec_target_of(block@),
{
    match second_line(block) {
        None => None,
        Some(line) => match parse_str(line.as_str()) {
            Err(_) => None,
            Ok(document) => {
                let mut path: Vec<String> = Vec::new();
                path.push("name".to_owned());
                proof {
                    assert(texts(path@) == target_name_path());
                }
                string_at(&document, &path)
            },
        },
    }
}

/// Reads a manifest: for every block after the header, in order, the target
/// it declares, or `None` for a block that declares none.
pub fn listed_targets(manifest: &str) -> (targets: Vec<Option<String>>)
    ensures
        option_texts(targets@) == spec_targets(manifest@),
{
    let cut = blocks(manifest);
    let mut targets: Vec<Option<String>> = Vec::new();
    if cut.len() <= HEADER_BLOCKS {
        proof {
            assert(option_texts(targets@) == Seq::<Option<Seq<char>>>::empty());
        }
        return targets;
    }
    let ghost wanted = spec_targets(manifest@);
    let mut i: usize = HEADER_BLOCKS;
    while i < cut.len()
        invariant
            HEADER_BLOCKS <= i <= cut.len(),
            HEADER_BLOCKS < cut.len(),
            texts(cut@) == spec_blocks(manifest@),
            wanted == spec_targets(manifest@),
            option_texts(targets@) == wanted.take(i - HEADER_BLOCKS),
        decreases cut.len() - i,
    {
        let target = target_of(cut[i].as_str());
        proof {
            assert(texts(cut@)[i as int] == cut@[i as int]@);
            assert(wanted[i - HEADER_BLOCKS] == spec_target_of(spec_blocks(manifest@)[i as int]));
            assert(option_texts(targets@.push(target)) == option_texts(targets@).push(
                option_text(target),
            ));
            assert(wanted.take(i + 1 - HEADER_BLOCKS) == wanted.take(i - HEADER_BLOCKS).push(
                wanted[i - HEADER_BLOCKS],
            ));
        }
        targets.push(target);
        i = i + 1;
    }
    proof {
        assert(wanted.take(i - HEADER_BLOCKS) == wanted);
    }
    targets
}

/// The line of a target block that declares the name of the target.
pub open spec fn name_line(target: Seq<char>) -> Seq<char> {
    "name = \""@ + target + "\""@
}

/// The lines of the block that declares `target`.
pub open spec fn target_lines(target: Seq<char>) -> Seq<Seq<char>> {
    seq![
        "[[bin]]"@,
        name_line(target),
        "path = \"fuzz_targets/"@ + target + ".rs\""@,
        "test = false"@,
        "doc = false"@,
    ]
}

/// The block that declares `target`.
pub open spec fn target_block(target: Seq<char>) -> Seq<char> {
    spec_join(target_lines(target), "\n"@)
}

/// The lines of the five header blocks for the project `crate_name`: the
/// package, its metadata, the dependencies, the dependency on the project
/// under test, and the workspace.
pub open spec fn header_lines(crate_name: Seq<char>) -> Seq<Seq<Seq<char>>> {
    seq![
        seq![
            "[package]"@,
            "name = \""@ + crate_name + "-fuzz\""@,
            "version = \"0.0.0\""@,
            "authors = [\"Automatically generated\"]"@,
            "publish = false"@,
            "edition = \"2018\""@,
        ],
        seq!["[package.metadata]"@, "cargo-fuzz = true"@],
        seq!["[dependencies]"@, "libfuzzer-sys = \"0.4\""@],
        seq!["[dependencies."@ + crate_name + "]"@, "path = \"..\""@],
        seq![
            "# Prevent this from interfering with workspaces"@,
            "[workspace]"@,
            "members = [\".\"]"@,
        ],
    ]
}

/// The five header blocks for the project `crate_name`.
pub open spec fn header_blocks(crate_name: Seq<char>) -> Seq<Seq<char>> {
    header_lines(crate_name).map_values(|lines: Seq<Seq<char>>| spec_join(lines, "\n"@))
}

/// The blocks of the manifest of the project `crate_name` that declares
/// `targets`: the header blocks, then one block per target in that order.
pub open spec fn written_blocks(crate_name: Seq<char>, targets: Seq<Seq<char>>) -> Seq<Seq<char>> {
    header_blocks(crate_name) + targets.map_values(|target: Seq<char>| target_block(target))
}

/// The manifest of the project `crate_name` that declares `targets`, in that
/// order: its blocks with an empty line between neighbours, and a line feed
/// at the end.
pub open spec fn spec_manifest(crate_name: Seq<char>, targets: Seq<Seq<char>>) -> Seq<char> {
    spec_join(written_blocks(crate_name, targets), "\n\n"@) + "\n"@
}

/// What is appended to a manifest to declare `target`: an empty line, then
/// the block and the line feed that ends it.
pub open spec fn spec_entry(target: Seq<char>) -> Seq<char> {
    "\n"@ + target_block(target) + "\n"@
}

/// Pushes `first`, `middle` and `last` as one string.
fn push_line(lines: &mut Vec<String>, first: &str, middle: &str, last: &str)
    ensures
        texts(final(lines)@) == texts(old(lines)@).push(first@ + middle@ + last@),
{
    let mut line = String::new();
    line.append(first);
    line.append(middle);
    line.append(last);
    proof {
        assert(texts(lines@.push(line)) == texts(lines@).push(line@));
    }
    lines.push(line);
}

/// Pushes `line`.
fn push_plain(lines: &mut Vec<String>, line: &str)
    ensures
        texts(final(lines)@) == texts(old(lines)@).push(line@),
{
    let line = line.to_owned();
    proof {
        assert(texts(lines@.push(line)) == texts(lines@).push(line@));
    }
    lines.push(line);
}

/// Writes the block that declares `target`.
fn target_block_text(target: &str) -> (block: String)
    ensures
        block@ == target_block(target@),
{
    let mut lines: Vec<String> = Vec::new();
    assert(texts(lines@) == Seq::<Seq<char>>::empty());
    push_plain(&mut lines, "[[bin]]");
    push_line(&mut lines, "name = \"", target, "\"");
    push_line(&mut lines, "path = \"fuzz_targets/", target, ".rs\"");
    push_plain(&mut lines, "test = false");
    push_plain(&mut lines, "doc = false");
    proof {
        assert(texts(lines@) == target_lines(target@));
    }
    join(&lines, "\n")
}

/// Writes what is appended to a manifest to declare `target`.
pub fn entry_text(target: &str) -> (entry: String)
    ensures
        entry@ == spec_entry(target@),
{
    let mut entry = String::new();
    entry.append("\n");
    entry.append(target_block_text(target).as_str());
    entry.append("\n");
    entry
}

/// Writes the five header blocks for the project `crate_name`.
fn header_block_texts(crate_name: &str) -> (blocks: Vec<String>)
    ensures
        texts(blocks@) == header_blocks(crate_name@),
{
    let ghost wanted = header_lines(crate_name@);
    let mut blocks: Vec<String> = Vec::new();

    let mut package: Vec<String> = Vec::new();
    assert(texts(package@) == Seq::<Seq<char>>::empty());
    push_plain(&mut package, "[package]");
    push_line(&mut package, "name = \"", crate_name, "-fuzz\"");
    push_plain(&mut package, "version = \"0.0.0\"");
    push_plain(&mut package, "authors = [\"Automatically generated\"]");
    push_plain(&mut package, "publish = false");
    push_plain(&mut package, "edition = \"2018\"");
    assert(texts(package@) == wanted[0]);
    blocks.push(join(&package, "\n"));

    let mut metadata: Vec<String> = Vec::new();
    assert(texts(metadata@) == Seq::<Seq<char>>::empty());
    push_plain(&mut metadata, "[package.metadata]");
    push_plain(&mut metadata, "cargo-fuzz = true");
    assert(texts(metadata@) == wanted[1]);
    blocks.push(join(&metadata, "\n"));

    let mut dependencies: Vec<String> = Vec::new();
    assert(texts(dependencies@) == Seq::<Seq<char>>::empty());
    push_plain(&mut dependencies, "[dependencies]");
    push_plain(&mut dependencies, "libfuzzer-sys = \"0.4\"");
    assert(texts(dependencies@) == wanted[2]);
    blocks.push(join(&dependencies, "\n"));

    let mut project: Vec<String> = Vec::new();
    assert(texts(project@) == Seq::<Seq<char>>::empty());
    push_line(&mut project, "[dependencies.", crate_name, "]");
    push_plain(&mut project, "path = \"..\"");
    assert(texts(project@) == wanted[3]);
    blocks.push(join(&project, "\n"));

    let mut workspace: Vec<String> = Vec::new();
    assert(texts(workspace@) == Seq::<Seq<char>>::empty());
    push_plain(&mut workspace, "# Prevent this from interfering with workspaces");
    push_plain(&mut workspace, "[workspace]");
    push_plain(&mut workspace, "members = [\".\"]");
    assert(texts(workspace@) == wanted[4]);
    blocks.push(join(&workspace, "\n"));

    proof {
        assert(texts(blocks@) == header_blocks(crate_name@));
    }
    blocks
}

/// Writes the manifest of the project `crate_name` with `target` as its only
/// target.
pub fn new_manifest(crate_name: &str, target: &str) -> (manifest: String)
    ensures
        manifest@ == spec_manifest(crate_name@, seq![target@]),
{
    let mut blocks = header_block_texts(crate_name);
    let block = target_block_text(target);
    proof {
        assert(texts(blocks@.push(block)) == texts(blocks@).push(block@));
        assert(seq![target@].map_values(|target: Seq<char>| target_block(target)) == seq![
            target_block(target@),
        ]);
        assert(header_blocks(crate_name@).push(block@) == header_blocks(crate_name@) + seq![
            target_block(target@),
        ]);
    }
    blocks.push(block);
    let mut manifest = join(&blocks, "\n\n");
    manifest.append("\n");
    manifest
}


/// What has to be written so that the manifest declares a target.
#[derive(Clone, Debug, PartialEq, Eq)]
pub enum ManifestUpdate {
    /// There was no manifest: this is the text of the new one.
    Create(String),
    /// The manifest does not declare the target: this is to be appended.
    Append(String),
    /// The manifest declares the target already.
    Unchanged,
}

/// Why a manifest cannot be updated.
#[derive(Clone, Copy, Debug, PartialEq, Eq)]
pub enum ManifestError {
    /// Some block after the header declares no target. Appending to such a
    /// manifest could declare a target twice, so nothing is written.
    Corrupt,
}

/// View of [`ManifestUpdate`].
pub enum UpdateView {
    Create(Seq<char>),
    Append(Seq<char>),
    Unchanged,
}

impl View for ManifestUpdate {
    type V = UpdateView;

    open spec fn view(&self) -> UpdateView {
        match self {
            ManifestUpdate::Create(text) => UpdateView::Create(text@),
            ManifestUpdate::Append(text) => UpdateView::Append(text@),
            ManifestUpdate::Unchanged => UpdateView::Unchanged,
        }
    }
}

/// The update that makes the manifest of `crate_name` declare `target`.
/// `existing` is the text of the manifest, `None` where there is none yet.
pub open spec fn spec_register(
    existing: Option<Seq<char>>,
    crate_name: Seq<char>,
    target: Seq<char>,
) -> Result<UpdateView, ManifestError> {
    match existing {
        None => Ok(UpdateView::Create(spec_manifest(crate_name, seq![target]))),
        Some(text) => if !spec_well_formed(text) {
            Err(ManifestError::Corrupt)
        } else if spec_lists(text, target) {
            Ok(UpdateView::Unchanged)
        } else {
            Ok(UpdateView::Append(spec_entry(target)))
        },
    }
}

/// The text of the manifest once `update` is written.
pub open spec fn spec_applied(existing: Option<Seq<char>>, update: UpdateView) -> Seq<char> {
    match update {
        UpdateView::Create(text) => text,
        UpdateView::Append(text) => match existing {
            Some(before) => before + text,
            None => text,
        },
        UpdateView::Unchanged => match existing {
            Some(before) => before,
            None => Seq::empty(),
        },
    }
}

/// Looks for `target` among what the blocks of a manifest declare: whether
/// it is there, or that some block declares nothing.
pub fn find_target(targets: &Vec<Option<String>>, target: &str) -> (found: Result<
    bool,
    ManifestError,
>)
    ensures
        match found {
            Ok(present) => all_declared(option_texts(targets@)) && present == option_texts(
                targets@,
            ).contains(Some(target@)),
            Err(error) => !all_declared(option_texts(targets@)) && error == ManifestError::Corrupt,
        },
{
    let wanted = target.to_owned();
    let ghost listed = option_texts(targets@);
    let mut present = false;
    let mut i: usize = 0;
    while i < targets.len()
        invariant
            i <= targets.len(),
            wanted@ == target@,
            listed == option_texts(targets@),
            forall|j: int| 0 <= j < i ==> (#[trigger] listed[j]) is Some,
            present == listed.take(i as int).contains(Some(target@)),
        decreases targets.len() - i,
    {
        assert(listed[i as int] == option_text(targets@[i as int]));
        assert(listed.take(i + 1) == listed.take(i as int).push(listed[i as int]));
        match &targets[i] {
            None => {
                assert(listed[i as int] is None);
                return Err(ManifestError::Corrupt);
            },
            Some(name) => {
                let same = *name == wanted;
                proof {
                    let before = listed.take(i as int);
                    let now = listed.take(i + 1);
                    if same {
                        assert(now[i as int] == Some(target@));
                    } else if now.contains(Some(target@)) {
                        let k = choose|k: int| 0 <= k < now.len() && now[k] == Some(target@);
                        assert(before[k] == Some(target@));
                    } else if before.contains(Some(target@)) {
                        let k = choose|k: int|
                            0 <= k < before.len() && before[k] == Some(target@);
                        assert(now[k] == Some(target@));
                    }
                }
                if same {
                    present = true;
                }
            },
        }
        i = i + 1;
    }
    proof {
        assert(listed.take(i as int) == listed);
    }
    Ok(present)
}

/// Decides what to write so that the manifest of `crate_name` declares
/// `target` exactly once. `existing` is the whole text of the manifest as it
/// stands, `None` where the caller has just created the file.
///
/// A new manifest gets the header and the target. An existing one is read
/// first: it is left alone where it declares the target, gets the target
/// appended where it does not, and is refused where one of its blocks after
/// the header declares nothing.
pub fn register(existing: Option<&str>, crate_name: &str, target: &str) -> (update: Result<
    ManifestUpdate,
    ManifestError,
>)
    ensures
        match update {
            Ok(update) => spec_register(
                crate::crate_parse::name_view(existing),
                crate_name@,
                target@,
            ) == Ok::<UpdateView, ManifestError>(update@),
            Err(error) => spec_register(
                crate::crate_parse::name_view(existing),
                crate_name@,
                target@,
            ) == Err::<UpdateView, ManifestError>(error),
        },
{
    match existing {
        None => Ok(ManifestUpdate::Create(new_manifest(crate_name, target))),
        Some(manifest) => match find_target(&listed_targets(manifest), target) {
            Err(error) => Err(error),
            Ok(true) => Ok(ManifestUpdate::Unchanged),
            Ok(false) => Ok(ManifestUpdate::Append(entry_text(target))),
        },
    }
}

/// What the line that names `target` is read back as.
pub open spec fn spec_read_back(target: Seq<char>) -> Option<Seq<char>> {
    string_in(toml_document(name_line(target)), target_name_path())
}

/// Whether the line that names `target` is read back as naming `target`.
pub open spec fn spec_reads_back(target: Seq<char>) -> bool {
    spec_read_back(target) == Some(target)
}

/// Tests whether a target name survives being written to a manifest and
/// read again: whether the line that names it is TOML that gives the name
/// back. A name that does not would be appended on every registration.
pub fn reads_back(target: &str) -> (survives: bool)
    ensures
        survives == spec_reads_back(target@),
{
    let mut line = String::new();
    line.append("name = \"");
    line.append(target);
    line.append("\"");
    match parse_str(line.as_str()) {
        Err(_) => false,
        Ok(document) => {
            let mut path: Vec<String> = Vec::new();
            path.push("name".to_owned());
            proof {
                assert(texts(path@) == target_name_path());
            }
            match string_at(&document, &path) {
                Some(name) => name == target.to_owned(),
                None => false,
            }
        },
    }
}


/// Writes `update` to the text of a manifest: gives the text of the manifest
/// as it stands afterwards.
pub fn apply(existing: Option<String>, update: ManifestUpdate) -> (text: String)
    ensures
        text@ == spec_applied(option_text(existing), update@),
{
    match update {
        ManifestUpdate::Create(text) => text,
        ManifestUpdate::Append(entry) => match existing {
            Some(before) => {
                let mut text = before;
                text.append(entry.as_str());
                text
            },
            None => entry,
        },
        ManifestUpdate::Unchanged => match existing {
            Some(before) => before,
            None => String::new(),
        },
    }
}

} // verus!
