//! What holds of every manifest this crate writes.
//!
//! The manifest is written block by block and read back by cutting the text
//! at empty lines. The lemmas here show that the two agree: the blocks that
//! are read are the blocks that were written, and the second line of a target
//! block is the line that names the target. From that follow the laws of
//! registration: a manifest declares every target that was asked for, each
//! of them once, however often and in whatever order they were asked for.
//!
//! Callers register one at a time, under a lock, so what many callers do
//! together is what [`serve`] does with their requests in some order.
//!
//! The laws hold for names that are written on one line and that TOML reads
//! back as they were written; [`is_registrable`] tests a name. A name with a
//! backslash or a quotation mark in it is not such a name.

use vstd::prelude::*;
use vstd::string::*;
use crate::harness::spec_generate;
use crate::manifest::{
    first_break, first_newline, header_lines, is_break, lemma_first_break,
    lemma_first_newline, name_line, option_text, reads_back, register, apply, spec_applied, spec_blocks,
    spec_entry, spec_lists,
    spec_manifest, spec_read_back, spec_reads_back, spec_register, spec_second_line,
    spec_target_of, spec_targets, spec_well_formed, target_block, target_lines, written_blocks,
    ManifestError, UpdateView,
};
use crate::signature::{SignatureView, TypeView};
use crate::text::{chars_of, lemma_join_front, spec_join, texts};

verus! {

/// Whether a text holds no line feed.
pub open spec fn single_line(text: Seq<char>) -> bool {
    forall|i: int| 0 <= i < text.len() ==> text[i] != '\n'
}

/// Whether a text can stand as a block: it holds no empty line and does not
/// end in a line feed.
pub open spec fn clean(text: Seq<char>) -> bool {
    &&& forall|i: int| !is_break(text, i)
    &&& text.len() > 0 ==> text.last() != '\n'
}

/// A text without an empty line is one block.
pub proof fn lemma_blocks_single(text: Seq<char>)
    requires
        forall|i: int| !is_break(text, i),
    ensures
        spec_blocks(text) == seq![text],
{
    lemma_first_break(text, 0);
}

/// Cutting after a clean block: the block, then the blocks of the rest.
pub proof fn lemma_blocks_cut(block: Seq<char>, rest: Seq<char>)
    requires
        clean(block),
    ensures
        spec_blocks(block + "\n\n"@ + rest) == seq![block] + spec_blocks(rest),
{
    reveal_strlit("\n\n");
    let text = block + "\n\n"@ + rest;
    let at = block.len() as int;
    assert(text[at] == '\n' && text[at + 1] == '\n');
    assert(is_break(text, at));
    assert forall|j: int| 0 <= j < at implies !is_break(text, j) by {
        if j + 1 < at {
            assert(text[j] == block[j] && text[j + 1] == block[j + 1]);
            assert(!is_break(block, j));
        } else {
            assert(text[j] == block.last());
        }
    }
    lemma_first_break(text, 0);
    assert(first_break(text, 0) == Some(at));
    assert(text.take(at) == block);
    assert(text.skip(at + 2) == rest);
}

/// Blocks joined by empty lines and ended by a line feed are read back as
/// they were written, the last with its line feed.
pub proof fn lemma_blocks_joined(blocks: Seq<Seq<char>>)
    requires
        blocks.len() >= 1,
        forall|i: int| 0 <= i < blocks.len() ==> clean(#[trigger] blocks[i]),
    ensures
        spec_blocks(spec_join(blocks, "\n\n"@) + "\n"@) == blocks.update(
            blocks.len() - 1,
            blocks.last() + "\n"@,
        ),
    decreases blocks.len(),
{
    reveal_strlit("\n");
    let text = spec_join(blocks, "\n\n"@) + "\n"@;
    if blocks.len() == 1 {
        let only = blocks[0];
        assert(clean(only));
        assert(spec_join(blocks, "\n\n"@) == only);
        assert forall|i: int| !is_break(only + "\n"@, i) by {
            if 0 <= i && i + 1 < only.len() {
                assert((only + "\n"@)[i] == only[i] && (only + "\n"@)[i + 1] == only[i + 1]);
                assert(!is_break(only, i));
            } else if 0 <= i && i + 1 == only.len() {
                assert((only + "\n"@)[i] == only.last());
            }
        }
        lemma_blocks_single(only + "\n"@);
        assert(blocks.update(0, only + "\n"@) == seq![only + "\n"@]);
    } else {
        let rest = blocks.skip(1);
        lemma_join_front(blocks, "\n\n"@);
        assert forall|i: int| 0 <= i < rest.len() implies clean(#[trigger] rest[i]) by {
            assert(rest[i] == blocks[i + 1]);
        }
        lemma_blocks_joined(rest);
        assert(clean(blocks[0]));
        lemma_blocks_cut(blocks[0], spec_join(rest, "\n\n"@) + "\n"@);
        assert(text == blocks[0] + "\n\n"@ + (spec_join(rest, "\n\n"@) + "\n"@));
        assert(rest.last() == blocks.last());
        assert(seq![blocks[0]] + rest.update(rest.len() - 1, rest.last() + "\n"@)
            == blocks.update(blocks.len() - 1, blocks.last() + "\n"@));
    }
}

/// Lines that are not empty and hold no line feed, joined by line feeds,
/// make a clean block that is not empty.
pub proof fn lemma_lines_clean(lines: Seq<Seq<char>>)
    requires
        lines.len() >= 1,
        forall|i: int| 0 <= i < lines.len() ==> (#[trigger] lines[i]).len() > 0,
        forall|i: int| 0 <= i < lines.len() ==> single_line(#[trigger] lines[i]),
    ensures
        clean(spec_join(lines, "\n"@)),
        spec_join(lines, "\n"@).len() > 0,
    decreases lines.len(),
{
    reveal_strlit("\n");
    if lines.len() == 1 {
        let only = lines[0];
        assert(single_line(only));
        assert(only.len() > 0);
        assert(spec_join(lines, "\n"@) == only);
        assert forall|i: int| !is_break(only, i) by {}
    } else {
        let front = lines.drop_last();
        let last = lines.last();
        assert forall|i: int| 0 <= i < front.len() implies (#[trigger] front[i]).len() > 0 by {
            assert(front[i] == lines[i]);
        }
        assert forall|i: int| 0 <= i < front.len() implies single_line(#[trigger] front[i]) by {
            assert(front[i] == lines[i]);
        }
        lemma_lines_clean(front);
        let head = spec_join(front, "\n"@);
        let text = head + "\n"@ + last;
        assert(spec_join(lines, "\n"@) == text);
        assert(single_line(last));
        assert(last.len() > 0);
        assert(text.last() == last.last());
        assert forall|i: int| !is_break(text, i) by {
            if 0 <= i && i + 1 < text.len() {
                if i + 1 < head.len() {
                    assert(text[i] == head[i] && text[i + 1] == head[i + 1]);
                    assert(!is_break(head, i));
                } else if i + 1 == head.len() {
                    assert(text[i] == head.last());
                } else if i == head.len() {
                    assert(text[i + 1] == last[0]);
                } else {
                    assert(text[i] == last[i - head.len() - 1]);
                }
            }
        }
    }
}

/// Where the first line feed at or after `from` is.
pub proof fn lemma_first_newline_is(text: Seq<char>, from: int, at: int)
    requires
        0 <= from <= at <= text.len(),
        at < text.len() ==> text[at] == '\n',
        forall|j: int| from <= j < at ==> text[j] != '\n',
    ensures
        first_newline(text, from) == at,
{
    lemma_first_newline(text, from);
}

/// The second line of a text that starts with two lines is the second of
/// them, when it is not empty and does not end in a carriage return. `rest`
/// is what follows the second line: nothing, or more text after a line feed.
pub proof fn lemma_second_line(first: Seq<char>, second: Seq<char>, rest: Seq<char>)
    requires
        single_line(first),
        single_line(second),
        second.len() > 0,
        second.last() != '\r',
        rest.len() > 0 ==> rest[0] == '\n',
    ensures
        spec_second_line(first + "\n"@ + second + rest) == Some(second),
{
    reveal_strlit("\n");
    let text = first + "\n"@ + second + rest;
    let a = first.len() as int;
    let b = a + 1 + second.len();
    assert(text[a] == '\n');
    assert forall|j: int| 0 <= j < a implies text[j] != '\n' by {
        assert(text[j] == first[j]);
    }
    lemma_first_newline_is(text, 0, a);
    assert forall|j: int| a + 1 <= j < b implies text[j] != '\n' by {
        assert(text[j] == second[j - a - 1]);
    }
    if b < text.len() {
        assert(text[b] == rest[0]);
    }
    lemma_first_newline_is(text, a + 1, b);
    assert(text.subrange(a + 1, b) == second);
}

/// A text put between two texts holds no line feed where none of the three
/// does.
pub proof fn lemma_single_line_between(first: Seq<char>, middle: Seq<char>, last: Seq<char>)
    requires
        single_line(first),
        single_line(middle),
        single_line(last),
    ensures
        single_line(first + middle + last),
{
    let text = first + middle + last;
    assert forall|i: int| 0 <= i < text.len() implies text[i] != '\n' by {
        if i < first.len() {
            assert(text[i] == first[i]);
        } else if i < first.len() + middle.len() {
            assert(text[i] == middle[i - first.len()]);
        } else {
            assert(text[i] == last[i - first.len() - middle.len()]);
        }
    }
}

/// The lines of a target block are not empty and hold no line feed, and the
/// line that names the target ends in a quotation mark.
pub proof fn lemma_target_lines(target: Seq<char>)
    requires
        single_line(target),
    ensures
        target_lines(target).len() == 5,
        forall|i: int| 0 <= i < 5 ==> (#[trigger] target_lines(target)[i]).len() > 0,
        forall|i: int| 0 <= i < 5 ==> single_line(#[trigger] target_lines(target)[i]),
        name_line(target).last() == '"',
{
    reveal_strlit("[[bin]]");
    reveal_strlit("name = \"");
    reveal_strlit("\"");
    reveal_strlit("path = \"fuzz_targets/");
    reveal_strlit(".rs\"");
    reveal_strlit("test = false");
    reveal_strlit("doc = false");
    let lines = target_lines(target);
    assert(single_line("[[bin]]"@));
    assert(single_line("name = \""@));
    assert(single_line("\""@));
    assert(single_line("path = \"fuzz_targets/"@));
    assert(single_line(".rs\""@));
    assert(single_line("test = false"@));
    assert(single_line("doc = false"@));
    lemma_single_line_between("name = \""@, target, "\""@);
    lemma_single_line_between("path = \"fuzz_targets/"@, target, ".rs\""@);
}

/// The lines of the header blocks are not empty and hold no line feed.
pub proof fn lemma_header_lines(crate_name: Seq<char>)
    requires
        single_line(crate_name),
    ensures
        header_lines(crate_name).len() == 5,
        forall|b: int|
            0 <= b < 5 ==> (#[trigger] header_lines(crate_name)[b]).len() >= 1 && forall|i: int|
                0 <= i < header_lines(crate_name)[b].len() ==> (
                #[trigger] header_lines(crate_name)[b][i]).len() > 0 && single_line(
                    header_lines(crate_name)[b][i],
                ),
{
    reveal_strlit("[package]");
    reveal_strlit("name = \"");
    reveal_strlit("-fuzz\"");
    reveal_strlit("version = \"0.0.0\"");
    reveal_strlit("authors = [\"Automatically generated\"]");
    reveal_strlit("publish = false");
    reveal_strlit("edition = \"2018\"");
    reveal_strlit("[package.metadata]");
    reveal_strlit("cargo-fuzz = true");
    reveal_strlit("[dependencies]");
    reveal_strlit("libfuzzer-sys = \"0.4\"");
    reveal_strlit("[dependencies.");
    reveal_strlit("]");
    reveal_strlit("path = \"..\"");
    reveal_strlit("# Prevent this from interfering with workspaces");
    reveal_strlit("[workspace]");
    reveal_strlit("members = [\".\"]");
    assert(single_line("[package]"@));
    assert(single_line("name = \""@));
    assert(single_line("-fuzz\""@));
    assert(single_line("version = \"0.0.0\""@));
    assert(single_line("authors = [\"Automatically generated\"]"@));
    assert(single_line("publish = false"@));
    assert(single_line("edition = \"2018\""@));
    assert(single_line("[package.metadata]"@));
    assert(single_line("cargo-fuzz = true"@));
    assert(single_line("[dependencies]"@));
    assert(single_line("libfuzzer-sys = \"0.4\""@));
    assert(single_line("[dependencies."@));
    assert(single_line("]"@));
    assert(single_line("path = \"..\""@));
    assert(single_line("# Prevent this from interfering with workspaces"@));
    assert(single_line("[workspace]"@));
    assert(single_line("members = [\".\"]"@));
    lemma_single_line_between("name = \""@, crate_name, "-fuzz\""@);
    lemma_single_line_between("[dependencies."@, crate_name, "]"@);
}

/// Every block of a manifest, as written, is clean.
pub proof fn lemma_written_blocks_clean(crate_name: Seq<char>, targets: Seq<Seq<char>>)
    requires
        single_line(crate_name),
        forall|i: int| 0 <= i < targets.len() ==> single_line(#[trigger] targets[i]),
    ensures
        forall|i: int|
            0 <= i < written_blocks(crate_name, targets).len() ==> clean(
                #[trigger] written_blocks(crate_name, targets)[i],
            ),
{
    let blocks = written_blocks(crate_name, targets);
    lemma_header_lines(crate_name);
    assert forall|i: int| 0 <= i < blocks.len() implies clean(#[trigger] blocks[i]) by {
        if i < 5 {
            let lines = header_lines(crate_name)[i];
            assert(blocks[i] == spec_join(lines, "\n"@));
            lemma_lines_clean(lines);
        } else {
            let target = targets[i - 5];
            assert(blocks[i] == target_block(target));
            assert(single_line(target));
            lemma_target_lines(target);
            lemma_lines_clean(target_lines(target));
        }
    }
}

/// A target block is read back as what its name line is read back as, with
/// or without the line feed that ends the manifest.
pub proof fn lemma_target_block_read(target: Seq<char>)
    requires
        single_line(target),
    ensures
        spec_target_of(target_block(target)) == spec_read_back(target),
        spec_target_of(target_block(target) + "\n"@) == spec_read_back(target),
{
    reveal_strlit("\n");
    let lines = target_lines(target);
    lemma_target_lines(target);
    lemma_join_front(lines, "\n"@);
    lemma_join_front(lines.skip(1), "\n"@);
    let tail = spec_join(lines.skip(1).skip(1), "\n"@);
    assert(lines.skip(1)[0] == lines[1]);
    assert(lines[1] == name_line(target));
    let rest = "\n"@ + tail;
    assert(target_block(target) == lines[0] + "\n"@ + name_line(target) + rest);
    assert(target_block(target) + "\n"@ == lines[0] + "\n"@ + name_line(target) + (rest + "\n"@));
    assert(single_line(lines[0]));
    assert(single_line(lines[1]));
    lemma_second_line(lines[0], name_line(target), rest);
    lemma_second_line(lines[0], name_line(target), rest + "\n"@);
}

/// What a manifest is cut into when it is read: the blocks as written,
/// the last of them with the line feed that ends the manifest.
pub proof fn manifest_blocks_are_read_as_written(crate_name: Seq<char>, targets: Seq<Seq<char>>)
    requires
        single_line(crate_name),
        forall|i: int| 0 <= i < targets.len() ==> single_line(#[trigger] targets[i]),
    ensures
        spec_blocks(spec_manifest(crate_name, targets)) == written_blocks(
            crate_name,
            targets,
        ).update(
            4 + targets.len() as int,
            written_blocks(crate_name, targets).last() + "\n"@,
        ),
{
    lemma_written_blocks_clean(crate_name, targets);
    lemma_blocks_joined(written_blocks(crate_name, targets));
}

/// A manifest declares, block by block, what the name lines of its targets
/// are read back as.
pub proof fn manifest_targets_are_read_back(crate_name: Seq<char>, targets: Seq<Seq<char>>)
    requires
        single_line(crate_name),
        forall|i: int| 0 <= i < targets.len() ==> single_line(#[trigger] targets[i]),
    ensures
        spec_targets(spec_manifest(crate_name, targets)) == targets.map_values(
            |target: Seq<char>| spec_read_back(target),
        ),
{
    manifest_blocks_are_read_as_written(crate_name, targets);
    let written = written_blocks(crate_name, targets);
    let blocks = spec_blocks(spec_manifest(crate_name, targets));
    let read = spec_targets(spec_manifest(crate_name, targets));
    let wanted = targets.map_values(|target: Seq<char>| spec_read_back(target));
    assert(blocks.len() == 5 + targets.len());
    if targets.len() > 0 {
        assert(read.len() == wanted.len());
        assert forall|i: int| 0 <= i < read.len() implies read[i] == wanted[i] by {
            let target = targets[i];
            assert(single_line(target));
            lemma_target_block_read(target);
            assert(written[5 + i] == target_block(target));
            assert(read[i] == spec_target_of(blocks[5 + i]));
        }
    }
    assert(read == wanted);
}

/// The text of the manifest after one registration, or why there is none.
pub open spec fn spec_registered(
    existing: Option<Seq<char>>,
    crate_name: Seq<char>,
    target: Seq<char>,
) -> Result<Seq<char>, ManifestError> {
    match spec_register(existing, crate_name, target) {
        Ok(update) => Ok(spec_applied(existing, update)),
        Err(error) => Err(error),
    }
}

/// The manifest after `requests` were served one after another, starting
/// without a manifest: `Ok(None)` while nothing was asked for.
pub open spec fn spec_served(crate_name: Seq<char>, requests: Seq<Seq<char>>) -> Result<
    Option<Seq<char>>,
    ManifestError,
>
    decreases requests.len(),
{
    if requests.len() == 0 {
        Ok(None)
    } else {
        match spec_served(crate_name, requests.drop_last()) {
            Ok(existing) => match spec_registered(existing, crate_name, requests.last()) {
                Ok(text) => Ok(Some(text)),
                Err(error) => Err(error),
            },
            Err(error) => Err(error),
        }
    }
}

/// The names in `requests` in the order in which each is first asked for.
pub open spec fn spec_distinct(requests: Seq<Seq<char>>) -> Seq<Seq<char>>
    decreases requests.len(),
{
    if requests.len() == 0 {
        Seq::empty()
    } else {
        let before = spec_distinct(requests.drop_last());
        if before.contains(requests.last()) {
            before
        } else {
            before.push(requests.last())
        }
    }
}

/// Whether a name can be written to a manifest and found there again: it
/// holds no line feed and its name line is read back as the name.
pub open spec fn registrable(target: Seq<char>) -> bool {
    single_line(target) && spec_reads_back(target)
}

/// Tests whether a name can be written to a manifest and found there
/// again.
pub fn is_registrable(target: &str) -> (fit: bool)
    ensures
        fit == registrable(target@),
{
    let chars = chars_of(target);
    let mut i: usize = 0;
    while i < chars.len()
        invariant
            i <= chars.len(),
            chars@ == target@,
            forall|j: int| 0 <= j < i ==> target@[j] != '\n',
        decreases chars.len() - i,
    {
        if chars[i] == '\n' {
            return false;
        }
        i = i + 1;
    }
    reads_back(target)
}

/// `spec_distinct` keeps every name that is asked for, once.
pub proof fn lemma_distinct(requests: Seq<Seq<char>>)
    ensures
        forall|name: Seq<char>|
            spec_distinct(requests).contains(name) <==> requests.contains(name),
        spec_distinct(requests).no_duplicates(),
        spec_distinct(requests).len() <= requests.len(),
    decreases requests.len(),
{
    if requests.len() > 0 {
        let front = requests.drop_last();
        let last = requests.last();
        let before = spec_distinct(front);
        let now = spec_distinct(requests);
        lemma_distinct(front);
        assert forall|name: Seq<char>| now.contains(name) <==> requests.contains(name) by {
            if requests.contains(name) {
                let k = choose|k: int| 0 <= k < requests.len() && requests[k] == name;
                if k < front.len() {
                    assert(front[k] == name);
                    assert(front.contains(name));
                    assert(before.contains(name));
                    let j = choose|j: int| 0 <= j < before.len() && before[j] == name;
                    assert(now[j] == name);
                } else if before.contains(last) {
                } else {
                    assert(now[now.len() - 1] == name);
                }
            }
            if now.contains(name) {
                let j = choose|j: int| 0 <= j < now.len() && now[j] == name;
                if j < before.len() {
                    assert(before[j] == name);
                    assert(front.contains(name));
                    let k = choose|k: int| 0 <= k < front.len() && front[k] == name;
                    assert(requests[k] == name);
                } else {
                    assert(requests[requests.len() - 1] == name);
                }
            }
        }
    }
}

/// Appending the entry of a target to a manifest gives the manifest with
/// that target declared last.
pub proof fn lemma_append_entry(
    crate_name: Seq<char>,
    targets: Seq<Seq<char>>,
    target: Seq<char>,
)
    ensures
        spec_manifest(crate_name, targets) + spec_entry(target) == spec_manifest(
            crate_name,
            targets.push(target),
        ),
{
    reveal_strlit("\n");
    reveal_strlit("\n\n");
    let before = written_blocks(crate_name, targets);
    let after = written_blocks(crate_name, targets.push(target));
    assert(targets.push(target).map_values(|target: Seq<char>| target_block(target))
        == targets.map_values(|target: Seq<char>| target_block(target)).push(
        target_block(target),
    ));
    assert(after == before.push(target_block(target)));
    assert(after.drop_last() == before);
    assert(after.len() >= 2);
    assert("\n\n"@ == "\n"@ + "\n"@);
    assert(spec_join(after, "\n\n"@) == spec_join(before, "\n\n"@) + "\n\n"@ + target_block(
        target,
    ));
    assert(spec_manifest(crate_name, targets) + spec_entry(target) == spec_join(
        before,
        "\n\n"@,
    ) + "\n"@ + ("\n"@ + target_block(target) + "\n"@));
    assert(spec_join(before, "\n\n"@) + "\n"@ + ("\n"@ + target_block(target) + "\n"@)
        == spec_join(before, "\n\n"@) + ("\n"@ + "\n"@) + target_block(target) + "\n"@);
}

/// A manifest whose targets are all registrable declares exactly them.
pub proof fn lemma_written_targets(crate_name: Seq<char>, targets: Seq<Seq<char>>)
    requires
        single_line(crate_name),
        forall|i: int| 0 <= i < targets.len() ==> registrable(#[trigger] targets[i]),
    ensures
        spec_targets(spec_manifest(crate_name, targets)) == targets.map_values(
            |target: Seq<char>| Some(target),
        ),
        spec_well_formed(spec_manifest(crate_name, targets)),
        forall|target: Seq<char>|
            spec_lists(spec_manifest(crate_name, targets), target) <==> targets.contains(target),
{
    manifest_targets_are_read_back(crate_name, targets);
    let read = spec_targets(spec_manifest(crate_name, targets));
    let wanted = targets.map_values(|target: Seq<char>| Some(target));
    assert(read.len() == wanted.len());
    assert forall|i: int| 0 <= i < read.len() implies read[i] == wanted[i] by {
        assert(registrable(targets[i]));
    }
    assert(read == wanted);
    assert forall|target: Seq<char>|
        spec_lists(spec_manifest(crate_name, targets), target) <==> targets.contains(target) by {
        if read.contains(Some(target)) {
            let k = choose|k: int| 0 <= k < read.len() && read[k] == Some(target);
            assert(targets[k] == target);
        }
        if targets.contains(target) {
            let k = choose|k: int| 0 <= k < targets.len() && targets[k] == target;
            assert(read[k] == Some(target));
        }
    }
}

/// Registering a target with a manifest that this crate wrote leaves the
/// manifest as it is where it declares the target, and otherwise gives the
/// manifest with the target declared last: every target is declared once,
/// none is lost, and the header stays as it was.
pub proof fn registration_adds_once(
    crate_name: Seq<char>,
    targets: Seq<Seq<char>>,
    target: Seq<char>,
)
    requires
        single_line(crate_name),
        forall|i: int| 0 <= i < targets.len() ==> registrable(#[trigger] targets[i]),
    ensures
        spec_registered(Some(spec_manifest(crate_name, targets)), crate_name, target) == Ok::<
            Seq<char>,
            ManifestError,
        >(
            spec_manifest(
                crate_name,
                if targets.contains(target) {
                    targets
                } else {
                    targets.push(target)
                },
            ),
        ),
{
    lemma_written_targets(crate_name, targets);
    lemma_append_entry(crate_name, targets, target);
}

/// Registering a target a second time changes nothing: after one
/// registration, with no manifest or with one that this crate wrote, the next
/// registration of the same target leaves the manifest as it is.
pub proof fn registration_is_idempotent(
    crate_name: Seq<char>,
    targets: Option<Seq<Seq<char>>>,
    target: Seq<char>,
)
    requires
        single_line(crate_name),
        registrable(target),
        targets matches Some(targets) ==> forall|i: int|
            0 <= i < targets.len() ==> registrable(#[trigger] targets[i]),
    ensures
        ({
            let existing = match targets {
                Some(targets) => Some(spec_manifest(crate_name, targets)),
                None => None,
            };
            let once = spec_registered(existing, crate_name, target);
            &&& once is Ok
            &&& spec_register(Some(once->Ok_0), crate_name, target) == Ok::<
                UpdateView,
                ManifestError,
            >(UpdateView::Unchanged)
            &&& spec_registered(Some(once->Ok_0), crate_name, target) == once
        }),
{
    let after = match targets {
        Some(targets) => if targets.contains(target) {
            targets
        } else {
            targets.push(target)
        },
        None => seq![target],
    };
    match targets {
        Some(targets) => {
            registration_adds_once(crate_name, targets, target);
        },
        None => {},
    }
    assert forall|i: int| 0 <= i < after.len() implies registrable(#[trigger] after[i]) by {
        match targets {
            Some(targets) => {
                if i < targets.len() {
                    assert(registrable(targets[i]));
                }
            },
            None => {},
        }
    }
    assert(after.contains(target)) by {
        match targets {
            Some(targets) => {
                if !targets.contains(target) {
                    assert(after[after.len() - 1] == target);
                }
            },
            None => {
                assert(after[0] == target);
            },
        }
    }
    lemma_written_targets(crate_name, after);
    registration_adds_once(crate_name, after, target);
}

/// Generating again for an unchanged callable changes nothing: the names
/// and the text of the harness are the same, and the manifest that the first
/// generation left declares the target already, so that the second leaves it
/// as it is.
pub proof fn regeneration_changes_nothing(
    sig: SignatureView,
    owner: Option<TypeView>,
    crate_name: Seq<char>,
    modules: Seq<Seq<char>>,
    targets: Option<Seq<Seq<char>>>,
)
    requires
        single_line(crate_name),
        registrable(spec_generate(sig, owner, crate_name, modules).ident),
        targets matches Some(targets) ==> forall|i: int|
            0 <= i < targets.len() ==> registrable(#[trigger] targets[i]),
    ensures
        ({
            let first = spec_generate(sig, owner, crate_name, modules);
            let again = spec_generate(sig, owner, crate_name, modules);
            let existing = match targets {
                Some(targets) => Some(spec_manifest(crate_name, targets)),
                None => None,
            };
            let once = spec_registered(existing, crate_name, first.ident);
            &&& again.ident == first.ident
            &&& again.file_name == first.file_name
            &&& again.source == first.source
            &&& once is Ok
            &&& spec_registered(Some(once->Ok_0), crate_name, again.ident) == once
        }),
{
    registration_is_idempotent(
        crate_name,
        targets,
        spec_generate(sig, owner, crate_name, modules).ident,
    );
}

/// Serving any sequence of requests, one after another, ends with the
/// manifest that declares each requested name exactly once, in the order of
/// first request. The order of the requests decides nothing but the order of
/// the blocks: the set of targets is the set of names asked for.
pub proof fn registrations_are_complete(crate_name: Seq<char>, requests: Seq<Seq<char>>)
    requires
        single_line(crate_name),
        requests.len() > 0,
        forall|i: int| 0 <= i < requests.len() ==> registrable(#[trigger] requests[i]),
    ensures
        spec_served(crate_name, requests) == Ok::<Option<Seq<char>>, ManifestError>(
            Some(spec_manifest(crate_name, spec_distinct(requests))),
        ),
        spec_targets(spec_manifest(crate_name, spec_distinct(requests))) == spec_distinct(
            requests,
        ).map_values(|target: Seq<char>| Some(target)),
        spec_distinct(requests).no_duplicates(),
        forall|name: Seq<char>|
            spec_distinct(requests).contains(name) <==> requests.contains(name),
    decreases requests.len(),
{
    let front = requests.drop_last();
    let last = requests.last();
    let before = spec_distinct(front);
    let now = spec_distinct(requests);
    lemma_distinct(requests);
    lemma_distinct(front);
    assert forall|i: int| 0 <= i < front.len() implies registrable(#[trigger] front[i]) by {
        assert(front[i] == requests[i]);
    }
    assert forall|i: int| 0 <= i < before.len() implies registrable(#[trigger] before[i]) by {
        assert(before.contains(before[i]));
        assert(front.contains(before[i]));
        let k = choose|k: int| 0 <= k < front.len() && front[k] == before[i];
        assert(registrable(front[k]));
    }
    assert forall|i: int| 0 <= i < now.len() implies registrable(#[trigger] now[i]) by {
        assert(now.contains(now[i]));
        assert(requests.contains(now[i]));
        let k = choose|k: int| 0 <= k < requests.len() && requests[k] == now[i];
        assert(registrable(requests[k]));
    }
    if front.len() == 0 {
        assert(before == Seq::<Seq<char>>::empty());
        assert(now == seq![last]);
        assert(spec_served(crate_name, front) == Ok::<Option<Seq<char>>, ManifestError>(None));
    } else {
        registrations_are_complete(crate_name, front);
        registration_adds_once(crate_name, before, last);
    }
    lemma_written_targets(crate_name, now);
}

/// Serves requests for targets one after another, as callers do that take
/// the lock on the manifest in turn, starting without a manifest. Gives the
/// text of the manifest at the end, `None` where nothing was asked for.
///
/// Where the project and every requested name are written on one line and
/// the names are read back as themselves, the manifest at the end declares
/// each requested name once, in the order of first request.
pub fn serve(crate_name: &str, requests: &Vec<String>) -> (served: Result<
    Option<String>,
    ManifestError,
>)
    ensures
        match served {
            Ok(text) => spec_served(crate_name@, texts(requests@)) == Ok::<
                Option<Seq<char>>,
                ManifestError,
            >(option_text(text)),
            Err(error) => spec_served(crate_name@, texts(requests@)) == Err::<
                Option<Seq<char>>,
                ManifestError,
            >(error),
        },
        single_line(crate_name@) && requests.len() > 0 && (forall|i: int|
            0 <= i < requests.len() ==> registrable(#[trigger] texts(requests@)[i])) ==> (
        served matches Ok(Some(text)) && text@ == spec_manifest(
            crate_name@,
            spec_distinct(texts(requests@)),
        )),
{
    let ghost names = texts(requests@);
    let mut manifest: Option<String> = None;
    let mut i: usize = 0;
    while i < requests.len()
        invariant
            i <= requests.len(),
            names == texts(requests@),
            spec_served(crate_name@, names.take(i as int)) == Ok::<
                Option<Seq<char>>,
                ManifestError,
            >(option_text(manifest)),
        decreases requests.len() - i,
    {
        proof {
            let next = names.take(i + 1);
            assert(next.drop_last() == names.take(i as int));
            assert(next.last() == requests@[i as int]@);
        }
        let existing = match &manifest {
            Some(text) => Some(text.as_str()),
            None => None,
        };
        match register(existing, crate_name, requests[i].as_str()) {
            Ok(update) => {
                manifest = Some(apply(manifest, update));
            },
            Err(error) => {
                proof {
                    lemma_served_failure(crate_name@, names, i + 1);
                    if single_line(crate_name@) && (forall|i: int|
                        0 <= i < requests.len() ==> registrable(#[trigger] names[i])) {
                        registrations_are_complete(crate_name@, names);
                    }
                }
                return Err(error);
            },
        }
        i = i + 1;
    }
    proof {
        assert(names.take(i as int) == names);
        if single_line(crate_name@) && requests.len() > 0 && (forall|i: int|
            0 <= i < requests.len() ==> registrable(#[trigger] names[i])) {
            registrations_are_complete(crate_name@, names);
        }
    }
    Ok(manifest)
}

/// Once a request has failed, the requests after it are not served.
pub proof fn lemma_served_failure(crate_name: Seq<char>, requests: Seq<Seq<char>>, served: int)
    requires
        0 <= served <= requests.len(),
        spec_served(crate_name, requests.take(served)) is Err,
    ensures
        spec_served(crate_name, requests) == spec_served(crate_name, requests.take(served)),
    decreases requests.len() - served,
{
    if served < requests.len() {
        let next = requests.take(served + 1);
        assert(next.drop_last() == requests.take(served));
        lemma_served_failure(crate_name, requests, served + 1);
    } else {
        assert(requests.take(served) == requests);
    }
}

} // verus!
