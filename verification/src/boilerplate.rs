//! Test boilerplate that is written from the text of a signature alone.
//!
//! Besides the harnesses that go through an aggregate, three simpler texts
//! can be written for a callable: a harness that draws every argument with
//! QuickCheck's `Arbitrary` for a fuzzing engine that is linked in, the same
//! for an engine that feeds standard input, and a property test. None of
//! them looks at the shape of a type: types and patterns are copied as they
//! are written.

use vstd::prelude::*;
use vstd::string::*;
use crate::crate_parse::{crate_ident, name_view, spec_crate_ident};
use crate::text::{decimal, join, spec_decimal, spec_join, texts};

verus! {

/// One input of a callable, as text.
#[derive(Clone, Debug, PartialEq, Eq)]
pub enum Input {
    /// `self` in any form.
    Receiver,
    /// `pat: ty`, both as they are written.
    Typed { pat: String, ty: String },
}

/// View of [`Input`].
pub enum InputView {
    Receiver,
    Typed { pat: Seq<char>, ty: Seq<char> },
}

impl View for Input {
    type V = InputView;

    open spec fn view(&self) -> InputView {
        match self {
            Input::Receiver => InputView::Receiver,
            Input::Typed { pat, ty } => InputView::Typed { pat: pat@, ty: ty@ },
        }
    }
}

/// The views of a sequence of inputs.
pub open spec fn input_views(inputs: Seq<Input>) -> Seq<InputView> {
    inputs.map_values(|input: Input| input@)
}

/// What is written for each typed input.
#[derive(Clone, Copy, Debug, PartialEq, Eq)]
pub enum Piece {
    /// `    let fuzz_arg_N = TY::arbitrary(&mut read_rng); // PAT` and a
    /// line feed.
    Binding,
    /// `    fuzz_arg_N = TY::arbitrary(&mut read_rng);` and a line feed.
    Assignment,
    /// `fuzz_arg_N`.
    Variable,
    /// `PAT: Any::<TY>(), `.
    Strategy,
    /// `PAT, `.
    Pattern,
}

/// The variable that holds the argument for the input at `position`, counted
/// from 0 over all inputs.
pub open spec fn spec_variable(position: nat) -> Seq<char> {
    "fuzz_arg_"@ + spec_decimal(position)
}

/// What is written for the input at `position`; nothing for a receiver.
pub open spec fn spec_piece(piece: Piece, position: nat, input: InputView) -> Seq<char> {
    match input {
        InputView::Receiver => Seq::empty(),
        InputView::Typed { pat, ty } => match piece {
            Piece::Binding => "    let "@ + spec_variable(position) + " = "@ + ty
                + "::arbitrary(&mut read_rng); // "@ + pat + "\n"@,
            Piece::Assignment => "    "@ + spec_variable(position) + " = "@ + ty
                + "::arbitrary(&mut read_rng);\n"@,
            Piece::Variable => spec_variable(position),
            Piece::Strategy => pat + ": Any::<"@ + ty + ">(), "@,
            Piece::Pattern => pat + ", "@,
        },
    }
}

/// What is written for all inputs, one after another in their order.
pub open spec fn spec_pieces(piece: Piece, inputs: Seq<InputView>) -> Seq<char>
    decreases inputs.len(),
{
    if inputs.len() == 0 {
        Seq::empty()
    } else {
        spec_pieces(piece, inputs.drop_last()) + spec_piece(
            piece,
            (inputs.len() - 1) as nat,
            inputs.last(),
        )
    }
}

/// The variables of the typed inputs, in the order of the inputs.
pub open spec fn spec_variables(inputs: Seq<InputView>) -> Seq<Seq<char>>
    decreases inputs.len(),
{
    if inputs.len() == 0 {
        Seq::empty()
    } else if inputs.last() is Typed {
        spec_variables(inputs.drop_last()).push(spec_variable((inputs.len() - 1) as nat))
    } else {
        spec_variables(inputs.drop_last())
    }
}

/// Names the variable for the input at `position`.
fn variable(position: usize) -> (out: String)
    ensures
        out@ == spec_variable(position as nat),
{
    let mut out = String::new();
    out.append("fuzz_arg_");
    out.append(decimal(position).as_str());
    out
}

/// Writes one piece.
fn write_piece(piece: Piece, position: usize, input: &Input) -> (out: String)
    ensures
        out@ == spec_piece(piece, position as nat, input@),
{
    let mut out = String::new();
    match input {
        Input::Receiver => {},
        Input::Typed { pat, ty } => match piece {
            Piece::Binding => {
                out.append("    let ");
                out.append(variable(position).as_str());
                out.append(" = ");
                out.append(ty.as_str());
                out.append("::arbitrary(&mut read_rng); // ");
                out.append(pat.as_str());
                out.append("\n");
            },
            Piece::Assignment => {
                out.append("    ");
                out.append(variable(position).as_str());
                out.append(" = ");
                out.append(ty.as_str());
                out.append("::arbitrary(&mut read_rng);\n");
            },
            Piece::Variable => {
                out.append(variable(position).as_str());
            },
            Piece::Strategy => {
                out.append(pat.as_str());
                out.append(": Any::<");
                out.append(ty.as_str());
                out.append(">(), ");
            },
            Piece::Pattern => {
                out.append(pat.as_str());
                out.append(", ");
            },
        },
    }
    out
}

/// Writes one piece for every input, in the order of the inputs.
pub fn write_pieces(piece: Piece, inputs: &Vec<Input>) -> (out: String)
    ensures
        out@ == spec_pieces(piece, input_views(inputs@)),
{
    let ghost views = input_views(inputs@);
    let mut out = String::new();
    let mut i: usize = 0;
    while i < inputs.len()
        invariant
            i <= inputs.len(),
            views == input_views(inputs@),
            out@ == spec_pieces(piece, views.take(i as int)),
        decreases inputs.len() - i,
    {
        proof {
            let next = views.take(i + 1);
            assert(next.drop_last() == views.take(i as int));
            assert(next.last() == inputs@[i as int]@);
        }
        out.append(write_piece(piece, i, &inputs[i]).as_str());
        i = i + 1;
    }
    proof {
        assert(views.take(i as int) == views);
    }
    out
}

/// Lists the variables of the typed inputs.
fn variables(inputs: &Vec<Input>) -> (names: Vec<String>)
    ensures
        texts(names@) == spec_variables(input_views(inputs@)),
{
    let ghost views = input_views(inputs@);
    let mut names: Vec<String> = Vec::new();
    let mut i: usize = 0;
    while i < inputs.len()
        invariant
            i <= inputs.len(),
            views == input_views(inputs@),
            texts(names@) == spec_variables(views.take(i as int)),
        decreases inputs.len() - i,
    {
        proof {
            let next = views.take(i + 1);
            assert(next.drop_last() == views.take(i as int));
            assert(next.last() == inputs@[i as int]@);
        }
        match &inputs[i] {
            Input::Receiver => {},
            Input::Typed { .. } => {
                let name = variable(i);
                proof {
                    assert(texts(names@.push(name)) == texts(names@).push(name@));
                }
                names.push(name);
            },
        }
        i = i + 1;
    }
    proof {
        assert(views.take(i as int) == views);
    }
    names
}

/// The harness that draws every argument with QuickCheck, for an engine
/// that is linked in. `this` is the type of the `impl` block for a method;
/// the crate is named with `_` for every `-`; the arguments are separated
/// by commas.
pub open spec fn spec_fn_invocation(
    this: Option<Seq<char>>,
    ident: Seq<char>,
    inputs: Seq<InputView>,
    crate_name: Seq<char>,
) -> Seq<char> {
    "// Autogenerated fuzzing harness.\n#![no_main]\n#[macro_use] extern crate libfuzzer_sys;\nextern crate rand;\nextern crate quickcheck;\nextern crate "@
        + spec_crate_ident(crate_name)
        + ";\n\nuse std::io::prelude::*;\nuse quickcheck::Arbitrary;\n\nfuzz_target!(|raw_input: &[u8]| {\n    // input preparation for QuickCheck, not specific to the fuzzed function\n    let input_cursor = std::io::Cursor::new(raw_input);\n    let read_rng = rand::rngs::adapter::ReadRng::new(input_cursor);\n    let mut read_rng = quickcheck::StdGen::new(read_rng, std::usize::MAX);\n\n"@
        + "    // create input data for specific function from random bytes\n"@ + (match this {
        Some(this) => "    let fuzz_self = "@ + this + "::arbitrary(&mut read_rng);\n"@,
        None => Seq::empty(),
    }) + spec_pieces(Piece::Binding, inputs) + "\n    // invoke function\n    "@ + (match this {
        Some(_) => "fuzz_self."@,
        None => Seq::empty(),
    }) + ident + "("@ + spec_join(spec_variables(inputs), ","@) + ");\n"@ + "\n});\n"@
}

/// Writes the harness that draws every argument with QuickCheck, for an
/// engine that is linked in.
pub fn write_fn_invocation(
    this: Option<&str>,
    ident: &str,
    inputs: &Vec<Input>,
    crate_name: &str,
) -> (out: String)
    ensures
        out@ == spec_fn_invocation(name_view(this), ident@, input_views(inputs@), crate_name@),
{
    let mut out = String::new();
    out.append(
        "// Autogenerated fuzzing harness.\n#![no_main]\n#[macro_use] extern crate libfuzzer_sys;\nextern crate rand;\nextern crate quickcheck;\nextern crate ",
    );
    out.append(crate_ident(crate_name).as_str());
    out.append(
        ";\n\nuse std::io::prelude::*;\nuse quickcheck::Arbitrary;\n\nfuzz_target!(|raw_input: &[u8]| {\n    // input preparation for QuickCheck, not specific to the fuzzed function\n    let input_cursor = std::io::Cursor::new(raw_input);\n    let read_rng = rand::rngs::adapter::ReadRng::new(input_cursor);\n    let mut read_rng = quickcheck::StdGen::new(read_rng, std::usize::MAX);\n\n",
    );
    out.append("    // create input data for specific function from random bytes\n");
    match this {
        Some(this) => {
            out.append("    let fuzz_self = ");
            out.append(this);
            out.append("::arbitrary(&mut read_rng);\n");
        },
        None => {},
    }
    out.append(write_pieces(Piece::Binding, inputs).as_str());
    out.append("\n    // invoke function\n    ");
    match this {
        Some(_) => {
            out.append("fuzz_self.");
        },
        None => {},
    }
    out.append(ident);
    out.append("(");
    out.append(join(&variables(inputs), ",").as_str());
    out.append(");\n");
    out.append("\n});\n");
    proof {
        assert(out@ == spec_fn_invocation(
            name_view(this),
            ident@,
            input_views(inputs@),
            crate_name@,
        ));
    }
    out
}


/// The harness that draws every argument with QuickCheck, for an engine
/// that feeds standard input. The variables are assigned without `let`, and
/// the arguments of the call stand one after another with nothing between
/// them.
pub open spec fn spec_fuzzing_harness(
    this: Option<Seq<char>>,
    ident: Seq<char>,
    inputs: Seq<InputView>,
) -> Seq<char> {
    "\nextern crate rand;\nextern crate quickcheck;\n\nuse rand;\nuse std::io::prelude::*;\nuse quickcheck::{Arbitrary};\n\n// suppress ASAN false positives\nconst ASAN_DEFAULT_OPTIONS: &'static [u8] = b\"allocator_may_return_null=1,detect_odr_violation=1\0\";\n#[no_mangle]\npub extern \"C\" fn __asan_default_options() -> *const u8 {\n    ASAN_DEFAULT_OPTIONS as *const [u8] as *const u8\n}\n\nfn main() -> std::result::Result<(), std::io::Error> {\n    // read fuzzer input from stdin\n    let mut raw_input = vec![];\n    std::io::stdin().read_to_end(&mut raw_input)?;\n\n    // input preparation for QuickCheck, not specific to the fuzzed function\n    let input_cursor = std::io::Cursor::new(raw_input);\n    let read_rng = rand::rngs::adapter::ReadRng::new(input_cursor);\n    let mut read_rng = quickcheck::StdGen::new(read_rng, std::usize::MAX);\n\n    // create input data for specific function from random bytes\n"@
        + (match this {
        Some(this) => "    fuzz_self = "@ + this + "::arbitrary(&mut read_rng);\n"@,
        None => Seq::empty(),
    }) + spec_pieces(Piece::Assignment, inputs) + "\n    // invoke function\n    "@ + (match this {
        Some(_) => "fuzz_self."@,
        None => Seq::empty(),
    }) + ident + "("@ + spec_pieces(Piece::Variable, inputs) + ");\n    Ok(())\n}\n"@
}

/// Writes the harness that draws every argument with QuickCheck, for an
/// engine that feeds standard input.
pub fn generate_fuzzing_harness(this: Option<&str>, ident: &str, inputs: &Vec<Input>) -> (out:
    String)
    ensures
        out@ == spec_fuzzing_harness(name_view(this), ident@, input_views(inputs@)),
{
    let mut out = String::new();
    out.append(
        "\nextern crate rand;\nextern crate quickcheck;\n\nuse rand;\nuse std::io::prelude::*;\nuse quickcheck::{Arbitrary};\n\n// suppress ASAN false positives\nconst ASAN_DEFAULT_OPTIONS: &'static [u8] = b\"allocator_may_return_null=1,detect_odr_violation=1\0\";\n#[no_mangle]\npub extern \"C\" fn __asan_default_options() -> *const u8 {\n    ASAN_DEFAULT_OPTIONS as *const [u8] as *const u8\n}\n\nfn main() -> std::result::Result<(), std::io::Error> {\n    // read fuzzer input from stdin\n    let mut raw_input = vec![];\n    std::io::stdin().read_to_end(&mut raw_input)?;\n\n    // input preparation for QuickCheck, not specific to the fuzzed function\n    let input_cursor = std::io::Cursor::new(raw_input);\n    let read_rng = rand::rngs::adapter::ReadRng::new(input_cursor);\n    let mut read_rng = quickcheck::StdGen::new(read_rng, std::usize::MAX);\n\n    // create input data for specific function from random bytes\n",
    );
    match this {
        Some(this) => {
            out.append("    fuzz_self = ");
            out.append(this);
            out.append("::arbitrary(&mut read_rng);\n");
        },
        None => {},
    }
    out.append(write_pieces(Piece::Assignment, inputs).as_str());
    out.append("\n    // invoke function\n    ");
    match this {
        Some(_) => {
            out.append("fuzz_self.");
        },
        None => {},
    }
    out.append(ident);
    out.append("(");
    out.append(write_pieces(Piece::Variable, inputs).as_str());
    out.append(");\n    Ok(())\n}\n");
    proof {
        assert(out@ == spec_fuzzing_harness(name_view(this), ident@, input_views(inputs@)));
    }
    out
}

/// The property test for a callable, on one line: a strategy for every
/// argument, and the call. `this` is the type of the `impl` block for a
/// method.
pub open spec fn spec_a_test(this: Option<Seq<char>>, ident: Seq<char>, inputs: Seq<InputView>) -> Seq<
    char,
> {
    "proptest! { #[test] fn test_"@ + ident + "_fuzz ("@ + (match this {
        Some(this) => "self_like_thing: Any::<"@ + this + ">(), "@,
        None => Seq::empty(),
    }) + spec_pieces(Piece::Strategy, inputs) + ") {"@ + (match this {
        Some(_) => "self_like_thing."@,
        None => Seq::empty(),
    }) + ident + " ("@ + spec_pieces(Piece::Pattern, inputs) + ")}}\n"@
}

/// Writes the property test for a callable, with the line feed that ends
/// it.
pub fn print_a_test(this: Option<&str>, ident: &str, inputs: &Vec<Input>) -> (out: String)
    ensures
        out@ == spec_a_test(name_view(this), ident@, input_views(inputs@)),
{
    let mut out = String::new();
    out.append("proptest! { #[test] fn test_");
    out.append(ident);
    out.append("_fuzz (");
    match this {
        Some(this) => {
            out.append("self_like_thing: Any::<");
            out.append(this);
            out.append(">(), ");
        },
        None => {},
    }
    out.append(write_pieces(Piece::Strategy, inputs).as_str());
    out.append(") {");
    match this {
        Some(_) => {
            out.append("self_like_thing.");
        },
        None => {},
    }
    out.append(ident);
    out.append(" (");
    out.append(write_pieces(Piece::Pattern, inputs).as_str());
    out.append(")}}\n");
    proof {
        assert(out@ == spec_a_test(name_view(this), ident@, input_views(inputs@)));
    }
    out
}

} // verus!
