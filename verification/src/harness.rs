//! Everything that is generated for one callable.

use vstd::prelude::*;
use vstd::string::*;
use crate::crate_parse::{
    construct_harness_ident, crate_ident, spec_crate_ident, spec_harness_ident, CrateInfo,
};
use crate::generate::{
    fuzz_function, fuzz_harness, fuzz_struct, owner_name, spec_classify,
    spec_fuzz_function, spec_fuzz_harness, spec_fuzz_struct, FuzzFunction, FuzzFunctionView,
    FuzzStruct, FuzzStructView, GenerateError,
};
use crate::signature::{type_view, Signature, SignatureView, Type, TypeView};
use crate::text::texts;

verus! {

/// What is generated for one callable.
#[derive(Clone, Debug, PartialEq, Eq)]
pub struct Harness {
    /// The name of the target: the name it has in the manifest, and the stem
    /// of the file that holds `source`.
    pub ident: String,
    /// The name of the file that holds `source`.
    pub file_name: String,
    /// The aggregate that holds one value per input.
    pub aggregate: FuzzStruct,
    /// The wrapper that calls the callable on the aggregate.
    pub wrapper: FuzzFunction,
    /// The source text of the entry point.
    pub source: String,
}

/// View of [`Harness`].
pub struct HarnessView {
    pub ident: Seq<char>,
    pub file_name: Seq<char>,
    pub aggregate: FuzzStructView,
    pub wrapper: FuzzFunctionView,
    pub source: Seq<char>,
}

impl View for Harness {
    type V = HarnessView;

    open spec fn view(&self) -> HarnessView {
        HarnessView {
            ident: self.ident@,
            file_name: self.file_name@,
            aggregate: self.aggregate@,
            wrapper: self.wrapper@,
            source: self.source@,
        }
    }
}

/// The name of the file that holds the harness of the target `ident`.
pub open spec fn spec_file_name(ident: Seq<char>) -> Seq<char> {
    ident + ".rs"@
}

/// What is generated for an accepted signature of the project `crate_name`,
/// declared in `modules`, outermost first. The harness reaches the project
/// under the name of the project with `_` for every `-`.
pub open spec fn spec_generate(
    sig: SignatureView,
    owner: Option<TypeView>,
    crate_name: Seq<char>,
    modules: Seq<Seq<char>>,
) -> HarnessView {
    let ident = spec_harness_ident(sig.ident, owner_name(owner), modules);
    HarnessView {
        ident,
        file_name: spec_file_name(ident),
        aggregate: spec_fuzz_struct(sig, owner),
        wrapper: spec_fuzz_function(sig, owner),
        source: spec_fuzz_harness(sig.ident, spec_crate_ident(crate_name), modules),
    }
}

/// Names the file that holds the harness of the target `ident`.
pub fn harness_file_name(ident: &str) -> (name: String)
    ensures
        name@ == spec_file_name(ident@),
{
    let mut name = String::new();
    name.append(ident);
    name.append(".rs");
    name
}

/// Generates everything for one callable of the project `info`: the
/// aggregate, the wrapper, the name of the target and the harness.
///
/// Fails exactly where [`classify`](crate::generate::classify) does, and with the same error, so that a
/// caller that goes through the methods of an `impl` block can pass over the
/// one that failed and go on with the next. What is generated depends on the
/// arguments alone: generating again gives the same names and the same text.
pub fn generate(
    info: &CrateInfo,
    signature: &Signature,
    impl_type: Option<&Type>,
    modules: &Vec<String>,
) -> (outcome: Result<Harness, GenerateError>)
    ensures
        match outcome {
            Ok(harness) => spec_classify(signature@, type_view(impl_type)) is Ok && harness@
                == spec_generate(
                signature@,
                type_view(impl_type),
                info.spec_name(),
                texts(modules@),
            ),
            Err(error) => spec_classify(signature@, type_view(impl_type)) == Err::<
                (),
                GenerateError,
            >(error),
        },
{
    let aggregate = match fuzz_struct(signature, impl_type) {
        Ok(aggregate) => aggregate,
        Err(error) => {
            return Err(error);
        },
    };
    let wrapper = match fuzz_function(signature, impl_type) {
        Ok(wrapper) => wrapper,
        Err(error) => {
            return Err(error);
        },
    };
    let owner = match impl_type {
        Some(ty) => ty.simple_name(),
        None => None,
    };
    let ident = match &owner {
        Some(owner) => construct_harness_ident(
            signature.ident.as_str(),
            Some(owner.as_str()),
            modules,
        ),
        None => construct_harness_ident(signature.ident.as_str(), None, modules),
    };
    let file_name = harness_file_name(ident.as_str());
    let source = fuzz_harness(signature, info.crate_ident().as_str(), modules);
    Ok(Harness { ident, file_name, aggregate, wrapper, source })
}

} // verus!
