use auto_fuzz_test::generate::{
    classify, fuzz_function, fuzz_struct, Argument, Field, FuzzStruct, GenerateError,
};
use auto_fuzz_test::harness::{generate, harness_file_name};
use auto_fuzz_test::crate_parse::CrateInfo;
use auto_fuzz_test::signature::{
    FnArg, ParameterShape, Passing, Pattern, Signature, Type, TypePath,
};

fn path(segments: &[&str]) -> TypePath {
    TypePath {
        segments: segments.iter().map(|segment| segment.to_string()).collect(),
        leading_colon: false,
        qualified: false,
        arguments: false,
    }
}

fn typed(name: &str, ty: Type) -> FnArg {
    FnArg::Typed { pat: Pattern::Ident(name.to_string()), ty }
}

fn value(name: &str, ty: &str) -> FnArg {
    typed(name, Type::Path(path(&[ty])))
}

fn reference(name: &str, mutable: bool, ty: &str) -> FnArg {
    typed(name, Type::Reference { mutable, elem: Some(path(&[ty])) })
}

fn signature(name: &str, inputs: Vec<FnArg>) -> Signature {
    Signature { ident: name.to_string(), inputs, is_unsafe: false, is_async: false }
}

fn owner(name: &str) -> Type {
    Type::Path(path(&[name]))
}

fn generic_owner() -> Type {
    Type::Path(TypePath { arguments: true, ..path(&["Wrapper"]) })
}

// f(a: T1, b: &T2, c: &mut T3)
fn three_ways() -> Signature {
    signature("f", vec![value("a", "T1"), reference("b", false, "T2"), reference("c", true, "T3")])
}

#[test]
fn aggregate_keeps_declaration_order() {
    let aggregate = fuzz_struct(&three_ways(), None).unwrap();
    assert_eq!(
        aggregate,
        FuzzStruct {
            ident: "__fuzz_struct_f".to_string(),
            fields: vec![
                Field { name: "a".to_string(), ty: "T1".to_string(), boxed: false },
                Field { name: "b".to_string(), ty: "T2".to_string(), boxed: true },
                Field { name: "c".to_string(), ty: "T3".to_string(), boxed: true },
            ],
        }
    );
    assert_eq!(
        aggregate.render(),
        "#[derive(Arbitrary)]\n#[derive(Debug)]\npub struct __fuzz_struct_f {\n    a: T1,\n    b: Box<T2>,\n    c: Box<T3>\n}\n"
    );
}

#[test]
fn wrapper_passes_each_input_as_declared() {
    let wrapper = fuzz_function(&three_ways(), None).unwrap();
    assert_eq!(
        wrapper.args,
        vec![
            Argument { field: "a".to_string(), passing: Passing::Value },
            Argument { field: "b".to_string(), passing: Passing::Ref },
            Argument { field: "c".to_string(), passing: Passing::RefMut },
        ]
    );
    assert_eq!(wrapper.render_call(), "f(input.a, &*input.b, &mut *input.c)");
    assert_eq!(
        wrapper.render(),
        "pub fn __fuzz_f(mut input: __fuzz_struct_f) {\n    f(input.a, &*input.b, &mut *input.c);\n}\n"
    );
}

#[test]
fn receivers_are_borrowed_as_declared() {
    for (passing, target) in [
        (Passing::Value, "(input.slf).get(input.k)"),
        (Passing::Ref, "(&input.slf).get(input.k)"),
        (Passing::RefMut, "(&mut input.slf).get(input.k)"),
    ] {
        let method = signature("get", vec![FnArg::Receiver(passing), value("k", "u8")]);
        let wrapper = fuzz_function(&method, Some(&owner("Table"))).unwrap();
        assert_eq!(wrapper.render_call(), target);
        let aggregate = fuzz_struct(&method, Some(&owner("Table"))).unwrap();
        assert_eq!(aggregate.fields[0].name, "slf");
        assert_eq!(aggregate.fields[0].ty, "Table");
        assert_eq!(aggregate.fields[0].boxed, passing != Passing::Value);
    }
}

#[test]
fn classify_gives_the_signature_back() {
    let accepted = three_ways();
    assert_eq!(classify(&accepted, None), Ok(&accepted));
}

#[test]
fn unsafe_is_refused_first() {
    let mut both = three_ways();
    both.is_unsafe = true;
    both.is_async = true;
    assert_eq!(classify(&both, None), Err(GenerateError::Unsafe));
    assert_eq!(fuzz_struct(&both, None), Err(GenerateError::Unsafe));
    assert_eq!(fuzz_function(&both, None), Err(GenerateError::Unsafe));
}

#[test]
fn async_is_refused_before_inputs_are_looked_at() {
    let mut function = signature("f", vec![]);
    function.is_async = true;
    assert_eq!(classify(&function, None), Err(GenerateError::Async));
}

#[test]
fn empty_is_refused() {
    assert_eq!(classify(&signature("f", vec![]), None), Err(GenerateError::Empty));
    assert_eq!(classify(&signature("f", vec![]), Some(&owner("T"))), Err(GenerateError::Empty));
}

#[test]
fn the_first_unsupported_input_decides() {
    let function = signature(
        "f",
        vec![
            value("a", "u8"),
            typed("b", Type::Other),
            FnArg::Typed { pat: Pattern::Other, ty: Type::Path(path(&["u8"])) },
        ],
    );
    assert_eq!(classify(&function, None), Err(GenerateError::ComplexArg(1)));
    let function = signature(
        "f",
        vec![
            FnArg::Typed { pat: Pattern::Other, ty: Type::Other },
            typed("b", Type::Other),
        ],
    );
    assert_eq!(classify(&function, None), Err(GenerateError::ComplexVariable(0)));
}

#[test]
fn inputs_are_checked_before_the_owner() {
    let method = signature("m", vec![FnArg::Receiver(Passing::Ref), typed("b", Type::Other)]);
    assert_eq!(classify(&method, Some(&generic_owner())), Err(GenerateError::ComplexArg(1)));
}

#[test]
fn a_receiver_needs_a_simple_owner() {
    let method = signature("m", vec![FnArg::Receiver(Passing::Ref)]);
    assert_eq!(classify(&method, Some(&owner("T"))), Ok(&method));
    assert_eq!(classify(&method, None), Err(GenerateError::ComplexSelfType));
    assert_eq!(classify(&method, Some(&generic_owner())), Err(GenerateError::ComplexSelfType));
    assert_eq!(classify(&method, Some(&Type::Other)), Err(GenerateError::ComplexSelfType));
    assert_eq!(
        classify(&method, Some(&Type::Path(path(&["a", "T"])))),
        Err(GenerateError::ComplexSelfType)
    );
    assert_eq!(
        classify(&method, Some(&Type::Reference { mutable: false, elem: Some(path(&["T"])) })),
        Err(GenerateError::ComplexSelfType)
    );
}

#[test]
fn an_associated_function_needs_a_simple_owner() {
    let function = signature("new", vec![value("a", "u8")]);
    assert_eq!(classify(&function, Some(&owner("T"))), Ok(&function));
    assert_eq!(classify(&function, Some(&generic_owner())), Err(GenerateError::ComplexMethodCall));
    assert_eq!(classify(&function, Some(&Type::Other)), Err(GenerateError::ComplexMethodCall));
}

#[test]
fn a_receiver_after_the_first_input_is_refused() {
    let twice = signature(
        "m",
        vec![FnArg::Receiver(Passing::Ref), value("a", "u8"), FnArg::Receiver(Passing::Value)],
    );
    assert_eq!(classify(&twice, Some(&owner("T"))), Err(GenerateError::MultipleRes));
    let late = signature("m", vec![value("a", "u8"), FnArg::Receiver(Passing::Value)]);
    assert_eq!(classify(&late, Some(&owner("T"))), Err(GenerateError::MultipleRes));
    assert_eq!(classify(&late, None), Err(GenerateError::MultipleRes));
    assert_eq!(classify(&twice, Some(&generic_owner())), Err(GenerateError::ComplexSelfType));
}

#[test]
fn shapes_of_types() {
    assert_eq!(Type::Path(path(&["u64"])).shape(), ParameterShape::Value("u64".to_string()));
    assert_eq!(
        Type::Path(path(&["std", "string", "String"])).shape(),
        ParameterShape::Value("std::string::String".to_string())
    );
    assert_eq!(
        Type::Path(TypePath { leading_colon: true, ..path(&["std", "string", "String"]) }).shape(),
        ParameterShape::Value("::std::string::String".to_string())
    );
    assert_eq!(
        Type::Reference { mutable: false, elem: Some(path(&["str"])) }.shape(),
        ParameterShape::ImmutableRef("str".to_string())
    );
    assert_eq!(
        Type::Reference { mutable: true, elem: Some(path(&["i32"])) }.shape(),
        ParameterShape::MutableRef("i32".to_string())
    );
    assert_eq!(Type::Reference { mutable: true, elem: None }.shape(), ParameterShape::Unsupported);
    assert_eq!(Type::Other.shape(), ParameterShape::Unsupported);
    assert_eq!(
        Type::Path(TypePath { arguments: true, ..path(&["Vec"]) }).shape(),
        ParameterShape::Unsupported
    );
    assert_eq!(
        Type::Path(TypePath { qualified: true, ..path(&["Iterator", "Item"]) }).shape(),
        ParameterShape::Unsupported
    );
    assert_eq!(Type::Path(path(&[])).shape(), ParameterShape::Unsupported);
    assert_eq!(
        Type::Reference {
            mutable: false,
            elem: Some(TypePath { arguments: true, ..path(&["Vec"]) })
        }
        .shape(),
        ParameterShape::Unsupported
    );
}

#[test]
fn simple_names() {
    assert_eq!(owner("T").simple_name(), Some("T".to_string()));
    assert_eq!(Type::Path(path(&["a", "T"])).simple_name(), None);
    assert_eq!(generic_owner().simple_name(), None);
    assert_eq!(
        Type::Path(TypePath { leading_colon: true, ..path(&["T"]) }).simple_name(),
        None
    );
    assert_eq!(Type::Other.simple_name(), None);
}

#[test]
fn messages() {
    assert_eq!(GenerateError::Async.message(), "Can not fuzz async functions.");
    assert_eq!(
        GenerateError::Unsafe.message(),
        "unsafe functions can not be fuzzed automatically."
    );
    assert_eq!(
        GenerateError::Empty.message(),
        "It is useless to fuzz function without input parameters."
    );
    assert_eq!(
        GenerateError::ComplexArg(0).message(),
        "Type of the function must be either standalone, or borrowed standalone (like `&Type`, but not like `&(u32, String)`)"
    );
    assert_eq!(
        GenerateError::ComplexSelfType.message(),
        "Only implementations for simple (like `MyType`) types are supported"
    );
    assert_eq!(GenerateError::MultipleRes.message(), "Muptiple Self values in function args.");
    assert_eq!(
        GenerateError::ComplexMethodCall.message(),
        "Complex method calls are not currently supported."
    );
    assert_eq!(
        GenerateError::ComplexVariable(0).message(),
        "Complex variables (like `&mut *a`) are not supported"
    );
    assert_eq!(GenerateError::ComplexArg(4).position(), Some(4));
    assert_eq!(GenerateError::ComplexVariable(2).position(), Some(2));
    assert_eq!(GenerateError::Empty.position(), None);
}

fn project() -> CrateInfo {
    CrateInfo::from_root("/work/my-lib", Some(b"[package]\nname = \"my-lib\"\n")).unwrap()
}

#[test]
fn generate_puts_everything_together() {
    let method = signature("set_b", vec![FnArg::Receiver(Passing::RefMut), value("b", "u64")]);
    let modules = vec!["outer".to_string(), "inner".to_string()];
    let harness = generate(&project(), &method, Some(&owner("TestStruct")), &modules).unwrap();
    assert_eq!(harness.ident, "outer__inner__TestStruct_set_b");
    assert_eq!(harness.file_name, "outer__inner__TestStruct_set_b.rs");
    assert_eq!(harness.aggregate, fuzz_struct(&method, Some(&owner("TestStruct"))).unwrap());
    assert_eq!(harness.wrapper, fuzz_function(&method, Some(&owner("TestStruct"))).unwrap());
    assert_eq!(
        harness.source,
        "#![no_main]\nuse libfuzzer_sys::fuzz_target;\nextern crate my_lib;\n\nfuzz_target!(|input: my_lib::outer::inner::__fuzz_struct_set_b| {\n    my_lib::outer::inner::__fuzz_set_b(input);\n});\n"
    );
    // Generating again writes the same text.
    assert_eq!(generate(&project(), &method, Some(&owner("TestStruct")), &modules), Ok(harness));
}

#[test]
fn generate_without_modules_or_owner() {
    let harness = generate(&project(), &three_ways(), None, &vec![]).unwrap();
    assert_eq!(harness.ident, "f");
    assert_eq!(harness.file_name, "f.rs");
    assert_eq!(
        harness.source,
        "#![no_main]\nuse libfuzzer_sys::fuzz_target;\nextern crate my_lib;\n\nfuzz_target!(|input: my_lib::__fuzz_struct_f| {\n    my_lib::__fuzz_f(input);\n});\n"
    );
    assert_eq!(harness_file_name("x__y"), "x__y.rs");
}

#[test]
fn generate_fails_as_classify_does() {
    let function = signature("f", vec![typed("a", Type::Other)]);
    assert_eq!(
        generate(&project(), &function, None, &vec![]),
        Err(GenerateError::ComplexArg(0))
    );
}
