use auto_fuzz_test::generate::{
    fuzz_function, fuzz_harness, fuzz_struct, Argument, Callee, Field, FuzzFunction, FuzzStruct,
    GenerateError,
};
use auto_fuzz_test::signature::{FnArg, Passing, Pattern, Signature, Type, TypePath};

fn named(name: &str) -> TypePath {
    TypePath {
        segments: vec![name.to_string()],
        leading_colon: false,
        qualified: false,
        arguments: false,
    }
}

fn value(name: &str, ty: &str) -> FnArg {
    FnArg::Typed { pat: Pattern::Ident(name.to_string()), ty: Type::Path(named(ty)) }
}

fn borrowed(name: &str, mutable: bool, ty: &str) -> FnArg {
    FnArg::Typed {
        pat: Pattern::Ident(name.to_string()),
        ty: Type::Reference { mutable, elem: Some(named(ty)) },
    }
}

fn signature(name: &str, inputs: Vec<FnArg>) -> Signature {
    Signature { ident: name.to_string(), inputs, is_unsafe: false, is_async: false }
}

fn field(name: &str, ty: &str, boxed: bool) -> Field {
    Field { name: name.to_string(), ty: ty.to_string(), boxed }
}

fn argument(name: &str, passing: Passing) -> Argument {
    Argument { field: name.to_string(), passing }
}

fn test_struct() -> Type {
    Type::Path(named("TestStruct"))
}

fn parsed_struct(text: &str) -> syn::ItemStruct {
    syn::parse_str(text).unwrap()
}

fn parsed_fn(text: &str) -> syn::ItemFn {
    syn::parse_str(text).unwrap()
}

// pub fn maybe_checked_mul(a: u64, b: u64, crash_on_overflow: bool) -> u64
fn maybe_checked_mul() -> Signature {
    signature(
        "maybe_checked_mul",
        vec![value("a", "u64"), value("b", "u64"), value("crash_on_overflow", "bool")],
    )
}

// pub fn maybe_checked_mul_borrowed(a: &mut u64, b: u64, crash_on_overflow: bool)
fn maybe_checked_mul_borrowed() -> Signature {
    signature(
        "maybe_checked_mul_borrowed",
        vec![borrowed("a", true, "u64"), value("b", "u64"), value("crash_on_overflow", "bool")],
    )
}

// pub fn maybe_checked_mul(a: u64, b: u64, crash_on_overflow: bool, sl: &[u32]) -> u64
fn maybe_checked_mul_sliced() -> Signature {
    signature(
        "maybe_checked_mul",
        vec![
            value("a", "u64"),
            value("b", "u64"),
            value("crash_on_overflow", "bool"),
            FnArg::Typed {
                pat: Pattern::Ident("sl".to_string()),
                ty: Type::Reference { mutable: false, elem: None },
            },
        ],
    )
}

// pub fn maybe_checked_mul(a: u64, b: u64, (c,d):(u32,u64)) -> u64
fn maybe_checked_mul_destructured() -> Signature {
    signature(
        "maybe_checked_mul",
        vec![
            value("a", "u64"),
            value("b", "u64"),
            FnArg::Typed { pat: Pattern::Other, ty: Type::Other },
        ],
    )
}

#[test]
fn struct_no_borrows() {
    let needed = "#[derive(Arbitrary)]
        #[derive(Debug)]
        pub struct __fuzz_struct_maybe_checked_mul {
            a: u64,
            b: u64,
            crash_on_overflow: bool
        }";
    let made = fuzz_struct(&maybe_checked_mul(), None);
    assert_eq!(
        made,
        Ok(FuzzStruct {
            ident: "__fuzz_struct_maybe_checked_mul".to_string(),
            fields: vec![
                field("a", "u64", false),
                field("b", "u64", false),
                field("crash_on_overflow", "bool", false),
            ],
        })
    );
    assert_eq!(parsed_struct(&made.unwrap().render()), parsed_struct(needed));
}

#[test]
fn struct_borrowed() {
    let needed = "#[derive(Arbitrary)]
        #[derive(Debug)]
        pub struct __fuzz_struct_maybe_checked_mul_borrowed {
            a: Box<u64>,
            b: u64,
            crash_on_overflow: bool
        }";
    let made = fuzz_struct(&maybe_checked_mul_borrowed(), None);
    assert_eq!(
        made,
        Ok(FuzzStruct {
            ident: "__fuzz_struct_maybe_checked_mul_borrowed".to_string(),
            fields: vec![
                field("a", "u64", true),
                field("b", "u64", false),
                field("crash_on_overflow", "bool", false),
            ],
        })
    );
    assert_eq!(parsed_struct(&made.unwrap().render()), parsed_struct(needed));
}

#[test]
fn struct_method_borrowed() {
    // pub fn set_b(&mut self, b: u64)
    let method = signature("set_b", vec![FnArg::Receiver(Passing::RefMut), value("b", "u64")]);
    let needed = "#[derive(Arbitrary)]
        #[derive(Debug)]
        pub struct __fuzz_struct_set_b {
            slf: Box<TestStruct>,
            b: u64
        }";
    let made = fuzz_struct(&method, Some(&test_struct()));
    assert_eq!(
        made,
        Ok(FuzzStruct {
            ident: "__fuzz_struct_set_b".to_string(),
            fields: vec![field("slf", "TestStruct", true), field("b", "u64", false)],
        })
    );
    assert_eq!(parsed_struct(&made.unwrap().render()), parsed_struct(needed));
}

#[test]
fn struct_method_unborrowed() {
    // pub fn set_b(self, b: u64) -> u64
    let method = signature("set_b", vec![FnArg::Receiver(Passing::Value), value("b", "u64")]);
    let needed = "#[derive(Arbitrary)]
        #[derive(Debug)]
        pub struct __fuzz_struct_set_b {
            slf: TestStruct,
            b: u64
        }";
    let made = fuzz_struct(&method, Some(&test_struct()));
    assert_eq!(
        made,
        Ok(FuzzStruct {
            ident: "__fuzz_struct_set_b".to_string(),
            fields: vec![field("slf", "TestStruct", false), field("b", "u64", false)],
        })
    );
    assert_eq!(parsed_struct(&made.unwrap().render()), parsed_struct(needed));
}

#[test]
fn struct_sliced_arg() {
    assert_eq!(fuzz_struct(&maybe_checked_mul_sliced(), None), Err(GenerateError::ComplexArg(3)));
}

#[test]
fn struct_complex_variable() {
    assert_eq!(
        fuzz_struct(&maybe_checked_mul_destructured(), None),
        Err(GenerateError::ComplexVariable(2))
    );
}

#[test]
fn function_unborrowed() {
    let needed = "pub fn __fuzz_maybe_checked_mul(mut input:__fuzz_struct_maybe_checked_mul) {
            maybe_checked_mul(input.a, input.b, input.crash_on_overflow);
        }";
    let made = fuzz_function(&maybe_checked_mul(), None);
    assert_eq!(
        made,
        Ok(FuzzFunction {
            ident: "__fuzz_maybe_checked_mul".to_string(),
            input: "__fuzz_struct_maybe_checked_mul".to_string(),
            callee: Callee::Function("maybe_checked_mul".to_string()),
            args: vec![
                argument("a", Passing::Value),
                argument("b", Passing::Value),
                argument("crash_on_overflow", Passing::Value),
            ],
        })
    );
    assert_eq!(parsed_fn(&made.unwrap().render()), parsed_fn(needed));
}

#[test]
fn function_borrowed() {
    let needed = "pub fn __fuzz_maybe_checked_mul_borrowed(mut input:__fuzz_struct_maybe_checked_mul_borrowed) {
            maybe_checked_mul_borrowed(&mut *input.a, input.b, input.crash_on_overflow);
        }";
    let made = fuzz_function(&maybe_checked_mul_borrowed(), None);
    assert_eq!(
        made,
        Ok(FuzzFunction {
            ident: "__fuzz_maybe_checked_mul_borrowed".to_string(),
            input: "__fuzz_struct_maybe_checked_mul_borrowed".to_string(),
            callee: Callee::Function("maybe_checked_mul_borrowed".to_string()),
            args: vec![
                argument("a", Passing::RefMut),
                argument("b", Passing::Value),
                argument("crash_on_overflow", Passing::Value),
            ],
        })
    );
    assert_eq!(parsed_fn(&made.unwrap().render()), parsed_fn(needed));
}

#[test]
fn function_sliced_arg() {
    // A reference to a slice is no reference to a named type: the wrapper is
    // refused as the aggregate is.
    assert_eq!(
        fuzz_function(&maybe_checked_mul_sliced(), None),
        Err(GenerateError::ComplexArg(3))
    );
}

#[test]
fn function_complex_variable() {
    assert_eq!(
        fuzz_function(&maybe_checked_mul_destructured(), None),
        Err(GenerateError::ComplexVariable(2))
    );
}

#[test]
fn function_empty() {
    let function = signature("maybe_checked_mul_borrowed", vec![]);
    assert_eq!(fuzz_function(&function, None), Err(GenerateError::Empty));
}

#[test]
fn method_unborrowed() {
    // pub fn set_b(self, b: u64) -> u64
    let method = signature("set_b", vec![FnArg::Receiver(Passing::Value), value("b", "u64")]);
    let needed = "pub fn __fuzz_set_b(mut input: __fuzz_struct_set_b) {
            (input.slf).set_b(input.b);
        }";
    let made = fuzz_function(&method, Some(&test_struct()));
    assert_eq!(
        made,
        Ok(FuzzFunction {
            ident: "__fuzz_set_b".to_string(),
            input: "__fuzz_struct_set_b".to_string(),
            callee: Callee::Method { target: Passing::Value, name: "set_b".to_string() },
            args: vec![argument("b", Passing::Value)],
        })
    );
    assert_eq!(parsed_fn(&made.unwrap().render()), parsed_fn(needed));
}

#[test]
fn method_borrowed() {
    // pub fn set_b(&mut self, b: u64)
    let method = signature("set_b", vec![FnArg::Receiver(Passing::RefMut), value("b", "u64")]);
    let needed = "pub fn __fuzz_set_b(mut input: __fuzz_struct_set_b) {
            (&mut input.slf).set_b(input.b);
        }";
    let made = fuzz_function(&method, Some(&test_struct()));
    assert_eq!(
        made,
        Ok(FuzzFunction {
            ident: "__fuzz_set_b".to_string(),
            input: "__fuzz_struct_set_b".to_string(),
            callee: Callee::Method { target: Passing::RefMut, name: "set_b".to_string() },
            args: vec![argument("b", Passing::Value)],
        })
    );
    assert_eq!(parsed_fn(&made.unwrap().render()), parsed_fn(needed));
}

#[test]
fn method_generator() {
    // pub fn new(a: u64, b: u64) -> TestStruct
    let function = signature("new", vec![value("a", "u64"), value("b", "u64")]);
    let needed = "pub fn __fuzz_new(mut input: __fuzz_struct_new) {
            TestStruct::new(input.a, input.b);
        }";
    let made = fuzz_function(&function, Some(&test_struct()));
    assert_eq!(
        made,
        Ok(FuzzFunction {
            ident: "__fuzz_new".to_string(),
            input: "__fuzz_struct_new".to_string(),
            callee: Callee::Associated {
                owner: "TestStruct".to_string(),
                name: "new".to_string(),
            },
            args: vec![argument("a", Passing::Value), argument("b", Passing::Value)],
        })
    );
    assert_eq!(parsed_fn(&made.unwrap().render()), parsed_fn(needed));
}

#[test]
fn harness() {
    let needed = "#![no_main]
            use libfuzzer_sys::fuzz_target;
            extern crate lib;

            fuzz_target!( |input: lib::foo::bar::__fuzz_struct_maybe_checked_mul| {
                    lib::foo::bar::__fuzz_maybe_checked_mul(input);
                }
            );";
    let modules = vec!["foo".to_string(), "bar".to_string()];
    let made = fuzz_harness(&maybe_checked_mul(), "lib", &modules);
    let made_tokens: proc_macro2::TokenStream = made.parse().unwrap();
    let needed_tokens: proc_macro2::TokenStream = needed.parse().unwrap();
    assert_eq!(made_tokens.to_string(), needed_tokens.to_string());
}
