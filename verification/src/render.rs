//! The source text of the generated definitions.
//!
//! Each definition has one rendering, fixed character for character, so that
//! generating twice from one signature writes the same text twice.

use vstd::prelude::*;
use vstd::string::*;
use crate::generate::{
    Argument, ArgumentView, Callee, CalleeView, Field, FieldView, FuzzFunction, FuzzFunctionView,
    FuzzStruct, FuzzStructView,
};
use crate::signature::Passing;
use crate::text::{join, spec_join, texts};

verus! {

impl FieldView {
    /// The type of the field as written: the named type, in a `Box` where
    /// the field is boxed.
    pub open spec fn type_text(self) -> Seq<char> {
        if self.boxed {
            "Box<"@ + self.ty + ">"@
        } else {
            self.ty
        }
    }

    /// The declaration of the field.
    pub open spec fn text(self) -> Seq<char> {
        "    "@ + self.name + ": "@ + self.type_text()
    }
}

impl FuzzStructView {
    /// The definition of the aggregate type: the derives, the name, and the
    /// fields one to a line with a comma between neighbours.
    pub open spec fn text(self) -> Seq<char> {
        "#[derive(Arbitrary)]\n#[derive(Debug)]\npub struct "@ + self.ident + " {\n"@ + spec_join(
            self.fields.map_values(|field: FieldView| field.text()),
            ",\n"@,
        ) + "\n}\n"@
    }
}

impl ArgumentView {
    /// The argument as written in the call.
    pub open spec fn text(self) -> Seq<char> {
        match self.passing {
            Passing::Value => "input."@ + self.field,
            Passing::Ref => "&*input."@ + self.field,
            Passing::RefMut => "&mut *input."@ + self.field,
        }
    }
}

impl CalleeView {
    /// What stands before the argument list of the call.
    pub open spec fn text(self) -> Seq<char> {
        match self {
            CalleeView::Function(name) => name,
            CalleeView::Associated { owner, name } => owner + "::"@ + name,
            CalleeView::Method { target, name } => match target {
                Passing::Value => "(input.slf)."@ + name,
                Passing::Ref => "(&input.slf)."@ + name,
                Passing::RefMut => "(&mut input.slf)."@ + name,
            },
        }
    }
}

impl FuzzFunctionView {
    /// The call expression in the body of the wrapper.
    pub open spec fn call_text(self) -> Seq<char> {
        self.callee.text() + "("@ + spec_join(
            self.args.map_values(|arg: ArgumentView| arg.text()),
            ", "@,
        ) + ")"@
    }

    /// The definition of the wrapper function.
    pub open spec fn text(self) -> Seq<char> {
        "pub fn "@ + self.ident + "(mut input: "@ + self.input + ") {\n    "@ + self.call_text()
            + ";\n}\n"@
    }
}

impl Field {
    /// Writes the declaration of the field.
    pub fn render(&self) -> (out: String)
        ensures
            out@ == self@.text(),
    {
        let mut out = String::new();
        out.append("    ");
        out.append(self.name.as_str());
        out.append(": ");
        if self.boxed {
            out.append("Box<");
            out.append(self.ty.as_str());
            out.append(">");
        } else {
            out.append(self.ty.as_str());
        }
        proof {
            assert(out@ == self@.text());
        }
        out
    }
}

impl FuzzStruct {
    /// Writes the definition of the aggregate type: a public struct that
    /// derives `Arbitrary` and `Debug`, with one line per field.
    pub fn render(&self) -> (out: String)
        ensures
            out@ == self@.text(),
    {
        let ghost wanted = self@.fields.map_values(|field: FieldView| field.text());
        let mut lines: Vec<String> = Vec::new();
        let mut i: usize = 0;
        while i < self.fields.len()
            invariant
                i <= self.fields.len(),
                wanted == self@.fields.map_values(|field: FieldView| field.text()),
                texts(lines@) == wanted.take(i as int),
            decreases self.fields.len() - i,
        {
            let line = self.fields[i].render();
            proof {
                assert(texts(lines@.push(line)) == texts(lines@).push(line@));
                assert(wanted.take(i + 1) == wanted.take(i as int).push(wanted[i as int]));
            }
            lines.push(line);
            i = i + 1;
        }
        proof {
            assert(wanted.take(i as int) == wanted);
        }
        let mut out = String::new();
        out.append("#[derive(Arbitrary)]\n#[derive(Debug)]\npub struct ");
        out.append(self.ident.as_str());
        out.append(" {\n");
        out.append(join(&lines, ",\n").as_str());
        out.append("\n}\n");
        out
    }
}

impl Argument {
    /// Writes the argument as it stands in the call.
    pub fn render(&self) -> (out: String)
        ensures
            out@ == self@.text(),
    {
        let mut out = String::new();
        match self.passing {
            Passing::Value => out.append("input."),
            Passing::Ref => out.append("&*input."),
            Passing::RefMut => out.append("&mut *input."),
        }
        out.append(self.field.as_str());
        out
    }
}

impl Callee {
    /// Writes what stands before the argument list of the call.
    pub fn render(&self) -> (out: String)
        ensures
            out@ == self@.text(),
    {
        let mut out = String::new();
        match self {
            Callee::Function(name) => {
                out.append(name.as_str());
            },
            Callee::Associated { owner, name } => {
                out.append(owner.as_str());
                out.append("::");
                out.append(name.as_str());
            },
            Callee::Method { target, name } => {
                match target {
                    Passing::Value => out.append("(input.slf)."),
                    Passing::Ref => out.append("(&input.slf)."),
                    Passing::RefMut => out.append("(&mut input.slf)."),
                }
                out.append(name.as_str());
            },
        }
        out
    }
}

impl FuzzFunction {
    /// Writes the call expression in the body of the wrapper.
    pub fn render_call(&self) -> (out: String)
        ensures
            out@ == self@.call_text(),
    {
        let ghost wanted = self@.args.map_values(|arg: ArgumentView| arg.text());
        let mut parts: Vec<String> = Vec::new();
        let mut i: usize = 0;
        while i < self.args.len()
            invariant
                i <= self.args.len(),
                wanted == self@.args.map_values(|arg: ArgumentView| arg.text()),
                texts(parts@) == wanted.take(i as int),
            decreases self.args.len() - i,
        {
            let part = self.args[i].render();
            proof {
                assert(texts(parts@.push(part)) == texts(parts@).push(part@));
                assert(wanted.take(i + 1) == wanted.take(i as int).push(wanted[i as int]));
            }
            parts.push(part);
            i = i + 1;
        }
        proof {
            assert(wanted.take(i as int) == wanted);
        }
        let mut out = self.callee.render();
        out.append("(");
        out.append(join(&parts, ", ").as_str());
        out.append(")");
        out
    }

    /// Writes the definition of the wrapper: a public function that takes the
    /// aggregate as `input` and makes the call as its only statement.
    pub fn render(&self) -> (out: String)
        ensures
            out@ == self@.text(),
    {
        let mut out = String::new();
        out.append("pub fn ");
        out.append(self.ident.as_str());
        out.append("(mut input: ");
        out.append(self.input.as_str());
        out.append(") {\n    ");
        out.append(self.render_call().as_str());
        out.append(";\n}\n");
        out
    }
}

} // verus!
