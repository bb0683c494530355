//! When two callables get the same target name, and when they cannot.
//!
//! A target name joins modules, owner and function with underscores, and
//! names may hold underscores themselves. So two different callables can
//! share a target name: the function `b_c` in the module `a` and the method
//! `c` of `b` in the module `a` are both `a__b_c`. The laws here say what
//! can be relied on all the same.

use vstd::prelude::*;
use crate::crate_parse::{spec_harness_ident, spec_local_ident};
use crate::text::{lemma_join_front, spec_join};

verus! {

/// Whether a name is not empty and holds no underscore.
pub open spec fn plain(name: Seq<char>) -> bool {
    name.len() > 0 && forall|i: int| 0 <= i < name.len() ==> name[i] != '_'
}

/// Whether the names that a target name is made of are all plain.
pub open spec fn plain_names(
    function: Seq<char>,
    owner: Option<Seq<char>>,
    modules: Seq<Seq<char>>,
) -> bool {
    &&& plain(function)
    &&& owner matches Some(owner) ==> plain(owner)
    &&& forall|i: int| 0 <= i < modules.len() ==> plain(#[trigger] modules[i])
}

/// A method and a free function of one name in one module never share a
/// target name, whatever the owner of the method is called.
pub proof fn harness_ident_tells_method_from_function(
    function: Seq<char>,
    owner: Seq<char>,
    modules: Seq<Seq<char>>,
)
    ensures
        spec_harness_ident(function, Some(owner), modules) != spec_harness_ident(
            function,
            None,
            modules,
        ),
{
    reveal_strlit("_");
    let with_owner = spec_harness_ident(function, Some(owner), modules);
    let without = spec_harness_ident(function, None, modules);
    assert(with_owner.len() == without.len() + owner.len() + 1);
}

/// The target name of a callable in modules is its outermost module, two
/// underscores, and its target name in the modules below.
pub proof fn lemma_ident_front(
    function: Seq<char>,
    owner: Option<Seq<char>>,
    modules: Seq<Seq<char>>,
)
    requires
        modules.len() > 0,
    ensures
        spec_harness_ident(function, owner, modules) == modules[0] + "__"@ + spec_harness_ident(
            function,
            owner,
            modules.skip(1),
        ),
{
    let local = spec_local_ident(function, owner);
    if modules.len() == 1 {
        assert(spec_join(modules, "__"@) == modules[0]);
    } else {
        lemma_join_front(modules, "__"@);
        let rest = spec_join(modules.skip(1), "__"@);
        assert((modules[0] + "__"@ + rest) + "__"@ + local == modules[0] + "__"@ + (rest + "__"@
            + local));
    }
}

/// Two texts that agree, each a name without underscores followed by an
/// underscore and more, start with the same name and go on in the same way.
pub proof fn lemma_cut_at_underscore(
    first: Seq<char>,
    first_rest: Seq<char>,
    second: Seq<char>,
    second_rest: Seq<char>,
)
    requires
        plain(first),
        plain(second),
        first + "_"@ + first_rest == second + "_"@ + second_rest,
    ensures
        first == second,
        first_rest == second_rest,
{
    reveal_strlit("_");
    let left = first + "_"@ + first_rest;
    let right = second + "_"@ + second_rest;
    if first.len() < second.len() {
        assert(left[first.len() as int] == '_');
        assert(right[first.len() as int] == second[first.len() as int]);
    } else if second.len() < first.len() {
        assert(right[second.len() as int] == '_');
        assert(left[second.len() as int] == first[second.len() as int]);
    }
    assert(first == left.take(first.len() as int));
    assert(second == right.take(second.len() as int));
    assert(first_rest == left.skip(first.len() as int + 1));
    assert(second_rest == right.skip(second.len() as int + 1));
}

/// In one module and for one owner, or for none, different functions get
/// different target names.
pub proof fn harness_ident_tells_functions_apart(
    first: Seq<char>,
    second: Seq<char>,
    owner: Option<Seq<char>>,
    modules: Seq<Seq<char>>,
)
    requires
        spec_harness_ident(first, owner, modules) == spec_harness_ident(second, owner, modules),
    ensures
        first == second,
{
    let a = spec_harness_ident(first, owner, modules);
    let b = spec_harness_ident(second, owner, modules);
    let prefix = a.len() - first.len();
    assert(b.len() - second.len() == prefix);
    assert(first == a.skip(prefix));
    assert(second == b.skip(prefix));
}

/// Among callables whose names hold no underscore, the target name tells
/// everything: two that share a target name have the same function name, the
/// same owner or none, and the same modules.
pub proof fn harness_ident_is_injective_on_plain_names(
    function: Seq<char>,
    owner: Option<Seq<char>>,
    modules: Seq<Seq<char>>,
    other_function: Seq<char>,
    other_owner: Option<Seq<char>>,
    other_modules: Seq<Seq<char>>,
)
    requires
        plain_names(function, owner, modules),
        plain_names(other_function, other_owner, other_modules),
        spec_harness_ident(function, owner, modules) == spec_harness_ident(
            other_function,
            other_owner,
            other_modules,
        ),
    ensures
        function == other_function,
        owner == other_owner,
        modules == other_modules,
    decreases modules.len(),
{
    reveal_strlit("_");
    reveal_strlit("__");
    assert("__"@ == "_"@ + "_"@);
    let ident = spec_harness_ident(function, owner, modules);
    let other = spec_harness_ident(other_function, other_owner, other_modules);
    // Each name as a plain head, and what follows the first underscore.
    if modules.len() > 0 {
        let rest = spec_harness_ident(function, owner, modules.skip(1));
        lemma_ident_front(function, owner, modules);
        assert(ident == modules[0] + "_"@ + ("_"@ + rest));
        assert(plain(modules[0]));
        if other_modules.len() > 0 {
            let other_rest = spec_harness_ident(other_function, other_owner, other_modules.skip(1));
            lemma_ident_front(other_function, other_owner, other_modules);
            assert(other == other_modules[0] + "_"@ + ("_"@ + other_rest));
            assert(plain(other_modules[0]));
            lemma_cut_at_underscore(
                modules[0],
                "_"@ + rest,
                other_modules[0],
                "_"@ + other_rest,
            );
            assert(rest == ("_"@ + rest).skip(1));
            assert(other_rest == ("_"@ + other_rest).skip(1));
            assert forall|i: int| 0 <= i < modules.skip(1).len() implies plain(
                #[trigger] modules.skip(1)[i],
            ) by {
                assert(modules.skip(1)[i] == modules[i + 1]);
            }
            assert forall|i: int| 0 <= i < other_modules.skip(1).len() implies plain(
                #[trigger] other_modules.skip(1)[i],
            ) by {
                assert(other_modules.skip(1)[i] == other_modules[i + 1]);
            }
            harness_ident_is_injective_on_plain_names(
                function,
                owner,
                modules.skip(1),
                other_function,
                other_owner,
                other_modules.skip(1),
            );
            assert(modules == seq![modules[0]] + modules.skip(1));
            assert(other_modules == seq![other_modules[0]] + other_modules.skip(1));
        } else {
            match other_owner {
                Some(other_owner) => {
                    assert(other == other_owner + "_"@ + other_function);
                    lemma_cut_at_underscore(
                        modules[0],
                        "_"@ + rest,
                        other_owner,
                        other_function,
                    );
                    assert(other_function[0] == '_');
                },
                None => {
                    assert(ident[modules[0].len() as int] == '_');
                },
            }
        }
    } else {
        match owner {
            Some(owner_name) => {
                assert(ident == owner_name + "_"@ + function);
                if other_modules.len() > 0 {
                    let other_rest = spec_harness_ident(
                        other_function,
                        other_owner,
                        other_modules.skip(1),
                    );
                    lemma_ident_front(other_function, other_owner, other_modules);
                    assert(other == other_modules[0] + "_"@ + ("_"@ + other_rest));
                    assert(plain(other_modules[0]));
                    lemma_cut_at_underscore(
                        owner_name,
                        function,
                        other_modules[0],
                        "_"@ + other_rest,
                    );
                    assert(function[0] == '_');
                } else {
                    match other_owner {
                        Some(other_owner) => {
                            assert(other == other_owner + "_"@ + other_function);
                            lemma_cut_at_underscore(
                                owner_name,
                                function,
                                other_owner,
                                other_function,
                            );
                        },
                        None => {
                            assert(ident[owner_name.len() as int] == '_');
                        },
                    }
                }
            },
            None => {
                if other_modules.len() > 0 {
                    lemma_ident_front(other_function, other_owner, other_modules);
                    assert(plain(other_modules[0]));
                    assert(other[other_modules[0].len() as int] == '_');
                } else {
                    match other_owner {
                        Some(other_owner) => {
                            assert(other[other_owner.len() as int] == '_');
                        },
                        None => {},
                    }
                }
            },
        }
    }
}

} // verus!
