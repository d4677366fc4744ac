//! The scalar types that every schema has without defining them: `Int`,
//! `Float`, `String`, `Boolean` and `ID`.

use vstd::prelude::*;
use vstd::string::StringExecFns;
use crate::schema_set::{
    names_distinct, type_names, SchemaSet, SetDirective, SetRootSchema, SetScalar, SetType,
    SetTypeKind, SetTypeView, SetTypes,
};
use crate::source::texts_equal;

verus! {

/// The number of built-in scalars.
pub const BUILTIN_SCALAR_COUNT: usize = 5;

/// The names of the built-in scalars.
pub open spec fn spec_builtin_scalar_names() -> Seq<Seq<char>> {
    seq!["Int"@, "Float"@, "String"@, "Boolean"@, "ID"@]
}

/// The name of the built-in scalar at place `index`.
pub fn builtin_scalar_name(index: usize) -> (name: &'static str)
    requires
        index < BUILTIN_SCALAR_COUNT,
    ensures
        name@ == spec_builtin_scalar_names()[index as int],
{
    if index == 0 {
        "Int"
    } else if index == 1 {
        "Float"
    } else if index == 2 {
        "String"
    } else if index == 3 {
        "Boolean"
    } else {
        "ID"
    }
}

/// The built-in scalar named `name`: it has no directives and is defined
/// nowhere.
pub open spec fn spec_builtin_scalar(name: Seq<char>) -> SetTypeView {
    SetTypeView {
        kind: SetTypeKind::Scalar,
        name,
        directives: Seq::empty(),
        definition: None,
    }
}

fn builtin_scalar(index: usize) -> (scalar: SetType)
    requires
        index < BUILTIN_SCALAR_COUNT,
    ensures
        scalar.deep_view() == spec_builtin_scalar(spec_builtin_scalar_names()[index as int]),
{
    let directives: Vec<String> = Vec::new();
    proof {
        assert(directives.deep_view() =~= Seq::<Seq<char>>::empty());
    }
    SetType::Scalar(
        SetScalar {
            name: String::from_str(builtin_scalar_name(index)),
            directives,
            definition: None,
        },
    )
}

/// `types` with the first `count` built-in scalars added: each behind the
/// types that are there, unless a type of its name is there already.
pub open spec fn spec_add_built_in_scalars(types: Seq<SetTypeView>, count: int) -> Seq<SetTypeView>
    decreases count,
{
    if count <= 0 {
        types
    } else {
        let before = spec_add_built_in_scalars(types, count - 1);
        let name = spec_builtin_scalar_names()[count - 1];
        if type_names(before).contains(name) {
            before
        } else {
            before.push(spec_builtin_scalar(name))
        }
    }
}

/// Adds the built-in scalars to the schema. A type of the schema that has
/// the name of one of them stays as it is.
pub fn add_built_in_scalars(schema_set: &mut SchemaSet)
    ensures
        final(schema_set).types.deep_view() == spec_add_built_in_scalars(
            old(schema_set).types.deep_view(),
            BUILTIN_SCALAR_COUNT as int,
        ),
        final(schema_set).root_schema == old(schema_set).root_schema,
        final(schema_set).directives == old(schema_set).directives,
{
    let mut i: usize = 0;
    while i < BUILTIN_SCALAR_COUNT
        invariant
            i <= BUILTIN_SCALAR_COUNT,
            schema_set.types.deep_view() == spec_add_built_in_scalars(
                old(schema_set).types.deep_view(),
                i as int,
            ),
            schema_set.root_schema == old(schema_set).root_schema,
            schema_set.directives == old(schema_set).directives,
        decreases BUILTIN_SCALAR_COUNT - i,
    {
        schema_set.add_type(builtin_scalar(i));
        i += 1;
    }
}

/// A schema set that holds the built-in scalars and nothing else: no root
/// types and no directives.
pub fn builtin_scalar_set() -> (set: SchemaSet)
    ensures
        set.types.deep_view() == spec_add_built_in_scalars(
            Seq::empty(),
            BUILTIN_SCALAR_COUNT as int,
        ),
        set.root_schema.query_type is None,
        set.root_schema.mutation_type is None,
        set.root_schema.subscription_type is None,
        set.directives@.len() == 0,
{
    let mut set = SchemaSet::new();
    add_built_in_scalars(&mut set);
    set
}

/// Added to no types, the built-in scalars are the five of them, in
/// order.
pub proof fn law_builtin_scalar_set()
    ensures
        spec_add_built_in_scalars(Seq::empty(), BUILTIN_SCALAR_COUNT as int) == Seq::new(
            5,
            |i: int| spec_builtin_scalar(spec_builtin_scalar_names()[i]),
        ),
{
    reveal_strlit("Int");
    reveal_strlit("Float");
    reveal_strlit("String");
    reveal_strlit("Boolean");
    reveal_strlit("ID");
    let names = spec_builtin_scalar_names();
    assert(names[0].len() == 3 && names[1].len() == 5 && names[2].len() == 6 && names[3].len()
        == 7 && names[4].len() == 2);
    let none = Seq::<SetTypeView>::empty();
    let one = spec_add_built_in_scalars(none, 1);
    assert(spec_add_built_in_scalars(none, 0) == none);
    assert(!type_names(none).contains(names[0]));
    assert(one == none.push(spec_builtin_scalar(names[0])));
    let two = spec_add_built_in_scalars(none, 2);
    assert(!type_names(one).contains(names[1])) by {
        if type_names(one).contains(names[1]) {
            let at = choose|at: int| 0 <= at < type_names(one).len() && type_names(one)[at]
                == names[1];
            assert(one[at].name.len() != 5);
        }
    }
    assert(two == one.push(spec_builtin_scalar(names[1])));
    let three = spec_add_built_in_scalars(none, 3);
    assert(!type_names(two).contains(names[2])) by {
        if type_names(two).contains(names[2]) {
            let at = choose|at: int| 0 <= at < type_names(two).len() && type_names(two)[at]
                == names[2];
            assert(two[at].name.len() != 6);
        }
    }
    assert(three == two.push(spec_builtin_scalar(names[2])));
    let four = spec_add_built_in_scalars(none, 4);
    assert(!type_names(three).contains(names[3])) by {
        if type_names(three).contains(names[3]) {
            let at = choose|at: int| 0 <= at < type_names(three).len() && type_names(three)[at]
                == names[3];
            assert(three[at].name.len() != 7);
        }
    }
    assert(four == three.push(spec_builtin_scalar(names[3])));
    let five = spec_add_built_in_scalars(none, 5);
    assert(!type_names(four).contains(names[4])) by {
        if type_names(four).contains(names[4]) {
            let at = choose|at: int| 0 <= at < type_names(four).len() && type_names(four)[at]
                == names[4];
            assert(four[at].name.len() != 2);
        }
    }
    assert(five == four.push(spec_builtin_scalar(names[4])));
    assert(five =~= Seq::new(5, |i: int| spec_builtin_scalar(spec_builtin_scalar_names()[i])));
}

/// A built-in scalar as it is when nobody has touched it: a scalar with
/// the name of one, without directives.
pub open spec fn spec_is_plain_built_in_scalar(entry: SetTypeView) -> bool {
    entry.kind == SetTypeKind::Scalar && spec_builtin_scalar_names().contains(entry.name)
        && entry.directives.len() == 0
}

#[verifier::loop_isolation(false)]
pub fn is_plain_built_in_scalar(entry: &SetType) -> (plain: bool)
    ensures
        plain == spec_is_plain_built_in_scalar(entry.deep_view()),
{
    match entry {
        SetType::Scalar(scalar) => {
            if scalar.directives.len() != 0 {
                return false;
            }
            let mut i: usize = 0;
            while i < BUILTIN_SCALAR_COUNT
                invariant
                    i <= BUILTIN_SCALAR_COUNT,
                    forall|j: int| 0 <= j < i ==> spec_builtin_scalar_names()[j] != scalar.name@,
                decreases BUILTIN_SCALAR_COUNT - i,
            {
                if texts_equal(scalar.name.as_str(), builtin_scalar_name(i)) {
                    assert(spec_builtin_scalar_names()[i as int] == scalar.name@);
                    assert(spec_builtin_scalar_names().contains(scalar.name@));
                    return true;
                }
                i += 1;
            }
            false
        },
        _ => false,
    }
}

/// The first `count` of `types` without the plain built-in scalars.
pub open spec fn spec_without_built_in_scalars(types: Seq<SetTypeView>, count: int) -> Seq<
    SetTypeView,
>
    decreases count,
{
    if count <= 0 {
        Seq::empty()
    } else if spec_is_plain_built_in_scalar(types[count - 1]) {
        spec_without_built_in_scalars(types, count - 1)
    } else {
        spec_without_built_in_scalars(types, count - 1).push(types[count - 1])
    }
}

/// What is left of a list is part of the list.
pub proof fn lemma_without_built_in_scalars(types: Seq<SetTypeView>, count: int)
    requires
        0 <= count <= types.len(),
    ensures
        forall|name: Seq<char>|
            type_names(spec_without_built_in_scalars(types, count)).contains(name) ==> exists|
                k: int,
            |
                0 <= k < count && types[k].name == name,
    decreases count,
{
    if count > 0 {
        lemma_without_built_in_scalars(types, count - 1);
        let front = spec_without_built_in_scalars(types, count - 1);
        let all = spec_without_built_in_scalars(types, count);
        assert forall|name: Seq<char>| type_names(all).contains(name) implies exists|k: int|
            0 <= k < count && types[k].name == name by {
            let at = choose|at: int| 0 <= at < type_names(all).len() && type_names(all)[at] == name;
            if at < front.len() {
                assert(type_names(front)[at] == name);
                assert(type_names(front).contains(name));
                let k = choose|k: int| 0 <= k < count - 1 && types[k].name == name;
                assert(0 <= k < count && types[k].name == name);
            } else {
                assert(types[count - 1].name == name);
            }
        }
    } else {
        assert(type_names(spec_without_built_in_scalars(types, count)) =~= Seq::empty());
    }
}

fn duplicate_name(name: &Option<String>) -> (copy: Option<String>)
    ensures
        copy.deep_view() == name.deep_view(),
{
    match name {
        Some(name) => Some(name.clone()),
        None => None,
    }
}

/// The schema without the built-in scalars. A scalar that has the name of
/// a built-in one but carries directives stays; so does every other type,
/// whether it holds anything or not.
pub fn remove_built_in_scalars(schema_set: &SchemaSet) -> (without: SchemaSet)
    ensures
        without.types.deep_view() == spec_without_built_in_scalars(
            schema_set.types.deep_view(),
            schema_set.types.deep_view().len() as int,
        ),
        without.root_schema.query_type.deep_view()
            == schema_set.root_schema.query_type.deep_view(),
        without.root_schema.mutation_type.deep_view()
            == schema_set.root_schema.mutation_type.deep_view(),
        without.root_schema.subscription_type.deep_view()
            == schema_set.root_schema.subscription_type.deep_view(),
        without.directives@.len() == schema_set.directives@.len(),
        forall|i: int|
            0 <= i < without.directives@.len() ==> without.directives[i].name@
                == schema_set.directives[i].name@,
{
    let mut directives: Vec<SetDirective> = Vec::new();
    let mut d: usize = 0;
    while d < schema_set.directives.len()
        invariant
            d <= schema_set.directives.len(),
            directives.len() == d,
            forall|i: int| 0 <= i < d ==> directives[i].name@ == schema_set.directives[i].name@,
        decreases schema_set.directives.len() - d,
    {
        directives.push(SetDirective { name: schema_set.directives[d].name.clone() });
        d += 1;
    }
    let total = schema_set.types.len();
    let ghost source = schema_set.types.deep_view();
    let mut types = SetTypes::new();
    let mut i: usize = 0;
    while i < total
        invariant
            i <= total,
            total == source.len(),
            source == schema_set.types.deep_view(),
            names_distinct(source),
            types.deep_view() == spec_without_built_in_scalars(source, i as int),
        decreases total - i,
    {
        let entry = schema_set.types.at(i);
        if !is_plain_built_in_scalar(entry) {
            proof {
                lemma_without_built_in_scalars(source, i as int);
                if type_names(types.deep_view()).contains(source[i as int].name) {
                    let k = choose|k: int| 0 <= k < i && source[k].name == source[i as int].name;
                    assert(false);
                }
            }
            let (grown, _) = types.with(entry.duplicate());
            types = grown;
        }
        i += 1;
    }
    SchemaSet {
        root_schema: SetRootSchema {
            query_type: duplicate_name(&schema_set.root_schema.query_type),
            mutation_type: duplicate_name(&schema_set.root_schema.mutation_type),
            subscription_type: duplicate_name(&schema_set.root_schema.subscription_type),
        },
        directives,
        types,
    }
}

} // verus!
