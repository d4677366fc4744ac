//! A schema as a set of named types and directives that can be merged
//! with and taken out of one another.

use vstd::prelude::*;
use vstd::string::StringExecFns;
use crate::errors::duplicate_strings;
use crate::location::Location;
use crate::source::texts_equal;

verus! {

/// A scalar type of a schema set.
#[derive(Clone, Debug, PartialEq, Eq)]
pub struct SetScalar {
    pub name: String,
    /// The names of the directives on the type.
    pub directives: Vec<String>,
    /// Where the type is defined; nowhere for a type that is built in.
    pub definition: Option<Location>,
}

/// A type of a schema set that is no scalar.
#[derive(Clone, Debug, PartialEq, Eq)]
pub struct SetComposite {
    pub name: String,
    /// The names of the directives on the type.
    pub directives: Vec<String>,
    pub definition: Option<Location>,
}

/// A type of a schema set.
#[derive(Clone, Debug, PartialEq, Eq)]
pub enum SetType {
    Scalar(SetScalar),
    Enum(SetComposite),
    Object(SetComposite),
    Interface(SetComposite),
    Union(SetComposite),
    InputObject(SetComposite),
}

/// The kinds of types.
#[derive(Clone, Copy, Debug, PartialEq, Eq, Structural)]
pub enum SetTypeKind {
    Scalar,
    Enum,
    Object,
    Interface,
    Union,
    InputObject,
}

pub struct SetTypeView {
    pub kind: SetTypeKind,
    pub name: Seq<char>,
    pub directives: Seq<Seq<char>>,
    pub definition: Option<Location>,
}

impl DeepView for SetType {
    type V = SetTypeView;

    open spec fn deep_view(&self) -> SetTypeView {
        match self {
            SetType::Scalar(scalar) => SetTypeView {
                kind: SetTypeKind::Scalar,
                name: scalar.name@,
                directives: scalar.directives.deep_view(),
                definition: scalar.definition,
            },
            SetType::Enum(composite) => SetTypeView {
                kind: SetTypeKind::Enum,
                name: composite.name@,
                directives: composite.directives.deep_view(),
                definition: composite.definition,
            },
            SetType::Object(composite) => SetTypeView {
                kind: SetTypeKind::Object,
                name: composite.name@,
                directives: composite.directives.deep_view(),
                definition: composite.definition,
            },
            SetType::Interface(composite) => SetTypeView {
                kind: SetTypeKind::Interface,
                name: composite.name@,
                directives: composite.directives.deep_view(),
                definition: composite.definition,
            },
            SetType::Union(composite) => SetTypeView {
                kind: SetTypeKind::Union,
                name: composite.name@,
                directives: composite.directives.deep_view(),
                definition: composite.definition,
            },
            SetType::InputObject(composite) => SetTypeView {
                kind: SetTypeKind::InputObject,
                name: composite.name@,
                directives: composite.directives.deep_view(),
                definition: composite.definition,
            },
        }
    }
}

fn duplicate_composite(composite: &SetComposite) -> (copy: SetComposite)
    ensures
        copy.name@ == composite.name@,
        copy.directives.deep_view() == composite.directives.deep_view(),
        copy.definition == composite.definition,
{
    SetComposite {
        name: composite.name.clone(),
        directives: duplicate_strings(&composite.directives),
        definition: composite.definition,
    }
}

impl SetType {
    /// The name of the type.
    pub fn name(&self) -> (name: &String)
        ensures
            name@ == self.deep_view().name,
    {
        match self {
            SetType::Scalar(scalar) => &scalar.name,
            SetType::Enum(composite) => &composite.name,
            SetType::Object(composite) => &composite.name,
            SetType::Interface(composite) => &composite.name,
            SetType::Union(composite) => &composite.name,
            SetType::InputObject(composite) => &composite.name,
        }
    }

    /// A copy that stands for the same type.
    pub fn duplicate(&self) -> (copy: SetType)
        ensures
            copy.deep_view() == self.deep_view(),
    {
        match self {
            SetType::Scalar(scalar) => SetType::Scalar(
                SetScalar {
                    name: scalar.name.clone(),
                    directives: duplicate_strings(&scalar.directives),
                    definition: scalar.definition,
                },
            ),
            SetType::Enum(composite) => SetType::Enum(duplicate_composite(composite)),
            SetType::Object(composite) => SetType::Object(duplicate_composite(composite)),
            SetType::Interface(composite) => SetType::Interface(duplicate_composite(composite)),
            SetType::Union(composite) => SetType::Union(duplicate_composite(composite)),
            SetType::InputObject(composite) => SetType::InputObject(
                duplicate_composite(composite),
            ),
        }
    }
}

/// The names of types, in order.
pub open spec fn type_names(types: Seq<SetTypeView>) -> Seq<Seq<char>> {
    Seq::new(types.len(), |i: int| types[i].name)
}

/// No two types of the list have one name.
pub open spec fn names_distinct(types: Seq<SetTypeView>) -> bool {
    forall|i: int, j: int| 0 <= i < j < types.len() ==> types[i].name != types[j].name
}

/// The types of a schema set by name, in the order in which they came.
/// No two of them have one name.
#[derive(Debug, PartialEq, Eq)]
pub struct SetTypes {
    entries: Vec<SetType>,
}

impl DeepView for SetTypes {
    type V = Seq<SetTypeView>;

    closed spec fn deep_view(&self) -> Seq<SetTypeView> {
        self.entries.deep_view()
    }
}

impl SetTypes {
    #[verifier::type_invariant]
    spec fn well_formed(&self) -> bool {
        names_distinct(self.entries.deep_view())
    }

    /// No types.
    pub fn new() -> (types: SetTypes)
        ensures
            types.deep_view() == Seq::<SetTypeView>::empty(),
    {
        let entries: Vec<SetType> = Vec::new();
        proof {
            assert(entries.deep_view() =~= Seq::<SetTypeView>::empty());
        }
        SetTypes { entries }
    }

    /// The number of types. No two of them have one name.
    pub fn len(&self) -> (len: usize)
        ensures
            len == self.deep_view().len(),
            names_distinct(self.deep_view()),
    {
        proof {
            use_type_invariant(self);
        }
        self.entries.len()
    }

    pub fn is_empty(&self) -> (empty: bool)
        ensures
            empty == (self.deep_view().len() == 0),
    {
        self.entries.len() == 0
    }

    /// The place of the type named `name`.
    fn position(&self, name: &str) -> (at: Option<usize>)
        ensures
            match at {
                Some(at) => at < self.deep_view().len() && self.deep_view()[at as int].name
                    == name@,
                None => !type_names(self.deep_view()).contains(name@),
            },
    {
        let ghost views = self.entries.deep_view();
        let mut i: usize = 0;
        while i < self.entries.len()
            invariant
                i <= self.entries.len(),
                views == self.entries.deep_view(),
                forall|j: int| 0 <= j < i ==> views[j].name != name@,
            decreases self.entries.len() - i,
        {
            if texts_equal(self.entries[i].name().as_str(), name) {
                return Some(i);
            }
            i += 1;
        }
        proof {
            if type_names(views).contains(name@) {
                let at = choose|at: int|
                    0 <= at < type_names(views).len() && type_names(views)[at] == name@;
                assert(views[at].name == name@);
            }
        }
        None
    }

    /// Whether a type is named `name`.
    pub fn contains_key(&self, name: &str) -> (held: bool)
        ensures
            held == type_names(self.deep_view()).contains(name@),
    {
        match self.position(name) {
            Some(at) => {
                proof {
                    assert(type_names(self.deep_view())[at as int] == name@);
                }
                true
            },
            None => false,
        }
    }

    /// The type named `name`.
    pub fn get(&self, name: &str) -> (found: Option<&SetType>)
        ensures
            match found {
                Some(found) => found.deep_view().name == name@ && self.deep_view().contains(
                    found.deep_view(),
                ),
                None => !type_names(self.deep_view()).contains(name@),
            },
    {
        match self.position(name) {
            Some(at) => {
                proof {
                    assert(self.deep_view()[at as int] == self.entries[at as int].deep_view());
                }
                Some(&self.entries[at])
            },
            None => None,
        }
    }

    /// The type at place `index` of the order in which the types came.
    pub fn at(&self, index: usize) -> (entry: &SetType)
        requires
            index < self.deep_view().len(),
        ensures
            entry.deep_view() == self.deep_view()[index as int],
    {
        &self.entries[index]
    }

    /// The types with `entry` behind them, unless a type of its name is
    /// there already; and whether it was added.
    pub fn with(self, entry: SetType) -> (result: (SetTypes, bool))
        ensures
            result.1 == !type_names(self.deep_view()).contains(entry.deep_view().name),
            result.0.deep_view() == if result.1 {
                self.deep_view().push(entry.deep_view())
            } else {
                self.deep_view()
            },
    {
        proof {
            use_type_invariant(&self);
        }
        match self.position(entry.name().as_str()) {
            Some(at) => {
                proof {
                    assert(type_names(self.deep_view())[at as int] == entry.deep_view().name);
                }
                (self, false)
            },
            None => {
                let SetTypes { entries } = self;
                let mut entries = entries;
                let ghost before = entries;
                let ghost added = entry;
                entries.push(entry);
                proof {
                    crate::parser::lemma_deep_view_push(before, entries, added);
                    let views = entries.deep_view();
                    assert forall|i: int, j: int| 0 <= i < j < views.len() implies views[i].name
                        != views[j].name by {
                        if j == before.len() {
                            assert(type_names(before.deep_view())[i] == views[i].name);
                        }
                    }
                }
                (SetTypes { entries }, true)
            },
        }
    }
}

/// A directive definition of a schema set.
#[derive(Clone, Debug, PartialEq, Eq)]
pub struct SetDirective {
    pub name: String,
}

/// The types that queries, mutations and subscriptions start from.
#[derive(Clone, Debug, PartialEq, Eq)]
pub struct SetRootSchema {
    pub query_type: Option<String>,
    pub mutation_type: Option<String>,
    pub subscription_type: Option<String>,
}

/// A schema as a set of definitions.
#[derive(Debug, PartialEq, Eq)]
pub struct SchemaSet {
    pub root_schema: SetRootSchema,
    pub directives: Vec<SetDirective>,
    pub types: SetTypes,
}

impl SchemaSet {
    /// A schema set without root types, directives and types.
    pub fn new() -> (set: SchemaSet)
        ensures
            set.root_schema.query_type is None,
            set.root_schema.mutation_type is None,
            set.root_schema.subscription_type is None,
            set.directives@.len() == 0,
            set.types.deep_view() == Seq::<SetTypeView>::empty(),
    {
        SchemaSet {
            root_schema: SetRootSchema {
                query_type: None,
                mutation_type: None,
                subscription_type: None,
            },
            directives: Vec::new(),
            types: SetTypes::new(),
        }
    }

    /// Adds `entry` behind the types of the set, unless a type of its
    /// name is there already. Says whether it was added.
    pub fn add_type(&mut self, entry: SetType) -> (added: bool)
        ensures
            added == !type_names(old(self).types.deep_view()).contains(entry.deep_view().name),
            final(self).types.deep_view() == if added {
                old(self).types.deep_view().push(entry.deep_view())
            } else {
                old(self).types.deep_view()
            },
            final(self).root_schema == old(self).root_schema,
            final(self).directives == old(self).directives,
    {
        let mut types = SetTypes::new();
        std::mem::swap(&mut self.types, &mut types);
        let (mut types, added) = types.with(entry);
        std::mem::swap(&mut self.types, &mut types);
        added
    }
}

} // verus!

verus! {

/// The word that a type of the given kind is defined with.
pub open spec fn spec_kind_keyword(kind: SetTypeKind) -> Seq<char> {
    match kind {
        SetTypeKind::Scalar => "scalar"@,
        SetTypeKind::Enum => "enum"@,
        SetTypeKind::Object => "type"@,
        SetTypeKind::Interface => "interface"@,
        SetTypeKind::Union => "union"@,
        SetTypeKind::InputObject => "input"@,
    }
}

/// The first `count` of the directives `names`, each behind a space and
/// `@`.
pub open spec fn spec_directive_list(names: Seq<Seq<char>>, count: int) -> Seq<char>
    decreases count,
{
    if count <= 0 {
        Seq::empty()
    } else {
        spec_directive_list(names, count - 1) + " @"@ + names[count - 1]
    }
}

/// The line that declares a type: its keyword, its name and its
/// directives.
pub open spec fn spec_type_line(entry: SetTypeView) -> Seq<char> {
    spec_kind_keyword(entry.kind) + " "@ + entry.name + spec_directive_list(
        entry.directives,
        entry.directives.len() as int,
    ) + "\n"@
}

/// The lines that declare the first `count` of `types`.
pub open spec fn spec_type_lines(types: Seq<SetTypeView>, count: int) -> Seq<char>
    decreases count,
{
    if count <= 0 {
        Seq::empty()
    } else {
        spec_type_lines(types, count - 1) + spec_type_line(types[count - 1])
    }
}

impl SetType {
    pub fn kind(&self) -> (kind: SetTypeKind)
        ensures
            kind == self.deep_view().kind,
    {
        match self {
            SetType::Scalar(_) => SetTypeKind::Scalar,
            SetType::Enum(_) => SetTypeKind::Enum,
            SetType::Object(_) => SetTypeKind::Object,
            SetType::Interface(_) => SetTypeKind::Interface,
            SetType::Union(_) => SetTypeKind::Union,
            SetType::InputObject(_) => SetTypeKind::InputObject,
        }
    }

    /// The names of the directives on the type.
    pub fn directives(&self) -> (directives: &Vec<String>)
        ensures
            directives.deep_view() == self.deep_view().directives,
    {
        match self {
            SetType::Scalar(scalar) => &scalar.directives,
            SetType::Enum(composite) => &composite.directives,
            SetType::Object(composite) => &composite.directives,
            SetType::Interface(composite) => &composite.directives,
            SetType::Union(composite) => &composite.directives,
            SetType::InputObject(composite) => &composite.directives,
        }
    }

    /// The line that declares the type.
    pub fn to_sdl_definition(&self) -> (line: String)
        ensures
            line@ == spec_type_line(self.deep_view()),
    {
        let keyword = match self.kind() {
            SetTypeKind::Scalar => "scalar",
            SetTypeKind::Enum => "enum",
            SetTypeKind::Object => "type",
            SetTypeKind::Interface => "interface",
            SetTypeKind::Union => "union",
            SetTypeKind::InputObject => "input",
        };
        let mut line = String::from_str(keyword);
        line.append(" ");
        line.append(self.name().as_str());
        let directives = self.directives();
        let ghost head = line@;
        let ghost names = directives.deep_view();
        let mut i: usize = 0;
        proof {
            assert(head + spec_directive_list(names, 0) =~= head);
        }
        while i < directives.len()
            invariant
                i <= directives.len(),
                names == directives.deep_view(),
                line@ == head + spec_directive_list(names, i as int),
            decreases directives.len() - i,
        {
            let ghost before = line@;
            line.append(" @");
            line.append(directives[i].as_str());
            proof {
                assert(line@ =~= head + spec_directive_list(names, i as int + 1));
            }
            i += 1;
        }
        line.append("\n");
        line
    }
}

impl SchemaSet {
    /// The types of the set, one line each, in the order in which they
    /// came.
    pub fn to_sdl_definition(&self) -> (text: String)
        ensures
            text@ == spec_type_lines(
                self.types.deep_view(),
                self.types.deep_view().len() as int,
            ),
    {
        let mut text = String::new();
        let total = self.types.len();
        let mut i: usize = 0;
        while i < total
            invariant
                i <= total,
                total == self.types.deep_view().len(),
                text@ == spec_type_lines(self.types.deep_view(), i as int),
            decreases total - i,
        {
            let line = self.types.at(i).to_sdl_definition();
            text.append(line.as_str());
            i += 1;
        }
        text
    }
}

} // verus!
