//! The decision how the parameters of a method are handed to the binder, and
//! the expression that hands them over.

use vstd::prelude::*;
use vstd::string::*;
use crate::normalize::{canonical, canonical_name};
use crate::parser::{MapArgs, MapArgsView, Placeholder, PlaceholderView};

verus! {

/// The shape in which the parameters are handed over.
#[derive(Clone, Copy, Debug, PartialEq, Eq, Structural)]
pub enum Mapping {
    /// The one parameter itself.
    Direct,
    /// A tuple of the parameters.
    Positional,
    /// A tuple of the two parameters and an empty tuple behind them.
    PositionalPad,
    /// A tuple of pairs, each the canonical name of a parameter and the
    /// parameter.
    Named,
}

/// One element of a tuple that is handed over.
#[derive(Debug, PartialEq, Eq)]
pub enum Element {
    /// The parameter of this name.
    Value(String),
    /// The empty tuple.
    Unit,
    /// A canonical name, and the parameter that it binds.
    Named(String, String),
}

/// What an [`Element`] stands for in contracts.
pub enum ElementView {
    Value(Seq<char>),
    Unit,
    Named(Seq<char>, Seq<char>),
}

impl DeepView for Element {
    type V = ElementView;

    open spec fn deep_view(&self) -> ElementView {
        match self {
            Element::Value(name) => ElementView::Value(name@),
            Element::Unit => ElementView::Unit,
            Element::Named(canonical, name) => ElementView::Named(canonical@, name@),
        }
    }
}

/// The expression that is handed over.
#[derive(Debug, PartialEq, Eq)]
pub enum Output {
    /// The parameter of this name, not wrapped in anything.
    Bare(String),
    /// A tuple of these elements.
    Tuple(Vec<Element>),
}

/// What an [`Output`] stands for in contracts.
pub enum OutputView {
    Bare(Seq<char>),
    Tuple(Seq<ElementView>),
}

impl DeepView for Output {
    type V = OutputView;

    open spec fn deep_view(&self) -> OutputView {
        match self {
            Output::Bare(name) => OutputView::Bare(name@),
            Output::Tuple(elements) => OutputView::Tuple(elements.deep_view()),
        }
    }
}

/// The shape for a method that declares `declared` and a template that
/// refers to `references`. A single parameter is handed over as it is.
/// Otherwise the shape is positional where the template refers to each
/// parameter once and in the declared order, and named where it does not.
pub open spec fn decision(declared: Seq<Seq<char>>, references: Seq<Seq<char>>) -> Mapping {
    if declared.len() == 1 {
        Mapping::Direct
    } else if declared == references {
        if declared.len() == 2 {
            Mapping::PositionalPad
        } else {
            Mapping::Positional
        }
    } else {
        Mapping::Named
    }
}

/// The parameters as the elements of a positional tuple.
pub open spec fn values(declared: Seq<Seq<char>>) -> Seq<ElementView> {
    declared.map_values(|name: Seq<char>| ElementView::Value(name))
}

/// The parameters as the elements of a named tuple.
pub open spec fn pairs(declared: Seq<Seq<char>>) -> Seq<ElementView> {
    declared.map_values(|name: Seq<char>| ElementView::Named(canonical(name), name))
}

/// The expression for a method that declares `declared` and a template that
/// refers to `references`.
pub open spec fn output_of(declared: Seq<Seq<char>>, references: Seq<Seq<char>>) -> OutputView {
    match decision(declared, references) {
        Mapping::Direct => OutputView::Bare(declared[0]),
        Mapping::Positional => OutputView::Tuple(values(declared)),
        Mapping::PositionalPad => OutputView::Tuple(values(declared).push(ElementView::Unit)),
        Mapping::Named => OutputView::Tuple(pairs(declared)),
    }
}

impl MapArgsView {
    /// The shape for this invocation.
    pub open spec fn mapping(self) -> Mapping {
        decision(self.method_args, self.references())
    }

    /// The expression for this invocation.
    pub open spec fn output(self) -> OutputView {
        output_of(self.method_args, self.references())
    }
}

/// Whether the placeholders refer to exactly the declared names, in the
/// declared order.
fn same_names(declared: &Vec<String>, placeholders: &Vec<Placeholder>) -> (same: bool)
    ensures
        same == (declared.deep_view() == placeholders.deep_view().map_values(
            |p: PlaceholderView| p.name,
        )),
{
    let ghost names = declared.deep_view();
    let ghost references = placeholders.deep_view().map_values(|p: PlaceholderView| p.name);
    if declared.len() != placeholders.len() {
        assert(names.len() != references.len());
        return false;
    }
    let mut i: usize = 0;
    while i < declared.len()
        invariant
            i <= declared.len(),
            declared.len() == placeholders.len(),
            names == declared.deep_view(),
            references == placeholders.deep_view().map_values(|p: PlaceholderView| p.name),
            forall|j: int| 0 <= j < i ==> names[j] == references[j],
        decreases declared.len() - i,
    {
        if declared[i] != placeholders[i].name {
            assert(names[i as int] != references[i as int]);
            return false;
        }
        i += 1;
    }
    assert(names =~= references);
    true
}

impl MapArgs {
    /// Decides the shape in which the parameters are handed over.
    pub fn mapping(&self) -> (mapping: Mapping)
        ensures
            mapping == self.deep_view().mapping(),
    {
        if self.method_args.len() == 1 {
            Mapping::Direct
        } else if same_names(&self.method_args, &self.sql_args) {
            if self.method_args.len() == 2 {
                Mapping::PositionalPad
            } else {
                Mapping::Positional
            }
        } else {
            Mapping::Named
        }
    }

    /// The declared parameters as the elements of a positional tuple.
    fn values(&self) -> (elements: Vec<Element>)
        ensures
            elements.deep_view() == values(self.method_args.deep_view()),
    {
        let mut elements: Vec<Element> = Vec::new();
        let mut i: usize = 0;
        while i < self.method_args.len()
            invariant
                i <= self.method_args.len(),
                elements.deep_view() == values(self.method_args.deep_view()).take(i as int),
            decreases self.method_args.len() - i,
        {
            let ghost before = elements.deep_view();
            elements.push(Element::Value(self.method_args[i].clone()));
            assert(elements.deep_view() =~= before.push(
                ElementView::Value(self.method_args[i as int]@),
            ));
            i += 1;
            assert(elements.deep_view() =~= values(self.method_args.deep_view()).take(i as int));
        }
        assert(elements.deep_view() =~= values(self.method_args.deep_view()));
        elements
    }

    /// The declared parameters as the elements of a named tuple.
    fn pairs(&self) -> (elements: Vec<Element>)
        ensures
            elements.deep_view() == pairs(self.method_args.deep_view()),
    {
        let mut elements: Vec<Element> = Vec::new();
        let mut i: usize = 0;
        while i < self.method_args.len()
            invariant
                i <= self.method_args.len(),
                elements.deep_view() == pairs(self.method_args.deep_view()).take(i as int),
            decreases self.method_args.len() - i,
        {
            let ghost before = elements.deep_view();
            let name = self.method_args[i].clone();
            elements.push(Element::Named(canonical_name(name.as_str()), name));
            assert(elements.deep_view() =~= before.push(
                ElementView::Named(
                    canonical(self.method_args[i as int]@),
                    self.method_args[i as int]@,
                ),
            ));
            i += 1;
            assert(elements.deep_view() =~= pairs(self.method_args.deep_view()).take(i as int));
        }
        assert(elements.deep_view() =~= pairs(self.method_args.deep_view()));
        elements
    }

    /// Builds the expression that hands the parameters over.
    pub fn output(&self) -> (output: Output)
        ensures
            output.deep_view() == self.deep_view().output(),
    {
        match self.mapping() {
            Mapping::Direct => Output::Bare(self.method_args[0].clone()),
            Mapping::Positional => Output::Tuple(self.values()),
            Mapping::PositionalPad => {
                let mut elements = self.values();
                let ghost before = elements.deep_view();
                elements.push(Element::Unit);
                assert(elements.deep_view() =~= before.push(ElementView::Unit));
                Output::Tuple(elements)
            },
            Mapping::Named => Output::Tuple(self.pairs()),
        }
    }
}

/// A method with a single parameter hands over that parameter itself,
/// whatever the template refers to.
pub proof fn single_parameter_is_bare(declared: Seq<Seq<char>>, references: Seq<Seq<char>>)
    requires
        declared.len() == 1,
    ensures
        output_of(declared, references) == OutputView::Bare(declared[0]),
{
}

/// Where the template refers to each parameter once and in the declared
/// order, and the parameters are neither one nor two, the expression is a
/// tuple of just the parameters, in the declared order.
pub proof fn matching_references_give_values(
    declared: Seq<Seq<char>>,
    references: Seq<Seq<char>>,
)
    requires
        declared == references,
        declared.len() != 1,
        declared.len() != 2,
    ensures
        output_of(declared, references) matches OutputView::Tuple(elements) && {
            &&& elements.len() == declared.len()
            &&& forall|i: int|
                0 <= i < declared.len() ==> elements[i] == ElementView::Value(declared[i])
        },
{
}

/// Where the template refers to both of two parameters once and in the
/// declared order, the expression is a tuple of three: the two parameters and
/// the empty tuple.
pub proof fn two_matching_references_are_padded(
    declared: Seq<Seq<char>>,
    references: Seq<Seq<char>>,
)
    requires
        declared == references,
        declared.len() == 2,
    ensures
        output_of(declared, references) matches OutputView::Tuple(elements) && {
            &&& elements.len() == 3
            &&& elements[0] == ElementView::Value(declared[0])
            &&& elements[1] == ElementView::Value(declared[1])
            &&& elements[2] == ElementView::Unit
        },
{
}

/// Where the template repeats, leaves out or reorders parameters, and there
/// is more than one parameter or none, the expression is a tuple with one
/// pair for each parameter, in the declared order: its canonical name and the
/// parameter. Nothing else of the template shows in it.
pub proof fn differing_references_give_pairs(
    declared: Seq<Seq<char>>,
    references: Seq<Seq<char>>,
)
    requires
        declared != references,
        declared.len() != 1,
    ensures
        output_of(declared, references) matches OutputView::Tuple(elements) && {
            &&& elements.len() == declared.len()
            &&& forall|i: int|
                0 <= i < declared.len() ==> elements[i] == ElementView::Named(
                    canonical(declared[i]),
                    declared[i],
                )
        },
{
}

/// The binding modes of the placeholders have no part in the expression.
pub proof fn modes_do_not_matter(one: MapArgsView, other: MapArgsView)
    requires
        one.method_args == other.method_args,
        one.references() == other.references(),
    ensures
        one.output() == other.output(),
        one.mapping() == other.mapping(),
{
}

/// The canonical name in a pair depends on the spelling of the parameter
/// alone, not on where it is declared.
pub proof fn canonical_name_ignores_position(
    one: Seq<Seq<char>>,
    i: int,
    other: Seq<Seq<char>>,
    j: int,
)
    requires
        0 <= i < one.len(),
        0 <= j < other.len(),
        one[i] == other[j],
    ensures
        pairs(one)[i] == pairs(other)[j],
{
}

} // verus!
