//! Generic parameters of a trait or a method, and how the two levels merge.

use crate::error::GenerationError;
use vstd::prelude::*;

verus! {

/// One generic parameter: its name, and what was declared of it.
///
/// For a lifetime or a type, `bound` is the bound expression, empty where none
/// was declared. For a const it is the declared type. A lifetime's name
/// carries its leading apostrophe, so that names are compared as written.
#[derive(Debug, PartialEq, Eq)]
pub struct GenericParameter {
    pub name: String,
    pub bound: String,
}

impl Clone for GenericParameter {
    fn clone(&self) -> (r: Self)
        ensures
            r == *self,
    {
        GenericParameter { name: self.name.clone(), bound: self.bound.clone() }
    }
}

/// The generic parameters declared at one level, each kind in declaration
/// order.
#[derive(Debug, PartialEq, Eq)]
pub struct GenericParameterSet {
    pub lifetimes: Vec<GenericParameter>,
    pub types: Vec<GenericParameter>,
    pub consts: Vec<GenericParameter>,
}

/// The names of `params`, in order.
pub open spec fn names_of(params: Seq<GenericParameter>) -> Seq<Seq<char>> {
    params.map_values(|p: GenericParameter| p.name@)
}

/// No name occurs twice in `names`.
pub open spec fn distinct(names: Seq<Seq<char>>) -> bool {
    forall|i: int, j: int| 0 <= i < j < names.len() ==> names[i] != names[j]
}

impl GenericParameterSet {
    /// All parameters of the set: lifetimes, then types, then consts.
    pub open spec fn all(self) -> Seq<GenericParameter> {
        self.lifetimes@ + self.types@ + self.consts@
    }

    /// The set names no parameter twice.
    pub open spec fn well_formed(self) -> bool {
        distinct(names_of(self.all()))
    }
}

/// The lifetimes of `outer`, the trait's parameters, merged with those of
/// `inner`, the method's: the trait's first, then the method's.
pub open spec fn merged_lifetimes(outer: GenericParameterSet, inner: GenericParameterSet) -> Seq<
    GenericParameter,
> {
    outer.lifetimes@ + inner.lifetimes@
}

/// The types of the trait and of the method, merged in the same way.
pub open spec fn merged_types(outer: GenericParameterSet, inner: GenericParameterSet) -> Seq<
    GenericParameter,
> {
    outer.types@ + inner.types@
}

/// The consts of the trait and of the method, merged in the same way.
pub open spec fn merged_consts(outer: GenericParameterSet, inner: GenericParameterSet) -> Seq<
    GenericParameter,
> {
    outer.consts@ + inner.consts@
}

/// Every parameter of the merged list, in its canonical order.
pub open spec fn merged_all(outer: GenericParameterSet, inner: GenericParameterSet) -> Seq<
    GenericParameter,
> {
    merged_lifetimes(outer, inner) + merged_types(outer, inner) + merged_consts(outer, inner)
}

/// Appends a copy of each parameter of `source` to `target`.
fn extend_parameters(target: &mut Vec<GenericParameter>, source: &Vec<GenericParameter>)
    ensures
        final(target)@ == old(target)@ + source@,
{
    let mut i: usize = 0;
    while i < source.len()
        invariant
            i <= source.len(),
            target@ == old(target)@ + source@.take(i as int),
        decreases source.len() - i,
    {
        target.push(source[i].clone());
        assert(source@.take(i as int + 1) == source@.take(i as int).push(source@[i as int]));
        i += 1;
    }
    assert(source@.take(source.len() as int) == source@);
}

/// Whether some name occurs twice among `params`.
fn has_duplicate_name(params: &Vec<GenericParameter>) -> (r: bool)
    ensures
        r == !distinct(names_of(params@)),
{
    let ghost names = names_of(params@);
    let mut j: usize = 0;
    while j < params.len()
        invariant
            j <= params.len(),
            names == names_of(params@),
            forall|a: int, b: int| 0 <= a < b < j ==> names[a] != names[b],
        decreases params.len() - j,
    {
        let mut i: usize = 0;
        while i < j
            invariant
                i <= j < params.len(),
                names == names_of(params@),
                forall|a: int| 0 <= a < i ==> names[a] != names[j as int],
            decreases j - i,
        {
            if params[i].name == params[j].name {
                assert(names[i as int] == names[j as int]);
                return true;
            }
            i += 1;
        }
        j += 1;
    }
    false
}

/// Merges the generic parameters of a trait with those of one of its
/// methods.
///
/// The merged set holds, for each kind, the trait's parameters followed by
/// the method's, each as declared. It is refused where a name would occur
/// twice in it, whatever the kinds of the two parameters.
pub fn merge_generics(outer: &GenericParameterSet, inner: &GenericParameterSet) -> (r: Result<
    GenericParameterSet,
    GenerationError,
>)
    ensures
        r is Ok <==> distinct(names_of(merged_all(*outer, *inner))),
        r matches Ok(m) ==> {
            &&& m.lifetimes@ == merged_lifetimes(*outer, *inner)
            &&& m.types@ == merged_types(*outer, *inner)
            &&& m.consts@ == merged_consts(*outer, *inner)
            &&& m.well_formed()
        },
        r matches Err(e) ==> e == GenerationError::DuplicateParameterName,
{
    let mut lifetimes: Vec<GenericParameter> = Vec::new();
    extend_parameters(&mut lifetimes, &outer.lifetimes);
    extend_parameters(&mut lifetimes, &inner.lifetimes);
    let mut types: Vec<GenericParameter> = Vec::new();
    extend_parameters(&mut types, &outer.types);
    extend_parameters(&mut types, &inner.types);
    let mut consts: Vec<GenericParameter> = Vec::new();
    extend_parameters(&mut consts, &outer.consts);
    extend_parameters(&mut consts, &inner.consts);

    let mut all: Vec<GenericParameter> = Vec::new();
    extend_parameters(&mut all, &lifetimes);
    extend_parameters(&mut all, &types);
    extend_parameters(&mut all, &consts);
    assert(all@ == merged_all(*outer, *inner));

    if has_duplicate_name(&all) {
        Err(GenerationError::DuplicateParameterName)
    } else {
        let m = GenericParameterSet { lifetimes, types, consts };
        assert(m.all() == merged_all(*outer, *inner));
        Ok(m)
    }
}

} // verus!
