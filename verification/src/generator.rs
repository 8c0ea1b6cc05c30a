//! The stub generator: from the description of one method to the types
//! generated for it.

use crate::artifacts::{
    bounded_parameters, capability_arguments, field_stands_for, fields_stand_for, is_bounded,
    ArgsType, BindingType, Capability, GeneratedArtifactSet, GeneratedField, GeneratedParameter,
    GhostCarrier, PhantomMarker, ReturnType,
};
use crate::descriptor::{
    resolved_format, ArgumentDescriptor, ArgumentPattern, ItemTraitInfo, TraitItemMethodInfo,
};
use crate::error::GenerationError;
use crate::generics::{
    distinct, merge_generics, merged_all, names_of, GenericParameter, GenericParameterSet,
};
use vstd::prelude::*;
use vstd::string::StringExecFns;

verus! {

/// Every argument is bound by a plain name.
pub open spec fn liftable(arguments: Seq<ArgumentDescriptor>) -> bool {
    forall|i: int|
        0 <= i < arguments.len() ==> (#[trigger] arguments[i]).pattern is Identifier
}

/// Why nothing is generated for `method` of `interface`, if anything stands
/// in the way. A name that occurs twice is found before a pattern that
/// cannot be lifted, and that before an unknown format.
pub open spec fn generation_failure(
    interface: ItemTraitInfo,
    method: TraitItemMethodInfo,
) -> Option<GenerationError> {
    if !distinct(names_of(merged_all(interface.generics, method.generics))) {
        Some(GenerationError::DuplicateParameterName)
    } else if !liftable(method.inputs@) {
        Some(GenerationError::UnsupportedArgumentPattern)
    } else if resolved_format(method.input_format) is Err || resolved_format(
        method.output_format,
    ) is Err {
        Some(GenerationError::MissingSerializerFormat)
    } else {
        None
    }
}

/// `r` is what generation gives for `method` of `interface` under the name
/// `method_name`: the artifacts of the method, or the reason why there are
/// none.
pub open spec fn generated(
    interface: ItemTraitInfo,
    method: TraitItemMethodInfo,
    method_name: Seq<char>,
    r: Result<GeneratedArtifactSet, GenerationError>,
) -> bool {
    match r {
        Ok(artifacts) => {
            &&& generation_failure(interface, method) is None
            &&& artifacts.describes(interface, method, method_name)
        },
        Err(e) => generation_failure(interface, method) == Some(e),
    }
}

/// The fields `first` and `second` hold the same: name, type, attributes
/// and passing, field by field.
pub open spec fn same_fields(first: Seq<GeneratedField>, second: Seq<GeneratedField>) -> bool {
    &&& first.len() == second.len()
    &&& forall|i: int|
        0 <= i < first.len() ==> {
            &&& (#[trigger] first[i]).name == second[i].name
            &&& first[i].ty == second[i].ty
            &&& first[i].attributes@ == second[i].attributes@
            &&& first[i].passing == second[i].passing
        }
}

/// The carriers `first` and `second` hold the same.
pub open spec fn same_carrier(first: GhostCarrier, second: GhostCarrier) -> bool {
    &&& first.markers@ == second.markers@
    &&& first.skipped == second.skipped
    &&& first.defaulted == second.defaulted
}

/// The artifacts `first` and `second` hold the same in every part.
pub open spec fn same_artifacts(first: GeneratedArtifactSet, second: GeneratedArtifactSet) -> bool {
    &&& first.method@ == second.method@
    &&& first.entry_point@ == second.entry_point@
    &&& first.args.parameters@ == second.args.parameters@
    &&& first.ret.parameters@ == second.ret.parameters@
    &&& first.binding.parameters@ == second.binding.parameters@
    &&& same_carrier(first.args.carrier, second.args.carrier)
    &&& same_carrier(first.ret.carrier, second.ret.carrier)
    &&& same_carrier(first.binding.carrier, second.binding.carrier)
    &&& same_fields(first.args.fields@, second.args.fields@)
    &&& first.ret.value == second.ret.value
    &&& first.ret.transparent == second.ret.transparent
    &&& first.receiver_bounds@ == second.receiver_bounds@
    &&& first.capability.interface == second.capability.interface
    &&& first.capability.arguments@ == second.capability.arguments@
    &&& first.parameter_bounds@ == second.parameter_bounds@
    &&& first.input_format == second.input_format
    &&& first.output_format == second.output_format
}

/// Generation is deterministic: for the same descriptions it fails for
/// the same reason, or gives artifacts that hold the same.
pub proof fn lemma_generation_is_deterministic(
    interface: ItemTraitInfo,
    method: TraitItemMethodInfo,
    method_name: Seq<char>,
    first: Result<GeneratedArtifactSet, GenerationError>,
    second: Result<GeneratedArtifactSet, GenerationError>,
)
    requires
        generated(interface, method, method_name, first),
        generated(interface, method, method_name, second),
    ensures
        match (first, second) {
            (Ok(a), Ok(b)) => same_artifacts(a, b),
            (Err(e), Err(f)) => e == f,
            _ => false,
        },
{
    match (first, second) {
        (Ok(a), Ok(b)) => {
            assert forall|i: int| 0 <= i < a.args.fields@.len() implies {
                &&& (#[trigger] a.args.fields@[i]).name == b.args.fields@[i].name
                &&& a.args.fields@[i].ty == b.args.fields@[i].ty
                &&& a.args.fields@[i].attributes@ == b.args.fields@[i].attributes@
                &&& a.args.fields@[i].passing == b.args.fields@[i].passing
            } by {
                assert(field_stands_for(a.args.fields@[i], method.inputs@[i]));
                assert(field_stands_for(b.args.fields@[i], method.inputs@[i]));
            }
        },
        _ => {},
    }
}

/// The kinds of parameter that a declaration gives rise to.
enum DeclaredKind {
    Lifetime,
    Type,
    Const,
}

spec fn parameter_of(kind: DeclaredKind, p: GenericParameter) -> GeneratedParameter {
    match kind {
        DeclaredKind::Lifetime => GeneratedParameter::Lifetime(p),
        DeclaredKind::Type => GeneratedParameter::Type(p),
        DeclaredKind::Const => GeneratedParameter::Const(p),
    }
}

spec fn marker_of(kind: DeclaredKind, p: GenericParameter) -> PhantomMarker {
    match kind {
        DeclaredKind::Lifetime => PhantomMarker::Lifetime(p.name),
        _ => PhantomMarker::Type(p.name),
    }
}

/// Appends to `out` the parameter of kind `kind` for each of `declared`.
fn push_parameters(
    out: &mut Vec<GeneratedParameter>,
    declared: &Vec<GenericParameter>,
    kind: DeclaredKind,
)
    ensures
        final(out)@ == old(out)@ + declared@.map_values(
            |p: GenericParameter| parameter_of(kind, p),
        ),
{
    let mut i: usize = 0;
    while i < declared.len()
        invariant
            i <= declared.len(),
            out@ == old(out)@ + declared@.take(i as int).map_values(
                |p: GenericParameter| parameter_of(kind, p),
            ),
        decreases declared.len() - i,
    {
        let p = declared[i].clone();
        let generated = match kind {
            DeclaredKind::Lifetime => GeneratedParameter::Lifetime(p),
            DeclaredKind::Type => GeneratedParameter::Type(p),
            DeclaredKind::Const => GeneratedParameter::Const(p),
        };
        out.push(generated);
        assert(declared@.take(i as int + 1).map_values(
            |p: GenericParameter| parameter_of(kind, p),
        ) == declared@.take(i as int).map_values(
            |p: GenericParameter| parameter_of(kind, p),
        ).push(parameter_of(kind, declared@[i as int])));
        i += 1;
    }
    assert(declared@.take(declared.len() as int) == declared@);
}

/// Appends to `out` the marker for each of `declared`, which are lifetimes
/// or types as `kind` says.
fn push_markers(out: &mut Vec<PhantomMarker>, declared: &Vec<GenericParameter>, kind: DeclaredKind)
    ensures
        final(out)@ == old(out)@ + declared@.map_values(|p: GenericParameter| marker_of(kind, p)),
{
    let mut i: usize = 0;
    while i < declared.len()
        invariant
            i <= declared.len(),
            out@ == old(out)@ + declared@.take(i as int).map_values(
                |p: GenericParameter| marker_of(kind, p),
            ),
        decreases declared.len() - i,
    {
        let name = declared[i].name.clone();
        let marker = match kind {
            DeclaredKind::Lifetime => PhantomMarker::Lifetime(name),
            _ => PhantomMarker::Type(name),
        };
        out.push(marker);
        assert(declared@.take(i as int + 1).map_values(|p: GenericParameter| marker_of(kind, p))
            == declared@.take(i as int).map_values(|p: GenericParameter| marker_of(kind, p)).push(
            marker_of(kind, declared@[i as int]),
        ));
        i += 1;
    }
    assert(declared@.take(declared.len() as int) == declared@);
}

/// Appends to `out` the name of each of `declared`.
fn push_names(out: &mut Vec<String>, declared: &Vec<GenericParameter>)
    ensures
        final(out)@ == old(out)@ + declared@.map_values(|p: GenericParameter| p.name),
{
    let mut i: usize = 0;
    while i < declared.len()
        invariant
            i <= declared.len(),
            out@ == old(out)@ + declared@.take(i as int).map_values(|p: GenericParameter| p.name),
        decreases declared.len() - i,
    {
        out.push(declared[i].name.clone());
        assert(declared@.take(i as int + 1).map_values(|p: GenericParameter| p.name)
            == declared@.take(i as int).map_values(|p: GenericParameter| p.name).push(
            declared@[i as int].name,
        ));
        i += 1;
    }
    assert(declared@.take(declared.len() as int) == declared@);
}

/// Appends to `out` each of `declared` that has a bound.
fn push_bounded(out: &mut Vec<GenericParameter>, declared: &Vec<GenericParameter>)
    ensures
        final(out)@ == old(out)@ + declared@.filter(|p: GenericParameter| is_bounded(p)),
{
    let mut i: usize = 0;
    while i < declared.len()
        invariant
            i <= declared.len(),
            out@ == old(out)@ + declared@.take(i as int).filter(
                |p: GenericParameter| is_bounded(p),
            ),
        decreases declared.len() - i,
    {
        let ghost before = declared@.take(i as int);
        let ghost after = declared@.take(i as int + 1);
        assert(after.drop_last() == before);
        assert(after.last() == declared@[i as int]);
        reveal_with_fuel(Seq::filter, 2);
        if !declared[i].bound.as_str().is_empty() {
            out.push(declared[i].clone());
        }
        assert(out@ == old(out)@ + after.filter(|p: GenericParameter| is_bounded(p)));
        i += 1;
    }
    assert(declared@.take(declared.len() as int) == declared@);
}

/// The parameter list of a generated type over the merged parameters.
fn parameter_list(merged: &GenericParameterSet) -> (r: Vec<GeneratedParameter>)
    ensures
        r@ == merged.lifetimes@.map_values(|p: GenericParameter| GeneratedParameter::Lifetime(p))
            + seq![GeneratedParameter::Receiver] + merged.types@.map_values(
            |p: GenericParameter| GeneratedParameter::Type(p),
        ) + merged.consts@.map_values(|p: GenericParameter| GeneratedParameter::Const(p)),
{
    let mut out: Vec<GeneratedParameter> = Vec::new();
    push_parameters(&mut out, &merged.lifetimes, DeclaredKind::Lifetime);
    out.push(GeneratedParameter::Receiver);
    push_parameters(&mut out, &merged.types, DeclaredKind::Type);
    push_parameters(&mut out, &merged.consts, DeclaredKind::Const);
    assert(merged.lifetimes@.map_values(|p: GenericParameter| GeneratedParameter::Lifetime(p))
        == merged.lifetimes@.map_values(
        |p: GenericParameter| parameter_of(DeclaredKind::Lifetime, p),
    ));
    assert(merged.types@.map_values(|p: GenericParameter| GeneratedParameter::Type(p))
        == merged.types@.map_values(|p: GenericParameter| parameter_of(DeclaredKind::Type, p)));
    assert(merged.consts@.map_values(|p: GenericParameter| GeneratedParameter::Const(p))
        == merged.consts@.map_values(|p: GenericParameter| parameter_of(DeclaredKind::Const, p)));
    out
}

/// The ghost carrier of a generated type over the merged parameters.
fn ghost_carrier(merged: &GenericParameterSet) -> (r: GhostCarrier)
    ensures
        r.skipped,
        r.defaulted,
        r.markers@ == merged.lifetimes@.map_values(
            |p: GenericParameter| PhantomMarker::Lifetime(p.name),
        ) + seq![PhantomMarker::Receiver] + merged.types@.map_values(
            |p: GenericParameter| PhantomMarker::Type(p.name),
        ),
{
    let mut markers: Vec<PhantomMarker> = Vec::new();
    push_markers(&mut markers, &merged.lifetimes, DeclaredKind::Lifetime);
    markers.push(PhantomMarker::Receiver);
    push_markers(&mut markers, &merged.types, DeclaredKind::Type);
    assert(merged.lifetimes@.map_values(|p: GenericParameter| PhantomMarker::Lifetime(p.name))
        == merged.lifetimes@.map_values(|p: GenericParameter| marker_of(DeclaredKind::Lifetime, p)));
    assert(merged.types@.map_values(|p: GenericParameter| PhantomMarker::Type(p.name))
        == merged.types@.map_values(|p: GenericParameter| marker_of(DeclaredKind::Type, p)));
    GhostCarrier { markers, skipped: true, defaulted: true }
}

/// The fields of the argument type, one for each argument, or the refusal
/// of an argument that is not bound by a plain name.
fn argument_fields(arguments: &Vec<ArgumentDescriptor>) -> (r: Result<
    Vec<GeneratedField>,
    GenerationError,
>)
    ensures
        r is Ok <==> liftable(arguments@),
        r matches Ok(fields) ==> fields_stand_for(fields@, arguments@),
        r matches Err(e) ==> e == GenerationError::UnsupportedArgumentPattern,
{
    let mut fields: Vec<GeneratedField> = Vec::new();
    let mut i: usize = 0;
    while i < arguments.len()
        invariant
            i <= arguments.len(),
            fields.len() == i,
            forall|k: int| 0 <= k < i ==> field_stands_for(#[trigger] fields@[k], arguments@[k]),
            forall|k: int| 0 <= k < i ==> (#[trigger] arguments@[k]).pattern is Identifier,
        decreases arguments.len() - i,
    {
        let argument = &arguments[i];
        match &argument.pattern {
            ArgumentPattern::Identifier(name) => {
                fields.push(
                    GeneratedField {
                        attributes: argument.forwarded_attributes(),
                        name: name.clone(),
                        ty: argument.ty.clone(),
                        passing: argument.passing,
                    },
                );
            },
            ArgumentPattern::Destructured(_) => {
                assert(!(arguments@[i as int].pattern is Identifier));
                return Err(GenerationError::UnsupportedArgumentPattern);
            },
        }
        i += 1;
    }
    Ok(fields)
}

impl TraitItemMethodInfo {
    /// Generates the argument type, the return type and the binding of this
    /// method of `trait_info`, which the trait names
    /// `original_method_name`.
    ///
    /// The three types share one parameter list, and one carrier that
    /// mentions each of its lifetimes and types. Nothing of the
    /// descriptions is changed, and the same descriptions give the same
    /// artifacts. Where generation fails, nothing is generated for the
    /// method.
    pub fn method_wrapper(
        &self,
        original_method_name: &str,
        trait_info: &ItemTraitInfo,
    ) -> (r: Result<GeneratedArtifactSet, GenerationError>)
        ensures
            generated(*trait_info, *self, original_method_name@, r),
            r matches Ok(artifacts) ==> {
                &&& artifacts.args.parameters@ == artifacts.ret.parameters@
                &&& artifacts.ret.parameters@ == artifacts.binding.parameters@
                &&& artifacts.args.carrier.markers@ == artifacts.ret.carrier.markers@
                &&& artifacts.ret.carrier.markers@ == artifacts.binding.carrier.markers@
            },
    {
        let merged = match merge_generics(&trait_info.generics, &self.generics) {
            Ok(merged) => merged,
            Err(e) => {
                return Err(e);
            },
        };
        let fields = match argument_fields(&self.inputs) {
            Ok(fields) => fields,
            Err(e) => {
                return Err(e);
            },
        };
        let input_format = match self.input_format.resolve() {
            Ok(format) => format,
            Err(e) => {
                return Err(e);
            },
        };
        let output_format = match self.output_format.resolve() {
            Ok(format) => format,
            Err(e) => {
                return Err(e);
            },
        };

        let mut receiver_bounds: Vec<String> = Vec::new();
        let mut i: usize = 0;
        while i < trait_info.self_bounds.len()
            invariant
                i <= trait_info.self_bounds.len(),
                receiver_bounds@ == trait_info.self_bounds@.take(i as int),
            decreases trait_info.self_bounds.len() - i,
        {
            receiver_bounds.push(trait_info.self_bounds[i].clone());
            assert(trait_info.self_bounds@.take(i as int + 1) == trait_info.self_bounds@.take(
                i as int,
            ).push(trait_info.self_bounds@[i as int]));
            i += 1;
        }
        assert(trait_info.self_bounds@.take(trait_info.self_bounds.len() as int)
            == trait_info.self_bounds@);

        let mut arguments: Vec<String> = Vec::new();
        push_names(&mut arguments, &trait_info.generics.lifetimes);
        push_names(&mut arguments, &trait_info.generics.types);
        push_names(&mut arguments, &trait_info.generics.consts);
        assert(arguments@ == capability_arguments(*trait_info));

        let mut parameter_bounds: Vec<GenericParameter> = Vec::new();
        push_bounded(&mut parameter_bounds, &merged.lifetimes);
        push_bounded(&mut parameter_bounds, &merged.types);
        proof {
            let keep = |p: GenericParameter| is_bounded(p);
            Seq::filter_distributes_over_add(merged.lifetimes@, merged.types@, keep);
        }
        assert(parameter_bounds@ == bounded_parameters(*trait_info, *self));

        let entry_point = match &self.export_name {
            Some(name) => name.clone(),
            None => String::from_str(original_method_name),
        };

        Ok(
            GeneratedArtifactSet {
                method: String::from_str(original_method_name),
                entry_point,
                args: ArgsType {
                    parameters: parameter_list(&merged),
                    fields,
                    carrier: ghost_carrier(&merged),
                },
                ret: ReturnType {
                    parameters: parameter_list(&merged),
                    value: match &self.ret {
                        Some(ty) => Some(ty.clone()),
                        None => None,
                    },
                    carrier: ghost_carrier(&merged),
                    transparent: true,
                },
                binding: BindingType {
                    parameters: parameter_list(&merged),
                    carrier: ghost_carrier(&merged),
                },
                receiver_bounds,
                capability: Capability { interface: trait_info.name.clone(), arguments },
                parameter_bounds,
                input_format,
                output_format,
            },
        )
    }
}

impl ItemTraitInfo {
    /// Generates the artifacts of every method of the trait, each under
    /// its own name and in the order of the methods. A method for which
    /// generation fails has its failure in its place, and takes nothing
    /// from the others.
    pub fn method_wrappers(&self) -> (r: Vec<Result<GeneratedArtifactSet, GenerationError>>)
        ensures
            r@.len() == self.methods@.len(),
            forall|i: int|
                0 <= i < r@.len() ==> generated(
                    *self,
                    self.methods@[i],
                    self.methods@[i].name@,
                    #[trigger] r@[i],
                ),
    {
        let mut out: Vec<Result<GeneratedArtifactSet, GenerationError>> = Vec::new();
        let mut i: usize = 0;
        while i < self.methods.len()
            invariant
                i <= self.methods.len(),
                out@.len() == i,
                forall|k: int|
                    0 <= k < i ==> generated(
                        *self,
                        self.methods@[k],
                        self.methods@[k].name@,
                        #[trigger] out@[k],
                    ),
            decreases self.methods.len() - i,
        {
            let method = &self.methods[i];
            out.push(method.method_wrapper(method.name.as_str(), self));
            i += 1;
        }
        out
    }
}

} // verus!
