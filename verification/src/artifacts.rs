//! What is generated for one method: its argument type, its return type,
//! its binding, and what the dispatch implementation demands of the
//! receiver.

use crate::descriptor::{
    forwarded, resolved_format, ArgumentDescriptor, ArgumentPassing, ArgumentPattern,
    ItemTraitInfo, SerializerType, TraitItemMethodInfo,
};
use crate::generics::{merged_consts, merged_lifetimes, merged_types, GenericParameter};
use vstd::prelude::*;

verus! {

/// One parameter of a generated type.
#[derive(Debug, PartialEq, Eq)]
pub enum GeneratedParameter {
    /// A lifetime of the trait or of the method.
    Lifetime(GenericParameter),
    /// The type of the receiver, which every generated type leaves free.
    Receiver,
    /// A type parameter of the trait or of the method.
    Type(GenericParameter),
    /// A const parameter of the trait or of the method.
    Const(GenericParameter),
}

/// One marker of the ghost carrier. A marker mentions a parameter and holds
/// nothing at run time.
#[derive(Debug, PartialEq, Eq)]
pub enum PhantomMarker {
    Lifetime(String),
    Receiver,
    Type(String),
}

/// The zero-size field that mentions every lifetime and type parameter of a
/// generated type, used or not.
#[derive(Debug, PartialEq, Eq)]
pub struct GhostCarrier {
    pub markers: Vec<PhantomMarker>,
    /// The field is left out of the serialized form.
    pub skipped: bool,
    /// The field is filled in by default, so that no caller builds it.
    pub defaulted: bool,
}

/// A field of the argument type: one argument of the method.
#[derive(Debug, PartialEq, Eq)]
pub struct GeneratedField {
    pub attributes: Vec<String>,
    pub name: String,
    pub ty: String,
    pub passing: ArgumentPassing,
}

/// The container that an incoming payload is deserialized into.
#[derive(Debug, PartialEq, Eq)]
pub struct ArgsType {
    pub parameters: Vec<GeneratedParameter>,
    pub fields: Vec<GeneratedField>,
    pub carrier: GhostCarrier,
}

/// The container that is serialized into the outgoing payload. It wraps the
/// method's return type.
#[derive(Debug, PartialEq, Eq)]
pub struct ReturnType {
    pub parameters: Vec<GeneratedParameter>,
    /// The wrapped type; `None` stands for the unit type.
    pub value: Option<String>,
    pub carrier: GhostCarrier,
    /// The container serializes as the value it wraps and nothing else.
    pub transparent: bool,
}

/// The anchor of the dispatch implementation: the carrier by itself.
#[derive(Debug, PartialEq, Eq)]
pub struct BindingType {
    pub parameters: Vec<GeneratedParameter>,
    pub carrier: GhostCarrier,
}

/// That the receiver implements the interface, with these generic
/// arguments.
#[derive(Debug, PartialEq, Eq)]
pub struct Capability {
    pub interface: String,
    pub arguments: Vec<String>,
}

/// Everything that is generated for one method.
#[derive(Debug, PartialEq, Eq)]
pub struct GeneratedArtifactSet {
    /// The method, by its name in the trait.
    pub method: String,
    /// The name under which the entry point is exported.
    pub entry_point: String,
    pub args: ArgsType,
    pub ret: ReturnType,
    pub binding: BindingType,
    /// What the trait itself demands of the receiver.
    pub receiver_bounds: Vec<String>,
    /// That the receiver implements the trait.
    pub capability: Capability,
    /// Each generic parameter that has a bound, with it.
    pub parameter_bounds: Vec<GenericParameter>,
    pub input_format: SerializerType,
    pub output_format: SerializerType,
}

/// The parameter list that the three types generated for `method` share:
/// the lifetimes, the receiver, the types, the consts; within each kind the
/// trait's parameters before the method's.
pub open spec fn canonical_parameters(
    interface: ItemTraitInfo,
    method: TraitItemMethodInfo,
) -> Seq<GeneratedParameter> {
    merged_lifetimes(interface.generics, method.generics).map_values(
        |p: GenericParameter| GeneratedParameter::Lifetime(p),
    ) + seq![GeneratedParameter::Receiver] + merged_types(
        interface.generics,
        method.generics,
    ).map_values(|p: GenericParameter| GeneratedParameter::Type(p)) + merged_consts(
        interface.generics,
        method.generics,
    ).map_values(|p: GenericParameter| GeneratedParameter::Const(p))
}

/// The markers of the carrier: one for each lifetime, one for the receiver,
/// one for each type, in the order of the parameter list. A const parameter
/// needs none.
pub open spec fn carrier_markers(interface: ItemTraitInfo, method: TraitItemMethodInfo) -> Seq<
    PhantomMarker,
> {
    merged_lifetimes(interface.generics, method.generics).map_values(
        |p: GenericParameter| PhantomMarker::Lifetime(p.name),
    ) + seq![PhantomMarker::Receiver] + merged_types(
        interface.generics,
        method.generics,
    ).map_values(|p: GenericParameter| PhantomMarker::Type(p.name))
}

/// The marker that mentions `parameter`; a const parameter has none.
pub open spec fn marker_for(parameter: GeneratedParameter) -> Option<PhantomMarker> {
    match parameter {
        GeneratedParameter::Lifetime(p) => Some(PhantomMarker::Lifetime(p.name)),
        GeneratedParameter::Receiver => Some(PhantomMarker::Receiver),
        GeneratedParameter::Type(p) => Some(PhantomMarker::Type(p.name)),
        GeneratedParameter::Const(_) => None,
    }
}

/// The carrier mentions every parameter of the list that needs it, used
/// or not: marker after marker it follows the parameter list, up to the
/// consts, which come last and have no marker.
pub proof fn lemma_carrier_mentions_each_parameter(
    interface: ItemTraitInfo,
    method: TraitItemMethodInfo,
)
    ensures
        carrier_markers(interface, method).len() <= canonical_parameters(interface, method).len(),
        forall|i: int|
            0 <= i < carrier_markers(interface, method).len() ==> marker_for(
                #[trigger] canonical_parameters(interface, method)[i],
            ) == Some(carrier_markers(interface, method)[i]),
        forall|i: int|
            carrier_markers(interface, method).len() <= i < canonical_parameters(
                interface,
                method,
            ).len() ==> marker_for(#[trigger] canonical_parameters(interface, method)[i]) is None,
{
}

/// `carrier` is the carrier of the types generated for `method`: it has
/// the markers of the method, never reaches the wire, and is filled in by
/// default.
pub open spec fn is_carrier_of(
    carrier: GhostCarrier,
    interface: ItemTraitInfo,
    method: TraitItemMethodInfo,
) -> bool {
    &&& carrier.markers@ == carrier_markers(interface, method)
    &&& carrier.skipped
    &&& carrier.defaulted
}

/// The generic arguments with which the receiver implements the trait: the
/// trait's own parameters, by name.
pub open spec fn capability_arguments(interface: ItemTraitInfo) -> Seq<String> {
    interface.generics.all().map_values(|p: GenericParameter| p.name)
}

/// Whether a bound was declared for `p`.
pub open spec fn is_bounded(p: GenericParameter) -> bool {
    p.bound@.len() > 0
}

/// The lifetimes and types of the merged list that have a bound, in the
/// order of the list.
pub open spec fn bounded_parameters(interface: ItemTraitInfo, method: TraitItemMethodInfo) -> Seq<
    GenericParameter,
> {
    (merged_lifetimes(interface.generics, method.generics) + merged_types(
        interface.generics,
        method.generics,
    )).filter(|p: GenericParameter| is_bounded(p))
}

/// `field` is the field that stands for `argument`: its name and type as
/// written, its forwarded attributes, and how it is passed on.
pub open spec fn field_stands_for(field: GeneratedField, argument: ArgumentDescriptor) -> bool {
    &&& argument.pattern matches ArgumentPattern::Identifier(name)
    &&& field.name == name
    &&& field.ty == argument.ty
    &&& field.attributes@ == forwarded(argument.attributes@)
    &&& field.passing == argument.passing
}

/// `fields` holds one field for each of `arguments`, in order.
pub open spec fn fields_stand_for(
    fields: Seq<GeneratedField>,
    arguments: Seq<ArgumentDescriptor>,
) -> bool {
    &&& fields.len() == arguments.len()
    &&& forall|i: int| 0 <= i < fields.len() ==> field_stands_for(#[trigger] fields[i], arguments[i])
}

/// The name of the entry point: the export name where one was declared,
/// else the method's own.
pub open spec fn entry_point_name(method: TraitItemMethodInfo, method_name: Seq<char>) -> Seq<
    char,
> {
    match method.export_name {
        Some(name) => name@,
        None => method_name,
    }
}

impl GeneratedArtifactSet {
    /// The artifacts are those of `method`, named `method_name`, of
    /// `interface`.
    pub open spec fn describes(
        self,
        interface: ItemTraitInfo,
        method: TraitItemMethodInfo,
        method_name: Seq<char>,
    ) -> bool {
        &&& self.method@ == method_name
        &&& self.entry_point@ == entry_point_name(method, method_name)
        &&& self.args.parameters@ == canonical_parameters(interface, method)
        &&& self.ret.parameters@ == canonical_parameters(interface, method)
        &&& self.binding.parameters@ == canonical_parameters(interface, method)
        &&& is_carrier_of(self.args.carrier, interface, method)
        &&& is_carrier_of(self.ret.carrier, interface, method)
        &&& is_carrier_of(self.binding.carrier, interface, method)
        &&& fields_stand_for(self.args.fields@, method.inputs@)
        &&& self.ret.value == method.ret
        &&& self.ret.transparent
        &&& self.receiver_bounds@ == interface.self_bounds@
        &&& self.capability.interface == interface.name
        &&& self.capability.arguments@ == capability_arguments(interface)
        &&& self.parameter_bounds@ == bounded_parameters(interface, method)
        &&& Ok::<SerializerType, crate::error::GenerationError>(self.input_format)
            == resolved_format(method.input_format)
        &&& Ok::<SerializerType, crate::error::GenerationError>(self.output_format)
            == resolved_format(method.output_format)
    }
}

} // verus!
