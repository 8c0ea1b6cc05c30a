//! The description of an interface: a trait, its methods and their
//! arguments. A description is read, never changed, by what is generated
//! from it.

use crate::error::GenerationError;
use crate::generics::GenericParameterSet;
use vstd::prelude::*;
use vstd::string::StringExecFns;

verus! {

/// A wire format.
#[derive(Clone, Copy, Debug, PartialEq, Eq, Structural)]
pub enum SerializerType {
    /// The textual format: field names are on the wire.
    Json,
    /// The compact binary format: fields by position, no names on the wire.
    Borsh,
}

/// The format that a method declares for its input or for its output.
#[derive(Debug, PartialEq, Eq)]
pub enum FormatDeclaration {
    /// Nothing was declared: the textual format applies.
    Unspecified,
    /// A format was declared by name.
    Named(String),
}

/// The format that `declaration` stands for, if it stands for one.
///
/// A declaration by name is taken at its word: where the name is not that
/// of a format, no default takes its place.
pub open spec fn resolved_format(declaration: FormatDeclaration) -> Result<
    SerializerType,
    GenerationError,
> {
    match declaration {
        FormatDeclaration::Unspecified => Ok(SerializerType::Json),
        FormatDeclaration::Named(name) => if name@ == "json"@ {
            Ok(SerializerType::Json)
        } else if name@ == "borsh"@ {
            Ok(SerializerType::Borsh)
        } else {
            Err(GenerationError::MissingSerializerFormat)
        },
    }
}

impl FormatDeclaration {
    /// Resolves the declaration to a format.
    pub fn resolve(&self) -> (r: Result<SerializerType, GenerationError>)
        ensures
            r == resolved_format(*self),
    {
        match self {
            FormatDeclaration::Unspecified => Ok(SerializerType::Json),
            FormatDeclaration::Named(name) => {
                if *name == String::from_str("json") {
                    Ok(SerializerType::Json)
                } else if *name == String::from_str("borsh") {
                    Ok(SerializerType::Borsh)
                } else {
                    Err(GenerationError::MissingSerializerFormat)
                }
            },
        }
    }
}

/// What an attribute on an argument is for.
#[derive(Clone, Copy, Debug, PartialEq, Eq, Structural)]
pub enum AttributeRole {
    /// It belongs on the generated field and is copied there as written.
    Forwarded,
    /// It configures generation and goes no further.
    Configuration,
}

/// An attribute on an argument, as written.
#[derive(Debug, PartialEq, Eq)]
pub struct ArgumentAttribute {
    pub text: String,
    pub role: AttributeRole,
}

/// How an argument is bound in the method's signature.
#[derive(Debug, PartialEq, Eq)]
pub enum ArgumentPattern {
    /// By a plain name, which becomes the field's name.
    Identifier(String),
    /// By any other pattern, such as a destructured tuple, kept as written.
    Destructured(String),
}

/// Whether the method takes the argument itself or a reference to it.
#[derive(Clone, Copy, Debug, PartialEq, Eq, Structural)]
pub enum ArgumentPassing {
    ByValue,
    ByReference,
}

/// One argument of a method.
#[derive(Debug, PartialEq, Eq)]
pub struct ArgumentDescriptor {
    pub pattern: ArgumentPattern,
    pub ty: String,
    pub attributes: Vec<ArgumentAttribute>,
    pub passing: ArgumentPassing,
}

/// The texts of the attributes in `attributes` that are forwarded, in order.
pub open spec fn forwarded(attributes: Seq<ArgumentAttribute>) -> Seq<String> {
    attributes.filter(|a: ArgumentAttribute| a.role == AttributeRole::Forwarded).map_values(
        |a: ArgumentAttribute| a.text,
    )
}

impl ArgumentDescriptor {
    /// The attributes that go onto the generated field: those marked as
    /// forwarded, as written and in order. Attributes that configure
    /// generation are left out.
    pub fn forwarded_attributes(&self) -> (r: Vec<String>)
        ensures
            r@ == forwarded(self.attributes@),
    {
        let mut out: Vec<String> = Vec::new();
        let mut i: usize = 0;
        while i < self.attributes.len()
            invariant
                i <= self.attributes.len(),
                out@ == forwarded(self.attributes@.take(i as int)),
            decreases self.attributes.len() - i,
        {
            let ghost before = self.attributes@.take(i as int);
            let ghost after = self.attributes@.take(i as int + 1);
            assert(after.drop_last() == before);
            assert(after.last() == self.attributes@[i as int]);
            reveal_with_fuel(Seq::filter, 2);
            match self.attributes[i].role {
                AttributeRole::Forwarded => {
                    out.push(self.attributes[i].text.clone());
                },
                AttributeRole::Configuration => {},
            }
            assert(out@ == forwarded(after));
            i += 1;
        }
        assert(self.attributes@.take(self.attributes.len() as int) == self.attributes@);
        out
    }
}

/// One method of an interface.
#[derive(Debug, PartialEq, Eq)]
pub struct TraitItemMethodInfo {
    /// The method's name in the trait.
    pub name: String,
    /// The generic parameters declared on the method itself.
    pub generics: GenericParameterSet,
    /// The arguments after the receiver, in order.
    pub inputs: Vec<ArgumentDescriptor>,
    /// The return type; `None` where the method returns nothing.
    pub ret: Option<String>,
    /// The name under which the entry point is exported, where it is not
    /// the method's own.
    pub export_name: Option<String>,
    /// The format of the incoming payload.
    pub input_format: FormatDeclaration,
    /// The format of the outgoing payload.
    pub output_format: FormatDeclaration,
}

/// An interface: a trait and what its implementors must satisfy.
#[derive(Debug, PartialEq, Eq)]
pub struct ItemTraitInfo {
    /// The trait's name.
    pub name: String,
    /// The generic parameters declared on the trait.
    pub generics: GenericParameterSet,
    /// The methods of the trait, in order.
    pub methods: Vec<TraitItemMethodInfo>,
    /// What the trait demands of the implementing type, in order.
    pub self_bounds: Vec<String>,
}

} // verus!
