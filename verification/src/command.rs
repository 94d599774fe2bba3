//! Assembly of modification commands.
//!
//! An object exposes its identity, its modify-command name, and an ordered
//! enumeration of its fields' encoded parameters; [`build`] retains the dirty
//! fields' encodings in declaration order and assembles them into a
//! [`ModificationCommand`], or reports [`BuildResult::NoChange`] when no field
//! changed — a zero-parameter command is never emitted, so "nothing changed"
//! can never be mistaken for "explicitly issue this command with no
//! arguments".

use vstd::prelude::*;

use crate::field::{FieldInner, IsEmpty};

verus! {

/// The kind of command being assembled.
#[derive(Clone, Copy, Debug, PartialEq, Eq, Structural)]
pub enum CommandType {
    Create,
    Modify,
    Delete,
}

/// An atomic unit of a command's external encoding: a named value parameter
/// or a bare flag. It carries no value payload in this layer.
#[derive(Clone, Copy, Debug, PartialEq, Eq)]
pub enum Parameter {
    Parameter(&'static str),
    Flag(&'static str),
}

/// The minimal representation of "what changed" on an object, destined for an
/// external update mechanism. Parameter order is significant: it equals the
/// field declaration order on the owning object.
#[derive(Debug, PartialEq, Eq)]
pub struct ModificationCommand {
    pub object_id: u32,
    pub command_name: &'static str,
    pub parameters: Vec<Parameter>,
}

/// The outcome of assembling a command: either a well-formed command with at
/// least one parameter, or an explicit report that nothing changed.
#[derive(Debug, PartialEq, Eq)]
pub enum BuildResult {
    Command(ModificationCommand),
    NoChange,
}

/// An object with a stable numeric identity.
pub trait IdentifiableObject {
    spec fn spec_id(&self) -> u32;

    fn get_id(&self) -> (id: u32)
        ensures
            id == self.spec_id(),
    ;
}

/// An object that can be the target of a modification command.
pub trait ModifiableObject: IdentifiableObject {
    spec fn spec_modify_command(&self) -> &'static str;

    fn get_modify_command(&self) -> (cmd: &'static str)
        ensures
            cmd == self.spec_modify_command(),
    ;
}

/// The per-object-type encoding strategy: a field-identity type implements it
/// to convert a changed field into its external parameter encoding. This is
/// the sole extensibility point for domain-specific encoding rules.
///
/// An implementation must be exhaustive over the identity set it owns; a
/// combination it declares out of scope (`spec_parameter_defined` false, e.g.
/// an identifier field that is immutable after creation) is a programming
/// error to reach, so `get_parameter` excludes it rather than encode a
/// default silently.
pub trait FieldParameter: Sized {
    /// Which (identity, command kind) combinations the mapping covers.
    spec fn spec_parameter_defined(&self, command_type: CommandType) -> bool;

    /// The encoding of a covered combination. The only part of a field's
    /// state an encoding may turn on is whether the new value is empty.
    spec fn spec_parameter(&self, command_type: CommandType, value_is_empty: bool) -> Parameter;

    fn get_parameter<T: IsEmpty>(
        &self,
        command_type: CommandType,
        field: &FieldInner<T, Self>,
    ) -> (p: Parameter)
        requires
            self.spec_parameter_defined(command_type),
        ensures
            p == self.spec_parameter(command_type, field.value.spec_is_empty()),
    ;
}

/// The field enumeration capability: an object type exposes, in field
/// declaration order, one entry per field — the encoded parameter of a dirty
/// field, `None` for a clean one.
pub trait FieldEnumeration {
    /// Whether the object's mapping covers every dirty field for this command
    /// kind; enumerating a state it does not cover would reach code the
    /// mapping declares unreachable.
    spec fn spec_fields_encodable(&self, command_type: CommandType) -> bool;

    /// One entry per field in declaration order.
    spec fn spec_field_parameters(&self, command_type: CommandType) -> Seq<Option<Parameter>>;

    fn field_parameters(&self, command_type: CommandType) -> (entries: Vec<Option<Parameter>>)
        requires
            self.spec_fields_encodable(command_type),
        ensures
            entries@ == self.spec_field_parameters(command_type),
    ;
}

/// The parameters of the dirty fields, in declaration order: the enumeration
/// entries with the clean fields' `None` entries dropped.
pub open spec fn retained_parameters(entries: Seq<Option<Parameter>>) -> Seq<Parameter>
    decreases entries.len(),
{
    if entries.len() == 0 {
        Seq::empty()
    } else {
        let rest = retained_parameters(entries.drop_last());
        match entries.last() {
            Some(p) => rest.push(p),
            None => rest,
        }
    }
}

/// Assembles the modification command for `object`: enumerates its fields in
/// declaration order, retains the dirty ones' encodings, and returns either a
/// command carrying them — with the object's identity and modify-command
/// name — or `NoChange` when no field is dirty. Never a command with an empty
/// parameter list.
pub fn build<O: ModifiableObject + FieldEnumeration>(object: &O, command_type: CommandType) -> (r:
    BuildResult)
    requires
        object.spec_fields_encodable(command_type),
    ensures
        ({
            let params = retained_parameters(object.spec_field_parameters(command_type));
            &&& params.len() == 0 ==> r == BuildResult::NoChange
            &&& params.len() > 0 ==> (r matches BuildResult::Command(c)
                && c.object_id == object.spec_id()
                && c.command_name == object.spec_modify_command()
                && c.parameters@ == params)
        }),
{
    let entries = object.field_parameters(command_type);
    let mut parameters: Vec<Parameter> = Vec::new();
    let mut i: usize = 0;
    while i < entries.len()
        invariant
            i <= entries.len(),
            entries@ == object.spec_field_parameters(command_type),
            parameters@ == retained_parameters(entries@.take(i as int)),
        decreases entries.len() - i,
    {
        if let Some(p) = &entries[i] {
            parameters.push(*p);
        }
        proof {
            assert(entries@.take(i + 1 as int).drop_last() =~= entries@.take(i as int));
            assert(entries@.take(i + 1 as int).last() == entries@[i as int]);
        }
        i = i + 1;
    }
    proof {
        assert(entries@.take(entries@.len() as int) =~= entries@);
    }
    if parameters.len() == 0 {
        BuildResult::NoChange
    } else {
        BuildResult::Command(ModificationCommand {
            object_id: object.get_id(),
            command_name: object.get_modify_command(),
            parameters,
        })
    }
}

} // verus!
