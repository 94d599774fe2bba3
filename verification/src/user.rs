//! A sample domain object: a user with a tracked identifier, name and role.
//!
//! `User` shows how an object type ties the pieces together: a closed
//! field-identity set ([`UserFields`]), a per-identity encoding strategy (its
//! [`FieldParameter`] impl, exhaustive over the identity set), and an ordered
//! field enumeration that the command builder consumes.

use vstd::prelude::*;
use vstd::pervasive::unreached;

use crate::command::{CommandType, FieldEnumeration, FieldParameter, IdentifiableObject,
    ModifiableObject, Parameter};
use crate::field::{Field, FieldInner, IsEmpty};
use crate::version::{SoftwareVersion, VersionFilter};

verus! {

/// The closed field-identity set of [`User`]: one variant per field, so that
/// the encoding strategy must handle every field and adding a field is a
/// compile-time-checked obligation.
#[derive(Clone, Copy, Debug, PartialEq, Eq, Structural)]
pub enum UserFields {
    Id,
    Name,
    RoleId,
}

impl FieldParameter for UserFields {
    /// The identifier is immutable after creation: no command ever encodes
    /// it, so the mapping declares it out of scope rather than encode a
    /// default silently.
    open spec fn spec_parameter_defined(&self, command_type: CommandType) -> bool {
        !(*self is Id)
    }

    /// A name reset to empty becomes a flag, not a value parameter; any other
    /// change maps to the field's value parameter.
    open spec fn spec_parameter(&self, command_type: CommandType, value_is_empty: bool) -> Parameter {
        match self {
            UserFields::Id => arbitrary(),
            UserFields::Name => if value_is_empty {
                Parameter::Flag("-reset_name")
            } else {
                Parameter::Parameter("-set_name")
            },
            UserFields::RoleId => Parameter::Parameter("-set_roleid"),
        }
    }

    fn get_parameter<T: IsEmpty>(
        &self,
        command_type: CommandType,
        field: &FieldInner<T, UserFields>,
    ) -> (p: Parameter) {
        match self {
            UserFields::Id => unreached(),
            UserFields::Name => if field.value.is_empty() {
                Parameter::Flag("-reset_name")
            } else {
                Parameter::Parameter("-set_name")
            },
            UserFields::RoleId => Parameter::Parameter("-set_roleid"),
        }
    }
}

/// A user object with three tracked fields, in declaration order: the
/// identifier, the name, and the role identifier. The role identifier is
/// nominally available only from version 4.12 on.
pub struct User {
    pub id: Field<u32, UserFields>,
    pub name: Field<String, UserFields>,
    pub role_id: Field<u32, UserFields>,
}

impl Default for User {
    /// A fresh user: every field clean, the identifier and role zero, the
    /// name empty.
    fn default() -> (user: Self)
        ensures
            !user.id.spec_is_dirty(),
            !user.name.spec_is_dirty(),
            !user.role_id.spec_is_dirty(),
            user.id.spec_inner().value == 0u32,
            user.name.spec_inner().value@ == Seq::<char>::empty(),
            user.role_id.spec_inner().value == 0u32,
            user.id.spec_inner().field_identity == UserFields::Id,
            user.name.spec_inner().field_identity == UserFields::Name,
            user.role_id.spec_inner().field_identity == UserFields::RoleId,
            user.id.spec_inner().field_name == "id",
            user.name.spec_inner().field_name == "name",
            user.role_id.spec_inner().field_name == "role_id",
            user.id matches Field::Field(_),
            user.name matches Field::Field(_),
            user.role_id matches Field::VersionedField(_, filter)
                && filter == VersionFilter::MinVersion(SoftwareVersion { major: 4, minor: 12 }),
    {
        User {
            id: Field::new("id", UserFields::Id, 0),
            name: Field::new("name", UserFields::Name, String::new()),
            role_id: Field::new_versioned(
                "role_id",
                UserFields::RoleId,
                0,
                VersionFilter::min_version(SoftwareVersion::new(4, 12)),
            ),
        }
    }
}

impl IdentifiableObject for User {
    open spec fn spec_id(&self) -> u32 {
        self.id.spec_inner().value
    }

    fn get_id(&self) -> (id: u32) {
        *self.id.get()
    }
}

impl ModifiableObject for User {
    open spec fn spec_modify_command(&self) -> &'static str {
        "update_user"
    }

    fn get_modify_command(&self) -> (cmd: &'static str) {
        "update_user"
    }
}

impl FieldEnumeration for User {
    /// The identifier is immutable after creation: its mapping entry is out
    /// of scope, so the enumeration covers exactly the states where it is
    /// clean.
    open spec fn spec_fields_encodable(&self, command_type: CommandType) -> bool {
        !self.id.spec_is_dirty()
    }

    open spec fn spec_field_parameters(&self, command_type: CommandType) -> Seq<
        Option<Parameter>,
    > {
        seq![
            if self.id.spec_is_dirty() {
                Some(
                    UserFields::Id.spec_parameter(
                        command_type,
                        self.id.spec_inner().value.spec_is_empty(),
                    ),
                )
            } else {
                None
            },
            if self.name.spec_is_dirty() {
                Some(
                    UserFields::Name.spec_parameter(
                        command_type,
                        self.name.spec_inner().value.spec_is_empty(),
                    ),
                )
            } else {
                None
            },
            if self.role_id.spec_is_dirty() {
                Some(
                    UserFields::RoleId.spec_parameter(
                        command_type,
                        self.role_id.spec_inner().value.spec_is_empty(),
                    ),
                )
            } else {
                None
            },
        ]
    }

    fn field_parameters(&self, command_type: CommandType) -> (entries: Vec<Option<Parameter>>) {
        let mut entries: Vec<Option<Parameter>> = Vec::new();
        // the identifier is clean whenever the enumeration is in scope, so
        // its entry never carries an encoding
        entries.push(None);
        if self.name.is_dirty() {
            entries.push(Some(UserFields::Name.get_parameter(command_type, self.name.inner())));
        } else {
            entries.push(None);
        }
        if self.role_id.is_dirty() {
            entries.push(
                Some(UserFields::RoleId.get_parameter(command_type, self.role_id.inner())),
            );
        } else {
            entries.push(None);
        }
        proof {
            assert(entries@ =~= self.spec_field_parameters(command_type));
        }
        entries
    }
}

} // verus!
