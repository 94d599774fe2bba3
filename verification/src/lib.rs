//! Change tracking for the fields of domain objects.
//!
//! The library tracks mutable state on an object's fields — which fields have
//! changed since the last clear, and what each field's value was before the
//! first change — and derives from it a minimal modification command: the set
//! of fields that actually changed, encoded as command parameters for an
//! external update mechanism. Fields may carry a version filter restricting
//! their nominal availability to a range of software versions; the filter is
//! advisory, so a write outside the declared range still proceeds and only
//! reports the violation to the caller.

pub mod command;
pub mod field;
pub mod user;
pub mod version;

pub use crate::command::BuildResult;
pub use crate::command::CommandType;
pub use crate::command::FieldEnumeration;
pub use crate::command::FieldParameter;
pub use crate::command::IdentifiableObject;
pub use crate::command::ModifiableObject;
pub use crate::command::ModificationCommand;
pub use crate::command::Parameter;
pub use crate::command::build;
pub use crate::field::Field;
pub use crate::field::FieldInner;
pub use crate::field::IsEmpty;
pub use crate::user::User;
pub use crate::user::UserFields;
pub use crate::version::SoftwareVersion;
pub use crate::version::VersionFilter;
pub use crate::version::VersionSupport;
