use fieldtrack::{
    build, BuildResult, CommandType, Field, FieldInner, FieldParameter, Parameter,
    SoftwareVersion, User, UserFields, VersionFilter, VersionSupport,
};

fn current() -> SoftwareVersion {
    SoftwareVersion::new(3, 188)
}

#[test]
fn it_works() {
    let mut user: User = User::default();

    user.id.set(current(), 45);

    assert_eq!(*user.id.get(), 45);
}

#[test]
fn versions_order_by_minor_within_major() {
    let v1 = SoftwareVersion::new(2, 5);
    let v2 = SoftwareVersion::new(2, 9);
    assert!(v1 < v2);
    assert!(v2 > v1);
    assert_ne!(v1, v2);
}

#[test]
fn versions_order_by_major_first() {
    let v1 = SoftwareVersion::new(1, 200);
    let v2 = SoftwareVersion::new(2, 0);
    assert!(v1 < v2);
    assert!(v2 > v1);
    assert_eq!(SoftwareVersion::new(3, 7), SoftwareVersion::new(3, 7));
}

#[test]
fn fresh_field_is_clean() {
    let field: Field<u32, UserFields> = Field::new("count", UserFields::RoleId, 4);
    assert!(!field.is_dirty());
    assert_eq!(field.old_value(), None);
    assert_eq!(*field.get(), 4);
}

#[test]
fn old_value_is_the_first_pre_mutation_value() {
    let mut field: Field<u32, UserFields> = Field::new("count", UserFields::RoleId, 4);
    field.set(current(), 10);
    assert!(field.is_dirty());
    assert_eq!(field.old_value(), Some(&4));
    field.set(current(), 20);
    assert_eq!(field.old_value(), Some(&4));
    assert_eq!(*field.get(), 20);
}

#[test]
fn clear_dirty_always_cleans() {
    let mut field: Field<u32, UserFields> = Field::new("count", UserFields::RoleId, 4);
    field.clear_dirty();
    assert!(!field.is_dirty());
    assert_eq!(field.old_value(), None);
    field.set(current(), 10);
    field.clear_dirty();
    assert!(!field.is_dirty());
    assert_eq!(field.old_value(), None);
    assert_eq!(*field.get(), 10);
    field.set(current(), 11);
    assert_eq!(field.old_value(), Some(&10));
}

#[test]
fn min_version_filter_is_below_min_iff_version_is_below() {
    let filter = VersionFilter::min_version(SoftwareVersion::new(4, 12));
    assert_eq!(
        filter.applies_at(SoftwareVersion::new(4, 11)),
        VersionSupport::BelowMin
    );
    assert_eq!(
        filter.applies_at(SoftwareVersion::new(3, 200)),
        VersionSupport::BelowMin
    );
    assert_eq!(
        filter.applies_at(SoftwareVersion::new(4, 12)),
        VersionSupport::Supported
    );
    assert_eq!(
        filter.applies_at(SoftwareVersion::new(5, 0)),
        VersionSupport::Supported
    );
}

#[test]
fn max_version_filter_reports_above_max() {
    let filter = VersionFilter::max_version(SoftwareVersion::new(2, 3));
    assert_eq!(
        filter.applies_at(SoftwareVersion::new(2, 4)),
        VersionSupport::AboveMax
    );
    assert_eq!(
        filter.applies_at(SoftwareVersion::new(2, 3)),
        VersionSupport::Supported
    );
    assert_eq!(
        filter.applies_at(SoftwareVersion::new(1, 9)),
        VersionSupport::Supported
    );
}

#[test]
fn version_range_reports_the_violated_bound() {
    let filter = VersionFilter::version_range(SoftwareVersion::new(2, 0), SoftwareVersion::new(3, 5));
    assert_eq!(
        filter.applies_at(SoftwareVersion::new(1, 9)),
        VersionSupport::BelowMin
    );
    assert_eq!(
        filter.applies_at(SoftwareVersion::new(3, 6)),
        VersionSupport::AboveMax
    );
    assert_eq!(
        filter.applies_at(SoftwareVersion::new(2, 0)),
        VersionSupport::Supported
    );
    assert_eq!(
        filter.applies_at(SoftwareVersion::new(3, 5)),
        VersionSupport::Supported
    );
}

#[test]
fn changed_name_builds_a_set_name_command() {
    let mut user = User::default();
    user.name.set(current(), String::from("bob"));

    let result = build(&user, CommandType::Modify);
    match result {
        BuildResult::Command(command) => {
            assert_eq!(command.command_name, "update_user");
            assert_eq!(command.object_id, 0);
            assert_eq!(command.parameters, vec![Parameter::Parameter("-set_name")]);
        }
        BuildResult::NoChange => panic!("a changed name must yield a command"),
    }
}

#[test]
fn name_reset_to_empty_builds_a_reset_flag() {
    let mut user = User::default();
    user.name.set(current(), String::from("bob"));
    user.name.clear_dirty();

    user.name.set(current(), String::new());

    let result = build(&user, CommandType::Modify);
    match result {
        BuildResult::Command(command) => {
            assert_eq!(command.parameters, vec![Parameter::Flag("-reset_name")]);
        }
        BuildResult::NoChange => panic!("a reset name must yield a command"),
    }
}

#[test]
fn mutation_below_the_minimum_version_proceeds_with_a_report() {
    let mut user = User::default();
    let below = SoftwareVersion::new(4, 11);

    let support = user.role_id.set(below, 7);

    assert_eq!(support, VersionSupport::BelowMin);
    assert!(user.role_id.is_dirty());
    assert_eq!(*user.role_id.get(), 7);
    assert_eq!(user.role_id.old_value(), Some(&0));

    let supported = SoftwareVersion::new(4, 12);
    let mut other = User::default();
    assert_eq!(other.role_id.set(supported, 7), VersionSupport::Supported);
}

#[test]
fn no_dirty_fields_build_no_change() {
    let user = User::default();
    let result = build(&user, CommandType::Modify);
    assert!(matches!(result, BuildResult::NoChange));
}

#[test]
fn dirty_fields_keep_declaration_order() {
    let mut user = User::default();
    user.role_id.set(SoftwareVersion::new(4, 12), 3);
    user.name.set(current(), String::from("ada"));

    let result = build(&user, CommandType::Modify);
    match result {
        BuildResult::Command(command) => {
            assert_eq!(
                command.parameters,
                vec![
                    Parameter::Parameter("-set_name"),
                    Parameter::Parameter("-set_roleid"),
                ]
            );
        }
        BuildResult::NoChange => panic!("two changed fields must yield a command"),
    }
}

#[test]
fn create_commands_encode_changed_fields_too() {
    let mut user = User::default();
    user.role_id.set(SoftwareVersion::new(4, 12), 3);

    let result = build(&user, CommandType::Create);
    match result {
        BuildResult::Command(command) => {
            assert_eq!(command.parameters, vec![Parameter::Parameter("-set_roleid")]);
        }
        BuildResult::NoChange => panic!("a changed role must yield a command"),
    }
}

#[test]
fn get_parameter_encodes_by_identity_and_emptiness() {
    let named: FieldInner<String, UserFields> =
        FieldInner::new("name", UserFields::Name, String::from("bob"));
    assert_eq!(
        UserFields::Name.get_parameter(CommandType::Modify, &named),
        Parameter::Parameter("-set_name")
    );

    let cleared: FieldInner<String, UserFields> =
        FieldInner::new("name", UserFields::Name, String::new());
    assert_eq!(
        UserFields::Name.get_parameter(CommandType::Modify, &cleared),
        Parameter::Flag("-reset_name")
    );

    let role: FieldInner<u32, UserFields> = FieldInner::new("role_id", UserFields::RoleId, 9);
    assert_eq!(
        UserFields::RoleId.get_parameter(CommandType::Modify, &role),
        Parameter::Parameter("-set_roleid")
    );
}
