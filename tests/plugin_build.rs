use plugin_build::docs::generate_docs;
use plugin_build::error::{failure_message, BuildError};
use plugin_build::naming::validate_plugin_name;
use plugin_build::permissions::{
    merge_permission_files, DefaultPermission, Permission, PermissionFile, PermissionSet,
};
use plugin_build::pipeline::{advance, exit_status, next_step, BuildPlan, Builder, Stage, Step};

fn set(id: &str, description: &str) -> PermissionSet {
    PermissionSet { identifier: id.to_string(), description: description.to_string() }
}

fn permission(id: &str, description: Option<&str>) -> Permission {
    Permission { identifier: id.to_string(), description: description.map(|d| d.to_string()) }
}

fn file(sets: Vec<PermissionSet>, permissions: Vec<Permission>) -> PermissionFile {
    PermissionFile { default: None, set: sets, permission: permissions }
}

/// Runs a build in which every step succeeds and returns the steps taken.
fn run_all_ok(plan: BuildPlan) -> (Vec<Step>, Stage) {
    let mut stage = Stage::Configured;
    let mut steps = Vec::new();
    while let Some(step) = next_step(&stage, plan) {
        steps.push(step);
        stage = advance(step, Ok(()));
    }
    (steps, stage)
}

#[test]
fn valid_name_is_returned_unchanged() {
    assert_eq!(validate_plugin_name("file-reader").unwrap(), "file-reader");
    assert_eq!(validate_plugin_name("").unwrap(), "");
    assert_eq!(validate_plugin_name("plugin9").unwrap(), "plugin9");
}

#[test]
fn names_with_underscore_are_refused() {
    for name in ["file_reader", "_", "a_", "_a", "a-b_c"] {
        assert!(matches!(validate_plugin_name(name), Err(BuildError::CrateName)), "{name}");
    }
}

#[test]
fn error_messages_name_the_input() {
    let e = BuildError::BuildVar("OUT_DIR".to_string());
    assert_eq!(
        e.message(),
        "expected build script env var OUT_DIR, but it was not found - ensure this is called in a build script"
    );
    assert_eq!(BuildError::CrateName.message(), "plugin names cannot contain underscores");
    assert_eq!(
        BuildError::Parse("permissions/a.toml".to_string()).message(),
        "failed to parse permission file 'permissions/a.toml'"
    );
    assert_eq!(
        BuildError::Validation("admin".to_string()).message(),
        "invalid or duplicate identifier `admin`"
    );
    assert_eq!(
        BuildError::WriteFile("out/reference.md".to_string()).message(),
        "failed to write file 'out/reference.md'"
    );
    assert_eq!(BuildError::Metadata("no cargo".to_string()).message(), "failed to execute: no cargo");
}

#[test]
fn docs_for_set_and_default() {
    let f = PermissionFile {
        default: Some(DefaultPermission { description: Some("no-op".to_string()) }),
        set: vec![set("read-files", "Allows reading files.")],
        permission: vec![],
    };
    assert_eq!(
        generate_docs(&vec![f]),
        "# Permissions\n\n## read-files\n\nAllows reading files.\n\n## default\n\nno-op\n\n"
    );
}

#[test]
fn docs_keep_collection_order_and_omit_missing_descriptions() {
    let a = PermissionFile {
        default: Some(DefaultPermission { description: None }),
        set: vec![set("zeta", "Z.")],
        permission: vec![permission("allow-b", Some("Allows b.")), permission("deny-b", None)],
    };
    let b = file(vec![set("alpha", "A.")], vec![]);
    assert_eq!(
        generate_docs(&vec![a, b]),
        "# Permissions\n\n## zeta\n\nZ.\n\n## default\n\n## allow-b\n\nAllows b.\n\n## deny-b\n\n## alpha\n\nA.\n\n"
    );
}

#[test]
fn docs_of_empty_collection() {
    assert_eq!(generate_docs(&vec![]), "# Permissions\n\n");
}

#[test]
fn shared_set_identifier_is_a_validation_error() {
    let a = file(vec![set("admin", "One.")], vec![]);
    let b = file(vec![set("admin", "Two.")], vec![]);
    match merge_permission_files(vec![a, b]) {
        Err(BuildError::Validation(id)) => assert_eq!(id, "admin"),
        other => panic!("unexpected {other:?}"),
    }
}

#[test]
fn shared_permission_identifier_is_a_validation_error() {
    let a = file(vec![], vec![permission("allow-x", None)]);
    let b = file(vec![], vec![permission("allow-x", Some("again"))]);
    match merge_permission_files(vec![a, b]) {
        Err(BuildError::Validation(id)) => assert_eq!(id, "allow-x"),
        other => panic!("unexpected {other:?}"),
    }
}

#[test]
fn empty_identifier_is_a_validation_error() {
    let a = file(vec![set("", "Nameless.")], vec![]);
    match merge_permission_files(vec![a]) {
        Err(BuildError::Validation(id)) => assert_eq!(id, ""),
        other => panic!("unexpected {other:?}"),
    }
}

#[test]
fn same_identifier_of_different_kinds_is_accepted() {
    let a = file(vec![set("x", "Set x.")], vec![permission("x", None)]);
    assert!(merge_permission_files(vec![a]).is_ok());
}

#[test]
fn disjoint_files_merge_in_order() {
    let a = file(vec![set("set-a", "One."), set("set-b", "Two.")], vec![permission("perm-a", None)]);
    let b = file(vec![set("set-c", "Three.")], vec![permission("perm-b", None)]);
    let merged = merge_permission_files(vec![a, b]).unwrap();
    let ids: Vec<&str> =
        merged.iter().flat_map(|f| f.set.iter().map(|s| s.identifier.as_str())).collect();
    assert_eq!(ids, vec!["set-a", "set-b", "set-c"]);
    assert_eq!(merged[1].permission[0].identifier, "perm-b");
}

#[test]
fn empty_collection_merges() {
    assert!(merge_permission_files(vec![]).unwrap().is_empty());
}

#[test]
fn successful_build_runs_every_step_in_order() {
    let plan = BuildPlan { has_commands: true, has_global_scope: true };
    let (steps, stage) = run_all_ok(plan);
    assert_eq!(
        steps,
        vec![
            Step::ValidateName,
            Step::CreateDirectories,
            Step::AutogenerateCommands,
            Step::LoadPermissions,
            Step::EmitSchema,
            Step::WriteDocs,
            Step::EmitGlobalScope,
            Step::ProbeMetadata,
            Step::Finish,
        ]
    );
    assert!(matches!(stage, Stage::Done));
    assert_eq!(exit_status(&stage), Some(0));
}

#[test]
fn no_commands_means_no_generation() {
    let plan = BuildPlan { has_commands: false, has_global_scope: false };
    let (steps, _) = run_all_ok(plan);
    assert!(!steps.contains(&Step::AutogenerateCommands));
    assert!(!steps.contains(&Step::EmitGlobalScope));
    assert_eq!(steps.len(), 7);
}

#[test]
fn builder_plan_follows_its_configuration() {
    let none: &[&'static str] = &[];
    assert_eq!(
        Builder::new(none).plan(),
        BuildPlan { has_commands: false, has_global_scope: false }
    );
    let b = Builder::new(&["read_file"]).global_scope_schema(schemars::schema::RootSchema::default());
    assert_eq!(b.commands, &["read_file"]);
    assert_eq!(b.plan(), BuildPlan { has_commands: true, has_global_scope: true });
}

#[test]
fn end_to_end_valid_plugin() {
    let name = validate_plugin_name("file-reader").unwrap();
    assert_eq!(name, "file-reader");
    let builder = Builder::new(&["read_file"]);
    let (steps, stage) = run_all_ok(builder.plan());
    assert!(steps.contains(&Step::AutogenerateCommands));
    assert_eq!(exit_status(&stage), Some(0));
    let generated = file(vec![set("allow-read-file", "Enables the read_file command.")], vec![]);
    let authored = file(vec![set("admin", "Everything.")], vec![]);
    let merged = merge_permission_files(vec![generated, authored]).unwrap();
    let ids: Vec<&str> =
        merged.iter().flat_map(|f| f.set.iter().map(|s| s.identifier.as_str())).collect();
    assert_eq!(ids, vec!["allow-read-file", "admin"]);
    let docs = generate_docs(&merged);
    assert!(docs.contains("## allow-read-file") && docs.contains("## admin"));
}

#[test]
fn end_to_end_invalid_plugin_name() {
    let plan = BuildPlan { has_commands: true, has_global_scope: false };
    let mut stage = Stage::Configured;
    let step = next_step(&stage, plan).unwrap();
    assert_eq!(step, Step::ValidateName);
    let outcome = validate_plugin_name("file_reader").map(|_| ());
    stage = advance(step, outcome);
    assert!(next_step(&stage, plan).is_none());
    assert_eq!(exit_status(&stage), Some(1));
    match stage {
        Stage::Failed(e) => {
            assert!(matches!(e, BuildError::CrateName));
            let line = failure_message("file_reader", &e);
            assert_eq!(line, "file_reader: plugin names cannot contain underscores");
        },
        other => panic!("unexpected {other:?}"),
    }
}

#[test]
fn unfinished_build_has_no_status() {
    assert_eq!(exit_status(&Stage::Configured), None);
    assert_eq!(exit_status(&Stage::PermissionsLoaded), None);
}
