use vstd::prelude::*;
use crate::error::BuildError;

verus! {

#[verifier::external_type_specification]
#[verifier::external_body]
pub struct ExRootSchema(schemars::schema::RootSchema);

/// What a plugin's build is configured with: its command names and an
/// optional schema for its global scope.
pub struct Builder<'a> {
    pub commands: &'a [&'static str],
    pub global_scope_schema: Option<schemars::schema::RootSchema>,
}

/// The choices that shape one build: whether there are commands to generate
/// permissions for, and whether a global scope schema is to be emitted.
#[derive(Clone, Copy, Debug, PartialEq, Eq, Structural)]
pub struct BuildPlan {
    pub has_commands: bool,
    pub has_global_scope: bool,
}

impl<'a> Builder<'a> {
    /// A builder for the given commands, without a global scope schema.
    pub fn new(commands: &'a [&'static str]) -> (r: Self)
        ensures
            r.commands == commands,
            r.global_scope_schema is None,
    {
        Builder { commands, global_scope_schema: None }
    }

    /// Sets the global scope JSON schema.
    pub fn global_scope_schema(self, schema: schemars::schema::RootSchema) -> (r: Self)
        ensures
            r.commands == self.commands,
            r.global_scope_schema == Some(schema),
    {
        Builder { commands: self.commands, global_scope_schema: Some(schema) }
    }

    /// The plan of this builder's build.
    pub fn plan(&self) -> (r: BuildPlan)
        ensures
            r.has_commands == (self.commands@.len() > 0),
            r.has_global_scope == (self.global_scope_schema is Some),
    {
        BuildPlan {
            has_commands: self.commands.len() > 0,
            has_global_scope: self.global_scope_schema.is_some(),
        }
    }
}

/// Where a build stands.
#[derive(Clone, Debug)]
pub enum Stage {
    Configured,
    NameValidated,
    DirectoriesReady,
    CommandsAutogenerated,
    PermissionsLoaded,
    SchemasEmitted,
    DocsGenerated,
    GlobalScopeEmitted,
    MetadataProbed,
    Done,
    Failed(BuildError),
}

/// The work of one step of a build.
#[derive(Clone, Copy, Debug, PartialEq, Eq, Structural)]
pub enum Step {
    ValidateName,
    CreateDirectories,
    AutogenerateCommands,
    LoadPermissions,
    EmitSchema,
    WriteDocs,
    EmitGlobalScope,
    ProbeMetadata,
    Finish,
}

/// The step that follows a stage, or none once the build has ended.
pub open spec fn step_from(stage: Stage, plan: BuildPlan) -> Option<Step> {
    match stage {
        Stage::Configured => Some(Step::ValidateName),
        Stage::NameValidated => Some(Step::CreateDirectories),
        Stage::DirectoriesReady => if plan.has_commands {
            Some(Step::AutogenerateCommands)
        } else {
            Some(Step::LoadPermissions)
        },
        Stage::CommandsAutogenerated => Some(Step::LoadPermissions),
        Stage::PermissionsLoaded => Some(Step::EmitSchema),
        Stage::SchemasEmitted => Some(Step::WriteDocs),
        Stage::DocsGenerated => if plan.has_global_scope {
            Some(Step::EmitGlobalScope)
        } else {
            Some(Step::ProbeMetadata)
        },
        Stage::GlobalScopeEmitted => Some(Step::ProbeMetadata),
        Stage::MetadataProbed => Some(Step::Finish),
        Stage::Done => None,
        Stage::Failed(_) => None,
    }
}

/// The stage reached when a step succeeds.
pub open spec fn stage_after(step: Step) -> Stage {
    match step {
        Step::ValidateName => Stage::NameValidated,
        Step::CreateDirectories => Stage::DirectoriesReady,
        Step::AutogenerateCommands => Stage::CommandsAutogenerated,
        Step::LoadPermissions => Stage::PermissionsLoaded,
        Step::EmitSchema => Stage::SchemasEmitted,
        Step::WriteDocs => Stage::DocsGenerated,
        Step::EmitGlobalScope => Stage::GlobalScopeEmitted,
        Step::ProbeMetadata => Stage::MetadataProbed,
        Step::Finish => Stage::Done,
    }
}

/// The stage reached when a step ends with the given outcome.
pub open spec fn stage_on(step: Step, outcome: Result<(), BuildError>) -> Stage {
    match outcome {
        Ok(_) => stage_after(step),
        Err(e) => Stage::Failed(e),
    }
}

/// The step to perform next from a stage; `None` once the build is done or
/// has failed.
pub fn next_step(stage: &Stage, plan: BuildPlan) -> (r: Option<Step>)
    ensures
        r == step_from(*stage, plan),
{
    match stage {
        Stage::Configured => Some(Step::ValidateName),
        Stage::NameValidated => Some(Step::CreateDirectories),
        Stage::DirectoriesReady => if plan.has_commands {
            Some(Step::AutogenerateCommands)
        } else {
            Some(Step::LoadPermissions)
        },
        Stage::CommandsAutogenerated => Some(Step::LoadPermissions),
        Stage::PermissionsLoaded => Some(Step::EmitSchema),
        Stage::SchemasEmitted => Some(Step::WriteDocs),
        Stage::DocsGenerated => if plan.has_global_scope {
            Some(Step::EmitGlobalScope)
        } else {
            Some(Step::ProbeMetadata)
        },
        Stage::GlobalScopeEmitted => Some(Step::ProbeMetadata),
        Stage::MetadataProbed => Some(Step::Finish),
        Stage::Done => None,
        Stage::Failed(_) => None,
    }
}

/// The stage a build moves to once a step has ended: the step's own stage on
/// success, `Failed` with the error otherwise.
pub fn advance(step: Step, outcome: Result<(), BuildError>) -> (r: Stage)
    ensures
        r == stage_on(step, outcome),
{
    match outcome {
        Err(e) => Stage::Failed(e),
        Ok(()) => match step {
            Step::ValidateName => Stage::NameValidated,
            Step::CreateDirectories => Stage::DirectoriesReady,
            Step::AutogenerateCommands => Stage::CommandsAutogenerated,
            Step::LoadPermissions => Stage::PermissionsLoaded,
            Step::EmitSchema => Stage::SchemasEmitted,
            Step::WriteDocs => Stage::DocsGenerated,
            Step::EmitGlobalScope => Stage::GlobalScopeEmitted,
            Step::ProbeMetadata => Stage::MetadataProbed,
            Step::Finish => Stage::Done,
        },
    }
}

/// The process status a build ends with: 0 when done, 1 when failed, none
/// while it is still running.
pub fn exit_status(stage: &Stage) -> (r: Option<i32>)
    ensures
        r == match *stage {
            Stage::Done => Some(0i32),
            Stage::Failed(_) => Some(1i32),
            _ => None,
        },
{
    match stage {
        Stage::Done => Some(0),
        Stage::Failed(_) => Some(1),
        _ => None,
    }
}

/// The steps a build performs when every one of them succeeds, starting
/// from `stage` and taking at most `fuel` steps.
pub open spec fn successful_run(stage: Stage, plan: BuildPlan, fuel: nat) -> Seq<Step>
    decreases fuel,
{
    if fuel == 0 {
        Seq::empty()
    } else {
        match step_from(stage, plan) {
            Some(s) => seq![s] + successful_run(stage_after(s), plan, (fuel - 1) as nat),
            None => Seq::empty(),
        }
    }
}

/// The fixed order of a build's steps, with the two optional ones present
/// exactly when the plan asks for them.
pub open spec fn pipeline_order(plan: BuildPlan) -> Seq<Step> {
    seq![Step::ValidateName, Step::CreateDirectories]
        + (if plan.has_commands { seq![Step::AutogenerateCommands] } else { Seq::empty() })
        + seq![Step::LoadPermissions, Step::EmitSchema, Step::WriteDocs]
        + (if plan.has_global_scope { seq![Step::EmitGlobalScope] } else { Seq::empty() })
        + seq![Step::ProbeMetadata, Step::Finish]
}

/// A build in which every step succeeds performs the steps in the fixed
/// order, the optional ones exactly when planned, and then ends as done.
pub proof fn lemma_successful_build_order(plan: BuildPlan)
    ensures
        successful_run(Stage::Configured, plan, 11) == pipeline_order(plan),
{
    reveal_with_fuel(successful_run, 12);
    assert(successful_run(Stage::Configured, plan, 11) =~= pipeline_order(plan));
}

/// Without commands, no stage ever leads to generating command permissions.
pub proof fn lemma_no_commands_no_generation(stage: Stage, plan: BuildPlan)
    requires
        !plan.has_commands,
    ensures
        step_from(stage, plan) != Some(Step::AutogenerateCommands),
{
}

/// A failed build performs no further step, whatever it was planned to do.
pub proof fn lemma_failure_is_final(e: BuildError, plan: BuildPlan)
    ensures
        step_from(Stage::Failed(e), plan) is None,
{
}

/// A build whose first step fails performs that step alone: nothing is
/// created, generated or written.
pub proof fn lemma_first_failure_stops_all(e: BuildError, plan: BuildPlan, fuel: nat)
    ensures
        successful_run(stage_on(Step::ValidateName, Err(e)), plan, fuel) == Seq::<Step>::empty(),
{
    reveal_with_fuel(successful_run, 2);
}

} // verus!
