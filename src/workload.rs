use vstd::prelude::*;
use crate::command::{shell_arguments, shell_invocation};
use crate::naming::{container_name, step_job_name};
use crate::pipeline::PipelineStep;
use crate::secrets::{
    build_step_secrets, resolve_requests, source_line, MaterializedSecret,
    MaterializedSecretConfig, PipelineExecError, SecretProblem, VaultAnnotations,
};

verus! {

/// Everything the cluster needs to run one step as a workload.
#[derive(Clone, Debug)]
pub struct PipelineJobConfig {
    /// Text of the pipeline identifier.
    pub pipeline: String,
    /// Normalised step name.
    pub step: String,
    /// Container image.
    pub container: String,
    /// Arguments of the step's shell.
    pub commands: Vec<String>,
    /// Working directory inside the scratch volume.
    pub pipeline_working_directory: String,
    /// Secret injection, when the step requests secrets.
    pub annotations: Option<VaultAnnotations>,
}

/// The lines the step's shell runs: one `source` line per injected secret,
/// then the step's own commands.
pub open spec fn step_script(step: PipelineStep, annotations: Option<VaultAnnotations>) -> Seq<Seq<char>> {
    let sources = match annotations {
        Some(a) => a.secrets@.map_values(|m: MaterializedSecret| source_line(m)),
        None => Seq::empty(),
    };
    sources + step.commands.deep_view()
}

impl PipelineJobConfig {
    /// Name of the step workload: `pipeline-<pipeline>-<step>`.
    pub fn job_name(&self) -> (r: String)
        ensures
            r@ == "pipeline-"@ + self.pipeline@ + "-"@ + self.step@,
    {
        step_job_name(self.pipeline.as_str(), self.step.as_str())
    }

    /// Name of the step's container: `<step>-container`.
    pub fn container_name(&self) -> (r: String)
        ensures
            r@ == self.step@ + "-container"@,
    {
        container_name(self.step.as_str())
    }

    /// The privileged service account that grants secret access, only when
    /// secrets are injected.
    pub fn service_account(&self) -> (r: Option<String>)
        ensures
            self.annotations is None ==> r is None,
            self.annotations is Some ==> (r matches Some(s) && s@ == "constructum-client-build"@),
    {
        match &self.annotations {
            Some(_) => Some(String::from_str("constructum-client-build")),
            None => None,
        }
    }
}

/// The workload of one step: its secrets resolved against the pipeline's,
/// and its shell arguments composed from the secrets' `source` lines and the
/// step's commands. Fails when the step requests an unknown secret.
pub fn step_job_config(
    pipeline: &str,
    step: &PipelineStep,
    working_directory: &str,
    secrets: &MaterializedSecretConfig,
) -> (r: Result<PipelineJobConfig, PipelineExecError>)
    ensures
        step.secrets is None ==> (r matches Ok(c) && c.annotations is None),
        step.secrets matches Some(reqs) ==> match resolve_requests(reqs@, secrets@) {
            None => r == Err::<PipelineJobConfig, PipelineExecError>(
                PipelineExecError::InvalidSecretConfiguration(SecretProblem::UnknownReference)),
            Some(found) => (r matches Ok(c) && c.annotations matches Some(a)
                && a.role@ == "constructum"@ && a.secrets@ == found),
        },
        r matches Ok(c) ==> {
            &&& c.pipeline@ == pipeline@
            &&& c.step == step.name
            &&& c.container == step.image
            &&& c.pipeline_working_directory@ == working_directory@
            &&& c.commands.deep_view() == shell_arguments(step_script(*step, c.annotations))
        },
{
    let annotations = match build_step_secrets(step, secrets) {
        Ok(a) => a,
        Err(e) => {
            return Err(e);
        },
    };
    let mut script: Vec<String> = match &annotations {
        Some(a) => a.to_source_commands(),
        None => Vec::new(),
    };
    let ghost sources = script.deep_view();
    proof {
        match &annotations {
            Some(a) => {
                assert(sources =~= a.secrets@.map_values(|m: MaterializedSecret| source_line(m)));
            },
            None => {
                assert(sources =~= Seq::<Seq<char>>::empty());
            },
        }
    }
    let mut i: usize = 0;
    while i < step.commands.len()
        invariant
            0 <= i <= step.commands.len(),
            script.deep_view() == sources + step.commands.deep_view().take(i as int),
        decreases step.commands.len() - i,
    {
        let c = step.commands[i].clone();
        let ghost before = script.deep_view();
        script.push(c);
        proof {
            assert(c@ == step.commands.deep_view()[i as int]);
            assert(script.deep_view() =~= before.push(c@));
            assert(script.deep_view() =~= sources + step.commands.deep_view().take(i + 1));
        }
        i = i + 1;
    }
    proof {
        assert(step.commands.deep_view().take(step.commands.len() as int) =~= step.commands.deep_view());
    }
    let argv = shell_invocation(script);
    Ok(PipelineJobConfig {
        pipeline: String::from_str(pipeline),
        step: step.name.clone(),
        container: step.image.clone(),
        commands: argv,
        pipeline_working_directory: String::from_str(working_directory),
        annotations,
    })
}


/// A workload's conditions, as (type, status) pairs, say it failed: one of
/// type `Failed` has status `True`.
pub open spec fn failed_by(conditions: Seq<(Seq<char>, Seq<char>)>) -> bool {
    exists|i: int| 0 <= i < conditions.len() && #[trigger] conditions[i] == ("Failed"@, "True"@)
}

/// Whether a workload's conditions say it failed; see `failed_by`.
pub fn job_failed_from(conditions: &Vec<(String, String)>) -> (r: bool)
    ensures
        r == failed_by(conditions.deep_view()),
{
    let ghost cs = conditions.deep_view();
    let failed = String::from_str("Failed");
    let truth = String::from_str("True");
    let mut i: usize = 0;
    while i < conditions.len()
        invariant
            0 <= i <= conditions.len(),
            cs == conditions.deep_view(),
            failed@ == "Failed"@,
            truth@ == "True"@,
            forall|k: int| 0 <= k < i ==> cs[k] != ("Failed"@, "True"@),
        decreases conditions.len() - i,
    {
        let c = &conditions[i];
        if c.0 == failed && c.1 == truth {
            assert(cs[i as int] == ("Failed"@, "True"@));
            return true;
        }
        i = i + 1;
    }
    false
}

} // verus!
