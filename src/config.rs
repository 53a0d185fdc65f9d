use vstd::prelude::*;

verus! {

/// Settings read from the environment.
#[derive(Clone, Debug)]
pub struct Config {
    pub sql_connection_url: String,
    pub s3_region: String,
    pub s3_endpoint: String,
    pub s3_bucket: String,
    pub redis_url: String,
    /// Image of the client workload.
    pub container_name: String,
    /// Workspace root on the server.
    pub build_cache_location: Option<String>,
    /// The pipeline a client process supervises.
    pub pipeline_uuid: Option<String>,
    /// Secret store; needed once a manifest uses secrets.
    pub vault_server: Option<String>,
    /// Git service; server only.
    pub git_server_url: Option<String>,
}

/// A setting that a process needs is absent.
#[derive(Clone, Copy, Debug, PartialEq, Eq, Structural)]
pub enum MissingSetting {
    GitServerUrl,
    BuildCacheLocation,
    PipelineUuid,
    VaultServer,
}

impl Config {
    /// The Git service URL and the workspace root that the server needs.
    pub fn server_settings(&self) -> (r: Result<(String, String), MissingSetting>)
        ensures
            self.git_server_url is None ==> r == Err::<(String, String), MissingSetting>(MissingSetting::GitServerUrl),
            self.git_server_url is Some && self.build_cache_location is None ==> r == Err::<(String, String), MissingSetting>(
                MissingSetting::BuildCacheLocation),
            self.git_server_url matches Some(g) ==> (self.build_cache_location matches Some(b) ==> r == Ok::<(String, String), MissingSetting>((g, b))),
    {
        match (&self.git_server_url, &self.build_cache_location) {
            (None, _) => Err(MissingSetting::GitServerUrl),
            (Some(_), None) => Err(MissingSetting::BuildCacheLocation),
            (Some(g), Some(b)) => Ok((g.clone(), b.clone())),
        }
    }

    /// The pipeline identifier text and the secret store URL that a client
    /// process needs.
    pub fn client_settings(&self) -> (r: Result<(String, String), MissingSetting>)
        ensures
            self.pipeline_uuid is None ==> r == Err::<(String, String), MissingSetting>(MissingSetting::PipelineUuid),
            self.pipeline_uuid is Some && self.vault_server is None ==> r == Err::<(String, String), MissingSetting>(
                MissingSetting::VaultServer),
            self.pipeline_uuid matches Some(p) ==> (self.vault_server matches Some(v) ==> r == Ok::<(String, String), MissingSetting>((p, v))),
    {
        match (&self.pipeline_uuid, &self.vault_server) {
            (None, _) => Err(MissingSetting::PipelineUuid),
            (Some(_), None) => Err(MissingSetting::VaultServer),
            (Some(p), Some(v)) => Ok((p.clone(), v.clone())),
        }
    }
}

} // verus!
