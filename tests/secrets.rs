use constructum::secrets::secret_template_text;
use constructum::pipeline::{
    Pipeline, PipelineImagePullPref, PipelineSecretConfig, PipelineStep, StepSecretConfig,
};
use constructum::secrets::{
    build_pipeline_secrets, build_step_secrets, build_vault_annotations, secret_locations,
    MaterializedSecret, MaterializedSecretConfig, PipelineExecError, SecretProblem,
};

fn decl(name: &str, location: &str, key: &str) -> PipelineSecretConfig {
    PipelineSecretConfig { name: name.to_string(), location: location.to_string(), key: key.to_string() }
}

fn step_with(requests: Option<Vec<&str>>) -> PipelineStep {
    PipelineStep {
        name: "build".to_string(),
        image: "img:1".to_string(),
        pull: PipelineImagePullPref::Always,
        commands: vec!["make".to_string()],
        secrets: requests.map(|r| {
            r.into_iter()
                .map(|n| StepSecretConfig { name: n.to_string(), var_name: n.to_uppercase() })
                .collect()
        }),
    }
}

fn keys(k: &[&str]) -> Vec<String> {
    k.iter().map(|s| s.to_string()).collect()
}

#[test]
fn duplicate_secret_names_are_rejected() {
    let p = Pipeline {
        version: 1,
        steps: vec![step_with(None)],
        secrets: Some(vec![decl("X", "p", "k1"), decl("X", "p", "k2")]),
    };
    let dup = PipelineExecError::InvalidSecretConfiguration(SecretProblem::Duplicate);
    assert_eq!(secret_locations(&p).unwrap_err(), dup);
    assert_eq!(build_pipeline_secrets(&p, &vec![keys(&["k1", "k2"]), keys(&["k1", "k2"])]).unwrap_err(), dup);
}

#[test]
fn unknown_step_reference_is_rejected() {
    let p = Pipeline {
        version: 1,
        steps: vec![step_with(Some(vec!["Y"]))],
        secrets: Some(vec![decl("X", "p", "k1")]),
    };
    assert_eq!(
        build_pipeline_secrets(&p, &vec![keys(&["k1"])]).unwrap_err(),
        PipelineExecError::InvalidSecretConfiguration(SecretProblem::UnknownReference)
    );
    let none_declared = Pipeline { version: 1, steps: vec![step_with(Some(vec!["Y"]))], secrets: None };
    assert_eq!(
        build_pipeline_secrets(&none_declared, &Vec::new()).unwrap_err(),
        PipelineExecError::InvalidSecretConfiguration(SecretProblem::UnknownReference)
    );
}

#[test]
fn missing_key_is_rejected() {
    let p = Pipeline { version: 1, steps: vec![step_with(None)], secrets: Some(vec![decl("X", "p", "k9")]) };
    let missing = PipelineExecError::InvalidSecretConfiguration(SecretProblem::Missing);
    assert_eq!(build_pipeline_secrets(&p, &vec![keys(&["k1"])]).unwrap_err(), missing);
    assert_eq!(build_pipeline_secrets(&p, &Vec::new()).unwrap_err(), missing);
}

#[test]
fn valid_secrets_are_materialized() {
    let p = Pipeline {
        version: 1,
        steps: vec![step_with(Some(vec!["db"]))],
        secrets: Some(vec![decl("db", "app/db", "password"), decl("api", "app/api", "token")]),
    };
    let locs = secret_locations(&p).unwrap();
    assert_eq!(locs, keys(&["app/db", "app/api"]));
    let cfg = build_pipeline_secrets(&p, &vec![keys(&["password"]), keys(&["token", "other"])]).unwrap();
    let s = cfg.secrets();
    assert_eq!(s.len(), 2);
    assert_eq!(s[0].object_name, "db");
    assert_eq!(s[0].secret_path, "app/db");
    assert_eq!(s[0].secret_key, "password");
    assert_eq!(s[1].object_name, "api");
}

#[test]
fn no_secrets_materialize_empty() {
    let p = Pipeline { version: 1, steps: vec![step_with(None)], secrets: None };
    assert!(secret_locations(&p).unwrap().is_empty());
    assert!(build_pipeline_secrets(&p, &Vec::new()).unwrap().secrets().is_empty());
}

#[test]
fn lookup_finds_last_declared() {
    let cfg = MaterializedSecretConfig::new(vec![
        MaterializedSecret::new("a".to_string(), "p1".to_string(), "k1".to_string()),
        MaterializedSecret::new("a".to_string(), "p2".to_string(), "k2".to_string()),
    ]);
    assert_eq!(cfg.lookup(&"a".to_string()).unwrap().secret_path, "p2");
    assert!(cfg.lookup(&"b".to_string()).is_none());
}

#[test]
fn step_secrets_resolve_in_request_order() {
    let cfg = MaterializedSecretConfig::new(vec![
        MaterializedSecret::new("a".to_string(), "pa".to_string(), "ka".to_string()),
        MaterializedSecret::new("b".to_string(), "pb".to_string(), "kb".to_string()),
    ]);
    assert!(build_step_secrets(&step_with(None), &cfg).unwrap().is_none());
    let ann = build_step_secrets(&step_with(Some(vec!["b", "a"])), &cfg).unwrap().unwrap();
    assert_eq!(ann.role, "constructum");
    assert_eq!(ann.secrets[0].object_name, "b");
    assert_eq!(ann.secrets[1].object_name, "a");
    assert_eq!(
        build_step_secrets(&step_with(Some(vec!["c"])), &cfg).unwrap_err(),
        PipelineExecError::InvalidSecretConfiguration(SecretProblem::UnknownReference)
    );
}

#[test]
fn source_commands_and_annotations() {
    let cfg = MaterializedSecretConfig::new(vec![MaterializedSecret::new(
        "db_pass".to_string(),
        "app/db".to_string(),
        "password".to_string(),
    )]);
    let ann = build_vault_annotations(cfg);
    assert_eq!(ann.to_source_commands(), vec![". /vault/secrets/db_pass".to_string()]);
    let entries = ann.annotation_entries();
    assert_eq!(entries.len(), 4);
    assert_eq!(entries[0], ("vault.hashicorp.com/agent-inject".to_string(), "true".to_string()));
    assert_eq!(entries[1], ("vault.hashicorp.com/role".to_string(), "constructum".to_string()));
    assert_eq!(entries[2], ("vault.hashicorp.com/agent-inject-secret-db_pass".to_string(), "app/db".to_string()));
    assert_eq!(entries[3].0, "vault.hashicorp.com/agent-inject-template-db_pass");
    assert_eq!(
        entries[3].1,
        "\n            {{ with secret \"constructum/app/db\" -}}\n                export DB_PASS=\"{{ .Data.data.password }}\"\n            {{- end }}"
    );
}

#[test]
fn template_text_exact() {
    assert_eq!(
        secret_template_text("p", "V", "k"),
        "\n            {{ with secret \"constructum/p\" -}}\n                export V=\"{{ .Data.data.k }}\"\n            {{- end }}"
    );
}
