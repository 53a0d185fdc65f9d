use constructum::naming::{
    archive_key, client_job_name, container_name, create_done, delete_done, job_pods_selector,
    log_cache_key, pipeline_label, pipeline_volume_selector, pod_template_name, pvc_name, step_job_name,
    client_workload_name, volume_name, volume_selector,
};

const ID: u128 = 0x67e55044_10b1_426f_9247_bb680e5fe0c8;

#[test]
fn uuid_text_is_hyphenated() {
    assert_eq!(pipeline_label(ID), "67e55044-10b1-426f-9247-bb680e5fe0c8");
}

#[test]
fn resource_names() {
    assert_eq!(pvc_name(ID), "pipeline-67e55044-10b1-426f-9247-bb680e5fe0c8-pvc");
    assert_eq!(client_job_name(ID), "pipeline-67e55044-10b1-426f-9247-bb680e5fe0c8-client");
    assert_eq!(pipeline_volume_selector(ID), "constructum-pipeline=67e55044-10b1-426f-9247-bb680e5fe0c8");
    assert_eq!(step_job_name("P", "build"), "pipeline-P-build");
    assert_eq!(container_name("build"), "build-container");
    assert_eq!(pod_template_name("pipeline-P-build"), "pipeline-P-build-pod");
    assert_eq!(log_cache_key("pipeline-P-build", "build"), "job:pipeline-P-build:step:build");
    assert_eq!(archive_key("pod-1", "pipeline-P-build"), "pod-1-pipeline-P-build.txt");
    assert_eq!(job_pods_selector("pipeline-P-build"), "job-name=pipeline-P-build");
}

#[test]
fn recreation_by_name_is_stable() {
    assert_eq!(pvc_name(ID), pvc_name(ID));
    assert_eq!(client_job_name(ID), client_job_name(ID));
    assert!(create_done(201));
    assert!(create_done(409));
    assert!(!create_done(500));
    assert!(delete_done(404));
    assert!(delete_done(200));
    assert!(!delete_done(409));
}

#[test]
fn names_from_label_text() {
    assert_eq!(volume_name("abc"), "pipeline-abc-pvc");
    assert_eq!(client_workload_name("abc"), "pipeline-abc-client");
    assert_eq!(volume_selector("abc"), "constructum-pipeline=abc");
}
