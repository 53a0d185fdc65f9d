use constructum::admission::Repository;
use constructum::repos::{
    list_git_repos, new_repository, reenabled, registration_for, soft_deleted, GiteaRepository, GiteaUser,
    Registration,
};

fn git(id: i32, name: &str) -> GiteaRepository {
    GiteaRepository {
        id,
        name: name.to_string(),
        description: String::new(),
        html_url: format!("https://git.example/o/{name}"),
        ssh_url: format!("git@git.example:o/{name}.git"),
        owner: GiteaUser { id: 1, login: "o".to_string() },
    }
}

#[test]
fn registration_decisions() {
    let r = new_repository(11, &git(42, "r"), 5);
    assert_eq!(r.external_id, 42);
    assert_eq!(r.owner, "o");
    assert_eq!(r.build_seq, 0);
    assert!(r.enabled);
    assert_eq!(registration_for(None), Registration::Register);
    assert_eq!(registration_for(Some(&r)), Registration::AlreadyRegistered);
    let d = soft_deleted(r);
    assert!(!d.enabled);
    assert_eq!(d.webhook_id, None);
    assert_eq!(registration_for(Some(&d)), Registration::Reenable(11));
    let e = reenabled(d, 8);
    assert!(e.enabled);
    assert_eq!(e.webhook_id, Some(8));
}

#[test]
fn listing_marks_known_repos() {
    let known: Vec<Repository> = vec![new_repository(11, &git(1, "a"), 5), soft_deleted(new_repository(12, &git(2, "b"), 6))];
    let listed = list_git_repos(&vec![git(1, "a"), git(2, "b"), git(3, "c")], &known);
    assert_eq!(listed.len(), 3);
    assert_eq!((listed[0].id, listed[0].is_registered), (Some(11), true));
    assert_eq!((listed[1].id, listed[1].is_registered), (Some(12), false));
    assert_eq!((listed[2].id, listed[2].is_registered), (None, false));
    assert_eq!(listed[2].name, "c");
}
