use gitlab_cli::api::{
    create_branch_request, get_merge_request_request, get_project_request, list_branch_request,
    list_merge_requests_request, list_project_request, CreateBranch, ListBranch, ListProject, Method,
};
use gitlab_cli::cli::{plan, Action, Branch, Config, MergeRequest, Project, Reply, Step};
use gitlab_cli::config::{Configator, GitlabConfig};
use gitlab_cli::gitlab::{config_file_path, create_config};

fn config() -> GitlabConfig {
    GitlabConfig { url: "https://gitlab.com".to_string(), token: "tok".to_string() }
}

fn pairs(q: &[(String, String)]) -> Vec<(&str, &str)> {
    q.iter().map(|(a, b)| (a.as_str(), b.as_str())).collect()
}

#[test]
fn list_project_request_searches() {
    let r = list_project_request(&config(), ListProject { search: "123".to_string() });
    assert_eq!(r.method, Method::Get);
    assert_eq!(r.url, "https://gitlab.com/api/v4/projects");
    assert_eq!(r.token, "tok");
    assert_eq!(pairs(&r.query), vec![("search", "123")]);
}

#[test]
fn get_project_request_url() {
    let r = get_project_request(&config(), 38276649);
    assert_eq!(r.url, "https://gitlab.com/api/v4/projects/38276649");
    assert!(r.query.is_empty());
}

#[test]
fn branch_requests() {
    let l = list_branch_request(&config(), ListBranch { id: 38276649, search: String::new() });
    assert_eq!(l.url, "https://gitlab.com/api/v4/projects/38276649/repository/branches");
    assert_eq!(pairs(&l.query), vec![("search", "")]);
    let c = create_branch_request(
        &config(),
        CreateBranch { id: 38276649, branch: "new-branch".to_string(), ref_branch: "main".to_string() },
    );
    assert_eq!(c.method, Method::Post);
    assert_eq!(c.url, l.url);
    assert_eq!(pairs(&c.query), vec![("branch", "new-branch"), ("ref", "main")]);
}

#[test]
fn merge_request_requests() {
    let l = list_merge_requests_request(&config(), 15513260);
    assert_eq!(l.url, "https://gitlab.com/api/v4/projects/15513260/merge_requests");
    assert_eq!(pairs(&l.query), vec![("state", "opened")]);
    let g = get_merge_request_request(&config(), 15513260, 133);
    assert_eq!(g.url, "https://gitlab.com/api/v4/projects/15513260/merge_requests/133");
}

#[test]
fn plan_of_each_command() {
    assert!(matches!(plan(Action::Config(Config::Display), &config()), Step::ShowConfig));
    match plan(Action::Config(Config::Save { url: "u".to_string(), token: "t".to_string() }), &config()) {
        Step::SaveConfig(c) => assert_eq!((c.url.as_str(), c.token.as_str()), ("u", "t")),
        _ => panic!("expected a save"),
    }
    match plan(Action::Project(Project::List { search_name: None }), &config()) {
        Step::Call { request, reply, caption } => {
            assert_eq!(reply, Reply::Projects);
            assert_eq!(caption, "Projects");
            assert_eq!(pairs(&request.query), vec![("search", "")]);
        }
        _ => panic!("expected a call"),
    }
    match plan(
        Action::Branch(Branch::Create { project_id: 1, name: "b".to_string(), base_branch: "main".to_string() }),
        &config(),
    ) {
        Step::Call { request, reply, caption } => {
            assert_eq!(reply, Reply::OneBranch);
            assert_eq!(caption, "New Branch Created");
            assert_eq!(request.method, Method::Post);
        }
        _ => panic!("expected a call"),
    }
    match plan(Action::MergeRequest(MergeRequest::List { project_id: 2 }), &config()) {
        Step::Call { reply, caption, .. } => {
            assert_eq!(reply, Reply::MergeRequests);
            assert_eq!(caption, "Merge Requests");
        }
        _ => panic!("expected a call"),
    }
}

#[test]
fn empty_configuration() {
    let c = GitlabConfig::new();
    assert_eq!((c.url.as_str(), c.token.as_str()), ("", ""));
    let d = create_config();
    assert_eq!((d.url.as_str(), d.token.as_str()), ("", ""));
    let k = Configator::new("./resources/read_config.json");
    assert_eq!(k.save_file(), "./resources/read_config.json");
    let e = k.create_config();
    assert!(e.url.is_empty() && e.token.is_empty());
}

#[test]
fn config_path_below_home() {
    assert_eq!(config_file_path("/home/u"), "/home/u/.gitlab-cli/config.json");
}
