//! The commands of the client, and what each one asks to be done.

use vstd::prelude::*;
use crate::api::{
    ApiRequest, Method, branches_url, is_request, merge_request_url, merge_requests_url, project_url,
    projects_url, CreateBranch, ListBranch, ListProject, create_branch_request, get_merge_request_request,
    get_project_request, list_branch_request, list_merge_requests_request, list_project_request,
};
use crate::config::GitlabConfig;

verus! {

/// A command of the client.
pub enum Action {
    /// Show or set the server and token.
    Config(Config),
    /// Act on projects.
    Project(Project),
    /// Act on branches of a project.
    Branch(Branch),
    /// Act on merge requests of a project.
    MergeRequest(MergeRequest),
}

/// Configuration commands.
pub enum Config {
    /// Save this server URL and token.
    Save { url: String, token: String },
    /// Show the saved configuration.
    Display,
}

/// Project commands.
pub enum Project {
    /// List the visible projects, those whose name matches if a search is given.
    List { search_name: Option<String> },
    /// Show one project.
    Open { project_id: i32 },
}

/// Branch commands.
pub enum Branch {
    /// List the branches of a project, those whose name matches if a search is given.
    List { project_id: i32, search_name: Option<String> },
    /// Create branch `name` off `base_branch`.
    Create { project_id: i32, name: String, base_branch: String },
}

/// Merge request commands.
pub enum MergeRequest {
    /// List the open merge requests of a project.
    List { project_id: i32 },
    /// Show one merge request.
    Open { project_id: i32, merge_request_iid: i32 },
}

/// The parsed command line.
pub struct CommandLineArgs {
    pub action: Action,
}

/// Which record type a response holds, and whether it is a list or one record.
#[derive(Debug, PartialEq, Eq, Structural)]
pub enum Reply {
    Projects,
    OneProject,
    Branches,
    OneBranch,
    MergeRequests,
    OneMergeRequest,
}

/// What a command asks to be done.
pub enum Step {
    /// Show the saved configuration.
    ShowConfig,
    /// Save this configuration, then show it.
    SaveConfig(GitlabConfig),
    /// Send the request, decode the reply as `reply` and show it as a table
    /// under `caption`.
    Call { request: ApiRequest, reply: Reply, caption: String },
}

/// The text of an optional search: the empty text when there is none.
pub open spec fn search_view(s: Option<String>) -> Seq<char> {
    match s {
        Some(t) => t@,
        None => Seq::empty(),
    }
}

fn search_text(s: Option<String>) -> (r: String)
    ensures
        r@ == search_view(s),
{
    match s {
        Some(t) => t,
        None => String::new(),
    }
}

/// `step` sends a request with this method, URL and query, carrying the
/// token of `config`, reads `reply` and is captioned `caption`.
pub open spec fn is_call(
    step: Step,
    reply: Reply,
    caption: Seq<char>,
    config: GitlabConfig,
    method: Method,
    url: Seq<char>,
    query: Seq<(Seq<char>, Seq<char>)>,
) -> bool {
    match step {
        Step::Call { request, reply: rp, caption: c } =>
            rp == reply && c@ == caption && is_request(request, config, method, url, query),
        _ => false,
    }
}

/// What command `action` asks to be done, with the configuration `config`.
pub open spec fn planned(action: Action, config: GitlabConfig, r: Step) -> bool {
    let base = config.url@;
    match action {
        Action::Config(Config::Display) => r is ShowConfig,
        Action::Config(Config::Save { url, token }) => match r {
            Step::SaveConfig(c) => c.url@ == url@ && c.token@ == token@,
            _ => false,
        },
        Action::Project(Project::List { search_name }) => is_call(r, Reply::Projects, "Projects"@,
            config, Method::Get, projects_url(base), seq![("search"@, search_view(search_name))]),
        Action::Project(Project::Open { project_id }) => is_call(r, Reply::OneProject, "Project"@,
            config, Method::Get, project_url(base, project_id as int), seq![]),
        Action::Branch(Branch::List { project_id, search_name }) => is_call(r, Reply::Branches,
            "Branch List"@, config, Method::Get, branches_url(base, project_id as int),
            seq![("search"@, search_view(search_name))]),
        Action::Branch(Branch::Create { project_id, name, base_branch }) => is_call(r, Reply::OneBranch,
            "New Branch Created"@, config, Method::Post, branches_url(base, project_id as int),
            seq![("branch"@, name@), ("ref"@, base_branch@)]),
        Action::MergeRequest(MergeRequest::List { project_id }) => is_call(r, Reply::MergeRequests,
            "Merge Requests"@, config, Method::Get, merge_requests_url(base, project_id as int),
            seq![("state"@, "opened"@)]),
        Action::MergeRequest(MergeRequest::Open { project_id, merge_request_iid }) => is_call(r,
            Reply::OneMergeRequest, "Merge Request"@, config, Method::Get,
            merge_request_url(base, project_id as int, merge_request_iid as int), seq![]),
    }
}

/// Decides what a command does with the configuration `config`. The two
/// `Open` commands are an addition of this library: each fetches the one
/// project or merge request and shows it as a one-row table.
pub fn plan(action: Action, config: &GitlabConfig) -> (r: Step)
    ensures
        planned(action, *config, r),
{
    match action {
        Action::Config(Config::Display) => Step::ShowConfig,
        Action::Config(Config::Save { url, token }) => Step::SaveConfig(GitlabConfig { url, token }),
        Action::Project(Project::List { search_name }) => {
            let request = list_project_request(config, ListProject { search: search_text(search_name) });
            Step::Call { request, reply: Reply::Projects, caption: "Projects".to_string() }
        },
        Action::Project(Project::Open { project_id }) => {
            let request = get_project_request(config, project_id);
            Step::Call { request, reply: Reply::OneProject, caption: "Project".to_string() }
        },
        Action::Branch(Branch::List { project_id, search_name }) => {
            let request = list_branch_request(config, ListBranch { id: project_id, search: search_text(search_name) });
            Step::Call { request, reply: Reply::Branches, caption: "Branch List".to_string() }
        },
        Action::Branch(Branch::Create { project_id, name, base_branch }) => {
            let request = create_branch_request(
                config,
                CreateBranch { id: project_id, branch: name, ref_branch: base_branch },
            );
            Step::Call { request, reply: Reply::OneBranch, caption: "New Branch Created".to_string() }
        },
        Action::MergeRequest(MergeRequest::List { project_id }) => {
            let request = list_merge_requests_request(config, project_id);
            Step::Call { request, reply: Reply::MergeRequests, caption: "Merge Requests".to_string() }
        },
        Action::MergeRequest(MergeRequest::Open { project_id, merge_request_iid }) => {
            let request = get_merge_request_request(config, project_id, merge_request_iid);
            Step::Call { request, reply: Reply::OneMergeRequest, caption: "Merge Request".to_string() }
        },
    }
}

} // verus!
