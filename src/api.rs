//! The records that the hosting API returns, and what their table rows show.

use vstd::prelude::*;
use crate::link::link_text;
use crate::record::{Field, bool_text, boolean_text, decimal, decimal_text};
use crate::config::GitlabConfig;
use crate::table::{Record, texts};

verus! {

/// A search for projects by name.
pub struct ListProject {
    pub search: String,
}

/// A project: shown as its id, linked to its web page, and its name.
pub struct Project {
    pub id: i32,
    pub name: String,
    pub web_url: String,
}

/// A search for branches of project `id` by name.
pub struct ListBranch {
    pub id: i32,
    pub search: String,
}

/// A branch and its protection flags.
pub struct Branch {
    pub name: String,
    pub merged: bool,
    pub protected: bool,
    pub developers_can_push: bool,
    pub developers_can_merge: bool,
}

/// A new branch `branch` of project `id`, branched off `ref_branch`.
pub struct CreateBranch {
    pub id: i32,
    pub branch: String,
    pub ref_branch: String,
}

/// A merge request: shown with its id linked to its web page.
pub struct MergeRequest {
    pub iid: i32,
    pub title: String,
    pub source_branch: String,
    pub target_branch: String,
    pub author: Author,
    pub project_id: i32,
    pub state: String,
    pub web_url: String,
}

/// The author of a merge request; shown by name.
pub struct Author {
    pub id: i32,
    pub name: String,
    pub username: String,
}

impl Author {
    /// The text that shows an author: the name.
    pub fn display_text(&self) -> (r: String)
        ensures
            r@ == self.name@,
    {
        self.name.clone()
    }
}

impl Record for Project {
    open spec fn header_view() -> Seq<Seq<char>> {
        seq!["id"@, "name"@]
    }

    open spec fn cells_view(&self) -> Seq<Seq<char>> {
        seq![link_text(decimal(self.id as int), self.web_url@), self.name@]
    }

    fn columns() -> (r: Vec<String>) {
        let r = vec!["id".to_string(), "name".to_string()];
        assert(texts(r@) =~= Self::header_view());
        r
    }

    fn fields(&self) -> (r: Vec<Field>) {
        let r = vec![
            Field::Link { label: decimal_text(self.id), url: self.web_url.clone() },
            Field::Plain(self.name.clone()),
        ];
        assert(crate::record::row_texts(r@) =~= self.cells_view());
        r
    }
}

impl Record for Branch {
    open spec fn header_view() -> Seq<Seq<char>> {
        seq!["name"@, "merged"@, "protected"@, "developers_can_push"@, "developers_can_merge"@]
    }

    open spec fn cells_view(&self) -> Seq<Seq<char>> {
        seq![
            self.name@,
            bool_text(self.merged),
            bool_text(self.protected),
            bool_text(self.developers_can_push),
            bool_text(self.developers_can_merge),
        ]
    }

    fn columns() -> (r: Vec<String>) {
        let r = vec![
            "name".to_string(),
            "merged".to_string(),
            "protected".to_string(),
            "developers_can_push".to_string(),
            "developers_can_merge".to_string(),
        ];
        assert(texts(r@) =~= Self::header_view());
        r
    }

    fn fields(&self) -> (r: Vec<Field>) {
        let r = vec![
            Field::Plain(self.name.clone()),
            Field::Plain(boolean_text(self.merged)),
            Field::Plain(boolean_text(self.protected)),
            Field::Plain(boolean_text(self.developers_can_push)),
            Field::Plain(boolean_text(self.developers_can_merge)),
        ];
        assert(crate::record::row_texts(r@) =~= self.cells_view());
        r
    }
}

impl Record for MergeRequest {
    open spec fn header_view() -> Seq<Seq<char>> {
        seq!["mr id"@, "title"@, "source"@, "target"@, "author"@, "project"@, "state"@]
    }

    open spec fn cells_view(&self) -> Seq<Seq<char>> {
        seq![
            link_text(decimal(self.iid as int), self.web_url@),
            self.title@,
            self.source_branch@,
            self.target_branch@,
            self.author.name@,
            decimal(self.project_id as int),
            self.state@,
        ]
    }

    fn columns() -> (r: Vec<String>) {
        let r = vec![
            "mr id".to_string(),
            "title".to_string(),
            "source".to_string(),
            "target".to_string(),
            "author".to_string(),
            "project".to_string(),
            "state".to_string(),
        ];
        assert(texts(r@) =~= Self::header_view());
        r
    }

    fn fields(&self) -> (r: Vec<Field>) {
        let r = vec![
            Field::Link { label: decimal_text(self.iid), url: self.web_url.clone() },
            Field::Plain(self.title.clone()),
            Field::Plain(self.source_branch.clone()),
            Field::Plain(self.target_branch.clone()),
            Field::Plain(self.author.display_text()),
            Field::Plain(decimal_text(self.project_id)),
            Field::Plain(self.state.clone()),
        ];
        assert(crate::record::row_texts(r@) =~= self.cells_view());
        r
    }
}

/// The HTTP method of a request.
#[derive(Debug, PartialEq, Eq, Structural)]
pub enum Method {
    Get,
    Post,
}

/// One call of the hosting API: method, full URL, access token and query
/// parameters, in order.
pub struct ApiRequest {
    pub method: Method,
    pub url: String,
    pub token: String,
    pub query: Vec<(String, String)>,
}

/// The texts of a list of query parameters.
pub open spec fn query_view(q: Seq<(String, String)>) -> Seq<(Seq<char>, Seq<char>)> {
    q.map_values(|p: (String, String)| (p.0@, p.1@))
}

/// The URL of the project collection on the server at `base`.
pub open spec fn projects_url(base: Seq<char>) -> Seq<char> {
    base + "/api/v4/projects"@
}

/// The URL of project `id`.
pub open spec fn project_url(base: Seq<char>, id: int) -> Seq<char> {
    projects_url(base) + "/"@ + decimal(id)
}

/// The URL of the branches of project `id`.
pub open spec fn branches_url(base: Seq<char>, id: int) -> Seq<char> {
    project_url(base, id) + "/repository/branches"@
}

/// The URL of the merge requests of project `id`.
pub open spec fn merge_requests_url(base: Seq<char>, id: int) -> Seq<char> {
    project_url(base, id) + "/merge_requests"@
}

/// The URL of merge request `iid` of project `id`.
pub open spec fn merge_request_url(base: Seq<char>, id: int, iid: int) -> Seq<char> {
    merge_requests_url(base, id) + "/"@ + decimal(iid)
}

/// `request` is a call with this method, URL and query, carrying the token of `config`.
pub open spec fn is_request(
    request: ApiRequest,
    config: GitlabConfig,
    method: Method,
    url: Seq<char>,
    query: Seq<(Seq<char>, Seq<char>)>,
) -> bool {
    &&& request.method == method
    &&& request.url@ == url
    &&& request.token@ == config.token@
    &&& query_view(request.query@) == query
}

fn project_url_text(base: &String, id: i32) -> (r: String)
    ensures
        r@ == project_url(base@, id as int),
{
    let mut r = base.clone();
    r.append("/api/v4/projects/");
    let digits = decimal_text(id);
    r.append(digits.as_str());
    proof {
        reveal_strlit("/api/v4/projects/");
        reveal_strlit("/api/v4/projects");
        reveal_strlit("/");
        assert(r@ =~= project_url(base@, id as int));
    }
    r
}

/// The request that lists the projects whose name matches `project.search`.
pub fn list_project_request(config: &GitlabConfig, project: ListProject) -> (r: ApiRequest)
    ensures
        is_request(r, *config, Method::Get, projects_url(config.url@),
            seq![("search"@, project.search@)]),
{
    let mut url = config.url.clone();
    url.append("/api/v4/projects");
    let query = vec![("search".to_string(), project.search)];
    assert(query_view(query@) =~= seq![("search"@, project.search@)]);
    ApiRequest { method: Method::Get, url, token: config.token.clone(), query }
}

/// The request that fetches project `project_id`.
pub fn get_project_request(config: &GitlabConfig, project_id: i32) -> (r: ApiRequest)
    ensures
        is_request(r, *config, Method::Get, project_url(config.url@, project_id as int), seq![]),
{
    let query: Vec<(String, String)> = Vec::new();
    assert(query_view(query@) =~= seq![]);
    ApiRequest { method: Method::Get, url: project_url_text(&config.url, project_id), token: config.token.clone(), query }
}

/// The request that lists the branches of project `branch.id` whose name
/// matches `branch.search`.
pub fn list_branch_request(config: &GitlabConfig, branch: ListBranch) -> (r: ApiRequest)
    ensures
        is_request(r, *config, Method::Get, branches_url(config.url@, branch.id as int),
            seq![("search"@, branch.search@)]),
{
    let mut url = project_url_text(&config.url, branch.id);
    url.append("/repository/branches");
    let query = vec![("search".to_string(), branch.search)];
    assert(query_view(query@) =~= seq![("search"@, branch.search@)]);
    ApiRequest { method: Method::Get, url, token: config.token.clone(), query }
}

/// The request that creates branch `branch.branch` of project `branch.id`
/// off `branch.ref_branch`.
pub fn create_branch_request(config: &GitlabConfig, branch: CreateBranch) -> (r: ApiRequest)
    ensures
        is_request(r, *config, Method::Post, branches_url(config.url@, branch.id as int),
            seq![("branch"@, branch.branch@), ("ref"@, branch.ref_branch@)]),
{
    let mut url = project_url_text(&config.url, branch.id);
    url.append("/repository/branches");
    let query = vec![("branch".to_string(), branch.branch), ("ref".to_string(), branch.ref_branch)];
    assert(query_view(query@) =~= seq![("branch"@, branch.branch@), ("ref"@, branch.ref_branch@)]);
    ApiRequest { method: Method::Post, url, token: config.token.clone(), query }
}

/// The request that lists the open merge requests of project `project_id`.
pub fn list_merge_requests_request(config: &GitlabConfig, project_id: i32) -> (r: ApiRequest)
    ensures
        is_request(r, *config, Method::Get, merge_requests_url(config.url@, project_id as int),
            seq![("state"@, "opened"@)]),
{
    let mut url = project_url_text(&config.url, project_id);
    url.append("/merge_requests");
    let query = vec![("state".to_string(), "opened".to_string())];
    assert(query_view(query@) =~= seq![("state"@, "opened"@)]);
    ApiRequest { method: Method::Get, url, token: config.token.clone(), query }
}

/// The request that fetches merge request `merge_request_iid` of project `project_id`.
pub fn get_merge_request_request(config: &GitlabConfig, project_id: i32, merge_request_iid: i32) -> (r: ApiRequest)
    ensures
        is_request(r, *config, Method::Get,
            merge_request_url(config.url@, project_id as int, merge_request_iid as int), seq![]),
{
    let mut url = project_url_text(&config.url, project_id);
    url.append("/merge_requests/");
    let digits = decimal_text(merge_request_iid);
    url.append(digits.as_str());
    proof {
        reveal_strlit("/merge_requests/");
        reveal_strlit("/merge_requests");
        reveal_strlit("/");
    }
    assert(url@ =~= merge_request_url(config.url@, project_id as int, merge_request_iid as int));
    let query: Vec<(String, String)> = Vec::new();
    assert(query_view(query@) =~= seq![]);
    ApiRequest { method: Method::Get, url, token: config.token.clone(), query }
}

} // verus!
