//! The GitHub adapter: issues, repositories and the authenticated user.
//!
//! Every request authenticates with `Authorization: Bearer <token>` and asks
//! for `application/vnd.github.v3+json`. Deleting a repository succeeds
//! exactly when the response status is 204.
use vstd::prelude::*;
use vstd::string::*;
use crate::error::{AdapterError, ErrorModel, result_view, and_then_model, decoded};
use crate::http::{Method, Request, RequestModel, Response, received, response_text, header, prefixed};
use crate::json::{
    json_quoted, json_str_at, json_u32_at, json_u64_at, object_text, pair_views, quote, str_at,
    u32_at, u64_at, render_object,
};
use crate::text::{decimal, decimal_text};

verus! {

/// The base URL of GitHub's REST API.
pub const GITHUB_API_BASE: &'static str = "https://api.github.com";

/// An issue as GitHub returns it.
#[derive(Debug, Clone, PartialEq, Eq)]
pub struct GitHubIssue {
    pub body: String,
    pub number: u32,
    pub title: String,
}

impl View for GitHubIssue {
    type V = (Seq<char>, u32, Seq<char>);

    open spec fn view(&self) -> Self::V {
        (self.body@, self.number, self.title@)
    }
}

/// A user as GitHub returns it.
#[derive(Debug, Clone, PartialEq, Eq)]
pub struct GitHubUser {
    pub avatar_url: String,
    pub id: u64,
    pub login: String,
}

impl View for GitHubUser {
    type V = (Seq<char>, u64, Seq<char>);

    open spec fn view(&self) -> Self::V {
        (self.avatar_url@, self.id, self.login@)
    }
}

/// A repository as GitHub returns it, with its owner in full.
#[derive(Debug, Clone, PartialEq, Eq)]
pub struct GitHubRepository {
    pub description: String,
    pub name: String,
    pub owner: GitHubUser,
}

impl View for GitHubRepository {
    type V = (Seq<char>, Seq<char>, (Seq<char>, u64, Seq<char>));

    open spec fn view(&self) -> Self::V {
        (self.description@, self.name@, self.owner@)
    }
}

/// An issue.
#[derive(Debug, Clone, PartialEq, Eq)]
pub struct Issue {
    pub body: String,
    pub number: u32,
    pub title: String,
}

impl View for Issue {
    type V = (Seq<char>, u32, Seq<char>);

    open spec fn view(&self) -> Self::V {
        (self.body@, self.number, self.title@)
    }
}

/// A repository; `owner` is the owner's login.
#[derive(Debug, Clone, PartialEq, Eq)]
pub struct Repository {
    pub description: String,
    pub name: String,
    pub owner: String,
}

impl View for Repository {
    type V = (Seq<char>, Seq<char>, Seq<char>);

    open spec fn view(&self) -> Self::V {
        (self.description@, self.name@, self.owner@)
    }
}

/// The authenticated user.
#[derive(Debug, Clone, PartialEq, Eq)]
pub struct User {
    pub avatar_url: String,
    pub id: u64,
    pub login: String,
}

impl View for User {
    type V = (Seq<char>, u64, Seq<char>);

    open spec fn view(&self) -> Self::V {
        (self.avatar_url@, self.id, self.login@)
    }
}

/// The headers of a GitHub request: the bearer authorization, the API
/// version, and the content type when a JSON body goes with it.
pub open spec fn github_headers(token: Seq<char>, has_body: bool) -> Seq<(Seq<char>, Seq<char>)> {
    let common = seq![
        ("Authorization"@, "Bearer "@ + token),
        ("Accept"@, "application/vnd.github.v3+json"@),
    ];
    if has_body {
        common.push(("Content-Type"@, "application/json"@))
    } else {
        common
    }
}

/// A GitHub request.
pub open spec fn github_request(
    method: Method,
    url: Seq<char>,
    token: Seq<char>,
    body: Option<Seq<char>>,
) -> RequestModel {
    RequestModel { method, url, headers: github_headers(token, body is Some), body }
}

fn github(method: Method, url: String, token: &str, body: Option<String>) -> (r: Request)
    ensures
        r@ == github_request(method, url@, token@, body.deep_view()),
{
    let mut headers: Vec<(String, String)> = Vec::new();
    headers.push(header("Authorization", prefixed("Bearer ", token)));
    headers.push(header("Accept", String::from_str("application/vnd.github.v3+json")));
    if body.is_some() {
        headers.push(header("Content-Type", String::from_str("application/json")));
    }
    let r = Request { method, url, headers, body };
    assert(r@.headers =~= github_headers(token@, body is Some));
    r
}

/// The URL of a repository.
pub open spec fn repo_url(owner: Seq<char>, repo: Seq<char>) -> Seq<char> {
    GITHUB_API_BASE@ + "/repos/"@ + owner + "/"@ + repo
}

fn repo_url_text(owner: &str, repo: &str) -> (r: String)
    ensures
        r@ == repo_url(owner@, repo@),
{
    let mut s = String::from_str(GITHUB_API_BASE);
    s.append("/repos/");
    s.append(owner);
    s.append("/");
    s.append(repo);
    s
}

/// The body `{"title": ..., "body": ...}` of an issue.
pub open spec fn issue_body(title: Seq<char>, body: Seq<char>) -> Seq<char> {
    object_text(seq![("title"@, json_quoted(title)), ("body"@, json_quoted(body))])
}

fn issue_body_text(title: &str, body: &str) -> (r: String)
    ensures
        r@ == issue_body(title@, body@),
{
    let mut entries: Vec<(String, String)> = Vec::new();
    entries.push((String::from_str("title"), quote(title)));
    entries.push((String::from_str("body"), quote(body)));
    assert(pair_views(entries@) =~= seq![("title"@, json_quoted(title@)), ("body"@, json_quoted(body@))]);
    render_object(&entries)
}

/// Opens an issue in a repository.
pub fn create_issue_request(token: &str, owner: &str, repo: &str, title: &str, body: &str) -> (r:
    Request)
    ensures
        r@ == github_request(
            Method::Post,
            repo_url(owner@, repo@) + "/issues"@,
            token@,
            Some(issue_body(title@, body@)),
        ),
{
    let mut url = repo_url_text(owner, repo);
    url.append("/issues");
    github(Method::Post, url, token, Some(issue_body_text(title, body)))
}

/// The body of a new public repository.
pub open spec fn repository_body(name: Seq<char>, description: Seq<char>) -> Seq<char> {
    object_text(
        seq![
            ("name"@, json_quoted(name)),
            ("description"@, json_quoted(description)),
            ("private"@, "false"@),
        ],
    )
}

/// Creates a public repository of the authenticated user.
pub fn create_repository_request(token: &str, name: &str, description: &str) -> (r: Request)
    ensures
        r@ == github_request(
            Method::Post,
            GITHUB_API_BASE@ + "/user/repos"@,
            token@,
            Some(repository_body(name@, description@)),
        ),
{
    let mut url = String::from_str(GITHUB_API_BASE);
    url.append("/user/repos");
    let mut entries: Vec<(String, String)> = Vec::new();
    entries.push((String::from_str("name"), quote(name)));
    entries.push((String::from_str("description"), quote(description)));
    entries.push((String::from_str("private"), String::from_str("false")));
    assert(pair_views(entries@) =~= seq![
        ("name"@, json_quoted(name@)),
        ("description"@, json_quoted(description@)),
        ("private"@, "false"@),
    ]);
    github(Method::Post, url, token, Some(render_object(&entries)))
}

/// Deletes a repository.
pub fn delete_repository_request(token: &str, owner: &str, repo: &str) -> (r: Request)
    ensures
        r@ == github_request(Method::Delete, repo_url(owner@, repo@), token@, None),
{
    github(Method::Delete, repo_url_text(owner, repo), token, None)
}

/// Fetches the authenticated user.
pub fn get_user_request(token: &str) -> (r: Request)
    ensures
        r@ == github_request(Method::Get, GITHUB_API_BASE@ + "/user"@, token@, None),
{
    let mut url = String::from_str(GITHUB_API_BASE);
    url.append("/user");
    github(Method::Get, url, token, None)
}

/// Replaces the title and body of an issue.
pub fn update_issue_request(
    token: &str,
    owner: &str,
    repo: &str,
    number: u32,
    title: &str,
    body: &str,
) -> (r: Request)
    ensures
        r@ == github_request(
            Method::Patch,
            repo_url(owner@, repo@) + "/issues/"@ + decimal(number as nat),
            token@,
            Some(issue_body(title@, body@)),
        ),
{
    let mut url = repo_url_text(owner, repo);
    url.append("/issues/");
    url.append(decimal_text(number as u64).as_str());
    github(Method::Patch, url, token, Some(issue_body_text(title, body)))
}

/// The issue fields of a response text, if each has its type.
pub open spec fn issue_fields(t: Seq<char>) -> Option<(Seq<char>, u32, Seq<char>)> {
    match (json_str_at(t, "/body"@), json_u32_at(t, "/number"@), json_str_at(t, "/title"@)) {
        (Some(body), Some(number), Some(title)) => Some((body, number, title)),
        _ => None,
    }
}

/// The user fields of a response text, if each has its type.
pub open spec fn user_fields(t: Seq<char>) -> Option<(Seq<char>, u64, Seq<char>)> {
    match (json_str_at(t, "/avatar_url"@), json_u64_at(t, "/id"@), json_str_at(t, "/login"@)) {
        (Some(avatar_url), Some(id), Some(login)) => Some((avatar_url, id, login)),
        _ => None,
    }
}

/// The repository fields of a response text, the owner's included, if each
/// has its type.
pub open spec fn repository_fields(t: Seq<char>) -> Option<
    (Seq<char>, Seq<char>, (Seq<char>, u64, Seq<char>)),
> {
    match (
        json_str_at(t, "/description"@),
        json_str_at(t, "/name"@),
        json_str_at(t, "/owner/avatar_url"@),
        json_u64_at(t, "/owner/id"@),
        json_str_at(t, "/owner/login"@),
    ) {
        (Some(description), Some(name), Some(avatar_url), Some(id), Some(login)) => Some(
            (description, name, (avatar_url, id, login)),
        ),
        _ => None,
    }
}

/// A repository as the adapter reports it: the owner reduced to its login.
pub open spec fn repository_projection(
    w: Option<(Seq<char>, Seq<char>, (Seq<char>, u64, Seq<char>))>,
) -> Option<(Seq<char>, Seq<char>, Seq<char>)> {
    match w {
        Some(w) => Some((w.0, w.1, w.2.2)),
        None => None,
    }
}

fn malformed(text: &str) -> (e: AdapterError)
    ensures
        e@ == ErrorModel::MalformedResponse(text@),
{
    AdapterError::MalformedResponse(String::from_str(text))
}

/// Decodes an issue from a response text.
pub fn decode_issue(text: &str) -> (r: Result<GitHubIssue, AdapterError>)
    ensures
        result_view(r) == decoded(text@, issue_fields(text@)),
{
    match (str_at(text, "/body"), u32_at(text, "/number"), str_at(text, "/title")) {
        (Some(body), Some(number), Some(title)) => Ok(GitHubIssue { body, number, title }),
        _ => Err(malformed(text)),
    }
}

/// Decodes a user from a response text.
pub fn decode_user(text: &str) -> (r: Result<GitHubUser, AdapterError>)
    ensures
        result_view(r) == decoded(text@, user_fields(text@)),
{
    match (str_at(text, "/avatar_url"), u64_at(text, "/id"), str_at(text, "/login")) {
        (Some(avatar_url), Some(id), Some(login)) => Ok(GitHubUser { avatar_url, id, login }),
        _ => Err(malformed(text)),
    }
}

/// Decodes a repository from a response text.
pub fn decode_repository(text: &str) -> (r: Result<GitHubRepository, AdapterError>)
    ensures
        result_view(r) == decoded(text@, repository_fields(text@)),
{
    match (
        str_at(text, "/description"),
        str_at(text, "/name"),
        str_at(text, "/owner/avatar_url"),
        u64_at(text, "/owner/id"),
        str_at(text, "/owner/login"),
    ) {
        (Some(description), Some(name), Some(avatar_url), Some(id), Some(login)) => Ok(
            GitHubRepository { description, name, owner: GitHubUser { avatar_url, id, login } },
        ),
        _ => Err(malformed(text)),
    }
}

/// The issue that the adapter reports for a decoded one.
pub fn issue_from(w: GitHubIssue) -> (r: Issue)
    ensures
        r@ == w@,
{
    Issue { body: w.body, number: w.number, title: w.title }
}

/// The user that the adapter reports for a decoded one.
pub fn user_from(w: GitHubUser) -> (r: User)
    ensures
        r@ == w@,
{
    User { avatar_url: w.avatar_url, id: w.id, login: w.login }
}

/// The repository that the adapter reports for a decoded one: the owner's
/// login stands for the owner.
pub fn repository_from(w: GitHubRepository) -> (r: Repository)
    ensures
        r@ == (w.description@, w.name@, w.owner.login@),
{
    Repository { description: w.description, name: w.name, owner: w.owner.login }
}

/// Reads the response of `create_issue_request` or `update_issue_request`.
pub fn read_issue(outcome: Result<Response, String>) -> (r: Result<Issue, AdapterError>)
    ensures
        result_view(r) == and_then_model(
            received(outcome),
            |t: Seq<char>| decoded(t, issue_fields(t)),
        ),
{
    let text = response_text(outcome)?;
    let wire = decode_issue(text.as_str())?;
    Ok(issue_from(wire))
}

/// Reads the response of `get_user_request`.
pub fn read_user(outcome: Result<Response, String>) -> (r: Result<User, AdapterError>)
    ensures
        result_view(r) == and_then_model(
            received(outcome),
            |t: Seq<char>| decoded(t, user_fields(t)),
        ),
{
    let text = response_text(outcome)?;
    let wire = decode_user(text.as_str())?;
    Ok(user_from(wire))
}

/// Reads the response of `create_repository_request`.
pub fn read_repository(outcome: Result<Response, String>) -> (r: Result<Repository, AdapterError>)
    ensures
        result_view(r) == and_then_model(
            received(outcome),
            |t: Seq<char>| decoded(t, repository_projection(repository_fields(t))),
        ),
{
    let text = response_text(outcome)?;
    let wire = decode_repository(text.as_str())?;
    Ok(repository_from(wire))
}

/// The outcome of deleting a repository, given what the transport received.
pub open spec fn deletion(outcome: Result<Response, String>) -> Result<(), ErrorModel> {
    match outcome {
        Err(message) => Err(ErrorModel::RequestFailed(message@)),
        Ok(response) => if response.status == 204 {
            Ok(())
        } else {
            Err(ErrorModel::ProviderError)
        },
    }
}

/// Reads the response of `delete_repository_request`: success exactly when
/// the status is 204; the body is not read.
pub fn read_deletion(outcome: Result<Response, String>) -> (r: Result<(), AdapterError>)
    ensures
        result_view(r) == deletion(outcome),
{
    match outcome {
        Err(message) => Err(AdapterError::RequestFailed(message)),
        Ok(response) => if response.status == 204 {
            Ok(())
        } else {
            Err(AdapterError::ProviderError)
        },
    }
}

/// Every GitHub request carries exactly one `Authorization` header, first,
/// with the value `Bearer <token>`.
pub proof fn github_authorization(method: Method, url: Seq<char>, token: Seq<char>, body: Option<Seq<char>>)
    ensures
        github_request(method, url, token, body).headers[0] == ("Authorization"@, "Bearer "@ + token),
        forall|i: int|
            1 <= i < github_request(method, url, token, body).headers.len() ==> (#[trigger] github_request(
                method,
                url,
                token,
                body,
            ).headers[i]).0 != "Authorization"@,
{
    reveal_strlit("Authorization");
    reveal_strlit("Accept");
    reveal_strlit("Content-Type");
    let h = github_request(method, url, token, body).headers;
    assert forall|i: int| 1 <= i < h.len() implies (#[trigger] h[i]).0 != "Authorization"@ by {
        assert(h[i].0.len() != "Authorization"@.len());
    }
}

/// Every GitHub request asks for `application/vnd.github.v3+json`, with or
/// without a body.
pub proof fn github_accept(method: Method, url: Seq<char>, token: Seq<char>, body: Option<Seq<char>>)
    ensures
        github_request(method, url, token, body).headers.contains(
            ("Accept"@, "application/vnd.github.v3+json"@),
        ),
{
    assert(github_request(method, url, token, body).headers[1] == ("Accept"@, "application/vnd.github.v3+json"@));
}

/// Reading the authenticated user twice from the same response gives the
/// same result.
pub proof fn user_reads_are_repeatable(o1: Result<Response, String>, o2: Result<Response, String>)
    requires
        received(o1) == received(o2),
    ensures
        and_then_model(received(o1), |t: Seq<char>| decoded(t, user_fields(t))) == and_then_model(
            received(o2),
            |t: Seq<char>| decoded(t, user_fields(t)),
        ),
{
}

/// When the response text is a well-formed repository, the result holds
/// exactly its `description`, its `name` and its `owner.login`, and nothing
/// else of the owner.
pub proof fn repository_copies_fields(o: Result<Response, String>, t: Seq<char>)
    requires
        received(o) == Ok::<_, ErrorModel>(t),
        repository_fields(t) is Some,
    ensures
        and_then_model(
            received(o),
            |t: Seq<char>| decoded(t, repository_projection(repository_fields(t))),
        ) == Ok::<_, ErrorModel>(
            (
                json_str_at(t, "/description"@)->Some_0,
                json_str_at(t, "/name"@)->Some_0,
                json_str_at(t, "/owner/login"@)->Some_0,
            ),
        ),
{
}

} // verus!
