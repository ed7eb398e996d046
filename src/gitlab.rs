//! The GitLab provider: the paginated walk over a group's projects.
//!
//! The caller runs the walk. It asks [`GitLab::page_request`] what to send,
//! sends it, and hands the outcome to [`GitLab::on_response`], which judges
//! the response, keeps the page's projects and says whether another page
//! follows.

use vstd::prelude::*;
use crate::decimal::{announces_next, announces_next_page, decimal, push_decimal};
use crate::project::Project;

verus! {

/// How many projects each page is asked to hold.
pub const PER_PAGE: u32 = 100;

/// Where to find a group's projects, and how to reach them.
#[derive(Debug, Clone, PartialEq, Eq)]
pub struct GitLab {
    /// Base URL of the GitLab instance, without a trailing `/`.
    pub url: String,
    /// The group's identifier or path.
    pub group: String,
    /// Whether mirrors push to the HTTP clone URL rather than the SSH one.
    pub use_http: bool,
    /// Sent as the `PRIVATE-TOKEN` header when present.
    pub private_token: Option<String>,
}

/// One request of the walk: a GET of `url`, with the `PRIVATE-TOKEN` header
/// set to `private_token` where there is one.
#[derive(Debug, Clone, PartialEq, Eq)]
pub struct PageRequest {
    pub url: String,
    pub private_token: Option<String>,
}

/// What came back for one page.
#[derive(Debug, PartialEq, Eq)]
pub struct PageResponse {
    /// The HTTP status code.
    pub status: u16,
    /// The values of the `X-Next-Page` header, one per header line; none
    /// where the header is missing.
    pub next_page: Vec<Vec<u8>>,
    /// The body decoded as a list of projects, or why it could not be.
    pub body: Result<Vec<Project>, String>,
}

/// Why the walk failed. Each of these ends the whole discovery.
#[derive(Debug, Clone, PartialEq, Eq)]
pub enum FetchError {
    /// The page could not be reached.
    Connection { url: String, cause: String },
    /// The server answered 401: the access token is missing or wrong.
    Unauthorized { url: String },
    /// The server answered with a status other than 200 or 401.
    UnexpectedStatus { status: u16, url: String },
    /// The body is not a list of projects.
    MalformedPage { url: String, cause: String },
    /// The server announced a page beyond the largest page number.
    TooManyPages,
}

/// The state of a walk: the next page to ask for and the projects found so
/// far.
#[derive(Debug, Clone, PartialEq, Eq)]
pub struct Discovery {
    pub page: u32,
    pub projects: Vec<Project>,
}

/// The URL of one page of a group's projects.
pub open spec fn page_url(base: Seq<char>, group: Seq<char>, page: nat) -> Seq<char> {
    base + "/api/v4/groups/"@ + group + "/projects?per_page="@ + decimal(PER_PAGE as nat)
        + "&page="@ + decimal(page)
}

/// The text that reports an error to a person.
pub open spec fn message_of(e: FetchError) -> Seq<char> {
    match e {
        FetchError::Connection { url, cause } => "Unable to connect to: "@ + url@ + " ("@ + cause@
            + ")"@,
        FetchError::Unauthorized { url } => "API call received unauthorized (401) for: "@ + url@
            + ". Please make sure the `GITLAB_PRIVATE_TOKEN` environment variable is set."@,
        FetchError::UnexpectedStatus { status, url } => "API call received invalid status ("@
            + decimal(status as nat) + ") for: "@ + url@,
        FetchError::MalformedPage { url, cause } => "Unable to parse response as JSON ("@ + cause@
            + ") for: "@ + url@,
        FetchError::TooManyPages => "The server announced more pages than can be numbered"@,
    }
}

/// The next-page header values of a response, as byte sequences.
pub open spec fn next_page_values(resp: PageResponse) -> Seq<Seq<u8>> {
    resp.next_page@.map_values(|v: Vec<u8>| v@)
}

impl FetchError {
    /// A message that names the failing URL and the cause; for a 401 it
    /// says to supply the access token.
    pub fn message(&self) -> (r: String)
        ensures
            r@ == message_of(*self),
    {
        match self {
            FetchError::Connection { url, cause } => {
                let mut s = String::from_str("Unable to connect to: ");
                s.append(url.as_str());
                s.append(" (");
                s.append(cause.as_str());
                s.append(")");
                s
            },
            FetchError::Unauthorized { url } => {
                let mut s = String::from_str("API call received unauthorized (401) for: ");
                s.append(url.as_str());
                s.append(
                    ". Please make sure the `GITLAB_PRIVATE_TOKEN` environment variable is set.",
                );
                s
            },
            FetchError::UnexpectedStatus { status, url } => {
                let mut s = String::from_str("API call received invalid status (");
                push_decimal(&mut s, *status as u32);
                s.append(") for: ");
                s.append(url.as_str());
                s
            },
            FetchError::MalformedPage { url, cause } => {
                let mut s = String::from_str("Unable to parse response as JSON (");
                s.append(cause.as_str());
                s.append(") for: ");
                s.append(url.as_str());
                s
            },
            FetchError::TooManyPages => String::from_str(
                "The server announced more pages than can be numbered",
            ),
        }
    }
}

impl Discovery {
    /// A walk that has found nothing yet and starts at page 1.
    pub fn new() -> (r: Discovery)
        ensures
            r.page == 1,
            r.projects@ == Seq::<Project>::empty(),
    {
        Discovery { page: 1, projects: Vec::new() }
    }
}

impl GitLab {
    pub fn new(url: String, group: String, use_http: bool, private_token: Option<String>) -> (r:
        GitLab)
        ensures
            r.url == url,
            r.group == group,
            r.use_http == use_http,
            r.private_token == private_token,
    {
        GitLab { url, group, use_http, private_token }
    }

    /// The URL of the given page of the group's projects.
    pub fn page_url(&self, page: u32) -> (r: String)
        ensures
            r@ == page_url(self.url@, self.group@, page as nat),
    {
        let mut s = self.url.clone();
        s.append("/api/v4/groups/");
        s.append(self.group.as_str());
        s.append("/projects?per_page=");
        push_decimal(&mut s, PER_PAGE);
        s.append("&page=");
        push_decimal(&mut s, page);
        s
    }

    /// The request for the given page: its URL, and the access token to
    /// send with it, if one was configured.
    pub fn page_request(&self, page: u32) -> (r: PageRequest)
        ensures
            r.url@ == page_url(self.url@, self.group@, page as nat),
            r.private_token == self.private_token,
    {
        let private_token = match &self.private_token {
            Some(t) => Some(t.clone()),
            None => None,
        };
        PageRequest { url: self.page_url(page), private_token }
    }

    /// Judges what came back for page `d.page`: `Err(cause)` where the page
    /// could not be reached, the response otherwise.
    ///
    /// A connection failure, a status other than 200, or a body that is not
    /// a list of projects ends the walk with the matching error, whatever
    /// pages came before. Otherwise the page's projects are appended to
    /// `d.projects`; where the next-page header announces another page, the
    /// result is `Ok(true)` and `d.page` moves on by one, else it is
    /// `Ok(false)`. The size of the page plays no part. An announced page
    /// beyond `u32::MAX` is `TooManyPages`. On an error `d` is unchanged.
    pub fn on_response(&self, d: &mut Discovery, response: Result<PageResponse, String>) -> (r:
        Result<bool, FetchError>)
        ensures
            ({
                let url = page_url(self.url@, self.group@, old(d).page as nat);
                match response {
                    Err(cause) => r matches Err(FetchError::Connection { url: u, cause: c })
                        && u@ == url && c == cause,
                    Ok(resp) => if resp.status == 401 {
                        r matches Err(FetchError::Unauthorized { url: u }) && u@ == url
                    } else if resp.status != 200 {
                        r matches Err(FetchError::UnexpectedStatus { status: s, url: u })
                            && s == resp.status && u@ == url
                    } else {
                        match resp.body {
                            Err(cause) => r matches Err(
                                FetchError::MalformedPage { url: u, cause: c },
                            ) && u@ == url && c == cause,
                            Ok(projects) => {
                                let more = announces_next(next_page_values(resp));
                                if more && old(d).page == u32::MAX {
                                    r matches Err(FetchError::TooManyPages)
                                } else {
                                    &&& r == Ok::<bool, FetchError>(more)
                                    &&& final(d).projects@ == old(d).projects@ + projects@
                                    &&& final(d).page == if more {
                                        old(d).page + 1
                                    } else {
                                        old(d).page as int
                                    }
                                }
                            },
                        }
                    },
                }
            }),
            r is Err ==> *final(d) == *old(d),
    {
        let response = match response {
            Err(cause) => {
                return Err(FetchError::Connection { url: self.page_url(d.page), cause });
            },
            Ok(resp) => resp,
        };
        if response.status == 401 {
            return Err(FetchError::Unauthorized { url: self.page_url(d.page) });
        }
        if response.status != 200 {
            return Err(
                FetchError::UnexpectedStatus { status: response.status, url: self.page_url(d.page) },
            );
        }
        let more = announces_next_page(&response.next_page);
        let mut projects = match response.body {
            Err(cause) => {
                return Err(FetchError::MalformedPage { url: self.page_url(d.page), cause });
            },
            Ok(projects) => projects,
        };
        if more && d.page == u32::MAX {
            return Err(FetchError::TooManyPages);
        }
        d.projects.append(&mut projects);
        if more {
            d.page = d.page + 1;
        }
        Ok(more)
    }
}

} // verus!
