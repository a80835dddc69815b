//! Handles on the pull requests of one repository, the requests they make, and
//! the list builder with its filters.

use crate::filters::{Sort, SortDirection, State};
use crate::json::json_quoted;
use crate::rep::{
    decode_pull, decode_pulls, decodes_pull, decodes_pulls, member, object_text, option_view,
    Error, Pull, PullEdit, PullEditView, PullReq,
};
use crate::text::{decimal, decimal_of};
use vstd::prelude::*;
use vstd::string::*;

verus! {

/// The HTTP method of a request.
#[derive(Clone, Copy, Debug, PartialEq, Eq, Structural)]
pub enum Method {
    Get,
    Post,
    Patch,
}

/// A request for the transport to issue: method, resource path, and JSON body
/// for the writes.
pub struct Request {
    pub method: Method,
    pub path: String,
    pub body: Option<String>,
}

/// A request, with its texts as sequences of characters.
pub struct RequestView {
    pub method: Method,
    pub path: Seq<char>,
    pub body: Option<Seq<char>>,
}

impl View for Request {
    type V = RequestView;

    open spec fn view(&self) -> RequestView {
        RequestView { method: self.method, path: self.path@, body: option_view(self.body) }
    }
}

/// A request whose answer is one pull request.
pub struct PullCall {
    pub request: Request,
}

impl PullCall {
    /// Decodes the transport's answer to `self.request`.
    pub fn finish<E>(self, response: Result<String, E>) -> (r: Result<Pull, Error<E>>)
        ensures
            decodes_pull(response, r),
    {
        decode_pull(response)
    }
}

/// A request whose answer is a list of pull requests.
pub struct ListCall {
    pub request: Request,
}

impl ListCall {
    /// Decodes the transport's answer to `self.request`.
    pub fn finish<E>(self, response: Result<String, E>) -> (r: Result<Vec<Pull>, Error<E>>)
        ensures
            decodes_pulls(response, r),
    {
        decode_pulls(response)
    }
}

/// `/repos/{owner}/{repo}/pulls`
pub open spec fn collection_path(owner: Seq<char>, repo: Seq<char>) -> Seq<char> {
    "/repos/"@ + owner + "/"@ + repo + "/pulls"@
}

/// `/repos/{owner}/{repo}/pulls/{number}`
pub open spec fn item_path(owner: Seq<char>, repo: Seq<char>, number: int) -> Seq<char> {
    collection_path(owner, repo) + "/"@ + decimal(number)
}

/// `?state={state}&sort={sort}&direction={direction}`
pub open spec fn query(state: State, sort: Sort, direction: SortDirection) -> Seq<char> {
    "?state="@ + state.token_spec() + "&sort="@ + sort.token_spec() + "&direction="@
        + direction.token_spec()
}

/// The body that sets only the state of a pull request to `state`.
pub open spec fn state_only_body(state: Seq<char>) -> Seq<char> {
    seq!['{'] + member("state"@, state) + seq!['}']
}

/// One pull request of one repository.
pub struct PullRequest {
    pub owner: String,
    pub repo: String,
    pub number: i64,
}

impl PullRequest {
    pub fn new(owner: &str, repo: &str, number: i64) -> (r: PullRequest)
        ensures
            r.owner@ == owner@,
            r.repo@ == repo@,
            r.number == number,
    {
        PullRequest { owner: owner.to_owned(), repo: repo.to_owned(), number }
    }

    /// The path of this pull request.
    pub open spec fn path_spec(&self) -> Seq<char> {
        item_path(self.owner@, self.repo@, self.number as int)
    }

    /// The path of this pull request, followed by `more`.
    pub fn path(&self, more: &str) -> (r: String)
        ensures
            r@ == self.path_spec() + more@,
    {
        let mut r = String::from_str("/repos/");
        r.append(self.owner.as_str());
        r.append("/");
        r.append(self.repo.as_str());
        r.append("/pulls/");
        let n = decimal_of(self.number);
        r.append(n.as_str());
        r.append(more);
        proof {
            reveal_strlit("/repos/");
            reveal_strlit("/");
            reveal_strlit("/pulls");
            reveal_strlit("/pulls/");
            assert(r@ =~= self.path_spec() + more@);
        }
        r
    }

    /// The request that reads this pull request.
    pub fn get(&self) -> (r: PullCall)
        ensures
            r.request@ == (RequestView { method: Method::Get, path: self.path_spec(), body: None }),
    {
        let path = self.path("");
        proof {
            reveal_strlit("");
            assert(path@ =~= self.path_spec());
        }
        PullCall { request: Request { method: Method::Get, path, body: None } }
    }

    /// The request that applies the partial update `pr` to this pull request.
    pub open spec fn edit_spec(&self, pr: PullEditView) -> RequestView {
        RequestView { method: Method::Patch, path: self.path_spec(), body: Some(pr.json()) }
    }

    /// The request that applies the partial update `pr` to this pull request.
    pub fn edit(&self, pr: &PullEdit) -> (r: PullCall)
        ensures
            r.request@ == self.edit_spec(pr@),
    {
        let data = pr.to_json();
        let path = self.path("");
        proof {
            reveal_strlit("");
            assert(path@ =~= self.path_spec());
        }
        PullCall { request: Request { method: Method::Patch, path, body: Some(data) } }
    }

    /// The request that sets this pull request's state to open, and changes
    /// nothing else.
    pub fn open(&self) -> (r: PullCall)
        ensures
            r.request@ == (RequestView {
                method: Method::Patch,
                path: self.path_spec(),
                body: Some(state_only_body("open"@)),
            }),
    {
        let r = self.edit(&PullEdit::new(None, None, Some(String::from_str("open"))));
        proof {
            lemma_state_only_edit(self, "open"@);
        }
        r
    }

    /// The request that sets this pull request's state to closed, and changes
    /// nothing else.
    pub fn close(&self) -> (r: PullCall)
        ensures
            r.request@ == (RequestView {
                method: Method::Patch,
                path: self.path_spec(),
                body: Some(state_only_body("closed"@)),
            }),
    {
        let r = self.edit(&PullEdit::new(None, None, Some(String::from_str("closed"))));
        proof {
            lemma_state_only_edit(self, "closed"@);
        }
        r
    }
}

/// `open` and `close` send what `edit` sends for an update that carries only
/// the state: same method, same path, and a body with the state member alone.
pub proof fn lemma_state_only_edit(pr: &PullRequest, state: Seq<char>)
    ensures
        pr.edit_spec(PullEditView { title: None, body: None, state: Some(state) })
            == (RequestView {
            method: Method::Patch,
            path: pr.path_spec(),
            body: Some(state_only_body(state)),
        }),
{
    let e = PullEditView { title: None, body: None, state: Some(state) };
    assert(e.members() =~= seq![member("state"@, state)]);
    assert(e.json() =~= state_only_body(state));
}

/// All pull requests of one repository.
pub struct PullRequests {
    pub owner: String,
    pub repo: String,
}

impl PullRequests {
    pub fn new(owner: &str, repo: &str) -> (r: PullRequests)
        ensures
            r.owner@ == owner@,
            r.repo@ == repo@,
    {
        PullRequests { owner: owner.to_owned(), repo: repo.to_owned() }
    }

    /// The path of the collection.
    pub open spec fn path_spec(&self) -> Seq<char> {
        collection_path(self.owner@, self.repo@)
    }

    /// The path of the collection, followed by `more`.
    pub fn path(&self, more: &str) -> (r: String)
        ensures
            r@ == self.path_spec() + more@,
    {
        let mut r = String::from_str("/repos/");
        r.append(self.owner.as_str());
        r.append("/");
        r.append(self.repo.as_str());
        r.append("/pulls");
        r.append(more);
        proof {
            reveal_strlit("/repos/");
            reveal_strlit("/");
            reveal_strlit("/pulls");
            assert(r@ =~= self.path_spec() + more@);
        }
        r
    }

    /// The handle on pull request `number` of this repository.
    pub fn get(&self, number: i64) -> (r: PullRequest)
        ensures
            r.owner@ == self.owner@,
            r.repo@ == self.repo@,
            r.number == number,
    {
        PullRequest::new(self.owner.as_str(), self.repo.as_str(), number)
    }

    /// The request that opens the pull request `pr` in this repository.
    pub fn create(&self, pr: &PullReq) -> (r: PullCall)
        ensures
            r.request@ == (RequestView {
                method: Method::Post,
                path: self.path_spec(),
                body: Some(pr@.json()),
            }),
    {
        let data = pr.to_json();
        let path = self.path("");
        proof {
            reveal_strlit("");
            assert(path@ =~= self.path_spec());
        }
        PullCall { request: Request { method: Method::Post, path, body: Some(data) } }
    }

    /// A listing of this repository's pull requests with the default filters.
    pub fn list(&self) -> (r: ListBuilder<'_>)
        ensures
            r.pulls == self,
            r.state == State::Open,
            r.sort == Sort::Created,
            r.direction == SortDirection::Asc,
    {
        ListBuilder::new(self)
    }
}

/// The filters of a listing of pull requests, set one at a time.
pub struct ListBuilder<'a> {
    pub pulls: &'a PullRequests,
    pub state: State,
    pub sort: Sort,
    pub direction: SortDirection,
}

impl<'a> ListBuilder<'a> {
    /// A listing of the pull requests of `pulls` with the default filters.
    pub fn new(pulls: &'a PullRequests) -> (r: ListBuilder<'a>)
        ensures
            r.pulls == pulls,
            r.state == State::Open,
            r.sort == Sort::Created,
            r.direction == SortDirection::Asc,
    {
        ListBuilder {
            pulls,
            state: State::default(),
            sort: Sort::default(),
            direction: SortDirection::default(),
        }
    }

    /// Filters by `state`; the other filters stay as they are.
    pub fn state(&mut self, state: State) -> (r: &mut ListBuilder<'a>)
        ensures
            *r == (ListBuilder { state, ..*old(self) }),
            *final(self) == *final(r),
    {
        self.state = state;
        self
    }

    /// Orders by `sort`; the other filters stay as they are.
    pub fn sort(&mut self, sort: Sort) -> (r: &mut ListBuilder<'a>)
        ensures
            *r == (ListBuilder { sort, ..*old(self) }),
            *final(self) == *final(r),
    {
        self.sort = sort;
        self
    }

    /// Orders in `direction`; the other filters stay as they are.
    pub fn direction(&mut self, direction: SortDirection) -> (r: &mut ListBuilder<'a>)
        ensures
            *r == (ListBuilder { direction, ..*old(self) }),
            *final(self) == *final(r),
    {
        self.direction = direction;
        self
    }

    /// The request that lists the pull requests with these filters.
    pub open spec fn request_spec(&self) -> RequestView {
        RequestView {
            method: Method::Get,
            path: self.pulls.path_spec() + query(self.state, self.sort, self.direction),
            body: None,
        }
    }

    /// The request that lists the pull requests with these filters.
    pub fn get(&self) -> (r: ListCall)
        ensures
            r.request@ == self.request_spec(),
    {
        let mut q = String::from_str("?state=");
        let state = self.state.to_string();
        q.append(state.as_str());
        q.append("&sort=");
        let sort = self.sort.to_string();
        q.append(sort.as_str());
        q.append("&direction=");
        let direction = self.direction.to_string();
        q.append(direction.as_str());
        let path = self.pulls.path(q.as_str());
        proof {
            reveal_strlit("?state=");
            reveal_strlit("&sort=");
            reveal_strlit("&direction=");
            assert(q@ =~= query(self.state, self.sort, self.direction));
            assert(path@ =~= self.request_spec().path);
        }
        ListCall { request: Request { method: Method::Get, path, body: None } }
    }
}

/// A listing whose filters were never set asks for all three parameters, each
/// with its default token: `?state=open&sort=created&direction=asc`.
pub proof fn lemma_default_query(b: ListBuilder)
    requires
        b.state == State::Open,
        b.sort == Sort::Created,
        b.direction == SortDirection::Asc,
    ensures
        b.request_spec() == (RequestView {
            method: Method::Get,
            path: b.pulls.path_spec() + "?state=open&sort=created&direction=asc"@,
            body: None,
        }),
{
    reveal_strlit("?state=");
    reveal_strlit("&sort=");
    reveal_strlit("&direction=");
    reveal_strlit("open");
    reveal_strlit("created");
    reveal_strlit("asc");
    reveal_strlit("?state=open&sort=created&direction=asc");
    assert(query(b.state, b.sort, b.direction) =~= "?state=open&sort=created&direction=asc"@);
    assert(b.request_spec().path =~= b.pulls.path_spec()
        + "?state=open&sort=created&direction=asc"@);
}

/// Setting state, sort and direction in one order or in the reverse order
/// gives the same builder, and so the same listing request.
pub proof fn lemma_filter_order_irrelevant(
    b: ListBuilder,
    state: State,
    sort: Sort,
    direction: SortDirection,
)
    ensures
        (ListBuilder { direction, ..ListBuilder { sort, ..ListBuilder { state, ..b } } })
            == (ListBuilder { state, ..ListBuilder { sort, ..ListBuilder { direction, ..b } } }),
        (ListBuilder { direction, ..ListBuilder { sort, ..ListBuilder { state, ..b } } }).request_spec()
            == (ListBuilder {
            state,
            ..ListBuilder { sort, ..ListBuilder { direction, ..b } }
        }).request_spec(),
{
}

/// A failure of the transport comes back unchanged from every operation, be
/// its answer one pull request or a list of them.
pub proof fn lemma_transport_failure_unchanged<E>(
    e: E,
    one: Result<Pull, Error<E>>,
    many: Result<Vec<Pull>, Error<E>>,
)
    requires
        decodes_pull(Err(e), one),
        decodes_pulls(Err(e), many),
    ensures
        one == Err::<Pull, Error<E>>(Error::Transport(e)),
        many == Err::<Vec<Pull>, Error<E>>(Error::Transport(e)),
{
}

} // verus!
