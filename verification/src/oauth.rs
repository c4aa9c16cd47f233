//! The authorization callback endpoints' decisions and pages.
//!
//! The listener that accepts connections is host glue; what it serves is
//! decided here: which endpoint a path names, the page each endpoint
//! returns for given query parameters, and the store of results that the
//! redirect endpoint fills and the application polls.

use vstd::prelude::*;

verus! {

/// The result of one authorization flow, stored under its token identifier.
#[derive(Debug, Clone, PartialEq, Eq)]
pub struct OAuthResult {
    pub success: bool,
    pub access_token_id: String,
    pub access_token: String,
    pub reason: Option<String>,
}

/// Mathematical counterpart of [`OAuthResult`].
pub struct OAuthResultV {
    pub success: bool,
    pub access_token_id: Seq<char>,
    pub access_token: Seq<char>,
    pub reason: Option<Seq<char>>,
}

impl View for OAuthResult {
    type V = OAuthResultV;

    open spec fn view(&self) -> OAuthResultV {
        OAuthResultV {
            success: self.success,
            access_token_id: self.access_token_id@,
            access_token: self.access_token@,
            reason: match self.reason {
                Some(r) => Some(r@),
                None => None,
            },
        }
    }
}

impl OAuthResult {
    /// A copy of this result with the same view.
    pub fn duplicate(&self) -> (r: OAuthResult)
        ensures
            r@ == self@,
    {
        OAuthResult {
            success: self.success,
            access_token_id: self.access_token_id.clone(),
            access_token: self.access_token.clone(),
            reason: match &self.reason {
                Some(s) => Some(s.clone()),
                None => None,
            },
        }
    }
}

/// The string with every single quote replaced by a backslash-escaped one,
/// so it can stand inside a single-quoted script literal.
pub open spec fn escape_single_quotes(s: Seq<char>) -> Seq<char>
    decreases s,
{
    if s.len() == 0 {
        Seq::empty()
    } else {
        escape_single_quotes(s.drop_last()) + (if s.last() == '\'' {
            seq!['\\', '\'']
        } else {
            seq![s.last()]
        })
    }
}

/// The relay page: a shell that forwards the browser to the authorization
/// URL, which is escaped into the script's string literal.
pub open spec fn relay_page_html(url: Seq<char>) -> Seq<char> {
    "<!DOCTYPE html>\n<html>\n<head>\n  <meta charset=\"UTF-8\">\n  <script>\n    window.location.href = '"@
        + escape_single_quotes(url)
        + "';\n  </script>\n</head>\n<body></body>\n</html>"@
}

/// Generates the HTML for the relay page around the given authorization
/// URL.
pub fn get_relay_page_html(auth_url: &str) -> (r: String)
    ensures
        r@ == relay_page_html(auth_url@),
{
    let mut escaped = String::new();
    let n = auth_url.unicode_len();
    let mut i: usize = 0;
    while i < n
        invariant
            i <= n,
            n == auth_url@.len(),
            escaped@ == escape_single_quotes(auth_url@.take(i as int)),
        decreases n - i,
    {
        let c = auth_url.get_char(i);
        proof {
            assert(auth_url@.take(i as int + 1).drop_last() =~= auth_url@.take(i as int));
            assert(auth_url@.take(i as int + 1).last() == auth_url@[i as int]);
            reveal_strlit("\\'");
        }
        if c == '\'' {
            escaped.append("\\'");
            proof {
                assert(escaped@ =~= escape_single_quotes(auth_url@.take(i as int + 1)));
            }
        } else {
            let one = auth_url.substring_char(i, i + 1);
            escaped.append(one);
            proof {
                assert(auth_url@.subrange(i as int, i as int + 1) =~= seq![auth_url@[i as int]]);
                assert(escaped@ =~= escape_single_quotes(auth_url@.take(i as int + 1)));
            }
        }
        i = i + 1;
    }
    proof {
        assert(auth_url@.take(n as int) =~= auth_url@);
    }
    let mut r = String::new();
    r.append(
        "<!DOCTYPE html>\n<html>\n<head>\n  <meta charset=\"UTF-8\">\n  <script>\n    window.location.href = '",
    );
    r.append(escaped.as_str());
    r.append("';\n  </script>\n</head>\n<body></body>\n</html>");
    r
}

/// Generates the page shown after a successful authorization.
pub fn get_success_html() -> (r: &'static str)
    ensures
        r@
            == "<html><body><h1>Authentication successful! You can close this window.</h1></body></html>"@,
{
    "<html><body><h1>Authentication successful! You can close this window.</h1></body></html>"
}

/// Generates the page shown when the redirect lacks its token parameters.
pub fn get_error_html() -> (r: &'static str)
    ensures
        r@
            == "<html><body><h1>Authentication failed</h1><p>Missing access token parameters.</p></body></html>"@,
{
    "<html><body><h1>Authentication failed</h1><p>Missing access token parameters.</p></body></html>"
}

/// The string with its trailing slashes removed.
pub open spec fn without_trailing_slashes(s: Seq<char>) -> Seq<char>
    decreases s,
{
    if s.len() > 0 && s.last() == '/' {
        without_trailing_slashes(s.drop_last())
    } else {
        s
    }
}

/// The initiation endpoint under a service URL.
pub open spec fn initiate_url_of(edge_url: Seq<char>) -> Seq<char> {
    without_trailing_slashes(edge_url) + "/oauth/initiate"@
}

/// Builds the initiation endpoint's URL from the service URL, tolerating
/// trailing slashes on it.
pub fn initiate_url(edge_url: &str) -> (r: String)
    ensures
        r@ == initiate_url_of(edge_url@),
{
    let n = edge_url.unicode_len();
    let mut k: usize = n;
    proof {
        assert(edge_url@.take(n as int) =~= edge_url@);
    }
    while k > 0 && edge_url.get_char(k - 1) == '/'
        invariant
            k <= n,
            n == edge_url@.len(),
            without_trailing_slashes(edge_url@) == without_trailing_slashes(
                edge_url@.take(k as int),
            ),
        decreases k,
    {
        proof {
            assert(edge_url@.take(k as int).last() == edge_url@[k as int - 1]);
            assert(edge_url@.take(k as int).drop_last() =~= edge_url@.take(k as int - 1));
        }
        k = k - 1;
    }
    proof {
        assert(edge_url@.take(n as int) =~= edge_url@);
        if k > 0 {
            assert(edge_url@.take(k as int).last() == edge_url@[k as int - 1]);
        }
        assert(without_trailing_slashes(edge_url@.take(k as int)) == edge_url@.take(k as int));
    }
    let mut r = edge_url.substring_char(0, k).to_owned();
    proof {
        assert(edge_url@.subrange(0, k as int) =~= edge_url@.take(k as int));
    }
    r.append("/oauth/initiate");
    r
}

/// What the initiation response means: the authorization URL on success
/// with one present, else the exact complaint, built from the service's
/// error message when it sent one.
pub fn initiate_outcome(
    success: bool,
    auth_url: Option<String>,
    error_message: Option<String>,
) -> (r: Result<String, String>)
    ensures
        match r {
            Ok(url) => success && (auth_url matches Some(u) && url@ == u@),
            Err(m) => {
                if success {
                    auth_url is None && m@ == "No auth URL in response"@
                } else {
                    m@ == "OAuth initiation failed: "@ + (match error_message {
                        Some(e) => e@,
                        None => "Unknown error"@,
                    })
                }
            },
        },
        success && auth_url is Some <==> r is Ok,
{
    if !success {
        let mut m = "OAuth initiation failed: ".to_owned();
        match error_message {
            Some(e) => m.append(e.as_str()),
            None => m.append("Unknown error"),
        }
        return Err(m);
    }
    match auth_url {
        Some(u) => Ok(u),
        None => Err("No auth URL in response".to_owned()),
    }
}

/// The endpoints the callback listener serves.
#[derive(Debug, Clone, Copy, PartialEq, Eq, Structural)]
pub enum OAuthRoute {
    /// The relay page that forwards the browser to the authorization URL.
    Relay,
    /// The redirect callback that delivers the tokens.
    Redirect,
    /// Anything else.
    NotFound,
}

/// The endpoint a request path names.
pub open spec fn route_of(path: Seq<char>) -> OAuthRoute {
    if path == "/oauth-relay"@ {
        OAuthRoute::Relay
    } else if path == "/redirect/oauth"@ {
        OAuthRoute::Redirect
    } else {
        OAuthRoute::NotFound
    }
}

/// Decides which endpoint a request path names.
pub fn route_for_path(path: &String) -> (r: OAuthRoute)
    ensures
        r == route_of(path@),
{
    let relay = "/oauth-relay".to_owned();
    let redirect = "/redirect/oauth".to_owned();
    if *path == relay {
        OAuthRoute::Relay
    } else if *path == redirect {
        OAuthRoute::Redirect
    } else {
        OAuthRoute::NotFound
    }
}

/// The relay endpoint's answer for the given `authUrl` parameter: the relay
/// page when it is present, otherwise a complaint with a client-error
/// status.
pub fn handle_oauth_relay(auth_url: Option<&String>) -> (r: (String, u16))
    ensures
        match auth_url {
            Some(u) => r.0@ == relay_page_html(u@) && r.1 == 200,
            None => r.0@ == "Missing authUrl parameter"@ && r.1 == 400,
        },
{
    match auth_url {
        Some(u) => (get_relay_page_html(u.as_str()), 200),
        None => ("Missing authUrl parameter".to_owned(), 400),
    }
}

/// The store of authorization results, keyed by token identifier; the
/// latest stored result for an identifier wins.
#[derive(Debug, Clone, PartialEq, Eq)]
pub struct OAuthServerState {
    pub results: Vec<OAuthResult>,
}

/// The stored result for an identifier: of the results stored under it, the
/// latest.
pub open spec fn stored_result(results: Seq<OAuthResultV>, id: Seq<char>) -> Option<OAuthResultV>
    decreases results,
{
    if results.len() == 0 {
        None
    } else if results.last().access_token_id == id {
        Some(results.last())
    } else {
        stored_result(results.drop_last(), id)
    }
}

impl View for OAuthServerState {
    type V = Seq<OAuthResultV>;

    open spec fn view(&self) -> Seq<OAuthResultV> {
        Seq::new(self.results@.len(), |i: int| self.results@[i]@)
    }
}

impl OAuthServerState {
    /// An empty store: no flow has completed yet.
    pub fn new() -> (s: OAuthServerState)
        ensures
            s@ == Seq::<OAuthResultV>::empty(),
    {
        let s = OAuthServerState { results: Vec::new() };
        proof {
            assert(s@ =~= Seq::<OAuthResultV>::empty());
        }
        s
    }

    /// Stores one result; it becomes the one returned for its identifier.
    pub fn store(&mut self, result: OAuthResult)
        ensures
            final(self)@ == old(self)@.push(result@),
    {
        let ghost prev = self@;
        self.results.push(result);
        proof {
            assert(self@ =~= prev.push(result@));
        }
    }

    /// The stored result for an identifier, if one arrived.
    pub fn get_result(&self, access_token_id: &String) -> (r: Option<OAuthResult>)
        ensures
            match r {
                Some(res) => stored_result(self@, access_token_id@) == Some(res@),
                None => stored_result(self@, access_token_id@) is None,
            },
    {
        let ghost results = self@;
        let mut i: usize = self.results.len();
        proof {
            assert(results.take(i as int) =~= results);
        }
        while i > 0
            invariant
                i <= self.results@.len(),
                results == self@,
                results.len() == self.results@.len(),
                forall|j: int| 0 <= j < results.len() ==> results[j] == self.results@[j]@,
                stored_result(results, access_token_id@) == stored_result(
                    results.take(i as int),
                    access_token_id@,
                ),
            decreases i,
        {
            proof {
                assert(results.take(i as int).last() == results[i as int - 1]);
                assert(results.take(i as int).drop_last() =~= results.take(i as int - 1));
            }
            if self.results[i - 1].access_token_id == *access_token_id {
                return Some(self.results[i - 1].duplicate());
            }
            i = i - 1;
        }
        proof {
            assert(results.take(0) =~= Seq::<OAuthResultV>::empty());
        }
        None
    }
}

/// The redirect endpoint's answer for the given token parameters: with both
/// present, a successful result is stored under the identifier and the
/// success page returned; with either missing, nothing is stored and the
/// error page returned with a client-error status.
pub fn handle_oauth_redirect(
    state: &mut OAuthServerState,
    access_token_id: Option<&String>,
    access_token: Option<&String>,
) -> (r: (String, u16))
    ensures
        match (access_token_id, access_token) {
            (Some(id), Some(token)) => {
                &&& final(state)@ == old(state)@.push(
                    OAuthResultV {
                        success: true,
                        access_token_id: id@,
                        access_token: token@,
                        reason: None,
                    },
                )
                &&& r.0@
                    == "<html><body><h1>Authentication successful! You can close this window.</h1></body></html>"@
                &&& r.1 == 200
            },
            _ => {
                &&& final(state)@ == old(state)@
                &&& r.0@
                    == "<html><body><h1>Authentication failed</h1><p>Missing access token parameters.</p></body></html>"@
                &&& r.1 == 400
            },
        },
{
    match (access_token_id, access_token) {
        (Some(id), Some(token)) => {
            let result = OAuthResult {
                success: true,
                access_token_id: id.clone(),
                access_token: token.clone(),
                reason: None,
            };
            state.store(result);
            (get_success_html().to_owned(), 200)
        },
        _ => (get_error_html().to_owned(), 400),
    }
}

} // verus!
