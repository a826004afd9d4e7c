use vstd::prelude::*;
use vstd::string::*;
use crate::text::{is_prefix, same_text, starts_with_text};

verus! {

/// What `Url::parse` makes of a text, read back as its scheme, its authority
/// and its query string (if any); `None` where the text is not an absolute URL.
pub uninterp spec fn url_parts_of(text: Seq<char>) -> Option<(Seq<char>, Seq<char>, Option<Seq<char>>)>;

/// What `application/x-www-form-urlencoded` decoding makes of a query string:
/// its key/value pairs, in order.
pub uninterp spec fn form_pairs_of(query: Seq<char>) -> Seq<(Seq<char>, Seq<char>)>;

/// The characters of a parsed URL's parts.
pub open spec fn parts_view(p: (String, String, Option<String>)) -> (Seq<char>, Seq<char>, Option<Seq<char>>) {
    (
        p.0@,
        p.1@,
        match p.2 {
            Some(q) => Some(q@),
            None => None,
        },
    )
}

/// Relies on `Url::parse`, whose result is read through `Url::scheme`,
/// `Url::authority` and `Url::query`: the parts of the URL that the text
/// holds, or `None` where it holds none.
#[verifier::external_body]
fn parse_url_parts(text: &str) -> (r: Option<(String, String, Option<String>)>)
    ensures
        r is Some <==> url_parts_of(text@) is Some,
        r matches Some(p) ==> url_parts_of(text@) == Some(parts_view(p)),
{
    url::Url::parse(text).ok().map(
        |u| (u.scheme().to_string(), u.authority().to_string(), u.query().map(|q| q.to_string())),
    )
}

/// Relies on `url::form_urlencoded::parse` (the decoding behind
/// `Url::query_pairs`): the decoded pairs of a query string, in order; an
/// empty query holds none.
#[verifier::external_body]
fn decode_query(query: &str) -> (r: Vec<(String, String)>)
    ensures
        pairs_view(r@) == form_pairs_of(query@),
        query@.len() == 0 ==> r@.len() == 0,
{
    url::form_urlencoded::parse(query.as_bytes()).into_owned().collect()
}

/// The characters of each key and value of a list of pairs.
pub open spec fn pairs_view(v: Seq<(String, String)>) -> Seq<(Seq<char>, Seq<char>)> {
    v.map_values(|p: (String, String)| (p.0@, p.1@))
}

/// A candidate link, held as the parts of it that authorization reads.
pub struct AuthUrl {
    pub scheme: String,
    pub authority: String,
    /// The decoded query, as ordered key/value pairs; keys may repeat.
    pub query_pairs: Vec<(String, String)>,
}

pub struct AuthUrlView {
    pub scheme: Seq<char>,
    pub authority: Seq<char>,
    pub query_pairs: Seq<(Seq<char>, Seq<char>)>,
}

impl View for AuthUrl {
    type V = AuthUrlView;

    open spec fn view(&self) -> AuthUrlView {
        AuthUrlView {
            scheme: self.scheme@,
            authority: self.authority@,
            query_pairs: pairs_view(self.query_pairs@),
        }
    }
}

/// The view of an optional link.
pub open spec fn opt_link_view(o: Option<AuthUrl>) -> Option<AuthUrlView> {
    match o {
        Some(l) => Some(l@),
        None => None,
    }
}

/// The link that a URL's parts make: its query decoded into pairs, none where
/// it has no query.
pub open spec fn link_of_parts(p: (Seq<char>, Seq<char>, Option<Seq<char>>)) -> AuthUrlView {
    AuthUrlView {
        scheme: p.0,
        authority: p.1,
        query_pairs: match p.2 {
            Some(q) => form_pairs_of(q),
            None => Seq::empty(),
        },
    }
}

/// The link that a text holds, if it is an absolute URL.
pub open spec fn parsed_link(text: Seq<char>) -> Option<AuthUrlView> {
    match url_parts_of(text) {
        Some(p) => Some(link_of_parts(p)),
        None => None,
    }
}

/// The scheme of the application's links.
pub open spec fn app_scheme() -> Seq<char> {
    "dynbox"@
}

/// The text that an argument carrying one of the application's links starts with.
pub open spec fn app_link_prefix() -> Seq<char> {
    "dynbox://"@
}

/// The link that a launch argument carries: one that starts with `dynbox://`,
/// parses as a URL, and has the scheme `dynbox`.
pub open spec fn launch_link_of(arg: Seq<char>) -> Option<AuthUrlView> {
    if is_prefix(app_link_prefix(), arg) {
        match parsed_link(arg) {
            Some(l) => if l.scheme == app_scheme() {
                Some(l)
            } else {
                None
            },
            None => None,
        }
    } else {
        None
    }
}

/// The links that a list of launch arguments carries, one per argument that
/// carries one, in order.
pub open spec fn launch_links_of(args: Seq<Seq<char>>) -> Seq<AuthUrlView>
    decreases args.len(),
{
    if args.len() == 0 {
        Seq::empty()
    } else {
        let head = launch_links_of(args.drop_last());
        match launch_link_of(args.last()) {
            Some(l) => head.push(l),
            None => head,
        }
    }
}

/// The characters of each string of a list.
pub open spec fn texts_view(v: Seq<String>) -> Seq<Seq<char>> {
    v.map_values(|s: String| s@)
}

impl AuthUrl {
    /// The link that `text` holds: its scheme, its authority, and its query
    /// decoded into pairs; `None` where `text` is not an absolute URL.
    pub fn parse(text: &str) -> (r: Option<AuthUrl>)
        ensures
            opt_link_view(r) == parsed_link(text@),
    {
        match parse_url_parts(text) {
            None => None,
            Some(p) => {
                let (scheme, authority, query) = p;
                let query_pairs = match query {
                    Some(q) => decode_query(q.as_str()),
                    None => {
                        let v: Vec<(String, String)> = Vec::new();
                        assert(pairs_view(v@) =~= Seq::empty());
                        v
                    },
                };
                let l = AuthUrl { scheme, authority, query_pairs };
                assert(l@ == link_of_parts(url_parts_of(text@)->Some_0));
                Some(l)
            },
        }
    }

    /// Whether this link has the application's scheme, `dynbox`.
    pub fn has_app_scheme(&self) -> (r: bool)
        ensures
            r == (self@.scheme == app_scheme()),
    {
        same_text(self.scheme.as_str(), "dynbox")
    }

    /// The link that a command-line argument of a second launch carries: an
    /// argument that starts with `dynbox://`, parses as a URL, and keeps
    /// `dynbox` as its scheme. Any other argument carries none.
    pub fn from_launch_arg(arg: &str) -> (r: Option<AuthUrl>)
        ensures
            opt_link_view(r) == launch_link_of(arg@),
    {
        if !starts_with_text(arg, "dynbox://") {
            return None;
        }
        match AuthUrl::parse(arg) {
            None => None,
            Some(l) => if l.has_app_scheme() {
                Some(l)
            } else {
                None
            },
        }
    }
}

/// The links that the arguments of a second launch carry, in order: one for
/// each argument that carries one. Each is handled in a call of its own.
pub fn launch_links(args: &Vec<String>) -> (r: Vec<AuthUrl>)
    ensures
        r@.map_values(|l: AuthUrl| l@) == launch_links_of(texts_view(args@)),
{
    let ghost all = texts_view(args@);
    let mut out: Vec<AuthUrl> = Vec::new();
    let mut i: usize = 0;
    assert(all.subrange(0, 0) =~= Seq::<Seq<char>>::empty());
    assert(out@.map_values(|l: AuthUrl| l@) =~= Seq::<AuthUrlView>::empty());
    while i < args.len()
        invariant
            i <= args@.len(),
            all == texts_view(args@),
            out@.map_values(|l: AuthUrl| l@) == launch_links_of(all.subrange(0, i as int)),
        decreases args@.len() - i,
    {
        let ghost before = out@.map_values(|l: AuthUrl| l@);
        let ghost taken = all.subrange(0, i + 1);
        assert(taken.drop_last() =~= all.subrange(0, i as int));
        assert(taken.last() == args@[i as int]@);
        match AuthUrl::from_launch_arg(args[i].as_str()) {
            Some(l) => {
                out.push(l);
                assert(out@.map_values(|l: AuthUrl| l@) =~= before.push(out@.last()@));
            },
            None => {},
        }
        i = i + 1;
    }
    assert(all.subrange(0, i as int) =~= all);
    out
}

} // verus!
