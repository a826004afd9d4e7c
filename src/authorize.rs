use vstd::prelude::*;
use crate::link::{pairs_view, AuthUrl, AuthUrlView};
use crate::text::same_text;

verus! {

/// The query key under which a link carries its token.
pub open spec fn token_key() -> Seq<char> {
    "token"@
}

/// The value of the first pair whose key is `token`, if there is one.
pub open spec fn first_token(pairs: Seq<(Seq<char>, Seq<char>)>) -> Option<Seq<char>>
    decreases pairs.len(),
{
    if pairs.len() == 0 {
        None
    } else if pairs[0].0 == token_key() {
        Some(pairs[0].1)
    } else {
        first_token(pairs.drop_first())
    }
}

/// Whether a link is an authorization link: scheme `dynbox`, authority `authorize`.
pub open spec fn is_authorize_link(u: AuthUrlView) -> bool {
    u.scheme == "dynbox"@ && u.authority == "authorize"@
}

/// The token that a single link offers: the first `token` value of an
/// authorization link; none for any other link.
pub open spec fn link_token(u: AuthUrlView) -> Option<Seq<char>> {
    if is_authorize_link(u) {
        first_token(u.query_pairs)
    } else {
        None
    }
}

/// The token that one call takes from a list of links: that of the first link
/// that offers one. Links after it are never read.
pub open spec fn list_token(urls: Seq<AuthUrlView>) -> Option<Seq<char>>
    decreases urls.len(),
{
    if urls.len() == 0 {
        None
    } else if link_token(urls[0]) is Some {
        link_token(urls[0])
    } else {
        list_token(urls.drop_first())
    }
}

/// The views of a list of links.
pub open spec fn urls_view(urls: Seq<AuthUrl>) -> Seq<AuthUrlView> {
    urls.map_values(|u: AuthUrl| u@)
}

/// The characters of an optional string.
pub open spec fn opt_view(o: Option<String>) -> Option<Seq<char>> {
    match o {
        Some(s) => Some(s@),
        None => None,
    }
}

/// The store's `token` entry after a call on `urls` whose write and flush
/// succeeded: the call's token where it found one, else the entry unchanged.
pub open spec fn stored_after(before: Option<Seq<char>>, urls: Seq<AuthUrlView>) -> Option<Seq<char>> {
    match list_token(urls) {
        Some(t) => Some(t),
        None => before,
    }
}

/// The value of the first pair whose key is `token`; `None` where no key is.
pub fn token_in_pairs(pairs: &Vec<(String, String)>) -> (r: Option<String>)
    ensures
        opt_view(r) == first_token(pairs_view(pairs@)),
{
    let ghost all = pairs_view(pairs@);
    assert(all.skip(0) =~= all);
    let mut i: usize = 0;
    while i < pairs.len()
        invariant
            i <= pairs@.len(),
            all == pairs_view(pairs@),
            first_token(all) == first_token(all.skip(i as int)),
        decreases pairs@.len() - i,
    {
        let (key, value) = &pairs[i];
        let ghost rest = all.skip(i as int);
        assert(rest[0] == (key@, value@));
        if same_text(key.as_str(), "token") {
            return Some(value.clone());
        }
        assert(rest.drop_first() =~= all.skip(i + 1));
        i = i + 1;
    }
    assert(all.skip(i as int) =~= Seq::<(Seq<char>, Seq<char>)>::empty());
    None
}

impl AuthUrl {
    /// Whether this is an authorization link (`dynbox://authorize`).
    pub fn is_authorize(&self) -> (r: bool)
        ensures
            r == is_authorize_link(self@),
    {
        same_text(self.scheme.as_str(), "dynbox") && same_text(self.authority.as_str(), "authorize")
    }

    /// The token this link offers: the first `token` value of an
    /// authorization link, `None` for any other link or where no key is `token`.
    pub fn token(&self) -> (r: Option<String>)
        ensures
            opt_view(r) == link_token(self@),
    {
        if self.is_authorize() {
            token_in_pairs(&self.query_pairs)
        } else {
            None
        }
    }
}

/// The token that one delivery of links stores: that of the first
/// authorization link carrying a `token` key, whose first `token` value wins.
/// `None` means the store is neither written nor flushed, and the call
/// succeeds; `Some(t)` means `t` is written under `token` and flushed, once,
/// and no later link of the list is looked at.
pub fn process_auth_urls(urls: &Vec<AuthUrl>) -> (r: Option<String>)
    ensures
        opt_view(r) == list_token(urls_view(urls@)),
        forall|before: Option<Seq<char>>|
            #[trigger] stored_after(before, urls_view(urls@)) == (match r {
                Some(t) => Some(t@),
                None => before,
            }),
{
    let ghost all = urls_view(urls@);
    assert(all.skip(0) =~= all);
    let mut i: usize = 0;
    while i < urls.len()
        invariant
            i <= urls@.len(),
            all == urls_view(urls@),
            list_token(all) == list_token(all.skip(i as int)),
        decreases urls@.len() - i,
    {
        let ghost rest = all.skip(i as int);
        assert(rest[0] == urls@[i as int]@);
        let t = urls[i].token();
        if t.is_some() {
            return t;
        }
        assert(rest.drop_first() =~= all.skip(i + 1));
        i = i + 1;
    }
    assert(all.skip(i as int) =~= Seq::<AuthUrlView>::empty());
    None
}

/// A list in which no link is an authorization link carrying a `token` key
/// yields no token: the store is left untouched and the call succeeds.
pub proof fn lemma_no_token_no_write(urls: Seq<AuthUrlView>)
    requires
        forall|i: int|
            0 <= i < urls.len() ==> !is_authorize_link(#[trigger] urls[i]) || first_token(
                urls[i].query_pairs,
            ) is None,
    ensures
        list_token(urls) is None,
        forall|before: Option<Seq<char>>| #[trigger] stored_after(before, urls) == before,
    decreases urls.len(),
{
    if urls.len() > 0 {
        let rest = urls.drop_first();
        assert forall|i: int| 0 <= i < rest.len() implies !is_authorize_link(#[trigger] rest[i])
            || first_token(rest[i].query_pairs) is None by {
            assert(rest[i] == urls[i + 1]);
        }
        lemma_no_token_no_write(rest);
        assert(!is_authorize_link(urls[0]) || first_token(urls[0].query_pairs) is None);
    }
}

/// Once a link yields a token, the links after it play no part: whatever
/// follows, the call stores that token and reads no further.
pub proof fn lemma_links_after_token_unread(
    head: Seq<AuthUrlView>,
    u: AuthUrlView,
    tail: Seq<AuthUrlView>,
)
    requires
        list_token(head) is None,
        link_token(u) is Some,
    ensures
        list_token(head.push(u) + tail) == link_token(u),
    decreases head.len(),
{
    let all = head.push(u) + tail;
    if head.len() == 0 {
        assert(all[0] == u);
    } else {
        assert(all[0] == head[0]);
        assert(all.drop_first() =~= head.drop_first().push(u) + tail);
        lemma_links_after_token_unread(head.drop_first(), u, tail);
    }
}

/// Calls are independent: after a call with a link carrying `t1` and a later
/// call with a link carrying `t2`, the store holds `t2`.
pub proof fn lemma_last_call_wins(
    before: Option<Seq<char>>,
    u1: AuthUrlView,
    t1: Seq<char>,
    u2: AuthUrlView,
    t2: Seq<char>,
)
    requires
        link_token(u1) == Some(t1),
        link_token(u2) == Some(t2),
    ensures
        stored_after(before, seq![u1]) == Some(t1),
        stored_after(stored_after(before, seq![u1]), seq![u2]) == Some(t2),
{
    assert(seq![u1][0] == u1);
    assert(seq![u2][0] == u2);
}

/// The store's `token` entry after handling each link of `links` in a call of
/// its own, in order, every write and flush succeeding.
pub open spec fn stored_after_each(before: Option<Seq<char>>, links: Seq<AuthUrlView>) -> Option<Seq<char>>
    decreases links.len(),
{
    if links.len() == 0 {
        before
    } else {
        stored_after(stored_after_each(before, links.drop_last()), seq![links.last()])
    }
}

/// When links are handled one call each, as a second launch does with its
/// arguments, the token of the last link that carries one is what stays.
pub proof fn lemma_last_launch_link_wins(
    before: Option<Seq<char>>,
    links: Seq<AuthUrlView>,
    t: Seq<char>,
)
    requires
        links.len() > 0,
        link_token(links.last()) == Some(t),
    ensures
        stored_after_each(before, links) == Some(t),
{
    assert(seq![links.last()][0] == links.last());
}

} // verus!
