//! Addresses given as URLs: the endpoint a server listens on and the one a
//! client connects to.

use vstd::prelude::*;
use crate::channels::text_view;
use crate::transports::{address_of, contains_double_slash, has_double_slash, url_address};

verus! {

/// The serialization of the URL that `url::Url::parse` makes of `input`, or
/// `None` when it refuses the input.
pub uninterp spec fn parsed_url(input: Seq<char>) -> Option<Seq<char>>;

/// Calls `url::Url::parse` and hands back the serialization of the parsed URL
/// (`Url::as_str`). The contract names the result after its input.
#[verifier::external_body]
fn parse_url(input: &str) -> (r: Option<String>)
    ensures
        text_view(r) == parsed_url(input@),
{
    match url::Url::parse(input) {
        Ok(u) => Some(u.as_str().to_string()),
        Err(_) => None,
    }
}

/// The position of the first `:` in `s`, or its length when there is none.
pub open spec fn find_colon(s: Seq<char>, from: int) -> int
    decreases s.len() - from,
{
    if from < 0 || from >= s.len() {
        s.len() as int
    } else if s[from] == ':' {
        from
    } else {
        find_colon(s, from + 1)
    }
}

/// The scheme of a URL serialization: what stands before its first `:`.
pub open spec fn scheme_of(s: Seq<char>) -> Seq<char> {
    s.subrange(0, find_colon(s, 0))
}

proof fn lemma_find_colon_bounds(s: Seq<char>, from: int)
    requires
        0 <= from <= s.len(),
    ensures
        from <= find_colon(s, from) <= s.len(),
    decreases s.len() - from,
{
    if from < s.len() && s[from] != ':' {
        lemma_find_colon_bounds(s, from + 1);
    }
}

fn scheme_part(s: &str) -> (r: &str)
    ensures
        r@ == scheme_of(s@),
{
    let n = s.unicode_len();
    proof {
        lemma_find_colon_bounds(s@, 0);
    }
    let mut i: usize = 0;
    while i < n && s.get_char(i) != ':'
        invariant
            n == s@.len(),
            0 <= i <= n,
            find_colon(s@, i as int) == find_colon(s@, 0),
        decreases n - i,
    {
        i += 1;
    }
    s.substring_char(0, i)
}

/// The URL a server node listens on.
pub struct ListenTo {
    url: String,
}

impl ListenTo {
    /// The serialization of the URL.
    pub closed spec fn url(self) -> Seq<char> {
        self.url@
    }

    /// Parses `url_str`; `None` when it is no URL.
    pub fn parse(url_str: &str) -> (r: Option<ListenTo>)
        ensures
            match parsed_url(url_str@) {
                Some(u) => r matches Some(l) && l.url() == u,
                None => r is None,
            },
    {
        match parse_url(url_str) {
            Some(_) => Some(ListenTo::new(url_str)),
            None => None,
        }
    }

    /// The listen address of a URL; `url_str` must be a URL.
    pub fn new(url_str: &str) -> (r: ListenTo)
        requires
            parsed_url(url_str@) is Some,
        ensures
            r.url() == parsed_url(url_str@).unwrap(),
    {
        let url = parse_url(url_str).unwrap();
        ListenTo { url }
    }

    /// The serialization of the URL.
    pub fn as_str(&self) -> (r: &str)
        ensures
            r@ == self.url(),
    {
        self.url.as_str()
    }

    /// The URL's scheme, such as `udp` or `tcp`.
    pub fn scheme(&self) -> (r: &str)
        ensures
            r@ == scheme_of(self.url()),
    {
        scheme_part(self.url.as_str())
    }

    /// Whether the URL has an address part (a `//`), which `local_addr` needs.
    pub fn has_address(&self) -> (r: bool)
        ensures
            r == has_double_slash(self.url()),
    {
        contains_double_slash(self.url.as_str())
    }

    /// The host and port to listen on: what stands after the URL's `//` up
    /// to the next `/`. The URL must have a `//`.
    pub fn local_addr(&self) -> (r: &str)
        requires
            has_double_slash(self.url()),
        ensures
            r@ == address_of(self.url()),
    {
        url_address(self.url.as_str())
    }
}

/// The URL a client node connects to.
pub struct ConnectTo {
    url: String,
}

impl ConnectTo {
    /// The serialization of the URL.
    pub closed spec fn url(self) -> Seq<char> {
        self.url@
    }

    /// Parses `url_str`; `None` when it is no URL.
    pub fn parse(url_str: &str) -> (r: Option<ConnectTo>)
        ensures
            match parsed_url(url_str@) {
                Some(u) => r matches Some(c) && c.url() == u,
                None => r is None,
            },
    {
        match parse_url(url_str) {
            Some(_) => Some(ConnectTo::new(url_str)),
            None => None,
        }
    }

    /// The connect address of a URL; `url_str` must be a URL.
    pub fn new(url_str: &str) -> (r: ConnectTo)
        requires
            parsed_url(url_str@) is Some,
        ensures
            r.url() == parsed_url(url_str@).unwrap(),
    {
        let url = parse_url(url_str).unwrap();
        ConnectTo { url }
    }

    /// The serialization of the URL.
    pub fn as_str(&self) -> (r: &str)
        ensures
            r@ == self.url(),
    {
        self.url.as_str()
    }

    /// The URL's scheme, such as `ws` or `tcp`.
    pub fn scheme(&self) -> (r: &str)
        ensures
            r@ == scheme_of(self.url()),
    {
        scheme_part(self.url.as_str())
    }

    /// Whether the URL has an address part (a `//`), which `peer_addr` needs.
    pub fn has_address(&self) -> (r: bool)
        ensures
            r == has_double_slash(self.url()),
    {
        contains_double_slash(self.url.as_str())
    }

    /// The host and port to connect to: what stands after the URL's `//` up
    /// to the next `/`. The URL must have a `//`.
    pub fn peer_addr(&self) -> (r: &str)
        requires
            has_double_slash(self.url()),
        ensures
            r@ == address_of(self.url()),
    {
        url_address(self.url.as_str())
    }
}

} // verus!
