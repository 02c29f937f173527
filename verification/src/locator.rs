//! URLs in normal form.

use url::ParseError;
use url::Url;
use vstd::prelude::*;
use vstd::string::*;

verus! {

/// `url::ParseError`, with which `Url::parse` and `Url::join` fail. Nothing
/// is said of what it holds.
#[verifier::external_type_specification]
#[verifier::external_body]
pub struct ExParseError(ParseError);

/// What `Url::parse` makes of `text`: the serialization of the URL it
/// returns, or `None` where it returns an error.
pub uninterp spec fn url_parse(text: Seq<char>) -> Option<Seq<char>>;

/// What `Url::join` makes of `reference` on the URL that `Url::parse` makes
/// of `base`: the serialization of the URL it returns, or `None` where
/// either of the two returns an error.
pub uninterp spec fn url_join(base: Seq<char>, reference: Seq<char>) -> Option<Seq<char>>;

/// Calls `Url::parse` and hands back the URL's serialization, which is what
/// URLs are compared and hashed by. Trusted, not verified: the outcome is
/// taken to be what [`url_parse`] names for this text.
#[verifier::external_body]
fn parse_url(text: &str) -> (r: Result<String, ParseError>)
    ensures
        match r {
            Ok(s) => url_parse(text@) == Some(s@),
            Err(_) => url_parse(text@) is None,
        },
{
    Url::parse(text).map(String::from)
}

/// Calls `Url::join` with `reference` on the URL that `Url::parse` gives for
/// `base`, and hands back the serialization of the joined URL. Trusted, not
/// verified: the outcome is taken to be what [`url_join`] names for these
/// two texts.
#[verifier::external_body]
fn join_url(base: &str, reference: &str) -> (r: Result<String, ParseError>)
    ensures
        match r {
            Ok(s) => url_join(base@, reference@) == Some(s@),
            Err(_) => url_join(base@, reference@) is None,
        },
{
    Url::parse(base)?.join(reference).map(String::from)
}

/// `n` is where the scheme of `text` ends: no `:` stands before it, and one
/// stands at it unless the text ends there.
pub open spec fn ends_scheme(text: Seq<char>, n: int) -> bool {
    &&& 0 <= n <= text.len()
    &&& forall|i: int| 0 <= i < n ==> text[i] != ':'
    &&& n < text.len() ==> text[n] == ':'
}

/// The scheme of a URL in normal form: what stands before its first `:`.
pub open spec fn scheme_of(text: Seq<char>) -> Seq<char> {
    text.take(choose|n: int| ends_scheme(text, n))
}

/// There is exactly one place where the scheme ends.
pub proof fn lemma_scheme_end_unique(text: Seq<char>, n: int)
    requires
        ends_scheme(text, n),
    ensures
        scheme_of(text) == text.take(n),
{
    let m = choose|m: int| ends_scheme(text, m);
    assert(ends_scheme(text, m));
    if m < n {
        assert(text[m] == ':');
    } else if n < m {
        assert(text[n] == ':');
    }
}

/// `text` is a URL as the URL parser writes it out: what it makes of some
/// text, alone or resolved against a base.
pub open spec fn normal_form(text: Seq<char>) -> bool {
    ||| exists|input: Seq<char>| url_parse(input) == Some(text)
    ||| exists|base: Seq<char>, reference: Seq<char>| url_join(base, reference) == Some(text)
}

/// A URL in normal form, as the URL parser writes it out. Two locators name
/// the same resource exactly when their texts are equal.
#[derive(Debug)]
pub struct Locator {
    text: String,
}

impl View for Locator {
    type V = Seq<char>;

    closed spec fn view(&self) -> Seq<char> {
        self.text@
    }
}

impl PartialEq for Locator {
    fn eq(&self, other: &Locator) -> (equal: bool) {
        self.text == other.text
    }
}

impl vstd::std_specs::cmp::PartialEqSpecImpl for Locator {
    open spec fn obeys_eq_spec() -> bool {
        true
    }

    /// Locators are equal exactly when their texts are.
    open spec fn eq_spec(&self, other: &Locator) -> bool {
        self@ == other@
    }
}

impl Eq for Locator {

}

impl Clone for Locator {
    fn clone(&self) -> (copy: Locator)
        ensures
            copy@ == self@,
    {
        proof {
            use_type_invariant(self);
        }
        Locator { text: self.text.clone() }
    }
}

impl Locator {
    #[verifier::type_invariant]
    spec fn parsed(self) -> bool {
        normal_form(self.text@)
    }

    /// Reads a URL. Fails exactly where the URL parser does.
    pub fn parse(text: &str) -> (r: Option<Locator>)
        ensures
            match r {
                Some(l) => url_parse(text@) == Some(l@),
                None => url_parse(text@) is None,
            },
    {
        match parse_url(text) {
            Ok(text) => Some(Locator { text }),
            Err(_) => None,
        }
    }

    /// Resolves `reference` against the URL that `base` holds.
    pub fn join(base: &str, reference: &str) -> (r: Option<Locator>)
        ensures
            match r {
                Some(l) => url_join(base@, reference@) == Some(l@),
                None => url_join(base@, reference@) is None,
            },
    {
        match join_url(base, reference) {
            Ok(text) => Some(Locator { text }),
            Err(_) => None,
        }
    }

    /// The locator's text, which is in normal form.
    pub fn as_str(&self) -> (s: &str)
        ensures
            s@ == self@,
            normal_form(s@),
    {
        proof {
            use_type_invariant(self);
        }
        self.text.as_str()
    }

    /// Gives up the locator for its text.
    pub fn into_string(self) -> (s: String)
        ensures
            s@ == self@,
    {
        self.text
    }

    /// The scheme, without the `:` that follows it. The URL parser writes a
    /// URL out with its scheme first and a `:` after it, and no scheme holds
    /// a `:`, so this is the scheme that the parser found.
    pub fn scheme(&self) -> (s: String)
        ensures
            s@ == scheme_of(self@),
    {
        let text = self.text.as_str();
        let len: usize = text.unicode_len();
        let mut n: usize = 0;
        while n < len && text.get_char(n) != ':'
            invariant
                len == text@.len(),
                n <= len,
                forall|i: int| 0 <= i < n ==> text@[i] != ':',
            decreases len - n,
        {
            n = n + 1;
        }
        proof {
            lemma_scheme_end_unique(text@, n as int);
        }
        String::from_str(text.substring_char(0, n))
    }
}

} // verus!
