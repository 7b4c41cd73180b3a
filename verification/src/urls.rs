//! URLs, and their comparison.

use vstd::prelude::*;

use crate::actions::DeletionError;

verus! {

/// `url::ParseError`, which tells that a text is not a URL.
#[verifier::external_type_specification]
#[verifier::external_body]
pub struct ExParseError(url::ParseError);

/// What `url::Url::as_str` gives for the URL that `url::Url::parse` reads from the text; `None`
/// where the text is not a URL.
pub uninterp spec fn url_serialization(text: Seq<char>) -> Option<Seq<char>>;

/// What `url::Url::domain` gives for the URL that `url::Url::parse` reads from the text, which has
/// to be a URL; `None` where the URL has no domain.
pub uninterp spec fn url_domain(text: Seq<char>) -> Option<Seq<char>>;

/// The text is a URL.
pub open spec fn is_url(text: Seq<char>) -> bool {
    url_serialization(text) is Some
}

/// `url::Url::parse`, with `url::Url::as_str` for what it reads: the serialization of the URL, or
/// the error on a text that is not a URL.
#[verifier::external_body]
fn serialization(text: &str) -> (res: Result<String, url::ParseError>)
    ensures
        match res {
            Ok(s) => url_serialization(text@) == Some(s@),
            Err(_) => url_serialization(text@) is None,
        },
{
    Ok(url::Url::parse(text)?.as_str().to_owned())
}

/// A URL, held as the text that it is read from.
#[derive(Debug, PartialEq, Eq)]
pub struct Url {
    text: String,
}

impl View for Url {
    type V = Seq<char>;

    closed spec fn view(&self) -> Seq<char> {
        self.text@
    }
}

impl Clone for Url {
    fn clone(&self) -> (res: Self)
        ensures
            res@ == self@,
    {
        proof {
            use_type_invariant(self);
        }
        Url { text: self.text.clone() }
    }
}

impl Url {
    #[verifier::type_invariant]
    spec fn well_formed(self) -> bool {
        is_url(self.text@)
    }

    /// The URL that the text is, if it is one.
    pub fn parse(text: String) -> (res: Option<Url>)
        ensures
            match res {
                Some(url) => is_url(text@) && url@ == text@,
                None => !is_url(text@),
            },
    {
        match serialization(text.as_str()) {
            Ok(_) => Some(Url { text }),
            Err(_) => None,
        }
    }

    /// The text of the URL.
    pub fn as_str(&self) -> (res: &str)
        ensures
            res@ == self@,
            is_url(res@),
    {
        proof {
            use_type_invariant(self);
        }
        self.text.as_str()
    }

    /// The text of the URL.
    pub fn into_string(self) -> (res: String)
        ensures
            res@ == self@,
            is_url(res@),
    {
        proof {
            use_type_invariant(&self);
        }
        self.text
    }
}

/// The texts of a list of URLs.
pub open spec fn url_texts(urls: Seq<Url>) -> Seq<Seq<char>> {
    urls.map_values(|u: Url| u@)
}

/// A copy of a list of URLs.
pub fn clone_urls(urls: &Vec<Url>) -> (res: Vec<Url>)
    ensures
        url_texts(res@) == url_texts(urls@),
{
    let mut res: Vec<Url> = Vec::new();
    for i in 0..urls.len()
        invariant
            res@.len() == i,
            forall|j: int| 0 <= j < i ==> (#[trigger] res@[j])@ == urls@[j]@,
    {
        res.push(urls[i].clone());
    }
    assert(url_texts(res@) =~= url_texts(urls@));
    res
}

/// The collection of everyone, which public activities are addressed to.
pub open spec fn public_url() -> Seq<char> {
    "https://www.w3.org/ns/activitystreams#Public"@
}

/// `activitypub_federation::kinds::public`: the URL that stands for the public.
#[verifier::external_body]
pub(crate) fn public() -> (res: Url)
    ensures
        res@ == public_url(),
{
    Url { text: activitypub_federation::kinds::public().to_string() }
}

/// `activitypub_federation::protocol::verification::verify_domains_match`, on the texts of the
/// URLs: it succeeds exactly where the two have equal domains, or both have none. Texts that are
/// not URLs are left out.
#[verifier::external_body]
fn domains_match(a: &str, b: &str) -> (res: bool)
    requires
        is_url(a@),
        is_url(b@),
    ensures
        res == (url_domain(a@) == url_domain(b@)),
{
    let (a, b) = (url::Url::parse(a).unwrap(), url::Url::parse(b).unwrap());
    activitypub_federation::protocol::verification::verify_domains_match(&a, &b).is_ok()
}

/// `activitypub_federation::protocol::verification::verify_urls_match`, on the texts of the
/// URLs: it succeeds exactly where the two have equal serializations. Texts that are not URLs are
/// left out.
#[verifier::external_body]
fn urls_match(a: &str, b: &str) -> (res: bool)
    requires
        is_url(a@),
        is_url(b@),
    ensures
        res == (url_serialization(a@) == url_serialization(b@)),
{
    let (a, b) = (url::Url::parse(a).unwrap(), url::Url::parse(b).unwrap());
    activitypub_federation::protocol::verification::verify_urls_match(&a, &b).is_ok()
}

/// The outcome of the check that two URLs share a domain.
pub open spec fn domain_check<E>(a: Seq<char>, b: Seq<char>) -> Result<(), DeletionError<E>> {
    if url_domain(a) == url_domain(b) {
        Ok(())
    } else {
        Err(DeletionError::DomainsDoNotMatch)
    }
}

/// The outcome of the check that two URLs are identical.
pub open spec fn url_check<E>(a: Seq<char>, b: Seq<char>) -> Result<(), DeletionError<E>> {
    if url_serialization(a) == url_serialization(b) {
        Ok(())
    } else {
        Err(DeletionError::UrlsDoNotMatch)
    }
}

/// Checks that two URLs share a domain. URLs without a domain share one with each other.
pub fn verify_domains_match<E>(a: &Url, b: &Url) -> (res: Result<(), DeletionError<E>>)
    ensures
        res == domain_check::<E>(a@, b@),
{
    if domains_match(a.as_str(), b.as_str()) {
        Ok(())
    } else {
        Err(DeletionError::DomainsDoNotMatch)
    }
}

/// Checks that two URLs are identical.
pub fn verify_urls_match<E>(a: &Url, b: &Url) -> (res: Result<(), DeletionError<E>>)
    ensures
        res == url_check::<E>(a@, b@),
{
    if urls_match(a.as_str(), b.as_str()) {
        Ok(())
    } else {
        Err(DeletionError::UrlsDoNotMatch)
    }
}

/// A text is a URL exactly where `url` reads one from it.
pub proof fn a_url_is_what_can_be_read_as_one(text: Seq<char>)
    ensures
        is_url(text) <==> exists|serialization: Seq<char>|
            url_serialization(text) == Some(serialization),
{
    if is_url(text) {
        assert(url_serialization(text) == Some(url_serialization(text)->0));
    }
}

/// To share a domain is an equivalence between URLs.
pub proof fn sharing_a_domain_is_an_equivalence<E>(a: Seq<char>, b: Seq<char>, c: Seq<char>)
    ensures
        domain_check::<E>(a, a) is Ok,
        domain_check::<E>(a, b) == domain_check::<E>(b, a),
        domain_check::<E>(a, b) is Ok && domain_check::<E>(b, c) is Ok ==> domain_check::<E>(a, c)
            is Ok,
{
}

/// To be identical is an equivalence between URLs.
pub proof fn being_identical_is_an_equivalence<E>(a: Seq<char>, b: Seq<char>, c: Seq<char>)
    ensures
        url_check::<E>(a, a) is Ok,
        url_check::<E>(a, b) == url_check::<E>(b, a),
        url_check::<E>(a, b) is Ok && url_check::<E>(b, c) is Ok ==> url_check::<E>(a, c) is Ok,
{
}

} // verus!
