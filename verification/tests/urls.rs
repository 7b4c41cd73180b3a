//! Comparison of URLs.

use deletion::actions::DeletionError;
use deletion::urls::{verify_domains_match, verify_urls_match, Url};

type Outcome = Result<(), DeletionError<String>>;

fn url(text: &str) -> Url {
    Url::parse(text.to_string()).unwrap()
}

fn domains(a: &str, b: &str) -> Outcome {
    verify_domains_match(&url(a), &url(b))
}

fn urls(a: &str, b: &str) -> Outcome {
    verify_urls_match(&url(a), &url(b))
}

#[test]
fn urls_on_one_host_share_a_domain() {
    assert_eq!(domains("https://a.example/u/bob", "https://a.example/post/1"), Ok(()));
    assert_eq!(domains("https://a.example/u/bob", "http://A.EXAMPLE:8080/"), Ok(()));
}

#[test]
fn urls_on_two_hosts_do_not_share_a_domain() {
    let result = domains("https://a.example/u/bob", "https://b.example/u/bob");
    assert_eq!(result, Err(DeletionError::DomainsDoNotMatch));
    let result = domains("https://a.example/", "https://sub.a.example/");
    assert_eq!(result, Err(DeletionError::DomainsDoNotMatch));
}

#[test]
fn urls_without_a_domain_share_one() {
    assert_eq!(domains("https://127.0.0.1/", "https://[::1]/"), Ok(()));
    assert_eq!(domains("mailto:bob@a.example", "data:text/plain,x"), Ok(()));
    let result = domains("https://127.0.0.1/", "https://a.example/");
    assert_eq!(result, Err(DeletionError::DomainsDoNotMatch));
}

#[test]
fn sharing_a_domain_is_symmetric() {
    let samples = ["https://a.example/1", "https://b.example/2", "https://127.0.0.1/", "data:,x"];
    for a in samples {
        for b in samples {
            assert_eq!(domains(a, b), domains(b, a));
        }
    }
}

#[test]
fn being_identical_is_symmetric() {
    let samples = ["https://a.example", "https://a.example/", "https://b.example/", "data:,x"];
    for a in samples {
        for b in samples {
            assert_eq!(urls(a, b), urls(b, a));
        }
    }
}

#[test]
fn identical_urls_match() {
    assert_eq!(urls("https://a.example/u/bob", "https://a.example/u/bob"), Ok(()));
}

#[test]
fn urls_are_compared_in_normal_form() {
    assert_eq!(urls("https://a.example", "https://a.example/"), Ok(()));
    assert_eq!(urls("HTTPS://A.example:443/x/../u", "https://a.example/u"), Ok(()));
}

#[test]
fn different_urls_do_not_match() {
    let result = urls("https://a.example/u/bob", "https://a.example/u/bob/");
    assert_eq!(result, Err(DeletionError::UrlsDoNotMatch));
    let result = urls("https://a.example/u/bob", "https://a.example/u/bob#x");
    assert_eq!(result, Err(DeletionError::UrlsDoNotMatch));
    let result = urls("https://a.example/u/bob", "http://a.example/u/bob");
    assert_eq!(result, Err(DeletionError::UrlsDoNotMatch));
}

#[test]
fn text_that_is_no_url_is_refused() {
    for text in ["", "nonsense", "/relative", "https://", "https://a.example:99999/"] {
        assert_eq!(Url::parse(text.to_string()), None);
    }
}

#[test]
fn text_of_a_url_is_kept() {
    let text = "HTTPS://A.example:443/x/../u";
    assert_eq!(url(text).as_str(), text);
    assert_eq!(url(text).clone().into_string(), text);
}
