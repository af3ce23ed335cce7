//! Relays: which URLs a deployment accepts, and when two spellings name the same relay.
use vstd::prelude::*;
use vstd::string::*;

use crate::text::{begins_with, chars_eq, chars_of, closes_with, concat2, ends_with, find_text, has_char, lowercase, part, part_lowercase, part_trimmed_end, part_until, starts_with, text_eq, text_position, trim_end, until};

verus! {

/// How a coordinator is deployed.
#[derive(Clone, Copy, Debug, PartialEq, Eq, Structural)]
pub enum ClusterfluxDeploymentMode {
    HostedPublic,
    SelfHosted,
    LocalOffline,
}

/// Two relay URLs name the same relay where they differ at most in a slash at the end.
pub open spec fn same_relay(configured: Seq<char>, advertised: Seq<char>) -> bool {
    ||| configured == advertised
    ||| configured == advertised.push('/')
    ||| advertised == configured.push('/')
}

/// Whether an advertised relay URL is the configured one.
pub fn relay_urls_match(configured: &str, advertised: &str) -> (r: bool)
    ensures
        r == same_relay(configured@, advertised@),
{
    proof {
        reveal_strlit("/");
    }
    let advertised_root: String = concat2(advertised, "/");
    let configured_root: String = concat2(configured, "/");
    assert(advertised_root@ =~= advertised@.push('/'));
    assert(configured_root@ =~= configured@.push('/'));
    text_eq(configured, advertised) || text_eq(configured, advertised_root.as_str()) || text_eq(
        advertised,
        configured_root.as_str(),
    )
}

/// The host of what follows the scheme of a URL: without port, brackets and final dots, in
/// lower case.
pub open spec fn relay_host(remainder: Seq<char>) -> Seq<char> {
    let authority = until(remainder, '/');
    let raw = if authority.len() > 0 && authority[0] == '[' {
        until(authority.skip(1), ']')
    } else {
        until(authority, ':')
    };
    lowercase(trim_end(raw, '.'))
}

/// A host of the machine itself.
pub open spec fn loopback_host(host: Seq<char>) -> bool {
    ||| host == "localhost"@
    ||| host == "127.0.0.1"@
    ||| host == "::1"@
    ||| starts_with(host, "127."@)
}

/// The host is the given domain or lies below it.
pub open spec fn in_domain(host: Seq<char>, domain: Seq<char>) -> bool {
    host == domain || ends_with(host, "."@ + domain)
}

/// A relay of the public Iroh network, which no deployment may use.
pub open spec fn public_relay_host(host: Seq<char>) -> bool {
    ||| in_domain(host, "iroh.link"@)
    ||| in_domain(host, "iroh.computer"@)
    ||| in_domain(host, "n0.computer"@)
}

/// The URL is malformed, or the deployment does not accept it.
pub open spec fn relay_url_refused(value: Seq<char>, mode: ClusterfluxDeploymentMode) -> bool {
    ||| value.contains('?')
    ||| value.contains('#')
    ||| match find_text(value, "://"@, 0) {
        None => true,
        Some(i) => {
            let scheme = value.take(i);
            let remainder = value.skip(i + 3);
            let authority = until(remainder, '/');
            let host = relay_host(remainder);
            ||| scheme != "http"@ && scheme != "https"@
            ||| remainder.len() == 0
            ||| authority.len() == 0
            ||| authority.contains('@')
            ||| scheme == "http"@ && (mode == ClusterfluxDeploymentMode::HostedPublic
                || !loopback_host(host))
            ||| mode == ClusterfluxDeploymentMode::HostedPublic && scheme != "https"@
            ||| host.len() == 0
            ||| public_relay_host(host)
        },
    }
}

fn host_of(remainder: &Vec<char>) -> (r: Vec<char>)
    ensures
        r@ == relay_host(remainder@),
{
    let authority: Vec<char> = part_until(remainder, '/');
    let raw: Vec<char> = if authority.len() > 0 && authority[0] == '[' {
        let inner: Vec<char> = part(&authority, 1, authority.len());
        assert(inner@ =~= authority@.skip(1));
        part_until(&inner, ']')
    } else {
        part_until(&authority, ':')
    };
    let bare: Vec<char> = part_trimmed_end(&raw, '.');
    part_lowercase(&bare)
}

fn is_loopback_host(host: &Vec<char>) -> (r: bool)
    ensures
        r == loopback_host(host@),
{
    chars_eq(host, &chars_of("localhost")) || chars_eq(host, &chars_of("127.0.0.1")) || chars_eq(
        host,
        &chars_of("::1"),
    ) || begins_with(host, &chars_of("127."))
}

fn lies_in_domain(host: &Vec<char>, domain: &str) -> (r: bool)
    ensures
        r == in_domain(host@, domain@),
{
    let below: String = concat2(".", domain);
    chars_eq(host, &chars_of(domain)) || closes_with(host, &chars_of(below.as_str()))
}

fn is_public_relay_host(host: &Vec<char>) -> (r: bool)
    ensures
        r == public_relay_host(host@),
{
    lies_in_domain(host, "iroh.link") || lies_in_domain(host, "iroh.computer") || lies_in_domain(
        host,
        "n0.computer",
    )
}

/// Whether a relay URL is malformed or not acceptable in a deployment.
pub fn relay_url_is_forbidden_or_invalid(
    value: &str,
    deployment_mode: ClusterfluxDeploymentMode,
) -> (r: bool)
    ensures
        r == relay_url_refused(value@, deployment_mode),
{
    let chars: Vec<char> = chars_of(value);
    if has_char(&chars, '?') || has_char(&chars, '#') {
        return true;
    }
    proof {
        reveal_strlit("://");
    }
    let separator: Vec<char> = chars_of("://");
    match text_position(&chars, &separator) {
        None => true,
        Some(i) => {
            let scheme: Vec<char> = part(&chars, 0, i);
            let total: usize = chars.len();
            let remainder: Vec<char> = part(&chars, i + 3, total);
            assert(scheme@ =~= value@.take(i as int));
            assert(remainder@ =~= value@.skip(i + 3));
            let plain: bool = chars_eq(&scheme, &chars_of("http"));
            let secure: bool = chars_eq(&scheme, &chars_of("https"));
            if !(plain || secure) || remainder.len() == 0 {
                return true;
            }
            let authority: Vec<char> = part_until(&remainder, '/');
            if authority.len() == 0 || has_char(&authority, '@') {
                return true;
            }
            let host: Vec<char> = host_of(&remainder);
            let hosted: bool = deployment_mode == ClusterfluxDeploymentMode::HostedPublic;
            (plain && (hosted || !is_loopback_host(&host))) || (hosted && !secure) || host.len()
                == 0 || is_public_relay_host(&host)
        },
    }
}

} // verus!
