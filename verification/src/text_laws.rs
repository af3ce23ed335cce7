//! What is read out of texts: where they begin and end, what is cut off them, and what they name.
use vstd::prelude::*;

use crate::keys::mapped_name;
use crate::relay::{ClusterfluxDeploymentMode, in_domain, public_relay_host, relay_host, relay_url_refused, same_relay};
use crate::text::{byte_len, byte_tail, ends_with, find_char, find_text, lower, lowercase, starts_with, trim_white_end, trim_white_start, trimmed, until, white};

verus! {

/// All of a text is white.
pub open spec fn is_blank(s: Seq<char>) -> bool {
    forall|i: int| 0 <= i < s.len() ==> white(#[trigger] s[i])
}

proof fn lemma_trim_start(s: Seq<char>) -> (k: int)
    ensures
        0 <= k <= s.len(),
        trim_white_start(s) == s.skip(k),
        is_blank(s.take(k)),
        k < s.len() ==> !white(s[k]),
    decreases s.len(),
{
    if s.len() > 0 && white(s.first()) {
        let rest = s.drop_first();
        let k = lemma_trim_start(rest);
        assert(rest.skip(k) =~= s.skip(k + 1));
        assert forall|i: int| 0 <= i < k + 1 implies white(#[trigger] s.take(k + 1)[i]) by {
            if i > 0 {
                assert(rest.take(k)[i - 1] == s[i]);
            }
        }
        k + 1
    } else {
        assert(s.skip(0) =~= s);
        0
    }
}

proof fn lemma_trim_end(s: Seq<char>) -> (k: int)
    ensures
        0 <= k <= s.len(),
        trim_white_end(s) == s.take(k),
        is_blank(s.skip(k)),
        k > 0 ==> !white(s[k - 1]),
    decreases s.len(),
{
    if s.len() > 0 && white(s.last()) {
        let rest = s.drop_last();
        let k = lemma_trim_end(rest);
        assert(rest.take(k) =~= s.take(k));
        assert forall|i: int| 0 <= i < s.skip(k).len() implies white(#[trigger] s.skip(k)[i]) by {
            if i + k < rest.len() {
                assert(rest.skip(k)[i] == s.skip(k)[i]);
            }
        }
        k
    } else {
        assert(s.take(s.len() as int) =~= s);
        s.len() as int
    }
}

/// A text that is trimmed begins and ends with what is not white, and only white is cut off it.
pub proof fn trimming_cuts_white(s: Seq<char>)
    ensures
        trimmed(s).len() > 0 ==> !white(trimmed(s)[0]) && !white(trimmed(s).last()),
        trimmed(s).len() == 0 <==> is_blank(s),
        exists|a: int, b: int|
            0 <= a <= b <= s.len() && trimmed(s) == #[trigger] s.subrange(a, b) && is_blank(s.take(a))
                && is_blank(s.skip(b)),
{
    let a = lemma_trim_start(s);
    let rest = s.skip(a);
    let k = lemma_trim_end(rest);
    let b = a + k;
    assert(rest.take(k) =~= s.subrange(a, b));
    assert(rest.skip(k) =~= s.skip(b));
    if k > 0 {
        assert(rest[0] == s[a]);
        assert(trimmed(s)[0] == rest[0]);
        assert(trimmed(s).last() == rest[k - 1]);
        if is_blank(s) {
            assert(white(s[a]));
        }
    } else {
        assert forall|i: int| 0 <= i < s.len() implies white(#[trigger] s[i]) by {
            if i < a {
                assert(s.take(a)[i] == s[i]);
            } else {
                assert(s.skip(b)[i - b] == s[i]);
            }
        }
    }
}

/// No letter and no digit is white, and the space, the tabulator and the ends of lines are.
pub proof fn letters_are_not_white(c: char)
    ensures
        'a' <= c <= 'z' || 'A' <= c <= 'Z' || '0' <= c <= '9' || c == '-' || c == '_' || c == '/' ==> !white(
            c,
        ),
        c == ' ' || c == '\t' || c == '\n' || c == '\r' ==> white(c),
{
}

/// The tail of a text is its longest end that takes no more bytes than it may.
pub proof fn tails_are_the_longest_that_fit(s: Seq<char>, n: nat) -> (k: int)
    ensures
        0 <= k <= s.len(),
        byte_tail(s, n) == s.skip(k),
        k < s.len() ==> byte_len(s.skip(k)) <= n,
        k > 0 ==> byte_len(s.skip(k - 1)) > n,
    decreases s.len(),
{
    if s.len() == 0 || byte_len(s) <= n {
        assert(s.skip(0) =~= s);
        0
    } else {
        let rest = s.drop_first();
        let k = tails_are_the_longest_that_fit(rest, n);
        assert(rest.skip(k) =~= s.skip(k + 1));
        if k > 0 {
            assert(rest.skip(k - 1) =~= s.skip(k));
        } else {
            assert(s.skip(0) =~= s);
        }
        k + 1
    }
}

/// In lower case nothing is a capital letter, and nothing else changes. To write a text in lower case twice is to
/// do it once.
pub proof fn lower_case_has_no_capitals(s: Seq<char>, i: int)
    requires
        0 <= i < s.len(),
    ensures
        lowercase(s).len() == s.len(),
        !('A' <= lowercase(s)[i] <= 'Z'),
        !('A' <= s[i] <= 'Z') ==> lowercase(s)[i] == s[i],
        s[i] == 'A' ==> lowercase(s)[i] == 'a',
        s[i] == 'Z' ==> lowercase(s)[i] == 'z',
        lowercase(lowercase(s)) == lowercase(s),
{
    assert forall|c: char| !('A' <= #[trigger] lower(c) <= 'Z') by {
        lemma_lower(c);
    }
    lemma_lower(s[i]);
    assert(lowercase(lowercase(s)) =~= lowercase(s)) by {
        assert forall|j: int| 0 <= j < s.len() implies #[trigger] lowercase(lowercase(s))[j]
            == lowercase(s)[j] by {
            assert(!('A' <= lower(s[j]) <= 'Z'));
        }
    }
}

proof fn lemma_lower(c: char)
    ensures
        !('A' <= lower(c) <= 'Z'),
        c == 'A' ==> lower(c) == 'a',
        c == 'Z' ==> lower(c) == 'z',
        'A' <= c <= 'Z' ==> 'a' <= lower(c) <= 'z',
{
}

proof fn lemma_find_char(s: Seq<char>, c: char, from: int)
    requires
        0 <= from <= s.len(),
    ensures
        find_char(s, c, from) matches Some(i) ==> from <= i < s.len() && s[i] == c && forall|j: int|
            from <= j < i ==> #[trigger] s[j] != c,
        find_char(s, c, from) is None ==> forall|j: int| from <= j < s.len() ==> #[trigger] s[j] != c,
    decreases s.len() - from,
{
    if from < s.len() && s[from] != c {
        lemma_find_char(s, c, from + 1);
    }
}

/// What stands before a character is the longest beginning without it.
pub proof fn a_text_is_cut_before_a_character(s: Seq<char>, c: char, i: int)
    ensures
        until(s, c).len() <= s.len(),
        0 <= i < until(s, c).len() ==> until(s, c)[i] == s[i] && s[i] != c,
        until(s, c).len() < s.len() ==> s[until(s, c).len() as int] == c,
{
    lemma_find_char(s, c, 0);
}

proof fn lemma_find_text(s: Seq<char>, pattern: Seq<char>, from: int)
    requires
        0 <= from,
        pattern.len() > 0,
    ensures
        find_text(s, pattern, from) matches Some(i) ==> from <= i && i + pattern.len() <= s.len()
            && s.subrange(i, i + pattern.len()) == pattern && forall|j: int|
            from <= j < i ==> #[trigger] s.subrange(j, j + pattern.len()) != pattern,
        find_text(s, pattern, from) is None ==> forall|j: int|
            from <= j && j + pattern.len() <= s.len() ==> #[trigger] s.subrange(j, j + pattern.len())
                != pattern,
    decreases s.len() - from,
{
    if from + pattern.len() <= s.len() && from < s.len() && s.subrange(from, from + pattern.len())
        != pattern {
        lemma_find_text(s, pattern, from + 1);
    }
}

/// A text is found where it stands first.
pub proof fn a_text_is_found_where_it_stands_first(s: Seq<char>, pattern: Seq<char>, i: int)
    requires
        pattern.len() > 0,
        0 <= i && i + pattern.len() <= s.len(),
        s.subrange(i, i + pattern.len()) == pattern,
    ensures
        find_text(s, pattern, 0) matches Some(k) && 0 <= k <= i && s.subrange(k, k + pattern.len())
            == pattern,
{
    lemma_find_text(s, pattern, 0);
}

/// A text begins with another, or ends with it, exactly where it is that one with something behind it, or before
/// it.
pub proof fn beginnings_and_ends(s: Seq<char>, part: Seq<char>, rest: Seq<char>)
    ensures
        starts_with(part + rest, part),
        ends_with(rest + part, part),
        starts_with(s, part) ==> s == part + s.skip(part.len() as int),
        ends_with(s, part) ==> s == s.take(s.len() - part.len()) + part,
{
    assert((part + rest).take(part.len() as int) =~= part);
    assert((rest + part).skip(rest.len() as int) =~= part);
    if starts_with(s, part) {
        assert(s =~= s.take(part.len() as int) + s.skip(part.len() as int));
    }
    if ends_with(s, part) {
        assert(s =~= s.take(s.len() - part.len()) + s.skip(s.len() - part.len()));
    }
}

/// An artifact is named by its path below the artifacts, with colons for its slashes; nothing else changes.
pub proof fn artifacts_are_named_by_their_path(rest: Seq<char>, i: int)
    requires
        0 <= i < rest.len(),
    ensures
        ({
            let name = mapped_name("/vfs/artifacts/"@ + rest);
            &&& name.len() == rest.len()
            &&& rest[i] == '/' ==> name[i] == ':'
            &&& rest[i] != '/' ==> name[i] == rest[i]
            &&& name[i] != '/'
        }),
{
    reveal_strlit("/vfs/artifacts/");
    assert("/vfs/artifacts/"@.len() == 15);
    assert(("/vfs/artifacts/"@ + rest).skip(15) =~= rest);
}

/// Two addresses of a relay are the same with a slash at the end or without.
pub proof fn relays_are_the_same_with_or_without_a_slash(a: Seq<char>, b: Seq<char>)
    ensures
        same_relay(a, a),
        same_relay(a, a.push('/')),
        same_relay(a, b) == same_relay(b, a),
        same_relay(a, b) ==> a == b || a.len() == b.len() + 1 || b.len() == a.len() + 1,
{
}

/// A relay is taken only by an address that can be one: with a scheme that is known and a host, and with no query,
/// no fragment and no credential. On the hosted service the scheme is the secure one. None of the public relays
/// is taken.
pub proof fn relays_are_taken_by_their_address(value: Seq<char>, mode: ClusterfluxDeploymentMode)
    requires
        !relay_url_refused(value, mode),
    ensures
        !value.contains('?') && !value.contains('#'),
        find_text(value, "://"@, 0) matches Some(i) && {
            let authority = until(value.skip(i + 3), '/');
            let host = relay_host(value.skip(i + 3));
            &&& value.take(i) == "http"@ || value.take(i) == "https"@
            &&& mode == ClusterfluxDeploymentMode::HostedPublic ==> value.take(i) == "https"@
            &&& value.take(i) == "http"@ && value.take(i) != "https"@ ==> host == "localhost"@ || host
                == "127.0.0.1"@ || host == "::1"@ || starts_with(host, "127."@)
            &&& authority.len() > 0 && !authority.contains('@')
            &&& host.len() > 0
            &&& host != "iroh.link"@ && host != "iroh.computer"@ && host != "n0.computer"@
            &&& !ends_with(host, "."@ + "iroh.link"@) && !ends_with(host, "."@ + "n0.computer"@)
                && !ends_with(host, "."@ + "iroh.computer"@)
        },
{
    let i = find_text(value, "://"@, 0)->Some_0;
    let host = relay_host(value.skip(i + 3));
    assert(!public_relay_host(host));
    assert(!in_domain(host, "iroh.link"@));
}

} // verus!
