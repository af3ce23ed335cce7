//! What the settings of a coordinator mean: a setting that is missing has its default, one that is written is
//! read as it was written, and one that cannot be read is refused.
use vstd::prelude::*;

use crate::environment::{EnvironmentValue, StartupEnvironment, comma, deployment_read, digit_value, digits_read, flag_read, kept_part, listed, number_read, number_set, optional_number_set, positive_set, relay_policy_read, startup_refusal, token_read};
use crate::relay::ClusterfluxDeploymentMode;
use crate::text::{decimal, digit, trimmed};
use crate::transfer::ArtifactRelayPolicy;

verus! {

proof fn lemma_digits_push(before: nat, digits: Seq<char>, c: char, limit: nat, n: nat)
    requires
        digits_read(before, digits, limit) == Ok::<nat, Seq<char>>(n),
    ensures
        digits_read(before, digits.push(c), limit) == digits_read(n, seq![c], limit),
    decreases digits.len(),
{
    let all = digits.push(c);
    if digits.len() == 0 {
        assert(all =~= seq![c]);
    } else {
        assert(all[0] == digits[0]);
        assert(all.skip(1) =~= digits.skip(1).push(c));
        let value = digit_value(digits[0])->Some_0;
        lemma_digits_push(before * 10 + value, digits.skip(1), c, limit, n);
    }
}

proof fn lemma_decimal_read(n: nat, limit: nat)
    requires
        n <= limit,
    ensures
        digits_read(0, decimal(n), limit) == Ok::<nat, Seq<char>>(n),
        decimal(n).len() > 0,
        decimal(n)[0] != '+',
    decreases n,
{
    reveal_with_fuel(digits_read, 3);
    let last = seq![digit(n % 10)];
    assert(last.skip(1) =~= Seq::<char>::empty());
    if n < 10 {
        assert(decimal(n) == seq![digit(n)]);
        assert(decimal(n).skip(1) =~= Seq::<char>::empty());
        assert(digit_value(digit(n)) == Some(n));
    } else {
        lemma_decimal_read(n / 10, limit);
        lemma_digits_push(0, decimal(n / 10), digit(n % 10), limit, n / 10);
        assert(digit_value(digit(n % 10)) == Some((n % 10) as nat));
        assert(decimal(n)[0] == decimal(n / 10)[0]);
    }
}

proof fn lemma_read_within(before: nat, digits: Seq<char>, limit: nat)
    requires
        before <= limit,
        digits_read(before, digits, limit) is Ok,
    ensures
        digits_read(before, digits, limit)->Ok_0 <= limit,
    decreases digits.len(),
{
    if digits.len() > 0 {
        let value = digit_value(digits[0])->Some_0;
        lemma_read_within(before * 10 + value, digits.skip(1), limit);
    }
}

/// A number that is set is read as it was written, up to the limit; one that is missing is the default. One
/// that must be positive is refused where it is zero, and no other is for that.
pub proof fn numbers_are_read_as_written(
    name: Seq<char>,
    default: nat,
    text: String,
    limit: nat,
    n: nat,
)
    requires
        n <= limit,
        text@ == decimal(n),
    ensures
        number_read(text@, limit) == Ok::<nat, Seq<char>>(n),
        number_set(name, default, EnvironmentValue::Text(text), limit) == Ok::<nat, Seq<char>>(n),
        number_set(name, default, EnvironmentValue::Missing, limit) == Ok::<nat, Seq<char>>(default),
        positive_set(name, default, EnvironmentValue::Text(text), limit) is Ok <==> n > 0,
        n > 0 ==> positive_set(name, default, EnvironmentValue::Text(text), limit) == Ok::<
            nat,
            Seq<char>,
        >(n),
        default > 0 ==> positive_set(name, default, EnvironmentValue::Missing, limit) == Ok::<
            nat,
            Seq<char>,
        >(default),
{
    lemma_decimal_read(n, limit);
}

/// No number is read that is over the limit, and nothing but digits, after one plus sign at most.
pub proof fn numbers_keep_to_the_limit(text: Seq<char>, limit: nat)
    ensures
        number_read(text, limit) matches Ok(n) ==> n <= limit && text.len() > 0,
        (number_read(text, limit) is Ok && text.len() == 1) ==> '0' <= text[0] <= '9',
        (text.len() > 0 && !('0' <= text[0] <= '9') && text[0] != '+') ==> number_read(
            text,
            limit,
        ) is Err,
{
    if text.len() > 0 {
        if text[0] == '+' && text.len() > 1 {
            if digits_read(0, text.skip(1), limit) is Ok {
                lemma_read_within(0, text.skip(1), limit);
            }
        } else if text[0] != '+' {
            if digits_read(0, text, limit) is Ok {
                lemma_read_within(0, text, limit);
            }
        }
    }
}

/// A bound that may be absent is absent where it is written as none, and is the default where it is missing.
pub proof fn bounds_may_be_lifted(name: Seq<char>, default: Option<u64>, text: String)
    ensures
        (trimmed(text@) == ""@ || trimmed(text@) == "0"@ || trimmed(text@) == "none"@ || trimmed(
            text@,
        ) == "unlimited"@) ==> optional_number_set(name, default, EnvironmentValue::Text(text)) == Ok::<
            Option<nat>,
            Seq<char>,
        >(None),
        optional_number_set(name, default, EnvironmentValue::Missing) == Ok::<Option<nat>, Seq<char>>(
            match default {
                Some(n) => Some(n as nat),
                None => None,
            },
        ),
        optional_number_set(name, default, EnvironmentValue::Text(text)) matches Ok(Some(n))
            ==> number_read(text@, u64::MAX as nat) == Ok::<nat, Seq<char>>(n),
{
}

/// A flag is on where it says so, off where it says so or is missing, and refused otherwise.
pub proof fn flags_say_what_they_mean(name: Seq<char>, text: String)
    ensures
        flag_read(name, EnvironmentValue::Missing) == Ok::<bool, Seq<char>>(false),
        flag_read(name, EnvironmentValue::Text(text)) == Ok::<bool, Seq<char>>(true) <==> text@ == "1"@
            || text@ == "true"@,
        flag_read(name, EnvironmentValue::Text(text)) == Ok::<bool, Seq<char>>(false) <==> text@ == "0"@
            || text@ == "false"@,
{
    reveal_strlit("0");
    reveal_strlit("1");
    reveal_strlit("true");
    reveal_strlit("false");
    assert("0"@[0] == '0');
    assert("1"@[0] == '1');
    assert("true"@[0] == 't');
    assert("false"@[0] == 'f');
}

/// A secret is taken only where it is well formed; one that is missing is none.
pub proof fn secrets_are_taken_where_they_are_well_formed(
    name: Seq<char>,
    text: String,
    checked: Result<(), String>,
)
    ensures
        token_read(name, EnvironmentValue::Missing, checked) == Ok::<Option<Seq<char>>, Seq<char>>(None),
        token_read(name, EnvironmentValue::Text(text), checked) is Ok <==> checked is Ok,
        checked is Ok ==> token_read(name, EnvironmentValue::Text(text), checked) == Ok::<
            Option<Seq<char>>,
            Seq<char>,
        >(Some(text@)),
{
}

/// The way of deployment is the one that is written, and self-hosted where none is; nothing else is taken. So
/// is the policy on relays.
pub proof fn deployments_are_named(text: String, mode: ClusterfluxDeploymentMode, policy: ArtifactRelayPolicy)
    ensures
        deployment_read(EnvironmentValue::Missing) == Ok::<ClusterfluxDeploymentMode, Seq<char>>(
            ClusterfluxDeploymentMode::SelfHosted,
        ),
        deployment_read(EnvironmentValue::Text(text)) == Ok::<ClusterfluxDeploymentMode, Seq<char>>(mode)
            ==> text@ == (match mode {
            ClusterfluxDeploymentMode::HostedPublic => "hosted-public"@,
            ClusterfluxDeploymentMode::SelfHosted => "self-hosted"@,
            ClusterfluxDeploymentMode::LocalOffline => "local-offline"@,
        }),
        text@ == "hosted-public"@ || text@ == "self-hosted"@ || text@ == "local-offline"@
            ==> deployment_read(EnvironmentValue::Text(text)) is Ok,
        relay_policy_read(EnvironmentValue::Missing) == Ok::<Option<ArtifactRelayPolicy>, Seq<char>>(
            None,
        ),
        relay_policy_read(EnvironmentValue::Text(text)) == Ok::<Option<ArtifactRelayPolicy>, Seq<char>>(
            Some(policy),
        ) ==> text@ == (match policy {
            ArtifactRelayPolicy::DirectRequired => "direct-required"@,
            ArtifactRelayPolicy::RelayFallbackAllowed => "relay-fallback-allowed"@,
        }),
        text@ == "direct-required"@ || text@ == "relay-fallback-allowed"@ ==> relay_policy_read(
            EnvironmentValue::Text(text),
        ) is Ok,
{
}

proof fn lemma_comma(text: Seq<char>, from: int)
    requires
        0 <= from <= text.len(),
    ensures
        comma(text, from) matches Some(i) ==> from <= i < text.len() && text[i] == ',' && forall|j: int|
            from <= j < i ==> #[trigger] text[j] != ',',
        comma(text, from) is None ==> forall|j: int|
            from <= j < text.len() ==> #[trigger] text[j] != ',',
    decreases text.len() - from,
{
    if from < text.len() && text[from] != ',' {
        lemma_comma(text, from + 1);
    }
}

/// A list is cut at its commas: what stands before one is listed before what stands behind it. What is listed
/// is trimmed, and what is empty is not listed.
pub proof fn lists_are_cut_at_their_commas(a: Seq<char>, b: Seq<char>)
    ensures
        listed(a.push(',') + b) == listed(a) + listed(b),
        (forall|j: int| 0 <= j < a.len() ==> #[trigger] a[j] != ',') ==> listed(a) == (if trimmed(
            a,
        ).len() == 0 {
            Seq::<Seq<char>>::empty()
        } else {
            seq![trimmed(a)]
        }),
    decreases a.len(),
{
    let whole = a.push(',') + b;
    lemma_comma(whole, 0);
    lemma_comma(a, 0);
    match comma(a, 0) {
        None => {
            assert(whole[a.len() as int] == ',');
            let i = comma(whole, 0)->Some_0;
            if i < a.len() {
                assert(whole[i] == a[i]);
            }
            if i > a.len() {
                assert(whole[a.len() as int] != ',');
            }
            assert(i == a.len());
            assert(whole.take(i) =~= a);
            assert(whole.skip(i + 1) =~= b);
            assert(listed(a) == kept_part(a));
        },
        Some(k) => {
            let i = comma(whole, 0)->Some_0;
            assert(whole[k] == ',');
            if i < k {
                assert(whole[i] == a[i]);
            }
            if i > k {
                assert(whole[k] != ',');
            }
            assert(i == k);
            assert(whole.take(k) =~= a.take(k));
            assert(whole.skip(k + 1) =~= a.skip(k + 1).push(',') + b);
            lists_are_cut_at_their_commas(a.skip(k + 1), b);
            assert(listed(whole) == kept_part(a.take(k)) + (listed(a.skip(k + 1)) + listed(b)));
            assert(listed(whole) =~= (kept_part(a.take(k)) + listed(a.skip(k + 1))) + listed(b));
        },
    }
}

/// A coordinator starts only where what it is told fits: trust in whoever connects only on the loopback, a
/// database that is named, and nodes that are given between a second and a day to be seen.
pub proof fn coordinators_start_with_what_fits(set: StartupEnvironment)
    requires
        startup_refusal(set) is None,
    ensures
        set.allow_local_trusted_loopback ==> set.listens_on_loopback,
        flag_read("CLUSTERFLUX_ALLOW_LOCAL_TRUSTED_LOOPBACK"@, set.allow_local_trusted) == Ok::<
            bool,
            Seq<char>,
        >(true) ==> set.listens_on_loopback,
        set.database_url matches EnvironmentValue::Text(url) ==> trimmed(url@).len() > 0,
        set.admin_token matches EnvironmentValue::Text(token) ==> set.admin_token_checked is Ok,
        positive_set(
            "CLUSTERFLUX_NODE_STALE_AFTER_SECONDS"@,
            30,
            set.node_stale_after_seconds,
            u64::MAX as nat,
        ) matches Ok(seconds) && 1 <= seconds <= 86400,
        set.node_stale_after_seconds is Missing ==> positive_set(
            "CLUSTERFLUX_NODE_STALE_AFTER_SECONDS"@,
            30,
            set.node_stale_after_seconds,
            u64::MAX as nat,
        ) == Ok::<nat, Seq<char>>(30),
{
}

} // verus!
