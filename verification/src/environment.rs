//! The configuration that a deployment sets through its environment.
use vstd::prelude::*;
use vstd::string::*;

use crate::duplicate::{copy_text, option_view, texts};
use crate::interchange_configuration::{ClusterfluxRelayConfig, CoordinatorArtifactInterchangeConfiguration, CoordinatorArtifactInterchangeConfigurationModel, IrohRelayConfiguration, IrohRelayConfigurationModel, RelayLimits, configuration_refusal, default_configuration};
use crate::relay::ClusterfluxDeploymentMode;
use crate::transfer::ArtifactRelayPolicy;
use crate::text::{chars_of, concat2, concat3, is_blank, part, text_eq, text_of, trim_text, trimmed};
use crate::configuration::{CoordinatorServiceStartupConfiguration, MAX_NODE_STALE_AFTER_SECONDS};
use crate::ids::{ProjectId, TenantId, UserId};

verus! {

/// A variable of the environment: it is not set, it is a text, or it is not one. What is said of the
/// last comes with it.
pub enum EnvironmentValue {
    Missing,
    Text(String),
    NotUnicode(String),
}

/// What comes of reading a variable that may be missing.
pub open spec fn optional_read(name: Seq<char>, value: EnvironmentValue) -> Result<Option<Seq<char>>, Seq<char>> {
    match value {
        EnvironmentValue::Missing => Ok(None),
        EnvironmentValue::Text(text) => Ok(Some(text@)),
        EnvironmentValue::NotUnicode(_) => Err(name + " must contain valid Unicode"@),
    }
}

/// Reads a variable that may be missing.
pub fn optional_environment(name: &str, value: EnvironmentValue) -> (r: Result<Option<String>, String>)
    ensures
        match optional_read(name@, value) {
            Ok(text) => r matches Ok(found) && option_view(found) == text,
            Err(reason) => r matches Err(told) && told@ == reason,
        },
{
    match value {
        EnvironmentValue::Missing => Ok(None),
        EnvironmentValue::Text(text) => Ok(Some(text)),
        EnvironmentValue::NotUnicode(_) => Err(concat2(name, " must contain valid Unicode")),
    }
}

/// What comes of reading a variable that is on or off.
pub open spec fn flag_read(name: Seq<char>, value: EnvironmentValue) -> Result<bool, Seq<char>> {
    match optional_read(name, value) {
        Err(reason) => Err(reason),
        Ok(None) => Ok(false),
        Ok(Some(text)) => if text == "0"@ || text == "false"@ {
            Ok(false)
        } else if text == "1"@ || text == "true"@ {
            Ok(true)
        } else {
            Err(name + " must be one of 0, 1, false, or true"@)
        },
    }
}

/// Reads a variable that is on or off.
pub fn environment_flag(name: &str, value: EnvironmentValue) -> (r: Result<bool, String>)
    ensures
        match flag_read(name@, value) {
            Ok(flag) => r == Ok::<bool, String>(flag),
            Err(reason) => r matches Err(told) && told@ == reason,
        },
{
    match optional_environment(name, value) {
        Err(reason) => Err(reason),
        Ok(None) => Ok(false),
        Ok(Some(text)) => {
            if text_eq(text.as_str(), "0") || text_eq(text.as_str(), "false") {
                Ok(false)
            } else if text_eq(text.as_str(), "1") || text_eq(text.as_str(), "true") {
                Ok(true)
            } else {
                Err(concat2(name, " must be one of 0, 1, false, or true"))
            }
        },
    }
}

/// The value of a decimal digit.
pub open spec fn digit_value(c: char) -> Option<nat> {
    if '0' <= c && c <= '9' {
        Some((c as nat - '0' as nat) as nat)
    } else {
        None
    }
}

/// What is said of a text that is no number.
pub open spec fn invalid_digit_text() -> Seq<char> {
    "invalid digit found in string"@
}

/// What is said of a number that is too large.
pub open spec fn overflow_text() -> Seq<char> {
    "number too large to fit in target type"@
}

/// The number that digits continue, read from the left, up to a limit.
pub open spec fn digits_read(before: nat, digits: Seq<char>, limit: nat) -> Result<nat, Seq<char>>
    decreases digits.len(),
{
    if digits.len() == 0 {
        Ok(before)
    } else {
        match digit_value(digits[0]) {
            None => Err(invalid_digit_text()),
            Some(value) => if before * 10 + value > limit {
                Err(overflow_text())
            } else {
                digits_read(before * 10 + value, digits.skip(1), limit)
            },
        }
    }
}

/// The number that a text stands for, up to a limit. A plus sign may stand before the digits.
pub open spec fn number_read(text: Seq<char>, limit: nat) -> Result<nat, Seq<char>> {
    if text.len() == 0 {
        Err("cannot parse integer from empty string"@)
    } else if text[0] == '+' {
        if text.len() == 1 {
            Err(invalid_digit_text())
        } else {
            digits_read(0, text.skip(1), limit)
        }
    } else {
        digits_read(0, text, limit)
    }
}

/// Reads a number up to a limit.
pub fn parse_number(text: &str, limit: u64) -> (r: Result<u64, String>)
    ensures
        match number_read(text@, limit as nat) {
            Ok(number) => r matches Ok(n) && n == number,
            Err(reason) => r matches Err(told) && told@ == reason,
        },
        r matches Ok(n) ==> n <= limit,
{
    let chars: Vec<char> = chars_of(text);
    if chars.len() == 0 {
        return Err("cannot parse integer from empty string".to_owned());
    }
    let start: usize = if chars[0] == '+' {
        1
    } else {
        0
    };
    if start == 1 && chars.len() == 1 {
        return Err("invalid digit found in string".to_owned());
    }
    let ghost whole = digits_read(0, text@.skip(start as int), limit as nat);
    assert(text@.skip(0) =~= text@);
    let mut number: u64 = 0;
    let mut i: usize = start;
    while i < chars.len()
        invariant
            chars@ == text@,
            start <= i <= chars@.len(),
            number <= limit,
            whole == number_read(text@, limit as nat),
            whole == digits_read(number as nat, text@.skip(i as int), limit as nat),
        decreases chars@.len() - i,
    {
        let c: char = chars[i];
        assert(text@.skip(i as int)[0] == c);
        assert(text@.skip(i as int).skip(1) =~= text@.skip(i + 1));
        if !('0' <= c && c <= '9') {
            return Err("invalid digit found in string".to_owned());
        }
        let value: u64 = c as u64 - 48;
        let wide: u128 = number as u128 * 10 + value as u128;
        if wide > limit as u128 {
            return Err("number too large to fit in target type".to_owned());
        }
        number = wide as u64;
        i = i + 1;
    }
    Ok(number)
}

/// What comes of reading a variable that holds a number.
pub open spec fn number_set(name: Seq<char>, default: nat, value: EnvironmentValue, limit: nat) -> Result<nat, Seq<char>> {
    match value {
        EnvironmentValue::Missing => Ok(default),
        EnvironmentValue::NotUnicode(reason) => Err(reason@),
        EnvironmentValue::Text(text) => match number_read(text@, limit) {
            Ok(number) => Ok(number),
            Err(reason) => Err(name + " is invalid: "@ + reason),
        },
    }
}

/// What comes of reading a variable that holds a positive number.
pub open spec fn positive_set(name: Seq<char>, default: nat, value: EnvironmentValue, limit: nat) -> Result<nat, Seq<char>> {
    match number_set(name, default, value, limit) {
        Ok(number) => if number == 0 {
            Err(name + " must be positive"@)
        } else {
            Ok(number)
        },
        Err(reason) => Err(reason),
    }
}

/// The outcome of reading a number.
pub open spec fn tells_number(r: Result<u64, String>, expected: Result<nat, Seq<char>>) -> bool {
    match expected {
        Ok(number) => r matches Ok(n) && n == number,
        Err(reason) => r matches Err(told) && told@ == reason,
    }
}

/// Reads a variable that holds a number.
pub fn environment_u64_allow_zero(name: &str, default: u64, value: EnvironmentValue) -> (r: Result<u64, String>)
    ensures
        tells_number(r, number_set(name@, default as nat, value, u64::MAX as nat)),
{
    match value {
        EnvironmentValue::Missing => Ok(default),
        EnvironmentValue::NotUnicode(reason) => Err(reason),
        EnvironmentValue::Text(text) => match parse_number(text.as_str(), u64::MAX) {
            Ok(number) => Ok(number),
            Err(reason) => Err(concat3(name, " is invalid: ", reason.as_str())),
        },
    }
}

/// Reads a variable that holds a positive number.
pub fn environment_u64(name: &str, default: u64, value: EnvironmentValue) -> (r: Result<u64, String>)
    ensures
        tells_number(r, positive_set(name@, default as nat, value, u64::MAX as nat)),
{
    match environment_u64_allow_zero(name, default, value) {
        Ok(number) => {
            if number == 0 {
                Err(concat2(name, " must be positive"))
            } else {
                Ok(number)
            }
        },
        Err(reason) => Err(reason),
    }
}

/// What comes of reading a variable that holds a positive size. The size that is in force where it is
/// missing is not checked.
pub open spec fn size_set(name: Seq<char>, default: usize, value: EnvironmentValue) -> Result<nat, Seq<char>> {
    match value {
        EnvironmentValue::Missing => Ok(default as nat),
        _ => positive_set(name, default as nat, value, usize::MAX as nat),
    }
}

/// The outcome of reading a size.
pub open spec fn tells_size(r: Result<usize, String>, expected: Result<nat, Seq<char>>) -> bool {
    match expected {
        Ok(number) => r matches Ok(n) && n == number,
        Err(reason) => r matches Err(told) && told@ == reason,
    }
}

/// Reads a variable that holds a positive size.
pub fn environment_usize(name: &str, default: usize, value: EnvironmentValue) -> (r: Result<usize, String>)
    ensures
        tells_size(r, size_set(name@, default, value)),
{
    match value {
        EnvironmentValue::Missing => Ok(default),
        EnvironmentValue::NotUnicode(reason) => Err(reason),
        EnvironmentValue::Text(text) => match parse_number(text.as_str(), usize::MAX as u64) {
            Ok(number) => {
                if number == 0 {
                    Err(concat2(name, " must be positive"))
                } else {
                    Ok(number as usize)
                }
            },
            Err(reason) => Err(concat3(name, " is invalid: ", reason.as_str())),
        },
    }
}

/// A text that stands for no limit.
pub open spec fn means_unlimited(text: Seq<char>) -> bool {
    let inner = trimmed(text);
    inner == ""@ || inner == "0"@ || inner == "none"@ || inner == "unlimited"@
}

/// What comes of reading a variable that holds a number or stands for none.
pub open spec fn optional_number_set(name: Seq<char>, default: Option<u64>, value: EnvironmentValue) -> Result<
    Option<nat>,
    Seq<char>,
> {
    match value {
        EnvironmentValue::Missing => Ok(
            match default {
                Some(number) => Some(number as nat),
                None => None,
            },
        ),
        EnvironmentValue::NotUnicode(reason) => Err(reason@),
        EnvironmentValue::Text(text) => if means_unlimited(text@) {
            Ok(None)
        } else {
            match number_read(text@, u64::MAX as nat) {
                Ok(number) => Ok(Some(number)),
                Err(reason) => Err(name + " is invalid: "@ + reason),
            }
        },
    }
}

/// The outcome of reading a number or none.
pub open spec fn tells_optional_number(r: Result<Option<u64>, String>, expected: Result<Option<nat>, Seq<char>>) -> bool {
    match expected {
        Ok(None) => r == Ok::<Option<u64>, String>(None),
        Ok(Some(number)) => r matches Ok(Some(n)) && n == number,
        Err(reason) => r matches Err(told) && told@ == reason,
    }
}

/// Reads a variable that holds a number or stands for none.
pub fn environment_optional_u64(name: &str, default: Option<u64>, value: EnvironmentValue) -> (r: Result<Option<u64>, String>)
    ensures
        tells_optional_number(r, optional_number_set(name@, default, value)),
{
    match value {
        EnvironmentValue::Missing => Ok(default),
        EnvironmentValue::NotUnicode(reason) => Err(reason),
        EnvironmentValue::Text(text) => {
            let inner: String = trim_text(text.as_str());
            if text_eq(inner.as_str(), "") || text_eq(inner.as_str(), "0") || text_eq(
                inner.as_str(),
                "none",
            ) || text_eq(inner.as_str(), "unlimited") {
                return Ok(None);
            }
            match parse_number(text.as_str(), u64::MAX) {
                Ok(number) => Ok(Some(number)),
                Err(reason) => Err(concat3(name, " is invalid: ", reason.as_str())),
            }
        },
    }
}

/// What comes of reading a token that may be missing. `checked` is what its check gave.
pub open spec fn token_read(name: Seq<char>, value: EnvironmentValue, checked: Result<(), String>) -> Result<Option<Seq<char>>, Seq<char>> {
    match optional_read(name, value) {
        Err(reason) => Err(reason),
        Ok(None) => Ok(None),
        Ok(Some(text)) => match checked {
            Ok(_) => Ok(Some(text)),
            Err(reason) => Err(name + " is invalid: "@ + reason@),
        },
    }
}

/// Reads a token that may be missing.
pub fn validated_optional_token(name: &str, value: EnvironmentValue, checked: Result<(), String>) -> (r: Result<Option<String>, String>)
    ensures
        match token_read(name@, value, checked) {
            Ok(text) => r matches Ok(found) && option_view(found) == text,
            Err(reason) => r matches Err(told) && told@ == reason,
        },
{
    match optional_environment(name, value) {
        Err(reason) => Err(reason),
        Ok(None) => Ok(None),
        Ok(Some(text)) => match checked {
            Ok(_) => Ok(Some(text)),
            Err(reason) => Err(concat3(name, " is invalid: ", reason.as_str())),
        },
    }
}

/// Reads a token that has to be there.
pub fn required_environment_token(name: &str, value: EnvironmentValue, checked: Result<(), String>) -> (r: Result<String, String>)
    ensures
        match token_read(name@, value, checked) {
            Ok(Some(text)) => r matches Ok(found) && found@ == text,
            Ok(None) => r matches Err(told) && told@ == name@ + " must be configured"@,
            Err(reason) => r matches Err(told) && told@ == reason,
        },
{
    match validated_optional_token(name, value, checked) {
        Ok(Some(text)) => Ok(text),
        Ok(None) => Err(concat2(name, " must be configured")),
        Err(reason) => Err(reason),
    }
}

/// Lets clients that are trusted without a session in only over a loopback address.
pub fn validate_listener_security(listens_on_loopback: bool, allow_local_trusted: bool) -> (r: Result<(), String>)
    ensures
        r is Ok <==> (allow_local_trusted ==> listens_on_loopback),
        r matches Err(told) ==> told@
            == "--allow-local-trusted-loopback requires a loopback --listen address"@,
{
    if allow_local_trusted && !listens_on_loopback {
        return Err(
            "--allow-local-trusted-loopback requires a loopback --listen address".to_owned(),
        );
    }
    Ok(())
}

/// Checks the address of the database: where it is set, it is not blank.
pub fn validate_database_url(database_url: &Option<String>) -> (r: Result<(), String>)
    ensures
        r is Ok <==> (database_url matches Some(url) ==> trimmed(url@).len() > 0),
        r matches Err(told) ==> told@ == "DATABASE_URL must not be empty when configured"@,
{
    match database_url {
        Some(url) => {
            if is_blank(url.as_str()) {
                return Err("DATABASE_URL must not be empty when configured".to_owned());
            }
            Ok(())
        },
        None => Ok(()),
    }
}

/// What comes of reading where relays ask for access, if they may: nothing where it is missing or
/// blank.
pub open spec fn callback_read(value: EnvironmentValue) -> Result<Option<Seq<char>>, Seq<char>> {
    match value {
        EnvironmentValue::Missing => Ok(None),
        EnvironmentValue::NotUnicode(reason) => Err(reason@),
        EnvironmentValue::Text(text) => if trimmed(text@).len() == 0 {
            Ok(None)
        } else {
            Ok(Some(text@))
        },
    }
}

/// Reads where relays ask for access.
pub fn relay_callback_address(value: EnvironmentValue) -> (r: Result<Option<String>, String>)
    ensures
        match callback_read(value) {
            Ok(text) => r matches Ok(found) && option_view(found) == text,
            Err(reason) => r matches Err(told) && told@ == reason,
        },
{
    match value {
        EnvironmentValue::Missing => Ok(None),
        EnvironmentValue::NotUnicode(reason) => Err(reason),
        EnvironmentValue::Text(text) => {
            if is_blank(text.as_str()) {
                Ok(None)
            } else {
                Ok(Some(text))
            }
        },
    }
}

/// Checks where relays ask for access, and hands out what they are known by. `loopback` is whether the
/// address is one of the machine itself, or why it is none at all.
pub fn relay_callback_bearer(bearer: EnvironmentValue, checked: Result<(), String>, loopback: Result<bool, String>) -> (r: Result<String, String>)
    ensures
        match token_read("CLUSTERFLUX_RELAY_ACCESS_CALLBACK_BEARER"@, bearer, checked) {
            Err(reason) => r matches Err(told) && told@ == reason,
            Ok(None) => r matches Err(told) && told@
                == "CLUSTERFLUX_RELAY_ACCESS_CALLBACK_BEARER"@ + " must be configured"@,
            Ok(Some(text)) => match loopback {
                Err(reason) => r matches Err(told) && told@
                    == "CLUSTERFLUX_RELAY_ACCESS_CALLBACK_LISTEN is invalid: "@ + reason@,
                Ok(false) => r matches Err(told) && told@
                    == "CLUSTERFLUX_RELAY_ACCESS_CALLBACK_LISTEN must bind a loopback address"@,
                Ok(true) => r matches Ok(found) && found@ == text,
            },
        },
{
    let token: String = match required_environment_token(
        "CLUSTERFLUX_RELAY_ACCESS_CALLBACK_BEARER",
        bearer,
        checked,
    ) {
        Ok(token) => token,
        Err(reason) => {
            return Err(reason);
        },
    };
    match loopback {
        Err(reason) => Err(
            concat2("CLUSTERFLUX_RELAY_ACCESS_CALLBACK_LISTEN is invalid: ", reason.as_str()),
        ),
        Ok(false) => Err(
            "CLUSTERFLUX_RELAY_ACCESS_CALLBACK_LISTEN must bind a loopback address".to_owned(),
        ),
        Ok(true) => Ok(token),
    }
}

/// The variables that set the figures of the artifact interchange.
pub struct InterchangeFigures {
    pub endpoint_advertisement_ttl_seconds: EnvironmentValue,
    pub transfer_lease_ttl_seconds: EnvironmentValue,
    pub active_transfer_lease_ttl_seconds: EnvironmentValue,
    pub no_progress_timeout_seconds: EnvironmentValue,
    pub absolute_transfer_max_seconds: EnvironmentValue,
    pub max_active_transfers_per_tenant: EnvironmentValue,
    pub max_active_transfers_per_project: EnvironmentValue,
    pub max_active_transfers_per_process: EnvironmentValue,
    pub max_provider_leases_per_node: EnvironmentValue,
    pub max_receiver_leases_per_node: EnvironmentValue,
    pub max_transfer_creations_per_tenant_node_minute: EnvironmentValue,
    pub max_partial_bytes_per_node_project: EnvironmentValue,
    pub direct_path_deadline_ms: EnvironmentValue,
    pub direct_path_grace_period_ms: EnvironmentValue,
}

/// Why the figures that are set are refused, if they are: the first variable that cannot be read.
pub open spec fn figures_refusal(set: InterchangeFigures, defaults: CoordinatorArtifactInterchangeConfigurationModel) -> Option<Seq<char>> {
    if positive_set("CLUSTERFLUX_ARTIFACT_ENDPOINT_ADVERTISEMENT_TTL_SECONDS"@, defaults.endpoint_advertisement_ttl_seconds as nat, set.endpoint_advertisement_ttl_seconds, u64::MAX as nat) is Err {
        Some(positive_set("CLUSTERFLUX_ARTIFACT_ENDPOINT_ADVERTISEMENT_TTL_SECONDS"@, defaults.endpoint_advertisement_ttl_seconds as nat, set.endpoint_advertisement_ttl_seconds, u64::MAX as nat)->Err_0)
    } else if positive_set("CLUSTERFLUX_ARTIFACT_STREAM_TICKET_TTL_SECONDS"@, defaults.transfer_lease_ttl_seconds as nat, set.transfer_lease_ttl_seconds, u64::MAX as nat) is Err {
        Some(positive_set("CLUSTERFLUX_ARTIFACT_STREAM_TICKET_TTL_SECONDS"@, defaults.transfer_lease_ttl_seconds as nat, set.transfer_lease_ttl_seconds, u64::MAX as nat)->Err_0)
    } else if positive_set("CLUSTERFLUX_ARTIFACT_ACTIVE_TRANSFER_LEASE_TTL_SECONDS"@, defaults.active_transfer_lease_ttl_seconds as nat, set.active_transfer_lease_ttl_seconds, u64::MAX as nat) is Err {
        Some(positive_set("CLUSTERFLUX_ARTIFACT_ACTIVE_TRANSFER_LEASE_TTL_SECONDS"@, defaults.active_transfer_lease_ttl_seconds as nat, set.active_transfer_lease_ttl_seconds, u64::MAX as nat)->Err_0)
    } else if positive_set("CLUSTERFLUX_ARTIFACT_NO_PROGRESS_TIMEOUT_SECONDS"@, defaults.no_progress_timeout_seconds as nat, set.no_progress_timeout_seconds, u64::MAX as nat) is Err {
        Some(positive_set("CLUSTERFLUX_ARTIFACT_NO_PROGRESS_TIMEOUT_SECONDS"@, defaults.no_progress_timeout_seconds as nat, set.no_progress_timeout_seconds, u64::MAX as nat)->Err_0)
    } else if optional_number_set("CLUSTERFLUX_ARTIFACT_ABSOLUTE_TRANSFER_MAX_SECONDS"@, defaults.absolute_transfer_max_seconds, set.absolute_transfer_max_seconds) is Err {
        Some(optional_number_set("CLUSTERFLUX_ARTIFACT_ABSOLUTE_TRANSFER_MAX_SECONDS"@, defaults.absolute_transfer_max_seconds, set.absolute_transfer_max_seconds)->Err_0)
    } else if size_set("CLUSTERFLUX_ARTIFACT_MAX_ACTIVE_TRANSFERS_PER_TENANT"@, defaults.max_active_transfers_per_tenant, set.max_active_transfers_per_tenant) is Err {
        Some(size_set("CLUSTERFLUX_ARTIFACT_MAX_ACTIVE_TRANSFERS_PER_TENANT"@, defaults.max_active_transfers_per_tenant, set.max_active_transfers_per_tenant)->Err_0)
    } else if size_set("CLUSTERFLUX_ARTIFACT_MAX_ACTIVE_TRANSFERS_PER_PROJECT"@, defaults.max_active_transfers_per_project, set.max_active_transfers_per_project) is Err {
        Some(size_set("CLUSTERFLUX_ARTIFACT_MAX_ACTIVE_TRANSFERS_PER_PROJECT"@, defaults.max_active_transfers_per_project, set.max_active_transfers_per_project)->Err_0)
    } else if size_set("CLUSTERFLUX_ARTIFACT_MAX_ACTIVE_TRANSFERS_PER_PROCESS"@, defaults.max_active_transfers_per_process, set.max_active_transfers_per_process) is Err {
        Some(size_set("CLUSTERFLUX_ARTIFACT_MAX_ACTIVE_TRANSFERS_PER_PROCESS"@, defaults.max_active_transfers_per_process, set.max_active_transfers_per_process)->Err_0)
    } else if size_set("CLUSTERFLUX_ARTIFACT_MAX_PROVIDER_LEASES_PER_NODE"@, defaults.max_provider_leases_per_node, set.max_provider_leases_per_node) is Err {
        Some(size_set("CLUSTERFLUX_ARTIFACT_MAX_PROVIDER_LEASES_PER_NODE"@, defaults.max_provider_leases_per_node, set.max_provider_leases_per_node)->Err_0)
    } else if size_set("CLUSTERFLUX_ARTIFACT_MAX_RECEIVER_LEASES_PER_NODE"@, defaults.max_receiver_leases_per_node, set.max_receiver_leases_per_node) is Err {
        Some(size_set("CLUSTERFLUX_ARTIFACT_MAX_RECEIVER_LEASES_PER_NODE"@, defaults.max_receiver_leases_per_node, set.max_receiver_leases_per_node)->Err_0)
    } else if size_set("CLUSTERFLUX_ARTIFACT_MAX_TRANSFER_CREATIONS_PER_TENANT_NODE_MINUTE"@, defaults.max_transfer_creations_per_tenant_node_minute, set.max_transfer_creations_per_tenant_node_minute) is Err {
        Some(size_set("CLUSTERFLUX_ARTIFACT_MAX_TRANSFER_CREATIONS_PER_TENANT_NODE_MINUTE"@, defaults.max_transfer_creations_per_tenant_node_minute, set.max_transfer_creations_per_tenant_node_minute)->Err_0)
    } else if positive_set("CLUSTERFLUX_ARTIFACT_MAX_PARTIAL_BYTES_PER_NODE_PROJECT"@, defaults.max_partial_bytes_per_node_project as nat, set.max_partial_bytes_per_node_project, u64::MAX as nat) is Err {
        Some(positive_set("CLUSTERFLUX_ARTIFACT_MAX_PARTIAL_BYTES_PER_NODE_PROJECT"@, defaults.max_partial_bytes_per_node_project as nat, set.max_partial_bytes_per_node_project, u64::MAX as nat)->Err_0)
    } else if positive_set("CLUSTERFLUX_ARTIFACT_DIRECT_PATH_DEADLINE_MS"@, defaults.direct_path_deadline_ms as nat, set.direct_path_deadline_ms, u64::MAX as nat) is Err {
        Some(positive_set("CLUSTERFLUX_ARTIFACT_DIRECT_PATH_DEADLINE_MS"@, defaults.direct_path_deadline_ms as nat, set.direct_path_deadline_ms, u64::MAX as nat)->Err_0)
    } else if number_set("CLUSTERFLUX_ARTIFACT_DIRECT_PATH_GRACE_PERIOD_MS"@, defaults.direct_path_grace_period_ms as nat, set.direct_path_grace_period_ms, u64::MAX as nat) is Err {
        Some(number_set("CLUSTERFLUX_ARTIFACT_DIRECT_PATH_GRACE_PERIOD_MS"@, defaults.direct_path_grace_period_ms as nat, set.direct_path_grace_period_ms, u64::MAX as nat)->Err_0)
    } else {
        None
    }
}

/// A configuration has the figures that are set.
pub open spec fn figures_taken(found: CoordinatorArtifactInterchangeConfigurationModel, set: InterchangeFigures, defaults: CoordinatorArtifactInterchangeConfigurationModel) -> bool {
    &&& positive_set("CLUSTERFLUX_ARTIFACT_ENDPOINT_ADVERTISEMENT_TTL_SECONDS"@, defaults.endpoint_advertisement_ttl_seconds as nat, set.endpoint_advertisement_ttl_seconds, u64::MAX as nat) == Ok::<nat, Seq<char>>(found.endpoint_advertisement_ttl_seconds as nat)
    &&& positive_set("CLUSTERFLUX_ARTIFACT_STREAM_TICKET_TTL_SECONDS"@, defaults.transfer_lease_ttl_seconds as nat, set.transfer_lease_ttl_seconds, u64::MAX as nat) == Ok::<nat, Seq<char>>(found.transfer_lease_ttl_seconds as nat)
    &&& positive_set("CLUSTERFLUX_ARTIFACT_ACTIVE_TRANSFER_LEASE_TTL_SECONDS"@, defaults.active_transfer_lease_ttl_seconds as nat, set.active_transfer_lease_ttl_seconds, u64::MAX as nat) == Ok::<nat, Seq<char>>(found.active_transfer_lease_ttl_seconds as nat)
    &&& positive_set("CLUSTERFLUX_ARTIFACT_NO_PROGRESS_TIMEOUT_SECONDS"@, defaults.no_progress_timeout_seconds as nat, set.no_progress_timeout_seconds, u64::MAX as nat) == Ok::<nat, Seq<char>>(found.no_progress_timeout_seconds as nat)
    &&& optional_number_set("CLUSTERFLUX_ARTIFACT_ABSOLUTE_TRANSFER_MAX_SECONDS"@, defaults.absolute_transfer_max_seconds, set.absolute_transfer_max_seconds) == Ok::<Option<nat>, Seq<char>>(
        match found.absolute_transfer_max_seconds {
            Some(number) => Some(number as nat),
            None => None,
        },
    )
    &&& size_set("CLUSTERFLUX_ARTIFACT_MAX_ACTIVE_TRANSFERS_PER_TENANT"@, defaults.max_active_transfers_per_tenant, set.max_active_transfers_per_tenant) == Ok::<nat, Seq<char>>(found.max_active_transfers_per_tenant as nat)
    &&& size_set("CLUSTERFLUX_ARTIFACT_MAX_ACTIVE_TRANSFERS_PER_PROJECT"@, defaults.max_active_transfers_per_project, set.max_active_transfers_per_project) == Ok::<nat, Seq<char>>(found.max_active_transfers_per_project as nat)
    &&& size_set("CLUSTERFLUX_ARTIFACT_MAX_ACTIVE_TRANSFERS_PER_PROCESS"@, defaults.max_active_transfers_per_process, set.max_active_transfers_per_process) == Ok::<nat, Seq<char>>(found.max_active_transfers_per_process as nat)
    &&& size_set("CLUSTERFLUX_ARTIFACT_MAX_PROVIDER_LEASES_PER_NODE"@, defaults.max_provider_leases_per_node, set.max_provider_leases_per_node) == Ok::<nat, Seq<char>>(found.max_provider_leases_per_node as nat)
    &&& size_set("CLUSTERFLUX_ARTIFACT_MAX_RECEIVER_LEASES_PER_NODE"@, defaults.max_receiver_leases_per_node, set.max_receiver_leases_per_node) == Ok::<nat, Seq<char>>(found.max_receiver_leases_per_node as nat)
    &&& size_set("CLUSTERFLUX_ARTIFACT_MAX_TRANSFER_CREATIONS_PER_TENANT_NODE_MINUTE"@, defaults.max_transfer_creations_per_tenant_node_minute, set.max_transfer_creations_per_tenant_node_minute) == Ok::<nat, Seq<char>>(found.max_transfer_creations_per_tenant_node_minute as nat)
    &&& positive_set("CLUSTERFLUX_ARTIFACT_MAX_PARTIAL_BYTES_PER_NODE_PROJECT"@, defaults.max_partial_bytes_per_node_project as nat, set.max_partial_bytes_per_node_project, u64::MAX as nat) == Ok::<nat, Seq<char>>(found.max_partial_bytes_per_node_project as nat)
    &&& positive_set("CLUSTERFLUX_ARTIFACT_DIRECT_PATH_DEADLINE_MS"@, defaults.direct_path_deadline_ms as nat, set.direct_path_deadline_ms, u64::MAX as nat) == Ok::<nat, Seq<char>>(found.direct_path_deadline_ms as nat)
    &&& number_set("CLUSTERFLUX_ARTIFACT_DIRECT_PATH_GRACE_PERIOD_MS"@, defaults.direct_path_grace_period_ms as nat, set.direct_path_grace_period_ms, u64::MAX as nat) == Ok::<nat, Seq<char>>(found.direct_path_grace_period_ms as nat)
}

fn read_figures(
    deployment_mode: ClusterfluxDeploymentMode,
    relay: IrohRelayConfiguration,
    artifact_relay_policy: ArtifactRelayPolicy,
    set: InterchangeFigures,
) -> (r: Result<CoordinatorArtifactInterchangeConfiguration, String>)
    ensures
        match figures_refusal(set, default_configuration()) {
            Some(reason) => r matches Err(told) && told@ == reason,
            None => {
                &&& r matches Ok(found)
                &&& figures_taken(found@, set, default_configuration())
                &&& found@.deployment_mode == deployment_mode
                &&& found@.relay == relay@
                &&& found@.artifact_relay_policy == artifact_relay_policy
                &&& found@.generation == 2
            },
        },
{
    let defaults: CoordinatorArtifactInterchangeConfiguration = CoordinatorArtifactInterchangeConfiguration::default();
    let endpoint_advertisement_ttl_seconds: u64 = match environment_u64(
        "CLUSTERFLUX_ARTIFACT_ENDPOINT_ADVERTISEMENT_TTL_SECONDS",
        defaults.endpoint_advertisement_ttl_seconds,
        set.endpoint_advertisement_ttl_seconds,
    ) {
        Ok(number) => number,
        Err(reason) => {
            return Err(reason);
        },
    };
    let transfer_lease_ttl_seconds: u64 = match environment_u64(
        "CLUSTERFLUX_ARTIFACT_STREAM_TICKET_TTL_SECONDS",
        defaults.transfer_lease_ttl_seconds,
        set.transfer_lease_ttl_seconds,
    ) {
        Ok(number) => number,
        Err(reason) => {
            return Err(reason);
        },
    };
    let active_transfer_lease_ttl_seconds: u64 = match environment_u64(
        "CLUSTERFLUX_ARTIFACT_ACTIVE_TRANSFER_LEASE_TTL_SECONDS",
        defaults.active_transfer_lease_ttl_seconds,
        set.active_transfer_lease_ttl_seconds,
    ) {
        Ok(number) => number,
        Err(reason) => {
            return Err(reason);
        },
    };
    let no_progress_timeout_seconds: u64 = match environment_u64(
        "CLUSTERFLUX_ARTIFACT_NO_PROGRESS_TIMEOUT_SECONDS",
        defaults.no_progress_timeout_seconds,
        set.no_progress_timeout_seconds,
    ) {
        Ok(number) => number,
        Err(reason) => {
            return Err(reason);
        },
    };
    let absolute_transfer_max_seconds: Option<u64> = match environment_optional_u64(
        "CLUSTERFLUX_ARTIFACT_ABSOLUTE_TRANSFER_MAX_SECONDS",
        defaults.absolute_transfer_max_seconds,
        set.absolute_transfer_max_seconds,
    ) {
        Ok(number) => number,
        Err(reason) => {
            return Err(reason);
        },
    };
    let max_active_transfers_per_tenant: usize = match environment_usize(
        "CLUSTERFLUX_ARTIFACT_MAX_ACTIVE_TRANSFERS_PER_TENANT",
        defaults.max_active_transfers_per_tenant,
        set.max_active_transfers_per_tenant,
    ) {
        Ok(number) => number,
        Err(reason) => {
            return Err(reason);
        },
    };
    let max_active_transfers_per_project: usize = match environment_usize(
        "CLUSTERFLUX_ARTIFACT_MAX_ACTIVE_TRANSFERS_PER_PROJECT",
        defaults.max_active_transfers_per_project,
        set.max_active_transfers_per_project,
    ) {
        Ok(number) => number,
        Err(reason) => {
            return Err(reason);
        },
    };
    let max_active_transfers_per_process: usize = match environment_usize(
        "CLUSTERFLUX_ARTIFACT_MAX_ACTIVE_TRANSFERS_PER_PROCESS",
        defaults.max_active_transfers_per_process,
        set.max_active_transfers_per_process,
    ) {
        Ok(number) => number,
        Err(reason) => {
            return Err(reason);
        },
    };
    let max_provider_leases_per_node: usize = match environment_usize(
        "CLUSTERFLUX_ARTIFACT_MAX_PROVIDER_LEASES_PER_NODE",
        defaults.max_provider_leases_per_node,
        set.max_provider_leases_per_node,
    ) {
        Ok(number) => number,
        Err(reason) => {
            return Err(reason);
        },
    };
    let max_receiver_leases_per_node: usize = match environment_usize(
        "CLUSTERFLUX_ARTIFACT_MAX_RECEIVER_LEASES_PER_NODE",
        defaults.max_receiver_leases_per_node,
        set.max_receiver_leases_per_node,
    ) {
        Ok(number) => number,
        Err(reason) => {
            return Err(reason);
        },
    };
    let max_transfer_creations_per_tenant_node_minute: usize = match environment_usize(
        "CLUSTERFLUX_ARTIFACT_MAX_TRANSFER_CREATIONS_PER_TENANT_NODE_MINUTE",
        defaults.max_transfer_creations_per_tenant_node_minute,
        set.max_transfer_creations_per_tenant_node_minute,
    ) {
        Ok(number) => number,
        Err(reason) => {
            return Err(reason);
        },
    };
    let max_partial_bytes_per_node_project: u64 = match environment_u64(
        "CLUSTERFLUX_ARTIFACT_MAX_PARTIAL_BYTES_PER_NODE_PROJECT",
        defaults.max_partial_bytes_per_node_project,
        set.max_partial_bytes_per_node_project,
    ) {
        Ok(number) => number,
        Err(reason) => {
            return Err(reason);
        },
    };
    let direct_path_deadline_ms: u64 = match environment_u64(
        "CLUSTERFLUX_ARTIFACT_DIRECT_PATH_DEADLINE_MS",
        defaults.direct_path_deadline_ms,
        set.direct_path_deadline_ms,
    ) {
        Ok(number) => number,
        Err(reason) => {
            return Err(reason);
        },
    };
    let direct_path_grace_period_ms: u64 = match environment_u64_allow_zero(
        "CLUSTERFLUX_ARTIFACT_DIRECT_PATH_GRACE_PERIOD_MS",
        defaults.direct_path_grace_period_ms,
        set.direct_path_grace_period_ms,
    ) {
        Ok(number) => number,
        Err(reason) => {
            return Err(reason);
        },
    };
    Ok(
        CoordinatorArtifactInterchangeConfiguration {
            deployment_mode,
            relay,
            artifact_relay_policy,
            generation: 2,
            endpoint_advertisement_ttl_seconds,
            transfer_lease_ttl_seconds,
            active_transfer_lease_ttl_seconds,
            no_progress_timeout_seconds,
            absolute_transfer_max_seconds,
            max_active_transfers_per_tenant,
            max_active_transfers_per_project,
            max_active_transfers_per_process,
            max_provider_leases_per_node,
            max_receiver_leases_per_node,
            max_transfer_creations_per_tenant_node_minute,
            max_partial_bytes_per_node_project,
            direct_path_deadline_ms,
            direct_path_grace_period_ms,
        },
    )
}

/// The parts of a list that commas divide, without the space around them, and without those that are
/// blank.
pub open spec fn listed(text: Seq<char>) -> Seq<Seq<char>>
    decreases text.len(),
{
    match comma(text, 0) {
        None => kept_part(text),
        Some(i) => if 0 <= i < text.len() {
            kept_part(text.take(i)) + listed(text.skip(i + 1))
        } else {
            Seq::empty()
        },
    }
}

/// Where the first comma stands, from a place on.
pub open spec fn comma(text: Seq<char>, from: int) -> Option<int>
    decreases text.len() - from,
{
    if from < 0 || from >= text.len() {
        None
    } else if text[from] == ',' {
        Some(from)
    } else {
        comma(text, from + 1)
    }
}

/// A part of a list, unless it is blank.
pub open spec fn kept_part(text: Seq<char>) -> Seq<Seq<char>> {
    if trimmed(text).len() == 0 {
        Seq::empty()
    } else {
        seq![trimmed(text)]
    }
}

fn keep_part(chars: &Vec<char>, from: usize, to: usize, out: &mut Vec<String>)
    requires
        from <= to <= chars@.len(),
    ensures
        texts(final(out)@) == texts(old(out)@) + kept_part(
            chars@.subrange(from as int, to as int),
        ),
{
    let inner: Vec<char> = part(chars, from, to);
    let text: String = text_of(&inner);
    let kept: String = trim_text(text.as_str());
    proof {
        reveal_strlit("");
        if kept@.len() == 0 {
            assert(kept@ =~= ""@);
        }
    }
    let ghost before = out@;
    if !text_eq(kept.as_str(), "") {
        out.push(kept);
        assert(texts(out@) =~= texts(before) + seq![kept@]);
    } else {
        assert(texts(out@) + Seq::empty() =~= texts(out@));
    }
}

/// The parts of a list that commas divide.
pub fn split_list(text: &str) -> (r: Vec<String>)
    ensures
        texts(r@) == listed(text@),
{
    let chars: Vec<char> = chars_of(text);
    let mut out: Vec<String> = Vec::new();
    let mut from: usize = 0;
    let mut i: usize = 0;
    assert(text@.skip(0) =~= text@);
    assert(texts(out@) + listed(text@) =~= listed(text@));
    while i < chars.len()
        invariant
            chars@ == text@,
            0 <= from <= i <= chars@.len(),
            texts(out@) + listed(text@.skip(from as int)) == listed(text@),
            comma(text@.skip(from as int), i - from) == comma(text@.skip(from as int), 0),
        decreases chars@.len() - i,
    {
        assert(text@.skip(from as int)[i - from] == text@[i as int]);
        if chars[i] == ',' {
            let ghost rest = text@.skip(from as int);
            let ghost known = texts(out@);
            assert(comma(rest, 0) == Some(i - from));
            keep_part(&chars, from, i, &mut out);
            assert(chars@.subrange(from as int, i as int) =~= rest.take(i - from));
            assert(rest.skip(i - from + 1) =~= text@.skip(i + 1));
            assert(known + (kept_part(rest.take(i - from)) + listed(text@.skip(i + 1))) =~= (known
                + kept_part(rest.take(i - from))) + listed(text@.skip(i + 1)));
            from = i + 1;
        }
        i = i + 1;
    }
    let ghost rest = text@.skip(from as int);
    assert(comma(rest, 0) is None);
    keep_part(&chars, from, chars.len(), &mut out);
    assert(chars@.subrange(from as int, chars@.len() as int) =~= rest);
    out
}

/// What comes of reading how the coordinator is deployed.
pub open spec fn deployment_read(value: EnvironmentValue) -> Result<ClusterfluxDeploymentMode, Seq<char>> {
    match optional_read("CLUSTERFLUX_DEPLOYMENT_MODE"@, value) {
        Err(reason) => Err(reason),
        Ok(None) => Ok(ClusterfluxDeploymentMode::SelfHosted),
        Ok(Some(text)) => if text == "hosted-public"@ {
            Ok(ClusterfluxDeploymentMode::HostedPublic)
        } else if text == "self-hosted"@ {
            Ok(ClusterfluxDeploymentMode::SelfHosted)
        } else if text == "local-offline"@ {
            Ok(ClusterfluxDeploymentMode::LocalOffline)
        } else {
            Err(
                "CLUSTERFLUX_DEPLOYMENT_MODE must be hosted-public, self-hosted, or local-offline; got "@
                    + text,
            )
        },
    }
}

/// What comes of reading whether relays may carry artifacts.
pub open spec fn relay_policy_read(value: EnvironmentValue) -> Result<Option<ArtifactRelayPolicy>, Seq<char>> {
    match value {
        EnvironmentValue::Missing => Ok(None),
        EnvironmentValue::NotUnicode(reason) => Err(reason@),
        EnvironmentValue::Text(text) => if text@ == "direct-required"@ {
            Ok(Some(ArtifactRelayPolicy::DirectRequired))
        } else if text@ == "relay-fallback-allowed"@ {
            Ok(Some(ArtifactRelayPolicy::RelayFallbackAllowed))
        } else {
            Err(
                "CLUSTERFLUX_ARTIFACT_RELAY_POLICY must be direct-required or relay-fallback-allowed; got "@
                    + text@,
            )
        },
    }
}

fn read_deployment(value: EnvironmentValue) -> (r: Result<ClusterfluxDeploymentMode, String>)
    ensures
        match deployment_read(value) {
            Ok(mode) => r == Ok::<ClusterfluxDeploymentMode, String>(mode),
            Err(reason) => r matches Err(told) && told@ == reason,
        },
{
    match optional_environment("CLUSTERFLUX_DEPLOYMENT_MODE", value) {
        Err(reason) => Err(reason),
        Ok(None) => Ok(ClusterfluxDeploymentMode::SelfHosted),
        Ok(Some(text)) => {
            if text_eq(text.as_str(), "hosted-public") {
                Ok(ClusterfluxDeploymentMode::HostedPublic)
            } else if text_eq(text.as_str(), "self-hosted") {
                Ok(ClusterfluxDeploymentMode::SelfHosted)
            } else if text_eq(text.as_str(), "local-offline") {
                Ok(ClusterfluxDeploymentMode::LocalOffline)
            } else {
                Err(
                    concat2(
                        "CLUSTERFLUX_DEPLOYMENT_MODE must be hosted-public, self-hosted, or local-offline; got ",
                        text.as_str(),
                    ),
                )
            }
        },
    }
}

fn read_relay_policy(value: EnvironmentValue) -> (r: Result<Option<ArtifactRelayPolicy>, String>)
    ensures
        match relay_policy_read(value) {
            Ok(policy) => r == Ok::<Option<ArtifactRelayPolicy>, String>(policy),
            Err(reason) => r matches Err(told) && told@ == reason,
        },
{
    match value {
        EnvironmentValue::Missing => Ok(None),
        EnvironmentValue::NotUnicode(reason) => Err(reason),
        EnvironmentValue::Text(text) => {
            if text_eq(text.as_str(), "direct-required") {
                Ok(Some(ArtifactRelayPolicy::DirectRequired))
            } else if text_eq(text.as_str(), "relay-fallback-allowed") {
                Ok(Some(ArtifactRelayPolicy::RelayFallbackAllowed))
            } else {
                Err(
                    concat2(
                        "CLUSTERFLUX_ARTIFACT_RELAY_POLICY must be direct-required or relay-fallback-allowed; got ",
                        text.as_str(),
                    ),
                )
            }
        },
    }
}

/// The variables that set the artifact interchange. `relay_access_token_checked` is what the check of
/// the token gave, and the policies are those that stand for each way to be deployed.
pub struct InterchangeEnvironment {
    pub deployment_mode: EnvironmentValue,
    pub artifact_relay_policy: EnvironmentValue,
    pub relay_urls: EnvironmentValue,
    pub relay_access_token: EnvironmentValue,
    pub relay_access_token_checked: Result<(), String>,
    pub figures: InterchangeFigures,
}

/// The policy of each way to be deployed.
pub struct DeploymentPolicies {
    pub hosted_public: ArtifactRelayPolicy,
    pub self_hosted: ArtifactRelayPolicy,
    pub local_offline: ArtifactRelayPolicy,
}

impl DeploymentPolicies {
    /// The policy of a way to be deployed.
    pub open spec fn of(&self, mode: ClusterfluxDeploymentMode) -> ArtifactRelayPolicy {
        match mode {
            ClusterfluxDeploymentMode::HostedPublic => self.hosted_public,
            ClusterfluxDeploymentMode::SelfHosted => self.self_hosted,
            ClusterfluxDeploymentMode::LocalOffline => self.local_offline,
        }
    }
}

/// The relays that are listed.
pub open spec fn listed_relays(value: EnvironmentValue) -> Result<Seq<Seq<char>>, Seq<char>> {
    match optional_read("CLUSTERFLUX_IROH_RELAY_URLS"@, value) {
        Err(reason) => Err(reason),
        Ok(None) => Ok(Seq::empty()),
        Ok(Some(text)) => Ok(listed(text)),
    }
}

/// A relay configuration with the relays that are listed, each with the same token.
pub open spec fn is_relay_configuration(relay: IrohRelayConfigurationModel, urls: Seq<Seq<char>>, token: Option<Seq<char>>) -> bool {
    if urls.len() == 0 {
        relay is Disabled
    } else {
        &&& relay matches IrohRelayConfigurationModel::Custom(relays)
        &&& relays.len() == urls.len()
        &&& forall|i: int|
            0 <= i < urls.len() ==> (#[trigger] relays[i]).url@ == urls[i] && option_view(
                relays[i].access_token,
            ) == token
    }
}

/// The token that relays are given.
pub open spec fn relay_token_read(set: InterchangeEnvironment) -> Result<Option<Seq<char>>, Seq<char>> {
    token_read(
        "CLUSTERFLUX_IROH_RELAY_ACCESS_TOKEN"@,
        set.relay_access_token,
        set.relay_access_token_checked,
    )
}

/// A configuration as it is set.
pub open spec fn is_set_configuration(
    found: CoordinatorArtifactInterchangeConfigurationModel,
    set: InterchangeEnvironment,
    policies: DeploymentPolicies,
) -> bool {
    &&& deployment_read(set.deployment_mode) == Ok::<ClusterfluxDeploymentMode, Seq<char>>(
        found.deployment_mode,
    )
    &&& is_relay_configuration(
        found.relay,
        listed_relays(set.relay_urls)->Ok_0,
        relay_token_read(set)->Ok_0,
    )
    &&& found.artifact_relay_policy == (match relay_policy_read(set.artifact_relay_policy)->Ok_0 {
        Some(policy) => policy,
        None => if found.relay is Disabled {
            ArtifactRelayPolicy::DirectRequired
        } else {
            policies.of(found.deployment_mode)
        },
    })
    &&& found.generation == 2
    &&& figures_taken(found, set.figures, default_configuration())
}

/// Why what is set cannot be read, if it cannot.
pub open spec fn setting_refusal(set: InterchangeEnvironment) -> Option<Seq<char>> {
    if deployment_read(set.deployment_mode) is Err {
        Some(deployment_read(set.deployment_mode)->Err_0)
    } else if relay_policy_read(set.artifact_relay_policy) is Err {
        Some(relay_policy_read(set.artifact_relay_policy)->Err_0)
    } else if listed_relays(set.relay_urls) is Err {
        Some(listed_relays(set.relay_urls)->Err_0)
    } else if relay_token_read(set) is Err {
        Some(relay_token_read(set)->Err_0)
    } else {
        figures_refusal(set.figures, default_configuration())
    }
}

fn relay_configuration(urls: Vec<String>, token: &Option<String>) -> (r: IrohRelayConfiguration)
    ensures
        is_relay_configuration(r@, texts(urls@), option_view(*token)),
{
    if urls.len() == 0 {
        return IrohRelayConfiguration::Disabled;
    }
    let ghost all = texts(urls@);
    let mut relays: Vec<ClusterfluxRelayConfig> = Vec::new();
    let mut i: usize = 0;
    while i < urls.len()
        invariant
            0 <= i <= urls@.len(),
            all == texts(urls@),
            relays@.len() == i,
            forall|j: int|
                0 <= j < i ==> (#[trigger] relays@[j]).url@ == all[j] && option_view(
                    relays@[j].access_token,
                ) == option_view(*token),
        decreases urls@.len() - i,
    {
        let config: ClusterfluxRelayConfig = ClusterfluxRelayConfig {
            url: urls[i].clone(),
            access_token: copy_text(token),
        };
        assert(all[i as int] == urls@[i as int]@);
        relays.push(config);
        i = i + 1;
    }
    let r: IrohRelayConfiguration = IrohRelayConfiguration::Custom(relays);
    assert(r@ == IrohRelayConfigurationModel::Custom(relays@));
    r
}

/// The configuration of the artifact interchange as the environment sets it. Its generation is beyond
/// that of the configuration in force before, so that nodes never take the one for the other.
pub fn artifact_interchange_configuration_from_environment(
    set: InterchangeEnvironment,
    policies: DeploymentPolicies,
    limits: RelayLimits,
) -> (r: Result<CoordinatorArtifactInterchangeConfiguration, String>)
    ensures
        match setting_refusal(set) {
            Some(reason) => r matches Err(told) && told@ == reason,
            None => configuration_set(set, policies, limits, r),
        },
{
    let ghost given = set;
    let deployment_mode: ClusterfluxDeploymentMode = match read_deployment(set.deployment_mode) {
        Ok(mode) => mode,
        Err(reason) => {
            return Err(reason);
        },
    };
    let configured: Option<ArtifactRelayPolicy> = match read_relay_policy(
        set.artifact_relay_policy,
    ) {
        Ok(policy) => policy,
        Err(reason) => {
            return Err(reason);
        },
    };
    let urls: Vec<String> = match optional_environment(
        "CLUSTERFLUX_IROH_RELAY_URLS",
        set.relay_urls,
    ) {
        Err(reason) => {
            return Err(reason);
        },
        Ok(Some(text)) => split_list(text.as_str()),
        Ok(None) => {
            let none: Vec<String> = Vec::new();
            assert(texts(none@) =~= Seq::empty());
            none
        },
    };
    let token: Option<String> = match validated_optional_token(
        "CLUSTERFLUX_IROH_RELAY_ACCESS_TOKEN",
        set.relay_access_token,
        set.relay_access_token_checked,
    ) {
        Ok(token) => token,
        Err(reason) => {
            return Err(reason);
        },
    };
    let relay: IrohRelayConfiguration = relay_configuration(urls, &token);
    let disabled: bool = match &relay {
        IrohRelayConfiguration::Disabled => true,
        IrohRelayConfiguration::Custom(_) => false,
    };
    let artifact_relay_policy: ArtifactRelayPolicy = match configured {
        Some(policy) => policy,
        None => {
            if disabled {
                ArtifactRelayPolicy::DirectRequired
            } else {
                match deployment_mode {
                    ClusterfluxDeploymentMode::HostedPublic => policies.hosted_public,
                    ClusterfluxDeploymentMode::SelfHosted => policies.self_hosted,
                    ClusterfluxDeploymentMode::LocalOffline => policies.local_offline,
                }
            }
        },
    };
    let configuration: CoordinatorArtifactInterchangeConfiguration = match read_figures(
        deployment_mode,
        relay,
        artifact_relay_policy,
        set.figures,
    ) {
        Ok(configuration) => configuration,
        Err(reason) => {
            return Err(reason);
        },
    };
    let ghost found = configuration@;
    assert(is_set_configuration(found, given, policies));
    let r: Result<CoordinatorArtifactInterchangeConfiguration, String> = match configuration.validate(limits) {
        Ok(_) => Ok(configuration),
        Err(reason) => Err(reason),
    };
    assert(configuration_set(given, policies, limits, r));
    r
}

/// What comes of a configuration that could be read.
pub open spec fn configuration_set(
    set: InterchangeEnvironment,
    policies: DeploymentPolicies,
    limits: RelayLimits,
    r: Result<CoordinatorArtifactInterchangeConfiguration, String>,
) -> bool {
    exists|found: CoordinatorArtifactInterchangeConfigurationModel| #[trigger]
        is_set_configuration(found, set, policies) && match configuration_refusal(found, limits) {
            Some(reason) => r matches Err(told) && told@ == reason,
            None => r matches Ok(given) && given@ == found,
        }
}

/// The variables that a session which the deployment brings along is set by. Beside each stands what its
/// check gave.
pub struct SelfHostedSessionEnvironment {
    pub secret: EnvironmentValue,
    pub secret_checked: Result<(), String>,
    pub tenant: EnvironmentValue,
    pub tenant_checked: Result<(), String>,
    pub project: EnvironmentValue,
    pub project_checked: Result<(), String>,
    pub user: EnvironmentValue,
    pub user_checked: Result<(), String>,
}

/// A session that the deployment brings along.
pub struct SelfHostedSessionConfiguration {
    pub tenant: TenantId,
    pub project: ProjectId,
    pub user: UserId,
    pub secret: String,
}

/// What comes of reading a name, which stands for itself where it is missing.
pub open spec fn name_read(name: Seq<char>, value: EnvironmentValue, default: Seq<char>, checked: Result<(), String>) -> Result<Seq<char>, Seq<char>> {
    match optional_read(name, value) {
        Err(reason) => Err(reason),
        Ok(text) => match checked {
            Err(reason) => Err(reason@),
            Ok(_) => Ok(
                match text {
                    Some(text) => text,
                    None => default,
                },
            ),
        },
    }
}

fn read_name(name: &str, value: EnvironmentValue, default: &str, checked: Result<(), String>) -> (r: Result<String, String>)
    ensures
        match name_read(name@, value, default@, checked) {
            Ok(text) => r matches Ok(found) && found@ == text,
            Err(reason) => r matches Err(told) && told@ == reason,
        },
{
    match optional_environment(name, value) {
        Err(reason) => Err(reason),
        Ok(text) => match checked {
            Err(reason) => Err(reason),
            Ok(_) => match text {
                Some(text) => Ok(text),
                None => Ok(default.to_owned()),
            },
        },
    }
}

/// What comes of reading the secret of a session.
pub open spec fn session_secret_read(set: SelfHostedSessionEnvironment) -> Result<Option<Seq<char>>, Seq<char>> {
    token_read("CLUSTERFLUX_SELF_HOSTED_SESSION_SECRET"@, set.secret, set.secret_checked)
}

/// What comes of reading the names of a session.
pub open spec fn session_names_read(set: SelfHostedSessionEnvironment) -> (
    Result<Seq<char>, Seq<char>>,
    Result<Seq<char>, Seq<char>>,
    Result<Seq<char>, Seq<char>>,
) {
    (
        name_read("CLUSTERFLUX_SELF_HOSTED_TENANT"@, set.tenant, "tenant"@, set.tenant_checked),
        name_read("CLUSTERFLUX_SELF_HOSTED_PROJECT"@, set.project, "project"@, set.project_checked),
        name_read("CLUSTERFLUX_SELF_HOSTED_USER"@, set.user, "user"@, set.user_checked),
    )
}

/// The session that the deployment brings along, if a secret is set for it.
pub fn self_hosted_session_configuration_from_environment(set: SelfHostedSessionEnvironment) -> (r: Result<
    Option<SelfHostedSessionConfiguration>,
    String,
>)
    ensures
        match session_secret_read(set) {
            Err(reason) => r matches Err(told) && told@ == reason,
            Ok(None) => r matches Ok(None),
            Ok(Some(secret)) => match session_names_read(set) {
                (Err(reason), _, _) => r matches Err(told) && told@ == reason,
                (Ok(_), Err(reason), _) => r matches Err(told) && told@ == reason,
                (Ok(_), Ok(_), Err(reason)) => r matches Err(told) && told@ == reason,
                (Ok(tenant), Ok(project), Ok(user)) => {
                    &&& r matches Ok(Some(session))
                    &&& session.tenant@ == tenant
                    &&& session.project@ == project
                    &&& session.user@ == user
                    &&& session.secret@ == secret
                },
            },
        },
{
    let secret: String = match validated_optional_token(
        "CLUSTERFLUX_SELF_HOSTED_SESSION_SECRET",
        set.secret,
        set.secret_checked,
    ) {
        Err(reason) => {
            return Err(reason);
        },
        Ok(None) => {
            return Ok(None);
        },
        Ok(Some(secret)) => secret,
    };
    let tenant: String = match read_name(
        "CLUSTERFLUX_SELF_HOSTED_TENANT",
        set.tenant,
        "tenant",
        set.tenant_checked,
    ) {
        Ok(tenant) => tenant,
        Err(reason) => {
            return Err(reason);
        },
    };
    let project: String = match read_name(
        "CLUSTERFLUX_SELF_HOSTED_PROJECT",
        set.project,
        "project",
        set.project_checked,
    ) {
        Ok(project) => project,
        Err(reason) => {
            return Err(reason);
        },
    };
    let user: String = match read_name(
        "CLUSTERFLUX_SELF_HOSTED_USER",
        set.user,
        "user",
        set.user_checked,
    ) {
        Ok(user) => user,
        Err(reason) => {
            return Err(reason);
        },
    };
    Ok(Some(SelfHostedSessionConfiguration { tenant, project, user, secret }))
}

/// What a coordinator is started with, beside the artifact interchange: whether trusted clients are asked
/// for and over what it listens, and the variables.
pub struct StartupEnvironment {
    pub allow_local_trusted_loopback: bool,
    pub listens_on_loopback: bool,
    pub allow_local_trusted: EnvironmentValue,
    pub database_url: EnvironmentValue,
    pub admin_token: EnvironmentValue,
    pub admin_token_checked: Result<(), String>,
    pub node_stale_after_seconds: EnvironmentValue,
}

/// What a coordinator starts with.
pub struct StartupConfiguration {
    pub allow_local_trusted: bool,
    pub database_url: Option<String>,
    pub admin_token: Option<String>,
    pub service: CoordinatorServiceStartupConfiguration,
}

/// Whether trusted clients are let in, or why that cannot be read. What is asked for on the command line
/// needs no variable.
pub open spec fn trust_read(set: StartupEnvironment) -> Result<bool, Seq<char>> {
    if set.allow_local_trusted_loopback {
        Ok(true)
    } else {
        flag_read("CLUSTERFLUX_ALLOW_LOCAL_TRUSTED_LOOPBACK"@, set.allow_local_trusted)
    }
}

/// Why a coordinator does not start, if it does not.
pub open spec fn startup_refusal(set: StartupEnvironment) -> Option<Seq<char>> {
    let url = optional_read("DATABASE_URL"@, set.database_url);
    let token = token_read("CLUSTERFLUX_ADMIN_TOKEN"@, set.admin_token, set.admin_token_checked);
    let stale = positive_set(
        "CLUSTERFLUX_NODE_STALE_AFTER_SECONDS"@,
        30,
        set.node_stale_after_seconds,
        u64::MAX as nat,
    );
    match trust_read(set) {
        Err(reason) => Some(reason),
        Ok(trust) => if trust && !set.listens_on_loopback {
            Some("--allow-local-trusted-loopback requires a loopback --listen address"@)
        } else if url is Err {
            Some(url->Err_0)
        } else if url->Ok_0 is Some && trimmed(url->Ok_0->Some_0).len() == 0 {
            Some("DATABASE_URL must not be empty when configured"@)
        } else if token is Err {
            Some(token->Err_0)
        } else if stale is Err {
            Some(stale->Err_0)
        } else if stale->Ok_0 > MAX_NODE_STALE_AFTER_SECONDS {
            Some("node stale interval must be between 1 and 86400 seconds"@)
        } else {
            None
        },
    }
}

/// What a coordinator starts with.
pub fn startup_configuration(set: StartupEnvironment) -> (r: Result<StartupConfiguration, String>)
    ensures
        match startup_refusal(set) {
            Some(reason) => r matches Err(told) && told@ == reason,
            None => {
                &&& r matches Ok(found)
                &&& trust_read(set) == Ok::<bool, Seq<char>>(found.allow_local_trusted)
                &&& optional_read("DATABASE_URL"@, set.database_url) == Ok::<
                    Option<Seq<char>>,
                    Seq<char>,
                >(option_view(found.database_url))
                &&& token_read(
                    "CLUSTERFLUX_ADMIN_TOKEN"@,
                    set.admin_token,
                    set.admin_token_checked,
                ) == Ok::<Option<Seq<char>>, Seq<char>>(option_view(found.admin_token))
                &&& positive_set(
                    "CLUSTERFLUX_NODE_STALE_AFTER_SECONDS"@,
                    30,
                    set.node_stale_after_seconds,
                    u64::MAX as nat,
                ) == Ok::<nat, Seq<char>>(found.service.node_stale_after_seconds as nat)
            },
        },
{
    let allow_local_trusted: bool = if set.allow_local_trusted_loopback {
        true
    } else {
        match environment_flag(
            "CLUSTERFLUX_ALLOW_LOCAL_TRUSTED_LOOPBACK",
            set.allow_local_trusted,
        ) {
            Ok(flag) => flag,
            Err(reason) => {
                return Err(reason);
            },
        }
    };
    match validate_listener_security(set.listens_on_loopback, allow_local_trusted) {
        Ok(_) => {},
        Err(reason) => {
            return Err(reason);
        },
    }
    let database_url: Option<String> = match optional_environment(
        "DATABASE_URL",
        set.database_url,
    ) {
        Ok(url) => url,
        Err(reason) => {
            return Err(reason);
        },
    };
    match validate_database_url(&database_url) {
        Ok(_) => {},
        Err(reason) => {
            return Err(reason);
        },
    }
    let admin_token: Option<String> = match validated_optional_token(
        "CLUSTERFLUX_ADMIN_TOKEN",
        set.admin_token,
        set.admin_token_checked,
    ) {
        Ok(token) => token,
        Err(reason) => {
            return Err(reason);
        },
    };
    let node_stale_after_seconds: u64 = match environment_u64(
        "CLUSTERFLUX_NODE_STALE_AFTER_SECONDS",
        30,
        set.node_stale_after_seconds,
    ) {
        Ok(seconds) => seconds,
        Err(reason) => {
            return Err(reason);
        },
    };
    let service: CoordinatorServiceStartupConfiguration = CoordinatorServiceStartupConfiguration {
        node_stale_after_seconds,
    };
    match service.validate() {
        Ok(_) => {},
        Err(reason) => {
            return Err(reason);
        },
    }
    Ok(StartupConfiguration { allow_local_trusted, database_url, admin_token, service })
}

} // verus!
