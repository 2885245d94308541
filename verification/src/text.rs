//! Texts that the hub composes: decimal numbers, probe addresses, error messages.

use crate::types::Scheme;
use vstd::prelude::*;
use vstd::string::StringExecFns;

verus! {

/// The character that stands for the digit `d`.
pub open spec fn digit_char(d: nat) -> char {
    if d == 0 {
        '0'
    } else if d == 1 {
        '1'
    } else if d == 2 {
        '2'
    } else if d == 3 {
        '3'
    } else if d == 4 {
        '4'
    } else if d == 5 {
        '5'
    } else if d == 6 {
        '6'
    } else if d == 7 {
        '7'
    } else if d == 8 {
        '8'
    } else {
        '9'
    }
}

/// `n` in decimal digits, without leading zeros.
pub open spec fn decimal(n: nat) -> Seq<char>
    decreases n,
{
    if n < 10 {
        seq![digit_char(n)]
    } else {
        decimal(n / 10).push(digit_char(n % 10))
    }
}

fn digit_text(d: u64) -> (text: &'static str)
    requires
        d < 10,
    ensures
        text@ == seq![digit_char(d as nat)],
{
    proof {
        reveal_strlit("0");
        reveal_strlit("1");
        reveal_strlit("2");
        reveal_strlit("3");
        reveal_strlit("4");
        reveal_strlit("5");
        reveal_strlit("6");
        reveal_strlit("7");
        reveal_strlit("8");
        reveal_strlit("9");
    }
    let text = if d == 0 {
        "0"
    } else if d == 1 {
        "1"
    } else if d == 2 {
        "2"
    } else if d == 3 {
        "3"
    } else if d == 4 {
        "4"
    } else if d == 5 {
        "5"
    } else if d == 6 {
        "6"
    } else if d == 7 {
        "7"
    } else if d == 8 {
        "8"
    } else {
        "9"
    };
    assert(text@ =~= seq![digit_char(d as nat)]);
    text
}

/// Writes `n` in decimal digits behind `text`.
pub fn push_decimal(text: &mut String, n: u64)
    ensures
        final(text)@ == old(text)@ + decimal(n as nat),
    decreases n,
{
    if n >= 10 {
        push_decimal(text, n / 10);
    }
    text.append(digit_text(n % 10));
    assert(text@ =~= old(text)@ + decimal(n as nat));
}

/// `n` in decimal digits.
pub fn decimal_text(n: u64) -> (text: String)
    ensures
        text@ == decimal(n as nat),
{
    let mut text = String::new();
    push_decimal(&mut text, n);
    assert(text@ =~= decimal(n as nat));
    text
}

/// The host name under which a process in a container reaches its host's loopback.
pub open spec fn container_host() -> Seq<char> {
    "host.docker.internal"@
}

/// The loopback address that registrants on the hub's host advertise.
pub open spec fn loopback() -> Seq<char> {
    "127.0.0.1"@
}

/// The host that a probe is sent to: the advertised one, but for a hub in a
/// container the host's loopback in place of its own.
pub open spec fn probe_host(address: Seq<char>, in_container: bool) -> Seq<char> {
    if in_container && address == loopback() {
        container_host()
    } else {
        address
    }
}

/// The address of a process: scheme, host and port.
pub open spec fn address_of(scheme: Scheme, host: Seq<char>, port: nat) -> Seq<char> {
    scheme.name() + "://"@ + host + ":"@ + decimal(port)
}

/// The address that a probe is sent to.
pub open spec fn probe_address(
    scheme: Scheme,
    address: Seq<char>,
    port: u32,
    in_container: bool,
) -> Seq<char> {
    address_of(scheme, probe_host(address, in_container), port as nat)
}

/// Composes the address of a process.
pub fn compose_address(scheme: Scheme, host: &str, port: u32) -> (url: String)
    ensures
        url@ == address_of(scheme, host@, port as nat),
{
    let mut url = scheme.to_string();
    url.append("://");
    url.append(host);
    url.append(":");
    push_decimal(&mut url, port as u64);
    url
}

/// Composes the address that a probe is sent to.
pub fn compose_probe_address(scheme: Scheme, address: &String, port: u32, in_container: bool) -> (url:
    String)
    ensures
        url@ == probe_address(scheme, address@, port, in_container),
{
    if in_container && crate::types::str_equal(address.as_str(), "127.0.0.1") {
        compose_address(scheme, "host.docker.internal", port)
    } else {
        compose_address(scheme, address.as_str(), port)
    }
}

/// What a subscriber reads when it fell `skipped` events behind.
pub open spec fn lag_message(skipped: u64) -> Seq<char> {
    "Broadcast error: Lagged("@ + decimal(skipped as nat) + ")"@
}

/// Composes the message for a subscriber that fell `skipped` events behind.
pub fn compose_lag_message(skipped: u64) -> (message: String)
    ensures
        message@ == lag_message(skipped),
{
    let mut message = "Broadcast error: Lagged(".to_owned();
    push_decimal(&mut message, skipped);
    message.append(")");
    message
}

} // verus!
