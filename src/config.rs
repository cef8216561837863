//! Settings of the bridge, computed from raw configuration values.
use vstd::prelude::*;
use vstd::string::StringSliceAdditionalSpecFns;
use crate::message::QoS;

verus! {

pub const DEFAULT_MQTT_PORT: u16 = 1883;

pub const DEFAULT_KEEP_ALIVE_SECS: u64 = 60;

pub const DEFAULT_API_PORT: u16 = 3000;

pub open spec fn is_digit(c: u8) -> bool {
    48 <= c <= 57
}

/// The number written by a sequence of decimal digits.
pub open spec fn digits_value(d: Seq<u8>) -> nat
    decreases d.len(),
{
    if d.len() == 0 {
        0
    } else {
        digits_value(d.drop_last()) * 10 + (d.last() - 48) as nat
    }
}

/// The digits of an unsigned number, after an optional `+`.
pub open spec fn unsigned_digits(b: Seq<u8>) -> Seq<u8> {
    if b.len() > 0 && b[0] == 43 {
        b.drop_first()
    } else {
        b
    }
}

/// An unsigned decimal number no larger than `max`: an optional `+` and at
/// least one digit, nothing else.
pub open spec fn parse_unsigned(b: Seq<u8>, max: nat) -> Option<nat> {
    let d = unsigned_digits(b);
    if d.len() > 0 && (forall|i: int| 0 <= i < d.len() ==> is_digit(d[i])) && digits_value(d) <= max {
        Some(digits_value(d))
    } else {
        None
    }
}

proof fn lemma_prefix_value_grows(d: Seq<u8>, i: int, j: int)
    requires
        0 <= i <= j <= d.len(),
        forall|k: int| 0 <= k < d.len() ==> is_digit(d[k]),
    ensures
        digits_value(d.subrange(0, i)) <= digits_value(d.subrange(0, j)),
    decreases j - i,
{
    if i < j {
        lemma_prefix_value_grows(d, i, j - 1);
        assert(d.subrange(0, j).drop_last() =~= d.subrange(0, j - 1));
    }
}

/// Reads an unsigned decimal number that must not exceed `max`.
pub fn parse_decimal(s: &str, max: u64) -> (r: Option<u64>)
    ensures
        match parse_unsigned(s.spec_bytes(), max as nat) {
            Some(v) => r == Some(v as u64),
            None => r is None,
        },
{
    let b = s.as_bytes();
    let start: usize = if b.len() > 0 && b[0] == 43u8 {
        1
    } else {
        0
    };
    let ghost d = unsigned_digits(b@);
    assert(d =~= b@.subrange(start as int, b@.len() as int));
    if start >= b.len() {
        return None;
    }
    let mut acc: u64 = 0;
    let mut i: usize = start;
    while i < b.len()
        invariant
            start <= i <= b@.len(),
            d == b@.subrange(start as int, b@.len() as int),
            d == unsigned_digits(b@),
            b@ == s.spec_bytes(),
            forall|k: int| 0 <= k < i - start ==> is_digit(d[k]),
            acc as nat == digits_value(d.subrange(0, i - start)),
            acc <= max,
        decreases b@.len() - i,
    {
        let c = b[i];
        if c < 48u8 || c > 57u8 {
            assert(d[i - start] == c);
            assert(!(forall|k: int| 0 <= k < d.len() ==> is_digit(d[k])));
            assert(parse_unsigned(b@, max as nat) is None);
            return None;
        }
        let digit = (c - 48u8) as u64;
        assert(d.subrange(0, i + 1 - start).drop_last() =~= d.subrange(0, i - start));
        assert(d[i - start] == c);
        if digit > max || acc > (max - digit) / 10 {
            assert(acc * 10 + digit > max) by (nonlinear_arith)
                requires
                    digit > max || acc > (max - digit) / 10,
            {
            }
            assert(digits_value(d.subrange(0, i + 1 - start)) > max);
            proof {
                if forall|k: int| 0 <= k < d.len() ==> is_digit(d[k]) {
                    lemma_prefix_value_grows(d, i + 1 - start, d.len() as int);
                    assert(d.subrange(0, d.len() as int) =~= d);
                }
            }
            assert(parse_unsigned(b@, max as nat) is None);
            return None;
        }
        assert(acc * 10 + digit <= max) by (nonlinear_arith)
            requires
                acc <= (max - digit) / 10,
                digit <= max,
                max <= u64::MAX,
        {
        }
        acc = acc * 10 + digit;
        i = i + 1;
    }
    assert(d.subrange(0, d.len() as int) =~= d);
    Some(acc)
}

/// The delivery guarantee named by a configured level: `1` and `2` name the
/// stronger ones, anything else the weakest.
pub open spec fn qos_for_level(b: Seq<u8>) -> QoS {
    if b == seq![49u8] {
        QoS::AtLeastOnce
    } else if b == seq![50u8] {
        QoS::ExactlyOnce
    } else {
        QoS::AtMostOnce
    }
}

pub fn qos_from_level(level: &str) -> (r: QoS)
    ensures
        r == qos_for_level(level.spec_bytes()),
{
    let b = level.as_bytes();
    if b.len() == 1 && b[0] == 49u8 {
        assert(b@ =~= seq![49u8]);
        QoS::AtLeastOnce
    } else if b.len() == 1 && b[0] == 50u8 {
        assert(b@ =~= seq![50u8]);
        QoS::ExactlyOnce
    } else {
        assert(b@ != seq![49u8] && b@ != seq![50u8]) by {
            if b@ =~= seq![49u8] || b@ =~= seq![50u8] {
                assert(b@.len() == 1);
            }
        }
        QoS::AtMostOnce
    }
}

/// A configured number, or `default` when it does not parse.
pub open spec fn number_or(b: Seq<u8>, max: nat, default: nat) -> nat {
    match parse_unsigned(b, max) {
        Some(v) => v,
        None => default,
    }
}

/// Settings of the bridge, as plain values.
pub struct Config {
    pub mqtt_broker: String,
    pub mqtt_port: u16,
    /// User name and password, when a user name is configured.
    pub mqtt_credentials: Option<(String, String)>,
    pub mqtt_qos: QoS,
    /// Seconds without traffic after which the session is pinged.
    pub mqtt_keep_alive_secs: u64,
    pub api_port: u16,
}

/// Settings from raw configuration values. A number that does not parse
/// takes its default; credentials are kept only when a user name is given.
pub fn build_config(
    broker: String,
    port: &str,
    username: String,
    password: String,
    qos: &str,
    keep_alive: &str,
    api_port: &str,
) -> (r: Config)
    ensures
        r.mqtt_broker@ == broker@,
        r.mqtt_port as nat == number_or(port.spec_bytes(), u16::MAX as nat, DEFAULT_MQTT_PORT as nat),
        username@.len() == 0 ==> r.mqtt_credentials is None,
        username@.len() > 0 ==> r.mqtt_credentials is Some && r.mqtt_credentials->Some_0.0@
            == username@ && r.mqtt_credentials->Some_0.1@ == password@,
        r.mqtt_qos == qos_for_level(qos.spec_bytes()),
        r.mqtt_keep_alive_secs as nat == number_or(
            keep_alive.spec_bytes(),
            u64::MAX as nat,
            DEFAULT_KEEP_ALIVE_SECS as nat,
        ),
        r.api_port as nat == number_or(api_port.spec_bytes(), u16::MAX as nat, DEFAULT_API_PORT as nat),
{
    let mqtt_port: u16 = match parse_decimal(port, 65535) {
        Some(v) => v as u16,
        None => DEFAULT_MQTT_PORT,
    };
    let mqtt_keep_alive_secs: u64 = match parse_decimal(keep_alive, u64::MAX) {
        Some(v) => v,
        None => DEFAULT_KEEP_ALIVE_SECS,
    };
    let api: u16 = match parse_decimal(api_port, 65535) {
        Some(v) => v as u16,
        None => DEFAULT_API_PORT,
    };
    let mqtt_credentials = if username.as_str().is_empty() {
        None
    } else {
        Some((username, password))
    };
    Config {
        mqtt_broker: broker,
        mqtt_port,
        mqtt_credentials,
        mqtt_qos: qos_from_level(qos),
        mqtt_keep_alive_secs,
        api_port: api,
    }
}

} // verus!
