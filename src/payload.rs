use vstd::prelude::*;

verus! {

/// One telemetry reading. Temperature and humidity are in hundredths of their
/// unit, so that `2350` stands for `23.50`.
pub struct Reading {
    pub timestamp: u64,
    pub temperature_centi: i32,
    pub humidity_centi: i32,
}

pub open spec fn digits() -> Seq<char> {
    "0123456789"@
}

/// The decimal digits of `n`, without leading zeros.
pub open spec fn decimal(n: nat) -> Seq<char>
    decreases n,
{
    if n < 10 {
        seq![digits()[n as int]]
    } else {
        decimal(n / 10).push(digits()[(n % 10) as int])
    }
}

/// A value in hundredths written with two decimals: `-1205` is `-12.05`.
pub open spec fn fixed2(v: int) -> Seq<char> {
    let a: nat = (if v < 0 { -v } else { v }) as nat;
    (if v < 0 { "-"@ } else { Seq::<char>::empty() }) + decimal(a / 100) + "."@
        + seq![digits()[((a / 10) % 10) as int]] + seq![digits()[(a % 10) as int]]
}

pub open spec fn status_word(connected: bool) -> Seq<char> {
    if connected {
        "connected"@
    } else {
        "disconnected"@
    }
}

/// The shadow status record.
pub open spec fn status_json(device_id: Seq<char>, owner: Seq<char>, connected: bool) -> Seq<char> {
    "{\"state\":{\"reported\":{\"device_id\":\""@ + device_id + "\",\"owner\":\""@ + owner
        + "\",\"status\":\""@ + status_word(connected) + "\"}}}"@
}

/// The telemetry record.
pub open spec fn telemetry_json(
    device_id: Seq<char>,
    timestamp: nat,
    temperature_centi: int,
    humidity_centi: int,
) -> Seq<char> {
    "{\"device_id\":\""@ + device_id + "\",\"timestamp\":"@ + decimal(timestamp)
        + ",\"temperature\":"@ + fixed2(temperature_centi) + ",\"humidity\":"@ + fixed2(
        humidity_centi,
    ) + "}"@
}

fn digit(d: u64) -> (r: &'static str)
    requires
        d < 10,
    ensures
        r@ == seq![digits()[d as int]],
{
    proof {
        reveal_strlit("0123456789");
    }
    let r = "0123456789".substring_char(d as usize, d as usize + 1);
    assert(r@ =~= seq![digits()[d as int]]);
    r
}

/// Appends the decimal digits of `n`.
pub fn push_decimal(s: &mut String, n: u64)
    ensures
        final(s)@ == old(s)@ + decimal(n as nat),
    decreases n,
{
    if n < 10 {
        s.append(digit(n));
    } else {
        push_decimal(s, n / 10);
        s.append(digit(n % 10));
        assert(final(s)@ =~= old(s)@ + decimal(n as nat));
    }
}

/// Appends a value in hundredths with two decimals.
pub fn push_fixed2(s: &mut String, v: i32)
    ensures
        final(s)@ == old(s)@ + fixed2(v as int),
{
    let ghost s0 = s@;
    let a: u64 = if v < 0 {
        s.append("-");
        (-(v as i64)) as u64
    } else {
        v as u64
    };
    push_decimal(s, a / 100);
    s.append(".");
    s.append(digit((a / 10) % 10));
    s.append(digit(a % 10));
    assert(s@ =~= s0 + fixed2(v as int));
}

/// The shadow status record for the device.
pub fn status_payload(device_id: &str, owner: &str, connected: bool) -> (r: String)
    ensures
        r@ == status_json(device_id@, owner@, connected),
{
    let mut s = String::from_str("{\"state\":{\"reported\":{\"device_id\":\"");
    s.append(device_id);
    s.append("\",\"owner\":\"");
    s.append(owner);
    s.append("\",\"status\":\"");
    let word: &str = if connected {
        "connected"
    } else {
        "disconnected"
    };
    s.append(word);
    s.append("\"}}}");
    s
}

/// The telemetry record for one reading.
pub fn telemetry_payload(device_id: &str, reading: &Reading) -> (r: String)
    ensures
        r@ == telemetry_json(
            device_id@,
            reading.timestamp as nat,
            reading.temperature_centi as int,
            reading.humidity_centi as int,
        ),
{
    let mut s = String::from_str("{\"device_id\":\"");
    s.append(device_id);
    s.append("\",\"timestamp\":");
    push_decimal(&mut s, reading.timestamp);
    s.append(",\"temperature\":");
    push_fixed2(&mut s, reading.temperature_centi);
    s.append(",\"humidity\":");
    push_fixed2(&mut s, reading.humidity_centi);
    s.append("}");
    s
}

} // verus!
