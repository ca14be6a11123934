use vstd::prelude::*;

use crate::app_config::{AppConfig, Mode};

verus! {

pub open spec fn digit(d: nat) -> char {
    seq!['0', '1', '2', '3', '4', '5', '6', '7', '8', '9'][d as int]
}

/// Decimal notation of a natural number, without leading zeros.
pub open spec fn decimal(n: nat) -> Seq<char>
    decreases n,
{
    if n < 10 {
        seq![digit(n)]
    } else {
        decimal(n / 10).push(digit(n % 10))
    }
}

/// A duration in milliseconds, rounded to hundredths of a second (halves up).
pub open spec fn hundredths(ms: nat) -> nat {
    (ms + 5) / 10
}

/// A duration in milliseconds written in seconds with two decimals.
pub open spec fn seconds_text(ms: nat) -> Seq<char> {
    let h = hundredths(ms);
    decimal(h / 100) + seq!['.', digit((h / 10) % 10), digit(h % 10)]
}

fn digit_text(d: u64) -> (r: &'static str)
    requires
        d < 10,
    ensures
        r@ == seq![digit(d as nat)],
{
    proof {
        reveal_strlit("0");
        reveal_strlit("1");
        reveal_strlit("2");
        reveal_strlit("3");
        reveal_strlit("4");
        reveal_strlit("5");
        reveal_strlit("6");
        reveal_strlit("7");
        reveal_strlit("8");
        reveal_strlit("9");
    }
    let r = if d == 0 {
        "0"
    } else if d == 1 {
        "1"
    } else if d == 2 {
        "2"
    } else if d == 3 {
        "3"
    } else if d == 4 {
        "4"
    } else if d == 5 {
        "5"
    } else if d == 6 {
        "6"
    } else if d == 7 {
        "7"
    } else if d == 8 {
        "8"
    } else {
        "9"
    };
    assert(r@ =~= seq![digit(d as nat)]);
    r
}

/// Decimal notation of `n`.
pub fn decimal_text(n: u64) -> (r: String)
    ensures
        r@ == decimal(n as nat),
    decreases n,
{
    if n < 10 {
        String::from_str(digit_text(n))
    } else {
        let mut s = decimal_text(n / 10);
        s.append(digit_text(n % 10));
        s
    }
}

/// `ms` milliseconds written in seconds with two decimals, as in `1.50`.
pub fn seconds_text_of(ms: u64) -> (r: String)
    ensures
        r@ == seconds_text(ms as nat),
{
    let h: u64 = ms / 10 + if ms % 10 >= 5 {
        1
    } else {
        0
    };
    assert(h == hundredths(ms as nat));
    let mut s = decimal_text(h / 100);
    proof {
        reveal_strlit(".");
    }
    s.append(".");
    s.append(digit_text((h / 10) % 10));
    s.append(digit_text(h % 10));
    assert(s@ =~= seconds_text(ms as nat));
    s
}

/// The settings a run reports at start-up, one line each: transport and role,
/// then for a client every setting it uses, for a server its local port.
pub open spec fn config_info(c: AppConfig) -> Seq<Seq<char>> {
    let head = seq!["protocol: "@ + c.protocol.spec_label(), "mode: "@ + c.mode.spec_label()];
    match c.mode {
        Mode::Client => head + seq![
            "remote_url: "@ + c.remote_url@,
            "remote_port: "@ + decimal(c.remote_port as nat),
            "local_port: "@ + decimal(c.local_port as nat),
            "data_payload: "@ + c.data_payload@,
            "count: "@ + decimal(c.count as nat),
            "timeout_in_seconds: "@ + seconds_text(c.timeout_ms as nat),
        ],
        Mode::Server => head + seq!["local_port: "@ + decimal(c.local_port as nat)],
    }
}

fn line(key: &str, value: &str) -> (r: String)
    ensures
        r@ == key@ + value@,
{
    let mut s = String::from_str(key);
    s.append(value);
    s
}

/// The lines that describe `config` at start-up.
pub fn print_config_info(config: &AppConfig) -> (r: Vec<String>)
    ensures
        r@.len() == config_info(*config).len(),
        forall|i: int| 0 <= i < r@.len() ==> #[trigger] r@[i]@ == config_info(*config)[i],
{
    let mut lines: Vec<String> = Vec::new();
    let p = config.protocol.label();
    lines.push(line("protocol: ", p.as_str()));
    let m = config.mode.label();
    lines.push(line("mode: ", m.as_str()));
    match config.mode {
        Mode::Client => {
            lines.push(line("remote_url: ", config.remote_url.as_str()));
            let v = decimal_text(config.remote_port as u64);
            lines.push(line("remote_port: ", v.as_str()));
            let v = decimal_text(config.local_port as u64);
            lines.push(line("local_port: ", v.as_str()));
            lines.push(line("data_payload: ", config.data_payload.as_str()));
            let v = decimal_text(config.count as u64);
            lines.push(line("count: ", v.as_str()));
            let v = seconds_text_of(config.timeout_ms);
            lines.push(line("timeout_in_seconds: ", v.as_str()));
        },
        Mode::Server => {
            let v = decimal_text(config.local_port as u64);
            lines.push(line("local_port: ", v.as_str()));
        },
    }
    lines
}

} // verus!
