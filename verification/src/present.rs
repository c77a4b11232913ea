//! Presenter: turns one decoded connection verdict into the operator-facing
//! line of text, `"<Allowed|Drop> dns from <dotted-quad source address>"`.
//!
//! The address is rendered in standard IPv4 dotted-decimal notation: the four
//! octets of `source_ip`, most significant first, each in decimal with no
//! leading zero, joined by dots.

use crate::codec::be32_at;
use crate::codec::le32_at;
use crate::codec::lemma_be32_octets;
use crate::codec::spec_decode_connection;
use crate::codec::ConnectionRecord;
use crate::codec::CONNECTION_RECORD_SIZE;
use vstd::arithmetic::div_mod::lemma_div_denominator;
use vstd::arithmetic::div_mod::lemma_small_mod;
use vstd::prelude::*;
use vstd::string::StringExecFns;

verus! {

/// The character for one decimal digit.
pub open spec fn digit_char(d: int) -> char {
    if d == 0 {
        '0'
    } else if d == 1 {
        '1'
    } else if d == 2 {
        '2'
    } else if d == 3 {
        '3'
    } else if d == 4 {
        '4'
    } else if d == 5 {
        '5'
    } else if d == 6 {
        '6'
    } else if d == 7 {
        '7'
    } else if d == 8 {
        '8'
    } else {
        '9'
    }
}

/// The standard decimal text of `n`: most significant digit first, no leading
/// zeros.
pub open spec fn decimal_seq(n: nat) -> Seq<char>
    decreases n,
{
    if n < 10 {
        seq![digit_char(n as int)]
    } else {
        decimal_seq(n / 10).push(digit_char((n % 10) as int))
    }
}

/// Octet `k` of `ip`, counting from the most significant: the address text
/// puts octet 0 first.
pub open spec fn spec_octet(ip: u32, k: int) -> nat {
    if k == 0 {
        (ip as nat) / 0x100_0000 % 0x100
    } else if k == 1 {
        (ip as nat) / 0x1_0000 % 0x100
    } else if k == 2 {
        (ip as nat) / 0x100 % 0x100
    } else {
        (ip as nat) % 0x100
    }
}

/// The standard IPv4 dotted-decimal text of `ip`.
pub open spec fn ipv4_seq(ip: u32) -> Seq<char> {
    decimal_seq(spec_octet(ip, 0)) + seq!['.'] + decimal_seq(spec_octet(ip, 1)) + seq!['.']
        + decimal_seq(spec_octet(ip, 2)) + seq!['.'] + decimal_seq(spec_octet(ip, 3))
}

/// The verdict word: `"Allowed"` exactly when the flag equals one, `"Drop"`
/// for every other value.
pub open spec fn verdict_seq(allowed: u32) -> Seq<char> {
    if allowed == 1 {
        "Allowed"@
    } else {
        "Drop"@
    }
}

/// The full operator-facing line for one decoded verdict.
pub open spec fn render_seq(rec: ConnectionRecord) -> Seq<char> {
    verdict_seq(rec.allowed) + " dns from "@ + ipv4_seq(rec.source_ip)
}

/// The one-character text of a decimal digit.
fn digit_str(d: u8) -> (r: &'static str)
    requires
        d < 10,
    ensures
        r@ == seq![digit_char(d as int)],
{
    let r: &'static str = match d {
        0 => "0",
        1 => "1",
        2 => "2",
        3 => "3",
        4 => "4",
        5 => "5",
        6 => "6",
        7 => "7",
        8 => "8",
        _ => "9",
    };
    proof {
        reveal_strlit("0");
        reveal_strlit("1");
        reveal_strlit("2");
        reveal_strlit("3");
        reveal_strlit("4");
        reveal_strlit("5");
        reveal_strlit("6");
        reveal_strlit("7");
        reveal_strlit("8");
        reveal_strlit("9");
        assert(r@ =~= seq![digit_char(d as int)]);
    }
    r
}

/// The decimal text of one byte-sized value.
pub fn u8_decimal(n: u8) -> (r: String)
    ensures
        r@ == decimal_seq(n as nat),
{
    let mut s = String::new();
    if n >= 100 {
        s.append(digit_str(n / 100));
    }
    if n >= 10 {
        s.append(digit_str((n / 10) % 10));
    }
    s.append(digit_str(n % 10));
    proof {
        if n < 10 {
            lemma_small_mod(n as nat, 10);
            assert(s@ =~= decimal_seq(n as nat));
        } else if n < 100 {
            lemma_small_mod((n / 10) as nat, 10);
            assert(decimal_seq((n / 10) as nat) == seq![digit_char((n / 10) as int)]);
            assert(s@ =~= decimal_seq(n as nat));
        } else {
            lemma_div_denominator(n as int, 10, 10);
            assert((n as nat / 10) / 10 == n as nat / 100);
            lemma_small_mod((n / 100) as nat, 10);
            assert(decimal_seq((n as nat / 10) / 10) == seq![digit_char((n / 100) as int)]);
            assert(decimal_seq(n as nat / 10) == decimal_seq((n as nat / 10) / 10).push(
                digit_char(((n / 10) % 10) as int),
            ));
            assert(s@ =~= decimal_seq(n as nat));
        }
    }
    s
}

/// The dotted-decimal text of an IPv4 address.
pub fn ipv4_string(ip: u32) -> (r: String)
    ensures
        r@ == ipv4_seq(ip),
{
    let o0: u8 = ((ip / 0x100_0000) % 0x100) as u8;
    let o1: u8 = ((ip / 0x1_0000) % 0x100) as u8;
    let o2: u8 = ((ip / 0x100) % 0x100) as u8;
    let o3: u8 = (ip % 0x100) as u8;
    let mut s = u8_decimal(o0);
    s.append(".");
    let t1 = u8_decimal(o1);
    s.append(t1.as_str());
    s.append(".");
    let t2 = u8_decimal(o2);
    s.append(t2.as_str());
    s.append(".");
    let t3 = u8_decimal(o3);
    s.append(t3.as_str());
    proof {
        reveal_strlit(".");
        assert("."@ =~= seq!['.']);
        assert(s@ =~= ipv4_seq(ip));
    }
    s
}

/// The verdict word for a flag value.
pub fn verdict_str(allowed: u32) -> (r: &'static str)
    ensures
        r@ == verdict_seq(allowed),
{
    if allowed == 1 {
        "Allowed"
    } else {
        "Drop"
    }
}

/// Render one decoded connection verdict as the operator-facing line.
pub fn render(rec: &ConnectionRecord) -> (r: String)
    ensures
        r@ == render_seq(*rec),
{
    let mut s: String = verdict_str(rec.allowed).to_owned();
    s.append(" dns from ");
    let ip = ipv4_string(rec.source_ip);
    s.append(ip.as_str());
    proof {
        assert(s@ =~= render_seq(*rec));
    }
    s
}

/// Decoding a full-length connection buffer is deterministic — the record,
/// and so the rendered line, is a function of the buffer bytes alone — it
/// always succeeds, and the line opens with the word `"Allowed"` exactly when
/// the buffer's leading `allowed` word equals one, with `"Drop"` otherwise.
pub proof fn lemma_verdict_of_buffer(b: Seq<u8>)
    requires
        b.len() >= CONNECTION_RECORD_SIZE,
    ensures
        spec_decode_connection(b) is Ok,
        spec_decode_connection(b)->Ok_0.allowed == le32_at(b, 0),
        le32_at(b, 0) == 1 ==> render_seq(spec_decode_connection(b)->Ok_0).take(7) == "Allowed"@,
        le32_at(b, 0) != 1 ==> render_seq(spec_decode_connection(b)->Ok_0).take(4) == "Drop"@,
{
    let rec = spec_decode_connection(b)->Ok_0;
    reveal_strlit("Allowed");
    reveal_strlit("Drop");
    if le32_at(b, 0) == 1 {
        assert(render_seq(rec).take(7) =~= "Allowed"@);
    } else {
        assert(render_seq(rec).take(4) =~= "Drop"@);
    }
}

/// The rendered address of a decoded connection record is the standard
/// dotted-decimal text of the buffer's four address bytes, in order.
pub proof fn lemma_rendered_address_is_bytes(b: Seq<u8>)
    requires
        b.len() >= CONNECTION_RECORD_SIZE,
    ensures
        spec_decode_connection(b) is Ok,
        ipv4_seq(spec_decode_connection(b)->Ok_0.source_ip) == decimal_seq(b[4] as nat)
            + seq!['.'] + decimal_seq(b[5] as nat) + seq!['.'] + decimal_seq(b[6] as nat)
            + seq!['.'] + decimal_seq(b[7] as nat),
{
    lemma_be32_octets(b, 4);
    let ip = spec_decode_connection(b)->Ok_0.source_ip;
    assert(ip == be32_at(b, 4));
    assert(spec_octet(ip, 0) == b[4]);
    assert(spec_octet(ip, 1) == b[5]);
    assert(spec_octet(ip, 2) == b[6]);
    assert(spec_octet(ip, 3) == b[7]);
}

} // verus!
