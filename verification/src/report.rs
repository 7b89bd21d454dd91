//! Reporting a hit.
//!
//! A hit record carries the elapsed time, the mnemonic phrase, the
//! address in hex and the score.  This module renders it: the flat
//! string-keyed fields a webhook delivery posts, and the console block,
//! with integers written in decimal by verified code.

use vstd::prelude::*;
use vstd::string::StringExecFns;

verus! {

/// The decimal digit character for a value below ten.
pub open spec fn digit_char(d: int) -> char {
    if d == 0 {
        '0'
    } else if d == 1 {
        '1'
    } else if d == 2 {
        '2'
    } else if d == 3 {
        '3'
    } else if d == 4 {
        '4'
    } else if d == 5 {
        '5'
    } else if d == 6 {
        '6'
    } else if d == 7 {
        '7'
    } else if d == 8 {
        '8'
    } else {
        '9'
    }
}

/// Decimal rendering of a number, most significant digit first, with no
/// leading zeros except for zero itself.
pub open spec fn dec_str_of(n: nat) -> Seq<char>
    decreases n,
{
    if n < 10 {
        seq![digit_char(n as int)]
    } else {
        dec_str_of(n / 10).push(digit_char((n % 10) as int))
    }
}

/// The one-character string for a decimal digit.
fn digit_str(d: u64) -> (s: &'static str)
    requires
        d < 10,
    ensures
        s@ == seq![digit_char(d as int)],
{
    let s: &'static str = if d == 0 {
        "0"
    } else if d == 1 {
        "1"
    } else if d == 2 {
        "2"
    } else if d == 3 {
        "3"
    } else if d == 4 {
        "4"
    } else if d == 5 {
        "5"
    } else if d == 6 {
        "6"
    } else if d == 7 {
        "7"
    } else if d == 8 {
        "8"
    } else {
        "9"
    };
    proof {
        reveal_strlit("0");
        reveal_strlit("1");
        reveal_strlit("2");
        reveal_strlit("3");
        reveal_strlit("4");
        reveal_strlit("5");
        reveal_strlit("6");
        reveal_strlit("7");
        reveal_strlit("8");
        reveal_strlit("9");
        assert(s@ =~= seq![digit_char(d as int)]);
    }
    s
}

/// Writes a number in decimal.
pub fn u64_to_dec(n: u64) -> (s: String)
    ensures
        s@ == dec_str_of(n as nat),
    decreases n,
{
    if n < 10 {
        String::from_str(digit_str(n))
    } else {
        let mut s = u64_to_dec(n / 10);
        s.append(digit_str(n % 10));
        proof {
            assert(s@ =~= dec_str_of(n as nat));
        }
        s
    }
}

/// Writes a non-negative score in decimal.
pub fn score_to_dec(score: i32) -> (s: String)
    requires
        score >= 0,
    ensures
        s@ == dec_str_of(score as nat),
{
    u64_to_dec(score as u64)
}

/// One reported hit: elapsed whole seconds since the worker started, the
/// mnemonic phrase, the address as lowercase hex without a "0x" prefix,
/// and the score.
pub struct HitRecord {
    pub duration_secs: u64,
    pub mnemonic: String,
    pub address_hex: String,
    pub score: i32,
}

impl HitRecord {
    /// A score is never negative.
    pub open spec fn wf(&self) -> bool {
        self.score >= 0
    }

    /// The flat string-keyed fields a webhook delivery posts: duration,
    /// mnemonic, address and score, with the integers written in
    /// decimal.
    pub fn webhook_fields(&self) -> (fields: Vec<(String, String)>)
        requires
            self.wf(),
        ensures
            fields@.len() == 4,
            fields@[0].0@ == "duration"@ && fields@[0].1@ == dec_str_of(
                self.duration_secs as nat,
            ),
            fields@[1].0@ == "mnemonic"@ && fields@[1].1@ == self.mnemonic@,
            fields@[2].0@ == "address"@ && fields@[2].1@ == self.address_hex@,
            fields@[3].0@ == "score"@ && fields@[3].1@ == dec_str_of(self.score as nat),
    {
        let mut fields: Vec<(String, String)> = Vec::new();
        fields.push((String::from_str("duration"), u64_to_dec(self.duration_secs)));
        fields.push((String::from_str("mnemonic"), self.mnemonic.clone()));
        fields.push((String::from_str("address"), self.address_hex.clone()));
        fields.push((String::from_str("score"), score_to_dec(self.score)));
        fields
    }

    /// The console block for a hit: elapsed time, phrase, "0x"-prefixed
    /// address, and score.
    pub fn console_lines(&self) -> (lines: Vec<String>)
        requires
            self.wf(),
        ensures
            lines@.len() == 4,
            lines@[0]@ == "Time: "@ + dec_str_of(self.duration_secs as nat) + "s"@,
            lines@[1]@ == "BIP39: "@ + self.mnemonic@,
            lines@[2]@ == "Address: 0x"@ + self.address_hex@,
            lines@[3]@ == "Score: "@ + dec_str_of(self.score as nat),
    {
        let mut time_line = String::from_str("Time: ");
        time_line.append(u64_to_dec(self.duration_secs).as_str());
        time_line.append("s");

        let mut phrase_line = String::from_str("BIP39: ");
        phrase_line.append(self.mnemonic.as_str());

        let mut address_line = String::from_str("Address: 0x");
        address_line.append(self.address_hex.as_str());

        let mut score_line = String::from_str("Score: ");
        score_line.append(score_to_dec(self.score).as_str());

        let mut lines: Vec<String> = Vec::new();
        lines.push(time_line);
        lines.push(phrase_line);
        lines.push(address_line);
        lines.push(score_line);
        lines
    }
}

} // verus!
