//! Decimal rendering of token identifiers and token URI construction.

use vstd::prelude::*;

use crate::state::{Launch, LaunchV};
use vstd::string::StringExecFns;

verus! {

/// The decimal digit character for `d` (`d < 10`).
pub open spec fn digit_char(d: nat) -> char {
    if d == 0 {
        '0'
    } else if d == 1 {
        '1'
    } else if d == 2 {
        '2'
    } else if d == 3 {
        '3'
    } else if d == 4 {
        '4'
    } else if d == 5 {
        '5'
    } else if d == 6 {
        '6'
    } else if d == 7 {
        '7'
    } else if d == 8 {
        '8'
    } else {
        '9'
    }
}

/// The decimal rendering of `n`, most significant digit first, without
/// leading zeroes (`0` renders as `"0"`).
pub open spec fn dec_str(n: nat) -> Seq<char>
    decreases n,
{
    if n < 10 {
        seq![digit_char(n)]
    } else {
        dec_str(n / 10).push(digit_char(n % 10))
    }
}

fn digit_str(d: u64) -> (r: &'static str)
    requires
        d < 10,
    ensures
        r@ == seq![digit_char(d as nat)],
{
    proof {
        reveal_strlit("0");
        reveal_strlit("1");
        reveal_strlit("2");
        reveal_strlit("3");
        reveal_strlit("4");
        reveal_strlit("5");
        reveal_strlit("6");
        reveal_strlit("7");
        reveal_strlit("8");
        reveal_strlit("9");
    }
    let r = match d {
        0 => "0",
        1 => "1",
        2 => "2",
        3 => "3",
        4 => "4",
        5 => "5",
        6 => "6",
        7 => "7",
        8 => "8",
        _ => "9",
    };
    proof {
        assert(r@ =~= seq![digit_char(d as nat)]);
    }
    r
}

/// Render `n` in decimal.
pub fn u64_to_string(n: u64) -> (s: String)
    ensures
        s@ == dec_str(n as nat),
    decreases n,
{
    if n < 10 {
        String::from_str(digit_str(n))
    } else {
        let mut s = u64_to_string(n / 10);
        s.append(digit_str(n % 10));
        proof {
            assert(dec_str((n / 10) as nat).push(digit_char((n % 10) as nat)) =~= dec_str(
                (n / 10) as nat,
            ) + seq![digit_char((n % 10) as nat)]);
        }
        s
    }
}

/// The media extension used in a token URI: the configured one, or `"png"`.
pub open spec fn media_extension_or_default(ext: Option<Seq<char>>) -> Seq<char> {
    match ext {
        Some(e) => e,
        None => "png"@,
    }
}

/// The metadata URI of token `token_id` under launch `l`: the base URI
/// verbatim when it is static, and `base_uri / token_id . extension`
/// otherwise.
pub open spec fn token_uri_spec(l: LaunchV, token_id: u64) -> Seq<char> {
    if l.is_base_uri_static {
        l.base_uri
    } else {
        l.base_uri + "/"@ + dec_str(token_id as nat) + "."@ + media_extension_or_default(
            l.media_extension,
        )
    }
}

/// Build the metadata URI of token `token_id` under `launch`.
pub fn build_token_uri(launch: &Launch, token_id: u64) -> (r: String)
    ensures
        r@ == token_uri_spec(launch@, token_id),
{
    if launch.is_base_uri_static {
        launch.base_uri.clone()
    } else {
        let mut s = launch.base_uri.clone();
        s.append("/");
        let num = u64_to_string(token_id);
        s.append(num.as_str());
        s.append(".");
        match &launch.media_extension {
            Some(e) => s.append(e.as_str()),
            None => s.append("png"),
        }
        s
    }
}

} // verus!
