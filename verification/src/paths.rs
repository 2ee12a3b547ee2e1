//! The endpoint paths, built from verified formatting.
//!
//! Each hub operation addresses a fixed path template; the templates embed
//! ids (decimal integers), usernames, addresses and tokens.  The decimal
//! rendering is specified by [`dec_digits`] / [`dec_int`] and every builder
//! states the exact character sequence it produces.

use vstd::prelude::*;
use vstd::string::StringExecFns;

verus! {

/// The character for one decimal digit.
pub open spec fn digit_char(d: int) -> char {
    if d == 0 {
        '0'
    } else if d == 1 {
        '1'
    } else if d == 2 {
        '2'
    } else if d == 3 {
        '3'
    } else if d == 4 {
        '4'
    } else if d == 5 {
        '5'
    } else if d == 6 {
        '6'
    } else if d == 7 {
        '7'
    } else if d == 8 {
        '8'
    } else {
        '9'
    }
}

/// The decimal rendering of a non-negative integer: most significant digit
/// first, no leading zeros (except for zero itself).
pub open spec fn dec_digits(n: nat) -> Seq<char>
    decreases n,
{
    if n < 10 {
        seq![digit_char(n as int)]
    } else {
        dec_digits(n / 10).push(digit_char((n % 10) as int))
    }
}

/// The decimal rendering of an integer: a leading minus sign when negative.
pub open spec fn dec_int(n: int) -> Seq<char> {
    if n < 0 {
        seq!['-'] + dec_digits((-n) as nat)
    } else {
        dec_digits(n as nat)
    }
}

/// The one-character string for a decimal digit.
fn digit_str(d: u8) -> (s: &'static str)
    requires
        d < 10,
    ensures
        s@ == seq![digit_char(d as int)],
{
    proof {
        reveal_strlit("0");
        reveal_strlit("1");
        reveal_strlit("2");
        reveal_strlit("3");
        reveal_strlit("4");
        reveal_strlit("5");
        reveal_strlit("6");
        reveal_strlit("7");
        reveal_strlit("8");
        reveal_strlit("9");
    }
    if d == 0 {
        "0"
    } else if d == 1 {
        "1"
    } else if d == 2 {
        "2"
    } else if d == 3 {
        "3"
    } else if d == 4 {
        "4"
    } else if d == 5 {
        "5"
    } else if d == 6 {
        "6"
    } else if d == 7 {
        "7"
    } else if d == 8 {
        "8"
    } else {
        "9"
    }
}

/// Render an unsigned integer in decimal.
pub fn format_u64(n: u64) -> (s: String)
    ensures
        s@ == dec_digits(n as nat),
    decreases n,
{
    if n < 10 {
        String::from_str(digit_str(n as u8))
    } else {
        let mut s = format_u64(n / 10);
        s.append(digit_str((n % 10) as u8));
        assert(s@ == dec_digits(n as nat));
        s
    }
}

/// Render a signed integer in decimal, with a minus sign when negative.
pub fn format_i64(n: i64) -> (s: String)
    ensures
        s@ == dec_int(n as int),
{
    if n >= 0 {
        format_u64(n as u64)
    } else {
        let wide: i128 = n as i128;
        let magnitude: u64 = (-wide) as u64;
        proof {
            reveal_strlit("-");
            assert(magnitude as nat == (-(n as int)) as nat);
        }
        let mut s = String::from_str("-");
        s.append(format_u64(magnitude).as_str());
        assert(s@ == dec_int(n as int));
        s
    }
}

/// Path of the credential login endpoint.
pub fn login_path() -> (p: String)
    ensures
        p@ == "/api/login"@,
{
    String::from_str("/api/login")
}

/// Path of the server-listing endpoint.
pub fn servers_path() -> (p: String)
    ensures
        p@ == "/api/servers"@,
{
    String::from_str("/api/servers")
}

/// Path of the user lookup by id.
pub fn user_path(id: i64) -> (p: String)
    ensures
        p@ == "/api/users/"@ + dec_int(id as int),
{
    String::from_str("/api/users/").concat(format_i64(id).as_str())
}

/// Path of the user lookup by username.
pub fn user_by_username_path(username: &str) -> (p: String)
    ensures
        p@ == "/api/users/by_username/"@ + username@,
{
    String::from_str("/api/users/by_username/").concat(username)
}

/// Path of the keep-alive signal for one server at its current address.
pub fn keep_alive_path(server_id: i64, server_addr: &str) -> (p: String)
    ensures
        p@ == "/api/servers/keep_alive/"@ + dec_int(server_id as int) + "/"@ + server_addr@,
{
    String::from_str("/api/servers/keep_alive/")
        .concat(format_i64(server_id).as_str())
        .concat("/")
        .concat(server_addr)
}

/// Path of the access-token request for one server.
pub fn access_path(server_id: i64) -> (p: String)
    ensures
        p@ == "/api/servers/access/"@ + dec_int(server_id as int),
{
    String::from_str("/api/servers/access/").concat(format_i64(server_id).as_str())
}

/// Path of the token-verification endpoint.
pub fn verify_path(server_id: i64, user_id: i64, token: &str) -> (p: String)
    ensures
        p@ == "/api/servers/verify/"@ + dec_int(server_id as int) + "/"@ + dec_int(user_id as int)
            + "/"@ + token@,
{
    String::from_str("/api/servers/verify/")
        .concat(format_i64(server_id).as_str())
        .concat("/")
        .concat(format_i64(user_id).as_str())
        .concat("/")
        .concat(token)
}

} // verus!
