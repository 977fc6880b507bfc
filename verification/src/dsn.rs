//! Connection-string construction: space-separated `key=value` tokens in the
//! fixed order `host, port, dbname, user?, password?`, with the optional
//! fields omitted entirely when absent.

use vstd::prelude::*;
use vstd::string::StringExecFns;

verus! {

/// The character for one decimal digit.
pub open spec fn digit_char(d: nat) -> char {
    if d == 0 {
        '0'
    } else if d == 1 {
        '1'
    } else if d == 2 {
        '2'
    } else if d == 3 {
        '3'
    } else if d == 4 {
        '4'
    } else if d == 5 {
        '5'
    } else if d == 6 {
        '6'
    } else if d == 7 {
        '7'
    } else if d == 8 {
        '8'
    } else {
        '9'
    }
}

/// Decimal representation of a natural number, most significant digit first,
/// with no leading zeros (a single `'0'` for zero).
pub open spec fn dec_rep(n: nat) -> Seq<char>
    decreases n,
{
    if n < 10 {
        seq![digit_char(n)]
    } else {
        dec_rep(n / 10).push(digit_char(n % 10))
    }
}

/// Whether `c` is a decimal digit character.
pub open spec fn is_digit(c: char) -> bool {
    c == '0' || c == '1' || c == '2' || c == '3' || c == '4' || c == '5' || c == '6' || c == '7'
        || c == '8' || c == '9'
}

/// The numeric value of one decimal digit character.
pub open spec fn char_val(c: char) -> nat {
    if c == '0' {
        0
    } else if c == '1' {
        1
    } else if c == '2' {
        2
    } else if c == '3' {
        3
    } else if c == '4' {
        4
    } else if c == '5' {
        5
    } else if c == '6' {
        6
    } else if c == '7' {
        7
    } else if c == '8' {
        8
    } else {
        9
    }
}

/// The numeric value of a string of decimal digit characters.
pub open spec fn dec_val(s: Seq<char>) -> nat
    decreases s.len(),
{
    if s.len() == 0 {
        0
    } else {
        10 * dec_val(s.drop_last()) + char_val(s.last())
    }
}

/// `dec_rep` really is the decimal numeral: reading its digits back gives the
/// number, every character is a digit, and there is no leading zero (a single
/// `'0'` stands for zero itself).
pub proof fn lemma_dec_rep_value(n: nat)
    ensures
        dec_val(dec_rep(n)) == n,
        dec_rep(n).len() >= 1,
        forall|i: int| 0 <= i < dec_rep(n).len() ==> is_digit(#[trigger] dec_rep(n)[i]),
        n > 0 ==> dec_rep(n)[0] != '0',
    decreases n,
{
    if n < 10 {
        assert(dec_rep(n) =~= seq![digit_char(n)]);
        assert(dec_rep(n).drop_last() =~= Seq::<char>::empty());
        assert(dec_rep(n).last() == digit_char(n));
        assert(char_val(digit_char(n)) == n);
        assert(dec_val(dec_rep(n)) == 10 * dec_val(Seq::<char>::empty()) + char_val(digit_char(n)));
    } else {
        lemma_dec_rep_value(n / 10);
        let rest = dec_rep(n / 10);
        let c = digit_char(n % 10);
        assert(dec_rep(n) =~= rest.push(c));
        assert(rest.push(c).drop_last() =~= rest);
        assert(rest.push(c).last() == c);
        assert(dec_val(dec_rep(n)) == 10 * (n / 10) + n % 10);
        assert(dec_rep(n)[0] == rest[0]);
    }
}

/// The view of an optional string.
pub open spec fn opt_str(o: Option<String>) -> Option<Seq<char>> {
    match o {
        Some(s) => Some(s@),
        None => None,
    }
}

/// The `" user=..."` portion of a connection string: empty when no user is
/// configured.
pub open spec fn user_part(user: Option<Seq<char>>) -> Seq<char> {
    match user {
        Some(u) => " user="@ + u,
        None => Seq::<char>::empty(),
    }
}

/// The `" password=..."` portion of a connection string: empty when no
/// password is configured.
pub open spec fn password_part(password: Option<Seq<char>>) -> Seq<char> {
    match password {
        Some(p) => " password="@ + p,
        None => Seq::<char>::empty(),
    }
}

/// The connection string for the given configuration.
pub open spec fn dsn_spec(
    host: Seq<char>,
    port: u16,
    database: Seq<char>,
    user: Option<Seq<char>>,
    password: Option<Seq<char>>,
) -> Seq<char> {
    "host="@ + host + " port="@ + dec_rep(port as nat) + " dbname="@ + database + user_part(user)
        + password_part(password)
}

fn digit_str(d: u16) -> (s: &'static str)
    requires
        d < 10,
    ensures
        s@ == seq![digit_char(d as nat)],
{
    let s = match d {
        0 => "0",
        1 => "1",
        2 => "2",
        3 => "3",
        4 => "4",
        5 => "5",
        6 => "6",
        7 => "7",
        8 => "8",
        _ => "9",
    };
    proof {
        reveal_strlit("0");
        reveal_strlit("1");
        reveal_strlit("2");
        reveal_strlit("3");
        reveal_strlit("4");
        reveal_strlit("5");
        reveal_strlit("6");
        reveal_strlit("7");
        reveal_strlit("8");
        reveal_strlit("9");
        assert(s@ =~= seq![digit_char(d as nat)]);
    }
    s
}

/// Appends the decimal digits of `n` to `out`.
fn push_dec(out: &mut String, n: u16)
    ensures
        final(out)@ == old(out)@ + dec_rep(n as nat),
    decreases n,
{
    if n >= 10 {
        push_dec(out, n / 10);
    }
    out.append(digit_str(n % 10));
    proof {
        if n < 10 {
            assert(n % 10 == n as int);
            assert(final(out)@ =~= old(out)@ + dec_rep(n as nat));
        } else {
            assert(dec_rep(n as nat) =~= dec_rep(n as nat / 10) + seq![
                digit_char(n as nat % 10),
            ]);
            assert(final(out)@ =~= old(out)@ + dec_rep(n as nat));
        }
    }
}

/// Builds the connection string for the given configuration.
pub fn build_dsn(
    host: &str,
    port: u16,
    database: &str,
    user: &Option<String>,
    password: &Option<String>,
) -> (r: String)
    ensures
        r@ == dsn_spec(host@, port, database@, opt_str(*user), opt_str(*password)),
{
    let mut r = String::from_str("host=");
    r.append(host);
    r.append(" port=");
    push_dec(&mut r, port);
    r.append(" dbname=");
    r.append(database);
    match user {
        Some(u) => {
            r.append(" user=");
            r.append(u.as_str());
        },
        None => {},
    }
    match password {
        Some(p) => {
            r.append(" password=");
            r.append(p.as_str());
        },
        None => {},
    }
    proof {
        assert(r@ =~= dsn_spec(host@, port, database@, opt_str(*user), opt_str(*password)));
    }
    r
}

} // verus!
