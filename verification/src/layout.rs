use vstd::prelude::*;
use vstd::string::*;

verus! {

/// The character for the digit `d`.
pub open spec fn digit(d: int) -> char {
    if d == 0 {
        '0'
    } else if d == 1 {
        '1'
    } else if d == 2 {
        '2'
    } else if d == 3 {
        '3'
    } else if d == 4 {
        '4'
    } else if d == 5 {
        '5'
    } else if d == 6 {
        '6'
    } else if d == 7 {
        '7'
    } else if d == 8 {
        '8'
    } else {
        '9'
    }
}

/// The decimal digits of `n`, without leading zeros.
pub open spec fn digits(n: nat) -> Seq<char>
    decreases n,
{
    if n < 10 {
        seq![digit(n as int)]
    } else {
        digits(n / 10).push(digit((n % 10) as int))
    }
}

/// `n` in decimal, with a minus sign in front if it is negative.
pub open spec fn decimal(n: int) -> Seq<char> {
    if n < 0 {
        seq!['-'] + digits((-n) as nat)
    } else {
        digits(n as nat)
    }
}

/// Where blob `file_id` is kept: `files/` and the identifier in decimal.
pub open spec fn blob_location(file_id: int) -> Seq<char> {
    "files/"@ + decimal(file_id)
}

/// Where the static asset called `file_name` is kept.
pub open spec fn static_location(file_name: Seq<char>) -> Seq<char> {
    "files/static/"@ + file_name
}

/// The digit `d` as text.
fn digit_text(d: u64) -> (text: &'static str)
    requires
        d < 10,
    ensures
        text@ == seq![digit(d as int)],
{
    proof {
        reveal_strlit("0");
        reveal_strlit("1");
        reveal_strlit("2");
        reveal_strlit("3");
        reveal_strlit("4");
        reveal_strlit("5");
        reveal_strlit("6");
        reveal_strlit("7");
        reveal_strlit("8");
        reveal_strlit("9");
    }
    let text: &'static str = if d == 0 {
        "0"
    } else if d == 1 {
        "1"
    } else if d == 2 {
        "2"
    } else if d == 3 {
        "3"
    } else if d == 4 {
        "4"
    } else if d == 5 {
        "5"
    } else if d == 6 {
        "6"
    } else if d == 7 {
        "7"
    } else if d == 8 {
        "8"
    } else {
        "9"
    };
    assert(text@ =~= seq![digit(d as int)]);
    text
}

/// Writes the digits of `n` behind `out`.
fn write_digits(n: u64, out: &mut String)
    ensures
        final(out)@ == old(out)@ + digits(n as nat),
    decreases n,
{
    if n >= 10 {
        write_digits(n / 10, out);
    }
    out.append(digit_text(n % 10));
    assert(out@ =~= old(out)@ + digits(n as nat));
}

/// The path of blob `file_id`.
pub fn blob_path(file_id: i64) -> (path: String)
    ensures
        path@ == blob_location(file_id as int),
{
    let mut path = "files/".to_owned();
    if file_id < 0 {
        proof {
            reveal_strlit("-");
        }
        path.append("-");
        let magnitude: u64 = if file_id == i64::MIN {
            9223372036854775808u64
        } else {
            (-file_id) as u64
        };
        write_digits(magnitude, &mut path);
        assert(path@ =~= blob_location(file_id as int));
    } else {
        write_digits(file_id as u64, &mut path);
    }
    path
}

/// The path of the static asset called `file_name`.
pub fn static_path(file_name: &str) -> (path: String)
    ensures
        path@ == static_location(file_name@),
{
    "files/static/".to_owned().concat(file_name)
}

} // verus!
