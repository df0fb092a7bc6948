//! Small verified string helpers shared by the other modules.

use vstd::prelude::*;

verus! {

/// Whether two string slices hold the same characters.
pub fn str_eq(a: &str, b: &str) -> (res: bool)
    ensures
        res == (a@ == b@),
{
    let mut ia = a.chars();
    let mut ib = b.chars();
    let ghost mut k: int = 0;
    loop
        invariant
            0 <= k <= a@.len(),
            k <= b@.len(),
            vstd::std_specs::iter::IteratorSpec::remaining(&ia) == a@.skip(k),
            vstd::std_specs::iter::IteratorSpec::remaining(&ib) == b@.skip(k),
            a@.take(k) == b@.take(k),
        decreases a@.len() - k,
    {
        let x = ia.next();
        let y = ib.next();
        match (x, y) {
            (None, None) => {
                assert(a@ =~= a@.take(k));
                assert(b@ =~= b@.take(k));
                return true;
            },
            (Some(c), Some(d)) => {
                if c != d {
                    assert(a@[k] == c && b@[k] == d);
                    return false;
                }
                proof {
                    assert(a@.take(k + 1) =~= a@.take(k).push(c));
                    assert(b@.take(k + 1) =~= b@.take(k).push(d));
                    assert(a@.skip(k).drop_first() =~= a@.skip(k + 1));
                    assert(b@.skip(k).drop_first() =~= b@.skip(k + 1));
                    k = k + 1;
                }
            },
            _ => {
                return false;
            },
        }
    }
}

/// Whether `s` begins with the characters of `prefix`.
pub fn starts_with(s: &str, prefix: &str) -> (res: bool)
    ensures
        res == (prefix@.len() <= s@.len() && s@.take(prefix@.len() as int) == prefix@),
{
    let mut is = s.chars();
    let mut ip = prefix.chars();
    let ghost mut k: int = 0;
    loop
        invariant
            0 <= k <= prefix@.len(),
            k <= s@.len(),
            vstd::std_specs::iter::IteratorSpec::remaining(&is) == s@.skip(k),
            vstd::std_specs::iter::IteratorSpec::remaining(&ip) == prefix@.skip(k),
            s@.take(k) == prefix@.take(k),
        decreases prefix@.len() - k,
    {
        let y = ip.next();
        let x = is.next();
        match (x, y) {
            (_, None) => {
                assert(prefix@ =~= prefix@.take(k));
                return true;
            },
            (Some(c), Some(d)) => {
                if c != d {
                    assert(s@[k] == c && prefix@[k] == d);
                    assert(prefix@.len() <= s@.len() ==> s@.take(prefix@.len() as int)[k]
                        != prefix@[k]);
                    return false;
                }
                proof {
                    assert(s@.take(k + 1) =~= s@.take(k).push(c));
                    assert(prefix@.take(k + 1) =~= prefix@.take(k).push(d));
                    assert(s@.skip(k).drop_first() =~= s@.skip(k + 1));
                    assert(prefix@.skip(k).drop_first() =~= prefix@.skip(k + 1));
                    k = k + 1;
                }
            },
            (None, Some(_)) => {
                return false;
            },
        }
    }
}

/// A string holding the characters of `s`.
pub fn string_of(s: &str) -> (res: String)
    ensures
        res@ == s@,
{
    String::from_str(s)
}

/// Appends the characters of `t` to `s`.
pub fn push_str(s: &mut String, t: &str)
    ensures
        final(s)@ == old(s)@ + t@,
{
    s.append(t);
}

/// The character of a decimal digit.
pub open spec fn digit_char(d: int) -> char {
    if d == 0 { '0' }
    else if d == 1 { '1' }
    else if d == 2 { '2' }
    else if d == 3 { '3' }
    else if d == 4 { '4' }
    else if d == 5 { '5' }
    else if d == 6 { '6' }
    else if d == 7 { '7' }
    else if d == 8 { '8' }
    else { '9' }
}

/// The decimal writing of a natural number, without leading zeros.
pub open spec fn decimal(n: nat) -> Seq<char>
    decreases n,
{
    if n < 10 {
        seq![digit_char(n as int)]
    } else {
        decimal(n / 10).push(digit_char((n % 10) as int))
    }
}

/// The one-character string of a decimal digit.
fn digit_str(d: u128) -> (r: &'static str)
    requires
        d < 10,
    ensures
        r@ == seq![digit_char(d as int)],
{
    if d == 0 {
        proof {
            reveal_strlit("0");
        }
        "0"
    } else if d == 1 {
        proof {
            reveal_strlit("1");
        }
        "1"
    } else if d == 2 {
        proof {
            reveal_strlit("2");
        }
        "2"
    } else if d == 3 {
        proof {
            reveal_strlit("3");
        }
        "3"
    } else if d == 4 {
        proof {
            reveal_strlit("4");
        }
        "4"
    } else if d == 5 {
        proof {
            reveal_strlit("5");
        }
        "5"
    } else if d == 6 {
        proof {
            reveal_strlit("6");
        }
        "6"
    } else if d == 7 {
        proof {
            reveal_strlit("7");
        }
        "7"
    } else if d == 8 {
        proof {
            reveal_strlit("8");
        }
        "8"
    } else {
        proof {
            reveal_strlit("9");
        }
        "9"
    }
}

/// Appends the decimal writing of `n` to `s`.
pub fn push_decimal(s: &mut String, n: u128)
    ensures
        final(s)@ == old(s)@ + decimal(n as nat),
    decreases n,
{
    if n < 10 {
        push_str(s, digit_str(n));
        assert(old(s)@ + seq![digit_char(n as int)] =~= old(s)@ + decimal(n as nat));
    } else {
        push_decimal(s, n / 10);
        push_str(s, digit_str(n % 10));
        assert(old(s)@ + decimal((n / 10) as nat) + seq![digit_char((n % 10) as int)]
            =~= old(s)@ + decimal(n as nat));
    }
}

/// Appends one of the separator characters `/`, `-`, `.`, `:`, ` ` or a
/// line break to `s`.
pub(crate) fn push_separator(s: &mut String, c: char)
    requires
        c == '/' || c == '-' || c == '.' || c == ':' || c == ' ' || c == '\n',
    ensures
        final(s)@ == old(s)@.push(c),
{
    let t = if c == '/' {
        proof {
            reveal_strlit("/");
        }
        "/"
    } else if c == '-' {
        proof {
            reveal_strlit("-");
        }
        "-"
    } else if c == '.' {
        proof {
            reveal_strlit(".");
        }
        "."
    } else if c == ':' {
        proof {
            reveal_strlit(":");
        }
        ":"
    } else if c == ' ' {
        proof {
            reveal_strlit(" ");
        }
        " "
    } else {
        proof {
            reveal_strlit("\n");
        }
        "\n"
    };
    assert(t@ =~= seq![c]);
    push_str(s, t);
    assert(old(s)@ + seq![c] =~= old(s)@.push(c));
}

/// The path of `name` inside the directory `dir`, as a Unix path join
/// forms it: an absolute `name` (one that begins with `/`) replaces `dir`;
/// otherwise a separator is put between them unless `dir` is empty or
/// already ends with one.
pub open spec fn joined_path(dir: Seq<char>, name: Seq<char>) -> Seq<char> {
    if name.len() > 0 && name[0] == '/' {
        name
    } else if dir.len() == 0 || dir.last() == '/' {
        dir + name
    } else {
        dir.push('/') + name
    }
}

/// Joins a file name onto a directory path.
pub fn join_path(dir: &str, name: &str) -> (res: String)
    ensures
        res@ == joined_path(dir@, name@),
{
    if !name.is_empty() && name.get_char(0) == '/' {
        return string_of(name);
    }
    let mut res = string_of(dir);
    if !dir.is_empty() {
        let n = dir.unicode_len();
        if dir.get_char(n - 1) != '/' {
            push_separator(&mut res, '/');
        }
    }
    push_str(&mut res, name);
    res
}

/// Joining a relative name onto a directory keeps the directory and the name
/// whole and puts exactly one `/` between them: one is added where the
/// directory is non-empty and does not end with one, whatever else it holds;
/// an absolute name stands alone.
pub proof fn lemma_joined_path(dir: Seq<char>, name: Seq<char>)
    ensures
        name.len() > 0 && name[0] == '/' ==> joined_path(dir, name) == name,
        !(name.len() > 0 && name[0] == '/') && dir.len() > 0 && dir.last() != '/'
            ==> joined_path(dir, name) == dir + seq!['/'] + name,
        !(name.len() > 0 && name[0] == '/') && (dir.len() == 0 || dir.last() == '/')
            ==> joined_path(dir, name) == dir + name,
        !(name.len() > 0 && name[0] == '/') ==> {
            &&& joined_path(dir, name).take(dir.len() as int) == dir
            &&& joined_path(dir, name).skip(joined_path(dir, name).len() - name.len()) == name
            &&& dir.len() > 0 ==> joined_path(dir, name)[dir.len() - 1] == '/' || joined_path(
                dir,
                name,
            )[dir.len() as int] == '/'
        },
{
    let j = joined_path(dir, name);
    if !(name.len() > 0 && name[0] == '/') {
        if dir.len() > 0 && dir.last() != '/' {
            assert(dir.push('/') + name =~= dir + seq!['/'] + name);
            assert(j.take(dir.len() as int) =~= dir);
            assert(j.skip(j.len() - name.len()) =~= name);
            assert(j[dir.len() as int] == '/');
        } else {
            assert(j.take(dir.len() as int) =~= dir);
            assert(j.skip(j.len() - name.len()) =~= name);
        }
    }
}

/// The value of a decimal digit character.
pub open spec fn digit_value(c: char) -> int {
    (c as int) - ('0' as int)
}

/// Whether every character of `s` is a decimal digit.
pub open spec fn all_digits(s: Seq<char>) -> bool {
    forall|i: int| 0 <= i < s.len() ==> '0' <= #[trigger] s[i] <= '9'
}

/// The number that a string of decimal digits writes.
pub open spec fn digits_value(s: Seq<char>) -> int
    decreases s.len(),
{
    if s.len() == 0 {
        0
    } else {
        digits_value(s.drop_last()) * 10 + digit_value(s.last())
    }
}

proof fn lemma_digit_char(d: int)
    requires
        0 <= d < 10,
    ensures
        '0' <= digit_char(d) <= '9',
        digit_value(digit_char(d)) == d,
{
}

/// The decimal writing of a number is made of digits, writes that number,
/// and has no leading zero.
pub proof fn lemma_decimal_writes(n: nat)
    ensures
        decimal(n).len() > 0,
        all_digits(decimal(n)),
        digits_value(decimal(n)) == n,
        decimal(n).len() > 1 ==> decimal(n)[0] != '0',
        n < 10 <==> decimal(n).len() == 1,
    decreases n,
{
    if n < 10 {
        lemma_digit_char(n as int);
        assert(decimal(n).drop_last() =~= Seq::<char>::empty());
        assert(digits_value(Seq::<char>::empty()) == 0);
        assert(decimal(n).last() == digit_char(n as int));
        assert(digits_value(decimal(n)) == n);
    } else {
        let q = (n / 10) as nat;
        let r = (n % 10) as int;
        lemma_decimal_writes(q);
        lemma_digit_char(r);
        let d = decimal(n);
        assert(d == decimal(q).push(digit_char(r)));
        assert(d.drop_last() =~= decimal(q));
        assert(d.last() == digit_char(r));
        assert forall|i: int| 0 <= i < d.len() implies '0' <= #[trigger] d[i] <= '9' by {
            if i < d.len() - 1 {
                assert(d[i] == decimal(q)[i]);
            }
        }
        assert(q * 10 + r == n);
        assert(digits_value(d) == digits_value(decimal(q)) * 10 + digit_value(digit_char(r)));
        if q < 10 {
            assert(decimal(q).len() == 1);
            lemma_digit_char(q as int);
            assert(d[0] == digit_char(q as int));
            assert(digit_value(d[0]) == q);
        } else {
            assert(d[0] == decimal(q)[0]);
        }
    }
}

} // verus!
