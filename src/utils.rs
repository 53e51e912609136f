use vstd::prelude::*;
use vstd::string::StringSliceAdditionalSpecFns;

verus! {

/// A point of the plane with integer coordinates.
#[derive(Clone, Copy, Debug, PartialEq, Eq, Structural)]
pub struct Point {
    pub x: i32,
    pub y: i32,
}

impl Default for Point {
    fn default() -> (r: Self)
        ensures
            r == (Point { x: 0, y: 0 }),
    {
        Point { x: 0, y: 0 }
    }
}

impl Point {
    /// The origin.
    pub fn new() -> (r: Self)
        ensures
            r == (Point { x: 0, y: 0 }),
    {
        Point { x: 0, y: 0 }
    }
}

/// The one-character text of a decimal digit.
pub open spec fn digit_text(d: nat) -> Seq<char> {
    if d == 0 {
        "0"@
    } else if d == 1 {
        "1"@
    } else if d == 2 {
        "2"@
    } else if d == 3 {
        "3"@
    } else if d == 4 {
        "4"@
    } else if d == 5 {
        "5"@
    } else if d == 6 {
        "6"@
    } else if d == 7 {
        "7"@
    } else if d == 8 {
        "8"@
    } else {
        "9"@
    }
}

/// The decimal text of a natural number, without leading zeros.
pub open spec fn nat_text(n: nat) -> Seq<char>
    decreases n,
{
    if n < 10 {
        digit_text(n)
    } else {
        nat_text(n / 10) + digit_text(n % 10)
    }
}

/// The decimal text of an integer, with a leading `-` when it is negative.
pub open spec fn int_text(i: int) -> Seq<char> {
    if i < 0 {
        "-"@ + nat_text((-i) as nat)
    } else {
        nat_text(i as nat)
    }
}

fn digit_str(d: u64) -> (r: &'static str)
    requires
        d < 10,
    ensures
        r@ == digit_text(d as nat),
{
    if d == 0 {
        "0"
    } else if d == 1 {
        "1"
    } else if d == 2 {
        "2"
    } else if d == 3 {
        "3"
    } else if d == 4 {
        "4"
    } else if d == 5 {
        "5"
    } else if d == 6 {
        "6"
    } else if d == 7 {
        "7"
    } else if d == 8 {
        "8"
    } else {
        "9"
    }
}

/// Appends the decimal text of `n`.
pub fn write_nat(out: &mut String, n: u64)
    ensures
        final(out)@ == old(out)@ + nat_text(n as nat),
    decreases n,
{
    if n >= 10 {
        write_nat(out, n / 10);
    }
    out.append(digit_str(n % 10));
    proof {
        assert(old(out)@ + nat_text(n as nat) =~= if n >= 10 {
            old(out)@ + nat_text((n / 10) as nat) + digit_text((n % 10) as nat)
        } else {
            old(out)@ + digit_text((n % 10) as nat)
        });
    }
}

/// Appends the decimal text of `i`.
pub fn write_int(out: &mut String, i: i32)
    ensures
        final(out)@ == old(out)@ + int_text(i as int),
{
    if i < 0 {
        out.append("-");
        let m: u64 = (-(i as i64)) as u64;
        write_nat(out, m);
        assert(out@ =~= old(out)@ + int_text(i as int));
    } else {
        write_nat(out, i as u64);
    }
}

/// The characters with the Unicode `White_Space` property.
pub open spec fn is_white_space(c: char) -> bool {
    let u = c as u32;
    (0x9 <= u && u <= 0xd) || u == 0x20 || u == 0x85 || u == 0xa0 || u == 0x1680 || (0x2000 <= u
        && u <= 0x200a) || u == 0x2028 || u == 0x2029 || u == 0x202f || u == 0x205f || u == 0x3000
}

fn white_space(c: char) -> (r: bool)
    ensures
        r == is_white_space(c),
{
    let u = c as u32;
    (0x9 <= u && u <= 0xd) || u == 0x20 || u == 0x85 || u == 0xa0 || u == 0x1680 || (0x2000 <= u
        && u <= 0x200a) || u == 0x2028 || u == 0x2029 || u == 0x202f || u == 0x205f || u == 0x3000
}

/// The code of a character with ASCII lower-case letters made upper-case.
pub open spec fn ascii_upper(u: u32) -> u32 {
    if 97 <= u && u <= 122 {
        (u - 32) as u32
    } else {
        u
    }
}

/// `s` equals `name` once its ASCII letters are made upper-case.
pub open spec fn same_upper(s: Seq<char>, name: Seq<char>) -> bool {
    s.len() == name.len() && forall|i: int| 0 <= i < s.len() ==> ascii_upper(s[i] as u32) == name[i] as u32
}

fn same_upper_exec(s: &str, name: &str) -> (r: bool)
    ensures
        r == same_upper(s@, name@),
{
    let n = s.unicode_len();
    if n != name.unicode_len() {
        return false;
    }
    let mut i: usize = 0;
    while i < n
        invariant
            n == s@.len(),
            n == name@.len(),
            i <= n,
            forall|j: int| 0 <= j < i ==> ascii_upper(s@[j] as u32) == name@[j] as u32,
        decreases n - i,
    {
        let u = s.get_char(i) as u32;
        let upper = if 97 <= u && u <= 122 {
            u - 32
        } else {
            u
        };
        if upper != name.get_char(i) as u32 {
            return false;
        }
        i = i + 1;
    }
    true
}

/// A name that Windows reserves for a device, in any ASCII case.
pub open spec fn is_reserved(s: Seq<char>) -> bool {
    same_upper(s, "CON"@) ||
    same_upper(s, "PRN"@) ||
    same_upper(s, "AUX"@) ||
    same_upper(s, "NUL"@) ||
    same_upper(s, "COM1"@) ||
    same_upper(s, "COM2"@) ||
    same_upper(s, "COM3"@) ||
    same_upper(s, "COM4"@) ||
    same_upper(s, "COM5"@) ||
    same_upper(s, "COM6"@) ||
    same_upper(s, "COM7"@) ||
    same_upper(s, "COM8"@) ||
    same_upper(s, "COM9"@) ||
    same_upper(s, "LPT1"@) ||
    same_upper(s, "LPT2"@) ||
    same_upper(s, "LPT3"@) ||
    same_upper(s, "LPT4"@) ||
    same_upper(s, "LPT5"@) ||
    same_upper(s, "LPT6"@) ||
    same_upper(s, "LPT7"@) ||
    same_upper(s, "LPT8"@) ||
    same_upper(s, "LPT9"@)
}

fn is_reserved_exec(s: &str) -> (r: bool)
    ensures
        r == is_reserved(s@),
{
    same_upper_exec(s, "CON") ||
        same_upper_exec(s, "PRN") ||
        same_upper_exec(s, "AUX") ||
        same_upper_exec(s, "NUL") ||
        same_upper_exec(s, "COM1") ||
        same_upper_exec(s, "COM2") ||
        same_upper_exec(s, "COM3") ||
        same_upper_exec(s, "COM4") ||
        same_upper_exec(s, "COM5") ||
        same_upper_exec(s, "COM6") ||
        same_upper_exec(s, "COM7") ||
        same_upper_exec(s, "COM8") ||
        same_upper_exec(s, "COM9") ||
        same_upper_exec(s, "LPT1") ||
        same_upper_exec(s, "LPT2") ||
        same_upper_exec(s, "LPT3") ||
        same_upper_exec(s, "LPT4") ||
        same_upper_exec(s, "LPT5") ||
        same_upper_exec(s, "LPT6") ||
        same_upper_exec(s, "LPT7") ||
        same_upper_exec(s, "LPT8") ||
        same_upper_exec(s, "LPT9")
}

/// The characters that a file name may not hold.
pub open spec fn is_forbidden(c: char) -> bool {
    c == '\\' || c == '/' || c == ':' || c == '*' || c == '?' || c == '"' || c == '<' || c == '>'
        || c == '|'
}

/// Why `name` is no valid file name, or `None` when it is one. The checks
/// come in this order, and the first that fails gives the message.
pub open spec fn filename_error(name: &str) -> Option<Seq<char>> {
    let s = name@;
    if s.len() == 0 {
        Some("Filename cannot be empty"@)
    } else if is_reserved(s) {
        Some("Filename is reserved"@)
    } else if exists|i: int| 0 <= i < s.len() && is_forbidden(#[trigger] s[i]) {
        Some("Filename contains invalid characters"@)
    } else if is_white_space(s.last()) || s.last() == '.' {
        Some("Filename cannot end with a space or dot"@)
    } else if s[0] == '.' || is_white_space(s[0]) {
        Some("Filename cannot start with a space or dot"@)
    } else if name.len() > 255 {
        Some("Filename is too long"@)
    } else if !vstd::utf8::is_char_boundary(name.spec_bytes(), 0) {
        Some("Filename is not valid UTF-8"@)
    } else {
        None
    }
}

/// Checks that a file name is acceptable on common file systems.
pub fn is_valid_filename(filename: &str) -> (r: Result<(), String>)
    ensures
        r is Ok <==> filename_error(filename) is None,
        r matches Err(m) ==> filename_error(filename) == Some(m@),
{
    let n = filename.unicode_len();
    if n == 0 {
        return Err(String::from_str("Filename cannot be empty"));
    }
    if is_reserved_exec(filename) {
        return Err(String::from_str("Filename is reserved"));
    }
    let mut i: usize = 0;
    while i < n
        invariant
            n == filename@.len(),
            n > 0,
            !is_reserved(filename@),
            i <= n,
            forall|j: int| 0 <= j < i ==> !is_forbidden(#[trigger] filename@[j]),
        decreases n - i,
    {
        let c = filename.get_char(i);
        if c == '\\' || c == '/' || c == ':' || c == '*' || c == '?' || c == '"' || c == '<' || c
            == '>' || c == '|' {
            assert(is_forbidden(filename@[i as int]));
            return Err(String::from_str("Filename contains invalid characters"));
        }
        i = i + 1;
    }
    let last = filename.get_char(n - 1);
    if white_space(last) || last == '.' {
        return Err(String::from_str("Filename cannot end with a space or dot"));
    }
    let first = filename.get_char(0);
    if first == '.' || white_space(first) {
        return Err(String::from_str("Filename cannot start with a space or dot"));
    }
    if filename.len() > 255 {
        return Err(String::from_str("Filename is too long"));
    }
    if !filename.is_char_boundary(0) {
        return Err(String::from_str("Filename is not valid UTF-8"));
    }
    Ok(())
}

} // verus!
