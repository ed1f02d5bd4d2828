//! Text the library builds: decimal and hexadecimal renderings, C strings,
//! file names, and the first word of a line.
use vstd::prelude::*;
use vstd::string::*;

verus! {

/// The sixteen lower-case hexadecimal digits, in order of value.
pub open spec fn hex_digits() -> Seq<char> {
    seq!['0', '1', '2', '3', '4', '5', '6', '7', '8', '9', 'a', 'b', 'c', 'd', 'e', 'f']
}

/// The decimal rendering of `n`, most significant digit first, without leading zeros.
pub open spec fn decimal(n: nat) -> Seq<char>
    decreases n,
{
    if n < 10 {
        seq![hex_digits()[n as int]]
    } else {
        decimal(n / 10).push(hex_digits()[(n % 10) as int])
    }
}

/// Each byte as two lower-case hexadecimal digits, high nibble first.
pub open spec fn hex_lower(bytes: Seq<u8>) -> Seq<char>
    decreases bytes.len(),
{
    if bytes.len() == 0 {
        Seq::empty()
    } else {
        hex_lower(bytes.drop_last()) + seq![
            hex_digits()[(bytes.last() / 16) as int],
            hex_digits()[(bytes.last() % 16) as int],
        ]
    }
}

/// The character code of the lower-case hexadecimal digit of value `v`
/// (0 to 15): `0`..`9` for 0 to 9, `a`..`f` for 10 to 15.
pub open spec fn hex_char_code(v: int) -> int {
    if v < 10 { 48 + v } else { 87 + v }
}

/// Each digit in the table is the lower-case hexadecimal digit of its value.
pub proof fn lemma_hex_digits_codes()
    ensures
        hex_digits().len() == 16,
        forall|v: int| 0 <= v < 16 ==> #[trigger] hex_digits()[v] as int == hex_char_code(v),
{
    assert forall|v: int| 0 <= v < 16 implies #[trigger] hex_digits()[v] as int == hex_char_code(v) by {
        assert(hex_digits()[0] == '0' && hex_digits()[1] == '1' && hex_digits()[2] == '2');
        assert(hex_digits()[3] == '3' && hex_digits()[4] == '4' && hex_digits()[5] == '5');
        assert(hex_digits()[6] == '6' && hex_digits()[7] == '7' && hex_digits()[8] == '8');
        assert(hex_digits()[9] == '9' && hex_digits()[10] == 'a' && hex_digits()[11] == 'b');
        assert(hex_digits()[12] == 'c' && hex_digits()[13] == 'd' && hex_digits()[14] == 'e');
        assert(hex_digits()[15] == 'f');
    }
}

/// The hexadecimal rendering of bytes has two characters per byte: for the
/// byte at index `k`, the digit of its high nibble at `2k` and the digit of its
/// low nibble at `2k + 1`, lower-case.
pub proof fn lemma_hex_lower_digits(bytes: Seq<u8>)
    ensures
        hex_lower(bytes).len() == 2 * bytes.len(),
        forall|k: int|
            0 <= k < bytes.len() ==> #[trigger] hex_lower(bytes)[2 * k] as int == hex_char_code((bytes[k] / 16) as int) && hex_lower(bytes)[2 * k + 1] as int == hex_char_code((bytes[k] % 16) as int),
    decreases bytes.len(),
{
    lemma_hex_digits_codes();
    if bytes.len() > 0 {
        let init = bytes.drop_last();
        lemma_hex_lower_digits(init);
        let b = bytes.last();
        let pair = seq![hex_digits()[(b / 16) as int], hex_digits()[(b % 16) as int]];
        assert(hex_lower(bytes) == hex_lower(init) + pair);
        assert forall|k: int| 0 <= k < bytes.len() implies #[trigger] hex_lower(bytes)[2 * k] as int
            == hex_char_code((bytes[k] / 16) as int) && hex_lower(bytes)[2 * k + 1] as int == hex_char_code((bytes[k] % 16) as int) by {
            if k < init.len() {
                assert(init[k] == bytes[k]);
                assert(hex_lower(init)[2 * k] as int == hex_char_code((init[k] / 16) as int));
                assert(hex_lower(bytes)[2 * k] == hex_lower(init)[2 * k]);
                assert(hex_lower(bytes)[2 * k + 1] == hex_lower(init)[2 * k + 1]);
            } else {
                assert(k == init.len());
                assert(bytes[k] == b);
                assert(hex_lower(bytes)[2 * k] == pair[0]);
                assert(hex_lower(bytes)[2 * k + 1] == pair[1]);
                assert(pair[0] as int == hex_char_code((b / 16) as int));
                assert(pair[1] as int == hex_char_code((b % 16) as int));
            }
        }
    }
}

/// The one-character string that holds the digit of value `d`.
fn digit_str(d: u8) -> (r: &'static str)
    requires
        d < 16,
    ensures
        r@ == seq![hex_digits()[d as int]],
{
    match d {
        0 => { proof { reveal_strlit("0"); } "0" },
        1 => { proof { reveal_strlit("1"); } "1" },
        2 => { proof { reveal_strlit("2"); } "2" },
        3 => { proof { reveal_strlit("3"); } "3" },
        4 => { proof { reveal_strlit("4"); } "4" },
        5 => { proof { reveal_strlit("5"); } "5" },
        6 => { proof { reveal_strlit("6"); } "6" },
        7 => { proof { reveal_strlit("7"); } "7" },
        8 => { proof { reveal_strlit("8"); } "8" },
        9 => { proof { reveal_strlit("9"); } "9" },
        10 => { proof { reveal_strlit("a"); } "a" },
        11 => { proof { reveal_strlit("b"); } "b" },
        12 => { proof { reveal_strlit("c"); } "c" },
        13 => { proof { reveal_strlit("d"); } "d" },
        14 => { proof { reveal_strlit("e"); } "e" },
        _ => { proof { reveal_strlit("f"); } "f" },
    }
}

/// Renders `n` in decimal, as `format!("{}", n)` does.
pub fn decimal_string(n: u64) -> (r: String)
    ensures
        r@ == decimal(n as nat),
    decreases n,
{
    if n < 10 {
        String::from_str(digit_str(n as u8))
    } else {
        let mut s = decimal_string(n / 10);
        s.append(digit_str((n % 10) as u8));
        s
    }
}

/// Renders bytes as lower-case hexadecimal, two digits per byte, as the
/// `{:x}` format of an MD5 digest does.
pub fn hex_lower_string(bytes: &[u8]) -> (r: String)
    ensures
        r@ == hex_lower(bytes@),
        r@.len() == 2 * bytes@.len(),
        forall|k: int|
            0 <= k < bytes@.len() ==> #[trigger] r@[2 * k] as int == hex_char_code((bytes@[k] / 16) as int)
                && r@[2 * k + 1] as int == hex_char_code((bytes@[k] % 16) as int),
{
    proof { lemma_hex_lower_digits(bytes@); }
    let mut s = String::new();
    let n = bytes.len();
    let mut i: usize = 0;
    while i < n
        invariant
            n == bytes@.len(),
            i <= n,
            s@ == hex_lower(bytes@.take(i as int)),
        decreases n - i,
    {
        let b = bytes[i];
        assert(bytes@.take(i + 1).drop_last() =~= bytes@.take(i as int));
        s.append(digit_str(b / 16));
        s.append(digit_str(b % 16));
        i = i + 1;
    }
    assert(bytes@.take(n as int) =~= bytes@);
    s
}

/// The NUL-terminated copy of `s` that a C function expects.
pub fn c_string(s: &str) -> (r: String)
    ensures
        r@ == s@.push('\0'),
{
    proof { reveal_strlit("\0"); }
    String::from_str(s).concat("\0")
}

/// The name of the file that a download into `location` writes before it is
/// moved into place: `location` with `.dl` appended.
pub fn temp_path(location: &str) -> (r: String)
    ensures
        r@ == location@ + ".dl"@,
{
    String::from_str(location).concat(".dl")
}

/// `s` up to its first space, or the whole of `s` where it has none: what
/// `s.split(" ").next()` gives.
pub open spec fn is_first_word(s: Seq<char>, w: Seq<char>) -> bool {
    &&& w.len() <= s.len()
    &&& w == s.take(w.len() as int)
    &&& !w.contains(' ')
    &&& (w.len() == s.len() || s[w.len() as int] == ' ')
}

/// Returns `s` up to its first space, or all of `s` where it has none.
pub fn first_word(s: &str) -> (r: String)
    ensures
        is_first_word(s@, r@),
{
    let n = s.unicode_len();
    let mut i: usize = 0;
    while i < n
        invariant
            n == s@.len(),
            i <= n,
            forall|j: int| 0 <= j < i ==> s@[j] != ' ',
        ensures
            i <= n,
            forall|j: int| 0 <= j < i ==> s@[j] != ' ',
            i == n || s@[i as int] == ' ',
        decreases n - i,
    {
        if s.get_char(i) == ' ' {
            break;
        }
        i = i + 1;
    }
    let r = String::from_str(s.substring_char(0, i));
    assert(!r@.contains(' ')) by {
        assert forall|j: int| 0 <= j < r@.len() implies r@[j] != ' ' by {
            assert(r@[j] == s@[j]);
        }
    }
    r
}

} // verus!
