//! Verified text building: string equality, decimal and fixed-width
//! hexadecimal rendering, the hyphenated form of a 128-bit owner id, and the
//! blob key (file name) a diary's audio is stored under.

use vstd::prelude::*;
use vstd::string::StrSliceExecFns;
use vstd::string::StringExecFns;

verus! {

/// Whether two strings hold the same characters.
pub fn str_eq(a: &str, b: &str) -> (r: bool)
    ensures
        r == (a@ == b@),
{
    let a_len = a.unicode_len();
    let b_len = b.unicode_len();
    if a_len != b_len {
        assert(a@ != b@);
        return false;
    }
    let mut i: usize = 0;
    while i < a_len
        invariant
            a_len == a@.len(),
            b_len == b@.len(),
            a_len == b_len,
            i <= a_len,
            forall|j: int| 0 <= j < i ==> a@[j] == b@[j],
        decreases a_len - i,
    {
        if a.get_char(i) != b.get_char(i) {
            assert(a@ != b@);
            return false;
        }
        i += 1;
    }
    assert(a@ =~= b@);
    true
}

pub open spec fn spec_digit_char(d: int) -> char {
    if d == 0 {
        '0'
    } else if d == 1 {
        '1'
    } else if d == 2 {
        '2'
    } else if d == 3 {
        '3'
    } else if d == 4 {
        '4'
    } else if d == 5 {
        '5'
    } else if d == 6 {
        '6'
    } else if d == 7 {
        '7'
    } else if d == 8 {
        '8'
    } else {
        '9'
    }
}

pub open spec fn spec_hex_char(d: int) -> char {
    if d < 10 {
        spec_digit_char(d)
    } else if d == 10 {
        'a'
    } else if d == 11 {
        'b'
    } else if d == 12 {
        'c'
    } else if d == 13 {
        'd'
    } else if d == 14 {
        'e'
    } else {
        'f'
    }
}

/// The decimal rendering of a natural number, most significant digit first.
pub open spec fn spec_decimal(n: nat) -> Seq<char>
    decreases n,
{
    if n < 10 {
        seq![spec_digit_char(n as int)]
    } else {
        spec_decimal(n / 10) + seq![spec_digit_char((n % 10) as int)]
    }
}

/// The hexadecimal rendering of `n`'s lowest `width` nibbles, most
/// significant first, zero padded to exactly `width` characters.
pub open spec fn spec_hex_fixed(n: int, width: nat) -> Seq<char>
    decreases width,
{
    if width == 0 {
        Seq::empty()
    } else {
        spec_hex_fixed(n / 16, (width - 1) as nat) + seq![spec_hex_char(n % 16)]
    }
}

fn digit_str(d: u8) -> (r: &'static str)
    requires
        d < 10,
    ensures
        r@ =~= seq![spec_digit_char(d as int)],
{
    proof {
        reveal_strlit("0");
        reveal_strlit("1");
        reveal_strlit("2");
        reveal_strlit("3");
        reveal_strlit("4");
        reveal_strlit("5");
        reveal_strlit("6");
        reveal_strlit("7");
        reveal_strlit("8");
        reveal_strlit("9");
    }
    match d {
        0 => "0",
        1 => "1",
        2 => "2",
        3 => "3",
        4 => "4",
        5 => "5",
        6 => "6",
        7 => "7",
        8 => "8",
        _ => "9",
    }
}

fn hex_str(d: u8) -> (r: &'static str)
    requires
        d < 16,
    ensures
        r@ =~= seq![spec_hex_char(d as int)],
{
    proof {
        reveal_strlit("a");
        reveal_strlit("b");
        reveal_strlit("c");
        reveal_strlit("d");
        reveal_strlit("e");
        reveal_strlit("f");
    }
    if d < 10 {
        digit_str(d)
    } else {
        match d {
            10 => "a",
            11 => "b",
            12 => "c",
            13 => "d",
            14 => "e",
            _ => "f",
        }
    }
}

/// Renders a number in decimal, as its textual id.
pub fn format_u64(n: u64) -> (r: String)
    ensures
        r@ == spec_decimal(n as nat),
    decreases n,
{
    if n < 10 {
        let mut s = String::new();
        s.append(digit_str(n as u8));
        assert(s@ =~= spec_decimal(n as nat));
        s
    } else {
        let mut s = format_u64(n / 10);
        s.append(digit_str((n % 10) as u8));
        assert(s@ =~= spec_decimal(n as nat));
        s
    }
}

/// Renders the lowest `width` nibbles of `n` in zero-padded hexadecimal.
pub fn format_hex_fixed(n: u128, width: u8) -> (r: String)
    ensures
        r@ == spec_hex_fixed(n as int, width as nat),
    decreases width,
{
    if width == 0 {
        let s = String::new();
        assert(s@ =~= spec_hex_fixed(n as int, 0));
        s
    } else {
        let mut s = format_hex_fixed(n / 16, width - 1);
        s.append(hex_str((n % 16) as u8));
        assert(s@ =~= spec_hex_fixed(n as int, width as nat));
        s
    }
}

/// The canonical hyphenated rendering of a 128-bit owner id: five zero-padded
/// hexadecimal groups of 8, 4, 4, 4 and 12 digits.
pub open spec fn spec_owner_hyphenated(n: u128) -> Seq<char> {
    spec_hex_fixed(n as int / 0x1000000000000000000000000, 8) + "-"@ + spec_hex_fixed(
        (n as int / 0x100000000000000000000) % 0x10000,
        4,
    ) + "-"@ + spec_hex_fixed((n as int / 0x10000000000000000) % 0x10000, 4) + "-"@
        + spec_hex_fixed((n as int / 0x1000000000000) % 0x10000, 4) + "-"@ + spec_hex_fixed(
        n as int % 0x1000000000000,
        12,
    )
}

/// Renders a 128-bit owner id in its hyphenated form.
pub fn format_owner_hyphenated(n: u128) -> (r: String)
    ensures
        r@ == spec_owner_hyphenated(n),
{
    let mut s = format_hex_fixed(n / 0x1000000000000000000000000, 8);
    s.append("-");
    s.append(format_hex_fixed((n / 0x100000000000000000000) % 0x10000, 4).as_str());
    s.append("-");
    s.append(format_hex_fixed((n / 0x10000000000000000) % 0x10000, 4).as_str());
    s.append("-");
    s.append(format_hex_fixed((n / 0x1000000000000) % 0x10000, 4).as_str());
    s.append("-");
    s.append(format_hex_fixed(n % 0x1000000000000, 12).as_str());
    assert(s@ =~= spec_owner_hyphenated(n));
    s
}

/// The storage key a diary's audio blob lives under: the owner id, an
/// underscore, the record id, and the recording extension. It is a pure
/// function of `(user_id, diary_id)`, so retrying an upload for the same
/// record reuses the same key.
pub open spec fn spec_diary_filename(user_id: u128, diary_id: int) -> Seq<char> {
    spec_owner_hyphenated(user_id) + "_"@ + spec_decimal(diary_id as nat) + ".m4a"@
}

/// Derives the blob key for a record's audio from the owner and record ids.
pub fn get_diary_filename(user_id: u128, diary_id: i64) -> (r: String)
    requires
        diary_id >= 0,
    ensures
        r@ == spec_diary_filename(user_id, diary_id as int),
{
    let mut s = format_owner_hyphenated(user_id);
    s.append("_");
    s.append(format_u64(diary_id as u64).as_str());
    s.append(".m4a");
    assert(s@ =~= spec_diary_filename(user_id, diary_id as int));
    s
}

/// The blob key depends on the `(owner, record)` pair alone: any two keys
/// derived for the same pair are the same key.
pub proof fn lemma_blob_key_idempotent(key1: Seq<char>, key2: Seq<char>, user_id: u128, diary_id: int)
    requires
        key1 == spec_diary_filename(user_id, diary_id),
        key2 == spec_diary_filename(user_id, diary_id),
    ensures
        key1 == key2,
{
}

} // verus!
