//! Password-style generation of key material.
//!
//! For each enabled character class one guaranteed character is placed first,
//! the remaining slots are drawn from the combined pool, and the result is
//! shuffled so the guaranteed characters sit at no fixed position.  The
//! contract pins down the length, that every character comes from an enabled
//! class, and that every enabled class is represented.

use vstd::prelude::*;

use crate::error::CryptoError;
use crate::rng::{choose_byte, rng_new, shuffle_bytes};

verus! {

/// Code points of the uppercase pool: `A`-`Z` without `I` and `O`.
pub open spec fn is_upper_code(x: u32) -> bool {
    65 <= x <= 90 && x != 73 && x != 79
}

/// Code points of the lowercase pool: `a`-`z` without `g` and `l`.
pub open spec fn is_lower_code(x: u32) -> bool {
    97 <= x <= 122 && x != 103 && x != 108
}

/// Code points of the number pool: `1`-`9`.
pub open spec fn is_number_code(x: u32) -> bool {
    49 <= x <= 57
}

/// Code points of the symbol pool: `!` `@` `#` `$` `%` `^` `&` `*` `_`.
pub open spec fn is_symbol_code(x: u32) -> bool {
    x == 33 || x == 64 || x == 35 || x == 36 || x == 37 || x == 94 || x == 38 || x == 42 || x
        == 95
}

pub open spec fn is_upper_byte(b: u8) -> bool {
    is_upper_code(b as u32)
}

pub open spec fn is_lower_byte(b: u8) -> bool {
    is_lower_code(b as u32)
}

pub open spec fn is_number_byte(b: u8) -> bool {
    is_number_code(b as u32)
}

pub open spec fn is_symbol_byte(b: u8) -> bool {
    is_symbol_code(b as u32)
}

pub open spec fn is_upper_char(c: char) -> bool {
    is_upper_code(c as u32)
}

pub open spec fn is_lower_char(c: char) -> bool {
    is_lower_code(c as u32)
}

pub open spec fn is_number_char(c: char) -> bool {
    is_number_code(c as u32)
}

pub open spec fn is_symbol_char(c: char) -> bool {
    is_symbol_code(c as u32)
}

/// A byte belongs to one of the classes that the caller enabled.
pub open spec fn byte_in_enabled_class(
    b: u8,
    uppercase: bool,
    lowercase: bool,
    number: bool,
    symbol: bool,
) -> bool {
    ||| (uppercase && is_upper_byte(b))
    ||| (lowercase && is_lower_byte(b))
    ||| (number && is_number_byte(b))
    ||| (symbol && is_symbol_byte(b))
}

/// A character belongs to one of the classes that the caller enabled.
pub open spec fn char_in_enabled_class(
    c: char,
    uppercase: bool,
    lowercase: bool,
    number: bool,
    symbol: bool,
) -> bool {
    ||| (uppercase && is_upper_char(c))
    ||| (lowercase && is_lower_char(c))
    ||| (number && is_number_char(c))
    ||| (symbol && is_symbol_char(c))
}

/// How many character classes the caller enabled.
pub open spec fn enabled_classes(
    uppercase: bool,
    lowercase: bool,
    number: bool,
    symbol: bool,
) -> int {
    (if uppercase {
        1int
    } else {
        0int
    }) + (if lowercase {
        1int
    } else {
        0int
    }) + (if number {
        1int
    } else {
        0int
    }) + (if symbol {
        1int
    } else {
        0int
    })
}

/// The uppercase alphabet, in the order it is drawn from.
fn upper_chars() -> (r: Vec<u8>)
    ensures
        r@.len() > 0,
        forall|i: int| 0 <= i < r@.len() ==> is_upper_byte(#[trigger] r@[i]),
{
    let mut v: Vec<u8> = Vec::new();
    let mut b: u8 = 65;
    while b <= 90
        invariant
            65 <= b <= 91,
            b > 65 ==> v@.len() > 0,
            forall|i: int| 0 <= i < v@.len() ==> is_upper_byte(#[trigger] v@[i]),
        decreases 91 - b,
    {
        if b != 73 && b != 79 {
            v.push(b);
        }
        b = b + 1;
    }
    v
}

/// The lowercase alphabet, in the order it is drawn from.
fn lower_chars() -> (r: Vec<u8>)
    ensures
        r@.len() > 0,
        forall|i: int| 0 <= i < r@.len() ==> is_lower_byte(#[trigger] r@[i]),
{
    let mut v: Vec<u8> = Vec::new();
    v.push(97);
    v.push(98);
    v.push(99);
    v.push(100);
    v.push(101);
    v.push(102);
    v.push(106);
    v.push(104);
    v.push(105);
    v.push(106);
    v.push(107);
    v.push(109);
    v.push(110);
    v.push(111);
    v.push(112);
    v.push(113);
    v.push(114);
    v.push(115);
    v.push(116);
    v.push(117);
    v.push(118);
    v.push(119);
    v.push(120);
    v.push(121);
    v.push(122);
    v
}

/// The number alphabet, in the order it is drawn from.
fn number_chars() -> (r: Vec<u8>)
    ensures
        r@.len() > 0,
        forall|i: int| 0 <= i < r@.len() ==> is_number_byte(#[trigger] r@[i]),
{
    let mut v: Vec<u8> = Vec::new();
    let mut b: u8 = 49;
    while b <= 57
        invariant
            49 <= b <= 58,
            b > 49 ==> v@.len() > 0,
            forall|i: int| 0 <= i < v@.len() ==> is_number_byte(#[trigger] v@[i]),
        decreases 58 - b,
    {
        v.push(b);
        b = b + 1;
    }
    v
}

/// The symbol alphabet, in the order it is drawn from.
fn symbol_chars() -> (r: Vec<u8>)
    ensures
        r@.len() > 0,
        forall|i: int| 0 <= i < r@.len() ==> is_symbol_byte(#[trigger] r@[i]),
{
    let mut v: Vec<u8> = Vec::new();
    v.push(33);
    v.push(64);
    v.push(35);
    v.push(36);
    v.push(37);
    v.push(94);
    v.push(38);
    v.push(42);
    v.push(95);
    v
}

/// A character whose code point is below 128 sits in the ASCII range.
pub(crate) proof fn lemma_ascii_code_bound(c: char)
    requires
        (c as u32) < 128,
    ensures
        '\0' <= c <= '\u{7f}',
{
}

/// Relies on `String::from_utf8`: bytes below 128 are valid UTF-8 and decode
/// to one character per byte, each with the byte's code point.
#[verifier::external_body]
fn ascii_to_string(bytes: Vec<u8>) -> (r: String)
    requires
        forall|i: int| 0 <= i < bytes@.len() ==> bytes@[i] < 128,
    ensures
        r@.len() == bytes@.len(),
        forall|i: int| 0 <= i < bytes@.len() ==> #[trigger] r@[i] as u32 == bytes@[i] as u32,
{
    String::from_utf8(bytes).unwrap()
}

/// What holds of every generated password: the requested length, every
/// character from an enabled class, and every enabled class represented at
/// least once.
pub open spec fn genpass_ok(
    p: Seq<char>,
    length: u8,
    uppercase: bool,
    lowercase: bool,
    number: bool,
    symbol: bool,
) -> bool {
    &&& p.len() == length as int
    &&& forall|i: int|
        0 <= i < p.len() ==> char_in_enabled_class(
            #[trigger] p[i],
            uppercase,
            lowercase,
            number,
            symbol,
        )
    &&& uppercase ==> exists|i: int| 0 <= i < p.len() && is_upper_char(#[trigger] p[i])
    &&& lowercase ==> exists|i: int| 0 <= i < p.len() && is_lower_char(#[trigger] p[i])
    &&& number ==> exists|i: int| 0 <= i < p.len() && is_number_char(#[trigger] p[i])
    &&& symbol ==> exists|i: int| 0 <= i < p.len() && is_symbol_char(#[trigger] p[i])
}

/// Produces `length` characters, every one from an enabled class and with
/// every enabled class represented at least once; the guaranteed characters
/// are shuffled into the whole so they sit at no fixed position.
pub fn process_genpass(
    length: u8,
    uppercase: bool,
    lowercase: bool,
    number: bool,
    symbol: bool,
) -> (r: Result<String, CryptoError>)
    requires
        enabled_classes(uppercase, lowercase, number, symbol) <= length as int,
        length > 0 ==> enabled_classes(uppercase, lowercase, number, symbol) >= 1,
    ensures
        match r {
            Ok(p) => genpass_ok(p@, length, uppercase, lowercase, number, symbol),
            Err(_) => false,
        },
{
    broadcast use vstd::seq_lib::group_to_multiset_ensures;

    let mut rng = rng_new();
    let mut password: Vec<u8> = Vec::new();
    let mut chars: Vec<u8> = Vec::new();
    let ghost mut idx_upper: int = 0;
    let ghost mut idx_lower: int = 0;
    let ghost mut idx_number: int = 0;
    let ghost mut idx_symbol: int = 0;

    if uppercase {
        let pool = upper_chars();
        chars.extend_from_slice(pool.as_slice());
        let c = choose_byte(pool.as_slice(), &mut rng);
        proof {
            let j = choose|j: int| 0 <= j < pool@.len() && pool@[j] == c;
            assert(is_upper_byte(pool@[j]));
            idx_upper = password@.len() as int;
        }
        password.push(c);
    }
    if lowercase {
        let pool = lower_chars();
        chars.extend_from_slice(pool.as_slice());
        let c = choose_byte(pool.as_slice(), &mut rng);
        proof {
            let j = choose|j: int| 0 <= j < pool@.len() && pool@[j] == c;
            assert(is_lower_byte(pool@[j]));
            idx_lower = password@.len() as int;
        }
        password.push(c);
    }
    if number {
        let pool = number_chars();
        chars.extend_from_slice(pool.as_slice());
        let c = choose_byte(pool.as_slice(), &mut rng);
        proof {
            let j = choose|j: int| 0 <= j < pool@.len() && pool@[j] == c;
            assert(is_number_byte(pool@[j]));
            idx_number = password@.len() as int;
        }
        password.push(c);
    }
    if symbol {
        let pool = symbol_chars();
        chars.extend_from_slice(pool.as_slice());
        let c = choose_byte(pool.as_slice(), &mut rng);
        proof {
            let j = choose|j: int| 0 <= j < pool@.len() && pool@[j] == c;
            assert(is_symbol_byte(pool@[j]));
            idx_symbol = password@.len() as int;
        }
        password.push(c);
    }

    let target: usize = length as usize;
    while password.len() < target
        invariant
            password@.len() <= target,
            target == length as int,
            length > 0 ==> chars@.len() > 0,
            forall|i: int|
                0 <= i < chars@.len() ==> byte_in_enabled_class(
                    #[trigger] chars@[i],
                    uppercase,
                    lowercase,
                    number,
                    symbol,
                ),
            forall|i: int|
                0 <= i < password@.len() ==> byte_in_enabled_class(
                    #[trigger] password@[i],
                    uppercase,
                    lowercase,
                    number,
                    symbol,
                ),
            uppercase ==> 0 <= idx_upper < password@.len() && is_upper_byte(password@[idx_upper]),
            lowercase ==> 0 <= idx_lower < password@.len() && is_lower_byte(password@[idx_lower]),
            number ==> 0 <= idx_number < password@.len() && is_number_byte(
                password@[idx_number],
            ),
            symbol ==> 0 <= idx_symbol < password@.len() && is_symbol_byte(
                password@[idx_symbol],
            ),
        decreases target - password@.len(),
    {
        let c = choose_byte(chars.as_slice(), &mut rng);
        proof {
            let j = choose|j: int| 0 <= j < chars@.len() && chars@[j] == c;
            assert(byte_in_enabled_class(chars@[j], uppercase, lowercase, number, symbol));
        }
        password.push(c);
    }

    let ghost before_shuffle = password@;
    shuffle_bytes(&mut password, &mut rng);

    proof {
        assert forall|i: int|
            0 <= i < password@.len() implies byte_in_enabled_class(
            #[trigger] password@[i],
            uppercase,
            lowercase,
            number,
            symbol,
        ) by {
            assert(password@.contains(password@[i]));
            assert(before_shuffle.to_multiset().count(password@[i]) > 0);
            assert(before_shuffle.contains(password@[i]));
            let j = choose|j: int| 0 <= j < before_shuffle.len() && before_shuffle[j] == password@[i];
            assert(byte_in_enabled_class(before_shuffle[j], uppercase, lowercase, number, symbol));
        }
        if uppercase {
            assert(before_shuffle.contains(before_shuffle[idx_upper]));
            assert(password@.to_multiset().count(before_shuffle[idx_upper]) > 0);
            assert(password@.contains(before_shuffle[idx_upper]));
        }
        if lowercase {
            assert(before_shuffle.contains(before_shuffle[idx_lower]));
            assert(password@.to_multiset().count(before_shuffle[idx_lower]) > 0);
            assert(password@.contains(before_shuffle[idx_lower]));
        }
        if number {
            assert(before_shuffle.contains(before_shuffle[idx_number]));
            assert(password@.to_multiset().count(before_shuffle[idx_number]) > 0);
            assert(password@.contains(before_shuffle[idx_number]));
        }
        if symbol {
            assert(before_shuffle.contains(before_shuffle[idx_symbol]));
            assert(password@.to_multiset().count(before_shuffle[idx_symbol]) > 0);
            assert(password@.contains(before_shuffle[idx_symbol]));
        }
    }

    let ghost final_bytes = password@;
    assert(forall|i: int| 0 <= i < password@.len() ==> password@[i] < 128);
    let p = ascii_to_string(password);

    proof {
        assert forall|i: int|
            0 <= i < p@.len() implies char_in_enabled_class(
            #[trigger] p@[i],
            uppercase,
            lowercase,
            number,
            symbol,
        ) by {
            assert(byte_in_enabled_class(final_bytes[i], uppercase, lowercase, number, symbol));
            assert(p@[i] as u32 == final_bytes[i] as u32);
        }
        if uppercase {
            let b = before_shuffle[idx_upper];
            let j = choose|j: int| 0 <= j < final_bytes.len() && final_bytes[j] == b;
            assert(is_upper_byte(final_bytes[j]));
            assert(p@[j] as u32 == final_bytes[j] as u32);
            assert(is_upper_char(p@[j]));
        }
        if lowercase {
            let b = before_shuffle[idx_lower];
            let j = choose|j: int| 0 <= j < final_bytes.len() && final_bytes[j] == b;
            assert(is_lower_byte(final_bytes[j]));
            assert(p@[j] as u32 == final_bytes[j] as u32);
            assert(is_lower_char(p@[j]));
        }
        if number {
            let b = before_shuffle[idx_number];
            let j = choose|j: int| 0 <= j < final_bytes.len() && final_bytes[j] == b;
            assert(is_number_byte(final_bytes[j]));
            assert(p@[j] as u32 == final_bytes[j] as u32);
            assert(is_number_char(p@[j]));
        }
        if symbol {
            let b = before_shuffle[idx_symbol];
            let j = choose|j: int| 0 <= j < final_bytes.len() && final_bytes[j] == b;
            assert(is_symbol_byte(final_bytes[j]));
            assert(p@[j] as u32 == final_bytes[j] as u32);
            assert(is_symbol_char(p@[j]));
        }
    }

    proof {
        assert(genpass_ok(p@, length, uppercase, lowercase, number, symbol));
    }
    Ok(p)
}

} // verus!
