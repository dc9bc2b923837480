//! Random passwords over chosen classes of characters.

use crate::error::TextError;
use crate::utils::ascii_string;
use vstd::prelude::*;
use vstd::utf8::*;

verus! {

/// The lower-case letters on offer, `a` to `z` without `l`, by their ASCII codes.
pub open spec fn lowercase_chars() -> Seq<u8> {
    seq![
        97u8, 98, 99, 100, 101, 102, 103, 104, 105, 106, 107, 109, 110,
        111, 112, 113, 114, 115, 116, 117, 118, 119, 120, 121, 122,
    ]
}

/// The upper-case letters on offer, `A` to `Z` without `I` and `O`, by their
/// ASCII codes.
pub open spec fn uppercase_chars() -> Seq<u8> {
    seq![
        65u8, 66, 67, 68, 69, 70, 71, 72, 74, 75, 76, 77, 78,
        80, 81, 82, 83, 84, 85, 86, 87, 88, 89, 90,
    ]
}

/// The digits on offer, `1` to `9`, by their ASCII codes.
pub open spec fn number_chars() -> Seq<u8> {
    seq![49u8, 50, 51, 52, 53, 54, 55, 56, 57]
}

/// The symbols on offer, `!@#$%^&*()-_=+`, by their ASCII codes.
pub open spec fn symbol_chars() -> Seq<u8> {
    seq![
        33u8, 64, 35, 36, 37, 94, 38, 42, 40, 41, 45, 95, 61,
        43,
    ]
}

/// The characters that a password may hold, given the classes chosen.
pub open spec fn char_pool(lowercase: bool, uppercase: bool, number: bool, symbol: bool) -> Seq<
    u8,
> {
    (if lowercase {
        lowercase_chars()
    } else {
        Seq::<u8>::empty()
    }) + (if uppercase {
        uppercase_chars()
    } else {
        Seq::<u8>::empty()
    }) + (if number {
        number_chars()
    } else {
        Seq::<u8>::empty()
    }) + (if symbol {
        symbol_chars()
    } else {
        Seq::<u8>::empty()
    })
}

/// How many classes are chosen.
pub open spec fn class_count(lowercase: bool, uppercase: bool, number: bool, symbol: bool) -> int {
    (if lowercase {
        1int
    } else {
        0int
    }) + (if uppercase {
        1int
    } else {
        0int
    }) + (if number {
        1int
    } else {
        0int
    }) + (if symbol {
        1int
    } else {
        0int
    })
}

/// Whether `password` holds a character of `class`.
pub open spec fn has_char_of(password: Seq<u8>, class: Seq<u8>) -> bool {
    exists|b: u8| password.contains(b) && class.contains(b)
}

/// What holds of every password made for `length` and the chosen classes:
/// it has that length, draws only on the chosen classes, and holds a
/// character of each of them.
pub open spec fn is_password(
    password: Seq<u8>,
    length: u8,
    lowercase: bool,
    uppercase: bool,
    number: bool,
    symbol: bool,
) -> bool {
    &&& password.len() == length
    &&& forall|b: u8| #[trigger]
        password.contains(b) ==> char_pool(lowercase, uppercase, number, symbol).contains(b)
    &&& lowercase ==> has_char_of(password, lowercase_chars())
    &&& uppercase ==> has_char_of(password, uppercase_chars())
    &&& number ==> has_char_of(password, number_chars())
    &&& symbol ==> has_char_of(password, symbol_chars())
}

/// The inputs for which a password can be made: a place for one character
/// of each chosen class, and a class to draw on unless nothing is asked for.
pub open spec fn can_generate(
    length: u8,
    lowercase: bool,
    uppercase: bool,
    number: bool,
    symbol: bool,
) -> bool {
    &&& class_count(lowercase, uppercase, number, symbol) <= length
    &&& length > 0 ==> class_count(lowercase, uppercase, number, symbol) > 0
}

/// Calls `SliceRandom::choose` with the thread's generator: one element of
/// the slice, or nothing where the slice is empty.
#[verifier::external_body]
fn choose_byte(pool: &[u8]) -> (c: Option<u8>)
    ensures
        match c {
            Some(b) => pool@.contains(b),
            None => pool@.len() == 0,
        },
{
    ::rand::seq::SliceRandom::choose(pool, &mut ::rand::thread_rng()).copied()
}

/// Calls `SliceRandom::shuffle` with the thread's generator: the same
/// elements in some order.
#[verifier::external_body]
fn shuffle_bytes(items: &mut Vec<u8>)
    ensures
        final(items)@.to_multiset() == old(items)@.to_multiset(),
{
    ::rand::seq::SliceRandom::shuffle(items.as_mut_slice(), &mut ::rand::thread_rng())
}

/// The lower-case letters on offer.
fn lowercase_class() -> (class: Vec<u8>)
    ensures
        class@ == lowercase_chars(),
{
    let class = vec![
        97u8, 98, 99, 100, 101, 102, 103, 104, 105, 106, 107, 109, 110,
        111, 112, 113, 114, 115, 116, 117, 118, 119, 120, 121, 122,
    ];
    proof {
        assert(class@ =~= lowercase_chars());
    }
    class
}

/// The upper-case letters on offer.
fn uppercase_class() -> (class: Vec<u8>)
    ensures
        class@ == uppercase_chars(),
{
    let class = vec![
        65u8, 66, 67, 68, 69, 70, 71, 72, 74, 75, 76, 77, 78,
        80, 81, 82, 83, 84, 85, 86, 87, 88, 89, 90,
    ];
    proof {
        assert(class@ =~= uppercase_chars());
    }
    class
}

/// The digits on offer.
fn number_class() -> (class: Vec<u8>)
    ensures
        class@ == number_chars(),
{
    let class = vec![49u8, 50, 51, 52, 53, 54, 55, 56, 57];
    proof {
        assert(class@ =~= number_chars());
    }
    class
}

/// The symbols on offer.
fn symbol_class() -> (class: Vec<u8>)
    ensures
        class@ == symbol_chars(),
{
    let class = vec![
        33u8, 64, 35, 36, 37, 94, 38, 42, 40, 41, 45, 95, 61,
        43,
    ];
    proof {
        assert(class@ =~= symbol_chars());
    }
    class
}

/// An element of a non-empty pool, drawn at random.
fn pick(pool: &[u8]) -> (b: u8)
    requires
        pool@.len() > 0,
    ensures
        pool@.contains(b),
{
    match choose_byte(pool) {
        Some(b) => b,
        None => 0,
    }
}

/// What either of two sequences holds, their concatenation holds.
proof fn lemma_concat_contains(front: Seq<u8>, back: Seq<u8>, b: u8)
    requires
        front.contains(b) || back.contains(b),
    ensures
        (front + back).contains(b),
{
    if front.contains(b) {
        let i = choose|i: int| 0 <= i < front.len() && front[i] == b;
        assert((front + back)[i] == b);
    } else {
        let i = choose|i: int| 0 <= i < back.len() && back[i] == b;
        assert((front + back)[front.len() + i] == b);
    }
}

/// Two sequences with the same elements, each as often, have the same
/// length and hold the same values.
proof fn lemma_same_elements(a: Seq<u8>, b: Seq<u8>)
    requires
        a.to_multiset() == b.to_multiset(),
    ensures
        a.len() == b.len(),
        forall|x: u8| a.contains(x) <==> b.contains(x),
{
    a.to_multiset_ensures();
    b.to_multiset_ensures();
    assert forall|x: u8| a.contains(x) <==> b.contains(x) by {
        assert(a.contains(x) <==> a.to_multiset().count(x) > 0);
        assert(b.contains(x) <==> b.to_multiset().count(x) > 0);
    }
}

/// A reordering keeps a character of each class that was there.
proof fn lemma_keeps_char_of(a: Seq<u8>, b: Seq<u8>, class: Seq<u8>)
    requires
        a.to_multiset() == b.to_multiset(),
        has_char_of(a, class),
    ensures
        has_char_of(b, class),
{
    lemma_same_elements(a, b);
    let x = choose|x: u8| a.contains(x) && class.contains(x);
    assert(b.contains(x) && class.contains(x));
}

/// Every character on offer is ASCII.
proof fn lemma_pool_is_ascii(lowercase: bool, uppercase: bool, number: bool, symbol: bool, b: u8)
    requires
        char_pool(lowercase, uppercase, number, symbol).contains(b),
    ensures
        b < 128,
{
    let pool = char_pool(lowercase, uppercase, number, symbol);
    let i = choose|i: int| 0 <= i < pool.len() && pool[i] == b;
    assert(pool[i] < 128);
}

/// Adds the characters of `class` to the pool and one of them, drawn at
/// random, to the password.
fn take_class(class: Vec<u8>, chars: &mut Vec<u8>, password: &mut Vec<u8>)
    requires
        class@.len() > 0,
        forall|b: u8| #[trigger] old(password)@.contains(b) ==> old(chars)@.contains(b),
    ensures
        final(chars)@ == old(chars)@ + class@,
        final(password)@.len() == old(password)@.len() + 1,
        has_char_of(final(password)@, class@),
        forall|b: u8| #[trigger] old(password)@.contains(b) ==> final(password)@.contains(b),
        forall|b: u8| #[trigger] final(password)@.contains(b) ==> final(chars)@.contains(b),
{
    let c = pick(class.as_slice());
    chars.extend_from_slice(class.as_slice());
    password.push(c);
    proof {
        let before = old(password)@;
        assert(chars@ =~= old(chars)@ + class@);
        assert(password@[before.len() as int] == c);
        assert(password@.contains(c));
        assert forall|b: u8| #[trigger] before.contains(b) implies password@.contains(b) by {
            let i = choose|i: int| 0 <= i < before.len() && before[i] == b;
            assert(password@[i] == b);
        }
        assert forall|b: u8| #[trigger] password@.contains(b) implies chars@.contains(b) by {
            let i = choose|i: int| 0 <= i < password@.len() && password@[i] == b;
            if i < before.len() {
                assert(before[i] == b);
                assert(before.contains(b));
            }
            lemma_concat_contains(old(chars)@, class@, b);
        }
    }
}

/// Makes a password of `length` characters over the chosen classes: one
/// character of each class, the rest from all of them, in random order.
pub fn process_gen_pass(
    length: u8,
    lowercase: bool,
    uppercase: bool,
    number: bool,
    symbol: bool,
) -> (r: Result<String, TextError>)
    requires
        can_generate(length, lowercase, uppercase, number, symbol),
    ensures
        r matches Ok(password) && is_password(
            encode_utf8(password@),
            length,
            lowercase,
            uppercase,
            number,
            symbol,
        ),
{
    let mut password: Vec<u8> = Vec::new();
    let mut chars: Vec<u8> = Vec::new();
    if lowercase {
        take_class(lowercase_class(), &mut chars, &mut password);
    }
    if uppercase {
        take_class(uppercase_class(), &mut chars, &mut password);
    }
    if number {
        take_class(number_class(), &mut chars, &mut password);
    }
    if symbol {
        take_class(symbol_class(), &mut chars, &mut password);
    }
    proof {
        assert(chars@ =~= char_pool(lowercase, uppercase, number, symbol));
    }
    while password.len() < length as usize
        invariant
            password@.len() <= length,
            chars@ == char_pool(lowercase, uppercase, number, symbol),
            chars@.len() > 0 || length == 0,
            forall|b: u8| #[trigger] password@.contains(b) ==> chars@.contains(b),
            lowercase ==> has_char_of(password@, lowercase_chars()),
            uppercase ==> has_char_of(password@, uppercase_chars()),
            number ==> has_char_of(password@, number_chars()),
            symbol ==> has_char_of(password@, symbol_chars()),
        decreases length - password@.len(),
    {
        let c = pick(chars.as_slice());
        let ghost before = password@;
        password.push(c);
        proof {
            assert forall|b: u8| #[trigger] before.contains(b) implies password@.contains(b) by {
                let i = choose|i: int| 0 <= i < before.len() && before[i] == b;
                assert(password@[i] == b);
            }
            assert forall|b: u8| #[trigger] password@.contains(b) implies chars@.contains(b) by {
                let i = choose|i: int| 0 <= i < password@.len() && password@[i] == b;
                if i < before.len() {
                    assert(before[i] == b);
                    assert(before.contains(b));
                }
            }
        }
    }
    let ghost drawn = password@;
    shuffle_bytes(&mut password);
    proof {
        lemma_same_elements(drawn, password@);
        assert forall|i: int| 0 <= i < password@.len() implies #[trigger] password@[i] < 128 by {
            assert(password@.contains(password@[i]));
            lemma_pool_is_ascii(lowercase, uppercase, number, symbol, password@[i]);
        }
        if lowercase {
            lemma_keeps_char_of(drawn, password@, lowercase_chars());
        }
        if uppercase {
            lemma_keeps_char_of(drawn, password@, uppercase_chars());
        }
        if number {
            lemma_keeps_char_of(drawn, password@, number_chars());
        }
        if symbol {
            lemma_keeps_char_of(drawn, password@, symbol_chars());
        }
    }
    let text = ascii_string(password);
    Ok(text)
}

} // verus!
