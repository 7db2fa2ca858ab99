//! The demo operations: fixed greeting texts, a parameterized greeting
//! driven by query options, and the wave text. These are not
//! correctness-critical, but they must not shadow the search and product
//! routes, so they live in the same route table.

use vstd::prelude::*;
use crate::bytes::{lit, dec_digits, u8_decimal, push_all, bytes_eq};
use crate::query::last_value;

verus! {

/// The greeting languages the demo understands.
pub enum Lang {
    English,
    Russian,
}

/// The language selected by the `lang` option: `en` is English, `ru` and
/// its localized spelling are Russian, anything else selects none.
pub open spec fn lang_of(pairs: Seq<(Seq<u8>, Seq<u8>)>) -> Option<Lang> {
    match last_value(pairs, lit("lang")) {
        Some(v) => if v == lit("en") {
            Some(Lang::English)
        } else if v == lit("ru") || v == lit("\u{0440}\u{0443}") {
            Some(Lang::Russian)
        } else {
            None
        },
        None => None,
    }
}

/// The `emoji` flag: present with an empty or `true` value.
pub open spec fn emoji_of(pairs: Seq<(Seq<u8>, Seq<u8>)>) -> bool {
    match last_value(pairs, lit("emoji")) {
        Some(v) => v == lit("") || v == lit("true"),
        None => false,
    }
}

/// The `name` option, when present.
pub open spec fn name_of(pairs: Seq<(Seq<u8>, Seq<u8>)>) -> Option<Seq<u8>> {
    last_value(pairs, lit("name"))
}

/// The greeting: an optional waving hand, a salutation in the selected
/// language, an optional name, and an exclamation mark.
pub open spec fn greeting_text(lang: Option<Lang>, emoji: bool, name: Option<Seq<u8>>) -> Seq<u8> {
    (if emoji {
        lit("\u{1f44b} ")
    } else {
        Seq::<u8>::empty()
    }) + (match lang {
        Some(Lang::Russian) => lit("\u{041f}\u{0440}\u{0438}\u{0432}\u{0435}\u{0442}"),
        Some(Lang::English) => lit("Hello"),
        None => lit("Hi"),
    }) + (match name {
        Some(n) => lit(", ") + n,
        None => Seq::<u8>::empty(),
    }) + lit("!")
}

/// The greeting that a parsed query selects.
pub open spec fn greeting_of(pairs: Seq<(Seq<u8>, Seq<u8>)>) -> Seq<u8> {
    greeting_text(lang_of(pairs), emoji_of(pairs), name_of(pairs))
}

/// The value of the last pair with the given key, if any.
pub fn lookup_last<'a>(pairs: &'a Vec<(Vec<u8>, Vec<u8>)>, key: &[u8]) -> (r: Option<&'a Vec<u8>>)
    ensures
        match r {
            Some(v) => last_value(pairs.deep_view(), key@) == Some(v@),
            None => last_value(pairs.deep_view(), key@) is None,
        },
{
    let ghost pv = pairs.deep_view();
    let mut i: usize = pairs.len();
    proof {
        assert(pv.take(pv.len() as int) =~= pv);
    }
    while i > 0
        invariant
            0 <= i <= pairs@.len(),
            pv == pairs.deep_view(),
            pv.len() == pairs@.len(),
            last_value(pv, key@) == last_value(pv.take(i as int), key@),
        decreases i,
    {
        proof {
            assert(pv[i - 1] == (pairs@[i - 1].0@, pairs@[i - 1].1@));
            assert(pv.take(i as int).last() == pv[i - 1]);
            assert(pv.take(i as int).drop_last() =~= pv.take(i - 1));
        }
        if bytes_eq(pairs[i - 1].0.as_slice(), key) {
            return Some(&pairs[i - 1].1);
        }
        i = i - 1;
    }
    proof {
        assert(pv.take(0) =~= Seq::<(Seq<u8>, Seq<u8>)>::empty());
    }
    None
}

/// Build the greeting that a parsed query selects.
pub fn greeting(pairs: &Vec<(Vec<u8>, Vec<u8>)>) -> (r: Vec<u8>)
    ensures
        r@ == greeting_of(pairs.deep_view()),
{
    let ghost pv = pairs.deep_view();
    let mut out: Vec<u8> = Vec::new();
    let emoji = match lookup_last(pairs, "emoji".as_bytes()) {
        Some(v) => bytes_eq(v.as_slice(), "".as_bytes()) || bytes_eq(
            v.as_slice(),
            "true".as_bytes(),
        ),
        None => false,
    };
    assert(emoji == emoji_of(pv));
    if emoji {
        push_all(&mut out, "\u{1f44b} ".as_bytes());
    }
    match lookup_last(pairs, "lang".as_bytes()) {
        Some(v) => {
            if bytes_eq(v.as_slice(), "en".as_bytes()) {
                push_all(&mut out, "Hello".as_bytes());
            } else if bytes_eq(v.as_slice(), "ru".as_bytes()) || bytes_eq(
                v.as_slice(),
                "\u{0440}\u{0443}".as_bytes(),
            ) {
                push_all(&mut out, "\u{041f}\u{0440}\u{0438}\u{0432}\u{0435}\u{0442}".as_bytes());
            } else {
                push_all(&mut out, "Hi".as_bytes());
            }
        },
        None => {
            push_all(&mut out, "Hi".as_bytes());
        },
    }
    match lookup_last(pairs, "name".as_bytes()) {
        Some(n) => {
            push_all(&mut out, ", ".as_bytes());
            push_all(&mut out, n.as_slice());
        },
        None => {},
    }
    push_all(&mut out, "!".as_bytes());
    proof {
        assert(out@ =~= greeting_of(pv));
    }
    out
}

/// The fixed English greeting.
pub open spec fn world_text() -> Seq<u8> {
    lit("Hello, world!")
}

/// The fixed localized greeting.
pub open spec fn mir_text() -> Seq<u8> {
    lit(
        "\u{041f}\u{0440}\u{0438}\u{0432}\u{0435}\u{0442}, \u{043c}\u{0438}\u{0440}!",
    )
}

/// The wave text for a name and an age.
pub open spec fn wave_text(name: Seq<u8>, age: u8) -> Seq<u8> {
    lit("\u{1f44b} Hello, ") + dec_digits(age) + lit(" year old named ") + name + lit("!")
}

/// Render the fixed English greeting.
pub fn world_greeting() -> (r: Vec<u8>)
    ensures
        r@ == world_text(),
{
    let mut out: Vec<u8> = Vec::new();
    push_all(&mut out, "Hello, world!".as_bytes());
    proof {
        assert(out@ =~= world_text());
    }
    out
}

/// Render the fixed localized greeting.
pub fn mir_greeting() -> (r: Vec<u8>)
    ensures
        r@ == mir_text(),
{
    let mut out: Vec<u8> = Vec::new();
    push_all(
        &mut out,
        "\u{041f}\u{0440}\u{0438}\u{0432}\u{0435}\u{0442}, \u{043c}\u{0438}\u{0440}!".as_bytes(),
    );
    proof {
        assert(out@ =~= mir_text());
    }
    out
}

/// Render the wave text.
pub fn wave_greeting(name: &[u8], age: u8) -> (r: Vec<u8>)
    ensures
        r@ == wave_text(name@, age),
{
    let mut out: Vec<u8> = Vec::new();
    push_all(&mut out, "\u{1f44b} Hello, ".as_bytes());
    let digits = u8_decimal(age);
    push_all(&mut out, digits.as_slice());
    push_all(&mut out, " year old named ".as_bytes());
    push_all(&mut out, name);
    push_all(&mut out, "!".as_bytes());
    proof {
        assert(out@ =~= wave_text(name@, age));
    }
    out
}

} // verus!
