//! Display names of waiting matches.
//!
//! A match's name is one capital letter, repeated. Counting identifiers from
//! zero, the letter cycles through the alphabet and the number of repetitions
//! grows by one with every full cycle: 1 is "A", 26 is "Z", 27 is "AA", 28 is
//! "BB".

use vstd::prelude::*;
use crate::ident::Id;

verus! {

/// The letter that the name of identifier `id` is made of.
pub open spec fn name_letter(id: nat) -> char
    recommends
        id >= 1,
{
    ('A' as int + (id - 1) % 26) as char
}

/// How many letters the name of identifier `id` has.
pub open spec fn name_len(id: nat) -> nat
    recommends
        id >= 1,
{
    ((id - 1) / 26 + 1) as nat
}

/// The name of identifier `id`.
pub open spec fn name_of(id: nat) -> Seq<char>
    recommends
        id >= 1,
{
    Seq::new(name_len(id), |i: int| name_letter(id))
}

/// `String::push` of the standard library appends the given character to the
/// end of the string and changes nothing else.
pub assume_specification[ String::push ](s: &mut String, ch: char)
    ensures
        final(s)@ == old(s)@.push(ch),
;

/// Computes the display name of a match identifier.
pub fn name_for(id: Id) -> (name: String)
    requires
        id@ >= 1,
    ensures
        name@ == name_of(id@),
{
    let n: usize = id.0 - 1;
    let letter: char = (65u8 + (n % 26) as u8) as char;
    let repeat: usize = n / 26 + 1;
    let mut name = String::new();
    let mut i: usize = 0;
    while i < repeat
        invariant
            i <= repeat,
            repeat == name_len(id@),
            letter == name_letter(id@),
            name@ == Seq::new(i as nat, |k: int| letter),
        decreases repeat - i,
    {
        name.push(letter);
        i = i + 1;
    }
    name
}

/// Different identifiers have different names.
pub proof fn lemma_name_of_injective(a: nat, b: nat)
    requires
        a >= 1,
        b >= 1,
        name_of(a) == name_of(b),
    ensures
        a == b,
{
    assert(name_len(a) == name_len(b)) by {
        assert(name_of(a).len() == name_len(a));
        assert(name_of(b).len() == name_len(b));
    }
    assert(name_letter(a) == name_letter(b)) by {
        assert(name_of(a)[0] == name_letter(a));
        assert(name_of(b)[0] == name_letter(b));
    }
    assert(name_letter(a) as int == 'A' as int + (a - 1) % 26);
    assert(name_letter(b) as int == 'A' as int + (b - 1) % 26);
}

} // verus!
