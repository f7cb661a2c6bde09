//! What holds between writing a note and reading a note name.

use crate::grammar::{
    all_digits, decimal_text, digit_value, is_canonical_register, is_digit, is_magnitude,
    is_register, numeral, numeral_value, register_value,
};
use crate::notes::{accidental_text, parse_note, register_text, Accidental, Note, NoteLetter};
use vstd::prelude::*;

verus! {

/// A bare letter reads as the natural note of that letter without a
/// register, and that note renders as the bare letter.
pub proof fn lemma_bare_letter_round_trip(letter: NoteLetter)
    ensures
        parse_note(seq![letter.symbol()]) == Some(Note { letter, acc: None, n: None }),
        (Note { letter, acc: None, n: None }).text() == seq![letter.symbol()],
{
    assert((Note { letter, acc: None, n: None }).spelling() =~= seq![letter.symbol()]);
}

/// Rendering, reading and rendering again gives the first rendering: the
/// rendering of a note whose register fits the grammar reads as the
/// normalized note, and that renders as the note did.
pub proof fn lemma_render_read_render(note: Note)
    requires
        note.is_readable(),
    ensures
        parse_note(note.text()) == Some(note.normalized()),
        parse_note(note.text()).unwrap().text() == note.text(),
{
    lemma_normalized_idempotent(note);
    lemma_parse_spelling(note.normalized());
}

/// Reading a note name and rendering the note gives the name back exactly
/// if the name spells no collapsing pair and its register is canonical.
pub proof fn lemma_read_render(s: Seq<char>)
    requires
        parse_note(s) is Some,
    ensures
        ({
            let note = parse_note(s).unwrap();
            let head = seq![note.letter.symbol()] + accidental_text(note.acc);
            note.text() == s <==> note.normalized() == note && is_canonical_register(
                s.skip(head.len() as int),
            )
        }),
{
    let note = parse_note(s).unwrap();
    let head = seq![note.letter.symbol()] + accidental_text(note.acc);
    let register = s.skip(head.len() as int);
    let rendered = register_text(note.n);
    lemma_parse_decomposes(s);
    lemma_register_renders_back(register);
    if note.normalized() == note {
        // both texts begin with `head`, so they agree exactly if what follows agrees
        assert(note.text() == head + rendered);
        assert((head + rendered).skip(head.len() as int) =~= rendered);
    } else {
        // a collapsed spelling begins with another letter
        assert(note.text()[0] != s[0]);
    }
}

/// Reading the unnormalized spelling of a note gives the note back, field
/// for field, as long as its register fits the grammar.
pub proof fn lemma_parse_spelling(note: Note)
    requires
        note.is_readable(),
    ensures
        parse_note(note.spelling()) == Some(note),
{
    if let Some(v) = note.n {
        lemma_decimal_text_is_register(v);
    }
    lemma_parse_composes(note.letter, note.acc, register_text(note.n));
}

/// Neither the spelling nor the rendering of a note whose register has three
/// digits is a note name.
pub proof fn lemma_three_digits_are_unreadable(note: Note)
    requires
        !note.is_readable(),
    ensures
        parse_note(note.spelling()) is None,
        parse_note(note.text()) is None,
{
    let v = note.n.unwrap();
    let shown = note.normalized();
    lemma_decimal_text_is_register(v);
    lemma_decimal_text_begins(v);
    lemma_parse_splits(note.letter, note.acc, register_text(note.n));
    lemma_parse_splits(shown.letter, shown.acc, register_text(shown.n));
}

/// A letter, an optional accidental and a register, written one after the
/// other, read as the note with exactly those fields.
pub proof fn lemma_parse_composes(letter: NoteLetter, acc: Option<Accidental>, register: Seq<char>)
    requires
        is_register(register),
    ensures
        parse_note(seq![letter.symbol()] + accidental_text(acc) + register) == Some(
            Note { letter, acc, n: register_value(register) },
        ),
{
    if register.len() > 0 {
        // a register begins with a minus sign or a digit
        assert(register[0] == '-' || is_digit(register[0]));
    }
    lemma_parse_splits(letter, acc, register);
}

/// All that follows the letter and the accidental is taken for the register:
/// the text is a note name exactly if that is one. Where no accidental is
/// written, what follows must not begin with one.
pub proof fn lemma_parse_splits(letter: NoteLetter, acc: Option<Accidental>, rest: Seq<char>)
    requires
        acc is None && rest.len() > 0 ==> Accidental::from_symbol(rest[0]) is None,
    ensures
        parse_note(seq![letter.symbol()] + accidental_text(acc) + rest) == if is_register(rest) {
            Some(Note { letter, acc, n: register_value(rest) })
        } else {
            None
        },
{
    let s = seq![letter.symbol()] + accidental_text(acc) + rest;
    match acc {
        Some(a) => {
            assert(s[1] == a.symbol());
            assert(s.skip(2) =~= rest);
        },
        None => {
            if rest.len() > 0 {
                assert(s[1] == rest[0]);
            }
            assert(s.skip(1) =~= rest);
        },
    }
}

/// Whatever reads as a note is that note's letter, then its accidental if it
/// has one, then a register that denotes its register number; it has at most
/// five characters.
pub proof fn lemma_parse_decomposes(s: Seq<char>)
    requires
        parse_note(s) is Some,
    ensures
        ({
            let note = parse_note(s).unwrap();
            let head = seq![note.letter.symbol()] + accidental_text(note.acc);
            &&& s == head + s.skip(head.len() as int)
            &&& is_register(s.skip(head.len() as int))
            &&& note.n == register_value(s.skip(head.len() as int))
            &&& note.is_readable()
        }),
        1 <= s.len() <= 5,
{
    let note = parse_note(s).unwrap();
    let head = seq![note.letter.symbol()] + accidental_text(note.acc);
    let register = s.skip(head.len() as int);
    assert(s =~= head + register);
    lemma_register_value_bounds(register);
}

/// Normalizing twice is normalizing once: a normalized note renders as the
/// note does, and is readable exactly if the note is.
pub proof fn lemma_normalized_idempotent(note: Note)
    ensures
        note.normalized().normalized() == note.normalized(),
        note.normalized().text() == note.text(),
        note.normalized().is_readable() == note.is_readable(),
{
}

/// Normalizing keeps the pitch and the register, and removes the accidental
/// exactly where a natural letter has the pitch of the note: a note keeps an
/// accidental only if no natural letter lies where the accidental moves it.
pub proof fn lemma_normalized_is_enharmonic(note: Note)
    ensures
        note.normalized().pitch_class() == note.pitch_class(),
        note.normalized().n == note.n,
        note.normalized().acc is None <==> exists|natural: NoteLetter|
            #[trigger] natural.semitone() == note.pitch_class(),
        note.normalized().acc is Some ==> note.normalized() == note,
{
    if note.normalized().acc is None {
        assert(note.normalized().letter.semitone() == note.pitch_class());
    }
}

/// A rendering never shows an accidental that collapses: after `B` and `E`
/// no sharp is written, and after `C` and `F` no flat.
pub proof fn lemma_text_shows_no_collapsing_pair(note: Note)
    ensures
        note.text().len() >= 1,
        note.text().len() >= 2 && (note.text()[0] == 'B' || note.text()[0] == 'E')
            ==> note.text()[1] != '#',
        note.text().len() >= 2 && (note.text()[0] == 'C' || note.text()[0] == 'F')
            ==> note.text()[1] != 'b',
{
    let shown = note.normalized();
    if let Some(v) = shown.n {
        // where no accidental is written, a minus sign or a digit follows the letter
        lemma_decimal_text_begins(v);
    }
}

/// Each letter and each accidental is the one that its own character writes,
/// and no two of them share a character.
pub proof fn lemma_symbols_round_trip(letter: NoteLetter, acc: Accidental, c: char)
    ensures
        NoteLetter::from_symbol(letter.symbol()) == Some(letter),
        Accidental::from_symbol(acc.symbol()) == Some(acc),
        NoteLetter::from_symbol(c) == Some(letter) <==> c == letter.symbol(),
        Accidental::from_symbol(c) == Some(acc) <==> c == acc.symbol(),
{
}

/// The decimal text of an integer is a register exactly if the integer has
/// at most two digits, and then the register denotes that integer.
pub proof fn lemma_decimal_text_is_register(v: i8)
    ensures
        is_register(decimal_text(v as int)) <==> -99 <= v <= 99,
        -99 <= v <= 99 ==> register_value(decimal_text(v as int)) == Some(v),
{
    let text = decimal_text(v as int);
    if v < 0 {
        let m = (-v) as nat;
        lemma_numeral_denotes(m);
        lemma_numeral_len(m);
        assert(text.skip(1) =~= numeral(m));
    } else {
        let m = v as nat;
        lemma_numeral_denotes(m);
        lemma_numeral_len(m);
    }
}

/// The decimal text of an integer begins with a minus sign or a digit.
pub proof fn lemma_decimal_text_begins(v: i8)
    ensures
        decimal_text(v as int).len() >= 1,
        decimal_text(v as int)[0] == '-' || is_digit(decimal_text(v as int)[0]),
{
    if v >= 0 {
        lemma_numeral_denotes(v as nat);
        assert(is_digit(numeral(v as nat)[0]));
    }
}

/// Rendering the number that a register denotes gives the register back
/// exactly if the register is canonical: `07`, `00` and `-0` are registers
/// that no number renders as.
pub proof fn lemma_register_renders_back(register: Seq<char>)
    requires
        is_register(register),
    ensures
        register_text(register_value(register)) == register <==> is_canonical_register(register),
{
    let text = register_text(register_value(register));
    if register.len() == 0 {
        assert(text =~= register);
    } else {
        let negative = register[0] == '-';
        let digits = if negative {
            register.skip(1)
        } else {
            register
        };
        let m = numeral_value(digits);
        lemma_magnitude_value(digits);
        reveal_with_fuel(numeral, 2);
        if digits.len() == 1 || digits[0] != '0' {
            // the digits are the numeral of what they denote
            assert(numeral(m) =~= digits);
            if negative && m != 0 {
                assert(register =~= seq!['-'] + digits);
            }
        } else {
            // a numeral below ten has one digit, not two
            assert(numeral(m).len() == 1);
        }
    }
}

/// A register denotes no number, or one of at most two digits.
pub proof fn lemma_register_value_bounds(register: Seq<char>)
    requires
        is_register(register),
    ensures
        register.len() <= 3,
        register_value(register) matches Some(v) ==> -99 <= v <= 99,
        register_value(register) is None <==> register.len() == 0,
{
    if register.len() > 0 {
        lemma_magnitude_value(
            if register[0] == '-' {
                register.skip(1)
            } else {
                register
            },
        );
    }
}

/// One digit denotes its value; two digits denote ten times the first and
/// the second.
pub proof fn lemma_magnitude_value(digits: Seq<char>)
    requires
        is_magnitude(digits),
    ensures
        digits.len() == 1 ==> numeral_value(digits) == digit_value(digits[0]),
        digits.len() == 2 ==> numeral_value(digits) == 10 * digit_value(digits[0])
            + digit_value(digits[1]),
        numeral_value(digits) <= 99,
{
    reveal_with_fuel(numeral_value, 3);
    assert(is_digit(digits[0]));
    if digits.len() == 2 {
        assert(is_digit(digits[1]));
        assert(digits.drop_last().last() == digits[0]);
    }
}

/// A numeral is made of digits only, and denotes the number that it was
/// written for.
pub proof fn lemma_numeral_denotes(m: nat)
    ensures
        numeral(m).len() >= 1,
        all_digits(numeral(m)),
        numeral_value(numeral(m)) == m,
    decreases m,
{
    if m < 10 {
        reveal_with_fuel(numeral_value, 2);
    } else {
        lemma_numeral_denotes(m / 10);
        assert(numeral(m).drop_last() =~= numeral(m / 10));
    }
}

/// A numeral has one digit below ten, two digits below a hundred, and more
/// than two from there on.
pub proof fn lemma_numeral_len(m: nat)
    ensures
        m < 10 ==> numeral(m).len() == 1,
        10 <= m < 100 ==> numeral(m).len() == 2,
        100 <= m ==> numeral(m).len() >= 3,
    decreases m,
{
    if m >= 10 {
        lemma_numeral_len(m / 10);
    }
}

} // verus!
