//! The note model: letters, accidentals and notes, how a note is written and
//! how a note name is read.

use crate::grammar::{append_decimal, decimal_text, is_register, parse_register, register_value};
use vstd::prelude::*;

verus! {

/// A single semitone offset applied to a letter: `Sharp` raises it, `Flat`
/// lowers it. A letter without an accidental is natural.
#[derive(Clone, Copy, Debug, PartialEq, Eq, Structural)]
pub enum Accidental {
    Sharp,
    Flat,
}

/// The seven note letters, in their musical order.
#[derive(Clone, Copy, Debug, PartialEq, Eq, Structural)]
pub enum NoteLetter {
    A,
    B,
    C,
    D,
    E,
    F,
    G,
}

/// Why a piece of text could not be read.
#[derive(Debug, PartialEq, Eq)]
pub enum ParseError {
    /// The text is not a note name; it is carried along for diagnostics.
    InvalidNote(String),
    /// A character other than `#` and `b` was handed to the accidental decoder.
    InvalidAccidental,
}

/// A note as it was written: a letter, an optional accidental and an optional
/// register number. Nothing is normalized in the value itself; only its
/// rendering collapses enharmonic spellings.
#[derive(Clone, Copy, Debug, PartialEq, Eq, Structural)]
pub struct Note {
    pub letter: NoteLetter,
    pub acc: Option<Accidental>,
    pub n: Option<i8>,
}

impl Accidental {
    /// The character that writes this accidental.
    pub open spec fn symbol(self) -> char {
        match self {
            Accidental::Sharp => '#',
            Accidental::Flat => 'b',
        }
    }

    /// The offset that this accidental applies, in semitones.
    pub open spec fn offset(self) -> int {
        match self {
            Accidental::Sharp => 1,
            Accidental::Flat => -1,
        }
    }

    /// The accidental that `c` writes, if it writes one.
    pub open spec fn from_symbol(c: char) -> Option<Accidental> {
        if c == '#' {
            Some(Accidental::Sharp)
        } else if c == 'b' {
            Some(Accidental::Flat)
        } else {
            None
        }
    }

    /// The character that writes this accidental: `#` or `b`.
    pub fn to_char(&self) -> (c: char)
        ensures
            c == self.symbol(),
    {
        match self {
            Accidental::Sharp => '#',
            Accidental::Flat => 'b',
        }
    }

    /// The one-character text of this accidental.
    pub fn as_str(&self) -> (text: &'static str)
        ensures
            text@ == seq![self.symbol()],
    {
        proof {
            reveal_strlit("#");
            reveal_strlit("b");
        }
        match self {
            Accidental::Sharp => "#",
            Accidental::Flat => "b",
        }
    }

    /// Decodes an accidental character. Only `#` and `b` are accidentals;
    /// every other character is refused with `InvalidAccidental`.
    pub fn from_char(s: char) -> (r: Result<Accidental, ParseError>)
        ensures
            match Accidental::from_symbol(s) {
                Some(acc) => r == Ok::<Accidental, ParseError>(acc),
                None => r == Err::<Accidental, ParseError>(ParseError::InvalidAccidental),
            },
    {
        match s {
            '#' => Ok(Accidental::Sharp),
            'b' => Ok(Accidental::Flat),
            _ => Err(ParseError::InvalidAccidental),
        }
    }
}

impl NoteLetter {
    /// The upper-case character that writes this letter.
    pub open spec fn symbol(self) -> char {
        match self {
            NoteLetter::A => 'A',
            NoteLetter::B => 'B',
            NoteLetter::C => 'C',
            NoteLetter::D => 'D',
            NoteLetter::E => 'E',
            NoteLetter::F => 'F',
            NoteLetter::G => 'G',
        }
    }

    /// The pitch of the natural letter, in semitones above `C`.
    pub open spec fn semitone(self) -> int {
        match self {
            NoteLetter::C => 0,
            NoteLetter::D => 2,
            NoteLetter::E => 4,
            NoteLetter::F => 5,
            NoteLetter::G => 7,
            NoteLetter::A => 9,
            NoteLetter::B => 11,
        }
    }

    /// The letter that `c` writes, if it writes one. Lower-case characters
    /// write none.
    pub open spec fn from_symbol(c: char) -> Option<NoteLetter> {
        if c == 'A' {
            Some(NoteLetter::A)
        } else if c == 'B' {
            Some(NoteLetter::B)
        } else if c == 'C' {
            Some(NoteLetter::C)
        } else if c == 'D' {
            Some(NoteLetter::D)
        } else if c == 'E' {
            Some(NoteLetter::E)
        } else if c == 'F' {
            Some(NoteLetter::F)
        } else if c == 'G' {
            Some(NoteLetter::G)
        } else {
            None
        }
    }

    /// The upper-case character that writes this letter.
    pub fn to_char(&self) -> (c: char)
        ensures
            c == self.symbol(),
    {
        match self {
            NoteLetter::A => 'A',
            NoteLetter::B => 'B',
            NoteLetter::C => 'C',
            NoteLetter::D => 'D',
            NoteLetter::E => 'E',
            NoteLetter::F => 'F',
            NoteLetter::G => 'G',
        }
    }

    /// The one-character text of this letter.
    pub fn as_str(&self) -> (text: &'static str)
        ensures
            text@ == seq![self.symbol()],
    {
        proof {
            reveal_strlit("A");
            reveal_strlit("B");
            reveal_strlit("C");
            reveal_strlit("D");
            reveal_strlit("E");
            reveal_strlit("F");
            reveal_strlit("G");
        }
        match self {
            NoteLetter::A => "A",
            NoteLetter::B => "B",
            NoteLetter::C => "C",
            NoteLetter::D => "D",
            NoteLetter::E => "E",
            NoteLetter::F => "F",
            NoteLetter::G => "G",
        }
    }

    /// Decodes a note letter: one of the upper-case characters `A` to `G`.
    pub fn from_char(c: char) -> (r: Option<NoteLetter>)
        ensures
            r == NoteLetter::from_symbol(c),
    {
        match c {
            'A' => Some(NoteLetter::A),
            'B' => Some(NoteLetter::B),
            'C' => Some(NoteLetter::C),
            'D' => Some(NoteLetter::D),
            'E' => Some(NoteLetter::E),
            'F' => Some(NoteLetter::F),
            'G' => Some(NoteLetter::G),
            _ => None,
        }
    }
}

/// How an optional accidental is written: its character, or nothing.
pub open spec fn accidental_text(acc: Option<Accidental>) -> Seq<char> {
    match acc {
        Some(a) => seq![a.symbol()],
        None => Seq::empty(),
    }
}

/// How an optional register is written: its decimal text, or nothing. An
/// absent register is never written as a zero.
pub open spec fn register_text(n: Option<i8>) -> Seq<char> {
    match n {
        Some(v) => decimal_text(v as int),
        None => Seq::empty(),
    }
}

/// Reads a note name: a letter, then an optional accidental, then a register,
/// with nothing before, between or after them. The result holds the fields
/// exactly as they are written, with no normalization, and is `None` where
/// `s` is not a note name.
pub open spec fn parse_note(s: Seq<char>) -> Option<Note> {
    if s.len() == 0 {
        None
    } else {
        let acc = if s.len() >= 2 {
            Accidental::from_symbol(s[1])
        } else {
            None
        };
        let register = s.skip(
            if acc is Some {
                2
            } else {
                1
            },
        );
        match NoteLetter::from_symbol(s[0]) {
            Some(letter) if is_register(register) => Some(
                Note { letter, acc, n: register_value(register) },
            ),
            _ => None,
        }
    }
}

impl Note {
    /// The note with its enharmonic spelling collapsed: a sharpened letter
    /// that lies a semitone below a natural letter, or a flattened letter
    /// that lies a semitone above one, becomes that natural letter. Every
    /// other note is left as it is. The register is never touched.
    pub open spec fn normalized(self) -> Note {
        match (self.letter, self.acc) {
            (NoteLetter::B, Some(Accidental::Sharp)) => Note {
                letter: NoteLetter::C,
                acc: None,
                n: self.n,
            },
            (NoteLetter::C, Some(Accidental::Flat)) => Note {
                letter: NoteLetter::B,
                acc: None,
                n: self.n,
            },
            (NoteLetter::E, Some(Accidental::Sharp)) => Note {
                letter: NoteLetter::F,
                acc: None,
                n: self.n,
            },
            (NoteLetter::F, Some(Accidental::Flat)) => Note {
                letter: NoteLetter::E,
                acc: None,
                n: self.n,
            },
            _ => self,
        }
    }

    /// The pitch of the note within its octave, in semitones above `C`:
    /// that of its letter, moved by its accidental. The register plays no
    /// part in it.
    pub open spec fn pitch_class(self) -> int {
        (self.letter.semitone() + match self.acc {
            Some(a) => a.offset(),
            None => 0,
        }) % 12
    }

    /// Whether the rendering of the note is itself a note name: a register,
    /// where there is one, has to fit in the two digits that the grammar
    /// allows.
    pub open spec fn is_readable(self) -> bool {
        self.n matches Some(v) ==> -99 <= v <= 99
    }

    /// The note written out field by field, with no normalization: the
    /// letter, then the accidental if there is one, then the register if
    /// there is one.
    pub open spec fn spelling(self) -> Seq<char> {
        seq![self.letter.symbol()] + accidental_text(self.acc) + register_text(self.n)
    }

    /// The text that renders the note: the spelling of its normalized form.
    pub open spec fn text(self) -> Seq<char> {
        self.normalized().spelling()
    }

    /// A natural note without a register. It renders as its bare letter.
    pub fn new(letter: NoteLetter) -> (note: Note)
        ensures
            note == (Note { letter, acc: None, n: None }),
            note.text() == seq![letter.symbol()],
    {
        Note { letter, acc: None, n: None }
    }

    /// Collapses the enharmonic spelling of the note, as rendering does
    /// before it writes anything.
    pub fn normalize(&self) -> (note: Note)
        ensures
            note == self.normalized(),
    {
        match (self.letter, self.acc) {
            (NoteLetter::B, Some(Accidental::Sharp)) => Note {
                letter: NoteLetter::C,
                acc: None,
                n: self.n,
            },
            (NoteLetter::C, Some(Accidental::Flat)) => Note {
                letter: NoteLetter::B,
                acc: None,
                n: self.n,
            },
            (NoteLetter::E, Some(Accidental::Sharp)) => Note {
                letter: NoteLetter::F,
                acc: None,
                n: self.n,
            },
            (NoteLetter::F, Some(Accidental::Flat)) => Note {
                letter: NoteLetter::E,
                acc: None,
                n: self.n,
            },
            _ => *self,
        }
    }

    /// Renders the note. The note is normalized first, so that `E#` reads
    /// `F` and `Cb` reads `B`; then the letter, the accidental and the
    /// register are written one after the other. Rendering never fails.
    pub fn to_string(&self) -> (text: String)
        ensures
            text@ == self.text(),
    {
        let shown = self.normalize();
        let mut text = String::from_str(shown.letter.as_str());
        match shown.acc {
            Some(acc) => text.append(acc.as_str()),
            None => {},
        }
        match shown.n {
            Some(v) => append_decimal(&mut text, v),
            None => {},
        }
        text
    }

    /// Reads a note name. The whole of `s` must be one: a letter `A` to `G`,
    /// then `#` or `b` or neither, then a register or none. The note holds
    /// what was written, so `E#` reads as an `E` with a sharp. Any other text
    /// is refused with `InvalidNote`, which carries the text.
    pub fn from_str(s: &str) -> (r: Result<Note, ParseError>)
        ensures
            match parse_note(s@) {
                Some(note) => r == Ok::<Note, ParseError>(note),
                None => r matches Err(ParseError::InvalidNote(text)) && text@ == s@,
            },
    {
        let len = s.unicode_len();
        if len == 0 {
            return Err(ParseError::InvalidNote(s.to_owned()));
        }
        let letter = match NoteLetter::from_char(s.get_char(0)) {
            Some(letter) => letter,
            None => {
                return Err(ParseError::InvalidNote(s.to_owned()));
            },
        };
        let mut acc: Option<Accidental> = None;
        let mut rest: usize = 1;
        if len >= 2 {
            let c = s.get_char(1);
            if c == '#' || c == 'b' {
                acc = Some(
                    match Accidental::from_char(c) {
                        Ok(a) => a,
                        Err(_) => vstd::pervasive::unreached(),
                    },
                );
                rest = 2;
            }
        }
        match parse_register(s.substring_char(rest, len)) {
            Some(n) => Ok(Note { letter, acc, n }),
            None => Err(ParseError::InvalidNote(s.to_owned())),
        }
    }
}

} // verus!
