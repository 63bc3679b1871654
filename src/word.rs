use vstd::prelude::*;
use vstd::utf8::encode_utf8;
use vstd::utf8::valid_utf8;
use vstd::utf8::is_ascii_chars;
use vstd::string::StringSliceAdditionalSpecFns;

use crate::bank::WordBank;
use crate::dict::{builtin_word, Dictionary};

verus! {

/// The number of letters in every word of the puzzle.
pub const WORD_LENGTH: usize = 5;

/// Whether `b` is an ASCII letter, upper or lower case.
pub open spec fn is_ascii_letter(b: u8) -> bool {
    (65 <= b && b <= 90) || (97 <= b && b <= 122)
}

/// Whether `b` is a lower-case ASCII letter.
pub open spec fn is_lower_letter(b: u8) -> bool {
    97 <= b && b <= 122
}

/// The lower-case form of an ASCII byte; other bytes are kept.
pub open spec fn lower_byte(b: u8) -> u8 {
    if 65 <= b && b <= 90 {
        (b + 32) as u8
    } else {
        b
    }
}

/// Whether `w` is the content of a word: five lower-case ASCII letters.
pub open spec fn is_word(w: Seq<u8>) -> bool {
    &&& w.len() == WORD_LENGTH
    &&& forall|i: int| 0 <= i < w.len() ==> is_lower_letter(#[trigger] w[i])
}

/// Whether one of the first five bytes of `b` is not an ASCII letter.
pub open spec fn has_bad_letter(b: Seq<u8>) -> bool {
    exists|i: int| 0 <= i < b.len() && i < WORD_LENGTH && !is_ascii_letter(#[trigger] b[i])
}

/// What validating the bytes `b` of a word gives: the letters are checked on the first
/// five bytes before the length is checked.
pub open spec fn parse_bytes(b: Seq<u8>) -> Result<Seq<u8>, WordError> {
    if has_bad_letter(b) {
        Err(WordError::Letter)
    } else if b.len() != WORD_LENGTH {
        Err(WordError::Length)
    } else {
        Ok(b.map_values(|c: u8| lower_byte(c)))
    }
}

/// Whether `c` has the Unicode `White_Space` property.
pub open spec fn is_white(c: char) -> bool {
    let u = c as u32;
    (0x9 <= u && u <= 0xd) || u == 0x20 || u == 0x85 || u == 0xa0 || u == 0x1680
        || (0x2000 <= u && u <= 0x200a) || u == 0x2028 || u == 0x2029 || u == 0x202f
        || u == 0x205f || u == 0x3000
}

/// `s` without its leading white space.
pub open spec fn trim_start(s: Seq<char>) -> Seq<char>
    decreases s.len(),
{
    if s.len() > 0 && is_white(s[0]) {
        trim_start(s.drop_first())
    } else {
        s
    }
}

/// `s` without its trailing white space.
pub open spec fn trim_end(s: Seq<char>) -> Seq<char>
    decreases s.len(),
{
    if s.len() > 0 && is_white(s.last()) {
        trim_end(s.drop_last())
    } else {
        s
    }
}

/// `s` without its leading and trailing white space.
pub open spec fn trimmed(s: Seq<char>) -> Seq<char> {
    trim_end(trim_start(s))
}

/// What building a word from the text `s` gives, before any dictionary is consulted.
pub open spec fn parse_word(s: Seq<char>) -> Result<Seq<u8>, WordError> {
    parse_bytes(encode_utf8(trimmed(s)))
}

/// A character below 128 is ASCII, and its byte is its code.
proof fn lemma_small_char(x: char)
    requires
        (x as u32) <= 0x7F,
    ensures
        x as u8 == (x as u32) as u8,
        '\0' <= x <= '\u{7f}',
{
}

/// Text whose UTF-8 bytes are all ASCII is ASCII itself, with one byte per character.
proof fn lemma_ascii_bytes(t: Seq<char>)
    requires
        forall|i: int| 0 <= i < encode_utf8(t).len() ==> #[trigger] encode_utf8(t)[i] < 128,
    ensures
        is_ascii_chars(t),
        encode_utf8(t).len() == t.len(),
        forall|i: int| 0 <= i < t.len() ==> #[trigger] encode_utf8(t)[i] == t[i] as u8,
    decreases t.len(),
{
    if t.len() > 0 {
        let x = t[0];
        let c = x as u32;
        let rest = t.drop_first();
        let e = encode_utf8(t);
        assert(e == vstd::utf8::encode_scalar(c) + encode_utf8(rest));
        let first = vstd::utf8::encode_scalar(c)[0];
        assert(e[0] == first);
        if c > 0x7F {
            assert(0xC0u8 <= (0xC0u8 | ((c >> 6u32) & 0x1Fu32) as u8)) by (bit_vector);
            assert(0xE0u8 <= (0xE0u8 | ((c >> 12u32) & 0x0Fu32) as u8)) by (bit_vector);
            assert(0xF0u8 <= (0xF0u8 | ((c >> 18u32) & 0x7u32) as u8)) by (bit_vector);
            assert(false);
        }
        assert((c & 0x7Fu32) as u8 == c as u8) by (bit_vector)
            requires
                c <= 0x7F,
        ;
        assert forall|i: int| 0 <= i < encode_utf8(rest).len() implies #[trigger] encode_utf8(rest)[i] < 128 by {
            assert(e[i + 1] == encode_utf8(rest)[i]);
        }
        lemma_ascii_bytes(rest);
        assert(vstd::utf8::encode_scalar(c) == seq![vstd::utf8::leading_byte_width_1(c)]);
        assert(e[0] == c as u8);
        lemma_small_char(x);
        assert forall|i: int| 0 <= i < t.len() implies #[trigger] e[i] == t[i] as u8 by {
            if i > 0 {
                assert(e[i] == encode_utf8(rest)[i - 1]);
                assert(rest[i - 1] == t[i]);
            }
        }
        assert forall|i: int| 0 <= i < t.len() implies '\0' <= #[trigger] t[i] <= '\u{7f}' by {
            if i > 0 {
                assert(rest[i - 1] == t[i]);
            }
        }
    }
}

/// Building a word from text and reading it back gives the text without its surrounding
/// white space, in lower case: that text is five ASCII characters, and each letter of the
/// word is the lower-case form of the character in its place.
pub proof fn lemma_normalized_round_trip(s: Seq<char>)
    requires
        parse_word(s) is Ok,
    ensures
        is_ascii_chars(trimmed(s)),
        trimmed(s).len() == WORD_LENGTH,
        parse_word(s)->Ok_0.len() == WORD_LENGTH,
        forall|i: int|
            0 <= i < WORD_LENGTH ==> #[trigger] parse_word(s)->Ok_0[i] == lower_byte(
                trimmed(s)[i] as u8,
            ),
{
    let t = trimmed(s);
    let b = encode_utf8(t);
    assert(!has_bad_letter(b));
    assert forall|i: int| 0 <= i < b.len() implies #[trigger] b[i] < 128 by {
        assert(is_ascii_letter(b[i]));
    }
    lemma_ascii_bytes(t);
}

/// Relies on `str::trim`: the result is the text without leading and trailing white space.
#[verifier::external_body]
fn trim(s: &str) -> (r: &str)
    ensures
        r@ == trimmed(s@),
{
    s.trim()
}

/// Relies on `std::str::from_utf8`: bytes that are valid UTF-8 come back as the text they
/// encode.
#[verifier::external_body]
fn utf8_text(b: &[u8]) -> (r: Option<&str>)
    ensures
        valid_utf8(b@) ==> r is Some,
        r matches Some(s) ==> s.spec_bytes() == b@,
{
    std::str::from_utf8(b).ok()
}

/// Returns the lower-case form of an ASCII byte.
fn to_lower(b: u8) -> (r: u8)
    ensures
        r == lower_byte(b),
{
    if 65 <= b && b <= 90 {
        b + 32
    } else {
        b
    }
}

/// Checks the bytes `b[start..end]` of a candidate word: an ASCII letter in each of the first
/// five places, then exactly five bytes.
fn validate_word_bytes(b: &[u8], start: usize, end: usize) -> (r: Result<(), WordError>)
    requires
        start <= end <= b@.len(),
    ensures
        match parse_bytes(b@.subrange(start as int, end as int)) {
            Ok(_) => r is Ok,
            Err(e) => r == Err::<(), WordError>(e),
        },
{
    let ghost sub = b@.subrange(start as int, end as int);
    let mut i: usize = start;
    while i < end && i - start < WORD_LENGTH
        invariant
            start <= i <= end <= b@.len(),
            i - start <= WORD_LENGTH,
            sub == b@.subrange(start as int, end as int),
            forall|j: int| 0 <= j < i - start ==> is_ascii_letter(#[trigger] sub[j]),
        decreases end - i,
    {
        let c = b[i];
        if !((65 <= c && c <= 90) || (97 <= c && c <= 122)) {
            proof {
                assert(sub[i - start] == c);
                assert(has_bad_letter(sub));
            }
            return Err(WordError::Letter);
        }
        i = i + 1;
    }
    proof {
        assert(!has_bad_letter(sub));
    }
    if end - start != WORD_LENGTH {
        Err(WordError::Length)
    } else {
        Ok(())
    }
}

/// Builds a word from the bytes `b[start..end]`, lower-casing its letters.
pub(crate) fn word_from_bytes(b: &[u8], start: usize, end: usize) -> (r: Result<Word, WordError>)
    requires
        start <= end <= b@.len(),
    ensures
        match r {
            Ok(w) => parse_bytes(b@.subrange(start as int, end as int)) == Ok::<Seq<u8>, WordError>(w@),
            Err(e) => parse_bytes(b@.subrange(start as int, end as int)) == Err::<Seq<u8>, WordError>(e),
        },
{
    match validate_word_bytes(b, start, end) {
        Err(e) => Err(e),
        Ok(()) => {
            let ghost sub = b@.subrange(start as int, end as int);
            proof {
                assert forall|j: int| 0 <= j < WORD_LENGTH implies is_ascii_letter(#[trigger] sub[j]) by {
                    if !is_ascii_letter(sub[j]) {
                        assert(has_bad_letter(sub));
                    }
                }
            }
            let arr: [u8; WORD_LENGTH] = [
                to_lower(b[start]),
                to_lower(b[start + 1]),
                to_lower(b[start + 2]),
                to_lower(b[start + 3]),
                to_lower(b[start + 4]),
            ];
            proof {
                assert(arr@ =~= sub.map_values(|c: u8| lower_byte(c)));
                assert(sub[0] == b@[start as int]);
            }
            Ok(Word(arr))
        },
    }
}

/// Errors that may occur when constructing a [`Word`].
#[derive(Debug, Clone, Copy, PartialEq, Eq, Structural)]
pub enum WordError {
    /// The text does not hold exactly five letters.
    Length,
    /// The text holds something other than ASCII letters.
    Letter,
    /// The text is a well-formed word that the word bank does not hold.
    Bank,
}

/// A sequence of five lower-case letters that may be submitted as a guess.
#[derive(Debug, Clone, Copy, Eq, PartialOrd, Ord, Hash)]
pub struct Word([u8; WORD_LENGTH]);

impl View for Word {
    type V = Seq<u8>;

    closed spec fn view(&self) -> Seq<u8> {
        self.0@
    }
}

/// The letters that a word code stands for.
pub open spec fn code_letters(c: u64) -> Seq<u8> {
    seq![(c >> 32u64) as u8, (c >> 24u64) as u8, (c >> 16u64) as u8, (c >> 8u64) as u8, c as u8]
}

/// The code of a word gives its letters back.
pub proof fn lemma_code_letters(w: Seq<u8>)
    requires
        w.len() == WORD_LENGTH,
    ensures
        code_letters(word_code(w)) == w,
{
    let (a0, a1, a2, a3, a4) = (w[0], w[1], w[2], w[3], w[4]);
    let c = word_code(w);
    assert(c == (a0 as u64) << 32u64 | (a1 as u64) << 24u64 | (a2 as u64) << 16u64 | (a3 as u64) << 8u64 | (a4 as u64));
    assert((c >> 32u64) as u8 == a0 && (c >> 24u64) as u8 == a1 && (c >> 16u64) as u8 == a2
        && (c >> 8u64) as u8 == a3 && c as u8 == a4) by (bit_vector)
        requires
            c == (a0 as u64) << 32u64 | (a1 as u64) << 24u64 | (a2 as u64) << 16u64 | (a3 as u64) << 8u64
                | (a4 as u64),
    ;
    assert(code_letters(c) =~= w);
}

impl PartialEq for Word {
    fn eq(&self, other: &Word) -> (r: bool) {
        let mut i: usize = 0;
        while i < WORD_LENGTH
            invariant
                i <= WORD_LENGTH,
                forall|j: int| 0 <= j < i ==> self.0@[j] == other.0@[j],
            decreases WORD_LENGTH - i,
        {
            if self.0[i] != other.0[i] {
                return false;
            }
            i = i + 1;
        }
        proof {
            assert(self.0@ =~= other.0@);
        }
        true
    }
}

impl vstd::std_specs::cmp::PartialEqSpecImpl for Word {
    open spec fn obeys_eq_spec() -> bool {
        true
    }

    open spec fn eq_spec(&self, other: &Word) -> bool {
        self@ == other@
    }
}

/// Every word has five letters.
pub broadcast proof fn lemma_word_len(w: Word)
    ensures
        #[trigger] w@.len() == WORD_LENGTH,
{
}

/// A number that orders words as the dictionary does: the letters read as the digits of a
/// number in base 256, the first letter most significant.
pub open spec fn word_code(w: Seq<u8>) -> u64 {
    (w[0] as u64) << 32u64 | (w[1] as u64) << 24u64 | (w[2] as u64) << 16u64 | (w[3] as u64) << 8u64
        | (w[4] as u64)
}

/// Two words with the same code are the same word.
pub proof fn lemma_code_injective(a: Seq<u8>, b: Seq<u8>)
    requires
        a.len() == WORD_LENGTH,
        b.len() == WORD_LENGTH,
        word_code(a) == word_code(b),
    ensures
        a == b,
{
    let (a0, a1, a2, a3, a4) = (a[0], a[1], a[2], a[3], a[4]);
    let (b0, b1, b2, b3, b4) = (b[0], b[1], b[2], b[3], b[4]);
    assert(a0 == b0 && a1 == b1 && a2 == b2 && a3 == b3 && a4 == b4) by (bit_vector)
        requires
            (a0 as u64) << 32u64 | (a1 as u64) << 24u64 | (a2 as u64) << 16u64 | (a3 as u64) << 8u64
                | (a4 as u64) == (b0 as u64) << 32u64 | (b1 as u64) << 24u64 | (b2 as u64) << 16u64
                | (b3 as u64) << 8u64 | (b4 as u64),
    ;
    assert(a =~= b);
}

impl Word {
    #[verifier::type_invariant]
    spec fn inv(self) -> bool {
        is_word(self.0@)
    }

    /// Builds a word from text, trimming white space and lower-casing the letters.
    ///
    /// The letters are checked before the length: a non-letter among the first five bytes is
    /// a `Letter` error, a wrong number of bytes a `Length` error. A well-formed word that the
    /// built-in word lists of `bank` do not hold is a `Bank` error.
    pub fn new(word: &str, bank: &WordBank) -> (r: Result<Word, WordError>)
        ensures
            match parse_word(word@) {
                Err(e) => r == Err::<Word, WordError>(e),
                Ok(w) => if builtin_word(w) {
                    r is Ok && r->Ok_0@ == w
                } else {
                    r == Err::<Word, WordError>(WordError::Bank)
                },
            },
    {
        let w = Word::new_no_dict(word)?;
        if crate::bank::contains(bank, w) {
            Ok(w)
        } else {
            Err(WordError::Bank)
        }
    }

    /// Picks a solution of `dict` at random.
    pub fn random<D: Dictionary>(dict: &D) -> (r: Word)
        ensures
            dict.spec_is_solution(r@),
            dict.spec_contains(r@),
    {
        dict.random_solution()
    }

    /// Builds a word from text, trimming white space and lower-casing the letters; no
    /// dictionary is consulted.
    pub fn new_no_dict(word: &str) -> (r: Result<Word, WordError>)
        ensures
            match r {
                Ok(w) => parse_word(word@) == Ok::<Seq<u8>, WordError>(w@),
                Err(e) => parse_word(word@) == Err::<Seq<u8>, WordError>(e),
            },
    {
        let bytes = trim(word).as_bytes();
        proof {
            assert(bytes@.subrange(0, bytes@.len() as int) =~= bytes@);
        }
        word_from_bytes(bytes, 0, bytes.len())
    }

    /// The letters of the word.
    pub fn as_bytes(&self) -> (r: &[u8])
        ensures
            r@ == self@,
            is_word(r@),
    {
        proof {
            use_type_invariant(self);
        }
        self.0.as_slice()
    }

    /// The word as text.
    pub fn as_str(&self) -> (r: &str)
        ensures
            r.spec_bytes() == self@,
    {
        proof {
            use_type_invariant(self);
            let chars = self@.map_values(|b: u8| b as char);
            assert(is_ascii_chars(chars));
            vstd::utf8::is_ascii_chars_encode_utf8(chars);
            vstd::utf8::encode_utf8_valid_utf8(chars);
            assert(encode_utf8(chars) =~= self@);
        }
        match utf8_text(self.0.as_slice()) {
            Some(s) => s,
            None => "",
        }
    }

    /// The letters of the word, as characters.
    pub fn chars(&self) -> (r: Vec<char>)
        ensures
            r@ == self@.map_values(|b: u8| b as char),
    {
        let mut r: Vec<char> = Vec::new();
        let mut i: usize = 0;
        while i < WORD_LENGTH
            invariant
                i <= WORD_LENGTH,
                self@.len() == WORD_LENGTH,
                r@ =~= self@.subrange(0, i as int).map_values(|b: u8| b as char),
            decreases WORD_LENGTH - i,
        {
            r.push(self.letter(i) as char);
            i = i + 1;
        }
        proof {
            assert(self@.subrange(0, WORD_LENGTH as int) =~= self@);
        }
        r
    }

    /// The number of letters in a word, which is always five.
    pub fn len(&self) -> (r: usize)
        ensures
            r == WORD_LENGTH,
            r == self@.len(),
    {
        proof {
            use_type_invariant(self);
        }
        WORD_LENGTH
    }

    /// A word is never empty.
    pub fn is_empty(&self) -> (r: bool)
        ensures
            r == (self@.len() == 0),
            !r,
    {
        proof {
            use_type_invariant(self);
        }
        false
    }

    /// The number that orders this word among others.
    pub fn code(&self) -> (r: u64)
        ensures
            r == word_code(self@),
    {
        (self.0[0] as u64) << 32u64 | (self.0[1] as u64) << 24u64 | (self.0[2] as u64) << 16u64 | (
        self.0[3] as u64) << 8u64 | (self.0[4] as u64)
    }

    /// The word whose code is `code`.
    pub fn from_code(code: u64) -> (r: Word)
        requires
            is_word(code_letters(code)),
        ensures
            r@ == code_letters(code),
    {
        let arr: [u8; WORD_LENGTH] = [
            (code >> 32u64) as u8,
            (code >> 24u64) as u8,
            (code >> 16u64) as u8,
            (code >> 8u64) as u8,
            code as u8,
        ];
        proof {
            assert(arr@ =~= code_letters(code));
        }
        Word(arr)
    }

    /// The letter at `i`.
    pub fn letter(&self, i: usize) -> (r: u8)
        requires
            i < WORD_LENGTH,
        ensures
            r == self@[i as int],
            is_lower_letter(r),
    {
        proof {
            use_type_invariant(self);
        }
        self.0[i]
    }
}

} // verus!
