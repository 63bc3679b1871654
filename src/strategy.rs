use vstd::prelude::*;
use vstd::string::StringSliceAdditionalSpecFns;

use crate::dict::{lemma_line_end_bounds, line_end};
use crate::guess::all_correct;
use crate::placement::Placement;
use crate::strategy_tables::{
    HARD_FIRST, HARD_SECOND, HARD_THIRD, NORMAL_FIRST, NORMAL_SECOND, NORMAL_THIRD,
};
use crate::word::{parse_bytes, word_from_bytes, Word, WORD_LENGTH};

verus! {

/// The width of the field that each guess takes in a line of a decision table: the word, a
/// space, the feedback code and a space.
pub const FIELD_WIDTH: usize = 13;

/// The length of a feedback code: one symbol per letter, then the number of the guess.
pub const CODE_LENGTH: usize = 6;

/// The rules under which a puzzle is solved.
#[derive(Debug, Clone, Copy, PartialEq, Eq, Structural, Default)]
pub enum Strategy {
    /// The normal rules: any accepted word may be guessed.
    #[default]
    Normal,
    /// Stricter rules: once a placement is known, later guesses may not contradict it.
    Hard,
}

/// The bytes of the decision table of `s`.
pub open spec fn table_of(s: Strategy) -> Seq<u8> {
    match s {
        Strategy::Normal => NORMAL_FIRST.spec_bytes() + NORMAL_SECOND.spec_bytes()
            + NORMAL_THIRD.spec_bytes(),
        Strategy::Hard => HARD_FIRST.spec_bytes() + HARD_SECOND.spec_bytes()
            + HARD_THIRD.spec_bytes(),
    }
}

/// Where line `k` of the text `b` starts; it exists when that is before the end of the text.
pub open spec fn line_start_of(b: Seq<u8>, k: nat) -> int
    decreases k,
{
    if k == 0 {
        0
    } else {
        line_end(b, line_start_of(b, (k - 1) as nat)) + 1
    }
}

/// Whether the text `b` has a line `k`.
pub open spec fn has_line(b: Seq<u8>, k: nat) -> bool {
    line_start_of(b, k) < b.len()
}

/// Line `k` of the text `b`, without its line feed.
pub open spec fn line_of(b: Seq<u8>, k: nat) -> Seq<u8> {
    b.subrange(line_start_of(b, k), line_end(b, line_start_of(b, k)))
}

/// The word in the field of `line` for the guess made after `depth` guesses, if the field
/// holds one.
pub open spec fn field_word(line: Seq<u8>, depth: nat) -> Option<Seq<u8>> {
    let col = FIELD_WIDTH * depth;
    if col + WORD_LENGTH <= line.len() {
        match parse_bytes(line.subrange(col as int, col + WORD_LENGTH)) {
            Ok(w) => Some(w),
            Err(_) => None,
        }
    } else {
        None
    }
}

/// The symbol of a placement in a feedback code: `B`, `Y` or `G`.
pub open spec fn symbol(p: Placement) -> u8 {
    match p {
        Placement::Incorrect => 66,
        Placement::Misplaced => 89,
        Placement::Correct => 71,
    }
}

/// The leading decimal digit of `n`.
pub open spec fn first_digit(n: nat) -> nat
    decreases n,
{
    if n < 10 {
        n
    } else {
        first_digit(n / 10)
    }
}

/// The code that marks the placements `ps` of guess number `guesses + 1` in a table.
pub open spec fn feedback_code(ps: Seq<Placement>, guesses: nat) -> Seq<u8> {
    ps.map_values(|p: Placement| symbol(p)) + seq![(48 + first_digit(guesses + 1)) as u8]
}

/// Whether `line` holds `code` starting at `p`.
pub open spec fn holds_at(line: Seq<u8>, code: Seq<u8>, p: int) -> bool {
    0 <= p && p + code.len() <= line.len() && line.subrange(p, p + code.len()) == code
}

/// Whether `line` holds `code` anywhere.
pub open spec fn holds_code(line: Seq<u8>, code: Seq<u8>) -> bool {
    exists|p: int| holds_at(line, code, p)
}

/// The letters of a word that may be missing.
pub open spec fn letters_of(r: Option<Word>) -> Option<Seq<u8>> {
    match r {
        Some(w) => Some(w@),
        None => None,
    }
}

/// Whether `r` is the word of the field for guess number `depth + 1` in the first line of the
/// table `b`, from line `row` on, whose field holds a word; `None` when no such line exists.
pub open spec fn is_suggestion(b: Seq<u8>, row: nat, depth: nat, r: Option<Seq<u8>>) -> bool {
    match r {
        Some(w) => exists|k: nat|
            #![trigger line_of(b, k)]
            row <= k && has_line(b, k) && field_word(line_of(b, k), depth) == Some(w) && forall|
                j: nat,
            |
                #![trigger line_of(b, j)]
                row <= j < k ==> field_word(line_of(b, j), depth) is None,
        None => forall|k: nat|
            #![trigger line_of(b, k)]
            row <= k && has_line(b, k) ==> field_word(line_of(b, k), depth) is None,
    }
}

/// Whether `next` is the first line of the table `b`, from line `row` on, that holds `code`;
/// or `row` itself when no such line exists.
pub open spec fn is_advance(b: Seq<u8>, row: nat, code: Seq<u8>, next: nat) -> bool {
    ||| next == row && forall|k: nat|
        #![trigger line_of(b, k)]
        row <= k && has_line(b, k) ==> !holds_code(line_of(b, k), code)
    ||| row <= next && has_line(b, next) && holds_code(line_of(b, next), code) && forall|j: nat|
        #![trigger line_of(b, j)]
        row <= j < next ==> !holds_code(line_of(b, j), code)
}

/// No line starts before the text.
proof fn lemma_line_start_nonneg(b: Seq<u8>, k: nat)
    ensures
        0 <= line_start_of(b, k),
    decreases k,
{
    if k > 0 {
        lemma_line_start_nonneg(b, (k - 1) as nat);
        lemma_line_end_bounds(b, line_start_of(b, (k - 1) as nat));
    }
}

/// Later lines start later.
proof fn lemma_line_start_grows(b: Seq<u8>, k: nat, j: nat)
    requires
        k <= j,
    ensures
        0 <= line_start_of(b, k),
        line_start_of(b, k) + (j - k) <= line_start_of(b, j),
    decreases j,
{
    lemma_line_start_nonneg(b, k);
    if k < j {
        lemma_line_start_grows(b, k, (j - 1) as nat);
        lemma_line_start_nonneg(b, (j - 1) as nat);
        lemma_line_end_bounds(b, line_start_of(b, (j - 1) as nat));
    }
}

impl Strategy {
    /// The three parts of the decision table of the strategy.
    fn parts(self) -> (r: (&'static str, &'static str, &'static str))
        ensures
            table_of(self) == r.0.spec_bytes() + r.1.spec_bytes() + r.2.spec_bytes(),
    {
        match self {
            Strategy::Normal => (NORMAL_FIRST, NORMAL_SECOND, NORMAL_THIRD),
            Strategy::Hard => (HARD_FIRST, HARD_SECOND, HARD_THIRD),
        }
    }

    /// The bytes of the decision table of the strategy.
    pub fn table(self) -> (r: Vec<u8>)
        ensures
            r@ == table_of(self),
    {
        let (a, b, c) = self.parts();
        let mut r: Vec<u8> = Vec::new();
        r.extend_from_slice(a.as_bytes());
        r.extend_from_slice(b.as_bytes());
        r.extend_from_slice(c.as_bytes());
        proof {
            assert(r@ =~= a.spec_bytes() + b.spec_bytes() + c.spec_bytes());
        }
        r
    }
}

/// Where the line of `b` that starts at `start` ends.
fn find_line_end(b: &[u8], start: usize) -> (r: usize)
    requires
        start <= b@.len(),
    ensures
        r == line_end(b@, start as int),
        start <= r <= b@.len(),
{
    let mut i = start;
    while i < b.len() && b[i] != 10
        invariant
            start <= i <= b@.len(),
            line_end(b@, i as int) == line_end(b@, start as int),
        decreases b@.len() - i,
    {
        i = i + 1;
    }
    i
}

/// Where line `row` of `b` starts, if `b` has that line.
fn find_line_start(b: &[u8], row: usize) -> (r: Option<usize>)
    ensures
        r is Some <==> has_line(b@, row as nat),
        r matches Some(s) ==> s == line_start_of(b@, row as nat),
{
    let mut start: usize = 0;
    let mut k: usize = 0;
    while k < row
        invariant
            k <= row,
            start == line_start_of(b@, k as nat),
            start <= b@.len(),
        decreases row - k,
    {
        if start >= b.len() {
            proof {
                lemma_line_start_grows(b@, k as nat, row as nat);
            }
            return None;
        }
        let end = find_line_end(b, start);
        if end >= b.len() {
            proof {
                lemma_line_start_grows(b@, (k + 1) as nat, row as nat);
            }
            return None;
        }
        start = end + 1;
        k = k + 1;
    }
    if start < b.len() {
        Some(start)
    } else {
        None
    }
}

/// The word of the field of guess number `depth` in the line `b[start..end]`.
fn field_word_of(b: &[u8], start: usize, end: usize, depth: usize) -> (r: Option<Word>)
    requires
        start <= end <= b@.len(),
    ensures
        match r {
            Some(w) => field_word(b@.subrange(start as int, end as int), depth as nat) == Some(w@),
            None => field_word(b@.subrange(start as int, end as int), depth as nat) is None,
        },
{
    let len = end - start;
    if depth > len / FIELD_WIDTH {
        return None;
    }
    let col = FIELD_WIDTH * depth;
    if len < WORD_LENGTH || col > len - WORD_LENGTH {
        return None;
    }
    proof {
        let line = b@.subrange(start as int, end as int);
        assert(line.subrange(col as int, col + WORD_LENGTH) =~= b@.subrange(
            start + col,
            start + col + WORD_LENGTH,
        ));
    }
    match word_from_bytes(b, start + col, start + col + WORD_LENGTH) {
        Ok(w) => Some(w),
        Err(_) => None,
    }
}

/// Whether `b` holds `code` at `pos`.
fn holds_code_at(b: &[u8], pos: usize, code: &[u8; CODE_LENGTH]) -> (r: bool)
    requires
        pos + CODE_LENGTH <= b@.len(),
    ensures
        r == (b@.subrange(pos as int, pos + CODE_LENGTH) == code@),
{
    let n = b.len();
    let mut i: usize = 0;
    while i < CODE_LENGTH
        invariant
            i <= CODE_LENGTH,
            n == b@.len(),
            pos + CODE_LENGTH <= b@.len(),
            forall|j: int| 0 <= j < i ==> b@[pos + j] == code@[j],
        decreases CODE_LENGTH - i,
    {
        if b[pos + i] != code[i] {
            proof {
                assert(b@.subrange(pos as int, pos + CODE_LENGTH)[i as int] != code@[i as int]);
            }
            return false;
        }
        i = i + 1;
    }
    proof {
        assert(b@.subrange(pos as int, pos + CODE_LENGTH) =~= code@);
    }
    true
}

/// Whether the line `b[start..end]` holds `code` anywhere.
fn line_holds_code(b: &[u8], start: usize, end: usize, code: &[u8; CODE_LENGTH]) -> (r: bool)
    requires
        start <= end <= b@.len(),
    ensures
        r == holds_code(b@.subrange(start as int, end as int), code@),
{
    let ghost line = b@.subrange(start as int, end as int);
    if end - start < CODE_LENGTH {
        return false;
    }
    let mut p: usize = start;
    while p <= end - CODE_LENGTH
        invariant
            start <= p,
            end - start >= CODE_LENGTH,
            start <= end <= b@.len(),
            line == b@.subrange(start as int, end as int),
            forall|q: int| 0 <= q < p - start ==> !holds_at(line, code@, q),
        decreases end - p,
    {
        if holds_code_at(b, p, code) {
            proof {
                assert(line.subrange(p - start, p - start + CODE_LENGTH) =~= b@.subrange(
                    p as int,
                    p + CODE_LENGTH,
                ));
                assert(holds_at(line, code@, p - start));
            }
            return true;
        }
        proof {
            assert(line.subrange(p - start, p - start + CODE_LENGTH) =~= b@.subrange(
                p as int,
                p + CODE_LENGTH,
            ));
        }
        p = p + 1;
    }
    false
}

/// The first line of `b`, from line `row` on, that holds `code`; line `row` starts at
/// `first`.
fn find_code_line(b: &[u8], row: usize, first: usize, code: &[u8; CODE_LENGTH]) -> (r: Option<
    usize,
>)
    requires
        first == line_start_of(b@, row as nat),
        first <= b@.len(),
    ensures
        match r {
            Some(k) => {
                &&& row <= k
                &&& has_line(b@, k as nat)
                &&& holds_code(line_of(b@, k as nat), code@)
                &&& forall|j: nat|
                    #![trigger line_of(b@, j)]
                    row <= j < k ==> !holds_code(line_of(b@, j), code@)
            },
            None => forall|k: nat|
                #![trigger line_of(b@, k)]
                row <= k && has_line(b@, k) ==> !holds_code(line_of(b@, k), code@),
        },
{
    let ghost bs = b@;
    let n = b.len();
    let mut start = first;
    let mut k = row;
    proof {
        lemma_line_start_grows(bs, 0, k as nat);
    }
    while start < n
        invariant
            bs == b@,
            n == bs.len(),
            row <= k,
            start == line_start_of(bs, k as nat),
            k <= start <= n,
            forall|j: nat|
                #![trigger line_of(bs, j)]
                row <= j < k ==> !holds_code(line_of(bs, j), code@),
        decreases n - start,
    {
        let end = find_line_end(b, start);
        if line_holds_code(b, start, end, code) {
            proof {
                assert(line_of(bs, k as nat) == bs.subrange(start as int, end as int));
            }
            return Some(k);
        }
        if end >= n {
            proof {
                assert forall|j: nat|
                    #![trigger line_of(bs, j)]
                    row <= j && has_line(bs, j) implies !holds_code(line_of(bs, j), code@) by {
                    if j > k {
                        lemma_line_start_grows(bs, (k + 1) as nat, j);
                    }
                }
            }
            return None;
        }
        start = end + 1;
        k = k + 1;
    }
    proof {
        assert forall|j: nat|
            #![trigger line_of(bs, j)]
            row <= j && has_line(bs, j) implies !holds_code(line_of(bs, j), code@) by {
            if j >= k {
                lemma_line_start_grows(bs, k as nat, j);
            }
        }
    }
    None
}

/// The leading decimal digit of `n`.
fn leading_digit(n: usize) -> (r: u8)
    ensures
        r as nat == first_digit(n as nat),
        r < 10,
{
    let mut m = n;
    while m >= 10
        invariant
            first_digit(m as nat) == first_digit(n as nat),
        decreases m,
    {
        m = m / 10;
    }
    m as u8
}

/// Whether every placement of `ps` is correct.
fn all_placements_correct(ps: &[Placement; WORD_LENGTH]) -> (r: bool)
    ensures
        r == (ps@ == all_correct()),
{
    let mut i: usize = 0;
    while i < WORD_LENGTH
        invariant
            i <= WORD_LENGTH,
            forall|j: int| 0 <= j < i ==> ps@[j] == Placement::Correct,
        decreases WORD_LENGTH - i,
    {
        match ps[i] {
            Placement::Correct => {},
            _ => {
                proof {
                    assert(all_correct()[i as int] == Placement::Correct);
                }
                return false;
            },
        }
        i = i + 1;
    }
    proof {
        assert(ps@ =~= all_correct());
    }
    true
}

/// The symbol of a placement in a feedback code.
fn symbol_of(p: Placement) -> (r: u8)
    ensures
        r == symbol(p),
{
    match p {
        Placement::Incorrect => 66,
        Placement::Misplaced => 89,
        Placement::Correct => 71,
    }
}

/// Whether `r` is what reporting the placements `ps` to the cursor `c` gives: `None` when all
/// placements are correct, as the solution was found, or when the table has no line left at
/// the cursor; otherwise a cursor one guess further, on the first line from its own on that
/// holds the code of `ps`, or on its own line when none does.
pub open spec fn reports_to(c: Cursor, ps: Seq<Placement>, r: Option<Cursor>) -> bool {
    &&& (r is Some <==> ps != all_correct() && has_line(table_of(c.spec_strategy()), c.spec_row()))
    &&& r matches Some(next) ==> {
        &&& next.spec_strategy() == c.spec_strategy()
        &&& next.spec_num_guesses() == c.spec_num_guesses() + 1
        &&& is_advance(
            table_of(c.spec_strategy()),
            c.spec_row(),
            feedback_code(ps, c.spec_num_guesses()),
            next.spec_row(),
        )
    }
}

/// A position in the decision table of a strategy: the first line that agrees with the
/// feedback reported so far, and the number of guesses made.
#[derive(Debug, Clone, Copy, PartialEq, Eq, Structural)]
pub struct Cursor {
    strategy: Strategy,
    row_offset: usize,
    num_guesses: usize,
}

impl Cursor {
    /// The strategy whose table the cursor reads.
    pub closed spec fn spec_strategy(self) -> Strategy {
        self.strategy
    }

    /// The first line of the table that agrees with the feedback so far.
    pub closed spec fn spec_row(self) -> nat {
        self.row_offset as nat
    }

    /// The number of guesses made so far.
    pub closed spec fn spec_num_guesses(self) -> nat {
        self.num_guesses as nat
    }

    /// A cursor at the start of the table of `strategy`, before any guess.
    pub fn new(strategy: Strategy) -> (r: Cursor)
        ensures
            r.spec_strategy() == strategy,
            r.spec_row() == 0,
            r.spec_num_guesses() == 0,
    {
        Cursor { strategy, row_offset: 0, num_guesses: 0 }
    }

    /// The number of guesses made so far.
    pub fn num_guesses(&self) -> (r: usize)
        ensures
            r == self.spec_num_guesses(),
    {
        self.num_guesses
    }

    /// Suggests the next word to guess: the word in the field of the next guess in the first
    /// line, from the cursor's line on, whose field holds a word. `None` when no line has one.
    pub fn suggest(&self) -> (r: Option<Word>)
        ensures
            is_suggestion(
                table_of(self.spec_strategy()),
                self.spec_row(),
                self.spec_num_guesses(),
                letters_of(r),
            ),
    {
        let table = self.strategy.table();
        let b = table.as_slice();
        let ghost bs = b@;
        let n = b.len();
        let row = self.row_offset;
        let depth = self.num_guesses;
        let mut start = match find_line_start(b, row) {
            Some(s) => s,
            None => {
                proof {
                    assert forall|k: nat|
                        #![trigger line_of(bs, k)]
                        row <= k && has_line(bs, k) implies field_word(line_of(bs, k), depth as nat) is None by {
                        lemma_line_start_grows(bs, row as nat, k);
                    }
                }
                return None;
            },
        };
        let mut k = row;
        proof {
            lemma_line_start_grows(bs, 0, k as nat);
        }
        while start < n
            invariant
                bs == b@,
                n == bs.len(),
                bs == table_of(self.strategy),
                row == self.row_offset,
                depth == self.num_guesses,
                row <= k,
                start == line_start_of(bs, k as nat),
                k <= start <= n,
                forall|j: nat|
                    #![trigger line_of(bs, j)]
                    row <= j < k ==> field_word(line_of(bs, j), depth as nat) is None,
            decreases n - start,
        {
            let end = find_line_end(b, start);
            let found = field_word_of(b, start, end, depth);
            if let Some(w) = found {
                proof {
                    assert(line_of(bs, k as nat) == bs.subrange(start as int, end as int));
                    assert(has_line(bs, k as nat));
                }
                return Some(w);
            }
            if end >= n {
                proof {
                    assert forall|j: nat|
                        #![trigger line_of(bs, j)]
                        row <= j && has_line(bs, j) implies field_word(line_of(bs, j), depth as nat) is None by {
                        if j > k {
                            lemma_line_start_grows(bs, (k + 1) as nat, j);
                        }
                    }
                }
                return None;
            }
            start = end + 1;
            k = k + 1;
        }
        proof {
            assert forall|j: nat|
                #![trigger line_of(bs, j)]
                row <= j && has_line(bs, j) implies field_word(line_of(bs, j), depth as nat) is None by {
                if j >= k {
                    lemma_line_start_grows(bs, k as nat, j);
                }
            }
        }
        None
    }

    /// Reports the placements that the last suggestion received.
    ///
    /// When they are all correct the solution was found and the session ends: `None`. So it
    /// does when the table has no line left at the cursor. Otherwise the cursor moves to the
    /// first line, from its own on, that holds the code of these placements for this guess,
    /// and stays where it is when no line does.
    pub fn report(self, placements: [Placement; WORD_LENGTH]) -> (r: Option<Cursor>)
        requires
            self.spec_num_guesses() < usize::MAX,
        ensures
            reports_to(self, placements@, r),
    {
        if all_placements_correct(&placements) {
            return None;
        }
        let table = self.strategy.table();
        let b = table.as_slice();
        let row = self.row_offset;
        let digit = leading_digit(self.num_guesses + 1);
        let code: [u8; CODE_LENGTH] = [
            symbol_of(placements[0]),
            symbol_of(placements[1]),
            symbol_of(placements[2]),
            symbol_of(placements[3]),
            symbol_of(placements[4]),
            48 + digit,
        ];
        let ghost want = feedback_code(placements@, self.num_guesses as nat);
        proof {
            assert(code@ =~= want);
        }
        match find_line_start(b, row) {
            None => None,
            Some(first) => {
                let next = match find_code_line(b, row, first, &code) {
                    Some(k) => k,
                    None => row,
                };
                Some(Cursor { strategy: self.strategy, row_offset: next, num_guesses: self.num_guesses + 1 })
            },
        }
    }
}

} // verus!
