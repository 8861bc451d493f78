//! Taking a text apart: into the pieces between a separator, into
//! lines, into words, and reading a number.

use vstd::prelude::*;
use crate::text::push_char;

verus! {

/// The texts of a list of character vectors.
pub open spec fn piece_views(pieces: Seq<Vec<char>>) -> Seq<Seq<char>> {
    Seq::new(pieces.len(), |i: int| pieces[i]@)
}

/// The pieces of `s` between the separators, from the character at
/// `from` on, where `piece` holds the characters of the piece that is
/// open and `done` the pieces before it.
pub open spec fn split_from(
    s: Seq<char>,
    separator: char,
    from: int,
    piece: Seq<char>,
    done: Seq<Seq<char>>,
) -> Seq<Seq<char>>
    decreases s.len() - from,
{
    if 0 <= from < s.len() {
        if s[from] == separator {
            split_from(s, separator, from + 1, Seq::empty(), done.push(piece))
        } else {
            split_from(s, separator, from + 1, piece.push(s[from]), done)
        }
    } else {
        done.push(piece)
    }
}

/// The pieces of `s` between the separators: one more than there are
/// separators, empty pieces among them.
pub open spec fn split(s: Seq<char>, separator: char) -> Seq<Seq<char>> {
    split_from(s, separator, 0, Seq::empty(), Seq::empty())
}

/// A line without the carriage return at its end, if it has one.
pub open spec fn strip_carriage_return(line: Seq<char>) -> Seq<char> {
    if line.len() > 0 && line.last() == '\r' {
        line.drop_last()
    } else {
        line
    }
}

/// The lines of a text. A line ends at a line feed, or at a carriage
/// return followed by a line feed, and holds neither. The last line
/// needs no line ending, and there is no empty line behind the last
/// line ending.
pub open spec fn lines_of(s: Seq<char>) -> Seq<Seq<char>> {
    let pieces = split(s, '\n');
    let ended = Seq::new(
        (pieces.len() - 1) as nat,
        |i: int| strip_carriage_return(pieces[i]),
    );
    if pieces.len() > 0 && pieces.last().len() > 0 {
        ended.push(pieces.last())
    } else {
        ended
    }
}

/// The characters that separate words: the white space of Unicode.
pub open spec fn is_space(c: char) -> bool {
    let n = c as u32;
    ||| 0x09 <= n <= 0x0d
    ||| n == 0x20
    ||| n == 0x85
    ||| n == 0xa0
    ||| n == 0x1680
    ||| 0x2000 <= n <= 0x200a
    ||| n == 0x2028
    ||| n == 0x2029
    ||| n == 0x202f
    ||| n == 0x205f
    ||| n == 0x3000
}

/// The words of `s` from the character at `from` on, where `word`
/// holds the characters of the word that is open and `done` the words
/// before it.
pub open spec fn words_from(s: Seq<char>, from: int, word: Seq<char>, done: Seq<Seq<char>>) -> Seq<
    Seq<char>,
>
    decreases s.len() - from,
{
    let closed = if word.len() > 0 {
        done.push(word)
    } else {
        done
    };
    if 0 <= from < s.len() {
        if is_space(s[from]) {
            words_from(s, from + 1, Seq::empty(), closed)
        } else {
            words_from(s, from + 1, word.push(s[from]), done)
        }
    } else {
        closed
    }
}

/// The words of a text: the longest pieces without white space, none
/// of them empty.
pub open spec fn words_of(s: Seq<char>) -> Seq<Seq<char>> {
    words_from(s, 0, Seq::empty(), Seq::empty())
}

/// The value of a decimal digit.
pub open spec fn digit_value(c: char) -> Option<nat> {
    let n = c as u32;
    if 0x30 <= n <= 0x39 {
        Some((n - 0x30) as nat)
    } else {
        None
    }
}

/// The value of a text of decimal digits; the empty text has the
/// value 0.
pub open spec fn digits_value(s: Seq<char>) -> Option<nat>
    decreases s.len(),
{
    if s.len() == 0 {
        Some(0)
    } else {
        match (digits_value(s.drop_last()), digit_value(s.last())) {
            (Some(high), Some(low)) => Some(high * 10 + low),
            _ => None,
        }
    }
}

/// The number that a text writes: decimal digits, at least one, after
/// a plus sign or none, with a value that 32 bits hold.
pub open spec fn number_of(s: Seq<char>) -> Option<u32> {
    let digits = if s.len() > 0 && s[0] == '+' {
        s.skip(1)
    } else {
        s
    };
    if digits.len() == 0 {
        None
    } else {
        match digits_value(digits) {
            Some(value) => if value <= u32::MAX {
                Some(value as u32)
            } else {
                None
            },
            None => None,
        }
    }
}

/// The string of a vector of characters.
pub fn string_of(chars: &Vec<char>) -> (r: String)
    ensures
        r@ == chars@,
{
    let mut out = String::new();
    let mut i: usize = 0;
    while i < chars.len()
        invariant
            i <= chars@.len(),
            out@ == chars@.take(i as int),
        decreases chars@.len() - i,
    {
        push_char(&mut out, chars[i]);
        i = i + 1;
        assert(out@ =~= chars@.take(i as int));
    }
    assert(chars@.take(chars@.len() as int) =~= chars@);
    out
}

/// The pieces of `s` between the separators. See [`split`].
pub fn split_chars(s: &Vec<char>, separator: char) -> (r: Vec<Vec<char>>)
    ensures
        piece_views(r@) == split(s@, separator),
{
    let mut done: Vec<Vec<char>> = Vec::new();
    let mut piece: Vec<char> = Vec::new();
    let mut i: usize = 0;
    assert(piece_views(done@) =~= Seq::<Seq<char>>::empty());
    while i < s.len()
        invariant
            i <= s@.len(),
            split(s@, separator) == split_from(
                s@,
                separator,
                i as int,
                piece@,
                piece_views(done@),
            ),
        decreases s@.len() - i,
    {
        if s[i] == separator {
            let ghost before = piece_views(done@);
            let ghost closed = piece@;
            done.push(piece);
            assert(piece_views(done@) =~= before.push(closed));
            piece = Vec::new();
        } else {
            piece.push(s[i]);
        }
        i = i + 1;
    }
    let ghost before = piece_views(done@);
    let ghost closed = piece@;
    done.push(piece);
    assert(piece_views(done@) =~= before.push(closed));
    done
}

/// The lines of a text. See [`lines_of`].
pub fn lines(s: &Vec<char>) -> (r: Vec<Vec<char>>)
    ensures
        piece_views(r@) == lines_of(s@),
{
    let mut pieces = split_chars(s, '\n');
    let ghost all = piece_views(pieces@);
    assert(all.len() > 0) by {
        lemma_split_len(s@, '\n', 0, Seq::empty(), Seq::empty());
    }
    let last = pieces.pop().unwrap();
    assert(last@ == all.last());
    let mut out: Vec<Vec<char>> = Vec::new();
    let mut i: usize = 0;
    while i < pieces.len()
        invariant
            i <= pieces@.len(),
            pieces@.len() == all.len() - 1,
            forall|j: int| 0 <= j < pieces@.len() ==> pieces@[j]@ == all[j],
            out@.len() == i,
            forall|j: int| 0 <= j < i ==> out@[j]@ == strip_carriage_return(all[j]),
        decreases pieces@.len() - i,
    {
        let line = &pieces[i];
        let mut copy: Vec<char> = Vec::new();
        let keep = if line.len() > 0 && line[line.len() - 1] == '\r' {
            line.len() - 1
        } else {
            line.len()
        };
        let mut k: usize = 0;
        while k < keep
            invariant
                k <= keep <= line@.len(),
                copy@ == line@.take(k as int),
            decreases keep - k,
        {
            copy.push(line[k]);
            k = k + 1;
            assert(copy@ =~= line@.take(k as int));
        }
        assert(copy@ =~= strip_carriage_return(line@));
        out.push(copy);
        i = i + 1;
    }
    if last.len() > 0 {
        out.push(last);
    }
    assert(piece_views(out@) =~= lines_of(s@));
    out
}

proof fn lemma_split_len(
    s: Seq<char>,
    separator: char,
    from: int,
    piece: Seq<char>,
    done: Seq<Seq<char>>,
)
    requires
        0 <= from,
    ensures
        split_from(s, separator, from, piece, done).len() > done.len(),
    decreases s.len() - from,
{
    if from < s.len() {
        if s[from] == separator {
            lemma_split_len(s, separator, from + 1, Seq::empty(), done.push(piece));
        } else {
            lemma_split_len(s, separator, from + 1, piece.push(s[from]), done);
        }
    }
}

/// Whether a character separates words.
pub fn is_space_char(c: char) -> (r: bool)
    ensures
        r == is_space(c),
{
    let n = c as u32;
    (0x09 <= n && n <= 0x0d) || n == 0x20 || n == 0x85 || n == 0xa0 || n == 0x1680 || (0x2000 <= n
        && n <= 0x200a) || n == 0x2028 || n == 0x2029 || n == 0x202f || n == 0x205f || n == 0x3000
}

/// The words of a text. See [`words_of`].
pub fn words(s: &Vec<char>) -> (r: Vec<Vec<char>>)
    ensures
        piece_views(r@) == words_of(s@),
{
    let mut done: Vec<Vec<char>> = Vec::new();
    let mut word: Vec<char> = Vec::new();
    let mut i: usize = 0;
    assert(piece_views(done@) =~= Seq::<Seq<char>>::empty());
    while i < s.len()
        invariant
            i <= s@.len(),
            words_of(s@) == words_from(s@, i as int, word@, piece_views(done@)),
        decreases s@.len() - i,
    {
        if is_space_char(s[i]) {
            if word.len() > 0 {
                let ghost before = piece_views(done@);
                let ghost closed = word@;
                done.push(word);
                assert(piece_views(done@) =~= before.push(closed));
                word = Vec::new();
            }
            assert(word@ =~= Seq::<char>::empty());
        } else {
            word.push(s[i]);
        }
        i = i + 1;
    }
    if word.len() > 0 {
        let ghost before = piece_views(done@);
        let ghost closed = word@;
        done.push(word);
        assert(piece_views(done@) =~= before.push(closed));
    }
    done
}

proof fn lemma_digits_grow(s: Seq<char>, k: int)
    requires
        0 <= k <= s.len(),
    ensures
        digits_value(s).is_some() ==> digits_value(s.take(k)).is_some() && digits_value(
            s.take(k),
        ).unwrap() <= digits_value(s).unwrap(),
    decreases s.len(),
{
    if k < s.len() {
        lemma_digits_grow(s.drop_last(), k);
        assert(s.drop_last().take(k) =~= s.take(k));
    } else {
        assert(s.take(k) =~= s);
    }
}

/// The number that a text writes. See [`number_of`].
#[verifier::loop_isolation(false)]
pub fn parse_number(s: &Vec<char>) -> (r: Option<u32>)
    ensures
        r == number_of(s@),
{
    let start: usize = if s.len() > 0 && s[0] == '+' {
        1
    } else {
        0
    };
    let ghost digits = s@.skip(start as int);
    assert(s@.skip(0) =~= s@);
    if start == s.len() {
        return None;
    }
    let mut value: u64 = 0;
    let mut i: usize = start;
    assert(digits.take(0) =~= Seq::<char>::empty());
    while i < s.len()
        invariant
            start <= i <= s@.len(),
            digits == s@.skip(start as int),
            digits_value(digits.take(i - start)) == Some(value as nat),
            value <= u32::MAX,
        decreases s@.len() - i,
    {
        let c = s[i];
        let n = c as u32;
        proof {
            let next = digits.take(i - start + 1);
            assert(next.drop_last() =~= digits.take(i - start));
            assert(next.last() == c);
            assert(digits_value(next) == match digit_value(c) {
                Some(low) => Some(value as nat * 10 + low),
                None => None,
            });
            lemma_digits_grow(digits, i - start + 1);
        }
        if n < 0x30 || n > 0x39 {
            assert(digit_value(c).is_none());
            assert(digits_value(digits).is_none());
            return None;
        }
        value = value * 10 + (n - 0x30) as u64;
        if value > u32::MAX as u64 {
            assert(digits_value(digits.take(i - start + 1)) == Some(value as nat));
            return None;
        }
        i = i + 1;
    }
    assert(digits.take(i - start) =~= digits);
    Some(value as u32)
}

/// The integer that a text writes: decimal digits, at least one, after
/// a plus sign, a minus sign or none, with a value that 64 bits hold
/// with a sign.
pub open spec fn integer_of(s: Seq<char>) -> Option<i64> {
    let negative = s.len() > 0 && s[0] == '-';
    let digits = if s.len() > 0 && (s[0] == '+' || s[0] == '-') {
        s.skip(1)
    } else {
        s
    };
    if digits.len() == 0 {
        None
    } else {
        match digits_value(digits) {
            Some(value) => if negative {
                if value <= 0x8000_0000_0000_0000 {
                    Some((-(value as int)) as i64)
                } else {
                    None
                }
            } else {
                if value <= i64::MAX {
                    Some(value as i64)
                } else {
                    None
                }
            },
            None => None,
        }
    }
}

/// The integer that a text writes. See [`integer_of`].
#[verifier::loop_isolation(false)]
pub fn parse_integer(s: &Vec<char>) -> (r: Option<i64>)
    ensures
        r == integer_of(s@),
{
    let negative = s.len() > 0 && s[0] == '-';
    let start: usize = if s.len() > 0 && (s[0] == '+' || s[0] == '-') {
        1
    } else {
        0
    };
    let ghost digits = s@.skip(start as int);
    assert(s@.skip(0) =~= s@);
    if start == s.len() {
        return None;
    }
    let limit: u128 = if negative {
        0x8000_0000_0000_0000
    } else {
        0x7fff_ffff_ffff_ffff
    };
    let mut value: u128 = 0;
    let mut i: usize = start;
    assert(digits.take(0) =~= Seq::<char>::empty());
    while i < s.len()
        invariant
            start <= i <= s@.len(),
            digits_value(digits.take(i - start)) == Some(value as nat),
            value <= limit,
        decreases s@.len() - i,
    {
        let c = s[i];
        let n = c as u32;
        proof {
            let next = digits.take(i - start + 1);
            assert(next.drop_last() =~= digits.take(i - start));
            assert(next.last() == c);
            assert(digits_value(next) == match digit_value(c) {
                Some(low) => Some(value as nat * 10 + low),
                None => None,
            });
            lemma_digits_grow(digits, i - start + 1);
        }
        if n < 0x30 || n > 0x39 {
            assert(digit_value(c).is_none());
            assert(digits_value(digits).is_none());
            return None;
        }
        value = value * 10 + (n - 0x30) as u128;
        if value > limit {
            assert(digits_value(digits.take(i - start + 1)) == Some(value as nat));
            return None;
        }
        i = i + 1;
    }
    assert(digits.take(i - start) =~= digits);
    if negative {
        if value == 0x8000_0000_0000_0000 {
            Some(i64::MIN)
        } else {
            Some(-(value as i64))
        }
    } else {
        Some(value as i64)
    }
}

} // verus!
