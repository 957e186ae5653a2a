//! The coordinate codec: one parsing rule, keyed only by character class,
//! that turns a file letter or a rank digit of algebraic move notation into
//! a zero-based board index.

use vstd::prelude::*;

verus! {

/// A file letter of algebraic notation, `'a'` through `'h'`.
pub open spec fn is_file_char(c: char) -> bool {
    'a' <= c && c <= 'h'
}

/// A rank digit of algebraic notation, `'1'` through `'8'`.
pub open spec fn is_rank_char(c: char) -> bool {
    '1' <= c && c <= '8'
}

/// The index a coordinate character denotes: a file letter gives the column
/// `c - 'a'`; a rank digit gives the row `7 - (c - '1')`, rank 8 being the
/// first row of the internal board snapshot.
pub open spec fn spec_cordinate(c: char) -> int {
    if is_file_char(c) {
        c as int - 'a' as int
    } else {
        7 - (c as int - '1' as int)
    }
}

/// Whether a character is a file letter.
pub fn file_char(c: char) -> (r: bool)
    ensures
        r == is_file_char(c),
{
    'a' <= c && c <= 'h'
}

/// Whether a character is a rank digit.
pub fn rank_char(c: char) -> (r: bool)
    ensures
        r == is_rank_char(c),
{
    '1' <= c && c <= '8'
}

/// Converts one coordinate character of algebraic notation to its board
/// index.  Both axes of both endpoints of a move share this single rule:
/// the character class alone decides whether it is read as a file or as a
/// rank.
pub fn to_cordinate(c: char) -> (r: usize)
    requires
        is_file_char(c) || is_rank_char(c),
    ensures
        r == spec_cordinate(c),
        r < 8,
{
    if 'a' <= c && c <= 'h' {
        return c as usize - 'a' as usize;
    }
    7 - (c as usize - '1' as usize)
}

/// The first four characters of a move notation form a coordinate core:
/// file, rank, file, rank.
pub open spec fn is_move_core(s: Seq<char>) -> bool {
    &&& s.len() >= 4
    &&& is_file_char(s[0])
    &&& is_rank_char(s[1])
    &&& is_file_char(s[2])
    &&& is_rank_char(s[3])
}

/// Whether a string begins with a well-formed four-character coordinate
/// core.
pub fn move_core(s: &str) -> (r: bool)
    ensures
        r == is_move_core(s@),
{
    let len = s.unicode_len();
    if len < 4 {
        return false;
    }
    file_char(s.get_char(0)) && rank_char(s.get_char(1)) && file_char(s.get_char(2)) && rank_char(
        s.get_char(3),
    )
}

/// Splits the four-character core of a move notation into its two endpoint
/// coordinate pairs.  Character order is (file, rank, file, rank); each
/// resulting pair is (row, col), the row read from the rank character and
/// the column from the file character.
pub fn parse_move(mv: &str) -> (r: ((usize, usize), (usize, usize)))
    requires
        is_move_core(mv@),
    ensures
        r.0.0 == spec_cordinate(mv@[1]),
        r.0.1 == spec_cordinate(mv@[0]),
        r.1.0 == spec_cordinate(mv@[3]),
        r.1.1 == spec_cordinate(mv@[2]),
        r.0.0 < 8 && r.0.1 < 8 && r.1.0 < 8 && r.1.1 < 8,
{
    let c0 = mv.get_char(0);
    let c1 = mv.get_char(1);
    let c2 = mv.get_char(2);
    let c3 = mv.get_char(3);
    ((to_cordinate(c1), to_cordinate(c0)), (to_cordinate(c3), to_cordinate(c2)))
}

/// The file letter that denotes column `i`.
pub open spec fn file_of_index(i: int) -> char {
    ('a' as int + i) as char
}

/// The rank digit that denotes row `i`.
pub open spec fn rank_of_index(i: int) -> char {
    ('8' as int - i) as char
}

/// Over the file letters, the codec is a bijection onto the indices 0
/// through 7: every file letter lands inside the range, no two file letters
/// share an index, and every index is hit by a file letter.
pub proof fn lemma_cordinate_file_bijective()
    ensures
        forall|c: char| is_file_char(c) ==> 0 <= #[trigger] spec_cordinate(c) < 8,
        forall|c1: char, c2: char|
            #![trigger spec_cordinate(c1), spec_cordinate(c2)]
            is_file_char(c1) && is_file_char(c2) && spec_cordinate(c1) == spec_cordinate(c2)
                ==> c1 == c2,
        forall|i: int|
            0 <= i < 8 ==> is_file_char(#[trigger] file_of_index(i)) && spec_cordinate(
                file_of_index(i),
            ) == i,
{
}

/// Over the rank digits, the codec is a bijection onto the indices 0
/// through 7: every rank digit lands inside the range, no two rank digits
/// share an index, and every index is hit by a rank digit.
pub proof fn lemma_cordinate_rank_bijective()
    ensures
        forall|c: char| is_rank_char(c) ==> 0 <= #[trigger] spec_cordinate(c) < 8,
        forall|c1: char, c2: char|
            #![trigger spec_cordinate(c1), spec_cordinate(c2)]
            is_rank_char(c1) && is_rank_char(c2) && spec_cordinate(c1) == spec_cordinate(c2)
                ==> c1 == c2,
        forall|i: int|
            0 <= i < 8 ==> is_rank_char(#[trigger] rank_of_index(i)) && spec_cordinate(
                rank_of_index(i),
            ) == i,
{
}

} // verus!
