//! Character-level text helpers: line splitting as `str::lines` does it,
//! repetition, and building strings from characters.
use vstd::prelude::*;

verus! {

/// Appends one character to a string (`String::push`).
#[verifier::external_body]
pub(crate) fn push_char(s: &mut String, c: char)
    ensures
        final(s)@ == old(s)@.push(c),
{
    s.push(c);
}

/// The characters of a string slice, in order.
pub fn chars_of(s: &str) -> (out: Vec<char>)
    ensures
        out@ == s@,
{
    let mut out: Vec<char> = Vec::new();
    for c in it: s.chars()
        invariant
            out@ == it.seq().take(it.index() as int),
    {
        out.push(c);
    }
    out
}

/// The string made of the given characters.
pub fn string_of(cs: &Vec<char>) -> (out: String)
    ensures
        out@ == cs@,
{
    let mut out = String::new();
    for i in 0..cs.len()
        invariant
            out@ == cs@.take(i as int),
    {
        push_char(&mut out, cs[i]);
        assert(cs@.take(i + 1) == cs@.take(i as int).push(cs@[i as int]));
    }
    assert(cs@.take(cs.len() as int) == cs@);
    out
}

/// The views of a sequence of strings.
pub open spec fn strings_view(v: Seq<String>) -> Seq<Seq<char>> {
    v.map_values(|s: String| s@)
}

/// The views of a sequence of character vectors.
pub open spec fn char_vecs_view(v: Seq<Vec<char>>) -> Seq<Seq<char>> {
    v.map_values(|s: Vec<char>| s@)
}

/// The pieces of `s` between line feeds; there is always one more piece than
/// there are line feeds, the last one being the text after the last line feed.
pub open spec fn pieces(s: Seq<char>) -> Seq<Seq<char>>
    decreases s.len(),
{
    if s.len() == 0 {
        seq![Seq::<char>::empty()]
    } else {
        let p = pieces(s.drop_last());
        if s.last() == '\n' {
            p.push(Seq::<char>::empty())
        } else {
            p.update(p.len() - 1, p.last().push(s.last()))
        }
    }
}

/// There is always at least one piece.
pub proof fn lemma_pieces_nonempty(s: Seq<char>)
    ensures
        pieces(s).len() >= 1,
    decreases s.len(),
{
    if s.len() > 0 {
        lemma_pieces_nonempty(s.drop_last());
    }
}

/// `l` without one final carriage return, if it has one.
pub open spec fn strip_one_cr(l: Seq<char>) -> Seq<char> {
    if l.len() > 0 && l.last() == '\r' {
        l.drop_last()
    } else {
        l
    }
}

/// `l` without all of its final carriage returns.
pub open spec fn strip_all_cr(l: Seq<char>) -> Seq<char>
    decreases l.len(),
{
    if l.len() > 0 && l.last() == '\r' {
        strip_all_cr(l.drop_last())
    } else {
        l
    }
}

/// The lines of `s` as `str::lines` yields them: split at line feeds, each
/// terminated line loses one carriage return before its line feed, and a final
/// unterminated line is kept only when it is not empty.
pub open spec fn std_lines(s: Seq<char>) -> Seq<Seq<char>> {
    let p = pieces(s);
    let done = p.drop_last().map_values(|l: Seq<char>| strip_one_cr(l));
    if p.last().len() > 0 {
        done.push(p.last())
    } else {
        done
    }
}

/// Splits `cs` at its line feeds: the terminated pieces and the text after the
/// last line feed.
pub fn split_pieces(cs: &Vec<char>) -> (r: (Vec<Vec<char>>, Vec<char>))
    ensures
        pieces(cs@).len() >= 1,
        char_vecs_view(r.0@) == pieces(cs@).drop_last(),
        r.1@ == pieces(cs@).last(),
{
    let mut done: Vec<Vec<char>> = Vec::new();
    let mut current: Vec<char> = Vec::new();
    for i in 0..cs.len()
        invariant
            pieces(cs@.take(i as int)).len() >= 1,
            char_vecs_view(done@) == pieces(cs@.take(i as int)).drop_last(),
            current@ == pieces(cs@.take(i as int)).last(),
    {
        let c = cs[i];
        let ghost prev = cs@.take(i as int);
        proof {
            assert(cs@.take(i + 1).drop_last() == prev);
            assert(cs@.take(i + 1).last() == c);
            lemma_pieces_nonempty(prev);
        }
        if c == '\n' {
            let ghost old_done = done@;
            let line = current;
            let ghost line_view = line@;
            done.push(line);
            current = Vec::new();
            proof {
                let p = pieces(prev);
                assert(pieces(cs@.take(i + 1)) == p.push(Seq::<char>::empty()));
                assert(char_vecs_view(done@) =~= char_vecs_view(old_done).push(line_view));
                assert(p.drop_last().push(p.last()) =~= p);
                assert(pieces(cs@.take(i + 1)).drop_last() =~= p);
            }
        } else {
            current.push(c);
            proof {
                let p = pieces(prev);
                let q = pieces(cs@.take(i + 1));
                assert(q == p.update(p.len() - 1, p.last().push(c)));
                assert(q.drop_last() == p.drop_last());
            }
        }
    }
    assert(cs@.take(cs.len() as int) == cs@);
    (done, current)
}

/// The lines of `s`, as `str::lines` yields them.
pub fn lines_of(s: &str) -> (out: Vec<String>)
    ensures
        strings_view(out@) == std_lines(s@),
{
    let cs = chars_of(s);
    let (done, tail) = split_pieces(&cs);
    let ghost p = pieces(s@);
    proof {
        lemma_pieces_nonempty(s@);
    }
    let mut out: Vec<String> = Vec::new();
    for i in 0..done.len()
        invariant
            p.len() >= 1,
            char_vecs_view(done@) == p.drop_last(),
            strings_view(out@) == p.drop_last().take(i as int).map_values(
                |l: Seq<char>| strip_one_cr(l),
            ),
    {
        let mut line = done[i].clone();
        let n = line.len();
        if n > 0 && line[n - 1] == '\r' {
            line.pop();
        }
        assert(line@ == strip_one_cr(done@[i as int]@));
        let ghost old_out = out@;
        let piece = string_of(&line);
        out.push(piece);
        assert(strings_view(out@) =~= strings_view(old_out).push(piece@));
        assert(p.drop_last().take(i + 1) == p.drop_last().take(i as int).push(p.drop_last()[i as int]));
        assert(p.drop_last().take(i + 1).map_values(|l: Seq<char>| strip_one_cr(l)) =~= p.drop_last().take(i as int).map_values(|l: Seq<char>| strip_one_cr(l)).push(strip_one_cr(p.drop_last()[i as int])));
    }
    assert(p.drop_last().take(done.len() as int) == p.drop_last());
    if tail.len() > 0 {
        let ghost old_out = out@;
        let last = string_of(&tail);
        out.push(last);
        assert(strings_view(out@) =~= strings_view(old_out).push(last@));
    }
    out
}

/// Removes the final carriage returns of a line.
pub fn strip_trailing_crs(line: &Vec<char>) -> (out: Vec<char>)
    ensures
        out@ == strip_all_cr(line@),
{
    let mut out = line.clone();
    while out.len() > 0 && out[out.len() - 1] == '\r'
        invariant
            strip_all_cr(out@) == strip_all_cr(line@),
        decreases out.len(),
    {
        out.pop();
    }
    out
}

/// `n` copies of the character `c`.
pub open spec fn repeat_char(c: char, n: nat) -> Seq<char> {
    Seq::new(n, |i: int| c)
}

/// A string of `n` spaces (`" ".repeat(n)`).
pub fn spaces(n: usize) -> (out: String)
    ensures
        out@ == repeat_char(' ', n as nat),
{
    let mut out = String::new();
    for i in 0..n
        invariant
            out@ == repeat_char(' ', i as nat),
    {
        push_char(&mut out, ' ');
        assert(repeat_char(' ', (i + 1) as nat) == repeat_char(' ', i as nat).push(' '));
    }
    out
}

/// Appends a string slice to a string.
pub fn append_str(s: &mut String, t: &str)
    ensures
        final(s)@ == old(s)@ + t@,
{
    s.append(t);
}


/// Whether two string slices hold the same characters.
pub fn same_text(a: &str, b: &str) -> (r: bool)
    ensures
        r == (a@ == b@),
{
    let x = chars_of(a);
    let y = chars_of(b);
    if x.len() != y.len() {
        return false;
    }
    for i in 0..x.len()
        invariant
            x@ == a@,
            y@ == b@,
            x.len() == y.len(),
            forall|j: int| 0 <= j < i ==> x@[j] == y@[j],
    {
        if x[i] != y[i] {
            return false;
        }
    }
    assert(x@ =~= y@);
    true
}


/// The decimal digit of a number below ten.
pub open spec fn digit_char(d: nat) -> char {
    if d == 0 { '0' } else if d == 1 { '1' } else if d == 2 { '2' } else if d == 3 { '3' }
    else if d == 4 { '4' } else if d == 5 { '5' } else if d == 6 { '6' } else if d == 7 { '7' }
    else if d == 8 { '8' } else { '9' }
}

/// The decimal notation of a natural number, without leading zeros.
pub open spec fn decimal(n: nat) -> Seq<char>
    decreases n,
{
    if n < 10 {
        seq![digit_char(n)]
    } else {
        decimal(n / 10).push(digit_char(n % 10))
    }
}

/// The decimal notation of an integer, with a minus sign when negative.
pub open spec fn signed_decimal(i: int) -> Seq<char> {
    if i < 0 {
        seq!['-'] + decimal((-i) as nat)
    } else {
        decimal(i as nat)
    }
}

fn digit(d: u64) -> (c: char)
    requires
        d < 10,
    ensures
        c == digit_char(d as nat),
{
    if d == 0 { '0' } else if d == 1 { '1' } else if d == 2 { '2' } else if d == 3 { '3' }
    else if d == 4 { '4' } else if d == 5 { '5' } else if d == 6 { '6' } else if d == 7 { '7' }
    else if d == 8 { '8' } else { '9' }
}

/// Appends the decimal notation of `n`.
pub fn push_decimal(s: &mut String, n: u64)
    ensures
        final(s)@ == old(s)@ + decimal(n as nat),
    decreases n,
{
    if n < 10 {
        push_char(s, digit(n));
        assert(decimal(n as nat) == seq![digit_char(n as nat)]);
    } else {
        push_decimal(s, n / 10);
        push_char(s, digit(n % 10));
        assert(decimal(n as nat) == decimal((n / 10) as nat).push(digit_char((n % 10) as nat)));
    }
}

/// Appends the decimal notation of `i`, with a minus sign when negative.
pub fn push_signed_decimal(s: &mut String, i: i64)
    ensures
        final(s)@ == old(s)@ + signed_decimal(i as int),
{
    if i < 0 {
        push_char(s, '-');
        let magnitude: u64 = if i == i64::MIN {
            9223372036854775808u64
        } else {
            (-i) as u64
        };
        push_decimal(s, magnitude);
    } else {
        push_decimal(s, i as u64);
    }
}


/// The last piece never holds a line feed.
pub proof fn lemma_last_piece_has_no_newline(s: Seq<char>)
    ensures
        pieces(s).len() >= 1,
        !pieces(s).last().contains('\n'),
    decreases s.len(),
{
    lemma_pieces_nonempty(s);
    if s.len() > 0 {
        lemma_last_piece_has_no_newline(s.drop_last());
        let p = pieces(s.drop_last());
        if s.last() != '\n' {
            assert forall|i: int| 0 <= i < p.last().push(s.last()).len() implies p.last().push(s.last())[i] != '\n' by {
                if i < p.last().len() {
                    assert(!p.last().contains('\n'));
                    if p.last()[i] == '\n' {
                        assert(p.last().contains('\n'));
                    }
                }
            }
        }
    }
}

/// Text without line feeds is a single piece.
pub proof fn lemma_pieces_without_newline(s: Seq<char>)
    requires
        !s.contains('\n'),
    ensures
        pieces(s) == seq![s],
    decreases s.len(),
{
    if s.len() > 0 {
        assert(!s.drop_last().contains('\n')) by {
            if s.drop_last().contains('\n') {
                let i = choose|i: int| 0 <= i < s.drop_last().len() && s.drop_last()[i] == '\n';
                assert(s[i] == '\n');
            }
        }
        lemma_pieces_without_newline(s.drop_last());
        assert(s.last() != '\n') by {
            assert(s[s.len() - 1] == s.last());
        }
        assert(s.drop_last().push(s.last()) =~= s);
        let p = pieces(s.drop_last());
        assert(p.last() == s.drop_last());
        assert(pieces(s) == p.update(p.len() - 1, p.last().push(s.last())));
        assert(pieces(s) =~= seq![s]);
    } else {
        assert(s =~= Seq::<char>::empty());
    }
}

/// Cutting a text in two: its pieces are the terminated pieces of the first
/// part, then the pieces of what the first part left unterminated followed by
/// the second part.
pub proof fn lemma_pieces_concat(a: Seq<char>, b: Seq<char>)
    ensures
        pieces(a).len() >= 1,
        pieces(a + b) == pieces(a).drop_last() + pieces(pieces(a).last() + b),
    decreases b.len(),
{
    lemma_pieces_nonempty(a);
    let p = pieces(a);
    if b.len() == 0 {
        assert(a + b =~= a);
        assert(p.last() + b =~= p.last());
        lemma_last_piece_has_no_newline(a);
        lemma_pieces_without_newline(p.last());
        assert(p =~= p.drop_last() + seq![p.last()]);
    } else {
        let b0 = b.drop_last();
        let c = b.last();
        lemma_pieces_concat(a, b0);
        let q = pieces(p.last() + b0);
        lemma_pieces_nonempty(p.last() + b0);
        assert((a + b).drop_last() =~= a + b0);
        assert((a + b).last() == c);
        assert((p.last() + b).drop_last() =~= p.last() + b0);
        assert((p.last() + b).last() == c);
        let left = pieces(a + b0);
        assert(left == p.drop_last() + q);
        if c == '\n' {
            assert(pieces(a + b) == left.push(Seq::<char>::empty()));
            assert(pieces(p.last() + b) == q.push(Seq::<char>::empty()));
            assert(left.push(Seq::<char>::empty()) =~= p.drop_last() + q.push(Seq::<char>::empty()));
        } else {
            assert(pieces(a + b) == left.update(left.len() - 1, left.last().push(c)));
            assert(pieces(p.last() + b) == q.update(q.len() - 1, q.last().push(c)));
            assert(left.last() == q.last());
            assert(left.update(left.len() - 1, left.last().push(c)) =~= p.drop_last() + q.update(
                q.len() - 1,
                q.last().push(c),
            ));
        }
    }
}

} // verus!
