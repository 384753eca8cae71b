//! Line and word splitting and substring search over the text that the
//! diagnostic tools print.
use vstd::prelude::*;

verus! {

/// The text of each string in `v`.
pub open spec fn views(v: Seq<String>) -> Seq<Seq<char>> {
    v.map_values(|s: String| s@)
}

/// A line with the carriage return that preceded its line feed removed.
pub open spec fn strip_cr(l: Seq<char>) -> Seq<char> {
    if l.len() > 0 && l.last() == '\r' {
        l.drop_last()
    } else {
        l
    }
}

/// Reading `s` from the left: the lines closed by a line feed so far, and the
/// line still open.
pub open spec fn line_scan(s: Seq<char>) -> (Seq<Seq<char>>, Seq<char>)
    decreases s.len(),
{
    if s.len() == 0 {
        (seq![], seq![])
    } else {
        let (done, cur) = line_scan(s.drop_last());
        if s.last() == '\n' {
            (done.push(strip_cr(cur)), seq![])
        } else {
            (done, cur.push(s.last()))
        }
    }
}

/// The lines of `s`: split at each line feed, a carriage return just before
/// the line feed dropped, and no empty line after a final line feed.
pub open spec fn lines_of(s: Seq<char>) -> Seq<Seq<char>> {
    let (done, cur) = line_scan(s);
    if cur.len() > 0 {
        done.push(cur)
    } else {
        done
    }
}

/// Unicode white space, the characters on which words are split.
pub open spec fn is_white(c: char) -> bool {
    let u = c as u32;
    (0x09 <= u && u <= 0x0D) || u == 0x20 || u == 0x85 || u == 0xA0 || u == 0x1680 || (0x2000
        <= u && u <= 0x200A) || u == 0x2028 || u == 0x2029 || u == 0x202F || u == 0x205F || u
        == 0x3000
}

/// Reading `s` from the left: the words ended by white space so far, and the
/// word still open.
pub open spec fn word_scan(s: Seq<char>) -> (Seq<Seq<char>>, Seq<char>)
    decreases s.len(),
{
    if s.len() == 0 {
        (seq![], seq![])
    } else {
        let (done, cur) = word_scan(s.drop_last());
        if is_white(s.last()) {
            if cur.len() > 0 {
                (done.push(cur), seq![])
            } else {
                (done, seq![])
            }
        } else {
            (done, cur.push(s.last()))
        }
    }
}

/// The maximal runs of non-white characters of `s`, in order.
pub open spec fn words_of(s: Seq<char>) -> Seq<Seq<char>> {
    let (done, cur) = word_scan(s);
    if cur.len() > 0 {
        done.push(cur)
    } else {
        done
    }
}

/// `p` occurs in `s` as a contiguous piece.
pub open spec fn contains(s: Seq<char>, p: Seq<char>) -> bool {
    exists|i: int| 0 <= i && i + p.len() <= s.len() && #[trigger] s.subrange(i, i + p.len()) == p
}

/// The lines of `ls` in which `p` occurs, in their order.
pub open spec fn lines_containing(ls: Seq<Seq<char>>, p: Seq<char>) -> Seq<Seq<char>>
    decreases ls.len(),
{
    if ls.len() == 0 {
        seq![]
    } else {
        let rest = lines_containing(ls.drop_last(), p);
        if contains(ls.last(), p) {
            rest.push(ls.last())
        } else {
            rest
        }
    }
}

/// The lines of `ls` with a line feed between each two.
pub open spec fn join_lines(ls: Seq<Seq<char>>) -> Seq<char>
    decreases ls.len(),
{
    if ls.len() == 0 {
        seq![]
    } else if ls.len() == 1 {
        ls[0]
    } else {
        join_lines(ls.drop_last()) + "\n"@ + ls.last()
    }
}

/// The characters of `s`, in order.
pub fn chars_of(s: &str) -> (r: Vec<char>)
    ensures
        r@ == s@,
{
    let mut r: Vec<char> = Vec::new();
    for c in it: s.chars()
        invariant
            it.seq() == s@,
            r@ == it.seq().take(it.index() as int),
    {
        r.push(c);
    }
    r
}

/// Whether `c` is Unicode white space.
pub fn is_white_char(c: char) -> (r: bool)
    ensures
        r == is_white(c),
{
    let u = c as u32;
    (0x09 <= u && u <= 0x0D) || u == 0x20 || u == 0x85 || u == 0xA0 || u == 0x1680 || (0x2000
        <= u && u <= 0x200A) || u == 0x2028 || u == 0x2029 || u == 0x202F || u == 0x205F || u
        == 0x3000
}

/// Each span lies within `n` characters.
pub open spec fn spans_fit(spans: Seq<(usize, usize)>, n: int) -> bool {
    forall|k: int| 0 <= k < spans.len() ==> #[trigger] spans[k].0 <= spans[k].1 <= n
}

/// The pieces of `s` that the spans mark.
pub open spec fn pieces(s: Seq<char>, spans: Seq<(usize, usize)>) -> Seq<Seq<char>> {
    spans.map_values(|sp: (usize, usize)| s.subrange(sp.0 as int, sp.1 as int))
}

/// Where the lines of `cs` stand in it.
fn line_spans(cs: &Vec<char>) -> (r: Vec<(usize, usize)>)
    ensures
        spans_fit(r@, cs.len() as int),
        pieces(cs@, r@) == lines_of(cs@),
{
    let mut spans: Vec<(usize, usize)> = Vec::new();
    let mut start: usize = 0;
    let mut i: usize = 0;
    while i < cs.len()
        invariant
            start <= i <= cs.len(),
            spans_fit(spans@, cs.len() as int),
            pieces(cs@, spans@) == line_scan(cs@.take(i as int)).0,
            line_scan(cs@.take(i as int)).1 == cs@.subrange(start as int, i as int),
        decreases cs.len() - i,
    {
        let ghost before = cs@.take(i as int);
        assert(cs@.take(i + 1).drop_last() == before);
        assert(cs@.take(i + 1).last() == cs@[i as int]);
        if cs[i] == '\n' {
            let mut end: usize = i;
            if end > start && cs[end - 1] == '\r' {
                end = end - 1;
                assert(cs@.subrange(start as int, i as int).drop_last() == cs@.subrange(
                    start as int,
                    end as int,
                ));
            }
            spans.push((start, end));
            assert(pieces(cs@, spans@) == line_scan(before).0.push(
                strip_cr(line_scan(before).1),
            ));
            start = i + 1;
            assert(cs@.subrange(start as int, start as int) == Seq::<char>::empty());
        } else {
            assert(cs@.subrange(start as int, i + 1) == cs@.subrange(start as int, i as int).push(
                cs@[i as int],
            ));
        }
        i = i + 1;
    }
    assert(cs@.take(cs.len() as int) == cs@);
    if start < cs.len() {
        spans.push((start, cs.len()));
        assert(pieces(cs@, spans@) == line_scan(cs@).0.push(line_scan(cs@).1));
    }
    spans
}

/// Where the words of `cs[lo..hi]` stand in `cs`.
fn word_spans(cs: &Vec<char>, lo: usize, hi: usize) -> (r: Vec<(usize, usize)>)
    requires
        lo <= hi <= cs.len(),
    ensures
        spans_fit(r@, cs.len() as int),
        pieces(cs@, r@) == words_of(cs@.subrange(lo as int, hi as int)),
{
    let mut spans: Vec<(usize, usize)> = Vec::new();
    let mut start: usize = lo;
    let mut i: usize = lo;
    while i < hi
        invariant
            lo <= start <= i <= hi <= cs.len(),
            spans_fit(spans@, cs.len() as int),
            pieces(cs@, spans@) == word_scan(cs@.subrange(lo as int, i as int)).0,
            word_scan(cs@.subrange(lo as int, i as int)).1 == cs@.subrange(
                start as int,
                i as int,
            ),
        decreases hi - i,
    {
        let ghost before = cs@.subrange(lo as int, i as int);
        assert(cs@.subrange(lo as int, i + 1).drop_last() == before);
        assert(cs@.subrange(lo as int, i + 1).last() == cs@[i as int]);
        if is_white_char(cs[i]) {
            if start < i {
                spans.push((start, i));
                assert(pieces(cs@, spans@) == word_scan(before).0.push(word_scan(before).1));
            }
            start = i + 1;
            assert(cs@.subrange(start as int, start as int) == Seq::<char>::empty());
        } else {
            assert(cs@.subrange(start as int, i + 1) == cs@.subrange(start as int, i as int).push(
                cs@[i as int],
            ));
        }
        i = i + 1;
    }
    if start < hi {
        spans.push((start, hi));
        assert(pieces(cs@, spans@) == word_scan(cs@.subrange(lo as int, hi as int)).0.push(
            word_scan(cs@.subrange(lo as int, hi as int)).1,
        ));
    }
    spans
}

/// Whether `p` occurs in `cs[lo..hi]`.
fn occurs_in(cs: &Vec<char>, lo: usize, hi: usize, p: &Vec<char>) -> (r: bool)
    requires
        lo <= hi <= cs.len(),
    ensures
        r == contains(cs@.subrange(lo as int, hi as int), p@),
{
    let ghost s = cs@.subrange(lo as int, hi as int);
    let n = p.len();
    if n > hi - lo {
        return false;
    }
    let mut j: usize = lo;
    while j <= hi - n
        invariant
            lo <= j <= hi - n + 1,
            n == p.len(),
            n <= hi - lo,
            hi <= cs.len(),
            s == cs@.subrange(lo as int, hi as int),
            forall|i: int| 0 <= i < j - lo ==> #[trigger] s.subrange(i, i + n) != p@,
        decreases hi - n + 1 - j,
    {
        let mut k: usize = 0;
        let mut same = true;
        while k < n
            invariant
                k <= n,
                n == p.len(),
                j + n <= hi <= cs.len(),
                same ==> forall|m: int| 0 <= m < k ==> cs@[j + m] == p@[m],
                !same ==> exists|m: int| 0 <= m < n && cs@[j + m] != p@[m],
            decreases n - k,
        {
            if cs[j + k] != p[k] {
                same = false;
            }
            k = k + 1;
        }
        let ghost at = j - lo;
        if same {
            assert(s.subrange(at, at + n) == p@);
            return true;
        }
        assert(s.subrange(at, at + n) != p@) by {
            let m = choose|m: int| 0 <= m < n && cs@[j + m] != p@[m];
            assert(s.subrange(at, at + n)[m] == cs@[j + m]);
        }
        j = j + 1;
    }
    false
}

/// The pieces of `s` that `spans` marks, as strings.
fn cut(s: &str, spans: &Vec<(usize, usize)>) -> (r: Vec<String>)
    requires
        spans_fit(spans@, s@.len() as int),
    ensures
        views(r@) == pieces(s@, spans@),
{
    let mut r: Vec<String> = Vec::new();
    let mut k: usize = 0;
    while k < spans.len()
        invariant
            k <= spans.len(),
            spans_fit(spans@, s@.len() as int),
            views(r@) == pieces(s@, spans@.take(k as int)),
        decreases spans.len() - k,
    {
        let (a, b) = spans[k];
        let piece = String::from_str(s.substring_char(a, b));
        let ghost prev = r@;
        r.push(piece);
        assert(spans@.take(k + 1) == spans@.take(k as int).push((a, b)));
        assert(views(r@) =~= views(prev).push(piece@));
        assert(pieces(s@, spans@.take(k + 1)) =~= pieces(s@, spans@.take(k as int)).push(
            s@.subrange(a as int, b as int),
        ));
        k = k + 1;
    }
    assert(spans@.take(spans.len() as int) == spans@);
    r
}

/// The lines of `text`.
pub fn lines(text: &str) -> (r: Vec<String>)
    ensures
        views(r@) == lines_of(text@),
{
    let cs = chars_of(text);
    let spans = line_spans(&cs);
    cut(text, &spans)
}

/// The words of `text`: its runs of non-white characters.
pub fn words(text: &str) -> (r: Vec<String>)
    ensures
        views(r@) == words_of(text@),
{
    let cs = chars_of(text);
    let spans = word_spans(&cs, 0, cs.len());
    assert(cs@.subrange(0, cs.len() as int) == cs@);
    cut(text, &spans)
}

/// Whether `p` occurs in `s`.
pub fn contains_text(s: &str, p: &str) -> (r: bool)
    ensures
        r == contains(s@, p@),
{
    let cs = chars_of(s);
    let ps = chars_of(p);
    assert(cs@.subrange(0, cs.len() as int) == cs@);
    occurs_in(&cs, 0, cs.len(), &ps)
}

} // verus!
