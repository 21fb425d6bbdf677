//! Text helpers: decimal rendering of integers, lexicographic comparison,
//! substring search, splitting and joining.

use vstd::prelude::*;
use vstd::string::*;

verus! {

/// The outcome of comparing an actual value with a reference value.
/// `Unordered` stands for a pair that has no order (a NaN among floats).
#[derive(Debug, Clone, Copy, PartialEq, Eq)]
pub enum Comparison {
    Less,
    Equal,
    Greater,
    Unordered,
}

/// The decimal digit `d` (0..=9) as a character.
pub open spec fn digit_char(d: int) -> char {
    if d == 0 { '0' }
    else if d == 1 { '1' }
    else if d == 2 { '2' }
    else if d == 3 { '3' }
    else if d == 4 { '4' }
    else if d == 5 { '5' }
    else if d == 6 { '6' }
    else if d == 7 { '7' }
    else if d == 8 { '8' }
    else { '9' }
}

/// The value of a decimal digit character, if it is one.
pub open spec fn digit_value(c: char) -> Option<int> {
    if c == '0' { Some(0) }
    else if c == '1' { Some(1) }
    else if c == '2' { Some(2) }
    else if c == '3' { Some(3) }
    else if c == '4' { Some(4) }
    else if c == '5' { Some(5) }
    else if c == '6' { Some(6) }
    else if c == '7' { Some(7) }
    else if c == '8' { Some(8) }
    else if c == '9' { Some(9) }
    else { None }
}

/// The shortest decimal notation of a natural number, as `{}` prints it.
pub open spec fn decimal(n: nat) -> Seq<char>
    decreases n,
{
    if n < 10 {
        seq![digit_char(n as int)]
    } else {
        decimal(n / 10) + seq![digit_char((n % 10) as int)]
    }
}

/// The decimal notation of an integer, with a leading '-' for negative numbers.
pub open spec fn signed_decimal(i: int) -> Seq<char> {
    if i < 0 {
        seq!['-'] + decimal((-i) as nat)
    } else {
        decimal(i as nat)
    }
}

/// True when every character of `s` is a decimal digit.
pub open spec fn all_digits(s: Seq<char>) -> bool {
    forall|i: int| 0 <= i < s.len() ==> (#[trigger] digit_value(s[i])) is Some
}

/// The number that a sequence of decimal digits denotes (most significant first).
pub open spec fn digits_value(s: Seq<char>) -> nat
    decreases s.len(),
{
    if s.len() == 0 {
        0
    } else {
        (digits_value(s.drop_last()) * 10 + digit_value(s.last()).unwrap_or(0)) as nat
    }
}

/// How an unsigned integer is read from text: an optional '+', then at least one
/// decimal digit and nothing else. The result is the number, however large.
pub open spec fn unsigned_number(s: Seq<char>) -> Option<nat> {
    let digits = if s.len() > 0 && s[0] == '+' { s.drop_first() } else { s };
    if digits.len() > 0 && all_digits(digits) {
        Some(digits_value(digits))
    } else {
        None
    }
}

/// Order of two integers.
pub open spec fn compare_ints(a: int, b: int) -> Comparison {
    if a < b {
        Comparison::Less
    } else if a == b {
        Comparison::Equal
    } else {
        Comparison::Greater
    }
}

/// Lexicographic order of two character sequences, characters ordered by code point;
/// this is the order of Rust strings.
pub open spec fn compare_texts(a: Seq<char>, b: Seq<char>) -> Comparison
    decreases a.len(),
{
    if a.len() == 0 {
        if b.len() == 0 {
            Comparison::Equal
        } else {
            Comparison::Less
        }
    } else if b.len() == 0 {
        Comparison::Greater
    } else if (a[0] as int) < (b[0] as int) {
        Comparison::Less
    } else if (a[0] as int) > (b[0] as int) {
        Comparison::Greater
    } else {
        compare_texts(a.drop_first(), b.drop_first())
    }
}

/// True when `pattern` occurs in `text` at position `i`.
pub open spec fn occurs_at(text: Seq<char>, pattern: Seq<char>, i: int) -> bool {
    0 <= i && i + pattern.len() <= text.len() && text.subrange(i, i + pattern.len()) == pattern
}

/// True when `pattern` occurs somewhere in `text`.
pub open spec fn contains_text(text: Seq<char>, pattern: Seq<char>) -> bool {
    exists|i: int| occurs_at(text, pattern, i)
}

/// The pieces of `s` between occurrences of `sep`, as `str::split` yields them
/// (there is always at least one piece, possibly empty).
pub open spec fn split_pieces(s: Seq<char>, sep: char) -> Seq<Seq<char>>
    decreases s.len(),
{
    if s.len() == 0 {
        seq![Seq::<char>::empty()]
    } else {
        let prev = split_pieces(s.drop_last(), sep);
        if s.last() == sep {
            prev.push(Seq::<char>::empty())
        } else {
            prev.update(prev.len() - 1, prev.last().push(s.last()))
        }
    }
}

/// True for a non-empty piece.
pub open spec fn non_empty(p: Seq<char>) -> bool {
    p.len() > 0
}

/// The elements of `list` joined by `sep`.
pub open spec fn join_texts(list: Seq<Seq<char>>, sep: Seq<char>) -> Seq<char>
    decreases list.len(),
{
    if list.len() == 0 {
        Seq::<char>::empty()
    } else if list.len() == 1 {
        list[0]
    } else {
        join_texts(list.drop_last(), sep) + sep + list.last()
    }
}

/// The views of a vector of strings.
pub open spec fn texts_view(v: Seq<String>) -> Seq<Seq<char>> {
    v.map_values(|s: String| s@)
}

fn digit_text(d: u64) -> (s: &'static str)
    requires
        d < 10,
    ensures
        s@ == seq![digit_char(d as int)],
{
    proof {
        reveal_strlit("0");
        reveal_strlit("1");
        reveal_strlit("2");
        reveal_strlit("3");
        reveal_strlit("4");
        reveal_strlit("5");
        reveal_strlit("6");
        reveal_strlit("7");
        reveal_strlit("8");
        reveal_strlit("9");
    }
    if d == 0 {
        "0"
    } else if d == 1 {
        "1"
    } else if d == 2 {
        "2"
    } else if d == 3 {
        "3"
    } else if d == 4 {
        "4"
    } else if d == 5 {
        "5"
    } else if d == 6 {
        "6"
    } else if d == 7 {
        "7"
    } else if d == 8 {
        "8"
    } else {
        "9"
    }
}

/// Appends the decimal notation of `n` to `out`.
pub fn append_decimal(out: &mut String, n: u64)
    ensures
        final(out)@ == old(out)@ + decimal(n as nat),
    decreases n,
{
    if n >= 10 {
        append_decimal(out, n / 10);
    }
    out.append(digit_text(n % 10));
    proof {
        if n >= 10 {
            assert(final(out)@ =~= old(out)@ + decimal(n as nat));
        } else {
            assert(final(out)@ =~= old(out)@ + decimal(n as nat));
        }
    }
}

/// The decimal notation of an unsigned number.
pub fn usize_to_text(n: usize) -> (s: String)
    ensures
        s@ == decimal(n as nat),
{
    let mut s = String::new();
    append_decimal(&mut s, n as u64);
    assert(s@ =~= decimal(n as nat));
    s
}

/// The decimal notation of a signed number.
pub fn i64_to_text(n: i64) -> (s: String)
    ensures
        s@ == signed_decimal(n as int),
{
    let mut s = String::new();
    if n < 0 {
        proof {
            reveal_strlit("-");
        }
        s.append("-");
        let magnitude: u64 = ((-(n + 1)) as u64) + 1;
        append_decimal(&mut s, magnitude);
        assert(s@ =~= signed_decimal(n as int));
    } else {
        append_decimal(&mut s, n as u64);
        assert(s@ =~= signed_decimal(n as int));
    }
    s
}

/// Compares two integers.
pub fn compare_i64(a: i64, b: i64) -> (c: Comparison)
    ensures
        c == compare_ints(a as int, b as int),
{
    if a < b {
        Comparison::Less
    } else if a == b {
        Comparison::Equal
    } else {
        Comparison::Greater
    }
}

/// Compares two unsigned integers.
pub fn compare_usize(a: usize, b: usize) -> (c: Comparison)
    ensures
        c == compare_ints(a as int, b as int),
{
    if a < b {
        Comparison::Less
    } else if a == b {
        Comparison::Equal
    } else {
        Comparison::Greater
    }
}

proof fn lemma_compare_texts_step(a: Seq<char>, b: Seq<char>, i: int)
    requires
        0 <= i < a.len(),
        i < b.len(),
        a[i] == b[i],
    ensures
        compare_texts(a.skip(i), b.skip(i)) == compare_texts(a.skip(i + 1), b.skip(i + 1)),
{
    assert(a.skip(i).drop_first() =~= a.skip(i + 1));
    assert(b.skip(i).drop_first() =~= b.skip(i + 1));
}

/// Compares two texts lexicographically, as Rust orders strings.
pub fn compare_str(a: &str, b: &str) -> (c: Comparison)
    ensures
        c == compare_texts(a@, b@),
{
    let la = a.unicode_len();
    let lb = b.unicode_len();
    let mut i: usize = 0;
    assert(a@.skip(0) =~= a@);
    assert(b@.skip(0) =~= b@);
    while i < la && i < lb
        invariant
            la == a@.len(),
            lb == b@.len(),
            i <= la,
            i <= lb,
            compare_texts(a@, b@) == compare_texts(a@.skip(i as int), b@.skip(i as int)),
        decreases la - i,
    {
        let ca = a.get_char(i);
        let cb = b.get_char(i);
        if (ca as u32) < (cb as u32) {
            return Comparison::Less;
        } else if (ca as u32) > (cb as u32) {
            return Comparison::Greater;
        }
        proof {
            assert((ca as u32) == (cb as u32));
            assert(ca == cb);
            lemma_compare_texts_step(a@, b@, i as int);
        }
        i = i + 1;
    }
    if i == la {
        if i == lb {
            Comparison::Equal
        } else {
            Comparison::Less
        }
    } else {
        Comparison::Greater
    }
}

/// True when `pattern` occurs at position `i` of `text`.
fn occurs_at_exec(text: &str, tl: usize, pattern: &str, pl: usize, i: usize) -> (b: bool)
    requires
        tl == text@.len(),
        pl == pattern@.len(),
        i + pl <= tl,
    ensures
        b == occurs_at(text@, pattern@, i as int),
{
    let mut j: usize = 0;
    while j < pl
        invariant
            tl == text@.len(),
            pl == pattern@.len(),
            i + pl <= tl,
            j <= pl,
            forall|k: int| 0 <= k < j ==> text@[i + k] == pattern@[k],
        decreases pl - j,
    {
        if text.get_char(i + j) != pattern.get_char(j) {
            assert(text@.subrange(i as int, i + pl)[j as int] != pattern@[j as int]);
            return false;
        }
        j = j + 1;
    }
    assert(text@.subrange(i as int, i + pl) =~= pattern@);
    true
}

/// True when `pattern` occurs in `text`.
pub fn contains_str(text: &str, pattern: &str) -> (b: bool)
    ensures
        b == contains_text(text@, pattern@),
{
    let tl = text.unicode_len();
    let pl = pattern.unicode_len();
    if pl > tl {
        assert forall|k: int| !occurs_at(text@, pattern@, k) by {}
        return false;
    }
    let last = tl - pl;
    let mut i: usize = 0;
    while i < last
        invariant
            tl == text@.len(),
            pl == pattern@.len(),
            last == tl - pl,
            i <= last,
            forall|k: int| 0 <= k < i ==> !occurs_at(text@, pattern@, k),
        decreases last - i,
    {
        if occurs_at_exec(text, tl, pattern, pl, i) {
            return true;
        }
        i = i + 1;
    }
    if occurs_at_exec(text, tl, pattern, pl, last) {
        return true;
    }
    assert forall|k: int| !occurs_at(text@, pattern@, k) by {}
    false
}

proof fn lemma_split_pieces_nonempty(s: Seq<char>, sep: char)
    ensures
        split_pieces(s, sep).len() >= 1,
    decreases s.len(),
{
    if s.len() > 0 {
        lemma_split_pieces_nonempty(s.drop_last(), sep);
    }
}

/// Splits `s` at every `sep`, as `str::split` does.
pub fn split_text(s: &str, sep: char) -> (pieces: Vec<String>)
    ensures
        texts_view(pieces@) == split_pieces(s@, sep),
{
    let n = s.unicode_len();
    let mut done: Vec<String> = Vec::new();
    let mut current = String::new();
    let mut i: usize = 0;
    assert(s@.take(0) =~= Seq::<char>::empty());
    while i < n
        invariant
            n == s@.len(),
            i <= n,
            texts_view(done@).push(current@) =~= split_pieces(s@.take(i as int), sep),
        decreases n - i,
    {
        let c = s.get_char(i);
        proof {
            lemma_split_pieces_nonempty(s@.take(i as int), sep);
            assert(s@.take(i + 1).drop_last() =~= s@.take(i as int));
            assert(s@.take(i + 1).last() == c);
        }
        if c == sep {
            let ghost old_done = done@;
            let finished = current;
            done.push(finished);
            current = String::new();
            assert(texts_view(done@) =~= texts_view(old_done).push(finished@));
        } else {
            let ghost old_current = current@;
            let piece = s.substring_char(i, i + 1);
            assert(piece@ =~= seq![c]);
            current.append(piece);
            assert(current@ =~= old_current.push(c));
        }
        i = i + 1;
    }
    assert(s@.take(n as int) =~= s@);
    let ghost before = done@;
    let last_piece = current;
    done.push(last_piece);
    assert(texts_view(done@) =~= texts_view(before).push(last_piece@));
    done
}

proof fn lemma_filter_push<A>(s: Seq<A>, pred: spec_fn(A) -> bool, e: A)
    ensures
        pred(e) ==> s.push(e).filter(pred) == s.filter(pred).push(e),
        !pred(e) ==> s.push(e).filter(pred) == s.filter(pred),
{
    reveal(Seq::filter);
    assert(s.push(e).drop_last() =~= s);
}

/// The non-empty pieces of `s` between occurrences of `sep`.
pub fn split_non_empty(s: &str, sep: char) -> (pieces: Vec<String>)
    ensures
        texts_view(pieces@) == split_pieces(s@, sep).filter(|p: Seq<char>| non_empty(p)),
{
    let all = split_text(s, sep);
    let ghost all_view = texts_view(all@);
    let mut kept: Vec<String> = Vec::new();
    let mut i: usize = 0;
    let ghost pred = |p: Seq<char>| non_empty(p);
    assert(all_view.take(0) =~= Seq::<Seq<char>>::empty());
    proof {
        reveal(Seq::filter);
    }
    while i < all.len()
        invariant
            all_view == texts_view(all@),
            pred == (|p: Seq<char>| non_empty(p)),
            i <= all.len(),
            texts_view(kept@) =~= all_view.take(i as int).filter(pred),
        decreases all.len() - i,
    {
        let ghost before = kept@;
        proof {
            assert(all_view.take(i + 1) =~= all_view.take(i as int).push(all@[i as int]@));
            lemma_filter_push(all_view.take(i as int), pred, all@[i as int]@);
        }
        let len = all[i].as_str().unicode_len();
        if len > 0 {
            let piece = all[i].clone();
            kept.push(piece);
            assert(pred(all@[i as int]@));
            assert(texts_view(kept@) =~= texts_view(before).push(piece@));
        } else {
            assert(!pred(all@[i as int]@));
        }
        i = i + 1;
    }
    assert(all_view.take(all.len() as int) =~= all_view);
    kept
}

/// Joins the texts with `separator` between neighbours.
pub fn join_strings(list: &Vec<String>, separator: &str) -> (res: String)
    ensures
        res@ == join_texts(texts_view(list@), separator@),
{
    let mut res = String::new();
    let ghost view = texts_view(list@);
    let mut i: usize = 0;
    assert(view.take(0) =~= Seq::<Seq<char>>::empty());
    while i < list.len()
        invariant
            view == texts_view(list@),
            i <= list.len(),
            res@ =~= join_texts(view.take(i as int), separator@),
        decreases list.len() - i,
    {
        proof {
            assert(view.take(i + 1).drop_last() =~= view.take(i as int));
            assert(view.take(i + 1).last() == list@[i as int]@);
        }
        if i != 0 {
            res.append(separator);
        }
        res.append(list[i].as_str());
        i = i + 1;
    }
    assert(view.take(list.len() as int) =~= view);
    res
}

proof fn lemma_compare_texts_equal(a: Seq<char>, b: Seq<char>)
    ensures
        (compare_texts(a, b) == Comparison::Equal) <==> (a == b),
    decreases a.len(),
{
    if a.len() > 0 && b.len() > 0 {
        lemma_compare_texts_equal(a.drop_first(), b.drop_first());
        if (a[0] as int) == (b[0] as int) {
            assert(a[0] == b[0]);
            if a.drop_first() == b.drop_first() {
                assert(a =~= seq![a[0]] + a.drop_first());
                assert(b =~= seq![b[0]] + b.drop_first());
            }
        }
        if a == b {
            assert(a.drop_first() == b.drop_first());
        }
    } else if a.len() == 0 && b.len() == 0 {
        assert(a =~= b);
    }
}

/// Lexicographic comparison of texts is a total order: it never reports `Unordered`,
/// and it reports `Equal` exactly for equal texts.
pub proof fn lemma_compare_texts_total(a: Seq<char>, b: Seq<char>)
    ensures
        compare_texts(a, b) != Comparison::Unordered,
        (compare_texts(a, b) == Comparison::Equal) <==> (a == b),
    decreases a.len(),
{
    lemma_compare_texts_equal(a, b);
    if a.len() > 0 && b.len() > 0 {
        lemma_compare_texts_total(a.drop_first(), b.drop_first());
    }
}

/// `a` comes before `b` in lexicographic order: up to some position the two agree, and
/// there `a` ends while `b` goes on, or `a` has the character with the smaller code point.
pub open spec fn text_less(a: Seq<char>, b: Seq<char>) -> bool {
    exists|i: int| #[trigger] first_difference(a, b, i)
}

/// The texts agree before position `i`, and at `i` the first one is smaller: it ends
/// while the other goes on, or its character has the smaller code point.
pub open spec fn first_difference(a: Seq<char>, b: Seq<char>, i: int) -> bool {
    &&& 0 <= i <= a.len()
    &&& i < b.len()
    &&& a.take(i) == b.take(i)
    &&& (i == a.len() || (a[i] as int) < (b[i] as int))
}

proof fn lemma_text_less_step(a: Seq<char>, b: Seq<char>)
    requires
        a.len() > 0,
        b.len() > 0,
        a[0] == b[0],
    ensures
        text_less(a, b) <==> text_less(a.drop_first(), b.drop_first()),
{
    let a1 = a.drop_first();
    let b1 = b.drop_first();
    if text_less(a, b) {
        let i = choose|i: int| #[trigger] first_difference(a, b, i);
        if i == 0 {
            assert(a[0] == b[0]);
            assert(a.len() > 0);
            assert(false);
        }
        assert(a1.take(i - 1) =~= a.take(i).drop_first());
        assert(b1.take(i - 1) =~= b.take(i).drop_first());
        assert(first_difference(a1, b1, i - 1));
    }
    if text_less(a1, b1) {
        let j = choose|j: int| #[trigger] first_difference(a1, b1, j);
        assert(a.take(j + 1) =~= seq![a[0]] + a1.take(j));
        assert(b.take(j + 1) =~= seq![b[0]] + b1.take(j));
        assert(first_difference(a, b, j + 1));
    }
}

/// Lexicographic comparison orders texts as `text_less` says: `Less` exactly when the
/// first comes before the second, `Greater` exactly when the second comes before the first.
pub proof fn lemma_compare_texts_order(a: Seq<char>, b: Seq<char>)
    ensures
        (compare_texts(a, b) == Comparison::Less) <==> text_less(a, b),
        (compare_texts(a, b) == Comparison::Greater) <==> text_less(b, a),
    decreases a.len(),
{
    if a.len() == 0 {
        if b.len() > 0 {
            assert(a.take(0) =~= b.take(0));
            assert(first_difference(a, b, 0));
        }
        if text_less(b, a) {
            let i = choose|i: int| #[trigger] first_difference(b, a, i);
            assert(false);
        }
    } else if b.len() == 0 {
        assert(a.take(0) =~= b.take(0));
        assert(first_difference(b, a, 0));
        if text_less(a, b) {
            let i = choose|i: int| #[trigger] first_difference(a, b, i);
            assert(false);
        }
    } else if (a[0] as int) < (b[0] as int) {
        assert(a.take(0) =~= b.take(0));
        assert(first_difference(a, b, 0));
        if text_less(b, a) {
            let i = choose|i: int| #[trigger] first_difference(b, a, i);
            if i > 0 {
                assert(b.take(i)[0] == a.take(i)[0]);
            }
            assert(false);
        }
    } else if (a[0] as int) > (b[0] as int) {
        assert(a.take(0) =~= b.take(0));
        assert(first_difference(b, a, 0));
        if text_less(a, b) {
            let i = choose|i: int| #[trigger] first_difference(a, b, i);
            if i > 0 {
                assert(b.take(i)[0] == a.take(i)[0]);
            }
            assert(false);
        }
    } else {
        assert(a[0] == b[0]);
        lemma_compare_texts_order(a.drop_first(), b.drop_first());
        lemma_text_less_step(a, b);
        lemma_text_less_step(b, a);
    }
}

/// True when the two texts are equal.
pub fn text_equal(a: &str, b: &str) -> (r: bool)
    ensures
        r == (a@ == b@),
{
    proof {
        lemma_compare_texts_equal(a@, b@);
    }
    match compare_str(a, b) {
        Comparison::Equal => true,
        _ => false,
    }
}

} // verus!
