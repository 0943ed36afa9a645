//! Small operations on strings and vectors of strings that the rest of the
//! library is stated over.

use crate::codec::text_of;
use vstd::prelude::*;

verus! {

/// The texts of a vector of strings, in order.
pub open spec fn texts(v: Seq<String>) -> Seq<Seq<char>> {
    Seq::new(v.len(), |i: int| v[i]@)
}

/// `s` with every element equal to `x` taken out, the others in their order.
pub open spec fn without(s: Seq<Seq<char>>, x: Seq<char>) -> Seq<Seq<char>>
    decreases s.len(),
{
    if s.len() == 0 {
        s
    } else if s.last() == x {
        without(s.drop_last(), x)
    } else {
        without(s.drop_last(), x).push(s.last())
    }
}

/// Nothing is taken out of a sequence that does not hold `x`.
pub proof fn lemma_without_absent(s: Seq<Seq<char>>, x: Seq<char>)
    requires
        !s.contains(x),
    ensures
        without(s, x) == s,
    decreases s.len(),
{
    if s.len() > 0 {
        assert(s.last() == s[s.len() - 1]);
        assert forall|i: int| 0 <= i < s.drop_last().len() implies s.drop_last()[i] != x by {
            assert(s.drop_last()[i] == s[i]);
        }
        assert(!s.drop_last().contains(x));
        lemma_without_absent(s.drop_last(), x);
        assert(s.drop_last().push(s.last()) =~= s);
    }
}

/// What is left never holds `x`, and holds every other element that `s` held.
pub proof fn lemma_without_contains(s: Seq<Seq<char>>, x: Seq<char>, y: Seq<char>)
    ensures
        without(s, x).contains(y) <==> (s.contains(y) && y != x),
    decreases s.len(),
{
    if s.len() > 0 {
        let t = s.drop_last();
        lemma_without_contains(t, x, y);
        assert(s =~= t.push(s.last()));
        if s.contains(y) {
            let i = choose|i: int| 0 <= i < s.len() && s[i] == y;
            if i < t.len() {
                assert(t[i] == y);
            }
        }
        if t.contains(y) {
            let i = choose|i: int| 0 <= i < t.len() && t[i] == y;
            assert(s[i] == y);
        }
        if s.last() != x {
            let w = without(t, x);
            assert(without(s, x) == w.push(s.last()));
            if w.contains(y) {
                let i = choose|i: int| 0 <= i < w.len() && w[i] == y;
                assert(w.push(s.last())[i] == y);
            }
            if y == s.last() {
                assert(w.push(s.last())[w.len() as int] == y);
                assert(s[s.len() - 1] == y);
            }
            if without(s, x).contains(y) {
                let i = choose|i: int| 0 <= i < without(s, x).len() && without(s, x)[i] == y;
                if i < w.len() {
                    assert(w[i] == y);
                }
            }
        }
    }
}

/// A copy of `v` with the same texts.
pub fn clone_strings(v: &Vec<String>) -> (r: Vec<String>)
    ensures
        texts(r@) == texts(v@),
{
    let mut r: Vec<String> = Vec::new();
    let mut i: usize = 0;
    while i < v.len()
        invariant
            i <= v.len(),
            r.len() == i,
            forall|j: int| 0 <= j < i ==> r@[j]@ == v@[j]@,
        decreases v.len() - i,
    {
        r.push(v[i].clone());
        i += 1;
    }
    assert(texts(r@) =~= texts(v@));
    r
}

/// Whether some element of `v` has the text of `x`.
pub fn contains_string(v: &Vec<String>, x: &str) -> (b: bool)
    ensures
        b == texts(v@).contains(x@),
{
    let wanted: String = x.to_owned();
    let mut i: usize = 0;
    while i < v.len()
        invariant
            i <= v.len(),
            wanted@ == x@,
            forall|j: int| 0 <= j < i ==> v@[j]@ != x@,
        decreases v.len() - i,
    {
        if v[i] == wanted {
            assert(texts(v@)[i as int] == x@);
            return true;
        }
        i += 1;
    }
    assert forall|j: int| 0 <= j < texts(v@).len() implies texts(v@)[j] != x@ by {
        assert(texts(v@)[j] == v@[j]@);
    }
    false
}

/// The elements of `v` that differ from `x`, in their order.
pub fn remove_all(v: &Vec<String>, x: &str) -> (r: Vec<String>)
    ensures
        texts(r@) == without(texts(v@), x@),
{
    let unwanted: String = x.to_owned();
    let mut r: Vec<String> = Vec::new();
    let mut i: usize = 0;
    while i < v.len()
        invariant
            i <= v.len(),
            unwanted@ == x@,
            texts(r@) == without(texts(v@).take(i as int), x@),
        decreases v.len() - i,
    {
        let ghost before = texts(r@);
        proof {
            let t = texts(v@).take(i as int + 1);
            assert(t.drop_last() =~= texts(v@).take(i as int));
            assert(t.last() == v@[i as int]@);
        }
        if v[i] != unwanted {
            r.push(v[i].clone());
            assert(texts(r@) =~= before.push(v@[i as int]@));
        }
        i += 1;
    }
    assert(texts(v@).take(v.len() as int) =~= texts(v@));
    r
}


/// The character of the decimal digit `d`.
pub open spec fn digit_char(d: int) -> char {
    if d == 0 {
        '0'
    } else if d == 1 {
        '1'
    } else if d == 2 {
        '2'
    } else if d == 3 {
        '3'
    } else if d == 4 {
        '4'
    } else if d == 5 {
        '5'
    } else if d == 6 {
        '6'
    } else if d == 7 {
        '7'
    } else if d == 8 {
        '8'
    } else {
        '9'
    }
}

/// The decimal digits of `n`, without leading zeros.
pub open spec fn digits(n: nat) -> Seq<char>
    decreases n,
{
    if n < 10 {
        seq![digit_char(n as int)]
    } else {
        digits(n / 10).push(digit_char((n % 10) as int))
    }
}

/// The decimal text of `n`, with a minus sign in front of a negative number.
pub open spec fn decimal_text(n: int) -> Seq<char> {
    if n < 0 {
        seq!['-'] + digits((-n) as nat)
    } else {
        digits(n as nat)
    }
}

fn digit_str(d: u64) -> (s: &'static str)
    requires
        d < 10,
    ensures
        s@ == seq![digit_char(d as int)],
{
    proof {
        reveal_strlit("0");
        reveal_strlit("1");
        reveal_strlit("2");
        reveal_strlit("3");
        reveal_strlit("4");
        reveal_strlit("5");
        reveal_strlit("6");
        reveal_strlit("7");
        reveal_strlit("8");
        reveal_strlit("9");
    }
    let s = if d == 0 {
        "0"
    } else if d == 1 {
        "1"
    } else if d == 2 {
        "2"
    } else if d == 3 {
        "3"
    } else if d == 4 {
        "4"
    } else if d == 5 {
        "5"
    } else if d == 6 {
        "6"
    } else if d == 7 {
        "7"
    } else if d == 8 {
        "8"
    } else {
        "9"
    };
    assert(s@ =~= seq![digit_char(d as int)]);
    s
}

fn push_digits(out: &mut String, n: u64)
    ensures
        final(out)@ == old(out)@ + digits(n as nat),
    decreases n,
{
    if n >= 10 {
        push_digits(out, n / 10);
    }
    out.append(digit_str(n % 10));
    assert(out@ =~= old(out)@ + digits(n as nat));
}

/// Writes `n` in decimal, as `to_string` of std does for an integer.
pub fn decimal(n: i64) -> (s: String)
    ensures
        s@ == decimal_text(n as int),
{
    let mut s = String::new();
    if n < 0 {
        proof {
            reveal_strlit("-");
        }
        s.append("-");
        assert(s@ =~= seq!['-']);
        let magnitude: u64 = if n == i64::MIN {
            9_223_372_036_854_775_808u64
        } else {
            (-n) as u64
        };
        push_digits(&mut s, magnitude);
    } else {
        push_digits(&mut s, n as u64);
        assert(s@ =~= digits(n as nat));
    }
    s
}

/// The texts of `parts` in one text, with `sep` between neighbours.
pub open spec fn joined(parts: Seq<Seq<char>>, sep: Seq<char>) -> Seq<char>
    decreases parts.len(),
{
    if parts.len() == 0 {
        Seq::empty()
    } else if parts.len() == 1 {
        parts[0]
    } else {
        joined(parts.drop_last(), sep) + sep + parts.last()
    }
}

/// Computes [`joined`], as `join` of std does on a slice of strings.
pub fn join(parts: &Vec<String>, sep: &str) -> (s: String)
    ensures
        s@ == joined(texts(parts@), sep@),
{
    let mut s = String::new();
    let mut i: usize = 0;
    while i < parts.len()
        invariant
            i <= parts.len(),
            s@ == joined(texts(parts@).take(i as int), sep@),
        decreases parts.len() - i,
    {
        proof {
            let t = texts(parts@).take(i as int + 1);
            assert(t.drop_last() =~= texts(parts@).take(i as int));
            assert(t.last() == parts@[i as int]@);
            assert(t.len() == i + 1);
            if i == 0 {
                assert(t[0] == parts@[0]@);
            }
        }
        if i > 0 {
            s.append(sep);
        }
        s.append(parts[i].as_str());
        proof {
            let t = texts(parts@).take(i as int + 1);
            if i == 0 {
                assert(s@ =~= t[0]);
            }
        }
        i += 1;
    }
    assert(texts(parts@).take(parts.len() as int) =~= texts(parts@));
    s
}


/// The pieces of `s` between occurrences of `sep`, as `split` of std gives
/// them: one piece more than there are separators, empty pieces included.
pub open spec fn split_on(s: Seq<char>, sep: char) -> Seq<Seq<char>>
    decreases s.len(),
{
    if s.len() == 0 {
        seq![Seq::empty()]
    } else {
        let before = split_on(s.drop_last(), sep);
        if s.last() == sep {
            before.push(Seq::empty())
        } else {
            before.drop_last().push(before.last().push(s.last()))
        }
    }
}

/// Computes [`split_on`].
pub fn split(s: &str, sep: char) -> (pieces: Vec<String>)
    ensures
        texts(pieces@) == split_on(s@, sep),
{
    let n = s.unicode_len();
    let mut pieces: Vec<String> = Vec::new();
    let mut from: usize = 0;
    let mut i: usize = 0;
    assert(s@.take(0).len() == 0);
    assert(s@.subrange(0, 0) =~= Seq::<char>::empty());
    assert(texts(pieces@) =~= Seq::<Seq<char>>::empty());
    assert(Seq::<Seq<char>>::empty().push(Seq::<char>::empty()) =~= seq![Seq::<char>::empty()]);
    assert(texts(pieces@).push(s@.subrange(0, 0)) =~= split_on(s@.take(0), sep));
    while i < n
        invariant
            n == s@.len(),
            from <= i <= n,
            texts(pieces@).push(s@.subrange(from as int, i as int)) == split_on(
                s@.take(i as int),
                sep,
            ),
        decreases n - i,
    {
        let c = s.get_char(i);
        let ghost before = texts(pieces@);
        let ghost start = from as int;
        proof {
            let t = s@.take(i as int + 1);
            assert(t.drop_last() =~= s@.take(i as int));
            assert(t.last() == c);
            assert(before.push(s@.subrange(from as int, i as int)).drop_last() =~= before);
        }
        if c == sep {
            pieces.push(s.substring_char(from, i).to_owned());
            from = i + 1;
            proof {
                assert(texts(pieces@) =~= before.push(s@.subrange(start, i as int)));
                assert(s@.subrange(from as int, i as int + 1) =~= Seq::<char>::empty());
            }
        } else {
            proof {
                assert(s@.subrange(from as int, i as int + 1) =~= s@.subrange(
                    from as int,
                    i as int,
                ).push(c));
            }
        }
        i += 1;
    }
    pieces.push(s.substring_char(from, n).to_owned());
    proof {
        assert(s@.take(n as int) =~= s@);
        assert(texts(pieces@) =~= split_on(s@, sep));
    }
    pieces
}

/// The items of a list that is written with `sep` between its items: none
/// for the empty text, and otherwise the pieces between the separators.
pub open spec fn listed(text: Seq<char>, sep: char) -> Seq<Seq<char>> {
    if text.len() == 0 {
        Seq::empty()
    } else {
        split_on(text, sep)
    }
}

/// Computes [`listed`].
pub fn split_list(text: &str, sep: char) -> (items: Vec<String>)
    ensures
        texts(items@) == listed(text@, sep),
{
    if text.unicode_len() == 0 {
        let items: Vec<String> = Vec::new();
        assert(texts(items@) =~= Seq::<Seq<char>>::empty());
        items
    } else {
        split(text, sep)
    }
}

/// A text that does not hold the separator is one piece.
proof fn lemma_split_whole(s: Seq<char>, sep: char)
    requires
        !s.contains(sep),
    ensures
        split_on(s, sep) == seq![s],
    decreases s.len(),
{
    if s.len() == 0 {
        assert(s =~= Seq::<char>::empty());
    } else {
        let front = s.drop_last();
        assert forall|i: int| 0 <= i < front.len() implies front[i] != sep by {
            assert(front[i] == s[i]);
        }
        assert(s.last() == s[s.len() - 1]);
        lemma_split_whole(front, sep);
        assert(seq![front].drop_last().push(seq![front].last().push(s.last())) =~= seq![s]) by {
            assert(front.push(s.last()) =~= s);
        }
    }
}

/// Text without the separator, put behind a text, lengthens its last piece.
proof fn lemma_split_extend(a: Seq<char>, b: Seq<char>, sep: char)
    requires
        !b.contains(sep),
    ensures
        split_on(a, sep).len() >= 1,
        split_on(a + b, sep) == split_on(a, sep).drop_last().push(split_on(a, sep).last() + b),
    decreases b.len(),
{
    lemma_split_some(a, sep);
    if b.len() == 0 {
        assert(a + b =~= a);
        let p = split_on(a, sep);
        assert(p.last() + b =~= p.last());
        assert(p.drop_last().push(p.last()) =~= p);
    } else {
        let front = b.drop_last();
        assert forall|i: int| 0 <= i < front.len() implies front[i] != sep by {
            assert(front[i] == b[i]);
        }
        assert(b.last() == b[b.len() - 1]);
        lemma_split_extend(a, front, sep);
        assert((a + b).drop_last() =~= a + front);
        assert((a + b).last() == b.last());
        let p = split_on(a, sep);
        let q = split_on(a + front, sep);
        assert(q.drop_last() =~= p.drop_last());
        assert(q.last().push(b.last()) =~= p.last() + b) by {
            assert(front.push(b.last()) =~= b);
        }
    }
}

/// A text always has at least one piece.
proof fn lemma_split_some(s: Seq<char>, sep: char)
    ensures
        split_on(s, sep).len() >= 1,
    decreases s.len(),
{
    if s.len() > 0 {
        lemma_split_some(s.drop_last(), sep);
    }
}

/// Whether every item is fit for a list with `sep` between its items: it is
/// not empty and does not hold the separator.
pub open spec fn are_items(items: Seq<Seq<char>>, sep: char) -> bool {
    forall|i: int| 0 <= i < items.len() ==> (#[trigger] items[i]).len() > 0 && !items[i].contains(sep)
}

/// Reading a list undoes writing it: items that are not empty and do not
/// hold the separator, joined with the separator between them, are read
/// back as they were. The list without items is written as the empty text
/// and read back as no item.
pub proof fn lemma_listed_undoes_joined(items: Seq<Seq<char>>, sep: char)
    requires
        are_items(items, sep),
    ensures
        listed(joined(items, seq![sep]), sep) == items,
        items.len() > 0 ==> joined(items, seq![sep]).len() > 0,
    decreases items.len(),
{
    if items.len() == 0 {
    } else if items.len() == 1 {
        lemma_split_whole(items[0], sep);
        assert(seq![items[0]] =~= items);
    } else {
        let front = items.drop_last();
        let last = items.last();
        assert(are_items(front, sep)) by {
            assert forall|i: int| 0 <= i < front.len() implies (#[trigger] front[i]).len() > 0
                && !front[i].contains(sep) by {
                assert(front[i] == items[i]);
            }
        }
        assert(last == items[items.len() - 1]);
        lemma_listed_undoes_joined(front, sep);
        let written = joined(front, seq![sep]);
        assert(split_on(written, sep) == front);
        let cut = written.push(sep);
        assert(written + seq![sep] =~= cut);
        assert(cut.drop_last() =~= written);
        assert(split_on(cut, sep) == front.push(Seq::<char>::empty()));
        lemma_split_extend(cut, last, sep);
        assert(front.push(Seq::<char>::empty()).drop_last() =~= front);
        assert(Seq::<char>::empty() + last =~= last);
        assert(front.push(last) =~= items);
    }
}

/// Whether `c` is white space: one of the characters that Unicode gives the
/// property White_Space, which are tab to carriage return, the space,
/// U+0085, U+00A0, U+1680, U+2000 to U+200A, U+2028, U+2029, U+202F, U+205F
/// and U+3000.
pub open spec fn is_space(c: char) -> bool {
    let n = c as int;
    ||| 0x09 <= n <= 0x0d
    ||| n == 0x20
    ||| n == 0x85
    ||| n == 0xa0
    ||| n == 0x1680
    ||| 0x2000 <= n <= 0x200a
    ||| n == 0x2028
    ||| n == 0x2029
    ||| n == 0x202f
    ||| n == 0x205f
    ||| n == 0x3000
}

/// `text` without the white space in front.
pub open spec fn trimmed_start(text: Seq<char>) -> Seq<char>
    decreases text.len(),
{
    if text.len() > 0 && is_space(text[0]) {
        trimmed_start(text.skip(1))
    } else {
        text
    }
}

/// `text` without the white space at its end.
pub open spec fn trimmed_end(text: Seq<char>) -> Seq<char>
    decreases text.len(),
{
    if text.len() > 0 && is_space(text.last()) {
        trimmed_end(text.drop_last())
    } else {
        text
    }
}

/// `text` without the white space at its two ends.
pub open spec fn trimmed(text: Seq<char>) -> Seq<char> {
    trimmed_end(trimmed_start(text))
}

/// `text` with every match of `from` replaced by `to`. The matches are
/// looked for from left to right and do not overlap: behind a match the
/// search goes on with what follows it. An empty `from` matches nothing
/// here.
pub open spec fn replaced(text: Seq<char>, from: Seq<char>, to: Seq<char>) -> Seq<char>
    decreases text.len(),
{
    if from.len() == 0 || text.len() < from.len() {
        text
    } else if text.take(from.len() as int) == from {
        to + replaced(text.skip(from.len() as int), from, to)
    } else {
        seq![text[0]] + replaced(text.skip(1), from, to)
    }
}

/// Calls `str::trim`. Not proved: that the characters of Unicode's property
/// White_Space leave both ends of the text and nothing else changes.
#[verifier::external_body]
pub(crate) fn trim(text: &str) -> (r: String)
    ensures
        r@ == trimmed(text@),
{
    text.trim().to_string()
}

/// Calls `str::replace`. Not proved: that every match of `from`, found
/// from left to right without overlap, gives way to `to`, and the rest of
/// the text stays. An empty `from`, which std matches between any two
/// characters, is left out by `requires`.
#[verifier::external_body]
pub(crate) fn replace(text: &str, from: &str, to: &str) -> (r: String)
    requires
        from@.len() > 0,
    ensures
        r@ == replaced(text@, from@, to@),
{
    text.replace(from, to)
}

/// `text` without its first `n` characters, or `None` where it has fewer.
pub open spec fn without_prefix(text: Seq<char>, n: int) -> Option<Seq<char>> {
    if 0 <= n <= text.len() {
        Some(text.skip(n))
    } else {
        None
    }
}

/// Computes [`without_prefix`].
pub fn drop_prefix(text: &str, n: usize) -> (r: Option<String>)
    ensures
        text_of(r) == without_prefix(text@, n as int),
{
    let len = text.unicode_len();
    if n > len {
        None
    } else {
        let rest = text.substring_char(n, len).to_owned();
        assert(rest@ =~= text@.skip(n as int));
        Some(rest)
    }
}

/// `handle` without one `@` in front, if it has one.
pub open spec fn bare_handle(handle: Seq<char>) -> Seq<char> {
    if handle.len() > 0 && handle[0] == '@' {
        handle.skip(1)
    } else {
        handle
    }
}

/// Computes [`bare_handle`].
pub fn strip_at(handle: &str) -> (r: String)
    ensures
        r@ == bare_handle(handle@),
{
    let len = handle.unicode_len();
    if len > 0 && handle.get_char(0) == '@' {
        let rest = handle.substring_char(1, len).to_owned();
        assert(rest@ =~= handle@.skip(1));
        rest
    } else {
        handle.to_owned()
    }
}

/// What stands for the character `c` in text that is put into a page.
pub open spec fn entity(c: char) -> Seq<char> {
    if c == '<' {
        "&lt;"@
    } else if c == '>' {
        "&gt;"@
    } else if c == '"' {
        "&quot;"@
    } else if c == '\'' {
        "&apos;"@
    } else if c == '`' {
        "&grave;"@
    } else if c == '/' {
        "&#47;"@
    } else if c == '&' {
        "&amp;"@
    } else if c == '=' {
        "&#61;"@
    } else if c == ' ' {
        "&#32;"@
    } else if c == '\t' {
        "&#9;"@
    } else if c == '\n' {
        "&#10;"@
    } else if c == '\x0c' {
        "&#12;"@
    } else if c == '\r' {
        "&#13;"@
    } else if c == '\0' {
        "&#65533;"@
    } else {
        seq![c]
    }
}

/// `text` with every character that means something in a page replaced by
/// its entity.
pub open spec fn escaped(text: Seq<char>) -> Seq<char>
    decreases text.len(),
{
    if text.len() == 0 {
        Seq::empty()
    } else {
        escaped(text.drop_last()) + entity(text.last())
    }
}

/// Calls `ammonia::clean_text`. Not proved: that it replaces each of
/// fourteen characters by its entity and passes every other character on.
#[verifier::external_body]
pub(crate) fn clean_text(text: &str) -> (r: String)
    ensures
        r@ == escaped(text@),
{
    ammonia::clean_text(text)
}

} // verus!
