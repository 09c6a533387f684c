//! Building blocks for emitting text: folds over sequences, indentation and
//! joining.

use std::fmt::Write;
use vstd::prelude::*;

verus! {

/// The pieces `f(s[0]) + f(s[1]) + ...` laid end to end.
pub open spec fn concat_map<A>(s: Seq<A>, f: spec_fn(A) -> Seq<char>) -> Seq<char>
    decreases s.len(),
{
    if s.len() == 0 {
        Seq::empty()
    } else {
        concat_map(s.drop_last(), f) + f(s.last())
    }
}

/// The pieces `f(0, s[0]) + f(1, s[1]) + ...` laid end to end.
pub open spec fn concat_map_indexed<A>(s: Seq<A>, f: spec_fn(int, A) -> Seq<char>) -> Seq<char>
    decreases s.len(),
{
    if s.len() == 0 {
        Seq::empty()
    } else {
        concat_map_indexed(s.drop_last(), f) + f(s.len() - 1, s.last())
    }
}

/// A fold over one more element adds that element's piece at the end.
pub proof fn lemma_concat_map_step<A>(s: Seq<A>, i: int, f: spec_fn(A) -> Seq<char>)
    requires
        0 <= i < s.len(),
    ensures
        concat_map(s.subrange(0, i + 1), f) == concat_map(s.subrange(0, i), f) + f(s[i]),
{
    assert(s.subrange(0, i + 1).drop_last() =~= s.subrange(0, i));
}

/// An indexed fold over one more element adds that element's piece at the
/// end.
pub proof fn lemma_concat_map_indexed_step<A>(s: Seq<A>, i: int, f: spec_fn(int, A) -> Seq<char>)
    requires
        0 <= i < s.len(),
    ensures
        concat_map_indexed(s.subrange(0, i + 1), f) == concat_map_indexed(s.subrange(0, i), f)
            + f(i, s[i]),
{
    assert(s.subrange(0, i + 1).drop_last() =~= s.subrange(0, i));
}

/// `parts` separated by `sep`.
pub open spec fn join(parts: Seq<Seq<char>>, sep: Seq<char>) -> Seq<char>
    decreases parts.len(),
{
    if parts.len() == 0 {
        Seq::empty()
    } else if parts.len() == 1 {
        parts[0]
    } else {
        join(parts.drop_last(), sep) + sep + parts.last()
    }
}

/// `text` with `prefix` put before every line that holds any text; `at_start`
/// says whether `text` begins a line.
pub open spec fn indent_text(text: Seq<char>, prefix: Seq<char>, at_start: bool) -> Seq<char>
    decreases text.len(),
{
    if text.len() == 0 {
        Seq::empty()
    } else if text[0] == '\n' {
        seq!['\n'] + indent_text(text.drop_first(), prefix, true)
    } else if at_start {
        prefix + seq![text[0]] + indent_text(text.drop_first(), prefix, false)
    } else {
        seq![text[0]] + indent_text(text.drop_first(), prefix, false)
    }
}

/// Lays `piece(x)` end to end for each `x` of `items`, where `piece` is the
/// executable form of `f`.
pub fn concat_each<A>(
    items: &Vec<A>,
    piece: impl Fn(&A) -> String,
    Ghost(f): Ghost<spec_fn(A) -> Seq<char>>,
) -> (r: String)
    requires
        forall|i: int| 0 <= i < items.len() ==> piece.requires((&items@[i],)),
        forall|a: &A, s: String| piece.ensures((a,), s) ==> s@ == f(*a),
    ensures
        r@ == concat_map(items@, f),
{
    let mut out = String::new();
    let mut i: usize = 0;
    while i < items.len()
        invariant
            i <= items.len(),
            forall|i: int| 0 <= i < items.len() ==> piece.requires((&items@[i],)),
            forall|a: &A, s: String| piece.ensures((a,), s) ==> s@ == f(*a),
            out@ == concat_map(items@.subrange(0, i as int), f),
        decreases items.len() - i,
    {
        proof {
            lemma_concat_map_step(items@, i as int, f);
        }
        let p = piece(&items[i]);
        out.append(p.as_str());
        i = i + 1;
    }
    assert(items@.subrange(0, items.len() as int) =~= items@);
    out
}

/// Lays `piece(ctx, x)` end to end for each `x` of `items`, where `piece` is
/// the executable form of `f`.
pub fn concat_each_with<C, A>(
    ctx: &C,
    items: &Vec<A>,
    piece: impl Fn(&C, &A) -> String,
    Ghost(f): Ghost<spec_fn(C, A) -> Seq<char>>,
) -> (r: String)
    requires
        forall|i: int| 0 <= i < items.len() ==> piece.requires((ctx, &items@[i])),
        forall|c: &C, a: &A, s: String| piece.ensures((c, a), s) ==> s@ == f(*c, *a),
    ensures
        r@ == concat_map(items@, |a: A| f(*ctx, a)),
{
    let ghost g = |a: A| f(*ctx, a);
    let mut out = String::new();
    let mut i: usize = 0;
    while i < items.len()
        invariant
            i <= items.len(),
            g == (|a: A| f(*ctx, a)),
            forall|i: int| 0 <= i < items.len() ==> piece.requires((ctx, &items@[i])),
            forall|c: &C, a: &A, s: String| piece.ensures((c, a), s) ==> s@ == f(*c, *a),
            out@ == concat_map(items@.subrange(0, i as int), g),
        decreases items.len() - i,
    {
        proof {
            lemma_concat_map_step(items@, i as int, g);
        }
        let p = piece(ctx, &items[i]);
        out.append(p.as_str());
        i = i + 1;
    }
    assert(items@.subrange(0, items.len() as int) =~= items@);
    out
}

/// The decimal digits of `n`.
pub open spec fn decimal_text(n: nat) -> Seq<char>
    decreases n,
{
    if n < 10 {
        seq![digit_char(n)]
    } else {
        decimal_text(n / 10) + seq![digit_char(n % 10)]
    }
}

/// The character of the digit `d`.
pub open spec fn digit_char(d: nat) -> char {
    (('0' as u32) + d) as char
}

/// Writes `n` in decimal.
pub fn decimal(n: usize) -> (r: String)
    ensures
        r@ == decimal_text(n as nat),
    decreases n,
{
    if n < 10 {
        let mut s = String::new();
        push_char(&mut s, ((n as u8) + 48) as char);
        assert(s@ =~= seq![digit_char(n as nat)]);
        s
    } else {
        let mut s = decimal(n / 10);
        push_char(&mut s, (((n % 10) as u8) + 48) as char);
        assert(s@ =~= decimal_text(n as nat));
        s
    }
}

/// Two folds agree where their pieces agree position by position.
pub proof fn lemma_concat_map_congruent<A, B>(
    a: Seq<A>,
    f: spec_fn(A) -> Seq<char>,
    b: Seq<B>,
    g: spec_fn(B) -> Seq<char>,
)
    requires
        a.len() == b.len(),
        forall|i: int| 0 <= i < a.len() ==> f(#[trigger] a[i]) == g(b[i]),
    ensures
        concat_map(a, f) == concat_map(b, g),
    decreases a.len(),
{
    if a.len() > 0 {
        let n = a.len() - 1;
        assert(f(a[n]) == g(b[n]));
        assert forall|i: int| 0 <= i < a.drop_last().len() implies f(
            #[trigger] a.drop_last()[i],
        ) == g(b.drop_last()[i]) by {
            assert(f(a[i]) == g(b[i]));
        }
        lemma_concat_map_congruent(a.drop_last(), f, b.drop_last(), g);
    }
}

/// Two indexed folds agree where their pieces agree position by position.
pub proof fn lemma_concat_map_indexed_congruent<A, B>(
    a: Seq<A>,
    f: spec_fn(int, A) -> Seq<char>,
    b: Seq<B>,
    g: spec_fn(int, B) -> Seq<char>,
)
    requires
        a.len() == b.len(),
        forall|i: int| 0 <= i < a.len() ==> f(i, #[trigger] a[i]) == g(i, b[i]),
    ensures
        concat_map_indexed(a, f) == concat_map_indexed(b, g),
    decreases a.len(),
{
    if a.len() > 0 {
        let n = a.len() - 1;
        assert(f(n, a[n]) == g(n, b[n]));
        assert forall|i: int| 0 <= i < a.drop_last().len() implies f(
            i,
            #[trigger] a.drop_last()[i],
        ) == g(i, b.drop_last()[i]) by {
            assert(f(i, a[i]) == g(i, b[i]));
        }
        lemma_concat_map_indexed_congruent(a.drop_last(), f, b.drop_last(), g);
    }
}

/// Lays `piece(ctx, i, items[i])` end to end, where `piece` is the executable
/// form of `f`.
pub fn concat_each_indexed_with<C, A>(
    ctx: &C,
    items: &Vec<A>,
    piece: impl Fn(&C, usize, &A) -> String,
    Ghost(f): Ghost<spec_fn(C, int, A) -> Seq<char>>,
) -> (r: String)
    requires
        forall|i: int| 0 <= i < items.len() ==> piece.requires((ctx, i as usize, &items@[i])),
        forall|c: &C, i: usize, a: &A, s: String|
            piece.ensures((c, i, a), s) ==> s@ == f(*c, i as int, *a),
    ensures
        r@ == concat_map_indexed(items@, |i: int, a: A| f(*ctx, i, a)),
{
    let ghost g = |i: int, a: A| f(*ctx, i, a);
    let mut out = String::new();
    let mut i: usize = 0;
    while i < items.len()
        invariant
            i <= items.len(),
            g == (|i: int, a: A| f(*ctx, i, a)),
            forall|i: int| 0 <= i < items.len() ==> piece.requires((ctx, i as usize, &items@[i])),
            forall|c: &C, i: usize, a: &A, s: String|
                piece.ensures((c, i, a), s) ==> s@ == f(*c, i as int, *a),
            out@ == concat_map_indexed(items@.subrange(0, i as int), g),
        decreases items.len() - i,
    {
        proof {
            lemma_concat_map_indexed_step(items@, i as int, g);
        }
        let p = piece(ctx, i, &items[i]);
        out.append(p.as_str());
        i = i + 1;
    }
    assert(items@.subrange(0, items.len() as int) =~= items@);
    out
}

/// `piece(x)` for each `x` of `items`, where `piece` is the executable form
/// of `f`.
pub fn map_strings<A>(
    items: &Vec<A>,
    piece: impl Fn(&A) -> String,
    Ghost(f): Ghost<spec_fn(A) -> Seq<char>>,
) -> (r: Vec<String>)
    requires
        forall|i: int| 0 <= i < items.len() ==> piece.requires((&items@[i],)),
        forall|a: &A, s: String| piece.ensures((a,), s) ==> s@ == f(*a),
    ensures
        r@.map_values(|p: String| p@) == items@.map_values(f),
{
    let mut out: Vec<String> = Vec::new();
    let mut i: usize = 0;
    while i < items.len()
        invariant
            i <= items.len(),
            out.len() == i,
            forall|i: int| 0 <= i < items.len() ==> piece.requires((&items@[i],)),
            forall|a: &A, s: String| piece.ensures((a,), s) ==> s@ == f(*a),
            out@.map_values(|p: String| p@) =~= items@.subrange(0, i as int).map_values(f),
        decreases items.len() - i,
    {
        let p = piece(&items[i]);
        let ghost before = out@;
        out.push(p);
        proof {
            let views = out@.map_values(|p: String| p@);
            let want = items@.subrange(0, i as int + 1).map_values(f);
            assert forall|k: int| 0 <= k < views.len() implies views[k] == want[k] by {
                if k < i {
                    assert(out@[k] == before[k]);
                    assert(before.map_values(|p: String| p@)[k] == items@.subrange(0, i as int).map_values(f)[k]);
                }
            }
            assert(views =~= want);
        }
        i = i + 1;
    }
    assert(items@.subrange(0, items.len() as int) =~= items@);
    out
}

/// Whether a line begins after `a`, written from state `at_start`.
pub open spec fn starts_line_after(a: Seq<char>, at_start: bool) -> bool {
    if a.len() == 0 {
        at_start
    } else {
        a.last() == '\n'
    }
}

/// Indenting two texts written one after the other is indenting each, the
/// second from where the first left off.
pub proof fn lemma_indent_append(a: Seq<char>, b: Seq<char>, p: Seq<char>, at_start: bool)
    ensures
        indent_text(a + b, p, at_start) == indent_text(a, p, at_start) + indent_text(
            b,
            p,
            starts_line_after(a, at_start),
        ),
    decreases a.len(),
{
    if a.len() == 0 {
        assert(a + b =~= b);
        assert(indent_text(a, p, at_start) =~= Seq::<char>::empty());
        assert(Seq::<char>::empty() + indent_text(b, p, at_start) =~= indent_text(b, p, at_start));
    } else {
        let next = if a[0] == '\n' {
            true
        } else {
            false
        };
        assert((a + b).drop_first() =~= a.drop_first() + b);
        assert((a + b)[0] == a[0]);
        lemma_indent_append(a.drop_first(), b, p, next);
        if a.len() == 1 {
            assert(starts_line_after(a.drop_first(), next) == starts_line_after(a, at_start));
        } else {
            assert(a.drop_first().last() == a.last());
        }
        assert(indent_text(a + b, p, at_start) =~= indent_text(a, p, at_start) + indent_text(
            b,
            p,
            starts_line_after(a, at_start),
        ));
    }
}

/// Indenting keeps a final line break, and an empty text empty.
pub proof fn lemma_indent_ends_line(a: Seq<char>, p: Seq<char>, at_start: bool)
    requires
        a.len() == 0 || a.last() == '\n',
    ensures
        indent_text(a, p, at_start).len() == 0 || indent_text(a, p, at_start).last() == '\n',
        a.len() == 0 ==> indent_text(a, p, at_start).len() == 0,
    decreases a.len(),
{
    if a.len() > 0 {
        let next = a[0] == '\n';
        if a.len() == 1 {
            assert(indent_text(a.drop_first(), p, next) =~= Seq::<char>::empty());
        } else {
            assert(a.drop_first().last() == a.last());
            lemma_indent_ends_line(a.drop_first(), p, next);
        }
    }
}

/// A fold splits at any position.
pub proof fn lemma_concat_map_split<A>(s: Seq<A>, f: spec_fn(A) -> Seq<char>, i: int)
    requires
        0 <= i <= s.len(),
    ensures
        concat_map(s, f) == concat_map(s.subrange(0, i), f) + concat_map(
            s.subrange(i, s.len() as int),
            f,
        ),
    decreases s.len(),
{
    if i == s.len() {
        assert(s.subrange(0, i) =~= s);
        assert(s.subrange(i, s.len() as int) =~= Seq::<A>::empty());
        assert(concat_map(s, f) + Seq::<char>::empty() =~= concat_map(s, f));
    } else {
        let d = s.drop_last();
        lemma_concat_map_split(d, f, i);
        assert(d.subrange(0, i) =~= s.subrange(0, i));
        assert(s.subrange(i, s.len() as int).drop_last() =~= d.subrange(i, d.len() as int));
        assert(s.subrange(i, s.len() as int).last() == s.last());
        assert(concat_map(s, f) =~= concat_map(s.subrange(0, i), f) + concat_map(
            s.subrange(i, s.len() as int),
            f,
        ));
    }
}

/// A fold whose pieces all end a line ends a line, or is empty.
pub proof fn lemma_concat_map_ends_line<A>(s: Seq<A>, f: spec_fn(A) -> Seq<char>)
    requires
        forall|x: A| (#[trigger] f(x)).len() > 0 && f(x).last() == '\n',
    ensures
        concat_map(s, f).len() == 0 || concat_map(s, f).last() == '\n',
{
    if s.len() > 0 {
        let x = s.last();
        assert(f(x).len() > 0 && f(x).last() == '\n');
    }
}

/// The piece at `i` of an indented fold of line-ending pieces stands, indented
/// on its own, between the indented pieces before and after it.
pub proof fn lemma_indent_concat_map_at<A>(
    s: Seq<A>,
    f: spec_fn(A) -> Seq<char>,
    i: int,
    p: Seq<char>,
)
    requires
        0 <= i < s.len(),
        forall|x: A| (#[trigger] f(x)).len() > 0 && f(x).last() == '\n',
    ensures
        indent_text(concat_map(s, f), p, true) == indent_text(concat_map(s.subrange(0, i), f), p, true)
            + indent_text(f(s[i]), p, true) + indent_text(
            concat_map(s.subrange(i + 1, s.len() as int), f),
            p,
            true,
        ),
{
    let before = concat_map(s.subrange(0, i), f);
    let rest = s.subrange(i, s.len() as int);
    let after = concat_map(s.subrange(i + 1, s.len() as int), f);
    lemma_concat_map_split(s, f, i);
    lemma_concat_map_split(rest, f, 1);
    assert(rest.len() == s.len() - i);
    let one = rest.subrange(0, 1);
    assert(one.drop_last() =~= Seq::<A>::empty());
    assert(one.last() == s[i]);
    assert(concat_map(one.drop_last(), f) =~= Seq::<char>::empty());
    assert(concat_map(one, f) =~= f(s[i]));
    assert(rest.subrange(1, rest.len() as int) =~= s.subrange(i + 1, s.len() as int));
    lemma_concat_map_ends_line(s.subrange(0, i), f);
    assert(f(s[i]).len() > 0 && f(s[i]).last() == '\n');
    lemma_indent_append(before, f(s[i]) + after, p, true);
    lemma_indent_append(f(s[i]), after, p, true);
    assert(concat_map(s, f) == before + (f(s[i]) + after));
}

/// Whether `needle` occurs in `hay`.
pub open spec fn contains(hay: Seq<char>, needle: Seq<char>) -> bool {
    exists|i: int|
        0 <= i && i + needle.len() <= hay.len() && #[trigger] hay.subrange(i, i + needle.len())
            == needle
}

/// A text contains what stands in its middle.
pub proof fn lemma_contains_middle(pre: Seq<char>, needle: Seq<char>, post: Seq<char>)
    ensures
        contains(pre + needle + post, needle),
{
    let hay = pre + needle + post;
    assert(hay.subrange(pre.len() as int, pre.len() + needle.len() as int) =~= needle);
}

/// What a text contains, a longer text holding it contains too.
pub proof fn lemma_contains_extend(pre: Seq<char>, hay: Seq<char>, post: Seq<char>, needle: Seq<char>)
    requires
        contains(hay, needle),
    ensures
        contains(pre + hay + post, needle),
{
    let i = choose|i: int|
        0 <= i && i + needle.len() <= hay.len() && #[trigger] hay.subrange(i, i + needle.len())
            == needle;
    let big = pre + hay + post;
    assert(big.subrange(pre.len() + i, pre.len() + i + needle.len()) =~= hay.subrange(
        i,
        i + needle.len(),
    ));
}

/// Containment carries over: what `b` contains, a text containing `b`
/// contains.
pub proof fn lemma_contains_trans(a: Seq<char>, b: Seq<char>, c: Seq<char>)
    requires
        contains(a, b),
        contains(b, c),
    ensures
        contains(a, c),
{
    let i = choose|i: int| 0 <= i && i + b.len() <= a.len() && #[trigger] a.subrange(i, i + b.len()) == b;
    let pre = a.subrange(0, i);
    let post = a.subrange(i + b.len(), a.len() as int);
    assert(a =~= pre + b + post);
    lemma_contains_extend(pre, b, post, c);
}

/// Relies on `indenter::indented`: written through it, each line that holds
/// text gets `prefix` in front, and empty lines stay empty.
#[verifier::external_body]
pub fn indented(text: &str, prefix: &'static str) -> (r: String)
    ensures
        r@ == indent_text(text@, prefix@, true),
{
    let mut out = String::new();
    indenter::indented(&mut out).with_str(prefix).write_str(text).unwrap();
    out
}

/// Relies on `String::push`: appends one character.
#[verifier::external_body]
pub fn push_char(s: &mut String, c: char)
    ensures
        final(s)@ == old(s)@.push(c),
{
    s.push(c);
}

/// Joins `parts` with `sep` between each two.
pub fn join_strings(parts: &Vec<String>, sep: &str) -> (r: String)
    ensures
        r@ == join(parts@.map_values(|p: String| p@), sep@),
{
    let ghost views = parts@.map_values(|p: String| p@);
    let mut out = String::new();
    let mut i: usize = 0;
    while i < parts.len()
        invariant
            i <= parts.len(),
            views == parts@.map_values(|p: String| p@),
            out@ == join(views.subrange(0, i as int), sep@),
        decreases parts.len() - i,
    {
        proof {
            let next = views.subrange(0, i as int + 1);
            assert(next.drop_last() =~= views.subrange(0, i as int));
        }
        if i > 0 {
            out.append(sep);
        } else {
            assert(out@ =~= Seq::<char>::empty());
        }
        out.append(parts[i].as_str());
        proof {
            if i == 0 {
                assert(out@ =~= views.subrange(0, 1)[0]);
            }
        }
        i = i + 1;
    }
    assert(views.subrange(0, parts.len() as int) =~= views);
    out
}

} // verus!
