//! Small operations on text, stated over sequences of characters.

use vstd::prelude::*;
use vstd::string::StringExecFns;

verus! {

/// `s` without its trailing run of `c`.
pub open spec fn trim_end(s: Seq<char>, c: char) -> Seq<char>
    decreases s.len(),
{
    if s.len() > 0 && s.last() == c {
        trim_end(s.drop_last(), c)
    } else {
        s
    }
}

/// `s` without its leading run of `c`.
pub open spec fn trim_start(s: Seq<char>, c: char) -> Seq<char>
    decreases s.len(),
{
    if s.len() > 0 && s.first() == c {
        trim_start(s.drop_first(), c)
    } else {
        s
    }
}

/// Cutting `s` after position `k` trims its end, when everything from `k`
/// on is `c` and the character before `k` is not.
pub proof fn lemma_trim_end_is_prefix(s: Seq<char>, c: char, k: int)
    requires
        0 <= k <= s.len(),
        forall|i: int| k <= i < s.len() ==> s[i] == c,
        k > 0 ==> s[k - 1] != c,
    ensures
        trim_end(s, c) == s.subrange(0, k),
    decreases s.len() - k,
{
    if k == s.len() {
        assert(s.subrange(0, k) =~= s);
    } else {
        lemma_trim_end_is_prefix(s.drop_last(), c, k);
        assert(s.drop_last().subrange(0, k) =~= s.subrange(0, k));
    }
}

/// What is left after trimming the end does not end in `c`, and trimming
/// it again changes nothing.
pub proof fn lemma_trim_end_is_trimmed(s: Seq<char>, c: char)
    ensures
        trim_end(s, c).len() > 0 ==> trim_end(s, c).last() != c,
        trim_end(trim_end(s, c), c) == trim_end(s, c),
    decreases s.len(),
{
    if s.len() > 0 && s.last() == c {
        lemma_trim_end_is_trimmed(s.drop_last(), c);
    }
}

/// One more `c` at the end is trimmed away with the rest.
pub proof fn lemma_trim_end_ignores_padding(s: Seq<char>, c: char)
    ensures
        trim_end(s.push(c), c) == trim_end(s, c),
{
    assert(s.push(c).drop_last() =~= s);
}

/// One more `c` at the start is trimmed away with the rest.
pub proof fn lemma_trim_start_ignores_padding(s: Seq<char>, c: char)
    ensures
        trim_start(seq![c] + s, c) == trim_start(s, c),
{
    assert((seq![c] + s).drop_first() =~= s);
}

/// What is left after trimming the start does not start with `c`.
pub proof fn lemma_trim_start_is_trimmed(s: Seq<char>, c: char)
    ensures
        trim_start(s, c).len() > 0 ==> trim_start(s, c).first() != c,
    decreases s.len(),
{
    if s.len() > 0 && s.first() == c {
        lemma_trim_start_is_trimmed(s.drop_first(), c);
    }
}

/// Borrows `s` up to the end of its last character other than `c`.
pub fn trim_trailing(s: &str, c: char) -> (r: &str)
    ensures
        r@ == trim_end(s@, c),
{
    let total: usize = s.unicode_len();
    let mut keep: usize = 0;
    let mut seen: usize = 0;
    let chars = s.chars();
    for ch in it: chars
        invariant
            seen == it.index(),
            it.seq() == s@,
            s@.len() == total,
            keep <= seen,
            forall|i: int| keep <= i < seen ==> s@[i] == c,
            keep > 0 ==> s@[keep - 1] != c,
    {
        seen = seen + 1;
        if ch != c {
            keep = seen;
        }
    }
    proof {
        lemma_trim_end_is_prefix(s@, c, keep as int);
    }
    s.substring_char(0, keep)
}

/// Cutting `s` before position `k` trims its start, when everything before
/// `k` is `c` and the character at `k` is not.
pub proof fn lemma_trim_start_is_suffix(s: Seq<char>, c: char, k: int)
    requires
        0 <= k <= s.len(),
        forall|i: int| 0 <= i < k ==> s[i] == c,
        k < s.len() ==> s[k] != c,
    ensures
        trim_start(s, c) == s.subrange(k, s.len() as int),
    decreases k,
{
    if k == 0 {
        assert(s.subrange(0, s.len() as int) =~= s);
    } else {
        lemma_trim_start_is_suffix(s.drop_first(), c, k - 1);
        assert(s.drop_first().subrange(k - 1, s.len() - 1) =~= s.subrange(k, s.len() as int));
    }
}

/// Borrows `s` from its first character other than `c`.
pub fn trim_leading(s: &str, c: char) -> (r: &str)
    ensures
        r@ == trim_start(s@, c),
{
    let total: usize = s.unicode_len();
    let mut skip: usize = 0;
    let mut open: bool = true;
    let chars = s.chars();
    for ch in it: chars
        invariant
            it.seq() == s@,
            s@.len() == total,
            skip <= it.index(),
            open ==> skip == it.index(),
            forall|i: int| 0 <= i < skip ==> s@[i] == c,
            !open ==> skip < total && s@[skip as int] != c,
    {
        if open && ch == c {
            skip = skip + 1;
        } else {
            open = false;
        }
    }
    proof {
        lemma_trim_start_is_suffix(s@, c, skip as int);
    }
    s.substring_char(skip, total)
}

/// The fields of `s` between occurrences of `sep`, in order. A text with
/// no separator is one field; an empty text is one empty field.
pub open spec fn fields(s: Seq<char>, sep: char) -> Seq<Seq<char>>
    decreases s.len(),
{
    if s.len() == 0 {
        seq![Seq::<char>::empty()]
    } else {
        let before = fields(s.drop_last(), sep);
        if s.last() == sep {
            before.push(Seq::<char>::empty())
        } else {
            before.update(before.len() - 1, before.last().push(s.last()))
        }
    }
}

/// There is always at least one field.
pub proof fn lemma_fields_nonempty(s: Seq<char>, sep: char)
    ensures
        fields(s, sep).len() >= 1,
    decreases s.len(),
{
    if s.len() > 0 {
        lemma_fields_nonempty(s.drop_last(), sep);
    }
}

/// `parts` written one after another with `sep` between neighbours.
pub open spec fn join(parts: Seq<Seq<char>>, sep: char) -> Seq<char>
    decreases parts.len(),
{
    if parts.len() == 0 {
        Seq::<char>::empty()
    } else if parts.len() == 1 {
        parts[0]
    } else {
        join(parts.drop_last(), sep).push(sep) + parts.last()
    }
}

/// Joining the fields of a text gives the text back.
pub proof fn lemma_join_fields(s: Seq<char>, sep: char)
    ensures
        join(fields(s, sep), sep) == s,
    decreases s.len(),
{
    if s.len() == 0 {
        assert(join(fields(s, sep), sep) =~= s);
    } else {
        let t = s.drop_last();
        let before = fields(t, sep);
        let after = fields(s, sep);
        lemma_fields_nonempty(t, sep);
        lemma_join_fields(t, sep);
        assert(t.push(s.last()) =~= s);
        if s.last() == sep {
            assert(after.drop_last() =~= before);
            assert(join(after, sep) =~= t.push(sep));
        } else if before.len() == 1 {
            assert(join(after, sep) =~= before[0].push(s.last()));
        } else {
            assert(after.drop_last() =~= before.drop_last());
            assert(join(after, sep) =~= join(before, sep).push(s.last()));
        }
    }
}

/// No field holds the separator.
pub proof fn lemma_fields_hold_no_separator(s: Seq<char>, sep: char)
    ensures
        forall|j: int| 0 <= j < fields(s, sep).len() ==> !(#[trigger] fields(s, sep)[j]).contains(sep),
    decreases s.len(),
{
    if s.len() > 0 {
        lemma_fields_nonempty(s.drop_last(), sep);
        lemma_fields_hold_no_separator(s.drop_last(), sep);
    }
}

/// Text without a separator, written after `s`, lengthens the last field of `s`.
pub proof fn lemma_fields_append_plain(s: Seq<char>, t: Seq<char>, sep: char)
    requires
        !t.contains(sep),
    ensures
        fields(s + t, sep) == fields(s, sep).update(
            fields(s, sep).len() - 1,
            fields(s, sep).last() + t,
        ),
    decreases t.len(),
{
    let f = fields(s, sep);
    lemma_fields_nonempty(s, sep);
    if t.len() == 0 {
        assert(s + t =~= s);
        assert(f.last() + t =~= f.last());
        assert(f.update(f.len() - 1, f.last()) =~= f);
    } else {
        let u = t.drop_last();
        assert(t[t.len() - 1] != sep);
        assert forall|i: int| 0 <= i < u.len() implies u[i] != sep by {
            assert(u[i] == t[i]);
        }
        lemma_fields_append_plain(s, u, sep);
        assert((s + t).drop_last() =~= s + u);
        assert((f.last() + u).push(t.last()) =~= f.last() + t);
        assert(fields(s + t, sep) =~= f.update(f.len() - 1, f.last() + t));
    }
}

/// Texts without a separator, joined by it, are the fields of the result.
pub proof fn lemma_fields_of_join(parts: Seq<Seq<char>>, sep: char)
    requires
        parts.len() >= 1,
        forall|j: int| 0 <= j < parts.len() ==> !(#[trigger] parts[j]).contains(sep),
    ensures
        fields(join(parts, sep), sep) == parts,
    decreases parts.len(),
{
    let nothing = Seq::<char>::empty();
    if parts.len() == 1 {
        lemma_fields_append_plain(nothing, parts[0], sep);
        assert(nothing + parts[0] =~= parts[0]);
        assert(fields(parts[0], sep) =~= parts);
    } else {
        let head = parts.drop_last();
        lemma_fields_of_join(head, sep);
        let cut = join(head, sep).push(sep);
        assert(cut.drop_last() =~= join(head, sep));
        assert(fields(cut, sep) == head.push(nothing));
        lemma_fields_append_plain(cut, parts.last(), sep);
        assert(nothing + parts.last() =~= parts.last());
        assert(fields(cut + parts.last(), sep) =~= parts);
    }
}

/// Splits `s` at every `sep`.
pub fn split_fields<'a>(s: &'a str, sep: char) -> (out: Vec<&'a str>)
    ensures
        out.len() == fields(s@, sep).len(),
        forall|j: int| 0 <= j < out.len() ==> out[j]@ == fields(s@, sep)[j],
{
    let total: usize = s.unicode_len();
    let mut out: Vec<&'a str> = Vec::new();
    let mut start: usize = 0;
    let mut seen: usize = 0;
    let chars = s.chars();
    for ch in it: chars
        invariant
            seen == it.index(),
            it.seq() == s@,
            s@.len() == total,
            start <= seen,
            out.len() + 1 == fields(s@.subrange(0, seen as int), sep).len(),
            forall|j: int|
                0 <= j < out.len() ==> out[j]@ == fields(s@.subrange(0, seen as int), sep)[j],
            fields(s@.subrange(0, seen as int), sep).last() == s@.subrange(
                start as int,
                seen as int,
            ),
    {
        proof {
            let shorter = s@.subrange(0, seen as int);
            let longer = s@.subrange(0, seen + 1);
            assert(longer.drop_last() =~= shorter);
            assert(longer.last() == ch);
            if ch != sep {
                assert(s@.subrange(start as int, seen as int).push(ch) =~= s@.subrange(
                    start as int,
                    seen + 1,
                ));
            } else {
                assert(Seq::<char>::empty() =~= s@.subrange(seen + 1, seen + 1));
            }
        }
        if ch == sep {
            out.push(s.substring_char(start, seen));
            start = seen + 1;
        }
        seen = seen + 1;
    }
    proof {
        assert(s@.subrange(0, seen as int) =~= s@);
    }
    out.push(s.substring_char(start, total));
    out
}

/// The character that writes the digit `d`.
pub open spec fn digit(d: nat) -> char
    recommends
        d < 10,
{
    if d == 0 {
        '0'
    } else if d == 1 {
        '1'
    } else if d == 2 {
        '2'
    } else if d == 3 {
        '3'
    } else if d == 4 {
        '4'
    } else if d == 5 {
        '5'
    } else if d == 6 {
        '6'
    } else if d == 7 {
        '7'
    } else if d == 8 {
        '8'
    } else {
        '9'
    }
}

/// `n` in decimal, without sign or leading zeros.
pub open spec fn decimal(n: nat) -> Seq<char>
    decreases n,
{
    if n < 10 {
        seq![digit(n)]
    } else {
        decimal(n / 10).push(digit(n % 10))
    }
}

/// The text of one digit.
fn digit_text(d: u64) -> (r: &'static str)
    requires
        d < 10,
    ensures
        r@ == seq![digit(d as nat)],
{
    proof {
        reveal_strlit("0");
        reveal_strlit("1");
        reveal_strlit("2");
        reveal_strlit("3");
        reveal_strlit("4");
        reveal_strlit("5");
        reveal_strlit("6");
        reveal_strlit("7");
        reveal_strlit("8");
        reveal_strlit("9");
    }
    let r = if d == 0 {
        "0"
    } else if d == 1 {
        "1"
    } else if d == 2 {
        "2"
    } else if d == 3 {
        "3"
    } else if d == 4 {
        "4"
    } else if d == 5 {
        "5"
    } else if d == 6 {
        "6"
    } else if d == 7 {
        "7"
    } else if d == 8 {
        "8"
    } else {
        "9"
    };
    assert(r@ =~= seq![digit(d as nat)]);
    r
}

/// Writes `n` in decimal.
pub fn decimal_text(n: u64) -> (r: String)
    ensures
        r@ == decimal(n as nat),
    decreases n,
{
    if n < 10 {
        String::from_str(digit_text(n))
    } else {
        let mut r = decimal_text(n / 10);
        r.append(digit_text(n % 10));
        assert(r@ =~= decimal(n as nat));
        r
    }
}

} // verus!
