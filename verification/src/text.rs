//! Character-sequence utilities: prefix tests, whitespace trimming, and a
//! line model (`'\n'`-separated) used to strip fenced code blocks from the
//! planning service's replies.

use vstd::prelude::*;
use vstd::string::*;

verus! {

/// ASCII whitespace, the characters the fence detector skips over.
pub open spec fn is_space(c: char) -> bool {
    c == ' ' || c == '\t' || c == '\n' || c == '\r'
}

/// `s` without its leading whitespace.
pub open spec fn trim_start_spec(s: Seq<char>) -> Seq<char>
    decreases s.len(),
{
    if s.len() > 0 && is_space(s[0]) {
        trim_start_spec(s.drop_first())
    } else {
        s
    }
}

/// `p` is a prefix of `s`.
pub open spec fn starts_with_spec(s: Seq<char>, p: Seq<char>) -> bool {
    p.len() <= s.len() && s.subrange(0, p.len() as int) == p
}

/// A line that opens a fenced block: leading whitespace, then three backticks.
pub open spec fn is_fence_line(s: Seq<char>) -> bool {
    starts_with_spec(trim_start_spec(s), seq!['`', '`', '`'])
}

/// The `'\n'`-separated pieces of `s`; always at least one piece, and
/// `line_join` puts them back together exactly.
pub open spec fn line_split(s: Seq<char>) -> Seq<Seq<char>>
    decreases s.len(),
{
    if s.len() == 0 {
        seq![Seq::<char>::empty()]
    } else if s[0] == '\n' {
        seq![Seq::<char>::empty()] + line_split(s.drop_first())
    } else {
        let rest = line_split(s.drop_first());
        seq![seq![s[0]] + rest[0]] + rest.drop_first()
    }
}

/// `'\n'` before each piece; helper for `line_join`.
pub open spec fn prepend_join(ls: Seq<Seq<char>>) -> Seq<char>
    decreases ls.len(),
{
    if ls.len() == 0 {
        Seq::<char>::empty()
    } else {
        seq!['\n'] + ls[0] + prepend_join(ls.drop_first())
    }
}

/// The pieces joined with `'\n'` between them.
pub open spec fn line_join(ls: Seq<Seq<char>>) -> Seq<char> {
    if ls.len() == 0 {
        Seq::<char>::empty()
    } else {
        ls[0] + prepend_join(ls.drop_first())
    }
}

/// The longest prefix of `ls` holding no fence line.
pub open spec fn take_until_fence(ls: Seq<Seq<char>>) -> Seq<Seq<char>>
    decreases ls.len(),
{
    if ls.len() == 0 {
        Seq::<Seq<char>>::empty()
    } else if is_fence_line(ls[0]) {
        Seq::<Seq<char>>::empty()
    } else {
        seq![ls[0]] + take_until_fence(ls.drop_first())
    }
}

/// The body of a fenced reply: drop the opening fence line, keep lines up to
/// the closing fence, and join them back.
pub open spec fn extract_fenced_spec(s: Seq<char>) -> Seq<char> {
    line_join(take_until_fence(line_split(s).drop_first()))
}

/// What the reply's text parses from: the fenced body when the reply opens
/// with a fence (with or without a language tag), the text itself otherwise.
pub open spec fn extract_json_spec(s: Seq<char>) -> Seq<char> {
    if is_fence_line(s) {
        extract_fenced_spec(s)
    } else {
        s
    }
}

pub proof fn lemma_line_split_nonempty(s: Seq<char>)
    ensures
        line_split(s).len() >= 1,
    decreases s.len(),
{
    if s.len() == 0 {
    } else if s[0] == '\n' {
        lemma_line_split_nonempty(s.drop_first());
    } else {
        lemma_line_split_nonempty(s.drop_first());
    }
}

/// A text without `'\n'` is a single line.
pub proof fn lemma_line_split_single(s: Seq<char>)
    requires
        !s.contains('\n'),
    ensures
        line_split(s) =~~= seq![s],
    decreases s.len(),
{
    if s.len() == 0 {
    } else {
        assert(s[0] != '\n');
        assert(!s.drop_first().contains('\n')) by {
            if s.drop_first().contains('\n') {
                let i = choose|i: int| 0 <= i < s.drop_first().len() && s.drop_first()[i] == '\n';
                assert(s[i + 1] == '\n');
            }
        }
        lemma_line_split_single(s.drop_first());
        assert(seq![s[0]] + s.drop_first() =~= s);
    }
}

/// Splitting across a separator splits each side on its own.
pub proof fn lemma_line_split_concat(a: Seq<char>, b: Seq<char>)
    ensures
        line_split(a + seq!['\n'] + b) =~~= line_split(a) + line_split(b),
    decreases a.len(),
{
    let x = a + seq!['\n'] + b;
    if a.len() == 0 {
        assert(x =~= seq!['\n'] + b);
        assert(x[0] == '\n');
        assert(x.drop_first() =~= b);
        assert(line_split(x) =~= seq![Seq::<char>::empty()] + line_split(b));
        assert(line_split(a) =~= seq![Seq::<char>::empty()]);
    } else {
        assert(x[0] == a[0]);
        assert(x.drop_first() =~= a.drop_first() + seq!['\n'] + b);
        lemma_line_split_concat(a.drop_first(), b);
        let r = line_split(a.drop_first()) + line_split(b);
        assert(line_split(x.drop_first()) =~= r);
        lemma_line_split_nonempty(a.drop_first());
        lemma_line_split_nonempty(b);
        assert(r[0] == line_split(a.drop_first())[0]);
        if a[0] == '\n' {
            assert(line_split(x) =~= seq![Seq::<char>::empty()] + r);
            assert(line_split(a) =~= seq![Seq::<char>::empty()] + line_split(a.drop_first()));
            assert(line_split(x) =~= line_split(a) + line_split(b));
        } else {
            assert(r.drop_first() =~= line_split(a.drop_first()).drop_first() + line_split(b));
            assert(line_split(x) =~= seq![seq![a[0]] + r[0]] + r.drop_first());
            assert(line_split(a) =~= seq![
                seq![a[0]] + line_split(a.drop_first())[0],
            ] + line_split(a.drop_first()).drop_first());
            assert(line_split(x) =~= line_split(a) + line_split(b));
        }
    }
}

/// Splitting and joining gives the text back unchanged.
pub proof fn lemma_join_split(s: Seq<char>)
    ensures
        line_join(line_split(s)) =~= s,
    decreases s.len(),
{
    if s.len() == 0 {
    } else if s[0] == '\n' {
        lemma_join_split(s.drop_first());
        let r = line_split(s.drop_first());
        lemma_line_split_nonempty(s.drop_first());
        assert(line_split(s) =~= seq![Seq::<char>::empty()] + r);
        assert(line_split(s).drop_first() =~= r);
        assert(prepend_join(r) =~= seq!['\n'] + line_join(r));
        assert(line_join(line_split(s)) =~= Seq::<char>::empty() + prepend_join(r));
        assert(seq!['\n'] + s.drop_first() =~= s);
    } else {
        lemma_join_split(s.drop_first());
        let r = line_split(s.drop_first());
        lemma_line_split_nonempty(s.drop_first());
        assert(line_split(s) =~= seq![seq![s[0]] + r[0]] + r.drop_first());
        assert(line_split(s)[0] =~= seq![s[0]] + r[0]);
        assert(line_split(s).drop_first() =~= r.drop_first());
        if r.len() == 1 {
            assert(line_join(line_split(s)) =~= seq![s[0]] + r[0]);
            assert(line_join(r) =~= r[0]);
            assert(seq![s[0]] + s.drop_first() =~= s);
        } else {
            assert(line_join(r) =~= r[0] + prepend_join(r.drop_first()));
            assert(line_join(line_split(s)) =~= (seq![s[0]] + r[0]) + prepend_join(
                r.drop_first(),
            ));
            assert((seq![s[0]] + r[0]) + prepend_join(r.drop_first()) =~= seq![s[0]] + (r[0]
                + prepend_join(r.drop_first())));
            assert(seq![s[0]] + s.drop_first() =~= s);
        }
    }
}

/// Up to the first fence line, taking keeps every earlier line.
pub proof fn lemma_take_until_fence_concat(ls1: Seq<Seq<char>>, ls2: Seq<Seq<char>>)
    requires
        forall|i: int| 0 <= i < ls1.len() ==> !is_fence_line(#[trigger] ls1[i]),
        ls2.len() > 0,
        is_fence_line(ls2[0]),
    ensures
        take_until_fence(ls1 + ls2) =~~= ls1,
    decreases ls1.len(),
{
    let x = ls1 + ls2;
    if ls1.len() == 0 {
        assert(x =~= ls2);
    } else {
        assert(x[0] == ls1[0]);
        assert(!is_fence_line(x[0]));
        assert(x.drop_first() =~= ls1.drop_first() + ls2);
        lemma_take_until_fence_concat(ls1.drop_first(), ls2);
        assert(take_until_fence(x) =~= seq![ls1[0]] + ls1.drop_first());
        assert(seq![ls1[0]] + ls1.drop_first() =~= ls1);
    }
}

/// True of every line made of three backticks and more.
pub proof fn lemma_backticks_are_fence(s: Seq<char>)
    requires
        s.len() >= 3,
        s[0] == '`',
        s[1] == '`',
        s[2] == '`',
    ensures
        is_fence_line(s),
{
    assert(trim_start_spec(s) == s);
    assert(s.subrange(0, 3) =~= seq!['`', '`', '`']);
}

// ---------------------------------------------------------------------------
// Executable helpers over `&str`.
// ---------------------------------------------------------------------------

pub fn char_is_space(c: char) -> (r: bool)
    ensures
        r == is_space(c),
{
    c == ' ' || c == '\t' || c == '\n' || c == '\r'
}

/// Character-for-character equality of two string slices.
pub fn str_eq(a: &str, b: &str) -> (r: bool)
    ensures
        r == (a@ == b@),
{
    let na = a.unicode_len();
    let nb = b.unicode_len();
    if na != nb {
        proof {
            assert(a@ != b@);
        }
        return false;
    }
    let mut i: usize = 0;
    while i < na
        invariant
            na == a@.len(),
            na == b@.len(),
            i <= na,
            forall|k: int| 0 <= k < i ==> a@[k] == b@[k],
        decreases na - i,
    {
        if a.get_char(i) != b.get_char(i) {
            return false;
        }
        i += 1;
    }
    proof {
        assert(a@ =~= b@);
    }
    true
}

/// Whether `s` begins with `p`.
pub fn str_starts_with(s: &str, p: &str) -> (r: bool)
    ensures
        r == starts_with_spec(s@, p@),
{
    let ns = s.unicode_len();
    let np = p.unicode_len();
    if np > ns {
        return false;
    }
    let mut i: usize = 0;
    while i < np
        invariant
            ns == s@.len(),
            np == p@.len(),
            np <= ns,
            i <= np,
            forall|k: int| 0 <= k < i ==> s@[k] == p@[k],
        decreases np - i,
    {
        if s.get_char(i) != p.get_char(i) {
            proof {
                assert(s@.subrange(0, np as int)[i as int] != p@[i as int]);
            }
            return false;
        }
        i += 1;
    }
    proof {
        assert(s@.subrange(0, np as int) =~= p@);
    }
    true
}

/// Whether the line `text[from..to]` opens a fenced block.
pub fn fence_in_range(text: &str, from: usize, to: usize) -> (r: bool)
    requires
        from <= to <= text@.len(),
    ensures
        r == is_fence_line(text@.subrange(from as int, to as int)),
{
    let ghost line = text@.subrange(from as int, to as int);
    let mut i: usize = from;
    while i < to && char_is_space(text.get_char(i))
        invariant
            from <= i <= to <= text@.len(),
            line == text@.subrange(from as int, to as int),
            trim_start_spec(line) == trim_start_spec(
                text@.subrange(i as int, to as int),
            ),
        decreases to - i,
    {
        proof {
            let cur = text@.subrange(i as int, to as int);
            assert(cur.len() > 0 && is_space(cur[0]));
            assert(cur.drop_first() =~= text@.subrange(i + 1, to as int));
        }
        i += 1;
    }
    proof {
        let cur = text@.subrange(i as int, to as int);
        if i < to {
            assert(!is_space(cur[0]));
        }
        assert(trim_start_spec(cur) == cur);
    }
    if to - i < 3 {
        proof {
            assert(trim_start_spec(line).len() < 3);
        }
        return false;
    }
    let r = text.get_char(i) == '`' && text.get_char(i + 1) == '`' && text.get_char(i + 2) == '`';
    proof {
        let cur = text@.subrange(i as int, to as int);
        if r {
            assert(cur.subrange(0, 3) =~= seq!['`', '`', '`']);
        } else {
            assert(cur.subrange(0, 3) != seq!['`', '`', '`']) by {
                if cur.subrange(0, 3) == seq!['`', '`', '`'] {
                    assert(cur.subrange(0, 3)[0] == '`');
                    assert(cur.subrange(0, 3)[1] == '`');
                    assert(cur.subrange(0, 3)[2] == '`');
                }
            }
        }
    }
    r
}

/// The first line of `text`, if the text is not empty; mirrors taking the
/// head of its `'\n'`-separated lines.
pub fn first_line(text: &str) -> (r: Option<String>)
    ensures
        match r {
            Some(l) => text@.len() > 0 && l@ == line_split(text@)[0],
            None => text@.len() == 0,
        },
{
    let n = text.unicode_len();
    if n == 0 {
        return None;
    }
    let mut j: usize = 0;
    while j < n && text.get_char(j) != '\n'
        invariant
            n == text@.len(),
            j <= n,
            forall|k: int| 0 <= k < j ==> text@[k] != '\n',
        decreases n - j,
    {
        j += 1;
    }
    proof {
        lemma_line_head(text@, j as int);
    }
    Some(text.substring_char(0, j).to_owned())
}

/// The head of `line_split` is everything before the first `'\n'`.
pub proof fn lemma_line_head(s: Seq<char>, j: int)
    requires
        0 <= j <= s.len(),
        forall|k: int| 0 <= k < j ==> s[k] != '\n',
        j < s.len() ==> s[j] == '\n',
    ensures
        line_split(s)[0] =~= s.subrange(0, j),
    decreases s.len(),
{
    if s.len() == 0 {
    } else if s[0] == '\n' {
        assert(j == 0);
    } else {
        assert(j >= 1);
        lemma_line_head(s.drop_first(), j - 1);
        lemma_line_split_nonempty(s.drop_first());
        assert(line_split(s)[0] =~= seq![s[0]] + line_split(s.drop_first())[0]);
        assert(seq![s[0]] + s.drop_first().subrange(0, j - 1) =~= s.subrange(0, j));
    }
}

/// Splitting off the first line: everything after the first `'\n'` splits on
/// its own.
pub proof fn lemma_line_split_head_rest(s: Seq<char>, j: int)
    requires
        0 <= j < s.len(),
        forall|k: int| 0 <= k < j ==> s[k] != '\n',
        s[j] == '\n',
    ensures
        line_split(s) =~~= seq![s.subrange(0, j)] + line_split(
            s.subrange(j + 1, s.len() as int),
        ),
{
    let head = s.subrange(0, j);
    let rest = s.subrange(j + 1, s.len() as int);
    assert(s =~= head + seq!['\n'] + rest);
    lemma_line_split_concat(head, rest);
    assert(!head.contains('\n')) by {
        if head.contains('\n') {
            let i = choose|i: int| 0 <= i < head.len() && head[i] == '\n';
            assert(s[i] == '\n');
        }
    }
    lemma_line_split_single(head);
}

/// Strips a fenced code block: drops the opening fence line, keeps the lines
/// up to the closing fence, and joins them with `'\n'`. Text that does not
/// open with a fence passes through unchanged.
pub fn extract_json_text(text: &str) -> (r: String)
    ensures
        r@ == extract_json_spec(text@),
{
    let n = text.unicode_len();
    if !fence_in_range(text, 0, n) {
        proof {
            assert(text@.subrange(0, n as int) =~= text@);
        }
        return text.to_owned();
    }
    proof {
        assert(text@.subrange(0, n as int) =~= text@);
        assert(is_fence_line(text@));
    }
    // Find the end of the opening fence line.
    let mut i: usize = 0;
    while i < n && text.get_char(i) != '\n'
        invariant
            n == text@.len(),
            i <= n,
            forall|k: int| 0 <= k < i ==> text@[k] != '\n',
        decreases n - i,
    {
        i += 1;
    }
    if i == n {
        // A single fence line and nothing after it: no body lines remain.
        proof {
            lemma_line_split_single_no_newline(text@);
            assert(line_split(text@).drop_first() =~~= Seq::<Seq<char>>::empty());
            assert(take_until_fence(Seq::<Seq<char>>::empty()) =~~= Seq::<Seq<char>>::empty());
            assert(line_join(Seq::<Seq<char>>::empty()) =~= Seq::<char>::empty());
            assert(extract_fenced_spec(text@) =~= Seq::<char>::empty());
        }
        return String::new();
    }
    proof {
        lemma_line_split_head_rest(text@, i as int);
        lemma_line_split_nonempty(text@.subrange(i + 1, n as int));
        assert(line_split(text@).drop_first() =~~= line_split(
            text@.subrange(i + 1, n as int),
        ));
    }
    let mut out = String::new();
    let mut first_piece: bool = true;
    let mut start: usize = i + 1;
    let ghost target = extract_fenced_spec(text@);
    loop
        invariant
            n == text@.len(),
            start <= n,
            target == extract_fenced_spec(text@),
            is_fence_line(text@),
            target == extract_json_spec(text@),
            ({
                let rem = text@.subrange(start as int, n as int);
                if first_piece {
                    out@.len() == 0 && target == line_join(take_until_fence(line_split(rem)))
                } else {
                    target == out@ + prepend_join(take_until_fence(line_split(rem)))
                }
            }),
        decreases n - start + 1,
    {
        let ghost rem = text@.subrange(start as int, n as int);
        // Find the end of the current line.
        let mut j: usize = start;
        while j < n && text.get_char(j) != '\n'
            invariant
                n == text@.len(),
                start <= j <= n,
                forall|k: int| start <= k < j ==> text@[k] != '\n',
            decreases n - j,
        {
            j += 1;
        }
        let ghost line = text@.subrange(start as int, j as int);
        proof {
            assert(line =~= rem.subrange(0, j - start));
            if j < n {
                lemma_line_split_head_rest(rem, j - start);
                assert(rem.subrange(j - start + 1, rem.len() as int) =~= text@.subrange(
                    j + 1,
                    n as int,
                ));
                assert(line_split(rem) =~~= seq![line] + line_split(
                    text@.subrange(j + 1, n as int),
                ));
            } else {
                assert(line =~= rem);
                lemma_line_split_single_no_newline(rem);
                assert(line_split(rem) =~~= seq![line]);
            }
            lemma_line_split_nonempty(rem);
            assert(line_split(rem)[0] == line);
        }
        if fence_in_range(text, start, j) {
            // Closing fence: everything up to here is the body.
            proof {
                assert(is_fence_line(line_split(rem)[0]));
                assert(take_until_fence(line_split(rem)) =~~= Seq::<Seq<char>>::empty());
                if first_piece {
                    assert(target =~= Seq::<char>::empty());
                    assert(out@ =~= Seq::<char>::empty());
                    assert(out@ == target);
                } else {
                    assert(prepend_join(take_until_fence(line_split(rem))) =~= Seq::<char>::empty());
                    assert(target =~= out@ + Seq::<char>::empty());
                    assert(out@ + Seq::<char>::empty() =~= out@);
                    assert(out@ == target);
                }
                assert(extract_json_spec(text@) == extract_fenced_spec(text@));
            }
            return out;
        }
        if !first_piece {
            out.append("\n");
            proof {
                reveal_strlit("\n");
                assert("\n"@ =~= seq!['\n']);
            }
        }
        out.append(text.substring_char(start, j));
        proof {
            if j < n {
                let rem2 = text@.subrange(j + 1, n as int);
                let tuf2 = take_until_fence(line_split(rem2));
                assert((seq![line] + line_split(rem2)).drop_first() =~~= line_split(rem2));
                assert((seq![line] + line_split(rem2))[0] == line);
                assert(take_until_fence(line_split(rem)) =~~= seq![line] + tuf2);
                assert((seq![line] + tuf2).drop_first() =~~= tuf2);
                assert((seq![line] + tuf2)[0] == line);
                if first_piece {
                    assert(line_join(seq![line] + tuf2) =~= line + prepend_join(tuf2));
                    assert(out@ =~= Seq::<char>::empty() + line);
                    assert(target =~= out@ + prepend_join(tuf2));
                } else {
                    assert(prepend_join(seq![line] + tuf2) =~= seq!['\n'] + line + prepend_join(
                        tuf2,
                    ));
                    assert(target =~= out@ + prepend_join(tuf2));
                }
            } else {
                let none = Seq::<Seq<char>>::empty();
                assert(seq![line].drop_first() =~~= none);
                assert(take_until_fence(none) =~~= none);
                assert(seq![line] + take_until_fence(none) =~~= seq![line]);
                assert(take_until_fence(line_split(rem)) =~~= seq![line]);
                assert((seq![line] + none)[0] == line);
                assert(seq![line].drop_first() =~~= none);
                if first_piece {
                    assert(line_join(seq![line]) =~= line + prepend_join(none));
                    assert(line + prepend_join(none) =~= line);
                    assert(out@ =~= line);
                } else {
                    assert(prepend_join(seq![line]) =~= seq!['\n'] + line + prepend_join(none));
                    assert(seq!['\n'] + line + prepend_join(none) =~= seq!['\n'] + line);
                    assert(target =~= out@);
                }
            }
        }
        if j == n {
            // Last line, no closing fence: keep everything.
            proof {
                if first_piece {
                    assert(out@ == target);
                } else {
                    assert(out@ == target);
                }
                assert(extract_json_spec(text@) == extract_fenced_spec(text@));
            }
            return out;
        }
        first_piece = false;
        start = j + 1;
        proof {
            let rem2 = text@.subrange(start as int, n as int);
            assert(target == out@ + prepend_join(take_until_fence(line_split(rem2))));
        }
    }
}

/// A text without `'\n'` has no body lines after its opening fence.
proof fn lemma_line_split_single_no_newline(s: Seq<char>)
    requires
        forall|k: int| 0 <= k < s.len() ==> s[k] != '\n',
    ensures
        line_split(s) =~~= seq![s],
{
    assert(!s.contains('\n')) by {
        if s.contains('\n') {
            let i = choose|i: int| 0 <= i < s.len() && s[i] == '\n';
        }
    }
    lemma_line_split_single(s);
}

/// A reply wrapped in a fenced block — three backticks, an optional
/// language tag, the body, and a closing fence — strips to exactly the
/// body, while an unfenced reply passes through unchanged: the two parse
/// identically.
pub proof fn lemma_fenced_strips_to_body(tag: Seq<char>, body: Seq<char>)
    requires
        !tag.contains('\n'),
        !is_fence_line(body),
        forall|i: int|
            0 <= i < line_split(body).len() ==> !is_fence_line(#[trigger] line_split(body)[i]),
    ensures
        extract_json_spec(body) == body,
        extract_json_spec(
            seq!['`', '`', '`'] + tag + seq!['\n'] + body + seq!['\n'] + seq!['`', '`', '`'],
        ) == body,
{
    let ticks = seq!['`', '`', '`'];
    let open = ticks + tag;
    let whole = ticks + tag + seq!['\n'] + body + seq!['\n'] + ticks;
    let tail = body + seq!['\n'] + ticks;
    assert(whole =~= open + seq!['\n'] + tail);
    assert(!open.contains('\n')) by {
        if open.contains('\n') {
            let i = choose|i: int| 0 <= i < open.len() && open[i] == '\n';
            if i < 3 {
                assert(open[i] == '`');
            } else {
                assert(tag[i - 3] == '\n');
                assert(tag.contains('\n'));
            }
        }
    }
    assert(!ticks.contains('\n')) by {
        if ticks.contains('\n') {
            let i = choose|i: int| 0 <= i < 3 && ticks[i] == '\n';
        }
    }
    lemma_line_split_concat(open, tail);
    lemma_line_split_concat(body, ticks);
    lemma_line_split_single(open);
    lemma_line_split_single(ticks);
    assert(line_split(whole) =~~= seq![open] + (line_split(body) + seq![ticks]));
    assert(line_split(whole).drop_first() =~~= line_split(body) + seq![ticks]);
    lemma_backticks_are_fence(ticks);
    lemma_take_until_fence_concat(line_split(body), seq![ticks]);
    assert(take_until_fence(line_split(whole).drop_first()) =~~= line_split(body));
    lemma_join_split(body);
    assert(extract_fenced_spec(whole) == body);
    lemma_backticks_are_fence(whole);
    assert(extract_json_spec(whole) == body);
}

/// The decimal digit character for a value below ten.
pub open spec fn dec_digit(d: int) -> char {
    if d == 0 { '0' }
    else if d == 1 { '1' }
    else if d == 2 { '2' }
    else if d == 3 { '3' }
    else if d == 4 { '4' }
    else if d == 5 { '5' }
    else if d == 6 { '6' }
    else if d == 7 { '7' }
    else if d == 8 { '8' }
    else { '9' }
}

/// The decimal form of a non-negative number, most significant digit first.
pub open spec fn dec_str(n: int) -> Seq<char>
    decreases n,
{
    if n < 10 {
        seq![dec_digit(n)]
    } else {
        dec_str(n / 10) + seq![dec_digit(n % 10)]
    }
}

/// One digit as a string slice.
fn dec_digit_str(d: u16) -> (r: &'static str)
    requires
        d < 10,
    ensures
        r@ =~= seq![dec_digit(d as int)],
{
    proof {
        reveal_strlit("0");
        reveal_strlit("1");
        reveal_strlit("2");
        reveal_strlit("3");
        reveal_strlit("4");
        reveal_strlit("5");
        reveal_strlit("6");
        reveal_strlit("7");
        reveal_strlit("8");
        reveal_strlit("9");
    }
    match d {
        0 => "0",
        1 => "1",
        2 => "2",
        3 => "3",
        4 => "4",
        5 => "5",
        6 => "6",
        7 => "7",
        8 => "8",
        _ => "9",
    }
}

/// The decimal form of a number, for rendering statuses into messages.
pub fn u16_to_string(n: u16) -> (r: String)
    ensures
        r@ == dec_str(n as int),
{
    let mut m: u16 = n;
    let mut r = String::new();
    loop
        invariant_except_break
            dec_str(n as int) == dec_str(m as int) + r@,
        ensures
            r@ == dec_str(n as int),
        decreases m,
    {
        let ghost r_before = r@;
        let d = m % 10;
        let ghost m0 = m as int;
        let mut piece = String::from_str(dec_digit_str(d));
        piece.append(r.as_str());
        r = piece;
        if m < 10 {
            proof {
                assert(dec_str(m0) =~= seq![dec_digit(m0)]);
                assert(dec_str(n as int) =~= r@);
            }
            break;
        }
        m = m / 10;
        proof {
            assert(dec_str(m0) =~= dec_str(m0 / 10) + seq![dec_digit(m0 % 10)]);
            assert(dec_str(n as int) =~= dec_str(m as int) + r@) by {
                assert((dec_str(m0 / 10) + seq![dec_digit(m0 % 10)]) + r_before =~= dec_str(
                    m0 / 10,
                ) + (seq![dec_digit(m0 % 10)] + r_before));
            }
        }
    }
    r
}

} // verus!
