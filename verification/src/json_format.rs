//! A small pretty-printer for serialized JSON text: after every bracket,
//! and after a comma that follows a closing quote, it breaks the line and
//! indents by the current nesting depth. Quoted text is left alone.

use vstd::prelude::*;

use vstd::string::StrSliceExecFns;

verus! {

/// The formatter's running state: what was emitted so far, the previous
/// input character, whether the position is inside a quoted string, and the
/// current nesting depth.
#[verifier::ext_equal]
pub ghost struct FmtState {
    pub out: Seq<char>,
    pub prev: char,
    pub in_quotes: bool,
    pub depth: nat,
}

/// The starting state: nothing emitted, a space as the previous character,
/// outside quotes, at depth zero.
pub open spec fn fmt_init() -> FmtState {
    FmtState { out: Seq::empty(), prev: ' ', in_quotes: false, depth: 0 }
}

/// `n` spaces of indentation.
pub open spec fn spaces(n: nat) -> Seq<char> {
    Seq::new(n, |i: int| ' ')
}

/// One formatter step: the character is emitted; an unquoted opening
/// bracket deepens the nesting and breaks the line, an unquoted closing
/// bracket shallows it (floored at zero) and breaks the line, and an
/// unquoted comma right after a closing quote breaks the line at the
/// current depth. An unescaped quote toggles the quoted state.
pub open spec fn fmt_step(st: FmtState, c: char) -> FmtState {
    let in_quotes = if c == '"' && st.prev != '\\' {
        !st.in_quotes
    } else {
        st.in_quotes
    };
    let emitted = st.out.push(c);
    if !in_quotes && (c == '{' || c == '[') {
        let depth = st.depth + 1;
        FmtState { out: emitted + seq!['\n'] + spaces(depth), prev: c, in_quotes, depth }
    } else if !in_quotes && (c == '}' || c == ']') {
        let depth = if st.depth >= 1 {
            (st.depth - 1) as nat
        } else {
            0
        };
        FmtState { out: emitted + seq!['\n'] + spaces(depth), prev: c, in_quotes, depth }
    } else if !in_quotes && c == ',' && st.prev == '"' {
        FmtState { out: emitted + seq!['\n'] + spaces(st.depth), prev: c, in_quotes, depth: st.depth }
    } else {
        FmtState { out: emitted, prev: c, in_quotes, depth: st.depth }
    }
}

/// The formatter folded over a whole text.
pub open spec fn fmt_fold(st: FmtState, s: Seq<char>) -> FmtState
    decreases s.len(),
{
    if s.len() == 0 {
        st
    } else {
        fmt_fold(fmt_step(st, s[0]), s.drop_first())
    }
}

/// What formatting a whole text emits.
pub open spec fn formatted(s: Seq<char>) -> Seq<char> {
    fmt_fold(fmt_init(), s).out
}

/// Folding one more character steps the folded state once.
proof fn lemma_fmt_fold_snoc(st: FmtState, s: Seq<char>, c: char)
    ensures
        fmt_fold(st, s.push(c)) == fmt_step(fmt_fold(st, s), c),
    decreases s.len(),
{
    if s.len() == 0 {
        assert(s.push(c)[0] == c);
        assert(s.push(c).drop_first() =~= Seq::<char>::empty());
        assert(fmt_fold(fmt_step(st, c), Seq::<char>::empty()) == fmt_step(st, c));
        assert(fmt_fold(st, s) == st);
    } else {
        assert(s.push(c)[0] == s[0]);
        assert(s.push(c).drop_first() =~= s.drop_first().push(c));
        lemma_fmt_fold_snoc(fmt_step(st, s[0]), s.drop_first(), c);
        assert(fmt_fold(st, s.push(c)) == fmt_fold(fmt_step(st, s[0]), s.drop_first().push(c)));
        assert(fmt_fold(st, s) == fmt_fold(fmt_step(st, s[0]), s.drop_first()));
    }
}

/// Append a line break and `depth` spaces.
fn push_indent(out: &mut String, depth: usize)
    ensures
        final(out)@ == old(out)@ + seq!['\n'] + spaces(depth as nat),
{
    out.push('\n');
    let mut k: usize = 0;
    while k < depth
        invariant
            k <= depth,
            out@ == old(out)@ + seq!['\n'] + spaces(k as nat),
        decreases depth - k,
    {
        out.push(' ');
        k += 1;
        proof {
            assert(old(out)@ + seq!['\n'] + spaces(k as nat) =~= (old(out)@ + seq!['\n'] + spaces(
                (k - 1) as nat,
            )).push(' '));
        }
    }
}

/// Re-indent serialized JSON text line by line, leaving quoted text alone.
pub fn format_json(text: &str) -> (r: String)
    ensures
        r@ == formatted(text@),
{
    let len = text.unicode_len();
    let mut out = String::new();
    let mut prev: char = ' ';
    let mut in_quotes = false;
    let mut depth: usize = 0;
    let mut i: usize = 0;
    while i < len
        invariant
            i <= len,
            len == text@.len(),
            depth <= i,
            fmt_fold(fmt_init(), text@.take(i as int)) == (FmtState {
                out: out@,
                prev,
                in_quotes,
                depth: depth as nat,
            }),
        decreases len - i,
    {
        let c = text.get_char(i);
        proof {
            lemma_fmt_fold_snoc(fmt_init(), text@.take(i as int), c);
            assert(text@.take((i + 1) as int) =~= text@.take(i as int).push(c));
        }
        let new_in_quotes = if c == '"' && prev != '\\' {
            !in_quotes
        } else {
            in_quotes
        };
        out.push(c);
        if !new_in_quotes && (c == '{' || c == '[') {
            depth = depth + 1;
            push_indent(&mut out, depth);
        } else if !new_in_quotes && (c == '}' || c == ']') {
            if depth >= 1 {
                depth = depth - 1;
            }
            push_indent(&mut out, depth);
        } else if !new_in_quotes && c == ',' && prev == '"' {
            push_indent(&mut out, depth);
        }
        prev = c;
        in_quotes = new_in_quotes;
        i += 1;
    }
    proof {
        assert(text@.take(len as int) =~= text@);
    }
    out
}

} // verus!
