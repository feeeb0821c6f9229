//! Text building blocks: the few string operations from which every message
//! of the crate is assembled, each with its meaning over `Seq<char>`.

use vstd::prelude::*;

verus! {

/// The text that std's `Debug` formatting gives for the string `s`: `s`
/// between double quotes, with its special characters escaped.
pub uninterp spec fn debug_text(s: Seq<char>) -> Seq<char>;

/// Trusted: formats `s` with std's `Debug` implementation for `str`
/// (`{:?}`). The contract only names the result: it is the same text
/// whenever `s` holds the same characters.
#[verifier::external_body]
pub(crate) fn debug_format(s: &str) -> (r: String)
    ensures
        r@ == debug_text(s@),
{
    format!("{:?}", s)
}

/// The decimal digit that stands for `d`, for `d < 10`.
pub open spec fn digit_char(d: nat) -> char {
    if d == 0 {
        '0'
    } else if d == 1 {
        '1'
    } else if d == 2 {
        '2'
    } else if d == 3 {
        '3'
    } else if d == 4 {
        '4'
    } else if d == 5 {
        '5'
    } else if d == 6 {
        '6'
    } else if d == 7 {
        '7'
    } else if d == 8 {
        '8'
    } else {
        '9'
    }
}

/// `n` written in base ten, without sign or leading zeros.
pub open spec fn decimal_text(n: nat) -> Seq<char>
    decreases n,
{
    if n < 10 {
        seq![digit_char(n)]
    } else {
        decimal_text(n / 10).push(digit_char(n % 10))
    }
}

fn digit_str(d: u64) -> (r: &'static str)
    requires
        d < 10,
    ensures
        r@ == seq![digit_char(d as nat)],
{
    proof {
        reveal_strlit("0");
        reveal_strlit("1");
        reveal_strlit("2");
        reveal_strlit("3");
        reveal_strlit("4");
        reveal_strlit("5");
        reveal_strlit("6");
        reveal_strlit("7");
        reveal_strlit("8");
        reveal_strlit("9");
    }
    let r = if d == 0 {
        "0"
    } else if d == 1 {
        "1"
    } else if d == 2 {
        "2"
    } else if d == 3 {
        "3"
    } else if d == 4 {
        "4"
    } else if d == 5 {
        "5"
    } else if d == 6 {
        "6"
    } else if d == 7 {
        "7"
    } else if d == 8 {
        "8"
    } else {
        "9"
    };
    assert(r@ =~= seq![digit_char(d as nat)]);
    r
}

/// Writes `n` in base ten.
pub fn decimal(n: u64) -> (r: String)
    ensures
        r@ == decimal_text(n as nat),
    decreases n,
{
    if n < 10 {
        digit_str(n).to_owned()
    } else {
        let mut out = decimal(n / 10);
        out.append(digit_str(n % 10));
        assert(out@ =~= decimal_text(n as nat));
        out
    }
}

/// The parts in order, with `sep` between each two neighbours.
pub open spec fn joined(parts: Seq<Seq<char>>, sep: Seq<char>) -> Seq<char>
    decreases parts.len(),
{
    if parts.len() == 0 {
        Seq::empty()
    } else if parts.len() == 1 {
        parts[0]
    } else {
        joined(parts.drop_last(), sep) + sep + parts.last()
    }
}

/// Joins `parts` with `sep` between each two neighbours.
pub fn join(parts: &Vec<String>, sep: &str) -> (r: String)
    ensures
        r@ == joined(parts.deep_view(), sep@),
{
    let ghost texts = parts.deep_view();
    let mut out = String::new();
    let mut i: usize = 0;
    assert(texts.take(0) =~= Seq::<Seq<char>>::empty());
    while i < parts.len()
        invariant
            i <= parts.len(),
            texts == parts.deep_view(),
            texts.len() == parts.len(),
            out@ == joined(texts.take(i as int), sep@),
        decreases parts.len() - i,
    {
        let ghost before = texts.take(i as int);
        let ghost after = texts.take(i + 1);
        assert(after.drop_last() =~= before);
        assert(after.last() == parts[i as int]@);
        if i > 0 {
            out.append(sep);
        }
        out.append(parts[i].as_str());
        assert(out@ =~= joined(after, sep@));
        i += 1;
    }
    assert(texts.take(i as int) =~= texts);
    out
}

/// `inner` inside a fenced block: rendered monospace and never as markup.
pub open spec fn fenced(inner: Seq<char>) -> Seq<char> {
    "```\n"@ + inner + "\n```"@
}

/// Puts `inner` inside a fenced block.
pub fn code_block(inner: &str) -> (r: String)
    ensures
        r@ == fenced(inner@),
{
    let mut out = "```\n".to_owned();
    out.append(inner);
    out.append("\n```");
    out
}

/// `inner` between two bold markers.
pub open spec fn emphasized(inner: Seq<char>) -> Seq<char> {
    "**"@ + inner + "**"@
}

/// `before`, then `subject` in its quoted, escaped rendering.
pub fn with_quoted(before: &str, subject: &str) -> (r: String)
    ensures
        r@ == before@ + debug_text(subject@),
{
    let mut out = before.to_owned();
    let shown = debug_format(subject);
    out.append(shown.as_str());
    out
}

/// Tells whether two strings hold the same characters.
pub fn same_text(a: &str, b: &str) -> (r: bool)
    ensures
        r == (a@ == b@),
{
    let left = a.to_owned();
    let right = b.to_owned();
    left == right
}

/// Puts `inner` between two bold markers.
pub fn emphasize(inner: &str) -> (r: String)
    ensures
        r@ == emphasized(inner@),
{
    let mut out = "**".to_owned();
    out.append(inner);
    out.append("**");
    out
}

/// `first` followed by `second`.
pub fn followed_by(first: &str, second: &str) -> (r: String)
    ensures
        r@ == first@ + second@,
{
    let mut out = first.to_owned();
    out.append(second);
    out
}

} // verus!
