use vstd::prelude::*;
use crate::ast::{Literal, SpecLiteral, Type};
use crate::display::literal_text;
use crate::error::SpecVmError;
use crate::text::{push_str, push_string};
use crate::vm::{SpecVal, Val, unit};

verus! {

// ---------------------------------------------------------------------------
// The text `println!` prints

/// `{}` starts at position `i`.
pub open spec fn is_short_placeholder(s: Seq<char>, i: int) -> bool {
    0 <= i && i + 1 < s.len() && s[i] == '{' && s[i + 1] == '}'
}

/// `{:?}` starts at position `i`.
pub open spec fn is_debug_placeholder(s: Seq<char>, i: int) -> bool {
    0 <= i && i + 3 < s.len() && s[i] == '{' && s[i + 1] == ':' && s[i + 2] == '?' && s[i + 3] == '}'
}

/// The pieces of `s` from `start` on, split at each placeholder `{}` or `{:?}` found
/// from position `i` on, searching left to right.
pub open spec fn split_from(s: Seq<char>, start: int, i: int) -> Seq<Seq<char>>
    decreases s.len() - i,
{
    if i < 0 || i >= s.len() || start < 0 || start > i {
        seq![s.subrange(start, s.len() as int)]
    } else if is_short_placeholder(s, i) {
        seq![s.subrange(start, i)] + split_from(s, i + 2, i + 2)
    } else if is_debug_placeholder(s, i) {
        seq![s.subrange(start, i)] + split_from(s, i + 4, i + 4)
    } else {
        split_from(s, start, i + 1)
    }
}

/// The pieces of a format string between its placeholders.
pub open spec fn split_placeholders_spec(s: Seq<char>) -> Seq<Seq<char>> {
    split_from(s, 0, 0)
}

/// The pieces from the second up to the `k`-th, each after the literal of the same
/// position.
pub open spec fn fill(parts: Seq<Seq<char>>, lits: Seq<SpecLiteral>, k: int) -> Seq<char>
    decreases k,
{
    if k <= 1 {
        seq![]
    } else {
        fill(parts, lits, k - 1) + literal_text(lits[k - 1]) + parts[k - 1]
    }
}

/// The line `println!` prints: the first piece of the format, then each further
/// argument (in literal form) followed by the next piece, and a line break. Pieces
/// with no argument left and arguments with no placeholder left are dropped.
pub open spec fn println_text(fmt: Seq<char>, lits: Seq<SpecLiteral>) -> Seq<char> {
    let parts = split_placeholders_spec(fmt);
    let k = if parts.len() < lits.len() { parts.len() as int } else { lits.len() as int };
    parts[0] + fill(parts, lits, k) + "\n"@
}

/// The first position from `i` on whose value is not a literal.
pub open spec fn first_non_literal(vals: Seq<SpecVal>, i: int) -> Option<int>
    decreases vals.len() - i,
{
    if i < 0 || i >= vals.len() {
        None
    } else if vals[i] is Lit {
        first_non_literal(vals, i + 1)
    } else {
        Some(i)
    }
}

pub open spec fn lits_of(vals: Seq<SpecVal>) -> Seq<SpecLiteral> {
    Seq::new(vals.len(), |i: int| match vals[i] {
        SpecVal::Lit(l) => l,
        _ => SpecLiteral::Unit,
    })
}

/// What `println!` prints for its argument values: the line of its format string,
/// the first value, filled in with the others. Where the first value is not a string
/// or some value is not a literal, nothing is printed.
pub open spec fn println_spec(vals: Seq<SpecVal>) -> Seq<char> {
    if vals.len() == 0 {
        seq![]
    } else {
        match vals[0] {
            SpecVal::Lit(SpecLiteral::String(fmt)) => match first_non_literal(vals, 1) {
                Some(_) => seq![],
                None => println_text(fmt, lits_of(vals)),
            },
            _ => seq![],
        }
    }
}

// ---------------------------------------------------------------------------
// Printing

proof fn lemma_split_from_nonempty(s: Seq<char>, start: int, i: int)
    ensures
        split_from(s, start, i).len() >= 1,
    decreases s.len() - i,
{
    if i < 0 || i >= s.len() || start < 0 || start > i {
    } else if is_short_placeholder(s, i) {
        lemma_split_from_nonempty(s, i + 2, i + 2);
    } else if is_debug_placeholder(s, i) {
        lemma_split_from_nonempty(s, i + 4, i + 4);
    } else {
        lemma_split_from_nonempty(s, start, i + 1);
    }
}

/// `regex::Regex::split` with the pattern `\{(:\?)?\}`, which matches `{}` and `{:?}`:
/// the pieces of `text` before, between and after its matches, found left to right
/// without overlap (a haystack with no match gives one piece, the whole of it).
/// The contract claims that these pieces are `split_placeholders_spec(text@)`.
#[verifier::external_body]
fn regex_split(text: &str) -> (parts: Vec<String>)
    ensures
        parts@.map_values(|p: String| p@) == split_placeholders_spec(text@),
{
    let re = regex::Regex::new(r"\{(:\?)?\}").unwrap();
    re.split(text).map(|p| p.to_string()).collect()
}

/// The pieces of `s` between its placeholders `{}` and `{:?}`.
pub fn split_placeholders(s: &str) -> (parts: Vec<String>)
    ensures
        parts@.map_values(|p: String| p@) == split_placeholders_spec(s@),
        parts@.len() >= 1,
{
    let parts = regex_split(s);
    proof {
        lemma_split_from_nonempty(s@, 0, 0);
        assert(parts@.len() == parts@.map_values(|p: String| p@).len());
    }
    parts
}

pub open spec fn literals_view(v: Seq<Literal>) -> Seq<SpecLiteral> {
    v.map_values(|l: Literal| l@)
}

/// Prints the line of `println!` for `lits`: the first is the format string, the
/// others the arguments. The line goes to the end of `stdout`; the value is unit.
pub fn vm_println(lits: &Vec<Literal>, stdout: &mut String) -> (r: Literal)
    requires
        lits@.len() >= 1,
        lits@[0] is String,
    ensures
        final(stdout)@ == old(stdout)@ + println_text(lits@[0]->String_0@, literals_view(lits@)),
        r@ == SpecLiteral::Unit,
{
    let fmt = match &lits[0] {
        Literal::String(s) => s,
        _ => {
            return Literal::Unit;
        },
    };
    let ghost lv = literals_view(lits@);
    let parts = split_placeholders(fmt.as_str());
    let ghost pv = parts@.map_values(|p: String| p@);
    let k = if parts.len() < lits.len() {
        parts.len()
    } else {
        lits.len()
    };
    let ghost start = stdout@;
    push_string(stdout, &parts[0]);
    let mut j: usize = 1;
    while j < k
        invariant
            1 <= j,
            k >= 1,
            k <= parts@.len(),
            k <= lits@.len(),
            pv == parts@.map_values(|p: String| p@),
            lv == literals_view(lits@),
            j <= k || k == 1,
            stdout@ == start + pv[0] + fill(pv, lv, if j <= k { j as int } else { k as int }),
        decreases k - j,
    {
        let t = lits[j].to_string();
        push_string(stdout, &t);
        push_string(stdout, &parts[j]);
        j = j + 1;
        assert(stdout@ =~= start + pv[0] + fill(pv, lv, j as int));
    }
    push_str(stdout, "\n");
    assert(fill(pv, lv, if j <= k { j as int } else { k as int }) == fill(pv, lv, k as int));
    assert(stdout@ =~= start + println_text(fmt@, lv));
    Literal::Unit
}

pub open spec fn vals_view(v: Seq<Val>) -> Seq<SpecVal> {
    v.map_values(|x: Val| x@)
}

/// The line `println!` prints for its argument values: empty where the first is not
/// a string or a value is not a literal.
pub fn println_values(vals: &Vec<Val>) -> (t: String)
    ensures
        t@ == println_spec(vals_view(vals@)),
{
    let ghost vv = vals_view(vals@);
    let n = vals.len();
    if n == 0 {
        return String::new();
    }
    match &vals[0] {
        Val::Lit(Literal::String(_)) => {},
        _ => {
            return String::new();
        },
    }
    let mut lits: Vec<Literal> = Vec::new();
    let mut i: usize = 0;
    while i < n
        invariant
            n == vals@.len(),
            n >= 1,
            i <= n,
            vv == vals_view(vals@),
            vv[0] matches SpecVal::Lit(SpecLiteral::String(_)),
            i >= 1 ==> first_non_literal(vv, 1) == first_non_literal(vv, i as int),
            literals_view(lits@) =~= lits_of(vv).subrange(0, i as int),
        decreases n - i,
    {
        match &vals[i] {
            Val::Lit(l) => {
                let ghost before = lits@;
                lits.push(l.copy());
                proof {
                    assert(literals_view(lits@) =~= literals_view(before).push(l@));
                }
            },
            _ => {
                return String::new();
            },
        }
        i = i + 1;
    }
    assert(lits_of(vv).subrange(0, n as int) =~= lits_of(vv));
    assert(literals_view(lits@)[0] == lits_of(vv)[0]);
    assert(lits@[0]@ == literals_view(lits@)[0]);
    assert(lits@[0] is String);
    let mut text = String::new();
    vm_println(&lits, &mut text);
    assert(text@ =~= println_text(lits@[0]->String_0@, literals_view(lits@)));
    text
}

} // verus!
