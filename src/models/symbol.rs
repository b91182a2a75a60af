use vstd::prelude::*;
use vstd::string::*;
use super::Symbol;

verus! {

/// The wire text of a symbol with the given halves.
pub open spec fn symbol_text(short: Seq<char>, full: Seq<char>) -> Seq<char> {
    short + seq!['_'] + full
}

/// `i` is the position of the first underscore of `s`.
pub open spec fn is_first_separator(s: Seq<char>, i: int) -> bool {
    &&& 0 <= i < s.len()
    &&& s[i] == '_'
    &&& forall|j: int| 0 <= j < i ==> s[j] != '_'
}

/// The short half read from wire text: everything before the first
/// underscore, or the whole text where there is none.
pub open spec fn symbol_short_of(s: Seq<char>) -> Seq<char> {
    if exists|i: int| is_first_separator(s, i) {
        let i = choose|i: int| is_first_separator(s, i);
        s.subrange(0, i)
    } else {
        s
    }
}

/// The full half read from wire text: everything after the first
/// underscore, or the whole text where there is none.
pub open spec fn symbol_full_of(s: Seq<char>) -> Seq<char> {
    if exists|i: int| is_first_separator(s, i) {
        let i = choose|i: int| is_first_separator(s, i);
        s.subrange(i + 1, s.len() as int)
    } else {
        s
    }
}

/// There is at most one first underscore.
proof fn lemma_first_separator_unique(s: Seq<char>, i: int, k: int)
    requires
        is_first_separator(s, i),
        is_first_separator(s, k),
    ensures
        i == k,
{
    if i < k {
        assert(s[i] != '_');
    } else if k < i {
        assert(s[k] != '_');
    }
}

/// The wire text `SHORT_FULL`.
pub fn serialize(symbol: &Symbol) -> (r: String)
    ensures
        r@ == symbol_text(symbol.short@, symbol.full@),
{
    let head = symbol.short.clone().concat("_");
    proof {
        reveal_strlit("_");
    }
    head.concat(symbol.full.as_str())
}

/// Reads wire text, splitting on the first underscore; with none, both
/// halves are the whole text.
pub fn deserialize(s: &str) -> (r: Symbol)
    ensures
        r.short@ == symbol_short_of(s@),
        r.full@ == symbol_full_of(s@),
{
    let n = s.unicode_len();
    let mut i: usize = 0;
    while i < n
        invariant
            n == s@.len(),
            i <= n,
            forall|j: int| 0 <= j < i ==> s@[j] != '_',
        decreases n - i,
    {
        if s.get_char(i) == '_' {
            proof {
                assert(is_first_separator(s@, i as int));
                let k = choose|k: int| is_first_separator(s@, k);
                lemma_first_separator_unique(s@, i as int, k);
            }
            let short = String::from_str(s.substring_char(0, i));
            let full = String::from_str(s.substring_char(i + 1, n));
            return Symbol { short, full };
        }
        i = i + 1;
    }
    proof {
        assert(!exists|k: int| is_first_separator(s@, k));
    }
    Symbol { short: String::from_str(s), full: String::from_str(s) }
}

/// Reading back the wire text of a symbol whose short code holds no
/// underscore gives the same two halves.
pub proof fn lemma_symbol_round_trip(short: Seq<char>, full: Seq<char>)
    requires
        forall|j: int| 0 <= j < short.len() ==> short[j] != '_',
    ensures
        symbol_short_of(symbol_text(short, full)) == short,
        symbol_full_of(symbol_text(short, full)) == full,
{
    let t = symbol_text(short, full);
    let n = short.len() as int;
    assert(t[n] == '_');
    assert(forall|j: int| 0 <= j < n ==> t[j] == short[j]);
    assert(is_first_separator(t, n));
    let k = choose|k: int| is_first_separator(t, k);
    lemma_first_separator_unique(t, n, k);
    assert(t.subrange(0, n) =~= short);
    assert(t.subrange(n + 1, t.len() as int) =~= full);
}

} // verus!
