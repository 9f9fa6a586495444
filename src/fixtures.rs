//! Fixture lists, as given to a test, and where their scripts live.

use vstd::prelude::*;

verus! {

/// Relative path of the baseline schema migration.
pub const MIGRATION_PATH: &'static str = "migrations/20221223050143_base_0.up.sql";

/// `s` with every double quote removed.
pub open spec fn unquote(s: Seq<char>) -> Seq<char> {
    s.filter(|c: char| c != '"')
}

/// A token that only separates two fixtures.
pub open spec fn is_separator(t: Seq<char>) -> bool {
    t == seq![',']
}

/// The fixture names that a list of argument tokens gives, in order:
/// separators are skipped, quotes dropped.
pub open spec fn fixture_names(tokens: Seq<Seq<char>>) -> Seq<Seq<char>>
    decreases tokens.len(),
{
    if tokens.len() == 0 {
        seq![]
    } else {
        let rest = fixture_names(tokens.drop_last());
        if is_separator(tokens.last()) {
            rest
        } else {
            rest.push(unquote(tokens.last()))
        }
    }
}

/// The path of a fixture's script, relative to the project root.
pub open spec fn fixture_path_of(name: Seq<char>) -> Seq<char> {
    seq!['f', 'i', 'x', 't', 'u', 'r', 'e', 's', '/'] + name
}

/// Removes every double quote from one argument token.
pub fn unquote_token(token: &str) -> (r: String)
    ensures
        r@ == unquote(token@),
{
    let n = token.unicode_len();
    let mut out = String::new();
    let mut i: usize = 0;
    proof {
        reveal(Seq::filter);
        assert(token@.subrange(0, 0) =~= Seq::<char>::empty());
        assert(out@ =~= unquote(token@.subrange(0, 0)));
    }
    while i < n
        invariant
            n == token@.len(),
            i <= n,
            out@ == unquote(token@.subrange(0, i as int)),
        decreases n - i,
    {
        let c = token.get_char(i);
        proof {
            reveal(Seq::filter);
            let next = token@.subrange(0, i as int + 1);
            assert(next.drop_last() =~= token@.subrange(0, i as int));
            assert(next.last() == c);
        }
        if c != '"' {
            let one = token.substring_char(i, i + 1);
            out.append(one);
            proof {
                assert(one@ =~= seq![c]);
                assert(out@ =~= unquote(token@.subrange(0, i as int + 1)));
            }
        }
        i = i + 1;
    }
    assert(token@.subrange(0, n as int) =~= token@);
    out
}

/// Turns the argument tokens of a test into its fixture names, in the order
/// given.
pub fn fixture_list(tokens: &Vec<String>) -> (r: Vec<String>)
    ensures
        r@.len() == fixture_names(tokens@.map_values(|t: String| t@)).len(),
        forall|i: int|
            0 <= i < r@.len() ==> #[trigger] r@[i]@ == fixture_names(
                tokens@.map_values(|t: String| t@),
            )[i],
{
    let ghost views = tokens@.map_values(|t: String| t@);
    let mut out: Vec<String> = Vec::new();
    let mut i: usize = 0;
    let sep = ",";
    proof {
        reveal_strlit(",");
        assert(views.subrange(0, 0) =~= Seq::<Seq<char>>::empty());
    }
    while i < tokens.len()
        invariant
            i <= tokens@.len(),
            views == tokens@.map_values(|t: String| t@),
            sep@ == seq![','],
            out@.len() == fixture_names(views.subrange(0, i as int)).len(),
            forall|j: int|
                0 <= j < out@.len() ==> #[trigger] out@[j]@ == fixture_names(
                    views.subrange(0, i as int),
                )[j],
        decreases tokens@.len() - i,
    {
        let t = tokens[i].as_str();
        let ghost before = out@;
        proof {
            let next = views.subrange(0, i as int + 1);
            assert(next.drop_last() =~= views.subrange(0, i as int));
            assert(next.last() == t@);
        }
        if t.unicode_len() == 1 && t.get_char(0) == ',' {
            assert(t@ =~= seq![',']);
        } else {
            assert(!is_separator(t@));
            let name = unquote_token(t);
            out.push(name);
        }
        i = i + 1;
    }
    assert(views.subrange(0, tokens@.len() as int) =~= views);
    out
}

/// The path of a fixture's script, relative to the project root.
pub fn fixture_path(name: &str) -> (r: String)
    ensures
        r@ == fixture_path_of(name@),
{
    let mut p = String::from_str("fixtures/");
    proof {
        reveal_strlit("fixtures/");
    }
    p.append(name);
    assert(p@ =~= fixture_path_of(name@));
    p
}

} // verus!
