//! Random names for per-test databases.

use rand::Rng;
use vstd::prelude::*;

verus! {

/// Number of random letters in a database name.
pub const NAME_LETTERS: usize = 8;

/// Number of letters to draw from.
pub const ALPHABET_SIZE: usize = 26;

/// The lowercase latin alphabet, in order.
pub open spec fn alphabet() -> Seq<char> {
    seq![
        'a', 'b', 'c', 'd', 'e', 'f', 'g', 'h', 'i', 'j', 'k', 'l', 'm',
        'n', 'o', 'p', 'q', 'r', 's', 't', 'u', 'v', 'w', 'x', 'y', 'z',
    ]
}

/// The literal every database name starts with.
pub open spec fn name_prefix() -> Seq<char> {
    seq!['t', 'e', 's', 't', '_']
}

pub open spec fn is_lowercase_letter(c: char) -> bool {
    'a' <= c && c <= 'z'
}

/// Every index picks a letter of the alphabet.
pub open spec fn valid_indices(ix: Seq<usize>) -> bool {
    forall|i: int| 0 <= i < ix.len() ==> #[trigger] ix[i] < ALPHABET_SIZE
}

/// The letters that a sequence of alphabet indices stands for.
pub open spec fn letters_of(ix: Seq<usize>) -> Seq<char> {
    ix.map_values(|k: usize| alphabet()[k as int])
}

/// The database name built from a sequence of alphabet indices.
pub open spec fn db_name_of(ix: Seq<usize>) -> Seq<char> {
    name_prefix() + letters_of(ix)
}

/// A well-formed per-test database name: the prefix, then exactly
/// `NAME_LETTERS` lowercase letters.
pub open spec fn is_db_name(s: Seq<char>) -> bool {
    &&& s.len() == name_prefix().len() + NAME_LETTERS
    &&& s.subrange(0, name_prefix().len() as int) == name_prefix()
    &&& forall|i: int|
        name_prefix().len() <= i < s.len() ==> is_lowercase_letter(#[trigger] s[i])
}

/// Relies on rand's `thread_rng` sampled through `Uniform::new(0, bound)`,
/// which yields a value in `[0, bound)` and panics on an empty range (ruled
/// out here). `thread_rng` itself panics only when the operating system
/// cannot seed it, which no argument can rule out.
#[verifier::external_body]
fn draw_below(bound: usize) -> (r: usize)
    requires
        bound > 0,
    ensures
        r < bound,
{
    rand::thread_rng().sample(rand::distributions::Uniform::new(0usize, bound))
}

/// Builds the database name for the given alphabet indices.
pub fn db_name_from_indices(indices: &Vec<usize>) -> (r: String)
    requires
        valid_indices(indices@),
    ensures
        r@ == db_name_of(indices@),
{
    let letters = "abcdefghijklmnopqrstuvwxyz";
    proof {
        reveal_strlit("abcdefghijklmnopqrstuvwxyz");
        reveal_strlit("test_");
        assert(letters@ =~= alphabet());
    }
    let mut name = String::from_str("test_");
    assert(name@ =~= name_prefix());
    let mut i: usize = 0;
    while i < indices.len()
        invariant
            i <= indices@.len(),
            valid_indices(indices@),
            letters@ == alphabet(),
            name@ == db_name_of(indices@.subrange(0, i as int)),
        decreases indices@.len() - i,
    {
        let k = indices[i];
        let one = letters.substring_char(k, k + 1);
        let ghost prev = name@;
        name.append(one);
        proof {
            let pre = indices@.subrange(0, i as int);
            let post = indices@.subrange(0, i as int + 1);
            assert(post =~= pre.push(k));
            assert(letters_of(post) =~= letters_of(pre).push(alphabet()[k as int]));
            assert(name@ =~= db_name_of(post));
        }
        i = i + 1;
    }
    assert(indices@.subrange(0, indices@.len() as int) =~= indices@);
    name
}

/// Names from index sequences of one length are well formed exactly when the
/// length is `NAME_LETTERS`.
pub proof fn lemma_db_name_well_formed(ix: Seq<usize>)
    requires
        valid_indices(ix),
        ix.len() == NAME_LETTERS,
    ensures
        is_db_name(db_name_of(ix)),
{
    let s = db_name_of(ix);
    assert(s.subrange(0, 5) =~= name_prefix());
    assert forall|i: int| name_prefix().len() <= i < s.len() implies is_lowercase_letter(
        #[trigger] s[i],
    ) by {
        assert(s[i] == alphabet()[ix[i - 5] as int]);
        assert(ix[i - 5] < 26);
    }
}

/// Two different draws of letters give two different database names: the
/// only way two tests share a database is that their random draws coincide.
pub proof fn lemma_distinct_draws_distinct_names(a: Seq<usize>, b: Seq<usize>)
    requires
        valid_indices(a),
        valid_indices(b),
        a != b,
    ensures
        db_name_of(a) != db_name_of(b),
{
    if a.len() != b.len() {
        assert(db_name_of(a).len() != db_name_of(b).len());
    } else {
        let i = choose|i: int| 0 <= i < a.len() && a[i] != b[i];
        assert(!(a =~= b));
        assert(exists|i: int| 0 <= i < a.len() && a[i] != b[i]);
        assert(a[i] < 26 && b[i] < 26);
        assert(db_name_of(a)[5 + i] == alphabet()[a[i] as int]);
        assert(db_name_of(b)[5 + i] == alphabet()[b[i] as int]);
    }
}

/// Draws a fresh database name: the prefix followed by `NAME_LETTERS`
/// random lowercase letters.
pub fn random_db_name() -> (r: String)
    ensures
        is_db_name(r@),
{
    let mut indices: Vec<usize> = Vec::new();
    let mut i: usize = 0;
    while i < NAME_LETTERS
        invariant
            i <= NAME_LETTERS,
            indices@.len() == i,
            valid_indices(indices@),
        decreases NAME_LETTERS - i,
    {
        let k = draw_below(ALPHABET_SIZE);
        indices.push(k);
        i = i + 1;
    }
    let r = db_name_from_indices(&indices);
    proof {
        lemma_db_name_well_formed(indices@);
    }
    r
}

} // verus!
