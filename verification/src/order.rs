//! The order in which tokens are kept and scanned: by the length of the
//! collection's address first, by its bytes second, by the token's number
//! third. A store that keeps each token under its address, prefixed with the
//! address's length, and its number in big-endian bytes walks its keys in
//! this order.

use vstd::prelude::*;
use vstd::utf8::{encode_utf8, encode_utf8_decode_utf8};

verus! {

/// A token: the address of its collection and its number in that collection.
pub type Token = (String, u64);

/// The two tokens of a wager.
pub type WagerKey = (Token, Token);

/// What a token is in contracts: the text of the collection's address and the number.
pub type TokenView = (Seq<char>, u64);

/// How one token stands to another in the scan order.
#[derive(Clone, Copy, Debug, PartialEq, Eq, Structural)]
pub enum Rank {
    Before,
    Same,
    After,
}

/// `a` precedes `b` lexicographically, given that they agree below index `i`.
pub open spec fn lex_lt_from(a: Seq<u8>, b: Seq<u8>, i: int) -> bool
    decreases b.len() - i,
{
    if i < 0 || i >= b.len() {
        false
    } else if i >= a.len() {
        true
    } else if a[i] != b[i] {
        a[i] < b[i]
    } else {
        lex_lt_from(a, b, i + 1)
    }
}

/// `a` precedes `b` in the lexicographic order of byte strings.
pub open spec fn lex_lt(a: Seq<u8>, b: Seq<u8>) -> bool {
    lex_lt_from(a, b, 0)
}

/// Address `a` precedes address `b`: it is shorter, or as long and earlier
/// in the lexicographic order of its bytes.
pub open spec fn address_lt(a: Seq<u8>, b: Seq<u8>) -> bool {
    a.len() < b.len() || (a.len() == b.len() && lex_lt(a, b))
}

/// Token `a` precedes token `b` in the scan order: its collection's address
/// precedes that of `b`, or the two are of one collection and its number is
/// the smaller.
pub open spec fn token_lt(a: TokenView, b: TokenView) -> bool {
    address_lt(encode_utf8(a.0), encode_utf8(b.0)) || (a.0 == b.0 && a.1 < b.1)
}

/// Pair `a` precedes pair `b`: by their first tokens, and by their second
/// where the first are the same.
pub open spec fn key_lt(a: (TokenView, TokenView), b: (TokenView, TokenView)) -> bool {
    token_lt(a.0, b.0) || (a.0 == b.0 && token_lt(a.1, b.1))
}

/// No byte string precedes itself.
proof fn lemma_lex_irreflexive(a: Seq<u8>, i: int)
    requires
        0 <= i,
    ensures
        !lex_lt_from(a, a, i),
    decreases a.len() - i,
{
    if i < a.len() {
        lemma_lex_irreflexive(a, i + 1);
    }
}

/// The lexicographic order is transitive.
proof fn lemma_lex_transitive(a: Seq<u8>, b: Seq<u8>, c: Seq<u8>, i: int)
    requires
        0 <= i,
        lex_lt_from(a, b, i),
        lex_lt_from(b, c, i),
    ensures
        lex_lt_from(a, c, i),
    decreases c.len() - i,
{
    if i < a.len() && a[i] == b[i] && b[i] == c[i] {
        lemma_lex_transitive(a, b, c, i + 1);
    }
}

/// Two byte strings of which neither precedes the other are the same.
proof fn lemma_lex_connected(a: Seq<u8>, b: Seq<u8>, i: int)
    requires
        0 <= i <= a.len(),
        i <= b.len(),
        forall|j: int| 0 <= j < i ==> a[j] == b[j],
        !lex_lt_from(a, b, i),
        !lex_lt_from(b, a, i),
    ensures
        a == b,
    decreases a.len() - i,
{
    if i < a.len() && i < b.len() {
        lemma_lex_connected(a, b, i + 1);
    }
}

/// Two addresses with the same bytes are the same text.
proof fn lemma_same_bytes_same_text(a: Seq<char>, b: Seq<char>)
    requires
        encode_utf8(a) == encode_utf8(b),
    ensures
        a == b,
{
    encode_utf8_decode_utf8(a);
    encode_utf8_decode_utf8(b);
}

/// No token precedes itself.
pub proof fn lemma_token_lt_irreflexive(a: TokenView)
    ensures
        !token_lt(a, a),
{
    lemma_lex_irreflexive(encode_utf8(a.0), 0);
}

/// The scan order is transitive.
pub proof fn lemma_token_lt_transitive(a: TokenView, b: TokenView, c: TokenView)
    requires
        token_lt(a, b),
        token_lt(b, c),
    ensures
        token_lt(a, c),
{
    let (x, y, z) = (encode_utf8(a.0), encode_utf8(b.0), encode_utf8(c.0));
    if x.len() == y.len() && y.len() == z.len() && lex_lt(x, y) && lex_lt(y, z) {
        lemma_lex_transitive(x, y, z, 0);
    }
}

/// Of two tokens that precede one another, neither does: the order is strict.
pub proof fn lemma_token_lt_asymmetric(a: TokenView, b: TokenView)
    requires
        token_lt(a, b),
    ensures
        !token_lt(b, a),
        a != b,
{
    lemma_token_lt_irreflexive(a);
    if token_lt(b, a) {
        lemma_token_lt_transitive(a, b, a);
    }
}

/// Two different tokens are ordered one way or the other.
pub proof fn lemma_token_lt_connected(a: TokenView, b: TokenView)
    requires
        !token_lt(a, b),
        !token_lt(b, a),
    ensures
        a == b,
{
    lemma_lex_connected(encode_utf8(a.0), encode_utf8(b.0), 0);
    lemma_same_bytes_same_text(a.0, b.0);
}

/// Compares two byte strings lexicographically.
fn rank_bytes(a: &[u8], b: &[u8]) -> (r: Rank)
    ensures
        r is Before <==> lex_lt(a@, b@),
        r is Same <==> a@ == b@,
        r is After <==> lex_lt(b@, a@),
{
    let mut i: usize = 0;
    while i < a.len() && i < b.len()
        invariant
            i <= a.len(),
            i <= b.len(),
            forall|j: int| 0 <= j < i ==> a@[j] == b@[j],
            lex_lt(a@, b@) == lex_lt_from(a@, b@, i as int),
            lex_lt(b@, a@) == lex_lt_from(b@, a@, i as int),
        decreases a.len() - i,
    {
        if a[i] < b[i] {
            return Rank::Before;
        }
        if a[i] > b[i] {
            return Rank::After;
        }
        i += 1;
    }
    if i < b.len() {
        Rank::Before
    } else if i < a.len() {
        Rank::After
    } else {
        assert(a@ =~= b@);
        Rank::Same
    }
}

/// Compares two tokens in the scan order.
pub fn rank_tokens(a: &Token, b: &Token) -> (r: Rank)
    ensures
        r is Before <==> token_lt(a@, b@),
        r is Same <==> a@ == b@,
        r is After <==> token_lt(b@, a@),
{
    let (x, y) = (a.0.as_str().as_bytes(), b.0.as_str().as_bytes());
    if x.len() < y.len() {
        return Rank::Before;
    }
    if x.len() > y.len() {
        return Rank::After;
    }
    let by_address = rank_bytes(x, y);
    proof {
        if by_address is Same {
            lemma_same_bytes_same_text(a.0@, b.0@);
        }
    }
    match by_address {
        Rank::Before => Rank::Before,
        Rank::After => Rank::After,
        Rank::Same => {
            if a.1 < b.1 {
                Rank::Before
            } else if a.1 > b.1 {
                Rank::After
            } else {
                Rank::Same
            }
        },
    }
}

/// Whether pair `a` precedes pair `b`.
pub fn precedes_key(a: &WagerKey, b: &WagerKey) -> (r: bool)
    ensures
        r == key_lt(a@, b@),
{
    match rank_tokens(&a.0, &b.0) {
        Rank::Before => true,
        Rank::After => {
            proof {
                lemma_token_lt_asymmetric(b.0@, a.0@);
            }
            false
        },
        Rank::Same => {
            proof {
                lemma_token_lt_irreflexive(a.0@);
            }
            rank_tokens(&a.1, &b.1) == Rank::Before
        },
    }
}

/// A copy of a token.
pub fn clone_token(t: &Token) -> (r: Token)
    ensures
        r == *t,
{
    (t.0.clone(), t.1)
}

} // verus!
