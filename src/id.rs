use vstd::prelude::*;
use vstd::string::*;

verus! {

/// The 62 characters an identifier is drawn from.
pub open spec fn id_alphabet() -> Seq<char> {
    "0123456789abcdefghijklmnopqrstuvwxyzABCDEFGHIJKLMNOPQRSTUVWXYZ"@
}

/// The identifier character that a random byte selects.
pub open spec fn id_char(b: u8) -> char {
    id_alphabet()[(b % 62) as int]
}

/// The identifier that a sequence of random bytes selects, one character per byte.
pub open spec fn id_of(bytes: Seq<u8>) -> Seq<char> {
    Seq::new(bytes.len(), |i: int| id_char(bytes[i]))
}

/// The number of characters in an identifier.
pub const ID_LEN: usize = 8;

/// The identifier that eight random bytes select.
pub fn id_from_bytes(bytes: &[u8; 8]) -> (r: String)
    ensures
        r@ == id_of(bytes@),
        r@.len() == ID_LEN,
{
    let alphabet: &str = "0123456789abcdefghijklmnopqrstuvwxyzABCDEFGHIJKLMNOPQRSTUVWXYZ";
    proof {
        reveal_strlit("0123456789abcdefghijklmnopqrstuvwxyzABCDEFGHIJKLMNOPQRSTUVWXYZ");
    }
    let mut id = String::new();
    let mut k: usize = 0;
    while k < ID_LEN
        invariant
            k <= ID_LEN,
            bytes@.len() == ID_LEN,
            alphabet@ == id_alphabet(),
            alphabet@.len() == 62,
            id@ == id_of(bytes@.take(k as int)),
        decreases ID_LEN - k,
    {
        let c: usize = (bytes[k] % 62) as usize;
        let one = alphabet.substring_char(c, c + 1);
        id.append(one);
        assert(id_of(bytes@.take(k + 1)) =~= id_of(bytes@.take(k as int)).push(id_char(bytes@[k as int])));
        assert(one@ =~= seq![id_char(bytes@[k as int])]);
        k = k + 1;
    }
    assert(bytes@.take(ID_LEN as int) =~= bytes@);
    id
}

/// Relies on rand::random: eight bytes from the thread-local generator. Nothing
/// is known of their values.
#[verifier::external_body]
fn random_bytes() -> (r: [u8; 8]) {
    rand::random::<[u8; 8]>()
}

/// A fresh random identifier: eight characters of the alphabet, one for each
/// random byte drawn.
pub fn generate_id() -> (r: String)
    ensures
        r@.len() == ID_LEN,
        exists|b: Seq<u8>| b.len() == ID_LEN && r@ == id_of(b),
        forall|i: int| 0 <= i < r@.len() ==> id_alphabet().contains(#[trigger] r@[i]),
{
    let bytes = random_bytes();
    let r = id_from_bytes(&bytes);
    proof {
        reveal_strlit("0123456789abcdefghijklmnopqrstuvwxyzABCDEFGHIJKLMNOPQRSTUVWXYZ");
    }
    assert forall|i: int| 0 <= i < r@.len() implies id_alphabet().contains(#[trigger] r@[i]) by {
        let k = (bytes@[i] % 62) as int;
        assert(id_alphabet()[k] == r@[i]);
    }
    r
}

} // verus!
