use vstd::prelude::*;
use vstd::utf8::encode_utf8;

verus! {

/// The address bytes that instantiate2 derivation gives for a code checksum,
/// a creator and a salt.
pub uninterp spec fn instantiate2_of(checksum: Seq<u8>, creator: Seq<u8>, salt: Seq<u8>) -> Seq<u8>;

/// Relies on cosmwasm_std::instantiate2_address: it refuses a checksum that is
/// not 32 bytes long and a salt that is empty or longer than 64 bytes, and
/// otherwise hashes the three inputs, and nothing else, into an address.
#[verifier::external_body]
fn instantiate2_address(checksum: &[u8], creator: &[u8], salt: &[u8]) -> (r: Option<Vec<u8>>)
    ensures
        r is Some <==> (checksum@.len() == 32 && 1 <= salt@.len() <= 64),
        r matches Some(a) ==> a@ == instantiate2_of(checksum@, creator@, salt@),
{
    let creator = cosmwasm_std::CanonicalAddr::from(creator);
    cosmwasm_std::instantiate2_address(checksum, &creator, salt).ok().map(|a| Vec::<u8>::from(a))
}

/// Lower-case hexadecimal digit of a value below 16.
pub open spec fn hex_digit(n: u8) -> char {
    if n < 10 {
        ((n + 48) as u8) as char
    } else {
        ((n + 87) as u8) as char
    }
}

/// Two lower-case hexadecimal digits per byte, most significant first.
pub open spec fn hex_of(b: Seq<u8>) -> Seq<char>
    decreases b.len(),
{
    if b.len() == 0 {
        Seq::empty()
    } else {
        hex_of(b.drop_last()) + seq![hex_digit(b.last() / 16), hex_digit(b.last() % 16)]
    }
}

/// The `k` low bytes of `n`, least significant first.
pub open spec fn le_bytes(n: nat, k: nat) -> Seq<u8>
    decreases k,
{
    if k == 0 {
        Seq::empty()
    } else {
        seq![(n % 256) as u8] + le_bytes(n / 256, (k - 1) as nat)
    }
}

/// The checksum that stands for natively registered code: its code id in
/// eight little-endian bytes, padded with zeros to 32 bytes.
pub open spec fn native_checksum(code_id: u64) -> Seq<u8> {
    le_bytes(code_id as nat, 8) + Seq::new(24, |i: int| 0u8)
}

/// The text form of the address derived from a code id, a creator and a salt.
pub open spec fn predicted_address(code_id: u64, creator: Seq<u8>, salt: Seq<u8>) -> Seq<char> {
    hex_of(instantiate2_of(native_checksum(code_id), creator, salt))
}

fn push_hex_digit(s: &mut String, n: u8)
    requires
        n < 16,
    ensures
        final(s)@ == old(s)@.push(hex_digit(n)),
{
    let d: &str = match n {
        0 => "0",
        1 => "1",
        2 => "2",
        3 => "3",
        4 => "4",
        5 => "5",
        6 => "6",
        7 => "7",
        8 => "8",
        9 => "9",
        10 => "a",
        11 => "b",
        12 => "c",
        13 => "d",
        14 => "e",
        _ => "f",
    };
    proof {
        reveal_strlit("0");
        reveal_strlit("1");
        reveal_strlit("2");
        reveal_strlit("3");
        reveal_strlit("4");
        reveal_strlit("5");
        reveal_strlit("6");
        reveal_strlit("7");
        reveal_strlit("8");
        reveal_strlit("9");
        reveal_strlit("a");
        reveal_strlit("b");
        reveal_strlit("c");
        reveal_strlit("d");
        reveal_strlit("e");
        reveal_strlit("f");
        assert(d@ =~= seq![hex_digit(n)]);
    }
    s.append(d);
}

/// Lower-case hexadecimal text of `b`.
pub fn hex_encode(b: &[u8]) -> (r: String)
    ensures
        r@ == hex_of(b@),
{
    let mut s = String::new();
    let mut i: usize = 0;
    while i < b.len()
        invariant
            i <= b@.len(),
            s@ == hex_of(b@.subrange(0, i as int)),
        decreases b@.len() - i,
    {
        let x = b[i];
        proof {
            assert(b@.subrange(0, i + 1).drop_last() =~= b@.subrange(0, i as int));
        }
        push_hex_digit(&mut s, x / 16);
        push_hex_digit(&mut s, x % 16);
        proof {
            assert(s@ =~= hex_of(b@.subrange(0, i + 1)));
        }
        i = i + 1;
    }
    proof {
        assert(b@.subrange(0, b@.len() as int) =~= b@);
    }
    s
}

/// The `k` low bytes of `n`, least significant first.
pub fn to_le_bytes(n: u64, k: usize) -> (r: Vec<u8>)
    ensures
        r@ == le_bytes(n as nat, k as nat),
{
    let mut v: Vec<u8> = Vec::new();
    let mut cur: u64 = n;
    let mut i: usize = 0;
    while i < k
        invariant
            i <= k,
            v@ + le_bytes(cur as nat, (k - i) as nat) == le_bytes(n as nat, k as nat),
        decreases k - i,
    {
        proof {
            assert(le_bytes(cur as nat, (k - i) as nat) == seq![(cur as nat % 256) as u8] + le_bytes(
                cur as nat / 256,
                (k - i - 1) as nat,
            ));
        }
        v.push((cur % 256) as u8);
        proof {
            assert(v@ + le_bytes(cur as nat / 256, (k - i - 1) as nat) =~= le_bytes(n as nat, k as nat));
        }
        cur = cur / 256;
        i = i + 1;
    }
    proof {
        assert(v@ + le_bytes(cur as nat, 0) =~= v@);
    }
    v
}

/// The checksum standing for the natively registered code `code_id`.
pub fn native_code_checksum(code_id: u64) -> (r: Vec<u8>)
    ensures
        r@ == native_checksum(code_id),
        r@.len() == 32,
{
    let mut v = to_le_bytes(code_id, 8);
    proof {
        lemma_le_bytes_len(code_id as nat, 8);
    }
    let mut i: usize = 0;
    while i < 24
        invariant
            i <= 24,
            v@ == le_bytes(code_id as nat, 8) + Seq::new(i as nat, |j: int| 0u8),
        decreases 24 - i,
    {
        v.push(0u8);
        i = i + 1;
        proof {
            assert(v@ =~= le_bytes(code_id as nat, 8) + Seq::new(i as nat, |j: int| 0u8));
        }
    }
    v
}

proof fn lemma_le_bytes_len(n: nat, k: nat)
    ensures
        le_bytes(n, k).len() == k,
    decreases k,
{
    if k > 0 {
        lemma_le_bytes_len(n / 256, (k - 1) as nat);
    }
}

/// The address that a contract of `code_id` created by `creator` with `salt`
/// receives; `None` where the salt is empty or longer than 64 bytes.
pub fn predict_address(code_id: u64, creator: &String, salt: &[u8]) -> (r: Option<String>)
    ensures
        r is Some <==> 1 <= salt@.len() <= 64,
        r matches Some(a) ==> a@ == predicted_address(code_id, encode_utf8(creator@), salt@),
{
    let checksum = native_code_checksum(code_id);
    let creator_bytes = creator.as_str().as_bytes();
    match instantiate2_address(checksum.as_slice(), creator_bytes, salt) {
        Some(a) => Some(hex_encode(a.as_slice())),
        None => None,
    }
}

} // verus!
