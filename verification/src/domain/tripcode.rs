use vstd::prelude::*;

use vstd::utf8::encode_utf8;

verus! {

/// The memory-hard digest of a passphrase. The salt and the cost parameters
/// are fixed inside this crate, so the digest is a function of the
/// passphrase bytes alone.
pub uninterp spec fn tripcode_digest_of(password: Seq<u8>) -> Seq<u8>;

/// Declares argon2's error type so wrappers can hand it through.
#[verifier::external_type_specification]
#[verifier::external_body]
pub struct ExArgon2Error(argon2::Error);

/// Relies on argon2's Argon2::hash_password_into: with the algorithm, the
/// version, the cost parameters and the salt all fixed here, the digest
/// filled into the 16-byte output buffer is a deterministic function of the
/// passphrase bytes alone.
#[verifier::external_body]
fn derive_digest(password: &[u8]) -> (r: Result<Vec<u8>, argon2::Error>)
    ensures
        r matches Ok(d) ==> d@ == tripcode_digest_of(password@) && d@.len() == 16,
{
    let params = match argon2::Params::new(256, 2, 1, Some(16)) {
        Ok(p) => p,
        Err(e) => return Err(e),
    };
    let ctx = argon2::Argon2::new(argon2::Algorithm::Argon2id, argon2::Version::V0x13, params);
    let mut out = [0u8; 16];
    match ctx.hash_password_into(password, b"realtime-chat-tripcode-salt", &mut out) {
        Ok(()) => Ok(out.to_vec()),
        Err(e) => Err(e),
    }
}

/// The lower-case hexadecimal digit for a value below sixteen.
pub open spec fn spec_hex_digit(v: u8) -> char {
    if v < 10 {
        (48 + v) as char
    } else {
        (87 + v) as char
    }
}

/// The rendering of bytes as lower-case hexadecimal text, two digits per
/// byte.
pub open spec fn hex_text(bytes: Seq<u8>) -> Seq<char>
    decreases bytes.len(),
{
    if bytes.len() == 0 {
        Seq::<char>::empty()
    } else {
        hex_text(bytes.drop_last()) + seq![
            spec_hex_digit(bytes.last() / 16),
            spec_hex_digit(bytes.last() % 16),
        ]
    }
}

/// The tripcode text derived from a passphrase: the first five digest bytes
/// rendered as ten hexadecimal characters.
pub open spec fn tripcode_of(password: Seq<char>) -> Seq<char> {
    hex_text(tripcode_digest_of(encode_utf8(password)).subrange(0, 5))
}

/// The one-character text for a hexadecimal digit.
fn hex_digit_str(v: u8) -> (r: &'static str)
    requires
        v < 16,
    ensures
        r@ == seq![spec_hex_digit(v)],
{
    proof {
        reveal_strlit("0");
        reveal_strlit("1");
        reveal_strlit("2");
        reveal_strlit("3");
        reveal_strlit("4");
        reveal_strlit("5");
        reveal_strlit("6");
        reveal_strlit("7");
        reveal_strlit("8");
        reveal_strlit("9");
        reveal_strlit("a");
        reveal_strlit("b");
        reveal_strlit("c");
        reveal_strlit("d");
        reveal_strlit("e");
        reveal_strlit("f");
    }
    match v {
        0 => "0",
        1 => "1",
        2 => "2",
        3 => "3",
        4 => "4",
        5 => "5",
        6 => "6",
        7 => "7",
        8 => "8",
        9 => "9",
        10 => "a",
        11 => "b",
        12 => "c",
        13 => "d",
        14 => "e",
        _ => "f",
    }
}

/// A short, stable, collision-resistant token deterministically derived from
/// a passphrase, rendered as printable text. It makes a display name
/// claimable: only the holder of the passphrase can reproduce it.
#[derive(Debug)]
pub struct Tripcode {
    pub text: String,
}

impl Tripcode {
    /// Derives the tripcode for a passphrase. The derivation fails only when
    /// the underlying hash reports an error, and such a failure always maps
    /// to handshake rejection in the caller.
    pub fn try_from(password: &str) -> (r: Result<Tripcode, argon2::Error>)
        ensures
            r matches Ok(t) ==> t.text@ == tripcode_of(password@),
    {
        let digest = match derive_digest(password.as_bytes()) {
            Ok(d) => d,
            Err(e) => {
                return Err(e);
            },
        };
        let mut text = String::new();
        let mut i: usize = 0;
        while i < 5
            invariant
                0 <= i <= 5,
                digest@.len() == 16,
                digest@ == tripcode_digest_of(encode_utf8(password@)),
                text@ == hex_text(digest@.subrange(0, i as int)),
            decreases 5 - i,
        {
            let b = digest[i];
            text.append(hex_digit_str(b / 16));
            text.append(hex_digit_str(b % 16));
            proof {
                let pre = digest@.subrange(0, i as int);
                let cur = digest@.subrange(0, i as int + 1);
                assert(cur.drop_last() =~= pre);
                assert(cur.last() == digest@[i as int]);
                assert(text@ =~= hex_text(cur));
            }
            i = i + 1;
        }
        Ok(Tripcode { text })
    }
}

} // verus!
