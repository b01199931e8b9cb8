//! Obfuscation of secret-like configuration values. A stored value either
//! carries a marker followed by the obfuscated text, or is taken verbatim:
//! tokens typed in plain text are accepted on load and re-encoded on the
//! next save.

use vstd::prelude::*;

verus! {

/// Marker that prefixes an obfuscated value in the configuration file.
pub const OBFUSCATION_MARKER: &'static str = "enc!";

/// The sequence read backwards.
pub open spec fn reversed(s: Seq<char>) -> Seq<char> {
    Seq::new(s.len(), |i: int| s[s.len() - 1 - i])
}

/// Whether a stored value carries the obfuscation marker.
pub open spec fn is_obfuscated(s: Seq<char>) -> bool {
    s.len() >= OBFUSCATION_MARKER@.len() && s.take(OBFUSCATION_MARKER@.len() as int)
        == OBFUSCATION_MARKER@
}

/// The obfuscated form of a value: the marker, then the text reversed.
pub open spec fn encrypt_spec(s: Seq<char>) -> Seq<char> {
    OBFUSCATION_MARKER@ + reversed(s)
}

/// The value a stored string stands for: a marked value is decoded, a plain
/// one passes through unchanged.
pub open spec fn decrypt_spec(s: Seq<char>) -> Seq<char> {
    if is_obfuscated(s) {
        reversed(s.skip(OBFUSCATION_MARKER@.len() as int))
    } else {
        s
    }
}

/// The characters of `s`, last to first.
fn reverse_str(s: &str) -> (r: String)
    ensures
        r@ == reversed(s@),
{
    let n = s.unicode_len();
    let mut r = String::new();
    let mut i: usize = 0;
    while i < n
        invariant
            n == s@.len(),
            i <= n,
            r@ == reversed(s@).take(i as int),
        decreases n - i,
    {
        let piece = s.substring_char(n - 1 - i, n - i);
        r.append(piece);
        proof {
            assert(reversed(s@).take(i + 1) =~= reversed(s@).take(i as int) + s@.subrange(
                n - 1 - i,
                n - i,
            ));
        }
        i += 1;
    }
    proof {
        assert(reversed(s@).take(n as int) =~= reversed(s@));
    }
    r
}

/// Whether the string begins with the obfuscation marker.
fn has_marker(s: &str) -> (r: bool)
    ensures
        r == is_obfuscated(s@),
{
    proof {
        reveal_strlit("enc!");
    }
    let n = s.unicode_len();
    if n < 4 {
        return false;
    }
    let r = s.get_char(0) == 'e' && s.get_char(1) == 'n' && s.get_char(2) == 'c' && s.get_char(3)
        == '!';
    proof {
        if r {
            assert(s@.take(4) =~= OBFUSCATION_MARKER@);
        } else {
            assert(s@.take(4) != OBFUSCATION_MARKER@) by {
                if s@.take(4) == OBFUSCATION_MARKER@ {
                    assert(s@.take(4)[0] == OBFUSCATION_MARKER@[0]);
                    assert(s@.take(4)[1] == OBFUSCATION_MARKER@[1]);
                    assert(s@.take(4)[2] == OBFUSCATION_MARKER@[2]);
                    assert(s@.take(4)[3] == OBFUSCATION_MARKER@[3]);
                    assert(s@[0] == 'e' && s@[1] == 'n' && s@[2] == 'c' && s@[3] == '!');
                }
            }
        }
    }
    r
}

/// Obfuscates a secret value for storage: the marker, then the text
/// reversed.
pub fn encrypt(value: &str) -> (r: String)
    ensures
        r@ == encrypt_spec(value@),
{
    let mut r = String::from_str(OBFUSCATION_MARKER);
    let rev = reverse_str(value);
    r.append(rev.as_str());
    r
}

/// Restores a stored value: decodes it if it carries the marker, otherwise
/// hands it back unchanged.
pub fn decrypt_if_needed(value: &str) -> (r: String)
    ensures
        r@ == decrypt_spec(value@),
{
    if has_marker(value) {
        proof {
            reveal_strlit("enc!");
        }
        let n = value.unicode_len();
        let rest = value.substring_char(4, n);
        proof {
            assert(rest@ =~= value@.skip(4));
        }
        reverse_str(rest)
    } else {
        value.to_owned()
    }
}

/// Law: decoding a freshly obfuscated value restores it exactly, so a secret
/// survives a save-then-load round trip.
pub proof fn lemma_obfuscation_round_trip(s: Seq<char>)
    ensures
        decrypt_spec(encrypt_spec(s)) == s,
{
    reveal_strlit("enc!");
    assert(encrypt_spec(s).take(4) =~= OBFUSCATION_MARKER@);
    assert(encrypt_spec(s).skip(4) =~= reversed(s));
    assert(reversed(reversed(s)) =~= s);
}

/// Compares two strings character by character.
pub fn str_eq(a: &str, b: &str) -> (r: bool)
    ensures
        r == (a@ == b@),
{
    let na = a.unicode_len();
    let nb = b.unicode_len();
    if na != nb {
        return false;
    }
    let mut i: usize = 0;
    while i < na
        invariant
            na == a@.len(),
            na == b@.len(),
            i <= na,
            forall|j: int| 0 <= j < i ==> a@[j] == b@[j],
        decreases na - i,
    {
        if a.get_char(i) != b.get_char(i) {
            return false;
        }
        i += 1;
    }
    proof {
        assert(a@ =~= b@);
    }
    true
}

} // verus!
