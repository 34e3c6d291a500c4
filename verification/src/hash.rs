//! Content hashing of upload payloads. The digest itself comes from the
//! `md-5` crate; the hex rendering is verified.

use vstd::prelude::*;

verus! {

/// The MD5 digest of a byte sequence.
pub uninterp spec fn md5_of(data: Seq<u8>) -> Seq<u8>;

/// Relies on `md5::Md5` through `digest::Digest::digest`: the digest is a
/// function of the input bytes alone, and is 16 bytes long.
#[verifier::external_body]
fn md5_digest(data: &[u8]) -> (r: Vec<u8>)
    ensures
        r@ == md5_of(data@),
        r@.len() == 16,
{
    <md5::Md5 as md5::Digest>::digest(data).to_vec()
}

/// The character for one hex digit, lower case.
pub open spec fn spec_hex_digit(d: nat) -> char {
    if d == 0 {
        '0'
    } else if d == 1 {
        '1'
    } else if d == 2 {
        '2'
    } else if d == 3 {
        '3'
    } else if d == 4 {
        '4'
    } else if d == 5 {
        '5'
    } else if d == 6 {
        '6'
    } else if d == 7 {
        '7'
    } else if d == 8 {
        '8'
    } else if d == 9 {
        '9'
    } else if d == 10 {
        'a'
    } else if d == 11 {
        'b'
    } else if d == 12 {
        'c'
    } else if d == 13 {
        'd'
    } else if d == 14 {
        'e'
    } else {
        'f'
    }
}

/// Lower-case hex rendering of a byte sequence, two digits per byte.
pub open spec fn spec_hex_lower(data: Seq<u8>) -> Seq<char>
    decreases data.len(),
{
    if data.len() == 0 {
        Seq::empty()
    } else {
        spec_hex_lower(data.drop_last()) + seq![
            spec_hex_digit((data.last() / 16) as nat),
            spec_hex_digit((data.last() % 16) as nat),
        ]
    }
}

fn append_hex_digit(out: &mut String, d: u8)
    requires
        d < 16,
    ensures
        final(out)@ == old(out)@.push(spec_hex_digit(d as nat)),
{
    proof {
        reveal_strlit("0");
        reveal_strlit("1");
        reveal_strlit("2");
        reveal_strlit("3");
        reveal_strlit("4");
        reveal_strlit("5");
        reveal_strlit("6");
        reveal_strlit("7");
        reveal_strlit("8");
        reveal_strlit("9");
        reveal_strlit("a");
        reveal_strlit("b");
        reveal_strlit("c");
        reveal_strlit("d");
        reveal_strlit("e");
        reveal_strlit("f");
    }
    if d == 0 {
        out.append("0");
    } else if d == 1 {
        out.append("1");
    } else if d == 2 {
        out.append("2");
    } else if d == 3 {
        out.append("3");
    } else if d == 4 {
        out.append("4");
    } else if d == 5 {
        out.append("5");
    } else if d == 6 {
        out.append("6");
    } else if d == 7 {
        out.append("7");
    } else if d == 8 {
        out.append("8");
    } else if d == 9 {
        out.append("9");
    } else if d == 10 {
        out.append("a");
    } else if d == 11 {
        out.append("b");
    } else if d == 12 {
        out.append("c");
    } else if d == 13 {
        out.append("d");
    } else if d == 14 {
        out.append("e");
    } else {
        out.append("f");
    }
    assert(out@ =~= old(out)@.push(spec_hex_digit(d as nat)));
}

/// Lower-case hex rendering of arbitrary bytes.
pub fn to_hex_lower(data: &Vec<u8>) -> (r: String)
    ensures
        r@ == spec_hex_lower(data@),
{
    let mut out = String::new();
    let n = data.len();
    let mut i: usize = 0;
    assert(data@.take(0) =~= Seq::<u8>::empty());
    while i < n
        invariant
            n == data@.len(),
            i <= n,
            out@ == spec_hex_lower(data@.take(i as int)),
        decreases n - i,
    {
        assert(data@.take(i + 1).drop_last() =~= data@.take(i as int));
        assert(data@.take(i + 1).last() == data@[i as int]);
        let byte = data[i];
        append_hex_digit(&mut out, byte / 16);
        append_hex_digit(&mut out, byte % 16);
        assert(out@ =~= spec_hex_lower(data@.take(i + 1)));
        i = i + 1;
    }
    assert(data@.take(n as int) =~= data@);
    out
}

/// The MD5 digest of `data`, rendered as the usual 32 lower-case hex
/// characters.
pub fn md5_hex(data: &Vec<u8>) -> (r: String)
    ensures
        r@ == spec_hex_lower(md5_of(data@)),
{
    let digest = md5_digest(data.as_slice());
    to_hex_lower(&digest)
}

} // verus!
