//! Shared low-level grammar fragments: identifiers, variable-length
//! integers, program ids and locators.
//!
//! An identifier is a one-byte length followed by that many bytes of UTF-8.
//! A variable-length integer is one byte holding either the value itself
//! (0 to 252) or a flag selecting a following 16-, 32- or 64-bit
//! little-endian integer (253, 254, 255 respectively).

use vstd::prelude::*;

use crate::bytecode::{spec_read_n, spec_read_u16, spec_read_u32, spec_read_u64, spec_read_u8};
use crate::bytecode::ByteCode;
use crate::error::{spec_err, DecodeError, DecodeErrorKind};
use vstd::utf8::decode_utf8;
use vstd::utf8::valid_utf8;

verus! {

/// Reads a length-prefixed UTF-8 identifier at `pos`.  Fails with
/// `InvalidUtf8` (at the offset of the byte run) when the bytes are not
/// valid UTF-8.
pub open spec fn spec_read_identifier(bytes: Seq<u8>, pos: int) -> Result<
    (Seq<char>, int),
    DecodeError,
> {
    match spec_read_u8(bytes, pos) {
        Ok(np) => match spec_read_n(bytes, np.1, np.0 as int) {
            Ok(rp) => if valid_utf8(rp.0) {
                Ok((decode_utf8(rp.0), rp.1))
            } else {
                Err(spec_err(DecodeErrorKind::InvalidUtf8, np.1))
            },
            Err(e) => Err(e),
        },
        Err(e) => Err(e),
    }
}

/// Reads a variable-length unsigned integer at `pos`: one byte holds values
/// 0 to 252 directly; 253, 254 and 255 flag a following 16-, 32- or 64-bit
/// little-endian integer.
pub open spec fn spec_read_varint(bytes: Seq<u8>, pos: int) -> Result<(u64, int), DecodeError> {
    match spec_read_u8(bytes, pos) {
        Ok(fp) => if fp.0 == 253 {
            match spec_read_u16(bytes, fp.1) {
                Ok(vp) => Ok((vp.0 as u64, vp.1)),
                Err(e) => Err(e),
            }
        } else if fp.0 == 254 {
            match spec_read_u32(bytes, fp.1) {
                Ok(vp) => Ok((vp.0 as u64, vp.1)),
                Err(e) => Err(e),
            }
        } else if fp.0 == 255 {
            match spec_read_u64(bytes, fp.1) {
                Ok(vp) => Ok((vp.0, vp.1)),
                Err(e) => Err(e),
            }
        } else {
            Ok((fp.0 as u64, fp.1))
        },
        Err(e) => Err(e),
    }
}


/// The encoding that `spec_read_varint` reads back: one byte for values
/// 0 to 252; otherwise a flag byte (253, 254 or 255) followed by the
/// value's 16-, 32- or 64-bit little-endian bytes.
pub open spec fn spec_encode_varint(v: u64) -> Seq<u8> {
    if v <= 252 {
        seq![v as u8]
    } else if v <= 0xffff {
        seq![253u8, (v % 0x100) as u8, ((v / 0x100) % 0x100) as u8]
    } else if v <= 0xffff_ffff {
        seq![
            254u8,
            (v % 0x100) as u8,
            ((v / 0x100) % 0x100) as u8,
            ((v / 0x1_0000) % 0x100) as u8,
            ((v / 0x100_0000) % 0x100) as u8,
        ]
    } else {
        seq![
            255u8,
            (v % 0x100) as u8,
            ((v / 0x100) % 0x100) as u8,
            ((v / 0x1_0000) % 0x100) as u8,
            ((v / 0x100_0000) % 0x100) as u8,
            ((v / 0x1_0000_0000) % 0x100) as u8,
            ((v / 0x100_0000_0000) % 0x100) as u8,
            ((v / 0x1_0000_0000_0000) % 0x100) as u8,
            ((v / 0x100_0000_0000_0000) % 0x100) as u8,
        ]
    }
}

/// Reads a program id at `pos`: a program name identifier followed by a
/// network identifier.
pub open spec fn spec_read_programid(bytes: Seq<u8>, pos: int) -> Result<
    ((Seq<char>, Seq<char>), int),
    DecodeError,
> {
    match spec_read_identifier(bytes, pos) {
        Ok(np) => match spec_read_identifier(bytes, np.1) {
            Ok(wp) => Ok(((np.0, wp.0), wp.1)),
            Err(e) => Err(e),
        },
        Err(e) => Err(e),
    }
}

/// Reads `n` identifiers in sequence starting at `pos`.
pub open spec fn spec_read_ident_list(bytes: Seq<u8>, pos: int, n: int) -> Result<
    (Seq<Seq<char>>, int),
    DecodeError,
>
    decreases n,
{
    if n <= 0 {
        Ok((Seq::empty(), pos))
    } else {
        match spec_read_identifier(bytes, pos) {
            Ok(vp) => match spec_read_ident_list(bytes, vp.1, n - 1) {
                Ok(lp) => Ok((seq![vp.0] + lp.0, lp.1)),
                Err(e) => Err(e),
            },
            Err(e) => Err(e),
        }
    }
}

/// Reads a 16-bit count followed by that many identifiers.
pub open spec fn spec_read_identifiers(bytes: Seq<u8>, pos: int) -> Result<
    (Seq<Seq<char>>, int),
    DecodeError,
> {
    match spec_read_u16(bytes, pos) {
        Ok(np) => spec_read_ident_list(bytes, np.1, np.0 as int),
        Err(e) => Err(e),
    }
}

/// Reads a locator at `pos`: a program id followed by a resource
/// identifier.
pub open spec fn spec_read_locator(bytes: Seq<u8>, pos: int) -> Result<
    ((Seq<char>, Seq<char>, Seq<char>), int),
    DecodeError,
> {
    match spec_read_programid(bytes, pos) {
        Ok(pp) => match spec_read_identifier(bytes, pp.1) {
            Ok(rp) => Ok(((pp.0.0, pp.0.1, rp.0), rp.1)),
            Err(e) => Err(e),
        },
        Err(e) => Err(e),
    }
}

/// Relies on `String::from_utf8`: it succeeds exactly when the bytes are
/// valid UTF-8, and then returns the string whose characters decode those
/// bytes.
#[verifier::external_body]
fn utf8_to_string(v: Vec<u8>) -> (r: Option<String>)
    ensures
        r is Some <==> valid_utf8(v@),
        r matches Some(s) ==> s@ == decode_utf8(v@),
{
    String::from_utf8(v).ok()
}

/// Reads a length-prefixed UTF-8 identifier.
pub fn read_identifier(bytes: &mut ByteCode) -> (r: Result<String, DecodeError>)
    requires
        old(bytes).wf(),
    ensures
        final(bytes).wf(),
        final(bytes).data() == old(bytes).data(),
        old(bytes).pos() <= final(bytes).pos(),
        match spec_read_identifier(old(bytes).data(), old(bytes).pos()) {
            Ok(vp) => r matches Ok(v) && v@ == vp.0 && final(bytes).pos() == vp.1,
            Err(e) => r == Err::<String, DecodeError>(e),
        },
{
    let n = match bytes.read_u8() {
        Ok(v) => v,
        Err(e) => { return Err(e) },
    };
    let start = bytes.position();
    let raw = match bytes.read_n(n as usize) {
        Ok(v) => v,
        Err(e) => { return Err(e) },
    };
    match utf8_to_string(raw) {
        Some(s) => Ok(s),
        None => Err(DecodeError { kind: DecodeErrorKind::InvalidUtf8, offset: start }),
    }
}

/// Reads a variable-length unsigned integer.
pub fn read_variable_length_int(bytes: &mut ByteCode) -> (r: Result<u64, DecodeError>)
    requires
        old(bytes).wf(),
    ensures
        final(bytes).wf(),
        final(bytes).data() == old(bytes).data(),
        old(bytes).pos() <= final(bytes).pos(),
        match spec_read_varint(old(bytes).data(), old(bytes).pos()) {
            Ok(vp) => r == Ok::<u64, DecodeError>(vp.0) && final(bytes).pos() == vp.1,
            Err(e) => r == Err::<u64, DecodeError>(e),
        },
{
    let f = match bytes.read_u8() {
        Ok(v) => v,
        Err(e) => { return Err(e) },
    };
    if f == 253 {
        match bytes.read_u16() {
            Ok(v) => Ok(v as u64),
            Err(e) => Err(e),
        }
    } else if f == 254 {
        match bytes.read_u32() {
            Ok(v) => Ok(v as u64),
            Err(e) => Err(e),
        }
    } else if f == 255 {
        match bytes.read_u64() {
            Ok(v) => Ok(v),
            Err(e) => Err(e),
        }
    } else {
        Ok(f as u64)
    }
}

/// Reads a program id: program name, then network name.
pub fn read_programid(bytes: &mut ByteCode) -> (r: Result<(String, String), DecodeError>)
    requires
        old(bytes).wf(),
    ensures
        final(bytes).wf(),
        final(bytes).data() == old(bytes).data(),
        old(bytes).pos() <= final(bytes).pos(),
        match spec_read_programid(old(bytes).data(), old(bytes).pos()) {
            Ok(vp) => r matches Ok(v) && v.0@ == vp.0.0 && v.1@ == vp.0.1 && final(bytes).pos()
                == vp.1,
            Err(e) => r == Err::<(String, String), DecodeError>(e),
        },
{
    let name = match read_identifier(bytes) {
        Ok(v) => v,
        Err(e) => { return Err(e) },
    };
    let network = match read_identifier(bytes) {
        Ok(v) => v,
        Err(e) => { return Err(e) },
    };
    Ok((name, network))
}

/// Reads a 16-bit count followed by that many identifiers.
#[verifier::loop_isolation(false)]
pub fn read_identifiers(bytes: &mut ByteCode) -> (r: Result<Vec<String>, DecodeError>)
    requires
        old(bytes).wf(),
    ensures
        final(bytes).wf(),
        final(bytes).data() == old(bytes).data(),
        old(bytes).pos() <= final(bytes).pos(),
        match spec_read_identifiers(old(bytes).data(), old(bytes).pos()) {
            Ok(vp) => r matches Ok(v) && v.deep_view() == vp.0 && final(bytes).pos() == vp.1,
            Err(e) => r == Err::<Vec<String>, DecodeError>(e),
        },
{
    let ghost d = old(bytes).data();
    let n = match bytes.read_u16() {
        Ok(v) => v,
        Err(e) => { return Err(e) },
    };
    let ghost p1 = bytes.pos();
    let mut out: Vec<String> = Vec::new();
    let mut i: usize = 0;
    proof {
        if spec_read_ident_list(d, p1, n as int) is Ok {
            let vp = spec_read_ident_list(d, p1, n as int)->Ok_0;
            assert(Seq::<Seq<char>>::empty() + vp.0 =~= vp.0);
        }
    }
    while i < n as usize
        invariant
            bytes.wf(),
            bytes.data() == d,
            i <= n as usize,
            p1 <= bytes.pos(),
            spec_read_ident_list(d, p1, n as int) == (match spec_read_ident_list(
                d,
                bytes.pos(),
                n as int - i,
            ) {
                Ok(vp) => Ok::<(Seq<Seq<char>>, int), DecodeError>((out.deep_view() + vp.0, vp.1)),
                Err(e) => Err::<(Seq<Seq<char>>, int), DecodeError>(e),
            }),
        decreases n as int - i,
    {
        let ghost cur = bytes.pos();
        match read_identifier(bytes) {
            Ok(s) => {
                proof {
                    let vp = spec_read_identifier(d, cur)->Ok_0;
                    if spec_read_ident_list(d, bytes.pos(), n as int - i - 1) is Ok {
                        let lp = spec_read_ident_list(d, bytes.pos(), n as int - i - 1)->Ok_0;
                        assert(out.deep_view() + (seq![s@] + lp.0) =~= (out.deep_view() + seq![s@])
                            + lp.0);
                    }
                }
                let ghost prev = out.deep_view();
                out.push(s);
                proof {
                    assert(out.deep_view() =~= prev + seq![out@.last()@]);
                }
                i = i + 1;
            },
            Err(e) => { return Err(e) },
        }
    }
    proof {
        assert(out.deep_view() + Seq::<Seq<char>>::empty() =~= out.deep_view());
    }
    Ok(out)
}

/// Reads a locator: program name, network name, then resource name.
pub fn read_locator(bytes: &mut ByteCode) -> (r: Result<(String, String, String), DecodeError>)
    requires
        old(bytes).wf(),
    ensures
        final(bytes).wf(),
        final(bytes).data() == old(bytes).data(),
        old(bytes).pos() <= final(bytes).pos(),
        match spec_read_locator(old(bytes).data(), old(bytes).pos()) {
            Ok(vp) => r matches Ok(v) && v.0@ == vp.0.0 && v.1@ == vp.0.1 && v.2@ == vp.0.2
                && final(bytes).pos() == vp.1,
            Err(e) => r == Err::<(String, String, String), DecodeError>(e),
        },
{
    let pid = match read_programid(bytes) {
        Ok(v) => v,
        Err(e) => { return Err(e) },
    };
    let resource = match read_identifier(bytes) {
        Ok(v) => v,
        Err(e) => { return Err(e) },
    };
    Ok((pid.0, pid.1, resource))
}

} // verus!
