//! Probing the first bytes of a stream for a JPEG XL signature.

use vstd::prelude::*;

verus! {

/// The two bytes that open a bare codestream.
pub open spec fn codestream_magic() -> Seq<u8> {
    seq![0xFFu8, 0x0Au8]
}

/// The twelve bytes of the signature box that open a container.
pub open spec fn container_magic() -> Seq<u8> {
    seq![
        0x00u8, 0x00u8, 0x00u8, 0x0Cu8, 0x4Au8, 0x58u8, 0x4Cu8, 0x20u8,
        0x0Du8, 0x0Au8, 0x87u8, 0x0Au8,
    ]
}

/// `s` is at most as long as `m` and agrees with it on every byte it has.
pub open spec fn is_prefix_of(s: Seq<u8>, m: Seq<u8>) -> bool {
    s.len() <= m.len() && s =~= m.subrange(0, s.len() as int)
}

/// `s` opens with the whole of `m`.
pub open spec fn starts_with(s: Seq<u8>, m: Seq<u8>) -> bool {
    m.len() <= s.len() && s.subrange(0, m.len() as int) =~= m
}

/// What a probe can tell from the first bytes of a stream.
#[derive(Clone, Copy, Debug, PartialEq, Eq, Structural)]
pub enum Signature {
    /// The bytes seen so far are a strict prefix of a signature.
    NotEnoughBytes,
    /// The bytes cannot start a JPEG XL stream.
    Invalid,
    /// A bare codestream.
    Codestream,
    /// A box-based container.
    Container,
}

/// The verdict of the probe on the bytes `s`.
pub open spec fn signature_of(s: Seq<u8>) -> Signature {
    if starts_with(s, codestream_magic()) {
        Signature::Codestream
    } else if starts_with(s, container_magic()) {
        Signature::Container
    } else if is_prefix_of(s, codestream_magic()) || is_prefix_of(s, container_magic()) {
        Signature::NotEnoughBytes
    } else {
        Signature::Invalid
    }
}

/// The tri-state answer: `None` when more bytes are needed, else whether the
/// stream is JPEG XL.
pub open spec fn valid_signature(s: Seq<u8>) -> Option<bool> {
    match signature_of(s) {
        Signature::NotEnoughBytes => None,
        Signature::Invalid => Some(false),
        Signature::Codestream | Signature::Container => Some(true),
    }
}

/// Compares `buf` with `magic` over the bytes both have.
fn agrees_with(buf: &[u8], magic: &[u8]) -> (r: bool)
    ensures
        r == (forall|i: int|
            0 <= i < buf@.len() && i < magic@.len() ==> buf@[i] == #[trigger] magic@[i]),
{
    let n: usize = if buf.len() < magic.len() {
        buf.len()
    } else {
        magic.len()
    };
    let mut i: usize = 0;
    while i < n
        invariant
            i <= n,
            n <= buf@.len(),
            n <= magic@.len(),
            n == buf@.len() || n == magic@.len(),
            forall|j: int| 0 <= j < i ==> buf@[j] == #[trigger] magic@[j],
        decreases n - i,
    {
        if buf[i] != magic[i] {
            return false;
        }
        i = i + 1;
    }
    true
}

/// Classifies the start of `buf` as a codestream, a container, a truncated
/// signature or something that is not JPEG XL. It neither allocates nor
/// reads past the signature.
pub fn check_signature(buf: &[u8]) -> (r: Signature)
    ensures
        r == signature_of(buf@),
{
    let codestream: [u8; 2] = [0xFF, 0x0A];
    let container: [u8; 12] = [
        0x00, 0x00, 0x00, 0x0C, 0x4A, 0x58, 0x4C, 0x20, 0x0D, 0x0A, 0x87, 0x0A,
    ];
    assert(codestream@ =~= codestream_magic());
    assert(container@ =~= container_magic());
    let in_codestream = agrees_with(buf, codestream.as_slice());
    let in_container = agrees_with(buf, container.as_slice());
    proof {
        let s = buf@;
        if in_codestream && s.len() >= 2 {
            assert(s.subrange(0, 2) =~= codestream_magic());
        }
        if in_codestream && s.len() < 2 {
            assert(s =~= codestream_magic().subrange(0, s.len() as int));
        }
        if in_container && s.len() >= 12 {
            assert(s.subrange(0, 12) =~= container_magic());
        }
        if in_container && s.len() < 12 {
            assert(s =~= container_magic().subrange(0, s.len() as int));
        }
        if !in_codestream {
            let i = choose|i: int|
                0 <= i < s.len() && i < 2 && s[i] != #[trigger] codestream_magic()[i];
            if s.len() >= 2 {
                assert(s.subrange(0, 2)[i] != codestream_magic()[i]);
            } else {
                assert(codestream_magic().subrange(0, s.len() as int)[i] != s[i]);
            }
        }
        if !in_container {
            let i = choose|i: int|
                0 <= i < s.len() && i < 12 && s[i] != #[trigger] container_magic()[i];
            if s.len() >= 12 {
                assert(s.subrange(0, 12)[i] != container_magic()[i]);
            } else {
                assert(container_magic().subrange(0, s.len() as int)[i] != s[i]);
            }
        }
    }
    if in_codestream && buf.len() >= 2 {
        Signature::Codestream
    } else if in_container && buf.len() >= 12 {
        Signature::Container
    } else if in_codestream || in_container {
        Signature::NotEnoughBytes
    } else {
        Signature::Invalid
    }
}

/// Checks whether `buf` starts with a JPEG XL signature: `None` when more
/// bytes are needed to tell, `Some(true)` for a codestream or a container,
/// `Some(false)` otherwise.
pub fn check_valid_signature(buf: &[u8]) -> (r: Option<bool>)
    ensures
        r == valid_signature(buf@),
{
    match check_signature(buf) {
        Signature::NotEnoughBytes => None,
        Signature::Invalid => Some(false),
        Signature::Codestream | Signature::Container => Some(true),
    }
}

/// A stream cut short inside either signature is never declared invalid:
/// the probe asks for more bytes.
pub proof fn lemma_truncated_signature_needs_more(s: Seq<u8>, magic: Seq<u8>)
    requires
        magic == codestream_magic() || magic == container_magic(),
        s.len() < magic.len(),
        is_prefix_of(s, magic),
    ensures
        signature_of(s) == Signature::NotEnoughBytes,
        valid_signature(s) is None,
{
    if magic == container_magic() && s.len() >= 2 {
        assert(s[0] == magic[0]);
        assert(s.subrange(0, 2)[0] != codestream_magic()[0]);
    }
}

/// A stream whose first bytes differ from both signatures is invalid.
pub proof fn lemma_foreign_signature_invalid(s: Seq<u8>, i: int, j: int)
    requires
        0 <= i < s.len(),
        i < codestream_magic().len(),
        s[i] != codestream_magic()[i],
        0 <= j < s.len(),
        j < container_magic().len(),
        s[j] != container_magic()[j],
    ensures
        signature_of(s) == Signature::Invalid,
        valid_signature(s) == Some(false),
{
    if starts_with(s, codestream_magic()) {
        assert(s.subrange(0, 2)[i] == s[i]);
    }
    if starts_with(s, container_magic()) {
        assert(s.subrange(0, 12)[j] == s[j]);
    }
    if is_prefix_of(s, codestream_magic()) {
        assert(codestream_magic().subrange(0, s.len() as int)[i] == codestream_magic()[i]);
    }
    if is_prefix_of(s, container_magic()) {
        assert(container_magic().subrange(0, s.len() as int)[j] == container_magic()[j]);
    }
}

} // verus!
