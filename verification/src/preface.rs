//! The fixed 24-octet sequence a connection must begin with before any
//! frame.  A wrong preface is a fatal connection error; a short buffer just
//! needs more bytes.

use vstd::prelude::*;

verus! {

/// How many octets the preface occupies.
pub const PREFACE_LEN: usize = 24;

/// The preface octets.
pub open spec fn spec_preface() -> Seq<u8> {
    seq![
        0x50u8, 0x52, 0x49, 0x20, 0x2a, 0x20, 0x48, 0x54, 0x54, 0x50, 0x2f, 0x32, 0x2e, 0x30,
        0x0d, 0x0a, 0x0d, 0x0a, 0x53, 0x4d, 0x0d, 0x0a, 0x0d, 0x0a,
    ]
}

/// The preface octets, ready to be written to the transport.
pub fn preface_bytes() -> (v: Vec<u8>)
    ensures
        v@ == spec_preface(),
        v@.len() == PREFACE_LEN,
{
    let mut v: Vec<u8> = Vec::new();
    v.push(0x50);
    v.push(0x52);
    v.push(0x49);
    v.push(0x20);
    v.push(0x2a);
    v.push(0x20);
    v.push(0x48);
    v.push(0x54);
    v.push(0x54);
    v.push(0x50);
    v.push(0x2f);
    v.push(0x32);
    v.push(0x2e);
    v.push(0x30);
    v.push(0x0d);
    v.push(0x0a);
    v.push(0x0d);
    v.push(0x0a);
    v.push(0x53);
    v.push(0x4d);
    v.push(0x0d);
    v.push(0x0a);
    v.push(0x0d);
    v.push(0x0a);
    assert(v@ =~= spec_preface());
    v
}

/// What the start of an inbound byte stream shows.
#[derive(Debug, Copy, Clone, Eq, PartialEq, Structural)]
pub enum PrefaceCheck {
    /// Fewer than 24 octets so far: read on.
    NeedMore,
    /// The stream begins with the preface, which occupies the first 24 octets.
    Valid,
    /// The stream begins with something else: a fatal connection error.
    Invalid,
}

/// Check the front of an inbound byte stream for the preface.
pub fn check_preface(b: &[u8]) -> (r: PrefaceCheck)
    ensures
        b@.len() < PREFACE_LEN ==> r == PrefaceCheck::NeedMore,
        b@.len() >= PREFACE_LEN ==> (r == PrefaceCheck::Valid <==> b@.subrange(0, PREFACE_LEN as int)
            == spec_preface()) && (r == PrefaceCheck::Valid || r == PrefaceCheck::Invalid),
{
    if b.len() < PREFACE_LEN {
        return PrefaceCheck::NeedMore;
    }
    let expected = preface_bytes();
    let mut i: usize = 0;
    while i < PREFACE_LEN
        invariant
            i <= PREFACE_LEN,
            b@.len() >= PREFACE_LEN,
            expected@ == spec_preface(),
            forall|j: int| 0 <= j < i ==> b@[j] == spec_preface()[j],
        decreases PREFACE_LEN - i,
    {
        if b[i] != expected[i] {
            proof {
                assert(b@.subrange(0, PREFACE_LEN as int)[i as int] == b@[i as int]);
            }
            return PrefaceCheck::Invalid;
        }
        i = i + 1;
    }
    proof {
        assert(b@.subrange(0, PREFACE_LEN as int) =~= spec_preface());
    }
    PrefaceCheck::Valid
}

} // verus!
