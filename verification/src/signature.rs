use vstd::prelude::*;
use vstd::assert_seqs_equal;

use crate::error::{Error, FormatIssue};

verus! {

/// The byte sequence that opens an ASCII-armored signature container:
/// `-----BEGIN PGP SIGNATURE-----`. A blob that does not begin with this
/// header is rejected at construction time.
pub open spec fn spec_armor_header() -> Seq<u8> {
    seq![
        45u8, 45, 45, 45, 45, // -----
        66, 69, 71, 73, 78, // BEGIN
        32, // space
        80, 71, 80, // PGP
        32, // space
        83, 73, 71, 78, 65, 84, 85, 82, 69, // SIGNATURE
        45, 45, 45, 45, 45, // -----
    ]
}

/// A detached signature blob is well formed when it is at least as long as
/// the armor header and begins with it. This is purely structural: no
/// cryptographic property is implied.
pub open spec fn is_well_formed(s: Seq<u8>) -> bool {
    &&& s.len() >= spec_armor_header().len()
    &&& s.subrange(0, spec_armor_header().len() as int) == spec_armor_header()
}

/// The exact rejection reason `parse` reports for a malformed blob.
pub open spec fn spec_format_issue(s: Seq<u8>) -> FormatIssue {
    if s.len() == 0 {
        FormatIssue::Empty
    } else if s.len() < spec_armor_header().len() {
        FormatIssue::Truncated
    } else {
        FormatIssue::BadHeader
    }
}

/// A detached cryptographic signature extracted from a revision, held
/// exactly as extracted, with no re-encoding.
///
/// Construction goes through [`Signature::parse`], which performs the
/// structural validation; a value of this type therefore always satisfies
/// [`Signature::wf`].
#[derive(Debug)]
pub struct Signature {
    raw: Vec<u8>,
}

impl View for Signature {
    type V = Seq<u8>;

    closed spec fn view(&self) -> Seq<u8> {
        self.raw@
    }
}

impl Signature {
    /// A signature value always holds a structurally well-formed blob.
    pub open spec fn wf(&self) -> bool {
        is_well_formed(self@)
    }

    /// Decode a detached signature blob into a structured representation,
    /// rejecting malformed input.
    ///
    /// Succeeds exactly on well-formed blobs, and then round-trips the
    /// bytes unchanged. Performs no cryptographic verification.
    pub fn parse(raw: Vec<u8>) -> (r: Result<Signature, Error>)
        ensures
            r is Ok <==> is_well_formed(raw@),
            r matches Ok(s) ==> s@ == raw@ && s.wf(),
            r matches Err(e) ==> e == Error::SignatureFormat(spec_format_issue(raw@)),
    {
        let header = armor_header();
        if raw.len() == 0 {
            return Err(Error::SignatureFormat(FormatIssue::Empty));
        }
        if raw.len() < header.len() {
            return Err(Error::SignatureFormat(FormatIssue::Truncated));
        }
        let mut i: usize = 0;
        while i < header.len()
            invariant
                0 <= i <= header.len(),
                header@ == spec_armor_header(),
                raw@.len() >= spec_armor_header().len(),
                forall|j: int| 0 <= j < i ==> raw@[j] == spec_armor_header()[j],
            decreases header.len() - i,
        {
            if raw[i] != header[i] {
                proof {
                    assert(raw@.subrange(0, spec_armor_header().len() as int)[i as int]
                        != spec_armor_header()[i as int]);
                }
                return Err(Error::SignatureFormat(FormatIssue::BadHeader));
            }
            i = i + 1;
        }
        proof {
            assert_seqs_equal!(
                raw@.subrange(0, spec_armor_header().len() as int),
                spec_armor_header()
            );
        }
        Ok(Signature { raw })
    }

    /// The signature payload exactly as extracted.
    pub fn raw_bytes(&self) -> (r: &Vec<u8>)
        ensures
            r@ == self@,
    {
        &self.raw
    }
}

/// The armor header as executable bytes, equal to [`spec_armor_header`].
fn armor_header() -> (v: Vec<u8>)
    ensures
        v@ == spec_armor_header(),
{
    let v: Vec<u8> = vec![
        45u8, 45, 45, 45, 45, 66, 69, 71, 73, 78, 32, 80, 71, 80, 32, 83, 73, 71, 78, 65, 84, 85,
        82, 69, 45, 45, 45, 45, 45,
    ];
    proof {
        assert_seqs_equal!(v@, spec_armor_header());
    }
    v
}

} // verus!
