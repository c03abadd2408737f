//! The canonical message that the verification service signs and the
//! voting state machine re-derives: the voter's 32-byte account address
//! followed directly by the bytes of the country code.  The encoding is
//! unambiguous because a validated country code is exactly two bytes.

use vstd::prelude::*;
use crate::base::AccountAddress;

verus! {

/// The bytes of a country code: the UTF-8 encoding of its characters.
pub open spec fn country_code_bytes(cc: Seq<char>) -> Seq<u8> {
    vstd::utf8::encode_utf8(cc)
}

/// The canonical message bound by an attestation: the account address
/// concatenated with the raw country-code bytes, with no length prefix or
/// delimiter.
pub open spec fn message_bytes(addr: Seq<u8>, cc: Seq<char>) -> Seq<u8> {
    addr + country_code_bytes(cc)
}

/// The data a signed attestation speaks of: which account was verified,
/// and which country that account was shown *not* to reside in.
pub struct SignatureMessageData {
    /// The account address for which the proof was verified.
    pub account_address: AccountAddress,
    /// The country code of the country the account has no residency in.
    pub country_code: String,
}

impl SignatureMessageData {
    /// Append the canonical byte encoding of this data to `out`.
    pub fn serial(&self, out: &mut Vec<u8>)
        ensures
            final(out)@ == old(out)@ + message_bytes(
                self.account_address@,
                self.country_code@,
            ),
    {
        let ghost prefix: Seq<u8> = out@;
        let mut i: usize = 0;
        while i < 32
            invariant
                i <= 32,
                out@ =~= prefix + self.account_address.0@.subrange(0, i as int),
            decreases 32 - i,
        {
            out.push(self.account_address.0[i]);
            i += 1;
        }
        assert(out@ =~= prefix + self.account_address@);
        let bytes: &[u8] = self.country_code.as_str().as_bytes();
        let mut j: usize = 0;
        while j < bytes.len()
            invariant
                j <= bytes@.len(),
                bytes@ == country_code_bytes(self.country_code@),
                out@ =~= prefix + self.account_address@ + bytes@.subrange(0, j as int),
            decreases bytes@.len() - j,
        {
            out.push(bytes[j]);
            j += 1;
        }
        assert(bytes@.subrange(0, bytes@.len() as int) =~= bytes@);
    }

    /// The full canonical byte encoding of this data.
    pub fn to_bytes(&self) -> (r: Vec<u8>)
        ensures
            r@ == message_bytes(self.account_address@, self.country_code@),
    {
        let mut out: Vec<u8> = Vec::new();
        self.serial(&mut out);
        out
    }
}

} // verus!
