use vstd::prelude::*;

use crate::errors::TallyError;
use crate::id_text::{dec_digits, lemma_dec_digits_injective, push_decimal};

verus! {

/// A loading-zone identifier: an unsigned integer in `[MIN_ID, MAX_ID]`,
/// displayed as `zone` followed by its decimal value. `try_from` is the only
/// validation gate; out-of-range values are rejected, never clamped.
#[derive(Clone, Copy, PartialEq, Eq, Hash, Debug, Structural)]
pub struct LoadingZone(pub u8);

impl LoadingZone {
    /// Smallest acceptable raw value.
    pub const MIN_ID: u8 = 0;

    /// Largest acceptable raw value.
    pub const MAX_ID: u8 = 99;

    /// Smallest identifier of the default roster.
    pub const FIRST_DEFAULT_ZONE: u8 = 1;

    /// Largest identifier of the default roster.
    pub const LAST_DEFAULT_ZONE: u8 = 6;

    /// Whether the raw value lies in the accepted range.
    pub open spec fn valid(self) -> bool {
        Self::MIN_ID <= self.0 <= Self::MAX_ID
    }

    /// The canonical text of this identifier: `zone` followed by the decimal
    /// value.
    pub open spec fn text(self) -> Seq<char> {
        seq!['z', 'o', 'n', 'e'] + dec_digits(self.0 as nat)
    }

    /// Builds a zone identifier from a raw value, rejecting any value
    /// outside `[MIN_ID, MAX_ID]`.
    pub fn try_from(value: u8) -> (r: Result<LoadingZone, TallyError>)
        ensures
            r is Ok <==> Self::MIN_ID <= value <= Self::MAX_ID,
            r matches Ok(z) ==> z.0 == value && z.valid(),
            r matches Err(e) ==> e == TallyError::InvalidIdentifier,
    {
        if Self::MIN_ID <= value && value <= Self::MAX_ID {
            Ok(LoadingZone(value))
        } else {
            Err(TallyError::InvalidIdentifier)
        }
    }

    /// The canonical display form, also used as the serialized map key.
    pub fn display(&self) -> (r: String)
        ensures
            r@ == self.text(),
    {
        let mut s = String::from_str("zone");
        proof {
            reveal_strlit("zone");
            assert("zone"@ =~= seq!['z', 'o', 'n', 'e']);
        }
        push_decimal(&mut s, self.0);
        s
    }
}

/// Law: the display text determines the identifier — two zone identifiers
/// with the same canonical text hold the same raw value, so the text
/// round-trips.
pub proof fn lemma_zone_text_injective(a: LoadingZone, b: LoadingZone)
    requires
        a.text() == b.text(),
    ensures
        a == b,
{
    let prefix = seq!['z', 'o', 'n', 'e'];
    let da = dec_digits(a.0 as nat);
    let db = dec_digits(b.0 as nat);
    assert((prefix + da).skip(4) =~= da);
    assert((prefix + db).skip(4) =~= db);
    lemma_dec_digits_injective(a.0 as nat, b.0 as nat);
}

} // verus!
