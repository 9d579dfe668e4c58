use vstd::prelude::*;

use crate::errors::TallyError;
use crate::id_text::{dec_digits, lemma_dec_digits_injective, push_decimal};

verus! {

/// A team identifier: an unsigned integer in `[MIN_ID, MAX_ID]`, displayed
/// as `team` followed by its decimal value. `try_from` is the only
/// construction path; the raw value is immutable once wrapped.
#[derive(Clone, Copy, PartialEq, Eq, Hash, Debug, Structural)]
pub struct TeamId(u8);

impl TeamId {
    /// Smallest acceptable raw value.
    pub const MIN_ID: u8 = 1;

    /// Largest acceptable raw value.
    pub const MAX_ID: u8 = 6;

    /// How many teams exist by default.
    pub const DEFAULT_NUMBER_OF_GRUE: usize = 6;

    /// The wrapped raw value.
    pub closed spec fn raw(self) -> u8 {
        self.0
    }

    /// Whether the raw value lies in the accepted range.
    pub open spec fn valid(self) -> bool {
        Self::MIN_ID <= self.raw() <= Self::MAX_ID
    }

    /// The canonical text of this identifier: `team` followed by the decimal
    /// value.
    pub open spec fn text(self) -> Seq<char> {
        seq!['t', 'e', 'a', 'm'] + dec_digits(self.raw() as nat)
    }

    /// Builds a team identifier from a raw value, rejecting any value
    /// outside `[MIN_ID, MAX_ID]`.
    pub fn try_from(value: u8) -> (r: Result<TeamId, TallyError>)
        ensures
            r is Ok <==> Self::MIN_ID <= value <= Self::MAX_ID,
            r matches Ok(t) ==> t.raw() == value && t.valid(),
            r matches Err(e) ==> e == TallyError::InvalidIdentifier,
    {
        if Self::MIN_ID <= value && value <= Self::MAX_ID {
            Ok(TeamId(value))
        } else {
            Err(TallyError::InvalidIdentifier)
        }
    }

    /// The canonical display form.
    pub fn display(&self) -> (r: String)
        ensures
            r@ == self.text(),
    {
        let mut s = String::from_str("team");
        proof {
            reveal_strlit("team");
            assert("team"@ =~= seq!['t', 'e', 'a', 'm']);
        }
        push_decimal(&mut s, self.0);
        s
    }
}

/// Law: the display text determines the identifier — two team identifiers
/// with the same canonical text hold the same raw value, so the text
/// round-trips.
pub proof fn lemma_team_text_injective(a: TeamId, b: TeamId)
    requires
        a.text() == b.text(),
    ensures
        a == b,
{
    let prefix = seq!['t', 'e', 'a', 'm'];
    let da = dec_digits(a.raw() as nat);
    let db = dec_digits(b.raw() as nat);
    assert((prefix + da).skip(4) =~= da);
    assert((prefix + db).skip(4) =~= db);
    lemma_dec_digits_injective(a.raw() as nat, b.raw() as nat);
}

} // verus!
