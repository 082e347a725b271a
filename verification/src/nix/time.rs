//! Wall-clock time as the first firmware keeps it: plain numbers.
use vstd::prelude::*;
use crate::nix::nixiedigits::NixiePresentation;

verus! {

/// A time of day.
pub struct Time {
    pub seconds: u8,
    pub minutes: u8,
    pub hours: u8,
}

impl Time {
    /// Whether every field is within its range on a clock face.
    pub open spec fn is_valid(&self) -> bool {
        self.seconds < 60 && self.minutes < 60 && self.hours < 24
    }

    /// The digits the tubes show for this time: seconds' ones, seconds' tens,
    /// minutes' ones, minutes' tens.
    pub open spec fn digits(&self) -> Seq<Option<u8>> {
        seq![
            Some((self.seconds % 10) as u8),
            Some((self.seconds / 10) as u8),
            Some((self.minutes % 10) as u8),
            Some((self.minutes / 10) as u8),
        ]
    }
}

/// On a valid time the tubes show the decimal digits of seconds and minutes:
/// every digit is below ten, the first two tubes read the seconds (ones, then
/// tens) and the last two the minutes.
pub proof fn law_time_digits(t: Time)
    requires
        t.is_valid(),
    ensures
        ({
            let d = t.digits();
            &&& forall|i: int| 0 <= i < 4 ==> (#[trigger] d[i] matches Some(x) && x < 10)
            &&& d[0]->0 + 10 * d[1]->0 == t.seconds
            &&& d[2]->0 + 10 * d[3]->0 == t.minutes
        }),
{
}

/// The tubes show minutes and seconds: seconds' ones digit on the first tube,
/// then seconds' tens, minutes' ones, minutes' tens.
impl NixiePresentation<4> for Time {
    fn to_digits(&self) -> (r: [Option<u8>; 4])
        ensures
            r@ == self.digits(),
    {
        [
            Some(self.seconds % 10),
            Some(self.seconds / 10),
            Some(self.minutes % 10),
            Some(self.minutes / 10),
        ]
    }
}

} // verus!
