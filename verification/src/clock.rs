//! Timezone arithmetic for scheduled triggers. The tz database lives in an
//! outside crate; this module names what it computes and proves the
//! arithmetic around it.

use vstd::prelude::*;

use crate::scheduled::ZonedDateTime;

verus! {

/// The UTC offset, in seconds, that the tz database assigns to a named zone
/// at a given instant, or `None` for a name the database does not know or an
/// instant it cannot represent. A function of the two arguments alone.
pub uninterp spec fn tz_offset_of(timezone: Seq<char>, utc_seconds: int) -> Option<int>;

/// Relies on chrono_tz's `Tz` `FromStr` impl (zone lookup in the crate's
/// embedded tz database) and chrono's `TimeZone::offset_from_utc_datetime`
/// and `Offset::fix`: the zone's UTC offset in seconds at the given instant,
/// determined by the zone name and the instant alone.
#[verifier::external_body]
fn utc_offset_seconds(timezone: &str, utc_seconds: i64) -> (r: Option<i64>)
    ensures
        r matches Some(offset) ==> tz_offset_of(timezone@, utc_seconds as int) == Some(
            offset as int,
        ),
        r is None ==> tz_offset_of(timezone@, utc_seconds as int) is None,
{
    let zone: chrono_tz::Tz = match timezone.parse() {
        Ok(z) => z,
        Err(_) => return None,
    };
    let utc = match chrono::DateTime::from_timestamp(utc_seconds, 0) {
        Some(t) => t,
        None => return None,
    };
    let offset = chrono::TimeZone::offset_from_utc_datetime(&zone, &utc.naive_utc());
    Some(i64::from(chrono::Offset::fix(&offset).local_minus_utc()))
}

impl ZonedDateTime {
    /// The timestamp shifted into its own timezone: the UTC seconds plus the
    /// zone's offset at that instant. `None` when the zone name is unknown,
    /// the instant is out of the database's range, or the shifted value
    /// leaves `i64`.
    pub fn local_timestamp(&self) -> (r: Option<i64>)
        ensures
            match tz_offset_of(self.timezone@, self.utc_seconds as int) {
                Some(offset) => {
                    if i64::MIN <= self.utc_seconds + offset <= i64::MAX {
                        r == Some((self.utc_seconds + offset) as i64)
                    } else {
                        r is None
                    }
                },
                None => r is None,
            },
    {
        match utc_offset_seconds(self.timezone.as_str(), self.utc_seconds) {
            Some(offset) => self.utc_seconds.checked_add(offset),
            None => None,
        }
    }
}

} // verus!
