//! The rules by which an item is open to a user: from when on it may be
//! played, and in which countries for which catalogue.

use vstd::prelude::*;
use vstd::string::StringExecFns;
use crate::strings::{contains, names};

verus! {

/// Why an item cannot be played.
#[derive(Clone, Copy, Debug, PartialEq, Eq, Structural)]
pub enum UnavailabilityReason {
    /// A list of forbidden countries applies and the user's country is on it.
    Blacklisted,
    /// The item is not open yet.
    Embargo,
    /// Data that the decision needs is absent.
    NoData,
    /// A list of allowed countries applies and the user's country is not on it.
    NotWhitelisted,
}

/// A point in time, in milliseconds since the Unix epoch.
#[derive(Clone, Copy, Debug, PartialEq, Eq, Structural)]
pub struct Date {
    pub timestamp_ms: i64,
}

/// One period of availability: the item is open from `start` on.
#[derive(Clone, Debug)]
pub struct Availability {
    pub catalogue_strs: Vec<String>,
    pub start: Date,
}

/// One restriction: for the catalogues named, either the countries in which
/// the item is allowed or those in which it is forbidden.
#[derive(Clone, Debug)]
pub struct Restriction {
    pub catalogue_strs: Vec<String>,
    pub countries_allowed: Option<Vec<String>>,
    pub countries_forbidden: Option<Vec<String>>,
}

/// What the rules read of a user: the country, and the catalogue attribute
/// where the account has one.
#[derive(Clone, Debug)]
pub struct UserData {
    pub country: String,
    pub catalogue: Option<String>,
}

/// The mathematical value of a restriction.
pub ghost struct RestrictionView {
    pub catalogues: Seq<Seq<char>>,
    pub allowed: Option<Seq<Seq<char>>>,
    pub forbidden: Option<Seq<Seq<char>>>,
}

impl View for Restriction {
    type V = RestrictionView;

    open spec fn view(&self) -> RestrictionView {
        RestrictionView {
            catalogues: names(self.catalogue_strs@),
            allowed: match self.countries_allowed {
                Some(list) => Some(names(list@)),
                None => None,
            },
            forbidden: match self.countries_forbidden {
                Some(list) => Some(names(list@)),
                None => None,
            },
        }
    }
}

/// The restrictions of a list, each by its value.
pub open spec fn restriction_views(restrictions: Seq<Restriction>) -> Seq<RestrictionView> {
    restrictions.map_values(|r: Restriction| r@)
}

/// The start dates of a list of availabilities, in milliseconds.
pub open spec fn starts(availability: Seq<Availability>) -> Seq<int> {
    availability.map_values(|a: Availability| a.start.timestamp_ms as int)
}

/// The catalogue by which a user is judged: the account's own, or `premium`
/// where it names none.
pub open spec fn catalogue_of(user: UserData) -> Seq<char> {
    match user.catalogue {
        Some(catalogue) => catalogue@,
        None => "premium"@,
    }
}

impl RestrictionView {
    /// The restriction speaks of `catalogue` and carries a list of countries.
    pub open spec fn decides(self, catalogue: Seq<char>) -> bool {
        self.catalogues.contains(catalogue) && (self.allowed is Some || self.forbidden is Some)
    }

    /// What a deciding restriction says of `country`. A list of allowed
    /// countries goes before a list of forbidden ones.
    pub open spec fn verdict(self, country: Seq<char>) -> Result<(), UnavailabilityReason> {
        match self.allowed {
            Some(allowed) => if allowed.contains(country) {
                Ok(())
            } else {
                Err(UnavailabilityReason::NotWhitelisted)
            },
            None => match self.forbidden {
                Some(forbidden) => if forbidden.contains(country) {
                    Err(UnavailabilityReason::Blacklisted)
                } else {
                    Ok(())
                },
                None => Ok(()),
            },
        }
    }
}

/// The first restriction that decides for `catalogue` gives the verdict; where
/// none decides, the item is allowed.
pub open spec fn allowed(
    restrictions: Seq<RestrictionView>,
    catalogue: Seq<char>,
    country: Seq<char>,
) -> Result<(), UnavailabilityReason>
    decreases restrictions.len(),
{
    if restrictions.len() == 0 {
        Ok(())
    } else if restrictions[0].decides(catalogue) {
        restrictions[0].verdict(country)
    } else {
        allowed(restrictions.drop_first(), catalogue, country)
    }
}

/// An item with periods of availability is open at `now` where one of them has
/// started; one without any is open.
pub open spec fn open_at(starts: Seq<int>, now: int) -> Result<(), UnavailabilityReason> {
    if starts.len() == 0 || exists|i: int| 0 <= i < starts.len() && now >= #[trigger] starts[i] {
        Ok(())
    } else {
        Err(UnavailabilityReason::Embargo)
    }
}

/// The verdict for a user at `now`: the item must be open, and then allowed.
pub open spec fn open_and_allowed(
    starts: Seq<int>,
    restrictions: Seq<RestrictionView>,
    catalogue: Seq<char>,
    country: Seq<char>,
    now: int,
) -> Result<(), UnavailabilityReason> {
    if open_at(starts, now) is Err {
        open_at(starts, now)
    } else {
        allowed(restrictions, catalogue, country)
    }
}

/// Whether the restrictions allow the item to the user.
pub fn allowed_for_user(user_data: &UserData, restrictions: &Vec<Restriction>) -> (verdict: Result<
    (),
    UnavailabilityReason,
>)
    ensures
        verdict == allowed(
            restriction_views(restrictions@),
            catalogue_of(*user_data),
            user_data.country@,
        ),
{
    let user_catalogue: String = match &user_data.catalogue {
        Some(catalogue) => catalogue.clone(),
        None => String::from_str("premium"),
    };
    let ghost all = restriction_views(restrictions@);
    let ghost catalogue = catalogue_of(*user_data);
    let ghost country = user_data.country@;
    let mut i: usize = 0;
    assert(all.skip(0) =~= all);
    while i < restrictions.len()
        invariant
            0 <= i <= restrictions.len(),
            all == restriction_views(restrictions@),
            catalogue == user_catalogue@,
            catalogue == catalogue_of(*user_data),
            country == user_data.country@,
            allowed(all, catalogue, country) == allowed(all.skip(i as int), catalogue, country),
        decreases restrictions.len() - i,
    {
        let restriction = &restrictions[i];
        let ghost rest = all.skip(i as int);
        assert(rest.len() > 0 && rest[0] == restriction@);
        assert(rest.drop_first() =~= all.skip(i + 1));
        if contains(&restriction.catalogue_strs, &user_catalogue) {
            if let Some(allowed_countries) = &restriction.countries_allowed {
                if contains(allowed_countries, &user_data.country) {
                    return Ok(());
                } else {
                    return Err(UnavailabilityReason::NotWhitelisted);
                }
            }
            if let Some(forbidden_countries) = &restriction.countries_forbidden {
                if contains(forbidden_countries, &user_data.country) {
                    return Err(UnavailabilityReason::Blacklisted);
                } else {
                    return Ok(());
                }
            }
        }
        i += 1;
    }
    Ok(())
}

/// Whether one of the periods of availability has started at `now`.
pub fn available(availability: &Vec<Availability>, now: Date) -> (verdict: Result<
    (),
    UnavailabilityReason,
>)
    ensures
        verdict == open_at(starts(availability@), now.timestamp_ms as int),
{
    let mut i: usize = 0;
    while i < availability.len()
        invariant
            0 <= i <= availability.len(),
            forall|j: int| 0 <= j < i ==> now.timestamp_ms < starts(availability@)[j],
        decreases availability.len() - i,
    {
        if now.timestamp_ms >= availability[i].start.timestamp_ms {
            assert(now.timestamp_ms >= starts(availability@)[i as int]);
            return Ok(());
        }
        i += 1;
    }
    if availability.len() == 0 {
        Ok(())
    } else {
        Err(UnavailabilityReason::Embargo)
    }
}

/// Whether the item is open at `now` and allowed to the user.
pub fn available_for_user(
    user_data: &UserData,
    availability: &Vec<Availability>,
    restrictions: &Vec<Restriction>,
    now: Date,
) -> (verdict: Result<(), UnavailabilityReason>)
    ensures
        verdict == open_and_allowed(
            starts(availability@),
            restriction_views(restrictions@),
            catalogue_of(*user_data),
            user_data.country@,
            now.timestamp_ms as int,
        ),
{
    match available(availability, now) {
        Ok(()) => allowed_for_user(user_data, restrictions),
        Err(reason) => Err(reason),
    }
}

} // verus!
