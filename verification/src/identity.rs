//! The `Person` record: random construction within a date-of-birth range,
//! accessors, deterministic display names, and the randomized, "leetified"
//! username derivation.

use vstd::prelude::*;
use vstd::string::StrSliceExecFns;
use vstd::string::StringExecFns;
use crate::dates::{
    Timestamp, civil_of, civil_of_millis, now_millis, whole_years_between, age_spec, MIN_MILLIS,
    MAX_MILLIS,
};
use crate::names::{first_names, surnames, name_list_spec, surname_list_spec};
use crate::randomness::{rng_range_i64, rng_index, rng_ratio};
use crate::text::{
    push_char, repeat_last_char, repeat_last_spec, leetify_string, is_leet_of, dec_seq,
    dec_seq_signed, u32_to_string, i32_to_string,
};

verus! {

/// One hundred years of 366 days, in milliseconds: the default lookback
/// window for a random date of birth.
pub const HUNDRED_YEARS_MILLIS: i64 = 366 * 100 * 86_400_000;

/// Whether `dob` lies within the default hundred-year lookback window that
/// ends at the instant `now`.
pub open spec fn dob_within_lookback(dob: int, now: int) -> bool {
    0 <= now <= MAX_MILLIS as int && now - HUNDRED_YEARS_MILLIS as int <= dob < now
}

/// A plausible fake identity: names and a date of birth, immutable once
/// constructed.
#[derive(Clone, Debug)]
pub struct Person {
    date_of_birth: Timestamp,
    first_name: String,
    middle_name: Option<String>,
    last_name: String,
}

/// What a `Person` holds, as the specification sees it.
pub ghost struct PersonView {
    pub date_of_birth: int,
    pub first_name: Seq<char>,
    pub middle_name: Option<Seq<char>>,
    pub last_name: Seq<char>,
}

impl View for Person {
    type V = PersonView;

    closed spec fn view(&self) -> PersonView {
        PersonView {
            date_of_birth: self.date_of_birth.millis as int,
            first_name: self.first_name@,
            middle_name: match self.middle_name {
                Some(m) => Some(m@),
                None => None,
            },
            last_name: self.last_name@,
        }
    }
}

impl PersonView {
    /// The record's invariant: all names present are non-empty and the date
    /// of birth lies in the modeled range of instants.
    pub open spec fn wf(self) -> bool {
        &&& self.first_name.len() > 0
        &&& self.last_name.len() > 0
        &&& match self.middle_name {
            Some(m) => m.len() > 0,
            None => true,
        }
        &&& MIN_MILLIS as int <= self.date_of_birth <= MAX_MILLIS as int
    }
}

/// The full display name: first name, then the middle name set off by single
/// spaces when present (a single space otherwise), then the last name.
pub open spec fn full_name_spec(p: PersonView) -> Seq<char> {
    match p.middle_name {
        Some(m) => p.first_name + seq![' '] + m + seq![' '] + p.last_name,
        None => p.first_name + seq![' '] + p.last_name,
    }
}

/// The abbreviated display name: as the full name, but a present middle name
/// is shortened to its first character followed by a period.
pub open spec fn short_full_name_spec(p: PersonView) -> Seq<char>
    recommends
        p.wf(),
{
    match p.middle_name {
        Some(m) => p.first_name + seq![' ', m[0], '.', ' '] + p.last_name,
        None => p.first_name + seq![' '] + p.last_name,
    }
}

/// A name variant: the name itself, or the name with its last character
/// repeated once more.
pub open spec fn is_variant_of(v: Seq<char>, name: Seq<char>) -> bool {
    exists|t: int| 0 <= t < 2 && v == #[trigger] repeat_last_spec(name, t)
}

/// The middle name's first character, or a period when there is no middle
/// name.
pub open spec fn middle_initial_spec(p: PersonView) -> char
    recommends
        p.wf(),
{
    match p.middle_name {
        Some(m) => m[0],
        None => '.',
    }
}

/// A divisor token: empty, one of `-`, `_`, `.`, or the middle initial.
pub open spec fn is_divisor_for(p: PersonView, d: Seq<char>) -> bool {
    ||| d == Seq::<char>::empty()
    ||| d == seq!['-']
    ||| d == seq!['_']
    ||| d == seq!['.']
    ||| d == seq![middle_initial_spec(p)]
}

/// A number token: empty, the decimal digits of a number below 9999, the
/// decimal digits of an age (some `u32`), or the birth year in decimal.
pub open spec fn is_number_token(p: PersonView, s: Seq<char>) -> bool {
    ||| s == Seq::<char>::empty()
    ||| exists|n: int| 0 <= n < 9999 && s == #[trigger] dec_seq(n)
    ||| exists|a: int| 0 <= a <= u32::MAX as int && s == #[trigger] dec_seq(a)
    ||| s == dec_seq_signed(civil_of(p.date_of_birth).0)
}

/// A username before substitution: a first-name variant and a last-name
/// variant around a divisor token, in either order, followed by a number
/// token.
pub open spec fn is_username_base(p: PersonView, b: Seq<char>) -> bool {
    exists|f: Seq<char>, l: Seq<char>, d: Seq<char>, n: Seq<char>|
        #![trigger is_variant_of(f, p.first_name), is_variant_of(l, p.last_name),
            is_divisor_for(p, d), is_number_token(p, n)]
        {
            &&& is_variant_of(f, p.first_name)
            &&& is_variant_of(l, p.last_name)
            &&& is_divisor_for(p, d)
            &&& is_number_token(p, n)
            &&& (b == f + d + l + n || b == l + d + f + n)
        }
}

impl Person {
    /// The record's invariant, stated on the value itself.
    pub open spec fn wf(self) -> bool {
        self@.wf()
    }

    /// Creates a new `Person` and allows you to specify whether the `Person`
    /// should have a middle name. The date of birth falls in the hundred
    /// years before now.
    pub fn new(have_middle_name: bool) -> (p: Person)
        ensures
            p.wf(),
            (p@.middle_name is Some) == have_middle_name,
            exists|now: int| #[trigger] dob_within_lookback(p@.date_of_birth, now),
            name_list_spec().contains(p@.first_name),
            surname_list_spec().contains(p@.last_name),
    {
        let now: i64 = clamped_now();
        let p = Self::with_dob_range(
            Timestamp { millis: now - HUNDRED_YEARS_MILLIS },
            Timestamp { millis: now },
            have_middle_name,
        );
        proof {
            assert(dob_within_lookback(p@.date_of_birth, now as int));
        }
        p
    }

    /// Creates a completely random `Person`. There is a 50% chance the
    /// `Person` will have a middle name, and the `Person` will be between 0
    /// and 100 years old.
    pub fn random() -> (p: Person)
        ensures
            p.wf(),
            exists|now: int| #[trigger] dob_within_lookback(p@.date_of_birth, now),
            name_list_spec().contains(p@.first_name),
            surname_list_spec().contains(p@.last_name),
    {
        let mut rng = rand::thread_rng();
        let have_middle_name = rng_ratio(&mut rng, 1, 2);
        let now: i64 = clamped_now();
        let p = Self::with_dob_range(
            Timestamp { millis: now - HUNDRED_YEARS_MILLIS },
            Timestamp { millis: now },
            have_middle_name,
        );
        proof {
            assert(dob_within_lookback(p@.date_of_birth, now as int));
        }
        p
    }

    /// Creates a new `Person` and allows you to specify the date of birth
    /// range; whether there is a middle name is a fair coin flip.
    pub fn random_with_dob_range(min: Timestamp, max: Timestamp) -> (p: Person)
        requires
            min.millis < max.millis,
            MIN_MILLIS <= min.millis,
            max.millis <= MAX_MILLIS,
        ensures
            p.wf(),
            min.millis as int <= p@.date_of_birth < max.millis as int,
            name_list_spec().contains(p@.first_name),
            surname_list_spec().contains(p@.last_name),
    {
        let mut rng = rand::thread_rng();
        let have_middle_name = rng_ratio(&mut rng, 1, 2);
        Self::with_dob_range_custom_rng(&mut rng, min, max, have_middle_name)
    }

    /// Creates a new `Person` and allows you to specify the date of birth
    /// range and whether the `Person` should have a middle name.
    pub fn with_dob_range(min: Timestamp, max: Timestamp, have_middle_name: bool) -> (p: Person)
        requires
            min.millis < max.millis,
            MIN_MILLIS <= min.millis,
            max.millis <= MAX_MILLIS,
        ensures
            p.wf(),
            min.millis as int <= p@.date_of_birth < max.millis as int,
            (p@.middle_name is Some) == have_middle_name,
            name_list_spec().contains(p@.first_name),
            surname_list_spec().contains(p@.last_name),
    {
        let mut rng = rand::thread_rng();
        Self::with_dob_range_custom_rng(&mut rng, min, max, have_middle_name)
    }

    /// The one primitive behind every constructor: samples a date of birth
    /// uniformly within `[min, max)` from the given randomness source, and
    /// draws the names from the static word lists.
    pub fn with_dob_range_custom_rng(
        rng: &mut rand::rngs::ThreadRng,
        min: Timestamp,
        max: Timestamp,
        have_middle_name: bool,
    ) -> (p: Person)
        requires
            min.millis < max.millis,
            MIN_MILLIS <= min.millis,
            max.millis <= MAX_MILLIS,
        ensures
            p.wf(),
            min.millis as int <= p@.date_of_birth < max.millis as int,
            (p@.middle_name is Some) == have_middle_name,
            name_list_spec().contains(p@.first_name),
            surname_list_spec().contains(p@.last_name),
            match p@.middle_name {
                Some(m) => name_list_spec().contains(m),
                None => true,
            },
    {
        let range_millis: i64 = max.millis - min.millis;
        let random_millis: i64 = rng_range_i64(rng, 0, range_millis);
        let date_of_birth = Timestamp { millis: min.millis + random_millis };
        let name_candidates = first_names();
        let fi: usize = rng_index(rng, name_candidates.len());
        let first_name: String = name_candidates[fi].to_owned();
        let middle_name: Option<String> = if have_middle_name {
            let mi: usize = rng_index(rng, name_candidates.len());
            Some(name_candidates[mi].to_owned())
        } else {
            None
        };
        let surname_candidates = surnames();
        let li: usize = rng_index(rng, surname_candidates.len());
        let last_name: String = surname_candidates[li].to_owned();
        let p = Person { date_of_birth, first_name, middle_name, last_name };
        proof {
            assert(name_list_spec().contains(p@.first_name));
            assert(surname_list_spec().contains(p@.last_name));
        }
        p
    }

    pub fn get_first_name(&self) -> (r: String)
        ensures
            r@ == self@.first_name,
    {
        self.first_name.clone()
    }

    pub fn get_middle_name(&self) -> (r: Option<String>)
        ensures
            match self@.middle_name {
                Some(m) => r matches Some(s) && s@ == m,
                None => r is None,
            },
    {
        match &self.middle_name {
            Some(m) => Some(m.clone()),
            None => None,
        }
    }

    pub fn get_last_name(&self) -> (r: String)
        ensures
            r@ == self@.last_name,
    {
        self.last_name.clone()
    }

    pub fn get_date_of_birth(&self) -> (r: Timestamp)
        ensures
            r.millis as int == self@.date_of_birth,
    {
        self.date_of_birth
    }

    /// Returns the elapsed whole years since the `Person`'s date of birth, at
    /// the wall clock's present reading.
    pub fn get_age(&self) -> (r: u32)
        requires
            self.wf(),
        ensures
            exists|now: int|
                #![auto]
                MIN_MILLIS as int <= now <= MAX_MILLIS as int && r as int == age_spec(
                    self@.date_of_birth,
                    now,
                ),
    {
        let now: i64 = clamped_now();
        let r = whole_years_between(self.date_of_birth.millis, now);
        proof {
            assert(MIN_MILLIS as int <= now as int <= MAX_MILLIS as int && r as int == age_spec(
                self@.date_of_birth,
                now as int,
            ));
        }
        r
    }

    /// Returns the person's full name, including the middle name.
    pub fn get_full_name(&self) -> (r: String)
        ensures
            r@ == full_name_spec(self@),
    {
        let mut s = self.first_name.clone();
        match &self.middle_name {
            Some(mn) => {
                push_char(&mut s, ' ');
                s.append(mn.as_str());
                push_char(&mut s, ' ');
            },
            None => {
                push_char(&mut s, ' ');
            },
        }
        s.append(self.last_name.as_str());
        proof {
            assert(s@ =~= full_name_spec(self@));
        }
        s
    }

    /// Returns the person's full name with a shortened middle name.
    pub fn get_short_full_name(&self) -> (r: String)
        requires
            self.wf(),
        ensures
            r@ == short_full_name_spec(self@),
    {
        let mut s = self.first_name.clone();
        match &self.middle_name {
            Some(mn) => {
                push_char(&mut s, ' ');
                push_char(&mut s, mn.as_str().get_char(0));
                push_char(&mut s, '.');
                push_char(&mut s, ' ');
            },
            None => {
                push_char(&mut s, ' ');
            },
        }
        s.append(self.last_name.as_str());
        proof {
            assert(s@ =~= short_full_name_spec(self@));
        }
        s
    }

    /// The default textual representation: the shortened full name, a comma,
    /// and the age at the wall clock's present reading.
    pub fn display_string(&self) -> (r: String)
        requires
            self.wf(),
        ensures
            exists|now: int|
                #![auto]
                MIN_MILLIS as int <= now <= MAX_MILLIS as int && r@ == short_full_name_spec(self@)
                    + seq![',', ' '] + dec_seq(age_spec(self@.date_of_birth, now)),
    {
        let mut s = self.get_short_full_name();
        push_char(&mut s, ',');
        push_char(&mut s, ' ');
        let age: u32 = self.get_age();
        let digits = u32_to_string(age);
        s.append(digits.as_str());
        proof {
            let now = choose|now: int|
                #![auto]
                MIN_MILLIS as int <= now <= MAX_MILLIS as int && age as int == age_spec(
                    self@.date_of_birth,
                    now,
                );
            assert(s@ =~= short_full_name_spec(self@) + seq![',', ' '] + dec_seq(
                age_spec(self@.date_of_birth, now),
            ));
        }
        s
    }

    /// Generates a random username by using random separators, numbers and
    /// the person's identity: two name variants around a divisor token, a
    /// number token at the end, and probabilistic character substitution
    /// everywhere but the first character.
    pub fn get_random_username(&self) -> (r: String)
        requires
            self.wf(),
        ensures
            exists|b: Seq<char>|
                #![auto]
                is_username_base(self@, b) && is_leet_of(r@, b),
            r@.len() > 0,
            r@[0] == self@.first_name[0] || r@[0] == self@.last_name[0],
    {
        let mut rng = rand::thread_rng();
        let npick: usize = rng_index(&mut rng, 4);
        let number: String = if npick == 0 {
            let n_raw: i64 = rng_range_i64(&mut rng, 0, 9999);
            let s = u32_to_string(n_raw as u32);
            proof {
                assert(s@ == dec_seq(n_raw as int));
                assert(is_number_token(self@, s@));
            }
            s
        } else if npick == 1 {
            let s = String::new();
            proof {
                assert(is_number_token(self@, s@));
            }
            s
        } else if npick == 2 {
            let age: u32 = self.get_age();
            let s = u32_to_string(age);
            proof {
                assert(s@ == dec_seq(age as int));
                assert(is_number_token(self@, s@));
            }
            s
        } else {
            let (year, _month, _day, _tod) = civil_of_millis(self.date_of_birth.millis);
            let s = i32_to_string(year);
            proof {
                assert(s@ == dec_seq_signed(civil_of(self@.date_of_birth).0));
                assert(is_number_token(self@, s@));
            }
            s
        };
        let middle_initial: char = match &self.middle_name {
            Some(m) => m.as_str().get_char(0),
            None => '.',
        };
        let dpick: usize = rng_index(&mut rng, 5);
        let divisor: String = if dpick == 0 {
            let d = String::new();
            proof {
                assert(is_divisor_for(self@, d@));
            }
            d
        } else if dpick == 1 {
            let d = "-".to_owned();
            proof {
                reveal_strlit("-");
                assert(d@ =~= seq!['-']);
                assert(is_divisor_for(self@, d@));
            }
            d
        } else if dpick == 2 {
            let d = "_".to_owned();
            proof {
                reveal_strlit("_");
                assert(d@ =~= seq!['_']);
                assert(is_divisor_for(self@, d@));
            }
            d
        } else if dpick == 3 {
            let d = ".".to_owned();
            proof {
                reveal_strlit(".");
                assert(d@ =~= seq!['.']);
                assert(is_divisor_for(self@, d@));
            }
            d
        } else {
            let mut d = String::new();
            push_char(&mut d, middle_initial);
            proof {
                assert(d@ =~= seq![middle_initial_spec(self@)]);
                assert(is_divisor_for(self@, d@));
            }
            d
        };
        let order_first: bool = rng_ratio(&mut rng, 7, 10);
        let mut base: String;
        let ghost lead: Seq<char>;
        if order_first {
            let tf: usize = rng_index(&mut rng, 2);
            let fvar = repeat_last_char(self.first_name.as_str(), tf);
            let tl: usize = rng_index(&mut rng, 2);
            let lvar = repeat_last_char(self.last_name.as_str(), tl);
            base = fvar;
            proof {
                lead = base@;
            }
            base.append(divisor.as_str());
            base.append(lvar.as_str());
            base.append(number.as_str());
            proof {
                assert(is_variant_of(lead, self@.first_name));
                assert(is_variant_of(lvar@, self@.last_name));
                assert(base@ == lead + divisor@ + lvar@ + number@);
                assert(is_username_base(self@, base@));
            }
        } else {
            let tl: usize = rng_index(&mut rng, 2);
            let lvar = repeat_last_char(self.last_name.as_str(), tl);
            let tf: usize = rng_index(&mut rng, 2);
            let fvar = repeat_last_char(self.first_name.as_str(), tf);
            base = lvar;
            proof {
                lead = base@;
            }
            base.append(divisor.as_str());
            base.append(fvar.as_str());
            base.append(number.as_str());
            proof {
                assert(is_variant_of(lead, self@.last_name));
                assert(is_variant_of(fvar@, self@.first_name));
                assert(base@ == lead + divisor@ + fvar@ + number@);
                assert(is_username_base(self@, base@));
            }
        }
        let r = leetify_string(&mut rng, base.as_str());
        proof {
            assert(lead.len() > 0);
            assert(base@[0] == lead[0]);
            assert(r@[0] == base@[0]);
            assert(lead[0] == self@.first_name[0] || lead[0] == self@.last_name[0]);
        }
        r
    }
}

/// The wall clock's reading, clamped into the modeled range of instants.
fn clamped_now() -> (r: i64)
    ensures
        0 <= r <= MAX_MILLIS,
{
    let raw: i64 = now_millis();
    if raw < 0 {
        0i64
    } else if raw > MAX_MILLIS {
        MAX_MILLIS
    } else {
        raw
    }
}

} // verus!
