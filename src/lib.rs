use vstd::prelude::*;

pub mod clock;
pub mod name_encoding;
pub mod text;
pub mod utils;
pub mod v0;

use std::marker::PhantomData;

use crate::clock::{random_u128, ClockReading, UNIX_EPOCH_YEAR};
use crate::text::{hex5, name_code_hex, tni_string, tni_text_of_payload};
use crate::v0::{
    is_v0_id, make_from_parts, pack, stripped_id_info, stripped_id_info_spec, tni_variant_of,
    valid_name,
};

verus! {

/// The sub-formats that the variant selector can name.
#[derive(Clone, Copy, Debug, PartialEq, Eq)]
pub enum TNIVariant {
    /// Time-sortable: the only one that is produced.
    V0,
    V1,
    V2,
    V3,
}

/// A type that names identifiers. The name must be one to four characters of
/// the alphabet: an implementation that is verified proves it of its name.
pub trait IdName {
    /// The name as contracts speak of it. A verified implementation defines it
    /// as what `id_name` returns; the empty default is no valid name, so an
    /// implementation that keeps it cannot prove `id_name`.
    open spec fn spec_id_name() -> Seq<char> {
        Seq::empty()
    }

    fn id_name() -> (r: &'static str)
        ensures
            r@ == Self::spec_id_name(),
            valid_name(r@),
    ;
}

/// A 128-bit identifier, typed by its name.
pub struct UUID<Name: IdName> {
    id_name: PhantomData<Name>,
    id: u128,
}

impl<Name: IdName> View for UUID<Name> {
    type V = u128;

    closed spec fn view(&self) -> u128 {
        self.id
    }
}

impl<Name: IdName> UUID<Name> {
    #[verifier::type_invariant]
    closed spec fn inv(self) -> bool {
        is_v0_id(self.id, Name::spec_id_name())
    }

    pub fn name(&self) -> (r: &'static str)
        ensures
            r@ == Name::spec_id_name(),
            valid_name(r@),
    {
        Name::id_name()
    }

    /// The name code, bits 108-127, as five lower-case hexadecimal digits.
    pub fn name_hex(&self) -> (r: String)
        ensures
            r@ == hex5(self@ >> 108),
    {
        let id = self.id;
        let code = id >> 108;
        assert(id >> 108 < 0x10_0000) by (bit_vector);
        name_code_hex(code)
    }

    pub fn as_u128(&self) -> (r: u128)
        ensures
            r == self@,
    {
        self.id
    }

    /// A new identifier that sorts by the time it was made.
    pub fn new_time_sortable() -> (r: Self)
        ensures
            is_v0_id(r@, Name::spec_id_name()),
    {
        Self::new_v0()
    }

    /// A new variant-0 identifier, from the clock and the random generator.
    pub fn new_v0() -> (r: Self)
        ensures
            is_v0_id(r@, Name::spec_id_name()),
    {
        let now = ClockReading::now_utc();
        let random = random_u128();
        Self::from_clock_reading(&now, random)
    }

    /// The variant-0 identifier for a clock reading and random bits.
    pub fn from_clock_reading(now: &ClockReading, random: u128) -> (r: Self)
        requires
            now.wf(),
        ensures
            r@ == pack(
                Name::spec_id_name(),
                now.year_offset(),
                now.seconds_in_year() as u32,
                random,
            ),
            is_v0_id(r@, Name::spec_id_name()),
    {
        let name = Name::id_name();
        let years = now.years_since_unix_epoch();
        let seconds = now.seconds_since_year_start();
        let id = make_from_parts(name, years, seconds, random);
        proof {
            v0::lemma_pack_round_trip(name@, years, seconds, random);
        }
        UUID { id_name: PhantomData, id }
    }

    /// The text form: the name, a dot, and the base58 text of the identifier's
    /// payload, padded to its fixed width.
    pub fn to_tni_string(&self) -> (r: String)
        ensures
            r@ == tni_text_of_payload(Name::spec_id_name(), stripped_id_info_spec(self@)),
    {
        let payload = stripped_id_info(self.id);
        tni_string(self.name(), payload)
    }

    /// The variant of the identifier; those of this type are all of variant 0.
    pub fn tni_variant(&self) -> (r: TNIVariant)
        ensures
            tni_variant_of(self@) == 0,
            r is V0,
    {
        proof {
            use_type_invariant(self);
        }
        TNIVariant::V0
    }
}

/// Identifiers made from two readings of one clock sort as the readings do:
/// a reading in an earlier year, or one in the same year and at least a second
/// earlier, gives the smaller identifier and the smaller text payload, whatever
/// the random bits. The readings lie within the 256 years that the year offset
/// holds.
pub proof fn lemma_readings_sort(
    name: Seq<char>,
    earlier: ClockReading,
    random1: u128,
    later: ClockReading,
    random2: u128,
)
    requires
        valid_name(name),
        earlier.wf(),
        later.wf(),
        UNIX_EPOCH_YEAR <= earlier.year,
        later.year < UNIX_EPOCH_YEAR + 256,
        earlier.year < later.year || (earlier.year == later.year && earlier.seconds_in_year()
            < later.seconds_in_year()),
    ensures
        ({
            let id1 = pack(name, earlier.year_offset(), earlier.seconds_in_year() as u32, random1);
            let id2 = pack(name, later.year_offset(), later.seconds_in_year() as u32, random2);
            &&& id1 < id2
            &&& stripped_id_info_spec(id1) < stripped_id_info_spec(id2)
        }),
{
    assert(earlier.seconds_in_year() < 31_622_400);
    assert(later.seconds_in_year() < 31_622_400);
    assert(earlier.year_offset() == earlier.year - UNIX_EPOCH_YEAR);
    assert(later.year_offset() == later.year - UNIX_EPOCH_YEAR);
    v0::lemma_pack_time_ordered(
        name,
        earlier.year_offset(),
        earlier.seconds_in_year() as u32,
        random1,
        later.year_offset(),
        later.seconds_in_year() as u32,
        random2,
    );
}

/// Errors of the library.
pub enum Error {
    /// A name that is not one to four characters of the alphabet.
    InvalidName,
    /// The clock could not be read; the message says why.
    TimeError(String),
}

} // verus!
