use vstd::prelude::*;

use crate::errors::{NexusMissingError, NexusMissingRunlogError, NexusNumericError, NumericType};

verus! {

/// Units written in the `units` attribute of a dataset.
#[derive(Clone, Copy, Debug, PartialEq, Eq, Structural)]
pub enum NexusUnits {
    Hertz,
    Seconds,
    Milliseconds,
    Microseconds,
    Nanoseconds,
    ISO8601,
    ElectronVolts,
    MegaElectronVolts,
    MegaElectronVoltsOverC,
    MicroAmps,
    MicroAmpHours,
    Counts,
    Millimeters,
    Milligrams,
    MilligramsPerCm3,
    Kelvin,
    Gauss,
}

/// The text of each unit, as stored in the file.
pub open spec fn units_text(u: NexusUnits) -> &'static str {
    match u {
        NexusUnits::Hertz => "Hz",
        NexusUnits::Seconds => "second",
        NexusUnits::Milliseconds => "ms",
        NexusUnits::Microseconds => "us",
        NexusUnits::Nanoseconds => "ns",
        NexusUnits::ISO8601 => "ISO8601",
        NexusUnits::ElectronVolts => "eV",
        NexusUnits::MegaElectronVolts => "MeV",
        NexusUnits::MegaElectronVoltsOverC => "MeVc^-1",
        NexusUnits::MicroAmps => "uA",
        NexusUnits::MicroAmpHours => "uAh",
        NexusUnits::Counts => "counts",
        NexusUnits::Millimeters => "mm",
        NexusUnits::Milligrams => "mg",
        NexusUnits::MilligramsPerCm3 => "mgcm^-3",
        NexusUnits::Kelvin => "K",
        NexusUnits::Gauss => "G",
    }
}

impl NexusUnits {
    /// The text of the unit, as written into the `units` attribute.
    pub fn to_str(&self) -> (s: &'static str)
        ensures
            s == units_text(*self),
    {
        match self {
            NexusUnits::Hertz => "Hz",
            NexusUnits::Seconds => "second",
            NexusUnits::Milliseconds => "ms",
            NexusUnits::Microseconds => "us",
            NexusUnits::Nanoseconds => "ns",
            NexusUnits::ISO8601 => "ISO8601",
            NexusUnits::ElectronVolts => "eV",
            NexusUnits::MegaElectronVolts => "MeV",
            NexusUnits::MegaElectronVoltsOverC => "MeVc^-1",
            NexusUnits::MicroAmps => "uA",
            NexusUnits::MicroAmpHours => "uAh",
            NexusUnits::Counts => "counts",
            NexusUnits::Millimeters => "mm",
            NexusUnits::Milligrams => "mg",
            NexusUnits::MilligramsPerCm3 => "mgcm^-3",
            NexusUnits::Kelvin => "K",
            NexusUnits::Gauss => "G",
        }
    }
}

/// The units of the first schematic draft.
#[derive(Clone, Copy, Debug, PartialEq, Eq, Structural)]
pub enum Units {
    Second,
    Microsecond,
    ISO8601,
    Mev,
    UAh,
    Counts,
}

/// The text of each draft unit.
pub open spec fn draft_units_text(u: Units) -> &'static str {
    match u {
        Units::Second => "second",
        Units::Microsecond => "microsecond",
        Units::ISO8601 => "ISO8601",
        Units::Mev => "mEv",
        Units::UAh => "uAh",
        Units::Counts => "counts",
    }
}

impl Units {
    /// The text of the unit.
    pub fn get(&self) -> (s: &'static str)
        ensures
            s == draft_units_text(*self),
    {
        match self {
            Units::Second => "second",
            Units::Microsecond => "microsecond",
            Units::ISO8601 => "ISO8601",
            Units::Mev => "mEv",
            Units::UAh => "uAh",
            Units::Counts => "counts",
        }
    }
}

/// Chunk sizes of the appendable datasets, and whether the file is written in
/// single-writer/multiple-reader mode.
#[derive(Clone, Copy, Debug, PartialEq, Eq, Structural)]
pub struct NexusSettings {
    pub framelist_chunk_size: usize,
    pub eventlist_chunk_size: usize,
    pub periodlist_chunk_size: usize,
    pub runloglist_chunk_size: usize,
    pub seloglist_chunk_size: usize,
    pub alarmlist_chunk_size: usize,
    pub use_swmr: bool,
}

impl NexusSettings {
    /// Settings with the given frame- and event-list chunk sizes; the period,
    /// run-log, selog and alarm lists get chunks of 8, 64, 1024 and 32.
    pub fn new(framelist_chunk_size: usize, eventlist_chunk_size: usize, use_swmr: bool) -> (s: Self)
        ensures
            s.framelist_chunk_size == framelist_chunk_size,
            s.eventlist_chunk_size == eventlist_chunk_size,
            s.periodlist_chunk_size == 8,
            s.runloglist_chunk_size == 64,
            s.seloglist_chunk_size == 1024,
            s.alarmlist_chunk_size == 32,
            s.use_swmr == use_swmr,
    {
        NexusSettings {
            framelist_chunk_size,
            eventlist_chunk_size,
            periodlist_chunk_size: 8,
            runloglist_chunk_size: 64,
            seloglist_chunk_size: 1024,
            alarmlist_chunk_size: 32,
            use_swmr,
        }
    }

    /// All chunk sizes zero and no single-writer mode.
    pub fn default_settings() -> (s: Self)
        ensures
            s.framelist_chunk_size == 0,
            s.eventlist_chunk_size == 0,
            s.periodlist_chunk_size == 0,
            s.runloglist_chunk_size == 0,
            s.seloglist_chunk_size == 0,
            s.alarmlist_chunk_size == 0,
            !s.use_swmr,
    {
        NexusSettings {
            framelist_chunk_size: 0,
            eventlist_chunk_size: 0,
            periodlist_chunk_size: 0,
            runloglist_chunk_size: 0,
            seloglist_chunk_size: 0,
            alarmlist_chunk_size: 0,
            use_swmr: false,
        }
    }
}

/// How a dataset or attribute holds its data.
#[derive(Clone, Copy, Debug, PartialEq, Eq, Structural)]
pub enum NexusClass<T> {
    /// A scalar that may be rewritten, created holding `default_value`.
    Mutable { default_value: T },
    /// A scalar that always holds `fixed_value`.
    Fixed { fixed_value: T },
    /// A resizable vector, created with `default_size` copies of `default_value`.
    Appendable { default_value: T, default_size: usize, chunk_size: usize },
    /// A resizable vector of numbers whose type is fixed by its first values.
    LogValueResizable { chunk_size: usize },
}

/// A dataset or attribute as built: its name and class.
#[derive(Clone, Copy, Debug)]
pub struct NexusDataHolder<T> {
    pub name: &'static str,
    pub class: NexusClass<T>,
}

/// A builder that has a name and waits for the class of the data holder.
#[derive(Clone, Copy, Debug)]
pub struct NexusBuilder<T> {
    pub name: &'static str,
    pub marker: Option<T>,
}

impl<T> NexusDataHolder<T> {
    /// Starts building a data holder with the given name.
    pub fn begin(name: &'static str) -> (b: NexusBuilder<T>)
        ensures
            b.name == name,
    {
        NexusBuilder::new(name)
    }
}

impl<T> NexusBuilder<T> {
    /// A builder for a data holder called `name`.
    pub fn new(name: &'static str) -> (b: Self)
        ensures
            b.name == name,
    {
        NexusBuilder { name, marker: None }
    }

    /// A mutable scalar with the given default value.
    pub fn finish_with_default_value(self, default_value: T) -> (h: NexusDataHolder<T>)
        ensures
            h == (NexusDataHolder { name: self.name, class: NexusClass::Mutable { default_value } }),
    {
        NexusDataHolder { name: self.name, class: NexusClass::Mutable { default_value } }
    }

    /// A mutable scalar whose default is `T::default()`.
    pub fn finish_with_auto_default(self) -> (h: NexusDataHolder<T>) where T: Default
        ensures
            h.name == self.name,
            h.class matches NexusClass::Mutable { default_value } && call_ensures(T::default, (), default_value),
    {
        NexusDataHolder { name: self.name, class: NexusClass::Mutable { default_value: T::default() } }
    }

    /// A scalar that always holds `fixed_value`.
    pub fn finish_with_fixed_value(self, fixed_value: T) -> (h: NexusDataHolder<T>)
        ensures
            h == (NexusDataHolder { name: self.name, class: NexusClass::Fixed { fixed_value } }),
    {
        NexusDataHolder { name: self.name, class: NexusClass::Fixed { fixed_value } }
    }

    /// A resizable vector created with `default_size` copies of `default_value`.
    pub fn finish_with_resizable(self, default_value: T, default_size: usize, chunk_size: usize) -> (h: NexusDataHolder<T>)
        ensures
            h == (NexusDataHolder {
                name: self.name,
                class: NexusClass::Appendable { default_value, default_size, chunk_size },
            }),
    {
        NexusDataHolder {
            name: self.name,
            class: NexusClass::Appendable { default_value, default_size, chunk_size },
        }
    }

    /// A resizable numeric log-value vector.
    pub fn finish_log_value_with_resizable(self, chunk_size: usize) -> (h: NexusDataHolder<T>)
        ensures
            h == (NexusDataHolder::<T> { name: self.name, class: NexusClass::LogValueResizable { chunk_size } }),
    {
        NexusDataHolder { name: self.name, class: NexusClass::LogValueResizable { chunk_size } }
    }
}

/// Law: finishing with the automatic default is finishing with the default
/// value. Two builders of one name, one finished with the automatic default
/// (`auto`) and one with a value `d` that `T::default` gives
/// (`with_value`), give equal holders whenever `T::default` gives one value
/// only. (Verus treats `T::default` as possibly giving different values on
/// different calls, so that condition is the law's premise.)
pub proof fn law_auto_default_is_default_value<T: Default>(
    b1: NexusBuilder<T>,
    b2: NexusBuilder<T>,
    auto: NexusDataHolder<T>,
    d: T,
    with_value: NexusDataHolder<T>,
)
    requires
        b1.name == b2.name,
        auto.name == b1.name,
        auto.class matches NexusClass::Mutable { default_value } && call_ensures(T::default, (), default_value),
        call_ensures(T::default, (), d),
        with_value == (NexusDataHolder { name: b2.name, class: NexusClass::Mutable { default_value: d } }),
        forall|x: T, y: T| call_ensures(T::default, (), x) && call_ensures(T::default, (), y) ==> x == y,
    ensures
        auto == with_value,
{
    if let NexusClass::Mutable { default_value } = auto.class {
        assert(default_value == d);
    }
}

/// Law: for counts (`u32`, whose `default` gives zero), finishing with the
/// automatic default is finishing with the default value, with no further
/// premise.
pub proof fn law_auto_default_is_default_value_for_counts(
    b1: NexusBuilder<u32>,
    b2: NexusBuilder<u32>,
    auto: NexusDataHolder<u32>,
    d: u32,
    with_value: NexusDataHolder<u32>,
)
    requires
        b1.name == b2.name,
        auto.name == b1.name,
        auto.class matches NexusClass::Mutable { default_value } && call_ensures(
            <u32 as Default>::default,
            (),
            default_value,
        ),
        call_ensures(<u32 as Default>::default, (), d),
        with_value == (NexusDataHolder { name: b2.name, class: NexusClass::Mutable { default_value: d } }),
    ensures
        auto == with_value,
        d == 0,
{
    law_auto_default_is_default_value(b1, b2, auto, d, with_value);
}

/// Unwraps a run-log value, or reports that the run-log message lacks it.
pub fn get_value<T>(val: Option<T>) -> (r: Result<T, NexusMissingError>)
    ensures
        match val {
            Some(v) => r == Ok::<T, NexusMissingError>(v),
            None => r == Err::<T, NexusMissingError>(NexusMissingError::Runlog(NexusMissingRunlogError::Message)),
        },
{
    match val {
        Some(v) => Ok(v),
        None => Err(NexusMissingError::Runlog(NexusMissingRunlogError::Message)),
    }
}

} // verus!
