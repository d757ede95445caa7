use vstd::prelude::*;

use crate::errors::{NexusMissingError, NexusMissingRunlogError, NexusNumericError, NexusPushError, NumericType};
use crate::event_data::append_all;
use crate::messages::{LogDataValue, SampleEnvironmentValues};

verus! {

/// A vector of numbers of one type, as a log-value dataset holds them.
/// Floating-point numbers are held as their IEEE-754 bit patterns.
#[derive(Clone, Debug)]
pub enum NumericVector {
    I1(Vec<i8>),
    I2(Vec<i16>),
    I4(Vec<i32>),
    I8(Vec<i64>),
    U1(Vec<u8>),
    U2(Vec<u16>),
    U4(Vec<u32>),
    U8(Vec<u64>),
    F4(Vec<u32>),
    F8(Vec<u64>),
}

/// The mathematical value of a `NumericVector`.
pub enum NumericSeq {
    I1(Seq<i8>),
    I2(Seq<i16>),
    I4(Seq<i32>),
    I8(Seq<i64>),
    U1(Seq<u8>),
    U2(Seq<u16>),
    U4(Seq<u32>),
    U8(Seq<u64>),
    F4(Seq<u32>),
    F8(Seq<u64>),
}

impl View for NumericVector {
    type V = NumericSeq;

    open spec fn view(&self) -> NumericSeq {
        match self {
            NumericVector::I1(v) => NumericSeq::I1(v@),
            NumericVector::I2(v) => NumericSeq::I2(v@),
            NumericVector::I4(v) => NumericSeq::I4(v@),
            NumericVector::I8(v) => NumericSeq::I8(v@),
            NumericVector::U1(v) => NumericSeq::U1(v@),
            NumericVector::U2(v) => NumericSeq::U2(v@),
            NumericVector::U4(v) => NumericSeq::U4(v@),
            NumericVector::U8(v) => NumericSeq::U8(v@),
            NumericVector::F4(v) => NumericSeq::F4(v@),
            NumericVector::F8(v) => NumericSeq::F8(v@),
        }
    }
}

/// The element type of a numeric sequence.
pub open spec fn seq_type(s: NumericSeq) -> NumericType {
    match s {
        NumericSeq::I1(_) => NumericType::I1,
        NumericSeq::I2(_) => NumericType::I2,
        NumericSeq::I4(_) => NumericType::I4,
        NumericSeq::I8(_) => NumericType::I8,
        NumericSeq::U1(_) => NumericType::U1,
        NumericSeq::U2(_) => NumericType::U2,
        NumericSeq::U4(_) => NumericType::U4,
        NumericSeq::U8(_) => NumericType::U8,
        NumericSeq::F4(_) => NumericType::F4,
        NumericSeq::F8(_) => NumericType::F8,
    }
}

/// The number of elements of a numeric sequence.
pub open spec fn seq_len(s: NumericSeq) -> nat {
    match s {
        NumericSeq::I1(v) => v.len(),
        NumericSeq::I2(v) => v.len(),
        NumericSeq::I4(v) => v.len(),
        NumericSeq::I8(v) => v.len(),
        NumericSeq::U1(v) => v.len(),
        NumericSeq::U2(v) => v.len(),
        NumericSeq::U4(v) => v.len(),
        NumericSeq::U8(v) => v.len(),
        NumericSeq::F4(v) => v.len(),
        NumericSeq::F8(v) => v.len(),
    }
}

/// `a` followed by `b`, when both hold the same type (otherwise `a`).
pub open spec fn seq_concat(a: NumericSeq, b: NumericSeq) -> NumericSeq {
    match (a, b) {
        (NumericSeq::I1(x), NumericSeq::I1(y)) => NumericSeq::I1(x + y),
        (NumericSeq::I2(x), NumericSeq::I2(y)) => NumericSeq::I2(x + y),
        (NumericSeq::I4(x), NumericSeq::I4(y)) => NumericSeq::I4(x + y),
        (NumericSeq::I8(x), NumericSeq::I8(y)) => NumericSeq::I8(x + y),
        (NumericSeq::U1(x), NumericSeq::U1(y)) => NumericSeq::U1(x + y),
        (NumericSeq::U2(x), NumericSeq::U2(y)) => NumericSeq::U2(x + y),
        (NumericSeq::U4(x), NumericSeq::U4(y)) => NumericSeq::U4(x + y),
        (NumericSeq::U8(x), NumericSeq::U8(y)) => NumericSeq::U8(x + y),
        (NumericSeq::F4(x), NumericSeq::F4(y)) => NumericSeq::F4(x + y),
        (NumericSeq::F8(x), NumericSeq::F8(y)) => NumericSeq::F8(x + y),
        _ => a,
    }
}

/// The values of a run-log message, or why there are none.
pub open spec fn log_data_values(value: LogDataValue) -> Result<NumericSeq, NexusPushError> {
    let missing = NexusPushError::MissingValue(NexusMissingError::Runlog(NexusMissingRunlogError::Message));
    match value {
        LogDataValue::Byte(v) => if let Some(x) = v { Ok(NumericSeq::I1(seq![x])) } else { Err(missing) },
        LogDataValue::Short(v) => if let Some(x) = v { Ok(NumericSeq::I2(seq![x])) } else { Err(missing) },
        LogDataValue::Int(v) => if let Some(x) = v { Ok(NumericSeq::I4(seq![x])) } else { Err(missing) },
        LogDataValue::Long(v) => if let Some(x) = v { Ok(NumericSeq::I8(seq![x])) } else { Err(missing) },
        LogDataValue::UByte(v) => if let Some(x) = v { Ok(NumericSeq::U1(seq![x])) } else { Err(missing) },
        LogDataValue::UShort(v) => if let Some(x) = v { Ok(NumericSeq::U2(seq![x])) } else { Err(missing) },
        LogDataValue::UInt(v) => if let Some(x) = v { Ok(NumericSeq::U4(seq![x])) } else { Err(missing) },
        LogDataValue::ULong(v) => if let Some(x) = v { Ok(NumericSeq::U8(seq![x])) } else { Err(missing) },
        LogDataValue::Float(v) => if let Some(x) = v { Ok(NumericSeq::F4(seq![x])) } else { Err(missing) },
        LogDataValue::Double(v) => if let Some(x) = v { Ok(NumericSeq::F8(seq![x])) } else { Err(missing) },
        LogDataValue::Other => Err(NexusPushError::LogValue(NexusNumericError::InvalidRunLogType)),
    }
}

/// The values of a sample-environment message, or why there are none.
pub open spec fn sample_environment_values(values: SampleEnvironmentValues) -> Result<NumericSeq, NexusPushError> {
    let missing = NexusPushError::MissingValue(NexusMissingError::Runlog(NexusMissingRunlogError::Message));
    match values {
        SampleEnvironmentValues::Int8Array(v) => if let Some(x) = v { Ok(NumericSeq::I1(x@)) } else { Err(missing) },
        SampleEnvironmentValues::Int16Array(v) => if let Some(x) = v { Ok(NumericSeq::I2(x@)) } else { Err(missing) },
        SampleEnvironmentValues::Int32Array(v) => if let Some(x) = v { Ok(NumericSeq::I4(x@)) } else { Err(missing) },
        SampleEnvironmentValues::Int64Array(v) => if let Some(x) = v { Ok(NumericSeq::I8(x@)) } else { Err(missing) },
        SampleEnvironmentValues::UInt8Array(v) => if let Some(x) = v { Ok(NumericSeq::U1(x@)) } else { Err(missing) },
        SampleEnvironmentValues::UInt16Array(v) => if let Some(x) = v { Ok(NumericSeq::U2(x@)) } else { Err(missing) },
        SampleEnvironmentValues::UInt32Array(v) => if let Some(x) = v { Ok(NumericSeq::U4(x@)) } else { Err(missing) },
        SampleEnvironmentValues::UInt64Array(v) => if let Some(x) = v { Ok(NumericSeq::U8(x@)) } else { Err(missing) },
        SampleEnvironmentValues::FloatArray(v) => if let Some(x) = v { Ok(NumericSeq::F4(x@)) } else { Err(missing) },
        SampleEnvironmentValues::DoubleArray(v) => if let Some(x) = v { Ok(NumericSeq::F8(x@)) } else { Err(missing) },
        SampleEnvironmentValues::Other => Err(NexusPushError::LogValue(NexusNumericError::InvalidSelogType)),
    }
}

/// The vector holding just `x`.
fn single<T>(x: T) -> (r: Vec<T>)
    ensures
        r@ == seq![x],
{
    let mut r: Vec<T> = Vec::new();
    r.push(x);
    r
}

/// A copy of the vector.
fn copy_vec<T: Copy>(v: &Vec<T>) -> (r: Vec<T>)
    ensures
        r@ == v@,
{
    let mut r: Vec<T> = Vec::new();
    append_all(&mut r, v);
    r
}

impl NumericVector {
    /// The number of elements.
    pub fn len(&self) -> (n: usize)
        ensures
            n == seq_len(self@),
    {
        match self {
            NumericVector::I1(v) => v.len(),
            NumericVector::I2(v) => v.len(),
            NumericVector::I4(v) => v.len(),
            NumericVector::I8(v) => v.len(),
            NumericVector::U1(v) => v.len(),
            NumericVector::U2(v) => v.len(),
            NumericVector::U4(v) => v.len(),
            NumericVector::U8(v) => v.len(),
            NumericVector::F4(v) => v.len(),
            NumericVector::F8(v) => v.len(),
        }
    }

    /// The element type.
    pub fn type_descriptor(&self) -> (t: NumericType)
        ensures
            t == seq_type(self@),
    {
        match self {
            NumericVector::I1(_) => NumericType::I1,
            NumericVector::I2(_) => NumericType::I2,
            NumericVector::I4(_) => NumericType::I4,
            NumericVector::I8(_) => NumericType::I8,
            NumericVector::U1(_) => NumericType::U1,
            NumericVector::U2(_) => NumericType::U2,
            NumericVector::U4(_) => NumericType::U4,
            NumericVector::U8(_) => NumericType::U8,
            NumericVector::F4(_) => NumericType::F4,
            NumericVector::F8(_) => NumericType::F8,
        }
    }

    /// A copy of the vector.
    pub fn copy(&self) -> (r: NumericVector)
        ensures
            r@ == self@,
    {
        match self {
            NumericVector::I1(v) => NumericVector::I1(copy_vec(v)),
            NumericVector::I2(v) => NumericVector::I2(copy_vec(v)),
            NumericVector::I4(v) => NumericVector::I4(copy_vec(v)),
            NumericVector::I8(v) => NumericVector::I8(copy_vec(v)),
            NumericVector::U1(v) => NumericVector::U1(copy_vec(v)),
            NumericVector::U2(v) => NumericVector::U2(copy_vec(v)),
            NumericVector::U4(v) => NumericVector::U4(copy_vec(v)),
            NumericVector::U8(v) => NumericVector::U8(copy_vec(v)),
            NumericVector::F4(v) => NumericVector::F4(copy_vec(v)),
            NumericVector::F8(v) => NumericVector::F8(copy_vec(v)),
        }
    }

    /// Appends `other` when it holds the same type; otherwise changes nothing
    /// and returns false.
    pub fn append(&mut self, other: &NumericVector) -> (r: bool)
        ensures
            r == (seq_type(old(self)@) == seq_type(other@)),
            final(self)@ == seq_concat(old(self)@, other@),
    {
        match (self, other) {
            (NumericVector::I1(a), NumericVector::I1(b)) => { append_all(a, b); true },
            (NumericVector::I2(a), NumericVector::I2(b)) => { append_all(a, b); true },
            (NumericVector::I4(a), NumericVector::I4(b)) => { append_all(a, b); true },
            (NumericVector::I8(a), NumericVector::I8(b)) => { append_all(a, b); true },
            (NumericVector::U1(a), NumericVector::U1(b)) => { append_all(a, b); true },
            (NumericVector::U2(a), NumericVector::U2(b)) => { append_all(a, b); true },
            (NumericVector::U4(a), NumericVector::U4(b)) => { append_all(a, b); true },
            (NumericVector::U8(a), NumericVector::U8(b)) => { append_all(a, b); true },
            (NumericVector::F4(a), NumericVector::F4(b)) => { append_all(a, b); true },
            (NumericVector::F8(a), NumericVector::F8(b)) => { append_all(a, b); true },
            _ => false,
        }
    }

    /// The values of a run-log message: a single number of the message's type.
    pub fn try_from_log_data(value: &LogDataValue) -> (r: Result<NumericVector, NexusPushError>)
        ensures
            match (r, log_data_values(*value)) {
                (Ok(v), Ok(s)) => v@ == s,
                (Err(e), Err(f)) => e == f,
                _ => false,
            },
    {
        let missing = NexusPushError::MissingValue(NexusMissingError::Runlog(NexusMissingRunlogError::Message));
        match *value {
            LogDataValue::Byte(v) => match v { Some(x) => Ok(NumericVector::I1(single(x))), None => Err(missing) },
            LogDataValue::Short(v) => match v { Some(x) => Ok(NumericVector::I2(single(x))), None => Err(missing) },
            LogDataValue::Int(v) => match v { Some(x) => Ok(NumericVector::I4(single(x))), None => Err(missing) },
            LogDataValue::Long(v) => match v { Some(x) => Ok(NumericVector::I8(single(x))), None => Err(missing) },
            LogDataValue::UByte(v) => match v { Some(x) => Ok(NumericVector::U1(single(x))), None => Err(missing) },
            LogDataValue::UShort(v) => match v { Some(x) => Ok(NumericVector::U2(single(x))), None => Err(missing) },
            LogDataValue::UInt(v) => match v { Some(x) => Ok(NumericVector::U4(single(x))), None => Err(missing) },
            LogDataValue::ULong(v) => match v { Some(x) => Ok(NumericVector::U8(single(x))), None => Err(missing) },
            LogDataValue::Float(v) => match v { Some(x) => Ok(NumericVector::F4(single(x))), None => Err(missing) },
            LogDataValue::Double(v) => match v { Some(x) => Ok(NumericVector::F8(single(x))), None => Err(missing) },
            LogDataValue::Other => Err(NexusPushError::LogValue(NexusNumericError::InvalidRunLogType)),
        }
    }

    /// The values of a sample-environment message: its array, of its type.
    pub fn try_from_sample_environment(values: &SampleEnvironmentValues) -> (r: Result<NumericVector, NexusPushError>)
        ensures
            match (r, sample_environment_values(*values)) {
                (Ok(v), Ok(s)) => v@ == s,
                (Err(e), Err(f)) => e == f,
                _ => false,
            },
    {
        let missing = NexusPushError::MissingValue(NexusMissingError::Runlog(NexusMissingRunlogError::Message));
        match values {
            SampleEnvironmentValues::Int8Array(v) => match v { Some(x) => Ok(NumericVector::I1(copy_vec(x))), None => Err(missing) },
            SampleEnvironmentValues::Int16Array(v) => match v { Some(x) => Ok(NumericVector::I2(copy_vec(x))), None => Err(missing) },
            SampleEnvironmentValues::Int32Array(v) => match v { Some(x) => Ok(NumericVector::I4(copy_vec(x))), None => Err(missing) },
            SampleEnvironmentValues::Int64Array(v) => match v { Some(x) => Ok(NumericVector::I8(copy_vec(x))), None => Err(missing) },
            SampleEnvironmentValues::UInt8Array(v) => match v { Some(x) => Ok(NumericVector::U1(copy_vec(x))), None => Err(missing) },
            SampleEnvironmentValues::UInt16Array(v) => match v { Some(x) => Ok(NumericVector::U2(copy_vec(x))), None => Err(missing) },
            SampleEnvironmentValues::UInt32Array(v) => match v { Some(x) => Ok(NumericVector::U4(copy_vec(x))), None => Err(missing) },
            SampleEnvironmentValues::UInt64Array(v) => match v { Some(x) => Ok(NumericVector::U8(copy_vec(x))), None => Err(missing) },
            SampleEnvironmentValues::FloatArray(v) => match v { Some(x) => Ok(NumericVector::F4(copy_vec(x))), None => Err(missing) },
            SampleEnvironmentValues::DoubleArray(v) => match v { Some(x) => Ok(NumericVector::F8(copy_vec(x))), None => Err(missing) },
            SampleEnvironmentValues::Other => Err(NexusPushError::LogValue(NexusNumericError::InvalidSelogType)),
        }
    }
}

/// A resizable numeric dataset whose element type is fixed by its first use.
#[derive(Clone, Debug)]
pub struct NumericLog {
    pub name: &'static str,
    pub chunk_size: usize,
    /// The element type, once set.
    pub type_desc: Option<NumericType>,
    /// The values written, once there are any.
    pub values: Option<NumericVector>,
}

/// Setting the type `t` on a dataset of type `current`: the new type, or the
/// mismatch.
pub open spec fn type_after(current: Option<NumericType>, t: NumericType) -> Result<Option<NumericType>, NexusNumericError> {
    match current {
        Some(c) => if c == t {
            Ok(current)
        } else {
            Err(NexusNumericError::TypeMismatch { required_type: c, input_type: t })
        },
        None => Ok(Some(t)),
    }
}

impl NumericLog {
    /// An empty dataset of no type.
    pub fn new(name: &'static str, chunk_size: usize) -> (l: Self)
        ensures
            l.name == name,
            l.chunk_size == chunk_size,
            l.type_desc is None,
            l.values is None,
    {
        NumericLog { name, chunk_size, type_desc: None, values: None }
    }

    /// Fixes the element type: the first call sets it, later calls must name
    /// the same type.
    pub fn try_set_type(&mut self, init_type_desc: NumericType) -> (r: Result<(), NexusNumericError>)
        ensures
            match type_after(old(self).type_desc, init_type_desc) {
                Ok(t) => r == Ok::<(), NexusNumericError>(()) && final(self).type_desc == t,
                Err(e) => r == Err::<(), NexusNumericError>(e) && final(self).type_desc == old(self).type_desc,
            },
            final(self).values == old(self).values,
            final(self).name == old(self).name,
            final(self).chunk_size == old(self).chunk_size,
    {
        match self.type_desc {
            Some(type_desc) => {
                if type_desc != init_type_desc {
                    return Err(NexusNumericError::TypeMismatch { required_type: type_desc, input_type: init_type_desc });
                }
            },
            None => {
                self.type_desc = Some(init_type_desc);
            },
        }
        Ok(())
    }

    /// Appends values of the dataset's type; refused when no type is set or
    /// the values are of another type.
    pub fn append_numerics(&mut self, values: &NumericVector) -> (r: Result<(), NexusNumericError>)
        requires
            old(self).values matches Some(v) ==> old(self).type_desc == Some(seq_type(v@)),
        ensures
            final(self).type_desc == old(self).type_desc,
            final(self).name == old(self).name,
            final(self).chunk_size == old(self).chunk_size,
            match old(self).type_desc {
                None => r == Err::<(), NexusNumericError>(NexusNumericError::NumericTypeNotSet)
                    && final(self).values == old(self).values,
                Some(t) => if t != seq_type(values@) {
                    r == Err::<(), NexusNumericError>(
                        NexusNumericError::TypeMismatch { required_type: t, input_type: seq_type(values@) },
                    ) && final(self).values == old(self).values
                } else {
                    &&& r == Ok::<(), NexusNumericError>(())
                    &&& final(self).values is Some
                    &&& final(self).values.unwrap()@ == match old(self).values {
                        Some(o) => seq_concat(o@, values@),
                        None => values@,
                    }
                },
            },
            final(self).values matches Some(v) ==> final(self).type_desc == Some(seq_type(v@)),
    {
        let t = match self.type_desc {
            Some(t) => t,
            None => {
                return Err(NexusNumericError::NumericTypeNotSet);
            },
        };
        let input_type = values.type_descriptor();
        if t != input_type {
            return Err(NexusNumericError::TypeMismatch { required_type: t, input_type });
        }
        match &mut self.values {
            Some(v) => {
                let same = v.append(values);
                proof {
                    assert(same);
                }
            },
            None => {
                self.values = Some(values.copy());
            },
        }
        Ok(())
    }
}

} // verus!
