//! Values that are exchanged with the player.

use vstd::pervasive::unreached;
use vstd::prelude::*;

use crate::raw::{MpvFormat, MpvNode};

verus! {

/// An IEEE 754 double-precision number, held as its bits.
#[derive(Clone, Copy, Debug)]
pub struct Double {
    pub bits: u64,
}

/// Represents data that can be sent to or retrieved from `Mpv`.
#[derive(Debug)]
pub enum Data {
    String(String),
    OsdString(String),
    Flag(bool),
    Int64(i64),
    Double(Double),
    Node(MpvNode),
}

/// What a `Data` says, with its text as a sequence of characters.
pub enum DataModel {
    String(Seq<char>),
    OsdString(Seq<char>),
    Flag(bool),
    Int64(i64),
    Double(Double),
    Node(MpvNode),
}

impl View for Data {
    type V = DataModel;

    open spec fn view(&self) -> DataModel {
        match self {
            Data::String(text) => DataModel::String(text@),
            Data::OsdString(text) => DataModel::OsdString(text@),
            Data::Flag(flag) => DataModel::Flag(*flag),
            Data::Int64(number) => DataModel::Int64(*number),
            Data::Double(number) => DataModel::Double(*number),
            Data::Node(node) => DataModel::Node(*node),
        }
    }
}

/// The bits of a double without its sign.
pub open spec fn magnitude(d: Double) -> int {
    d.bits as int % 0x8000_0000_0000_0000
}

/// Whether the bits of a double stand for no number: all exponent bits set, and a fraction.
pub open spec fn is_nan(d: Double) -> bool {
    magnitude(d) > 0x7ff0_0000_0000_0000
}

/// Equality of doubles: a double without a number equals nothing, and both zeros are equal.
pub open spec fn doubles_equal(a: Double, b: Double) -> bool {
    &&& !is_nan(a)
    &&& !is_nan(b)
    &&& a.bits == b.bits || (magnitude(a) == 0 && magnitude(b) == 0)
}

/// The integer whose two's complement form is `word`.
pub open spec fn twos_complement(word: u64) -> int {
    if word < 0x8000_0000_0000_0000 {
        word as int
    } else {
        word - 0x1_0000_0000_0000_0000
    }
}

impl DataModel {
    /// The format in which libmpv is handed this data.
    pub open spec fn format(self) -> MpvFormat {
        match self {
            DataModel::String(_) => MpvFormat::String,
            DataModel::OsdString(_) => MpvFormat::OsdString,
            DataModel::Flag(_) => MpvFormat::Flag,
            DataModel::Int64(_) => MpvFormat::Int64,
            DataModel::Double(_) => MpvFormat::Double,
            DataModel::Node(_) => MpvFormat::Node,
        }
    }

    /// Whether two values are of one kind and equal, neither of them being a node.
    pub open spec fn equal_to(self, other: DataModel) -> bool {
        match (self, other) {
            (DataModel::String(a), DataModel::String(b)) => a == b,
            (DataModel::OsdString(a), DataModel::OsdString(b)) => a == b,
            (DataModel::Flag(a), DataModel::Flag(b)) => a == b,
            (DataModel::Int64(a), DataModel::Int64(b)) => a == b,
            (DataModel::Double(a), DataModel::Double(b)) => doubles_equal(a, b),
            _ => false,
        }
    }
}

/// Whether libmpv hands out values of `format` as one machine word.
pub open spec fn is_word_format(format: MpvFormat) -> bool {
    format is Flag || format is Int64 || format is Double
}

/// The value that the machine word `word` stands for in `format`.
pub open spec fn data_of_word(format: MpvFormat, word: u64) -> DataModel
    recommends
        is_word_format(format),
{
    match format {
        MpvFormat::Flag => DataModel::Flag(word != 0),
        MpvFormat::Int64 => DataModel::Int64(twos_complement(word) as i64),
        _ => DataModel::Double(Double { bits: word }),
    }
}

/// The machine word by which libmpv is handed a value of a word format.
pub open spec fn word_of_data(data: DataModel) -> u64
    recommends
        is_word_format(data.format()),
{
    match data {
        DataModel::Flag(flag) => if flag {
            1
        } else {
            0
        },
        DataModel::Int64(number) => number as u64,
        DataModel::Double(number) => number.bits,
        _ => 0,
    }
}

impl Double {
    /// Compares two doubles as numbers.
    pub fn equals(&self, other: &Double) -> (equal: bool)
        ensures
            equal == doubles_equal(*self, *other),
    {
        let a: u64 = self.bits % 0x8000_0000_0000_0000;
        let b: u64 = other.bits % 0x8000_0000_0000_0000;
        a <= 0x7ff0_0000_0000_0000 && b <= 0x7ff0_0000_0000_0000 && (self.bits == other.bits || (
        a == 0 && b == 0))
    }
}

impl Data {
    /// Create a `Data` from a supported value. Be careful about mistakenly using an isize when you
    /// want a float.
    pub fn new<T>(val: T) -> (data: Data) where T: Into<Data>
        ensures
            call_ensures(T::into, (val,), data),
            <T as vstd::std_specs::convert::IntoSpec<Data>>::obeys_into_spec() ==> data
                == <T as vstd::std_specs::convert::IntoSpec<Data>>::into_spec(val),
    {
        val.into()
    }

    /// The format in which libmpv is handed this data.
    pub fn format(&self) -> (format: MpvFormat)
        ensures
            format == self@.format(),
    {
        match self {
            Data::String(_) => MpvFormat::String,
            Data::OsdString(_) => MpvFormat::OsdString,
            Data::Flag(_) => MpvFormat::Flag,
            Data::Int64(_) => MpvFormat::Int64,
            Data::Double(_) => MpvFormat::Double,
            Data::Node(_) => MpvFormat::Node,
        }
    }

    /// Reads the machine word that libmpv hands out for a value of format `fmt`.
    pub fn from_raw(fmt: MpvFormat, word: u64) -> (data: Data)
        requires
            is_word_format(fmt),
        ensures
            data@ == data_of_word(fmt, word),
    {
        match fmt {
            MpvFormat::Flag => Data::Flag(word != 0),
            MpvFormat::Int64 => {
                assert(word as i64 == twos_complement(word)) by {
                    assert(word < 0x8000_0000_0000_0000 ==> word as i64 == word) by (bit_vector);
                    assert(word >= 0x8000_0000_0000_0000 ==> word as i64 == word
                        - 0x1_0000_0000_0000_0000) by (bit_vector);
                }
                Data::Int64(word as i64)
            },
            _ => Data::Double(Double { bits: word }),
        }
    }

    /// Writes the machine word by which libmpv is handed a value of a word format.
    pub fn to_raw(&self) -> (word: u64)
        requires
            is_word_format(self@.format()),
        ensures
            word == word_of_data(self@),
    {
        match self {
            Data::Flag(flag) => if *flag {
                1
            } else {
                0
            },
            Data::Int64(number) => *number as u64,
            Data::Double(number) => number.bits,
            _ => unreached(),
        }
    }

    /// Compares two values of which at least one is no node: their kinds are the same, and what
    /// they hold is equal.
    pub fn equals(&self, other: &Data) -> (equal: bool)
        requires
            !(self is Node && other is Node),
        ensures
            equal == self@.equal_to(other@),
    {
        match (self, other) {
            (Data::String(a), Data::String(b)) => *a == *b,
            (Data::OsdString(a), Data::OsdString(b)) => *a == *b,
            (Data::Flag(a), Data::Flag(b)) => *a == *b,
            (Data::Int64(a), Data::Int64(b)) => *a == *b,
            (Data::Double(a), Data::Double(b)) => a.equals(b),
            _ => false,
        }
    }
}

impl Clone for Data {
    fn clone(&self) -> (copy: Self)
        ensures
            copy == *self,
    {
        match self {
            Data::String(text) => Data::String(text.clone()),
            Data::OsdString(text) => Data::OsdString(text.clone()),
            Data::Flag(flag) => Data::Flag(*flag),
            Data::Int64(number) => Data::Int64(*number),
            Data::Double(number) => Data::Double(*number),
            Data::Node(node) => Data::Node(*node),
        }
    }
}

impl From<String> for Data {
    fn from(val: String) -> (data: Data) {
        Data::String(val)
    }
}

impl vstd::std_specs::convert::FromSpecImpl<String> for Data {
    open spec fn obeys_from_spec() -> bool {
        true
    }

    open spec fn from_spec(val: String) -> Data {
        Data::String(val)
    }
}

impl From<bool> for Data {
    fn from(val: bool) -> (data: Data) {
        Data::Flag(val)
    }
}

impl vstd::std_specs::convert::FromSpecImpl<bool> for Data {
    open spec fn obeys_from_spec() -> bool {
        true
    }

    open spec fn from_spec(val: bool) -> Data {
        Data::Flag(val)
    }
}

impl From<isize> for Data {
    fn from(val: isize) -> (data: Data) {
        Data::Int64(val as i64)
    }
}

impl vstd::std_specs::convert::FromSpecImpl<isize> for Data {
    open spec fn obeys_from_spec() -> bool {
        true
    }

    open spec fn from_spec(val: isize) -> Data {
        Data::Int64(val as i64)
    }
}

impl From<Double> for Data {
    fn from(val: Double) -> (data: Data) {
        Data::Double(val)
    }
}

impl vstd::std_specs::convert::FromSpecImpl<Double> for Data {
    open spec fn obeys_from_spec() -> bool {
        true
    }

    open spec fn from_spec(val: Double) -> Data {
        Data::Double(val)
    }
}

impl From<MpvNode> for Data {
    fn from(val: MpvNode) -> (data: Data) {
        Data::Node(val)
    }
}

impl vstd::std_specs::convert::FromSpecImpl<MpvNode> for Data {
    open spec fn obeys_from_spec() -> bool {
        true
    }

    open spec fn from_spec(val: MpvNode) -> Data {
        Data::Node(val)
    }
}

/// A value read from a machine word has the format it was read in.
pub proof fn law_word_keeps_format(format: MpvFormat, word: u64)
    requires
        is_word_format(format),
    ensures
        data_of_word(format, word).format() == format,
{
}

/// A value is read back from its machine word.
pub proof fn law_words_are_read_as_written(data: DataModel)
    requires
        is_word_format(data.format()),
    ensures
        data_of_word(data.format(), word_of_data(data)) == data,
{
    if let DataModel::Int64(number) = data {
        assert(number >= 0 ==> number as u64 == number && number as u64 <= 0x7fff_ffff_ffff_ffff)
            by (bit_vector);
        assert(number < 0 ==> number as u64 == number + 0x1_0000_0000_0000_0000 && number as u64
            >= 0x8000_0000_0000_0000) by (bit_vector);
    }
}

/// Equality of values is symmetric.
pub proof fn law_equality_is_symmetric(a: DataModel, b: DataModel)
    ensures
        a.equal_to(b) == b.equal_to(a),
{
}

/// Equality of values is transitive.
pub proof fn law_equality_is_transitive(a: DataModel, b: DataModel, c: DataModel)
    requires
        a.equal_to(b),
        b.equal_to(c),
    ensures
        a.equal_to(c),
{
}

} // verus!
