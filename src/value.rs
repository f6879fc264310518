use vstd::prelude::*;

verus! {

/// The type of an option's value.
#[derive(Clone, Copy, Debug, PartialEq, Eq, Structural)]
pub enum ValueType {
    Bool,
    Int,
    Fixed,
    String,
    Button,
    Group,
}

/// A typed option value. `Fixed` is a Q-format integer left undecoded;
/// `String` holds its bytes without the terminating NUL.
#[derive(Clone, Debug, PartialEq, Eq)]
pub enum DeviceOptionValue {
    Bool(bool),
    Int(i32),
    Fixed(i32),
    String(Vec<u8>),
    Button,
    Group,
}

/// The mathematical form of a value.
pub enum ValueModel {
    Bool(bool),
    Int(i32),
    Fixed(i32),
    String(Seq<u8>),
    Button,
    Group,
}

impl View for DeviceOptionValue {
    type V = ValueModel;

    open spec fn view(&self) -> ValueModel {
        match self {
            DeviceOptionValue::Bool(b) => ValueModel::Bool(*b),
            DeviceOptionValue::Int(i) => ValueModel::Int(*i),
            DeviceOptionValue::Fixed(i) => ValueModel::Fixed(*i),
            DeviceOptionValue::String(s) => ValueModel::String(s@),
            DeviceOptionValue::Button => ValueModel::Button,
            DeviceOptionValue::Group => ValueModel::Group,
        }
    }
}

/// What crosses the ABI for a value: one 32-bit word in native byte order,
/// a NUL-terminated byte buffer, or no buffer at all.
#[derive(Clone, Debug, PartialEq, Eq)]
pub enum RawValue {
    Word(i32),
    Text(Vec<u8>),
    Absent,
}

pub enum RawModel {
    Word(i32),
    Text(Seq<u8>),
    Absent,
}

impl View for RawValue {
    type V = RawModel;

    open spec fn view(&self) -> RawModel {
        match self {
            RawValue::Word(w) => RawModel::Word(*w),
            RawValue::Text(t) => RawModel::Text(t@),
            RawValue::Absent => RawModel::Absent,
        }
    }
}

/// The value's tag agrees with the option's type.
pub open spec fn tag_matches(t: ValueType, v: ValueModel) -> bool {
    match v {
        ValueModel::Bool(_) => t == ValueType::Bool,
        ValueModel::Int(_) => t == ValueType::Int,
        ValueModel::Fixed(_) => t == ValueType::Fixed,
        ValueModel::String(_) => t == ValueType::String,
        ValueModel::Button => t == ValueType::Button,
        ValueModel::Group => t == ValueType::Group,
    }
}

/// The types whose options carry a value that can be read.
pub open spec fn has_value(t: ValueType) -> bool {
    t != ValueType::Button && t != ValueType::Group
}

/// Index of the first NUL at or after `i`, or the length if there is none.
pub open spec fn nul_from(b: Seq<u8>, i: int) -> int
    decreases b.len() - i,
{
    if i < 0 || i >= b.len() {
        b.len() as int
    } else if b[i] == 0 {
        i
    } else {
        nul_from(b, i + 1)
    }
}

/// The C string that starts a buffer: the bytes before the first NUL.
pub open spec fn c_str(b: Seq<u8>) -> Seq<u8> {
    b.take(nul_from(b, 0))
}

pub open spec fn no_nul(s: Seq<u8>) -> bool {
    forall|i: int| 0 <= i < s.len() ==> s[i] != 0
}

/// Whether a byte string can stand as a C string: it holds no NUL byte.
pub fn is_nul_free(s: &Vec<u8>) -> (r: bool)
    ensures
        r == no_nul(s@),
{
    let mut i: usize = 0;
    while i < s.len()
        invariant
            i <= s.len(),
            forall|j: int| 0 <= j < i ==> s@[j] != 0,
        decreases s.len() - i,
    {
        if s[i] == 0 {
            return false;
        }
        i = i + 1;
    }
    true
}

/// What `set_option` hands to the ABI for a value.
pub open spec fn encode_spec(v: ValueModel) -> RawModel {
    match v {
        ValueModel::Bool(b) => RawModel::Word(if b { 1 } else { 0 }),
        ValueModel::Int(i) => RawModel::Word(i),
        ValueModel::Fixed(i) => RawModel::Word(i),
        ValueModel::String(s) => RawModel::Text(s.push(0)),
        _ => RawModel::Absent,
    }
}

/// How `get_option` reads back what the ABI wrote, for an option of type `t`;
/// `None` where the buffer's shape does not fit the type.
pub open spec fn decode_spec(t: ValueType, raw: RawModel) -> Option<ValueModel> {
    match raw {
        RawModel::Word(w) => match t {
            ValueType::Bool => Some(ValueModel::Bool(w != 0)),
            ValueType::Int => Some(ValueModel::Int(w)),
            ValueType::Fixed => Some(ValueModel::Fixed(w)),
            _ => None,
        },
        RawModel::Text(b) => if t == ValueType::String {
            Some(ValueModel::String(c_str(b)))
        } else {
            None
        },
        RawModel::Absent => None,
    }
}

proof fn lemma_nul_after_text(s: Seq<u8>, i: int)
    requires
        no_nul(s),
        0 <= i <= s.len(),
    ensures
        nul_from(s.push(0), i) == s.len(),
    decreases s.len() - i,
{
    let b = s.push(0);
    if i < s.len() {
        assert(b[i] == s[i]);
        lemma_nul_after_text(s, i + 1);
    } else {
        assert(b[i] == 0);
    }
}

/// A value of a readable type, encoded for the ABI and read back for an
/// option of that type, is the value itself (a string without NUL bytes).
pub proof fn lemma_value_round_trip(t: ValueType, v: ValueModel)
    requires
        tag_matches(t, v),
        has_value(t),
        v matches ValueModel::String(s) ==> no_nul(s),
    ensures
        decode_spec(t, encode_spec(v)) == Some(v),
{
    match v {
        ValueModel::String(s) => {
            lemma_nul_after_text(s, 0);
            assert(c_str(s.push(0)) =~= s);
        },
        _ => {},
    }
}

/// Encodes a value for a set operation. A group carries no value to set.
pub fn encode_value(value: DeviceOptionValue) -> (r: RawValue)
    requires
        !(value is Group),
    ensures
        r@ == encode_spec(value@),
{
    match value {
        DeviceOptionValue::Bool(b) => RawValue::Word(if b { 1 } else { 0 }),
        DeviceOptionValue::Int(i) => RawValue::Word(i),
        DeviceOptionValue::Fixed(i) => RawValue::Word(i),
        DeviceOptionValue::String(s) => {
            let mut bytes = s;
            bytes.push(0);
            RawValue::Text(bytes)
        },
        _ => RawValue::Absent,
    }
}

/// The bytes of a buffer before its first NUL.
pub fn c_str_of(b: &Vec<u8>) -> (r: Vec<u8>)
    ensures
        r@ == c_str(b@),
{
    let mut r: Vec<u8> = Vec::new();
    let mut i: usize = 0;
    while i < b.len() && b[i] != 0
        invariant
            i <= b.len(),
            nul_from(b@, 0) == nul_from(b@, i as int),
            forall|j: int| 0 <= j < i ==> b@[j] != 0,
            r@ == b@.take(i as int),
        decreases b.len() - i,
    {
        r.push(b[i]);
        i = i + 1;
        assert(r@ =~= b@.take(i as int));
    }
    assert(nul_from(b@, i as int) == i);
    r
}

/// Reads back a value that the ABI wrote for an option of type `t`.
pub fn decode_value(t: ValueType, raw: &RawValue) -> (r: Option<DeviceOptionValue>)
    ensures
        match r {
            Some(v) => decode_spec(t, raw@) == Some(v@),
            None => decode_spec(t, raw@) is None,
        },
{
    match raw {
        RawValue::Word(w) => match t {
            ValueType::Bool => Some(DeviceOptionValue::Bool(*w != 0)),
            ValueType::Int => Some(DeviceOptionValue::Int(*w)),
            ValueType::Fixed => Some(DeviceOptionValue::Fixed(*w)),
            _ => None,
        },
        RawValue::Text(b) => {
            if t == ValueType::String {
                Some(DeviceOptionValue::String(c_str_of(b)))
            } else {
                None
            }
        },
        RawValue::Absent => None,
    }
}

} // verus!
