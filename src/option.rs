use vstd::prelude::*;

use crate::flags::OptionCapability;
use crate::value::ValueType;

verus! {

/// The physical unit of an option's value.
#[derive(Clone, Copy, Debug, PartialEq, Eq, Structural)]
pub enum Unit {
    NoUnit,
    Pixel,
    Bit,
    Mm,
    Dpi,
    Percent,
    Microsecond,
}

/// The set of legal values of an option.
#[derive(Clone, Debug, PartialEq, Eq)]
pub enum OptionConstraint {
    Unconstrained,
    StringList(Vec<Vec<u8>>),
    WordList(Vec<i32>),
    Range { min: i32, max: i32, quant: i32 },
}

/// A constraint as it lies in the ABI's memory: a word list still starts with
/// its length word, and a string list still ends with its null sentinel (read
/// up to and including the first null).
#[derive(Clone, Debug, PartialEq, Eq)]
pub enum RawConstraint {
    Unconstrained,
    StringList(Vec<Option<Vec<u8>>>),
    WordList(Vec<i32>),
    Range { min: i32, max: i32, quant: i32 },
}

/// `r` is what comes before the first null of `s` (all of `s` if none).
pub open spec fn before_null<T>(s: Seq<Option<T>>, r: Seq<T>) -> bool {
    &&& r.len() <= s.len()
    &&& forall|i: int| 0 <= i < r.len() ==> s[i] == Some(r[i])
    &&& r.len() == s.len() || s[r.len() as int] is None
}

/// A word list whose length word is in range of the words that follow.
pub open spec fn word_list_ok(w: Seq<i32>) -> bool {
    w.len() >= 1 && 0 <= w[0] && w[0] + 1 <= w.len()
}

/// The raw constraint can be decoded.
pub open spec fn raw_ok(raw: RawConstraint) -> bool {
    match raw {
        RawConstraint::WordList(w) => word_list_ok(w@),
        _ => true,
    }
}

/// `c` is the decoded form of `raw`: the same tag, a word list without its
/// length word, a string list without its sentinel.
pub open spec fn decodes_to(raw: RawConstraint, c: OptionConstraint) -> bool {
    match raw {
        RawConstraint::Unconstrained => c is Unconstrained,
        RawConstraint::Range { min, max, quant } => c == (OptionConstraint::Range {
            min,
            max,
            quant,
        }),
        RawConstraint::WordList(w) => match c {
            OptionConstraint::WordList(v) => v@ == w@.subrange(1, w@[0] + 1),
            _ => false,
        },
        RawConstraint::StringList(s) => match c {
            OptionConstraint::StringList(v) => before_null(s@, v@),
            _ => false,
        },
    }
}

/// The entries before the first null of a null-terminated list.
pub fn take_before_null<T>(list: Vec<Option<T>>) -> (r: Vec<T>)
    ensures
        before_null(list@, r@),
{
    let ghost all = list@;
    let mut rest = list;
    let mut r: Vec<T> = Vec::new();
    while rest.len() > 0
        invariant_except_break
            r.len() + rest.len() == all.len(),
            rest@ == all.subrange(r.len() as int, all.len() as int),
        invariant
            r.len() <= all.len(),
            forall|i: int| 0 <= i < r.len() ==> all[i] == Some(r@[i]),
        ensures
            r.len() == all.len() || all[r.len() as int] is None,
        decreases rest.len(),
    {
        match rest.remove(0) {
            Some(x) => {
                r.push(x);
            },
            None => {
                break ;
            },
        }
    }
    r
}

/// Decodes a constraint out of the ABI's layout; `None` where a word list's
/// length word does not fit the words that follow it.
pub fn decode_constraint(raw: RawConstraint) -> (r: Option<OptionConstraint>)
    ensures
        r is Some <==> raw_ok(raw),
        r matches Some(c) ==> decodes_to(raw, c),
{
    match raw {
        RawConstraint::Unconstrained => Some(OptionConstraint::Unconstrained),
        RawConstraint::Range { min, max, quant } => Some(
            OptionConstraint::Range { min, max, quant },
        ),
        RawConstraint::WordList(w) => {
            if w.len() == 0 || w[0] < 0 || w[0] as usize >= w.len() {
                None
            } else {
                let n = w[0] as usize;
                let mut v: Vec<i32> = Vec::new();
                let mut i: usize = 1;
                while i <= n
                    invariant
                        1 <= i <= n + 1,
                        n < w.len(),
                        n == w@[0],
                        v@ == w@.subrange(1, i as int),
                    decreases n + 1 - i,
                {
                    v.push(w[i]);
                    i = i + 1;
                    assert(v@ =~= w@.subrange(1, i as int));
                }
                Some(OptionConstraint::WordList(v))
            }
        },
        RawConstraint::StringList(s) => Some(OptionConstraint::StringList(take_before_null(s))),
    }
}

/// An option descriptor as the ABI reports it.
#[derive(Clone, Debug, PartialEq, Eq)]
pub struct RawDescriptor {
    pub name: Vec<u8>,
    pub title: Vec<u8>,
    pub desc: Vec<u8>,
    pub type_: ValueType,
    pub unit: Unit,
    pub size: i32,
    pub cap: i32,
    pub constraint: RawConstraint,
}

/// A snapshot of one option descriptor, owned by the caller. `option_idx`
/// is 1-based: index 0 is the ABI's option-count query.
#[derive(Clone, Debug, PartialEq, Eq)]
pub struct DeviceOption {
    pub option_idx: i32,
    pub name: Vec<u8>,
    pub title: Vec<u8>,
    pub desc: Vec<u8>,
    pub type_: ValueType,
    pub unit: Unit,
    pub size: u32,
    pub cap: OptionCapability,
    pub constraint: OptionConstraint,
}

/// `o` is the snapshot of descriptor `d` taken at index `idx`.
pub open spec fn captures(idx: int, d: RawDescriptor, o: DeviceOption) -> bool {
    &&& o.option_idx == idx
    &&& o.name == d.name
    &&& o.title == d.title
    &&& o.desc == d.desc
    &&& o.type_ == d.type_
    &&& o.unit == d.unit
    &&& o.size == d.size as u32
    &&& o.cap.bits == d.cap as u32
    &&& decodes_to(d.constraint, o.constraint)
}

impl DeviceOption {
    /// Captures the descriptor reported at index `idx`; `None` where its
    /// constraint cannot be decoded.
    pub fn from_descriptor(idx: i32, d: RawDescriptor) -> (r: Option<DeviceOption>)
        ensures
            r is Some <==> raw_ok(d.constraint),
            r matches Some(o) ==> captures(idx as int, d, o),
    {
        let RawDescriptor { name, title, desc, type_, unit, size, cap, constraint } = d;
        match decode_constraint(constraint) {
            Some(c) => Some(
                DeviceOption {
                    option_idx: idx,
                    name,
                    title,
                    desc,
                    type_,
                    unit,
                    size: size as u32,
                    cap: OptionCapability::from_bits_unchecked(cap as u32),
                    constraint: c,
                },
            ),
            None => None,
        }
    }
}

/// Re-capturing a descriptor that has not changed gives the same snapshot.
pub proof fn lemma_capture_stable(idx: int, d: RawDescriptor, o1: DeviceOption, o2: DeviceOption)
    requires
        captures(idx, d, o1),
        captures(idx, d, o2),
    ensures
        o1.option_idx == o2.option_idx,
        o1.name == o2.name,
        o1.title == o2.title,
        o1.type_ == o2.type_,
        o1.unit == o2.unit,
        o1.size == o2.size,
{
}

} // verus!
