use vstd::prelude::*;

use crate::flags::OptionInfo;
use crate::option::{captures, raw_ok, DeviceOption, RawDescriptor};
use crate::status::{Error, Status};
use crate::value::{
    decode_spec, decode_value, encode_spec, encode_value, has_value, lemma_value_round_trip, no_nul,
    tag_matches,
    DeviceOptionValue, RawValue, ValueType,
};

verus! {

/// The frame format of a scan.
#[derive(Clone, Copy, Debug, PartialEq, Eq, Structural)]
pub enum Frame {
    Gray,
    Rgb,
    Red,
    Green,
    Blue,
}

/// The geometry and format of the pending or current scan.
#[derive(Clone, Copy, Debug, PartialEq, Eq, Structural)]
pub struct Parameters {
    pub format: Frame,
    pub last_frame: bool,
    pub bytes_per_line: i32,
    pub pixels_per_line: i32,
    pub lines: i32,
    pub depth: i32,
}

/// An ABI call that releasing a device makes.
#[derive(Clone, Copy, Debug, PartialEq, Eq, Structural)]
pub enum ReleaseStep {
    Cancel,
    Close,
}

/// An open device and its scan session: `scanning` is true from a
/// successful `start_scan` until end-of-stream in `read`.
pub struct DeviceHandle {
    scanning: bool,
}

impl DeviceHandle {
    pub closed spec fn scanning(&self) -> bool {
        self.scanning
    }

    /// A freshly opened handle, not scanning.
    pub(crate) fn new() -> (r: DeviceHandle)
        ensures
            !r.scanning(),
    {
        DeviceHandle { scanning: false }
    }

    pub fn is_scanning(&self) -> (r: bool)
        ensures
            r == self.scanning(),
    {
        self.scanning
    }
}

/// The number of options after index 0, for an option count `count`.
pub open spec fn option_total(count: i32) -> int {
    if count > 1 {
        count - 1
    } else {
        0
    }
}

/// `o` captures what `abi_descriptor` reported at index `idx`.
pub open spec fn captured_at<D: Fn(i32) -> Option<RawDescriptor>>(
    abi_descriptor: D,
    idx: int,
    o: DeviceOption,
) -> bool {
    exists|d: RawDescriptor|
        #[trigger] abi_descriptor.ensures((idx as i32,), Some(d)) && captures(idx, d, o)
}

/// Some index in `1..count` gave a null descriptor, or one whose constraint
/// cannot be decoded.
pub open spec fn refused_below<D: Fn(i32) -> Option<RawDescriptor>>(abi_descriptor: D, count: i32) -> bool {
    exists|k: int, o: Option<RawDescriptor>|
        1 <= k < count && #[trigger] abi_descriptor.ensures((k as i32,), o) && (o matches Some(d)
            ==> !raw_ok(d.constraint))
}

/// What a read call returns, and whether the session goes on, for the ABI's
/// status and byte count on a buffer of `buf_len` bytes. A count outside the
/// buffer is refused as `Inval`.
pub open spec fn read_outcome(out: (Status, i32), buf_len: usize) -> (Result<Option<usize>, Error>, bool) {
    if out.0 == Status::Eof && out.1 == 0 {
        (Ok(None), false)
    } else if out.0 == Status::Good || out.0 == Status::Eof {
        if 0 <= out.1 <= buf_len {
            (Ok(Some(out.1 as usize)), true)
        } else {
            (Err(Error(Status::Inval)), true)
        }
    } else {
        (Err(Error(out.0)), true)
    }
}

/// What a set call returns for the ABI's status and info bits.
pub open spec fn set_outcome(out: (Status, u32)) -> Result<OptionInfo, Error> {
    if out.0 == Status::Good {
        Ok(OptionInfo { bits: out.1 })
    } else {
        Err(Error(out.0))
    }
}

/// What a get call returns for the ABI's status and the value it wrote, on
/// an option of type `opt.type_`; a value whose shape does not fit the
/// type is refused as `Inval`.
pub open spec fn get_outcome(opt: DeviceOption, out: (Status, RawValue), r: Result<DeviceOptionValue, Error>) -> bool {
    if out.0 != Status::Good {
        r == Err::<DeviceOptionValue, Error>(Error(out.0))
    } else {
        match decode_spec(opt.type_, out.1@) {
            Some(v) => r matches Ok(x) && x@ == v,
            None => r == Err::<DeviceOptionValue, Error>(Error(Status::Inval)),
        }
    }
}

/// The result of a status and a value carried with it.
fn outcome<T>(st: Status, value: T) -> (r: Result<T, Error>)
    ensures
        st == Status::Good ==> r == Ok::<T, Error>(value),
        st != Status::Good ==> r == Err::<T, Error>(Error(st)),
{
    if st == Status::Good {
        Ok(value)
    } else {
        Err(Error(st))
    }
}

impl DeviceHandle {
    /// Captures every option descriptor. `abi_count` reads option 0, the
    /// option count `N`; `abi_descriptor(i)` fetches the descriptor at index
    /// `i`, for `i` in `1..N`, `None` standing for a null descriptor. A null or
    /// undecodable descriptor fails the whole call with `Inval`.
    pub fn get_options<C: FnOnce() -> (Status, i32), D: Fn(i32) -> Option<RawDescriptor>>(
        &self,
        abi_count: C,
        abi_descriptor: D,
    ) -> (r: Result<Vec<DeviceOption>, Error>)
        requires
            abi_count.requires(()),
            forall|i: i32| abi_descriptor.requires((i,)),
        ensures
            exists|out: (Status, i32)|
                {
                    &&& abi_count.ensures((), out)
                    &&& out.0 != Status::Good ==> r == Err::<Vec<DeviceOption>, Error>(
                        Error(out.0),
                    )
                    &&& out.0 == Status::Good ==> match r {
                        Ok(v) => v.len() == option_total(out.1) && forall|k: int|
                            0 <= k < v.len() ==> captured_at(abi_descriptor, k + 1, #[trigger] v@[k]),
                        Err(e) => e == Error(Status::Inval) && refused_below(abi_descriptor, out.1),
                    }
                },
    {
        let out = abi_count();
        let st = out.0;
        let count = out.1;
        if st != Status::Good {
            return Err(Error(st));
        }
        let mut options: Vec<DeviceOption> = Vec::new();
        let mut idx: i32 = 1;
        while idx < count
            invariant
                abi_count.ensures((), out),
                count == out.1,
                out.0 == Status::Good,
                1 <= idx,
                idx <= count || count < 1 && idx == 1,
                options.len() == idx - 1,
                forall|i: i32| abi_descriptor.requires((i,)),
                forall|k: int|
                    0 <= k < options.len() ==> captured_at(abi_descriptor, k + 1, #[trigger] options@[k]),
            decreases count - idx,
        {
            let fetched = abi_descriptor(idx);
            let ghost fetched0 = fetched;
            assert(abi_descriptor.ensures(((idx as int) as i32,), fetched0));
            let captured = match fetched {
                Some(d) => DeviceOption::from_descriptor(idx, d),
                None => None,
            };
            match captured {
                Some(o) => {
                    assert(captured_at(abi_descriptor, idx as int, o));
                    options.push(o);
                },
                None => {
                    assert(refused_below(abi_descriptor, count));
                    return Err(Error(Status::Inval));
                },
            }
            idx = idx + 1;
        }
        Ok(options)
    }
}

impl DeviceHandle {
    /// Queries the scan parameters through `abi_params`.
    pub fn get_parameters<P: FnOnce() -> (Status, Parameters)>(&self, abi_params: P) -> (r: Result<
        Parameters,
        Error,
    >)
        requires
            abi_params.requires(()),
        ensures
            exists|p: (Status, Parameters)|
                abi_params.ensures((), p) && r == (if p.0 == Status::Good {
                    Ok::<Parameters, Error>(p.1)
                } else {
                    Err::<Parameters, Error>(Error(p.0))
                }),
    {
        let p = abi_params();
        outcome(p.0, p.1)
    }

    /// Starts a scan through `abi_start`, then queries its parameters. The
    /// session is scanning only when both succeed; on a failure the state is
    /// left as it was and the status is returned.
    pub fn start_scan<S: FnOnce() -> Status, P: FnOnce() -> (Status, Parameters)>(
        &mut self,
        abi_start: S,
        abi_params: P,
    ) -> (r: Result<Parameters, Error>)
        requires
            abi_start.requires(()),
            abi_params.requires(()),
        ensures
            exists|st: Status|
                {
                    &&& abi_start.ensures((), st)
                    &&& st != Status::Good ==> r == Err::<Parameters, Error>(Error(st))
                        && final(self).scanning() == old(self).scanning()
                    &&& st == Status::Good ==> exists|p: (Status, Parameters)|
                        {
                            &&& abi_params.ensures((), p)
                            &&& p.0 != Status::Good ==> r == Err::<Parameters, Error>(Error(p.0))
                                && final(self).scanning() == old(self).scanning()
                            &&& p.0 == Status::Good ==> r == Ok::<Parameters, Error>(p.1)
                                && final(self).scanning()
                        }
                },
    {
        let st = abi_start();
        if st != Status::Good {
            return Err(Error(st));
        }
        let p = self.get_parameters(abi_params);
        if p.is_ok() {
            self.scanning = true;
        }
        p
    }

    /// Reads the next bytes of the scan. When the session is not scanning,
    /// returns `Ok(None)` and does not call `abi_read`. Otherwise `abi_read`
    /// fills the caller's buffer of `buf_len` bytes and reports a status and a
    /// count: end-of-stream with no bytes ends the session; `Good`, or
    /// end-of-stream with bytes, gives the count; any other status is an error
    /// and the session goes on. The second result, `ended`, is true exactly
    /// when this read ended the session: the caller then runs the ABI's cancel
    /// entry point, which the protocol asks for before the next scan.
    pub fn read<R: FnOnce() -> (Status, i32)>(&mut self, buf_len: usize, abi_read: R) -> (r: (
        Result<Option<usize>, Error>,
        bool,
    ))
        requires
            old(self).scanning() ==> abi_read.requires(()),
        ensures
            !old(self).scanning() ==> r == (Ok::<Option<usize>, Error>(None), false)
                && !final(self).scanning(),
            old(self).scanning() ==> exists|out: (Status, i32)|
                {
                    &&& abi_read.ensures((), out)
                    &&& read_outcome(out, buf_len) == (r.0, final(self).scanning())
                    &&& r.1 <==> (out.0 == Status::Eof && out.1 == 0)
                },
    {
        if !self.scanning {
            return (Ok(None), false);
        }
        let out = abi_read();
        assert(abi_read.ensures((), out));
        let st = out.0;
        let written = out.1;
        let ended = st == Status::Eof && written == 0;
        let r = if ended {
            self.scanning = false;
            Ok(None)
        } else if st == Status::Good || st == Status::Eof {
            if 0 <= written && written as usize <= buf_len {
                Ok(Some(written as usize))
            } else {
                Err(Error(Status::Inval))
            }
        } else {
            Err(Error(st))
        };
        assert(read_outcome(out, buf_len).0 == r);
        assert(read_outcome(out, buf_len).1 == self.scanning);
        (r, ended)
    }

    /// Reads an option's value. `abi_get` is handed the option's index and
    /// value size, and reports a status and the value it wrote.
    pub fn get_option<G: FnOnce(i32, u32) -> (Status, RawValue)>(
        &self,
        opt: &DeviceOption,
        abi_get: G,
    ) -> (r: Result<DeviceOptionValue, Error>)
        requires
            has_value(opt.type_),
            abi_get.requires((opt.option_idx, opt.size)),
        ensures
            exists|out: (Status, RawValue)|
                abi_get.ensures((opt.option_idx, opt.size), out) && get_outcome(*opt, out, r),
    {
        let out = abi_get(opt.option_idx, opt.size);
        assert(abi_get.ensures((opt.option_idx, opt.size), out));
        if out.0 != Status::Good {
            let r = Err(Error(out.0));
            assert(get_outcome(*opt, out, r));
            return r;
        }
        let r = match decode_value(opt.type_, &out.1) {
            Some(v) => Ok(v),
            None => Err(Error(Status::Inval)),
        };
        assert(get_outcome(*opt, out, r));
        r
    }

    /// Sets an option's value, which matches the option's type and, for a
    /// string, holds no NUL byte. `abi_set` is handed the option's index and
    /// the encoded value, and reports a status and the info bits.
    pub fn set_option<S: FnOnce(i32, RawValue) -> (Status, u32)>(
        &self,
        opt: &DeviceOption,
        value: DeviceOptionValue,
        abi_set: S,
    ) -> (r: Result<OptionInfo, Error>)
        requires
            tag_matches(opt.type_, value@),
            !(value is Group),
            value matches DeviceOptionValue::String(t) ==> no_nul(t@),
            forall|raw: RawValue|
                raw@ == encode_spec(value@) ==> abi_set.requires((opt.option_idx, raw)),
        ensures
            exists|raw: RawValue, out: (Status, u32)|
                {
                    &&& raw@ == encode_spec(value@)
                    &&& abi_set.ensures((opt.option_idx, raw), out)
                    &&& r == set_outcome(out)
                },
    {
        let raw = encode_value(value);
        let out = abi_set(opt.option_idx, raw);
        outcome(out.0, OptionInfo::from_bits_unchecked(out.1))
    }

    /// Lets the backend choose an option's value. `abi_set_auto` is handed
    /// the option's index and reports a status and the info bits.
    pub fn set_option_auto<S: FnOnce(i32) -> (Status, u32)>(
        &self,
        opt: &DeviceOption,
        abi_set_auto: S,
    ) -> (r: Result<OptionInfo, Error>)
        requires
            abi_set_auto.requires((opt.option_idx,)),
        ensures
            exists|out: (Status, u32)|
                abi_set_auto.ensures((opt.option_idx,), out) && r == set_outcome(out),
    {
        let out = abi_set_auto(opt.option_idx);
        assert(abi_set_auto.ensures((opt.option_idx,), out));
        let r = outcome(out.0, OptionInfo::from_bits_unchecked(out.1));
        assert(r == set_outcome(out));
        r
    }

    /// Releases the device: the ABI calls to make, in order. A scan in
    /// progress is cancelled first, then the device is closed; an idle device
    /// is only closed.
    pub fn release(&self) -> (r: Vec<ReleaseStep>)
        ensures
            r@ == (if self.scanning() {
                seq![ReleaseStep::Cancel, ReleaseStep::Close]
            } else {
                seq![ReleaseStep::Close]
            }),
    {
        let mut steps: Vec<ReleaseStep> = Vec::new();
        if self.scanning {
            steps.push(ReleaseStep::Cancel);
        }
        steps.push(ReleaseStep::Close);
        assert(steps@ =~= (if self.scanning() {
            seq![ReleaseStep::Cancel, ReleaseStep::Close]
        } else {
            seq![ReleaseStep::Close]
        }));
        steps
    }
}

/// What `set_option` hands to the ABI for a value, handed back unchanged to
/// `get_option` on the same option, reads back as that value (a string
/// without NUL bytes).
pub proof fn lemma_set_then_get(
    opt: DeviceOption,
    value: DeviceOptionValue,
    raw: RawValue,
    r: Result<DeviceOptionValue, Error>,
)
    requires
        tag_matches(opt.type_, value@),
        has_value(opt.type_),
        value matches DeviceOptionValue::String(s) ==> no_nul(s@),
        raw@ == encode_spec(value@),
        get_outcome(opt, (Status::Good, raw), r),
    ensures
        r matches Ok(v) && v@ == value@,
{
    lemma_value_round_trip(opt.type_, value@);
}

/// One turn of reading a whole image: appends the bytes that a read reported
/// from `buf` to `image`, and says whether to read again. The turn ends the
/// image at end-of-stream and, dropping the error, at a failed read.
pub fn read_to_vec_step(image: &mut Vec<u8>, read: &Result<Option<usize>, Error>, buf: &Vec<u8>) -> (go_on: bool)
    requires
        read matches Ok(Some(n)) ==> n <= buf.len(),
    ensures
        go_on == read matches Ok(Some(_)),
        match read {
            Ok(Some(n)) => final(image)@ == old(image)@ + buf@.take(*n as int),
            _ => final(image)@ == old(image)@,
        },
{
    match read {
        Ok(Some(n)) => {
            let n = *n;
            let mut i: usize = 0;
            let ghost start = image@;
            while i < n
                invariant
                    n <= buf.len(),
                    i <= n,
                    image@ == start + buf@.take(i as int),
                decreases n - i,
            {
                image.push(buf[i]);
                i = i + 1;
                assert(image@ =~= start + buf@.take(i as int));
            }
            true
        },
        _ => false,
    }
}

/// The total of the byte counts of a run of reads.
pub open spec fn streamed(counts: Seq<usize>) -> int
    decreases counts.len(),
{
    if counts.len() == 0 {
        0
    } else {
        streamed(counts.drop_last()) + counts.last()
    }
}

/// An image that starts empty and grows, turn by turn, by the bytes each
/// read reported (as `read_to_vec_step` makes it) ends as long as the total
/// of the counts.
pub proof fn lemma_image_length(images: Seq<Seq<u8>>, bufs: Seq<Seq<u8>>, counts: Seq<usize>)
    requires
        images.len() == counts.len() + 1,
        bufs.len() == counts.len(),
        images[0].len() == 0,
        forall|k: int| 0 <= k < counts.len() ==> #[trigger] counts[k] <= bufs[k].len(),
        forall|k: int|
            0 <= k < counts.len() ==> #[trigger] images[k + 1] == images[k] + bufs[k].take(
                counts[k] as int,
            ),
    ensures
        images.last().len() == streamed(counts),
    decreases counts.len(),
{
    if counts.len() > 0 {
        let n = counts.len() - 1;
        assert(images[n + 1] == images[n] + bufs[n].take(counts[n] as int));
        let im = images.drop_last();
        let bu = bufs.drop_last();
        let co = counts.drop_last();
        assert forall|k: int| 0 <= k < co.len() implies #[trigger] im[k + 1] == im[k] + bu[k].take(
            co[k] as int,
        ) by {
            assert(images[k + 1] == images[k] + bufs[k].take(counts[k] as int));
            assert(im[k + 1] == images[k + 1] && im[k] == images[k]);
            assert(bu[k] == bufs[k] && co[k] == counts[k]);
        }
        assert(im[0] == images[0]);
        lemma_image_length(im, bu, co);
        assert(im.last() == images[n]);
    }
}

/// Whether a value's tag agrees with an option's type.
pub fn matches_type(t: ValueType, value: &DeviceOptionValue) -> (r: bool)
    ensures
        r == tag_matches(t, value@),
{
    match value {
        DeviceOptionValue::Bool(_) => t == ValueType::Bool,
        DeviceOptionValue::Int(_) => t == ValueType::Int,
        DeviceOptionValue::Fixed(_) => t == ValueType::Fixed,
        DeviceOptionValue::String(_) => t == ValueType::String,
        DeviceOptionValue::Button => t == ValueType::Button,
        DeviceOptionValue::Group => t == ValueType::Group,
    }
}

} // verus!
