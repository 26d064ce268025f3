//! Stream descriptors: timing, codec parameters, metadata and side data of
//! one elementary stream of a container.
use vstd::prelude::*;
use vstd::string::{StrSliceExecFns, StringSliceAdditionalSpecFns};

use crate::error::Error;
use crate::time::{TimeBase, Timestamp};

verus! {

/// Kind of a side-data record, identified by its raw code.
#[derive(Debug, Clone, Copy, PartialEq, Eq, Structural)]
pub struct SideDataType {
    pub raw: i32,
}

impl SideDataType {
    /// Create a side-data type from its raw code.
    pub fn from_raw(raw: i32) -> (r: SideDataType)
        ensures
            r.raw == raw,
    {
        SideDataType { raw }
    }

    /// Get the raw code.
    pub fn into_raw(self) -> (r: i32)
        ensures
            r == self.raw,
    {
        self.raw
    }
}

/// A typed binary side-data record.
pub struct SideData {
    data_type: SideDataType,
    data: Vec<u8>,
}

impl View for SideData {
    type V = (SideDataType, Seq<u8>);

    closed spec fn view(&self) -> (SideDataType, Seq<u8>) {
        (self.data_type, self.data@)
    }
}

impl SideData {
    /// Create a side-data record.
    pub fn new(data_type: SideDataType, data: Vec<u8>) -> (r: SideData)
        ensures
            r@ == (data_type, data@),
    {
        SideData { data_type, data }
    }

    /// Get the type of the record.
    pub fn data_type(&self) -> (r: SideDataType)
        ensures
            r == self@.0,
    {
        self.data_type
    }

    /// Get the bytes of the record.
    pub fn data(&self) -> (r: &[u8])
        ensures
            r@ == self@.1,
    {
        self.data.as_slice()
    }
}

/// A frame rate: `num / den` frames per second.
#[derive(Debug, Clone, Copy, PartialEq, Eq, Structural)]
pub struct FrameRate {
    pub num: i32,
    pub den: i32,
}

impl FrameRate {
    /// Whether the rate, read as a floating-point quotient, is at most zero.
    /// A zero denominator reads as an infinity of the numerator's sign, or as
    /// not-a-number for `0/0`, which is not at most zero.
    pub open spec fn at_most_zero(&self) -> bool {
        if self.den == 0 {
            self.num < 0
        } else {
            (self.num <= 0 && self.den > 0) || (self.num >= 0 && self.den < 0)
        }
    }
}

/// Codec parameters of a stream, carried through unchanged.
#[derive(Debug, Clone, Copy, PartialEq, Eq, Structural)]
pub struct CodecParameters {
    pub raw: u64,
}

/// The native side of a stream, as the container reader reports it.
pub struct NativeStream {
    pub time_base: TimeBase,
    pub start_time: i64,
    pub duration: i64,
    pub nb_frames: i64,
    pub r_frame_rate: FrameRate,
    pub codec_parameters: CodecParameters,
    pub id: i32,
    pub metadata: Vec<(String, String)>,
    pub side_data: Vec<SideData>,
}

/// Metadata entries as pairs of character sequences, in native order.
pub open spec fn metadata_model(v: Seq<(String, String)>) -> Seq<(Seq<char>, Seq<char>)> {
    v.map_values(|e: (String, String)| (e.0@, e.1@))
}

/// Side-data records as pairs of type and bytes, in native order.
pub open spec fn side_data_model(v: Seq<SideData>) -> Seq<(SideDataType, Seq<u8>)> {
    v.map_values(|e: SideData| e@)
}

/// What a stream descriptor holds: the cached time base and the native state.
pub ghost struct StreamModel {
    pub time_base: TimeBase,
    pub native_time_base: TimeBase,
    pub start_time: i64,
    pub duration: i64,
    pub nb_frames: i64,
    pub r_frame_rate: FrameRate,
    pub codec_parameters: CodecParameters,
    pub id: i32,
    pub metadata: Seq<(Seq<char>, Seq<char>)>,
    pub side_data: Seq<(SideDataType, Seq<u8>)>,
}

impl StreamModel {
    /// The descriptor after a time base is set: cache and native hint agree.
    pub open spec fn with_time_base(self, time_base: TimeBase) -> StreamModel {
        StreamModel { time_base, native_time_base: time_base, ..self }
    }

    /// The descriptor after `key` is set to `value`.
    pub open spec fn with_metadata(self, key: Seq<char>, value: Seq<char>) -> StreamModel {
        StreamModel { metadata: set_entry(self.metadata, key, value), ..self }
    }

    /// The descriptor after a side-data record is added.
    pub open spec fn with_side_data(self, data_type: SideDataType, data: Seq<u8>) -> StreamModel {
        StreamModel { side_data: self.side_data.push((data_type, data)), ..self }
    }
}

impl NativeStream {
    /// The model of a descriptor freshly made from this native state.
    pub open spec fn model(&self) -> StreamModel {
        StreamModel {
            time_base: self.time_base,
            native_time_base: self.time_base,
            start_time: self.start_time,
            duration: self.duration,
            nb_frames: self.nb_frames,
            r_frame_rate: self.r_frame_rate,
            codec_parameters: self.codec_parameters,
            id: self.id,
            metadata: metadata_model(self.metadata@),
            side_data: side_data_model(self.side_data@),
        }
    }
}

/// A timestamp read from the native side: non-positive raw values are unknown.
pub open spec fn stream_ticks(raw: i64) -> Option<i64> {
    if raw > 0 {
        Some(raw)
    } else {
        None
    }
}

/// Check whether a string holds a NUL character.
fn contains_nul(s: &str) -> (r: bool)
    ensures
        r == has_nul(s.spec_bytes()),
{
    let b = s.as_bytes();
    let mut i: usize = 0;
    while i < b.len()
        invariant
            b@ == s.spec_bytes(),
            i <= b@.len(),
            forall|j: int| 0 <= j < i ==> b@[j] != 0,
        decreases b@.len() - i,
    {
        if b[i] == 0 {
            return true;
        }
        i = i + 1;
    }
    false
}

/// Whether a byte sequence holds a NUL byte.
pub open spec fn has_nul(b: Seq<u8>) -> bool {
    exists|i: int| 0 <= i < b.len() && b[i] == 0
}

/// Whether index `i` holds the first entry of `md` under `key`.
pub open spec fn is_first_match(md: Seq<(Seq<char>, Seq<char>)>, key: Seq<char>, i: int) -> bool {
    &&& 0 <= i < md.len()
    &&& md[i].0 == key
    &&& forall|j: int| 0 <= j < i ==> md[j].0 != key
}

/// The value of the first entry under `key`, if any.
pub open spec fn lookup(md: Seq<(Seq<char>, Seq<char>)>, key: Seq<char>) -> Option<Seq<char>> {
    if exists|i: int| is_first_match(md, key, i) {
        Some(md[choose|i: int| is_first_match(md, key, i)].1)
    } else {
        None
    }
}

/// The entries of `md` whose key differs from `key`, in order.
pub open spec fn without_key(md: Seq<(Seq<char>, Seq<char>)>, key: Seq<char>) -> Seq<
    (Seq<char>, Seq<char>),
>
    decreases md.len(),
{
    if md.len() == 0 {
        md
    } else {
        let rest = without_key(md.drop_last(), key);
        if md.last().0 == key {
            rest
        } else {
            rest.push(md.last())
        }
    }
}

/// The entries after setting `key` to `value`: earlier entries under the key
/// are dropped and the new entry comes last.
pub open spec fn set_entry(md: Seq<(Seq<char>, Seq<char>)>, key: Seq<char>, value: Seq<char>) -> Seq<
    (Seq<char>, Seq<char>),
> {
    without_key(md, key).push((key, value))
}

/// The mapping that walking all entries in order yields: a later entry under
/// a key replaces an earlier one.
pub open spec fn dict_of(md: Seq<(Seq<char>, Seq<char>)>) -> Map<Seq<char>, Seq<char>>
    decreases md.len(),
{
    if md.len() == 0 {
        Map::empty()
    } else {
        dict_of(md.drop_last()).insert(md.last().0, md.last().1)
    }
}

/// Index of the last `-` among the first `n` characters of `k`, or -1.
pub open spec fn last_dash_before(k: Seq<char>, n: int) -> int
    decreases n,
{
    if n <= 0 {
        -1
    } else if k[n - 1] == '-' {
        n - 1
    } else {
        last_dash_before(k, n - 1)
    }
}

/// The key with its `-xx` suffix (a language or variant tag after the last
/// `-`) removed: `title-eng` becomes `title`. A key without a `-` after its
/// first character is its own base key.
pub open spec fn base_key(k: Seq<char>) -> Seq<char> {
    let d = last_dash_before(k, k.len() as int);
    if d > 0 {
        k.take(d)
    } else {
        k
    }
}

/// The entries with every key replaced by its base key, in order.
pub open spec fn merged_entries(md: Seq<(Seq<char>, Seq<char>)>) -> Seq<(Seq<char>, Seq<char>)> {
    md.map_values(|e: (Seq<char>, Seq<char>)| (base_key(e.0), e.1))
}

/// No two entries share a key.
pub open spec fn keys_unique(md: Seq<(Seq<char>, Seq<char>)>) -> bool {
    forall|i: int, j: int| 0 <= i < j < md.len() ==> md[i].0 != md[j].0
}

proof fn lemma_first_match_unique(md: Seq<(Seq<char>, Seq<char>)>, key: Seq<char>, i: int, j: int)
    requires
        is_first_match(md, key, i),
        is_first_match(md, key, j),
    ensures
        i == j,
{
    if i < j {
        assert(md[i].0 != key);
    } else if j < i {
        assert(md[j].0 != key);
    }
}

proof fn lemma_lookup_at(md: Seq<(Seq<char>, Seq<char>)>, key: Seq<char>, i: int)
    requires
        is_first_match(md, key, i),
    ensures
        lookup(md, key) == Some(md[i].1),
{
    let c = choose|c: int| is_first_match(md, key, c);
    lemma_first_match_unique(md, key, i, c);
}

proof fn lemma_without_key_has_no_key(md: Seq<(Seq<char>, Seq<char>)>, key: Seq<char>)
    ensures
        forall|i: int| 0 <= i < without_key(md, key).len() ==> without_key(md, key)[i].0 != key,
    decreases md.len(),
{
    if md.len() > 0 {
        let rest = without_key(md.drop_last(), key);
        lemma_without_key_has_no_key(md.drop_last(), key);
        if md.last().0 != key {
            assert forall|i: int| 0 <= i < rest.push(md.last()).len() implies rest.push(
                md.last(),
            )[i].0 != key by {
                if i < rest.len() {
                    assert(rest.push(md.last())[i] == rest[i]);
                }
            }
        }
    }
}

proof fn lemma_dict_of_update(md: Seq<(Seq<char>, Seq<char>)>, j: int, value: Seq<char>)
    requires
        keys_unique(md),
        0 <= j < md.len(),
    ensures
        dict_of(md.update(j, (md[j].0, value))) == dict_of(md).insert(md[j].0, value),
    decreases md.len(),
{
    let key = md[j].0;
    let upd = md.update(j, (key, value));
    assert(upd.drop_last() =~= if j == md.len() - 1 {
        md.drop_last()
    } else {
        md.drop_last().update(j, (key, value))
    });
    if j == md.len() - 1 {
        assert(dict_of(upd) =~= dict_of(md).insert(key, value));
    } else {
        lemma_dict_of_update(md.drop_last(), j, value);
        assert(md.last().0 != key);
        assert(dict_of(upd) =~= dict_of(md).insert(key, value));
    }
}

/// Index of the first entry of `entries` under `key`.
fn position_of(entries: &Vec<(String, String)>, key: &String) -> (r: Option<usize>)
    ensures
        match r {
            Some(i) => is_first_match(metadata_model(entries@), key@, i as int),
            None => forall|i: int|
                0 <= i < entries@.len() ==> metadata_model(entries@)[i].0 != key@,
        },
{
    let n = entries.len();
    let mut i: usize = 0;
    while i < n
        invariant
            n == entries@.len(),
            i <= n,
            forall|j: int| 0 <= j < i ==> metadata_model(entries@)[j].0 != key@,
        decreases n - i,
    {
        if entries[i].0 == *key {
            return Some(i);
        }
        i = i + 1;
    }
    None
}

/// The base key of `key`, with its `-xx` suffix removed.
fn base_key_of(key: &String) -> (r: String)
    ensures
        r@ == base_key(key@),
{
    let k = key.as_str();
    let n = k.unicode_len();
    let mut i: usize = n;
    while i > 0 && k.get_char(i - 1) != '-'
        invariant
            n == key@.len(),
            k@ == key@,
            i <= n,
            last_dash_before(key@, n as int) == last_dash_before(key@, i as int),
        decreases i,
    {
        i = i - 1;
    }
    if i > 1 {
        k.substring_char(0, i - 1).to_owned()
    } else {
        k.to_owned()
    }
}

/// Stream descriptor.
pub struct Stream {
    native: NativeStream,
    time_base: TimeBase,
}

impl View for Stream {
    type V = StreamModel;

    closed spec fn view(&self) -> StreamModel {
        StreamModel {
            time_base: self.time_base,
            native_time_base: self.native.time_base,
            start_time: self.native.start_time,
            duration: self.native.duration,
            nb_frames: self.native.nb_frames,
            r_frame_rate: self.native.r_frame_rate,
            codec_parameters: self.native.codec_parameters,
            id: self.native.id,
            metadata: metadata_model(self.native.metadata@),
            side_data: side_data_model(self.native.side_data@),
        }
    }
}

impl Stream {
    /// The cached time base never differs from the native one.
    pub open spec fn wf(&self) -> bool {
        self@.time_base == self@.native_time_base
    }

    /// Create a descriptor over a native stream, caching its time base.
    pub fn from_native(native: NativeStream) -> (r: Stream)
        ensures
            r.wf(),
            r@ == native.model(),
    {
        let time_base = native.time_base;
        Stream { native, time_base }
    }

    /// Get stream time base.
    pub fn time_base(&self) -> (r: TimeBase)
        ensures
            r == self@.time_base,
    {
        self.time_base
    }

    /// Provide a hint to the muxer about the desired time base.
    pub fn set_time_base(&mut self, time_base: TimeBase)
        ensures
            final(self).wf(),
            final(self)@ == old(self)@.with_time_base(time_base),
    {
        self.time_base = time_base;
        self.native.time_base = time_base;
    }

    /// Get the pts of the first frame of the stream in presentation order.
    pub fn start_time(&self) -> (r: Timestamp)
        ensures
            r.ticks() == stream_ticks(self@.start_time),
            r.base() == self@.time_base,
    {
        let pts = self.native.start_time;
        if pts > 0 {
            Timestamp::new(pts, self.time_base)
        } else {
            Timestamp::null(self.time_base)
        }
    }

    /// Get the duration of the stream.
    pub fn duration(&self) -> (r: Timestamp)
        ensures
            r.ticks() == stream_ticks(self@.duration),
            r.base() == self@.time_base,
    {
        let pts = self.native.duration;
        if pts > 0 {
            Timestamp::new(pts, self.time_base)
        } else {
            Timestamp::null(self.time_base)
        }
    }

    /// Get the number of frames in the stream.
    ///
    /// Depending on the stream and the demuxer, the number may count only
    /// the keyframes.
    pub fn frames(&self) -> (r: Option<u64>)
        ensures
            r == (if self@.nb_frames <= 0 {
                None
            } else {
                Some(self@.nb_frames as u64)
            }),
    {
        let count = self.native.nb_frames;
        if count <= 0 {
            None
        } else {
            Some(count as u64)
        }
    }

    /// Get the real frame rate, absent when it reads as at most zero.
    pub fn real_frame_rate(&self) -> (r: Option<FrameRate>)
        ensures
            r == (if self@.r_frame_rate.at_most_zero() {
                None
            } else {
                Some(self@.r_frame_rate)
            }),
    {
        let fps = self.native.r_frame_rate;
        let at_most_zero = if fps.den == 0 {
            fps.num < 0
        } else {
            (fps.num <= 0 && fps.den > 0) || (fps.num >= 0 && fps.den < 0)
        };
        if at_most_zero {
            None
        } else {
            Some(fps)
        }
    }

    /// Get codec parameters.
    pub fn codec_parameters(&self) -> (r: CodecParameters)
        ensures
            r == self@.codec_parameters,
    {
        self.native.codec_parameters
    }

    /// Get stream id.
    pub fn stream_id(&self) -> (r: i32)
        ensures
            r == self@.id,
    {
        self.native.id
    }

    /// Set stream id.
    pub fn set_stream_id(&mut self, id: i32)
        ensures
            final(self)@ == (StreamModel { id, ..old(self)@ }),
    {
        self.native.id = id;
    }

    /// Get the value of the first metadata entry under `key`.
    ///
    /// A key holding a NUL character is no valid key and matches nothing.
    pub fn get_metadata(&self, key: &str) -> (r: Option<&str>)
        ensures
            has_nul(key.spec_bytes()) ==> r is None,
            !has_nul(key.spec_bytes()) ==> match r {
                Some(v) => lookup(self@.metadata, key@) == Some(v@),
                None => lookup(self@.metadata, key@) is None,
            },
    {
        if contains_nul(key) {
            return None;
        }
        let k = key.to_owned();
        match position_of(&self.native.metadata, &k) {
            Some(i) => {
                proof {
                    lemma_lookup_at(self@.metadata, key@, i as int);
                }
                Some(self.native.metadata[i].1.as_str())
            },
            None => None,
        }
    }

    /// Set `key` to `value`. A key or value holding a NUL character is refused.
    ///
    /// How a native dictionary orders entries after an overwrite is its own
    /// affair; this descriptor fixes one rule of its own: every entry under the
    /// key is dropped and one new entry is appended at the end.
    pub fn set_metadata(&mut self, key: &str, value: &str) -> (r: Result<(), Error>)
        ensures
            has_nul(key.spec_bytes()) ==> r == Err::<(), Error>(Error::InvalidMetadataKey)
                && final(self)@ == old(self)@,
            !has_nul(key.spec_bytes()) && has_nul(value.spec_bytes()) ==> r == Err::<(), Error>(
                Error::InvalidMetadataValue,
            ) && final(self)@ == old(self)@,
            !has_nul(key.spec_bytes()) && !has_nul(value.spec_bytes()) ==> r == Ok::<(), Error>(())
                && final(self)@ == old(self)@.with_metadata(key@, value@),
    {
        if contains_nul(key) {
            return Err(Error::InvalidMetadataKey);
        }
        if contains_nul(value) {
            return Err(Error::InvalidMetadataValue);
        }
        let k = key.to_owned();
        let v = value.to_owned();
        let ghost mm = self@.metadata;
        let n = self.native.metadata.len();
        let mut kept: Vec<(String, String)> = Vec::new();
        let mut i: usize = 0;
        while i < n
            invariant
                self@ == old(self)@,
                mm == self@.metadata,
                n == mm.len(),
                i <= n,
                metadata_model(kept@) == without_key(mm.take(i as int), k@),
            decreases n - i,
        {
            let ghost before = kept@;
            let e = &self.native.metadata[i];
            assert(mm.take(i + 1).drop_last() =~= mm.take(i as int));
            assert(mm[i as int] == (e.0@, e.1@));
            if !(e.0 == k) {
                kept.push((e.0.clone(), e.1.clone()));
                assert(metadata_model(kept@) =~= metadata_model(before).push(mm[i as int]));
            }
            i = i + 1;
        }
        let ghost before = kept@;
        kept.push((k, v));
        assert(mm.take(n as int) =~= mm);
        assert(metadata_model(kept@) =~= metadata_model(before).push((key@, value@)));
        self.native.metadata = kept;
        Ok(())
    }

    /// Collect all metadata entries into a mapping with one entry per base
    /// key: entries whose keys differ only in a `-xx` suffix are merged under
    /// the base key, and of entries under the same base key the one walked
    /// last wins.
    pub fn metadata_dict(&self) -> (r: Vec<(String, String)>)
        ensures
            keys_unique(metadata_model(r@)),
            dict_of(metadata_model(r@)) == dict_of(merged_entries(self@.metadata)),
    {
        let ghost mm = merged_entries(self@.metadata);
        let n = self.native.metadata.len();
        let mut res: Vec<(String, String)> = Vec::new();
        let mut i: usize = 0;
        while i < n
            invariant
                mm == merged_entries(self@.metadata),
                n == mm.len(),
                i <= n,
                keys_unique(metadata_model(res@)),
                dict_of(metadata_model(res@)) == dict_of(mm.take(i as int)),
            decreases n - i,
        {
            let ghost before = metadata_model(res@);
            let e = &self.native.metadata[i];
            let key = base_key_of(&e.0);
            assert(mm.take(i + 1).drop_last() =~= mm.take(i as int));
            assert(mm[i as int] == (key@, e.1@));
            match position_of(&res, &key) {
                Some(j) => {
                    res.set(j, (key, e.1.clone()));
                    proof {
                        lemma_dict_of_update(before, j as int, e.1@);
                        assert(metadata_model(res@) =~= before.update(
                            j as int,
                            (before[j as int].0, e.1@),
                        ));
                    }
                },
                None => {
                    res.push((key, e.1.clone()));
                    assert(metadata_model(res@) =~= before.push(mm[i as int]));
                    assert(metadata_model(res@).drop_last() =~= before);
                },
            }
            i = i + 1;
        }
        assert(mm.take(n as int) =~= mm);
        res
    }

    /// Get stream side data, in native order.
    pub fn side_data(&self) -> (r: SideDataIter<'_>)
        ensures
            r.wf(),
            r.remaining() == self@.side_data,
    {
        let len = self.native.side_data.len();
        assert(self@.side_data.subrange(0, len as int) =~= self@.side_data);
        SideDataIter { stream: self, index: 0, len }
    }

    /// Add stream side data: a copy of `data` becomes the last record.
    pub fn add_side_data(&mut self, data_type: SideDataType, data: &[u8]) -> (r: Result<
        (),
        Error,
    >)
        ensures
            r == Ok::<(), Error>(()),
            final(self)@ == old(self)@.with_side_data(data_type, data@),
    {
        self.side_data_added(data_type, data, 0)
    }

    /// Settle an append of side data once the native side has answered with
    /// `status`: a negative status is a refusal, reported with its code, and
    /// leaves the records as they were; otherwise a copy of `data` becomes the
    /// last record.
    pub fn side_data_added(&mut self, data_type: SideDataType, data: &[u8], status: i32) -> (r:
        Result<(), Error>)
        ensures
            status < 0 ==> r == Err::<(), Error>(Error::Native(status)) && final(self)@ == old(
                self,
            )@,
            status >= 0 ==> r == Ok::<(), Error>(()) && final(self)@ == old(self)@.with_side_data(
                data_type,
                data@,
            ),
    {
        if status < 0 {
            return Err(Error::Native(status));
        }
        let ghost before = self.native.side_data@;
        let record = SideData { data_type, data: vstd::slice::slice_to_vec(data) };
        self.native.side_data.push(record);
        assert(side_data_model(self.native.side_data@) =~= side_data_model(before).push(
            (data_type, data@),
        ));
        Ok(())
    }
}

/// Iterator over stream side data; its length is fixed when it is made.
pub struct SideDataIter<'a> {
    stream: &'a Stream,
    index: usize,
    len: usize,
}

impl<'a> SideDataIter<'a> {
    /// The records not yet returned.
    pub closed spec fn remaining(&self) -> Seq<(SideDataType, Seq<u8>)> {
        self.stream@.side_data.subrange(self.index as int, self.len as int)
    }

    /// The position and the length stay within the stream's records.
    pub closed spec fn wf(&self) -> bool {
        self.index <= self.len && self.len == self.stream@.side_data.len()
    }

    /// Return the next record, if any.
    pub fn next(&mut self) -> (r: Option<&'a SideData>)
        requires
            old(self).wf(),
        ensures
            final(self).wf(),
            match r {
                Some(d) => old(self).remaining().len() > 0 && d@ == old(self).remaining()[0]
                    && final(self).remaining() == old(self).remaining().drop_first(),
                None => old(self).remaining().len() == 0 && final(self).remaining() == old(
                    self,
                ).remaining(),
            },
    {
        if self.index == self.len {
            return None;
        }
        let stream: &'a Stream = self.stream;
        let side_data = &stream.native.side_data[self.index];
        self.index = self.index + 1;
        assert(self.remaining() =~= old(self).remaining().drop_first());
        Some(side_data)
    }

    /// The number of records left, as exact lower and upper bounds.
    pub fn size_hint(&self) -> (r: (usize, Option<usize>))
        requires
            self.wf(),
        ensures
            r.0 == self.remaining().len(),
            r.1 == Some(r.0),
    {
        let hint = self.len - self.index;
        (hint, Some(hint))
    }
}

/// Setting a time base and then reading it gives back exactly that time
/// base, and the native hint agrees with the cached value.
pub proof fn lemma_time_base_round_trip(m: StreamModel, time_base: TimeBase)
    ensures
        m.with_time_base(time_base).time_base == time_base,
        m.with_time_base(time_base).native_time_base == time_base,
{
}

/// Looking up a key right after setting it gives the value just set.
pub proof fn lemma_get_after_set(m: StreamModel, key: Seq<char>, value: Seq<char>)
    ensures
        lookup(m.with_metadata(key, value).metadata, key) == Some(value),
{
    let md = set_entry(m.metadata, key, value);
    let rest = without_key(m.metadata, key);
    lemma_without_key_has_no_key(m.metadata, key);
    assert forall|j: int| 0 <= j < rest.len() implies md[j].0 != key by {
        assert(md[j] == rest[j]);
    }
    assert(is_first_match(md, key, rest.len() as int));
    lemma_lookup_at(md, key, rest.len() as int);
}

/// After a key is set, walking all entries maps its base key to the value
/// set last, however often it was set before.
pub proof fn lemma_dict_after_set(m: StreamModel, key: Seq<char>, value: Seq<char>)
    ensures
        dict_of(merged_entries(m.with_metadata(key, value).metadata)).contains_key(base_key(key)),
        dict_of(merged_entries(m.with_metadata(key, value).metadata))[base_key(key)] == value,
{
    let md = merged_entries(set_entry(m.metadata, key, value));
    assert(md.len() > 0);
    assert(md.last() == (base_key(key), value));
}

/// Adding a side-data record adds exactly one record, last, with the given
/// type and bytes, and keeps the records before it.
pub proof fn lemma_side_data_added(m: StreamModel, data_type: SideDataType, data: Seq<u8>)
    ensures
        m.with_side_data(data_type, data).side_data.len() == m.side_data.len() + 1,
        m.with_side_data(data_type, data).side_data.last() == (data_type, data),
        m.with_side_data(data_type, data).side_data.drop_last() == m.side_data,
{
    assert(m.with_side_data(data_type, data).side_data.drop_last() =~= m.side_data);
}

} // verus!
