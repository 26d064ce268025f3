use ac_ffmpeg::{
    CodecParameters, Error, FrameRate, NativeStream, SideData, SideDataType, Stream, TimeBase,
    Timestamp,
};

fn native(start_time: i64, duration: i64, nb_frames: i64, rate: FrameRate) -> NativeStream {
    NativeStream {
        time_base: TimeBase::new(1, 1000),
        start_time,
        duration,
        nb_frames,
        r_frame_rate: rate,
        codec_parameters: CodecParameters { raw: 77 },
        id: 3,
        metadata: Vec::new(),
        side_data: Vec::new(),
    }
}

fn plain_stream() -> Stream {
    Stream::from_native(native(0, 0, 0, FrameRate { num: 0, den: 1 }))
}

#[test]
fn time_base_round_trips() {
    let mut s = plain_stream();
    assert_eq!(s.time_base(), TimeBase::new(1, 1000));
    for (num, den) in [(1u32, 1u32), (1, 90000), (1001, 30000), (0, 7), (u32::MAX, u32::MAX)] {
        let tb = TimeBase::new(num, den);
        s.set_time_base(tb);
        assert_eq!(s.time_base(), tb);
    }
}

#[test]
fn positive_times_are_known() {
    let s = Stream::from_native(native(40, 120000, 3000, FrameRate { num: 30000, den: 1001 }));
    let tb = TimeBase::new(1, 1000);
    assert_eq!(s.start_time(), Timestamp::new(40, tb));
    assert_eq!(s.start_time().timestamp(), Some(40));
    assert_eq!(s.duration(), Timestamp::new(120000, tb));
    assert_eq!(s.frames(), Some(3000));
    assert_eq!(s.real_frame_rate(), Some(FrameRate { num: 30000, den: 1001 }));
}

#[test]
fn non_positive_times_are_unknown() {
    for raw in [0i64, -1, i64::MIN] {
        let s = Stream::from_native(native(raw, raw, raw, FrameRate { num: -1, den: 1 }));
        assert!(s.start_time().is_null());
        assert_eq!(s.start_time().time_base(), TimeBase::new(1, 1000));
        assert!(s.duration().is_null());
        assert_eq!(s.frames(), None);
        assert_eq!(s.real_frame_rate(), None);
    }
    let s = Stream::from_native(native(1, 1, 1, FrameRate { num: 0, den: 5 }));
    assert_eq!(s.real_frame_rate(), None);
    assert_eq!(s.frames(), Some(1));
    let s = Stream::from_native(native(1, 1, 1, FrameRate { num: 3, den: -1 }));
    assert_eq!(s.real_frame_rate(), None);
    let s = Stream::from_native(native(1, 1, 1, FrameRate { num: -3, den: 0 }));
    assert_eq!(s.real_frame_rate(), None);
}

#[test]
fn frame_rate_with_zero_denominator() {
    let s = Stream::from_native(native(1, 1, 1, FrameRate { num: 30, den: 0 }));
    assert_eq!(s.real_frame_rate(), Some(FrameRate { num: 30, den: 0 }));
    let s = Stream::from_native(native(1, 1, 1, FrameRate { num: -30, den: -1 }));
    assert_eq!(s.real_frame_rate(), Some(FrameRate { num: -30, den: -1 }));
}

#[test]
fn start_time_follows_time_base() {
    let mut s = Stream::from_native(native(10, 20, 1, FrameRate { num: 25, den: 1 }));
    let tb = TimeBase::new(1, 90000);
    s.set_time_base(tb);
    assert_eq!(s.start_time(), Timestamp::new(10, tb));
    assert_eq!(s.duration(), Timestamp::new(20, tb));
}

#[test]
fn codec_parameters_and_id_pass_through() {
    let mut s = plain_stream();
    assert_eq!(s.codec_parameters(), CodecParameters { raw: 77 });
    assert_eq!(s.stream_id(), 3);
    s.set_stream_id(-12);
    assert_eq!(s.stream_id(), -12);
}

#[test]
fn metadata_set_then_get() {
    let mut s = plain_stream();
    assert_eq!(s.get_metadata("title"), None);
    assert_eq!(s.set_metadata("title", "X"), Ok(()));
    assert_eq!(s.get_metadata("title"), Some("X"));
    assert_eq!(s.get_metadata("artist"), None);
}

#[test]
fn metadata_set_twice_last_wins() {
    let mut s = plain_stream();
    assert_eq!(s.set_metadata("title", "first"), Ok(()));
    assert_eq!(s.set_metadata("language", "eng"), Ok(()));
    assert_eq!(s.set_metadata("title", "second"), Ok(()));
    assert_eq!(s.get_metadata("title"), Some("second"));
    let dict = s.metadata_dict();
    assert_eq!(dict.len(), 2);
    let title: Vec<&(String, String)> = dict.iter().filter(|e| e.0 == "title").collect();
    assert_eq!(title.len(), 1);
    assert_eq!(title[0].1, "second");
}

#[test]
fn metadata_dict_merges_native_duplicates() {
    let mut n = native(0, 0, 0, FrameRate { num: 0, den: 1 });
    n.metadata = vec![
        ("title".to_string(), "a".to_string()),
        ("encoder".to_string(), "lavf".to_string()),
        ("title".to_string(), "b".to_string()),
    ];
    let s = Stream::from_native(n);
    assert_eq!(s.get_metadata("title"), Some("a"));
    let mut dict = s.metadata_dict();
    dict.sort();
    assert_eq!(
        dict,
        vec![
            ("encoder".to_string(), "lavf".to_string()),
            ("title".to_string(), "b".to_string()),
        ]
    );
}

#[test]
fn metadata_dict_merges_language_suffixes() {
    let mut n = native(0, 0, 0, FrameRate { num: 0, den: 1 });
    n.metadata = vec![
        ("title-eng".to_string(), "English".to_string()),
        ("handler_name".to_string(), "h".to_string()),
        ("title".to_string(), "plain".to_string()),
        ("title-fre".to_string(), "French".to_string()),
        ("-x".to_string(), "dash".to_string()),
        ("a-b-c".to_string(), "abc".to_string()),
    ];
    let s = Stream::from_native(n);
    let mut dict = s.metadata_dict();
    dict.sort();
    assert_eq!(
        dict,
        vec![
            ("-x".to_string(), "dash".to_string()),
            ("a-b".to_string(), "abc".to_string()),
            ("handler_name".to_string(), "h".to_string()),
            ("title".to_string(), "French".to_string()),
        ]
    );
}

#[test]
fn metadata_dict_single_suffixed_entry() {
    let mut n = native(0, 0, 0, FrameRate { num: 0, den: 1 });
    n.metadata = vec![("title-eng".to_string(), "X".to_string())];
    let s = Stream::from_native(n);
    assert_eq!(s.metadata_dict(), vec![("title".to_string(), "X".to_string())]);
    assert_eq!(s.get_metadata("title-eng"), Some("X"));
    assert_eq!(s.get_metadata("title"), None);
}

#[test]
fn metadata_with_nul_is_refused() {
    let mut s = plain_stream();
    assert_eq!(s.set_metadata("ti\0tle", "X"), Err(Error::InvalidMetadataKey));
    assert_eq!(s.set_metadata("ti\0tle", "X\0"), Err(Error::InvalidMetadataKey));
    assert_eq!(s.set_metadata("title", "X\0"), Err(Error::InvalidMetadataValue));
    assert!(s.metadata_dict().is_empty());
    assert_eq!(s.get_metadata("title"), None);
    assert_eq!(s.set_metadata("title", "X"), Ok(()));
    assert_eq!(s.get_metadata("title\0"), None);
    assert_eq!(Error::InvalidMetadataKey.message(), "invalid metadata key");
}

#[test]
fn side_data_refused_by_native_status() {
    let mut s = plain_stream();
    assert_eq!(s.side_data_added(SideDataType::from_raw(1), &[1, 2], -12), Err(Error::Native(-12)));
    assert_eq!(s.side_data().size_hint(), (0, Some(0)));
    assert_eq!(s.side_data_added(SideDataType::from_raw(1), &[1, 2], 0), Ok(()));
    let mut it = s.side_data();
    assert_eq!(it.size_hint(), (1, Some(1)));
    let d = it.next().unwrap();
    assert_eq!(d.data_type(), SideDataType::from_raw(1));
    assert_eq!(d.data(), &[1u8, 2][..]);
    assert_eq!(Error::Native(-12).message(), "native operation failed");
}

#[test]
fn side_data_add_then_iterate() {
    let mut n = native(0, 0, 0, FrameRate { num: 0, den: 1 });
    n.side_data = vec![SideData::new(SideDataType::from_raw(2), vec![9, 8])];
    let mut s = Stream::from_native(n);
    assert_eq!(s.side_data().size_hint(), (1, Some(1)));
    let bytes = [0u8, 255, 1, 0, 128];
    assert_eq!(s.add_side_data(SideDataType::from_raw(5), &bytes), Ok(()));
    let mut it = s.side_data();
    assert_eq!(it.size_hint(), (2, Some(2)));
    let first = it.next().unwrap();
    assert_eq!(first.data_type(), SideDataType::from_raw(2));
    assert_eq!(first.data(), &[9u8, 8][..]);
    assert_eq!(it.size_hint(), (1, Some(1)));
    let second = it.next().unwrap();
    assert_eq!(second.data_type().into_raw(), 5);
    assert_eq!(second.data(), &bytes[..]);
    assert_eq!(it.size_hint(), (0, Some(0)));
    assert!(it.next().is_none());
    assert_eq!(it.size_hint(), (0, Some(0)));
}

#[test]
fn side_data_empty_bytes() {
    let mut s = plain_stream();
    assert!(s.side_data().next().is_none());
    assert_eq!(s.add_side_data(SideDataType::from_raw(0), &[]), Ok(()));
    let mut it = s.side_data();
    let d = it.next().unwrap();
    assert!(d.data().is_empty());
    assert!(it.next().is_none());
}
