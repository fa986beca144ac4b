use av_decoders::details::{FrameRate, VideoDetails};
use av_decoders::helpers::ffmpeg::PixelFormat;
use av_decoders::helpers::ffms2::{
    get_video_details, layout_to_pixel_format, output_request, pixel_format_names,
    pixel_format_to_video_info, thread_count, video_info_to_pixel_format, PixelFormats,
    SourceProbe,
};
use av_decoders::helpers::vapoursynth::{
    get_bit_depth, get_chroma_sampling, get_frame_rate, get_num_frames, get_resolution,
    parse_video_details, ColorFamily, Format, Framerate, Property, Resolution, VideoInfo,
};
use av_decoders::helpers::y4m::{map_y4m_color_space, Colorspace};
use av_decoders::layout::ChromaLayout;
use av_decoders::DecoderError;

fn table() -> PixelFormats {
    // identifiers unlike their positions, as a codec library would hand them out
    let ids: Vec<i32> = (0..20).map(|i| 1000 - 7 * i).collect();
    PixelFormats::from_ids(&ids).unwrap()
}

#[test]
fn frame_rate_is_reduced_to_lowest_terms() {
    let r = FrameRate::new(60, 2);
    assert_eq!((r.numer(), r.denom()), (30, 1));
    let r = FrameRate::new(30000, 1001);
    assert_eq!((r.numer(), r.denom()), (30000, 1001));
    let r = FrameRate::new(48000, 2002);
    assert_eq!((r.numer(), r.denom()), (24000, 1001));
    let r = FrameRate::new(0, 5);
    assert_eq!((r.numer(), r.denom()), (0, 1));
    let r = FrameRate::new(7, 7);
    assert_eq!((r.numer(), r.denom()), (1, 1));
}

#[test]
fn frame_rate_keeps_its_denominator_positive() {
    let r = FrameRate::new(1, -2);
    assert_eq!((r.numer(), r.denom()), (-1, 2));
    let r = FrameRate::new(-6, -4);
    assert_eq!((r.numer(), r.denom()), (3, 2));
    let r = FrameRate::new(i32::MAX, -i32::MAX);
    assert_eq!((r.numer(), r.denom()), (-1, 1));
}

#[test]
fn whole_frame_rates_are_over_one() {
    let r = FrameRate::whole(25);
    assert_eq!((r.numer(), r.denom()), (25, 1));
}

#[test]
fn default_details_are_640_by_480_at_30() {
    let d = VideoDetails::default();
    assert_eq!(d.width, 640);
    assert_eq!(d.height, 480);
    assert_eq!(d.bit_depth, 8);
    assert_eq!(d.chroma_sampling, ChromaLayout::Yuv420);
    assert_eq!((d.frame_rate.numer(), d.frame_rate.denom()), (30, 1));
    assert_eq!(d.total_frames, None);
}

#[test]
fn chroma_dimensions_follow_the_layout() {
    assert_eq!(ChromaLayout::Yuv420.chroma_dimensions(320, 240), Some((160, 120)));
    assert_eq!(ChromaLayout::Yuv422.chroma_dimensions(320, 240), Some((160, 240)));
    assert_eq!(ChromaLayout::Yuv444.chroma_dimensions(320, 240), Some((320, 240)));
    assert_eq!(ChromaLayout::Monochrome.chroma_dimensions(320, 240), None);
    assert_eq!(ChromaLayout::Yuv420.chroma_dimensions(321, 240), None);
    assert_eq!(ChromaLayout::Yuv420.chroma_dimensions(320, 241), None);
    assert_eq!(ChromaLayout::Yuv422.chroma_dimensions(320, 241), Some((160, 241)));
    assert_eq!(ChromaLayout::Yuv422.chroma_dimensions(321, 240), None);
    assert_eq!(ChromaLayout::Yuv444.chroma_dimensions(321, 241), Some((321, 241)));
    assert!(ChromaLayout::Yuv420.has_chroma());
    assert!(!ChromaLayout::Monochrome.has_chroma());
}

#[test]
fn format_names_come_in_the_order_of_the_table() {
    let names = pixel_format_names();
    assert_eq!(names.len(), 20);
    assert_eq!(names[0], "yuv420p");
    assert_eq!(names[3], "gray8");
    assert_eq!(names[4], "yuv420p10le");
    assert_eq!(names[5], "yuv420p10be");
    assert_eq!(names[10], "gray10le");
    assert_eq!(names[19], "gray12be");
    let ids: Vec<i32> = (100..120).collect();
    let t = PixelFormats::from_ids(&ids).unwrap();
    assert_eq!(t.yuv420p, 100);
    assert_eq!(t.gray8, 103);
    assert_eq!(t.yuv420p10be, 105);
    assert_eq!(t.yuv444p12le, 116);
    assert_eq!(t.gray12be, 119);
}

#[test]
fn a_table_needs_one_identifier_per_name() {
    assert!(PixelFormats::from_ids(&[]).is_none());
    assert!(PixelFormats::from_ids(&[1; 19]).is_none());
    assert!(PixelFormats::from_ids(&[1; 21]).is_none());
    assert!(PixelFormats::from_ids(&[1; 20]).is_some());
}

#[test]
fn a_table_with_failed_or_repeated_lookups_is_not_resolved() {
    assert!(table().is_resolved());
    let mut ids: Vec<i32> = (0..20).collect();
    assert!(PixelFormats::from_ids(&ids).unwrap().is_resolved());
    ids[7] = -1;
    assert!(!PixelFormats::from_ids(&ids).unwrap().is_resolved());
    ids[7] = 3;
    assert!(!PixelFormats::from_ids(&ids).unwrap().is_resolved());
    ids[7] = 7;
    ids[19] = 0;
    assert!(!PixelFormats::from_ids(&ids).unwrap().is_resolved());
    assert!(!PixelFormats::from_ids(&[-1; 20]).unwrap().is_resolved());
}

#[test]
fn native_formats_map_to_depth_and_layout() {
    let t = table();
    let expect = [
        (t.yuv420p, 8, ChromaLayout::Yuv420),
        (t.yuv422p, 8, ChromaLayout::Yuv422),
        (t.yuv444p, 8, ChromaLayout::Yuv444),
        (t.gray8, 8, ChromaLayout::Monochrome),
        (t.yuv420p10le, 10, ChromaLayout::Yuv420),
        (t.yuv420p10be, 10, ChromaLayout::Yuv420),
        (t.yuv422p10le, 10, ChromaLayout::Yuv422),
        (t.yuv422p10be, 10, ChromaLayout::Yuv422),
        (t.yuv444p10le, 10, ChromaLayout::Yuv444),
        (t.yuv444p10be, 10, ChromaLayout::Yuv444),
        (t.gray10le, 10, ChromaLayout::Monochrome),
        (t.gray10be, 10, ChromaLayout::Monochrome),
        (t.yuv420p12le, 12, ChromaLayout::Yuv420),
        (t.yuv420p12be, 12, ChromaLayout::Yuv420),
        (t.yuv422p12le, 12, ChromaLayout::Yuv422),
        (t.yuv422p12be, 12, ChromaLayout::Yuv422),
        (t.yuv444p12le, 12, ChromaLayout::Yuv444),
        (t.yuv444p12be, 12, ChromaLayout::Yuv444),
        (t.gray12le, 12, ChromaLayout::Monochrome),
        (t.gray12be, 12, ChromaLayout::Monochrome),
    ];
    for (id, depth, layout) in expect {
        let (d, l) = pixel_format_to_video_info(&t, id).unwrap();
        assert_eq!((d, l), (depth, layout));
    }
}

#[test]
fn an_unknown_native_format_is_reported_with_its_number() {
    let t = table();
    match pixel_format_to_video_info(&t, 77) {
        Err(DecoderError::UnsupportedFormat { fmt }) => {
            assert_eq!(fmt, "Unsupported pixel format: 77")
        }
        other => panic!("unexpected {other:?}"),
    }
    match pixel_format_to_video_info(&t, -1) {
        Err(DecoderError::UnsupportedFormat { fmt }) => {
            assert_eq!(fmt, "Unsupported pixel format: -1")
        }
        other => panic!("unexpected {other:?}"),
    }
}

#[test]
fn depth_and_subsampling_map_to_little_endian_formats() {
    let t = table();
    assert_eq!(video_info_to_pixel_format(&t, 8, (1, 1)).unwrap(), t.yuv420p);
    assert_eq!(video_info_to_pixel_format(&t, 8, (1, 0)).unwrap(), t.yuv422p);
    assert_eq!(video_info_to_pixel_format(&t, 8, (0, 0)).unwrap(), t.yuv444p);
    assert_eq!(video_info_to_pixel_format(&t, 10, (1, 1)).unwrap(), t.yuv420p10le);
    assert_eq!(video_info_to_pixel_format(&t, 10, (1, 0)).unwrap(), t.yuv422p10le);
    assert_eq!(video_info_to_pixel_format(&t, 10, (0, 0)).unwrap(), t.yuv444p10le);
    assert_eq!(video_info_to_pixel_format(&t, 12, (1, 1)).unwrap(), t.yuv420p12le);
    assert_eq!(video_info_to_pixel_format(&t, 12, (1, 0)).unwrap(), t.yuv422p12le);
    assert_eq!(video_info_to_pixel_format(&t, 12, (0, 0)).unwrap(), t.yuv444p12le);
}

#[test]
fn unsupported_depth_or_subsampling_has_no_native_format() {
    let t = table();
    for (depth, ss) in [
        (9u8, (1u8, 1u8)),
        (16, (0, 0)),
        (0, (0, 0)),
        (8, (2, 1)),
        (8, (2, 2)),
        (10, (255, 255)),
        (12, (255, 1)),
        // pairs that add up like a supported pair but are none
        (8, (0, 1)),
        (8, (2, 0)),
        (8, (0, 2)),
        (10, (0, 1)),
        (10, (2, 0)),
        (12, (0, 2)),
        (12, (0, 1)),
    ] {
        match video_info_to_pixel_format(&t, depth, ss) {
            Err(DecoderError::UnsupportedFormat { fmt }) => {
                assert_eq!(fmt, "Unsupported bit depth and subsampling combination")
            }
            other => panic!("unexpected {other:?}"),
        }
    }
}

#[test]
fn only_the_three_pairs_of_shifts_stand_for_a_layout() {
    let t = table();
    for depth in [8u8, 10, 12] {
        for w in 0..=3u8 {
            for h in 0..=3u8 {
                let supported = (w, h) == (1, 1) || (w, h) == (1, 0) || (w, h) == (0, 0);
                assert_eq!(video_info_to_pixel_format(&t, depth, (w, h)).is_ok(), supported);
                assert_eq!(output_request(&t, 16, 16, depth, (w, h)).is_ok(), supported);
            }
        }
    }
}

#[test]
fn depth_and_layout_map_to_native_formats_grey_included() {
    let t = table();
    assert_eq!(layout_to_pixel_format(&t, 8, ChromaLayout::Monochrome).unwrap(), t.gray8);
    assert_eq!(layout_to_pixel_format(&t, 10, ChromaLayout::Monochrome).unwrap(), t.gray10le);
    assert_eq!(layout_to_pixel_format(&t, 12, ChromaLayout::Monochrome).unwrap(), t.gray12le);
    assert_eq!(layout_to_pixel_format(&t, 8, ChromaLayout::Yuv420).unwrap(), t.yuv420p);
    assert_eq!(layout_to_pixel_format(&t, 10, ChromaLayout::Yuv422).unwrap(), t.yuv422p10le);
    assert_eq!(layout_to_pixel_format(&t, 12, ChromaLayout::Yuv444).unwrap(), t.yuv444p12le);
    match layout_to_pixel_format(&t, 9, ChromaLayout::Monochrome) {
        Err(DecoderError::UnsupportedFormat { fmt }) => {
            assert_eq!(fmt, "Unsupported bit depth and subsampling combination")
        }
        other => panic!("unexpected {other:?}"),
    }
    let layouts = [
        ChromaLayout::Monochrome,
        ChromaLayout::Yuv420,
        ChromaLayout::Yuv422,
        ChromaLayout::Yuv444,
    ];
    let mut seen: Vec<i32> = Vec::new();
    for depth in [8u8, 10, 12] {
        for layout in layouts {
            let id = layout_to_pixel_format(&t, depth, layout).unwrap();
            assert_eq!(pixel_format_to_video_info(&t, id).unwrap(), (depth as usize, layout));
            assert!(!seen.contains(&id));
            seen.push(id);
        }
    }
    assert_eq!(seen.len(), 12);
}

#[test]
fn to_native_then_from_native_round_trips() {
    let t = table();
    for depth in [8u8, 10, 12] {
        for (ss, layout) in [
            ((1u8, 1u8), ChromaLayout::Yuv420),
            ((1, 0), ChromaLayout::Yuv422),
            ((0, 0), ChromaLayout::Yuv444),
        ] {
            let id = video_info_to_pixel_format(&t, depth, ss).unwrap();
            let (d, l) = pixel_format_to_video_info(&t, id).unwrap();
            assert_eq!((d, l), (depth as usize, layout));
        }
    }
}

#[test]
fn from_native_then_to_native_round_trips_to_the_same_meaning() {
    let t = table();
    for id in t_ids(&t) {
        let (depth, layout) = pixel_format_to_video_info(&t, id).unwrap();
        let again = layout_to_pixel_format(&t, depth as u8, layout).unwrap();
        assert_eq!(pixel_format_to_video_info(&t, again).unwrap(), (depth, layout));
    }
}

fn t_ids(t: &PixelFormats) -> Vec<i32> {
    vec![
        t.yuv420p, t.yuv422p, t.yuv444p, t.gray8, t.yuv420p10le, t.yuv420p10be, t.yuv422p10le,
        t.yuv422p10be, t.yuv444p10le, t.yuv444p10be, t.gray10le, t.gray10be, t.yuv420p12le,
        t.yuv420p12be, t.yuv422p12le, t.yuv422p12be, t.yuv444p12le, t.yuv444p12be, t.gray12le,
        t.gray12be,
    ]
}

#[test]
fn indexed_source_details_prefer_the_scaled_size() {
    let t = table();
    let mut probe = SourceProbe {
        scaled_width: 0,
        scaled_height: -1,
        encoded_width: 1920,
        encoded_height: 1080,
        fps_numerator: 48000,
        fps_denominator: 2002,
        num_frames: 112,
        pixel_format: t.yuv420p10le,
    };
    let d = get_video_details(&t, &probe).unwrap();
    assert_eq!((d.width, d.height), (1920, 1080));
    assert_eq!(d.bit_depth, 10);
    assert_eq!(d.chroma_sampling, ChromaLayout::Yuv420);
    assert_eq!((d.frame_rate.numer(), d.frame_rate.denom()), (24000, 1001));
    assert_eq!(d.total_frames, Some(112));
    probe.scaled_width = 1280;
    probe.scaled_height = 720;
    let d = get_video_details(&t, &probe).unwrap();
    assert_eq!((d.width, d.height), (1280, 720));
    probe.pixel_format = 4242;
    assert!(matches!(get_video_details(&t, &probe), Err(DecoderError::UnsupportedFormat { .. })));
}

#[test]
fn output_requests_name_the_native_format_and_size() {
    let t = table();
    let r = output_request(&t, 1280, 720, 10, (1, 1)).unwrap();
    assert_eq!(r.pixel_format, t.yuv420p10le);
    assert_eq!((r.width, r.height), (1280, 720));
    assert!(matches!(
        output_request(&t, 1280, 720, 11, (1, 1)),
        Err(DecoderError::UnsupportedFormat { .. })
    ));
}

#[test]
fn thread_count_is_the_core_count_or_eight() {
    assert_eq!(thread_count(Some(4)), 4);
    assert_eq!(thread_count(Some(64)), 64);
    assert_eq!(thread_count(None), 8);
}

#[test]
fn streaming_formats_map_to_depth_and_layout() {
    let cases = [
        (PixelFormat::YUV420P, 8, ChromaLayout::Yuv420),
        (PixelFormat::YUV422P, 8, ChromaLayout::Yuv422),
        (PixelFormat::YUV444P, 8, ChromaLayout::Yuv444),
        (PixelFormat::YUVJ420P, 8, ChromaLayout::Yuv420),
        (PixelFormat::YUVJ422P, 8, ChromaLayout::Yuv422),
        (PixelFormat::YUVJ444P, 8, ChromaLayout::Yuv444),
        (PixelFormat::YUV420P10LE, 10, ChromaLayout::Yuv420),
        (PixelFormat::YUV422P10LE, 10, ChromaLayout::Yuv422),
        (PixelFormat::YUV444P10LE, 10, ChromaLayout::Yuv444),
        (PixelFormat::YUV420P12LE, 12, ChromaLayout::Yuv420),
        (PixelFormat::YUV422P12LE, 12, ChromaLayout::Yuv422),
        (PixelFormat::YUV444P12LE, 12, ChromaLayout::Yuv444),
    ];
    for (format, depth, layout) in cases {
        assert_eq!(format.video_info("x").unwrap(), (depth, layout));
    }
    match PixelFormat::Other.video_info("RGB24") {
        Err(DecoderError::UnsupportedFormat { fmt }) => assert_eq!(fmt, "RGB24"),
        other => panic!("unexpected {other:?}"),
    }
}

#[test]
fn container_colour_spaces_map_to_depth_and_layout() {
    let cases = [
        (Colorspace::Cmono, y4m::Colorspace::Cmono, ChromaLayout::Monochrome),
        (Colorspace::Cmono12, y4m::Colorspace::Cmono12, ChromaLayout::Monochrome),
        (Colorspace::C420, y4m::Colorspace::C420, ChromaLayout::Yuv420),
        (Colorspace::C420p10, y4m::Colorspace::C420p10, ChromaLayout::Yuv420),
        (Colorspace::C420p12, y4m::Colorspace::C420p12, ChromaLayout::Yuv420),
        (Colorspace::C420jpeg, y4m::Colorspace::C420jpeg, ChromaLayout::Yuv420),
        (Colorspace::C420paldv, y4m::Colorspace::C420paldv, ChromaLayout::Yuv420),
        (Colorspace::C420mpeg2, y4m::Colorspace::C420mpeg2, ChromaLayout::Yuv420),
        (Colorspace::C422, y4m::Colorspace::C422, ChromaLayout::Yuv422),
        (Colorspace::C422p10, y4m::Colorspace::C422p10, ChromaLayout::Yuv422),
        (Colorspace::C422p12, y4m::Colorspace::C422p12, ChromaLayout::Yuv422),
        (Colorspace::C444, y4m::Colorspace::C444, ChromaLayout::Yuv444),
        (Colorspace::C444p10, y4m::Colorspace::C444p10, ChromaLayout::Yuv444),
        (Colorspace::C444p12, y4m::Colorspace::C444p12, ChromaLayout::Yuv444),
    ];
    for (ours, theirs, layout) in cases {
        assert_eq!(ours.get_bit_depth(), theirs.get_bit_depth());
        assert_eq!(map_y4m_color_space(ours), layout);
    }
}

#[test]
fn a_10bit_stream_reports_depth_10_and_the_layout_of_its_8bit_twin() {
    assert_eq!(Colorspace::C420.get_bit_depth(), 8);
    assert_eq!(Colorspace::C420p10.get_bit_depth(), 10);
    assert_eq!(map_y4m_color_space(Colorspace::C420p10), map_y4m_color_space(Colorspace::C420));
    assert_eq!(map_y4m_color_space(Colorspace::C420p10), ChromaLayout::Yuv420);
    let t = table();
    let eight = pixel_format_to_video_info(&t, video_info_to_pixel_format(&t, 8, (1, 1)).unwrap());
    let ten = pixel_format_to_video_info(&t, video_info_to_pixel_format(&t, 10, (1, 1)).unwrap());
    assert_eq!(eight.unwrap(), (8, ChromaLayout::Yuv420));
    assert_eq!(ten.unwrap(), (10, ChromaLayout::Yuv420));
}

fn info(family: ColorFamily, bits: u8, w: u8, h: u8) -> VideoInfo {
    VideoInfo {
        format: Property::Constant(Format {
            color_family: family,
            bits_per_sample: bits,
            sub_sampling_w: w,
            sub_sampling_h: h,
        }),
        framerate: Property::Constant(Framerate { numerator: 60, denominator: 2 }),
        resolution: Property::Constant(Resolution { width: 320, height: 240 }),
        num_frames: 112,
    }
}

#[test]
fn node_metadata_parses_into_details() {
    let (d, total) = parse_video_details(info(ColorFamily::YUV, 10, 1, 1)).unwrap();
    assert_eq!(total, 112);
    assert_eq!((d.width, d.height), (320, 240));
    assert_eq!(d.bit_depth, 10);
    assert_eq!(d.chroma_sampling, ChromaLayout::Yuv420);
    assert_eq!((d.frame_rate.numer(), d.frame_rate.denom()), (30, 1));
    assert_eq!(d.total_frames, Some(112));
    assert_eq!(get_chroma_sampling(info(ColorFamily::YUV, 8, 1, 0)).unwrap(), ChromaLayout::Yuv422);
    assert_eq!(get_chroma_sampling(info(ColorFamily::YUV, 8, 0, 0)).unwrap(), ChromaLayout::Yuv444);
    assert_eq!(
        get_chroma_sampling(info(ColorFamily::Gray, 8, 0, 0)).unwrap(),
        ChromaLayout::Monochrome
    );
    assert_eq!(get_bit_depth(info(ColorFamily::YUV, 12, 1, 1)).unwrap(), 12);
    assert_eq!(get_resolution(info(ColorFamily::YUV, 12, 1, 1)).unwrap(), (320, 240));
    assert_eq!(get_num_frames(info(ColorFamily::YUV, 12, 1, 1)).unwrap(), 112);
    let rate = get_frame_rate(info(ColorFamily::YUV, 12, 1, 1)).unwrap();
    assert_eq!((rate.numer(), rate.denom()), (30, 1));
}

#[test]
fn variable_properties_are_refused_each_with_its_own_error() {
    let mut i = info(ColorFamily::YUV, 8, 1, 1);
    i.format = Property::Variable;
    assert!(matches!(get_num_frames(i), Err(DecoderError::VariableFormat)));
    assert!(matches!(get_bit_depth(i), Err(DecoderError::VariableFormat)));
    assert!(matches!(get_chroma_sampling(i), Err(DecoderError::VariableFormat)));
    assert!(matches!(parse_video_details(i), Err(DecoderError::VariableFormat)));
    let mut i = info(ColorFamily::YUV, 8, 1, 1);
    i.resolution = Property::Variable;
    assert!(matches!(get_num_frames(i), Err(DecoderError::VariableResolution)));
    assert!(matches!(get_resolution(i), Err(DecoderError::VariableResolution)));
    assert!(matches!(parse_video_details(i), Err(DecoderError::VariableResolution)));
    let mut i = info(ColorFamily::YUV, 8, 1, 1);
    i.framerate = Property::Variable;
    assert!(matches!(get_num_frames(i), Err(DecoderError::VariableFramerate)));
    assert!(matches!(get_frame_rate(i), Err(DecoderError::VariableFramerate)));
    assert!(matches!(parse_video_details(i), Err(DecoderError::VariableFramerate)));
    // format is looked at before resolution, resolution before frame rate
    i.resolution = Property::Variable;
    assert!(matches!(get_num_frames(i), Err(DecoderError::VariableResolution)));
    i.format = Property::Variable;
    assert!(matches!(get_num_frames(i), Err(DecoderError::VariableFormat)));
}

#[test]
fn a_clip_without_frames_is_at_its_end() {
    let mut i = info(ColorFamily::YUV, 8, 1, 1);
    i.num_frames = 0;
    assert!(matches!(get_num_frames(i), Err(DecoderError::EndOfFile)));
    assert!(matches!(parse_video_details(i), Err(DecoderError::EndOfFile)));
}

#[test]
fn unsupported_node_formats_are_named() {
    match get_chroma_sampling(info(ColorFamily::YUV, 8, 2, 2)) {
        Err(DecoderError::UnsupportedChromaSubsampling { x, y }) => assert_eq!((x, y), (2, 2)),
        other => panic!("unexpected {other:?}"),
    }
    match parse_video_details(info(ColorFamily::YUV, 8, 0, 1)) {
        Err(DecoderError::UnsupportedChromaSubsampling { x, y }) => assert_eq!((x, y), (0, 1)),
        other => panic!("unexpected {other:?}"),
    }
    for (family, name) in [
        (ColorFamily::RGB, "RGB"),
        (ColorFamily::YCoCg, "YCoCg"),
        (ColorFamily::Compat, "Compat"),
    ] {
        match get_chroma_sampling(info(family, 8, 0, 0)) {
            Err(DecoderError::UnsupportedFormat { fmt }) => assert_eq!(fmt, name),
            other => panic!("unexpected {other:?}"),
        }
    }
    assert_eq!(ColorFamily::Gray.name(), "Gray");
    assert_eq!(ColorFamily::YUV.name(), "YUV");
}
