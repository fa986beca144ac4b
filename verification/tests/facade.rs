use av_decoders::assemble::{FrameSource, NativeFrame, SampleWidth};
use av_decoders::decoder::{select_backend, source_script, BackendChoice, Backends, Request};
use av_decoders::helpers::ffmpeg::{
    DecodeStep, FfmpegDecoder, PixelFormat, Pulled, ReadProgress, StreamProbe,
};
use av_decoders::helpers::ffms2::{Ffms2Decoder, FfmsIndex, PixelFormats, SourceProbe};
use av_decoders::helpers::vapoursynth::{
    ColorFamily, Format, Framerate, NodePlan, OutputProbe, Property, Resolution,
    VapoursynthDecoder, VideoInfo,
};
use av_decoders::helpers::y4m::{Colorspace, Y4mDecoder};
use av_decoders::layout::ChromaLayout;
use av_decoders::util::{decimal_string, escape_python_string};
use av_decoders::{DecodedFrame, Decoder, DecoderError, DecoderImpl};

const ALL: Backends = Backends { ffmpeg: true, vapoursynth: true };
const NONE: Backends = Backends { ffmpeg: false, vapoursynth: false };
const ONLY_SCRIPT: Backends = Backends { ffmpeg: false, vapoursynth: true };
const ONLY_STREAM: Backends = Backends { ffmpeg: true, vapoursynth: false };

#[test]
fn raw_containers_go_to_the_parser_whatever_is_built_in() {
    for ext in ["y4m", "yuv", "Y4M", "YUV", "Y4m", "yUv"] {
        for available in [ALL, NONE, ONLY_SCRIPT, ONLY_STREAM] {
            assert_eq!(select_backend(Some(ext), available).unwrap(), BackendChoice::Y4m);
        }
    }
}

#[test]
fn scripts_go_to_the_scripting_backend_where_it_is_built_in() {
    assert_eq!(select_backend(Some("vpy"), ALL).unwrap(), BackendChoice::VapoursynthScript);
    assert_eq!(select_backend(Some("VPY"), ONLY_SCRIPT).unwrap(), BackendChoice::VapoursynthScript);
    assert_eq!(select_backend(Some("vpy"), ONLY_STREAM).unwrap(), BackendChoice::Ffmpeg);
    assert!(matches!(select_backend(Some("vpy"), NONE), Err(DecoderError::NoDecoder)));
}

#[test]
fn other_files_prefer_the_streaming_backend() {
    for ext in [Some("mkv"), Some("mp4"), Some(""), Some("y4m2"), Some("ÿ4m"), None] {
        assert_eq!(select_backend(ext, ALL).unwrap(), BackendChoice::Ffmpeg);
        assert_eq!(select_backend(ext, ONLY_STREAM).unwrap(), BackendChoice::Ffmpeg);
        assert_eq!(select_backend(ext, ONLY_SCRIPT).unwrap(), BackendChoice::VapoursynthSource);
        assert!(matches!(select_backend(ext, NONE), Err(DecoderError::NoDecoder)));
    }
}

#[test]
fn the_source_script_loads_the_file_with_quotes_escaped() {
    assert_eq!(
        source_script("/clips/a.mkv"),
        "\nimport vapoursynth as vs\ncore = vs.core\nclip = core.ffms2.Source(\"/clips/a.mkv\")\nclip.set_output()\n"
    );
    assert_eq!(
        source_script("/c/say \"hi\".mkv"),
        "\nimport vapoursynth as vs\ncore = vs.core\nclip = core.ffms2.Source(\"/c/say \\\"hi\\\".mkv\")\nclip.set_output()\n"
    );
    assert_eq!(
        source_script(""),
        "\nimport vapoursynth as vs\ncore = vs.core\nclip = core.ffms2.Source(\"\")\nclip.set_output()\n"
    );
    assert!(source_script("/ü/日本.mkv").contains("Source(\"/ü/日本.mkv\")"));
}

#[test]
fn script_strings_are_escaped() {
    assert_eq!(escape_python_string("plain"), "plain");
    assert_eq!(escape_python_string(""), "");
    assert_eq!(escape_python_string("a\"b"), "a\\\"b");
    assert_eq!(escape_python_string("a\\b"), "a\\\\b");
    assert_eq!(escape_python_string("a\nb\rc\td"), "a\\nb\\rc\\td");
    assert_eq!(escape_python_string("\\\"\n"), "\\\\\\\"\\n");
    assert_eq!(escape_python_string("C:\\clips\\\"new\"\n"), "C:\\\\clips\\\\\\\"new\\\"\\n");
    assert_eq!(escape_python_string("日本 'x'"), "日本 'x'");
}

fn header(colorspace: Colorspace) -> Y4mDecoder {
    Y4mDecoder { width: 320, height: 240, colorspace, framerate_num: 30, framerate_den: 1 }
}

fn frame_320_240(value: u8) -> (Vec<u8>, Vec<u8>, Vec<u8>) {
    (vec![value; 320 * 240], vec![value; 160 * 120], vec![value; 160 * 120])
}

#[test]
fn a_raw_stream_of_112_frames_reads_112_frames_then_ends() {
    let mut d = Decoder::from_decoder_impl(DecoderImpl::Y4m(header(Colorspace::C420))).unwrap();
    let details = *d.get_video_details();
    assert_eq!((details.width, details.height), (320, 240));
    assert_eq!(details.bit_depth, 8);
    assert_eq!(details.chroma_sampling, ChromaLayout::Yuv420);
    let mut read = 0;
    for n in 0..112usize {
        assert_eq!(d.next_request(), Request::NextFrame);
        let (y, u, v) = frame_320_240((n % 200) as u8 + 1);
        let src = FrameSource::tight(320, ChromaLayout::Yuv420, SampleWidth::One, &y, &u, &v);
        let frame = d.read_video_frame(false, SampleWidth::One, NativeFrame::Planes(src)).unwrap();
        match frame {
            DecodedFrame::Bytes(f) => {
                assert_eq!(f.y_plane.data().len(), (320 + 176) * (240 + 176));
                assert_eq!(f.y_plane.pixel(319, 239), Some((n % 200) as u8 + 1));
            }
            DecodedFrame::Words(_) => panic!("8-bit frames hold bytes"),
        }
        read += 1;
    }
    assert_eq!(read, 112);
    // the parser has run dry: every further read is the end, and none panics
    for _ in 0..5 {
        assert!(matches!(
            d.read_video_frame(false, SampleWidth::One, NativeFrame::EndOfStream),
            Err(DecoderError::EndOfFile)
        ));
    }
    let after = *d.get_video_details();
    assert_eq!((after.width, after.height, after.bit_depth), (320, 240, 8));
}

#[test]
fn the_10bit_twin_of_a_raw_stream_differs_in_depth_only() {
    let eight = Decoder::from_decoder_impl(DecoderImpl::Y4m(header(Colorspace::C420))).unwrap();
    let ten = Decoder::from_decoder_impl(DecoderImpl::Y4m(header(Colorspace::C420p10))).unwrap();
    assert_eq!(eight.get_video_details().bit_depth, 8);
    assert_eq!(ten.get_video_details().bit_depth, 10);
    assert_eq!(ten.get_video_details().chroma_sampling, eight.get_video_details().chroma_sampling);
}

#[test]
fn the_parser_and_the_streaming_backend_do_not_seek() {
    let d = Decoder::from_decoder_impl(DecoderImpl::Y4m(header(Colorspace::C420))).unwrap();
    assert!(!d.decoder_impl().supports_seek());
    assert!(matches!(d.seek_request(0), Err(DecoderError::UnsupportedDecoder)));
    let (y, u, v) = frame_320_240(1);
    let src = FrameSource::tight(320, ChromaLayout::Yuv420, SampleWidth::One, &y, &u, &v);
    assert!(matches!(
        d.seek_video_frame(0, false, SampleWidth::One, NativeFrame::Planes(src)),
        Err(DecoderError::UnsupportedDecoder)
    ));
    let probe = StreamProbe {
        stream_index: 0,
        width: 320,
        height: 240,
        format: PixelFormat::YUV420P,
        format_tag: "YUV420P".to_string(),
        rate_numerator: 30,
        rate_denominator: 1,
        frames: 112,
    };
    let d = Decoder::from_decoder_impl(DecoderImpl::Ffmpeg(FfmpegDecoder::new(Ok(probe)).unwrap()))
        .unwrap();
    assert!(!d.decoder_impl().supports_seek());
    assert!(matches!(d.seek_request(3), Err(DecoderError::UnsupportedDecoder)));
    assert!(matches!(
        d.seek_video_frame(3, false, SampleWidth::One, NativeFrame::EndOfStream),
        Err(DecoderError::UnsupportedDecoder)
    ));
    assert!(matches!(d.get_vapoursynth_env(), Err(DecoderError::UnsupportedDecoder)));
    assert!(matches!(
        d.get_vapoursynth_node(OutputProbe::Found),
        Err(DecoderError::UnsupportedDecoder)
    ));
}

#[test]
fn the_streaming_backend_reads_until_its_decoder_is_empty() {
    let probe = StreamProbe {
        stream_index: 0,
        width: 4,
        height: 2,
        format: PixelFormat::YUV444P,
        format_tag: "YUV444P".to_string(),
        rate_numerator: 30,
        rate_denominator: 1,
        frames: 2,
    };
    let mut d =
        Decoder::from_decoder_impl(DecoderImpl::Ffmpeg(FfmpegDecoder::new(Ok(probe)).unwrap()))
            .unwrap();
    assert_eq!(d.get_video_details().total_frames, Some(2));
    let y = vec![1u8; 8];
    for _ in 0..2 {
        assert_eq!(d.next_request(), Request::NextFrame);
        let src = FrameSource::tight(4, ChromaLayout::Yuv444, SampleWidth::One, &y, &y, &y);
        assert!(d.read_video_frame(false, SampleWidth::One, NativeFrame::Planes(src)).is_ok());
    }
    assert!(matches!(
        d.read_video_frame(false, SampleWidth::One, NativeFrame::EndOfStream),
        Err(DecoderError::EndOfFile)
    ));
    match d.read_video_frame(false, SampleWidth::One, NativeFrame::Failed("lost".to_string())) {
        Err(DecoderError::FfmpegInternalError { cause }) => assert_eq!(cause, "lost"),
        other => panic!("unexpected {other:?}"),
    }
}

fn indexed(frames: i32) -> Decoder {
    let ids: Vec<i32> = (0..20).collect();
    let t = PixelFormats::from_ids(&ids).unwrap();
    let probe = SourceProbe {
        scaled_width: 0,
        scaled_height: 0,
        encoded_width: 4,
        encoded_height: 2,
        fps_numerator: 25,
        fps_denominator: 1,
        num_frames: frames,
        pixel_format: t.yuv420p,
    };
    let index = FfmsIndex { path: "a.mkv".to_string(), track: 0 };
    let dec = Ffms2Decoder::new(&t, index, Ok(probe)).unwrap();
    Decoder::from_decoder_impl(DecoderImpl::Ffms2(dec)).unwrap()
}

#[test]
fn an_indexed_stream_of_three_frames_reads_three_frames_then_ends() {
    let mut d = indexed(3);
    assert!(d.decoder_impl().supports_seek());
    let c = vec![2u8; 2];
    for n in 0..3usize {
        assert_eq!(d.next_request(), Request::FrameAt { index: n, native_index: n as i32 });
        let y = vec![n as u8 + 1; 8];
        let src = FrameSource::tight(4, ChromaLayout::Yuv420, SampleWidth::One, &y, &c, &c);
        assert!(d.read_video_frame(false, SampleWidth::One, NativeFrame::Planes(src)).is_ok());
    }
    for _ in 0..3 {
        assert_eq!(d.next_request(), Request::EndOfFile);
        let y = vec![9u8; 8];
        let src = FrameSource::tight(4, ChromaLayout::Yuv420, SampleWidth::One, &y, &c, &c);
        assert!(matches!(
            d.read_video_frame(false, SampleWidth::One, NativeFrame::Planes(src)),
            Err(DecoderError::EndOfFile)
        ));
    }
}

#[test]
fn a_failed_read_is_not_counted() {
    let mut d = indexed(3);
    assert!(d
        .read_video_frame(false, SampleWidth::One, NativeFrame::Failed("io".to_string()))
        .is_err());
    assert_eq!(d.next_request(), Request::FrameAt { index: 0, native_index: 0 });
    // a frame of the wrong size is refused and not counted either
    let y = vec![1u8; 7];
    let c = vec![2u8; 2];
    let src = FrameSource::tight(4, ChromaLayout::Yuv420, SampleWidth::One, &y, &c, &c);
    assert!(matches!(
        d.read_video_frame(false, SampleWidth::One, NativeFrame::Planes(src)),
        Err(DecoderError::GenericDecodeError { .. })
    ));
    assert_eq!(d.next_request(), Request::FrameAt { index: 0, native_index: 0 });
}

#[test]
fn an_indexed_seek_at_or_past_the_end_is_end_of_file() {
    let d = indexed(3);
    assert_eq!(d.seek_request(2).unwrap(), Request::FrameAt { index: 2, native_index: 2 });
    let y = vec![4u8; 8];
    let c = vec![2u8; 2];
    for index in [3usize, 4, 1000, usize::MAX] {
        assert_eq!(d.seek_request(index).unwrap(), Request::EndOfFile);
        let src = FrameSource::tight(4, ChromaLayout::Yuv420, SampleWidth::One, &y, &c, &c);
        assert!(matches!(
            d.seek_video_frame(index, false, SampleWidth::One, NativeFrame::Planes(src)),
            Err(DecoderError::EndOfFile)
        ));
    }
    let src = FrameSource::tight(4, ChromaLayout::Yuv420, SampleWidth::One, &y, &c, &c);
    let first = d.seek_video_frame(2, false, SampleWidth::One, NativeFrame::Planes(src)).unwrap();
    let src = FrameSource::tight(4, ChromaLayout::Yuv420, SampleWidth::One, &y, &c, &c);
    let second = d.seek_video_frame(2, false, SampleWidth::One, NativeFrame::Planes(src)).unwrap();
    match (first, second) {
        (DecodedFrame::Bytes(a), DecodedFrame::Bytes(b)) => {
            assert_eq!(a.y_plane.data(), b.y_plane.data());
            assert_eq!(a.u_plane.unwrap().data(), b.u_plane.unwrap().data());
        }
        _ => panic!("8-bit frames hold bytes"),
    }
    // seeking does not move sequential reading
    assert_eq!(d.next_request(), Request::FrameAt { index: 0, native_index: 0 });
}

fn script(frames: usize) -> Decoder {
    let info = VideoInfo {
        format: Property::Constant(Format {
            color_family: ColorFamily::Gray,
            bits_per_sample: 12,
            sub_sampling_w: 0,
            sub_sampling_h: 0,
        }),
        framerate: Property::Constant(Framerate { numerator: 24000, denominator: 1001 }),
        resolution: Property::Constant(Resolution { width: 2, height: 2 }),
        num_frames: frames,
    };
    let dec = VapoursynthDecoder::new(Ok(Some(info))).unwrap();
    Decoder::from_decoder_impl(DecoderImpl::Vapoursynth(dec)).unwrap()
}

#[test]
fn a_seek_past_the_known_end_is_end_of_file_before_any_read() {
    // the backend's own count is not settled yet; the metadata knows the end
    let d = script(2);
    assert_eq!(d.get_video_details().total_frames, Some(2));
    let y = vec![0x34u8, 0x02, 0x35, 0x02, 0x36, 0x02, 0x37, 0x02];
    let empty: Vec<u8> = Vec::new();
    for index in [2usize, 3, 1000, usize::MAX] {
        assert_eq!(d.seek_request(index).unwrap(), Request::EndOfFile);
        let src =
            FrameSource::tight(2, ChromaLayout::Monochrome, SampleWidth::Two, &y, &empty, &empty);
        assert!(matches!(
            d.seek_video_frame(index, false, SampleWidth::Two, NativeFrame::Planes(src)),
            Err(DecoderError::EndOfFile)
        ));
    }
    // the decoder stays usable: an index below the end still gives its frame
    for index in [1usize, 0] {
        assert_eq!(
            d.seek_request(index).unwrap(),
            Request::FrameAt { index, native_index: 0 }
        );
        let src =
            FrameSource::tight(2, ChromaLayout::Monochrome, SampleWidth::Two, &y, &empty, &empty);
        assert!(d.seek_video_frame(index, false, SampleWidth::Two, NativeFrame::Planes(src)).is_ok());
    }
}

#[test]
fn a_backend_without_seek_says_so_even_past_the_known_end() {
    let probe = StreamProbe {
        stream_index: 0,
        width: 4,
        height: 2,
        format: PixelFormat::YUV420P,
        format_tag: "YUV420P".to_string(),
        rate_numerator: 30,
        rate_denominator: 1,
        frames: 5,
    };
    let d = Decoder::from_decoder_impl(DecoderImpl::Ffmpeg(FfmpegDecoder::new(Ok(probe)).unwrap()))
        .unwrap();
    assert_eq!(d.get_video_details().total_frames, Some(5));
    assert!(matches!(d.seek_request(9), Err(DecoderError::UnsupportedDecoder)));
    assert!(matches!(
        d.seek_video_frame(9, false, SampleWidth::One, NativeFrame::EndOfStream),
        Err(DecoderError::UnsupportedDecoder)
    ));
}

#[test]
fn a_script_decoder_reads_its_clip_and_then_ends() {
    let mut d = script(2);
    let details = *d.get_video_details();
    assert_eq!(details.bit_depth, 12);
    assert_eq!(details.chroma_sampling, ChromaLayout::Monochrome);
    assert_eq!(details.total_frames, Some(2));
    assert!(d.get_vapoursynth_env().is_ok());
    assert_eq!(d.get_vapoursynth_node(OutputProbe::Found).unwrap(), NodePlan::UseOutput);
    let y = vec![0x34u8, 0x02, 0x35, 0x02, 0x36, 0x02, 0x37, 0x02];
    let empty: Vec<u8> = Vec::new();
    for n in 0..2usize {
        assert_eq!(d.next_request(), Request::FrameAt { index: n, native_index: 0 });
        let src = FrameSource::tight(2, ChromaLayout::Monochrome, SampleWidth::Two, &y, &empty, &empty);
        match d.read_video_frame(false, SampleWidth::Two, NativeFrame::Planes(src)).unwrap() {
            DecodedFrame::Words(f) => {
                assert_eq!(f.y_plane.pixels().collect::<Vec<u16>>(), vec![0x234, 0x235, 0x236, 0x237]);
                assert!(f.u_plane.is_none());
            }
            DecodedFrame::Bytes(_) => panic!("12-bit frames hold words"),
        }
    }
    assert_eq!(d.next_request(), Request::EndOfFile);
    let src = FrameSource::tight(2, ChromaLayout::Monochrome, SampleWidth::Two, &y, &empty, &empty);
    assert!(matches!(
        d.read_video_frame(false, SampleWidth::Two, NativeFrame::Planes(src)),
        Err(DecoderError::EndOfFile)
    ));
    assert_eq!(d.seek_request(2).unwrap(), Request::EndOfFile);
    assert_eq!(d.seek_request(1).unwrap(), Request::FrameAt { index: 1, native_index: 0 });
    assert_eq!(d.get_video_details().total_frames, Some(2));
}

#[test]
fn whole_numbers_are_written_in_decimal() {
    assert_eq!(decimal_string(0), "0");
    assert_eq!(decimal_string(7), "7");
    assert_eq!(decimal_string(10), "10");
    assert_eq!(decimal_string(77), "77");
    assert_eq!(decimal_string(1001), "1001");
    assert_eq!(decimal_string(-1), "-1");
    assert_eq!(decimal_string(-120), "-120");
    assert_eq!(decimal_string(i32::MAX), "2147483647");
    assert_eq!(decimal_string(i32::MIN), "-2147483648");
    for n in [-99999, -10, 9, 99, 100, 123456789] {
        assert_eq!(decimal_string(n), n.to_string());
    }
}

#[test]
fn the_streaming_loop_is_driven_through_the_facade() {
    let probe = StreamProbe {
        stream_index: 2,
        width: 4,
        height: 2,
        format: PixelFormat::YUV420P,
        format_tag: "YUV420P".to_string(),
        rate_numerator: 30,
        rate_denominator: 1,
        frames: -1,
    };
    let mut d =
        Decoder::from_decoder_impl(DecoderImpl::Ffmpeg(FfmpegDecoder::new(Ok(probe)).unwrap()))
            .unwrap();
    assert_eq!(d.position(), 0);
    assert_eq!(
        d.on_pulled(Pulled::Packet { stream: 2 }).unwrap(),
        DecodeStep { send_eof: false, send_packet: true, receive: true }
    );
    assert_eq!(d.on_received(false).unwrap(), ReadProgress::PullAgain);
    assert_eq!(
        d.on_pulled(Pulled::Exhausted).unwrap(),
        DecodeStep { send_eof: true, send_packet: false, receive: true }
    );
    assert_eq!(
        d.on_pulled(Pulled::Exhausted).unwrap(),
        DecodeStep { send_eof: false, send_packet: false, receive: true }
    );
    assert_eq!(d.on_received(false).unwrap(), ReadProgress::EndOfFile);
    let mut raw = Decoder::from_decoder_impl(DecoderImpl::Y4m(header(Colorspace::C444))).unwrap();
    assert!(matches!(raw.on_pulled(Pulled::Exhausted), Err(DecoderError::UnsupportedDecoder)));
    assert!(matches!(raw.on_received(true), Err(DecoderError::UnsupportedDecoder)));
}
