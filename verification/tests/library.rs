use lanner::audio::{module_id, monitor_of, CombinedSource, SINK_NAME};
use lanner::controls::{audio_choices, delay_choices, format_choices, Audio, Settings};
use lanner::indicator::rec_markup;
use lanner::lockfile::{held_by, parse_pid, pid_text, proc_path};
use lanner::numeral::{is_whitespace, parse_trimmed_u32, parse_u32};
use lanner::overlay::{bar_input_region, is_active_output, spotlight, Spotlight};
use lanner::placement::{clamp_to_screen, overlaps, place_off_hole, placed_bar, PixelRect, PAD};
use lanner::recorder::{audio_device, geometry_arg, output_file_name, recorder_args, RecordError};
use lanner::session::{Key, KeyAction, Session, TickAction};
use lanner::text::{decimal_string, push_padded2, push_signed_decimal};
use lanner::transcode::{args, Format};

fn strs(v: &[String]) -> Vec<&str> {
    v.iter().map(String::as_str).collect()
}

#[test]
fn decimal_renders_like_display() {
    assert_eq!(decimal_string(0), "0");
    assert_eq!(decimal_string(7), "7");
    assert_eq!(decimal_string(10), "10");
    assert_eq!(decimal_string(12345), "12345");
    assert_eq!(decimal_string(u64::MAX), u64::MAX.to_string());
}

#[test]
fn signed_decimal_renders_like_display() {
    for v in [0, 5, -5, 42, -42, i32::MAX, i32::MIN] {
        let mut s = String::new();
        push_signed_decimal(&mut s, v);
        assert_eq!(s, v.to_string());
    }
}

#[test]
fn padded_two_digits_like_format() {
    for v in [0u64, 7, 9, 10, 59, 99, 100, 123] {
        let mut s = String::from("t=");
        push_padded2(&mut s, v);
        assert_eq!(s, format!("t={:02}", v));
    }
}

#[test]
fn rec_markup_full_text() {
    assert_eq!(rec_markup(0), "<span foreground='#ff5d6c'>\u{23fa}</span> 00:00");
    assert_eq!(rec_markup(61), "<span foreground='#ff5d6c'>\u{23fa}</span> 01:01");
    assert!(rec_markup(6000).ends_with(" 100:00"));
    assert!(rec_markup(u32::MAX).ends_with(" 71582788:15"));
}

#[test]
fn clamp_pins_to_pad_when_bar_too_big() {
    // A bar wider than the padded screen is pinned to the left padding.
    assert_eq!(clamp_to_screen((500, 500), (2000, 44), (1920, 1080), PAD), (PAD, 500));
    assert_eq!(clamp_to_screen((-5, 2000), (2000, 2000), (1920, 1080), PAD), (PAD, PAD));
}

#[test]
fn touching_edges_do_not_overlap() {
    let hole = PixelRect { x: 100, y: 100, w: 200, h: 100 };
    assert!(!overlaps((300, 100), (50, 50), hole));
    assert!(!overlaps((50, 100), (50, 50), hole));
    assert!(!overlaps((100, 200), (50, 50), hole));
    assert!(overlaps((299, 199), (50, 50), hole));
}

#[test]
fn placement_prefers_below_then_above_then_right_then_left() {
    let screen = (1920, 1080);
    let bar = (220, 44);
    // Room below: keep x, sit pad below the hole.
    let hole = PixelRect { x: 100, y: 100, w: 400, h: 300 };
    assert_eq!(place_off_hole((10, 10), bar, screen, hole, PAD), Some((10, 410)));
    // Hole reaching the bottom: above.
    let hole = PixelRect { x: 0, y: 500, w: 1920, h: 580 };
    assert_eq!(place_off_hole((10, 10), bar, screen, hole, PAD), Some((10, 446)));
    // Full-height hole on the left: right of it.
    let hole = PixelRect { x: 0, y: 0, w: 1000, h: 1080 };
    assert_eq!(place_off_hole((10, 10), bar, screen, hole, PAD), Some((1010, 10)));
    // Full-height hole on the right: left of it, clamped to the padding.
    let hole = PixelRect { x: 500, y: 0, w: 1420, h: 1080 };
    assert_eq!(place_off_hole((600, 10), bar, screen, hole, PAD), Some((270, 10)));
}

#[test]
fn full_screen_hole_leaves_no_room() {
    let hole = PixelRect { x: 5, y: 3, w: 1910, h: 1075 };
    assert_eq!(place_off_hole((600, 600), (220, 44), (1920, 1080), hole, PAD), None);
}

#[test]
fn ffmpeg_argv_per_format() {
    assert_eq!(
        strs(&args(Format::Av1, "a.mkv", "a.mp4")),
        vec![
            "-y", "-i", "a.mkv", "-c:v", "libsvtav1", "-crf", "30", "-preset", "6", "-pix_fmt",
            "yuv420p", "-c:a", "libopus", "-b:a", "128k", "a.mp4"
        ]
    );
    assert_eq!(
        strs(&args(Format::Webm, "a.mkv", "a.webm")),
        vec![
            "-y", "-i", "a.mkv", "-c:v", "libvpx-vp9", "-crf", "30", "-b:v", "0", "-row-mt", "1",
            "-c:a", "libopus", "-b:a", "128k", "a.webm"
        ]
    );
    assert_eq!(
        strs(&args(Format::Webp, "a.mkv", "a.webp")),
        vec![
            "-y", "-i", "a.mkv", "-vcodec", "libwebp_anim", "-loop", "0", "-q:v", "75", "-preset",
            "picture", "-an", "a.webp"
        ]
    );
    assert_eq!(args(Format::Gif, "a.mkv", "a.gif").len(), 6);
    assert_eq!(args(Format::Mp4, "a.mkv", "a.mp4").len(), 18);
    assert_eq!(Format::Mp4.ext(), "mp4");
    assert_eq!(Format::Webp.ext(), "webp");
}

#[test]
fn geometry_edge_cases() {
    let g = |x, y, w, h| geometry_arg(PixelRect { x, y, w, h });
    assert_eq!(g(-5, 3, 10, 1).ok(), Some("-5,3 10x1".to_owned()));
    assert_eq!(g(0, 0, 1, 0), Err(RecordError::TooSmall));
    assert_eq!(g(0, 0, -3, 5), Err(RecordError::TooSmall));
    assert_eq!(RecordError::TooSmall.message(), "selection too small to record");
}

#[test]
fn geometry_on_a_secondary_output_is_global() {
    let local = PixelRect { x: 10, y: 20, w: 100, h: 200 };
    assert_eq!(geometry_arg(local.shifted((1920, 0))).ok(), Some("1930,20 100x200".to_owned()));
    assert_eq!(local.shifted((0, 0)), local);
}

#[test]
fn recording_file_and_argv() {
    assert_eq!(output_file_name(1725029869), "lanner-1725029869.mkv");
    assert_eq!(output_file_name(0), "lanner-0.mkv");
    assert_eq!(
        strs(&recorder_args("1,2 3x4", "/v/x.mkv", None)),
        vec!["-g", "1,2 3x4", "-f", "/v/x.mkv"]
    );
    assert_eq!(
        strs(&recorder_args("1,2 3x4", "/v/x.mkv", Some("mic".to_owned()))),
        vec!["-g", "1,2 3x4", "-f", "/v/x.mkv", "--audio=mic"]
    );
}

#[test]
fn audio_devices_resolve() {
    assert_eq!(audio_device(Audio::Off, "sink", "src"), None);
    assert_eq!(audio_device(Audio::System, "sink", "src"), Some("sink.monitor".to_owned()));
    assert_eq!(audio_device(Audio::Mic, "sink", "src"), Some("src".to_owned()));
    assert_eq!(audio_device(Audio::MicSystem, "sink", "src"), Some("lanner_mix.monitor".to_owned()));
    assert_eq!(monitor_of("x"), "x.monitor");
}

#[test]
fn settings_defaults_and_gif_disables_audio() {
    let s = Settings::default();
    assert_eq!(s, Settings { audio: Audio::Off, format: Format::Mp4, countdown_secs: 0 });
    assert!(s.audio_picker_enabled());
    let g = Settings { format: Format::Gif, ..s };
    assert!(!g.audio_picker_enabled());
}

#[test]
fn combined_source_plan_and_teardown() {
    let mut src = CombinedSource::new("alsa_output.pci", "alsa_input.pci");
    assert_eq!(SINK_NAME, "lanner_mix");
    assert!(!src.is_complete());
    assert_eq!(src.unload_order(), Vec::<u32>::new());
    let first = src.next_load().unwrap();
    assert_eq!(
        strs(&first),
        vec![
            "load-module",
            "module-null-sink",
            "sink_name=lanner_mix",
            "sink_properties=device.description=lanner_mix"
        ]
    );
    src.record_loaded(17);
    assert_eq!(
        strs(&src.next_load().unwrap()),
        vec!["load-module", "module-loopback", "source=alsa_input.pci", "sink=lanner_mix"]
    );
    src.record_loaded(18);
    // A failure here tears down what was loaded, newest first.
    assert_eq!(src.unload_order(), vec![18, 17]);
    assert_eq!(
        strs(&src.next_load().unwrap()),
        vec![
            "load-module",
            "module-loopback",
            "source=alsa_output.pci.monitor",
            "sink=lanner_mix"
        ]
    );
    src.record_loaded(19);
    assert!(src.is_complete());
    assert!(src.next_load().is_none());
    assert_eq!(src.unload_order(), vec![19, 18, 17]);
    assert_eq!(src.device(), "lanner_mix.monitor");
}

#[test]
fn pid_parses_like_str_parse() {
    for raw in [
        "1234", "+7", "", "+", "-1", "12a", "4294967295", "4294967296", " 12", "12\n", "0012",
        "99999999999999999999", "\u{663}",
    ] {
        assert_eq!(parse_pid(raw), raw.parse::<u32>().ok(), "{raw:?}");
    }
}

#[test]
fn lock_holder_check_trims() {
    assert!(held_by("1234\n", 1234));
    assert!(held_by(" \t42 \r\n", 42));
    assert!(held_by("\u{3000}42\u{85}", 42));
    assert!(!held_by("1234", 99));
    assert!(!held_by("", 0));
    assert!(!held_by("4 2", 42));
    for c in ['\t', '\n', ' ', '\u{a0}', '\u{2009}', 'a', '0', '\u{200b}'] {
        assert_eq!(is_whitespace(c), c.is_whitespace(), "{c:?}");
    }
}

#[test]
fn module_ids_read_from_pactl_output() {
    assert_eq!(module_id("536870913\n"), Some(536870913));
    assert_eq!(module_id("  42  "), Some(42));
    assert_eq!(module_id("Failure: Module initialization failed\n"), None);
    assert_eq!(module_id(""), None);
    for raw in ["7", " +7 ", "\t\t", "1 2", "+", "4294967296\n"] {
        assert_eq!(parse_trimmed_u32(raw), raw.trim().parse::<u32>().ok(), "{raw:?}");
        assert_eq!(parse_u32(raw), raw.parse::<u32>().ok(), "{raw:?}");
    }
}

#[test]
fn claim_reads_back() {
    for pid in [0u32, 1, 4242, u32::MAX] {
        let text = pid_text(pid);
        assert_eq!(text, pid.to_string());
        assert_eq!(parse_pid(&text), Some(pid));
        assert!(held_by(&text, pid));
        assert!(!held_by(&text, pid.wrapping_add(1)));
    }
    assert_eq!(proc_path(4000000000), "/proc/4000000000");
}

#[test]
fn enter_records_now_or_after_countdown() {
    let s = Session::new();
    assert!(s.accepts_drag());
    // Nothing selected: Enter is swallowed but does nothing.
    assert_eq!(s.on_key(Key::Enter, false, 0), (s, KeyAction::Ignore, true));
    // No delay: record at once.
    assert_eq!(s.on_key(Key::Enter, true, 0), (s, KeyAction::BeginRecording, true));
    let rec = s.on_record_started(true);
    assert_eq!(rec, Session { recording: true, countdown: None });
    assert!(!rec.accepts_drag());
    assert_eq!(rec.on_key(Key::Enter, true, 0).1, KeyAction::Ignore);
    // A failed start leaves the session selecting.
    assert_eq!(s.on_record_started(false), s);
    // Other keys pass through.
    assert_eq!(s.on_key(Key::Other, true, 0), (s, KeyAction::Ignore, false));
}

#[test]
fn countdown_ticks_down_then_begins() {
    let s = Session::new();
    let (c, action, consumed) = s.on_key(Key::Enter, true, 3);
    assert_eq!(action, KeyAction::StartCountdown(3));
    assert!(consumed);
    assert_eq!(c.countdown, Some(3));
    assert!(!c.accepts_drag());
    assert_eq!(c.on_key(Key::Enter, true, 3).1, KeyAction::Ignore);
    let (c, a) = c.on_tick();
    assert_eq!((c.countdown, a), (Some(2), TickAction::Continue));
    let (c, a) = c.on_tick();
    assert_eq!((c.countdown, a), (Some(1), TickAction::Continue));
    let (c, a) = c.on_tick();
    assert_eq!((c.countdown, a), (None, TickAction::BeginRecording));
}

#[test]
fn quitting_transcodes_only_a_running_recording() {
    let settings = Settings { format: Format::Webm, ..Settings::default() };
    let s = Session::new();
    assert_eq!(s.on_key(Key::Escape, true, 0).1, KeyAction::Quit);
    assert_eq!(s.on_quit(&settings), None);
    assert_eq!(s.on_record_started(true).on_quit(&settings), Some(Format::Webm));
}

#[test]
fn spotlight_paint_plans() {
    assert_eq!(
        spotlight(true, true, false, Some(3)),
        Spotlight { dim: true, hole: true, border: true, countdown: Some(3) }
    );
    assert_eq!(
        spotlight(true, false, false, None),
        Spotlight { dim: true, hole: false, border: false, countdown: None }
    );
    assert_eq!(
        spotlight(true, true, true, None),
        Spotlight { dim: false, hole: false, border: true, countdown: None }
    );
    assert_eq!(
        spotlight(false, true, true, None),
        Spotlight { dim: false, hole: false, border: false, countdown: None }
    );
    assert!(is_active_output(&Some((1usize, ())), 1));
    assert!(!is_active_output(&Some((1usize, ())), 0));
    assert!(!is_active_output::<()>(&None, 0));
    assert_eq!(bar_input_region(3, 4, -1, 7), PixelRect { x: 3, y: 4, w: 0, h: 7 });
}

#[test]
fn picker_choices() {
    let a: Vec<&str> = audio_choices().iter().map(|c| c.0).collect();
    assert_eq!(a, vec!["None", "System", "Mic", "Mic+System"]);
    assert_eq!(audio_choices()[0].1, Audio::Off);
    let f: Vec<(&str, Format)> = format_choices();
    assert_eq!(
        f,
        vec![
            ("MP4", Format::Mp4),
            ("WebM", Format::Webm),
            ("AV1", Format::Av1),
            ("WebP", Format::Webp),
            ("GIF", Format::Gif)
        ]
    );
    assert_eq!(delay_choices(), vec![("Off", 0), ("3s", 3), ("5s", 5), ("10s", 10)]);
}

#[test]
fn placed_bar_or_empty_region() {
    assert_eq!(placed_bar(Some((10, 410)), (220, 44)), PixelRect { x: 10, y: 410, w: 220, h: 44 });
    assert_eq!(placed_bar(None, (220, 44)), PixelRect { x: 0, y: 0, w: 0, h: 0 });
}
