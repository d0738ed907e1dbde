use lanner::indicator::rec_markup;
use lanner::overlay::select_on;
use lanner::placement::{clamp_to_screen, overlaps, place_off_hole, PixelRect, PAD};
use lanner::recorder::geometry_arg;
use lanner::transcode::{args, Format};

/// A selection in floating-point logical pixels, as the overlay reports it.
#[derive(Clone, Copy, Debug)]
struct Rect {
    x: f64,
    y: f64,
    w: f64,
    h: f64,
}

/// The hole as the placement code sees it: each coordinate truncated.
fn hole_of(r: Rect) -> PixelRect {
    PixelRect { x: r.x as i32, y: r.y as i32, w: r.w as i32, h: r.h as i32 }
}

/// The capture geometry: each coordinate rounded.
fn rounded(r: Rect) -> PixelRect {
    PixelRect {
        x: r.x.round() as i32,
        y: r.y.round() as i32,
        w: r.w.round() as i32,
        h: r.h.round() as i32,
    }
}

#[test]
fn rec_markup_formats_mm_ss() {
    assert!(rec_markup(0).ends_with(" 00:00"));
    assert!(rec_markup(75).ends_with(" 01:15"));
    assert!(rec_markup(3599).ends_with(" 59:59"));
}

#[test]
fn clamp_keeps_bar_inside_padded_screen() {
    let screen = (1920, 1080);
    let bar = (220, 44);
    // dragged off the top-left -> snaps into the padded corner
    assert_eq!(clamp_to_screen((-100, -100), bar, screen, PAD), (PAD, PAD));
    // dragged off the bottom-right -> snaps into the far inset corner
    assert_eq!(
        clamp_to_screen((9999, 9999), bar, screen, PAD),
        (1920 - 220 - PAD, 1080 - 44 - PAD)
    );
    // already inside -> unchanged
    assert_eq!(clamp_to_screen((640, 360), bar, screen, PAD), (640, 360));
}

#[test]
fn bar_dodges_hole_or_reports_no_room() {
    let screen = (1920, 1080);
    let bar = (220, 44);
    // Hole in the top-left: a clear spot must exist and not overlap it.
    let partial = Rect { x: 0.0, y: 0.0, w: 800.0, h: 500.0 };
    let spot = place_off_hole((10, 10), bar, screen, hole_of(partial), PAD);
    assert!(spot.is_some_and(|p| !overlaps(p, bar, hole_of(partial))));
    // Whole-screen hole: nowhere to go -> None (bar hides, stop via Esc).
    let full = Rect { x: 0.0, y: 0.0, w: 1920.0, h: 1080.0 };
    assert!(place_off_hole((10, 10), bar, screen, hole_of(full), PAD).is_none());
}

fn r(x: f64) -> Rect {
    Rect { x, y: 0.0, w: 10.0, h: 10.0 }
}

#[test]
fn select_on_overwrites_last_wins() {
    let a = select_on(None, 0, r(1.0));
    assert_eq!(a.map(|(i, rect)| (i, rect.x)), Some((0, 1.0)));
    // a drag on a different output replaces it entirely
    let b = select_on(a, 2, r(5.0));
    assert_eq!(b.map(|(i, rect)| (i, rect.x)), Some((2, 5.0)));
}

#[test]
fn geometry_formats_and_rejects_degenerate() {
    assert_eq!(
        geometry_arg(rounded(Rect { x: 100.4, y: 200.6, w: 1280.0, h: 720.0 })).ok(),
        Some("100,201 1280x720".to_owned())
    );
    assert!(geometry_arg(rounded(Rect { x: 0.0, y: 0.0, w: 0.0, h: 0.0 })).is_err());
}

#[test]
fn mp4_argv_has_io_and_faststart() {
    let a = args(Format::Mp4, "in.mkv", "out.mp4");
    assert_eq!(a.first().map(String::as_str), Some("-y"));
    assert!(a.windows(2).any(|w| w == ["-i", "in.mkv"]));
    assert!(a.windows(2).any(|w| w == ["-movflags", "+faststart"]));
    assert_eq!(a.last().map(String::as_str), Some("out.mp4"));
}

#[test]
fn ext_per_format() {
    assert_eq!(Format::Webm.ext(), "webm");
    assert_eq!(Format::Av1.ext(), "mp4");
    assert_eq!(Format::Gif.ext(), "gif");
}

#[test]
fn gif_caps_width() {
    let a = args(Format::Gif, "in.mkv", "out.gif");
    // Width is capped (escaped comma keeps min() inside the filtergraph),
    // else a full-res GIF balloons and viewers show only one frame.
    assert!(a.iter().any(|s| s.contains(r"scale=min(1280\,iw)")));
}
