use warb::{process_phase_outcome, read_phase_outcome, DecoderEvent, HResult};

type Ev = DecoderEvent<&'static str, u32>;

fn read(code: i32, frame: Option<&'static str>) -> Ev {
    DecoderEvent::Read { result: HResult(code), frame }
}

fn process(code: i32, image: Option<u32>) -> Ev {
    DecoderEvent::Process { result: HResult(code), image }
}

#[test]
fn read_phase_takes_the_last_frame() {
    let r = read_phase_outcome(vec![read(0, Some("a")), process(0, Some(1)), read(1, Some("b"))]);
    assert_eq!(r.unwrap(), "b");
}

#[test]
fn read_phase_reports_the_first_failure() {
    let r = read_phase_outcome(vec![
        read(0, Some("a")),
        read(0x8000_4003u32 as i32, None),
        read(-1, Some("c")),
    ]);
    assert_eq!(r.unwrap_err().to_string(), "read failed (HRESULT=0x80004003)");
}

#[test]
fn read_phase_without_frame_is_an_error() {
    let r = read_phase_outcome(vec![read(0, Some("a")), read(0, None)]);
    assert_eq!(r.unwrap_err().to_string(), "on_read_complete delivered no frame");
    let r = read_phase_outcome(Vec::<Ev>::new());
    assert_eq!(r.unwrap_err().to_string(), "on_read_complete delivered no frame");
    let r = read_phase_outcome(vec![process(0, Some(3))]);
    assert_eq!(r.unwrap_err().to_string(), "on_read_complete delivered no frame");
}

#[test]
fn read_phase_ignores_failed_process_events() {
    let r = read_phase_outcome(vec![process(-1, None), read(0, Some("x"))]);
    assert_eq!(r.unwrap(), "x");
}

#[test]
fn process_phase_takes_the_last_image() {
    let r = process_phase_outcome(vec![process(0, Some(1)), read(-1, None), process(0, Some(2))]);
    assert_eq!(r.unwrap(), 2);
}

#[test]
fn process_phase_reports_the_first_failure() {
    let r = process_phase_outcome(vec![process(0, Some(1)), process(-2, Some(2)), process(-3, None)]);
    assert_eq!(r.unwrap_err().to_string(), "process failed (HRESULT=0xfffffffe)");
}

#[test]
fn process_phase_without_image_is_an_error() {
    let r = process_phase_outcome(vec![process(0, Some(1)), process(0, None)]);
    assert_eq!(r.unwrap_err().to_string(), "on_process_complete delivered no image");
    let r = process_phase_outcome(vec![read(0, Some("a"))]);
    assert_eq!(r.unwrap_err().to_string(), "on_process_complete delivered no image");
}

#[test]
fn decode_without_open_clip_is_an_error() {
    let r = warb::require_open_clip::<u8>(None);
    assert_eq!(r.unwrap_err().to_string(), "no clip is open");
    assert_eq!(warb::require_open_clip(Some(7u8)).unwrap(), 7);
}
