use video_delay::command::{list_devices_args, push_decimal, single_frame_args, stream_args};
use video_delay::config::CaptureConfig;
use video_delay::delay::{target_size, DelayBuffer};
use video_delay::devices::{
    first_device_id, parse_device_line, parse_device_list, selected_device_name, VideoDevice,
};
use video_delay::error::CaptureError;
use video_delay::frame::{frame_byte_len, CameraFrame};
use video_delay::lifecycle::{StreamAction, StreamEvent, StreamState};
use video_delay::stream::StreamHandle;
use video_delay::text::{contains_str, find_str, parse_u32, trim};
use video_delay::worker::{StreamWorker, WorkerOutput};

fn frame_bytes(width: u32, height: u32, fill: u8) -> Vec<u8> {
    vec![fill; (width * height * 3) as usize]
}

#[test]
fn camera_test_camera_creation() {
    let config = CaptureConfig::new(0, 640, 480, 30, 0);
    assert_eq!(config.width, 640);
    assert_eq!(config.height, 480);
    assert_eq!(config.frame_rate, 30);
    let args = stream_args(&config);
    assert_eq!(args[9], "30.0");
}

#[test]
fn test_device_listing() {
    let text = "[AVFoundation indev @ 0x7f] AVFoundation video devices:\n\
                [AVFoundation indev @ 0x7f] [0] FaceTime HD Camera\n\
                [AVFoundation indev @ 0x7f] [1] Capture screen 0\n\
                [AVFoundation indev @ 0x7f] AVFoundation audio devices:\n\
                [AVFoundation indev @ 0x7f] [0] MacBook Pro Microphone\n";
    let devices = parse_device_list(text);
    assert_eq!(devices.len(), 2);
    assert_eq!(devices[0].id, 0);
    assert_eq!(devices[0].name, "FaceTime HD Camera");
    assert_eq!(devices[1].id, 1);
    assert_eq!(devices[1].name, "Capture screen 0");
}

#[test]
fn device_list_ignores_lines_before_video_section() {
    let text = "[AVFoundation indev @ 0x1] [7] stray\r\n\
                AVFoundation video devices:\r\n\
                [AVFoundation indev @ 0x1] [3] Cam\r\n";
    let devices = parse_device_list(text);
    assert_eq!(devices.len(), 1);
    assert_eq!(devices[0].id, 3);
    assert_eq!(devices[0].name, "Cam");
    assert_eq!(parse_device_list("").len(), 0);
}

#[test]
fn device_line_parsing() {
    let d = parse_device_line("[AVFoundation indev @ 0x7f] [12]   Desk Camera  ").unwrap();
    assert_eq!(d.id, 12);
    assert_eq!(d.name, "Desk Camera");
    assert!(parse_device_line("[AVFoundation indev @ 0x7f] [x] Bad").is_none());
    assert!(parse_device_line("no brackets here").is_none());
    assert!(parse_device_line("] [5]missing space").is_none());
    let plus = parse_device_line("] [+4] Plus").unwrap();
    assert_eq!(plus.id, 4);
}

#[test]
fn text_helpers() {
    assert_eq!(find_str("abcabc", "ca", 0), Some(2));
    assert_eq!(find_str("abcabc", "ca", 3), None);
    assert!(contains_str("hello world", "o w"));
    assert!(!contains_str("hello", "world"));
    assert_eq!(trim("\t  hi there \n"), "hi there");
    assert_eq!(trim("   "), "");
    assert_eq!(parse_u32("4294967295"), Some(4294967295));
    assert_eq!(parse_u32("4294967296"), None);
    assert_eq!(parse_u32("+7"), Some(7));
    assert_eq!(parse_u32("+"), None);
    assert_eq!(parse_u32(""), None);
    assert_eq!(parse_u32("-1"), None);
}

#[test]
fn device_selection() {
    let devices = vec![
        VideoDevice { id: 4, name: "First".to_string() },
        VideoDevice { id: 9, name: "Second".to_string() },
        VideoDevice { id: 4, name: "Duplicate".to_string() },
    ];
    assert_eq!(selected_device_name(&devices, 4), "First");
    assert_eq!(selected_device_name(&devices, 9), "Second");
    assert_eq!(selected_device_name(&devices, 1), "");
    assert_eq!(first_device_id(&devices), 4);
    assert_eq!(first_device_id(&Vec::new()), 0);
}

#[test]
fn full_read_makes_complete_frame() {
    for (w, h) in [(640u32, 480u32), (1, 1), (3, 2)] {
        let f = CameraFrame::from_raw(w, h, frame_bytes(w, h, 7), 5).unwrap();
        assert_eq!(f.data.len(), (w * h * 3) as usize);
        assert_eq!(f.width, w);
        assert_eq!(f.height, h);
        assert_eq!(f.timestamp, 5);
    }
}

#[test]
fn short_read_is_an_error() {
    let mut bytes = frame_bytes(4, 4, 1);
    bytes.pop();
    match CameraFrame::from_raw(4, 4, bytes, 0) {
        Err(CaptureError::ShortRead { expected, got }) => {
            assert_eq!(expected, 48);
            assert_eq!(got, 47);
        }
        _ => panic!("a short read must fail"),
    }
    assert!(CameraFrame::from_raw(4, 4, vec![0; 49], 0).is_err());
}

#[test]
fn process_output_errors() {
    match CameraFrame::from_process_output(2, 2, false, vec![0; 12], "busy".to_string(), 0) {
        Err(CaptureError::ProcessFailed(msg)) => assert_eq!(msg, "busy"),
        _ => panic!("a failed process must be reported"),
    }
    let e = CameraFrame::from_process_output(2, 2, true, vec![0; 5], String::new(), 0).unwrap_err();
    assert_eq!(e.kind_name(), "short read");
    let f = CameraFrame::from_process_output(2, 2, true, vec![9; 12], String::new(), 3).unwrap();
    assert_eq!(f.data, vec![9; 12]);
    assert_eq!(CaptureError::ProcessSpawn("x".to_string()).kind_name(), "process spawn error");
    assert_eq!(CaptureError::ProcessFailed("x".to_string()).kind_name(), "process failed");
}

#[test]
fn frame_sizes() {
    assert_eq!(frame_byte_len(640, 480), Some(921600));
    assert_eq!(frame_byte_len(0, 480), Some(0));
}

#[test]
fn rgba_conversion() {
    let f = CameraFrame { width: 2, height: 1, data: vec![1, 2, 3, 4, 5, 6, 7], timestamp: 0 };
    assert_eq!(f.to_rgba_pixels(), vec![[1, 2, 3, 255], [4, 5, 6, 255]]);
}

#[test]
fn zero_delay_passes_every_frame_through() {
    let mut buffer: DelayBuffer<u32> = DelayBuffer::new(0);
    for i in 0..10u32 {
        assert_eq!(buffer.push_and_maybe_pop(i), Some(i));
        assert!(buffer.is_empty());
    }
    assert_eq!(target_size(0, 30), 0);
}

#[test]
fn delay_emits_first_frame_after_target_plus_one() {
    for k in [1u64, 2, 5] {
        let mut buffer: DelayBuffer<u64> = DelayBuffer::new(k);
        let mut out = Vec::new();
        for i in 0..=k {
            if let Some(x) = buffer.push_and_maybe_pop(i) {
                out.push(x);
            }
        }
        assert_eq!(out, vec![0]);
        assert_eq!(buffer.len() as u64, k);
    }
}

#[test]
fn two_seconds_at_thirty_fps_holds_sixty_frames() {
    let config = CaptureConfig::new(0, 640, 480, 30, 2);
    assert_eq!(config.target_size(), 60);
    let mut buffer: DelayBuffer<u32> = DelayBuffer::with_delay(2, 30);
    assert_eq!(buffer.target_size(), 60);
    let mut out = Vec::new();
    for i in 1..=61u32 {
        if let Some(x) = buffer.push_and_maybe_pop(i) {
            out.push(x);
        }
    }
    assert_eq!(out, vec![1]);
}

#[test]
fn default_config() {
    let c = CaptureConfig::default();
    assert_eq!(c, CaptureConfig::new(0, 640, 480, 30, 30));
    assert_eq!(c.with_device(3).device_id, 3);
    assert_eq!(c.with_delay(0).delay_seconds, 0);
}

#[test]
fn command_arguments() {
    let c = CaptureConfig::new(2, 1280, 720, 25, 0);
    assert_eq!(
        stream_args(&c),
        vec![
            "-f", "avfoundation", "-r", "25.00", "-i", "2", "-s", "1280x720", "-r", "25.0",
            "-pix_fmt", "rgb24", "-f", "rawvideo", "-"
        ]
    );
    assert_eq!(
        single_frame_args(&c),
        vec![
            "-f", "avfoundation", "-r", "25.00", "-i", "2", "-s", "1280x720", "-frames:v", "1",
            "-pix_fmt", "rgb24", "-f", "rawvideo", "-"
        ]
    );
    assert_eq!(list_devices_args(), vec!["-f", "avfoundation", "-list_devices", "true", "-i", ""]);
    let mut s = String::from("n=");
    push_decimal(&mut s, 4096);
    assert_eq!(s, "n=4096");
}

#[test]
fn start_twice_while_active_is_a_no_op() {
    let s = StreamState::initial();
    let (s, a) = s.next(StreamEvent::Start);
    assert_eq!(a, StreamAction::RunProbe);
    let (s, a) = s.next(StreamEvent::ProbeSucceeded);
    assert_eq!(a, StreamAction::SpawnWorker);
    assert!(s.is_active());
    let (s2, a2) = s.next(StreamEvent::Start);
    assert_eq!(s2, s);
    assert_eq!(a2, StreamAction::Nothing);
}

#[test]
fn stop_is_safe_when_stopped() {
    let s = StreamState::initial();
    assert!(!s.is_active());
    let (s, a) = s.next(StreamEvent::Stop);
    assert_eq!((s, a), (StreamState::Idle, StreamAction::Nothing));
    let (s, _) = s.next(StreamEvent::Stop);
    assert!(!s.is_active());
    let handle = StreamHandle::new();
    handle.stop();
    handle.stop();
    assert!(!handle.is_active());
}

#[test]
fn restart_waits_for_old_worker() {
    let s = StreamState::Running;
    let (s, a) = s.next(StreamEvent::Restart);
    assert_eq!(a, StreamAction::SignalStop);
    assert!(s.has_worker());
    let (s, a) = s.next(StreamEvent::Start);
    assert_eq!(a, StreamAction::Nothing);
    let (s, a) = s.next(StreamEvent::WorkerExited);
    assert_eq!((s, a), (StreamState::Probing, StreamAction::RunProbe));
}

#[test]
fn scenario_start_show_probe_then_stop() {
    let config = CaptureConfig::new(0, 640, 480, 30, 0);
    let (s, a) = StreamState::initial().next(StreamEvent::Start);
    assert_eq!(a, StreamAction::RunProbe);
    let probe = CameraFrame::from_process_output(
        config.width,
        config.height,
        true,
        frame_bytes(640, 480, 0),
        String::new(),
        1,
    )
    .unwrap();
    let sink = Some(probe);
    let (s, a) = s.next(StreamEvent::ProbeSucceeded);
    assert_eq!(a, StreamAction::SpawnWorker);
    let handle = StreamHandle::new();
    assert!(handle.is_active());
    assert_eq!(sink.as_ref().unwrap().data.len(), 640 * 480 * 3);
    let (s, a) = s.next(StreamEvent::Stop);
    assert_eq!(a, StreamAction::SignalStop);
    handle.stop();
    assert!(!handle.is_active());
    assert!(!s.is_active());
    let (s, _) = s.next(StreamEvent::WorkerExited);
    assert_eq!(s, StreamState::Idle);
}

#[test]
fn scenario_process_exits_after_ten_frames() {
    let config = CaptureConfig::new(0, 4, 2, 30, 0);
    let mut worker = StreamWorker::new(&config);
    let controller = StreamHandle::new();
    let token = controller.worker_handle();
    let mut shown = 0;
    let mut finished = false;
    let mut reads = 0;
    while token.is_active() {
        reads += 1;
        let bytes = if reads <= 10 { frame_bytes(4, 2, reads as u8) } else { Vec::new() };
        match worker.on_read(bytes, reads) {
            WorkerOutput::Emit(f) => {
                assert_eq!(f.data[0], reads as u8);
                shown += 1;
            }
            WorkerOutput::Hold => {}
            WorkerOutput::Finish(e) => {
                assert_eq!(e.kind_name(), "short read");
                finished = true;
                token.stop();
            }
        }
    }
    assert!(finished);
    assert_eq!(shown, 10);
    assert!(!controller.is_active());
    let (s, a) = StreamState::Running.next(StreamEvent::WorkerExited);
    assert_eq!((s, a), (StreamState::Idle, StreamAction::Nothing));
    assert!(!s.is_active());
}

#[test]
fn delayed_worker_holds_frames() {
    let config = CaptureConfig::new(0, 1, 1, 2, 1);
    let mut worker = StreamWorker::new(&config);
    assert!(matches!(worker.on_read(vec![1, 1, 1], 0), WorkerOutput::Hold));
    assert!(matches!(worker.on_read(vec![2, 2, 2], 0), WorkerOutput::Hold));
    assert_eq!(worker.held_count(), 2);
    match worker.on_read(vec![3, 3, 3], 0) {
        WorkerOutput::Emit(f) => assert_eq!(f.data, vec![1, 1, 1]),
        _ => panic!("the oldest frame must come out"),
    }
    assert!(worker.on_read(vec![4], 0).ends_stream());
    assert_eq!(worker.held_count(), 2);
}

#[test]
fn scenario_failed_probe_starts_nothing() {
    let (s, a) = StreamState::initial().next(StreamEvent::Start);
    assert_eq!(a, StreamAction::RunProbe);
    let probe: Result<CameraFrame, CaptureError> =
        Err(CaptureError::ProcessSpawn("not found".to_string()));
    assert!(probe.is_err());
    let (s, a) = s.next(StreamEvent::ProbeFailed);
    assert_eq!(a, StreamAction::Nothing);
    assert!(!s.is_active());
    assert!(!s.has_worker());
}
