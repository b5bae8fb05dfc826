//! Dispatch, channel, and render-loop behavior.

use simple_sys_info::Category;
use simple_sys_info::Measurements;
use simple_sys_info::Snapshot;
use simple_sys_info::channel::snapshot_channel;
use simple_sys_info::channel::try_recv_snapshot;
use simple_sys_info::channel::try_send_snapshot;
use simple_sys_info::channel::SendFailure;
use simple_sys_info::sys_stats::cpu::CpuMeasurements;
use simple_sys_info::sys_stats::cpu::CpuTime;
use simple_sys_info::sys_stats::memory::MemoryMeasurments;
use simple_sys_info::sys_stats::nvidia_gpu::NvidiaGpuMeasurements;
use simple_sys_info::sys_stats::socket::SocketStatMeasurements;
use simple_sys_info::sys_stats::sys_stats_handler::poller_step;
use simple_sys_info::sys_stats::sys_stats_handler::PollerDirective;
use simple_sys_info::ui::ui_handler::quit_requested;
use simple_sys_info::ui::ui_handler::receive_and_dispatch;
use simple_sys_info::ui::ui_handler::KeyPress;
use simple_sys_info::ui::ui_handler::RenderEvent;
use simple_sys_info::ui::ui_handler::RenderLoop;
use simple_sys_info::ui::ui_handler::RenderPhase;
use simple_sys_info::ui::ui_measurements::UIMeasurements;
use simple_sys_info::ParseError;
use simple_sys_info::ReadError;

fn mem_snapshot(total: u64) -> Snapshot {
    Snapshot::Memory(MemoryMeasurments::new(total, 1, 2))
}

fn socket_snapshot(tcp: usize) -> Snapshot {
    Snapshot::Socket(SocketStatMeasurements::new(tcp, 0, 0))
}

#[test]
fn every_snapshot_knows_its_category() {
    assert_eq!(mem_snapshot(1).category(), Category::Memory);
    assert_eq!(socket_snapshot(1).category(), Category::Socket);
    assert_eq!(
        Snapshot::Cpu(CpuMeasurements::new(Vec::new())).category(),
        Category::Cpu
    );
    assert_eq!(
        NvidiaGpuMeasurements::default().category(),
        Category::Gpu
    );
}

#[test]
fn dispatch_updates_only_its_own_slot() {
    let mut state = UIMeasurements::default();
    state.dispatch(mem_snapshot(777));

    assert_eq!(state.ui_memory_data().mem_total(), 777);
    // Every other slot is still its empty default.
    assert!(state.ui_cpu_data().cpu_time().is_empty());
    assert!(state.ui_disk_data().sd_utilization().is_empty());
    assert_eq!(state.ui_socket_data().tcp_inuse(), 0);
    assert_eq!(state.ui_nvidia_gpu_data().gpu_name(), "");

    state.dispatch(socket_snapshot(9));
    assert_eq!(state.ui_socket_data().tcp_inuse(), 9);
    // The earlier memory value is untouched by the socket dispatch.
    assert_eq!(state.ui_memory_data().mem_total(), 777);
}

#[test]
fn dispatch_replaces_the_slot_whole() {
    let mut state = UIMeasurements::default();
    let core = CpuTime::new(String::from("cpu0"), 1, 2, 3, 4);
    state.dispatch(Snapshot::Cpu(CpuMeasurements::new(vec![core])));
    assert_eq!(state.ui_cpu_data().cpu_time().len(), 1);

    state.dispatch(Snapshot::Cpu(CpuMeasurements::new(Vec::new())));
    // Full replacement, no merging with the previous arrival.
    assert!(state.ui_cpu_data().cpu_time().is_empty());
}

#[test]
fn channel_round_trip_keeps_the_last_snapshot_per_category() {
    let (tx, mut rx) = snapshot_channel(100);
    // Three memory snapshots interleaved with socket snapshots.
    for k in 0..3u64 {
        try_send_snapshot(&tx, mem_snapshot(k)).unwrap_or_else(|_| panic!("send failed"));
        try_send_snapshot(&tx, socket_snapshot(10 + k as usize))
            .unwrap_or_else(|_| panic!("send failed"));
    }

    let mut state = UIMeasurements::default();
    let mut received: usize = 0;
    while receive_and_dispatch(&mut rx, &mut state).is_some() {
        received += 1;
    }
    assert_eq!(received, 6);
    // Last write wins in each category.
    assert_eq!(state.ui_memory_data().mem_total(), 2);
    assert_eq!(state.ui_socket_data().tcp_inuse(), 12);
}

#[test]
fn channel_preserves_one_senders_order() {
    let (tx, mut rx) = snapshot_channel(10);
    try_send_snapshot(&tx, mem_snapshot(1)).unwrap_or_else(|_| panic!("send failed"));
    try_send_snapshot(&tx, mem_snapshot(2)).unwrap_or_else(|_| panic!("send failed"));

    let first = try_recv_snapshot(&mut rx).expect("a snapshot is waiting");
    let second = try_recv_snapshot(&mut rx).expect("a snapshot is waiting");
    assert!(matches!(first, Snapshot::Memory(m) if m.mem_total() == 1));
    assert!(matches!(second, Snapshot::Memory(m) if m.mem_total() == 2));
    assert!(try_recv_snapshot(&mut rx).is_none());
}

#[test]
fn full_channel_hands_the_snapshot_back() {
    let (tx, mut rx) = snapshot_channel(2);
    try_send_snapshot(&tx, mem_snapshot(1)).unwrap_or_else(|_| panic!("send failed"));
    try_send_snapshot(&tx, mem_snapshot(2)).unwrap_or_else(|_| panic!("send failed"));

    // At capacity: the third send does not go through, and the
    // snapshot comes back instead of being dropped.
    match try_send_snapshot(&tx, mem_snapshot(3)) {
        Err(SendFailure::Full(s)) => {
            assert!(matches!(s, Snapshot::Memory(m) if m.mem_total() == 3));
        }
        _ => panic!("expected the channel to be full"),
    }

    // One receive frees room for exactly one more send.
    assert!(try_recv_snapshot(&mut rx).is_some());
    assert!(try_send_snapshot(&tx, mem_snapshot(3)).is_ok());
}

#[test]
fn closed_channel_hands_the_snapshot_back() {
    let (tx, rx) = snapshot_channel(2);
    drop(rx);
    match try_send_snapshot(&tx, mem_snapshot(5)) {
        Err(f) => {
            assert!(matches!(f, SendFailure::Closed(_)));
            assert!(matches!(f.into_snapshot(), Snapshot::Memory(m) if m.mem_total() == 5));
        }
        Ok(()) => panic!("send into a closed channel cannot succeed"),
    }
}

#[test]
fn poller_publishes_reads_and_stops_on_failure() {
    match poller_step(Ok(mem_snapshot(4))) {
        PollerDirective::Publish(Snapshot::Memory(m)) => assert_eq!(m.mem_total(), 4),
        _ => panic!("a successful read must be published"),
    }
    match poller_step(Err(ReadError::Parse(ParseError::NotNumeric))) {
        PollerDirective::Stop(ReadError::Parse(ParseError::NotNumeric)) => {}
        _ => panic!("a failed read must stop the poller"),
    }
}

#[test]
fn quit_key_is_a_press_of_q() {
    assert!(quit_requested(Some(KeyPress { ch: 'q', is_press: true })));
    assert!(!quit_requested(Some(KeyPress { ch: 'q', is_press: false })));
    assert!(!quit_requested(Some(KeyPress { ch: 'x', is_press: true })));
    assert!(!quit_requested(None));
}

#[test]
fn render_loop_quits_cleanly_after_the_quit_key() {
    let mut rl = RenderLoop::new();
    assert_eq!(rl.phase(), RenderPhase::Running);
    assert!(!rl.should_restore());

    rl.observe(RenderEvent::Frame { quit_requested: false });
    assert_eq!(rl.phase(), RenderPhase::Running);

    rl.observe(RenderEvent::Frame { quit_requested: true });
    assert_eq!(rl.phase(), RenderPhase::ShuttingDown);
    assert!(rl.should_restore());

    rl.mark_restored();
    assert_eq!(rl.phase(), RenderPhase::Stopped);
    assert!(!rl.should_restore());
}

#[test]
fn render_loop_restores_after_a_draw_failure() {
    let mut rl = RenderLoop::new();
    rl.observe(RenderEvent::DrawFailed);
    assert_eq!(rl.phase(), RenderPhase::ShuttingDown);
    assert!(rl.should_restore());
    rl.mark_restored();
    assert_eq!(rl.phase(), RenderPhase::Stopped);
}

#[test]
fn render_loop_restores_after_an_input_failure() {
    let mut rl = RenderLoop::new();
    rl.observe(RenderEvent::InputFailed);
    assert!(rl.should_restore());
    rl.mark_restored();
    assert_eq!(rl.phase(), RenderPhase::Stopped);
}
