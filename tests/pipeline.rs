use gfx_core::present::{Presenter, SurfaceOutcome};
use futures::channel::oneshot;
use futures::executor::{block_on, ThreadPool};
use futures::future::lazy;
use gfx_core::load::{LoadError, LoadEvent, LoadState};
use gfx_core::model::{decode_mesh, DecodeError, DecodedMesh, HEADER_LEN};
use gfx_core::pool::{cpu_pool_threads, cpu_pool_threads_for, DISK_POOL_THREADS, GPU_EXECUTOR_THREADS};
use gfx_core::task::{fence_outcome, GpuCompletion, ChainAction, ChainError, ChainEvent, ChainStage, ChainedTask, FenceStatus, Task};
use std::sync::atomic::{AtomicUsize, Ordering};
use std::sync::Arc;

type Chain = ChainedTask<u32, &'static str, &'static str>;
type Event = ChainEvent<Vec<u8>, u32, &'static str, &'static str>;

#[test]
fn resolved_task_returns_same_value_on_every_poll() {
    let mut t: Task<u32, String> = Task::new();
    assert!(!t.poll(None));
    assert_eq!(t.outcome_ref(), &None);
    assert!(t.poll(Some(Ok(5))));
    for _ in 0..3 {
        assert!(t.poll(Some(Ok(7))));
        assert!(t.poll(Some(Err("late".to_string()))));
        assert!(t.poll(None));
        assert_eq!(t.outcome_ref(), &Some(Ok(5)));
    }
}

#[test]
fn task_error_is_kept_too() {
    let mut t: Task<u32, &str> = Task::new();
    assert!(t.poll(Some(Err("boom"))));
    assert!(t.poll(Some(Ok(1))));
    assert_eq!(t.outcome_ref(), &Some(Err("boom")));
}

#[test]
fn fence_statuses_map_to_deliveries() {
    assert_eq!(fence_outcome::<&str>(FenceStatus::Signaled), Some(Ok(())));
    assert_eq!(fence_outcome::<&str>(FenceStatus::Timeout), None);
    assert_eq!(fence_outcome(FenceStatus::Failed("device lost")), Some(Err("device lost")));
    let mut t: Task<(), &str> = Task::new();
    assert!(!t.poll(fence_outcome(FenceStatus::Timeout)));
    assert!(t.poll(fence_outcome(FenceStatus::Failed("device lost"))));
    assert!(t.poll(fence_outcome(FenceStatus::Signaled)));
    assert_eq!(t.outcome_ref(), &Some(Err("device lost")));
}

/// Feeds `events` to a fresh chain and counts the CPU dispatches it asks for.
fn run_chain(events: Vec<Event>) -> (Chain, usize) {
    let mut chain: Chain = ChainedTask::new();
    let mut cpu_runs = 0;
    for e in events {
        if let ChainAction::DispatchCpu(_) = chain.step(e) {
            cpu_runs += 1;
        }
    }
    (chain, cpu_runs)
}

#[test]
fn disk_failure_never_runs_cpu_stage() {
    let (chain, cpu_runs) = run_chain(vec![
        ChainEvent::Nothing,
        ChainEvent::DiskDone(Err("not found")),
        ChainEvent::DiskDone(Ok(vec![1])),
        ChainEvent::CpuDone(Ok(3)),
    ]);
    assert_eq!(cpu_runs, 0);
    assert!(chain.is_done());
    assert!(matches!(chain.result(), Some(Err(ChainError::Disk("not found")))));
}

#[test]
fn cpu_stage_runs_once_after_disk_success() {
    let mut chain: Chain = ChainedTask::new();
    assert!(matches!(chain.step::<Vec<u8>>(ChainEvent::CpuDone(Ok(9))), ChainAction::Wait));
    assert!(matches!(chain.stage, ChainStage::AwaitingDisk));
    match chain.step(ChainEvent::DiskDone(Ok(vec![4, 2]))) {
        ChainAction::DispatchCpu(bytes) => assert_eq!(bytes, vec![4, 2]),
        ChainAction::Wait => panic!("cpu stage not dispatched"),
    }
    assert!(matches!(chain.step(ChainEvent::DiskDone(Ok(vec![0]))), ChainAction::Wait));
    assert!(!chain.is_done());
    chain.step::<Vec<u8>>(ChainEvent::CpuDone(Ok(42)));
    assert!(matches!(chain.result(), Some(Ok(42))));
}

#[test]
fn decode_error_is_reported_apart_from_disk_error() {
    let (chain, cpu_runs) = run_chain(vec![
        ChainEvent::DiskDone(Ok(vec![0])),
        ChainEvent::CpuDone(Err("malformed")),
    ]);
    assert_eq!(cpu_runs, 1);
    assert!(matches!(chain.result(), Some(Err(ChainError::Decode("malformed")))));
}

type MeshLoad = LoadState<DecodedMesh, String, DecodeError, String>;

fn mesh_bytes() -> Vec<u8> {
    let mut b = b"nmdl".to_vec();
    let vc: u32 = 6;
    let pos = HEADER_LEN as u32;
    for v in [1, vc, pos, pos + 12 * vc, pos + 24 * vc, 0, vc, pos + 32 * vc] {
        b.extend_from_slice(&v.to_le_bytes());
    }
    b.push(0);
    b.extend_from_slice(&(pos + 36 * vc).to_le_bytes());
    b.resize(b.len() + 36 * vc as usize, 0);
    b
}

/// Loads `bytes` through a disk pool and a CPU pool, polling once per cycle,
/// and returns the final state, the poll cycles used, and how many GPU
/// uploads were started.
fn load_through_pools(bytes: Vec<u8>) -> (MeshLoad, usize, usize) {
    let disk = ThreadPool::builder().pool_size(DISK_POOL_THREADS).create().unwrap();
    let cpu = ThreadPool::builder().pool_size(cpu_pool_threads_for(2)).create().unwrap();
    let (disk_tx, disk_rx) = oneshot::channel::<Result<Vec<u8>, String>>();
    disk.spawn_ok(lazy(move |_| {
        let _ = disk_tx.send(Ok(bytes));
    }));
    let mut disk_rx = Some(disk_rx);
    let mut cpu_rx: Option<oneshot::Receiver<Result<DecodedMesh, DecodeError>>> = None;
    let mut state: MeshLoad = LoadState::new();
    let mut uploads = 0;
    let mut cycles = 0;
    while !state.is_ready() && !state.is_failed() && cycles < 10 {
        cycles += 1;
        let event = if let Some(rx) = disk_rx.take() {
            LoadEvent::Chain(ChainEvent::DiskDone(block_on(rx).unwrap()))
        } else if let Some(rx) = cpu_rx.take() {
            LoadEvent::Chain(ChainEvent::CpuDone(block_on(rx).unwrap()))
        } else if matches!(state, LoadState::Gpu(_)) {
            LoadEvent::Fence(FenceStatus::Signaled)
        } else {
            LoadEvent::Chain(ChainEvent::Nothing)
        };
        let was_gpu = matches!(state, LoadState::Gpu(_));
        if let ChainAction::DispatchCpu(bytes) = state.advance(event) {
            let (tx, rx) = oneshot::channel();
            cpu.spawn_ok(lazy(move |_| {
                let _ = tx.send(decode_mesh(&bytes));
            }));
            cpu_rx = Some(rx);
        }
        if !was_gpu && matches!(state, LoadState::Gpu(_)) {
            uploads += 1;
        }
    }
    (state, cycles, uploads)
}

#[test]
fn e2e_well_formed_mesh_loads() {
    let (state, cycles, uploads) = load_through_pools(mesh_bytes());
    assert!(state.is_ready());
    assert!(cycles <= 3);
    assert_eq!(uploads, 1);
    let mesh = state.ready_value().unwrap();
    assert_eq!(mesh.vertex_count, 6);
    assert_eq!(mesh.positions.len(), 18);
}

#[test]
fn e2e_truncated_mesh_fails_without_upload() {
    let mut bytes = mesh_bytes();
    bytes.truncate(bytes.len() - 5);
    let (state, _, uploads) = load_through_pools(bytes);
    assert!(state.is_failed());
    assert!(matches!(state, LoadState::Failed(LoadError::Decode(DecodeError::Truncated))));
    assert_eq!(uploads, 0);
    assert!(state.ready_value().is_none());
}

#[test]
fn ready_state_ignores_later_events() {
    let mut state: LoadState<u32, &str, &str, &str> = LoadState::new();
    state.advance(LoadEvent::Chain(ChainEvent::<(), u32, &str, &str>::DiskDone(Ok(()))));
    state.advance(LoadEvent::Fence::<(), u32, &str, &str, &str>(FenceStatus::Signaled));
    assert!(!state.is_ready());
    state.advance(LoadEvent::Chain(ChainEvent::<(), u32, &str, &str>::CpuDone(Ok(8))));
    assert!(matches!(state, LoadState::Gpu(8)));
    state.advance(LoadEvent::Fence::<(), u32, &str, &str, &str>(FenceStatus::Timeout));
    assert!(matches!(state, LoadState::Gpu(8)));
    state.advance(LoadEvent::Fence::<(), u32, &str, &str, &str>(FenceStatus::Signaled));
    for _ in 0..3 {
        assert_eq!(state.ready_value(), Some(&8));
        state.advance(LoadEvent::Fence::<(), u32, &str, &str, &str>(FenceStatus::Failed("lost")));
        state.advance(LoadEvent::Chain(ChainEvent::<(), u32, &str, &str>::DiskDone(Err("x"))));
    }
    assert_eq!(state.ready_value(), Some(&8));
}

#[test]
fn gpu_failure_is_terminal() {
    let mut state: LoadState<u32, &str, &str, &str> = LoadState::new();
    state.advance(LoadEvent::Chain(ChainEvent::<(), u32, &str, &str>::DiskDone(Ok(()))));
    state.advance(LoadEvent::Chain(ChainEvent::<(), u32, &str, &str>::CpuDone(Ok(8))));
    state.advance(LoadEvent::Fence::<(), u32, &str, &str, &str>(FenceStatus::Failed("device lost")));
    assert!(matches!(state, LoadState::Failed(LoadError::Gpu("device lost"))));
    state.advance(LoadEvent::Fence::<(), u32, &str, &str, &str>(FenceStatus::Signaled));
    assert!(state.is_failed());
}

#[test]
fn disk_pool_runs_one_task_at_a_time() {
    let disk = ThreadPool::builder().pool_size(DISK_POOL_THREADS).create().unwrap();
    let running = Arc::new(AtomicUsize::new(0));
    let peak = Arc::new(AtomicUsize::new(0));
    let mut done = Vec::new();
    for k in 0..8u64 {
        let (tx, rx) = oneshot::channel::<u64>();
        let running = running.clone();
        let peak = peak.clone();
        disk.spawn_ok(lazy(move |_| {
            let now = running.fetch_add(1, Ordering::SeqCst) + 1;
            peak.fetch_max(now, Ordering::SeqCst);
            let mut x = k;
            for i in 0..20_000u64 {
                x = x.wrapping_mul(6364136223846793005).wrapping_add(i);
            }
            running.fetch_sub(1, Ordering::SeqCst);
            let _ = tx.send(x);
        }));
        done.push(rx);
    }
    for rx in done {
        block_on(rx).unwrap();
    }
    assert_eq!(peak.load(Ordering::SeqCst), 1);
}

#[test]
fn pool_sizes() {
    assert_eq!(DISK_POOL_THREADS, 1);
    assert_eq!(GPU_EXECUTOR_THREADS, 1);
    assert_eq!(cpu_pool_threads_for(0), 1);
    assert_eq!(cpu_pool_threads_for(1), 1);
    assert_eq!(cpu_pool_threads_for(2), 1);
    assert_eq!(cpu_pool_threads_for(8), 7);
    assert!(cpu_pool_threads() >= 1);
}

#[test]
fn present_skips_out_of_date_frames_and_retries() {
    let mut p = Presenter::new();
    assert!(!p.take_resize());
    p.request_resize();
    assert!(p.take_resize());
    assert!(!p.take_resize());
    assert_eq!(p.settle::<usize, &str>(SurfaceOutcome::Done(2)), Ok(Some(2)));
    assert!(!p.take_resize());
    assert_eq!(p.settle::<usize, &str>(SurfaceOutcome::OutOfDate), Ok(None));
    assert!(p.take_resize());
    assert_eq!(p.settle::<usize, &str>(SurfaceOutcome::Failed("device lost")), Err("device lost"));
    assert!(!p.take_resize());
}

#[test]
fn gpu_completion_stops_checking_once_resolved() {
    let mut done: GpuCompletion<&str> = GpuCompletion::new();
    assert!(done.needs_check());
    assert!(!done.poll(FenceStatus::Timeout));
    assert!(done.needs_check());
    assert!(done.poll(FenceStatus::Signaled));
    assert!(!done.needs_check());
    assert!(done.poll(FenceStatus::Failed("device lost")));
    assert_eq!(done.outcome_ref(), &Some(Ok(())));

    let mut lost: GpuCompletion<&str> = GpuCompletion::new();
    assert!(lost.poll(FenceStatus::Failed("device lost")));
    assert!(!lost.needs_check());
    assert_eq!(lost.outcome_ref(), &Some(Err("device lost")));
}
