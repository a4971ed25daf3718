use batch_os::app_table::{AppTable, InitError};
use batch_os::batch::BatchManager;
use batch_os::config::{APP_BASE_ADDRESS, APP_SIZE_LIMIT, USER_STACK_TOP};
use batch_os::event::{Action, Event};
use batch_os::kernel::Kernel;
use batch_os::syscall::{sys_write, syscall, SyscallOutcome, SYSCALL_ERROR};
use batch_os::trap::{TrapCause, TrapContext, SSTATUS_SPP};

const SSTATUS: usize = 0x6020;

fn blob_of(images: &[&[u8]]) -> Vec<u8> {
    let header = 8 + 16 * images.len();
    let mut blob = Vec::new();
    blob.extend_from_slice(&(images.len() as u64).to_le_bytes());
    let mut offset = header;
    for image in images {
        blob.extend_from_slice(&(offset as u64).to_le_bytes());
        blob.extend_from_slice(&(image.len() as u64).to_le_bytes());
        offset += image.len();
    }
    for image in images {
        blob.extend_from_slice(image);
    }
    blob
}

fn ecall(cx: &TrapContext, id: usize, a0: usize, a1: usize, a2: usize) -> TrapContext {
    let mut next = *cx;
    next.x[17] = id;
    next.x[10] = a0;
    next.x[11] = a1;
    next.x[12] = a2;
    next.sepc = cx.sepc + 0x40;
    next
}

fn entered(action: Action) -> (usize, TrapContext) {
    match action {
        Action::Enter { app, context } => (app, context),
        other => panic!("expected a launch, got {:?}", other),
    }
}

#[test]
fn three_apps_write_fault_exit() {
    let app0: &[u8] = b"hello\n\x13\x00";
    let app1: &[u8] = b"\xff\xff\xff\xff";
    let app2: &[u8] = b"\x73\x00\x00\x00";
    let mut kernel = Kernel::boot(blob_of(&[app0, app1, app2]), SSTATUS).unwrap();

    let (app, cx) = entered(kernel.run_next_app());
    assert_eq!(app, 0);
    let mut cx = ecall(&cx, 0, 1, APP_BASE_ADDRESS, 6);
    let sepc = cx.sepc;
    assert_eq!(kernel.handle_trap(&mut cx, TrapCause::UserEnvCall, 0), Action::Resume);
    assert_eq!(cx.x[10], 6);
    assert_eq!(cx.sepc, sepc + 4);

    let mut cx = ecall(&cx, 1, 0, 0, 0);
    let (app, _) = entered(kernel.handle_trap(&mut cx, TrapCause::UserEnvCall, 0));
    assert_eq!(app, 1);

    let mut cx = TrapContext::app_init_context(SSTATUS, APP_BASE_ADDRESS, USER_STACK_TOP);
    let (app, cx2) = entered(kernel.handle_trap(&mut cx, TrapCause::IllegalInstruction, 0xffff_ffff));
    assert_eq!(app, 2);

    let mut cx = ecall(&cx2, 1, 0, 0, 0);
    assert_eq!(kernel.handle_trap(&mut cx, TrapCause::UserEnvCall, 0), Action::Halt);

    let expected = vec![
        Event::LoadApp(0),
        Event::Output(b"hello\n".to_vec()),
        Event::Exited(0),
        Event::LoadApp(1),
        Event::Fault { cause: TrapCause::IllegalInstruction, stval: 0xffff_ffff },
        Event::LoadApp(2),
        Event::Exited(0),
        Event::AllDone,
    ];
    assert_eq!(kernel.log(), &expected);
    let outputs = kernel.log().iter().filter(|e| matches!(e, Event::Output(_))).count();
    assert_eq!(outputs, 1);
}

#[test]
fn empty_table_is_refused_at_boot() {
    let blob = blob_of(&[]);
    assert_eq!(Kernel::boot(blob, SSTATUS).err(), Some(InitError::Empty));
}

#[test]
fn short_blob_is_truncated() {
    assert_eq!(Kernel::boot(vec![1, 0, 0], SSTATUS).err(), Some(InitError::Truncated));
    // Declares two applications but holds one header pair.
    let mut blob = blob_of(&[b"ab"]);
    blob[0] = 2;
    blob.truncate(8 + 16);
    assert_eq!(Kernel::boot(blob, SSTATUS).err(), Some(InitError::Truncated));
}

#[test]
fn image_past_the_blob_is_refused() {
    let mut blob = blob_of(&[b"abcd", b"efgh"]);
    // The second image claims one byte more than the blob holds.
    blob[8 + 16 + 8] = 5;
    assert_eq!(Kernel::boot(blob, SSTATUS).err(), Some(InitError::AppOutOfBounds(1)));
}

#[test]
fn image_larger_than_window_is_refused() {
    let big = vec![7u8; APP_SIZE_LIMIT + 1];
    let blob = blob_of(&[b"ok", &big]);
    assert_eq!(Kernel::boot(blob, SSTATUS).err(), Some(InitError::AppTooLarge(1)));
    let exact = vec![7u8; APP_SIZE_LIMIT];
    assert!(Kernel::boot(blob_of(&[&exact]), SSTATUS).is_ok());
}

#[test]
fn run_next_app_called_count_plus_one_times() {
    let mut kernel = Kernel::boot(blob_of(&[b"a", b"b", b"c"]), SSTATUS).unwrap();
    assert_eq!(kernel.app_count(), 3);
    for k in 0..3 {
        assert_eq!(kernel.current_index(), k);
        let (app, _) = entered(kernel.run_next_app());
        assert_eq!(app, k);
        assert_eq!(kernel.current_index(), k + 1);
    }
    assert_eq!(kernel.run_next_app(), Action::Halt);
    assert_eq!(kernel.current_index(), 3);
    assert_eq!(
        kernel.log(),
        &vec![Event::LoadApp(0), Event::LoadApp(1), Event::LoadApp(2), Event::AllDone]
    );
}

#[test]
fn launch_frame_enters_user_mode() {
    let mut kernel = Kernel::boot(blob_of(&[b"a"]), SSTATUS | SSTATUS_SPP).unwrap();
    let (_, cx) = entered(kernel.run_next_app());
    assert_eq!(cx.sepc, APP_BASE_ADDRESS);
    assert_eq!(cx.x[2], USER_STACK_TOP);
    assert_eq!(cx.sstatus, SSTATUS);
    assert!(cx.x.iter().enumerate().all(|(i, r)| i == 2 || *r == 0));
}

#[test]
fn write_to_unknown_fd_fails_without_output() {
    let mut kernel = Kernel::boot(blob_of(&[b"hello"]), SSTATUS).unwrap();
    let (_, cx) = entered(kernel.run_next_app());
    let mut cx = ecall(&cx, 0, 2, APP_BASE_ADDRESS, 5);
    assert_eq!(kernel.handle_trap(&mut cx, TrapCause::UserEnvCall, 0), Action::Resume);
    assert_eq!(cx.x[10] as isize, -1);
    assert_eq!(kernel.log(), &vec![Event::LoadApp(0)]);
}

#[test]
fn write_outside_window_fails() {
    let mut window = vec![0u8; APP_SIZE_LIMIT];
    let mut log = Vec::new();
    assert_eq!(sys_write(1, APP_BASE_ADDRESS - 1, 4, &window, &mut log), SYSCALL_ERROR);
    assert_eq!(
        sys_write(1, APP_BASE_ADDRESS + APP_SIZE_LIMIT - 2, 4, &window, &mut log),
        SYSCALL_ERROR
    );
    assert!(log.is_empty());
    window[APP_SIZE_LIMIT - 2] = b'o';
    window[APP_SIZE_LIMIT - 1] = b'k';
    assert_eq!(sys_write(1, APP_BASE_ADDRESS + APP_SIZE_LIMIT - 2, 2, &window, &mut log), 2);
    assert_eq!(log, vec![Event::Output(b"ok".to_vec())]);
}

#[test]
fn write_of_zero_bytes_reports_zero() {
    let window = vec![0u8; APP_SIZE_LIMIT];
    let mut log = Vec::new();
    assert_eq!(sys_write(1, APP_BASE_ADDRESS, 0, &window, &mut log), 0);
    assert_eq!(log, vec![Event::Output(Vec::new())]);
}

#[test]
fn unknown_syscall_resumes_with_error() {
    let window = vec![0u8; APP_SIZE_LIMIT];
    let mut log = Vec::new();
    assert_eq!(syscall(93, [1, 2, 3], &window, &mut log), SyscallOutcome::Return(-1));
    assert!(log.is_empty());
    assert_eq!(syscall(1, [(-3i32) as u32 as usize, 0, 0], &window, &mut log), SyscallOutcome::Exit(-3));
    assert_eq!(log, vec![Event::Exited(-3)]);

    let mut kernel = Kernel::boot(blob_of(&[b"a", b"b"]), SSTATUS).unwrap();
    let (_, cx) = entered(kernel.run_next_app());
    let mut cx = ecall(&cx, 7, 0, 0, 0);
    let sepc = cx.sepc;
    assert_eq!(kernel.handle_trap(&mut cx, TrapCause::UserEnvCall, 0), Action::Resume);
    assert_eq!(cx.x[10], usize::MAX);
    assert_eq!(cx.sepc, sepc + 4);
    assert_eq!(kernel.current_index(), 1);
}

#[test]
fn fault_moves_on_like_exit() {
    let images: [&[u8]; 2] = [b"a", b"b"];
    let mut by_exit = Kernel::boot(blob_of(&images), SSTATUS).unwrap();
    let mut by_fault = Kernel::boot(blob_of(&images), SSTATUS).unwrap();
    let (_, cx) = entered(by_exit.run_next_app());
    entered(by_fault.run_next_app());
    let mut exit_cx = ecall(&cx, 1, 0, 0, 0);
    let mut fault_cx = cx;
    let after_exit = by_exit.handle_trap(&mut exit_cx, TrapCause::UserEnvCall, 0);
    let after_fault = by_fault.handle_trap(&mut fault_cx, TrapCause::StorePageFault, 0x10);
    assert_eq!(after_exit, after_fault);
    assert_eq!(by_exit.current_index(), by_fault.current_index());
    let unsupported = TrapCause::Unsupported { interrupt: true, code: 5 };
    let mut cx = cx;
    assert_eq!(by_fault.handle_trap(&mut cx, unsupported, 0), Action::Halt);
    assert_eq!(
        by_fault.log(),
        &vec![
            Event::LoadApp(0),
            Event::Fault { cause: TrapCause::StorePageFault, stval: 0x10 },
            Event::LoadApp(1),
            Event::Fault { cause: unsupported, stval: 0 },
            Event::AllDone,
        ]
    );
}

#[test]
fn smaller_app_does_not_inherit_stale_bytes() {
    let big = vec![0xaau8; 64];
    let table = AppTable::parse(blob_of(&[&big, b"\x01\x02"])).unwrap();
    let mut batch = BatchManager::new(table);
    assert!(batch.window_bytes().iter().all(|b| *b == 0));
    let mut log = Vec::new();
    entered(batch.run_next_app(SSTATUS, &mut log));
    assert_eq!(&batch.window_bytes()[..64], &big[..]);
    entered(batch.run_next_app(SSTATUS, &mut log));
    let window = batch.window_bytes();
    assert_eq!(window.len(), APP_SIZE_LIMIT);
    assert_eq!(&window[..2], b"\x01\x02");
    assert!(window[2..].iter().all(|b| *b == 0));
    assert_eq!(batch.run_next_app(SSTATUS, &mut log), Action::Halt);
    assert_eq!(batch.current_index(), 2);
}

#[test]
fn table_reads_offsets_and_lengths() {
    let table = AppTable::parse(blob_of(&[b"xyz", b"", b"q"])).unwrap();
    assert_eq!(table.len(), 3);
    assert_eq!(table.app_len(0), 3);
    assert_eq!(table.app_len(1), 0);
    assert_eq!(table.app_byte(0, 2), b'z');
    assert_eq!(table.app_byte(2, 0), b'q');
}

#[test]
fn trap_causes_are_classified() {
    assert_eq!(TrapCause::classify(false, 8), TrapCause::UserEnvCall);
    assert_eq!(TrapCause::classify(false, 2), TrapCause::IllegalInstruction);
    assert_eq!(TrapCause::classify(false, 5), TrapCause::LoadFault);
    assert_eq!(TrapCause::classify(false, 13), TrapCause::LoadPageFault);
    assert_eq!(TrapCause::classify(false, 7), TrapCause::StoreFault);
    assert_eq!(TrapCause::classify(false, 15), TrapCause::StorePageFault);
    assert_eq!(
        TrapCause::classify(false, 9),
        TrapCause::Unsupported { interrupt: false, code: 9 }
    );
    assert_eq!(
        TrapCause::classify(true, 8),
        TrapCause::Unsupported { interrupt: true, code: 8 }
    );
}
