use bxt_rs::hooks::{
    con_toggle_console, host_filter_time, host_filter_time_passed, s_paint_channels, v_apply_shake,
    v_fade_alpha, HookStep,
};
use bxt_rs::main_thread_ref_cell::{MainThreadMarker, MainThreadRefCell};

#[test]
fn ref_cell_reads_what_was_written() {
    let marker = MainThreadMarker::new();
    let mut cell = MainThreadRefCell::new(vec![1, 2]);
    assert_eq!(*cell.borrow(marker), vec![1, 2]);
    cell.borrow_mut(marker).push(3);
    assert_eq!(*cell.borrow(marker), vec![1, 2, 3]);
    *cell.borrow_mut(marker) = Vec::new();
    assert!(cell.borrow(marker).is_empty());
}

#[test]
fn hooks_decide_whether_the_engine_runs() {
    assert_eq!(v_apply_shake(true), HookStep::Return(()));
    assert_eq!(v_apply_shake(false), HookStep::CallOriginal);
    assert_eq!(v_fade_alpha(true), HookStep::Return(0));
    assert_eq!(v_fade_alpha(false), HookStep::CallOriginal);
    assert_eq!(s_paint_channels(true), HookStep::Return(()));
    assert_eq!(s_paint_channels(false), HookStep::CallOriginal);
    assert_eq!(con_toggle_console(true), HookStep::Return(()));
    assert_eq!(con_toggle_console(false), HookStep::CallOriginal);
    assert_eq!(host_filter_time(true), HookStep::Return(1));
    assert_eq!(host_filter_time(false), HookStep::CallOriginal);
    assert!(host_filter_time_passed(1));
    assert!(host_filter_time_passed(-5));
    assert!(!host_filter_time_passed(0));
}
