use oes::miri::MiriFrame;

#[test]
fn thread() {
    // thread_id = miri_thread_spawn(|_| {}, None);
}

fn sample() {}

#[test]
fn frame_compares_function_address() {
    let addr = sample as fn() as usize;
    let frame = MiriFrame { name_len: 6, filename_len: 7, lineno: 1, colno: 1, fn_ptr: addr };
    assert!(frame.compare_fn_ptr(addr));
    assert!(!frame.compare_fn_ptr(addr + 1));
}
