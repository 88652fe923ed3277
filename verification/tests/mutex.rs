use oes::mutex::Mutex;

#[test]
fn lock_then_unlock_frees_the_lock() {
    let mut m = Mutex::new(5u32);
    {
        let mut g = m.lock();
        assert_eq!(g.ticket, 0);
        assert_eq!(*g, 5);
        *g.get_mut() = 6;
        g.unlock();
    }
    {
        let g = m.lock();
        assert_eq!(g.ticket, 1);
        assert_eq!(*g, 6);
        g.unlock();
    }
    assert_eq!(m.into_inner(), 6);
}

#[test]
fn try_lock_only_takes_a_free_lock() {
    let mut m = Mutex::new(1u8);
    let g = m.try_lock().unwrap();
    assert_eq!(g.ticket, 0);
    let r = oes::mutex::MutexGuard::leak(g);
    *r = 9;
    assert!(m.try_lock().is_none());
    assert!(m.try_lock().is_none());
    m.force_unlock();
    let g = m.lock();
    assert_eq!(g.ticket, 1);
    assert_eq!(*g, 9);
    g.unlock();
}

#[test]
fn get_mut_and_default() {
    let mut m: Mutex<u64> = Mutex::default();
    *m.get_mut() += 3;
    assert_eq!(m.into_inner(), 3);
}

#[test]
fn tickets_wrap_around() {
    let mut m = Mutex::new(());
    for i in 0..70000u32 {
        let g = m.lock();
        assert_eq!(g.ticket, (i % 65536) as u16);
        g.unlock();
    }
}
