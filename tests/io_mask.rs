use libsystemd::{IoEventMask, IoEventMaskBuilder, IoEventTriggering};

#[test]
fn new_mask_reports_error_and_hangup() {
    let m = IoEventMask::new();
    assert!(m.epollerr());
    assert!(m.epollhup());
    assert!(!m.epollin());
    assert!(!m.epollout());
    assert!(!m.epollrdhup());
    assert!(!m.epollpri());
    assert_eq!(u32::from(m), 0x018);
}

#[test]
fn setters_set_and_clear_one_condition() {
    let mut m = IoEventMask::new();
    m.set_epollin(true);
    m.set_epollout(true);
    assert!(m.epollin() && m.epollout());
    assert_eq!(u32::from(m), 0x01d);
    m.set_epollin(false);
    assert!(!m.epollin());
    assert!(m.epollout() && m.epollerr() && m.epollhup());
    m.set_epollrdhup(true);
    m.set_epollpri(true);
    assert_eq!(u32::from(m), 0x201e);
    m.set_epollrdhup(false);
    m.set_epollpri(false);
    m.set_epollout(false);
    assert_eq!(u32::from(m), 0x018);
}

#[test]
fn builder_composes_a_mask() {
    let m: IoEventMask = IoEventMask::builder()
        .set_epollin(true)
        .set_epollpri(true)
        .set_epollout(true)
        .set_epollout(false)
        .build();
    assert!(m.epollin() && m.epollpri() && !m.epollout());
    assert_eq!(u32::from(m), 0x01b);
    let b: IoEventMaskBuilder = IoEventMask::builder().set_epollrdhup(true);
    assert_eq!(u32::from(IoEventMask::from(b)), 0x2018);
}

#[test]
fn raw_mask_conversions() {
    let m = IoEventMask::from(0x005u32);
    assert!(m.epollin() && m.epollout() && !m.epollerr());
    assert_eq!(u32::from(m), 0x005);
}

#[test]
fn triggering_mode_in_raw_mask() {
    let level = IoEventTriggering::LevelTriggered(IoEventMask::builder().set_epollin(true).build());
    assert_eq!(u32::from(level), 0x019);
    let edge = IoEventTriggering::EdgeTriggered(IoEventMask::builder().set_epollin(true).build());
    assert_eq!(u32::from(edge), 0x8000_0019);
}

#[test]
fn mask_description() {
    assert_eq!(IoEventMask::new().describe(), "IoEventMask(EPOLLERR+EPOLLHUP)");
    assert_eq!(IoEventMask::from(0u32).describe(), "IoEventMask()");
    assert_eq!(IoEventMask::from(0x001u32).describe(), "IoEventMask(EPOLLIN)");
    assert_eq!(
        IoEventMask::from(0xffff_ffffu32).describe(),
        "IoEventMask(EPOLLIN+EPOLLOUT+EPOLLRDHUP+EPOLLPRI+EPOLLERR+EPOLLHUP)"
    );
}
