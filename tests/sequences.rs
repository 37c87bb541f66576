use st7701s::{sequence_linux_kernel, sequence_tdo, Mode, Step};

fn sends(steps: &[Step]) -> Vec<(u8, Vec<u8>)> {
    steps
        .iter()
        .filter_map(|s| match s {
            Step::Send(c) => Some((c.address, c.parameters.clone())),
            Step::Sleep(_) => None,
        })
        .collect()
}

fn sleeps(steps: &[Step]) -> Vec<u64> {
    steps
        .iter()
        .filter_map(|s| match s {
            Step::Sleep(ms) => Some(*ms),
            Step::Send(_) => None,
        })
        .collect()
}

#[test]
fn tdo_sequence_shape() {
    let steps = sequence_tdo::init_steps(&Mode::tdo_mode());
    assert_eq!(steps.len(), 39);
    assert_eq!(sleeps(&steps), vec![120]);
    let s = sends(&steps);
    assert_eq!(s[0], (0xFF, vec![0x77, 0x01, 0x00, 0x00, 0x10]));
    assert_eq!(s[1], (0xC0, vec![0x3B, 0x00]));
    assert_eq!(s[2], (0xC1, vec![10, 16]));
    assert_eq!(s[3], (0xC2, vec![0x30, 0x02]));
    assert_eq!(s[4], (0xCC, vec![0x10]));
    assert_eq!(s[5], (0xCD, vec![0x08]));
    assert_eq!(s[8], (0xFF, vec![0x77, 0x01, 0x00, 0x00, 0x11]));
    assert_eq!(s[14], (0xB7, vec![0x85]));
    assert_eq!(s[17], (0xC2, vec![0x78]));
    assert_eq!(s[18], (0xD0, vec![0x88]));
    let last = s.len() - 1;
    assert_eq!(s[last], (0x3A, vec![0x60]));
    assert_eq!(s[last - 1], (0x36, vec![0x00]));
    assert_eq!(s[last - 2], (0x29, vec![]));
    assert_eq!(s[last - 3], (0x11, vec![]));
    assert_eq!(s[last - 4], (0xFF, vec![0x77, 0x01, 0x00, 0x00, 0x00]));
}

#[test]
fn linux_kernel_sequence_shape() {
    let steps = sequence_linux_kernel::init_steps(&Mode::default_mode());
    assert_eq!(sleeps(&steps), vec![10, 300, 200]);
    assert!(matches!(steps.last(), Some(Step::Sleep(200))));
    let s = sends(&steps);
    assert_eq!(s.len(), 36);
    assert_eq!(s[0], (0x01, vec![]));
    assert_eq!(s[1], (0x11, vec![]));
    assert_eq!(s[2], (0xFF, vec![0x77, 0x01, 0x00, 0x00, 0x10]));
    assert_eq!(s[5], (0xC0, vec![0xE9, 0x02]));
    assert_eq!(s[6], (0xC1, vec![4, 18]));
    assert_eq!(s[7], (0xC2, vec![0x37, 0xFF]));
    assert_eq!(s[8], (0xC3, vec![0x00, 12, 18]));
    assert_eq!(s[9], (0xFF, vec![0x77, 0x01, 0x00, 0x00, 0x11]));
    assert_eq!(s[14], (0xB5, vec![0x47]));
    assert_eq!(s[15], (0xB7, vec![0x84]));
    assert_eq!(s[18], (0xC2, vec![0x73]));
    assert_eq!(s[19], (0xE0, vec![0x00, 0x00, 0x02]));
    assert_eq!(s[31], (0xFF, vec![0x77, 0x01, 0x00, 0x00, 0x00]));
    assert_eq!(s[32], (0x3A, vec![0x60]));
    assert_eq!(s[34], (0x35, vec![0x01]));
    assert_eq!(s[35], (0x29, vec![]));
}
