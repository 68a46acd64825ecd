use mcp251xfd::{CanId, FdFrame, Frame, FrameFlags};

#[test]
fn classic_frame_basics() {
    let id = CanId::standard(0x123).unwrap();
    let f = Frame::new(id, &[1, 2, 3, 4]).unwrap();
    assert_eq!(f.data(), &[1, 2, 3, 4]);
    assert_eq!(f.dlc(), 4);
    assert!(!f.is_remote_frame());
    assert!(Frame::new(id, &[0; 9]).is_none());
    let r = Frame::new_remote(id, 2).unwrap();
    assert!(r.is_remote_frame());
    assert_eq!(r.dlc(), 2);
    assert!(Frame::new_remote(id, 9).is_none());
}

#[test]
fn fd_frame_lengths() {
    let id = CanId::standard(0x123).unwrap();
    assert!(FdFrame::new(id, &[0; 64], FrameFlags::default()).is_some());
    assert!(FdFrame::new(id, &[0; 10], FrameFlags::default()).is_none());
    let padded = FdFrame::new_padded(
        id,
        &[0xFF; 10],
        FrameFlags {
            brs: true,
            esi: false,
        },
    )
    .unwrap();
    assert_eq!(padded.data().len(), 12);
    assert_eq!(&padded.data()[..10], &[0xFF; 10]);
    assert_eq!(&padded.data()[10..], &[0, 0]);
    assert!(padded.flags().brs);
    assert!(FdFrame::new_padded(id, &[0; 65], FrameFlags::default()).is_none());
}

#[test]
fn remote_frames_carry_no_data() {
    let id = CanId::extended(0x1234).unwrap();
    let r = Frame::new_remote(id, 8).unwrap();
    assert!(r.data().is_empty());
    assert!(r.is_remote());
    assert!(r.is_extended());
    assert_eq!(r.id(), id);
}

#[test]
fn frames_keep_what_they_were_given() {
    let id = CanId::standard(0x7FF).unwrap();
    let f = Frame::new(id, &[9; 8]).unwrap();
    assert_eq!(f.data(), &[9; 8]);
    assert!(!f.is_extended());
    let empty = Frame::new(id, &[]).unwrap();
    assert!(empty.data().is_empty());
    assert_eq!(empty.dlc(), 0);
    let flags = FrameFlags {
        brs: false,
        esi: true,
    };
    let data: Vec<u8> = (0..48).collect();
    let fd = FdFrame::new(id, &data, flags).unwrap();
    assert_eq!(fd.data(), &data[..]);
    assert_eq!(fd.flags(), flags);
    assert_eq!(fd.id(), id);
    // An exact length needs no padding.
    let p = FdFrame::new_padded(id, &data, flags).unwrap();
    assert_eq!(p.data(), &data[..]);
    // One byte past a step pads to the next one.
    let p = FdFrame::new_padded(id, &data[..33], flags).unwrap();
    assert_eq!(p.data().len(), 48);
    assert_eq!(&p.data()[..33], &data[..33]);
    assert!(p.data()[33..].iter().all(|b| *b == 0));
    // Equal contents give equal frames.
    assert_eq!(Frame::new(id, &[1, 2]), Frame::new(id, &[1, 2]));
    assert_eq!(FrameFlags::default(), FrameFlags { brs: false, esi: false });
}
