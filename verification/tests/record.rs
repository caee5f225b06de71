use webrender::record::{file_name, write_data, write_msg, ApiMsgKind};

#[test]
fn records_start_with_their_length() {
    assert_eq!(write_data(&vec![9, 8, 7]), vec![3, 0, 0, 0, 9, 8, 7]);
    assert_eq!(write_data(&Vec::new()), vec![0, 0, 0, 0]);
    let bytes = write_data(&vec![5; 0x010203]);
    assert_eq!(bytes[..4], [0x03, 0x02, 0x01, 0x00]);
    assert_eq!(bytes.len(), 4 + 0x010203);
    assert!(bytes[4..].iter().all(|b| *b == 5));
}

#[test]
fn files_are_named_by_frame() {
    assert_eq!(file_name(0), "record/frame_0.bin");
    assert_eq!(file_name(42), "record/frame_42.bin");
}

#[test]
fn only_some_messages_are_recorded() {
    let recorded = [
        ApiMsgKind::AddRawFont,
        ApiMsgKind::AddNativeFont,
        ApiMsgKind::AddImage,
        ApiMsgKind::UpdateImage,
        ApiMsgKind::DeleteImage,
        ApiMsgKind::SetRootStackingContext,
        ApiMsgKind::SetRootPipeline,
        ApiMsgKind::Scroll,
        ApiMsgKind::TickScrollingBounce,
    ];
    for kind in recorded {
        assert_eq!(write_msg(kind, &vec![1]), Some(vec![1, 0, 0, 0, 1]));
    }
    assert_eq!(write_msg(ApiMsgKind::Other, &vec![1]), None);
}

#[test]
fn records_of_a_file_are_read_back() {
    let all = vec![vec![1u8, 2], vec![], vec![3; 300]];
    let mut file: Vec<u8> = Vec::new();
    for data in &all {
        file.extend(write_data(data));
    }
    let mut read = Vec::new();
    let mut rest = &file[..];
    while !rest.is_empty() {
        let len = u32::from_le_bytes([rest[0], rest[1], rest[2], rest[3]]) as usize;
        read.push(rest[4..4 + len].to_vec());
        rest = &rest[4 + len..];
    }
    assert_eq!(read, all);
}
