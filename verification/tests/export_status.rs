use symbios_ground_lab::export::{
    encode_heightmap_png, export_task_finished, file_saved, ExportError, ExportStatus,
};

#[test]
fn finished_tasks_report_their_file_or_error() {
    match export_task_finished(Ok("terrain.obj".to_string())) {
        ExportStatus::Done(f) => assert_eq!(f, "terrain.obj"),
        _ => panic!("expected Done"),
    }
    match export_task_finished(Err("disk full".to_string())) {
        ExportStatus::Error(e) => assert_eq!(e, "disk full"),
        _ => panic!("expected Error"),
    }
}

#[test]
fn foreground_saves_report_their_file_or_error() {
    match file_saved("terrain.json".to_string(), Ok(())) {
        ExportStatus::Done(f) => assert_eq!(f, "terrain.json"),
        _ => panic!("expected Done"),
    }
    match file_saved("terrain.json".to_string(), Err("write failed".to_string())) {
        ExportStatus::Error(e) => assert_eq!(e, "write failed"),
        _ => panic!("expected Error"),
    }
}

#[test]
fn only_exporting_counts_as_busy() {
    assert!(ExportStatus::Exporting.is_exporting());
    assert!(!ExportStatus::Idle.is_exporting());
    assert!(!ExportStatus::Done("x".to_string()).is_exporting());
    assert!(!ExportStatus::Error("x".to_string()).is_exporting());
}

#[test]
fn png_round_trips_sixteen_bit_samples() {
    let samples: Vec<u16> = vec![0, 1000, 65535, 300, 40000, 7];
    let png = match encode_heightmap_png(3, 2, &samples) {
        Ok(bytes) => bytes,
        Err(_) => panic!("encoding failed"),
    };
    assert_eq!(&png[..8], &[0x89, b'P', b'N', b'G', 0x0d, 0x0a, 0x1a, 0x0a]);
    let decoded = image::load_from_memory(&png).expect("valid PNG").into_luma16();
    assert_eq!(decoded.width(), 3);
    assert_eq!(decoded.height(), 2);
    assert_eq!(decoded.into_raw(), samples);
}

#[test]
fn png_refuses_a_wrong_sample_count() {
    assert!(matches!(
        encode_heightmap_png(3, 2, &[1, 2, 3]),
        Err(ExportError::PixelCountMismatch)
    ));
    assert!(matches!(
        encode_heightmap_png(0, 5, &[1]),
        Err(ExportError::PixelCountMismatch)
    ));
}

#[test]
fn png_refuses_an_image_without_pixels() {
    match encode_heightmap_png(0, 0, &[]) {
        Err(ExportError::Encode(msg)) => assert!(!msg.is_empty()),
        _ => panic!("a zero-sized image must be refused by the encoder"),
    }
    assert!(matches!(encode_heightmap_png(4, 0, &[]), Err(ExportError::Encode(_))));
}

#[test]
fn png_of_a_flat_two_by_two_map_is_all_zero() {
    let png = match encode_heightmap_png(2, 2, &[0, 0, 0, 0]) {
        Ok(bytes) => bytes,
        Err(_) => panic!("a 2x2 map must encode"),
    };
    let decoded = image::load_from_memory(&png).expect("valid PNG").into_luma16();
    assert_eq!((decoded.width(), decoded.height()), (2, 2));
    assert_eq!(decoded.into_raw(), vec![0u16; 4]);
}
