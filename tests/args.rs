use wasm_bios::args::{boot_filename_bytes, open_args, read_args, CHUNK_SIZE};

#[test]
fn filename_is_init_wasm() {
    assert_eq!(boot_filename_bytes(), b"/init.wasm".to_vec());
}

#[test]
fn open_arguments_are_one_text_string() {
    let mut want = vec![0x81, 0x78, 10];
    want.extend_from_slice(b"/init.wasm");
    assert_eq!(open_args(), want);
}

#[test]
fn read_arguments_tag_descriptor_and_chunk_size() {
    assert_eq!(CHUNK_SIZE, 16384);
    assert_eq!(
        read_args(0x0102_0304),
        vec![0x82, 0xd8, 39, 0x1a, 1, 2, 3, 4, 0x1a, 0x00, 0x00, 0x40, 0x00]
    );
    assert_eq!(read_args(0), vec![0x82, 0xd8, 39, 0x1a, 0, 0, 0, 0, 0x1a, 0, 0, 0x40, 0]);
}
