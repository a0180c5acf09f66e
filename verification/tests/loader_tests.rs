use universal_machine::fault::LoadError;
use universal_machine::loader::load_image;

#[test]
fn load_one_word_big_endian() {
    let bytes = vec![0xAA, 0xBB, 0xCC, 0xDD];
    assert_eq!(load_image(&bytes), Ok(vec![0xAABB_CCDD]));
}

#[test]
fn load_several_words_in_order() {
    let bytes = vec![0x70, 0x00, 0x00, 0x00, 0x00, 0x00, 0x00, 0x01, 0xFF, 0xFF, 0xFF, 0xFF];
    assert_eq!(load_image(&bytes), Ok(vec![0x7000_0000, 0x0000_0001, 0xFFFF_FFFF]));
}

#[test]
fn load_empty_image() {
    let bytes: Vec<u8> = vec![];
    assert_eq!(load_image(&bytes), Ok(vec![]));
}

#[test]
fn load_rejects_truncated_image() {
    for n in [1usize, 2, 3, 5, 6, 7, 9] {
        let bytes = vec![0u8; n];
        assert_eq!(load_image(&bytes), Err(LoadError::BadImage));
    }
}
