use learn_async_rust::stack::{
    align_top, read_word, write_word, DEFAULT_STACK_SIZE, HEADER_SIZE, MIN_STACK_SIZE, WORD_SIZE,
};

#[test]
fn align_top_rounds_the_end_down_to_sixteen() {
    assert_eq!(align_top(0x1000, 48), 0x1030);
    assert_eq!(align_top(0x1001, 48), 0x1030);
    assert_eq!(align_top(0x100f, 48), 0x1030);
    assert_eq!(align_top(0x1010, 47), 0x1030);
}

#[test]
fn write_word_stores_low_byte_first() {
    let mut stack = vec![0u8; 16];
    write_word(&mut stack, 4, 0x1122_3344_5566_7788);
    assert_eq!(
        stack,
        vec![0, 0, 0, 0, 0x88, 0x77, 0x66, 0x55, 0x44, 0x33, 0x22, 0x11, 0, 0, 0, 0]
    );
}

#[test]
fn read_word_reads_back_what_write_word_stored() {
    let mut stack = vec![0xffu8; 24];
    write_word(&mut stack, 8, 0x0102_0304_0506_0708);
    assert_eq!(read_word(&stack, 8), 0x0102_0304_0506_0708);
    assert_eq!(read_word(&stack, 0), u64::MAX);
    assert_eq!(read_word(&stack, 16), u64::MAX);
    assert_eq!(read_word(&stack, 4), 0x0506_0708_ffff_ffff);
    assert_eq!(&stack[8..16], &[8, 7, 6, 5, 4, 3, 2, 1]);
}

#[test]
fn constants_give_default_stack_and_header_sizes() {
    assert_eq!(DEFAULT_STACK_SIZE, 2 * 1024 * 1024);
    assert_eq!(HEADER_SIZE, 32);
    assert_eq!(MIN_STACK_SIZE, 47);
    assert_eq!(WORD_SIZE, 8);
}
