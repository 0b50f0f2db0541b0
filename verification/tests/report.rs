use bard_pad::gamepad::{_set_buf, _unset_buf};
use bard_pad::registry::{key_info, Button};
use bard_pad::report::ReportPair;

fn sample(seed: u8) -> [u8; 256] {
    let mut bytes = [0u8; 256];
    for (i, byte) in bytes.iter_mut().enumerate() {
        *byte = seed.wrapping_add(i as u8).wrapping_mul(3);
    }
    bytes
}

#[test]
fn new_pair_holds_two_blank_reports() {
    let pair = ReportPair::new();
    assert_eq!(*pair.now_buf(), [0u8; 256]);
    assert_eq!(*pair.prev_buf(), [0u8; 256]);
}

#[test]
fn first_read_keeps_the_blank_report_as_previous() {
    let mut pair = ReportPair::new();
    let first = sample(1);
    pair.read(Some(&first[..]));
    assert_eq!(*pair.now_buf(), first);
    assert_eq!(*pair.prev_buf(), [0u8; 256]);
}

#[test]
fn reads_alternate_between_the_buffers() {
    let mut pair = ReportPair::new();
    let mut last = [0u8; 256];
    for n in 1..=7u8 {
        let next = sample(n);
        pair.read(Some(&next[..]));
        assert_eq!(*pair.now_buf(), next);
        assert_eq!(*pair.prev_buf(), last);
        last = next;
    }
}

#[test]
fn failed_read_flips_and_writes_nothing() {
    let mut pair = ReportPair::new();
    let first = sample(10);
    let second = sample(20);
    pair.read(Some(&first[..]));
    pair.read(Some(&second[..]));
    pair.read(None);
    assert_eq!(*pair.now_buf(), first);
    assert_eq!(*pair.prev_buf(), second);
    pair.read(None);
    assert_eq!(*pair.now_buf(), second);
    assert_eq!(*pair.prev_buf(), first);
}

#[test]
fn short_report_is_written_over_the_beginning() {
    let mut pair = ReportPair::new();
    let first = sample(3);
    let second = sample(4);
    pair.read(Some(&first[..]));
    pair.read(Some(&second[..]));
    let short = [9u8; 64];
    pair.read(Some(&short[..]));
    let now = pair.now_buf();
    for i in 0..256 {
        if i < 64 {
            assert_eq!(now[i], 9);
        } else {
            assert_eq!(now[i], first[i]);
        }
    }
    assert_eq!(*pair.prev_buf(), second);
}

#[test]
fn empty_report_changes_no_byte() {
    let mut pair = ReportPair::new();
    let first = sample(5);
    pair.read(Some(&first[..]));
    pair.read(Some(&[][..]));
    assert_eq!(*pair.now_buf(), [0u8; 256]);
    assert_eq!(*pair.prev_buf(), first);
}

#[test]
fn long_report_is_cut_to_the_length_of_a_report() {
    let mut pair = ReportPair::new();
    let long: Vec<u8> = (0..300u32).map(|i| (i % 251) as u8 + 1).collect();
    pair.read(Some(&long[..]));
    let now = pair.now_buf();
    for i in 0..256 {
        assert_eq!(now[i], long[i]);
    }
    assert_eq!(*pair.prev_buf(), [0u8; 256]);
}

#[test]
fn flip_swaps_the_roles() {
    let mut pair = ReportPair::new();
    let first = sample(6);
    pair.read(Some(&first[..]));
    pair.flip();
    assert_eq!(*pair.now_buf(), [0u8; 256]);
    assert_eq!(*pair.prev_buf(), first);
    pair.flip();
    assert_eq!(*pair.now_buf(), first);
    assert_eq!(*pair.prev_buf(), [0u8; 256]);
}

#[test]
fn carry_forward_repeats_the_button_bytes() {
    let mut pair = ReportPair::new();
    let first = sample(7);
    let second = sample(8);
    pair.read(Some(&first[..]));
    pair.read(Some(&second[..]));
    pair.carry_forward();
    let now = pair.now_buf();
    for i in 0..256 {
        if i == 8 || i == 9 {
            assert_eq!(now[i], second[i]);
        } else {
            assert_eq!(now[i], first[i]);
        }
    }
    assert_eq!(*pair.prev_buf(), second);
}

#[test]
fn now_buf_mut_writes_to_the_current_report() {
    let mut pair = ReportPair::new();
    let first = sample(9);
    pair.read(Some(&first[..]));
    pair.now_buf_mut()[100] = 0xEE;
    let mut expected = first;
    expected[100] = 0xEE;
    assert_eq!(*pair.now_buf(), expected);
    assert_eq!(*pair.prev_buf(), [0u8; 256]);
}

#[test]
fn emulated_press_changes_one_bit_of_the_report() {
    let mut pair = ReportPair::new();
    let first = sample(11);
    let mut second = sample(12);
    second[8] = 0b0010_0100;
    second[9] = 0b1111_0001;
    pair.read(Some(&first[..]));
    pair.read(Some(&second[..]));

    pair.carry_forward();
    _set_buf(&key_info(&Button::X), pair.now_buf_mut());

    let now = pair.now_buf();
    assert_eq!(now[8], 0b0110_0100);
    assert_eq!(now[9], 0b1111_0001);
    for i in 0..256 {
        if i != 8 && i != 9 {
            assert_eq!(now[i], first[i]);
        }
    }
    assert_eq!(*pair.prev_buf(), second);
}

#[test]
fn emulated_release_changes_one_bit_of_the_report() {
    let mut pair = ReportPair::new();
    let mut first = [0u8; 256];
    first[8] = 0xFF;
    first[9] = 0xFF;
    pair.read(Some(&first[..]));

    pair.carry_forward();
    _unset_buf(&key_info(&Button::DOWN), pair.now_buf_mut());

    let now = pair.now_buf();
    assert_eq!(now[8], 0xFF);
    assert_eq!(now[9], 0b1111_0111);
    for i in 0..256 {
        if i != 8 && i != 9 {
            assert_eq!(now[i], 0);
        }
    }
    assert_eq!(*pair.prev_buf(), first);
}
