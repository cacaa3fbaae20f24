use twitch_link::target::{classify, target_from_letters, Target};

#[test]
fn digits_name_a_recording() {
    assert_eq!(classify("1804186756"), Target::Vod);
    assert_eq!(classify("0"), Target::Vod);
}

#[test]
fn a_letter_names_a_channel() {
    assert_eq!(classify("elizabethzaks"), Target::Channel);
    assert_eq!(classify("123a"), Target::Channel);
    assert_eq!(classify("a123"), Target::Channel);
    assert_eq!(classify("Z"), Target::Channel);
    assert_eq!(classify("12\u{e9}34"), Target::Channel);
}

#[test]
fn what_holds_no_letter_names_a_recording() {
    assert_eq!(classify(""), Target::Vod);
    assert_eq!(classify("12_34"), Target::Vod);
    assert_eq!(classify("-1 2"), Target::Vod);
}

#[test]
fn target_from_letters_looks_for_one_letter() {
    assert_eq!(target_from_letters(&vec![]), Target::Vod);
    assert_eq!(target_from_letters(&vec![false, false]), Target::Vod);
    assert_eq!(target_from_letters(&vec![false, true]), Target::Channel);
    assert_eq!(target_from_letters(&vec![true, false, false]), Target::Channel);
}
