use fie::cli::{parse_int, Args, Commands, Matches};
use fie::config::Platforms;
use fie::number::{parse, Integer, NumberError};
use std::fmt::Debug;
use std::num::ParseIntError;
use std::str::FromStr;

#[test]
fn numbers_are_read_in_decimal() {
    assert_eq!(parse::<u64>("0"), Ok(0));
    assert_eq!(parse::<u64>("7"), Ok(7));
    assert_eq!(parse::<u64>("42"), Ok(42));
    assert_eq!(parse::<u64>("+42"), Ok(42));
    assert_eq!(parse::<u64>("007"), Ok(7));
    assert_eq!(parse::<u64>("18446744073709551615"), Ok(u64::MAX));
    assert_eq!(parse::<u64>("00018446744073709551615"), Ok(u64::MAX));
    assert_eq!(parse::<u8>("255"), Ok(255));
    assert_eq!(parse::<u16>("65535"), Ok(65535));
    assert_eq!(parse::<u32>("4294967295"), Ok(u32::MAX));
    assert_eq!(parse::<usize>("12"), Ok(12));
}

#[test]
fn numbers_below_zero_are_read_where_the_type_has_them() {
    assert_eq!(parse::<i8>("-128"), Ok(i8::MIN));
    assert_eq!(parse::<i8>("127"), Ok(i8::MAX));
    assert_eq!(parse::<i8>("-0"), Ok(0));
    assert_eq!(parse::<i16>("-32768"), Ok(i16::MIN));
    assert_eq!(parse::<i32>("-5"), Ok(-5));
    assert_eq!(parse::<i32>("+5"), Ok(5));
    assert_eq!(parse::<i32>("-2147483648"), Ok(i32::MIN));
    assert_eq!(parse::<i64>("-9223372036854775808"), Ok(i64::MIN));
    assert_eq!(parse::<i64>("9223372036854775807"), Ok(i64::MAX));
    assert_eq!(parse::<isize>("-17"), Ok(-17));
    assert_eq!(parse::<u8>("-5"), Err(NumberError::InvalidDigit));
    assert_eq!(parse::<u64>("-0"), Err(NumberError::InvalidDigit));
}

#[test]
fn what_is_no_number_is_refused() {
    assert_eq!(parse::<u64>(""), Err(NumberError::Empty));
    assert_eq!(parse::<i32>(""), Err(NumberError::Empty));
    assert_eq!(parse::<u64>("+"), Err(NumberError::InvalidDigit));
    assert_eq!(parse::<u64>("-"), Err(NumberError::InvalidDigit));
    assert_eq!(parse::<i32>("-"), Err(NumberError::InvalidDigit));
    assert_eq!(parse::<i32>("+"), Err(NumberError::InvalidDigit));
    assert_eq!(parse::<i32>("--1"), Err(NumberError::InvalidDigit));
    assert_eq!(parse::<i32>("-+1"), Err(NumberError::InvalidDigit));
    assert_eq!(parse::<u64>("-5"), Err(NumberError::InvalidDigit));
    assert_eq!(parse::<u64>("12a"), Err(NumberError::InvalidDigit));
    assert_eq!(parse::<u64>(" 12"), Err(NumberError::InvalidDigit));
    assert_eq!(parse::<u64>("12 "), Err(NumberError::InvalidDigit));
    assert_eq!(parse::<u64>("++1"), Err(NumberError::InvalidDigit));
    assert_eq!(parse::<u64>("1_000"), Err(NumberError::InvalidDigit));
    assert_eq!(parse::<u64>("٣"), Err(NumberError::InvalidDigit));
}

#[test]
fn a_number_that_does_not_fit_is_refused() {
    assert_eq!(parse::<u64>("18446744073709551616"), Err(NumberError::PosOverflow));
    assert_eq!(parse::<u64>("99999999999999999999999"), Err(NumberError::PosOverflow));
    assert_eq!(parse::<u64>("99999999999999999999999x"), Err(NumberError::PosOverflow));
    assert_eq!(parse::<u64>("1844674407370955161x"), Err(NumberError::InvalidDigit));
    assert_eq!(parse::<u64>("18446744073709551615x"), Err(NumberError::InvalidDigit));
    assert_eq!(parse::<u8>("256"), Err(NumberError::PosOverflow));
    assert_eq!(parse::<u8>("1000"), Err(NumberError::PosOverflow));
    assert_eq!(parse::<u8>("2560"), Err(NumberError::PosOverflow));
    assert_eq!(parse::<u8>("25x"), Err(NumberError::InvalidDigit));
    assert_eq!(parse::<u8>("255x"), Err(NumberError::InvalidDigit));
    assert_eq!(parse::<u8>("256x"), Err(NumberError::PosOverflow));
    assert_eq!(parse::<u16>("65536"), Err(NumberError::PosOverflow));
    assert_eq!(parse::<u32>("4294967296"), Err(NumberError::PosOverflow));
    assert_eq!(parse::<i8>("128"), Err(NumberError::PosOverflow));
    assert_eq!(parse::<i8>("-129"), Err(NumberError::NegOverflow));
    assert_eq!(parse::<i8>("-128x"), Err(NumberError::InvalidDigit));
    assert_eq!(parse::<i8>("-129x"), Err(NumberError::NegOverflow));
    assert_eq!(parse::<i32>("2147483648"), Err(NumberError::PosOverflow));
    assert_eq!(parse::<i32>("-2147483649"), Err(NumberError::NegOverflow));
    assert_eq!(parse::<i64>("9223372036854775808"), Err(NumberError::PosOverflow));
    assert_eq!(parse::<i64>("-9223372036854775809"), Err(NumberError::NegOverflow));
    assert_eq!(parse::<u128>("340282366920938463463374607431768211455"), Ok(u128::MAX));
    assert_eq!(
        parse::<u128>("340282366920938463463374607431768211456"),
        Err(NumberError::PosOverflow)
    );
    assert_eq!(parse::<i128>("-170141183460469231731687303715884105728"), Ok(i128::MIN));
    assert_eq!(
        parse::<i128>("-170141183460469231731687303715884105729"),
        Err(NumberError::NegOverflow)
    );
}

fn agrees<T>(sample: &str)
where
    T: Integer + FromStr<Err = ParseIntError> + PartialEq + Debug,
{
    match (parse::<T>(sample), sample.parse::<T>()) {
        (Ok(ours), Ok(theirs)) => assert_eq!(ours, theirs, "on {:?}", sample),
        (Err(ours), Err(theirs)) => {
            assert_eq!(ours.message(), theirs.to_string(), "on {:?}", sample)
        }
        (ours, theirs) => panic!("on {:?}: {:?} against {:?}", sample, ours, theirs),
    }
}

#[test]
fn reading_agrees_with_the_standard_library() {
    let samples = [
        "", "+", "-", "0", "+0", "-0", "1", "-1", "10", "0010", "-0010", "127", "128", "-128",
        "-129", "255", "256", "2560", "25x", "255x", "256x", "-128x", "-129x", "32767", "32768",
        "-32768", "-32769", "65535", "65536", "2147483647", "2147483648", "-2147483648",
        "-2147483649", "4294967295", "4294967296", "9223372036854775807", "9223372036854775808",
        "-9223372036854775808", "-9223372036854775809", "18446744073709551615",
        "18446744073709551616", "184467440737095516150", "99999999999999999999x", "x9", "9x",
        "1844674407370955161x", "18446744073709551615x", "+18446744073709551615", " 1", "1 ",
        "1.0", "1e3", "0x10", "١٢", "--1", "+-1", "-+1", "++1", "000000000000000000000000255",
        "-000000000000000000000000128", "340282366920938463463374607431768211455",
        "340282366920938463463374607431768211456", "170141183460469231731687303715884105727",
        "170141183460469231731687303715884105728", "-170141183460469231731687303715884105728",
        "-170141183460469231731687303715884105729", "3402823669209384634633746074317682114550",
        "34028236692093846346337460743176821145x", "340282366920938463463374607431768211456x",
    ];
    for sample in samples {
        agrees::<u8>(sample);
        agrees::<u16>(sample);
        agrees::<u32>(sample);
        agrees::<u64>(sample);
        agrees::<usize>(sample);
        agrees::<i8>(sample);
        agrees::<i16>(sample);
        agrees::<i32>(sample);
        agrees::<i64>(sample);
        agrees::<isize>(sample);
        agrees::<u128>(sample);
        agrees::<i128>(sample);
    }
}

#[test]
fn parse_int_says_what_is_wrong() {
    assert_eq!(parse_int::<u64>("15"), Ok(15));
    assert_eq!(parse_int::<u8>("15"), Ok(15));
    assert_eq!(parse_int::<i32>("-15"), Ok(-15));
    assert_eq!(
        parse_int::<u64>("abc"),
        Err("Invalid number 'abc' is supplied. invalid digit found in string".to_string())
    );
    assert_eq!(
        parse_int::<u64>(""),
        Err("Invalid number '' is supplied. cannot parse integer from empty string".to_string())
    );
    assert_eq!(
        parse_int::<u64>("99999999999999999999"),
        Err("Invalid number '99999999999999999999' is supplied. number too large to fit in target type"
            .to_string())
    );
    assert_eq!(
        parse_int::<u8>("256"),
        Err("Invalid number '256' is supplied. number too large to fit in target type".to_string())
    );
    assert_eq!(
        parse_int::<i8>("-129"),
        Err("Invalid number '-129' is supplied. number too small to fit in target type".to_string())
    );
}

#[test]
fn the_post_command_carries_text_and_images() {
    let command = Commands::from_matches(
        "post",
        Some(Matches {
            message: "Hello".to_string(),
            tags: Some(vec!["rust".to_string(), "go".to_string()]),
            images: Some(vec!["a.png".to_string()]),
        }),
    );
    assert_eq!(
        command,
        Commands::Post("Hello\n#rust #go".to_string(), Some(vec!["a.png".to_string()]))
    );
    let bare = Commands::from_matches(
        "post",
        Some(Matches { message: "Hello".to_string(), tags: None, images: None }),
    );
    assert_eq!(bare, Commands::Post("Hello".to_string(), None));
}

#[test]
fn the_post_command_without_a_message_is_the_hashtag_line() {
    let command = Commands::from_matches(
        "post",
        Some(Matches {
            message: String::new(),
            tags: Some(vec!["rust".to_string(), "go".to_string()]),
            images: None,
        }),
    );
    assert_eq!(command, Commands::Post("#rust #go".to_string(), None));
    let untagged = Commands::from_matches(
        "post",
        Some(Matches { message: "Hello".to_string(), tags: Some(vec![]), images: None }),
    );
    assert_eq!(untagged, Commands::Post("Hello".to_string(), None));
}

#[test]
fn flags_choose_platforms_only_when_one_is_set() {
    assert_eq!(Platforms::from_matches(false, false, false), None);
    assert_eq!(
        Platforms::from_matches(true, false, false),
        Some(Platforms { gab: true, twitter: false, minds: false })
    );
    assert_eq!(
        Platforms::from_matches(false, true, true),
        Some(Platforms { gab: false, twitter: true, minds: true })
    );
    assert_eq!(
        Platforms::from_matches(true, true, true),
        Some(Platforms { gab: true, twitter: true, minds: true })
    );
}

#[test]
fn args_fall_back_to_the_platforms_of_the_settings() {
    let settings = Platforms { gab: true, twitter: true, minds: false };
    let chosen = Platforms { gab: false, twitter: false, minds: true };
    let args = Args::new(settings, Commands::Post("Hello".to_string(), None), None).unwrap();
    assert_eq!(args.flags, settings);
    assert_eq!(args.command, Commands::Post("Hello".to_string(), None));
    let args =
        Args::new(settings, Commands::Post("Hello".to_string(), None), Some(chosen)).unwrap();
    assert_eq!(args.flags, chosen);
}
