use num_format::{Locale, ToFormattedString};
use one_fm::clock::Timestamp;
use one_fm::fms::FileInformation;
use one_fm::size::format_size;
use one_fm::text::{decimal_string, push_spaces, right_align};
use one_fm::utils::div_cell;
use one_fm::width::{char_width, columns_of, fit_name, keep_within};
use unicode_width::UnicodeWidthStr;

fn file(name: &str, size: u64) -> FileInformation {
    FileInformation {
        file_no: 1,
        file_name: name.to_string(),
        file_size: size,
        last_modified: Timestamp::new(2024, 3, 9, 7, 5),
    }
}

/// The size as the floating-point formatting of the standard library and the
/// grouping of `num-format` give it.
fn size_by_floats(size: u64) -> String {
    let value = size as f64;
    let gigabyte = 1024.0 * 1024.0 * 1024.0;
    let megabyte = 1024.0 * 1024.0;
    let kilobyte = 1024.0;
    let formatted = if value >= gigabyte {
        format!("{:.1}G", value / gigabyte)
    } else if value >= megabyte {
        format!("{:.1}M", value / megabyte)
    } else if value >= kilobyte {
        format!("{:.1}K", value / kilobyte)
    } else {
        format!("{} ", size.to_formatted_string(&Locale::en))
    };
    match formatted.split_once('.') {
        Some((whole, rest)) => {
            let number: u64 = whole.parse().unwrap();
            format!("{:>5}.{}", number.to_formatted_string(&Locale::en), rest)
        }
        None => format!("{:>8}", formatted),
    }
}

#[test]
fn name_that_fits_is_padded() {
    assert_eq!(file("abc", 0).format_file_name(5), "abc  ");
    assert_eq!(file("abc", 0).format_file_name(3), "abc");
    assert_eq!(file("", 0).format_file_name(3), "   ");
    assert_eq!(file("", 0).format_file_name(0), "");
}

#[test]
fn name_that_is_too_wide_is_cut_and_marked() {
    assert_eq!(file("abcdefgh", 0).format_file_name(5), "abc… ");
    assert_eq!(file("abcdefgh", 0).format_file_name(7), "abcde… ");
    assert_eq!(file("abcd", 0).format_file_name(3), "a… ");
}

#[test]
fn wide_characters_are_never_split() {
    // every character takes two columns
    let name = file("日本語ファイル", 0);
    assert_eq!(name.format_file_name(14), "日本語ファイル");
    assert_eq!(name.format_file_name(15), "日本語ファイル ");
    assert_eq!(name.format_file_name(5), "日…  ");
    assert_eq!(name.format_file_name(6), "日本… ");
    assert_eq!(name.format_file_name(7), "日本…  ");
    assert_eq!(name.format_file_name(13), "日本語ファ…  ");
}

#[test]
fn narrow_fields_hold_the_ellipsis_alone() {
    assert_eq!(file("abc", 0).format_file_name(2), "… ");
    assert_eq!(file("abc", 0).format_file_name(1), "…");
    assert_eq!(file("abc", 0).format_file_name(0), "…");
    assert_eq!(file("日本", 0).format_file_name(3), "…  ");
}

#[test]
fn formatted_name_is_as_wide_as_its_field() {
    let names = [
        "",
        "a",
        "report.txt",
        "日本語ファイル.txt",
        "a日b本c語",
        "ｆｕｌｌｗｉｄｔｈ",
        "cafe\u{301}.md",
        // letters that are drawn as one
        "\u{644}\u{627}",
        "\u{644}\u{627}\u{644}\u{627}.txt",
        // a hand in a colour of skin, hearts shown as emoji, a family, a flag
        "\u{1F44D}\u{1F3FD}",
        "\u{2764}\u{FE0F}\u{2764}\u{FE0F}\u{2764}\u{FE0F}",
        "\u{1F468}\u{200D}\u{1F469}\u{200D}\u{1F467}\u{200D}\u{1F466}",
        "\u{1F1EF}\u{1F1F5}\u{1F1EF}\u{1F1F5}\u{1F1EF}",
        "x\u{2764}\u{FE0F}y\u{1F44D}\u{1F3FD}z",
        "…",
        "a…b  ",
        "line\r\nbreak",
    ];
    for name in names {
        for width in 1..40usize {
            let field = file(name, 0).format_file_name(width);
            assert_eq!(UnicodeWidthStr::width(field.as_str()), width, "{:?} in {}", name, width);
        }
    }
}

#[test]
fn name_without_columns_fits_a_field_without_columns() {
    assert_eq!(file("", 0).format_file_name(0), "");
    assert_eq!(file("\u{301}", 0).format_file_name(0), "\u{301}");
    assert_eq!(file("\u{301}", 0).format_file_name(2), "\u{301}  ");
}

#[test]
fn characters_drawn_as_one_are_measured_as_one() {
    // lam and alef take one column together
    assert_eq!(columns_of("\u{644}\u{627}"), 1);
    assert_eq!(file("\u{644}\u{627}", 0).format_file_name(2), "\u{644}\u{627} ");
    // a hand and the colour of its skin take two
    assert_eq!(columns_of("\u{1F44D}\u{1F3FD}"), 2);
    assert_eq!(file("\u{1F44D}\u{1F3FD}", 0).format_file_name(4), "\u{1F44D}\u{1F3FD}  ");
    // a family of four takes two
    let family = "\u{1F468}\u{200D}\u{1F469}\u{200D}\u{1F467}\u{200D}\u{1F466}";
    assert_eq!(columns_of(family), 2);
    assert_eq!(file(family, 0).format_file_name(10), format!("{}        ", family));
    assert_eq!(file(family, 0).format_file_name(2), family);
    assert_eq!(file(family, 0).format_file_name(1), "…");
}

#[test]
fn characters_that_are_wider_together_are_cut_further() {
    // a heart takes one column, and two where a mark asks for the emoji
    assert_eq!(columns_of("\u{2764}"), 1);
    assert_eq!(columns_of("\u{2764}\u{FE0F}"), 2);
    let hearts = "\u{2764}\u{FE0F}\u{2764}\u{FE0F}\u{2764}\u{FE0F}";
    assert_eq!(columns_of(hearts), 6);
    assert_eq!(file(hearts, 0).format_file_name(6), hearts);
    assert_eq!(file(hearts, 0).format_file_name(7), format!("{} ", hearts));
    assert_eq!(file(hearts, 0).format_file_name(5), "\u{2764}\u{FE0F}\u{2764}\u{FE0F}…");
    assert_eq!(file(hearts, 0).format_file_name(4), "\u{2764}\u{FE0F}\u{2764}…");
    assert_eq!(file(hearts, 0).format_file_name(3), "\u{2764}\u{FE0F}…");
    assert_eq!(file("\u{2764}\u{FE0F}", 0).format_file_name(1), "…");
}

#[test]
fn cut_name_ends_in_one_ellipsis_and_spaces() {
    let name = "日本語ファイル.txt";
    for width in 1..18usize {
        let field = file(name, 0).format_file_name(width);
        let text = field.trim_end_matches(' ');
        assert!(text.ends_with('…'));
        let kept = &text[..text.len() - '…'.len_utf8()];
        assert!(name.starts_with(kept));
        assert!(!kept.contains('…'));
    }
}

#[test]
fn columns_are_those_of_the_terminal() {
    assert_eq!(columns_of(""), 0);
    assert_eq!(columns_of("abc"), 3);
    assert_eq!(columns_of("abc   "), 6);
    assert_eq!(columns_of("abc… "), 5);
    assert_eq!(columns_of("日本"), 4);
    assert_eq!(columns_of("日本… "), 6);
    // a combining mark takes no column of its own
    assert_eq!(columns_of("e\u{301}"), 1);
    assert_eq!(char_width('a'), 1);
    assert_eq!(char_width(' '), 1);
    assert_eq!(char_width('…'), 1);
    assert_eq!(char_width('日'), 2);
    assert_eq!(char_width('\u{301}'), 0);
    assert_eq!(char_width('\u{FE0F}'), 0);
    assert_eq!(keep_within("日本語", 5), ['日', '本']);
    assert_eq!(keep_within("日本語", 6), ['日', '本', '語']);
    assert_eq!(keep_within("abc", 0), []);
    assert_eq!(keep_within("abc", 9), ['a', 'b', 'c']);
    assert_eq!(fit_name("abc", 4), "abc ");
}

#[test]
fn sizes_below_one_kilobyte_are_bytes() {
    assert_eq!(file("f", 0).format_file_size(), "      0 ");
    assert_eq!(file("f", 7).format_file_size(), "      7 ");
    assert_eq!(file("f", 999).format_file_size(), "    999 ");
    assert_eq!(file("f", 1000).format_file_size(), "  1,000 ");
    assert_eq!(file("f", 1023).format_file_size(), "  1,023 ");
}

#[test]
fn sizes_are_scaled_by_powers_of_1024() {
    assert_eq!(file("f", 1024).format_file_size(), "    1.0K");
    assert_eq!(file("f", 1536).format_file_size(), "    1.5K");
    assert_eq!(file("f", 10 * 1024).format_file_size(), "   10.0K");
    assert_eq!(file("f", 1024 * 1024 - 1).format_file_size(), "1,024.0K");
    assert_eq!(file("f", 1024 * 1024).format_file_size(), "    1.0M");
    assert_eq!(file("f", 1024 * 1024 * 1024 - 1).format_file_size(), "1,024.0M");
    assert_eq!(file("f", 1024 * 1024 * 1024).format_file_size(), "    1.0G");
    assert_eq!(file("f", 5_905_580_032).format_file_size(), "    5.5G");
    assert_eq!(file("f", 2_000 * 1024 * 1024 * 1024).format_file_size(), "2,000.0G");
    assert_eq!(file("f", u64::MAX).format_file_size(), "17,179,869,184.0G");
}

#[test]
fn halves_round_to_the_even_tenth() {
    // 1.25, 1.75, 1.35 and 1.05 kilobytes
    assert_eq!(format_size(1280), "    1.2K");
    assert_eq!(format_size(1792), "    1.8K");
    assert_eq!(format_size(1382), "    1.3K");
    assert_eq!(format_size(1383), "    1.4K");
    assert_eq!(format_size(1075), "    1.0K");
    assert_eq!(format_size(1076), "    1.1K");
    // 9.95 kilobytes round up into the next whole number
    assert_eq!(format_size(10189), "   10.0K");
}

#[test]
fn sizes_agree_with_floating_point_formatting() {
    let mut sizes: Vec<u64> = vec![0, 1, 999, 1000, 1023, 1024, 1025, 1280, 1792, 2047, 2048];
    for shift in [10u32, 20, 30, 40] {
        let unit = 1u64 << shift;
        for whole in [1u64, 2, 9, 10, 99, 100, 999, 1000, 1023] {
            for twentieth in 0..20u64 {
                let size = whole * unit + unit / 20 * twentieth;
                sizes.push(size);
                sizes.push(size + 1);
                sizes.push(size - 1);
            }
        }
    }
    // halfway between two tenths: odd multiples of a twentieth that are whole
    for odd in [5u64, 15, 25, 35, 45, 55, 65, 75, 85, 95, 105, 205, 1005] {
        sizes.push(1024 * odd / 20 * 5);
        sizes.push(1024 * 1024 / 20 * odd);
        sizes.push(1024 * 1024 * 1024 / 20 * odd);
    }
    let mut step: u64 = 1;
    while step < (1u64 << 52) {
        sizes.push(step);
        sizes.push(step * 3 + 7);
        step *= 2;
    }
    for size in sizes {
        assert_eq!(format_size(size), size_by_floats(size), "size {}", size);
    }
}

#[test]
fn modified_time_is_written_to_the_minute() {
    assert_eq!(file("f", 0).formatted_modified(), "2024/03/09 07:05");
    let mut old = file("f", 0);
    old.last_modified = Timestamp::new(987, 12, 31, 23, 59);
    assert_eq!(old.formatted_modified(), "0987/12/31 23:59");
    old.last_modified = Timestamp::new(0, 1, 1, 0, 0);
    assert_eq!(old.formatted_modified(), "0000/01/01 00:00");
    old.last_modified = Timestamp::new(9999, 2, 28, 10, 30);
    assert_eq!(old.formatted_modified(), "9999/02/28 10:30");
}

#[test]
fn years_beyond_four_digits_are_written_with_a_sign() {
    let mut far = file("f", 0);
    far.last_modified = Timestamp::new(10000, 1, 1, 0, 0);
    assert_eq!(far.formatted_modified(), "+10000/01/01 00:00");
    far.last_modified = Timestamp::new(262142, 12, 31, 23, 59);
    assert_eq!(far.formatted_modified(), "+262142/12/31 23:59");
    far.last_modified = Timestamp::new(-1, 12, 31, 23, 59);
    assert_eq!(far.formatted_modified(), "-0001/12/31 23:59");
    far.last_modified = Timestamp::new(-9999, 6, 15, 12, 0);
    assert_eq!(far.formatted_modified(), "-9999/06/15 12:00");
    far.last_modified = Timestamp::new(-10000, 6, 15, 12, 0);
    assert_eq!(far.formatted_modified(), "-10000/06/15 12:00");
    far.last_modified = Timestamp::new(-262143, 1, 1, 0, 0);
    assert_eq!(far.formatted_modified(), "-262143/01/01 00:00");
}

#[test]
fn entry_without_time_shows_sixteen_spaces() {
    let mut parent = file("..", 0);
    parent.last_modified = None;
    assert_eq!(parent.formatted_modified(), "                ");
    assert_eq!(parent.formatted_modified().len(), 16);
}

#[test]
fn timestamps_are_days_of_the_calendar() {
    assert!(Timestamp::new(2024, 2, 29, 0, 0).is_some());
    assert!(Timestamp::new(2023, 2, 29, 0, 0).is_none());
    assert!(Timestamp::new(2000, 2, 29, 0, 0).is_some());
    assert!(Timestamp::new(1900, 2, 29, 0, 0).is_none());
    assert!(Timestamp::new(2023, 4, 31, 0, 0).is_none());
    assert!(Timestamp::new(2023, 4, 30, 0, 0).is_some());
    assert!(Timestamp::new(2023, 0, 1, 0, 0).is_none());
    assert!(Timestamp::new(2023, 13, 1, 0, 0).is_none());
    assert!(Timestamp::new(2023, 1, 0, 0, 0).is_none());
    assert!(Timestamp::new(2023, 1, 32, 0, 0).is_none());
    assert!(Timestamp::new(2023, 1, 1, 24, 0).is_none());
    assert!(Timestamp::new(2023, 1, 1, 0, 60).is_none());
    assert!(Timestamp::new(10000, 1, 1, 0, 0).is_some());
    assert!(Timestamp::new(262142, 12, 31, 23, 59).is_some());
    assert!(Timestamp::new(262143, 1, 1, 0, 0).is_none());
    assert!(Timestamp::new(-262143, 1, 1, 0, 0).is_some());
    assert!(Timestamp::new(-262144, 12, 31, 23, 59).is_none());
    assert!(Timestamp::new(i32::MAX, 1, 1, 0, 0).is_none());
    assert!(Timestamp::new(i32::MIN, 1, 1, 0, 0).is_none());
    // the years before the year 1 have their leap days too
    assert!(Timestamp::new(0, 2, 29, 0, 0).is_some());
    assert!(Timestamp::new(-1, 2, 29, 0, 0).is_none());
    assert!(Timestamp::new(-4, 2, 29, 0, 0).is_some());
    assert!(Timestamp::new(-100, 2, 29, 0, 0).is_none());
    assert!(Timestamp::new(-400, 2, 29, 0, 0).is_some());
    let minute = Timestamp::new(2023, 12, 31, 23, 59).unwrap();
    assert_eq!(
        (minute.year(), minute.month(), minute.day(), minute.hour(), minute.minute()),
        (2023, 12, 31, 23, 59)
    );
    assert_eq!(minute.text(), "2023/12/31 23:59");
}

#[test]
fn every_day_of_the_calendar_has_a_text() {
    let years = [
        -262144, -262143, -10001, -10000, -9999, -2000, -401, -400, -100, -5, -4, -1, 0, 1, 4, 100,
        400, 1900, 1999, 2000, 2023, 2024, 9999, 10000, 10004, 262142, 262143,
    ];
    for year in years {
        for month in 0..14u8 {
            for day in 0..33u8 {
                let by_chrono = chrono::NaiveDate::from_ymd_opt(year, month as u32, day as u32);
                let made = Timestamp::new(year, month, day, 12, 0);
                assert_eq!(made.is_some(), by_chrono.is_some(), "{}-{}-{}", year, month, day);
                if let Some(minute) = made {
                    let written = if (0..=9999).contains(&year) {
                        format!("{:04}", year)
                    } else {
                        format!("{:+05}", year)
                    };
                    assert_eq!(minute.text(), format!("{}/{:02}/{:02} 12:00", written, month, day));
                }
            }
        }
    }
}

#[test]
fn texts_are_aligned_and_padded() {
    assert_eq!(right_align("ab", 5), "   ab");
    assert_eq!(right_align("abcdef", 5), "abcdef");
    assert_eq!(right_align("日本", 5), "   日本");
    assert_eq!(right_align("", 0), "");
    let mut text = String::from("x");
    push_spaces(&mut text, 3);
    assert_eq!(text, "x   ");
    push_spaces(&mut text, 0);
    assert_eq!(text, "x   ");
    assert_eq!(decimal_string(0), "0");
    assert_eq!(decimal_string(7), "7");
    assert_eq!(decimal_string(1234567890), "1234567890");
    assert_eq!(decimal_string(u64::MAX), "18446744073709551615");
}

#[test]
fn quotients_are_rounded_up() {
    assert_eq!(div_cell(0, 5), 0);
    assert_eq!(div_cell(1, 5), 1);
    assert_eq!(div_cell(5, 5), 1);
    assert_eq!(div_cell(10, 5), 2);
    assert_eq!(div_cell(11, 5), 3);
    assert_eq!(div_cell(7, 0), 0);
    assert_eq!(div_cell(0, 0), 0);
    assert_eq!(div_cell(usize::MAX, 1), usize::MAX);
    assert_eq!(div_cell(usize::MAX, 2), usize::MAX / 2 + 1);
    assert_eq!(div_cell(usize::MAX, usize::MAX), 1);
}
