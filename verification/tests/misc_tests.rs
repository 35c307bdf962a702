use cdrive_manager::color_palette::{ColorPalette, FileCategory, Rgb};
use cdrive_manager::format::{count, duration};
use cdrive_manager::scan_cache::{format_saved_at_time, root_key};

#[test]
fn root_key_normalizes_case_and_slashes() {
    assert_eq!(root_key("C:/Users/Alice/"), root_key("c:\\users\\alice"));
}

#[test]
fn root_key_examples() {
    assert_eq!(root_key("C:/Users/Alice/"), "c:\\users\\alice");
    assert_eq!(root_key("D:\\\\"), "d:");
    assert_eq!(root_key(""), "");
}

#[test]
fn saved_time_formats() {
    assert_eq!(format_saved_at_time(0), "未知时间");
    assert_eq!(format_saved_at_time(1), "1970-01-01 00:00:01");
    assert_eq!(format_saved_at_time(86_400 * 365 + 3_661), "1971-01-01 01:01:01");
    // 30-day months: day 45 of the year shows as month 2, day 16
    assert_eq!(format_saved_at_time(86_400 * 45), "1970-02-16 00:00:00");
}

#[test]
fn counts_have_thousands_separators() {
    assert_eq!(count(0), "0");
    assert_eq!(count(999), "999");
    assert_eq!(count(1_000), "1,000");
    assert_eq!(count(1_234_567), "1,234,567");
    assert_eq!(count(u64::MAX), "18,446,744,073,709,551,615");
}

#[test]
fn durations_read_naturally() {
    assert_eq!(duration(45), "45s");
    assert_eq!(duration(155), "2m 35s");
    assert_eq!(duration(4_500), "1h 15m");
    assert_eq!(duration(60), "1m 0s");
    assert_eq!(duration(3_600), "1h 0m");
}

#[test]
fn test_extension_categories() {
    assert_eq!(ColorPalette::category_for_extension_static("exe"), FileCategory::Executable);
    assert_eq!(ColorPalette::category_for_extension_static("rs"), FileCategory::Code);
    assert_eq!(ColorPalette::category_for_extension_static("mp4"), FileCategory::Media);
    assert_eq!(ColorPalette::category_for_extension_static("unknown_ext"), FileCategory::Other);
}

#[test]
fn test_color_palette_caching() {
    let mut palette = ColorPalette::new();
    let color1 = palette.color_for_extension("exe");
    let color2 = palette.color_for_extension("EXE");
    assert_eq!(color1, color2);
    assert_eq!(palette.color_for_extension_cached("EXE"), color1);
    assert_eq!(palette.color_for_extension_cached("exe"), color1);
}

#[test]
fn first_listed_category_wins() {
    // "dll" and "cab" are listed under several categories; the first one counts
    assert_eq!(ColorPalette::category_for_extension_static("DLL"), FileCategory::Executable);
    assert_eq!(ColorPalette::category_for_extension_static("cab"), FileCategory::Executable);
    assert_eq!(ColorPalette::category_for_extension_static("sys"), FileCategory::System);
    assert_eq!(ColorPalette::category_for_extension_static("Log"), FileCategory::Temporary);
    assert_eq!(ColorPalette::category_for_extension_static("7z"), FileCategory::Archive);
    assert_eq!(ColorPalette::category_for_extension_static("json"), FileCategory::Data);
    assert_eq!(ColorPalette::category_for_extension_static(""), FileCategory::Other);
}

#[test]
fn category_colors_and_labels() {
    assert_eq!(FileCategory::Executable.default_color(), Rgb { r: 220, g: 53, b: 69 });
    assert_eq!(ColorPalette::color_for_extension_static("zip"), Rgb { r: 255, g: 193, b: 7 });
    assert_eq!(ColorPalette::default().color_for_category(FileCategory::Other), Rgb { r: 121, g: 134, b: 203 });
    assert_eq!(FileCategory::Temporary.label(), "临时");
    assert_eq!(FileCategory::Other.icon(), "");
}
