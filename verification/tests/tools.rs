use docs_to_knowledge::numbers::{parse_i32, parse_i64, parse_u32, u32_to_text};
use docs_to_knowledge::pricing::{
    date_cutoff, format_context_length, format_knowledge_cutoff, grouped_or_plain,
    parse_knowledge_cutoff, SortMetric,
};
use docs_to_knowledge::prompt::{process_files, recursive_pattern, FoundFile};
use docs_to_knowledge::requirements::{bits_per_parameter, PrecisionError};
use docs_to_knowledge::text::split_fields;

#[test]
fn unsigned_numbers_are_read_as_the_standard_library_reads_them() {
    let samples = [
        "0", "7", "007", "+5", "-5", "-0", "", "+", "-", "12a", " 12", "12 ", "1_000",
        "4294967295", "4294967296", "99999999999999999999999", "٣", "+-1", "++1", "0x10",
    ];
    for sample in samples {
        assert_eq!(parse_u32(sample), sample.parse::<u32>().ok(), "for {:?}", sample);
    }
    assert_eq!(parse_u32("4294967295"), Some(4294967295));
    assert_eq!(parse_u32("4294967296"), None);
}

#[test]
fn signed_numbers_are_read_as_the_standard_library_reads_them() {
    let samples = [
        "0", "-0", "+0", "42", "-42", "+42", "", "-", "+", "--1", "1-", "2147483647",
        "2147483648", "-2147483648", "-2147483649", "9223372036854775807",
        "9223372036854775808", "-9223372036854775808", "-9223372036854775809",
        "-99999999999999999999999999", "12/03/2024", "online", "1e5", "1.0",
    ];
    for sample in samples {
        assert_eq!(parse_i32(sample), sample.parse::<i32>().ok(), "for {:?}", sample);
        assert_eq!(parse_i64(sample), sample.parse::<i64>().ok(), "for {:?}", sample);
    }
    assert_eq!(parse_i64("-9223372036854775808"), Some(i64::MIN));
    assert_eq!(parse_i32("-2147483648"), Some(i32::MIN));
}

#[test]
fn numbers_are_written_in_decimal() {
    for n in [0u32, 1, 9, 10, 11, 99, 100, 101, 12345, 1000000, 4294967295] {
        assert_eq!(u32_to_text(n), n.to_string());
    }
}

#[test]
fn texts_split_into_fields() {
    assert_eq!(split_fields("12/03/2024", '/'), vec!["12", "03", "2024"]);
    assert_eq!(split_fields("", '/'), vec![""]);
    assert_eq!(split_fields("/", '/'), vec!["", ""]);
    assert_eq!(split_fields("a//b/", '/'), vec!["a", "", "b", ""]);
    assert_eq!(split_fields("no separator", '/'), vec!["no separator"]);
    for sample in ["a/b", "//", "x", "é/ü/", "/1/2/3"] {
        let expected: Vec<&str> = sample.split('/').collect();
        assert_eq!(split_fields(sample, '/'), expected);
    }
}

#[test]
fn online_cutoff_is_zero_in_any_case() {
    assert_eq!(parse_knowledge_cutoff(Some("Online".to_string())), Some(0));
    assert_eq!(parse_knowledge_cutoff(Some("online".to_string())), Some(0));
    assert_eq!(parse_knowledge_cutoff(Some("ONLINE".to_string())), Some(0));
}

#[test]
fn numeric_cutoff_is_taken_as_seconds() {
    assert_eq!(parse_knowledge_cutoff(Some("1700000000".to_string())), Some(1700000000));
    assert_eq!(parse_knowledge_cutoff(Some("-5".to_string())), Some(-5));
    assert_eq!(parse_knowledge_cutoff(Some("0".to_string())), Some(0));
}

#[test]
fn dated_cutoff_is_the_start_of_the_day() {
    assert_eq!(parse_knowledge_cutoff(Some("01/01/1970".to_string())), Some(0));
    assert_eq!(parse_knowledge_cutoff(Some("02/01/1970".to_string())), Some(86400));
    assert_eq!(parse_knowledge_cutoff(Some("01/01/2000".to_string())), Some(946684800));
    assert_eq!(parse_knowledge_cutoff(Some("15/05/2015".to_string())), Some(1431648000));
    assert_eq!(parse_knowledge_cutoff(Some("31/12/1969".to_string())), Some(-86400));
}

#[test]
fn unreadable_parts_of_a_date_fall_back() {
    // A part that is no number counts as 1, 1 and 2000.
    assert_eq!(parse_knowledge_cutoff(Some("x/y/z".to_string())), Some(946684800));
    assert_eq!(parse_knowledge_cutoff(Some("x/02/2000".to_string())), Some(949363200));
    // A day that the calendar does not have gives the start of the year 2000.
    assert_eq!(parse_knowledge_cutoff(Some("31/04/2023".to_string())), Some(946684800));
    assert_eq!(parse_knowledge_cutoff(Some("01/13/2023".to_string())), Some(946684800));
    assert_eq!(date_cutoff("29", "02", "2024"), Some(1709164800));
    assert_eq!(date_cutoff("29", "02", "2023"), Some(946684800));
}

#[test]
fn other_texts_name_no_cutoff() {
    assert_eq!(parse_knowledge_cutoff(None), None);
    assert_eq!(parse_knowledge_cutoff(Some("".to_string())), None);
    assert_eq!(parse_knowledge_cutoff(Some("yesterday".to_string())), None);
    assert_eq!(parse_knowledge_cutoff(Some("01/2024".to_string())), None);
    assert_eq!(parse_knowledge_cutoff(Some("1/2/3/4".to_string())), None);
}

#[test]
fn cutoffs_are_shown_as_dates() {
    assert_eq!(format_knowledge_cutoff(0), Some("Online".to_string()));
    assert_eq!(format_knowledge_cutoff(1431648000), Some("15/05/2015".to_string()));
    assert_eq!(format_knowledge_cutoff(946684800), Some("01/01/2000".to_string()));
    assert_eq!(format_knowledge_cutoff(86399), Some("01/01/1970".to_string()));
    assert_eq!(format_knowledge_cutoff(-1), Some("31/12/1969".to_string()));
    assert_eq!(format_knowledge_cutoff(i64::MAX), None);
    assert_eq!(format_knowledge_cutoff(i64::MIN), None);
}

#[test]
fn context_lengths_are_grouped_by_thousands() {
    assert_eq!(format_context_length(None), "-");
    assert_eq!(format_context_length(Some(0)), "0");
    assert_eq!(format_context_length(Some(999)), "999");
    assert_eq!(format_context_length(Some(1000)), "1,000");
    assert_eq!(format_context_length(Some(128000)), "128,000");
    assert_eq!(format_context_length(Some(1234567)), "1,234,567");
    assert_eq!(format_context_length(Some(4294967295)), "4,294,967,295");
}

#[test]
fn digits_stay_plain_where_grouping_gives_nothing() {
    assert_eq!(grouped_or_plain(None, "1234".to_string()), "1234");
    assert_eq!(grouped_or_plain(Some("1,234".to_string()), "1234".to_string()), "1,234");
}

#[test]
fn scores_contexts_and_cutoffs_list_the_greatest_first() {
    assert!(SortMetric::Score.descending());
    assert!(SortMetric::ContextLength.descending());
    assert!(SortMetric::KnowledgeCutoff.descending());
    assert!(!SortMetric::CostScoreRatio.descending());
    assert!(!SortMetric::Price.descending());
    assert!(!SortMetric::ModelName.descending());
    assert_eq!(SortMetric::default(), SortMetric::CostScoreRatio);
}

#[test]
fn every_date_of_three_fields_names_a_cutoff() {
    for text in ["//", "a/b/c", "99/99/99999999999", "0/0/0", "31/02/2024", " 1/ 2/ 3"] {
        assert!(parse_knowledge_cutoff(Some(text.to_string())).is_some(), "for {:?}", text);
    }
    assert_eq!(parse_knowledge_cutoff(Some("//".to_string())), Some(946684800));
    assert_eq!(parse_knowledge_cutoff(Some("0/0/0".to_string())), Some(946684800));
}

#[test]
fn sort_metrics_are_ordered_as_declared() {
    assert!(SortMetric::CostScoreRatio < SortMetric::Price);
    assert!(SortMetric::Price < SortMetric::Score);
    assert!(SortMetric::ContextLength < SortMetric::KnowledgeCutoff);
    assert_eq!(SortMetric::ModelName, SortMetric::ModelName);
}

#[test]
fn prompt_holds_each_file_and_the_context() {
    let files = vec![
        FoundFile::Read { path: "src/a.rs".to_string(), contents: "fn a() {}".to_string() },
        FoundFile::Ignored,
        FoundFile::Denied { path: "src/secret.rs".to_string() },
        FoundFile::Read { path: "src/b.rs".to_string(), contents: "".to_string() },
    ];
    let prompt = process_files(&files, None, "The following are the files:\n");
    assert_eq!(prompt.error, None);
    assert_eq!(
        prompt.text,
        "// src/a.rs\nfn a() {}\n\n// src/b.rs\n\n\nThe following are the files:\n\n\n"
    );
    let prompt = process_files(&files, Some("Given context"), "unused");
    assert_eq!(
        prompt.text,
        "// src/a.rs\nfn a() {}\n\n// src/b.rs\n\n\nGiven context\n\n"
    );
}

#[test]
fn prompt_of_no_files_is_the_context() {
    let prompt = process_files(&vec![], None, "default");
    assert_eq!(prompt.text, "default\n\n");
    assert_eq!(prompt.error, None);
}

#[test]
fn failed_file_ends_the_prompt() {
    let files = vec![
        FoundFile::Read { path: "a".to_string(), contents: "1".to_string() },
        FoundFile::Failed { message: "stream did not contain valid UTF-8".to_string() },
        FoundFile::Read { path: "b".to_string(), contents: "2".to_string() },
    ];
    let prompt = process_files(&files, Some("context"), "default");
    assert_eq!(prompt.text, "// a\n1\n\n");
    assert_eq!(prompt.error, Some("stream did not contain valid UTF-8".to_string()));
}

#[test]
fn search_reaches_every_directory() {
    assert_eq!(recursive_pattern("*.rs"), "**/*.rs");
    assert_eq!(recursive_pattern(""), "**/");
}

#[test]
fn precisions_name_their_bits() {
    assert_eq!(bits_per_parameter("q4"), Ok(4));
    assert_eq!(bits_per_parameter("q8"), Ok(8));
    assert_eq!(bits_per_parameter("q+6"), Ok(6));
    assert_eq!(bits_per_parameter("q128"), Ok(128));
    assert_eq!(bits_per_parameter("fp16"), Ok(16));
    assert_eq!(bits_per_parameter("fp32"), Ok(32));
}

#[test]
fn other_precisions_are_refused() {
    assert_eq!(bits_per_parameter("q"), Err(PrecisionError::InvalidQuantized));
    assert_eq!(bits_per_parameter("qx"), Err(PrecisionError::InvalidQuantized));
    assert_eq!(bits_per_parameter("q-4"), Err(PrecisionError::InvalidQuantized));
    assert_eq!(bits_per_parameter("fp"), Err(PrecisionError::InvalidFloatingPoint));
    assert_eq!(bits_per_parameter("fpx"), Err(PrecisionError::InvalidFloatingPoint));
    assert_eq!(bits_per_parameter("fp8"), Err(PrecisionError::UnsupportedFloatingPoint));
    assert_eq!(bits_per_parameter("fp64"), Err(PrecisionError::UnsupportedFloatingPoint));
    assert_eq!(bits_per_parameter(""), Err(PrecisionError::UnsupportedFormat));
    assert_eq!(bits_per_parameter("int8"), Err(PrecisionError::UnsupportedFormat));
    assert_eq!(bits_per_parameter("f16"), Err(PrecisionError::UnsupportedFormat));
    assert_eq!(bits_per_parameter("Q4"), Err(PrecisionError::UnsupportedFormat));
}
