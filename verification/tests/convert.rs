use regex::Regex;
use tzconvert::convert_time;

#[test]
fn test_convert_time() {
    let test_data = vec![
        (
            "Wed Jun 11, 5:00am-8:30am PDT",
            r"Wed Jun 11, 5:00am-8:30am PDT \(8:00am-11:30am E[DS]T\)",
        ),
        (
            "Wed Jun 11, 9:00am-10:30am PDT",
            r"Wed Jun 11, 9:00am-10:30am PDT \(12:00pm-1:30pm E[DS]T\)",
        ),
        (
            "Wed Dec 11, 10:00am-2:30pm PST",
            r"Wed Dec 11, 10:00am-2:30pm PST \(1:00pm-5:30pm E[DS]T\)",
        ),
        (
            "Mon Jun 16, 1:00pm-2:30pm PT",
            r"Mon Jun 16, 1:00pm-2:30pm PT \(4:00pm-5:30pm E[DS]T\)",
        ),
        (
            "Tue Sep 17 10:00am-11:30am PST",
            r"Tue Sep 17 10:00am-11:30am PST \(1:00pm-2:30pm E[DS]T\)",
        ),
    ];

    let tz = "America/New_York";

    for (input, expected_str) in test_data.iter() {
        let expected = Regex::new(expected_str).unwrap();

        let result = convert_time(input, tz).unwrap();
        assert!(
            expected.is_match(&result),
            "Expected {} to match pattern {}",
            result,
            expected.as_str()
        );
    }
}
