use report_card::grade::{Grade, Student};
use report_card::numfmt::{centi_to_string, pad_right, u64_to_string};
use report_card::parse::{parse_num_subjects, parse_total_marks};
use report_card::render::{
    console_report, current_reports, html_filename, html_report, text_filename, text_report,
};

fn student(name: &str, total_marks_milli: u64, num_subjects: u32) -> Student {
    Student::new(String::from(name), total_marks_milli, num_subjects)
}

#[test]
fn average_is_exact_quotient() {
    // 270 / 3 = 90.00 exactly.
    assert_eq!(student("Alex", 270_000, 3).calculate_average(), 9000);
    // 100 / 3 = 33.333... shown as 33.33.
    assert_eq!(student("A", 100_000, 3).calculate_average(), 3333);
    // 0 / 5 = 0.00.
    assert_eq!(student("P", 0, 5).calculate_average(), 0);
    // 89.999 / 1 displays as 90.00 (half-up at the second decimal).
    assert_eq!(student("Q", 89_999, 1).calculate_average(), 9000);
}

#[test]
fn grade_boundaries_are_exact() {
    assert_eq!(student("s", 90_000, 1).assign_grade(), Grade::A);
    assert_eq!(student("s", 89_999, 1).assign_grade(), Grade::B);
    assert_eq!(student("s", 75_000, 1).assign_grade(), Grade::B);
    assert_eq!(student("s", 74_999, 1).assign_grade(), Grade::C);
    assert_eq!(student("s", 60_000, 1).assign_grade(), Grade::C);
    assert_eq!(student("s", 59_999, 1).assign_grade(), Grade::D);
    assert_eq!(student("s", 0, 1).assign_grade(), Grade::D);
    // The thresholds scale with the subject count: 270/3 = 90 exactly.
    assert_eq!(student("s", 270_000, 3).assign_grade(), Grade::A);
    assert_eq!(student("s", 269_999, 3).assign_grade(), Grade::B);
}

#[test]
fn descriptions_follow_the_fixed_mapping() {
    assert_eq!(Grade::A.description(), "Excellent");
    assert_eq!(Grade::B.description(), "Good");
    assert_eq!(Grade::C.description(), "Satisfactory");
    assert_eq!(Grade::D.description(), "Needs Improvement");
    assert_eq!(student("s", 95_000, 1).get_grade_description(), "Excellent");
    assert_eq!(student("s", 80_000, 1).get_grade_description(), "Good");
    assert_eq!(student("s", 65_000, 1).get_grade_description(), "Satisfactory");
    assert_eq!(student("s", 0, 5).get_grade_description(), "Needs Improvement");
}

#[test]
fn grade_texts_and_colors() {
    assert_eq!(Grade::A.letter(), "A");
    assert_eq!(Grade::D.letter(), "D");
    assert_eq!(Grade::A.color(), "#27ae60");
    assert_eq!(Grade::B.color(), "#f39c12");
    assert_eq!(Grade::C.color(), "#e67e22");
    assert_eq!(Grade::D.color(), "#e74c3c");
    assert_eq!(
        Grade::A.performance_message(),
        "🌟 Outstanding performance! Keep up the excellent work!"
    );
    assert_eq!(
        Grade::C.performance_summary(),
        "Satisfactory performance. Room for improvement!"
    );
    assert_eq!(
        student("s", 0, 5).performance_message(),
        "📖 Focus on your studies. You can do better!"
    );
}

#[test]
fn number_formatting() {
    assert_eq!(u64_to_string(0), "0");
    assert_eq!(u64_to_string(7), "7");
    assert_eq!(u64_to_string(12345), "12345");
    assert_eq!(centi_to_string(9000), "90.00");
    assert_eq!(centi_to_string(7), "0.07");
    assert_eq!(centi_to_string(27000), "270.00");
    assert_eq!(centi_to_string(3333), "33.33");
    assert_eq!(pad_right(String::from("ab"), 5), "ab   ");
    assert_eq!(pad_right(String::from("abcdef"), 5), "abcdef");
    assert_eq!(pad_right(String::new(), 3), "   ");
}

#[test]
fn filename_derivation() {
    assert_eq!(text_filename("Jane Doe"), "Jane_Doe_report_card.txt");
    assert_eq!(html_filename("Jane Doe"), "Jane_Doe_report_card.html");
    assert_eq!(text_filename("Alex"), "Alex_report_card.txt");
    assert_eq!(html_filename("Alex"), "Alex_report_card.html");
    assert_eq!(text_filename("A B C"), "A_B_C_report_card.txt");
}

#[test]
fn marks_parsing_accepts_and_rejects() {
    // An invalid entry is rejected (the prompt loop asks again), the next
    // valid one is accepted.
    assert_eq!(parse_total_marks("-5"), None);
    assert_eq!(parse_total_marks("50"), Some(50_000));
    assert_eq!(parse_total_marks("270"), Some(270_000));
    assert_eq!(parse_total_marks("89.999"), Some(89_999));
    assert_eq!(parse_total_marks("0"), Some(0));
    assert_eq!(parse_total_marks("5."), Some(5_000));
    assert_eq!(parse_total_marks(".5"), Some(500));
    assert_eq!(parse_total_marks("1.2345"), Some(1_234));
    assert_eq!(parse_total_marks("."), None);
    assert_eq!(parse_total_marks(""), None);
    assert_eq!(parse_total_marks("abc"), None);
    assert_eq!(parse_total_marks("1.2.3"), None);
    assert_eq!(parse_total_marks("999999999999.999"), Some(999_999_999_999_999));
    assert_eq!(parse_total_marks("1000000000000"), None);
}

#[test]
fn subjects_parsing_accepts_and_rejects() {
    assert_eq!(parse_num_subjects("3"), Some(3));
    assert_eq!(parse_num_subjects("1"), Some(1));
    assert_eq!(parse_num_subjects("0"), None);
    assert_eq!(parse_num_subjects("-1"), None);
    assert_eq!(parse_num_subjects(""), None);
    assert_eq!(parse_num_subjects("2.5"), None);
    assert_eq!(parse_num_subjects("4294967295"), Some(u32::MAX));
    assert_eq!(parse_num_subjects("4294967296"), None);
}

#[test]
fn rendering_is_idempotent() {
    let s = student("Jane Doe", 123_456, 2);
    let ts = "2024-01-02 03:04:05";
    assert_eq!(text_report(&s, ts), text_report(&s, ts));
    assert_eq!(html_report(&s, ts), html_report(&s, ts));
    assert_eq!(console_report(&s), console_report(&s));
}

#[test]
fn console_report_is_byte_exact() {
    let s = student("Alex", 270_000, 3);
    let rule = "=".repeat(50);
    let expected = format!(
        "\n{}\n               REPORT CARD\n{}\nStudent Name      : {}\nTotal Marks       : {:.2}\nNumber of Subjects: {}\nAverage Score     : {:.2}\nGrade             : {} ({})\n{}\n\nPerformance Summary:\n{}\n\n",
        rule,
        rule,
        "Alex",
        270.0f64,
        3,
        90.0f64,
        'A',
        "Excellent",
        rule,
        "🌟 Outstanding performance! Keep up the excellent work!",
    );
    assert_eq!(console_report(&s), expected);
}

#[test]
fn text_report_is_byte_exact() {
    let s = student("Alex", 270_000, 3);
    let ts = "2024-01-02 03:04:05";
    let expected = format!(
        "╔══════════════════════════════════════════════════════════════╗\n\
         ║                      STUDENT REPORT CARD                    ║\n\
         ╠══════════════════════════════════════════════════════════════╣\n\
         ║                                                              ║\n\
         ║  Student Name      : {:<42} ║\n\
         ║  Total Marks       : {:<42.2} ║\n\
         ║  Number of Subjects: {:<42} ║\n\
         ║  Average Score     : {:<42.2} ║\n\
         ║  Grade             : {} ({:<35}) ║\n\
         ║                                                              ║\n\
         ║  Generated on      : {:<42} ║\n\
         ║                                                              ║\n\
         ╠══════════════════════════════════════════════════════════════╣\n\
         ║  Performance Summary:                                        ║\n\
         ║  {:<58} ║\n\
         ╚══════════════════════════════════════════════════════════════╝\n",
        "Alex",
        270.0f64,
        3,
        90.0f64,
        'A',
        "Excellent",
        ts,
        "Outstanding performance! Keep up the excellent work!",
    );
    assert_eq!(text_report(&s, ts), expected);
}

#[test]
fn reports_contain_the_scenario_fields() {
    let s = student("Alex", 270_000, 3);
    let ts = "2024-01-02 03:04:05";
    let text = text_report(&s, ts);
    let html = html_report(&s, ts);
    for content in [&text, &html] {
        assert!(content.contains("Alex"));
        assert!(content.contains("270.00"));
        assert!(content.contains("3"));
        assert!(content.contains("90.00"));
        assert!(content.contains("A"));
        assert!(content.contains("Excellent"));
        assert!(content.contains(ts));
    }
    assert!(html.contains("#27ae60"));
    assert!(html.contains("<!DOCTYPE html>"));
    assert!(html.contains("🌟 Outstanding performance! Keep up the excellent work!"));
}

#[test]
fn current_reports_share_one_timestamp() {
    let s = student("Alex", 270_000, 3);
    let (ts, text, html) = current_reports(&s);
    // The clock is sampled once: re-rendering with the returned timestamp
    // reproduces both bodies byte for byte.
    assert_eq!(text, text_report(&s, &ts));
    assert_eq!(html, html_report(&s, &ts));
    assert!(text.contains(&ts));
    assert!(html.contains(&ts));
    // The pattern %Y-%m-%d %H:%M:%S gives 19 characters.
    assert_eq!(ts.len(), 19);
}

#[test]
fn zero_marks_scenario() {
    let s = student("P", 0, 5);
    assert_eq!(s.calculate_average(), 0);
    assert_eq!(s.assign_grade(), Grade::D);
    assert_eq!(s.get_grade_description(), "Needs Improvement");
    let text = text_report(&s, "2024-01-02 03:04:05");
    assert!(text.contains("0.00"));
    assert!(text.contains("Needs Improvement"));
    let html = html_report(&s, "2024-01-02 03:04:05");
    assert!(html.contains("#e74c3c"));
    assert!(html.contains("📖 Focus on your studies. You can do better!"));
}

#[test]
fn html_report_is_byte_exact() {
    let s = student("Alex", 270_000, 3);
    let ts = "2024-01-02 03:04:05";
    let expected = format!(
        r#"<!DOCTYPE html>
<html>
<head>
    <meta charset="UTF-8">
    <title>Student Report Card</title>
    <style>
        body {{
            font-family: Arial, sans-serif;
            max-width: 600px;
            margin: 50px auto;
            padding: 20px;
            background-color: #f5f5f5;
        }}
        .report-card {{
            background: white;
            padding: 30px;
            border-radius: 10px;
            box-shadow: 0 4px 6px rgba(0, 0, 0, 0.1);
        }}
        .header {{
            text-align: center;
            color: #2c3e50;
            border-bottom: 3px solid #3498db;
            padding-bottom: 15px;
            margin-bottom: 25px;
        }}
        .info-row {{
            display: flex;
            justify-content: space-between;
            margin: 10px 0;
            padding: 8px 0;
            border-bottom: 1px solid #ecf0f1;
        }}
        .label {{
            font-weight: bold;
            color: #34495e;
        }}
        .value {{
            color: #2c3e50;
        }}
        .grade {{
            font-size: 24px;
            font-weight: bold;
            color: {};
        }}
        .performance {{
            margin-top: 20px;
            padding: 15px;
            background-color: #ecf0f1;
            border-radius: 5px;
            text-align: center;
        }}
        .footer {{
            text-align: center;
            margin-top: 20px;
            color: #7f8c8d;
            font-size: 12px;
        }}
    </style>
</head>
<body>
    <div class="report-card">
        <div class="header">
            <h1>STUDENT REPORT CARD</h1>
        </div>
        
        <div class="info-row">
            <span class="label">Student Name:</span>
            <span class="value">{}</span>
        </div>
        
        <div class="info-row">
            <span class="label">Total Marks:</span>
            <span class="value">{:.2}</span>
        </div>
        
        <div class="info-row">
            <span class="label">Number of Subjects:</span>
            <span class="value">{}</span>
        </div>
        
        <div class="info-row">
            <span class="label">Average Score:</span>
            <span class="value">{:.2}</span>
        </div>
        
        <div class="info-row">
            <span class="label">Grade:</span>
            <span class="value grade">{} ({})</span>
        </div>
        
        <div class="performance">
            <strong>Performance Summary:</strong><br>
            {}
        </div>
        
        <div class="footer">
            Generated on: {}
        </div>
    </div>
</body>
</html>"#,
        "#27ae60",
        "Alex",
        270.0f64,
        3,
        90.0f64,
        'A',
        "Excellent",
        "\u{1f31f} Outstanding performance! Keep up the excellent work!",
        ts,
    );
    assert_eq!(html_report(&s, ts), expected);
}
