//! Rendering of the three report forms: the console summary, the boxed
//! plain-text report and the styled HTML report. Each is a pure function of
//! the model and, for the two file forms, a supplied timestamp; the file
//! names derive from the student's name with spaces replaced by underscores.

use vstd::prelude::*;
use vstd::string::StrSliceExecFns;
use vstd::string::StringExecFns;

use crate::grade::Student;
use crate::grade::spec_description;
use crate::grade::spec_grade_color;
use crate::grade::spec_grade_letter;
use crate::grade::spec_performance_message;
use crate::grade::spec_performance_summary;
use crate::numfmt::spec_centi;
use crate::numfmt::spec_dec;
use crate::numfmt::spec_pad_right;
use crate::numfmt::centi_to_string;
use crate::numfmt::pad_right;
use crate::numfmt::u64_to_string;

verus! {

/// `s` with every space replaced by an underscore; other characters,
/// multi-byte ones included, are untouched.
pub open spec fn spec_underscored(s: Seq<char>) -> Seq<char> {
    s.map_values(|c: char| if c == ' ' { '_' } else { c })
}

/// The name of the plain-text report file derived from a student name.
pub open spec fn spec_text_filename(name: Seq<char>) -> Seq<char> {
    spec_underscored(name) + "_report_card.txt"@
}

/// The name of the HTML report file derived from a student name.
pub open spec fn spec_html_filename(name: Seq<char>) -> Seq<char> {
    spec_underscored(name) + "_report_card.html"@
}

/// Replaces every space of `s` by an underscore.
pub fn underscored(s: &str) -> (r: String)
    ensures
        r@ == spec_underscored(s@),
{
    let n = s.unicode_len();
    let mut r = String::new();
    let mut i: usize = 0;
    proof {
        assert(r@ =~= spec_underscored(s@.take(0)));
    }
    while i < n
        invariant
            i <= n,
            n == s@.len(),
            r@ == spec_underscored(s@.take(i as int)),
        decreases n - i,
    {
        let c = s.get_char(i);
        if c == ' ' {
            r.append("_");
            proof {
                reveal_strlit("_");
            }
        } else {
            r.append(s.substring_char(i, i + 1));
        }
        i = i + 1;
        proof {
            assert(r@ =~= spec_underscored(s@.take(i as int)));
        }
    }
    proof {
        assert(s@.take(n as int) =~= s@);
    }
    r
}

/// The plain-text report's file name for this student's name.
pub fn text_filename(name: &str) -> (r: String)
    ensures
        r@ == spec_text_filename(name@),
{
    let mut r = underscored(name);
    r.append("_report_card.txt");
    r
}

/// The HTML report's file name for this student's name.
pub fn html_filename(name: &str) -> (r: String)
    ensures
        r@ == spec_html_filename(name@),
{
    let mut r = underscored(name);
    r.append("_report_card.html");
    r
}

/// The console summary: a 50-character ruled block with the fields and the
/// grade, followed by the performance message.
pub open spec fn spec_console_report(s: Student) -> Seq<char> {
    let g = s.spec_grade();
    "\n==================================================\n               REPORT CARD\n==================================================\nStudent Name      : "@
        + s.name@
        + "\nTotal Marks       : "@
        + spec_centi(s.spec_marks_centi())
        + "\nNumber of Subjects: "@
        + spec_dec(s.num_subjects as int)
        + "\nAverage Score     : "@
        + spec_centi(s.spec_average_centi())
        + "\nGrade             : "@
        + spec_grade_letter(g)
        + " ("@
        + spec_description(g)
        + ")\n==================================================\n\nPerformance Summary:\n"@
        + spec_performance_message(g)
        + "\n\n"@
}

/// Renders the console summary.
pub fn console_report(s: &Student) -> (r: String)
    requires
        s.wf(),
    ensures
        r@ == spec_console_report(*s),
{
    let ghost g = s.spec_grade();
    let grade = s.assign_grade();
    let mut r = String::from_str("\n==================================================\n               REPORT CARD\n==================================================\nStudent Name      : ");
    r.append(s.name.as_str());
    r.append("\nTotal Marks       : ");
    r.append(centi_to_string(s.marks_centi()).as_str());
    r.append("\nNumber of Subjects: ");
    r.append(u64_to_string(s.num_subjects as u64).as_str());
    r.append("\nAverage Score     : ");
    r.append(centi_to_string(s.calculate_average()).as_str());
    r.append("\nGrade             : ");
    r.append(grade.letter());
    r.append(" (");
    r.append(grade.description());
    r.append(")\n==================================================\n\nPerformance Summary:\n");
    r.append(grade.performance_message());
    r.append("\n\n");
    r
}

/// The boxed plain-text report: fields padded to fixed column widths, with
/// the generation timestamp and the performance summary.
pub open spec fn spec_text_report(s: Student, ts: Seq<char>) -> Seq<char> {
    let g = s.spec_grade();
    "╔══════════════════════════════════════════════════════════════╗\n║                      STUDENT REPORT CARD                    ║\n╠══════════════════════════════════════════════════════════════╣\n║                                                              ║\n║  Student Name      : "@
        + spec_pad_right(s.name@, 42)
        + " ║\n║  Total Marks       : "@
        + spec_pad_right(spec_centi(s.spec_marks_centi()), 42)
        + " ║\n║  Number of Subjects: "@
        + spec_pad_right(spec_dec(s.num_subjects as int), 42)
        + " ║\n║  Average Score     : "@
        + spec_pad_right(spec_centi(s.spec_average_centi()), 42)
        + " ║\n║  Grade             : "@
        + spec_grade_letter(g)
        + " ("@
        + spec_pad_right(spec_description(g), 35)
        + ") ║\n║                                                              ║\n║  Generated on      : "@
        + spec_pad_right(ts, 42)
        + " ║\n║                                                              ║\n╠══════════════════════════════════════════════════════════════╣\n║  Performance Summary:                                        ║\n║  "@
        + spec_pad_right(spec_performance_summary(g), 58)
        + " ║\n╚══════════════════════════════════════════════════════════════╝\n"@
}

/// Renders the boxed plain-text report with the given timestamp.
pub fn text_report(s: &Student, ts: &str) -> (r: String)
    requires
        s.wf(),
    ensures
        r@ == spec_text_report(*s, ts@),
{
    let ghost g = s.spec_grade();
    let grade = s.assign_grade();
    let mut r = String::from_str("╔══════════════════════════════════════════════════════════════╗\n║                      STUDENT REPORT CARD                    ║\n╠══════════════════════════════════════════════════════════════╣\n║                                                              ║\n║  Student Name      : ");
    r.append(pad_right(String::from_str(s.name.as_str()), 42).as_str());
    r.append(" ║\n║  Total Marks       : ");
    r.append(pad_right(centi_to_string(s.marks_centi()), 42).as_str());
    r.append(" ║\n║  Number of Subjects: ");
    r.append(pad_right(u64_to_string(s.num_subjects as u64), 42).as_str());
    r.append(" ║\n║  Average Score     : ");
    r.append(pad_right(centi_to_string(s.calculate_average()), 42).as_str());
    r.append(" ║\n║  Grade             : ");
    r.append(grade.letter());
    r.append(" (");
    r.append(pad_right(String::from_str(grade.description()), 35).as_str());
    r.append(") ║\n║                                                              ║\n║  Generated on      : ");
    r.append(pad_right(String::from_str(ts), 42).as_str());
    r.append(" ║\n║                                                              ║\n╠══════════════════════════════════════════════════════════════╣\n║  Performance Summary:                                        ║\n║  ");
    r.append(pad_right(String::from_str(grade.performance_summary()), 58).as_str());
    r.append(" ║\n╚══════════════════════════════════════════════════════════════╝\n");
    r
}

/// The self-contained HTML report: inline styling, a grade-colored accent,
/// the fields, the performance message and the timestamp.
pub open spec fn spec_html_report(s: Student, ts: Seq<char>) -> Seq<char> {
    let g = s.spec_grade();
    "<!DOCTYPE html>\n<html>\n<head>\n    <meta charset=\"UTF-8\">\n    <title>Student Report Card</title>\n    <style>\n        body {\n            font-family: Arial, sans-serif;\n            max-width: 600px;\n            margin: 50px auto;\n            padding: 20px;\n            background-color: #f5f5f5;\n        }\n        .report-card {\n            background: white;\n            padding: 30px;\n            border-radius: 10px;\n            box-shadow: 0 4px 6px rgba(0, 0, 0, 0.1);\n        }\n        .header {\n            text-align: center;\n            color: #2c3e50;\n            border-bottom: 3px solid #3498db;\n            padding-bottom: 15px;\n            margin-bottom: 25px;\n        }\n        .info-row {\n            display: flex;\n            justify-content: space-between;\n            margin: 10px 0;\n            padding: 8px 0;\n            border-bottom: 1px solid #ecf0f1;\n        }\n        .label {\n            font-weight: bold;\n            color: #34495e;\n        }\n        .value {\n            color: #2c3e50;\n        }\n        .grade {\n            font-size: 24px;\n            font-weight: bold;\n            color: "@
        + spec_grade_color(g)
        + ";\n        }\n        .performance {\n            margin-top: 20px;\n            padding: 15px;\n            background-color: #ecf0f1;\n            border-radius: 5px;\n            text-align: center;\n        }\n        .footer {\n            text-align: center;\n            margin-top: 20px;\n            color: #7f8c8d;\n            font-size: 12px;\n        }\n    </style>\n</head>\n<body>\n    <div class=\"report-card\">\n        <div class=\"header\">\n            <h1>STUDENT REPORT CARD</h1>\n        </div>\n        \n        <div class=\"info-row\">\n            <span class=\"label\">Student Name:</span>\n            <span class=\"value\">"@
        + s.name@
        + "</span>\n        </div>\n        \n        <div class=\"info-row\">\n            <span class=\"label\">Total Marks:</span>\n            <span class=\"value\">"@
        + spec_centi(s.spec_marks_centi())
        + "</span>\n        </div>\n        \n        <div class=\"info-row\">\n            <span class=\"label\">Number of Subjects:</span>\n            <span class=\"value\">"@
        + spec_dec(s.num_subjects as int)
        + "</span>\n        </div>\n        \n        <div class=\"info-row\">\n            <span class=\"label\">Average Score:</span>\n            <span class=\"value\">"@
        + spec_centi(s.spec_average_centi())
        + "</span>\n        </div>\n        \n        <div class=\"info-row\">\n            <span class=\"label\">Grade:</span>\n            <span class=\"value grade\">"@
        + spec_grade_letter(g)
        + " ("@
        + spec_description(g)
        + ")</span>\n        </div>\n        \n        <div class=\"performance\">\n            <strong>Performance Summary:</strong><br>\n            "@
        + spec_performance_message(g)
        + "\n        </div>\n        \n        <div class=\"footer\">\n            Generated on: "@
        + ts
        + "\n        </div>\n    </div>\n</body>\n</html>"@
}

/// Renders the HTML report with the given timestamp.
pub fn html_report(s: &Student, ts: &str) -> (r: String)
    requires
        s.wf(),
    ensures
        r@ == spec_html_report(*s, ts@),
{
    let ghost g = s.spec_grade();
    let grade = s.assign_grade();
    let mut r = String::from_str("<!DOCTYPE html>\n<html>\n<head>\n    <meta charset=\"UTF-8\">\n    <title>Student Report Card</title>\n    <style>\n        body {\n            font-family: Arial, sans-serif;\n            max-width: 600px;\n            margin: 50px auto;\n            padding: 20px;\n            background-color: #f5f5f5;\n        }\n        .report-card {\n            background: white;\n            padding: 30px;\n            border-radius: 10px;\n            box-shadow: 0 4px 6px rgba(0, 0, 0, 0.1);\n        }\n        .header {\n            text-align: center;\n            color: #2c3e50;\n            border-bottom: 3px solid #3498db;\n            padding-bottom: 15px;\n            margin-bottom: 25px;\n        }\n        .info-row {\n            display: flex;\n            justify-content: space-between;\n            margin: 10px 0;\n            padding: 8px 0;\n            border-bottom: 1px solid #ecf0f1;\n        }\n        .label {\n            font-weight: bold;\n            color: #34495e;\n        }\n        .value {\n            color: #2c3e50;\n        }\n        .grade {\n            font-size: 24px;\n            font-weight: bold;\n            color: ");
    r.append(grade.color());
    r.append(";\n        }\n        .performance {\n            margin-top: 20px;\n            padding: 15px;\n            background-color: #ecf0f1;\n            border-radius: 5px;\n            text-align: center;\n        }\n        .footer {\n            text-align: center;\n            margin-top: 20px;\n            color: #7f8c8d;\n            font-size: 12px;\n        }\n    </style>\n</head>\n<body>\n    <div class=\"report-card\">\n        <div class=\"header\">\n            <h1>STUDENT REPORT CARD</h1>\n        </div>\n        \n        <div class=\"info-row\">\n            <span class=\"label\">Student Name:</span>\n            <span class=\"value\">");
    r.append(s.name.as_str());
    r.append("</span>\n        </div>\n        \n        <div class=\"info-row\">\n            <span class=\"label\">Total Marks:</span>\n            <span class=\"value\">");
    r.append(centi_to_string(s.marks_centi()).as_str());
    r.append("</span>\n        </div>\n        \n        <div class=\"info-row\">\n            <span class=\"label\">Number of Subjects:</span>\n            <span class=\"value\">");
    r.append(u64_to_string(s.num_subjects as u64).as_str());
    r.append("</span>\n        </div>\n        \n        <div class=\"info-row\">\n            <span class=\"label\">Average Score:</span>\n            <span class=\"value\">");
    r.append(centi_to_string(s.calculate_average()).as_str());
    r.append("</span>\n        </div>\n        \n        <div class=\"info-row\">\n            <span class=\"label\">Grade:</span>\n            <span class=\"value grade\">");
    r.append(grade.letter());
    r.append(" (");
    r.append(grade.description());
    r.append(")</span>\n        </div>\n        \n        <div class=\"performance\">\n            <strong>Performance Summary:</strong><br>\n            ");
    r.append(grade.performance_message());
    r.append("\n        </div>\n        \n        <div class=\"footer\">\n            Generated on: ");
    r.append(ts);
    r.append("\n        </div>\n    </div>\n</body>\n</html>");
    r
}

/// Relies on `chrono::Local::now` and `chrono`'s `format` with the pattern
/// `%Y-%m-%d %H:%M:%S` to render the current local time. The result depends
/// on the clock, so nothing is promised of it; the renderers take it as an
/// ordinary value.
#[verifier::external_body]
fn local_timestamp() -> String {
    chrono::Local::now().format("%Y-%m-%d %H:%M:%S").to_string()
}

/// Renders both file bodies with one sampling of the current local time:
/// the two reports carry the same timestamp, the first component, and each
/// equals its specified rendering of the model with that timestamp.
pub fn current_reports(s: &Student) -> (r: (String, String, String))
    requires
        s.wf(),
    ensures
        r.1@ == spec_text_report(*s, r.0@),
        r.2@ == spec_html_report(*s, r.0@),
{
    let ts = local_timestamp();
    let text = text_report(s, ts.as_str());
    let html = html_report(s, ts.as_str());
    (ts, text, html)
}

/// Rendering is idempotent: an identical model and an identical timestamp
/// produce identical content, for all three report forms.
pub proof fn lemma_rendering_deterministic(
    s1: Student,
    s2: Student,
    ts1: Seq<char>,
    ts2: Seq<char>,
)
    requires
        s1 == s2,
        ts1 == ts2,
    ensures
        spec_console_report(s1) == spec_console_report(s2),
        spec_text_report(s1, ts1) == spec_text_report(s2, ts2),
        spec_html_report(s1, ts1) == spec_html_report(s2, ts2),
{
}

/// A name without spaces passes through filename derivation unchanged but
/// for the suffix.
pub proof fn lemma_filename_no_spaces(name: Seq<char>)
    requires
        forall|i: int| 0 <= i < name.len() ==> name[i] != ' ',
    ensures
        spec_underscored(name) == name,
        spec_text_filename(name) == name + "_report_card.txt"@,
        spec_html_filename(name) == name + "_report_card.html"@,
{
    assert(spec_underscored(name) =~= name);
}

} // verus!
