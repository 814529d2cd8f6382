//! The names of the report codes that a cover may carry.

use crate::text::str_eq;
use vstd::prelude::*;

verus! {

/// The name of the report with the code `code`, as the commission lists it;
/// a code that it does not list has the name `[Unknown report code]`.
pub open spec fn label_of(code: Seq<char>) -> Seq<char> {
    if code == "10D"@ {
        "Pre-Election"@
    } else if code == "10G"@ {
        "Pre-General"@
    } else if code == "10P"@ {
        "Pre-Primary"@
    } else if code == "10R"@ {
        "Pre-Run-Off"@
    } else if code == "10S"@ {
        "Pre-Special"@
    } else if code == "12C"@ {
        "Pre-Convention"@
    } else if code == "12G"@ {
        "Pre-General"@
    } else if code == "12P"@ {
        "Pre-Primary"@
    } else if code == "12R"@ {
        "Pre-Run-Off"@
    } else if code == "12S"@ {
        "Pre-Special"@
    } else if code == "30D"@ {
        "Post-Election"@
    } else if code == "30G"@ {
        "Post-General"@
    } else if code == "30P"@ {
        "Post-Primary"@
    } else if code == "30R"@ {
        "Post-Run-Off"@
    } else if code == "30S"@ {
        "Post-Special"@
    } else if code == "60D"@ {
        "Post-Convention"@
    } else if code == "M1"@ {
        "January Monthly"@
    } else if code == "M10"@ {
        "October Monthly"@
    } else if code == "M11"@ {
        "November Monthly"@
    } else if code == "M12"@ {
        "December Monthly"@
    } else if code == "M2"@ {
        "February Monthly"@
    } else if code == "M3"@ {
        "March Monthly"@
    } else if code == "M4"@ {
        "April Monthly"@
    } else if code == "M5"@ {
        "May Monthly"@
    } else if code == "M6"@ {
        "June Monthly"@
    } else if code == "M7"@ {
        "July Monthly"@
    } else if code == "M8"@ {
        "August Monthly"@
    } else if code == "M9"@ {
        "September Monthly"@
    } else if code == "MY"@ {
        "Mid-Year Report"@
    } else if code == "Q1"@ {
        "April Quarterly"@
    } else if code == "Q2"@ {
        "July Quarterly"@
    } else if code == "Q3"@ {
        "October Quarterly"@
    } else if code == "TER"@ {
        "Termination Report"@
    } else if code == "YE"@ {
        "Year-End"@
    } else if code == "ADJ"@ {
        "COMP ADJUST AMEND"@
    } else if code == "CA"@ {
        "COMPREHENSIVE AMEND"@
    } else if code == "90S"@ {
        "Post Inaugural Supplement"@
    } else if code == "90D"@ {
        "Post Inaugural"@
    } else if code == "48"@ {
        "48 Hour Notification"@
    } else if code == "24"@ {
        "24 Hour Notification"@
    } else if code == "M7S"@ {
        "July Monthly/Semi-Annual"@
    } else if code == "MSA"@ {
        "Monthly Semi-Annual (MY)"@
    } else if code == "MYS"@ {
        "Monthly Year End/Semi-Annual"@
    } else if code == "Q2S"@ {
        "July Quarterly/Semi-Annual"@
    } else if code == "QSA"@ {
        "Quarterly Semi-Annual (MY)"@
    } else if code == "QYS"@ {
        "Quarterly Year End/Semi-Annual"@
    } else if code == "QYE"@ {
        "Quarterly Semi-Annual (YE)"@
    } else if code == "QMS"@ {
        "Quarterly Mid-Year/ Semi-Annual"@
    } else if code == "MSY"@ {
        "Monthly Semi-Annual (YE)"@
    } else {
        "[Unknown report code]"@
    }
}

/// The name of the report with the code `report_code`.
pub fn report_code_label(report_code: &str) -> (label: &'static str)
    ensures
        label@ == label_of(report_code@),
{
    if str_eq(report_code, "10D") {
        "Pre-Election"
    } else if str_eq(report_code, "10G") {
        "Pre-General"
    } else if str_eq(report_code, "10P") {
        "Pre-Primary"
    } else if str_eq(report_code, "10R") {
        "Pre-Run-Off"
    } else if str_eq(report_code, "10S") {
        "Pre-Special"
    } else if str_eq(report_code, "12C") {
        "Pre-Convention"
    } else if str_eq(report_code, "12G") {
        "Pre-General"
    } else if str_eq(report_code, "12P") {
        "Pre-Primary"
    } else if str_eq(report_code, "12R") {
        "Pre-Run-Off"
    } else if str_eq(report_code, "12S") {
        "Pre-Special"
    } else if str_eq(report_code, "30D") {
        "Post-Election"
    } else if str_eq(report_code, "30G") {
        "Post-General"
    } else if str_eq(report_code, "30P") {
        "Post-Primary"
    } else if str_eq(report_code, "30R") {
        "Post-Run-Off"
    } else if str_eq(report_code, "30S") {
        "Post-Special"
    } else if str_eq(report_code, "60D") {
        "Post-Convention"
    } else if str_eq(report_code, "M1") {
        "January Monthly"
    } else if str_eq(report_code, "M10") {
        "October Monthly"
    } else if str_eq(report_code, "M11") {
        "November Monthly"
    } else if str_eq(report_code, "M12") {
        "December Monthly"
    } else if str_eq(report_code, "M2") {
        "February Monthly"
    } else if str_eq(report_code, "M3") {
        "March Monthly"
    } else if str_eq(report_code, "M4") {
        "April Monthly"
    } else if str_eq(report_code, "M5") {
        "May Monthly"
    } else if str_eq(report_code, "M6") {
        "June Monthly"
    } else if str_eq(report_code, "M7") {
        "July Monthly"
    } else if str_eq(report_code, "M8") {
        "August Monthly"
    } else if str_eq(report_code, "M9") {
        "September Monthly"
    } else if str_eq(report_code, "MY") {
        "Mid-Year Report"
    } else if str_eq(report_code, "Q1") {
        "April Quarterly"
    } else if str_eq(report_code, "Q2") {
        "July Quarterly"
    } else if str_eq(report_code, "Q3") {
        "October Quarterly"
    } else if str_eq(report_code, "TER") {
        "Termination Report"
    } else if str_eq(report_code, "YE") {
        "Year-End"
    } else if str_eq(report_code, "ADJ") {
        "COMP ADJUST AMEND"
    } else if str_eq(report_code, "CA") {
        "COMPREHENSIVE AMEND"
    } else if str_eq(report_code, "90S") {
        "Post Inaugural Supplement"
    } else if str_eq(report_code, "90D") {
        "Post Inaugural"
    } else if str_eq(report_code, "48") {
        "48 Hour Notification"
    } else if str_eq(report_code, "24") {
        "24 Hour Notification"
    } else if str_eq(report_code, "M7S") {
        "July Monthly/Semi-Annual"
    } else if str_eq(report_code, "MSA") {
        "Monthly Semi-Annual (MY)"
    } else if str_eq(report_code, "MYS") {
        "Monthly Year End/Semi-Annual"
    } else if str_eq(report_code, "Q2S") {
        "July Quarterly/Semi-Annual"
    } else if str_eq(report_code, "QSA") {
        "Quarterly Semi-Annual (MY)"
    } else if str_eq(report_code, "QYS") {
        "Quarterly Year End/Semi-Annual"
    } else if str_eq(report_code, "QYE") {
        "Quarterly Semi-Annual (YE)"
    } else if str_eq(report_code, "QMS") {
        "Quarterly Mid-Year/ Semi-Annual"
    } else if str_eq(report_code, "MSY") {
        "Monthly Semi-Annual (YE)"
    } else {
        "[Unknown report code]"
    }
}

} // verus!
