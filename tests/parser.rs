use l_system::parser::{
    is_comment, is_header, parse, parse_assigment, parse_rule_line, section_of, setting_of,
    ConfigSetting, ErrorKind, ParseError, Section,
};
use l_system::system::dump;
use l_system::Symbol;

fn lines(text: &str) -> Vec<String> {
    text.lines().map(|l| l.to_string()).collect()
}

#[test]
fn headers_and_comments() {
    assert!(is_header("[Rules]"));
    assert!(is_header("[]"));
    assert!(!is_header("Rules]"));
    assert!(!is_header("[Rules"));
    assert!(!is_header(""));
    assert!(is_comment("# note"));
    assert!(!is_comment(" # note"));
    assert!(!is_comment(""));
}

#[test]
fn assignment_is_split_and_trimmed() {
    assert_eq!(
        parse_assigment("  line_length = 5 ", "="),
        Ok(("line_length".to_string(), "5".to_string()))
    );
    assert_eq!(
        parse_assigment("F -> F+F", "->"),
        Ok(("F".to_string(), "F+F".to_string()))
    );
    assert_eq!(parse_assigment("a = b = c", "="), Err(ErrorKind::NotAnAssignment));
    assert_eq!(parse_assigment("no delimiter", "="), Err(ErrorKind::NotAnAssignment));
    assert_eq!(parse_assigment("x=", "="), Ok(("x".to_string(), "".to_string())));
}

#[test]
fn names_ignore_case() {
    assert_eq!(section_of("CONFIG"), Some(Section::Config));
    assert_eq!(section_of("Rules"), Some(Section::Rules));
    assert_eq!(section_of("start"), Some(Section::Start));
    assert_eq!(section_of("other"), None);
    assert_eq!(setting_of("Turning_Angle"), Some(ConfigSetting::TurningAngle));
    assert_eq!(setting_of("colour"), None);
}

#[test]
fn rule_lines() {
    let (s, st) = parse_rule_line("0 -> 1[0]0").unwrap();
    assert_eq!(s, Symbol::Var('0'));
    assert_eq!(dump(&st), "1[0]0");
    assert_eq!(parse_rule_line("AB -> A"), Err(ErrorKind::NotOneCharacter));
    assert_eq!(parse_rule_line("é -> A"), Err(ErrorKind::NotOneCharacter));
    assert_eq!(parse_rule_line("A = B"), Err(ErrorKind::NotAnAssignment));
}

const TREE: &str = "# a binary tree
[Config]
line_length = 5
TURNING_ANGLE = 45

[Rules]
1 -> 11
0 -> 1[0]0

[Start]
axiom = 0
";

#[test]
fn whole_definition() {
    let d = parse(&lines(TREE)).unwrap();
    assert_eq!(
        d.settings,
        vec![
            (ConfigSetting::LineLength, "5".to_string()),
            (ConfigSetting::TurningAngle, "45".to_string()),
        ]
    );
    let mut it = d.system.into_iter();
    assert_eq!(dump(&it.next().unwrap()), "0");
    assert_eq!(dump(&it.next().unwrap()), "1[0]0");
    assert_eq!(dump(it.state()), "11[1[0]0]1[0]0");
}

#[test]
fn missing_section() {
    let text = "[Rules]\nA -> AB\n\n[Start]\naxiom = A\n";
    assert_eq!(
        parse(&lines(text)).err(),
        Some(ParseError { kind: ErrorKind::MissingSections, line: 5 })
    );
}

#[test]
fn unknown_section() {
    let text = "[Colours]\n";
    assert_eq!(
        parse(&lines(text)).err(),
        Some(ParseError { kind: ErrorKind::UnknownSection, line: 0 })
    );
}

#[test]
fn invalid_line() {
    let text = "[Rules]\nA -> AB\n\n\n";
    assert_eq!(
        parse(&lines(text)).err(),
        Some(ParseError { kind: ErrorKind::InvalidLine, line: 3 })
    );
}

#[test]
fn unknown_setting() {
    let text = "[Config]\ncolour = red\n";
    assert_eq!(
        parse(&lines(text)).err(),
        Some(ParseError { kind: ErrorKind::UnknownSetting, line: 1 })
    );
}

#[test]
fn start_errors() {
    assert_eq!(
        parse(&lines("[Start]\nseed = A\n")).err(),
        Some(ParseError { kind: ErrorKind::UnknownStartSetting, line: 1 })
    );
    assert_eq!(
        parse(&lines("[Start]\n\n")).err(),
        Some(ParseError { kind: ErrorKind::MissingStart, line: 0 })
    );
    assert_eq!(
        parse(&lines("[Rules]\nAB -> A\n")).err(),
        Some(ParseError { kind: ErrorKind::NotOneCharacter, line: 1 })
    );
    assert_eq!(
        parse(&lines("[Rules]\nA B\n")).err(),
        Some(ParseError { kind: ErrorKind::NotAnAssignment, line: 1 })
    );
}
