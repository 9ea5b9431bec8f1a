//! The text layout of a system definition: `[Config]`, `[Rules]` and
//! `[Start]` sections of `key = value` and `symbol -> replacement` lines,
//! `#` comment lines, and a blank line at the end of each section.
//!
//! Reading the file and turning setting values into numbers is the caller's
//! part; here the lines are parsed.
use vstd::prelude::*;

use crate::rules::{Rules, State};
use crate::symbol::{symbol_of, Symbol};
use crate::system::{with_constants, System};
use crate::text::{chars_of, state_of, string_of, symbols_in, trim, trim_bounds};

verus! {

/// What went wrong on a line.
#[derive(Debug, Clone, Copy, PartialEq, Eq, Structural)]
pub enum ErrorKind {
    /// A section header names no known section.
    UnknownSection,
    /// A line outside a section is neither a header nor a comment.
    InvalidLine,
    /// A line does not hold its delimiter exactly once.
    NotAnAssignment,
    /// A configuration line names no known setting.
    UnknownSetting,
    /// The left side of a rule is not one ASCII character.
    NotOneCharacter,
    /// A start line names no known setting.
    UnknownStartSetting,
    /// The start section gives no start generation.
    MissingStart,
    /// A section is missing from the definition.
    MissingSections,
}

/// An error, and the number (from 0) of the line it concerns: for
/// `MissingStart` the section's header, for `MissingSections` the number of
/// lines.
#[derive(Debug, Clone, Copy, PartialEq, Eq, Structural)]
pub struct ParseError {
    pub kind: ErrorKind,
    pub line: usize,
}

/// A section of a definition.
#[derive(Debug, Clone, Copy, PartialEq, Eq, Structural)]
pub enum Section {
    Config,
    Rules,
    Start,
}

/// A drawing setting of the configuration section.
#[derive(Debug, Clone, Copy, PartialEq, Eq, Structural)]
pub enum ConfigSetting {
    LineLength,
    LineWidthIncrement,
    LineLengthScaleFactor,
    TurningAngle,
    TurningAngleIncrement,
}

/// The lowercase form of `s`, as `str::to_lowercase` gives it.
pub uninterp spec fn lower_of(s: Seq<char>) -> Seq<char>;

/// Relies on `str::to_lowercase`: the Unicode lowercase form, which depends
/// on the characters of `s` alone.
#[verifier::external_body]
fn lowercase(s: &str) -> (r: String)
    ensures
        r@ == lower_of(s@),
{
    s.to_lowercase()
}

/// Whether two texts are the same.
fn same_text(a: &str, b: &str) -> (r: bool)
    ensures
        r == (a@ == b@),
{
    let x = chars_of(a);
    let y = chars_of(b);
    if x.len() != y.len() {
        return false;
    }
    let mut i: usize = 0;
    while i < x.len()
        invariant
            x@ == a@,
            y@ == b@,
            x.len() == y.len(),
            i <= x.len(),
            forall|j: int| 0 <= j < i ==> x@[j] == y@[j],
        decreases x.len() - i,
    {
        if x[i] != y[i] {
            assert(x@[i as int] != y@[i as int]);
            return false;
        }
        i = i + 1;
    }
    assert(x@ =~= y@);
    true
}

/// Whether `line` opens a section: it begins with `[` and ends with `]`.
pub open spec fn header_line(line: Seq<char>) -> bool {
    line.len() >= 1 && line[0] == '[' && line.last() == ']'
}

/// Whether `line` is a comment: it begins with `#`.
pub open spec fn comment_line(line: Seq<char>) -> bool {
    line.len() >= 1 && line[0] == '#'
}

/// Whether `line` holds nothing but whitespace.
pub open spec fn blank_line(line: Seq<char>) -> bool {
    trim(line).len() == 0
}

/// Whether `line` opens a section.
pub fn is_header(line: &str) -> (r: bool)
    ensures
        r == header_line(line@),
{
    let n = line.unicode_len();
    n >= 1 && line.get_char(0) == '[' && line.get_char(n - 1) == ']'
}

/// Whether `line` is a comment.
pub fn is_comment(line: &str) -> (r: bool)
    ensures
        r == comment_line(line@),
{
    let n = line.unicode_len();
    n >= 1 && line.get_char(0) == '#'
}

/// Whether `d` occurs in `s` at `i`.
pub open spec fn occurs_at(s: Seq<char>, d: Seq<char>, i: int) -> bool {
    0 <= i && i + d.len() <= s.len() && s.subrange(i, i + d.len()) == d
}

/// `p` is the first place where `d` occurs in `s`, and scanning on from
/// the end of that match, `d` does not occur again: `d` occurs in `s`
/// exactly once when matches may not overlap.
pub open spec fn sole_match(s: Seq<char>, d: Seq<char>, p: int) -> bool {
    &&& occurs_at(s, d, p)
    &&& forall|i: int| 0 <= i < p ==> !occurs_at(s, d, i)
    &&& forall|i: int| i != p && p + d.len() <= i ==> !occurs_at(s, d, i)
}

/// The two sides of `s` around its only `d`, trimmed; `None` where `d`
/// does not occur exactly once.
pub open spec fn split_assignment(s: Seq<char>, d: Seq<char>) -> Option<(Seq<char>, Seq<char>)> {
    if exists|p: int| sole_match(s, d, p) {
        let p = choose|p: int| sole_match(s, d, p);
        Some((trim(s.take(p)), trim(s.skip(p + d.len()))))
    } else {
        None
    }
}

fn occurs(s: &Vec<char>, d: &Vec<char>, i: usize) -> (r: bool)
    ensures
        r == occurs_at(s@, d@, i as int),
{
    if i > s.len() || d.len() > s.len() - i {
        return false;
    }
    let mut j: usize = 0;
    while j < d.len()
        invariant
            i + d.len() <= s.len(),
            j <= d.len(),
            forall|k: int| 0 <= k < j ==> s@[i + k] == d@[k],
        decreases d.len() - j,
    {
        if s[i + j] != d[j] {
            assert(s@.subrange(i as int, i + d.len())[j as int] != d@[j as int]);
            return false;
        }
        j = j + 1;
    }
    assert(s@.subrange(i as int, i + d.len()) =~= d@);
    true
}

/// Splits `line` around its only `delimiter` and trims both sides.
pub fn parse_assigment(line: &str, delimiter: &str) -> (r: Result<(String, String), ErrorKind>)
    ensures
        match r {
            Ok((k, v)) => split_assignment(line@, delimiter@) == Some((k@, v@)),
            Err(e) => split_assignment(line@, delimiter@) is None && e == ErrorKind::NotAnAssignment,
        },
{
    let s = chars_of(line);
    let d = chars_of(delimiter);
    if d.len() > s.len() {
        proof {
            assert forall|p: int| !sole_match(line@, delimiter@, p) by {}
        }
        return Err(ErrorKind::NotAnAssignment);
    }
    if d.len() == 0 {
        proof {
            assert(s@.subrange(0, 0) =~= d@);
            assert(occurs_at(s@, d@, 0));
            if s.len() > 0 {
                assert(s@.subrange(1, 1) =~= d@);
                assert(occurs_at(s@, d@, 1));
                assert forall|q: int| !sole_match(line@, delimiter@, q) by {
                    if q != 0 {
                        assert(occurs_at(s@, d@, 0));
                    }
                }
            } else {
                assert(sole_match(line@, delimiter@, 0));
                assert forall|q: int| sole_match(line@, delimiter@, q) implies q == 0 by {}
                assert(line@.take(0) =~= Seq::<char>::empty());
                assert(line@.skip(0) =~= Seq::<char>::empty());
                assert(trim(Seq::<char>::empty()) =~= Seq::<char>::empty());
            }
        }
        if s.len() == 0 {
            return Ok((String::new(), String::new()));
        }
        return Err(ErrorKind::NotAnAssignment);
    }
    let last = s.len() - d.len();
    let mut p: usize = 0;
    while p < last && !occurs(&s, &d, p)
        invariant
            s@ == line@,
            d@ == delimiter@,
            last == s.len() - d.len(),
            p <= last,
            forall|i: int| 0 <= i < p ==> !occurs_at(s@, d@, i),
        decreases last - p,
    {
        p = p + 1;
    }
    if !occurs(&s, &d, p) {
        proof {
            assert forall|q: int| !sole_match(line@, delimiter@, q) by {
                if 0 <= q <= last {
                    assert(!occurs_at(s@, d@, q));
                }
            }
        }
        return Err(ErrorKind::NotAnAssignment);
    }
    let mut i: usize = p + d.len();
    while i <= last
        invariant
            s@ == line@,
            d@ == delimiter@,
            last == s.len() - d.len(),
            d.len() > 0,
            p <= last,
            occurs_at(s@, d@, p as int),
            forall|k: int| 0 <= k < p ==> !occurs_at(s@, d@, k),
            p + d.len() <= i <= s.len(),
            forall|k: int| p + d.len() <= k < i ==> !occurs_at(s@, d@, k),
        decreases last + 1 - i,
    {
        if occurs(&s, &d, i) {
            proof {
                assert forall|q: int| !sole_match(line@, delimiter@, q) by {
                    if q < p {
                        assert(!occurs_at(s@, d@, q));
                    } else if q > p {
                        assert(occurs_at(s@, d@, p as int));
                    } else {
                        assert(occurs_at(s@, d@, i as int));
                    }
                }
            }
            return Err(ErrorKind::NotAnAssignment);
        }
        i = i + 1;
    }
    proof {
        assert(sole_match(line@, delimiter@, p as int));
        assert forall|q: int| sole_match(line@, delimiter@, q) implies q == p by {
            if q < p {
                assert(!occurs_at(s@, d@, q));
            } else if q > p {
                assert(occurs_at(s@, d@, p as int));
            }
        }
        assert(s@.subrange(0, p as int) =~= line@.take(p as int));
        assert(s@.subrange(p + d.len(), s.len() as int) =~= line@.skip(p + d.len()));
    }
    let (klo, khi) = trim_bounds(&s, 0, p);
    let (vlo, vhi) = trim_bounds(&s, p + d.len(), s.len());
    Ok((string_of(&s, klo, khi), string_of(&s, vlo, vhi)))
}

/// The section that a header names, case ignored.
pub open spec fn section_named(name: Seq<char>) -> Option<Section> {
    let l = lower_of(name);
    if l == "config"@ {
        Some(Section::Config)
    } else if l == "rules"@ {
        Some(Section::Rules)
    } else if l == "start"@ {
        Some(Section::Start)
    } else {
        None
    }
}

/// The setting that a configuration key names, case ignored.
pub open spec fn setting_named(key: Seq<char>) -> Option<ConfigSetting> {
    let l = lower_of(key);
    if l == "line_length"@ {
        Some(ConfigSetting::LineLength)
    } else if l == "line_width_increment"@ {
        Some(ConfigSetting::LineWidthIncrement)
    } else if l == "line_length_scale_factor"@ {
        Some(ConfigSetting::LineLengthScaleFactor)
    } else if l == "turning_angle"@ {
        Some(ConfigSetting::TurningAngle)
    } else if l == "turning_angle_increment"@ {
        Some(ConfigSetting::TurningAngleIncrement)
    } else {
        None
    }
}

/// The one key of the start section, which names the start generation.
pub open spec fn start_key() -> Seq<char> {
    seq!['a', 'x', 'i', 'o', 'm']
}

/// The section that `name` names.
pub fn section_of(name: &str) -> (r: Option<Section>)
    ensures
        r == section_named(name@),
{
    let l = lowercase(name);
    if same_text(l.as_str(), "config") {
        Some(Section::Config)
    } else if same_text(l.as_str(), "rules") {
        Some(Section::Rules)
    } else if same_text(l.as_str(), "start") {
        Some(Section::Start)
    } else {
        None
    }
}

/// The setting that `key` names.
pub fn setting_of(key: &str) -> (r: Option<ConfigSetting>)
    ensures
        r == setting_named(key@),
{
    let l = lowercase(key);
    if same_text(l.as_str(), "line_length") {
        Some(ConfigSetting::LineLength)
    } else if same_text(l.as_str(), "line_width_increment") {
        Some(ConfigSetting::LineWidthIncrement)
    } else if same_text(l.as_str(), "line_length_scale_factor") {
        Some(ConfigSetting::LineLengthScaleFactor)
    } else if same_text(l.as_str(), "turning_angle") {
        Some(ConfigSetting::TurningAngle)
    } else if same_text(l.as_str(), "turning_angle_increment") {
        Some(ConfigSetting::TurningAngleIncrement)
    } else {
        None
    }
}

/// Whether `key` is the key of the start generation, case ignored.
fn is_start_key(key: &str) -> (r: bool)
    ensures
        r == (lower_of(key@) == start_key()),
{
    let l = lowercase(key);
    let cs = chars_of(l.as_str());
    let r = cs.len() == 5 && cs[0] == 'a' && cs[1] == 'x' && cs[2] == 'i' && cs[3] == 'o' && cs[4]
        == 'm';
    assert(r ==> cs@ =~= start_key());
    r
}

/// A configuration line: a setting and its value, still as text.
pub open spec fn config_line(line: Seq<char>) -> Result<(ConfigSetting, Seq<char>), ErrorKind> {
    match split_assignment(line, "="@) {
        None => Err(ErrorKind::NotAnAssignment),
        Some((k, v)) => match setting_named(k) {
            None => Err(ErrorKind::UnknownSetting),
            Some(c) => Ok((c, v)),
        },
    }
}

/// A rule line: one ASCII character, `->`, and the replacement.
pub open spec fn rule_line(line: Seq<char>) -> Result<(Symbol, Seq<Symbol>), ErrorKind> {
    match split_assignment(line, "->"@) {
        None => Err(ErrorKind::NotAnAssignment),
        Some((k, v)) => if k.len() == 1 && (k[0] as u32) < 128 {
            Ok((symbol_of(k[0]), symbols_in(v)))
        } else {
            Err(ErrorKind::NotOneCharacter)
        },
    }
}

/// A start line: the start key, `=`, and the start generation.
pub open spec fn start_line(line: Seq<char>) -> Result<Seq<Symbol>, ErrorKind> {
    match split_assignment(line, "="@) {
        None => Err(ErrorKind::NotAnAssignment),
        Some((k, v)) => if lower_of(k) == start_key() {
            Ok(symbols_in(v))
        } else {
            Err(ErrorKind::UnknownStartSetting)
        },
    }
}

/// Parses a configuration line.
pub fn parse_config_line(line: &str) -> (r: Result<(ConfigSetting, String), ErrorKind>)
    ensures
        match r {
            Ok((c, v)) => config_line(line@) == Ok::<(ConfigSetting, Seq<char>), ErrorKind>((c, v@)),
            Err(e) => config_line(line@) == Err::<(ConfigSetting, Seq<char>), ErrorKind>(e),
        },
{
    let (key, value) = parse_assigment(line, "=")?;
    match setting_of(key.as_str()) {
        Some(c) => Ok((c, value)),
        None => Err(ErrorKind::UnknownSetting),
    }
}

/// Parses a rule line.
pub fn parse_rule_line(line: &str) -> (r: Result<(Symbol, State), ErrorKind>)
    ensures
        match r {
            Ok((s, st)) => rule_line(line@) == Ok::<(Symbol, Seq<Symbol>), ErrorKind>((s, st@)),
            Err(e) => rule_line(line@) == Err::<(Symbol, Seq<Symbol>), ErrorKind>(e),
        },
{
    let (key, value) = parse_assigment(line, "->")?;
    let k = chars_of(key.as_str());
    if k.len() == 1 && (k[0] as u32) < 128 {
        Ok((Symbol::from(k[0]), state_of(value.as_str())))
    } else {
        Err(ErrorKind::NotOneCharacter)
    }
}

/// Parses a start line.
pub fn parse_start_line(line: &str) -> (r: Result<State, ErrorKind>)
    ensures
        match r {
            Ok(st) => start_line(line@) == Ok::<Seq<Symbol>, ErrorKind>(st@),
            Err(e) => start_line(line@) == Err::<Seq<Symbol>, ErrorKind>(e),
        },
{
    let (key, value) = parse_assigment(line, "=")?;
    if is_start_key(key.as_str()) {
        Ok(state_of(value.as_str()))
    } else {
        Err(ErrorKind::UnknownStartSetting)
    }
}

/// The lines as texts.
pub open spec fn texts(lines: Seq<String>) -> Seq<Seq<char>> {
    lines.map_values(|l: String| l@)
}

/// Settings with their values as texts.
pub open spec fn settings_view(v: Seq<(ConfigSetting, String)>) -> Seq<(ConfigSetting, Seq<char>)> {
    v.map_values(|p: (ConfigSetting, String)| (p.0, p.1@))
}

/// The configuration section from line `j` on, after the settings `acc`:
/// the settings and the number of the first line after the section.
pub open spec fn config_body(ls: Seq<Seq<char>>, j: int, acc: Seq<(ConfigSetting, Seq<char>)>) -> Result<
    (Seq<(ConfigSetting, Seq<char>)>, int),
    ParseError,
>
    decreases ls.len() - j,
{
    if j < 0 || j >= ls.len() {
        Ok((acc, ls.len() as int))
    } else if blank_line(ls[j]) {
        Ok((acc, j + 1))
    } else {
        match config_line(ls[j]) {
            Err(k) => Err(ParseError { kind: k, line: j as usize }),
            Ok(e) => config_body(ls, j + 1, acc.push(e)),
        }
    }
}

/// The rules section from line `j` on, after the rules `acc`; a later rule
/// for a symbol replaces an earlier one.
pub open spec fn rules_body(ls: Seq<Seq<char>>, j: int, acc: Map<Symbol, Seq<Symbol>>) -> Result<
    (Map<Symbol, Seq<Symbol>>, int),
    ParseError,
>
    decreases ls.len() - j,
{
    if j < 0 || j >= ls.len() {
        Ok((acc, ls.len() as int))
    } else if blank_line(ls[j]) {
        Ok((acc, j + 1))
    } else {
        match rule_line(ls[j]) {
            Err(k) => Err(ParseError { kind: k, line: j as usize }),
            Ok((s, st)) => rules_body(ls, j + 1, acc.insert(s, st)),
        }
    }
}

/// The start section from line `j` on, after the start generation `acc`;
/// the last start line wins.
pub open spec fn start_body(ls: Seq<Seq<char>>, j: int, acc: Option<Seq<Symbol>>) -> Result<
    (Option<Seq<Symbol>>, int),
    ParseError,
>
    decreases ls.len() - j,
{
    if j < 0 || j >= ls.len() {
        Ok((acc, ls.len() as int))
    } else if blank_line(ls[j]) {
        Ok((acc, j + 1))
    } else {
        match start_line(ls[j]) {
            Err(k) => Err(ParseError { kind: k, line: j as usize }),
            Ok(st) => start_body(ls, j + 1, Some(st)),
        }
    }
}

fn is_blank(line: &str) -> (r: bool)
    ensures
        r == blank_line(line@),
{
    let cs = chars_of(line);
    let (lo, hi) = trim_bounds(&cs, 0, cs.len());
    assert(cs@.subrange(0, cs.len() as int) =~= cs@);
    lo == hi
}

/// Parses the configuration section that starts at line `j`.
fn parse_config(lines: &Vec<String>, j: usize) -> (r: Result<(Vec<(ConfigSetting, String)>, usize), ParseError>)
    requires
        j <= lines.len(),
    ensures
        match r {
            Ok((v, next)) => config_body(texts(lines@), j as int, Seq::empty()) == Ok::<
                (Seq<(ConfigSetting, Seq<char>)>, int),
                ParseError,
            >((settings_view(v@), next as int)) && j <= next <= lines.len(),
            Err(e) => config_body(texts(lines@), j as int, Seq::empty()) == Err::<
                (Seq<(ConfigSetting, Seq<char>)>, int),
                ParseError,
            >(e),
        },
{
    let ghost ls = texts(lines@);
    let mut v: Vec<(ConfigSetting, String)> = Vec::new();
    let mut i: usize = j;
    assert(settings_view(v@) =~= Seq::empty());
    while i < lines.len()
        invariant
            ls == texts(lines@),
            j <= i <= lines.len(),
            config_body(ls, j as int, Seq::empty()) == config_body(ls, i as int, settings_view(v@)),
        decreases lines.len() - i,
    {
        let line = lines[i].as_str();
        if is_blank(line) {
            return Ok((v, i + 1));
        }
        match parse_config_line(line) {
            Err(k) => {
                return Err(ParseError { kind: k, line: i });
            },
            Ok(e) => {
                let ghost before = v@;
                v.push(e);
                assert(settings_view(v@) =~= settings_view(before).push((e.0, e.1@)));
            },
        }
        i = i + 1;
    }
    Ok((v, i))
}

/// Parses the rules section that starts at line `j`.
fn parse_rules(lines: &Vec<String>, j: usize) -> (r: Result<(Rules, usize), ParseError>)
    requires
        j <= lines.len(),
    ensures
        match r {
            Ok((m, next)) => m.wf() && rules_body(texts(lines@), j as int, Map::empty()) == Ok::<
                (Map<Symbol, Seq<Symbol>>, int),
                ParseError,
            >((m@, next as int)) && j <= next <= lines.len(),
            Err(e) => rules_body(texts(lines@), j as int, Map::empty()) == Err::<
                (Map<Symbol, Seq<Symbol>>, int),
                ParseError,
            >(e),
        },
{
    let ghost ls = texts(lines@);
    let mut m = Rules::new();
    let mut i: usize = j;
    while i < lines.len()
        invariant
            ls == texts(lines@),
            m.wf(),
            j <= i <= lines.len(),
            rules_body(ls, j as int, Map::empty()) == rules_body(ls, i as int, m@),
        decreases lines.len() - i,
    {
        let line = lines[i].as_str();
        if is_blank(line) {
            return Ok((m, i + 1));
        }
        match parse_rule_line(line) {
            Err(k) => {
                return Err(ParseError { kind: k, line: i });
            },
            Ok((s, st)) => {
                m.insert(s, st);
            },
        }
        i = i + 1;
    }
    Ok((m, i))
}

/// Parses the start section that starts at line `j`; `None` where it has
/// no start line.
fn parse_start(lines: &Vec<String>, j: usize) -> (r: Result<(Option<State>, usize), ParseError>)
    requires
        j <= lines.len(),
    ensures
        match r {
            Ok((st, next)) => start_body(texts(lines@), j as int, None) == Ok::<
                (Option<Seq<Symbol>>, int),
                ParseError,
            >((
                match st {
                    Some(x) => Some(x@),
                    None => None,
                },
                next as int,
            )) && j <= next <= lines.len(),
            Err(e) => start_body(texts(lines@), j as int, None) == Err::<
                (Option<Seq<Symbol>>, int),
                ParseError,
            >(e),
        },
{
    let ghost ls = texts(lines@);
    let mut found: Option<State> = None;
    let mut i: usize = j;
    while i < lines.len()
        invariant
            ls == texts(lines@),
            j <= i <= lines.len(),
            start_body(ls, j as int, None) == start_body(
                ls,
                i as int,
                match found {
                    Some(x) => Some(x@),
                    None => None,
                },
            ),
        decreases lines.len() - i,
    {
        let line = lines[i].as_str();
        if is_blank(line) {
            return Ok((found, i + 1));
        }
        match parse_start_line(line) {
            Err(k) => {
                return Err(ParseError { kind: k, line: i });
            },
            Ok(st) => {
                found = Some(st);
            },
        }
        i = i + 1;
    }
    Ok((found, i))
}

/// What the sections seen so far gave: settings, rules, start generation.
pub type Found = (
    Option<Seq<(ConfigSetting, Seq<char>)>>,
    Option<Map<Symbol, Seq<Symbol>>>,
    Option<Seq<Symbol>>,
);

/// The text between the brackets of a header.
pub open spec fn header_name(line: Seq<char>) -> Seq<char> {
    if line.len() >= 2 {
        line.subrange(1, line.len() - 1)
    } else {
        Seq::empty()
    }
}

/// The lines from `i` on, after the sections in `found`; each step reads at
/// least one line, so `fuel` no smaller than the lines left reads them all.
pub open spec fn sections(ls: Seq<Seq<char>>, i: int, found: Found, fuel: nat) -> Result<
    Found,
    ParseError,
>
    decreases fuel,
{
    if fuel == 0 || i < 0 || i >= ls.len() {
        Ok(found)
    } else if header_line(ls[i]) {
        match section_named(header_name(ls[i])) {
            None => Err(ParseError { kind: ErrorKind::UnknownSection, line: i as usize }),
            Some(Section::Config) => match config_body(ls, i + 1, Seq::empty()) {
                Err(e) => Err(e),
                Ok((c, next)) => sections(ls, next, (Some(c), found.1, found.2), (fuel - 1) as nat),
            },
            Some(Section::Rules) => match rules_body(ls, i + 1, Map::empty()) {
                Err(e) => Err(e),
                Ok((m, next)) => sections(ls, next, (found.0, Some(m), found.2), (fuel - 1) as nat),
            },
            Some(Section::Start) => match start_body(ls, i + 1, None) {
                Err(e) => Err(e),
                Ok((None, _)) => Err(ParseError { kind: ErrorKind::MissingStart, line: i as usize }),
                Ok((Some(st), next)) => sections(
                    ls,
                    next,
                    (found.0, found.1, Some(st)),
                    (fuel - 1) as nat,
                ),
            },
        }
    } else if comment_line(ls[i]) {
        sections(ls, i + 1, found, (fuel - 1) as nat)
    } else {
        Err(ParseError { kind: ErrorKind::InvalidLine, line: i as usize })
    }
}

/// The definition that `ls` holds: settings, rules and start generation,
/// or the first error.
pub open spec fn definition(ls: Seq<Seq<char>>) -> Result<
    (Seq<(ConfigSetting, Seq<char>)>, Map<Symbol, Seq<Symbol>>, Seq<Symbol>),
    ParseError,
> {
    match sections(ls, 0, (None, None, None), ls.len()) {
        Err(e) => Err(e),
        Ok((Some(c), Some(m), Some(st))) => Ok((c, m, st)),
        Ok(_) => Err(ParseError { kind: ErrorKind::MissingSections, line: ls.len() as usize }),
    }
}

/// A parsed definition: the drawing settings, with their values still as
/// text, and the system.
pub struct Definition {
    pub settings: Vec<(ConfigSetting, String)>,
    pub system: System,
}

/// What the sections read so far gave, as texts, maps and sequences.
pub open spec fn found_view(
    config: Option<Vec<(ConfigSetting, String)>>,
    rules: Option<Rules>,
    start: Option<State>,
) -> Found {
    (
        match config {
            Some(c) => Some(settings_view(c@)),
            None => None,
        },
        match rules {
            Some(m) => Some(m@),
            None => None,
        },
        match start {
            Some(st) => Some(st@),
            None => None,
        },
    )
}

fn header_text(line: &str) -> (r: String)
    ensures
        r@ == header_name(line@),
{
    let cs = chars_of(line);
    if cs.len() >= 2 {
        string_of(&cs, 1, cs.len() - 1)
    } else {
        String::new()
    }
}

/// Parses the lines of a definition.
pub fn parse(lines: &Vec<String>) -> (r: Result<Definition, ParseError>)
    ensures
        match r {
            Ok(d) => d.system.wf() && definition(texts(lines@)) == Ok::<
                (Seq<(ConfigSetting, Seq<char>)>, Map<Symbol, Seq<Symbol>>, Seq<Symbol>),
                ParseError,
            >((settings_view(d.settings@), d.system.rules(), d.system.start())),
            Err(e) => definition(texts(lines@)) == Err::<
                (Seq<(ConfigSetting, Seq<char>)>, Map<Symbol, Seq<Symbol>>, Seq<Symbol>),
                ParseError,
            >(e),
        },
{
    let ghost ls = texts(lines@);
    let mut config: Option<Vec<(ConfigSetting, String)>> = None;
    let mut rules: Option<Rules> = None;
    let mut start: Option<State> = None;
    let mut i: usize = 0;
    let ghost mut fuel: nat = lines.len() as nat;
    while i < lines.len()
        invariant
            ls == texts(lines@),
            i <= lines.len(),
            fuel >= lines.len() - i,
            rules matches Some(m) ==> m.wf(),
            sections(ls, 0, (None, None, None), ls.len()) == sections(
                ls,
                i as int,
                found_view(config, rules, start),
                fuel,
            ),
        decreases lines.len() - i,
    {
        let line = lines[i].as_str();
        assert(ls[i as int] == line@);
        if is_header(line) {
            let name = header_text(line);
            match section_of(name.as_str()) {
                None => {
                    return Err(ParseError { kind: ErrorKind::UnknownSection, line: i });
                },
                Some(Section::Config) => match parse_config(lines, i + 1) {
                    Err(e) => {
                        return Err(e);
                    },
                    Ok((c, next)) => {
                        config = Some(c);
                        i = next;
                    },
                },
                Some(Section::Rules) => match parse_rules(lines, i + 1) {
                    Err(e) => {
                        return Err(e);
                    },
                    Ok((m, next)) => {
                        rules = Some(m);
                        i = next;
                    },
                },
                Some(Section::Start) => match parse_start(lines, i + 1) {
                    Err(e) => {
                        return Err(e);
                    },
                    Ok((None, _)) => {
                        return Err(ParseError { kind: ErrorKind::MissingStart, line: i });
                    },
                    Ok((Some(st), next)) => {
                        start = Some(st);
                        i = next;
                    },
                },
            }
        } else if is_comment(line) {
            i = i + 1;
        } else {
            return Err(ParseError { kind: ErrorKind::InvalidLine, line: i });
        }
        proof {
            fuel = (fuel - 1) as nat;
        }
    }
    match (config, rules, start) {
        (Some(c), Some(m), Some(st)) => {
            let ghost given = m@;
            let system = System::new(m, Vec::new(), st);
            assert(with_constants(given, Seq::empty()) =~= given);
            Ok(Definition { settings: c, system })
        },
        _ => Err(ParseError { kind: ErrorKind::MissingSections, line: lines.len() }),
    }
}

} // verus!
