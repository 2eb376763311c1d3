//! Declarative window rules and their resolution against a window's
//! role attributes.
//!
//! A rule carries optional match criteria (app id, title — regex patterns),
//! optional exclude criteria, and optional per-window defaults. Applicable
//! rules are folded in list order, later rules overwriting earlier ones
//! field by field.

use vstd::prelude::*;

verus! {

/// A column width a rule can pick for new windows. The proportional variant
/// is in thousandths of the working area's width.
#[derive(Clone, Copy, Debug, PartialEq, Eq, Structural)]
pub enum ColumnWidth {
    Proportion(u32),
    Fixed(i32),
}

/// Whether `pattern` (a regular expression) matches `text`. The result
/// depends on the two strings alone.
pub uninterp spec fn regex_match_of(pattern: Seq<char>, text: Seq<char>) -> bool;

/// Whether `pattern` is a regular expression the regex engine accepts;
/// acceptance depends on the pattern text alone.
pub uninterp spec fn regex_valid(pattern: Seq<char>) -> bool;

#[verifier::external_type_specification]
#[verifier::external_body]
pub struct ExRegex(regex::Regex);

/// A compiled match pattern. The compiled expression always comes from the
/// raw pattern next to it: the fields are private and [`Pattern::new`] is
/// the only constructor.
pub struct Pattern {
    raw: String,
    re: regex::Regex,
}

impl Pattern {
    /// The raw pattern text.
    pub closed spec fn view(self) -> Seq<char> {
        self.raw@
    }

    /// Compiles a pattern; `None` exactly when it is not a valid regex.
    pub fn new(raw: String) -> (r: Option<Pattern>)
        ensures
            r is Some <==> regex_valid(raw@),
            r matches Some(p) ==> p@ == raw@,
    {
        match compile_regex(raw.as_str()) {
            Some(re) => Some(Pattern { raw, re }),
            None => None,
        }
    }
}

/// Relies on `regex::Regex::new`: compilation is deterministic in the
/// pattern text, succeeding exactly on the patterns the engine accepts.
#[verifier::external_body]
fn compile_regex(raw: &str) -> (r: Option<regex::Regex>)
    ensures
        r is Some <==> regex_valid(raw@),
{
    regex::Regex::new(raw).ok()
}

/// Relies on `regex::Regex::is_match`: whether the text matches the pattern
/// the expression was compiled from; the result depends on the two strings
/// alone. A [`Pattern`]'s compiled field always comes from its raw field.
#[verifier::external_body]
fn pattern_is_match(p: &Pattern, text: &str) -> (r: bool)
    ensures
        r == regex_match_of(p@, text@),
{
    p.re.is_match(text)
}

/// Match criteria: each present criterion must hold for the window.
pub struct Match {
    pub app_id: Option<Pattern>,
    pub title: Option<Pattern>,
}

/// Mathematical view of match criteria: the raw pattern texts.
pub ghost struct MatchI {
    pub app_id: Option<Seq<char>>,
    pub title: Option<Seq<char>>,
}

impl Match {
    pub open spec fn view(self) -> MatchI {
        MatchI {
            app_id: match self.app_id {
                Option::Some(p) => Option::Some(p@),
                Option::None => Option::None,
            },
            title: match self.title {
                Option::Some(p) => Option::Some(p@),
                Option::None => Option::None,
            },
        }
    }
}

/// A window's role attributes, as set by the client.
pub struct WindowAttributes {
    pub app_id: Option<String>,
    pub title: Option<String>,
}

pub ghost struct AttrsI {
    pub app_id: Option<Seq<char>>,
    pub title: Option<Seq<char>>,
}

impl WindowAttributes {
    pub open spec fn view(self) -> AttrsI {
        AttrsI {
            app_id: match self.app_id {
                Option::Some(s) => Option::Some(s@),
                Option::None => Option::None,
            },
            title: match self.title {
                Option::Some(s) => Option::Some(s@),
                Option::None => Option::None,
            },
        }
    }
}

/// One declarative window rule.
pub struct WindowRule {
    /// With no criterion at all the rule matches every window; otherwise at
    /// least one criterion must match.
    pub matches: Vec<Match>,
    /// If any of these matches, the rule is skipped.
    pub excludes: Vec<Match>,
    /// Default width for this window: unset, set to empty, or set to the
    /// first preset of the list.
    pub default_column_width: Option<Vec<ColumnWidth>>,
    /// Name of the output to open this window on.
    pub open_on_output: Option<String>,
}

pub ghost struct WindowRuleI {
    pub matches: Seq<MatchI>,
    pub excludes: Seq<MatchI>,
    pub default_column_width: Option<Seq<ColumnWidth>>,
    pub open_on_output: Option<Seq<char>>,
}

impl WindowRule {
    pub open spec fn view(self) -> WindowRuleI {
        WindowRuleI {
            matches: self.matches@.map_values(|m: Match| m@),
            excludes: self.excludes@.map_values(|m: Match| m@),
            default_column_width: match self.default_column_width {
                Option::Some(v) => Option::Some(v@),
                Option::None => Option::None,
            },
            open_on_output: match self.open_on_output {
                Option::Some(s) => Option::Some(s@),
                Option::None => Option::None,
            },
        }
    }
}

/// Defaults resolved for one window by folding all applicable rules.
///
/// `default_width`: `None` = unset, `Some(None)` = set to empty,
/// `Some(Some(w))` = set to a particular width.
pub struct ResolvedWindowRule {
    pub default_width: Option<Option<ColumnWidth>>,
    pub open_on_output: Option<String>,
}

pub ghost struct ResolvedI {
    pub default_width: Option<Option<ColumnWidth>>,
    pub open_on_output: Option<Seq<char>>,
}

impl ResolvedWindowRule {
    pub open spec fn view(self) -> ResolvedI {
        ResolvedI {
            default_width: self.default_width,
            open_on_output: match self.open_on_output {
                Option::Some(s) => Option::Some(s@),
                Option::None => Option::None,
            },
        }
    }
}

/// The view of an optional string.
pub open spec fn view_opt_str(o: Option<String>) -> Option<Seq<char>> {
    match o {
        Option::Some(s) => Option::Some(s@),
        Option::None => Option::None,
    }
}

/// An absent criterion asks nothing; a present one needs the attribute to be
/// set and to match.
pub open spec fn spec_criterion_ok(pat: Option<Seq<char>>, attr: Option<Seq<char>>) -> bool {
    match pat {
        Option::None => true,
        Option::Some(p) => match attr {
            Option::None => false,
            Option::Some(t) => regex_match_of(p, t),
        },
    }
}

pub open spec fn spec_window_matches(m: MatchI, a: AttrsI) -> bool {
    spec_criterion_ok(m.app_id, a.app_id) && spec_criterion_ok(m.title, a.title)
}

pub open spec fn spec_any_match(ms: Seq<MatchI>, a: AttrsI) -> bool {
    exists|i: int| 0 <= i < ms.len() && spec_window_matches(ms[i], a)
}

/// A rule applies when its match criteria are empty or some criterion
/// matches, and no exclude criterion matches.
pub open spec fn spec_rule_applies(r: WindowRuleI, a: AttrsI) -> bool {
    (r.matches.len() == 0 || spec_any_match(r.matches, a)) && !spec_any_match(r.excludes, a)
}

/// The width an applicable rule sets: the first preset, or "set to empty".
pub open spec fn spec_first_width(ws: Seq<ColumnWidth>) -> Option<ColumnWidth> {
    if ws.len() == 0 {
        Option::None
    } else {
        Option::Some(ws[0])
    }
}

pub open spec fn spec_empty_resolved() -> ResolvedI {
    ResolvedI { default_width: Option::None, open_on_output: Option::None }
}

/// Folding the rules in list order; a later applicable rule overwrites each
/// field it sets, independently per field.
pub open spec fn spec_resolve(rules: Seq<WindowRuleI>, a: AttrsI) -> ResolvedI
    decreases rules.len(),
{
    if rules.len() == 0 {
        spec_empty_resolved()
    } else {
        let prev = spec_resolve(rules.drop_last(), a);
        let r = rules.last();
        if spec_rule_applies(r, a) {
            ResolvedI {
                default_width: match r.default_column_width {
                    Option::Some(ws) => Option::Some(spec_first_width(ws)),
                    Option::None => prev.default_width,
                },
                open_on_output: match r.open_on_output {
                    Option::Some(o) => Option::Some(o),
                    Option::None => prev.open_on_output,
                },
            }
        } else {
            prev
        }
    }
}

pub open spec fn rules_view(rules: Seq<WindowRule>) -> Seq<WindowRuleI> {
    rules.map_values(|r: WindowRule| r@)
}

/// Whether the window satisfies the match criteria `m`.
pub fn window_matches(attrs: &WindowAttributes, m: &Match) -> (r: bool)
    ensures
        r == spec_window_matches(m@, attrs@),
{
    if let Some(p) = &m.app_id {
        match &attrs.app_id {
            Some(t) => {
                if !pattern_is_match(p, t.as_str()) {
                    return false;
                }
            },
            None => {
                return false;
            },
        }
    }
    if let Some(p) = &m.title {
        match &attrs.title {
            Some(t) => {
                if !pattern_is_match(p, t.as_str()) {
                    return false;
                }
            },
            None => {
                return false;
            },
        }
    }
    true
}

fn any_matches(ms: &Vec<Match>, attrs: &WindowAttributes) -> (r: bool)
    ensures
        r == spec_any_match(ms@.map_values(|m: Match| m@), attrs@),
{
    let ghost msv = ms@.map_values(|m: Match| m@);
    let mut i: usize = 0;
    while i < ms.len()
        invariant
            0 <= i <= ms.len(),
            msv == ms@.map_values(|m: Match| m@),
            forall|j: int| 0 <= j < i ==> !spec_window_matches(msv[j], attrs@),
        decreases ms.len() - i,
    {
        if window_matches(attrs, &ms[i]) {
            assert(spec_window_matches(msv[i as int], attrs@));
            return true;
        }
        i = i + 1;
    }
    false
}

/// Resolves the ordered rule list against one window's attributes: skips
/// rules that do not apply, and lets each applicable rule overwrite the
/// fields it sets, so that the last applicable rule wins per field.
pub fn resolve_window_rules(rules: &Vec<WindowRule>, attrs: &WindowAttributes) -> (r:
    ResolvedWindowRule)
    ensures
        r@ == spec_resolve(rules_view(rules@), attrs@),
{
    let ghost rv = rules_view(rules@);
    let mut resolved = ResolvedWindowRule { default_width: None, open_on_output: None };
    let mut i: usize = 0;
    while i < rules.len()
        invariant
            0 <= i <= rules.len(),
            rv == rules_view(rules@),
            resolved@ == spec_resolve(rv.take(i as int), attrs@),
        decreases rules.len() - i,
    {
        let rule = &rules[i];
        proof {
            assert(rv.take(i as int + 1).drop_last() =~= rv.take(i as int));
            assert(rv.take(i as int + 1).last() == rv[i as int]);
        }
        let applies = (rule.matches.len() == 0 || any_matches(&rule.matches, attrs))
            && !any_matches(&rule.excludes, attrs);
        if applies {
            if let Some(ws) = &rule.default_column_width {
                if ws.len() == 0 {
                    resolved.default_width = Some(None);
                } else {
                    resolved.default_width = Some(Some(ws[0]));
                }
            }
            if let Some(o) = &rule.open_on_output {
                resolved.open_on_output = Some(o.clone());
            }
        }
        i = i + 1;
    }
    proof {
        assert(rv.take(rules@.len() as int) =~= rv);
    }
    resolved
}

/// Resolution is a pure function of the rule list and the attributes: any
/// two results of resolving the same list against the same window are equal.
pub proof fn lemma_resolve_deterministic(
    rules: Seq<WindowRuleI>,
    a: AttrsI,
    r1: ResolvedI,
    r2: ResolvedI,
)
    requires
        r1 == spec_resolve(rules, a),
        r2 == spec_resolve(rules, a),
    ensures
        r1 == r2,
{
}

/// Last match wins per field, not per rule: when rule `i` applies and sets
/// `default_column_width`, and no later applicable rule sets that field, the
/// resolved width is rule `i`'s — later applicable rules that set other
/// fields leave it intact.
pub proof fn lemma_default_width_last_match_wins(rules: Seq<WindowRuleI>, a: AttrsI, i: int)
    requires
        0 <= i < rules.len(),
        spec_rule_applies(rules[i], a),
        rules[i].default_column_width is Some,
        forall|j: int|
            i < j < rules.len() && #[trigger] spec_rule_applies(rules[j], a)
                ==> rules[j].default_column_width is None,
    ensures
        spec_resolve(rules, a).default_width == Option::Some(
            spec_first_width(rules[i].default_column_width->0),
        ),
    decreases rules.len(),
{
    if i == rules.len() - 1 {
    } else {
        let prefix = rules.drop_last();
        assert(prefix[i] == rules[i]);
        assert forall|j: int|
            i < j < prefix.len() && #[trigger] spec_rule_applies(prefix[j], a) implies prefix[j]
            .default_column_width is None by {
            assert(prefix[j] == rules[j]);
        }
        lemma_default_width_last_match_wins(prefix, a, i);
        let last = rules.last();
        if spec_rule_applies(last, a) {
            assert(last == rules[rules.len() - 1]);
            assert(last.default_column_width is None);
        }
    }
}

} // verus!
