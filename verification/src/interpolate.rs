//! String interpolation support.
//!
//! A context maps variable names to string values; rendering a template
//! against it substitutes every `${name}` reference and fails when a
//! referenced variable is absent. The rendering itself is delegated to the
//! `text-template` crate; its result is pinned by the name [`rendered`].
use vstd::prelude::*;
use vstd::string::StrSliceExecFns;
use vstd::string::StringExecFns;
use crate::DVCError;
use crate::paths::RelPath;
use crate::text::{char_is_whitespace, char_is_wide_whitespace, spec_whitespace,
    spec_wide_whitespace};

verus! {

/// The views of a sequence of string pairs.
pub open spec fn pairs_view(pairs: Seq<(String, String)>) -> Seq<(Seq<char>, Seq<char>)> {
    Seq::new(pairs.len(), |i: int| (pairs[i].0@, pairs[i].1@))
}

/// The mapping held by a sequence of name/value pairs; a later entry for a
/// name shadows an earlier one.
pub open spec fn map_of(pairs: Seq<(Seq<char>, Seq<char>)>) -> Map<Seq<char>, Seq<char>>
    decreases pairs,
{
    if pairs.len() == 0 {
        Map::empty()
    } else {
        map_of(pairs.drop_last()).insert(pairs.last().0, pairs.last().1)
    }
}

/// What `text_template::Template::try_fill_in` yields for a template text
/// and a variable mapping: the rendered text, or nothing when the template
/// references a variable absent from the mapping.
pub uninterp spec fn rendered(tmpl: Seq<char>, vars: Map<Seq<char>, Seq<char>>) -> Option<
    Seq<char>,
>;

/// The template grammar, walked through plain text from position `i`: the
/// next `${` opens a placeholder, which the next `}` closes; an opening
/// that never closes is plain text. Holds when every closed placeholder's
/// leading and trailing whitespace runs are ASCII-only.
pub open spec fn scan_text(s: Seq<char>, i: int) -> bool
    decreases s.len() - i,
{
    if i + 1 >= s.len() {
        true
    } else if s[i] == '$' && s[i + 1] == '{' {
        scan_ph(s, i + 2, true, false)
    } else {
        scan_text(s, i + 1)
    }
}

/// The template grammar, walked through a placeholder's interior from
/// position `i`. `in_lead` says the walk is still inside the interior's
/// leading whitespace run; `trail_bad` says the whitespace run the walk is
/// currently inside holds a non-ASCII whitespace character, which is fatal
/// exactly when that run lasts up to the closing brace.
pub open spec fn scan_ph(s: Seq<char>, i: int, in_lead: bool, trail_bad: bool) -> bool
    decreases s.len() - i,
{
    if i >= s.len() {
        true
    } else if s[i] == '}' {
        !trail_bad && scan_text(s, i + 1)
    } else if in_lead {
        if spec_whitespace(s[i]) {
            !spec_wide_whitespace(s[i]) && scan_ph(s, i + 1, true, false)
        } else {
            scan_ph(s, i + 1, false, false)
        }
    } else {
        if spec_whitespace(s[i]) {
            scan_ph(s, i + 1, false, trail_bad || spec_wide_whitespace(s[i]))
        } else {
            scan_ph(s, i + 1, false, false)
        }
    }
}

/// Every closed placeholder of the template has only ASCII whitespace in
/// the leading and trailing whitespace runs of its interior. This is the
/// exact class of templates the rendering engine processes without
/// slicing off a character boundary; whitespace in plain text, or strictly
/// inside a placeholder's name, is harmless.
pub open spec fn template_edges_clean(s: Seq<char>) -> bool {
    scan_text(s, 0)
}

/// Check [`template_edges_clean`], walking the template the way its parser
/// does.
pub fn check_template_edges(s: &str) -> (r: bool)
    ensures
        r == template_edges_clean(s@),
{
    let n = s.unicode_len();
    let mut i: usize = 0;
    let mut in_ph = false;
    let mut in_lead = false;
    let mut trail_bad = false;
    while i < n
        invariant
            n == s@.len(),
            i <= n,
            in_lead ==> !trail_bad,
            template_edges_clean(s@) == (if in_ph {
                scan_ph(s@, i as int, in_lead, trail_bad)
            } else {
                scan_text(s@, i as int)
            }),
        decreases n - i,
    {
        if !in_ph {
            if i + 1 < n && s.get_char(i) == '$' && s.get_char(i + 1) == '{' {
                in_ph = true;
                in_lead = true;
                trail_bad = false;
                i = i + 2;
            } else {
                i = i + 1;
            }
        } else {
            let c = s.get_char(i);
            if c == '}' {
                if trail_bad {
                    return false;
                }
                in_ph = false;
                i = i + 1;
            } else {
                let ws = char_is_whitespace(c);
                let wide = char_is_wide_whitespace(c);
                if in_lead {
                    if ws {
                        if wide {
                            return false;
                        }
                    } else {
                        in_lead = false;
                    }
                } else {
                    if ws {
                        if wide {
                            trail_bad = true;
                        }
                    } else {
                        trail_bad = false;
                    }
                }
                i = i + 1;
            }
        }
    }
    true
}

/// What rendering a template yields once the guard below has passed: the
/// rendered text, or nothing when the template references an undefined
/// variable; a template whose placeholder edges hold non-ASCII whitespace
/// never renders.
pub open spec fn spec_render(tmpl: Seq<char>, vars: Map<Seq<char>, Seq<char>>) -> Option<
    Seq<char>,
> {
    if template_edges_clean(tmpl) {
        rendered(tmpl, vars)
    } else {
        None
    }
}

/// Relies on `text_template::Template::from` and
/// `text_template::Template::try_fill_in`: the rendering depends on the
/// template text and the variable mapping alone, and fails exactly when a
/// placeholder's name is missing from the mapping. The template parser
/// trims a placeholder's surrounding whitespace by byte offsets counted in
/// characters, which falls off a character boundary (and panics) when the
/// leading or trailing whitespace run of a closed placeholder's interior
/// holds a non-ASCII whitespace character; the precondition keeps exactly
/// those templates out.
#[verifier::external_body]
fn fill_template(instr: &str, vars: &Vec<(String, String)>) -> (r: Result<String, ()>)
    requires
        template_edges_clean(instr@),
    ensures
        r is Ok <==> rendered(instr@, map_of(pairs_view(vars@))) is Some,
        r matches Ok(s) ==> Some(s@) == rendered(instr@, map_of(pairs_view(vars@))),
{
    let tbl: std::collections::HashMap<&str, &str> = vars.iter().map(
        |(k, v)| (k.as_str(), v.as_str()),
    ).collect();
    match text_template::Template::from(instr).try_fill_in(&tbl) {
        Ok(text) => Ok(text.to_string()),
        Err(_) => Err(()),
    }
}

/// A set of variables available for substitution.
pub struct InterpContext {
    vars: Vec<(String, String)>,
}

impl InterpContext {
    /// The mapping this context substitutes from.
    pub closed spec fn vars_map(&self) -> Map<Seq<char>, Seq<char>> {
        map_of(pairs_view(self.vars@))
    }

    /// Build a context from name/value pairs; a later pair for a name
    /// shadows an earlier one.
    pub fn create(vars: Vec<(String, String)>) -> (r: InterpContext)
        ensures
            r.vars_map() == map_of(pairs_view(vars@)),
    {
        InterpContext { vars }
    }

    /// Render a template against this context. A template whose
    /// placeholder edges hold non-ASCII whitespace is rejected as
    /// malformed before the rendering engine sees it.
    pub fn interpolate(&self, instr: &str) -> (r: Result<String, DVCError>)
        ensures
            r is Ok <==> spec_render(instr@, self.vars_map()) is Some,
            r matches Ok(s) ==> Some(s@) == spec_render(instr@, self.vars_map()),
            r matches Err(e) ==> (if template_edges_clean(instr@) {
                e is UndefinedVariable
            } else {
                e is DecodeFailure
            }),
    {
        if !check_template_edges(instr) {
            return Err(
                DVCError::DecodeFailure(
                    String::from_str(
                        "a placeholder may not carry non-ascii whitespace at its edges",
                    ),
                ),
            );
        }
        match fill_template(instr, &self.vars) {
            Ok(s) => Ok(s),
            Err(_) => Err(DVCError::UndefinedVariable(instr.to_owned())),
        }
    }
}

impl RelPath {
    /// Render this path's text against a context and parse the result back
    /// as a path.
    pub fn interpolate(&self, context: &InterpContext) -> (r: Result<RelPath, DVCError>)
        ensures
            r is Ok <==> spec_render(self@, context.vars_map()) is Some,
            r matches Ok(p) ==> Some(p@) == spec_render(self@, context.vars_map()),
            r matches Err(e) ==> (if template_edges_clean(self@) {
                e is UndefinedVariable
            } else {
                e is DecodeFailure
            }),
    {
        match context.interpolate(self.as_str()) {
            Ok(s) => Ok(RelPath::new(s)),
            Err(e) => Err(e),
        }
    }
}

} // verus!
