//! The lint configuration record and the synthesis of per-category flags.
//!
//! A [`Lints`] value holds three ordered lists of lint identifiers. Each
//! category is rendered as a flag sequence of marker/identifier pairs, in
//! the order the identifiers were given; duplicates pass through unchanged.

use vstd::prelude::*;

use crate::config::{doc_lists, extract_list, parse_error_message, parse_table, spec_category_list};
use crate::errors::LintError;

verus! {

/// A located config file, as handed in by the caller: where it was found
/// and what it holds.
pub struct ConfigFile {
    pub path: String,
    pub contents: String,
}

/// The three ordered lint categories, as read from the config file.
/// Absence of a key in the file is equivalent to an empty list.
#[derive(Clone, Debug)]
pub struct Lints {
    /// Lints enforced as errors.
    pub deny: Vec<String>,
    /// Lints enforced as warnings.
    pub warn: Vec<String>,
    /// Lints suppressed.
    pub allow: Vec<String>,
}

/// The mathematical content of a [`Lints`] value: three sequences of
/// character sequences.
pub struct LintsView {
    pub deny: Seq<Seq<char>>,
    pub warn: Seq<Seq<char>>,
    pub allow: Seq<Seq<char>>,
}

impl View for Lints {
    type V = LintsView;

    open spec fn view(&self) -> LintsView {
        LintsView {
            deny: self.deny.deep_view(),
            warn: self.warn.deep_view(),
            allow: self.allow.deep_view(),
        }
    }
}

/// The all-empty configuration: what a run uses when no config file exists.
pub open spec fn empty_lints() -> LintsView {
    LintsView {
        deny: Seq::empty(),
        warn: Seq::empty(),
        allow: Seq::empty(),
    }
}

impl Default for Lints {
    /// The default configuration holds no lints in any category.
    fn default() -> (r: Self)
        ensures
            r@ == empty_lints(),
    {
        let r = Lints { deny: Vec::new(), warn: Vec::new(), allow: Vec::new() };
        proof {
            assert(r@.deny =~= empty_lints().deny);
            assert(r@.warn =~= empty_lints().warn);
            assert(r@.allow =~= empty_lints().allow);
        }
        r
    }
}

/// One category's flag sequence: each identifier becomes the pair
/// `marker, identifier`, pairs in the order of the identifier list.
pub open spec fn pair_flags(marker: Seq<char>, lints: Seq<Seq<char>>) -> Seq<Seq<char>> {
    Seq::new(2 * lints.len(), |i: int| if i % 2 == 0 { marker } else { lints[i / 2] })
}

/// A flag list is exactly twice as long as its identifier list, with the
/// marker at every even position and the identifiers, in their given order,
/// at the odd positions.
pub proof fn lemma_pair_flags_shape(marker: Seq<char>, lints: Seq<Seq<char>>)
    ensures
        pair_flags(marker, lints).len() == 2 * lints.len(),
        forall|i: int|
            0 <= i < lints.len() ==> pair_flags(marker, lints)[2 * i] == marker
                && pair_flags(marker, lints)[2 * i + 1] == lints[i],
{
    assert forall|i: int| 0 <= i < lints.len() implies pair_flags(marker, lints)[2 * i] == marker
        && pair_flags(marker, lints)[2 * i + 1] == lints[i] by {
        assert((2 * i) % 2 == 0);
        assert((2 * i + 1) % 2 == 1);
        assert((2 * i) / 2 == i);
        assert((2 * i + 1) / 2 == i);
    }
}

/// The lint lists a whole document holds under the schema: each of the
/// three category keys read by [`spec_category_list`], and `None` as soon
/// as one of them is present but malformed.
pub open spec fn spec_lints_of(m: Map<Seq<char>, Option<Seq<Seq<char>>>>) -> Option<LintsView> {
    if spec_category_list(m, "deny"@) is Some && spec_category_list(m, "warn"@) is Some
        && spec_category_list(m, "allow"@) is Some {
        Some(
            LintsView {
                deny: spec_category_list(m, "deny"@).unwrap(),
                warn: spec_category_list(m, "warn"@).unwrap(),
                allow: spec_category_list(m, "allow"@).unwrap(),
            },
        )
    } else {
        None
    }
}

/// What parsing config text must return: the lints the document holds under
/// the schema, or a parse failure naming the file, exactly when the text is
/// not valid TOML or a category key is malformed.
pub open spec fn spec_config_outcome(
    r: Result<Lints, LintError>,
    path: Seq<char>,
    contents: Seq<char>,
) -> bool {
    match r {
        Ok(l) => doc_lists(contents) matches Some(m) && spec_lints_of(m) == Some(l@),
        Err(e) => {
            &&& match doc_lists(contents) {
                None => true,
                Some(m) => spec_lints_of(m) is None,
            }
            &&& e matches LintError::ConfigParseFailure { path: p, detail: _ } && p@ == path
        },
    }
}

/// When no config file exists anywhere on the ancestor chain the run uses
/// the default configuration, and flag synthesis then produces zero flags
/// of all three kinds, whatever the markers.
pub proof fn lemma_default_config_no_flags(marker: Seq<char>)
    ensures
        pair_flags(marker, empty_lints().deny) == Seq::<Seq<char>>::empty(),
        pair_flags(marker, empty_lints().warn) == Seq::<Seq<char>>::empty(),
        pair_flags(marker, empty_lints().allow) == Seq::<Seq<char>>::empty(),
{
    assert(pair_flags(marker, Seq::<Seq<char>>::empty()) =~= Seq::<Seq<char>>::empty());
}

impl Lints {
    /// Parses the lints from the contents of a config file found at `path`.
    /// The path only names the file in a failure report; the outcome is a
    /// function of the contents alone.
    pub fn from_config_with_path(path: &str, contents: &str) -> (r: Result<Lints, LintError>)
        ensures
            spec_config_outcome(r, path@, contents@),
    {
        let t = match parse_table(contents) {
            Err(e) => {
                let detail = parse_error_message(&e);
                return Err(LintError::ConfigParseFailure { path: path.to_owned(), detail });
            },
            Ok(t) => t,
        };
        let deny = extract_list(&t, "deny");
        let warn = extract_list(&t, "warn");
        let allow = extract_list(&t, "allow");
        match (deny, warn, allow) {
            (Some(deny), Some(warn), Some(allow)) => Ok(Lints { deny, warn, allow }),
            _ => Err(
                LintError::ConfigParseFailure {
                    path: path.to_owned(),
                    detail: "a lint category must be an array of strings".to_owned(),
                },
            ),
        }
    }

    /// Parses the lints from the located config file, or falls back to the
    /// all-empty default when no config file was found — a successful
    /// outcome, not an error.
    pub fn from_config(found: Option<&ConfigFile>) -> (r: Result<Lints, LintError>)
        ensures
            match found {
                None => r matches Ok(l) && l@ == empty_lints(),
                Some(c) => spec_config_outcome(r, c.path@, c.contents@),
            },
    {
        match found {
            None => Ok(Lints::default()),
            Some(c) => Self::from_config_with_path(c.path.as_str(), c.contents.as_str()),
        }
    }

    /// Builds the marker/identifier pair list for one category.
    fn category_flags(marker: &str, lints: &Vec<String>) -> (r: Vec<String>)
        ensures
            r.deep_view() == pair_flags(marker@, lints.deep_view()),
    {
        let mut out: Vec<String> = Vec::new();
        let mut i: usize = 0;
        proof {
            assert(out.deep_view() =~= pair_flags(marker@, lints.deep_view().take(0)));
        }
        while i < lints.len()
            invariant
                i <= lints.len(),
                out.deep_view() == pair_flags(marker@, lints.deep_view().take(i as int)),
            decreases lints.len() - i,
        {
            let ghost pre = out.deep_view();
            out.push(marker.to_owned());
            let ghost mid = out.deep_view();
            out.push(lints[i].clone());
            proof {
                assert(mid =~= pre.push(marker@));
                assert(out.deep_view() =~= mid.push(lints.deep_view()[i as int]));
                assert(out.deep_view() =~= pair_flags(
                    marker@,
                    lints.deep_view().take(i as int + 1),
                ));
            }
            i = i + 1;
        }
        proof {
            assert(lints.deep_view().take(lints.len() as int) =~= lints.deep_view());
        }
        out
    }

    /// Constructs all deny flags: `-D` before each denied lint, in order.
    pub fn deny_flags(&self) -> (r: Vec<String>)
        ensures
            r.deep_view() == pair_flags("-D"@, self@.deny),
    {
        Self::category_flags("-D", &self.deny)
    }

    /// Constructs all warn flags: `-W` before each warned lint, in order.
    pub fn warn_flags(&self) -> (r: Vec<String>)
        ensures
            r.deep_view() == pair_flags("-W"@, self@.warn),
    {
        Self::category_flags("-W", &self.warn)
    }

    /// Constructs all allow flags: `-A` before each allowed lint, in order.
    pub fn allow_flags(&self) -> (r: Vec<String>)
        ensures
            r.deep_view() == pair_flags("-A"@, self@.allow),
    {
        Self::category_flags("-A", &self.allow)
    }
}

} // verus!
