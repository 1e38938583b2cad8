//! The record and view-model types, and the CSS-class derivation that
//! turns a category label into a display class.

use vstd::prelude::*;
use vstd::string::StrSliceExecFns;
use vstd::string::StringExecFns;

verus! {

/// Ghost model of one raw record: the three text fields as character
/// sequences.
#[verifier::ext_equal]
pub struct RawView {
    pub period: Seq<char>,
    pub category: Seq<char>,
    pub description: Seq<char>,
}

/// Ghost model of one display-ready entry.
#[verifier::ext_equal]
pub struct DisplayView {
    pub category: Seq<char>,
    pub description: Seq<char>,
    pub css_class: Seq<char>,
}

/// Ghost model of one period group: the period label and its entries in
/// order.
#[verifier::ext_equal]
pub struct GroupView {
    pub period: Seq<char>,
    pub entries: Seq<DisplayView>,
}

/// One raw achievement record as ingested: a reporting period, a category,
/// and a free-text description.
#[derive(Clone, Debug, PartialEq, Eq)]
pub struct StoredHighlight {
    pub period: String,
    pub category: String,
    pub description: String,
}

impl View for StoredHighlight {
    type V = RawView;

    open spec fn view(&self) -> RawView {
        RawView {
            period: self.period@,
            category: self.category@,
            description: self.description@,
        }
    }
}

/// One display-ready entry: the category and description text, and the
/// CSS class derived from the category.
#[derive(Clone, Debug, PartialEq, Eq)]
pub struct Highlight {
    pub category: String,
    pub description: String,
    pub css_class: String,
}

impl View for Highlight {
    type V = DisplayView;

    open spec fn view(&self) -> DisplayView {
        DisplayView {
            category: self.category@,
            description: self.description@,
            css_class: self.css_class@,
        }
    }
}

/// One group of display-ready entries sharing a period.
#[derive(Clone, Debug, PartialEq, Eq)]
pub struct HighlightGroup {
    pub period: String,
    pub highlights: Vec<Highlight>,
}

pub open spec fn entries_model(hs: Seq<Highlight>) -> Seq<DisplayView> {
    hs.map_values(|h: Highlight| h@)
}

impl View for HighlightGroup {
    type V = GroupView;

    open spec fn view(&self) -> GroupView {
        GroupView {
            period: self.period@,
            entries: entries_model(self.highlights@),
        }
    }
}

/// The lowercase equivalent of a character sequence, as `str::to_lowercase`
/// computes it.
pub uninterp spec fn lower_of(s: Seq<char>) -> Seq<char>;

/// Relies on `str::to_lowercase`: the result depends on the characters
/// alone, and an empty string stays empty.
#[verifier::external_body]
fn lowercase(s: &str) -> (r: String)
    ensures
        r@ == lower_of(s@),
        s@.len() == 0 ==> r@.len() == 0,
{
    s.to_lowercase()
}

/// Relies on the `FromIterator<char>` impl of `String`: collecting
/// characters yields the string of exactly those characters, in order.
#[verifier::external_body]
fn string_from_chars(cs: Vec<char>) -> (r: String)
    ensures
        r@ == cs@,
{
    String::from_iter(cs)
}

/// Each space character replaced by a hyphen; every other character kept.
pub open spec fn dash_of(s: Seq<char>) -> Seq<char> {
    s.map_values(|c: char| if c == ' ' { '-' } else { c })
}

/// Law: the space-to-hyphen step is per-character: the result has exactly
/// the length of its input, a hyphen exactly where the input has a space,
/// and the same character elsewhere — so consecutive spaces each become
/// individual hyphens, never collapsed, and an input without spaces is
/// unchanged.
pub proof fn lemma_dash_of_pointwise(s: Seq<char>)
    ensures
        dash_of(s).len() == s.len(),
        forall|i: int|
            0 <= i < s.len() ==> dash_of(s)[i] == (if s[i] == ' ' {
                '-'
            } else {
                s[i]
            }),
        (forall|i: int| 0 <= i < s.len() ==> s[i] != ' ') ==> dash_of(s) == s,
{
    if forall|i: int| 0 <= i < s.len() ==> s[i] != ' ' {
        assert(dash_of(s) =~= s);
    }
}

/// The CSS class a category maps to: its lowercase form with every space
/// replaced by a hyphen.
pub open spec fn css_class_spec(category: Seq<char>) -> Seq<char> {
    dash_of(lower_of(category))
}

/// Law: the CSS class is a pure function of the category alone: two
/// highlights with the same category derive the same class, whatever their
/// descriptions or periods.
pub proof fn lemma_css_class_pure(a: Seq<char>, b: Seq<char>)
    requires
        a == b,
    ensures
        css_class_spec(a) == css_class_spec(b),
{
}

/// Replaces every space character by a hyphen, keeping all others.
pub fn hyphenate(s: &str) -> (r: String)
    ensures
        r@ == dash_of(s@),
{
    let n = s.unicode_len();
    let mut out: Vec<char> = Vec::new();
    let mut i: usize = 0;
    while i < n
        invariant
            n == s@.len(),
            i <= n,
            out@ == dash_of(s@.subrange(0, i as int)),
        decreases n - i,
    {
        let c = s.get_char(i);
        if c == ' ' {
            out.push('-');
        } else {
            out.push(c);
        }
        proof {
            assert(s@.subrange(0, (i + 1) as int)
                =~= s@.subrange(0, i as int).push(s@[i as int]));
            assert(out@ =~= dash_of(s@.subrange(0, (i + 1) as int)));
        }
        i = i + 1;
    }
    proof {
        assert(s@.subrange(0, n as int) =~= s@);
    }
    string_from_chars(out)
}

/// Derives the CSS class of a category label.
pub fn css_class_of(category: &str) -> (r: String)
    ensures
        r@ == css_class_spec(category@),
{
    let lower = lowercase(category);
    hyphenate(lower.as_str())
}

/// The display entry a raw record maps to.
pub open spec fn display_of(r: RawView) -> DisplayView {
    DisplayView {
        category: r.category,
        description: r.description,
        css_class: css_class_spec(r.category),
    }
}

impl Highlight {
    /// Builds the display entry for a category and description, deriving
    /// the CSS class from the category.
    pub fn new(category: &str, description: &str) -> (h: Highlight)
        ensures
            h@ == (DisplayView {
                category: category@,
                description: description@,
                css_class: css_class_spec(category@),
            }),
    {
        Highlight {
            category: category.to_owned(),
            description: description.to_owned(),
            css_class: css_class_of(category),
        }
    }

    /// The full class attribute a rendered entry carries: the fixed entry
    /// class followed by the category-derived class.
    pub fn entry_class(&self) -> (r: String)
        ensures
            r@ == "highlight-entry "@ + self.css_class@,
    {
        let mut r = String::new();
        r.append("highlight-entry ");
        r.append(self.css_class.as_str());
        r
    }
}

impl HighlightGroup {
    /// Builds a group from a period label and its entries.
    pub fn new(period: &str, highlights: Vec<Highlight>) -> (g: HighlightGroup)
        ensures
            g@ == (GroupView { period: period@, entries: entries_model(highlights@) }),
    {
        HighlightGroup { period: period.to_owned(), highlights }
    }
}

} // verus!
