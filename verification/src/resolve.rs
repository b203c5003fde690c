//! Which window or webview a label addresses, and where events for it go.
//!
//! The application gathers what it can observe about its windows for one
//! label (a `WindowLookup` or a `WebviewLookup`); the functions here decide,
//! from those facts alone, which handle the label resolves to.
use vstd::prelude::*;
use vstd::string::StringExecFns;
use crate::text::{lowercase, title_addresses, title_matches, to_lowercase};

verus! {

/// What the application observed about its windows for one label.
pub struct WindowLookup {
    /// A combined window+webview carries exactly this label.
    pub webview_window_by_label: bool,
    /// A bare window carries exactly this label.
    pub window_by_label: bool,
    /// The titles of all combined window+webviews, in the order they were
    /// listed; `None` where reading the title failed.
    pub webview_window_titles: Vec<Option<String>>,
    /// The titles of all bare windows, in the order they were listed; `None`
    /// where reading the title failed.
    pub window_titles: Vec<Option<String>>,
}

/// Which window handle a label resolved to.
#[derive(PartialEq, Eq, Structural, Clone, Copy, Debug)]
pub enum WindowChoice {
    /// The combined window+webview with that label.
    WebviewWindowByLabel,
    /// The bare window with that label.
    WindowByLabel,
    /// The combined window+webview at this position of the title list.
    WebviewWindowByTitle(usize),
    /// The bare window at this position of the title list.
    WindowByTitle(usize),
}

/// What the application observed about its webviews for one label.
pub struct WebviewLookup {
    /// A combined window+webview carries exactly this label.
    pub webview_window_by_label: bool,
    /// The configured fallback webview label, if any.
    pub fallback: Option<String>,
    /// A webview carries the configured fallback label.
    pub fallback_exists: bool,
    /// A webview carries exactly this label.
    pub webview_by_label: bool,
    /// The titles of all combined window+webviews, in the order they were
    /// listed; `None` where reading the title failed.
    pub webview_window_titles: Vec<Option<String>>,
}

/// Which webview a label resolved to.
#[derive(PartialEq, Eq, Structural, Clone, Copy, Debug)]
pub enum WebviewChoice {
    /// The webview of the combined window+webview with that label.
    WebviewWindowByLabel,
    /// The webview that carries the configured fallback label.
    Fallback,
    /// The webview with that label.
    WebviewByLabel,
    /// The webview of the combined window+webview at this position of the
    /// title list.
    WebviewWindowByTitle(usize),
}

/// Entry `i` of `titles` is a readable title that addresses `label`.
pub open spec fn title_at_matches(titles: Seq<Option<String>>, label: Seq<char>, i: int) -> bool {
    &&& 0 <= i < titles.len()
    &&& titles[i] is Some
    &&& title_matches(titles[i]->0@, label)
}

/// Entry `i` is the first entry of `titles` that addresses `label`.
pub open spec fn first_title_match(titles: Seq<Option<String>>, label: Seq<char>, i: int) -> bool {
    &&& title_at_matches(titles, label, i)
    &&& forall|j: int| 0 <= j < i ==> !title_at_matches(titles, label, j)
}

/// No entry of `titles` addresses `label`.
pub open spec fn no_title_match(titles: Seq<Option<String>>, label: Seq<char>) -> bool {
    forall|j: int| !title_at_matches(titles, label, j)
}

/// The position of the first entry of `titles` that addresses `label`, if any.
pub open spec fn first_match(titles: Seq<Option<String>>, label: Seq<char>) -> Option<int> {
    if exists|i: int| first_title_match(titles, label, i) {
        Some(choose|i: int| first_title_match(titles, label, i))
    } else {
        None
    }
}

/// Only one entry can be the first to address a label.
pub proof fn lemma_first_title_match_unique(
    titles: Seq<Option<String>>,
    label: Seq<char>,
    i: int,
    j: int,
)
    requires
        first_title_match(titles, label, i),
        first_title_match(titles, label, j),
    ensures
        i == j,
{
}

/// `first_match` agrees with a position found to be the first match, and is
/// `None` when no entry matches.
proof fn lemma_first_match(titles: Seq<Option<String>>, label: Seq<char>, found: Option<usize>)
    requires
        match found {
            Some(i) => first_title_match(titles, label, i as int),
            None => no_title_match(titles, label),
        },
    ensures
        match found {
            Some(i) => first_match(titles, label) == Some(i as int),
            None => first_match(titles, label) is None,
        },
{
    match found {
        Some(i) => {
            let c = choose|k: int| first_title_match(titles, label, k);
            lemma_first_title_match_unique(titles, label, c, i as int);
        },
        None => {
            if exists|k: int| first_title_match(titles, label, k) {
                let c = choose|k: int| first_title_match(titles, label, k);
                assert(title_at_matches(titles, label, c));
            }
        },
    }
}

/// The window handle a label resolves to: first a combined window+webview
/// with that exact label, then a bare window with that label, then the first
/// combined window+webview whose title addresses the label, then the first
/// bare window whose title does.
pub open spec fn window_resolution(label: Seq<char>, lookup: &WindowLookup) -> Option<
    WindowChoice,
> {
    if lookup.webview_window_by_label {
        Some(WindowChoice::WebviewWindowByLabel)
    } else if lookup.window_by_label {
        Some(WindowChoice::WindowByLabel)
    } else {
        match first_match(lookup.webview_window_titles@, label) {
            Some(i) => Some(WindowChoice::WebviewWindowByTitle(i as usize)),
            None => match first_match(lookup.window_titles@, label) {
                Some(i) => Some(WindowChoice::WindowByTitle(i as usize)),
                None => None,
            },
        }
    }
}

/// The webview a label resolves to: first the webview of a combined
/// window+webview with that exact label, then the configured fallback
/// webview, then a webview with that exact label, then the webview of the
/// first combined window+webview whose title addresses the label.
pub open spec fn webview_resolution(label: Seq<char>, lookup: &WebviewLookup) -> Option<
    WebviewChoice,
> {
    if lookup.webview_window_by_label {
        Some(WebviewChoice::WebviewWindowByLabel)
    } else if fallback_applies(lookup) {
        Some(WebviewChoice::Fallback)
    } else if lookup.webview_by_label {
        Some(WebviewChoice::WebviewByLabel)
    } else {
        match first_match(lookup.webview_window_titles@, label) {
            Some(i) => Some(WebviewChoice::WebviewWindowByTitle(i as usize)),
            None => None,
        }
    }
}

/// The label resolves through a configured fallback webview.
pub open spec fn fallback_applies(lookup: &WebviewLookup) -> bool {
    lookup.fallback is Some && lookup.fallback_exists
}

/// The position of the first title that addresses the label whose lower-case
/// form is `label_lower`.
fn first_matching_title(titles: &Vec<Option<String>>, label: &str, label_lower: &str) -> (r:
    Option<usize>)
    requires
        label_lower@ == lowercase(label@),
    ensures
        match r {
            Some(i) => first_title_match(titles@, label@, i as int),
            None => no_title_match(titles@, label@),
        },
{
    let mut i: usize = 0;
    while i < titles.len()
        invariant
            i <= titles@.len(),
            label_lower@ == lowercase(label@),
            forall|j: int| 0 <= j < i ==> !title_at_matches(titles@, label@, j),
        decreases titles@.len() - i,
    {
        match &titles[i] {
            Some(title) => {
                if title_addresses(title.as_str(), label_lower) {
                    return Some(i);
                }
            },
            None => {},
        }
        i = i + 1;
    }
    None
}

/// Resolves a label to a window handle (see [`window_resolution`]); `None`
/// when nothing matches.
pub fn get_window_handle(label: &str, lookup: &WindowLookup) -> (r: Option<WindowChoice>)
    ensures
        r == window_resolution(label@, lookup),
{
    if lookup.webview_window_by_label {
        return Some(WindowChoice::WebviewWindowByLabel);
    }
    if lookup.window_by_label {
        return Some(WindowChoice::WindowByLabel);
    }
    let label_lower = to_lowercase(label);
    let first = first_matching_title(&lookup.webview_window_titles, label, label_lower.as_str());
    proof {
        lemma_first_match(lookup.webview_window_titles@, label@, first);
    }
    match first {
        Some(i) => {
            return Some(WindowChoice::WebviewWindowByTitle(i));
        },
        None => {},
    }
    let second = first_matching_title(&lookup.window_titles, label, label_lower.as_str());
    proof {
        lemma_first_match(lookup.window_titles@, label@, second);
    }
    match second {
        Some(i) => Some(WindowChoice::WindowByTitle(i)),
        None => None,
    }
}

/// Resolves a label to the webview that runs scripts for it (see
/// [`webview_resolution`]); `None` when nothing matches.
pub fn get_webview_for_eval(label: &str, lookup: &WebviewLookup) -> (r: Option<WebviewChoice>)
    ensures
        r == webview_resolution(label@, lookup),
{
    if lookup.webview_window_by_label {
        return Some(WebviewChoice::WebviewWindowByLabel);
    }
    if lookup.fallback.is_some() && lookup.fallback_exists {
        return Some(WebviewChoice::Fallback);
    }
    if lookup.webview_by_label {
        return Some(WebviewChoice::WebviewByLabel);
    }
    let label_lower = to_lowercase(label);
    let first = first_matching_title(&lookup.webview_window_titles, label, label_lower.as_str());
    proof {
        lemma_first_match(lookup.webview_window_titles@, label@, first);
    }
    match first {
        Some(i) => Some(WebviewChoice::WebviewWindowByTitle(i)),
        None => None,
    }
}

/// The label that events for `window_label` are sent to.
pub open spec fn emit_target_spec(window_label: Seq<char>, lookup: &WebviewLookup) -> Seq<char> {
    if !lookup.webview_window_by_label && fallback_applies(lookup) {
        lookup.fallback->0@
    } else {
        window_label
    }
}

/// The label that events for `window_label` are sent to: the label itself,
/// unless no combined window+webview carries it and a configured fallback
/// webview exists, in which case the fallback label.
pub fn get_emit_target(window_label: &str, lookup: &WebviewLookup) -> (r: String)
    ensures
        r@ == emit_target_spec(window_label@, lookup),
{
    if !lookup.webview_window_by_label {
        match &lookup.fallback {
            Some(fallback) => {
                if lookup.fallback_exists {
                    return fallback.clone();
                }
            },
            None => {},
        }
    }
    String::from_str(window_label)
}

} // verus!
