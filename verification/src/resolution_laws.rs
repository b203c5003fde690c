//! Laws that characterise label resolution and the tools' webview choice in
//! terms of titles and exact-label facts alone.
use vstd::prelude::*;
use crate::error::ErrorView;
use crate::resolve::{
    emit_target_spec, first_match, first_title_match, lemma_first_title_match_unique,
    webview_resolution, window_resolution, WebviewChoice, WebviewLookup, WindowChoice,
    WindowLookup,
};
use crate::text::{contains, lemma_contains_self, lowercase, title_matches};
use crate::tools::reply::tool_webview_spec;
use crate::window::{plan_window_request_spec, window_operation_spec, WindowManagerRequest};

verus! {

/// Entry `i` of `titles` is readable and its title addresses `label`, and no
/// earlier entry is.
pub open spec fn titled_first(titles: Seq<Option<String>>, label: Seq<char>, i: int) -> bool {
    &&& 0 <= i < titles.len()
    &&& titles[i] is Some
    &&& title_matches(titles[i]->0@, label)
    &&& forall|j: int|
        0 <= j < i ==> !(titles[j] is Some && title_matches(#[trigger] titles[j]->0@, label))
}

/// No readable entry of `titles` addresses `label`.
pub open spec fn titled_none(titles: Seq<Option<String>>, label: Seq<char>) -> bool {
    forall|j: int|
        0 <= j < titles.len() ==> !(titles[j] is Some && title_matches(
            #[trigger] titles[j]->0@,
            label,
        ))
}

proof fn lemma_first_match_of(titles: Seq<Option<String>>, label: Seq<char>)
    ensures
        forall|i: int| titled_first(titles, label, i) ==> first_match(titles, label) == Some(i),
        titled_none(titles, label) ==> first_match(titles, label) is None,
{
    assert forall|i: int| titled_first(titles, label, i) implies first_match(titles, label) == Some(
        i,
    ) by {
        assert(first_title_match(titles, label, i));
        let c = choose|k: int| first_title_match(titles, label, k);
        lemma_first_title_match_unique(titles, label, c, i);
    }
    if titled_none(titles, label) {
        if exists|k: int| first_title_match(titles, label, k) {
            let c = choose|k: int| first_title_match(titles, label, k);
            assert(titles[c] is Some && title_matches(titles[c]->0@, label));
        }
    }
}

/// A title addresses a label exactly when its lower-case form contains the
/// label's lower-case form.
pub proof fn law_title_matches_is_case_insensitive_containment(title: Seq<char>, label: Seq<char>)
    ensures
        title_matches(title, label) <==> contains(lowercase(title), lowercase(label)),
{
    lemma_contains_self(lowercase(title));
}

/// How a window label resolves: a combined window+webview with the exact
/// label, else a bare window with it, else the first combined window+webview
/// whose title addresses the label (whatever the bare windows' titles), and
/// only when none does, the first bare window whose title addresses it.
pub proof fn law_window_resolution_order(label: Seq<char>, lookup: &WindowLookup)
    ensures
        lookup.webview_window_by_label ==> window_resolution(label, lookup) == Some(
            WindowChoice::WebviewWindowByLabel,
        ),
        !lookup.webview_window_by_label && lookup.window_by_label ==> window_resolution(
            label,
            lookup,
        ) == Some(WindowChoice::WindowByLabel),
        forall|i: int|
            !lookup.webview_window_by_label && !lookup.window_by_label && #[trigger] titled_first(
                lookup.webview_window_titles@,
                label,
                i,
            ) ==> window_resolution(label, lookup) == Some(
                WindowChoice::WebviewWindowByTitle(i as usize),
            ),
        forall|i: int|
            !lookup.webview_window_by_label && !lookup.window_by_label && titled_none(
                lookup.webview_window_titles@,
                label,
            ) && #[trigger] titled_first(lookup.window_titles@, label, i) ==> window_resolution(
                label,
                lookup,
            ) == Some(WindowChoice::WindowByTitle(i as usize)),
        !lookup.webview_window_by_label && !lookup.window_by_label && titled_none(
            lookup.webview_window_titles@,
            label,
        ) && titled_none(lookup.window_titles@, label) ==> window_resolution(label, lookup)
            is None,
{
    lemma_first_match_of(lookup.webview_window_titles@, label);
    lemma_first_match_of(lookup.window_titles@, label);
}

/// How a label resolves to the webview that runs scripts: the webview of a
/// combined window+webview with the exact label, else the configured
/// fallback webview when it exists, else a webview with the exact label,
/// and only then the first combined window+webview whose title addresses the
/// label.
pub proof fn law_webview_resolution_order(label: Seq<char>, lookup: &WebviewLookup)
    ensures
        lookup.webview_window_by_label ==> webview_resolution(label, lookup) == Some(
            WebviewChoice::WebviewWindowByLabel,
        ),
        !lookup.webview_window_by_label && lookup.fallback is Some && lookup.fallback_exists
            ==> webview_resolution(label, lookup) == Some(WebviewChoice::Fallback),
        !lookup.webview_window_by_label && !(lookup.fallback is Some && lookup.fallback_exists)
            && lookup.webview_by_label ==> webview_resolution(label, lookup) == Some(
            WebviewChoice::WebviewByLabel,
        ),
        forall|i: int|
            !lookup.webview_window_by_label && !(lookup.fallback is Some && lookup.fallback_exists)
                && !lookup.webview_by_label && #[trigger] titled_first(
                lookup.webview_window_titles@,
                label,
                i,
            ) ==> webview_resolution(label, lookup) == Some(
                WebviewChoice::WebviewWindowByTitle(i as usize),
            ),
        !lookup.webview_window_by_label && !(lookup.fallback is Some && lookup.fallback_exists)
            && !lookup.webview_by_label && titled_none(lookup.webview_window_titles@, label)
            ==> webview_resolution(label, lookup) is None,
{
    lemma_first_match_of(lookup.webview_window_titles@, label);
}

/// Events for a label go to the configured fallback webview exactly when no
/// combined window+webview carries the label and that fallback exists;
/// otherwise to the label itself.
pub proof fn law_emit_target_exact(label: Seq<char>, lookup: &WebviewLookup)
    ensures
        !lookup.webview_window_by_label && lookup.fallback is Some && lookup.fallback_exists
            ==> emit_target_spec(label, lookup) == lookup.fallback->0@,
        !(!lookup.webview_window_by_label && lookup.fallback is Some && lookup.fallback_exists)
            ==> emit_target_spec(label, lookup) == label,
{
}

/// A tool request addresses exactly the webview that its own label, or
/// "main" when it names none, resolves to, title matches included.
pub proof fn law_tool_webview_is_label_resolution(
    window_label: Option<String>,
    lookup: &WebviewLookup,
)
    ensures
        tool_webview_spec(window_label, lookup) == webview_resolution(
            match window_label {
                Some(l) => l@,
                None => "main"@,
            },
            lookup,
        ),
{
}

/// A window request acts on the window that its own label, or "main" when it
/// names none, resolves to, and carries out the operation it names; when no
/// window matches, it fails with "Window not found: " and that label.
pub proof fn law_window_request_acts_on_its_window(
    req: &WindowManagerRequest,
    lookup: &WindowLookup,
)
    ensures
        ({
            let label = match req.window_label {
                Some(l) => l@,
                None => "main"@,
            };
            let planned = plan_window_request_spec(req, lookup);
            &&& planned is Ok ==> window_resolution(label, lookup) == Some(planned->Ok_0.0)
                && window_operation_spec(req) == Ok::<_, ErrorView>(planned->Ok_0.1)
            &&& window_resolution(label, lookup) is None ==> planned == Err::<
                (WindowChoice, crate::window::WindowOperation),
                ErrorView,
            >(ErrorView::WindowOperationFailed("Window not found: "@ + label))
            &&& window_resolution(label, lookup) is Some && window_operation_spec(req) is Err
                ==> planned == Err::<(WindowChoice, crate::window::WindowOperation), ErrorView>(
                window_operation_spec(req)->Err_0,
            )
        }),
{
}

} // verus!
