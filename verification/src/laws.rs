//! Properties that hold across the library's functions.
use vstd::prelude::*;
use crate::resolve::{
    emit_target_spec, first_match, first_title_match, title_at_matches,
    webview_resolution, window_resolution, WebviewChoice, WebviewLookup, WindowChoice,
    WindowLookup,
};
use crate::screenshot::{decimal, digit_char};
use crate::text::{lowercase, occurs_at, title_matches};

verus! {

/// A label always resolves to the combined window+webview that carries it
/// exactly, and otherwise to the bare window that carries it exactly, before
/// any title is looked at.
pub proof fn law_exact_label_before_title(label: Seq<char>, lookup: &WindowLookup)
    ensures
        lookup.webview_window_by_label ==> window_resolution(label, lookup) == Some(
            WindowChoice::WebviewWindowByLabel,
        ),
        !lookup.webview_window_by_label && lookup.window_by_label ==> window_resolution(
            label,
            lookup,
        ) == Some(WindowChoice::WindowByLabel),
{
}

/// Title matching ignores case: titles that are equal once lower-cased, and
/// labels that are equal once lower-cased, match alike.
pub proof fn law_title_match_ignores_case(t1: Seq<char>, t2: Seq<char>, l1: Seq<char>, l2: Seq<char>)
    requires
        lowercase(t1) == lowercase(t2),
        lowercase(l1) == lowercase(l2),
    ensures
        title_matches(t1, l1) == title_matches(t2, l2),
{
}

/// A title equal to the label, ignoring case, matches it.
pub proof fn law_title_equal_to_label_matches(title: Seq<char>, label: Seq<char>)
    requires
        lowercase(title) == lowercase(label),
    ensures
        title_matches(title, label),
{
}

/// An empty label matches every title.
pub proof fn law_empty_label_matches_every_title(title: Seq<char>, label: Seq<char>)
    requires
        lowercase(label) == Seq::<char>::empty(),
    ensures
        title_matches(title, label),
{
    let t = lowercase(title);
    assert(t.subrange(0, 0) =~= Seq::<char>::empty());
    assert(occurs_at(t, lowercase(label), 0));
}

/// The first title that matches a label is the same for every spelling of
/// the label that lower-cases alike.
pub proof fn law_title_search_ignores_label_case(
    titles: Seq<Option<String>>,
    l1: Seq<char>,
    l2: Seq<char>,
)
    requires
        lowercase(l1) == lowercase(l2),
    ensures
        first_match(titles, l1) == first_match(titles, l2),
{
    assert forall|i: int| title_at_matches(titles, l1, i) == title_at_matches(titles, l2, i) by {}
    assert forall|i: int| first_title_match(titles, l1, i) == first_title_match(titles, l2, i) by {
        if first_title_match(titles, l1, i) {
            assert forall|j: int| 0 <= j < i implies !title_at_matches(titles, l2, j) by {
                assert(!title_at_matches(titles, l1, j));
            }
        }
        if first_title_match(titles, l2, i) {
            assert forall|j: int| 0 <= j < i implies !title_at_matches(titles, l1, j) by {
                assert(!title_at_matches(titles, l2, j));
            }
        }
    }
    assert((|i: int| first_title_match(titles, l1, i)) =~= (|i: int|
        first_title_match(titles, l2, i)));
}

/// Events for a label go either to that label or to the configured fallback
/// webview, and always to the label itself when a combined window+webview
/// carries it.
pub proof fn law_emit_target_is_label_or_fallback(label: Seq<char>, lookup: &WebviewLookup)
    ensures
        emit_target_spec(label, lookup) == label || (lookup.fallback is Some
            && emit_target_spec(label, lookup) == lookup.fallback->0@),
        lookup.webview_window_by_label ==> emit_target_spec(label, lookup) == label,
{
}

/// Events go where scripts run: when the webview for scripts is the fallback
/// webview, events go to the fallback label; when it is found by the label
/// itself, events go to the label.
pub proof fn law_emit_target_follows_eval_webview(label: Seq<char>, lookup: &WebviewLookup)
    ensures
        webview_resolution(label, lookup) == Some(WebviewChoice::Fallback) ==> emit_target_spec(
            label,
            lookup,
        ) == lookup.fallback->0@,
        webview_resolution(label, lookup) == Some(WebviewChoice::WebviewWindowByLabel)
            ==> emit_target_spec(label, lookup) == label,
        webview_resolution(label, lookup) == Some(WebviewChoice::WebviewByLabel)
            ==> emit_target_spec(label, lookup) == label,
{
}

/// The number a digit character stands for.
pub open spec fn digit_value(c: char) -> nat {
    if c == '1' {
        1
    } else if c == '2' {
        2
    } else if c == '3' {
        3
    } else if c == '4' {
        4
    } else if c == '5' {
        5
    } else if c == '6' {
        6
    } else if c == '7' {
        7
    } else if c == '8' {
        8
    } else if c == '9' {
        9
    } else {
        0
    }
}

/// The number a text of decimal digits stands for.
pub open spec fn decimal_value(s: Seq<char>) -> nat
    decreases s.len(),
{
    if s.len() == 0 {
        0
    } else {
        decimal_value(s.drop_last()) * 10 + digit_value(s.last())
    }
}

/// Reading back the decimal representation of a number gives the number.
pub proof fn law_decimal_round_trip(n: nat)
    ensures
        decimal_value(decimal(n)) == n,
    decreases n,
{
    if n < 10 {
        let s = seq![digit_char(n as int)];
        assert(s.drop_last() =~= Seq::<char>::empty());
        assert(digit_value(digit_char(n as int)) == n);
        assert(decimal(n) == s);
        assert(decimal_value(s.drop_last()) == 0);
        assert(decimal_value(s) == decimal_value(s.drop_last()) * 10 + digit_value(s.last()));
    } else {
        law_decimal_round_trip(n / 10);
        let s = decimal(n);
        assert(s.drop_last() =~= decimal(n / 10));
        assert(s.last() == digit_char((n % 10) as int));
        assert(digit_value(digit_char((n % 10) as int)) == n % 10);
        assert(n == (n / 10) * 10 + n % 10);
        assert(decimal_value(s) == decimal_value(s.drop_last()) * 10 + digit_value(s.last()));
    }
}

/// Captures saved at different milliseconds go to different files.
pub proof fn law_distinct_timestamps_distinct_files(dir: Seq<char>, t1: nat, t2: nat)
    requires
        t1 != t2,
    ensures
        dir + "/screenshot_"@ + decimal(t1) + ".jpg"@ != dir + "/screenshot_"@ + decimal(t2)
            + ".jpg"@,
{
    let p = dir + "/screenshot_"@;
    let s = ".jpg"@;
    let a = p + decimal(t1) + s;
    let b = p + decimal(t2) + s;
    law_decimal_round_trip(t1);
    law_decimal_round_trip(t2);
    if a == b {
        assert(a.len() == b.len());
        assert(decimal(t1).len() == decimal(t2).len());
        assert(a.subrange(p.len() as int, (p.len() + decimal(t1).len()) as int) =~= decimal(t1));
        assert(b.subrange(p.len() as int, (p.len() + decimal(t2).len()) as int) =~= decimal(t2));
    }
}

/// The decimal representation is made of digits and has no leading zero.
pub proof fn law_decimal_digits(n: nat)
    ensures
        decimal(n).len() >= 1,
        forall|k: int| 0 <= k < decimal(n).len() ==> '0' <= #[trigger] decimal(n)[k] <= '9',
        decimal(n)[0] == '0' ==> n == 0,
    decreases n,
{
    if n >= 10 {
        law_decimal_digits(n / 10);
        let s = decimal(n);
        assert(s.drop_last() =~= decimal(n / 10));
        assert forall|k: int| 0 <= k < s.len() implies '0' <= #[trigger] s[k] <= '9' by {
            if k < s.len() - 1 {
                assert(s[k] == decimal(n / 10)[k]);
            }
        }
        assert(s[0] == decimal(n / 10)[0]);
    }
}

} // verus!
