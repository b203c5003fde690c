//! Screenshot answers, and the page-side capture used when a native capture
//! is not available: checking the captured data URL, decoding it, and naming
//! the file it is saved to.
use vstd::prelude::*;
use vstd::string::StringExecFns;
use base64::Engine;
use crate::error::{concat3, Error};
use crate::resolve::{get_window_handle, window_resolution, WindowChoice, WindowLookup};
use crate::text::{
    chars_of, find_char_from, first_index, lemma_first_index, push_char, starts_with,
    str_starts_with, string_from_chars,
};

verus! {

/// The answer to a screenshot request.
pub struct ScreenshotResponse {
    /// The image as a data URL, when it is returned inline.
    pub data: Option<String>,
    pub success: bool,
    pub error: Option<String>,
    /// Where the image was saved, when it was saved.
    pub file_path: Option<String>,
}

/// A successful answer that carries the image inline.
pub fn create_success_response(data_url: String) -> (r: ScreenshotResponse)
    ensures
        r.data == Some(data_url),
        r.success,
        r.error is None,
        r.file_path is None,
{
    ScreenshotResponse { data: Some(data_url), success: true, error: None, file_path: None }
}

/// A failed answer that carries the error message.
pub fn create_error_response(error_msg: String) -> (r: ScreenshotResponse)
    ensures
        r.data is None,
        !r.success,
        r.error == Some(error_msg),
        r.file_path is None,
{
    ScreenshotResponse { data: None, success: false, error: Some(error_msg), file_path: None }
}

/// The window a screenshot request addresses, or `WindowNotFound` with the
/// label when no window matches.
pub fn screenshot_window(window_label: &str, lookup: &WindowLookup) -> (r: Result<
    WindowChoice,
    Error,
>)
    ensures
        match window_resolution(window_label@, lookup) {
            Some(c) => r matches Ok(d) && d == c,
            None => r matches Err(Error::WindowNotFound(l)) && l@ == window_label@,
        },
{
    match get_window_handle(window_label, lookup) {
        Some(c) => Ok(c),
        None => Err(Error::WindowNotFound(String::from_str(window_label))),
    }
}

/// The decoding of a text under the standard base64 alphabet with padding,
/// as `base64`'s `STANDARD` engine computes it; `None` when the text is not
/// valid base64.
pub uninterp spec fn base64_standard_decode(text: Seq<char>) -> Option<Seq<u8>>;

/// Calls `base64::engine::general_purpose::STANDARD.decode`. The contract
/// names the result: the decoded bytes, or `None` where the engine reports a
/// decoding error. The base64 alphabet itself is not restated.
#[verifier::external_body]
fn decode_base64(text: &str) -> (r: Option<Vec<u8>>)
    ensures
        match r {
            Some(b) => base64_standard_decode(text@) == Some(b@),
            None => base64_standard_decode(text@) is None,
        },
{
    match base64::engine::general_purpose::STANDARD.decode(text) {
        Ok(bytes) => Some(bytes),
        Err(_) => None,
    }
}

/// The second comma-separated field of `s`: the text between its first comma
/// and the next comma, or the end; `None` when `s` has no comma.
pub open spec fn second_comma_field(s: Seq<char>) -> Option<Seq<char>> {
    match first_index(s, ',') {
        None => None,
        Some(i) => {
            let rest = s.subrange(i + 1, s.len() as int);
            match first_index(rest, ',') {
                Some(j) => Some(rest.subrange(0, j)),
                None => Some(rest),
            }
        },
    }
}

/// The second comma-separated field of `s` (for a data URL, its payload).
pub fn second_field(s: &str) -> (r: Option<String>)
    ensures
        match r {
            Some(f) => second_comma_field(s@) == Some(f@),
            None => second_comma_field(s@) is None,
        },
{
    let v = chars_of(s);
    let n = v.len();
    let first = find_char_from(&v, ',', 0);
    proof {
        lemma_first_index(v@, ',', first);
    }
    match first {
        None => None,
        Some(i) => {
            let ghost rest = v@.subrange(i + 1, v@.len() as int);
            let next = find_char_from(&v, ',', i + 1);
            match next {
                Some(j) => {
                    proof {
                        assert forall|k: int| 0 <= k < j - (i + 1) implies rest[k] != ',' by {
                            assert(rest[k] == v@[k + i + 1]);
                        }
                        assert(rest[j - (i + 1)] == v@[j as int]);
                        lemma_first_index(rest, ',', Some((j - (i + 1)) as usize));
                        assert(rest.subrange(0, j - (i + 1)) =~= v@.subrange(i + 1, j as int));
                    }
                    Some(string_from_chars(&v, i + 1, j))
                },
                None => {
                    proof {
                        assert forall|k: int| 0 <= k < rest.len() implies rest[k] != ',' by {
                            assert(rest[k] == v@[k + i + 1]);
                        }
                        lemma_first_index(rest, ',', None);
                    }
                    Some(string_from_chars(&v, i + 1, n))
                },
            }
        },
    }
}

/// The page-side capture's settings: the JPEG quality in percent (70 when
/// the request gives none) and the widest image in pixels (1400 when the
/// request gives none).
pub fn capture_settings(quality: Option<u8>, max_width: Option<u32>) -> (r: (u8, u32))
    ensures
        r.0 == (match quality {
            Some(q) => q,
            None => 70,
        }),
        r.1 == (match max_width {
            Some(w) => w,
            None => 1400,
        }),
{
    let q = match quality {
        Some(q) => q,
        None => 70,
    };
    let w = match max_width {
        Some(w) => w,
        None => 1400,
    };
    (q, w)
}

/// Settles a screenshot request from the native capture's result and, where
/// the native capture failed and a page-side capture was tried, what that
/// gave: the native result stands unless it failed and the page-side capture
/// produced an answer.
pub fn settle_capture<T, E>(native: Result<T, E>, fallback: Option<T>) -> (r: Result<T, E>)
    ensures
        match native {
            Ok(_) => r == native,
            Err(_) => match fallback {
                Some(f) => r == Ok::<T, E>(f),
                None => r == native,
            },
        },
{
    match native {
        Ok(t) => Ok(t),
        Err(e) => match fallback {
            Some(f) => Ok(f),
            None => Err(e),
        },
    }
}

/// What the page-side capture gives.
pub enum JsScreenshotPlan {
    /// The capture gives nothing usable; the native error stands.
    Abandon,
    /// The capture is answered inline with this response.
    Inline(ScreenshotResponse),
    /// The decoded image is to be saved to a file, then answered with
    /// [`saved_js_screenshot`].
    Save { bytes: Vec<u8>, data_url: String, thumbnail: bool },
}

/// Plans the answer to a page-side capture. `data_url` is the reply's
/// "result" text, `None` when the reply held none.
/// - no data URL, or one that does not begin with "data:image/": abandon;
/// - not saving to disk: answer inline with the data URL;
/// - saving: decode the second comma-separated field as base64, abandon
///   when there is none or it does not decode, else save the bytes.
pub fn plan_js_screenshot(
    data_url: Option<String>,
    save_to_disk: Option<bool>,
    thumbnail: Option<bool>,
) -> (r: JsScreenshotPlan)
    ensures
        match data_url {
            None => r is Abandon,
            Some(url) => if !starts_with(url@, "data:image/"@) {
                r is Abandon
            } else if !(save_to_disk == Some(true)) {
                r matches JsScreenshotPlan::Inline(resp) && resp.data == Some(url) && resp.success
                    && resp.error is None && resp.file_path is None
            } else {
                match second_comma_field(url@) {
                    None => r is Abandon,
                    Some(field) => match base64_standard_decode(field) {
                        None => r is Abandon,
                        Some(bytes) => r matches JsScreenshotPlan::Save {
                            bytes: b,
                            data_url: d,
                            thumbnail: t,
                        } && b@ == bytes && d == url && t == (thumbnail == Some(true)),
                    },
                }
            },
        },
{
    let url = match data_url {
        Some(u) => u,
        None => {
            return JsScreenshotPlan::Abandon;
        },
    };
    if !str_starts_with(url.as_str(), "data:image/") {
        return JsScreenshotPlan::Abandon;
    }
    let save = match save_to_disk {
        Some(b) => b,
        None => false,
    };
    let thumb = match thumbnail {
        Some(b) => b,
        None => false,
    };
    if !save {
        return JsScreenshotPlan::Inline(
            ScreenshotResponse { data: Some(url), success: true, error: None, file_path: None },
        );
    }
    let field = match second_field(url.as_str()) {
        Some(f) => f,
        None => {
            return JsScreenshotPlan::Abandon;
        },
    };
    match decode_base64(field.as_str()) {
        Some(bytes) => JsScreenshotPlan::Save { bytes, data_url: url, thumbnail: thumb },
        None => JsScreenshotPlan::Abandon,
    }
}

/// The answer once a page-side capture was saved at `file_path`: the data
/// URL is kept inline only when a thumbnail was asked for.
pub fn saved_js_screenshot(data_url: String, thumbnail: bool, file_path: String) -> (r:
    ScreenshotResponse)
    ensures
        r.data == (if thumbnail {
            Some(data_url)
        } else {
            None
        }),
        r.success,
        r.error is None,
        r.file_path == Some(file_path),
{
    if thumbnail {
        ScreenshotResponse {
            data: Some(data_url),
            success: true,
            error: None,
            file_path: Some(file_path),
        }
    } else {
        ScreenshotResponse { data: None, success: true, error: None, file_path: Some(file_path) }
    }
}

/// The character of a decimal digit.
pub open spec fn digit_char(d: int) -> char {
    if d == 0 {
        '0'
    } else if d == 1 {
        '1'
    } else if d == 2 {
        '2'
    } else if d == 3 {
        '3'
    } else if d == 4 {
        '4'
    } else if d == 5 {
        '5'
    } else if d == 6 {
        '6'
    } else if d == 7 {
        '7'
    } else if d == 8 {
        '8'
    } else {
        '9'
    }
}

/// The decimal representation of `n`, without leading zeros.
pub open spec fn decimal(n: nat) -> Seq<char>
    decreases n,
{
    if n < 10 {
        seq![digit_char(n as int)]
    } else {
        decimal(n / 10).push(digit_char((n % 10) as int))
    }
}

fn digit(d: u128) -> (c: char)
    requires
        d < 10,
    ensures
        c == digit_char(d as int),
{
    if d == 0 {
        '0'
    } else if d == 1 {
        '1'
    } else if d == 2 {
        '2'
    } else if d == 3 {
        '3'
    } else if d == 4 {
        '4'
    } else if d == 5 {
        '5'
    } else if d == 6 {
        '6'
    } else if d == 7 {
        '7'
    } else if d == 8 {
        '8'
    } else {
        '9'
    }
}

/// The decimal representation of `n`.
pub fn decimal_text(n: u128) -> (r: String)
    ensures
        r@ == decimal(n as nat),
    decreases n,
{
    if n < 10 {
        let mut s = String::new();
        push_char(&mut s, digit(n));
        s
    } else {
        let mut s = decimal_text(n / 10);
        push_char(&mut s, digit(n % 10));
        s
    }
}

/// The file a capture taken at `timestamp_ms` (milliseconds since the epoch)
/// is saved to: `<output_dir>/screenshot_<timestamp_ms>.jpg`.
pub fn screenshot_file_path(output_dir: &str, timestamp_ms: u128) -> (r: String)
    ensures
        r@ == output_dir@ + "/screenshot_"@ + decimal(timestamp_ms as nat) + ".jpg"@,
{
    let stamp = decimal_text(timestamp_ms);
    let mut path = concat3(output_dir, "/screenshot_", stamp.as_str());
    path.append(".jpg");
    path
}

} // verus!
