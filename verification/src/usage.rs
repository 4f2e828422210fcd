use reqwest::header::{HeaderMap, HeaderValue};
use vstd::prelude::*;

verus! {

#[verifier::external_type_specification]
#[verifier::external_body]
#[verifier::reject_recursive_types(T)]
pub struct ExHeaderMap<T>(HeaderMap<T>);

#[verifier::external_type_specification]
#[verifier::external_body]
pub struct ExHeaderValue(HeaderValue);

#[verifier::external_type_specification]
#[verifier::external_body]
pub struct ExReqwestError(reqwest::Error);

// ---------------------------------------------------------------------------
// Reading header values
// ---------------------------------------------------------------------------

/// What a header map holds: for every header name present (in the
/// lower-case form in which the map keeps names), the bytes of the first
/// value stored under it.
pub uninterp spec fn header_fields(headers: HeaderMap) -> Map<Seq<char>, Seq<u8>>;

/// The bytes of a header value.
pub uninterp spec fn header_value_bytes(value: HeaderValue) -> Seq<u8>;

/// A header name made only of lower-case ASCII letters, digits and `-`:
/// such a name is looked up as written.
pub open spec fn is_header_token(name: Seq<char>) -> bool {
    &&& name.len() > 0
    &&& forall|i: int|
        0 <= i < name.len() ==> {
            let c = #[trigger] name[i];
            ('a' <= c && c <= 'z') || ('0' <= c && c <= '9') || c == '-'
        }
}

/// A byte that `HeaderValue::to_str` accepts: visible ASCII, space or tab.
pub open spec fn is_visible_ascii(b: u8) -> bool {
    (32 <= b && b < 127) || b == 9
}

pub open spec fn all_visible_ascii(bytes: Seq<u8>) -> bool {
    forall|i: int| 0 <= i < bytes.len() ==> is_visible_ascii(#[trigger] bytes[i])
}

/// ASCII bytes read as characters.
pub open spec fn ascii_text(bytes: Seq<u8>) -> Seq<char> {
    bytes.map_values(|b: u8| b as char)
}

/// The text of the first value stored under `name`, when there is one and
/// it is visible ASCII.
pub open spec fn header_text(fields: Map<Seq<char>, Seq<u8>>, name: Seq<char>) -> Option<Seq<char>> {
    if fields.contains_key(name) && all_visible_ascii(fields[name]) {
        Some(ascii_text(fields[name]))
    } else {
        None
    }
}

/// `HeaderMap::get` with a name given as text: the first value stored
/// under that name, or `None` when the map holds no value for it.
#[verifier::external_body]
fn header_value<'a>(headers: &'a HeaderMap, name: &str) -> (r: Option<&'a HeaderValue>)
    requires
        is_header_token(name@),
    ensures
        r is Some <==> header_fields(*headers).contains_key(name@),
        r matches Some(v) ==> header_value_bytes(*v) == header_fields(*headers)[name@],
{
    headers.get(name)
}

/// `HeaderValue::to_str`: the value as text when every byte is visible
/// ASCII (or a tab), `None` otherwise.
#[verifier::external_body]
fn value_text<'a>(value: &'a HeaderValue) -> (r: Option<&'a str>)
    ensures
        r is Some <==> all_visible_ascii(header_value_bytes(*value)),
        r matches Some(s) ==> s@ == ascii_text(header_value_bytes(*value)),
{
    value.to_str().ok()
}

pub open spec fn str_text(s: Option<&str>) -> Option<Seq<char>> {
    match s {
        Some(t) => Some(t@),
        None => None,
    }
}

fn header_str<'a>(headers: &'a HeaderMap, name: &str) -> (r: Option<&'a str>)
    requires
        is_header_token(name@),
    ensures
        str_text(r) == header_text(header_fields(*headers), name@),
{
    match header_value(headers, name) {
        Some(v) => value_text(v),
        None => None,
    }
}

fn owned_text(s: Option<&str>) -> (r: Option<String>)
    ensures
        r.deep_view() == str_text(s),
{
    match s {
        Some(t) => Some(t.to_owned()),
        None => None,
    }
}

// ---------------------------------------------------------------------------
// Decimal integers
// ---------------------------------------------------------------------------

pub open spec fn is_decimal_digit(c: char) -> bool {
    '0' <= c && c <= '9'
}

/// The value of a string of decimal digits.
pub open spec fn digits_value(digits: Seq<char>) -> int
    decreases digits.len(),
{
    if digits.len() == 0 {
        0
    } else {
        digits_value(digits.drop_last()) * 10 + (digits.last() as int - '0' as int)
    }
}

pub open spec fn all_decimal_digits(s: Seq<char>) -> bool {
    forall|i: int| 0 <= i < s.len() ==> is_decimal_digit(#[trigger] s[i])
}

/// The text after its sign, if it has one.
pub open spec fn unsigned_part(text: Seq<char>) -> Seq<char> {
    if text.len() > 0 && (text[0] == '-' || text[0] == '+') {
        text.skip(1)
    } else {
        text
    }
}

/// What `i64::from_str` accepts: an optional `+` or `-` followed by one or
/// more decimal digits, whose value fits in an `i64`; nothing else.
pub open spec fn decimal_i64(text: Seq<char>) -> Option<i64> {
    let digits = unsigned_part(text);
    let value = if text.len() > 0 && text[0] == '-' { -digits_value(digits) } else { digits_value(digits) };
    if digits.len() > 0 && all_decimal_digits(digits) && i64::MIN <= value <= i64::MAX {
        Some(value as i64)
    } else {
        None
    }
}

/// A string of decimal digits has a value no smaller than that of any of
/// its prefixes, and no value is negative.
proof fn lemma_digits_value_grows(digits: Seq<char>, k: int)
    requires
        0 <= k <= digits.len(),
        forall|i: int| 0 <= i < digits.len() ==> is_decimal_digit(#[trigger] digits[i]),
    ensures
        0 <= digits_value(digits.take(k)) <= digits_value(digits),
    decreases digits.len(),
{
    if digits.len() > 0 {
        let rest = digits.drop_last();
        assert forall|i: int| 0 <= i < rest.len() implies is_decimal_digit(#[trigger] rest[i]) by {
            assert(rest[i] == digits[i]);
        }
        if k == digits.len() {
            assert(digits.take(k) =~= digits);
            lemma_digits_value_grows(rest, rest.len() as int);
            assert(rest.take(rest.len() as int) =~= rest);
        } else {
            lemma_digits_value_grows(rest, k);
            lemma_digits_value_grows(rest, rest.len() as int);
            assert(rest.take(rest.len() as int) =~= rest);
            assert(rest.take(k) =~= digits.take(k));
        }
    }
}

/// The largest magnitude an `i64` can have: that of `i64::MIN`.
pub open spec fn i64_magnitude_limit() -> int {
    9_223_372_036_854_775_808
}

/// Reads a decimal integer as `str::parse::<i64>` does: an optional `+` or
/// `-`, then one or more decimal digits, with a value that fits in an `i64`.
fn parse_i64(text: &str) -> (r: Option<i64>)
    ensures
        r == decimal_i64(text@),
{
    let n = text.unicode_len();
    if n == 0 {
        return None;
    }
    let first = text.get_char(0);
    let negative = first == '-';
    let start: usize = if first == '-' || first == '+' { 1 } else { 0 };
    let ghost digits = unsigned_part(text@);
    assert(digits =~= text@.subrange(start as int, n as int));
    if start == n {
        return None;
    }
    let mut magnitude: u64 = 0;
    let mut i: usize = start;
    while i < n
        invariant
            n == text@.len(),
            start <= i <= n,
            start < n,
            text@.len() > 0,
            negative == (text@[0] == '-'),
            digits == unsigned_part(text@),
            digits =~= text@.subrange(start as int, n as int),
            forall|j: int| 0 <= j < i - start ==> is_decimal_digit(#[trigger] digits[j]),
            magnitude == digits_value(digits.take(i - start)),
            magnitude <= i64_magnitude_limit(),
        decreases n - i,
    {
        let c = text.get_char(i);
        assert(c == digits[i - start]);
        if !('0' <= c && c <= '9') {
            assert(!is_decimal_digit(digits[i - start]));
            assert(!all_decimal_digits(digits));
            return None;
        }
        let d = (c as u32 - '0' as u32) as u64;
        assert(digits.take(i - start + 1).drop_last() =~= digits.take(i - start));
        assert(digits_value(digits.take(i - start + 1)) == magnitude * 10 + d);
        if magnitude > 922_337_203_685_477_580 || (magnitude == 922_337_203_685_477_580 && d > 8) {
            proof {
                if all_decimal_digits(digits) {
                    lemma_digits_value_grows(digits, i - start + 1);
                    assert(digits_value(digits) > 9_223_372_036_854_775_808);
                }
            }
            return None;
        }
        magnitude = magnitude * 10 + d;
        i = i + 1;
    }
    assert(digits.take(n - start) =~= digits);
    if negative {
        if magnitude == 9_223_372_036_854_775_808 {
            Some(i64::MIN)
        } else {
            Some(-(magnitude as i64))
        }
    } else if magnitude > 9_223_372_036_854_775_807 {
        None
    } else {
        Some(magnitude as i64)
    }
}

// ---------------------------------------------------------------------------
// Rate-limit windows
// ---------------------------------------------------------------------------

/// One rate-limit window as the response headers report it.
///
/// `utilization` holds the IEEE-754 bit pattern of the `f64` fraction
/// (0.0 = empty, 1.0 = full) that the header gives. `==` compares it as the
/// floating-point value (a NaN equals nothing, +0.0 equals -0.0); `Debug`
/// prints the bit pattern as an integer.
#[derive(Debug, Default)]
pub struct RateWindow {
    pub status: Option<String>,
    pub reset_unix: Option<i64>,
    pub utilization: Option<u64>,
    /// Extrapolated unix timestamp at which this window would reach full
    /// utilization at its recent pace; computed from history (see
    /// `crate::estimate`), never read from headers.
    pub estimated_full_unix: Option<i64>,
}

pub struct RateWindowView {
    pub status: Option<Seq<char>>,
    pub reset_unix: Option<i64>,
    pub utilization: Option<u64>,
    pub estimated_full_unix: Option<i64>,
}

impl View for RateWindow {
    type V = RateWindowView;

    open spec fn view(&self) -> RateWindowView {
        RateWindowView {
            status: self.status.deep_view(),
            reset_unix: self.reset_unix,
            utilization: self.utilization,
            estimated_full_unix: self.estimated_full_unix,
        }
    }
}

impl RateWindowView {
    /// A window of which the headers said nothing.
    pub open spec fn is_empty(self) -> bool {
        self.status is None && self.reset_unix is None && self.utilization is None
    }
}

impl RateWindow {
    pub fn is_empty(&self) -> (r: bool)
        ensures
            r == self@.is_empty(),
    {
        self.status.is_none() && self.reset_unix.is_none() && self.utilization.is_none()
    }
}

/// `==` on windows: the fields pairwise, the utilization as a float.
pub open spec fn window_eq(a: RateWindowView, b: RateWindowView) -> bool {
    &&& a.status == b.status
    &&& a.reset_unix == b.reset_unix
    &&& crate::float_bits::opt_f64_eq(a.utilization, b.utilization)
    &&& a.estimated_full_unix == b.estimated_full_unix
}

fn text_eq(a: &Option<String>, b: &Option<String>) -> (r: bool)
    ensures
        r == (a.deep_view() == b.deep_view()),
{
    match (a, b) {
        (Some(x), Some(y)) => x.eq(y),
        (None, None) => true,
        _ => false,
    }
}

fn int_opt_eq(a: Option<i64>, b: Option<i64>) -> (r: bool)
    ensures
        r == (a == b),
{
    match (a, b) {
        (Some(x), Some(y)) => x == y,
        (None, None) => true,
        _ => false,
    }
}

impl PartialEq for RateWindow {
    fn eq(&self, other: &Self) -> (r: bool) {
        text_eq(&self.status, &other.status) && int_opt_eq(self.reset_unix, other.reset_unix)
            && crate::float_bits::opt_f64_bits_eq(self.utilization, other.utilization) && int_opt_eq(
            self.estimated_full_unix,
            other.estimated_full_unix,
        )
    }
}

impl vstd::std_specs::cmp::PartialEqSpecImpl for RateWindow {
    open spec fn obeys_eq_spec() -> bool {
        true
    }

    open spec fn eq_spec(&self, other: &Self) -> bool {
        window_eq(self@, other@)
    }
}

fn clone_text(s: &Option<String>) -> (r: Option<String>)
    ensures
        r.deep_view() == s.deep_view(),
{
    match s {
        Some(t) => Some(t.clone()),
        None => None,
    }
}

impl Clone for RateWindow {
    fn clone(&self) -> (r: Self)
        ensures
            r@ == self@,
    {
        RateWindow {
            status: clone_text(&self.status),
            reset_unix: self.reset_unix,
            utilization: self.utilization,
            estimated_full_unix: self.estimated_full_unix,
        }
    }
}

/// The usage figures read from one authenticated response. `==` compares
/// the windows as [`RateWindow`]'s `==` does.
#[derive(Debug, PartialEq, Default)]
pub struct UsageSnapshot {
    pub five_hour: Option<RateWindow>,
    pub seven_day: Option<RateWindow>,
    pub overage: Option<RateWindow>,
    pub representative_claim: Option<String>,
    pub fetched_at_unix: i64,
}

pub struct UsageSnapshotView {
    pub five_hour: Option<RateWindowView>,
    pub seven_day: Option<RateWindowView>,
    pub overage: Option<RateWindowView>,
    pub representative_claim: Option<Seq<char>>,
    pub fetched_at_unix: i64,
}

pub open spec fn window_view(w: Option<RateWindow>) -> Option<RateWindowView> {
    match w {
        Some(w) => Some(w@),
        None => None,
    }
}

impl View for UsageSnapshot {
    type V = UsageSnapshotView;

    open spec fn view(&self) -> UsageSnapshotView {
        UsageSnapshotView {
            five_hour: window_view(self.five_hour),
            seven_day: window_view(self.seven_day),
            overage: window_view(self.overage),
            representative_claim: self.representative_claim.deep_view(),
            fetched_at_unix: self.fetched_at_unix,
        }
    }
}

fn clone_window(w: &Option<RateWindow>) -> (r: Option<RateWindow>)
    ensures
        window_view(r) == window_view(*w),
{
    match w {
        Some(w) => Some(w.clone()),
        None => None,
    }
}

impl Clone for UsageSnapshot {
    fn clone(&self) -> (r: Self)
        ensures
            r@ == self@,
    {
        UsageSnapshot {
            five_hour: clone_window(&self.five_hour),
            seven_day: clone_window(&self.seven_day),
            overage: clone_window(&self.overage),
            representative_claim: clone_text(&self.representative_claim),
            fetched_at_unix: self.fetched_at_unix,
        }
    }
}

// ---------------------------------------------------------------------------
// Parsing the rate-limit headers
// ---------------------------------------------------------------------------

/// `anthropic-ratelimit-unified-{prefix}-{field}`
pub open spec fn rate_header_name(prefix: Seq<char>, field: Seq<char>) -> Seq<char> {
    "anthropic-ratelimit-unified-"@ + prefix + "-"@ + field
}

pub open spec fn claim_header_name() -> Seq<char> {
    "anthropic-ratelimit-unified-representative-claim"@
}

proof fn lemma_token_concat(a: Seq<char>, b: Seq<char>)
    requires
        is_header_token(a),
        is_header_token(b),
    ensures
        is_header_token(a + b),
{
    assert forall|i: int| 0 <= i < (a + b).len() implies {
        let c = #[trigger] (a + b)[i];
        ('a' <= c && c <= 'z') || ('0' <= c && c <= '9') || c == '-'
    } by {
        if i < a.len() {
            assert((a + b)[i] == a[i]);
        } else {
            assert((a + b)[i] == b[i - a.len()]);
        }
    }
}

fn rate_header(prefix: &str, field: &str) -> (r: String)
    requires
        is_header_token(prefix@),
        is_header_token(field@),
    ensures
        r@ == rate_header_name(prefix@, field@),
        is_header_token(r@),
{
    let mut name = String::from_str("anthropic-ratelimit-unified-");
    proof {
        reveal_strlit("anthropic-ratelimit-unified-");
        reveal_strlit("-");
        lemma_token_concat("anthropic-ratelimit-unified-"@, prefix@);
        lemma_token_concat("anthropic-ratelimit-unified-"@ + prefix@, "-"@);
        lemma_token_concat("anthropic-ratelimit-unified-"@ + prefix@ + "-"@, field@);
    }
    name.append(prefix);
    name.append("-");
    name.append(field);
    name
}

/// The text of the utilization header of the window named by `prefix`.
pub open spec fn utilization_header_text(fields: Map<Seq<char>, Seq<u8>>, prefix: Seq<char>) -> Option<Seq<char>> {
    header_text(fields, rate_header_name(prefix, "utilization"@))
}

/// The window named by `prefix` as the headers describe it, with the
/// utilization value that its utilization header was read as.
pub open spec fn window_from_fields(
    fields: Map<Seq<char>, Seq<u8>>,
    prefix: Seq<char>,
    utilization: Option<u64>,
) -> RateWindowView {
    RateWindowView {
        status: header_text(fields, rate_header_name(prefix, "status"@)),
        reset_unix: match header_text(fields, rate_header_name(prefix, "reset"@)) {
            Some(t) => decimal_i64(t),
            None => None,
        },
        utilization,
        estimated_full_unix: None,
    }
}

/// A window is reported only when the headers said something about it.
pub open spec fn reported(w: RateWindowView) -> Option<RateWindowView> {
    if w.is_empty() {
        None
    } else {
        Some(w)
    }
}

/// The utilization values read from the three windows' utilization
/// headers, each as the IEEE-754 bit pattern of the parsed `f64` (`None`
/// where the header is missing or does not parse as a number).
#[derive(Debug, Clone, Copy)]
pub struct Utilizations {
    pub five_hour: Option<u64>,
    pub seven_day: Option<u64>,
    pub overage: Option<u64>,
}

/// Utilization values are given only for windows whose utilization header
/// holds text: a value is what that text was read as.
pub open spec fn utilizations_from_headers(fields: Map<Seq<char>, Seq<u8>>, utilizations: Utilizations) -> bool {
    &&& utilizations.five_hour is Some ==> utilization_header_text(fields, "5h"@) is Some
    &&& utilizations.seven_day is Some ==> utilization_header_text(fields, "7d"@) is Some
    &&& utilizations.overage is Some ==> utilization_header_text(fields, "overage"@) is Some
}

/// The snapshot that the headers describe.
pub open spec fn snapshot_from_fields(
    fields: Map<Seq<char>, Seq<u8>>,
    fetched_at_unix: i64,
    utilizations: Utilizations,
) -> UsageSnapshotView {
    UsageSnapshotView {
        five_hour: reported(window_from_fields(fields, "5h"@, utilizations.five_hour)),
        seven_day: reported(window_from_fields(fields, "7d"@, utilizations.seven_day)),
        overage: reported(window_from_fields(fields, "overage"@, utilizations.overage)),
        representative_claim: header_text(fields, claim_header_name()),
        fetched_at_unix,
    }
}

/// The text of the utilization header of one window (`prefix` is `5h`,
/// `7d` or `overage`), for the caller to read as a number.
pub fn utilization_text(headers: &HeaderMap, prefix: &str) -> (r: Option<String>)
    requires
        is_header_token(prefix@),
    ensures
        r.deep_view() == utilization_header_text(header_fields(*headers), prefix@),
{
    proof {
        reveal_strlit("utilization");
    }
    let name = rate_header(prefix, "utilization");
    owned_text(header_str(headers, name.as_str()))
}

fn window_from_headers(headers: &HeaderMap, prefix: &str, utilization: Option<u64>) -> (r: RateWindow)
    requires
        is_header_token(prefix@),
    ensures
        r@ == window_from_fields(header_fields(*headers), prefix@, utilization),
{
    proof {
        reveal_strlit("status");
        reveal_strlit("reset");
    }
    let status_name = rate_header(prefix, "status");
    let status = owned_text(header_str(headers, status_name.as_str()));
    let reset_name = rate_header(prefix, "reset");
    let reset_unix = match header_str(headers, reset_name.as_str()) {
        Some(v) => parse_i64(v),
        None => None,
    };
    RateWindow { status, reset_unix, utilization, estimated_full_unix: None }
}

fn reported_window(w: RateWindow) -> (r: Option<RateWindow>)
    ensures
        window_view(r) == reported(w@),
{
    if w.is_empty() {
        None
    } else {
        Some(w)
    }
}

/// Extracts the usage figures from the response headers of an
/// authenticated `/v1/messages` request. All assumptions about the
/// (unofficial) header names are in this module.
///
/// A window appears in the snapshot exactly when at least one of its
/// status, reset or utilization values could be read; each value that is
/// missing or malformed is `None` on its own.
pub fn parse_headers(headers: &HeaderMap, fetched_at_unix: i64, utilizations: Utilizations) -> (r: UsageSnapshot)
    requires
        utilizations_from_headers(header_fields(*headers), utilizations),
    ensures
        r@ == snapshot_from_fields(header_fields(*headers), fetched_at_unix, utilizations),
{
    proof {
        reveal_strlit("5h");
        reveal_strlit("7d");
        reveal_strlit("overage");
        reveal_strlit("anthropic-ratelimit-unified-representative-claim");
    }
    let five_hour = window_from_headers(headers, "5h", utilizations.five_hour);
    let seven_day = window_from_headers(headers, "7d", utilizations.seven_day);
    let overage = window_from_headers(headers, "overage", utilizations.overage);
    let representative_claim = owned_text(
        header_str(headers, "anthropic-ratelimit-unified-representative-claim"),
    );
    UsageSnapshot {
        five_hour: reported_window(five_hour),
        seven_day: reported_window(seven_day),
        overage: reported_window(overage),
        representative_claim,
        fetched_at_unix,
    }
}


/// A response without any rate-limit header yields no window and no
/// representative claim; only the fetch time is set.
pub proof fn lemma_no_headers_no_windows(fields: Map<Seq<char>, Seq<u8>>, fetched_at_unix: i64)
    requires
        forall|prefix: Seq<char>, field: Seq<char>| !fields.contains_key(#[trigger] rate_header_name(prefix, field)),
        !fields.contains_key(claim_header_name()),
    ensures
        ({
            let none = Utilizations { five_hour: None, seven_day: None, overage: None };
            let s = snapshot_from_fields(fields, fetched_at_unix, none);
            s.five_hour is None && s.seven_day is None && s.overage is None && s.representative_claim is None
                && s.fetched_at_unix == fetched_at_unix
        }),
{
}

/// Each window depends only on its own three headers: a window is reported
/// exactly when one of its status, reset or utilization values could be
/// read, whatever the other windows' headers hold.
pub proof fn lemma_window_reported_iff_some_value(fields: Map<Seq<char>, Seq<u8>>, prefix: Seq<char>, utilization: Option<u64>)
    ensures
        reported(window_from_fields(fields, prefix, utilization)) is Some <==> (header_text(
            fields,
            rate_header_name(prefix, "status"@),
        ) is Some || (match header_text(fields, rate_header_name(prefix, "reset"@)) {
            Some(t) => decimal_i64(t) is Some,
            None => false,
        }) || utilization is Some),
{
}

/// The reset time that a window's own reset header gives: its text read as
/// a decimal `i64`, `None` when the header is missing, not text, or not
/// such a number.
pub open spec fn reset_header_reading(fields: Map<Seq<char>, Seq<u8>>, prefix: Seq<char>) -> Option<i64> {
    match header_text(fields, "anthropic-ratelimit-unified-"@ + prefix + "-reset"@) {
        Some(t) => decimal_i64(t),
        None => None,
    }
}

/// What a reported window holds, read only from that window's own headers
/// and its own utilization value.
pub open spec fn reads_own_headers(
    w: Option<RateWindowView>,
    fields: Map<Seq<char>, Seq<u8>>,
    prefix: Seq<char>,
    utilization: Option<u64>,
) -> bool {
    let status = header_text(fields, "anthropic-ratelimit-unified-"@ + prefix + "-status"@);
    let reset = reset_header_reading(fields, prefix);
    &&& (w is Some <==> (status is Some || reset is Some || utilization is Some))
    &&& w matches Some(v) ==> {
        &&& v.status == status
        &&& v.reset_unix == reset
        &&& v.utilization == utilization
        &&& v.estimated_full_unix is None
    }
}

/// Each window of the snapshot comes from its own headers: the five-hour,
/// seven-day and overage windows read the status and reset headers named by
/// their own prefix and carry their own utilization; the claim is the text
/// of the representative-claim header and the fetch time is the one given.
pub proof fn lemma_snapshot_windows_read_own_headers(
    fields: Map<Seq<char>, Seq<u8>>,
    fetched_at_unix: i64,
    utilizations: Utilizations,
)
    ensures
        ({
            let s = snapshot_from_fields(fields, fetched_at_unix, utilizations);
            &&& reads_own_headers(s.five_hour, fields, "5h"@, utilizations.five_hour)
            &&& reads_own_headers(s.seven_day, fields, "7d"@, utilizations.seven_day)
            &&& reads_own_headers(s.overage, fields, "overage"@, utilizations.overage)
            &&& s.representative_claim == header_text(
                fields,
                "anthropic-ratelimit-unified-representative-claim"@,
            )
            &&& s.fetched_at_unix == fetched_at_unix
        }),
{
    assert("anthropic-ratelimit-unified-"@ + "5h"@ + "-"@ + "status"@ =~= "anthropic-ratelimit-unified-"@ + "5h"@ + "-status"@) by {
        reveal_strlit("-"); reveal_strlit("status"); reveal_strlit("-status");
    }
    assert("anthropic-ratelimit-unified-"@ + "5h"@ + "-"@ + "reset"@ =~= "anthropic-ratelimit-unified-"@ + "5h"@ + "-reset"@) by {
        reveal_strlit("-"); reveal_strlit("reset"); reveal_strlit("-reset");
    }
    assert("anthropic-ratelimit-unified-"@ + "7d"@ + "-"@ + "status"@ =~= "anthropic-ratelimit-unified-"@ + "7d"@ + "-status"@) by {
        reveal_strlit("-"); reveal_strlit("status"); reveal_strlit("-status");
    }
    assert("anthropic-ratelimit-unified-"@ + "7d"@ + "-"@ + "reset"@ =~= "anthropic-ratelimit-unified-"@ + "7d"@ + "-reset"@) by {
        reveal_strlit("-"); reveal_strlit("reset"); reveal_strlit("-reset");
    }
    assert("anthropic-ratelimit-unified-"@ + "overage"@ + "-"@ + "status"@ =~= "anthropic-ratelimit-unified-"@ + "overage"@ + "-status"@) by {
        reveal_strlit("-"); reveal_strlit("status"); reveal_strlit("-status");
    }
    assert("anthropic-ratelimit-unified-"@ + "overage"@ + "-"@ + "reset"@ =~= "anthropic-ratelimit-unified-"@ + "overage"@ + "-reset"@) by {
        reveal_strlit("-"); reveal_strlit("reset"); reveal_strlit("-reset");
    }
}

/// The windows do not depend on each other's headers: two header maps that
/// agree on one window's status, reset and utilization headers give that
/// window alike in both snapshots, whatever the other windows' headers hold.
pub proof fn lemma_windows_are_independent(
    a: Map<Seq<char>, Seq<u8>>,
    b: Map<Seq<char>, Seq<u8>>,
    fetched_at_unix: i64,
    utilizations: Utilizations,
)
    ensures
        same_window_headers(a, b, "5h"@) ==> snapshot_from_fields(a, fetched_at_unix, utilizations).five_hour
            == snapshot_from_fields(b, fetched_at_unix, utilizations).five_hour,
        same_window_headers(a, b, "7d"@) ==> snapshot_from_fields(a, fetched_at_unix, utilizations).seven_day
            == snapshot_from_fields(b, fetched_at_unix, utilizations).seven_day,
        same_window_headers(a, b, "overage"@) ==> snapshot_from_fields(a, fetched_at_unix, utilizations).overage
            == snapshot_from_fields(b, fetched_at_unix, utilizations).overage,
{
}

/// A poll fails only for want of both main windows: whenever the snapshot
/// that the headers describe holds a five-hour or a seven-day window, the
/// response counts as usage figures, whatever those windows' status or
/// utilization and whatever the overage window holds.
pub proof fn lemma_main_window_is_enough(fields: Map<Seq<char>, Seq<u8>>, fetched_at_unix: i64, utilizations: Utilizations)
    ensures
        ({
            let s = snapshot_from_fields(fields, fetched_at_unix, utilizations);
            lacks_main_windows(s) <==> (s.five_hour is None && s.seven_day is None)
        }),
        lacks_main_windows(snapshot_from_fields(fields, fetched_at_unix, utilizations)) == lacks_main_windows(
            snapshot_from_fields(fields, 0, utilizations),
        ),
{
}

/// Two header maps hold the same first value under `name`, or both none.
pub open spec fn same_header(a: Map<Seq<char>, Seq<u8>>, b: Map<Seq<char>, Seq<u8>>, name: Seq<char>) -> bool {
    &&& a.contains_key(name) == b.contains_key(name)
    &&& a.contains_key(name) ==> a[name] == b[name]
}

/// The headers of one window agree in two maps.
pub open spec fn same_window_headers(a: Map<Seq<char>, Seq<u8>>, b: Map<Seq<char>, Seq<u8>>, prefix: Seq<char>) -> bool {
    &&& same_header(a, b, rate_header_name(prefix, "status"@))
    &&& same_header(a, b, rate_header_name(prefix, "reset"@))
    &&& same_header(a, b, rate_header_name(prefix, "utilization"@))
}

/// Only the ten headers read matter: two header maps that agree on the
/// status, reset and utilization headers of the three windows and on the
/// representative claim give the same snapshot, whatever other headers
/// (such as the overall `anthropic-ratelimit-unified-status`) either holds.
pub proof fn lemma_only_read_headers_matter(
    a: Map<Seq<char>, Seq<u8>>,
    b: Map<Seq<char>, Seq<u8>>,
    fetched_at_unix: i64,
    utilizations: Utilizations,
)
    requires
        same_window_headers(a, b, "5h"@),
        same_window_headers(a, b, "7d"@),
        same_window_headers(a, b, "overage"@),
        same_header(a, b, claim_header_name()),
    ensures
        snapshot_from_fields(a, fetched_at_unix, utilizations) == snapshot_from_fields(b, fetched_at_unix, utilizations),
        utilizations_from_headers(a, utilizations) == utilizations_from_headers(b, utilizations),
{
}

// ---------------------------------------------------------------------------
// The poll response
// ---------------------------------------------------------------------------

/// Why a usage poll gave no usage figures.
#[derive(Debug)]
pub enum UsageError {
    /// The request itself failed (network, TLS, HTTP client).
    Http(reqwest::Error),
    /// The response (with this HTTP status) carried neither the five-hour nor
    /// the seven-day window headers; the API contract may have changed.
    NoRateLimitHeaders(u16),
}

/// Seconds since the Unix epoch by the system clock, 0 before the epoch.
fn now_unix() -> (r: i64)
    ensures
        exists|reading: Option<(u64, u32)>|
            crate::clock::is_clock_reading(reading) && r == #[trigger] crate::clock::reading_secs(reading),
{
    crate::clock::unix_time_secs()
}

/// Neither of the two main windows was reported.
pub open spec fn lacks_main_windows(snapshot: UsageSnapshotView) -> bool {
    snapshot.five_hour is None && snapshot.seven_day is None
}

/// Turns the headers of a poll response (answered with HTTP `status`) into
/// the usage snapshot, stamped with the current time.
///
/// The result is an error exactly when neither the five-hour nor the
/// seven-day window could be read, which does not depend on the time.
pub fn snapshot_from_response(status: u16, headers: &HeaderMap, utilizations: Utilizations) -> (r: Result<UsageSnapshot, UsageError>)
    requires
        utilizations_from_headers(header_fields(*headers), utilizations),
    ensures
        r is Err <==> lacks_main_windows(snapshot_from_fields(header_fields(*headers), 0, utilizations)),
        (snapshot_from_fields(header_fields(*headers), 0, utilizations).five_hour is Some
            || snapshot_from_fields(header_fields(*headers), 0, utilizations).seven_day is Some) ==> r is Ok,
        r matches Err(e) ==> e == UsageError::NoRateLimitHeaders(status),
        r matches Ok(s) ==> s@ == snapshot_from_fields(header_fields(*headers), s.fetched_at_unix, utilizations),
        r matches Ok(s) ==> exists|reading: Option<(u64, u32)>|
            crate::clock::is_clock_reading(reading) && s.fetched_at_unix == #[trigger] crate::clock::reading_secs(
                reading,
            ),
{
    let snapshot = parse_headers(headers, now_unix(), utilizations);
    if snapshot.five_hour.is_none() && snapshot.seven_day.is_none() {
        return Err(UsageError::NoRateLimitHeaders(status));
    }
    Ok(snapshot)
}

} // verus!
