//! Messages of the debug adapter protocol: what is read from replies, and what requests carry.
use crate::debug_state::{
    FrameModel, StackFrameSummary, ThreadModel, ThreadSummary, VariableModel, VariableSummary,
    frame_models, thread_models, variable_models,
};
use crate::json::{
    Json, int_of, is_true, items_of, json_of, json_text, jsons_of, member, member_int,
    member_is_true, member_items, member_of, member_text, member_text_option, text_or_empty,
    value_text,
};
use crate::text::{
    chars_of, concat2, concat3, count_text, decimal, has_sign, law_number_read_back, parse_int,
    parsed_int, same_text, unsigned_part,
};
use serde_json::Value;
use vstd::prelude::*;

verus! {

/// A number of a message that is not stored as an integer: its printed text, and its whole part, or
/// the `i64` nearest to that.
pub struct FloatReading {
    pub text: String,
    pub value: i64,
}

/// The body of a message, with a reading of each number in it that is not stored as an integer.
pub struct DapBody {
    pub json: Value,
    pub floats: Vec<FloatReading>,
}

/// A message of the debug adapter.
pub enum DapMessage {
    Event { event: String, body: DapBody },
    Response { success: bool, command: String, message: String, body: DapBody },
    Request,
}

/// What comes from a debug session.
pub enum DapEvent {
    Message(DapMessage),
    Closed,
    Error(String),
}

// ---------------------------------------------------------------------------------------------
// Numbers and texts
// ---------------------------------------------------------------------------------------------
/// The reading of the number that is printed as `text`.
pub open spec fn reading_of(floats: Seq<FloatReading>, text: Seq<char>) -> Option<i64>
    decreases floats.len(),
{
    if floats.len() == 0 {
        None
    } else if floats[0].text@ == text {
        Some(floats[0].value)
    } else {
        reading_of(floats.skip(1), text)
    }
}

/// Whether a digit other than zero stands behind a point.
pub open spec fn digit_behind_point(text: Seq<char>) -> bool {
    exists|i: int, j: int|
        0 <= i < j < text.len() && #[trigger] text[i] == '.' && '1' <= #[trigger] text[j] <= '9'
}

/// Whether a minus sign stands right behind the letter of an exponent.
pub open spec fn small_exponent(text: Seq<char>) -> bool {
    exists|i: int| 0 <= i < text.len() - 1 && #[trigger] text[i] == 'e' && text[i + 1] == '-'
}

/// Whether the number that is printed as `text` has a fraction. It is printed with an exponent only
/// where it is too small to have a whole part or too large to have a fraction.
pub open spec fn has_fraction(text: Seq<char>) -> bool {
    if text.contains('e') {
        small_exponent(text)
    } else {
        digit_behind_point(text)
    }
}

/// The whole number that a value stands for: one stored as an integer, cut down to the largest
/// `i64`; one without a fraction; or one written out in a text.
pub open spec fn dap_int(json: Json, floats: Seq<FloatReading>) -> Option<i64> {
    match json {
        Json::Int(n) => if i64::MIN <= n <= i64::MAX {
            Some(n as i64)
        } else if 0 <= n <= u64::MAX {
            Some(i64::MAX)
        } else {
            None
        },
        Json::Float(text) => if has_fraction(text) {
            None
        } else {
            reading_of(floats, text)
        },
        Json::Text(text) => parsed_int(text),
        _ => None,
    }
}

/// The whole number that the member under a key stands for.
pub open spec fn dap_int_at(json: Json, key: Seq<char>, floats: Seq<FloatReading>) -> Option<i64> {
    match member_of(json, key) {
        Some(found) => dap_int(found, floats),
        None => None,
    }
}

pub open spec fn or_zero(number: Option<i64>) -> i64 {
    match number {
        Some(n) => n,
        None => 0,
    }
}

/// A value as it is shown: a text as it stands, nothing for null, and JSON for the rest.
pub open spec fn dap_display(json: Json) -> Seq<char> {
    match json {
        Json::Text(text) => text,
        Json::Null => Seq::empty(),
        Json::Bool(truth) => if truth {
            "true"@
        } else {
            "false"@
        },
        Json::Int(n) => decimal(n),
        Json::Float(text) => text,
        _ => json_text(json),
    }
}

/// The reason for a failed request: the text in the body's `error` where there is one, then the
/// message, then the whole body.
pub open spec fn error_detail(message: Seq<char>, body: Json) -> Seq<char> {
    let rest = if message.len() > 0 {
        message
    } else {
        json_text(body)
    };
    match member_of(body, "error"@) {
        Some(error) => match (member_of(error, "format"@), member_of(error, "message"@), error) {
            (Some(Json::Text(text)), _, _) => text,
            (_, Some(Json::Text(text)), _) => text,
            (_, _, Json::Text(text)) => text,
            _ => rest,
        },
        None => rest,
    }
}

/// The reading of the number that is printed as `text`.
pub fn float_value(floats: &Vec<FloatReading>, text: &str) -> (value: Option<i64>)
    ensures
        value == reading_of(floats@, text@),
{
    let mut i: usize = 0;
    assert(floats@.skip(0) == floats@);
    while i < floats.len()
        invariant
            i <= floats@.len(),
            reading_of(floats@, text@) == reading_of(floats@.skip(i as int), text@),
        decreases floats.len() - i,
    {
        if same_text(floats[i].text.as_str(), text) {
            return Some(floats[i].value);
        }
        assert(floats@.skip(i as int).skip(1) == floats@.skip(i + 1));
        i += 1;
    }
    None
}

/// Whether the number that is printed as `text` has a fraction.
pub fn prints_fraction(text: &str) -> (is: bool)
    ensures
        is == has_fraction(text@),
{
    let chars = chars_of(text);
    let mut i: usize = 0;
    let mut exponent: bool = false;
    let mut small: bool = false;
    let mut point: bool = false;
    let mut behind: bool = false;
    assert(chars@.take(0) =~= Seq::<char>::empty());
    while i < chars.len()
        invariant
            i <= chars@.len(),
            exponent == chars@.take(i as int).contains('e'),
            small == small_exponent(chars@.take(i as int)),
            point == chars@.take(i as int).contains('.'),
            behind == digit_behind_point(chars@.take(i as int)),
        decreases chars@.len() - i,
    {
        let c: char = chars[i];
        proof {
            lemma_fraction_step(chars@, i as int);
        }
        if i > 0 && chars[i - 1] == 'e' && c == '-' {
            small = true;
        }
        if point && '1' <= c && c <= '9' {
            behind = true;
        }
        if c == 'e' {
            exponent = true;
        }
        if c == '.' {
            point = true;
        }
        i += 1;
    }
    assert(chars@.take(i as int) =~= chars@);
    if exponent {
        small
    } else {
        behind
    }
}

proof fn lemma_fraction_step(text: Seq<char>, n: int)
    requires
        0 <= n < text.len(),
    ensures
        text.take(n + 1).contains('e') == (text.take(n).contains('e') || text[n] == 'e'),
        text.take(n + 1).contains('.') == (text.take(n).contains('.') || text[n] == '.'),
        small_exponent(text.take(n + 1)) == (small_exponent(text.take(n)) || (n > 0 && text[n - 1]
            == 'e' && text[n] == '-')),
        digit_behind_point(text.take(n + 1)) == (digit_behind_point(text.take(n)) || (text.take(
            n,
        ).contains('.') && '1' <= text[n] <= '9')),
{
    let now = text.take(n);
    let next = text.take(n + 1);
    assert(next =~= now.push(text[n]));
    assert(next[n] == text[n]);
    assert(forall|i: int| 0 <= i < n ==> #[trigger] next[i] == now[i]);
    if now.contains('e') {
        let i = choose|i: int| 0 <= i < now.len() && now[i] == 'e';
        assert(next[i] == 'e');
    }
    if now.contains('.') {
        let i = choose|i: int| 0 <= i < now.len() && now[i] == '.';
        assert(next[i] == '.');
        if '1' <= text[n] <= '9' {
            assert(next[i] == '.' && '1' <= next[n] <= '9');
        }
    }
    if small_exponent(now) {
        let i = choose|i: int|
            0 <= i < now.len() - 1 && #[trigger] now[i] == 'e' && now[i + 1] == '-';
        assert(next[i] == 'e' && next[i + 1] == '-');
    }
    if small_exponent(next) {
        let i = choose|i: int|
            0 <= i < next.len() - 1 && #[trigger] next[i] == 'e' && next[i + 1] == '-';
        assert(i < n - 1 ==> now[i] == 'e' && now[i + 1] == '-');
    }
    if n > 0 && text[n - 1] == 'e' && text[n] == '-' {
        assert(next[n - 1] == 'e' && next[n] == '-');
    }
    if digit_behind_point(now) {
        let (i, j) = choose|i: int, j: int|
            0 <= i < j < now.len() && #[trigger] now[i] == '.' && '1' <= #[trigger] now[j] <= '9';
        assert(next[i] == '.' && '1' <= next[j] <= '9');
    }
    if digit_behind_point(next) {
        let (i, j) = choose|i: int, j: int|
            0 <= i < j < next.len() && #[trigger] next[i] == '.' && '1' <= #[trigger] next[j] <= '9';
        assert(now[i] == '.');
        assert(j < n ==> '1' <= now[j] <= '9');
    }
}

/// An integer reads as itself, stored as one, written out or shown.
pub proof fn law_integers_are_read(n: i64, floats: Seq<FloatReading>)
    ensures
        dap_int(Json::Int(n as int), floats) == Some(n),
        dap_int(Json::Text(decimal(n as int)), floats) == Some(n),
        dap_int(Json::Text(dap_display(Json::Int(n as int))), floats) == Some(n),
{
    law_number_read_back(n);
}

/// A number with a fraction reads as no integer, whatever its reading says, and neither does a text
/// with a point in it nor a value that is neither a number nor a text.
pub proof fn law_the_rest_is_no_integer(json: Json, floats: Seq<FloatReading>)
    requires
        match json {
            Json::Float(text) => has_fraction(text),
            Json::Text(text) => text.contains('.'),
            Json::Int(_) => false,
            _ => true,
        },
    ensures
        dap_int(json, floats) is None,
{
    if let Json::Text(text) = json {
        let i = choose|i: int| 0 <= i < text.len() && text[i] == '.';
        let rest = unsigned_part(text);
        if has_sign(text) {
            assert(rest[i - 1] == '.');
        } else {
            assert(rest[i] == '.');
        }
    }
}

/// The whole number that a value stands for.
pub fn dap_json_as_i64(value: &Value, floats: &Vec<FloatReading>) -> (number: Option<i64>)
    ensures
        number == dap_int(json_of(*value), floats@),
{
    if let Some(number) = value.as_i64() {
        return Some(number);
    }
    if value.as_u64().is_some() {
        return Some(i64::MAX);
    }
    if value.is_f64() {
        let text = value_text(value);
        if prints_fraction(text.as_str()) {
            return None;
        }
        return float_value(floats, text.as_str());
    }
    match value.as_str() {
        Some(text) => parse_int(text),
        None => None,
    }
}

/// The whole number that the member under a key stands for.
pub fn dap_int_member(value: &Value, key: &str, floats: &Vec<FloatReading>) -> (number: Option<i64>)
    ensures
        number == dap_int_at(json_of(*value), key@, floats@),
{
    match member(value, key) {
        Some(found) => dap_json_as_i64(found, floats),
        None => None,
    }
}

/// A value as it is shown.
pub fn dap_json_as_display(value: &Value) -> (text: String)
    ensures
        text@ == dap_display(json_of(*value)),
{
    if let Some(text) = value.as_str() {
        return text.to_owned();
    }
    if value.is_null() {
        String::new()
    } else {
        value_text(value)
    }
}

/// The reason for a failed request.
pub fn dap_error_detail(message: &str, body: &Value) -> (detail: String)
    ensures
        detail@ == error_detail(message@, json_of(*body)),
{
    if let Some(error) = member(body, "error") {
        if let Some(text) = member_text_option(error, "format") {
            return text;
        }
        if let Some(text) = member_text_option(error, "message") {
            return text;
        }
        if let Some(text) = error.as_str() {
            return text.to_owned();
        }
    }
    if !message.is_empty() {
        return message.to_owned();
    }
    value_text(body)
}

// ---------------------------------------------------------------------------------------------
// Threads, frames and variables
// ---------------------------------------------------------------------------------------------
pub open spec fn thread_of(json: Json, floats: Seq<FloatReading>) -> ThreadModel {
    ThreadModel {
        id: or_zero(dap_int_at(json, "id"@, floats)),
        name: text_or_empty(member_of(json, "name"@)),
    }
}

/// The threads that a `threads` reply lists.
pub open spec fn threads_of(json: Json, floats: Seq<FloatReading>) -> Seq<ThreadModel> {
    items_of(member_of(json, "threads"@)).map_values(|item: Json| thread_of(item, floats))
}

/// The path of the source that a frame is in.
pub open spec fn source_path_of(json: Json) -> Seq<char> {
    match member_of(json, "source"@) {
        Some(source) => text_or_empty(member_of(source, "path"@)),
        None => Seq::empty(),
    }
}

pub open spec fn frame_of(json: Json, floats: Seq<FloatReading>) -> FrameModel {
    FrameModel {
        id: or_zero(dap_int_at(json, "id"@, floats)),
        name: text_or_empty(member_of(json, "name"@)),
        line: or_zero(int_of(member_of(json, "line"@))),
        column: or_zero(int_of(member_of(json, "column"@))),
        source_path: source_path_of(json),
    }
}

/// The frames that a `stackTrace` reply lists.
pub open spec fn frames_of(json: Json, floats: Seq<FloatReading>) -> Seq<FrameModel> {
    items_of(member_of(json, "stackFrames"@)).map_values(|item: Json| frame_of(item, floats))
}

pub open spec fn variable_of(json: Json, floats: Seq<FloatReading>) -> VariableModel {
    VariableModel {
        name: text_or_empty(member_of(json, "name"@)),
        value: match member_of(json, "value"@) {
            Some(value) => dap_display(value),
            None => Seq::empty(),
        },
        type_label: text_or_empty(member_of(json, "type"@)),
        variables_reference: or_zero(dap_int_at(json, "variablesReference"@, floats)),
    }
}

/// The variables that a `variables` reply lists.
pub open spec fn variables_of(json: Json, floats: Seq<FloatReading>) -> Seq<VariableModel> {
    items_of(member_of(json, "variables"@)).map_values(|item: Json| variable_of(item, floats))
}

fn read_thread(item: &Value, floats: &Vec<FloatReading>) -> (thread: ThreadSummary)
    ensures
        thread@ == thread_of(json_of(*item), floats@),
{
    ThreadSummary {
        id: dap_int_member(item, "id", floats).unwrap_or(0),
        name: member_text(item, "name"),
    }
}

fn read_frame(item: &Value, floats: &Vec<FloatReading>) -> (frame: StackFrameSummary)
    ensures
        frame@ == frame_of(json_of(*item), floats@),
{
    StackFrameSummary {
        id: dap_int_member(item, "id", floats).unwrap_or(0),
        name: member_text(item, "name"),
        line: member_int(item, "line").unwrap_or(0),
        column: member_int(item, "column").unwrap_or(0),
        source_path: match member(item, "source") {
            Some(source) => member_text(source, "path"),
            None => String::new(),
        },
    }
}

fn read_variable(item: &Value, floats: &Vec<FloatReading>) -> (variable: VariableSummary)
    ensures
        variable@ == variable_of(json_of(*item), floats@),
{
    VariableSummary {
        name: member_text(item, "name"),
        value: match member(item, "value") {
            Some(value) => dap_json_as_display(value),
            None => String::new(),
        },
        type_label: member_text(item, "type"),
        variables_reference: dap_int_member(item, "variablesReference", floats).unwrap_or(0),
    }
}

/// The threads that a `threads` reply lists.
pub fn read_threads(body: &DapBody) -> (threads: Vec<ThreadSummary>)
    ensures
        thread_models(threads@) == threads_of(json_of(body.json), body.floats@),
{
    let mut threads: Vec<ThreadSummary> = Vec::new();
    if let Some(items) = member_items(&body.json, "threads") {
        let mut i: usize = 0;
        while i < items.len()
            invariant
                i <= items@.len(),
                threads@.len() == i,
                forall|k: int|
                    0 <= k < i ==> (#[trigger] threads@[k])@ == thread_of(
                        json_of(items@[k]),
                        body.floats@,
                    ),
            decreases items.len() - i,
        {
            threads.push(read_thread(&items[i], &body.floats));
            i += 1;
        }
    }
    assert(thread_models(threads@) =~= threads_of(json_of(body.json), body.floats@));
    threads
}

/// The frames that a `stackTrace` reply lists.
pub fn read_frames(body: &DapBody) -> (frames: Vec<StackFrameSummary>)
    ensures
        frame_models(frames@) == frames_of(json_of(body.json), body.floats@),
{
    let mut frames: Vec<StackFrameSummary> = Vec::new();
    if let Some(items) = member_items(&body.json, "stackFrames") {
        let mut i: usize = 0;
        while i < items.len()
            invariant
                i <= items@.len(),
                frames@.len() == i,
                forall|k: int|
                    0 <= k < i ==> (#[trigger] frames@[k])@ == frame_of(
                        json_of(items@[k]),
                        body.floats@,
                    ),
            decreases items.len() - i,
        {
            frames.push(read_frame(&items[i], &body.floats));
            i += 1;
        }
    }
    assert(frame_models(frames@) =~= frames_of(json_of(body.json), body.floats@));
    frames
}

/// The variables that a `variables` reply lists.
pub fn read_variables(body: &DapBody) -> (variables: Vec<VariableSummary>)
    ensures
        variable_models(variables@) == variables_of(json_of(body.json), body.floats@),
{
    let mut variables: Vec<VariableSummary> = Vec::new();
    if let Some(items) = member_items(&body.json, "variables") {
        let mut i: usize = 0;
        while i < items.len()
            invariant
                i <= items@.len(),
                variables@.len() == i,
                forall|k: int|
                    0 <= k < i ==> (#[trigger] variables@[k])@ == variable_of(
                        json_of(items@[k]),
                        body.floats@,
                    ),
            decreases items.len() - i,
        {
            variables.push(read_variable(&items[i], &body.floats));
            i += 1;
        }
    }
    assert(variable_models(variables@) =~= variables_of(json_of(body.json), body.floats@));
    variables
}

// ---------------------------------------------------------------------------------------------
// Scopes
// ---------------------------------------------------------------------------------------------
/// The first positive reference among some scopes.
pub open spec fn first_positive(scopes: Seq<Json>, floats: Seq<FloatReading>) -> Option<i64>
    decreases scopes.len(),
{
    if scopes.len() == 0 {
        None
    } else if or_zero(dap_int_at(scopes[0], "variablesReference"@, floats)) > 0 {
        dap_int_at(scopes[0], "variablesReference"@, floats)
    } else {
        first_positive(scopes.skip(1), floats)
    }
}

/// The variables that a `scopes` reply points to: by the first positive reference, else by the
/// reference of the first scope, else by none, which is zero.
pub open spec fn scope_reference(json: Json, floats: Seq<FloatReading>) -> i64 {
    let scopes = items_of(member_of(json, "scopes"@));
    match first_positive(scopes, floats) {
        Some(reference) => reference,
        None => if scopes.len() > 0 {
            or_zero(dap_int_at(scopes[0], "variablesReference"@, floats))
        } else {
            0
        },
    }
}

/// The variables that a `scopes` reply points to.
pub fn read_scope_reference(body: &DapBody) -> (reference: i64)
    ensures
        reference == scope_reference(json_of(body.json), body.floats@),
{
    let scopes = match member_items(&body.json, "scopes") {
        Some(scopes) => scopes,
        None => {
            return 0;
        },
    };
    let ghost all = jsons_of(scopes@);
    let mut i: usize = 0;
    assert(all.skip(0) == all);
    while i < scopes.len()
        invariant
            i <= scopes@.len(),
            all == jsons_of(scopes@),
            all == items_of(member_of(json_of(body.json), "scopes"@)),
            first_positive(all, body.floats@) == first_positive(all.skip(i as int), body.floats@),
        decreases scopes.len() - i,
    {
        assert(all.skip(i as int)[0] == json_of(scopes@[i as int]));
        if let Some(reference) = dap_int_member(&scopes[i], "variablesReference", &body.floats) {
            if reference > 0 {
                return reference;
            }
        }
        assert(all.skip(i as int).skip(1) == all.skip(i + 1));
        i += 1;
    }
    if scopes.len() > 0 {
        assert(all[0] == json_of(scopes@[0]));
        dap_int_member(&scopes[0], "variablesReference", &body.floats).unwrap_or(0)
    } else {
        0
    }
}

// ---------------------------------------------------------------------------------------------
// Breakpoints
// ---------------------------------------------------------------------------------------------
pub open spec fn is_verified(json: Json) -> bool {
    is_true(member_of(json, "verified"@))
}

/// How many of some breakpoints the adapter has verified.
pub open spec fn verified_count(breakpoints: Seq<Json>) -> nat {
    breakpoints.filter(|breakpoint: Json| is_verified(breakpoint)).len()
}

/// The first reason that is given for a breakpoint that was not verified.
pub open spec fn first_reason(breakpoints: Seq<Json>) -> Option<Seq<char>>
    decreases breakpoints.len(),
{
    if breakpoints.len() == 0 {
        None
    } else {
        match member_of(breakpoints[0], "message"@) {
            Some(Json::Text(reason)) if !is_verified(breakpoints[0]) => Some(reason),
            _ => first_reason(breakpoints.skip(1)),
        }
    }
}

/// What is said of a `setBreakpoints` reply that lists `total` breakpoints. Nothing is said of one
/// that lists none.
pub open spec fn breakpoint_notice(verified: int, total: int, reason: Option<Seq<char>>) -> Option<
    Seq<char>,
> {
    if total == 0 {
        None
    } else if verified > 0 {
        Some("Breakpoints verified: "@ + decimal(verified) + "/"@ + decimal(total))
    } else {
        match reason {
            Some(text) => Some(
                "Breakpoints verified: 0/"@ + decimal(total) + " ("@ + text + ")"@,
            ),
            None => Some("Breakpoints verified: 0/"@ + decimal(total)),
        }
    }
}

/// What a `setBreakpoints` reply says.
pub struct BreakpointReport {
    pub verified: usize,
    pub total: usize,
    pub reason: Option<String>,
}

/// The text that an optional string holds.
pub open spec fn text_option(string: Option<String>) -> Option<Seq<char>> {
    match string {
        Some(s) => Some(s@),
        None => None,
    }
}

proof fn lemma_verified_count_push(breakpoints: Seq<Json>, i: int)
    requires
        0 <= i < breakpoints.len(),
    ensures
        verified_count(breakpoints.take(i + 1)) == verified_count(breakpoints.take(i)) + (
        if is_verified(breakpoints[i]) {
            1int
        } else {
            0
        }),
{
    let test = |breakpoint: Json| is_verified(breakpoint);
    assert(breakpoints.take(i + 1).drop_last() == breakpoints.take(i));
    assert(breakpoints.take(i + 1).last() == breakpoints[i]);
    reveal(Seq::filter);
}

/// Reads a `setBreakpoints` reply.
pub fn read_breakpoints(body: &DapBody) -> (report: BreakpointReport)
    ensures
        report.total == items_of(member_of(json_of(body.json), "breakpoints"@)).len(),
        report.verified == verified_count(items_of(member_of(json_of(body.json), "breakpoints"@))),
        report.verified <= report.total,
        text_option(report.reason) == first_reason(
            items_of(member_of(json_of(body.json), "breakpoints"@)),
        ),
{
    let items = match member_items(&body.json, "breakpoints") {
        Some(items) => items,
        None => {
            assert(verified_count(Seq::<Json>::empty()) == 0) by {
                reveal(Seq::filter);
            }
            return BreakpointReport { verified: 0, total: 0, reason: None };
        },
    };
    let ghost all = jsons_of(items@);
    let mut verified: usize = 0;
    let mut reason: Option<String> = None;
    let mut i: usize = 0;
    assert(all.skip(0) == all);
    assert(verified_count(all.take(0)) == 0) by {
        reveal(Seq::filter);
    }
    while i < items.len()
        invariant
            i <= items@.len(),
            all == jsons_of(items@),
            verified <= i,
            verified == verified_count(all.take(i as int)),
            reason is None ==> first_reason(all) == first_reason(all.skip(i as int)),
            reason matches Some(text) ==> first_reason(all) == Some(text@),
        decreases items.len() - i,
    {
        proof {
            lemma_verified_count_push(all, i as int);
            assert(all.skip(i as int)[0] == json_of(items@[i as int]));
            assert(all.skip(i as int).skip(1) == all.skip(i + 1));
        }
        if member_is_true(&items[i], "verified") {
            verified += 1;
        } else if reason.is_none() {
            reason = member_text_option(&items[i], "message");
        }
        i += 1;
    }
    assert(all.take(i as int) == all);
    BreakpointReport { verified, total: items.len(), reason }
}

/// What is said of a `setBreakpoints` reply.
pub fn breakpoint_message(report: &BreakpointReport) -> (notice: Option<String>)
    ensures
        text_option(notice) == breakpoint_notice(
            report.verified as int,
            report.total as int,
            text_option(report.reason),
        ),
{
    if report.total == 0 {
        return None;
    }
    let total = count_text(report.total);
    if report.verified > 0 {
        let verified = count_text(report.verified);
        let head = concat2("Breakpoints verified: ", verified.as_str());
        return Some(concat3(head.as_str(), "/", total.as_str()));
    }
    let head = concat2("Breakpoints verified: 0/", total.as_str());
    match &report.reason {
        Some(reason) => {
            let opened = concat3(head.as_str(), " (", reason.as_str());
            Some(concat2(opened.as_str(), ")"))
        },
        None => Some(head),
    }
}

} // verus!
