//! The operator wrapper: single keys typed by an operator become control
//! commands sent over the control pipe, with a guard that asks for `q` twice
//! before a quit is sent.

use vstd::prelude::*;
use crate::args::{FourViewOperatorWrapperInputSource, InputSourceView};
use crate::text::{
    semicolon_separated_entries, semicolon_tokens, string_views,
    chars_from, chars_of, decimal, push_decimal, chars_start_with, has_prefix, is_blank, owned, push_str,
    sanitize_summary_value, sanitized, str_eq, string_from_chars, trim, trim_chars, views_of,
    words, words_of, digit_char,
};

verus! {

/// How long an armed quit guard waits for the second `q`, in milliseconds.
pub const DEFAULT_OPERATOR_WRAPPER_QUIT_GUARD_WINDOW_MILLIS: u64 = 2000;

/// How long a control pipe client waits to connect, in milliseconds.
pub const DEFAULT_CONTROL_PIPE_CONNECT_TIMEOUT_MILLIS: u32 = 5000;

/// Whether a first `q` has armed the quit guard, and until when.
#[derive(Debug, Clone, Copy, PartialEq, Eq, Structural)]
pub struct FourViewOperatorWrapperGuardState {
    pub quit_armed: bool,
    pub armed_until_millis: Option<u64>,
}

/// The guard with no quit armed.
pub open spec fn unarmed_guard() -> FourViewOperatorWrapperGuardState {
    FourViewOperatorWrapperGuardState { quit_armed: false, armed_until_millis: None }
}

/// The guard after an expiry check at `now_millis`: an armed guard whose
/// deadline has come is cleared, any other guard stays as it was.
pub open spec fn guard_after_expiry(
    guard: FourViewOperatorWrapperGuardState,
    now_millis: u64,
) -> FourViewOperatorWrapperGuardState {
    if guard.quit_armed && (guard.armed_until_millis matches Some(until) && now_millis >= until) {
        unarmed_guard()
    } else {
        guard
    }
}

/// Disarms the quit guard.
pub fn clear_four_view_operator_wrapper_quit_guard(guard_state: &mut FourViewOperatorWrapperGuardState)
    ensures
        *final(guard_state) == unarmed_guard(),
{
    guard_state.quit_armed = false;
    guard_state.armed_until_millis = None;
}

/// Disarms an armed quit guard whose deadline is not after `now_millis`.
pub fn clear_expired_four_view_operator_wrapper_quit_guard(
    guard_state: &mut FourViewOperatorWrapperGuardState,
    now_millis: u64,
)
    ensures
        *final(guard_state) == guard_after_expiry(*old(guard_state), now_millis),
{
    let expired = match guard_state.armed_until_millis {
        Some(armed_until) => now_millis >= armed_until,
        None => false,
    };
    if guard_state.quit_armed && expired {
        clear_four_view_operator_wrapper_quit_guard(guard_state);
    }
}

/// The guard as a summary writes it.
pub open spec fn guard_text(guard: FourViewOperatorWrapperGuardState) -> Seq<char> {
    if guard.quit_armed {
        "quit_armed=true"@
    } else {
        "quit_armed=false"@
    }
}

/// Formats the guard: `quit_armed=true` or `quit_armed=false`.
pub fn format_four_view_operator_wrapper_guard_state(
    guard_state: &FourViewOperatorWrapperGuardState,
) -> (r: String)
    ensures
        r@ == guard_text(*guard_state),
{
    if guard_state.quit_armed {
        owned("quit_armed=true")
    } else {
        owned("quit_armed=false")
    }
}

/// The key that a line of input stands for: its one character once trimmed,
/// or nothing when the trimmed line is empty or longer than one character.
pub open spec fn wrapper_key_char(raw_key: Seq<char>) -> Option<char> {
    if trim(raw_key).len() == 1 {
        Some(trim(raw_key)[0])
    } else {
        None
    }
}

/// Reads the key that a line of input stands for.
pub fn parse_four_view_operator_wrapper_key(raw_key: &str) -> (r: Option<char>)
    ensures
        r == wrapper_key_char(raw_key@),
{
    let cs = chars_of(raw_key);
    let t = trim_chars(cs.as_slice());
    if t.len() != 1 {
        return None;
    }
    Some(t[0])
}

/// Whether a key asks for a quit.
pub open spec fn is_quit_key(c: char) -> bool {
    c == 'q' || c == 'Q'
}

/// The control command that a key is mapped to, if any: `1` to `4` focus a
/// slot, `0` and `a` show all four, `s` asks for the status.
pub open spec fn mapped_key_command(c: char) -> Option<Seq<char>> {
    if c == '1' {
        Some("focus 0"@)
    } else if c == '2' {
        Some("focus 1"@)
    } else if c == '3' {
        Some("focus 2"@)
    } else if c == '4' {
        Some("focus 3"@)
    } else if c == '0' || c == 'a' || c == 'A' {
        Some("all"@)
    } else if c == 's' || c == 'S' {
        Some("status"@)
    } else {
        None
    }
}

fn mapped_key_command_text(c: char) -> (r: Option<&'static str>)
    ensures
        match mapped_key_command(c) {
            Some(t) => r matches Some(s) && s@ == t,
            None => r is None,
        },
{
    if c == '1' {
        Some("focus 0")
    } else if c == '2' {
        Some("focus 1")
    } else if c == '3' {
        Some("focus 2")
    } else if c == '4' {
        Some("focus 3")
    } else if c == '0' || c == 'a' || c == 'A' {
        Some("all")
    } else if c == 's' || c == 'S' {
        Some("status")
    } else {
        None
    }
}

/// The value of the first white-space separated word that starts with
/// `prefix`, with the prefix cut off.
pub open spec fn first_prefixed_value(ws: Seq<Seq<char>>, prefix: Seq<char>) -> Option<Seq<char>>
    decreases ws.len(),
{
    if ws.len() == 0 {
        None
    } else if has_prefix(ws[0], prefix) {
        Some(ws[0].subrange(prefix.len() as int, ws[0].len() as int))
    } else {
        first_prefixed_value(ws.drop_first(), prefix)
    }
}

/// The value of the first `field_name=value` word of a summary line.
pub open spec fn summary_field(summary: Seq<char>, field_name: Seq<char>) -> Option<Seq<char>> {
    first_prefixed_value(words(summary), field_name.push('='))
}

/// Finds the value of the first `field_name=value` word of a summary line.
pub fn extract_summary_field(summary: &str, field_name: &str) -> (r: Option<String>)
    ensures
        match summary_field(summary@, field_name@) {
            Some(v) => r matches Some(s) && s@ == v,
            None => r is None,
        },
{
    let mut prefix = chars_of(field_name);
    prefix.push('=');
    let cs = chars_of(summary);
    let ws = words_of(cs.as_slice());
    let ghost all = words(summary@);
    let mut k: usize = 0;
    assert(all.skip(0) =~= all);
    while k < ws.len()
        invariant
            0 <= k <= ws.len(),
            views_of(ws@) =~= all,
            all == words(summary@),
            prefix@ == field_name@.push('='),
            first_prefixed_value(all, prefix@) == first_prefixed_value(all.skip(k as int), prefix@),
        decreases ws.len() - k,
    {
        let w = &ws[k];
        if chars_start_with(w.as_slice(), prefix.as_slice()) {
            let v = chars_from(w.as_slice(), prefix.len());
            let found = string_from_chars(v.as_slice());
            return Some(found);
        }
        assert(all.skip(k as int).drop_first() =~= all.skip(k + 1));
        k = k + 1;
    }
    None
}

/// The exit reason that a reply's `exit_reason` field asks for: `Continue`
/// when the field is missing or `none`.
pub open spec fn normalized_exit_reason(value: Option<Seq<char>>) -> Seq<char> {
    match value {
        None => "Continue"@,
        Some(v) => if v == "none"@ {
            "Continue"@
        } else {
            v
        },
    }
}

/// Turns a reply's `exit_reason` field into the wrapper's exit reason.
pub fn normalize_four_view_operator_wrapper_exit_reason(value: Option<&str>) -> (r: String)
    ensures
        r@ == normalized_exit_reason(match value {
            Some(v) => Some(v@),
            None => None,
        }),
{
    match value {
        None => owned("Continue"),
        Some(v) => if str_eq(v, "none") {
            owned("Continue")
        } else {
            owned(v)
        },
    }
}

/// What the wrapper reports of one key.
#[derive(Debug, Clone, PartialEq, Eq)]
pub struct FourViewOperatorWrapperKeySummary {
    pub key_index: usize,
    pub wrapper_key: String,
    pub mapped_command: String,
    pub guard_state: String,
    pub send_result: String,
    pub response_line: String,
    pub command_parse_error: String,
    pub wrapper_error: String,
    pub exit_reason: String,
}

/// A key summary with its texts as character sequences.
pub struct KeySummaryView {
    pub key_index: nat,
    pub wrapper_key: Seq<char>,
    pub mapped_command: Seq<char>,
    pub guard_state: Seq<char>,
    pub send_result: Seq<char>,
    pub response_line: Seq<char>,
    pub command_parse_error: Seq<char>,
    pub wrapper_error: Seq<char>,
    pub exit_reason: Seq<char>,
}

impl View for FourViewOperatorWrapperKeySummary {
    type V = KeySummaryView;

    open spec fn view(&self) -> KeySummaryView {
        KeySummaryView {
            key_index: self.key_index as nat,
            wrapper_key: self.wrapper_key@,
            mapped_command: self.mapped_command@,
            guard_state: self.guard_state@,
            send_result: self.send_result@,
            response_line: self.response_line@,
            command_parse_error: self.command_parse_error@,
            wrapper_error: self.wrapper_error@,
            exit_reason: self.exit_reason@,
        }
    }
}

/// How a key ended: it armed the quit guard, it was ignored, or a command
/// was sent and the control pipe replied (or the send failed).
pub enum FourViewOperatorWrapperKeyOutcome {
    GuardArmed,
    Ignored,
    Replied(Result<String, String>),
}

/// A key outcome with its texts as character sequences.
pub enum KeyOutcomeView {
    GuardArmed,
    Ignored,
    Replied(Result<Seq<char>, Seq<char>>),
}

/// A reply or send error as character sequences.
pub open spec fn reply_view(reply: Result<String, String>) -> Result<Seq<char>, Seq<char>> {
    match reply {
        Ok(s) => Ok(s@),
        Err(e) => Err(e@),
    }
}

impl View for FourViewOperatorWrapperKeyOutcome {
    type V = KeyOutcomeView;

    open spec fn view(&self) -> KeyOutcomeView {
        match self {
            FourViewOperatorWrapperKeyOutcome::GuardArmed => KeyOutcomeView::GuardArmed,
            FourViewOperatorWrapperKeyOutcome::Ignored => KeyOutcomeView::Ignored,
            FourViewOperatorWrapperKeyOutcome::Replied(r) => KeyOutcomeView::Replied(reply_view(*r)),
        }
    }
}

/// How a summary names the key: the trimmed line, sanitized, or `empty`.
pub open spec fn wrapper_key_text(raw_key: Seq<char>) -> Seq<char> {
    if trim(raw_key).len() == 0 {
        "empty"@
    } else {
        sanitized(trim(raw_key))
    }
}

/// The summary of one key: its index, how it was named, the command it was
/// mapped to, the guard after it, and what came of it.
pub open spec fn key_summary(
    key_index: nat,
    raw_key: Seq<char>,
    mapped_command: Seq<char>,
    guard: FourViewOperatorWrapperGuardState,
    outcome: KeyOutcomeView,
) -> KeySummaryView {
    let base = KeySummaryView {
        key_index,
        wrapper_key: wrapper_key_text(raw_key),
        mapped_command,
        guard_state: guard_text(guard),
        send_result: "Ignored"@,
        response_line: "none"@,
        command_parse_error: "none"@,
        wrapper_error: "none"@,
        exit_reason: "Continue"@,
    };
    match outcome {
        KeyOutcomeView::GuardArmed => KeySummaryView { send_result: "GuardArmed"@, ..base },
        KeyOutcomeView::Ignored => KeySummaryView { wrapper_error: "unknown_key"@, ..base },
        KeyOutcomeView::Replied(Ok(response)) => KeySummaryView {
            send_result: "Sent"@,
            response_line: sanitized(response),
            command_parse_error: sanitized(
                match summary_field(response, "command_parse_error"@) {
                    Some(v) => v,
                    None => "none"@,
                },
            ),
            exit_reason: sanitized(normalized_exit_reason(summary_field(response, "exit_reason"@))),
            ..base
        },
        KeyOutcomeView::Replied(Err(error)) => KeySummaryView {
            send_result: "SendFailed"@,
            wrapper_error: sanitized(error),
            exit_reason: "WrapperSendFailed"@,
            ..base
        },
    }
}

/// Builds the summary of one key from what came of it.
pub fn four_view_operator_wrapper_key_summary(
    key_index: usize,
    raw_key: &str,
    mapped_command: &str,
    guard_state: &FourViewOperatorWrapperGuardState,
    outcome: FourViewOperatorWrapperKeyOutcome,
) -> (r: FourViewOperatorWrapperKeySummary)
    ensures
        r@ == key_summary(key_index as nat, raw_key@, mapped_command@, *guard_state, outcome@),
{
    let cs = chars_of(raw_key);
    let t = trim_chars(cs.as_slice());
    let wrapper_key = if t.len() == 0 {
        owned("empty")
    } else {
        let trimmed = string_from_chars(t.as_slice());
        sanitize_summary_value(trimmed.as_str())
    };
    let mut send_result = owned("Ignored");
    let mut response_line = owned("none");
    let mut command_parse_error = owned("none");
    let mut wrapper_error = owned("none");
    let mut exit_reason = owned("Continue");
    match outcome {
        FourViewOperatorWrapperKeyOutcome::GuardArmed => {
            send_result = owned("GuardArmed");
        },
        FourViewOperatorWrapperKeyOutcome::Ignored => {
            wrapper_error = owned("unknown_key");
        },
        FourViewOperatorWrapperKeyOutcome::Replied(Ok(response)) => {
            send_result = owned("Sent");
            let parse_error = match extract_summary_field(response.as_str(), "command_parse_error") {
                Some(v) => v,
                None => owned("none"),
            };
            command_parse_error = sanitize_summary_value(parse_error.as_str());
            let field = extract_summary_field(response.as_str(), "exit_reason");
            let normalized = match &field {
                Some(v) => normalize_four_view_operator_wrapper_exit_reason(Some(v.as_str())),
                None => normalize_four_view_operator_wrapper_exit_reason(None),
            };
            exit_reason = sanitize_summary_value(normalized.as_str());
            response_line = sanitize_summary_value(response.as_str());
        },
        FourViewOperatorWrapperKeyOutcome::Replied(Err(error)) => {
            send_result = owned("SendFailed");
            wrapper_error = sanitize_summary_value(error.as_str());
            exit_reason = owned("WrapperSendFailed");
        },
    }
    FourViewOperatorWrapperKeySummary {
        key_index,
        wrapper_key,
        mapped_command: owned(mapped_command),
        guard_state: format_four_view_operator_wrapper_guard_state(guard_state),
        send_result,
        response_line,
        command_parse_error,
        wrapper_error,
        exit_reason,
    }
}

/// One command handed to a control pipe client: the pipe it was sent to, the
/// command, the connect timeout, and the reply line or the error that came
/// back.
pub struct ControlPipeExchange {
    pub pipe_name: Seq<char>,
    pub command: Seq<char>,
    pub connect_timeout_millis: u32,
    pub reply: Result<Seq<char>, Seq<char>>,
}

/// The client side of the control pipe: sends one command to the named pipe
/// and returns the reply line, or the error that stopped it.
pub trait FourViewControlPipeClientRuntime {
    /// The commands this client has been handed so far, in order, each with
    /// what came back. It is a record for the contracts only; an
    /// implementation that is verified defines it.
    closed spec fn exchanges(&self) -> Seq<ControlPipeExchange> {
        Seq::empty()
    }

    /// Sends `command` to the pipe `pipe_name`, waiting at most
    /// `connect_timeout_millis` to connect; the exchange is recorded.
    fn send_command(
        &mut self,
        pipe_name: &str,
        command: &str,
        connect_timeout_millis: u32,
    ) -> (r: Result<String, String>)
        ensures
            final(self).exchanges() == old(self).exchanges().push(
                (ControlPipeExchange {
                    pipe_name: pipe_name@,
                    command: command@,
                    connect_timeout_millis,
                    reply: reply_view(r),
                }),
            ),
    ;
}

/// The wall clock that the quit guard's deadlines are read from.
pub trait FourViewOperatorWrapperClock {
    /// Whether `millis` is a reading this clock can give. A clock that says
    /// nothing of its readings admits every one.
    closed spec fn can_read(&self, millis: u64) -> bool {
        true
    }

    /// The current time in milliseconds.
    fn now_millis(&self) -> (r: u64)
        ensures
            self.can_read(r),
    ;
}

/// The error for a blank control pipe name.
pub open spec fn empty_pipe_name_message() -> Seq<char> {
    "control pipe name must not be empty"@
}

/// Sends one command over the control pipe. A blank pipe name is refused
/// and the client is not called; otherwise the client is handed the pipe
/// name, the command and the default connect timeout, once, and its reply or
/// error is returned as it came.
pub fn run_send_control_command_with_runtime<R: FourViewControlPipeClientRuntime>(
    pipe_name: &str,
    command: &str,
    runtime: &mut R,
) -> (r: Result<String, String>)
    ensures
        trim(pipe_name@).len() == 0 ==> (r matches Err(e) && e@ == empty_pipe_name_message())
            && final(runtime).exchanges() == old(runtime).exchanges(),
        trim(pipe_name@).len() != 0 ==> final(runtime).exchanges() == old(runtime).exchanges().push(
            (ControlPipeExchange {
                pipe_name: pipe_name@,
                command: command@,
                connect_timeout_millis: DEFAULT_CONTROL_PIPE_CONNECT_TIMEOUT_MILLIS,
                reply: reply_view(r),
            }),
        ),
{
    if is_blank(pipe_name) {
        return Err(owned("control pipe name must not be empty"));
    }
    runtime.send_command(pipe_name, command, DEFAULT_CONTROL_PIPE_CONNECT_TIMEOUT_MILLIS)
}

/// The reply a key's command gets: the refusal of a blank pipe name, or
/// whatever the control pipe gave back.
pub open spec fn effective_reply(pipe_name: Seq<char>, reply: Result<Seq<char>, Seq<char>>) -> Result<
    Seq<char>,
    Seq<char>,
> {
    if trim(pipe_name).len() == 0 {
        Err(empty_pipe_name_message())
    } else {
        reply
    }
}

/// The guard armed at `now_millis`: its deadline is the guard window later,
/// held at `u64::MAX`.
pub open spec fn armed_guard(now_millis: u64) -> FourViewOperatorWrapperGuardState {
    FourViewOperatorWrapperGuardState {
        quit_armed: true,
        armed_until_millis: Some(
            if now_millis + DEFAULT_OPERATOR_WRAPPER_QUIT_GUARD_WINDOW_MILLIS > u64::MAX {
                u64::MAX
            } else {
                (now_millis + DEFAULT_OPERATOR_WRAPPER_QUIT_GUARD_WINDOW_MILLIS) as u64
            },
        ),
    }
}

/// Whether a line of input is the quit key.
pub open spec fn key_is_quit(raw_key: Seq<char>) -> bool {
    wrapper_key_char(raw_key) matches Some(c) && is_quit_key(c)
}

/// The control command that a line of input maps to, if any.
pub open spec fn key_command(raw_key: Seq<char>) -> Option<Seq<char>> {
    match wrapper_key_char(raw_key) {
        Some(c) => mapped_key_command(c),
        None => None,
    }
}

/// Whether a key arms the quit guard: a quit key that finds the guard
/// unarmed once an expired guard has been cleared at `expiry_now`.
pub open spec fn key_arms_guard(
    raw_key: Seq<char>,
    guard: FourViewOperatorWrapperGuardState,
    expiry_now: u64,
) -> bool {
    key_is_quit(raw_key) && !guard_after_expiry(guard, expiry_now).quit_armed
}

/// The command a key hands to the control pipe client, if any: none on a
/// blank pipe name; `quit` for a quit key that finds the guard armed (once
/// an expired guard has been cleared at `expiry_now`); a mapped key's
/// command; nothing for any other key.
pub open spec fn key_sends(
    raw_key: Seq<char>,
    guard: FourViewOperatorWrapperGuardState,
    pipe_name: Seq<char>,
    expiry_now: u64,
) -> Option<Seq<char>> {
    if trim(pipe_name).len() == 0 {
        None
    } else if key_is_quit(raw_key) {
        if guard_after_expiry(guard, expiry_now).quit_armed {
            Some("quit"@)
        } else {
            None
        }
    } else {
        key_command(raw_key)
    }
}

/// One key of the operator wrapper: the guard it leaves and the summary it
/// gives, when the clock read `expiry_now` on arrival and `arm_now` when a
/// guard was armed, and the control pipe answered `reply` to a sent command.
/// An expired guard is cleared first. A quit key sends `quit` when the guard
/// is armed, and otherwise arms it; a mapped key sends its command; any other
/// key is ignored. Every key but an arming `q` leaves the guard unarmed.
pub open spec fn operator_key_step(
    key_index: nat,
    raw_key: Seq<char>,
    guard: FourViewOperatorWrapperGuardState,
    pipe_name: Seq<char>,
    expiry_now: u64,
    arm_now: u64,
    reply: Result<Seq<char>, Seq<char>>,
) -> (FourViewOperatorWrapperGuardState, KeySummaryView) {
    let current = guard_after_expiry(guard, expiry_now);
    if key_is_quit(raw_key) {
        if current.quit_armed {
            (
                unarmed_guard(),
                key_summary(
                    key_index,
                    raw_key,
                    "quit"@,
                    unarmed_guard(),
                    KeyOutcomeView::Replied(effective_reply(pipe_name, reply)),
                ),
            )
        } else {
            (
                armed_guard(arm_now),
                key_summary(
                    key_index,
                    raw_key,
                    "quit"@,
                    armed_guard(arm_now),
                    KeyOutcomeView::GuardArmed,
                ),
            )
        }
    } else {
        match key_command(raw_key) {
            Some(command) => (
                unarmed_guard(),
                key_summary(
                    key_index,
                    raw_key,
                    sanitized(command),
                    unarmed_guard(),
                    KeyOutcomeView::Replied(effective_reply(pipe_name, reply)),
                ),
            ),
            None => (
                unarmed_guard(),
                key_summary(key_index, raw_key, "none"@, unarmed_guard(), KeyOutcomeView::Ignored),
            ),
        }
    }
}

/// One key with the clock read `expiry_now` on arrival and `arm_now` when a
/// guard was armed: the control pipe client's record goes from `sent_before`
/// to `sent_after`, gaining exactly the exchange of the command the key sends
/// (to `pipe_name`, with the default connect timeout), or nothing when it
/// sends none; and the guard `after` and the summary are those of
/// `operator_key_step` for the reply that exchange got.
pub open spec fn operator_key_exchange(
    key_index: nat,
    raw_key: Seq<char>,
    before: FourViewOperatorWrapperGuardState,
    pipe_name: Seq<char>,
    expiry_now: u64,
    arm_now: u64,
    sent_before: Seq<ControlPipeExchange>,
    after: FourViewOperatorWrapperGuardState,
    sent_after: Seq<ControlPipeExchange>,
    summary: KeySummaryView,
) -> bool {
    match key_sends(raw_key, before, pipe_name, expiry_now) {
        Some(command) => {
            &&& sent_after.len() > 0
            &&& sent_after == sent_before.push(
                (ControlPipeExchange {
                    pipe_name,
                    command,
                    connect_timeout_millis: DEFAULT_CONTROL_PIPE_CONNECT_TIMEOUT_MILLIS,
                    reply: sent_after.last().reply,
                }),
            )
            &&& operator_key_step(
                key_index,
                raw_key,
                before,
                pipe_name,
                expiry_now,
                arm_now,
                sent_after.last().reply,
            ) == (after, summary)
        },
        None => {
            &&& sent_after == sent_before
            &&& operator_key_step(
                key_index,
                raw_key,
                before,
                pipe_name,
                expiry_now,
                arm_now,
                Ok(Seq::empty()),
            ) == (after, summary)
        },
    }
}

/// One key as `clock` can have timed it: for readings the clock can give
/// (the arming reading only needed when the key arms the guard), the key
/// gives the guard `after`, the summary, and the client record `sent_after`.
pub open spec fn operator_key_handled<C: FourViewOperatorWrapperClock>(
    key_index: nat,
    raw_key: Seq<char>,
    before: FourViewOperatorWrapperGuardState,
    pipe_name: Seq<char>,
    clock: C,
    sent_before: Seq<ControlPipeExchange>,
    after: FourViewOperatorWrapperGuardState,
    sent_after: Seq<ControlPipeExchange>,
    summary: KeySummaryView,
) -> bool {
    exists|expiry_now: u64, arm_now: u64|
        {
            &&& clock.can_read(expiry_now)
            &&& (key_arms_guard(raw_key, before, expiry_now) ==> clock.can_read(arm_now))
            &&& #[trigger] operator_key_exchange(
                key_index,
                raw_key,
                before,
                pipe_name,
                expiry_now,
                arm_now,
                sent_before,
                after,
                sent_after,
                summary,
            )
        }
}

/// Handles one key: reads the clock and clears an expired guard, maps the
/// key, sends its command or arms the guard (reading the clock again for the
/// deadline), and reports what came of it.
pub fn process_four_view_operator_wrapper_key<
    R: FourViewControlPipeClientRuntime,
    C: FourViewOperatorWrapperClock,
>(
    key_index: usize,
    raw_key: &str,
    guard_state: &mut FourViewOperatorWrapperGuardState,
    control_pipe_name: &str,
    runtime: &mut R,
    clock: &C,
) -> (r: FourViewOperatorWrapperKeySummary)
    ensures
        operator_key_handled(
            key_index as nat,
            raw_key@,
            *old(guard_state),
            control_pipe_name@,
            *clock,
            old(runtime).exchanges(),
            *final(guard_state),
            final(runtime).exchanges(),
            r@,
        ),
{
    let ghost sent_before = runtime.exchanges();
    let expiry_now = clock.now_millis();
    clear_expired_four_view_operator_wrapper_quit_guard(guard_state, expiry_now);
    let key_char = parse_four_view_operator_wrapper_key(raw_key);
    let is_quit = match key_char {
        Some(c) => c == 'q' || c == 'Q',
        None => false,
    };
    if is_quit {
        if guard_state.quit_armed {
            clear_four_view_operator_wrapper_quit_guard(guard_state);
            let reply = run_send_control_command_with_runtime(control_pipe_name, "quit", runtime);
            let r = four_view_operator_wrapper_key_summary(
                key_index,
                raw_key,
                "quit",
                guard_state,
                FourViewOperatorWrapperKeyOutcome::Replied(reply),
            );
            assert(operator_key_exchange(
                key_index as nat,
                raw_key@,
                *old(guard_state),
                control_pipe_name@,
                expiry_now,
                0,
                sent_before,
                *guard_state,
                runtime.exchanges(),
                r@,
            ));
            return r;
        } else {
            let arm_now = clock.now_millis();
            guard_state.quit_armed = true;
            guard_state.armed_until_millis = Some(
                arm_now.saturating_add(DEFAULT_OPERATOR_WRAPPER_QUIT_GUARD_WINDOW_MILLIS),
            );
            let r = four_view_operator_wrapper_key_summary(
                key_index,
                raw_key,
                "quit",
                guard_state,
                FourViewOperatorWrapperKeyOutcome::GuardArmed,
            );
            assert(operator_key_exchange(
                key_index as nat,
                raw_key@,
                *old(guard_state),
                control_pipe_name@,
                expiry_now,
                arm_now,
                sent_before,
                *guard_state,
                runtime.exchanges(),
                r@,
            ));
            return r;
        }
    }
    let command = match key_char {
        Some(c) => mapped_key_command_text(c),
        None => None,
    };
    clear_four_view_operator_wrapper_quit_guard(guard_state);
    match command {
        Some(command) => {
            let mapped = sanitize_summary_value(command);
            let reply = run_send_control_command_with_runtime(control_pipe_name, command, runtime);
            let r = four_view_operator_wrapper_key_summary(
                key_index,
                raw_key,
                mapped.as_str(),
                guard_state,
                FourViewOperatorWrapperKeyOutcome::Replied(reply),
            );
            assert(operator_key_exchange(
                key_index as nat,
                raw_key@,
                *old(guard_state),
                control_pipe_name@,
                expiry_now,
                0,
                sent_before,
                *guard_state,
                runtime.exchanges(),
                r@,
            ));
            r
        },
        None => {
            let r = four_view_operator_wrapper_key_summary(
                key_index,
                raw_key,
                "none",
                guard_state,
                FourViewOperatorWrapperKeyOutcome::Ignored,
            );
            assert(operator_key_exchange(
                key_index as nat,
                raw_key@,
                *old(guard_state),
                control_pipe_name@,
                expiry_now,
                0,
                sent_before,
                *guard_state,
                runtime.exchanges(),
                r@,
            ));
            r
        },
    }
}

/// Where the restore of the console mode stands after raw key input.
#[derive(Debug, Clone, PartialEq, Eq)]
pub enum FourViewOperatorWrapperRawConsoleRestoreState {
    Pending,
    Restored,
    Failed(String),
}

/// Records whether the console mode that raw key input changed was put back.
/// A tracker has one owner: the raw key runtime fills it in when the reader
/// is closed and hands it back, so it is not cloned; the last mark wins.
#[derive(Debug)]
pub struct FourViewOperatorWrapperRawConsoleRestoreTracker {
    pub state: FourViewOperatorWrapperRawConsoleRestoreState,
}

/// The summary fields of a restore state: its result and its error.
pub open spec fn restore_fields(state: FourViewOperatorWrapperRawConsoleRestoreState) -> (
    Seq<char>,
    Seq<char>,
) {
    match state {
        FourViewOperatorWrapperRawConsoleRestoreState::Pending => ("pending"@, "none"@),
        FourViewOperatorWrapperRawConsoleRestoreState::Restored => ("restored"@, "none"@),
        FourViewOperatorWrapperRawConsoleRestoreState::Failed(e) => ("restore_failed"@, sanitized(e@)),
    }
}

impl Default for FourViewOperatorWrapperRawConsoleRestoreTracker {
    /// A tracker whose restore is still pending.
    fn default() -> (r: Self)
        ensures
            r.state is Pending,
    {
        FourViewOperatorWrapperRawConsoleRestoreTracker {
            state: FourViewOperatorWrapperRawConsoleRestoreState::Pending,
        }
    }
}

impl FourViewOperatorWrapperRawConsoleRestoreTracker {
    /// Records that the console mode was put back.
    pub fn mark_restored(&mut self)
        ensures
            final(self).state is Restored,
    {
        self.state = FourViewOperatorWrapperRawConsoleRestoreState::Restored;
    }

    /// Records that putting the console mode back failed with `error`.
    pub fn mark_failed(&mut self, error: String)
        ensures
            final(self).state matches FourViewOperatorWrapperRawConsoleRestoreState::Failed(e) && e@
                == error@,
    {
        self.state = FourViewOperatorWrapperRawConsoleRestoreState::Failed(error);
    }

    /// The restore result and error as the loop summary writes them.
    pub fn summary_fields(&self) -> (r: (String, String))
        ensures
            (r.0@, r.1@) == restore_fields(self.state),
    {
        match &self.state {
            FourViewOperatorWrapperRawConsoleRestoreState::Pending => (owned("pending"), owned("none")),
            FourViewOperatorWrapperRawConsoleRestoreState::Restored => (
                owned("restored"),
                owned("none"),
            ),
            FourViewOperatorWrapperRawConsoleRestoreState::Failed(error) => (
                owned("restore_failed"),
                sanitize_summary_value(error.as_str()),
            ),
        }
    }
}

/// What one read of a key reader gave, as character sequences: a key, the
/// end of the input, or the error that stopped reading.
pub open spec fn key_read_view(read: Result<Option<String>, String>) -> Result<
    Option<Seq<char>>,
    Seq<char>,
> {
    match read {
        Ok(Some(k)) => Ok(Some(k@)),
        Ok(None) => Ok(None),
        Err(e) => Err(e@),
    }
}

/// A source of keys: the next key, `None` once the input has ended, or the
/// error that stopped reading.
pub trait FourViewOperatorWrapperRawKeyReader {
    /// What the reads so far gave, in order. It is a record for the
    /// contracts only; an implementation that is verified defines it.
    closed spec fn reads(&self) -> Seq<Result<Option<Seq<char>>, Seq<char>>> {
        Seq::empty()
    }

    /// Reads the next key; the read is recorded.
    fn read_next_key(&mut self) -> (r: Result<Option<String>, String>)
        ensures
            final(self).reads() == old(self).reads().push(key_read_view(r)),
    ;
}

/// The console in raw key mode: opening it gives a key reader; closing the
/// reader puts the console mode back and reports how that went.
pub trait FourViewOperatorWrapperRawKeyRuntime {
    type Reader: FourViewOperatorWrapperRawKeyReader;

    /// What each opening gave, in order: `Ok` or the setup error. A record
    /// for the contracts only, as are the closings.
    closed spec fn openings(&self) -> Seq<Result<(), Seq<char>>> {
        Seq::empty()
    }

    /// For each closing, in order: what the closed reader had read, and where
    /// the restore of the console mode stood.
    closed spec fn closings(&self) -> Seq<
        (Seq<Result<Option<Seq<char>>, Seq<char>>>, FourViewOperatorWrapperRawConsoleRestoreState),
    > {
        Seq::empty()
    }

    /// Puts the console in raw key mode and gives a reader that has read
    /// nothing yet, or the setup error; the opening is recorded.
    fn open(&mut self) -> (r: Result<Self::Reader, String>)
        ensures
            final(self).openings() == old(self).openings().push(
                match r {
                    Ok(_) => Ok(()),
                    Err(e) => Err(e@),
                },
            ),
            final(self).closings() == old(self).closings(),
            r matches Ok(reader) ==> reader.reads().len() == 0,
    ;

    /// Drops the reader and puts the console mode back, reporting how that
    /// went; the closing is recorded.
    fn close(&mut self, reader: Self::Reader) -> (r: FourViewOperatorWrapperRawConsoleRestoreTracker)
        ensures
            final(self).openings() == old(self).openings(),
            final(self).closings() == old(self).closings().push((reader.reads(), r.state)),
    ;
}

/// What the wrapper reports of a whole session.
#[derive(Debug, Clone, PartialEq, Eq)]
pub struct FourViewOperatorWrapperLoopSummary {
    pub control_pipe_name: String,
    pub input_source: String,
    pub key_summaries: Vec<FourViewOperatorWrapperKeySummary>,
    pub keys_processed: u32,
    pub commands_sent: u32,
    pub ignored_keys: u32,
    pub final_guard_state: String,
    pub raw_console_restore_result: String,
    pub raw_console_restore_error: String,
    pub exit_reason: String,
}

/// The views of a sequence of key summaries.
pub open spec fn key_summary_views(s: Seq<FourViewOperatorWrapperKeySummary>) -> Seq<
    KeySummaryView,
> {
    s.map_values(|k: FourViewOperatorWrapperKeySummary| k@)
}

/// How many keys sent their command and got a reply.
pub open spec fn sent_count(s: Seq<KeySummaryView>) -> nat
    decreases s.len(),
{
    if s.len() == 0 {
        0
    } else {
        sent_count(s.drop_last()) + if s.last().send_result == "Sent"@ {
            1nat
        } else {
            0nat
        }
    }
}

/// How many keys were ignored.
pub open spec fn ignored_count(s: Seq<KeySummaryView>) -> nat
    decreases s.len(),
{
    if s.len() == 0 {
        0
    } else {
        ignored_count(s.drop_last()) + if s.last().send_result == "Ignored"@ {
            1nat
        } else {
            0nat
        }
    }
}

proof fn lemma_counts_bounded(s: Seq<KeySummaryView>)
    ensures
        sent_count(s) <= s.len(),
        ignored_count(s) <= s.len(),
    decreases s.len(),
{
    if s.len() > 0 {
        lemma_counts_bounded(s.drop_last());
    }
}

/// Whether `summaries` is what the keys `keys` can give, one after the other,
/// from an unarmed guard, with `clock` timing them: passing through the guards
/// `guards`, while the control pipe client's record passes through `sent`.
pub open spec fn key_trace<C: FourViewOperatorWrapperClock>(
    pipe_name: Seq<char>,
    clock: C,
    keys: Seq<Seq<char>>,
    summaries: Seq<KeySummaryView>,
    guards: Seq<FourViewOperatorWrapperGuardState>,
    sent: Seq<Seq<ControlPipeExchange>>,
) -> bool {
    &&& guards.len() == keys.len() + 1
    &&& sent.len() == keys.len() + 1
    &&& summaries.len() == keys.len()
    &&& guards[0] == unarmed_guard()
    &&& forall|i: int|
        0 <= i < keys.len() ==> #[trigger] operator_key_handled(
            i as nat,
            keys[i],
            guards[i],
            pipe_name,
            clock,
            sent[i],
            guards[i + 1],
            sent[i + 1],
            summaries[i],
        )
}

/// Whether the keys `keys`, handled one after the other from an unarmed
/// guard with `clock` timing them, take the control pipe client's record from
/// `sent_before` to `sent_after`.
pub open spec fn keys_reach_pipe<C: FourViewOperatorWrapperClock>(
    pipe_name: Seq<char>,
    clock: C,
    keys: Seq<Seq<char>>,
    sent_before: Seq<ControlPipeExchange>,
    sent_after: Seq<ControlPipeExchange>,
) -> bool {
    exists|
        summaries: Seq<KeySummaryView>,
        guards: Seq<FourViewOperatorWrapperGuardState>,
        sent: Seq<Seq<ControlPipeExchange>>,
    |
        #[trigger] key_trace(pipe_name, clock, keys, summaries, guards, sent) && sent[0]
            == sent_before && sent.last() == sent_after
}

/// Whether the last key asked the session to end.
pub open spec fn asked_to_exit(s: Seq<KeySummaryView>) -> bool {
    s.len() > 0 && s.last().exit_reason != "Continue"@
}

/// Every key but the last let the session go on.
pub open spec fn continues_before_last(s: Seq<KeySummaryView>) -> bool {
    forall|i: int| 0 <= i < s.len() - 1 ==> (#[trigger] s[i]).exit_reason == "Continue"@
}

/// The session's exit reason: the last key's when it asked to end, else
/// `fallback`.
pub open spec fn session_exit_reason(s: Seq<KeySummaryView>, fallback: Seq<char>) -> Seq<char> {
    if asked_to_exit(s) {
        s.last().exit_reason
    } else {
        fallback
    }
}

/// How the loop summary names an input source.
pub open spec fn input_source_text(source: crate::args::InputSourceView) -> Seq<char> {
    match source {
        crate::args::InputSourceView::Stdin => "stdin"@,
        crate::args::InputSourceView::ScriptedKeys(script) => "scripted:"@ + sanitized(script),
        crate::args::InputSourceView::RawKeys => "raw_keys"@,
    }
}

/// The keys processed so far and what they gave, with the guards and the
/// control pipe client's records in between.
struct OperatorKeyLoop {
    guard: FourViewOperatorWrapperGuardState,
    key_summaries: Vec<FourViewOperatorWrapperKeySummary>,
    commands_sent: u32,
    ignored_keys: u32,
    stopped: bool,
    keys: Ghost<Seq<Seq<char>>>,
    guards: Ghost<Seq<FourViewOperatorWrapperGuardState>>,
    sent: Ghost<Seq<Seq<ControlPipeExchange>>>,
}

/// The keys among a run of reads, in order.
pub open spec fn keys_read(reads: Seq<Result<Option<Seq<char>>, Seq<char>>>) -> Seq<Seq<char>>
    decreases reads.len(),
{
    if reads.len() == 0 {
        Seq::empty()
    } else {
        let rest = keys_read(reads.drop_last());
        match reads.last() {
            Ok(Some(k)) => rest.push(k),
            _ => rest,
        }
    }
}

/// The error a run of reads stopped on: that of its last read, when it
/// failed.
pub open spec fn read_failure(reads: Seq<Result<Option<Seq<char>>, Seq<char>>>) -> Option<
    Seq<char>,
> {
    if reads.len() > 0 {
        match reads.last() {
            Err(e) => Some(e),
            _ => None,
        }
    } else {
        None
    }
}

/// Whether a run of reads found the end of the input on its last read.
pub open spec fn reads_ended(reads: Seq<Result<Option<Seq<char>>, Seq<char>>>) -> bool {
    reads.len() > 0 && reads.last() == Ok::<Option<Seq<char>>, Seq<char>>(None)
}

impl OperatorKeyLoop {
    spec fn inv<C: FourViewOperatorWrapperClock>(
        &self,
        pipe_name: Seq<char>,
        clock: C,
        sent_now: Seq<ControlPipeExchange>,
    ) -> bool {
        let views = key_summary_views(self.key_summaries@);
        &&& key_trace(pipe_name, clock, self.keys@, views, self.guards@, self.sent@)
        &&& self.guards@.last() == self.guard
        &&& self.sent@.last() == sent_now
        &&& self.commands_sent == sent_count(views)
        &&& self.ignored_keys == ignored_count(views)
        &&& self.key_summaries@.len() <= u32::MAX
        &&& continues_before_last(views)
        &&& self.stopped == asked_to_exit(views)
    }

    fn new<C: FourViewOperatorWrapperClock>(
        pipe_name: &str,
        clock: &C,
        sent_now: Ghost<Seq<ControlPipeExchange>>,
    ) -> (r: OperatorKeyLoop)
        ensures
            r.inv(pipe_name@, *clock, sent_now@),
            r.keys@ == Seq::<Seq<char>>::empty(),
            r.sent@[0] == sent_now@,
            !r.stopped,
    {
        OperatorKeyLoop {
            guard: FourViewOperatorWrapperGuardState { quit_armed: false, armed_until_millis: None },
            key_summaries: Vec::new(),
            commands_sent: 0,
            ignored_keys: 0,
            stopped: false,
            keys: Ghost(Seq::empty()),
            guards: Ghost(Seq::<FourViewOperatorWrapperGuardState>::empty().push(unarmed_guard())),
            sent: Ghost(Seq::<Seq<ControlPipeExchange>>::empty().push(sent_now@)),
        }
    }

    fn step<R: FourViewControlPipeClientRuntime, C: FourViewOperatorWrapperClock>(
        &mut self,
        raw_key: &str,
        pipe_name: &str,
        runtime: &mut R,
        clock: &C,
    )
        requires
            old(self).inv(pipe_name@, *clock, old(runtime).exchanges()),
            !old(self).stopped,
            old(self).key_summaries@.len() < u32::MAX,
        ensures
            final(self).inv(pipe_name@, *clock, final(runtime).exchanges()),
            final(self).keys@ == old(self).keys@.push(raw_key@),
            final(self).key_summaries@.len() == old(self).key_summaries@.len() + 1,
            final(self).sent@[0] == old(self).sent@[0],
    {
        let ghost views0 = key_summary_views(self.key_summaries@);
        let ghost sent_before = runtime.exchanges();
        let index = self.key_summaries.len();
        let mut guard = self.guard;
        let summary = process_four_view_operator_wrapper_key(
            index,
            raw_key,
            &mut guard,
            pipe_name,
            runtime,
            clock,
        );
        proof {
            lemma_counts_bounded(views0);
        }
        let sent = str_eq(summary.send_result.as_str(), "Sent");
        let ignored = str_eq(summary.send_result.as_str(), "Ignored");
        let goes_on = str_eq(summary.exit_reason.as_str(), "Continue");
        if sent {
            self.commands_sent = self.commands_sent + 1;
        }
        if ignored {
            self.ignored_keys = self.ignored_keys + 1;
        }
        self.stopped = !goes_on;
        let ghost sv = summary@;
        self.key_summaries.push(summary);
        self.guard = guard;
        self.keys = Ghost(self.keys@.push(raw_key@));
        self.guards = Ghost(self.guards@.push(guard));
        self.sent = Ghost(self.sent@.push(runtime.exchanges()));
        proof {
            let views = key_summary_views(self.key_summaries@);
            assert(views =~= views0.push(sv));
            assert(views.drop_last() =~= views0);
            let keys = self.keys@;
            let guards = self.guards@;
            let sent_seq = self.sent@;
            assert forall|i: int| 0 <= i < keys.len() implies #[trigger] operator_key_handled(
                i as nat,
                keys[i],
                guards[i],
                pipe_name@,
                *clock,
                sent_seq[i],
                guards[i + 1],
                sent_seq[i + 1],
                views[i],
            ) by {
                if i < keys.len() - 1 {
                } else {
                    assert(sent_seq[i] == sent_before);
                }
            }
        }
    }

    /// Reads keys from `reader` until the input ends, a key asks to end the
    /// session, or as many keys as a `u32` counts have been read; every key
    /// read is stepped, in order. The run fails with the reader's error, and
    /// only then; it ends well when the input ended, or when the session
    /// stopped or reached its key limit (a session already stopped reads
    /// nothing).
    fn run_reader<
        R: FourViewControlPipeClientRuntime,
        C: FourViewOperatorWrapperClock,
        K: FourViewOperatorWrapperRawKeyReader,
    >(
        &mut self,
        reader: &mut K,
        pipe_name: &str,
        runtime: &mut R,
        clock: &C,
    ) -> (r: Result<(), String>)
        requires
            old(self).inv(pipe_name@, *clock, old(runtime).exchanges()),
        ensures
            final(self).inv(pipe_name@, *clock, final(runtime).exchanges()),
            final(self).sent@[0] == old(self).sent@[0],
            final(reader).reads().len() >= old(reader).reads().len(),
            final(reader).reads().take(old(reader).reads().len() as int) == old(reader).reads(),
            final(self).keys@ == old(self).keys@ + keys_read(
                final(reader).reads().skip(old(reader).reads().len() as int),
            ),
            r matches Err(e) ==> read_failure(
                final(reader).reads().skip(old(reader).reads().len() as int),
            ) == Some(e@),
            r is Ok ==> read_failure(final(reader).reads().skip(old(reader).reads().len() as int))
                is None && (final(self).stopped || final(self).key_summaries@.len() == u32::MAX
                || reads_ended(final(reader).reads().skip(old(reader).reads().len() as int))),
    {
        let ghost reads0 = reader.reads();
        let ghost keys0 = self.keys@;
        let ghost sent0 = self.sent@[0];
        while !self.stopped && self.key_summaries.len() < 0xffff_ffffusize
            invariant
                self.inv(pipe_name@, *clock, runtime.exchanges()),
                self.sent@[0] == sent0,
                reads0 == old(reader).reads(),
                keys0 == old(self).keys@,
                sent0 == old(self).sent@[0],
                reader.reads().len() >= reads0.len(),
                reader.reads().take(reads0.len() as int) == reads0,
                self.keys@ == keys0 + keys_read(reader.reads().skip(reads0.len() as int)),
                forall|i: int|
                    reads0.len() <= i < reader.reads().len() ==> #[trigger] reader.reads()[i] matches Ok(
                        Some(_),
                    ),
            decreases u32::MAX - self.key_summaries@.len(),
        {
            let ghost before = reader.reads();
            let next = reader.read_next_key();
            proof {
                let read = key_read_view(next);
                assert(reader.reads() == before.push(read));
                assert(reader.reads().take(reads0.len() as int) =~= reads0);
                assert(reader.reads().skip(reads0.len() as int) =~= before.skip(reads0.len() as int).push(
                    read,
                ));
                assert(reader.reads().skip(reads0.len() as int).drop_last() =~= before.skip(
                    reads0.len() as int,
                ));
            }
            match next {
                Err(error) => {
                    return Err(error);
                },
                Ok(None) => {
                    return Ok(());
                },
                Ok(Some(raw_key)) => {
                    self.step(raw_key.as_str(), pipe_name, runtime, clock);
                },
            }
        }
        proof {
            let new_reads = reader.reads().skip(reads0.len() as int);
            if new_reads.len() > 0 {
                assert(new_reads.last() == reader.reads()[reader.reads().len() - 1]);
            }
        }
        Ok(())
    }
}

/// The keys of a `;`-separated key script, each trimmed, empty ones left
/// out.
pub fn split_scripted_operator_wrapper_keys(script: &str) -> (r: Vec<String>)
    ensures
        string_views(r@) == semicolon_tokens(script@),
{
    semicolon_separated_entries(script)
}

/// What holds of a finished session over the keys `keys`, with `clock`
/// timing them: the summary names the pipe and the input source, its key
/// summaries are what those keys give one after the other from an unarmed
/// guard, while the control pipe client's record goes from `sent_before` to
/// `sent_after`; its counts are those of its key summaries, only the last key
/// may have asked to end the session, the final guard is the last key's, and
/// the exit reason is the last key's when it asked to end, else that of the
/// input running out.
pub open spec fn session_summary_holds<C: FourViewOperatorWrapperClock>(
    pipe_name: Seq<char>,
    source: InputSourceView,
    clock: C,
    keys: Seq<Seq<char>>,
    sent_before: Seq<ControlPipeExchange>,
    sent_after: Seq<ControlPipeExchange>,
    summary: FourViewOperatorWrapperLoopSummary,
) -> bool {
    let views = key_summary_views(summary.key_summaries@);
    &&& summary.control_pipe_name@ == pipe_name
    &&& summary.input_source@ == input_source_text(source)
    &&& summary.keys_processed as nat == views.len()
    &&& summary.commands_sent as nat == sent_count(views)
    &&& summary.ignored_keys as nat == ignored_count(views)
    &&& continues_before_last(views)
    &&& exists|guards: Seq<FourViewOperatorWrapperGuardState>, sent: Seq<Seq<ControlPipeExchange>>|
        #[trigger] key_trace(pipe_name, clock, keys, views, guards, sent) && sent[0] == sent_before
            && sent.last() == sent_after && summary.final_guard_state@ == guard_text(guards.last())
    &&& summary.exit_reason@ == session_exit_reason(
        views,
        if source is ScriptedKeys {
            "ScriptedKeysCompleted"@
        } else {
            "InputClosed"@
        },
    )
}

/// Whether a session with no console to put back reports so.
pub open spec fn restore_not_applicable(summary: FourViewOperatorWrapperLoopSummary) -> bool {
    summary.raw_console_restore_result@ == "not_applicable"@ && summary.raw_console_restore_error@
        == "none"@
}

/// A scripted session on a named pipe succeeds; its keys are the script's
/// first ones, and it stops only at the end of the script, on a key that
/// asks to end the session, or at the key limit.
pub open spec fn scripted_session_outcome<C: FourViewOperatorWrapperClock>(
    pipe_name: Seq<char>,
    script: Seq<char>,
    clock: C,
    sent_before: Seq<ControlPipeExchange>,
    sent_after: Seq<ControlPipeExchange>,
    r: Result<FourViewOperatorWrapperLoopSummary, String>,
) -> bool {
    r matches Ok(summary) && {
        let views = key_summary_views(summary.key_summaries@);
        let tokens = semicolon_tokens(script);
        &&& session_summary_holds(
            pipe_name,
            InputSourceView::ScriptedKeys(script),
            clock,
            tokens.take(views.len() as int),
            sent_before,
            sent_after,
            summary,
        )
        &&& views.len() == tokens.len() || asked_to_exit(views) || views.len() == u32::MAX
        &&& restore_not_applicable(summary)
    }
}

/// A session on standard input whose reads gave `reads`: it fails with the
/// error of a failed read, after the keys read before it were handled;
/// otherwise it succeeds over the keys read, stopping at the end of the
/// input, on a key that asks to end the session, or at the key limit.
pub open spec fn stdin_session_outcome<C: FourViewOperatorWrapperClock>(
    pipe_name: Seq<char>,
    clock: C,
    reads: Seq<Result<Option<Seq<char>>, Seq<char>>>,
    sent_before: Seq<ControlPipeExchange>,
    sent_after: Seq<ControlPipeExchange>,
    r: Result<FourViewOperatorWrapperLoopSummary, String>,
) -> bool {
    match read_failure(reads) {
        Some(e) => {
            &&& r matches Err(x) && x@ == "stdin read failed: "@ + e
            &&& keys_reach_pipe(pipe_name, clock, keys_read(reads), sent_before, sent_after)
        },
        None => r matches Ok(summary) && {
            let views = key_summary_views(summary.key_summaries@);
            &&& session_summary_holds(
                pipe_name,
                InputSourceView::Stdin,
                clock,
                keys_read(reads),
                sent_before,
                sent_after,
                summary,
            )
            &&& reads_ended(reads) || asked_to_exit(views) || views.len() == u32::MAX
            &&& restore_not_applicable(summary)
        },
    }
}

/// The error a raw key session ends with, from what its reader read and
/// where the restore of the console mode stood when it was closed: a failed
/// restore, after the read error when there was one; else a read error; else
/// none.
pub open spec fn raw_session_error(
    reads: Seq<Result<Option<Seq<char>>, Seq<char>>>,
    restore: FourViewOperatorWrapperRawConsoleRestoreState,
) -> Option<Seq<char>> {
    let restore_failure = "raw key console mode restore failed: "@ + restore_fields(restore).1;
    if restore is Failed {
        match read_failure(reads) {
            Some(e) => Some("raw key read failed: "@ + e + "; "@ + restore_failure),
            None => Some(restore_failure),
        }
    } else {
        match read_failure(reads) {
            Some(e) => Some("raw key read failed: "@ + e),
            None => None,
        }
    }
}

/// A raw key session on a named pipe: the console is opened once. When that
/// fails, the session fails with the setup error and nothing is sent or
/// closed. Otherwise the reader is closed once; the keys it read were handled
/// in order; the session fails as `raw_session_error` says, or else succeeds
/// over those keys, stopping at the end of the input, on a key that asks to
/// end the session, or at the key limit, and reports the restore as it stood.
pub open spec fn raw_session_outcome<C: FourViewOperatorWrapperClock>(
    pipe_name: Seq<char>,
    clock: C,
    openings_before: Seq<Result<(), Seq<char>>>,
    openings_after: Seq<Result<(), Seq<char>>>,
    closings_before: Seq<
        (Seq<Result<Option<Seq<char>>, Seq<char>>>, FourViewOperatorWrapperRawConsoleRestoreState),
    >,
    closings_after: Seq<
        (Seq<Result<Option<Seq<char>>, Seq<char>>>, FourViewOperatorWrapperRawConsoleRestoreState),
    >,
    sent_before: Seq<ControlPipeExchange>,
    sent_after: Seq<ControlPipeExchange>,
    r: Result<FourViewOperatorWrapperLoopSummary, String>,
) -> bool {
    &&& openings_after.len() == openings_before.len() + 1
    &&& openings_after.drop_last() == openings_before
    &&& match openings_after.last() {
        Err(e) => {
            &&& r matches Err(x) && x@ == "raw key setup failed: "@ + e
            &&& closings_after == closings_before
            &&& sent_after == sent_before
        },
        Ok(()) => {
            let (reads, restore) = closings_after.last();
            &&& closings_after.len() == closings_before.len() + 1
            &&& closings_after.drop_last() == closings_before
            &&& keys_reach_pipe(pipe_name, clock, keys_read(reads), sent_before, sent_after)
            &&& match raw_session_error(reads, restore) {
                Some(msg) => r matches Err(x) && x@ == msg,
                None => r matches Ok(summary) && {
                    let views = key_summary_views(summary.key_summaries@);
                    &&& session_summary_holds(
                        pipe_name,
                        InputSourceView::RawKeys,
                        clock,
                        keys_read(reads),
                        sent_before,
                        sent_after,
                        summary,
                    )
                    &&& reads_ended(reads) || asked_to_exit(views) || views.len() == u32::MAX
                    &&& (summary.raw_console_restore_result@, summary.raw_console_restore_error@)
                        == restore_fields(restore)
                },
            }
        },
    }
}

fn prefixed(prefix: &str, text: &str) -> (r: String)
    ensures
        r@ == prefix@ + text@,
{
    let mut s = owned(prefix);
    push_str(&mut s, text);
    s
}

/// Runs an operator wrapper session: reads keys from the input source, sends
/// their commands over the control pipe, and sums up the session. A blank
/// pipe name is refused before anything is read or sent; standard input is
/// read through `stdin_lines`, raw keys through a reader that
/// `raw_key_runtime` opens and closes again. At most `u32::MAX` keys are read
/// in one session.
pub fn run_four_view_operator_wrapper_with_runtime_and_clock_and_raw_key_runtime<
    R: FourViewControlPipeClientRuntime,
    C: FourViewOperatorWrapperClock,
    K: FourViewOperatorWrapperRawKeyRuntime,
    L: FourViewOperatorWrapperRawKeyReader,
>(
    control_pipe_name: &str,
    input_source: FourViewOperatorWrapperInputSource,
    runtime: &mut R,
    clock: &C,
    raw_key_runtime: &mut K,
    stdin_lines: &mut L,
) -> (r: Result<FourViewOperatorWrapperLoopSummary, String>)
    ensures
        trim(control_pipe_name@).len() == 0 ==> (r matches Err(e) && e@
            == empty_pipe_name_message()) && final(runtime).exchanges() == old(runtime).exchanges()
            && final(raw_key_runtime).openings() == old(raw_key_runtime).openings()
            && final(raw_key_runtime).closings() == old(raw_key_runtime).closings()
            && final(stdin_lines).reads() == old(stdin_lines).reads(),
        trim(control_pipe_name@).len() != 0 ==> (match input_source@ {
            InputSourceView::ScriptedKeys(script) => {
                &&& scripted_session_outcome(
                    control_pipe_name@,
                    script,
                    *clock,
                    old(runtime).exchanges(),
                    final(runtime).exchanges(),
                    r,
                )
                &&& final(raw_key_runtime).openings() == old(raw_key_runtime).openings()
                &&& final(raw_key_runtime).closings() == old(raw_key_runtime).closings()
                &&& final(stdin_lines).reads() == old(stdin_lines).reads()
            },
            InputSourceView::Stdin => {
                &&& final(stdin_lines).reads().len() >= old(stdin_lines).reads().len()
                &&& final(stdin_lines).reads().take(old(stdin_lines).reads().len() as int) == old(
                    stdin_lines,
                ).reads()
                &&& stdin_session_outcome(
                    control_pipe_name@,
                    *clock,
                    final(stdin_lines).reads().skip(old(stdin_lines).reads().len() as int),
                    old(runtime).exchanges(),
                    final(runtime).exchanges(),
                    r,
                )
                &&& final(raw_key_runtime).openings() == old(raw_key_runtime).openings()
                &&& final(raw_key_runtime).closings() == old(raw_key_runtime).closings()
            },
            InputSourceView::RawKeys => {
                &&& raw_session_outcome(
                    control_pipe_name@,
                    *clock,
                    old(raw_key_runtime).openings(),
                    final(raw_key_runtime).openings(),
                    old(raw_key_runtime).closings(),
                    final(raw_key_runtime).closings(),
                    old(runtime).exchanges(),
                    final(runtime).exchanges(),
                    r,
                )
                &&& final(stdin_lines).reads() == old(stdin_lines).reads()
            },
        }),
{
    if is_blank(control_pipe_name) {
        return Err(owned("control pipe name must not be empty"));
    }
    let input_source_summary = match &input_source {
        FourViewOperatorWrapperInputSource::Stdin => owned("stdin"),
        FourViewOperatorWrapperInputSource::ScriptedKeys(script) => {
            let t = sanitize_summary_value(script.as_str());
            prefixed("scripted:", t.as_str())
        },
        FourViewOperatorWrapperInputSource::RawKeys => owned("raw_keys"),
    };
    let ghost source = input_source@;
    let ghost sent_before = runtime.exchanges();
    let ghost stdin_before = stdin_lines.reads();
    let ghost openings_before = raw_key_runtime.openings();
    let ghost closings_before = raw_key_runtime.closings();
    let mut state = OperatorKeyLoop::new(control_pipe_name, clock, Ghost(sent_before));
    let mut restore_result = owned("not_applicable");
    let mut restore_error = owned("none");
    let ghost mut keys_fed: Seq<Seq<char>> = Seq::empty();
    let ghost mut reads_fed: Seq<Result<Option<Seq<char>>, Seq<char>>> = Seq::empty();
    let fallback;
    match input_source {
        FourViewOperatorWrapperInputSource::Stdin => {
            let read = state.run_reader(stdin_lines, control_pipe_name, runtime, clock);
            proof {
                reads_fed = stdin_lines.reads().skip(stdin_before.len() as int);
                assert(state.keys@ =~= keys_read(reads_fed));
                keys_fed = state.keys@;
            }
            if let Err(error) = read {
                let e = prefixed("stdin read failed: ", error.as_str());
                proof {
                    let views = key_summary_views(state.key_summaries@);
                    assert(key_trace(
                        control_pipe_name@,
                        *clock,
                        keys_fed,
                        views,
                        state.guards@,
                        state.sent@,
                    ));
                }
                return Err(e);
            }
            fallback = owned("InputClosed");
        },
        FourViewOperatorWrapperInputSource::ScriptedKeys(script) => {
            let keys = split_scripted_operator_wrapper_keys(script.as_str());
            let ghost tokens = semicolon_tokens(script@);
            let mut k: usize = 0;
            assert(tokens.take(0) =~= Seq::<Seq<char>>::empty());
            while k < keys.len() && !state.stopped && state.key_summaries.len() < 0xffff_ffffusize
                invariant
                    state.inv(control_pipe_name@, *clock, runtime.exchanges()),
                    state.sent@[0] == sent_before,
                    k <= keys.len(),
                    k == state.key_summaries@.len(),
                    string_views(keys@) == tokens,
                    state.keys@ == tokens.take(k as int),
                decreases keys.len() - k,
            {
                state.step(keys[k].as_str(), control_pipe_name, runtime, clock);
                assert(tokens.take(k + 1) =~= tokens.take(k as int).push(keys@[k as int]@));
                k = k + 1;
            }
            proof {
                keys_fed = state.keys@;
            }
            fallback = owned("ScriptedKeysCompleted");
        },
        FourViewOperatorWrapperInputSource::RawKeys => {
            let mut reader = match raw_key_runtime.open() {
                Ok(reader) => reader,
                Err(error) => {
                    proof {
                        assert(raw_key_runtime.openings().drop_last() =~= openings_before);
                    }
                    return Err(prefixed("raw key setup failed: ", error.as_str()));
                },
            };
            proof {
                assert(raw_key_runtime.openings().drop_last() =~= openings_before);
            }
            let read = state.run_reader(&mut reader, control_pipe_name, runtime, clock);
            proof {
                reads_fed = reader.reads();
                assert(reader.reads().skip(0) =~= reads_fed);
                assert(state.keys@ =~= keys_read(reads_fed));
                keys_fed = state.keys@;
                let views = key_summary_views(state.key_summaries@);
                assert(key_trace(
                    control_pipe_name@,
                    *clock,
                    keys_fed,
                    views,
                    state.guards@,
                    state.sent@,
                ));
            }
            let tracker = raw_key_runtime.close(reader);
            let (result, error) = tracker.summary_fields();
            proof {
                assert(raw_key_runtime.closings().drop_last() =~= closings_before);
                assert(raw_key_runtime.closings().last() == (reads_fed, tracker.state));
                assert(raw_key_runtime.openings().drop_last() =~= openings_before);
                assert(keys_reach_pipe(
                    control_pipe_name@,
                    *clock,
                    keys_read(reads_fed),
                    sent_before,
                    runtime.exchanges(),
                ));
            }
            let failed = match &tracker.state {
                FourViewOperatorWrapperRawConsoleRestoreState::Failed(_) => true,
                _ => false,
            };
            if failed {
                let restore = prefixed("raw key console mode restore failed: ", error.as_str());
                return match read {
                    Ok(()) => Err(restore),
                    Err(read_error) => {
                        let mut e = prefixed("raw key read failed: ", read_error.as_str());
                        push_str(&mut e, "; ");
                        push_str(&mut e, restore.as_str());
                        Err(e)
                    },
                };
            }
            if let Err(read_error) = read {
                return Err(prefixed("raw key read failed: ", read_error.as_str()));
            }
            restore_result = result;
            restore_error = error;
            fallback = owned("InputClosed");
        },
    }
    let ghost views = key_summary_views(state.key_summaries@);
    let exit_reason = if state.stopped {
        let last = state.key_summaries.len() - 1;
        assert(views[last as int] == state.key_summaries@[last as int]@);
        owned(state.key_summaries[last].exit_reason.as_str())
    } else {
        fallback
    };
    let keys_processed = state.key_summaries.len() as u32;
    let final_guard_state = format_four_view_operator_wrapper_guard_state(&state.guard);
    let summary = FourViewOperatorWrapperLoopSummary {
        control_pipe_name: owned(control_pipe_name),
        input_source: input_source_summary,
        key_summaries: state.key_summaries,
        keys_processed,
        commands_sent: state.commands_sent,
        ignored_keys: state.ignored_keys,
        final_guard_state,
        raw_console_restore_result: restore_result,
        raw_console_restore_error: restore_error,
        exit_reason,
    };
    assert(key_trace(control_pipe_name@, *clock, keys_fed, views, state.guards@, state.sent@));
    assert(key_summary_views(summary.key_summaries@) == views);
    assert(session_summary_holds(
        control_pipe_name@,
        source,
        *clock,
        keys_fed,
        sent_before,
        runtime.exchanges(),
        summary,
    ));
    assert(summary.exit_reason@ == session_exit_reason(
        views,
        if source is ScriptedKeys {
            "ScriptedKeysCompleted"@
        } else {
            "InputClosed"@
        },
    ));
    Ok(summary)
}

/// A quit needs two quit keys: from an unarmed guard, a first `q` only arms
/// the guard and sends nothing, and a second `q` that arrives before the
/// guard window has passed sends `quit` and disarms the guard.
pub proof fn law_double_quit_within_window_sends_quit(
    first_key: Seq<char>,
    second_key: Seq<char>,
    pipe_name: Seq<char>,
    first_expiry_now: u64,
    first_arm_now: u64,
    first_reply: Result<Seq<char>, Seq<char>>,
    second_expiry_now: u64,
    second_arm_now: u64,
    second_reply: Result<Seq<char>, Seq<char>>,
)
    requires
        key_is_quit(first_key),
        key_is_quit(second_key),
        second_expiry_now < first_arm_now + DEFAULT_OPERATOR_WRAPPER_QUIT_GUARD_WINDOW_MILLIS,
        second_expiry_now < u64::MAX,
    ensures
        ({
            let (after_first, first) = operator_key_step(
                0,
                first_key,
                unarmed_guard(),
                pipe_name,
                first_expiry_now,
                first_arm_now,
                first_reply,
            );
            let (after_second, second) = operator_key_step(
                1,
                second_key,
                after_first,
                pipe_name,
                second_expiry_now,
                second_arm_now,
                second_reply,
            );
            &&& first.send_result == "GuardArmed"@
            &&& first.mapped_command == "quit"@
            &&& after_first.quit_armed
            &&& second.mapped_command == "quit"@
            &&& second == key_summary(
                1,
                second_key,
                "quit"@,
                unarmed_guard(),
                KeyOutcomeView::Replied(effective_reply(pipe_name, second_reply)),
            )
            &&& after_second == unarmed_guard()
        }),
{
}

/// Once the guard window has passed, a second `q` does not quit: the expired
/// guard is cleared and the key arms it anew, sending nothing.
pub proof fn law_quit_after_window_arms_again(
    key: Seq<char>,
    pipe_name: Seq<char>,
    guard: FourViewOperatorWrapperGuardState,
    expiry_now: u64,
    arm_now: u64,
    reply: Result<Seq<char>, Seq<char>>,
)
    requires
        key_is_quit(key),
        guard.quit_armed,
        guard.armed_until_millis matches Some(until) && expiry_now >= until,
    ensures
        ({
            let (after, summary) = operator_key_step(
                0,
                key,
                guard,
                pipe_name,
                expiry_now,
                arm_now,
                reply,
            );
            &&& summary.send_result == "GuardArmed"@
            &&& after == armed_guard(arm_now)
        }),
{
}

/// Any key but `q` leaves the quit guard unarmed.
pub proof fn law_other_keys_clear_quit_guard(
    key_index: nat,
    key: Seq<char>,
    pipe_name: Seq<char>,
    guard: FourViewOperatorWrapperGuardState,
    expiry_now: u64,
    arm_now: u64,
    reply: Result<Seq<char>, Seq<char>>,
)
    requires
        !key_is_quit(key),
    ensures
        operator_key_step(key_index, key, guard, pipe_name, expiry_now, arm_now, reply).0
            == unarmed_guard(),
{
}

/// A key that maps to no command is ignored locally: nothing is sent, and
/// the summary reports `Ignored` with `unknown_key`.
pub proof fn law_unknown_key_is_ignored(
    key_index: nat,
    key: Seq<char>,
    pipe_name: Seq<char>,
    guard: FourViewOperatorWrapperGuardState,
    expiry_now: u64,
    arm_now: u64,
    reply: Result<Seq<char>, Seq<char>>,
)
    requires
        !key_is_quit(key),
        key_command(key) is None,
    ensures
        ({
            let summary = operator_key_step(
                key_index,
                key,
                guard,
                pipe_name,
                expiry_now,
                arm_now,
                reply,
            ).1;
            &&& summary.send_result == "Ignored"@
            &&& summary.mapped_command == "none"@
            &&& summary.wrapper_error == "unknown_key"@
        }),
{
}

/// A mapped key sends its command whatever the guard: its summary is that
/// of the control pipe's reply to that command.
pub proof fn law_mapped_key_sends_its_command(
    key_index: nat,
    key: Seq<char>,
    pipe_name: Seq<char>,
    guard: FourViewOperatorWrapperGuardState,
    expiry_now: u64,
    arm_now: u64,
    reply: Result<Seq<char>, Seq<char>>,
)
    requires
        key_command(key) is Some,
    ensures
        operator_key_step(key_index, key, guard, pipe_name, expiry_now, arm_now, reply).1
            == key_summary(
            key_index,
            key,
            sanitized(key_command(key)->0),
            unarmed_guard(),
            KeyOutcomeView::Replied(effective_reply(pipe_name, reply)),
        ),
{
}

/// On a named pipe, a key reaches the control pipe client exactly when its
/// summary reports the command sent, or the send failed; otherwise the
/// client's record is left as it was.
pub proof fn law_key_reaches_pipe_exactly_when_summary_says_sent(
    key_index: nat,
    raw_key: Seq<char>,
    before: FourViewOperatorWrapperGuardState,
    pipe_name: Seq<char>,
    expiry_now: u64,
    arm_now: u64,
    sent_before: Seq<ControlPipeExchange>,
    after: FourViewOperatorWrapperGuardState,
    sent_after: Seq<ControlPipeExchange>,
    summary: KeySummaryView,
)
    requires
        trim(pipe_name).len() != 0,
        operator_key_exchange(
            key_index,
            raw_key,
            before,
            pipe_name,
            expiry_now,
            arm_now,
            sent_before,
            after,
            sent_after,
            summary,
        ),
    ensures
        sent_after.len() == sent_before.len() + 1 <==> (summary.send_result == "Sent"@
            || summary.send_result == "SendFailed"@),
        sent_after.len() != sent_before.len() + 1 ==> sent_after == sent_before,
{
    reveal_strlit("Sent");
    reveal_strlit("SendFailed");
    reveal_strlit("GuardArmed");
    reveal_strlit("Ignored");
    assert("Sent"@.len() != "SendFailed"@.len());
    assert("GuardArmed"@.len() != "Sent"@.len() && "GuardArmed"@[0] != "SendFailed"@[0]);
    assert("Ignored"@.len() != "Sent"@.len() && "Ignored"@.len() != "SendFailed"@.len());
    match key_sends(raw_key, before, pipe_name, expiry_now) {
        Some(_) => {
            let reply = sent_after.last().reply;
            assert(sent_after.len() == sent_before.len() + 1);
            match reply {
                Ok(_) => assert(summary.send_result == "Sent"@),
                Err(_) => assert(summary.send_result == "SendFailed"@),
            }
        },
        None => {
            if key_is_quit(raw_key) {
                assert(summary.send_result == "GuardArmed"@);
            } else {
                assert(summary.send_result == "Ignored"@);
            }
        },
    }
}

/// The digit keys `1` to `4` focus the slots in order: key `k` maps to the
/// control command `focus k-1`.
pub proof fn law_digit_keys_focus_their_slot(c: char)
    requires
        '1' <= c <= '4',
    ensures
        mapped_key_command(c) == Some("focus "@ + decimal((c as int - '1' as int) as nat)),
{
    reveal_strlit("focus ");
    reveal_strlit("focus 0");
    reveal_strlit("focus 1");
    reveal_strlit("focus 2");
    reveal_strlit("focus 3");
    let n = (c as int - '1' as int) as nat;
    assert(decimal(n) == seq![digit_char(n)]);
    if c == '1' {
        assert("focus "@ + decimal(n) =~= "focus 0"@);
    } else if c == '2' {
        assert("focus "@ + decimal(n) =~= "focus 1"@);
    } else if c == '3' {
        assert("focus "@ + decimal(n) =~= "focus 2"@);
    } else {
        assert(c == '4');
        assert("focus "@ + decimal(n) =~= "focus 3"@);
    }
}

/// The line printed for one key.
pub open spec fn key_summary_line(s: KeySummaryView) -> Seq<char> {
    "switcher four-view operator wrapper key command_name=--four-view-operator-wrapper key_index="@
        + decimal(s.key_index) + " wrapper_key="@ + s.wrapper_key + " mapped_command="@
        + s.mapped_command + " guard_state="@ + s.guard_state + " send_result="@ + s.send_result
        + " response_line="@ + s.response_line + " command_parse_error="@ + s.command_parse_error
        + " wrapper_error="@ + s.wrapper_error + " exit_reason="@ + s.exit_reason
}

/// Formats the line printed for one key.
pub fn format_four_view_operator_wrapper_key_summary(
    summary: &FourViewOperatorWrapperKeySummary,
) -> (r: String)
    ensures
        r@ == key_summary_line(summary@),
{
    let mut s = owned(
        "switcher four-view operator wrapper key command_name=--four-view-operator-wrapper key_index=",
    );
    push_decimal(&mut s, summary.key_index as u128);
    push_str(&mut s, " wrapper_key=");
    push_str(&mut s, summary.wrapper_key.as_str());
    push_str(&mut s, " mapped_command=");
    push_str(&mut s, summary.mapped_command.as_str());
    push_str(&mut s, " guard_state=");
    push_str(&mut s, summary.guard_state.as_str());
    push_str(&mut s, " send_result=");
    push_str(&mut s, summary.send_result.as_str());
    push_str(&mut s, " response_line=");
    push_str(&mut s, summary.response_line.as_str());
    push_str(&mut s, " command_parse_error=");
    push_str(&mut s, summary.command_parse_error.as_str());
    push_str(&mut s, " wrapper_error=");
    push_str(&mut s, summary.wrapper_error.as_str());
    push_str(&mut s, " exit_reason=");
    push_str(&mut s, summary.exit_reason.as_str());
    s
}

/// The line printed at the end of a session; the pipe name is sanitized.
pub open spec fn loop_summary_line(s: FourViewOperatorWrapperLoopSummary) -> Seq<char> {
    "switcher four-view operator wrapper loop command_name=--four-view-operator-wrapper control_pipe_name="@
        + sanitized(s.control_pipe_name@) + " input_source="@ + s.input_source@
        + " keys_processed="@ + decimal(s.keys_processed as nat) + " commands_sent="@ + decimal(
        s.commands_sent as nat,
    ) + " ignored_keys="@ + decimal(s.ignored_keys as nat) + " final_guard_state="@
        + s.final_guard_state@ + " raw_console_restore_result="@ + s.raw_console_restore_result@
        + " raw_console_restore_error="@ + s.raw_console_restore_error@ + " exit_reason="@
        + s.exit_reason@
}

/// Formats the line printed at the end of a session.
pub fn format_four_view_operator_wrapper_loop_summary(
    summary: &FourViewOperatorWrapperLoopSummary,
) -> (r: String)
    ensures
        r@ == loop_summary_line(*summary),
{
    let mut s = owned(
        "switcher four-view operator wrapper loop command_name=--four-view-operator-wrapper control_pipe_name=",
    );
    let pipe = sanitize_summary_value(summary.control_pipe_name.as_str());
    push_str(&mut s, pipe.as_str());
    push_str(&mut s, " input_source=");
    push_str(&mut s, summary.input_source.as_str());
    push_str(&mut s, " keys_processed=");
    push_decimal(&mut s, summary.keys_processed as u128);
    push_str(&mut s, " commands_sent=");
    push_decimal(&mut s, summary.commands_sent as u128);
    push_str(&mut s, " ignored_keys=");
    push_decimal(&mut s, summary.ignored_keys as u128);
    push_str(&mut s, " final_guard_state=");
    push_str(&mut s, summary.final_guard_state.as_str());
    push_str(&mut s, " raw_console_restore_result=");
    push_str(&mut s, summary.raw_console_restore_result.as_str());
    push_str(&mut s, " raw_console_restore_error=");
    push_str(&mut s, summary.raw_console_restore_error.as_str());
    push_str(&mut s, " exit_reason=");
    push_str(&mut s, summary.exit_reason.as_str());
    s
}

} // verus!
